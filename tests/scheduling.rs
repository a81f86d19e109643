use maestro::engine::{
    ci_check_target, diff_source, executions_to_start, not_pushed_updates, refreshed_ci_status,
    stop_all_targets, CiCheckError, DiffSource,
};
use maestro::naming::{NameError, ProviderKind};
use maestro::records::Execution;
use maestro::tokens::{mask_secret, AllTokens, TokenKey};
use maestro::types::{CiStatus, CommitStatus, ExecutionStatus, ValidationStatus};

fn rec(id: &str, status: ExecutionStatus) -> Execution {
    let mut e = Execution::new_pending(id.to_string(), "p".to_string(), "r".to_string(), "repo".to_string(), 0);
    e.status = status;
    e
}

#[test]
fn start_pending_up_to_the_cap() {
    let records = vec![
        rec("a", ExecutionStatus::Running),
        rec("b", ExecutionStatus::Pending),
        rec("c", ExecutionStatus::Completed),
        rec("d", ExecutionStatus::Pending),
        rec("e", ExecutionStatus::Pending),
    ];
    assert_eq!(executions_to_start(&records, 3), vec![1, 3]);
    assert_eq!(executions_to_start(&records, 10), vec![1, 3, 4]);
    assert_eq!(executions_to_start(&records, 1), Vec::<usize>::new());
    assert_eq!(executions_to_start(&records, -4), Vec::<usize>::new());
}

#[test]
fn stop_all_picks_running() {
    let mut v = rec("v", ExecutionStatus::Completed);
    v.validation_status = Some(ValidationStatus::Running);
    let records = vec![rec("a", ExecutionStatus::Running), v, rec("c", ExecutionStatus::Pending)];
    assert_eq!(stop_all_targets(&records, false), vec![0]);
    assert_eq!(stop_all_targets(&records, true), vec![1]);
}

#[test]
fn diff_source_choice() {
    let mut e = rec("a", ExecutionStatus::Completed);
    assert!(matches!(diff_source(&e), DiffSource::Worktree));
    e.commit_status = CommitStatus::Committed;
    e.commit_sha = Some("c1".to_string());
    assert!(matches!(diff_source(&e), DiffSource::Worktree));
    e.parent_sha = Some("p1".to_string());
    match diff_source(&e) {
        DiffSource::Committed { parent_sha, commit_sha } => {
            assert_eq!(parent_sha, "p1");
            assert_eq!(commit_sha, "c1");
        }
        DiffSource::Worktree => panic!("committed diff expected"),
    }
}

#[test]
fn ci_check_targets() {
    let mut e = rec("a", ExecutionStatus::Completed);
    assert_eq!(ci_check_target(&e, true).err(), Some(CiCheckError::NotCommitted));
    e.commit_sha = Some("c".to_string());
    assert_eq!(ci_check_target(&e, true).err(), Some(CiCheckError::NoBranch));
    assert_eq!(ci_check_target(&e, false).unwrap(), ("c".to_string(), "main".to_string()));
    e.branch = Some("b".to_string());
    assert_eq!(ci_check_target(&e, true).unwrap(), ("c".to_string(), "b".to_string()));
    assert_eq!(not_pushed_updates().ci_status, Some(CiStatus::NotPushed));
    assert_eq!(refreshed_ci_status(None), CiStatus::NotConfigured);
    assert_eq!(refreshed_ci_status(Some(CiStatus::Failed)), CiStatus::Failed);
}

#[test]
fn provider_kinds() {
    assert_eq!(ProviderKind::parse("github"), Ok(ProviderKind::GitHub));
    assert_eq!(ProviderKind::parse("gitlab").unwrap().token_key(), TokenKey::GitlabToken);
    assert_eq!(ProviderKind::parse("bitbucket"), Err(NameError::UnsupportedProvider));
}

#[test]
fn secrets_are_masked() {
    assert_eq!(mask_secret("abcdefghijkl"), "abcd...ijkl");
    assert_eq!(mask_secret("short"), "\u{2022}".repeat(8));
    assert_eq!(mask_secret(""), "");
    let mut t = AllTokens::empty();
    t.replace(TokenKey::AmpToken, Some("0123456789".to_string()));
    let m = t.masked();
    assert_eq!(m.amp_token.as_deref(), Some("0123...6789"));
    assert_eq!(m.github_token, None);
}
