use maestro::agent::{exec_run_key, validation_run_key};
use maestro::diff::{classify_entry, shown_count, tally_lines, EntryFlags};
use maestro::naming::{
    build_https_remote, build_provider_cfg, parse_provider_id, repo_key, ssh_clone_url, NameError, ProviderConfig,
};
use maestro::prompts::{commit_prompt, execution_prompt, resume_prompt, thread_url, validation_prompt};
use maestro::tokens::{AllTokens, TokenKey};
use maestro::types::{CiStatus, CommitStatus, ExecutionStatus, FileStatus, ValidationStatus};
use maestro::worktree::{add_worktree_steps, plan_worktree, remove_worktree_steps, resume_default_branch, GitStep};

#[test]
fn provider_id_errors_are_typed() {
    assert_eq!(parse_provider_id("a/b/c").err(), Some(NameError::WrongShape));
    assert_eq!(parse_provider_id("/repo").err(), Some(NameError::EmptyPart));
    assert_eq!(parse_provider_id("").err(), Some(NameError::WrongShape));
    let (o, r) = parse_provider_id("gitlab.com/group/proj").unwrap();
    assert_eq!((o.as_str(), r.as_str()), ("group", "proj"));
    let (o, r) = parse_provider_id("github.com/github.com/x/y").unwrap();
    assert_eq!((o.as_str(), r.as_str()), ("x", "y"));
}

#[test]
fn short_ids_in_branch_and_keys() {
    assert_eq!(maestro::naming::maestro_branch_name("ab", "cdefghijkl", "x"), "maestro/ab/cdefghij/x");
    assert_eq!(maestro::naming::maestro_branch_name("ééééé", "aéééé", "日本語です"), "maestro/éééé/aééé/日本");
    assert_eq!(repo_key("owner", "repo"), "owner/repo");
    assert_eq!(exec_run_key("e1"), "exec:e1");
    assert_eq!(validation_run_key("e1"), "val:e1");
}

#[test]
fn clone_urls() {
    assert_eq!(ssh_clone_url("github", "o", "r", None).unwrap(), "git@github.com:o/r.git");
    assert_eq!(ssh_clone_url("gitlab", "o", "r", None).unwrap(), "git@gitlab.com:o/r.git");
    assert_eq!(
        ssh_clone_url("gitlab", "o", "r", Some("http://git.corp.example/")).unwrap(),
        "git@git.corp.example:o/r.git"
    );
    assert_eq!(ssh_clone_url("svn", "o", "r", None).err(), Some(NameError::UnsupportedProvider));
    assert_eq!(
        build_https_remote("gitlab", "o", "r", Some("https://git.corp.example:8443/base/")).unwrap().url,
        "https://git.corp.example/o/r.git"
    );
    assert_eq!(
        build_https_remote("gitlab", "o", "r", Some("//git.corp.example/")).unwrap().url,
        "https://git.corp.example/o/r.git"
    );
}

#[test]
fn provider_configs() {
    match build_provider_cfg("github", "github.com/o/r", None).unwrap() {
        ProviderConfig::GitHub { owner, repo } => assert_eq!((owner.as_str(), repo.as_str()), ("o", "r")),
        _ => panic!("github config"),
    }
    match build_provider_cfg("gitlab", "o/r", Some("https://gl.example")).unwrap() {
        ProviderConfig::GitLab { project_id, slug, web_base_url } => {
            assert_eq!(project_id, "o/r");
            assert_eq!(slug, "o/r");
            assert_eq!(web_base_url, "https://gl.example");
        }
        _ => panic!("gitlab config"),
    }
    assert_eq!(build_provider_cfg("hg", "o/r", None).err(), Some(NameError::UnsupportedProvider));
    assert_eq!(build_provider_cfg("github", "o", None).err(), Some(NameError::WrongShape));
}

#[test]
fn status_names_round_trip() {
    for s in [
        ExecutionStatus::Pending,
        ExecutionStatus::Running,
        ExecutionStatus::Completed,
        ExecutionStatus::Failed,
        ExecutionStatus::Cancelled,
    ] {
        assert_eq!(ExecutionStatus::parse(s.as_str()), Some(s));
    }
    assert_eq!(CiStatus::NotConfigured.as_str(), "not_configured");
    assert_eq!(CiStatus::parse("not_pushed"), Some(CiStatus::NotPushed));
    assert_eq!(CommitStatus::Unset.as_str(), "none");
    assert_eq!(ValidationStatus::parse("passed"), Some(ValidationStatus::Passed));
    assert_eq!(FileStatus::parse("renamed"), Some(FileStatus::Renamed));
    assert_eq!(ExecutionStatus::parse("bogus"), None);
}

#[test]
fn prompts_carry_markers() {
    let p = execution_prompt("Fix the bug");
    assert!(p.starts_with("Fix the bug\n\nIMPORTANT:"));
    assert!(p.ends_with("PROMPT: PASS\nPROMPT: FAIL"));
    assert!(resume_prompt().starts_with("Please continue with the previous task.\n\n"));
    let v = validation_prompt("maestro/a/b/c", "Tests pass");
    assert!(v.contains("changes in maestro/a/b/c.\n"));
    assert!(v.contains("\n\nTests pass\n\nIMPORTANT"));
    assert!(v.ends_with("VALIDATION: PASS\nVALIDATION: FAIL"));
    assert_eq!(thread_url("abc"), "https://ampcode.com/threads/abc");
}

#[test]
fn commit_prompts() {
    assert_eq!(
        commit_prompt(None),
        "Please commit the current changes with an appropriate commit message."
    );
    let files = vec!["src/a.rs".to_string(), "README.md".to_string()];
    assert_eq!(
        commit_prompt(Some(&files)),
        "Please commit only the following files with an appropriate commit message:\n- src/a.rs\n- README.md"
    );
}

#[test]
fn token_bundle() {
    let mut t = AllTokens::empty();
    assert!(t.is_empty());
    let key = TokenKey::parse("github_token").unwrap();
    assert_eq!(t.replace(key, Some("SECRET-REDACTED".to_string())), None);
    assert_eq!(t.get(key).as_deref(), Some("SECRET-REDACTED"));
    assert!(!t.is_empty());
    assert_eq!(t.get(TokenKey::GitlabToken), None);
    assert_eq!(t.replace(key, None).as_deref(), Some("SECRET-REDACTED"));
    assert!(t.is_empty());
    assert_eq!(TokenKey::parse("nope"), None);
}

#[test]
fn worktree_plan_is_stable() {
    let a = plan_worktree("/wt", "ps-123456789", "rev-123456789", "ex-123456789", "main");
    let b = plan_worktree("/wt", "ps-123456789", "rev-123456789", "ex-123456789", "main");
    assert_eq!(a.branch, b.branch);
    assert_eq!(a.path, b.path);
    assert_eq!(a.branch, "maestro/ps-12345/rev-1234/ex-12345");
    assert_eq!(a.path, "/wt/ps-123456789/ex-123456789");
    assert_eq!(a.base_ref, "origin/main");
    assert_eq!(add_worktree_steps(false, false), vec![GitStep::AddWorktree]);
    assert_eq!(
        add_worktree_steps(true, true),
        vec![GitStep::RemoveWorktree, GitStep::Prune, GitStep::DeleteBranch, GitStep::AddWorktree]
    );
    assert_eq!(remove_worktree_steps(false), vec![GitStep::RemoveWorktree, GitStep::Prune]);
    assert_eq!(resume_default_branch(None, None), "main");
    assert_eq!(resume_default_branch(None, Some("dev".to_string())), "dev");
    assert_eq!(resume_default_branch(Some("trunk".to_string()), Some("dev".to_string())), "trunk");
}

#[test]
fn diff_tallies() {
    assert_eq!(tally_lines(&['+', ' ', '-', '+', '=']), (2, 1));
    assert_eq!(shown_count(0), None);
    assert_eq!(shown_count(3), Some(3));
    let f = EntryFlags { is_new: false, is_deleted: true, is_modified: true, is_renamed: false };
    assert_eq!(classify_entry(f), Some(FileStatus::Deleted));
    let none = EntryFlags { is_new: false, is_deleted: false, is_modified: false, is_renamed: false };
    assert_eq!(classify_entry(none), None);
}
