use maestro::agent::{outcome_of, resolve_agent, AgentVerdict, SessionTracker};
use maestro::engine::{
    ci_decision_updates, commit_session, commit_updates, push_target, reconcile_stuck_ci, session_updates,
    AgentOutcome, CommitHead, EngineError, Orchestrator, ValidationGate, ValidationStart,
};
use maestro::ci::decide_ci_attempt;
use maestro::ci::CiProbe;
use maestro::records::{select_repositories, Execution};
use maestro::types::{CiStatus, CommitStatus, ExecutionStatus, PromptStatus, ValidationStatus};

fn pending(id: &str) -> Execution {
    Execution::new_pending(id.to_string(), "ps-1".to_string(), "rev-1".to_string(), "repo-1".to_string(), 7)
}

#[test]
fn running_iff_registered_through_a_run() {
    let mut o = Orchestrator::new();
    let e = pending("exec-1");
    assert!(!o.active_executions.contains_key("exec-1"));
    let start = o.begin_run(&e).unwrap();
    let e = e.with_updates(start);
    assert_eq!(e.status, ExecutionStatus::Running);
    assert!(o.active_executions.contains_key("exec-1"));
    let (u, _) = o.finish_run("exec-1", AgentOutcome::Failed, 99, false);
    let e = e.with_updates(u);
    assert_eq!(e.status, ExecutionStatus::Failed);
    assert_eq!(e.completed_at, Some(99));
    assert!(!o.active_executions.contains_key("exec-1"));
}

#[test]
fn duplicate_run_is_refused_without_change() {
    let mut o = Orchestrator::new();
    let e = pending("exec-2");
    let start = o.begin_run(&e).unwrap();
    assert_eq!(start.files_added, Some(0));
    assert_eq!(start.lines_removed, Some(0));
    // The record as persisted before the start was written.
    let again = o.begin_run(&e);
    assert_eq!(again.err(), Some(EngineError::AlreadyRunning));
    assert_eq!(e.status, ExecutionStatus::Pending);
    assert_eq!(o.active_executions.len(), 1);
    let running = e.with_updates(start);
    let mut fresh = Orchestrator::new();
    assert_eq!(fresh.begin_run(&running).err(), Some(EngineError::AlreadyRunning));
    assert_eq!(fresh.begin_resume(&running).err(), Some(EngineError::AlreadyRunning));
    assert_eq!(fresh.active_executions.len(), 0);
}

#[test]
fn fail_marker_run_fails_without_validation() {
    let mut o = Orchestrator::new();
    let e = pending("exec-3");
    let start = o.begin_run(&e).unwrap();
    let e = e.with_updates(start);
    let mut tracker = SessionTracker::new();
    let announced = tracker.on_progress_line(r#"{"type":"session_id","sessionId":"T-42"}"#);
    assert_eq!(announced.as_deref(), Some("T-42"));
    assert_eq!(tracker.on_progress_line(r#"{"type":"session_id","sessionId":"T-43"}"#), None);
    let e = e.with_updates(session_updates("T-42"));
    assert_eq!(e.thread_url.as_deref(), Some("https://ampcode.com/threads/T-42"));
    let end = resolve_agent(
        tracker,
        false,
        r#"{"sessionId":"T-42","resultMessage":"Tried it.\nPROMPT: FAIL"}"#,
        true,
    );
    assert_eq!(end.verdict, AgentVerdict::Done);
    assert!(end.announce.is_none());
    let (u, validate) = o.finish_run("exec-3", outcome_of(end), 500, true);
    let e = e.with_updates(u);
    assert_eq!(e.status, ExecutionStatus::Failed);
    assert_eq!(e.prompt_status, Some(PromptStatus::Failed));
    assert!(!validate);
    assert!(!o.active_executions.contains_key("exec-3"));
}

#[test]
fn pass_marker_run_completes_and_validates() {
    let mut o = Orchestrator::new();
    let e = pending("exec-4");
    let start = o.begin_run(&e).unwrap();
    let e = e.with_updates(start);
    let end = resolve_agent(
        SessionTracker::new(),
        false,
        r#"{"sessionId":"S-1","resultMessage":"Done.\nPROMPT: PASS"}"#,
        true,
    );
    assert_eq!(end.announce.as_deref(), Some("S-1"));
    let (u, validate) = o.finish_run("exec-4", outcome_of(end), 1, true);
    let e = e.with_updates(u);
    assert_eq!(e.status, ExecutionStatus::Completed);
    assert_eq!(e.prompt_status, Some(PromptStatus::Passed));
    assert_eq!(e.session_id.as_deref(), Some("S-1"));
    assert!(validate);
    let (_, no_prompt) = {
        let mut o2 = Orchestrator::new();
        let e2 = pending("exec-5");
        o2.begin_run(&e2).unwrap();
        let end = resolve_agent(SessionTracker::new(), false, r#"{"resultMessage":"PROMPT: PASS"}"#, true);
        o2.finish_run("exec-5", outcome_of(end), 1, false)
    };
    assert!(!no_prompt);
}

#[test]
fn abort_during_drain_cancels_despite_exit_code() {
    let mut o = Orchestrator::new();
    let e = pending("exec-6");
    let start = o.begin_run(&e).unwrap();
    let e = e.with_updates(start);
    let stop = o.stop_execution(&e, true, 10);
    assert!(stop.stopped && stop.kill_child && stop.updates.is_none());
    assert!(o.run_abort_requested("exec-6"));
    let end = resolve_agent(SessionTracker::new(), true, r#"{"error":"killed"}"#, false);
    assert_eq!(end.verdict, AgentVerdict::Cancelled);
    let (u, validate) = o.finish_run("exec-6", outcome_of(end), 20, true);
    let e = e.with_updates(u);
    assert_eq!(e.status, ExecutionStatus::Cancelled);
    assert!(!validate);
}

#[test]
fn agent_errors_and_exit_failures() {
    let end = resolve_agent(SessionTracker::new(), false, r#"{"error":"boom"}"#, true);
    assert_eq!(end.verdict, AgentVerdict::Reported);
    assert_eq!(end.error.as_deref(), Some("boom"));
    let end = resolve_agent(SessionTracker::new(), false, "not json", false);
    assert_eq!(end.verdict, AgentVerdict::ExitFailure);
    assert_eq!(end.session_id, "");
    assert!(matches!(outcome_of(end), AgentOutcome::Failed));
}

#[test]
fn stop_of_orphan_and_idle_runs() {
    let mut o = Orchestrator::new();
    let mut e = pending("exec-7");
    e.status = ExecutionStatus::Running;
    let stop = o.stop_execution(&e, false, 5);
    assert!(stop.stopped && !stop.kill_child);
    assert_eq!(e.with_updates(stop.updates.unwrap()).status, ExecutionStatus::Cancelled);
    let idle = pending("exec-8");
    let stop = o.stop_execution(&idle, false, 5);
    assert!(!stop.stopped && stop.updates.is_none());
}

#[test]
fn startup_reconcile_cancels_orphans() {
    let o = Orchestrator::new();
    let mut a = pending("a");
    a.status = ExecutionStatus::Running;
    let mut b = pending("b");
    b.status = ExecutionStatus::Completed;
    b.validation_status = Some(ValidationStatus::Running);
    let mut c = pending("c");
    c.ci_status = Some(CiStatus::Pending);
    c.ci_checked_at = Some(0);
    let now = 11 * 60_000;
    let records = vec![a, b, c];
    let fixes = o.reconcile_on_startup(&records, now, 10);
    let fixed: Vec<Execution> = records.into_iter().zip(fixes).map(|(e, u)| e.with_updates(u)).collect();
    assert_eq!(fixed[0].status, ExecutionStatus::Cancelled);
    assert_eq!(fixed[0].completed_at, Some(now));
    assert_eq!(fixed[1].status, ExecutionStatus::Completed);
    assert_eq!(fixed[1].validation_status, Some(ValidationStatus::Cancelled));
    assert_eq!(fixed[2].ci_status, Some(CiStatus::Skipped));
    assert_eq!(fixed[2].status, ExecutionStatus::Pending);
    assert_eq!(reconcile_stuck_ci(&fixed, now, 10), Vec::<usize>::new());
}

#[test]
fn stuck_ci_positions() {
    let mut x = pending("x");
    x.ci_status = Some(CiStatus::Pending);
    x.ci_checked_at = Some(0);
    let y = pending("y");
    let records = vec![y, x];
    assert_eq!(reconcile_stuck_ci(&records, 30 * 60_000, 10), vec![1]);
}

#[test]
fn validation_without_changes_fails_without_agent() {
    let mut o = Orchestrator::new();
    let mut e = pending("exec-9");
    e.status = ExecutionStatus::Completed;
    let start = match o.begin_validation(&e, true).unwrap() {
        ValidationStart::Started(u) => u,
        _ => panic!("validation should start"),
    };
    let e = e.with_updates(start);
    assert_eq!(e.validation_status, Some(ValidationStatus::Running));
    let e = match o.check_validation_worktree("exec-9", true, false) {
        ValidationGate::NothingToReview(u) => e.with_updates(u),
        _ => panic!("nothing to review"),
    };
    assert_eq!(e.validation_status, Some(ValidationStatus::Failed));
    assert_eq!(e.validation_result.as_deref(), Some("No pending changes found to validate"));
    assert!(!o.active_validations.contains_key("exec-9"));
}

#[test]
fn validation_guards_and_results() {
    let mut o = Orchestrator::new();
    let e = pending("v1");
    assert!(matches!(o.begin_validation(&e, true), Ok(ValidationStart::Skip)));
    let mut done = pending("v2");
    done.status = ExecutionStatus::Cancelled;
    match o.begin_validation(&done, false) {
        Ok(ValidationStart::NoPrompt(u)) => assert_eq!(u.validation_status, Some(ValidationStatus::Failed)),
        _ => panic!("no prompt"),
    }
    assert!(matches!(o.begin_validation(&done, true), Ok(ValidationStart::Started(_))));
    assert_eq!(o.begin_validation(&done, true).err(), Some(EngineError::ValidationAlreadyRunning));
    assert!(matches!(o.check_validation_worktree("v2", true, true), ValidationGate::Proceed));
    let stop = o.stop_validation(&done, false);
    assert!(stop.stopped && !stop.kill_child);
    assert!(o.validation_abort_requested("v2"));
    let u = o.finish_validation(
        "v2",
        AgentOutcome::Finished {
            session_id: "V-9".to_string(),
            result_message: Some("ok\nVALIDATION: PASS".to_string()),
        },
    );
    assert_eq!(u.validation_status, Some(ValidationStatus::Passed));
    assert_eq!(u.validation_thread_url.as_deref(), Some("https://ampcode.com/threads/V-9"));
    assert!(!o.active_validations.contains_key("v2"));
    o.begin_validation(&done, true).unwrap();
    match o.check_validation_worktree("v2", false, true) {
        ValidationGate::Missing(u) => assert_eq!(u.validation_status, Some(ValidationStatus::Failed)),
        _ => panic!("missing worktree"),
    }
    o.begin_validation(&done, true).unwrap();
    let u = o.finish_validation("v2", AgentOutcome::Cancelled);
    assert_eq!(u.validation_status, Some(ValidationStatus::Cancelled));
}

#[test]
fn commit_and_push_rules() {
    let mut e = pending("c1");
    assert_eq!(commit_session(&e).err(), Some(EngineError::NoSession));
    e.session_id = Some("S".to_string());
    assert_eq!(commit_session(&e).unwrap(), "S");
    assert_eq!(push_target(&e).err(), Some(EngineError::NotCommitted));
    let dirty = commit_updates(None);
    assert_eq!(dirty.commit_status, Some(CommitStatus::Uncommitted));
    let e = e.with_updates(commit_updates(Some(CommitHead {
        commit_sha: "deadbeef".to_string(),
        committed_at: 42,
        parent_sha: Some("cafe".to_string()),
        branch: None,
    })));
    assert_eq!(e.commit_status, CommitStatus::Committed);
    assert_eq!(e.committed_at, Some(42));
    assert_eq!(push_target(&e).err(), Some(EngineError::NoBranch));
    let mut e = e;
    e.branch = Some("maestro/a/b/c".to_string());
    assert_eq!(push_target(&e).unwrap(), ("maestro/a/b/c".to_string(), "deadbeef".to_string()));
    e.commit_sha = None;
    assert_eq!(push_target(&e).err(), Some(EngineError::NoCommitSha));
    assert!(EngineError::NoCommitSha.message().contains("No commit SHA"));
}

#[test]
fn ci_poll_writes_two_records() {
    let url = Some("https://ci/1".to_string());
    let first = decide_ci_attempt(0, CiProbe::Found(CiStatus::Pending));
    let second = decide_ci_attempt(1, CiProbe::Found(CiStatus::Passed));
    let e = pending("ci-1");
    let u1 = ci_decision_updates(first, url.clone(), 100).unwrap();
    let u2 = ci_decision_updates(second, url.clone(), 200).unwrap();
    let e = e.with_updates(u1).with_updates(u2);
    assert_eq!(e.ci_status, Some(CiStatus::Passed));
    assert_eq!(e.ci_checked_at, Some(200));
    assert_eq!(e.ci_url, url);
    let early = ci_decision_updates(decide_ci_attempt(0, CiProbe::NoChecks), url.clone(), 1).unwrap();
    assert_eq!(early.ci_status, Some(CiStatus::Pending));
    assert_eq!(early.ci_checked_at, Some(1));
    assert_eq!(early.ci_url, url);
}

#[test]
fn repository_selection() {
    let members = vec!["r1".to_string(), "r2".to_string(), "r3".to_string()];
    assert_eq!(select_repositories(&members, None), members);
    let picked = select_repositories(&members, Some(vec!["r3".to_string(), "x".to_string(), "r1".to_string()]));
    assert_eq!(picked, vec!["r3".to_string(), "r1".to_string()]);
}

#[test]
fn both_markers_complete_consistently() {
    let mut o = Orchestrator::new();
    let e = pending("exec-both");
    let start = o.begin_run(&e).unwrap();
    let e = e.with_updates(start);
    let end = resolve_agent(
        SessionTracker::new(),
        false,
        r#"{"sessionId":"B-1","resultMessage":"PROMPT: PASS\nPROMPT: FAIL"}"#,
        true,
    );
    let (u, validate) = o.finish_run("exec-both", outcome_of(end), 3, true);
    let e = e.with_updates(u);
    assert_eq!(e.prompt_status, Some(PromptStatus::Passed));
    assert_eq!(e.status, ExecutionStatus::Completed);
    assert!(validate);
}
