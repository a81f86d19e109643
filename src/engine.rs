//! The execution and validation state machines: the duplicate-run guards,
//! the registry bracketing of every run, the resolution of a finished run,
//! cancellation, and startup reconciliation.

use vstd::prelude::*;

use crate::ci::{ci_is_stuck, is_ci_stuck};
use crate::prompts::{
    opt_view, prompt_verdict, read_prompt_verdict, review_passed, thread_url,
    thread_url_of, validation_pass_marker,
};
use crate::ci::CiDecision;
use crate::records::{applied, no_updates, Execution, ExecutionUpdates};
use crate::registry::Registry;
use crate::text::contains_seq;
use crate::types::{CiStatus, CommitStatus, ExecutionStatus, PromptStatus, ValidationStatus};

verus! {

/// Why the engine refused a request.
#[derive(Clone, Copy, Debug, PartialEq, Eq, Structural)]
pub enum EngineError {
    /// The execution is already running.
    AlreadyRunning,
    /// A validation of the execution is already running.
    ValidationAlreadyRunning,
    /// The execution's worktree does not exist.
    WorktreeMissing,
    /// The execution has no agent session to continue.
    NoSession,
    /// The execution's changes are not committed.
    NotCommitted,
    /// The execution has no branch.
    NoBranch,
    /// The execution has no commit.
    NoCommitSha,
}

impl EngineError {
    /// A human-readable description of the error.
    pub fn message(&self) -> String {
        match self {
            EngineError::AlreadyRunning => String::from_str("Execution is already running"),
            EngineError::ValidationAlreadyRunning => String::from_str(
                "Validation for execution is already running",
            ),
            EngineError::WorktreeMissing => String::from_str("Worktree not found"),
            EngineError::NoSession => String::from_str("Cannot commit - no session ID found"),
            EngineError::NotCommitted => String::from_str("Execution must be committed before pushing"),
            EngineError::NoBranch => String::from_str("No branch found for execution"),
            EngineError::NoCommitSha => String::from_str("No commit SHA found for execution"),
        }
    }
}

/// How an agent run ended.
pub enum AgentOutcome {
    /// The agent finished; its session id and final message.
    Finished { session_id: String, result_message: Option<String> },
    /// The run was aborted on request.
    Cancelled,
    /// The run failed.
    Failed,
}

/// Written when a run starts: `Running`, with the diff counters zeroed.
pub open spec fn run_start_updates() -> ExecutionUpdates {
    ExecutionUpdates {
        status: Some(ExecutionStatus::Running),
        files_added: Some(0),
        files_removed: Some(0),
        files_modified: Some(0),
        lines_added: Some(0),
        lines_removed: Some(0),
        ..no_updates()
    }
}

/// Written when a resumed run starts.
pub open spec fn resume_start_updates() -> ExecutionUpdates {
    ExecutionUpdates { status: Some(ExecutionStatus::Running), ..no_updates() }
}

/// Written when a run ends without an answer: the final status and the time.
pub open spec fn run_end_updates(status: ExecutionStatus, now_ms: i64) -> ExecutionUpdates {
    ExecutionUpdates { status: Some(status), completed_at: Some(now_ms), ..no_updates() }
}

/// Status of a run that finished with the given answer: failed if its
/// verdict is a failure, else completed.
pub open spec fn finished_status(answer: Option<Seq<char>>) -> ExecutionStatus {
    if prompt_verdict(answer) == Some(PromptStatus::Failed) {
        ExecutionStatus::Failed
    } else {
        ExecutionStatus::Completed
    }
}

/// Written when a run ends with `outcome`.
pub open spec fn run_finish_ok(u: ExecutionUpdates, outcome: AgentOutcome, now_ms: i64) -> bool {
    match outcome {
        AgentOutcome::Finished { session_id, result_message } => {
            &&& u == ExecutionUpdates {
                status: Some(finished_status(opt_view(result_message))),
                session_id: Some(session_id),
                thread_url: u.thread_url,
                prompt_status: prompt_verdict(opt_view(result_message)),
                prompt_result: result_message,
                completed_at: Some(now_ms),
                ..no_updates()
            }
            &&& u.thread_url matches Some(t) && t@ == thread_url_of(session_id@)
        },
        AgentOutcome::Cancelled => u == run_end_updates(ExecutionStatus::Cancelled, now_ms),
        AgentOutcome::Failed => u == run_end_updates(ExecutionStatus::Failed, now_ms),
    }
}

/// Whether a finished run goes on to validation: only when the prompt set
/// has a validation prompt and the agent reported success.
pub open spec fn run_triggers_validation(outcome: AgentOutcome, has_validation_prompt: bool) -> bool {
    match outcome {
        AgentOutcome::Finished { result_message, .. } => has_validation_prompt && prompt_verdict(
            opt_view(result_message),
        ) == Some(PromptStatus::Passed),
        _ => false,
    }
}

/// The persisted status agrees with the registry of active runs: running
/// exactly while registered.
pub open spec fn running_matches(e: Execution, active: Map<Seq<char>, bool>) -> bool {
    (e.status == ExecutionStatus::Running) <==> active.contains_key(e.id@)
}

/// Written when a validation starts.
pub open spec fn validation_updates(status: ValidationStatus) -> ExecutionUpdates {
    ExecutionUpdates { validation_status: Some(status), ..no_updates() }
}

/// What a validation request leads to before any work is done.
pub enum ValidationStart {
    /// The execution is neither completed nor cancelled: nothing to do.
    Skip,
    /// The prompt set has no validation prompt: the validation fails at once.
    NoPrompt(ExecutionUpdates),
    /// The validation is registered and running.
    Started(ExecutionUpdates),
}

/// What the worktree check of a started validation leads to.
pub enum ValidationGate {
    /// Run the validator.
    Proceed,
    /// Nothing to review: the validation failed without running the validator.
    NothingToReview(ExecutionUpdates),
    /// The worktree is gone: the validation failed.
    Missing(ExecutionUpdates),
}

/// Message recorded when there is nothing to review.
pub open spec fn nothing_to_review_message() -> Seq<char> {
    "No pending changes found to validate"@
}

/// What a stop request does.
pub struct StopDecision {
    /// Whether something was stopped.
    pub stopped: bool,
    /// Whether the run's subprocess is to be killed.
    pub kill_child: bool,
    /// What to write to the record, if anything.
    pub updates: Option<ExecutionUpdates>,
}

/// Written at startup for a record: a run or a validation left running by an
/// earlier process is cancelled, and a CI status pending for longer than the
/// threshold is skipped.
pub open spec fn reconcile_updates(
    e: Execution,
    active_executions: Map<Seq<char>, bool>,
    active_validations: Map<Seq<char>, bool>,
    now_ms: i64,
    threshold_minutes: i64,
) -> ExecutionUpdates {
    let orphan_run = e.status == ExecutionStatus::Running && !active_executions.contains_key(e.id@);
    let orphan_validation = e.validation_status == Some(ValidationStatus::Running)
        && !active_validations.contains_key(e.id@);
    ExecutionUpdates {
        status: if orphan_run { Some(ExecutionStatus::Cancelled) } else { None },
        completed_at: if orphan_run { Some(now_ms) } else { None },
        validation_status: if orphan_validation { Some(ValidationStatus::Cancelled) } else { None },
        ci_status: if ci_is_stuck(e.ci_status, e.ci_checked_at, now_ms, threshold_minutes) {
            Some(CiStatus::Skipped)
        } else {
            None
        },
        ..no_updates()
    }
}

/// The engine's in-memory state: the runs and validations in progress, each
/// with its abort signal.
pub struct Orchestrator {
    /// Execution id to abort requested, for each run in progress.
    pub active_executions: Registry<bool>,
    /// Execution id to abort requested, for each validation in progress.
    pub active_validations: Registry<bool>,
}

impl Orchestrator {
    /// Both registries are well formed.
    pub open spec fn wf(&self) -> bool {
        self.active_executions.wf() && self.active_validations.wf()
    }

    /// An engine with nothing in progress, as at process start.
    pub fn new() -> (r: Self)
        ensures
            r.wf(),
            r.active_executions@ == Map::<Seq<char>, bool>::empty(),
            r.active_validations@ == Map::<Seq<char>, bool>::empty(),
    {
        Orchestrator { active_executions: Registry::new(), active_validations: Registry::new() }
    }

    /// Admits a run of `e`: refused, with nothing changed, when the execution
    /// is registered or persisted as running; otherwise registered, with the
    /// updates that mark it running.
    pub fn begin_run(&mut self, e: &Execution) -> (r: Result<ExecutionUpdates, EngineError>)
        requires
            old(self).wf(),
        ensures
            final(self).wf(),
            final(self).active_validations@ == old(self).active_validations@,
            if old(self).active_executions@.contains_key(e.id@) || e.status == ExecutionStatus::Running {
                &&& r == Err::<ExecutionUpdates, EngineError>(EngineError::AlreadyRunning)
                &&& final(self).active_executions@ == old(self).active_executions@
            } else {
                &&& r == Ok::<ExecutionUpdates, EngineError>(run_start_updates())
                &&& final(self).active_executions@ == old(self).active_executions@.insert(e.id@, false)
            },
    {
        if self.active_executions.contains_key(e.id.as_str()) || e.status == ExecutionStatus::Running {
            return Err(EngineError::AlreadyRunning);
        }
        self.active_executions.insert(e.id.clone(), false);
        let mut u = ExecutionUpdates::none();
        u.status = Some(ExecutionStatus::Running);
        u.files_added = Some(0);
        u.files_removed = Some(0);
        u.files_modified = Some(0);
        u.lines_added = Some(0);
        u.lines_removed = Some(0);
        Ok(u)
    }

    /// Admits the resumption of `e`, under the same guard as a run; the
    /// diff counters are kept.
    pub fn begin_resume(&mut self, e: &Execution) -> (r: Result<ExecutionUpdates, EngineError>)
        requires
            old(self).wf(),
        ensures
            final(self).wf(),
            final(self).active_validations@ == old(self).active_validations@,
            if old(self).active_executions@.contains_key(e.id@) || e.status == ExecutionStatus::Running {
                &&& r == Err::<ExecutionUpdates, EngineError>(EngineError::AlreadyRunning)
                &&& final(self).active_executions@ == old(self).active_executions@
            } else {
                &&& r == Ok::<ExecutionUpdates, EngineError>(resume_start_updates())
                &&& final(self).active_executions@ == old(self).active_executions@.insert(e.id@, false)
            },
    {
        if self.active_executions.contains_key(e.id.as_str()) || e.status == ExecutionStatus::Running {
            return Err(EngineError::AlreadyRunning);
        }
        self.active_executions.insert(e.id.clone(), false);
        let mut u = ExecutionUpdates::none();
        u.status = Some(ExecutionStatus::Running);
        Ok(u)
    }

    /// Whether an abort of the run of `id` has been requested.
    pub fn run_abort_requested(&self, id: &str) -> (r: bool)
        requires
            self.wf(),
        ensures
            r == (self.active_executions@.contains_key(id@) && self.active_executions@[id@]),
    {
        match self.active_executions.get(id) {
            Some(flag) => *flag,
            None => false,
        }
    }

    /// Whether an abort of the validation of `id` has been requested.
    pub fn validation_abort_requested(&self, id: &str) -> (r: bool)
        requires
            self.wf(),
        ensures
            r == (self.active_validations@.contains_key(id@) && self.active_validations@[id@]),
    {
        match self.active_validations.get(id) {
            Some(flag) => *flag,
            None => false,
        }
    }

    /// Resolves the run of `id`: unregisters it, and gives the updates to
    /// write and whether validation follows.
    pub fn finish_run(
        &mut self,
        id: &str,
        outcome: AgentOutcome,
        now_ms: i64,
        has_validation_prompt: bool,
    ) -> (r: (ExecutionUpdates, bool))
        requires
            old(self).wf(),
        ensures
            final(self).wf(),
            final(self).active_executions@ == old(self).active_executions@.remove(id@),
            final(self).active_validations@ == old(self).active_validations@,
            run_finish_ok(r.0, outcome, now_ms),
            r.1 == run_triggers_validation(outcome, has_validation_prompt),
    {
        self.active_executions.remove(id);
        match outcome {
            AgentOutcome::Finished { session_id, result_message } => {
                let verdict = read_prompt_verdict(&result_message);
                let url = thread_url(session_id.as_str());
                let validate = has_validation_prompt && verdict == Some(PromptStatus::Passed);
                let mut u = ExecutionUpdates::none();
                u.status = Some(
                    if verdict == Some(PromptStatus::Failed) {
                        ExecutionStatus::Failed
                    } else {
                        ExecutionStatus::Completed
                    },
                );
                u.session_id = Some(session_id);
                u.thread_url = Some(url);
                u.prompt_status = verdict;
                u.prompt_result = result_message;
                u.completed_at = Some(now_ms);
                (u, validate)
            },
            AgentOutcome::Cancelled => {
                let mut u = ExecutionUpdates::none();
                u.status = Some(ExecutionStatus::Cancelled);
                u.completed_at = Some(now_ms);
                (u, false)
            },
            AgentOutcome::Failed => {
                let mut u = ExecutionUpdates::none();
                u.status = Some(ExecutionStatus::Failed);
                u.completed_at = Some(now_ms);
                (u, false)
            },
        }
    }

    /// Admits a validation of `e`. A validation applies only to a completed
    /// or cancelled execution; without a validation prompt it fails at once;
    /// it is refused while one is registered or persisted as running;
    /// otherwise it is registered and marked running.
    pub fn begin_validation(&mut self, e: &Execution, has_validation_prompt: bool) -> (r: Result<
        ValidationStart,
        EngineError,
    >)
        requires
            old(self).wf(),
        ensures
            final(self).wf(),
            final(self).active_executions@ == old(self).active_executions@,
            if e.status != ExecutionStatus::Completed && e.status != ExecutionStatus::Cancelled {
                r matches Ok(ValidationStart::Skip) && final(self).active_validations@ == old(
                    self,
                ).active_validations@
            } else if !has_validation_prompt {
                &&& r matches Ok(ValidationStart::NoPrompt(u))
                &&& u == validation_updates(ValidationStatus::Failed)
                &&& final(self).active_validations@ == old(self).active_validations@
            } else if old(self).active_validations@.contains_key(e.id@) || e.validation_status == Some(
                ValidationStatus::Running,
            ) {
                &&& r == Err::<ValidationStart, EngineError>(EngineError::ValidationAlreadyRunning)
                &&& final(self).active_validations@ == old(self).active_validations@
            } else {
                &&& r matches Ok(ValidationStart::Started(u))
                &&& u == validation_updates(ValidationStatus::Running)
                &&& final(self).active_validations@ == old(self).active_validations@.insert(e.id@, false)
            },
    {
        if e.status != ExecutionStatus::Completed && e.status != ExecutionStatus::Cancelled {
            return Ok(ValidationStart::Skip);
        }
        if !has_validation_prompt {
            let mut u = ExecutionUpdates::none();
            u.validation_status = Some(ValidationStatus::Failed);
            return Ok(ValidationStart::NoPrompt(u));
        }
        if self.active_validations.contains_key(e.id.as_str()) || e.validation_status == Some(
            ValidationStatus::Running,
        ) {
            return Err(EngineError::ValidationAlreadyRunning);
        }
        self.active_validations.insert(e.id.clone(), false);
        let mut u = ExecutionUpdates::none();
        u.validation_status = Some(ValidationStatus::Running);
        Ok(ValidationStart::Started(u))
    }

    /// Checks the worktree of a started validation of `id`. A missing
    /// worktree fails the validation; a worktree without changes fails it
    /// with an explanation and without running the validator; in both cases
    /// it is unregistered. Otherwise the validator runs.
    pub fn check_validation_worktree(&mut self, id: &str, worktree_exists: bool, has_changes: bool) -> (r:
        ValidationGate)
        requires
            old(self).wf(),
        ensures
            final(self).wf(),
            final(self).active_executions@ == old(self).active_executions@,
            if !worktree_exists {
                &&& r matches ValidationGate::Missing(u)
                &&& u == validation_updates(ValidationStatus::Failed)
                &&& final(self).active_validations@ == old(self).active_validations@.remove(id@)
            } else if !has_changes {
                &&& r matches ValidationGate::NothingToReview(u)
                &&& u == (ExecutionUpdates {
                    validation_result: u.validation_result,
                    ..validation_updates(ValidationStatus::Failed)
                })
                &&& u.validation_result matches Some(m)
                &&& m@ == nothing_to_review_message()
                &&& final(self).active_validations@ == old(self).active_validations@.remove(id@)
            } else {
                &&& r matches ValidationGate::Proceed
                &&& final(self).active_validations@ == old(self).active_validations@
            },
    {
        if !worktree_exists {
            self.active_validations.remove(id);
            let mut u = ExecutionUpdates::none();
            u.validation_status = Some(ValidationStatus::Failed);
            return ValidationGate::Missing(u);
        }
        if !has_changes {
            self.active_validations.remove(id);
            let mut u = ExecutionUpdates::none();
            u.validation_status = Some(ValidationStatus::Failed);
            u.validation_result = Some(String::from_str("No pending changes found to validate"));
            return ValidationGate::NothingToReview(u);
        }
        ValidationGate::Proceed
    }

    /// Resolves the validation of `id`: unregisters it and gives the updates
    /// to write. A finished review passes only if its answer holds the pass
    /// marker.
    pub fn finish_validation(&mut self, id: &str, outcome: AgentOutcome) -> (r: ExecutionUpdates)
        requires
            old(self).wf(),
        ensures
            final(self).wf(),
            final(self).active_validations@ == old(self).active_validations@.remove(id@),
            final(self).active_executions@ == old(self).active_executions@,
            match outcome {
                AgentOutcome::Finished { session_id, result_message } => {
                    &&& r == ExecutionUpdates {
                        validation_status: Some(
                            if opt_view(result_message) matches Some(m) && contains_seq(
                                m,
                                validation_pass_marker(),
                            ) {
                                ValidationStatus::Passed
                            } else {
                                ValidationStatus::Failed
                            },
                        ),
                        validation_thread_url: r.validation_thread_url,
                        validation_result: result_message,
                        ..no_updates()
                    }
                    &&& r.validation_thread_url matches Some(t) && t@ == thread_url_of(session_id@)
                },
                AgentOutcome::Cancelled => r == validation_updates(ValidationStatus::Cancelled),
                AgentOutcome::Failed => r == validation_updates(ValidationStatus::Failed),
            },
    {
        self.active_validations.remove(id);
        match outcome {
            AgentOutcome::Finished { session_id, result_message } => {
                let passed = review_passed(&result_message);
                let mut u = ExecutionUpdates::none();
                u.validation_status = Some(
                    if passed {
                        ValidationStatus::Passed
                    } else {
                        ValidationStatus::Failed
                    },
                );
                u.validation_thread_url = Some(thread_url(session_id.as_str()));
                u.validation_result = result_message;
                u
            },
            AgentOutcome::Cancelled => {
                let mut u = ExecutionUpdates::none();
                u.validation_status = Some(ValidationStatus::Cancelled);
                u
            },
            AgentOutcome::Failed => {
                let mut u = ExecutionUpdates::none();
                u.validation_status = Some(ValidationStatus::Failed);
                u
            },
        }
    }

    /// Stops the run of `e`. A registered run gets its abort signal, and its
    /// subprocess, if one is running, is killed; the run then resolves
    /// itself. A run persisted as running but not registered is cancelled
    /// directly. Anything else is left alone.
    pub fn stop_execution(&mut self, e: &Execution, child_running: bool, now_ms: i64) -> (r:
        StopDecision)
        requires
            old(self).wf(),
        ensures
            final(self).wf(),
            final(self).active_validations@ == old(self).active_validations@,
            if old(self).active_executions@.contains_key(e.id@) {
                &&& final(self).active_executions@ == old(self).active_executions@.insert(e.id@, true)
                &&& r.stopped && r.kill_child == child_running && r.updates is None
            } else {
                &&& final(self).active_executions@ == old(self).active_executions@
                &&& !r.kill_child
                &&& r.stopped == (e.status == ExecutionStatus::Running)
                &&& r.updates == if e.status == ExecutionStatus::Running {
                    Some(run_end_updates(ExecutionStatus::Cancelled, now_ms))
                } else {
                    None
                }
            },
    {
        if self.active_executions.contains_key(e.id.as_str()) {
            self.active_executions.insert(e.id.clone(), true);
            return StopDecision { stopped: true, kill_child: child_running, updates: None };
        }
        if e.status == ExecutionStatus::Running {
            let mut u = ExecutionUpdates::none();
            u.status = Some(ExecutionStatus::Cancelled);
            u.completed_at = Some(now_ms);
            StopDecision { stopped: true, kill_child: false, updates: Some(u) }
        } else {
            StopDecision { stopped: false, kill_child: false, updates: None }
        }
    }

    /// Stops the validation of `e`, as [`Orchestrator::stop_execution`] does
    /// a run.
    pub fn stop_validation(&mut self, e: &Execution, child_running: bool) -> (r: StopDecision)
        requires
            old(self).wf(),
        ensures
            final(self).wf(),
            final(self).active_executions@ == old(self).active_executions@,
            if old(self).active_validations@.contains_key(e.id@) {
                &&& final(self).active_validations@ == old(self).active_validations@.insert(e.id@, true)
                &&& r.stopped && r.kill_child == child_running && r.updates is None
            } else {
                let running = e.validation_status == Some(ValidationStatus::Running);
                &&& final(self).active_validations@ == old(self).active_validations@
                &&& !r.kill_child
                &&& r.stopped == running
                &&& r.updates == if running {
                    Some(validation_updates(ValidationStatus::Cancelled))
                } else {
                    None
                }
            },
    {
        if self.active_validations.contains_key(e.id.as_str()) {
            self.active_validations.insert(e.id.clone(), true);
            return StopDecision { stopped: true, kill_child: child_running, updates: None };
        }
        if e.validation_status == Some(ValidationStatus::Running) {
            let mut u = ExecutionUpdates::none();
            u.validation_status = Some(ValidationStatus::Cancelled);
            StopDecision { stopped: true, kill_child: false, updates: Some(u) }
        } else {
            StopDecision { stopped: false, kill_child: false, updates: None }
        }
    }

    /// The startup corrections of each record, in order (see
    /// [`reconcile_updates`]).
    pub fn reconcile_on_startup(&self, records: &Vec<Execution>, now_ms: i64, threshold_minutes: i64) -> (r:
        Vec<ExecutionUpdates>)
        requires
            self.wf(),
        ensures
            r@.len() == records@.len(),
            forall|i: int|
                0 <= i < records@.len() ==> #[trigger] r@[i] == reconcile_updates(
                    records@[i],
                    self.active_executions@,
                    self.active_validations@,
                    now_ms,
                    threshold_minutes,
                ),
    {
        let mut out: Vec<ExecutionUpdates> = Vec::new();
        let mut i: usize = 0;
        while i < records.len()
            invariant
                self.wf(),
                i <= records@.len(),
                out@.len() == i,
                forall|k: int|
                    0 <= k < i ==> #[trigger] out@[k] == reconcile_updates(
                        records@[k],
                        self.active_executions@,
                        self.active_validations@,
                        now_ms,
                        threshold_minutes,
                    ),
            decreases records@.len() - i,
        {
            let e = &records[i];
            let orphan_run = e.status == ExecutionStatus::Running && !self.active_executions.contains_key(
                e.id.as_str(),
            );
            let orphan_validation = e.validation_status == Some(ValidationStatus::Running)
                && !self.active_validations.contains_key(e.id.as_str());
            let mut u = ExecutionUpdates::none();
            if orphan_run {
                u.status = Some(ExecutionStatus::Cancelled);
                u.completed_at = Some(now_ms);
            }
            if orphan_validation {
                u.validation_status = Some(ValidationStatus::Cancelled);
            }
            if is_ci_stuck(e.ci_status, e.ci_checked_at, now_ms, threshold_minutes) {
                u.ci_status = Some(CiStatus::Skipped);
            }
            out.push(u);
            i = i + 1;
        }
        out
    }
}

/// The positions of the records whose CI status is stuck pending, in order:
/// those are set to `Skipped`, and their number is reported.
pub fn reconcile_stuck_ci(records: &Vec<Execution>, now_ms: i64, threshold_minutes: i64) -> (r: Vec<
    usize,
>)
    ensures
        forall|k: int| 0 <= k < r@.len() ==> r@[k] < records@.len(),
        forall|k: int, l: int| 0 <= k < l < r@.len() ==> r@[k] < r@[l],
        forall|i: int|
            0 <= i < records@.len() ==> (r@.contains(i as usize) <==> ci_is_stuck(
                #[trigger] records@[i].ci_status,
                records@[i].ci_checked_at,
                now_ms,
                threshold_minutes,
            )),
{
    let mut out: Vec<usize> = Vec::new();
    let mut i: usize = 0;
    while i < records.len()
        invariant
            i <= records@.len(),
            forall|k: int| 0 <= k < out@.len() ==> out@[k] < i,
            forall|k: int, l: int| 0 <= k < l < out@.len() ==> out@[k] < out@[l],
            forall|j: int|
                0 <= j < i ==> (out@.contains(j as usize) <==> ci_is_stuck(
                    #[trigger] records@[j].ci_status,
                    records@[j].ci_checked_at,
                    now_ms,
                    threshold_minutes,
                )),
        decreases records@.len() - i,
    {
        let e = &records[i];
        let ghost before = out@;
        let stuck = is_ci_stuck(e.ci_status, e.ci_checked_at, now_ms, threshold_minutes);
        if stuck {
            out.push(i);
        }
        assert forall|j: int|
            0 <= j < i + 1 implies (out@.contains(j as usize) <==> ci_is_stuck(
            #[trigger] records@[j].ci_status,
            records@[j].ci_checked_at,
            now_ms,
            threshold_minutes,
        )) by {
            if j < i {
                if out@.contains(j as usize) {
                    let k = choose|k: int| 0 <= k < out@.len() && out@[k] == j as usize;
                    if k < before.len() {
                        assert(before[k] == j as usize);
                    }
                } else if before.contains(j as usize) {
                    let k = choose|k: int| 0 <= k < before.len() && before[k] == j as usize;
                    assert(out@[k] == j as usize);
                }
            } else {
                if stuck {
                    assert(out@[out@.len() - 1] == i);
                } else {
                    assert(out@ == before);
                    if before.contains(j as usize) {
                        let k = choose|k: int| 0 <= k < before.len() && before[k] == j as usize;
                    }
                }
            }
        }
        i = i + 1;
    }
    out
}

/// Across a whole run the persisted status and the registry stay in step:
/// an execution that is neither running nor registered is running and
/// registered once admitted, still so after an abort request, and neither
/// once the run is resolved, whatever its outcome.
pub proof fn lemma_run_keeps_status_and_registry_in_step(
    e: Execution,
    active: Map<Seq<char>, bool>,
    outcome: AgentOutcome,
    now_ms: i64,
    u: ExecutionUpdates,
)
    requires
        running_matches(e, active),
        !active.contains_key(e.id@),
        e.status != ExecutionStatus::Running,
        run_finish_ok(u, outcome, now_ms),
    ensures
        running_matches(applied(e, run_start_updates()), active.insert(e.id@, false)),
        running_matches(applied(e, resume_start_updates()), active.insert(e.id@, false)),
        running_matches(applied(e, run_start_updates()), active.insert(e.id@, true)),
        running_matches(applied(applied(e, run_start_updates()), u), active.insert(e.id@, false).remove(e.id@)),
        running_matches(applied(applied(e, run_start_updates()), u), active.insert(e.id@, true).remove(e.id@)),
{
    match outcome {
        AgentOutcome::Finished { result_message, .. } => {
            assert(finished_status(opt_view(result_message)) != ExecutionStatus::Running);
        },
        _ => {},
    }
}

/// Stopping keeps the persisted status and the registry in step: a
/// registered run keeps its entry (only its abort signal is set), and a
/// record that says running without an entry is cancelled.
pub proof fn lemma_stop_keeps_status_and_registry_in_step(e: Execution, active: Map<Seq<char>, bool>, now_ms: i64)
    ensures
        active.contains_key(e.id@) ==> (running_matches(e, active) <==> running_matches(
            e,
            active.insert(e.id@, true),
        )),
        !active.contains_key(e.id@) && e.status == ExecutionStatus::Running ==> running_matches(
            applied(e, run_end_updates(ExecutionStatus::Cancelled, now_ms)),
            active,
        ),
{
}

/// A finished run's record is consistent: its status is `Failed` exactly
/// when its verdict is a failure, and validation only follows a run
/// recorded as `Completed` with a passing verdict.
pub proof fn lemma_finished_record_consistent(
    u: ExecutionUpdates,
    session_id: String,
    result_message: Option<String>,
    now_ms: i64,
    has_validation_prompt: bool,
)
    requires
        run_finish_ok(u, AgentOutcome::Finished { session_id, result_message }, now_ms),
    ensures
        (u.status == Some(ExecutionStatus::Failed)) <==> (u.prompt_status == Some(PromptStatus::Failed)),
        run_triggers_validation(AgentOutcome::Finished { session_id, result_message }, has_validation_prompt)
            ==> u.status == Some(ExecutionStatus::Completed) && u.prompt_status == Some(PromptStatus::Passed),
{
}

/// Registering or unregistering one execution leaves the agreement of every
/// other execution with the registry as it was.
pub proof fn lemma_other_runs_unaffected(f: Execution, active: Map<Seq<char>, bool>, id: Seq<char>, flag: bool)
    requires
        f.id@ != id,
    ensures
        running_matches(f, active) == running_matches(f, active.insert(id, flag)),
        running_matches(f, active) == running_matches(f, active.remove(id)),
{
}

/// At startup, with nothing registered, every record that says running is
/// cancelled, and afterwards no record is running, so every record agrees
/// with the empty registry.
pub proof fn lemma_startup_reconcile(e: Execution, now_ms: i64, threshold_minutes: i64)
    ensures
        ({
            let after = applied(
                e,
                reconcile_updates(
                    e,
                    Map::<Seq<char>, bool>::empty(),
                    Map::<Seq<char>, bool>::empty(),
                    now_ms,
                    threshold_minutes,
                ),
            );
            &&& e.status == ExecutionStatus::Running ==> after.status == ExecutionStatus::Cancelled
            &&& e.validation_status == Some(ValidationStatus::Running) ==> after.validation_status == Some(
                ValidationStatus::Cancelled,
            )
            &&& running_matches(after, Map::<Seq<char>, bool>::empty())
        }),
{
}

/// Written when the agent reports its session: the session id and the
/// address of its conversation.
pub fn session_updates(session_id: &str) -> (r: ExecutionUpdates)
    ensures
        r == (ExecutionUpdates {
            session_id: r.session_id,
            thread_url: r.thread_url,
            ..no_updates()
        }),
        r.session_id matches Some(s) && s@ == session_id@,
        r.thread_url matches Some(t) && t@ == thread_url_of(session_id@),
{
    let mut u = ExecutionUpdates::none();
    u.session_id = Some(String::from_str(session_id));
    u.thread_url = Some(thread_url(session_id));
    u
}

/// Written when the validator reports its session: the address of its
/// conversation.
pub fn validation_session_updates(session_id: &str) -> (r: ExecutionUpdates)
    ensures
        r == (ExecutionUpdates { validation_thread_url: r.validation_thread_url, ..no_updates() }),
        r.validation_thread_url matches Some(t) && t@ == thread_url_of(session_id@),
{
    let mut u = ExecutionUpdates::none();
    u.validation_thread_url = Some(thread_url(session_id));
    u
}

/// Written when the worktree of an execution has been created: its base
/// commit and its branch.
pub fn worktree_updates(base_commit: String, branch: String) -> (r: ExecutionUpdates)
    ensures
        r == (ExecutionUpdates { parent_sha: Some(base_commit), branch: Some(branch), ..no_updates() }),
{
    let mut u = ExecutionUpdates::none();
    u.parent_sha = Some(base_commit);
    u.branch = Some(branch);
    u
}

/// The session a commit request continues; an execution without one cannot
/// be committed.
pub fn commit_session(e: &Execution) -> (r: Result<String, EngineError>)
    ensures
        match e.session_id {
            Some(s) => r == Ok::<String, EngineError>(s),
            None => r == Err::<String, EngineError>(EngineError::NoSession),
        },
{
    match &e.session_id {
        Some(s) => Ok(s.clone()),
        None => Err(EngineError::NoSession),
    }
}

/// The head of a worktree after the agent committed.
pub struct CommitHead {
    pub commit_sha: String,
    pub committed_at: i64,
    pub parent_sha: Option<String>,
    pub branch: Option<String>,
}

/// Written after a commit request: `Uncommitted` when the worktree is still
/// dirty (no head given), else `Committed` with the head's commit.
pub fn commit_updates(head: Option<CommitHead>) -> (r: ExecutionUpdates)
    ensures
        match head {
            None => r == (ExecutionUpdates { commit_status: Some(CommitStatus::Uncommitted), ..no_updates() }),
            Some(h) => r == (ExecutionUpdates {
                commit_status: Some(CommitStatus::Committed),
                commit_sha: Some(h.commit_sha),
                committed_at: Some(h.committed_at),
                parent_sha: h.parent_sha,
                branch: h.branch,
                ..no_updates()
            }),
        },
        r.commit_status == Some(CommitStatus::Committed) ==> r.commit_sha is Some && r.committed_at is Some,
{
    let mut u = ExecutionUpdates::none();
    match head {
        None => {
            u.commit_status = Some(CommitStatus::Uncommitted);
        },
        Some(h) => {
            u.commit_status = Some(CommitStatus::Committed);
            u.commit_sha = Some(h.commit_sha);
            u.committed_at = Some(h.committed_at);
            u.parent_sha = h.parent_sha;
            u.branch = h.branch;
        },
    }
    u
}

/// The branch and commit to push: the execution must be committed and have
/// both.
pub fn push_target(e: &Execution) -> (r: Result<(String, String), EngineError>)
    ensures
        e.commit_status != CommitStatus::Committed ==> r == Err::<(String, String), EngineError>(
            EngineError::NotCommitted,
        ),
        e.commit_status == CommitStatus::Committed && e.branch is None ==> r == Err::<
            (String, String),
            EngineError,
        >(EngineError::NoBranch),
        e.commit_status == CommitStatus::Committed && e.branch is Some && e.commit_sha is None ==> r
            == Err::<(String, String), EngineError>(EngineError::NoCommitSha),
        e.commit_status == CommitStatus::Committed && e.branch is Some && e.commit_sha is Some ==> r
            == Ok::<(String, String), EngineError>((e.branch->0, e.commit_sha->0)),
{
    if e.commit_status != CommitStatus::Committed {
        return Err(EngineError::NotCommitted);
    }
    let branch = match &e.branch {
        Some(b) => b.clone(),
        None => {
            return Err(EngineError::NoBranch);
        },
    };
    let sha = match &e.commit_sha {
        Some(c) => c.clone(),
        None => {
            return Err(EngineError::NoCommitSha);
        },
    };
    Ok((branch, sha))
}

/// Written by a CI poll: the status, the check time and the address, when
/// the decision records a status and the address is kept.
pub fn ci_updates(status: CiStatus, ci_url: Option<String>, now_ms: i64) -> (r: ExecutionUpdates)
    ensures
        r == (ExecutionUpdates {
            ci_status: Some(status),
            ci_checked_at: Some(now_ms),
            ci_url: ci_url,
            ..no_updates()
        }),
{
    let mut u = ExecutionUpdates::none();
    u.ci_status = Some(status);
    u.ci_checked_at = Some(now_ms);
    u.ci_url = ci_url;
    u
}

/// What one decision of the CI poll loop writes: nothing when it records no
/// status; the address only when the decision keeps it.
pub fn ci_decision_updates(d: CiDecision, ci_url: Option<String>, now_ms: i64) -> (r: Option<
    ExecutionUpdates,
>)
    ensures
        match d.record {
            None => r is None,
            Some(s) => r == Some(
                ExecutionUpdates {
                    ci_status: Some(s),
                    ci_checked_at: Some(now_ms),
                    ci_url: if d.with_url {
                        ci_url
                    } else {
                        None
                    },
                    ..no_updates()
                },
            ),
        },
{
    match d.record {
        None => None,
        Some(s) => Some(ci_updates(s, if d.with_url { ci_url } else { None }, now_ms)),
    }
}

/// Where the changed files of an execution are read from.
pub enum DiffSource {
    /// The committed change, between the base and the commit.
    Committed { parent_sha: String, commit_sha: String },
    /// The uncommitted state of the worktree.
    Worktree,
}

/// A committed execution with both commits known is read from its commit,
/// any other from its worktree.
pub fn diff_source(e: &Execution) -> (r: DiffSource)
    ensures
        if e.commit_status == CommitStatus::Committed && e.commit_sha is Some && e.parent_sha is Some {
            r == DiffSource::Committed { parent_sha: e.parent_sha->0, commit_sha: e.commit_sha->0 }
        } else {
            r is Worktree
        },
{
    if e.commit_status == CommitStatus::Committed {
        match (&e.parent_sha, &e.commit_sha) {
            (Some(p), Some(c)) => {
                return DiffSource::Committed { parent_sha: p.clone(), commit_sha: c.clone() };
            },
            _ => {},
        }
    }
    DiffSource::Worktree
}

/// Why a CI check cannot be started.
#[derive(Clone, Copy, Debug, PartialEq, Eq, Structural)]
pub enum CiCheckError {
    /// The execution has no commit.
    NotCommitted,
    /// The execution has no branch.
    NoBranch,
}

/// The commit and branch whose CI is checked. A commit is required; a
/// branch is required when `branch_required`, else `main` stands in for a
/// missing one.
pub fn ci_check_target(e: &Execution, branch_required: bool) -> (r: Result<(String, String), CiCheckError>)
    ensures
        e.commit_sha is None ==> r == Err::<(String, String), CiCheckError>(CiCheckError::NotCommitted),
        e.commit_sha is Some && e.branch is None && branch_required ==> r == Err::<
            (String, String),
            CiCheckError,
        >(CiCheckError::NoBranch),
        e.commit_sha is Some && e.branch is Some ==> r == Ok::<(String, String), CiCheckError>(
            (e.commit_sha->0, e.branch->0),
        ),
        e.commit_sha is Some && e.branch is None && !branch_required ==> (r matches Ok((c, b)) && c
            == e.commit_sha->0 && b@ == "main"@),
{
    let sha = match &e.commit_sha {
        Some(c) => c.clone(),
        None => {
            return Err(CiCheckError::NotCommitted);
        },
    };
    match &e.branch {
        Some(b) => Ok((sha, b.clone())),
        None => if branch_required {
            Err(CiCheckError::NoBranch)
        } else {
            Ok((sha, String::from_str("main")))
        },
    }
}

/// Written when the commit is not on the remote yet.
pub fn not_pushed_updates() -> (r: ExecutionUpdates)
    ensures
        r == (ExecutionUpdates { ci_status: Some(CiStatus::NotPushed), ..no_updates() }),
{
    let mut u = ExecutionUpdates::none();
    u.ci_status = Some(CiStatus::NotPushed);
    u
}

/// The status a one-off CI refresh records: the aggregated status, or
/// `NotConfigured` when the provider reports no checks.
pub fn refreshed_ci_status(aggregated: Option<CiStatus>) -> (r: CiStatus)
    ensures
        r == match aggregated {
            Some(s) => s,
            None => CiStatus::NotConfigured,
        },
{
    match aggregated {
        Some(s) => s,
        None => CiStatus::NotConfigured,
    }
}

/// Number of records with the given status.
pub open spec fn count_status(records: Seq<Execution>, s: ExecutionStatus) -> nat
    decreases records.len(),
{
    if records.len() == 0 {
        0
    } else {
        count_status(records.drop_last(), s) + if records.last().status == s { 1nat } else { 0nat }
    }
}

/// The positions of the records with the given status, in order.
pub open spec fn positions_with_status(records: Seq<Execution>, s: ExecutionStatus) -> Seq<usize>
    decreases records.len(),
{
    if records.len() == 0 {
        Seq::empty()
    } else {
        let rest = positions_with_status(records.drop_last(), s);
        if records.last().status == s {
            rest.push((records.len() - 1) as usize)
        } else {
            rest
        }
    }
}

/// How many more runs may start: the cap less the runs in progress, never
/// below zero.
pub open spec fn free_slots(records: Seq<Execution>, max_concurrent: i64) -> int {
    let free = max_concurrent - count_status(records, ExecutionStatus::Running);
    if free > 0 {
        free
    } else {
        0
    }
}

/// The pending executions to start now: the first ones, in order, up to the
/// free slots under the concurrency cap.
pub fn executions_to_start(records: &Vec<Execution>, max_concurrent: i64) -> (r: Vec<usize>)
    ensures
        ({
            let pending = positions_with_status(records@, ExecutionStatus::Pending);
            let n = if free_slots(records@, max_concurrent) < pending.len() {
                free_slots(records@, max_concurrent)
            } else {
                pending.len() as int
            };
            r@ == pending.subrange(0, n)
        }),
{
    let mut running: usize = 0;
    let mut i: usize = 0;
    while i < records.len()
        invariant
            i <= records@.len(),
            running == count_status(records@.subrange(0, i as int), ExecutionStatus::Running),
            running <= i,
        decreases records@.len() - i,
    {
        assert(records@.subrange(0, i + 1).drop_last() =~= records@.subrange(0, i as int));
        if records[i].status == ExecutionStatus::Running {
            running = running + 1;
        }
        i = i + 1;
    }
    assert(records@.subrange(0, records@.len() as int) =~= records@);
    let free: i128 = max_concurrent as i128 - running as i128;
    let ghost pending = positions_with_status(records@, ExecutionStatus::Pending);
    let mut out: Vec<usize> = Vec::new();
    let mut j: usize = 0;
    while j < records.len()
        invariant
            j <= records@.len(),
            free == max_concurrent - count_status(records@, ExecutionStatus::Running),
            pending == positions_with_status(records@, ExecutionStatus::Pending),
            ({
                let seen = positions_with_status(records@.subrange(0, j as int), ExecutionStatus::Pending);
                let n = if free < seen.len() { if free > 0 { free as int } else { 0 } } else { seen.len() as int };
                out@ == seen.subrange(0, n)
            }),
        decreases records@.len() - j,
    {
        let ghost before = positions_with_status(records@.subrange(0, j as int), ExecutionStatus::Pending);
        assert(records@.subrange(0, j + 1).drop_last() =~= records@.subrange(0, j as int));
        if records[j].status == ExecutionStatus::Pending && (out.len() as i128) < free {
            out.push(j);
        }
        proof {
            let after = positions_with_status(records@.subrange(0, j + 1), ExecutionStatus::Pending);
            if records@[j as int].status == ExecutionStatus::Pending {
                assert(after == before.push(j as usize));
            } else {
                assert(after == before);
            }
            let n = if free < after.len() { if free > 0 { free as int } else { 0 } } else { after.len() as int };
            assert(out@ =~= after.subrange(0, n));
        }
        j = j + 1;
    }
    out
}

/// The positions of the records that a stop-all request stops: the running
/// executions, or, for validations, the running validations.
pub fn stop_all_targets(records: &Vec<Execution>, validations: bool) -> (r: Vec<usize>)
    ensures
        forall|k: int| 0 <= k < r@.len() ==> r@[k] < records@.len(),
        forall|i: int|
            0 <= i < records@.len() ==> (r@.contains(i as usize) <==> if validations {
                #[trigger] records@[i].validation_status == Some(ValidationStatus::Running)
            } else {
                records@[i].status == ExecutionStatus::Running
            }),
{
    let mut out: Vec<usize> = Vec::new();
    let mut i: usize = 0;
    while i < records.len()
        invariant
            i <= records@.len(),
            forall|k: int| 0 <= k < out@.len() ==> out@[k] < i,
            forall|j: int|
                0 <= j < i ==> (out@.contains(j as usize) <==> if validations {
                    #[trigger] records@[j].validation_status == Some(ValidationStatus::Running)
                } else {
                    records@[j].status == ExecutionStatus::Running
                }),
        decreases records@.len() - i,
    {
        let ghost before = out@;
        let hit = if validations {
            records[i].validation_status == Some(ValidationStatus::Running)
        } else {
            records[i].status == ExecutionStatus::Running
        };
        if hit {
            out.push(i);
        }
        assert forall|j: int|
            0 <= j < i + 1 implies (out@.contains(j as usize) <==> if validations {
            #[trigger] records@[j].validation_status == Some(ValidationStatus::Running)
        } else {
            records@[j].status == ExecutionStatus::Running
        }) by {
            if out@.contains(j as usize) {
                let k = choose|k: int| 0 <= k < out@.len() && out@[k] == j as usize;
                if k < before.len() {
                    assert(before[k] == j as usize);
                }
            } else if j < i && before.contains(j as usize) {
                let k = choose|k: int| 0 <= k < before.len() && before[k] == j as usize;
                assert(out@[k] == j as usize);
            } else if j == i && hit {
                assert(out@[out@.len() - 1] == i);
            }
        }
        i = i + 1;
    }
    out
}

} // verus!
