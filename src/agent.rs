//! Decisions of the process supervisor: the keys under which agent
//! subprocesses are tracked, the detection of the agent's session id in its
//! progress output, and the resolution of a finished agent process.

use vstd::prelude::*;

use crate::engine::AgentOutcome;
use crate::prompts::opt_view;
use crate::text::{append_str, eq_str, string_of};

verus! {

/// Milliseconds between two looks of the abort watcher at the abort signal.
pub const ABORT_POLL_INTERVAL_MS: u64 = 100;

/// The string stored under `key` in the top-level JSON object written in
/// `text`; none when `text` is not such an object or holds no string there.
pub uninterp spec fn json_string_field(text: Seq<char>, key: Seq<char>) -> Option<Seq<char>>;

/// Relies on `serde_json::from_str` (into a `serde_json::Value`),
/// `Value::get` and `Value::as_str`: reads the string under `key` of the JSON
/// object in `text`, which depends on the two arguments alone.
#[verifier::external_body]
fn json_str_field(text: &str, key: &str) -> (r: Option<String>)
    ensures
        opt_view(r) == json_string_field(text@, key@),
{
    match serde_json::from_str::<serde_json::Value>(text) {
        Ok(v) => v.get(key).and_then(serde_json::Value::as_str).map(String::from),
        Err(_) => None,
    }
}

/// Key of the subprocess of the run of an execution.
pub open spec fn exec_run_key_of(id: Seq<char>) -> Seq<char> {
    "exec:"@ + id
}

/// Key of the subprocess of the validation of an execution.
pub open spec fn validation_run_key_of(id: Seq<char>) -> Seq<char> {
    "val:"@ + id
}

/// The key under which the subprocess of a run is tracked.
pub fn exec_run_key(execution_id: &str) -> (r: String)
    ensures
        r@ == exec_run_key_of(execution_id@),
{
    let mut out: Vec<char> = Vec::new();
    append_str(&mut out, "exec:");
    append_str(&mut out, execution_id);
    string_of(out.as_slice())
}

/// The key under which the subprocess of a validation is tracked.
pub fn validation_run_key(execution_id: &str) -> (r: String)
    ensures
        r@ == validation_run_key_of(execution_id@),
{
    let mut out: Vec<char> = Vec::new();
    append_str(&mut out, "val:");
    append_str(&mut out, execution_id);
    string_of(out.as_slice())
}

/// The subprocess of a run and that of a validation never share a key, for
/// the same execution or for different ones.
pub proof fn lemma_run_keys_distinct(a: Seq<char>, b: Seq<char>)
    ensures
        exec_run_key_of(a) != validation_run_key_of(b),
{
    reveal_strlit("exec:");
    reveal_strlit("val:");
    assert(exec_run_key_of(a)[0] != validation_run_key_of(b)[0]);
}

/// The session id announced by a progress line: the `sessionId` of a line
/// whose `type` is `session_id`.
pub open spec fn progress_session(line: Seq<char>) -> Option<Seq<char>> {
    if json_string_field(line, "type"@) == Some("session_id"@) {
        json_string_field(line, "sessionId"@)
    } else {
        None
    }
}

/// The session id seen so far in an agent's progress output.
pub struct SessionTracker {
    pub session_id: Option<String>,
}

impl SessionTracker {
    /// A tracker that has seen no session id.
    pub fn new() -> (r: Self)
        ensures
            r.session_id is None,
    {
        SessionTracker { session_id: None }
    }

    /// Reads one progress line. Gives the session id to announce when this
    /// line is the first to carry one; later ones are ignored.
    pub fn on_progress_line(&mut self, line: &str) -> (r: Option<String>)
        ensures
            if old(self).session_id is None && progress_session(line@) is Some {
                &&& opt_view(r) == progress_session(line@)
                &&& final(self).session_id == r
            } else {
                &&& r is None
                &&& final(self).session_id == old(self).session_id
            },
    {
        if self.session_id.is_some() {
            return None;
        }
        let kind = json_str_field(line, "type");
        let is_session = match &kind {
            Some(k) => eq_str(k.as_str(), "session_id"),
            None => false,
        };
        if !is_session {
            return None;
        }
        let sid = json_str_field(line, "sessionId");
        match sid {
            Some(s) => {
                self.session_id = Some(s.clone());
                Some(s)
            },
            None => None,
        }
    }
}

/// How an agent process ended, before any text is looked at.
#[derive(Clone, Copy, Debug, PartialEq, Eq, Structural)]
pub enum AgentVerdict {
    /// The process completed and its result was read.
    Done,
    /// An abort was requested: the process was killed.
    Cancelled,
    /// The agent reported an error in its result.
    Reported,
    /// The process exited unsuccessfully.
    ExitFailure,
}

/// The verdict on an agent process: an abort wins over everything, then an
/// error reported in the result, then an unsuccessful exit.
pub open spec fn agent_verdict(aborted: bool, result_text: Seq<char>, exit_ok: bool) -> AgentVerdict {
    if aborted {
        AgentVerdict::Cancelled
    } else if json_string_field(result_text, "error"@) is Some {
        AgentVerdict::Reported
    } else if !exit_ok {
        AgentVerdict::ExitFailure
    } else {
        AgentVerdict::Done
    }
}

/// The resolution of an agent process.
pub struct AgentEnd {
    pub verdict: AgentVerdict,
    /// Session id of the conversation (empty when none was seen).
    pub session_id: String,
    /// The agent's final message.
    pub result_message: Option<String>,
    /// The error the agent reported.
    pub error: Option<String>,
    /// A session id first seen in the result, to announce.
    pub announce: Option<String>,
}

/// Resolves an agent process from what was seen of it: the session id
/// found in its progress output, whether an abort was requested while its
/// output was drained, its result text and whether it exited successfully.
pub fn resolve_agent(tracker: SessionTracker, aborted: bool, result_text: &str, exit_ok: bool) -> (r: AgentEnd)
    ensures
        r.verdict == agent_verdict(aborted, result_text@, exit_ok),
        !aborted ==> opt_view(r.result_message) == json_string_field(result_text@, "resultMessage"@)
            && opt_view(r.error) == json_string_field(result_text@, "error"@),
        !aborted ==> match tracker.session_id {
            Some(s) => r.session_id == s && r.announce is None,
            None => match json_string_field(result_text@, "sessionId"@) {
                Some(s) => r.session_id@ == s && opt_view(r.announce) == Some(s),
                None => r.session_id@ == Seq::<char>::empty() && r.announce is None,
            },
        },
{
    if aborted {
        return AgentEnd {
            verdict: AgentVerdict::Cancelled,
            session_id: String::new(),
            result_message: None,
            error: None,
            announce: None,
        };
    }
    let found = json_str_field(result_text, "sessionId");
    let result_message = json_str_field(result_text, "resultMessage");
    let error = json_str_field(result_text, "error");
    let (session_id, announce) = match tracker.session_id {
        Some(s) => (s, None),
        None => match found {
            Some(s) => (s.clone(), Some(s)),
            None => (String::new(), None),
        },
    };
    let verdict = if error.is_some() {
        AgentVerdict::Reported
    } else if !exit_ok {
        AgentVerdict::ExitFailure
    } else {
        AgentVerdict::Done
    };
    AgentEnd { verdict, session_id, result_message, error, announce }
}

/// The outcome handed to the state machines.
pub fn outcome_of(end: AgentEnd) -> (r: AgentOutcome)
    ensures
        match end.verdict {
            AgentVerdict::Done => r == AgentOutcome::Finished {
                session_id: end.session_id,
                result_message: end.result_message,
            },
            AgentVerdict::Cancelled => r == AgentOutcome::Cancelled,
            _ => r == AgentOutcome::Failed,
        },
{
    match end.verdict {
        AgentVerdict::Done => AgentOutcome::Finished {
            session_id: end.session_id,
            result_message: end.result_message,
        },
        AgentVerdict::Cancelled => AgentOutcome::Cancelled,
        _ => AgentOutcome::Failed,
    }
}

/// An abort requested while the output is drained resolves the process as
/// cancelled whatever its exit status and result, and the run it belongs to
/// then resolves to `Cancelled`, not `Failed`.
pub proof fn lemma_abort_wins(
    result_text: Seq<char>,
    exit_ok: bool,
    e: crate::records::Execution,
    now_ms: i64,
    u: crate::records::ExecutionUpdates,
)
    requires
        crate::engine::run_finish_ok(u, AgentOutcome::Cancelled, now_ms),
    ensures
        agent_verdict(true, result_text, exit_ok) == AgentVerdict::Cancelled,
        crate::records::applied(e, u).status == crate::types::ExecutionStatus::Cancelled,
{
}

} // verus!
