//! The persisted records the engine reads and the partial updates it writes.

use vstd::prelude::*;

use crate::types::{CiStatus, CommitStatus, ExecutionStatus, PromptStatus, ValidationStatus};

verus! {

/// One attempt of one prompt revision against one repository.
pub struct Execution {
    /// Identifier.
    pub id: String,
    /// Prompt set the attempt belongs to.
    pub promptset_id: String,
    /// Prompt revision that was run.
    pub revision_id: String,
    /// Repository it ran against.
    pub repository_id: String,
    /// Agent conversation handle.
    pub session_id: Option<String>,
    /// Address of the agent conversation.
    pub thread_url: Option<String>,
    /// Lifecycle status.
    pub status: ExecutionStatus,
    /// Verdict parsed from the agent's answer.
    pub prompt_status: Option<PromptStatus>,
    /// The agent's final message.
    pub prompt_result: Option<String>,
    /// Status of the review attempt.
    pub validation_status: Option<ValidationStatus>,
    /// Address of the review conversation.
    pub validation_thread_url: Option<String>,
    /// The validator's final message.
    pub validation_result: Option<String>,
    pub files_added: i64,
    pub files_removed: i64,
    pub files_modified: i64,
    pub lines_added: i64,
    pub lines_removed: i64,
    /// Whether the changes are committed.
    pub commit_status: CommitStatus,
    pub commit_sha: Option<String>,
    pub committed_at: Option<i64>,
    /// Base commit of the worktree.
    pub parent_sha: Option<String>,
    /// Branch of the worktree.
    pub branch: Option<String>,
    /// Aggregated CI status.
    pub ci_status: Option<CiStatus>,
    /// Time of the last CI poll, in milliseconds.
    pub ci_checked_at: Option<i64>,
    /// Address of the CI page of the commit.
    pub ci_url: Option<String>,
    pub created_at: i64,
    pub completed_at: Option<i64>,
}

/// A partial update of an [`Execution`]: the fields that are `Some` are written,
/// the others are left as they are.
pub struct ExecutionUpdates {
    pub session_id: Option<String>,
    pub thread_url: Option<String>,
    pub status: Option<ExecutionStatus>,
    pub prompt_status: Option<PromptStatus>,
    pub prompt_result: Option<String>,
    pub validation_status: Option<ValidationStatus>,
    pub validation_thread_url: Option<String>,
    pub validation_result: Option<String>,
    pub files_added: Option<i64>,
    pub files_removed: Option<i64>,
    pub files_modified: Option<i64>,
    pub lines_added: Option<i64>,
    pub lines_removed: Option<i64>,
    pub commit_status: Option<CommitStatus>,
    pub commit_sha: Option<String>,
    pub committed_at: Option<i64>,
    pub parent_sha: Option<String>,
    pub branch: Option<String>,
    pub ci_status: Option<CiStatus>,
    pub ci_checked_at: Option<i64>,
    pub ci_url: Option<String>,
    pub completed_at: Option<i64>,
}

/// The new value of a field: the update's, if it carries one.
pub open spec fn pick<T>(new: Option<T>, old: T) -> T {
    match new {
        Some(v) => v,
        None => old,
    }
}

/// The new value of an optional field: the update's, if it carries one.
pub open spec fn pick_opt<T>(new: Option<T>, old: Option<T>) -> Option<T> {
    if new is Some {
        new
    } else {
        old
    }
}

/// The record after `u` is written to `e`.
pub open spec fn applied(e: Execution, u: ExecutionUpdates) -> Execution {
    Execution {
        id: e.id,
        promptset_id: e.promptset_id,
        revision_id: e.revision_id,
        repository_id: e.repository_id,
        session_id: pick_opt(u.session_id, e.session_id),
        thread_url: pick_opt(u.thread_url, e.thread_url),
        status: pick(u.status, e.status),
        prompt_status: pick_opt(u.prompt_status, e.prompt_status),
        prompt_result: pick_opt(u.prompt_result, e.prompt_result),
        validation_status: pick_opt(u.validation_status, e.validation_status),
        validation_thread_url: pick_opt(u.validation_thread_url, e.validation_thread_url),
        validation_result: pick_opt(u.validation_result, e.validation_result),
        files_added: pick(u.files_added, e.files_added),
        files_removed: pick(u.files_removed, e.files_removed),
        files_modified: pick(u.files_modified, e.files_modified),
        lines_added: pick(u.lines_added, e.lines_added),
        lines_removed: pick(u.lines_removed, e.lines_removed),
        commit_status: pick(u.commit_status, e.commit_status),
        commit_sha: pick_opt(u.commit_sha, e.commit_sha),
        committed_at: pick_opt(u.committed_at, e.committed_at),
        parent_sha: pick_opt(u.parent_sha, e.parent_sha),
        branch: pick_opt(u.branch, e.branch),
        ci_status: pick_opt(u.ci_status, e.ci_status),
        ci_checked_at: pick_opt(u.ci_checked_at, e.ci_checked_at),
        ci_url: pick_opt(u.ci_url, e.ci_url),
        created_at: e.created_at,
        completed_at: pick_opt(u.completed_at, e.completed_at),
    }
}

/// The update that writes nothing.
pub open spec fn no_updates() -> ExecutionUpdates {
    ExecutionUpdates {
        session_id: None,
        thread_url: None,
        status: None,
        prompt_status: None,
        prompt_result: None,
        validation_status: None,
        validation_thread_url: None,
        validation_result: None,
        files_added: None,
        files_removed: None,
        files_modified: None,
        lines_added: None,
        lines_removed: None,
        commit_status: None,
        commit_sha: None,
        committed_at: None,
        parent_sha: None,
        branch: None,
        ci_status: None,
        ci_checked_at: None,
        ci_url: None,
        completed_at: None,
    }
}

impl ExecutionUpdates {
    /// An update that writes nothing.
    pub fn none() -> (r: Self)
        ensures
            r == no_updates(),
    {
        ExecutionUpdates {
            session_id: None,
            thread_url: None,
            status: None,
            prompt_status: None,
            prompt_result: None,
            validation_status: None,
            validation_thread_url: None,
            validation_result: None,
            files_added: None,
            files_removed: None,
            files_modified: None,
            lines_added: None,
            lines_removed: None,
            commit_status: None,
            commit_sha: None,
            committed_at: None,
            parent_sha: None,
            branch: None,
            ci_status: None,
            ci_checked_at: None,
            ci_url: None,
            completed_at: None,
        }
    }
}

impl Default for ExecutionUpdates {
    fn default() -> (r: Self)
        ensures
            r == no_updates(),
    {
        ExecutionUpdates::none()
    }
}

/// The update's value if it carries one, else the old one.
pub fn pick_value<T>(new: Option<T>, old: T) -> (r: T)
    ensures
        r == pick(new, old),
{
    match new {
        Some(v) => v,
        None => old,
    }
}

/// The update's optional value if it carries one, else the old one.
pub fn pick_option<T>(new: Option<T>, old: Option<T>) -> (r: Option<T>)
    ensures
        r == pick_opt(new, old),
{
    if new.is_some() {
        new
    } else {
        old
    }
}

impl Execution {
    /// A newly created execution: pending, with nothing recorded yet.
    pub fn new_pending(id: String, promptset_id: String, revision_id: String, repository_id: String, created_at: i64) -> (r:
        Execution)
        ensures
            r.id == id && r.promptset_id == promptset_id && r.revision_id == revision_id,
            r.repository_id == repository_id && r.created_at == created_at,
            r.status == ExecutionStatus::Pending && r.commit_status == CommitStatus::Unset,
            r.session_id is None && r.thread_url is None && r.prompt_status is None && r.prompt_result is None,
            r.validation_status is None && r.validation_thread_url is None && r.validation_result is None,
            r.files_added == 0 && r.files_removed == 0 && r.files_modified == 0,
            r.lines_added == 0 && r.lines_removed == 0,
            r.commit_sha is None && r.committed_at is None && r.parent_sha is None && r.branch is None,
            r.ci_status is None && r.ci_checked_at is None && r.ci_url is None && r.completed_at is None,
    {
        Execution {
            id,
            promptset_id,
            revision_id,
            repository_id,
            session_id: None,
            thread_url: None,
            status: ExecutionStatus::Pending,
            prompt_status: None,
            prompt_result: None,
            validation_status: None,
            validation_thread_url: None,
            validation_result: None,
            files_added: 0,
            files_removed: 0,
            files_modified: 0,
            lines_added: 0,
            lines_removed: 0,
            commit_status: CommitStatus::Unset,
            commit_sha: None,
            committed_at: None,
            parent_sha: None,
            branch: None,
            ci_status: None,
            ci_checked_at: None,
            ci_url: None,
            created_at,
            completed_at: None,
        }
    }

    /// The record with the fields that `u` carries written.
    pub fn with_updates(self, u: ExecutionUpdates) -> (r: Execution)
        ensures
            r == applied(self, u),
    {
        Execution {
            id: self.id,
            promptset_id: self.promptset_id,
            revision_id: self.revision_id,
            repository_id: self.repository_id,
            session_id: pick_option(u.session_id, self.session_id),
            thread_url: pick_option(u.thread_url, self.thread_url),
            status: pick_value(u.status, self.status),
            prompt_status: pick_option(u.prompt_status, self.prompt_status),
            prompt_result: pick_option(u.prompt_result, self.prompt_result),
            validation_status: pick_option(u.validation_status, self.validation_status),
            validation_thread_url: pick_option(u.validation_thread_url, self.validation_thread_url),
            validation_result: pick_option(u.validation_result, self.validation_result),
            files_added: pick_value(u.files_added, self.files_added),
            files_removed: pick_value(u.files_removed, self.files_removed),
            files_modified: pick_value(u.files_modified, self.files_modified),
            lines_added: pick_value(u.lines_added, self.lines_added),
            lines_removed: pick_value(u.lines_removed, self.lines_removed),
            commit_status: pick_value(u.commit_status, self.commit_status),
            commit_sha: pick_option(u.commit_sha, self.commit_sha),
            committed_at: pick_option(u.committed_at, self.committed_at),
            parent_sha: pick_option(u.parent_sha, self.parent_sha),
            branch: pick_option(u.branch, self.branch),
            ci_status: pick_option(u.ci_status, self.ci_status),
            ci_checked_at: pick_option(u.ci_checked_at, self.ci_checked_at),
            ci_url: pick_option(u.ci_url, self.ci_url),
            created_at: self.created_at,
            completed_at: pick_option(u.completed_at, self.completed_at),
        }
    }
}

/// A repository the prompts run against.
pub struct Repository {
    pub id: String,
    /// `github` or `gitlab`.
    pub provider: String,
    /// `owner/repo`, possibly prefixed by the provider's host.
    pub provider_id: String,
    pub name: Option<String>,
    /// Default branch, cached once fetched from the provider.
    pub default_branch: Option<String>,
    pub last_synced_at: Option<i64>,
    pub created_at: i64,
}

/// Counters shown for a prompt set.
pub struct PromptSetStats {
    pub total_executions: i64,
    pub total_completions: i64,
    pub total_validations: i64,
    pub total_revisions: i64,
}

/// A named task run against a set of repositories.
pub struct PromptSet {
    pub id: String,
    pub name: String,
    pub repository_ids: Vec<String>,
    /// Prompt of the review that follows a successful run, if any.
    pub validation_prompt: Option<String>,
    pub auto_validate: bool,
    pub created_at: i64,
    pub stats: Option<PromptSetStats>,
}

/// Counters shown for a revision.
pub struct ExecutionStats {
    pub total: i64,
    pub completed: i64,
    pub validation_passed: i64,
}

/// One version of the text of a prompt set.
pub struct PromptRevision {
    pub id: String,
    pub promptset_id: String,
    pub prompt_text: String,
    pub parent_revision_id: Option<String>,
    pub created_at: i64,
    pub execution_stats: Option<ExecutionStats>,
}

/// What a git host reports of a repository.
pub struct RepoMetadata {
    pub default_branch: String,
}

/// Configuration of the GitHub host provider.
pub struct GitHubGitConfig {
    pub owner: String,
    pub repo: String,
}

/// Configuration of the GitLab host provider.
pub struct GitLabGitConfig {
    pub project_id: String,
}

/// A summary of the results of many executions, written by the agent.
pub struct Analysis {
    pub id: String,
    pub revision_id: String,
    pub analysis_type: crate::types::AnalysisType,
    pub status: crate::types::AnalysisStatus,
    pub analysis_prompt: String,
    pub analysis_result: Option<String>,
    pub amp_thread_url: Option<String>,
    pub amp_session_id: Option<String>,
    pub error_message: Option<String>,
    pub execution_count: i64,
    pub created_at: i64,
    pub updated_at: i64,
    pub completed_at: Option<i64>,
}

/// The requested repository ids that belong to the prompt set, in the
/// requested order.
pub open spec fn selected_ids(requested: Seq<String>, members: Seq<String>) -> Seq<String>
    decreases requested.len(),
{
    if requested.len() == 0 {
        Seq::empty()
    } else {
        let rest = selected_ids(requested.drop_last(), members);
        if exists|j: int| 0 <= j < members.len() && members[j]@ == requested.last()@ {
            rest.push(requested.last())
        } else {
            rest
        }
    }
}

/// The repositories a prompt set runs against: all of its own, or, when a
/// selection is given, the selected ones that belong to it.
pub fn select_repositories(members: &Vec<String>, requested: Option<Vec<String>>) -> (r: Vec<String>)
    ensures
        r@ == match requested {
            Some(req) => selected_ids(req@, members@),
            None => members@,
        },
{
    match requested {
        None => members.clone(),
        Some(req) => {
            let mut out: Vec<String> = Vec::new();
            let mut i: usize = 0;
            while i < req.len()
                invariant
                    i <= req@.len(),
                    out@ == selected_ids(req@.subrange(0, i as int), members@),
                decreases req@.len() - i,
            {
                let mut found = false;
                let mut j: usize = 0;
                while j < members.len()
                    invariant
                        i < req@.len(),
                        j <= members@.len(),
                        found <==> exists|k: int| 0 <= k < j && members@[k]@ == req@[i as int]@,
                    decreases members@.len() - j,
                {
                    if crate::text::eq_str(members[j].as_str(), req[i].as_str()) {
                        found = true;
                    }
                    j = j + 1;
                }
                assert(req@.subrange(0, i + 1).drop_last() =~= req@.subrange(0, i as int));
                if found {
                    out.push(req[i].clone());
                }
                i = i + 1;
            }
            assert(req@.subrange(0, req@.len() as int) =~= req@);
            out
        },
    }
}

} // verus!
