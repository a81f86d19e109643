//! Status enumerations and their stored / emitted string forms.

use vstd::prelude::*;

use crate::text::eq_str;

verus! {

/// Lifecycle status of one execution attempt.
#[derive(Clone, Copy, Debug, PartialEq, Eq, Hash, Structural)]
pub enum ExecutionStatus {
    Pending,
    Running,
    Completed,
    Failed,
    Cancelled,
}

impl ExecutionStatus {
    /// The lowercase name under which the value is stored and emitted.
    pub open spec fn spec_name(self) -> Seq<char> {
        match self {
            ExecutionStatus::Pending => "pending"@,
            ExecutionStatus::Running => "running"@,
            ExecutionStatus::Completed => "completed"@,
            ExecutionStatus::Failed => "failed"@,
            ExecutionStatus::Cancelled => "cancelled"@,
        }
    }

    /// The stored name of this value.
    pub fn as_str(&self) -> (r: &'static str)
        ensures
            r@ == self.spec_name(),
    {
        match self {
            ExecutionStatus::Pending => "pending",
            ExecutionStatus::Running => "running",
            ExecutionStatus::Completed => "completed",
            ExecutionStatus::Failed => "failed",
            ExecutionStatus::Cancelled => "cancelled",
        }
    }

    /// The value whose stored name is `s`, if any.
    pub fn parse(s: &str) -> (r: Option<Self>)
        ensures
            r matches Some(x) ==> x.spec_name() == s@,
            r is None ==> forall|x: ExecutionStatus| x.spec_name() != s@,
    {
        if eq_str(s, "pending") {
            Some(ExecutionStatus::Pending)
        } else if eq_str(s, "running") {
            Some(ExecutionStatus::Running)
        } else if eq_str(s, "completed") {
            Some(ExecutionStatus::Completed)
        } else if eq_str(s, "failed") {
            Some(ExecutionStatus::Failed)
        } else if eq_str(s, "cancelled") {
            Some(ExecutionStatus::Cancelled)
        } else {
            None
        }
    }
}

/// Status of the review attempt that follows an execution.
#[derive(Clone, Copy, Debug, PartialEq, Eq, Hash, Structural)]
pub enum ValidationStatus {
    Pending,
    Running,
    Passed,
    Failed,
    Cancelled,
}

impl ValidationStatus {
    /// The lowercase name under which the value is stored and emitted.
    pub open spec fn spec_name(self) -> Seq<char> {
        match self {
            ValidationStatus::Pending => "pending"@,
            ValidationStatus::Running => "running"@,
            ValidationStatus::Passed => "passed"@,
            ValidationStatus::Failed => "failed"@,
            ValidationStatus::Cancelled => "cancelled"@,
        }
    }

    /// The stored name of this value.
    pub fn as_str(&self) -> (r: &'static str)
        ensures
            r@ == self.spec_name(),
    {
        match self {
            ValidationStatus::Pending => "pending",
            ValidationStatus::Running => "running",
            ValidationStatus::Passed => "passed",
            ValidationStatus::Failed => "failed",
            ValidationStatus::Cancelled => "cancelled",
        }
    }

    /// The value whose stored name is `s`, if any.
    pub fn parse(s: &str) -> (r: Option<Self>)
        ensures
            r matches Some(x) ==> x.spec_name() == s@,
            r is None ==> forall|x: ValidationStatus| x.spec_name() != s@,
    {
        if eq_str(s, "pending") {
            Some(ValidationStatus::Pending)
        } else if eq_str(s, "running") {
            Some(ValidationStatus::Running)
        } else if eq_str(s, "passed") {
            Some(ValidationStatus::Passed)
        } else if eq_str(s, "failed") {
            Some(ValidationStatus::Failed)
        } else if eq_str(s, "cancelled") {
            Some(ValidationStatus::Cancelled)
        } else {
            None
        }
    }
}

/// Verdict that the agent reported for the prompt.
#[derive(Clone, Copy, Debug, PartialEq, Eq, Hash, Structural)]
pub enum PromptStatus {
    Passed,
    Failed,
}

impl PromptStatus {
    /// The lowercase name under which the value is stored and emitted.
    pub open spec fn spec_name(self) -> Seq<char> {
        match self {
            PromptStatus::Passed => "passed"@,
            PromptStatus::Failed => "failed"@,
        }
    }

    /// The stored name of this value.
    pub fn as_str(&self) -> (r: &'static str)
        ensures
            r@ == self.spec_name(),
    {
        match self {
            PromptStatus::Passed => "passed",
            PromptStatus::Failed => "failed",
        }
    }

    /// The value whose stored name is `s`, if any.
    pub fn parse(s: &str) -> (r: Option<Self>)
        ensures
            r matches Some(x) ==> x.spec_name() == s@,
            r is None ==> forall|x: PromptStatus| x.spec_name() != s@,
    {
        if eq_str(s, "passed") {
            Some(PromptStatus::Passed)
        } else if eq_str(s, "failed") {
            Some(PromptStatus::Failed)
        } else {
            None
        }
    }
}

/// Whether the worktree's changes have been committed.
#[derive(Clone, Copy, Debug, PartialEq, Eq, Hash, Structural)]
pub enum CommitStatus {
    Unset,
    Uncommitted,
    Committed,
}

impl CommitStatus {
    /// The lowercase name under which the value is stored and emitted.
    pub open spec fn spec_name(self) -> Seq<char> {
        match self {
            CommitStatus::Unset => "none"@,
            CommitStatus::Uncommitted => "uncommitted"@,
            CommitStatus::Committed => "committed"@,
        }
    }

    /// The stored name of this value.
    pub fn as_str(&self) -> (r: &'static str)
        ensures
            r@ == self.spec_name(),
    {
        match self {
            CommitStatus::Unset => "none",
            CommitStatus::Uncommitted => "uncommitted",
            CommitStatus::Committed => "committed",
        }
    }

    /// The value whose stored name is `s`, if any.
    pub fn parse(s: &str) -> (r: Option<Self>)
        ensures
            r matches Some(x) ==> x.spec_name() == s@,
            r is None ==> forall|x: CommitStatus| x.spec_name() != s@,
    {
        if eq_str(s, "none") {
            Some(CommitStatus::Unset)
        } else if eq_str(s, "uncommitted") {
            Some(CommitStatus::Uncommitted)
        } else if eq_str(s, "committed") {
            Some(CommitStatus::Committed)
        } else {
            None
        }
    }
}

/// Aggregated status of the CI checks of a pushed commit.
#[derive(Clone, Copy, Debug, PartialEq, Eq, Hash, Structural)]
pub enum CiStatus {
    Pending,
    Passed,
    Failed,
    Skipped,
    NotConfigured,
    NotPushed,
}

impl CiStatus {
    /// The lowercase name under which the value is stored and emitted.
    pub open spec fn spec_name(self) -> Seq<char> {
        match self {
            CiStatus::Pending => "pending"@,
            CiStatus::Passed => "passed"@,
            CiStatus::Failed => "failed"@,
            CiStatus::Skipped => "skipped"@,
            CiStatus::NotConfigured => "not_configured"@,
            CiStatus::NotPushed => "not_pushed"@,
        }
    }

    /// The stored name of this value.
    pub fn as_str(&self) -> (r: &'static str)
        ensures
            r@ == self.spec_name(),
    {
        match self {
            CiStatus::Pending => "pending",
            CiStatus::Passed => "passed",
            CiStatus::Failed => "failed",
            CiStatus::Skipped => "skipped",
            CiStatus::NotConfigured => "not_configured",
            CiStatus::NotPushed => "not_pushed",
        }
    }

    /// The value whose stored name is `s`, if any.
    pub fn parse(s: &str) -> (r: Option<Self>)
        ensures
            r matches Some(x) ==> x.spec_name() == s@,
            r is None ==> forall|x: CiStatus| x.spec_name() != s@,
    {
        if eq_str(s, "pending") {
            Some(CiStatus::Pending)
        } else if eq_str(s, "passed") {
            Some(CiStatus::Passed)
        } else if eq_str(s, "failed") {
            Some(CiStatus::Failed)
        } else if eq_str(s, "skipped") {
            Some(CiStatus::Skipped)
        } else if eq_str(s, "not_configured") {
            Some(CiStatus::NotConfigured)
        } else if eq_str(s, "not_pushed") {
            Some(CiStatus::NotPushed)
        } else {
            None
        }
    }
}

/// How a file differs from the base commit.
#[derive(Clone, Copy, Debug, PartialEq, Eq, Hash, Structural)]
pub enum FileStatus {
    Added,
    Modified,
    Deleted,
    Renamed,
}

impl FileStatus {
    /// The lowercase name under which the value is stored and emitted.
    pub open spec fn spec_name(self) -> Seq<char> {
        match self {
            FileStatus::Added => "added"@,
            FileStatus::Modified => "modified"@,
            FileStatus::Deleted => "deleted"@,
            FileStatus::Renamed => "renamed"@,
        }
    }

    /// The stored name of this value.
    pub fn as_str(&self) -> (r: &'static str)
        ensures
            r@ == self.spec_name(),
    {
        match self {
            FileStatus::Added => "added",
            FileStatus::Modified => "modified",
            FileStatus::Deleted => "deleted",
            FileStatus::Renamed => "renamed",
        }
    }

    /// The value whose stored name is `s`, if any.
    pub fn parse(s: &str) -> (r: Option<Self>)
        ensures
            r matches Some(x) ==> x.spec_name() == s@,
            r is None ==> forall|x: FileStatus| x.spec_name() != s@,
    {
        if eq_str(s, "added") {
            Some(FileStatus::Added)
        } else if eq_str(s, "modified") {
            Some(FileStatus::Modified)
        } else if eq_str(s, "deleted") {
            Some(FileStatus::Deleted)
        } else if eq_str(s, "renamed") {
            Some(FileStatus::Renamed)
        } else {
            None
        }
    }
}

/// Which kind of result an analysis summarises.
#[derive(Clone, Copy, Debug, PartialEq, Eq, Hash, Structural)]
pub enum AnalysisType {
    Execution,
    Validation,
}

impl AnalysisType {
    /// The lowercase name under which the value is stored and emitted.
    pub open spec fn spec_name(self) -> Seq<char> {
        match self {
            AnalysisType::Execution => "execution"@,
            AnalysisType::Validation => "validation"@,
        }
    }

    /// The stored name of this value.
    pub fn as_str(&self) -> (r: &'static str)
        ensures
            r@ == self.spec_name(),
    {
        match self {
            AnalysisType::Execution => "execution",
            AnalysisType::Validation => "validation",
        }
    }

    /// The value whose stored name is `s`, if any.
    pub fn parse(s: &str) -> (r: Option<Self>)
        ensures
            r matches Some(x) ==> x.spec_name() == s@,
            r is None ==> forall|x: AnalysisType| x.spec_name() != s@,
    {
        if eq_str(s, "execution") {
            Some(AnalysisType::Execution)
        } else if eq_str(s, "validation") {
            Some(AnalysisType::Validation)
        } else {
            None
        }
    }
}

/// Progress of an analysis.
#[derive(Clone, Copy, Debug, PartialEq, Eq, Hash, Structural)]
pub enum AnalysisStatus {
    Pending,
    Completed,
    Failed,
}

impl AnalysisStatus {
    /// The lowercase name under which the value is stored and emitted.
    pub open spec fn spec_name(self) -> Seq<char> {
        match self {
            AnalysisStatus::Pending => "pending"@,
            AnalysisStatus::Completed => "completed"@,
            AnalysisStatus::Failed => "failed"@,
        }
    }

    /// The stored name of this value.
    pub fn as_str(&self) -> (r: &'static str)
        ensures
            r@ == self.spec_name(),
    {
        match self {
            AnalysisStatus::Pending => "pending",
            AnalysisStatus::Completed => "completed",
            AnalysisStatus::Failed => "failed",
        }
    }

    /// The value whose stored name is `s`, if any.
    pub fn parse(s: &str) -> (r: Option<Self>)
        ensures
            r matches Some(x) ==> x.spec_name() == s@,
            r is None ==> forall|x: AnalysisStatus| x.spec_name() != s@,
    {
        if eq_str(s, "pending") {
            Some(AnalysisStatus::Pending)
        } else if eq_str(s, "completed") {
            Some(AnalysisStatus::Completed)
        } else if eq_str(s, "failed") {
            Some(AnalysisStatus::Failed)
        } else {
            None
        }
    }
}

/// The stored names of the values of each enumeration are pairwise distinct.
pub proof fn lemma_status_names_distinct()
    ensures
        forall|a: ExecutionStatus, b: ExecutionStatus| a.spec_name() == b.spec_name() ==> a == b,
        forall|a: ValidationStatus, b: ValidationStatus| a.spec_name() == b.spec_name() ==> a == b,
        forall|a: PromptStatus, b: PromptStatus| a.spec_name() == b.spec_name() ==> a == b,
        forall|a: CommitStatus, b: CommitStatus| a.spec_name() == b.spec_name() ==> a == b,
        forall|a: CiStatus, b: CiStatus| a.spec_name() == b.spec_name() ==> a == b,
        forall|a: FileStatus, b: FileStatus| a.spec_name() == b.spec_name() ==> a == b,
        forall|a: AnalysisType, b: AnalysisType| a.spec_name() == b.spec_name() ==> a == b,
        forall|a: AnalysisStatus, b: AnalysisStatus| a.spec_name() == b.spec_name() ==> a == b,
{
    reveal_strlit("added");
    reveal_strlit("cancelled");
    reveal_strlit("committed");
    reveal_strlit("completed");
    reveal_strlit("deleted");
    reveal_strlit("execution");
    reveal_strlit("failed");
    reveal_strlit("modified");
    reveal_strlit("none");
    reveal_strlit("not_configured");
    reveal_strlit("not_pushed");
    reveal_strlit("passed");
    reveal_strlit("pending");
    reveal_strlit("renamed");
    reveal_strlit("running");
    reveal_strlit("skipped");
    reveal_strlit("uncommitted");
    reveal_strlit("validation");
    assert forall|a: ExecutionStatus, b: ExecutionStatus| a.spec_name() == b.spec_name() implies a == b by {
        match (a, b) {
            (ExecutionStatus::Pending, ExecutionStatus::Running) => assert(a.spec_name()[0] != b.spec_name()[0]),
            (ExecutionStatus::Pending, ExecutionStatus::Completed) => assert(a.spec_name().len() != b.spec_name().len()),
            (ExecutionStatus::Pending, ExecutionStatus::Failed) => assert(a.spec_name().len() != b.spec_name().len()),
            (ExecutionStatus::Pending, ExecutionStatus::Cancelled) => assert(a.spec_name().len() != b.spec_name().len()),
            (ExecutionStatus::Running, ExecutionStatus::Pending) => assert(a.spec_name()[0] != b.spec_name()[0]),
            (ExecutionStatus::Running, ExecutionStatus::Completed) => assert(a.spec_name().len() != b.spec_name().len()),
            (ExecutionStatus::Running, ExecutionStatus::Failed) => assert(a.spec_name().len() != b.spec_name().len()),
            (ExecutionStatus::Running, ExecutionStatus::Cancelled) => assert(a.spec_name().len() != b.spec_name().len()),
            (ExecutionStatus::Completed, ExecutionStatus::Pending) => assert(a.spec_name().len() != b.spec_name().len()),
            (ExecutionStatus::Completed, ExecutionStatus::Running) => assert(a.spec_name().len() != b.spec_name().len()),
            (ExecutionStatus::Completed, ExecutionStatus::Failed) => assert(a.spec_name().len() != b.spec_name().len()),
            (ExecutionStatus::Completed, ExecutionStatus::Cancelled) => assert(a.spec_name()[1] != b.spec_name()[1]),
            (ExecutionStatus::Failed, ExecutionStatus::Pending) => assert(a.spec_name().len() != b.spec_name().len()),
            (ExecutionStatus::Failed, ExecutionStatus::Running) => assert(a.spec_name().len() != b.spec_name().len()),
            (ExecutionStatus::Failed, ExecutionStatus::Completed) => assert(a.spec_name().len() != b.spec_name().len()),
            (ExecutionStatus::Failed, ExecutionStatus::Cancelled) => assert(a.spec_name().len() != b.spec_name().len()),
            (ExecutionStatus::Cancelled, ExecutionStatus::Pending) => assert(a.spec_name().len() != b.spec_name().len()),
            (ExecutionStatus::Cancelled, ExecutionStatus::Running) => assert(a.spec_name().len() != b.spec_name().len()),
            (ExecutionStatus::Cancelled, ExecutionStatus::Completed) => assert(a.spec_name()[1] != b.spec_name()[1]),
            (ExecutionStatus::Cancelled, ExecutionStatus::Failed) => assert(a.spec_name().len() != b.spec_name().len()),
            _ => {},
        }
    }
    assert forall|a: ValidationStatus, b: ValidationStatus| a.spec_name() == b.spec_name() implies a == b by {
        match (a, b) {
            (ValidationStatus::Pending, ValidationStatus::Running) => assert(a.spec_name()[0] != b.spec_name()[0]),
            (ValidationStatus::Pending, ValidationStatus::Passed) => assert(a.spec_name().len() != b.spec_name().len()),
            (ValidationStatus::Pending, ValidationStatus::Failed) => assert(a.spec_name().len() != b.spec_name().len()),
            (ValidationStatus::Pending, ValidationStatus::Cancelled) => assert(a.spec_name().len() != b.spec_name().len()),
            (ValidationStatus::Running, ValidationStatus::Pending) => assert(a.spec_name()[0] != b.spec_name()[0]),
            (ValidationStatus::Running, ValidationStatus::Passed) => assert(a.spec_name().len() != b.spec_name().len()),
            (ValidationStatus::Running, ValidationStatus::Failed) => assert(a.spec_name().len() != b.spec_name().len()),
            (ValidationStatus::Running, ValidationStatus::Cancelled) => assert(a.spec_name().len() != b.spec_name().len()),
            (ValidationStatus::Passed, ValidationStatus::Pending) => assert(a.spec_name().len() != b.spec_name().len()),
            (ValidationStatus::Passed, ValidationStatus::Running) => assert(a.spec_name().len() != b.spec_name().len()),
            (ValidationStatus::Passed, ValidationStatus::Failed) => assert(a.spec_name()[0] != b.spec_name()[0]),
            (ValidationStatus::Passed, ValidationStatus::Cancelled) => assert(a.spec_name().len() != b.spec_name().len()),
            (ValidationStatus::Failed, ValidationStatus::Pending) => assert(a.spec_name().len() != b.spec_name().len()),
            (ValidationStatus::Failed, ValidationStatus::Running) => assert(a.spec_name().len() != b.spec_name().len()),
            (ValidationStatus::Failed, ValidationStatus::Passed) => assert(a.spec_name()[0] != b.spec_name()[0]),
            (ValidationStatus::Failed, ValidationStatus::Cancelled) => assert(a.spec_name().len() != b.spec_name().len()),
            (ValidationStatus::Cancelled, ValidationStatus::Pending) => assert(a.spec_name().len() != b.spec_name().len()),
            (ValidationStatus::Cancelled, ValidationStatus::Running) => assert(a.spec_name().len() != b.spec_name().len()),
            (ValidationStatus::Cancelled, ValidationStatus::Passed) => assert(a.spec_name().len() != b.spec_name().len()),
            (ValidationStatus::Cancelled, ValidationStatus::Failed) => assert(a.spec_name().len() != b.spec_name().len()),
            _ => {},
        }
    }
    assert forall|a: PromptStatus, b: PromptStatus| a.spec_name() == b.spec_name() implies a == b by {
        match (a, b) {
            (PromptStatus::Passed, PromptStatus::Failed) => assert(a.spec_name()[0] != b.spec_name()[0]),
            (PromptStatus::Failed, PromptStatus::Passed) => assert(a.spec_name()[0] != b.spec_name()[0]),
            _ => {},
        }
    }
    assert forall|a: CommitStatus, b: CommitStatus| a.spec_name() == b.spec_name() implies a == b by {
        match (a, b) {
            (CommitStatus::Unset, CommitStatus::Uncommitted) => assert(a.spec_name().len() != b.spec_name().len()),
            (CommitStatus::Unset, CommitStatus::Committed) => assert(a.spec_name().len() != b.spec_name().len()),
            (CommitStatus::Uncommitted, CommitStatus::Unset) => assert(a.spec_name().len() != b.spec_name().len()),
            (CommitStatus::Uncommitted, CommitStatus::Committed) => assert(a.spec_name().len() != b.spec_name().len()),
            (CommitStatus::Committed, CommitStatus::Unset) => assert(a.spec_name().len() != b.spec_name().len()),
            (CommitStatus::Committed, CommitStatus::Uncommitted) => assert(a.spec_name().len() != b.spec_name().len()),
            _ => {},
        }
    }
    assert forall|a: CiStatus, b: CiStatus| a.spec_name() == b.spec_name() implies a == b by {
        match (a, b) {
            (CiStatus::Pending, CiStatus::Passed) => assert(a.spec_name().len() != b.spec_name().len()),
            (CiStatus::Pending, CiStatus::Failed) => assert(a.spec_name().len() != b.spec_name().len()),
            (CiStatus::Pending, CiStatus::Skipped) => assert(a.spec_name()[0] != b.spec_name()[0]),
            (CiStatus::Pending, CiStatus::NotConfigured) => assert(a.spec_name().len() != b.spec_name().len()),
            (CiStatus::Pending, CiStatus::NotPushed) => assert(a.spec_name().len() != b.spec_name().len()),
            (CiStatus::Passed, CiStatus::Pending) => assert(a.spec_name().len() != b.spec_name().len()),
            (CiStatus::Passed, CiStatus::Failed) => assert(a.spec_name()[0] != b.spec_name()[0]),
            (CiStatus::Passed, CiStatus::Skipped) => assert(a.spec_name().len() != b.spec_name().len()),
            (CiStatus::Passed, CiStatus::NotConfigured) => assert(a.spec_name().len() != b.spec_name().len()),
            (CiStatus::Passed, CiStatus::NotPushed) => assert(a.spec_name().len() != b.spec_name().len()),
            (CiStatus::Failed, CiStatus::Pending) => assert(a.spec_name().len() != b.spec_name().len()),
            (CiStatus::Failed, CiStatus::Passed) => assert(a.spec_name()[0] != b.spec_name()[0]),
            (CiStatus::Failed, CiStatus::Skipped) => assert(a.spec_name().len() != b.spec_name().len()),
            (CiStatus::Failed, CiStatus::NotConfigured) => assert(a.spec_name().len() != b.spec_name().len()),
            (CiStatus::Failed, CiStatus::NotPushed) => assert(a.spec_name().len() != b.spec_name().len()),
            (CiStatus::Skipped, CiStatus::Pending) => assert(a.spec_name()[0] != b.spec_name()[0]),
            (CiStatus::Skipped, CiStatus::Passed) => assert(a.spec_name().len() != b.spec_name().len()),
            (CiStatus::Skipped, CiStatus::Failed) => assert(a.spec_name().len() != b.spec_name().len()),
            (CiStatus::Skipped, CiStatus::NotConfigured) => assert(a.spec_name().len() != b.spec_name().len()),
            (CiStatus::Skipped, CiStatus::NotPushed) => assert(a.spec_name().len() != b.spec_name().len()),
            (CiStatus::NotConfigured, CiStatus::Pending) => assert(a.spec_name().len() != b.spec_name().len()),
            (CiStatus::NotConfigured, CiStatus::Passed) => assert(a.spec_name().len() != b.spec_name().len()),
            (CiStatus::NotConfigured, CiStatus::Failed) => assert(a.spec_name().len() != b.spec_name().len()),
            (CiStatus::NotConfigured, CiStatus::Skipped) => assert(a.spec_name().len() != b.spec_name().len()),
            (CiStatus::NotConfigured, CiStatus::NotPushed) => assert(a.spec_name().len() != b.spec_name().len()),
            (CiStatus::NotPushed, CiStatus::Pending) => assert(a.spec_name().len() != b.spec_name().len()),
            (CiStatus::NotPushed, CiStatus::Passed) => assert(a.spec_name().len() != b.spec_name().len()),
            (CiStatus::NotPushed, CiStatus::Failed) => assert(a.spec_name().len() != b.spec_name().len()),
            (CiStatus::NotPushed, CiStatus::Skipped) => assert(a.spec_name().len() != b.spec_name().len()),
            (CiStatus::NotPushed, CiStatus::NotConfigured) => assert(a.spec_name().len() != b.spec_name().len()),
            _ => {},
        }
    }
    assert forall|a: FileStatus, b: FileStatus| a.spec_name() == b.spec_name() implies a == b by {
        match (a, b) {
            (FileStatus::Added, FileStatus::Modified) => assert(a.spec_name().len() != b.spec_name().len()),
            (FileStatus::Added, FileStatus::Deleted) => assert(a.spec_name().len() != b.spec_name().len()),
            (FileStatus::Added, FileStatus::Renamed) => assert(a.spec_name().len() != b.spec_name().len()),
            (FileStatus::Modified, FileStatus::Added) => assert(a.spec_name().len() != b.spec_name().len()),
            (FileStatus::Modified, FileStatus::Deleted) => assert(a.spec_name().len() != b.spec_name().len()),
            (FileStatus::Modified, FileStatus::Renamed) => assert(a.spec_name().len() != b.spec_name().len()),
            (FileStatus::Deleted, FileStatus::Added) => assert(a.spec_name().len() != b.spec_name().len()),
            (FileStatus::Deleted, FileStatus::Modified) => assert(a.spec_name().len() != b.spec_name().len()),
            (FileStatus::Deleted, FileStatus::Renamed) => assert(a.spec_name()[0] != b.spec_name()[0]),
            (FileStatus::Renamed, FileStatus::Added) => assert(a.spec_name().len() != b.spec_name().len()),
            (FileStatus::Renamed, FileStatus::Modified) => assert(a.spec_name().len() != b.spec_name().len()),
            (FileStatus::Renamed, FileStatus::Deleted) => assert(a.spec_name()[0] != b.spec_name()[0]),
            _ => {},
        }
    }
    assert forall|a: AnalysisType, b: AnalysisType| a.spec_name() == b.spec_name() implies a == b by {
        match (a, b) {
            (AnalysisType::Execution, AnalysisType::Validation) => assert(a.spec_name().len() != b.spec_name().len()),
            (AnalysisType::Validation, AnalysisType::Execution) => assert(a.spec_name().len() != b.spec_name().len()),
            _ => {},
        }
    }
    assert forall|a: AnalysisStatus, b: AnalysisStatus| a.spec_name() == b.spec_name() implies a == b by {
        match (a, b) {
            (AnalysisStatus::Pending, AnalysisStatus::Completed) => assert(a.spec_name().len() != b.spec_name().len()),
            (AnalysisStatus::Pending, AnalysisStatus::Failed) => assert(a.spec_name().len() != b.spec_name().len()),
            (AnalysisStatus::Completed, AnalysisStatus::Pending) => assert(a.spec_name().len() != b.spec_name().len()),
            (AnalysisStatus::Completed, AnalysisStatus::Failed) => assert(a.spec_name().len() != b.spec_name().len()),
            (AnalysisStatus::Failed, AnalysisStatus::Pending) => assert(a.spec_name().len() != b.spec_name().len()),
            (AnalysisStatus::Failed, AnalysisStatus::Completed) => assert(a.spec_name().len() != b.spec_name().len()),
            _ => {},
        }
    }
}

} // verus!
