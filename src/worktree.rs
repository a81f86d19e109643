//! The worktree lifecycle: where an execution's worktree and branch go, and
//! the git steps that create it on a clean slate or remove it.

use vstd::prelude::*;

use crate::naming::{branch_name_of, maestro_branch_name};
use crate::paths::{nested_path, worktree_path};
use crate::text::{append_str, string_of};

verus! {

/// Where the worktree of an execution goes.
pub struct WorktreePlan {
    /// Branch created for the execution.
    pub branch: String,
    /// Directory of the worktree.
    pub path: String,
    /// Remote-tracking ref the branch starts from: `origin/<default>`.
    pub base_ref: String,
}

/// The plan is the pure function of its inputs that names the branch and
/// the directory.
pub open spec fn plan_ok(
    p: WorktreePlan,
    worktree_root: Seq<char>,
    promptset_id: Seq<char>,
    revision_id: Seq<char>,
    execution_id: Seq<char>,
    default_branch: Seq<char>,
) -> bool {
    &&& p.branch@ == branch_name_of(promptset_id, revision_id, execution_id)
    &&& p.path@ == nested_path(worktree_root, promptset_id, execution_id)
    &&& p.base_ref@ == "origin/"@ + default_branch
}

/// Plans the worktree of an execution.
pub fn plan_worktree(
    worktree_root: &str,
    promptset_id: &str,
    revision_id: &str,
    execution_id: &str,
    default_branch: &str,
) -> (r: WorktreePlan)
    ensures
        plan_ok(r, worktree_root@, promptset_id@, revision_id@, execution_id@, default_branch@),
{
    let branch = maestro_branch_name(promptset_id, revision_id, execution_id);
    let path = worktree_path(worktree_root, promptset_id, execution_id);
    let mut base: Vec<char> = Vec::new();
    append_str(&mut base, "origin/");
    append_str(&mut base, default_branch);
    WorktreePlan { branch, path, base_ref: string_of(base.as_slice()) }
}

/// One git operation on the shared clone.
#[derive(Clone, Copy, Debug, PartialEq, Eq, Structural)]
pub enum GitStep {
    /// Force-remove the worktree directory of the plan.
    RemoveWorktree,
    /// Prune stale worktree metadata.
    Prune,
    /// Force-delete the plan's branch.
    DeleteBranch,
    /// Create the worktree on a fresh branch from the base ref.
    AddWorktree,
}

/// What is on disk for a plan: its directory, its branch.
pub struct SlateState {
    pub path_present: bool,
    pub branch_present: bool,
}

/// The state after one step.
pub open spec fn after_step(s: SlateState, step: GitStep) -> SlateState {
    match step {
        GitStep::RemoveWorktree => SlateState { path_present: false, ..s },
        GitStep::Prune => s,
        GitStep::DeleteBranch => SlateState { branch_present: false, ..s },
        GitStep::AddWorktree => SlateState { path_present: true, branch_present: true },
    }
}

/// The state after a list of steps.
pub open spec fn after_steps(s: SlateState, steps: Seq<GitStep>) -> SlateState
    decreases steps.len(),
{
    if steps.len() == 0 {
        s
    } else {
        after_steps(after_step(s, steps[0]), steps.subrange(1, steps.len() as int))
    }
}

/// The steps that create a worktree: an existing directory is removed and
/// pruned, an existing branch deleted, then the worktree is added.
pub open spec fn add_steps(path_exists: bool, branch_exists: bool) -> Seq<GitStep> {
    (if path_exists { seq![GitStep::RemoveWorktree, GitStep::Prune] } else { seq![] })
        + (if branch_exists { seq![GitStep::DeleteBranch] } else { seq![] })
        + seq![GitStep::AddWorktree]
}

/// The git steps that create the worktree of a plan, given whether its
/// directory and its branch already exist.
pub fn add_worktree_steps(path_exists: bool, branch_exists: bool) -> (r: Vec<GitStep>)
    ensures
        r@ == add_steps(path_exists, branch_exists),
{
    let mut steps: Vec<GitStep> = Vec::new();
    if path_exists {
        steps.push(GitStep::RemoveWorktree);
        steps.push(GitStep::Prune);
    }
    if branch_exists {
        steps.push(GitStep::DeleteBranch);
    }
    steps.push(GitStep::AddWorktree);
    proof {
        if path_exists {
            if branch_exists {
                assert(steps@ =~= add_steps(path_exists, branch_exists));
            } else {
                assert(steps@ =~= add_steps(path_exists, branch_exists));
            }
        } else {
            assert(steps@ =~= add_steps(path_exists, branch_exists));
        }
    }
    steps
}

/// The steps that remove a worktree: force removal, the branch's deletion
/// when one is named, then a prune.
pub open spec fn remove_steps(delete_branch: bool) -> Seq<GitStep> {
    if delete_branch {
        seq![GitStep::RemoveWorktree, GitStep::DeleteBranch, GitStep::Prune]
    } else {
        seq![GitStep::RemoveWorktree, GitStep::Prune]
    }
}

/// The git steps that remove the worktree of an execution.
pub fn remove_worktree_steps(delete_branch: bool) -> (r: Vec<GitStep>)
    ensures
        r@ == remove_steps(delete_branch),
{
    let mut steps: Vec<GitStep> = Vec::new();
    steps.push(GitStep::RemoveWorktree);
    if delete_branch {
        steps.push(GitStep::DeleteBranch);
    }
    steps.push(GitStep::Prune);
    proof {
        if delete_branch {
            assert(steps@ =~= remove_steps(delete_branch));
        } else {
            assert(steps@ =~= remove_steps(delete_branch));
        }
    }
    steps
}

/// Creating the worktree of the same execution twice in a row succeeds both
/// times on the same branch and directory: the plan depends on its inputs
/// alone, and from whatever the first creation left, the steps reach a
/// state with neither directory nor branch just before the add, which is
/// the last step.
pub proof fn lemma_add_worktree_idempotent(
    p1: WorktreePlan,
    p2: WorktreePlan,
    worktree_root: Seq<char>,
    promptset_id: Seq<char>,
    revision_id: Seq<char>,
    execution_id: Seq<char>,
    default_branch: Seq<char>,
    path_exists: bool,
    branch_exists: bool,
)
    requires
        plan_ok(p1, worktree_root, promptset_id, revision_id, execution_id, default_branch),
        plan_ok(p2, worktree_root, promptset_id, revision_id, execution_id, default_branch),
    ensures
        p1.branch@ == p2.branch@,
        p1.path@ == p2.path@,
        p1.base_ref@ == p2.base_ref@,
        ({
            let steps = add_steps(path_exists, branch_exists);
            let before_add = after_steps(
                SlateState { path_present: path_exists, branch_present: branch_exists },
                steps.drop_last(),
            );
            &&& steps.last() == GitStep::AddWorktree
            &&& !before_add.path_present && !before_add.branch_present
        }),
        ({
            let first = after_steps(
                SlateState { path_present: path_exists, branch_present: branch_exists },
                add_steps(path_exists, branch_exists),
            );
            let again = add_steps(first.path_present, first.branch_present);
            let before_add = after_steps(first, again.drop_last());
            &&& first.path_present && first.branch_present
            &&& again =~= seq![
                GitStep::RemoveWorktree,
                GitStep::Prune,
                GitStep::DeleteBranch,
                GitStep::AddWorktree,
            ]
            &&& !before_add.path_present && !before_add.branch_present
        }),
{
    lemma_add_steps_clean(path_exists, branch_exists);
    lemma_add_steps_clean(true, true);
}

proof fn lemma_add_steps_clean(path_exists: bool, branch_exists: bool)
    ensures
        ({
            let s0 = SlateState { path_present: path_exists, branch_present: branch_exists };
            let steps = add_steps(path_exists, branch_exists);
            let before_add = after_steps(s0, steps.drop_last());
            let end = after_steps(s0, steps);
            &&& steps.last() == GitStep::AddWorktree
            &&& !before_add.path_present && !before_add.branch_present
            &&& end.path_present && end.branch_present
        }),
{
    let s0 = SlateState { path_present: path_exists, branch_present: branch_exists };
    let steps = add_steps(path_exists, branch_exists);
    let pre = steps.drop_last();
    let add = seq![GitStep::AddWorktree];
    if path_exists && branch_exists {
        assert(steps =~= seq![GitStep::RemoveWorktree, GitStep::Prune, GitStep::DeleteBranch, GitStep::AddWorktree]);
        assert(pre =~= seq![GitStep::RemoveWorktree, GitStep::Prune, GitStep::DeleteBranch]);
        reveal_with_fuel(after_steps, 5);
        assert(pre.subrange(1, 3) =~= seq![GitStep::Prune, GitStep::DeleteBranch]);
        assert(seq![GitStep::Prune, GitStep::DeleteBranch].subrange(1, 2) =~= seq![GitStep::DeleteBranch]);
        assert(seq![GitStep::DeleteBranch].subrange(1, 1) =~= Seq::<GitStep>::empty());
        assert(steps.subrange(1, 4) =~= seq![GitStep::Prune, GitStep::DeleteBranch, GitStep::AddWorktree]);
        assert(seq![GitStep::Prune, GitStep::DeleteBranch, GitStep::AddWorktree].subrange(1, 3) =~= seq![GitStep::DeleteBranch, GitStep::AddWorktree]);
        assert(seq![GitStep::DeleteBranch, GitStep::AddWorktree].subrange(1, 2) =~= add);
        assert(add.subrange(1, 1) =~= Seq::<GitStep>::empty());
    } else if path_exists {
        assert(steps =~= seq![GitStep::RemoveWorktree, GitStep::Prune, GitStep::AddWorktree]);
        assert(pre =~= seq![GitStep::RemoveWorktree, GitStep::Prune]);
        reveal_with_fuel(after_steps, 4);
        assert(pre.subrange(1, 2) =~= seq![GitStep::Prune]);
        assert(seq![GitStep::Prune].subrange(1, 1) =~= Seq::<GitStep>::empty());
        assert(steps.subrange(1, 3) =~= seq![GitStep::Prune, GitStep::AddWorktree]);
        assert(seq![GitStep::Prune, GitStep::AddWorktree].subrange(1, 2) =~= add);
        assert(add.subrange(1, 1) =~= Seq::<GitStep>::empty());
    } else if branch_exists {
        assert(steps =~= seq![GitStep::DeleteBranch, GitStep::AddWorktree]);
        assert(pre =~= seq![GitStep::DeleteBranch]);
        reveal_with_fuel(after_steps, 3);
        assert(pre.subrange(1, 1) =~= Seq::<GitStep>::empty());
        assert(steps.subrange(1, 2) =~= add);
        assert(add.subrange(1, 1) =~= Seq::<GitStep>::empty());
    } else {
        assert(steps =~= add);
        assert(pre =~= Seq::<GitStep>::empty());
        reveal_with_fuel(after_steps, 2);
        assert(add.subrange(1, 1) =~= Seq::<GitStep>::empty());
    }
}

/// The default branch to start from when resuming: the cached one, else the
/// one the provider reported, else `main`.
pub fn resume_default_branch(cached: Option<String>, fetched: Option<String>) -> (r: String)
    ensures
        r@ == match cached {
            Some(c) => c@,
            None => match fetched {
                Some(f) => f@,
                None => "main"@,
            },
        },
{
    match cached {
        Some(c) => c,
        None => match fetched {
            Some(f) => f,
            None => String::from_str("main"),
        },
    }
}

} // verus!
