//! Where shared clones and per-execution worktrees live on disk.

use vstd::prelude::*;

use crate::text::{append_str, chars_of, string_of};

verus! {

/// The directories the engine works in.
pub struct Paths {
    /// Root of the shared clones, one per `owner/repo`.
    pub admin_repo_dir: String,
    /// Root of the worktrees, one per execution.
    pub worktree_dir: String,
    /// The database file.
    pub db_path: String,
}

/// `seg` appended to the path `dir` as a further component. An absolute
/// `seg` replaces `dir`; no separator is doubled.
pub open spec fn join_path(dir: Seq<char>, seg: Seq<char>) -> Seq<char> {
    if seg.len() > 0 && seg[0] == '/' {
        seg
    } else if dir.len() == 0 {
        seg
    } else if dir.last() == '/' {
        dir + seg
    } else {
        dir + "/"@ + seg
    }
}

/// Appends `seg` to the path `dir` as a further component.
pub fn path_join(dir: &str, seg: &str) -> (r: String)
    ensures
        r@ == join_path(dir@, seg@),
{
    let d = chars_of(dir);
    let s = chars_of(seg);
    let mut out: Vec<char> = Vec::new();
    if s.len() > 0 && s[0] == '/' {
        append_str(&mut out, seg);
    } else if d.len() == 0 {
        append_str(&mut out, seg);
    } else if d[d.len() - 1] == '/' {
        append_str(&mut out, dir);
        append_str(&mut out, seg);
    } else {
        append_str(&mut out, dir);
        append_str(&mut out, "/");
        append_str(&mut out, seg);
    }
    string_of(out.as_slice())
}

/// `{root}/{a}/{b}`, joined component by component.
pub open spec fn nested_path(root: Seq<char>, a: Seq<char>, b: Seq<char>) -> Seq<char> {
    join_path(join_path(root, a), b)
}

/// The shared clone of `owner/repo`: `{admin_repo_dir}/{owner}/{repo}`.
pub fn admin_repo_path(paths: &Paths, owner: &str, repo: &str) -> (r: String)
    ensures
        r@ == nested_path(paths.admin_repo_dir@, owner@, repo@),
{
    let first = path_join(paths.admin_repo_dir.as_str(), owner);
    path_join(first.as_str(), repo)
}

/// The worktree of an execution: `{worktree_dir}/{promptset_id}/{execution_id}`.
pub fn execution_worktree_path(paths: &Paths, promptset_id: &str, execution_id: &str) -> (r: String)
    ensures
        r@ == nested_path(paths.worktree_dir@, promptset_id@, execution_id@),
{
    worktree_path(paths.worktree_dir.as_str(), promptset_id, execution_id)
}

/// The worktree of an execution under the given worktree root.
pub fn worktree_path(worktree_dir: &str, promptset_id: &str, execution_id: &str) -> (r: String)
    ensures
        r@ == nested_path(worktree_dir@, promptset_id@, execution_id@),
{
    let first = path_join(worktree_dir, promptset_id);
    path_join(first.as_str(), execution_id)
}

} // verus!
