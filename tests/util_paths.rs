use maestro::paths::{admin_repo_path, execution_worktree_path, worktree_path, Paths};
use std::path::PathBuf;

fn test_paths() -> Paths {
    Paths {
        admin_repo_dir: "/test/repos".to_string(),
        worktree_dir: "/test/executions".to_string(),
        db_path: "/test/maestro.db".to_string(),
    }
}

#[test]
fn test_admin_repo_path() {
    let paths = test_paths();
    let path = admin_repo_path(&paths, "owner", "repo");
    assert_eq!(PathBuf::from(path), PathBuf::from("/test/repos/owner/repo"));
}

#[test]
fn test_execution_worktree_path() {
    let paths = test_paths();
    let path = execution_worktree_path(&paths, "promptset-123", "exec-456");
    assert_eq!(PathBuf::from(path), PathBuf::from("/test/executions/promptset-123/exec-456"));
}

#[test]
fn worktree_path_does_not_double_separator() {
    assert_eq!(worktree_path("/root/", "ps", "ex"), "/root/ps/ex");
    assert_eq!(worktree_path("", "ps", "ex"), "ps/ex");
    assert_eq!(worktree_path("/root", "/abs", "ex"), "/abs/ex");
}
