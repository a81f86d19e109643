use maestro::naming::{build_https_remote, maestro_branch_name, parse_provider_id};

#[test]
fn test_parse_provider_id_valid() {
    let (owner, repo) = parse_provider_id("owner/repo").unwrap();
    assert_eq!(owner, "owner");
    assert_eq!(repo, "repo");
}

#[test]
fn test_parse_provider_id_with_github_prefix() {
    let (owner, repo) = parse_provider_id("github.com/owner/repo").unwrap();
    assert_eq!(owner, "owner");
    assert_eq!(repo, "repo");
}

#[test]
fn test_parse_provider_id_invalid_format() {
    assert!(parse_provider_id("invalid").is_err());
    assert!(parse_provider_id("too/many/parts").is_err());
    assert!(parse_provider_id("/repo").is_err());
    assert!(parse_provider_id("owner/").is_err());
}

#[test]
fn test_maestro_branch_name() {
    let branch = maestro_branch_name(
        "12345678-1234-1234-1234-123456789012",
        "87654321-4321-4321-4321-210987654321",
        "abcdefab-abcd-abcd-abcd-abcdefabcdef",
    );
    assert_eq!(branch, "maestro/12345678/87654321/abcdefab");
}

#[test]
fn test_build_https_remote_github() {
    let remote = build_https_remote("github", "sourcegraph", "maestro", None).unwrap();
    assert_eq!(remote.url, "https://github.com/sourcegraph/maestro.git");
    assert_eq!(remote.username, "oauth2");
}

#[test]
fn test_build_https_remote_gitlab_default() {
    let remote = build_https_remote("gitlab", "myorg", "myrepo", None).unwrap();
    assert_eq!(remote.url, "https://gitlab.com/myorg/myrepo.git");
    assert_eq!(remote.username, "oauth2");
}

#[test]
fn test_build_https_remote_unsupported() {
    let result = build_https_remote("bitbucket", "owner", "repo", None);
    assert!(result.is_err());
    assert!(result
        .err()
        .unwrap()
        .message()
        .contains("Unsupported provider"));
}
