use maestro::ci::{
    aggregate_ci_states, backoff_delay_secs, check_ci_once, decide_ci_attempt, default_gitlab_web_base,
    github_commit_url, gitlab_api_host, gitlab_commit_url, is_ci_stuck, map_check_run_conclusion,
    map_commit_status_state, map_gitlab_status, merge_github_checks, probe_of, seed_ci_status, CiCheck,
    CiProbe, CiUrlError, GitLabCiConfig, CI_MAX_ATTEMPTS,
};
use maestro::types::CiStatus;

fn check(name: &str, state: CiStatus) -> CiCheck {
    CiCheck {
        provider: "github".to_string(),
        context: format!("check:{}", name),
        name: name.to_string(),
        state,
        target_url: None,
        description: None,
        external_id: None,
    }
}

#[test]
fn aggregation_priorities() {
    assert_eq!(aggregate_ci_states(&[CiStatus::Passed, CiStatus::Pending]), Some(CiStatus::Pending));
    assert_eq!(aggregate_ci_states(&[CiStatus::Passed, CiStatus::Failed]), Some(CiStatus::Failed));
    assert_eq!(aggregate_ci_states(&[CiStatus::Skipped, CiStatus::Skipped]), Some(CiStatus::Skipped));
    assert_eq!(aggregate_ci_states(&[]), None);
    assert_eq!(aggregate_ci_states(&[CiStatus::Pending, CiStatus::Failed]), Some(CiStatus::Failed));
    assert_eq!(aggregate_ci_states(&[CiStatus::Skipped, CiStatus::Passed]), Some(CiStatus::Passed));
}

#[test]
fn empty_poll_keeps_provider_url() {
    let url = Some("https://ci.example/commit/abc".to_string());
    let (status, kept) = check_ci_once(&Vec::new(), url.clone());
    assert_eq!(status, None);
    assert_eq!(kept, url);
    let checks = vec![check("build", CiStatus::Passed), check("lint", CiStatus::Pending)];
    let (status, kept) = check_ci_once(&checks, None);
    assert_eq!(status, Some(CiStatus::Pending));
    assert_eq!(kept, None);
}

#[test]
fn empty_provider_ends_skipped_after_five_polls() {
    let mut attempt = 0usize;
    let mut waits = Vec::new();
    let mut records = Vec::new();
    loop {
        assert!(attempt < CI_MAX_ATTEMPTS);
        let d = decide_ci_attempt(attempt, CiProbe::NoChecks);
        records.push(d.record);
        attempt += 1;
        match d.wait_secs {
            Some(w) => waits.push(w),
            None => {
                assert!(!d.failed);
                break;
            }
        }
    }
    assert_eq!(attempt, 5);
    assert_eq!(waits, vec![10, 20, 40, 80]);
    assert_eq!(
        records,
        vec![
            Some(CiStatus::Pending),
            Some(CiStatus::Pending),
            Some(CiStatus::Pending),
            Some(CiStatus::Pending),
            Some(CiStatus::Skipped)
        ]
    );
}

#[test]
fn pending_then_passed_records_twice() {
    let first = decide_ci_attempt(0, probe_of(Some(aggregate_ci_states(&[CiStatus::Pending]))));
    assert_eq!(first.record, Some(CiStatus::Pending));
    assert_eq!(first.wait_secs, Some(10));
    let second = decide_ci_attempt(1, probe_of(Some(aggregate_ci_states(&[CiStatus::Passed]))));
    assert_eq!(second.record, Some(CiStatus::Passed));
    assert_eq!(second.wait_secs, None);
    assert!(first.with_url && second.with_url);
}

#[test]
fn provider_error_retried_then_failed_as_skipped() {
    let d = decide_ci_attempt(2, probe_of(None));
    assert_eq!(d.record, Some(CiStatus::Pending));
    assert!(!d.with_url);
    assert_eq!(d.wait_secs, Some(40));
    assert!(!d.failed);
    let last = decide_ci_attempt(4, CiProbe::ProviderError);
    assert_eq!(last.record, Some(CiStatus::Skipped));
    assert_eq!(last.wait_secs, None);
    assert!(last.failed);
    assert!(!last.with_url);
}

#[test]
fn pending_on_last_poll_stays_pending() {
    let d = decide_ci_attempt(4, CiProbe::Found(CiStatus::Pending));
    assert_eq!(d.record, Some(CiStatus::Pending));
    assert_eq!(d.wait_secs, None);
}

#[test]
fn backoff_schedule() {
    let delays: Vec<u64> = (0..5).map(backoff_delay_secs).collect();
    assert_eq!(delays, vec![10, 20, 40, 80, 120]);
}

#[test]
fn provider_state_mappings() {
    assert_eq!(map_gitlab_status("success"), CiStatus::Passed);
    assert_eq!(map_gitlab_status("canceled"), CiStatus::Failed);
    assert_eq!(map_gitlab_status("failed"), CiStatus::Failed);
    assert_eq!(map_gitlab_status("skipped"), CiStatus::Skipped);
    assert_eq!(map_gitlab_status("manual"), CiStatus::Pending);
    assert_eq!(map_gitlab_status("weird"), CiStatus::Pending);
    assert_eq!(map_commit_status_state("error"), CiStatus::Failed);
    assert_eq!(map_commit_status_state("success"), CiStatus::Passed);
    assert_eq!(map_commit_status_state("pending"), CiStatus::Pending);
    assert_eq!(map_check_run_conclusion(None), CiStatus::Pending);
    assert_eq!(map_check_run_conclusion(Some("neutral")), CiStatus::Passed);
    assert_eq!(map_check_run_conclusion(Some("stale")), CiStatus::Skipped);
    assert_eq!(map_check_run_conclusion(Some("timed_out")), CiStatus::Failed);
    assert_eq!(map_check_run_conclusion(Some("other")), CiStatus::Pending);
}

#[test]
fn github_sources_merge() {
    let merged = merge_github_checks(Some(vec![check("a", CiStatus::Passed)]), None).unwrap();
    assert_eq!(merged.len(), 1);
    let merged = merge_github_checks(
        Some(vec![check("a", CiStatus::Passed)]),
        Some(vec![check("b", CiStatus::Failed)]),
    )
    .unwrap();
    assert_eq!(merged[1].name, "b");
    assert!(merge_github_checks(None, Some(Vec::new())).unwrap().is_empty());
    assert!(merge_github_checks(None, None).is_none());
}

#[test]
fn seed_status_after_push() {
    assert_eq!(seed_ci_status(Some(2)), CiStatus::Pending);
    assert_eq!(seed_ci_status(Some(0)), CiStatus::NotConfigured);
    assert_eq!(seed_ci_status(None), CiStatus::NotConfigured);
}

#[test]
fn commit_urls() {
    let cfg = GitLabCiConfig {
        project_id: "org/app".to_string(),
        web_base_url: "https://gitlab.example.com//".to_string(),
        slug: Some("org/app".to_string()),
    };
    assert_eq!(
        gitlab_commit_url(&cfg, "abc123").unwrap(),
        "https://gitlab.example.com/org/app/-/commit/abc123"
    );
    let no_slug = GitLabCiConfig { slug: None, ..cfg };
    assert_eq!(gitlab_commit_url(&no_slug, "abc").err(), Some(CiUrlError::MissingSlug));
    assert_eq!(github_commit_url("abc"), "https://github.com/commit/abc");
    assert_eq!(default_gitlab_web_base(), "https://gitlab.com");
}

#[test]
fn gitlab_api_hosts() {
    assert_eq!(gitlab_api_host(None), "gitlab.com");
    assert_eq!(gitlab_api_host(Some("http://git.local")), "git.local");
    assert_eq!(gitlab_api_host(Some("git.local")), "git.local");
}

#[test]
fn stuck_pending_ci() {
    let now = 60 * 60 * 1000;
    assert!(is_ci_stuck(Some(CiStatus::Pending), Some(0), now, 10));
    assert!(!is_ci_stuck(Some(CiStatus::Pending), Some(now - 10 * 60_000), now, 10));
    assert!(is_ci_stuck(Some(CiStatus::Pending), Some(now - 11 * 60_000), now, 10));
    assert!(!is_ci_stuck(Some(CiStatus::Pending), None, now, 10));
    assert!(!is_ci_stuck(Some(CiStatus::Passed), Some(0), now, 10));
    assert!(!is_ci_stuck(Some(CiStatus::Pending), Some(now + 60_000_000), now, -5));
}
