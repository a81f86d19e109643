//! CI status: aggregation of provider checks, the fixed-backoff poll loop as
//! a decision per attempt, and the mapping of provider states.

use vstd::prelude::*;

use crate::text::{
    append_chars, append_str, chars_of, eq_str, starts_with_seq, string_of, strip_trailing,
    strip_trailing_char, sub_chars,
};
use crate::types::CiStatus;

verus! {

/// One check reported by a CI provider.
#[derive(Clone, Debug)]
pub struct CiCheck {
    /// Provider that reported it, e.g. `github`.
    pub provider: String,
    /// Identifier unique within the provider, e.g. `check:build`.
    pub context: String,
    /// Display name.
    pub name: String,
    /// State of this check alone.
    pub state: CiStatus,
    pub target_url: Option<String>,
    pub description: Option<String>,
    pub external_id: Option<String>,
}

/// Overall status of a list of check states: none for an empty list, else
/// `Failed` over `Pending` over `Passed` over `Skipped`.
pub open spec fn aggregate_states(states: Seq<CiStatus>) -> Option<CiStatus> {
    if states.len() == 0 {
        None
    } else if states.contains(CiStatus::Failed) {
        Some(CiStatus::Failed)
    } else if states.contains(CiStatus::Pending) {
        Some(CiStatus::Pending)
    } else if states.contains(CiStatus::Passed) {
        Some(CiStatus::Passed)
    } else {
        Some(CiStatus::Skipped)
    }
}

/// The states of a list of checks.
pub open spec fn states_of(checks: Seq<CiCheck>) -> Seq<CiStatus> {
    checks.map_values(|c: CiCheck| c.state)
}

/// Aggregates check states into one status.
pub fn aggregate_ci_states(states: &[CiStatus]) -> (r: Option<CiStatus>)
    ensures
        r == aggregate_states(states@),
{
    if states.len() == 0 {
        return None;
    }
    let mut has_failed = false;
    let mut has_pending = false;
    let mut has_passed = false;
    let mut i: usize = 0;
    while i < states.len()
        invariant
            i <= states@.len(),
            has_failed <==> exists|k: int| 0 <= k < i && states@[k] == CiStatus::Failed,
            has_pending <==> exists|k: int| 0 <= k < i && states@[k] == CiStatus::Pending,
            has_passed <==> exists|k: int| 0 <= k < i && states@[k] == CiStatus::Passed,
        decreases states@.len() - i,
    {
        match states[i] {
            CiStatus::Failed => {
                has_failed = true;
            },
            CiStatus::Pending => {
                has_pending = true;
            },
            CiStatus::Passed => {
                has_passed = true;
            },
            _ => {},
        }
        i = i + 1;
    }
    if has_failed {
        Some(CiStatus::Failed)
    } else if has_pending {
        Some(CiStatus::Pending)
    } else if has_passed {
        Some(CiStatus::Passed)
    } else {
        Some(CiStatus::Skipped)
    }
}

/// One poll of a provider: the aggregated status of the returned checks
/// (none when there are none) and the provider's address for the commit,
/// which is kept in either case.
pub fn check_ci_once(checks: &Vec<CiCheck>, ci_url: Option<String>) -> (r: (
    Option<CiStatus>,
    Option<String>,
))
    ensures
        r.0 == aggregate_states(states_of(checks@)),
        r.1 == ci_url,
{
    let mut states: Vec<CiStatus> = Vec::new();
    let mut i: usize = 0;
    while i < checks.len()
        invariant
            i <= checks@.len(),
            states@ == states_of(checks@).subrange(0, i as int),
        decreases checks@.len() - i,
    {
        states.push(checks[i].state);
        i = i + 1;
        assert(states@ =~= states_of(checks@).subrange(0, i as int));
    }
    assert(states@ =~= states_of(checks@));
    (aggregate_ci_states(states.as_slice()), ci_url)
}

/// Number of polls after a push before the loop gives up.
pub const CI_MAX_ATTEMPTS: usize = 5;

/// Seconds to wait after the poll with index `attempt`.
pub open spec fn backoff_secs(attempt: nat) -> u64 {
    if attempt == 0 {
        10
    } else if attempt == 1 {
        20
    } else if attempt == 2 {
        40
    } else if attempt == 3 {
        80
    } else {
        120
    }
}

/// The wait that follows the poll with index `attempt`.
pub fn backoff_delay_secs(attempt: usize) -> (r: u64)
    ensures
        r == backoff_secs(attempt as nat),
{
    if attempt == 0 {
        10
    } else if attempt == 1 {
        20
    } else if attempt == 2 {
        40
    } else if attempt == 3 {
        80
    } else {
        120
    }
}

/// What one poll of the provider gave.
#[derive(Clone, Copy, Debug, PartialEq, Eq, Structural)]
pub enum CiProbe {
    /// Checks were found; their aggregated status.
    Found(CiStatus),
    /// The provider reported no checks.
    NoChecks,
    /// The provider call failed.
    ProviderError,
}

/// What the poll loop does after one poll.
#[derive(Clone, Copy, Debug, PartialEq, Eq, Structural)]
pub struct CiDecision {
    /// Status to persist and emit, with the check time.
    pub record: Option<CiStatus>,
    /// Whether the provider's commit address is persisted with the status.
    pub with_url: bool,
    /// Seconds to wait before the next poll; none: the loop ends.
    pub wait_secs: Option<u64>,
    /// Whether the loop ends by reporting the provider's failure.
    pub failed: bool,
}

/// The decision after the poll with index `attempt` (of five) gave `probe`.
/// Every poll records a status with its time. A status other than `Pending`
/// ends the loop. No checks, or a provider error, record `Pending` and are
/// retried, except on the last poll, which ends the loop with `Skipped`.
/// The provider's address is kept unless its call failed.
pub open spec fn ci_decision(attempt: nat, probe: CiProbe) -> CiDecision {
    let last = attempt + 1 >= CI_MAX_ATTEMPTS;
    let wait = if last { None } else { Some(backoff_secs(attempt)) };
    match probe {
        CiProbe::Found(status) => CiDecision {
            record: Some(status),
            with_url: true,
            wait_secs: if status == CiStatus::Pending { wait } else { None },
            failed: false,
        },
        CiProbe::NoChecks => CiDecision {
            record: Some(if last { CiStatus::Skipped } else { CiStatus::Pending }),
            with_url: true,
            wait_secs: wait,
            failed: false,
        },
        CiProbe::ProviderError => CiDecision {
            record: Some(if last { CiStatus::Skipped } else { CiStatus::Pending }),
            with_url: false,
            wait_secs: wait,
            failed: last,
        },
    }
}

/// Decides what follows the poll with index `attempt`.
pub fn decide_ci_attempt(attempt: usize, probe: CiProbe) -> (r: CiDecision)
    requires
        attempt < CI_MAX_ATTEMPTS,
    ensures
        r == ci_decision(attempt as nat, probe),
{
    let last = attempt + 1 >= CI_MAX_ATTEMPTS;
    let wait = if last { None } else { Some(backoff_delay_secs(attempt)) };
    match probe {
        CiProbe::Found(status) => CiDecision {
            record: Some(status),
            with_url: true,
            wait_secs: if status == CiStatus::Pending { wait } else { None },
            failed: false,
        },
        CiProbe::NoChecks => CiDecision {
            record: Some(if last { CiStatus::Skipped } else { CiStatus::Pending }),
            with_url: true,
            wait_secs: wait,
            failed: false,
        },
        CiProbe::ProviderError => CiDecision {
            record: Some(if last { CiStatus::Skipped } else { CiStatus::Pending }),
            with_url: false,
            wait_secs: wait,
            failed: last,
        },
    }
}

/// The probe of one poll, from the aggregated result of a successful call
/// (`None` for a failed call).
pub fn probe_of(polled: Option<Option<CiStatus>>) -> (r: CiProbe)
    ensures
        r == match polled {
            Some(Some(s)) => CiProbe::Found(s),
            Some(None) => CiProbe::NoChecks,
            None => CiProbe::ProviderError,
        },
{
    match polled {
        Some(Some(s)) => CiProbe::Found(s),
        Some(None) => CiProbe::NoChecks,
        None => CiProbe::ProviderError,
    }
}

/// The decisions of a whole poll loop whose polls give `probes` in turn,
/// from the poll with index `attempt` on.
pub open spec fn ci_run_from(probes: Seq<CiProbe>, attempt: nat) -> Seq<CiDecision>
    decreases CI_MAX_ATTEMPTS - attempt,
{
    if attempt >= CI_MAX_ATTEMPTS || attempt >= probes.len() {
        seq![]
    } else {
        let d = ci_decision(attempt, probes[attempt as int]);
        if d.wait_secs is None {
            seq![d]
        } else {
            seq![d] + ci_run_from(probes, attempt + 1)
        }
    }
}

/// The decisions of a whole poll loop.
pub open spec fn ci_run(probes: Seq<CiProbe>) -> Seq<CiDecision> {
    ci_run_from(probes, 0)
}

/// A poll loop never polls more than five times, and when the provider
/// answers every time it ends with a decision that stops it.
pub proof fn lemma_ci_run_bounded(probes: Seq<CiProbe>)
    ensures
        ci_run(probes).len() <= CI_MAX_ATTEMPTS,
        probes.len() >= CI_MAX_ATTEMPTS ==> ci_run(probes).len() > 0 && ci_run(probes).last().wait_secs is None,
{
    lemma_ci_run_from_bounded(probes, 0);
}

proof fn lemma_ci_run_from_bounded(probes: Seq<CiProbe>, attempt: nat)
    requires
        attempt <= CI_MAX_ATTEMPTS,
    ensures
        ci_run_from(probes, attempt).len() <= CI_MAX_ATTEMPTS - attempt,
        probes.len() >= CI_MAX_ATTEMPTS && attempt < CI_MAX_ATTEMPTS ==> ci_run_from(probes, attempt).len() > 0
            && ci_run_from(probes, attempt).last().wait_secs is None,
    decreases CI_MAX_ATTEMPTS - attempt,
{
    if attempt < CI_MAX_ATTEMPTS && attempt < probes.len() {
        let d = ci_decision(attempt, probes[attempt as int]);
        lemma_ci_run_from_bounded(probes, attempt + 1);
        if d.wait_secs is Some {
            let rest = ci_run_from(probes, attempt + 1);
            assert(ci_run_from(probes, attempt) == seq![d] + rest);
            if probes.len() >= CI_MAX_ATTEMPTS && attempt < CI_MAX_ATTEMPTS {
                assert(attempt + 1 < CI_MAX_ATTEMPTS);
                assert((seq![d] + rest).last() == rest.last());
            }
        }
    }
}

/// A provider that never reports a check is polled exactly five times, with
/// waits of 10, 20, 40 and 80 seconds between the polls; the first four
/// polls record `Pending`, the fifth records `Skipped` and ends the loop.
pub proof fn lemma_ci_no_checks_ends_skipped(probes: Seq<CiProbe>)
    requires
        forall|i: int| 0 <= i < probes.len() ==> probes[i] == CiProbe::NoChecks,
        probes.len() >= CI_MAX_ATTEMPTS,
    ensures
        ci_run(probes).len() == CI_MAX_ATTEMPTS,
        ci_run(probes)[0].wait_secs == Some(10u64),
        ci_run(probes)[1].wait_secs == Some(20u64),
        ci_run(probes)[2].wait_secs == Some(40u64),
        ci_run(probes)[3].wait_secs == Some(80u64),
        forall|i: int| 0 <= i < 4 ==> ci_run(probes)[i].record == Some(CiStatus::Pending),
        ci_run(probes)[4].record == Some(CiStatus::Skipped),
        ci_run(probes)[4].wait_secs is None,
        !ci_run(probes)[4].failed,
{
    let d0 = ci_decision(0, CiProbe::NoChecks);
    let d1 = ci_decision(1, CiProbe::NoChecks);
    let d2 = ci_decision(2, CiProbe::NoChecks);
    let d3 = ci_decision(3, CiProbe::NoChecks);
    let d4 = ci_decision(4, CiProbe::NoChecks);
    assert(ci_run_from(probes, 4) == seq![d4]);
    assert(ci_run_from(probes, 3) == seq![d3] + seq![d4]);
    assert(ci_run_from(probes, 2) == seq![d2] + (seq![d3] + seq![d4]));
    assert(ci_run_from(probes, 1) == seq![d1] + (seq![d2] + (seq![d3] + seq![d4])));
    assert(ci_run_from(probes, 0) == seq![d0] + (seq![d1] + (seq![d2] + (seq![d3] + seq![d4]))));
    assert(ci_run(probes) =~= seq![d0, d1, d2, d3, d4]);
}

/// A terminal status ends the loop at the poll that reports it.
pub proof fn lemma_ci_terminal_stops(attempt: nat, status: CiStatus)
    requires
        status != CiStatus::Pending,
    ensures
        ci_decision(attempt, CiProbe::Found(status)).wait_secs is None,
        ci_decision(attempt, CiProbe::Found(status)).record == Some(status),
{
}

/// Status of a GitLab pipeline state.
pub open spec fn gitlab_state(s: Seq<char>) -> CiStatus {
    if s == "success"@ {
        CiStatus::Passed
    } else if s == "failed"@ || s == "canceled"@ {
        CiStatus::Failed
    } else if s == "skipped"@ {
        CiStatus::Skipped
    } else {
        CiStatus::Pending
    }
}

/// Maps a GitLab pipeline state; unknown states count as pending.
pub fn map_gitlab_status(status: &str) -> (r: CiStatus)
    ensures
        r == gitlab_state(status@),
{
    if eq_str(status, "success") {
        CiStatus::Passed
    } else if eq_str(status, "failed") || eq_str(status, "canceled") {
        CiStatus::Failed
    } else if eq_str(status, "skipped") {
        CiStatus::Skipped
    } else {
        CiStatus::Pending
    }
}

/// Status of a GitHub commit-status state.
pub open spec fn github_status_state(s: Seq<char>) -> CiStatus {
    if s == "success"@ {
        CiStatus::Passed
    } else if s == "failure"@ || s == "error"@ {
        CiStatus::Failed
    } else {
        CiStatus::Pending
    }
}

/// Maps a GitHub commit-status state; unknown states count as pending.
pub fn map_commit_status_state(state: &str) -> (r: CiStatus)
    ensures
        r == github_status_state(state@),
{
    if eq_str(state, "success") {
        CiStatus::Passed
    } else if eq_str(state, "failure") || eq_str(state, "error") {
        CiStatus::Failed
    } else {
        CiStatus::Pending
    }
}

/// Status of a GitHub check run from its conclusion (none while it runs).
pub open spec fn check_run_state(conclusion: Option<Seq<char>>) -> CiStatus {
    match conclusion {
        None => CiStatus::Pending,
        Some(c) => if c == "success"@ || c == "neutral"@ {
            CiStatus::Passed
        } else if c == "skipped"@ || c == "stale"@ {
            CiStatus::Skipped
        } else if c == "failure"@ || c == "cancelled"@ || c == "timed_out"@ || c == "action_required"@ {
            CiStatus::Failed
        } else {
            CiStatus::Pending
        },
    }
}

/// Maps the conclusion of a GitHub check run.
pub fn map_check_run_conclusion(conclusion: Option<&str>) -> (r: CiStatus)
    ensures
        r == check_run_state(
            match conclusion {
                Some(c) => Some(c@),
                None => None,
            },
        ),
{
    match conclusion {
        None => CiStatus::Pending,
        Some(c) => if eq_str(c, "success") || eq_str(c, "neutral") {
            CiStatus::Passed
        } else if eq_str(c, "skipped") || eq_str(c, "stale") {
            CiStatus::Skipped
        } else if eq_str(c, "failure") || eq_str(c, "cancelled") || eq_str(c, "timed_out") || eq_str(
            c,
            "action_required",
        ) {
            CiStatus::Failed
        } else {
            CiStatus::Pending
        },
    }
}

/// The checks of a GitHub commit: its commit statuses, then its check runs.
/// `None` for a source whose call failed; the result is `None` only when
/// both calls failed.
pub fn merge_github_checks(statuses: Option<Vec<CiCheck>>, runs: Option<Vec<CiCheck>>) -> (r: Option<
    Vec<CiCheck>,
>)
    ensures
        r is None <==> statuses is None && runs is None,
        r matches Some(v) ==> v@ == match statuses {
            Some(a) => a@,
            None => Seq::empty(),
        } + match runs {
            Some(b) => b@,
            None => Seq::empty(),
        },
{
    if statuses.is_none() && runs.is_none() {
        return None;
    }
    let mut out: Vec<CiCheck> = match statuses {
        Some(a) => a,
        None => Vec::new(),
    };
    match runs {
        Some(b) => {
            let mut b = b;
            out.append(&mut b);
        },
        None => {},
    }
    Some(out)
}

/// The CI status recorded right after a push, from one poll: `Pending` when
/// the provider reports checks, `NotConfigured` when it reports none or the
/// call fails (`None`).
pub fn seed_ci_status(checks_found: Option<usize>) -> (r: CiStatus)
    ensures
        r == (if checks_found matches Some(n) && n > 0 {
            CiStatus::Pending
        } else {
            CiStatus::NotConfigured
        }),
{
    match checks_found {
        Some(n) => if n > 0 {
            CiStatus::Pending
        } else {
            CiStatus::NotConfigured
        },
        None => CiStatus::NotConfigured,
    }
}

/// Configuration of the GitLab CI provider for one repository.
#[derive(Clone, Debug)]
pub struct GitLabCiConfig {
    /// Numeric id or `owner/repo` slug of the project.
    pub project_id: String,
    /// Web address of the GitLab instance.
    pub web_base_url: String,
    /// `owner/repo`, needed to build commit addresses.
    pub slug: Option<String>,
}

/// Web address of the public GitLab instance, used when none is configured.
pub fn default_gitlab_web_base() -> (r: String)
    ensures
        r@ == "https://gitlab.com"@,
{
    String::from_str("https://gitlab.com")
}

/// Address of the CI page of a commit on GitLab.
pub open spec fn gitlab_commit_url_of(web_base: Seq<char>, slug: Seq<char>, sha: Seq<char>) -> Seq<char> {
    strip_trailing_char(web_base, '/') + "/"@ + slug + "/-/commit/"@ + sha
}

/// Why a commit address could not be built.
#[derive(Clone, Copy, Debug, PartialEq, Eq, Structural)]
pub enum CiUrlError {
    /// The provider configuration has no slug.
    MissingSlug,
}

/// The GitLab page of a commit; the configuration must carry a slug.
pub fn gitlab_commit_url(cfg: &GitLabCiConfig, commit_sha: &str) -> (r: Result<String, CiUrlError>)
    ensures
        match cfg.slug {
            Some(slug) => r matches Ok(u) && u@ == gitlab_commit_url_of(
                cfg.web_base_url@,
                slug@,
                commit_sha@,
            ),
            None => r == Err::<String, CiUrlError>(CiUrlError::MissingSlug),
        },
{
    match &cfg.slug {
        Some(slug) => {
            let base = chars_of(cfg.web_base_url.as_str());
            let trimmed = strip_trailing(base.as_slice(), '/');
            let mut out: Vec<char> = Vec::new();
            append_chars(&mut out, trimmed.as_slice());
            append_str(&mut out, "/");
            append_str(&mut out, slug.as_str());
            append_str(&mut out, "/-/commit/");
            append_str(&mut out, commit_sha);
            Ok(string_of(out.as_slice()))
        },
        None => Err(CiUrlError::MissingSlug),
    }
}

/// The GitHub page of a commit.
pub fn github_commit_url(commit_sha: &str) -> (r: String)
    ensures
        r@ == "https://github.com/commit/"@ + commit_sha@,
{
    let mut out: Vec<char> = Vec::new();
    append_str(&mut out, "https://github.com/commit/");
    append_str(&mut out, commit_sha);
    string_of(out.as_slice())
}

/// The host handed to the GitLab API client: the configured address (the
/// public instance when none is) without one leading `https://`, or else
/// without one leading `http://`.
pub open spec fn gitlab_api_host_of(url: Seq<char>) -> Seq<char> {
    if starts_with_seq(url, "https://"@) {
        url.subrange(8, url.len() as int)
    } else if starts_with_seq(url, "http://"@) {
        url.subrange(7, url.len() as int)
    } else {
        url
    }
}

/// The host handed to the GitLab API client.
pub fn gitlab_api_host(base_url: Option<&str>) -> (r: String)
    ensures
        r@ == gitlab_api_host_of(
            match base_url {
                Some(u) => u@,
                None => "https://gitlab.com"@,
            },
        ),
{
    proof {
        reveal_strlit("https://");
        reveal_strlit("http://");
    }
    let url = match base_url {
        Some(u) => chars_of(u),
        None => chars_of("https://gitlab.com"),
    };
    let https = chars_of("https://");
    let http = chars_of("http://");
    if crate::text::occurs_at_exec(url.as_slice(), https.as_slice(), 0) {
        string_of(sub_chars(url.as_slice(), 8, url.len()).as_slice())
    } else if crate::text::occurs_at_exec(url.as_slice(), http.as_slice(), 0) {
        string_of(sub_chars(url.as_slice(), 7, url.len()).as_slice())
    } else {
        string_of(url.as_slice())
    }
}

/// Whole minutes between two millisecond timestamps, truncated toward zero.
pub open spec fn age_minutes(now_ms: int, checked_ms: int) -> int {
    let d = now_ms - checked_ms;
    if d >= 0 {
        d / 60000
    } else {
        -((-d) / 60000)
    }
}

/// A pending CI status whose last check is older than the threshold.
pub open spec fn ci_is_stuck(status: Option<CiStatus>, checked_at: Option<i64>, now_ms: i64, threshold_minutes: i64) -> bool {
    &&& status == Some(CiStatus::Pending)
    &&& (checked_at matches Some(t) && age_minutes(now_ms as int, t as int) > threshold_minutes)
}

/// Whether a CI status has been pending for longer than the threshold, so
/// that it is to be resolved as `Skipped`.
pub fn is_ci_stuck(status: Option<CiStatus>, checked_at: Option<i64>, now_ms: i64, threshold_minutes: i64) -> (r: bool)
    ensures
        r == ci_is_stuck(status, checked_at, now_ms, threshold_minutes),
{
    if status != Some(CiStatus::Pending) {
        return false;
    }
    match checked_at {
        None => false,
        Some(t) => {
            let d: i128 = now_ms as i128 - t as i128;
            let age: i128 = if d >= 0 {
                d / 60000
            } else {
                -((-d) / 60000)
            };
            age > threshold_minutes as i128
        },
    }
}

/// Within a poll loop the CI status only moves forward: every decision but
/// the last records `Pending`, so a terminal status is recorded at most
/// once, by the decision that ends the loop.
pub proof fn lemma_ci_run_forward_only(probes: Seq<CiProbe>)
    ensures
        forall|i: int|
            0 <= i < ci_run(probes).len() - 1 ==> #[trigger] ci_run(probes)[i].record == Some(
                CiStatus::Pending,
            ),
{
    lemma_ci_run_from_forward_only(probes, 0);
}

proof fn lemma_ci_run_from_forward_only(probes: Seq<CiProbe>, attempt: nat)
    ensures
        forall|i: int|
            0 <= i < ci_run_from(probes, attempt).len() - 1 ==> #[trigger] ci_run_from(probes, attempt)[i].record
                == Some(CiStatus::Pending),
    decreases CI_MAX_ATTEMPTS - attempt,
{
    if attempt < CI_MAX_ATTEMPTS && attempt < probes.len() {
        let d = ci_decision(attempt, probes[attempt as int]);
        if d.wait_secs is Some {
            lemma_ci_run_from_forward_only(probes, attempt + 1);
            let rest = ci_run_from(probes, attempt + 1);
            let all = ci_run_from(probes, attempt);
            assert(all == seq![d] + rest);
            assert forall|i: int| 0 <= i < all.len() - 1 implies #[trigger] all[i].record == Some(
                CiStatus::Pending,
            ) by {
                if i > 0 {
                    assert(all[i] == rest[i - 1]);
                }
            }
        }
    }
}

} // verus!
