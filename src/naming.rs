//! Repository identifiers, branch names, lock keys and clone addresses.

use vstd::prelude::*;

use crate::prompts::opt_view;
use crate::text::{
    append_chars, append_str, chars_of, eq_str, strip_prefix_repeated,
    strip_repeated_prefix, strip_trailing, strip_trailing_char, string_of, sub_chars,
};

verus! {

/// Why a repository identifier or provider name was rejected.
#[derive(Clone, Copy, Debug, PartialEq, Eq, Structural)]
pub enum NameError {
    /// The identifier does not have exactly one `/` between owner and repo.
    WrongShape,
    /// The owner or the repo part is empty.
    EmptyPart,
    /// The provider is neither `github` nor `gitlab`.
    UnsupportedProvider,
}

impl NameError {
    /// A human-readable description of the error.
    pub fn message(&self) -> String {
        match self {
            NameError::WrongShape => String::from_str(
                "Invalid provider_id format. Expected 'owner/repo', 'github.com/owner/repo', or 'gitlab.com/owner/repo'",
            ),
            NameError::EmptyPart => String::from_str(
                "Invalid provider_id: owner and repo cannot be empty",
            ),
            NameError::UnsupportedProvider => String::from_str("Unsupported provider"),
        }
    }
}

/// Number of occurrences of `c` in `s`.
pub open spec fn count_char(s: Seq<char>, c: char) -> nat
    decreases s.len(),
{
    if s.len() == 0 {
        0
    } else {
        count_char(s.drop_last(), c) + if s.last() == c { 1nat } else { 0nat }
    }
}

/// The `owner/repo` part of a provider id: every leading `github.com/`,
/// then every leading `gitlab.com/`, removed.
pub open spec fn provider_path(id: Seq<char>) -> Seq<char> {
    strip_repeated_prefix(strip_repeated_prefix(id, "github.com/"@), "gitlab.com/"@)
}

/// `owner` and `repo` are the two sides of the single `/` of `path`.
pub open spec fn splits_owner_repo(path: Seq<char>, owner: Seq<char>, repo: Seq<char>) -> bool {
    &&& path == owner + seq!['/'] + repo
    &&& count_char(owner, '/') == 0
    &&& count_char(repo, '/') == 0
}

/// The path has exactly one `/`, with something on each side of it.
pub open spec fn well_formed_path(path: Seq<char>) -> bool {
    count_char(path, '/') == 1 && path[0] != '/' && path.last() != '/'
}

/// Occurrences of `c` in a concatenation add up.
pub proof fn lemma_count_concat(a: Seq<char>, b: Seq<char>, c: char)
    ensures
        count_char(a + b, c) == count_char(a, c) + count_char(b, c),
    decreases b.len(),
{
    if b.len() == 0 {
        assert(a + b =~= a);
    } else {
        assert((a + b).drop_last() =~= a + b.drop_last());
        lemma_count_concat(a, b.drop_last(), c);
    }
}

/// A character that occurs nowhere is at no position.
pub proof fn lemma_count_zero(s: Seq<char>, c: char)
    requires
        count_char(s, c) == 0,
    ensures
        forall|i: int| 0 <= i < s.len() ==> s[i] != c,
    decreases s.len(),
{
    if s.len() > 0 {
        lemma_count_zero(s.drop_last(), c);
        assert forall|i: int| 0 <= i < s.len() implies s[i] != c by {
            if i < s.len() - 1 {
                assert(s[i] == s.drop_last()[i]);
            }
        }
    }
}

/// Splits a provider id of the form `owner/repo`, `github.com/owner/repo` or
/// `gitlab.com/owner/repo` into its owner and repo.
pub fn parse_provider_id(provider_id: &str) -> (r: Result<(String, String), NameError>)
    ensures
        r matches Ok((o, p)) ==> splits_owner_repo(provider_path(provider_id@), o@, p@),
        r is Ok <==> well_formed_path(provider_path(provider_id@)),
        r == Err::<(String, String), NameError>(NameError::WrongShape) <==> count_char(
            provider_path(provider_id@),
            '/',
        ) != 1,
        r != Err::<(String, String), NameError>(NameError::UnsupportedProvider),
{
    proof {
        reveal_strlit("github.com/");
        reveal_strlit("gitlab.com/");
    }
    let id = chars_of(provider_id);
    let gh = chars_of("github.com/");
    let gl = chars_of("gitlab.com/");
    let first = strip_prefix_repeated(id.as_slice(), gh.as_slice());
    let t = strip_prefix_repeated(first.as_slice(), gl.as_slice());
    let ghost path = t@;
    let mut count: usize = 0;
    let mut pos: usize = 0;
    let mut i: usize = 0;
    while i < t.len()
        invariant
            t@ == path,
            i <= path.len(),
            count == count_char(path.subrange(0, i as int), '/'),
            count <= i,
            count > 0 ==> pos < i && path[pos as int] == '/' && count_char(
                path.subrange(0, pos as int),
                '/',
            ) == 0,
        decreases path.len() - i,
    {
        assert(path.subrange(0, i + 1).drop_last() =~= path.subrange(0, i as int));
        if t[i] == '/' {
            if count == 0 {
                pos = i;
            }
            count = count + 1;
        }
        i = i + 1;
    }
    assert(path.subrange(0, path.len() as int) =~= path);
    if count != 1 {
        return Err(NameError::WrongShape);
    }
    if pos == 0 || pos == t.len() - 1 {
        return Err(NameError::EmptyPart);
    }
    let owner = sub_chars(t.as_slice(), 0, pos);
    let repo = sub_chars(t.as_slice(), pos + 1, t.len());
    proof {
        let o = path.subrange(0, pos as int);
        let rest = path.subrange(pos as int, path.len() as int);
        assert(path =~= o + rest);
        lemma_count_concat(o, rest, '/');
        let tail = path.subrange(pos + 1, path.len() as int);
        assert(rest =~= seq!['/'] + tail);
        lemma_count_concat(seq!['/'], tail, '/');
        assert(seq!['/'].drop_last() =~= Seq::<char>::empty());
        assert(count_char(seq!['/'], '/') == 1);
        assert(path =~= o + seq!['/'] + tail);
        lemma_count_zero(o, '/');
        lemma_count_zero(tail, '/');
        assert(path[0] == o[0]);
        assert(path.last() == tail.last());
    }
    Ok((string_of(owner.as_slice()), string_of(repo.as_slice())))
}

/// Number of bytes `c` takes in UTF-8.
pub open spec fn utf8_len(c: char) -> nat {
    if (c as u32) < 0x80 {
        1
    } else if (c as u32) < 0x800 {
        2
    } else if (c as u32) < 0x10000 {
        3
    } else {
        4
    }
}

/// The longest prefix of `s` whose UTF-8 encoding fits in `budget` bytes.
pub open spec fn byte_prefix(s: Seq<char>, budget: nat) -> Seq<char>
    decreases s.len(),
{
    if s.len() == 0 || utf8_len(s[0]) > budget {
        Seq::empty()
    } else {
        seq![s[0]] + byte_prefix(s.subrange(1, s.len() as int), (budget - utf8_len(s[0])) as nat)
    }
}

/// The short form of an id: its longest prefix of at most eight bytes.
pub open spec fn short_id(s: Seq<char>) -> Seq<char> {
    byte_prefix(s, 8)
}

fn char_utf8_len(c: char) -> (r: usize)
    ensures
        r == utf8_len(c),
{
    let v = c as u32;
    if v < 0x80 {
        1
    } else if v < 0x800 {
        2
    } else if v < 0x10000 {
        3
    } else {
        4
    }
}

/// Branch name of an execution: `maestro/<ps>/<rev>/<exec>`, each part cut to
/// its longest prefix of at most eight bytes.
pub open spec fn branch_name_of(promptset_id: Seq<char>, revision_id: Seq<char>, execution_id: Seq<char>) -> Seq<char> {
    "maestro/"@ + short_id(promptset_id) + "/"@ + short_id(revision_id) + "/"@ + short_id(execution_id)
}

fn append_short(out: &mut Vec<char>, s: &str)
    ensures
        final(out)@ == old(out)@ + short_id(s@),
{
    let cs = chars_of(s);
    let mut budget: usize = 8;
    let mut i: usize = 0;
    assert(cs@.subrange(0, 0) =~= Seq::<char>::empty());
    assert(cs@.subrange(0, cs@.len() as int) =~= cs@);
    while i < cs.len() && char_utf8_len(cs[i]) <= budget
        invariant
            i <= cs@.len(),
            budget <= 8,
            byte_prefix(cs@, 8) == cs@.subrange(0, i as int) + byte_prefix(
                cs@.subrange(i as int, cs@.len() as int),
                budget as nat,
            ),
        decreases cs@.len() - i,
    {
        let l = char_utf8_len(cs[i]);
        let ghost rest = cs@.subrange(i as int, cs@.len() as int);
        assert(rest[0] == cs@[i as int]);
        assert(rest.subrange(1, rest.len() as int) =~= cs@.subrange(i + 1, cs@.len() as int));
        assert(cs@.subrange(0, i + 1) =~= cs@.subrange(0, i as int) + seq![cs@[i as int]]);
        budget = budget - l;
        i = i + 1;
    }
    proof {
        let rest = cs@.subrange(i as int, cs@.len() as int);
        if i < cs@.len() {
            assert(rest[0] == cs@[i as int]);
        }
        assert(byte_prefix(rest, budget as nat) =~= Seq::<char>::empty());
        assert(byte_prefix(cs@, 8) =~= cs@.subrange(0, i as int));
    }
    let part = sub_chars(cs.as_slice(), 0, i);
    append_chars(out, part.as_slice());
}

/// The branch that holds the work of one execution.
pub fn maestro_branch_name(promptset_id: &str, revision_id: &str, execution_id: &str) -> (r: String)
    ensures
        r@ == branch_name_of(promptset_id@, revision_id@, execution_id@),
{
    let mut out: Vec<char> = Vec::new();
    append_str(&mut out, "maestro/");
    append_short(&mut out, promptset_id);
    append_str(&mut out, "/");
    append_short(&mut out, revision_id);
    append_str(&mut out, "/");
    append_short(&mut out, execution_id);
    assert(out@ =~= branch_name_of(promptset_id@, revision_id@, execution_id@));
    string_of(out.as_slice())
}

/// Key under which the lock of an `(owner, repo)` pair is kept: `owner/repo`.
pub open spec fn repo_key_of(owner: Seq<char>, repo: Seq<char>) -> Seq<char> {
    owner + "/"@ + repo
}

/// The lock key of a repository.
pub fn repo_key(owner: &str, repo: &str) -> (r: String)
    ensures
        r@ == repo_key_of(owner@, repo@),
{
    let mut out: Vec<char> = Vec::new();
    append_str(&mut out, owner);
    append_str(&mut out, "/");
    append_str(&mut out, repo);
    string_of(out.as_slice())
}

/// The host part of a GitLab instance address: leading `https://`, then
/// leading `http://`, and trailing `/` removed.
pub open spec fn instance_host(url: Seq<char>) -> Seq<char> {
    strip_trailing_char(
        strip_repeated_prefix(strip_repeated_prefix(url, "https://"@), "http://"@),
        '/',
    )
}

/// The address of the public GitLab instance.
pub open spec fn default_gitlab_url() -> Seq<char> {
    "https://gitlab.com"@
}

/// The host of a GitLab instance address.
pub fn gitlab_host(url: &str) -> (r: Vec<char>)
    ensures
        r@ == instance_host(url@),
{
    let u = chars_of(url);
    let https = chars_of("https://");
    let http = chars_of("http://");
    let a = strip_prefix_repeated(u.as_slice(), https.as_slice());
    let b = strip_prefix_repeated(a.as_slice(), http.as_slice());
    strip_trailing(b.as_slice(), '/')
}

/// SSH clone address of a repository, or `None` for an unknown provider.
pub open spec fn ssh_clone_url_of(
    provider: Seq<char>,
    owner: Seq<char>,
    repo: Seq<char>,
    gitlab_instance: Seq<char>,
) -> Option<Seq<char>> {
    if provider == "github"@ {
        Some("git@github.com:"@ + owner + "/"@ + repo + ".git"@)
    } else if provider == "gitlab"@ {
        Some("git@"@ + instance_host(gitlab_instance) + ":"@ + owner + "/"@ + repo + ".git"@)
    } else {
        None
    }
}

/// The SSH address from which the shared clone of a repository is made.
/// `gitlab_instance` is the configured GitLab address, if any; the public
/// instance is used otherwise.
pub fn ssh_clone_url(provider: &str, owner: &str, repo: &str, gitlab_instance: Option<&str>) -> (r:
    Result<String, NameError>)
    ensures
        match ssh_clone_url_of(
            provider@,
            owner@,
            repo@,
            match gitlab_instance {
                Some(u) => u@,
                None => default_gitlab_url(),
            },
        ) {
            Some(u) => r matches Ok(s) && s@ == u,
            None => r == Err::<String, NameError>(NameError::UnsupportedProvider),
        },
{
    let mut out: Vec<char> = Vec::new();
    if eq_str(provider, "github") {
        append_str(&mut out, "git@github.com:");
    } else if eq_str(provider, "gitlab") {
        let host = match gitlab_instance {
            Some(u) => gitlab_host(u),
            None => gitlab_host("https://gitlab.com"),
        };
        append_str(&mut out, "git@");
        append_chars(&mut out, host.as_slice());
        append_str(&mut out, ":");
    } else {
        return Err(NameError::UnsupportedProvider);
    }
    append_str(&mut out, owner);
    append_str(&mut out, "/");
    append_str(&mut out, repo);
    append_str(&mut out, ".git");
    Ok(string_of(out.as_slice()))
}

/// What parsing `url` as an absolute URL gives: none when it does not
/// parse, else its host, if it has one.
pub uninterp spec fn parsed_url_host(url: Seq<char>) -> Option<Option<Seq<char>>>;

/// Relies on `reqwest::Url::parse` and `Url::host_str`: the host of an
/// absolute URL, which depends on the text alone.
#[verifier::external_body]
fn url_host(url: &str) -> (r: Option<Option<String>>)
    ensures
        match r {
            None => parsed_url_host(url@) is None,
            Some(h) => parsed_url_host(url@) == Some(opt_view(h)),
        },
{
    match reqwest::Url::parse(url) {
        Ok(u) => Some(u.host_str().map(String::from)),
        Err(_) => None,
    }
}

/// Whether `c` is alphabetic or numeric in the Unicode sense.
pub uninterp spec fn is_alphanumeric_char(c: char) -> bool;

/// Relies on `char::is_alphanumeric`, which depends on the character alone.
#[verifier::external_body]
fn char_is_alphanumeric(c: char) -> (r: bool)
    ensures
        r == is_alphanumeric_char(c),
{
    c.is_alphanumeric()
}

/// `s` without its leading characters that are neither alphanumeric nor `.`.
pub open spec fn strip_leading_separators(s: Seq<char>) -> Seq<char>
    decreases s.len(),
{
    if s.len() > 0 && !is_alphanumeric_char(s[0]) && s[0] != '.' {
        strip_leading_separators(s.subrange(1, s.len() as int))
    } else {
        s
    }
}

/// The host of a GitLab instance address for HTTPS remotes: the URL's host
/// (`gitlab.com` for a URL without one), or, for text that is not a URL,
/// the text without leading separators and trailing `/`.
pub open spec fn https_host_of(instance: Seq<char>) -> Seq<char> {
    match parsed_url_host(instance) {
        Some(Some(h)) => h,
        Some(None) => "gitlab.com"@,
        None => strip_trailing_char(strip_leading_separators(instance), '/'),
    }
}

fn fallback_host(instance: &str) -> (r: Vec<char>)
    ensures
        r@ == strip_trailing_char(strip_leading_separators(instance@), '/'),
{
    let cs = chars_of(instance);
    let mut i: usize = 0;
    assert(cs@.subrange(0, cs@.len() as int) =~= cs@);
    while i < cs.len() && !char_is_alphanumeric(cs[i]) && cs[i] != '.'
        invariant
            i <= cs@.len(),
            strip_leading_separators(cs@) == strip_leading_separators(cs@.subrange(i as int, cs@.len() as int)),
        decreases cs@.len() - i,
    {
        assert(cs@.subrange(i as int, cs@.len() as int).subrange(1, cs@.len() - i) =~= cs@.subrange(
            i + 1,
            cs@.len() as int,
        ));
        i = i + 1;
    }
    let rest = sub_chars(cs.as_slice(), i, cs.len());
    strip_trailing(rest.as_slice(), '/')
}

/// Address and user name for pushing over HTTPS.
pub struct GitRemoteConfig {
    pub url: String,
    pub username: &'static str,
}

/// HTTPS address of a repository, or `None` for an unknown provider.
pub open spec fn https_remote_of(provider: Seq<char>, owner: Seq<char>, repo: Seq<char>, instance: Seq<char>) -> Option<
    Seq<char>,
> {
    if provider == "github"@ {
        Some("https://github.com/"@ + owner + "/"@ + repo + ".git"@)
    } else if provider == "gitlab"@ {
        Some("https://"@ + https_host_of(instance) + "/"@ + owner + "/"@ + repo + ".git"@)
    } else {
        None
    }
}

/// The HTTPS remote of a repository, authenticated as `oauth2`.
/// `gitlab_instance` is the configured GitLab address, if any; the public
/// instance is used otherwise.
pub fn build_https_remote(provider: &str, owner: &str, repo: &str, gitlab_instance: Option<&str>) -> (r:
    Result<GitRemoteConfig, NameError>)
    ensures
        match https_remote_of(
            provider@,
            owner@,
            repo@,
            match gitlab_instance {
                Some(u) => u@,
                None => default_gitlab_url(),
            },
        ) {
            Some(u) => r matches Ok(c) && c.url@ == u && c.username@ == "oauth2"@,
            None => r matches Err(NameError::UnsupportedProvider),
        },
{
    let mut out: Vec<char> = Vec::new();
    if eq_str(provider, "github") {
        append_str(&mut out, "https://github.com/");
    } else if eq_str(provider, "gitlab") {
        let instance = match gitlab_instance {
            Some(u) => u,
            None => "https://gitlab.com",
        };
        let host: Vec<char> = match url_host(instance) {
            Some(Some(h)) => chars_of(h.as_str()),
            Some(None) => chars_of("gitlab.com"),
            None => fallback_host(instance),
        };
        append_str(&mut out, "https://");
        append_chars(&mut out, host.as_slice());
        append_str(&mut out, "/");
    } else {
        return Err(NameError::UnsupportedProvider);
    }
    append_str(&mut out, owner);
    append_str(&mut out, "/");
    append_str(&mut out, repo);
    append_str(&mut out, ".git");
    Ok(GitRemoteConfig { url: string_of(out.as_slice()), username: "oauth2" })
}

/// Configuration handed to the CI and git-host providers of a repository.
pub enum ProviderConfig {
    /// `owner` and `repo` on GitHub.
    GitHub { owner: String, repo: String },
    /// The `owner/repo` slug, used as project id too, and the instance address.
    GitLab { project_id: String, slug: String, web_base_url: String },
}

/// The provider configuration of a repository. The provider id must parse;
/// the provider must be `github` or `gitlab`.
pub fn build_provider_cfg(provider: &str, provider_id: &str, gitlab_instance: Option<&str>) -> (r: Result<
    ProviderConfig,
    NameError,
>)
    ensures
        !well_formed_path(provider_path(provider_id@)) ==> r is Err && r != Err::<ProviderConfig, NameError>(
            NameError::UnsupportedProvider,
        ),
        well_formed_path(provider_path(provider_id@)) ==> if provider@ == "github"@ {
            r matches Ok(ProviderConfig::GitHub { owner, repo }) && splits_owner_repo(
                provider_path(provider_id@),
                owner@,
                repo@,
            )
        } else if provider@ == "gitlab"@ {
            r matches Ok(ProviderConfig::GitLab { project_id, slug, web_base_url }) && project_id@
                == provider_path(provider_id@) && slug@ == provider_path(provider_id@) && web_base_url@
                == match gitlab_instance {
                Some(u) => u@,
                None => default_gitlab_url(),
            }
        } else {
            r == Err::<ProviderConfig, NameError>(NameError::UnsupportedProvider)
        },
{
    let (owner, repo) = match parse_provider_id(provider_id) {
        Ok(p) => p,
        Err(e) => {
            return Err(e);
        },
    };
    if eq_str(provider, "github") {
        Ok(ProviderConfig::GitHub { owner, repo })
    } else if eq_str(provider, "gitlab") {
        let key = repo_key(owner.as_str(), repo.as_str());
        proof {
            reveal_strlit("/");
            assert(key@ =~= provider_path(provider_id@));
        }
        let web_base_url = match gitlab_instance {
            Some(u) => String::from_str(u),
            None => String::from_str("https://gitlab.com"),
        };
        Ok(ProviderConfig::GitLab { project_id: key.clone(), slug: key, web_base_url })
    } else {
        Err(NameError::UnsupportedProvider)
    }
}

/// The hosting providers the engine works with.
#[derive(Clone, Copy, Debug, PartialEq, Eq, Structural)]
pub enum ProviderKind {
    GitHub,
    GitLab,
}

impl ProviderKind {
    /// The provider named by a repository record: `github` or `gitlab`.
    pub fn parse(provider: &str) -> (r: Result<ProviderKind, NameError>)
        ensures
            provider@ == "github"@ ==> r == Ok::<ProviderKind, NameError>(ProviderKind::GitHub),
            provider@ == "gitlab"@ ==> r == Ok::<ProviderKind, NameError>(ProviderKind::GitLab),
            provider@ != "github"@ && provider@ != "gitlab"@ ==> r == Err::<ProviderKind, NameError>(
                NameError::UnsupportedProvider,
            ),
    {
        proof {
            reveal_strlit("github");
            reveal_strlit("gitlab");
            assert("github"@[3] != "gitlab"@[3]);
        }
        if eq_str(provider, "github") {
            Ok(ProviderKind::GitHub)
        } else if eq_str(provider, "gitlab") {
            Ok(ProviderKind::GitLab)
        } else {
            Err(NameError::UnsupportedProvider)
        }
    }

    /// The credential the provider's clients authenticate with.
    pub fn token_key(&self) -> (r: crate::tokens::TokenKey)
        ensures
            r == match self {
                ProviderKind::GitHub => crate::tokens::TokenKey::GithubToken,
                ProviderKind::GitLab => crate::tokens::TokenKey::GitlabToken,
            },
    {
        match self {
            ProviderKind::GitHub => crate::tokens::TokenKey::GithubToken,
            ProviderKind::GitLab => crate::tokens::TokenKey::GitlabToken,
        }
    }
}

} // verus!
