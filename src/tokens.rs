//! The credentials held for the providers, addressed by key.

use vstd::prelude::*;

use crate::text::{append_str, chars_of, eq_str, string_of, sub_chars};

verus! {

/// The name of one credential.
#[derive(Clone, Copy, Debug, PartialEq, Eq, Structural)]
pub enum TokenKey {
    AmpToken,
    GithubToken,
    GitlabToken,
    GitlabInstanceUrl,
    SourcegraphEndpoint,
    SourcegraphToken,
    AmpClientId,
    AmpClientSecret,
}

impl TokenKey {
    /// The name under which the credential is addressed.
    pub open spec fn spec_name(self) -> Seq<char> {
        match self {
            TokenKey::AmpToken => "amp_token"@,
            TokenKey::GithubToken => "github_token"@,
            TokenKey::GitlabToken => "gitlab_token"@,
            TokenKey::GitlabInstanceUrl => "gitlab_instance_url"@,
            TokenKey::SourcegraphEndpoint => "sourcegraph_endpoint"@,
            TokenKey::SourcegraphToken => "sourcegraph_token"@,
            TokenKey::AmpClientId => "amp_client_id"@,
            TokenKey::AmpClientSecret => "amp_client_secret"@,
        }
    }

    /// The credential addressed by `s`, if any.
    pub fn parse(s: &str) -> (r: Option<TokenKey>)
        ensures
            r matches Some(k) ==> k.spec_name() == s@,
            r is None ==> forall|k: TokenKey| k.spec_name() != s@,
    {
        if eq_str(s, "amp_token") {
            Some(TokenKey::AmpToken)
        } else if eq_str(s, "github_token") {
            Some(TokenKey::GithubToken)
        } else if eq_str(s, "gitlab_token") {
            Some(TokenKey::GitlabToken)
        } else if eq_str(s, "gitlab_instance_url") {
            Some(TokenKey::GitlabInstanceUrl)
        } else if eq_str(s, "sourcegraph_endpoint") {
            Some(TokenKey::SourcegraphEndpoint)
        } else if eq_str(s, "sourcegraph_token") {
            Some(TokenKey::SourcegraphToken)
        } else if eq_str(s, "amp_client_id") {
            Some(TokenKey::AmpClientId)
        } else if eq_str(s, "amp_client_secret") {
            Some(TokenKey::AmpClientSecret)
        } else {
            None
        }
    }
}

/// Every credential, each possibly unset.
#[derive(Clone, Debug, Default)]
pub struct AllTokens {
    pub amp_token: Option<String>,
    pub github_token: Option<String>,
    pub gitlab_token: Option<String>,
    pub gitlab_instance_url: Option<String>,
    pub sourcegraph_endpoint: Option<String>,
    pub sourcegraph_token: Option<String>,
    pub amp_client_id: Option<String>,
    pub amp_client_secret: Option<String>,
}

impl AllTokens {
    /// The credential stored under `key`.
    pub open spec fn field(self, key: TokenKey) -> Option<String> {
        match key {
            TokenKey::AmpToken => self.amp_token,
            TokenKey::GithubToken => self.github_token,
            TokenKey::GitlabToken => self.gitlab_token,
            TokenKey::GitlabInstanceUrl => self.gitlab_instance_url,
            TokenKey::SourcegraphEndpoint => self.sourcegraph_endpoint,
            TokenKey::SourcegraphToken => self.sourcegraph_token,
            TokenKey::AmpClientId => self.amp_client_id,
            TokenKey::AmpClientSecret => self.amp_client_secret,
        }
    }

    /// No credential is set.
    pub open spec fn spec_is_empty(self) -> bool {
        forall|k: TokenKey| #[trigger] self.field(k) is None
    }

    /// A bundle with nothing set.
    pub fn empty() -> (r: Self)
        ensures
            r.spec_is_empty(),
    {
        AllTokens {
            amp_token: None,
            github_token: None,
            gitlab_token: None,
            gitlab_instance_url: None,
            sourcegraph_endpoint: None,
            sourcegraph_token: None,
            amp_client_id: None,
            amp_client_secret: None,
        }
    }

    /// The credential stored under `key`.
    pub fn get(&self, key: TokenKey) -> (r: Option<String>)
        ensures
            r == self.field(key),
    {
        match key {
            TokenKey::AmpToken => self.amp_token.clone(),
            TokenKey::GithubToken => self.github_token.clone(),
            TokenKey::GitlabToken => self.gitlab_token.clone(),
            TokenKey::GitlabInstanceUrl => self.gitlab_instance_url.clone(),
            TokenKey::SourcegraphEndpoint => self.sourcegraph_endpoint.clone(),
            TokenKey::SourcegraphToken => self.sourcegraph_token.clone(),
            TokenKey::AmpClientId => self.amp_client_id.clone(),
            TokenKey::AmpClientSecret => self.amp_client_secret.clone(),
        }
    }

    /// Stores `value` under `key` (`None` clears it) and hands back what was
    /// stored there, so that a secret can be wiped.
    pub fn replace(&mut self, key: TokenKey, value: Option<String>) -> (r: Option<String>)
        ensures
            r == old(self).field(key),
            final(self).field(key) == value,
            forall|k: TokenKey| k != key ==> #[trigger] final(self).field(k) == old(self).field(k),
    {
        match key {
            TokenKey::AmpToken => {
                let prev = self.amp_token.take();
                self.amp_token = value;
                prev
            },
            TokenKey::GithubToken => {
                let prev = self.github_token.take();
                self.github_token = value;
                prev
            },
            TokenKey::GitlabToken => {
                let prev = self.gitlab_token.take();
                self.gitlab_token = value;
                prev
            },
            TokenKey::GitlabInstanceUrl => {
                let prev = self.gitlab_instance_url.take();
                self.gitlab_instance_url = value;
                prev
            },
            TokenKey::SourcegraphEndpoint => {
                let prev = self.sourcegraph_endpoint.take();
                self.sourcegraph_endpoint = value;
                prev
            },
            TokenKey::SourcegraphToken => {
                let prev = self.sourcegraph_token.take();
                self.sourcegraph_token = value;
                prev
            },
            TokenKey::AmpClientId => {
                let prev = self.amp_client_id.take();
                self.amp_client_id = value;
                prev
            },
            TokenKey::AmpClientSecret => {
                let prev = self.amp_client_secret.take();
                self.amp_client_secret = value;
                prev
            },
        }
    }

    /// Whether no credential is set; such a bundle is not stored at all.
    pub fn is_empty(&self) -> (r: bool)
        ensures
            r == self.spec_is_empty(),
    {
        let r = self.amp_token.is_none() && self.github_token.is_none() && self.gitlab_token.is_none() && self.gitlab_instance_url.is_none() && self.sourcegraph_endpoint.is_none() && self.sourcegraph_token.is_none() && self.amp_client_id.is_none() && self.amp_client_secret.is_none();
        proof {
            if !r {
                if self.amp_token is Some { assert(self.field(TokenKey::AmpToken) is Some); }
                if self.github_token is Some { assert(self.field(TokenKey::GithubToken) is Some); }
                if self.gitlab_token is Some { assert(self.field(TokenKey::GitlabToken) is Some); }
                if self.gitlab_instance_url is Some { assert(self.field(TokenKey::GitlabInstanceUrl) is Some); }
                if self.sourcegraph_endpoint is Some { assert(self.field(TokenKey::SourcegraphEndpoint) is Some); }
                if self.sourcegraph_token is Some { assert(self.field(TokenKey::SourcegraphToken) is Some); }
                if self.amp_client_id is Some { assert(self.field(TokenKey::AmpClientId) is Some); }
                if self.amp_client_secret is Some { assert(self.field(TokenKey::AmpClientSecret) is Some); }
            }
        }
        r
    }
}

/// How a credential is shown: its first and last four characters around
/// `...` when it is longer than eight, eight dots when it is shorter but
/// not empty, and nothing when empty.
pub open spec fn masked(secret: Seq<char>) -> Seq<char> {
    if secret.len() > 8 {
        secret.subrange(0, 4) + "..."@ + secret.subrange(secret.len() - 4, secret.len() as int)
    } else if secret.len() > 0 {
        "\u{2022}\u{2022}\u{2022}\u{2022}\u{2022}\u{2022}\u{2022}\u{2022}"@
    } else {
        Seq::empty()
    }
}

/// The shown form of a credential.
pub fn mask_secret(secret: &str) -> (r: String)
    ensures
        r@ == masked(secret@),
{
    let cs = chars_of(secret);
    let n = cs.len();
    if n > 8 {
        let mut out = sub_chars(cs.as_slice(), 0, 4);
        append_str(&mut out, "...");
        let tail = sub_chars(cs.as_slice(), n - 4, n);
        crate::text::append_chars(&mut out, tail.as_slice());
        string_of(out.as_slice())
    } else if n > 0 {
        String::from_str("\u{2022}\u{2022}\u{2022}\u{2022}\u{2022}\u{2022}\u{2022}\u{2022}")
    } else {
        String::new()
    }
}

impl AllTokens {
    /// Every credential in its shown form.
    pub fn masked(&self) -> (r: AllTokens)
        ensures
            forall|k: TokenKey| #![trigger r.field(k)] match self.field(k) {
                Some(v) => r.field(k) matches Some(m) && m@ == masked(v@),
                None => r.field(k) is None,
            },
    {
        AllTokens {
            amp_token: match &self.amp_token {
                Some(v) => Some(mask_secret(v.as_str())),
                None => None,
            },
            github_token: match &self.github_token {
                Some(v) => Some(mask_secret(v.as_str())),
                None => None,
            },
            gitlab_token: match &self.gitlab_token {
                Some(v) => Some(mask_secret(v.as_str())),
                None => None,
            },
            gitlab_instance_url: match &self.gitlab_instance_url {
                Some(v) => Some(mask_secret(v.as_str())),
                None => None,
            },
            sourcegraph_endpoint: match &self.sourcegraph_endpoint {
                Some(v) => Some(mask_secret(v.as_str())),
                None => None,
            },
            sourcegraph_token: match &self.sourcegraph_token {
                Some(v) => Some(mask_secret(v.as_str())),
                None => None,
            },
            amp_client_id: match &self.amp_client_id {
                Some(v) => Some(mask_secret(v.as_str())),
                None => None,
            },
            amp_client_secret: match &self.amp_client_secret {
                Some(v) => Some(mask_secret(v.as_str())),
                None => None,
            },
        }
    }
}

} // verus!
