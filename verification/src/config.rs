//! Auth settings: the Jenkins base URL, user and API token, from the config
//! file or from `JENKINS_URL` / `JENKINS_USER` / `JENKINS_TOKEN` /
//! `JENKINS_INSECURE`, the environment taking precedence.

use vstd::prelude::*;

use crate::error::AppError;
use crate::text::{
    eq_ignore_ascii_case, eq_ignore_ascii_case_spec, lemma_trim_end_char_no_trailing, str_eq, trim_end_char,
    trim_end_matches_char,
};

verus! {

/// Saved or resolved credentials.
#[derive(Debug, Default, PartialEq, Eq)]
pub struct Auth {
    /// Jenkins base URL, e.g. "http://10.35.0.51:18080" (no trailing slash).
    pub url: Option<String>,
    pub user: Option<String>,
    pub api_token: Option<String>,
    /// Accept self-signed/invalid TLS certs for this instance.
    pub insecure: bool,
}

impl Auth {
    /// URL, user and token are all present.
    pub open spec fn complete(&self) -> bool {
        self.url is Some && self.user is Some && self.api_token is Some
    }

    /// Whether URL, user and token are all present.
    pub fn is_complete(&self) -> (b: bool)
        ensures
            b == self.complete(),
    {
        self.url.is_some() && self.user.is_some() && self.api_token.is_some()
    }
}

/// A base URL without its trailing slashes.
pub open spec fn normalized(url: Seq<char>) -> Seq<char> {
    trim_end_char(url, '/')
}

/// Normalizes a base URL by trimming every trailing slash.
pub fn normalize_url(url: &str) -> (r: String)
    ensures
        r@ == normalized(url@),
{
    trim_end_matches_char(url, '/')
}

/// The values the environment gives for the auth settings; `None` where a
/// variable is unset (or not valid Unicode).
#[derive(Debug, Default, PartialEq, Eq)]
pub struct AuthEnv {
    pub url: Option<String>,
    pub user: Option<String>,
    pub token: Option<String>,
    pub insecure: Option<String>,
}

/// `JENKINS_INSECURE` turns TLS checks off when it is `1` or `true` in any
/// ASCII case.
pub open spec fn insecure_flag_spec(v: Seq<char>) -> bool {
    v == seq!['1'] || eq_ignore_ascii_case_spec(v, seq!['t', 'r', 'u', 'e'])
}

/// Whether a `JENKINS_INSECURE` value asks to accept invalid certificates.
pub fn insecure_flag(v: &str) -> (b: bool)
    ensures
        b == insecure_flag_spec(v@),
{
    proof {
        reveal_strlit("1");
        reveal_strlit("true");
        assert("1"@ =~= seq!['1']);
        assert("true"@ =~= seq!['t', 'r', 'u', 'e']);
    }
    str_eq(v, "1") || eq_ignore_ascii_case(v, "true")
}

/// The view of an optional string.
pub open spec fn opt_view(o: Option<String>) -> Option<Seq<char>> {
    match o {
        Some(s) => Some(s@),
        None => None,
    }
}

/// The settings that result from the environment over the file: each
/// variable that is set wins over the file's value (the URL normalized),
/// and `insecure` falls back to the file's flag.
pub open spec fn merged_auth(env: AuthEnv, file: Option<Auth>) -> (Option<Seq<char>>, Option<Seq<char>>, Option<Seq<char>>, bool) {
    let fa = match file {
        Some(a) => (opt_view(a.url), opt_view(a.user), opt_view(a.api_token), a.insecure),
        None => (None, None, None, false),
    };
    (
        match env.url {
            Some(u) => Some(normalized(u@)),
            None => fa.0,
        },
        match env.user {
            Some(u) => Some(u@),
            None => fa.1,
        },
        match env.token {
            Some(t) => Some(t@),
            None => fa.2,
        },
        match env.insecure {
            Some(v) => insecure_flag_spec(v@),
            None => fa.3,
        },
    )
}

/// Resolves the effective auth from the environment and the config file's
/// auth block: `Ok` exactly when URL, user and token are all known, else
/// `NoAuth`.
pub fn resolve_auth(env: AuthEnv, file: Option<Auth>) -> (r: Result<Auth, AppError>)
    ensures
        ({
            let m = merged_auth(env, file);
            match r {
                Ok(a) => m.0 is Some && m.1 is Some && m.2 is Some && opt_view(a.url) == m.0
                    && opt_view(a.user) == m.1 && opt_view(a.api_token) == m.2 && a.insecure == m.3,
                Err(e) => !(m.0 is Some && m.1 is Some && m.2 is Some) && e == AppError::NoAuth,
            }
        }),
        env.insecure is None && file is Some && r is Ok ==> r->Ok_0.insecure == file->Some_0.insecure,
        env.insecure is None && file is None && r is Ok ==> !r->Ok_0.insecure,
        env.url is None && file is Some && r is Ok ==> r->Ok_0.url == file->Some_0.url,
        env.user is None && file is Some && r is Ok ==> r->Ok_0.user == file->Some_0.user,
        env.token is None && file is Some && r is Ok ==> r->Ok_0.api_token == file->Some_0.api_token,
{
    let file_auth = match file {
        Some(a) => a,
        None => Auth { url: None, user: None, api_token: None, insecure: false },
    };
    let url = match env.url {
        Some(u) => Some(normalize_url(u.as_str())),
        None => file_auth.url,
    };
    let user = match env.user {
        Some(u) => Some(u),
        None => file_auth.user,
    };
    let api_token = match env.token {
        Some(t) => Some(t),
        None => file_auth.api_token,
    };
    let insecure = match env.insecure {
        Some(v) => insecure_flag(v.as_str()),
        None => file_auth.insecure,
    };
    let auth = Auth { url, user, api_token, insecure };
    if auth.is_complete() {
        Ok(auth)
    } else {
        Err(AppError::NoAuth)
    }
}

/// The auth block `jenkins auth save` writes from what the user typed: the
/// URL normalized, TLS checks on.
pub fn saved_auth(url: &str, user: String, api_token: String) -> (a: Auth)
    ensures
        opt_view(a.url) == Some(normalized(url@)),
        a.user == Some(user),
        a.api_token == Some(api_token),
        !a.insecure,
{
    Auth { url: Some(normalize_url(url)), user: Some(user), api_token: Some(api_token), insecure: false }
}

/// Law: a normalized URL has no trailing slash, and normalizing it again
/// changes nothing.
pub proof fn law_normalize_url(url: Seq<char>)
    ensures
        normalized(url).len() == 0 || normalized(url).last() != '/',
        normalized(normalized(url)) == normalized(url),
{
    lemma_trim_end_char_no_trailing(url, '/');
}

/// Law: what `auth save` stores is what the next command authenticates
/// with when no environment variable overrides it: the normalized URL, the
/// user and the token, TLS checks on, and the block is complete.
pub proof fn law_saved_auth_is_used(saved: Auth, url: Seq<char>, user: Seq<char>, token: Seq<char>)
    requires
        opt_view(saved.url) == Some(normalized(url)),
        opt_view(saved.user) == Some(user),
        opt_view(saved.api_token) == Some(token),
        !saved.insecure,
    ensures
        merged_auth(AuthEnv { url: None, user: None, token: None, insecure: None }, Some(saved)) == (
            Some(normalized(url)),
            Some(user),
            Some(token),
            false,
        ),
{
}

/// Law: each setting the environment leaves unset is taken from the config
/// file as it is there, whatever its value (the `insecure` flag included).
pub proof fn law_file_kept_where_environment_is_silent(env: AuthEnv, a: Auth)
    ensures
        env.url is None ==> merged_auth(env, Some(a)).0 == opt_view(a.url),
        env.user is None ==> merged_auth(env, Some(a)).1 == opt_view(a.user),
        env.token is None ==> merged_auth(env, Some(a)).2 == opt_view(a.api_token),
        env.insecure is None ==> merged_auth(env, Some(a)).3 == a.insecure,
{
}

/// Law: each environment variable that is set wins over the config file.
pub proof fn law_environment_overrides_file(env: AuthEnv, file: Option<Auth>)
    ensures
        env.url matches Some(u) ==> merged_auth(env, file).0 == Some(normalized(u@)),
        env.user matches Some(u) ==> merged_auth(env, file).1 == Some(u@),
        env.token matches Some(t) ==> merged_auth(env, file).2 == Some(t@),
        env.insecure matches Some(v) ==> merged_auth(env, file).3 == insecure_flag_spec(v@),
{
}

} // verus!
