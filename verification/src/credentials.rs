use crate::errors::GitError;
use crate::gitmodels::GitConfig;
use crate::text::{has_prefix, string_eq_lit};
use vstd::prelude::*;

verus! {

#[verifier::external_type_specification]
#[verifier::external_body]
pub struct ExCred(git2::Cred);

#[verifier::external_type_specification]
#[verifier::external_body]
pub struct ExGit2Error(git2::Error);

/// One credential strategy, in the form the transport callback tries it.
#[derive(Clone, Debug)]
pub enum CredAttempt {
    /// Any running SSH agent; carries no configuration.
    Agent,
    /// A private-key file, already home-expanded, with an optional passphrase.
    KeyFile { path: String, passphrase: Option<String> },
    /// A token presented as a plaintext username with an empty password.
    Token { token: String },
    /// The platform's default credential negotiation.
    Default,
}

/// A '~/' shorthand expanded against a home directory: the home, then the
/// path from its '/' on.
pub open spec fn spec_expand_home(path: Seq<char>, home: Option<String>) -> Seq<char> {
    if has_prefix(path, "~/"@) && home is Some {
        home->0@ + path.subrange(1, path.len() as int)
    } else {
        path
    }
}

/// Expands a leading '~/' against the home directory, when one is known.
pub fn expand_home(path: &String, home: &Option<String>) -> (r: String)
    ensures
        r@ == spec_expand_home(path@, *home),
{
    let chars = crate::text::str_to_chars(path.as_str());
    if crate::text::starts_with_lit(&chars, "~/") {
        match home {
            Some(h) => {
                proof {
                    reveal_strlit("~/");
                }
                let rest = crate::text::subvec(&chars, 1, chars.len());
                let mut r = String::new();
                r.append(h.as_str());
                let rest_s = crate::text::chars_to_string(&rest);
                r.append(rest_s.as_str());
                r
            },
            None => {
                let r = crate::text::chars_to_string(&chars);
                r
            },
        }
    } else {
        let r = crate::text::chars_to_string(&chars);
        r
    }
}

/// The ordered credential strategies for one operation: an ambient SSH agent
/// is always tried first; a configured key file (method "ssh") or vault token
/// (method "token") comes second when its configuration is complete; platform
/// default negotiation always closes the list.
pub fn credential_plan(
    config: &GitConfig,
    passphrase: Option<String>,
    token: Option<String>,
    home: &Option<String>,
) -> (r: Vec<CredAttempt>)
    ensures
        r@.len() >= 2,
        r@[0] is Agent,
        r@[r@.len() - 1] is Default,
        (config.auth_method matches Some(m) && m@ == "ssh"@ && config.ssh_key_path is Some) ==> {
            &&& r@.len() == 3
            &&& r@[1] matches CredAttempt::KeyFile { path, passphrase: p } && path@
                == spec_expand_home(config.ssh_key_path->0@, *home) && p == passphrase
        },
        (config.auth_method matches Some(m) && m@ == "token"@ && token is Some) ==> {
            &&& r@.len() == 3
            &&& r@[1] matches CredAttempt::Token { token: t } && t == token->0
        },
        !((config.auth_method matches Some(m) && m@ == "ssh"@ && config.ssh_key_path is Some) || (
        config.auth_method matches Some(m) && m@ == "token"@ && token is Some)) ==> r@.len() == 2,
{
    proof {
        reveal_strlit("ssh");
        reveal_strlit("token");
        assert("ssh"@.len() == 3);
        assert("token"@.len() == 5);
        assert("ssh"@ != "token"@);
    }
    let mut r: Vec<CredAttempt> = Vec::new();
    r.push(CredAttempt::Agent);
    match &config.auth_method {
        Some(m) => {
            if string_eq_lit(m, "ssh") {
                match &config.ssh_key_path {
                    Some(p) => {
                        let expanded = expand_home(p, home);
                        r.push(CredAttempt::KeyFile { path: expanded, passphrase });
                    },
                    None => {},
                }
            } else if string_eq_lit(m, "token") {
                match token {
                    Some(t) => {
                        r.push(CredAttempt::Token { token: t });
                    },
                    None => {},
                }
            }
        },
        None => {},
    }
    r.push(CredAttempt::Default);
    r
}

/// Relies on git2::Cred::ssh_key_from_agent: a credential negotiated with any
/// running SSH agent, for `username`.
#[verifier::external_body]
fn cred_from_agent(username: &str) -> (r: Result<git2::Cred, git2::Error>) {
    git2::Cred::ssh_key_from_agent(username)
}

/// Relies on git2::Cred::ssh_key: a credential from a private-key file, with
/// an optional passphrase.
#[verifier::external_body]
fn cred_from_key_file(username: &str, path: &String, passphrase: &Option<String>) -> (r: Result<
    git2::Cred,
    git2::Error,
>) {
    git2::Cred::ssh_key(
        username,
        None,
        std::path::Path::new(path.as_str()),
        passphrase.as_deref(),
    )
}

/// Relies on git2::Cred::userpass_plaintext: a token presented as a plaintext
/// username with an empty password.
#[verifier::external_body]
fn cred_from_token(token: &String) -> (r: Result<git2::Cred, git2::Error>) {
    git2::Cred::userpass_plaintext(token.as_str(), "")
}

/// Relies on git2::Cred::default: the platform's default credential
/// negotiation.
#[verifier::external_body]
fn cred_default() -> (r: Result<git2::Cred, git2::Error>) {
    git2::Cred::default()
}

/// Tries one strategy.
fn try_attempt(attempt: &CredAttempt, username: &str) -> (r: Result<git2::Cred, git2::Error>) {
    match attempt {
        CredAttempt::Agent => cred_from_agent(username),
        CredAttempt::KeyFile { path, passphrase } => cred_from_key_file(
            username,
            path,
            passphrase,
        ),
        CredAttempt::Token { token } => cred_from_token(token),
        CredAttempt::Default => cred_default(),
    }
}

/// Walks the strategies in order; the first success wins, and each failure is
/// tried past. When every strategy fails the last transport error is handed
/// back, and the fetch or push that asked reports authentication failure.
pub fn credential_for(plan: &Vec<CredAttempt>, username_from_url: Option<&str>) -> (r: Result<
    git2::Cred,
    git2::Error,
>)
    requires
        plan@.len() >= 1,
{
    let username = match username_from_url {
        Some(u) => u,
        None => "git",
    };
    let mut last_err: Option<git2::Error> = None;
    let mut i: usize = 0;
    while i < plan.len()
        invariant
            i <= plan@.len(),
            i > 0 ==> last_err is Some,
        decreases plan@.len() - i,
    {
        match try_attempt(&plan[i], username) {
            Ok(c) => {
                return Ok(c);
            },
            Err(e) => {
                last_err = Some(e);
            },
        }
        i = i + 1;
    }
    match last_err {
        Some(e) => Err(e),
        None => vstd::pervasive::unreached(),
    }
}

/// Why a transport operation failed, as far as the engine can tell them
/// apart.
#[derive(Clone, Copy, Debug, PartialEq, Eq, Structural)]
pub enum FetchFailure {
    /// The progress callback signalled that the timeout had passed.
    Timeout,
    /// The transport rejected every credential.
    Auth,
    /// Anything else on the wire.
    Network,
}

/// Relies on git2::Error::code and git2::Error::class: a progress-callback
/// abort surfaces as `ErrorCode::User` when the transport's own cancellation
/// check notices it, and with the callback error class when the pack indexer
/// passes the callback's result through; credential rejection surfaces as
/// `ErrorCode::Auth` or the SSH error class.
#[verifier::external_body]
pub fn classify_transport_error(e: &git2::Error) -> (r: FetchFailure) {
    if e.code() == git2::ErrorCode::User || e.class() == git2::ErrorClass::Callback {
        FetchFailure::Timeout
    } else if e.code() == git2::ErrorCode::Auth || e.class() == git2::ErrorClass::Ssh {
        FetchFailure::Auth
    } else {
        FetchFailure::Network
    }
}

/// The error a failed transport surfaces as: a timeout, exhausted
/// authentication and any other network fault stay distinguishable.
pub fn map_transport_failure(f: FetchFailure) -> (r: GitError)
    ensures
        f is Timeout ==> r == GitError::NetworkTimeout,
        f is Auth ==> r == GitError::AuthenticationFailed,
        f is Network ==> r == GitError::NetworkFailure,
{
    match f {
        FetchFailure::Timeout => GitError::NetworkTimeout,
        FetchFailure::Auth => GitError::AuthenticationFailed,
        FetchFailure::Network => GitError::NetworkFailure,
    }
}

/// Whether the elapsed time has passed the configured timeout; the progress
/// callback aborts exactly then.
pub fn timed_out(elapsed_secs: u64, timeout_secs: u64) -> (r: bool)
    ensures
        r == (elapsed_secs > timeout_secs),
{
    elapsed_secs > timeout_secs
}

} // verus!
