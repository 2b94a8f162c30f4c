use crate::gitmodels::{GitConfig, MergeOutcome, PullResult, PushResult};
use crate::text::{chars_to_string, has_prefix, starts_with_lit, str_to_chars, subvec};
use vstd::prelude::*;

verus! {

// The decision layer of the synchronization engine: everything here is a pure
// function of its arguments, so the engine's choices - which URL to dial,
// which branch name to use, what each merge analysis means for the caller -
// are verified exactly, while the transport itself stays behind the trusted
// repository wrappers.

/// A remote URL in the SSH shorthand form whose default port restrictive
/// networks commonly block.
pub open spec fn github_shorthand(url: Seq<char>) -> bool {
    has_prefix(url, "git@github.com:"@)
}

/// The explicit-port rewrite of such a URL, used for one operation only.
pub open spec fn github_rewrite(url: Seq<char>) -> Seq<char> {
    "ssh://git@ssh.github.com:443/"@ + url.subrange(
        "git@github.com:"@.len() as int,
        url.len() as int,
    )
}

/// How one operation treats the remote's stored URL: what it dials, what it
/// must write back, and whether it rewrote anything at all.
pub struct UrlPlan {
    /// The URL the transfer dials.
    pub fetch_url: String,
    /// The URL as it was stored before the operation; written back after it.
    pub original: String,
    /// Whether the stored URL is replaced for the operation's duration.
    pub rewritten: bool,
}

/// Plans the transport URL for one operation: the blocked SSH shorthand is
/// dialed through the explicit-port form, everything else verbatim, and the
/// stored URL is kept aside for restoration either way.
pub fn plan_transport(url: &String) -> (r: UrlPlan)
    ensures
        r.original@ == url@,
        r.rewritten == github_shorthand(url@),
        r.rewritten ==> r.fetch_url@ == github_rewrite(url@),
        !r.rewritten ==> r.fetch_url@ == url@,
{
    let chars = str_to_chars(url.as_str());
    if starts_with_lit(&chars, "git@github.com:") {
        let plen = "git@github.com:".unicode_len();
        let rest = subvec(&chars, plen, chars.len());
        let mut fetch = String::from_str("ssh://git@ssh.github.com:443/");
        let rest_s = chars_to_string(&rest);
        fetch.append(rest_s.as_str());
        UrlPlan { fetch_url: fetch, original: url.clone(), rewritten: true }
    } else {
        UrlPlan { fetch_url: url.clone(), original: url.clone(), rewritten: false }
    }
}

/// The writes one operation performs on the remote's stored URL, in order:
/// none when no rewrite applies, else the dialed URL and then the restored
/// one.
pub open spec fn url_writes(p: UrlPlan) -> Seq<Seq<char>> {
    if p.rewritten {
        seq![p.fetch_url@, p.original@]
    } else {
        seq![]
    }
}

/// Law: whatever a synchronization operation does to the remote's stored URL,
/// the stored URL afterwards equals its pre-call value: either the operation
/// writes nothing, or its last write is exactly the URL read before the call.
pub proof fn lemma_url_restored(url: String, p: UrlPlan)
    requires
        p.original@ == url@,
        p.rewritten == github_shorthand(url@),
        p.rewritten ==> p.fetch_url@ == github_rewrite(url@),
        !p.rewritten ==> p.fetch_url@ == url@,
    ensures
        url_writes(p).len() == 0 ==> !github_shorthand(url@),
        url_writes(p).len() > 0 ==> url_writes(p).last() == url@,
{
}

/// What a pull reports for each merge analysis; `None` stands for a fetch
/// that found no upstream reference at all. Only diverged history is a
/// failure, and even that one is a structured result, not an error.
pub fn pull_decision(outcome: Option<MergeOutcome>) -> (r: PullResult)
    ensures
        r.conflicts@.len() == 0,
        r.success == (outcome != Some(MergeOutcome::Diverged)),
        outcome is None ==> r.files_changed == 0 && r.message@
            == "Already up to date (no upstream branch)"@,
        outcome == Some(MergeOutcome::UpToDate) ==> r.files_changed == 0 && r.message@
            == "Already up to date"@,
        outcome == Some(MergeOutcome::FastForward) ==> r.files_changed == 1 && r.message@
            == "Fast-forward successful"@,
        outcome == Some(MergeOutcome::Diverged) ==> r.files_changed == 0 && r.message@
            == "Merge required - manual merge not yet implemented"@,
{
    match outcome {
        None => PullResult {
            success: true,
            message: String::from_str("Already up to date (no upstream branch)"),
            conflicts: Vec::new(),
            files_changed: 0,
        },
        Some(MergeOutcome::UpToDate) => PullResult {
            success: true,
            message: String::from_str("Already up to date"),
            conflicts: Vec::new(),
            files_changed: 0,
        },
        Some(MergeOutcome::FastForward) => PullResult {
            success: true,
            message: String::from_str("Fast-forward successful"),
            conflicts: Vec::new(),
            files_changed: 1,
        },
        Some(MergeOutcome::Diverged) => PullResult {
            success: false,
            message: String::from_str("Merge required - manual merge not yet implemented"),
            conflicts: Vec::new(),
            files_changed: 0,
        },
    }
}

/// What a pull reports when the configured remote does not exist: an expected
/// condition, reported as a structured failure with guidance, never an error.
pub fn pull_no_remote() -> (r: PullResult)
    ensures
        r.success == false,
        r.files_changed == 0,
        r.conflicts@.len() == 0,
        r.message@
            == "Remote 'origin' not configured. Please add a remote first: git remote add origin <url>"@,
{
    PullResult {
        success: false,
        message: String::from_str(
            "Remote 'origin' not configured. Please add a remote first: git remote add origin <url>",
        ),
        conflicts: Vec::new(),
        files_changed: 0,
    }
}

/// What a pull reports on an unborn branch: nothing to merge onto yet.
pub fn pull_unborn() -> (r: PullResult)
    ensures
        r.success == false,
        r.files_changed == 0,
        r.conflicts@.len() == 0,
        r.message@ == "Cannot pull: no commits yet. Make an initial commit first."@,
{
    PullResult {
        success: false,
        message: String::from_str("Cannot pull: no commits yet. Make an initial commit first."),
        conflicts: Vec::new(),
        files_changed: 0,
    }
}

/// What a push reports when the configured remote does not exist.
pub fn push_no_remote() -> (r: PushResult)
    ensures
        r.success == false,
        r.commits_pushed == 0,
        r.message@
            == "Remote 'origin' not configured. Please add a remote first: git remote add origin <url>"@,
{
    PushResult {
        success: false,
        message: String::from_str(
            "Remote 'origin' not configured. Please add a remote first: git remote add origin <url>",
        ),
        commits_pushed: 0,
    }
}

/// What a successful push reports. The commit count is a known
/// simplification: one, not the true number pushed.
pub fn push_success() -> (r: PushResult)
    ensures
        r.success == true,
        r.commits_pushed == 1,
        r.message@ == "Push successful"@,
{
    PushResult { success: true, message: String::from_str("Push successful"), commits_pushed: 1 }
}

/// The branch name to report: the repository's own, or the default for a
/// repository with no commits yet.
pub fn branch_or_default(v: Option<String>) -> (r: String)
    ensures
        v matches Some(b) ==> r == b,
        v is None ==> r@ == "main"@,
{
    match v {
        Some(b) => b,
        None => String::from_str("main"),
    }
}

/// The branch name to report from a head lookup: an unborn branch and a head
/// whose name cannot be read both fall back to the default name.
pub fn head_branch_or_default(v: Option<Option<String>>) -> (r: String)
    ensures
        v matches Some(inner) ==> (inner matches Some(b) ==> r == b),
        v matches Some(inner) ==> (inner is None ==> r@ == "main"@),
        v is None ==> r@ == "main"@,
{
    match v {
        Some(inner) => branch_or_default(inner),
        None => String::from_str("main"),
    }
}

/// The remote to operate against: the configured name, or "origin".
pub fn remote_name_of(config: &GitConfig) -> (r: String)
    ensures
        config.remote_name matches Some(n) ==> r@ == n@,
        config.remote_name is None ==> r@ == "origin"@,
{
    match &config.remote_name {
        Some(n) => n.clone(),
        None => String::from_str("origin"),
    }
}

/// The refspec that pushes the current branch to its namesake.
pub fn make_refspec(branch: &String) -> (r: String)
    ensures
        r@ == "refs/heads/"@ + branch@ + ":refs/heads/"@ + branch@,
{
    let mut r = String::from_str("refs/heads/");
    r.append(branch.as_str());
    r.append(":refs/heads/");
    r.append(branch.as_str());
    r
}

/// The fully qualified name of a local branch.
pub fn make_branch_refname(branch: &String) -> (r: String)
    ensures
        r@ == "refs/heads/"@ + branch@,
{
    let mut r = String::from_str("refs/heads/");
    r.append(branch.as_str());
    r
}

/// The author identity a commit uses, by priority: the configured override
/// when it is complete, else the repository-native identity, else a built-in
/// default.
pub fn resolve_identity(
    config: &GitConfig,
    native_name: Option<String>,
    native_email: Option<String>,
) -> (r: (String, String))
    ensures
        (config.git_user_name is Some && config.git_user_email is Some) ==> r.0@
            == config.git_user_name->0@ && r.1@ == config.git_user_email->0@,
        !(config.git_user_name is Some && config.git_user_email is Some) ==> {
            &&& r.0@ == (if native_name is Some {
                native_name->0@
            } else {
                "VibeBase User"@
            })
            &&& r.1@ == (if native_email is Some {
                native_email->0@
            } else {
                "user@vibebase.local"@
            })
        },
{
    match (&config.git_user_name, &config.git_user_email) {
        (Some(n), Some(e)) => (n.clone(), e.clone()),
        _ => {
            let name = match native_name {
                Some(n) => n,
                None => String::from_str("VibeBase User"),
            };
            let email = match native_email {
                Some(e) => e,
                None => String::from_str("user@vibebase.local"),
            };
            (name, email)
        },
    }
}

} // verus!
