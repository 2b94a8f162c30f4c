use crate::credentials::{credential_for, classify_transport_error, CredAttempt, FetchFailure};
use crate::errors::GitError;
use crate::gitmodels::{BranchData, CommitData, MergeOutcome, StatusEntry};
use vstd::prelude::*;

verus! {

#[verifier::external_type_specification]
#[verifier::external_body]
pub struct ExRepository(git2::Repository);

#[verifier::external_type_specification]
#[verifier::external_body]
pub struct ExRemoteCallbacks<'a>(git2::RemoteCallbacks<'a>);

/// Relies on git2::Repository::discover: finds a repository at `path` or in a
/// parent directory; the only error it reports is that none was found.
#[verifier::external_body]
pub fn repo_discover(path: &str) -> (r: Result<git2::Repository, GitError>)
    ensures
        r matches Err(e) ==> e == GitError::NotARepository,
{
    git2::Repository::discover(path).map_err(|_| GitError::NotARepository)
}

/// Relies on git2::Repository::init: creates a new repository at exactly
/// `path` (no upward search); an existing one is reused, never overwritten.
#[verifier::external_body]
pub fn repo_init_at(path: &str) -> (r: Result<(), GitError>)
    ensures
        r matches Err(e) ==> e == GitError::PersistenceError,
{
    match git2::Repository::init(path) {
        Ok(_) => Ok(()),
        Err(_) => Err(GitError::PersistenceError),
    }
}

/// Relies on git2::Repository::statuses and the status-entry accessors: one
/// record per changed path, with the sides on which it differs.
#[verifier::external_body]
pub fn repo_status_entries(repo: &git2::Repository) -> (r: Result<Vec<StatusEntry>, GitError>)
    ensures
        r matches Err(e) ==> e == GitError::PersistenceError,
{
    let statuses = repo.statuses(None).map_err(|_| GitError::PersistenceError)?;
    Ok(statuses.iter().map(|e| StatusEntry {
        path: e.path().unwrap_or("").to_string(),
        index_new: e.status().is_index_new(),
        index_modified: e.status().is_index_modified(),
        index_deleted: e.status().is_index_deleted(),
        wt_new: e.status().is_wt_new(),
        wt_modified: e.status().is_wt_modified(),
        wt_deleted: e.status().is_wt_deleted(),
    }).collect())
}

/// Relies on git2::Repository::head and Reference::shorthand: `None` when the
/// branch is unborn (head does not resolve); otherwise the branch's short
/// name, which is itself absent when it is not UTF-8. The two cases stay
/// apart so a pull can tell an unborn branch from an unreadable name.
#[verifier::external_body]
pub fn repo_head_branch(repo: &git2::Repository) -> (r: Option<Option<String>>) {
    match repo.head() {
        Ok(head) => Some(head.shorthand().ok().map(|s| s.to_string())),
        Err(_) => None,
    }
}

/// Relies on git2::Repository::head and Reference::target: the id of the
/// commit the current branch points at; `None` on an unborn branch.
#[verifier::external_body]
pub fn repo_head_commit_id(repo: &git2::Repository) -> (r: Option<String>) {
    match repo.head() {
        Ok(head) => head.target().map(|oid| oid.to_string()),
        Err(_) => None,
    }
}

/// Relies on git2::Branch::upstream and Repository::graph_ahead_behind: how
/// far the current branch is ahead of and behind its upstream; `None` when
/// there is no upstream (or no commits yet), which is not an error.
#[verifier::external_body]
pub fn repo_ahead_behind(repo: &git2::Repository) -> (r: Option<(usize, usize)>) {
    let head = repo.head().ok()?;
    let local = head.target()?;
    let branch = repo.find_branch(head.shorthand().ok()?, git2::BranchType::Local).ok()?;
    let upstream = branch.upstream().ok()?;
    let upstream_oid = upstream.get().target()?;
    repo.graph_ahead_behind(local, upstream_oid).ok()
}

/// Relies on git2::Repository::index and Index::has_conflicts.
#[verifier::external_body]
pub fn repo_has_conflicts(repo: &git2::Repository) -> (r: Result<bool, GitError>)
    ensures
        r matches Err(e) ==> e == GitError::PersistenceError,
{
    match repo.index() {
        Ok(index) => Ok(index.has_conflicts()),
        Err(_) => Err(GitError::PersistenceError),
    }
}

/// Relies on git2::Repository::branches and the branch accessors: every local
/// and remote branch, each with its upstream name where one is configured
/// (remote-tracking branches report none).
#[verifier::external_body]
pub fn repo_branch_entries(repo: &git2::Repository) -> (r: Result<Vec<BranchData>, GitError>)
    ensures
        r matches Err(e) ==> e == GitError::PersistenceError,
{
    let branches = repo.branches(None).map_err(|_| GitError::PersistenceError)?;
    Ok(branches.filter_map(|b| b.ok()).map(|(branch, btype)| {
        let commit = branch.get().peel_to_commit().ok();
        BranchData {
            name: branch.name().ok().flatten().unwrap_or("").to_string(),
            is_remote: btype == git2::BranchType::Remote,
            upstream: branch.upstream().ok().and_then(|u| u.name().ok().flatten().map(String::from)),
            last_commit_message: commit.as_ref().map(|c| c.message().unwrap_or("").to_string()),
            last_commit_time: commit.as_ref().map(|c| c.time().seconds()),
        }
    }).collect())
}

/// Relies on git2::Repository::branch: a new branch named `name` at the
/// current head commit, never overwriting an existing one.
#[verifier::external_body]
pub fn repo_create_branch(repo: &git2::Repository, name: &str) -> (r: Result<(), GitError>)
    ensures
        r matches Err(e) ==> e == GitError::InvalidReference,
{
    let head = repo.head().map_err(|_| GitError::InvalidReference)?;
    let commit = head.peel_to_commit().map_err(|_| GitError::InvalidReference)?;
    repo.branch(name, &commit, false).map_err(|_| GitError::InvalidReference)?;
    Ok(())
}

/// Relies on git2::Repository::revparse_ext, checkout_tree and set_head:
/// makes `name` the checked-out reference (detached when it is not a branch).
#[verifier::external_body]
pub fn repo_checkout(repo: &git2::Repository, name: &str) -> (r: Result<(), GitError>)
    ensures
        r matches Err(e) ==> e == GitError::InvalidReference,
{
    let (object, reference) = repo.revparse_ext(name).map_err(|_| GitError::InvalidReference)?;
    repo.checkout_tree(&object, None).map_err(|_| GitError::InvalidReference)?;
    let res = match reference.and_then(|gref| gref.name().ok().map(String::from)) {
        Some(refname) => repo.set_head(refname.as_str()),
        None => repo.set_head_detached(object.id()),
    };
    res.map_err(|_| GitError::InvalidReference)
}

/// Relies on git2::Index::add_all: stages every path in the working tree.
#[verifier::external_body]
pub fn repo_stage_all(repo: &git2::Repository) -> (r: Result<(), GitError>)
    ensures
        r matches Err(e) ==> e == GitError::PersistenceError,
{
    let mut index = repo.index().map_err(|_| GitError::PersistenceError)?;
    index.add_all(["*"].iter(), git2::IndexAddOption::DEFAULT, None).map_err(
        |_| GitError::PersistenceError,
    )?;
    index.write().map_err(|_| GitError::PersistenceError)
}

/// Relies on git2::Repository::index and Index::add_path: records one path in
/// the repository's shared in-memory index (git_repository_index hands every
/// caller the same cached index object). Nothing reaches disk until
/// `repo_index_write`, so a staging call that fails partway leaves the
/// on-disk index untouched.
#[verifier::external_body]
pub fn repo_index_add_path(repo: &git2::Repository, path: &String) -> (r: Result<(), GitError>)
    ensures
        r matches Err(e) ==> e == GitError::PersistenceError,
{
    let mut index = repo.index().map_err(|_| GitError::PersistenceError)?;
    index.add_path(std::path::Path::new(path.as_str())).map_err(|_| GitError::PersistenceError)
}

/// Relies on git2::Index::write: writes the shared in-memory index to disk,
/// in one step through a lock file.
#[verifier::external_body]
pub fn repo_index_write(repo: &git2::Repository) -> (r: Result<(), GitError>)
    ensures
        r matches Err(e) ==> e == GitError::PersistenceError,
{
    let mut index = repo.index().map_err(|_| GitError::PersistenceError)?;
    index.write().map_err(|_| GitError::PersistenceError)
}

/// Relies on git2::Config::get_string: the repository-native user identity,
/// each part absent when unset.
#[verifier::external_body]
pub fn repo_config_identity(repo: &git2::Repository) -> (r: (Option<String>, Option<String>)) {
    match repo.config() {
        Ok(config) => (
            config.get_string("user.name").ok(),
            config.get_string("user.email").ok(),
        ),
        Err(_) => (None, None),
    }
}

/// Relies on git2::Index::write_tree: writes the current index as a tree and
/// returns the tree id.
#[verifier::external_body]
pub fn repo_write_index_tree(repo: &git2::Repository) -> (r: Result<String, GitError>)
    ensures
        r matches Err(e) ==> e == GitError::PersistenceError,
{
    let mut index = repo.index().map_err(|_| GitError::PersistenceError)?;
    let tree_id = index.write_tree().map_err(|_| GitError::PersistenceError)?;
    Ok(tree_id.to_string())
}

#[verifier::external_type_specification]
#[verifier::external_body]
pub struct ExCommit<'a>(git2::Commit<'a>);

/// Relies on git2::Oid::from_str and Repository::find_commit: the commit the
/// given id names, as a list of exactly one; no id gives the empty list, as a
/// first commit on an unborn branch has no parent.
#[verifier::external_body]
pub fn commit_parents<'a>(repo: &'a git2::Repository, parent: &Option<String>) -> (r: Result<
    Vec<git2::Commit<'a>>,
    GitError,
>)
    ensures
        r matches Err(e) ==> e == GitError::InvalidReference,
        r matches Ok(v) ==> v@.len() == (if parent is Some {
            1int
        } else {
            0int
        }),
        r is Ok || parent is Some,
{
    match parent {
        Some(p) => {
            let oid = git2::Oid::from_str(p).map_err(|_| GitError::InvalidReference)?;
            Ok(vec![repo.find_commit(oid).map_err(|_| GitError::InvalidReference)?])
        },
        None => Ok(Vec::new()),
    }
}

/// Relies on git2::Repository::commit: a commit of `tree_id`, authored and
/// committed by the given identity, whose parent list is exactly `parents`;
/// head moves to it.
#[verifier::external_body]
pub fn repo_commit_tree(
    repo: &git2::Repository,
    name: &str,
    email: &str,
    message: &str,
    tree_id: &String,
    parents: &Vec<git2::Commit<'_>>,
) -> (r: Result<String, GitError>)
    ensures
        r matches Err(e) ==> e == GitError::InvalidReference,
{
    let sig = git2::Signature::now(name, email).map_err(|_| GitError::InvalidReference)?;
    let tree_oid = git2::Oid::from_str(tree_id).map_err(|_| GitError::InvalidReference)?;
    let tree = repo.find_tree(tree_oid).map_err(|_| GitError::InvalidReference)?;
    let refs: Vec<&git2::Commit<'_>> = parents.iter().collect();
    let oid = repo.commit(Some("HEAD"), &sig, &sig, message, &tree, &refs);
    oid.map(|o| o.to_string()).map_err(|_| GitError::InvalidReference)
}

/// Relies on git2::Repository::find_remote and Remote::url: `None` when the
/// remote does not exist; otherwise its URL, when it is UTF-8.
#[verifier::external_body]
pub fn repo_remote_url(repo: &git2::Repository, name: &str) -> (r: Option<Option<String>>) {
    match repo.find_remote(name) {
        Ok(remote) => Some(remote.url().ok().map(|s| s.to_string())),
        Err(_) => None,
    }
}

/// Relies on git2::Repository::remote_set_url: replaces the stored URL of the
/// named remote.
#[verifier::external_body]
pub fn repo_set_remote_url(repo: &git2::Repository, name: &str, url: &str) -> (r: Result<
    (),
    GitError,
>)
    ensures
        r matches Err(e) ==> e == GitError::PersistenceError,
{
    repo.remote_set_url(name, url).map_err(|_| GitError::PersistenceError)
}

/// Relies on git2::Remote::fetch with callbacks: fetches `branch` from the
/// named remote, resolving credentials through the given plan (first success
/// wins) and aborting from the progress callback once `timeout_secs` have
/// passed; the failure kind keeps timeouts, credential rejection and other
/// faults apart.
#[verifier::external_body]
pub fn remote_fetch(
    repo: &git2::Repository,
    remote_name: &str,
    branch: &str,
    plan: &Vec<CredAttempt>,
    timeout_secs: u64,
) -> (r: Result<(), FetchFailure>) {
    let mut remote = repo.find_remote(remote_name).map_err(|_| FetchFailure::Network)?;
    let mut options = git2::FetchOptions::new();
    options.remote_callbacks(sync_callbacks(plan.clone(), timeout_secs));
    remote.fetch(&[branch], Some(&mut options), None).map_err(
        |e| classify_transport_error(&e),
    )
}

/// Relies on git2::Remote::push with callbacks: pushes `refspec` to the named
/// remote, with the same credential plan and timeout guard as a fetch.
#[verifier::external_body]
pub fn remote_push(
    repo: &git2::Repository,
    remote_name: &str,
    refspec: &String,
    plan: &Vec<CredAttempt>,
    timeout_secs: u64,
) -> (r: Result<(), FetchFailure>) {
    let mut remote = repo.find_remote(remote_name).map_err(|_| FetchFailure::Network)?;
    let mut options = git2::PushOptions::new();
    options.remote_callbacks(sync_callbacks(plan.clone(), timeout_secs));
    remote.push(&[refspec.as_str()], Some(&mut options)).map_err(
        |e| classify_transport_error(&e),
    )
}

/// Relies on git2::RemoteCallbacks: certificates are accepted, credentials
/// come from the verified plan walker, and the transfer-progress and sideband
/// callbacks abort by the verified timeout test. Fetches tick through
/// transfer progress; a push has no abort-capable progress callback in this
/// transport layer, so its timeout fires only on sideband messages from the
/// server.
#[verifier::external_body]
fn sync_callbacks<'a>(plan: Vec<CredAttempt>, timeout_secs: u64) -> (r: git2::RemoteCallbacks<
    'a,
>) {
    let mut callbacks = git2::RemoteCallbacks::new();
    callbacks.certificate_check(|_cert, _host| Ok(git2::CertificateCheckStatus::CertificateOk));
    let start = std::time::Instant::now();
    callbacks.transfer_progress(
        move |_stats| !crate::credentials::timed_out(start.elapsed().as_secs(), timeout_secs),
    );
    callbacks.sideband_progress(
        move |_text| !crate::credentials::timed_out(start.elapsed().as_secs(), timeout_secs),
    );
    callbacks.credentials(move |_url, username_from_url, _allowed| {
        credential_for(&plan, username_from_url)
    });
    callbacks
}

/// Relies on git2::Repository::merge_analysis over FETCH_HEAD: `None` when no
/// fetch head exists (no upstream); otherwise how the fetched commit relates
/// to the local branch, and that commit's id.
#[verifier::external_body]
pub fn repo_fetch_head_analysis(repo: &git2::Repository) -> (r: Result<
    Option<(MergeOutcome, String)>,
    GitError,
>)
    ensures
        r matches Err(e) ==> e == GitError::PersistenceError,
{
    let fetch_head = match repo.find_reference("FETCH_HEAD") {
        Ok(f) => f,
        Err(_) => return Ok(None),
    };
    let err = |_| GitError::PersistenceError;
    let fetch_commit = repo.reference_to_annotated_commit(&fetch_head).map_err(err)?;
    let (analysis, _) = repo.merge_analysis(&[&fetch_commit]).map_err(err)?;
    let outcome = if analysis.is_up_to_date() {
        MergeOutcome::UpToDate
    } else if analysis.is_fast_forward() {
        MergeOutcome::FastForward
    } else {
        MergeOutcome::Diverged
    };
    Ok(Some((outcome, fetch_commit.id().to_string())))
}

/// Relies on git2::Reference::set_target and Repository::checkout_head: moves
/// the branch reference to `target_id` and forces the working tree to match.
#[verifier::external_body]
pub fn repo_fast_forward(repo: &git2::Repository, refname: &String, target_id: &String) -> (r:
    Result<(), GitError>)
    ensures
        r matches Err(e) ==> e == GitError::InvalidReference,
{
    let oid = git2::Oid::from_str(target_id).map_err(|_| GitError::InvalidReference)?;
    let mut reference = repo.find_reference(refname.as_str()).map_err(
        |_| GitError::InvalidReference,
    )?;
    reference.set_target(oid, "Fast-forward").map_err(|_| GitError::InvalidReference)?;
    repo.set_head(refname.as_str()).map_err(|_| GitError::InvalidReference)?;
    repo.checkout_head(Some(git2::build::CheckoutBuilder::default().force())).map_err(
        |_| GitError::InvalidReference,
    )
}

/// Relies on git2::Revwalk: the ids of every commit reachable from head, in
/// reverse commit-time order; empty when the branch is unborn.
#[verifier::external_body]
pub fn repo_walk_commit_ids(repo: &git2::Repository) -> (r: Result<Vec<String>, GitError>)
    ensures
        r matches Err(e) ==> e == GitError::PersistenceError,
{
    let mut revwalk = repo.revwalk().map_err(|_| GitError::PersistenceError)?;
    if revwalk.push_head().is_err() {
        return Ok(Vec::new());
    }
    revwalk.set_sorting(git2::Sort::TIME).map_err(|_| GitError::PersistenceError)?;
    Ok(revwalk.filter_map(|oid| oid.ok()).map(|oid| oid.to_string()).collect())
}

/// Relies on git2::Repository::find_commit and the commit accessors: the
/// message, author, time and parent ids of one commit.
#[verifier::external_body]
pub fn repo_commit_info(repo: &git2::Repository, id: &String) -> (r: Result<CommitData, GitError>)
    ensures
        r matches Err(e) ==> e == GitError::InvalidReference,
{
    let oid = git2::Oid::from_str(id).map_err(|_| GitError::InvalidReference)?;
    let commit = repo.find_commit(oid).map_err(|_| GitError::InvalidReference)?;
    let author = commit.author();
    Ok(CommitData {
        id: commit.id().to_string(),
        message: commit.message().unwrap_or("").to_string(),
        author_name: author.name().unwrap_or("").to_string(),
        author_email: author.email().unwrap_or("").to_string(),
        timestamp: commit.time().seconds(),
        parent_ids: commit.parents().map(|p| p.id().to_string()).collect(),
    })
}

/// Relies on git2::Repository::diff_tree_to_workdir_with_index and
/// Diff::print: the patch text between head's tree and the working tree.
#[verifier::external_body]
pub fn repo_diff_text(repo: &git2::Repository) -> (r: Result<String, GitError>)
    ensures
        r matches Err(e) ==> e == GitError::InvalidReference,
{
    let head = repo.head().map_err(|_| GitError::InvalidReference)?;
    let tree = head.peel_to_tree().map_err(|_| GitError::InvalidReference)?;
    let diff = repo.diff_tree_to_workdir_with_index(Some(&tree), None).map_err(
        |_| GitError::InvalidReference,
    )?;
    let mut text = String::new();
    diff.print(git2::DiffFormat::Patch, |_delta, _hunk, line| {
        text.push_str(std::str::from_utf8(line.content()).unwrap_or(""));
        true
    }).map_err(|_| GitError::InvalidReference)?;
    Ok(text)
}

} // verus!
