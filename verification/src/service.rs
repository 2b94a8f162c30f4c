use crate::credentials::{credential_plan, map_transport_failure, CredAttempt};
use crate::errors::GitError;
use crate::gitmodels::{
    GitBranch, GitCommit, GitConfig, GitStatus, GitSummary, MergeOutcome, PullResult, PushResult,
};
use crate::keychain::KeychainService;
use crate::repo::{
    remote_fetch, remote_push, repo_ahead_behind, repo_branch_entries, repo_checkout,
    repo_commit_info, repo_commit_tree, repo_config_identity, repo_create_branch, repo_diff_text,
    repo_discover, repo_fast_forward, repo_fetch_head_analysis, repo_has_conflicts,
    repo_head_branch, repo_head_commit_id, repo_index_add_path, repo_index_write, repo_init_at,
    repo_remote_url, repo_set_remote_url, repo_stage_all, repo_status_entries,
    repo_walk_commit_ids, repo_write_index_tree,
};
use crate::status::{assemble_branches, classify_entries, make_git_commit};
use crate::store::{home_dir_string, timeout_from_setting, AppDatabase, ProjectDatabase};
use crate::sync::{
    branch_or_default, head_branch_or_default, make_branch_refname, make_refspec, plan_transport,
    pull_decision, pull_no_remote, pull_unborn, push_no_remote, push_success, remote_name_of,
    resolve_identity, UrlPlan,
};
use vstd::prelude::*;

verus! {

/// The synchronization engine of one workspace. It holds only the workspace
/// path: the repository may change on disk between calls, so every operation
/// re-discovers it.
pub struct GitService {
    pub workspace_path: String,
}

impl GitService {
    /// An engine for the workspace at `workspace_path`.
    pub fn new(workspace_path: &str) -> (r: GitService)
        ensures
            r.workspace_path@ == workspace_path@,
    {
        let chars = crate::text::str_to_chars(workspace_path);
        GitService { workspace_path: crate::text::chars_to_string(&chars) }
    }

    /// Opens the repository that holds the workspace, walking upward through
    /// parent directories; never initializes one.
    pub fn init_repository(&self) -> (r: Result<git2::Repository, GitError>)
        ensures
            r matches Err(e) ==> e == GitError::NotARepository,
    {
        repo_discover(self.workspace_path.as_str())
    }

    /// Creates a new, empty repository at exactly the workspace path; an
    /// existing one is left as it is.
    pub fn init_repo(&self) -> (r: Result<(), GitError>)
        ensures
            r matches Err(e) ==> e == GitError::PersistenceError,
    {
        repo_init_at(self.workspace_path.as_str())
    }

    /// The stored synchronization configuration, or the default when none was
    /// ever saved. It never fails the caller: a store that cannot even be
    /// opened degrades to the default configuration, like any other storage
    /// fault.
    pub fn load_config(&self) -> (r: Result<GitConfig, GitError>)
        ensures
            r is Ok,
    {
        match ProjectDatabase::new(self.workspace_path.as_str()) {
            Ok(db) => Ok(db.load_git_config()),
            Err(_) => Ok(GitConfig::default()),
        }
    }

    /// Upserts the configuration under its singleton identifier, refreshing
    /// its last-modified timestamp; it fails only on storage faults.
    pub fn save_config(&self, config: &GitConfig) -> (r: Result<(), GitError>)
        ensures
            r matches Err(e) ==> e == GitError::PersistenceError,
    {
        let db = match ProjectDatabase::new(self.workspace_path.as_str()) {
            Ok(db) => db,
            Err(_) => {
                return Err(GitError::PersistenceError);
            },
        };
        db.save_git_config(config)
    }

    /// The operation timeout in seconds, from the user-wide settings store;
    /// thirty when unset or unreadable.
    pub fn get_operation_timeout(&self) -> (r: u32) {
        match AppDatabase::new() {
            Ok(db) => {
                let setting = db.get_optional_setting("git.operation_timeout_seconds");
                timeout_from_setting(&setting)
            },
            Err(_) => 30,
        }
    }

    /// The working-tree status: staged, unstaged and untracked paths exactly
    /// as `classify_entries` splits the repository's status list, the current
    /// branch (a default name on an unborn branch), ahead/behind counts (zero
    /// without an upstream) and the conflict flag. Recomputed on every call.
    pub fn get_status(&self) -> (r: Result<GitStatus, GitError>)
        ensures
            r matches Err(e) ==> (e == GitError::NotARepository || e
                == GitError::PersistenceError),
    {
        let repo = self.init_repository()?;
        let entries = repo_status_entries(&repo)?;
        let (staged, unstaged, untracked) = classify_entries(&entries);
        let current_branch = head_branch_or_default(repo_head_branch(&repo));
        let (ahead, behind) = match repo_ahead_behind(&repo) {
            Some(p) => p,
            None => (0, 0),
        };
        let has_conflicts = repo_has_conflicts(&repo)?;
        Ok(
            GitStatus {
                current_branch,
                staged,
                unstaged,
                untracked,
                ahead,
                behind,
                has_conflicts,
            },
        )
    }

    /// Every local and remote branch, the current one marked by exact name
    /// match; a repository with no branches yet still yields one entry for
    /// the current branch, so the result is never empty.
    pub fn list_branches(&self) -> (r: Result<Vec<GitBranch>, GitError>)
        ensures
            r matches Ok(v) ==> v@.len() >= 1,
            r matches Err(e) ==> (e == GitError::NotARepository || e
                == GitError::PersistenceError),
    {
        let repo = self.init_repository()?;
        let current = head_branch_or_default(repo_head_branch(&repo));
        let data = repo_branch_entries(&repo)?;
        Ok(assemble_branches(data, &current))
    }

    /// A new branch at the current head commit.
    pub fn create_branch(&self, branch_name: &str) -> (r: Result<(), GitError>)
        ensures
            r matches Err(e) ==> (e == GitError::NotARepository || e
                == GitError::InvalidReference),
    {
        let repo = self.init_repository()?;
        repo_create_branch(&repo, branch_name)
    }

    /// Checks out the named branch (or, for a non-branch reference, detaches
    /// onto it).
    pub fn checkout_branch(&self, branch_name: &str) -> (r: Result<(), GitError>)
        ensures
            r matches Err(e) ==> (e == GitError::NotARepository || e
                == GitError::InvalidReference),
    {
        let repo = self.init_repository()?;
        repo_checkout(&repo, branch_name)
    }

    /// Stages paths: an empty list stages everything in the working tree, a
    /// non-empty list exactly those paths. Every path is recorded in the
    /// in-memory index first and the index reaches disk in one write at the
    /// end, so a failing path aborts the whole call with the on-disk index
    /// unchanged: partial staging is a correctness hazard and never persists.
    pub fn stage_files(&self, files: &Vec<String>) -> (r: Result<(), GitError>)
        ensures
            r matches Err(e) ==> (e == GitError::NotARepository || e
                == GitError::PersistenceError),
    {
        let repo = self.init_repository()?;
        if files.len() == 0 {
            return repo_stage_all(&repo);
        }
        let mut i: usize = 0;
        while i < files.len()
            invariant
                i <= files@.len(),
            decreases files@.len() - i,
        {
            repo_index_add_path(&repo, &files[i])?;
            i = i + 1;
        }
        repo_index_write(&repo)
    }

    /// Writes the index as a tree and commits it. The author identity is
    /// resolved by `resolve_identity`; the parent list is empty exactly when
    /// the branch has no commits yet, and otherwise is the current tip alone.
    pub fn commit(&self, message: &str) -> (r: Result<String, GitError>)
        ensures
            r matches Err(e) ==> (e == GitError::NotARepository || e == GitError::PersistenceError
                || e == GitError::InvalidReference),
    {
        let repo = self.init_repository()?;
        let config = self.load_config()?;
        let (native_name, native_email) = repo_config_identity(&repo);
        let (user_name, user_email) = resolve_identity(&config, native_name, native_email);
        let tree_id = repo_write_index_tree(&repo)?;
        let parent = repo_head_commit_id(&repo);
        let parents = crate::repo::commit_parents(&repo, &parent)?;
        repo_commit_tree(
            &repo,
            user_name.as_str(),
            user_email.as_str(),
            message,
            &tree_id,
            &parents,
        )
    }

    /// Fetches from the configured remote and applies the merge analysis:
    /// up-to-date and fast-forward succeed, diverged history is reported as a
    /// structured failure, and a missing remote, an unborn branch or a
    /// missing upstream are expected conditions with explanatory messages.
    /// The remote's stored URL, when rewritten for the transfer, is restored
    /// before the fetch result is even looked at.
    pub fn pull(&self) -> (r: Result<PullResult, GitError>)
        ensures
            r matches Ok(p) ==> p.conflicts@.len() == 0,
            r matches Ok(p) ==> {
                ||| (!p.success && p.message@
                    == "Remote 'origin' not configured. Please add a remote first: git remote add origin <url>"@
                    && p.files_changed == 0)
                ||| (!p.success && p.message@
                    == "Cannot pull: no commits yet. Make an initial commit first."@
                    && p.files_changed == 0)
                ||| (p.success && p.message@ == "Already up to date (no upstream branch)"@
                    && p.files_changed == 0)
                ||| (p.success && p.message@ == "Already up to date"@ && p.files_changed == 0)
                ||| (p.success && p.message@ == "Fast-forward successful"@ && p.files_changed == 1)
                ||| (!p.success && p.message@
                    == "Merge required - manual merge not yet implemented"@ && p.files_changed
                    == 0)
            },
            r matches Err(e) ==> (e == GitError::NotARepository || e == GitError::PersistenceError
                || e == GitError::NetworkTimeout || e == GitError::AuthenticationFailed || e
                == GitError::NetworkFailure || e == GitError::InvalidReference),
    {
        let repo = self.init_repository()?;
        let config = self.load_config()?;
        let timeout_secs = self.get_operation_timeout();
        let remote_name = remote_name_of(&config);
        let url = match repo_remote_url(&repo, remote_name.as_str()) {
            None => {
                return Ok(pull_no_remote());
            },
            Some(u) => u,
        };
        let branch = match repo_head_branch(&repo) {
            Some(name) => branch_or_default(name),
            None => {
                return Ok(pull_unborn());
            },
        };
        let plan = self.apply_transport_plan(&repo, remote_name.as_str(), &url)?;
        let creds = self.build_credential_plan(&config);
        let fetch_res = remote_fetch(
            &repo,
            remote_name.as_str(),
            branch.as_str(),
            &creds,
            timeout_secs as u64,
        );
        self.restore_transport_plan(&repo, remote_name.as_str(), &plan);
        match fetch_res {
            Ok(()) => (),
            Err(f) => {
                return Err(map_transport_failure(f));
            },
        }
        let analysis = repo_fetch_head_analysis(&repo)?;
        match analysis {
            None => Ok(pull_decision(None)),
            Some((outcome, fetch_id)) => {
                if outcome == MergeOutcome::FastForward {
                    let refname = make_branch_refname(&branch);
                    repo_fast_forward(&repo, &refname, &fetch_id)?;
                }
                Ok(pull_decision(Some(outcome)))
            },
        }
    }

    /// Pushes the current branch to its namesake on the configured remote,
    /// with the same credential chain, timeout guard and URL discipline as a
    /// pull; transport failures propagate as errors that keep timeouts,
    /// authentication and other faults apart.
    pub fn push(&self) -> (r: Result<PushResult, GitError>)
        ensures
            r matches Ok(p) ==> {
                ||| (p.success && p.message@ == "Push successful"@ && p.commits_pushed == 1)
                ||| (!p.success && p.message@
                    == "Remote 'origin' not configured. Please add a remote first: git remote add origin <url>"@
                    && p.commits_pushed == 0)
            },
            r matches Err(e) ==> (e == GitError::NotARepository || e == GitError::PersistenceError
                || e == GitError::NetworkTimeout || e == GitError::AuthenticationFailed || e
                == GitError::NetworkFailure || e == GitError::InvalidReference),
    {
        let repo = self.init_repository()?;
        let config = self.load_config()?;
        let timeout_secs = self.get_operation_timeout();
        let remote_name = remote_name_of(&config);
        let url = match repo_remote_url(&repo, remote_name.as_str()) {
            None => {
                return Ok(push_no_remote());
            },
            Some(u) => u,
        };
        let branch = match repo_head_branch(&repo) {
            Some(name) => branch_or_default(name),
            None => {
                return Err(GitError::InvalidReference);
            },
        };
        let refspec = make_refspec(&branch);
        let plan = self.apply_transport_plan(&repo, remote_name.as_str(), &url)?;
        let creds = self.build_credential_plan(&config);
        let push_res = remote_push(
            &repo,
            remote_name.as_str(),
            &refspec,
            &creds,
            timeout_secs as u64,
        );
        self.restore_transport_plan(&repo, remote_name.as_str(), &plan);
        match push_res {
            Ok(()) => Ok(push_success()),
            Err(f) => Err(map_transport_failure(f)),
        }
    }

    /// The commits reachable from the current branch tip, newest first by
    /// commit time, at most `limit` of them; an unborn branch yields an empty
    /// list, never an error.
    pub fn get_commit_history(&self, limit: usize) -> (r: Result<Vec<GitCommit>, GitError>)
        ensures
            r matches Ok(v) ==> v@.len() <= limit,
            r matches Err(e) ==> (e == GitError::NotARepository || e == GitError::PersistenceError
                || e == GitError::InvalidReference),
    {
        let repo = self.init_repository()?;
        if repo_head_commit_id(&repo).is_none() {
            return Ok(Vec::new());
        }
        let ids = repo_walk_commit_ids(&repo)?;
        let n = if limit < ids.len() {
            limit
        } else {
            ids.len()
        };
        let mut commits: Vec<GitCommit> = Vec::new();
        let mut i: usize = 0;
        while i < n
            invariant
                i <= n,
                n <= ids@.len(),
                n <= limit,
                commits@.len() == i,
            decreases n - i,
        {
            let info = repo_commit_info(&repo, &ids[i])?;
            commits.push(make_git_commit(info));
            i = i + 1;
        }
        Ok(commits)
    }

    /// A workspace-level summary: whether a repository exists at all, and if
    /// so its current branch (a default name on an unborn branch), the
    /// configured remote URL, how many paths differ and the ahead/behind
    /// counts. A workspace without a repository is a summary, not an error.
    pub fn get_summary(&self) -> (r: Result<GitSummary, GitError>)
        ensures
            r matches Ok(s) ==> (!s.has_git ==> s.current_branch is None && s.remote_url is None
                && s.changes_count == 0 && s.ahead == 0 && s.behind == 0),
            r matches Err(e) ==> e == GitError::PersistenceError,
    {
        let repo = match self.init_repository() {
            Ok(repo) => repo,
            Err(_) => {
                return Ok(
                    GitSummary {
                        has_git: false,
                        current_branch: None,
                        remote_url: None,
                        changes_count: 0,
                        ahead: 0,
                        behind: 0,
                    },
                );
            },
        };
        let current_branch = Some(head_branch_or_default(repo_head_branch(&repo)));
        let remote_url = match self.load_config() {
            Ok(config) => config.remote_url,
            Err(_) => None,
        };
        let entries = repo_status_entries(&repo)?;
        let changes_count = entries.len();
        let (ahead, behind) = match repo_ahead_behind(&repo) {
            Some(p) => p,
            None => (0, 0),
        };
        Ok(GitSummary { has_git: true, current_branch, remote_url, changes_count, ahead, behind })
    }

    /// The patch text between the head tree and the working tree (the index
    /// included).
    pub fn get_diff(&self) -> (r: Result<String, GitError>)
        ensures
            r matches Err(e) ==> (e == GitError::NotARepository || e
                == GitError::InvalidReference),
    {
        let repo = self.init_repository()?;
        repo_diff_text(&repo)
    }

    /// Rewrites the remote's stored URL for this operation when the transport
    /// plan calls for it. The returned plan holds the original URL; every
    /// exit of the calling operation goes through `restore_transport_plan`.
    fn apply_transport_plan(
        &self,
        repo: &git2::Repository,
        remote_name: &str,
        url: &Option<String>,
    ) -> (r: Result<Option<UrlPlan>, GitError>)
        ensures
            r matches Err(e) ==> e == GitError::PersistenceError,
            r matches Ok(p) ==> (p is Some <==> url is Some),
            r matches Ok(p) ==> (p is Some ==> (p->0).original@ == url->0@),
    {
        match url {
            None => Ok(None),
            Some(u) => {
                let plan = plan_transport(u);
                if plan.rewritten {
                    repo_set_remote_url(repo, remote_name, plan.fetch_url.as_str())?;
                }
                Ok(Some(plan))
            },
        }
    }

    /// Writes the original URL back when the plan rewrote it. Failures here
    /// are swallowed: restoration is best-effort on every exit path.
    fn restore_transport_plan(
        &self,
        repo: &git2::Repository,
        remote_name: &str,
        plan: &Option<UrlPlan>,
    ) {
        match plan {
            Some(p) => {
                if p.rewritten {
                    let _ = repo_set_remote_url(repo, remote_name, p.original.as_str());
                }
            },
            None => (),
        }
    }

    /// The credential strategies for one operation, fed by the vault: the
    /// configured passphrase and token references are resolved here, and a
    /// reference the vault cannot serve simply leaves its strategy out, so
    /// resolution falls through to the remaining ones.
    fn build_credential_plan(&self, config: &GitConfig) -> (r: Vec<CredAttempt>)
        ensures
            r@.len() >= 1,
    {
        let passphrase = match &config.ssh_passphrase_key {
            Some(key) => match KeychainService::get_git_ssh_passphrase(key) {
                Ok(p) => Some(p),
                Err(_) => None,
            },
            None => None,
        };
        let token = match &config.github_token_key {
            Some(key) => match KeychainService::get_git_token(key) {
                Ok(t) => Some(t),
                Err(_) => None,
            },
            None => None,
        };
        let home = home_dir_string();
        credential_plan(config, passphrase, token, &home)
    }
}

} // verus!
