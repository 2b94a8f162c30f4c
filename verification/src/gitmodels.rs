use vstd::prelude::*;

verus! {

/// The synchronization configuration of one workspace. At most one such record
/// exists per workspace, under a fixed singleton identifier; absence means
/// "not configured" and every reader falls back to `GitConfig::default()`.
#[derive(Clone, Debug)]
pub struct GitConfig {
    pub id: String,
    pub repository_path: Option<String>,
    pub current_branch: Option<String>,
    /// "none", "ssh" or "token".
    pub auth_method: Option<String>,
    pub ssh_key_path: Option<String>,
    /// A reference into the credential vault, never the secret itself.
    pub ssh_passphrase_key: Option<String>,
    /// A reference into the credential vault, never the secret itself.
    pub github_token_key: Option<String>,
    pub git_user_name: Option<String>,
    pub git_user_email: Option<String>,
    pub remote_name: Option<String>,
    pub remote_url: Option<String>,
    pub is_configured: bool,
    pub last_fetch: Option<i64>,
    pub commit_message_style: Option<String>,
    pub commit_message_provider: Option<String>,
    pub commit_message_language: Option<String>,
    pub created_at: i64,
    pub updated_at: i64,
}

/// The zero-value configuration: all auth disabled, nothing recorded.
pub open spec fn is_default_config(c: GitConfig) -> bool {
    &&& c.id@ == "default"@
    &&& c.repository_path is None
    &&& c.current_branch is None
    &&& c.auth_method is None
    &&& c.ssh_key_path is None
    &&& c.ssh_passphrase_key is None
    &&& c.github_token_key is None
    &&& c.git_user_name is None
    &&& c.git_user_email is None
    &&& c.remote_name is None
    &&& c.remote_url is None
    &&& c.is_configured == false
    &&& c.last_fetch is None
    &&& c.commit_message_style is None
    &&& c.commit_message_provider is None
    &&& c.commit_message_language is None
    &&& c.created_at == 0
    &&& c.updated_at == 0
}

impl core::default::Default for GitConfig {
    /// The configuration of a workspace that was never configured.
    fn default() -> (r: GitConfig)
        ensures
            is_default_config(r),
    {
        GitConfig {
            id: String::from_str("default"),
            repository_path: None,
            current_branch: None,
            auth_method: None,
            ssh_key_path: None,
            ssh_passphrase_key: None,
            github_token_key: None,
            git_user_name: None,
            git_user_email: None,
            remote_name: None,
            remote_url: None,
            is_configured: false,
            last_fetch: None,
            commit_message_style: None,
            commit_message_provider: None,
            commit_message_language: None,
            created_at: 0,
            updated_at: 0,
        }
    }
}

/// One changed path and how it changed: "A", "M" or "D".
#[derive(Clone, Debug)]
pub struct GitFileStatus {
    pub path: String,
    pub status: String,
}

/// A read-only snapshot of the working tree, recomputed on every call.
#[derive(Clone, Debug)]
pub struct GitStatus {
    pub current_branch: String,
    pub staged: Vec<GitFileStatus>,
    pub unstaged: Vec<GitFileStatus>,
    pub untracked: Vec<String>,
    pub ahead: usize,
    pub behind: usize,
    pub has_conflicts: bool,
}

/// One local or remote branch.
#[derive(Clone, Debug)]
pub struct GitBranch {
    pub name: String,
    pub is_current: bool,
    pub is_remote: bool,
    pub upstream: Option<String>,
    pub last_commit_message: Option<String>,
    pub last_commit_time: Option<i64>,
}

/// One commit, as the history reader reports it.
#[derive(Clone, Debug)]
pub struct GitCommit {
    pub id: String,
    pub short_id: String,
    pub message: String,
    pub author_name: String,
    pub author_email: String,
    pub timestamp: i64,
    pub parent_ids: Vec<String>,
}

/// A workspace-level summary of the repository.
#[derive(Clone, Debug)]
pub struct GitSummary {
    pub has_git: bool,
    pub current_branch: Option<String>,
    pub remote_url: Option<String>,
    pub changes_count: usize,
    pub ahead: usize,
    pub behind: usize,
}

/// What a pull reported. Expected conditions (no remote, no upstream,
/// diverged history) are structured results here, never errors.
#[derive(Clone, Debug)]
pub struct PullResult {
    pub success: bool,
    pub message: String,
    pub conflicts: Vec<String>,
    pub files_changed: usize,
}

/// What a push reported.
#[derive(Clone, Debug)]
pub struct PushResult {
    pub success: bool,
    pub message: String,
    pub commits_pushed: usize,
}

/// How the fetched remote history relates to the local branch tip.
#[derive(Clone, Copy, Debug, PartialEq, Eq, Structural)]
pub enum MergeOutcome {
    /// The local branch already holds everything the remote has.
    UpToDate,
    /// Local history is a strict prefix of remote history.
    FastForward,
    /// Both sides have advanced independently since their common ancestor.
    Diverged,
}

/// One entry of the repository's status list, with the sides on which the
/// path differs.
#[derive(Clone, Debug)]
pub struct StatusEntry {
    pub path: String,
    pub index_new: bool,
    pub index_modified: bool,
    pub index_deleted: bool,
    pub wt_new: bool,
    pub wt_modified: bool,
    pub wt_deleted: bool,
}

/// One branch as the repository reports it, before the current branch is
/// marked.
#[derive(Clone, Debug)]
pub struct BranchData {
    pub name: String,
    pub is_remote: bool,
    pub upstream: Option<String>,
    pub last_commit_message: Option<String>,
    pub last_commit_time: Option<i64>,
}

/// One commit as the repository reports it.
#[derive(Clone, Debug)]
pub struct CommitData {
    pub id: String,
    pub message: String,
    pub author_name: String,
    pub author_email: String,
    pub timestamp: i64,
    pub parent_ids: Vec<String>,
}

} // verus!
