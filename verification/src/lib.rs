//! The version-control synchronization subsystem of a prompt workspace: it
//! opens the local repository, negotiates authentication against a remote,
//! fetches and classifies merge state, pushes local commits, and reports
//! working-tree status and history. Around it stand the pieces the rest of
//! the application leans on: the prompt-file parser, the settings stores, the
//! credential vault, and the deterministic commit-message fallback.

use vstd::prelude::*;

pub mod codec;
pub mod commit_message;
pub mod credentials;
pub mod errors;
pub mod gitmodels;
pub mod globals;
pub mod keychain;
pub mod llm;
pub mod prompt;
pub mod repo;
pub mod service;
pub mod status;
pub mod store;
pub mod sync;
pub mod text;
pub mod workspace;

pub use commit_message::CommitMessageGenerator;
pub use errors::GitError;
pub use gitmodels::{
    GitBranch, GitCommit, GitConfig, GitFileStatus, GitStatus, GitSummary, MergeOutcome,
    PullResult, PushResult,
};
pub use keychain::KeychainService;
pub use llm::{LLMConfigResolver, LLMProviderConfig, ResolvedLLMConfig};
pub use prompt::{parse_markdown_prompt, MessageRole, PromptMessage, Provider};
pub use service::GitService;
pub use store::{AppDatabase, ProjectDatabase};
pub use workspace::{
    FileHistoryEntry, FileHistoryEntryResponse, FileNode, GlobalVariable, PromptMetadata,
    SourceControlConfig, VersionInfo, Workspace, WorkspaceStats,
};

verus! {

} // verus!
