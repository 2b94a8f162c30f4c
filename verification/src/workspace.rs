use crate::text::{chars_to_string, str_to_chars, subvec};
use vstd::prelude::*;

verus! {

/// A workspace as first opened: its path, its display name, the prompt files
/// found in it and its file tree. The tree and prompt list start empty; the
/// scanner fills them in.
#[derive(Debug)]
pub struct Workspace {
    pub path: String,
    pub name: String,
    pub prompts: Vec<PromptMetadata>,
    pub file_tree: FileNode,
}

/// One prompt file found in a workspace.
#[derive(Clone, Debug)]
pub struct PromptMetadata {
    pub id: String,
    pub file_path: String,
    pub name: String,
    pub relative_path: String,
}

/// One node of a workspace's file tree.
#[derive(Debug)]
pub enum FileNode {
    Folder { name: String, path: String, children: Vec<FileNode>, expanded: bool },
    File { name: String, path: String, is_vibe_file: bool },
}

/// `s` with every trailing '/' removed.
pub open spec fn strip_trailing_slashes(s: Seq<char>) -> Seq<char>
    decreases s.len(),
{
    if s.len() > 0 && s.last() == '/' {
        strip_trailing_slashes(s.drop_last())
    } else {
        s
    }
}

/// The characters after the last '/' of `s` (all of `s` when it has none).
pub open spec fn after_last_slash(s: Seq<char>) -> Seq<char>
    decreases s.len(),
{
    if s.len() == 0 {
        Seq::empty()
    } else if s.last() == '/' {
        Seq::empty()
    } else {
        after_last_slash(s.drop_last()) + seq![s.last()]
    }
}

/// The display name of a workspace path: the last path segment, ignoring
/// trailing separators; a path with no segment at all gets a placeholder.
pub open spec fn workspace_name(path: Seq<char>) -> Seq<char> {
    if after_last_slash(strip_trailing_slashes(path)).len() == 0 {
        "Workspace"@
    } else {
        after_last_slash(strip_trailing_slashes(path))
    }
}

/// The last path segment as `workspace_name` defines it.
fn basename_of(path: &String) -> (r: String)
    ensures
        r@ == workspace_name(path@),
{
    let chars = str_to_chars(path.as_str());
    let mut hi = chars.len();
    proof {
        assert(chars@.subrange(0, hi as int) =~= chars@);
    }
    while hi > 0 && chars[hi - 1] == '/'
        invariant
            hi <= chars@.len(),
            strip_trailing_slashes(chars@) == strip_trailing_slashes(
                chars@.subrange(0, hi as int),
            ),
        decreases hi,
    {
        proof {
            assert(chars@.subrange(0, hi as int).drop_last() =~= chars@.subrange(0, hi - 1));
        }
        hi = hi - 1;
    }
    proof {
        assert(strip_trailing_slashes(chars@.subrange(0, hi as int)) =~= chars@.subrange(
            0,
            hi as int,
        ));
    }
    let mut j = hi;
    proof {
        assert(after_last_slash(chars@.subrange(0, hi as int)) =~= after_last_slash(
            chars@.subrange(0, j as int),
        ) + chars@.subrange(j as int, hi as int));
    }
    while j > 0 && chars[j - 1] != '/'
        invariant
            j <= hi <= chars@.len(),
            after_last_slash(chars@.subrange(0, hi as int)) == after_last_slash(
                chars@.subrange(0, j as int),
            ) + chars@.subrange(j as int, hi as int),
        decreases j,
    {
        proof {
            assert(chars@.subrange(0, j as int).drop_last() =~= chars@.subrange(0, j - 1));
            assert(after_last_slash(chars@.subrange(0, j as int)) =~= after_last_slash(
                chars@.subrange(0, j - 1),
            ) + seq![chars@[j - 1]]);
            assert(after_last_slash(chars@.subrange(0, j - 1)) + seq![chars@[j - 1]]
                + chars@.subrange(j as int, hi as int) =~= after_last_slash(
                chars@.subrange(0, j - 1),
            ) + chars@.subrange(j - 1, hi as int));
        }
        j = j - 1;
    }
    proof {
        assert(after_last_slash(chars@.subrange(0, j as int)) =~= Seq::<char>::empty());
        assert(after_last_slash(chars@.subrange(0, hi as int)) =~= chars@.subrange(
            j as int,
            hi as int,
        ));
    }
    let base = subvec(&chars, j, hi);
    if base.len() == 0 {
        String::from_str("Workspace")
    } else {
        chars_to_string(&base)
    }
}

impl Workspace {
    /// A fresh workspace at `path`: named after its last path segment, with
    /// no prompts yet and an expanded, empty root folder as its tree.
    pub fn new(path: String) -> (r: Workspace)
        ensures
            r.path == path,
            r.name@ == workspace_name(path@),
            r.prompts@.len() == 0,
            r.file_tree matches FileNode::Folder { name, path: p, children, expanded } && name@
                == "root"@ && p == path && children@.len() == 0 && expanded == true,
    {
        let name = basename_of(&path);
        let path_copy = path.clone();
        let tree_path = path.clone();
        Workspace {
            path: path_copy,
            name,
            prompts: Vec::new(),
            file_tree: FileNode::Folder {
                name: String::from_str("root"),
                path: tree_path,
                children: Vec::new(),
                expanded: true,
            },
        }
    }
}

/// Workspace-level statistics, as the stores report them.
#[derive(Clone, Debug)]
pub struct WorkspaceStats {
    pub workspace_path: String,
    pub workspace_name: String,
    pub has_database: bool,
    pub prompt_count: i32,
    pub tag_count: i32,
    pub db_size_bytes: i64,
    pub history_count: i32,
    pub execution_count: i32,
}

/// One user-wide variable.
#[derive(Clone, Debug)]
pub struct GlobalVariable {
    pub id: String,
    pub key: String,
    pub value: String,
}

/// What an update check reports.
#[derive(Clone, Debug)]
pub struct VersionInfo {
    pub current_version: String,
    pub latest_version: String,
    pub update_available: bool,
    pub download_url: String,
    pub release_notes: String,
}

/// What an update check reports for a given running version. No update
/// channel is consulted: the running version is reported as the latest, so
/// the result never claims an update and always points at the release page.
pub fn check_for_updates(current_version: String) -> (r: VersionInfo)
    ensures
        r.current_version == current_version,
        r.latest_version@ == current_version@,
        r.update_available == false,
        r.download_url@ == "https://github.com/vibebase/vibebase/releases"@,
        r.release_notes@ == "You are running the latest version."@,
{
    let latest_version = current_version.clone();
    VersionInfo {
        current_version,
        latest_version,
        update_available: false,
        download_url: String::from_str("https://github.com/vibebase/vibebase/releases"),
        release_notes: String::from_str("You are running the latest version."),
    }
}

/// One saved revision of a file, as the history store records it.
#[derive(Clone, Debug)]
pub struct FileHistoryEntry {
    pub id: String,
    pub file_path: String,
    pub content_hash: String,
    pub created_at: i64,
    pub preview: String,
}

/// The caller-facing form of one saved revision.
#[derive(Clone, Debug)]
pub struct FileHistoryEntryResponse {
    pub id: String,
    pub file_path: String,
    pub content_hash: String,
    pub created_at: i64,
    pub preview: String,
}

impl core::convert::From<FileHistoryEntry> for FileHistoryEntryResponse {
    /// The same revision, field for field.
    fn from(entry: FileHistoryEntry) -> (r: FileHistoryEntryResponse) {
        FileHistoryEntryResponse {
            id: entry.id,
            file_path: entry.file_path,
            content_hash: entry.content_hash,
            created_at: entry.created_at,
            preview: entry.preview,
        }
    }
}

impl vstd::std_specs::convert::FromSpecImpl<FileHistoryEntry> for FileHistoryEntryResponse {
    open spec fn obeys_from_spec() -> bool {
        true
    }

    open spec fn from_spec(entry: FileHistoryEntry) -> FileHistoryEntryResponse {
        FileHistoryEntryResponse {
            id: entry.id,
            file_path: entry.file_path,
            content_hash: entry.content_hash,
            created_at: entry.created_at,
            preview: entry.preview,
        }
    }
}

/// Per-workspace source-control preferences, every field optional.
#[derive(Clone, Debug)]
pub struct SourceControlConfig {
    pub auto_generate_commit_message: Option<bool>,
    pub commit_message_model: Option<String>,
    pub commit_message_style: Option<String>,
    pub commit_message_language: Option<String>,
}

} // verus!
