use vibebase::gitmodels::GitConfig;
use vibebase::service::GitService;
use vibebase::GitError;

/// A commit with an empty tree in a bare repository, on `refs/heads/master`.
fn bare_commit(repo: &git2::Repository, message: &str, parent: Option<git2::Oid>) -> git2::Oid {
    let sig = git2::Signature::now("Probe", "probe@example.test").unwrap();
    let tree_id = repo.treebuilder(None).unwrap().write().unwrap();
    let tree = repo.find_tree(tree_id).unwrap();
    match parent {
        Some(p) => {
            let parent_commit = repo.find_commit(p).unwrap();
            repo.commit(Some("refs/heads/master"), &sig, &sig, message, &tree, &[&parent_commit])
                .unwrap()
        }
        None => repo
            .commit(Some("refs/heads/master"), &sig, &sig, message, &tree, &[])
            .unwrap(),
    }
}

fn add_origin(workspace: &str, url: &str) {
    let repo = git2::Repository::open(workspace).unwrap();
    repo.remote("origin", url).unwrap();
}

#[test]
fn fresh_repository_reports_cleanly() {
    let dir = tempfile::tempdir().unwrap();
    let path = dir.path().to_str().unwrap();
    let svc = GitService::new(path);

    // Without metadata, opening fails; explicit initialization succeeds.
    assert!(matches!(svc.get_status(), Err(GitError::NotARepository)));
    svc.init_repo().unwrap();

    let status = svc.get_status().unwrap();
    assert_eq!(status.current_branch, "main");
    assert!(status.staged.is_empty());
    assert!(status.unstaged.is_empty());
    assert!(status.untracked.is_empty());
    assert_eq!((status.ahead, status.behind), (0, 0));
    assert!(!status.has_conflicts);

    let history = svc.get_commit_history(10).unwrap();
    assert!(history.is_empty());
}

#[test]
fn first_commit_has_no_parent_and_second_has_one() {
    let dir = tempfile::tempdir().unwrap();
    let path = dir.path().to_str().unwrap();
    let svc = GitService::new(path);
    svc.init_repo().unwrap();

    let first = svc.commit("first").unwrap();
    let history = svc.get_commit_history(10).unwrap();
    assert_eq!(history.len(), 1);
    assert_eq!(history[0].id, first);
    assert!(history[0].parent_ids.is_empty());
    assert_eq!(history[0].short_id, first[..7].to_string());
    assert_eq!(history[0].message, "first");

    let second = svc.commit("second").unwrap();
    let history = svc.get_commit_history(10).unwrap();
    assert_eq!(history.len(), 2);
    assert_eq!(history[0].id, second);
    assert_eq!(history[0].parent_ids, vec![first.clone()]);
    assert_eq!(history[1].id, first);

    let limited = svc.get_commit_history(1).unwrap();
    assert_eq!(limited.len(), 1);
}

#[test]
fn pull_without_remote_is_a_structured_result() {
    let dir = tempfile::tempdir().unwrap();
    let path = dir.path().to_str().unwrap();
    let svc = GitService::new(path);
    svc.init_repo().unwrap();
    svc.commit("c1").unwrap();

    let result = svc.pull().unwrap();
    assert!(!result.success);
    assert!(result.message.contains("Remote 'origin' not configured"));
    assert_eq!(result.files_changed, 0);

    let pushed = svc.push().unwrap();
    assert!(!pushed.success);
    assert!(pushed.message.contains("Remote 'origin' not configured"));
}

#[test]
fn pull_against_identical_history_is_up_to_date() {
    let remote_dir = tempfile::tempdir().unwrap();
    let remote_path = remote_dir.path().to_str().unwrap();
    git2::Repository::init_bare(remote_path).unwrap();

    let local_dir = tempfile::tempdir().unwrap();
    let local_path = local_dir.path().to_str().unwrap();
    let svc = GitService::new(local_path);
    svc.init_repo().unwrap();
    svc.commit("c1").unwrap();
    add_origin(local_path, remote_path);

    let pushed = svc.push().unwrap();
    assert!(pushed.success);
    assert_eq!(pushed.message, "Push successful");
    assert_eq!(pushed.commits_pushed, 1);

    let result = svc.pull().unwrap();
    assert!(result.success);
    assert_eq!(result.message, "Already up to date");
    assert_eq!(result.files_changed, 0);
}

#[test]
fn pull_fast_forwards_onto_a_remote_that_is_ahead() {
    let remote_dir = tempfile::tempdir().unwrap();
    let remote_path = remote_dir.path().to_str().unwrap();
    let remote_repo = git2::Repository::init_bare(remote_path).unwrap();

    let local_dir = tempfile::tempdir().unwrap();
    let local_path = local_dir.path().to_str().unwrap();
    let svc = GitService::new(local_path);
    svc.init_repo().unwrap();
    let c1 = svc.commit("c1").unwrap();
    add_origin(local_path, remote_path);
    assert!(svc.push().unwrap().success);

    // Advance the remote past the local tip.
    let c1_oid = git2::Oid::from_str(&c1).unwrap();
    let c2 = bare_commit(&remote_repo, "c2", Some(c1_oid));

    let result = svc.pull().unwrap();
    assert!(result.success);
    assert_eq!(result.message, "Fast-forward successful");
    assert_eq!(result.files_changed, 1);

    let local = git2::Repository::open(local_path).unwrap();
    assert_eq!(local.head().unwrap().target().unwrap(), c2);
    drop(local);
    let history = svc.get_commit_history(10).unwrap();
    assert_eq!(history.len(), 2);

    // Idempotent: pulling again finds nothing new.
    let again = svc.pull().unwrap();
    assert!(again.success);
    assert_eq!(again.message, "Already up to date");
    assert_eq!(again.files_changed, 0);
}

#[test]
fn pull_reports_diverged_history_without_moving_the_tip() {
    let remote_dir = tempfile::tempdir().unwrap();
    let remote_path = remote_dir.path().to_str().unwrap();
    let remote_repo = git2::Repository::init_bare(remote_path).unwrap();

    let local_dir = tempfile::tempdir().unwrap();
    let local_path = local_dir.path().to_str().unwrap();
    let svc = GitService::new(local_path);
    svc.init_repo().unwrap();
    let c1 = svc.commit("c1").unwrap();
    add_origin(local_path, remote_path);
    assert!(svc.push().unwrap().success);

    // Both sides advance independently.
    let local_tip = svc.commit("c2-local").unwrap();
    let c1_oid = git2::Oid::from_str(&c1).unwrap();
    bare_commit(&remote_repo, "c2-remote", Some(c1_oid));

    let result = svc.pull().unwrap();
    assert!(!result.success);
    assert_eq!(result.message, "Merge required - manual merge not yet implemented");
    assert_eq!(result.files_changed, 0);

    let history = svc.get_commit_history(10).unwrap();
    assert_eq!(history[0].id, local_tip);
}

#[test]
fn pull_without_upstream_branch_is_not_an_error() {
    let remote_dir = tempfile::tempdir().unwrap();
    let remote_path = remote_dir.path().to_str().unwrap();
    git2::Repository::init_bare(remote_path).unwrap();

    let local_dir = tempfile::tempdir().unwrap();
    let local_path = local_dir.path().to_str().unwrap();
    let svc = GitService::new(local_path);
    svc.init_repo().unwrap();
    svc.commit("c1").unwrap();
    add_origin(local_path, remote_path);

    // The remote exists but holds nothing to fetch for this branch.
    let result = svc.pull();
    match result {
        Ok(r) => assert!(!r.success || r.files_changed == 0),
        Err(e) => assert!(matches!(
            e,
            GitError::NetworkFailure | GitError::NetworkTimeout
        )),
    }
}

#[test]
fn transport_url_is_restored_after_pull_and_push() {
    let dir = tempfile::tempdir().unwrap();
    let path = dir.path().to_str().unwrap();
    let svc = GitService::new(path);
    svc.init_repo().unwrap();
    svc.commit("c1").unwrap();

    let original = "git@github.com:someone/project.git";
    add_origin(path, original);

    // The transfer cannot succeed here; the stored URL must still be intact.
    let _ = svc.pull();
    let repo = git2::Repository::open(path).unwrap();
    assert_eq!(repo.find_remote("origin").unwrap().url().unwrap(), original);
    drop(repo);

    let _ = svc.push();
    let repo = git2::Repository::open(path).unwrap();
    assert_eq!(repo.find_remote("origin").unwrap().url().unwrap(), original);
}

#[test]
fn list_branches_marks_the_single_current_branch() {
    let dir = tempfile::tempdir().unwrap();
    let path = dir.path().to_str().unwrap();
    let svc = GitService::new(path);
    svc.init_repo().unwrap();
    svc.commit("c1").unwrap();

    let branches = svc.list_branches().unwrap();
    assert_eq!(branches.len(), 1);
    assert!(branches[0].is_current);
    assert!(!branches[0].is_remote);
    assert_eq!(branches[0].name, svc.get_status().unwrap().current_branch);
}

#[test]
fn list_branches_synthesizes_an_entry_for_an_unborn_repository() {
    let dir = tempfile::tempdir().unwrap();
    let path = dir.path().to_str().unwrap();
    let svc = GitService::new(path);
    svc.init_repo().unwrap();

    let branches = svc.list_branches().unwrap();
    assert_eq!(branches.len(), 1);
    assert_eq!(branches[0].name, "main");
    assert!(branches[0].is_current);
    assert!(!branches[0].is_remote);
    assert!(branches[0].upstream.is_none());
    assert!(branches[0].last_commit_message.is_none());
}

#[test]
fn create_and_checkout_branch() {
    let dir = tempfile::tempdir().unwrap();
    let path = dir.path().to_str().unwrap();
    let svc = GitService::new(path);
    svc.init_repo().unwrap();
    svc.commit("c1").unwrap();

    svc.create_branch("feature").unwrap();
    let branches = svc.list_branches().unwrap();
    assert_eq!(branches.len(), 2);

    svc.checkout_branch("feature").unwrap();
    assert_eq!(svc.get_status().unwrap().current_branch, "feature");

    assert!(matches!(
        svc.checkout_branch("no-such-branch"),
        Err(GitError::InvalidReference)
    ));
}

#[test]
fn summary_distinguishes_repositories_from_plain_directories() {
    let dir = tempfile::tempdir().unwrap();
    let path = dir.path().to_str().unwrap();
    let svc = GitService::new(path);

    let before = svc.get_summary().unwrap();
    assert!(!before.has_git);
    assert_eq!(before.changes_count, 0);
    assert!(before.current_branch.is_none());

    svc.init_repo().unwrap();
    let after = svc.get_summary().unwrap();
    assert!(after.has_git);
    assert_eq!(after.current_branch.as_deref(), Some("main"));
}

#[test]
fn config_round_trips_through_the_store() {
    let dir = tempfile::tempdir().unwrap();
    let path = dir.path().to_str().unwrap();
    let svc = GitService::new(path);

    let loaded = svc.load_config().unwrap();
    assert_eq!(loaded.id, "default");
    assert!(!loaded.is_configured);
    assert!(loaded.remote_name.is_none());

    let mut config = GitConfig::default();
    config.auth_method = Some("token".to_string());
    config.github_token_key = Some("vault-ref-1".to_string());
    config.remote_name = Some("origin".to_string());
    config.remote_url = Some("git@github.com:someone/project.git".to_string());
    config.git_user_name = Some("Someone".to_string());
    config.git_user_email = Some("someone@example.test".to_string());
    config.is_configured = true;
    config.last_fetch = Some(-5);
    config.created_at = 1_700_000_000;
    svc.save_config(&config).unwrap();

    let loaded = svc.load_config().unwrap();
    assert_eq!(loaded.id, "default");
    assert_eq!(loaded.auth_method.as_deref(), Some("token"));
    assert_eq!(loaded.github_token_key.as_deref(), Some("vault-ref-1"));
    assert_eq!(loaded.remote_name.as_deref(), Some("origin"));
    assert_eq!(loaded.remote_url.as_deref(), Some("git@github.com:someone/project.git"));
    assert_eq!(loaded.git_user_name.as_deref(), Some("Someone"));
    assert_eq!(loaded.git_user_email.as_deref(), Some("someone@example.test"));
    assert!(loaded.is_configured);
    assert_eq!(loaded.last_fetch, Some(-5));
    assert_eq!(loaded.created_at, 1_700_000_000);
    assert!(loaded.updated_at >= 0);
    assert!(loaded.ssh_key_path.is_none());
}

#[test]
fn load_config_degrades_to_defaults_when_storage_is_unreachable() {
    // The workspace path does not exist, so the settings store cannot even
    // be opened; loading must still hand back the default configuration.
    let svc = GitService::new("/no-such-directory-for-this-probe/workspace");
    let loaded = svc.load_config().unwrap();
    assert_eq!(loaded.id, "default");
    assert!(!loaded.is_configured);
    assert!(loaded.remote_name.is_none());
    assert!(loaded.auth_method.is_none());
}

#[test]
fn failed_staging_leaves_the_index_unchanged() {
    let dir = tempfile::tempdir().unwrap();
    let path = dir.path().to_str().unwrap();
    let svc = GitService::new(path);
    svc.init_repo().unwrap();

    // Commit a file and materialize it in the working tree.
    let repo = git2::Repository::open(path).unwrap();
    let blob = repo.blob(b"hello\n").unwrap();
    let mut index = repo.index().unwrap();
    let entry = git2::IndexEntry {
        ctime: git2::IndexTime::new(0, 0),
        mtime: git2::IndexTime::new(0, 0),
        dev: 0,
        ino: 0,
        mode: 0o100644,
        uid: 0,
        gid: 0,
        file_size: 6,
        flags: 0,
        flags_extended: 0,
        path: b"kept.txt".to_vec(),
        id: blob,
    };
    index.add(&entry).unwrap();
    index.write().unwrap();
    drop(index);
    drop(repo);
    svc.commit("base").unwrap();
    let repo = git2::Repository::open(path).unwrap();
    repo.checkout_head(Some(git2::build::CheckoutBuilder::default().force()))
        .unwrap();

    // Remove the path from the index: it is now staged as deleted.
    let mut index = repo.index().unwrap();
    index.remove_path(std::path::Path::new("kept.txt")).unwrap();
    index.write().unwrap();
    drop(index);
    drop(repo);
    let before = svc.get_status().unwrap();
    assert_eq!(before.staged.len(), 1);
    assert_eq!(before.staged[0].status, "D");

    // One stageable path and one missing path: the call fails as a whole and
    // the on-disk index must be exactly as it was.
    let files = vec!["kept.txt".to_string(), "no-such-file.txt".to_string()];
    assert!(svc.stage_files(&files).is_err());
    let after = svc.get_status().unwrap();
    assert_eq!(after.staged.len(), 1);
    assert_eq!(after.staged[0].path, "kept.txt");
    assert_eq!(after.staged[0].status, "D");

    // Staging only the real path succeeds and clears the pending deletion.
    svc.stage_files(&vec!["kept.txt".to_string()]).unwrap();
    let clean = svc.get_status().unwrap();
    assert!(clean.staged.is_empty());
}

#[test]
fn commit_uses_the_configured_identity_first() {
    let dir = tempfile::tempdir().unwrap();
    let path = dir.path().to_str().unwrap();
    let svc = GitService::new(path);
    svc.init_repo().unwrap();

    let mut config = GitConfig::default();
    config.git_user_name = Some("Configured Name".to_string());
    config.git_user_email = Some("configured@example.test".to_string());
    svc.save_config(&config).unwrap();

    svc.commit("identity probe").unwrap();
    let history = svc.get_commit_history(1).unwrap();
    assert_eq!(history[0].author_name, "Configured Name");
    assert_eq!(history[0].author_email, "configured@example.test");
}

#[test]
fn staged_paths_appear_in_status_and_diff() {
    let dir = tempfile::tempdir().unwrap();
    let path = dir.path().to_str().unwrap();
    let svc = GitService::new(path);
    svc.init_repo().unwrap();
    svc.commit("base").unwrap();

    // Create a file through the repository's own object store plus checkout:
    // write a blob into the index under a fresh path.
    let repo = git2::Repository::open(path).unwrap();
    let blob = repo.blob(b"hello\n").unwrap();
    let mut index = repo.index().unwrap();
    let entry = git2::IndexEntry {
        ctime: git2::IndexTime::new(0, 0),
        mtime: git2::IndexTime::new(0, 0),
        dev: 0,
        ino: 0,
        mode: 0o100644,
        uid: 0,
        gid: 0,
        file_size: 6,
        flags: 0,
        flags_extended: 0,
        path: b"greeting.txt".to_vec(),
        id: blob,
    };
    index.add(&entry).unwrap();
    index.write().unwrap();
    drop(index);
    drop(repo);

    let status = svc.get_status().unwrap();
    assert_eq!(status.staged.len(), 1);
    assert_eq!(status.staged[0].path, "greeting.txt");
    assert_eq!(status.staged[0].status, "A");
    // The blob exists only in the index, so the working tree side reports the
    // path as deleted there.
    assert_eq!(status.unstaged.len(), 1);
    assert_eq!(status.unstaged[0].status, "D");

    let id = svc.commit("add greeting").unwrap();
    assert!(!id.is_empty());
    let clean = svc.get_status().unwrap();
    assert_eq!(clean.staged.len(), 0);
}
