use vibebase::commit_message::CommitMessageGenerator;
use vibebase::credentials::{credential_plan, expand_home, map_transport_failure, CredAttempt, FetchFailure};
use vibebase::gitmodels::{GitConfig, MergeOutcome};
use vibebase::store::timeout_from_setting;
use vibebase::sync::{make_refspec, plan_transport, pull_decision};
use vibebase::workspace::Workspace;
use vibebase::GitError;

#[test]
fn fallback_concise_update_message() {
    let diff = "--- a/src/main.rs\n+++ b/src/main.rs\n+line1\n+line2\n-old\n";
    let generator = CommitMessageGenerator::new();
    let message = generator.generate_fallback(diff, "concise", "en");
    assert_eq!(message, "feat(backend): update src/main.rs");
}

#[test]
fn fallback_concise_add_message_for_new_files() {
    let diff = "--- /dev/null\n+++ b/new.txt\n+hello\n";
    let generator = CommitMessageGenerator::new();
    let message = generator.generate_fallback(diff, "concise", "en");
    assert_eq!(message, "feat(core): add new.txt");
}

#[test]
fn fallback_detailed_message_counts_changes() {
    let diff = "--- a/src/main.rs\n+++ b/src/main.rs\n+line1\n+line2\n-old\n";
    let generator = CommitMessageGenerator::new();
    let message = generator.generate_fallback(diff, "detailed", "en");
    assert_eq!(
        message,
        "feat(backend): update src/main.rs\n\nChanges:\n- 2 additions\n- 1 deletions\n\nFiles modified:\n- src/main.rs"
    );
}

#[test]
fn fallback_chinese_concise_message() {
    let diff = "--- a/notes.md\n+++ b/notes.md\n+x\n";
    let generator = CommitMessageGenerator::new();
    let message = generator.generate_fallback(diff, "concise", "zh-CN");
    assert_eq!(message, "docs(docs): 更新 notes.md");
}

#[test]
fn fallback_names_at_most_three_files() {
    let diff = "+++ b/a.rs\n+++ b/b.rs\n+++ b/c.rs\n+++ b/d.rs\n";
    let generator = CommitMessageGenerator::new();
    let message = generator.generate_fallback(diff, "concise", "en");
    assert_eq!(message, "feat(backend): update 4 files");

    let shorter = "+++ b/a.rs\n+++ b/b.rs\n";
    let message = generator.generate_fallback(shorter, "concise", "en");
    assert_eq!(message, "feat(backend): update a.rs, b.rs");
}

#[test]
fn fallback_counts_each_file_once() {
    let diff = "+++ b/a.rs\n+++ b/a.rs\n";
    let generator = CommitMessageGenerator::new();
    let message = generator.generate_fallback(diff, "concise", "en");
    assert_eq!(message, "feat(backend): update a.rs");
}

#[test]
fn generation_prompts_reject_empty_diffs_and_unknown_styles() {
    let generator = CommitMessageGenerator::new();
    assert_eq!(
        generator.build_generation_prompts("   \n  ", "concise", "en").unwrap_err(),
        "No changes to commit"
    );
    assert_eq!(
        generator.build_generation_prompts("+x\n", "fancy", "en").unwrap_err(),
        "Invalid style: fancy. Must be 'concise' or 'detailed'"
    );
    let (system, user) = generator.build_generation_prompts("+x\n", "concise", "zh-CN").unwrap();
    assert!(system.contains("concise git commit messages"));
    assert!(system.contains("请用中文回复。"));
    assert!(system.ends_with("Output ONLY the commit message, nothing else."));
    assert!(user.starts_with("Based on the following git diff"));
    assert!(user.contains("+x\n"));
}

#[test]
fn generation_falls_back_without_a_model_and_trims_answers() {
    let generator = CommitMessageGenerator::new();
    let diff = "--- /dev/null\n+++ b/new.txt\n+hello\n";

    let fallback = generator.finish_generation(None, diff, "concise", "en").unwrap();
    assert_eq!(fallback, "feat(core): add new.txt");

    let trimmed = generator
        .finish_generation(Some("  fix: tidy up \n".to_string()), diff, "concise", "en")
        .unwrap();
    assert_eq!(trimmed, "fix: tidy up");

    let empty = generator.finish_generation(Some("   \n".to_string()), diff, "concise", "en");
    assert_eq!(empty.unwrap_err(), "LLM returned empty commit message");

    // Trimming covers the whole Unicode white-space set, not just ASCII.
    let unicode = generator
        .finish_generation(Some("\u{00A0}fix: tidy\u{3000}\u{2028}".to_string()), diff, "concise", "en")
        .unwrap();
    assert_eq!(unicode, "fix: tidy");
}

#[test]
fn pull_decision_maps_each_outcome() {
    let up_to_date = pull_decision(Some(MergeOutcome::UpToDate));
    assert!(up_to_date.success);
    assert_eq!(up_to_date.message, "Already up to date");
    assert_eq!(up_to_date.files_changed, 0);

    let fast_forward = pull_decision(Some(MergeOutcome::FastForward));
    assert!(fast_forward.success);
    assert_eq!(fast_forward.message, "Fast-forward successful");
    assert_eq!(fast_forward.files_changed, 1);

    let diverged = pull_decision(Some(MergeOutcome::Diverged));
    assert!(!diverged.success);
    assert_eq!(diverged.message, "Merge required - manual merge not yet implemented");
    assert_eq!(diverged.files_changed, 0);

    let no_upstream = pull_decision(None);
    assert!(no_upstream.success);
    assert_eq!(no_upstream.message, "Already up to date (no upstream branch)");
}

#[test]
fn transport_plan_rewrites_only_the_blocked_shorthand() {
    let github = "git@github.com:someone/project.git".to_string();
    let plan = plan_transport(&github);
    assert!(plan.rewritten);
    assert_eq!(plan.fetch_url, "ssh://git@ssh.github.com:443/someone/project.git");
    assert_eq!(plan.original, github);

    let https = "https://example.test/repo.git".to_string();
    let plan = plan_transport(&https);
    assert!(!plan.rewritten);
    assert_eq!(plan.fetch_url, https);
    assert_eq!(plan.original, https);
}

#[test]
fn credential_plan_tries_token_after_the_agent() {
    let mut config = GitConfig::default();
    config.auth_method = Some("token".to_string());
    config.github_token_key = Some("vault-ref".to_string());

    // The vault served the token: the plan presents it second.
    let plan = credential_plan(&config, None, Some("tok-value".to_string()), &None);
    assert_eq!(plan.len(), 3);
    assert!(matches!(plan[0], CredAttempt::Agent));
    assert!(matches!(&plan[1], CredAttempt::Token { token } if token == "tok-value"));
    assert!(matches!(plan[2], CredAttempt::Default));

    // The vault reference is missing: resolution falls through to default.
    let plan = credential_plan(&config, None, None, &None);
    assert_eq!(plan.len(), 2);
    assert!(matches!(plan[0], CredAttempt::Agent));
    assert!(matches!(plan[1], CredAttempt::Default));

    // Exhausted strategies surface as authentication failure.
    assert_eq!(map_transport_failure(FetchFailure::Auth), GitError::AuthenticationFailed);
    assert_eq!(map_transport_failure(FetchFailure::Timeout), GitError::NetworkTimeout);
    assert_eq!(map_transport_failure(FetchFailure::Network), GitError::NetworkFailure);
}

#[test]
fn credential_plan_expands_the_key_path() {
    let mut config = GitConfig::default();
    config.auth_method = Some("ssh".to_string());
    config.ssh_key_path = Some("~/.ssh/id_ed25519".to_string());

    let home = Some("/home/someone".to_string());
    let plan = credential_plan(&config, Some("phrase".to_string()), None, &home);
    assert_eq!(plan.len(), 3);
    assert!(
        matches!(&plan[1], CredAttempt::KeyFile { path, passphrase }
            if path == "/home/someone/.ssh/id_ed25519" && passphrase.as_deref() == Some("phrase"))
    );

    assert_eq!(
        expand_home(&"~/.ssh/key".to_string(), &None),
        "~/.ssh/key"
    );
    assert_eq!(
        expand_home(&"/abs/key".to_string(), &home),
        "/abs/key"
    );
}

#[test]
fn timeout_setting_defaults_to_thirty_seconds() {
    assert_eq!(timeout_from_setting(&None), 30);
    assert_eq!(timeout_from_setting(&Some("45".to_string())), 45);
    assert_eq!(timeout_from_setting(&Some("0".to_string())), 0);
    assert_eq!(timeout_from_setting(&Some("abc".to_string())), 30);
    assert_eq!(timeout_from_setting(&Some("".to_string())), 30);
    assert_eq!(timeout_from_setting(&Some("99999999999999".to_string())), 30);
}

#[test]
fn refspec_names_the_branch_on_both_sides() {
    assert_eq!(make_refspec(&"master".to_string()), "refs/heads/master:refs/heads/master");
}

#[test]
fn workspace_takes_its_name_from_the_last_path_segment() {
    let ws = Workspace::new("/tmp/projects/demo".to_string());
    assert_eq!(ws.name, "demo");
    assert_eq!(ws.path, "/tmp/projects/demo");
    assert!(ws.prompts.is_empty());

    let slashed = Workspace::new("/tmp/projects/demo/".to_string());
    assert_eq!(slashed.name, "demo");

    let root = Workspace::new("/".to_string());
    assert_eq!(root.name, "Workspace");
}

#[test]
fn error_messages_name_their_condition() {
    assert!(GitError::NotARepository.message().contains("Git repository not found"));
    assert_eq!(GitError::AuthenticationFailed.message(), "Authentication failed");
    assert_eq!(GitError::NetworkTimeout.message(), "Operation timed out");
}
