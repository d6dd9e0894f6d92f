use local_rag::gitroot::{
    classify, git_facts, has_remote, needs_older_call, probe, remote_origin_url, request_root,
    resolve_against, three_lines, CanonicalPath, WorktreeKind,
};

fn path(name: &str) -> CanonicalPath {
    CanonicalPath {
        canonical: name.to_string(),
        display: name.to_string(),
        fingerprint: format!("fp:{name}"),
    }
}

#[test]
fn classify_equal_dirs_as_main() {
    assert_eq!(classify("/repo/.git", "/repo/.git"), WorktreeKind::Main);
}

#[test]
fn classify_differing_dirs_as_linked() {
    assert_eq!(classify("/repo/.git/worktrees/feature", "/repo/.git"), WorktreeKind::Linked);
}

#[test]
fn request_root_with_no_worktree_root_is_none() {
    let root = request_root(false, None, Some("repo-1".to_string()));
    assert_eq!(root.worktree_root, None);
    assert_eq!(root.repo_hint, Some("repo-1".to_string()));
}

#[test]
fn a_nonexistent_path_probes_to_none() {
    assert!(probe(WorktreeKind::NonGit, None, None, None).is_none());
}

#[test]
fn a_plain_existing_directory_probes_as_non_git() {
    let facts = git_facts("/plain", &None, &None);
    assert_eq!(facts.kind, WorktreeKind::NonGit);
    assert!(!has_remote(facts.kind));
    let found = probe(facts.kind, Some(path("/plain")), None, Some("leftover".to_string())).unwrap();
    assert_eq!(found.kind, WorktreeKind::NonGit);
    assert_eq!(found.observed_canonical_path, "/plain");
    assert_eq!(found.common_dir_fingerprint, None);
    assert_eq!(found.remote_fingerprint, None);
}

#[test]
fn a_real_git_repo_probes_as_main() {
    let stdout = Some("/repo\n/repo/.git\n/repo/.git\n".to_string());
    assert!(!needs_older_call(&stdout));
    let facts = git_facts("/repo", &stdout, &None);
    assert_eq!(facts.kind, WorktreeKind::Main);
    assert!(has_remote(facts.kind));
}

#[test]
fn an_older_git_answers_with_paths_that_are_relative() {
    assert!(needs_older_call(&None));
    let older = Some("/repo\n.git\n.git\n".to_string());
    let facts = git_facts("/repo", &None, &older);
    assert_eq!(facts.kind, WorktreeKind::Main);
}

#[test]
fn a_linked_worktree_probes_as_linked() {
    let stdout = Some("/feature\n/repo/.git/worktrees/feature\n/repo/.git\n".to_string());
    assert_eq!(git_facts("/feature", &stdout, &None).kind, WorktreeKind::Linked);
}

#[test]
fn a_remote_url_is_what_git_prints_without_its_newline() {
    assert_eq!(
        remote_origin_url(&Some("git@example.com:a/b.git\n".to_string())),
        Some("git@example.com:a/b.git".to_string())
    );
    assert_eq!(remote_origin_url(&Some("\n".to_string())), None);
    assert_eq!(remote_origin_url(&None), None);
}

#[test]
fn exactly_three_lines_that_hold_something_are_three_lines() {
    assert_eq!(
        three_lines("a\nb\nc\n"),
        Some(("a".to_string(), "b".to_string(), "c".to_string()))
    );
    assert_eq!(three_lines("a\nb\n"), None);
    assert_eq!(three_lines("a\n\nc\n"), None);
    assert_eq!(three_lines("a\nb\nc\nd\n"), None);
}

#[test]
fn an_absolute_path_is_not_resolved_against_anything() {
    assert_eq!(resolve_against("/repo", "/other/.git"), "/other/.git");
    assert_eq!(resolve_against("/repo", ".git"), "/repo/.git");
}
