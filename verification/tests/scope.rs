use local_rag::failure::Failure;
use local_rag::scope::{resolve_write_scope, Resolution, ScopeFallback};
use local_rag::vocabulary::{ScopeKind, GLOBAL_SCOPE_OWNER_ID};

fn resolved() -> Resolution {
    Resolution::Resolved { repo_id: "repo-1".to_string(), worktree_id: "wt-1".to_string() }
}

#[test]
fn a_resolved_root_defaults_to_repository_without_degrading() {
    let scope = resolve_write_scope(&resolved(), None).expect("resolved roots never error");
    assert_eq!(scope.kind, ScopeKind::Repository);
    assert_eq!(scope.owner_id, "repo-1");
    assert_eq!(scope.fallback, None);
}

#[test]
fn an_unresolved_root_falls_back_to_global_and_says_so() {
    let scope =
        resolve_write_scope(&Resolution::GlobalOnly, None).expect("the fallback is not an error");
    assert_eq!(scope.kind, ScopeKind::Global);
    assert_eq!(scope.owner_id, GLOBAL_SCOPE_OWNER_ID);
    assert_eq!(scope.fallback, Some(ScopeFallback::WorktreeNotIndexed));
}

#[test]
fn an_ambiguous_root_falls_back_with_its_own_marker() {
    let scope =
        resolve_write_scope(&Resolution::Ambiguous, None).expect("the fallback is not an error");
    assert_eq!(scope.kind, ScopeKind::Global);
    assert_eq!(scope.fallback, Some(ScopeFallback::WorktreeAmbiguous));
    assert_ne!(
        ScopeFallback::WorktreeAmbiguous.hint(),
        ScopeFallback::WorktreeNotIndexed.hint()
    );
    assert_eq!(ScopeFallback::WorktreeAmbiguous.as_str(), "worktree_ambiguous");
    assert_eq!(ScopeFallback::WorktreeNotIndexed.as_str(), "worktree_not_indexed");
}

#[test]
fn an_explicit_global_request_is_never_a_degradation() {
    for resolution in [resolved(), Resolution::GlobalOnly, Resolution::Ambiguous] {
        let scope = resolve_write_scope(&resolution, Some(ScopeKind::Global))
            .expect("global is always satisfiable");
        assert_eq!(scope.kind, ScopeKind::Global);
        assert_eq!(scope.fallback, None, "{resolution:?}");
    }
}

#[test]
fn an_explicit_repository_or_worktree_request_while_unresolved_still_errors() {
    for requested in [ScopeKind::Repository, ScopeKind::Worktree] {
        let err = resolve_write_scope(&Resolution::GlobalOnly, Some(requested))
            .expect_err("the caller asked for a scope this request cannot supply");
        assert_eq!(err, Failure::WorktreeNotIndexed, "{requested:?}");
    }
}

#[test]
fn a_worktree_is_granted_by_its_own_id() {
    let scope = resolve_write_scope(&resolved(), Some(ScopeKind::Worktree)).unwrap();
    assert_eq!(scope.kind, ScopeKind::Worktree);
    assert_eq!(scope.owner_id, "wt-1");
    assert_eq!(scope.fallback, None);
}
