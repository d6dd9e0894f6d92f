use local_rag::jobs::{JobKind, JobRegistry};

#[test]
fn a_fresh_registry_is_empty() {
    let registry = JobRegistry::new();
    assert!(registry.is_empty());
}

#[test]
fn beginning_grows_and_dropping_shrinks() {
    let mut registry = JobRegistry::new();
    let a = registry.begin(JobKind::SpoolImport);
    assert_eq!(registry.len(), 1);
    let b = registry.begin(JobKind::ConsolidationResume);
    assert_eq!(registry.len(), 2);

    registry.finish(a);
    assert_eq!(registry.len(), 1);
    registry.finish(b);
    assert!(registry.is_empty());
}

#[test]
fn two_jobs_of_the_same_kind_do_not_collide() {
    let mut registry = JobRegistry::new();
    let a = registry.begin(JobKind::SpoolImport);
    let b = registry.begin(JobKind::SpoolImport);
    assert_eq!(registry.len(), 2);
    registry.finish(a);
    assert_eq!(registry.len(), 1);
    registry.finish(b);
    assert!(registry.is_empty());
}

#[test]
fn jobs_may_end_in_any_order() {
    let mut registry = JobRegistry::new();
    let a = registry.begin(JobKind::Gc);
    let b = registry.begin(JobKind::Reconcile);
    let c = registry.begin(JobKind::Normalization);
    assert_eq!(b.kind(), JobKind::Reconcile);
    registry.finish(b);
    assert!(!registry.any_running(&[JobKind::Reconcile]));
    assert!(registry.any_running(&[JobKind::Reconcile, JobKind::Gc]));
    registry.finish(a);
    assert!(!registry.any_running(&[JobKind::Gc]));
    assert!(registry.any_running(&[JobKind::Normalization]));
    registry.finish(c);
    assert!(registry.is_empty());
    assert!(!registry.any_running(&[]));
}

#[test]
fn each_guard_that_is_out_is_one_job() {
    let mut registry = JobRegistry::new();
    let mut held = Vec::new();
    let kinds = [JobKind::Gc, JobKind::Gc, JobKind::Reconcile, JobKind::Normalization];
    for (started, kind) in kinds.into_iter().enumerate() {
        held.push(registry.begin(kind));
        assert_eq!(registry.len(), started + 1);
    }
    for at in [2, 0, 1, 0] {
        registry.finish(held.remove(at));
        assert_eq!(registry.len(), held.len());
        held.push(registry.begin(JobKind::SpoolImport));
        assert_eq!(registry.len(), held.len());
    }
    while let Some(guard) = held.pop() {
        registry.finish(guard);
        assert_eq!(registry.len(), held.len());
    }
    assert!(registry.is_empty());
}
