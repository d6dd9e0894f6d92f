use local_rag::idle::{idle_eligible, IdleGateInputs};

fn all_idle() -> IdleGateInputs {
    IdleGateInputs { live_sessions: 0, pending_spool_bytes: false, running_jobs: 0 }
}

#[test]
fn all_three_conditions_idle_is_eligible() {
    assert!(idle_eligible(&all_idle()));
}

#[test]
fn a_live_session_alone_refuses() {
    let inputs = IdleGateInputs { live_sessions: 1, ..all_idle() };
    assert!(!idle_eligible(&inputs));
}

#[test]
fn pending_spool_bytes_alone_refuses() {
    let inputs = IdleGateInputs { pending_spool_bytes: true, ..all_idle() };
    assert!(!idle_eligible(&inputs));
}

#[test]
fn a_running_job_alone_refuses() {
    let inputs = IdleGateInputs { running_jobs: 1, ..all_idle() };
    assert!(!idle_eligible(&inputs));
}

#[test]
fn every_condition_failing_at_once_still_refuses() {
    let inputs = IdleGateInputs { live_sessions: 3, pending_spool_bytes: true, running_jobs: 2 };
    assert!(!idle_eligible(&inputs));
}
