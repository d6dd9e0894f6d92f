use local_rag::idle::IdleGateInputs;
use local_rag::lifecycle::{
    background, idle_inputs, log_if_task_panicked, shutdown, spool_report, DaemonStartupError,
    IdleWatch, ShutdownReason, SpoolImport, StartEvent, StartStep, Startup, StateOpenError,
    StopStep, TaskEnd, WaitEvent,
};
use local_rag::lock::{StoreLockError, StoreLockInfo};
use local_rag::mode::{DaemonMode, MigrationError, MigrationOnlyReason};
use local_rag::report::Report;

fn after(events: Vec<StartEvent>) -> Startup {
    let mut startup = Startup::new();
    for event in events {
        startup = startup.on_event(event);
    }
    startup
}

#[test]
fn the_steps_of_a_start_follow_each_other() {
    let events = vec![
        StartEvent::Prepared(Ok(())),
        StartEvent::Locked(Ok(())),
        StartEvent::StateOpened(Ok(())),
        StartEvent::StoreUuidSeeded(Ok(())),
        StartEvent::CacheOpened(Ok(())),
        StartEvent::Bound(Ok(())),
        StartEvent::MarkedReady(Ok(())),
    ];
    let steps = [
        StartStep::Lock,
        StartStep::OpenState,
        StartStep::SeedStoreUuid,
        StartStep::OpenCache,
        StartStep::Bind,
        StartStep::MarkReady,
    ];
    let mut startup = Startup::new();
    for (i, event) in events.into_iter().enumerate() {
        startup = startup.on_event(event);
        if i < steps.len() {
            assert_eq!(startup, Startup::Doing { step: steps[i], mode: DaemonMode::Normal });
        }
    }
    assert_eq!(startup, Startup::Ready { mode: DaemonMode::Normal });
}

#[test]
fn a_failed_migration_is_served_in_its_own_mode() {
    let startup = after(vec![
        StartEvent::Prepared(Ok(())),
        StartEvent::Locked(Ok(())),
        StartEvent::StateOpened(Err(StateOpenError::Migration(MigrationError::IncompatibleStore {
            store_version: 3,
            binary_max_version: 2,
        }))),
        StartEvent::Bound(Ok(())),
        StartEvent::MarkedReady(Ok(())),
    ]);
    let mode = DaemonMode::MigrationOnly {
        reason: MigrationOnlyReason::IncompatibleStore { store_version: 3, binary_max_version: 2 },
    };
    assert_eq!(startup, Startup::Ready { mode });
}

#[test]
fn an_event_of_another_step_changes_nothing() {
    assert_eq!(after(vec![StartEvent::Bound(Ok(()))]), Startup::new());
    assert_eq!(after(vec![StartEvent::Locked(Ok(()))]), Startup::new());
}

#[test]
fn every_failure_of_a_start_says_what_failed() {
    let locked = StoreLockError::Locked { owner: StoreLockInfo::fresh("u", 7, "1", 0) };
    let failures = [
        (DaemonStartupError::Path("e".to_string()), "could not prepare the store directory tree: e"),
        (DaemonStartupError::Lock(locked), "store is locked by pid 7 (instance u)"),
        (DaemonStartupError::State("e".to_string()), "could not open state.sqlite: e"),
        (
            DaemonStartupError::StoreInstanceUuid("e".to_string()),
            "could not seed store_instance_uuid: e",
        ),
        (DaemonStartupError::Cache("e".to_string()), "could not open cache.sqlite: e"),
        (DaemonStartupError::Bind("e".to_string()), "could not bind the daemon socket: e"),
        (
            DaemonStartupError::MarkReady("e".to_string()),
            "could not write the store.lock readiness marker: e",
        ),
    ];
    for (failure, text) in failures {
        assert_eq!(failure.message(), text);
    }
}

#[test]
fn a_step_that_fails_ends_the_start() {
    let mut events = Vec::new();
    let fail = || Err("e".to_string());
    assert_eq!(
        after(vec![StartEvent::Prepared(fail())]),
        Startup::Failed(DaemonStartupError::Path("e".to_string()))
    );
    events.push(StartEvent::Prepared(Ok(())));
    events.push(StartEvent::Locked(Err(StoreLockError::Io("e".to_string()))));
    events.push(StartEvent::Locked(Ok(())));
    assert_eq!(
        after(events),
        Startup::Failed(DaemonStartupError::Lock(StoreLockError::Io("e".to_string())))
    );
    let open = || {
        vec![
            StartEvent::Prepared(Ok(())),
            StartEvent::Locked(Ok(())),
        ]
    };
    let mut state = open();
    state.push(StartEvent::StateOpened(Err(StateOpenError::Other("e".to_string()))));
    assert_eq!(after(state), Startup::Failed(DaemonStartupError::State("e".to_string())));
    let mut uuid = open();
    uuid.push(StartEvent::StateOpened(Ok(())));
    uuid.push(StartEvent::StoreUuidSeeded(fail()));
    assert_eq!(
        after(uuid),
        Startup::Failed(DaemonStartupError::StoreInstanceUuid("e".to_string()))
    );
    let ready = || {
        let mut events = open();
        events.push(StartEvent::StateOpened(Ok(())));
        events.push(StartEvent::StoreUuidSeeded(Ok(())));
        events
    };
    let mut cache = ready();
    cache.push(StartEvent::CacheOpened(fail()));
    assert_eq!(after(cache), Startup::Failed(DaemonStartupError::Cache("e".to_string())));
    let mut bind = ready();
    bind.push(StartEvent::CacheOpened(Ok(())));
    bind.push(StartEvent::Bound(fail()));
    assert_eq!(after(bind), Startup::Failed(DaemonStartupError::Bind("e".to_string())));
    let mut mark = ready();
    mark.push(StartEvent::CacheOpened(Ok(())));
    mark.push(StartEvent::Bound(Ok(())));
    mark.push(StartEvent::MarkedReady(fail()));
    assert_eq!(after(mark), Startup::Failed(DaemonStartupError::MarkReady("e".to_string())));
}

#[test]
fn nothing_runs_in_the_background_of_a_store_that_cannot_be_used() {
    let normal = background(&DaemonMode::Normal);
    assert!(normal.tools && normal.indexing_supervisor && normal.consolidation_trigger);
    assert!(normal.spool_resume && normal.consolidation_resume);
    let confined = background(&DaemonMode::MigrationOnly {
        reason: MigrationOnlyReason::Other { detail: "x".to_string() },
    });
    assert!(!confined.tools && !confined.indexing_supervisor && !confined.consolidation_trigger);
    assert!(!confined.spool_resume && !confined.consolidation_resume);
}

#[test]
fn a_store_that_cannot_say_counts_as_busy() {
    assert!(idle_inputs(true, None, 0, 0).pending_spool_bytes);
    assert!(idle_inputs(true, Some(true), 0, 0).pending_spool_bytes);
    assert!(!idle_inputs(true, Some(false), 0, 0).pending_spool_bytes);
    assert!(!idle_inputs(false, None, 0, 0).pending_spool_bytes);
    let inputs = idle_inputs(true, Some(false), 2, 3);
    assert_eq!((inputs.live_sessions, inputs.running_jobs), (2, 3));
}

#[test]
fn the_store_is_drained_after_everything_else_has_stopped() {
    assert_eq!(
        shutdown(2, true, true, true),
        vec![
            StopStep::JoinResume(0),
            StopStep::JoinResume(1),
            StopStep::StopTrigger,
            StopStep::JoinTrigger,
            StopStep::StopSupervisor,
            StopStep::StopAccepting,
            StopStep::Drain,
        ]
    );
    assert_eq!(shutdown(0, false, false, true), vec![StopStep::StopAccepting, StopStep::Drain]);
}

#[test]
fn log_if_task_panicked_reports_a_panic_but_stays_silent_on_success() {
    let panicked = TaskEnd::Panicked { message: "task 4 panicked with message boom".to_string() };
    let logged = log_if_task_panicked("the doomed task", &panicked).expect("a panic is reported");
    assert!(logged.contains("the doomed task"), "{logged}");
    assert!(logged.contains("panicked"), "{logged}");
    assert_eq!(
        log_if_task_panicked("a healthy task", &TaskEnd::Finished),
        None,
        "a clean join must not be logged"
    );
    assert_eq!(log_if_task_panicked("a cancelled task", &TaskEnd::Cancelled), None);
}

#[test]
fn a_spooled_session_that_stalls_or_fails_is_reported() {
    assert_eq!(spool_report("s", &SpoolImport::Imported { stalled_on: None }), None);
    assert_eq!(
        spool_report("s", &SpoolImport::Imported { stalled_on: Some("format 9".to_string()) }),
        Some(Report::Warning(
            "local-rag: spool session s stalled on import: format 9".to_string()
        ))
    );
    assert_eq!(
        spool_report("s", &SpoolImport::Failed { message: "disk".to_string() }),
        Some(Report::Error("local-rag: spool session s failed to import: disk".to_string()))
    );
}

fn tick(idle: bool, now_ms: u64) -> WaitEvent {
    WaitEvent::Tick {
        inputs: IdleGateInputs {
            live_sessions: if idle { 0 } else { 1 },
            pending_spool_bytes: false,
            running_jobs: 0,
        },
        now_ms,
    }
}

#[test]
fn being_busy_for_a_moment_starts_the_wait_anew() {
    let mut watch = IdleWatch::new();
    assert_eq!(watch.on_event(tick(true, 1_000), 10), None);
    assert_eq!(watch.on_event(tick(true, 9_000), 10), None);
    assert_eq!(watch.on_event(tick(false, 10_000), 10), None);
    assert_eq!(watch.on_event(tick(true, 11_000), 10), None);
    assert_eq!(watch.on_event(tick(true, 20_999), 10), None);
    assert_eq!(watch.on_event(tick(true, 21_000), 10), Some(ShutdownReason::Idle));
}

#[test]
fn a_signal_or_a_request_ends_the_wait_at_once() {
    let mut watch = IdleWatch::new();
    assert_eq!(watch.on_event(WaitEvent::Signalled, 10), Some(ShutdownReason::Signal));
    assert_eq!(
        watch.on_event(WaitEvent::ShutdownRequested, 10),
        Some(ShutdownReason::UpgradeRequested)
    );
    assert_eq!(watch.on_event(tick(true, 5), 0), Some(ShutdownReason::Idle));
}
