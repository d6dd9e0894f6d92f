use local_rag::consolidation_trigger::{
    idle_timeout_ms, lease_until, log_session_tick_outcomes, maybe_truncate_wal, sessions_to_visit,
    ConsolidationTriggerParams, ImportReport, ReportedRuns, RunEnd, RunOutcome, SessionFacts,
    SessionTickOutcome, Snapshot, Tick, TickEvent, TickStage,
};
use local_rag::jobs::{JobKind, JobRegistry};
use local_rag::report::Report;

fn default_params() -> ConsolidationTriggerParams {
    ConsolidationTriggerParams {
        lease_ms: 60_000,
        renew_interval_ms: 20_000,
        batch_size: 20,
        window_chars: i64::MAX,
        queue_threshold: 50,
        payload_ttl_hours: 72,
        idle_checkpoint_hours: 24,
        wal_truncate_threshold_bytes: 64 << 20,
    }
}

const NOTHING_SEEN: ImportReport = ImportReport { saw_stop: false, saw_session_end: false };

const QUIET: SessionFacts = SessionFacts {
    backlog: Some(1),
    unconsolidated_checkpoint: Some(false),
    idle: Some(false),
};

fn started(sessions: &[&str]) -> Tick {
    let mut tick = Tick::new();
    let params = default_params();
    tick.on_event(TickEvent::Recovered, &params);
    tick.on_event(
        TickEvent::Listed {
            spool: Some(sessions.iter().map(|s| s.to_string()).collect()),
            backlog: None,
        },
        &params,
    );
    tick
}

fn learn(tick: &mut Tick, report: Result<ImportReport, String>, facts: Option<SessionFacts>) {
    let params = default_params();
    tick.on_event(TickEvent::Imported(report), &params);
    tick.on_event(TickEvent::FactsRead(facts), &params);
}

fn run(tick: &mut Tick, outcome: RunOutcome) {
    let params = default_params();
    tick.on_event(TickEvent::Opened(Snapshot::Opened), &params);
    tick.on_event(TickEvent::RunEnded(RunEnd::Ended(outcome)), &params);
}

fn only(tick: &Tick) -> &SessionTickOutcome {
    assert_eq!(tick.stage, TickStage::Finished);
    assert_eq!(tick.results.len(), 1);
    &tick.results[0].1
}

#[test]
fn a_tick_truncates_a_wal_over_the_threshold_when_no_reconcile_is_running() {
    assert!(maybe_truncate_wal(4097, 4096, &JobRegistry::new()));
}

#[test]
fn a_tick_leaves_the_wal_alone_while_a_reconcile_is_running() {
    let mut jobs = JobRegistry::new();
    let job = jobs.begin(JobKind::Reconcile);
    assert!(
        !maybe_truncate_wal(4097, 4096, &jobs),
        "a reconcile is a live reader; the tick must not truncate under it"
    );
    jobs.finish(job);
    let _other = jobs.begin(JobKind::ConsolidationTrigger);
    assert!(maybe_truncate_wal(4097, 4096, &jobs));
}

#[test]
fn a_tick_below_the_threshold_does_nothing() {
    assert!(!maybe_truncate_wal(4096, 4097, &JobRegistry::new()));
    assert!(!maybe_truncate_wal(4096, 4096, &JobRegistry::new()));
}

#[test]
fn a_stop_event_triggers_immediately() {
    let mut tick = started(&["sess-a"]);
    assert_eq!(tick.session().map(String::as_str), Some("sess-a"));
    let stopped = ImportReport { saw_stop: true, saw_session_end: false };
    learn(&mut tick, Ok(stopped), Some(QUIET));
    run(&mut tick, RunOutcome::Applied);
    assert_eq!(tick.results[0].0, "sess-a");
    assert_eq!(only(&tick), &SessionTickOutcome::Ran(RunOutcome::Applied));
    assert_eq!(tick.job(), None);
}

#[test]
fn backlog_over_threshold_triggers_without_a_checkpoint_event() {
    let mut tick = started(&["sess-b"]);
    learn(&mut tick, Ok(NOTHING_SEEN), Some(SessionFacts { backlog: Some(50), ..QUIET }));
    assert_eq!(tick.stage, TickStage::Opening);
}

#[test]
fn a_session_end_already_imported_by_a_prior_pass_still_triggers() {
    let mut tick = started(&["sess-c"]);
    let facts = SessionFacts { unconsolidated_checkpoint: Some(true), ..QUIET };
    learn(&mut tick, Ok(NOTHING_SEEN), Some(facts));
    assert_eq!(tick.stage, TickStage::Opening);
}

#[test]
fn an_idle_session_that_never_got_a_stop_still_triggers() {
    let mut tick = started(&["sess-d"]);
    learn(&mut tick, Ok(NOTHING_SEEN), Some(SessionFacts { idle: Some(true), ..QUIET }));
    assert_eq!(tick.stage, TickStage::Opening);
    assert_eq!(idle_timeout_ms(&default_params()), 24 * 3_600_000);
}

#[test]
fn an_idle_session_under_the_timeout_does_not_trigger_yet() {
    let mut tick = started(&["sess-d"]);
    learn(&mut tick, Ok(NOTHING_SEEN), Some(QUIET));
    assert_eq!(only(&tick), &SessionTickOutcome::NoCheckpoint);
}

#[test]
fn backlog_under_threshold_with_no_event_does_not_trigger() {
    let mut tick = started(&["sess-e"]);
    learn(&mut tick, Ok(NOTHING_SEEN), Some(SessionFacts { backlog: Some(49), ..QUIET }));
    assert_eq!(only(&tick), &SessionTickOutcome::NoCheckpoint);
}

#[test]
fn session_end_best_effort_generator_rejection_does_not_propagate() {
    let mut tick = started(&["sess-f"]);
    let ended = ImportReport { saw_stop: false, saw_session_end: true };
    learn(&mut tick, Ok(ended), Some(QUIET));
    run(&mut tick, RunOutcome::Failed("router refused".to_string()));
    assert_eq!(
        only(&tick),
        &SessionTickOutcome::Ran(RunOutcome::Failed("router refused".to_string()))
    );
}

#[test]
fn an_existing_non_applied_run_is_skipped_not_double_opened() {
    let mut tick = started(&["sess-g"]);
    learn(&mut tick, Ok(ImportReport { saw_stop: true, saw_session_end: false }), None);
    tick.on_event(TickEvent::Opened(Snapshot::Existing), &default_params());
    assert_eq!(only(&tick), &SessionTickOutcome::SkippedExisting);
}

#[test]
fn stale_run_recovery_runs_before_the_new_run_pass_in_the_same_tick() {
    let mut tick = Tick::new();
    assert_eq!(tick.stage, TickStage::Recovering);
    let listed =
        || TickEvent::Listed { spool: Some(vec!["s".to_string()]), backlog: None };
    tick.on_event(listed(), &default_params());
    assert_eq!(tick.stage, TickStage::Recovering, "no session before the recovery is done");
    tick.on_event(TickEvent::Recovered, &default_params());
    tick.on_event(listed(), &default_params());
    assert_eq!(tick.stage, TickStage::Importing);
}

#[test]
fn a_session_with_no_spool_directory_is_still_consolidated() {
    assert_eq!(sessions_to_visit(&None, &Some(vec!["only-backlog".to_string()])), ["only-backlog"]);
}

#[test]
fn each_session_is_evaluated_independently() {
    let mut tick = started(&["sess-quiet", "sess-stop"]);
    learn(&mut tick, Ok(NOTHING_SEEN), Some(QUIET));
    learn(
        &mut tick,
        Ok(ImportReport { saw_stop: true, saw_session_end: false }),
        Some(QUIET),
    );
    run(&mut tick, RunOutcome::Applied);
    assert_eq!(
        tick.results,
        vec![
            ("sess-quiet".to_string(), SessionTickOutcome::NoCheckpoint),
            ("sess-stop".to_string(), SessionTickOutcome::Ran(RunOutcome::Applied)),
        ]
    );
}

#[test]
fn log_session_tick_outcomes_reports_failures_but_stays_silent_on_routine_outcomes() {
    let results = vec![
        (
            "sess-fail".to_string(),
            SessionTickOutcome::Ran(RunOutcome::Failed("router refused".to_string())),
        ),
        ("sess-quiet".to_string(), SessionTickOutcome::NoCheckpoint),
        ("sess-done".to_string(), SessionTickOutcome::Ran(RunOutcome::Applied)),
        ("sess-busy".to_string(), SessionTickOutcome::SkippedExisting),
        ("sess-empty".to_string(), SessionTickOutcome::NothingPending),
        ("sess-open".to_string(), SessionTickOutcome::OpenFailed("locked".to_string())),
        ("sess-import".to_string(), SessionTickOutcome::ImportFailed("torn".to_string())),
    ];
    let logged = log_session_tick_outcomes(&results, &mut ReportedRuns::new());
    assert_eq!(
        logged,
        vec![
            Report::Error(
                "local-rag: consolidation run failed for session sess-fail: router refused"
                    .to_string()
            ),
            Report::Error(
                "local-rag: consolidation run-open failed for session sess-open: locked"
                    .to_string()
            ),
            Report::Warning(
                "local-rag: consolidation tail-import failed for session sess-import: torn"
                    .to_string()
            ),
        ],
        "a routine NoCheckpoint outcome must not be logged"
    );
}

#[test]
fn an_unconsolidatable_session_is_reported_once_not_every_tick() {
    let results = vec![(
        "sess-floor".to_string(),
        SessionTickOutcome::Unconsolidatable {
            from_received_seq: 7,
            to_received_seq: 7,
            dead_letter_run_id: "run-floor".to_string(),
        },
    )];

    let mut reported = ReportedRuns::new();
    let mut lines = Vec::new();
    for _ in 0..3 {
        lines.extend(log_session_tick_outcomes(&results, &mut reported));
    }

    assert_eq!(
        lines.len(),
        1,
        "a terminal state belongs in the log once per blocking run, not once per tick: {lines:?}"
    );
    match &lines[0] {
        Report::Error(line) => {
            assert!(line.contains("consolidation unconsolidatable"), "{line}");
            assert!(line.contains("run-floor"), "{line}");
            assert!(line.contains("received_seq 7..=7"), "{line}");
        }
        other => panic!("expected an error, got {other:?}"),
    }
}

#[test]
fn sessions_are_visited_once_and_in_order() {
    let spool = Some(vec!["b".to_string(), "a".to_string(), "b".to_string()]);
    let backlog = Some(vec!["c".to_string(), "a".to_string()]);
    assert_eq!(sessions_to_visit(&spool, &backlog), ["a", "b", "c"]);
    assert!(sessions_to_visit(&None, &None).is_empty());
}

#[test]
fn an_import_that_failed_is_told_and_the_other_sessions_go_on() {
    let torn = || Err("torn spool".to_string());
    let failed = SessionTickOutcome::ImportFailed("torn spool".to_string());

    let mut tick = started(&["sess-h"]);
    learn(&mut tick, torn(), None);
    assert_eq!(only(&tick), &failed);

    let mut tick = started(&["sess-h", "sess-i"]);
    learn(&mut tick, torn(), Some(SessionFacts { backlog: Some(49), ..QUIET }));
    assert_eq!(tick.session().map(String::as_str), Some("sess-i"));
    learn(&mut tick, Ok(NOTHING_SEEN), Some(QUIET));
    assert_eq!(tick.stage, TickStage::Finished);
    assert_eq!(
        tick.results,
        vec![
            ("sess-h".to_string(), failed),
            ("sess-i".to_string(), SessionTickOutcome::NoCheckpoint),
        ]
    );
    assert_eq!(
        log_session_tick_outcomes(&tick.results, &mut ReportedRuns::new()),
        vec![Report::Warning(
            "local-rag: consolidation tail-import failed for session sess-h: torn spool"
                .to_string()
        )]
    );
}

#[test]
fn after_a_failed_import_the_store_still_decides() {
    for facts in [
        SessionFacts { idle: Some(true), ..QUIET },
        SessionFacts { backlog: Some(50), ..QUIET },
        SessionFacts { unconsolidated_checkpoint: Some(true), ..QUIET },
    ] {
        let mut tick = started(&["sess-h"]);
        learn(&mut tick, Err("torn spool".to_string()), Some(facts));
        assert_eq!(tick.stage, TickStage::Opening);
    }
}

#[test]
fn a_run_that_cannot_be_opened_or_breaks_is_told_apart() {
    let stop = || Ok(ImportReport { saw_stop: true, saw_session_end: false });
    let params = default_params();

    let mut tick = started(&["s"]);
    learn(&mut tick, stop(), None);
    tick.on_event(TickEvent::Opened(Snapshot::Failed("locked".to_string())), &params);
    assert_eq!(only(&tick), &SessionTickOutcome::OpenFailed("locked".to_string()));

    let mut tick = started(&["s"]);
    learn(&mut tick, stop(), None);
    tick.on_event(TickEvent::Opened(Snapshot::NothingPending), &params);
    assert_eq!(only(&tick), &SessionTickOutcome::NothingPending);

    let mut tick = started(&["s"]);
    learn(&mut tick, stop(), None);
    tick.on_event(TickEvent::Opened(Snapshot::Opened), &params);
    tick.on_event(TickEvent::RunEnded(RunEnd::Broke("runner".to_string())), &params);
    assert_eq!(
        only(&tick),
        &SessionTickOutcome::Ran(RunOutcome::Failed("runner".to_string()))
    );
}

#[test]
fn a_job_is_held_only_while_something_runs() {
    let params = default_params();
    let mut tick = started(&["s"]);
    assert_eq!(tick.job(), Some(JobKind::SpoolImport));
    tick.on_event(
        TickEvent::Imported(Ok(ImportReport { saw_stop: true, saw_session_end: false })),
        &params,
    );
    assert_eq!(tick.job(), None);
    tick.on_event(TickEvent::FactsRead(None), &params);
    assert_eq!(tick.job(), Some(JobKind::ConsolidationTrigger));
}

#[test]
fn a_tick_without_sessions_is_finished() {
    let tick = started(&[]);
    assert_eq!(tick.stage, TickStage::Finished);
    assert_eq!(tick.session(), None);
}

#[test]
fn a_lease_lasts_from_now_and_a_timeout_does_not_overflow() {
    let params = default_params();
    assert_eq!(lease_until(1_000, &params), 61_000);
    let forever =
        ConsolidationTriggerParams { idle_checkpoint_hours: i64::MAX as u64, ..params };
    assert_eq!(idle_timeout_ms(&forever), i64::MAX);
}
