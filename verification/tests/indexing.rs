use local_rag::indexing::supervisor::{
    batch_end, drained, list_projects, on_event as supervise, plan_reload, reconcile_now,
    reload_outcome, unreadable_registry, LiveTask, ManagedWorktree, ReconcileNowError,
    ReloadOutcome, Start, StartResult, SupervisorAction, SupervisorEvent, WorkersDrained,
};
use local_rag::jobs::JobKind;
use local_rag::report::Report;
use local_rag::indexing::worktree_task::{
    advance_start, begin_cycle, cycle_duration, failure_report, finish_cycle, on_event,
    skip_report, started, CycleSkip, CycleStage, StageResult, StartStage, TaskAction, TaskEvent, WorktreeTaskStartError, WorktreeTaskStatus,
};

fn row(id: &str, enabled: bool) -> ManagedWorktree {
    ManagedWorktree { worktree_id: id.to_string(), enabled, registered_at: 1, updated_at: 2 }
}

fn ids(names: &[&str]) -> Vec<String> {
    names.iter().map(|s| s.to_string()).collect()
}

fn live(id: &str) -> LiveTask {
    LiveTask { worktree_id: id.to_string(), status: WorktreeTaskStatus::default() }
}

#[test]
fn a_reload_stops_what_is_stale_and_starts_what_is_missing() {
    let rows = vec![row("a", true), row("b", false), row("c", true), row("c", true)];
    let plan = plan_reload(&rows, &ids(&["a", "b", "gone"]));
    let mut stale = plan.stale.clone();
    stale.sort();
    assert_eq!(stale, ["b", "gone"]);
    assert_eq!(plan.missing, ["c"]);
}

#[test]
fn a_second_reload_finds_nothing_to_do() {
    let rows = vec![row("a", true), row("b", false)];
    let plan = plan_reload(&rows, &ids(&["a"]));
    assert!(plan.stale.is_empty() && plan.missing.is_empty());
    assert_eq!(ReloadOutcome::default(), ReloadOutcome { started: 0, stopped: 0 });
}

#[test]
fn tasks_are_started_two_at_a_time() {
    let missing = ids(&["a", "b", "c"]);
    assert_eq!(batch_end(&missing, 0), 2);
    assert_eq!(batch_end(&missing, 2), 3);
    assert_eq!(batch_end(&missing, 3), 3);
}

#[test]
fn projects_are_listed_with_the_status_of_their_tasks() {
    let mut task = live("a");
    task.status.consecutive_failures = 3;
    let listed = list_projects(Ok(vec![row("a", true), row("b", false)]), &vec![task]);
    assert_eq!(listed.len(), 2);
    assert_eq!(listed[0].worktree_id, "a");
    assert_eq!(listed[0].task.as_ref().unwrap().consecutive_failures, 3);
    assert_eq!(listed[1].task, None);
    assert!(!listed[1].enabled);
    assert!(list_projects(Err("locked".to_string()), &vec![]).is_empty());
}

#[test]
fn only_a_running_task_is_reconciled_on_demand() {
    let tasks = vec![live("a")];
    assert_eq!(reconcile_now(&tasks, "a"), Ok(()));
    assert_eq!(reconcile_now(&tasks, "b"), Err(ReconcileNowError::NotManaged));
    assert_eq!(
        supervise(&SupervisorEvent::TriggerNow { worktree_id: "a".to_string() }, &tasks),
        SupervisorAction::Trigger
    );
    assert_eq!(
        supervise(&SupervisorEvent::TriggerNow { worktree_id: "b".to_string() }, &tasks),
        SupervisorAction::RefuseTrigger
    );
}

#[test]
fn the_supervisor_reports_to_whoever_asked() {
    let none = vec![];
    assert_eq!(
        supervise(&SupervisorEvent::Reload, &none),
        SupervisorAction::Reconcile { report: true }
    );
    assert_eq!(
        supervise(&SupervisorEvent::Backstop, &none),
        SupervisorAction::Reconcile { report: false }
    );
    assert_eq!(supervise(&SupervisorEvent::ListProjects, &none), SupervisorAction::List);
    assert_eq!(
        supervise(&SupervisorEvent::Shutdown, &none),
        SupervisorAction::StopAll { report: true }
    );
    assert_eq!(
        supervise(&SupervisorEvent::CommandsClosed, &none),
        SupervisorAction::StopAll { report: false }
    );
    assert_eq!(drained(false), WorkersDrained::Yes);
    assert_eq!(drained(true), WorkersDrained::No);
}

#[test]
fn a_vanished_worktree_is_a_typed_start_error() {
    assert_eq!(
        advance_start(StartStage::LoadMeta, StageResult::Vanished),
        Err(WorktreeTaskStartError::WorktreeVanished)
    );
    assert_eq!(
        WorktreeTaskStartError::<String>::WorktreeVanished.message(),
        "the worktree vanished from the registry"
    );
}

#[test]
fn a_start_goes_stage_by_stage() {
    assert_eq!(
        advance_start(StartStage::BuildRuntime, StageResult::Done),
        Ok(StartStage::LoadMeta)
    );
    assert_eq!(
        advance_start(StartStage::LoadMeta, StageResult::Done),
        Ok(StartStage::StartWatcher)
    );
    assert_eq!(
        advance_start(StartStage::StartWatcher, StageResult::Done),
        Ok(StartStage::Running)
    );
    let failed = || StageResult::Failed("e".to_string());
    assert_eq!(
        advance_start(StartStage::BuildRuntime, failed()).unwrap_err().message(),
        "could not build the worktree task's runtime: e"
    );
    assert_eq!(
        advance_start(StartStage::LoadMeta, failed()).unwrap_err().message(),
        "could not load worktree metadata: e"
    );
    assert_eq!(
        advance_start(StartStage::StartWatcher, failed()).unwrap_err().message(),
        "could not start the filesystem watcher: e"
    );
    assert_eq!(started::<u8>(None), Err(WorktreeTaskStartError::ThreadPanicked));
    assert_eq!(started(Some(Ok(1))), Ok(1));
    assert_eq!(
        WorktreeTaskStartError::<String>::ThreadPanicked.message(),
        "the worktree task's background thread panicked during startup"
    );
}

fn published(id: &str) -> TaskEvent {
    TaskEvent::Published { generation_id: Some(id.to_string()) }
}

#[test]
fn repeated_triggers_over_an_unchanged_tree_build_one_generation() {
    let mut status = WorktreeTaskStatus::default();
    assert_eq!(on_event(&mut status, published("g1")), TaskAction::Project("g1".to_string()));
    assert_eq!(begin_cycle(&mut status, "g1", true, true, 10), None);
    finish_cycle(&mut status, "g1", 10, None);
    assert_eq!(on_event(&mut status, published("g1")), TaskAction::NothingNew("g1".to_string()));
    assert_eq!(on_event(&mut status, published("g2")), TaskAction::Project("g2".to_string()));
}

#[test]
fn in_progress_since_is_some_only_during_an_active_projection() {
    let mut status = WorktreeTaskStatus::default();
    assert_eq!(status.in_progress_since, None);
    begin_cycle(&mut status, "g1", true, true, 10);
    assert_eq!(status.in_progress_since, Some(10));
    let outcome = finish_cycle(&mut status, "g1", 10, None);
    assert_eq!(status.in_progress_since, None);
    assert_eq!(status.last_generation_id.as_deref(), Some("g1"));
    assert_eq!(status.last_success_ms, Some(10));
    assert_eq!(outcome.success.as_deref(), Some("g1"));
}

#[test]
fn a_failure_keeps_what_is_served_and_counts() {
    let mut status = WorktreeTaskStatus::default();
    begin_cycle(&mut status, "g1", true, true, 10);
    finish_cycle(&mut status, "g1", 10, None);
    begin_cycle(&mut status, "g2", true, true, 20);
    let outcome = finish_cycle(&mut status, "g2", 20, Some("disk".to_string()));
    assert_eq!(status.last_generation_id.as_deref(), Some("g1"));
    assert_eq!(status.consecutive_failures, 1);
    assert_eq!(outcome.success, None);
    assert_eq!(outcome.last_error.as_deref(), Some("disk"));
    assert_eq!(outcome.attempt_at, 20);
    assert_eq!(on_event(&mut status, published("g2")), TaskAction::Project("g2".to_string()));
}

#[test]
fn a_cycle_is_skipped_without_an_id_or_a_model() {
    let mut status = WorktreeTaskStatus::default();
    assert_eq!(begin_cycle(&mut status, "x", false, true, 10), Some(CycleSkip::NotAnId));
    assert_eq!(status.consecutive_failures, 1);
    assert_eq!(
        status.last_error.as_deref(),
        Some("internal error: generation id x is not a UUID")
    );
    assert_eq!(begin_cycle(&mut status, "x", true, false, 10), Some(CycleSkip::ModelMissing));
    assert_eq!(status.consecutive_failures, 1);
    assert_eq!(
        status.last_error.as_deref(),
        Some("embedding model not installed/opened yet; will retry on the next trigger")
    );
    assert_eq!(status.in_progress_since, None);
}

#[test]
fn a_task_that_stops_serves_what_was_published_last() {
    let mut status = WorktreeTaskStatus::default();
    let stop = |id: Option<&str>| TaskEvent::Stop { last_published: id.map(str::to_string) };
    assert_eq!(on_event(&mut status, stop(None)), TaskAction::End);
    assert_eq!(
        on_event(&mut status, stop(Some("g1"))),
        TaskAction::ProjectAndEnd("g1".to_string())
    );
    begin_cycle(&mut status, "g1", true, true, 10);
    finish_cycle(&mut status, "g1", 10, None);
    assert_eq!(on_event(&mut status, stop(Some("g1"))), TaskAction::End);
}

#[test]
fn a_reconcile_that_failed_shows_in_the_status() {
    let mut status = WorktreeTaskStatus::default();
    let failed =
        TaskEvent::ReconcileFailed { consecutive_failures: 4, last_error: "walk".to_string() };
    assert_eq!(on_event(&mut status, failed), TaskAction::Wait);
    assert_eq!(status.consecutive_failures, 4);
    assert_eq!(status.last_error.as_deref(), Some("walk"));
    assert_eq!(on_event(&mut status, TaskEvent::ChannelClosed), TaskAction::Wait);
}

#[test]
fn a_cycle_lasts_from_its_start_to_its_end() {
    assert_eq!(cycle_duration(10, 25), 15);
    assert_eq!(cycle_duration(i64::MIN, i64::MAX), i64::MAX);
    assert_eq!(cycle_duration(i64::MAX, i64::MIN), i64::MIN);
}

#[test]
fn a_cycle_stores_its_outcome_and_folds_the_log_whatever_fails() {
    let broken = Some("disk full".to_string());
    let mut stage = CycleStage::Projecting;
    assert_eq!(stage.job(), Some(JobKind::Reconcile));
    let (next, report) = stage.next("w", &broken);
    assert_eq!((next, report), (CycleStage::Persisting, None));
    stage = next;
    let (next, report) = stage.next("w", &broken);
    assert_eq!(next, CycleStage::Checkpointing);
    assert_eq!(
        report,
        Some(Report::Warning(
            "could not persist the indexing status (the index itself is unaffected) \
             worktree_id=w error=disk full"
                .to_string()
        ))
    );
    stage = next;
    assert_eq!(stage.job(), Some(JobKind::Reconcile));
    let (next, report) = stage.next("w", &broken);
    assert_eq!(next, CycleStage::Ended);
    assert_eq!(
        report,
        Some(Report::Warning(
            "wal checkpoint after indexing cycle failed worktree_id=w reason=disk full".to_string()
        ))
    );
    assert_eq!(next.job(), None);
    assert_eq!(next.next("w", &broken), (CycleStage::Ended, None));
    assert_eq!(CycleStage::Persisting.next("w", &None), (CycleStage::Checkpointing, None));
}

#[test]
fn nothing_that_goes_wrong_in_a_cycle_is_silent() {
    assert_eq!(
        skip_report(CycleSkip::NotAnId, "w", "x"),
        Report::Error(
            "indexing cycle skipped: generation id is not a UUID worktree_id=w generation_id=x"
                .to_string()
        )
    );
    assert_eq!(
        skip_report(CycleSkip::ModelMissing, "w", "g"),
        Report::Warning(
            "indexing cycle skipped: embedding model not installed or not openable yet \
             worktree_id=w generation_id=g"
                .to_string()
        )
    );
    let mut status = WorktreeTaskStatus::default();
    begin_cycle(&mut status, "g", true, true, 10);
    let failed = finish_cycle(&mut status, "g", 10, Some("no space".to_string()));
    assert_eq!(
        failure_report(&failed, "w", "g", cycle_duration(10, 35)),
        Some(Report::Warning(
            "indexing cycle failed worktree_id=w generation_id=g consecutive_failures=1 \
             duration_ms=25 reason=no space"
                .to_string()
        ))
    );
    let served = finish_cycle(&mut status, "g", 40, None);
    assert_eq!(failure_report(&served, "w", "g", 1), None);
}

#[test]
fn a_task_that_cannot_start_keeps_no_other_from_starting() {
    let start = |id: &str, result: StartResult| Start { worktree_id: id.to_string(), result };
    let starts = vec![
        start("a", StartResult::Started),
        start("b\"", StartResult::NotAnId),
        start("c", StartResult::Failed("gone".to_string())),
        start("d", StartResult::Panicked("boom".to_string())),
        start("e", StartResult::Started),
    ];
    let (outcome, lines) = reload_outcome(1, &starts);
    assert_eq!(outcome, ReloadOutcome { started: 2, stopped: 1 });
    assert_eq!(
        lines,
        [
            Report::Error(
                "local-rag: indexing supervisor: managed_worktree row \"b\\\"\" is not a valid \
                 worktree id"
                    .to_string()
            ),
            Report::Error(
                "local-rag: indexing supervisor could not start task for worktree c: gone"
                    .to_string()
            ),
            Report::Error(
                "local-rag: indexing supervisor's start call for worktree d panicked: boom"
                    .to_string()
            ),
        ]
    );

    let (outcome, line) = unreadable_registry("locked");
    assert_eq!(outcome, ReloadOutcome::default());
    assert_eq!(
        line,
        Report::Error(
            "local-rag: indexing supervisor could not read managed_worktree: locked".to_string()
        )
    );
}
