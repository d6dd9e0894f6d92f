use local_rag::gc::{payload_sweep_report, retention_sweep_failure, PayloadSweep};
use local_rag::jobs::{JobKind, JobRegistry};
use local_rag::normalization::boundary::{
    NormalizationStatus, Normalized, ScriptClass, TranslateFailureKind,
};
use local_rag::normalization::{
    consolidation_running, failure_row, install_outcome, install_plan, log_tick, AbortReason,
    Deference, EditResult, InstallOutcome, NormalizationParams, PendingEntry, RowDraft, Sweep, SweepEvent,
    SweepStage, TickReport, Yields, MAX_CONSECUTIVE_YIELDS,
};
use local_rag::report::Report;
use local_rag::vocabulary::Actor;

fn entry(id: &str, class: ScriptClass) -> PendingEntry {
    PendingEntry {
        memory_id: id.to_string(),
        text_sha256: format!("sha:{id}"),
        class,
        entry_version: 1,
        attempt_count: 0,
    }
}

fn english(id: &str) -> PendingEntry {
    entry(id, ScriptClass::English)
}

fn russian(id: &str) -> PendingEntry {
    entry(id, ScriptClass::NonLatin)
}

fn translated() -> SweepEvent {
    SweepEvent::Decided(Normalized::Translated {
        english: "e".to_string(),
        original: "o".to_string(),
        model_id: "m".to_string(),
    })
}

fn refused(kind: TranslateFailureKind) -> SweepEvent {
    SweepEvent::Decided(Normalized::Refused { reason: "because".to_string(), kind })
}

fn feed(sweep: &mut Sweep, event: SweepEvent) {
    sweep.on_event(event, &NormalizationParams::default(), Deference::Polite, false);
}

#[test]
fn the_defaults_are_what_a_tick_may_spend() {
    assert_eq!(
        NormalizationParams::default(),
        NormalizationParams { enabled: true, scan_limit: 512, translate_batch: 4 }
    );
    assert_eq!(MAX_CONSECUTIVE_YIELDS, 3);
}

#[test]
fn a_tick_that_is_switched_off_does_nothing() {
    let off = NormalizationParams { enabled: false, ..NormalizationParams::default() };
    let sweep = Sweep::new(&off);
    assert_eq!(sweep.stage, SweepStage::Finished);
    assert_eq!(sweep.report, TickReport::default());
}

#[test]
fn a_queue_that_cannot_be_read_ends_the_tick() {
    let mut sweep = Sweep::new(&NormalizationParams::default());
    feed(&mut sweep, SweepEvent::Read(Err("locked".to_string())));
    assert_eq!(sweep.stage, SweepStage::Finished);
    assert_eq!(
        sweep.report.aborted,
        Some(AbortReason::QueueUnavailable("locked".to_string()))
    );
}

#[test]
fn english_entries_are_settled_without_a_translator() {
    let mut sweep = Sweep::new(&NormalizationParams::default());
    feed(
        &mut sweep,
        SweepEvent::Read(Ok(vec![
            english("a"),
            entry("b", ScriptClass::Undetermined),
            english("c"),
        ])),
    );
    assert_eq!(sweep.stage, SweepStage::Settling);
    let rows = sweep.english_rows();
    assert_eq!(rows.len(), 3);
    assert_eq!(rows[1], RowDraft::english("b", "sha:b", ScriptClass::Undetermined));
    feed(&mut sweep, SweepEvent::Settled(Some(vec![true, false, true])));
    assert_eq!(sweep.stage, SweepStage::Finished);
    assert_eq!(sweep.report.examined, 3);
    assert_eq!(sweep.report.settled, 2);
    assert_eq!(sweep.report.deferred, 1);
}

#[test]
fn rows_that_could_not_be_written_are_deferred() {
    let mut sweep = Sweep::new(&NormalizationParams::default());
    feed(&mut sweep, SweepEvent::Read(Ok(vec![english("a"), english("b")])));
    feed(&mut sweep, SweepEvent::Settled(None));
    assert_eq!((sweep.report.settled, sweep.report.deferred), (0, 2));
}

#[test]
fn a_tick_translates_no_more_than_it_may() {
    let params = NormalizationParams { translate_batch: 2, ..NormalizationParams::default() };
    let mut sweep = Sweep::new(&params);
    let queue = vec![russian("a"), russian("b"), russian("c"), russian("d"), russian("e")];
    sweep.on_event(SweepEvent::Read(Ok(queue)), &params, Deference::Polite, false);
    assert_eq!(sweep.report.awaiting_translation, 3);
    assert_eq!(sweep.entry().unwrap().memory_id, "a");
    feed(&mut sweep, translated());
    assert_eq!(sweep.stage, SweepStage::Installing);
    feed(&mut sweep, SweepEvent::Installed(InstallOutcome::Installed));
    assert_eq!(sweep.entry().unwrap().memory_id, "b");
    feed(&mut sweep, translated());
    feed(&mut sweep, SweepEvent::Installed(InstallOutcome::Moved));
    assert_eq!(sweep.stage, SweepStage::Finished);
    let report = &sweep.report;
    assert_eq!(report.translated, 1);
    assert_eq!(report.deferred, 1);
    assert_eq!(
        report.examined,
        report.settled
            + report.translated
            + report.failed
            + report.deferred
            + report.awaiting_translation
    );
}

#[test]
fn a_polite_tick_leaves_the_model_to_consolidation_and_an_insistent_one_does_not() {
    let params = NormalizationParams::default();
    let queue = || SweepEvent::Read(Ok(vec![english("a"), russian("b")]));

    let mut polite = Sweep::new(&params);
    polite.on_event(queue(), &params, Deference::Polite, true);
    polite.on_event(SweepEvent::Settled(Some(vec![true])), &params, Deference::Polite, true);
    assert_eq!(polite.stage, SweepStage::Finished);
    assert!(polite.report.yielded_to_consolidation);
    assert_eq!(polite.report.settled, 1);
    assert_eq!(polite.report.awaiting_translation, 1);

    let mut insistent = Sweep::new(&params);
    insistent.on_event(queue(), &params, Deference::Insistent, true);
    insistent.on_event(SweepEvent::Settled(Some(vec![true])), &params, Deference::Insistent, true);
    assert_eq!(insistent.stage, SweepStage::Translating);
}

#[test]
fn a_missing_translator_ends_the_tick_and_blames_nobody() {
    let mut sweep = Sweep::new(&NormalizationParams::default());
    feed(&mut sweep, SweepEvent::Read(Ok(vec![russian("a"), russian("b")])));
    feed(&mut sweep, refused(TranslateFailureKind::Unavailable));
    assert_eq!(sweep.stage, SweepStage::Finished);
    assert_eq!(sweep.report.failed, 0);
    assert_eq!(sweep.report.aborted, Some(AbortReason::Unavailable("because".to_string())));
}

#[test]
fn a_refusal_is_recorded_and_a_second_opinion_settles() {
    let mut sweep = Sweep::new(&NormalizationParams::default());
    feed(&mut sweep, SweepEvent::Read(Ok(vec![russian("a"), russian("b"), russian("c")])));
    feed(&mut sweep, refused(TranslateFailureKind::Mechanical));
    assert_eq!(sweep.stage, SweepStage::RecordingFailure);
    feed(&mut sweep, SweepEvent::Recorded(Some(true)));
    feed(&mut sweep, refused(TranslateFailureKind::Transient));
    feed(&mut sweep, SweepEvent::Recorded(Some(false)));
    feed(
        &mut sweep,
        SweepEvent::Decided(Normalized::AlreadyEnglish { class: ScriptClass::Undetermined }),
    );
    assert_eq!(sweep.stage, SweepStage::RecordingEnglish);
    feed(&mut sweep, SweepEvent::Recorded(Some(false)));
    assert_eq!(sweep.stage, SweepStage::Finished);
    assert_eq!(
        (sweep.report.failed, sweep.report.deferred, sweep.report.settled),
        (1, 1, 1)
    );
}

#[test]
fn a_mechanical_refusal_gets_no_more_attempts() {
    let tried = PendingEntry { attempt_count: 2, ..russian("a") };
    let row = failure_row(&tried, TranslateFailureKind::Mechanical, "bad", 5, 1_000, 300);
    assert_eq!(row.status, NormalizationStatus::Failed);
    assert_eq!((row.attempt_count, row.next_attempt_at), (5, None));
    let row = failure_row(&tried, TranslateFailureKind::Transient, "bad", 5, 1_000, 300);
    assert_eq!((row.attempt_count, row.next_attempt_at), (3, Some(1_300)));
    assert_eq!(row.last_error.as_deref(), Some("bad"));
    let write = row.as_write(9);
    assert_eq!(write.expected_text_sha256, "sha:a");
    assert_eq!(write.canon_text_sha256, "sha:a");
    assert_eq!(write.normalizer_version, 9);
    assert_eq!(write.source_text, None);
}

#[test]
fn storing_a_translation_ends_in_one_of_three_ways() {
    assert_eq!(install_outcome(EditResult::Applied), InstallOutcome::Installed);
    assert_eq!(install_outcome(EditResult::OptimisticConflict), InstallOutcome::Moved);
    assert_eq!(
        install_outcome(EditResult::Refused("terminal".to_string())),
        InstallOutcome::Failed("terminal".to_string())
    );
    assert_eq!(
        install_outcome(EditResult::WriteFailed("disk".to_string())),
        InstallOutcome::Failed("disk".to_string())
    );
}

#[test]
fn consolidation_cannot_keep_the_model_forever() {
    let yielded = TickReport { yielded_to_consolidation: true, ..TickReport::default() };
    let mut yields = Yields::new();
    for _ in 0..3 {
        assert_eq!(yields.deference(), Deference::Polite);
        yields.note(&yielded);
    }
    assert_eq!(yields.deference(), Deference::Insistent);
    yields.note(&TickReport::default());
    assert_eq!(yields.deference(), Deference::Polite);
}

#[test]
fn only_consolidation_counts_as_using_the_model() {
    let mut jobs = JobRegistry::new();
    let _gc = jobs.begin(JobKind::Gc);
    assert!(!consolidation_running(&jobs));
    let resume = jobs.begin(JobKind::ConsolidationResume);
    assert!(consolidation_running(&jobs));
    jobs.finish(resume);
    assert!(!consolidation_running(&jobs));
    let _trigger = jobs.begin(JobKind::ConsolidationTrigger);
    assert!(consolidation_running(&jobs));
}

#[test]
fn a_standing_condition_is_reported_when_it_changes() {
    let mut last = None;
    let missing = TickReport {
        aborted: Some(AbortReason::Unavailable("no model".to_string())),
        ..TickReport::default()
    };
    let lines = log_tick(&missing, &mut last);
    assert_eq!(
        lines,
        vec![Report::Warning(
            "local-rag: memory normalization has no usable translator, so entries keep the \
             language they were written in: no model"
                .to_string()
        )]
    );
    assert!(log_tick(&missing, &mut last).is_empty());
    let unreadable = TickReport {
        aborted: Some(AbortReason::QueueUnavailable("locked".to_string())),
        ..TickReport::default()
    };
    assert_eq!(
        log_tick(&unreadable, &mut last),
        vec![Report::Error(
            "local-rag: memory normalization could not read its queue: locked".to_string()
        )]
    );
    assert_eq!(
        log_tick(&TickReport::default(), &mut last),
        vec![Report::Info("local-rag: memory normalization resumed".to_string())]
    );
    assert!(log_tick(&TickReport::default(), &mut last).is_empty());
}

#[test]
fn a_tick_that_did_something_is_reported_in_numbers() {
    let report = TickReport {
        examined: 9,
        settled: 4,
        translated: 2,
        failed: 1,
        awaiting_translation: 1,
        deferred: 1,
        ..TickReport::default()
    };
    assert_eq!(
        log_tick(&report, &mut None),
        vec![Report::Info(
            "local-rag: memory normalization tick — examined 9, settled 4, translated 2, \
             failed 1, awaiting translation 1, deferred 1"
                .to_string()
        )]
    );
}

#[test]
fn a_sweep_that_found_nothing_overdue_is_not_reported() {
    let sweep =
        |removed| PayloadSweep { payload_removed: removed, payload_retained: 5, total_envelopes: 7 };
    assert_eq!(payload_sweep_report(&Ok(sweep(0))), None);
    match payload_sweep_report(&Ok(sweep(2))) {
        Some(Report::Info(line)) => {
            assert!(line.contains("payload_removed=2"), "{line}");
            assert!(line.contains("total_envelopes=7"), "{line}");
        }
        other => panic!("expected a report, got {other:?}"),
    }
    assert!(matches!(
        payload_sweep_report(&Err("disk".to_string())),
        Some(Report::Warning(line)) if line.contains("will retry on next tick")
    ));
    assert!(matches!(
        retention_sweep_failure("disk"),
        Report::Warning(line) if line.contains("will retry on next start")
    ));
}

#[test]
fn a_translation_is_installed_by_the_daemon_itself() {
    let decided = Normalized::Translated {
        english: "always".to_string(),
        original: "всегда".to_string(),
        model_id: "m".to_string(),
    };
    let read = PendingEntry { entry_version: 6, ..russian("a") };
    let plan = install_plan(&read, "всегда", decided, "sha:always", 4);
    assert_eq!((plan.memory_id.as_str(), plan.expected_version), ("a", 6));
    assert_eq!(plan.text.as_deref(), Some("always"));
    assert_eq!(plan.importance, None);
    assert_eq!(plan.actor, Actor::System);
    assert_eq!(plan.idempotency_key, None);
    let row = plan.row.expect("a row is stored beside it");
    assert_eq!(row.canon_text_sha256, "sha:always");
    assert_eq!(row.source_text.as_deref(), Some("всегда"));
}

#[test]
fn a_tick_translates_and_refuses_no_more_than_it_may() {
    let params = NormalizationParams { translate_batch: 2, ..NormalizationParams::default() };
    let mut sweep = Sweep::new(&params);
    let events = vec![
        SweepEvent::Read(Ok(vec![russian("a"), russian("b"), russian("c")])),
        translated(),
        SweepEvent::Installed(InstallOutcome::Installed),
        refused(TranslateFailureKind::Mechanical),
        SweepEvent::Recorded(Some(true)),
        translated(),
        SweepEvent::Installed(InstallOutcome::Installed),
    ];
    for event in events {
        sweep.on_event(event, &params, Deference::Polite, false);
        assert!(sweep.report.translated + sweep.report.failed <= 2);
    }
    assert_eq!(sweep.stage, SweepStage::Finished);
    assert_eq!((sweep.report.translated, sweep.report.failed), (1, 1));
    assert_eq!(sweep.report.awaiting_translation, 1);

    let mut yielding = Sweep::new(&params);
    let read = SweepEvent::Read(Ok(vec![russian("a"), russian("b")]));
    yielding.on_event(read, &params, Deference::Polite, true);
    yielding.on_event(translated(), &params, Deference::Polite, true);
    assert!(yielding.report.yielded_to_consolidation);
    assert_eq!((yielding.report.translated, yielding.report.failed), (0, 0));
}
