use local_rag::failure::Failure;
use local_rag::json::{parse_json, Json, Number};
use local_rag::mcp::reply::ToolReply;
use local_rag::mcp::stats::{
    eta_is_known, progress_is_known, stats_result, throughput_since, CandidateCount, Estimates,
    MemoryCount, Projection, RunCount, StatsContext, StatsReads, StuckRun, ToolCallCount,
    WriteQueue,
};
use local_rag::scope::Resolution;
use local_rag::vocabulary::{CandidateState, MemoryKind, MemoryState};

fn number(text: &str) -> Number {
    match parse_json(text) {
        Some(Json::Num(n)) => n,
        other => panic!("expected a number, got {other:?}"),
    }
}

fn reads() -> StatsReads {
    StatsReads {
        entry_counts: Ok(vec![MemoryCount {
            kind: MemoryKind::Fact,
            state: MemoryState::Active,
            count: 3,
        }]),
        candidate_counts: Ok(vec![CandidateCount { state: CandidateState::Pending, count: 2 }]),
        observations: Ok(10),
        run_counts: Ok(vec![RunCount { state: "applied".to_string(), count: 4 }]),
        backlog: Ok(5),
        applied_recently: Ok(6),
        oldest_open_run: Ok(Some(77)),
        stuck_runs: Ok(vec![StuckRun {
            run_id: "run".to_string(),
            session_id: "s".to_string(),
            attempt_count: 1,
            dead_lettered: true,
            last_failure_kind: None,
            last_failure_reason: Some("overflow".to_string()),
            from_received_seq: 1,
            to_received_seq: 1,
        }]),
        resolution: Ok(Resolution::Resolved {
            repo_id: "repo".to_string(),
            worktree_id: "wt".to_string(),
        }),
        projection: Ok(Some(Projection {
            active_generation_id: Some("gen".to_string()),
            active_model_space_id: None,
            status: "ready".to_string(),
            last_error: None,
        })),
        store_instance_uuid: Ok(Some("uuid".to_string())),
    }
}

fn context() -> StatsContext {
    StatsContext {
        scope_label: "repository".to_string(),
        state_queue: WriteQueue { capacity: 8, available: 7 },
        cache_queue: WriteQueue { capacity: 4, available: 4 },
        session_calls: vec![ToolCallCount { name: "recall".to_string(), count: 1 }],
        all_calls: vec![ToolCallCount { name: "recall".to_string(), count: 9 }],
    }
}

fn estimates() -> Estimates {
    Estimates {
        progress_pct: number("50.0"),
        throughput_observations_per_min: number("1.2"),
        eta_seconds: 250,
    }
}

#[test]
fn stats_report_what_was_read() {
    let text = match stats_result(&reads(), &estimates(), &context()) {
        ToolReply::Success(value) => value.to_text(),
        other => panic!("expected a success, got {other:?}"),
    };
    for part in [
        r#"{"kind":"fact","state":"active","count":3}"#,
        r#"{"state":"pending","count":2}"#,
        r#""run_id":"run""#,
        r#""active_generation_id":"gen""#,
        r#"{"capacity":8,"available":7}"#,
        "250",
        "50.0",
        "\"uuid\"",
    ] {
        assert!(text.contains(part), "{part} is not in {text}");
    }
}

#[test]
fn the_first_read_that_fails_is_the_answer() {
    let mut broken = reads();
    broken.backlog = Err("backlog".to_string());
    broken.store_instance_uuid = Err("uuid".to_string());
    assert_eq!(
        stats_result(&broken, &estimates(), &context()),
        ToolReply::Failed(Failure::IndexUnavailable { details: "backlog".to_string() })
    );
}

#[test]
fn a_projection_counts_only_where_there_is_a_worktree() {
    let mut unresolved = reads();
    unresolved.resolution = Ok(Resolution::GlobalOnly);
    unresolved.projection = Err("not asked".to_string());
    assert!(matches!(
        stats_result(&unresolved, &estimates(), &context()),
        ToolReply::Success(_)
    ));
}

#[test]
fn an_estimate_needs_something_to_go_by() {
    assert!(progress_is_known(1) && !progress_is_known(0));
    assert!(eta_is_known(1, 1) && !eta_is_known(0, 1) && !eta_is_known(1, 0));
    assert_eq!(throughput_since(1_000_000), 700_000);
    let mut idle = reads();
    idle.observations = Ok(0);
    idle.backlog = Ok(0);
    let text = match stats_result(&idle, &estimates(), &context()) {
        ToolReply::Success(value) => value.to_text(),
        other => panic!("expected a success, got {other:?}"),
    };
    assert!(!text.contains("250"), "{text}");
}
