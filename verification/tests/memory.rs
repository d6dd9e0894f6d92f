use local_rag::failure::Failure;
use local_rag::json::{parse_json, Json, JsonList, JsonMap, Number};
use local_rag::mcp::memory::{
    dense_degraded_label, filter_scopes, health_result, inspect_result, list_candidates_result,
    list_memory_result, parse_inspect_memory_evidence, parse_list_candidates, parse_list_memory,
    parse_recall, recall_result, CandidateRow, DenseLegUnavailable, MemoryEntry, RecallEntry,
    RecallOutcome,
};
use local_rag::mcp::reply::ToolReply;
use local_rag::mode::DaemonMode;
use local_rag::vocabulary::{CandidateState, MemoryKind, MemoryState, ScopeKind};

fn half() -> Number {
    match parse_json("0.5") {
        Some(Json::Num(n)) => n,
        other => panic!("expected a number, got {other:?}"),
    }
}

fn value(reply: ToolReply) -> Json {
    match reply {
        ToolReply::Success(value) => value,
        other => panic!("expected a success, got {other:?}"),
    }
}

fn unavailable(details: &str) -> ToolReply {
    ToolReply::Failed(Failure::IndexUnavailable { details: details.to_string() })
}

#[test]
fn a_recall_may_have_no_query() {
    let recall = parse_recall(&JsonMap::new()).unwrap();
    assert_eq!((recall.query.as_str(), recall.limit), ("", 10));
    let args = JsonMap::new().with("query", Json::string("x")).with("limit", Json::integer(50));
    assert_eq!(parse_recall(&args).unwrap().limit, 50);
    assert!(parse_recall(&JsonMap::new().with("limit", Json::integer(51))).is_err());
    assert!(parse_recall(&JsonMap::new().with("limit", Json::integer(0))).is_err());
}

#[test]
fn a_limit_bounds_the_entries_of_a_recall_and_nothing_else() {
    let entry = |id: &str| RecallEntry {
        memory_id: id.to_string(),
        kind: MemoryKind::Fact,
        state: MemoryState::Active,
        confidence: half(),
        text: "t".to_string(),
    };
    let outcome = RecallOutcome {
        scope_label: "global".to_string(),
        additional_context: "ctx".to_string(),
        entries: vec![entry("a"), entry("b")],
        candidate_count: 7,
        truncated: false,
        dense_degraded: Some(DenseLegUnavailable::NoRepresentation),
    };
    assert_eq!(
        recall_result(&outcome, 1).to_text(),
        r#"{"scope":"global","additional_context":"ctx","entries":[{"memory_id":"a","kind":"fact","state":"active","confidence":0.5,"text":"t"}],"candidate_count":7,"truncated":false,"dense_degraded":"no_representation"}"#
    );
}

#[test]
fn a_missing_vector_leg_is_labelled() {
    assert_eq!(
        dense_degraded_label(&DenseLegUnavailable::EmbedFailed { reason: "down".to_string() }),
        "embed_failed: down"
    );
    assert_eq!(
        dense_degraded_label(&DenseLegUnavailable::DimensionMismatch { expected: 3, got: 4 }),
        "dimension_mismatch: expected 3 got 4"
    );
}

fn stored(id: &str, created_at: i64) -> MemoryEntry {
    MemoryEntry {
        memory_id: id.to_string(),
        kind: MemoryKind::Decision,
        state: MemoryState::Active,
        text: "t".to_string(),
        canonical_key: None,
        scope_kind: ScopeKind::Global,
        scope_owner_id: "global".to_string(),
        confidence: half(),
        importance: half(),
        valid_from_tree: None,
        last_verified_tree: None,
        supersedes_id: None,
        entry_version: 1,
        created_at,
        updated_at: created_at,
    }
}

fn listed(rows: Vec<MemoryEntry>, limit: i64, offset: i64) -> (Vec<String>, bool) {
    let text = list_memory_result("global", rows, limit, offset).to_text();
    let parsed: serde_json::Value = serde_json::from_str(&text).unwrap();
    let ids = parsed["entries"]
        .as_array()
        .unwrap()
        .iter()
        .map(|e| e["memory_id"].as_str().unwrap().to_string())
        .collect();
    (ids, parsed["has_more"].as_bool().unwrap())
}

#[test]
fn a_listing_is_ordered_and_paged() {
    let rows = || vec![stored("b", 5), stored("c", 9), stored("a", 5)];
    let (all, more) = listed(rows(), 10, 0);
    assert_eq!(all.len(), 3);
    assert!(!more);
    let (first, more) = listed(rows(), 2, 0);
    assert!(more);
    let (second, more) = listed(rows(), 2, 2);
    assert!(!more);
    assert_eq!([first, second].concat(), all);
    assert_eq!(listed(rows(), 2, 9), (vec![], false));
}

#[test]
fn a_listing_has_its_filters() {
    let all = parse_list_memory(&JsonMap::new()).unwrap();
    assert_eq!((all.kind, all.state, all.scope), (None, None, None));
    assert_eq!((all.limit, all.offset), (20, 0));
    let args = JsonMap::new()
        .with("kind", Json::string("decision"))
        .with("state", Json::string("active"))
        .with("scope", Json::string("worktree"))
        .with("limit", Json::integer(100))
        .with("offset", Json::integer(3));
    let some = parse_list_memory(&args).unwrap();
    assert_eq!(some.kind, Some(MemoryKind::Decision));
    assert_eq!(some.scope, Some(ScopeKind::Worktree));
    assert_eq!((some.limit, some.offset), (100, 3));
    assert!(parse_list_memory(&JsonMap::new().with("kind", Json::string("rumour"))).is_err());
    assert!(parse_list_memory(&JsonMap::new().with("offset", Json::integer(-1))).is_err());

    let scopes = || {
        vec![
            (ScopeKind::Global, "global".to_string()),
            (ScopeKind::Repository, "r".to_string()),
        ]
    };
    assert_eq!(filter_scopes(scopes(), None).len(), 2);
    assert_eq!(
        filter_scopes(scopes(), Some(ScopeKind::Repository)),
        vec![(ScopeKind::Repository, "r".to_string())]
    );
}

fn candidate(id: &str, conflicts: Option<&str>) -> CandidateRow {
    CandidateRow {
        candidate_id: id.to_string(),
        proposed_operation: Ok(JsonMap::new().with("op", Json::string("create")).json()),
        conflicts: conflicts.map(str::to_string),
        review_state: CandidateState::Pending,
        created_at: 4,
    }
}

#[test]
fn candidates_are_listed_with_their_conflicts() {
    let request = parse_list_candidates(&JsonMap::new()).unwrap();
    assert_eq!(request.fetch_limit(), 21);
    let rows = vec![candidate("a", Some(r#"["m1","m2"]"#)), candidate("b", None)];
    let text = value(list_candidates_result(&rows, 1)).to_text();
    assert!(text.contains(r#"["m1","m2"]"#), "{text}");
    assert!(text.contains("\"has_more\":true"), "{text}");
    assert!(!text.contains("\"b\""), "{text}");
}

#[test]
fn a_candidate_that_cannot_be_read_spoils_the_listing() {
    match list_candidates_result(&vec![candidate("a", Some("not json"))], 5) {
        ToolReply::Failed(Failure::IndexUnavailable { .. }) => {}
        other => panic!("expected an unreadable store, got {other:?}"),
    }
    let mut broken = candidate("a", None);
    broken.proposed_operation = Err("torn".to_string());
    assert_eq!(
        list_candidates_result(&vec![broken], 5),
        unavailable("corrupt proposed_operation for candidate a: torn")
    );
}

#[test]
fn evidence_is_named_by_the_entry_it_stands_for() {
    let args = JsonMap::new().with("memory_id", Json::string("m1"));
    let named = parse_inspect_memory_evidence(&args).unwrap();
    assert_eq!(named, "m1");
    let reply = inspect_result("m1", Ok(vec!["o1".to_string()]));
    let text = value(reply).to_text();
    assert!(text.contains("\"m1\"") && text.contains("[\"o1\"]"), "{text}");
    assert_eq!(inspect_result("m1", Err("disk".to_string())), unavailable("disk"));
}

#[test]
fn health_names_the_mode_the_version_and_the_store() {
    let text =
        value(health_result(&DaemonMode::Normal, "1.2.3", Ok(Some("uuid".to_string())))).to_text();
    for part in ["\"normal\"", "\"1.2.3\"", "\"uuid\""] {
        assert!(text.contains(part), "{text}");
    }
    assert_eq!(
        health_result(&DaemonMode::Normal, "1.2.3", Err("disk".to_string())),
        unavailable("disk")
    );
}

#[test]
fn an_empty_list_is_an_empty_array() {
    assert_eq!(JsonList::new().json().to_text(), "[]");
    assert_eq!(JsonList::new().with_str("x").json().to_text(), "[\"x\"]");
}
