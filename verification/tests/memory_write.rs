use local_rag::failure::Failure;
use local_rag::json::{parse_json, Json, JsonMap};
use local_rag::mcp::memory_write::{
    approve_result, change_result, feedback_envelope, feedback_result, idempotency_key,
    memory_op_error_envelope, parse_edit_candidate, parse_edit_memory, parse_feedback, parse_id,
    parse_merge, parse_remember, parse_versioned, patched_operation, plan_change, plan_edit,
    plan_merge, plan_remember, remember_result, request_id_string, review_error_envelope, review_result, text_to_store,
    ApproveOutcome, MemoryOpError, MemoryOpOutcome, MemoryOpResult, ReviewError,
};
use local_rag::mcp::reply::ToolReply;
use local_rag::normalization::boundary::{NormalizationStatus, Normalized, ScriptClass};
use local_rag::scope::{resolve_write_scope, Resolution};
use local_rag::vocabulary::{
    Actor, EvidenceKind, MemoryKind, ScopeKind, Signal, TrustLevel,
};

fn args(text: &str) -> JsonMap {
    match parse_json(text) {
        Some(Json::Obj(map)) => map,
        other => panic!("expected an object, got {other:?}"),
    }
}

fn value(reply: ToolReply) -> String {
    match reply {
        ToolReply::Success(value) => value.to_text(),
        other => panic!("expected a success, got {other:?}"),
    }
}

fn done() -> MemoryOpResult {
    MemoryOpResult { memory_id: "m1".to_string(), entry_version: 2, audit_id: 9 }
}

fn translated() -> Normalized {
    Normalized::Translated {
        english: "always".to_string(),
        original: "всегда".to_string(),
        model_id: "model".to_string(),
    }
}

#[test]
fn remembering_has_its_defaults() {
    let request = parse_remember(&args(r#"{"text":"t","kind":"fact"}"#)).unwrap();
    assert_eq!(request.text, "t");
    assert_eq!(request.kind, MemoryKind::Fact);
    assert_eq!(request.scope, None);
    assert_eq!(request.importance, Signal::Medium);
    assert!(!request.confirmed_by_user);
    assert!(parse_remember(&args(r#"{"text":"t"}"#)).is_err());
    assert!(parse_remember(&args(r#"{"kind":"fact"}"#)).is_err());
    assert!(parse_remember(&args(r#"{"text":"t","kind":"fact","extra":1}"#)).is_err());
}

#[test]
fn an_entry_is_stored_in_english_beside_the_authors_words() {
    let request =
        parse_remember(&args(r#"{"text":"всегда","kind":"fact","confirmed_by_user":true}"#)).unwrap();
    let scope = resolve_write_scope(&Resolution::GlobalOnly, None).unwrap();
    let stored = text_to_store(&request.text, &Some(translated()));
    assert_eq!(stored, "always");
    let plan = plan_remember(request, &scope, "m1", "key", Some(translated()), "sha", 4);
    assert_eq!(plan.text, "always");
    assert_eq!(plan.scope_kind, ScopeKind::Global);
    assert_eq!(plan.confidence, Signal::High);
    assert_eq!(plan.actor, Actor::User);
    assert!(plan.evidence.is_empty());
    assert_eq!((&plan.valid_from_tree, &plan.last_verified_tree), (&None, &None));
    assert_eq!(plan.idempotency_key, "key");
    let row = plan.row.expect("a row is stored beside it");
    assert_eq!(row.status, NormalizationStatus::Translated);
    assert_eq!(row.source_text.as_deref(), Some("всегда"));
}

#[test]
fn a_replay_is_not_decided_again() {
    let request = parse_remember(&args(r#"{"text":"всегда","kind":"fact"}"#)).unwrap();
    let scope = resolve_write_scope(&Resolution::GlobalOnly, None).unwrap();
    let plan = plan_remember(request, &scope, "m1", "key", None, "sha", 4);
    assert_eq!(plan.text, "всегда");
    assert_eq!(plan.row, None);
    assert_eq!(plan.confidence, Signal::Medium);
    assert_eq!(plan.actor, Actor::User);
}

#[test]
fn remembering_tells_where_the_entry_landed() {
    let scope = resolve_write_scope(&Resolution::GlobalOnly, None).unwrap();
    let text = value(remember_result(Ok(Ok(MemoryOpOutcome::Applied(done()))), &scope));
    assert!(
        text.starts_with(
            r#"{"memory_id":"m1","entry_version":2,"audit_id":9,"outcome":"applied","scope":"global","degraded":"worktree_not_indexed","hint":"#
        ),
        "{text}"
    );
    let asked = resolve_write_scope(&Resolution::GlobalOnly, Some(ScopeKind::Global)).unwrap();
    assert_eq!(
        value(remember_result(Ok(Ok(MemoryOpOutcome::Replayed(done()))), &asked)),
        r#"{"memory_id":"m1","entry_version":2,"audit_id":9,"outcome":"replayed","scope":"global"}"#
    );
}

#[test]
fn a_key_names_one_request() {
    assert_eq!(idempotency_key("s", &Json::integer(4)), "mcp-remember:s:4");
    assert_eq!(idempotency_key("s", &Json::string("a")), "mcp-remember:s:a");
    assert_eq!(request_id_string(&Json::Null), "null");
}

#[test]
fn a_change_is_made_refused_or_lost() {
    assert_eq!(
        value(change_result(Ok(Ok(MemoryOpOutcome::Applied(done()))))),
        r#"{"memory_id":"m1","entry_version":2,"audit_id":9,"outcome":"applied"}"#
    );
    assert_eq!(
        change_result(Ok(Err(MemoryOpError::UnknownMemory))),
        ToolReply::Failed(Failure::UnknownMemory)
    );
    assert_eq!(
        change_result(Err("disk".to_string())),
        ToolReply::Failed(Failure::IndexUnavailable { details: "disk".to_string() })
    );
}

#[test]
fn every_refusal_has_its_own_failure() {
    let m = || "m".to_string();
    let refusals = [
        (MemoryOpError::UnknownMemory, Failure::UnknownMemory),
        (
            MemoryOpError::OptimisticConflict { expected: 1, actual: 2 },
            Failure::OptimisticConflict { expected: 1, actual: 2 },
        ),
        (MemoryOpError::CanonicalKeyConflict, Failure::CanonicalKeyConflict),
        (MemoryOpError::InvalidGlobalScopeOwner, Failure::InvalidGlobalScopeOwner),
        (
            MemoryOpError::IllegalTransition { message: m() },
            Failure::IllegalMemoryTransition { details: m() },
        ),
        (MemoryOpError::EntryTerminal, Failure::EntryTerminal),
        (MemoryOpError::IncompatibleScope, Failure::IncompatibleScope),
        (MemoryOpError::EmptyMergeSet, Failure::EmptyMergeSet),
        (MemoryOpError::ModelClaimOnlyProvenance, Failure::ModelClaimOnlyProvenance),
    ];
    for (refusal, failure) in refusals {
        assert_eq!(memory_op_error_envelope(&refusal), failure);
        assert_eq!(review_error_envelope(&ReviewError::Materialization(refusal)), failure);
    }
    assert_eq!(review_error_envelope(&ReviewError::UnknownCandidate), Failure::UnknownCandidate);
    assert_eq!(review_error_envelope(&ReviewError::NotPending), Failure::CandidateNotPending);
    assert_eq!(
        review_error_envelope(&ReviewError::IllegalTransition { message: m() }),
        Failure::IllegalCandidateTransition { details: m() }
    );
    assert_eq!(
        review_error_envelope(&ReviewError::InvalidProposedOperation { details: m() }),
        Failure::InvalidProposedOperation { details: m() }
    );
}

#[test]
fn a_candidate_is_approved_rejected_or_edited() {
    assert_eq!(parse_id(&args(r#"{"id":"c1"}"#)).unwrap(), "c1");
    assert!(parse_id(&args("{}")).is_err());
    assert_eq!(
        value(approve_result(Ok(Ok(ApproveOutcome::AlreadyApproved)))),
        r#"{"outcome":"already_approved"}"#
    );
    assert_eq!(
        value(approve_result(Ok(Ok(ApproveOutcome::Materialized(MemoryOpOutcome::Applied(
            done()
        )))))),
        r#"{"memory_id":"m1","entry_version":2,"audit_id":9,"outcome":"applied"}"#
    );
    assert_eq!(value(review_result("c1", Ok(Ok(())))), r#"{"id":"c1"}"#);
    assert_eq!(
        review_result("c1", Ok(Err(ReviewError::NotPending))),
        ToolReply::Failed(Failure::CandidateNotPending)
    );

    let edit = args(r#"{"id":"c1","patch":{"proposed_operation":{"op":"create"},"conflicts":["m1"]}}"#);
    assert!(patched_operation(&edit).is_some());
    let parsed = parse_edit_candidate(&edit, None).unwrap();
    assert_eq!(parsed.conflicts, Some(vec!["m1".to_string()]));
    assert!(parse_edit_candidate(&edit, Some("not an operation")).is_err());
    assert!(parse_edit_candidate(&args(r#"{"id":"c1","patch":{"other":1}}"#), None).is_err());
    assert!(parse_edit_candidate(&args(r#"{"id":"c1"}"#), None).is_err());
}

#[test]
fn an_edit_changes_text_or_importance() {
    let edit =
        parse_edit_memory(&args(r#"{"id":"m1","expected_version":3,"patch":{"text":"всегда"}}"#))
            .unwrap();
    assert_eq!(edit.expected_version, 3);
    assert_eq!(edit.text.as_deref(), Some("всегда"));
    let plan = plan_edit(edit, Some(translated()), "sha", 4);
    assert_eq!(plan.text.as_deref(), Some("always"));
    assert!(plan.row.is_some());
    assert_eq!(plan.actor, Actor::User);
    assert_eq!(plan.idempotency_key, None);

    let within = |n: &str| {
        parse_edit_memory(&args(&format!(
            r#"{{"id":"m1","expected_version":3,"patch":{{"importance":{n}}}}}"#
        )))
    };
    for n in ["0", "1", "0.25", "1.0", "0.0"] {
        assert!(within(n).is_ok(), "{n}");
    }
    for n in ["2", "-1", "1.5", "-0.5"] {
        assert!(within(n).is_err(), "{n}");
    }
}

#[test]
fn an_entry_is_named_with_its_version() {
    let entry = parse_versioned(&args(r#"{"id":"m1","expected_version":3}"#)).unwrap();
    assert_eq!((entry.id.as_str(), entry.expected_version), ("m1", 3));
    let plan = plan_change(entry);
    assert_eq!((plan.memory_id.as_str(), plan.expected_version), ("m1", 3));
    assert_eq!(plan.actor, Actor::User);
    assert!(plan.evidence.is_empty());
    assert_eq!(plan.idempotency_key, None);
    assert!(parse_versioned(&args(r#"{"id":"m1"}"#)).is_err());
    assert!(parse_versioned(&args(r#"{"id":"m1","expected_version":1.5}"#)).is_err());
}

#[test]
fn a_merge_keeps_one_of_its_entries() {
    let merge = parse_merge(&args(
        r#"{"ids":[{"memory_id":"a","expected_version":1},{"memory_id":"b","expected_version":2}],"survivor_id":"b"}"#,
    ))
    .unwrap();
    assert_eq!(merge.survivor_id, "b");
    assert_eq!(merge.survivor_expected_version, 2);
    assert_eq!(merge.losers, vec![("a".to_string(), 1)]);
    let plan = plan_merge(merge);
    assert_eq!((plan.survivor_id.as_str(), plan.survivor_expected_version), ("b", 2));
    assert_eq!(plan.losers, vec![("a".to_string(), 1)]);
    assert_eq!(plan.actor, Actor::User);
    assert_eq!(plan.idempotency_key, None);

    let err = parse_merge(&args(
        r#"{"ids":[{"memory_id":"a","expected_version":1},{"memory_id":"b","expected_version":2}],"survivor_id":"z"}"#,
    ))
    .unwrap_err();
    assert_eq!(err, "survivor_id \"z\" must be present in ids");
    assert!(parse_merge(&args(
        r#"{"ids":[{"memory_id":"a","expected_version":1}],"survivor_id":"a"}"#
    ))
    .is_err());
}

#[test]
fn feedback_is_recognized_when_it_is_sent_again() {
    assert_eq!(parse_feedback(&args(r#"{"text":"good"}"#)).unwrap(), "good");
    let resolved =
        Resolution::Resolved { repo_id: "r".to_string(), worktree_id: "w".to_string() };
    let envelope = feedback_envelope("s", &Json::integer(7), &resolved, "obs-1", "hash", 99);
    assert_eq!(envelope.observation_id, "obs-1");
    assert_eq!(envelope.payload_hash, "hash");
    assert_eq!(envelope.source_event_id, "mcp:s:7");
    assert_eq!(envelope.dedup_key, "mcp:s:7");
    assert_eq!(envelope.event_type, "McpFeedback");
    assert_eq!(envelope.evidence_kind, EvidenceKind::UserStatement);
    assert_eq!(envelope.trust, TrustLevel::Normal);
    assert_eq!((&envelope.agent_id, &envelope.turn_id), (&None, &None));
    assert_eq!(envelope.worktree_id.as_deref(), Some("w"));
    assert_eq!(
        value(feedback_result("mcp:s:7", Ok(Some(3)))),
        r#"{"source_event_id":"mcp:s:7","deduplicated":false}"#
    );
    assert_eq!(
        value(feedback_result("mcp:s:7", Ok(None))),
        r#"{"source_event_id":"mcp:s:7","deduplicated":true}"#
    );
}

#[test]
fn english_text_is_stored_as_it_came() {
    let english = Normalized::AlreadyEnglish { class: ScriptClass::English };
    assert_eq!(text_to_store("as it came", &Some(english)), "as it came");
    assert_eq!(text_to_store("as it came", &None), "as it came");
}

#[test]
fn feedback_given_twice_by_one_request_is_one_observation() {
    let id = Json::string("r-1");
    let first = feedback_envelope("s", &id, &Resolution::GlobalOnly, "obs-1", "hash", 99);
    let second = feedback_envelope("s", &id, &Resolution::GlobalOnly, "obs-2", "hash", 120);
    assert_eq!(first.source_event_id, "mcp:s:r-1");
    assert_eq!(second.source_event_id, first.source_event_id);
    assert_eq!(second.dedup_key, first.dedup_key);
    assert_eq!(
        value(feedback_result(&first.source_event_id, Ok(Some(1)))),
        r#"{"source_event_id":"mcp:s:r-1","deduplicated":false}"#
    );
    assert_eq!(
        value(feedback_result(&second.source_event_id, Ok(None))),
        r#"{"source_event_id":"mcp:s:r-1","deduplicated":true}"#
    );
}
