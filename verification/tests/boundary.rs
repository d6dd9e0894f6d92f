use local_rag::normalization::boundary::{
    after_translation, decide_query, normalize_for_write, normalize_generated_ops,
    query_needs_decision, refusal_reason, script_label, unfinished, GeneratedOp,
    NormalizationStatus, Normalized, OwnedNormalizationRow, ProposedOperation, QueryNotTranslated,
    ScriptClass, TranslateFailureKind, Translation, LAST_ERROR_MAX_CHARS,
};

fn no_generator() -> Option<fn(&str, &str) -> Translation> {
    None
}

fn never(_: &str, _: &str) -> Translation {
    panic!("the translator must not be asked")
}

#[test]
fn english_text_never_reaches_the_generator() {
    let text = "the consolidation runner dead-letters a mechanical failure per build fingerprint";
    let decided =
        normalize_for_write(ScriptClass::English, &no_generator(), "test-model", "m-1", text);
    assert!(matches!(decided, Normalized::AlreadyEnglish { .. }));
    assert_eq!(decided.canon("ignored"), "ignored");

    let decided = normalize_for_write(ScriptClass::English, &Some(never), "test-model", "m-1", text);
    assert!(matches!(decided, Normalized::AlreadyEnglish { .. }));
    assert_eq!(decided.canon("ignored"), "ignored");
}

#[test]
fn a_missing_model_refuses_and_keeps_the_authors_text() {
    let text = "мы решили всегда запускать тесты перед коммитом";
    let decided =
        normalize_for_write(ScriptClass::NonLatin, &no_generator(), "test-model", "m-1", text);
    let Normalized::Refused { kind, reason } = &decided else {
        panic!("expected a refusal, got {decided:?}");
    };
    assert_eq!(*kind, TranslateFailureKind::Unavailable);
    assert!(reason.contains("stored as written"), "{reason}");
    assert_eq!(decided.canon(text), text, "a refusal must never cost the author their note");
}

#[test]
fn canon_is_total_over_every_outcome() {
    let translated = Normalized::Translated {
        english: "always run the tests before committing".to_string(),
        original: "мы решили всегда запускать тесты перед коммитом".to_string(),
        model_id: "m".to_string(),
    };
    assert_eq!(
        translated.canon("whatever came in"),
        "always run the tests before committing",
    );
    assert_eq!(translated.prompt_version(7), Some(7));
    let english: Normalized = Normalized::AlreadyEnglish { class: ScriptClass::English };
    assert_eq!(english.prompt_version(7), None);
}

#[test]
fn generated_ops_are_normalized_by_text_carrying_variant_only() {
    let ops = vec![
        GeneratedOp::Materialize {
            operation: ProposedOperation::Create {
                memory_id: "m-1".to_string(),
                text: "мы решили использовать pnpm".to_string(),
                rest: "create",
            },
            rest: vec!["o1".to_string()],
        },
        GeneratedOp::Materialize { operation: ProposedOperation::Other("reinforce"), rest: vec![] },
        GeneratedOp::Noop,
    ];
    let decide = |memory_id: &str, text: &str| {
        normalize_for_write(ScriptClass::NonLatin, &no_generator(), "test-model", memory_id, text)
    };

    let out = normalize_generated_ops(ops, &decide);

    assert_eq!(out.len(), 3, "no op is lost crossing the boundary");
    match &out[0] {
        GeneratedOp::Materialize {
            operation: ProposedOperation::Create { text, memory_id, rest },
            rest: evidence,
        } => {
            assert_eq!(text, "мы решили использовать pnpm");
            assert_eq!(memory_id, "m-1");
            assert_eq!(*rest, "create");
            assert_eq!(evidence, &vec!["o1".to_string()]);
        }
        other => panic!("expected the create to survive as a materialize, got {other:?}"),
    }
    assert!(
        matches!(
            &out[1],
            GeneratedOp::Materialize { operation: ProposedOperation::Other("reinforce"), rest } if rest.is_empty()
        ),
        "an op that carries no text is returned byte for byte",
    );
    assert!(matches!(out[2], GeneratedOp::Noop));
}

#[test]
fn a_refusal_reason_is_shortened_without_losing_that_it_was_shortened() {
    assert_eq!(refusal_reason("short", 32), "short");
    let long = "x".repeat(40);
    let cut = refusal_reason(&long, 10);
    assert_eq!(cut.chars().count(), 10);
    assert!(cut.ends_with('…'), "{cut}");
}

#[test]
fn a_translation_keeps_the_words_it_replaces() {
    let decided = after_translation(
        "всегда",
        "model-x",
        Translation::Translated { english: "always".to_string() },
    );
    assert_eq!(decided.canon("всегда"), "always");
    assert_eq!(decided.source_language(), Some("non-latin"));
    let row = OwnedNormalizationRow::for_canon("m-1", "sha", decided, 3);
    assert_eq!(row.status, NormalizationStatus::Translated);
    assert_eq!(row.source_text.as_deref(), Some("всегда"));
    assert_eq!(row.normalizer_model_id.as_deref(), Some("model-x"));
    assert_eq!(row.prompt_version, Some(3));
    assert_eq!(row.attempt_count, 1);
    assert_eq!(row.last_error, None);

    let write = row.as_write(7);
    assert_eq!(write.memory_id, "m-1");
    assert_eq!(write.status, NormalizationStatus::Translated);
    assert_eq!(write.expected_text_sha256, "sha");
    assert_eq!(write.canon_text_sha256, "sha");
    assert_eq!(write.source_text.as_deref(), Some("всегда"));
    assert_eq!(write.source_language.as_deref(), Some("non-latin"));
    assert_eq!(write.normalizer_model_id.as_deref(), Some("model-x"));
    assert_eq!(write.prompt_version, Some(3));
    assert_eq!(write.normalizer_version, 7);
    assert_eq!(write.attempt_count, 1);
    assert_eq!(write.last_error, None);
    assert_eq!(write.next_attempt_at, None);
}

#[test]
fn a_refused_translation_costs_an_attempt_unless_nobody_could_be_asked() {
    let refused = Normalized::Refused {
        reason: "r".repeat(500),
        kind: TranslateFailureKind::Mechanical,
    };
    let row = OwnedNormalizationRow::for_canon("m-1", "sha", refused, 3);
    assert_eq!(row.status, NormalizationStatus::Failed);
    assert_eq!(row.attempt_count, 1);
    assert_eq!(row.last_error.unwrap().chars().count(), LAST_ERROR_MAX_CHARS);

    let unavailable = Normalized::Refused {
        reason: "no model".to_string(),
        kind: TranslateFailureKind::Unavailable,
    };
    let row = OwnedNormalizationRow::for_canon("m-1", "sha", unavailable, 3);
    assert_eq!(row.attempt_count, 0);
}

#[test]
fn a_query_that_stays_untranslated_is_reported() {
    assert!(!query_needs_decision("  \t"));
    assert!(query_needs_decision("где"));

    assert_eq!(decide_query("where", None), ("where".to_string(), None));

    let english = Normalized::AlreadyEnglish { class: ScriptClass::English };
    assert_eq!(decide_query("where", Some(english)), ("where".to_string(), None));

    let translated = Normalized::Translated {
        english: "where".to_string(),
        original: "где".to_string(),
        model_id: "m".to_string(),
    };
    assert_eq!(decide_query("где", Some(translated)), ("where".to_string(), None));

    let (query, why) = decide_query(
        "где",
        Some(Normalized::Refused {
            reason: "no model".to_string(),
            kind: TranslateFailureKind::Unavailable,
        }),
    );
    assert_eq!(query, "где");
    assert_eq!(why, Some(QueryNotTranslated::NoGenerator));

    let (_, why) = decide_query(
        "где",
        Some(Normalized::Refused {
            reason: "gibberish".to_string(),
            kind: TranslateFailureKind::Mechanical,
        }),
    );
    assert_eq!(why, Some(QueryNotTranslated::Refused("gibberish".to_string())));
    assert!(why.unwrap().label().contains("gibberish"));
}

#[test]
fn a_translation_that_did_not_end_may_be_tried_again() {
    match unfinished("join error") {
        Normalized::Refused { reason, kind } => {
            assert!(reason.contains("join error"), "{reason}");
            assert_eq!(kind, TranslateFailureKind::Transient);
        }
        other => panic!("expected a refusal, got {other:?}"),
    }
}

#[test]
fn scripts_have_their_labels() {
    assert_eq!(script_label(ScriptClass::English), "en");
    assert_eq!(script_label(ScriptClass::NonLatin), "non-latin");
    assert_eq!(script_label(ScriptClass::Undetermined), "undetermined");
}
