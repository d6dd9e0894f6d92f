use local_rag::normalization::boundary::{NormalizationStatus, ScriptClass};
use local_rag::normalization::write::{
    apply_normalization, memory_representation_ids, row_to_write, write_vectors, Applying,
    ApplyEvent, NormalizationError, NormalizationOutcome, NormalizationTarget, Registered,
    Representation, RowDraft,
};

const TARGET: NormalizationTarget<'static> = NormalizationTarget { memory_id: "m-1", text: "текст" };

fn representation(of_memory: bool, id: &str) -> Representation {
    Representation { of_memory, id: id.to_string() }
}

fn registered(id: &str, dimensions: Option<u32>) -> Registered {
    Registered { id: id.to_string(), dimensions }
}

#[test]
fn the_row_is_written_after_the_vector() {
    let state = apply_normalization(
        Applying::Translating,
        ApplyEvent::Translated("text".to_string()),
    );
    assert_eq!(state, Applying::WritingVectors { english: "text".to_string() });
    assert_eq!(row_to_write(&state, &TARGET, "sha"), None, "no row before the vector");

    let state = apply_normalization(
        state,
        ApplyEvent::VectorsWritten { subject_hash: "h".to_string(), count: 2 },
    );
    let row = row_to_write(&state, &TARGET, "sha").expect("the row is due");
    assert_eq!(row, RowDraft::ready("m-1", "sha", "text"));
    assert_eq!(row.status, NormalizationStatus::Ready);
    assert_eq!(row.attempt_count, 1);

    assert_eq!(
        apply_normalization(state, ApplyEvent::RowWritten(true)),
        Applying::Done(NormalizationOutcome::Normalized {
            subject_hash: "h".to_string(),
            vectors_written: 2,
        })
    );
}

#[test]
fn text_that_needs_no_translation_keeps_its_vector() {
    let state = apply_normalization(
        Applying::Translating,
        ApplyEvent::Passthrough(ScriptClass::English),
    );
    let row = row_to_write(&state, &TARGET, "sha").expect("the row is due");
    assert_eq!(row, RowDraft::passthrough("m-1", "sha", ScriptClass::English));
    assert_eq!(row.source_language.as_deref(), Some("latin"));
    assert_eq!(
        apply_normalization(state, ApplyEvent::RowWritten(true)),
        Applying::Done(NormalizationOutcome::Skipped { class: ScriptClass::English })
    );
}

#[test]
fn text_that_moved_is_left_alone() {
    let state = Applying::Skipping { class: ScriptClass::Undetermined };
    assert_eq!(
        apply_normalization(state, ApplyEvent::RowWritten(false)),
        Applying::Done(NormalizationOutcome::TextMoved)
    );
}

#[test]
fn a_failure_ends_it() {
    let failed = apply_normalization(
        Applying::WritingVectors { english: "text".to_string() },
        ApplyEvent::Failed(NormalizationError::Embed("down".to_string())),
    );
    assert_eq!(failed, Applying::Failed(NormalizationError::Embed("down".to_string())));
    assert_eq!(row_to_write(&failed, &TARGET, "sha"), None);
}

#[test]
fn each_representation_of_memory_is_named_once() {
    let all = vec![
        representation(true, "r1"),
        representation(false, "code"),
        representation(true, "r2"),
        representation(true, "r1"),
    ];
    assert_eq!(memory_representation_ids(&all), ["r1", "r2"]);
}

#[test]
fn a_vector_goes_where_its_size_fits() {
    let all = vec![
        registered("a", Some(3)),
        registered("b", Some(4)),
        registered("c", None),
        registered("d", Some(3)),
    ];
    assert_eq!(write_vectors(&all, Some(3)).unwrap(), ["a", "d"]);
    assert_eq!(write_vectors(&all, None).unwrap(), Vec::<String>::new());
    assert_eq!(write_vectors(&vec![], Some(3)).unwrap(), Vec::<String>::new());
    assert_eq!(
        write_vectors(&all, Some(5)),
        Err(NormalizationError::NoUsableRepresentation { registered: 4, vector_dimensions: 5 })
    );
}

#[test]
fn every_failure_says_what_failed() {
    let e = || "e".to_string();
    let failures = [
        (NormalizationError::Translate(e()), "e"),
        (NormalizationError::StateRead(e()), "could not open state.sqlite: e"),
        (NormalizationError::Sqlite(e()), "state read failed: e"),
        (NormalizationError::Embed(e()), "embedding the translation failed: e"),
        (NormalizationError::CacheWrite(e()), "cache write failed: e"),
        (NormalizationError::CacheOpen(e()), "could not open cache.sqlite: e"),
        (NormalizationError::StateWrite(e()), "state write failed: e"),
        (
            NormalizationError::NoUsableRepresentation { registered: 2, vector_dimensions: 3 },
            "none of the 2 registered memory representation(s) accepts a 3-dimensional vector — \
             the embedder does not match the registry, so nothing may be declared normalized",
        ),
    ];
    for (failure, text) in failures {
        assert_eq!(failure.message(), text);
    }
}

#[test]
fn a_failure_is_recorded_with_its_retry() {
    let row = RowDraft::failure("m", "sha", 2, "bad", Some(9));
    assert_eq!(row.status, NormalizationStatus::Failed);
    assert_eq!((row.attempt_count, row.next_attempt_at), (2, Some(9)));
    assert_eq!(row.last_error.as_deref(), Some("bad"));
    assert_eq!(row.normalized_text, None);
}

#[test]
fn a_row_names_the_prompt_but_no_model() {
    let write = RowDraft::ready("m-1", "sha", "text").as_write(3, 7);
    assert_eq!(write.memory_id, "m-1");
    assert_eq!(write.status, NormalizationStatus::Ready);
    assert_eq!(write.source_text_sha256, "sha");
    assert_eq!(write.normalized_text.as_deref(), Some("text"));
    assert_eq!(write.source_language.as_deref(), Some("non-latin"));
    assert_eq!(write.normalizer_model_id, None);
    assert_eq!(write.prompt_version, Some(3));
    assert_eq!(write.normalizer_version, 7);
    assert_eq!(write.attempt_count, 1);
    assert_eq!(write.next_attempt_at, None);

    let write = RowDraft::failure("m-1", "sha", 2, "bad", Some(9)).as_write(3, 7);
    assert_eq!(write.prompt_version, Some(3));
    assert_eq!(write.last_error.as_deref(), Some("bad"));
    assert_eq!(write.next_attempt_at, Some(9));
}
