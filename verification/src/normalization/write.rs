//! Applying a translation beside an entry's text: the vector first, then the row.
//!
//! The row moves the hash under which readers look for the entry's vector. Were the row
//! written first, a crash would leave readers looking for a vector that was never written.
//! The other way round it leaves a vector that nobody looks for, which does no harm.

use vstd::prelude::*;

use crate::normalization::boundary::{NormalizationStatus, ScriptClass};
use crate::text::{concat2, concat5, decimal_u64, same};

verus! {

/// An entry, and its text as it stands.
#[derive(Debug, Clone, Copy)]
pub struct NormalizationTarget<'a> {
    pub memory_id: &'a str,
    pub text: &'a str,
}

/// What came of applying a translation.
#[derive(Debug, Clone, PartialEq, Eq)]
pub enum NormalizationOutcome<S = String> {
    /// There was nothing to translate, and the vector stays as it is.
    Skipped { class: ScriptClass },
    /// The vector was written under `subject_hash`, and then the row.
    Normalized { subject_hash: S, vectors_written: usize },
    /// The entry's text changed in the meantime, and no row was written.
    TextMoved,
}

impl View for NormalizationOutcome<String> {
    type V = NormalizationOutcome<Seq<char>>;

    open spec fn view(&self) -> NormalizationOutcome<Seq<char>> {
        match *self {
            NormalizationOutcome::Skipped { class } => NormalizationOutcome::Skipped { class },
            NormalizationOutcome::Normalized { subject_hash, vectors_written } =>
            NormalizationOutcome::Normalized { subject_hash: subject_hash@, vectors_written },
            NormalizationOutcome::TextMoved => NormalizationOutcome::TextMoved,
        }
    }
}

/// Why a translation was not applied.
#[derive(Debug, PartialEq, Eq)]
#[non_exhaustive]
pub enum NormalizationError<S = String> {
    /// There is no translation.
    Translate(S),
    /// The state could not be opened.
    StateRead(S),
    /// The state could not be read.
    Sqlite(S),
    /// The translation could not be embedded.
    Embed(S),
    /// The vector could not be written.
    CacheWrite(S),
    /// The cache could not be opened.
    CacheOpen(S),
    /// The row could not be written.
    StateWrite(S),
    /// No registered representation takes a vector of this size.
    NoUsableRepresentation { registered: usize, vector_dimensions: usize },
}

impl View for NormalizationError<String> {
    type V = NormalizationError<Seq<char>>;

    open spec fn view(&self) -> NormalizationError<Seq<char>> {
        match *self {
            NormalizationError::Translate(e) => NormalizationError::Translate(e@),
            NormalizationError::StateRead(e) => NormalizationError::StateRead(e@),
            NormalizationError::Sqlite(e) => NormalizationError::Sqlite(e@),
            NormalizationError::Embed(e) => NormalizationError::Embed(e@),
            NormalizationError::CacheWrite(e) => NormalizationError::CacheWrite(e@),
            NormalizationError::CacheOpen(e) => NormalizationError::CacheOpen(e@),
            NormalizationError::StateWrite(e) => NormalizationError::StateWrite(e@),
            NormalizationError::NoUsableRepresentation { registered, vector_dimensions } =>
            NormalizationError::NoUsableRepresentation { registered, vector_dimensions },
        }
    }
}

/// What is said of a [`NormalizationError`].
pub open spec fn normalization_error_text(e: NormalizationError<Seq<char>>) -> Seq<char> {
    match e {
        NormalizationError::Translate(e) => e,
        NormalizationError::StateRead(e) => "could not open state.sqlite: "@ + e,
        NormalizationError::Sqlite(e) => "state read failed: "@ + e,
        NormalizationError::Embed(e) => "embedding the translation failed: "@ + e,
        NormalizationError::CacheWrite(e) => "cache write failed: "@ + e,
        NormalizationError::CacheOpen(e) => "could not open cache.sqlite: "@ + e,
        NormalizationError::StateWrite(e) => "state write failed: "@ + e,
        NormalizationError::NoUsableRepresentation { registered, vector_dimensions } =>
        "none of the "@ + crate::text::decimal(registered as int)
            + " registered memory representation(s) accepts a "@ + crate::text::decimal(
            vector_dimensions as int,
        )
            + "-dimensional vector — the embedder does not match the registry, so nothing may be declared normalized"@,
    }
}

impl NormalizationError<String> {
    /// What went wrong, in words.
    pub fn message(&self) -> (r: String)
        ensures
            r@ == normalization_error_text(self@),
    {
        match self {
            NormalizationError::Translate(e) => e.clone(),
            NormalizationError::StateRead(e) => concat2("could not open state.sqlite: ", e.as_str()),
            NormalizationError::Sqlite(e) => concat2("state read failed: ", e.as_str()),
            NormalizationError::Embed(e) => concat2(
                "embedding the translation failed: ",
                e.as_str(),
            ),
            NormalizationError::CacheWrite(e) => concat2("cache write failed: ", e.as_str()),
            NormalizationError::CacheOpen(e) => concat2("could not open cache.sqlite: ", e.as_str()),
            NormalizationError::StateWrite(e) => concat2("state write failed: ", e.as_str()),
            NormalizationError::NoUsableRepresentation { registered, vector_dimensions } => concat5(
                "none of the ",
                decimal_u64(*registered as u64).as_str(),
                " registered memory representation(s) accepts a ",
                decimal_u64(*vector_dimensions as u64).as_str(),
                "-dimensional vector — the embedder does not match the registry, so nothing may be declared normalized",
            ),
        }
    }
}

/// The row that is written beside an entry's text.
#[derive(Debug, Clone, PartialEq, Eq)]
pub struct RowDraft<S = String> {
    pub memory_id: S,
    pub status: NormalizationStatus,
    pub source_text_sha256: S,
    pub normalized_text: Option<S>,
    pub source_language: Option<S>,
    pub attempt_count: i64,
    pub last_error: Option<S>,
    pub next_attempt_at: Option<i64>,
}

impl View for RowDraft<String> {
    type V = RowDraft<Seq<char>>;

    open spec fn view(&self) -> RowDraft<Seq<char>> {
        RowDraft {
            memory_id: self.memory_id@,
            status: self.status,
            source_text_sha256: self.source_text_sha256@,
            normalized_text: self.normalized_text.deep_view(),
            source_language: self.source_language.deep_view(),
            attempt_count: self.attempt_count,
            last_error: self.last_error.deep_view(),
            next_attempt_at: self.next_attempt_at,
        }
    }
}

/// A row as the store takes it.
#[derive(Debug, PartialEq, Eq)]
pub struct TranslationWrite<S = String> {
    pub memory_id: S,
    pub status: NormalizationStatus,
    pub source_text_sha256: S,
    pub normalized_text: Option<S>,
    pub source_language: Option<S>,
    pub normalizer_model_id: Option<S>,
    pub prompt_version: Option<i64>,
    pub normalizer_version: i64,
    pub attempt_count: i64,
    pub last_error: Option<S>,
    pub next_attempt_at: Option<i64>,
}

impl View for TranslationWrite<String> {
    type V = TranslationWrite<Seq<char>>;

    open spec fn view(&self) -> TranslationWrite<Seq<char>> {
        TranslationWrite {
            memory_id: self.memory_id@,
            status: self.status,
            source_text_sha256: self.source_text_sha256@,
            normalized_text: self.normalized_text.deep_view(),
            source_language: self.source_language.deep_view(),
            normalizer_model_id: self.normalizer_model_id.deep_view(),
            prompt_version: self.prompt_version,
            normalizer_version: self.normalizer_version,
            attempt_count: self.attempt_count,
            last_error: self.last_error.deep_view(),
            next_attempt_at: self.next_attempt_at,
        }
    }
}

/// The label of a script beside text that is kept in its own language.
pub open spec fn kept_label(class: ScriptClass) -> Seq<char> {
    match class {
        ScriptClass::English => "latin"@,
        ScriptClass::NonLatin => "non-latin"@,
        ScriptClass::Undetermined => "undetermined"@,
    }
}

fn script_label(class: ScriptClass) -> (r: &'static str)
    ensures
        r@ == kept_label(class),
{
    match class {
        ScriptClass::English => "latin",
        ScriptClass::NonLatin => "non-latin",
        ScriptClass::Undetermined => "undetermined",
    }
}

/// The row of text that needs no translation.
pub open spec fn passthrough_row(
    memory_id: Seq<char>,
    source_sha256: Seq<char>,
    class: ScriptClass,
) -> RowDraft<Seq<char>> {
    RowDraft {
        memory_id,
        status: NormalizationStatus::Skipped,
        source_text_sha256: source_sha256,
        normalized_text: None,
        source_language: Some(kept_label(class)),
        attempt_count: 0,
        last_error: None,
        next_attempt_at: None,
    }
}

/// The row of text that was translated.
pub open spec fn ready_row(
    memory_id: Seq<char>,
    source_sha256: Seq<char>,
    english: Seq<char>,
) -> RowDraft<Seq<char>> {
    RowDraft {
        memory_id,
        status: NormalizationStatus::Ready,
        source_text_sha256: source_sha256,
        normalized_text: Some(english),
        source_language: Some(kept_label(ScriptClass::NonLatin)),
        attempt_count: 1,
        last_error: None,
        next_attempt_at: None,
    }
}

/// The row of text whose translation failed.
pub open spec fn failed_row(
    memory_id: Seq<char>,
    source_sha256: Seq<char>,
    attempt_count: i64,
    last_error: Seq<char>,
    next_attempt_at: Option<i64>,
) -> RowDraft<Seq<char>> {
    RowDraft {
        memory_id,
        status: NormalizationStatus::Failed,
        source_text_sha256: source_sha256,
        normalized_text: None,
        source_language: None,
        attempt_count,
        last_error: Some(last_error),
        next_attempt_at,
    }
}

/// What is handed to the store for a row. Whatever the status, it names the prompt that was
/// current, and no model.
pub open spec fn write_of(
    row: RowDraft<Seq<char>>,
    translator_version: i64,
    normalizer_version: i64,
) -> TranslationWrite<Seq<char>> {
    TranslationWrite {
        memory_id: row.memory_id,
        status: row.status,
        source_text_sha256: row.source_text_sha256,
        normalized_text: row.normalized_text,
        source_language: row.source_language,
        normalizer_model_id: None,
        prompt_version: Some(translator_version),
        normalizer_version,
        attempt_count: row.attempt_count,
        last_error: row.last_error,
        next_attempt_at: row.next_attempt_at,
    }
}

impl RowDraft<String> {
    /// The row of text that needs no translation.
    pub fn passthrough(memory_id: &str, source_sha256: &str, class: ScriptClass) -> (r: Self)
        ensures
            r@ == passthrough_row(memory_id@, source_sha256@, class),
    {
        RowDraft {
            memory_id: memory_id.to_owned(),
            status: NormalizationStatus::Skipped,
            source_text_sha256: source_sha256.to_owned(),
            normalized_text: None,
            source_language: Some(script_label(class).to_owned()),
            attempt_count: 0,
            last_error: None,
            next_attempt_at: None,
        }
    }

    /// The row of text that was translated.
    pub fn ready(memory_id: &str, source_sha256: &str, english: &str) -> (r: Self)
        ensures
            r@ == ready_row(memory_id@, source_sha256@, english@),
    {
        RowDraft {
            memory_id: memory_id.to_owned(),
            status: NormalizationStatus::Ready,
            source_text_sha256: source_sha256.to_owned(),
            normalized_text: Some(english.to_owned()),
            source_language: Some(script_label(ScriptClass::NonLatin).to_owned()),
            attempt_count: 1,
            last_error: None,
            next_attempt_at: None,
        }
    }

    /// The row of text whose translation failed.
    pub fn failure(
        memory_id: &str,
        source_sha256: &str,
        attempt_count: i64,
        last_error: &str,
        next_attempt_at: Option<i64>,
    ) -> (r: Self)
        ensures
            r@ == failed_row(
                memory_id@,
                source_sha256@,
                attempt_count,
                last_error@,
                next_attempt_at,
            ),
    {
        RowDraft {
            memory_id: memory_id.to_owned(),
            status: NormalizationStatus::Failed,
            source_text_sha256: source_sha256.to_owned(),
            normalized_text: None,
            source_language: None,
            attempt_count,
            last_error: Some(last_error.to_owned()),
            next_attempt_at,
        }
    }

    /// What is handed to the store. Whatever the status, the row names the prompt that was
    /// current, and no model.
    pub fn as_write(&self, translator_version: i64, normalizer_version: i64) -> (r:
        TranslationWrite)
        ensures
            r@ == write_of(self@, translator_version, normalizer_version),
    {
        TranslationWrite {
            memory_id: self.memory_id.clone(),
            status: self.status,
            source_text_sha256: self.source_text_sha256.clone(),
            normalized_text: self.normalized_text.clone(),
            source_language: self.source_language.clone(),
            normalizer_model_id: None,
            prompt_version: Some(translator_version),
            normalizer_version,
            attempt_count: self.attempt_count,
            last_error: self.last_error.clone(),
            next_attempt_at: self.next_attempt_at,
        }
    }
}

/// A representation that a model space needs.
#[derive(Debug, Clone, PartialEq, Eq)]
pub struct Representation<S = String> {
    /// Whether it represents memory.
    pub of_memory: bool,
    pub id: S,
}

/// The ids of the representations of memory among `all`, each once, in the order in which
/// they first occur.
pub open spec fn memory_ids(all: Seq<Representation>) -> Seq<Seq<char>>
    decreases all.len(),
{
    if all.len() == 0 {
        Seq::empty()
    } else {
        let before = memory_ids(all.drop_last());
        if all.last().of_memory && !before.contains(all.last().id@) {
            before.push(all.last().id@)
        } else {
            before
        }
    }
}

/// The ids of the representations of memory among those that the model spaces need, each
/// once.
pub fn memory_representation_ids(all: &Vec<Representation>) -> (r: Vec<String>)
    ensures
        crate::paths::chars(r@) == memory_ids(all@),
{
    let mut ids: Vec<String> = Vec::new();
    let mut i: usize = 0;
    proof {
        assert(crate::paths::chars(ids@) =~= Seq::empty());
    }
    while i < all.len()
        invariant
            i <= all@.len(),
            crate::paths::chars(ids@) == memory_ids(all@.take(i as int)),
        decreases all@.len() - i,
    {
        let ghost before = crate::paths::chars(ids@);
        proof {
            assert(all@.take(i + 1).drop_last() =~= all@.take(i as int));
        }
        if all[i].of_memory {
            let mut known = false;
            let mut k: usize = 0;
            while k < ids.len()
                invariant
                    k <= ids@.len(),
                    i < all@.len(),
                    before == crate::paths::chars(ids@),
                    known <==> exists|j: int| 0 <= j < k && #[trigger] before[j] == all@[i as int].id@,
                decreases ids@.len() - k,
            {
                proof {
                    assert(before[k as int] == ids@[k as int]@);
                }
                if same(ids[k].as_str(), all[i].id.as_str()) {
                    known = true;
                }
                k = k + 1;
            }
            proof {
                assert(known <==> before.contains(all@[i as int].id@));
            }
            if !known {
                ids.push(all[i].id.clone());
                proof {
                    assert(crate::paths::chars(ids@) =~= before.push(all@[i as int].id@));
                }
            }
        }
        i = i + 1;
    }
    proof {
        assert(all@.take(i as int) =~= all@);
    }
    ids
}

/// No id of a representation is written to twice.
pub proof fn law_each_representation_once(all: Seq<Representation>)
    ensures
        memory_ids(all).no_duplicates(),
        forall|i: int|
            0 <= i < all.len() && (#[trigger] all[i]).of_memory ==> memory_ids(all).contains(
                all[i].id@,
            ),
    decreases all.len(),
{
    if all.len() > 0 {
        let before = all.drop_last();
        law_each_representation_once(before);
        let ids = memory_ids(before);
        assert forall|i: int| 0 <= i < all.len() && (#[trigger] all[i]).of_memory implies memory_ids(
            all,
        ).contains(all[i].id@) by {
            if i < before.len() {
                assert(before[i] == all[i]);
                let k = choose|k: int| 0 <= k < ids.len() && ids[k] == all[i].id@;
                assert(memory_ids(all)[k] == all[i].id@);
            } else if !ids.contains(all[i].id@) {
                assert(memory_ids(all)[ids.len() as int] == all[i].id@);
            }
        }
    }
}

/// A registered representation, with the size of its vectors, where that is known.
#[derive(Debug, Clone, PartialEq, Eq)]
pub struct Registered<S = String> {
    pub id: S,
    pub dimensions: Option<u32>,
}

/// The ids of those of `all` that take a vector of size `dimensions`.
pub open spec fn taking(all: Seq<Registered>, dimensions: usize) -> Seq<Seq<char>>
    decreases all.len(),
{
    if all.len() == 0 {
        Seq::empty()
    } else {
        let before = taking(all.drop_last(), dimensions);
        match all.last().dimensions {
            Some(n) => if n == dimensions {
                before.push(all.last().id@)
            } else {
                before
            },
            None => before,
        }
    }
}

/// The ids under which a vector of size `dimensions` is written, or why none is. To say that
/// the entry is normalized without a vector that readers find would be worse than not to.
fn vector_rows(all: &Vec<Registered>, dimensions: usize) -> (r: Result<
    Vec<String>,
    NormalizationError,
>)
    ensures
        match r {
            Ok(ids) => crate::paths::chars(ids@) == taking(all@, dimensions) && ids@.len() > 0,
            Err(e) => taking(all@, dimensions).len() == 0 && (
            e matches NormalizationError::NoUsableRepresentation { registered, vector_dimensions }
                && registered == all@.len() && vector_dimensions == dimensions),
        },
{
    let mut ids: Vec<String> = Vec::new();
    let mut i: usize = 0;
    proof {
        assert(crate::paths::chars(ids@) =~= Seq::empty());
    }
    while i < all.len()
        invariant
            i <= all@.len(),
            crate::paths::chars(ids@) == taking(all@.take(i as int), dimensions),
        decreases all@.len() - i,
    {
        let ghost before = crate::paths::chars(ids@);
        proof {
            assert(all@.take(i + 1).drop_last() =~= all@.take(i as int));
        }
        if let Some(n) = all[i].dimensions {
            if n as u64 == dimensions as u64 {
                ids.push(all[i].id.clone());
                proof {
                    assert(crate::paths::chars(ids@) =~= before.push(all@[i as int].id@));
                }
            }
        }
        i = i + 1;
    }
    proof {
        assert(all@.take(i as int) =~= all@);
    }
    if ids.len() == 0 {
        return Err(
            NormalizationError::NoUsableRepresentation {
                registered: all.len(),
                vector_dimensions: dimensions,
            },
        );
    }
    Ok(ids)
}

/// The ids under which a translation's vector is written. `embedded` is the size of the
/// vector, where the embedder returned one; it is asked only where something is registered.
/// Where nothing is, no reader looks for a vector either.
pub fn write_vectors(all: &Vec<Registered>, embedded: Option<usize>) -> (r: Result<
    Vec<String>,
    NormalizationError,
>)
    ensures
        match (r, embedded) {
            (Ok(ids), Some(dimensions)) => crate::paths::chars(ids@) == taking(all@, dimensions)
                && (ids@.len() > 0 || all@.len() == 0),
            (Ok(ids), None) => ids@.len() == 0,
            (Err(e), Some(dimensions)) => {
                &&& all@.len() > 0
                &&& taking(all@, dimensions).len() == 0
                &&& e matches NormalizationError::NoUsableRepresentation {
                    registered,
                    vector_dimensions,
                } && registered == all@.len() && vector_dimensions == dimensions
            },
            (Err(_), None) => false,
        },
{
    if all.len() == 0 {
        let none: Vec<String> = Vec::new();
        proof {
            assert(crate::paths::chars(none@) =~= Seq::empty());
        }
        return Ok(none);
    }
    match embedded {
        None => Ok(Vec::new()),
        Some(dimensions) => vector_rows(all, dimensions),
    }
}

/// How far applying a translation has come.
#[derive(Debug, PartialEq, Eq)]
pub enum Applying<S = String> {
    /// Translating.
    Translating,
    /// Writing the row of text that needs no translation.
    Skipping { class: ScriptClass },
    /// Writing the vector of the translation.
    WritingVectors { english: S },
    /// Writing the row of the translation, whose vector is written.
    WritingRow { english: S, subject_hash: S, vectors_written: usize },
    Done(NormalizationOutcome<S>),
    Failed(NormalizationError<S>),
}

impl View for Applying<String> {
    type V = Applying<Seq<char>>;

    open spec fn view(&self) -> Applying<Seq<char>> {
        match *self {
            Applying::Translating => Applying::Translating,
            Applying::Skipping { class } => Applying::Skipping { class },
            Applying::WritingVectors { english } => Applying::WritingVectors { english: english@ },
            Applying::WritingRow { english, subject_hash, vectors_written } =>
            Applying::WritingRow {
                english: english@,
                subject_hash: subject_hash@,
                vectors_written,
            },
            Applying::Done(outcome) => Applying::Done(outcome@),
            Applying::Failed(e) => Applying::Failed(e@),
        }
    }
}

/// What happened while a translation is applied.
#[derive(Debug, PartialEq, Eq)]
pub enum ApplyEvent {
    /// The text needs no translation.
    Passthrough(ScriptClass),
    Translated(String),
    /// The vectors were written under the hash that readers will look for.
    VectorsWritten { subject_hash: String, count: usize },
    /// Whether the row was written. It is not where the text changed.
    RowWritten(bool),
    Failed(NormalizationError),
}

/// How far applying a translation is after an event. An event that does not belong to what
/// is being done changes nothing.
pub open spec fn apply_step(state: Applying<Seq<char>>, event: ApplyEvent) -> Applying<Seq<char>> {
    match (state, event) {
        (Applying::Done(_), _) => state,
        (Applying::Failed(_), _) => state,
        (_, ApplyEvent::Failed(e)) => Applying::Failed(e@),
        (Applying::Translating, ApplyEvent::Passthrough(class)) => Applying::Skipping { class },
        (Applying::Translating, ApplyEvent::Translated(english)) => Applying::WritingVectors {
            english: english@,
        },
        (Applying::Skipping { class }, ApplyEvent::RowWritten(written)) => Applying::Done(
            if written {
                NormalizationOutcome::Skipped { class }
            } else {
                NormalizationOutcome::TextMoved
            },
        ),
        (
            Applying::WritingVectors { english },
            ApplyEvent::VectorsWritten { subject_hash, count },
        ) => Applying::WritingRow { english, subject_hash: subject_hash@, vectors_written: count },
        (
            Applying::WritingRow { english, subject_hash, vectors_written },
            ApplyEvent::RowWritten(written),
        ) => Applying::Done(
            if written {
                NormalizationOutcome::Normalized { subject_hash, vectors_written }
            } else {
                NormalizationOutcome::TextMoved
            },
        ),
        _ => state,
    }
}

/// Takes applying a translation one event further.
pub fn apply_normalization(state: Applying, event: ApplyEvent) -> (r: Applying)
    ensures
        r@ == apply_step(state@, event),
{
    match (state, event) {
        (Applying::Done(outcome), _) => Applying::Done(outcome),
        (Applying::Failed(e), _) => Applying::Failed(e),
        (_, ApplyEvent::Failed(e)) => Applying::Failed(e),
        (Applying::Translating, ApplyEvent::Passthrough(class)) => Applying::Skipping { class },
        (Applying::Translating, ApplyEvent::Translated(english)) => Applying::WritingVectors {
            english,
        },
        (Applying::Skipping { class }, ApplyEvent::RowWritten(written)) => Applying::Done(
            if written {
                NormalizationOutcome::Skipped { class }
            } else {
                NormalizationOutcome::TextMoved
            },
        ),
        (
            Applying::WritingVectors { english },
            ApplyEvent::VectorsWritten { subject_hash, count },
        ) => Applying::WritingRow { english, subject_hash, vectors_written: count },
        (
            Applying::WritingRow { english, subject_hash, vectors_written },
            ApplyEvent::RowWritten(written),
        ) => Applying::Done(
            if written {
                NormalizationOutcome::Normalized { subject_hash, vectors_written }
            } else {
                NormalizationOutcome::TextMoved
            },
        ),
        (state, _) => state,
    }
}

/// The row to be written, if one is.
pub open spec fn row_due(
    state: Applying<Seq<char>>,
    memory_id: Seq<char>,
    source_sha256: Seq<char>,
) -> Option<RowDraft<Seq<char>>> {
    match state {
        Applying::Skipping { class } => Some(passthrough_row(memory_id, source_sha256, class)),
        Applying::WritingRow { english, .. } => Some(ready_row(memory_id, source_sha256, english)),
        _ => None,
    }
}

/// The row to be written, if one is.
pub fn row_to_write(state: &Applying, target: &NormalizationTarget, source_sha256: &str) -> (r:
    Option<RowDraft>)
    ensures
        row_due(state@, target.memory_id@, source_sha256@) == (match r {
            Some(row) => Some(row@),
            None => None,
        }),
{
    match state {
        Applying::Skipping { class } => Some(
            RowDraft::passthrough(target.memory_id, source_sha256, *class),
        ),
        Applying::WritingRow { english, .. } => Some(
            RowDraft::ready(target.memory_id, source_sha256, english.as_str()),
        ),
        _ => None,
    }
}

/// How far applying a translation is after `events`.
pub open spec fn applying_after(events: Seq<ApplyEvent>) -> Applying<Seq<char>>
    decreases events.len(),
{
    if events.len() == 0 {
        Applying::Translating
    } else {
        apply_step(applying_after(events.drop_last()), events.last())
    }
}

/// No row says that an entry is translated before the vector of the translation was written
/// under the hash that readers look for.
pub proof fn law_the_vector_comes_first(events: Seq<ApplyEvent>)
    ensures
        match applying_after(events) {
            Applying::WritingRow { subject_hash, vectors_written, .. } => vectors_in(
                events,
                subject_hash,
                vectors_written,
            ),
            Applying::Done(
                NormalizationOutcome::Normalized { subject_hash, vectors_written },
            ) => vectors_in(events, subject_hash, vectors_written),
            _ => true,
        },
    decreases events.len(),
{
    if events.len() > 0 {
        let before = events.drop_last();
        law_the_vector_comes_first(before);
        let last = events.len() - 1;
        assert(events[last] == events.last());
        match applying_after(before) {
            Applying::WritingRow { subject_hash, vectors_written, .. } => {
                lemma_vectors_stay(before, events, subject_hash, vectors_written);
            },
            Applying::Done(NormalizationOutcome::Normalized { subject_hash, vectors_written }) => {
                lemma_vectors_stay(before, events, subject_hash, vectors_written);
            },
            _ => {},
        }
    }
}

/// Whether one of `events` says that so many vectors were written under `subject_hash`.
pub open spec fn vectors_in(events: Seq<ApplyEvent>, subject_hash: Seq<char>, written: usize) -> bool {
    exists|i: int|
        0 <= i < events.len() && (#[trigger] events[i] matches ApplyEvent::VectorsWritten {
            subject_hash: hash,
            count,
        } && hash@ == subject_hash && count == written)
}

proof fn lemma_vectors_stay(
    before: Seq<ApplyEvent>,
    events: Seq<ApplyEvent>,
    subject_hash: Seq<char>,
    written: usize,
)
    requires
        events.len() > 0,
        before == events.drop_last(),
        vectors_in(before, subject_hash, written),
    ensures
        vectors_in(events, subject_hash, written),
{
    let i = choose|i: int|
        0 <= i < before.len() && (#[trigger] before[i] matches ApplyEvent::VectorsWritten {
            subject_hash: hash,
            count,
        } && hash@ == subject_hash && count == written);
    assert(events[i] == before[i]);
}

/// Text that needs no translation keeps its vector: no event of a passthrough leads to
/// writing one.
pub proof fn law_a_passthrough_writes_no_vector(class: ScriptClass, event: ApplyEvent)
    ensures
        !(apply_step(Applying::Skipping { class }, event) is WritingVectors),
{
}

/// Text that needs no translation is recorded as skipped, beside the hash of the text itself and
/// what its script was taken for, with no attempt made.
pub proof fn law_the_row_of_a_passthrough(
    memory_id: Seq<char>,
    source_sha256: Seq<char>,
    class: ScriptClass,
)
    ensures
        ({
            let row = passthrough_row(memory_id, source_sha256, class);
            &&& row.memory_id == memory_id
            &&& row.status is Skipped
            &&& row.source_text_sha256 == source_sha256
            &&& row.normalized_text is None
            &&& class is English ==> row.source_language == Some("latin"@)
            &&& class is NonLatin ==> row.source_language == Some("non-latin"@)
            &&& class is Undetermined ==> row.source_language == Some("undetermined"@)
            &&& row.attempt_count == 0
            &&& row.last_error is None
            &&& row.next_attempt_at is None
        }),
{
}

/// Translated text is recorded as ready, with its translation, beside the hash of the text that
/// was translated.
pub proof fn law_the_row_of_a_ready_translation(
    memory_id: Seq<char>,
    source_sha256: Seq<char>,
    english: Seq<char>,
)
    ensures
        ({
            let row = ready_row(memory_id, source_sha256, english);
            &&& row.memory_id == memory_id
            &&& row.status is Ready
            &&& row.source_text_sha256 == source_sha256
            &&& row.normalized_text == Some(english)
            &&& row.source_language == Some("non-latin"@)
            &&& row.attempt_count == 1
            &&& row.last_error is None
            &&& row.next_attempt_at is None
        }),
{
}

/// Text whose translation failed is recorded as failed, with no translation, the reason and when
/// it is tried again.
pub proof fn law_the_row_of_a_failed_translation(
    memory_id: Seq<char>,
    source_sha256: Seq<char>,
    attempt_count: i64,
    last_error: Seq<char>,
    next_attempt_at: Option<i64>,
)
    ensures
        ({
            let row = failed_row(
                memory_id,
                source_sha256,
                attempt_count,
                last_error,
                next_attempt_at,
            );
            &&& row.memory_id == memory_id
            &&& row.status is Failed
            &&& row.source_text_sha256 == source_sha256
            &&& row.normalized_text is None
            &&& row.source_language is None
            &&& row.attempt_count == attempt_count
            &&& row.last_error == Some(last_error)
            &&& row.next_attempt_at == next_attempt_at
        }),
{
}

/// A row is written as it was drafted, under the prompt that was current and no model.
pub proof fn law_a_draft_is_written_as_it_stands(
    row: RowDraft<Seq<char>>,
    translator_version: i64,
    normalizer_version: i64,
)
    ensures
        ({
            let write = write_of(row, translator_version, normalizer_version);
            &&& write.memory_id == row.memory_id
            &&& write.status == row.status
            &&& write.source_text_sha256 == row.source_text_sha256
            &&& write.normalized_text == row.normalized_text
            &&& write.source_language == row.source_language
            &&& write.normalizer_model_id is None
            &&& write.prompt_version == Some(translator_version)
            &&& write.normalizer_version == normalizer_version
            &&& write.attempt_count == row.attempt_count
            &&& write.last_error == row.last_error
            &&& write.next_attempt_at == row.next_attempt_at
        }),
{
}

/// Only representations of memory are written to.
pub proof fn law_only_memory_is_represented(all: Seq<Representation>, k: int)
    requires
        0 <= k < memory_ids(all).len(),
    ensures
        exists|i: int|
            0 <= i < all.len() && (#[trigger] all[i]).of_memory && all[i].id@ == memory_ids(all)[k],
    decreases all.len(),
{
    if all.len() > 0 {
        let before = all.drop_last();
        if k < memory_ids(before).len() {
            law_only_memory_is_represented(before, k);
            let i = choose|i: int|
                0 <= i < before.len() && (#[trigger] before[i]).of_memory && before[i].id@
                    == memory_ids(before)[k];
            assert(all[i].of_memory);
        } else {
            assert(all[all.len() - 1].of_memory);
        }
    }
}

/// A vector is written under the ids of exactly those representations that take vectors of its
/// size: one that is registered next joins them, in its turn, where its size is that one.
pub proof fn law_a_vector_goes_where_it_fits(
    all: Seq<Registered>,
    next: Registered,
    dimensions: usize,
)
    ensures
        taking(Seq::empty(), dimensions).len() == 0,
        next.dimensions matches Some(n) ==> (n == dimensions ==> taking(
            all.push(next),
            dimensions,
        ) == taking(all, dimensions).push(next.id@)),
        next.dimensions matches Some(n) ==> (n != dimensions ==> taking(
            all.push(next),
            dimensions,
        ) == taking(all, dimensions)),
        next.dimensions is None ==> taking(all.push(next), dimensions) == taking(all, dimensions),
{
    assert(all.push(next).drop_last() =~= all);
}

/// A translation is written with its vector first and its row after it, text that needs none
/// gets its row at once, and a row that was not written means that the text moved. What fails
/// ends it, and what has ended stays as it ended.
pub proof fn law_applying_goes_step_by_step(
    state: Applying<Seq<char>>,
    class: ScriptClass,
    english: String,
    subject_hash: String,
    count: usize,
    e: NormalizationError,
    event: ApplyEvent,
)
    ensures
        state is Translating ==> apply_step(state, ApplyEvent::Passthrough(class)) == (
        Applying::<Seq<char>>::Skipping { class }),
        state is Translating ==> apply_step(state, ApplyEvent::Translated(english)) == (
        Applying::WritingVectors { english: english@ }),
        state matches Applying::WritingVectors { english: text } ==> apply_step(
            state,
            ApplyEvent::VectorsWritten { subject_hash, count },
        ) == (Applying::WritingRow {
            english: text,
            subject_hash: subject_hash@,
            vectors_written: count,
        }),
        state matches Applying::Skipping { class: found } ==> apply_step(
            state,
            ApplyEvent::RowWritten(true),
        ) == Applying::Done(NormalizationOutcome::<Seq<char>>::Skipped { class: found }),
        state matches Applying::WritingRow {
            subject_hash: hash,
            vectors_written,
            ..
        } ==> apply_step(state, ApplyEvent::RowWritten(true)) == Applying::Done(
            NormalizationOutcome::Normalized { subject_hash: hash, vectors_written },
        ),
        state is Skipping || state is WritingRow ==> apply_step(
            state,
            ApplyEvent::RowWritten(false),
        ) == Applying::Done(NormalizationOutcome::<Seq<char>>::TextMoved),
        state is Done || state is Failed ==> apply_step(state, event) == state,
        !(state is Done || state is Failed) ==> apply_step(state, ApplyEvent::Failed(e)) == (
        Applying::Failed(e@)),
        apply_step(state, event) is Done && !(state is Done) ==> event is RowWritten,
        apply_step(state, event) is WritingRow && !(state is WritingRow) ==> event
            is VectorsWritten && state is WritingVectors,
{
}

/// A row is written in the two stages that write one, and in no other: the row of what is being
/// done, for the entry it is done to.
pub proof fn law_a_row_is_due_while_it_is_written(
    state: Applying<Seq<char>>,
    memory_id: Seq<char>,
    source_sha256: Seq<char>,
)
    ensures
        ({
            let row = row_due(state, memory_id, source_sha256);
            &&& row is Some <==> state is Skipping || state is WritingRow
            &&& row matches Some(r) ==> r.memory_id == memory_id && r.source_text_sha256
                == source_sha256
            &&& state is Skipping ==> row->Some_0.status is Skipped
            &&& state matches Applying::WritingRow { english, .. } ==> row->Some_0.status is Ready
                && row->Some_0.normalized_text == Some(english)
        }),
{
}

/// Text that is kept is labelled by its script.
pub proof fn law_kept_text_is_labelled_by_its_script()
    ensures
        kept_label(ScriptClass::English) == "latin"@,
        kept_label(ScriptClass::NonLatin) == "non-latin"@,
        kept_label(ScriptClass::Undetermined) == "undetermined"@,
{
}

/// An error says what failed, and ends with the cause.
pub proof fn law_a_normalization_error_says_what_failed(
    e: Seq<char>,
    registered: usize,
    vector_dimensions: usize,
)
    ensures
        normalization_error_text(NormalizationError::Translate(e)) == e,
        normalization_error_text(NormalizationError::StateRead(e))
            == "could not open state.sqlite: "@ + e,
        normalization_error_text(NormalizationError::Sqlite(e)) == "state read failed: "@ + e,
        normalization_error_text(NormalizationError::Embed(e))
            == "embedding the translation failed: "@ + e,
        normalization_error_text(NormalizationError::CacheWrite(e)) == "cache write failed: "@ + e,
        normalization_error_text(NormalizationError::CacheOpen(e))
            == "could not open cache.sqlite: "@ + e,
        normalization_error_text(NormalizationError::StateWrite(e)) == "state write failed: "@ + e,
        exists|rest: Seq<char>|
            normalization_error_text(
                NormalizationError::NoUsableRepresentation { registered, vector_dimensions },
            ) == #[trigger] ("none of the "@ + crate::text::decimal(registered as int)
                + " registered memory representation(s) accepts a "@ + crate::text::decimal(
                vector_dimensions as int,
            ) + rest),
{
    let rest =
        "-dimensional vector — the embedder does not match the registry, so nothing may be declared normalized"@;
    assert(normalization_error_text(
        NormalizationError::NoUsableRepresentation { registered, vector_dimensions },
    ) == "none of the "@ + crate::text::decimal(registered as int)
        + " registered memory representation(s) accepts a "@ + crate::text::decimal(
        vector_dimensions as int,
    ) + rest);
}

} // verus!
