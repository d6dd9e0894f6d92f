//! Bringing stored memory into English, a few entries at a time.
//!
//! A tick first settles the entries that are English already, which costs nothing. Then it
//! translates a few of the others, unless consolidation needs the model more urgently.

use vstd::prelude::*;

pub mod boundary;
pub mod write;

use crate::jobs::{JobKind, JobRegistry};
use crate::mcp::memory_write::EditPlan;
use crate::normalization::boundary::{
    refusal_reason, script_label, Normalized, NormalizationStatus, OwnedNormalizationRow,
    ScriptClass, TranslateFailureKind, LAST_ERROR_MAX_CHARS,
};
use crate::report::Report;
use crate::text::{concat2, concat4, concat5, decimal_u64, same};
use crate::vocabulary::Actor;

verus! {

/// What a tick may spend.
#[derive(Debug, Clone, Copy, PartialEq, Eq, Structural)]
pub struct NormalizationParams {
    /// Whether anything is done at all.
    pub enabled: bool,
    /// How many entries are examined.
    pub scan_limit: usize,
    /// How many entries are translated.
    pub translate_batch: usize,
}

/// What a tick may do where nobody says otherwise.
pub open spec fn usual_params() -> NormalizationParams {
    NormalizationParams { enabled: true, scan_limit: 512, translate_batch: 4 }
}

impl Default for NormalizationParams {
    fn default() -> (r: Self)
        ensures
            r == usual_params(),
    {
        NormalizationParams { enabled: true, scan_limit: 512, translate_batch: 4 }
    }
}

/// Whether a tick may leave the model to consolidation.
#[derive(Debug, Clone, Copy, PartialEq, Eq, Structural)]
pub enum Deference {
    /// It may.
    Polite,
    /// It has done so often enough.
    Insistent,
}

/// How many ticks in a row may leave the model to consolidation.
pub const MAX_CONSECUTIVE_YIELDS: u32 = 3;

/// Why a tick stopped early. This is no fault of an entry's.
#[derive(Debug, Clone, PartialEq, Eq)]
pub enum AbortReason<S = String> {
    /// The entries could not be read.
    QueueUnavailable(S),
    /// There is no translator.
    Unavailable(S),
}

impl View for AbortReason<String> {
    type V = AbortReason<Seq<char>>;

    open spec fn view(&self) -> AbortReason<Seq<char>> {
        match *self {
            AbortReason::QueueUnavailable(reason) => AbortReason::QueueUnavailable(reason@),
            AbortReason::Unavailable(reason) => AbortReason::Unavailable(reason@),
        }
    }
}

/// What a tick did.
#[derive(Debug, Clone, PartialEq, Eq)]
pub struct TickReport<A = Option<AbortReason>> {
    /// Entries that were read.
    pub examined: usize,
    /// Entries that were found to be English.
    pub settled: usize,
    /// Entries that are not English and were not got to.
    pub awaiting_translation: usize,
    /// Entries that were translated.
    pub translated: usize,
    /// Entries whose translation was refused.
    pub failed: usize,
    /// Whether the model was left to consolidation.
    pub yielded_to_consolidation: bool,
    /// Entries that are left for a later tick, because they changed or could not be written.
    pub deferred: usize,
    /// Why the tick stopped early, if it did.
    pub aborted: A,
}

/// Why a tick stopped early, without its representation.
pub open spec fn abort_view(aborted: Option<AbortReason>) -> Option<AbortReason<Seq<char>>> {
    match aborted {
        Some(reason) => Some(reason@),
        None => None,
    }
}

impl View for TickReport<Option<AbortReason>> {
    type V = TickReport<Option<AbortReason<Seq<char>>>>;

    open spec fn view(&self) -> TickReport<Option<AbortReason<Seq<char>>>> {
        TickReport {
            examined: self.examined,
            settled: self.settled,
            awaiting_translation: self.awaiting_translation,
            translated: self.translated,
            failed: self.failed,
            yielded_to_consolidation: self.yielded_to_consolidation,
            deferred: self.deferred,
            aborted: abort_view(self.aborted),
        }
    }
}

impl Default for TickReport<Option<AbortReason>> {
    fn default() -> (r: Self)
        ensures
            r@ == nothing_done(),
    {
        TickReport {
            examined: 0,
            settled: 0,
            awaiting_translation: 0,
            translated: 0,
            failed: 0,
            yielded_to_consolidation: false,
            deferred: 0,
            aborted: None,
        }
    }
}

/// The report of a tick that did nothing.
pub open spec fn nothing_done() -> TickReport<Option<AbortReason<Seq<char>>>> {
    TickReport {
        examined: 0,
        settled: 0,
        awaiting_translation: 0,
        translated: 0,
        failed: 0,
        yielded_to_consolidation: false,
        deferred: 0,
        aborted: None,
    }
}

/// An entry that may need work.
#[derive(Debug, Clone, PartialEq, Eq)]
pub struct PendingEntry<S = String> {
    pub memory_id: S,
    /// The hash of its text.
    pub text_sha256: S,
    /// What the script of its text says.
    pub class: ScriptClass,
    pub entry_version: i64,
    /// How often it was tried.
    pub attempt_count: i64,
}

impl View for PendingEntry<String> {
    type V = PendingEntry<Seq<char>>;

    open spec fn view(&self) -> PendingEntry<Seq<char>> {
        PendingEntry {
            memory_id: self.memory_id@,
            text_sha256: self.text_sha256@,
            class: self.class,
            entry_version: self.entry_version,
            attempt_count: self.attempt_count,
        }
    }
}

/// The entries `entries` stand for.
pub open spec fn entries_view(entries: Seq<PendingEntry>) -> Seq<PendingEntry<Seq<char>>> {
    Seq::new(entries.len(), |i: int| entries[i]@)
}

/// A row to be stored beside an entry whose text does not change.
#[derive(Debug, Clone, PartialEq, Eq)]
pub struct RowDraft<S = String> {
    pub memory_id: S,
    pub status: NormalizationStatus,
    pub canon_text_sha256: S,
    pub source_language: Option<S>,
    pub attempt_count: i64,
    pub last_error: Option<S>,
    pub next_attempt_at: Option<i64>,
}

impl View for RowDraft<String> {
    type V = RowDraft<Seq<char>>;

    open spec fn view(&self) -> RowDraft<Seq<char>> {
        RowDraft {
            memory_id: self.memory_id@,
            status: self.status,
            canon_text_sha256: self.canon_text_sha256@,
            source_language: self.source_language.deep_view(),
            attempt_count: self.attempt_count,
            last_error: self.last_error.deep_view(),
            next_attempt_at: self.next_attempt_at,
        }
    }
}

/// The row of an entry that is English.
pub open spec fn english_row(
    memory_id: Seq<char>,
    text_sha256: Seq<char>,
    class: ScriptClass,
) -> RowDraft<Seq<char>> {
    RowDraft {
        memory_id,
        status: NormalizationStatus::English,
        canon_text_sha256: text_sha256,
        source_language: Some(class.label()),
        attempt_count: 0,
        last_error: None,
        next_attempt_at: None,
    }
}

/// The row of an entry whose translation was refused.
pub open spec fn refused_row(
    memory_id: Seq<char>,
    text_sha256: Seq<char>,
    attempt_count: i64,
    last_error: Seq<char>,
    next_attempt_at: Option<i64>,
) -> RowDraft<Seq<char>> {
    RowDraft {
        memory_id,
        status: NormalizationStatus::Failed,
        canon_text_sha256: text_sha256,
        source_language: None,
        attempt_count,
        last_error: Some(last_error),
        next_attempt_at,
    }
}

/// What is handed to the store for a row. It is written only where the hash of the entry's
/// text is still the expected one.
#[derive(Debug, PartialEq, Eq)]
pub struct NormalizationWrite<S = String> {
    pub memory_id: S,
    pub status: NormalizationStatus,
    pub expected_text_sha256: S,
    pub canon_text_sha256: S,
    pub source_text: Option<S>,
    pub source_language: Option<S>,
    pub normalizer_model_id: Option<S>,
    pub prompt_version: Option<i64>,
    pub normalizer_version: i64,
    pub attempt_count: i64,
    pub last_error: Option<S>,
    pub next_attempt_at: Option<i64>,
}

impl View for NormalizationWrite<String> {
    type V = NormalizationWrite<Seq<char>>;

    open spec fn view(&self) -> NormalizationWrite<Seq<char>> {
        NormalizationWrite {
            memory_id: self.memory_id@,
            status: self.status,
            expected_text_sha256: self.expected_text_sha256@,
            canon_text_sha256: self.canon_text_sha256@,
            source_text: self.source_text.deep_view(),
            source_language: self.source_language.deep_view(),
            normalizer_model_id: self.normalizer_model_id.deep_view(),
            prompt_version: self.prompt_version,
            normalizer_version: self.normalizer_version,
            attempt_count: self.attempt_count,
            last_error: self.last_error.deep_view(),
            next_attempt_at: self.next_attempt_at,
        }
    }
}

/// What is handed to the store for a draft. The text does not change, so the hash that is
/// expected is the hash that is stored.
pub open spec fn write_of(
    draft: RowDraft<Seq<char>>,
    normalizer_version: i64,
) -> NormalizationWrite<Seq<char>> {
    NormalizationWrite {
        memory_id: draft.memory_id,
        status: draft.status,
        expected_text_sha256: draft.canon_text_sha256,
        canon_text_sha256: draft.canon_text_sha256,
        source_text: None,
        source_language: draft.source_language,
        normalizer_model_id: None,
        prompt_version: None,
        normalizer_version,
        attempt_count: draft.attempt_count,
        last_error: draft.last_error,
        next_attempt_at: draft.next_attempt_at,
    }
}

impl RowDraft<String> {
    /// The row of an entry that is English. Its author's words are what is stored, so there
    /// is nothing else to keep.
    pub fn english(memory_id: &str, text_sha256: &str, class: ScriptClass) -> (r: Self)
        ensures
            r@ == english_row(memory_id@, text_sha256@, class),
    {
        RowDraft {
            memory_id: memory_id.to_owned(),
            status: NormalizationStatus::English,
            canon_text_sha256: text_sha256.to_owned(),
            source_language: Some(script_label(class).to_owned()),
            attempt_count: 0,
            last_error: None,
            next_attempt_at: None,
        }
    }

    /// The row of an entry whose translation was refused.
    pub fn failure(
        memory_id: &str,
        text_sha256: &str,
        attempt_count: i64,
        last_error: &str,
        next_attempt_at: Option<i64>,
    ) -> (r: Self)
        ensures
            r@ == refused_row(
                memory_id@,
                text_sha256@,
                attempt_count,
                last_error@,
                next_attempt_at,
            ),
    {
        RowDraft {
            memory_id: memory_id.to_owned(),
            status: NormalizationStatus::Failed,
            canon_text_sha256: text_sha256.to_owned(),
            source_language: None,
            attempt_count,
            last_error: Some(last_error.to_owned()),
            next_attempt_at,
        }
    }

    /// What is handed to the store. The text does not change, so the hash that is expected
    /// is the hash that is stored.
    pub fn as_write(&self, normalizer_version: i64) -> (r: NormalizationWrite)
        ensures
            r@ == write_of(self@, normalizer_version),
    {
        NormalizationWrite {
            memory_id: self.memory_id.clone(),
            status: self.status,
            expected_text_sha256: self.canon_text_sha256.clone(),
            canon_text_sha256: self.canon_text_sha256.clone(),
            source_text: None,
            source_language: self.source_language.clone(),
            normalizer_model_id: None,
            prompt_version: None,
            normalizer_version,
            attempt_count: self.attempt_count,
            last_error: self.last_error.clone(),
            next_attempt_at: self.next_attempt_at,
        }
    }
}

/// When, if ever, a refused entry is tried again, and how many attempts it has had by then.
pub open spec fn retry(
    kind: TranslateFailureKind,
    attempt_count: i64,
    max_attempts: i64,
    now_ms: i64,
    backoff_ms: i64,
) -> (int, Option<int>) {
    if kind is Mechanical {
        (max_attempts as int, None)
    } else {
        (attempt_count + 1, Some(now_ms + backoff_ms))
    }
}

/// The row that records a refusal. What fails mechanically fails again, so it gets no more
/// attempts; what may pass is tried again after `backoff_ms`. A missing translator is no
/// refusal of the entry and has no row.
pub fn failure_row(
    entry: &PendingEntry,
    kind: TranslateFailureKind,
    reason: &str,
    max_attempts: i64,
    now_ms: i64,
    backoff_ms: i64,
) -> (r: RowDraft)
    requires
        kind !is Unavailable,
        entry.attempt_count < i64::MAX,
        i64::MIN <= now_ms + backoff_ms <= i64::MAX,
    ensures
        ({
            let next = retry(kind, entry.attempt_count, max_attempts, now_ms, backoff_ms);
            &&& r@.memory_id == entry@.memory_id
            &&& r@.status is Failed
            &&& r@.canon_text_sha256 == entry@.text_sha256
            &&& r@.source_language is None
            &&& r@.attempt_count == next.0
            &&& r@.last_error == Some(
                crate::normalization::boundary::shortened(reason@, LAST_ERROR_MAX_CHARS as nat),
            )
            &&& match next.1 {
                Some(at) => r@.next_attempt_at matches Some(t) && t == at,
                None => r@.next_attempt_at is None,
            }
        }),
{
    let shortened = refusal_reason(reason, LAST_ERROR_MAX_CHARS);
    match kind {
        TranslateFailureKind::Mechanical => RowDraft::failure(
            entry.memory_id.as_str(),
            entry.text_sha256.as_str(),
            max_attempts,
            shortened.as_str(),
            None,
        ),
        _ => RowDraft::failure(
            entry.memory_id.as_str(),
            entry.text_sha256.as_str(),
            entry.attempt_count + 1,
            shortened.as_str(),
            Some(now_ms + backoff_ms),
        ),
    }
}

/// Whether consolidation is using the model, or is about to.
pub open spec fn consolidates(running: Map<u64, JobKind>) -> bool {
    exists|token: u64| #[trigger]
        running.contains_key(token) && (running[token] is ConsolidationResume
            || running[token] is ConsolidationTrigger)
}

/// Whether consolidation is using the model, or is about to.
pub fn consolidation_running(jobs: &JobRegistry) -> (r: bool)
    ensures
        r <==> consolidates(jobs@.running),
{
    let kinds = [JobKind::ConsolidationResume, JobKind::ConsolidationTrigger];
    let r = jobs.any_running(&kinds);
    proof {
        assert(kinds@[0] is ConsolidationResume && kinds@[1] is ConsolidationTrigger);
        assert forall|kind: JobKind| #[trigger] kinds@.contains(kind) <==> kind
            is ConsolidationResume || kind is ConsolidationTrigger by {
            if kind is ConsolidationResume {
                assert(kinds@[0] == kind);
            }
            if kind is ConsolidationTrigger {
                assert(kinds@[1] == kind);
            }
        }
    }
    r
}

/// What a tick is doing.
#[derive(Debug, Clone, Copy, PartialEq, Eq, Structural)]
pub enum SweepStage {
    /// Reading the entries that may need work.
    Reading,
    /// Writing the rows of the entries that are English.
    Settling,
    /// Translating an entry.
    Translating,
    /// Storing the translation of an entry in place of its text.
    Installing,
    /// Writing the row of an entry that the translator found to be English.
    RecordingEnglish,
    /// Writing the row of an entry whose translation was refused.
    RecordingFailure,
    /// Everything is done.
    Finished,
}

/// What came of storing a translation.
#[derive(Debug, PartialEq, Eq)]
pub enum InstallOutcome<S = String> {
    Installed,
    /// The entry changed while it was translated.
    Moved,
    Failed(S),
}

/// How storing a translation went: first the entry's text is changed, where its version is
/// still the one that was read, then the row is written, both or neither.
#[derive(Debug, PartialEq, Eq)]
pub enum EditResult {
    Applied,
    /// The entry's version is another one.
    OptimisticConflict,
    /// The change was refused for another reason.
    Refused(String),
    /// Nothing could be written.
    WriteFailed(String),
}

/// What the store is asked to do with an entry whose text was decided on: to put the decided
/// text in place of `text` and the row beside it, on the daemon's own behalf, where the entry
/// is still in the version that was read. No second run can meet that version, so no key
/// guards the change. `canon_sha256` is the hash of the decided text.
pub open spec fn installs(
    entry: PendingEntry<Seq<char>>,
    text: Seq<char>,
    decided: Normalized<Seq<char>>,
    canon_sha256: Seq<char>,
    translator_version: i64,
    plan: EditPlan,
) -> bool {
    &&& plan.memory_id@ == entry.memory_id
    &&& plan.expected_version == entry.entry_version
    &&& plan.text.deep_view() == Some(decided.canon_of(text))
    &&& plan.importance is None
    &&& plan.actor == Actor::System
    &&& plan.idempotency_key is None
    &&& plan.row matches Some(row) && row@ == crate::normalization::boundary::row_for(
        entry.memory_id,
        canon_sha256,
        decided,
        translator_version,
    )
}

/// What the store is asked to do with an entry whose text was decided on.
pub fn install_plan(
    entry: &PendingEntry,
    text: &str,
    decided: Normalized,
    canon_sha256: &str,
    translator_version: i64,
) -> (r: EditPlan)
    ensures
        installs(entry@, text@, decided@, canon_sha256@, translator_version, r),
{
    let canon = decided.canon(text).to_owned();
    let row = OwnedNormalizationRow::for_canon(
        entry.memory_id.as_str(),
        canon_sha256,
        decided,
        translator_version,
    );
    EditPlan {
        memory_id: entry.memory_id.clone(),
        expected_version: entry.entry_version,
        text: Some(canon),
        importance: None,
        actor: Actor::System,
        idempotency_key: None,
        row: Some(row),
    }
}

impl View for InstallOutcome<String> {
    type V = InstallOutcome<Seq<char>>;

    open spec fn view(&self) -> InstallOutcome<Seq<char>> {
        match *self {
            InstallOutcome::Installed => InstallOutcome::Installed,
            InstallOutcome::Moved => InstallOutcome::Moved,
            InstallOutcome::Failed(reason) => InstallOutcome::Failed(reason@),
        }
    }
}

/// What came of storing a translation.
pub open spec fn outcome_of(result: EditResult) -> InstallOutcome<Seq<char>> {
    match result {
        EditResult::Applied => InstallOutcome::Installed,
        EditResult::OptimisticConflict => InstallOutcome::Moved,
        EditResult::Refused(e) => InstallOutcome::Failed(e@),
        EditResult::WriteFailed(e) => InstallOutcome::Failed(e@),
    }
}

/// What came of storing a translation.
pub fn install_outcome(result: EditResult) -> (r: InstallOutcome)
    ensures
        r@ == outcome_of(result),
{
    match result {
        EditResult::Applied => InstallOutcome::Installed,
        EditResult::OptimisticConflict => InstallOutcome::Moved,
        EditResult::Refused(e) => InstallOutcome::Failed(e),
        EditResult::WriteFailed(e) => InstallOutcome::Failed(e),
    }
}

/// What happened in a tick.
#[derive(Debug, PartialEq, Eq)]
pub enum SweepEvent {
    /// The entries, if they could be read.
    Read(Result<Vec<PendingEntry>, String>),
    /// Which of the rows of English entries were written, in their order, if any could be.
    /// A row is not written where the entry changed.
    Settled(Option<Vec<bool>>),
    /// What the translator made of the entry.
    Decided(Normalized),
    Installed(InstallOutcome),
    /// Whether a row was written, if it could be.
    Recorded(Option<bool>),
}

/// One tick: what it is doing, with which entries, and what it did so far.
#[derive(Debug)]
pub struct Sweep {
    pub stage: SweepStage,
    pub report: TickReport,
    /// The entries that are English.
    pub english: Vec<PendingEntry>,
    /// The entries that are to be translated.
    pub other: Vec<PendingEntry>,
    /// Which of those is next.
    pub at: usize,
}

/// What a [`Sweep`] stands for.
pub struct SweepView {
    pub stage: SweepStage,
    pub report: TickReport<Option<AbortReason<Seq<char>>>>,
    pub english: Seq<PendingEntry<Seq<char>>>,
    pub other: Seq<PendingEntry<Seq<char>>>,
    pub at: int,
}

impl View for Sweep {
    type V = SweepView;

    open spec fn view(&self) -> SweepView {
        SweepView {
            stage: self.stage,
            report: self.report@,
            english: entries_view(self.english@),
            other: entries_view(self.other@),
            at: self.at as int,
        }
    }
}

/// The entries that are not English, or those that are, in their order.
pub open spec fn sorted_out(
    entries: Seq<PendingEntry<Seq<char>>>,
    non_latin: bool,
) -> Seq<PendingEntry<Seq<char>>>
    decreases entries.len(),
{
    if entries.len() == 0 {
        Seq::empty()
    } else {
        let before = sorted_out(entries.drop_last(), non_latin);
        if (entries.last().class is NonLatin) == non_latin {
            before.push(entries.last())
        } else {
            before
        }
    }
}

/// How many of the first `n` rows were written. A row that nothing is said of was not.
pub open spec fn rows_written(written: Seq<bool>, n: nat) -> nat
    decreases n,
{
    if n == 0 {
        0
    } else {
        rows_written(written, (n - 1) as nat) + if n <= written.len() && written[n - 1] {
            1nat
        } else {
            0
        }
    }
}

impl SweepView {
    /// How many entries the report tells the end of, or that they were not got to.
    pub open spec fn accounted(self) -> int {
        self.report.settled + self.report.translated + self.report.failed + self.report.deferred
            + self.report.awaiting_translation
    }

    /// Every entry that was read is accounted for once, or is still to be dealt with.
    pub open spec fn well_formed(self) -> bool {
        &&& 0 <= self.at <= self.other.len()
        &&& match self.stage {
            SweepStage::Reading => self.report == nothing_done(),
            SweepStage::Settling => {
                &&& self.report == (TickReport {
                    examined: self.report.examined,
                    awaiting_translation: self.report.awaiting_translation,
                    ..nothing_done()
                })
                &&& self.report.examined == self.english.len() + self.other.len()
                &&& self.report.awaiting_translation == self.other.len()
                &&& self.at == 0
            },
            SweepStage::Finished => {
                &&& self.accounted() <= self.report.examined
                &&& self.report.aborted is None ==> self.accounted() == self.report.examined
            },
            _ => {
                &&& self.at < self.other.len()
                &&& self.accounted() + (self.other.len() - self.at) == self.report.examined
                &&& self.report.aborted is None
                &&& !self.report.yielded_to_consolidation
            },
        }
    }

    /// The tick once the English entries are settled: the others are translated, as many as
    /// a tick may, unless the model is left to consolidation.
    pub open spec fn proceed(
        self,
        deference: Deference,
        consolidating: bool,
        translate_batch: usize,
    ) -> SweepView {
        if self.other.len() == 0 {
            SweepView { stage: SweepStage::Finished, ..self }
        } else if deference is Polite && consolidating {
            SweepView {
                stage: SweepStage::Finished,
                report: TickReport { yielded_to_consolidation: true, ..self.report },
                ..self
            }
        } else {
            let batch: int = if self.other.len() > translate_batch {
                translate_batch as int
            } else {
                self.other.len() as int
            };
            SweepView {
                stage: if batch > 0 {
                    SweepStage::Translating
                } else {
                    SweepStage::Finished
                },
                report: TickReport {
                    awaiting_translation: (self.other.len() - batch) as usize,
                    ..self.report
                },
                other: self.other.take(batch),
                ..self
            }
        }
    }

    /// The tick after an entry is dealt with, as `report` tells.
    pub open spec fn next(self, report: TickReport<Option<AbortReason<Seq<char>>>>) -> SweepView {
        SweepView {
            stage: if self.at + 1 < self.other.len() {
                SweepStage::Translating
            } else {
                SweepStage::Finished
            },
            report,
            at: self.at + 1,
            ..self
        }
    }
}

/// The tick after an event. An event that does not belong to what is being done changes
/// nothing.
pub open spec fn sweep_step(
    before: SweepView,
    event: SweepEvent,
    params: NormalizationParams,
    deference: Deference,
    consolidating: bool,
) -> SweepView {
    let report = before.report;
    match (before.stage, event) {
        (SweepStage::Reading, SweepEvent::Read(Err(reason))) => SweepView {
            stage: SweepStage::Finished,
            report: TickReport {
                aborted: Some(AbortReason::QueueUnavailable(reason@)),
                ..report
            },
            ..before
        },
        (SweepStage::Reading, SweepEvent::Read(Ok(entries))) => {
            let pending = entries_view(entries@);
            let english = sorted_out(pending, false);
            let other = sorted_out(pending, true);
            let read = SweepView {
                stage: SweepStage::Settling,
                report: TickReport {
                    examined: pending.len() as usize,
                    awaiting_translation: other.len() as usize,
                    ..report
                },
                english,
                other,
                at: 0,
            };
            if english.len() == 0 {
                read.proceed(deference, consolidating, params.translate_batch)
            } else {
                read
            }
        },
        (SweepStage::Settling, SweepEvent::Settled(written)) => {
            let n = before.english.len();
            let settled = match written {
                Some(rows) => rows_written(rows@, n),
                None => 0,
            };
            SweepView {
                report: TickReport {
                    settled: settled as usize,
                    deferred: (n - settled) as usize,
                    ..report
                },
                ..before
            }.proceed(deference, consolidating, params.translate_batch)
        },
        (SweepStage::Translating, SweepEvent::Decided(decided)) => match decided {
            Normalized::Translated { .. } => SweepView { stage: SweepStage::Installing, ..before },
            Normalized::AlreadyEnglish { .. } => SweepView {
                stage: SweepStage::RecordingEnglish,
                ..before
            },
            Normalized::Refused { reason, kind } => if kind is Unavailable {
                SweepView {
                    stage: SweepStage::Finished,
                    report: TickReport {
                        aborted: Some(AbortReason::Unavailable(reason@)),
                        ..report
                    },
                    ..before
                }
            } else {
                SweepView { stage: SweepStage::RecordingFailure, ..before }
            },
        },
        (SweepStage::Installing, SweepEvent::Installed(outcome)) => before.next(
            if outcome is Installed {
                TickReport { translated: (report.translated + 1) as usize, ..report }
            } else {
                TickReport { deferred: (report.deferred + 1) as usize, ..report }
            },
        ),
        (SweepStage::RecordingEnglish, SweepEvent::Recorded(written)) => before.next(
            if written is Some {
                TickReport { settled: (report.settled + 1) as usize, ..report }
            } else {
                TickReport { deferred: (report.deferred + 1) as usize, ..report }
            },
        ),
        (SweepStage::RecordingFailure, SweepEvent::Recorded(written)) => before.next(
            if written == Some(true) {
                TickReport { failed: (report.failed + 1) as usize, ..report }
            } else {
                TickReport { deferred: (report.deferred + 1) as usize, ..report }
            },
        ),
        _ => before,
    }
}

/// A tick of which nothing is done. One that is switched off is finished at once.
pub open spec fn fresh_sweep(params: NormalizationParams) -> SweepView {
    SweepView {
        stage: if params.enabled {
            SweepStage::Reading
        } else {
            SweepStage::Finished
        },
        report: nothing_done(),
        english: Seq::empty(),
        other: Seq::empty(),
        at: 0,
    }
}

/// A whole tick: what becomes of a fresh one by `events`. Each event comes with whether
/// consolidation was using the model then.
pub open spec fn sweep_after(
    events: Seq<(SweepEvent, bool)>,
    params: NormalizationParams,
    deference: Deference,
) -> SweepView
    decreases events.len(),
{
    if events.len() == 0 {
        fresh_sweep(params)
    } else {
        sweep_step(
            sweep_after(events.drop_last(), params, deference),
            events.last().0,
            params,
            deference,
            events.last().1,
        )
    }
}

proof fn lemma_sorted_out(entries: Seq<PendingEntry<Seq<char>>>)
    ensures
        sorted_out(entries, false).len() + sorted_out(entries, true).len() == entries.len(),
    decreases entries.len(),
{
    if entries.len() > 0 {
        lemma_sorted_out(entries.drop_last());
    }
}

/// The entry that is being dealt with once `at` of them were, if one is.
pub open spec fn entry_in_hand(other: Seq<PendingEntry<Seq<char>>>, at: int) -> Option<
    PendingEntry<Seq<char>>,
> {
    if at < other.len() {
        Some(other[at])
    } else {
        None
    }
}

impl Sweep {
    /// A tick of which nothing is done. One that is switched off is finished at once.
    pub fn new(params: &NormalizationParams) -> (r: Self)
        ensures
            r@.well_formed(),
            r@ == fresh_sweep(*params),
    {
        let fresh = Sweep {
            stage: if params.enabled {
                SweepStage::Reading
            } else {
                SweepStage::Finished
            },
            report: Default::default(),
            english: Vec::new(),
            other: Vec::new(),
            at: 0,
        };
        proof {
            assert(fresh@.english =~= Seq::empty());
            assert(fresh@.other =~= Seq::empty());
        }
        fresh
    }

    /// The entry that is being dealt with, if one is.
    pub fn entry(&self) -> (r: Option<&PendingEntry>)
        ensures
            (match r {
                Some(entry) => Some(entry@),
                None => None,
            }) == entry_in_hand(self@.other, self@.at),
    {
        if self.at < self.other.len() {
            Some(&self.other[self.at])
        } else {
            None
        }
    }

    /// The rows of the entries that are English, in their order.
    pub fn english_rows(&self) -> (r: Vec<RowDraft>)
        ensures
            r@.len() == self@.english.len(),
            forall|i: int|
                0 <= i < r@.len() ==> (#[trigger] r@[i])@ == english_row(
                    self@.english[i].memory_id,
                    self@.english[i].text_sha256,
                    self@.english[i].class,
                ),
    {
        let mut rows: Vec<RowDraft> = Vec::new();
        let mut i: usize = 0;
        while i < self.english.len()
            invariant
                i <= self.english@.len(),
                rows@.len() == i,
                forall|j: int|
                    0 <= j < i ==> (#[trigger] rows@[j])@ == english_row(
                        self@.english[j].memory_id,
                        self@.english[j].text_sha256,
                        self@.english[j].class,
                    ),
            decreases self.english@.len() - i,
        {
            let entry = &self.english[i];
            let row = RowDraft::english(
                entry.memory_id.as_str(),
                entry.text_sha256.as_str(),
                entry.class,
            );
            proof {
                assert(self@.english[i as int] == entry@);
            }
            rows.push(row);
            i = i + 1;
        }
        rows
    }

    fn proceed(&mut self, deference: Deference, consolidating: bool, translate_batch: usize)
        requires
            old(self)@.at == 0,
            old(self)@.report.awaiting_translation == old(self)@.other.len(),
            old(self)@.accounted() == old(self)@.report.examined,
            old(self)@.report.aborted is None,
            !old(self)@.report.yielded_to_consolidation,
        ensures
            final(self)@ == old(self)@.proceed(deference, consolidating, translate_batch),
            final(self)@.well_formed(),
    {
        let ghost before = self@;
        let total: usize = self.other.len();
        if total == 0 {
            self.stage = SweepStage::Finished;
            return ;
        }
        if deference == Deference::Polite && consolidating {
            self.report.yielded_to_consolidation = true;
            self.stage = SweepStage::Finished;
            return ;
        }
        if total > translate_batch {
            self.other.truncate(translate_batch);
        }
        self.report.awaiting_translation = total - self.other.len();
        self.stage = if self.other.len() > 0 {
            SweepStage::Translating
        } else {
            SweepStage::Finished
        };
        proof {
            let batch: int = if total > translate_batch {
                translate_batch as int
            } else {
                total as int
            };
            assert(self@.other =~= before.other.take(batch));
        }
    }

    fn next(&mut self)
        requires
            old(self).at < old(self).other@.len(),
            old(self)@.accounted() + (old(self)@.other.len() - old(self)@.at - 1)
                == old(self)@.report.examined,
            old(self)@.report.aborted is None,
            !old(self)@.report.yielded_to_consolidation,
        ensures
            final(self)@ == old(self)@.next(old(self)@.report),
            final(self)@.well_formed(),
    {
        let total: usize = self.other.len();
        self.at = self.at + 1;
        self.stage = if self.at < total {
            SweepStage::Translating
        } else {
            SweepStage::Finished
        };
    }

    fn read(&mut self, entries: Vec<PendingEntry>)
        requires
            old(self)@.report == nothing_done(),
        ensures
            ({
                let pending = entries_view(entries@);
                final(self)@ == (SweepView {
                    stage: SweepStage::Settling,
                    report: TickReport {
                        examined: pending.len() as usize,
                        awaiting_translation: sorted_out(pending, true).len() as usize,
                        ..nothing_done()
                    },
                    english: sorted_out(pending, false),
                    other: sorted_out(pending, true),
                    at: 0,
                })
            }),
            final(self)@.well_formed(),
    {
        let ghost pending = entries_view(entries@);
        let mut english: Vec<PendingEntry> = Vec::new();
        let mut other: Vec<PendingEntry> = Vec::new();
        let examined: usize = entries.len();
        let ghost all = entries@;
        proof {
            assert(entries_view(english@) =~= Seq::empty());
            assert(entries_view(other@) =~= Seq::empty());
        }
        for entry in it: entries
            invariant
                it.seq() == all,
                pending == entries_view(all),
                entries_view(english@) == sorted_out(pending.take(it.index()), false),
                entries_view(other@) == sorted_out(pending.take(it.index()), true),
        {
            let ghost e = entry@;
            let ghost k = it.index();
            proof {
                assert(pending.take(k + 1).drop_last() =~= pending.take(k));
                assert(pending.take(k + 1).last() == e);
            }
            if entry.class == ScriptClass::NonLatin {
                let ghost before = entries_view(other@);
                other.push(entry);
                proof {
                    assert(entries_view(other@) =~= before.push(e));
                }
            } else {
                let ghost before = entries_view(english@);
                english.push(entry);
                proof {
                    assert(entries_view(english@) =~= before.push(e));
                }
            }
        }
        proof {
            assert(pending.take(pending.len() as int) =~= pending);
            lemma_sorted_out(pending);
        }
        self.report.examined = examined;
        self.report.awaiting_translation = other.len();
        self.english = english;
        self.other = other;
        self.at = 0;
        self.stage = SweepStage::Settling;
    }

    /// Takes the tick one event further. `consolidating` says whether consolidation is using
    /// the model, see [`consolidation_running`].
    pub fn on_event(
        &mut self,
        event: SweepEvent,
        params: &NormalizationParams,
        deference: Deference,
        consolidating: bool,
    )
        requires
            old(self)@.well_formed(),
        ensures
            final(self)@.well_formed(),
            final(self)@ == sweep_step(old(self)@, event, *params, deference, consolidating),
    {
        match (self.stage, event) {
            (SweepStage::Reading, SweepEvent::Read(read)) => match read {
                Err(reason) => {
                    self.report.aborted = Some(AbortReason::QueueUnavailable(reason));
                    self.stage = SweepStage::Finished;
                },
                Ok(entries) => {
                    self.read(entries);
                    if self.english.len() == 0 {
                        self.proceed(deference, consolidating, params.translate_batch);
                    }
                },
            },
            (SweepStage::Settling, SweepEvent::Settled(written)) => {
                let n: usize = self.english.len();
                let mut settled: usize = 0;
                if let Some(rows) = &written {
                    let mut i: usize = 0;
                    while i < n
                        invariant
                            i <= n,
                            settled == rows_written(rows@, i as nat),
                            settled <= i,
                        decreases n - i,
                    {
                        if i < rows.len() && rows[i] {
                            settled = settled + 1;
                        }
                        i = i + 1;
                    }
                }
                self.report.settled = settled;
                self.report.deferred = n - settled;
                self.proceed(deference, consolidating, params.translate_batch);
            },
            (SweepStage::Translating, SweepEvent::Decided(decided)) => match decided {
                Normalized::Translated { .. } => {
                    self.stage = SweepStage::Installing;
                },
                Normalized::AlreadyEnglish { .. } => {
                    self.stage = SweepStage::RecordingEnglish;
                },
                Normalized::Refused { reason, kind } => {
                    if kind == TranslateFailureKind::Unavailable {
                        self.report.aborted = Some(AbortReason::Unavailable(reason));
                        self.stage = SweepStage::Finished;
                    } else {
                        self.stage = SweepStage::RecordingFailure;
                    }
                },
            },
            (SweepStage::Installing, SweepEvent::Installed(outcome)) => {
                if let InstallOutcome::Installed = outcome {
                    self.report.translated = self.report.translated + 1;
                } else {
                    self.report.deferred = self.report.deferred + 1;
                }
                self.next();
            },
            (SweepStage::RecordingEnglish, SweepEvent::Recorded(written)) => {
                if written.is_some() {
                    self.report.settled = self.report.settled + 1;
                } else {
                    self.report.deferred = self.report.deferred + 1;
                }
                self.next();
            },
            (SweepStage::RecordingFailure, SweepEvent::Recorded(written)) => {
                if let Some(true) = written {
                    self.report.failed = self.report.failed + 1;
                } else {
                    self.report.deferred = self.report.deferred + 1;
                }
                self.next();
            },
            _ => {},
        }
    }
}

/// A tick that ran to its end has accounted for every entry it read: each was settled,
/// translated, refused or deferred, or still awaits its translation.
pub proof fn law_every_entry_is_accounted_for(sweep: SweepView)
    requires
        sweep.well_formed(),
        sweep.stage is Finished,
        sweep.report.aborted is None,
    ensures
        sweep.report.examined == sweep.report.settled + sweep.report.translated
            + sweep.report.failed + sweep.report.deferred + sweep.report.awaiting_translation,
{
}

/// A missing translator ends the tick, and no entry is blamed for it.
pub proof fn law_a_missing_translator_blames_no_entry(
    sweep: SweepView,
    reason: String,
    params: NormalizationParams,
    deference: Deference,
    consolidating: bool,
)
    requires
        sweep.well_formed(),
        sweep.stage is Translating,
    ensures
        ({
            let after = sweep_step(
                sweep,
                SweepEvent::Decided(
                    Normalized::Refused { reason, kind: TranslateFailureKind::Unavailable },
                ),
                params,
                deference,
                consolidating,
            );
            &&& after.stage is Finished
            &&& after.report == (TickReport {
                aborted: Some(AbortReason::Unavailable(reason@)),
                ..sweep.report
            })
        }),
{
}

impl SweepView {
    /// The tick spends no more than it may: no more entries are translated and refused than
    /// were got to, no more of them are got to than `params` allow, and none where the model
    /// was left to consolidation.
    pub open spec fn within(self, params: NormalizationParams, deference: Deference) -> bool {
        let spent = self.report.translated + self.report.failed;
        match self.stage {
            SweepStage::Reading => spent == 0 && !self.report.yielded_to_consolidation,
            SweepStage::Settling => {
                &&& spent == 0
                &&& self.at == 0
                &&& !self.report.yielded_to_consolidation
            },
            SweepStage::Finished => {
                &&& spent <= params.translate_batch
                &&& self.report.yielded_to_consolidation ==> deference is Polite && spent == 0
            },
            _ => {
                &&& spent <= self.at < self.other.len() <= params.translate_batch
                &&& !self.report.yielded_to_consolidation
            },
        }
    }
}

proof fn lemma_within(
    events: Seq<(SweepEvent, bool)>,
    params: NormalizationParams,
    deference: Deference,
)
    ensures
        sweep_after(events, params, deference).within(params, deference),
    decreases events.len(),
{
    if events.len() > 0 {
        lemma_within(events.drop_last(), params, deference);
    }
}

/// A tick spends no more than it may, whatever happens in it: it translates and refuses
/// [`translate_batch`](NormalizationParams::translate_batch) entries at most. One that leaves
/// the model to consolidation was polite, and neither translates nor refuses any.
pub proof fn law_a_tick_spends_what_it_may(
    events: Seq<(SweepEvent, bool)>,
    params: NormalizationParams,
    deference: Deference,
)
    ensures
        ({
            let report = sweep_after(events, params, deference).report;
            &&& report.translated + report.failed <= params.translate_batch
            &&& report.yielded_to_consolidation ==> deference is Polite && report.translated == 0
                && report.failed == 0
        }),
{
    lemma_within(events, params, deference);
}

/// A tick that is switched off does nothing, whatever happens.
pub proof fn law_a_tick_that_is_off_does_nothing(
    events: Seq<(SweepEvent, bool)>,
    params: NormalizationParams,
    deference: Deference,
)
    requires
        !params.enabled,
    ensures
        sweep_after(events, params, deference) == fresh_sweep(params),
    decreases events.len(),
{
    if events.len() > 0 {
        law_a_tick_that_is_off_does_nothing(events.drop_last(), params, deference);
    }
}

/// A tick that insists does not leave the model to consolidation.
pub proof fn law_an_insistent_tick_does_not_yield(
    sweep: SweepView,
    event: SweepEvent,
    params: NormalizationParams,
    consolidating: bool,
)
    ensures
        sweep_step(
            sweep,
            event,
            params,
            Deference::Insistent,
            consolidating,
        ).report.yielded_to_consolidation == sweep.report.yielded_to_consolidation,
{
}

/// How many ticks in a row have left the model to consolidation.
#[derive(Debug, Clone, Copy, PartialEq, Eq, Structural)]
pub struct Yields {
    pub in_a_row: u32,
}

/// What a tick may do after so many that left the model to consolidation.
pub open spec fn deference_after(in_a_row: int) -> Deference {
    if in_a_row < MAX_CONSECUTIVE_YIELDS {
        Deference::Polite
    } else {
        Deference::Insistent
    }
}

/// How many ticks in a row have left the model to consolidation, after one more tick.
pub open spec fn yields_after(in_a_row: int, yielded: bool) -> int {
    if yielded {
        in_a_row + 1
    } else {
        0
    }
}

impl Yields {
    /// No tick has left the model to consolidation.
    pub fn new() -> (r: Self)
        ensures
            r.in_a_row == 0,
    {
        Yields { in_a_row: 0 }
    }

    /// What the next tick may do.
    pub fn deference(&self) -> (r: Deference)
        ensures
            r == deference_after(self.in_a_row as int),
    {
        if self.in_a_row < MAX_CONSECUTIVE_YIELDS {
            Deference::Polite
        } else {
            Deference::Insistent
        }
    }

    /// Notes what a tick did.
    pub fn note(&mut self, report: &TickReport)
        requires
            old(self).in_a_row < u32::MAX,
        ensures
            final(self).in_a_row == yields_after(
                old(self).in_a_row as int,
                report@.yielded_to_consolidation,
            ),
    {
        self.in_a_row = if report.yielded_to_consolidation {
            self.in_a_row + 1
        } else {
            0
        };
    }
}

/// How many of the last of `ticks` have left the model to consolidation in a row, where
/// each of `ticks` says whether it did.
pub open spec fn yields_in_a_row(ticks: Seq<bool>) -> int
    decreases ticks.len(),
{
    if ticks.len() == 0 || !ticks.last() {
        0
    } else {
        yields_in_a_row(ticks.drop_last()) + 1
    }
}

/// Consolidation cannot keep the model forever: where no tick that insists leaves it the
/// model, never more than [`MAX_CONSECUTIVE_YIELDS`] ticks do so in a row.
pub proof fn law_deference_is_bounded(ticks: Seq<bool>)
    requires
        forall|i: int|
            0 <= i < ticks.len() && #[trigger] ticks[i] ==> deference_after(
                yields_in_a_row(ticks.take(i)),
            ) is Polite,
    ensures
        yields_in_a_row(ticks) <= MAX_CONSECUTIVE_YIELDS,
    decreases ticks.len(),
{
    if ticks.len() > 0 && ticks.last() {
        let last = ticks.len() - 1;
        assert(ticks[last]);
        assert(ticks.take(last) =~= ticks.drop_last());
    }
}

/// Whether two ticks stopped early for the same reason, or neither did.
fn same_abort(a: &Option<AbortReason>, b: &Option<AbortReason>) -> (r: bool)
    ensures
        r == (abort_view(*a) == abort_view(*b)),
{
    match (a, b) {
        (None, None) => true,
        (
            Some(AbortReason::QueueUnavailable(x)),
            Some(AbortReason::QueueUnavailable(y)),
        ) => same(x.as_str(), y.as_str()),
        (Some(AbortReason::Unavailable(x)), Some(AbortReason::Unavailable(y))) => same(
            x.as_str(),
            y.as_str(),
        ),
        _ => false,
    }
}

fn copy_abort(a: &Option<AbortReason>) -> (r: Option<AbortReason>)
    ensures
        abort_view(r) == abort_view(*a),
{
    match a {
        None => None,
        Some(AbortReason::QueueUnavailable(reason)) => Some(
            AbortReason::QueueUnavailable(reason.clone()),
        ),
        Some(AbortReason::Unavailable(reason)) => Some(AbortReason::Unavailable(reason.clone())),
    }
}

/// What is reported once ticks stop early, for another reason, or no longer.
pub open spec fn abort_line(aborted: Option<AbortReason<Seq<char>>>) -> Report<Seq<char>> {
    match aborted {
        Some(AbortReason::QueueUnavailable(reason)) => Report::Error(
            "local-rag: memory normalization could not read its queue: "@ + reason,
        ),
        Some(AbortReason::Unavailable(reason)) => Report::Warning(
            "local-rag: memory normalization has no usable translator, so entries keep the language they were written in: "@
                + reason,
        ),
        None => Report::Info("local-rag: memory normalization resumed"@),
    }
}

/// What is reported of a tick that did something.
pub open spec fn work_line(report: TickReport<Option<AbortReason<Seq<char>>>>) -> Report<
    Seq<char>,
> {
    Report::Info(
        "local-rag: memory normalization tick — examined "@ + crate::text::decimal(
            report.examined as int,
        ) + ", settled "@ + crate::text::decimal(report.settled as int) + ", translated "@
            + crate::text::decimal(report.translated as int) + ", failed "@
            + crate::text::decimal(report.failed as int) + ", awaiting translation "@
            + crate::text::decimal(report.awaiting_translation as int) + ", deferred "@
            + crate::text::decimal(report.deferred as int),
    )
}

/// What is reported of a tick: that ticks now stop early, or no longer do, if that is news,
/// and what the tick did, if it did something. Only numbers and reasons are reported, and
/// nothing that an entry says.
pub open spec fn sweep_lines(
    report: TickReport<Option<AbortReason<Seq<char>>>>,
    last_abort: Option<AbortReason<Seq<char>>>,
) -> Seq<Report<Seq<char>>> {
    let news = if report.aborted != last_abort {
        Seq::empty().push(abort_line(report.aborted))
    } else {
        Seq::empty()
    };
    if report.settled > 0 || report.translated > 0 || report.failed > 0 {
        news.push(work_line(report))
    } else {
        news
    }
}

/// What is reported of a tick.
pub fn log_tick(report: &TickReport, last_abort: &mut Option<AbortReason>) -> (r: Vec<Report>)
    ensures
        crate::report::report_lines(r@) == sweep_lines(report@, abort_view(*old(last_abort))),
        abort_view(*final(last_abort)) == report@.aborted,
{
    let mut lines: Vec<Report> = Vec::new();
    let ghost before = abort_view(*last_abort);
    if !same_abort(&report.aborted, last_abort) {
        let line = match &report.aborted {
            Some(AbortReason::QueueUnavailable(reason)) => Report::Error(
                concat2(
                    "local-rag: memory normalization could not read its queue: ",
                    reason.as_str(),
                ),
            ),
            Some(AbortReason::Unavailable(reason)) => Report::Warning(
                concat2(
                    "local-rag: memory normalization has no usable translator, so entries keep the language they were written in: ",
                    reason.as_str(),
                ),
            ),
            None => Report::Info("local-rag: memory normalization resumed".to_owned()),
        };
        lines.push(line);
        *last_abort = copy_abort(&report.aborted);
    }
    if report.settled > 0 || report.translated > 0 || report.failed > 0 {
        let head = concat5(
            "local-rag: memory normalization tick — examined ",
            decimal_u64(report.examined as u64).as_str(),
            ", settled ",
            decimal_u64(report.settled as u64).as_str(),
            ", translated ",
        );
        let middle = concat5(
            head.as_str(),
            decimal_u64(report.translated as u64).as_str(),
            ", failed ",
            decimal_u64(report.failed as u64).as_str(),
            ", awaiting translation ",
        );
        let line = concat4(
            middle.as_str(),
            decimal_u64(report.awaiting_translation as u64).as_str(),
            ", deferred ",
            decimal_u64(report.deferred as u64).as_str(),
        );
        lines.push(Report::Info(line));
    }
    proof {
        assert(crate::report::report_lines(lines@) =~= sweep_lines(report@, before));
    }
    lines
}

/// The row of an entry that is English says so, holds the hash of the entry's own text and the
/// script it was told by, and nothing of an attempt, for none was made.
pub proof fn law_an_english_entry_is_recorded_as_english(
    memory_id: Seq<char>,
    text_sha256: Seq<char>,
    class: ScriptClass,
)
    ensures
        ({
            let row = english_row(memory_id, text_sha256, class);
            &&& row.memory_id == memory_id
            &&& row.status is English
            &&& row.canon_text_sha256 == text_sha256
            &&& row.source_language == Some(class.label())
            &&& row.attempt_count == 0
            &&& row.last_error is None
            &&& row.next_attempt_at is None
        }),
{
}

/// The row of a refused entry says that it failed, how often and why, and when it is tried
/// again, beside the hash of the entry's own text.
pub proof fn law_a_refusal_is_recorded_as_failed(
    memory_id: Seq<char>,
    text_sha256: Seq<char>,
    attempt_count: i64,
    last_error: Seq<char>,
    next_attempt_at: Option<i64>,
)
    ensures
        ({
            let row = refused_row(
                memory_id,
                text_sha256,
                attempt_count,
                last_error,
                next_attempt_at,
            );
            &&& row.memory_id == memory_id
            &&& row.status is Failed
            &&& row.canon_text_sha256 == text_sha256
            &&& row.source_language is None
            &&& row.attempt_count == attempt_count
            &&& row.last_error == Some(last_error)
            &&& row.next_attempt_at == next_attempt_at
        }),
{
}

/// What fails mechanically has had all its attempts and is never tried again. What may pass has
/// had one attempt more, and is tried again once the pause is over and not before.
pub proof fn law_only_what_may_pass_is_tried_again(
    kind: TranslateFailureKind,
    attempt_count: i64,
    max_attempts: i64,
    now_ms: i64,
    backoff_ms: i64,
)
    ensures
        ({
            let next = retry(kind, attempt_count, max_attempts, now_ms, backoff_ms);
            &&& kind is Mechanical ==> next.0 == max_attempts && next.1 is None
            &&& kind !is Mechanical ==> next.0 == attempt_count + 1 && (next.1 matches Some(at)
                && at - now_ms == backoff_ms)
        }),
{
}

/// What is written is the row as drafted, and only over the text that the row was drafted for:
/// the hash that is expected is the one that is stored, and there is no other text to keep.
pub proof fn law_a_row_is_written_over_its_own_text(
    draft: RowDraft<Seq<char>>,
    normalizer_version: i64,
)
    ensures
        ({
            let write = write_of(draft, normalizer_version);
            &&& write.memory_id == draft.memory_id
            &&& write.status == draft.status
            &&& write.expected_text_sha256 == draft.canon_text_sha256
            &&& write.canon_text_sha256 == draft.canon_text_sha256
            &&& write.source_text is None
            &&& write.source_language == draft.source_language
            &&& write.normalizer_model_id is None
            &&& write.prompt_version is None
            &&& write.normalizer_version == normalizer_version
            &&& write.attempt_count == draft.attempt_count
            &&& write.last_error == draft.last_error
            &&& write.next_attempt_at == draft.next_attempt_at
        }),
{
}

/// A translation is installed over the version that was read, by the daemon itself, as the
/// entry's text and nothing else of it, with a row that is about the same entry.
pub proof fn law_a_translation_replaces_what_was_read(
    entry: PendingEntry<Seq<char>>,
    text: Seq<char>,
    english: String,
    canon_sha256: Seq<char>,
    translator_version: i64,
    decided: Normalized,
    plan: EditPlan,
)
    requires
        decided matches Normalized::Translated { english: e, .. } && e == english,
        installs(entry, text, decided@, canon_sha256, translator_version, plan),
    ensures
        plan.memory_id@ == entry.memory_id,
        plan.expected_version == entry.entry_version,
        plan.text matches Some(new) && new@ == english@,
        plan.importance is None,
        plan.actor is System,
        plan.idempotency_key is None,
        plan.row matches Some(row) && row@.memory_id == entry.memory_id
            && row@.canon_text_sha256 == canon_sha256,
{
}

/// A translation that was stored is installed, one whose entry changed meanwhile has moved, and
/// one that could not be stored failed, for that reason.
pub proof fn law_storing_a_translation_is_told(result: EditResult)
    ensures
        result is Applied <==> outcome_of(result) is Installed,
        result is OptimisticConflict <==> outcome_of(result) is Moved,
        result matches EditResult::Refused(e) ==> outcome_of(result) == (InstallOutcome::Failed(
            e@,
        )),
        result matches EditResult::WriteFailed(e) ==> outcome_of(result) == (
        InstallOutcome::Failed(e@)),
{
}

/// Only consolidation's own jobs are taken for consolidation.
pub proof fn law_consolidation_is_told_by_its_jobs(running: Map<u64, JobKind>, token: u64)
    ensures
        running.contains_key(token) && (running[token] is ConsolidationResume
            || running[token] is ConsolidationTrigger) ==> consolidates(running),
        (forall|t: u64| #[trigger]
            running.contains_key(t) ==> running[t] !is ConsolidationResume
                && running[t] !is ConsolidationTrigger) ==> !consolidates(running),
{
}

/// The entries of either kind are those of the entries that are of it, each of them once, and in
/// their order: an entry that comes next joins the kind that its script says, and no other.
pub proof fn law_an_entry_is_sorted_by_its_script(
    entries: Seq<PendingEntry<Seq<char>>>,
    next: PendingEntry<Seq<char>>,
)
    ensures
        ({
            let all = entries.push(next);
            if next.class is NonLatin {
                &&& sorted_out(all, true) == sorted_out(entries, true).push(next)
                &&& sorted_out(all, false) == sorted_out(entries, false)
            } else {
                &&& sorted_out(all, false) == sorted_out(entries, false).push(next)
                &&& sorted_out(all, true) == sorted_out(entries, true)
            }
        }),
        sorted_out(Seq::empty(), true).len() == 0,
        sorted_out(Seq::empty(), false).len() == 0,
{
    assert(entries.push(next).drop_last() =~= entries);
}

/// A row counts as written exactly where it was said to be, each once.
pub proof fn law_written_rows_are_counted(written: Seq<bool>, n: nat)
    ensures
        rows_written(written, 0) == 0,
        n < written.len() && written[n as int] ==> rows_written(written, (n + 1) as nat)
            == rows_written(written, n) + 1,
        n < written.len() && !written[n as int] ==> rows_written(written, (n + 1) as nat)
            == rows_written(written, n),
        n >= written.len() ==> rows_written(written, (n + 1) as nat) == rows_written(written, n),
        rows_written(written, n) <= n,
    decreases n,
{
    if n > 0 {
        law_written_rows_are_counted(written, (n - 1) as nat);
    }
}

/// A tick that could not read its entries ends there, and says why. One that could starts with
/// those that are English, or, where there are none, with the others.
pub proof fn law_a_tick_starts_with_what_it_read(
    before: SweepView,
    entries: Vec<PendingEntry>,
    reason: String,
    params: NormalizationParams,
    deference: Deference,
    consolidating: bool,
)
    requires
        before.stage is Reading,
        before.well_formed(),
    ensures
        ({
            let after = sweep_step(
                before,
                SweepEvent::Read(Err(reason)),
                params,
                deference,
                consolidating,
            );
            &&& after.stage is Finished
            &&& after.report.aborted == Some(AbortReason::QueueUnavailable(reason@))
            &&& after.report.examined == 0
        }),
        ({
            let after = sweep_step(
                before,
                SweepEvent::Read(Ok(entries)),
                params,
                deference,
                consolidating,
            );
            &&& after.report.examined == entries@.len() as usize
            &&& after.report.aborted is None
            &&& after.english == sorted_out(entries_view(entries@), false)
            &&& after.english.len() > 0 ==> after.stage is Settling
            &&& after.english.len() == 0 ==> after.stage !is Settling && after.stage !is Reading
            &&& after.report.settled == 0 && after.report.translated == 0
            &&& after.report.failed == 0 && after.report.deferred == 0
        }),
{
}

/// Once the English entries are settled, the others are translated, up to the batch. They are
/// left alone only where there are none, where the batch is zero, or where a polite tick meets
/// consolidation, which it then says; nothing else makes it say so.
pub proof fn law_a_polite_tick_gives_way(
    sweep: SweepView,
    deference: Deference,
    consolidating: bool,
    translate_batch: usize,
)
    requires
        sweep.other.len() <= usize::MAX,
        !sweep.report.yielded_to_consolidation,
    ensures
        ({
            let after = sweep.proceed(deference, consolidating, translate_batch);
            let gives_way = deference is Polite && consolidating && sweep.other.len() > 0;
            &&& after.report.yielded_to_consolidation <==> gives_way
            &&& after.stage is Translating <==> !gives_way && sweep.other.len() > 0
                && translate_batch > 0
            &&& after.stage is Translating || after.stage is Finished
            &&& after.stage is Translating ==> {
                &&& after.other.len() <= translate_batch
                &&& after.other.len() == translate_batch || after.other.len() == sweep.other.len()
                &&& after.other == sweep.other.take(after.other.len() as int)
                &&& after.report.awaiting_translation + after.other.len() == sweep.other.len()
            }
            &&& after.report.settled == sweep.report.settled
            &&& after.report.translated == sweep.report.translated
            &&& after.report.failed == sweep.report.failed
            &&& after.report.deferred == sweep.report.deferred
            &&& after.report.examined == sweep.report.examined
            &&& after.report.aborted == sweep.report.aborted
        }),
{
    if sweep.other.len() <= translate_batch {
        assert(sweep.other.take(sweep.other.len() as int) =~= sweep.other);
    }
}

/// Every English entry whose row was written is settled, and every other one is deferred.
pub proof fn law_settling_counts_every_english_entry(
    before: SweepView,
    written: Option<Vec<bool>>,
    params: NormalizationParams,
    deference: Deference,
    consolidating: bool,
)
    requires
        before.stage is Settling,
        before.well_formed(),
    ensures
        ({
            let after = sweep_step(
                before,
                SweepEvent::Settled(written),
                params,
                deference,
                consolidating,
            );
            &&& after.report.settled + after.report.deferred == before.english.len()
            &&& written is None ==> after.report.settled == 0
            &&& written matches Some(rows) ==> after.report.settled == rows_written(
                rows@,
                before.english.len(),
            )
        }),
{
    if let Some(rows) = written {
        law_written_rows_are_counted(rows@, before.english.len());
    }
}

/// What the translator makes of an entry decides what is done with it: a translation is
/// installed, an entry that is English after all is recorded as that, and a refusal is recorded
/// as a failure. None of this counts before it is stored, and the entry stays the one at hand.
pub proof fn law_a_decision_is_acted_on(
    before: SweepView,
    decided: Normalized,
    params: NormalizationParams,
    deference: Deference,
    consolidating: bool,
)
    requires
        before.stage is Translating,
    ensures
        ({
            let after = sweep_step(
                before,
                SweepEvent::Decided(decided),
                params,
                deference,
                consolidating,
            );
            let missing = decided matches Normalized::Refused { kind, .. } && kind is Unavailable;
            &&& decided is Translated <==> after.stage is Installing
            &&& decided is AlreadyEnglish <==> after.stage is RecordingEnglish
            &&& decided is Refused && !missing <==> after.stage is RecordingFailure
            &&& missing <==> after.stage is Finished
            &&& !missing ==> after.report == before.report
            &&& after.at == before.at
            &&& after.other == before.other
        }),
{
}

/// What was stored for an entry counts once and where it belongs, what was not is deferred, and
/// the tick goes on with the next entry, or is finished after the last.
pub proof fn law_an_entry_counts_once(
    before: SweepView,
    outcome: InstallOutcome,
    written: Option<bool>,
    params: NormalizationParams,
    deference: Deference,
    consolidating: bool,
)
    requires
        before.well_formed(),
        before.other.len() < usize::MAX,
        before.stage is Installing || before.stage is RecordingEnglish
            || before.stage is RecordingFailure,
        before.accounted() < before.report.examined,
    ensures
        ({
            let event = if before.stage is Installing {
                SweepEvent::Installed(outcome)
            } else {
                SweepEvent::Recorded(written)
            };
            let after = sweep_step(before, event, params, deference, consolidating);
            let stored = if before.stage is Installing {
                outcome is Installed
            } else if before.stage is RecordingEnglish {
                written is Some
            } else {
                written == Some(true)
            };
            let was = before.report;
            let now = after.report;
            &&& now.translated - was.translated == (if before.stage is Installing && stored {
                1int
            } else {
                0
            })
            &&& now.settled - was.settled == (if before.stage is RecordingEnglish && stored {
                1int
            } else {
                0
            })
            &&& now.failed - was.failed == (if before.stage is RecordingFailure && stored {
                1int
            } else {
                0
            })
            &&& now.deferred - was.deferred == (if stored {
                0int
            } else {
                1
            })
            &&& now.examined == was.examined
            &&& now.awaiting_translation == was.awaiting_translation
            &&& now.aborted == was.aborted
            &&& after.at == before.at + 1
            &&& after.stage is Translating <==> after.at < before.other.len()
            &&& after.stage is Finished <==> after.at == before.other.len()
        }),
{
}

/// Three ticks in a row may leave the model to consolidation and the fourth may not. A tick that
/// does not leave it starts the count anew.
pub proof fn law_three_ticks_may_give_way(in_a_row: int, yielded: bool)
    requires
        in_a_row >= 0,
    ensures
        deference_after(in_a_row) is Polite <==> in_a_row < 3,
        deference_after(in_a_row) is Insistent <==> in_a_row >= 3,
        yields_after(in_a_row, true) == in_a_row + 1,
        yields_after(in_a_row, false) == 0,
        deference_after(yields_after(in_a_row, false)) is Polite,
{
}

/// That ticks stop early, or no longer do, is reported once and not after every tick. What a
/// tick did is reported exactly where it settled, translated or refused something.
pub proof fn law_only_news_is_reported(
    report: TickReport<Option<AbortReason<Seq<char>>>>,
    last_abort: Option<AbortReason<Seq<char>>>,
)
    ensures
        ({
            let lines = sweep_lines(report, last_abort);
            let worked = report.settled > 0 || report.translated > 0 || report.failed > 0;
            let news = report.aborted != last_abort;
            &&& lines.len() == (if news {
                1int
            } else {
                0
            }) + (if worked {
                1int
            } else {
                0
            })
            &&& news ==> (match report.aborted {
                Some(AbortReason::QueueUnavailable(reason)) => lines[0] is Error
                    && lines[0]->Error_0.skip(lines[0]->Error_0.len() - reason.len()) == reason,
                Some(AbortReason::Unavailable(reason)) => lines[0] is Warning
                    && lines[0]->Warning_0.skip(lines[0]->Warning_0.len() - reason.len())
                    == reason,
                None => lines[0] is Info,
            })
            &&& worked ==> lines.last() is Info
        }),
{
    match report.aborted {
        Some(AbortReason::QueueUnavailable(reason)) => {
            let text = abort_line(report.aborted)->Error_0;
            assert(text.skip(text.len() - reason.len()) =~= reason);
        },
        Some(AbortReason::Unavailable(reason)) => {
            let text = abort_line(report.aborted)->Warning_0;
            assert(text.skip(text.len() - reason.len()) =~= reason);
        },
        None => {},
    }
}

/// Normalization is on by default, looks at five hundred and twelve entries in a tick and
/// translates four of them.
pub proof fn law_what_a_tick_may_do_by_default()
    ensures
        usual_params().enabled,
        usual_params().scan_limit == 512,
        usual_params().translate_batch == 4,
        usual_params().translate_batch <= usual_params().scan_limit,
{
}

/// The entry in hand is the first that was not dealt with yet.
pub proof fn law_entries_are_taken_in_turn(other: Seq<PendingEntry<Seq<char>>>, at: int)
    requires
        0 <= at,
    ensures
        entry_in_hand(other, at) is Some <==> at < other.len(),
        at < other.len() ==> entry_in_hand(other, at) == Some(other.skip(at).first()),
{
}

/// A tick that did nothing has nothing to tell.
pub proof fn law_a_tick_that_did_nothing_counts_nothing()
    ensures
        nothing_done().examined == 0,
        nothing_done().settled == 0,
        nothing_done().awaiting_translation == 0,
        nothing_done().translated == 0,
        nothing_done().failed == 0,
        nothing_done().deferred == 0,
        !nothing_done().yielded_to_consolidation,
        nothing_done().aborted is None,
{
}

/// A queue that cannot be read is an error, a translator that cannot be used is a warning, and
/// that ticks go on is news; the first two end with the reason.
pub proof fn law_how_bad_an_early_stop_is(reason: Seq<char>)
    ensures
        abort_line(Some(AbortReason::QueueUnavailable(reason))) == Report::Error(
            "local-rag: memory normalization could not read its queue: "@ + reason,
        ),
        abort_line(Some(AbortReason::Unavailable(reason))) == Report::Warning(
            "local-rag: memory normalization has no usable translator, so entries keep the language they were written in: "@
                + reason,
        ),
        abort_line(None) is Info,
{
}

/// Each count of a tick is told behind its own name.
pub proof fn law_each_count_is_told_under_its_name(
    report: TickReport<Option<AbortReason<Seq<char>>>>,
)
    ensures
        work_line(report) matches Report::Info(line) && exists|
            a: Seq<char>,
            b: Seq<char>,
            c: Seq<char>,
            d: Seq<char>,
            e: Seq<char>,
            f: Seq<char>,
        |
            {
                &&& a == crate::text::decimal(report.examined as int)
                &&& b == crate::text::decimal(report.settled as int)
                &&& c == crate::text::decimal(report.translated as int)
                &&& d == crate::text::decimal(report.failed as int)
                &&& e == crate::text::decimal(report.awaiting_translation as int)
                &&& f == crate::text::decimal(report.deferred as int)
                &&& line == #[trigger] ("local-rag: memory normalization tick — examined "@ + a
                    + ", settled "@ + b + ", translated "@ + c + ", failed "@ + d
                    + ", awaiting translation "@ + e + ", deferred "@ + f)
            },
{
    let a = crate::text::decimal(report.examined as int);
    let b = crate::text::decimal(report.settled as int);
    let c = crate::text::decimal(report.translated as int);
    let d = crate::text::decimal(report.failed as int);
    let e = crate::text::decimal(report.awaiting_translation as int);
    let f = crate::text::decimal(report.deferred as int);
    assert(work_line(report)->Info_0 == "local-rag: memory normalization tick — examined "@ + a
        + ", settled "@ + b + ", translated "@ + c + ", failed "@ + d + ", awaiting translation "@
        + e + ", deferred "@ + f);
}

/// Of the entries to translate a tick takes the first ones, as many as it may, and counts the rest
/// as awaiting. It is finished at once where it may take none.
pub proof fn law_a_tick_takes_its_batch(
    sweep: SweepView,
    deference: Deference,
    consolidating: bool,
    translate_batch: usize,
    i: int,
)
    requires
        0 < sweep.other.len() <= usize::MAX,
        !(deference is Polite && consolidating),
    ensures
        ({
            let after = sweep.proceed(deference, consolidating, translate_batch);
            &&& after.other.len() <= translate_batch
            &&& after.other.len() == translate_batch || after.other.len() == sweep.other.len()
            &&& after.other.len() <= sweep.other.len()
            &&& 0 <= i < after.other.len() ==> after.other[i] == sweep.other[i]
            &&& after.report.awaiting_translation + after.other.len() == sweep.other.len()
            &&& translate_batch == 0 <==> after.stage is Finished
            &&& translate_batch > 0 <==> after.stage is Translating
        }),
{
}

} // verus!
