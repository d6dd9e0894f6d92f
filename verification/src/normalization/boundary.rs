//! Turning incoming text into the text that is stored.
//!
//! English text is stored as it stands and costs nothing. Other text is translated where a
//! translator is at hand. A refusal is an outcome like any other: the author's own words
//! are stored, and the row beside them records why.

use vstd::prelude::*;

use crate::normalization::NormalizationWrite;
use crate::text::{concat2, is_blank, take_chars};

verus! {

/// What the script of a text says about its language.
#[derive(Debug, Clone, Copy, PartialEq, Eq, Structural)]
pub enum ScriptClass {
    English,
    NonLatin,
    Undetermined,
}

impl ScriptClass {
    /// The label of the class.
    pub open spec fn label(self) -> Seq<char> {
        match self {
            ScriptClass::English => "en"@,
            ScriptClass::NonLatin => "non-latin"@,
            ScriptClass::Undetermined => "undetermined"@,
        }
    }
}

/// The label under which a row records what was detected.
pub fn script_label(class: ScriptClass) -> (r: &'static str)
    ensures
        r@ == class.label(),
{
    match class {
        ScriptClass::English => "en",
        ScriptClass::NonLatin => "non-latin",
        ScriptClass::Undetermined => "undetermined",
    }
}

/// Why a translation failed, as far as it matters for trying again.
#[derive(Debug, Clone, Copy, PartialEq, Eq, Structural)]
pub enum TranslateFailureKind {
    /// The same text fails the same way.
    Mechanical,
    /// Another attempt may succeed.
    Transient,
    /// There was no translator to ask.
    Unavailable,
}

/// What becomes of an incoming text.
#[derive(Debug, Clone, PartialEq, Eq)]
pub enum Normalized<S = String> {
    /// The text is stored as it stands, and no translator was asked.
    AlreadyEnglish { class: ScriptClass },
    /// The translation is stored, and the author's words are kept beside it.
    Translated { english: S, original: S, model_id: S },
    /// No translation came about. The author's words are stored.
    Refused { reason: S, kind: TranslateFailureKind },
}

impl View for Normalized<String> {
    type V = Normalized<Seq<char>>;

    open spec fn view(&self) -> Normalized<Seq<char>> {
        match *self {
            Normalized::AlreadyEnglish { class } => Normalized::AlreadyEnglish { class },
            Normalized::Translated { english, original, model_id } => Normalized::Translated {
                english: english@,
                original: original@,
                model_id: model_id@,
            },
            Normalized::Refused { reason, kind } => Normalized::Refused { reason: reason@, kind },
        }
    }
}

impl Normalized<Seq<char>> {
    /// The text to store for `incoming`.
    pub open spec fn canon_of(self, incoming: Seq<char>) -> Seq<char> {
        match self {
            Normalized::Translated { english, original, model_id } => english,
            _ => incoming,
        }
    }

    /// The label of the language the text came in, where something was detected.
    pub open spec fn language(self) -> Option<Seq<char>> {
        match self {
            Normalized::AlreadyEnglish { class } => Some(class.label()),
            Normalized::Translated { english, original, model_id } => Some(
                ScriptClass::NonLatin.label(),
            ),
            Normalized::Refused { reason, kind } => None,
        }
    }

    /// The version of the prompt behind a translation, given the translator's own.
    pub open spec fn prompt_of(self, translator_version: i64) -> Option<i64> {
        if self is Translated {
            Some(translator_version)
        } else {
            None
        }
    }
}

impl Normalized<String> {
    /// The text to store for `incoming`. There is one for every outcome.
    pub fn canon<'a>(&'a self, incoming: &'a str) -> (r: &'a str)
        ensures
            r@ == self@.canon_of(incoming@),
    {
        match self {
            Normalized::Translated { english, .. } => english.as_str(),
            _ => incoming,
        }
    }

    /// The label of the language the text came in, where something was detected.
    pub fn source_language(&self) -> (r: Option<&'static str>)
        ensures
            self@.language() == (match r {
                Some(label) => Some(label@),
                None => None,
            }),
    {
        match self {
            Normalized::AlreadyEnglish { class } => Some(script_label(*class)),
            Normalized::Translated { .. } => Some(script_label(ScriptClass::NonLatin)),
            Normalized::Refused { .. } => None,
        }
    }

    /// The version of the prompt behind a translation, given the translator's own.
    pub fn prompt_version(&self, translator_version: i64) -> (r: Option<i64>)
        ensures
            r == self@.prompt_of(translator_version),
    {
        match self {
            Normalized::Translated { .. } => Some(translator_version),
            _ => None,
        }
    }
}

/// What a translator returned.
#[derive(Debug, PartialEq, Eq)]
pub enum Translation {
    Translated { english: String },
    /// The translator found nothing to translate.
    Passthrough { class: ScriptClass },
    Failed { reason: String, kind: TranslateFailureKind },
}

/// What is said of a text for which no translator is installed.
pub const NO_MODEL: &'static str =
    "no generative model is installed, so the text was stored as written";

/// What becomes of a text before any translator is asked, or nothing where one has to be.
pub open spec fn without_translator(class: ScriptClass, installed: bool) -> Option<
    Normalized<Seq<char>>,
> {
    if class != ScriptClass::NonLatin {
        Some(Normalized::AlreadyEnglish { class })
    } else if !installed {
        Some(
            Normalized::Refused { reason: NO_MODEL@, kind: TranslateFailureKind::Unavailable },
        )
    } else {
        None
    }
}

/// Whether a translator has to be asked: for text in a foreign script, where one is installed.
pub open spec fn asks_translator(class: ScriptClass, installed: bool) -> bool {
    without_translator(class, installed) is None
}

/// What becomes of a text before any translator is asked, or nothing where one has to be.
pub fn before_translation(class: ScriptClass, installed: bool) -> (r: Option<Normalized>)
    ensures
        without_translator(class, installed) == (match r {
            Some(decided) => Some(decided@),
            None => None,
        }),
{
    if class != ScriptClass::NonLatin {
        Some(Normalized::AlreadyEnglish { class })
    } else if !installed {
        Some(
            Normalized::Refused {
                reason: NO_MODEL.to_owned(),
                kind: TranslateFailureKind::Unavailable,
            },
        )
    } else {
        None
    }
}

/// What becomes of a text after its translation.
pub open spec fn with_translation(
    text: Seq<char>,
    model_id: Seq<char>,
    translation: Translation,
) -> Normalized<Seq<char>> {
    match translation {
        Translation::Translated { english } => Normalized::Translated {
            english: english@,
            original: text,
            model_id,
        },
        Translation::Passthrough { class } => Normalized::AlreadyEnglish { class },
        Translation::Failed { reason, kind } => Normalized::Refused { reason: reason@, kind },
    }
}

/// What becomes of a text after its translation.
pub fn after_translation(text: &str, model_id: &str, translation: Translation) -> (r: Normalized)
    ensures
        r@ == with_translation(text@, model_id@, translation),
{
    match translation {
        Translation::Translated { english } => Normalized::Translated {
            english,
            original: text.to_owned(),
            model_id: model_id.to_owned(),
        },
        Translation::Passthrough { class } => Normalized::AlreadyEnglish { class },
        Translation::Failed { reason, kind } => Normalized::Refused { reason, kind },
    }
}

/// Decides what to store for `text`, asking `translate` only where it has to be asked: nothing
/// else gives leave to ask it.
pub fn normalize_for_write<F: Fn(&str, &str) -> Translation>(
    class: ScriptClass,
    translate: &Option<F>,
    model_id: &str,
    memory_id: &str,
    text: &str,
) -> (r: Normalized)
    requires
        asks_translator(class, translate is Some) ==> call_requires(
            translate->0,
            (memory_id, text),
        ),
    ensures
        match without_translator(class, translate is Some) {
            Some(decided) => r@ == decided,
            None => exists|translation: Translation|
                call_ensures(translate->0, (memory_id, text), translation) && r@
                    == #[trigger] with_translation(text@, model_id@, translation),
        },
{
    match before_translation(class, translate.is_some()) {
        Some(decided) => decided,
        None => match translate {
            Some(f) => {
                let translation = f(memory_id, text);
                let ghost given = translation;
                let r = after_translation(text, model_id, translation);
                proof {
                    assert(r@ == with_translation(text@, model_id@, given));
                }
                r
            },
            None => Normalized::AlreadyEnglish { class },
        },
    }
}

/// Text that is not in a foreign script is stored as it stands, and nobody is asked to
/// translate it, whoever might.
pub proof fn law_english_asks_no_translator(class: ScriptClass, installed: bool, text: Seq<char>)
    requires
        class != ScriptClass::NonLatin,
    ensures
        !asks_translator(class, installed),
        without_translator(class, installed) matches Some(decided) && decided is AlreadyEnglish
            && decided->class == class && decided.canon_of(text) == text,
{
}

/// Only a finished translation replaces the author's words, and then they are kept.
pub proof fn law_a_refusal_keeps_the_words(
    text: Seq<char>,
    model_id: Seq<char>,
    translation: Translation,
)
    ensures
        ({
            let decided = with_translation(text, model_id, translation);
            &&& decided !is Translated ==> decided.canon_of(text) == text
            &&& decided is Translated ==> decided->original == text
        }),
{
}

/// A translation task that did not finish is a refusal that may be tried again.
pub open spec fn not_finished(error: Seq<char>) -> Normalized<Seq<char>> {
    Normalized::Refused {
        reason: "the translation task did not finish: "@ + error,
        kind: TranslateFailureKind::Transient,
    }
}

/// A translation task that did not finish is a refusal that may be tried again.
pub fn unfinished(error: &str) -> (r: Normalized)
    ensures
        r@ == not_finished(error@),
{
    Normalized::Refused {
        reason: concat2("the translation task did not finish: ", error),
        kind: TranslateFailureKind::Transient,
    }
}

/// Why a query was searched in a language the store is not kept in.
#[derive(Debug, PartialEq, Eq)]
pub enum QueryNotTranslated<S = String> {
    NoGenerator,
    Refused(S),
}

impl View for QueryNotTranslated<String> {
    type V = QueryNotTranslated<Seq<char>>;

    open spec fn view(&self) -> QueryNotTranslated<Seq<char>> {
        match *self {
            QueryNotTranslated::NoGenerator => QueryNotTranslated::NoGenerator,
            QueryNotTranslated::Refused(reason) => QueryNotTranslated::Refused(reason@),
        }
    }
}

/// The wording of a query that was not translated.
pub open spec fn not_translated_label(why: QueryNotTranslated<Seq<char>>) -> Seq<char> {
    match why {
        QueryNotTranslated::NoGenerator => "no_generator: the query was searched as written"@,
        QueryNotTranslated::Refused(reason) => "translation_refused: "@ + reason,
    }
}

impl QueryNotTranslated<String> {
    /// The wording of a query that was not translated.
    pub fn label(&self) -> (r: String)
        ensures
            r@ == not_translated_label(self@),
    {
        match self {
            QueryNotTranslated::NoGenerator =>
            "no_generator: the query was searched as written".to_owned(),
            QueryNotTranslated::Refused(reason) => concat2(
                "translation_refused: ",
                reason.as_str(),
            ),
        }
    }
}

/// Whether a query is put to the translator. One without terms has nothing to translate.
pub fn query_needs_decision(query: &str) -> (r: bool)
    ensures
        r == !crate::text::blank(query@),
{
    !is_blank(query)
}

/// The query that is searched, and why it is not English where it is not.
pub open spec fn searched_query(query: Seq<char>, decided: Option<Normalized<Seq<char>>>) -> (
    Seq<char>,
    Option<QueryNotTranslated<Seq<char>>>,
) {
    match decided {
        None => (query, None),
        Some(Normalized::AlreadyEnglish { class }) => (query, None),
        Some(Normalized::Translated { english, original, model_id }) => (english, None),
        Some(Normalized::Refused { reason, kind }) => (
            query,
            Some(
                if kind == TranslateFailureKind::Unavailable {
                    QueryNotTranslated::NoGenerator
                } else {
                    QueryNotTranslated::Refused(reason)
                },
            ),
        ),
    }
}

/// The query that is searched, and why it is not English where it is not. Nothing is
/// decided of a query that needs no decision.
pub fn decide_query(query: &str, decided: Option<Normalized>) -> (r: (
    String,
    Option<QueryNotTranslated>,
))
    ensures
        ({
            let expected = searched_query(
                query@,
                match decided {
                    Some(d) => Some(d@),
                    None => None,
                },
            );
            &&& r.0@ == expected.0
            &&& expected.1 == (match r.1 {
                Some(why) => Some(why@),
                None => None,
            })
        }),
{
    match decided {
        None => (query.to_owned(), None),
        Some(Normalized::AlreadyEnglish { .. }) => (query.to_owned(), None),
        Some(Normalized::Translated { english, .. }) => (english, None),
        Some(Normalized::Refused { reason, kind }) => {
            let why = if kind == TranslateFailureKind::Unavailable {
                QueryNotTranslated::NoGenerator
            } else {
                QueryNotTranslated::Refused(reason)
            };
            (query.to_owned(), Some(why))
        },
    }
}

/// A query that was not translated is searched as written, and never in silence: exactly
/// the refusals are reported.
pub proof fn law_an_untranslated_query_is_reported(
    query: Seq<char>,
    decided: Normalized<Seq<char>>,
)
    ensures
        ({
            let (searched, why) = searched_query(query, Some(decided));
            &&& why is Some <==> decided is Refused
            &&& why is Some ==> searched == query
            &&& searched == decided.canon_of(query)
        }),
{
}

/// How much of a reason a row keeps.
pub const LAST_ERROR_MAX_CHARS: usize = 200;

/// A reason cut to `limit` characters, the last of which then says that it was cut.
pub open spec fn shortened(reason: Seq<char>, limit: nat) -> Seq<char> {
    if reason.len() <= limit {
        reason
    } else if limit == 0 {
        seq!['…']
    } else {
        reason.take(limit - 1).push('…')
    }
}

/// A reason cut to `limit` characters.
pub fn refusal_reason(reason: &str, limit: usize) -> (r: String)
    ensures
        r@ == shortened(reason@, limit as nat),
{
    let n: usize = reason.unicode_len();
    if n <= limit {
        return reason.to_owned();
    }
    let keep: usize = if limit == 0 {
        0
    } else {
        limit - 1
    };
    let mut out = take_chars(reason, keep);
    out.push('…');
    proof {
        assert(out@ =~= shortened(reason@, limit as nat));
    }
    out
}

/// A cut reason fits, and what is left of it is the beginning of the whole.
pub proof fn law_a_cut_reason_fits(reason: Seq<char>, limit: nat)
    requires
        limit > 0,
    ensures
        shortened(reason, limit).len() <= limit,
        reason.len() > limit ==> shortened(reason, limit).len() == limit && shortened(
            reason,
            limit,
        ).last() == '…' && shortened(reason, limit).drop_last() == reason.take(limit - 1),
{
    if reason.len() > limit {
        assert(shortened(reason, limit).drop_last() =~= reason.take(limit - 1));
    }
}

/// Where an entry stands on its way to English.
#[derive(Debug, Clone, Copy, PartialEq, Eq, Structural)]
pub enum NormalizationStatus {
    English,
    Translated,
    Failed,
    /// Nothing to translate, recorded beside text that is stored as it stands.
    Skipped,
    /// A translation that readers use in place of the text.
    Ready,
}

/// The row that is stored beside an entry's text.
#[derive(Debug, Clone, PartialEq, Eq)]
pub struct OwnedNormalizationRow<S = String> {
    pub memory_id: S,
    pub status: NormalizationStatus,
    pub canon_text_sha256: S,
    pub source_text: Option<S>,
    pub source_language: Option<S>,
    pub normalizer_model_id: Option<S>,
    pub prompt_version: Option<i64>,
    pub attempt_count: i64,
    pub last_error: Option<S>,
}

impl View for OwnedNormalizationRow<String> {
    type V = OwnedNormalizationRow<Seq<char>>;

    open spec fn view(&self) -> OwnedNormalizationRow<Seq<char>> {
        OwnedNormalizationRow {
            memory_id: self.memory_id@,
            status: self.status,
            canon_text_sha256: self.canon_text_sha256@,
            source_text: self.source_text.deep_view(),
            source_language: self.source_language.deep_view(),
            normalizer_model_id: self.normalizer_model_id.deep_view(),
            prompt_version: self.prompt_version,
            attempt_count: self.attempt_count,
            last_error: self.last_error.deep_view(),
        }
    }
}

/// The row beside a text that was decided as `decided`. `canon_sha256` is the hash of the
/// text that is stored. A missing translator is not the entry's fault and costs it no
/// attempt.
pub open spec fn row_for(
    memory_id: Seq<char>,
    canon_sha256: Seq<char>,
    decided: Normalized<Seq<char>>,
    translator_version: i64,
) -> OwnedNormalizationRow<Seq<char>> {
    match decided {
        Normalized::Translated { english, original, model_id } => OwnedNormalizationRow {
            memory_id,
            status: NormalizationStatus::Translated,
            canon_text_sha256: canon_sha256,
            source_text: Some(original),
            source_language: Some(ScriptClass::NonLatin.label()),
            normalizer_model_id: Some(model_id),
            prompt_version: Some(translator_version),
            attempt_count: 1,
            last_error: None,
        },
        Normalized::AlreadyEnglish { class } => OwnedNormalizationRow {
            memory_id,
            status: NormalizationStatus::English,
            canon_text_sha256: canon_sha256,
            source_text: None,
            source_language: Some(class.label()),
            normalizer_model_id: None,
            prompt_version: None,
            attempt_count: 0,
            last_error: None,
        },
        Normalized::Refused { reason, kind } => OwnedNormalizationRow {
            memory_id,
            status: NormalizationStatus::Failed,
            canon_text_sha256: canon_sha256,
            source_text: None,
            source_language: None,
            normalizer_model_id: None,
            prompt_version: None,
            attempt_count: if kind == TranslateFailureKind::Unavailable {
                0
            } else {
                1
            },
            last_error: Some(shortened(reason, LAST_ERROR_MAX_CHARS as nat)),
        },
    }
}

/// What is handed to the store for a row. The entry's text is what the row says by the time
/// the row is written, so the hash that is expected is the hash that is stored.
pub open spec fn write_of(
    row: OwnedNormalizationRow<Seq<char>>,
    normalizer_version: i64,
) -> NormalizationWrite<Seq<char>> {
    NormalizationWrite {
        memory_id: row.memory_id,
        status: row.status,
        expected_text_sha256: row.canon_text_sha256,
        canon_text_sha256: row.canon_text_sha256,
        source_text: row.source_text,
        source_language: row.source_language,
        normalizer_model_id: row.normalizer_model_id,
        prompt_version: row.prompt_version,
        normalizer_version,
        attempt_count: row.attempt_count,
        last_error: row.last_error,
        next_attempt_at: None,
    }
}

impl OwnedNormalizationRow<String> {
    /// The row beside a text that was decided as `decided`.
    pub fn for_canon(
        memory_id: &str,
        canon_sha256: &str,
        decided: Normalized,
        translator_version: i64,
    ) -> (r: Self)
        ensures
            r@ == row_for(memory_id@, canon_sha256@, decided@, translator_version),
    {
        let memory_id = memory_id.to_owned();
        let canon_text_sha256 = canon_sha256.to_owned();
        let source_language = match decided.source_language() {
            Some(label) => Some(label.to_owned()),
            None => None,
        };
        let prompt_version = decided.prompt_version(translator_version);
        match decided {
            Normalized::Translated { english: _, original, model_id } => OwnedNormalizationRow {
                memory_id,
                status: NormalizationStatus::Translated,
                canon_text_sha256,
                source_text: Some(original),
                source_language,
                normalizer_model_id: Some(model_id),
                prompt_version,
                attempt_count: 1,
                last_error: None,
            },
            Normalized::AlreadyEnglish { .. } => OwnedNormalizationRow {
                memory_id,
                status: NormalizationStatus::English,
                canon_text_sha256,
                source_text: None,
                source_language,
                normalizer_model_id: None,
                prompt_version: None,
                attempt_count: 0,
                last_error: None,
            },
            Normalized::Refused { reason, kind } => OwnedNormalizationRow {
                memory_id,
                status: NormalizationStatus::Failed,
                canon_text_sha256,
                source_text: None,
                source_language: None,
                normalizer_model_id: None,
                prompt_version: None,
                attempt_count: if kind == TranslateFailureKind::Unavailable {
                    0
                } else {
                    1
                },
                last_error: Some(refusal_reason(reason.as_str(), LAST_ERROR_MAX_CHARS)),
            },
        }
    }

    /// What is handed to the store. The entry's text is what the row says by the time the
    /// row is written, so the hash that is expected is the hash that is stored.
    pub fn as_write(&self, normalizer_version: i64) -> (r: NormalizationWrite)
        ensures
            r@ == write_of(self@, normalizer_version),
    {
        NormalizationWrite {
            memory_id: self.memory_id.clone(),
            status: self.status,
            expected_text_sha256: self.canon_text_sha256.clone(),
            canon_text_sha256: self.canon_text_sha256.clone(),
            source_text: self.source_text.clone(),
            source_language: self.source_language.clone(),
            normalizer_model_id: self.normalizer_model_id.clone(),
            prompt_version: self.prompt_version,
            normalizer_version,
            attempt_count: self.attempt_count,
            last_error: self.last_error.clone(),
            next_attempt_at: None,
        }
    }
}

/// An operation that a router proposes, as far as its text is concerned. `R` is what it
/// carries besides.
#[derive(Debug, PartialEq, Eq)]
pub enum ProposedOperation<R> {
    Create { memory_id: String, text: String, rest: R },
    Supersede { new_memory_id: String, new_text: String, rest: R },
    /// Any operation that names an existing entry and carries no text.
    Other(R),
}

/// The entry and the text that an operation has to be decided for, where it carries a text.
pub open spec fn text_at_stake<R>(operation: ProposedOperation<R>) -> Option<
    (Seq<char>, Seq<char>),
> {
    match operation {
        ProposedOperation::Create { memory_id, text, .. } => Some((memory_id@, text@)),
        ProposedOperation::Supersede { new_memory_id, new_text, .. } => Some(
            (new_memory_id@, new_text@),
        ),
        ProposedOperation::Other(_) => None,
    }
}

/// `after` is `before` with its text decided by `decide`, and nothing else changed.
pub open spec fn operation_decided<R, F: Fn(&str, &str) -> Normalized>(
    decide: F,
    before: ProposedOperation<R>,
    after: ProposedOperation<R>,
) -> bool {
    match (before, after) {
        (
            ProposedOperation::Create { memory_id, text, rest },
            ProposedOperation::Create { memory_id: id, text: new, rest: r },
        ) => id == memory_id && r == rest && text_decided(decide, memory_id, text, new),
        (
            ProposedOperation::Supersede { new_memory_id, new_text, rest },
            ProposedOperation::Supersede { new_memory_id: id, new_text: new, rest: r },
        ) => id == new_memory_id && r == rest && text_decided(decide, new_memory_id, new_text, new),
        (ProposedOperation::Other(a), ProposedOperation::Other(b)) => a == b,
        _ => false,
    }
}

/// `after` is the text to store for `before` under an answer of `decide`.
pub open spec fn text_decided<F: Fn(&str, &str) -> Normalized>(
    decide: F,
    memory_id: String,
    before: String,
    after: String,
) -> bool {
    exists|id: &str, text: &str, decided: Normalized|
        {
            &&& id@ == memory_id@
            &&& text@ == before@
            &&& #[trigger] call_ensures(decide, (id, text), decided)
            &&& after@ == decided@.canon_of(before@)
        }
}

fn decide_text<F: Fn(&str, &str) -> Normalized>(
    decide: &F,
    memory_id: &String,
    text: &String,
) -> (r: String)
    requires
        forall|a: &str, b: &str|
            a@ == memory_id@ && b@ == text@ ==> #[trigger] call_requires(*decide, (a, b)),
    ensures
        text_decided(*decide, *memory_id, *text, r),
{
    let id = memory_id.as_str();
    let incoming = text.as_str();
    let decided = decide(id, incoming);
    let r = decided.canon(incoming).to_owned();
    proof {
        assert(call_ensures(*decide, (id, incoming), decided));
    }
    r
}

/// Puts the text of one operation through the boundary.
pub fn normalize_operation<R, F: Fn(&str, &str) -> Normalized>(
    operation: ProposedOperation<R>,
    decide: &F,
) -> (r: ProposedOperation<R>)
    requires
        forall|a: &str, b: &str|
            text_at_stake(operation) == Some((a@, b@)) ==> #[trigger] call_requires(
                *decide,
                (a, b),
            ),
    ensures
        operation_decided(*decide, operation, r),
{
    match operation {
        ProposedOperation::Create { memory_id, text, rest } => {
            let text = decide_text(decide, &memory_id, &text);
            ProposedOperation::Create { memory_id, text, rest }
        },
        ProposedOperation::Supersede { new_memory_id, new_text, rest } => {
            let new_text = decide_text(decide, &new_memory_id, &new_text);
            ProposedOperation::Supersede { new_memory_id, new_text, rest }
        },
        ProposedOperation::Other(rest) => ProposedOperation::Other(rest),
    }
}

/// An operation as a router generates it. `R` and `E` are what it carries besides.
#[derive(Debug, PartialEq, Eq)]
pub enum GeneratedOp<R, E> {
    Materialize { operation: ProposedOperation<R>, rest: E },
    ProposeCandidate { operation: ProposedOperation<R>, rest: E },
    Noop,
}

/// The entry and the text that `op` has to be decided for, where it carries a text.
pub open spec fn op_at_stake<R, E>(op: GeneratedOp<R, E>) -> Option<(Seq<char>, Seq<char>)> {
    match op {
        GeneratedOp::Materialize { operation, .. } => text_at_stake(operation),
        GeneratedOp::ProposeCandidate { operation, .. } => text_at_stake(operation),
        GeneratedOp::Noop => None,
    }
}

/// `after` is `before` with the text of its operation decided, and nothing else changed.
pub open spec fn op_decided<R, E, F: Fn(&str, &str) -> Normalized>(
    decide: F,
    before: GeneratedOp<R, E>,
    after: GeneratedOp<R, E>,
) -> bool {
    match (before, after) {
        (
            GeneratedOp::Materialize { operation, rest },
            GeneratedOp::Materialize { operation: o, rest: r },
        ) => r == rest && operation_decided(decide, operation, o),
        (
            GeneratedOp::ProposeCandidate { operation, rest },
            GeneratedOp::ProposeCandidate { operation: o, rest: r },
        ) => r == rest && operation_decided(decide, operation, o),
        (GeneratedOp::Noop, GeneratedOp::Noop) => true,
        _ => false,
    }
}

/// Puts the text of every operation through the boundary. No operation is lost on the way.
pub fn normalize_generated_ops<R, E, F: Fn(&str, &str) -> Normalized>(
    ops: Vec<GeneratedOp<R, E>>,
    decide: &F,
) -> (r: Vec<GeneratedOp<R, E>>)
    requires
        forall|i: int, a: &str, b: &str|
            #![trigger ops@[i], call_requires(*decide, (a, b))]
            0 <= i < ops.len() && op_at_stake(ops@[i]) == Some((a@, b@)) ==> call_requires(
                *decide,
                (a, b),
            ),
    ensures
        r.len() == ops.len(),
        forall|i: int| 0 <= i < ops.len() ==> op_decided(*decide, ops@[i], #[trigger] r@[i]),
{
    let ghost all = ops@;
    let mut out: Vec<GeneratedOp<R, E>> = Vec::new();
    for op in it: ops
        invariant
            it.seq() == all,
            out.len() == it.index(),
            forall|i: int, a: &str, b: &str|
                #![trigger all[i], call_requires(*decide, (a, b))]
                0 <= i < all.len() && op_at_stake(all[i]) == Some((a@, b@)) ==> call_requires(
                    *decide,
                    (a, b),
                ),
            forall|i: int| 0 <= i < out.len() ==> op_decided(*decide, all[i], #[trigger] out@[i]),
    {
        proof {
            assert(all[it.index() as int] == op);
        }
        let next = match op {
            GeneratedOp::Materialize { operation, rest } => GeneratedOp::Materialize {
                operation: normalize_operation(operation, decide),
                rest,
            },
            GeneratedOp::ProposeCandidate { operation, rest } => GeneratedOp::ProposeCandidate {
                operation: normalize_operation(operation, decide),
                rest,
            },
            GeneratedOp::Noop => GeneratedOp::Noop,
        };
        out.push(next);
    }
    out
}

/// A translator is asked exactly for text in a foreign script, where one is installed. Where
/// none is, that text is refused for want of a translator, and its words are stored.
pub proof fn law_foreign_text_needs_a_translator(installed: bool, text: Seq<char>)
    ensures
        asks_translator(ScriptClass::NonLatin, installed) <==> installed,
        without_translator(ScriptClass::NonLatin, false) matches Some(decided)
            && decided is Refused && decided->kind is Unavailable && decided.canon_of(text)
            == text,
{
}

/// A translation is stored as the translator gave it, with the model it came from. What the
/// translator passed through keeps the class it was found to have, and a failure keeps its
/// reason and its kind.
pub proof fn law_a_translation_is_kept_as_given(
    text: Seq<char>,
    model_id: Seq<char>,
    translation: Translation,
)
    ensures
        ({
            let decided = with_translation(text, model_id, translation);
            &&& translation matches Translation::Translated { english } ==> decided is Translated
                && decided->english == english@ && decided->original == text
                && decided->model_id == model_id && decided.canon_of(text) == english@
            &&& translation matches Translation::Passthrough { class } ==> decided
                is AlreadyEnglish && decided->class == class
            &&& translation matches Translation::Failed { reason, kind } ==> decided is Refused
                && decided->reason == reason@ && decided->kind == kind
        }),
{
}

/// A task that did not finish may be tried again, and says what went wrong with it.
pub proof fn law_an_unfinished_task_may_be_tried_again(error: Seq<char>)
    ensures
        not_finished(error) is Refused,
        not_finished(error)->kind is Transient,
        not_finished(error)->reason.skip(not_finished(error)->reason.len() - error.len()) == error,
{
    let reason = not_finished(error)->reason;
    assert(reason.skip(reason.len() - error.len()) =~= error);
}

/// A query is searched in English where it could be translated. One that could not says whether
/// there was no translator or what the translator said.
pub proof fn law_a_query_is_searched_in_english(
    query: Seq<char>,
    english: Seq<char>,
    original: Seq<char>,
    model_id: Seq<char>,
    reason: Seq<char>,
    kind: TranslateFailureKind,
    class: ScriptClass,
)
    ensures
        searched_query(query, None) == (query, None::<QueryNotTranslated<Seq<char>>>),
        searched_query(query, Some(Normalized::AlreadyEnglish { class })) == (
            query,
            None::<QueryNotTranslated<Seq<char>>>,
        ),
        searched_query(query, Some(Normalized::Translated { english, original, model_id })) == (
            english,
            None::<QueryNotTranslated<Seq<char>>>,
        ),
        ({
            let (searched, why) = searched_query(query, Some(Normalized::Refused { reason, kind }));
            &&& searched == query
            &&& kind is Unavailable ==> why == Some(QueryNotTranslated::<Seq<char>>::NoGenerator)
            &&& kind !is Unavailable ==> why == Some(QueryNotTranslated::Refused(reason))
        }),
{
}

/// A reason that fits is kept as it stands; two hundred characters do.
pub proof fn law_a_short_reason_is_kept(reason: Seq<char>, limit: nat)
    ensures
        reason.len() <= limit ==> shortened(reason, limit) == reason,
        LAST_ERROR_MAX_CHARS == 200,
{
}

/// The row beside a translation keeps the author's words, the model and the prompt, and counts
/// one attempt.
pub proof fn law_the_row_of_a_translation(
    memory_id: Seq<char>,
    canon_sha256: Seq<char>,
    english: Seq<char>,
    original: Seq<char>,
    model_id: Seq<char>,
    translator_version: i64,
)
    ensures
        ({
            let row = row_for(
                memory_id,
                canon_sha256,
                Normalized::Translated { english, original, model_id },
                translator_version,
            );
            &&& row.memory_id == memory_id
            &&& row.status is Translated
            &&& row.canon_text_sha256 == canon_sha256
            &&& row.source_text == Some(original)
            &&& row.source_language == Some("non-latin"@)
            &&& row.normalizer_model_id == Some(model_id)
            &&& row.prompt_version == Some(translator_version)
            &&& row.attempt_count == 1
            &&& row.last_error is None
        }),
{
}

/// The row beside English text says what was detected and nothing else: no attempt was made.
pub proof fn law_the_row_of_english_text(
    memory_id: Seq<char>,
    canon_sha256: Seq<char>,
    class: ScriptClass,
    translator_version: i64,
)
    ensures
        ({
            let row = row_for(
                memory_id,
                canon_sha256,
                Normalized::AlreadyEnglish { class },
                translator_version,
            );
            &&& row.memory_id == memory_id
            &&& row.status is English
            &&& row.canon_text_sha256 == canon_sha256
            &&& row.source_text is None
            &&& row.source_language == Some(class.label())
            &&& row.normalizer_model_id is None
            &&& row.prompt_version is None
            &&& row.attempt_count == 0
            &&& row.last_error is None
        }),
{
}

/// The row beside refused text says that it failed, and why, in two hundred characters at most.
/// It counts an attempt where one was made, and a missing translator made none.
pub proof fn law_the_row_of_a_refusal(
    memory_id: Seq<char>,
    canon_sha256: Seq<char>,
    reason: Seq<char>,
    kind: TranslateFailureKind,
    translator_version: i64,
)
    ensures
        ({
            let row = row_for(
                memory_id,
                canon_sha256,
                Normalized::Refused { reason, kind },
                translator_version,
            );
            &&& row.memory_id == memory_id
            &&& row.status is Failed
            &&& row.canon_text_sha256 == canon_sha256
            &&& row.source_text is None
            &&& row.source_language is None
            &&& row.normalizer_model_id is None
            &&& row.prompt_version is None
            &&& kind is Unavailable ==> row.attempt_count == 0
            &&& kind !is Unavailable ==> row.attempt_count == 1
            &&& row.last_error matches Some(e) && e.len() <= 200 && (reason.len() <= 200 ==> e
                == reason)
        }),
{
    law_a_cut_reason_fits(reason, LAST_ERROR_MAX_CHARS as nat);
}

/// A row is written as it stands, over the text it was made for, and is not due again.
pub proof fn law_a_row_is_written_as_it_stands(
    row: OwnedNormalizationRow<Seq<char>>,
    normalizer_version: i64,
)
    ensures
        ({
            let write = write_of(row, normalizer_version);
            &&& write.memory_id == row.memory_id
            &&& write.status == row.status
            &&& write.expected_text_sha256 == row.canon_text_sha256
            &&& write.canon_text_sha256 == row.canon_text_sha256
            &&& write.source_text == row.source_text
            &&& write.source_language == row.source_language
            &&& write.normalizer_model_id == row.normalizer_model_id
            &&& write.prompt_version == row.prompt_version
            &&& write.normalizer_version == normalizer_version
            &&& write.attempt_count == row.attempt_count
            &&& write.last_error == row.last_error
            &&& write.next_attempt_at is None
        }),
{
}

/// The label of a class and what a decision says of language and prompt: each class has its own
/// label, a translation came from a foreign script, and only a translation has a prompt.
pub proof fn law_labels_and_prompts(decided: Normalized<Seq<char>>, translator_version: i64)
    ensures
        ScriptClass::English.label() == "en"@,
        ScriptClass::NonLatin.label() == "non-latin"@,
        ScriptClass::Undetermined.label() == "undetermined"@,
        decided matches Normalized::AlreadyEnglish { class } ==> decided.language() == Some(
            class.label(),
        ),
        decided is Translated ==> decided.language() == Some("non-latin"@),
        decided is Refused ==> decided.language() is None,
        decided is Translated ==> decided.prompt_of(translator_version) == Some(
            translator_version,
        ),
        decided !is Translated ==> decided.prompt_of(translator_version) is None,
{
}

/// An operation that goes through the boundary stays the operation it was, on the same entry and
/// with the rest of it untouched; only its text is decided anew, by an answer given for that
/// entry and that text.
pub proof fn law_the_boundary_changes_only_text<R, F: Fn(&str, &str) -> Normalized>(
    decide: F,
    before: ProposedOperation<R>,
    after: ProposedOperation<R>,
)
    requires
        operation_decided(decide, before, after),
    ensures
        before matches ProposedOperation::Create { memory_id, text, rest } ==> (
        after matches ProposedOperation::Create { memory_id: id, text: new, rest: r } && id
            == memory_id && r == rest && exists|a: &str, b: &str, decided: Normalized|
            #[trigger] call_ensures(decide, (a, b), decided) && a@ == memory_id@ && b@ == text@
                && (decided matches Normalized::Translated { english, .. } ==> new@ == english@)
                && (decided !is Translated ==> new@ == text@)),
        before matches ProposedOperation::Supersede { new_memory_id, new_text, rest } ==> (
        after matches ProposedOperation::Supersede { new_memory_id: id, new_text: new, rest: r }
            && id == new_memory_id && r == rest && exists|a: &str, b: &str, decided: Normalized|
            #[trigger] call_ensures(decide, (a, b), decided) && a@ == new_memory_id@ && b@
                == new_text@ && (decided matches Normalized::Translated { english, .. } ==> new@
                == english@) && (decided !is Translated ==> new@ == new_text@)),
        before matches ProposedOperation::Other(rest) ==> (after matches ProposedOperation::Other(
            r,
        ) && r == rest),
        before is Create ==> text_at_stake(before) == Some((before->memory_id@, before->text@)),
        before is Supersede ==> text_at_stake(before) == Some(
            (before->new_memory_id@, before->new_text@),
        ),
        before is Other ==> text_at_stake(before) is None,
{
}

/// A generated operation stays what it was: it is materialised, or proposed, or nothing, as
/// before, with the rest of it untouched.
pub proof fn law_the_boundary_keeps_the_kind<R, E, F: Fn(&str, &str) -> Normalized>(
    decide: F,
    before: GeneratedOp<R, E>,
    after: GeneratedOp<R, E>,
)
    requires
        op_decided(decide, before, after),
    ensures
        before matches GeneratedOp::Materialize { operation, rest } ==> (
        after matches GeneratedOp::Materialize { operation: o, rest: r } && r == rest
            && operation_decided(decide, operation, o)),
        before matches GeneratedOp::ProposeCandidate { operation, rest } ==> (
        after matches GeneratedOp::ProposeCandidate { operation: o, rest: r } && r == rest
            && operation_decided(decide, operation, o)),
        before is Noop <==> after is Noop,
{
}

/// A query that was not translated says whether no model was there or why one refused.
pub proof fn law_a_query_says_why_it_was_not_translated(reason: Seq<char>)
    ensures
        not_translated_label(QueryNotTranslated::NoGenerator)
            == "no_generator: the query was searched as written"@,
        not_translated_label(QueryNotTranslated::Refused(reason)) == "translation_refused: "@
            + reason,
{
}

/// What a generated operation has to have decided is what its own operation has, whether it is
/// made at once or proposed.
pub proof fn law_every_text_is_at_stake<R, E>(op: GeneratedOp<R, E>)
    ensures
        op matches GeneratedOp::Materialize { operation, .. } ==> op_at_stake(op) == text_at_stake(
            operation,
        ),
        op matches GeneratedOp::ProposeCandidate { operation, .. } ==> op_at_stake(op)
            == text_at_stake(operation),
        op is Noop ==> op_at_stake(op) is None,
{
}

/// A reason that is cut ends with the mark that says so and is as long as it may be; where nothing
/// may be kept the mark stands alone. A reason that fits is kept as it is.
pub proof fn law_a_cut_reason_says_so(reason: Seq<char>, limit: nat)
    ensures
        reason.len() <= limit ==> shortened(reason, limit) == reason,
        reason.len() > limit ==> {
            &&& shortened(reason, limit).last() == '…'
            &&& shortened(reason, limit).len() == if limit == 0 {
                1nat
            } else {
                limit
            }
            &&& forall|i: int|
                0 <= i < limit - 1 ==> #[trigger] shortened(reason, limit)[i] == reason[i]
        },
{
}

} // verus!
