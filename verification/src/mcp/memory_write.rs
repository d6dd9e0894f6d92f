//! The tools that write: remembering, reviewing candidates, editing, merging, feedback.
//!
//! Each tool is read from its arguments, turned into what the store is asked to do, and
//! answered from what the store did.

use vstd::prelude::*;

use crate::failure::Failure;
use crate::json::{Json, JsonMap, JsonView, Number, NumberView};
use crate::mcp::arguments::{
    optional_enum, optional_flag, optional_string, require_enum, require_i64, within_unit,
};
use crate::mcp::reply::{infra_err, ToolReply};
use crate::mcp::tools::{find_unknown, reject_unknown_keys, require_string};
use crate::normalization::boundary::{Normalized, OwnedNormalizationRow};
use crate::scope::{Resolution, WriteScope};
use crate::text::{concat2, concat3, concat4, debug_quoted, same};
use crate::vocabulary::{Actor, EvidenceKind, MemoryKind, ScopeKind, Signal, TrustLevel};

verus! {

/// How the store refused to change an entry.
#[derive(Debug, PartialEq, Eq)]
pub enum MemoryOpError {
    UnknownMemory,
    OptimisticConflict { expected: i64, actual: i64 },
    CanonicalKeyConflict,
    InvalidGlobalScopeOwner,
    IllegalTransition { message: String },
    EntryTerminal,
    IncompatibleScope,
    EmptyMergeSet,
    ModelClaimOnlyProvenance,
}

/// The failure that answers a refused change.
pub open spec fn op_failure(e: MemoryOpError) -> Failure<Seq<char>> {
    match e {
        MemoryOpError::UnknownMemory => Failure::UnknownMemory,
        MemoryOpError::OptimisticConflict { expected, actual } => Failure::OptimisticConflict {
            expected,
            actual,
        },
        MemoryOpError::CanonicalKeyConflict => Failure::CanonicalKeyConflict,
        MemoryOpError::InvalidGlobalScopeOwner => Failure::InvalidGlobalScopeOwner,
        MemoryOpError::IllegalTransition { message } => Failure::IllegalMemoryTransition {
            details: message@,
        },
        MemoryOpError::EntryTerminal => Failure::EntryTerminal,
        MemoryOpError::IncompatibleScope => Failure::IncompatibleScope,
        MemoryOpError::EmptyMergeSet => Failure::EmptyMergeSet,
        MemoryOpError::ModelClaimOnlyProvenance => Failure::ModelClaimOnlyProvenance,
    }
}

/// The failure that answers a refused change.
pub fn memory_op_error_envelope(e: &MemoryOpError) -> (r: Failure)
    ensures
        r@ == op_failure(*e),
{
    match e {
        MemoryOpError::UnknownMemory => Failure::UnknownMemory,
        MemoryOpError::OptimisticConflict { expected, actual } => Failure::OptimisticConflict {
            expected: *expected,
            actual: *actual,
        },
        MemoryOpError::CanonicalKeyConflict => Failure::CanonicalKeyConflict,
        MemoryOpError::InvalidGlobalScopeOwner => Failure::InvalidGlobalScopeOwner,
        MemoryOpError::IllegalTransition { message } => Failure::IllegalMemoryTransition {
            details: message.clone(),
        },
        MemoryOpError::EntryTerminal => Failure::EntryTerminal,
        MemoryOpError::IncompatibleScope => Failure::IncompatibleScope,
        MemoryOpError::EmptyMergeSet => Failure::EmptyMergeSet,
        MemoryOpError::ModelClaimOnlyProvenance => Failure::ModelClaimOnlyProvenance,
    }
}

/// How the review of a candidate was refused.
#[derive(Debug, PartialEq, Eq)]
pub enum ReviewError {
    UnknownCandidate,
    IllegalTransition { message: String },
    NotPending,
    InvalidProposedOperation { details: String },
    Materialization(MemoryOpError),
}

/// The failure that answers a refused review.
pub open spec fn review_failure(e: ReviewError) -> Failure<Seq<char>> {
    match e {
        ReviewError::UnknownCandidate => Failure::UnknownCandidate,
        ReviewError::IllegalTransition { message } => Failure::IllegalCandidateTransition {
            details: message@,
        },
        ReviewError::NotPending => Failure::CandidateNotPending,
        ReviewError::InvalidProposedOperation { details } => Failure::InvalidProposedOperation {
            details: details@,
        },
        ReviewError::Materialization(inner) => op_failure(inner),
    }
}

/// The failure that answers a refused review.
pub fn review_error_envelope(e: &ReviewError) -> (r: Failure)
    ensures
        r@ == review_failure(*e),
{
    match e {
        ReviewError::UnknownCandidate => Failure::UnknownCandidate,
        ReviewError::IllegalTransition { message } => Failure::IllegalCandidateTransition {
            details: message.clone(),
        },
        ReviewError::NotPending => Failure::CandidateNotPending,
        ReviewError::InvalidProposedOperation { details } => Failure::InvalidProposedOperation {
            details: details.clone(),
        },
        ReviewError::Materialization(inner) => memory_op_error_envelope(inner),
    }
}

/// The id of a request as text: a string as it stands, anything else as JSON writes it.
pub open spec fn request_id_text(id: JsonView) -> Seq<char> {
    match id {
        JsonView::Str(s) => s,
        other => crate::json::json_text(other),
    }
}

/// The id of a request as text.
pub fn request_id_string(id: &Json) -> (r: String)
    ensures
        r@ == request_id_text(id@),
{
    broadcast use crate::json::lemma_view;

    match id {
        Json::Str(s) => s.clone(),
        other => other.to_text(),
    }
}

/// What `remember` is asked.
#[derive(Debug, PartialEq, Eq)]
pub struct Remember<S = String> {
    pub text: S,
    pub kind: MemoryKind,
    pub scope: Option<ScopeKind>,
    pub canonical_key: Option<S>,
    pub importance: Signal,
    pub confirmed_by_user: bool,
}

impl View for Remember<String> {
    type V = Remember<Seq<char>>;

    open spec fn view(&self) -> Remember<Seq<char>> {
        Remember {
            text: self.text@,
            kind: self.kind,
            scope: self.scope,
            canonical_key: self.canonical_key.deep_view(),
            importance: self.importance,
            confirmed_by_user: self.confirmed_by_user,
        }
    }
}

/// The entry that arguments ask to remember, or what is wrong with them.
pub open spec fn remember_in(args: Seq<(Seq<char>, JsonView)>) -> Result<
    Remember<Seq<char>>,
    Seq<char>,
> {
    let known = [
        "text",
        "kind",
        "scope",
        "canonical_key",
        "importance",
        "confirmed_by_user",
    ]@;
    match crate::mcp::tools::first_unknown(args, known) {
        Some(key) => Err("unknown argument: "@ + key),
        None => match crate::mcp::tools::required_string(args, "text"@) {
            Err(message) => Err(message),
            Ok(text) => match crate::mcp::arguments::required_name::<MemoryKind>(
                args,
                "kind"@,
                "fact/decision/convention/procedure/task/question/hypothesis"@,
            ) {
                Err(message) => Err(message),
                Ok(kind) => match crate::mcp::arguments::optional_name::<ScopeKind>(
                    args,
                    "scope"@,
                    "global/repository/worktree"@,
                ) {
                    Err(message) => Err(message),
                    Ok(scope) => match crate::mcp::arguments::optional_text(
                        args,
                        "canonical_key"@,
                    ) {
                        Err(message) => Err(message),
                        Ok(canonical_key) => match crate::mcp::arguments::optional_name::<Signal>(
                            args,
                            "importance"@,
                            "low/medium/high"@,
                        ) {
                            Err(message) => Err(message),
                            Ok(importance) => match crate::mcp::arguments::flag_in(
                                args,
                                "confirmed_by_user"@,
                            ) {
                                Err(message) => Err(message),
                                Ok(confirmed_by_user) => Ok(
                                    Remember {
                                        text,
                                        kind,
                                        scope,
                                        canonical_key,
                                        importance: match importance {
                                            Some(signal) => signal,
                                            None => Signal::Medium,
                                        },
                                        confirmed_by_user,
                                    },
                                ),
                            },
                        },
                    },
                },
            },
        },
    }
}

/// Reads the arguments of `remember`.
pub fn parse_remember(args: &JsonMap) -> (r: Result<Remember, String>)
    ensures
        match r {
            Ok(request) => remember_in(args@) == Ok::<Remember<Seq<char>>, Seq<char>>(request@),
            Err(message) => remember_in(args@) == Err::<Remember<Seq<char>>, Seq<char>>(message@),
        },
{
    reject_unknown_keys(
        args,
        &["text", "kind", "scope", "canonical_key", "importance", "confirmed_by_user"],
    )?;
    let text = require_string(args, "text")?;
    let kind = require_enum::<MemoryKind>(
        args,
        "kind",
        "fact/decision/convention/procedure/task/question/hypothesis",
    )?;
    let scope = optional_enum::<ScopeKind>(args, "scope", "global/repository/worktree")?;
    let canonical_key = optional_string(args, "canonical_key")?;
    let importance = optional_enum::<Signal>(args, "importance", "low/medium/high")?;
    let confirmed_by_user = optional_flag(args, "confirmed_by_user")?;
    let importance = match importance {
        Some(signal) => signal,
        None => Signal::Medium,
    };
    Ok(Remember { text, kind, scope, canonical_key, importance, confirmed_by_user })
}

/// The key under which a retried `remember` is recognized.
pub open spec fn remember_key(session_id: Seq<char>, request_id: JsonView) -> Seq<char> {
    "mcp-remember:"@ + session_id + ":"@ + request_id_text(request_id)
}

/// The key under which a retried `remember` is recognized.
pub fn idempotency_key(session_id: &str, request_id: &Json) -> (r: String)
    ensures
        r@ == remember_key(session_id@, request_id@),
{
    let id = request_id_string(request_id);
    concat4("mcp-remember:", session_id, ":", id.as_str())
}

/// The entry that the store is asked to create, and the row beside it.
#[derive(Debug, PartialEq, Eq)]
pub struct CreatePlan {
    pub memory_id: String,
    pub kind: MemoryKind,
    pub text: String,
    pub canonical_key: Option<String>,
    pub scope_kind: ScopeKind,
    pub scope_owner_id: String,
    pub confidence: Signal,
    pub importance: Signal,
    pub valid_from_tree: Option<String>,
    pub last_verified_tree: Option<String>,
    /// The observations that the entry rests on.
    pub evidence: Vec<String>,
    pub actor: Actor,
    pub idempotency_key: String,
    pub row: Option<OwnedNormalizationRow>,
}

/// The text that `remember` stores. A call that was applied before is replayed with the
/// text as it came, and nothing is decided for it.
pub open spec fn remembered_text(text: Seq<char>, decided: Option<Normalized<Seq<char>>>) -> Seq<
    char,
> {
    match decided {
        Some(d) => d.canon_of(text),
        None => text,
    }
}

/// The text that `remember` stores.
pub fn text_to_store(text: &str, decided: &Option<Normalized>) -> (r: String)
    ensures
        r@ == remembered_text(
            text@,
            match decided {
                Some(d) => Some(d@),
                None => None,
            },
        ),
{
    match decided {
        Some(d) => d.canon(text).to_owned(),
        None => text.to_owned(),
    }
}

/// Whether `plan` is what the store is asked to create for `request`, where `decided` is
/// what was decided for its text. The author's words are kept beside what is stored, and
/// what a user has confirmed is trusted more. Whether it was confirmed or not, the entry is
/// the user's own, and rests on no observation and no tree.
pub open spec fn creates(
    plan: CreatePlan,
    request: Remember,
    scope: WriteScope<Seq<char>>,
    memory_id: Seq<char>,
    idempotency_key: Seq<char>,
    decided: Option<Normalized<Seq<char>>>,
    canon_sha256: Seq<char>,
    translator_version: i64,
) -> bool {
    &&& plan.memory_id@ == memory_id
    &&& plan.kind == request.kind
    &&& plan.text@ == remembered_text(request.text@, decided)
    &&& plan.canonical_key == request.canonical_key
    &&& plan.scope_kind == scope.kind
    &&& plan.scope_owner_id@ == scope.owner_id
    &&& plan.confidence == if request.confirmed_by_user {
        Signal::High
    } else {
        Signal::Medium
    }
    &&& plan.importance == request.importance
    &&& plan.valid_from_tree is None
    &&& plan.last_verified_tree is None
    &&& plan.evidence@.len() == 0
    &&& plan.actor == Actor::User
    &&& plan.idempotency_key@ == idempotency_key
    &&& match decided {
        Some(d) => plan.row matches Some(row) && row@ == crate::normalization::boundary::row_for(
            memory_id,
            canon_sha256,
            d,
            translator_version,
        ),
        None => plan.row is None,
    }
}

/// What the store is asked to create. `canon_sha256` is the hash of the text that is
/// stored.
pub fn plan_remember(
    request: Remember,
    scope: &WriteScope,
    memory_id: &str,
    idempotency_key: &str,
    decided: Option<Normalized>,
    canon_sha256: &str,
    translator_version: i64,
) -> (r: CreatePlan)
    ensures
        creates(
            r,
            request,
            scope@,
            memory_id@,
            idempotency_key@,
            match decided {
                Some(d) => Some(d@),
                None => None,
            },
            canon_sha256@,
            translator_version,
        ),
{
    let text = text_to_store(request.text.as_str(), &decided);
    let row = match decided {
        Some(d) => Some(
            OwnedNormalizationRow::for_canon(memory_id, canon_sha256, d, translator_version),
        ),
        None => None,
    };
    CreatePlan {
        memory_id: memory_id.to_owned(),
        kind: request.kind,
        text,
        canonical_key: request.canonical_key,
        scope_kind: scope.kind,
        scope_owner_id: scope.owner_id.clone(),
        confidence: if request.confirmed_by_user {
            Signal::High
        } else {
            Signal::Medium
        },
        importance: request.importance,
        valid_from_tree: None,
        last_verified_tree: None,
        evidence: Vec::new(),
        actor: Actor::User,
        idempotency_key: idempotency_key.to_owned(),
        row,
    }
}

/// What a change left behind.
#[derive(Debug, PartialEq, Eq)]
pub struct MemoryOpResult {
    pub memory_id: String,
    pub entry_version: i64,
    pub audit_id: i64,
}

/// A change that was made, now or by an earlier call with the same key.
#[derive(Debug, PartialEq, Eq)]
pub enum MemoryOpOutcome {
    Applied(MemoryOpResult),
    Replayed(MemoryOpResult),
}

/// What the change left behind, whenever it was made.
pub open spec fn outcome_result(outcome: MemoryOpOutcome) -> MemoryOpResult {
    match outcome {
        MemoryOpOutcome::Applied(result) => result,
        MemoryOpOutcome::Replayed(result) => result,
    }
}

/// Whether the change was made now.
pub open spec fn outcome_label(outcome: MemoryOpOutcome) -> Seq<char> {
    match outcome {
        MemoryOpOutcome::Applied(result) => "applied"@,
        MemoryOpOutcome::Replayed(result) => "replayed"@,
    }
}

/// A change as the members of a value.
pub open spec fn outcome_members(outcome: MemoryOpOutcome) -> Seq<(Seq<char>, JsonView)> {
    crate::json::nothing().push(
        ("memory_id"@, JsonView::Str(outcome_result(outcome).memory_id@)),
    ).push(
        ("entry_version"@, JsonView::integer(outcome_result(outcome).entry_version as int)),
    ).push(("audit_id"@, JsonView::integer(outcome_result(outcome).audit_id as int))).push(
        ("outcome"@, JsonView::Str(outcome_label(outcome))),
    )
}

fn outcome_map(outcome: &MemoryOpOutcome) -> (r: JsonMap)
    ensures
        r@ == outcome_members(*outcome),
{
    let (result, label) = match outcome {
        MemoryOpOutcome::Applied(result) => (result, "applied"),
        MemoryOpOutcome::Replayed(result) => (result, "replayed"),
    };
    JsonMap::new().with("memory_id", Json::string(result.memory_id.as_str())).with(
        "entry_version",
        Json::integer(result.entry_version),
    ).with("audit_id", Json::integer(result.audit_id)).with("outcome", Json::string(label))
}

/// A change made through a store that may refuse it, or fail.
pub type Changed<T, E> = Result<Result<T, E>, String>;

/// What a change answers.
pub open spec fn change_reply(outcome: Changed<MemoryOpOutcome, MemoryOpError>) -> ToolReply<
    Seq<char>,
    JsonView,
> {
    match outcome {
        Ok(Ok(done)) => ToolReply::Success(JsonView::Obj(outcome_members(done))),
        Ok(Err(e)) => ToolReply::Failed(op_failure(e)),
        Err(message) => crate::mcp::reply::unreadable(message@),
    }
}

/// What an edit, a retraction, a confirmation, a rejection or a merge answers.
pub fn change_result(outcome: Changed<MemoryOpOutcome, MemoryOpError>) -> (r: ToolReply)
    ensures
        r@ == change_reply(outcome),
{
    match outcome {
        Ok(Ok(done)) => ToolReply::Success(outcome_map(&done).json()),
        Ok(Err(e)) => ToolReply::Failed(memory_op_error_envelope(&e)),
        Err(message) => infra_err(message.as_str()),
    }
}

/// The member of a successful answer that is called `name`.
pub open spec fn reply_member(reply: ToolReply<Seq<char>, JsonView>, name: Seq<char>) -> Option<
    JsonView,
> {
    match reply {
        ToolReply::Success(JsonView::Obj(object)) => crate::json::lookup(object, name),
        _ => None,
    }
}

/// What `remember` answers: the change, where it landed, and, where that was a fallback,
/// the marker and the remedy of it.
pub open spec fn remember_reply(
    outcome: Changed<MemoryOpOutcome, MemoryOpError>,
    scope: WriteScope<Seq<char>>,
) -> ToolReply<Seq<char>, JsonView> {
    match outcome {
        Ok(Ok(done)) => {
            let landed = outcome_members(done).push(("scope"@, JsonView::Str(scope.kind.name())));
            ToolReply::Success(
                JsonView::Obj(
                    match scope.fallback {
                        Some(why) => landed.push(("degraded"@, JsonView::Str(why.marker()))).push(
                            ("hint"@, JsonView::Str(why.remedy())),
                        ),
                        None => landed,
                    },
                ),
            )
        },
        Ok(Err(e)) => ToolReply::Failed(op_failure(e)),
        Err(message) => crate::mcp::reply::unreadable(message@),
    }
}

/// What `remember` answers.
pub fn remember_result(
    outcome: Changed<MemoryOpOutcome, MemoryOpError>,
    scope: &WriteScope,
) -> (r: ToolReply)
    ensures
        r@ == remember_reply(outcome, scope@),
{
    match outcome {
        Ok(Ok(done)) => {
            let landed = outcome_map(&done).with("scope", Json::string(scope.kind.as_str()));
            let all = match scope.fallback {
                Some(why) => landed.with("degraded", Json::string(why.as_str())).with(
                    "hint",
                    Json::string(why.hint()),
                ),
                None => landed,
            };
            ToolReply::Success(all.json())
        },
        Ok(Err(e)) => ToolReply::Failed(memory_op_error_envelope(&e)),
        Err(message) => infra_err(message.as_str()),
    }
}

/// What `remember` answers of a change that was made tells what the change left behind, and
/// whether it was made now.
pub proof fn law_remember_tells_the_change(outcome: MemoryOpOutcome, scope: WriteScope<Seq<char>>)
    ensures
        ({
            let reply = remember_reply(Ok(Ok(outcome)), scope);
            let result = outcome_result(outcome);
            &&& reply is Success
            &&& reply_member(reply, "memory_id"@) == Some(JsonView::Str(result.memory_id@))
            &&& reply_member(reply, "entry_version"@) == Some(
                JsonView::integer(result.entry_version as int),
            )
            &&& reply_member(reply, "audit_id"@) == Some(JsonView::integer(result.audit_id as int))
            &&& reply_member(reply, "outcome"@) == Some(JsonView::Str(outcome_label(outcome)))
        }),
{
    lemma_told(outcome, scope, "memory_id"@);
    lemma_told(outcome, scope, "entry_version"@);
    lemma_told(outcome, scope, "audit_id"@);
    lemma_told(outcome, scope, "outcome"@);
    reveal_strlit("memory_id");
    reveal_strlit("entry_version");
    reveal_strlit("audit_id");
    reveal_strlit("outcome");
    assert("memory_id"@.len() == 9);
    assert("entry_version"@.len() == 13);
    assert("audit_id"@.len() == 8);
    assert("outcome"@.len() == 7);
}

/// What the members of a change come to under `name`, and that they keep it whatever follows.
proof fn lemma_told(outcome: MemoryOpOutcome, scope: WriteScope<Seq<char>>, name: Seq<char>)
    ensures
        ({
            let result = outcome_result(outcome);
            let told: Option<JsonView> = if name == "memory_id"@ {
                Some(JsonView::Str(result.memory_id@))
            } else if name == "entry_version"@ {
                Some(JsonView::integer(result.entry_version as int))
            } else if name == "audit_id"@ {
                Some(JsonView::integer(result.audit_id as int))
            } else if name == "outcome"@ {
                Some(JsonView::Str(outcome_label(outcome)))
            } else {
                None
            };
            told is Some ==> reply_member(remember_reply(Ok(Ok(outcome)), scope), name) == told
        }),
{
    let result = outcome_result(outcome);
    let m0 = crate::json::nothing();
    let e1 = ("memory_id"@, JsonView::Str(result.memory_id@));
    let e2 = ("entry_version"@, JsonView::integer(result.entry_version as int));
    let e3 = ("audit_id"@, JsonView::integer(result.audit_id as int));
    let e4 = ("outcome"@, JsonView::Str(outcome_label(outcome)));
    let e5 = ("scope"@, JsonView::Str(scope.kind.name()));
    crate::json::lemma_lookup_push(m0, e1, name);
    crate::json::lemma_lookup_push(m0.push(e1), e2, name);
    crate::json::lemma_lookup_push(m0.push(e1).push(e2), e3, name);
    crate::json::lemma_lookup_push(m0.push(e1).push(e2).push(e3), e4, name);
    let landed = outcome_members(outcome).push(e5);
    crate::json::lemma_lookup_push(outcome_members(outcome), e5, name);
    if let Some(why) = scope.fallback {
        let e6 = ("degraded"@, JsonView::Str(why.marker()));
        let e7 = ("hint"@, JsonView::Str(why.remedy()));
        crate::json::lemma_lookup_push(landed, e6, name);
        crate::json::lemma_lookup_push(landed.push(e6), e7, name);
    }
}

/// The id that the arguments of a tool name, or what is wrong with them.
pub open spec fn id_in(args: Seq<(Seq<char>, JsonView)>) -> Result<Seq<char>, Seq<char>> {
    let known = ["id"]@;
    match crate::mcp::tools::first_unknown(args, known) {
        Some(key) => Err("unknown argument: "@ + key),
        None => crate::mcp::tools::required_string(args, "id"@),
    }
}

/// Reads the arguments of `approve_memory_candidate` and `reject_memory_candidate`.
pub fn parse_id(args: &JsonMap) -> (r: Result<String, String>)
    ensures
        match r {
            Ok(id) => id_in(args@) == Ok::<Seq<char>, Seq<char>>(id@),
            Err(message) => id_in(args@) == Err::<Seq<char>, Seq<char>>(message@),
        },
{
    reject_unknown_keys(args, &["id"])?;
    require_string(args, "id")
}

/// What approving a candidate did.
#[derive(Debug, PartialEq, Eq)]
pub enum ApproveOutcome {
    Materialized(MemoryOpOutcome),
    AlreadyApproved,
}

/// What `approve_memory_candidate` answers.
pub open spec fn approve_reply(outcome: Changed<ApproveOutcome, ReviewError>) -> ToolReply<
    Seq<char>,
    JsonView,
> {
    match outcome {
        Ok(Ok(ApproveOutcome::Materialized(done))) => ToolReply::Success(
            JsonView::Obj(outcome_members(done)),
        ),
        Ok(Ok(ApproveOutcome::AlreadyApproved)) => ToolReply::Success(
            JsonView::Obj(
                crate::json::nothing().push(("outcome"@, JsonView::Str("already_approved"@))),
            ),
        ),
        Ok(Err(e)) => ToolReply::Failed(review_failure(e)),
        Err(message) => crate::mcp::reply::unreadable(message@),
    }
}

/// What `approve_memory_candidate` answers.
pub fn approve_result(outcome: Changed<ApproveOutcome, ReviewError>) -> (r: ToolReply)
    ensures
        r@ == approve_reply(outcome),
{
    match outcome {
        Ok(Ok(ApproveOutcome::Materialized(done))) => ToolReply::Success(
            outcome_map(&done).json(),
        ),
        Ok(Ok(ApproveOutcome::AlreadyApproved)) => ToolReply::Success(
            JsonMap::new().with("outcome", Json::string("already_approved")).json(),
        ),
        Ok(Err(e)) => ToolReply::Failed(review_error_envelope(&e)),
        Err(message) => infra_err(message.as_str()),
    }
}

/// What rejecting or editing a candidate answers: its id.
pub open spec fn review_reply(id: Seq<char>, outcome: Changed<(), ReviewError>) -> ToolReply<
    Seq<char>,
    JsonView,
> {
    match outcome {
        Ok(Ok(_)) => ToolReply::Success(
            JsonView::Obj(crate::json::nothing().push(("id"@, JsonView::Str(id)))),
        ),
        Ok(Err(e)) => ToolReply::Failed(review_failure(e)),
        Err(message) => crate::mcp::reply::unreadable(message@),
    }
}

/// What rejecting or editing a candidate answers.
pub fn review_result(id: &str, outcome: Changed<(), ReviewError>) -> (r: ToolReply)
    ensures
        r@ == review_reply(id@, outcome),
{
    match outcome {
        Ok(Ok(_)) => ToolReply::Success(JsonMap::new().with("id", Json::string(id)).json()),
        Ok(Err(e)) => ToolReply::Failed(review_error_envelope(&e)),
        Err(message) => infra_err(message.as_str()),
    }
}

/// An entry and the version the caller expects it to have.
#[derive(Debug, PartialEq, Eq)]
pub struct Versioned<S = String> {
    pub id: S,
    pub expected_version: i64,
}

impl View for Versioned<String> {
    type V = Versioned<Seq<char>>;

    open spec fn view(&self) -> Versioned<Seq<char>> {
        Versioned { id: self.id@, expected_version: self.expected_version }
    }
}

/// The entry that arguments name, or what is wrong with them.
pub open spec fn versioned_in(args: Seq<(Seq<char>, JsonView)>) -> Result<
    Versioned<Seq<char>>,
    Seq<char>,
> {
    let known = ["id", "expected_version"]@;
    match crate::mcp::tools::first_unknown(args, known) {
        Some(key) => Err("unknown argument: "@ + key),
        None => match crate::mcp::tools::required_string(args, "id"@) {
            Err(message) => Err(message),
            Ok(id) => match crate::mcp::arguments::required_integer(args, "expected_version"@) {
                Err(message) => Err(message),
                Ok(expected_version) => Ok(Versioned { id, expected_version }),
            },
        },
    }
}

/// Reads the arguments of `retract_memory`, `confirm_memory` and `reject_memory`.
pub fn parse_versioned(args: &JsonMap) -> (r: Result<Versioned, String>)
    ensures
        match r {
            Ok(entry) => versioned_in(args@) == Ok::<Versioned<Seq<char>>, Seq<char>>(entry@),
            Err(message) => versioned_in(args@) == Err::<Versioned<Seq<char>>, Seq<char>>(
                message@,
            ),
        },
{
    reject_unknown_keys(args, &["id", "expected_version"])?;
    let id = require_string(args, "id")?;
    let expected_version: i64 = require_i64(args, "expected_version")?;
    Ok(Versioned { id, expected_version })
}

/// The patch among the arguments, or what is wrong with it. Only the members in `known`
/// may be patched.
pub open spec fn patch_in(args: Seq<(Seq<char>, JsonView)>, known: Seq<&str>) -> Result<
    Seq<(Seq<char>, JsonView)>,
    Seq<char>,
> {
    match crate::json::lookup(args, "patch"@) {
        Some(JsonView::Obj(patch)) => match crate::mcp::tools::first_unknown(patch, known) {
            Some(key) => Err("unknown patch field: "@ + key),
            None => Ok(patch),
        },
        Some(_) => Err("patch must be an object"@),
        None => Err("patch is required"@),
    }
}

fn read_patch<'a>(args: &'a JsonMap, known: &[&str]) -> (r: Result<&'a JsonMap, String>)
    ensures
        match r {
            Ok(patch) => patch_in(args@, known@) == Ok::<
                Seq<(Seq<char>, JsonView)>,
                Seq<char>,
            >(patch@),
            Err(message) => patch_in(args@, known@) == Err::<
                Seq<(Seq<char>, JsonView)>,
                Seq<char>,
            >(message@),
        },
{
    broadcast use crate::json::lemma_view;

    match args.get("patch") {
        Some(Json::Obj(patch)) => match find_unknown(patch, known) {
            Some(key) => Err(concat2("unknown patch field: ", key)),
            None => Ok(patch),
        },
        Some(_) => Err("patch must be an object".to_owned()),
        None => Err("patch is required".to_owned()),
    }
}

/// A list of strings, or nothing where an item is not a string.
pub open spec fn strings_of(items: Seq<JsonView>, count: nat) -> Option<Seq<Seq<char>>>
    decreases count,
{
    if count == 0 {
        Some(Seq::empty())
    } else {
        match (strings_of(items, (count - 1) as nat), items[count - 1]) {
            (Some(done), JsonView::Str(s)) => Some(done.push(s)),
            _ => None,
        }
    }
}

proof fn lemma_no_string_stays(items: Seq<JsonView>, from: nat, to: nat)
    requires
        from <= to,
        strings_of(items, from) is None,
    ensures
        strings_of(items, to) is None,
    decreases to,
{
    if from < to {
        lemma_no_string_stays(items, from, (to - 1) as nat);
    }
}

fn read_strings(items: &Vec<Json>) -> (r: Option<Vec<String>>)
    ensures
        strings_of(crate::json::values(items@), items@.len()) == (match r {
            Some(strings) => Some(strings.deep_view()),
            None => None,
        }),
{
    broadcast use crate::json::lemma_view;

    let ghost all = crate::json::values(items@);
    let mut out: Vec<String> = Vec::new();
    let mut i: usize = 0;
    proof {
        assert(out.deep_view() =~= Seq::empty());
    }
    while i < items.len()
        invariant
            i <= items.len(),
            all == crate::json::values(items@),
            strings_of(all, i as nat) == Some(out.deep_view()),
        decreases items.len() - i,
    {
        match &items[i] {
            Json::Str(s) => {
                let ghost before = out.deep_view();
                out.push(s.clone());
                proof {
                    assert(all[i as int] == JsonView::Str(s@));
                    assert(out.deep_view() =~= before.push(s@));
                }
            },
            _ => {
                proof {
                    assert(all[i as int] !is Str);
                    lemma_no_string_stays(all, (i + 1) as nat, items@.len());
                }
                return None;
            },
        }
        i = i + 1;
    }
    Some(out)
}

/// What `edit_memory_candidate` is asked: a new operation, new conflicts, or both.
#[derive(Debug, PartialEq, Eq)]
pub struct EditCandidate {
    pub id: String,
    pub proposed_operation: Option<Json>,
    pub conflicts: Option<Vec<String>>,
}

/// The members of a candidate that may be patched.
pub open spec fn candidate_patch_fields() -> Seq<&'static str> {
    ["proposed_operation", "conflicts"]@
}

/// The conflicts in a patch.
pub open spec fn patched_conflicts(patch: Seq<(Seq<char>, JsonView)>) -> Result<
    Option<Seq<Seq<char>>>,
    Seq<char>,
> {
    match crate::json::lookup(patch, "conflicts"@) {
        None => Ok(None),
        Some(JsonView::Arr(items)) => match strings_of(items, items.len()) {
            Some(strings) => Ok(Some(strings)),
            None => Err("patch.conflicts must be an array of strings"@),
        },
        Some(_) => Err("patch.conflicts must be an array"@),
    }
}

/// The edit that arguments ask for, or what is wrong with them. `operation_fault` is what
/// is wrong with the proposed operation, where it has one and it is not an operation.
pub open spec fn edit_candidate_in(
    args: Seq<(Seq<char>, JsonView)>,
    operation_fault: Option<Seq<char>>,
) -> Result<(Seq<char>, Option<JsonView>, Option<Seq<Seq<char>>>), Seq<char>> {
    let known = ["id", "patch"]@;
    match crate::mcp::tools::first_unknown(args, known) {
        Some(key) => Err("unknown argument: "@ + key),
        None => match crate::mcp::tools::required_string(args, "id"@) {
            Err(message) => Err(message),
            Ok(id) => match patch_in(args, candidate_patch_fields()) {
                Err(message) => Err(message),
                Ok(patch) => {
                    let operation = crate::json::lookup(patch, "proposed_operation"@);
                    if operation is Some && operation_fault is Some {
                        Err("patch.proposed_operation: "@ + operation_fault->0)
                    } else {
                        match patched_conflicts(patch) {
                            Err(message) => Err(message),
                            Ok(conflicts) => if operation is None && conflicts is None {
                                Err(
                                    "patch must set at least one of proposed_operation/conflicts"@,
                                )
                            } else {
                                Ok((id, operation, conflicts))
                            },
                        }
                    }
                },
            },
        },
    }
}

/// The operation in the patch of a candidate, for whoever knows the shape of operations.
pub fn patched_operation(args: &JsonMap) -> (r: Option<&Json>)
    ensures
        (match crate::json::lookup(args@, "patch"@) {
            Some(JsonView::Obj(patch)) => crate::json::lookup(patch, "proposed_operation"@),
            _ => None,
        }) == (match r {
            Some(v) => Some(v@),
            None => None,
        }),
{
    broadcast use crate::json::lemma_view;

    match args.get("patch") {
        Some(Json::Obj(patch)) => patch.get("proposed_operation"),
        _ => None,
    }
}

/// Reads the arguments of `edit_memory_candidate`.
pub fn parse_edit_candidate(args: &JsonMap, operation_fault: Option<&str>) -> (r: Result<
    EditCandidate,
    String,
>)
    ensures
        ({
            let expected = edit_candidate_in(
                args@,
                match operation_fault {
                    Some(fault) => Some(fault@),
                    None => None,
                },
            );
            match r {
                Ok(edit) => expected == Ok::<
                    (Seq<char>, Option<JsonView>, Option<Seq<Seq<char>>>),
                    Seq<char>,
                >((edit.id@, edit.proposed_operation.deep_view(), edit.conflicts.deep_view())),
                Err(message) => expected == Err::<
                    (Seq<char>, Option<JsonView>, Option<Seq<Seq<char>>>),
                    Seq<char>,
                >(message@),
            }
        }),
{
    broadcast use crate::json::lemma_view;

    reject_unknown_keys(args, &["id", "patch"])?;
    let id = require_string(args, "id")?;
    let patch = read_patch(args, &["proposed_operation", "conflicts"])?;
    let proposed_operation = match patch.get("proposed_operation") {
        None => None,
        Some(v) => {
            if let Some(fault) = operation_fault {
                return Err(concat2("patch.proposed_operation: ", fault));
            }
            Some(v.clone())
        },
    };
    let conflicts = match patch.get("conflicts") {
        None => None,
        Some(Json::Arr(items)) => match read_strings(items) {
            Some(strings) => Some(strings),
            None => {
                return Err("patch.conflicts must be an array of strings".to_owned());
            },
        },
        Some(_) => {
            return Err("patch.conflicts must be an array".to_owned());
        },
    };
    if proposed_operation.is_none() && conflicts.is_none() {
        return Err("patch must set at least one of proposed_operation/conflicts".to_owned());
    }
    Ok(EditCandidate { id, proposed_operation, conflicts })
}

/// What `edit_memory` is asked: a new text, a new importance, or both.
#[derive(Debug, PartialEq, Eq)]
pub struct EditMemory<S = String, N = Number> {
    pub id: S,
    pub expected_version: i64,
    pub text: Option<S>,
    pub importance: Option<N>,
}

impl View for EditMemory<String, Number> {
    type V = EditMemory<Seq<char>, NumberView>;

    open spec fn view(&self) -> EditMemory<Seq<char>, NumberView> {
        EditMemory {
            id: self.id@,
            expected_version: self.expected_version,
            text: self.text.deep_view(),
            importance: match self.importance {
                Some(n) => Some(n@),
                None => None,
            },
        }
    }
}

/// The members of an entry that may be patched.
pub open spec fn entry_patch_fields() -> Seq<&'static str> {
    ["text", "importance"]@
}

/// The text in a patch.
pub open spec fn patched_text(patch: Seq<(Seq<char>, JsonView)>) -> Result<
    Option<Seq<char>>,
    Seq<char>,
> {
    match crate::json::lookup(patch, "text"@) {
        None => Ok(None),
        Some(JsonView::Str(s)) => Ok(Some(s)),
        Some(_) => Err("patch.text must be a string"@),
    }
}

/// The importance in a patch.
pub open spec fn patched_importance(patch: Seq<(Seq<char>, JsonView)>) -> Result<
    Option<NumberView>,
    Seq<char>,
> {
    match crate::json::lookup(patch, "importance"@) {
        None => Ok(None),
        Some(JsonView::Num(n)) => if crate::mcp::arguments::is_fraction(n) {
            Ok(Some(n))
        } else {
            Err("patch.importance must be a number between 0 and 1"@)
        },
        Some(_) => Err("patch.importance must be a number"@),
    }
}

/// The edit that arguments ask for, or what is wrong with them.
pub open spec fn edit_memory_in(args: Seq<(Seq<char>, JsonView)>) -> Result<
    EditMemory<Seq<char>, NumberView>,
    Seq<char>,
> {
    let known = ["id", "expected_version", "patch"]@;
    match crate::mcp::tools::first_unknown(args, known) {
        Some(key) => Err("unknown argument: "@ + key),
        None => match crate::mcp::tools::required_string(args, "id"@) {
            Err(message) => Err(message),
            Ok(id) => match crate::mcp::arguments::required_integer(args, "expected_version"@) {
                Err(message) => Err(message),
                Ok(expected_version) => match patch_in(args, entry_patch_fields()) {
                    Err(message) => Err(message),
                    Ok(patch) => match patched_text(patch) {
                        Err(message) => Err(message),
                        Ok(text) => match patched_importance(patch) {
                            Err(message) => Err(message),
                            Ok(importance) => if text is None && importance is None {
                                Err("patch must set at least one of text/importance"@)
                            } else {
                                Ok(EditMemory { id, expected_version, text, importance })
                            },
                        },
                    },
                },
            },
        },
    }
}

/// Reads the arguments of `edit_memory`.
pub fn parse_edit_memory(args: &JsonMap) -> (r: Result<EditMemory, String>)
    ensures
        match r {
            Ok(edit) => edit_memory_in(args@) == Ok::<
                EditMemory<Seq<char>, NumberView>,
                Seq<char>,
            >(edit@),
            Err(message) => edit_memory_in(args@) == Err::<
                EditMemory<Seq<char>, NumberView>,
                Seq<char>,
            >(message@),
        },
{
    broadcast use crate::json::lemma_view;

    reject_unknown_keys(args, &["id", "expected_version", "patch"])?;
    let id = require_string(args, "id")?;
    let expected_version: i64 = require_i64(args, "expected_version")?;
    let patch = read_patch(args, &["text", "importance"])?;
    let text = match patch.get("text") {
        None => None,
        Some(Json::Str(s)) => Some(s.clone()),
        Some(_) => {
            return Err("patch.text must be a string".to_owned());
        },
    };
    let importance = match patch.get("importance") {
        None => None,
        Some(Json::Num(n)) => {
            if !within_unit(n) {
                return Err("patch.importance must be a number between 0 and 1".to_owned());
            }
            Some(n.clone())
        },
        Some(_) => {
            return Err("patch.importance must be a number".to_owned());
        },
    };
    if text.is_none() && importance.is_none() {
        return Err("patch must set at least one of text/importance".to_owned());
    }
    Ok(EditMemory { id, expected_version, text, importance })
}

/// The change that the store is asked to make to an entry, and the row beside it.
#[derive(Debug, PartialEq, Eq)]
pub struct EditPlan {
    pub memory_id: String,
    pub expected_version: i64,
    pub text: Option<String>,
    pub importance: Option<Number>,
    pub actor: Actor,
    pub idempotency_key: Option<String>,
    pub row: Option<OwnedNormalizationRow>,
}

/// Whether `plan` is what the store is asked to change for `edit`. A new text comes with
/// what was decided for it; an edit of the importance alone decides nothing and leaves the
/// row as it is. The version guards the change, so it needs no key.
pub open spec fn changes(
    plan: EditPlan,
    edit: EditMemory,
    decided: Option<Normalized<Seq<char>>>,
    canon_sha256: Seq<char>,
    translator_version: i64,
) -> bool {
    &&& plan.memory_id@ == edit.id@
    &&& plan.expected_version == edit.expected_version
    &&& plan.importance == edit.importance
    &&& plan.actor == Actor::User
    &&& plan.idempotency_key is None
    &&& match (edit.text, decided) {
        (Some(text), Some(d)) => plan.text.deep_view() == Some(d.canon_of(text@)) && (plan.row
            matches Some(row) && row@ == crate::normalization::boundary::row_for(
            edit.id@,
            canon_sha256,
            d,
            translator_version,
        )),
        _ => plan.text is None && plan.row is None,
    }
}

/// What the store is asked to change.
pub fn plan_edit(
    edit: EditMemory,
    decided: Option<Normalized>,
    canon_sha256: &str,
    translator_version: i64,
) -> (r: EditPlan)
    ensures
        changes(
            r,
            edit,
            match decided {
                Some(d) => Some(d@),
                None => None,
            },
            canon_sha256@,
            translator_version,
        ),
{
    let (text, row) = match (edit.text, decided) {
        (Some(text), Some(d)) => {
            let canon = d.canon(text.as_str()).to_owned();
            let row = OwnedNormalizationRow::for_canon(
                edit.id.as_str(),
                canon_sha256,
                d,
                translator_version,
            );
            (Some(canon), Some(row))
        },
        _ => (None, None),
    };
    EditPlan {
        memory_id: edit.id,
        expected_version: edit.expected_version,
        text,
        importance: edit.importance,
        actor: Actor::User,
        idempotency_key: None,
        row,
    }
}

/// The retraction, confirmation or rejection that the store is asked for.
#[derive(Debug, PartialEq, Eq)]
pub struct ChangePlan {
    pub memory_id: String,
    pub expected_version: i64,
    /// The observations that the change rests on.
    pub evidence: Vec<String>,
    pub actor: Actor,
    pub idempotency_key: Option<String>,
}

/// Whether `plan` is what the store is asked to retract, confirm or reject: the entry that was
/// named, for a user, resting on no observation. The version guards the change, so it needs no
/// key.
pub open spec fn asks_change(plan: ChangePlan, entry: Versioned<Seq<char>>) -> bool {
    &&& plan.memory_id@ == entry.id
    &&& plan.expected_version == entry.expected_version
    &&& plan.evidence@.len() == 0
    &&& plan.actor == Actor::User
    &&& plan.idempotency_key is None
}

/// What the store is asked to retract, confirm or reject.
pub fn plan_change(entry: Versioned) -> (r: ChangePlan)
    ensures
        asks_change(r, entry@),
{
    ChangePlan {
        memory_id: entry.id,
        expected_version: entry.expected_version,
        evidence: Vec::new(),
        actor: Actor::User,
        idempotency_key: None,
    }
}

/// What `merge_memories` is asked: the entry that survives, and those that do not.
#[derive(Debug, PartialEq, Eq)]
pub struct Merge {
    pub survivor_id: String,
    pub survivor_expected_version: i64,
    pub losers: Vec<(String, i64)>,
}

/// One entry to merge, or what is wrong with it.
pub open spec fn merge_entry(item: JsonView) -> Result<(Seq<char>, i64), Seq<char>> {
    match item {
        JsonView::Obj(object) => match crate::json::lookup(object, "memory_id"@) {
            Some(JsonView::Str(id)) => if id.len() == 0 {
                Err("each ids entry needs a non-empty memory_id string"@)
            } else {
                match crate::json::lookup(object, "expected_version"@) {
                    Some(JsonView::Num(n)) => match crate::json::int_of(n) {
                        Some(version) => Ok((id, version)),
                        None => Err("expected_version must be an integer"@),
                    },
                    _ => Err("each ids entry needs an integer expected_version"@),
                }
            },
            _ => Err("each ids entry needs a non-empty memory_id string"@),
        },
        _ => Err("each ids entry must be an object"@),
    }
}

fn read_merge_entry(item: &Json) -> (r: Result<(String, i64), String>)
    ensures
        match r {
            Ok(entry) => merge_entry(item@) == Ok::<(Seq<char>, i64), Seq<char>>(
                (entry.0@, entry.1),
            ),
            Err(message) => merge_entry(item@) == Err::<(Seq<char>, i64), Seq<char>>(message@),
        },
{
    broadcast use crate::json::lemma_view;

    let object = match item {
        Json::Obj(object) => object,
        _ => {
            return Err("each ids entry must be an object".to_owned());
        },
    };
    let id = match object.get("memory_id") {
        Some(Json::Str(s)) => s,
        _ => {
            return Err("each ids entry needs a non-empty memory_id string".to_owned());
        },
    };
    if id.as_str().unicode_len() == 0 {
        return Err("each ids entry needs a non-empty memory_id string".to_owned());
    }
    match object.get("expected_version") {
        Some(Json::Num(n)) => match n.as_i64() {
            Some(version) => Ok((id.clone(), version)),
            None => Err("expected_version must be an integer".to_owned()),
        },
        _ => Err("each ids entry needs an integer expected_version".to_owned()),
    }
}

/// The first `count` entries to merge, or what is wrong with the first that is wrong.
pub open spec fn merge_entries(items: Seq<JsonView>, count: nat) -> Result<
    Seq<(Seq<char>, i64)>,
    Seq<char>,
>
    decreases count,
{
    if count == 0 {
        Ok(Seq::empty())
    } else {
        match merge_entries(items, (count - 1) as nat) {
            Err(message) => Err(message),
            Ok(done) => match merge_entry(items[count - 1]) {
                Err(message) => Err(message),
                Ok(entry) => Ok(done.push(entry)),
            },
        }
    }
}

proof fn lemma_wrong_entry_stays(items: Seq<JsonView>, from: nat, to: nat)
    requires
        from <= to,
        merge_entries(items, from) is Err,
    ensures
        merge_entries(items, to) == merge_entries(items, from),
    decreases to,
{
    if from < to {
        lemma_wrong_entry_stays(items, from, (to - 1) as nat);
    }
}

/// What some entries stand for.
pub open spec fn versions(entries: Seq<(String, i64)>) -> Seq<(Seq<char>, i64)> {
    Seq::new(entries.len(), |i: int| (entries[i].0@, entries[i].1))
}

fn read_merge_entries(items: &Vec<Json>) -> (r: Result<Vec<(String, i64)>, String>)
    ensures
        ({
            let all = crate::json::values(items@);
            match r {
                Ok(entries) => merge_entries(all, all.len()) == Ok::<
                    Seq<(Seq<char>, i64)>,
                    Seq<char>,
                >(versions(entries@)),
                Err(message) => merge_entries(all, all.len()) == Err::<
                    Seq<(Seq<char>, i64)>,
                    Seq<char>,
                >(message@),
            }
        }),
{
    let ghost all = crate::json::values(items@);
    let mut out: Vec<(String, i64)> = Vec::new();
    let mut i: usize = 0;
    proof {
        assert(versions(out@) =~= Seq::empty());
    }
    while i < items.len()
        invariant
            i <= items.len(),
            all == crate::json::values(items@),
            merge_entries(all, i as nat) == Ok::<Seq<(Seq<char>, i64)>, Seq<char>>(
                versions(out@),
            ),
        decreases items.len() - i,
    {
        match read_merge_entry(&items[i]) {
            Ok(entry) => {
                let ghost before = versions(out@);
                out.push(entry);
                proof {
                    assert(versions(out@) =~= before.push((entry.0@, entry.1)));
                }
            },
            Err(message) => {
                proof {
                    lemma_wrong_entry_stays(all, (i + 1) as nat, all.len());
                }
                return Err(message);
            },
        }
        i = i + 1;
    }
    Ok(out)
}

/// Where the first entry with the id `id` stands; past the end if there is none.
pub open spec fn entry_position(entries: Seq<(Seq<char>, i64)>, id: Seq<char>) -> int
    decreases entries.len(),
{
    if entries.len() == 0 {
        0
    } else if entries[0].0 == id {
        0
    } else {
        1 + entry_position(entries.drop_first(), id)
    }
}

proof fn lemma_entry_position(entries: Seq<(Seq<char>, i64)>, id: Seq<char>, at: int)
    requires
        0 <= at <= entries.len(),
        at < entries.len() ==> entries[at].0 == id,
        forall|j: int| 0 <= j < at ==> (#[trigger] entries[j]).0 != id,
    ensures
        entry_position(entries, id) == at,
    decreases at,
{
    if at > 0 {
        let rest = entries.drop_first();
        assert forall|j: int| 0 <= j < at - 1 implies (#[trigger] rest[j]).0 != id by {
            assert(rest[j] == entries[j + 1]);
        }
        assert(entries[0].0 != id);
        lemma_entry_position(rest, id, at - 1);
    }
}

/// The merge that arguments ask for, or what is wrong with them: the survivor with its
/// version, and every other entry in order.
pub open spec fn merge_in(args: Seq<(Seq<char>, JsonView)>) -> Result<
    (Seq<char>, i64, Seq<(Seq<char>, i64)>),
    Seq<char>,
> {
    let known = ["ids", "survivor_id"]@;
    match crate::mcp::tools::first_unknown(args, known) {
        Some(key) => Err("unknown argument: "@ + key),
        None => match crate::json::lookup(args, "ids"@) {
            Some(JsonView::Arr(items)) => if items.len() < 2 {
                Err("ids must have at least 2 entries"@)
            } else {
                match merge_entries(items, items.len()) {
                    Err(message) => Err(message),
                    Ok(entries) => match crate::mcp::tools::required_string(
                        args,
                        "survivor_id"@,
                    ) {
                        Err(message) => Err(message),
                        Ok(survivor) => {
                            let at = entry_position(entries, survivor);
                            if at < entries.len() {
                                Ok((survivor, entries[at].1, entries.remove(at)))
                            } else {
                                Err(
                                    "survivor_id "@ + crate::text::debug_text(survivor)
                                        + " must be present in ids"@,
                                )
                            }
                        },
                    },
                }
            },
            Some(_) => Err("ids must be an array"@),
            None => Err("ids is required"@),
        },
    }
}

/// Reads the arguments of `merge_memories`.
pub fn parse_merge(args: &JsonMap) -> (r: Result<Merge, String>)
    ensures
        match r {
            Ok(merge) => merge_in(args@) == Ok::<
                (Seq<char>, i64, Seq<(Seq<char>, i64)>),
                Seq<char>,
            >((merge.survivor_id@, merge.survivor_expected_version, versions(merge.losers@))),
            Err(message) => merge_in(args@) == Err::<
                (Seq<char>, i64, Seq<(Seq<char>, i64)>),
                Seq<char>,
            >(message@),
        },
{
    broadcast use crate::json::lemma_view;

    reject_unknown_keys(args, &["ids", "survivor_id"])?;
    let items = match args.get("ids") {
        Some(Json::Arr(items)) => items,
        Some(_) => {
            return Err("ids must be an array".to_owned());
        },
        None => {
            return Err("ids is required".to_owned());
        },
    };
    if items.len() < 2 {
        return Err("ids must have at least 2 entries".to_owned());
    }
    let entries = read_merge_entries(items)?;
    let survivor_id = require_string(args, "survivor_id")?;
    let ghost all = versions(entries@);
    let mut at: usize = 0;
    while at < entries.len() && !same(entries[at].0.as_str(), survivor_id.as_str())
        invariant
            at <= entries.len(),
            all == versions(entries@),
            forall|j: int| 0 <= j < at ==> (#[trigger] all[j]).0 != survivor_id@,
        decreases entries.len() - at,
    {
        at = at + 1;
    }
    proof {
        lemma_entry_position(all, survivor_id@, at as int);
    }
    if at == entries.len() {
        let shown = debug_quoted(survivor_id.as_str());
        return Err(concat3("survivor_id ", shown.as_str(), " must be present in ids"));
    }
    let mut losers = entries;
    let (_, survivor_expected_version) = losers.remove(at);
    proof {
        assert(versions(losers@) =~= all.remove(at as int));
    }
    Ok(Merge { survivor_id, survivor_expected_version, losers })
}

/// The merge that the store is asked for.
#[derive(Debug, PartialEq, Eq)]
pub struct MergePlan {
    pub survivor_id: String,
    pub survivor_expected_version: i64,
    pub losers: Vec<(String, i64)>,
    pub actor: Actor,
    pub idempotency_key: Option<String>,
}

/// Whether `plan` is what the store is asked to merge: the entries that were named, for a user.
/// Their versions guard the change, so it needs no key.
pub open spec fn asks_merge(plan: MergePlan, merge: Merge) -> bool {
    &&& plan.survivor_id@ == merge.survivor_id@
    &&& plan.survivor_expected_version == merge.survivor_expected_version
    &&& versions(plan.losers@) == versions(merge.losers@)
    &&& plan.actor == Actor::User
    &&& plan.idempotency_key is None
}

/// What the store is asked to merge.
pub fn plan_merge(merge: Merge) -> (r: MergePlan)
    ensures
        asks_merge(r, merge),
{
    MergePlan {
        survivor_id: merge.survivor_id,
        survivor_expected_version: merge.survivor_expected_version,
        losers: merge.losers,
        actor: Actor::User,
        idempotency_key: None,
    }
}

/// A merge that is understood has at least one loser. The survivor was among the entries with
/// the version that is expected of it, and every other entry is a loser.
pub proof fn law_a_merge_has_losers(args: Seq<(Seq<char>, JsonView)>)
    ensures
        merge_in(args) matches Ok(merge) ==> {
            &&& merge.2.len() >= 1
            &&& crate::json::lookup(args, "ids"@) matches Some(JsonView::Arr(items))
            &&& merge_entries(items, items.len()) matches Ok(entries)
            &&& exists|at: int|
                0 <= at < entries.len() && #[trigger] entries[at] == (merge.0, merge.1) && merge.2
                    == entries.remove(at)
        },
{
    match crate::json::lookup(args, "ids"@) {
        Some(JsonView::Arr(items)) => {
            lemma_merge_length(items, items.len());
            match (
                merge_entries(items, items.len()),
                crate::mcp::tools::required_string(args, "survivor_id"@),
            ) {
                (Ok(entries), Ok(survivor)) => {
                    lemma_entry_position_in_range(entries, survivor);
                    let at = entry_position(entries, survivor);
                    if at < entries.len() {
                        assert(entries[at] == (survivor, entries[at].1));
                    }
                },
                _ => {},
            }
        },
        _ => {},
    }
}

proof fn lemma_entry_position_in_range(entries: Seq<(Seq<char>, i64)>, id: Seq<char>)
    ensures
        0 <= entry_position(entries, id) <= entries.len(),
        entry_position(entries, id) < entries.len() ==> entries[entry_position(entries, id)].0
            == id,
    decreases entries.len(),
{
    if entries.len() > 0 && entries[0].0 != id {
        lemma_entry_position_in_range(entries.drop_first(), id);
    }
}

proof fn lemma_merge_length(items: Seq<JsonView>, count: nat)
    ensures
        merge_entries(items, count) matches Ok(entries) ==> entries.len() == count,
    decreases count,
{
    if count > 0 {
        lemma_merge_length(items, (count - 1) as nat);
    }
}

/// The text of a feedback, or what is wrong with the arguments.
pub open spec fn feedback_in(args: Seq<(Seq<char>, JsonView)>) -> Result<Seq<char>, Seq<char>> {
    let known = ["text"]@;
    match crate::mcp::tools::first_unknown(args, known) {
        Some(key) => Err("unknown argument: "@ + key),
        None => crate::mcp::tools::required_string(args, "text"@),
    }
}

/// Reads the arguments of `give_feedback`.
pub fn parse_feedback(args: &JsonMap) -> (r: Result<String, String>)
    ensures
        match r {
            Ok(text) => feedback_in(args@) == Ok::<Seq<char>, Seq<char>>(text@),
            Err(message) => feedback_in(args@) == Err::<Seq<char>, Seq<char>>(message@),
        },
{
    reject_unknown_keys(args, &["text"])?;
    require_string(args, "text")
}

/// The observation that a feedback becomes. Its source names the session and the request,
/// and serves as the key by which a retried call is recognized. It is a user's statement, and
/// belongs to no agent, turn, batch or commit.
#[derive(Debug, PartialEq, Eq)]
pub struct FeedbackEnvelope {
    pub observation_id: String,
    pub source_event_id: String,
    pub dedup_key: String,
    pub payload_hash: String,
    pub event_type: &'static str,
    pub evidence_kind: EvidenceKind,
    pub trust: TrustLevel,
    pub source_timestamp: i64,
    pub repo_id: Option<String>,
    pub worktree_id: Option<String>,
    pub session_id: String,
    pub agent_id: Option<String>,
    pub turn_id: Option<String>,
    pub batch_id: Option<String>,
    pub commit_hash: Option<String>,
    pub short_evidence_excerpt: Option<String>,
    pub redaction_version: Option<i64>,
}

/// The source of a feedback.
pub open spec fn feedback_source(session_id: Seq<char>, request_id: JsonView) -> Seq<char> {
    "mcp:"@ + session_id + ":"@ + request_id_text(request_id)
}

/// Whether `envelope` is the observation that a feedback becomes.
pub open spec fn observes(
    envelope: FeedbackEnvelope,
    session_id: Seq<char>,
    request_id: JsonView,
    resolution: Resolution<Seq<char>>,
    observation_id: Seq<char>,
    payload_hash: Seq<char>,
    now_ms: i64,
) -> bool {
    &&& envelope.observation_id@ == observation_id
    &&& envelope.payload_hash@ == payload_hash
    &&& envelope.source_event_id@ == feedback_source(session_id, request_id)
    &&& envelope.dedup_key@ == envelope.source_event_id@
    &&& envelope.event_type@ == "McpFeedback"@
    &&& envelope.evidence_kind == EvidenceKind::UserStatement
    &&& envelope.trust == TrustLevel::Normal
    &&& envelope.source_timestamp == now_ms
    &&& envelope.session_id@ == session_id
    &&& envelope.agent_id is None
    &&& envelope.turn_id is None
    &&& envelope.batch_id is None
    &&& envelope.commit_hash is None
    &&& envelope.short_evidence_excerpt is None
    &&& envelope.redaction_version is None
    &&& match resolution {
        Resolution::Resolved { repo_id, worktree_id } => envelope.repo_id.deep_view() == Some(
            repo_id,
        ) && envelope.worktree_id.deep_view() == Some(worktree_id),
        _ => envelope.repo_id is None && envelope.worktree_id is None,
    }
}

/// The observation that a feedback becomes. `payload_hash` is the hash of what was said.
pub fn feedback_envelope(
    session_id: &str,
    request_id: &Json,
    resolution: &Resolution,
    observation_id: &str,
    payload_hash: &str,
    now_ms: i64,
) -> (r: FeedbackEnvelope)
    ensures
        observes(
            r,
            session_id@,
            request_id@,
            resolution@,
            observation_id@,
            payload_hash@,
            now_ms,
        ),
{
    let id = request_id_string(request_id);
    let source_event_id = concat4("mcp:", session_id, ":", id.as_str());
    let (repo_id, worktree_id) = match resolution {
        Resolution::Resolved { repo_id, worktree_id } => (
            Some(repo_id.clone()),
            Some(worktree_id.clone()),
        ),
        _ => (None, None),
    };
    FeedbackEnvelope {
        observation_id: observation_id.to_owned(),
        dedup_key: source_event_id.clone(),
        source_event_id,
        payload_hash: payload_hash.to_owned(),
        event_type: "McpFeedback",
        evidence_kind: EvidenceKind::UserStatement,
        trust: TrustLevel::Normal,
        source_timestamp: now_ms,
        repo_id,
        worktree_id,
        session_id: session_id.to_owned(),
        agent_id: None,
        turn_id: None,
        batch_id: None,
        commit_hash: None,
        short_evidence_excerpt: None,
        redaction_version: None,
    }
}

/// What `give_feedback` answers. An observation that gets no place in the sequence was
/// there before.
pub open spec fn feedback_reply(
    source_event_id: Seq<char>,
    received_seq: Result<Option<i64>, String>,
) -> ToolReply<Seq<char>, JsonView> {
    match received_seq {
        Ok(place) => ToolReply::Success(
            JsonView::Obj(
                crate::json::nothing().push(
                    ("source_event_id"@, JsonView::Str(source_event_id)),
                ).push(("deduplicated"@, JsonView::Bool(place is None))),
            ),
        ),
        Err(message) => crate::mcp::reply::unreadable(message@),
    }
}

/// What `give_feedback` answers.
pub fn feedback_result(source_event_id: &str, received_seq: Result<Option<i64>, String>) -> (r:
    ToolReply)
    ensures
        r@ == feedback_reply(source_event_id@, received_seq),
{
    match received_seq {
        Ok(place) => ToolReply::Success(
            JsonMap::new().with("source_event_id", Json::string(source_event_id)).with(
                "deduplicated",
                Json::boolean(place.is_none()),
            ).json(),
        ),
        Err(message) => infra_err(message.as_str()),
    }
}

proof fn lemma_feedback_told(source_event_id: Seq<char>, place: Option<i64>)
    ensures
        ({
            let reply = feedback_reply(source_event_id, Ok(place));
            &&& reply is Success
            &&& reply_member(reply, "source_event_id"@) == Some(JsonView::Str(source_event_id))
            &&& reply_member(reply, "deduplicated"@) == Some(JsonView::Bool(place is None))
        }),
{
    reveal_strlit("source_event_id");
    reveal_strlit("deduplicated");
    assert("source_event_id"@.len() == 15);
    assert("deduplicated"@.len() == 12);
    let m0 = crate::json::nothing();
    let e1 = ("source_event_id"@, JsonView::Str(source_event_id));
    let e2 = ("deduplicated"@, JsonView::Bool(place is None));
    crate::json::lemma_lookup_push(m0, e1, "source_event_id"@);
    crate::json::lemma_lookup_push(m0.push(e1), e2, "source_event_id"@);
    crate::json::lemma_lookup_push(m0, e1, "deduplicated"@);
    crate::json::lemma_lookup_push(m0.push(e1), e2, "deduplicated"@);
}

/// Feedback that is given twice by one request has one source and one key. Where the store
/// gives the first a place and finds the second to be there already, both calls succeed and
/// name that source; only the second is told to be a duplicate.
pub proof fn law_feedback_given_twice_is_one(
    session_id: Seq<char>,
    request_id: JsonView,
    resolutions: (Resolution<Seq<char>>, Resolution<Seq<char>>),
    observation_ids: (Seq<char>, Seq<char>),
    payload_hashes: (Seq<char>, Seq<char>),
    times: (i64, i64),
    first: FeedbackEnvelope,
    second: FeedbackEnvelope,
    place: i64,
)
    requires
        observes(
            first,
            session_id,
            request_id,
            resolutions.0,
            observation_ids.0,
            payload_hashes.0,
            times.0,
        ),
        observes(
            second,
            session_id,
            request_id,
            resolutions.1,
            observation_ids.1,
            payload_hashes.1,
            times.1,
        ),
    ensures
        ({
            let source = "mcp:"@ + session_id + ":"@ + request_id_text(request_id);
            let told = feedback_reply(first.source_event_id@, Ok(Some(place)));
            let told_again = feedback_reply(second.source_event_id@, Ok(None));
            &&& first.source_event_id@ == source && second.source_event_id@ == source
            &&& first.dedup_key@ == source && second.dedup_key@ == source
            &&& told is Success && told_again is Success
            &&& reply_member(told, "source_event_id"@) == Some(JsonView::Str(source))
            &&& reply_member(told_again, "source_event_id"@) == Some(JsonView::Str(source))
            &&& reply_member(told, "deduplicated"@) == Some(JsonView::Bool(false))
            &&& reply_member(told_again, "deduplicated"@) == Some(JsonView::Bool(true))
        }),
{
    lemma_feedback_told(first.source_event_id@, Some(place));
    lemma_feedback_told(second.source_event_id@, None);
}

/// Within a session, two requests have one key exactly when their ids read the same: a
/// retry is recognized, and no other request is taken for one.
pub proof fn law_a_key_names_one_request(
    session_id: Seq<char>,
    first: JsonView,
    second: JsonView,
)
    ensures
        remember_key(session_id, first) == remember_key(session_id, second) <==> request_id_text(
            first,
        ) == request_id_text(second),
        feedback_source(session_id, first) == feedback_source(session_id, second)
            <==> request_id_text(first) == request_id_text(second),
{
    let a = "mcp-remember:"@ + session_id + ":"@;
    let b = "mcp:"@ + session_id + ":"@;
    let x = request_id_text(first);
    let y = request_id_text(second);
    if a + x == a + y {
        assert(x =~= (a + x).skip(a.len() as int));
        assert(y =~= (a + y).skip(a.len() as int));
    }
    if b + x == b + y {
        assert(x =~= (b + x).skip(b.len() as int));
        assert(y =~= (b + y).skip(b.len() as int));
    }
}

/// A change that the store refused is answered by the failure of the same name, with what the
/// store said of it.
pub proof fn law_a_refused_change_keeps_its_name(e: MemoryOpError)
    ensures
        e is UnknownMemory <==> op_failure(e) is UnknownMemory,
        e matches MemoryOpError::OptimisticConflict { expected, actual } ==> op_failure(e) == (
        Failure::<Seq<char>>::OptimisticConflict { expected, actual }),
        e is CanonicalKeyConflict <==> op_failure(e) is CanonicalKeyConflict,
        e is InvalidGlobalScopeOwner <==> op_failure(e) is InvalidGlobalScopeOwner,
        e matches MemoryOpError::IllegalTransition { message } ==> op_failure(e) == (
        Failure::IllegalMemoryTransition { details: message@ }),
        e is EntryTerminal <==> op_failure(e) is EntryTerminal,
        e is IncompatibleScope <==> op_failure(e) is IncompatibleScope,
        e is EmptyMergeSet <==> op_failure(e) is EmptyMergeSet,
        e is ModelClaimOnlyProvenance <==> op_failure(e) is ModelClaimOnlyProvenance,
{
}

/// A review that was refused is answered by the failure of the same name; one that failed in
/// making its change is answered as that change would be.
pub proof fn law_a_refused_review_keeps_its_name(e: ReviewError)
    ensures
        e is UnknownCandidate <==> review_failure(e) is UnknownCandidate,
        e matches ReviewError::IllegalTransition { message } ==> review_failure(e) == (
        Failure::IllegalCandidateTransition { details: message@ }),
        e is NotPending <==> review_failure(e) is CandidateNotPending,
        e matches ReviewError::InvalidProposedOperation { details } ==> review_failure(e) == (
        Failure::InvalidProposedOperation { details: details@ }),
        e matches ReviewError::Materialization(inner) ==> review_failure(e) == op_failure(inner),
{
}

/// The id of a request reads as it stands where it is a string, and as JSON writes it where it is
/// not: a number in decimal.
pub proof fn law_how_a_request_id_reads(id: JsonView, s: Seq<char>, i: int)
    ensures
        request_id_text(JsonView::Str(s)) == s,
        request_id_text(JsonView::integer(i)) == crate::text::decimal(i),
        !(id is Str) ==> request_id_text(id) == crate::json::json_text(id),
{
}

/// A key starts with what it is for and the session, and ends with the id of the request.
pub proof fn law_a_key_names_session_and_request(session_id: Seq<char>, request_id: JsonView)
    ensures
        remember_key(session_id, request_id) == "mcp-remember:"@ + session_id + ":"@
            + request_id_text(request_id),
        feedback_source(session_id, request_id) == "mcp:"@ + session_id + ":"@ + request_id_text(
            request_id,
        ),
{
}

/// What is to be remembered is what the arguments say. Left out, the scope is for the daemon to
/// choose, there is no key, the importance is medium, and no user has confirmed it.
pub proof fn law_what_is_remembered_is_what_the_arguments_say(
    args: Seq<(Seq<char>, JsonView)>,
    request: Remember<Seq<char>>,
)
    requires
        remember_in(args) == Ok::<Remember<Seq<char>>, Seq<char>>(request),
    ensures
        crate::json::lookup(args, "text"@) == Some(JsonView::Str(request.text)),
        request.text.len() > 0,
        crate::json::lookup(args, "kind"@) == Some(JsonView::Str(request.kind.name())),
        crate::json::lookup(args, "scope"@) is None <==> request.scope is None,
        crate::json::lookup(args, "scope"@) matches Some(v) ==> v == JsonView::Str(
            request.scope->Some_0.name(),
        ),
        crate::json::lookup(args, "canonical_key"@) is None ==> request.canonical_key is None,
        crate::json::lookup(args, "canonical_key"@) matches Some(v) ==> (
        request.canonical_key matches Some(k) && v == JsonView::Str(k)),
        crate::json::lookup(args, "importance"@) is None ==> request.importance is Medium,
        crate::json::lookup(args, "importance"@) matches Some(v) ==> v == JsonView::Str(
            request.importance.name(),
        ),
        crate::json::lookup(args, "confirmed_by_user"@) is None ==> !request.confirmed_by_user,
        crate::json::lookup(args, "confirmed_by_user"@) matches Some(v) ==> v == JsonView::Bool(
            request.confirmed_by_user,
        ),
        forall|i: int|
            0 <= i < args.len() ==> ((#[trigger] args[i]).0 == "text"@ || args[i].0 == "kind"@
                || args[i].0 == "scope"@ || args[i].0 == "canonical_key"@ || args[i].0
                == "importance"@ || args[i].0 == "confirmed_by_user"@),
{
    let known = [
        "text",
        "kind",
        "scope",
        "canonical_key",
        "importance",
        "confirmed_by_user",
    ]@;
    crate::mcp::tools::law_no_unknown_argument(args, known);
    assert forall|i: int| 0 <= i < args.len() implies ((#[trigger] args[i]).0 == "text"@
        || args[i].0 == "kind"@ || args[i].0 == "scope"@ || args[i].0 == "canonical_key"@
        || args[i].0 == "importance"@ || args[i].0 == "confirmed_by_user"@) by {
        assert(crate::mcp::tools::is_known(known, args[i].0));
    }
    if let Some(JsonView::Str(s)) = crate::json::lookup(args, "kind"@) {
        crate::vocabulary::law_memory_kind_names(request.kind, s);
    }
    if let Some(JsonView::Str(s)) = crate::json::lookup(args, "scope"@) {
        crate::vocabulary::law_scope_kind_names(request.scope->Some_0, s);
    }
    if let Some(JsonView::Str(s)) = crate::json::lookup(args, "importance"@) {
        crate::vocabulary::law_signal_names(request.importance, s);
    }
}

/// A text and a kind are all that is needed to remember something.
pub proof fn law_a_text_and_a_kind_are_enough(
    args: Seq<(Seq<char>, JsonView)>,
    text: Seq<char>,
    kind: MemoryKind,
)
    requires
        args == seq![("text"@, JsonView::Str(text)), ("kind"@, JsonView::Str(kind.name()))],
        text.len() > 0,
    ensures
        remember_in(args) matches Ok(request) && request.text == text && request.kind == kind,
{
    let known = [
        "text",
        "kind",
        "scope",
        "canonical_key",
        "importance",
        "confirmed_by_user",
    ]@;
    assert(known[0]@ == "text"@ && known[1]@ == "kind"@);
    assert(crate::mcp::tools::is_known(known, args[0].0));
    assert(crate::mcp::tools::is_known(known, args[1].0));
    crate::mcp::tools::law_no_unknown_argument(args, known);
    reveal_strlit("text");
    reveal_strlit("kind");
    reveal_strlit("scope");
    reveal_strlit("canonical_key");
    reveal_strlit("importance");
    reveal_strlit("confirmed_by_user");
    assert("text"@.len() == 4 && "text"@[0] == 't');
    assert("kind"@.len() == 4 && "kind"@[0] == 'k');
    assert("scope"@.len() == 5);
    assert("canonical_key"@.len() == 13);
    assert("importance"@.len() == 10);
    assert("confirmed_by_user"@.len() == 17);
    crate::json::law_a_name_gives_its_first_member(args, "text"@, 0);
    crate::json::law_a_name_gives_its_first_member(args, "kind"@, 1);
    crate::json::law_a_name_gives_its_first_member(args, "scope"@, 0);
    crate::json::law_a_name_gives_its_first_member(args, "canonical_key"@, 0);
    crate::json::law_a_name_gives_its_first_member(args, "importance"@, 0);
    crate::json::law_a_name_gives_its_first_member(args, "confirmed_by_user"@, 0);
    crate::vocabulary::law_memory_kind_names(kind, kind.name());
}

/// The text that is stored is the translation where there is one, and otherwise the text as it
/// came; where nothing was decided it is the text as it came.
pub proof fn law_the_text_that_is_stored(text: Seq<char>, decided: Normalized<Seq<char>>)
    ensures
        remembered_text(text, None) == text,
        decided matches Normalized::Translated { english, .. } ==> remembered_text(
            text,
            Some(decided),
        ) == english,
        !(decided is Translated) ==> remembered_text(text, Some(decided)) == text,
{
}

/// What the store is asked to create is what was to be remembered, in the scope that was granted,
/// under the id and the key that were given. What a user has confirmed is trusted highly and
/// anything else at middling; it is the user's own either way, and rests on nothing else.
pub proof fn law_an_entry_is_created_as_it_was_asked_for(
    plan: CreatePlan,
    request: Remember,
    scope: WriteScope<Seq<char>>,
    memory_id: Seq<char>,
    idempotency_key: Seq<char>,
    decided: Option<Normalized<Seq<char>>>,
    canon_sha256: Seq<char>,
    translator_version: i64,
)
    requires
        creates(
            plan,
            request,
            scope,
            memory_id,
            idempotency_key,
            decided,
            canon_sha256,
            translator_version,
        ),
    ensures
        plan.memory_id@ == memory_id,
        plan.kind == request.kind,
        plan.canonical_key == request.canonical_key,
        plan.scope_kind == scope.kind,
        plan.scope_owner_id@ == scope.owner_id,
        plan.confidence is High <==> request.confirmed_by_user,
        plan.confidence is Medium <==> !request.confirmed_by_user,
        plan.importance == request.importance,
        plan.valid_from_tree is None && plan.last_verified_tree is None,
        plan.evidence@.len() == 0,
        plan.actor is User,
        plan.idempotency_key@ == idempotency_key,
        decided is None ==> plan.row is None && plan.text@ == request.text@,
        decided matches Some(Normalized::Translated { english, original, .. }) ==> plan.text@
            == english && (plan.row matches Some(row) && row@.memory_id == memory_id
            && row@.canon_text_sha256 == canon_sha256 && row@.source_text == Some(original)),
        decided is Some && !(decided->Some_0 is Translated) ==> plan.text@ == request.text@ && (
        plan.row matches Some(row) && row@.memory_id == memory_id && row@.canon_text_sha256
            == canon_sha256 && row@.source_text is None),
{
}

/// A change is told by the entry, its version, its audit and whether it was made now.
pub proof fn law_a_change_is_told_whole(outcome: MemoryOpOutcome, result: MemoryOpResult)
    requires
        outcome == MemoryOpOutcome::Applied(result) || outcome == MemoryOpOutcome::Replayed(
            result,
        ),
    ensures
        ({
            let value = JsonView::Obj(outcome_members(outcome));
            &&& crate::json::has_member(value, "memory_id"@, JsonView::Str(result.memory_id@))
            &&& crate::json::has_member(
                value,
                "entry_version"@,
                JsonView::integer(result.entry_version as int),
            )
            &&& crate::json::has_member(
                value,
                "audit_id"@,
                JsonView::integer(result.audit_id as int),
            )
            &&& outcome is Applied ==> crate::json::has_member(
                value,
                "outcome"@,
                JsonView::Str("applied"@),
            )
            &&& outcome is Replayed ==> crate::json::has_member(
                value,
                "outcome"@,
                JsonView::Str("replayed"@),
            )
            &&& outcome_members(outcome).len() == 4
        }),
{
    let o = outcome_members(outcome);
    crate::json::lemma_member(o, 0);
    crate::json::lemma_member(o, 1);
    crate::json::lemma_member(o, 2);
    crate::json::lemma_member(o, 3);
}

/// A change that was made is answered by it, one that was refused by why, and a store that could
/// not make it by what went wrong. This holds of edits, reviews and what is remembered alike.
pub proof fn law_every_change_is_answered(
    done: MemoryOpOutcome,
    e: MemoryOpError,
    review: ReviewError,
    message: String,
    scope: WriteScope<Seq<char>>,
    id: Seq<char>,
)
    ensures
        change_reply(Ok(Ok(done))) == (ToolReply::<Seq<char>, JsonView>::Success(
            JsonView::Obj(outcome_members(done)),
        )),
        change_reply(Ok(Err(e))) == (ToolReply::<Seq<char>, JsonView>::Failed(op_failure(e))),
        remember_reply(Ok(Err(e)), scope) == (ToolReply::<Seq<char>, JsonView>::Failed(
            op_failure(e),
        )),
        approve_reply(Ok(Ok(ApproveOutcome::Materialized(done)))) == (ToolReply::<
            Seq<char>,
            JsonView,
        >::Success(JsonView::Obj(outcome_members(done)))),
        approve_reply(Ok(Ok(ApproveOutcome::AlreadyApproved))) matches ToolReply::Success(v)
            && crate::json::has_member(v, "outcome"@, JsonView::Str("already_approved"@)),
        approve_reply(Ok(Err(review))) == (ToolReply::<Seq<char>, JsonView>::Failed(
            review_failure(review),
        )),
        review_reply(id, Ok(Ok(()))) matches ToolReply::Success(v) && crate::json::has_member(
            v,
            "id"@,
            JsonView::Str(id),
        ),
        review_reply(id, Ok(Err(review))) == (ToolReply::<Seq<char>, JsonView>::Failed(
            review_failure(review),
        )),
        ({
            let failed = ToolReply::<Seq<char>, JsonView>::Failed(
                Failure::IndexUnavailable { details: message@ },
            );
            &&& change_reply(Err(message)) == failed
            &&& remember_reply(Err(message), scope) == failed
            &&& approve_reply(Err(message)) == failed
            &&& review_reply(id, Err(message)) == failed
            &&& feedback_reply(id, Err(message)) == failed
        }),
{
    crate::json::lemma_member(
        (approve_reply(Ok(Ok(ApproveOutcome::AlreadyApproved)))->Success_0)->Obj_0,
        0,
    );
    crate::json::lemma_member((review_reply(id, Ok(Ok(())))->Success_0)->Obj_0, 0);
}

/// Where an entry landed is told by the name of its scope. A fallback is told with its marker and
/// its remedy, and nothing of the kind is told where there was none.
pub proof fn law_remember_tells_where_it_landed(
    outcome: MemoryOpOutcome,
    scope: WriteScope<Seq<char>>,
)
    ensures
        remember_reply(Ok(Ok(outcome)), scope) matches ToolReply::Success(value) && {
            &&& crate::json::has_member(value, "scope"@, JsonView::Str(scope.kind.name()))
            &&& scope.fallback matches Some(why) ==> crate::json::has_member(
                value,
                "degraded"@,
                JsonView::Str(why.marker()),
            ) && crate::json::has_member(value, "hint"@, JsonView::Str(why.remedy())) && (
            value->Obj_0).len() == 7
            &&& scope.fallback is None ==> (value->Obj_0).len() == 5
        },
{
    let o = (remember_reply(Ok(Ok(outcome)), scope)->Success_0)->Obj_0;
    crate::json::lemma_member(o, 4);
    if scope.fallback is Some {
        crate::json::lemma_member(o, 5);
        crate::json::lemma_member(o, 6);
    }
}

/// A candidate is named by its id and an entry by its id and the version it is expected to have,
/// both as they stand. Feedback is its text.
pub proof fn law_entries_are_named_as_the_arguments_say(
    args: Seq<(Seq<char>, JsonView)>,
    id: Seq<char>,
    entry: Versioned<Seq<char>>,
)
    ensures
        id_in(args) == Ok::<Seq<char>, Seq<char>>(id) ==> crate::json::lookup(args, "id"@) == Some(
            JsonView::Str(id),
        ) && id.len() > 0,
        args == seq![("id"@, JsonView::Str(id))] && id.len() > 0 ==> id_in(args) == Ok::<
            Seq<char>,
            Seq<char>,
        >(id),
        versioned_in(args) == Ok::<Versioned<Seq<char>>, Seq<char>>(entry) ==> crate::json::lookup(
            args,
            "id"@,
        ) == Some(JsonView::Str(entry.id)) && entry.id.len() > 0 && crate::json::lookup(
            args,
            "expected_version"@,
        ) == Some(JsonView::integer(entry.expected_version as int)),
        feedback_in(args) == Ok::<Seq<char>, Seq<char>>(id) ==> crate::json::lookup(
            args,
            "text"@,
        ) == Some(JsonView::Str(id)) && id.len() > 0,
        args == seq![("text"@, JsonView::Str(id))] && id.len() > 0 ==> feedback_in(args) == Ok::<
            Seq<char>,
            Seq<char>,
        >(id),
{
    if args == seq![("id"@, JsonView::Str(id))] {
        let known = ["id"]@;
        assert(known[0]@ == "id"@);
        assert(crate::mcp::tools::is_known(known, args[0].0));
        crate::mcp::tools::law_no_unknown_argument(args, known);
    }
    if args == seq![("text"@, JsonView::Str(id))] {
        let known = ["text"]@;
        assert(known[0]@ == "text"@);
        assert(crate::mcp::tools::is_known(known, args[0].0));
        crate::mcp::tools::law_no_unknown_argument(args, known);
    }
}

/// A retraction, confirmation or rejection is asked for the entry and the version that were
/// named, for a user, and a merge for the entries that were named.
pub proof fn law_a_change_is_asked_for_a_user(
    plan: ChangePlan,
    entry: Versioned<Seq<char>>,
    union: MergePlan,
    merge: Merge,
    i: int,
)
    requires
        asks_change(plan, entry),
        asks_merge(union, merge),
    ensures
        plan.memory_id@ == entry.id,
        plan.expected_version == entry.expected_version,
        plan.evidence@.len() == 0,
        plan.actor is User,
        plan.idempotency_key is None,
        union.survivor_id@ == merge.survivor_id@,
        union.survivor_expected_version == merge.survivor_expected_version,
        union.losers@.len() == merge.losers@.len(),
        0 <= i < merge.losers@.len() ==> union.losers@[i].0@ == merge.losers@[i].0@
            && union.losers@[i].1 == merge.losers@[i].1,
        union.actor is User,
        union.idempotency_key is None,
{
    if 0 <= i < merge.losers@.len() {
        assert(versions(union.losers@)[i] == versions(merge.losers@)[i]);
    }
    assert(versions(union.losers@).len() == versions(merge.losers@).len());
}

/// A list is one of strings exactly where each item is one, and then they are these.
pub proof fn law_strings_are_read_in_their_places(items: Seq<JsonView>, count: nat, i: int)
    requires
        count <= items.len(),
        0 <= i < count,
    ensures
        !(items[i] is Str) ==> strings_of(items, count) is None,
        strings_of(items, count) matches Some(strings) ==> strings.len() == count && items[i]
            == JsonView::Str(strings[i]),
        (forall|j: int| 0 <= j < count ==> (#[trigger] items[j]) is Str) ==> strings_of(
            items,
            count,
        ) is Some,
    decreases count,
{
    if count > 1 {
        if i < count - 1 {
            law_strings_are_read_in_their_places(items, (count - 1) as nat, i);
        } else {
            law_strings_are_read_in_their_places(items, (count - 1) as nat, 0);
        }
    } else {
        assert(strings_of(items, 0) == Some(Seq::<Seq<char>>::empty()));
    }
    assert(items[count - 1] is Str || strings_of(items, count) is None);
}

/// An edit of a candidate changes what its patch sets and nothing else, and sets something. An
/// operation that is none is refused.
pub proof fn law_a_candidate_is_edited_as_its_patch_says(
    args: Seq<(Seq<char>, JsonView)>,
    operation_fault: Option<Seq<char>>,
    edit: (Seq<char>, Option<JsonView>, Option<Seq<Seq<char>>>),
)
    requires
        edit_candidate_in(args, operation_fault) == Ok::<
            (Seq<char>, Option<JsonView>, Option<Seq<Seq<char>>>),
            Seq<char>,
        >(edit),
    ensures
        crate::json::lookup(args, "id"@) == Some(JsonView::Str(edit.0)),
        edit.0.len() > 0,
        edit.1 is Some || edit.2 is Some,
        edit.1 is Some ==> operation_fault is None,
        crate::json::lookup(args, "patch"@) matches Some(JsonView::Obj(patch)) && {
            &&& edit.1 == crate::json::lookup(patch, "proposed_operation"@)
            &&& edit.2 is None <==> crate::json::lookup(patch, "conflicts"@) is None
            &&& edit.2 matches Some(strings) ==> (crate::json::lookup(
                patch,
                "conflicts"@,
            ) matches Some(JsonView::Arr(items)) && strings_of(items, items.len()) == Some(
                strings,
            ))
        },
{
}

/// An edit of an entry changes what its patch sets, the text as it stands and an importance from
/// zero to one, on the version that is expected, and sets something.
pub proof fn law_an_entry_is_edited_as_its_patch_says(
    args: Seq<(Seq<char>, JsonView)>,
    edit: EditMemory<Seq<char>, NumberView>,
)
    requires
        edit_memory_in(args) == Ok::<EditMemory<Seq<char>, NumberView>, Seq<char>>(edit),
    ensures
        crate::json::lookup(args, "id"@) == Some(JsonView::Str(edit.id)),
        edit.id.len() > 0,
        crate::json::lookup(args, "expected_version"@) == Some(
            JsonView::integer(edit.expected_version as int),
        ),
        edit.text is Some || edit.importance is Some,
        edit.importance matches Some(n) ==> crate::mcp::arguments::is_fraction(n),
        crate::json::lookup(args, "patch"@) matches Some(JsonView::Obj(patch)) && {
            &&& edit.text is None <==> crate::json::lookup(patch, "text"@) is None
            &&& edit.text matches Some(s) ==> crate::json::lookup(patch, "text"@) == Some(
                JsonView::Str(s),
            )
            &&& edit.importance is None <==> crate::json::lookup(patch, "importance"@) is None
            &&& edit.importance matches Some(n) ==> crate::json::lookup(patch, "importance"@)
                == Some(JsonView::Num(n))
        },
{
}

/// What the store is asked to change is what the edit says, for a user and on the expected
/// version. A new text is stored as it was decided, with the record of that; an edit of the
/// importance alone touches neither the text nor its record.
pub proof fn law_an_edit_is_asked_for_as_it_was_made(
    plan: EditPlan,
    edit: EditMemory,
    decided: Option<Normalized<Seq<char>>>,
    canon_sha256: Seq<char>,
    translator_version: i64,
)
    requires
        changes(plan, edit, decided, canon_sha256, translator_version),
    ensures
        plan.memory_id@ == edit.id@,
        plan.expected_version == edit.expected_version,
        plan.importance == edit.importance,
        plan.actor is User,
        plan.idempotency_key is None,
        edit.text is None ==> plan.text is None && plan.row is None,
        edit.text matches Some(text) ==> {
            &&& decided matches Some(Normalized::Translated { english, .. }) ==> (
            plan.text matches Some(new) && new@ == english)
            &&& decided is Some && !(decided->Some_0 is Translated) ==> (
            plan.text matches Some(new) && new@ == text@)
            &&& decided is Some ==> (plan.row matches Some(row) && row@.memory_id == edit.id@
                && row@.canon_text_sha256 == canon_sha256)
        },
{
}

/// An entry to merge is its id and the version it is expected to have, as they stand; anything
/// that lacks either is refused.
pub proof fn law_an_entry_to_merge_is_as_it_stands(item: JsonView, entry: (Seq<char>, i64))
    ensures
        merge_entry(item) == Ok::<(Seq<char>, i64), Seq<char>>(entry) <==> (
        item matches JsonView::Obj(object) && entry.0.len() > 0 && crate::json::lookup(
            object,
            "memory_id"@,
        ) == Some(JsonView::Str(entry.0)) && crate::json::lookup(object, "expected_version"@)
            == Some(JsonView::integer(entry.1 as int))),
{
}

proof fn lemma_merge_entry_at(items: Seq<JsonView>, count: nat, i: int)
    requires
        count <= items.len(),
        0 <= i < count,
    ensures
        merge_entry(items[i]) is Err ==> merge_entries(items, count) is Err,
        merge_entries(items, count) matches Ok(entries) ==> entries.len() == count && merge_entry(
            items[i],
        ) == Ok::<(Seq<char>, i64), Seq<char>>(entries[i]),
    decreases count,
{
    if count > 1 {
        if i < count - 1 {
            lemma_merge_entry_at(items, (count - 1) as nat, i);
        } else {
            lemma_merge_entry_at(items, (count - 1) as nat, 0);
        }
    } else {
        assert(merge_entries(items, 0) == Ok::<Seq<(Seq<char>, i64)>, Seq<char>>(Seq::empty()));
    }
}

/// A merge keeps the entry that was named to survive and merges every other one into it, each
/// with the version that was given for it, in the order in which they were given.
pub proof fn law_a_merge_is_what_its_arguments_say(
    args: Seq<(Seq<char>, JsonView)>,
    merge: (Seq<char>, i64, Seq<(Seq<char>, i64)>),
    i: int,
)
    requires
        merge_in(args) == Ok::<(Seq<char>, i64, Seq<(Seq<char>, i64)>), Seq<char>>(merge),
    ensures
        crate::json::lookup(args, "survivor_id"@) == Some(JsonView::Str(merge.0)),
        crate::json::lookup(args, "ids"@) matches Some(JsonView::Arr(items)) && {
            &&& items.len() >= 2
            &&& merge.2.len() == items.len() - 1
            &&& exists|at: int|
                {
                    &&& 0 <= at < items.len()
                    &&& #[trigger] merge_entry(items[at]) == Ok::<(Seq<char>, i64), Seq<char>>(
                        (merge.0, merge.1),
                    )
                    &&& 0 <= i < at ==> merge_entry(items[i]) == Ok::<
                        (Seq<char>, i64),
                        Seq<char>,
                    >(merge.2[i])
                    &&& at <= i < merge.2.len() ==> merge_entry(items[i + 1]) == Ok::<
                        (Seq<char>, i64),
                        Seq<char>,
                    >(merge.2[i])
                }
        },
{
    let items = crate::json::lookup(args, "ids"@)->Some_0->Arr_0;
    let entries = merge_entries(items, items.len())->Ok_0;
    lemma_merge_length(items, items.len());
    lemma_entry_position_in_range(entries, merge.0);
    let at = entry_position(entries, merge.0);
    lemma_merge_entry_at(items, items.len(), at);
    if 0 <= i < at {
        lemma_merge_entry_at(items, items.len(), i);
    }
    if at <= i < merge.2.len() {
        lemma_merge_entry_at(items, items.len(), i + 1);
    }
    assert(merge_entry(items[at]) == Ok::<(Seq<char>, i64), Seq<char>>((merge.0, merge.1)));
}

/// Feedback becomes a user's statement, made now in this session, of the worktree that the
/// request resolves to, or of none, and tied to nothing else.
pub proof fn law_feedback_is_a_users_statement(
    envelope: FeedbackEnvelope,
    session_id: Seq<char>,
    request_id: JsonView,
    resolution: Resolution<Seq<char>>,
    observation_id: Seq<char>,
    payload_hash: Seq<char>,
    now_ms: i64,
)
    requires
        observes(
            envelope,
            session_id,
            request_id,
            resolution,
            observation_id,
            payload_hash,
            now_ms,
        ),
    ensures
        envelope.observation_id@ == observation_id,
        envelope.payload_hash@ == payload_hash,
        envelope.event_type@ == "McpFeedback"@,
        envelope.evidence_kind is UserStatement,
        envelope.trust is Normal,
        envelope.source_timestamp == now_ms,
        envelope.session_id@ == session_id,
        envelope.dedup_key@ == envelope.source_event_id@,
        resolution matches Resolution::Resolved { repo_id, worktree_id } ==> (
        envelope.repo_id matches Some(r) && r@ == repo_id) && (
        envelope.worktree_id matches Some(w) && w@ == worktree_id),
        !(resolution is Resolved) ==> envelope.repo_id is None && envelope.worktree_id is None,
        envelope.agent_id is None && envelope.turn_id is None && envelope.batch_id is None,
        envelope.commit_hash is None && envelope.short_evidence_excerpt is None,
        envelope.redaction_version is None,
{
}

/// A patch is the object that the arguments hold, and none of its members is unknown.
pub proof fn law_a_patch_has_known_members_only(
    args: Seq<(Seq<char>, JsonView)>,
    known: Seq<&str>,
    patch: Seq<(Seq<char>, JsonView)>,
    i: int,
)
    requires
        patch_in(args, known) == Ok::<Seq<(Seq<char>, JsonView)>, Seq<char>>(patch),
    ensures
        crate::json::lookup(args, "patch"@) == Some(JsonView::Obj(patch)),
        0 <= i < patch.len() ==> crate::mcp::tools::is_known(known, patch[i].0),
{
    crate::mcp::tools::law_no_unknown_argument(patch, known);
    if 0 <= i < patch.len() {
        assert(crate::mcp::tools::is_known(known, patch[i].0));
    }
}

proof fn lemma_merge_entries_granted(items: Seq<JsonView>, count: nat)
    requires
        count <= items.len(),
        forall|i: int| 0 <= i < items.len() ==> merge_entry(#[trigger] items[i]) is Ok,
    ensures
        merge_entries(items, count) is Ok,
    decreases count,
{
    if count > 0 {
        lemma_merge_entries_granted(items, (count - 1) as nat);
        assert(merge_entry(items[count - 1]) is Ok);
    }
}

/// Two entries are enough for a merge, as long as each is named with its version and the survivor
/// is one of them.
pub proof fn law_two_entries_can_be_merged(
    args: Seq<(Seq<char>, JsonView)>,
    items: Seq<JsonView>,
    survivor: Seq<char>,
    at: int,
)
    requires
        args == seq![("ids"@, JsonView::Arr(items)), ("survivor_id"@, JsonView::Str(survivor))],
        items.len() >= 2,
        forall|i: int| 0 <= i < items.len() ==> merge_entry(#[trigger] items[i]) is Ok,
        0 <= at < items.len(),
        (merge_entry(items[at])->Ok_0).0 == survivor,
        survivor.len() > 0,
    ensures
        merge_in(args) matches Ok(merge) && merge.0 == survivor && merge.2.len() == items.len() - 1,
{
    let known = ["ids", "survivor_id"]@;
    assert(known[0]@ == "ids"@ && known[1]@ == "survivor_id"@);
    assert(crate::mcp::tools::is_known(known, args[0].0));
    assert(crate::mcp::tools::is_known(known, args[1].0));
    crate::mcp::tools::law_no_unknown_argument(args, known);
    reveal_strlit("ids");
    reveal_strlit("survivor_id");
    assert("ids"@.len() == 3);
    assert("survivor_id"@.len() == 11);
    crate::json::law_a_name_gives_its_first_member(args, "ids"@, 0);
    crate::json::law_a_name_gives_its_first_member(args, "survivor_id"@, 1);
    lemma_merge_entries_granted(items, items.len());
    let entries = merge_entries(items, items.len())->Ok_0;
    lemma_merge_length(items, items.len());
    lemma_merge_entry_at(items, items.len(), at);
    assert(entries[at].0 == survivor);
    lemma_position_found(entries, survivor, at);
}

proof fn lemma_position_found(entries: Seq<(Seq<char>, i64)>, id: Seq<char>, at: int)
    requires
        0 <= at < entries.len(),
        entries[at].0 == id,
    ensures
        0 <= entry_position(entries, id) <= at,
    decreases at,
{
    if entries[0].0 != id {
        let rest = entries.drop_first();
        assert(rest[at - 1] == entries[at]);
        lemma_position_found(rest, id, at - 1);
    }
}

} // verus!
