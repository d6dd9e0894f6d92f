//! The tools that read: memory entries, candidates, evidence, statistics and health.

use vstd::prelude::*;

use crate::json::{Json, JsonList, JsonMap, JsonView, Number, NumberView};
use crate::mcp::arguments::{optional_enum, optional_limit, optional_offset, optional_string};
use crate::mcp::reply::{infra_err, ToolReply};
use crate::mcp::tools::{
    reject_unknown_keys, require_string, DEFAULT_LIST_LIMIT, DEFAULT_RECALL_LIMIT, MAX_LIST_LIMIT,
    MAX_RECALL_LIMIT,
};
use crate::mode::DaemonMode;
use crate::order::{sort_rows, Dated};
use crate::text::{concat2, concat4, decimal_u64};
use crate::vocabulary::{CandidateState, MemoryKind, MemoryState, ScopeKind};

verus! {

/// What `recall` is asked. An empty query recalls the most recent entries.
#[derive(Debug, PartialEq, Eq)]
pub struct Recall<S = String> {
    pub query: S,
    pub limit: usize,
}

impl View for Recall<String> {
    type V = Recall<Seq<char>>;

    open spec fn view(&self) -> Recall<Seq<char>> {
        Recall { query: self.query@, limit: self.limit }
    }
}

/// The recall that arguments ask for, or what is wrong with them.
pub open spec fn recall_in(args: Seq<(Seq<char>, JsonView)>) -> Result<
    Recall<Seq<char>>,
    Seq<char>,
> {
    let known = ["query", "limit"]@;
    match crate::mcp::tools::first_unknown(args, known) {
        Some(key) => Err("unknown argument: "@ + key),
        None => match crate::mcp::arguments::optional_text(args, "query"@) {
            Err(message) => Err(message),
            Ok(query) => match crate::mcp::arguments::limit_in(
                args,
                DEFAULT_RECALL_LIMIT,
                MAX_RECALL_LIMIT,
            ) {
                Err(message) => Err(message),
                Ok(limit) => Ok(
                    Recall {
                        query: match query {
                            Some(q) => q,
                            None => Seq::empty(),
                        },
                        limit: limit as usize,
                    },
                ),
            },
        },
    }
}

/// Reads the arguments of `recall`.
pub fn parse_recall(args: &JsonMap) -> (r: Result<Recall, String>)
    ensures
        match r {
            Ok(recall) => recall_in(args@) == Ok::<Recall<Seq<char>>, Seq<char>>(recall@),
            Err(message) => recall_in(args@) == Err::<Recall<Seq<char>>, Seq<char>>(message@),
        },
{
    reject_unknown_keys(args, &["query", "limit"])?;
    let query = optional_string(args, "query")?;
    let limit: i64 = optional_limit(args, DEFAULT_RECALL_LIMIT, MAX_RECALL_LIMIT)?;
    let query = match query {
        Some(q) => q,
        None => String::new(),
    };
    Ok(Recall { query, limit: limit as usize })
}

/// One recalled entry.
#[derive(Debug, PartialEq, Eq)]
pub struct RecallEntry {
    pub memory_id: String,
    pub kind: MemoryKind,
    pub state: MemoryState,
    pub confidence: Number,
    pub text: String,
}

/// A recalled entry as a value.
pub open spec fn recall_entry_value(e: RecallEntry) -> JsonView {
    JsonView::Obj(
        crate::json::nothing().push(("memory_id"@, JsonView::Str(e.memory_id@))).push(
            ("kind"@, JsonView::Str(e.kind.name())),
        ).push(("state"@, JsonView::Str(e.state.name()))).push(
            ("confidence"@, JsonView::Num(e.confidence@)),
        ).push(("text"@, JsonView::Str(e.text@))),
    )
}

fn recall_entry_json(e: &RecallEntry) -> (r: Json)
    ensures
        r@ == recall_entry_value(*e),
{
    JsonMap::new().with("memory_id", Json::string(e.memory_id.as_str())).with(
        "kind",
        Json::string(e.kind.as_str()),
    ).with("state", Json::string(e.state.as_str())).with(
        "confidence",
        Json::number(&e.confidence),
    ).with("text", Json::string(e.text.as_str())).json()
}

/// Why the vector leg of a recall did not run.
#[derive(Debug, PartialEq, Eq)]
pub enum DenseLegUnavailable {
    NoRepresentation,
    EmbedFailed { reason: String },
    DimensionMismatch { expected: u64, got: u64 },
}

/// The label under which a missing vector leg is reported.
pub open spec fn degraded_label(d: DenseLegUnavailable) -> Seq<char> {
    match d {
        DenseLegUnavailable::NoRepresentation => "no_representation"@,
        DenseLegUnavailable::EmbedFailed { reason } => "embed_failed: "@ + reason@,
        DenseLegUnavailable::DimensionMismatch { expected, got } =>
        "dimension_mismatch: expected "@ + crate::text::decimal(expected as int) + " got "@
            + crate::text::decimal(got as int),
    }
}

/// The label under which a missing vector leg is reported.
pub fn dense_degraded_label(d: &DenseLegUnavailable) -> (r: String)
    ensures
        r@ == degraded_label(*d),
{
    match d {
        DenseLegUnavailable::NoRepresentation => "no_representation".to_owned(),
        DenseLegUnavailable::EmbedFailed { reason } => concat2("embed_failed: ", reason.as_str()),
        DenseLegUnavailable::DimensionMismatch { expected, got } => {
            let e = decimal_u64(*expected);
            let g = decimal_u64(*got);
            concat4("dimension_mismatch: expected ", e.as_str(), " got ", g.as_str())
        },
    }
}

/// What a recall found.
#[derive(Debug, PartialEq, Eq)]
pub struct RecallOutcome {
    pub scope_label: String,
    pub additional_context: String,
    pub entries: Vec<RecallEntry>,
    pub candidate_count: u64,
    pub truncated: bool,
    pub dense_degraded: Option<DenseLegUnavailable>,
}

/// The first `limit` entries as values.
pub open spec fn recall_entries_value(entries: Seq<RecallEntry>, limit: nat) -> JsonView {
    JsonView::Arr(
        Seq::new(
            if limit < entries.len() {
                limit
            } else {
                entries.len()
            },
            |i: int| recall_entry_value(entries[i]),
        ),
    )
}

/// What `recall` answers. The limit bounds the entries and nothing else.
pub open spec fn recall_value(outcome: RecallOutcome, limit: usize) -> JsonView {
    JsonView::Obj(
        crate::json::nothing().push(("scope"@, JsonView::Str(outcome.scope_label@))).push(
            ("additional_context"@, JsonView::Str(outcome.additional_context@)),
        ).push(("entries"@, recall_entries_value(outcome.entries@, limit as nat))).push(
            ("candidate_count"@, JsonView::integer(outcome.candidate_count as int)),
        ).push(("truncated"@, JsonView::Bool(outcome.truncated))).push(
            (
                "dense_degraded"@,
                match outcome.dense_degraded {
                    Some(d) => JsonView::Str(degraded_label(d)),
                    None => JsonView::Null,
                },
            ),
        ),
    )
}

/// What `recall` answers.
pub fn recall_result(outcome: &RecallOutcome, limit: usize) -> (r: Json)
    ensures
        r@ == recall_value(*outcome, limit),
{
    broadcast use crate::json::lemma_view;

    let mut items: Vec<Json> = Vec::new();
    let mut i: usize = 0;
    while i < outcome.entries.len() && i < limit
        invariant
            i <= outcome.entries.len(),
            i <= limit,
            items.len() == i,
            forall|j: int|
                0 <= j < i ==> (#[trigger] items@[j])@ == recall_entry_value(
                    outcome.entries@[j],
                ),
        decreases outcome.entries.len() - i,
    {
        items.push(recall_entry_json(&outcome.entries[i]));
        i = i + 1;
    }
    proof {
        assert(crate::json::values(items@) =~= recall_entries_value(
            outcome.entries@,
            limit as nat,
        )->Arr_0);
    }
    let degraded = match &outcome.dense_degraded {
        Some(d) => Json::Str(dense_degraded_label(d)),
        None => Json::Null,
    };
    JsonMap::new().with("scope", Json::string(outcome.scope_label.as_str())).with(
        "additional_context",
        Json::string(outcome.additional_context.as_str()),
    ).with("entries", Json::array(items)).with(
        "candidate_count",
        Json::unsigned(outcome.candidate_count),
    ).with("truncated", Json::boolean(outcome.truncated)).with("dense_degraded", degraded).json()
}

/// What `list_memory` is asked. A filter that is left out keeps everything.
#[derive(Debug, Clone, Copy, PartialEq, Eq)]
pub struct ListMemory {
    pub kind: Option<MemoryKind>,
    pub state: Option<MemoryState>,
    pub scope: Option<ScopeKind>,
    pub limit: i64,
    pub offset: i64,
}

/// The listing that arguments ask for, or what is wrong with them.
pub open spec fn list_memory_in(args: Seq<(Seq<char>, JsonView)>) -> Result<
    ListMemory,
    Seq<char>,
> {
    let known = ["kind", "state", "scope", "limit", "offset"]@;
    match crate::mcp::tools::first_unknown(args, known) {
        Some(key) => Err("unknown argument: "@ + key),
        None => match crate::mcp::arguments::optional_name::<MemoryKind>(
            args,
            "kind"@,
            "fact/decision/convention/procedure/task/question/hypothesis"@,
        ) {
            Err(message) => Err(message),
            Ok(kind) => match crate::mcp::arguments::optional_name::<MemoryState>(
                args,
                "state"@,
                "active/resolved/retracted/confirmed/rejected/superseded"@,
            ) {
                Err(message) => Err(message),
                Ok(state) => match crate::mcp::arguments::optional_name::<ScopeKind>(
                    args,
                    "scope"@,
                    "global/repository/worktree"@,
                ) {
                    Err(message) => Err(message),
                    Ok(scope) => match crate::mcp::arguments::limit_in(
                        args,
                        DEFAULT_LIST_LIMIT,
                        MAX_LIST_LIMIT,
                    ) {
                        Err(message) => Err(message),
                        Ok(limit) => match crate::mcp::arguments::offset_in(args) {
                            Err(message) => Err(message),
                            Ok(offset) => Ok(ListMemory { kind, state, scope, limit, offset }),
                        },
                    },
                },
            },
        },
    }
}

/// Reads the arguments of `list_memory`.
pub fn parse_list_memory(args: &JsonMap) -> (r: Result<ListMemory, String>)
    ensures
        match r {
            Ok(listing) => list_memory_in(args@) == Ok::<ListMemory, Seq<char>>(listing),
            Err(message) => list_memory_in(args@) == Err::<ListMemory, Seq<char>>(message@),
        },
        r matches Ok(listing) ==> 1 <= listing.limit <= MAX_LIST_LIMIT && listing.offset >= 0,
{
    reject_unknown_keys(args, &["kind", "state", "scope", "limit", "offset"])?;
    let kind = optional_enum::<MemoryKind>(
        args,
        "kind",
        "fact/decision/convention/procedure/task/question/hypothesis",
    )?;
    let state = optional_enum::<MemoryState>(
        args,
        "state",
        "active/resolved/retracted/confirmed/rejected/superseded",
    )?;
    let scope = optional_enum::<ScopeKind>(args, "scope", "global/repository/worktree")?;
    let limit: i64 = optional_limit(args, DEFAULT_LIST_LIMIT, MAX_LIST_LIMIT)?;
    let offset: i64 = optional_offset(args)?;
    Ok(ListMemory { kind, state, scope, limit, offset })
}

/// The scopes that a listing reads: all of them, or those of the wanted kind.
pub open spec fn wanted_scopes(
    scopes: Seq<(ScopeKind, String)>,
    wanted: Option<ScopeKind>,
) -> Seq<(ScopeKind, String)> {
    match wanted {
        Some(kind) => scopes.filter(|scope: (ScopeKind, String)| scope.0 == kind),
        None => scopes,
    }
}

/// The scopes that a listing reads.
pub fn filter_scopes(scopes: Vec<(ScopeKind, String)>, wanted: Option<ScopeKind>) -> (r: Vec<
    (ScopeKind, String),
>)
    ensures
        r@ == wanted_scopes(scopes@, wanted),
{
    let kind = match wanted {
        Some(kind) => kind,
        None => {
            return scopes;
        },
    };
    let ghost all = scopes@;
    let ghost keep = |scope: (ScopeKind, String)| scope.0 == kind;
    let mut kept: Vec<(ScopeKind, String)> = Vec::new();
    proof {
        reveal(Seq::filter);
        assert(all.take(0).filter(keep) =~= Seq::empty());
    }
    for scope in it: scopes
        invariant
            it.seq() == all,
            keep == (|scope: (ScopeKind, String)| scope.0 == kind),
            kept@ == all.take(it.index() as int).filter(keep),
    {
        proof {
            reveal(Seq::filter);
            let next = all.take(it.index() as int + 1);
            assert(next.drop_last() =~= all.take(it.index() as int));
            assert(next.last() == scope);
        }
        if scope.0 == kind {
            kept.push(scope);
        }
    }
    proof {
        assert(all.take(all.len() as int) =~= all);
    }
    kept
}

/// A memory entry.
#[derive(Debug, PartialEq, Eq)]
pub struct MemoryEntry {
    pub memory_id: String,
    pub kind: MemoryKind,
    pub state: MemoryState,
    pub text: String,
    pub canonical_key: Option<String>,
    pub scope_kind: ScopeKind,
    pub scope_owner_id: String,
    pub confidence: Number,
    pub importance: Number,
    pub valid_from_tree: Option<String>,
    pub last_verified_tree: Option<String>,
    pub supersedes_id: Option<String>,
    pub entry_version: i64,
    pub created_at: i64,
    pub updated_at: i64,
}

impl Dated for MemoryEntry {
    open spec fn made(self) -> i64 {
        self.created_at
    }

    open spec fn id(self) -> Seq<char> {
        self.memory_id@
    }

    fn made_at(&self) -> (r: i64) {
        self.created_at
    }

    fn row_id(&self) -> (r: &str) {
        self.memory_id.as_str()
    }
}

/// A memory entry as a value.
pub open spec fn entry_value(e: MemoryEntry) -> JsonView {
    JsonView::Obj(
        crate::json::nothing().push(("memory_id"@, JsonView::Str(e.memory_id@))).push(
            ("kind"@, JsonView::Str(e.kind.name())),
        ).push(("state"@, JsonView::Str(e.state.name()))).push(
            ("text"@, JsonView::Str(e.text@)),
        ).push(("canonical_key"@, JsonView::opt_text(e.canonical_key.deep_view()))).push(
            ("scope_kind"@, JsonView::Str(e.scope_kind.name())),
        ).push(("scope_owner_id"@, JsonView::Str(e.scope_owner_id@))).push(
            ("confidence"@, JsonView::Num(e.confidence@)),
        ).push(("importance"@, JsonView::Num(e.importance@))).push(
            ("valid_from_tree"@, JsonView::opt_text(e.valid_from_tree.deep_view())),
        ).push(
            ("last_verified_tree"@, JsonView::opt_text(e.last_verified_tree.deep_view())),
        ).push(("supersedes_id"@, JsonView::opt_text(e.supersedes_id.deep_view()))).push(
            ("entry_version"@, JsonView::integer(e.entry_version as int)),
        ).push(("created_at"@, JsonView::integer(e.created_at as int))).push(
            ("updated_at"@, JsonView::integer(e.updated_at as int)),
        ),
    )
}

fn entry_json(e: &MemoryEntry) -> (r: Json)
    ensures
        r@ == entry_value(*e),
{
    JsonMap::new().with("memory_id", Json::string(e.memory_id.as_str())).with(
        "kind",
        Json::string(e.kind.as_str()),
    ).with("state", Json::string(e.state.as_str())).with(
        "text",
        Json::string(e.text.as_str()),
    ).with("canonical_key", Json::opt_string(&e.canonical_key)).with(
        "scope_kind",
        Json::string(e.scope_kind.as_str()),
    ).with("scope_owner_id", Json::string(e.scope_owner_id.as_str())).with(
        "confidence",
        Json::number(&e.confidence),
    ).with("importance", Json::number(&e.importance)).with(
        "valid_from_tree",
        Json::opt_string(&e.valid_from_tree),
    ).with("last_verified_tree", Json::opt_string(&e.last_verified_tree)).with(
        "supersedes_id",
        Json::opt_string(&e.supersedes_id),
    ).with("entry_version", Json::integer(e.entry_version)).with(
        "created_at",
        Json::integer(e.created_at),
    ).with("updated_at", Json::integer(e.updated_at)).json()
}

/// The page of `rows` that starts at `offset` and holds at most `limit` of them.
pub open spec fn page<T>(rows: Seq<T>, offset: int, limit: int) -> Seq<T> {
    if offset >= rows.len() {
        Seq::empty()
    } else if offset + limit >= rows.len() {
        rows.skip(offset)
    } else {
        rows.subrange(offset, offset + limit)
    }
}

/// What `list_memory` answers: one page of all the entries in order, and whether more
/// follow.
pub open spec fn list_memory_value(
    scope_label: Seq<char>,
    rows: Seq<MemoryEntry>,
    limit: i64,
    offset: i64,
) -> JsonView {
    let shown = page(crate::order::ordered(rows), offset as int, limit as int);
    JsonView::Obj(
        crate::json::nothing().push(("scope"@, JsonView::Str(scope_label))).push(
            (
                "entries"@,
                JsonView::Arr(Seq::new(shown.len(), |i: int| entry_value(shown[i]))),
            ),
        ).push(("has_more"@, JsonView::Bool(rows.len() > offset + limit))),
    )
}

/// What `list_memory` answers. `rows` are the entries of every scope that was read, in the
/// order in which they were read.
pub fn list_memory_result(
    scope_label: &str,
    rows: Vec<MemoryEntry>,
    limit: i64,
    offset: i64,
) -> (r: Json)
    requires
        limit >= 0,
        offset >= 0,
    ensures
        r@ == list_memory_value(scope_label@, rows@, limit, offset),
{
    let ghost given = rows@;
    let sorted = sort_rows(rows);
    proof {
        crate::order::law_ordering_rearranges(given);
    }
    let total: usize = sorted.len();
    let mut items: Vec<Json> = Vec::new();
    let ghost shown = page(sorted@, offset as int, limit as int);
    let has_more: bool;
    if offset as u64 >= total as u64 {
        has_more = false;
    } else {
        let start: usize = offset as usize;
        let rest: usize = total - start;
        has_more = rest as u64 > limit as u64;
        let count: usize = if has_more {
            limit as usize
        } else {
            rest
        };
        let mut i: usize = 0;
        while i < count
            invariant
                i <= count,
                start + count <= sorted.len(),
                shown.len() == count,
                items.len() == i,
                forall|j: int| 0 <= j < count ==> (#[trigger] shown[j]) == sorted@[start + j],
                forall|j: int| 0 <= j < i ==> (#[trigger] items@[j])@ == entry_value(shown[j]),
            decreases count - i,
        {
            proof {
                assert(shown[i as int] == sorted@[start + i]);
            }
            items.push(entry_json(&sorted[start + i]));
            i = i + 1;
        }
    }
    proof {
        assert(crate::json::values(items@) =~= Seq::new(
            shown.len(),
            |i: int| entry_value(shown[i]),
        ));
    }
    JsonMap::new().with("scope", Json::string(scope_label)).with(
        "entries",
        Json::array(items),
    ).with("has_more", Json::boolean(has_more)).json()
}

/// More follows exactly when the next page is not empty, and two pages in a row hold what
/// one page of both their sizes holds.
pub proof fn law_pages_follow_each_other<T>(rows: Seq<T>, offset: int, limit: int, next: int)
    requires
        offset >= 0,
        limit >= 0,
        next >= 0,
    ensures
        next > 0 ==> (rows.len() > offset + limit <==> page(rows, offset + limit, next).len() > 0),
        page(rows, offset, limit) + page(rows, offset + limit, next) == page(
            rows,
            offset,
            limit + next,
        ),
{
    assert(page(rows, offset, limit) + page(rows, offset + limit, next) =~= page(
        rows,
        offset,
        limit + next,
    ));
}

/// What `list_memory_candidates` is asked.
#[derive(Debug, Clone, Copy, PartialEq, Eq)]
pub struct ListCandidates {
    pub state: Option<CandidateState>,
    pub limit: i64,
    pub offset: i64,
}

/// The listing that arguments ask for, or what is wrong with them.
pub open spec fn list_candidates_in(args: Seq<(Seq<char>, JsonView)>) -> Result<
    ListCandidates,
    Seq<char>,
> {
    let known = ["state", "limit", "offset"]@;
    match crate::mcp::tools::first_unknown(args, known) {
        Some(key) => Err("unknown argument: "@ + key),
        None => match crate::mcp::arguments::optional_name::<CandidateState>(
            args,
            "state"@,
            "pending/approved/rejected/expired"@,
        ) {
            Err(message) => Err(message),
            Ok(state) => match crate::mcp::arguments::limit_in(
                args,
                DEFAULT_LIST_LIMIT,
                MAX_LIST_LIMIT,
            ) {
                Err(message) => Err(message),
                Ok(limit) => match crate::mcp::arguments::offset_in(args) {
                    Err(message) => Err(message),
                    Ok(offset) => Ok(ListCandidates { state, limit, offset }),
                },
            },
        },
    }
}

/// Reads the arguments of `list_memory_candidates`.
pub fn parse_list_candidates(args: &JsonMap) -> (r: Result<ListCandidates, String>)
    ensures
        match r {
            Ok(listing) => list_candidates_in(args@) == Ok::<ListCandidates, Seq<char>>(listing),
            Err(message) => list_candidates_in(args@) == Err::<ListCandidates, Seq<char>>(
                message@,
            ),
        },
        r matches Ok(listing) ==> 1 <= listing.limit <= MAX_LIST_LIMIT && listing.offset >= 0,
{
    reject_unknown_keys(args, &["state", "limit", "offset"])?;
    let state = optional_enum::<CandidateState>(
        args,
        "state",
        "pending/approved/rejected/expired",
    )?;
    let limit: i64 = optional_limit(args, DEFAULT_LIST_LIMIT, MAX_LIST_LIMIT)?;
    let offset: i64 = optional_offset(args)?;
    Ok(ListCandidates { state, limit, offset })
}

/// How many rows the store is asked for where `limit` of them are shown.
pub open spec fn rows_asked(limit: i64) -> int {
    limit + 1
}

impl ListCandidates {
    /// How many rows to ask the store for: one more than is shown, so that it shows
    /// whether more follow.
    pub fn fetch_limit(&self) -> (r: i64)
        requires
            self.limit < i64::MAX,
        ensures
            r == rows_asked(self.limit),
    {
        self.limit + 1
    }
}

/// A text that should hold a list of strings, as serde_json reads it: the strings, or
/// what it says of the text.
pub uninterp spec fn parsed_strings(text: Seq<char>) -> Result<Seq<Seq<char>>, Seq<char>>;

/// `serde_json::from_str` into a `Vec<String>`. The strings, or the error's own text, depend
/// on the text alone; which texts are such lists is not stated.
#[verifier::external_body]
fn parse_strings(text: &str) -> (r: Result<Vec<String>, String>)
    ensures
        match r {
            Ok(strings) => parsed_strings(text@) == Ok::<Seq<Seq<char>>, Seq<char>>(
                strings.deep_view(),
            ),
            Err(message) => parsed_strings(text@) == Err::<Seq<Seq<char>>, Seq<char>>(message@),
        },
{
    serde_json::from_str(text).map_err(|e| e.to_string())
}

/// A row of the candidate listing. The proposed operation was read by whoever knows its
/// shape; the conflicts are still text.
#[derive(Debug, PartialEq, Eq)]
pub struct CandidateRow {
    pub candidate_id: String,
    pub proposed_operation: Result<Json, String>,
    pub conflicts: Option<String>,
    pub review_state: CandidateState,
    pub created_at: i64,
}

/// The conflicts of a candidate.
pub open spec fn conflicts_of(text: Option<Seq<char>>) -> Result<Seq<Seq<char>>, Seq<char>> {
    match text {
        None => Ok(Seq::empty()),
        Some(t) => parsed_strings(t),
    }
}

/// Strings as values.
pub open spec fn text_values(items: Seq<Seq<char>>) -> Seq<JsonView> {
    Seq::new(items.len(), |i: int| JsonView::Str(items[i]))
}

/// A candidate as a value, or what is corrupt about its row.
pub open spec fn candidate_value(row: CandidateRow) -> Result<JsonView, Seq<char>> {
    match row.proposed_operation {
        Err(e) => Err(
            "corrupt proposed_operation for candidate "@ + row.candidate_id@ + ": "@ + e@,
        ),
        Ok(operation) => match conflicts_of(row.conflicts.deep_view()) {
            Err(e) => Err("corrupt conflicts for candidate "@ + row.candidate_id@ + ": "@ + e),
            Ok(conflicts) => Ok(
                JsonView::Obj(
                    crate::json::nothing().push(
                        ("candidate_id"@, JsonView::Str(row.candidate_id@)),
                    ).push(("proposed_operation"@, operation@)).push(
                        ("conflicts"@, JsonView::Arr(text_values(conflicts))),
                    ).push(("review_state"@, JsonView::Str(row.review_state.name()))).push(
                        ("created_at"@, JsonView::integer(row.created_at as int)),
                    ),
                ),
            ),
        },
    }
}

fn candidate_json(row: &CandidateRow) -> (r: Result<Json, String>)
    ensures
        match r {
            Ok(v) => candidate_value(*row) == Ok::<JsonView, Seq<char>>(v@),
            Err(e) => candidate_value(*row) == Err::<JsonView, Seq<char>>(e@),
        },
{
    let operation = match &row.proposed_operation {
        Ok(operation) => operation.clone(),
        Err(e) => {
            return Err(
                concat4(
                    "corrupt proposed_operation for candidate ",
                    row.candidate_id.as_str(),
                    ": ",
                    e.as_str(),
                ),
            );
        },
    };
    let conflicts: Vec<String> = match &row.conflicts {
        None => {
            let none: Vec<String> = Vec::new();
            proof {
                assert(none.deep_view() =~= Seq::empty());
            }
            none
        },
        Some(raw) => match parse_strings(raw.as_str()) {
            Ok(strings) => strings,
            Err(e) => {
                return Err(
                    concat4(
                        "corrupt conflicts for candidate ",
                        row.candidate_id.as_str(),
                        ": ",
                        e.as_str(),
                    ),
                );
            },
        },
    };
    proof {
        assert(crate::json::string_values(conflicts@) =~= text_values(conflicts.deep_view()));
    }
    Ok(
        JsonMap::new().with("candidate_id", Json::string(row.candidate_id.as_str())).with(
            "proposed_operation",
            operation,
        ).with("conflicts", Json::strings(&conflicts)).with(
            "review_state",
            Json::string(row.review_state.as_str()),
        ).with("created_at", Json::integer(row.created_at)).json(),
    )
}

/// The first `count` rows as values, or what is corrupt about the first row that is.
pub open spec fn candidates_value(rows: Seq<CandidateRow>, count: nat) -> Result<
    Seq<JsonView>,
    Seq<char>,
>
    decreases count,
{
    if count == 0 {
        Ok(Seq::empty())
    } else {
        match candidates_value(rows, (count - 1) as nat) {
            Err(e) => Err(e),
            Ok(done) => match candidate_value(rows[count - 1]) {
                Err(e) => Err(e),
                Ok(v) => Ok(done.push(v)),
            },
        }
    }
}

/// What `list_memory_candidates` answers. One row too many says that more follow; a corrupt
/// row is a store that cannot serve the request.
pub open spec fn list_candidates_reply(rows: Seq<CandidateRow>, limit: i64) -> ToolReply<
    Seq<char>,
    JsonView,
> {
    let count = if rows.len() > limit {
        limit as nat
    } else {
        rows.len()
    };
    match candidates_value(rows, count) {
        Err(e) => crate::mcp::reply::unreadable(e),
        Ok(candidates) => ToolReply::Success(
            JsonView::Obj(
                crate::json::nothing().push(("candidates"@, JsonView::Arr(candidates))).push(
                    ("has_more"@, JsonView::Bool(rows.len() > limit)),
                ),
            ),
        ),
    }
}

/// Once a row is corrupt, everything up to any later row is.
proof fn lemma_corrupt_stays(rows: Seq<CandidateRow>, from: nat, to: nat)
    requires
        from <= to,
        candidates_value(rows, from) is Err,
    ensures
        candidates_value(rows, to) == candidates_value(rows, from),
    decreases to,
{
    if from < to {
        lemma_corrupt_stays(rows, from, (to - 1) as nat);
    }
}

/// What `list_memory_candidates` answers.
pub fn list_candidates_result(rows: &Vec<CandidateRow>, limit: i64) -> (r: ToolReply)
    requires
        limit >= 0,
    ensures
        r@ == list_candidates_reply(rows@, limit),
{
    let has_more: bool = rows.len() as u64 > limit as u64;
    let count: usize = if has_more {
        limit as usize
    } else {
        rows.len()
    };
    let mut list = JsonList::new();
    let mut i: usize = 0;
    while i < count
        invariant
            i <= count <= rows.len(),
            candidates_value(rows@, i as nat) == Ok::<Seq<JsonView>, Seq<char>>(list@),
            limit >= 0,
            has_more == (rows.len() > limit),
            count == if rows.len() > limit {
                limit as int
            } else {
                rows.len() as int
            },
        decreases count - i,
    {
        match candidate_json(&rows[i]) {
            Ok(v) => {
                list = list.with(v);
            },
            Err(e) => {
                proof {
                    lemma_corrupt_stays(rows@, (i + 1) as nat, count as nat);
                }
                return infra_err(e.as_str());
            },
        }
        i = i + 1;
    }
    ToolReply::Success(
        JsonMap::new().with("candidates", list.json()).with(
            "has_more",
            Json::boolean(has_more),
        ).json(),
    )
}

/// The entry that the arguments of `inspect_memory_evidence` name, or what is wrong with
/// them.
pub open spec fn inspect_in(args: Seq<(Seq<char>, JsonView)>) -> Result<Seq<char>, Seq<char>> {
    let known = ["memory_id"]@;
    match crate::mcp::tools::first_unknown(args, known) {
        Some(key) => Err("unknown argument: "@ + key),
        None => crate::mcp::tools::required_string(args, "memory_id"@),
    }
}

/// Reads the arguments of `inspect_memory_evidence`.
pub fn parse_inspect_memory_evidence(args: &JsonMap) -> (r: Result<String, String>)
    ensures
        match r {
            Ok(id) => inspect_in(args@) == Ok::<Seq<char>, Seq<char>>(id@),
            Err(message) => inspect_in(args@) == Err::<Seq<char>, Seq<char>>(message@),
        },
{
    reject_unknown_keys(args, &["memory_id"])?;
    require_string(args, "memory_id")
}

/// What `inspect_memory_evidence` answers. An entry without evidence, or one that nobody
/// knows, has an empty list.
pub open spec fn inspect_reply(
    memory_id: Seq<char>,
    observations: Result<Vec<String>, String>,
) -> ToolReply<Seq<char>, JsonView> {
    match observations {
        Err(e) => crate::mcp::reply::unreadable(e@),
        Ok(ids) => ToolReply::Success(
            JsonView::Obj(
                crate::json::nothing().push(("memory_id"@, JsonView::Str(memory_id))).push(
                    ("observation_ids"@, JsonView::Arr(crate::json::string_values(ids@))),
                ),
            ),
        ),
    }
}

/// What `inspect_memory_evidence` answers.
pub fn inspect_result(memory_id: &str, observations: Result<Vec<String>, String>) -> (r: ToolReply)
    ensures
        r@ == inspect_reply(memory_id@, observations),
{
    match observations {
        Err(e) => infra_err(e.as_str()),
        Ok(ids) => ToolReply::Success(
            JsonMap::new().with("memory_id", Json::string(memory_id)).with(
                "observation_ids",
                Json::strings(&ids),
            ).json(),
        ),
    }
}

/// What `health` answers.
pub open spec fn health_reply(
    mode: DaemonMode<Seq<char>>,
    version: Seq<char>,
    store_instance_uuid: Result<Option<String>, String>,
) -> ToolReply<Seq<char>, JsonView> {
    match store_instance_uuid {
        Err(e) => crate::mcp::reply::unreadable(e@),
        Ok(uuid) => ToolReply::Success(
            JsonView::Obj(
                crate::json::nothing().push(
                    ("daemon_mode"@, JsonView::Str(crate::mode::mode_name(mode))),
                ).push(("daemon_version"@, JsonView::Str(version))).push(
                    ("store_instance_uuid"@, JsonView::opt_text(uuid.deep_view())),
                ),
            ),
        ),
    }
}

/// What `health` answers.
pub fn health_result(
    mode: &DaemonMode,
    version: &str,
    store_instance_uuid: Result<Option<String>, String>,
) -> (r: ToolReply)
    ensures
        r@ == health_reply(mode@, version@, store_instance_uuid),
{
    match store_instance_uuid {
        Err(e) => infra_err(e.as_str()),
        Ok(uuid) => ToolReply::Success(
            JsonMap::new().with("daemon_mode", Json::string(mode.as_str())).with(
                "daemon_version",
                Json::string(version),
            ).with("store_instance_uuid", Json::opt_string(&uuid)).json(),
        ),
    }
}

/// A recall asks for what its arguments say: left out, the query is empty and the limit ten.
pub proof fn law_a_recall_is_what_its_arguments_say(
    args: Seq<(Seq<char>, JsonView)>,
    recall: Recall<Seq<char>>,
)
    requires
        recall_in(args) == Ok::<Recall<Seq<char>>, Seq<char>>(recall),
    ensures
        crate::json::lookup(args, "query"@) is None ==> recall.query.len() == 0,
        crate::json::lookup(args, "query"@) matches Some(v) ==> v == JsonView::Str(recall.query),
        crate::json::lookup(args, "limit"@) is None ==> recall.limit == 10,
        crate::json::lookup(args, "limit"@) matches Some(v) ==> v == JsonView::integer(
            recall.limit as int,
        ),
        1 <= recall.limit <= 50,
{
}

/// A recall is refused only for an argument that is not one of its two, or is not what it may be.
pub proof fn law_a_good_recall_is_granted(args: Seq<(Seq<char>, JsonView)>)
    requires
        forall|i: int|
            0 <= i < args.len() ==> ((#[trigger] args[i]).0 == "query"@ || args[i].0 == "limit"@),
        crate::json::lookup(args, "query"@) matches Some(v) ==> v is Str,
        crate::json::lookup(args, "limit"@) matches Some(v) ==> (v matches JsonView::Num(
            NumberView::Int(i),
        ) && 1 <= i <= 50),
    ensures
        recall_in(args) is Ok,
{
    let known = ["query", "limit"]@;
    crate::mcp::tools::law_no_unknown_argument(args, known);
    assert forall|i: int| 0 <= i < args.len() implies crate::mcp::tools::is_known(
        known,
        (#[trigger] args[i]).0,
    ) by {
        assert(known[0]@ == "query"@ && known[1]@ == "limit"@);
    }
}

/// A listing of memory asks for what its arguments say. A filter that is left out keeps
/// everything, the limit is then twenty, and the offset zero.
pub proof fn law_a_memory_listing_is_what_its_arguments_say(
    args: Seq<(Seq<char>, JsonView)>,
    listing: ListMemory,
)
    requires
        list_memory_in(args) == Ok::<ListMemory, Seq<char>>(listing),
    ensures
        crate::json::lookup(args, "kind"@) is None <==> listing.kind is None,
        crate::json::lookup(args, "kind"@) matches Some(v) ==> v == JsonView::Str(
            listing.kind->Some_0.name(),
        ),
        crate::json::lookup(args, "state"@) is None <==> listing.state is None,
        crate::json::lookup(args, "state"@) matches Some(v) ==> v == JsonView::Str(
            listing.state->Some_0.name(),
        ),
        crate::json::lookup(args, "scope"@) is None <==> listing.scope is None,
        crate::json::lookup(args, "scope"@) matches Some(v) ==> v == JsonView::Str(
            listing.scope->Some_0.name(),
        ),
        crate::json::lookup(args, "limit"@) is None ==> listing.limit == 20,
        crate::json::lookup(args, "limit"@) matches Some(v) ==> v == JsonView::integer(
            listing.limit as int,
        ),
        1 <= listing.limit <= 100,
        crate::json::lookup(args, "offset"@) is None ==> listing.offset == 0,
        crate::json::lookup(args, "offset"@) matches Some(v) ==> v == JsonView::integer(
            listing.offset as int,
        ),
        listing.offset >= 0,
{
    if let Some(JsonView::Str(s)) = crate::json::lookup(args, "kind"@) {
        crate::vocabulary::law_memory_kind_names(listing.kind->Some_0, s);
    }
    if let Some(JsonView::Str(s)) = crate::json::lookup(args, "state"@) {
        crate::vocabulary::law_memory_state_names(listing.state->Some_0, s);
    }
    if let Some(JsonView::Str(s)) = crate::json::lookup(args, "scope"@) {
        crate::vocabulary::law_scope_kind_names(listing.scope->Some_0, s);
    }
}

/// A listing of candidates asks for what its arguments say.
pub proof fn law_a_candidate_listing_is_what_its_arguments_say(
    args: Seq<(Seq<char>, JsonView)>,
    listing: ListCandidates,
)
    requires
        list_candidates_in(args) == Ok::<ListCandidates, Seq<char>>(listing),
    ensures
        crate::json::lookup(args, "state"@) is None <==> listing.state is None,
        crate::json::lookup(args, "state"@) matches Some(v) ==> v == JsonView::Str(
            listing.state->Some_0.name(),
        ),
        crate::json::lookup(args, "limit"@) is None ==> listing.limit == 20,
        crate::json::lookup(args, "limit"@) matches Some(v) ==> v == JsonView::integer(
            listing.limit as int,
        ),
        1 <= listing.limit <= 100,
        crate::json::lookup(args, "offset"@) is None ==> listing.offset == 0,
        crate::json::lookup(args, "offset"@) matches Some(v) ==> v == JsonView::integer(
            listing.offset as int,
        ),
        listing.offset >= 0,
{
    if let Some(JsonView::Str(s)) = crate::json::lookup(args, "state"@) {
        crate::vocabulary::law_candidate_state_names(listing.state->Some_0, s);
    }
}

/// Evidence is asked for by the id of an entry, as it stands and not empty.
pub proof fn law_evidence_is_asked_for_by_id(args: Seq<(Seq<char>, JsonView)>, id: Seq<char>)
    ensures
        inspect_in(args) == Ok::<Seq<char>, Seq<char>>(id) ==> crate::json::lookup(
            args,
            "memory_id"@,
        ) == Some(JsonView::Str(id)) && id.len() > 0,
        args == seq![("memory_id"@, JsonView::Str(id))] && id.len() > 0 ==> inspect_in(args)
            == Ok::<Seq<char>, Seq<char>>(id),
{
    if args == seq![("memory_id"@, JsonView::Str(id))] {
        let known = ["memory_id"]@;
        assert(known[0]@ == "memory_id"@);
        assert(crate::mcp::tools::is_known(known, args[0].0));
        crate::mcp::tools::law_no_unknown_argument(args, known);
    }
}

/// A listing reads the scopes of the wanted kind and no others, and all of them where none is
/// wanted.
pub proof fn law_only_wanted_scopes_are_read(
    scopes: Seq<(ScopeKind, String)>,
    wanted: ScopeKind,
    scope: (ScopeKind, String),
)
    ensures
        wanted_scopes(scopes, None) == scopes,
        wanted_scopes(scopes, Some(wanted)).contains(scope) <==> scopes.contains(scope) && scope.0
            == wanted,
{
    let keep = |scope: (ScopeKind, String)| scope.0 == wanted;
    let kept = scopes.filter(keep);
    if scopes.contains(scope) && scope.0 == wanted {
        let i = choose|i: int| 0 <= i < scopes.len() && scopes[i] == scope;
        scopes.lemma_filter_contains(keep, i);
    }
    if kept.contains(scope) {
        let i = choose|i: int| 0 <= i < kept.len() && kept[i] == scope;
        scopes.lemma_filter_pred(keep, i);
        scopes.lemma_filter_contains_rev(keep, scope);
    }
}

/// A page starts at its offset and holds the rows from there on, up to its limit, each in its
/// place.
pub proof fn law_a_page_is_a_window<T>(rows: Seq<T>, offset: int, limit: int, i: int)
    requires
        offset >= 0,
        limit >= 0,
    ensures
        page(rows, offset, limit).len() <= limit,
        offset + limit <= rows.len() ==> page(rows, offset, limit).len() == limit,
        offset <= rows.len() <= offset + limit ==> page(rows, offset, limit).len() == rows.len()
            - offset,
        offset >= rows.len() ==> page(rows, offset, limit).len() == 0,
        0 <= i < page(rows, offset, limit).len() ==> page(rows, offset, limit)[i] == rows[offset
            + i],
{
}

/// What `list_memory` answers is a page of the entries in order, and whether more follow it.
pub proof fn law_a_memory_listing_is_a_page(
    scope_label: Seq<char>,
    rows: Seq<MemoryEntry>,
    limit: i64,
    offset: i64,
)
    ensures
        ({
            let value = list_memory_value(scope_label, rows, limit, offset);
            let shown = page(crate::order::ordered(rows), offset as int, limit as int);
            let entries = (value->Obj_0)[1].1->Arr_0;
            &&& crate::json::has_member(value, "scope"@, JsonView::Str(scope_label))
            &&& crate::json::has_member(value, "entries"@, JsonView::Arr(entries))
            &&& entries.len() == shown.len()
            &&& forall|i: int|
                0 <= i < shown.len() ==> #[trigger] entries[i] == entry_value(shown[i])
            &&& crate::json::has_member(
                value,
                "has_more"@,
                JsonView::Bool(rows.len() > offset + limit),
            )
            &&& (value->Obj_0).len() == 3
        }),
{
    let o = list_memory_value(scope_label, rows, limit, offset)->Obj_0;
    crate::json::lemma_member(o, 0);
    crate::json::lemma_member(o, 1);
    crate::json::lemma_member(o, 2);
}

/// The label of a missing vector leg says which way it is missing.
pub proof fn law_a_missing_leg_says_why(reason: String, expected: u64, got: u64)
    ensures
        degraded_label(DenseLegUnavailable::NoRepresentation) == "no_representation"@,
        degraded_label(DenseLegUnavailable::EmbedFailed { reason }) == "embed_failed: "@ + reason@,
        degraded_label(DenseLegUnavailable::DimensionMismatch { expected, got })
            == "dimension_mismatch: expected "@ + crate::text::decimal(expected as int) + " got "@
            + crate::text::decimal(got as int),
{
}

/// What `recall` answers: the first entries, as many as were asked for, and what was found
/// besides, untouched by the limit.
pub proof fn law_a_recall_is_answered_in_full(outcome: RecallOutcome, limit: usize)
    ensures
        ({
            let value = recall_value(outcome, limit);
            let entries = (value->Obj_0)[2].1->Arr_0;
            &&& crate::json::has_member(value, "scope"@, JsonView::Str(outcome.scope_label@))
            &&& crate::json::has_member(
                value,
                "additional_context"@,
                JsonView::Str(outcome.additional_context@),
            )
            &&& crate::json::has_member(value, "entries"@, JsonView::Arr(entries))
            &&& entries.len() <= limit
            &&& entries.len() == limit || entries.len() == outcome.entries@.len()
            &&& entries.len() <= outcome.entries@.len()
            &&& forall|i: int|
                0 <= i < entries.len() ==> #[trigger] entries[i] == recall_entry_value(
                    outcome.entries@[i],
                )
            &&& crate::json::has_member(
                value,
                "candidate_count"@,
                JsonView::integer(outcome.candidate_count as int),
            )
            &&& crate::json::has_member(value, "truncated"@, JsonView::Bool(outcome.truncated))
            &&& outcome.dense_degraded is None ==> crate::json::has_member(
                value,
                "dense_degraded"@,
                JsonView::Null,
            )
            &&& outcome.dense_degraded matches Some(d) ==> crate::json::has_member(
                value,
                "dense_degraded"@,
                JsonView::Str(degraded_label(d)),
            )
            &&& (value->Obj_0).len() == 6
        }),
{
    let o = recall_value(outcome, limit)->Obj_0;
    crate::json::lemma_member(o, 0);
    crate::json::lemma_member(o, 1);
    crate::json::lemma_member(o, 2);
    crate::json::lemma_member(o, 3);
    crate::json::lemma_member(o, 4);
    crate::json::lemma_member(o, 5);
}

/// A recalled entry is shown by its id, its kind, its state, its confidence and its text.
pub proof fn law_a_recalled_entry_is_shown_whole(e: RecallEntry)
    ensures
        ({
            let value = recall_entry_value(e);
            &&& crate::json::has_member(value, "memory_id"@, JsonView::Str(e.memory_id@))
            &&& crate::json::has_member(value, "kind"@, JsonView::Str(e.kind.name()))
            &&& crate::json::has_member(value, "state"@, JsonView::Str(e.state.name()))
            &&& crate::json::has_member(value, "confidence"@, JsonView::Num(e.confidence@))
            &&& crate::json::has_member(value, "text"@, JsonView::Str(e.text@))
            &&& (value->Obj_0).len() == 5
        }),
{
    let o = recall_entry_value(e)->Obj_0;
    crate::json::lemma_member(o, 0);
    crate::json::lemma_member(o, 1);
    crate::json::lemma_member(o, 2);
    crate::json::lemma_member(o, 3);
    crate::json::lemma_member(o, 4);
}

/// A memory entry is shown with every field it has, under that field's name.
pub proof fn law_a_memory_entry_is_shown_whole(e: MemoryEntry)
    ensures
        ({
            let value = entry_value(e);
            &&& crate::json::has_member(value, "memory_id"@, JsonView::Str(e.memory_id@))
            &&& crate::json::has_member(value, "kind"@, JsonView::Str(e.kind.name()))
            &&& crate::json::has_member(value, "state"@, JsonView::Str(e.state.name()))
            &&& crate::json::has_member(value, "text"@, JsonView::Str(e.text@))
            &&& crate::json::has_member(value, "canonical_key"@, JsonView::opt_text(e.canonical_key.deep_view()))
            &&& crate::json::has_member(value, "scope_kind"@, JsonView::Str(e.scope_kind.name()))
            &&& crate::json::has_member(value, "scope_owner_id"@, JsonView::Str(e.scope_owner_id@))
            &&& crate::json::has_member(value, "confidence"@, JsonView::Num(e.confidence@))
            &&& crate::json::has_member(value, "importance"@, JsonView::Num(e.importance@))
            &&& crate::json::has_member(value, "valid_from_tree"@, JsonView::opt_text(e.valid_from_tree.deep_view()))
            &&& crate::json::has_member(value, "last_verified_tree"@, JsonView::opt_text(e.last_verified_tree.deep_view()))
            &&& crate::json::has_member(value, "supersedes_id"@, JsonView::opt_text(e.supersedes_id.deep_view()))
            &&& crate::json::has_member(value, "entry_version"@, JsonView::integer(e.entry_version as int))
            &&& crate::json::has_member(value, "created_at"@, JsonView::integer(e.created_at as int))
            &&& crate::json::has_member(value, "updated_at"@, JsonView::integer(e.updated_at as int))
            &&& (value->Obj_0).len() == 15
        }),
{
    let o = entry_value(e)->Obj_0;
    crate::json::lemma_member(o, 0);
    crate::json::lemma_member(o, 1);
    crate::json::lemma_member(o, 2);
    crate::json::lemma_member(o, 3);
    crate::json::lemma_member(o, 4);
    crate::json::lemma_member(o, 5);
    crate::json::lemma_member(o, 6);
    crate::json::lemma_member(o, 7);
    crate::json::lemma_member(o, 8);
    crate::json::lemma_member(o, 9);
    crate::json::lemma_member(o, 10);
    crate::json::lemma_member(o, 11);
    crate::json::lemma_member(o, 12);
    crate::json::lemma_member(o, 13);
    crate::json::lemma_member(o, 14);
}

/// A candidate is shown by its id, what it proposes, what it conflicts with, its review and its
/// time. One whose operation or conflicts cannot be read is not shown, and the fault names it.
pub proof fn law_a_candidate_is_shown_whole(row: CandidateRow)
    ensures
        row.proposed_operation is Err ==> candidate_value(row) is Err,
        row.conflicts matches Some(text) ==> (parsed_strings(text@) is Err ==> candidate_value(
            row,
        ) is Err),
        row.proposed_operation is Ok && (row.conflicts matches Some(text) ==> parsed_strings(
            text@,
        ) is Ok) ==> (candidate_value(row) matches Ok(value) && {
            &&& crate::json::has_member(
                value,
                "candidate_id"@,
                JsonView::Str(row.candidate_id@),
            )
            &&& crate::json::has_member(
                value,
                "proposed_operation"@,
                row.proposed_operation->Ok_0@,
            )
            &&& row.conflicts is None ==> crate::json::has_member(
                value,
                "conflicts"@,
                JsonView::Arr(Seq::empty()),
            )
            &&& row.conflicts matches Some(text) ==> crate::json::has_member(
                value,
                "conflicts"@,
                JsonView::Arr(text_values(parsed_strings(text@)->Ok_0)),
            )
            &&& crate::json::has_member(
                value,
                "review_state"@,
                JsonView::Str(row.review_state.name()),
            )
            &&& crate::json::has_member(
                value,
                "created_at"@,
                JsonView::integer(row.created_at as int),
            )
            &&& (value->Obj_0).len() == 5
        }),
{
    if candidate_value(row) is Ok {
        let o = candidate_value(row)->Ok_0->Obj_0;
        assert(text_values(Seq::empty()) =~= Seq::empty());
        crate::json::lemma_member(o, 0);
        crate::json::lemma_member(o, 1);
        crate::json::lemma_member(o, 2);
        crate::json::lemma_member(o, 3);
        crate::json::lemma_member(o, 4);
    }
}

proof fn lemma_candidates_shown(rows: Seq<CandidateRow>, count: nat, i: int)
    requires
        0 <= i < count <= rows.len(),
        candidates_value(rows, count) is Ok,
    ensures
        candidates_value(rows, count)->Ok_0.len() == count,
        candidate_value(rows[i]) == Ok::<JsonView, Seq<char>>(
            candidates_value(rows, count)->Ok_0[i],
        ),
    decreases count,
{
    if count > 1 {
        if i < count - 1 {
            lemma_candidates_shown(rows, (count - 1) as nat, i);
        } else {
            lemma_candidates_shown(rows, (count - 1) as nat, 0);
        }
    } else {
        assert(candidates_value(rows, 0) == Ok::<Seq<JsonView>, Seq<char>>(Seq::empty()));
    }
}

/// Candidates are shown up to the limit, each in its place; one row more says that more follow.
/// A row that cannot be read keeps all of them from being shown.
pub proof fn law_candidates_are_shown_in_their_places(
    rows: Seq<CandidateRow>,
    limit: i64,
    i: int,
)
    requires
        limit >= 0,
        0 <= i < rows.len(),
        i < limit,
    ensures
        ({
            let reply = list_candidates_reply(rows, limit);
            &&& candidate_value(rows[i]) is Err ==> reply is Failed
            &&& reply matches ToolReply::Success(value) ==> {
                let shown = (value->Obj_0)[0].1->Arr_0;
                &&& crate::json::has_member(value, "candidates"@, JsonView::Arr(shown))
                &&& shown.len() == limit || shown.len() == rows.len()
                &&& shown.len() <= limit && shown.len() <= rows.len()
                &&& candidate_value(rows[i]) == Ok::<JsonView, Seq<char>>(shown[i])
                &&& crate::json::has_member(
                    value,
                    "has_more"@,
                    JsonView::Bool(rows.len() > limit),
                )
            }
        }),
{
    let count: nat = if rows.len() > limit {
        limit as nat
    } else {
        rows.len()
    };
    let all = candidates_value(rows, count);
    if all is Ok {
        lemma_candidates_shown(rows, count, i);
        let o = (list_candidates_reply(rows, limit)->Success_0)->Obj_0;
        crate::json::lemma_member(o, 0);
        crate::json::lemma_member(o, 1);
    }
}

/// Evidence is answered under the entry's id, and a store that cannot serve it says why.
pub proof fn law_evidence_is_answered_under_its_entry(
    memory_id: Seq<char>,
    ids: Vec<String>,
    e: String,
)
    ensures
        inspect_reply(memory_id, Err(e)) matches ToolReply::Failed(failure) && (
        failure matches crate::failure::Failure::IndexUnavailable { details } && details == e@),
        inspect_reply(memory_id, Ok(ids)) matches ToolReply::Success(value)
            && crate::json::has_member(value, "memory_id"@, JsonView::Str(memory_id))
            && crate::json::has_member(
            value,
            "observation_ids"@,
            JsonView::Arr(crate::json::string_values(ids@)),
        ),
{
    let o = (inspect_reply(memory_id, Ok(ids))->Success_0)->Obj_0;
    crate::json::lemma_member(o, 0);
    crate::json::lemma_member(o, 1);
}

/// Health says how the daemon runs, its version and the identity of its store, or null where it
/// has none. A store that cannot be asked says why.
pub proof fn law_health_says_how_the_daemon_runs(
    mode: DaemonMode<Seq<char>>,
    version: Seq<char>,
    uuid: Option<String>,
    e: String,
)
    ensures
        health_reply(mode, version, Err(e)) matches ToolReply::Failed(failure) && (
        failure matches crate::failure::Failure::IndexUnavailable { details } && details == e@),
        health_reply(mode, version, Ok(uuid)) matches ToolReply::Success(value) && {
            &&& mode is Normal ==> crate::json::has_member(
                value,
                "daemon_mode"@,
                JsonView::Str("normal"@),
            )
            &&& mode is MigrationOnly ==> crate::json::has_member(
                value,
                "daemon_mode"@,
                JsonView::Str("migration_only"@),
            )
            &&& crate::json::has_member(value, "daemon_version"@, JsonView::Str(version))
            &&& uuid is None ==> crate::json::has_member(
                value,
                "store_instance_uuid"@,
                JsonView::Null,
            )
            &&& uuid matches Some(id) ==> crate::json::has_member(
                value,
                "store_instance_uuid"@,
                JsonView::Str(id@),
            )
            &&& (value->Obj_0).len() == 3
        },
{
    let o = (health_reply(mode, version, Ok(uuid))->Success_0)->Obj_0;
    crate::json::lemma_member(o, 0);
    crate::json::lemma_member(o, 1);
    crate::json::lemma_member(o, 2);
}

/// The store is asked for one row more than is shown, which tells whether more follow.
pub proof fn law_one_row_more_is_asked_for(limit: i64)
    ensures
        rows_asked(limit) - limit == 1,
{
}

/// What is recalled is shown in its order, each entry in its place, up to the limit.
pub proof fn law_recalled_entries_come_in_their_order(
    entries: Seq<RecallEntry>,
    limit: nat,
    i: int,
)
    ensures
        recall_entries_value(entries, limit) matches JsonView::Arr(items) && {
            &&& items.len() <= limit
            &&& items.len() == limit || items.len() == entries.len()
            &&& items.len() <= entries.len()
            &&& 0 <= i < items.len() ==> items[i] == recall_entry_value(entries[i])
        },
{
}

/// Candidates are shown in their order, each in its place; one that is corrupt is told instead of
/// all.
pub proof fn law_candidates_come_in_their_order(rows: Seq<CandidateRow>, count: nat, i: int)
    requires
        0 <= i < count <= rows.len(),
    ensures
        candidate_value(rows[i]) is Err ==> candidates_value(rows, count) is Err,
        candidates_value(rows, count) matches Ok(items) ==> items.len() == count
            && candidate_value(rows[i]) == Ok::<JsonView, Seq<char>>(items[i]),
    decreases count,
{
    if count > 1 {
        if i < count - 1 {
            law_candidates_come_in_their_order(rows, (count - 1) as nat, i);
        } else {
            law_candidates_come_in_their_order(rows, (count - 1) as nat, 0);
        }
    } else {
        assert(candidates_value(rows, 0) == Ok::<Seq<JsonView>, Seq<char>>(Seq::empty()));
    }
}

} // verus!
