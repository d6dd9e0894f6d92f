//! The tool catalog: what `tools/list` answers.
//!
//! Every tool is one row: its name, what it is for, what kind of effect it has, and the
//! schema of its arguments. The row becomes a JSON object; its members, like those of every
//! object here, are written in the order of their keys.

use vstd::prelude::*;

use crate::json::{Json, JsonList, JsonMap, JsonView};
use crate::mcp::tools::{
    DEFAULT_LIST_LIMIT, DEFAULT_RECALL_LIMIT, DEFAULT_SEARCH_LIMIT, MAX_LIST_LIMIT,
    MAX_RECALL_LIMIT, MAX_SEARCH_LIMIT,
};

verus! {

/// One tool of the catalog.
pub struct Tool<S = &'static str, J = Json> {
    pub name: S,
    pub description: S,
    pub title: S,
    pub read_only: bool,
    pub destructive: bool,
    pub idempotent: bool,
    pub schema: J,
}

impl View for Tool<&'static str, Json> {
    type V = Tool<Seq<char>, JsonView>;

    open spec fn view(&self) -> Tool<Seq<char>, JsonView> {
        Tool {
            name: self.name@,
            description: self.description@,
            title: self.title@,
            read_only: self.read_only,
            destructive: self.destructive,
            idempotent: self.idempotent,
            schema: self.schema@,
        }
    }
}

/// The hints about a tool's effect. No tool reaches out of the machine, so the hint about
/// the open world is false for all of them.
pub open spec fn annotations_value(
    title: Seq<char>,
    read_only: bool,
    destructive: bool,
    idempotent: bool,
) -> JsonView {
    JsonView::Obj(
        crate::json::nothing().push(("destructiveHint"@, JsonView::Bool(destructive))).push(
            ("idempotentHint"@, JsonView::Bool(idempotent)),
        ).push(("openWorldHint"@, JsonView::Bool(false))).push(
            ("readOnlyHint"@, JsonView::Bool(read_only)),
        ).push(("title"@, JsonView::Str(title))),
    )
}

fn annotations(title: &str, read_only: bool, destructive: bool, idempotent: bool) -> (r: Json)
    ensures
        r@ == annotations_value(title@, read_only, destructive, idempotent),
{
    JsonMap::new().with("destructiveHint", Json::boolean(destructive)).with(
        "idempotentHint",
        Json::boolean(idempotent),
    ).with("openWorldHint", Json::boolean(false)).with(
        "readOnlyHint",
        Json::boolean(read_only),
    ).with("title", Json::string(title)).json()
}

/// A tool as a value.
pub open spec fn tool_value(tool: Tool<Seq<char>, JsonView>) -> JsonView {
    JsonView::Obj(
        crate::json::nothing().push(
            (
                "annotations"@,
                annotations_value(
                    tool.title,
                    tool.read_only,
                    tool.destructive,
                    tool.idempotent,
                ),
            ),
        ).push(("description"@, JsonView::Str(tool.description))).push(
            ("inputSchema"@, tool.schema),
        ).push(("name"@, JsonView::Str(tool.name))),
    )
}

fn tool_json(tool: Tool) -> (r: Json)
    ensures
        r@ == tool_value(tool@),
{
    let hints = annotations(tool.title, tool.read_only, tool.destructive, tool.idempotent);
    JsonMap::new().with("annotations", hints).with(
        "description",
        Json::string(tool.description),
    ).with("inputSchema", tool.schema).with("name", Json::string(tool.name)).json()
}

/// The schema of a string.
pub open spec fn text_schema(
    default: Option<Seq<char>>,
    description: Option<Seq<char>>,
    allowed: Option<Seq<JsonView>>,
    not_empty: bool,
) -> JsonView {
    let a = crate::json::push_some(
        crate::json::nothing(),
        "default"@,
        match default {
            Some(d) => Some(JsonView::Str(d)),
            None => None,
        },
    );
    let b = crate::json::push_some(
        a,
        "description"@,
        match description {
            Some(d) => Some(JsonView::Str(d)),
            None => None,
        },
    );
    let c = crate::json::push_some(
        b,
        "enum"@,
        match allowed {
            Some(names) => Some(JsonView::Arr(names)),
            None => None,
        },
    );
    let d = crate::json::push_some(
        c,
        "minLength"@,
        if not_empty {
            Some(JsonView::integer(1))
        } else {
            None
        },
    );
    JsonView::Obj(d.push(("type"@, JsonView::Str("string"@))))
}

fn opt_text(s: Option<&str>) -> (r: Option<Json>)
    ensures
        r.deep_view() == (match s {
            Some(text) => Some(JsonView::Str(text@)),
            None => None,
        }),
{
    match s {
        Some(text) => Some(Json::string(text)),
        None => None,
    }
}

fn opt_integer(n: Option<i64>) -> (r: Option<Json>)
    ensures
        r.deep_view() == (match n {
            Some(i) => Some(JsonView::integer(i as int)),
            None => None,
        }),
{
    match n {
        Some(i) => Some(Json::integer(i)),
        None => None,
    }
}

fn text_property(
    default: Option<&str>,
    description: Option<&str>,
    allowed: Option<JsonList>,
    not_empty: bool,
) -> (r: Json)
    ensures
        r@ == text_schema(
            match default {
                Some(d) => Some(d@),
                None => None,
            },
            match description {
                Some(d) => Some(d@),
                None => None,
            },
            match allowed {
                Some(names) => Some(names@),
                None => None,
            },
            not_empty,
        ),
{
    let names = match allowed {
        Some(list) => Some(list.json()),
        None => None,
    };
    let min_length = if not_empty {
        Some(Json::integer(1))
    } else {
        None
    };
    JsonMap::new().with_some("default", opt_text(default)).with_some(
        "description",
        opt_text(description),
    ).with_some("enum", names).with_some("minLength", min_length).with(
        "type",
        Json::string("string"),
    ).json()
}

/// The schema of an integer.
pub open spec fn integer_schema(
    default: Option<i64>,
    description: Option<Seq<char>>,
    maximum: Option<i64>,
    minimum: Option<i64>,
) -> JsonView {
    let a = crate::json::push_some(
        crate::json::nothing(),
        "default"@,
        match default {
            Some(i) => Some(JsonView::integer(i as int)),
            None => None,
        },
    );
    let b = crate::json::push_some(
        a,
        "description"@,
        match description {
            Some(d) => Some(JsonView::Str(d)),
            None => None,
        },
    );
    let c = crate::json::push_some(
        b,
        "maximum"@,
        match maximum {
            Some(i) => Some(JsonView::integer(i as int)),
            None => None,
        },
    );
    let d = crate::json::push_some(
        c,
        "minimum"@,
        match minimum {
            Some(i) => Some(JsonView::integer(i as int)),
            None => None,
        },
    );
    JsonView::Obj(d.push(("type"@, JsonView::Str("integer"@))))
}

fn integer_property(
    default: Option<i64>,
    description: Option<&str>,
    maximum: Option<i64>,
    minimum: Option<i64>,
) -> (r: Json)
    ensures
        r@ == integer_schema(
            default,
            match description {
                Some(d) => Some(d@),
                None => None,
            },
            maximum,
            minimum,
        ),
{
    JsonMap::new().with_some("default", opt_integer(default)).with_some(
        "description",
        opt_text(description),
    ).with_some("maximum", opt_integer(maximum)).with_some(
        "minimum",
        opt_integer(minimum),
    ).with("type", Json::string("integer")).json()
}

/// The schema of a flag that is off by default.
pub open spec fn flag_schema(description: Seq<char>) -> JsonView {
    JsonView::Obj(
        crate::json::nothing().push(("default"@, JsonView::Bool(false))).push(
            ("description"@, JsonView::Str(description)),
        ).push(("type"@, JsonView::Str("boolean"@))),
    )
}

fn flag_property(description: &str) -> (r: Json)
    ensures
        r@ == flag_schema(description@),
{
    JsonMap::new().with("default", Json::boolean(false)).with(
        "description",
        Json::string(description),
    ).with("type", Json::string("boolean")).json()
}

/// The schema of a number from zero to one.
pub open spec fn fraction_schema() -> JsonView {
    JsonView::Obj(
        crate::json::nothing().push(("maximum"@, JsonView::integer(1))).push(
            ("minimum"@, JsonView::integer(0)),
        ).push(("type"@, JsonView::Str("number"@))),
    )
}

fn fraction_property() -> (r: Json)
    ensures
        r@ == fraction_schema(),
{
    JsonMap::new().with("maximum", Json::integer(1)).with("minimum", Json::integer(0)).with(
        "type",
        Json::string("number"),
    ).json()
}

/// The schema of an array.
pub open spec fn array_schema(items: JsonView, min_items: Option<i64>) -> JsonView {
    let a = crate::json::push_some(
        crate::json::nothing().push(("items"@, items)),
        "minItems"@,
        match min_items {
            Some(i) => Some(JsonView::integer(i as int)),
            None => None,
        },
    );
    JsonView::Obj(a.push(("type"@, JsonView::Str("array"@))))
}

fn array_property(items: Json, min_items: Option<i64>) -> (r: Json)
    ensures
        r@ == array_schema(items@, min_items),
{
    JsonMap::new().with("items", items).with_some("minItems", opt_integer(min_items)).with(
        "type",
        Json::string("array"),
    ).json()
}

/// The schema of an object whose members are described in words only.
pub open spec fn open_object_schema(description: Seq<char>) -> JsonView {
    JsonView::Obj(
        crate::json::nothing().push(("description"@, JsonView::Str(description))).push(
            ("type"@, JsonView::Str("object"@)),
        ),
    )
}

fn open_object_property(description: &str) -> (r: Json)
    ensures
        r@ == open_object_schema(description@),
{
    JsonMap::new().with("description", Json::string(description)).with(
        "type",
        Json::string("object"),
    ).json()
}

/// The schema of an object that takes the listed members and no others.
pub open spec fn object_schema(
    properties: Seq<(Seq<char>, JsonView)>,
    required: Seq<JsonView>,
) -> JsonView {
    let a = crate::json::nothing().push(("additionalProperties"@, JsonView::Bool(false))).push(
        ("properties"@, JsonView::Obj(properties)),
    );
    let b = crate::json::push_some(
        a,
        "required"@,
        if required.len() > 0 {
            Some(JsonView::Arr(required))
        } else {
            None
        },
    );
    JsonView::Obj(b.push(("type"@, JsonView::Str("object"@))))
}

fn object_property(properties: JsonMap, required: JsonList) -> (r: Json)
    ensures
        r@ == object_schema(properties@, required@),
{
    let names = if required.items.len() > 0 {
        Some(required.json())
    } else {
        None
    };
    JsonMap::new().with("additionalProperties", Json::boolean(false)).with(
        "properties",
        properties.json(),
    ).with_some("required", names).with("type", Json::string("object")).json()
}

pub const ABOUT_SEARCH_CODE: &'static str = "Search this workspace's indexed code. Returns fused hits with path, unit kind, byte \
    span, language, per-leg ranks and an excerpt cut from the exact indexed bytes. Never \
    indexes on demand.";

pub const ABOUT_SEARCH_CODE_LIMIT: &'static str = "Maximum number of fused hits to return.";

pub const ABOUT_SEARCH_CODE_MODE: &'static str = "hybrid = BM25 fused with dense vectors (default); lexical = full-text only; code = dense \
    only; semantic is not supported in this version.";

pub const ABOUT_SEARCH_CODE_NAME_PATTERN: &'static str =
    "Keep only units whose local or qualified name starts with this prefix.";

pub const ABOUT_SEARCH_CODE_QUERY: &'static str =
    "An identifier, a phrase, or a description of the behavior to find.";

pub const ABOUT_GET_FILE_CONTEXT: &'static str = "List everything the index knows about one file: its units (occurrence id, kind, name, \
    qualified name, byte span) with excerpts from the exact indexed bytes, plus the \
    generation they came from.";

pub const ABOUT_GET_FILE_CONTEXT_PATH: &'static str = "Path relative to the worktree root, '/'-separated. An absolute path inside the worktree \
    is also accepted.";

pub const ABOUT_PROJECT_OVERVIEW: &'static str = "Orient in this workspace: a 3-level directory tree with recursive file and unit counts, \
    likely entry-point files, and the most frequently imported module specifiers, all \
    derived from the active index generation.";

pub const ABOUT_RECALL: &'static str = "Explicit durable-memory recall: the same scored pipeline the session-start hook uses. An \
    empty/absent query is legal and returns the scope's most recent eligible memories. \
    Returns both the rendered additionalContext text block and structured entries with ids \
    for follow-up tool calls (inspect_memory_evidence, edit_memory).";

pub const ABOUT_RECALL_LIMIT: &'static str = "Maximum number of structured entries to return (does not truncate the additionalContext \
    text block).";

pub const ABOUT_RECALL_QUERY: &'static str = "Free-text relevance query. Omit or leave empty for a termless recall (most recent \
    eligible memories).";

pub const ABOUT_LIST_MEMORY: &'static str = "Review durable memory entries in scope (global, repository, and — when a worktree \
    resolves — worktree), including terminal states \
    (superseded/retracted/resolved/rejected), unlike recall which excludes them.";

pub const ABOUT_LIST_MEMORY_KIND: &'static str = "Keep only entries of this kind.";

pub const ABOUT_LIST_MEMORY_SCOPE: &'static str = "Restrict to one resolved scope instead of the default global ∪ repository ∪ worktree \
    union.";

pub const ABOUT_LIST_MEMORY_STATE: &'static str =
    "Keep only entries in this state. Omit to see every state, including terminal ones.";

pub const ABOUT_LIST_MEMORY_CANDIDATES: &'static str = "Review pending/approved/rejected/expired memory candidates proposed by consolidation. \
    Candidates have no scope (global to the store) — the request's worktree context is not \
    consulted.";

pub const ABOUT_LIST_MEMORY_CANDIDATES_STATE: &'static str =
    "Keep only candidates in this review state. Omit to see every state.";

pub const ABOUT_INSPECT_MEMORY_EVIDENCE: &'static str = "The observation ids cited as evidence for one memory entry. An unknown memory_id returns \
    an empty list, not an error.";

pub const ABOUT_STATS: &'static str = "Store-wide counts of memory entries (by kind/state) and pending candidates (by review \
    state), plus write-queue backpressure and, when the request's worktree resolves, its \
    projection status.";

pub const ABOUT_HEALTH: &'static str = "Daemon mode, version, and store instance identity.";

pub const ABOUT_REMEMBER: &'static str = "Create a new durable memory entry directly (not via candidate review). Defaults to \
    repository scope when the request's worktree resolves, else global.";

pub const ABOUT_REMEMBER_CANONICAL_KEY: &'static str =
    "Unique within (scope_kind, scope_owner_id); a conflict is CANONICAL_KEY_CONFLICT.";

pub const ABOUT_REMEMBER_CONFIRMED_BY_USER: &'static str = "Whether a human explicitly confirmed this text. Raises the entry's confidence; does not \
    change who is recorded as the acting actor (always the caller).";

pub const ABOUT_REMEMBER_SCOPE: &'static str = "Restrict to one scope instead of the default (repository when the worktree resolves, \
    else global).";

pub const ABOUT_APPROVE_MEMORY_CANDIDATE: &'static str = "Approve a pending memory candidate, materializing its proposed operation through the \
    same transactional path a direct write would use.";

pub const ABOUT_REJECT_MEMORY_CANDIDATE: &'static str =
    "Reject a pending memory candidate. Never materializes.";

pub const ABOUT_EDIT_MEMORY_CANDIDATE: &'static str = "Edit a pending memory candidate's proposed operation and/or conflict list. Legal only \
    while the candidate is still pending (candidates have no version to check instead).";

pub const ABOUT_EDIT_MEMORY_CANDIDATE_PATCH_PROPOSED_OPERATION: &'static str = "Full replacement for the candidate's proposed_operation: a tagged object {\"op\": \
    \"create\"|\"reinforce\"|\"resolve\"|\"retract\"|\"supersede\", ...op-specific fields}.";

pub const ABOUT_EDIT_MEMORY: &'static str = "Edit an existing memory entry's text and/or importance. Rejects editing a terminal-state \
    entry.";

pub const ABOUT_EDIT_MEMORY_EXPECTED_VERSION: &'static str =
    "Optimistic-concurrency precondition; a mismatch is OPTIMISTIC_CONFLICT.";

pub const ABOUT_RETRACT_MEMORY: &'static str = "Retract a memory entry (v1 'forget'): audit-preserving withdrawal, not a delete. Illegal \
    for kinds without a retracted state (e.g. hypothesis).";

pub const ABOUT_RETRACT_MEMORY_EXPECTED_VERSION: &'static str =
    "Optimistic-concurrency precondition; a mismatch is OPTIMISTIC_CONFLICT.";

pub const ABOUT_MERGE_MEMORIES: &'static str = "Merge two or more memory entries (v1 'consolidate'): the survivor absorbs the losers' \
    evidence; losers become superseded, pointing at the survivor.";

pub const ABOUT_MERGE_MEMORIES_SURVIVOR_ID: &'static str =
    "Must be one of ids[].memory_id; that entry survives, the rest become superseded losers.";

pub const ABOUT_GIVE_FEEDBACK: &'static str = "Record free-text feedback as a durable observation, directly (not through the spool) — \
    the daemon-internal equivalent of a hook's ingest append. Feeds the next consolidation \
    pass; does not itself mutate any memory entry.";

/// `search_code` as advertised.
pub open spec fn search_code_tool() -> Tool<Seq<char>, JsonView> {
    Tool {
        name: "search_code"@,
        description: ABOUT_SEARCH_CODE@,
        title: "Search code"@,
        read_only: true,
        destructive: false,
        idempotent: true,
        schema: object_schema(crate::json::nothing().push(("limit"@, integer_schema(Some(DEFAULT_SEARCH_LIMIT), Some(ABOUT_SEARCH_CODE_LIMIT@), Some(MAX_SEARCH_LIMIT), Some(1)))).push(("mode"@, text_schema(Some("hybrid"@), Some(ABOUT_SEARCH_CODE_MODE@), Some(Seq::empty().push(JsonView::Str("hybrid"@)).push(JsonView::Str("lexical"@)).push(JsonView::Str("code"@)).push(JsonView::Str("semantic"@))), false))).push(("name_pattern"@, text_schema(None, Some(ABOUT_SEARCH_CODE_NAME_PATTERN@), None, false))).push(("query"@, text_schema(None, Some(ABOUT_SEARCH_CODE_QUERY@), None, true))), Seq::empty().push(JsonView::Str("query"@))),
    }
}

fn search_code() -> (r: Tool)
    ensures
        r@ == search_code_tool(),
{
    Tool {
        name: "search_code",
        description: ABOUT_SEARCH_CODE,
        title: "Search code",
        read_only: true,
        destructive: false,
        idempotent: true,
        schema: object_property(JsonMap::new().with("limit", integer_property(Some(DEFAULT_SEARCH_LIMIT), Some(ABOUT_SEARCH_CODE_LIMIT), Some(MAX_SEARCH_LIMIT), Some(1))).with("mode", text_property(Some("hybrid"), Some(ABOUT_SEARCH_CODE_MODE), Some(JsonList::new().with_str("hybrid").with_str("lexical").with_str("code").with_str("semantic")), false)).with("name_pattern", text_property(None, Some(ABOUT_SEARCH_CODE_NAME_PATTERN), None, false)).with("query", text_property(None, Some(ABOUT_SEARCH_CODE_QUERY), None, true)), JsonList::new().with_str("query")),
    }
}

/// `get_file_context` as advertised.
pub open spec fn get_file_context_tool() -> Tool<Seq<char>, JsonView> {
    Tool {
        name: "get_file_context"@,
        description: ABOUT_GET_FILE_CONTEXT@,
        title: "Get file context"@,
        read_only: true,
        destructive: false,
        idempotent: true,
        schema: object_schema(crate::json::nothing().push(("path"@, text_schema(None, Some(ABOUT_GET_FILE_CONTEXT_PATH@), None, true))), Seq::empty().push(JsonView::Str("path"@))),
    }
}

fn get_file_context() -> (r: Tool)
    ensures
        r@ == get_file_context_tool(),
{
    Tool {
        name: "get_file_context",
        description: ABOUT_GET_FILE_CONTEXT,
        title: "Get file context",
        read_only: true,
        destructive: false,
        idempotent: true,
        schema: object_property(JsonMap::new().with("path", text_property(None, Some(ABOUT_GET_FILE_CONTEXT_PATH), None, true)), JsonList::new().with_str("path")),
    }
}

/// `project_overview` as advertised.
pub open spec fn project_overview_tool() -> Tool<Seq<char>, JsonView> {
    Tool {
        name: "project_overview"@,
        description: ABOUT_PROJECT_OVERVIEW@,
        title: "Project overview"@,
        read_only: true,
        destructive: false,
        idempotent: true,
        schema: object_schema(crate::json::nothing(), Seq::empty()),
    }
}

fn project_overview() -> (r: Tool)
    ensures
        r@ == project_overview_tool(),
{
    Tool {
        name: "project_overview",
        description: ABOUT_PROJECT_OVERVIEW,
        title: "Project overview",
        read_only: true,
        destructive: false,
        idempotent: true,
        schema: object_property(JsonMap::new(), JsonList::new()),
    }
}

/// `recall` as advertised.
pub open spec fn recall_tool() -> Tool<Seq<char>, JsonView> {
    Tool {
        name: "recall"@,
        description: ABOUT_RECALL@,
        title: "Recall memory"@,
        read_only: true,
        destructive: false,
        idempotent: true,
        schema: object_schema(crate::json::nothing().push(("limit"@, integer_schema(Some(DEFAULT_RECALL_LIMIT), Some(ABOUT_RECALL_LIMIT@), Some(MAX_RECALL_LIMIT), Some(1)))).push(("query"@, text_schema(None, Some(ABOUT_RECALL_QUERY@), None, false))), Seq::empty()),
    }
}

fn recall() -> (r: Tool)
    ensures
        r@ == recall_tool(),
{
    Tool {
        name: "recall",
        description: ABOUT_RECALL,
        title: "Recall memory",
        read_only: true,
        destructive: false,
        idempotent: true,
        schema: object_property(JsonMap::new().with("limit", integer_property(Some(DEFAULT_RECALL_LIMIT), Some(ABOUT_RECALL_LIMIT), Some(MAX_RECALL_LIMIT), Some(1))).with("query", text_property(None, Some(ABOUT_RECALL_QUERY), None, false)), JsonList::new()),
    }
}

/// `list_memory` as advertised.
pub open spec fn list_memory_tool() -> Tool<Seq<char>, JsonView> {
    Tool {
        name: "list_memory"@,
        description: ABOUT_LIST_MEMORY@,
        title: "List memory entries"@,
        read_only: true,
        destructive: false,
        idempotent: true,
        schema: object_schema(crate::json::nothing().push(("kind"@, text_schema(None, Some(ABOUT_LIST_MEMORY_KIND@), Some(Seq::empty().push(JsonView::Str("fact"@)).push(JsonView::Str("decision"@)).push(JsonView::Str("convention"@)).push(JsonView::Str("procedure"@)).push(JsonView::Str("task"@)).push(JsonView::Str("question"@)).push(JsonView::Str("hypothesis"@))), false))).push(("limit"@, integer_schema(Some(DEFAULT_LIST_LIMIT), None, Some(MAX_LIST_LIMIT), Some(1)))).push(("offset"@, integer_schema(Some(0), None, None, Some(0)))).push(("scope"@, text_schema(None, Some(ABOUT_LIST_MEMORY_SCOPE@), Some(Seq::empty().push(JsonView::Str("global"@)).push(JsonView::Str("repository"@)).push(JsonView::Str("worktree"@))), false))).push(("state"@, text_schema(None, Some(ABOUT_LIST_MEMORY_STATE@), Some(Seq::empty().push(JsonView::Str("active"@)).push(JsonView::Str("resolved"@)).push(JsonView::Str("retracted"@)).push(JsonView::Str("confirmed"@)).push(JsonView::Str("rejected"@)).push(JsonView::Str("superseded"@))), false))), Seq::empty()),
    }
}

fn list_memory() -> (r: Tool)
    ensures
        r@ == list_memory_tool(),
{
    Tool {
        name: "list_memory",
        description: ABOUT_LIST_MEMORY,
        title: "List memory entries",
        read_only: true,
        destructive: false,
        idempotent: true,
        schema: object_property(JsonMap::new().with("kind", text_property(None, Some(ABOUT_LIST_MEMORY_KIND), Some(JsonList::new().with_str("fact").with_str("decision").with_str("convention").with_str("procedure").with_str("task").with_str("question").with_str("hypothesis")), false)).with("limit", integer_property(Some(DEFAULT_LIST_LIMIT), None, Some(MAX_LIST_LIMIT), Some(1))).with("offset", integer_property(Some(0), None, None, Some(0))).with("scope", text_property(None, Some(ABOUT_LIST_MEMORY_SCOPE), Some(JsonList::new().with_str("global").with_str("repository").with_str("worktree")), false)).with("state", text_property(None, Some(ABOUT_LIST_MEMORY_STATE), Some(JsonList::new().with_str("active").with_str("resolved").with_str("retracted").with_str("confirmed").with_str("rejected").with_str("superseded")), false)), JsonList::new()),
    }
}

/// `list_memory_candidates` as advertised.
pub open spec fn list_memory_candidates_tool() -> Tool<Seq<char>, JsonView> {
    Tool {
        name: "list_memory_candidates"@,
        description: ABOUT_LIST_MEMORY_CANDIDATES@,
        title: "List memory candidates"@,
        read_only: true,
        destructive: false,
        idempotent: true,
        schema: object_schema(crate::json::nothing().push(("limit"@, integer_schema(Some(DEFAULT_LIST_LIMIT), None, Some(MAX_LIST_LIMIT), Some(1)))).push(("offset"@, integer_schema(Some(0), None, None, Some(0)))).push(("state"@, text_schema(None, Some(ABOUT_LIST_MEMORY_CANDIDATES_STATE@), Some(Seq::empty().push(JsonView::Str("pending"@)).push(JsonView::Str("approved"@)).push(JsonView::Str("rejected"@)).push(JsonView::Str("expired"@))), false))), Seq::empty()),
    }
}

fn list_memory_candidates() -> (r: Tool)
    ensures
        r@ == list_memory_candidates_tool(),
{
    Tool {
        name: "list_memory_candidates",
        description: ABOUT_LIST_MEMORY_CANDIDATES,
        title: "List memory candidates",
        read_only: true,
        destructive: false,
        idempotent: true,
        schema: object_property(JsonMap::new().with("limit", integer_property(Some(DEFAULT_LIST_LIMIT), None, Some(MAX_LIST_LIMIT), Some(1))).with("offset", integer_property(Some(0), None, None, Some(0))).with("state", text_property(None, Some(ABOUT_LIST_MEMORY_CANDIDATES_STATE), Some(JsonList::new().with_str("pending").with_str("approved").with_str("rejected").with_str("expired")), false)), JsonList::new()),
    }
}

/// `inspect_memory_evidence` as advertised.
pub open spec fn inspect_memory_evidence_tool() -> Tool<Seq<char>, JsonView> {
    Tool {
        name: "inspect_memory_evidence"@,
        description: ABOUT_INSPECT_MEMORY_EVIDENCE@,
        title: "Inspect memory evidence"@,
        read_only: true,
        destructive: false,
        idempotent: true,
        schema: object_schema(crate::json::nothing().push(("memory_id"@, text_schema(None, None, None, true))), Seq::empty().push(JsonView::Str("memory_id"@))),
    }
}

fn inspect_memory_evidence() -> (r: Tool)
    ensures
        r@ == inspect_memory_evidence_tool(),
{
    Tool {
        name: "inspect_memory_evidence",
        description: ABOUT_INSPECT_MEMORY_EVIDENCE,
        title: "Inspect memory evidence",
        read_only: true,
        destructive: false,
        idempotent: true,
        schema: object_property(JsonMap::new().with("memory_id", text_property(None, None, None, true)), JsonList::new().with_str("memory_id")),
    }
}

/// `stats` as advertised.
pub open spec fn stats_tool() -> Tool<Seq<char>, JsonView> {
    Tool {
        name: "stats"@,
        description: ABOUT_STATS@,
        title: "Store statistics"@,
        read_only: true,
        destructive: false,
        idempotent: true,
        schema: object_schema(crate::json::nothing(), Seq::empty()),
    }
}

fn stats() -> (r: Tool)
    ensures
        r@ == stats_tool(),
{
    Tool {
        name: "stats",
        description: ABOUT_STATS,
        title: "Store statistics",
        read_only: true,
        destructive: false,
        idempotent: true,
        schema: object_property(JsonMap::new(), JsonList::new()),
    }
}

/// `health` as advertised.
pub open spec fn health_tool() -> Tool<Seq<char>, JsonView> {
    Tool {
        name: "health"@,
        description: ABOUT_HEALTH@,
        title: "Daemon health"@,
        read_only: true,
        destructive: false,
        idempotent: true,
        schema: object_schema(crate::json::nothing(), Seq::empty()),
    }
}

fn health() -> (r: Tool)
    ensures
        r@ == health_tool(),
{
    Tool {
        name: "health",
        description: ABOUT_HEALTH,
        title: "Daemon health",
        read_only: true,
        destructive: false,
        idempotent: true,
        schema: object_property(JsonMap::new(), JsonList::new()),
    }
}

/// `remember` as advertised.
pub open spec fn remember_tool() -> Tool<Seq<char>, JsonView> {
    Tool {
        name: "remember"@,
        description: ABOUT_REMEMBER@,
        title: "Create memory entry"@,
        read_only: false,
        destructive: false,
        idempotent: false,
        schema: object_schema(crate::json::nothing().push(("canonical_key"@, text_schema(None, Some(ABOUT_REMEMBER_CANONICAL_KEY@), None, false))).push(("confirmed_by_user"@, flag_schema(ABOUT_REMEMBER_CONFIRMED_BY_USER@))).push(("importance"@, text_schema(Some("medium"@), None, Some(Seq::empty().push(JsonView::Str("low"@)).push(JsonView::Str("medium"@)).push(JsonView::Str("high"@))), false))).push(("kind"@, text_schema(None, None, Some(Seq::empty().push(JsonView::Str("fact"@)).push(JsonView::Str("decision"@)).push(JsonView::Str("convention"@)).push(JsonView::Str("procedure"@)).push(JsonView::Str("task"@)).push(JsonView::Str("question"@)).push(JsonView::Str("hypothesis"@))), false))).push(("scope"@, text_schema(None, Some(ABOUT_REMEMBER_SCOPE@), Some(Seq::empty().push(JsonView::Str("global"@)).push(JsonView::Str("repository"@)).push(JsonView::Str("worktree"@))), false))).push(("text"@, text_schema(None, None, None, true))), Seq::empty().push(JsonView::Str("text"@)).push(JsonView::Str("kind"@))),
    }
}

fn remember() -> (r: Tool)
    ensures
        r@ == remember_tool(),
{
    Tool {
        name: "remember",
        description: ABOUT_REMEMBER,
        title: "Create memory entry",
        read_only: false,
        destructive: false,
        idempotent: false,
        schema: object_property(JsonMap::new().with("canonical_key", text_property(None, Some(ABOUT_REMEMBER_CANONICAL_KEY), None, false)).with("confirmed_by_user", flag_property(ABOUT_REMEMBER_CONFIRMED_BY_USER)).with("importance", text_property(Some("medium"), None, Some(JsonList::new().with_str("low").with_str("medium").with_str("high")), false)).with("kind", text_property(None, None, Some(JsonList::new().with_str("fact").with_str("decision").with_str("convention").with_str("procedure").with_str("task").with_str("question").with_str("hypothesis")), false)).with("scope", text_property(None, Some(ABOUT_REMEMBER_SCOPE), Some(JsonList::new().with_str("global").with_str("repository").with_str("worktree")), false)).with("text", text_property(None, None, None, true)), JsonList::new().with_str("text").with_str("kind")),
    }
}

/// `approve_memory_candidate` as advertised.
pub open spec fn approve_memory_candidate_tool() -> Tool<Seq<char>, JsonView> {
    Tool {
        name: "approve_memory_candidate"@,
        description: ABOUT_APPROVE_MEMORY_CANDIDATE@,
        title: "Approve memory candidate"@,
        read_only: false,
        destructive: false,
        idempotent: true,
        schema: object_schema(crate::json::nothing().push(("id"@, text_schema(None, None, None, true))), Seq::empty().push(JsonView::Str("id"@))),
    }
}

fn approve_memory_candidate() -> (r: Tool)
    ensures
        r@ == approve_memory_candidate_tool(),
{
    Tool {
        name: "approve_memory_candidate",
        description: ABOUT_APPROVE_MEMORY_CANDIDATE,
        title: "Approve memory candidate",
        read_only: false,
        destructive: false,
        idempotent: true,
        schema: object_property(JsonMap::new().with("id", text_property(None, None, None, true)), JsonList::new().with_str("id")),
    }
}

/// `reject_memory_candidate` as advertised.
pub open spec fn reject_memory_candidate_tool() -> Tool<Seq<char>, JsonView> {
    Tool {
        name: "reject_memory_candidate"@,
        description: ABOUT_REJECT_MEMORY_CANDIDATE@,
        title: "Reject memory candidate"@,
        read_only: false,
        destructive: false,
        idempotent: false,
        schema: object_schema(crate::json::nothing().push(("id"@, text_schema(None, None, None, true))), Seq::empty().push(JsonView::Str("id"@))),
    }
}

fn reject_memory_candidate() -> (r: Tool)
    ensures
        r@ == reject_memory_candidate_tool(),
{
    Tool {
        name: "reject_memory_candidate",
        description: ABOUT_REJECT_MEMORY_CANDIDATE,
        title: "Reject memory candidate",
        read_only: false,
        destructive: false,
        idempotent: false,
        schema: object_property(JsonMap::new().with("id", text_property(None, None, None, true)), JsonList::new().with_str("id")),
    }
}

/// `edit_memory_candidate` as advertised.
pub open spec fn edit_memory_candidate_tool() -> Tool<Seq<char>, JsonView> {
    Tool {
        name: "edit_memory_candidate"@,
        description: ABOUT_EDIT_MEMORY_CANDIDATE@,
        title: "Edit memory candidate"@,
        read_only: false,
        destructive: false,
        idempotent: true,
        schema: object_schema(crate::json::nothing().push(("id"@, text_schema(None, None, None, true))).push(("patch"@, object_schema(crate::json::nothing().push(("conflicts"@, array_schema(text_schema(None, None, None, false), None))).push(("proposed_operation"@, open_object_schema(ABOUT_EDIT_MEMORY_CANDIDATE_PATCH_PROPOSED_OPERATION@))), Seq::empty()))), Seq::empty().push(JsonView::Str("id"@)).push(JsonView::Str("patch"@))),
    }
}

fn edit_memory_candidate() -> (r: Tool)
    ensures
        r@ == edit_memory_candidate_tool(),
{
    Tool {
        name: "edit_memory_candidate",
        description: ABOUT_EDIT_MEMORY_CANDIDATE,
        title: "Edit memory candidate",
        read_only: false,
        destructive: false,
        idempotent: true,
        schema: object_property(JsonMap::new().with("id", text_property(None, None, None, true)).with("patch", object_property(JsonMap::new().with("conflicts", array_property(text_property(None, None, None, false), None)).with("proposed_operation", open_object_property(ABOUT_EDIT_MEMORY_CANDIDATE_PATCH_PROPOSED_OPERATION)), JsonList::new())), JsonList::new().with_str("id").with_str("patch")),
    }
}

/// `edit_memory` as advertised.
pub open spec fn edit_memory_tool() -> Tool<Seq<char>, JsonView> {
    Tool {
        name: "edit_memory"@,
        description: ABOUT_EDIT_MEMORY@,
        title: "Edit memory entry"@,
        read_only: false,
        destructive: false,
        idempotent: false,
        schema: object_schema(crate::json::nothing().push(("expected_version"@, integer_schema(None, Some(ABOUT_EDIT_MEMORY_EXPECTED_VERSION@), None, None))).push(("id"@, text_schema(None, None, None, true))).push(("patch"@, object_schema(crate::json::nothing().push(("importance"@, fraction_schema())).push(("text"@, text_schema(None, None, None, false))), Seq::empty()))), Seq::empty().push(JsonView::Str("id"@)).push(JsonView::Str("expected_version"@)).push(JsonView::Str("patch"@))),
    }
}

fn edit_memory() -> (r: Tool)
    ensures
        r@ == edit_memory_tool(),
{
    Tool {
        name: "edit_memory",
        description: ABOUT_EDIT_MEMORY,
        title: "Edit memory entry",
        read_only: false,
        destructive: false,
        idempotent: false,
        schema: object_property(JsonMap::new().with("expected_version", integer_property(None, Some(ABOUT_EDIT_MEMORY_EXPECTED_VERSION), None, None)).with("id", text_property(None, None, None, true)).with("patch", object_property(JsonMap::new().with("importance", fraction_property()).with("text", text_property(None, None, None, false)), JsonList::new())), JsonList::new().with_str("id").with_str("expected_version").with_str("patch")),
    }
}

/// `retract_memory` as advertised.
pub open spec fn retract_memory_tool() -> Tool<Seq<char>, JsonView> {
    Tool {
        name: "retract_memory"@,
        description: ABOUT_RETRACT_MEMORY@,
        title: "Retract memory entry"@,
        read_only: false,
        destructive: true,
        idempotent: false,
        schema: object_schema(crate::json::nothing().push(("expected_version"@, integer_schema(None, Some(ABOUT_RETRACT_MEMORY_EXPECTED_VERSION@), None, None))).push(("id"@, text_schema(None, None, None, true))), Seq::empty().push(JsonView::Str("id"@)).push(JsonView::Str("expected_version"@))),
    }
}

fn retract_memory() -> (r: Tool)
    ensures
        r@ == retract_memory_tool(),
{
    Tool {
        name: "retract_memory",
        description: ABOUT_RETRACT_MEMORY,
        title: "Retract memory entry",
        read_only: false,
        destructive: true,
        idempotent: false,
        schema: object_property(JsonMap::new().with("expected_version", integer_property(None, Some(ABOUT_RETRACT_MEMORY_EXPECTED_VERSION), None, None)).with("id", text_property(None, None, None, true)), JsonList::new().with_str("id").with_str("expected_version")),
    }
}

/// `merge_memories` as advertised.
pub open spec fn merge_memories_tool() -> Tool<Seq<char>, JsonView> {
    Tool {
        name: "merge_memories"@,
        description: ABOUT_MERGE_MEMORIES@,
        title: "Merge memory entries"@,
        read_only: false,
        destructive: false,
        idempotent: false,
        schema: object_schema(crate::json::nothing().push(("ids"@, array_schema(object_schema(crate::json::nothing().push(("expected_version"@, integer_schema(None, None, None, None))).push(("memory_id"@, text_schema(None, None, None, true))), Seq::empty().push(JsonView::Str("memory_id"@)).push(JsonView::Str("expected_version"@))), Some(2)))).push(("survivor_id"@, text_schema(None, Some(ABOUT_MERGE_MEMORIES_SURVIVOR_ID@), None, true))), Seq::empty().push(JsonView::Str("ids"@)).push(JsonView::Str("survivor_id"@))),
    }
}

fn merge_memories() -> (r: Tool)
    ensures
        r@ == merge_memories_tool(),
{
    Tool {
        name: "merge_memories",
        description: ABOUT_MERGE_MEMORIES,
        title: "Merge memory entries",
        read_only: false,
        destructive: false,
        idempotent: false,
        schema: object_property(JsonMap::new().with("ids", array_property(object_property(JsonMap::new().with("expected_version", integer_property(None, None, None, None)).with("memory_id", text_property(None, None, None, true)), JsonList::new().with_str("memory_id").with_str("expected_version")), Some(2))).with("survivor_id", text_property(None, Some(ABOUT_MERGE_MEMORIES_SURVIVOR_ID), None, true)), JsonList::new().with_str("ids").with_str("survivor_id")),
    }
}

/// `give_feedback` as advertised.
pub open spec fn give_feedback_tool() -> Tool<Seq<char>, JsonView> {
    Tool {
        name: "give_feedback"@,
        description: ABOUT_GIVE_FEEDBACK@,
        title: "Give feedback"@,
        read_only: false,
        destructive: false,
        idempotent: true,
        schema: object_schema(crate::json::nothing().push(("text"@, text_schema(None, None, None, true))), Seq::empty().push(JsonView::Str("text"@))),
    }
}

fn give_feedback() -> (r: Tool)
    ensures
        r@ == give_feedback_tool(),
{
    Tool {
        name: "give_feedback",
        description: ABOUT_GIVE_FEEDBACK,
        title: "Give feedback",
        read_only: false,
        destructive: false,
        idempotent: true,
        schema: object_property(JsonMap::new().with("text", text_property(None, None, None, true)), JsonList::new().with_str("text")),
    }
}

/// The catalog, in the order in which it is listed.
pub open spec fn tools() -> Seq<Tool<Seq<char>, JsonView>> {
    Seq::empty().push(search_code_tool()).push(get_file_context_tool()).push(project_overview_tool()).push(recall_tool()).push(list_memory_tool()).push(list_memory_candidates_tool()).push(inspect_memory_evidence_tool()).push(stats_tool()).push(health_tool()).push(remember_tool()).push(approve_memory_candidate_tool()).push(reject_memory_candidate_tool()).push(edit_memory_candidate_tool()).push(edit_memory_tool()).push(retract_memory_tool()).push(merge_memories_tool()).push(give_feedback_tool())
}

/// What `tools/list` answers.
pub open spec fn catalog_value() -> JsonView {
    JsonView::Obj(
        crate::json::nothing().push(
            (
                "tools"@,
                JsonView::Arr(Seq::new(tools().len(), |i: int| tool_value(tools()[i]))),
            ),
        ),
    )
}

/// The views of some tools.
pub open spec fn tool_views(rows: Seq<Tool>) -> Seq<Tool<Seq<char>, JsonView>> {
    Seq::new(rows.len(), |i: int| rows[i]@)
}

fn push_tool(rows: &mut Vec<Tool>, tool: Tool)
    ensures
        tool_views(final(rows)@) == tool_views(old(rows)@).push(tool@),
{
    let ghost before = rows@;
    rows.push(tool);
    proof {
        assert(tool_views(rows@) =~= tool_views(before).push(tool@));
    }
}

fn rows() -> (r: Vec<Tool>)
    ensures
        tool_views(r@) == tools(),
{
    let mut tools: Vec<Tool> = Vec::new();
    proof {
        assert(tool_views(tools@) =~= Seq::empty());
    }
    push_tool(&mut tools, search_code());
    push_tool(&mut tools, get_file_context());
    push_tool(&mut tools, project_overview());
    push_tool(&mut tools, recall());
    push_tool(&mut tools, list_memory());
    push_tool(&mut tools, list_memory_candidates());
    push_tool(&mut tools, inspect_memory_evidence());
    push_tool(&mut tools, stats());
    push_tool(&mut tools, health());
    push_tool(&mut tools, remember());
    push_tool(&mut tools, approve_memory_candidate());
    push_tool(&mut tools, reject_memory_candidate());
    push_tool(&mut tools, edit_memory_candidate());
    push_tool(&mut tools, edit_memory());
    push_tool(&mut tools, retract_memory());
    push_tool(&mut tools, merge_memories());
    push_tool(&mut tools, give_feedback());
    tools
}

/// The catalog as a value.
pub fn catalog() -> (r: Json)
    ensures
        r@ == catalog_value(),
{
    let mut rest = rows();
    let ghost all = tools();
    let mut reversed: Vec<Json> = Vec::new();
    while rest.len() > 0
        invariant
            all == tools(),
            rest.len() + reversed.len() == all.len(),
            tool_views(rest@) == all.take(rest.len() as int),
            forall|j: int|
                0 <= j < reversed.len() ==> (#[trigger] reversed@[j])@ == tool_value(
                    all[all.len() - 1 - j],
                ),
        decreases rest.len(),
    {
        let ghost before = rest@;
        match rest.pop() {
            Some(tool) => {
                proof {
                    assert(tool_views(before)[before.len() - 1] == tool@);
                    assert(tool_views(rest@) =~= all.take(rest.len() as int));
                }
                reversed.push(tool_json(tool));
            },
            None => {},
        }
    }
    let mut items: Vec<Json> = Vec::new();
    while reversed.len() > 0
        invariant
            all == tools(),
            items.len() + reversed.len() == all.len(),
            forall|j: int|
                0 <= j < reversed.len() ==> (#[trigger] reversed@[j])@ == tool_value(
                    all[all.len() - 1 - j],
                ),
            forall|j: int|
                0 <= j < items.len() ==> (#[trigger] items@[j])@ == tool_value(all[j]),
        decreases reversed.len(),
    {
        match reversed.pop() {
            Some(item) => {
                items.push(item);
            },
            None => {},
        }
    }
    proof {
        assert(crate::json::values(items@) =~= Seq::new(
            tools().len(),
            |i: int| tool_value(tools()[i]),
        ));
    }
    JsonMap::new().with("tools", Json::array(items)).json()
}

/// Where each tool stands in the catalog.
pub proof fn lemma_rows()
    ensures
        tools().len() == 17,
        tools()[0] == search_code_tool(),
        tools()[1] == get_file_context_tool(),
        tools()[2] == project_overview_tool(),
        tools()[3] == recall_tool(),
        tools()[4] == list_memory_tool(),
        tools()[5] == list_memory_candidates_tool(),
        tools()[6] == inspect_memory_evidence_tool(),
        tools()[7] == stats_tool(),
        tools()[8] == health_tool(),
        tools()[9] == remember_tool(),
        tools()[10] == approve_memory_candidate_tool(),
        tools()[11] == reject_memory_candidate_tool(),
        tools()[12] == edit_memory_candidate_tool(),
        tools()[13] == edit_memory_tool(),
        tools()[14] == retract_memory_tool(),
        tools()[15] == merge_memories_tool(),
        tools()[16] == give_feedback_tool(),
{
}

/// What tells the names apart: their lengths, and a character where two lengths agree.
proof fn lemma_names_differ()
    ensures
        "search_code"@.len() == 11,
        "search_code"@[0] == 's',
        "get_file_context"@.len() == 16,
        "get_file_context"@[0] == 'g',
        "project_overview"@.len() == 16,
        "project_overview"@[0] == 'p',
        "recall"@.len() == 6,
        "recall"@[0] == 'r',
        "list_memory"@.len() == 11,
        "list_memory"@[0] == 'l',
        "list_memory_candidates"@.len() == 22,
        "inspect_memory_evidence"@.len() == 23,
        "inspect_memory_evidence"@[0] == 'i',
        "stats"@.len() == 5,
        "health"@.len() == 6,
        "health"@[0] == 'h',
        "remember"@.len() == 8,
        "approve_memory_candidate"@.len() == 24,
        "reject_memory_candidate"@.len() == 23,
        "reject_memory_candidate"@[0] == 'r',
        "edit_memory_candidate"@.len() == 21,
        "edit_memory"@.len() == 11,
        "edit_memory"@[0] == 'e',
        "retract_memory"@.len() == 14,
        "retract_memory"@[0] == 'r',
        "merge_memories"@.len() == 14,
        "merge_memories"@[0] == 'm',
        "give_feedback"@.len() == 13,
        "forget"@.len() == 6,
        "forget"@[0] == 'f',
        "consolidate"@.len() == 11,
        "consolidate"@[0] == 'c',
{
    reveal_strlit("forget");
    reveal_strlit("consolidate");
    reveal_strlit("search_code");
    reveal_strlit("get_file_context");
    reveal_strlit("project_overview");
    reveal_strlit("recall");
    reveal_strlit("list_memory");
    reveal_strlit("list_memory_candidates");
    reveal_strlit("inspect_memory_evidence");
    reveal_strlit("stats");
    reveal_strlit("health");
    reveal_strlit("remember");
    reveal_strlit("approve_memory_candidate");
    reveal_strlit("reject_memory_candidate");
    reveal_strlit("edit_memory_candidate");
    reveal_strlit("edit_memory");
    reveal_strlit("retract_memory");
    reveal_strlit("merge_memories");
    reveal_strlit("give_feedback");
}

/// Exactly one tool takes something away: `retract_memory`.
pub proof fn law_only_retracting_is_destructive(i: int)
    requires
        0 <= i < tools().len(),
    ensures
        tools()[i].destructive <==> tools()[i].name == "retract_memory"@,
{
    lemma_rows();
    lemma_names_differ();
}

/// The tools that only read are the first nine, and every other tool writes.
pub proof fn law_read_only_tools_come_first(i: int)
    requires
        0 <= i < tools().len(),
    ensures
        tools()[i].read_only <==> i < 9,
{
    lemma_rows();
}

/// No tool takes an argument that its schema does not list.
pub proof fn law_no_schema_is_open(i: int)
    requires
        0 <= i < tools().len(),
    ensures
        crate::json::lookup(tools()[i].schema->Obj_0, "additionalProperties"@) == Some(
            JsonView::Bool(false),
        ),
{
    lemma_rows();
    let schema = tools()[i].schema->Obj_0;
    assert(schema[0] == ("additionalProperties"@, JsonView::Bool(false)));
}

/// No two tools share a name, and none is called `forget` or `consolidate`.
pub proof fn law_tool_names(i: int, j: int)
    requires
        0 <= i < tools().len(),
        0 <= j < tools().len(),
    ensures
        tools()[i].name == tools()[j].name ==> i == j,
        tools()[i].name != "forget"@,
        tools()[i].name != "consolidate"@,
{
    lemma_rows();
    lemma_names_differ();
}

/// The names of the members of an object, in their order.
pub open spec fn member_names(value: JsonView) -> Seq<Seq<char>> {
    Seq::new((value->Obj_0).len(), |i: int| value->Obj_0[i].0)
}

/// Whether the schema of an object lists these members and requires those.
pub open spec fn lists(schema: JsonView, names: Seq<Seq<char>>, required: Seq<JsonView>) -> bool {
    &&& exists|properties: JsonView|
        #[trigger] crate::json::has_member(schema, "properties"@, properties)
            && member_names(properties) == names
    &&& required.len() > 0 ==> crate::json::has_member(
        schema,
        "required"@,
        JsonView::Arr(required),
    )
    &&& crate::json::has_member(schema, "additionalProperties"@, JsonView::Bool(false))
    &&& crate::json::has_member(schema, "type"@, JsonView::Str("object"@))
    &&& (schema->Obj_0).len() == if required.len() > 0 {
        4int
    } else {
        3int
    }
}

/// The schema of an object lists the members that it is given, requires those that it is told to,
/// and takes no others.
pub proof fn law_an_object_takes_what_is_listed(
    properties: Seq<(Seq<char>, JsonView)>,
    required: Seq<JsonView>,
)
    ensures
        lists(
            object_schema(properties, required),
            Seq::new(properties.len(), |i: int| properties[i].0),
            required,
        ),
        crate::json::has_member(
            object_schema(properties, required),
            "properties"@,
            JsonView::Obj(properties),
        ),
{
    let o = object_schema(properties, required)->Obj_0;
    crate::json::lemma_member(o, 0);
    crate::json::lemma_member(o, 1);
    crate::json::lemma_member(o, 2);
    crate::json::lemma_member(o, o.len() - 1);
    assert(member_names(JsonView::Obj(properties)) =~= Seq::new(
        properties.len(),
        |i: int| properties[i].0,
    ));
}

/// The schema of a string says so, and has each further member where it is given one.
pub proof fn law_the_schema_of_a_string(
    default: Option<Seq<char>>,
    description: Option<Seq<char>>,
    allowed: Option<Seq<JsonView>>,
    not_empty: bool,
)
    ensures
        ({
            let value = text_schema(default, description, allowed, not_empty);
            &&& crate::json::has_member(value, "type"@, JsonView::Str("string"@))
            &&& default matches Some(d) ==> crate::json::has_member(
                value,
                "default"@,
                JsonView::Str(d),
            )
            &&& description matches Some(d) ==> crate::json::has_member(
                value,
                "description"@,
                JsonView::Str(d),
            )
            &&& allowed matches Some(names) ==> crate::json::has_member(
                value,
                "enum"@,
                JsonView::Arr(names),
            )
            &&& not_empty ==> crate::json::has_member(value, "minLength"@, JsonView::integer(1))
            &&& (value->Obj_0).len() == 1 + (if default is Some {
                1int
            } else {
                0
            }) + (if description is Some {
                1int
            } else {
                0
            }) + (if allowed is Some {
                1int
            } else {
                0
            }) + (if not_empty {
                1int
            } else {
                0
            })
        }),
{
    let o = text_schema(default, description, allowed, not_empty)->Obj_0;
    let a: int = if default is Some {
        1
    } else {
        0
    };
    let b: int = a + if description is Some {
        1int
    } else {
        0
    };
    let c: int = b + if allowed is Some {
        1int
    } else {
        0
    };
    crate::json::lemma_member(o, 0);
    crate::json::lemma_member(o, o.len() - 1);
    if description is Some {
        crate::json::lemma_member(o, a);
    }
    if allowed is Some {
        crate::json::lemma_member(o, b);
    }
    if not_empty {
        crate::json::lemma_member(o, c);
    }
}

/// The schema of an integer says so, and has each further member where it is given one.
pub proof fn law_the_schema_of_an_integer(
    default: Option<i64>,
    description: Option<Seq<char>>,
    maximum: Option<i64>,
    minimum: Option<i64>,
)
    ensures
        ({
            let value = integer_schema(default, description, maximum, minimum);
            &&& crate::json::has_member(value, "type"@, JsonView::Str("integer"@))
            &&& default matches Some(i) ==> crate::json::has_member(
                value,
                "default"@,
                JsonView::integer(i as int),
            )
            &&& description matches Some(d) ==> crate::json::has_member(
                value,
                "description"@,
                JsonView::Str(d),
            )
            &&& maximum matches Some(i) ==> crate::json::has_member(
                value,
                "maximum"@,
                JsonView::integer(i as int),
            )
            &&& minimum matches Some(i) ==> crate::json::has_member(
                value,
                "minimum"@,
                JsonView::integer(i as int),
            )
            &&& (value->Obj_0).len() == 1 + (if default is Some {
                1int
            } else {
                0
            }) + (if description is Some {
                1int
            } else {
                0
            }) + (if maximum is Some {
                1int
            } else {
                0
            }) + (if minimum is Some {
                1int
            } else {
                0
            })
        }),
{
    let o = integer_schema(default, description, maximum, minimum)->Obj_0;
    let a: int = if default is Some {
        1
    } else {
        0
    };
    let b: int = a + if description is Some {
        1int
    } else {
        0
    };
    let c: int = b + if maximum is Some {
        1int
    } else {
        0
    };
    crate::json::lemma_member(o, 0);
    crate::json::lemma_member(o, o.len() - 1);
    if description is Some {
        crate::json::lemma_member(o, a);
    }
    if maximum is Some {
        crate::json::lemma_member(o, b);
    }
    if minimum is Some {
        crate::json::lemma_member(o, c);
    }
}

/// The schema of an array has the schema of its items, and says how many there are at least
/// where it is told.
pub proof fn law_the_schema_of_an_array(items: JsonView, min_items: Option<i64>)
    ensures
        ({
            let value = array_schema(items, min_items);
            &&& crate::json::has_member(value, "items"@, items)
            &&& min_items matches Some(i) ==> crate::json::has_member(
                value,
                "minItems"@,
                JsonView::integer(i as int),
            )
            &&& crate::json::has_member(value, "type"@, JsonView::Str("array"@))
            &&& (value->Obj_0).len() == if min_items is Some {
                3int
            } else {
                2int
            }
        }),
{
    let o = array_schema(items, min_items)->Obj_0;
    crate::json::lemma_member(o, 0);
    crate::json::lemma_member(o, 1);
    crate::json::lemma_member(o, o.len() - 1);
}

/// A flag is off where nobody says otherwise.
pub proof fn law_the_schema_of_a_flag(description: Seq<char>)
    ensures
        ({
            let value = flag_schema(description);
            &&& crate::json::has_member(value, "default"@, JsonView::Bool(false))
            &&& crate::json::has_member(value, "description"@, JsonView::Str(description))
            &&& crate::json::has_member(value, "type"@, JsonView::Str("boolean"@))
            &&& (value->Obj_0).len() == 3
        }),
{
    let o = flag_schema(description)->Obj_0;
    crate::json::lemma_member(o, 0);
    crate::json::lemma_member(o, 1);
    crate::json::lemma_member(o, 2);
}

/// A fraction is a number from zero to one.
pub proof fn law_the_schema_of_a_fraction()
    ensures
        ({
            let value = fraction_schema();
            &&& crate::json::has_member(value, "maximum"@, JsonView::integer(1))
            &&& crate::json::has_member(value, "minimum"@, JsonView::integer(0))
            &&& crate::json::has_member(value, "type"@, JsonView::Str("number"@))
            &&& (value->Obj_0).len() == 3
        }),
{
    let o = fraction_schema()->Obj_0;
    crate::json::lemma_member(o, 0);
    crate::json::lemma_member(o, 1);
    crate::json::lemma_member(o, 2);
}

/// An object that is described in words says nothing of its members.
pub proof fn law_the_schema_of_an_open_object(description: Seq<char>)
    ensures
        ({
            let value = open_object_schema(description);
            &&& crate::json::has_member(value, "description"@, JsonView::Str(description))
            &&& crate::json::has_member(value, "type"@, JsonView::Str("object"@))
            &&& (value->Obj_0).len() == 2
        }),
{
    let o = open_object_schema(description)->Obj_0;
    crate::json::lemma_member(o, 0);
    crate::json::lemma_member(o, 1);
}

/// A tool is listed with its name, what it is for, its schema and what effect it has.
pub proof fn law_a_tool_is_listed_whole(tool: Tool<Seq<char>, JsonView>)
    ensures
        ({
            let value = tool_value(tool);
            &&& crate::json::has_member(value, "annotations"@, annotations_value(tool.title, tool.read_only, tool.destructive, tool.idempotent))
            &&& crate::json::has_member(value, "description"@, JsonView::Str(tool.description))
            &&& crate::json::has_member(value, "inputSchema"@, tool.schema)
            &&& crate::json::has_member(value, "name"@, JsonView::Str(tool.name))
            &&& (value->Obj_0).len() == 4
        }),
{
    let o = tool_value(tool)->Obj_0;
    crate::json::lemma_member(o, 0);
    crate::json::lemma_member(o, 1);
    crate::json::lemma_member(o, 2);
    crate::json::lemma_member(o, 3);
}

/// Each hint says what it is named after, and no tool reaches out of the machine.
pub proof fn law_hints_say_what_they_are_named_after(title: Seq<char>, read_only: bool, destructive: bool, idempotent: bool)
    ensures
        ({
            let value = annotations_value(title, read_only, destructive, idempotent);
            &&& crate::json::has_member(value, "destructiveHint"@, JsonView::Bool(destructive))
            &&& crate::json::has_member(value, "idempotentHint"@, JsonView::Bool(idempotent))
            &&& crate::json::has_member(value, "openWorldHint"@, JsonView::Bool(false))
            &&& crate::json::has_member(value, "readOnlyHint"@, JsonView::Bool(read_only))
            &&& crate::json::has_member(value, "title"@, JsonView::Str(title))
            &&& (value->Obj_0).len() == 5
        }),
{
    let o = annotations_value(title, read_only, destructive, idempotent)->Obj_0;
    crate::json::lemma_member(o, 0);
    crate::json::lemma_member(o, 1);
    crate::json::lemma_member(o, 2);
    crate::json::lemma_member(o, 3);
    crate::json::lemma_member(o, 4);
}

/// The catalog lists every tool, each in its place, and nothing else.
pub proof fn law_the_catalog_lists_every_tool(i: int)
    requires
        0 <= i < tools().len(),
    ensures
        exists|items: Seq<JsonView>|
            #[trigger] crate::json::has_member(catalog_value(), "tools"@, JsonView::Arr(items))
                && items.len() == tools().len() && items[i] == tool_value(tools()[i]),
        (catalog_value()->Obj_0).len() == 1,
{
    let items = Seq::new(tools().len(), |i: int| tool_value(tools()[i]));
    crate::json::lemma_member(catalog_value()->Obj_0, 0);
    assert(crate::json::has_member(catalog_value(), "tools"@, JsonView::Arr(items)));
    assert(items[i] == tool_value(tools()[i]));
}

/// A tool that only reads may be called again without harm. Of those that write this holds of
/// approving and editing a candidate and of giving feedback.
pub proof fn law_which_tools_may_be_repeated(i: int)
    requires
        0 <= i < tools().len(),
    ensures
        tools()[i].read_only ==> tools()[i].idempotent && !tools()[i].destructive,
        !tools()[i].read_only ==> (tools()[i].idempotent <==> tools()[i].name
            == "approve_memory_candidate"@ || tools()[i].name == "edit_memory_candidate"@
            || tools()[i].name == "give_feedback"@),
{
    lemma_rows();
    lemma_names_differ();
}

/// The tools are listed in this order, each under the name by which it is called.
pub proof fn law_the_order_of_the_catalog()
    ensures
        tools().len() == 17,
        tools()[0].name == "search_code"@ && tools()[0].title == "Search code"@,
        tools()[1].name == "get_file_context"@ && tools()[1].title == "Get file context"@,
        tools()[2].name == "project_overview"@ && tools()[2].title == "Project overview"@,
        tools()[3].name == "recall"@ && tools()[3].title == "Recall memory"@,
        tools()[4].name == "list_memory"@ && tools()[4].title == "List memory entries"@,
        tools()[5].name == "list_memory_candidates"@ && tools()[5].title == "List memory candidates"@,
        tools()[6].name == "inspect_memory_evidence"@ && tools()[6].title == "Inspect memory evidence"@,
        tools()[7].name == "stats"@ && tools()[7].title == "Store statistics"@,
        tools()[8].name == "health"@ && tools()[8].title == "Daemon health"@,
        tools()[9].name == "remember"@ && tools()[9].title == "Create memory entry"@,
        tools()[10].name == "approve_memory_candidate"@ && tools()[10].title == "Approve memory candidate"@,
        tools()[11].name == "reject_memory_candidate"@ && tools()[11].title == "Reject memory candidate"@,
        tools()[12].name == "edit_memory_candidate"@ && tools()[12].title == "Edit memory candidate"@,
        tools()[13].name == "edit_memory"@ && tools()[13].title == "Edit memory entry"@,
        tools()[14].name == "retract_memory"@ && tools()[14].title == "Retract memory entry"@,
        tools()[15].name == "merge_memories"@ && tools()[15].title == "Merge memory entries"@,
        tools()[16].name == "give_feedback"@ && tools()[16].title == "Give feedback"@,
{
    lemma_rows();
}

proof fn lemma_lists(schema: JsonView, names: Seq<Seq<char>>, required: Seq<JsonView>)
    requires
        schema is Obj,
        ({
            let o = schema->Obj_0;
            &&& o.len() == if required.len() > 0 {
                4int
            } else {
                3int
            }
            &&& o[0] == ("additionalProperties"@, JsonView::Bool(false))
            &&& o[1].0 == "properties"@
            &&& member_names(o[1].1) =~= names
            &&& required.len() > 0 ==> o[2].0 == "required"@ && o[2].1 is Arr && o[2].1->Arr_0
                =~= required
            &&& o[o.len() - 1] == ("type"@, JsonView::Str("object"@))
        }),
    ensures
        lists(schema, names, required),
{
    let o = schema->Obj_0;
    crate::json::lemma_member(o, 0);
    crate::json::lemma_member(o, 1);
    crate::json::lemma_member(o, 2);
    crate::json::lemma_member(o, o.len() - 1);
}

/// The arguments that each tool lists, and those that it requires.
pub proof fn law_what_each_tool_takes()
    ensures
        lists(
            search_code_tool().schema,
            seq!["limit"@, "mode"@, "name_pattern"@, "query"@],
            seq![JsonView::Str("query"@)],
        ),
        lists(
            get_file_context_tool().schema,
            seq!["path"@],
            seq![JsonView::Str("path"@)],
        ),
        lists(
            project_overview_tool().schema,
            Seq::<Seq<char>>::empty(),
            Seq::<JsonView>::empty(),
        ),
        lists(
            recall_tool().schema,
            seq!["limit"@, "query"@],
            Seq::<JsonView>::empty(),
        ),
        lists(
            list_memory_tool().schema,
            seq!["kind"@, "limit"@, "offset"@, "scope"@, "state"@],
            Seq::<JsonView>::empty(),
        ),
        lists(
            list_memory_candidates_tool().schema,
            seq!["limit"@, "offset"@, "state"@],
            Seq::<JsonView>::empty(),
        ),
        lists(
            inspect_memory_evidence_tool().schema,
            seq!["memory_id"@],
            seq![JsonView::Str("memory_id"@)],
        ),
        lists(
            stats_tool().schema,
            Seq::<Seq<char>>::empty(),
            Seq::<JsonView>::empty(),
        ),
        lists(
            health_tool().schema,
            Seq::<Seq<char>>::empty(),
            Seq::<JsonView>::empty(),
        ),
        lists(
            remember_tool().schema,
            seq!["canonical_key"@, "confirmed_by_user"@, "importance"@, "kind"@, "scope"@, "text"@],
            seq![JsonView::Str("text"@), JsonView::Str("kind"@)],
        ),
        lists(
            approve_memory_candidate_tool().schema,
            seq!["id"@],
            seq![JsonView::Str("id"@)],
        ),
        lists(
            reject_memory_candidate_tool().schema,
            seq!["id"@],
            seq![JsonView::Str("id"@)],
        ),
        lists(
            edit_memory_candidate_tool().schema,
            seq!["id"@, "patch"@],
            seq![JsonView::Str("id"@), JsonView::Str("patch"@)],
        ),
        lists(
            edit_memory_tool().schema,
            seq!["expected_version"@, "id"@, "patch"@],
            seq![JsonView::Str("id"@), JsonView::Str("expected_version"@), JsonView::Str("patch"@)],
        ),
        lists(
            retract_memory_tool().schema,
            seq!["expected_version"@, "id"@],
            seq![JsonView::Str("id"@), JsonView::Str("expected_version"@)],
        ),
        lists(
            merge_memories_tool().schema,
            seq!["ids"@, "survivor_id"@],
            seq![JsonView::Str("ids"@), JsonView::Str("survivor_id"@)],
        ),
        lists(
            give_feedback_tool().schema,
            seq!["text"@],
            seq![JsonView::Str("text"@)],
        ),
{
    lemma_lists(
        search_code_tool().schema,
        seq!["limit"@, "mode"@, "name_pattern"@, "query"@],
        seq![JsonView::Str("query"@)],
    );
    lemma_lists(
        get_file_context_tool().schema,
        seq!["path"@],
        seq![JsonView::Str("path"@)],
    );
    lemma_lists(
        project_overview_tool().schema,
        Seq::<Seq<char>>::empty(),
        Seq::<JsonView>::empty(),
    );
    lemma_lists(
        recall_tool().schema,
        seq!["limit"@, "query"@],
        Seq::<JsonView>::empty(),
    );
    lemma_lists(
        list_memory_tool().schema,
        seq!["kind"@, "limit"@, "offset"@, "scope"@, "state"@],
        Seq::<JsonView>::empty(),
    );
    lemma_lists(
        list_memory_candidates_tool().schema,
        seq!["limit"@, "offset"@, "state"@],
        Seq::<JsonView>::empty(),
    );
    lemma_lists(
        inspect_memory_evidence_tool().schema,
        seq!["memory_id"@],
        seq![JsonView::Str("memory_id"@)],
    );
    lemma_lists(
        stats_tool().schema,
        Seq::<Seq<char>>::empty(),
        Seq::<JsonView>::empty(),
    );
    lemma_lists(
        health_tool().schema,
        Seq::<Seq<char>>::empty(),
        Seq::<JsonView>::empty(),
    );
    lemma_lists(
        remember_tool().schema,
        seq!["canonical_key"@, "confirmed_by_user"@, "importance"@, "kind"@, "scope"@, "text"@],
        seq![JsonView::Str("text"@), JsonView::Str("kind"@)],
    );
    lemma_lists(
        approve_memory_candidate_tool().schema,
        seq!["id"@],
        seq![JsonView::Str("id"@)],
    );
    lemma_lists(
        reject_memory_candidate_tool().schema,
        seq!["id"@],
        seq![JsonView::Str("id"@)],
    );
    lemma_lists(
        edit_memory_candidate_tool().schema,
        seq!["id"@, "patch"@],
        seq![JsonView::Str("id"@), JsonView::Str("patch"@)],
    );
    lemma_lists(
        edit_memory_tool().schema,
        seq!["expected_version"@, "id"@, "patch"@],
        seq![JsonView::Str("id"@), JsonView::Str("expected_version"@), JsonView::Str("patch"@)],
    );
    lemma_lists(
        retract_memory_tool().schema,
        seq!["expected_version"@, "id"@],
        seq![JsonView::Str("id"@), JsonView::Str("expected_version"@)],
    );
    lemma_lists(
        merge_memories_tool().schema,
        seq!["ids"@, "survivor_id"@],
        seq![JsonView::Str("ids"@), JsonView::Str("survivor_id"@)],
    );
    lemma_lists(
        give_feedback_tool().schema,
        seq!["text"@],
        seq![JsonView::Str("text"@)],
    );
}

/// Whether a property offers exactly the names of a vocabulary.
pub open spec fn offers<T: crate::vocabulary::Named>(property: JsonView) -> bool {
    exists|items: Seq<JsonView>|
        #[trigger] crate::json::has_member(property, "enum"@, JsonView::Arr(items)) && (forall|
            name: Seq<char>,
        | (#[trigger] T::named(name)) is Some <==> items.contains(JsonView::Str(name)))
}

/// A property that takes a name from a vocabulary offers every name of it and no other.
pub proof fn law_properties_offer_their_vocabulary()
    ensures
        offers::<crate::vocabulary::SearchMode>(search_code_tool().schema->Obj_0[1].1->Obj_0[1].1),
        offers::<crate::vocabulary::MemoryKind>(list_memory_tool().schema->Obj_0[1].1->Obj_0[0].1),
        offers::<crate::vocabulary::ScopeKind>(list_memory_tool().schema->Obj_0[1].1->Obj_0[3].1),
        offers::<crate::vocabulary::MemoryState>(list_memory_tool().schema->Obj_0[1].1->Obj_0[4].1),
        offers::<crate::vocabulary::CandidateState>(list_memory_candidates_tool().schema->Obj_0[1].1->Obj_0[2].1),
        offers::<crate::vocabulary::Signal>(remember_tool().schema->Obj_0[1].1->Obj_0[2].1),
        offers::<crate::vocabulary::MemoryKind>(remember_tool().schema->Obj_0[1].1->Obj_0[3].1),
        offers::<crate::vocabulary::ScopeKind>(remember_tool().schema->Obj_0[1].1->Obj_0[4].1),
{
    assert(offers::<crate::vocabulary::SearchMode>(search_code_tool().schema->Obj_0[1].1->Obj_0[1].1)) by {
        let property = search_code_tool().schema->Obj_0[1].1->Obj_0[1].1;
        let items = seq![JsonView::Str("hybrid"@), JsonView::Str("lexical"@), JsonView::Str("code"@), JsonView::Str("semantic"@)];
        let o = property->Obj_0;
        let at = o.len() - 2;
        assert(o[at].0 == "enum"@);
        assert(o[at].1->Arr_0 =~= items);
        crate::json::lemma_member(o, at);
        assert(crate::json::has_member(property, "enum"@, JsonView::Arr(items)));
        assert forall|name: Seq<char>| (#[trigger] <crate::vocabulary::SearchMode as crate::vocabulary::Named>::named(name)) is Some <==> items.contains(
            JsonView::Str(name),
        ) by {
            assert(items[0] == JsonView::Str("hybrid"@));
            assert(items[1] == JsonView::Str("lexical"@));
            assert(items[2] == JsonView::Str("code"@));
            assert(items[3] == JsonView::Str("semantic"@));
            if items.contains(JsonView::Str(name)) {
                let j = choose|j: int| 0 <= j < items.len() && items[j] == JsonView::Str(name);
                assert(items[j] == JsonView::Str(name));
            }
        }
    }
    assert(offers::<crate::vocabulary::MemoryKind>(list_memory_tool().schema->Obj_0[1].1->Obj_0[0].1)) by {
        let property = list_memory_tool().schema->Obj_0[1].1->Obj_0[0].1;
        let items = seq![JsonView::Str("fact"@), JsonView::Str("decision"@), JsonView::Str("convention"@), JsonView::Str("procedure"@), JsonView::Str("task"@), JsonView::Str("question"@), JsonView::Str("hypothesis"@)];
        let o = property->Obj_0;
        let at = o.len() - 2;
        assert(o[at].0 == "enum"@);
        assert(o[at].1->Arr_0 =~= items);
        crate::json::lemma_member(o, at);
        assert(crate::json::has_member(property, "enum"@, JsonView::Arr(items)));
        assert forall|name: Seq<char>| (#[trigger] <crate::vocabulary::MemoryKind as crate::vocabulary::Named>::named(name)) is Some <==> items.contains(
            JsonView::Str(name),
        ) by {
            assert(items[0] == JsonView::Str("fact"@));
            assert(items[1] == JsonView::Str("decision"@));
            assert(items[2] == JsonView::Str("convention"@));
            assert(items[3] == JsonView::Str("procedure"@));
            assert(items[4] == JsonView::Str("task"@));
            assert(items[5] == JsonView::Str("question"@));
            assert(items[6] == JsonView::Str("hypothesis"@));
            if items.contains(JsonView::Str(name)) {
                let j = choose|j: int| 0 <= j < items.len() && items[j] == JsonView::Str(name);
                assert(items[j] == JsonView::Str(name));
            }
        }
    }
    assert(offers::<crate::vocabulary::ScopeKind>(list_memory_tool().schema->Obj_0[1].1->Obj_0[3].1)) by {
        let property = list_memory_tool().schema->Obj_0[1].1->Obj_0[3].1;
        let items = seq![JsonView::Str("global"@), JsonView::Str("repository"@), JsonView::Str("worktree"@)];
        let o = property->Obj_0;
        let at = o.len() - 2;
        assert(o[at].0 == "enum"@);
        assert(o[at].1->Arr_0 =~= items);
        crate::json::lemma_member(o, at);
        assert(crate::json::has_member(property, "enum"@, JsonView::Arr(items)));
        assert forall|name: Seq<char>| (#[trigger] <crate::vocabulary::ScopeKind as crate::vocabulary::Named>::named(name)) is Some <==> items.contains(
            JsonView::Str(name),
        ) by {
            assert(items[0] == JsonView::Str("global"@));
            assert(items[1] == JsonView::Str("repository"@));
            assert(items[2] == JsonView::Str("worktree"@));
            if items.contains(JsonView::Str(name)) {
                let j = choose|j: int| 0 <= j < items.len() && items[j] == JsonView::Str(name);
                assert(items[j] == JsonView::Str(name));
            }
        }
    }
    assert(offers::<crate::vocabulary::MemoryState>(list_memory_tool().schema->Obj_0[1].1->Obj_0[4].1)) by {
        let property = list_memory_tool().schema->Obj_0[1].1->Obj_0[4].1;
        let items = seq![JsonView::Str("active"@), JsonView::Str("resolved"@), JsonView::Str("retracted"@), JsonView::Str("confirmed"@), JsonView::Str("rejected"@), JsonView::Str("superseded"@)];
        let o = property->Obj_0;
        let at = o.len() - 2;
        assert(o[at].0 == "enum"@);
        assert(o[at].1->Arr_0 =~= items);
        crate::json::lemma_member(o, at);
        assert(crate::json::has_member(property, "enum"@, JsonView::Arr(items)));
        assert forall|name: Seq<char>| (#[trigger] <crate::vocabulary::MemoryState as crate::vocabulary::Named>::named(name)) is Some <==> items.contains(
            JsonView::Str(name),
        ) by {
            assert(items[0] == JsonView::Str("active"@));
            assert(items[1] == JsonView::Str("resolved"@));
            assert(items[2] == JsonView::Str("retracted"@));
            assert(items[3] == JsonView::Str("confirmed"@));
            assert(items[4] == JsonView::Str("rejected"@));
            assert(items[5] == JsonView::Str("superseded"@));
            if items.contains(JsonView::Str(name)) {
                let j = choose|j: int| 0 <= j < items.len() && items[j] == JsonView::Str(name);
                assert(items[j] == JsonView::Str(name));
            }
        }
    }
    assert(offers::<crate::vocabulary::CandidateState>(list_memory_candidates_tool().schema->Obj_0[1].1->Obj_0[2].1)) by {
        let property = list_memory_candidates_tool().schema->Obj_0[1].1->Obj_0[2].1;
        let items = seq![JsonView::Str("pending"@), JsonView::Str("approved"@), JsonView::Str("rejected"@), JsonView::Str("expired"@)];
        let o = property->Obj_0;
        let at = o.len() - 2;
        assert(o[at].0 == "enum"@);
        assert(o[at].1->Arr_0 =~= items);
        crate::json::lemma_member(o, at);
        assert(crate::json::has_member(property, "enum"@, JsonView::Arr(items)));
        assert forall|name: Seq<char>| (#[trigger] <crate::vocabulary::CandidateState as crate::vocabulary::Named>::named(name)) is Some <==> items.contains(
            JsonView::Str(name),
        ) by {
            assert(items[0] == JsonView::Str("pending"@));
            assert(items[1] == JsonView::Str("approved"@));
            assert(items[2] == JsonView::Str("rejected"@));
            assert(items[3] == JsonView::Str("expired"@));
            if items.contains(JsonView::Str(name)) {
                let j = choose|j: int| 0 <= j < items.len() && items[j] == JsonView::Str(name);
                assert(items[j] == JsonView::Str(name));
            }
        }
    }
    assert(offers::<crate::vocabulary::Signal>(remember_tool().schema->Obj_0[1].1->Obj_0[2].1)) by {
        let property = remember_tool().schema->Obj_0[1].1->Obj_0[2].1;
        let items = seq![JsonView::Str("low"@), JsonView::Str("medium"@), JsonView::Str("high"@)];
        let o = property->Obj_0;
        let at = o.len() - 2;
        assert(o[at].0 == "enum"@);
        assert(o[at].1->Arr_0 =~= items);
        crate::json::lemma_member(o, at);
        assert(crate::json::has_member(property, "enum"@, JsonView::Arr(items)));
        assert forall|name: Seq<char>| (#[trigger] <crate::vocabulary::Signal as crate::vocabulary::Named>::named(name)) is Some <==> items.contains(
            JsonView::Str(name),
        ) by {
            assert(items[0] == JsonView::Str("low"@));
            assert(items[1] == JsonView::Str("medium"@));
            assert(items[2] == JsonView::Str("high"@));
            if items.contains(JsonView::Str(name)) {
                let j = choose|j: int| 0 <= j < items.len() && items[j] == JsonView::Str(name);
                assert(items[j] == JsonView::Str(name));
            }
        }
    }
    assert(offers::<crate::vocabulary::MemoryKind>(remember_tool().schema->Obj_0[1].1->Obj_0[3].1)) by {
        let property = remember_tool().schema->Obj_0[1].1->Obj_0[3].1;
        let items = seq![JsonView::Str("fact"@), JsonView::Str("decision"@), JsonView::Str("convention"@), JsonView::Str("procedure"@), JsonView::Str("task"@), JsonView::Str("question"@), JsonView::Str("hypothesis"@)];
        let o = property->Obj_0;
        let at = o.len() - 2;
        assert(o[at].0 == "enum"@);
        assert(o[at].1->Arr_0 =~= items);
        crate::json::lemma_member(o, at);
        assert(crate::json::has_member(property, "enum"@, JsonView::Arr(items)));
        assert forall|name: Seq<char>| (#[trigger] <crate::vocabulary::MemoryKind as crate::vocabulary::Named>::named(name)) is Some <==> items.contains(
            JsonView::Str(name),
        ) by {
            assert(items[0] == JsonView::Str("fact"@));
            assert(items[1] == JsonView::Str("decision"@));
            assert(items[2] == JsonView::Str("convention"@));
            assert(items[3] == JsonView::Str("procedure"@));
            assert(items[4] == JsonView::Str("task"@));
            assert(items[5] == JsonView::Str("question"@));
            assert(items[6] == JsonView::Str("hypothesis"@));
            if items.contains(JsonView::Str(name)) {
                let j = choose|j: int| 0 <= j < items.len() && items[j] == JsonView::Str(name);
                assert(items[j] == JsonView::Str(name));
            }
        }
    }
    assert(offers::<crate::vocabulary::ScopeKind>(remember_tool().schema->Obj_0[1].1->Obj_0[4].1)) by {
        let property = remember_tool().schema->Obj_0[1].1->Obj_0[4].1;
        let items = seq![JsonView::Str("global"@), JsonView::Str("repository"@), JsonView::Str("worktree"@)];
        let o = property->Obj_0;
        let at = o.len() - 2;
        assert(o[at].0 == "enum"@);
        assert(o[at].1->Arr_0 =~= items);
        crate::json::lemma_member(o, at);
        assert(crate::json::has_member(property, "enum"@, JsonView::Arr(items)));
        assert forall|name: Seq<char>| (#[trigger] <crate::vocabulary::ScopeKind as crate::vocabulary::Named>::named(name)) is Some <==> items.contains(
            JsonView::Str(name),
        ) by {
            assert(items[0] == JsonView::Str("global"@));
            assert(items[1] == JsonView::Str("repository"@));
            assert(items[2] == JsonView::Str("worktree"@));
            if items.contains(JsonView::Str(name)) {
                let j = choose|j: int| 0 <= j < items.len() && items[j] == JsonView::Str(name);
                assert(items[j] == JsonView::Str(name));
            }
        }
    }
}

/// A window is offered as the tool takes it: from one up to its most, with its default.
pub proof fn law_windows_are_offered_as_they_are_taken()
    ensures
        crate::json::has_member(search_code_tool().schema->Obj_0[1].1->Obj_0[0].1, "default"@, JsonView::integer(10)),
        crate::json::has_member(search_code_tool().schema->Obj_0[1].1->Obj_0[0].1, "maximum"@, JsonView::integer(50)),
        crate::json::has_member(search_code_tool().schema->Obj_0[1].1->Obj_0[0].1, "minimum"@, JsonView::integer(1)),
        crate::json::has_member(recall_tool().schema->Obj_0[1].1->Obj_0[0].1, "default"@, JsonView::integer(10)),
        crate::json::has_member(recall_tool().schema->Obj_0[1].1->Obj_0[0].1, "maximum"@, JsonView::integer(50)),
        crate::json::has_member(recall_tool().schema->Obj_0[1].1->Obj_0[0].1, "minimum"@, JsonView::integer(1)),
        crate::json::has_member(list_memory_tool().schema->Obj_0[1].1->Obj_0[1].1, "default"@, JsonView::integer(20)),
        crate::json::has_member(list_memory_tool().schema->Obj_0[1].1->Obj_0[1].1, "maximum"@, JsonView::integer(100)),
        crate::json::has_member(list_memory_tool().schema->Obj_0[1].1->Obj_0[1].1, "minimum"@, JsonView::integer(1)),
        crate::json::has_member(list_memory_tool().schema->Obj_0[1].1->Obj_0[2].1, "default"@, JsonView::integer(0)),
        crate::json::has_member(list_memory_tool().schema->Obj_0[1].1->Obj_0[2].1, "minimum"@, JsonView::integer(0)),
        crate::json::has_member(list_memory_candidates_tool().schema->Obj_0[1].1->Obj_0[0].1, "default"@, JsonView::integer(20)),
        crate::json::has_member(list_memory_candidates_tool().schema->Obj_0[1].1->Obj_0[0].1, "maximum"@, JsonView::integer(100)),
        crate::json::has_member(list_memory_candidates_tool().schema->Obj_0[1].1->Obj_0[0].1, "minimum"@, JsonView::integer(1)),
        crate::json::has_member(list_memory_candidates_tool().schema->Obj_0[1].1->Obj_0[1].1, "default"@, JsonView::integer(0)),
        crate::json::has_member(list_memory_candidates_tool().schema->Obj_0[1].1->Obj_0[1].1, "minimum"@, JsonView::integer(0)),
{
    crate::json::lemma_member(search_code_tool().schema->Obj_0[1].1->Obj_0[0].1->Obj_0, 0);
    crate::json::lemma_member(search_code_tool().schema->Obj_0[1].1->Obj_0[0].1->Obj_0, 1);
    crate::json::lemma_member(search_code_tool().schema->Obj_0[1].1->Obj_0[0].1->Obj_0, 2);
    crate::json::lemma_member(search_code_tool().schema->Obj_0[1].1->Obj_0[0].1->Obj_0, 3);
    crate::json::lemma_member(search_code_tool().schema->Obj_0[1].1->Obj_0[0].1->Obj_0, 4);
    crate::json::lemma_member(recall_tool().schema->Obj_0[1].1->Obj_0[0].1->Obj_0, 0);
    crate::json::lemma_member(recall_tool().schema->Obj_0[1].1->Obj_0[0].1->Obj_0, 1);
    crate::json::lemma_member(recall_tool().schema->Obj_0[1].1->Obj_0[0].1->Obj_0, 2);
    crate::json::lemma_member(recall_tool().schema->Obj_0[1].1->Obj_0[0].1->Obj_0, 3);
    crate::json::lemma_member(recall_tool().schema->Obj_0[1].1->Obj_0[0].1->Obj_0, 4);
    crate::json::lemma_member(list_memory_tool().schema->Obj_0[1].1->Obj_0[1].1->Obj_0, 0);
    crate::json::lemma_member(list_memory_tool().schema->Obj_0[1].1->Obj_0[1].1->Obj_0, 1);
    crate::json::lemma_member(list_memory_tool().schema->Obj_0[1].1->Obj_0[1].1->Obj_0, 2);
    crate::json::lemma_member(list_memory_tool().schema->Obj_0[1].1->Obj_0[1].1->Obj_0, 3);
    crate::json::lemma_member(list_memory_tool().schema->Obj_0[1].1->Obj_0[2].1->Obj_0, 0);
    crate::json::lemma_member(list_memory_tool().schema->Obj_0[1].1->Obj_0[2].1->Obj_0, 1);
    crate::json::lemma_member(list_memory_tool().schema->Obj_0[1].1->Obj_0[2].1->Obj_0, 2);
    crate::json::lemma_member(list_memory_candidates_tool().schema->Obj_0[1].1->Obj_0[0].1->Obj_0, 0);
    crate::json::lemma_member(list_memory_candidates_tool().schema->Obj_0[1].1->Obj_0[0].1->Obj_0, 1);
    crate::json::lemma_member(list_memory_candidates_tool().schema->Obj_0[1].1->Obj_0[0].1->Obj_0, 2);
    crate::json::lemma_member(list_memory_candidates_tool().schema->Obj_0[1].1->Obj_0[0].1->Obj_0, 3);
    crate::json::lemma_member(list_memory_candidates_tool().schema->Obj_0[1].1->Obj_0[1].1->Obj_0, 0);
    crate::json::lemma_member(list_memory_candidates_tool().schema->Obj_0[1].1->Obj_0[1].1->Obj_0, 1);
    crate::json::lemma_member(list_memory_candidates_tool().schema->Obj_0[1].1->Obj_0[1].1->Obj_0, 2);
}

proof fn lemma_schema_words()
    ensures
        "minLength"@.len() == 9,
        "type"@.len() == 4,
        "description"@.len() == 11,
        "default"@.len() == 7,
        "enum"@.len() == 4,
{
    reveal_strlit("minLength");
    reveal_strlit("type");
    reveal_strlit("description");
    reveal_strlit("default");
    reveal_strlit("enum");
}

/// Whether a property is a text that must not be empty where `not_empty` says so, and that
/// `default` is taken for where it is left out.
pub open spec fn has_text(property: JsonView, not_empty: bool, default: Option<Seq<char>>) -> bool {
    &&& crate::json::has_member(property, "type"@, JsonView::Str("string"@))
    &&& not_empty <==> crate::json::has_member(property, "minLength"@, JsonView::integer(1))
    &&& default matches Some(d) ==> crate::json::has_member(
        property,
        "default"@,
        JsonView::Str(d),
    )
}

/// Which texts may be empty: ids, queries, paths and what is to be kept must not be, filters and
/// patterns may. Two texts have a default, the mode of a search and the importance of an entry.
pub proof fn law_which_texts_may_be_empty()
    ensures
        has_text(search_code_tool().schema->Obj_0[1].1->Obj_0[1].1, false, Some("hybrid"@)),
        has_text(search_code_tool().schema->Obj_0[1].1->Obj_0[2].1, false, None),
        has_text(search_code_tool().schema->Obj_0[1].1->Obj_0[3].1, true, None),
        has_text(get_file_context_tool().schema->Obj_0[1].1->Obj_0[0].1, true, None),
        has_text(recall_tool().schema->Obj_0[1].1->Obj_0[1].1, false, None),
        has_text(list_memory_tool().schema->Obj_0[1].1->Obj_0[0].1, false, None),
        has_text(list_memory_tool().schema->Obj_0[1].1->Obj_0[3].1, false, None),
        has_text(list_memory_tool().schema->Obj_0[1].1->Obj_0[4].1, false, None),
        has_text(list_memory_candidates_tool().schema->Obj_0[1].1->Obj_0[2].1, false, None),
        has_text(inspect_memory_evidence_tool().schema->Obj_0[1].1->Obj_0[0].1, true, None),
        has_text(remember_tool().schema->Obj_0[1].1->Obj_0[0].1, false, None),
        has_text(remember_tool().schema->Obj_0[1].1->Obj_0[2].1, false, Some("medium"@)),
        has_text(remember_tool().schema->Obj_0[1].1->Obj_0[3].1, false, None),
        has_text(remember_tool().schema->Obj_0[1].1->Obj_0[4].1, false, None),
        has_text(remember_tool().schema->Obj_0[1].1->Obj_0[5].1, true, None),
        has_text(approve_memory_candidate_tool().schema->Obj_0[1].1->Obj_0[0].1, true, None),
        has_text(reject_memory_candidate_tool().schema->Obj_0[1].1->Obj_0[0].1, true, None),
        has_text(edit_memory_candidate_tool().schema->Obj_0[1].1->Obj_0[0].1, true, None),
        has_text(edit_memory_tool().schema->Obj_0[1].1->Obj_0[1].1, true, None),
        has_text(retract_memory_tool().schema->Obj_0[1].1->Obj_0[1].1, true, None),
        has_text(merge_memories_tool().schema->Obj_0[1].1->Obj_0[1].1, true, None),
        has_text(give_feedback_tool().schema->Obj_0[1].1->Obj_0[0].1, true, None),
{
    lemma_schema_words();
    crate::json::lemma_member(search_code_tool().schema->Obj_0[1].1->Obj_0[1].1->Obj_0, 0);
    crate::json::lemma_member(search_code_tool().schema->Obj_0[1].1->Obj_0[1].1->Obj_0, 1);
    crate::json::lemma_member(search_code_tool().schema->Obj_0[1].1->Obj_0[1].1->Obj_0, 2);
    crate::json::lemma_member(search_code_tool().schema->Obj_0[1].1->Obj_0[1].1->Obj_0, 3);
    crate::json::lemma_member(search_code_tool().schema->Obj_0[1].1->Obj_0[2].1->Obj_0, 0);
    crate::json::lemma_member(search_code_tool().schema->Obj_0[1].1->Obj_0[2].1->Obj_0, 1);
    crate::json::lemma_member(search_code_tool().schema->Obj_0[1].1->Obj_0[3].1->Obj_0, 0);
    crate::json::lemma_member(search_code_tool().schema->Obj_0[1].1->Obj_0[3].1->Obj_0, 1);
    crate::json::lemma_member(search_code_tool().schema->Obj_0[1].1->Obj_0[3].1->Obj_0, 2);
    crate::json::lemma_member(get_file_context_tool().schema->Obj_0[1].1->Obj_0[0].1->Obj_0, 0);
    crate::json::lemma_member(get_file_context_tool().schema->Obj_0[1].1->Obj_0[0].1->Obj_0, 1);
    crate::json::lemma_member(get_file_context_tool().schema->Obj_0[1].1->Obj_0[0].1->Obj_0, 2);
    crate::json::lemma_member(recall_tool().schema->Obj_0[1].1->Obj_0[1].1->Obj_0, 0);
    crate::json::lemma_member(recall_tool().schema->Obj_0[1].1->Obj_0[1].1->Obj_0, 1);
    crate::json::lemma_member(list_memory_tool().schema->Obj_0[1].1->Obj_0[0].1->Obj_0, 0);
    crate::json::lemma_member(list_memory_tool().schema->Obj_0[1].1->Obj_0[0].1->Obj_0, 1);
    crate::json::lemma_member(list_memory_tool().schema->Obj_0[1].1->Obj_0[0].1->Obj_0, 2);
    crate::json::lemma_member(list_memory_tool().schema->Obj_0[1].1->Obj_0[3].1->Obj_0, 0);
    crate::json::lemma_member(list_memory_tool().schema->Obj_0[1].1->Obj_0[3].1->Obj_0, 1);
    crate::json::lemma_member(list_memory_tool().schema->Obj_0[1].1->Obj_0[3].1->Obj_0, 2);
    crate::json::lemma_member(list_memory_tool().schema->Obj_0[1].1->Obj_0[4].1->Obj_0, 0);
    crate::json::lemma_member(list_memory_tool().schema->Obj_0[1].1->Obj_0[4].1->Obj_0, 1);
    crate::json::lemma_member(list_memory_tool().schema->Obj_0[1].1->Obj_0[4].1->Obj_0, 2);
    crate::json::lemma_member(list_memory_candidates_tool().schema->Obj_0[1].1->Obj_0[2].1->Obj_0, 0);
    crate::json::lemma_member(list_memory_candidates_tool().schema->Obj_0[1].1->Obj_0[2].1->Obj_0, 1);
    crate::json::lemma_member(list_memory_candidates_tool().schema->Obj_0[1].1->Obj_0[2].1->Obj_0, 2);
    crate::json::lemma_member(inspect_memory_evidence_tool().schema->Obj_0[1].1->Obj_0[0].1->Obj_0, 0);
    crate::json::lemma_member(inspect_memory_evidence_tool().schema->Obj_0[1].1->Obj_0[0].1->Obj_0, 1);
    crate::json::lemma_member(remember_tool().schema->Obj_0[1].1->Obj_0[0].1->Obj_0, 0);
    crate::json::lemma_member(remember_tool().schema->Obj_0[1].1->Obj_0[0].1->Obj_0, 1);
    crate::json::lemma_member(remember_tool().schema->Obj_0[1].1->Obj_0[2].1->Obj_0, 0);
    crate::json::lemma_member(remember_tool().schema->Obj_0[1].1->Obj_0[2].1->Obj_0, 1);
    crate::json::lemma_member(remember_tool().schema->Obj_0[1].1->Obj_0[2].1->Obj_0, 2);
    crate::json::lemma_member(remember_tool().schema->Obj_0[1].1->Obj_0[3].1->Obj_0, 0);
    crate::json::lemma_member(remember_tool().schema->Obj_0[1].1->Obj_0[3].1->Obj_0, 1);
    crate::json::lemma_member(remember_tool().schema->Obj_0[1].1->Obj_0[4].1->Obj_0, 0);
    crate::json::lemma_member(remember_tool().schema->Obj_0[1].1->Obj_0[4].1->Obj_0, 1);
    crate::json::lemma_member(remember_tool().schema->Obj_0[1].1->Obj_0[4].1->Obj_0, 2);
    crate::json::lemma_member(remember_tool().schema->Obj_0[1].1->Obj_0[5].1->Obj_0, 0);
    crate::json::lemma_member(remember_tool().schema->Obj_0[1].1->Obj_0[5].1->Obj_0, 1);
    crate::json::lemma_member(approve_memory_candidate_tool().schema->Obj_0[1].1->Obj_0[0].1->Obj_0, 0);
    crate::json::lemma_member(approve_memory_candidate_tool().schema->Obj_0[1].1->Obj_0[0].1->Obj_0, 1);
    crate::json::lemma_member(reject_memory_candidate_tool().schema->Obj_0[1].1->Obj_0[0].1->Obj_0, 0);
    crate::json::lemma_member(reject_memory_candidate_tool().schema->Obj_0[1].1->Obj_0[0].1->Obj_0, 1);
    crate::json::lemma_member(edit_memory_candidate_tool().schema->Obj_0[1].1->Obj_0[0].1->Obj_0, 0);
    crate::json::lemma_member(edit_memory_candidate_tool().schema->Obj_0[1].1->Obj_0[0].1->Obj_0, 1);
    crate::json::lemma_member(edit_memory_tool().schema->Obj_0[1].1->Obj_0[1].1->Obj_0, 0);
    crate::json::lemma_member(edit_memory_tool().schema->Obj_0[1].1->Obj_0[1].1->Obj_0, 1);
    crate::json::lemma_member(retract_memory_tool().schema->Obj_0[1].1->Obj_0[1].1->Obj_0, 0);
    crate::json::lemma_member(retract_memory_tool().schema->Obj_0[1].1->Obj_0[1].1->Obj_0, 1);
    crate::json::lemma_member(merge_memories_tool().schema->Obj_0[1].1->Obj_0[1].1->Obj_0, 0);
    crate::json::lemma_member(merge_memories_tool().schema->Obj_0[1].1->Obj_0[1].1->Obj_0, 1);
    crate::json::lemma_member(merge_memories_tool().schema->Obj_0[1].1->Obj_0[1].1->Obj_0, 2);
    crate::json::lemma_member(give_feedback_tool().schema->Obj_0[1].1->Obj_0[0].1->Obj_0, 0);
    crate::json::lemma_member(give_feedback_tool().schema->Obj_0[1].1->Obj_0[0].1->Obj_0, 1);
}

} // verus!
