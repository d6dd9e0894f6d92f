//! What becomes of one message: an answer at once, work to do first, or silence.
//!
//! There are two ways to fail. A message that is malformed, or that names something that
//! does not exist, is answered with a JSON-RPC error. A tool that ran and did not succeed
//! is answered with a result that says so.

use vstd::prelude::*;

use crate::failure::Failure;
use crate::indexing::supervisor::{project_json, ProjectStatus, ReconcileNowError, ReloadOutcome};
use crate::json::{parse_json, Json, JsonList, JsonMap, JsonView};
use crate::mcp::catalog::catalog;
use crate::mcp::code::{parse_get_file_context, parse_no_arguments, parse_search_code, SearchCode};
use crate::mcp::content::CallToolResult;
use crate::mcp::instructions::initialize_result;
use crate::mcp::jsonrpc::{
    ErrorResponse, Request, Response, INVALID_PARAMS, INVALID_REQUEST, METHOD_NOT_FOUND,
};
use crate::mcp::memory::{
    parse_inspect_memory_evidence, parse_list_candidates, parse_list_memory, parse_recall,
    ListCandidates, ListMemory, Recall,
};
use crate::mcp::memory_write::{
    parse_edit_candidate, parse_edit_memory, parse_feedback, parse_id, parse_merge,
    parse_remember, parse_versioned, EditCandidate, EditMemory, Merge, Remember, Versioned,
};
use crate::mcp::tools::{list_params_ok, parse_tool_call, ToolCall};
use crate::mode::{error_envelope, DaemonMode};
use crate::text::{concat2, same};

verus! {

/// What a message asks of the daemon.
#[derive(Debug, PartialEq, Eq)]
pub enum Step<S = String, J = Json, M = JsonMap> {
    /// Nothing: a notification is never answered.
    Silent,
    /// This answer, at once.
    Answer(S),
    /// A tool is called.
    Call { id: J, name: S, arguments: M },
    /// The recent calls are asked for.
    TailCalls { id: J },
    /// The statistics of the tools are asked for.
    ToolStats { id: J },
    /// The projects are asked for.
    ProjectsList { id: J },
    /// The projects are to be brought to the registry.
    ProjectsReload { id: J },
    /// One worktree is to be reconciled.
    ReconcileNow { id: J, worktree_id: S },
}

/// A step without its representation.
pub type StepView = Step<Seq<char>, JsonView, Seq<(Seq<char>, JsonView)>>;

impl View for Step<String, Json, JsonMap> {
    type V = StepView;

    open spec fn view(&self) -> StepView {
        match *self {
            Step::Silent => Step::Silent,
            Step::Answer(text) => Step::Answer(text@),
            Step::Call { id, name, arguments } => Step::Call {
                id: id@,
                name: name@,
                arguments: arguments@,
            },
            Step::TailCalls { id } => Step::TailCalls { id: id@ },
            Step::ToolStats { id } => Step::ToolStats { id: id@ },
            Step::ProjectsList { id } => Step::ProjectsList { id: id@ },
            Step::ProjectsReload { id } => Step::ProjectsReload { id: id@ },
            Step::ReconcileNow { id, worktree_id } => Step::ReconcileNow {
                id: id@,
                worktree_id: worktree_id@,
            },
        }
    }
}

/// An error response as an answer.
pub open spec fn refuse(id: JsonView, code: i64, message: Seq<char>) -> StepView {
    Step::Answer(crate::mcp::jsonrpc::error_text(id, code as int, message))
}

/// A successful response as an answer.
pub open spec fn grant(id: JsonView, result: JsonView) -> StepView {
    Step::Answer(crate::mcp::jsonrpc::success_text(id, result))
}

fn encode_success(id: Json, result: Json) -> (r: String)
    ensures
        r@ == crate::mcp::jsonrpc::success_text(id@, result@),
{
    Response::new(id, result).to_text()
}

fn encode_error(id: Json, code: i64, message: &str) -> (r: String)
    ensures
        r@ == crate::mcp::jsonrpc::error_text(id@, code as int, message@),
{
    ErrorResponse::new(id, code, message).to_text()
}

/// The worktree that parameters name, or what is wrong with them.
pub open spec fn worktree_in(params: Option<JsonView>) -> Result<Seq<char>, Seq<char>> {
    match params {
        Some(JsonView::Obj(object)) => match crate::json::lookup(object, "worktree_id"@) {
            Some(JsonView::Str(s)) => Ok(s),
            _ => Err("params.worktree_id must be a string"@),
        },
        _ => Err("params must be an object with a \"worktree_id\" string"@),
    }
}

fn parse_worktree_id(params: Option<&Json>) -> (r: Result<String, String>)
    ensures
        ({
            let expected = worktree_in(
                match params {
                    Some(v) => Some(v@),
                    None => None,
                },
            );
            match r {
                Ok(id) => expected == Ok::<Seq<char>, Seq<char>>(id@),
                Err(message) => expected == Err::<Seq<char>, Seq<char>>(message@),
            }
        }),
{
    broadcast use crate::json::lemma_view;

    match params {
        Some(Json::Obj(map)) => match map.get("worktree_id") {
            Some(Json::Str(s)) => Ok(s.clone()),
            _ => Err("params.worktree_id must be a string".to_owned()),
        },
        _ => Err("params must be an object with a \"worktree_id\" string".to_owned()),
    }
}

/// What a method asks for.
pub open spec fn method_step(
    id: JsonView,
    method: Seq<char>,
    params: Option<JsonView>,
    version: Seq<char>,
) -> StepView {
    if method == "initialize"@ {
        grant(id, crate::mcp::instructions::initialize_value(params, version))
    } else if method == "ping"@ {
        grant(id, JsonView::Obj(crate::json::nothing()))
    } else if method == "tools/list"@ {
        match crate::mcp::tools::list_params_fault(params) {
            None => grant(id, crate::mcp::catalog::catalog_value()),
            Some(message) => refuse(id, INVALID_PARAMS, message),
        }
    } else if method == "tools/call"@ {
        match crate::mcp::tools::tool_call_in(params) {
            Ok((name, arguments)) => Step::Call { id, name, arguments },
            Err(message) => refuse(id, INVALID_PARAMS, message),
        }
    } else if method == "admin/tail_calls"@ {
        Step::TailCalls { id }
    } else if method == "admin/tool_stats"@ {
        Step::ToolStats { id }
    } else if method == "admin/projects_list"@ {
        Step::ProjectsList { id }
    } else if method == "admin/projects_reload"@ {
        Step::ProjectsReload { id }
    } else if method == "admin/reconcile_now"@ {
        match worktree_in(params) {
            Ok(worktree_id) => Step::ReconcileNow { id, worktree_id },
            Err(message) => refuse(id, INVALID_PARAMS, message),
        }
    } else {
        refuse(id, METHOD_NOT_FOUND, "unknown method: "@ + method)
    }
}

fn answer_method(id: Json, method: &str, params: Option<&Json>, version: &str) -> (r: Step)
    ensures
        r@ == method_step(
            id@,
            method@,
            match params {
                Some(v) => Some(v@),
                None => None,
            },
            version@,
        ),
{
    if same(method, "initialize") {
        let result = initialize_result(params, version);
        Step::Answer(encode_success(id, result))
    } else if same(method, "ping") {
        Step::Answer(encode_success(id, JsonMap::new().json()))
    } else if same(method, "tools/list") {
        match list_params_ok(params) {
            Ok(_) => Step::Answer(encode_success(id, catalog())),
            Err(message) => Step::Answer(encode_error(id, INVALID_PARAMS, message.as_str())),
        }
    } else if same(method, "tools/call") {
        match parse_tool_call(params) {
            Ok(call) => Step::Call { id, name: call.name, arguments: call.arguments },
            Err(message) => Step::Answer(encode_error(id, INVALID_PARAMS, message.as_str())),
        }
    } else if same(method, "admin/tail_calls") {
        Step::TailCalls { id }
    } else if same(method, "admin/tool_stats") {
        Step::ToolStats { id }
    } else if same(method, "admin/projects_list") {
        Step::ProjectsList { id }
    } else if same(method, "admin/projects_reload") {
        Step::ProjectsReload { id }
    } else if same(method, "admin/reconcile_now") {
        match parse_worktree_id(params) {
            Ok(worktree_id) => Step::ReconcileNow { id, worktree_id },
            Err(message) => Step::Answer(encode_error(id, INVALID_PARAMS, message.as_str())),
        }
    } else {
        let message = concat2("unknown method: ", method);
        Step::Answer(encode_error(id, METHOD_NOT_FOUND, message.as_str()))
    }
}

/// What a message asks for. An object without an `id` is a notification, and no answer goes
/// out for one, whatever else is wrong with it.
pub open spec fn message_step(message: JsonView, version: Seq<char>) -> StepView {
    match message {
        JsonView::Obj(object) => match crate::json::lookup(object, "id"@) {
            None => Step::Silent,
            Some(id) => match crate::mcp::jsonrpc::request_in(object) {
                Err(fault) => refuse(JsonView::Null, INVALID_REQUEST, fault),
                Ok(request) => if request.jsonrpc != Some("2.0"@) {
                    refuse(id, INVALID_REQUEST, "jsonrpc must be \"2.0\""@)
                } else {
                    match request.method {
                        None => refuse(id, INVALID_REQUEST, "method is required"@),
                        Some(method) => method_step(id, method, request.params, version),
                    }
                },
            },
        },
        _ => refuse(JsonView::Null, INVALID_REQUEST, "request must be a JSON object"@),
    }
}

/// What a message asks for, of a daemon whose version is `version`.
pub fn begin(message: &Json, version: &str) -> (r: Step)
    ensures
        r@ == message_step(message@, version@),
{
    broadcast use crate::json::lemma_view;

    let map = match message {
        Json::Obj(map) => map,
        _ => {
            return Step::Answer(
                encode_error(Json::Null, INVALID_REQUEST, "request must be a JSON object"),
            );
        },
    };
    if !map.contains_key("id") {
        return Step::Silent;
    }
    let request = match Request::parse(map) {
        Ok(request) => request,
        Err(fault) => {
            return Step::Answer(encode_error(Json::Null, INVALID_REQUEST, fault.as_str()));
        },
    };
    let id = match request.id {
        Some(id) => id,
        None => {
            return Step::Silent;
        },
    };
    let current = match &request.jsonrpc {
        Some(v) => same(v.as_str(), "2.0"),
        None => false,
    };
    if !current {
        return Step::Answer(encode_error(id, INVALID_REQUEST, "jsonrpc must be \"2.0\""));
    }
    match &request.method {
        None => Step::Answer(encode_error(id, INVALID_REQUEST, "method is required")),
        Some(method) => match &request.params {
            Some(params) => answer_method(id, method.as_str(), Some(params), version),
            None => answer_method(id, method.as_str(), None, version),
        },
    }
}

/// What the text of a message asks for, or nothing where the text is refused as
/// JSON.
pub fn dispatch(text: &str, version: &str) -> (r: Option<Step>)
    ensures
        match crate::json::parsed_json(text@) {
            Some(message) => r matches Some(step) && step@ == message_step(message, version@),
            None => r is None,
        },
{
    match parse_json(text) {
        Some(message) => Some(begin(&message, version)),
        None => None,
    }
}

/// No notification is ever answered, and every request is.
pub proof fn law_exactly_requests_are_answered(
    object: Seq<(Seq<char>, JsonView)>,
    version: Seq<char>,
)
    ensures
        message_step(JsonView::Obj(object), version) is Silent <==> crate::json::lookup(
            object,
            "id"@,
        ) is None,
{
}

/// The answer to a piece of work.
pub open spec fn answer_text(id: JsonView, outcome: Result<JsonView, (i64, Seq<char>)>) -> Seq<
    char,
> {
    match outcome {
        Ok(result) => crate::mcp::jsonrpc::success_text(id, result),
        Err((code, message)) => crate::mcp::jsonrpc::error_text(id, code as int, message),
    }
}

/// The answer to a piece of work.
pub fn answer(id: Json, outcome: Result<Json, (i64, String)>) -> (r: String)
    ensures
        r@ == answer_text(
            id@,
            match outcome {
                Ok(result) => Ok(result@),
                Err((code, message)) => Err((code, message@)),
            },
        ),
{
    match outcome {
        Ok(result) => encode_success(id, result),
        Err((code, message)) => encode_error(id, code, message.as_str()),
    }
}

/// The answer to a tool call that ran.
pub fn answer_call(id: Json, result: &CallToolResult) -> (r: String)
    ensures
        r@ == crate::mcp::jsonrpc::success_text(
            id@,
            crate::mcp::content::result_value(result.content@, result.is_error, true),
        ),
{
    encode_success(id, result.to_value())
}

/// A list as the only member of an answer.
pub open spec fn listed(name: Seq<char>, items: Seq<JsonView>) -> JsonView {
    JsonView::Obj(crate::json::nothing().push((name, JsonView::Arr(items))))
}

/// The answer to `admin/tail_calls`: the calls, oldest first.
pub fn tail_calls_result(calls: Vec<Json>) -> (r: Json)
    ensures
        r@ == listed("calls"@, crate::json::values(calls@)),
{
    JsonMap::new().with("calls", Json::array(calls)).json()
}

/// The answer to `admin/tool_stats`: one entry for each tool, in the order of their names.
pub fn tool_stats_result(tools: Vec<Json>) -> (r: Json)
    ensures
        r@ == listed("tools"@, crate::json::values(tools@)),
{
    JsonMap::new().with("tools", Json::array(tools)).json()
}

/// Projects as values.
pub open spec fn project_values(projects: Seq<ProjectStatus>) -> Seq<JsonView> {
    Seq::new(
        projects.len(),
        |i: int| crate::indexing::supervisor::project_value(projects[i]),
    )
}

/// The answer to `admin/projects_list`. Without a supervisor nothing is available, which is
/// not the same as an empty list.
pub open spec fn projects_value(projects: Option<Seq<JsonView>>) -> JsonView {
    JsonView::Obj(
        crate::json::nothing().push(("available"@, JsonView::Bool(projects is Some))).push(
            (
                "projects"@,
                JsonView::Arr(
                    match projects {
                        Some(list) => list,
                        None => Seq::empty(),
                    },
                ),
            ),
        ),
    )
}

/// The answer to `admin/projects_list`.
pub fn projects_list_result(projects: Option<&Vec<ProjectStatus>>) -> (r: Json)
    ensures
        r@ == projects_value(
            match projects {
                Some(list) => Some(project_values(list@)),
                None => None,
            },
        ),
{
    let mut items: Vec<Json> = Vec::new();
    match projects {
        Some(list) => {
            let mut i: usize = 0;
            while i < list.len()
                invariant
                    i <= list.len(),
                    items.len() == i,
                    forall|j: int|
                        0 <= j < i ==> (#[trigger] items@[j])@
                            == crate::indexing::supervisor::project_value(list@[j]),
                decreases list.len() - i,
            {
                items.push(project_json(&list[i]));
                i = i + 1;
            }
            proof {
                assert(crate::json::values(items@) =~= project_values(list@));
            }
        },
        None => {
            proof {
                assert(crate::json::values(items@) =~= Seq::empty());
            }
        },
    }
    JsonMap::new().with("available", Json::boolean(projects.is_some())).with(
        "projects",
        Json::array(items),
    ).json()
}

/// The answer to `admin/projects_reload`.
pub open spec fn reload_value(outcome: Option<ReloadOutcome>) -> JsonView {
    let counts = match outcome {
        Some(o) => (o.started as int, o.stopped as int),
        None => (0, 0),
    };
    JsonView::Obj(
        crate::json::nothing().push(("available"@, JsonView::Bool(outcome is Some))).push(
            ("started"@, JsonView::integer(counts.0)),
        ).push(("stopped"@, JsonView::integer(counts.1))),
    )
}

/// The answer to `admin/projects_reload`.
pub fn projects_reload_result(outcome: Option<ReloadOutcome>) -> (r: Json)
    ensures
        r@ == reload_value(outcome),
{
    let (started, stopped): (usize, usize) = match outcome {
        Some(o) => (o.started, o.stopped),
        None => (0, 0),
    };
    JsonMap::new().with("available", Json::boolean(outcome.is_some())).with(
        "started",
        Json::unsigned(started as u64),
    ).with("stopped", Json::unsigned(stopped as u64)).json()
}

/// The answer to `admin/reconcile_now`: without a supervisor nothing is available, and a
/// worktree that is not managed is an invalid parameter.
pub open spec fn reconcile_value(outcome: Option<Result<(), ReconcileNowError>>) -> Result<
    JsonView,
    (i64, Seq<char>),
> {
    match outcome {
        Some(Err(_)) => Err(
            (INVALID_PARAMS, "worktree is not managed (or has no task running)"@),
        ),
        _ => Ok(
            JsonView::Obj(
                crate::json::nothing().push(("available"@, JsonView::Bool(outcome is Some))),
            ),
        ),
    }
}

/// The answer to `admin/reconcile_now`.
pub fn reconcile_now_result(outcome: Option<Result<(), ReconcileNowError>>) -> (r: Result<
    Json,
    (i64, String),
>)
    ensures
        match r {
            Ok(v) => reconcile_value(outcome) == Ok::<JsonView, (i64, Seq<char>)>(v@),
            Err((code, message)) => reconcile_value(outcome) == Err::<
                JsonView,
                (i64, Seq<char>),
            >((code, message@)),
        },
{
    match outcome {
        Some(Err(e)) => Err((INVALID_PARAMS, e.message().to_owned())),
        Some(Ok(_)) => Ok(JsonMap::new().with("available", Json::boolean(true)).json()),
        None => Ok(JsonMap::new().with("available", Json::boolean(false)).json()),
    }
}

/// Why tools cannot be called: there is no store to ask.
pub open spec fn no_store(mode: DaemonMode<Seq<char>>) -> Failure<Seq<char>> {
    Failure::IncompatibleStore {
        details: match mode {
            DaemonMode::MigrationOnly { reason } => crate::mode::incompatibility(reason),
            DaemonMode::Normal => "search engine unavailable"@,
        },
    }
}

/// The failure that answers every tool while there is no store to ask.
pub fn store_unavailable(mode: &DaemonMode) -> (r: Failure)
    ensures
        r@ == no_store(mode@),
{
    match mode {
        DaemonMode::MigrationOnly { reason } => error_envelope(reason),
        DaemonMode::Normal => Failure::IncompatibleStore {
            details: "search engine unavailable".to_owned(),
        },
    }
}

/// A tool call whose arguments were understood.
#[derive(Debug, PartialEq, Eq)]
pub enum ToolRequest {
    SearchCode(SearchCode),
    GetFileContext { path: String },
    ProjectOverview,
    Recall(Recall),
    ListMemory(ListMemory),
    ListMemoryCandidates(ListCandidates),
    InspectMemoryEvidence { memory_id: String },
    Stats,
    Health,
    Remember(Remember),
    ApproveMemoryCandidate { id: String },
    RejectMemoryCandidate { id: String },
    EditMemoryCandidate(EditCandidate),
    EditMemory(EditMemory),
    RetractMemory(Versioned),
    ConfirmMemory(Versioned),
    RejectMemory(Versioned),
    MergeMemories(Merge),
    GiveFeedback { text: String },
}

/// Where a tool call goes.
#[derive(Debug, PartialEq, Eq)]
pub enum Route {
    /// To the tool.
    Tool(ToolRequest),
    /// Back, as a failed call: there is no store to ask.
    Unavailable(Failure),
    /// Back, as an error: the call is not one that can be made.
    Invalid(String),
}

/// The tool that a request is for.
pub open spec fn tool_name(request: ToolRequest) -> Seq<char> {
    match request {
        ToolRequest::SearchCode(_) => "search_code"@,
        ToolRequest::GetFileContext { .. } => "get_file_context"@,
        ToolRequest::ProjectOverview => "project_overview"@,
        ToolRequest::Recall(_) => "recall"@,
        ToolRequest::ListMemory(_) => "list_memory"@,
        ToolRequest::ListMemoryCandidates(_) => "list_memory_candidates"@,
        ToolRequest::InspectMemoryEvidence { .. } => "inspect_memory_evidence"@,
        ToolRequest::Stats => "stats"@,
        ToolRequest::Health => "health"@,
        ToolRequest::Remember(_) => "remember"@,
        ToolRequest::ApproveMemoryCandidate { .. } => "approve_memory_candidate"@,
        ToolRequest::RejectMemoryCandidate { .. } => "reject_memory_candidate"@,
        ToolRequest::EditMemoryCandidate(_) => "edit_memory_candidate"@,
        ToolRequest::EditMemory(_) => "edit_memory"@,
        ToolRequest::RetractMemory(_) => "retract_memory"@,
        ToolRequest::ConfirmMemory(_) => "confirm_memory"@,
        ToolRequest::RejectMemory(_) => "reject_memory"@,
        ToolRequest::MergeMemories(_) => "merge_memories"@,
        ToolRequest::GiveFeedback { .. } => "give_feedback"@,
    }
}

/// The tools that can be called.
pub open spec fn is_tool(name: Seq<char>) -> bool {
    ||| name == "search_code"@
    ||| name == "get_file_context"@
    ||| name == "project_overview"@
    ||| name == "recall"@
    ||| name == "list_memory"@
    ||| name == "list_memory_candidates"@
    ||| name == "inspect_memory_evidence"@
    ||| name == "stats"@
    ||| name == "health"@
    ||| name == "remember"@
    ||| name == "approve_memory_candidate"@
    ||| name == "reject_memory_candidate"@
    ||| name == "edit_memory_candidate"@
    ||| name == "edit_memory"@
    ||| name == "retract_memory"@
    ||| name == "confirm_memory"@
    ||| name == "reject_memory"@
    ||| name == "merge_memories"@
    ||| name == "give_feedback"@
}

/// `request` is what the tool `name` is asked with `args`; `Err` is what is wrong with them.
/// `operation_fault` is what is wrong with the operation in the patch of a candidate.
pub open spec fn asks(
    name: Seq<char>,
    args: Seq<(Seq<char>, JsonView)>,
    operation_fault: Option<Seq<char>>,
    request: Result<ToolRequest, Seq<char>>,
) -> bool {
    if name == "search_code"@ {
        match request {
            Ok(ToolRequest::SearchCode(q)) => crate::mcp::code::search_code_in(args) == Ok::<
                SearchCode<Seq<char>>,
                Seq<char>,
            >(q@),
            Err(e) => crate::mcp::code::search_code_in(args) == Err::<
                SearchCode<Seq<char>>,
                Seq<char>,
            >(e),
            _ => false,
        }
    } else if name == "get_file_context"@ {
        match request {
            Ok(ToolRequest::GetFileContext { path }) => crate::mcp::code::file_context_in(args)
                == Ok::<Seq<char>, Seq<char>>(path@),
            Err(e) => crate::mcp::code::file_context_in(args) == Err::<Seq<char>, Seq<char>>(e),
            _ => false,
        }
    } else if name == "project_overview"@ {
        match request {
            Ok(ToolRequest::ProjectOverview) => crate::mcp::code::any_argument(args) is None,
            Err(e) => crate::mcp::code::any_argument(args) == Some(e),
            _ => false,
        }
    } else if name == "recall"@ {
        match request {
            Ok(ToolRequest::Recall(q)) => crate::mcp::memory::recall_in(args) == Ok::<
                Recall<Seq<char>>,
                Seq<char>,
            >(q@),
            Err(e) => crate::mcp::memory::recall_in(args) == Err::<Recall<Seq<char>>, Seq<char>>(
                e,
            ),
            _ => false,
        }
    } else if name == "list_memory"@ {
        match request {
            Ok(ToolRequest::ListMemory(q)) => crate::mcp::memory::list_memory_in(args) == Ok::<
                ListMemory,
                Seq<char>,
            >(q),
            Err(e) => crate::mcp::memory::list_memory_in(args) == Err::<ListMemory, Seq<char>>(e),
            _ => false,
        }
    } else if name == "list_memory_candidates"@ {
        match request {
            Ok(ToolRequest::ListMemoryCandidates(q)) => crate::mcp::memory::list_candidates_in(
                args,
            ) == Ok::<ListCandidates, Seq<char>>(q),
            Err(e) => crate::mcp::memory::list_candidates_in(args) == Err::<
                ListCandidates,
                Seq<char>,
            >(e),
            _ => false,
        }
    } else if name == "inspect_memory_evidence"@ {
        match request {
            Ok(ToolRequest::InspectMemoryEvidence { memory_id }) => crate::mcp::memory::inspect_in(
                args,
            ) == Ok::<Seq<char>, Seq<char>>(memory_id@),
            Err(e) => crate::mcp::memory::inspect_in(args) == Err::<Seq<char>, Seq<char>>(e),
            _ => false,
        }
    } else if name == "stats"@ {
        match request {
            Ok(ToolRequest::Stats) => crate::mcp::code::any_argument(args) is None,
            Err(e) => crate::mcp::code::any_argument(args) == Some(e),
            _ => false,
        }
    } else if name == "health"@ {
        match request {
            Ok(ToolRequest::Health) => crate::mcp::code::any_argument(args) is None,
            Err(e) => crate::mcp::code::any_argument(args) == Some(e),
            _ => false,
        }
    } else if name == "remember"@ {
        match request {
            Ok(ToolRequest::Remember(q)) => crate::mcp::memory_write::remember_in(args) == Ok::<
                Remember<Seq<char>>,
                Seq<char>,
            >(q@),
            Err(e) => crate::mcp::memory_write::remember_in(args) == Err::<
                Remember<Seq<char>>,
                Seq<char>,
            >(e),
            _ => false,
        }
    } else if name == "approve_memory_candidate"@ {
        match request {
            Ok(ToolRequest::ApproveMemoryCandidate { id }) => crate::mcp::memory_write::id_in(args)
                == Ok::<Seq<char>, Seq<char>>(id@),
            Err(e) => crate::mcp::memory_write::id_in(args) == Err::<Seq<char>, Seq<char>>(e),
            _ => false,
        }
    } else if name == "reject_memory_candidate"@ {
        match request {
            Ok(ToolRequest::RejectMemoryCandidate { id }) => crate::mcp::memory_write::id_in(args)
                == Ok::<Seq<char>, Seq<char>>(id@),
            Err(e) => crate::mcp::memory_write::id_in(args) == Err::<Seq<char>, Seq<char>>(e),
            _ => false,
        }
    } else if name == "edit_memory_candidate"@ {
        match request {
            Ok(ToolRequest::EditMemoryCandidate(q)) => crate::mcp::memory_write::edit_candidate_in(
                args,
                operation_fault,
            ) == Ok::<(Seq<char>, Option<JsonView>, Option<Seq<Seq<char>>>), Seq<char>>(
                (q.id@, q.proposed_operation.deep_view(), q.conflicts.deep_view()),
            ),
            Err(e) => crate::mcp::memory_write::edit_candidate_in(args, operation_fault) == Err::<
                (Seq<char>, Option<JsonView>, Option<Seq<Seq<char>>>),
                Seq<char>,
            >(e),
            _ => false,
        }
    } else if name == "edit_memory"@ {
        match request {
            Ok(ToolRequest::EditMemory(q)) => crate::mcp::memory_write::edit_memory_in(args)
                == Ok::<EditMemory<Seq<char>, crate::json::NumberView>, Seq<char>>(q@),
            Err(e) => crate::mcp::memory_write::edit_memory_in(args) == Err::<
                EditMemory<Seq<char>, crate::json::NumberView>,
                Seq<char>,
            >(e),
            _ => false,
        }
    } else if name == "retract_memory"@ {
        match request {
            Ok(ToolRequest::RetractMemory(q)) => crate::mcp::memory_write::versioned_in(args)
                == Ok::<Versioned<Seq<char>>, Seq<char>>(q@),
            Err(e) => crate::mcp::memory_write::versioned_in(args) == Err::<
                Versioned<Seq<char>>,
                Seq<char>,
            >(e),
            _ => false,
        }
    } else if name == "confirm_memory"@ {
        match request {
            Ok(ToolRequest::ConfirmMemory(q)) => crate::mcp::memory_write::versioned_in(args)
                == Ok::<Versioned<Seq<char>>, Seq<char>>(q@),
            Err(e) => crate::mcp::memory_write::versioned_in(args) == Err::<
                Versioned<Seq<char>>,
                Seq<char>,
            >(e),
            _ => false,
        }
    } else if name == "reject_memory"@ {
        match request {
            Ok(ToolRequest::RejectMemory(q)) => crate::mcp::memory_write::versioned_in(args)
                == Ok::<Versioned<Seq<char>>, Seq<char>>(q@),
            Err(e) => crate::mcp::memory_write::versioned_in(args) == Err::<
                Versioned<Seq<char>>,
                Seq<char>,
            >(e),
            _ => false,
        }
    } else if name == "merge_memories"@ {
        match request {
            Ok(ToolRequest::MergeMemories(q)) => crate::mcp::memory_write::merge_in(args) == Ok::<
                (Seq<char>, i64, Seq<(Seq<char>, i64)>),
                Seq<char>,
            >(
                (
                    q.survivor_id@,
                    q.survivor_expected_version,
                    crate::mcp::memory_write::versions(q.losers@),
                ),
            ),
            Err(e) => crate::mcp::memory_write::merge_in(args) == Err::<
                (Seq<char>, i64, Seq<(Seq<char>, i64)>),
                Seq<char>,
            >(e),
            _ => false,
        }
    } else if name == "give_feedback"@ {
        match request {
            Ok(ToolRequest::GiveFeedback { text }) => crate::mcp::memory_write::feedback_in(args)
                == Ok::<Seq<char>, Seq<char>>(text@),
            Err(e) => crate::mcp::memory_write::feedback_in(args) == Err::<Seq<char>, Seq<char>>(
                e,
            ),
            _ => false,
        }
    } else {
        request == Err::<ToolRequest, Seq<char>>("unknown tool: "@ + name)
    }
}

/// Reads the arguments of the tool `name`.
pub fn parse_request(name: &str, args: &JsonMap, operation_fault: Option<&str>) -> (r: Result<
    ToolRequest,
    String,
>)
    ensures
        asks(
            name@,
            args@,
            match operation_fault {
                Some(fault) => Some(fault@),
                None => None,
            },
            match r {
                Ok(request) => Ok(request),
                Err(message) => Err(message@),
            },
        ),
        r matches Ok(request) ==> tool_name(request) == name@,
{
    if same(name, "search_code") {
        Ok(ToolRequest::SearchCode(parse_search_code(args)?))
    } else if same(name, "get_file_context") {
        Ok(ToolRequest::GetFileContext { path: parse_get_file_context(args)? })
    } else if same(name, "project_overview") {
        parse_no_arguments(args)?;
        Ok(ToolRequest::ProjectOverview)
    } else if same(name, "recall") {
        Ok(ToolRequest::Recall(parse_recall(args)?))
    } else if same(name, "list_memory") {
        Ok(ToolRequest::ListMemory(parse_list_memory(args)?))
    } else if same(name, "list_memory_candidates") {
        Ok(ToolRequest::ListMemoryCandidates(parse_list_candidates(args)?))
    } else if same(name, "inspect_memory_evidence") {
        Ok(
            ToolRequest::InspectMemoryEvidence { memory_id: parse_inspect_memory_evidence(args)? },
        )
    } else if same(name, "stats") {
        parse_no_arguments(args)?;
        Ok(ToolRequest::Stats)
    } else if same(name, "health") {
        parse_no_arguments(args)?;
        Ok(ToolRequest::Health)
    } else if same(name, "remember") {
        Ok(ToolRequest::Remember(parse_remember(args)?))
    } else if same(name, "approve_memory_candidate") {
        Ok(ToolRequest::ApproveMemoryCandidate { id: parse_id(args)? })
    } else if same(name, "reject_memory_candidate") {
        Ok(ToolRequest::RejectMemoryCandidate { id: parse_id(args)? })
    } else if same(name, "edit_memory_candidate") {
        Ok(ToolRequest::EditMemoryCandidate(parse_edit_candidate(args, operation_fault)?))
    } else if same(name, "edit_memory") {
        Ok(ToolRequest::EditMemory(parse_edit_memory(args)?))
    } else if same(name, "retract_memory") {
        Ok(ToolRequest::RetractMemory(parse_versioned(args)?))
    } else if same(name, "confirm_memory") {
        Ok(ToolRequest::ConfirmMemory(parse_versioned(args)?))
    } else if same(name, "reject_memory") {
        Ok(ToolRequest::RejectMemory(parse_versioned(args)?))
    } else if same(name, "merge_memories") {
        Ok(ToolRequest::MergeMemories(parse_merge(args)?))
    } else if same(name, "give_feedback") {
        Ok(ToolRequest::GiveFeedback { text: parse_feedback(args)? })
    } else {
        Err(concat2("unknown tool: ", name))
    }
}

/// Routes a tool call. Without a store every call fails the same way, whatever it names and
/// whatever its arguments are.
pub fn route_tools_call(
    call: &ToolCall,
    store: bool,
    mode: &DaemonMode,
    operation_fault: Option<&str>,
) -> (r: Route)
    ensures
        match r {
            Route::Unavailable(failure) => !store && failure@ == no_store(mode@),
            Route::Tool(request) => store && asks(
                call.name@,
                call.arguments@,
                match operation_fault {
                    Some(fault) => Some(fault@),
                    None => None,
                },
                Ok(request),
            ),
            Route::Invalid(message) => store && asks(
                call.name@,
                call.arguments@,
                match operation_fault {
                    Some(fault) => Some(fault@),
                    None => None,
                },
                Err(message@),
            ),
        },
        r matches Route::Tool(request) ==> tool_name(request) == call.name@,
{
    if !store {
        return Route::Unavailable(store_unavailable(mode));
    }
    match parse_request(call.name.as_str(), &call.arguments, operation_fault) {
        Ok(request) => Route::Tool(request),
        Err(message) => Route::Invalid(message),
    }
}

/// Every tool of the catalog can be called.
pub proof fn law_every_advertised_tool_can_be_called(i: int)
    requires
        0 <= i < crate::mcp::catalog::tools().len(),
    ensures
        is_tool(crate::mcp::catalog::tools()[i].name),
{
    crate::mcp::catalog::lemma_rows();
}

/// A name that is no tool is refused, and nothing is asked for.
pub proof fn law_an_unknown_tool_is_refused(
    name: Seq<char>,
    args: Seq<(Seq<char>, JsonView)>,
    operation_fault: Option<Seq<char>>,
    request: Result<ToolRequest, Seq<char>>,
)
    requires
        !is_tool(name),
        asks(name, args, operation_fault, request),
    ensures
        request == Err::<ToolRequest, Seq<char>>("unknown tool: "@ + name),
{
}

/// What a tool is asked is a request of that very tool, whatever its arguments are.
pub proof fn law_a_request_is_for_the_tool_that_was_called(
    name: Seq<char>,
    args: Seq<(Seq<char>, JsonView)>,
    operation_fault: Option<Seq<char>>,
    request: ToolRequest,
)
    requires
        asks(name, args, operation_fault, Ok(request)),
    ensures
        tool_name(request) == name,
{
}

proof fn lemma_methods()
    ensures
        "initialize"@.len() == 10 && "initialize"@[0] == 'i',
        "ping"@.len() == 4,
        "tools/list"@.len() == 10 && "tools/list"@[0] == 't' && "tools/list"@[6] == 'l',
        "tools/call"@.len() == 10 && "tools/call"@[0] == 't' && "tools/call"@[6] == 'c',
        "admin/tail_calls"@.len() == 16 && "admin/tail_calls"@[7] == 'a',
        "admin/tool_stats"@.len() == 16 && "admin/tool_stats"@[7] == 'o',
        "admin/projects_list"@.len() == 19 && "admin/projects_list"@[6] == 'p',
        "admin/projects_reload"@.len() == 21,
        "admin/reconcile_now"@.len() == 19 && "admin/reconcile_now"@[6] == 'r',
{
    reveal_strlit("initialize");
    reveal_strlit("ping");
    reveal_strlit("tools/list");
    reveal_strlit("tools/call");
    reveal_strlit("admin/tail_calls");
    reveal_strlit("admin/tool_stats");
    reveal_strlit("admin/projects_list");
    reveal_strlit("admin/projects_reload");
    reveal_strlit("admin/reconcile_now");
}

/// Each method has the work done that it is named after, for the request that asked for it. What
/// the parameters are not good for is refused as that, and an unknown method as unknown.
pub proof fn law_a_method_does_what_it_is_named_after(
    id: JsonView,
    method: Seq<char>,
    params: Option<JsonView>,
    version: Seq<char>,
)
    ensures
        ({
            let step = method_step(id, method, params, version);
            &&& method == "ping"@ ==> step == Step::<
                Seq<char>,
                JsonView,
                Seq<(Seq<char>, JsonView)>,
            >::Answer(
                crate::mcp::jsonrpc::success_text(id, JsonView::Obj(Seq::empty())),
            )
            &&& method == "initialize"@ ==> step is Answer
            &&& method == "tools/list"@ ==> step is Answer
            &&& method == "admin/tail_calls"@ <==> step is TailCalls
            &&& method == "admin/tool_stats"@ <==> step is ToolStats
            &&& method == "admin/projects_list"@ <==> step is ProjectsList
            &&& method == "admin/projects_reload"@ <==> step is ProjectsReload
            &&& method == "tools/call"@ && crate::mcp::tools::tool_call_in(params) is Ok
                <==> step is Call
            &&& method == "admin/reconcile_now"@ && worktree_in(params) is Ok
                <==> step is ReconcileNow
            &&& step !is Silent
            &&& step matches Step::TailCalls { id: asked } ==> asked == id
            &&& step matches Step::ToolStats { id: asked } ==> asked == id
            &&& step matches Step::ProjectsList { id: asked } ==> asked == id
            &&& step matches Step::ProjectsReload { id: asked } ==> asked == id
            &&& step matches Step::Call { id: asked, name, arguments } ==> asked == id
                && crate::mcp::tools::tool_call_in(params) == Ok::<
                (Seq<char>, Seq<(Seq<char>, JsonView)>),
                Seq<char>,
            >((name, arguments))
            &&& step matches Step::ReconcileNow { id: asked, worktree_id } ==> asked == id && (
            params matches Some(JsonView::Obj(object)) && crate::json::lookup(
                object,
                "worktree_id"@,
            ) == Some(JsonView::Str(worktree_id)))
            &&& method != "initialize"@ && method != "ping"@ && method != "tools/list"@ && method
                != "tools/call"@ && method != "admin/tail_calls"@ && method != "admin/tool_stats"@
                && method != "admin/projects_list"@ && method != "admin/projects_reload"@
                && method != "admin/reconcile_now"@ ==> step == Step::<
                Seq<char>,
                JsonView,
                Seq<(Seq<char>, JsonView)>,
            >::Answer(
                crate::mcp::jsonrpc::error_text(id, -32601, "unknown method: "@ + method),
            )
        }),
{
    lemma_methods();
}

/// What a reconcile is asked for is the worktree that the parameters name; parameters that name
/// none are refused.
pub proof fn law_a_worktree_is_named_by_its_id(object: Seq<(Seq<char>, JsonView)>)
    ensures
        ({
            let named = crate::json::lookup(object, "worktree_id"@);
            &&& named matches Some(JsonView::Str(s)) ==> worktree_in(Some(JsonView::Obj(object)))
                == Ok::<Seq<char>, Seq<char>>(s)
            &&& !(named matches Some(JsonView::Str(_))) ==> worktree_in(
                Some(JsonView::Obj(object)),
            ) is Err
        }),
        worktree_in(None) is Err,
{
}

/// A message is work only where it is a whole request: an object with an id, of the version that
/// is spoken, with a method. What is wrong with it otherwise is answered to its id, or to nobody
/// in particular where its members cannot be read.
pub proof fn law_a_message_is_a_request(
    object: Seq<(Seq<char>, JsonView)>,
    id: JsonView,
    version: Seq<char>,
)
    requires
        crate::json::lookup(object, "id"@) == Some(id),
    ensures
        ({
            let step = message_step(JsonView::Obj(object), version);
            let spoken = crate::json::lookup(object, "jsonrpc"@);
            let method = crate::json::lookup(object, "method"@);
            let params = crate::json::lookup(object, "params"@);
            &&& spoken == Some(JsonView::Str("2.0"@)) ==> (method matches Some(JsonView::Str(m))
                ==> step == method_step(id, m, params, version))
            &&& spoken == Some(JsonView::Str("2.0"@)) && method is None ==> step == refuse(
                id,
                (-32600) as i64,
                "method is required"@,
            )
            &&& spoken is None && (method is None || method->Some_0 is Str) ==> step == refuse(
                id,
                (-32600) as i64,
                "jsonrpc must be \"2.0\""@,
            )
            &&& spoken matches Some(JsonView::Str(v)) ==> (v != "2.0"@ && (method is None
                || method->Some_0 is Str) ==> step == refuse(
                id,
                (-32600) as i64,
                "jsonrpc must be \"2.0\""@,
            ))
            &&& (spoken is Some && !(spoken->Some_0 is Str)) || (method is Some && !(
            method->Some_0 is Str)) ==> step is Answer && exists|why: Seq<char>|
                step == #[trigger] refuse(JsonView::Null, (-32600) as i64, why)
        }),
{
}

/// A refusal is an error response and a grant a successful one, each to the request's id.
pub proof fn law_a_refusal_is_an_error_response(
    id: JsonView,
    code: i64,
    message: Seq<char>,
    result: JsonView,
)
    ensures
        refuse(id, code, message) == StepView::Answer(
            crate::mcp::jsonrpc::error_text(id, code as int, message),
        ),
        grant(id, result) == StepView::Answer(crate::mcp::jsonrpc::success_text(id, result)),
{
}

/// A message that is no object is answered, to nobody in particular.
pub proof fn law_only_an_object_is_a_message(message: JsonView, version: Seq<char>)
    requires
        !(message is Obj),
    ensures
        message_step(message, version) == refuse(
            JsonView::Null,
            (-32600) as i64,
            "request must be a JSON object"@,
        ),
{
}

/// Work that succeeded is answered with its result, and work that failed with its error, to the
/// request that asked for it.
pub proof fn law_work_is_answered_by_its_outcome(
    id: JsonView,
    result: JsonView,
    code: i64,
    message: Seq<char>,
)
    ensures
        answer_text(id, Ok(result)) == crate::mcp::jsonrpc::success_text(id, result),
        answer_text(id, Err((code, message))) == crate::mcp::jsonrpc::error_text(
            id,
            code as int,
            message,
        ),
{
}

/// A list is answered under its name, whole and in its order.
pub proof fn law_a_list_is_answered_whole(name: Seq<char>, items: Seq<JsonView>)
    ensures
        crate::json::has_member(listed(name, items), name, JsonView::Arr(items)),
{
    crate::json::lemma_member(listed(name, items)->Obj_0, 0);
}

/// Without a supervisor the projects are said not to be available, and with one they are all
/// there, though there be none.
pub proof fn law_projects_are_available_with_a_supervisor(projects: Seq<JsonView>)
    ensures
        ({
            let with = projects_value(Some(projects));
            &&& crate::json::has_member(with, "available"@, JsonView::Bool(true))
            &&& crate::json::has_member(with, "projects"@, JsonView::Arr(projects))
        }),
        ({
            let without = projects_value(None);
            &&& crate::json::has_member(without, "available"@, JsonView::Bool(false))
            &&& crate::json::has_member(without, "projects"@, JsonView::Arr(Seq::empty()))
        }),
{
    crate::json::lemma_member(projects_value(Some(projects))->Obj_0, 0);
    crate::json::lemma_member(projects_value(Some(projects))->Obj_0, 1);
    crate::json::lemma_member(projects_value(None)->Obj_0, 0);
    crate::json::lemma_member(projects_value(None)->Obj_0, 1);
}

/// A reload is answered with how many tasks it started and how many it stopped.
pub proof fn law_a_reload_is_answered_with_its_counts(outcome: ReloadOutcome)
    ensures
        ({
            let with = reload_value(Some(outcome));
            &&& crate::json::has_member(with, "available"@, JsonView::Bool(true))
            &&& crate::json::has_member(
                with,
                "started"@,
                JsonView::integer(outcome.started as int),
            )
            &&& crate::json::has_member(
                with,
                "stopped"@,
                JsonView::integer(outcome.stopped as int),
            )
        }),
        ({
            let without = reload_value(None);
            &&& crate::json::has_member(without, "available"@, JsonView::Bool(false))
            &&& crate::json::has_member(without, "started"@, JsonView::integer(0))
            &&& crate::json::has_member(without, "stopped"@, JsonView::integer(0))
        }),
{
    let with = reload_value(Some(outcome))->Obj_0;
    crate::json::lemma_member(with, 0);
    crate::json::lemma_member(with, 1);
    crate::json::lemma_member(with, 2);
    let without = reload_value(None)->Obj_0;
    crate::json::lemma_member(without, 0);
    crate::json::lemma_member(without, 1);
    crate::json::lemma_member(without, 2);
}

/// A worktree that is not managed is an invalid parameter. Otherwise a reconcile was triggered,
/// or nothing is available for want of a supervisor.
pub proof fn law_a_reconcile_needs_a_managed_worktree(e: ReconcileNowError)
    ensures
        reconcile_value(Some(Err(e))) matches Err((code, _)) && code == -32602,
        reconcile_value(Some(Ok(()))) matches Ok(v) && crate::json::has_member(
            v,
            "available"@,
            JsonView::Bool(true),
        ),
        reconcile_value(None) matches Ok(v) && crate::json::has_member(
            v,
            "available"@,
            JsonView::Bool(false),
        ),
{
    crate::json::lemma_member(reconcile_value(Some(Ok(())))->Ok_0->Obj_0, 0);
    crate::json::lemma_member(reconcile_value(None)->Ok_0->Obj_0, 0);
}

/// Without a store every tool fails as on an incompatible one. A daemon that only migrates says
/// what it found.
pub proof fn law_no_store_is_an_incompatible_store(mode: DaemonMode<Seq<char>>)
    ensures
        no_store(mode) is IncompatibleStore,
        mode matches DaemonMode::MigrationOnly { reason } ==> no_store(mode)->IncompatibleStore_details
            == crate::mode::incompatibility(reason),
{
}

/// What tells the names of the tools apart: their lengths and their first characters.
proof fn lemma_tool_names()
    ensures
        "search_code"@.len() == 11 && "search_code"@[0] == 's',
        "get_file_context"@.len() == 16 && "get_file_context"@[0] == 'g',
        "project_overview"@.len() == 16 && "project_overview"@[0] == 'p',
        "recall"@.len() == 6 && "recall"@[0] == 'r',
        "list_memory"@.len() == 11 && "list_memory"@[0] == 'l',
        "list_memory_candidates"@.len() == 22 && "list_memory_candidates"@[0] == 'l',
        "inspect_memory_evidence"@.len() == 23 && "inspect_memory_evidence"@[0] == 'i',
        "stats"@.len() == 5 && "stats"@[0] == 's',
        "health"@.len() == 6 && "health"@[0] == 'h',
        "remember"@.len() == 8 && "remember"@[0] == 'r',
        "approve_memory_candidate"@.len() == 24 && "approve_memory_candidate"@[0] == 'a',
        "reject_memory_candidate"@.len() == 23 && "reject_memory_candidate"@[0] == 'r',
        "edit_memory_candidate"@.len() == 21 && "edit_memory_candidate"@[0] == 'e',
        "edit_memory"@.len() == 11 && "edit_memory"@[0] == 'e',
        "retract_memory"@.len() == 14 && "retract_memory"@[0] == 'r',
        "confirm_memory"@.len() == 14 && "confirm_memory"@[0] == 'c',
        "reject_memory"@.len() == 13 && "reject_memory"@[0] == 'r',
        "merge_memories"@.len() == 14 && "merge_memories"@[0] == 'm',
        "give_feedback"@.len() == 13 && "give_feedback"@[0] == 'g',
{
    reveal_strlit("search_code");
    reveal_strlit("get_file_context");
    reveal_strlit("project_overview");
    reveal_strlit("recall");
    reveal_strlit("list_memory");
    reveal_strlit("list_memory_candidates");
    reveal_strlit("inspect_memory_evidence");
    reveal_strlit("stats");
    reveal_strlit("health");
    reveal_strlit("remember");
    reveal_strlit("approve_memory_candidate");
    reveal_strlit("reject_memory_candidate");
    reveal_strlit("edit_memory_candidate");
    reveal_strlit("edit_memory");
    reveal_strlit("retract_memory");
    reveal_strlit("confirm_memory");
    reveal_strlit("reject_memory");
    reveal_strlit("merge_memories");
    reveal_strlit("give_feedback");
}

/// A request carries what its arguments say: ids, texts, paths and versions as they stand, and
/// nothing where a tool takes no arguments.
pub proof fn law_a_request_carries_its_arguments(
    name: Seq<char>,
    args: Seq<(Seq<char>, JsonView)>,
    operation_fault: Option<Seq<char>>,
    request: ToolRequest,
)
    requires
        asks(name, args, operation_fault, Ok(request)),
    ensures
        request matches ToolRequest::SearchCode(q) ==> crate::json::lookup(args, "query"@) == Some(
            JsonView::Str(q@.query),
        ),
        request matches ToolRequest::GetFileContext { path } ==> crate::json::lookup(
            args,
            "path"@,
        ) == Some(JsonView::Str(path@)),
        request is ProjectOverview || request is Stats || request is Health ==> args.len() == 0,
        request matches ToolRequest::Recall(q) ==> (crate::json::lookup(args, "query"@) matches Some(
            v,
        ) ==> v == JsonView::Str(q@.query)),
        request matches ToolRequest::Recall(q) ==> (crate::json::lookup(args, "limit"@) matches Some(
            v,
        ) ==> v == JsonView::integer(q@.limit as int)),
        request matches ToolRequest::ListMemory(q) ==> {
            &&& crate::json::lookup(args, "kind"@) is None <==> q.kind is None
            &&& crate::json::lookup(args, "kind"@) matches Some(v) ==> v == JsonView::Str(
                q.kind->Some_0.name(),
            )
            &&& crate::json::lookup(args, "limit"@) matches Some(v) ==> v == JsonView::integer(
                q.limit as int,
            )
            &&& crate::json::lookup(args, "offset"@) matches Some(v) ==> v == JsonView::integer(
                q.offset as int,
            )
        },
        request matches ToolRequest::ListMemoryCandidates(q) ==> {
            &&& crate::json::lookup(args, "state"@) is None <==> q.state is None
            &&& crate::json::lookup(args, "limit"@) matches Some(v) ==> v == JsonView::integer(
                q.limit as int,
            )
            &&& crate::json::lookup(args, "offset"@) matches Some(v) ==> v == JsonView::integer(
                q.offset as int,
            )
        },
        request matches ToolRequest::InspectMemoryEvidence { memory_id } ==> crate::json::lookup(
            args,
            "memory_id"@,
        ) == Some(JsonView::Str(memory_id@)),
        request matches ToolRequest::Remember(q) ==> {
            &&& crate::json::lookup(args, "text"@) == Some(JsonView::Str(q@.text))
            &&& crate::json::lookup(args, "kind"@) == Some(JsonView::Str(q.kind.name()))
        },
        request matches ToolRequest::ApproveMemoryCandidate { id } ==> crate::json::lookup(
            args,
            "id"@,
        ) == Some(JsonView::Str(id@)),
        request matches ToolRequest::RejectMemoryCandidate { id } ==> crate::json::lookup(
            args,
            "id"@,
        ) == Some(JsonView::Str(id@)),
        request matches ToolRequest::EditMemoryCandidate(q) ==> crate::json::lookup(args, "id"@)
            == Some(JsonView::Str(q.id@)),
        request matches ToolRequest::EditMemory(q) ==> {
            &&& crate::json::lookup(args, "id"@) == Some(JsonView::Str(q.id@))
            &&& crate::json::lookup(args, "expected_version"@) == Some(
                JsonView::integer(q.expected_version as int),
            )
        },
        request matches ToolRequest::RetractMemory(q) ==> {
            &&& crate::json::lookup(args, "id"@) == Some(JsonView::Str(q@.id))
            &&& crate::json::lookup(args, "expected_version"@) == Some(
                JsonView::integer(q.expected_version as int),
            )
        },
        request matches ToolRequest::ConfirmMemory(q) ==> {
            &&& crate::json::lookup(args, "id"@) == Some(JsonView::Str(q@.id))
            &&& crate::json::lookup(args, "expected_version"@) == Some(
                JsonView::integer(q.expected_version as int),
            )
        },
        request matches ToolRequest::RejectMemory(q) ==> {
            &&& crate::json::lookup(args, "id"@) == Some(JsonView::Str(q@.id))
            &&& crate::json::lookup(args, "expected_version"@) == Some(
                JsonView::integer(q.expected_version as int),
            )
        },
        request matches ToolRequest::MergeMemories(q) ==> crate::json::lookup(
            args,
            "survivor_id"@,
        ) == Some(JsonView::Str(q.survivor_id@)),
        request matches ToolRequest::GiveFeedback { text } ==> crate::json::lookup(args, "text"@)
            == Some(JsonView::Str(text@)),
{
    match request {
        ToolRequest::ListMemory(q) => {
            crate::mcp::memory::law_a_memory_listing_is_what_its_arguments_say(args, q);
        },
        ToolRequest::ListMemoryCandidates(q) => {
            crate::mcp::memory::law_a_candidate_listing_is_what_its_arguments_say(args, q);
        },
        ToolRequest::Remember(q) => {
            crate::mcp::memory_write::law_what_is_remembered_is_what_the_arguments_say(args, q@);
        },
        ToolRequest::MergeMemories(q) => {
            crate::mcp::memory_write::law_a_merge_is_what_its_arguments_say(
                args,
                (
                    q.survivor_id@,
                    q.survivor_expected_version,
                    crate::mcp::memory_write::versions(q.losers@),
                ),
                0,
            );
        },
        _ => {},
    }
}

/// A call is refused only for what is wrong with its own arguments, and in the words of its own
/// tool.
pub proof fn law_a_call_is_refused_by_its_own_tool(
    name: Seq<char>,
    args: Seq<(Seq<char>, JsonView)>,
    operation_fault: Option<Seq<char>>,
    request: Result<ToolRequest, Seq<char>>,
)
    requires
        asks(name, args, operation_fault, request),
    ensures
        name == "search_code"@ ==> {
            let read = crate::mcp::code::search_code_in(args);
            &&& request is Err <==> read is Err
            &&& request is Err ==> request->Err_0 == read->Err_0
        },
        name == "get_file_context"@ ==> {
            let read = crate::mcp::code::file_context_in(args);
            &&& request is Err <==> read is Err
            &&& request is Err ==> request->Err_0 == read->Err_0
        },
        name == "project_overview"@ ==> (request is Ok <==> args.len() == 0),
        name == "recall"@ ==> {
            let read = crate::mcp::memory::recall_in(args);
            &&& request is Err <==> read is Err
            &&& request is Err ==> request->Err_0 == read->Err_0
        },
        name == "list_memory"@ ==> {
            let read = crate::mcp::memory::list_memory_in(args);
            &&& request is Err <==> read is Err
            &&& request is Err ==> request->Err_0 == read->Err_0
        },
        name == "list_memory_candidates"@ ==> {
            let read = crate::mcp::memory::list_candidates_in(args);
            &&& request is Err <==> read is Err
            &&& request is Err ==> request->Err_0 == read->Err_0
        },
        name == "inspect_memory_evidence"@ ==> {
            let read = crate::mcp::memory::inspect_in(args);
            &&& request is Err <==> read is Err
            &&& request is Err ==> request->Err_0 == read->Err_0
        },
        name == "stats"@ ==> (request is Ok <==> args.len() == 0),
        name == "health"@ ==> (request is Ok <==> args.len() == 0),
        name == "remember"@ ==> {
            let read = crate::mcp::memory_write::remember_in(args);
            &&& request is Err <==> read is Err
            &&& request is Err ==> request->Err_0 == read->Err_0
        },
        name == "approve_memory_candidate"@ ==> {
            let read = crate::mcp::memory_write::id_in(args);
            &&& request is Err <==> read is Err
            &&& request is Err ==> request->Err_0 == read->Err_0
        },
        name == "reject_memory_candidate"@ ==> {
            let read = crate::mcp::memory_write::id_in(args);
            &&& request is Err <==> read is Err
            &&& request is Err ==> request->Err_0 == read->Err_0
        },
        name == "edit_memory_candidate"@ ==> {
            let read = crate::mcp::memory_write::edit_candidate_in(args, operation_fault);
            &&& request is Err <==> read is Err
            &&& request is Err ==> request->Err_0 == read->Err_0
        },
        name == "edit_memory"@ ==> {
            let read = crate::mcp::memory_write::edit_memory_in(args);
            &&& request is Err <==> read is Err
            &&& request is Err ==> request->Err_0 == read->Err_0
        },
        name == "retract_memory"@ ==> {
            let read = crate::mcp::memory_write::versioned_in(args);
            &&& request is Err <==> read is Err
            &&& request is Err ==> request->Err_0 == read->Err_0
        },
        name == "confirm_memory"@ ==> {
            let read = crate::mcp::memory_write::versioned_in(args);
            &&& request is Err <==> read is Err
            &&& request is Err ==> request->Err_0 == read->Err_0
        },
        name == "reject_memory"@ ==> {
            let read = crate::mcp::memory_write::versioned_in(args);
            &&& request is Err <==> read is Err
            &&& request is Err ==> request->Err_0 == read->Err_0
        },
        name == "merge_memories"@ ==> {
            let read = crate::mcp::memory_write::merge_in(args);
            &&& request is Err <==> read is Err
            &&& request is Err ==> request->Err_0 == read->Err_0
        },
        name == "give_feedback"@ ==> {
            let read = crate::mcp::memory_write::feedback_in(args);
            &&& request is Err <==> read is Err
            &&& request is Err ==> request->Err_0 == read->Err_0
        },
{
    lemma_tool_names();
}

} // verus!
