//! Talking to a running daemon without being a session: asking who it is, and calling one
//! administrative verb.

use vstd::prelude::*;

use crate::json::{parse_json, Json, JsonMap};
use crate::protocol::{Hello, Message, RequestContext, Welcome};
use crate::text::{concat4, decimal_i64};

verus! {

/// How long connecting and greeting may take, in milliseconds.
pub const LIVENESS_PROBE_TIMEOUT_MS: u64 = 1000;

/// The session that a question for the daemon's identity names.
pub const PROBE_SESSION_ID: &'static str = "store-lock-liveness-probe";

/// The client that asks for the daemon's identity.
pub const PROBE_HARNESS: &'static str = "local-rag-liveness-probe";

/// The session, and the client, that an administrative call names.
pub const ADMIN_CLIENT_SESSION_ID: &'static str = "local-rag-admin-client";

/// Why an administrative call has no result.
#[derive(Debug, Clone, PartialEq, Eq)]
pub enum CallAdminError<S = String> {
    /// No daemon was reached that could be greeted.
    Unreachable,
    /// The daemon was greeted, and its answer to the call did not come.
    Timeout,
    /// The daemon answered with an error.
    JsonRpcError { code: i64, message: S },
}

impl View for CallAdminError<String> {
    type V = CallAdminError<Seq<char>>;

    open spec fn view(&self) -> CallAdminError<Seq<char>> {
        match *self {
            CallAdminError::Unreachable => CallAdminError::Unreachable,
            CallAdminError::Timeout => CallAdminError::Timeout,
            CallAdminError::JsonRpcError { code, message } => CallAdminError::JsonRpcError {
                code,
                message: message@,
            },
        }
    }
}

/// What is said of a [`CallAdminError`].
pub open spec fn admin_error_text(e: CallAdminError<Seq<char>>) -> Seq<char> {
    match e {
        CallAdminError::Unreachable => "the daemon is unreachable"@,
        CallAdminError::Timeout => "the daemon did not answer in time"@,
        CallAdminError::JsonRpcError { code, message } => "JSON-RPC error "@
            + crate::text::decimal(code as int) + ": "@ + message,
    }
}

impl CallAdminError<String> {
    /// What went wrong, in words.
    pub fn message(&self) -> (r: String)
        ensures
            r@ == admin_error_text(self@),
    {
        match self {
            CallAdminError::Unreachable => "the daemon is unreachable".to_owned(),
            CallAdminError::Timeout => "the daemon did not answer in time".to_owned(),
            CallAdminError::JsonRpcError { code, message } => concat4(
                "JSON-RPC error ",
                decimal_i64(*code).as_str(),
                ": ",
                message.as_str(),
            ),
        }
    }
}

/// The greeting of a client that belongs to no worktree.
pub open spec fn one_shot_hello(
    proto: u16,
    version: Seq<char>,
    session_id: Seq<char>,
    harness: Seq<char>,
) -> Message<Seq<char>, Seq<Seq<char>>> {
    Message::Hello(
        Hello { proto, proxy_version: version, session_id, worktree_root: None, harness },
    )
}

fn hello(proto: u16, version: &str, session_id: &str, harness: &str) -> (r: Message)
    ensures
        r@ == one_shot_hello(proto, version@, session_id@, harness@),
{
    Message::Hello(
        Hello {
            proto,
            proxy_version: version.to_owned(),
            session_id: session_id.to_owned(),
            worktree_root: None,
            harness: harness.to_owned(),
        },
    )
}

/// How a question for the daemon's identity starts.
pub fn probe_hello(proto: u16, version: &str) -> (r: Message)
    ensures
        r@ == one_shot_hello(proto, version@, PROBE_SESSION_ID@, PROBE_HARNESS@),
{
    hello(proto, version, PROBE_SESSION_ID, PROBE_HARNESS)
}

/// The daemon's answer to that question. Anything but a welcome counts as no answer.
pub open spec fn welcome_in(answer: Option<Message>) -> Option<Welcome> {
    match answer {
        Some(Message::Welcome(welcome)) => Some(welcome),
        _ => None,
    }
}

/// The daemon's answer to that question.
pub fn fetch_welcome(answer: Option<Message>) -> (r: Option<Welcome>)
    ensures
        r == welcome_in(answer),
{
    match answer {
        Some(Message::Welcome(welcome)) => Some(welcome),
        _ => None,
    }
}

/// The call of `method`, as it goes to the daemon.
pub open spec fn admin_call(
    method: Seq<char>,
    params: Option<crate::json::JsonView>,
) -> crate::json::JsonView {
    crate::json::JsonView::Obj(
        crate::json::nothing().push(("id"@, crate::json::JsonView::integer(1))).push(
            ("jsonrpc"@, crate::json::JsonView::Str("2.0"@)),
        ).push(("method"@, crate::json::JsonView::Str(method))).push(
            (
                "params"@,
                match params {
                    Some(value) => value,
                    None => crate::json::JsonView::Null,
                },
            ),
        ),
    )
}

/// The request that carries the call of `method`.
pub open spec fn admin_request_message(
    method: Seq<char>,
    params: Option<crate::json::JsonView>,
) -> Message<Seq<char>, Seq<Seq<char>>> {
    Message::Request {
        context: RequestContext {
            session_id: ADMIN_CLIENT_SESSION_ID@,
            worktree_root: None,
            repo_hint: None,
        },
        mcp: crate::json::json_text(admin_call(method, params)),
    }
}

fn admin_request(method: &str, params: Option<Json>) -> (r: Message)
    ensures
        r@ == admin_request_message(method@, params.deep_view()),
{
    let value = match params {
        Some(value) => value,
        None => Json::Null,
    };
    let call = JsonMap::new().with("id", Json::integer(1)).with("jsonrpc", Json::string("2.0")).with(
        "method",
        Json::string(method),
    ).with("params", value).json();
    Message::Request {
        context: RequestContext {
            session_id: ADMIN_CLIENT_SESSION_ID.to_owned(),
            worktree_root: None,
            repo_hint: None,
        },
        mcp: call.to_text(),
    }
}

/// A member of an object; a value that is no object has none.
pub open spec fn member(value: crate::json::JsonView, key: Seq<char>) -> Option<
    crate::json::JsonView,
> {
    match value {
        crate::json::JsonView::Obj(object) => crate::json::lookup(object, key),
        _ => None,
    }
}

fn get<'a>(value: &'a Json, key: &str) -> (r: Option<&'a Json>)
    ensures
        match r {
            Some(v) => member(value@, key@) == Some(v@),
            None => member(value@, key@) is None,
        },
{
    broadcast use crate::json::lemma_view;

    match value {
        Json::Obj(map) => map.get(key),
        _ => None,
    }
}

/// The result of a call, from the JSON-RPC message that answered it.
pub open spec fn admin_result(response: crate::json::JsonView) -> Result<
    crate::json::JsonView,
    CallAdminError<Seq<char>>,
> {
    match member(response, "error"@) {
        Some(error) => Err(
            CallAdminError::JsonRpcError {
                code: match member(error, "code"@) {
                    Some(crate::json::JsonView::Num(n)) => match crate::json::int_of(n) {
                        Some(code) => code,
                        None => 0,
                    },
                    _ => 0,
                },
                message: match member(error, "message"@) {
                    Some(crate::json::JsonView::Str(message)) => message,
                    _ => Seq::empty(),
                },
            },
        ),
        None => Ok(
            match member(response, "result"@) {
                Some(result) => result,
                None => crate::json::JsonView::Null,
            },
        ),
    }
}

/// The result of a call, from the JSON-RPC message that answered it.
pub fn interpret(response: &Json) -> (r: Result<Json, CallAdminError>)
    ensures
        match r {
            Ok(v) => admin_result(response@) == Ok::<
                crate::json::JsonView,
                CallAdminError<Seq<char>>,
            >(v@),
            Err(e) => admin_result(response@) == Err::<
                crate::json::JsonView,
                CallAdminError<Seq<char>>,
            >(e@),
        },
{
    broadcast use crate::json::lemma_view;

    match get(response, "error") {
        Some(error) => {
            let code: i64 = match get(error, "code") {
                Some(Json::Num(n)) => match n.as_i64() {
                    Some(code) => code,
                    None => 0,
                },
                _ => 0,
            };
            let message = match get(error, "message") {
                Some(Json::Str(message)) => message.clone(),
                _ => String::new(),
            };
            Err(CallAdminError::JsonRpcError { code, message })
        },
        None => match get(response, "result") {
            Some(result) => Ok(result.clone()),
            None => Ok(Json::Null),
        },
    }
}

/// How far a call has come.
#[derive(Debug, Clone, Copy, PartialEq, Eq, Structural)]
pub enum CallStage {
    /// Connecting.
    Connecting,
    /// The greeting is being written.
    SayingHello,
    /// The welcome is awaited.
    AwaitingWelcome,
    /// The request is being written.
    Asking,
    /// The answer is awaited.
    AwaitingAnswer,
}

/// How a stage went.
#[derive(Debug, PartialEq, Eq)]
pub enum CallEvent<S = String, C = Vec<String>> {
    /// The connection stands, with its time limits, or the message was written.
    Done,
    /// A message was read.
    Received(Message<S, C>),
    /// The stage failed.
    Failed,
}

impl View for CallEvent<String, Vec<String>> {
    type V = CallEvent<Seq<char>, Seq<Seq<char>>>;

    open spec fn view(&self) -> CallEvent<Seq<char>, Seq<Seq<char>>> {
        match *self {
            CallEvent::Done => CallEvent::Done,
            CallEvent::Received(message) => CallEvent::Received(message@),
            CallEvent::Failed => CallEvent::Failed,
        }
    }
}

/// What is done next in a call.
#[derive(Debug, PartialEq, Eq)]
pub enum CallAction<S = String, J = Json, C = Vec<String>> {
    /// Write a message; the next stage awaits that it is written.
    Write(CallStage, Message<S, C>),
    /// Read a message.
    Read(CallStage),
    /// The call is over.
    Finish(Result<J, CallAdminError<S>>),
}

impl View for CallAction<String, Json, Vec<String>> {
    type V = CallAction<Seq<char>, crate::json::JsonView, Seq<Seq<char>>>;

    open spec fn view(&self) -> CallAction<Seq<char>, crate::json::JsonView, Seq<Seq<char>>> {
        match *self {
            CallAction::Write(stage, message) => CallAction::Write(stage, message@),
            CallAction::Read(stage) => CallAction::Read(stage),
            CallAction::Finish(Ok(value)) => CallAction::Finish(Ok(value@)),
            CallAction::Finish(Err(e)) => CallAction::Finish(Err(e@)),
        }
    }
}

/// What a failure in `stage` means: until the request is written the daemon counts as
/// unreachable, and after that as late.
pub open spec fn failure_in(stage: CallStage) -> CallAdminError<Seq<char>> {
    if stage is AwaitingAnswer {
        CallAdminError::Timeout
    } else {
        CallAdminError::Unreachable
    }
}

/// What follows `event` in `stage` of the call of `method`.
pub open spec fn call_step(
    stage: CallStage,
    event: CallEvent<Seq<char>, Seq<Seq<char>>>,
    proto: u16,
    version: Seq<char>,
    method: Seq<char>,
    params: Option<crate::json::JsonView>,
) -> CallAction<Seq<char>, crate::json::JsonView, Seq<Seq<char>>> {
    match (stage, event) {
        (CallStage::Connecting, CallEvent::Done) => CallAction::Write(
            CallStage::SayingHello,
            one_shot_hello(proto, version, ADMIN_CLIENT_SESSION_ID@, ADMIN_CLIENT_SESSION_ID@),
        ),
        (CallStage::SayingHello, CallEvent::Done) => CallAction::Read(CallStage::AwaitingWelcome),
        (CallStage::AwaitingWelcome, CallEvent::Received(Message::Welcome(_))) => CallAction::Write(
            CallStage::Asking,
            admin_request_message(method, params),
        ),
        (CallStage::Asking, CallEvent::Done) => CallAction::Read(CallStage::AwaitingAnswer),
        (CallStage::AwaitingAnswer, CallEvent::Received(Message::Response { mcp })) =>
        match crate::json::parsed_json(mcp) {
            Some(response) => CallAction::Finish(admin_result(response)),
            None => CallAction::Finish(Err(CallAdminError::Timeout)),
        },
        _ => CallAction::Finish(Err(failure_in(stage))),
    }
}

/// Takes the call of `method` one event further.
pub fn call_admin(
    stage: CallStage,
    event: CallEvent,
    proto: u16,
    version: &str,
    method: &str,
    params: Option<Json>,
) -> (r: CallAction)
    ensures
        r@ == call_step(stage, event@, proto, version@, method@, params.deep_view()),
{
    match stage {
        CallStage::Connecting => {
            if let CallEvent::Done = event {
                let message = hello(
                    proto,
                    version,
                    ADMIN_CLIENT_SESSION_ID,
                    ADMIN_CLIENT_SESSION_ID,
                );
                return CallAction::Write(CallStage::SayingHello, message);
            }
        },
        CallStage::SayingHello => {
            if let CallEvent::Done = event {
                return CallAction::Read(CallStage::AwaitingWelcome);
            }
        },
        CallStage::AwaitingWelcome => {
            if let CallEvent::Received(Message::Welcome(_)) = event {
                return CallAction::Write(CallStage::Asking, admin_request(method, params));
            }
        },
        CallStage::Asking => {
            if let CallEvent::Done = event {
                return CallAction::Read(CallStage::AwaitingAnswer);
            }
        },
        CallStage::AwaitingAnswer => {
            if let CallEvent::Received(Message::Response { mcp }) = event {
                return match parse_json(mcp.as_str()) {
                    Some(response) => match interpret(&response) {
                        Ok(value) => CallAction::Finish(Ok(value)),
                        Err(e) => CallAction::Finish(Err(e)),
                    },
                    None => CallAction::Finish(Err(CallAdminError::Timeout)),
                };
            }
            return CallAction::Finish(Err(CallAdminError::Timeout));
        },
    }
    CallAction::Finish(Err(CallAdminError::Unreachable))
}

/// A call gives a result, or the daemon's own error, only for an answer that followed the
/// request.
pub proof fn law_a_result_follows_the_request(
    stage: CallStage,
    event: CallEvent<Seq<char>, Seq<Seq<char>>>,
    proto: u16,
    version: Seq<char>,
    method: Seq<char>,
    params: Option<crate::json::JsonView>,
)
    ensures
        call_step(stage, event, proto, version, method, params) matches CallAction::Finish(r) ==> (
        r is Ok || (r matches Err(e) && e is JsonRpcError)) ==> stage is AwaitingAnswer
            && event is Received && event->Received_0 is Response,
{
}

/// Only a welcome tells who the daemon is, and it tells what it holds.
pub proof fn law_only_a_welcome_is_an_answer(answer: Option<Message>, welcome: Welcome)
    ensures
        welcome_in(Some(Message::Welcome(welcome))) == Some(welcome),
        welcome_in(None) is None,
        answer matches Some(message) ==> (!(message is Welcome) ==> welcome_in(answer) is None),
{
}

/// A client that belongs to no worktree greets as what it is and names no root.
pub proof fn law_a_one_shot_hello_names_no_root(
    proto: u16,
    version: Seq<char>,
    session_id: Seq<char>,
    harness: Seq<char>,
)
    ensures
        one_shot_hello(proto, version, session_id, harness) matches Message::Hello(hello) && {
            &&& hello.proto == proto
            &&& hello.proxy_version == version
            &&& hello.session_id == session_id
            &&& hello.worktree_root is None
            &&& hello.harness == harness
        },
{
}

/// A call names its method and its parameters, or null for none, as a request with an id.
pub proof fn law_a_call_names_its_method(
    method: Seq<char>,
    params: Option<crate::json::JsonView>,
)
    ensures
        ({
            let call = admin_call(method, params);
            &&& crate::json::has_member(call, "id"@, crate::json::JsonView::integer(1))
            &&& crate::json::has_member(call, "jsonrpc"@, crate::json::JsonView::Str("2.0"@))
            &&& crate::json::has_member(call, "method"@, crate::json::JsonView::Str(method))
            &&& params matches Some(value) ==> crate::json::has_member(call, "params"@, value)
            &&& params is None ==> crate::json::has_member(
                call,
                "params"@,
                crate::json::JsonView::Null,
            )
        }),
        admin_request_message(method, params) matches Message::Request { context, mcp } && {
            &&& context.session_id == ADMIN_CLIENT_SESSION_ID@
            &&& context.worktree_root is None
            &&& context.repo_hint is None
            &&& mcp == crate::json::json_text(admin_call(method, params))
        },
{
    let o = admin_call(method, params)->Obj_0;
    crate::json::lemma_member(o, 0);
    crate::json::lemma_member(o, 1);
    crate::json::lemma_member(o, 2);
    crate::json::lemma_member(o, 3);
}

/// An answer with an error is that error, by its code and its message, whatever else the answer
/// holds. One without is its result, or null where it has none.
pub proof fn law_an_answer_is_its_error_or_its_result(object: Seq<
    (Seq<char>, crate::json::JsonView),
>)
    ensures
        ({
            let answer = admin_result(crate::json::JsonView::Obj(object));
            let error = crate::json::lookup(object, "error"@);
            let result = crate::json::lookup(object, "result"@);
            &&& error is None && result is Some ==> answer == Ok::<
                crate::json::JsonView,
                CallAdminError<Seq<char>>,
            >(result->Some_0)
            &&& error is None && result is None ==> answer == Ok::<
                crate::json::JsonView,
                CallAdminError<Seq<char>>,
            >(crate::json::JsonView::Null)
            &&& error is Some ==> answer is Err && answer->Err_0 is JsonRpcError
            &&& error matches Some(crate::json::JsonView::Obj(e)) ==> {
                &&& crate::json::lookup(e, "message"@) matches Some(crate::json::JsonView::Str(m))
                    ==> answer->Err_0->message == m
                &&& crate::json::lookup(e, "code"@) matches Some(crate::json::JsonView::Num(
                    crate::json::NumberView::Int(code),
                )) ==> (i64::MIN <= code <= i64::MAX ==> answer->Err_0->code == code)
            }
        }),
{
}

/// A call connects, greets, is welcomed, asks and is answered, in this order. What fails before
/// the request is written leaves the daemon unreachable, and what fails after that leaves it
/// late.
pub proof fn law_a_call_goes_in_order(
    event: CallEvent<Seq<char>, Seq<Seq<char>>>,
    welcome: Welcome<Seq<char>, Seq<Seq<char>>>,
    mcp: Seq<char>,
    stage: CallStage,
    proto: u16,
    version: Seq<char>,
    method: Seq<char>,
    params: Option<crate::json::JsonView>,
)
    ensures
        call_step(CallStage::Connecting, CallEvent::Done, proto, version, method, params)
            == CallAction::<Seq<char>, crate::json::JsonView, Seq<Seq<char>>>::Write(
            CallStage::SayingHello,
            one_shot_hello(proto, version, ADMIN_CLIENT_SESSION_ID@, ADMIN_CLIENT_SESSION_ID@),
        ),
        call_step(CallStage::SayingHello, CallEvent::Done, proto, version, method, params)
            == CallAction::<Seq<char>, crate::json::JsonView, Seq<Seq<char>>>::Read(
            CallStage::AwaitingWelcome,
        ),
        call_step(
            CallStage::AwaitingWelcome,
            CallEvent::Received(Message::Welcome(welcome)),
            proto,
            version,
            method,
            params,
        ) == CallAction::<Seq<char>, crate::json::JsonView, Seq<Seq<char>>>::Write(
            CallStage::Asking,
            admin_request_message(method, params),
        ),
        call_step(CallStage::Asking, CallEvent::Done, proto, version, method, params)
            == CallAction::<Seq<char>, crate::json::JsonView, Seq<Seq<char>>>::Read(
            CallStage::AwaitingAnswer,
        ),
        ({
            let answered = call_step(
                CallStage::AwaitingAnswer,
                CallEvent::Received(Message::Response { mcp }),
                proto,
                version,
                method,
                params,
            );
            &&& crate::json::parsed_json(mcp) matches Some(response) ==> answered == CallAction::<
                Seq<char>,
                crate::json::JsonView,
                Seq<Seq<char>>,
            >::Finish(admin_result(response))
            &&& crate::json::parsed_json(mcp) is None ==> answered is Finish
                && answered->Finish_0 is Err && answered->Finish_0->Err_0 is Timeout
        }),
        ({
            let failed = call_step(stage, CallEvent::Failed, proto, version, method, params);
            &&& failed is Finish && failed->Finish_0 is Err
            &&& stage is AwaitingAnswer <==> failed->Finish_0->Err_0 is Timeout
            &&& stage !is AwaitingAnswer <==> failed->Finish_0->Err_0 is Unreachable
        }),
{
}

/// What is said of a call without a result says which way it failed.
pub proof fn law_a_failed_call_says_how(code: i64, message: Seq<char>)
    ensures
        admin_error_text(CallAdminError::Unreachable) == "the daemon is unreachable"@,
        admin_error_text(CallAdminError::Timeout) == "the daemon did not answer in time"@,
        admin_error_text(CallAdminError::JsonRpcError { code, message }) == "JSON-RPC error "@
            + crate::text::decimal(code as int) + ": "@ + message,
{
}

/// A call that fails once its request is written is late, and one that fails before that could
/// not reach the daemon.
pub proof fn law_only_an_awaited_answer_is_late(stage: CallStage)
    ensures
        failure_in(stage) is Timeout <==> stage is AwaitingAnswer,
        failure_in(stage) is Unreachable <==> !(stage is AwaitingAnswer),
{
}

/// An error without a code has the code zero, one without a message an empty one, and an answer
/// that is no object has no result.
pub proof fn law_what_an_incomplete_answer_means(
    object: Seq<(Seq<char>, crate::json::JsonView)>,
    answer: crate::json::JsonView,
)
    ensures
        crate::json::lookup(object, "error"@) matches Some(error) ==> (admin_result(
            crate::json::JsonView::Obj(object),
        ) matches Err(CallAdminError::JsonRpcError { code, message }) && {
            &&& member(error, "code"@) is None ==> code == 0
            &&& (member(error, "code"@) matches Some(v) && !(v is Num)) ==> code == 0
            &&& member(error, "code"@) matches Some(crate::json::JsonView::Num(
                crate::json::NumberView::Int(i),
            )) ==> (i < i64::MIN || i > i64::MAX ==> code == 0)
            &&& member(error, "message"@) is None ==> message.len() == 0
            &&& (member(error, "message"@) matches Some(v) && !(v is Str)) ==> message.len() == 0
        }),
        !(answer is Obj) ==> admin_result(answer) == Ok::<
            crate::json::JsonView,
            CallAdminError<Seq<char>>,
        >(crate::json::JsonView::Null),
{
}

} // verus!
