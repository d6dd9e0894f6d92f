//! JSON-RPC 2.0 envelopes: requests as they come in, responses as they go out.

use vstd::prelude::*;

use crate::json::{Json, JsonMap, JsonView};

verus! {

/// The text is not JSON. No message of this daemon gets this code, since a message that
/// is not JSON never reaches it; the code completes the vocabulary.
pub const PARSE_ERROR: i64 = -32700;

/// The message is not a request.
pub const INVALID_REQUEST: i64 = -32600;

/// No such method.
pub const METHOD_NOT_FOUND: i64 = -32601;

/// The parameters do not fit the method.
pub const INVALID_PARAMS: i64 = -32602;

/// A request or notification. An absent `id` makes it a notification, which is never
/// answered; an `id` of null is a request like any other.
#[derive(Debug, PartialEq, Eq)]
pub struct Request<S = String, J = Json> {
    pub jsonrpc: Option<S>,
    pub id: Option<J>,
    pub method: Option<S>,
    pub params: Option<J>,
}

impl View for Request<String, Json> {
    type V = Request<Seq<char>, JsonView>;

    open spec fn view(&self) -> Request<Seq<char>, JsonView> {
        Request {
            jsonrpc: self.jsonrpc.deep_view(),
            id: self.id.deep_view(),
            method: self.method.deep_view(),
            params: self.params.deep_view(),
        }
    }
}

/// A member that may be left out, and must be a string where it is there.
pub open spec fn optional_string(
    object: Seq<(Seq<char>, JsonView)>,
    key: Seq<char>,
) -> Result<Option<Seq<char>>, ()> {
    match crate::json::lookup(object, key) {
        None => Ok(None),
        Some(JsonView::Str(s)) => Ok(Some(s)),
        Some(_) => Err(()),
    }
}

/// The request that an object holds, or why it holds none.
pub open spec fn request_in(object: Seq<(Seq<char>, JsonView)>) -> Result<
    Request<Seq<char>, JsonView>,
    Seq<char>,
> {
    match (optional_string(object, "jsonrpc"@), optional_string(object, "method"@)) {
        (Err(_), _) => Err("\"jsonrpc\" must be a string"@),
        (Ok(_), Err(_)) => Err("\"method\" must be a string"@),
        (Ok(jsonrpc), Ok(method)) => Ok(
            Request {
                jsonrpc,
                id: crate::json::lookup(object, "id"@),
                method,
                params: crate::json::lookup(object, "params"@),
            },
        ),
    }
}

/// Reads a member that may be left out, and must be a string where it is there.
fn read_optional_string(map: &JsonMap, key: &str) -> (r: Result<Option<String>, ()>)
    ensures
        match r {
            Ok(s) => optional_string(map@, key@) == Ok::<Option<Seq<char>>, ()>(s.deep_view()),
            Err(_) => optional_string(map@, key@) is Err,
        },
{
    broadcast use crate::json::lemma_view;

    match map.get(key) {
        None => Ok(None),
        Some(Json::Str(s)) => Ok(Some(s.clone())),
        Some(_) => Err(()),
    }
}

impl Request<String, Json> {
    /// Reads a request. Every member may be absent; a member of the wrong type is the
    /// only failure.
    pub fn parse(map: &JsonMap) -> (r: Result<Request<String, Json>, String>)
        ensures
            match r {
                Ok(request) => request_in(map@) == Ok::<Request<Seq<char>, JsonView>, Seq<char>>(
                    request@,
                ),
                Err(message) => request_in(map@) == Err::<
                    Request<Seq<char>, JsonView>,
                    Seq<char>,
                >(message@),
            },
    {
        broadcast use crate::json::lemma_view;

        let jsonrpc = match read_optional_string(map, "jsonrpc") {
            Ok(s) => s,
            Err(_) => {
                return Err("\"jsonrpc\" must be a string".to_owned());
            },
        };
        let method = match read_optional_string(map, "method") {
            Ok(s) => s,
            Err(_) => {
                return Err("\"method\" must be a string".to_owned());
            },
        };
        let id = match map.get("id") {
            Some(v) => Some(v.clone()),
            None => None,
        };
        let params = match map.get("params") {
            Some(v) => Some(v.clone()),
            None => None,
        };
        Ok(Request { jsonrpc, id, method, params })
    }
}

/// A successful response.
#[derive(Debug, PartialEq, Eq)]
pub struct Response {
    pub jsonrpc: &'static str,
    pub id: Json,
    pub result: Json,
}

/// The members of a successful response, in the order in which they are written.
pub open spec fn success_members(version: Seq<char>, id: JsonView, result: JsonView) -> Seq<
    (Seq<char>, JsonView),
> {
    crate::json::nothing()
        .push(("jsonrpc"@, JsonView::Str(version)))
        .push(("id"@, id))
        .push(("result"@, result))
}

impl Response {
    /// The response to `id`.
    pub fn new(id: Json, result: Json) -> (r: Self)
        ensures
            r.jsonrpc@ == "2.0"@,
            r.id@ == id@,
            r.result@ == result@,
    {
        Response { jsonrpc: "2.0", id, result }
    }

    /// The response as text.
    pub fn to_text(self) -> (r: String)
        ensures
            r@ == crate::json::json_text(
                JsonView::Obj(success_members(self.jsonrpc@, self.id@, self.result@)),
            ),
    {
        JsonMap::new().with("jsonrpc", Json::string(self.jsonrpc)).with("id", self.id).with(
            "result",
            self.result,
        ).json().to_text()
    }
}

/// What went wrong with a request.
#[derive(Debug, PartialEq, Eq)]
pub struct RpcError {
    pub code: i64,
    pub message: String,
}

/// A response that reports an error.
#[derive(Debug, PartialEq, Eq)]
pub struct ErrorResponse {
    pub jsonrpc: &'static str,
    pub id: Json,
    pub error: RpcError,
}

/// The members of an error response, in the order in which they are written.
pub open spec fn error_members(
    version: Seq<char>,
    id: JsonView,
    code: int,
    message: Seq<char>,
) -> Seq<(Seq<char>, JsonView)> {
    crate::json::nothing().push(("jsonrpc"@, JsonView::Str(version))).push(("id"@, id)).push((
            "error"@,
            JsonView::Obj(
                crate::json::nothing()
                    .push(("code"@, JsonView::Num(crate::json::NumberView::Int(code))))
                    .push(("message"@, JsonView::Str(message))),
            )))
}

impl ErrorResponse {
    /// The error response to `id`.
    pub fn new(id: Json, code: i64, message: &str) -> (r: Self)
        ensures
            r.jsonrpc@ == "2.0"@,
            r.id@ == id@,
            r.error.code == code,
            r.error.message@ == message@,
    {
        ErrorResponse {
            jsonrpc: "2.0",
            id,
            error: RpcError { code, message: message.to_owned() },
        }
    }

    /// The response as text.
    pub fn to_text(self) -> (r: String)
        ensures
            r@ == crate::json::json_text(
                JsonView::Obj(
                    error_members(
                        self.jsonrpc@,
                        self.id@,
                        self.error.code as int,
                        self.error.message@,
                    ),
                ),
            ),
    {
        let error = JsonMap::new().with("code", Json::integer(self.error.code)).with(
            "message",
            Json::string(self.error.message.as_str()),
        ).json();
        JsonMap::new().with("jsonrpc", Json::string(self.jsonrpc)).with("id", self.id).with(
            "error",
            error,
        ).json().to_text()
    }
}

/// The text of a successful response.
pub open spec fn success_text(id: JsonView, result: JsonView) -> Seq<char> {
    crate::json::json_text(JsonView::Obj(success_members("2.0"@, id, result)))
}

/// The text of an error response.
pub open spec fn error_text(id: JsonView, code: int, message: Seq<char>) -> Seq<char> {
    crate::json::json_text(JsonView::Obj(error_members("2.0"@, id, code, message)))
}

/// A response answers the request whose id it carries: with a result, or with an error that says
/// its code and its message, and never with both.
pub proof fn law_a_response_carries_its_id(
    version: Seq<char>,
    id: JsonView,
    result: JsonView,
    code: int,
    message: Seq<char>,
)
    ensures
        ({
            let success = JsonView::Obj(success_members(version, id, result));
            &&& crate::json::has_member(success, "jsonrpc"@, JsonView::Str(version))
            &&& crate::json::has_member(success, "id"@, id)
            &&& crate::json::has_member(success, "result"@, result)
            &&& success_members(version, id, result).len() == 3
        }),
        ({
            let failure = JsonView::Obj(error_members(version, id, code, message));
            &&& crate::json::has_member(failure, "jsonrpc"@, JsonView::Str(version))
            &&& crate::json::has_member(failure, "id"@, id)
            &&& error_members(version, id, code, message).len() == 3
            &&& exists|error: JsonView|
                {
                    &&& #[trigger] crate::json::has_member(failure, "error"@, error)
                    &&& crate::json::has_member(error, "code"@, JsonView::integer(code))
                    &&& crate::json::has_member(error, "message"@, JsonView::Str(message))
                }
        }),
{
    let success = success_members(version, id, result);
    crate::json::lemma_member(success, 0);
    crate::json::lemma_member(success, 1);
    crate::json::lemma_member(success, 2);
    let failure = error_members(version, id, code, message);
    crate::json::lemma_member(failure, 0);
    crate::json::lemma_member(failure, 1);
    crate::json::lemma_member(failure, 2);
    let error = failure[2].1->Obj_0;
    crate::json::lemma_member(error, 0);
    crate::json::lemma_member(error, 1);
}

/// A request is what its object's members say, and a member of the wrong type is the only fault.
pub proof fn law_a_request_is_its_members(
    object: Seq<(Seq<char>, JsonView)>,
    request: Request<Seq<char>, JsonView>,
)
    ensures
        request_in(object) == Ok::<Request<Seq<char>, JsonView>, Seq<char>>(request) ==> {
            &&& request.id == crate::json::lookup(object, "id"@)
            &&& request.params == crate::json::lookup(object, "params"@)
            &&& request.method matches Some(s) ==> crate::json::lookup(object, "method"@) == Some(
                JsonView::Str(s),
            )
            &&& request.method is None ==> crate::json::lookup(object, "method"@) is None
            &&& request.jsonrpc matches Some(s) ==> crate::json::lookup(object, "jsonrpc"@)
                == Some(JsonView::Str(s))
            &&& request.jsonrpc is None ==> crate::json::lookup(object, "jsonrpc"@) is None
        },
        request_in(object) is Err <==> {
            ||| crate::json::lookup(object, "method"@) matches Some(v) && !(v is Str)
            ||| crate::json::lookup(object, "jsonrpc"@) matches Some(v) && !(v is Str)
        },
{
}

/// Every response is one object of the version `2.0` with the id of its request, and the result or
/// the error.
pub proof fn law_every_response_names_the_version(
    id: JsonView,
    result: JsonView,
    code: int,
    message: Seq<char>,
)
    ensures
        exists|value: JsonView|
            {
                &&& success_text(id, result) == #[trigger] crate::json::json_text(value)
                &&& crate::json::has_member(value, "jsonrpc"@, JsonView::Str("2.0"@))
                &&& crate::json::has_member(value, "id"@, id)
                &&& crate::json::has_member(value, "result"@, result)
            },
        exists|value: JsonView|
            {
                &&& error_text(id, code, message) == #[trigger] crate::json::json_text(value)
                &&& crate::json::has_member(value, "jsonrpc"@, JsonView::Str("2.0"@))
                &&& crate::json::has_member(value, "id"@, id)
            },
{
    law_a_response_carries_its_id("2.0"@, id, result, code, message);
    let success = JsonView::Obj(success_members("2.0"@, id, result));
    let failure = JsonView::Obj(error_members("2.0"@, id, code, message));
    assert(success_text(id, result) == crate::json::json_text(success));
    assert(error_text(id, code, message) == crate::json::json_text(failure));
}

} // verus!
