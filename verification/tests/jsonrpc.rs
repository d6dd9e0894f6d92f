use local_rag::json::{parse_json, Json, JsonMap};
use local_rag::mcp::jsonrpc::{ErrorResponse, Request, Response, METHOD_NOT_FOUND};

fn obj(text: &str) -> JsonMap {
    match parse_json(text) {
        Some(Json::Obj(map)) => map,
        other => panic!("expected an object, got {other:?}"),
    }
}

#[test]
fn an_absent_id_parses_as_none() {
    let req = Request::parse(&obj(r#"{"jsonrpc":"2.0","method":"notifications/initialized"}"#))
        .unwrap();
    assert_eq!(req.id, None);
}

#[test]
fn a_present_null_id_parses_as_some_null() {
    let req = Request::parse(&obj(r#"{"jsonrpc":"2.0","id":null,"method":"ping"}"#)).unwrap();
    assert_eq!(req.id, Some(Json::Null));
}

#[test]
fn a_string_and_a_number_id_round_trip() {
    let req = Request::parse(&obj(r#"{"id":"abc","method":"ping"}"#)).unwrap();
    assert_eq!(req.id, Some(Json::string("abc")));

    let req = Request::parse(&obj(r#"{"id":42,"method":"ping"}"#)).unwrap();
    assert_eq!(req.id, Some(Json::integer(42)));
}

#[test]
fn a_non_string_method_is_rejected() {
    assert!(Request::parse(&obj(r#"{"id":1,"method":5}"#)).is_err());
}

#[test]
fn a_non_string_jsonrpc_is_rejected() {
    assert!(Request::parse(&obj(r#"{"jsonrpc":2,"id":1,"method":"ping"}"#)).is_err());
}

#[test]
fn success_response_serializes_in_declaration_order() {
    let body =
        Response::new(Json::integer(1), JsonMap::new().with("ok", Json::boolean(true)).json())
            .to_text();
    assert_eq!(body, r#"{"jsonrpc":"2.0","id":1,"result":{"ok":true}}"#);
}

#[test]
fn error_response_serializes_in_declaration_order() {
    let body = ErrorResponse::new(Json::Null, METHOD_NOT_FOUND, "nope").to_text();
    assert_eq!(body, r#"{"jsonrpc":"2.0","id":null,"error":{"code":-32601,"message":"nope"}}"#);
}
