use local_rag::failure::Failure;
use local_rag::json::{Json, JsonMap};
use local_rag::mcp::content::{err, ok, CallToolResult, Content};
use local_rag::mcp::reply::{fold, infra_err, ToolReply};

fn dummy(n: i64) -> Json {
    JsonMap::new().with("n", Json::integer(n)).json()
}

fn envelope(code: &str) -> Json {
    JsonMap::new().with("code", Json::string(code)).with("retryable", Json::boolean(false)).json()
}

fn text_of(result: &CallToolResult) -> &str {
    let Content::Text { text } = &result.content[0];
    text
}

#[test]
fn ok_wraps_compact_json_with_is_error_false() {
    let result = ok(&dummy(1));
    assert!(!result.is_error);
    assert_eq!(result.content.len(), 1);
    assert_eq!(text_of(&result), "{\"n\":1}");
}

#[test]
fn err_wraps_the_envelope_with_is_error_true() {
    let result = err(&envelope("WORKTREE_NOT_INDEXED"));
    assert!(result.is_error);
    let text = text_of(&result);
    assert!(text.contains("\"code\":\"WORKTREE_NOT_INDEXED\""), "{text}");
}

#[test]
fn call_tool_result_serializes_with_is_error_camel_case() {
    let body = ok(&dummy(7)).to_text();
    assert_eq!(
        body,
        "{\"content\":[{\"type\":\"text\",\"text\":\"{\\\"n\\\":7}\"}],\"isError\":false}"
    );
}

#[test]
fn every_error_code_maps_through_is_error_with_the_same_code_string() {
    for code in [
        "INDEX_UNAVAILABLE",
        "WORKTREE_NOT_INDEXED",
        "UNSUPPORTED_MODE",
        "PATH_NOT_INDEXED",
        "BUSY_RETRY",
        "MIGRATION_IN_PROGRESS",
        "STORE_LOCKED",
        "INCOMPATIBLE_STORE",
    ] {
        let result = err(&envelope(code));
        assert!(result.is_error);
        let text = text_of(&result);
        let expected_code = format!("\"code\":\"{code}\"");
        assert!(text.contains(&expected_code), "{text}");
    }
}

#[test]
fn infra_err_maps_to_index_unavailable_is_error_true() {
    let reply = infra_err("corrupt worktree id: not-a-uuid");
    let details = match &reply {
        ToolReply::Failed(Failure::IndexUnavailable { details }) => details.clone(),
        other => panic!("expected an unavailable index, got {other:?}"),
    };
    let made = JsonMap::new()
        .with("code", Json::string("INDEX_UNAVAILABLE"))
        .with("retryable", Json::boolean(false))
        .with("details", Json::string(&details))
        .json();
    let result = reply.into_result(made);
    assert!(result.is_error);
    let text = text_of(&result);
    assert!(text.contains("\"code\":\"INDEX_UNAVAILABLE\""), "{text}");
    assert!(text.contains("\"retryable\":false"), "{text}");
    assert!(text.contains("not-a-uuid"), "{text}");
}

#[test]
fn a_query_folds_to_its_value_its_envelope_or_an_unavailable_index() {
    let success = fold(Ok(Ok(dummy(3)))).into_result(Json::Null);
    assert!(!success.is_error);
    assert_eq!(text_of(&success), "{\"n\":3}");

    let failed = fold(Ok(Err(envelope("BUSY_RETRY")))).into_result(Json::Null);
    assert!(failed.is_error);
    assert!(text_of(&failed).contains("BUSY_RETRY"));

    let broken = fold(Err("disk".to_string()));
    assert_eq!(
        broken,
        ToolReply::Failed(Failure::IndexUnavailable { details: "disk".to_string() })
    );
}

#[test]
fn a_result_inside_a_response_has_its_members_in_the_order_of_their_keys() {
    assert_eq!(
        ok(&dummy(7)).to_value().to_text(),
        "{\"content\":[{\"text\":\"{\\\"n\\\":7}\",\"type\":\"text\"}],\"isError\":false}"
    );
}
