use local_rag::json::{Json, JsonMap};
use local_rag::mcp::instructions::{
    initialize_result, negotiate_protocol_version, PREFERRED_MCP_PROTOCOL, SERVER_INSTRUCTIONS,
};

fn member<'a>(value: &'a Json, key: &str) -> &'a Json {
    match value {
        Json::Obj(map) => map.get(key).expect("the member is there"),
        other => panic!("expected an object, got {other:?}"),
    }
}

#[test]
fn a_known_requested_version_is_echoed() {
    assert_eq!(negotiate_protocol_version(Some("2024-11-05")), "2024-11-05");
}

#[test]
fn an_unknown_requested_version_gets_the_preferred_one() {
    assert_eq!(negotiate_protocol_version(Some("1999-01-01")), PREFERRED_MCP_PROTOCOL);
}

#[test]
fn no_requested_version_gets_the_preferred_one() {
    assert_eq!(negotiate_protocol_version(None), PREFERRED_MCP_PROTOCOL);
}

#[test]
fn server_instructions_ask_for_english_and_exempt_identifiers() {
    assert!(
        SERVER_INSTRUCTIONS.contains("durable memory is kept in English"),
        "the language contract must be stated, not implied"
    );
    assert!(
        SERVER_INSTRUCTIONS.contains(
            "Keep identifiers, file paths, commit hashes, URLs, \
             numbers and quoted code verbatim"
        ),
        "asking for English without exempting identifiers would corrupt them"
    );
}

#[test]
fn initialize_result_carries_server_identity_and_instructions() {
    let result = initialize_result(None, "1.2.3");
    assert_eq!(member(member(&result, "serverInfo"), "name"), &Json::string("local-rag"));
    assert_eq!(member(member(&result, "serverInfo"), "version"), &Json::string("1.2.3"));
    assert_eq!(member(&result, "protocolVersion"), &Json::string(PREFERRED_MCP_PROTOCOL));
    assert_eq!(
        member(member(member(&result, "capabilities"), "tools"), "listChanged"),
        &Json::boolean(false)
    );
    match member(&result, "instructions") {
        Json::Str(text) => assert!(text.contains("search_code")),
        other => panic!("expected a string, got {other:?}"),
    }
}

#[test]
fn initialize_result_negotiates_the_clients_requested_version() {
    let params = JsonMap::new().with("protocolVersion", Json::string("2025-03-26")).json();
    let result = initialize_result(Some(&params), "1.2.3");
    assert_eq!(member(&result, "protocolVersion"), &Json::string("2025-03-26"));
}

#[test]
fn instructions_deliver_the_recall_search_code_think_act_remember_cycle() {
    assert!(SERVER_INSTRUCTIONS.contains("recall"));
    assert!(SERVER_INSTRUCTIONS.contains("remember"));
    assert!(SERVER_INSTRUCTIONS
        .contains("RECALL \u{2192} SEARCH_CODE \u{2192} THINK \u{2192} ACT \u{2192} REMEMBER"));
}
