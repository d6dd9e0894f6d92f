use local_rag::json::{Json, JsonMap};
use local_rag::mcp::catalog::catalog;
use local_rag::mcp::tools::{list_params_ok, parse_tool_call, reject_unknown_keys, require_string};

fn member<'a>(value: &'a Json, key: &str) -> &'a Json {
    match value {
        Json::Obj(map) => map.get(key).expect("the member is there"),
        other => panic!("expected an object, got {other:?}"),
    }
}

fn text(value: &Json) -> &str {
    match value {
        Json::Str(text) => text,
        other => panic!("expected a string, got {other:?}"),
    }
}

fn tools(catalog: &Json) -> &[Json] {
    match member(catalog, "tools") {
        Json::Arr(items) => items,
        other => panic!("expected an array, got {other:?}"),
    }
}

fn names_where<'a>(catalog: &'a Json, hint: &str) -> Vec<&'a str> {
    let mut names = Vec::new();
    for tool in tools(catalog) {
        if member(member(tool, "annotations"), hint) == &Json::boolean(true) {
            names.push(text(member(tool, "name")));
        }
    }
    names
}

fn names(catalog: &Json) -> Vec<&str> {
    tools(catalog).iter().map(|t| text(member(t, "name"))).collect()
}

#[test]
fn catalog_advertises_all_seventeen_v0_tools_with_the_spec_fixed_names() {
    let catalog = catalog();
    assert_eq!(
        names(&catalog),
        [
            "search_code",
            "get_file_context",
            "project_overview",
            "recall",
            "list_memory",
            "list_memory_candidates",
            "inspect_memory_evidence",
            "stats",
            "health",
            "remember",
            "approve_memory_candidate",
            "reject_memory_candidate",
            "edit_memory_candidate",
            "edit_memory",
            "retract_memory",
            "merge_memories",
            "give_feedback",
        ]
    );
}

#[test]
fn catalog_never_exposes_the_v1_forget_or_consolidate_names() {
    let catalog = catalog();
    let names = names(&catalog);
    assert!(!names.contains(&"forget"), "{names:?}");
    assert!(!names.contains(&"consolidate"), "{names:?}");
}

#[test]
fn catalog_every_schema_forbids_additional_properties() {
    let catalog = catalog();
    for tool in tools(&catalog) {
        assert_eq!(
            member(member(tool, "inputSchema"), "additionalProperties"),
            &Json::boolean(false)
        );
    }
}

#[test]
fn catalog_every_tool_has_annotations() {
    let catalog = catalog();
    for tool in tools(&catalog) {
        let annotations = match member(tool, "annotations") {
            Json::Obj(map) => map,
            other => panic!("{other:?} is no annotations object"),
        };
        for key in ["title", "readOnlyHint", "destructiveHint", "idempotentHint", "openWorldHint"] {
            assert!(annotations.contains_key(key), "annotations missing {key}");
        }
        assert_eq!(annotations.get("openWorldHint"), Some(&Json::boolean(false)));
    }
}

#[test]
fn catalog_destructive_hint_is_true_only_for_retract_memory() {
    let catalog = catalog();
    assert_eq!(names_where(&catalog, "destructiveHint"), ["retract_memory"]);
}

#[test]
fn catalog_read_only_hint_matches_the_read_only_tool_list() {
    let catalog = catalog();
    assert_eq!(
        names_where(&catalog, "readOnlyHint"),
        [
            "search_code",
            "get_file_context",
            "project_overview",
            "recall",
            "list_memory",
            "list_memory_candidates",
            "inspect_memory_evidence",
            "stats",
            "health",
        ]
    );
}

#[test]
fn search_code_schema_requires_only_query() {
    let catalog = catalog();
    let required = member(member(&tools(&catalog)[0], "inputSchema"), "required");
    assert_eq!(required, &Json::array(vec![Json::string("query")]));
}

#[test]
fn catalog_serializes_identically_across_two_calls() {
    assert_eq!(catalog().to_text(), catalog().to_text());
}

#[test]
fn parse_tool_call_defaults_arguments_to_empty() {
    let params = JsonMap::new().with("name", Json::string("project_overview")).json();
    let call = parse_tool_call(Some(&params)).unwrap();
    assert_eq!(call.name, "project_overview");
    assert!(call.arguments.is_empty());
}

#[test]
fn parse_tool_call_rejects_a_missing_name() {
    assert!(parse_tool_call(Some(&JsonMap::new().json())).is_err());
}

#[test]
fn parse_tool_call_rejects_non_object_params() {
    assert!(parse_tool_call(Some(&Json::string("x"))).is_err());
    assert!(parse_tool_call(None).is_err());
}

#[test]
fn parse_tool_call_rejects_non_object_arguments() {
    let params = JsonMap::new()
        .with("name", Json::string("search_code"))
        .with("arguments", Json::string("x"))
        .json();
    assert!(parse_tool_call(Some(&params)).is_err());
}

#[test]
fn list_params_ok_rejects_a_cursor() {
    assert!(list_params_ok(Some(&JsonMap::new().with("cursor", Json::string("x")).json())).is_err());
    assert!(list_params_ok(None).is_ok());
    assert!(list_params_ok(Some(&JsonMap::new().json())).is_ok());
}

#[test]
fn require_string_distinguishes_missing_empty_and_wrong_type() {
    let mut args = JsonMap::new();
    assert!(require_string(&args, "q").is_err());
    args.insert("q", Json::string(""));
    assert!(require_string(&args, "q").is_err());
    args.insert("q", Json::integer(1));
    assert!(require_string(&args, "q").is_err());
    args.insert("q", Json::string("hi"));
    assert_eq!(require_string(&args, "q").unwrap(), "hi");
}

#[test]
fn reject_unknown_keys_flags_the_first_unrecognized_one() {
    let mut args = JsonMap::new();
    args.insert("query", Json::string("x"));
    assert!(reject_unknown_keys(&args, &["query", "mode"]).is_ok());
    args.insert("bogus", Json::boolean(true));
    assert!(reject_unknown_keys(&args, &["query", "mode"]).is_err());
}
