use local_rag::failure::Failure;
use local_rag::json::{Json, JsonMap};
use local_rag::mcp::code::{
    normalize_absolute_input, normalized_relative_path, parse_get_file_context, parse_no_arguments,
    parse_search_code, plan_path, PathPlan,
};
use local_rag::vocabulary::SearchMode;

#[test]
fn a_relative_path_is_normalized_directly() {
    assert_eq!(plan_path("src/a.rs", &None), PathPlan::Relative);
}

#[test]
fn a_relative_dot_dot_traversal_string_is_left_literal_not_resolved() {
    assert_eq!(plan_path("../../etc/passwd", &None), PathPlan::Relative);
}

#[test]
fn an_absolute_path_inside_the_worktree_is_stripped_to_relative() {
    let root = "/work/tree".to_string();
    assert_eq!(
        plan_path("/work/tree/src/a.rs", &Some(root.clone())),
        PathPlan::Resolve { root: root.clone() }
    );
    let resolved = normalize_absolute_input(
        &Some("/work/tree/src".to_string()),
        &Some("a.rs".to_string()),
        "/work/tree/src/a.rs",
    );
    let normalized = normalized_relative_path("/work/tree/src/a.rs", &resolved, &root).unwrap();
    assert_eq!(normalized, "src/a.rs");
}

#[test]
fn an_absolute_path_outside_the_worktree_is_path_not_indexed() {
    let resolved = normalize_absolute_input(
        &None,
        &Some("inside".to_string()),
        "/definitely/not/inside",
    );
    let err = normalized_relative_path("/definitely/not/inside", &resolved, "/work/tree")
        .unwrap_err();
    assert!(matches!(err, Failure::PathNotIndexed { .. }), "{err:?}");
}

#[test]
fn an_absolute_path_with_no_worktree_context_is_path_not_indexed() {
    match plan_path("/some/absolute/path", &None) {
        PathPlan::Refused(Failure::PathNotIndexed { path, .. }) => {
            assert_eq!(path, "/some/absolute/path")
        }
        other => panic!("expected a refusal, got {other:?}"),
    }
}

#[test]
fn a_sibling_whose_name_starts_like_the_root_is_outside_of_it() {
    assert!(normalized_relative_path("/work/tree2/a.rs", "/work/tree2/a.rs", "/work/tree").is_err());
}

#[test]
fn a_directory_that_resolves_elsewhere_is_followed() {
    assert_eq!(
        normalize_absolute_input(&Some("/private/var".to_string()), &Some("x".to_string()), "/var/x"),
        "/private/var/x"
    );
    assert_eq!(normalize_absolute_input(&None, &Some("x".to_string()), "/var/x"), "/var/x");
}

#[test]
fn searching_code_has_its_defaults_and_its_bounds() {
    let query = JsonMap::new().with("query", Json::string("parse"));
    let request = parse_search_code(&query).unwrap();
    assert_eq!(request.query, "parse");
    assert_eq!(request.mode, SearchMode::Hybrid);
    assert_eq!(request.limit, 10);
    assert_eq!(request.name_pattern, None);

    assert!(parse_search_code(&JsonMap::new()).is_err());
    let too_many =
        JsonMap::new().with("query", Json::string("parse")).with("limit", Json::integer(51));
    assert!(parse_search_code(&too_many).is_err());
    let unknown = JsonMap::new().with("query", Json::string("parse")).with("fuzzy", Json::Null);
    assert!(parse_search_code(&unknown).is_err());
}

#[test]
fn a_file_is_named_by_its_path_alone() {
    let args = JsonMap::new().with("path", Json::string("src/a.rs"));
    assert_eq!(parse_get_file_context(&args).unwrap(), "src/a.rs");
    assert!(parse_get_file_context(&JsonMap::new()).is_err());
    assert!(parse_no_arguments(&JsonMap::new()).is_ok());
    assert!(parse_no_arguments(&args).is_err());
}
