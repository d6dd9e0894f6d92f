use local_rag::indexing::supervisor::{ProjectStatus, ReconcileNowError, ReloadOutcome};
use local_rag::json::{parse_json, Json, JsonList, JsonMap};
use local_rag::mcp::content::ok;
use local_rag::mcp::dispatch::{
    answer, answer_call, dispatch, projects_list_result, projects_reload_result,
    reconcile_now_result, route_tools_call, store_unavailable, tail_calls_result,
    tool_stats_result, Route, Step, ToolRequest,
};
use local_rag::mcp::jsonrpc::{INVALID_PARAMS, INVALID_REQUEST, METHOD_NOT_FOUND};
use local_rag::mcp::tools::ToolCall;
use local_rag::mode::{DaemonMode, MigrationOnlyReason};

fn step(text: &str) -> Step {
    dispatch(text, "1.0.0").expect("the text is JSON")
}

fn answered(text: &str) -> Json {
    match step(text) {
        Step::Answer(body) => parse_json(&body).expect("an answer is JSON"),
        other => panic!("expected an answer, got {other:?}"),
    }
}

fn member<'a>(value: &'a Json, key: &str) -> &'a Json {
    match value {
        Json::Obj(map) => map.get(key).unwrap_or(&Json::Null),
        other => panic!("expected an object, got {other:?}"),
    }
}

fn parsed(text: &str) -> Json {
    parse_json(text).expect("an answer is JSON")
}

#[test]
fn admin_tail_calls_answers_even_without_a_store() {
    let id = match step(r#"{"jsonrpc":"2.0","id":1,"method":"admin/tail_calls"}"#) {
        Step::TailCalls { id } => id,
        other => panic!("expected the recent calls to be asked for, got {other:?}"),
    };
    let call = JsonMap::new().with("tool", Json::string("recall")).json();
    let body = parsed(&answer(id, Ok(tail_calls_result(vec![call]))));
    let calls = match member(member(&body, "result"), "calls") {
        Json::Arr(calls) => calls,
        other => panic!("expected an array, got {other:?}"),
    };
    assert_eq!(member(&calls[0], "tool"), &Json::string("recall"));
}

#[test]
fn admin_tool_stats_reflects_recorded_calls() {
    let id = match step(r#"{"jsonrpc":"2.0","id":1,"method":"admin/tool_stats"}"#) {
        Step::ToolStats { id } => id,
        other => panic!("expected the statistics to be asked for, got {other:?}"),
    };
    let rows = vec![
        JsonMap::new().with("tool", Json::string("recall")).with("calls", Json::integer(1)).json(),
        JsonMap::new().with("tool", Json::string("search_code")).json(),
    ];
    let body = answer(id, Ok(tool_stats_result(rows)));
    assert_eq!(
        body,
        r#"{"jsonrpc":"2.0","id":1,"result":{"tools":[{"tool":"recall","calls":1},{"tool":"search_code"}]}}"#
    );
}

#[test]
fn an_empty_telemetry_state_answers_with_empty_arrays() {
    let id = match step(r#"{"jsonrpc":"2.0","id":1,"method":"admin/tail_calls"}"#) {
        Step::TailCalls { id } => id,
        other => panic!("expected the recent calls to be asked for, got {other:?}"),
    };
    let body = parsed(&answer(id, Ok(tail_calls_result(vec![]))));
    assert_eq!(member(member(&body, "result"), "calls"), &JsonList::new().json());
}

#[test]
fn all_three_admin_verbs_answer_unavailable_without_a_supervisor() {
    match step(r#"{"jsonrpc":"2.0","id":1,"method":"admin/projects_list"}"#) {
        Step::ProjectsList { .. } => {}
        other => panic!("expected the projects to be asked for, got {other:?}"),
    }
    assert_eq!(
        projects_list_result(None),
        JsonMap::new()
            .with("available", Json::boolean(false))
            .with("projects", JsonList::new().json())
            .json()
    );

    match step(r#"{"jsonrpc":"2.0","id":2,"method":"admin/projects_reload"}"#) {
        Step::ProjectsReload { .. } => {}
        other => panic!("expected a reload to be asked for, got {other:?}"),
    }
    assert_eq!(
        projects_reload_result(None),
        JsonMap::new()
            .with("available", Json::boolean(false))
            .with("started", Json::integer(0))
            .with("stopped", Json::integer(0))
            .json()
    );

    match step(
        r#"{"jsonrpc":"2.0","id":3,"method":"admin/reconcile_now","params":{"worktree_id":"any"}}"#,
    ) {
        Step::ReconcileNow { worktree_id, .. } => assert_eq!(worktree_id, "any"),
        other => panic!("expected a reconcile to be asked for, got {other:?}"),
    }
    assert_eq!(
        reconcile_now_result(None),
        Ok(JsonMap::new().with("available", Json::boolean(false)).json())
    );
}

#[test]
fn admin_reconcile_now_rejects_a_missing_worktree_id() {
    let body = answered(r#"{"jsonrpc":"2.0","id":1,"method":"admin/reconcile_now","params":{}}"#);
    assert_eq!(member(member(&body, "error"), "code"), &Json::integer(INVALID_PARAMS));
}

#[test]
fn a_supervisor_answers_for_its_projects() {
    let projects = vec![ProjectStatus {
        worktree_id: "wt".to_string(),
        enabled: true,
        registered_at: 1,
        updated_at: 2,
        task: None,
    }];
    assert_eq!(
        projects_list_result(Some(&projects)).to_text(),
        r#"{"available":true,"projects":[{"enabled":true,"registered_at":1,"task":null,"updated_at":2,"worktree_id":"wt"}]}"#
    );
    assert_eq!(
        projects_reload_result(Some(ReloadOutcome { started: 2, stopped: 1 })).to_text(),
        r#"{"available":true,"started":2,"stopped":1}"#
    );
    let (code, message) =
        reconcile_now_result(Some(Err(ReconcileNowError::NotManaged))).unwrap_err();
    assert_eq!(code, INVALID_PARAMS);
    assert_eq!(message, ReconcileNowError::NotManaged.message());
}

#[test]
fn a_notification_is_never_answered() {
    assert_eq!(step(r#"{"jsonrpc":"2.0","method":"notifications/initialized"}"#), Step::Silent);
    assert_eq!(step(r#"{"jsonrpc":"2.0","method":"no/such/method"}"#), Step::Silent);
}

#[test]
fn an_unknown_method_is_refused() {
    let body = answered(r#"{"jsonrpc":"2.0","id":5,"method":"no/such/method"}"#);
    assert_eq!(member(member(&body, "error"), "code"), &Json::integer(METHOD_NOT_FOUND));
    assert_eq!(member(&body, "id"), &Json::integer(5));
}

#[test]
fn a_message_that_is_no_object_is_no_request() {
    let body = answered("[1]");
    assert_eq!(member(member(&body, "error"), "code"), &Json::integer(INVALID_REQUEST));
}

#[test]
fn text_that_is_no_json_is_not_dispatched() {
    assert_eq!(dispatch("{", "1.0.0"), None);
}

#[test]
fn a_ping_is_answered_with_an_empty_object() {
    match step(r#"{"jsonrpc":"2.0","id":7,"method":"ping"}"#) {
        Step::Answer(body) => assert_eq!(body, r#"{"jsonrpc":"2.0","id":7,"result":{}}"#),
        other => panic!("expected an answer, got {other:?}"),
    }
}

fn call(name: &str, arguments: JsonMap) -> ToolCall {
    ToolCall { name: name.to_string(), arguments }
}

#[test]
fn a_tool_is_called_with_what_it_was_asked() {
    let text = r#"{"jsonrpc":"2.0","id":1,"method":"tools/call","params":{"name":"get_file_context","arguments":{"path":"src/a.rs"}}}"#;
    let (name, arguments) = match step(text) {
        Step::Call { name, arguments, .. } => (name, arguments),
        other => panic!("expected a call, got {other:?}"),
    };
    match route_tools_call(&call(&name, arguments), true, &DaemonMode::Normal, None) {
        Route::Tool(ToolRequest::GetFileContext { path }) => assert_eq!(path, "src/a.rs"),
        other => panic!("expected the tool, got {other:?}"),
    }
}

#[test]
fn an_unknown_tool_is_no_call() {
    match route_tools_call(&call("forget", JsonMap::new()), true, &DaemonMode::Normal, None) {
        Route::Invalid(message) => assert!(message.contains("forget"), "{message}"),
        other => panic!("expected a refusal, got {other:?}"),
    }
}

#[test]
fn without_a_store_the_mode_says_why() {
    let mode = DaemonMode::MigrationOnly {
        reason: MigrationOnlyReason::Other { detail: "drift".to_string() },
    };
    match route_tools_call(&call("stats", JsonMap::new()), false, &mode, None) {
        Route::Unavailable(failure) => assert_eq!(failure, store_unavailable(&mode)),
        other => panic!("expected no store, got {other:?}"),
    }
}

#[test]
fn a_result_is_carried_by_its_response() {
    let value = JsonMap::new().with("n", Json::integer(1)).json();
    assert_eq!(
        answer_call(Json::string("x"), &ok(&value)),
        r#"{"jsonrpc":"2.0","id":"x","result":{"content":[{"text":"{\"n\":1}","type":"text"}],"isError":false}}"#
    );
}
