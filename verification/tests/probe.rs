use local_rag::json::{Json, JsonMap};
use local_rag::probe::{
    call_admin, fetch_welcome, probe_hello, CallAction, CallAdminError, CallEvent, CallStage,
};
use local_rag::protocol::{Incompatible, Message, Welcome};

fn welcome(uuid: &str) -> Message {
    Message::Welcome(Welcome {
        proto: 1,
        daemon_version: "0.0.0".to_string(),
        capabilities: Vec::new(),
        store_instance_uuid: uuid.to_string(),
        mcp_passthrough_version: 1,
        spool_max_format_version: 1,
        mode: "normal".to_string(),
    })
}

fn step(stage: CallStage, event: CallEvent) -> CallAction {
    call_admin(stage, event, 1, "9.9.9", "admin/projects_list", None)
}

fn answered(mcp: &str) -> Result<Json, CallAdminError> {
    let event = CallEvent::Received(Message::Response { mcp: mcp.to_string() });
    match step(CallStage::AwaitingAnswer, event) {
        CallAction::Finish(result) => result,
        other => panic!("expected the call to end, got {other:?}"),
    }
}

#[test]
fn a_live_daemon_answers_with_its_own_store_instance_uuid() {
    let found = fetch_welcome(Some(welcome("uuid-a"))).expect("a greeter answers");
    assert_eq!(found.store_instance_uuid, "uuid-a");
}

#[test]
fn a_different_daemon_answers_with_a_different_uuid() {
    let found = fetch_welcome(Some(welcome("uuid-different"))).expect("a greeter answers");
    assert_ne!(found.store_instance_uuid, "uuid-a");
}

#[test]
fn no_listener_at_all_is_none() {
    assert!(fetch_welcome(None).is_none());
}

#[test]
fn incompatible_proto_is_none() {
    let answer = Message::Incompatible(Incompatible {
        min_proto: 2,
        max_proto: 3,
        daemon_version: "9.9.9".to_string(),
    });
    assert!(fetch_welcome(Some(answer)).is_none());
}

#[test]
fn a_probe_belongs_to_no_worktree() {
    match probe_hello(1, "9.9.9") {
        Message::Hello(hello) => {
            assert_eq!(hello.session_id, "store-lock-liveness-probe");
            assert_eq!(hello.harness, "local-rag-liveness-probe");
            assert_eq!(hello.worktree_root, None);
            assert_eq!(hello.proxy_version, "9.9.9");
        }
        other => panic!("expected a hello, got {other:?}"),
    }
}

#[test]
fn a_call_greets_asks_and_listens() {
    match step(CallStage::Connecting, CallEvent::Done) {
        CallAction::Write(CallStage::SayingHello, Message::Hello(hello)) => {
            assert_eq!(hello.session_id, "local-rag-admin-client");
            assert_eq!(hello.harness, "local-rag-admin-client");
        }
        other => panic!("expected a hello, got {other:?}"),
    }
    assert_eq!(
        step(CallStage::SayingHello, CallEvent::Done),
        CallAction::Read(CallStage::AwaitingWelcome)
    );
    match step(CallStage::AwaitingWelcome, CallEvent::Received(welcome("u"))) {
        CallAction::Write(CallStage::Asking, Message::Request { context, mcp }) => {
            assert_eq!(context.session_id, "local-rag-admin-client");
            assert_eq!(context.worktree_root, None);
            assert_eq!(
                mcp,
                r#"{"id":1,"jsonrpc":"2.0","method":"admin/projects_list","params":null}"#
            );
        }
        other => panic!("expected a request, got {other:?}"),
    }
    assert_eq!(
        step(CallStage::Asking, CallEvent::Done),
        CallAction::Read(CallStage::AwaitingAnswer)
    );
}

#[test]
fn parameters_go_into_the_request() {
    let params = JsonMap::new().with("worktree_id", Json::string("wt")).json();
    let event = CallEvent::Received(welcome("u"));
    match call_admin(
        CallStage::AwaitingWelcome,
        event,
        1,
        "9.9.9",
        "admin/reconcile_now",
        Some(params),
    ) {
        CallAction::Write(_, Message::Request { mcp, .. }) => assert_eq!(
            mcp,
            r#"{"id":1,"jsonrpc":"2.0","method":"admin/reconcile_now","params":{"worktree_id":"wt"}}"#
        ),
        other => panic!("expected a request, got {other:?}"),
    }
}

#[test]
fn a_failure_before_the_request_is_unreachable_and_after_it_late() {
    for stage in [
        CallStage::Connecting,
        CallStage::SayingHello,
        CallStage::AwaitingWelcome,
        CallStage::Asking,
    ] {
        assert_eq!(
            step(stage, CallEvent::Failed),
            CallAction::Finish(Err(CallAdminError::Unreachable))
        );
    }
    assert_eq!(
        step(CallStage::AwaitingAnswer, CallEvent::Failed),
        CallAction::Finish(Err(CallAdminError::Timeout))
    );
    assert_eq!(
        step(CallStage::AwaitingWelcome, CallEvent::Received(Message::ShutdownRequest)),
        CallAction::Finish(Err(CallAdminError::Unreachable))
    );
    assert_eq!(answered("not json"), Err(CallAdminError::Timeout));
}

#[test]
fn an_answer_is_a_result_or_an_error() {
    assert_eq!(answered(r#"{"result":{"n":1}}"#), Ok(JsonMap::new().with("n", Json::integer(1)).json()));
    assert_eq!(answered("{}"), Ok(Json::Null));
    assert_eq!(answered("[]"), Ok(Json::Null));
    assert_eq!(
        answered(r#"{"error":{"code":-32602,"message":"no such worktree"}}"#),
        Err(CallAdminError::JsonRpcError { code: -32602, message: "no such worktree".to_string() })
    );
    assert_eq!(
        answered(r#"{"error":null,"result":1}"#),
        Err(CallAdminError::JsonRpcError { code: 0, message: String::new() })
    );
}

#[test]
fn a_failed_call_says_why() {
    assert_eq!(CallAdminError::<String>::Unreachable.message(), "the daemon is unreachable");
    assert_eq!(CallAdminError::<String>::Timeout.message(), "the daemon did not answer in time");
    assert_eq!(
        CallAdminError::JsonRpcError { code: -32602, message: "nope".to_string() }.message(),
        "JSON-RPC error -32602: nope"
    );
}
