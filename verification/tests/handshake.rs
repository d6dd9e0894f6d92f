use local_rag::handshake::{
    on_event, Connection, ConnectionAction, ConnectionEvent, EchoRequestHandler, Greeter,
    LineReader, ReadLine,
};
use local_rag::handshake_stub::greeting_line;
use local_rag::json::{parse_json, Json};
use local_rag::mode::{DaemonMode, MigrationOnlyReason};
use local_rag::protocol::{Hello, Message, RequestContext};

fn greeter() -> Greeter {
    Greeter {
        instance_uuid: "instance-a".to_string(),
        daemon_version: "0.0.0".to_string(),
        mcp_passthrough_version: 1,
        spool_max_format_version: 2,
        mode: "normal".to_string(),
    }
}

fn hello() -> Message {
    Message::Hello(Hello {
        proto: 1,
        proxy_version: "0.0.0".to_string(),
        session_id: "sess-1".to_string(),
        worktree_root: Some("/repo".to_string()),
        harness: "test-harness".to_string(),
    })
}

fn context(root: Option<&str>) -> RequestContext {
    RequestContext {
        session_id: "sess-1".to_string(),
        worktree_root: root.map(str::to_string),
        repo_hint: None,
    }
}

fn request(root: Option<&str>, mcp: &str) -> Message {
    Message::Request { context: context(root), mcp: mcp.to_string() }
}

fn received(message: Message) -> ConnectionEvent {
    ConnectionEvent::Received(Some(message))
}

fn open_session() -> Connection {
    let g = greeter();
    let (state, action) = on_event(Connection::AwaitingHello, received(hello()), &g);
    assert_eq!(action, ConnectionAction::Negotiate { proto: 1 });
    let (state, _) = on_event(state, ConnectionEvent::Negotiated(Ok(1)), &g);
    let (state, action) = on_event(state, ConnectionEvent::Written(true), &g);
    assert_eq!(action, ConnectionAction::Register);
    state
}

#[test]
fn compatible_hello_gets_welcome_with_the_negotiated_fields() {
    let g = greeter();
    let (state, _) = on_event(Connection::AwaitingHello, received(hello()), &g);
    let (_, action) = on_event(state, ConnectionEvent::Negotiated(Ok(1)), &g);
    match action {
        ConnectionAction::Write(Message::Welcome(w)) => {
            assert_eq!(w.proto, 1);
            assert_eq!(w.daemon_version, "0.0.0");
            assert_eq!(w.store_instance_uuid, "instance-a");
            assert!(w.capabilities.is_empty());
            assert_eq!(w.mode, "normal");
            assert_eq!(w.mcp_passthrough_version, 1);
            assert_eq!(w.spool_max_format_version, 2);
        }
        other => panic!("expected Welcome, got {other:?}"),
    }
}

#[test]
fn incompatible_proto_gets_incompatible_and_the_connection_closes() {
    let g = greeter();
    let (state, _) = on_event(Connection::AwaitingHello, received(hello()), &g);
    let (state, action) = on_event(state, ConnectionEvent::Negotiated(Err((2, 3))), &g);
    match action {
        ConnectionAction::Write(Message::Incompatible(i)) => {
            assert_eq!(i.min_proto, 2);
            assert_eq!(i.max_proto, 3);
            assert_eq!(i.daemon_version, "0.0.0");
        }
        other => panic!("expected Incompatible, got {other:?}"),
    }
    let (state, action) = on_event(state, ConnectionEvent::Written(true), &g);
    assert_eq!(state, Connection::Closed, "the connection must close after Incompatible");
    assert_eq!(action, ConnectionAction::Close);
}

#[test]
fn two_requests_on_one_connection_keep_their_own_context() {
    let g = greeter();
    let mut state = open_session();
    for (root, mcp) in [("/repo-a", r#"{"call":1}"#), ("/repo-b", r#"{"call":2}"#)] {
        let (handling, action) = on_event(state, received(request(Some(root), mcp)), &g);
        assert_eq!(
            action,
            ConnectionAction::Handle { context: context(Some(root)), mcp: mcp.to_string() },
            "each request's own context must survive independently"
        );
        let (answering, action) =
            on_event(handling, ConnectionEvent::Handled(Some("{}".to_string())), &g);
        assert_eq!(action, ConnectionAction::Write(Message::Response { mcp: "{}".to_string() }));
        let (serving, action) = on_event(answering, ConnectionEvent::Written(true), &g);
        assert_eq!(action, ConnectionAction::Read);
        state = serving;
    }
}

#[test]
fn shutdown_request_notifies_without_closing_the_connection() {
    let g = greeter();
    let state = open_session();
    let (state, action) = on_event(state, received(Message::ShutdownRequest), &g);
    assert_eq!(action, ConnectionAction::NotifyShutdown);
    let (_, action) = on_event(state, received(request(None, "{}")), &g);
    assert!(
        matches!(action, ConnectionAction::Handle { .. }),
        "the connection must stay open and keep answering after ShutdownRequest"
    );
}

#[test]
fn an_oversized_line_drops_the_connection_instead_of_growing_unbounded() {
    let max = 1024;
    let mut reader = LineReader::new();
    let oversized = vec![b'a'; max + 1];
    assert_eq!(reader.feed(&oversized, max), ReadLine::Over);

    let mut reader = LineReader::new();
    assert_eq!(reader.feed(&oversized[..max], max), ReadLine::More);
    assert_eq!(reader.feed(b"b", max), ReadLine::Over);
}

#[test]
fn a_handler_returning_none_writes_no_response_line() {
    let g = greeter();
    let (handling, _) = on_event(open_session(), received(request(None, "\"notify\"")), &g);
    let (state, action) = on_event(handling, ConnectionEvent::Handled(None), &g);
    assert_eq!(action, ConnectionAction::Read);
    let (handling, _) = on_event(state, received(request(None, "\"real-call\"")), &g);
    let (_, action) =
        on_event(handling, ConnectionEvent::Handled(Some("\"real-call\"".to_string())), &g);
    assert_eq!(
        action,
        ConnectionAction::Write(Message::Response { mcp: "\"real-call\"".to_string() }),
        "the notification must not have produced a stray response line"
    );
}

#[test]
fn anything_but_a_hello_first_closes_the_connection() {
    let g = greeter();
    for event in [
        ConnectionEvent::Received(None),
        received(Message::ShutdownRequest),
        received(request(None, "{}")),
    ] {
        let (state, action) = on_event(Connection::AwaitingHello, event, &g);
        assert_eq!(state, Connection::Closed);
        assert_eq!(action, ConnectionAction::Close);
    }
}

#[test]
fn a_second_hello_closes_the_session() {
    let (state, action) = on_event(open_session(), received(hello()), &greeter());
    assert_eq!(state, Connection::Closed);
    assert_eq!(action, ConnectionAction::Close);
}

#[test]
fn a_line_arrives_in_pieces() {
    let mut reader = LineReader::new();
    assert_eq!(reader.feed(b"he", 64), ReadLine::More);
    assert_eq!(
        reader.feed(b"llo\nnext", 64),
        ReadLine::Line { text: "hello".to_string(), taken: 4 }
    );
    assert_eq!(reader.feed(b"next\n", 64), ReadLine::Line { text: "next".to_string(), taken: 5 });
    assert_eq!(reader.feed(b"", 64), ReadLine::Over);
}

#[test]
fn a_line_is_text_or_it_is_none() {
    let mut reader = LineReader::new();
    let accented = "h\u{e9}\n".as_bytes();
    assert_eq!(
        reader.feed(accented, 64),
        ReadLine::Line { text: "h\u{e9}".to_string(), taken: accented.len() }
    );
    assert_eq!(reader.feed(&[0xff, b'\n'], 64), ReadLine::Over);
}

#[test]
fn an_echo_holds_the_context_and_the_request() {
    let answer = EchoRequestHandler.handle(r#"{"session_id":"s"}"#, r#"{"call":1}"#).unwrap();
    assert_eq!(
        answer,
        r#"{"echo":true,"context":{"session_id":"s"},"received":{"call":1}}"#
    );
    assert!(matches!(parse_json(&answer), Some(Json::Obj(_))));
}

#[test]
fn a_greeting_line_tells_the_mode_of_the_moment() {
    assert_eq!(
        greeting_line("instance-a", "0.0.0", &DaemonMode::Normal),
        "{\"instance_uuid\":\"instance-a\",\"daemon_version\":\"0.0.0\",\"mode\":\"normal\"}\n"
    );
    let confined = DaemonMode::MigrationOnly {
        reason: MigrationOnlyReason::Other { detail: "test".to_string() },
    };
    assert!(greeting_line("instance-a", "0.0.0", &confined).contains("migration_only"));
}
