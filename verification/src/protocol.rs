//! The messages that pass between the daemon and its clients.

use vstd::prelude::*;

verus! {

/// A client's first message.
#[derive(Debug, Clone, PartialEq, Eq)]
pub struct Hello<S = String> {
    pub proto: u16,
    pub proxy_version: S,
    pub session_id: S,
    pub worktree_root: Option<S>,
    pub harness: S,
}

/// The answer to a client that is understood.
#[derive(Debug, Clone, PartialEq, Eq)]
pub struct Welcome<S = String, C = Vec<String>> {
    pub proto: u16,
    pub daemon_version: S,
    pub store_instance_uuid: S,
    pub capabilities: C,
    pub mcp_passthrough_version: u32,
    pub spool_max_format_version: u32,
    pub mode: S,
}

/// The answer to a client that is not.
#[derive(Debug, Clone, PartialEq, Eq)]
pub struct Incompatible<S = String> {
    pub min_proto: u16,
    pub max_proto: u16,
    pub daemon_version: S,
}

/// Where a request comes from.
#[derive(Debug, Clone, PartialEq, Eq)]
pub struct RequestContext<S = String> {
    pub session_id: S,
    pub worktree_root: Option<S>,
    pub repo_hint: Option<S>,
}

/// One message, a line on the wire.
#[derive(Debug, Clone, PartialEq, Eq)]
pub enum Message<S = String, C = Vec<String>> {
    Hello(Hello<S>),
    Welcome(Welcome<S, C>),
    Incompatible(Incompatible<S>),
    /// A request, with the text of the JSON-RPC message it carries.
    Request { context: RequestContext<S>, mcp: S },
    /// The text of the JSON-RPC message that answers a request.
    Response { mcp: S },
    ShutdownRequest,
}

impl View for Hello<String> {
    type V = Hello<Seq<char>>;

    open spec fn view(&self) -> Hello<Seq<char>> {
        Hello {
            proto: self.proto,
            proxy_version: self.proxy_version@,
            session_id: self.session_id@,
            worktree_root: self.worktree_root.deep_view(),
            harness: self.harness@,
        }
    }
}

impl View for Welcome<String, Vec<String>> {
    type V = Welcome<Seq<char>, Seq<Seq<char>>>;

    open spec fn view(&self) -> Welcome<Seq<char>, Seq<Seq<char>>> {
        Welcome {
            proto: self.proto,
            daemon_version: self.daemon_version@,
            store_instance_uuid: self.store_instance_uuid@,
            capabilities: self.capabilities.deep_view(),
            mcp_passthrough_version: self.mcp_passthrough_version,
            spool_max_format_version: self.spool_max_format_version,
            mode: self.mode@,
        }
    }
}

impl View for Incompatible<String> {
    type V = Incompatible<Seq<char>>;

    open spec fn view(&self) -> Incompatible<Seq<char>> {
        Incompatible {
            min_proto: self.min_proto,
            max_proto: self.max_proto,
            daemon_version: self.daemon_version@,
        }
    }
}

impl View for RequestContext<String> {
    type V = RequestContext<Seq<char>>;

    open spec fn view(&self) -> RequestContext<Seq<char>> {
        RequestContext {
            session_id: self.session_id@,
            worktree_root: self.worktree_root.deep_view(),
            repo_hint: self.repo_hint.deep_view(),
        }
    }
}

impl View for Message<String, Vec<String>> {
    type V = Message<Seq<char>, Seq<Seq<char>>>;

    open spec fn view(&self) -> Message<Seq<char>, Seq<Seq<char>>> {
        match *self {
            Message::Hello(hello) => Message::Hello(hello@),
            Message::Welcome(welcome) => Message::Welcome(welcome@),
            Message::Incompatible(incompatible) => Message::Incompatible(incompatible@),
            Message::Request { context, mcp } => Message::Request { context: context@, mcp: mcp@ },
            Message::Response { mcp } => Message::Response { mcp: mcp@ },
            Message::ShutdownRequest => Message::ShutdownRequest,
        }
    }
}

} // verus!
