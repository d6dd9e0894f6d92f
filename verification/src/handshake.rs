//! One connection: lines of bounded length, the greeting, and the requests that follow it.

use vstd::prelude::*;

use crate::protocol::{Incompatible, Message, RequestContext, Welcome};
use crate::text::concat5;

verus! {

/// The byte that ends a line.
pub const NEWLINE: u8 = 10;

/// The position of the first newline.
pub open spec fn first_newline(bytes: Seq<u8>) -> Option<int>
    decreases bytes.len(),
{
    if bytes.len() == 0 {
        None
    } else if bytes[0] == NEWLINE {
        Some(0)
    } else {
        match first_newline(bytes.drop_first()) {
            Some(i) => Some(i + 1),
            None => None,
        }
    }
}

/// The first newline is at `at` when there is one there and none before it.
proof fn lemma_first_newline_at(bytes: Seq<u8>, at: int)
    requires
        0 <= at <= bytes.len(),
        at < bytes.len() ==> bytes[at] == NEWLINE,
        forall|i: int| 0 <= i < at ==> #[trigger] bytes[i] != NEWLINE,
    ensures
        first_newline(bytes) == if at < bytes.len() {
            Some(at)
        } else {
            None::<int>
        },
    decreases bytes.len(),
{
    if bytes.len() > 0 && at > 0 {
        let rest = bytes.drop_first();
        assert(bytes[0] != NEWLINE);
        assert forall|i: int| 0 <= i < at - 1 implies #[trigger] rest[i] != NEWLINE by {
            assert(rest[i] == bytes[i + 1]);
        }
        lemma_first_newline_at(rest, at - 1);
    }
}

proof fn lemma_first_newline(bytes: Seq<u8>)
    ensures
        match first_newline(bytes) {
            Some(at) => {
                &&& 0 <= at < bytes.len()
                &&& bytes[at] == NEWLINE
                &&& forall|i: int| 0 <= i < at ==> #[trigger] bytes[i] != NEWLINE
            },
            None => forall|i: int| 0 <= i < bytes.len() ==> #[trigger] bytes[i] != NEWLINE,
        },
    decreases bytes.len(),
{
    if bytes.len() > 0 {
        let rest = bytes.drop_first();
        lemma_first_newline(rest);
        assert forall|i: int| 0 < i < bytes.len() implies #[trigger] bytes[i] == rest[i - 1] by {}
    }
}

/// Where a line stands after some more of it has come in.
pub enum LineView {
    /// The line so far; no newline has come.
    Partial(Seq<u8>),
    /// The line without its newline, and how much of the last piece it took.
    Whole { line: Seq<u8>, taken: int },
    /// The line is longer than is allowed.
    TooLong,
}

/// What has come in of a line once `more` is read after `line`, where a line has at most
/// `max` bytes.
pub open spec fn read_on(line: Seq<u8>, more: Seq<u8>, max: int) -> LineView {
    match first_newline(more) {
        Some(at) => if line.len() + at > max {
            LineView::TooLong
        } else {
            LineView::Whole { line: line + more.take(at), taken: at + 1 }
        },
        None => if line.len() + more.len() > max {
            LineView::TooLong
        } else {
            LineView::Partial(line + more)
        },
    }
}

/// A line is the same line in however many pieces it arrives.
pub proof fn law_pieces_do_not_matter(line: Seq<u8>, a: Seq<u8>, b: Seq<u8>, max: int)
    ensures
        read_on(line, a + b, max) == match read_on(line, a, max) {
            LineView::Partial(so_far) => match read_on(so_far, b, max) {
                LineView::Whole { line: whole, taken } => LineView::Whole {
                    line: whole,
                    taken: taken + a.len(),
                },
                other => other,
            },
            other => other,
        },
{
    let all = a + b;
    lemma_first_newline(a);
    lemma_first_newline(b);
    match first_newline(a) {
        Some(at) => {
            lemma_first_newline_at(all, at);
            assert(all.take(at) =~= a.take(at));
        },
        None => {
            match first_newline(b) {
                Some(at) => {
                    assert forall|i: int| 0 <= i < a.len() + at implies #[trigger] all[i]
                        != NEWLINE by {
                        if i >= a.len() {
                            assert(all[i] == b[i - a.len()]);
                        }
                    }
                    lemma_first_newline_at(all, a.len() + at);
                    assert(line + all.take(a.len() + at) =~= (line + a) + b.take(at));
                },
                None => {
                    assert forall|i: int| 0 <= i < all.len() implies #[trigger] all[i]
                        != NEWLINE by {
                        if i >= a.len() {
                            assert(all[i] == b[i - a.len()]);
                        }
                    }
                    lemma_first_newline_at(all, all.len() as int);
                    assert(line + all =~= (line + a) + b);
                },
            }
        },
    }
}

/// What is kept of a line never grows beyond what a line may have.
pub proof fn law_a_line_is_bounded(line: Seq<u8>, more: Seq<u8>, max: int)
    ensures
        match read_on(line, more, max) {
            LineView::Partial(so_far) => so_far.len() <= max,
            LineView::Whole { line: whole, taken } => whole.len() <= max && 0 < taken
                <= more.len(),
            LineView::TooLong => line.len() + more.len() > max,
        },
{
    lemma_first_newline(more);
}

/// `String::from_utf8`: the text that the bytes encode, where they are UTF-8.
#[verifier::external_body]
fn decode(bytes: Vec<u8>) -> (r: Option<String>)
    ensures
        match r {
            Some(text) => vstd::utf8::valid_utf8(bytes@) && text@ == vstd::utf8::decode_utf8(bytes@),
            None => !vstd::utf8::valid_utf8(bytes@),
        },
{
    String::from_utf8(bytes).ok()
}

/// What comes of reading a line.
#[derive(Debug, PartialEq, Eq)]
pub enum ReadLine {
    /// Everything was taken, and more is needed.
    More,
    /// A line, and how much of the piece it took, its newline included.
    Line { text: String, taken: usize },
    /// There is no line: it is too long or no text. The connection is over.
    Over,
}

/// A line that is being read.
#[derive(Debug)]
pub struct LineReader {
    line: Vec<u8>,
}

impl View for LineReader {
    type V = Seq<u8>;

    closed spec fn view(&self) -> Seq<u8> {
        self.line@
    }
}

impl LineReader {
    /// A line of which nothing has come in.
    pub fn new() -> (r: Self)
        ensures
            r@ == Seq::<u8>::empty(),
    {
        LineReader { line: Vec::new() }
    }

    /// Takes in the next piece of the line, which may hold at most `max` bytes. An empty
    /// piece says that nothing more will come. The line starts anew after it was read.
    pub fn feed(&mut self, piece: &[u8], max: usize) -> (r: ReadLine)
        ensures
            piece@.len() == 0 ==> r is Over,
            piece@.len() > 0 ==> match read_on(old(self)@, piece@, max as int) {
                LineView::Partial(so_far) => r is More && final(self)@ == so_far,
                LineView::Whole { line, taken } => {
                    &&& final(self)@ == Seq::<u8>::empty()
                    &&& if vstd::utf8::valid_utf8(line) {
                        r matches ReadLine::Line { text, taken: n } && text@
                            == vstd::utf8::decode_utf8(line) && n == taken
                    } else {
                        r is Over
                    }
                },
                LineView::TooLong => r is Over,
            },
            r is More ==> final(self)@.len() <= max,
    {
        if piece.len() == 0 {
            return ReadLine::Over;
        }
        let ghost before = self.line@;
        let mut at: usize = 0;
        while at < piece.len() && piece[at] != NEWLINE
            invariant
                at <= piece@.len(),
                forall|i: int| 0 <= i < at ==> #[trigger] piece@[i] != NEWLINE,
                self.line@ == before,
            decreases piece@.len() - at,
        {
            at = at + 1;
        }
        proof {
            lemma_first_newline_at(piece@, at as int);
        }
        if self.line.len() > max || at > max - self.line.len() {
            return ReadLine::Over;
        }
        let mut i: usize = 0;
        while i < at
            invariant
                i <= at <= piece@.len(),
                self.line@ == before + piece@.take(i as int),
            decreases at - i,
        {
            self.line.push(piece[i]);
            i = i + 1;
            proof {
                assert(self.line@ =~= before + piece@.take(i as int));
            }
        }
        if at == piece.len() {
            proof {
                assert(piece@.take(at as int) =~= piece@);
            }
            return ReadLine::More;
        }
        let mut line: Vec<u8> = Vec::new();
        std::mem::swap(&mut line, &mut self.line);
        match decode(line) {
            Some(text) => ReadLine::Line { text, taken: at + 1 },
            None => ReadLine::Over,
        }
    }
}

/// What the daemon says of itself to a client.
#[derive(Debug)]
pub struct Greeter<S = String> {
    pub instance_uuid: S,
    pub daemon_version: S,
    pub mcp_passthrough_version: u32,
    pub spool_max_format_version: u32,
    /// The name of the mode at this moment.
    pub mode: S,
}

impl View for Greeter<String> {
    type V = Greeter<Seq<char>>;

    open spec fn view(&self) -> Greeter<Seq<char>> {
        Greeter {
            instance_uuid: self.instance_uuid@,
            daemon_version: self.daemon_version@,
            mcp_passthrough_version: self.mcp_passthrough_version,
            spool_max_format_version: self.spool_max_format_version,
            mode: self.mode@,
        }
    }
}

/// The answer to a greeting, from the version that was agreed on, or else from the first
/// and the last version that are understood. The daemon has no capabilities to name.
pub open spec fn greeting_reply(
    agreed: Result<u16, (u16, u16)>,
    greeter: Greeter<Seq<char>>,
) -> Message<Seq<char>, Seq<Seq<char>>> {
    match agreed {
        Ok(proto) => Message::Welcome(
            Welcome {
                proto,
                daemon_version: greeter.daemon_version,
                store_instance_uuid: greeter.instance_uuid,
                capabilities: Seq::empty(),
                mcp_passthrough_version: greeter.mcp_passthrough_version,
                spool_max_format_version: greeter.spool_max_format_version,
                mode: greeter.mode,
            },
        ),
        Err((min_proto, max_proto)) => Message::Incompatible(
            Incompatible { min_proto, max_proto, daemon_version: greeter.daemon_version },
        ),
    }
}

/// The answer to a greeting.
pub fn greet(agreed: Result<u16, (u16, u16)>, greeter: &Greeter) -> (r: Message)
    ensures
        r@ == greeting_reply(agreed, greeter@),
{
    let capabilities: Vec<String> = Vec::new();
    proof {
        assert(capabilities.deep_view() =~= Seq::empty());
    }
    match agreed {
        Ok(proto) => Message::Welcome(
            Welcome {
                proto,
                daemon_version: greeter.daemon_version.clone(),
                store_instance_uuid: greeter.instance_uuid.clone(),
                capabilities,
                mcp_passthrough_version: greeter.mcp_passthrough_version,
                spool_max_format_version: greeter.spool_max_format_version,
                mode: greeter.mode.clone(),
            },
        ),
        Err((min_proto, max_proto)) => Message::Incompatible(
            Incompatible {
                min_proto,
                max_proto,
                daemon_version: greeter.daemon_version.clone(),
            },
        ),
    }
}

/// Where a connection stands.
#[derive(Debug, Clone, Copy, PartialEq, Eq, Structural)]
pub enum Connection {
    /// Nothing but a greeting is listened to.
    AwaitingHello,
    /// The version is being agreed on.
    Negotiating,
    /// The answer to the greeting is being written.
    Greeting { accepted: bool },
    /// The session is open.
    Serving,
    /// A request is being handled.
    Handling,
    /// The answer to a request is being written.
    Answering,
    Closed,
}

/// What happened on a connection.
#[derive(Debug, PartialEq, Eq)]
pub enum ConnectionEvent<S = String, C = Vec<String>> {
    /// A line was read and decoded, or there was none that could be.
    Received(Option<Message<S, C>>),
    /// The version that was agreed on, or else the first and the last one understood.
    Negotiated(Result<u16, (u16, u16)>),
    /// A request was handled. A notification has no answer.
    Handled(Option<S>),
    /// A message was written, or could not be.
    Written(bool),
}

/// What is done next on a connection.
#[derive(Debug, PartialEq, Eq)]
pub enum ConnectionAction<S = String, C = Vec<String>> {
    /// Agree on a version.
    Negotiate { proto: u16 },
    /// Write a message.
    Write(Message<S, C>),
    /// Count the session as open, and read on.
    Register,
    /// Read the next line.
    Read,
    /// Handle a request.
    Handle { context: RequestContext<S>, mcp: S },
    /// Ask the daemon to stop, and read on.
    NotifyShutdown,
    /// Close the connection.
    Close,
}

impl View for ConnectionEvent<String, Vec<String>> {
    type V = ConnectionEvent<Seq<char>, Seq<Seq<char>>>;

    open spec fn view(&self) -> ConnectionEvent<Seq<char>, Seq<Seq<char>>> {
        match *self {
            ConnectionEvent::Received(None) => ConnectionEvent::Received(None),
            ConnectionEvent::Received(Some(message)) => ConnectionEvent::Received(Some(message@)),
            ConnectionEvent::Negotiated(agreed) => ConnectionEvent::Negotiated(agreed),
            ConnectionEvent::Handled(answer) => ConnectionEvent::Handled(answer.deep_view()),
            ConnectionEvent::Written(written) => ConnectionEvent::Written(written),
        }
    }
}

impl View for ConnectionAction<String, Vec<String>> {
    type V = ConnectionAction<Seq<char>, Seq<Seq<char>>>;

    open spec fn view(&self) -> ConnectionAction<Seq<char>, Seq<Seq<char>>> {
        match *self {
            ConnectionAction::Negotiate { proto } => ConnectionAction::Negotiate { proto },
            ConnectionAction::Write(message) => ConnectionAction::Write(message@),
            ConnectionAction::Register => ConnectionAction::Register,
            ConnectionAction::Read => ConnectionAction::Read,
            ConnectionAction::Handle { context, mcp } => ConnectionAction::Handle {
                context: context@,
                mcp: mcp@,
            },
            ConnectionAction::NotifyShutdown => ConnectionAction::NotifyShutdown,
            ConnectionAction::Close => ConnectionAction::Close,
        }
    }
}

/// Where a connection stands after an event, and what is done then. What does not belong
/// where the connection stands closes it.
pub open spec fn connection_step(
    state: Connection,
    event: ConnectionEvent<Seq<char>, Seq<Seq<char>>>,
    greeter: Greeter<Seq<char>>,
) -> (Connection, ConnectionAction<Seq<char>, Seq<Seq<char>>>) {
    match (state, event) {
        (Connection::AwaitingHello, ConnectionEvent::Received(Some(Message::Hello(hello)))) => (
            Connection::Negotiating,
            ConnectionAction::Negotiate { proto: hello.proto },
        ),
        (Connection::Negotiating, ConnectionEvent::Negotiated(agreed)) => (
            Connection::Greeting { accepted: agreed is Ok },
            ConnectionAction::Write(greeting_reply(agreed, greeter)),
        ),
        (Connection::Greeting { accepted: true }, ConnectionEvent::Written(true)) => (
            Connection::Serving,
            ConnectionAction::Register,
        ),
        (
            Connection::Serving,
            ConnectionEvent::Received(Some(Message::Request { context, mcp })),
        ) => (Connection::Handling, ConnectionAction::Handle { context, mcp }),
        (Connection::Serving, ConnectionEvent::Received(Some(Message::ShutdownRequest))) => (
            Connection::Serving,
            ConnectionAction::NotifyShutdown,
        ),
        (Connection::Handling, ConnectionEvent::Handled(None)) => (
            Connection::Serving,
            ConnectionAction::Read,
        ),
        (Connection::Handling, ConnectionEvent::Handled(Some(mcp))) => (
            Connection::Answering,
            ConnectionAction::Write(Message::Response { mcp }),
        ),
        (Connection::Answering, ConnectionEvent::Written(true)) => (
            Connection::Serving,
            ConnectionAction::Read,
        ),
        _ => (Connection::Closed, ConnectionAction::Close),
    }
}

/// Takes a connection one event further.
pub fn on_event(
    state: Connection,
    event: ConnectionEvent,
    greeter: &Greeter,
) -> (r: (Connection, ConnectionAction))
    ensures
        (r.0, r.1@) == connection_step(state, event@, greeter@),
{
    match state {
        Connection::AwaitingHello => {
            if let ConnectionEvent::Received(Some(Message::Hello(hello))) = event {
                return (
                    Connection::Negotiating,
                    ConnectionAction::Negotiate { proto: hello.proto },
                );
            }
        },
        Connection::Negotiating => {
            if let ConnectionEvent::Negotiated(agreed) = event {
                let accepted = agreed.is_ok();
                return (
                    Connection::Greeting { accepted },
                    ConnectionAction::Write(greet(agreed, greeter)),
                );
            }
        },
        Connection::Greeting { accepted } => {
            if let ConnectionEvent::Written(written) = event {
                if accepted && written {
                    return (Connection::Serving, ConnectionAction::Register);
                }
            }
        },
        Connection::Serving => {
            if let ConnectionEvent::Received(Some(message)) = event {
                match message {
                    Message::Request { context, mcp } => {
                        return (
                            Connection::Handling,
                            ConnectionAction::Handle { context, mcp },
                        );
                    },
                    Message::ShutdownRequest => {
                        return (Connection::Serving, ConnectionAction::NotifyShutdown);
                    },
                    _ => {},
                }
            }
        },
        Connection::Handling => {
            if let ConnectionEvent::Handled(answer) = event {
                return match answer {
                    None => (Connection::Serving, ConnectionAction::Read),
                    Some(mcp) => (
                        Connection::Answering,
                        ConnectionAction::Write(Message::Response { mcp }),
                    ),
                };
            }
        },
        Connection::Answering => {
            if let ConnectionEvent::Written(written) = event {
                if written {
                    return (Connection::Serving, ConnectionAction::Read);
                }
            }
        },
        Connection::Closed => {},
    }
    (Connection::Closed, ConnectionAction::Close)
}

/// Where a new connection stands after `events`.
pub open spec fn connection_after(
    events: Seq<ConnectionEvent<Seq<char>, Seq<Seq<char>>>>,
    greeter: Greeter<Seq<char>>,
) -> Connection
    decreases events.len(),
{
    if events.len() == 0 {
        Connection::AwaitingHello
    } else {
        connection_step(connection_after(events.drop_last(), greeter), events.last(), greeter).0
    }
}

/// No request is handled before a version was agreed on and the welcome was written.
pub proof fn law_no_request_before_the_welcome(
    events: Seq<ConnectionEvent<Seq<char>, Seq<Seq<char>>>>,
    greeter: Greeter<Seq<char>>,
)
    ensures
        ({
            let state = connection_after(events, greeter);
            &&& (state is Serving || state is Handling || state is Answering) ==> exists|i: int|
                {
                    &&& 0 <= i < events.len()
                    &&& #[trigger] events[i] == ConnectionEvent::<
                        Seq<char>,
                        Seq<Seq<char>>,
                    >::Written(true)
                    &&& connection_after(events.take(i), greeter) == (Connection::Greeting {
                        accepted: true,
                    })
                }
            &&& state == (Connection::Greeting { accepted: true }) ==> exists|i: int|
                0 <= i < events.len() && (#[trigger] events[i] matches ConnectionEvent::Negotiated(
                    agreed,
                ) && agreed is Ok)
        }),
    decreases events.len(),
{
    if events.len() > 0 {
        let before = events.drop_last();
        let last = events.len() - 1;
        law_no_request_before_the_welcome(before, greeter);
        assert(events.take(last) =~= before);
        let state = connection_after(before, greeter);
        if state is Serving || state is Handling || state is Answering {
            let i = choose|i: int|
                {
                    &&& 0 <= i < before.len()
                    &&& #[trigger] before[i] == ConnectionEvent::<
                        Seq<char>,
                        Seq<Seq<char>>,
                    >::Written(true)
                    &&& connection_after(before.take(i), greeter) == (Connection::Greeting {
                        accepted: true,
                    })
                };
            assert(events[i] == before[i]);
            assert(events.take(i) =~= before.take(i));
        } else {
            assert(events[last] == events.last());
        }
    }
}

/// A connection that is closed stays closed.
pub proof fn law_closed_is_closed(
    event: ConnectionEvent<Seq<char>, Seq<Seq<char>>>,
    greeter: Greeter<Seq<char>>,
)
    ensures
        connection_step(Connection::Closed, event, greeter) == (
            Connection::Closed,
            ConnectionAction::<Seq<char>, Seq<Seq<char>>>::Close,
        ),
{
}

/// A request to shut down asks the daemon to stop and leaves the session open, so that its
/// client sees the connection end only once the daemon is done.
pub proof fn law_a_shutdown_request_keeps_the_session(greeter: Greeter<Seq<char>>)
    ensures
        connection_step(
            Connection::Serving,
            ConnectionEvent::Received(Some(Message::ShutdownRequest)),
            greeter,
        ) == (Connection::Serving, ConnectionAction::<Seq<char>, Seq<Seq<char>>>::NotifyShutdown),
{
}

/// Answers every request with what it received.
#[derive(Debug, Clone, Copy)]
pub struct EchoRequestHandler;

impl Default for EchoRequestHandler {
    fn default() -> Self {
        EchoRequestHandler
    }
}

/// The answer to the request `mcp` from `context`, both given as JSON text.
pub open spec fn echoed(context: Seq<char>, mcp: Seq<char>) -> Seq<char> {
    "{\"echo\":true,\"context\":"@ + context + ",\"received\":"@ + mcp + "}"@
}

impl EchoRequestHandler {
    /// The answer to the request `mcp` from `context`, both given as JSON text.
    pub fn handle(&self, context: &str, mcp: &str) -> (r: Option<String>)
        ensures
            r is Some,
            r->Some_0@ == echoed(context@, mcp@),
    {
        Some(concat5("{\"echo\":true,\"context\":", context, ",\"received\":", mcp, "}"))
    }
}

/// A line ends at its first newline and nowhere else. It is what came before the newline, all of
/// it, and the newline is taken with it.
pub proof fn law_a_line_ends_at_its_newline(
    line: Seq<u8>,
    text: Seq<u8>,
    rest: Seq<u8>,
    max: int,
)
    requires
        forall|i: int| 0 <= i < text.len() ==> #[trigger] text[i] != 10u8,
    ensures
        line.len() + text.len() <= max ==> read_on(line, text, max) == LineView::Partial(
            line + text,
        ),
        line.len() + text.len() <= max ==> read_on(line, text.push(10u8) + rest, max) == (
        LineView::Whole { line: line + text, taken: text.len() as int + 1 }),
        line.len() + text.len() > max ==> read_on(line, text, max) is TooLong,
        line.len() + text.len() > max ==> read_on(line, text.push(10u8) + rest, max) is TooLong,
{
    lemma_first_newline_at(text, text.len() as int);
    let all = text.push(10u8) + rest;
    assert(all[text.len() as int] == 10u8);
    assert forall|i: int| 0 <= i < text.len() implies #[trigger] all[i] != NEWLINE by {
        assert(all[i] == text[i]);
    }
    lemma_first_newline_at(all, text.len() as int);
    assert(all.take(text.len() as int) =~= text);
}

/// A welcome says what was agreed on and what the daemon is, and a refusal which versions it
/// understands.
pub proof fn law_a_greeting_is_answered_by_what_was_agreed(
    agreed: Result<u16, (u16, u16)>,
    greeter: Greeter<Seq<char>>,
)
    ensures
        agreed matches Ok(proto) ==> (greeting_reply(agreed, greeter) matches Message::Welcome(w)
            && {
            &&& w.proto == proto
            &&& w.daemon_version == greeter.daemon_version
            &&& w.store_instance_uuid == greeter.instance_uuid
            &&& w.capabilities.len() == 0
            &&& w.mcp_passthrough_version == greeter.mcp_passthrough_version
            &&& w.spool_max_format_version == greeter.spool_max_format_version
            &&& w.mode == greeter.mode
        }),
        agreed matches Err((first, last)) ==> (greeting_reply(
            agreed,
            greeter,
        ) matches Message::Incompatible(i) && {
            &&& i.min_proto == first
            &&& i.max_proto == last
            &&& i.daemon_version == greeter.daemon_version
        }),
{
}

/// A connection is greeted, then served: a hello has its version agreed on, the answer is
/// written, and only where a version was agreed on and the answer was written the session is
/// counted and read from. A request is handled as it came, from where it came, and answered by
/// what handling it gave, or, without an answer, read on at once.
pub proof fn law_a_connection_is_greeted_then_served(
    hello: crate::protocol::Hello<Seq<char>>,
    agreed: Result<u16, (u16, u16)>,
    context: RequestContext<Seq<char>>,
    mcp: Seq<char>,
    greeter: Greeter<Seq<char>>,
)
    ensures
        connection_step(
            Connection::AwaitingHello,
            ConnectionEvent::Received(Some(Message::Hello(hello))),
            greeter,
        ) == (
            Connection::Negotiating,
            ConnectionAction::<Seq<char>, Seq<Seq<char>>>::Negotiate { proto: hello.proto },
        ),
        connection_step(Connection::Negotiating, ConnectionEvent::Negotiated(agreed), greeter)
            == (
            Connection::Greeting { accepted: agreed is Ok },
            ConnectionAction::Write(greeting_reply(agreed, greeter)),
        ),
        connection_step(
            Connection::Greeting { accepted: true },
            ConnectionEvent::Written(true),
            greeter,
        ) == (Connection::Serving, ConnectionAction::<Seq<char>, Seq<Seq<char>>>::Register),
        connection_step(
            Connection::Serving,
            ConnectionEvent::Received(Some(Message::Request { context, mcp })),
            greeter,
        ) == (
            Connection::Handling,
            ConnectionAction::<Seq<char>, Seq<Seq<char>>>::Handle { context, mcp },
        ),
        connection_step(Connection::Handling, ConnectionEvent::Handled(Some(mcp)), greeter) == (
            Connection::Answering,
            ConnectionAction::Write(Message::<Seq<char>, Seq<Seq<char>>>::Response { mcp }),
        ),
        connection_step(Connection::Handling, ConnectionEvent::Handled(None), greeter) == (
            Connection::Serving,
            ConnectionAction::<Seq<char>, Seq<Seq<char>>>::Read,
        ),
        connection_step(Connection::Answering, ConnectionEvent::Written(true), greeter) == (
            Connection::Serving,
            ConnectionAction::<Seq<char>, Seq<Seq<char>>>::Read,
        ),
{
}

/// Whatever goes wrong closes the connection: a line that could not be read, an answer that
/// could not be written, a greeting that was refused, and a message that does not belong where
/// the connection stands.
pub proof fn law_what_goes_wrong_closes(
    state: Connection,
    message: Message<Seq<char>, Seq<Seq<char>>>,
    written: bool,
    greeter: Greeter<Seq<char>>,
)
    ensures
        connection_step(state, ConnectionEvent::Received(None), greeter).0 is Closed,
        connection_step(state, ConnectionEvent::Written(false), greeter).0 is Closed,
        connection_step(
            Connection::Greeting { accepted: false },
            ConnectionEvent::Written(written),
            greeter,
        ).0 is Closed,
        !(message is Hello) ==> connection_step(
            Connection::AwaitingHello,
            ConnectionEvent::Received(Some(message)),
            greeter,
        ).0 is Closed,
        !(message is Request || message is ShutdownRequest) ==> connection_step(
            Connection::Serving,
            ConnectionEvent::Received(Some(message)),
            greeter,
        ).0 is Closed,
        connection_step(state, ConnectionEvent::Received(Some(message)), greeter).0 is Closed
            <==> connection_step(
            state,
            ConnectionEvent::Received(Some(message)),
            greeter,
        ).1 is Close,
{
}

/// An echo holds where a request came from and what it was, as they came.
pub proof fn law_an_echo_holds_what_came(context: Seq<char>, mcp: Seq<char>)
    ensures
        echoed(context, mcp) == "{\"echo\":true,\"context\":"@ + context + ",\"received\":"@
            + mcp + "}"@,
{
}

} // verus!
