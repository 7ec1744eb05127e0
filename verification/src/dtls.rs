//! The DTLS echo service and its test client.

use crate::encoding::{lossy_text, utf8_lossy};
use vstd::prelude::*;
use vstd::slice::{slice_subrange, slice_to_vec};
use vstd::utf8::{
    decode_utf8, encode_utf8, encode_utf8_decode_utf8, encode_utf8_valid_utf8, valid_utf8,
};

verus! {

/// How many bytes the server reads at once.
pub const UDP_BUFFER_SIZE: usize = 17480;

/// How long, in milliseconds, the server waits for a client.
pub const UDP_TIMEOUT: u64 = 10 * 1000;

/// Where the server listens.
pub const LISTEN_ADDRESS: &'static str = "127.0.0.1:8989";

/// Where the test client connects to.
pub const CONNECT_ADDRESS: &'static str = "127.0.0.1:8080";

/// The name that the test client asks for.
pub const SERVER_DOMAIN: &'static str = "pourali.com";

/// How many bytes the test client reads at once.
pub const CLIENT_BUFFER_SIZE: usize = 1024;

/// What happens in a server session.
#[derive(Debug, Clone, Copy, PartialEq, Eq, Structural)]
pub enum EchoEvent {
    /// The handshake is done.
    Accepted,
    /// So many bytes were read to the front of the buffer.
    Read(usize),
    /// Reading failed.
    Failed,
    /// Nothing was read in time.
    TimedOut,
    /// The bytes to write are written.
    Written,
}

/// What the server does next in a session.
#[derive(Debug, Clone, PartialEq)]
pub enum SessionStep {
    /// Read, for at most so many milliseconds.
    Read(u64),
    /// Write these bytes.
    Echo(Vec<u8>),
    /// Give the connection up.
    Close,
}

/// What the server does next in a session.
#[verifier::ext_equal]
pub enum SessionStepView {
    Read(int),
    Echo(Seq<u8>),
    Close,
}

impl View for SessionStep {
    type V = SessionStepView;

    open spec fn view(&self) -> SessionStepView {
        match self {
            SessionStep::Read(within_ms) => SessionStepView::Read(*within_ms as int),
            SessionStep::Echo(bytes) => SessionStepView::Echo(bytes@),
            SessionStep::Close => SessionStepView::Close,
        }
    }
}

/// What the server does after an event, with this in its buffer.
pub open spec fn echo_step(buffer: Seq<u8>, event: EchoEvent) -> SessionStepView {
    match event {
        EchoEvent::Accepted | EchoEvent::Written => SessionStepView::Read(UDP_TIMEOUT as int),
        EchoEvent::Read(n) => SessionStepView::Echo(buffer.take(n as int)),
        EchoEvent::Failed | EchoEvent::TimedOut => SessionStepView::Close,
    }
}

/// One step of a server session. The server reads, waiting at most [`UDP_TIMEOUT`], and writes
/// back what it read; a read of no bytes too. A connection on which reading fails, or that is
/// silent for too long, is given up.
pub fn dtls_listener(buffer: &[u8], event: EchoEvent) -> (r: SessionStep)
    requires
        event matches EchoEvent::Read(n) ==> n <= buffer@.len(),
    ensures
        r@ == echo_step(buffer@, event),
{
    match event {
        EchoEvent::Accepted | EchoEvent::Written => SessionStep::Read(UDP_TIMEOUT),
        EchoEvent::Read(n) => SessionStep::Echo(slice_to_vec(slice_subrange(buffer, 0, n))),
        EchoEvent::Failed | EchoEvent::TimedOut => SessionStep::Close,
    }
}

/// An event, with what is in the buffer then.
pub struct EchoMoment {
    pub buffer: Seq<u8>,
    pub event: EchoEvent,
}

/// Whether an event can follow the step that the server took before: what it waits for is what
/// happens.
pub open spec fn follows(before: SessionStepView, event: EchoEvent) -> bool {
    match before {
        SessionStepView::Read(_) => event is Read || event is Failed || event is TimedOut,
        SessionStepView::Echo(_) => event is Written,
        SessionStepView::Close => false,
    }
}

/// Whether events make up a session: it starts with the handshake, and each event follows the step
/// before.
pub open spec fn is_session(traffic: Seq<EchoMoment>) -> bool {
    &&& traffic.len() > 0 ==> traffic[0].event is Accepted
    &&& forall|i: int|
        #![trigger traffic[i]]
        0 < i < traffic.len() ==> follows(
            echo_step(traffic[i - 1].buffer, traffic[i - 1].event),
            traffic[i].event,
        )
}

/// The bytes that were read, in their order.
pub open spec fn bytes_read(traffic: Seq<EchoMoment>) -> Seq<u8>
    decreases traffic.len(),
{
    if traffic.len() == 0 {
        Seq::empty()
    } else {
        let before = bytes_read(traffic.drop_last());
        match traffic.last().event {
            EchoEvent::Read(n) => before + traffic.last().buffer.take(n as int),
            _ => before,
        }
    }
}

/// The bytes that the server's steps write, in their order.
pub open spec fn bytes_written(traffic: Seq<EchoMoment>) -> Seq<u8>
    decreases traffic.len(),
{
    if traffic.len() == 0 {
        Seq::empty()
    } else {
        let before = bytes_written(traffic.drop_last());
        match echo_step(traffic.last().buffer, traffic.last().event) {
            SessionStepView::Echo(bytes) => before + bytes,
            _ => before,
        }
    }
}

/// A connection on which reading fails, or that stays silent while the server waits for it, is
/// given up: nothing happens on it any more.
pub proof fn law_silent_connection_is_given_up(traffic: Seq<EchoMoment>, i: int)
    requires
        is_session(traffic),
        0 <= i < traffic.len(),
        traffic[i].event is TimedOut || traffic[i].event is Failed,
    ensures
        echo_step(traffic[i].buffer, traffic[i].event) == SessionStepView::Close,
        i + 1 == traffic.len(),
        i > 0 && echo_step(traffic[i - 1].buffer, traffic[i - 1].event) == SessionStepView::Read(
            UDP_TIMEOUT as int,
        ),
{
    if i + 1 < traffic.len() {
        assert(follows(echo_step(traffic[i].buffer, traffic[i].event), traffic[i + 1].event));
    }
    assert(traffic[i].event !is Accepted);
    assert(i > 0);
    assert(follows(echo_step(traffic[i - 1].buffer, traffic[i - 1].event), traffic[i].event));
}

/// Whatever the traffic, all that comes of it is what was read, written back in its order: a step
/// reads, writes to the connection or closes it, and no packet and no channel goes to the rest of
/// the node.
pub proof fn law_session_only_echoes(traffic: Seq<EchoMoment>)
    ensures
        bytes_written(traffic) == bytes_read(traffic),
        forall|i: int|
            #![trigger traffic[i]]
            0 <= i < traffic.len() ==> {
                let step = echo_step(traffic[i].buffer, traffic[i].event);
                step is Read || step is Close || (traffic[i].event matches EchoEvent::Read(n)
                    && step == SessionStepView::Echo(traffic[i].buffer.take(n as int)))
            },
    decreases traffic.len(),
{
    if traffic.len() > 0 {
        law_session_only_echoes(traffic.drop_last());
    }
}

/// The test client: everything that was typed so far.
#[derive(Debug)]
pub struct DtlsTestClient {
    buffer: String,
}

impl View for DtlsTestClient {
    type V = Seq<char>;

    closed spec fn view(&self) -> Seq<char> {
        self.buffer@
    }
}

/// How the client shows a reply.
pub open spec fn shown(reply: Seq<char>) -> Seq<char> {
    "-> "@ + reply
}

/// A test client to which nothing was typed.
pub fn dtls_test_client() -> (r: DtlsTestClient)
    ensures
        r@ == Seq::<char>::empty(),
{
    DtlsTestClient { buffer: String::new() }
}

impl DtlsTestClient {
    /// Takes a line that was typed, with its end of line, and gives the message to send: all that
    /// was typed so far.
    pub fn enter_line(&mut self, line: &str) -> (message: Vec<u8>)
        ensures
            final(self)@ == old(self)@ + line@,
            message@ == encode_utf8(final(self)@),
    {
        self.buffer.append(line);
        self.buffer.as_str().as_bytes_vec()
    }
}

/// How the client shows a reply text.
pub fn show(reply: &str) -> (r: String)
    ensures
        r@ == shown(reply@),
{
    "-> ".to_owned().concat(reply)
}

/// How the client shows a reply of `n` bytes at the front of its buffer. What is not UTF-8 in the
/// reply is replaced.
pub fn show_reply(buffer: &[u8], n: usize) -> (r: String)
    requires
        n <= buffer@.len(),
    ensures
        r@ == shown(utf8_lossy(buffer@.take(n as int))),
        valid_utf8(buffer@.take(n as int)) ==> r@ == shown(decode_utf8(buffer@.take(n as int))),
{
    show(lossy_text(slice_subrange(buffer, 0, n)).as_str())
}

/// What a server writes back and the client reads whole is shown as what was typed: with the
/// message for `typed` at the front of the server's buffer, the echo is the message, and with the
/// echo at the front of the client's buffer, the text of the reply is `typed`.
pub proof fn law_echo_shows_what_was_typed(
    typed: Seq<char>,
    server_buffer: Seq<u8>,
    client_buffer: Seq<u8>,
)
    requires
        encode_utf8(typed).is_prefix_of(server_buffer),
        server_buffer.take(encode_utf8(typed).len() as int).is_prefix_of(client_buffer),
    ensures
        server_buffer.take(encode_utf8(typed).len() as int) == encode_utf8(typed),
        valid_utf8(client_buffer.take(encode_utf8(typed).len() as int)),
        shown(decode_utf8(client_buffer.take(encode_utf8(typed).len() as int))) == shown(typed),
{
    let message = encode_utf8(typed);
    assert(server_buffer.take(message.len() as int) =~= message);
    assert(client_buffer.take(message.len() as int) =~= message);
    encode_utf8_valid_utf8(typed);
    encode_utf8_decode_utf8(typed);
}

/// What the server does at each event, whatever is in its buffer: when the handshake is done or a
/// reply is written it reads, for ten seconds at most; what it read, from the first byte to the
/// last, it writes, and not a byte more; and a connection that fails or is silent it closes.
pub proof fn law_each_event_has_its_step(buffer: Seq<u8>, event: EchoEvent)
    requires
        event matches EchoEvent::Read(n) ==> n <= buffer.len(),
    ensures
        event is Accepted ==> echo_step(buffer, event) == SessionStepView::Read(10000),
        event is Written ==> echo_step(buffer, event) == SessionStepView::Read(10000),
        event is Failed ==> echo_step(buffer, event) is Close,
        event is TimedOut ==> echo_step(buffer, event) is Close,
        event matches EchoEvent::Read(n) ==> {
            &&& echo_step(buffer, event) matches SessionStepView::Echo(bytes)
            &&& bytes.len() == n
            &&& forall|i: int| 0 <= i < n ==> #[trigger] bytes[i] == buffer[i]
        },
{
}

/// A step shows how long to read and what to write.
pub proof fn law_step_shows_what_to_do(step: SessionStep)
    ensures
        step matches SessionStep::Read(within_ms) ==> step@ == SessionStepView::Read(
            within_ms as int,
        ),
        step matches SessionStep::Echo(bytes) ==> step@ == SessionStepView::Echo(bytes@),
        step is Close <==> step@ is Close,
{
}

/// A reply is shown whole, behind an arrow and a space.
pub proof fn law_reply_is_shown_whole(reply: Seq<char>)
    ensures
        shown(reply) == seq!['-', '>', ' '] + reply,
{
    reveal_strlit("-> ");
    assert("-> "@ =~= seq!['-', '>', ' ']);
}

} // verus!
