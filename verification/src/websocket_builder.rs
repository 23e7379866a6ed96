//! The decisions of the single-loop connection handler: what each event of
//! its message loop leads to, and which endings count as a clean close.

use vstd::prelude::*;
use vstd::string::*;
use std::time::Duration;

verus! {

/// The plain settings that a handler builder collects.
#[derive(Debug, Clone)]
pub struct HandlerSettings {
    /// Capacity of the outbound message channel.
    pub channel_size: usize,
    /// How long a connection may stay open (None for unlimited).
    pub max_connection_time: Option<Duration>,
    /// How many connections may be open at once (None for unlimited).
    pub max_connections: Option<usize>,
}

impl HandlerSettings {
    /// The default settings: a channel of 100 messages, no connection time
    /// limit and no connection count limit.
    pub fn new() -> (s: Self)
        ensures
            s.channel_size == 100,
            s.max_connection_time is None,
            s.max_connections is None,
    {
        HandlerSettings { channel_size: 100, max_connection_time: None, max_connections: None }
    }

    /// Sets the size of the outbound channel; the other settings stay.
    pub fn with_channel_size(self, size: usize) -> (s: Self)
        ensures
            s == (HandlerSettings { channel_size: size, ..self }),
    {
        HandlerSettings { channel_size: size, ..self }
    }

    /// Sets the maximum duration of a connection; the other settings stay.
    pub fn with_max_connection_time(self, duration: Duration) -> (s: Self)
        ensures
            s == (HandlerSettings { max_connection_time: Some(duration), ..self }),
    {
        HandlerSettings { max_connection_time: Some(duration), ..self }
    }

    /// Sets the maximum number of concurrent connections; the other settings stay.
    pub fn with_max_connections(self, max: usize) -> (s: Self)
        ensures
            s == (HandlerSettings { max_connections: Some(max), ..self }),
    {
        HandlerSettings { max_connections: Some(max), ..self }
    }
}

/// Whether `needle` occurs in `haystack` as a contiguous run of characters.
pub open spec fn occurs_in(haystack: Seq<char>, needle: Seq<char>) -> bool {
    exists|i: int| 0 <= i <= haystack.len() - needle.len()
        && #[trigger] haystack.subrange(i, i + needle.len()) == needle
}

/// The characters of a string, in order.
fn chars_of(s: &str) -> (v: Vec<char>)
    ensures
        v@ == s@,
{
    let n = s.unicode_len();
    let mut v: Vec<char> = Vec::new();
    let mut k: usize = 0;
    while k < n
        invariant
            n == s@.len(),
            k <= n,
            v@ == s@.subrange(0, k as int),
        decreases n - k,
    {
        v.push(s.get_char(k));
        k = k + 1;
        assert(v@ =~= s@.subrange(0, k as int));
    }
    assert(v@ =~= s@);
    v
}

/// Whether `needle` matches `haystack` at position `at`.
fn matches_at(haystack: &Vec<char>, needle: &Vec<char>, at: usize) -> (m: bool)
    requires
        at + needle@.len() <= haystack@.len(),
    ensures
        m == (haystack@.subrange(at as int, at + needle@.len()) == needle@),
{
    let hl = haystack.len();
    let mut j: usize = 0;
    while j < needle.len()
        invariant
            hl == haystack@.len(),
            at + needle@.len() <= haystack@.len(),
            j <= needle@.len(),
            forall|t: int| 0 <= t < j ==> haystack@[at + t] == needle@[t],
        decreases needle@.len() - j,
    {
        if haystack[at + j] != needle[j] {
            assert(haystack@.subrange(at as int, at + needle@.len())[j as int] != needle@[j as int]);
            return false;
        }
        j = j + 1;
    }
    assert(haystack@.subrange(at as int, at + needle@.len()) =~= needle@);
    true
}

/// Whether `needle` occurs in `haystack` (`str::contains` with a string pattern).
pub fn contains_text(haystack: &str, needle: &str) -> (found: bool)
    ensures
        found == occurs_in(haystack@, needle@),
{
    let h = chars_of(haystack);
    let n = chars_of(needle);
    if n.len() > h.len() {
        return false;
    }
    let last = h.len() - n.len();
    let mut i: usize = 0;
    loop
        invariant
            h@ == haystack@,
            n@ == needle@,
            last == h@.len() - n@.len(),
            i <= last,
            forall|p: int| 0 <= p < i ==> #[trigger] h@.subrange(p, p + n@.len()) != n@,
        decreases last - i,
    {
        if matches_at(&h, &n, i) {
            return true;
        }
        if i == last {
            return false;
        }
        i = i + 1;
    }
}

/// The error text by which a peer that vanished without a closing handshake
/// is recognised.
pub open spec fn missing_handshake_text() -> Seq<char> {
    "without closing handshake"@
}

/// Whether a socket error text reports a connection that ended without a
/// closing handshake.
pub fn is_missing_close_handshake(error_text: &str) -> (found: bool)
    ensures
        found == occurs_in(error_text@, missing_handshake_text()),
        found == occurs_in(error_text@, "without closing handshake"@),
{
    contains_text(error_text, "without closing handshake")
}

/// What the message loop of a connection observed.  The loop polls, in this
/// order of priority, the cancellation token, the outbound channel and the socket.
#[derive(Debug, Clone)]
pub enum LoopEvent {
    /// The connection's cancellation token fired.
    Cancelled,
    /// The outbound channel yielded a message (kept by the caller).
    Outbound,
    /// The outbound channel closed.
    OutboundClosed,
    /// A text frame arrived (kept by the caller).
    Text,
    /// A binary frame arrived.
    Binary,
    /// A ping frame arrived (its payload kept by the caller).
    Ping,
    /// A pong frame arrived.
    Pong,
    /// A close frame arrived.
    Close,
    /// Reading the socket failed with this error text.
    SocketError(String),
    /// The socket stream ended.
    SocketEnded,
}

/// How the message loop ended.
#[derive(Debug, Clone, Copy, PartialEq, Eq, Structural)]
pub enum LoopExit {
    /// The connection closed normally.
    Closed,
    /// The client sent a binary frame, which this server does not support.
    UnsupportedBinary,
    /// The peer went away without a closing handshake.
    NoClosingHandshake,
    /// Reading the socket failed.
    SocketError,
}

impl LoopExit {
    /// Whether the connection counts as closed normally: a missing closing
    /// handshake is not treated as an error.
    pub open spec fn is_clean(self) -> bool {
        self == LoopExit::Closed || self == LoopExit::NoClosingHandshake
    }

    /// Whether the connection ended normally (its final state is passed on
    /// as a success).
    pub fn ends_cleanly(&self) -> (clean: bool)
        ensures
            clean == self.is_clean(),
    {
        match self {
            LoopExit::Closed | LoopExit::NoClosingHandshake => true,
            LoopExit::UnsupportedBinary | LoopExit::SocketError => false,
        }
    }
}

/// What the message loop does next.
#[derive(Debug, Clone, Copy, PartialEq, Eq, Structural)]
pub enum LoopAction {
    /// Send every message still queued, then a close frame, and end normally.
    FlushAndClose,
    /// Run the outbound message through the middleware and send it.
    SendOutbound,
    /// Run the text through the inbound middleware.
    HandleIncoming,
    /// Answer the ping with a pong carrying the same payload.
    SendPong,
    /// Nothing to do; keep polling.
    Continue,
    /// Answer with a close frame and end normally.
    ReplyClose,
    /// End the loop.
    Exit(LoopExit),
}

/// The action for each event of the message loop.
pub open spec fn loop_action_spec(event: LoopEvent) -> LoopAction {
    match event {
        LoopEvent::Cancelled => LoopAction::FlushAndClose,
        LoopEvent::Outbound => LoopAction::SendOutbound,
        LoopEvent::OutboundClosed => LoopAction::Exit(LoopExit::Closed),
        LoopEvent::Text => LoopAction::HandleIncoming,
        LoopEvent::Binary => LoopAction::Exit(LoopExit::UnsupportedBinary),
        LoopEvent::Ping => LoopAction::SendPong,
        LoopEvent::Pong => LoopAction::Continue,
        LoopEvent::Close => LoopAction::ReplyClose,
        LoopEvent::SocketError(e) =>
            if occurs_in(e@, missing_handshake_text()) {
                LoopAction::Exit(LoopExit::NoClosingHandshake)
            } else {
                LoopAction::Exit(LoopExit::SocketError)
            },
        LoopEvent::SocketEnded => LoopAction::Exit(LoopExit::Closed),
    }
}

/// Decides what the message loop does with an event.
pub fn loop_step(event: &LoopEvent) -> (action: LoopAction)
    ensures
        action == loop_action_spec(*event),
{
    match event {
        LoopEvent::Cancelled => LoopAction::FlushAndClose,
        LoopEvent::Outbound => LoopAction::SendOutbound,
        LoopEvent::OutboundClosed => LoopAction::Exit(LoopExit::Closed),
        LoopEvent::Text => LoopAction::HandleIncoming,
        LoopEvent::Binary => LoopAction::Exit(LoopExit::UnsupportedBinary),
        LoopEvent::Ping => LoopAction::SendPong,
        LoopEvent::Pong => LoopAction::Continue,
        LoopEvent::Close => LoopAction::ReplyClose,
        LoopEvent::SocketError(e) => {
            if is_missing_close_handshake(e.as_str()) {
                LoopAction::Exit(LoopExit::NoClosingHandshake)
            } else {
                LoopAction::Exit(LoopExit::SocketError)
            }
        },
        LoopEvent::SocketEnded => LoopAction::Exit(LoopExit::Closed),
    }
}

/// A binary frame always ends the loop with an error; a vanished peer is
/// never reported as an error.
pub proof fn law_binary_rejected_vanished_peer_clean(e: String)
    ensures
        loop_action_spec(LoopEvent::Binary) == LoopAction::Exit(LoopExit::UnsupportedBinary),
        !LoopExit::UnsupportedBinary.is_clean(),
        (loop_action_spec(LoopEvent::SocketError(e)) matches LoopAction::Exit(x) && x.is_clean())
            <==> occurs_in(e@, missing_handshake_text()),
{
}

/// `occurs_in` is the substring relation: the needle occurs in the
/// haystack exactly when the haystack is some text, then the needle, then
/// some more text.
pub proof fn law_occurs_in_is_substring(haystack: Seq<char>, needle: Seq<char>)
    ensures
        occurs_in(haystack, needle) <==> exists|before: Seq<char>, after: Seq<char>|
            #[trigger] before.add(needle).add(after) == haystack,
{
    if occurs_in(haystack, needle) {
        let i = choose|i: int|
            0 <= i <= haystack.len() - needle.len() && #[trigger] haystack.subrange(
                i,
                i + needle.len(),
            ) == needle;
        let before = haystack.subrange(0, i);
        let after = haystack.subrange(i + needle.len(), haystack.len() as int);
        assert(before.add(needle).add(after) =~= haystack);
    }
    if exists|before: Seq<char>, after: Seq<char>| #[trigger] before.add(needle).add(after) == haystack {
        let (before, after) = choose|before: Seq<char>, after: Seq<char>|
            #[trigger] before.add(needle).add(after) == haystack;
        let i = before.len() as int;
        assert(haystack.subrange(i, i + needle.len()) =~= needle);
    }
}

/// A socket error counts as a peer that went away without a closing
/// handshake exactly when its text contains "without closing handshake";
/// any other error text (a reset connection, say) ends the loop with a
/// socket error.
pub proof fn law_socket_error_exit(e: String)
    ensures
        occurs_in(e@, "without closing handshake"@) ==> loop_action_spec(LoopEvent::SocketError(e))
            == LoopAction::Exit(LoopExit::NoClosingHandshake),
        !occurs_in(e@, "without closing handshake"@) ==> loop_action_spec(LoopEvent::SocketError(e))
            == LoopAction::Exit(LoopExit::SocketError),
{
}

/// What each event of the message loop leads to: cancellation flushes and
/// closes, outbound messages are sent, text goes to the inbound middleware,
/// a ping is answered with a pong, a pong is ignored, a close frame is
/// answered, a binary frame ends the loop as unsupported, and the loop ends
/// normally when the outbound channel or the socket stream ends.  Of the
/// endings, a normal close and a missing closing handshake count as clean;
/// an unsupported binary frame and a socket error do not.
pub proof fn law_loop_event_actions(event: LoopEvent)
    ensures
        event is Cancelled ==> loop_action_spec(event) == LoopAction::FlushAndClose,
        event is Outbound ==> loop_action_spec(event) == LoopAction::SendOutbound,
        event is OutboundClosed ==> loop_action_spec(event) == LoopAction::Exit(LoopExit::Closed),
        event is Text ==> loop_action_spec(event) == LoopAction::HandleIncoming,
        event is Binary ==> loop_action_spec(event) == LoopAction::Exit(LoopExit::UnsupportedBinary),
        event is Ping ==> loop_action_spec(event) == LoopAction::SendPong,
        event is Pong ==> loop_action_spec(event) == LoopAction::Continue,
        event is Close ==> loop_action_spec(event) == LoopAction::ReplyClose,
        event is SocketEnded ==> loop_action_spec(event) == LoopAction::Exit(LoopExit::Closed),
        LoopExit::Closed.is_clean(),
        LoopExit::NoClosingHandshake.is_clean(),
        !LoopExit::UnsupportedBinary.is_clean(),
        !LoopExit::SocketError.is_clean(),
{
}

} // verus!

