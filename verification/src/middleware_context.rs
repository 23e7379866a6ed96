//! The middleware chain: how it is walked, how middleware send messages back
//! through it, and the errors that carry a connection's state.
//!
//! A middleware chain is a sequence of middleware indexed from 0.  Inbound
//! messages, connection and disconnection events walk it forward from index
//! 0; outbound messages walk it backward towards index 0.

use vstd::prelude::*;
use vstd::string::*;

verus! {

/// `anyhow::Error`, carried through unchanged.
#[verifier::external_type_specification]
#[verifier::external_body]
pub struct ExAnyhowError(anyhow::Error);

/// `std::io::Error`, carried through unchanged.
#[verifier::external_type_specification]
#[verifier::external_body]
pub struct ExIoError(std::io::Error);

/// `tokio::task::JoinError`, carried through unchanged.
#[verifier::external_type_specification]
#[verifier::external_body]
pub struct ExJoinError(tokio::task::JoinError);

/// The sending half of a flume channel.
#[verifier::external_type_specification]
#[verifier::external_body]
#[verifier::reject_recursive_types(T)]
pub struct ExFlumeSender<T>(flume::Sender<T>);

/// `Clone` of a flume sender: a new handle to the same channel.  Nothing is
/// claimed of the result.
pub assume_specification<T> [<flume::Sender<T> as std::clone::Clone>::clone] (sender: &flume::Sender<T>) -> flume::Sender<T>;

/// A trait for converting between wire format (string) messages and application types.
///
/// This trait handles the conversion of messages between the wire format (strings)
/// used by the WebSocket protocol and the application-specific types used by
/// the middleware chain.
///
/// # Type Parameters
/// * `I` - The type of incoming messages after conversion
/// * `O` - The type of outgoing messages before conversion
pub trait MessageConverter<I, O>: Send + Sync {
    /// Converts an incoming string message to the application type.
    ///
    /// * `Ok(Some(I))` - Successfully converted message
    /// * `Ok(None)` - Message should be ignored
    /// * `Err` - Conversion failed
    fn inbound_from_string(&self, message: String) -> Result<Option<I>, anyhow::Error>;

    /// Converts an outgoing application message to a string.
    fn outbound_to_string(&self, message: O) -> Result<String, anyhow::Error>;
}

/// A trait for sending messages through the middleware chain.
///
/// This trait provides a common interface for sending messages back through
/// the WebSocket connection, regardless of the context type.
pub trait SendMessage<O> {
    /// Queue `message` for the client via the bounded, non-blocking channel.
    ///
    /// Returns an error when the channel is full or closed, as the back-pressure signal.
    fn send_message(&mut self, message: O) -> Result<(), anyhow::Error>;

    /// Returns the number of available slots in the channel.
    fn capacity(&self) -> Option<usize>;
}

/// Why a non-blocking send failed; the message comes back with the error.
#[derive(Debug, Clone)]
pub enum TrySendError<T> {
    /// The channel is bounded and was full.
    Full(T),
    /// All receivers were dropped.
    Disconnected(T),
}

impl<T> TrySendError<T> {
    /// The message that could not be sent.
    pub open spec fn payload(self) -> T {
        match self {
            TrySendError::Full(m) => m,
            TrySendError::Disconnected(m) => m,
        }
    }

    /// The error's display text, as flume words it.
    pub fn to_display_string(&self) -> (text: String)
        ensures
            text@ == (match self {
                TrySendError::Full(_) => "sending on a full channel"@,
                TrySendError::Disconnected(_) => "sending on a closed channel"@,
            }),
    {
        match self {
            TrySendError::Full(_) => String::from_str("sending on a full channel"),
            TrySendError::Disconnected(_) => String::from_str("sending on a closed channel"),
        }
    }

    /// Returns the message that could not be sent.
    pub fn into_inner(self) -> (msg: T)
        ensures
            msg == self.payload(),
    {
        match self {
            TrySendError::Full(m) => m,
            TrySendError::Disconnected(m) => m,
        }
    }
}

/// `flume::Sender::try_send`: sends without blocking.  On failure flume hands
/// the very message back inside the error (full or disconnected); that is all
/// that is claimed.  Whether the send succeeds depends on the channel's shared
/// state (other senders and receivers), so nothing is said about when it does.
#[verifier::external_body]
fn channel_try_send<T>(sender: &flume::Sender<T>, msg: T) -> (res: Result<(), TrySendError<T>>)
    ensures
        res matches Err(e) ==> e.payload() == msg,
{
    match sender.try_send(msg) {
        Ok(()) => Ok(()),
        Err(flume::TrySendError::Full(m)) => Err(TrySendError::Full(m)),
        Err(flume::TrySendError::Disconnected(m)) => Err(TrySendError::Disconnected(m)),
    }
}

/// `flume::Sender::capacity`: the capacity of a bounded channel, `None` for an
/// unbounded one.  Nothing is claimed of the result: it belongs to the channel
/// behind the sender, which no name here can speak of.
#[verifier::external_body]
fn channel_capacity<T>(sender: &flume::Sender<T>) -> (cap: Option<usize>) {
    sender.capacity()
}

/// `flume::Sender::len`: the number of messages queued in the channel.  It
/// changes with the other senders and receivers, so nothing is claimed of it.
#[verifier::external_body]
fn channel_len<T>(sender: &flume::Sender<T>) -> (queued: usize) {
    sender.len()
}

/// The free slots of a channel with this capacity (`None`: unbounded) and
/// this many queued messages: the capacity less the queue, none when the
/// queue fills it.
pub fn available_slots(capacity: Option<usize>, queued: usize) -> (slots: Option<usize>)
    ensures
        slots == (match capacity {
            Some(cap) => Some(if queued <= cap { (cap - queued) as usize } else { 0usize }),
            None => None::<usize>,
        }),
{
    match capacity {
        Some(cap) => Some(if queued <= cap { cap - queued } else { 0 }),
        None => None,
    }
}

/// The index from which a bypassing send starts outbound processing: the
/// middleware before the sender's, or the first one.
pub open spec fn bypass_index_spec(index: usize) -> usize {
    if index > 0 { (index - 1) as usize } else { 0 }
}

/// Computes the index at which a bypassing send starts outbound processing.
pub fn bypass_index(index: usize) -> (start: usize)
    ensures
        start == bypass_index_spec(index),
{
    if index > 0 { index - 1 } else { 0 }
}

/// A wrapper for sending messages through the middleware chain.
///
/// Every message is tagged with the index of the middleware at which its
/// outbound processing starts.
#[derive(Debug, Clone)]
#[verifier::reject_recursive_types(O)]
pub struct MessageSender<O> {
    /// The channel sender for outgoing messages
    pub sender: flume::Sender<(O, usize)>,
    /// The index of the middleware that sent the message
    pub index: usize,
}

impl<O> MessageSender<O> {
    /// Creates a new message sender for the middleware at `index`.
    pub fn new(sender: flume::Sender<(O, usize)>, index: usize) -> (s: Self)
        ensures
            s.sender == sender,
            s.index == index,
    {
        Self { sender, index }
    }

    /// Sends a message, tagged with this sender's index, without blocking.
    /// On failure the tagged message comes back in the error.
    pub fn send(&mut self, message: O) -> (res: Result<(), TrySendError<(O, usize)>>)
        ensures
            *final(self) == *old(self),
            res matches Err(e) ==> e.payload() == (message, old(self).index),
    {
        channel_try_send(&self.sender, (message, self.index))
    }

    /// Sends a message, bypassing the current middleware: outbound processing
    /// starts at the previous middleware (index 0 stays 0).  On failure the
    /// tagged message comes back in the error.
    pub fn send_bypass(&mut self, message: O) -> (res: Result<(), TrySendError<(O, usize)>>)
        ensures
            *final(self) == *old(self),
            res matches Err(e) ==> e.payload() == (message, bypass_index_spec(old(self).index)),
    {
        let start = bypass_index(self.index);
        channel_try_send(&self.sender, (message, start))
    }

    /// Returns the number of available slots in the channel: its capacity
    /// less the messages queued in it (none when the queue is full), or
    /// `None` for an unbounded channel.
    pub fn capacity(&self) -> (slots: Option<usize>) {
        match channel_capacity(&self.sender) {
            Some(cap) => available_slots(Some(cap), channel_len(&self.sender)),
            None => None,
        }
    }
}

/// Error type for WebSocket operations.
///
/// Every variant keeps the connection state, so that it can be handed back
/// for cleanup whatever went wrong.
#[derive(Debug)]
pub enum WebsocketError<ConnectionState: Send + Sync + 'static> {
    IoError(std::io::Error, ConnectionState),
    InvalidTargetUrl(ConnectionState),
    InboundMessageConversionError(anyhow::Error, ConnectionState),
    OutboundMessageConversionError(anyhow::Error, ConnectionState),
    HandlerError(anyhow::Error, ConnectionState),
    MissingMiddleware(ConnectionState),
    MaxConnectionsExceeded(ConnectionState),
    JoinError(tokio::task::JoinError, ConnectionState),
    WebsocketError(anyhow::Error, ConnectionState),
    NoClosingHandshake(anyhow::Error, ConnectionState),
    UnsupportedBinaryMessage(ConnectionState),
}

impl<ConnectionState: Send + Sync + 'static> WebsocketError<ConnectionState> {
    /// The connection state that the error carries.
    pub open spec fn state(self) -> ConnectionState {
        match self {
            Self::IoError(_, s) => s,
            Self::InvalidTargetUrl(s) => s,
            Self::InboundMessageConversionError(_, s) => s,
            Self::OutboundMessageConversionError(_, s) => s,
            Self::HandlerError(_, s) => s,
            Self::MissingMiddleware(s) => s,
            Self::MaxConnectionsExceeded(s) => s,
            Self::JoinError(_, s) => s,
            Self::WebsocketError(_, s) => s,
            Self::NoClosingHandshake(_, s) => s,
            Self::UnsupportedBinaryMessage(s) => s,
        }
    }

    /// Gives back the connection state that the error carries.
    pub fn get_state(self) -> (state: ConnectionState)
        ensures
            state == self.state(),
    {
        match self {
            Self::HandlerError(_, state) => state,
            Self::IoError(_, state) => state,
            Self::InvalidTargetUrl(state) => state,
            Self::InboundMessageConversionError(_, state) => state,
            Self::OutboundMessageConversionError(_, state) => state,
            Self::JoinError(_, state) => state,
            Self::WebsocketError(_, state) => state,
            Self::NoClosingHandshake(_, state) => state,
            Self::MissingMiddleware(state) => state,
            Self::MaxConnectionsExceeded(state) => state,
            Self::UnsupportedBinaryMessage(state) => state,
        }
    }
}

/// Where a forward walk goes after the middleware at `index` in a chain of
/// `len` middleware: the next one, or nowhere after the last.
pub open spec fn forward_next(index: int, len: int) -> Option<int> {
    if index + 1 < len { Some(index + 1) } else { None }
}

/// Where a backward walk goes after the middleware at `index`: the previous
/// one, or nowhere after the first.
pub open spec fn backward_next(index: int) -> Option<int> {
    if index > 0 { Some(index - 1) } else { None }
}

/// The middleware that a forward walk from `index` visits, in order: the
/// walk takes `forward_next` steps until there is none.
pub open spec fn forward_walk(index: int, len: int) -> Seq<int>
    decreases len - index,
{
    match forward_next(index, len) {
        Some(n) => seq![index] + forward_walk(n, len),
        None => seq![index],
    }
}

/// The middleware that a backward walk from `index` visits, in order: the
/// walk takes `backward_next` steps until there is none.
pub open spec fn backward_walk(index: int) -> Seq<int>
    decreases index,
{
    match backward_next(index) {
        Some(n) => seq![index] + backward_walk(n),
        None => seq![index],
    }
}

/// Next step of a connection or disconnection event after the middleware at
/// `index` (`ConnectionContext::next`, `DisconnectContext::next`).
pub fn connection_step(index: usize, len: usize) -> (next: Option<usize>)
    requires
        len > 0,
    ensures
        next matches Some(n) ==> forward_next(index as int, len as int) == Some(n as int),
        next is None ==> forward_next(index as int, len as int) is None,
{
    if index >= len - 1 {
        None
    } else {
        Some(index + 1)
    }
}

/// Next step of an inbound message after the middleware at `index`
/// (`InboundContext::next`): a message that a middleware took away stops the
/// walk; otherwise it goes forward.
pub fn inbound_step(has_message: bool, index: usize, len: usize) -> (next: Option<usize>)
    requires
        has_message ==> len > 0,
    ensures
        !has_message ==> next is None,
        has_message ==> (next matches Some(n) ==> forward_next(index as int, len as int) == Some(n as int)),
        has_message ==> (next is None ==> forward_next(index as int, len as int) is None),
{
    if !has_message {
        return None;
    }
    connection_step(index, len)
}

/// Next step of an outbound message after the middleware at `index`
/// (`OutboundContext::next`).
pub fn outbound_step(index: usize) -> (next: Option<usize>)
    ensures
        next matches Some(n) ==> backward_next(index as int) == Some(n as int),
        next is None ==> backward_next(index as int) is None,
{
    if index == 0 {
        None
    } else {
        Some(index - 1)
    }
}

proof fn lemma_forward_walk(k: int, len: int)
    requires
        0 <= k < len,
    ensures
        forward_walk(k, len) =~= Seq::new((len - k) as nat, |i: int| k + i),
    decreases len - k,
{
    if k + 1 < len {
        lemma_forward_walk(k + 1, len);
    }
}

proof fn lemma_backward_walk(k: int)
    requires
        0 <= k,
    ensures
        backward_walk(k) =~= Seq::new((k + 1) as nat, |i: int| k - i),
    decreases k,
{
    if k > 0 {
        lemma_backward_walk(k - 1);
    }
}

/// Middleware run in the order they were added for inbound messages and
/// connection events: a walk from the first visits every middleware once, in
/// order of their indices.
pub proof fn law_inbound_in_order(len: int)
    requires
        len > 0,
    ensures
        forward_walk(0, len) =~= Seq::new(len as nat, |i: int| i),
{
    lemma_forward_walk(0, len);
}

/// Outbound messages run through the middleware in reverse order: a walk
/// from the last middleware is the inbound walk reversed, and a walk from any
/// middleware visits it and then every earlier one, down to the first.
pub proof fn law_outbound_in_reverse(len: int, index: int)
    requires
        len > 0,
        0 <= index < len,
    ensures
        backward_walk(len - 1) =~= forward_walk(0, len).reverse(),
        backward_walk(index) =~= Seq::new((index + 1) as nat, |i: int| index - i),
{
    lemma_forward_walk(0, len);
    lemma_backward_walk(len - 1);
    lemma_backward_walk(index);
}

/// A bypassing send from a middleware other than the first skips exactly that
/// middleware: the backward walk from its tag is the plain send's walk without
/// its first step.  From the first middleware a bypassing send is a plain send.
/// This is the walk of a handler that starts outbound processing at the tag
/// (the actor handlers); the single-loop handler runs no middleware at all for
/// a message tagged 0 (`outbound_runs_middleware`).
pub proof fn law_bypass_skips_sender(index: usize)
    ensures
        index > 0 ==> backward_walk(bypass_index_spec(index) as int) =~= backward_walk(index as int).drop_first(),
        index == 0 ==> bypass_index_spec(index) == index,
{
    if index > 0 {
        lemma_backward_walk(index as int);
        lemma_backward_walk(index - 1);
    }
}

} // verus!
