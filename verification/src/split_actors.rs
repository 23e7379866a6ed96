//! The decisions of the split inbound/outbound actors.

use vstd::prelude::*;
use std::marker::PhantomData;
use crate::websocket_trait::{WsError, WsMessage};

verus! {

/// What a reader does with the result of reading the next frame.
#[derive(Debug, Clone, Copy, PartialEq, Eq, Structural)]
pub enum ReadAction {
    /// Convert the text frame and pass it on.
    Convert,
    /// Ignore the frame and keep reading.
    Skip,
    /// Stop reading.
    Stop,
}

/// The inbound actor's rule: text is converted, pings and pongs are ignored,
/// a binary frame is a protocol violation that ends the connection, and a
/// close frame, a read error or the end of the stream stop reading.
pub open spec fn inbound_actor_read_spec(received: Option<Result<WsMessage, WsError>>) -> ReadAction {
    match received {
        Some(Ok(WsMessage::Text(_))) => ReadAction::Convert,
        Some(Ok(WsMessage::Ping(_))) => ReadAction::Skip,
        Some(Ok(WsMessage::Pong(_))) => ReadAction::Skip,
        Some(Ok(WsMessage::Binary(_))) => ReadAction::Stop,
        Some(Ok(WsMessage::Close(_))) => ReadAction::Stop,
        Some(Err(_)) => ReadAction::Stop,
        None => ReadAction::Stop,
    }
}

/// Decides what the inbound actor does with the next read result.
pub fn inbound_actor_read(received: &Option<Result<WsMessage, WsError>>) -> (action: ReadAction)
    ensures
        action == inbound_actor_read_spec(*received),
{
    match received {
        Some(Ok(WsMessage::Text(_))) => ReadAction::Convert,
        Some(Ok(WsMessage::Ping(_))) | Some(Ok(WsMessage::Pong(_))) => ReadAction::Skip,
        Some(Ok(WsMessage::Binary(_))) => ReadAction::Stop,
        Some(Ok(WsMessage::Close(_))) => ReadAction::Stop,
        Some(Err(_)) => ReadAction::Stop,
        None => ReadAction::Stop,
    }
}

/// What a reader does with the converter's answer for a text frame.
#[derive(Debug, Clone, Copy, PartialEq, Eq, Structural)]
pub enum ConversionStep {
    /// A message came out: pass it on to the middleware.
    Deliver,
    /// The converter chose to ignore the text.
    Filtered,
    /// The conversion failed: log it and keep reading.
    Failed,
}

/// The readers' rule for a conversion result: `Ok(Some)` is delivered,
/// `Ok(None)` means the text is ignored, an error is reported and skipped.
pub open spec fn conversion_step_spec<I>(converted: Result<Option<I>, anyhow::Error>) -> ConversionStep {
    match converted {
        Ok(Some(_)) => ConversionStep::Deliver,
        Ok(None) => ConversionStep::Filtered,
        Err(_) => ConversionStep::Failed,
    }
}

/// Decides what a reader does with the converter's answer.
pub fn inbound_conversion_step<I>(converted: &Result<Option<I>, anyhow::Error>) -> (step: ConversionStep)
    ensures
        step == conversion_step_spec(*converted),
{
    match converted {
        Ok(Some(_)) => ConversionStep::Deliver,
        Ok(None) => ConversionStep::Filtered,
        Err(_) => ConversionStep::Failed,
    }
}

/// The inbound reader's rule over every read result: every read error, of
/// whatever kind, stops it; it converts exactly the text frames, skips
/// exactly pings and pongs, and stops on everything else (binary, close,
/// the end of the stream).
pub proof fn law_inbound_reader_rule(received: Option<Result<WsMessage, WsError>>)
    ensures
        received matches Some(Err(_)) ==> inbound_actor_read_spec(received) == ReadAction::Stop,
        received is None ==> inbound_actor_read_spec(received) == ReadAction::Stop,
        inbound_actor_read_spec(received) == ReadAction::Convert <==> (received matches Some(
            Ok(WsMessage::Text(_)),
        )),
        inbound_actor_read_spec(received) == ReadAction::Skip <==> (received matches Some(
            Ok(WsMessage::Ping(_)),
        ) || received matches Some(Ok(WsMessage::Pong(_)))),
        inbound_actor_read_spec(received) == ReadAction::Stop <==> !(received matches Some(
            Ok(WsMessage::Text(_)),
        ) || received matches Some(Ok(WsMessage::Ping(_))) || received matches Some(
            Ok(WsMessage::Pong(_)),
        )),
{
}

/// A converted message is delivered, a filtered one is dropped, and a
/// conversion error is reported and skipped: each outcome of the converter
/// leads to its own step.
pub proof fn law_conversion_steps<I>(converted: Result<Option<I>, anyhow::Error>)
    ensures
        conversion_step_spec(converted) == ConversionStep::Deliver <==> (converted matches Ok(
            Some(_),
        )),
        conversion_step_spec(converted) == ConversionStep::Filtered <==> (converted matches Ok(
            None,
        )),
        conversion_step_spec(converted) == ConversionStep::Failed <==> converted is Err,
{
}

/// How the inbound actor hands a converted message on.
#[derive(Debug, Clone, Copy, PartialEq, Eq, Structural)]
pub enum Delivery {
    /// Queue it on the bounded inbound buffer (dropped when the buffer is full).
    Buffered,
    /// Run it through the middleware chain at once.
    Direct,
}

/// With an inbound buffer configured messages are queued on it, otherwise
/// they are processed directly.
pub fn inbound_delivery(buffer_size: Option<usize>) -> (d: Delivery)
    ensures
        d == (if buffer_size is Some { Delivery::Buffered } else { Delivery::Direct }),
{
    match buffer_size {
        Some(_) => Delivery::Buffered,
        None => Delivery::Direct,
    }
}

/// Whether the outbound actor runs a message through the middleware at
/// `middleware_index` before sending: only when that middleware exists;
/// otherwise the message is sent as it is.
pub fn outbound_actor_processes(middleware_index: usize, len: usize) -> (run: bool)
    ensures
        run == (middleware_index < len),
{
    middleware_index < len
}

/// Helper struct to manage the lifecycle of both actors
pub struct SplitActors<M, O> {
    _m: PhantomData<M>,
    _o: PhantomData<O>,
}

} // verus!
