//! The decisions of the actor-based handler's reader and writer tasks.

use vstd::prelude::*;
use crate::split_actors::ReadAction;
use crate::websocket_trait::{WsError, WsMessage};

verus! {

/// The reader task's rule: text is converted, binary frames, pings and pongs
/// are ignored, and a close frame, a read error or the end of the stream
/// stop reading.
pub open spec fn actor_reader_spec(received: Option<Result<WsMessage, WsError>>) -> ReadAction {
    match received {
        Some(Ok(WsMessage::Text(_))) => ReadAction::Convert,
        Some(Ok(WsMessage::Binary(_))) => ReadAction::Skip,
        Some(Ok(WsMessage::Ping(_))) => ReadAction::Skip,
        Some(Ok(WsMessage::Pong(_))) => ReadAction::Skip,
        Some(Ok(WsMessage::Close(_))) => ReadAction::Stop,
        Some(Err(_)) => ReadAction::Stop,
        None => ReadAction::Stop,
    }
}

/// Decides what the reader task does with the next read result.
pub fn actor_reader_read(received: &Option<Result<WsMessage, WsError>>) -> (action: ReadAction)
    ensures
        action == actor_reader_spec(*received),
{
    match received {
        Some(Ok(WsMessage::Text(_))) => ReadAction::Convert,
        Some(Ok(WsMessage::Binary(_))) | Some(Ok(WsMessage::Ping(_))) | Some(Ok(WsMessage::Pong(_))) => ReadAction::Skip,
        Some(Ok(WsMessage::Close(_))) => ReadAction::Stop,
        Some(Err(_)) => ReadAction::Stop,
        None => ReadAction::Stop,
    }
}

/// The reader task's rule over every read result: every read error stops
/// it, as do a close frame and the end of the stream; it converts exactly
/// the text frames and skips binary frames, pings and pongs.
pub proof fn law_actor_reader_rule(received: Option<Result<WsMessage, WsError>>)
    ensures
        received matches Some(Err(_)) ==> actor_reader_spec(received) == ReadAction::Stop,
        received is None ==> actor_reader_spec(received) == ReadAction::Stop,
        actor_reader_spec(received) == ReadAction::Convert <==> (received matches Some(
            Ok(WsMessage::Text(_)),
        )),
        actor_reader_spec(received) == ReadAction::Stop <==> (received is None || received matches Some(
            Err(_),
        ) || received matches Some(Ok(WsMessage::Close(_)))),
{
}

/// What the writer task does with the state actor's answer for an outbound
/// message.
#[derive(Debug, Clone, Copy, PartialEq, Eq, Structural)]
pub enum WriteAction {
    /// Convert the processed message and send it.
    SendProcessed,
    /// The middleware dropped the message, or processing failed: send nothing, keep going.
    Skip,
    /// The state actor is gone: stop writing.
    Stop,
}

/// The writer task's rule for an answer (`None` when the state actor went
/// away before answering).
pub open spec fn actor_writer_spec<O>(answer: Option<Result<Option<O>, anyhow::Error>>) -> WriteAction {
    match answer {
        Some(Ok(Some(_))) => WriteAction::SendProcessed,
        Some(Ok(None)) => WriteAction::Skip,
        Some(Err(_)) => WriteAction::Skip,
        None => WriteAction::Stop,
    }
}

/// Decides what the writer task does with the state actor's answer.
pub fn actor_writer_step<O>(answer: &Option<Result<Option<O>, anyhow::Error>>) -> (action: WriteAction)
    ensures
        action == actor_writer_spec(*answer),
{
    match answer {
        Some(Ok(Some(_))) => WriteAction::SendProcessed,
        Some(Ok(None)) => WriteAction::Skip,
        Some(Err(_)) => WriteAction::Skip,
        None => WriteAction::Stop,
    }
}

/// The writer task sends exactly the messages the middleware let through,
/// keeps going when one was dropped or failed, and stops only when the
/// state actor is gone.
pub proof fn law_actor_writer_rule<O>(answer: Option<Result<Option<O>, anyhow::Error>>)
    ensures
        actor_writer_spec(answer) == WriteAction::SendProcessed <==> (answer matches Some(
            Ok(Some(_)),
        )),
        actor_writer_spec(answer) == WriteAction::Stop <==> answer is None,
        actor_writer_spec(answer) == WriteAction::Skip <==> (answer matches Some(Ok(None))
            || answer matches Some(Err(_))),
{
}

} // verus!
