//! Framework-independent WebSocket messages, and the decoding of raw frames
//! into them.

use vstd::prelude::*;
use vstd::slice::{slice_subrange, slice_to_vec};
use vstd::string::*;

verus! {

/// The axum WebSocket type, carried through unchanged.
#[verifier::external_type_specification]
#[verifier::external_body]
pub struct ExAxumWebSocket(axum::extract::ws::WebSocket);

/// Represents a WebSocket message
#[derive(Debug, Clone)]
pub enum WsMessage {
    Text(String),
    Binary(Vec<u8>),
    Close(Option<(u16, String)>),
    Ping(Vec<u8>),
    Pong(Vec<u8>),
}

/// Error type for WebSocket operations
#[derive(Debug)]
pub enum WsError {
    WebSocket(String),
    ConnectionClosed,
}

/// The text that a `WsError` displays.
pub open spec fn ws_error_text(e: WsError) -> Seq<char> {
    match e {
        WsError::WebSocket(s) => "WebSocket error: "@ + s@,
        WsError::ConnectionClosed => "Connection closed"@,
    }
}

impl WsError {
    /// The error's display text: `WebSocket error: <detail>` or `Connection closed`.
    pub fn to_display_string(&self) -> (text: String)
        ensures
            text@ == ws_error_text(*self),
    {
        match self {
            WsError::WebSocket(s) => String::from_str("WebSocket error: ").concat(s.as_str()),
            WsError::ConnectionClosed => String::from_str("Connection closed"),
        }
    }
}

/// Axum WebSocket implementation
pub struct AxumWebSocket {
    /// The upgraded axum socket.
    pub socket: axum::extract::ws::WebSocket,
}

impl AxumWebSocket {
    /// Wraps an upgraded axum socket.
    pub fn new(socket: axum::extract::ws::WebSocket) -> (ws: Self)
        ensures
            ws.socket == socket,
    {
        Self { socket }
    }
}

/// The kind of a raw WebSocket frame, as its opcode gives it.
#[derive(Debug, Clone, Copy, PartialEq, Eq, Structural)]
pub enum FrameKind {
    Continuation,
    Text,
    Binary,
    Close,
    Ping,
    Pong,
}

/// What `String::from_utf8_lossy` makes of a byte sequence.
pub uninterp spec fn utf8_lossy(bytes: Seq<u8>) -> Seq<char>;

/// Decodes bytes as UTF-8, replacing invalid sequences (`String::from_utf8_lossy`).
/// The result is named by `utf8_lossy` of the bytes.
#[verifier::external_body]
fn decode_utf8_lossy(bytes: &[u8]) -> (text: String)
    ensures
        text@ == utf8_lossy(bytes@),
{
    String::from_utf8_lossy(bytes).into_owned()
}

/// The close status code carried by the first two payload bytes (big-endian).
pub open spec fn close_code(payload: Seq<u8>) -> u16 {
    (payload[0] as int * 256 + payload[1] as int) as u16
}

/// The message that a complete frame stands for, or the error for a stray
/// continuation frame.  A close frame with fewer than two payload bytes
/// carries no code; otherwise its code is big-endian and the rest is the
/// reason text.
pub open spec fn frame_message_spec(kind: FrameKind, payload: Seq<u8>) -> Result<WsMessageView, Seq<char>> {
    match kind {
        FrameKind::Text => Ok(WsMessageView::Text(utf8_lossy(payload))),
        FrameKind::Binary => Ok(WsMessageView::Binary(payload)),
        FrameKind::Close =>
            if payload.len() >= 2 {
                Ok(WsMessageView::Close(Some((close_code(payload), utf8_lossy(payload.subrange(2, payload.len() as int))))))
            } else {
                Ok(WsMessageView::Close(None))
            },
        FrameKind::Ping => Ok(WsMessageView::Ping(payload)),
        FrameKind::Pong => Ok(WsMessageView::Pong(payload)),
        FrameKind::Continuation => Err("Unexpected continuation frame"@),
    }
}

/// The mathematical value of a `WsMessage`.
pub enum WsMessageView {
    Text(Seq<char>),
    Binary(Seq<u8>),
    Close(Option<(u16, Seq<char>)>),
    Ping(Seq<u8>),
    Pong(Seq<u8>),
}

impl View for WsMessage {
    type V = WsMessageView;

    open spec fn view(&self) -> WsMessageView {
        match self {
            WsMessage::Text(t) => WsMessageView::Text(t@),
            WsMessage::Binary(b) => WsMessageView::Binary(b@),
            WsMessage::Close(c) => WsMessageView::Close(
                match c {
                    Some((code, reason)) => Some((*code, reason@)),
                    None => None,
                },
            ),
            WsMessage::Ping(b) => WsMessageView::Ping(b@),
            WsMessage::Pong(b) => WsMessageView::Pong(b@),
        }
    }
}

/// Turns a complete frame (fragments already collected) into a message.
pub fn frame_to_message(kind: FrameKind, payload: &[u8]) -> (res: Result<WsMessage, WsError>)
    ensures
        match frame_message_spec(kind, payload@) {
            Ok(m) => res matches Ok(msg) && msg@ == m,
            Err(e) => res matches Err(WsError::WebSocket(s)) && s@ == e,
        },
        (kind == FrameKind::Close && payload@.len() >= 2) ==> (res matches Ok(
            WsMessage::Close(Some((code, reason))),
        ) && code as int == payload@[0] as int * 256 + payload@[1] as int && reason@ == utf8_lossy(
            payload@.subrange(2, payload@.len() as int),
        )),
        (kind == FrameKind::Close && payload@.len() < 2) ==> (res matches Ok(WsMessage::Close(None))),
{
    match kind {
        FrameKind::Text => Ok(WsMessage::Text(decode_utf8_lossy(payload))),
        FrameKind::Binary => Ok(WsMessage::Binary(slice_to_vec(payload))),
        FrameKind::Close => {
            if payload.len() >= 2 {
                let code: u16 = (payload[0] as u16) * 256 + (payload[1] as u16);
                let reason = decode_utf8_lossy(slice_subrange(payload, 2, payload.len()));
                Ok(WsMessage::Close(Some((code, reason))))
            } else {
                Ok(WsMessage::Close(None))
            }
        },
        FrameKind::Ping => Ok(WsMessage::Ping(slice_to_vec(payload))),
        FrameKind::Pong => Ok(WsMessage::Pong(slice_to_vec(payload))),
        FrameKind::Continuation => Err(WsError::WebSocket(String::from_str("Unexpected continuation frame"))),
    }
}

/// A socket error displays as "WebSocket error: " followed by its detail,
/// a closed connection as "Connection closed".
pub proof fn law_ws_error_display(e: WsError)
    ensures
        e matches WsError::WebSocket(detail) ==> ws_error_text(e) == "WebSocket error: "@ + detail@,
        e is ConnectionClosed ==> ws_error_text(e) == "Connection closed"@,
{
}

/// How each kind of complete frame is decoded.  A close frame with at least
/// two payload bytes carries the big-endian code `payload[0] * 256 +
/// payload[1]` and, as its reason, the lossy UTF-8 decoding of the bytes
/// after them (empty when there are none); only a shorter payload gives a
/// close without code.  Text is decoded lossily, binary, ping and pong
/// payloads are kept byte for byte, and a lone continuation frame is an
/// error.
pub proof fn law_frame_decoding(kind: FrameKind, payload: Seq<u8>)
    ensures
        (kind == FrameKind::Close && payload.len() >= 2) ==> (frame_message_spec(kind, payload) matches Ok(
            WsMessageView::Close(Some((code, reason))),
        ) && code as int == payload[0] as int * 256 + payload[1] as int && reason == utf8_lossy(
            payload.subrange(2, payload.len() as int),
        )),
        (kind == FrameKind::Close && payload.len() < 2) ==> frame_message_spec(kind, payload) == Ok::<
            WsMessageView,
            Seq<char>,
        >(WsMessageView::Close(None)),
        kind == FrameKind::Text ==> frame_message_spec(kind, payload) == Ok::<WsMessageView, Seq<char>>(
            WsMessageView::Text(utf8_lossy(payload)),
        ),
        kind == FrameKind::Binary ==> frame_message_spec(kind, payload) == Ok::<
            WsMessageView,
            Seq<char>,
        >(WsMessageView::Binary(payload)),
        kind == FrameKind::Ping ==> frame_message_spec(kind, payload) == Ok::<WsMessageView, Seq<char>>(
            WsMessageView::Ping(payload),
        ),
        kind == FrameKind::Pong ==> frame_message_spec(kind, payload) == Ok::<WsMessageView, Seq<char>>(
            WsMessageView::Pong(payload),
        ),
        kind == FrameKind::Continuation ==> frame_message_spec(kind, payload) == Err::<
            WsMessageView,
            Seq<char>,
        >("Unexpected continuation frame"@),
{
    if kind == FrameKind::Close && payload.len() >= 2 {
        let value: int = payload[0] as int * 256 + payload[1] as int;
        assert(0 <= value < 65536);
        assert(value as u16 as int == value);
    }
}

} // verus!
