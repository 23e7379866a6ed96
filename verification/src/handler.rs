//! Reasons for which a connection ends.

use vstd::prelude::*;

verus! {

/// A close frame as a peer sends it: a status code and a reason text.
#[derive(Debug, Clone)]
pub struct CloseFrame {
    /// The close status code.
    pub code: u16,
    /// The reason text that came with the code.
    pub reason: String,
}

/// Reason for WebSocket disconnection.
#[derive(Debug, Clone)]
pub enum DisconnectReason {
    /// Normal close with code and reason
    Close(u16, String),
    /// Connection error
    Error(String),
    /// Connection timeout
    Timeout(String),
    /// Unknown disconnection
    Unknown,
}

/// The reason that a close frame (or its absence) stands for, with texts
/// taken by their views.
pub open spec fn close_frame_reason_spec(frame: Option<CloseFrame>) -> DisconnectReasonView {
    match frame {
        Some(f) => DisconnectReasonView::Close(f.code, f.reason@),
        None => DisconnectReasonView::Unknown,
    }
}

/// The mathematical value of a `DisconnectReason`: texts as character sequences.
pub enum DisconnectReasonView {
    Close(u16, Seq<char>),
    Error(Seq<char>),
    Timeout(Seq<char>),
    Unknown,
}

impl View for DisconnectReason {
    type V = DisconnectReasonView;

    open spec fn view(&self) -> DisconnectReasonView {
        match self {
            DisconnectReason::Close(code, reason) => DisconnectReasonView::Close(*code, reason@),
            DisconnectReason::Error(e) => DisconnectReasonView::Error(e@),
            DisconnectReason::Timeout(t) => DisconnectReasonView::Timeout(t@),
            DisconnectReason::Unknown => DisconnectReasonView::Unknown,
        }
    }
}

impl DisconnectReason {
    /// Create from close frame: a frame gives `Close` with its code and
    /// reason, no frame gives `Unknown`.
    pub fn from_close_frame(frame: Option<CloseFrame>) -> (reason: Self)
        ensures
            reason@ == close_frame_reason_spec(frame),
            frame matches Some(f) ==> reason@ == DisconnectReasonView::Close(f.code, f.reason@),
            frame is None ==> reason is Unknown,
    {
        match frame {
            Some(frame) => DisconnectReason::Close(frame.code, frame.reason),
            None => DisconnectReason::Unknown,
        }
    }
}

/// A peer's close frame becomes the disconnect reason with its code and its
/// reason text kept as they came, whatever the text (empty included); only
/// the absence of a frame gives an unknown reason.
pub proof fn law_close_frame_kept(frame: Option<CloseFrame>)
    ensures
        frame matches Some(f) ==> close_frame_reason_spec(frame) == DisconnectReasonView::Close(
            f.code,
            f.reason@,
        ),
        close_frame_reason_spec(frame) is Unknown <==> frame is None,
        close_frame_reason_spec(frame) is Close || close_frame_reason_spec(frame) is Unknown,
{
}

} // verus!
