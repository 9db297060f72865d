//! Frame classification and the payload size guard.
//!
//! `RawFrame` mirrors, as plain values, the discrete units a WebSocket
//! transport hands over (text, binary, ping, pong, close, or anything
//! unrecognized). The driver that owns the socket converts each frame it
//! reads into a `RawFrame` by moving the frame's bytes, so a text frame
//! carries its original byte representation, never a re-encoding.
//!
//! `classify` is a pure, total mapping from `RawFrame` to the `InboundFrame`
//! variant set: payload data, an ignorable control event, or a termination
//! signal. `accept` applies the size check to payload frames only.

use vstd::prelude::*;

verus! {

/// Whether a payload arrived as a text frame or a binary frame. Both are
/// treated identically once converted to a byte sequence.
#[derive(Clone, Copy, Debug, PartialEq, Eq, Structural)]
pub enum PayloadKind {
    Text,
    Binary,
}

/// An ignorable control event.
#[derive(Clone, Copy, Debug, PartialEq, Eq, Structural)]
pub enum ControlKind {
    Ping,
    Pong,
    /// Any unrecognized frame kind, treated as an ignorable control event.
    Other,
}

/// How a connection's inbound stream signalled its end.
#[derive(Clone, Copy, Debug, PartialEq, Eq, Structural)]
pub enum TerminationKind {
    /// The remote sent a close frame.
    Explicit,
    /// The byte stream ended without an explicit close frame.
    Implicit,
}

/// One discrete unit received from the transport, as plain values.
#[derive(Clone, Debug, PartialEq, Eq)]
pub enum RawFrame {
    /// A text frame, as its byte representation.
    Text(Vec<u8>),
    /// A binary frame.
    Binary(Vec<u8>),
    /// A ping control frame with its application data.
    Ping(Vec<u8>),
    /// A pong control frame with its application data.
    Pong(Vec<u8>),
    /// A close control frame.
    Close,
    /// Any other frame kind the transport exposes.
    Unrecognized,
}

/// The mathematical value of a [`RawFrame`].
pub enum RawFrameView {
    Text(Seq<u8>),
    Binary(Seq<u8>),
    Ping(Seq<u8>),
    Pong(Seq<u8>),
    Close,
    Unrecognized,
}

impl View for RawFrame {
    type V = RawFrameView;

    open spec fn view(&self) -> RawFrameView {
        match self {
            RawFrame::Text(b) => RawFrameView::Text(b@),
            RawFrame::Binary(b) => RawFrameView::Binary(b@),
            RawFrame::Ping(b) => RawFrameView::Ping(b@),
            RawFrame::Pong(b) => RawFrameView::Pong(b@),
            RawFrame::Close => RawFrameView::Close,
            RawFrame::Unrecognized => RawFrameView::Unrecognized,
        }
    }
}

/// A received frame, classified: payload data, a control frame, or a
/// termination signal.
#[derive(Clone, Debug, PartialEq, Eq)]
pub enum InboundFrame {
    /// Application data: the payload bytes and whether they arrived as text
    /// or binary.
    Payload { bytes: Vec<u8>, kind: PayloadKind },
    /// An ignorable control event.
    Control(ControlKind),
    /// The connection is over, explicitly or implicitly.
    Termination(TerminationKind),
}

/// The mathematical value of an [`InboundFrame`].
pub enum InboundFrameView {
    Payload { bytes: Seq<u8>, kind: PayloadKind },
    Control(ControlKind),
    Termination(TerminationKind),
}

impl View for InboundFrame {
    type V = InboundFrameView;

    open spec fn view(&self) -> InboundFrameView {
        match self {
            InboundFrame::Payload { bytes, kind } => InboundFrameView::Payload {
                bytes: bytes@,
                kind: *kind,
            },
            InboundFrame::Control(c) => InboundFrameView::Control(*c),
            InboundFrame::Termination(t) => InboundFrameView::Termination(*t),
        }
    }
}

/// What [`classify`] returns for each raw frame: text and binary frames are
/// payload data, ping and pong are control events, a close frame is the
/// explicit termination signal, and any unrecognized kind is an ignorable
/// control event. No raw frame maps to the implicit termination signal: that
/// arises only when the stream ends without any frame.
pub open spec fn spec_classify(raw: RawFrameView) -> InboundFrameView {
    match raw {
        RawFrameView::Text(b) => InboundFrameView::Payload { bytes: b, kind: PayloadKind::Text },
        RawFrameView::Binary(b) => InboundFrameView::Payload {
            bytes: b,
            kind: PayloadKind::Binary,
        },
        RawFrameView::Ping(_) => InboundFrameView::Control(ControlKind::Ping),
        RawFrameView::Pong(_) => InboundFrameView::Control(ControlKind::Pong),
        RawFrameView::Close => InboundFrameView::Termination(TerminationKind::Explicit),
        RawFrameView::Unrecognized => InboundFrameView::Control(ControlKind::Other),
    }
}

/// Classify one raw frame. Pure and total: errors are not possible at this
/// layer, and payload bytes are moved, never copied or re-encoded.
pub fn classify(raw: RawFrame) -> (f: InboundFrame)
    ensures
        f@ == spec_classify(raw@),
{
    match raw {
        RawFrame::Text(b) => InboundFrame::Payload { bytes: b, kind: PayloadKind::Text },
        RawFrame::Binary(b) => InboundFrame::Payload { bytes: b, kind: PayloadKind::Binary },
        RawFrame::Ping(_) => InboundFrame::Control(ControlKind::Ping),
        RawFrame::Pong(_) => InboundFrame::Control(ControlKind::Pong),
        RawFrame::Close => InboundFrame::Termination(TerminationKind::Explicit),
        RawFrame::Unrecognized => InboundFrame::Control(ControlKind::Other),
    }
}

/// A payload frame whose byte length is within the configured maximum: the
/// unit handed to the delivery sink.
#[derive(Clone, Debug, PartialEq, Eq)]
pub struct AcceptedMessage {
    /// The payload, byte for byte as it was received.
    pub bytes: Vec<u8>,
    /// Whether the payload arrived as a text frame or a binary frame.
    pub kind: PayloadKind,
}

/// The mathematical value of an [`AcceptedMessage`].
pub struct AcceptedMessageView {
    pub bytes: Seq<u8>,
    pub kind: PayloadKind,
}

impl View for AcceptedMessage {
    type V = AcceptedMessageView;

    open spec fn view(&self) -> AcceptedMessageView {
        AcceptedMessageView { bytes: self.bytes@, kind: self.kind }
    }
}

/// What [`accept`] returns: a payload frame passes if and only if its byte
/// length is at most `max_size`; control frames and termination signals are
/// never accepted. The size check applies to payload frames only.
pub open spec fn spec_accept(f: InboundFrameView, max_size: nat) -> Option<AcceptedMessageView> {
    match f {
        InboundFrameView::Payload { bytes, kind } => if bytes.len() <= max_size {
            Some(AcceptedMessageView { bytes, kind })
        } else {
            None
        },
        InboundFrameView::Control(_) => None,
        InboundFrameView::Termination(_) => None,
    }
}

/// Apply the size guard: a payload frame within the size limit becomes an
/// [`AcceptedMessage`], with its bytes unchanged; everything else is `None`.
pub fn accept(f: InboundFrame, max_size: usize) -> (r: Option<AcceptedMessage>)
    ensures
        match r {
            Some(m) => spec_accept(f@, max_size as nat) == Some(m@),
            None => spec_accept(f@, max_size as nat) is None,
        },
{
    match f {
        InboundFrame::Payload { bytes, kind } => if bytes.len() <= max_size {
            Some(AcceptedMessage { bytes, kind })
        } else {
            None
        },
        InboundFrame::Control(_) => None,
        InboundFrame::Termination(_) => None,
    }
}

} // verus!
