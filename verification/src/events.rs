//! What the driver of a connection reports to the bridge, and what the bridge
//! answers.

use crate::config::SerialConfigView;
use vstd::prelude::*;

verus! {

/// Size of the buffer for a single read from the device, in bytes.
pub const READ_BUFFER_LEN: usize = 1024;

/// Time after which a read from the device gives up, in seconds.
pub const READ_TIMEOUT_SECS: u64 = 10;

/// The settings with which the device of a connection is to be opened, for
/// this connection alone.
#[derive(Debug)]
pub struct OpenRequest {
    /// Operating-system name of the device.
    pub path: String,
    /// Line speed in baud.
    pub baud_rate: u32,
    /// Time after which a read gives up, in seconds.
    pub timeout_secs: u64,
}

/// An [`OpenRequest`] as a mathematical value.
pub ghost struct OpenRequestView {
    pub path: Seq<char>,
    pub baud_rate: u32,
    pub timeout_secs: u64,
}

impl View for OpenRequest {
    type V = OpenRequestView;

    open spec fn view(&self) -> OpenRequestView {
        OpenRequestView {
            path: self.path@,
            baud_rate: self.baud_rate,
            timeout_secs: self.timeout_secs,
        }
    }
}

/// The request to open `device` with the fixed read timeout.
pub open spec fn open_request_for(device: SerialConfigView) -> OpenRequestView {
    OpenRequestView {
        path: device.port,
        baud_rate: device.baud_rate,
        timeout_secs: READ_TIMEOUT_SECS,
    }
}

/// The answer to an upgrade request.
#[derive(Debug)]
pub enum HandshakeReply {
    /// Complete the upgrade, then open the device as `open` says.
    Upgrade { open: OpenRequest },
    /// Refuse the upgrade with `status`. Nothing is opened or started.
    Reject { status: u16 },
    /// The connection is past its handshake: nothing is to be done.
    Ignored,
}

/// A [`HandshakeReply`] as a mathematical value.
pub ghost enum HandshakeReplyView {
    Upgrade { open: OpenRequestView },
    Reject { status: u16 },
    Ignored,
}

impl View for HandshakeReply {
    type V = HandshakeReplyView;

    open spec fn view(&self) -> HandshakeReplyView {
        match self {
            HandshakeReply::Upgrade { open } => HandshakeReplyView::Upgrade { open: open@ },
            HandshakeReply::Reject { status } => HandshakeReplyView::Reject { status: *status },
            HandshakeReply::Ignored => HandshakeReplyView::Ignored,
        }
    }
}

/// How a single read from the device ended.
#[derive(Debug)]
pub enum ReadOutcome {
    /// The read returned these bytes; there may be none.
    Data(Vec<u8>),
    /// The read failed.
    Failed,
}

/// A [`ReadOutcome`] as a mathematical value.
pub ghost enum ReadOutcomeView {
    Data(Seq<u8>),
    Failed,
}

impl View for ReadOutcome {
    type V = ReadOutcomeView;

    open spec fn view(&self) -> ReadOutcomeView {
        match self {
            ReadOutcome::Data(bytes) => ReadOutcomeView::Data(bytes@),
            ReadOutcome::Failed => ReadOutcomeView::Failed,
        }
    }
}

/// What the receiving side of the socket handed out.
#[derive(Debug)]
pub enum Inbound {
    /// A binary frame.
    Binary(Vec<u8>),
    /// A text frame.
    Text(String),
    /// A control frame other than close.
    Control,
    /// A close frame.
    Close,
    /// Receiving failed.
    Failed,
    /// The socket has no more frames, and none of them was a close frame.
    Ended,
}

/// An [`Inbound`] as a mathematical value. A binary frame and a text frame
/// both count for the bytes they carry and for nothing else; a socket that
/// ends without a close frame counts as one that failed.
pub ghost enum InboundView {
    Data(Seq<u8>),
    Control,
    Close,
    Failed,
}

impl View for Inbound {
    type V = InboundView;

    open spec fn view(&self) -> InboundView {
        match self {
            Inbound::Binary(bytes) => InboundView::Data(bytes@),
            Inbound::Text(text) => InboundView::Data(vstd::utf8::encode_utf8(text@)),
            Inbound::Control => InboundView::Control,
            Inbound::Close => InboundView::Close,
            Inbound::Failed => InboundView::Failed,
            Inbound::Ended => InboundView::Failed,
        }
    }
}

/// Whether a role goes on after what it reported.
#[derive(Clone, Copy, Debug, PartialEq, Eq, Structural)]
pub enum RoleStep {
    /// The role goes on.
    Continue,
    /// The role ends, and the connection is to be torn down.
    Stop,
}

/// What the writer role does after an inbound frame.
#[derive(Clone, Copy, Debug, PartialEq, Eq, Structural)]
pub enum FrameStep {
    /// Nothing is to be written: receive the next frame.
    Receive,
    /// Bytes wait for the device: ask for it.
    Write,
    /// The role ends, and the connection is to be torn down.
    Stop,
}

/// The answer to the reader role when it asks for the device.
#[derive(Clone, Copy, Debug, PartialEq, Eq, Structural)]
pub enum ReaderTurn {
    /// The device is the reader's for one read of at most `max_len` bytes.
    Read { max_len: usize },
    /// The device is in use: ask again.
    Wait,
    /// The role ends.
    Stop,
}

/// The answer to the send loop when it asks for the next payload.
#[derive(Debug)]
pub enum SenderTurn {
    /// Send these bytes to the client, as one binary frame.
    Send(Vec<u8>),
    /// Nothing waits, or a payload is under way: ask again.
    Wait,
    /// The loop ends.
    Stop,
}

/// A [`SenderTurn`] as a mathematical value.
pub ghost enum SenderTurnView {
    Send(Seq<u8>),
    Wait,
    Stop,
}

impl View for SenderTurn {
    type V = SenderTurnView;

    open spec fn view(&self) -> SenderTurnView {
        match self {
            SenderTurn::Send(bytes) => SenderTurnView::Send(bytes@),
            SenderTurn::Wait => SenderTurnView::Wait,
            SenderTurn::Stop => SenderTurnView::Stop,
        }
    }
}

/// The answer to the writer role when it asks for the device.
#[derive(Debug)]
pub enum WriterTurn {
    /// The device is the writer's for one write of these bytes, all of them.
    Write(Vec<u8>),
    /// No bytes wait for the device: receive the next frame.
    Idle,
    /// The device is in use: ask again.
    Wait,
    /// The role ends.
    Stop,
}

/// A [`WriterTurn`] as a mathematical value.
pub ghost enum WriterTurnView {
    Write(Seq<u8>),
    Idle,
    Wait,
    Stop,
}

impl View for WriterTurn {
    type V = WriterTurnView;

    open spec fn view(&self) -> WriterTurnView {
        match self {
            WriterTurn::Write(bytes) => WriterTurnView::Write(bytes@),
            WriterTurn::Idle => WriterTurnView::Idle,
            WriterTurn::Wait => WriterTurnView::Wait,
            WriterTurn::Stop => WriterTurnView::Stop,
        }
    }
}

} // verus!
