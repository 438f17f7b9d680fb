//! The bridge of one connection as a mathematical state machine.
//!
//! A state holds what the connection is at one moment, together with the
//! bytes that have crossed it so far in each direction. The transitions are
//! total: what does not apply in a state leaves it as it is.

use crate::config::SerialConfigView;
use crate::events::{
    open_request_for, FrameStep, HandshakeReplyView, InboundView, ReadOutcomeView, ReaderTurn,
    RoleStep, SenderTurnView, WriterTurnView, READ_BUFFER_LEN,
};
use crate::guard::{GuardState, Role};
use crate::queue::concat;
use crate::router::{resolution, ResolutionView};
use vstd::prelude::*;

verus! {

/// Where a connection stands in its life.
#[derive(Clone, Copy, Debug, PartialEq, Eq, Structural)]
pub enum Phase {
    /// The upgrade request has not been answered.
    Handshaking,
    /// The endpoint is known and its device is being opened.
    PortOpening,
    /// Bytes flow in both directions.
    Bridging,
    /// The connection is over; its roles and its device await release.
    Draining,
    /// Nothing is left of the connection.
    Closed,
}

impl Phase {
    /// Position of the phase in the life of a connection.
    pub open spec fn rank(self) -> nat {
        match self {
            Phase::Handshaking => 0,
            Phase::PortOpening => 1,
            Phase::Bridging => 2,
            Phase::Draining => 3,
            Phase::Closed => 4,
        }
    }
}

/// Why a connection ended.
#[derive(Clone, Copy, Debug, PartialEq, Eq, Structural)]
pub enum CloseReason {
    /// The request named no configured endpoint.
    HandshakeRejected,
    /// The device could not be opened.
    DeviceOpenFailed,
    /// A read from the device or a write to it failed.
    DeviceIoFailed,
    /// Sending to the client or receiving from it failed.
    TransportIoFailed,
    /// The client sent a close frame.
    ClientClosed,
}

/// The bytes of a transfer that is under way, if there is one.
pub open spec fn under_way(transfer: Option<Seq<u8>>) -> Seq<u8> {
    match transfer {
        Some(bytes) => bytes,
        None => Seq::empty(),
    }
}

/// The state of one connection.
#[verifier::ext_equal]
pub ghost struct ConnectionState {
    /// Where the connection stands.
    pub phase: Phase,
    /// Name of the endpoint that the request asked for.
    pub endpoint: Seq<char>,
    /// The connection's own copy of the device settings.
    pub device: Option<SerialConfigView>,
    /// Why the connection ended, once it has.
    pub reason: Option<CloseReason>,
    /// Who may use the device.
    pub guard: GuardState,
    /// Payloads read from the device that await sending, oldest first.
    pub queue: Seq<Seq<u8>>,
    /// The payload that the send loop is sending.
    pub sending: Option<Seq<u8>>,
    /// Bytes from the client that await the device.
    pub pending: Seq<u8>,
    /// The bytes that the writer role is writing to the device.
    pub writing: Option<Seq<u8>>,
    /// All bytes taken from the device, in order.
    pub from_device: Seq<u8>,
    /// All bytes that the client has been sent, in order.
    pub to_client: Seq<u8>,
    /// All bytes taken from the client, in order.
    pub from_client: Seq<u8>,
    /// All bytes that the device has been written, in order.
    pub to_device: Seq<u8>,
}

/// One call of the driver into the bridge, with what it reports.
pub ghost enum Event {
    /// The upgrade request for `path` arrived, with `table` the endpoints.
    Request { table: Map<Seq<char>, SerialConfigView>, path: Seq<char> },
    /// The attempt to open the device ended.
    DeviceOpen { opened: bool },
    /// The reader role asks for the device.
    ReaderTurn,
    /// A read from the device returned.
    DeviceRead { outcome: ReadOutcomeView },
    /// The send loop asks for the next payload.
    SenderTurn,
    /// Sending to the client ended.
    ClientSend { delivered: bool },
    /// The receiving side of the socket handed out a frame.
    ClientFrame { frame: InboundView },
    /// The writer role asks for the device.
    WriterTurn,
    /// A write to the device returned.
    DeviceWrite { written: bool },
    /// The driver tears the connection down.
    Teardown,
}

impl ConnectionState {
    /// A connection whose upgrade request has not been looked at.
    pub open spec fn initial() -> ConnectionState {
        ConnectionState {
            phase: Phase::Handshaking,
            endpoint: Seq::empty(),
            device: None,
            reason: None,
            guard: GuardState::free(),
            queue: Seq::empty(),
            sending: None,
            pending: Seq::empty(),
            writing: None,
            from_device: Seq::empty(),
            to_client: Seq::empty(),
            from_client: Seq::empty(),
            to_device: Seq::empty(),
        }
    }

    /// Whether the connection holds its device.
    pub open spec fn holds_device(self) -> bool {
        self.phase == Phase::Bridging || self.phase == Phase::Draining
    }

    /// Whether the reader role and the writer role exist. They are started
    /// when the device is open and are gone when the connection is closed.
    pub open spec fn roles_alive(self) -> bool {
        self.phase == Phase::Bridging || self.phase == Phase::Draining
    }

    /// Whether no byte has crossed the connection in either direction.
    pub open spec fn nothing_forwarded(self) -> bool {
        &&& self.from_device.len() == 0
        &&& self.to_client.len() == 0
        &&& self.from_client.len() == 0
        &&& self.to_device.len() == 0
    }

    /// Whether nothing waits and nothing is under way.
    pub open spec fn at_rest(self) -> bool {
        &&& self.guard == GuardState::free()
        &&& self.queue.len() == 0
        &&& self.sending is None
        &&& self.pending.len() == 0
        &&& self.writing is None
    }

    /// The connection ends for `reason`: it leaves `Bridging` for `Draining`.
    pub open spec fn fail(self, reason: CloseReason) -> ConnectionState {
        ConnectionState { phase: Phase::Draining, reason: Some(reason), ..self }
    }

    /// What a role is told that reports in this phase.
    pub open spec fn role_step(self) -> RoleStep {
        if self.phase == Phase::Bridging {
            RoleStep::Continue
        } else {
            RoleStep::Stop
        }
    }

    /// The upgrade request for `path` arrives, with `table` the configured
    /// endpoints.
    pub open spec fn on_request(
        self,
        table: Map<Seq<char>, SerialConfigView>,
        path: Seq<char>,
    ) -> (ConnectionState, HandshakeReplyView) {
        if self.phase != Phase::Handshaking {
            (self, HandshakeReplyView::Ignored)
        } else {
            match resolution(table, path) {
                ResolutionView::Accepted { endpoint, device } => (
                    ConnectionState {
                        phase: Phase::PortOpening,
                        endpoint,
                        device: Some(device),
                        ..self
                    },
                    HandshakeReplyView::Upgrade { open: open_request_for(device) },
                ),
                ResolutionView::Rejected { endpoint, status } => (
                    ConnectionState {
                        phase: Phase::Closed,
                        endpoint,
                        reason: Some(CloseReason::HandshakeRejected),
                        ..self
                    },
                    HandshakeReplyView::Reject { status },
                ),
            }
        }
    }

    /// The attempt to open the device has ended. The answer says whether the
    /// roles are to be started.
    pub open spec fn on_device_open(self, opened: bool) -> (ConnectionState, bool) {
        if self.phase != Phase::PortOpening {
            (self, false)
        } else if opened {
            (ConnectionState { phase: Phase::Bridging, ..self }, true)
        } else {
            (
                ConnectionState {
                    phase: Phase::Closed,
                    reason: Some(CloseReason::DeviceOpenFailed),
                    ..self
                },
                false,
            )
        }
    }

    /// The reader role asks for the device.
    pub open spec fn reader_turn(self) -> (ConnectionState, ReaderTurn) {
        if self.phase != Phase::Bridging {
            (self, ReaderTurn::Stop)
        } else {
            (
                ConnectionState { guard: self.guard.acquire(Role::Reader), ..self },
                if self.guard.grants(Role::Reader) {
                    ReaderTurn::Read { max_len: READ_BUFFER_LEN }
                } else {
                    ReaderTurn::Wait
                },
            )
        }
    }

    /// A read from the device has returned.
    pub open spec fn on_device_read(self, outcome: ReadOutcomeView) -> (
        ConnectionState,
        RoleStep,
    ) {
        let released = ConnectionState { guard: self.guard.release(Role::Reader), ..self };
        if self.phase != Phase::Bridging {
            (released, RoleStep::Stop)
        } else {
            match outcome {
                ReadOutcomeView::Data(bytes) => if bytes.len() == 0 {
                    (released, RoleStep::Continue)
                } else {
                    (
                        ConnectionState {
                            queue: self.queue.push(bytes),
                            from_device: self.from_device + bytes,
                            ..released
                        },
                        RoleStep::Continue,
                    )
                },
                ReadOutcomeView::Failed => (
                    released.fail(CloseReason::DeviceIoFailed),
                    RoleStep::Stop,
                ),
            }
        }
    }

    /// The send loop asks for the next payload.
    pub open spec fn sender_turn(self) -> (ConnectionState, SenderTurnView) {
        if self.phase != Phase::Bridging {
            (self, SenderTurnView::Stop)
        } else if self.sending is Some || self.queue.len() == 0 {
            (self, SenderTurnView::Wait)
        } else {
            (
                ConnectionState {
                    queue: self.queue.skip(1),
                    sending: Some(self.queue[0]),
                    ..self
                },
                SenderTurnView::Send(self.queue[0]),
            )
        }
    }

    /// Sending to the client has ended.
    pub open spec fn on_client_send(self, delivered: bool) -> (ConnectionState, RoleStep) {
        let settled = ConnectionState {
            sending: None,
            to_client: if delivered {
                self.to_client + under_way(self.sending)
            } else {
                self.to_client
            },
            ..self
        };
        if self.phase != Phase::Bridging {
            (settled, RoleStep::Stop)
        } else if delivered {
            (settled, RoleStep::Continue)
        } else {
            (settled.fail(CloseReason::TransportIoFailed), RoleStep::Stop)
        }
    }

    /// The receiving side of the socket has handed out `frame`.
    pub open spec fn on_client_frame(self, frame: InboundView) -> (ConnectionState, FrameStep) {
        if self.phase != Phase::Bridging {
            (self, FrameStep::Stop)
        } else {
            match frame {
                InboundView::Data(bytes) => (
                    ConnectionState {
                        pending: self.pending + bytes,
                        from_client: self.from_client + bytes,
                        ..self
                    },
                    if (self.pending + bytes).len() == 0 {
                        FrameStep::Receive
                    } else {
                        FrameStep::Write
                    },
                ),
                InboundView::Control => (self, FrameStep::Receive),
                InboundView::Close => (self.fail(CloseReason::ClientClosed), FrameStep::Stop),
                InboundView::Failed => (
                    self.fail(CloseReason::TransportIoFailed),
                    FrameStep::Stop,
                ),
            }
        }
    }

    /// The writer role asks for the device.
    pub open spec fn writer_turn(self) -> (ConnectionState, WriterTurnView) {
        if self.phase != Phase::Bridging {
            (self, WriterTurnView::Stop)
        } else if self.pending.len() == 0 {
            (self, WriterTurnView::Idle)
        } else if self.guard.grants(Role::Writer) {
            (
                ConnectionState {
                    guard: self.guard.acquire(Role::Writer),
                    pending: Seq::empty(),
                    writing: Some(self.pending),
                    ..self
                },
                WriterTurnView::Write(self.pending),
            )
        } else {
            (
                ConnectionState { guard: self.guard.acquire(Role::Writer), ..self },
                WriterTurnView::Wait,
            )
        }
    }

    /// A write to the device has returned.
    pub open spec fn on_device_write(self, written: bool) -> (ConnectionState, RoleStep) {
        let settled = ConnectionState {
            guard: self.guard.release(Role::Writer),
            writing: None,
            to_device: if written {
                self.to_device + under_way(self.writing)
            } else {
                self.to_device
            },
            ..self
        };
        if self.phase != Phase::Bridging {
            (settled, RoleStep::Stop)
        } else if written {
            (settled, RoleStep::Continue)
        } else {
            (settled.fail(CloseReason::DeviceIoFailed), RoleStep::Stop)
        }
    }

    /// The connection is torn down. The answer says whether the roles are to
    /// be stopped and the device released.
    pub open spec fn teardown(self) -> (ConnectionState, bool) {
        if self.phase != Phase::Draining {
            (self, false)
        } else {
            (
                ConnectionState {
                    phase: Phase::Closed,
                    guard: GuardState::free(),
                    queue: Seq::empty(),
                    sending: None,
                    pending: Seq::empty(),
                    writing: None,
                    ..self
                },
                true,
            )
        }
    }

    /// The state after `event`.
    pub open spec fn step(self, event: Event) -> ConnectionState {
        match event {
            Event::Request { table, path } => self.on_request(table, path).0,
            Event::DeviceOpen { opened } => self.on_device_open(opened).0,
            Event::ReaderTurn => self.reader_turn().0,
            Event::DeviceRead { outcome } => self.on_device_read(outcome).0,
            Event::SenderTurn => self.sender_turn().0,
            Event::ClientSend { delivered } => self.on_client_send(delivered).0,
            Event::ClientFrame { frame } => self.on_client_frame(frame).0,
            Event::WriterTurn => self.writer_turn().0,
            Event::DeviceWrite { written } => self.on_device_write(written).0,
            Event::Teardown => self.teardown().0,
        }
    }

    /// The state after a run of events, the first event first.
    pub open spec fn run(self, events: Seq<Event>) -> ConnectionState
        decreases events.len(),
    {
        if events.len() == 0 {
            self
        } else {
            self.run(events.drop_last()).step(events.last())
        }
    }

    /// What holds of every state that a connection can be in.
    pub open spec fn inv(self) -> bool {
        &&& self.guard.wf()
        &&& (self.to_client + under_way(self.sending)).is_prefix_of(self.from_device)
        &&& (self.to_device + under_way(self.writing)).is_prefix_of(self.from_client)
        &&& (self.writing is Some ==> self.guard.holder == Some(Role::Writer))
        &&& match self.phase {
            Phase::Handshaking => {
                &&& self.device is None
                &&& self.reason is None
                &&& self.at_rest()
                &&& self.nothing_forwarded()
            },
            Phase::PortOpening => {
                &&& self.device is Some
                &&& self.reason is None
                &&& self.at_rest()
                &&& self.nothing_forwarded()
            },
            Phase::Bridging => {
                &&& self.device is Some
                &&& self.reason is None
                &&& self.from_device =~= self.to_client + under_way(self.sending) + concat(
                    self.queue,
                )
                &&& self.from_client =~= self.to_device + under_way(self.writing) + self.pending
            },
            Phase::Draining => {
                &&& self.device is Some
                &&& (self.reason == Some(CloseReason::DeviceIoFailed) || self.reason == Some(
                    CloseReason::TransportIoFailed,
                ) || self.reason == Some(CloseReason::ClientClosed))
            },
            Phase::Closed => {
                &&& self.reason is Some
                &&& self.at_rest()
                &&& (self.reason == Some(CloseReason::HandshakeRejected) ==> self.device is None)
                &&& (self.reason == Some(CloseReason::HandshakeRejected) || self.reason == Some(
                    CloseReason::DeviceOpenFailed,
                ) ==> self.nothing_forwarded())
            },
        }
    }
}

} // verus!
