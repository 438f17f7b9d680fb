//! The bridge of one connection: the decisions of its two roles, of its send
//! loop and of its teardown, over what the driver reports.

use crate::config::SerialConfig;
use crate::events::{
    FrameStep, HandshakeReply, Inbound, OpenRequest, ReadOutcome, ReaderTurn, RoleStep,
    SenderTurn, WriterTurn, READ_BUFFER_LEN, READ_TIMEOUT_SECS,
};
use crate::guard::{DeviceGuard, Role};
use crate::model::{under_way, CloseReason, ConnectionState, Phase};
use crate::queue::OrderingQueue;
use crate::router::{resolve, EndpointTable, Resolution};
use vstd::prelude::*;
use vstd::string::*;

verus! {

/// One connection between a client and a serial device.
///
/// The driver owns the socket, the device handle and the tasks of the roles.
/// It tells the connection what happened, through one method for each kind of
/// event, and does what the answer says. No method has a precondition: an
/// event that does not apply in the present phase changes nothing.
pub struct Connection {
    phase: Phase,
    endpoint: String,
    device: Option<SerialConfig>,
    reason: Option<CloseReason>,
    guard: DeviceGuard,
    queue: OrderingQueue,
    sending: bool,
    pending: Vec<u8>,
    in_flight: Ghost<Seq<u8>>,
    writing: Ghost<Option<Seq<u8>>>,
    from_device: Ghost<Seq<u8>>,
    to_client: Ghost<Seq<u8>>,
    from_client: Ghost<Seq<u8>>,
    to_device: Ghost<Seq<u8>>,
}

impl View for Connection {
    type V = ConnectionState;

    closed spec fn view(&self) -> ConnectionState {
        ConnectionState {
            phase: self.phase,
            endpoint: self.endpoint@,
            device: match self.device {
                Some(device) => Some(device@),
                None => None,
            },
            reason: self.reason,
            guard: self.guard@,
            queue: self.queue@,
            sending: if self.sending {
                Some(self.in_flight@)
            } else {
                None
            },
            pending: self.pending@,
            writing: self.writing@,
            from_device: self.from_device@,
            to_client: self.to_client@,
            from_client: self.from_client@,
            to_device: self.to_device@,
        }
    }
}

impl Connection {
    /// A connection whose upgrade request has not been looked at.
    pub fn new() -> (connection: Self)
        ensures
            connection@ == ConnectionState::initial(),
    {
        let connection = Connection {
            phase: Phase::Handshaking,
            endpoint: String::new(),
            device: None,
            reason: None,
            guard: DeviceGuard::new(),
            queue: OrderingQueue::new(),
            sending: false,
            pending: Vec::new(),
            in_flight: Ghost(Seq::empty()),
            writing: Ghost(None),
            from_device: Ghost(Seq::empty()),
            to_client: Ghost(Seq::empty()),
            from_client: Ghost(Seq::empty()),
            to_device: Ghost(Seq::empty()),
        };
        assert(connection@ =~= ConnectionState::initial());
        connection
    }

    /// Where the connection stands.
    pub fn phase(&self) -> (phase: Phase)
        ensures
            phase == self@.phase,
    {
        self.phase
    }

    /// Name of the endpoint that the request asked for.
    pub fn endpoint(&self) -> (name: &str)
        ensures
            name@ == self@.endpoint,
    {
        self.endpoint.as_str()
    }

    /// The connection's own copy of the device settings, once the endpoint is
    /// known.
    pub fn device(&self) -> (device: Option<&SerialConfig>)
        ensures
            match device {
                Some(found) => self@.device == Some(found@),
                None => self@.device is None,
            },
    {
        self.device.as_ref()
    }

    /// Why the connection ended, once it has.
    pub fn close_reason(&self) -> (reason: Option<CloseReason>)
        ensures
            reason == self@.reason,
    {
        self.reason
    }

    /// Whether the connection holds its device.
    pub fn holds_device(&self) -> (held: bool)
        ensures
            held == self@.holds_device(),
    {
        self.phase == Phase::Bridging || self.phase == Phase::Draining
    }

    /// Whether the reader role and the writer role exist.
    pub fn roles_alive(&self) -> (alive: bool)
        ensures
            alive == self@.roles_alive(),
    {
        self.phase == Phase::Bridging || self.phase == Phase::Draining
    }

    /// The role whose call runs against the device, if any.
    pub fn device_user(&self) -> (holder: Option<Role>)
        ensures
            holder == self@.guard.holder,
    {
        self.guard.holder()
    }

    /// Number of payloads that await sending.
    pub fn queued(&self) -> (count: usize)
        ensures
            count == self@.queue.len(),
    {
        self.queue.len()
    }

    /// Number of bytes from the client that await the device.
    pub fn pending_len(&self) -> (count: usize)
        ensures
            count == self@.pending.len(),
    {
        self.pending.len()
    }

    /// The upgrade request for `path` has arrived.
    ///
    /// The endpoint is resolved before anything else is done. A configured
    /// endpoint takes the connection to `PortOpening`, with its own copy of the
    /// device settings and the request to open that device. Any other name is
    /// answered with status 404 and closes the connection at once.
    pub fn on_request(&mut self, table: &EndpointTable, path: &str) -> (reply: HandshakeReply)
        ensures
            final(self)@ == old(self)@.on_request(table@, path@).0,
            reply@ == old(self)@.on_request(table@, path@).1,
    {
        if self.phase != Phase::Handshaking {
            return HandshakeReply::Ignored;
        }
        match resolve(table, path) {
            Resolution::Accepted { endpoint, device } => {
                let open = OpenRequest {
                    path: device.port.clone(),
                    baud_rate: device.baud_rate,
                    timeout_secs: READ_TIMEOUT_SECS,
                };
                self.endpoint = endpoint;
                self.device = Some(device);
                self.phase = Phase::PortOpening;
                assert(self@ =~= old(self)@.on_request(table@, path@).0);
                HandshakeReply::Upgrade { open }
            },
            Resolution::Rejected { endpoint, status } => {
                self.endpoint = endpoint;
                self.reason = Some(CloseReason::HandshakeRejected);
                self.phase = Phase::Closed;
                assert(self@ =~= old(self)@.on_request(table@, path@).0);
                HandshakeReply::Reject { status }
            },
        }
    }

    /// The attempt to open the device has ended.
    ///
    /// With the device open the connection is `Bridging`, and the answer is
    /// `true`: the roles are to be started. Without it the connection is
    /// closed, and nothing is started.
    pub fn on_device_open(&mut self, opened: bool) -> (start: bool)
        ensures
            final(self)@ == old(self)@.on_device_open(opened).0,
            start == old(self)@.on_device_open(opened).1,
    {
        if self.phase != Phase::PortOpening {
            return false;
        }
        if opened {
            self.phase = Phase::Bridging;
        } else {
            self.phase = Phase::Closed;
            self.reason = Some(CloseReason::DeviceOpenFailed);
        }
        assert(self@ =~= old(self)@.on_device_open(opened).0);
        opened
    }

    /// The reader role asks for the device, before a read.
    pub fn reader_turn(&mut self) -> (turn: ReaderTurn)
        ensures
            final(self)@ == old(self)@.reader_turn().0,
            turn == old(self)@.reader_turn().1,
    {
        if self.phase != Phase::Bridging {
            return ReaderTurn::Stop;
        }
        let granted = self.guard.acquire(Role::Reader);
        assert(self@ =~= old(self)@.reader_turn().0);
        if granted {
            ReaderTurn::Read { max_len: READ_BUFFER_LEN }
        } else {
            ReaderTurn::Wait
        }
    }

    /// A read from the device has returned, and the reader role gives the
    /// device back.
    ///
    /// Bytes that were read join the queue, behind all that wait, whether or
    /// not the read had been granted. A read that returned none changes
    /// nothing: the role asks again. A failed read ends the role and the
    /// connection.
    pub fn on_device_read(&mut self, outcome: ReadOutcome) -> (step: RoleStep)
        ensures
            final(self)@ == old(self)@.on_device_read(outcome@).0,
            step == old(self)@.on_device_read(outcome@).1,
    {
        self.guard.release(Role::Reader);
        if self.phase != Phase::Bridging {
            assert(self@ =~= old(self)@.on_device_read(outcome@).0);
            return RoleStep::Stop;
        }
        match outcome {
            ReadOutcome::Data(bytes) => {
                if bytes.len() > 0 {
                    self.from_device = Ghost(self.from_device@ + bytes@);
                    self.queue.push(bytes);
                }
                assert(self@ =~= old(self)@.on_device_read(outcome@).0);
                RoleStep::Continue
            },
            ReadOutcome::Failed => {
                self.phase = Phase::Draining;
                self.reason = Some(CloseReason::DeviceIoFailed);
                assert(self@ =~= old(self)@.on_device_read(outcome@).0);
                RoleStep::Stop
            },
        }
    }

    /// The send loop asks for the next payload.
    ///
    /// Payloads leave the queue in the order in which they joined it, one at a
    /// time: the next one is handed out when the one before is settled.
    pub fn sender_turn(&mut self) -> (turn: SenderTurn)
        ensures
            final(self)@ == old(self)@.sender_turn().0,
            turn@ == old(self)@.sender_turn().1,
    {
        if self.phase != Phase::Bridging {
            return SenderTurn::Stop;
        }
        if self.sending {
            return SenderTurn::Wait;
        }
        match self.queue.pop() {
            Some(payload) => {
                self.sending = true;
                self.in_flight = Ghost(payload@);
                assert(self@ =~= old(self)@.sender_turn().0);
                SenderTurn::Send(payload)
            },
            None => {
                assert(self@ =~= old(self)@.sender_turn().0);
                SenderTurn::Wait
            },
        }
    }

    /// Sending to the client has ended. A failure ends the loop and the
    /// connection.
    pub fn on_client_send(&mut self, delivered: bool) -> (step: RoleStep)
        ensures
            final(self)@ == old(self)@.on_client_send(delivered).0,
            step == old(self)@.on_client_send(delivered).1,
    {
        if delivered && self.sending {
            self.to_client = Ghost(self.to_client@ + self.in_flight@);
        }
        self.sending = false;
        if self.phase != Phase::Bridging {
            assert(self@ =~= old(self)@.on_client_send(delivered).0);
            return RoleStep::Stop;
        }
        if delivered {
            assert(self@ =~= old(self)@.on_client_send(delivered).0);
            RoleStep::Continue
        } else {
            self.phase = Phase::Draining;
            self.reason = Some(CloseReason::TransportIoFailed);
            assert(self@ =~= old(self)@.on_client_send(delivered).0);
            RoleStep::Stop
        }
    }

    /// The receiving side of the socket has handed out `frame`.
    ///
    /// The bytes of a binary or text frame are taken as they are, for the
    /// device; they wait behind bytes that were taken before and are not yet
    /// handed out. Other control frames are ignored. A close frame, a failure
    /// to receive or the end of the socket ends the role and the connection.
    pub fn on_client_frame(&mut self, frame: Inbound) -> (step: FrameStep)
        ensures
            final(self)@ == old(self)@.on_client_frame(frame@).0,
            step == old(self)@.on_client_frame(frame@).1,
    {
        if self.phase != Phase::Bridging {
            return FrameStep::Stop;
        }
        match frame {
            Inbound::Binary(bytes) => {
                let step = self.take_from_client(bytes);
                assert(self@ =~= old(self)@.on_client_frame(frame@).0);
                step
            },
            Inbound::Text(text) => {
                let step = self.take_from_client(text.as_str().as_bytes_vec());
                assert(self@ =~= old(self)@.on_client_frame(frame@).0);
                step
            },
            Inbound::Control => FrameStep::Receive,
            Inbound::Close => {
                self.phase = Phase::Draining;
                self.reason = Some(CloseReason::ClientClosed);
                assert(self@ =~= old(self)@.on_client_frame(frame@).0);
                FrameStep::Stop
            },
            Inbound::Failed | Inbound::Ended => {
                self.phase = Phase::Draining;
                self.reason = Some(CloseReason::TransportIoFailed);
                assert(self@ =~= old(self)@.on_client_frame(frame@).0);
                FrameStep::Stop
            },
        }
    }

    /// Puts the bytes of a data frame behind those that await the device.
    fn take_from_client(&mut self, bytes: Vec<u8>) -> (step: FrameStep)
        ensures
            final(self)@ == (ConnectionState {
                pending: old(self)@.pending + bytes@,
                from_client: old(self)@.from_client + bytes@,
                ..old(self)@
            }),
            step == if (old(self)@.pending + bytes@).len() == 0 {
                FrameStep::Receive
            } else {
                FrameStep::Write
            },
    {
        let ghost taken = bytes@;
        let mut rest = bytes;
        self.from_client = Ghost(self.from_client@ + taken);
        self.pending.append(&mut rest);
        assert(self@ =~= (ConnectionState {
            pending: old(self)@.pending + taken,
            from_client: old(self)@.from_client + taken,
            ..old(self)@
        }));
        if self.pending.len() == 0 {
            FrameStep::Receive
        } else {
            FrameStep::Write
        }
    }

    /// The writer role asks for the device, before a write.
    ///
    /// When the device is granted, all bytes that wait are handed out for a
    /// single write.
    pub fn writer_turn(&mut self) -> (turn: WriterTurn)
        ensures
            final(self)@ == old(self)@.writer_turn().0,
            turn@ == old(self)@.writer_turn().1,
    {
        if self.phase != Phase::Bridging {
            return WriterTurn::Stop;
        }
        if self.pending.len() == 0 {
            return WriterTurn::Idle;
        }
        if self.guard.acquire(Role::Writer) {
            let mut bytes: Vec<u8> = Vec::new();
            std::mem::swap(&mut bytes, &mut self.pending);
            self.writing = Ghost(Some(bytes@));
            assert(self@ =~= old(self)@.writer_turn().0);
            WriterTurn::Write(bytes)
        } else {
            assert(self@ =~= old(self)@.writer_turn().0);
            WriterTurn::Wait
        }
    }

    /// A write to the device has returned, and the writer role gives the
    /// device back. A failure ends the role and the connection.
    pub fn on_device_write(&mut self, written: bool) -> (step: RoleStep)
        ensures
            final(self)@ == old(self)@.on_device_write(written).0,
            step == old(self)@.on_device_write(written).1,
    {
        self.guard.release(Role::Writer);
        if written {
            self.to_device = Ghost(self.to_device@ + under_way(self.writing@));
        }
        self.writing = Ghost(None);
        if self.phase != Phase::Bridging {
            assert(self@ =~= old(self)@.on_device_write(written).0);
            return RoleStep::Stop;
        }
        if written {
            assert(self@ =~= old(self)@.on_device_write(written).0);
            RoleStep::Continue
        } else {
            self.phase = Phase::Draining;
            self.reason = Some(CloseReason::DeviceIoFailed);
            assert(self@ =~= old(self)@.on_device_write(written).0);
            RoleStep::Stop
        }
    }

    /// Tears the connection down.
    ///
    /// From `Draining` the connection becomes `Closed`: what waited is
    /// discarded, and the answer is `true`, for the driver to stop both roles,
    /// also one that is blocked in a call, and to release the device. In any
    /// other phase nothing happens.
    pub fn teardown(&mut self) -> (release: bool)
        ensures
            final(self)@ == old(self)@.teardown().0,
            release == old(self)@.teardown().1,
    {
        if self.phase != Phase::Draining {
            return false;
        }
        self.phase = Phase::Closed;
        self.guard.reset();
        self.queue.clear();
        self.sending = false;
        self.pending.clear();
        self.writing = Ghost(None);
        assert(self@ =~= old(self)@.teardown().0);
        true
    }
}

} // verus!
