//! What holds of every connection, whatever the driver reports and in
//! whatever order.

use crate::config::SerialConfigView;
use crate::events::{
    open_request_for, FrameStep, HandshakeReplyView, InboundView, ReadOutcomeView, ReaderTurn,
    RoleStep, SenderTurnView, WriterTurnView, READ_BUFFER_LEN,
};
use crate::guard::Role;
use crate::model::{under_way, CloseReason, ConnectionState, Event, Phase};
use crate::queue::{concat, lemma_concat_first, lemma_concat_push};
use crate::router::{endpoint_of, NOT_FOUND};
use vstd::prelude::*;

verus! {

/// A connection starts in a state that meets the invariant.
pub proof fn lemma_initial_inv()
    ensures
        ConnectionState::initial().inv(),
{
}

/// Every event keeps the invariant.
pub proof fn lemma_step_inv(state: ConnectionState, event: Event)
    requires
        state.inv(),
    ensures
        state.step(event).inv(),
{
    match event {
        Event::DeviceRead { outcome } => {
            if let ReadOutcomeView::Data(bytes) = outcome {
                lemma_concat_push(state.queue, bytes);
            }
        },
        Event::SenderTurn => {
            if state.queue.len() > 0 {
                lemma_concat_first(state.queue);
            }
        },
        _ => {},
    }
}

/// Every state that a connection reaches meets the invariant.
pub proof fn lemma_run_inv(state: ConnectionState, events: Seq<Event>)
    requires
        state.inv(),
    ensures
        state.run(events).inv(),
    decreases events.len(),
{
    if events.len() > 0 {
        lemma_run_inv(state, events.drop_last());
        lemma_step_inv(state.run(events.drop_last()), events.last());
    }
}

/// A connection never goes back to an earlier phase.
pub proof fn lemma_phase_advances(state: ConnectionState, events: Seq<Event>)
    ensures
        state.phase.rank() <= state.run(events).phase.rank(),
    decreases events.len(),
{
    if events.len() > 0 {
        lemma_phase_advances(state, events.drop_last());
    }
}

/// `Closed` is final: a closed connection stays as it is, whatever is
/// reported to it, and answers nothing that would have the driver touch the
/// device or the socket.
pub proof fn lemma_closed_is_final(state: ConnectionState, event: Event)
    requires
        state.inv(),
        state.phase == Phase::Closed,
    ensures
        state.step(event) == state,
        state.reader_turn().1 == ReaderTurn::Stop,
        state.sender_turn().1 == SenderTurnView::Stop,
        state.writer_turn().1 == WriterTurnView::Stop,
        state.teardown().1 == false,
        event matches Event::Request { table, path } ==> state.on_request(table, path).1
            == HandshakeReplyView::Ignored,
        event matches Event::DeviceOpen { opened } ==> state.on_device_open(opened).1 == false,
        event matches Event::DeviceRead { outcome } ==> state.on_device_read(outcome).1
            == RoleStep::Stop,
        event matches Event::ClientSend { delivered } ==> state.on_client_send(delivered).1
            == RoleStep::Stop,
        event matches Event::ClientFrame { frame } ==> state.on_client_frame(frame).1
            == FrameStep::Stop,
        event matches Event::DeviceWrite { written } ==> state.on_device_write(written).1
            == RoleStep::Stop,
{
    assert(state.step(event) =~= state);
}

/// A closed connection stays as it is over any run of events.
pub proof fn lemma_closed_stays_closed(state: ConnectionState, events: Seq<Event>)
    requires
        state.inv(),
        state.phase == Phase::Closed,
    ensures
        state.run(events) == state,
    decreases events.len(),
{
    if events.len() > 0 {
        lemma_closed_stays_closed(state, events.drop_last());
        lemma_closed_is_final(state, events.last());
    }
}

/// A request for a name that the table does not hold is answered with status
/// 404. Its connection is closed at once and never holds a device: no event
/// changes it afterwards.
pub proof fn lemma_unknown_endpoint_is_rejected(
    table: Map<Seq<char>, SerialConfigView>,
    path: Seq<char>,
    events: Seq<Event>,
)
    requires
        !table.contains_key(endpoint_of(path)),
    ensures
        ({
            let (rejected, reply) = ConnectionState::initial().on_request(table, path);
            &&& reply == HandshakeReplyView::Reject { status: NOT_FOUND }
            &&& rejected.phase == Phase::Closed
            &&& rejected.reason == Some(CloseReason::HandshakeRejected)
            &&& rejected.device is None
            &&& !rejected.holds_device()
            &&& !rejected.roles_alive()
            &&& rejected.run(events) == rejected
        }),
{
    let rejected = ConnectionState::initial().on_request(table, path).0;
    lemma_closed_stays_closed(rejected, events);
}

/// A request for a configured name completes the upgrade and asks for the
/// device of that name, with the connection's own copy of its settings.
pub proof fn lemma_known_endpoint_is_accepted(
    table: Map<Seq<char>, SerialConfigView>,
    path: Seq<char>,
)
    requires
        table.contains_key(endpoint_of(path)),
    ensures
        ({
            let (accepted, reply) = ConnectionState::initial().on_request(table, path);
            &&& reply == HandshakeReplyView::Upgrade {
                open: open_request_for(table[endpoint_of(path)]),
            }
            &&& accepted.phase == Phase::PortOpening
            &&& accepted.endpoint == endpoint_of(path)
            &&& accepted.device == Some(table[endpoint_of(path)])
            &&& !accepted.holds_device()
        }),
{
}

/// With the device open the connection is bridging. Without it the
/// connection is closed at once, and no byte crosses it in either direction,
/// then or later.
pub proof fn lemma_open_decides(state: ConnectionState, events: Seq<Event>)
    requires
        state.inv(),
        state.phase == Phase::PortOpening,
    ensures
        state.on_device_open(true).0.phase == Phase::Bridging,
        state.on_device_open(true).0.holds_device(),
        state.on_device_open(true).1,
        ({
            let (failed, start) = state.on_device_open(false);
            &&& !start
            &&& failed.phase == Phase::Closed
            &&& failed.reason == Some(CloseReason::DeviceOpenFailed)
            &&& !failed.holds_device()
            &&& !failed.roles_alive()
            &&& failed.run(events).nothing_forwarded()
        }),
{
    let failed = state.on_device_open(false).0;
    lemma_closed_stays_closed(failed, events);
}

/// Client to device: in every state that a connection reaches, what the
/// device has been written is the start of what was taken from the client,
/// byte for byte. While bridging, the rest is what is being written and what
/// waits, in this order; when nothing is, the two streams are the same.
pub proof fn lemma_client_bytes_reach_device(events: Seq<Event>)
    ensures
        ({
            let state = ConnectionState::initial().run(events);
            &&& state.to_device.is_prefix_of(state.from_client)
            &&& state.phase == Phase::Bridging ==> state.from_client == state.to_device
                + under_way(state.writing) + state.pending
            &&& state.phase == Phase::Bridging && state.writing is None && state.pending.len()
                == 0 ==> state.to_device == state.from_client
        }),
{
    lemma_run_inv(ConnectionState::initial(), events);
    let state = ConnectionState::initial().run(events);
    assert(state.to_device.is_prefix_of(state.to_device + under_way(state.writing)));
}

/// Device to client: in every state that a connection reaches, what the
/// client has been sent is the start of what was taken from the device, byte
/// for byte. While bridging, the rest is what is being sent and what waits in
/// the queue, in this order; when nothing is, the two streams are the same.
pub proof fn lemma_device_bytes_reach_client(events: Seq<Event>)
    ensures
        ({
            let state = ConnectionState::initial().run(events);
            &&& state.to_client.is_prefix_of(state.from_device)
            &&& state.phase == Phase::Bridging ==> state.from_device == state.to_client
                + under_way(state.sending) + concat(state.queue)
            &&& state.phase == Phase::Bridging && state.sending is None && state.queue.len()
                == 0 ==> state.to_client == state.from_device
        }),
{
    lemma_run_inv(ConnectionState::initial(), events);
    let state = ConnectionState::initial().run(events);
    assert(state.to_client.is_prefix_of(state.to_client + under_way(state.sending)));
}

/// The bytes of a data frame are written to the device as they are: taken
/// from the client, handed out for one write when the device is free, and,
/// the write done, the next bytes that the device has been written.
pub proof fn lemma_frame_is_written_unchanged(state: ConnectionState, bytes: Seq<u8>)
    requires
        state.inv(),
        state.phase == Phase::Bridging,
        state.pending.len() == 0,
        state.guard.grants(Role::Writer),
        bytes.len() > 0,
    ensures
        ({
            let (taken, step) = state.on_client_frame(InboundView::Data(bytes));
            let (granted, turn) = taken.writer_turn();
            let (done, next) = granted.on_device_write(true);
            &&& step == FrameStep::Write
            &&& turn == WriterTurnView::Write(bytes)
            &&& next == RoleStep::Continue
            &&& done.phase == Phase::Bridging
            &&& done.from_client == state.from_client + bytes
            &&& done.to_device == state.to_device + bytes
            &&& done.pending.len() == 0
            &&& done.guard.holder is None
        }),
{
    let taken = state.on_client_frame(InboundView::Data(bytes)).0;
    assert(taken.pending =~= bytes);
}

/// What is read from the device reaches the client as it is: it joins the
/// queue, is handed out for sending when its turn has come, and, the sending
/// done, is the next bytes that the client has been sent.
pub proof fn lemma_read_is_sent_unchanged(state: ConnectionState, bytes: Seq<u8>)
    requires
        state.inv(),
        state.phase == Phase::Bridging,
        state.queue.len() == 0,
        state.sending is None,
        bytes.len() > 0,
    ensures
        ({
            let (read, step) = state.on_device_read(ReadOutcomeView::Data(bytes));
            let (handed, turn) = read.sender_turn();
            let (done, next) = handed.on_client_send(true);
            &&& step == RoleStep::Continue
            &&& turn == SenderTurnView::Send(bytes)
            &&& next == RoleStep::Continue
            &&& done.phase == Phase::Bridging
            &&& done.from_device == state.from_device + bytes
            &&& done.to_client == state.to_client + bytes
            &&& done.queue.len() == 0
        }),
{
}

/// The connection after the writer role has taken `frames` from the client,
/// one after the other, and has written the bytes of each to the device.
pub open spec fn after_frames(state: ConnectionState, frames: Seq<Seq<u8>>) -> ConnectionState
    decreases frames.len(),
{
    if frames.len() == 0 {
        state
    } else {
        after_frames(state, frames.drop_last()).on_client_frame(
            InboundView::Data(frames.last()),
        ).0.writer_turn().0.on_device_write(true).0
    }
}

/// The connection after the reader role has read `chunks` from the device,
/// one after the other, and the send loop has sent each to the client.
pub open spec fn after_reads(state: ConnectionState, chunks: Seq<Seq<u8>>) -> ConnectionState
    decreases chunks.len(),
{
    if chunks.len() == 0 {
        state
    } else {
        after_reads(state, chunks.drop_last()).reader_turn().0.on_device_read(
            ReadOutcomeView::Data(chunks.last()),
        ).0.sender_turn().0.on_client_send(true).0
    }
}

/// Client to device, frame by frame: whatever frames the client sends, and
/// however its bytes are spread over them, the device is written these bytes
/// and no others, in the order in which the client sent them.
pub proof fn lemma_frames_reach_device_in_order(state: ConnectionState, frames: Seq<Seq<u8>>)
    requires
        state.inv(),
        state.phase == Phase::Bridging,
        state.pending.len() == 0,
        state.guard.grants(Role::Writer),
    ensures
        ({
            let done = after_frames(state, frames);
            &&& done.inv()
            &&& done.phase == Phase::Bridging
            &&& done.pending.len() == 0
            &&& done.guard.grants(Role::Writer)
            &&& done.from_client == state.from_client + concat(frames)
            &&& done.to_device == state.to_device + concat(frames)
        }),
    decreases frames.len(),
{
    if frames.len() == 0 {
        assert(state.from_client + concat(frames) =~= state.from_client);
        assert(state.to_device + concat(frames) =~= state.to_device);
    } else {
        let before = after_frames(state, frames.drop_last());
        let bytes = frames.last();
        lemma_frames_reach_device_in_order(state, frames.drop_last());
        lemma_concat_push(frames.drop_last(), bytes);
        assert(frames.drop_last().push(bytes) =~= frames);
        let taken = before.on_client_frame(InboundView::Data(bytes)).0;
        assert(taken.pending =~= bytes);
        lemma_step_inv(before, Event::ClientFrame { frame: InboundView::Data(bytes) });
        lemma_step_inv(taken, Event::WriterTurn);
        lemma_step_inv(taken.writer_turn().0, Event::DeviceWrite { written: true });
        let done = after_frames(state, frames);
        assert(done.from_client =~= state.from_client + concat(frames));
        assert(done.to_device =~= state.to_device + concat(frames));
    }
}

/// Device to client, read by read: whatever the device produces, and however
/// its bytes are spread over the reads, the client is sent these bytes and no
/// others, in the order in which the device produced them.
pub proof fn lemma_reads_reach_client_in_order(state: ConnectionState, chunks: Seq<Seq<u8>>)
    requires
        state.inv(),
        state.phase == Phase::Bridging,
        state.queue.len() == 0,
        state.sending is None,
    ensures
        ({
            let done = after_reads(state, chunks);
            &&& done.inv()
            &&& done.phase == Phase::Bridging
            &&& done.queue.len() == 0
            &&& done.sending is None
            &&& done.from_device == state.from_device + concat(chunks)
            &&& done.to_client == state.to_client + concat(chunks)
        }),
    decreases chunks.len(),
{
    if chunks.len() == 0 {
        assert(state.from_device + concat(chunks) =~= state.from_device);
        assert(state.to_client + concat(chunks) =~= state.to_client);
    } else {
        let before = after_reads(state, chunks.drop_last());
        let bytes = chunks.last();
        lemma_reads_reach_client_in_order(state, chunks.drop_last());
        lemma_concat_push(chunks.drop_last(), bytes);
        assert(chunks.drop_last().push(bytes) =~= chunks);
        let asked = before.reader_turn().0;
        let read = asked.on_device_read(ReadOutcomeView::Data(bytes)).0;
        let handed = read.sender_turn().0;
        lemma_step_inv(before, Event::ReaderTurn);
        lemma_step_inv(asked, Event::DeviceRead { outcome: ReadOutcomeView::Data(bytes) });
        lemma_step_inv(read, Event::SenderTurn);
        lemma_step_inv(handed, Event::ClientSend { delivered: true });
        let done = after_reads(state, chunks);
        assert(done.from_device =~= state.from_device + concat(chunks));
        assert(done.to_client =~= state.to_client + concat(chunks));
    }
}

/// Where one read ends and the next begins is of no account: two runs of
/// reads that carry the same bytes send the client the same bytes.
pub proof fn lemma_chunking_is_of_no_account(
    state: ConnectionState,
    one: Seq<Seq<u8>>,
    other: Seq<Seq<u8>>,
)
    requires
        state.inv(),
        state.phase == Phase::Bridging,
        state.queue.len() == 0,
        state.sending is None,
        concat(one) == concat(other),
    ensures
        after_reads(state, one).to_client == after_reads(state, other).to_client,
        after_reads(state, one).from_device == after_reads(state, other).from_device,
{
    lemma_reads_reach_client_in_order(state, one);
    lemma_reads_reach_client_in_order(state, other);
}

/// Payloads are sent in the order in which they were read: the send loop is
/// handed the payload that has waited longest, and only when the one before
/// is settled.
pub proof fn lemma_queue_keeps_order(state: ConnectionState)
    requires
        state.phase == Phase::Bridging,
    ensures
        state.sending is None && state.queue.len() > 0 ==> state.sender_turn().1
            == SenderTurnView::Send(state.queue[0]) && state.sender_turn().0.queue
            == state.queue.skip(1),
        state.sending is Some || state.queue.len() == 0 ==> state.sender_turn()
            == (state, SenderTurnView::Wait),
{
}

/// Where reads end and begin does not matter: the same bytes read in one
/// piece or in two give the same stream from the device, and the same bytes
/// waiting for the client.
pub proof fn lemma_split_read_carries_the_same_bytes(
    state: ConnectionState,
    first: Seq<u8>,
    second: Seq<u8>,
)
    requires
        state.phase == Phase::Bridging,
    ensures
        ({
            let whole = state.on_device_read(ReadOutcomeView::Data(first + second)).0;
            let parts = state.on_device_read(ReadOutcomeView::Data(first)).0.on_device_read(
                ReadOutcomeView::Data(second),
            ).0;
            &&& whole.from_device == parts.from_device
            &&& concat(whole.queue) == concat(parts.queue)
            &&& whole.to_client == parts.to_client
            &&& whole.phase == parts.phase
        }),
{
    let half = state.on_device_read(ReadOutcomeView::Data(first)).0;
    lemma_concat_push(state.queue, first + second);
    lemma_concat_push(state.queue, first);
    lemma_concat_push(half.queue, second);
    assert(first.len() == 0 ==> first + second =~= second);
    assert(second.len() == 0 ==> first + second =~= first);
    assert(state.from_device + (first + second) =~= state.from_device + first + second);
    assert(concat(state.queue) + (first + second) =~= concat(state.queue) + first + second);
}

/// A read that returns no bytes ends nothing and changes nothing but to give
/// the device back. Of all that a read can return, only a failure takes the
/// connection out of bridging.
pub proof fn lemma_only_failure_ends_reading(state: ConnectionState, outcome: ReadOutcomeView)
    requires
        state.phase == Phase::Bridging,
    ensures
        state.on_device_read(ReadOutcomeView::Data(Seq::empty())) == (
            ConnectionState { guard: state.guard.release(Role::Reader), ..state },
            RoleStep::Continue,
        ),
        state.on_device_read(outcome).0.phase != Phase::Bridging <==> outcome
            == ReadOutcomeView::Failed,
        state.on_device_read(outcome).1 == RoleStep::Stop <==> outcome == ReadOutcomeView::Failed,
        outcome == ReadOutcomeView::Failed ==> state.on_device_read(outcome).0.reason == Some(
            CloseReason::DeviceIoFailed,
        ),
{
}

/// Whether `events` holds nothing but the reader asking for the device and
/// reads that return no bytes.
pub open spec fn only_empty_reads(events: Seq<Event>) -> bool {
    forall|i: int|
        0 <= i < events.len() ==> events[i] == Event::ReaderTurn || events[i]
            == (Event::DeviceRead { outcome: ReadOutcomeView::Data(Seq::empty()) })
}

/// However many reads return no bytes, the connection goes on bridging, with
/// the same bytes waiting and the same bytes passed.
pub proof fn lemma_empty_reads_never_end_the_bridge(state: ConnectionState, events: Seq<Event>)
    requires
        state.phase == Phase::Bridging,
        only_empty_reads(events),
    ensures
        state.run(events) == (ConnectionState { guard: state.run(events).guard, ..state }),
    decreases events.len(),
{
    if events.len() > 0 {
        let before = events.drop_last();
        assert(only_empty_reads(before)) by {
            assert forall|i: int| 0 <= i < before.len() implies before[i] == Event::ReaderTurn
                || before[i] == (Event::DeviceRead {
                outcome: ReadOutcomeView::Data(Seq::empty()),
            }) by {
                assert(before[i] == events[i]);
            }
        }
        lemma_empty_reads_never_end_the_bridge(state, before);
        assert(events.last() == events[events.len() - 1]);
        assert(state.run(events) =~= (ConnectionState {
            guard: state.run(events).guard,
            ..state
        }));
    } else {
        assert(state.run(events) =~= (ConnectionState {
            guard: state.run(events).guard,
            ..state
        }));
    }
}

/// A close frame ends the writer role without a byte written, and takes the
/// connection to `Draining`. From there, whatever the roles still report, the
/// teardown closes the connection: both roles are stopped, the device is
/// released, and nothing waits any more.
pub proof fn lemma_close_frame_tears_down(state: ConnectionState, events: Seq<Event>)
    requires
        state.inv(),
        state.phase == Phase::Bridging,
    ensures
        ({
            let (draining, step) = state.on_client_frame(InboundView::Close);
            let (closed, release) = draining.run(events).teardown();
            &&& step == FrameStep::Stop
            &&& draining.phase == Phase::Draining
            &&& draining.reason == Some(CloseReason::ClientClosed)
            &&& draining.to_device == state.to_device
            &&& draining.writer_turn().1 == WriterTurnView::Stop
            &&& closed.phase == Phase::Closed
            &&& closed.reason == Some(CloseReason::ClientClosed)
            &&& !closed.holds_device()
            &&& !closed.roles_alive()
            &&& closed.at_rest()
            &&& closed.inv()
        }),
{
    let draining = state.on_client_frame(InboundView::Close).0;
    lemma_draining_ends_in_teardown(draining, events);
}

/// Every fault of a connection is final for it: a failed read or write, a
/// failed send or receive and a close frame each take a bridging connection
/// to `Draining`, with the reason on record.
pub proof fn lemma_faults_are_final(state: ConnectionState)
    requires
        state.phase == Phase::Bridging,
    ensures
        state.on_device_read(ReadOutcomeView::Failed).0.phase == Phase::Draining,
        state.on_device_read(ReadOutcomeView::Failed).0.reason == Some(
            CloseReason::DeviceIoFailed,
        ),
        state.on_device_write(false).0.phase == Phase::Draining,
        state.on_device_write(false).0.reason == Some(CloseReason::DeviceIoFailed),
        state.on_client_send(false).0.phase == Phase::Draining,
        state.on_client_send(false).0.reason == Some(CloseReason::TransportIoFailed),
        state.on_client_frame(InboundView::Failed).0.phase == Phase::Draining,
        state.on_client_frame(InboundView::Failed).0.reason == Some(
            CloseReason::TransportIoFailed,
        ),
        state.on_client_frame(InboundView::Close).0.phase == Phase::Draining,
        state.on_client_frame(InboundView::Close).0.reason == Some(CloseReason::ClientClosed),
{
}

/// A draining connection takes nothing more from the device or the client,
/// tells every role that reports to stop, and is closed by the teardown,
/// however many events come before it. The reason stays on record.
pub proof fn lemma_draining_ends_in_teardown(state: ConnectionState, events: Seq<Event>)
    requires
        state.inv(),
        state.phase == Phase::Draining,
    ensures
        ({
            let later = state.run(events);
            let (closed, release) = later.teardown();
            &&& later.phase == Phase::Draining || later.phase == Phase::Closed
            &&& later.reason == state.reason
            &&& later.from_device == state.from_device
            &&& later.from_client == state.from_client
            &&& later.phase == Phase::Draining ==> release
            &&& closed.phase == Phase::Closed
            &&& closed.reason == state.reason
            &&& !closed.holds_device()
            &&& !closed.roles_alive()
            &&& closed.at_rest()
            &&& closed.inv()
        }),
    decreases events.len(),
{
    lemma_run_inv(state, events);
    if events.len() > 0 {
        lemma_draining_ends_in_teardown(state, events.drop_last());
        let before = state.run(events.drop_last());
        if before.phase == Phase::Closed {
            lemma_closed_is_final(before, events.last());
        }
    }
}

/// No device is held before the endpoint is resolved: in every state that a
/// connection reaches, a held device is the one that the request named, and
/// the connection is past its handshake and the opening of the device.
pub proof fn lemma_device_follows_resolution(events: Seq<Event>)
    ensures
        ({
            let state = ConnectionState::initial().run(events);
            &&& state.holds_device() ==> state.device is Some
            &&& state.holds_device() ==> state.phase.rank() >= Phase::Bridging.rank()
            &&& state.roles_alive() == state.holds_device()
            &&& state.reason == Some(CloseReason::HandshakeRejected) ==> !state.holds_device()
                && state.device is None && state.nothing_forwarded()
            &&& state.reason == Some(CloseReason::DeviceOpenFailed) ==> !state.holds_device()
                && state.nothing_forwarded()
        }),
{
    lemma_run_inv(ConnectionState::initial(), events);
}

/// Whether every read that `events` reports fits the read buffer.
pub open spec fn reads_fit(events: Seq<Event>) -> bool {
    forall|i: int|
        0 <= i < events.len() ==> (#[trigger] events[i] matches Event::DeviceRead {
            outcome: ReadOutcomeView::Data(bytes),
        } ==> bytes.len() <= READ_BUFFER_LEN)
}

/// Whether every payload that waits or is being sent holds at least one byte
/// and fits the read buffer.
pub open spec fn payloads_fit(state: ConnectionState) -> bool {
    &&& forall|i: int|
        0 <= i < state.queue.len() ==> 0 < (#[trigger] state.queue[i]).len() <= READ_BUFFER_LEN
    &&& state.sending matches Some(payload) ==> 0 < payload.len() <= READ_BUFFER_LEN
}

/// The client is sent what single reads returned: as long as no read returns
/// more than the read buffer holds, every payload for the client holds at
/// least one byte and at most as many as the buffer.
pub proof fn lemma_payloads_are_single_reads(state: ConnectionState, events: Seq<Event>)
    requires
        payloads_fit(state),
        reads_fit(events),
    ensures
        payloads_fit(state.run(events)),
        state.run(events).sender_turn().1 matches SenderTurnView::Send(payload) ==> 0
            < payload.len() <= READ_BUFFER_LEN,
    decreases events.len(),
{
    if events.len() > 0 {
        let earlier = events.drop_last();
        assert(reads_fit(earlier)) by {
            assert forall|i: int| 0 <= i < earlier.len() implies (
            #[trigger] earlier[i] matches Event::DeviceRead {
                outcome: ReadOutcomeView::Data(bytes),
            } ==> bytes.len() <= READ_BUFFER_LEN) by {
                assert(earlier[i] == events[i]);
            }
        }
        lemma_payloads_are_single_reads(state, earlier);
        let before = state.run(earlier);
        let after = before.step(events.last());
        assert(events.last() == events[events.len() - 1]);
        assert forall|i: int| 0 <= i < after.queue.len() implies 0 < (
        #[trigger] after.queue[i]).len() <= READ_BUFFER_LEN by {
            if after.queue.len() == before.queue.len() - 1 {
                assert(after.queue[i] == before.queue[i + 1]);
            } else if i < before.queue.len() {
                assert(after.queue[i] == before.queue[i]);
            }
        }
    }
    let last = state.run(events);
    if last.sender_turn().1 is Send {
        assert(last.queue[0].len() > 0);
    }
}

/// At most one call runs against the device: a role is granted the device
/// only when no call is under way, and while its call runs the other role is
/// made to wait.
pub proof fn lemma_one_device_call_at_a_time(state: ConnectionState)
    requires
        state.inv(),
    ensures
        state.reader_turn().1 is Read ==> state.guard.holder is None
            && state.reader_turn().0.guard.holder == Some(Role::Reader)
            && !(state.reader_turn().0.writer_turn().1 is Write),
        state.writer_turn().1 is Write ==> state.guard.holder is None
            && state.writer_turn().0.guard.holder == Some(Role::Writer)
            && !(state.writer_turn().0.reader_turn().1 is Read),
        state.guard.holder is Some ==> !(state.reader_turn().1 is Read) && !(
        state.writer_turn().1 is Write),
        state.reader_turn().1 == (ReaderTurn::Read { max_len: READ_BUFFER_LEN })
            || state.reader_turn().1 == ReaderTurn::Wait || state.reader_turn().1
            == ReaderTurn::Stop,
{
}

/// Neither direction keeps the other from the device for longer than one
/// call: a role that was made to wait is granted the device as soon as the
/// call of the other has returned, and the other cannot have it before.
pub proof fn lemma_waiting_role_goes_first(state: ConnectionState)
    requires
        state.inv(),
        state.phase == Phase::Bridging,
    ensures
        state.guard.holder == Some(Role::Reader) && state.pending.len() > 0 ==> ({
            let waiting = state.writer_turn().0;
            let freed = waiting.on_device_read(ReadOutcomeView::Data(Seq::empty())).0;
            &&& state.writer_turn().1 == WriterTurnView::Wait
            &&& freed.reader_turn().1 == ReaderTurn::Wait
            &&& freed.writer_turn().1 == WriterTurnView::Write(state.pending)
        }),
        state.guard.holder == Some(Role::Writer) ==> ({
            let waiting = state.reader_turn().0;
            let freed = waiting.on_device_write(true).0;
            &&& state.reader_turn().1 == ReaderTurn::Wait
            &&& freed.pending.len() > 0 ==> freed.writer_turn().1 == WriterTurnView::Wait
            &&& freed.reader_turn().1 == (ReaderTurn::Read { max_len: READ_BUFFER_LEN })
        }),
{
}

/// The events of `events` that are marked for one of two connections: for
/// the first if `first` holds, else for the second.
pub open spec fn events_of(events: Seq<(bool, Event)>, first: bool) -> Seq<Event>
    decreases events.len(),
{
    if events.len() == 0 {
        Seq::empty()
    } else if events.last().0 == first {
        events_of(events.drop_last(), first).push(events.last().1)
    } else {
        events_of(events.drop_last(), first)
    }
}

/// Two connections side by side, over events that are each marked for one of
/// them, in any order.
pub open spec fn run_pair(
    first: ConnectionState,
    second: ConnectionState,
    events: Seq<(bool, Event)>,
) -> (ConnectionState, ConnectionState)
    decreases events.len(),
{
    if events.len() == 0 {
        (first, second)
    } else {
        let (a, b) = run_pair(first, second, events.drop_last());
        if events.last().0 {
            (a.step(events.last().1), b)
        } else {
            (a, b.step(events.last().1))
        }
    }
}

/// Connections do not touch each other: each of two connections ends where
/// its own events alone take it, whatever happens to the other in between, a
/// fault of its device included.
pub proof fn lemma_connections_are_isolated(
    first: ConnectionState,
    second: ConnectionState,
    events: Seq<(bool, Event)>,
)
    ensures
        run_pair(first, second, events) == (
            first.run(events_of(events, true)),
            second.run(events_of(events, false)),
        ),
    decreases events.len(),
{
    if events.len() > 0 {
        let before = events.drop_last();
        lemma_connections_are_isolated(first, second, before);
        if events.last().0 {
            let mine = events_of(before, true).push(events.last().1);
            assert(mine.drop_last() =~= events_of(before, true));
        } else {
            let mine = events_of(before, false).push(events.last().1);
            assert(mine.drop_last() =~= events_of(before, false));
        }
    }
}

} // verus!
