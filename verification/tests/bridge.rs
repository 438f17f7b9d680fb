use serial_bridge::bridge::Connection;
use serial_bridge::config::SerialConfig;
use serial_bridge::events::{
    FrameStep, HandshakeReply, Inbound, ReadOutcome, ReaderTurn, RoleStep, SenderTurn,
    WriterTurn, READ_BUFFER_LEN, READ_TIMEOUT_SECS,
};
use serial_bridge::guard::Role;
use serial_bridge::model::{CloseReason, Phase};
use serial_bridge::router::EndpointTable;

fn table() -> EndpointTable {
    let mut table = EndpointTable::new();
    table.insert(
        "console".to_string(),
        SerialConfig { port: "/dev/ttyUSB0".to_string(), baud_rate: 115200 },
    );
    table.insert("modem".to_string(), SerialConfig { port: "COM3".to_string(), baud_rate: 9600 });
    table
}

fn opening(path: &str) -> Connection {
    let mut connection = Connection::new();
    let reply = connection.on_request(&table(), path);
    assert!(matches!(reply, HandshakeReply::Upgrade { .. }));
    connection
}

fn bridging() -> Connection {
    let mut connection = opening("/console");
    assert!(connection.on_device_open(true));
    connection
}

/// One read of the device by the reader role, from asking to giving back.
fn read(connection: &mut Connection, bytes: &[u8]) -> RoleStep {
    assert_eq!(connection.reader_turn(), ReaderTurn::Read { max_len: 1024 });
    connection.on_device_read(ReadOutcome::Data(bytes.to_vec()))
}

/// Sends all that waits, and answers what the client was sent.
fn drain(connection: &mut Connection) -> Vec<Vec<u8>> {
    let mut sent = Vec::new();
    loop {
        match connection.sender_turn() {
            SenderTurn::Send(payload) => {
                sent.push(payload);
                assert_eq!(connection.on_client_send(true), RoleStep::Continue);
            }
            SenderTurn::Wait => return sent,
            SenderTurn::Stop => panic!("the send loop was stopped"),
        }
    }
}

/// One frame of the client through the writer role, and what the device was
/// written.
fn write(connection: &mut Connection, frame: Inbound) -> Vec<u8> {
    match connection.on_client_frame(frame) {
        FrameStep::Receive => Vec::new(),
        FrameStep::Write => match connection.writer_turn() {
            WriterTurn::Write(bytes) => {
                assert_eq!(connection.on_device_write(true), RoleStep::Continue);
                bytes
            }
            other => panic!("the device was not granted: {:?}", other),
        },
        FrameStep::Stop => panic!("the writer role was stopped"),
    }
}

#[test]
fn read_buffer_is_1024_bytes_and_timeout_10_seconds() {
    assert_eq!(READ_BUFFER_LEN, 1024);
    assert_eq!(READ_TIMEOUT_SECS, 10);
}

#[test]
fn new_connection_is_handshaking() {
    let connection = Connection::new();
    assert_eq!(connection.phase(), Phase::Handshaking);
    assert_eq!(connection.endpoint(), "");
    assert_eq!(connection.device(), None);
    assert_eq!(connection.close_reason(), None);
    assert!(!connection.holds_device());
    assert!(!connection.roles_alive());
    assert_eq!(connection.device_user(), None);
    assert_eq!(connection.queued(), 0);
    assert_eq!(connection.pending_len(), 0);
}

#[test]
fn unknown_endpoint_is_rejected_with_404_and_opens_nothing() {
    let mut connection = Connection::new();
    let reply = connection.on_request(&table(), "/printer");
    assert!(matches!(reply, HandshakeReply::Reject { status: 404 }));
    assert_eq!(connection.phase(), Phase::Closed);
    assert_eq!(connection.close_reason(), Some(CloseReason::HandshakeRejected));
    assert_eq!(connection.endpoint(), "printer");
    assert_eq!(connection.device(), None);
    assert!(!connection.holds_device());
    assert!(!connection.on_device_open(true));
    assert_eq!(connection.phase(), Phase::Closed);
    assert!(!connection.holds_device());
    assert_eq!(connection.reader_turn(), ReaderTurn::Stop);
    assert!(matches!(connection.writer_turn(), WriterTurn::Stop));
    assert!(matches!(connection.sender_turn(), SenderTurn::Stop));
    assert!(!connection.teardown());
}

#[test]
fn every_name_outside_the_table_is_rejected() {
    for path in ["/", "", "/Console", "/console/", "/console2", "/mod", "/modem/x", "/ console"] {
        let mut connection = Connection::new();
        let reply = connection.on_request(&table(), path);
        assert!(matches!(reply, HandshakeReply::Reject { status: 404 }), "path {:?}", path);
        assert_eq!(connection.phase(), Phase::Closed);
        assert!(!connection.holds_device());
    }
}

#[test]
fn known_endpoint_is_upgraded_and_asks_for_its_device() {
    let mut connection = Connection::new();
    match connection.on_request(&table(), "/modem") {
        HandshakeReply::Upgrade { open } => {
            assert_eq!(open.path, "COM3");
            assert_eq!(open.baud_rate, 9600);
            assert_eq!(open.timeout_secs, 10);
        }
        other => panic!("a configured endpoint was answered with {:?}", other),
    }
    assert_eq!(connection.phase(), Phase::PortOpening);
    assert_eq!(connection.endpoint(), "modem");
    assert_eq!(
        connection.device(),
        Some(&SerialConfig { port: "COM3".to_string(), baud_rate: 9600 })
    );
    assert_eq!(connection.close_reason(), None);
    assert!(!connection.holds_device());
}

#[test]
fn connection_keeps_its_own_copy_of_the_device() {
    let mut endpoints = table();
    let mut connection = Connection::new();
    connection.on_request(&endpoints, "/console");
    endpoints.insert(
        "console".to_string(),
        SerialConfig { port: "/dev/null".to_string(), baud_rate: 1 },
    );
    assert_eq!(
        connection.device(),
        Some(&SerialConfig { port: "/dev/ttyUSB0".to_string(), baud_rate: 115200 })
    );
}

#[test]
fn second_request_is_ignored() {
    let mut connection = opening("/console");
    let reply = connection.on_request(&table(), "/modem");
    assert!(matches!(reply, HandshakeReply::Ignored));
    assert_eq!(connection.phase(), Phase::PortOpening);
    assert_eq!(connection.endpoint(), "console");
}

#[test]
fn nothing_runs_before_the_device_is_open() {
    let mut connection = opening("/console");
    assert_eq!(connection.reader_turn(), ReaderTurn::Stop);
    assert!(matches!(connection.sender_turn(), SenderTurn::Stop));
    assert!(matches!(connection.writer_turn(), WriterTurn::Stop));
    assert_eq!(connection.on_device_read(ReadOutcome::Data(vec![1])), RoleStep::Stop);
    assert_eq!(connection.on_client_frame(Inbound::Binary(vec![1])), FrameStep::Stop);
    assert_eq!(connection.queued(), 0);
    assert_eq!(connection.pending_len(), 0);
    assert_eq!(connection.phase(), Phase::PortOpening);
    assert!(!connection.teardown());
}

#[test]
fn open_success_starts_bridging() {
    let mut connection = opening("/console");
    assert!(connection.on_device_open(true));
    assert_eq!(connection.phase(), Phase::Bridging);
    assert!(connection.holds_device());
    assert_eq!(connection.close_reason(), None);
}

#[test]
fn open_failure_closes_at_once_and_forwards_nothing() {
    let mut connection = opening("/console");
    assert!(!connection.on_device_open(false));
    assert_eq!(connection.phase(), Phase::Closed);
    assert_eq!(connection.close_reason(), Some(CloseReason::DeviceOpenFailed));
    assert!(!connection.holds_device());
    assert_eq!(connection.reader_turn(), ReaderTurn::Stop);
    assert_eq!(connection.on_device_read(ReadOutcome::Data(vec![1, 2])), RoleStep::Stop);
    assert!(matches!(connection.sender_turn(), SenderTurn::Stop));
    assert_eq!(connection.on_client_frame(Inbound::Binary(vec![3])), FrameStep::Stop);
    assert!(matches!(connection.writer_turn(), WriterTurn::Stop));
    assert_eq!(connection.queued(), 0);
    assert_eq!(connection.pending_len(), 0);
    assert!(!connection.teardown());
}

#[test]
fn open_result_is_taken_once() {
    let mut connection = bridging();
    assert!(!connection.on_device_open(false));
    assert_eq!(connection.phase(), Phase::Bridging);
    assert!(!connection.on_device_open(true));
    assert_eq!(connection.phase(), Phase::Bridging);
}

#[test]
fn reader_is_granted_one_bounded_read() {
    let mut connection = bridging();
    assert_eq!(connection.reader_turn(), ReaderTurn::Read { max_len: 1024 });
    assert_eq!(connection.device_user(), Some(Role::Reader));
    assert_eq!(connection.reader_turn(), ReaderTurn::Wait);
    assert_eq!(connection.on_device_read(ReadOutcome::Data(vec![1])), RoleStep::Continue);
    assert_eq!(connection.device_user(), None);
    assert_eq!(connection.reader_turn(), ReaderTurn::Read { max_len: 1024 });
}

#[test]
fn empty_read_changes_nothing_and_goes_on() {
    let mut connection = bridging();
    for _ in 0..100 {
        assert_eq!(read(&mut connection, &[]), RoleStep::Continue);
        assert_eq!(connection.phase(), Phase::Bridging);
        assert_eq!(connection.queued(), 0);
        assert_eq!(connection.close_reason(), None);
    }
    assert!(matches!(connection.sender_turn(), SenderTurn::Wait));
    assert_eq!(read(&mut connection, &[5]), RoleStep::Continue);
    assert_eq!(drain(&mut connection), vec![vec![5]]);
}

#[test]
fn read_failure_ends_the_connection() {
    let mut connection = bridging();
    assert_eq!(connection.reader_turn(), ReaderTurn::Read { max_len: 1024 });
    assert_eq!(connection.on_device_read(ReadOutcome::Failed), RoleStep::Stop);
    assert_eq!(connection.phase(), Phase::Draining);
    assert_eq!(connection.close_reason(), Some(CloseReason::DeviceIoFailed));
    assert!(connection.holds_device());
    assert_eq!(connection.device_user(), None);
    assert_eq!(connection.reader_turn(), ReaderTurn::Stop);
    assert!(matches!(connection.sender_turn(), SenderTurn::Stop));
    assert!(matches!(connection.writer_turn(), WriterTurn::Stop));
}

#[test]
fn reads_reach_the_client_in_order() {
    let mut connection = bridging();
    assert_eq!(read(&mut connection, &[1, 2, 3]), RoleStep::Continue);
    assert_eq!(read(&mut connection, &[]), RoleStep::Continue);
    assert_eq!(read(&mut connection, &[4]), RoleStep::Continue);
    assert_eq!(read(&mut connection, &[5, 6]), RoleStep::Continue);
    assert_eq!(connection.queued(), 3);
    assert_eq!(drain(&mut connection), vec![vec![1, 2, 3], vec![4], vec![5, 6]]);
    assert_eq!(connection.queued(), 0);
}

#[test]
fn device_stream_is_the_same_for_any_chunking() {
    let stream: Vec<u8> = (0..=255u8).cycle().take(5000).collect();
    for chunk in [1usize, 2, 7, 64, 1000, 1024] {
        let mut connection = bridging();
        let mut seen: Vec<u8> = Vec::new();
        for (index, piece) in stream.chunks(chunk).enumerate() {
            assert_eq!(read(&mut connection, piece), RoleStep::Continue);
            if index % 3 == 0 {
                seen.extend(drain(&mut connection).concat());
            }
        }
        seen.extend(drain(&mut connection).concat());
        assert_eq!(seen, stream, "chunks of {}", chunk);
    }
}

#[test]
fn send_loop_sends_one_payload_at_a_time() {
    let mut connection = bridging();
    read(&mut connection, &[1]);
    read(&mut connection, &[2]);
    assert!(matches!(connection.sender_turn(), SenderTurn::Send(payload) if payload == vec![1]));
    assert!(matches!(connection.sender_turn(), SenderTurn::Wait));
    assert_eq!(connection.queued(), 1);
    assert_eq!(connection.on_client_send(true), RoleStep::Continue);
    assert!(matches!(connection.sender_turn(), SenderTurn::Send(payload) if payload == vec![2]));
    assert_eq!(connection.on_client_send(true), RoleStep::Continue);
    assert!(matches!(connection.sender_turn(), SenderTurn::Wait));
}

#[test]
fn send_loop_waits_on_an_empty_queue() {
    let mut connection = bridging();
    assert!(matches!(connection.sender_turn(), SenderTurn::Wait));
    assert_eq!(connection.phase(), Phase::Bridging);
}

#[test]
fn send_failure_ends_the_connection() {
    let mut connection = bridging();
    read(&mut connection, &[1]);
    read(&mut connection, &[2]);
    assert!(matches!(connection.sender_turn(), SenderTurn::Send(_)));
    assert_eq!(connection.on_client_send(false), RoleStep::Stop);
    assert_eq!(connection.phase(), Phase::Draining);
    assert_eq!(connection.close_reason(), Some(CloseReason::TransportIoFailed));
    assert!(matches!(connection.sender_turn(), SenderTurn::Stop));
    assert_eq!(connection.reader_turn(), ReaderTurn::Stop);
}

#[test]
fn reader_stops_when_the_send_loop_is_gone() {
    let mut connection = bridging();
    assert_eq!(connection.reader_turn(), ReaderTurn::Read { max_len: 1024 });
    assert_eq!(connection.on_client_send(false), RoleStep::Stop);
    assert_eq!(connection.phase(), Phase::Draining);
    assert_eq!(connection.on_device_read(ReadOutcome::Data(vec![9])), RoleStep::Stop);
    assert_eq!(connection.queued(), 0);
    assert_eq!(connection.device_user(), None);
}

#[test]
fn binary_frame_is_written_as_it_is() {
    let mut connection = bridging();
    assert_eq!(connection.on_client_frame(Inbound::Binary(vec![0, 255, 10, 13])), FrameStep::Write);
    assert_eq!(connection.pending_len(), 4);
    match connection.writer_turn() {
        WriterTurn::Write(bytes) => assert_eq!(bytes, vec![0, 255, 10, 13]),
        other => panic!("the device was not granted: {:?}", other),
    }
    assert_eq!(connection.device_user(), Some(Role::Writer));
    assert_eq!(connection.pending_len(), 0);
    assert_eq!(connection.on_device_write(true), RoleStep::Continue);
    assert_eq!(connection.device_user(), None);
    assert_eq!(connection.phase(), Phase::Bridging);
}

#[test]
fn text_frame_is_written_as_its_utf8_bytes() {
    let mut connection = bridging();
    assert_eq!(write(&mut connection, Inbound::Text("AT\r\n".to_string())), b"AT\r\n".to_vec());
    assert_eq!(
        write(&mut connection, Inbound::Text("é€".to_string())),
        vec![0xC3, 0xA9, 0xE2, 0x82, 0xAC]
    );
}

#[test]
fn empty_frames_write_nothing() {
    let mut connection = bridging();
    assert_eq!(connection.on_client_frame(Inbound::Binary(Vec::new())), FrameStep::Receive);
    assert_eq!(connection.on_client_frame(Inbound::Text(String::new())), FrameStep::Receive);
    assert!(matches!(connection.writer_turn(), WriterTurn::Idle));
    assert_eq!(connection.device_user(), None);
    assert_eq!(connection.phase(), Phase::Bridging);
}

#[test]
fn control_frames_are_ignored() {
    let mut connection = bridging();
    for _ in 0..10 {
        assert_eq!(connection.on_client_frame(Inbound::Control), FrameStep::Receive);
    }
    assert_eq!(connection.phase(), Phase::Bridging);
    assert_eq!(connection.pending_len(), 0);
    assert!(matches!(connection.writer_turn(), WriterTurn::Idle));
}

#[test]
fn client_stream_reaches_the_device_unchanged() {
    let mut connection = bridging();
    let mut sent: Vec<u8> = Vec::new();
    let mut written: Vec<u8> = Vec::new();
    for round in 0..200u32 {
        let length = (round % 17) as usize;
        let frame = if round % 2 == 0 {
            let payload: Vec<u8> = (0..length).map(|i| (round as usize * 31 + i) as u8).collect();
            sent.extend(&payload);
            Inbound::Binary(payload)
        } else {
            let text: String =
                "grüße, línea №7 ".chars().cycle().skip(length).take(length).collect();
            sent.extend(text.as_bytes());
            Inbound::Text(text)
        };
        written.extend(write(&mut connection, frame));
        if round % 5 == 0 {
            assert_eq!(connection.on_client_frame(Inbound::Control), FrameStep::Receive);
        }
    }
    assert_eq!(written, sent);
    assert_eq!(written.len(), 1824);
    assert_eq!(connection.pending_len(), 0);
}

#[test]
fn frames_that_arrive_while_the_device_is_busy_are_kept_in_order() {
    let mut connection = bridging();
    assert_eq!(connection.reader_turn(), ReaderTurn::Read { max_len: 1024 });
    assert_eq!(connection.on_client_frame(Inbound::Binary(vec![1, 2])), FrameStep::Write);
    assert!(matches!(connection.writer_turn(), WriterTurn::Wait));
    assert_eq!(connection.on_client_frame(Inbound::Text("3".to_string())), FrameStep::Write);
    assert_eq!(connection.pending_len(), 3);
    assert_eq!(connection.on_device_read(ReadOutcome::Data(Vec::new())), RoleStep::Continue);
    match connection.writer_turn() {
        WriterTurn::Write(bytes) => assert_eq!(bytes, vec![1, 2, b'3']),
        other => panic!("the device was not granted: {:?}", other),
    }
    assert_eq!(connection.on_device_write(true), RoleStep::Continue);
}

#[test]
fn write_failure_ends_the_connection() {
    let mut connection = bridging();
    assert_eq!(connection.on_client_frame(Inbound::Binary(vec![1])), FrameStep::Write);
    assert!(matches!(connection.writer_turn(), WriterTurn::Write(_)));
    assert_eq!(connection.on_device_write(false), RoleStep::Stop);
    assert_eq!(connection.phase(), Phase::Draining);
    assert_eq!(connection.close_reason(), Some(CloseReason::DeviceIoFailed));
    assert_eq!(connection.device_user(), None);
    assert_eq!(connection.on_client_frame(Inbound::Binary(vec![2])), FrameStep::Stop);
    assert!(matches!(connection.writer_turn(), WriterTurn::Stop));
}

#[test]
fn receive_failure_ends_the_connection() {
    let mut connection = bridging();
    assert_eq!(connection.on_client_frame(Inbound::Failed), FrameStep::Stop);
    assert_eq!(connection.phase(), Phase::Draining);
    assert_eq!(connection.close_reason(), Some(CloseReason::TransportIoFailed));
}

#[test]
fn end_of_the_socket_ends_the_connection() {
    let mut connection = bridging();
    assert_eq!(connection.on_client_frame(Inbound::Ended), FrameStep::Stop);
    assert_eq!(connection.phase(), Phase::Draining);
    assert_eq!(connection.close_reason(), Some(CloseReason::TransportIoFailed));
    assert!(connection.teardown());
    assert_eq!(connection.phase(), Phase::Closed);
}

#[test]
fn close_frame_ends_the_writer_and_tears_down() {
    let mut connection = bridging();
    read(&mut connection, &[1, 2]);
    assert_eq!(write(&mut connection, Inbound::Binary(vec![7])), vec![7]);
    assert_eq!(connection.on_client_frame(Inbound::Close), FrameStep::Stop);
    assert_eq!(connection.phase(), Phase::Draining);
    assert_eq!(connection.close_reason(), Some(CloseReason::ClientClosed));
    assert!(connection.holds_device());
    assert!(matches!(connection.writer_turn(), WriterTurn::Stop));
    assert_eq!(connection.on_client_frame(Inbound::Binary(vec![8])), FrameStep::Stop);
    assert_eq!(connection.pending_len(), 0);
    assert_eq!(connection.reader_turn(), ReaderTurn::Stop);
    assert!(matches!(connection.sender_turn(), SenderTurn::Stop));
    assert!(connection.roles_alive());
    assert!(connection.teardown());
    assert_eq!(connection.phase(), Phase::Closed);
    assert_eq!(connection.close_reason(), Some(CloseReason::ClientClosed));
    assert!(!connection.holds_device());
    assert!(!connection.roles_alive());
    assert_eq!(connection.queued(), 0);
    assert_eq!(connection.device_user(), None);
}

#[test]
fn teardown_releases_a_device_that_a_role_still_uses() {
    let mut connection = bridging();
    assert_eq!(connection.reader_turn(), ReaderTurn::Read { max_len: 1024 });
    assert_eq!(connection.on_client_frame(Inbound::Close), FrameStep::Stop);
    assert_eq!(connection.device_user(), Some(Role::Reader));
    assert!(connection.teardown());
    assert_eq!(connection.phase(), Phase::Closed);
    assert_eq!(connection.device_user(), None);
    assert!(!connection.holds_device());
    assert_eq!(connection.on_device_read(ReadOutcome::Data(vec![1])), RoleStep::Stop);
    assert_eq!(connection.queued(), 0);
}

#[test]
fn teardown_happens_once_and_only_when_draining() {
    let mut connection = Connection::new();
    assert!(!connection.teardown());
    assert_eq!(connection.phase(), Phase::Handshaking);
    let mut connection = bridging();
    assert!(!connection.teardown());
    assert_eq!(connection.phase(), Phase::Bridging);
    connection.on_client_frame(Inbound::Close);
    assert!(connection.teardown());
    assert!(!connection.teardown());
    assert_eq!(connection.phase(), Phase::Closed);
}

#[test]
fn first_reason_stays_on_record() {
    let mut connection = bridging();
    read(&mut connection, &[1]);
    assert!(matches!(connection.sender_turn(), SenderTurn::Send(_)));
    assert_eq!(connection.on_client_frame(Inbound::Close), FrameStep::Stop);
    assert_eq!(connection.on_client_send(false), RoleStep::Stop);
    assert_eq!(connection.on_device_write(false), RoleStep::Stop);
    assert_eq!(connection.on_device_read(ReadOutcome::Failed), RoleStep::Stop);
    assert_eq!(connection.close_reason(), Some(CloseReason::ClientClosed));
    assert!(connection.teardown());
    assert_eq!(connection.close_reason(), Some(CloseReason::ClientClosed));
}

#[test]
fn closed_connection_does_nothing() {
    let mut connection = bridging();
    connection.on_client_frame(Inbound::Failed);
    assert!(connection.teardown());
    assert!(matches!(connection.on_request(&table(), "/modem"), HandshakeReply::Ignored));
    assert!(!connection.on_device_open(true));
    assert_eq!(connection.reader_turn(), ReaderTurn::Stop);
    assert_eq!(connection.on_device_read(ReadOutcome::Data(vec![1])), RoleStep::Stop);
    assert!(matches!(connection.sender_turn(), SenderTurn::Stop));
    assert_eq!(connection.on_client_send(true), RoleStep::Stop);
    assert_eq!(connection.on_client_frame(Inbound::Binary(vec![1])), FrameStep::Stop);
    assert!(matches!(connection.writer_turn(), WriterTurn::Stop));
    assert_eq!(connection.on_device_write(true), RoleStep::Stop);
    assert!(!connection.teardown());
    assert_eq!(connection.phase(), Phase::Closed);
    assert_eq!(connection.endpoint(), "console");
    assert_eq!(connection.queued(), 0);
    assert_eq!(connection.pending_len(), 0);
    assert!(!connection.holds_device());
}

#[test]
fn reader_and_writer_never_use_the_device_together() {
    let mut connection = bridging();
    assert_eq!(connection.on_client_frame(Inbound::Binary(vec![1])), FrameStep::Write);
    assert!(matches!(connection.writer_turn(), WriterTurn::Write(_)));
    assert_eq!(connection.reader_turn(), ReaderTurn::Wait);
    assert_eq!(connection.device_user(), Some(Role::Writer));
    assert_eq!(connection.on_device_write(true), RoleStep::Continue);
    assert_eq!(connection.reader_turn(), ReaderTurn::Read { max_len: 1024 });
    assert_eq!(connection.on_client_frame(Inbound::Binary(vec![2])), FrameStep::Write);
    assert!(matches!(connection.writer_turn(), WriterTurn::Wait));
    assert_eq!(connection.device_user(), Some(Role::Reader));
}

#[test]
fn waiting_writer_gets_the_device_before_the_next_read() {
    let mut connection = bridging();
    assert_eq!(connection.reader_turn(), ReaderTurn::Read { max_len: 1024 });
    assert_eq!(connection.on_client_frame(Inbound::Binary(vec![1])), FrameStep::Write);
    assert!(matches!(connection.writer_turn(), WriterTurn::Wait));
    assert_eq!(connection.on_device_read(ReadOutcome::Data(vec![9])), RoleStep::Continue);
    assert_eq!(connection.reader_turn(), ReaderTurn::Wait);
    assert!(matches!(connection.writer_turn(), WriterTurn::Write(bytes) if bytes == vec![1]));
    assert_eq!(connection.reader_turn(), ReaderTurn::Wait);
    assert_eq!(connection.on_device_write(true), RoleStep::Continue);
    assert_eq!(connection.reader_turn(), ReaderTurn::Read { max_len: 1024 });
}

#[test]
fn both_directions_flow_side_by_side() {
    let mut connection = bridging();
    let mut to_client: Vec<u8> = Vec::new();
    let mut to_device: Vec<u8> = Vec::new();
    for round in 0..50u8 {
        assert_eq!(read(&mut connection, &[round, round]), RoleStep::Continue);
        to_device.extend(write(&mut connection, Inbound::Binary(vec![round.wrapping_mul(3)])));
        if round % 4 == 0 {
            to_client.extend(drain(&mut connection).concat());
        }
    }
    to_client.extend(drain(&mut connection).concat());
    let expected_client: Vec<u8> = (0..50u8).flat_map(|round| [round, round]).collect();
    let expected_device: Vec<u8> = (0..50u8).map(|round| round.wrapping_mul(3)).collect();
    assert_eq!(to_client, expected_client);
    assert_eq!(to_device, expected_device);
}

#[test]
fn device_fault_on_one_connection_leaves_the_other_alone() {
    let endpoints = table();
    let mut first = Connection::new();
    let mut second = Connection::new();
    assert!(matches!(first.on_request(&endpoints, "/console"), HandshakeReply::Upgrade { .. }));
    assert!(matches!(second.on_request(&endpoints, "/modem"), HandshakeReply::Upgrade { .. }));
    assert!(first.on_device_open(true));
    assert!(second.on_device_open(true));
    assert_eq!(read(&mut second, &[1, 2]), RoleStep::Continue);
    assert_eq!(first.reader_turn(), ReaderTurn::Read { max_len: 1024 });
    assert_eq!(first.on_device_read(ReadOutcome::Failed), RoleStep::Stop);
    assert!(first.teardown());
    assert_eq!(first.phase(), Phase::Closed);
    assert_eq!(second.phase(), Phase::Bridging);
    assert_eq!(second.close_reason(), None);
    assert_eq!(read(&mut second, &[3]), RoleStep::Continue);
    assert_eq!(drain(&mut second), vec![vec![1, 2], vec![3]]);
    assert_eq!(write(&mut second, Inbound::Binary(vec![4, 5])), vec![4, 5]);
    assert_eq!(endpoints.len(), 2);
}

#[test]
fn each_fault_is_recorded_under_its_kind() {
    let mut rejected = Connection::new();
    rejected.on_request(&table(), "/nowhere");
    assert_eq!(rejected.close_reason(), Some(CloseReason::HandshakeRejected));

    let mut unopened = opening("/console");
    unopened.on_device_open(false);
    assert_eq!(unopened.close_reason(), Some(CloseReason::DeviceOpenFailed));

    let mut unread = bridging();
    unread.on_device_read(ReadOutcome::Failed);
    assert_eq!(unread.close_reason(), Some(CloseReason::DeviceIoFailed));

    let mut unwritten = bridging();
    unwritten.on_device_write(false);
    assert_eq!(unwritten.close_reason(), Some(CloseReason::DeviceIoFailed));

    let mut unsent = bridging();
    unsent.on_client_send(false);
    assert_eq!(unsent.close_reason(), Some(CloseReason::TransportIoFailed));

    let mut unreceived = bridging();
    unreceived.on_client_frame(Inbound::Failed);
    assert_eq!(unreceived.close_reason(), Some(CloseReason::TransportIoFailed));

    let mut closed = bridging();
    closed.on_client_frame(Inbound::Close);
    assert_eq!(closed.close_reason(), Some(CloseReason::ClientClosed));
}
