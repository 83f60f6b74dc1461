//! The server: its checks, the stream, and the bytes of both.

use walpipe::config::{Environment, ReplicationConfig};
use walpipe::errors::ReplicationError;
use walpipe::messages::ReplicationMessage;
use walpipe::protocol::{
    system_time_to_postgres_timestamp, write_status_update, KeepaliveMessage, MessageParser,
    XLogDataMessage,
};
use walpipe::reconnect::{after_run, before_run, NextStep};
use walpipe::server::{
    ExecStatus, QueryResult, ReplicationServer, ServerAction, ServerEvent, ServerPhase,
};
use walpipe::time::Timestamp;
use walpipe::wire::{push_be, to_bits, Reader};

fn config() -> ReplicationConfig {
    ReplicationConfig::from_env(Environment {
        database_url: Some("db".to_string()),
        slot_name: Some("my_slot".to_string()),
        pub_name: Some("my_pub".to_string()),
        event_sink: Some("stdout".to_string()),
        http_endpoint_url: None,
        hook0_api_url: None,
        hook0_application_id: None,
        hook0_api_token: None,
    })
    .unwrap()
}

fn server() -> ReplicationServer<u32> {
    ReplicationServer::new(config(), Ok(7)).ok().unwrap()
}

fn answer(ok: bool, status: ExecStatus, ntuples: i32, value: Option<&str>) -> ServerEvent {
    ServerEvent::Queried(Ok(QueryResult {
        ok,
        status,
        ntuples,
        value: value.map(|v| v.to_string()),
    }))
}

fn sql(action: ServerAction) -> String {
    match action {
        ServerAction::Query { sql } => sql,
        other => panic!("no query: {:?}", other),
    }
}

fn failure(action: ServerAction) -> String {
    match action {
        ServerAction::Finish(Err(ReplicationError::Protocol { message })) => message,
        other => panic!("no protocol error: {:?}", other),
    }
}

fn row(value: &str) -> ServerEvent {
    answer(true, ExecStatus::TuplesOk, 1, Some(value))
}

/// A server that has passed the first checks.
fn after_checks(count: usize) -> ReplicationServer<u32> {
    let mut server = server();
    server.run();
    for value in ["system", "logical", "my_slot", "my_pub"].iter().take(count) {
        server.step(row(value));
    }
    server
}

fn streaming() -> ReplicationServer<u32> {
    let mut server = after_checks(4);
    let action = server.step(answer(true, ExecStatus::CopyBoth, 0, None));
    assert!(matches!(action, ServerAction::Look));
    server
}

fn receiving() -> ReplicationServer<u32> {
    let mut server = streaming();
    let action = server.step(ServerEvent::Looked { shutdown: false, now: 0 });
    assert!(matches!(action, ServerAction::Receive));
    server
}

fn received(bytes: Vec<u8>) -> ServerEvent {
    ServerEvent::Received(Ok(Some(bytes)))
}

fn sent(now: u64) -> ServerEvent {
    ServerEvent::FeedbackSent { result: Ok(()), now }
}

fn broken() -> ReplicationError {
    ReplicationError::protocol("connection lost")
}

fn keepalive(reply: u8) -> Vec<u8> {
    let mut bytes = vec![b'k'];
    push_be(&mut bytes, 0x0102030405060708, 8);
    push_be(&mut bytes, 9, 8);
    bytes.push(reply);
    bytes
}

fn wal(data_start: u64, data: &[u8]) -> Vec<u8> {
    let mut bytes = vec![b'w'];
    push_be(&mut bytes, data_start, 8);
    push_be(&mut bytes, data_start + 1, 8);
    push_be(&mut bytes, 3, 8);
    bytes.extend_from_slice(data);
    bytes
}

fn relation_bytes() -> Vec<u8> {
    let mut bytes = vec![b'R'];
    push_be(&mut bytes, 16384, 4);
    bytes.extend_from_slice(b"public\0event_stream\0d");
    push_be(&mut bytes, 2, 2);
    bytes.push(1);
    bytes.extend_from_slice(b"event_id\0");
    push_be(&mut bytes, 2950, 4);
    push_be(&mut bytes, 0xffff_ffff, 4);
    bytes.push(0);
    bytes.extend_from_slice("größe\0".as_bytes());
    push_be(&mut bytes, 25, 4);
    push_be(&mut bytes, 0xffff_ffff, 4);
    bytes
}

fn tuple_bytes() -> Vec<u8> {
    let mut bytes = vec![];
    push_be(&mut bytes, 4, 2);
    bytes.push(b't');
    push_be(&mut bytes, 3, 4);
    bytes.extend_from_slice("aé".as_bytes());
    bytes.push(b'n');
    bytes.push(b'u');
    bytes.push(b'b');
    push_be(&mut bytes, 0, 4);
    bytes
}

fn insert_bytes() -> Vec<u8> {
    let mut bytes = vec![b'I'];
    push_be(&mut bytes, 16384, 4);
    bytes.push(b'N');
    bytes.extend_from_slice(&tuple_bytes());
    bytes
}

#[test]
fn a_server_needs_its_sink() {
    let server = server();
    assert_eq!(server.event_sink(), Some(&7));
    assert_eq!(server.phase(), ServerPhase::Connected);
    assert_eq!(server.config().slot_name, "my_slot");
    assert_eq!(server.state().received_lsn, 0);
    let error = ReplicationServer::<u32>::new(config(), Err(ReplicationError::config("no sink")))
        .err()
        .unwrap();
    assert!(matches!(error, ReplicationError::Protocol { message } if message == "no sink"));
}

#[test]
fn the_checks_come_in_order() {
    let mut server = server();
    assert_eq!(sql(server.run()), "IDENTIFY_SYSTEM");
    assert_eq!(sql(server.step(row("system"))), "SHOW wal_level;");
    assert_eq!(
        sql(server.step(row("logical"))),
        "SELECT slot_name FROM pg_replication_slots WHERE slot_name = 'my_slot';"
    );
    assert_eq!(
        sql(server.step(row("my_slot"))),
        "SELECT * FROM pg_publication WHERE pubname = 'my_pub';"
    );
    assert_eq!(
        sql(server.step(row("my_pub"))),
        "START_REPLICATION SLOT \"my_slot\" LOGICAL 0/0 (proto_version '2', streaming 'on', publication_names 'my_pub');"
    );
    assert!(matches!(
        server.step(answer(true, ExecStatus::CopyBoth, 0, None)),
        ServerAction::Look
    ));
    assert_eq!(server.phase(), ServerPhase::Turning);
}

#[test]
fn the_setup_can_be_started_alone() {
    let mut server = server();
    assert_eq!(sql(server.create_replication_slot_and_start()), "SHOW wal_level;");
    assert_eq!(server.phase(), ServerPhase::CheckingWalLevel);
}

#[test]
fn a_refused_identification_ends_the_run() {
    let refused = answer(false, ExecStatus::FatalError, 0, None);
    assert_eq!(
        failure(after_checks(0).step(refused)),
        "IDENTIFY_SYSTEM failed: PGRES_FATAL_ERROR"
    );
    assert_eq!(
        failure(after_checks(0).step(ServerEvent::Queried(Err(broken())))),
        "IDENTIFY_SYSTEM failed: connection lost"
    );
}

#[test]
fn the_wal_level_has_to_be_logical() {
    assert_eq!(
        failure(after_checks(1).step(row("replica"))),
        "wal_level is not set to 'logical'. Please set wal_level to 'logical' in postgresql.conf and restart the PostgreSQL server."
    );
    assert_eq!(
        failure(after_checks(1).step(answer(false, ExecStatus::BadResponse, 0, None))),
        "Failed to check wal_level"
    );
    assert_eq!(
        failure(after_checks(1).step(answer(true, ExecStatus::TuplesOk, 0, None))),
        "Could not retrieve wal_level value"
    );
    assert_eq!(
        failure(after_checks(1).step(ServerEvent::Queried(Err(broken())))),
        "connection lost"
    );
}

#[test]
fn the_slot_has_to_exist() {
    assert_eq!(
        failure(after_checks(2).step(answer(true, ExecStatus::TuplesOk, 0, None))),
        "Replication slot 'my_slot' does not exist. Please create it manually using the following SQL command:\n\nCREATE_REPLICATION_SLOT \"my_slot\" LOGICAL pgoutput NOEXPORT_SNAPSHOT;\n"
    );
    assert_eq!(
        failure(after_checks(2).step(answer(false, ExecStatus::NonfatalError, 0, None))),
        "Failed to check existing replication slots: PGRES_NONFATAL_ERROR"
    );
    assert_eq!(
        failure(after_checks(2).step(ServerEvent::Queried(Err(broken())))),
        "connection lost"
    );
}

#[test]
fn the_publication_has_to_exist() {
    assert_eq!(
        failure(after_checks(3).step(answer(true, ExecStatus::TuplesOk, 0, None))),
        "Publication 'my_pub' does not exist. Please create it manually using the following SQL command:\n\nCREATE PUBLICATION \"my_pub\" FOR TABLE <your_table_name>;\n\nor\n\nCREATE PUBLICATION \"my_pub\" FOR ALL TABLES;\n\ndepending on your configuration."
    );
    assert_eq!(
        failure(after_checks(3).step(answer(false, ExecStatus::EmptyQuery, 0, None))),
        "Failed to check existing publications: PGRES_EMPTY_QUERY"
    );
}

#[test]
fn the_stream_has_to_start() {
    assert_eq!(
        failure(after_checks(4).step(answer(true, ExecStatus::CommandOk, 0, None))),
        "Failed to start replication: PGRES_COMMAND_OK"
    );
    assert_eq!(
        failure(after_checks(4).step(ServerEvent::Queried(Err(broken())))),
        "connection lost"
    );
}

#[test]
fn statuses_have_names() {
    for (status, name) in [
        (ExecStatus::TuplesOk, "PGRES_TUPLES_OK"),
        (ExecStatus::CopyOut, "PGRES_COPY_OUT"),
        (ExecStatus::CopyIn, "PGRES_COPY_IN"),
        (ExecStatus::CopyBoth, "PGRES_COPY_BOTH"),
        (ExecStatus::SingleTuple, "PGRES_SINGLE_TUPLE"),
        (ExecStatus::PipelineSync, "PGRES_PIPELINE_SYNC"),
        (ExecStatus::PipelineAborted, "PGRES_PIPELINE_ABORTED"),
    ] {
        assert_eq!(status.to_text(), name);
    }
}

#[test]
fn feedback_is_sent_on_schedule() {
    let mut server = streaming();
    // not yet at exactly one second
    let action = server.step(ServerEvent::Looked { shutdown: false, now: 1_000_000_000 });
    assert!(matches!(action, ServerAction::Receive));
    assert!(matches!(server.step(received(vec![])), ServerAction::Look));
    let action = server.step(ServerEvent::Looked { shutdown: false, now: 1_000_000_001 });
    assert!(matches!(action, ServerAction::SendFeedback));
    assert_eq!(server.state().last_feedback_time, 0);
    assert!(matches!(server.step(sent(1_000_000_500)), ServerAction::Receive));
    assert_eq!(server.state().last_feedback_time, 1_000_000_500);
}

#[test]
fn feedback_that_cannot_be_sent_ends_the_run() {
    let mut server = streaming();
    server.step(ServerEvent::Looked { shutdown: false, now: 2_000_000_000 });
    let action = server.step(ServerEvent::FeedbackSent { result: Err(broken()), now: 3 });
    assert_eq!(failure(action), "connection lost");
    assert_eq!(server.state().last_feedback_time, 0);
    assert_eq!(server.phase(), ServerPhase::Ended);
}

#[test]
fn without_a_message_the_server_waits() {
    let mut server = receiving();
    let action = server.step(ServerEvent::Received(Ok(None)));
    assert!(matches!(action, ServerAction::Sleep { millis: 10 }));
    assert!(matches!(server.step(ServerEvent::Slept), ServerAction::Look));
    assert_eq!(
        failure(receiving().step(ServerEvent::Received(Err(broken())))),
        "connection lost"
    );
}

#[test]
fn empty_and_unknown_messages_are_ignored() {
    assert!(matches!(receiving().step(received(vec![])), ServerAction::Look));
    assert!(matches!(receiving().step(received(vec![b'x', 1])), ServerAction::Look));
}

#[test]
fn keepalive_messages_are_answered_if_asked_for() {
    assert!(matches!(receiving().step(received(keepalive(0))), ServerAction::Look));
    let mut server = receiving();
    assert!(matches!(server.step(received(keepalive(1))), ServerAction::SendFeedback));
    assert!(matches!(server.step(sent(5)), ServerAction::Flush));
    assert!(matches!(server.step(ServerEvent::Flushed(Ok(()))), ServerAction::Look));

    let mut server = receiving();
    server.step(received(keepalive(1)));
    server.step(sent(5));
    assert_eq!(failure(server.step(ServerEvent::Flushed(Err(broken())))), "connection lost");

    let mut short = keepalive(1);
    short.pop();
    assert_eq!(failure(receiving().step(received(short))), "Keepalive message too short");
}

#[test]
fn keepalive_messages_are_read() {
    let k = KeepaliveMessage::parse(&keepalive(1)).unwrap();
    assert_eq!(k.wal_end, 0x0102030405060708);
    assert_eq!(k.timestamp, 9);
    assert!(k.reply_requested);
    assert!(!KeepaliveMessage::parse(&keepalive(0)).unwrap().reply_requested);
    assert!(KeepaliveMessage::parse(&[b'k']).is_err());
}

#[test]
fn log_messages_are_read() {
    let w = XLogDataMessage::parse(&wal(7, &[1, 2])).unwrap();
    assert_eq!((w.data_start, w.wal_end, w.send_time), (7, 8, 3));
    assert_eq!(w.data, vec![1, 2]);
    assert_eq!(
        XLogDataMessage::parse(&wal(7, &[])[..24]).unwrap_err().to_text(),
        "XLogData message too short"
    );
}

#[test]
fn delivered_messages_are_confirmed() {
    let mut server = receiving();
    match server.step(received(wal(100, &insert_bytes()))) {
        ServerAction::Deliver { message: ReplicationMessage::Insert { relation_id, .. } } => {
            assert_eq!(relation_id, 16384)
        }
        other => panic!("not delivered: {:?}", other),
    }
    assert_eq!(server.state().received_lsn, 100);
    assert_eq!(server.state().applied_lsn, 0);
    assert!(matches!(server.step(ServerEvent::Delivered(Ok(()))), ServerAction::SendFeedback));
    assert_eq!(server.state().applied_lsn, 100);
    assert!(matches!(server.step(sent(1)), ServerAction::Look));
    assert_eq!(server.phase(), ServerPhase::Rechecking);
    let action = server.step(ServerEvent::Looked { shutdown: false, now: 2 });
    assert!(matches!(action, ServerAction::Look));
    assert_eq!(server.phase(), ServerPhase::Turning);
}

#[test]
fn refused_messages_are_not_confirmed() {
    let mut server = receiving();
    server.step(received(wal(100, &insert_bytes())));
    let action = server.step(ServerEvent::Delivered(Err(ReplicationError::config("sink down"))));
    assert_eq!(failure(action), "Event sink failed: sink down");
    assert_eq!(server.state().applied_lsn, 0);
    assert_eq!(server.phase(), ServerPhase::Ended);
}

#[test]
fn relations_are_remembered_and_delivered() {
    let mut server = receiving();
    assert!(matches!(
        server.step(received(wal(0, &relation_bytes()))),
        ServerAction::Deliver { message: ReplicationMessage::Relation { .. } }
    ));
    assert_eq!(server.state().received_lsn, 0);
    assert_eq!(server.state().get_relation(16384).unwrap().relation_name, "event_stream");
}

#[test]
fn malformed_log_messages_end_the_run() {
    assert_eq!(failure(receiving().step(received(wal(1, &[])))), "WAL message has no data");
    assert_eq!(failure(receiving().step(received(vec![b'w']))), "XLogData message too short");
    let mut server = receiving();
    match server.step(received(wal(55, &[b'I', 0]))) {
        ServerAction::Finish(Err(ReplicationError::MessageParsing { message, context: None })) => {
            assert_eq!(message, "Malformed replication message")
        }
        other => panic!("no parsing error: {:?}", other),
    }
    // the position has been received all the same
    assert_eq!(server.state().received_lsn, 55);
}

#[test]
fn messages_in_a_stream_name_their_transaction() {
    let mut server = receiving();
    let steps: [Vec<u8>; 2] = [vec![b'S', 0, 0, 0, 9, 1], {
        let mut bytes = vec![b'I'];
        push_be(&mut bytes, 9, 4);
        bytes.extend_from_slice(&insert_bytes()[1..]);
        bytes
    }];
    for (i, data) in steps.iter().enumerate() {
        match server.step(received(wal(10, data))) {
            ServerAction::Deliver { message } => match message {
                ReplicationMessage::Other { message_type, body } => {
                    assert_eq!(i, 0);
                    assert_eq!(message_type, b'S');
                    assert_eq!(body, vec![0, 0, 0, 9, 1]);
                }
                ReplicationMessage::Insert { relation_id, is_stream, xid, .. } => {
                    assert_eq!(i, 1);
                    assert_eq!(relation_id, 16384);
                    assert!(is_stream);
                    assert_eq!(xid, Some(9));
                }
                other => panic!("another message: {:?}", other),
            },
            other => panic!("not delivered: {:?}", other),
        }
        server.step(ServerEvent::Delivered(Ok(())));
        server.step(sent(0));
        server.step(ServerEvent::Looked { shutdown: false, now: 0 });
        server.step(ServerEvent::Looked { shutdown: false, now: 0 });
    }
    // the end of the stream
    server.step(received(wal(10, &[b'E'])));
    server.step(ServerEvent::Delivered(Ok(())));
    server.step(sent(0));
    server.step(ServerEvent::Looked { shutdown: false, now: 0 });
    server.step(ServerEvent::Looked { shutdown: false, now: 0 });
    assert!(matches!(
        server.step(received(wal(10, &insert_bytes()))),
        ServerAction::Deliver {
            message: ReplicationMessage::Insert { is_stream: false, xid: None, .. }
        }
    ));
}

#[test]
fn a_shutdown_ends_the_run_without_an_error() {
    for failing in [false, true] {
        let result = || if failing { Err(broken()) } else { Ok(()) };
        let mut server = streaming();
        let action = server.step(ServerEvent::Looked { shutdown: true, now: 0 });
        assert!(matches!(action, ServerAction::SendFeedback));
        let action = server.step(ServerEvent::FeedbackSent { result: result(), now: 1 });
        assert!(matches!(action, ServerAction::Flush));
        assert!(matches!(
            server.step(ServerEvent::Flushed(result())),
            ServerAction::Finish(Ok(()))
        ));
        assert_eq!(server.phase(), ServerPhase::Ended);
    }
}

#[test]
fn a_shutdown_is_seen_after_a_message() {
    let mut server = receiving();
    server.step(received(wal(100, &insert_bytes())));
    server.step(ServerEvent::Delivered(Ok(())));
    server.step(sent(0));
    let action = server.step(ServerEvent::Looked { shutdown: true, now: 0 });
    assert!(matches!(action, ServerAction::SendFeedback));
    assert_eq!(server.phase(), ServerPhase::ClosingReport);
}

#[test]
fn reports_are_exact() {
    let mut server = receiving();
    server.step(received(wal(0x0102030405060708, &insert_bytes())));
    let epoch = Timestamp::new(946_684_800, 1_000).unwrap();
    let bytes = server.send_feedback(epoch);
    let mut expected = vec![b'r', 1, 2, 3, 4, 5, 6, 7, 8];
    expected.extend_from_slice(&[0; 16]);
    expected.extend_from_slice(&[0, 0, 0, 0, 0, 0, 0, 1, 0]);
    assert_eq!(bytes, expected);
    server.step(ServerEvent::Delivered(Ok(())));
    assert_eq!(server.send_feedback(epoch)[9..25], [1, 2, 3, 4, 5, 6, 7, 8, 1, 2, 3, 4, 5, 6, 7, 8]);
}

#[test]
fn reports_read_back() {
    for (received, applied, time) in [(0, 0, 0), (u64::MAX, 1, -1), (5, 4, i64::MIN)] {
        let bytes = write_status_update(received, applied, time);
        assert_eq!(bytes.len(), 34);
        assert_eq!(bytes[0], b'r');
        assert_eq!(bytes[1..9], received.to_be_bytes());
        assert_eq!(bytes[9..17], applied.to_be_bytes());
        assert_eq!(bytes[17..25], applied.to_be_bytes());
        assert_eq!(bytes[25..33], time.to_be_bytes());
        assert_eq!(bytes[33], 0);
    }
}

#[test]
fn times_count_from_the_postgres_epoch() {
    for (secs, nanos, micros) in [
        (946_684_800, 0, 0),
        (946_684_801, 999, 1_000_000),
        (946_684_799, 999_999_999, -1),
        (0, 0, -946_684_800_000_000),
    ] {
        let t = Timestamp::new(secs, nanos).unwrap();
        assert_eq!(system_time_to_postgres_timestamp(t), micros);
    }
}

#[test]
fn numbers_are_read_and_written() {
    for value in [0, 1, 255, 256, 0x0102030405060708, u64::MAX] {
        let mut bytes = vec![];
        push_be(&mut bytes, value, 8);
        assert_eq!(bytes, value.to_be_bytes());
        assert_eq!(Reader::new(&bytes).read_u64(), Some(value));
    }
    for value in [0, 1, -1, i64::MIN, i64::MAX] {
        assert_eq!(to_bits(value), value as u64);
    }
    let mut reader = Reader::new(&[0xff, 0xfe, 7, 0, 0, 1, 0]);
    assert_eq!(reader.read_i16(), Some(-2));
    assert_eq!(reader.read_u8(), Some(7));
    assert_eq!(reader.read_u32(), Some(256));
    assert_eq!(reader.read_u8(), None);
}

#[test]
fn texts_are_read_as_utf8() {
    let mut reader = Reader::new("aé\0\0".as_bytes());
    assert_eq!(reader.read_text(), Some("aé".to_string()));
    assert_eq!(reader.read_text(), Some(String::new()));
    assert_eq!(reader.read_text(), None);
    assert_eq!(Reader::new(&[0xff, 0]).read_text(), None);
    assert_eq!(Reader::new(b"abc").read_text(), None);
    let mut reader = Reader::new(&[0, 0, 0, 2, b'h', b'i', 9]);
    assert_eq!(reader.read_sized_text(), Some("hi".to_string()));
    assert_eq!(reader.read_rest(), vec![9]);
    assert_eq!(Reader::new(&[0xff, 0xff, 0xff, 0xff]).read_sized_text(), None);
    assert_eq!(Reader::new(&[0, 0, 0, 1, 0xc3]).read_sized_text(), None);
}

#[test]
fn relations_are_parsed() {
    match MessageParser::parse_wal_message(&relation_bytes(), false).unwrap() {
        ReplicationMessage::Relation { relation } => {
            assert_eq!(relation.oid, 16384);
            assert_eq!(relation.namespace, "public");
            assert_eq!(relation.relation_name, "event_stream");
            assert_eq!(relation.replica_identity, 'd');
            assert_eq!(relation.column_count, 2);
            assert_eq!(relation.columns.len(), 2);
            assert_eq!(relation.columns[0].column_name, "event_id");
            assert_eq!(relation.columns[0].column_type, 2950);
            assert_eq!(relation.columns[1].column_name, "größe");
        }
        other => panic!("no relation: {:?}", other),
    }
    let whole = relation_bytes();
    for end in 0..whole.len() {
        assert!(MessageParser::parse_wal_message(&whole[..end], false).is_err());
    }
}

#[test]
fn rows_are_parsed() {
    match MessageParser::parse_wal_message(&insert_bytes(), false).unwrap() {
        ReplicationMessage::Insert { relation_id, tuple_data, is_stream, xid } => {
            assert_eq!(relation_id, 16384);
            let texts: Vec<&str> = tuple_data.columns.iter().map(|c| c.data.as_str()).collect();
            assert_eq!(texts, vec!["aé", "", "", ""]);
            assert!(!is_stream);
            assert_eq!(xid, None);
        }
        other => panic!("no insert: {:?}", other),
    }
    let whole = insert_bytes();
    for end in 0..whole.len() {
        assert!(MessageParser::parse_wal_message(&whole[..end], false).is_err());
    }
    let mut wrong = insert_bytes();
    wrong[5] = b'O';
    assert!(MessageParser::parse_wal_message(&wrong, false).is_err());
}

#[test]
fn updates_are_parsed() {
    let mut plain = vec![b'U'];
    push_be(&mut plain, 1, 4);
    plain.push(b'N');
    plain.extend_from_slice(&tuple_bytes());
    match MessageParser::parse_wal_message(&plain, false).unwrap() {
        ReplicationMessage::Update { key_type, old_tuple_data, new_tuple_data, .. } => {
            assert_eq!(key_type, None);
            assert!(old_tuple_data.is_none());
            assert_eq!(new_tuple_data.columns.len(), 4);
        }
        other => panic!("no update: {:?}", other),
    }
    let mut keyed = vec![b'U'];
    push_be(&mut keyed, 5, 4);
    push_be(&mut keyed, 1, 4);
    keyed.extend_from_slice(&[b'K', 0, 1, b'n', b'N', 0, 0]);
    match MessageParser::parse_wal_message(&keyed, true).unwrap() {
        ReplicationMessage::Update {
            relation_id,
            key_type,
            old_tuple_data,
            new_tuple_data,
            is_stream,
            xid,
        } => {
            assert_eq!(relation_id, 1);
            assert_eq!(key_type, Some('K'));
            assert_eq!(old_tuple_data.unwrap().columns.len(), 1);
            assert_eq!(new_tuple_data.columns.len(), 0);
            assert!(is_stream);
            assert_eq!(xid, Some(5));
        }
        other => panic!("no update: {:?}", other),
    }
    assert!(MessageParser::parse_wal_message(&[b'U', 0, 0, 0, 1, b'X'], false).is_err());
}

#[test]
fn other_messages_are_kept_as_they_are() {
    match MessageParser::parse_wal_message(b"Bxyz", false).unwrap() {
        ReplicationMessage::Other { message_type, body } => {
            assert_eq!(message_type, b'B');
            assert_eq!(body, b"xyz".to_vec());
        }
        other => panic!("another message: {:?}", other),
    }
    assert!(MessageParser::parse_wal_message(b"", false).is_err());
}

#[test]
fn failed_runs_are_tried_again() {
    assert_eq!(before_run(false), NextStep::Run);
    assert_eq!(before_run(true), NextStep::Exit);
    assert_eq!(after_run(&Ok(()), false), NextStep::Exit);
    assert_eq!(after_run(&Ok(()), true), NextStep::Exit);
    assert_eq!(after_run(&Err(broken()), false), NextStep::RetryAfter { secs: 5 });
    assert_eq!(after_run(&Err(broken()), true), NextStep::Exit);
}

#[test]
fn the_setup_can_be_started_again_after_an_error() {
    let mut server = after_checks(2);
    failure(server.step(answer(true, ExecStatus::TuplesOk, 0, None)));
    assert_eq!(server.phase(), ServerPhase::Ended);
    assert_eq!(sql(server.create_replication_slot_and_start()), "SHOW wal_level;");
    assert_eq!(
        sql(server.step(row("logical"))),
        "SELECT slot_name FROM pg_replication_slots WHERE slot_name = 'my_slot';"
    );
    assert_eq!(
        failure(server.step(answer(false, ExecStatus::FatalError, 0, None))),
        "Failed to check existing replication slots: PGRES_FATAL_ERROR"
    );
    assert_eq!(sql(server.run()), "IDENTIFY_SYSTEM");
}

#[test]
fn a_new_stream_does_not_begin_inside_of_another() {
    let mut server = receiving();
    server.step(received(wal(10, &[b'S', 0, 0, 0, 9, 1])));
    server.step(ServerEvent::Delivered(Err(broken())));
    server.create_replication_slot_and_start();
    for value in ["logical", "my_slot", "my_pub"] {
        server.step(row(value));
    }
    server.step(answer(true, ExecStatus::CopyBoth, 0, None));
    server.step(ServerEvent::Looked { shutdown: false, now: 0 });
    assert_eq!(server.state().received_lsn, 10);
    assert!(matches!(
        server.step(received(wal(10, &insert_bytes()))),
        ServerAction::Deliver {
            message: ReplicationMessage::Insert { is_stream: false, xid: None, .. }
        }
    ));
}
