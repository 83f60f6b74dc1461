//! The event history: statements and batches.

use walpipe::event_history::{
    build_insert_sql, escape_quotes, flush_error, flush_statement, BatchAction, BatchEvent,
    BatchPhase, EventHistoryRecord, EventHistoryRecorder,
};
use walpipe::ids::Uuid;
use walpipe::time::Timestamp;

fn now() -> Timestamp {
    let now = chrono::Utc::now();
    Timestamp::new(now.timestamp(), now.timestamp_subsec_nanos()).unwrap()
}

fn make_record(id: Uuid, event_type: &str, created: Timestamp) -> EventHistoryRecord {
    EventHistoryRecord {
        event_id: id,
        event_type: event_type.to_string(),
        source_created_at: created,
    }
}

fn record(event_type: &str) -> EventHistoryRecord {
    make_record(Uuid { bits: 1 }, event_type, Timestamp::new(0, 0).unwrap())
}

fn row(event_type: &str) -> String {
    format!(
        "('00000000-0000-0000-0000-000000000001', 'DELIVERED', jsonb_build_object('trigger', 'walpipe_dispatch', 'event_type', '{}', 'source_created_at', '1970-01-01 00:00:00 UTC'))",
        event_type
    )
}

const INSERT: &str = "INSERT INTO event_history (event_id, status, metadata) VALUES ";

#[test]
fn test_build_insert_sql_single() {
    let id = Uuid { bits: 0 };
    let batch = vec![make_record(id, "user.created", now())];
    let sql = build_insert_sql(&batch);

    assert!(sql.starts_with("INSERT INTO event_history (event_id, status, metadata) VALUES"));
    assert!(sql.contains(&id.to_text()));
    assert!(sql.contains("'DELIVERED'"));
    assert!(sql.contains("user.created"));
    assert!(sql.contains("'walpipe_dispatch'"));
}

#[test]
fn test_build_insert_sql_multiple() {
    let batch = vec![
        make_record(Uuid { bits: 0 }, "type.a", now()),
        make_record(
            Uuid::parse("11111111-1111-1111-1111-111111111111").unwrap(),
            "type.b",
            now(),
        ),
    ];
    let sql = build_insert_sql(&batch);

    // Two value tuples separated by a comma
    assert!(sql.contains(")),("));
    assert!(sql.contains("type.a"));
    assert!(sql.contains("type.b"));
}

#[test]
fn test_build_insert_sql_escapes_quotes() {
    let batch = vec![make_record(Uuid { bits: 0 }, "user's.event", now())];
    let sql = build_insert_sql(&batch);

    assert!(sql.contains("user''s.event"));
    assert!(!sql.contains("user's.event"));
}

#[test]
fn test_flush_batch_empty_returns_ok() {
    let sql = build_insert_sql(&[]);
    assert!(sql.contains("VALUES "));
    // an empty batch asks nothing of the database
    assert!(flush_statement(&[]).is_none());
}

#[test]
fn statements_are_exact() {
    assert_eq!(build_insert_sql(&[]), INSERT);
    assert_eq!(build_insert_sql(&[record("a")]), format!("{}{}", INSERT, row("a")));
    assert_eq!(
        build_insert_sql(&[record("a"), record("it's"), record("c")]),
        format!("{}{},{},{}", INSERT, row("a"), row("it''s"), row("c"))
    );
    assert_eq!(flush_statement(&[record("a")]), Some(format!("{}{}", INSERT, row("a"))));
}

#[test]
fn times_of_the_history_have_their_fractions() {
    let created = Timestamp::new(1714558830, 500_000_000).unwrap();
    let sql = build_insert_sql(&[make_record(Uuid { bits: 0 }, "a", created)]);
    assert!(sql.ends_with("'source_created_at', '2024-05-01 10:20:30.500 UTC'))"));
}

#[test]
fn quotes_are_doubled() {
    assert_eq!(escape_quotes(""), "");
    assert_eq!(escape_quotes("plain"), "plain");
    assert_eq!(escape_quotes("'"), "''");
    assert_eq!(escape_quotes("a''b'"), "a''''b''");
    assert_eq!(escape_quotes("\\' é"), "\\'' é");
}

#[test]
fn failed_flushes_say_why() {
    assert_eq!(flush_error("db error", None), "flush_batch: db error");
    assert_eq!(
        flush_error("db error", Some("relation does not exist")),
        "flush_batch: db error: relation does not exist"
    );
}

fn flushed(action: BatchAction) -> String {
    match action {
        BatchAction::Flush { sql } => sql,
        other => panic!("no flush: {:?}", other),
    }
}

#[test]
fn full_batches_are_written() {
    let mut recorder = EventHistoryRecorder::new(2);
    assert_eq!(recorder.phase(), BatchPhase::Gathering);
    assert!(matches!(recorder.record(record("a")), BatchAction::Wait));
    assert_eq!(recorder.len(), 1);
    let sql = flushed(recorder.record(record("b")));
    assert_eq!(sql, format!("{}{},{}", INSERT, row("a"), row("b")));
    assert_eq!(recorder.phase(), BatchPhase::Flushing);
    assert!(matches!(
        recorder.step(BatchEvent::Flushed { success: true }),
        BatchAction::Wait
    ));
    assert_eq!(recorder.len(), 0);
}

#[test]
fn what_could_not_be_written_is_kept() {
    let mut recorder = EventHistoryRecorder::new(1);
    flushed(recorder.record(record("a")));
    assert!(matches!(
        recorder.step(BatchEvent::Flushed { success: false }),
        BatchAction::Wait
    ));
    assert_eq!(recorder.len(), 1);
    let sql = flushed(recorder.record(record("b")));
    assert_eq!(sql, format!("{}{},{}", INSERT, row("a"), row("b")));
}

#[test]
fn intervals_write_what_is_there() {
    let mut recorder = EventHistoryRecorder::new(100);
    assert!(matches!(recorder.step(BatchEvent::Tick), BatchAction::Wait));
    assert!(matches!(recorder.record(record("a")), BatchAction::Wait));
    let sql = flushed(recorder.step(BatchEvent::Tick));
    assert_eq!(sql, format!("{}{}", INSERT, row("a")));
    recorder.step(BatchEvent::Flushed { success: true });
    assert!(matches!(recorder.step(BatchEvent::Tick), BatchAction::Wait));
}

#[test]
fn the_last_batch_is_written_before_the_end() {
    let mut recorder = EventHistoryRecorder::new(100);
    recorder.record(record("a"));
    let sql = flushed(recorder.step(BatchEvent::Closed));
    assert_eq!(sql, format!("{}{}", INSERT, row("a")));
    assert_eq!(recorder.phase(), BatchPhase::Closing);
    assert!(matches!(
        recorder.step(BatchEvent::Flushed { success: true }),
        BatchAction::Stop
    ));
    assert_eq!(recorder.phase(), BatchPhase::Done);

    let mut recorder = EventHistoryRecorder::new(100);
    assert!(matches!(recorder.step(BatchEvent::Closed), BatchAction::Stop));

    let mut recorder = EventHistoryRecorder::new(100);
    recorder.record(record("a"));
    recorder.step(BatchEvent::Closed);
    assert!(matches!(
        recorder.step(BatchEvent::Flushed { success: false }),
        BatchAction::Stop
    ));
}

#[test]
fn no_record_is_lost_or_doubled() {
    // every third flush fails
    let mut recorder = EventHistoryRecorder::new(3);
    let mut written = 0usize;
    let mut flushes = 0usize;
    for i in 0..20 {
        let action = recorder.record(record("x"));
        if let BatchAction::Flush { sql } = action {
            flushes += 1;
            let success = flushes % 3 != 0;
            if success {
                written += sql.matches("'DELIVERED'").count();
            }
            recorder.step(BatchEvent::Flushed { success });
        }
        assert_eq!(written + recorder.len(), i + 1);
    }
}
