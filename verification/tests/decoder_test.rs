//! Rows of the event table, and the events in them.

use walpipe::column::{ColumnValue, ReplicationRow};
use walpipe::decoder::ReplicationEventDecoder;
use walpipe::errors::ReplicationError;
use walpipe::event_row::parse_event_row;
use walpipe::json::JsonValue;
use walpipe::ids::Uuid;
use walpipe::messages::{
    ColumnData, ColumnInfo, Oid, RelationInfo, ReplicationMessage, TupleData,
};
use walpipe::text_map::TextMap;

fn relation(oid: Oid, name: &str, columns: &[(&str, Oid)]) -> ReplicationMessage {
    ReplicationMessage::Relation {
        relation: RelationInfo {
            oid,
            namespace: "public".to_string(),
            relation_name: name.to_string(),
            replica_identity: 'd',
            column_count: columns.len() as i16,
            columns: columns
                .iter()
                .map(|(name, column_type)| ColumnInfo {
                    column_name: name.to_string(),
                    column_type: *column_type,
                })
                .collect(),
        },
    }
}

fn tuple(texts: &[&str]) -> TupleData {
    TupleData { columns: texts.iter().map(|t| ColumnData { data: t.to_string() }).collect() }
}

fn insert(oid: Oid, texts: &[&str]) -> ReplicationMessage {
    ReplicationMessage::Insert {
        relation_id: oid,
        tuple_data: tuple(texts),
        is_stream: false,
        xid: None,
    }
}

fn update(oid: Oid, texts: &[&str]) -> ReplicationMessage {
    ReplicationMessage::Update {
        relation_id: oid,
        key_type: Some('O'),
        old_tuple_data: Some(tuple(&["old"])),
        new_tuple_data: tuple(texts),
        is_stream: false,
        xid: None,
    }
}

const COLUMNS: [(&str, Oid); 6] = [
    ("event_id", 2950),
    ("event_type", 25),
    ("created_at", 1184),
    ("metadata", 3802),
    ("payload", 3802),
    ("labels", 114),
];

const TEXTS: [&str; 6] = [
    "00000000-0000-0000-0000-000000000005",
    "user.created",
    "2024-05-01 10:20:30+00",
    "{\"m\": \"1\", \"n\": 2}",
    "{\"p\": [1, 2]}",
    "{\"l\": \"x\"}",
];

fn decoded(texts: &[&str]) -> ReplicationRow {
    let mut decoder = ReplicationEventDecoder::new();
    assert!(decoder.decode(&relation(7, "event_stream", &COLUMNS)).is_none());
    decoder.decode(&insert(7, texts)).unwrap()
}

#[test]
fn rows_of_the_event_table_are_decoded() {
    let row = decoded(&TEXTS);
    assert_eq!(row.column_values.len(), 6);
    assert!(matches!(
        row.column_values.get("event_id"),
        Some(ColumnValue::Uuid(Uuid { bits: 5 }))
    ));
    assert!(matches!(
        row.column_values.get("event_type"),
        Some(ColumnValue::String(text)) if text == "user.created"
    ));
    assert!(matches!(row.column_values.get("labels"), Some(ColumnValue::Json(_))));
}

#[test]
fn updates_give_the_new_row() {
    let mut decoder = ReplicationEventDecoder::new();
    decoder.decode(&relation(7, "event_stream", &[("event_type", 25)]));
    let row = decoder.decode(&update(7, &["new"])).unwrap();
    assert!(matches!(
        row.column_values.get("event_type"),
        Some(ColumnValue::String(text)) if text == "new"
    ));
}

#[test]
fn other_tables_and_messages_give_no_row() {
    let mut decoder = ReplicationEventDecoder::new();
    // not described yet
    assert!(!decoder.is_event_stream_table(7));
    assert!(decoder.accepts(&insert(7, &["a"])));
    assert!(decoder.decode(&insert(7, &["a"])).is_none());
    decoder.decode(&relation(7, "walpipe_heartbeat", &[("a", 25)]));
    assert!(!decoder.is_event_stream_table(7));
    assert!(decoder.decode(&insert(7, &["a", "b"])).is_none());
    assert!(decoder.decode(&update(7, &["a", "b"])).is_none());
    decoder.decode(&relation(8, "event_stream", &[("a", 25)]));
    assert!(decoder.is_event_stream_table(8));
    let other = ReplicationMessage::Other { message_type: b'B', body: vec![1] };
    assert!(decoder.accepts(&other));
    assert!(decoder.decode(&other).is_none());
}

#[test]
fn descriptions_change_only_their_relation() {
    let mut decoder = ReplicationEventDecoder::new();
    decoder.decode(&relation(7, "event_stream", &[("a", 25)]));
    decoder.decode(&relation(8, "event_stream", &[("b", 25)]));
    decoder.decode(&relation(8, "renamed", &[("c", 25)]));
    assert!(decoder.is_event_stream_table(7));
    assert!(!decoder.is_event_stream_table(8));
    assert_eq!(decoder.relations.len(), 2);
    let row = decoder.decode(&insert(7, &["x"])).unwrap();
    assert_eq!(row.column_values.keys(), vec!["a".to_string()]);
}

#[test]
fn columns_of_unknown_types_are_passed_over() {
    let mut decoder = ReplicationEventDecoder::new();
    decoder.decode(&relation(7, "event_stream", &[("a", 99999), ("b", 25), ("c", 25)]));
    assert!(decoder.accepts(&insert(7, &["1", "2"])));
    assert!(!decoder.accepts(&insert(7, &["1", "2", "3"])));
    let row = decoder.decode(&insert(7, &["1", "2"])).unwrap();
    assert_eq!(row.column_values.get("b").unwrap().to_text(), "1");
    assert_eq!(row.column_values.get("c").unwrap().to_text(), "2");
    assert!(row.column_values.get("a").is_none());
}

#[test]
fn rows_that_are_too_long_are_not_accepted() {
    let mut decoder = ReplicationEventDecoder::new();
    decoder.decode(&relation(7, "event_stream", &[("a", 25)]));
    assert!(decoder.accepts(&insert(7, &[])));
    assert!(decoder.accepts(&insert(7, &["1"])));
    assert!(!decoder.accepts(&insert(7, &["1", "2"])));
    assert!(!decoder.accepts(&update(7, &["1", "2"])));
}

#[test]
fn rows_with_all_columns_are_events() {
    let event = parse_event_row(&decoded(&TEXTS)).unwrap();
    assert_eq!(event.event_id.bits, 5);
    assert_eq!(event.event_type, "user.created");
    assert_eq!(event.created_at.secs(), 1714558830);
    assert_eq!(event.metadata.text, "{\"m\":\"1\",\"n\":2}");
    assert_eq!(event.payload.text, "{\"p\":[1,2]}");
    assert_eq!(event.labels.text, "{\"l\":\"x\"}");
}

#[test]
fn the_time_of_an_event_may_be_a_text() {
    let mut values: TextMap<ColumnValue> = TextMap::new();
    let json = || ColumnValue::Json(JsonValue::parse("{}").unwrap());
    values.insert("event_id".to_string(), ColumnValue::Uuid(Uuid { bits: 1 }));
    values.insert("event_type".to_string(), ColumnValue::String("t".to_string()));
    values.insert(
        "created_at".to_string(),
        ColumnValue::String("2024-05-01 10:20:30.25+00".to_string()),
    );
    values.insert("metadata".to_string(), json());
    values.insert("payload".to_string(), json());
    values.insert("labels".to_string(), json());
    let event = parse_event_row(&ReplicationRow { column_values: values }).unwrap();
    assert_eq!((event.created_at.secs(), event.created_at.nanos()), (1714558830, 250_000_000));
}

fn parsing_error(row: &ReplicationRow) -> (String, String) {
    match parse_event_row(row) {
        Err(ReplicationError::MessageParsing { message, context }) => (message, context.unwrap()),
        other => panic!("no parsing error: {:?}", other),
    }
}

#[test]
fn missing_columns_are_named() {
    let mut decoder = ReplicationEventDecoder::new();
    decoder.decode(&relation(7, "event_stream", &COLUMNS[..2]));
    let row = decoder.decode(&insert(7, &TEXTS[..2])).unwrap();
    let (message, context) = parsing_error(&row);
    assert_eq!(
        message,
        "Missing columns: [\"created_at\", \"metadata\", \"payload\", \"labels\"] (found: [\"event_id\", \"event_type\"])"
    );
    assert_eq!(context, "[\"event_id\", \"event_type\"]");
}

#[test]
fn columns_of_the_wrong_kind_are_named() {
    let mut texts = TEXTS;
    texts[0] = "no uuid";
    let (message, context) = parsing_error(&decoded(&texts));
    assert_eq!(message, "event_id not a UUID column value, is String(\"no uuid\")");
    assert!(context.starts_with("{\"event_id\": String(\"no uuid\"), \"event_type\": "));

    let mut texts = TEXTS;
    texts[2] = "soon";
    let (message, context) = parsing_error(&decoded(&texts));
    assert!(message.starts_with("created_at string parse error: DateTimeParse(ParseError("));
    assert!(context.starts_with("Error: DateTimeParse(ParseError("));
    assert!(context.contains(", full row: {\"event_id\": "));

    let mut texts = TEXTS;
    texts[3] = "{";
    let (message, _) = parsing_error(&decoded(&texts));
    assert_eq!(message, "metadata not a json column value, is String(\"{\")");

    let mut columns = COLUMNS;
    columns[1].1 = 2950;
    columns[2].1 = 2950;
    let mut texts = TEXTS;
    texts[1] = texts[0];
    texts[2] = texts[0];
    let mut decoder = ReplicationEventDecoder::new();
    decoder.decode(&relation(7, "event_stream", &columns));
    let row = decoder.decode(&insert(7, &texts)).unwrap();
    let (message, _) = parsing_error(&row);
    assert_eq!(
        message,
        "event_type not a string column value, is Uuid(00000000-0000-0000-0000-000000000005)"
    );
    columns[1].1 = 25;
    decoder.decode(&relation(7, "event_stream", &columns));
    let row = decoder.decode(&insert(7, &texts)).unwrap();
    let (message, _) = parsing_error(&row);
    assert_eq!(
        message,
        "created_at not a timestamptz column value, is Uuid(00000000-0000-0000-0000-000000000005)"
    );
}

#[test]
fn values_of_the_wrong_kind_are_shown() {
    let mut columns = COLUMNS;
    columns[1].1 = 3802;
    let mut texts = TEXTS;
    texts[1] = "{}";
    let mut decoder = ReplicationEventDecoder::new();
    decoder.decode(&relation(7, "event_stream", &columns));
    let row = decoder.decode(&insert(7, &texts)).unwrap();
    let (message, context) = parsing_error(&row);
    assert_eq!(message, "event_type not a string column value, is Json(Object {})");
    assert_eq!(
        context,
        "{\"event_id\": Uuid(00000000-0000-0000-0000-000000000005), \"event_type\": Json(Object {}), \"created_at\": TimestampTZ(2024-05-01T10:20:30Z), \"metadata\": Json(Object {\"m\": String(\"1\"), \"n\": Number(2)}), \"payload\": Json(Object {\"p\": Array [Number(1), Number(2)]}), \"labels\": Json(Object {\"l\": String(\"x\")})}"
    );
    columns[1].1 = 1114;
    texts[1] = "2024-05-01T10:20:30";
    decoder.decode(&relation(7, "event_stream", &columns));
    let row = decoder.decode(&insert(7, &texts)).unwrap();
    let (message, _) = parsing_error(&row);
    assert_eq!(
        message,
        "event_type not a string column value, is Timestamp(2024-05-01T10:20:30)"
    );
}
