//! An event, read from a row of the event table.

use vstd::prelude::*;

use crate::column::{
    describe_names, names_description, parse_timestamptz, row_description, timestamptz,
    ColumnValue, ColumnView, ConversionErrorView, EventConversionError, ReplicationRow,
};
use crate::errors::{outcome, ErrorView, ReplicationError};
use crate::ids::Uuid;
use crate::json::{JsonValue, JsonView};
use crate::text::texts;
use crate::text_map::{keys_of, lookup};
use crate::time::Timestamp;

verus! {

/// An event of the event table.
#[derive(Debug)]
pub struct EventTableRow {
    pub event_id: Uuid,
    pub event_type: String,
    pub created_at: Timestamp,
    pub metadata: JsonValue,
    pub payload: JsonValue,
    pub labels: JsonValue,
}

/// An [`EventTableRow`] as a mathematical value.
pub struct EventView {
    pub event_id: u128,
    pub event_type: Seq<char>,
    pub created_at: (i64, u32),
    pub metadata: JsonView,
    pub payload: JsonView,
    pub labels: JsonView,
}

impl View for EventTableRow {
    type V = EventView;

    open spec fn view(&self) -> EventView {
        EventView {
            event_id: self.event_id.bits,
            event_type: self.event_type@,
            created_at: self.created_at@,
            metadata: self.metadata@,
            payload: self.payload@,
            labels: self.labels@,
        }
    }
}

/// A row of the event table: values by the names of their columns.
pub type RowView = Seq<(Seq<char>, ColumnView)>;

/// The columns that an event is made of.
pub open spec fn required_columns() -> Seq<Seq<char>> {
    seq![
        "event_id"@,
        "event_type"@,
        "created_at"@,
        "metadata"@,
        "payload"@,
        "labels"@,
    ]
}

/// The columns of an event that a row does not have.
pub open spec fn missing_columns(row: RowView) -> Seq<Seq<char>> {
    required_columns().filter(|name: Seq<char>| lookup(row, name) is None)
}

/// The error for a row that lacks columns.
pub open spec fn missing_columns_error(row: RowView) -> ErrorView {
    ErrorView::MessageParsing(
        "Missing columns: "@ + names_description(missing_columns(row)) + " (found: "@
            + names_description(keys_of(row)) + ")"@,
        Some(names_description(keys_of(row))),
    )
}

/// The error for a column that a row lacks.
pub open spec fn no_column_error(row: RowView, name: Seq<char>) -> ErrorView {
    ErrorView::MessageParsing(name + " column missing"@, Some(row_description(row)))
}

/// The error for a column whose value is not of the expected kind.
pub open spec fn wrong_kind_error(
    row: RowView,
    name: Seq<char>,
    expected: Seq<char>,
    value: ColumnView,
) -> ErrorView {
    ErrorView::MessageParsing(
        name + " not a "@ + expected + " column value, is "@ + value.description(),
        Some(row_description(row)),
    )
}

/// The error for a column whose text could not be read as a date and time.
pub open spec fn bad_timestamp_error(
    row: RowView,
    name: Seq<char>,
    error: ConversionErrorView,
) -> ErrorView {
    ErrorView::MessageParsing(
        name + " string parse error: "@ + error.description(),
        Some("Error: "@ + error.description() + ", full row: "@ + row_description(row)),
    )
}

/// The UUID in a column.
pub open spec fn uuid_column(row: RowView, name: Seq<char>) -> Result<u128, ErrorView> {
    match lookup(row, name) {
        Some(ColumnView::Uuid(id)) => Ok(id),
        Some(value) => Err(wrong_kind_error(row, name, "UUID"@, value)),
        None => Err(no_column_error(row, name)),
    }
}

/// The text in a column.
pub open spec fn string_column(row: RowView, name: Seq<char>) -> Result<Seq<char>, ErrorView> {
    match lookup(row, name) {
        Some(ColumnView::String(text)) => Ok(text),
        Some(value) => Err(wrong_kind_error(row, name, "string"@, value)),
        None => Err(no_column_error(row, name)),
    }
}

/// The JSON value in a column.
pub open spec fn json_column(row: RowView, name: Seq<char>) -> Result<JsonView, ErrorView> {
    match lookup(row, name) {
        Some(ColumnView::Json(value)) => Ok(value),
        Some(value) => Err(wrong_kind_error(row, name, "json"@, value)),
        None => Err(no_column_error(row, name)),
    }
}

/// The instant in a column that holds the text of one.
pub open spec fn timestamp_from_text(
    row: RowView,
    name: Seq<char>,
    parsed: Result<(i64, u32), ConversionErrorView>,
) -> Result<(i64, u32), ErrorView> {
    match parsed {
        Ok(t) => Ok(t),
        Err(e) => Err(bad_timestamp_error(row, name, e)),
    }
}

/// The instant in a column.
pub open spec fn timestamptz_column(row: RowView, name: Seq<char>) -> Result<
    (i64, u32),
    ErrorView,
> {
    match lookup(row, name) {
        Some(ColumnView::TimestampTZ(t)) => Ok(t),
        Some(ColumnView::String(text)) => timestamp_from_text(row, name, timestamptz(text)),
        Some(value) => Err(wrong_kind_error(row, name, "timestamptz"@, value)),
        None => Err(no_column_error(row, name)),
    }
}

/// The event that a row holds, or the error for the first thing that is wrong
/// with it: a missing column, or else the first column, in the order of an
/// event, that has the wrong kind.
pub open spec fn event_of(row: RowView) -> Result<EventView, ErrorView> {
    if missing_columns(row).len() > 0 {
        Err(missing_columns_error(row))
    } else {
        match (
            uuid_column(row, "event_id"@),
            string_column(row, "event_type"@),
            timestamptz_column(row, "created_at"@),
            json_column(row, "metadata"@),
            json_column(row, "payload"@),
            json_column(row, "labels"@),
        ) {
            (Err(e), _, _, _, _, _) => Err(e),
            (_, Err(e), _, _, _, _) => Err(e),
            (_, _, Err(e), _, _, _) => Err(e),
            (_, _, _, Err(e), _, _) => Err(e),
            (_, _, _, _, Err(e), _) => Err(e),
            (_, _, _, _, _, Err(e)) => Err(e),
            (
                Ok(event_id),
                Ok(event_type),
                Ok(created_at),
                Ok(metadata),
                Ok(payload),
                Ok(labels),
            ) => Ok(EventView { event_id, event_type, created_at, metadata, payload, labels }),
        }
    }
}

fn no_column(row: &ReplicationRow, name: &str) -> (error: ReplicationError)
    ensures
        error@ == no_column_error(row@, name@),
{
    ReplicationError::MessageParsing {
        message: name.to_string().concat(" column missing"),
        context: Some(row.describe()),
    }
}

fn wrong_kind(row: &ReplicationRow, name: &str, expected: &str, value: &ColumnValue) -> (error:
    ReplicationError)
    ensures
        error@ == wrong_kind_error(row@, name@, expected@, value@),
{
    ReplicationError::MessageParsing {
        message: name.to_string().concat(" not a ").concat(expected).concat(
            " column value, is ",
        ).concat(value.describe().as_str()),
        context: Some(row.describe()),
    }
}

/// The UUID in a column of a row.
pub fn get_uuid_column(row: &ReplicationRow, name: &str) -> (value: Result<Uuid, ReplicationError>)
    ensures
        match value {
            Ok(id) => uuid_column(row@, name@) == Ok::<u128, ErrorView>(id.bits),
            Err(e) => uuid_column(row@, name@) == Err::<u128, ErrorView>(e@),
        },
{
    match row.column_values.get(name) {
        Some(value) => match value {
            ColumnValue::Uuid(id) => Ok(*id),
            other => Err(wrong_kind(row, name, "UUID", other)),
        },
        None => Err(no_column(row, name)),
    }
}

/// The text in a column of a row.
pub fn get_string_column(row: &ReplicationRow, name: &str) -> (value: Result<
    String,
    ReplicationError,
>)
    ensures
        outcome(value) == string_column(row@, name@),
{
    match row.column_values.get(name) {
        Some(value) => match value {
            ColumnValue::String(text) => Ok(text.clone()),
            other => Err(wrong_kind(row, name, "string", other)),
        },
        None => Err(no_column(row, name)),
    }
}

/// The JSON value in a column of a row.
pub fn get_json_column(row: &ReplicationRow, name: &str) -> (value: Result<
    JsonValue,
    ReplicationError,
>)
    ensures
        outcome(value) == json_column(row@, name@),
{
    match row.column_values.get(name) {
        Some(value) => match value {
            ColumnValue::Json(json) => Ok(json.clone()),
            other => Err(wrong_kind(row, name, "json", other)),
        },
        None => Err(no_column(row, name)),
    }
}

/// The instant in a column of a row that holds the text of one, given what the
/// text was read as.
pub fn get_parsed_timestamp(
    row: &ReplicationRow,
    name: &str,
    parsed: Result<Timestamp, EventConversionError>,
) -> (value: Result<Timestamp, ReplicationError>)
    ensures
        outcome(value) == timestamp_from_text(row@, name@, outcome(parsed)),
{
    match parsed {
        Ok(t) => Ok(t),
        Err(e) => {
            let description = e.describe();
            Err(
                ReplicationError::MessageParsing {
                    message: name.to_string().concat(" string parse error: ").concat(
                        description.as_str(),
                    ),
                    context: Some(
                        "Error: ".to_string().concat(description.as_str()).concat(
                            ", full row: ",
                        ).concat(row.describe().as_str()),
                    ),
                },
            )
        },
    }
}

/// The instant in a column of a row.
pub fn get_timestamptz_column(row: &ReplicationRow, name: &str) -> (value: Result<
    Timestamp,
    ReplicationError,
>)
    ensures
        outcome(value) == timestamptz_column(row@, name@),
{
    match row.column_values.get(name) {
        Some(value) => match value {
            ColumnValue::TimestampTZ(t) => Ok(*t),
            ColumnValue::String(text) => get_parsed_timestamp(
                row,
                name,
                parse_timestamptz(text.as_str()),
            ),
            other => Err(wrong_kind(row, name, "timestamptz", other)),
        },
        None => Err(no_column(row, name)),
    }
}

/// The columns of an event.
fn event_columns() -> (names: Vec<String>)
    ensures
        texts(names@) == required_columns(),
{
    let mut names: Vec<String> = Vec::new();
    names.push("event_id".to_string());
    names.push("event_type".to_string());
    names.push("created_at".to_string());
    names.push("metadata".to_string());
    names.push("payload".to_string());
    names.push("labels".to_string());
    assert(texts(names@) =~= required_columns());
    names
}

/// The event that a row holds.
pub fn parse_event_row(row: &ReplicationRow) -> (event: Result<EventTableRow, ReplicationError>)
    ensures
        outcome(event) == event_of(row@),
{
    let names = event_columns();
    let mut missing: Vec<String> = Vec::new();
    let ghost required = required_columns();
    let ghost absent = |name: Seq<char>| lookup(row@, name) is None;
    for i in 0..names.len()
        invariant
            required == texts(names@),
            absent == (|name: Seq<char>| lookup(row@, name) is None),
            texts(missing@) == required.take(i as int).filter(absent),
    {
        let ghost before = texts(missing@);
        assert(required.take(i + 1).drop_last() == required.take(i as int));
        assert(required[i as int] == names@[i as int]@);
        reveal_with_fuel(Seq::filter, 2);
        if !row.column_values.contains_key(names[i].as_str()) {
            missing.push(names[i].clone());
            assert(texts(missing@) == before.push(required[i as int]));
        }
    }
    assert(required.take(required.len() as int) == required);
    if missing.len() > 0 {
        let found = describe_names(&row.column_values.keys());
        return Err(
            ReplicationError::MessageParsing {
                message: "Missing columns: ".to_string().concat(
                    describe_names(&missing).as_str(),
                ).concat(" (found: ").concat(found.as_str()).concat(")"),
                context: Some(found),
            },
        );
    }
    let event_id = match get_uuid_column(row, "event_id") {
        Ok(value) => value,
        Err(e) => return Err(e),
    };
    let event_type = match get_string_column(row, "event_type") {
        Ok(value) => value,
        Err(e) => return Err(e),
    };
    let created_at = match get_timestamptz_column(row, "created_at") {
        Ok(value) => value,
        Err(e) => return Err(e),
    };
    let metadata = match get_json_column(row, "metadata") {
        Ok(value) => value,
        Err(e) => return Err(e),
    };
    let payload = match get_json_column(row, "payload") {
        Ok(value) => value,
        Err(e) => return Err(e),
    };
    let labels = match get_json_column(row, "labels") {
        Ok(value) => value,
        Err(e) => return Err(e),
    };
    Ok(EventTableRow { event_id, event_type, created_at, metadata, payload, labels })
}

/// A row is an event exactly if it has all six columns with values of the right
/// kinds. The time of the event may also be the text of one.
pub proof fn law_which_rows_are_events(row: RowView)
    ensures
        event_of(row) is Ok <==> {
            &&& lookup(row, "event_id"@) matches Some(ColumnView::Uuid(_))
            &&& lookup(row, "event_type"@) matches Some(ColumnView::String(_))
            &&& match lookup(row, "created_at"@) {
                Some(ColumnView::TimestampTZ(_)) => true,
                Some(ColumnView::String(text)) => timestamptz(text) is Ok,
                _ => false,
            }
            &&& lookup(row, "metadata"@) matches Some(ColumnView::Json(_))
            &&& lookup(row, "payload"@) matches Some(ColumnView::Json(_))
            &&& lookup(row, "labels"@) matches Some(ColumnView::Json(_))
        },
{
    let required = required_columns();
    let absent = |name: Seq<char>| lookup(row, name) is None;
    let missing = missing_columns(row);
    if missing.len() > 0 {
        required.lemma_filter_pred(absent, 0);
        required.lemma_filter_contains_rev(absent, missing[0]);
        let i = choose|i: int| 0 <= i < required.len() && required[i] == missing[0];
        assert(i == 0 || i == 1 || i == 2 || i == 3 || i == 4 || i == 5);
    }
}

/// An event is made of its six columns: each part is what stands under its name. The
/// time may also be the text of one, which is then read.
pub proof fn law_an_event_has_its_columns(row: RowView)
    ensures
        event_of(row) matches Ok(event) ==> {
            &&& lookup(row, "event_id"@) == Some(ColumnView::Uuid(event.event_id))
            &&& lookup(row, "event_type"@) == Some(ColumnView::String(event.event_type))
            &&& lookup(row, "metadata"@) == Some(ColumnView::Json(event.metadata))
            &&& lookup(row, "payload"@) == Some(ColumnView::Json(event.payload))
            &&& lookup(row, "labels"@) == Some(ColumnView::Json(event.labels))
            &&& match lookup(row, "created_at"@) {
                Some(ColumnView::TimestampTZ(t)) => event.created_at == t,
                Some(ColumnView::String(text)) => timestamptz(text) == Ok::<
                    (i64, u32),
                    ConversionErrorView,
                >(event.created_at),
                _ => false,
            }
        },
{
}

/// A column that holds another kind of value than it should is an error that says what
/// it holds; so is one that is not there, and a text that should be a time and is none.
pub proof fn law_what_is_wrong_with_a_column(row: RowView, name: Seq<char>)
    ensures
        match lookup(row, name) {
            None => {
                let error = ErrorView::MessageParsing(
                    name + " column missing"@,
                    Some(row_description(row)),
                );
                &&& uuid_column(row, name) == Err::<u128, ErrorView>(error)
                &&& string_column(row, name) == Err::<Seq<char>, ErrorView>(error)
                &&& json_column(row, name) == Err::<JsonView, ErrorView>(error)
                &&& timestamptz_column(row, name) == Err::<(i64, u32), ErrorView>(error)
            },
            Some(value) => {
                let shown = value.description();
                let context = Some(row_description(row));
                &&& uuid_column(row, name) == (match value {
                    ColumnView::Uuid(id) => Ok::<u128, ErrorView>(id),
                    _ => Err(
                        ErrorView::MessageParsing(
                            name + " not a "@ + "UUID"@ + " column value, is "@ + shown,
                            context,
                        ),
                    ),
                })
                &&& string_column(row, name) == (match value {
                    ColumnView::String(text) => Ok::<Seq<char>, ErrorView>(text),
                    _ => Err(
                        ErrorView::MessageParsing(
                            name + " not a "@ + "string"@ + " column value, is "@ + shown,
                            context,
                        ),
                    ),
                })
                &&& json_column(row, name) == (match value {
                    ColumnView::Json(json) => Ok::<JsonView, ErrorView>(json),
                    _ => Err(
                        ErrorView::MessageParsing(
                            name + " not a "@ + "json"@ + " column value, is "@ + shown,
                            context,
                        ),
                    ),
                })
                &&& timestamptz_column(row, name) == (match value {
                    ColumnView::TimestampTZ(t) => Ok::<(i64, u32), ErrorView>(t),
                    ColumnView::String(text) => match timestamptz(text) {
                        Ok(t) => Ok(t),
                        Err(e) => Err(
                            ErrorView::MessageParsing(
                                name + " string parse error: "@ + e.description(),
                                Some(
                                    "Error: "@ + e.description() + ", full row: "@
                                        + row_description(row),
                                ),
                            ),
                        ),
                    },
                    _ => Err(
                        ErrorView::MessageParsing(
                            name + " not a "@ + "timestamptz"@ + " column value, is "@ + shown,
                            context,
                        ),
                    ),
                })
            },
        },
{
}

/// A row that has all six columns and is no event has the error of the first column that
/// is wrong, in the order identifier, type, time, metadata, payload, labels.
pub proof fn law_the_first_wrong_column_is_named(row: RowView)
    requires
        lookup(row, "event_id"@) is Some,
        lookup(row, "event_type"@) is Some,
        lookup(row, "created_at"@) is Some,
        lookup(row, "metadata"@) is Some,
        lookup(row, "payload"@) is Some,
        lookup(row, "labels"@) is Some,
    ensures
        event_of(row) matches Err(error) ==> {
            if uuid_column(row, "event_id"@) is Err {
                uuid_column(row, "event_id"@) == Err::<u128, ErrorView>(error)
            } else if string_column(row, "event_type"@) is Err {
                string_column(row, "event_type"@) == Err::<Seq<char>, ErrorView>(error)
            } else if timestamptz_column(row, "created_at"@) is Err {
                timestamptz_column(row, "created_at"@) == Err::<(i64, u32), ErrorView>(error)
            } else if json_column(row, "metadata"@) is Err {
                json_column(row, "metadata"@) == Err::<JsonView, ErrorView>(error)
            } else if json_column(row, "payload"@) is Err {
                json_column(row, "payload"@) == Err::<JsonView, ErrorView>(error)
            } else {
                json_column(row, "labels"@) == Err::<JsonView, ErrorView>(error)
            }
        },
{
    law_which_columns_are_missing(row);
    let missing = missing_columns(row);
    if missing.len() > 0 {
        assert(missing.contains(missing[0]));
    }
}

/// A row that lacks a column of an event is no event: the error names the columns that
/// are missing, which are those of the six that the row does not have.
pub proof fn law_which_columns_are_missing(row: RowView)
    ensures
        forall|name: Seq<char>| #[trigger]
            missing_columns(row).contains(name) <==> lookup(row, name) is None && (name
                == "event_id"@ || name == "event_type"@ || name == "created_at"@ || name
                == "metadata"@ || name == "payload"@ || name == "labels"@),
        missing_columns(row).len() > 0 ==> event_of(row) == Err::<EventView, ErrorView>(
            ErrorView::MessageParsing(
                "Missing columns: "@ + names_description(missing_columns(row)) + " (found: "@
                    + names_description(keys_of(row)) + ")"@,
                Some(names_description(keys_of(row))),
            ),
        ),
{
    let required = required_columns();
    let absent = |name: Seq<char>| lookup(row, name) is None;
    let missing = missing_columns(row);
    assert(required[0] == "event_id"@ && required[1] == "event_type"@ && required[2]
        == "created_at"@ && required[3] == "metadata"@ && required[4] == "payload"@ && required[5]
        == "labels"@);
    assert forall|name: Seq<char>| #[trigger]
        missing.contains(name) <==> lookup(row, name) is None && (name == "event_id"@ || name
            == "event_type"@ || name == "created_at"@ || name == "metadata"@ || name
            == "payload"@ || name == "labels"@) by {
        if missing.contains(name) {
            required.lemma_filter_contains_rev(absent, name);
            let j = choose|j: int| 0 <= j < missing.len() && missing[j] == name;
            required.lemma_filter_pred(absent, j);
            let i = choose|i: int| 0 <= i < required.len() && required[i] == name;
            assert(i == 0 || i == 1 || i == 2 || i == 3 || i == 4 || i == 5);
        }
        if lookup(row, name) is None && (name == "event_id"@ || name == "event_type"@ || name
            == "created_at"@ || name == "metadata"@ || name == "payload"@ || name == "labels"@) {
            assert(required.contains(name));
            let i = choose|i: int| 0 <= i < required.len() && required[i] == name;
            required.lemma_filter_contains(absent, i);
        }
    }
}

/// The view of an event leaves nothing out.
pub proof fn law_rows_are_seen_whole(row: EventTableRow)
    ensures
        row@.event_id == row.event_id.bits,
        row@.event_type == row.event_type@,
        row@.created_at == row.created_at@,
        row@.metadata == row.metadata@,
        row@.payload == row.payload@,
        row@.labels == row.labels@,
{
}

} // verus!
