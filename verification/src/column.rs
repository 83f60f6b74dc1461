//! The values of a row of the event table.

use vstd::prelude::*;

use crate::errors::outcome;
use crate::ids::{parsed_uuid, uuid_chars, Uuid};
use crate::json::{parsed_json, JsonValue, JsonView};
use crate::pg_type::PgType;
use crate::text::{
    debug_string, debug_text, decimal, decimal_text, join, join_strings,
    law_pieces_are_joined_one_by_one, texts,
};
use crate::text_map::TextMap;
use crate::time::{
    date_text, datetime_debug_text, datetime_text, parsed_date, parsed_datetime, parsed_timestamptz, Date, Timestamp,
};

verus! {

/// Why a value could not be converted.
#[derive(Debug)]
pub enum EventConversionError {
    /// A row has more or fewer columns than its relation.
    ColumnCountMismatch,
    /// A text is not a UUID. Holds the description of the error.
    UuidParseErr(String),
    /// A text is not a date and time. Holds the description of the error.
    DateTimeParse(String),
    /// A column has another type than expected.
    ColumnTypeMismatch,
    /// A column is missing. Holds its name.
    MissingColumn(String),
}

/// An [`EventConversionError`] as a mathematical value.
pub enum ConversionErrorView {
    ColumnCountMismatch,
    UuidParseErr(Seq<char>),
    DateTimeParse(Seq<char>),
    ColumnTypeMismatch,
    MissingColumn(Seq<char>),
}

impl View for EventConversionError {
    type V = ConversionErrorView;

    open spec fn view(&self) -> ConversionErrorView {
        match self {
            EventConversionError::ColumnCountMismatch => ConversionErrorView::ColumnCountMismatch,
            EventConversionError::UuidParseErr(e) => ConversionErrorView::UuidParseErr(e@),
            EventConversionError::DateTimeParse(e) => ConversionErrorView::DateTimeParse(e@),
            EventConversionError::ColumnTypeMismatch => ConversionErrorView::ColumnTypeMismatch,
            EventConversionError::MissingColumn(name) => ConversionErrorView::MissingColumn(name@),
        }
    }
}

impl ConversionErrorView {
    /// The error as a diagnostic shows it.
    pub open spec fn description(self) -> Seq<char> {
        match self {
            ConversionErrorView::ColumnCountMismatch => "ColumnCountMismatch"@,
            ConversionErrorView::UuidParseErr(e) => "UuidParseErr("@ + e + ")"@,
            ConversionErrorView::DateTimeParse(e) => "DateTimeParse("@ + e + ")"@,
            ConversionErrorView::ColumnTypeMismatch => "ColumnTypeMismatch"@,
            ConversionErrorView::MissingColumn(name) => "MissingColumn("@ + debug_text(name)
                + ")"@,
        }
    }
}

impl EventConversionError {
    /// The error as a diagnostic shows it.
    pub fn describe(&self) -> (text: String)
        ensures
            text@ == self@.description(),
    {
        match self {
            EventConversionError::ColumnCountMismatch => "ColumnCountMismatch".to_string(),
            EventConversionError::UuidParseErr(e) => "UuidParseErr(".to_string().concat(
                e.as_str(),
            ).concat(")"),
            EventConversionError::DateTimeParse(e) => "DateTimeParse(".to_string().concat(
                e.as_str(),
            ).concat(")"),
            EventConversionError::ColumnTypeMismatch => "ColumnTypeMismatch".to_string(),
            EventConversionError::MissingColumn(name) => "MissingColumn(".to_string().concat(
                debug_string(name.as_str()).as_str(),
            ).concat(")"),
        }
    }
}

/// The value of a column.
#[derive(Debug)]
pub enum ColumnValue {
    String(String),
    Uuid(Uuid),
    Int(u32),
    Bool(bool),
    Json(JsonValue),
    Timestamp(Timestamp),
    Date(Date),
    TimestampTZ(Timestamp),
}

/// A [`ColumnValue`] as a mathematical value.
pub enum ColumnView {
    String(Seq<char>),
    Uuid(u128),
    Int(u32),
    Bool(bool),
    Json(JsonView),
    Timestamp((i64, u32)),
    Date(i32),
    TimestampTZ((i64, u32)),
}

impl View for ColumnValue {
    type V = ColumnView;

    open spec fn view(&self) -> ColumnView {
        match self {
            ColumnValue::String(value) => ColumnView::String(value@),
            ColumnValue::Uuid(value) => ColumnView::Uuid(value.bits),
            ColumnValue::Int(value) => ColumnView::Int(*value),
            ColumnValue::Bool(value) => ColumnView::Bool(*value),
            ColumnValue::Json(value) => ColumnView::Json(value@),
            ColumnValue::Timestamp(value) => ColumnView::Timestamp(value@),
            ColumnValue::Date(value) => ColumnView::Date(value@),
            ColumnValue::TimestampTZ(value) => ColumnView::TimestampTZ(value@),
        }
    }
}

/// `true` or `false`.
pub open spec fn bool_text(value: bool) -> Seq<char> {
    if value {
        "true"@
    } else {
        "false"@
    }
}

impl ColumnView {
    /// The value as text.
    pub open spec fn text(self) -> Seq<char> {
        match self {
            ColumnView::String(value) => value,
            ColumnView::Uuid(value) => uuid_chars(value),
            ColumnView::Int(value) => decimal(value as nat),
            ColumnView::Bool(value) => bool_text(value),
            ColumnView::Json(value) => value.text,
            ColumnView::Timestamp(value) => datetime_text(value.0, value.1),
            ColumnView::Date(value) => date_text(value),
            ColumnView::TimestampTZ(value) => datetime_text(value.0, value.1) + " UTC"@,
        }
    }

    /// The kind of the value.
    pub open spec fn kind(self) -> Seq<char> {
        match self {
            ColumnView::String(_) => "String"@,
            ColumnView::Uuid(_) => "Uuid"@,
            ColumnView::Int(_) => "Int"@,
            ColumnView::Bool(_) => "Bool"@,
            ColumnView::Json(_) => "Json"@,
            ColumnView::Timestamp(_) => "Timestamp"@,
            ColumnView::Date(_) => "Date"@,
            ColumnView::TimestampTZ(_) => "TimestampTZ"@,
        }
    }

    /// The value as a diagnostic shows it: its kind, and in brackets its text,
    /// with quotes and escapes for a string, in the notation of its parts for a
    /// JSON value, and with a `T`, and a `Z` for UTC, for a date and time.
    pub open spec fn description(self) -> Seq<char> {
        let inner = match self {
            ColumnView::String(value) => debug_text(value),
            ColumnView::Json(value) => value.debug,
            ColumnView::Timestamp(value) => datetime_debug_text(value.0, value.1),
            ColumnView::TimestampTZ(value) => datetime_debug_text(value.0, value.1) + "Z"@,
            _ => self.text(),
        };
        self.kind() + "("@ + inner + ")"@
    }
}

/// What the text of a column with the given type stands for: a value of that
/// type where the text can be read as one, and the text itself otherwise.
pub open spec fn decoded_column(pg_type: PgType, data: Seq<char>) -> ColumnView {
    match pg_type {
        PgType::Jsonb | PgType::Json => match parsed_json(data) {
            Some(value) => ColumnView::Json(value),
            None => ColumnView::String(data),
        },
        PgType::Uuid => match parsed_uuid(data) {
            Some(value) => ColumnView::Uuid(value),
            None => ColumnView::String(data),
        },
        PgType::Date => match parsed_date(data) {
            Some(value) => ColumnView::Date(value),
            None => ColumnView::String(data),
        },
        PgType::Timestamp => match parsed_datetime(data) {
            Some(value) => ColumnView::Timestamp(value),
            None => ColumnView::String(data),
        },
        PgType::Timestamptz => match parsed_timestamptz(data) {
            Ok(value) => ColumnView::TimestampTZ(value),
            Err(_) => ColumnView::String(data),
        },
        _ => ColumnView::String(data),
    }
}

/// Reads a date, a time and a zone offset, such as `2024-05-01 10:20:30.5+00`.
pub fn parse_timestamptz(text: &str) -> (timestamp: Result<Timestamp, EventConversionError>)
    ensures
        outcome(timestamp) == timestamptz(text@),
{
    match Timestamp::parse_with_offset(text) {
        Ok(t) => Ok(t),
        Err(e) => Err(EventConversionError::DateTimeParse(e)),
    }
}

/// The instant that a text stands for.
pub open spec fn timestamptz(text: Seq<char>) -> Result<(i64, u32), ConversionErrorView> {
    match parsed_timestamptz(text) {
        Ok(t) => Ok(t),
        Err(e) => Err(ConversionErrorView::DateTimeParse(e)),
    }
}

impl ColumnValue {
    /// The value that was read from a text, or the text itself if none was.
    pub fn or_text(parsed: Option<ColumnValue>, data: &str) -> (value: ColumnValue)
        ensures
            value@ == (match parsed {
                Some(v) => v@,
                None => ColumnView::String(data@),
            }),
    {
        match parsed {
            Some(v) => v,
            None => ColumnValue::String(data.to_string()),
        }
    }

    /// What the text of a column with the given type stands for.
    pub fn decode(pg_type: PgType, data: &str) -> (value: ColumnValue)
        ensures
            value@ == decoded_column(pg_type, data@),
    {
        let parsed = match pg_type {
            PgType::Jsonb | PgType::Json => match JsonValue::parse(data) {
                Some(value) => Some(ColumnValue::Json(value)),
                None => None,
            },
            PgType::Uuid => match Uuid::parse(data) {
                Some(value) => Some(ColumnValue::Uuid(value)),
                None => None,
            },
            PgType::Date => match Date::parse(data) {
                Some(value) => Some(ColumnValue::Date(value)),
                None => None,
            },
            PgType::Timestamp => match Timestamp::parse_naive(data) {
                Some(value) => Some(ColumnValue::Timestamp(value)),
                None => None,
            },
            PgType::Timestamptz => match parse_timestamptz(data) {
                Ok(value) => Some(ColumnValue::TimestampTZ(value)),
                Err(_) => None,
            },
            _ => None,
        };
        ColumnValue::or_text(parsed, data)
    }

    /// The value as text.
    pub fn to_text(&self) -> (text: String)
        ensures
            text@ == self@.text(),
    {
        match self {
            ColumnValue::String(value) => value.clone(),
            ColumnValue::Uuid(value) => value.to_text(),
            ColumnValue::Int(value) => decimal_text(*value),
            ColumnValue::Bool(value) => if *value {
                "true".to_string()
            } else {
                "false".to_string()
            },
            ColumnValue::Json(value) => value.text.clone(),
            ColumnValue::Timestamp(value) => value.to_naive_text(),
            ColumnValue::Date(value) => value.to_text(),
            ColumnValue::TimestampTZ(value) => value.to_utc_text(),
        }
    }

    /// The kind of the value.
    fn kind(&self) -> (kind: String)
        ensures
            kind@ == self@.kind(),
    {
        match self {
            ColumnValue::String(_) => "String".to_string(),
            ColumnValue::Uuid(_) => "Uuid".to_string(),
            ColumnValue::Int(_) => "Int".to_string(),
            ColumnValue::Bool(_) => "Bool".to_string(),
            ColumnValue::Json(_) => "Json".to_string(),
            ColumnValue::Timestamp(_) => "Timestamp".to_string(),
            ColumnValue::Date(_) => "Date".to_string(),
            ColumnValue::TimestampTZ(_) => "TimestampTZ".to_string(),
        }
    }

    /// The value as a diagnostic shows it.
    pub fn describe(&self) -> (text: String)
        ensures
            text@ == self@.description(),
    {
        let inner = match self {
            ColumnValue::String(value) => debug_string(value.as_str()),
            ColumnValue::Json(value) => value.debug.clone(),
            ColumnValue::Timestamp(value) => value.describe_naive(),
            ColumnValue::TimestampTZ(value) => value.describe_utc(),
            _ => self.to_text(),
        };
        self.kind().concat("(").concat(inner.as_str()).concat(")")
    }
}

/// Whether a conversion gave the text of a value.
pub open spec fn written_as(text: Result<String, EventConversionError>, value: ColumnView) -> bool {
    text matches Ok(t) && t@ == value.text()
}

impl TryInto<String> for ColumnValue {
    type Error = EventConversionError;

    /// The value as text. Every value can be written as text.
    fn try_into(self) -> (text: Result<String, EventConversionError>)
        ensures
            written_as(text, self@),
    {
        Ok(self.to_text())
    }
}

impl TryInto<String> for &ColumnValue {
    type Error = EventConversionError;

    /// The value as text. Every value can be written as text.
    fn try_into(self) -> (text: Result<String, EventConversionError>)
        ensures
            written_as(text, self@),
    {
        Ok(self.to_text())
    }
}

impl vstd::std_specs::convert::TryIntoSpecImpl<String> for ColumnValue {
    open spec fn obeys_try_into_spec() -> bool {
        false
    }

    open spec fn try_into_spec(self) -> Result<String, EventConversionError> {
        vstd::pervasive::arbitrary()
    }
}

impl vstd::std_specs::convert::TryIntoSpecImpl<String> for &ColumnValue {
    open spec fn obeys_try_into_spec() -> bool {
        false
    }

    open spec fn try_into_spec(self) -> Result<String, EventConversionError> {
        vstd::pervasive::arbitrary()
    }
}

/// A row of a table: its values by the names of their columns.
#[derive(Debug)]
pub struct ReplicationRow {
    pub column_values: TextMap<ColumnValue>,
}

impl View for ReplicationRow {
    type V = Seq<(Seq<char>, ColumnView)>;

    open spec fn view(&self) -> Seq<(Seq<char>, ColumnView)> {
        self.column_values@
    }
}

/// A row as a diagnostic shows it.
pub open spec fn row_description(row: Seq<(Seq<char>, ColumnView)>) -> Seq<char> {
    "{"@ + join(
        row.map_values(|e: (Seq<char>, ColumnView)| entry_description(e)),
        ", "@,
    ) + "}"@
}

/// An entry of a row as a diagnostic shows it.
pub open spec fn entry_description(entry: (Seq<char>, ColumnView)) -> Seq<char> {
    debug_text(entry.0) + ": "@ + entry.1.description()
}

/// A list of names as a diagnostic shows it.
pub open spec fn names_description(names: Seq<Seq<char>>) -> Seq<char> {
    "["@ + join(names.map_values(|n: Seq<char>| debug_text(n)), ", "@) + "]"@
}

/// A list of names as a diagnostic shows it.
pub fn describe_names(names: &Vec<String>) -> (text: String)
    ensures
        text@ == names_description(texts(names@)),
{
    let mut quoted: Vec<String> = Vec::new();
    let ghost all = texts(names@).map_values(|n: Seq<char>| debug_text(n));
    for i in 0..names.len()
        invariant
            all == texts(names@).map_values(|n: Seq<char>| debug_text(n)),
            texts(quoted@) == all.take(i as int),
    {
        let ghost before = texts(quoted@);
        quoted.push(debug_string(names[i].as_str()));
        assert(texts(quoted@) == before.push(all[i as int]));
        assert(all.take(i + 1) == all.take(i as int).push(all[i as int]));
    }
    assert(all.take(all.len() as int) == all);
    "[".to_string().concat(join_strings(&quoted, ", ").as_str()).concat("]")
}

impl ReplicationRow {
    /// The row as a diagnostic shows it.
    pub fn describe(&self) -> (text: String)
        ensures
            text@ == row_description(self@),
    {
        let mut entries: Vec<String> = Vec::new();
        let ghost all = self@.map_values(|e: (Seq<char>, ColumnView)| entry_description(e));
        let count: usize = self.column_values.len();
        for i in 0..count
            invariant
                count == self@.len(),
                all == self@.map_values(|e: (Seq<char>, ColumnView)| entry_description(e)),
                texts(entries@) == all.take(i as int),
        {
            let ghost before = texts(entries@);
            let name = debug_string(self.column_values.key_at(i).as_str());
            let value = self.column_values.value_at(i).describe();
            entries.push(name.concat(": ").concat(value.as_str()));
            assert(texts(entries@) == before.push(all[i as int]));
            assert(all.take(i + 1) == all.take(i as int).push(all[i as int]));
        }
        assert(all.take(all.len() as int) == all);
        "{".to_string().concat(join_strings(&entries, ", ").as_str()).concat("}")
    }
}

/// The text of a column is read as what its type says, where it can be, and stays text
/// otherwise. Only JSON, UUID, date and time columns are read as anything but text.
pub proof fn law_columns_are_read_by_their_types(pg_type: PgType, data: Seq<char>)
    ensures
        ({
            let read = if pg_type is Json || pg_type is Jsonb {
                match parsed_json(data) {
                    Some(value) => Some(ColumnView::Json(value)),
                    None => None,
                }
            } else if pg_type is Uuid {
                match parsed_uuid(data) {
                    Some(bits) => Some(ColumnView::Uuid(bits)),
                    None => None,
                }
            } else if pg_type is Date {
                match parsed_date(data) {
                    Some(days) => Some(ColumnView::Date(days)),
                    None => None,
                }
            } else if pg_type is Timestamp {
                match parsed_datetime(data) {
                    Some(t) => Some(ColumnView::Timestamp(t)),
                    None => None,
                }
            } else if pg_type is Timestamptz {
                match parsed_timestamptz(data) {
                    Ok(t) => Some(ColumnView::TimestampTZ(t)),
                    Err(_) => None,
                }
            } else {
                None
            };
            decoded_column(pg_type, data) == (match read {
                Some(value) => value,
                None => ColumnView::String(data),
            })
        }),
        timestamptz(data) == (match parsed_timestamptz(data) {
            Ok(t) => Ok::<(i64, u32), ConversionErrorView>(t),
            Err(e) => Err(ConversionErrorView::DateTimeParse(e)),
        }),
{
}

/// Values as text, and as a diagnostic shows them.
pub proof fn law_how_values_are_written(
    text: Seq<char>,
    bits: u128,
    number: u32,
    flag: bool,
    json: JsonView,
    instant: (i64, u32),
    days: i32,
)
    ensures
        ColumnView::String(text).text() == text,
        ColumnView::Uuid(bits).text() == uuid_chars(bits),
        ColumnView::Int(number).text() == decimal(number as nat),
        ColumnView::Bool(flag).text() == (if flag {
            "true"@
        } else {
            "false"@
        }),
        ColumnView::Json(json).text() == json.text,
        ColumnView::Timestamp(instant).text() == datetime_text(instant.0, instant.1),
        ColumnView::Date(days).text() == date_text(days),
        ColumnView::TimestampTZ(instant).text() == datetime_text(instant.0, instant.1) + " UTC"@,
        ColumnView::String(text).description() == "String"@ + "("@ + debug_text(text) + ")"@,
        ColumnView::Uuid(bits).description() == "Uuid"@ + "("@ + uuid_chars(bits) + ")"@,
        ColumnView::Int(number).description() == "Int"@ + "("@ + decimal(number as nat) + ")"@,
        ColumnView::Bool(flag).description() == "Bool"@ + "("@ + (if flag {
            "true"@
        } else {
            "false"@
        }) + ")"@,
        ColumnView::Json(json).description() == "Json"@ + "("@ + json.debug + ")"@,
        ColumnView::Timestamp(instant).description() == "Timestamp"@ + "("@ + datetime_debug_text(
            instant.0,
            instant.1,
        ) + ")"@,
        ColumnView::Date(days).description() == "Date"@ + "("@ + date_text(days) + ")"@,
        ColumnView::TimestampTZ(instant).description() == "TimestampTZ"@ + "("@ + (
        datetime_debug_text(instant.0, instant.1) + "Z"@) + ")"@,
{
}

/// Conversion errors as a diagnostic shows them.
pub proof fn law_how_conversion_errors_are_written(text: Seq<char>)
    ensures
        ConversionErrorView::DateTimeParse(text).description() == "DateTimeParse("@ + text + ")"@,
        ConversionErrorView::UuidParseErr(text).description() == "UuidParseErr("@ + text + ")"@,
        ConversionErrorView::MissingColumn(text).description() == "MissingColumn("@ + debug_text(
            text,
        ) + ")"@,
        ConversionErrorView::ColumnCountMismatch.description() == "ColumnCountMismatch"@,
        ConversionErrorView::ColumnTypeMismatch.description() == "ColumnTypeMismatch"@,
{
}

/// The views of values and of conversion errors leave nothing out.
pub proof fn law_values_are_seen_whole(
    text: String,
    id: Uuid,
    number: u32,
    flag: bool,
    json: JsonValue,
    instant: Timestamp,
    date: Date,
)
    ensures
        ColumnValue::String(text)@ == ColumnView::String(text@),
        ColumnValue::Uuid(id)@ == ColumnView::Uuid(id.bits),
        ColumnValue::Int(number)@ == ColumnView::Int(number),
        ColumnValue::Bool(flag)@ == ColumnView::Bool(flag),
        ColumnValue::Json(json)@ == ColumnView::Json(json@),
        ColumnValue::Timestamp(instant)@ == ColumnView::Timestamp(instant@),
        ColumnValue::Date(date)@ == ColumnView::Date(date@),
        ColumnValue::TimestampTZ(instant)@ == ColumnView::TimestampTZ(instant@),
        EventConversionError::ColumnCountMismatch@ == ConversionErrorView::ColumnCountMismatch,
        EventConversionError::UuidParseErr(text)@ == ConversionErrorView::UuidParseErr(text@),
        EventConversionError::DateTimeParse(text)@ == ConversionErrorView::DateTimeParse(text@),
        EventConversionError::ColumnTypeMismatch@ == ConversionErrorView::ColumnTypeMismatch,
        EventConversionError::MissingColumn(text)@ == ConversionErrorView::MissingColumn(text@),
{
}

/// A row is described entry by entry, and a list of names name by name: with one more, the
/// description has what it had, a comma and a space unless it was empty, and the new one.
pub proof fn law_descriptions_leave_nothing_out(
    row: Seq<(Seq<char>, ColumnView)>,
    name: Seq<char>,
    value: ColumnView,
    names: Seq<Seq<char>>,
)
    ensures
        row_description(Seq::<(Seq<char>, ColumnView)>::empty()) == "{"@ + "}"@,
        row.len() == 0 ==> row_description(row.push((name, value))) == "{"@ + (debug_text(name)
            + ": "@ + value.description()) + "}"@,
        row.len() > 0 ==> exists|before: Seq<char>|
            {
                &&& row_description(row) == "{"@ + before + "}"@
                &&& row_description(row.push((name, value))) == "{"@ + #[trigger] (before + ", "@
                    + (debug_text(name) + ": "@ + value.description())) + "}"@
            },
        names_description(Seq::<Seq<char>>::empty()) == "["@ + "]"@,
        names.len() == 0 ==> names_description(names.push(name)) == "["@ + debug_text(name) + "]"@,
        names.len() > 0 ==> exists|before: Seq<char>|
            {
                &&& names_description(names) == "["@ + before + "]"@
                &&& names_description(names.push(name)) == "["@ + #[trigger] (before + ", "@
                    + debug_text(name)) + "]"@
            },
{
    let entries = row.map_values(|e: (Seq<char>, ColumnView)| entry_description(e));
    let entry = debug_text(name) + ": "@ + value.description();
    assert(row.push((name, value)).map_values(
        |e: (Seq<char>, ColumnView)| entry_description(e),
    ) == entries.push(entry));
    law_pieces_are_joined_one_by_one(entries, entry, ", "@);
    let quoted = names.map_values(|n: Seq<char>| debug_text(n));
    assert(names.push(name).map_values(|n: Seq<char>| debug_text(n)) == quoted.push(
        debug_text(name),
    ));
    law_pieces_are_joined_one_by_one(quoted, debug_text(name), ", "@);
    assert(Seq::<(Seq<char>, ColumnView)>::empty().map_values(
        |e: (Seq<char>, ColumnView)| entry_description(e),
    ) == Seq::<Seq<char>>::empty());
    assert(Seq::<Seq<char>>::empty().map_values(|n: Seq<char>| debug_text(n)) == Seq::<
        Seq<char>,
    >::empty());
    assert("{"@ + Seq::<char>::empty() + "}"@ == "{"@ + "}"@);
    assert("["@ + Seq::<char>::empty() + "]"@ == "["@ + "]"@);
    let before = join(entries, ", "@);
    assert(before + ", "@ + entry == join(entries, ", "@) + ", "@ + entry);
    let listed = join(quoted, ", "@);
    assert(listed + ", "@ + debug_text(name) == join(quoted, ", "@) + ", "@ + debug_text(name));
}

/// Every value is converted to its text.
pub proof fn law_conversions_give_the_text(text: String, error: EventConversionError, value: ColumnView)
    ensures
        written_as(Ok(text), value) <==> text@ == value.text(),
        !written_as(Err(error), value),
{
}

} // verus!
