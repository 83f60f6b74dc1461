//! Texts, identifiers, times, JSON values and columns.

use walpipe::column::{describe_names, parse_timestamptz, ColumnValue, EventConversionError};
use walpipe::errors::ReplicationError;
use walpipe::ids::Uuid;
use walpipe::json::JsonValue;
use walpipe::pg_type::PgType;
use walpipe::text::{
    chars_of, decimal_text, find_char, is_blank, is_identifier_text, is_white_space, join_chars,
    join_strings, split_chars, starts_with, string_of, text_eq,
};
use walpipe::text_map::TextMap;
use walpipe::time::{Date, Timestamp};

#[test]
fn white_space_is_that_of_unicode() {
    for code in 0..=0x10ffffu32 {
        if let Some(c) = char::from_u32(code) {
            assert_eq!(is_white_space(c), c.is_whitespace(), "U+{:04X}", code);
        }
    }
}

#[test]
fn blank_texts_have_nothing_left_when_trimmed() {
    for text in ["", " ", "\t\r\n", "\u{a0}\u{3000}", " a ", "x", "\u{200b}"] {
        assert_eq!(is_blank(text), text.trim().is_empty());
    }
}

#[test]
fn identifier_texts_are_letters_digits_and_underscores() {
    for text in ["", "a", "A_9", "a b", "a-b", "é", "zZ09_", "[", "`"] {
        assert_eq!(
            is_identifier_text(text),
            text.chars().all(|c| c.is_ascii_alphanumeric() || c == '_')
        );
    }
}

#[test]
fn texts_are_compared_and_searched() {
    assert!(text_eq("äb", "äb"));
    assert!(!text_eq("ab", "abc"));
    assert!(!text_eq("abc", "abd"));
    assert!(starts_with("http://x", "http://"));
    assert!(!starts_with("http:/", "http://"));
    assert!(starts_with("", ""));
    let chars = chars_of("a?b?");
    assert_eq!(find_char(&chars, '?'), Some(1));
    assert_eq!(find_char(&chars, '!'), None);
    assert_eq!(string_of(&chars), "a?b?");
}

#[test]
fn split_and_join_undo_each_other() {
    for text in ["", "&", "a", "a&b", "&a&", "a&&b", "ü&é"] {
        let pieces = split_chars(&chars_of(text), '&');
        let expected: Vec<&str> = text.split('&').collect();
        assert_eq!(pieces.len(), expected.len());
        for i in 0..pieces.len() {
            assert_eq!(string_of(&pieces[i]), expected[i]);
        }
        assert_eq!(string_of(&join_chars(&pieces, '&')), text);
    }
    let words = vec!["a".to_string(), "b".to_string()];
    assert_eq!(join_strings(&words, ", "), "a, b");
    assert_eq!(join_strings(&vec![], ", "), "");
}

#[test]
fn numbers_are_written_in_decimal() {
    for n in [0, 1, 9, 10, 42, 1_000_000, u32::MAX] {
        assert_eq!(decimal_text(n), n.to_string());
    }
}

#[test]
fn maps_keep_one_value_for_each_key() {
    let mut map: TextMap<u32> = TextMap::new();
    assert_eq!(map.len(), 0);
    map.insert("a".to_string(), 1);
    map.insert("b".to_string(), 2);
    map.insert("a".to_string(), 3);
    assert_eq!(map.len(), 2);
    assert_eq!(map.get("a"), Some(&3));
    assert_eq!(map.get("c"), None);
    assert!(map.contains_key("b"));
    assert_eq!(map.keys(), vec!["a".to_string(), "b".to_string()]);
    map.remove("a");
    assert!(!map.contains_key("a"));
    assert_eq!(map.get("b"), Some(&2));
    map.remove("a");
    assert_eq!(map.len(), 1);
    assert_eq!(map.key_at(0), "b");
    assert_eq!(map.value_at(0), &2);
}

#[test]
fn identifiers_are_read_and_written() {
    let text = "67e55044-10b1-426f-9247-bb680e5fe0c8";
    let id = Uuid::parse(text).unwrap();
    assert_eq!(id.bits, 0x67e5504410b1426f9247bb680e5fe0c8);
    assert_eq!(id.to_text(), text);
    assert_eq!(Uuid::parse("67E5504410B1426F9247BB680E5FE0C8"), Some(id));
    assert_eq!(Uuid::parse("67e55044"), None);
    assert_eq!(Uuid::parse(""), None);
    assert_eq!(Uuid { bits: 0 }.to_text(), "00000000-0000-0000-0000-000000000000");
    assert_eq!(Uuid { bits: u128::MAX }.to_text(), "ffffffff-ffff-ffff-ffff-ffffffffffff");
}

#[test]
fn what_is_written_of_an_identifier_is_read_back() {
    for bits in [0, 1, 0x0123456789abcdeffedcba9876543210, u128::MAX] {
        let id = Uuid { bits };
        assert_eq!(Uuid::parse(&id.to_text()), Some(id));
        assert_eq!(id.to_text(), uuid::Uuid::from_u128(bits).to_string());
    }
}

#[test]
fn times_with_an_offset_are_read_in_utc() {
    let t = Timestamp::parse_with_offset("2024-05-01 12:20:30.5+02").unwrap();
    assert_eq!((t.secs(), t.nanos()), (1714558830, 500_000_000));
    let t = Timestamp::parse_with_offset("1969-12-31 23:59:59.25+00").unwrap();
    assert_eq!((t.secs(), t.nanos()), (-1, 250_000_000));
    assert!(Timestamp::parse_with_offset("2024-05-01 12:20:30").is_err());
    let error = parse_timestamptz("yesterday").unwrap_err();
    assert!(matches!(error, EventConversionError::DateTimeParse(_)));
    assert!(error.describe().starts_with("DateTimeParse(ParseError("));
}

#[test]
fn times_without_a_zone_are_read_and_written() {
    let t = Timestamp::parse_naive("2024-05-01T10:20:30.5").unwrap();
    assert_eq!((t.secs(), t.nanos()), (1714558830, 500_000_000));
    assert_eq!(t.to_naive_text(), "2024-05-01 10:20:30.500");
    assert_eq!(t.to_utc_text(), "2024-05-01 10:20:30.500 UTC");
    assert_eq!(t.to_history_text(), "2024-05-01 10:20:30.500 UTC");
    // the date and the time need a `T` between them
    assert!(Timestamp::parse_naive("2024-05-01 10:20:30").is_none());
}

#[test]
fn days_are_read_and_written() {
    let d = Date::parse("2024-05-01").unwrap();
    assert_eq!(d.to_text(), "2024-05-01");
    assert_eq!(Date::new(1).unwrap().to_text(), "0001-01-01");
    assert_eq!(Date::new(d.days()).unwrap().days(), d.days());
    assert!(Date::parse("2024-02-30").is_none());
    assert!(Date::new(i32::MAX).is_none());
}

#[test]
fn instants_are_within_their_range() {
    for (secs, nanos) in [
        (0, 0),
        (-8334601228800, 0),
        (8210266876799, 999_999_999),
        (59, 1_999_999_999),
        (60, 1_000_000_000),
        (0, 2_000_000_000),
        (-1, 1_500_000_000),
        (8210266876800, 0),
        (-8334601228801, 0),
        (i64::MAX, 0),
    ] {
        assert_eq!(
            Timestamp::new(secs, nanos).is_some(),
            chrono::DateTime::from_timestamp(secs, nanos).is_some(),
            "{} {}",
            secs,
            nanos
        );
        if let Some(t) = Timestamp::new(secs, nanos) {
            assert!(!t.to_naive_text().is_empty());
            assert!(!t.to_history_text().is_empty());
        }
    }
}

#[test]
fn json_is_read_compactly() {
    let value = JsonValue::parse(" { \"b\" : 1 , \"a\" : \"x\", \"c\": [ true ] } ").unwrap();
    assert_eq!(value.text, "{\"a\":\"x\",\"b\":1,\"c\":[true]}");
    assert!(value.is_object());
    assert_eq!(value.get_str("a"), Some("x".to_string()));
    assert_eq!(value.get_str("b"), None);
    assert_eq!(value.get_str("z"), None);
    assert_eq!(value.string_members(), vec![("a".to_string(), "x".to_string())]);
    let copy = value.clone();
    assert_eq!(copy.text, value.text);
    assert_eq!(copy.members, value.members);
}

#[test]
fn json_values_that_are_no_objects_have_no_members() {
    let value = JsonValue::parse("[1, \"id\"]").unwrap();
    assert_eq!(value.text, "[1,\"id\"]");
    assert!(!value.is_object());
    assert_eq!(value.get_str("id"), None);
    assert!(JsonValue::parse("{").is_none());
    assert!(JsonValue::parse("").is_none());
}

#[test]
fn types_have_their_identifiers() {
    let known = [
        16, 17, 18, 19, 20, 21, 22, 23, 25, 26, 27, 28, 29, 30, 114, 142, 5069, 600, 601, 602, 603,
        604, 628, 700, 701, 705, 718, 790, 829, 869, 650, 774, 1033, 1042, 1043, 1082, 1083, 1114,
        1184, 1186, 1266, 1560, 1562, 1700, 1790, 2950, 3614, 3642, 3615, 3802, 4072, 2970, 3904,
        3906, 3908, 3910, 3912, 3926, 4451, 4532, 4533, 4534, 4535,
    ];
    let mut found = 0;
    for oid in 0..6000u32 {
        match PgType::try_from(oid) {
            Ok(pg_type) => {
                assert!(known.contains(&oid));
                assert_eq!(pg_type.oid(), oid);
                found += 1;
            }
            Err(()) => assert!(!known.contains(&oid)),
        }
    }
    assert_eq!(found, known.len());
    assert!(PgType::try_from(u32::MAX).is_err());
}

#[test]
fn columns_are_decoded_by_their_types() {
    assert!(matches!(
        ColumnValue::decode(PgType::Jsonb, "{}"),
        ColumnValue::Json(value) if value.is_object()
    ));
    assert!(matches!(ColumnValue::decode(PgType::Json, "1"), ColumnValue::Json(_)));
    assert!(matches!(
        ColumnValue::decode(PgType::Uuid, "00000000-0000-0000-0000-000000000005"),
        ColumnValue::Uuid(Uuid { bits: 5 })
    ));
    assert!(matches!(ColumnValue::decode(PgType::Date, "2024-05-01"), ColumnValue::Date(_)));
    assert!(matches!(
        ColumnValue::decode(PgType::Timestamp, "2024-05-01T10:20:30"),
        ColumnValue::Timestamp(t) if t.secs() == 1714558830
    ));
    assert!(matches!(
        ColumnValue::decode(PgType::Timestamptz, "2024-05-01 10:20:30+00"),
        ColumnValue::TimestampTZ(t) if t.secs() == 1714558830
    ));
    assert!(matches!(
        ColumnValue::decode(PgType::Int4, "42"),
        ColumnValue::String(text) if text == "42"
    ));
}

#[test]
fn what_cannot_be_decoded_stays_text() {
    for (pg_type, data) in [
        (PgType::Jsonb, "{"),
        (PgType::Uuid, "x"),
        (PgType::Date, "x"),
        (PgType::Timestamp, "2024-05-01 10:20:30"),
        (PgType::Timestamptz, "2024-05-01"),
        (PgType::Text, ""),
    ] {
        match ColumnValue::decode(pg_type, data) {
            ColumnValue::String(text) => assert_eq!(text, data),
            other => panic!("decoded: {:?}", other),
        }
    }
}

#[test]
fn values_are_written_as_text() {
    let t = Timestamp::new(1714558830, 0).unwrap();
    for (value, text) in [
        (ColumnValue::String("a'b".to_string()), "a'b"),
        (ColumnValue::Uuid(Uuid { bits: 5 }), "00000000-0000-0000-0000-000000000005"),
        (ColumnValue::Int(42), "42"),
        (ColumnValue::Bool(true), "true"),
        (ColumnValue::Bool(false), "false"),
        (ColumnValue::Json(JsonValue::parse("[ 1 ]").unwrap()), "[1]"),
        (ColumnValue::Timestamp(t), "2024-05-01 10:20:30"),
        (ColumnValue::Date(Date::parse("2024-05-01").unwrap()), "2024-05-01"),
        (ColumnValue::TimestampTZ(t), "2024-05-01 10:20:30 UTC"),
    ] {
        assert_eq!(value.to_text(), text);
        let by_reference: Result<String, EventConversionError> = (&value).try_into();
        assert_eq!(by_reference.unwrap(), text);
        let by_value: Result<String, EventConversionError> = value.try_into();
        assert_eq!(by_value.unwrap(), text);
    }
}

#[test]
fn values_and_names_are_described() {
    assert_eq!(ColumnValue::String("a\"b\n".to_string()).describe(), "String(\"a\\\"b\\n\")");
    assert_eq!(ColumnValue::Int(1).describe(), "Int(1)");
    assert_eq!(
        describe_names(&vec!["a".to_string(), "b".to_string()]),
        "[\"a\", \"b\"]"
    );
    assert_eq!(describe_names(&vec![]), "[]");
    assert_eq!(EventConversionError::ColumnCountMismatch.describe(), "ColumnCountMismatch");
    assert_eq!(EventConversionError::ColumnTypeMismatch.describe(), "ColumnTypeMismatch");
    assert_eq!(
        EventConversionError::MissingColumn("a".to_string()).describe(),
        "MissingColumn(\"a\")"
    );
    assert_eq!(EventConversionError::UuidParseErr("e".to_string()).describe(), "UuidParseErr(e)");
}

#[test]
fn errors_have_texts() {
    assert_eq!(ReplicationError::config("a").to_text(), "a");
    assert_eq!(ReplicationError::protocol("b").to_text(), "b");
    let error = ReplicationError::MessageParsing {
        message: "c".to_string(),
        context: Some("d".to_string()),
    };
    assert_eq!(error.to_text(), "c");
}

#[test]
fn values_are_described_in_their_own_notation() {
    let t = Timestamp::new(1714558830, 500_000_000).unwrap();
    assert_eq!(t.describe_naive(), "2024-05-01T10:20:30.500");
    assert_eq!(t.describe_utc(), "2024-05-01T10:20:30.500Z");
    assert_eq!(ColumnValue::Timestamp(t).describe(), "Timestamp(2024-05-01T10:20:30.500)");
    assert_eq!(ColumnValue::TimestampTZ(t).describe(), "TimestampTZ(2024-05-01T10:20:30.500Z)");
    assert_eq!(
        ColumnValue::Date(Date::parse("2024-05-01").unwrap()).describe(),
        "Date(2024-05-01)"
    );
    assert_eq!(
        ColumnValue::Uuid(Uuid { bits: 5 }).describe(),
        "Uuid(00000000-0000-0000-0000-000000000005)"
    );
    assert_eq!(ColumnValue::Bool(true).describe(), "Bool(true)");
    for (text, description) in [
        ("{}", "Json(Object {})"),
        ("null", "Json(Null)"),
        ("[ 1, true ]", "Json(Array [Number(1), Bool(true)])"),
        ("{\"a\": \"x\"}", "Json(Object {\"a\": String(\"x\")})"),
    ] {
        let value = JsonValue::parse(text).unwrap();
        assert_eq!(value.clone().debug, value.debug);
        assert_eq!(ColumnValue::Json(value).describe(), description);
    }
}

#[test]
fn descriptions_are_those_of_the_outside_types() {
    for text in ["{\"b\": [1.5, -2], \"a\": {\"c\": \"\\n\"}}", "\"x\"", "1e300", "false"] {
        let value: serde_json::Value = text.parse().unwrap();
        assert_eq!(JsonValue::parse(text).unwrap().debug, format!("{:?}", value));
    }
    for (secs, nanos) in [(0, 0), (-1, 1), (59, 1_500_000_000), (-8334601228800, 7)] {
        let t = Timestamp::new(secs, nanos).unwrap();
        let utc = chrono::DateTime::from_timestamp(secs, nanos).unwrap();
        assert_eq!(t.describe_utc(), format!("{:?}", utc));
        assert_eq!(t.describe_naive(), format!("{:?}", utc.naive_utc()));
    }
}
