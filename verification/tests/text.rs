use libbar::error::{BarError, ErrorKind};
use libbar::json::{array_text, find, flag_text, member_text, object_text, quote, value_text, Field, Found, Value};
use libbar::text::{decimal_text, join, signed_decimal_text};

#[test]
fn decimal_of_small_and_large_numbers() {
    assert_eq!(decimal_text(0), "0");
    assert_eq!(decimal_text(7), "7");
    assert_eq!(decimal_text(10), "10");
    assert_eq!(decimal_text(1905), "1905");
    assert_eq!(decimal_text(u64::MAX), "18446744073709551615");
}

#[test]
fn digits_one_by_one() {
    let all: Vec<String> = (0u64..10).map(decimal_text).collect();
    assert_eq!(all, vec!["0", "1", "2", "3", "4", "5", "6", "7", "8", "9"]);
    assert_eq!(decimal_text(1234567890), "1234567890");
}

#[test]
fn signed_decimal_at_the_edges() {
    assert_eq!(signed_decimal_text(0), "0");
    assert_eq!(signed_decimal_text(-1), "-1");
    assert_eq!(signed_decimal_text(42), "42");
    assert_eq!(signed_decimal_text(i32::MAX), "2147483647");
    assert_eq!(signed_decimal_text(i32::MIN), "-2147483648");
}

#[test]
fn join_puts_the_separator_between() {
    let none: Vec<String> = vec![];
    assert_eq!(join(&none, ","), "");
    assert_eq!(join(&vec!["a".to_string()], ","), "a");
    assert_eq!(join(&vec!["a".to_string(), "".to_string(), "c".to_string()], ", "), "a, , c");
}

#[test]
fn quote_escapes_as_json_does() {
    assert_eq!(quote("12:00"), "\"12:00\"");
    assert_eq!(quote(""), "\"\"");
    assert_eq!(quote("a\"b\\c\n\u{1}"), "\"a\\\"b\\\\c\\n\\u0001\"");
    assert_eq!(quote("\u{e9}"), "\"\u{e9}\"");
}

#[test]
fn quote_escapes_each_control_character() {
    assert_eq!(quote("\u{0}"), "\"\\u0000\"");
    assert_eq!(quote("\u{7}"), "\"\\u0007\"");
    assert_eq!(quote("\u{8}"), "\"\\b\"");
    assert_eq!(quote("\t"), "\"\\t\"");
    assert_eq!(quote("\n"), "\"\\n\"");
    assert_eq!(quote("\u{b}"), "\"\\u000b\"");
    assert_eq!(quote("\u{c}"), "\"\\f\"");
    assert_eq!(quote("\r"), "\"\\r\"");
    assert_eq!(quote("\u{e}"), "\"\\u000e\"");
    assert_eq!(quote("\u{1a}"), "\"\\u001a\"");
    assert_eq!(quote("\u{1f}"), "\"\\u001f\"");
    assert_eq!(quote(" "), "\" \"");
    assert_eq!(quote("/"), "\"/\"");
    assert_eq!(quote("\u{7f}"), "\"\u{7f}\"");
    assert_eq!(quote("\u{80}\u{2028}\u{1F600}"), "\"\u{80}\u{2028}\u{1F600}\"");
}

#[test]
fn quote_of_every_low_character_is_as_stated() {
    for code in 0u32..0x80 {
        let c = char::from_u32(code).unwrap();
        let inner = match c {
            '"' => "\\\"".to_string(),
            '\\' => "\\\\".to_string(),
            '\u{8}' => "\\b".to_string(),
            '\u{c}' => "\\f".to_string(),
            '\n' => "\\n".to_string(),
            '\r' => "\\r".to_string(),
            '\t' => "\\t".to_string(),
            c if code < 0x20 => format!("\\u00{}{}", ["0", "1"][(code / 16) as usize], "0123456789abcdef".chars().nth((code % 16) as usize).unwrap()),
            c => c.to_string(),
        };
        assert_eq!(quote(&format!("a{}b", c)), format!("\"a{}b\"", inner));
    }
}

#[test]
fn members_objects_and_arrays() {
    assert_eq!(member_text("urgent", "false"), "\"urgent\":false");
    assert_eq!(object_text(&vec![]), "{}");
    assert_eq!(object_text(&vec!["\"a\":1".to_string(), "\"b\":2".to_string()]), "{\"a\":1,\"b\":2}");
    assert_eq!(array_text(&vec![]), "[]");
    assert_eq!(array_text(&vec!["{}".to_string(), "{}".to_string()]), "[{},{}]");
    assert_eq!(flag_text(true), "true");
    assert_eq!(flag_text(false), "false");
}

#[test]
fn values_have_their_json_text() {
    assert_eq!(value_text(&Value::Null).unwrap(), "null");
    assert_eq!(value_text(&Value::Flag(true)).unwrap(), "true");
    assert_eq!(value_text(&Value::Count(30)).unwrap(), "30");
    assert_eq!(value_text(&Value::Text("x".to_string())).unwrap(), "\"x\"");
}

#[test]
fn other_values_cannot_be_written() {
    let e = value_text(&Value::Other).unwrap_err();
    assert_eq!(e.kind, ErrorKind::SerializationFailure);
}

#[test]
fn find_tells_absent_unique_and_repeated() {
    let fields = vec![
        Field { key: "a".to_string(), value: Value::Count(1) },
        Field { key: "b".to_string(), value: Value::Flag(true) },
        Field { key: "a".to_string(), value: Value::Null },
    ];
    assert!(matches!(find(&fields, "c"), Found::Absent));
    assert!(matches!(find(&fields, "b"), Found::Unique(Value::Flag(true))));
    assert!(matches!(find(&fields, "a"), Found::Repeated));
}

#[test]
fn errors_describe_themselves() {
    assert_eq!(
        BarError::new(ErrorKind::ResourceUnavailable, "no such file").describe(),
        "resource unavailable: no such file"
    );
    assert_eq!(BarError::new(ErrorKind::MalformedData, "x").describe(), "malformed data: x");
    assert_eq!(BarError::new(ErrorKind::SerializationFailure, "").describe(), "serialization failure: ");
    assert_eq!(ErrorKind::MalformedData.label(), "malformed data");
}
