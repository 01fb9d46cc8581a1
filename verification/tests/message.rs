use libbar::error::ErrorKind;
use libbar::json::{Field, Value};
use libbar::message::{ModuleOutput, Version};

fn field(key: &str, value: Value) -> Field {
    Field { key: key.to_string(), value }
}

fn text(s: &str) -> Value {
    Value::Text(s.to_string())
}

#[test]
fn new_block_is_empty_and_calm() {
    let b = ModuleOutput::new("clock");
    assert_eq!(b.name, "clock");
    assert_eq!(b.full_text, "");
    assert!(!b.urgent);
    assert_eq!(b.color, None);
}

#[test]
fn builders_set_one_field_each() {
    let b = ModuleOutput::new("load")
        .with_full_text("1.00 2.00".to_string())
        .with_urgent(true)
        .with_color("#FF0000".to_string());
    assert_eq!(b.name, "load");
    assert_eq!(b.full_text, "1.00 2.00");
    assert!(b.urgent);
    assert_eq!(b.color, Some("#FF0000".to_string()));
}

#[test]
fn block_without_color_has_no_color_key() {
    let b = ModuleOutput::new("clock").with_full_text("12:00".to_string());
    assert_eq!(
        b.to_json(),
        "{\"full_text\":\"12:00\",\"name\":\"clock\",\"urgent\":false}"
    );
}

#[test]
fn block_with_color_and_urgent() {
    let b = ModuleOutput::new("load")
        .with_full_text("9.1 8.8".to_string())
        .with_urgent(true)
        .with_color("#FF0000".to_string());
    assert_eq!(
        b.to_json(),
        "{\"full_text\":\"9.1 8.8\",\"name\":\"load\",\"urgent\":true,\"color\":\"#FF0000\"}"
    );
}

#[test]
fn block_text_is_escaped() {
    let b = ModuleOutput::new("n\\m").with_full_text("say \"hi\"\n".to_string());
    assert_eq!(
        b.to_json(),
        "{\"full_text\":\"say \\\"hi\\\"\\n\",\"name\":\"n\\\\m\",\"urgent\":false}"
    );
}

#[test]
fn block_with_empty_color_keeps_the_key() {
    let b = ModuleOutput::new("x").with_color(String::new());
    assert_eq!(b.to_json(), "{\"full_text\":\"\",\"name\":\"x\",\"urgent\":false,\"color\":\"\"}");
}

#[test]
fn block_json_is_what_the_json_reader_reads_back() {
    let b = ModuleOutput::new("clock")
        .with_full_text("tab\there \u{1F600} \u{7}".to_string())
        .with_color("#00FF00".to_string());
    let parsed: serde_json::Value = serde_json::from_str(&b.to_json()).unwrap();
    let object = parsed.as_object().unwrap();
    assert_eq!(object.len(), 4);
    assert_eq!(object["full_text"].as_str(), Some("tab\there \u{1F600} \u{7}"));
    assert_eq!(object["name"].as_str(), Some("clock"));
    assert_eq!(object["urgent"].as_bool(), Some(false));
    assert_eq!(object["color"].as_str(), Some("#00FF00"));
}

#[test]
fn color_key_is_among_the_fields_only_when_set() {
    let plain = ModuleOutput::new("a");
    let keys: Vec<String> = plain.fields().into_iter().map(|f| f.key).collect();
    assert_eq!(keys, vec!["full_text", "name", "urgent"]);
    let colored = ModuleOutput::new("a").with_color("#123456".to_string());
    let keys: Vec<String> = colored.fields().into_iter().map(|f| f.key).collect();
    assert_eq!(keys, vec!["full_text", "name", "urgent", "color"]);
    assert!(!plain.to_json().contains("color"));
    assert!(colored.to_json().contains("\"color\":\"#123456\""));
}

#[test]
fn block_fields_hold_the_values() {
    let b = ModuleOutput::new("load").with_full_text("t".to_string()).with_urgent(true);
    assert_eq!(
        b.fields(),
        vec![field("full_text", text("t")), field("name", text("load")), field("urgent", Value::Flag(true))]
    );
}

#[test]
fn block_round_trip_keeps_the_value_and_the_text() {
    for b in [
        ModuleOutput::new("clock").with_full_text("12:00".to_string()),
        ModuleOutput::new("load")
            .with_full_text("9.1 8.8".to_string())
            .with_urgent(true)
            .with_color("#FF0000".to_string()),
        ModuleOutput::new(""),
    ] {
        let first = b.to_json();
        let read = ModuleOutput::from_fields(&b.fields()).unwrap();
        assert_eq!(read, b);
        assert_eq!(read.to_json(), first);
    }
}

#[test]
fn block_reads_without_color() {
    let fields = vec![
        field("urgent", Value::Flag(false)),
        field("name", text("clock")),
        field("full_text", text("12:00")),
    ];
    let b = ModuleOutput::from_fields(&fields).unwrap();
    assert_eq!(b, ModuleOutput::new("clock").with_full_text("12:00".to_string()));
}

#[test]
fn block_reads_null_color_as_unset() {
    let fields = vec![
        field("full_text", text("")),
        field("name", text("clock")),
        field("urgent", Value::Flag(true)),
        field("color", Value::Null),
    ];
    let b = ModuleOutput::from_fields(&fields).unwrap();
    assert_eq!(b.color, None);
    assert!(b.urgent);
}

#[test]
fn block_passes_over_unknown_fields() {
    let fields = vec![
        field("full_text", text("a")),
        field("markup", text("pango")),
        field("name", text("n")),
        field("min_width", Value::Count(3)),
        field("urgent", Value::Flag(false)),
        field("extra", Value::Other),
    ];
    assert_eq!(ModuleOutput::from_fields(&fields).unwrap(), ModuleOutput::new("n").with_full_text("a".to_string()));
}

#[test]
fn block_without_name_is_malformed() {
    let fields = vec![field("full_text", text("a")), field("urgent", Value::Flag(false))];
    let e = ModuleOutput::from_fields(&fields).unwrap_err();
    assert_eq!(e.kind, ErrorKind::MalformedData);
    assert_eq!(e.message, "missing field `name`");
}

#[test]
fn block_without_full_text_is_malformed() {
    let fields = vec![field("name", text("a")), field("urgent", Value::Flag(false))];
    let e = ModuleOutput::from_fields(&fields).unwrap_err();
    assert_eq!(e.kind, ErrorKind::MalformedData);
    assert_eq!(e.message, "missing field `full_text`");
}

#[test]
fn block_without_urgent_is_malformed() {
    let fields = vec![field("name", text("a")), field("full_text", text("b"))];
    let e = ModuleOutput::from_fields(&fields).unwrap_err();
    assert_eq!(e.kind, ErrorKind::MalformedData);
    assert_eq!(e.message, "missing field `urgent`");
}

#[test]
fn block_with_a_field_twice_is_malformed() {
    let fields = vec![
        field("full_text", text("a")),
        field("name", text("n")),
        field("urgent", Value::Flag(false)),
        field("name", text("n")),
    ];
    let e = ModuleOutput::from_fields(&fields).unwrap_err();
    assert_eq!(e.kind, ErrorKind::MalformedData);
    assert_eq!(e.message, "duplicate field `name`");
}

#[test]
fn block_with_a_wrong_kind_of_value_is_malformed() {
    let fields = vec![
        field("full_text", text("a")),
        field("name", text("n")),
        field("urgent", text("no")),
    ];
    let e = ModuleOutput::from_fields(&fields).unwrap_err();
    assert_eq!(e.kind, ErrorKind::MalformedData);
    assert_eq!(e.message, "invalid type for field `urgent`");
    let fields = vec![
        field("full_text", text("a")),
        field("name", text("n")),
        field("urgent", Value::Flag(true)),
        field("color", Value::Count(255)),
    ];
    let e = ModuleOutput::from_fields(&fields).unwrap_err();
    assert_eq!(e.message, "invalid type for field `color`");
}

#[test]
fn first_problem_in_the_order_of_the_record_is_reported() {
    let fields = vec![field("urgent", Value::Null)];
    let e = ModuleOutput::from_fields(&fields).unwrap_err();
    assert_eq!(e.message, "missing field `full_text`");
}

#[test]
fn header_is_version_one_with_click_events() {
    let v = Version::default();
    assert_eq!(v.version(), 1);
    assert!(v.click_events());
    assert_eq!(v.to_json(), "{\"version\":1,\"click_events\":true}");
}

#[test]
fn header_fields_and_round_trip() {
    let v = Version::default();
    assert_eq!(v.fields(), vec![field("version", Value::Count(1)), field("click_events", Value::Flag(true))]);
    assert_eq!(Version::from_fields(&v.fields()).unwrap(), v);
}

#[test]
fn header_reads_other_versions() {
    let fields = vec![field("click_events", Value::Flag(false)), field("version", Value::Count(4294967295))];
    let v = Version::from_fields(&fields).unwrap();
    assert_eq!(v.version(), 4294967295);
    assert!(!v.click_events());
    assert_eq!(v.to_json(), "{\"version\":4294967295,\"click_events\":false}");
}

#[test]
fn header_with_too_large_a_version_is_malformed() {
    let fields = vec![field("version", Value::Count(4294967296)), field("click_events", Value::Flag(true))];
    let e = Version::from_fields(&fields).unwrap_err();
    assert_eq!(e.kind, ErrorKind::MalformedData);
    assert_eq!(e.message, "invalid type for field `version`");
}

#[test]
fn header_without_click_events_is_malformed() {
    let fields = vec![field("version", Value::Count(1))];
    let e = Version::from_fields(&fields).unwrap_err();
    assert_eq!(e.kind, ErrorKind::MalformedData);
    assert_eq!(e.message, "missing field `click_events`");
}
