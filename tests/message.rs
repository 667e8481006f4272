use pulsar_loadgen::message::{MessageError, TestData};

#[test]
fn serializes_as_compact_object() {
    let m = TestData::new(String::from("x"));
    assert_eq!(m.serialize_message(), Ok(String::from("{\"data\":\"x\"}")));
}

#[test]
fn serializes_with_escapes() {
    let m = TestData::new(String::from("a\"b\\c\nd"));
    assert_eq!(
        m.serialize_message(),
        Ok(String::from("{\"data\":\"a\\\"b\\\\c\\nd\"}"))
    );
}

#[test]
fn serializes_empty_data() {
    let m = TestData::new(String::new());
    assert_eq!(m.serialize_message(), Ok(String::from("{\"data\":\"\"}")));
}

#[test]
fn encoding_round_trips_through_json() {
    for data in ["x", "", "quote \" and \\ slash", "t\u{e9}l\u{e9}phone \u{1f600}", "tab\there"] {
        let m = TestData::new(String::from(data));
        let text = m.serialize_message().unwrap();
        let v: serde_json::Value = serde_json::from_str(&text).unwrap();
        let obj = v.as_object().unwrap();
        assert_eq!(obj.len(), 1);
        assert_eq!(obj.get("data").and_then(|d| d.as_str()), Some(data));
    }
}

#[test]
fn serialization_error_is_comparable() {
    assert_eq!(MessageError::Serialization, MessageError::Serialization);
}

#[test]
fn serializes_control_characters_as_unicode_escapes() {
    let m = TestData::new(String::from("\u{1}\u{1f}\u{8}\u{c}\r\t/\u{7f}"));
    assert_eq!(
        m.serialize_message(),
        Ok(String::from("{\"data\":\"\\u0001\\u001f\\b\\f\\r\\t/\u{7f}\"}"))
    );
}

#[test]
fn distinct_data_gives_distinct_wire_forms() {
    let a = TestData::new(String::from("a\\\"")).serialize_message().unwrap();
    let b = TestData::new(String::from("a\\")).serialize_message().unwrap();
    assert_ne!(a, b);
}
