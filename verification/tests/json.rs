use a2a_rs::{JsonMember, JsonNumber, JsonValue};

fn member(name: &str, value: JsonValue) -> JsonMember {
    JsonMember { name: name.to_string(), value }
}

#[test]
fn kinds_and_accessors() {
    let object = JsonValue::Object(vec![
        member("a", JsonValue::Bool(true)),
        member("b", JsonValue::String("text".to_string())),
        member("a", JsonValue::Null),
    ]);
    assert!(object.is_object());
    assert!(!object.is_array());
    assert!(!object.is_string());
    assert!(!object.is_null());
    assert_eq!(object.get("a"), Some(&JsonValue::Null));
    assert_eq!(object.get("b").unwrap().as_str(), Some("text"));
    assert_eq!(object.get("c"), None);
    assert_eq!(object.get(""), None);
    assert_eq!(object.as_str(), None);
    assert_eq!(object.as_i64(), None);

    let array = JsonValue::Array(vec![JsonValue::Null]);
    assert!(array.is_array());
    assert_eq!(array.get("a"), None);
    assert!(JsonValue::Null.is_null());
    assert!(JsonValue::String(String::new()).is_string());
    assert_eq!(JsonValue::String("s".to_string()).get("s"), None);
}

#[test]
fn integers_of_64_bits() {
    let number = |n: JsonNumber| JsonValue::Number(n);
    assert_eq!(number(JsonNumber::PosInt(0)).as_i64(), Some(0));
    assert_eq!(number(JsonNumber::PosInt(i64::MAX as u64)).as_i64(), Some(i64::MAX));
    assert_eq!(number(JsonNumber::PosInt(i64::MAX as u64 + 1)).as_i64(), None);
    assert_eq!(number(JsonNumber::PosInt(u64::MAX)).as_i64(), None);
    assert_eq!(number(JsonNumber::NegInt(-1)).as_i64(), Some(-1));
    assert_eq!(number(JsonNumber::NegInt(i64::MIN)).as_i64(), Some(i64::MIN));
    assert_eq!(number(JsonNumber::Decimal("1.5".to_string())).as_i64(), None);
    assert_eq!(number(JsonNumber::Decimal("1".to_string())).as_i64(), None);
    assert_eq!(JsonValue::Bool(true).as_i64(), None);
}

#[test]
fn copies_are_equal() {
    let value = JsonValue::Object(vec![
        member(
            "list",
            JsonValue::Array(vec![
                JsonValue::Number(JsonNumber::Decimal("0.1".to_string())),
                JsonValue::Number(JsonNumber::NegInt(-3)),
                JsonValue::Object(vec![member("deep", JsonValue::String("x".to_string()))]),
            ]),
        ),
        member("flag", JsonValue::Bool(false)),
    ]);
    let copy = value.clone();
    assert_eq!(copy, value);
    assert_eq!(member("m", value.clone()).clone(), member("m", value));
}
