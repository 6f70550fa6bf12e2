use a2a_rs::helpers::{parse_request, parsed_request, serialize_response, serialized_response};
use a2a_rs::{
    A2AError, DecodeError, ErrorKind, InternalError, JsonMember, JsonNumber, JsonValue,
    TaskNotFoundError,
};

const KINDS: [(ErrorKind, i32, &str); 11] = [
    (ErrorKind::JSONParse, -32700, "JSON parse error"),
    (ErrorKind::InvalidRequest, -32600, "Invalid request"),
    (ErrorKind::MethodNotFound, -32601, "Method not found"),
    (ErrorKind::InvalidParams, -32602, "Invalid parameters"),
    (ErrorKind::Internal, -32603, "Internal error"),
    (ErrorKind::TaskNotFound, -32001, "Task not found"),
    (ErrorKind::TaskNotCancelable, -32002, "Task not cancelable"),
    (ErrorKind::PushNotificationNotSupported, -32003, "Push notification not supported"),
    (ErrorKind::UnsupportedOperation, -32004, "Unsupported operation"),
    (ErrorKind::ContentTypeNotSupported, -32005, "Content type not supported"),
    (ErrorKind::InvalidAgentResponse, -32006, "Invalid agent response"),
];

fn object(members: Vec<(&str, JsonValue)>) -> JsonValue {
    JsonValue::Object(
        members
            .into_iter()
            .map(|(name, value)| JsonMember { name: name.to_string(), value })
            .collect(),
    )
}

fn string(text: &str) -> JsonValue {
    JsonValue::String(text.to_string())
}

fn integer(n: i64) -> JsonValue {
    if n < 0 {
        JsonValue::Number(JsonNumber::NegInt(n))
    } else {
        JsonValue::Number(JsonNumber::PosInt(n as u64))
    }
}

#[test]
fn every_kind_has_its_code() {
    for (kind, code, label) in KINDS {
        assert_eq!(kind.code(), code);
        assert_eq!(kind.name(), label);
        assert_eq!(ErrorKind::from_code(code as i64), Some(kind));
    }
    for code in [0, 1, -1, -32000, -32007, -32604, -32699, -32701, 32700, i64::MIN, i64::MAX] {
        assert_eq!(ErrorKind::from_code(code), None);
    }
    for (i, (_, a, _)) in KINDS.iter().enumerate() {
        for (j, (_, b, _)) in KINDS.iter().enumerate() {
            assert_eq!(a == b, i == j);
        }
    }
}

#[test]
fn every_kind_comes_back() {
    let data = object(vec![("detail", string("more")), ("n", integer(3))]);
    for (kind, code, label) in KINDS {
        for data in [None, Some(data.clone()), Some(JsonValue::Bool(false))] {
            let error = A2AError::new(kind, "it failed".to_string(), data.clone());
            assert_eq!(error.kind(), kind);
            assert_eq!(error.code(), code);
            assert_eq!(error.message(), "it failed");
            assert_eq!(error.data(), &data);
            assert_eq!(error.to_string(), format!("{}: it failed", label));

            let encoded = error.encode();
            assert_eq!(encoded.get("code").unwrap().as_i64(), Some(code as i64));
            assert_eq!(encoded.get("message").unwrap().as_str(), Some("it failed"));
            assert_eq!(encoded.get("data"), data.as_ref());
            match &encoded {
                JsonValue::Object(members) => {
                    assert_eq!(members.len(), if data.is_some() { 3 } else { 2 });
                },
                _ => panic!("no object"),
            }

            let decoded = A2AError::decode(&encoded).unwrap();
            assert_eq!(decoded, error);

            let text = serialize_response(&encoded).unwrap();
            let decoded = A2AError::decode(&parse_request(&text).unwrap()).unwrap();
            assert_eq!(decoded, error);
        }
    }
}

#[test]
fn null_data_reads_as_none() {
    let error = A2AError::new(ErrorKind::Internal, "x".to_string(), Some(JsonValue::Null));
    let decoded = A2AError::decode(&error.encode()).unwrap();
    assert_eq!(decoded, A2AError::new(ErrorKind::Internal, "x".to_string(), None));
}

#[test]
fn the_code_alone_decides_the_kind() {
    let error = A2AError::Internal(InternalError {
        code: -32001,
        message: "mislabelled".to_string(),
        data: None,
    });
    assert_eq!(error.kind(), ErrorKind::Internal);
    assert_eq!(error.code(), -32001);
    let decoded = A2AError::decode(&error.encode()).unwrap();
    assert_eq!(
        decoded,
        A2AError::TaskNotFound(TaskNotFoundError {
            code: -32001,
            message: "mislabelled".to_string(),
            data: None,
        })
    );
    let built = A2AError::from_parts(ErrorKind::Internal, 7, "m".to_string(), None);
    assert_eq!(built.code(), 7);
    assert_eq!(A2AError::decode(&built.encode()), Err(DecodeError::UnknownCode(7)));
}

#[test]
fn what_is_no_error_is_refused() {
    let decode = |value: JsonValue| A2AError::decode(&value);
    let message = ("message", string("m"));
    assert_eq!(
        decode(object(vec![("code", integer(-32099)), message.clone()])),
        Err(DecodeError::UnknownCode(-32099))
    );
    assert_eq!(
        decode(object(vec![("code", integer(0))])),
        Err(DecodeError::UnknownCode(0))
    );
    assert_eq!(decode(object(vec![message.clone()])), Err(DecodeError::MissingField));
    assert_eq!(decode(object(vec![])), Err(DecodeError::MissingField));
    assert_eq!(
        decode(object(vec![("code", string("-32700")), message.clone()])),
        Err(DecodeError::MissingField)
    );
    assert_eq!(
        decode(object(vec![
            ("code", JsonValue::Number(JsonNumber::Decimal("-32700.0".to_string()))),
            message.clone()
        ])),
        Err(DecodeError::MissingField)
    );
    assert_eq!(
        decode(object(vec![("code", JsonValue::Number(JsonNumber::PosInt(u64::MAX)))])),
        Err(DecodeError::MissingField)
    );
    assert_eq!(decode(JsonValue::Array(vec![integer(-32700)])), Err(DecodeError::MissingField));
    assert_eq!(decode(JsonValue::Null), Err(DecodeError::MissingField));
    assert_eq!(
        decode(object(vec![("code", integer(-32700))])),
        Err(DecodeError::MissingField)
    );
    assert_eq!(
        decode(object(vec![("code", integer(-32700)), ("message", integer(1))])),
        Err(DecodeError::WrongKind)
    );
    assert_eq!(
        decode(object(vec![("code", integer(-32700)), ("message", JsonValue::Null)])),
        Err(DecodeError::WrongKind)
    );
    // Members that the record does not know are passed over.
    let decoded = decode(object(vec![
        ("extra", JsonValue::Bool(true)),
        ("code", integer(-32602)),
        message,
    ]))
    .unwrap();
    assert_eq!(decoded, A2AError::new(ErrorKind::InvalidParams, "m".to_string(), None));
}

#[test]
fn text_that_is_not_json_is_a_parse_error() {
    for text in ["", "{", "[1,", "{\"a\":}", "nul", "{\"a\":1} x", "'a'"] {
        let error = parse_request(text).unwrap_err();
        assert_eq!(error.kind(), ErrorKind::JSONParse);
        assert_eq!(error.code(), -32700);
        assert!(error.data().is_none());
        assert!(error.message().starts_with("Invalid JSON payload: "));
        assert!(error.message().len() > "Invalid JSON payload: ".len());
    }
    let error = parse_request("{").unwrap_err();
    assert_eq!(
        error.message(),
        "Invalid JSON payload: EOF while parsing an object at line 1 column 1"
    );
    assert_eq!(
        error.to_string(),
        "JSON parse error: Invalid JSON payload: EOF while parsing an object at line 1 column 1"
    );
}

#[test]
fn outcomes_of_reading_and_writing() {
    assert_eq!(parsed_request(Ok(JsonValue::Bool(true))), Ok(JsonValue::Bool(true)));
    assert_eq!(
        parsed_request(Err("expected value".to_string())),
        Err(A2AError::new(
            ErrorKind::JSONParse,
            "Invalid JSON payload: expected value".to_string(),
            None
        ))
    );
    assert_eq!(serialized_response(Ok("{}".to_string())), Ok("{}".to_string()));
    assert_eq!(
        serialized_response(Err("key must be a string".to_string())),
        Err(A2AError::new(
            ErrorKind::Internal,
            "Internal error: key must be a string".to_string(),
            None
        ))
    );
}

#[test]
fn json_text_is_read_and_written() {
    let value = parse_request(
        r#"{"b": [1, -2, 2.5, 18446744073709551615, true, null, "s"], "a": {"x": "y"}, "a": 7}"#,
    )
    .unwrap();
    let expected = object(vec![
        ("a", integer(7)),
        (
            "b",
            JsonValue::Array(vec![
                integer(1),
                integer(-2),
                JsonValue::Number(JsonNumber::Decimal("2.5".to_string())),
                JsonValue::Number(JsonNumber::PosInt(u64::MAX)),
                JsonValue::Bool(true),
                JsonValue::Null,
                string("s"),
            ]),
        ),
    ]);
    assert_eq!(value, expected);
    assert_eq!(
        serialize_response(&value).unwrap(),
        r#"{"a":7,"b":[1,-2,2.5,18446744073709551615,true,null,"s"]}"#
    );
    // Of two members with one name the last is written.
    let twice = object(vec![("k", integer(1)), ("j", string("\"")), ("k", integer(2))]);
    assert_eq!(serialize_response(&twice).unwrap(), r#"{"j":"\"","k":2}"#);
    assert_eq!(serialize_response(&JsonValue::Null).unwrap(), "null");
    assert_eq!(
        serialize_response(&JsonValue::Number(JsonNumber::NegInt(5))).unwrap(),
        "5"
    );
}

#[test]
fn a_decimal_that_is_no_number_cannot_be_written() {
    let value = JsonValue::Array(vec![JsonValue::Number(JsonNumber::Decimal("1.x".to_string()))]);
    let error = serialize_response(&value).unwrap_err();
    assert_eq!(error.kind(), ErrorKind::Internal);
    assert_eq!(error.code(), -32603);
    assert!(error.data().is_none());
    assert!(error.message().starts_with("Internal error: "));
    assert!(error.message().len() > "Internal error: ".len());
}
