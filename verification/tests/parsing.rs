use rls::json::{get, parse_json_text, str_eq, to_model, JsonNum, JsonValue};
use rls::message::{
    parse_raw_message, parse_u64, Notification, ProtocolError, RawId, RawMessage,
};

fn parse_text(text: &str) -> Result<Option<RawMessage>, ProtocolError> {
    match parse_json_text(text) {
        Some(v) => parse_raw_message(to_model(&v)),
        None => Err(ProtocolError::ParseError),
    }
}

#[test]
fn test_parse_as_notification() {
    let raw = RawMessage {
        method: "initialize".to_owned(),
        id: None,
        params: JsonValue::Null,
    };
    let notification = raw.parse_as_notification();

    let expected = Notification::new(JsonValue::Null);

    assert_eq!(notification.params, expected.params);
}

#[test]
fn parse_simple_request() {
    let msg = parse_text(r#"{"jsonrpc":"2.0","id":5,"method":"shutdown"}"#)
        .unwrap()
        .unwrap();
    assert_eq!(msg.method, "shutdown");
    assert_eq!(msg.id, Some(RawId::Num(5)));
    assert_eq!(msg.params, JsonValue::Null);
}

#[test]
fn parse_keeps_object_params() {
    let msg = parse_text(r#"{"method":"textDocument/hover","id":1,"params":{"a":true}}"#)
        .unwrap()
        .unwrap();
    assert_eq!(
        msg.params,
        JsonValue::Object(vec![("a".to_owned(), JsonValue::Bool(true))])
    );
}

#[test]
fn parse_array_params_pass_through() {
    let msg = parse_text(r#"{"method":"m","params":[1,2]}"#).unwrap().unwrap();
    match msg.params {
        JsonValue::Array(items) => assert_eq!(items.len(), 2),
        other => panic!("expected an array, got {:?}", other),
    }
}

#[test]
fn parse_null_and_missing_params_become_null() {
    let with_null = parse_text(r#"{"method":"m","params":null}"#).unwrap().unwrap();
    assert_eq!(with_null.params, JsonValue::Null);
    let without = parse_text(r#"{"method":"m"}"#).unwrap().unwrap();
    assert_eq!(without.params, JsonValue::Null);
}

#[test]
fn parse_rejects_numeric_params() {
    let r = parse_text(r#"{"method":"m","params":5}"#);
    assert_eq!(r, Err(ProtocolError::InvalidRequest));
}

#[test]
fn parse_rejects_non_string_method() {
    let r = parse_text(r#"{"method":5}"#);
    assert_eq!(r, Err(ProtocolError::InvalidRequest));
}

#[test]
fn parse_skips_reply_shaped_messages() {
    let r = parse_text(r#"{"jsonrpc":"2.0","id":3,"result":{}}"#);
    assert_eq!(r, Ok(None));
    let not_an_object = parse_text("17");
    assert_eq!(not_an_object, Ok(None));
}

#[test]
fn parse_rejects_malformed_json() {
    let r = parse_text("not json");
    assert_eq!(r, Err(ProtocolError::ParseError));
}

#[test]
fn string_id_correlates_as_number() {
    let msg = parse_text(r#"{"method":"shutdown","id":"42"}"#).unwrap().unwrap();
    assert_eq!(msg.id, Some(RawId::Str("42".to_owned())));
    let req = msg.parse_as_request().unwrap();
    assert_eq!(req.id, 42);
}

#[test]
fn bad_string_id_is_rejected_before_dispatch() {
    let msg = parse_text(r#"{"method":"shutdown","id":"abc"}"#).unwrap().unwrap();
    let r = msg.parse_as_request();
    assert_eq!(r, Err(ProtocolError::InvalidRequest));
}

#[test]
fn null_id_is_no_id_for_correlation() {
    let msg = parse_text(r#"{"method":"shutdown","id":null}"#).unwrap().unwrap();
    assert_eq!(msg.id, Some(RawId::Null));
    assert_eq!(msg.parse_as_request(), Err(ProtocolError::InvalidRequest));
}

#[test]
fn decimal_reader_matches_from_str_radix() {
    assert_eq!(parse_u64("42"), Some(42));
    assert_eq!(parse_u64("+7"), Some(7));
    assert_eq!(parse_u64("0"), Some(0));
    assert_eq!(parse_u64(""), None);
    assert_eq!(parse_u64("+"), None);
    assert_eq!(parse_u64("-3"), None);
    assert_eq!(parse_u64("4x"), None);
    assert_eq!(parse_u64("18446744073709551615"), Some(u64::MAX));
    assert_eq!(parse_u64("18446744073709551616"), None);
    assert_eq!(parse_u64("42"), "42".parse::<u64>().ok());
    assert_eq!(parse_u64("+99"), u64::from_str_radix("+99", 10).ok());
}

#[test]
fn object_lookup_finds_first_match() {
    let v = JsonValue::Object(vec![
        ("a".to_owned(), JsonValue::Num(JsonNum::Uint(1))),
        ("b".to_owned(), JsonValue::Num(JsonNum::Uint(2))),
    ]);
    assert_eq!(get(&v, "b"), Some(&JsonValue::Num(JsonNum::Uint(2))));
    assert_eq!(get(&v, "c"), None);
    assert_eq!(get(&JsonValue::Null, "a"), None);
}

#[test]
fn model_keeps_numbers_the_core_reads() {
    let v = to_model(&serde_json::from_str("9").unwrap());
    assert_eq!(v, JsonValue::Num(JsonNum::Uint(9)));
    let f = to_model(&serde_json::from_str("1.5").unwrap());
    assert_eq!(f, JsonValue::Num(JsonNum::Other));
    let neg = to_model(&serde_json::from_str("-2").unwrap());
    assert_eq!(neg, JsonValue::Num(JsonNum::Other));
}

#[test]
fn str_eq_compares_contents() {
    assert!(str_eq("abc", "abc"));
    assert!(!str_eq("abc", "abd"));
    assert!(!str_eq("", "a"));
}

#[test]
fn outbound_envelopes_carry_the_wire_shape() {
    let req = parse_text(r#"{"method":"shutdown","id":9}"#)
        .unwrap()
        .unwrap()
        .parse_as_request()
        .unwrap();
    let env = req.to_envelope("shutdown");
    assert_eq!(
        env,
        JsonValue::Object(vec![
            ("jsonrpc".to_owned(), JsonValue::Str("2.0".to_owned())),
            ("id".to_owned(), JsonValue::Num(JsonNum::Uint(9))),
            ("method".to_owned(), JsonValue::Str("shutdown".to_owned())),
            ("params".to_owned(), JsonValue::Null),
        ])
    );
    let note = Notification::new(JsonValue::Bool(true));
    let env2 = note.to_envelope("exit");
    assert_eq!(
        env2,
        JsonValue::Object(vec![
            ("jsonrpc".to_owned(), JsonValue::Str("2.0".to_owned())),
            ("method".to_owned(), JsonValue::Str("exit".to_owned())),
            ("params".to_owned(), JsonValue::Bool(true)),
        ])
    );
}
