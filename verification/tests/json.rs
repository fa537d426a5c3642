use salt_stream::json::decode;
use salt_stream::outcome::{Outcome, StreamError};
use serde_json::{Number, Value};

fn object(members: Vec<(&str, Value)>) -> Value {
    let mut map = serde_json::Map::new();
    for (name, value) in members {
        map.insert(name.to_string(), value);
    }
    Value::Object(map)
}

#[test]
fn decode_reads_an_object() {
    let expected = object(vec![("id", Value::Number(Number::from(1u64)))]);
    assert_eq!(decode("{\"id\":1}"), Some(expected));
}

#[test]
fn decode_reads_nested_values() {
    let inner = Value::Array(vec![
        Value::Bool(true),
        Value::Null,
        Value::String("minion".to_string()),
    ]);
    let expected = object(vec![("data", object(vec![("id", inner)]))]);
    assert_eq!(decode("{\"data\": {\"id\": [true, null, \"minion\"]}}"), Some(expected));
}

#[test]
fn decode_accepts_a_trailing_newline() {
    assert_eq!(decode("\"up\"\n"), Some(Value::String("up".to_string())));
}

#[test]
fn decode_tells_different_bodies_apart() {
    assert_ne!(decode("{\"id\":1}"), decode("{\"id\":2}"));
}

#[test]
fn decode_rejects_an_empty_body() {
    assert_eq!(decode(""), None);
}

#[test]
fn decode_rejects_a_truncated_body() {
    assert_eq!(decode("{\"id\":"), None);
}

#[test]
fn decode_rejects_plain_text() {
    assert_eq!(decode("not json"), None);
}

#[test]
fn outcome_of_a_well_formed_body_is_its_payload() {
    let expected = object(vec![("id", Value::Number(Number::from(7u64)))]);
    assert_eq!(Outcome::of_body("{\"id\":7}"), Outcome::Payload(expected));
}

#[test]
fn outcome_of_a_malformed_body_is_a_decode_failure() {
    assert_eq!(Outcome::of_body("{id:7}"), Outcome::Failure(StreamError::Decode));
}

#[test]
fn every_failure_has_its_message() {
    assert_eq!(StreamError::Auth.message(), "No auth token!");
    assert_eq!(StreamError::Connection.message(), "Connection Failed");
    assert_eq!(StreamError::Decode.message(), "Malformed Event");
    assert_eq!(StreamError::ChannelClosed.message(), "Channel Disconnected");
}
