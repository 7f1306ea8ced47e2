use trade_feed::envelope::{classify, Envelope, Kind};
use trade_feed::json::Json;

fn member(name: &str, value: Json) -> (String, Json) {
    (name.to_string(), value)
}

fn string(value: &str) -> Json {
    Json::Str(value.to_string())
}

#[test]
fn classify_knows_every_discriminator() {
    assert_eq!(classify("connection_init"), Kind::ConnectionInit);
    assert_eq!(classify("connection_ack"), Kind::ConnectionAck);
    assert_eq!(classify("connection_error"), Kind::ConnectionError);
    assert_eq!(classify("subscribe"), Kind::Subscribe);
    assert_eq!(classify("next"), Kind::Next);
    assert_eq!(classify("ping"), Kind::Ping);
    assert_eq!(classify("pong"), Kind::Pong);
    assert_eq!(classify("error"), Kind::Error);
    assert_eq!(classify("complete"), Kind::Complete);
}

#[test]
fn classify_takes_anything_else_as_other() {
    assert_eq!(classify("ka"), Kind::Other);
    assert_eq!(classify(""), Kind::Other);
    assert_eq!(classify("Next"), Kind::Other);
    assert_eq!(classify("next "), Kind::Other);
}

#[test]
fn object_with_a_type_is_an_envelope() {
    let payload = Json::Object(vec![member("message", string("bad token"))]);
    let doc = Json::Object(vec![
        member("id", string("1")),
        member("payload", Json::Object(vec![member("message", string("bad token"))])),
        member("type", string("connection_error")),
    ]);
    let envelope = Envelope::from_json(doc).unwrap();
    assert_eq!(envelope.tag, "connection_error");
    assert_eq!(envelope.payload, Some(payload));
    assert_eq!(envelope.kind(), Kind::ConnectionError);
}

#[test]
fn envelope_needs_no_payload() {
    let doc = Json::Object(vec![member("type", string("complete"))]);
    assert_eq!(
        Envelope::from_json(doc),
        Some(Envelope { tag: "complete".to_string(), payload: None })
    );
}

#[test]
fn null_payload_is_no_payload() {
    let doc = Json::Object(vec![member("type", string("next")), member("payload", Json::Null)]);
    assert_eq!(
        Envelope::from_json(doc),
        Some(Envelope { tag: "next".to_string(), payload: None })
    );
}

#[test]
fn first_member_of_a_name_counts() {
    let doc = Json::Object(vec![
        member("type", string("ping")),
        member("payload", Json::Bool(true)),
        member("type", string("pong")),
        member("payload", Json::Bool(false)),
    ]);
    assert_eq!(
        Envelope::from_json(doc),
        Some(Envelope { tag: "ping".to_string(), payload: Some(Json::Bool(true)) })
    );
}

#[test]
fn document_without_a_string_type_is_no_envelope() {
    assert_eq!(Envelope::from_json(Json::Object(vec![])), None);
    assert_eq!(Envelope::from_json(Json::Object(vec![member("payload", Json::Null)])), None);
    assert_eq!(
        Envelope::from_json(Json::Object(vec![member("type", Json::Number(Some(1)))])),
        None
    );
    assert_eq!(Envelope::from_json(Json::Object(vec![member("type", Json::Null)])), None);
    assert_eq!(Envelope::from_json(Json::Null), None);
    assert_eq!(Envelope::from_json(string("ping")), None);
    assert_eq!(Envelope::from_json(Json::Array(vec![string("ping"), Json::Null])), None);
}
