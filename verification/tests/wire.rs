use trade_feed::wire::{ClientMessage, OPERATION_NAME, SUBSCRIPTION_ID, SUBSCRIPTION_QUERY};

#[test]
fn connection_init_carries_the_token() {
    let message = ClientMessage::ConnectionInit { token: "secret-token".to_string() };
    assert_eq!(
        message.to_text(),
        "{\"payload\":{\"token\":\"secret-token\"},\"type\":\"connection_init\"}"
    );
}

#[test]
fn connection_init_escapes_the_token() {
    let message = ClientMessage::ConnectionInit { token: "a\"b\\c\nd\u{1}\u{e9}".to_string() };
    assert_eq!(
        message.to_text(),
        "{\"payload\":{\"token\":\"a\\\"b\\\\c\\nd\\u0001\u{e9}\"},\"type\":\"connection_init\"}"
    );
}

#[test]
fn connection_init_reads_back_as_the_token() {
    let token = "t\u{0}\t\"\\/\u{2122}";
    let text = ClientMessage::ConnectionInit { token: token.to_string() }.to_text();
    let value: serde_json::Value = serde_json::from_str(&text).unwrap();
    assert_eq!(value.get("type").and_then(|v| v.as_str()), Some("connection_init"));
    let payload = value.get("payload").unwrap();
    assert_eq!(payload.get("token").and_then(|v| v.as_str()), Some(token));
    assert_eq!(value.as_object().unwrap().len(), 2);
    assert_eq!(payload.as_object().unwrap().len(), 1);
}

#[test]
fn pong_is_a_bare_envelope() {
    assert_eq!(ClientMessage::Pong.to_text(), "{\"type\":\"pong\"}");
}

#[test]
fn subscribe_is_the_fixed_subscription() {
    let text = ClientMessage::Subscribe.to_text();
    let value: serde_json::Value = serde_json::from_str(&text).unwrap();
    let envelope = value.as_object().unwrap();
    assert_eq!(envelope.len(), 3);
    assert_eq!(envelope.get("id").and_then(|v| v.as_str()), Some("1"));
    assert_eq!(envelope.get("type").and_then(|v| v.as_str()), Some("subscribe"));
    let payload = envelope.get("payload").and_then(|v| v.as_object()).unwrap();
    assert_eq!(payload.len(), 4);
    assert_eq!(payload.get("operationName").and_then(|v| v.as_str()), Some("OnCreateTrades"));
    assert_eq!(payload.get("query").and_then(|v| v.as_str()), Some(SUBSCRIPTION_QUERY));
    assert_eq!(payload.get("extensions").and_then(|v| v.as_object()).map(|m| m.len()), Some(0));
    let variables = payload.get("variables").and_then(|v| v.as_object()).unwrap();
    assert_eq!(variables.len(), 1);
    assert!(variables.get("userId").unwrap().is_null());
}

#[test]
fn subscribe_is_written_with_sorted_members() {
    let text = ClientMessage::Subscribe.to_text();
    assert!(text.starts_with(
        "{\"id\":\"1\",\"payload\":{\"extensions\":{},\"operationName\":\"OnCreateTrades\",\"query\":\"subscription OnCreateTrades($userId: ID, "
    ));
    assert!(text.ends_with(
        "  brand\\n  __typename\\n}\",\"variables\":{\"userId\":null}},\"type\":\"subscribe\"}"
    ));
    assert!(!text.contains('\n'));
}

#[test]
fn subscription_constants() {
    assert_eq!(SUBSCRIPTION_ID, "1");
    assert_eq!(OPERATION_NAME, "OnCreateTrades");
    assert!(SUBSCRIPTION_QUERY.starts_with("subscription OnCreateTrades($userId: ID, $marketName: String,"));
    assert!(SUBSCRIPTION_QUERY.contains("\n  createTrades(\n    userId: $userId\n"));
    assert!(SUBSCRIPTION_QUERY.contains("fragment SimpleTrade on Trade {\n  id\n"));
    assert!(SUBSCRIPTION_QUERY.ends_with("  wear\n  brand\n  __typename\n}"));
    assert_eq!(SUBSCRIPTION_QUERY.len(), 2114);
}
