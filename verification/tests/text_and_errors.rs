use cim_bridge::error::BridgeError;
use cim_bridge::providers::default_capabilities;
use cim_bridge::text::{chars_of, concat_str, decimal_string, trim_chars};

#[test]
fn decimal_renders_like_display() {
    assert_eq!(decimal_string(0), "0");
    assert_eq!(decimal_string(7), "7");
    assert_eq!(decimal_string(11434), "11434");
    assert_eq!(decimal_string(u64::MAX), u64::MAX.to_string());
}

#[test]
fn trim_drops_surrounding_whitespace_only() {
    let t: String = trim_chars(&chars_of("  \t{\"a\": 1} \r\n")).into_iter().collect();
    assert_eq!(t, "{\"a\": 1}");
    let t: String = trim_chars(&chars_of(" \n\t ")).into_iter().collect();
    assert_eq!(t, "");
    let t: String = trim_chars(&chars_of("a b")).into_iter().collect();
    assert_eq!(t, "a b");
    let t: String = trim_chars(&chars_of("\u{00a0}x\u{3000}")).into_iter().collect();
    assert_eq!(t, "x");
}

#[test]
fn concat_joins_text() {
    assert_eq!(concat_str("ab", "cd"), "abcd");
}

#[test]
fn default_capabilities_are_query_stream_models() {
    assert_eq!(default_capabilities(), vec!["query", "stream", "models"]);
}

#[test]
fn error_messages_match_each_kind() {
    assert_eq!(BridgeError::NatsConnect("refused".into()).message(), "NATS connection error: refused");
    assert_eq!(BridgeError::NatsSubscribe("x".into()).message(), "NATS subscribe error: x");
    assert_eq!(BridgeError::NatsPublish("y".into()).message(), "NATS publish error: y");
    assert_eq!(BridgeError::Provider("boom".into()).message(), "Provider error: boom");
    assert_eq!(BridgeError::NoActiveProvider.message(), "No active provider");
    assert_eq!(BridgeError::ProviderNotFound("openai".into()).message(), "Provider not found: openai");
    assert_eq!(BridgeError::InvalidConfiguration("bad".into()).message(), "Invalid configuration: bad");
    assert_eq!(BridgeError::Timeout.message(), "Timeout waiting for response");
    assert_eq!(BridgeError::Stream("cut".into()).message(), "Stream error: cut");
    let json_err = serde_json::from_str::<u32>("x").unwrap_err();
    let text = json_err.to_string();
    assert_eq!(BridgeError::Serialization(json_err).message(), format!("Serialization error: {text}"));
    let http = reqwest::Client::new().get("not a url").build().unwrap_err();
    let text = http.to_string();
    assert_eq!(BridgeError::Http(http).message(), format!("HTTP error: {text}"));
    let any = anyhow::Error::msg("whatever");
    assert_eq!(BridgeError::Other(any).message(), "Other error: whatever");
}
