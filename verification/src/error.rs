//! Errors of the bridge and the text that describes each of them.

use vstd::prelude::*;
use crate::interop::{any_error_text, http_error_text, json_error_text};
use crate::text::concat_str;

verus! {

/// Errors of the bridge.
#[derive(Debug)]
pub enum BridgeError {
    NatsConnect(String),
    NatsSubscribe(String),
    NatsPublish(String),
    Serialization(serde_json::Error),
    Provider(String),
    Http(reqwest::Error),
    NoActiveProvider,
    ProviderNotFound(String),
    InvalidConfiguration(String),
    Timeout,
    Stream(String),
    Other(anyhow::Error),
}

/// The result type of the bridge.
pub type Result<T> = std::result::Result<T, BridgeError>;

/// The fixed text that starts the description of each kind of error.
pub open spec fn error_prefix(e: BridgeError) -> Seq<char> {
    match e {
        BridgeError::NatsConnect(_) => "NATS connection error: "@,
        BridgeError::NatsSubscribe(_) => "NATS subscribe error: "@,
        BridgeError::NatsPublish(_) => "NATS publish error: "@,
        BridgeError::Serialization(_) => "Serialization error: "@,
        BridgeError::Provider(_) => "Provider error: "@,
        BridgeError::Http(_) => "HTTP error: "@,
        BridgeError::NoActiveProvider => "No active provider"@,
        BridgeError::ProviderNotFound(_) => "Provider not found: "@,
        BridgeError::InvalidConfiguration(_) => "Invalid configuration: "@,
        BridgeError::Timeout => "Timeout waiting for response"@,
        BridgeError::Stream(_) => "Stream error: "@,
        BridgeError::Other(_) => "Other error: "@,
    }
}

/// The text that follows the prefix, where the error carries it as a string of its own
/// (`None` for an error that wraps an outside error value).
pub open spec fn error_detail(e: BridgeError) -> Option<Seq<char>> {
    match e {
        BridgeError::NatsConnect(s) => Some(s@),
        BridgeError::NatsSubscribe(s) => Some(s@),
        BridgeError::NatsPublish(s) => Some(s@),
        BridgeError::Provider(s) => Some(s@),
        BridgeError::ProviderNotFound(s) => Some(s@),
        BridgeError::InvalidConfiguration(s) => Some(s@),
        BridgeError::Stream(s) => Some(s@),
        BridgeError::NoActiveProvider => Some(Seq::empty()),
        BridgeError::Timeout => Some(Seq::empty()),
        _ => None,
    }
}

/// `m` describes `e`: it is the prefix followed by the detail, or, for an error that
/// wraps an outside error value, the prefix followed by that value's own text.
pub open spec fn describes(e: BridgeError, m: Seq<char>) -> bool {
    match error_detail(e) {
        Some(d) => m == error_prefix(e) + d,
        None => m.len() >= error_prefix(e).len() && m.take(error_prefix(e).len() as int)
            == error_prefix(e),
    }
}

impl BridgeError {
    /// The text that describes this error. For an error that wraps a `serde_json`,
    /// `reqwest` or `anyhow` error, the contract states the prefix only: the text that
    /// the wrapped error gives of itself is not described.
    pub fn message(&self) -> (m: String)
        ensures
            describes(*self, m@),
    {
        match self {
            BridgeError::NatsConnect(s) => concat_str("NATS connection error: ", s.as_str()),
            BridgeError::NatsSubscribe(s) => concat_str("NATS subscribe error: ", s.as_str()),
            BridgeError::NatsPublish(s) => concat_str("NATS publish error: ", s.as_str()),
            BridgeError::Serialization(e) => {
                let t = json_error_text(e);
                let m = concat_str("Serialization error: ", t.as_str());
                assert(m@.take(error_prefix(*self).len() as int) =~= error_prefix(*self));
                m
            },
            BridgeError::Provider(s) => concat_str("Provider error: ", s.as_str()),
            BridgeError::Http(e) => {
                let t = http_error_text(e);
                let m = concat_str("HTTP error: ", t.as_str());
                assert(m@.take(error_prefix(*self).len() as int) =~= error_prefix(*self));
                m
            },
            BridgeError::NoActiveProvider => {
                let m = "No active provider".to_string();
                assert(m@ =~= error_prefix(*self) + Seq::<char>::empty());
                m
            },
            BridgeError::ProviderNotFound(s) => concat_str("Provider not found: ", s.as_str()),
            BridgeError::InvalidConfiguration(s) => concat_str(
                "Invalid configuration: ",
                s.as_str(),
            ),
            BridgeError::Timeout => {
                let m = "Timeout waiting for response".to_string();
                assert(m@ =~= error_prefix(*self) + Seq::<char>::empty());
                m
            },
            BridgeError::Stream(s) => concat_str("Stream error: ", s.as_str()),
            BridgeError::Other(e) => {
                let t = any_error_text(e);
                let m = concat_str("Other error: ", t.as_str());
                assert(m@.take(error_prefix(*self).len() as int) =~= error_prefix(*self));
                m
            },
        }
    }
}

} // verus!
