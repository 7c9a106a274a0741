//! A bridge that routes AI-provider commands, queries and events over NATS.

pub mod client;
pub mod error;
pub mod interop;
pub mod providers;
pub mod services;
pub mod text;
pub mod types;

pub use error::{BridgeError, Result};
pub use types::{
    BridgeCommand, BridgeEvent, BridgeQuery, CommandEnvelope, EventEnvelope, HealthStatus, Message,
    MessageRole, ModelInfo, ModelParameters, ModelResponse, ProviderInfo, ProviderMetrics,
    QueryEnvelope, StreamChunk, TimeRange, Timestamp, Usage,
};
