//! Core types of the bridge's NATS protocol: commands, queries, events and their payloads.
//!
//! Identifiers are `uuid::Uuid` values carried as they are. A point in time is a
//! [`Timestamp`]; a JSON value is a `serde_json::Value`. Sampling parameters that are
//! floating-point numbers on the wire are held by their IEEE-754 bit patterns.

use std::collections::HashMap;
use uuid::Uuid;
use vstd::prelude::*;

verus! {

/// A point in time: whole seconds since the Unix epoch and the nanoseconds within that second.
#[derive(Debug, Clone, Copy)]
pub struct Timestamp {
    pub secs: i64,
    pub nanos: u32,
}

/// Command envelope for NATS communication.
#[derive(Debug)]
pub struct CommandEnvelope {
    pub id: Uuid,
    pub command: BridgeCommand,
    pub correlation_id: Uuid,
    pub causation_id: Option<Uuid>,
    pub timestamp: Timestamp,
    pub metadata: HashMap<String, serde_json::Value>,
}

/// Bridge commands.
#[derive(Debug)]
pub enum BridgeCommand {
    Query { model: String, messages: Vec<Message>, parameters: ModelParameters },
    StreamQuery { model: String, messages: Vec<Message>, parameters: ModelParameters },
    SwitchProvider { provider: String, config: Option<serde_json::Value> },
    ListProviders,
    ListModels { provider: Option<String> },
    HealthCheck { provider: Option<String> },
}

/// Query envelope for NATS communication.
#[derive(Debug)]
pub struct QueryEnvelope {
    pub id: Uuid,
    pub query: BridgeQuery,
    pub correlation_id: Uuid,
    pub timestamp: Timestamp,
}

/// Bridge queries.
#[derive(Debug)]
pub enum BridgeQuery {
    Status,
    ActiveProvider,
    Metrics { provider: Option<String>, time_range: Option<TimeRange> },
    Capabilities { provider: Option<String> },
}

/// Event envelope for NATS communication.
#[derive(Debug)]
pub struct EventEnvelope {
    pub id: Uuid,
    pub event: BridgeEvent,
    pub correlation_id: Uuid,
    pub causation_id: Option<Uuid>,
    pub timestamp: Timestamp,
    pub metadata: HashMap<String, serde_json::Value>,
}

/// Bridge events.
#[derive(Debug)]
pub enum BridgeEvent {
    QueryStarted { query_id: Uuid, provider: String, model: String },
    QueryCompleted { query_id: Uuid, response: ModelResponse },
    QueryFailed { query_id: Uuid, error: String, provider: String },
    StreamChunk { query_id: Uuid, chunk: StreamChunk, sequence: u32 },
    ProviderSwitched { old_provider: Option<String>, new_provider: String },
    ProviderHealth { provider: String, status: HealthStatus, details: Option<String> },
    MetricsUpdated { provider: String, metrics: ProviderMetrics },
    ProvidersListed { providers: Vec<ProviderInfo> },
    ModelsListed { provider: String, models: Vec<ModelInfo> },
}

/// Message format for AI conversations.
#[derive(Debug)]
pub struct Message {
    pub role: MessageRole,
    pub content: String,
    pub name: Option<String>,
    pub metadata: Option<HashMap<String, serde_json::Value>>,
}

/// Who wrote a message.
#[derive(Debug, Clone, Copy, PartialEq, Eq, Structural)]
pub enum MessageRole {
    System,
    User,
    Assistant,
    Function,
}

/// Model parameters. `temperature_bits`, `top_p_bits`, `frequency_penalty_bits` and
/// `presence_penalty_bits` hold the bit patterns of `f32` values.
#[derive(Debug, Clone)]
pub struct ModelParameters {
    pub temperature_bits: Option<u32>,
    pub max_tokens: Option<u32>,
    pub top_p_bits: Option<u32>,
    pub frequency_penalty_bits: Option<u32>,
    pub presence_penalty_bits: Option<u32>,
    pub stop_sequences: Option<Vec<String>>,
    pub seed: Option<u64>,
}

impl Default for ModelParameters {
    /// No parameter set.
    fn default() -> (p: Self)
        ensures
            p.temperature_bits is None,
            p.max_tokens is None,
            p.top_p_bits is None,
            p.frequency_penalty_bits is None,
            p.presence_penalty_bits is None,
            p.stop_sequences is None,
            p.seed is None,
    {
        ModelParameters {
            temperature_bits: None,
            max_tokens: None,
            top_p_bits: None,
            frequency_penalty_bits: None,
            presence_penalty_bits: None,
            stop_sequences: None,
            seed: None,
        }
    }
}

/// Model response.
#[derive(Debug)]
pub struct ModelResponse {
    pub query_id: Uuid,
    pub model: String,
    pub content: String,
    pub usage: Option<Usage>,
    pub finish_reason: Option<String>,
    pub metadata: HashMap<String, serde_json::Value>,
}

/// Stream chunk for streaming responses.
#[derive(Debug)]
pub struct StreamChunk {
    pub content: String,
    pub is_final: bool,
    pub usage: Option<Usage>,
}

/// Token usage information.
#[derive(Debug, Clone, Copy, PartialEq, Eq, Structural)]
pub struct Usage {
    pub prompt_tokens: u32,
    pub completion_tokens: u32,
    pub total_tokens: u32,
}

/// Health status.
#[derive(Debug)]
pub enum HealthStatus {
    Healthy,
    Degraded(String),
    Unhealthy(String),
}

/// Provider metrics. `total_latency_ms` is the sum of the latencies of all recorded
/// requests; their mean is `total_latency_ms / total_requests`.
#[derive(Debug, Clone, Copy)]
pub struct ProviderMetrics {
    pub total_requests: u64,
    pub successful_requests: u64,
    pub failed_requests: u64,
    pub total_latency_ms: u128,
    pub tokens_processed: u64,
    pub last_request: Option<Timestamp>,
}

/// Time range for queries.
#[derive(Debug, Clone, Copy)]
pub struct TimeRange {
    pub start: Timestamp,
    pub end: Timestamp,
}

/// Provider information.
#[derive(Debug)]
pub struct ProviderInfo {
    pub name: String,
    pub description: String,
    pub is_active: bool,
    pub is_configured: bool,
    pub capabilities: Vec<String>,
}

/// Model information.
#[derive(Debug)]
pub struct ModelInfo {
    pub name: String,
    pub description: Option<String>,
    pub context_length: Option<u32>,
    pub capabilities: Vec<String>,
}

} // verus!
