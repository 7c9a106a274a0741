use std::time::Duration;

use cim_bridge::error::BridgeError;
use cim_bridge::providers::ollama::{
    answer_query, base_url, chat_request, chat_url, failure_error, health_from_probe, model_response,
    models_from_list, ollama_description, ollama_name, ollama_options, ollama_role, tags_url,
    to_ollama_messages, HealthProbe, OllamaChatMessage, OllamaChatResponse, OllamaConfig,
    OllamaFailure, OllamaModel, StreamDecoder, answer_counts_fit,
};
use cim_bridge::types::{HealthStatus, Message, MessageRole, ModelParameters, Usage};

fn message(role: MessageRole, content: &str) -> Message {
    Message { role, content: content.to_string(), name: None, metadata: None }
}

fn answer(content: Option<&str>, done: bool, prompt: Option<u32>, completion: Option<u32>) -> OllamaChatResponse {
    OllamaChatResponse {
        message: content.map(|c| OllamaChatMessage { role: "assistant".to_string(), content: c.to_string() }),
        done,
        total_duration: Some(5_000_000),
        prompt_eval_count: prompt,
        eval_count: completion,
    }
}

#[test]
fn default_config_is_local_ollama() {
    let c = OllamaConfig::default();
    assert_eq!(c.host, "localhost");
    assert_eq!(c.port, 11434);
    assert_eq!(c.timeout, Duration::from_secs(300));
}

#[test]
fn urls_are_built_from_host_and_port() {
    let c = OllamaConfig::default();
    assert_eq!(base_url(&c), "http://localhost:11434");
    assert_eq!(chat_url(&c), "http://localhost:11434/api/chat");
    assert_eq!(tags_url(&c), "http://localhost:11434/api/tags");
    let c2 = OllamaConfig { host: "10.0.0.7".to_string(), port: 80, timeout: Duration::from_secs(1) };
    assert_eq!(base_url(&c2), "http://10.0.0.7:80");
}

#[test]
fn provider_identity() {
    assert_eq!(ollama_name(), "ollama");
    assert_eq!(ollama_description(), "Local Ollama instance for running open-source models");
}

#[test]
fn roles_map_function_to_user() {
    assert_eq!(ollama_role(MessageRole::System), "system");
    assert_eq!(ollama_role(MessageRole::User), "user");
    assert_eq!(ollama_role(MessageRole::Assistant), "assistant");
    assert_eq!(ollama_role(MessageRole::Function), "user");
    let out = to_ollama_messages(&vec![message(MessageRole::System, "be brief"), message(MessageRole::Function, "42")]);
    assert_eq!(out.len(), 2);
    assert_eq!(out[0].role, "system");
    assert_eq!(out[0].content, "be brief");
    assert_eq!(out[1].role, "user");
    assert_eq!(out[1].content, "42");
}

#[test]
fn options_keep_sampling_and_reinterpret_limits() {
    let mut p = ModelParameters::default();
    p.temperature_bits = Some(0.7f32.to_bits());
    p.top_p_bits = Some(0.9f32.to_bits());
    p.seed = Some(u64::MAX);
    p.max_tokens = Some(u32::MAX);
    p.frequency_penalty_bits = Some(1.5f32.to_bits());
    let o = ollama_options(&p);
    assert_eq!(o.temperature_bits.map(f32::from_bits), Some(0.7));
    assert_eq!(o.top_p_bits.map(f32::from_bits), Some(0.9));
    assert_eq!(o.seed, Some(-1));
    assert_eq!(o.num_predict, Some(-1));
    let o2 = ollama_options(&ModelParameters::default());
    assert_eq!(o2.seed, None);
    assert_eq!(o2.num_predict, None);
    let mut p3 = ModelParameters::default();
    p3.seed = Some(42);
    p3.max_tokens = Some(256);
    let o3 = ollama_options(&p3);
    assert_eq!(o3.seed, Some(42));
    assert_eq!(o3.num_predict, Some(256));
}

#[test]
fn chat_request_carries_everything() {
    let r = chat_request("llama3.2".to_string(), &vec![message(MessageRole::User, "hi")], &ModelParameters::default(), true);
    assert_eq!(r.model, "llama3.2");
    assert!(r.stream);
    assert_eq!(r.messages.len(), 1);
    assert_eq!(r.messages[0].role, "user");
    assert!(r.options.is_some());
}

#[test]
fn model_response_reads_answer() {
    let id = uuid::Uuid::new_v4();
    let r = model_response(id, "llama3.2".to_string(), answer(Some("Hello"), true, Some(10), Some(5)));
    assert_eq!(r.query_id, id);
    assert_eq!(r.model, "llama3.2");
    assert_eq!(r.content, "Hello");
    assert_eq!(r.usage, Some(Usage { prompt_tokens: 10, completion_tokens: 5, total_tokens: 15 }));
    assert_eq!(r.finish_reason.as_deref(), Some("stop"));
    assert!(r.metadata.is_empty());
    let r2 = answer_query("m".to_string(), answer(None, true, Some(3), None));
    assert_eq!(r2.content, "");
    assert_eq!(r2.usage, None);
    assert!(answer_counts_fit(&answer(None, true, Some(3), None)));
    assert!(!answer_counts_fit(&answer(None, true, Some(u32::MAX), Some(1))));
}

#[test]
fn model_list_is_described() {
    let infos = models_from_list(&vec![
        OllamaModel { name: "llama3.2:latest".to_string(), parameter_size: Some("3.2B".to_string()) },
        OllamaModel { name: "phi".to_string(), parameter_size: None },
    ]);
    assert_eq!(infos.len(), 2);
    assert_eq!(infos[0].name, "llama3.2:latest");
    assert_eq!(infos[0].description.as_deref(), Some("3.2B"));
    assert_eq!(infos[0].context_length, None);
    assert_eq!(infos[0].capabilities, vec!["chat", "completion"]);
    assert_eq!(infos[1].description, None);
}

#[test]
fn health_follows_probe() {
    assert!(matches!(health_from_probe(HealthProbe::Answered), HealthStatus::Healthy));
    match health_from_probe(HealthProbe::Refused("404 Not Found".to_string())) {
        HealthStatus::Degraded(m) => assert_eq!(m, "Ollama returned status: 404 Not Found"),
        other => panic!("unexpected {other:?}"),
    }
    match health_from_probe(HealthProbe::Unreachable("connection refused".to_string())) {
        HealthStatus::Unhealthy(m) => assert_eq!(m, "Cannot connect to Ollama: connection refused"),
        other => panic!("unexpected {other:?}"),
    }
}

fn provider_text(e: BridgeError) -> String {
    match e {
        BridgeError::Provider(m) => m,
        other => panic!("unexpected {other:?}"),
    }
}

#[test]
fn failures_become_provider_errors() {
    assert_eq!(provider_text(failure_error(OllamaFailure::SendFailed("refused".into()))), "Failed to send request: refused");
    assert_eq!(provider_text(failure_error(OllamaFailure::Rejected(Some("model not found".into())))), "Ollama API error: model not found");
    assert_eq!(provider_text(failure_error(OllamaFailure::Rejected(None))), "Ollama API error: Unknown error");
    assert_eq!(provider_text(failure_error(OllamaFailure::Unreadable("eof".into()))), "Failed to parse response: eof");
    assert_eq!(provider_text(failure_error(OllamaFailure::ListUnreachable("down".into()))), "Failed to list models: down");
    assert_eq!(provider_text(failure_error(OllamaFailure::ListRejected(None))), "Failed to list models: Unknown error");
    assert_eq!(provider_text(failure_error(OllamaFailure::ListUnreadable("bad".into()))), "Failed to parse models: bad");
    match failure_error(OllamaFailure::StreamBroken("reset".into())) {
        BridgeError::Stream(m) => assert_eq!(m, "Stream error: reset"),
        other => panic!("unexpected {other:?}"),
    }
}

#[test]
fn stream_lines_are_reassembled_across_pieces() {
    let mut d = StreamDecoder::new();
    d.push_bytes(b"{\"a\":1}\n\n  ");
    assert_eq!(d.next_line().as_deref(), Some("{\"a\":1}"));
    assert_eq!(d.next_line(), None);
    d.push_bytes(b"{\"b\"");
    assert_eq!(d.next_line(), None);
    d.push_bytes(b":2} \r\n{\"c\":3}\n");
    assert_eq!(d.next_line().as_deref(), Some("{\"b\":2}"));
    assert_eq!(d.next_line().as_deref(), Some("{\"c\":3}"));
    assert_eq!(d.next_line(), None);
}

#[test]
fn stream_invalid_utf8_becomes_replacement() {
    let mut d = StreamDecoder::new();
    d.push_bytes(&[b'x', 0xff, b'\n']);
    assert_eq!(d.next_line().as_deref(), Some("x\u{fffd}"));
}

#[test]
fn stream_chunks_carry_usage_only_at_the_end() {
    let mut d = StreamDecoder::new();
    let a = answer(Some("Hel"), false, Some(12), None);
    assert!(d.can_read(&a));
    let c1 = d.read_answer(a);
    assert_eq!(c1.content, "Hel");
    assert!(!c1.is_final);
    assert_eq!(c1.usage, None);
    let c2 = d.read_answer(answer(Some("lo"), true, None, Some(7)));
    assert_eq!(c2.content, "lo");
    assert!(c2.is_final);
    assert_eq!(c2.usage, Some(Usage { prompt_tokens: 12, completion_tokens: 7, total_tokens: 19 }));
    let mut d2 = StreamDecoder::new();
    let big = answer(None, true, Some(u32::MAX), Some(1));
    assert!(!d2.can_read(&big));
    let fine = answer(None, false, Some(u32::MAX), Some(1));
    assert!(d2.can_read(&fine));
}

#[test]
fn taking_lines_pauses_after_the_last_piece_until_more_bytes() {
    let mut d = StreamDecoder::new();
    d.push_bytes(b"{\"x\":1}\n{\"y\":2}\n");
    assert_eq!(d.next_line().as_deref(), Some("{\"x\":1}"));
    let _ = d.read_answer(answer(Some("end"), true, None, None));
    assert_eq!(d.next_line(), None);
    d.push_bytes(b"");
    assert_eq!(d.next_line().as_deref(), Some("{\"y\":2}"));
    d.pause();
    d.push_bytes(b"z\n");
    assert_eq!(d.next_line().as_deref(), Some("z"));
    d.push_bytes(b"w\n");
    d.pause();
    assert_eq!(d.next_line(), None);
}

#[test]
fn config_clone_keeps_timeout() {
    let c = OllamaConfig::default();
    let d = c.clone();
    assert_eq!(d.timeout, Duration::from_secs(300));
    assert_eq!(d.port, 11434);
}
