use std::collections::HashMap;

use cim_bridge::error::BridgeError;
use cim_bridge::services::bridge::{event_subject, publication, BridgeState};
use cim_bridge::services::command::{advance, begin, Action, Feedback, ProviderRequest, Stage};
use cim_bridge::types::{
    BridgeCommand, BridgeEvent, BridgeQuery, CommandEnvelope, HealthStatus, Message, MessageRole,
    ModelInfo, ModelParameters, ModelResponse, QueryEnvelope, StreamChunk, Timestamp, Usage,
};
use uuid::Uuid;

fn envelope(command: BridgeCommand) -> CommandEnvelope {
    CommandEnvelope {
        id: Uuid::new_v4(),
        command,
        correlation_id: Uuid::new_v4(),
        causation_id: None,
        timestamp: Timestamp { secs: 1_700_000_000, nanos: 0 },
        metadata: HashMap::new(),
    }
}

fn query(model: &str) -> BridgeCommand {
    BridgeCommand::Query {
        model: model.to_string(),
        messages: vec![Message { role: MessageRole::User, content: "hi".to_string(), name: None, metadata: None }],
        parameters: ModelParameters::default(),
    }
}

fn published(a: Action) -> (String, BridgeEvent, Uuid) {
    match a {
        Action::Publish(p) => {
            assert!(p.envelope.causation_id.is_none());
            assert!(p.envelope.metadata.is_empty());
            (p.subject, p.envelope.event, p.envelope.correlation_id)
        }
        other => panic!("expected a publication, got {other:?}"),
    }
}

fn response(query_id: Uuid) -> ModelResponse {
    ModelResponse {
        query_id,
        model: "llama3.2".to_string(),
        content: "Hello!".to_string(),
        usage: Some(Usage { prompt_tokens: 3, completion_tokens: 2, total_tokens: 5 }),
        finish_reason: Some("stop".to_string()),
        metadata: HashMap::new(),
    }
}

#[test]
fn starts_with_ollama_active() {
    let s = BridgeState::new();
    assert_eq!(s.active_provider.as_deref(), Some("ollama"));
    let infos = s.provider_infos();
    assert_eq!(infos.len(), 1);
    assert_eq!(infos[0].name, "ollama");
    assert_eq!(infos[0].description, "Local Ollama instance for running open-source models");
    assert!(infos[0].is_active);
    assert!(infos[0].is_configured);
    assert_eq!(infos[0].capabilities, vec!["query", "stream", "models"]);
    assert!(s.metrics.is_empty());
}

#[test]
fn switching_to_unknown_provider_fails_and_changes_nothing() {
    let mut s = BridgeState::new();
    match s.switch_provider("openai".to_string()) {
        Err(BridgeError::ProviderNotFound(n)) => assert_eq!(n, "openai"),
        other => panic!("unexpected {other:?}"),
    }
    assert_eq!(s.active_provider.as_deref(), Some("ollama"));
}

#[test]
fn switching_to_registered_provider_reports_old_and_new() {
    let mut s = BridgeState::new();
    match s.switch_provider("ollama".to_string()) {
        Ok(BridgeEvent::ProviderSwitched { old_provider, new_provider }) => {
            assert_eq!(old_provider.as_deref(), Some("ollama"));
            assert_eq!(new_provider, "ollama");
        }
        other => panic!("unexpected {other:?}"),
    }
}

#[test]
fn resolve_prefers_named_provider() {
    let s = BridgeState::new();
    assert_eq!(s.resolve_provider(Some("x".to_string())).unwrap(), "x");
    assert_eq!(s.resolve_provider(None).unwrap(), "ollama");
    let empty = BridgeState { providers: vec![], active_provider: None, metrics: vec![] };
    assert!(matches!(empty.resolve_provider(None), Err(BridgeError::NoActiveProvider)));
    assert!(matches!(empty.active_provider_name(), Err(BridgeError::NoActiveProvider)));
}

#[test]
fn metrics_count_successes_and_failures() {
    let mut s = BridgeState::new();
    let name = "ollama".to_string();
    let t = Timestamp { secs: 10, nanos: 5 };
    let m1 = s.record(&name, true, 100, t);
    assert_eq!(m1.total_requests, 1);
    assert_eq!(m1.successful_requests, 1);
    assert_eq!(m1.failed_requests, 0);
    assert_eq!(m1.total_latency_ms, 100);
    assert_eq!(m1.last_request.map(|t| t.secs), Some(10));
    let m2 = s.record(&name, false, 300, Timestamp { secs: 11, nanos: 0 });
    assert_eq!(m2.total_requests, 2);
    assert_eq!(m2.successful_requests, 1);
    assert_eq!(m2.failed_requests, 1);
    assert_eq!(m2.total_latency_ms, 400);
    assert_eq!(m2.total_latency_ms / m2.total_requests as u128, 200);
    let other = s.record(&"other".to_string(), true, 1, t);
    assert_eq!(other.total_requests, 1);
    assert_eq!(s.metrics.len(), 2);
    assert!(s.can_record(&name));
}

#[test]
fn every_event_kind_has_its_subject() {
    let id = Uuid::new_v4();
    let subjects = vec![
        event_subject(&BridgeEvent::QueryStarted { query_id: id, provider: "p".into(), model: "m".into() }),
        event_subject(&BridgeEvent::QueryCompleted { query_id: id, response: response(id) }),
        event_subject(&BridgeEvent::QueryFailed { query_id: id, error: "e".into(), provider: "p".into() }),
        event_subject(&BridgeEvent::StreamChunk {
            query_id: id,
            chunk: StreamChunk { content: String::new(), is_final: false, usage: None },
            sequence: 0,
        }),
        event_subject(&BridgeEvent::ProviderSwitched { old_provider: None, new_provider: "p".into() }),
        event_subject(&BridgeEvent::ProviderHealth { provider: "p".into(), status: HealthStatus::Healthy, details: None }),
        event_subject(&BridgeEvent::ProvidersListed { providers: vec![] }),
        event_subject(&BridgeEvent::ModelsListed { provider: "p".into(), models: vec![] }),
    ];
    assert_eq!(
        subjects,
        vec![
            "bridge.event.query.started",
            "bridge.event.query.completed",
            "bridge.event.query.failed",
            "bridge.event.stream.chunk",
            "bridge.event.provider.switched",
            "bridge.event.provider.health",
            "bridge.event.providers.listed",
            "bridge.event.models.listed",
        ]
    );
    let mut s = BridgeState::new();
    let m = s.record(&"p".to_string(), true, 1, Timestamp { secs: 0, nanos: 0 });
    assert_eq!(event_subject(&BridgeEvent::MetricsUpdated { provider: "p".into(), metrics: m }), "bridge.event.metrics.updated");
}

#[test]
fn publication_stamps_a_fresh_envelope() {
    let corr = Uuid::new_v4();
    let a = publication(BridgeEvent::ProviderSwitched { old_provider: None, new_provider: "p".into() }, corr);
    let b = publication(BridgeEvent::ProviderSwitched { old_provider: None, new_provider: "p".into() }, corr);
    assert_eq!(a.subject, "bridge.event.provider.switched");
    assert_eq!(a.envelope.correlation_id, corr);
    assert_ne!(a.envelope.id, b.envelope.id);
}

#[test]
fn query_command_runs_to_completion() {
    let mut s = BridgeState::new();
    let env = envelope(query("llama3.2"));
    let (id, corr) = (env.id, env.correlation_id);
    let (mut run, a) = begin(&mut s, env);
    let (subject, event, c) = published(a);
    assert_eq!(subject, "bridge.event.query.started");
    assert_eq!(c, corr);
    match event {
        BridgeEvent::QueryStarted { query_id, provider, model } => {
            assert_eq!(query_id, id);
            assert_eq!(provider, "ollama");
            assert_eq!(model, "llama3.2");
        }
        other => panic!("unexpected {other:?}"),
    }
    let a = advance(&mut s, &mut run, Feedback::Published(Ok(())));
    match a {
        Action::Invoke { provider, request: ProviderRequest::Query { model, messages, .. } } => {
            assert_eq!(provider, "ollama");
            assert_eq!(model, "llama3.2");
            assert_eq!(messages.len(), 1);
        }
        other => panic!("unexpected {other:?}"),
    }
    let a = advance(&mut s, &mut run, Feedback::Answered(Ok(response(id))));
    let (subject, event, c) = published(a);
    assert_eq!(subject, "bridge.event.query.completed");
    assert_eq!(c, corr);
    assert!(matches!(event, BridgeEvent::QueryCompleted { query_id, .. } if query_id == id));
    assert!(run.can_count(&s));
    let a = advance(&mut s, &mut run, Feedback::Published(Ok(())));
    let (subject, event, c) = published(a);
    assert_eq!(subject, "bridge.event.metrics.updated");
    assert_ne!(c, corr);
    match event {
        BridgeEvent::MetricsUpdated { provider, metrics } => {
            assert_eq!(provider, "ollama");
            assert_eq!(metrics.total_requests, 1);
            assert_eq!(metrics.successful_requests, 1);
            assert_eq!(metrics.failed_requests, 0);
        }
        other => panic!("unexpected {other:?}"),
    }
    let a = advance(&mut s, &mut run, Feedback::Published(Ok(())));
    assert!(matches!(a, Action::Finish(Ok(()))));
    assert!(run.is_done());
}

#[test]
fn failed_query_is_reported_and_counted() {
    let mut s = BridgeState::new();
    let env = envelope(query("nope"));
    let id = env.id;
    let (mut run, _) = begin(&mut s, env);
    let _ = advance(&mut s, &mut run, Feedback::Published(Ok(())));
    let a = advance(&mut s, &mut run, Feedback::Answered(Err(BridgeError::Provider("Ollama API error: model not found".into()))));
    let (subject, event, _) = published(a);
    assert_eq!(subject, "bridge.event.query.failed");
    match event {
        BridgeEvent::QueryFailed { query_id, error, provider } => {
            assert_eq!(query_id, id);
            assert_eq!(error, "Provider error: Ollama API error: model not found");
            assert_eq!(provider, "ollama");
        }
        other => panic!("unexpected {other:?}"),
    }
    let a = advance(&mut s, &mut run, Feedback::Published(Ok(())));
    match published(a).1 {
        BridgeEvent::MetricsUpdated { metrics, .. } => {
            assert_eq!(metrics.failed_requests, 1);
            assert_eq!(metrics.successful_requests, 0);
        }
        other => panic!("unexpected {other:?}"),
    }
}

#[test]
fn publish_failure_ends_the_command() {
    let mut s = BridgeState::new();
    let (mut run, _) = begin(&mut s, envelope(query("m")));
    let a = advance(&mut s, &mut run, Feedback::Published(Err(BridgeError::NatsPublish("closed".into()))));
    assert!(matches!(a, Action::Finish(Err(BridgeError::NatsPublish(m))) if m == "closed"));
    assert!(run.is_done());
    assert!(s.metrics.is_empty());
}

#[test]
fn query_without_active_provider_fails() {
    let mut s = BridgeState { providers: vec![], active_provider: None, metrics: vec![] };
    let (run, a) = begin(&mut s, envelope(query("m")));
    assert!(matches!(a, Action::Finish(Err(BridgeError::NoActiveProvider))));
    assert!(run.is_done());
}

#[test]
fn stream_query_hands_over_a_forwarder() {
    let mut s = BridgeState::new();
    let env = envelope(BridgeCommand::StreamQuery {
        model: "llama3.2".into(),
        messages: vec![],
        parameters: ModelParameters::default(),
    });
    let (id, corr) = (env.id, env.correlation_id);
    let (mut run, _) = begin(&mut s, env);
    let a = advance(&mut s, &mut run, Feedback::Published(Ok(())));
    assert!(matches!(a, Action::Invoke { request: ProviderRequest::StreamQuery { .. }, .. }));
    let a = advance(&mut s, &mut run, Feedback::StreamOpened(Ok(())));
    let mut fw = match a {
        Action::Forward(fw) => fw,
        other => panic!("unexpected {other:?}"),
    };
    assert!(run.is_done());
    assert_eq!(fw.query_id, id);
    assert_eq!(fw.correlation_id, corr);
    for (i, text) in ["Hel", "lo"].iter().enumerate() {
        let p = fw.forward(Ok(StreamChunk { content: text.to_string(), is_final: i == 1, usage: None }));
        assert_eq!(p.subject, "bridge.event.stream.chunk");
        match p.envelope.event {
            BridgeEvent::StreamChunk { sequence, chunk, .. } => {
                assert_eq!(sequence, i as u32);
                assert_eq!(chunk.content, *text);
            }
            other => panic!("unexpected {other:?}"),
        }
        assert!(fw.can_number_next());
        fw.published(true);
        assert!(fw.open);
    }
    let p = fw.forward(Err(BridgeError::Stream("Stream error: reset".into())));
    assert_eq!(p.subject, "bridge.event.query.failed");
    match p.envelope.event {
        BridgeEvent::QueryFailed { error, .. } => assert_eq!(error, "Stream error: Stream error: reset"),
        other => panic!("unexpected {other:?}"),
    }
    fw.published(true);
    assert!(!fw.open);
    let m = fw.finish(&mut s);
    assert_eq!(m.total_requests, 1);
    assert_eq!(m.successful_requests, 1);
}

#[test]
fn stream_forwarding_stops_when_a_chunk_is_not_published() {
    let mut s = BridgeState::new();
    let (mut run, _) = begin(&mut s, envelope(BridgeCommand::StreamQuery {
        model: "m".into(),
        messages: vec![],
        parameters: ModelParameters::default(),
    }));
    let _ = advance(&mut s, &mut run, Feedback::Published(Ok(())));
    let mut fw = match advance(&mut s, &mut run, Feedback::StreamOpened(Ok(()))) {
        Action::Forward(fw) => fw,
        other => panic!("unexpected {other:?}"),
    };
    let _ = fw.forward(Ok(StreamChunk { content: "x".into(), is_final: false, usage: None }));
    fw.published(false);
    assert!(!fw.open);
    assert_eq!(fw.sequence, 0);
}

#[test]
fn failed_stream_start_is_reported_and_counted() {
    let mut s = BridgeState::new();
    let (mut run, _) = begin(&mut s, envelope(BridgeCommand::StreamQuery {
        model: "m".into(),
        messages: vec![],
        parameters: ModelParameters::default(),
    }));
    let _ = advance(&mut s, &mut run, Feedback::Published(Ok(())));
    let a = advance(&mut s, &mut run, Feedback::StreamOpened(Err(BridgeError::Provider("down".into()))));
    assert!(matches!(published(a).1, BridgeEvent::QueryFailed { .. }));
    let a = advance(&mut s, &mut run, Feedback::Published(Ok(())));
    assert!(matches!(published(a).1, BridgeEvent::MetricsUpdated { metrics, .. } if metrics.failed_requests == 1));
}

#[test]
fn switch_command_announces_the_switch() {
    let mut s = BridgeState::new();
    let env = envelope(BridgeCommand::SwitchProvider { provider: "ollama".into(), config: None });
    let corr = env.correlation_id;
    let (mut run, a) = begin(&mut s, env);
    let (subject, event, c) = published(a);
    assert_eq!(subject, "bridge.event.provider.switched");
    assert_eq!(c, corr);
    assert!(matches!(event, BridgeEvent::ProviderSwitched { new_provider, .. } if new_provider == "ollama"));
    assert!(matches!(advance(&mut s, &mut run, Feedback::Published(Ok(()))), Action::Finish(Ok(()))));
    let (run2, a2) = begin(&mut s, envelope(BridgeCommand::SwitchProvider { provider: "openai".into(), config: None }));
    assert!(matches!(a2, Action::Finish(Err(BridgeError::ProviderNotFound(n))) if n == "openai"));
    assert!(run2.is_done());
}

#[test]
fn list_providers_command_lists_the_registry() {
    let mut s = BridgeState::new();
    let (_, a) = begin(&mut s, envelope(BridgeCommand::ListProviders));
    match published(a) {
        (subject, BridgeEvent::ProvidersListed { providers }, _) => {
            assert_eq!(subject, "bridge.event.providers.listed");
            assert_eq!(providers.len(), 1);
            assert!(providers[0].is_active);
        }
        other => panic!("unexpected {other:?}"),
    }
}

#[test]
fn list_models_command_asks_the_provider() {
    let mut s = BridgeState::new();
    let (mut run, a) = begin(&mut s, envelope(BridgeCommand::ListModels { provider: None }));
    assert!(matches!(a, Action::Invoke { ref provider, request: ProviderRequest::ListModels } if provider == "ollama"));
    let a = advance(&mut s, &mut run, Feedback::ModelsListed(Ok(vec![ModelInfo {
        name: "phi".into(),
        description: None,
        context_length: None,
        capabilities: vec![],
    }])));
    match published(a) {
        (subject, BridgeEvent::ModelsListed { provider, models }, _) => {
            assert_eq!(subject, "bridge.event.models.listed");
            assert_eq!(provider, "ollama");
            assert_eq!(models.len(), 1);
        }
        other => panic!("unexpected {other:?}"),
    }
    let (mut run, _) = begin(&mut s, envelope(BridgeCommand::ListModels { provider: None }));
    let a = advance(&mut s, &mut run, Feedback::ModelsListed(Err(BridgeError::Provider("x".into()))));
    assert!(matches!(a, Action::Finish(Err(BridgeError::Provider(_)))));
    let (_, a) = begin(&mut s, envelope(BridgeCommand::ListModels { provider: Some("openai".into()) }));
    assert!(matches!(a, Action::Finish(Err(BridgeError::ProviderNotFound(n))) if n == "openai"));
}

#[test]
fn health_command_reports_status_and_details() {
    let mut s = BridgeState::new();
    let (mut run, a) = begin(&mut s, envelope(BridgeCommand::HealthCheck { provider: Some("ollama".into()) }));
    assert!(matches!(a, Action::Invoke { request: ProviderRequest::HealthCheck, .. }));
    assert!(matches!(run.stage, Stage::Awaiting { .. }));
    let a = advance(&mut s, &mut run, Feedback::HealthChecked(Ok(HealthStatus::Healthy)));
    match published(a).1 {
        BridgeEvent::ProviderHealth { provider, status, details } => {
            assert_eq!(provider, "ollama");
            assert!(matches!(status, HealthStatus::Healthy));
            assert_eq!(details.as_deref(), Some("Provider is operational"));
        }
        other => panic!("unexpected {other:?}"),
    }
    let (mut run, _) = begin(&mut s, envelope(BridgeCommand::HealthCheck { provider: None }));
    let a = advance(&mut s, &mut run, Feedback::HealthChecked(Ok(HealthStatus::Degraded("slow".into()))));
    match published(a).1 {
        BridgeEvent::ProviderHealth { details, .. } => assert_eq!(details.as_deref(), Some("slow")),
        other => panic!("unexpected {other:?}"),
    }
    let (mut run, _) = begin(&mut s, envelope(BridgeCommand::HealthCheck { provider: None }));
    let a = advance(&mut s, &mut run, Feedback::HealthChecked(Err(BridgeError::Timeout)));
    match published(a).1 {
        BridgeEvent::ProviderHealth { status: HealthStatus::Unhealthy(m), details, .. } => {
            assert_eq!(m, "Timeout waiting for response");
            assert_eq!(details.as_deref(), Some("Health check error: Timeout waiting for response"));
        }
        other => panic!("unexpected {other:?}"),
    }
}

#[test]
fn feedback_must_fit_the_stage() {
    let mut s = BridgeState::new();
    let (run, _) = begin(&mut s, envelope(query("m")));
    assert!(run.accepts_feedback(&Feedback::Published(Ok(()))));
    assert!(!run.accepts_feedback(&Feedback::Answered(Err(BridgeError::Timeout))));
}

fn query_envelope(query: BridgeQuery) -> QueryEnvelope {
    QueryEnvelope { id: Uuid::new_v4(), query, correlation_id: Uuid::new_v4(), timestamp: Timestamp { secs: 0, nanos: 0 } }
}

#[test]
fn active_provider_query_is_answered_as_json() {
    let mut s = BridgeState::new();
    let r = s.answer_query(query_envelope(BridgeQuery::ActiveProvider), Some("_INBOX.1".to_string())).unwrap();
    assert_eq!(r.subject, "_INBOX.1");
    assert_eq!(r.payload, "{\"active_provider\":\"ollama\"}");
    let v: serde_json::Value = serde_json::from_str(&r.payload).unwrap();
    assert_eq!(v, serde_json::Value::Object(
        [("active_provider".to_string(), serde_json::Value::String("ollama".into()))].into_iter().collect(),
    ));
    assert!(s.answer_query(query_envelope(BridgeQuery::ActiveProvider), None).is_none());
    assert!(s.answer_query(query_envelope(BridgeQuery::Status), Some("r".into())).is_none());
    assert!(s.answer_query(query_envelope(BridgeQuery::Capabilities { provider: None }), Some("r".into())).is_none());
    s.active_provider = None;
    let r = s.answer_query(query_envelope(BridgeQuery::ActiveProvider), Some("r".into())).unwrap();
    assert_eq!(r.payload, "{\"active_provider\":null}");
    s.active_provider = Some("we\"ird".into());
    let r = s.answer_query(query_envelope(BridgeQuery::ActiveProvider), Some("r".into())).unwrap();
    assert_eq!(r.payload, "{\"active_provider\":\"we\\\"ird\"}");
}

#[test]
fn switch_then_ask_reports_the_new_provider() {
    let mut s = BridgeState::new();
    let (mut run, _) = begin(&mut s, envelope(BridgeCommand::SwitchProvider { provider: "ollama".into(), config: None }));
    let _ = advance(&mut s, &mut run, Feedback::Published(Ok(())));
    let r = s.answer_query(query_envelope(BridgeQuery::ActiveProvider), Some("reply".into())).unwrap();
    assert_eq!(r.payload, "{\"active_provider\":\"ollama\"}");
}

#[test]
fn counting_stops_at_the_largest_count() {
    let mut s = BridgeState::new();
    let name = "ollama".to_string();
    let m = s.record(&name, true, 5, Timestamp { secs: 1, nanos: 0 });
    assert_eq!(m.tokens_processed, 0);
    assert!(m.last_request.is_some());
    s.metrics[0].1.total_requests = u64::MAX;
    s.metrics[0].1.successful_requests = u64::MAX;
    assert!(!s.can_record(&name));
    assert!(s.can_record(&"other".to_string()));
}
