//! The bridge's state: the registered providers, the active one and each provider's
//! metrics; the subjects events go to; and the answers to queries.

use vstd::prelude::*;
use std::collections::HashMap;
use uuid::Uuid;
use crate::error::BridgeError;
use crate::interop::{json_quoted, json_string, new_uuid, utc_now};
use crate::providers::{default_capabilities, default_capability_names};
use crate::providers::ollama::{ollama_description, ollama_description_text, ollama_name, ollama_name_text};
use crate::text::{concat_str, opt_view, views};
use crate::types::{BridgeEvent, BridgeQuery, EventEnvelope, ProviderInfo, ProviderMetrics, QueryEnvelope, Timestamp};

verus! {

/// What the bridge knows of a registered provider.
#[derive(Debug)]
pub struct ProviderEntry {
    pub name: String,
    pub description: String,
    pub is_configured: bool,
    pub capabilities: Vec<String>,
}

/// No two entries share a name.
pub open spec fn names_unique(p: Seq<ProviderEntry>) -> bool {
    forall|i: int, j: int|
        0 <= i < p.len() && 0 <= j < p.len() && i != j ==> #[trigger] p[i].name@
            != #[trigger] p[j].name@
}

/// No two metrics records share a provider name.
pub open spec fn keys_unique(m: Seq<(String, ProviderMetrics)>) -> bool {
    forall|i: int, j: int|
        0 <= i < m.len() && 0 <= j < m.len() && i != j ==> #[trigger] m[i].0@ != #[trigger] m[j].0@
}

/// A metrics record is only kept for a provider that was asked something: it counts at
/// least one request, every request succeeded or failed, the latency total is a sum of
/// that many `u64` latencies, the time of the last request is known, and no tokens are
/// counted.
pub open spec fn metrics_consistent(m: ProviderMetrics) -> bool {
    &&& m.successful_requests + m.failed_requests == m.total_requests
    &&& m.total_requests >= 1
    &&& m.total_latency_ms <= m.total_requests * 0xffff_ffff_ffff_ffffu64
    &&& m.last_request is Some
    &&& m.tokens_processed == 0
}

/// Metrics of a provider that has not been asked anything yet.
pub open spec fn zero_metrics() -> ProviderMetrics {
    ProviderMetrics {
        total_requests: 0,
        successful_requests: 0,
        failed_requests: 0,
        total_latency_ms: 0,
        tokens_processed: 0,
        last_request: None,
    }
}

/// The metrics kept for a provider, or zero ones where none are kept.
pub open spec fn metrics_or_zero(m: Option<ProviderMetrics>) -> ProviderMetrics {
    match m {
        Some(m) => m,
        None => zero_metrics(),
    }
}

/// Metrics after one more request that succeeded or failed, took `latency_ms`, and
/// ended at `now`.
pub open spec fn bumped(m: ProviderMetrics, success: bool, latency_ms: u64, now: Timestamp) -> ProviderMetrics {
    ProviderMetrics {
        total_requests: (m.total_requests + 1) as u64,
        successful_requests: if success {
            (m.successful_requests + 1) as u64
        } else {
            m.successful_requests
        },
        failed_requests: if success {
            m.failed_requests
        } else {
            (m.failed_requests + 1) as u64
        },
        total_latency_ms: (m.total_latency_ms + latency_ms) as u128,
        tokens_processed: m.tokens_processed,
        last_request: Some(now),
    }
}

/// The providers the bridge knows, the active one, and each provider's metrics.
#[derive(Debug)]
pub struct BridgeState {
    pub providers: Vec<ProviderEntry>,
    pub active_provider: Option<String>,
    pub metrics: Vec<(String, ProviderMetrics)>,
}

impl BridgeState {
    /// A provider of this name is registered.
    pub open spec fn is_registered(&self, name: Seq<char>) -> bool {
        exists|i: int| 0 <= i < self.providers@.len() && (#[trigger] self.providers@[i]).name@ == name
    }

    /// The name of the active provider.
    pub open spec fn active(&self) -> Option<Seq<char>> {
        opt_view(self.active_provider)
    }

    /// The metrics kept for the provider of this name.
    pub open spec fn metrics_for(&self, name: Seq<char>) -> Option<ProviderMetrics> {
        if exists|i: int| 0 <= i < self.metrics@.len() && (#[trigger] self.metrics@[i]).0@ == name {
            let i = choose|i: int| 0 <= i < self.metrics@.len() && (#[trigger] self.metrics@[i]).0@ == name;
            Some(self.metrics@[i].1)
        } else {
            None
        }
    }

    /// The state is well formed: provider names are unique, the active provider is
    /// registered, metrics are kept once per provider and their counters agree.
    pub open spec fn wf(&self) -> bool {
        &&& names_unique(self.providers@)
        &&& (self.active() matches Some(a) ==> self.is_registered(a))
        &&& keys_unique(self.metrics@)
        &&& forall|i: int| 0 <= i < self.metrics@.len() ==> metrics_consistent(#[trigger] self.metrics@[i].1)
    }

    /// The bridge is serving: its state is well formed and a provider is active.
    pub open spec fn serving(&self) -> bool {
        self.wf() && self.active_provider is Some
    }

    /// One more request of this provider can be counted without overflow.
    pub open spec fn countable(&self, name: Seq<char>) -> bool {
        self.metrics_for(name) matches Some(m) ==> m.total_requests < u64::MAX
    }

    /// The bridge as it starts: the Ollama provider registered and active, no metrics.
    pub fn new() -> (s: Self)
        ensures
            s.wf(),
            s.serving(),
            s.providers@.len() == 1,
            s.providers@[0].name@ == ollama_name_text(),
            s.providers@[0].description@ == ollama_description_text(),
            s.providers@[0].is_configured,
            views(s.providers@[0].capabilities@) == default_capability_names(),
            s.active() == Some(ollama_name_text()),
            s.metrics@.len() == 0,
    {
        let mut providers: Vec<ProviderEntry> = Vec::new();
        providers.push(
            ProviderEntry {
                name: ollama_name(),
                description: ollama_description(),
                is_configured: true,
                capabilities: default_capabilities(),
            },
        );
        let s = BridgeState {
            providers,
            active_provider: Some(ollama_name()),
            metrics: Vec::new(),
        };
        assert(s.is_registered(ollama_name_text())) by {
            assert(s.providers@[0].name@ == ollama_name_text());
        };
        s
    }

    /// The name of the active provider, or `NoActiveProvider`.
    pub fn active_provider_name(&self) -> (r: Result<String, BridgeError>)
        ensures
            match self.active_provider {
                Some(a) => r == Ok::<String, BridgeError>(a),
                None => r matches Err(BridgeError::NoActiveProvider),
            },
    {
        match &self.active_provider {
            Some(a) => Ok(a.clone()),
            None => Err(BridgeError::NoActiveProvider),
        }
    }

    /// The provider a command names, or the active one where it names none.
    pub fn resolve_provider(&self, requested: Option<String>) -> (r: Result<String, BridgeError>)
        ensures
            match requested {
                Some(n) => r == Ok::<String, BridgeError>(n),
                None => match self.active_provider {
                    Some(a) => r == Ok::<String, BridgeError>(a),
                    None => r matches Err(BridgeError::NoActiveProvider),
                },
            },
    {
        match requested {
            Some(n) => Ok(n),
            None => self.active_provider_name(),
        }
    }

    /// The position of the provider of this name, or `ProviderNotFound` with the name.
    pub fn find_provider(&self, name: &String) -> (r: Result<usize, BridgeError>)
        requires
            self.wf(),
        ensures
            match r {
                Ok(i) => i < self.providers@.len() && self.providers@[i as int].name@ == name@,
                Err(e) => !self.is_registered(name@) && e == BridgeError::ProviderNotFound(*name),
            },
            r is Ok <==> self.is_registered(name@),
    {
        let n = self.providers.len();
        for i in 0..n
            invariant
                n == self.providers@.len(),
                forall|j: int| 0 <= j < i ==> (#[trigger] self.providers@[j]).name@ != name@,
        {
            if self.providers[i].name == *name {
                return Ok(i);
            }
        }
        Err(BridgeError::ProviderNotFound(name.clone()))
    }

    /// Makes the provider of this name the active one, and gives the event that
    /// announces the switch; a name that is not registered leaves the state as it was.
    pub fn switch_provider(&mut self, provider: String) -> (r: Result<BridgeEvent, BridgeError>)
        requires
            old(self).wf(),
        ensures
            final(self).wf(),
            old(self).is_registered(provider@) ==> {
                &&& r == Ok::<BridgeEvent, BridgeError>(
                    BridgeEvent::ProviderSwitched {
                        old_provider: old(self).active_provider,
                        new_provider: provider,
                    },
                )
                &&& final(self).active_provider == Some(provider)
                &&& final(self).providers == old(self).providers
                &&& final(self).metrics == old(self).metrics
            },
            !old(self).is_registered(provider@) ==> {
                &&& r == Err::<BridgeEvent, BridgeError>(BridgeError::ProviderNotFound(provider))
                &&& *final(self) == *old(self)
            },
    {
        match self.find_provider(&provider) {
            Err(e) => Err(e),
            Ok(_) => {
                let old_provider = self.active_provider.take();
                self.active_provider = Some(provider.clone());
                Ok(BridgeEvent::ProviderSwitched { old_provider, new_provider: provider })
            },
        }
    }
}

/// A copy of a list of strings.
pub fn clone_strings(v: &Vec<String>) -> (r: Vec<String>)
    ensures
        r@ == v@,
{
    let mut r: Vec<String> = Vec::new();
    for i in 0..v.len()
        invariant
            r@ == v@.take(i as int),
    {
        r.push(v[i].clone());
        assert(r@ =~= v@.take(i + 1));
    }
    assert(v@.take(v.len() as int) =~= v@);
    r
}

/// `infos` describes the registered providers, in registry order, marking the active one.
pub open spec fn lists_providers(s: BridgeState, infos: Seq<ProviderInfo>) -> bool {
    &&& infos.len() == s.providers@.len()
    &&& forall|i: int|
        0 <= i < infos.len() ==> {
            let e = s.providers@[i];
            &&& (#[trigger] infos[i]).name == e.name
            &&& infos[i].description == e.description
            &&& infos[i].is_active == (s.active() == Some(e.name@))
            &&& infos[i].is_configured == e.is_configured
            &&& infos[i].capabilities@ == e.capabilities@
        }
}

impl BridgeState {
    /// What the bridge reports of each registered provider.
    pub fn provider_infos(&self) -> (infos: Vec<ProviderInfo>)
        ensures
            lists_providers(*self, infos@),
    {
        let mut infos: Vec<ProviderInfo> = Vec::new();
        for i in 0..self.providers.len()
            invariant
                infos@.len() == i,
                i <= self.providers@.len(),
                forall|j: int|
                    0 <= j < i ==> {
                        let e = self.providers@[j];
                        &&& (#[trigger] infos@[j]).name == e.name
                        &&& infos@[j].description == e.description
                        &&& infos@[j].is_active == (self.active() == Some(e.name@))
                        &&& infos@[j].is_configured == e.is_configured
                        &&& infos@[j].capabilities@ == e.capabilities@
                    },
        {
            let e = &self.providers[i];
            let is_active = match &self.active_provider {
                Some(a) => *a == e.name,
                None => false,
            };
            infos.push(
                ProviderInfo {
                    name: e.name.clone(),
                    description: e.description.clone(),
                    is_active,
                    is_configured: e.is_configured,
                    capabilities: clone_strings(&e.capabilities),
                },
            );
        }
        infos
    }

    /// Whether another request can be counted for this provider without overflow.
    pub fn can_record(&self, provider: &String) -> (b: bool)
        requires
            self.wf(),
        ensures
            b == self.countable(provider@),
    {
        match self.find_metrics(provider) {
            Some(i) => {
                proof {
                    self.lemma_metrics_at(i as int);
                }
                self.metrics[i].1.total_requests < u64::MAX
            },
            None => true,
        }
    }


    proof fn lemma_metrics_at(&self, i: int)
        requires
            keys_unique(self.metrics@),
            0 <= i < self.metrics@.len(),
        ensures
            self.metrics_for(self.metrics@[i].0@) == Some(self.metrics@[i].1),
    {
        let name = self.metrics@[i].0@;
        assert(self.metrics@[i].0@ == name);
        let j = choose|j: int| 0 <= j < self.metrics@.len() && (#[trigger] self.metrics@[j]).0@ == name;
        assert(j == i);
    }

    fn find_metrics(&self, provider: &String) -> (r: Option<usize>)
        requires
            self.wf(),
        ensures
            match r {
                Some(i) => i < self.metrics@.len() && self.metrics@[i as int].0@ == provider@,
                None => self.metrics_for(provider@) is None,
            },
    {
        for i in 0..self.metrics.len()
            invariant
                forall|j: int| 0 <= j < i ==> (#[trigger] self.metrics@[j]).0@ != provider@,
        {
            if self.metrics[i].0 == *provider {
                return Some(i);
            }
        }
        None
    }

    /// Counts one more request of a provider: whether it succeeded, how long it took and
    /// when it ended. Gives the provider's metrics afterwards.
    pub fn record(&mut self, provider: &String, success: bool, latency_ms: u64, now: Timestamp) -> (m:
        ProviderMetrics)
        requires
            old(self).wf(),
            old(self).countable(provider@),
        ensures
            final(self).wf(),
            m == bumped(metrics_or_zero(old(self).metrics_for(provider@)), success, latency_ms, now),
            old(self).metrics_for(provider@) matches Some(o) ==> {
                &&& m.total_requests == o.total_requests + 1
                &&& m.successful_requests == o.successful_requests + if success { 1int } else { 0int }
                &&& m.failed_requests == o.failed_requests + if success { 0int } else { 1int }
                &&& m.total_latency_ms == o.total_latency_ms + latency_ms
            },
            old(self).metrics_for(provider@) is None ==> {
                &&& m.total_requests == 1
                &&& m.successful_requests == if success { 1int } else { 0int }
                &&& m.failed_requests == if success { 0int } else { 1int }
                &&& m.total_latency_ms == latency_ms
            },
            m.last_request == Some(now),
            final(self).metrics_for(provider@) == Some(m),
            forall|n: Seq<char>| n != provider@ ==> final(self).metrics_for(n) == old(self).metrics_for(n),
            final(self).providers == old(self).providers,
            final(self).active_provider == old(self).active_provider,
    {
        let ghost before = *self;
        match self.find_metrics(provider) {
            Some(i) => {
                proof {
                    self.lemma_metrics_at(i as int);
                }
                let old_m = self.metrics[i].1;
                let m = ProviderMetrics {
                    total_requests: old_m.total_requests + 1,
                    successful_requests: if success {
                        old_m.successful_requests + 1
                    } else {
                        old_m.successful_requests
                    },
                    failed_requests: if success {
                        old_m.failed_requests
                    } else {
                        old_m.failed_requests + 1
                    },
                    total_latency_ms: old_m.total_latency_ms + latency_ms as u128,
                    tokens_processed: old_m.tokens_processed,
                    last_request: Some(now),
                };
                let key = self.metrics[i].0.clone();
                self.metrics.set(i, (key, m));
                proof {
                    assert(keys_unique(self.metrics@));
                    assert(metrics_consistent(before.metrics@[i as int].1));
                    assert forall|j: int| 0 <= j < self.metrics@.len() implies metrics_consistent(
                        #[trigger] self.metrics@[j].1,
                    ) by {
                        if j != i {
                            assert(self.metrics@[j] == before.metrics@[j]);
                        }
                    }
                    lemma_active_registered_kept(before, *self);
                    self.lemma_metrics_at(i as int);
                    assert forall|n: Seq<char>| n != provider@ implies self.metrics_for(n)
                        == before.metrics_for(n) by {
                        if exists|j: int| 0 <= j < before.metrics@.len() && (#[trigger] before.metrics@[j]).0@ == n {
                            let j = choose|j: int| 0 <= j < before.metrics@.len() && (#[trigger] before.metrics@[j]).0@ == n;
                            before.lemma_metrics_at(j);
                            self.lemma_metrics_at(j);
                        } else {
                            assert forall|j: int| 0 <= j < self.metrics@.len() implies (#[trigger] self.metrics@[j]).0@ != n by {
                                if j != i {
                                    assert(self.metrics@[j] == before.metrics@[j]);
                                }
                            }
                        }
                    }
                }
                m
            },
            None => {
                let m = ProviderMetrics {
                    total_requests: 1,
                    successful_requests: if success { 1 } else { 0 },
                    failed_requests: if success { 0 } else { 1 },
                    total_latency_ms: latency_ms as u128,
                    tokens_processed: 0,
                    last_request: Some(now),
                };
                self.metrics.push((provider.clone(), m));
                proof {
                    let k = self.metrics@.len() - 1;
                    assert(keys_unique(self.metrics@)) by {
                        assert forall|j: int| 0 <= j < k implies (#[trigger] self.metrics@[j]).0@ != provider@ by {
                            assert(self.metrics@[j] == before.metrics@[j]);
                        }
                    }
                    assert forall|j: int| 0 <= j < self.metrics@.len() implies metrics_consistent(
                        #[trigger] self.metrics@[j].1,
                    ) by {
                        if j < k {
                            assert(self.metrics@[j] == before.metrics@[j]);
                        }
                    }
                    lemma_active_registered_kept(before, *self);
                    self.lemma_metrics_at(k);
                    assert forall|n: Seq<char>| n != provider@ implies self.metrics_for(n)
                        == before.metrics_for(n) by {
                        if exists|j: int| 0 <= j < before.metrics@.len() && (#[trigger] before.metrics@[j]).0@ == n {
                            let j = choose|j: int| 0 <= j < before.metrics@.len() && (#[trigger] before.metrics@[j]).0@ == n;
                            before.lemma_metrics_at(j);
                            assert(self.metrics@[j] == before.metrics@[j]);
                            self.lemma_metrics_at(j);
                        } else {
                            assert forall|j: int| 0 <= j < self.metrics@.len() implies (#[trigger] self.metrics@[j]).0@ != n by {
                                if j < k {
                                    assert(self.metrics@[j] == before.metrics@[j]);
                                }
                            }
                        }
                    }
                }
                m
            },
        }
    }
}

/// With the registry and the active provider unchanged, the active provider stays registered.
proof fn lemma_active_registered_kept(s0: BridgeState, s1: BridgeState)
    requires
        s0.wf(),
        s1.providers@ == s0.providers@,
        s1.active_provider == s0.active_provider,
    ensures
        s1.active() matches Some(a) ==> s1.is_registered(a),
{
    if s1.active() is Some {
        let a = s1.active().unwrap();
        let w = choose|w: int| 0 <= w < s0.providers@.len() && (#[trigger] s0.providers@[w]).name@ == a;
        assert(s1.providers@[w].name@ == a);
    }
}

/// The subject on which an event is published.
pub open spec fn subject_of(e: BridgeEvent) -> Seq<char> {
    match e {
        BridgeEvent::QueryStarted { .. } => "bridge.event.query.started"@,
        BridgeEvent::QueryCompleted { .. } => "bridge.event.query.completed"@,
        BridgeEvent::QueryFailed { .. } => "bridge.event.query.failed"@,
        BridgeEvent::StreamChunk { .. } => "bridge.event.stream.chunk"@,
        BridgeEvent::ProviderSwitched { .. } => "bridge.event.provider.switched"@,
        BridgeEvent::ProviderHealth { .. } => "bridge.event.provider.health"@,
        BridgeEvent::MetricsUpdated { .. } => "bridge.event.metrics.updated"@,
        BridgeEvent::ProvidersListed { .. } => "bridge.event.providers.listed"@,
        BridgeEvent::ModelsListed { .. } => "bridge.event.models.listed"@,
    }
}

/// The subject on which an event is published.
pub fn event_subject(event: &BridgeEvent) -> (s: String)
    ensures
        s@ == subject_of(*event),
{
    match event {
        BridgeEvent::QueryStarted { .. } => "bridge.event.query.started".to_string(),
        BridgeEvent::QueryCompleted { .. } => "bridge.event.query.completed".to_string(),
        BridgeEvent::QueryFailed { .. } => "bridge.event.query.failed".to_string(),
        BridgeEvent::StreamChunk { .. } => "bridge.event.stream.chunk".to_string(),
        BridgeEvent::ProviderSwitched { .. } => "bridge.event.provider.switched".to_string(),
        BridgeEvent::ProviderHealth { .. } => "bridge.event.provider.health".to_string(),
        BridgeEvent::MetricsUpdated { .. } => "bridge.event.metrics.updated".to_string(),
        BridgeEvent::ProvidersListed { .. } => "bridge.event.providers.listed".to_string(),
        BridgeEvent::ModelsListed { .. } => "bridge.event.models.listed".to_string(),
    }
}

/// An event ready to go out: the envelope and the subject it goes to.
#[derive(Debug)]
pub struct Publication {
    pub subject: String,
    pub envelope: EventEnvelope,
}

/// `p` publishes `event` under `correlation_id`, in an envelope with no cause and no
/// metadata, on the event's subject.
pub open spec fn announces(p: Publication, event: BridgeEvent, correlation_id: Uuid) -> bool {
    &&& p.subject@ == subject_of(event)
    &&& p.envelope.event == event
    &&& p.envelope.correlation_id == correlation_id
    &&& p.envelope.causation_id is None
    &&& p.envelope.metadata@ == Map::<String, serde_json::Value>::empty()
}

/// The envelope of an event: the given id and time, no cause, no metadata.
pub fn event_envelope(event: BridgeEvent, correlation_id: Uuid, id: Uuid, timestamp: Timestamp) -> (e:
    EventEnvelope)
    ensures
        e.id == id,
        e.event == event,
        e.correlation_id == correlation_id,
        e.causation_id is None,
        e.timestamp == timestamp,
        e.metadata@ == Map::<String, serde_json::Value>::empty(),
{
    EventEnvelope {
        id,
        event,
        correlation_id,
        causation_id: None,
        timestamp,
        metadata: HashMap::new(),
    }
}

/// The current time, from the system clock; nothing is promised of its value.
pub fn now() -> (t: Timestamp) {
    let (secs, nanos) = utc_now();
    Timestamp { secs, nanos }
}

/// An event in a fresh envelope, stamped with a new id and the current time, addressed
/// to the event's subject.
pub fn publication(event: BridgeEvent, correlation_id: Uuid) -> (p: Publication)
    ensures
        announces(p, event, correlation_id),
{
    let subject = event_subject(&event);
    let id = new_uuid();
    let timestamp = now();
    Publication { subject, envelope: event_envelope(event, correlation_id, id, timestamp) }
}

/// A message to send on a reply subject.
#[derive(Debug)]
pub struct Reply {
    pub subject: String,
    pub payload: String,
}

/// The JSON object `{"active_provider":...}` with the active provider's name, or `null`.
pub open spec fn active_provider_json(active: Option<Seq<char>>) -> Seq<char> {
    "{\"active_provider\":"@ + match active {
        Some(a) => json_quoted(a),
        None => "null"@,
    } + "}"@
}

impl BridgeState {
    /// The reply to a query. Only a query for the active provider that names a reply
    /// subject is answered, with the active provider's name as JSON; the other queries
    /// get no reply.
    pub fn answer_query(&self, envelope: QueryEnvelope, reply: Option<String>) -> (r: Option<Reply>)
        ensures
            match (envelope.query, reply) {
                (BridgeQuery::ActiveProvider, Some(subject)) => r matches Some(rep)
                    && rep.subject == subject && rep.payload@ == active_provider_json(
                    self.active(),
                ),
                _ => r is None,
            },
    {
        match (envelope.query, reply) {
            (BridgeQuery::ActiveProvider, Some(subject)) => {
                let value = match &self.active_provider {
                    Some(a) => json_string(a.as_str()),
                    None => "null".to_string(),
                };
                let mut payload = concat_str("{\"active_provider\":", value.as_str());
                payload.append("}");
                Some(Reply { subject, payload })
            },
            _ => None,
        }
    }
}

/// A number for each kind of event, in declaration order.
pub open spec fn event_kind(e: BridgeEvent) -> nat {
    match e {
        BridgeEvent::QueryStarted { .. } => 0,
        BridgeEvent::QueryCompleted { .. } => 1,
        BridgeEvent::QueryFailed { .. } => 2,
        BridgeEvent::StreamChunk { .. } => 3,
        BridgeEvent::ProviderSwitched { .. } => 4,
        BridgeEvent::ProviderHealth { .. } => 5,
        BridgeEvent::MetricsUpdated { .. } => 6,
        BridgeEvent::ProvidersListed { .. } => 7,
        BridgeEvent::ModelsListed { .. } => 8,
    }
}

/// Routing by subject is unambiguous: every event goes to a subject under
/// `bridge.event.`, and events of different kinds go to different subjects.
pub proof fn lemma_subjects_route_by_kind(a: BridgeEvent, b: BridgeEvent)
    ensures
        subject_of(a).len() > 13,
        subject_of(a).take(13) == "bridge.event."@,
        subject_of(a) == subject_of(b) <==> event_kind(a) == event_kind(b),
{
    reveal_strlit("bridge.event.");
    reveal_strlit("bridge.event.query.started");
    reveal_strlit("bridge.event.query.completed");
    reveal_strlit("bridge.event.query.failed");
    reveal_strlit("bridge.event.stream.chunk");
    reveal_strlit("bridge.event.provider.switched");
    reveal_strlit("bridge.event.provider.health");
    reveal_strlit("bridge.event.metrics.updated");
    reveal_strlit("bridge.event.providers.listed");
    reveal_strlit("bridge.event.models.listed");
    assert(subject_of(a).take(13) =~= "bridge.event."@);
    if subject_of(a) == subject_of(b) {
        assert(subject_of(a)[13] == subject_of(b)[13]);
        assert(subject_of(a).len() == subject_of(b).len());
    }
}

/// The listing of providers marks exactly the active provider: at most one entry is
/// active, and where a provider is active, its entry is.
pub proof fn lemma_listing_marks_active(s: BridgeState, infos: Seq<ProviderInfo>)
    requires
        s.wf(),
        lists_providers(s, infos),
    ensures
        forall|i: int, j: int|
            0 <= i < infos.len() && 0 <= j < infos.len() && (#[trigger] infos[i]).is_active
                && (#[trigger] infos[j]).is_active ==> i == j,
        s.active() matches Some(a) ==> exists|i: int|
            0 <= i < infos.len() && (#[trigger] infos[i]).is_active && infos[i].name@ == a,
{
    assert forall|i: int, j: int|
        0 <= i < infos.len() && 0 <= j < infos.len() && (#[trigger] infos[i]).is_active
            && (#[trigger] infos[j]).is_active implies i == j by {
        if i != j {
            assert(s.providers@[i].name@ != s.providers@[j].name@);
        }
    }
    if s.active() is Some {
        let a = s.active().unwrap();
        let w = choose|w: int| 0 <= w < s.providers@.len() && (#[trigger] s.providers@[w]).name@ == a;
        assert(infos[w].is_active && infos[w].name@ == a);
    }
}

/// Every metrics record the bridge keeps counts at least one request, each of which
/// succeeded or failed; its latency total is the sum of at most that many `u64`
/// latencies; the time of its last request is known; and it counts no tokens. (Every
/// operation that changes the state keeps it well formed, so this holds in every state
/// the bridge reaches from `BridgeState::new`.)
pub proof fn lemma_metrics_balance(s: BridgeState, name: Seq<char>)
    requires
        s.wf(),
    ensures
        s.metrics_for(name) matches Some(m) ==> {
            &&& m.successful_requests + m.failed_requests == m.total_requests
            &&& m.total_requests >= 1
            &&& m.total_latency_ms <= m.total_requests * 0xffff_ffff_ffff_ffffu64
            &&& m.last_request is Some
            &&& m.tokens_processed == 0
        },
{
    if exists|i: int| 0 <= i < s.metrics@.len() && (#[trigger] s.metrics@[i]).0@ == name {
        let i = choose|i: int| 0 <= i < s.metrics@.len() && (#[trigger] s.metrics@[i]).0@ == name;
        assert(metrics_consistent(s.metrics@[i].1));
    }
}

/// One more request adds one to the total and one to exactly the tally it belongs to: a
/// success to the successes, a failure to the failures, whatever was counted before; its
/// latency is added to the total latency and its end time becomes the last request's.
pub proof fn lemma_bumped_tallies(m: ProviderMetrics, success: bool, latency_ms: u64, now: Timestamp)
    requires
        m.total_requests < u64::MAX,
        m.successful_requests + m.failed_requests == m.total_requests,
        m.total_latency_ms + latency_ms <= u128::MAX,
    ensures
        bumped(m, success, latency_ms, now).total_requests == m.total_requests + 1,
        success ==> bumped(m, success, latency_ms, now).successful_requests == m.successful_requests + 1,
        success ==> bumped(m, success, latency_ms, now).failed_requests == m.failed_requests,
        !success ==> bumped(m, success, latency_ms, now).successful_requests == m.successful_requests,
        !success ==> bumped(m, success, latency_ms, now).failed_requests == m.failed_requests + 1,
        bumped(m, success, latency_ms, now).total_latency_ms == m.total_latency_ms + latency_ms,
        bumped(m, success, latency_ms, now).tokens_processed == m.tokens_processed,
        bumped(m, success, latency_ms, now).last_request == Some(now),
{
}

/// Two successes in a row: whatever a provider's metrics were, recording two successful
/// requests adds two to its successes and leaves its failures as they were.
pub proof fn lemma_two_successes(m: ProviderMetrics, l1: u64, t1: Timestamp, l2: u64, t2: Timestamp)
    requires
        m.total_requests + 2 <= u64::MAX,
        m.successful_requests + m.failed_requests == m.total_requests,
        m.total_latency_ms + l1 + l2 <= u128::MAX,
    ensures
        bumped(bumped(m, true, l1, t1), true, l2, t2).total_requests == m.total_requests + 2,
        bumped(bumped(m, true, l1, t1), true, l2, t2).successful_requests == m.successful_requests + 2,
        bumped(bumped(m, true, l1, t1), true, l2, t2).failed_requests == m.failed_requests,
{
    lemma_bumped_tallies(m, true, l1, t1);
    lemma_bumped_tallies(bumped(m, true, l1, t1), true, l2, t2);
}

} // verus!
