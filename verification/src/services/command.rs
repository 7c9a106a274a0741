//! The handling of a command, as a state machine: the bridge starts a command, asks for
//! one action at a time (publish an event, call a provider, forward a stream), and moves
//! on with what came of it. The program around the library carries out the actions.

use vstd::prelude::*;
use uuid::Uuid;
use crate::error::{BridgeError, describes};
use crate::interop::{elapsed_since, instant_now, new_uuid, whole_millis};
use crate::services::bridge::{announces, lists_providers, active_provider_json, BridgeState, Publication, bumped, metrics_or_zero, now, publication};
use crate::services::stream::StreamForwarder;
use crate::text::concat_str;
use crate::types::{BridgeCommand, BridgeEvent, CommandEnvelope, HealthStatus, Message, ModelInfo, ModelParameters, ModelResponse, ProviderMetrics, Timestamp};

verus! {

/// The text that accompanies a health status: a fixed sentence when healthy, the
/// status's own message otherwise.
pub open spec fn health_details_text(status: HealthStatus) -> Seq<char> {
    match status {
        HealthStatus::Healthy => "Provider is operational"@,
        HealthStatus::Degraded(m) => m@,
        HealthStatus::Unhealthy(m) => m@,
    }
}

/// The text that accompanies a health status.
pub fn health_details(status: &HealthStatus) -> (d: String)
    ensures
        d@ == health_details_text(*status),
        status matches HealthStatus::Degraded(m) ==> d@ == m@,
        status matches HealthStatus::Unhealthy(m) ==> d@ == m@,
{
    match status {
        HealthStatus::Healthy => "Provider is operational".to_string(),
        HealthStatus::Degraded(m) => m.clone(),
        HealthStatus::Unhealthy(m) => m.clone(),
    }
}

/// The kinds of call the bridge makes to a provider.
#[derive(Debug, Clone, Copy, PartialEq, Eq, Structural)]
pub enum RequestKind {
    Query,
    StreamQuery,
    ListModels,
    HealthCheck,
}

/// A call the bridge asks to be made to a provider.
#[derive(Debug)]
pub enum ProviderRequest {
    Query { model: String, messages: Vec<Message>, parameters: ModelParameters },
    StreamQuery { model: String, messages: Vec<Message>, parameters: ModelParameters },
    ListModels,
    HealthCheck,
}

/// The kind of a provider call.
pub open spec fn kind_of(r: ProviderRequest) -> RequestKind {
    match r {
        ProviderRequest::Query { .. } => RequestKind::Query,
        ProviderRequest::StreamQuery { .. } => RequestKind::StreamQuery,
        ProviderRequest::ListModels => RequestKind::ListModels,
        ProviderRequest::HealthCheck => RequestKind::HealthCheck,
    }
}

fn request_kind(r: &ProviderRequest) -> (k: RequestKind)
    ensures
        k == kind_of(*r),
{
    match r {
        ProviderRequest::Query { .. } => RequestKind::Query,
        ProviderRequest::StreamQuery { .. } => RequestKind::StreamQuery,
        ProviderRequest::ListModels => RequestKind::ListModels,
        ProviderRequest::HealthCheck => RequestKind::HealthCheck,
    }
}

/// What came of the last action of a command, handed back to the bridge.
#[derive(Debug)]
pub enum Feedback {
    /// An event was published, or publishing it failed.
    Published(Result<(), BridgeError>),
    /// The provider answered a query.
    Answered(Result<ModelResponse, BridgeError>),
    /// The provider opened a streamed answer, or failed to.
    StreamOpened(Result<(), BridgeError>),
    /// The provider listed its models.
    ModelsListed(Result<Vec<ModelInfo>, BridgeError>),
    /// The provider reported its health.
    HealthChecked(Result<HealthStatus, BridgeError>),
}

/// What the bridge asks to be done next for a command.
#[derive(Debug)]
pub enum Action {
    /// Publish this event.
    Publish(Publication),
    /// Call the provider of this name.
    Invoke { provider: String, request: ProviderRequest },
    /// The command succeeded; forward the provider's streamed answer with this forwarder.
    Forward(StreamForwarder),
    /// The command is over, with this result.
    Finish(Result<(), BridgeError>),
}

/// Where a command stands.
#[derive(Debug)]
pub enum Stage {
    /// The start of a query is being announced; then this provider gets the request.
    Announcing { provider: String, request: ProviderRequest },
    /// The provider was called at `started` and its answer is awaited.
    Awaiting { provider: String, kind: RequestKind, started: std::time::Instant },
    /// The outcome of a query is being announced; then it is counted in the metrics.
    Reporting { provider: String, success: bool, started: std::time::Instant },
    /// Updated metrics are being announced; that ends the command.
    Recording,
    /// The command's last event is being announced; that ends the command.
    Concluding,
    /// The command is over.
    Done,
}

/// A command in progress.
#[derive(Debug)]
pub struct CommandRun {
    pub query_id: Uuid,
    pub correlation_id: Uuid,
    pub stage: Stage,
}

/// `a` publishes `event` under `correlation_id`.
pub open spec fn publishes(a: Action, event: BridgeEvent, correlation_id: Uuid) -> bool {
    a matches Action::Publish(p) && announces(p, event, correlation_id)
}

/// The event that `a` publishes (meaningful where `a` publishes one).
pub open spec fn published_event(a: Action) -> BridgeEvent {
    match a {
        Action::Publish(p) => p.envelope.event,
        _ => arbitrary(),
    }
}

/// `a` publishes, under `correlation_id`, the failure of query `query_id` on `provider`,
/// with the text that describes `e`.
pub open spec fn reports_failure(
    a: Action,
    query_id: Uuid,
    provider: String,
    e: BridgeError,
    correlation_id: Uuid,
) -> bool {
    &&& publishes(a, published_event(a), correlation_id)
    &&& published_event(a) matches BridgeEvent::QueryFailed { query_id: q, error, provider: p }
    &&& q == query_id
    &&& p == provider
    &&& describes(e, error@)
}

/// The provider a command names, or the active one where it names none.
pub open spec fn resolved(s: BridgeState, requested: Option<String>) -> Result<String, BridgeError> {
    match requested {
        Some(n) => Ok(n),
        None => match s.active_provider {
            Some(a) => Ok(a),
            None => Err(BridgeError::NoActiveProvider),
        },
    }
}

/// The command calls the provider named by `name` with `request` where it is
/// registered, and ends with the error otherwise.
pub open spec fn invokes(
    s: BridgeState,
    run: CommandRun,
    a: Action,
    name: Result<String, BridgeError>,
    request: ProviderRequest,
) -> bool {
    match name {
        Err(e) => run.stage is Done && a == Action::Finish(Err(e)),
        Ok(n) => if s.is_registered(n@) {
            &&& run.stage matches Stage::Awaiting { provider, kind, .. }
            &&& provider == n
            &&& kind == kind_of(request)
            &&& a == (Action::Invoke { provider: n, request })
        } else {
            run.stage is Done && a == Action::Finish(Err(BridgeError::ProviderNotFound(n)))
        },
    }
}

/// A query announces its start on the active provider, or ends with `NoActiveProvider`.
pub open spec fn announces_query(s: BridgeState, run: CommandRun, a: Action, model: String, request: ProviderRequest) -> bool {
    match s.active_provider {
        None => run.stage is Done && a == Action::Finish(Err(BridgeError::NoActiveProvider)),
        Some(p) => {
            &&& run.stage == (Stage::Announcing { provider: p, request })
            &&& publishes(
                a,
                BridgeEvent::QueryStarted { query_id: run.query_id, provider: p, model },
                run.correlation_id,
            )
        },
    }
}

/// How a command starts.
pub open spec fn begins(s0: BridgeState, s1: BridgeState, env: CommandEnvelope, run: CommandRun, a: Action) -> bool {
    &&& run.query_id == env.id
    &&& run.correlation_id == env.correlation_id
    &&& match env.command {
        BridgeCommand::Query { model, messages, parameters } => s1 == s0 && announces_query(
            s0,
            run,
            a,
            model,
            ProviderRequest::Query { model, messages, parameters },
        ),
        BridgeCommand::StreamQuery { model, messages, parameters } => s1 == s0 && announces_query(
            s0,
            run,
            a,
            model,
            ProviderRequest::StreamQuery { model, messages, parameters },
        ),
        BridgeCommand::SwitchProvider { provider, .. } => if s0.is_registered(provider@) {
            &&& s1.active_provider == Some(provider)
            &&& s1.providers == s0.providers
            &&& s1.metrics == s0.metrics
            &&& run.stage is Concluding
            &&& publishes(
                a,
                BridgeEvent::ProviderSwitched {
                    old_provider: s0.active_provider,
                    new_provider: provider,
                },
                env.correlation_id,
            )
        } else {
            &&& s1 == s0
            &&& run.stage is Done
            &&& a == Action::Finish(Err(BridgeError::ProviderNotFound(provider)))
        },
        BridgeCommand::ListProviders => {
            &&& s1 == s0
            &&& run.stage is Concluding
            &&& publishes(a, published_event(a), env.correlation_id)
            &&& published_event(a) matches BridgeEvent::ProvidersListed { providers }
            &&& lists_providers(s0, providers@)
        },
        BridgeCommand::ListModels { provider } => s1 == s0 && invokes(
            s0,
            run,
            a,
            resolved(s0, provider),
            ProviderRequest::ListModels,
        ),
        BridgeCommand::HealthCheck { provider } => s1 == s0 && invokes(
            s0,
            run,
            a,
            resolved(s0, provider),
            ProviderRequest::HealthCheck,
        ),
    }
}

impl CommandRun {
    /// Where the run's next step counts a request, one more request of its provider can be
    /// counted without overflow.
    pub open spec fn counts_within(&self, s: BridgeState) -> bool {
        self.stage matches Stage::Reporting { provider, .. } ==> s.countable(provider@)
    }

    /// Whether the run's next step, where it counts a request, stays within the counters.
    pub fn can_count(&self, state: &BridgeState) -> (b: bool)
        requires
            state.wf(),
        ensures
            b == self.counts_within(*state),
    {
        match &self.stage {
            Stage::Reporting { provider, .. } => state.can_record(provider),
            _ => true,
        }
    }

    /// The run expects this kind of feedback next.
    pub open spec fn accepts(&self, f: Feedback) -> bool {
        match self.stage {
            Stage::Announcing { .. } => f is Published,
            Stage::Awaiting { kind, .. } => match kind {
                RequestKind::Query => f is Answered,
                RequestKind::StreamQuery => f is StreamOpened,
                RequestKind::ListModels => f is ModelsListed,
                RequestKind::HealthCheck => f is HealthChecked,
            },
            Stage::Reporting { .. } => f is Published,
            Stage::Recording => f is Published,
            Stage::Concluding => f is Published,
            Stage::Done => false,
        }
    }

    /// Whether the run expects this kind of feedback next.
    pub fn accepts_feedback(&self, f: &Feedback) -> (b: bool)
        ensures
            b == self.accepts(*f),
    {
        match &self.stage {
            Stage::Announcing { .. } => matches!(f, Feedback::Published(_)),
            Stage::Awaiting { kind, .. } => match kind {
                RequestKind::Query => matches!(f, Feedback::Answered(_)),
                RequestKind::StreamQuery => matches!(f, Feedback::StreamOpened(_)),
                RequestKind::ListModels => matches!(f, Feedback::ModelsListed(_)),
                RequestKind::HealthCheck => matches!(f, Feedback::HealthChecked(_)),
            },
            Stage::Reporting { .. } => matches!(f, Feedback::Published(_)),
            Stage::Recording => matches!(f, Feedback::Published(_)),
            Stage::Concluding => matches!(f, Feedback::Published(_)),
            Stage::Done => false,
        }
    }

    /// The command is over.
    pub fn is_done(&self) -> (b: bool)
        ensures
            b == (self.stage is Done),
    {
        matches!(self.stage, Stage::Done)
    }
}

fn finished(query_id: Uuid, correlation_id: Uuid, result: Result<(), BridgeError>) -> (r: (
    CommandRun,
    Action,
))
    ensures
        r.0.query_id == query_id,
        r.0.correlation_id == correlation_id,
        r.0.stage is Done,
        r.1 == Action::Finish(result),
{
    (CommandRun { query_id, correlation_id, stage: Stage::Done }, Action::Finish(result))
}

fn call_provider(
    state: &BridgeState,
    query_id: Uuid,
    correlation_id: Uuid,
    name: String,
    request: ProviderRequest,
) -> (r: (CommandRun, Action))
    requires
        state.wf(),
    ensures
        r.0.query_id == query_id,
        r.0.correlation_id == correlation_id,
        invokes(*state, r.0, r.1, Ok(name), request),
{
    match state.find_provider(&name) {
        Err(e) => finished(query_id, correlation_id, Err(e)),
        Ok(_) => {
            let kind = request_kind(&request);
            let started = instant_now();
            let run = CommandRun {
                query_id,
                correlation_id,
                stage: Stage::Awaiting { provider: name.clone(), kind, started },
            };
            (run, Action::Invoke { provider: name, request })
        },
    }
}

fn start_query(
    state: &BridgeState,
    query_id: Uuid,
    correlation_id: Uuid,
    model: String,
    request: ProviderRequest,
) -> (r: (CommandRun, Action))
    ensures
        r.0.query_id == query_id,
        r.0.correlation_id == correlation_id,
        announces_query(*state, r.0, r.1, model, request),
{
    match state.active_provider_name() {
        Err(e) => finished(query_id, correlation_id, Err(e)),
        Ok(p) => {
            let event = BridgeEvent::QueryStarted { query_id, provider: p.clone(), model };
            let run = CommandRun {
                query_id,
                correlation_id,
                stage: Stage::Announcing { provider: p, request },
            };
            (run, Action::Publish(publication(event, correlation_id)))
        },
    }
}

/// Starts a command: the first action it takes, or its end.
pub fn begin(state: &mut BridgeState, envelope: CommandEnvelope) -> (r: (CommandRun, Action))
    requires
        old(state).wf(),
    ensures
        final(state).wf(),
        begins(*old(state), *final(state), envelope, r.0, r.1),
{
    let query_id = envelope.id;
    let correlation_id = envelope.correlation_id;
    match envelope.command {
        BridgeCommand::Query { model, messages, parameters } => {
            let m = model.clone();
            start_query(
                state,
                query_id,
                correlation_id,
                m,
                ProviderRequest::Query { model, messages, parameters },
            )
        },
        BridgeCommand::StreamQuery { model, messages, parameters } => {
            let m = model.clone();
            start_query(
                state,
                query_id,
                correlation_id,
                m,
                ProviderRequest::StreamQuery { model, messages, parameters },
            )
        },
        BridgeCommand::SwitchProvider { provider, config: _ } => {
            match state.switch_provider(provider) {
                Err(e) => finished(query_id, correlation_id, Err(e)),
                Ok(event) => {
                    let run = CommandRun { query_id, correlation_id, stage: Stage::Concluding };
                    (run, Action::Publish(publication(event, correlation_id)))
                },
            }
        },
        BridgeCommand::ListProviders => {
            let event = BridgeEvent::ProvidersListed { providers: state.provider_infos() };
            let run = CommandRun { query_id, correlation_id, stage: Stage::Concluding };
            (run, Action::Publish(publication(event, correlation_id)))
        },
        BridgeCommand::ListModels { provider } => {
            match state.resolve_provider(provider) {
                Err(e) => finished(query_id, correlation_id, Err(e)),
                Ok(name) => call_provider(
                    state,
                    query_id,
                    correlation_id,
                    name,
                    ProviderRequest::ListModels,
                ),
            }
        },
        BridgeCommand::HealthCheck { provider } => {
            match state.resolve_provider(provider) {
                Err(e) => finished(query_id, correlation_id, Err(e)),
                Ok(name) => call_provider(
                    state,
                    query_id,
                    correlation_id,
                    name,
                    ProviderRequest::HealthCheck,
                ),
            }
        },
    }
}

/// `s1` is `s0` with one more request of `provider` counted, as having succeeded or
/// failed, with some latency and end time; `m` is the provider's metrics afterwards.
pub open spec fn counts_request(s0: BridgeState, s1: BridgeState, provider: Seq<char>, success: bool, m: ProviderMetrics) -> bool {
    &&& s1.providers == s0.providers
    &&& s1.active_provider == s0.active_provider
    &&& s1.metrics_for(provider) == Some(m)
    &&& exists|latency_ms: u64, now: Timestamp|
        m == #[trigger] bumped(metrics_or_zero(s0.metrics_for(provider)), success, latency_ms, now)
    &&& forall|n: Seq<char>| n != provider ==> s1.metrics_for(n) == s0.metrics_for(n)
}

/// How a command moves on after the outcome of its last action.
pub open spec fn steps(
    s0: BridgeState,
    s1: BridgeState,
    r0: CommandRun,
    r1: CommandRun,
    f: Feedback,
    a: Action,
) -> bool {
    &&& r1.query_id == r0.query_id
    &&& r1.correlation_id == r0.correlation_id
    &&& match r0.stage {
        Stage::Announcing { provider, request } => match f {
            Feedback::Published(Err(e)) => s1 == s0 && r1.stage is Done && a == Action::Finish(
                Err(e),
            ),
            _ => s1 == s0 && invokes(s0, r1, a, Ok(provider), request),
        },
        Stage::Awaiting { provider, kind, started } => match f {
            Feedback::Answered(Ok(response)) => {
                &&& s1 == s0
                &&& r1.stage == (Stage::Reporting { provider, success: true, started })
                &&& publishes(
                    a,
                    BridgeEvent::QueryCompleted { query_id: r0.query_id, response },
                    r0.correlation_id,
                )
            },
            Feedback::Answered(Err(e)) => {
                &&& s1 == s0
                &&& r1.stage == (Stage::Reporting { provider, success: false, started })
                &&& reports_failure(a, r0.query_id, provider, e, r0.correlation_id)
            },
            Feedback::StreamOpened(Ok(())) => {
                &&& s1 == s0
                &&& r1.stage is Done
                &&& a matches Action::Forward(fw)
                &&& fw.query_id == r0.query_id
                &&& fw.correlation_id == r0.correlation_id
                &&& fw.provider == provider
                &&& fw.started == started
                &&& fw.sequence == 0
                &&& fw.open
                &&& fw.pending is None
            },
            Feedback::StreamOpened(Err(e)) => {
                &&& s1 == s0
                &&& r1.stage == (Stage::Reporting { provider, success: false, started })
                &&& reports_failure(a, r0.query_id, provider, e, r0.correlation_id)
            },
            Feedback::ModelsListed(Ok(models)) => {
                &&& s1 == s0
                &&& r1.stage is Concluding
                &&& publishes(
                    a,
                    BridgeEvent::ModelsListed { provider, models },
                    r0.correlation_id,
                )
            },
            Feedback::ModelsListed(Err(e)) => s1 == s0 && r1.stage is Done && a
                == Action::Finish(Err(e)),
            Feedback::HealthChecked(Ok(status)) => {
                &&& s1 == s0
                &&& r1.stage is Concluding
                &&& publishes(a, published_event(a), r0.correlation_id)
                &&& published_event(a) matches BridgeEvent::ProviderHealth {
                    provider: p,
                    status: st,
                    details: Some(d),
                }
                &&& p == provider
                &&& st == status
                &&& d@ == health_details_text(status)
            },
            Feedback::HealthChecked(Err(e)) => {
                &&& s1 == s0
                &&& r1.stage is Concluding
                &&& publishes(a, published_event(a), r0.correlation_id)
                &&& published_event(a) matches BridgeEvent::ProviderHealth {
                    provider: p,
                    status: HealthStatus::Unhealthy(m),
                    details: Some(d),
                }
                &&& p == provider
                &&& describes(e, m@)
                &&& d@ == "Health check error: "@ + m@
            },
            Feedback::Published(_) => false,
        },
        Stage::Reporting { provider, success, .. } => match f {
            Feedback::Published(Err(e)) => s1 == s0 && r1.stage is Done && a == Action::Finish(
                Err(e),
            ),
            _ => {
                &&& r1.stage is Recording
                &&& a matches Action::Publish(p)
                &&& p.envelope.event matches BridgeEvent::MetricsUpdated { provider: pv, metrics: m }
                &&& announces(p, p.envelope.event, p.envelope.correlation_id)
                &&& pv == provider
                &&& counts_request(s0, s1, provider@, success, m)
            },
        },
        Stage::Recording => match f {
            Feedback::Published(r) => s1 == s0 && r1.stage is Done && a == Action::Finish(r),
            _ => false,
        },
        Stage::Concluding => match f {
            Feedback::Published(r) => s1 == s0 && r1.stage is Done && a == Action::Finish(r),
            _ => false,
        },
        Stage::Done => false,
    }
}

pub(crate) fn failure_event(query_id: Uuid, provider: String, e: &BridgeError) -> (ev: BridgeEvent)
    ensures
        ev matches BridgeEvent::QueryFailed { query_id: q, error, provider: p } && q == query_id
            && p == provider && describes(*e, error@),
{
    BridgeEvent::QueryFailed { query_id, error: e.message(), provider }
}

/// The latency of a call started at `started`, in milliseconds, capped at `u64::MAX`.
pub(crate) fn latency_since(started: &std::time::Instant) -> (ms: u64) {
    let ms = whole_millis(&elapsed_since(started));
    if ms > u64::MAX as u128 {
        u64::MAX
    } else {
        ms as u64
    }
}

/// Moves a command on after the outcome of its last action: the next action, or its end.
pub fn advance(state: &mut BridgeState, run: &mut CommandRun, feedback: Feedback) -> (a: Action)
    requires
        old(state).wf(),
        old(run).accepts(feedback),
        old(run).counts_within(*old(state)),
    ensures
        final(state).wf(),
        steps(*old(state), *final(state), *old(run), *final(run), feedback, a),
{
    let query_id = run.query_id;
    let correlation_id = run.correlation_id;
    let mut stage = Stage::Done;
    std::mem::swap(&mut stage, &mut run.stage);
    match stage {
        Stage::Announcing { provider, request } => match feedback {
            Feedback::Published(Err(e)) => Action::Finish(Err(e)),
            _ => {
                let (r, a) = call_provider(state, query_id, correlation_id, provider, request);
                *run = r;
                a
            },
        },
        Stage::Awaiting { provider, kind, started } => match feedback {
            Feedback::Answered(Ok(response)) => {
                run.stage = Stage::Reporting { provider, success: true, started };
                Action::Publish(
                    publication(BridgeEvent::QueryCompleted { query_id, response }, correlation_id),
                )
            },
            Feedback::Answered(Err(e)) => {
                let event = failure_event(query_id, provider.clone(), &e);
                run.stage = Stage::Reporting { provider, success: false, started };
                Action::Publish(publication(event, correlation_id))
            },
            Feedback::StreamOpened(Ok(())) => Action::Forward(
                StreamForwarder {
                    query_id,
                    correlation_id,
                    provider,
                    started,
                    sequence: 0,
                    open: true,
                    pending: None,
                },
            ),
            Feedback::StreamOpened(Err(e)) => {
                let event = failure_event(query_id, provider.clone(), &e);
                run.stage = Stage::Reporting { provider, success: false, started };
                Action::Publish(publication(event, correlation_id))
            },
            Feedback::ModelsListed(Ok(models)) => {
                run.stage = Stage::Concluding;
                Action::Publish(
                    publication(BridgeEvent::ModelsListed { provider, models }, correlation_id),
                )
            },
            Feedback::ModelsListed(Err(e)) => Action::Finish(Err(e)),
            Feedback::HealthChecked(Ok(status)) => {
                let details = health_details(&status);
                run.stage = Stage::Concluding;
                Action::Publish(
                    publication(
                        BridgeEvent::ProviderHealth { provider, status, details: Some(details) },
                        correlation_id,
                    ),
                )
            },
            Feedback::HealthChecked(Err(e)) => {
                let m = e.message();
                let d = concat_str("Health check error: ", m.as_str());
                run.stage = Stage::Concluding;
                Action::Publish(
                    publication(
                        BridgeEvent::ProviderHealth {
                            provider,
                            status: HealthStatus::Unhealthy(m),
                            details: Some(d),
                        },
                        correlation_id,
                    ),
                )
            },
            Feedback::Published(_) => Action::Finish(Ok(())),
        },
        Stage::Reporting { provider, success, started } => match feedback {
            Feedback::Published(Err(e)) => Action::Finish(Err(e)),
            _ => {
                let latency_ms = latency_since(&started);
                let at = now();
                let m = state.record(&provider, success, latency_ms, at);
                run.stage = Stage::Recording;
                Action::Publish(
                    publication(BridgeEvent::MetricsUpdated { provider, metrics: m }, new_uuid()),
                )
            },
        },
        Stage::Recording => match feedback {
            Feedback::Published(r) => Action::Finish(r),
            _ => Action::Finish(Ok(())),
        },
        Stage::Concluding => match feedback {
            Feedback::Published(r) => Action::Finish(r),
            _ => Action::Finish(Ok(())),
        },
        Stage::Done => Action::Finish(Ok(())),
    }
}

/// What a read gives back of a write: after a command that switches to a registered
/// provider, the active provider is that one, and a query for the active provider is
/// answered with its name.
pub proof fn lemma_switch_then_ask(
    s0: BridgeState,
    s1: BridgeState,
    env: CommandEnvelope,
    run: CommandRun,
    a: Action,
)
    requires
        s0.wf(),
        begins(s0, s1, env, run, a),
        env.command matches BridgeCommand::SwitchProvider { provider, .. } && s0.is_registered(
            provider@,
        ),
    ensures
        env.command matches BridgeCommand::SwitchProvider { provider, .. } && s1.active() == Some(
            provider@,
        ) && active_provider_json(s1.active()) == active_provider_json(Some(provider@)),
{
}

/// How far a command is from its end: every step of a command brings it closer.
pub open spec fn remaining_steps(stage: Stage) -> nat {
    match stage {
        Stage::Announcing { .. } => 4,
        Stage::Awaiting { .. } => 3,
        Stage::Reporting { .. } => 2,
        Stage::Recording => 1,
        Stage::Concluding => 1,
        Stage::Done => 0,
    }
}

/// Every command ends: each step leaves it fewer steps from its end, so a command is over
/// after at most four outcomes are handed back.
pub proof fn lemma_commands_end(
    s0: BridgeState,
    s1: BridgeState,
    r0: CommandRun,
    r1: CommandRun,
    f: Feedback,
    a: Action,
)
    requires
        s0.wf(),
        r0.accepts(f),
        steps(s0, s1, r0, r1, f, a),
    ensures
        remaining_steps(r1.stage) < remaining_steps(r0.stage),
        a is Finish || a is Forward ==> r1.stage is Done,
{
}

/// Every event a command publishes belongs to that command: it carries the command's
/// correlation id, except the metrics update, which is an event of its own; and the
/// events about the query carry the command's id as the query id.
pub proof fn lemma_events_carry_correlation(
    s0: BridgeState,
    s1: BridgeState,
    r0: CommandRun,
    r1: CommandRun,
    f: Feedback,
    a: Action,
)
    requires
        s0.wf(),
        r0.accepts(f),
        steps(s0, s1, r0, r1, f, a),
        a is Publish,
    ensures
        !(published_event(a) is MetricsUpdated) ==> publishes(a, published_event(a), r0.correlation_id),
        published_event(a) matches BridgeEvent::QueryCompleted { query_id, .. } ==> query_id
            == r0.query_id,
        published_event(a) matches BridgeEvent::QueryFailed { query_id, .. } ==> query_id
            == r0.query_id,
{
}

/// A query's outcome is announced once: the completion or failure of a query is only
/// published as the provider's answer is taken, which moves the command past waiting for
/// an answer; since every step brings a command closer to its end, it never waits again.
pub proof fn lemma_outcome_announced_once(
    s0: BridgeState,
    s1: BridgeState,
    r0: CommandRun,
    r1: CommandRun,
    f: Feedback,
    a: Action,
)
    requires
        s0.wf(),
        r0.accepts(f),
        steps(s0, s1, r0, r1, f, a),
        a is Publish,
        published_event(a) is QueryCompleted || published_event(a) is QueryFailed,
    ensures
        r0.stage is Awaiting,
        r1.stage is Reporting,
        remaining_steps(r1.stage) < remaining_steps(r0.stage),
{
}

/// The registry never changes, and a serving bridge keeps serving: after a command
/// starts, the same providers are registered, and where a provider was active, one still
/// is, and it is registered.
pub proof fn lemma_begin_keeps_serving(
    s0: BridgeState,
    s1: BridgeState,
    env: CommandEnvelope,
    run: CommandRun,
    a: Action,
)
    requires
        s0.wf(),
        begins(s0, s1, env, run, a),
    ensures
        s1.providers == s0.providers,
        s0.active_provider is Some ==> s1.active_provider is Some,
        s1.active() matches Some(p) ==> s1.is_registered(p),
{
    if let BridgeCommand::SwitchProvider { provider, .. } = env.command {
        if s0.is_registered(provider@) {
            let w = choose|w: int| 0 <= w < s0.providers@.len() && (#[trigger] s0.providers@[w]).name@ == provider@;
            assert(s1.providers@[w].name@ == provider@);
        }
    }
}

/// The registry never changes, and a serving bridge keeps serving: after any step of a
/// command, the same providers are registered and the same provider is active.
pub proof fn lemma_step_keeps_serving(
    s0: BridgeState,
    s1: BridgeState,
    r0: CommandRun,
    r1: CommandRun,
    f: Feedback,
    a: Action,
)
    requires
        s0.wf(),
        r0.accepts(f),
        steps(s0, s1, r0, r1, f, a),
    ensures
        s1.providers == s0.providers,
        s1.active_provider == s0.active_provider,
        s1.active() matches Some(p) ==> s1.is_registered(p),
{
    if s1.active() is Some {
        let p = s1.active().unwrap();
        let w = choose|w: int| 0 <= w < s0.providers@.len() && (#[trigger] s0.providers@[w]).name@ == p;
        assert(s1.providers@[w].name@ == p);
    }
}

/// Counting a request (as the end of a stream does) keeps a serving bridge serving: the
/// same providers are registered, the same provider is active, and it is registered.
pub proof fn lemma_counting_keeps_serving(
    s0: BridgeState,
    s1: BridgeState,
    provider: Seq<char>,
    success: bool,
    m: ProviderMetrics,
)
    requires
        s0.serving(),
        s1.wf(),
        counts_request(s0, s1, provider, success, m),
    ensures
        s1.serving(),
        s1.providers == s0.providers,
        s1.active_provider == s0.active_provider,
        s1.active() matches Some(p) ==> s1.is_registered(p),
{
}

/// A status that is not healthy is reported with its own message, unchanged; only a
/// healthy provider gets the fixed sentence.
pub proof fn lemma_health_details_carry_message(status: HealthStatus)
    ensures
        status matches HealthStatus::Degraded(m) ==> health_details_text(status) == m@,
        status matches HealthStatus::Unhealthy(m) ==> health_details_text(status) == m@,
        status is Healthy ==> health_details_text(status) == "Provider is operational"@,
{
}

/// Counting a request adds one to the provider's total and one to exactly the tally it
/// belongs to, whatever its metrics were before (none kept counts as all zero).
pub proof fn lemma_counting_tallies(
    s0: BridgeState,
    s1: BridgeState,
    provider: Seq<char>,
    success: bool,
    m: ProviderMetrics,
)
    requires
        s0.wf(),
        s0.countable(provider),
        counts_request(s0, s1, provider, success, m),
    ensures
        s0.metrics_for(provider) matches Some(o) ==> {
            &&& m.total_requests == o.total_requests + 1
            &&& m.successful_requests == o.successful_requests + if success { 1int } else { 0int }
            &&& m.failed_requests == o.failed_requests + if success { 0int } else { 1int }
        },
        s0.metrics_for(provider) is None ==> {
            &&& m.total_requests == 1
            &&& m.successful_requests == if success { 1int } else { 0int }
            &&& m.failed_requests == if success { 0int } else { 1int }
        },
        s1.metrics_for(provider) == Some(m),
{
    let (l, t) = choose|latency_ms: u64, now: Timestamp|
        m == #[trigger] bumped(metrics_or_zero(s0.metrics_for(provider)), success, latency_ms, now);
    crate::services::bridge::lemma_metrics_balance(s0, provider);
}

} // verus!
