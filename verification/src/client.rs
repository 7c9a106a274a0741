//! The client's side of the protocol: building commands, and reading the events that
//! answer them. Sending, subscribing, printing and timing are done by the program
//! around the library.

use vstd::prelude::*;
use std::collections::HashMap;
use uuid::Uuid;
use crate::interop::{new_uuid, same_uuid};
use crate::services::bridge::now;
use crate::text::{concat_str, decimal, decimal_string, views};
use crate::types::{BridgeCommand, BridgeEvent, CommandEnvelope, EventEnvelope, HealthStatus, Message, MessageRole, ModelInfo, ModelParameters, ProviderInfo};

verus! {

/// The conversation a client sends: one message from the user holding the prompt, with no
/// name and no metadata.
pub open spec fn prompt_conversation(prompt: String, messages: Seq<Message>) -> bool {
    &&& messages.len() == 1
    &&& messages[0].role == MessageRole::User
    &&& messages[0].content == prompt
    &&& messages[0].name is None
    &&& messages[0].metadata is None
}

/// No parameter set, except the temperature given.
pub open spec fn parameters_with_temperature(p: ModelParameters, temperature_bits: Option<u32>) -> bool {
    &&& p.temperature_bits == temperature_bits
    &&& p.max_tokens is None
    &&& p.top_p_bits is None
    &&& p.frequency_penalty_bits is None
    &&& p.presence_penalty_bits is None
    &&& p.stop_sequences is None
    &&& p.seed is None
}

fn prompt_messages(prompt: String) -> (m: Vec<Message>)
    ensures
        prompt_conversation(prompt, m@),
{
    let mut m: Vec<Message> = Vec::new();
    m.push(Message { role: MessageRole::User, content: prompt, name: None, metadata: None });
    m
}

/// The query a client sends: the prompt as the user's one message, to `model`, with the
/// temperature given (the bit pattern of an `f32`) and no other parameter.
pub fn query_command(prompt: String, model: String, temperature_bits: Option<u32>) -> (c: BridgeCommand)
    ensures
        c matches BridgeCommand::Query { model: m, messages, parameters } && m == model
            && prompt_conversation(prompt, messages@) && parameters_with_temperature(
            parameters,
            temperature_bits,
        ),
{
    let mut parameters = ModelParameters::default();
    parameters.temperature_bits = temperature_bits;
    BridgeCommand::Query { model, messages: prompt_messages(prompt), parameters }
}

/// The streamed query a client sends: the prompt as the user's one message, to `model`,
/// with no parameter set.
pub fn stream_command(prompt: String, model: String) -> (c: BridgeCommand)
    ensures
        c matches BridgeCommand::StreamQuery { model: m, messages, parameters } && m == model
            && prompt_conversation(prompt, messages@) && parameters_with_temperature(
            parameters,
            None,
        ),
{
    BridgeCommand::StreamQuery {
        model,
        messages: prompt_messages(prompt),
        parameters: ModelParameters::default(),
    }
}

/// A command in a fresh envelope: new id, new correlation id, the current time, no cause,
/// no metadata.
pub fn command_envelope(command: BridgeCommand) -> (e: CommandEnvelope)
    ensures
        e.command == command,
        e.causation_id is None,
        e.metadata@ == Map::<String, serde_json::Value>::empty(),
{
    let correlation_id = new_uuid();
    CommandEnvelope {
        id: new_uuid(),
        command,
        correlation_id,
        causation_id: None,
        timestamp: now(),
        metadata: HashMap::new(),
    }
}

/// The answer a client command waits for.
#[derive(Debug, Clone, Copy, PartialEq, Eq, Structural)]
pub enum Wait {
    Query,
    Stream,
    Providers,
    Models,
    Health,
}

/// The subject on which the client listens for the answer.
pub open spec fn events_subject_of(wait: Wait) -> Seq<char> {
    match wait {
        Wait::Query => "bridge.event.query.>"@,
        Wait::Stream => "bridge.event.>"@,
        Wait::Providers => "bridge.event.providers.listed"@,
        Wait::Models => "bridge.event.models.listed"@,
        Wait::Health => "bridge.event.provider.health"@,
    }
}

/// The subject on which the client listens for the answer.
pub fn events_subject(wait: Wait) -> (s: String)
    ensures
        s@ == events_subject_of(wait),
{
    match wait {
        Wait::Query => "bridge.event.query.>".to_string(),
        Wait::Stream => "bridge.event.>".to_string(),
        Wait::Providers => "bridge.event.providers.listed".to_string(),
        Wait::Models => "bridge.event.models.listed".to_string(),
        Wait::Health => "bridge.event.provider.health".to_string(),
    }
}

/// The subject to which the client sends its command.
pub open spec fn command_subject_of(wait: Wait) -> Seq<char> {
    match wait {
        Wait::Query => "bridge.command.query"@,
        Wait::Stream => "bridge.command.stream_query"@,
        Wait::Providers => "bridge.command.list_providers"@,
        Wait::Models => "bridge.command.list_models"@,
        Wait::Health => "bridge.command.health_check"@,
    }
}

/// The subject to which the client sends its command.
pub fn command_subject(wait: Wait) -> (s: String)
    ensures
        s@ == command_subject_of(wait),
{
    match wait {
        Wait::Query => "bridge.command.query".to_string(),
        Wait::Stream => "bridge.command.stream_query".to_string(),
        Wait::Providers => "bridge.command.list_providers".to_string(),
        Wait::Models => "bridge.command.list_models".to_string(),
        Wait::Health => "bridge.command.health_check".to_string(),
    }
}

/// How many seconds the client waits for the answer; a streamed answer is awaited for as
/// long as it takes.
pub fn deadline_secs(wait: Wait) -> (d: Option<u64>)
    ensures
        d == match wait {
            Wait::Query => Some(30u64),
            Wait::Stream => None,
            Wait::Providers => Some(5u64),
            Wait::Models => Some(10u64),
            Wait::Health => Some(5u64),
        },
{
    match wait {
        Wait::Query => Some(30),
        Wait::Stream => None,
        Wait::Providers => Some(5),
        Wait::Models => Some(10),
        Wait::Health => Some(5),
    }
}

/// The error when the answer does not come in time.
pub fn timeout_message(wait: Wait) -> (m: String)
    ensures
        m@ == (if wait == Wait::Query {
            "Query timed out after 30 seconds"@
        } else {
            "Request timed out"@
        }),
{
    if wait == Wait::Query {
        "Query timed out after 30 seconds".to_string()
    } else {
        "Request timed out".to_string()
    }
}

/// The outcome when the subscription ends before the answer is complete: a streamed
/// answer simply ends there; any other wait fails with `No response received`.
pub fn silence_outcome(wait: Wait) -> (r: Result<(), String>)
    ensures
        wait == Wait::Stream ==> r is Ok,
        wait != Wait::Stream ==> (r matches Err(m) && m@ == "No response received"@),
{
    if wait == Wait::Stream {
        Ok(())
    } else {
        Err("No response received".to_string())
    }
}

/// What the client shows, with no line break, once its command is sent: a streamed
/// answer gets a heading that its chunks then follow.
pub fn response_heading(wait: Wait) -> (h: Option<String>)
    ensures
        wait == Wait::Stream ==> (h matches Some(t) && t@ == "\n📝 Response: "@),
        wait != Wait::Stream ==> h is None,
{
    if wait == Wait::Stream {
        Some("\n📝 Response: ".to_string())
    } else {
        None
    }
}

/// Something the client shows.
#[derive(Debug)]
pub enum Output {
    /// A line on standard output.
    Line(String),
    /// Text on standard output with no line break after it.
    Partial(String),
    /// A line on standard error.
    Problem(String),
}

/// What an output shows: 0 for a line, 1 for partial text, 2 for a problem, and the text.
pub open spec fn shown(o: Output) -> (nat, Seq<char>) {
    match o {
        Output::Line(s) => (0, s@),
        Output::Partial(s) => (1, s@),
        Output::Problem(s) => (2, s@),
    }
}

/// What the client does with an event: what it shows, and whether the wait is over, and
/// how (`None` while it goes on).
#[derive(Debug)]
pub struct Verdict {
    pub outputs: Vec<Output>,
    pub outcome: Option<Result<(), String>>,
}

/// The outputs of a verdict, as they are shown.
pub open spec fn shown_all(v: Seq<Output>) -> Seq<(nat, Seq<char>)> {
    v.map_values(|o: Output| shown(o))
}

/// The outcome of a verdict, as text.
pub open spec fn outcome_view(o: Option<Result<(), String>>) -> Option<Result<(), Seq<char>>> {
    match o {
        None => None,
        Some(Ok(())) => Some(Ok(())),
        Some(Err(e)) => Some(Err(e@)),
    }
}

/// `items` joined with `sep` between each two.
pub open spec fn joined(items: Seq<Seq<char>>, sep: Seq<char>) -> Seq<char>
    decreases items.len(),
{
    if items.len() == 0 {
        Seq::empty()
    } else if items.len() == 1 {
        items[0]
    } else {
        joined(items.drop_last(), sep) + sep + items.last()
    }
}

/// The total number of characters in `items`.
pub open spec fn total_len(items: Seq<Seq<char>>) -> nat
    decreases items.len(),
{
    if items.len() == 0 {
        0
    } else {
        total_len(items.drop_last()) + items.last().len()
    }
}

/// Joining keeps every item, in order: joining two non-empty lists gives the join of the
/// first, the separator, and the join of the second.
pub proof fn lemma_joined_splits(a: Seq<Seq<char>>, b: Seq<Seq<char>>, sep: Seq<char>)
    requires
        a.len() > 0,
        b.len() > 0,
    ensures
        joined(a + b, sep) == joined(a, sep) + sep + joined(b, sep),
    decreases b.len(),
{
    if b.len() == 1 {
        assert((a + b).drop_last() =~= a);
    } else {
        lemma_joined_splits(a, b.drop_last(), sep);
        assert((a + b).drop_last() =~= a + b.drop_last());
    }
}

/// Joining `n` items gives all their characters and `n - 1` separators: its length is the
/// items' total length plus `n - 1` times the separator's; one item is joined to itself.
pub proof fn lemma_joined_len(items: Seq<Seq<char>>, sep: Seq<char>)
    requires
        items.len() > 0,
    ensures
        joined(items, sep).len() == total_len(items) + (items.len() - 1) * sep.len(),
        items.len() == 1 ==> joined(items, sep) == items[0],
    decreases items.len(),
{
    if items.len() > 1 {
        lemma_joined_len(items.drop_last(), sep);
        assert((items.len() - 1) * sep.len() == (items.len() - 2) * sep.len() + sep.len())
            by (nonlinear_arith);
    } else {
        assert(total_len(items.drop_last()) == 0);
        assert((items.len() - 1) * sep.len() == 0);
    }
}

/// Each item of a join sits, unchanged, where the items before it and their separators
/// end: the join starts with the first item, and the item at `i` follows the join of the
/// items before it and a separator.
pub proof fn lemma_joined_places_items(items: Seq<Seq<char>>, sep: Seq<char>, i: int)
    requires
        0 < i < items.len(),
    ensures
        joined(items, sep).take(items[0].len() as int) == items[0],
        joined(items, sep).subrange(
            (joined(items.take(i), sep).len() + sep.len()) as int,
            (joined(items.take(i), sep).len() + sep.len() + items[i].len()) as int,
        ) == items[i],
{
    let pre = items.take(i);
    let mid = seq![items[i]];
    let post = items.skip(i + 1);
    assert(items =~= pre + (mid + post));
    if post.len() > 0 {
        lemma_joined_splits(mid, post, sep);
        lemma_joined_splits(pre, mid + post, sep);
    } else {
        assert(mid + post =~= mid);
        lemma_joined_splits(pre, mid, sep);
    }
    assert(joined(mid, sep) == items[i]);
    let first = seq![items[0]];
    let rest = items.skip(1);
    assert(items =~= first + rest);
    lemma_joined_splits(first, rest, sep);
    assert(joined(first, sep) == items[0]);
}

/// The strings joined with `sep` between each two.
pub fn join_strings(items: &Vec<String>, sep: &str) -> (s: String)
    ensures
        s@ == joined(views(items@), sep@),
{
    let mut s = String::new();
    for i in 0..items.len()
        invariant
            s@ == joined(views(items@.take(i as int)), sep@),
    {
        if i > 0 {
            s.append(sep);
        }
        s.append(items[i].as_str());
        proof {
            let t = views(items@.take(i + 1));
            assert(t.drop_last() =~= views(items@.take(i as int)));
            assert(t.last() == items@[i as int]@);
        }
    }
    assert(items@.take(items.len() as int) =~= items@);
    s
}

/// The lines that present one provider.
pub open spec fn provider_lines(p: ProviderInfo) -> Seq<(nat, Seq<char>)> {
    seq![
        (
            0nat,
            (if p.is_active {
                "✓ ACTIVE"@
            } else {
                "  "@
            }) + " "@ + p.name@ + " - "@ + p.description@ + " ("@ + (if p.is_configured {
                "configured"@
            } else {
                "not configured"@
            }) + ")"@,
        ),
        (0nat, "     Capabilities: "@ + joined(views(p.capabilities@), ", "@)),
    ]
}

/// The lines that present a list of providers.
pub open spec fn providers_lines(ps: Seq<ProviderInfo>) -> Seq<(nat, Seq<char>)>
    decreases ps.len(),
{
    if ps.len() == 0 {
        Seq::empty()
    } else {
        providers_lines(ps.drop_last()) + provider_lines(ps.last())
    }
}

/// The lines that present one model.
pub open spec fn model_lines(m: ModelInfo) -> Seq<(nat, Seq<char>)> {
    seq![(0nat, "  • "@ + m.name@)] + (match m.description {
        Some(d) => seq![(0nat, "    "@ + d@)],
        None => Seq::empty(),
    }) + (if m.capabilities@.len() > 0 {
        seq![(0nat, "    Capabilities: "@ + joined(views(m.capabilities@), ", "@))]
    } else {
        Seq::empty()
    })
}

/// The lines that present a list of models.
pub open spec fn models_lines(ms: Seq<ModelInfo>) -> Seq<(nat, Seq<char>)>
    decreases ms.len(),
{
    if ms.len() == 0 {
        Seq::empty()
    } else {
        models_lines(ms.drop_last()) + model_lines(ms.last())
    }
}

/// The line that presents a health status.
pub open spec fn health_line(status: HealthStatus) -> Seq<char> {
    match status {
        HealthStatus::Healthy => "✅ Healthy"@,
        HealthStatus::Degraded(m) => "⚠️  Degraded - "@ + m@,
        HealthStatus::Unhealthy(m) => "❌ Unhealthy - "@ + m@,
    }
}

/// What a client waiting for `wait` shows for an event of its own command, and whether
/// the wait is over. Events of other kinds are passed over.
pub open spec fn judged(wait: Wait, event: BridgeEvent) -> (Seq<(nat, Seq<char>)>, Option<Result<(), Seq<char>>>) {
    match (wait, event) {
        (Wait::Query, BridgeEvent::QueryStarted { provider, model, .. }) => (
            seq![(0nat, "✓ Query started with "@ + provider@ + " using model "@ + model@)],
            None,
        ),
        (Wait::Query, BridgeEvent::QueryCompleted { response, .. }) => (
            seq![(0nat, "\n📝 Response:\n"@ + response.content@)] + match response.usage {
                Some(u) => seq![
                    (
                        0nat,
                        "\n📊 Tokens: "@ + decimal(u.prompt_tokens as nat) + " prompt + "@
                            + decimal(u.completion_tokens as nat) + " completion = "@ + decimal(
                            u.total_tokens as nat,
                        ) + " total"@,
                    ),
                ],
                None => Seq::empty(),
            },
            Some(Ok(())),
        ),
        (Wait::Query, BridgeEvent::QueryFailed { error, provider, .. }) => (
            seq![(2nat, "❌ Query failed on "@ + provider@ + ": "@ + error@)],
            Some(Err(error@)),
        ),
        (Wait::Stream, BridgeEvent::QueryStarted { provider, model, .. }) => (
            seq![(0nat, "\n✓ Streaming from "@ + provider@ + " using model "@ + model@ + "\n"@)],
            None,
        ),
        (Wait::Stream, BridgeEvent::StreamChunk { chunk, .. }) => if chunk.is_final {
            (
                seq![(1nat, chunk.content@), (0nat, "\n"@)] + match chunk.usage {
                    Some(u) => if u.total_tokens > 0 {
                        seq![(0nat, "📊 Total tokens used: "@ + decimal(u.total_tokens as nat))]
                    } else {
                        Seq::empty()
                    },
                    None => Seq::empty(),
                },
                Some(Ok(())),
            )
        } else {
            (seq![(1nat, chunk.content@)], None)
        },
        (Wait::Stream, BridgeEvent::QueryFailed { error, provider, .. }) => (
            seq![(2nat, "\n❌ Stream failed on "@ + provider@ + ": "@ + error@)],
            Some(Err(error@)),
        ),
        (Wait::Providers, BridgeEvent::ProvidersListed { providers }) => (
            seq![(0nat, "\n📋 Available providers:"@)] + providers_lines(providers@),
            Some(Ok(())),
        ),
        (Wait::Models, BridgeEvent::ModelsListed { provider, models }) => (
            seq![(0nat, "\n📋 Available models for "@ + provider@ + ":"@)] + models_lines(
                models@,
            ),
            Some(Ok(())),
        ),
        (Wait::Health, BridgeEvent::ProviderHealth { provider, status, details }) => (
            seq![
                (1nat, "\n🏥 Health status for "@ + provider@ + ": "@),
                (0nat, health_line(status)),
            ] + match details {
                Some(d) => seq![(0nat, "   Details: "@ + d@)],
                None => Seq::empty(),
            },
            Some(Ok(())),
        ),
        _ => (Seq::empty(), None),
    }
}

fn provider_outputs(p: &ProviderInfo, out: &mut Vec<Output>)
    ensures
        shown_all(final(out)@) == shown_all(old(out)@) + provider_lines(*p),
{
    let mut first = if p.is_active {
        "✓ ACTIVE".to_string()
    } else {
        "  ".to_string()
    };
    first.append(" ");
    first.append(p.name.as_str());
    first.append(" - ");
    first.append(p.description.as_str());
    first.append(" (");
    if p.is_configured {
        first.append("configured");
    } else {
        first.append("not configured");
    }
    first.append(")");
    let caps = join_strings(&p.capabilities, ", ");
    let second = concat_str("     Capabilities: ", caps.as_str());
    let ghost before = out@;
    out.push(Output::Line(first));
    out.push(Output::Line(second));
    assert(shown_all(out@) =~= shown_all(before) + provider_lines(*p));
}

fn model_outputs(m: &ModelInfo, out: &mut Vec<Output>)
    ensures
        shown_all(final(out)@) == shown_all(old(out)@) + model_lines(*m),
{
    let ghost before = out@;
    out.push(Output::Line(concat_str("  • ", m.name.as_str())));
    let ghost mid = out@;
    match &m.description {
        Some(d) => out.push(Output::Line(concat_str("    ", d.as_str()))),
        None => {},
    }
    let ghost mid2 = out@;
    if m.capabilities.len() > 0 {
        let caps = join_strings(&m.capabilities, ", ");
        out.push(Output::Line(concat_str("    Capabilities: ", caps.as_str())));
    }
    assert(shown_all(out@) =~= shown_all(before) + model_lines(*m));
}

fn health_text(status: &HealthStatus) -> (s: String)
    ensures
        s@ == health_line(*status),
{
    match status {
        HealthStatus::Healthy => "✅ Healthy".to_string(),
        HealthStatus::Degraded(m) => concat_str("⚠️  Degraded - ", m.as_str()),
        HealthStatus::Unhealthy(m) => concat_str("❌ Unhealthy - ", m.as_str()),
    }
}

fn verdict(outputs: Vec<Output>, outcome: Option<Result<(), String>>) -> (v: Verdict)
    ensures
        v.outputs == outputs,
        v.outcome == outcome,
{
    Verdict { outputs, outcome }
}

/// What a client waiting for `wait` on its command `correlation_id` does with an event:
/// events of other commands, and events of kinds it does not wait for, are passed over.
pub fn judge(wait: Wait, correlation_id: Uuid, envelope: EventEnvelope) -> (v: Verdict)
    ensures
        envelope.correlation_id != correlation_id ==> v.outputs@.len() == 0 && v.outcome is None,
        envelope.correlation_id == correlation_id ==> shown_all(v.outputs@) == judged(
            wait,
            envelope.event,
        ).0 && outcome_view(v.outcome) == judged(wait, envelope.event).1,
{
    let mut out: Vec<Output> = Vec::new();
    if !same_uuid(&envelope.correlation_id, &correlation_id) {
        return verdict(out, None);
    }
    let ghost event = envelope.event;
    match (wait, envelope.event) {
        (Wait::Query, BridgeEvent::QueryStarted { provider, model, .. }) => {
            let mut s = concat_str("✓ Query started with ", provider.as_str());
            s.append(" using model ");
            s.append(model.as_str());
            out.push(Output::Line(s));
            assert(shown_all(out@) =~= judged(wait, event).0);
            verdict(out, None)
        },
        (Wait::Query, BridgeEvent::QueryCompleted { response, .. }) => {
            out.push(Output::Line(concat_str("\n📝 Response:\n", response.content.as_str())));
            match response.usage {
                Some(u) => {
                    let mut s = concat_str("\n📊 Tokens: ", decimal_string(u.prompt_tokens as u64).as_str());
                    s.append(" prompt + ");
                    s.append(decimal_string(u.completion_tokens as u64).as_str());
                    s.append(" completion = ");
                    s.append(decimal_string(u.total_tokens as u64).as_str());
                    s.append(" total");
                    out.push(Output::Line(s));
                },
                None => {},
            }
            assert(shown_all(out@) =~= judged(wait, event).0);
            verdict(out, Some(Ok(())))
        },
        (Wait::Query, BridgeEvent::QueryFailed { error, provider, .. }) => {
            let mut s = concat_str("❌ Query failed on ", provider.as_str());
            s.append(": ");
            s.append(error.as_str());
            out.push(Output::Problem(s));
            assert(shown_all(out@) =~= judged(wait, event).0);
            verdict(out, Some(Err(error)))
        },
        (Wait::Stream, BridgeEvent::QueryStarted { provider, model, .. }) => {
            let mut s = concat_str("\n✓ Streaming from ", provider.as_str());
            s.append(" using model ");
            s.append(model.as_str());
            s.append("\n");
            out.push(Output::Line(s));
            assert(shown_all(out@) =~= judged(wait, event).0);
            verdict(out, None)
        },
        (Wait::Stream, BridgeEvent::StreamChunk { chunk, .. }) => {
            let is_final = chunk.is_final;
            let usage = chunk.usage;
            out.push(Output::Partial(chunk.content));
            if is_final {
                out.push(Output::Line("\n".to_string()));
                match usage {
                    Some(u) => {
                        if u.total_tokens > 0 {
                            out.push(
                                Output::Line(
                                    concat_str(
                                        "📊 Total tokens used: ",
                                        decimal_string(u.total_tokens as u64).as_str(),
                                    ),
                                ),
                            );
                        }
                    },
                    None => {},
                }
                assert(shown_all(out@) =~= judged(wait, event).0);
                verdict(out, Some(Ok(())))
            } else {
                assert(shown_all(out@) =~= judged(wait, event).0);
                verdict(out, None)
            }
        },
        (Wait::Stream, BridgeEvent::QueryFailed { error, provider, .. }) => {
            let mut s = concat_str("\n❌ Stream failed on ", provider.as_str());
            s.append(": ");
            s.append(error.as_str());
            out.push(Output::Problem(s));
            assert(shown_all(out@) =~= judged(wait, event).0);
            verdict(out, Some(Err(error)))
        },
        (Wait::Providers, BridgeEvent::ProvidersListed { providers }) => {
            out.push(Output::Line("\n📋 Available providers:".to_string()));
            let ghost head = shown_all(out@);
            for i in 0..providers.len()
                invariant
                    shown_all(out@) == head + providers_lines(providers@.take(i as int)),
            {
                proof {
                    assert(providers@.take(i + 1).drop_last() =~= providers@.take(i as int));
                }
                provider_outputs(&providers[i], &mut out);
                assert(shown_all(out@) =~= head + providers_lines(providers@.take(i + 1)));
            }
            assert(providers@.take(providers.len() as int) =~= providers@);
            assert(shown_all(out@) =~= judged(wait, event).0);
            verdict(out, Some(Ok(())))
        },
        (Wait::Models, BridgeEvent::ModelsListed { provider, models }) => {
            let mut s = concat_str("\n📋 Available models for ", provider.as_str());
            s.append(":");
            out.push(Output::Line(s));
            let ghost head = shown_all(out@);
            for i in 0..models.len()
                invariant
                    shown_all(out@) == head + models_lines(models@.take(i as int)),
            {
                proof {
                    assert(models@.take(i + 1).drop_last() =~= models@.take(i as int));
                }
                model_outputs(&models[i], &mut out);
                assert(shown_all(out@) =~= head + models_lines(models@.take(i + 1)));
            }
            assert(models@.take(models.len() as int) =~= models@);
            assert(shown_all(out@) =~= judged(wait, event).0);
            verdict(out, Some(Ok(())))
        },
        (Wait::Health, BridgeEvent::ProviderHealth { provider, status, details }) => {
            let mut s = concat_str("\n🏥 Health status for ", provider.as_str());
            s.append(": ");
            out.push(Output::Partial(s));
            out.push(Output::Line(health_text(&status)));
            match details {
                Some(d) => out.push(Output::Line(concat_str("   Details: ", d.as_str()))),
                None => {},
            }
            assert(shown_all(out@) =~= judged(wait, event).0);
            verdict(out, Some(Ok(())))
        },
        _ => {
            assert(shown_all(out@) =~= judged(wait, event).0);
            verdict(out, None)
        },
    }
}

} // verus!
