//! The Ollama provider's logic: its address, the requests it sends, and how it reads
//! Ollama's answers. The HTTP exchange itself is made by the program around the library.

use vstd::prelude::*;
use uuid::Uuid;
use std::collections::HashMap;
use crate::error::BridgeError;
use crate::interop::{decode_utf8_lossy, duration_from_secs, duration_of_secs, new_uuid, string_from_chars, utf8_lossy};
use crate::text::{chars_of, clone_opt_string, concat_str, decimal, decimal_string, opt_view, trim_chars, trimmed, views};
use crate::types::{HealthStatus, Message, MessageRole, ModelInfo, ModelParameters, ModelResponse, StreamChunk, Usage};

verus! {

/// Ollama provider configuration.
#[derive(Debug, Clone)]
pub struct OllamaConfig {
    pub host: String,
    pub port: u16,
    pub timeout: std::time::Duration,
}

impl Default for OllamaConfig {
    /// `localhost`, port 11434, and five minutes for large models to answer.
    fn default() -> (c: Self)
        ensures
            c.host@ == "localhost"@,
            c.port == 11434,
            c.timeout == duration_of_secs(300),
    {
        OllamaConfig {
            host: "localhost".to_string(),
            port: 11434,
            timeout: duration_from_secs(300),
        }
    }
}

/// The name under which the Ollama provider is registered.
pub open spec fn ollama_name_text() -> Seq<char> {
    "ollama"@
}

/// The Ollama provider's description.
pub open spec fn ollama_description_text() -> Seq<char> {
    "Local Ollama instance for running open-source models"@
}

/// The name of the Ollama provider.
pub fn ollama_name() -> (s: String)
    ensures
        s@ == ollama_name_text(),
{
    "ollama".to_string()
}

/// The description of the Ollama provider.
pub fn ollama_description() -> (s: String)
    ensures
        s@ == ollama_description_text(),
{
    "Local Ollama instance for running open-source models".to_string()
}

/// `http://HOST:PORT` for a configuration.
pub open spec fn base_url_text(config: OllamaConfig) -> Seq<char> {
    "http://"@ + config.host@ + ":"@ + decimal(config.port as nat)
}

/// The base URL of the Ollama server: `http://HOST:PORT`.
pub fn base_url(config: &OllamaConfig) -> (url: String)
    ensures
        url@ == base_url_text(*config),
{
    let mut url = concat_str("http://", config.host.as_str());
    url.append(":");
    let port = decimal_string(config.port as u64);
    url.append(port.as_str());
    url
}

/// The chat endpoint: `http://HOST:PORT/api/chat`.
pub fn chat_url(config: &OllamaConfig) -> (url: String)
    ensures
        url@ == base_url_text(*config) + "/api/chat"@,
{
    let mut url = base_url(config);
    url.append("/api/chat");
    url
}

/// The model-list endpoint: `http://HOST:PORT/api/tags`.
pub fn tags_url(config: &OllamaConfig) -> (url: String)
    ensures
        url@ == base_url_text(*config) + "/api/tags"@,
{
    let mut url = base_url(config);
    url.append("/api/tags");
    url
}

/// A chat message as Ollama takes it.
#[derive(Debug)]
pub struct OllamaMessage {
    pub role: String,
    pub content: String,
}

/// The role name Ollama uses; Ollama has no function role, so a function message is
/// sent as the user's.
pub open spec fn role_name(role: MessageRole) -> Seq<char> {
    match role {
        MessageRole::System => "system"@,
        MessageRole::User => "user"@,
        MessageRole::Assistant => "assistant"@,
        MessageRole::Function => "user"@,
    }
}

/// The role name Ollama uses for a message role.
pub fn ollama_role(role: MessageRole) -> (s: String)
    ensures
        s@ == role_name(role),
{
    match role {
        MessageRole::System => "system".to_string(),
        MessageRole::User => "user".to_string(),
        MessageRole::Assistant => "assistant".to_string(),
        MessageRole::Function => "user".to_string(),
    }
}

/// `out` is `messages` in Ollama's form, one for one and in order.
pub open spec fn converts_messages(messages: Seq<Message>, out: Seq<OllamaMessage>) -> bool {
    &&& out.len() == messages.len()
    &&& forall|i: int|
        0 <= i < messages.len() ==> {
            &&& (#[trigger] out[i]).role@ == role_name(messages[i].role)
            &&& out[i].content@ == messages[i].content@
        }
}

/// The messages in Ollama's form, one for one and in order.
pub fn to_ollama_messages(messages: &Vec<Message>) -> (out: Vec<OllamaMessage>)
    ensures
        converts_messages(messages@, out@),
{
    let mut out: Vec<OllamaMessage> = Vec::new();
    for i in 0..messages.len()
        invariant
            converts_messages(messages@.take(i as int), out@),
    {
        let m = &messages[i];
        out.push(OllamaMessage { role: ollama_role(m.role), content: m.content.clone() });
    }
    assert(messages@.take(messages.len() as int) =~= messages@);
    out
}

/// Sampling options as Ollama takes them; `temperature_bits` and `top_p_bits` hold the
/// bit patterns of `f32` values.
#[derive(Debug, Clone, Copy)]
pub struct OllamaOptions {
    pub temperature_bits: Option<u32>,
    pub top_p_bits: Option<u32>,
    pub seed: Option<i64>,
    pub num_predict: Option<i32>,
}

/// The options sent for a set of parameters: temperature and top-p as given, the seed
/// reinterpreted as `i64` and the token limit as `i32` (two's complement, as `as` does).
pub open spec fn options_for(p: ModelParameters) -> OllamaOptions {
    OllamaOptions {
        temperature_bits: p.temperature_bits,
        top_p_bits: p.top_p_bits,
        seed: match p.seed {
            Some(s) => Some(s as i64),
            None => None,
        },
        num_predict: match p.max_tokens {
            Some(t) => Some(t as i32),
            None => None,
        },
    }
}

/// The options sent to Ollama for a set of model parameters.
pub fn ollama_options(parameters: &ModelParameters) -> (o: OllamaOptions)
    ensures
        o == options_for(*parameters),
{
    OllamaOptions {
        temperature_bits: parameters.temperature_bits,
        top_p_bits: parameters.top_p_bits,
        seed: match parameters.seed {
            Some(s) => Some(s as i64),
            None => None,
        },
        num_predict: match parameters.max_tokens {
            Some(t) => Some(t as i32),
            None => None,
        },
    }
}

/// A chat request as Ollama takes it.
#[derive(Debug)]
pub struct OllamaChatRequest {
    pub model: String,
    pub messages: Vec<OllamaMessage>,
    pub stream: bool,
    pub options: Option<OllamaOptions>,
}

/// The chat request for a model, a conversation and its parameters; `stream` asks for
/// the answer in pieces.
pub fn chat_request(
    model: String,
    messages: &Vec<Message>,
    parameters: &ModelParameters,
    stream: bool,
) -> (r: OllamaChatRequest)
    ensures
        r.model == model,
        converts_messages(messages@, r.messages@),
        r.stream == stream,
        r.options == Some(options_for(*parameters)),
{
    OllamaChatRequest {
        model,
        messages: to_ollama_messages(messages),
        stream,
        options: Some(ollama_options(parameters)),
    }
}

/// The message in an Ollama chat answer.
#[derive(Debug)]
pub struct OllamaChatMessage {
    pub role: String,
    pub content: String,
}

/// An Ollama chat answer, or one piece of a streamed answer.
#[derive(Debug)]
pub struct OllamaChatResponse {
    pub message: Option<OllamaChatMessage>,
    pub done: bool,
    pub total_duration: Option<u64>,
    pub prompt_eval_count: Option<u32>,
    pub eval_count: Option<u32>,
}

/// The text of an answer: its message's content, or nothing.
pub open spec fn answer_text(r: OllamaChatResponse) -> Seq<char> {
    match r.message {
        Some(m) => m.content@,
        None => Seq::empty(),
    }
}

/// The usage of an answer that reports both counts; their sum fits in `u32`.
pub open spec fn counts_fit(r: OllamaChatResponse) -> bool {
    match (r.prompt_eval_count, r.eval_count) {
        (Some(p), Some(c)) => p + c <= u32::MAX,
        _ => true,
    }
}

/// Token usage of an answer: present when the answer reports both counts.
pub open spec fn answer_usage(r: OllamaChatResponse) -> Option<Usage> {
    match (r.prompt_eval_count, r.eval_count) {
        (Some(p), Some(c)) => Some(
            Usage { prompt_tokens: p, completion_tokens: c, total_tokens: (p + c) as u32 },
        ),
        _ => None,
    }
}

/// Whether the token counts of an answer can be added up without overflow.
pub fn answer_counts_fit(r: &OllamaChatResponse) -> (b: bool)
    ensures
        b == counts_fit(*r),
{
    match (r.prompt_eval_count, r.eval_count) {
        (Some(p), Some(c)) => p <= u32::MAX - c,
        _ => true,
    }
}

/// The model response for an Ollama answer: the answer's text, its usage, finish reason
/// `stop`, and no metadata.
pub fn model_response(query_id: Uuid, model: String, answer: OllamaChatResponse) -> (r:
    ModelResponse)
    requires
        counts_fit(answer),
    ensures
        r.query_id == query_id,
        r.model == model,
        r.content@ == answer_text(answer),
        r.usage == answer_usage(answer),
        answer.message matches Some(msg) ==> r.content@ == msg.content@,
        answer.message is None ==> r.content@.len() == 0,
        answer.prompt_eval_count is Some && answer.eval_count is Some ==> {
            &&& r.usage is Some
            &&& r.usage.unwrap().prompt_tokens == answer.prompt_eval_count.unwrap()
            &&& r.usage.unwrap().completion_tokens == answer.eval_count.unwrap()
            &&& r.usage.unwrap().total_tokens == answer.prompt_eval_count.unwrap()
                + answer.eval_count.unwrap()
        },
        !(answer.prompt_eval_count is Some && answer.eval_count is Some) ==> r.usage is None,
        opt_view(r.finish_reason) == Some("stop"@),
        r.metadata@ == Map::<String, serde_json::Value>::empty(),
{
    let usage = match (answer.prompt_eval_count, answer.eval_count) {
        (Some(p), Some(c)) => Some(
            Usage { prompt_tokens: p, completion_tokens: c, total_tokens: p + c },
        ),
        _ => None,
    };
    let content = match answer.message {
        Some(m) => m.content,
        None => String::new(),
    };
    ModelResponse {
        query_id,
        model,
        content,
        usage,
        finish_reason: Some("stop".to_string()),
        metadata: HashMap::new(),
    }
}

/// The model response for an Ollama answer, under a fresh query id.
pub fn answer_query(model: String, answer: OllamaChatResponse) -> (r: ModelResponse)
    requires
        counts_fit(answer),
    ensures
        r.model == model,
        r.content@ == answer_text(answer),
        r.usage == answer_usage(answer),
        opt_view(r.finish_reason) == Some("stop"@),
        r.metadata@ == Map::<String, serde_json::Value>::empty(),
{
    let query_id = new_uuid();
    model_response(query_id, model, answer)
}

/// A model in Ollama's model list.
#[derive(Debug)]
pub struct OllamaModel {
    pub name: String,
    pub parameter_size: Option<String>,
}

/// The capabilities reported for every Ollama model.
pub open spec fn ollama_model_capabilities() -> Seq<Seq<char>> {
    seq!["chat"@, "completion"@]
}

/// `infos` describes `models` one for one and in order.
pub open spec fn describes_models(models: Seq<OllamaModel>, infos: Seq<ModelInfo>) -> bool {
    &&& infos.len() == models.len()
    &&& forall|i: int|
        0 <= i < models.len() ==> {
            &&& (#[trigger] infos[i]).name@ == models[i].name@
            &&& infos[i].description == models[i].parameter_size
            &&& infos[i].context_length is None
            &&& views(infos[i].capabilities@) == ollama_model_capabilities()
        }
}

/// The model information for Ollama's model list: the name, the parameter size as the
/// description, no context length (the list does not give it), chat and completion.
pub fn models_from_list(models: &Vec<OllamaModel>) -> (infos: Vec<ModelInfo>)
    ensures
        describes_models(models@, infos@),
{
    let mut infos: Vec<ModelInfo> = Vec::new();
    for i in 0..models.len()
        invariant
            describes_models(models@.take(i as int), infos@),
    {
        let m = &models[i];
        let mut caps: Vec<String> = Vec::new();
        caps.push("chat".to_string());
        caps.push("completion".to_string());
        assert(views(caps@) =~= ollama_model_capabilities());
        infos.push(
            ModelInfo {
                name: m.name.clone(),
                description: clone_opt_string(&m.parameter_size),
                context_length: None,
                capabilities: caps,
            },
        );
    }
    assert(models@.take(models.len() as int) =~= models@);
    infos
}

/// What came of asking Ollama for its model list, as a health probe.
#[derive(Debug)]
pub enum HealthProbe {
    /// The server answered with a success status.
    Answered,
    /// The server answered with another status, shown as this text.
    Refused(String),
    /// The server could not be reached, for the reason in this text.
    Unreachable(String),
}

/// The health status for a probe.
pub open spec fn probe_health_text(probe: HealthProbe) -> Option<Seq<char>> {
    match probe {
        HealthProbe::Answered => None,
        HealthProbe::Refused(s) => Some("Ollama returned status: "@ + s@),
        HealthProbe::Unreachable(s) => Some("Cannot connect to Ollama: "@ + s@),
    }
}

/// The health of the Ollama provider from a probe: healthy when the server answers with
/// success, degraded when it answers otherwise, unhealthy when it cannot be reached.
pub fn health_from_probe(probe: HealthProbe) -> (h: HealthStatus)
    ensures
        match probe {
            HealthProbe::Answered => h is Healthy,
            HealthProbe::Refused(s) => h matches HealthStatus::Degraded(m) && m@
                == "Ollama returned status: "@ + s@,
            HealthProbe::Unreachable(s) => h matches HealthStatus::Unhealthy(m) && m@
                == "Cannot connect to Ollama: "@ + s@,
        },
{
    match probe {
        HealthProbe::Answered => HealthStatus::Healthy,
        HealthProbe::Refused(s) => HealthStatus::Degraded(
            concat_str("Ollama returned status: ", s.as_str()),
        ),
        HealthProbe::Unreachable(s) => HealthStatus::Unhealthy(
            concat_str("Cannot connect to Ollama: ", s.as_str()),
        ),
    }
}

/// The ways an exchange with Ollama can fail, each with the text that explains it.
#[derive(Debug)]
pub enum OllamaFailure {
    /// A chat request could not be sent.
    SendFailed(String),
    /// Ollama answered a chat request with an error status, and this body if it could be read.
    Rejected(Option<String>),
    /// A chat answer could not be read.
    Unreadable(String),
    /// The model list could not be requested.
    ListUnreachable(String),
    /// Ollama answered the model-list request with an error status, and this body if it
    /// could be read.
    ListRejected(Option<String>),
    /// The model list could not be read.
    ListUnreadable(String),
    /// A streamed answer broke off.
    StreamBroken(String),
}

/// The body text of an error answer, or `Unknown error` where it could not be read.
pub open spec fn body_or_unknown(body: Option<String>) -> Seq<char> {
    match body {
        Some(b) => b@,
        None => "Unknown error"@,
    }
}

/// The error that reports a failure.
pub open spec fn failure_reported(f: OllamaFailure, e: BridgeError) -> bool {
    match f {
        OllamaFailure::SendFailed(d) => e matches BridgeError::Provider(m) && m@
            == "Failed to send request: "@ + d@,
        OllamaFailure::Rejected(b) => e matches BridgeError::Provider(m) && m@
            == "Ollama API error: "@ + body_or_unknown(b),
        OllamaFailure::Unreadable(d) => e matches BridgeError::Provider(m) && m@
            == "Failed to parse response: "@ + d@,
        OllamaFailure::ListUnreachable(d) => e matches BridgeError::Provider(m) && m@
            == "Failed to list models: "@ + d@,
        OllamaFailure::ListRejected(b) => e matches BridgeError::Provider(m) && m@
            == "Failed to list models: "@ + body_or_unknown(b),
        OllamaFailure::ListUnreadable(d) => e matches BridgeError::Provider(m) && m@
            == "Failed to parse models: "@ + d@,
        OllamaFailure::StreamBroken(d) => e matches BridgeError::Stream(m) && m@
            == "Stream error: "@ + d@,
    }
}

fn body_text(body: Option<String>) -> (t: String)
    ensures
        t@ == body_or_unknown(body),
{
    match body {
        Some(b) => b,
        None => "Unknown error".to_string(),
    }
}

/// The bridge error that reports a failed exchange with Ollama.
pub fn failure_error(f: OllamaFailure) -> (e: BridgeError)
    ensures
        failure_reported(f, e),
{
    match f {
        OllamaFailure::SendFailed(d) => BridgeError::Provider(
            concat_str("Failed to send request: ", d.as_str()),
        ),
        OllamaFailure::Rejected(b) => {
            let t = body_text(b);
            BridgeError::Provider(concat_str("Ollama API error: ", t.as_str()))
        },
        OllamaFailure::Unreadable(d) => BridgeError::Provider(
            concat_str("Failed to parse response: ", d.as_str()),
        ),
        OllamaFailure::ListUnreachable(d) => BridgeError::Provider(
            concat_str("Failed to list models: ", d.as_str()),
        ),
        OllamaFailure::ListRejected(b) => {
            let t = body_text(b);
            BridgeError::Provider(concat_str("Failed to list models: ", t.as_str()))
        },
        OllamaFailure::ListUnreadable(d) => BridgeError::Provider(
            concat_str("Failed to parse models: ", d.as_str()),
        ),
        OllamaFailure::StreamBroken(d) => BridgeError::Stream(
            concat_str("Stream error: ", d.as_str()),
        ),
    }
}

/// Index of the first line break in `s`, if there is one.
pub open spec fn first_newline(s: Seq<char>) -> Option<nat>
    decreases s.len(),
{
    if s.len() == 0 {
        None
    } else if s[0] == '\n' {
        Some(0)
    } else {
        match first_newline(s.drop_first()) {
            Some(i) => Some(i + 1),
            None => None,
        }
    }
}

/// The next non-blank line of streamed text, trimmed, and the text that remains after its
/// line break. Blank lines before it are dropped; without a complete non-blank line the
/// result is no line and the text after the last line break.
pub open spec fn next_line_of(s: Seq<char>) -> (Option<Seq<char>>, Seq<char>)
    decreases s.len(),
{
    match first_newline(s) {
        None => (None, s),
        Some(i) => {
            if i < s.len() {
                let line = trimmed(s.take(i as int));
                let rest = s.skip(i as int + 1);
                if line.len() == 0 {
                    next_line_of(rest)
                } else {
                    (Some(line), rest)
                }
            } else {
                (None, s)
            }
        },
    }
}

proof fn lemma_first_newline_bound(s: Seq<char>)
    ensures
        first_newline(s) matches Some(i) ==> i < s.len() && s[i as int] == '\n',
    decreases s.len(),
{
    if s.len() > 0 && s[0] != '\n' {
        lemma_first_newline_bound(s.drop_first());
    }
}

proof fn lemma_first_newline_scan(s: Seq<char>, k: int)
    requires
        0 <= k <= s.len(),
        forall|j: int| 0 <= j < k ==> s[j] != '\n',
    ensures
        k < s.len() && s[k] == '\n' ==> first_newline(s) == Some(k as nat),
        k == s.len() ==> first_newline(s) is None,
    decreases k,
{
    if k > 0 {
        let t = s.drop_first();
        assert forall|j: int| 0 <= j < k - 1 implies t[j] != '\n' by {
            assert(t[j] == s[j + 1]);
        }
        lemma_first_newline_scan(t, k - 1);
    } else if s.len() > 0 {
    }
}

/// Reassembles the lines of Ollama's streamed answer from the bytes as they arrive, and
/// keeps the running token counts of the answer. Taking lines pauses after the last piece
/// of the answer is read, or when the reader asks; the next bytes resume it.
pub struct StreamDecoder {
    buffer: Vec<char>,
    prompt_tokens: u32,
    completion_tokens: u32,
    paused: bool,
}

/// The token counts after reading an answer piece: a count it reports replaces the one kept.
pub open spec fn updated_count(kept: u32, reported: Option<u32>) -> u32 {
    match reported {
        Some(n) => n,
        None => kept,
    }
}

impl StreamDecoder {
    /// Text received that no line has taken yet.
    pub closed spec fn pending(&self) -> Seq<char> {
        self.buffer@
    }

    /// Taking lines is paused until more bytes arrive.
    pub closed spec fn is_paused(&self) -> bool {
        self.paused
    }

    /// The last prompt-token count the answer reported (zero before any).
    pub closed spec fn prompt_total(&self) -> u32 {
        self.prompt_tokens
    }

    /// The last completion-token count the answer reported (zero before any).
    pub closed spec fn completion_total(&self) -> u32 {
        self.completion_tokens
    }

    /// A decoder with no text pending and both counts zero.
    pub fn new() -> (d: Self)
        ensures
            d.pending() == Seq::<char>::empty(),
            d.prompt_total() == 0,
            d.completion_total() == 0,
            !d.is_paused(),
    {
        StreamDecoder { buffer: Vec::new(), prompt_tokens: 0, completion_tokens: 0, paused: false }
    }

    /// Stops taking lines until more bytes arrive.
    pub fn pause(&mut self)
        ensures
            final(self).pending() == old(self).pending(),
            final(self).prompt_total() == old(self).prompt_total(),
            final(self).completion_total() == old(self).completion_total(),
            final(self).is_paused(),
    {
        self.paused = true;
    }

    /// Takes a piece of the answer's bytes, decoded on its own (invalid UTF-8 becomes U+FFFD;
    /// valid UTF-8 decodes exactly), and resumes taking lines.
    pub fn push_bytes(&mut self, bytes: &[u8])
        ensures
            !final(self).is_paused(),
            final(self).pending() == old(self).pending() + utf8_lossy(bytes@),
            vstd::utf8::valid_utf8(bytes@) ==> final(self).pending() == old(self).pending()
                + vstd::utf8::decode_utf8(bytes@),
            final(self).prompt_total() == old(self).prompt_total(),
            final(self).completion_total() == old(self).completion_total(),
    {
        let text = decode_utf8_lossy(bytes);
        let chars = chars_of(text.as_str());
        let ghost before = self.buffer@;
        self.paused = false;
        for i in 0..chars.len()
            invariant
                self.buffer@ == before + chars@.take(i as int),
                self.prompt_tokens == old(self).prompt_tokens,
                self.completion_tokens == old(self).completion_tokens,
                before == old(self).buffer@,
                !self.paused,
        {
            self.buffer.push(chars[i]);
            assert(chars@.take(i + 1) =~= chars@.take(i as int).push(chars@[i as int]));
        }
        assert(chars@.take(chars.len() as int) =~= chars@);
    }

    /// The next complete non-blank line, trimmed; blank lines before it are dropped. While
    /// taking lines is paused, there is none and nothing is taken.
    pub fn next_line(&mut self) -> (line: Option<String>)
        ensures
            !old(self).is_paused() ==> opt_view(line) == next_line_of(old(self).pending()).0,
            !old(self).is_paused() ==> final(self).pending() == next_line_of(old(self).pending()).1,
            old(self).is_paused() ==> line is None && final(self).pending() == old(self).pending(),
            final(self).is_paused() == old(self).is_paused(),
            final(self).prompt_total() == old(self).prompt_total(),
            final(self).completion_total() == old(self).completion_total(),
    {
        if self.paused {
            return None;
        }
        loop
            invariant
                !self.paused,
                !old(self).paused,
                next_line_of(self.buffer@) == next_line_of(old(self).buffer@),
                self.prompt_tokens == old(self).prompt_tokens,
                self.completion_tokens == old(self).completion_tokens,
            decreases self.buffer@.len(),
        {
            let n = self.buffer.len();
            let mut k: usize = 0;
            while k < n && self.buffer[k] != '\n'
                invariant
                    k <= n,
                    n == self.buffer@.len(),
                    forall|j: int| 0 <= j < k ==> self.buffer@[j] != '\n',
                decreases n - k,
            {
                k = k + 1;
            }
            proof {
                lemma_first_newline_scan(self.buffer@, k as int);
            }
            if k == n {
                return None;
            }
            let mut head: Vec<char> = Vec::new();
            for j in 0..k
                invariant
                    k < n,
                    n == self.buffer@.len(),
                    head@ == self.buffer@.take(j as int),
            {
                head.push(self.buffer[j]);
                assert(head@ =~= self.buffer@.take(j + 1));
            }
            let mut rest: Vec<char> = Vec::new();
            for j in (k + 1)..n
                invariant
                    k < n,
                    n == self.buffer@.len(),
                    rest@ == self.buffer@.subrange(k + 1, j as int),
            {
                rest.push(self.buffer[j]);
                assert(rest@ =~= self.buffer@.subrange(k + 1, j + 1));
            }
            let line = trim_chars(&head);
            let ghost whole = self.buffer@;
            assert(head@ =~= whole.take(k as int));
            assert(rest@ =~= whole.skip(k + 1));
            self.buffer = rest;
            if line.len() > 0 {
                return Some(string_from_chars(&line));
            }
        }
    }

    /// The count sums that reading `answer` would report fit in `u32` where the answer is
    /// the last piece.
    pub open spec fn answer_fits(&self, answer: OllamaChatResponse) -> bool {
        answer.done ==> updated_count(self.prompt_total(), answer.prompt_eval_count)
            + updated_count(self.completion_total(), answer.eval_count) <= u32::MAX
    }

    /// Whether reading `answer` keeps the reported total within `u32`.
    pub fn can_read(&self, answer: &OllamaChatResponse) -> (b: bool)
        ensures
            b == self.answer_fits(*answer),
    {
        if !answer.done {
            return true;
        }
        let p = match answer.prompt_eval_count {
            Some(n) => n,
            None => self.prompt_tokens,
        };
        let c = match answer.eval_count {
            Some(n) => n,
            None => self.completion_tokens,
        };
        p <= u32::MAX - c
    }

    /// The chunk for one piece of the streamed answer: its text, whether it is the last,
    /// and, for the last, the usage from the counts reported so far.
    pub fn read_answer(&mut self, answer: OllamaChatResponse) -> (chunk: StreamChunk)
        requires
            old(self).answer_fits(answer),
        ensures
            final(self).prompt_total() == updated_count(
                old(self).prompt_total(),
                answer.prompt_eval_count,
            ),
            final(self).completion_total() == updated_count(
                old(self).completion_total(),
                answer.eval_count,
            ),
            final(self).pending() == old(self).pending(),
            final(self).is_paused() == (old(self).is_paused() || answer.done),
            chunk.content@ == answer_text(answer),
            answer.message matches Some(msg) ==> chunk.content@ == msg.content@,
            answer.message is None ==> chunk.content@.len() == 0,
            answer.prompt_eval_count matches Some(n) ==> final(self).prompt_total() == n,
            answer.eval_count matches Some(n) ==> final(self).completion_total() == n,
            chunk.is_final == answer.done,
            chunk.usage == (if answer.done {
                Some(
                    Usage {
                        prompt_tokens: final(self).prompt_total(),
                        completion_tokens: final(self).completion_total(),
                        total_tokens: (final(self).prompt_total()
                            + final(self).completion_total()) as u32,
                    },
                )
            } else {
                None
            }),
    {
        if let Some(n) = answer.prompt_eval_count {
            self.prompt_tokens = n;
        }
        if let Some(n) = answer.eval_count {
            self.completion_tokens = n;
        }
        let content = match answer.message {
            Some(m) => m.content,
            None => String::new(),
        };
        if answer.done {
            self.paused = true;
        }
        let usage = if answer.done {
            Some(
                Usage {
                    prompt_tokens: self.prompt_tokens,
                    completion_tokens: self.completion_tokens,
                    total_tokens: self.prompt_tokens + self.completion_tokens,
                },
            )
        } else {
            None
        };
        StreamChunk { content, is_final: answer.done, usage }
    }
}

/// A piece of an answer is passed on as it came: its text is its message's content,
/// character for character (leading and trailing spaces included), or nothing where it
/// has no message.
pub proof fn lemma_answer_text_as_received(a: OllamaChatResponse)
    ensures
        a.message matches Some(msg) ==> answer_text(a).len() == msg.content@.len() && forall|i: int|
            0 <= i < msg.content@.len() ==> #[trigger] answer_text(a)[i] == msg.content@[i],
        a.message is None ==> answer_text(a).len() == 0,
{
}

/// Pieces streamed one after another read as their contents put together: the text of
/// two pieces is the first content followed by the second.
pub proof fn lemma_answer_texts_concatenate(a: OllamaChatResponse, b: OllamaChatResponse)
    requires
        a.message is Some,
        b.message is Some,
    ensures
        answer_text(a) + answer_text(b) == a.message.unwrap().content@ + b.message.unwrap().content@,
{
}

/// The usage of an answer is the counts it reports, each in its place: the prompt count
/// as prompt tokens, the answer's count as completion tokens, and their sum as the total;
/// an answer missing either count has no usage.
pub proof fn lemma_usage_as_reported(a: OllamaChatResponse)
    requires
        counts_fit(a),
    ensures
        a.prompt_eval_count is Some && a.eval_count is Some ==> {
            &&& answer_usage(a) is Some
            &&& answer_usage(a).unwrap().prompt_tokens == a.prompt_eval_count.unwrap()
            &&& answer_usage(a).unwrap().completion_tokens == a.eval_count.unwrap()
            &&& answer_usage(a).unwrap().total_tokens == a.prompt_eval_count.unwrap()
                + a.eval_count.unwrap()
        },
        a.prompt_eval_count is None || a.eval_count is None ==> answer_usage(a) is None,
{
}

/// A count that a piece reports replaces the one kept; one it does not report leaves it.
pub proof fn lemma_reported_count_replaces(kept: u32, reported: Option<u32>)
    ensures
        reported matches Some(n) ==> updated_count(kept, reported) == n,
        reported is None ==> updated_count(kept, reported) == kept,
{
}

proof fn lemma_first_newline_prefix(s: Seq<char>)
    ensures
        first_newline(s) matches Some(i) ==> i < s.len() && s[i as int] == '\n' && forall|j: int|
            0 <= j < i ==> s[j] != '\n',
        first_newline(s) is None ==> forall|j: int| 0 <= j < s.len() ==> s[j] != '\n',
    decreases s.len(),
{
    if s.len() > 0 && s[0] != '\n' {
        let t = s.drop_first();
        lemma_first_newline_prefix(t);
        assert forall|j: int| 1 <= j < s.len() implies s[j] == t[j - 1] by {}
    }
}

/// Lines are taken from the front of the streamed text, in order: what remains is a
/// suffix of the text; a line that is given is non-empty and holds no line break; and
/// where no line is given, no line break remains.
pub proof fn lemma_lines_taken_in_order(s: Seq<char>)
    ensures
        exists|k: int| 0 <= k <= s.len() && next_line_of(s).1 == #[trigger] s.skip(k),
        next_line_of(s).0 is None ==> forall|j: int|
            0 <= j < next_line_of(s).1.len() ==> next_line_of(s).1[j] != '\n',
        next_line_of(s).0 matches Some(l) ==> l.len() > 0 && forall|j: int|
            0 <= j < l.len() ==> l[j] != '\n',
    decreases s.len(),
{
    lemma_first_newline_prefix(s);
    match first_newline(s) {
        None => {
            assert(s.skip(0) =~= s);
        },
        Some(i) => {
            let line = trimmed(s.take(i as int));
            let rest = s.skip(i as int + 1);
            if line.len() == 0 {
                lemma_lines_taken_in_order(rest);
                let k = choose|k: int| 0 <= k <= rest.len() && next_line_of(rest).1 == #[trigger] rest.skip(k);
                assert(rest.skip(k) =~= s.skip(i + 1 + k));
            } else {
                let x = s.take(i as int);
                let lo = crate::text::first_non_space(x);
                let hi = crate::text::last_non_space_end(x);
                crate::text::lemma_last_non_space_bound(x);
                assert forall|j: int| 0 <= j < line.len() implies line[j] != '\n' by {
                    assert(line[j] == x[lo + j]);
                }
            }
        },
    }
}

} // verus!
