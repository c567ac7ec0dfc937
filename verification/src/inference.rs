//! Inference clients that an agent can be built with: provider names, the
//! deterministic mock client, token usage and finish reasons.

use vstd::prelude::*;
use vstd::string::StringExecFns;

use crate::text::str_eq;

verus! {

/// The model provider a client speaks for.
#[derive(Debug, Clone, Copy, PartialEq, Eq, Structural)]
pub enum Provider {
    OpenAi,
    Anthropic,
    Gemini,
}

/// Token counts of one model call.
#[derive(Debug, Clone, Copy, PartialEq, Eq, Structural)]
pub struct PyTokenUsage {
    pub input_tokens: u32,
    pub output_tokens: u32,
    pub reasoning_tokens: u32,
    pub cached_tokens: u32,
}

impl PyTokenUsage {
    pub fn new(input_tokens: u32, output_tokens: u32, reasoning_tokens: u32, cached_tokens: u32) -> (r: Self)
        ensures
            r == (PyTokenUsage { input_tokens, output_tokens, reasoning_tokens, cached_tokens }),
    {
        PyTokenUsage { input_tokens, output_tokens, reasoning_tokens, cached_tokens }
    }

    /// Input plus output tokens.
    pub fn total_tokens(&self) -> (r: u32)
        requires
            self.input_tokens + self.output_tokens <= u32::MAX,
        ensures
            r == self.input_tokens + self.output_tokens,
    {
        self.input_tokens + self.output_tokens
    }
}

/// Why a model stopped.
#[derive(Debug, Clone, Copy, PartialEq, Eq, Structural)]
pub enum FinishReason {
    Stop,
    Length,
    ToolCalls,
    ContentFilter,
    Error,
}

pub open spec fn finish_reason_name(r: FinishReason) -> Seq<char> {
    match r {
        FinishReason::Stop => "stop"@,
        FinishReason::Length => "length"@,
        FinishReason::ToolCalls => "tool_calls"@,
        FinishReason::ContentFilter => "content_filter"@,
        FinishReason::Error => "error"@,
    }
}

pub open spec fn is_finish_reason_name(s: Seq<char>) -> bool {
    s == "stop"@ || s == "length"@ || s == "tool_calls"@ || s == "content_filter"@ || s == "error"@
}

/// A finish reason by name.
#[derive(Debug)]
pub struct PyFinishReason {
    inner: String,
}

/// A finish reason name that is not one of the five.
#[derive(Debug)]
pub struct UnknownFinishReason {
    pub name: String,
}

impl PyFinishReason {
    pub closed spec fn spec_name(&self) -> Seq<char> {
        self.inner@
    }

    pub fn new(name: &str) -> (r: Result<Self, UnknownFinishReason>)
        ensures
            match r {
                Ok(f) => is_finish_reason_name(name@) && f.spec_name() == name@,
                Err(e) => !is_finish_reason_name(name@) && e.name@ == name@,
            },
    {
        if str_eq(name, "stop") || str_eq(name, "length") || str_eq(name, "tool_calls") || str_eq(
            name,
            "content_filter",
        ) || str_eq(name, "error") {
            Ok(PyFinishReason { inner: String::from_str(name) })
        } else {
            Err(UnknownFinishReason { name: String::from_str(name) })
        }
    }

    pub fn name(&self) -> (r: &str)
        ensures
            r@ == self.spec_name(),
    {
        self.inner.as_str()
    }

    /// The named form of a finish reason.
    pub fn from(r: FinishReason) -> (f: Self)
        ensures
            f.spec_name() == finish_reason_name(r),
    {
        let s = match r {
            FinishReason::Stop => "stop",
            FinishReason::Length => "length",
            FinishReason::ToolCalls => "tool_calls",
            FinishReason::ContentFilter => "content_filter",
            FinishReason::Error => "error",
        };
        PyFinishReason { inner: String::from_str(s) }
    }
}

/// Every finish reason's name is accepted back and names it.
pub proof fn law_finish_reason_names(r: FinishReason)
    ensures
        is_finish_reason_name(finish_reason_name(r)),
{
}

/// The fixed names of the finish reasons, and no other name is one.
pub proof fn law_finish_reason_literals(s: Seq<char>)
    ensures
        finish_reason_name(FinishReason::Stop) == "stop"@,
        finish_reason_name(FinishReason::Length) == "length"@,
        finish_reason_name(FinishReason::ToolCalls) == "tool_calls"@,
        finish_reason_name(FinishReason::ContentFilter) == "content_filter"@,
        finish_reason_name(FinishReason::Error) == "error"@,
        is_finish_reason_name(s) <==> (s == "stop"@ || s == "length"@ || s == "tool_calls"@ || s
            == "content_filter"@ || s == "error"@),
{
}

/// The result of one model turn.
#[derive(Debug)]
pub struct TurnResult {
    pub text: String,
    pub usage: PyTokenUsage,
    pub finish_reason: Option<FinishReason>,
    pub tool_calls: Vec<String>,
}

/// The text that the mock provider answers with.
pub open spec fn mock_reply_text() -> Seq<char> {
    "[mock] PyAgent.run_turn smoke response"@
}

/// The output-token estimate of a text: a quarter of its characters,
/// rounded up, cut down to 32 bits.
pub open spec fn approx_tokens(n: nat) -> u32 {
    ((n + 3) / 4) as u32
}

/// The output-token estimate of a text of `n` characters is the least
/// number of tokens that covers the text at four characters a token, where
/// that number fits in 32 bits.
pub proof fn law_approx_tokens(n: nat)
    requires
        (n + 3) / 4 <= u32::MAX,
    ensures
        4 * approx_tokens(n) >= n,
        4 * approx_tokens(n) < n + 4,
{
    let q = (n + 3) / 4;
    assert(4 * q <= n + 3 && n + 3 < 4 * q + 4) by (nonlinear_arith)
        requires
            q == (n + 3) / 4,
    ;
    assert(approx_tokens(n) == q);
}

/// A client that answers every turn with the same text.
#[derive(Debug)]
pub struct MockInferenceClient {
    text: String,
    provider: Provider,
}

impl MockInferenceClient {
    pub closed spec fn spec_text(&self) -> Seq<char> {
        self.text@
    }

    pub fn new(text: String) -> (r: Self)
        ensures
            r.spec_text() == text@,
            r.spec_provider() == Provider::OpenAi,
    {
        MockInferenceClient { text, provider: Provider::OpenAi }
    }

    pub closed spec fn spec_provider(&self) -> Provider {
        self.provider
    }

    pub fn provider(&self) -> (r: Provider)
        ensures
            r == self.spec_provider(),
    {
        self.provider
    }

    /// One turn: the client's text, with no input tokens counted and the
    /// output estimated from the text's length, finished by `Stop`, with
    /// no tool calls.
    pub fn run(&self) -> (r: TurnResult)
        ensures
            r.text@ == self.spec_text(),
            r.usage == (PyTokenUsage {
                input_tokens: 0,
                output_tokens: approx_tokens(self.spec_text().len()),
                reasoning_tokens: 0,
                cached_tokens: 0,
            }),
            r.finish_reason == Some(FinishReason::Stop),
            r.tool_calls@.len() == 0,
    {
        let n = self.text.as_str().unicode_len();
        let wide: u128 = (n as u128 + 3) / 4;
        let approx = wide as u32;
        TurnResult {
            text: self.text.clone(),
            usage: PyTokenUsage {
                input_tokens: 0,
                output_tokens: approx,
                reasoning_tokens: 0,
                cached_tokens: 0,
            },
            finish_reason: Some(FinishReason::Stop),
            tool_calls: Vec::new(),
        }
    }
}

/// Why no client can be built for a provider name.
#[derive(Debug)]
pub enum InferenceError {
    /// A known provider that this build does not wire.
    NotWired { provider: String },
    /// A name that is no provider.
    UnknownProvider { provider: String },
}

/// Builds the client for a provider name: `mock` gives the mock client;
/// `anthropic`, `openai` and `gemini` are known but not wired; any other
/// name is unknown.
pub fn build_inference_client(provider: &str) -> (r: Result<MockInferenceClient, InferenceError>)
    ensures
        provider@ == "mock"@ <==> r is Ok,
        r matches Ok(c) ==> c.spec_text() == mock_reply_text() && c.spec_provider() == Provider::OpenAi,
        r matches Err(InferenceError::NotWired { provider: p }) ==> p@ == provider@ && (provider@
            == "anthropic"@ || provider@ == "openai"@ || provider@ == "gemini"@),
        r matches Err(InferenceError::UnknownProvider { provider: p }) ==> p@ == provider@ && !(
        provider@ == "anthropic"@ || provider@ == "openai"@ || provider@ == "gemini"@),
{
    if str_eq(provider, "mock") {
        Ok(MockInferenceClient::new(String::from_str("[mock] PyAgent.run_turn smoke response")))
    } else if str_eq(provider, "anthropic") || str_eq(provider, "openai") || str_eq(provider, "gemini") {
        Err(InferenceError::NotWired { provider: String::from_str(provider) })
    } else {
        Err(InferenceError::UnknownProvider { provider: String::from_str(provider) })
    }
}

/// What an LLM cache is keyed by: the model and hashes of the messages
/// and of the sampling settings.
#[derive(Debug)]
pub struct PyCacheKey {
    pub model: String,
    pub messages_hash: u64,
    pub sampling_hash: u64,
}

impl PyCacheKey {
    pub fn new(model: String, messages_hash: u64, sampling_hash: u64) -> (r: Self)
        ensures
            r.model@ == model@,
            r.messages_hash == messages_hash,
            r.sampling_hash == sampling_hash,
    {
        PyCacheKey { model, messages_hash, sampling_hash }
    }
}

/// A turn kept in an LLM cache.
#[derive(Debug)]
pub struct PyCachedTurn {
    pub text: String,
    pub usage: PyTokenUsage,
    pub finish_reason: Option<FinishReason>,
}

impl PyCachedTurn {
    /// A cached turn: usage counts are zero where none are given, and any
    /// finish reason given is kept as `Stop`.
    pub fn new(text: String, usage: Option<PyTokenUsage>, finish_reason: Option<PyFinishReason>) -> (r: Self)
        ensures
            r.text@ == text@,
            r.usage == match usage {
                Some(u) => u,
                None => PyTokenUsage { input_tokens: 0, output_tokens: 0, reasoning_tokens: 0, cached_tokens: 0 },
            },
            r.finish_reason == match finish_reason {
                Some(_) => Some(FinishReason::Stop),
                None => None::<FinishReason>,
            },
    {
        let usage = match usage {
            Some(u) => u,
            None => PyTokenUsage { input_tokens: 0, output_tokens: 0, reasoning_tokens: 0, cached_tokens: 0 },
        };
        let finish_reason = match finish_reason {
            Some(_) => Some(FinishReason::Stop),
            None => None,
        };
        PyCachedTurn { text, usage, finish_reason }
    }
}

} // verus!
