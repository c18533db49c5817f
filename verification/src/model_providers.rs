//! Chat model providers: the OpenAI-compatible chat completions API and the
//! Anthropic Messages API.  A provider turns the conversation and the tools
//! into the request's parts, reads the response into a model turn, and
//! decides on retries.
//!
//! Sending the request, and reading the JSON response into the plain
//! values below, are the caller's part.
use vstd::prelude::*;

use crate::event_map::{opt_view, ModelStopReason, ToolCall};
use crate::provider_config::{AnthropicConfig, OpenAiConfig};
use crate::state_projection::{ChatMessage, Role};
use crate::text::{push_str, str_eq, u64_to_decimal, decimal};
use crate::tools::ToolDefinition;

verus! {

/// The JSON text `text` parses to, written back compactly, when it parses.
pub uninterp spec fn json_reserialized(text: Seq<char>) -> Option<Seq<char>>;

/// `serde_json::from_str` to a `Value`, then `Value::to_string`.  Trusted:
/// the answer is named `json_reserialized`.
#[verifier::external_body]
fn reserialize_json(text: &str) -> (r: Option<String>)
    ensures
        match r {
            Some(t) => json_reserialized(text@) == Some(t@),
            None => json_reserialized(text@) is None,
        },
{
    serde_json::from_str::<serde_json::Value>(text).ok().map(|v| v.to_string())
}

/// Token counts of a model call.
pub struct TokenUsage {
    pub input_tokens: u64,
    pub output_tokens: u64,
    pub cache_read_tokens: u64,
    pub cache_creation_tokens: u64,
}

/// What the model asked for: text, or a tool call.
pub enum ModelDirective {
    Text { delta: String },
    ToolCall { call: ToolCall },
}

/// A directive as plain values: the text, or the call's id, tool and input.
pub enum DirectiveV {
    Text(Seq<char>),
    Call(Seq<char>, Seq<char>, Seq<char>),
}

/// The plain values of a directive.
pub open spec fn directive_view(d: ModelDirective) -> DirectiveV {
    match d {
        ModelDirective::Text { delta } => DirectiveV::Text(delta@),
        ModelDirective::ToolCall { call } => DirectiveV::Call(call.call_id@, call.tool_name@, call.input@),
    }
}

/// The plain values of directives.
pub open spec fn directives_view(v: Seq<ModelDirective>) -> Seq<DirectiveV> {
    v.map_values(|d: ModelDirective| directive_view(d))
}

/// One model turn: what it asked for, why it stopped, and its usage.
pub struct ModelTurn {
    pub directives: Vec<ModelDirective>,
    pub stop_reason: ModelStopReason,
    pub usage: Option<TokenUsage>,
}

/// The name a role is sent under in the chat completions API.
pub open spec fn openai_role(r: Role) -> Seq<char> {
    match r {
        Role::System => "system"@,
        Role::User => "user"@,
        Role::Assistant => "assistant"@,
        Role::Tool => "tool"@,
    }
}

/// A chat completions message.
pub struct OpenAiMessage {
    pub role: String,
    pub content: Option<String>,
    pub tool_call_id: Option<String>,
}

/// A chat completions tool: always of type `function`, strict.
pub struct OpenAiTool {
    pub tool_type: String,
    pub name: String,
    pub description: String,
    pub parameters: String,
    pub strict: Option<bool>,
}

/// A tool call in a chat completions response.
pub struct OpenAiToolCall {
    pub id: String,
    pub name: String,
    pub arguments: String,
}

/// A choice of a chat completions response.
pub struct OpenAiChoice {
    pub content: Option<String>,
    pub tool_calls: Option<Vec<OpenAiToolCall>>,
    pub finish_reason: Option<String>,
}

/// The parts of a chat completions response that are read.
pub struct OpenAiResponse {
    pub choices: Vec<OpenAiChoice>,
    /// Prompt and completion tokens.
    pub usage: Option<(u64, u64)>,
}

/// How a finish reason of the chat completions API reads.
pub open spec fn openai_stop(r: Option<Seq<char>>) -> ModelStopReason {
    match r {
        Some(s) => if s == "stop"@ {
            ModelStopReason::EndTurn
        } else if s == "tool_calls"@ {
            ModelStopReason::ToolUse
        } else if s == "length"@ {
            ModelStopReason::MaxTokens
        } else if s == "content_filter"@ {
            ModelStopReason::Safety
        } else {
            ModelStopReason::Unknown
        },
        None => ModelStopReason::Unknown,
    }
}

/// The input of a tool call from its argument text: the arguments as
/// JSON, or `{}` when they do not parse.
pub open spec fn call_input(arguments: Seq<char>) -> Seq<char> {
    match json_reserialized(arguments) {
        Some(t) => t,
        None => "{}"@,
    }
}

/// The directives of a chat completions choice: its text when not empty,
/// then its tool calls in order.
pub open spec fn openai_directives(content: Option<Seq<char>>, calls: Seq<(Seq<char>, Seq<char>, Seq<char>)>) -> Seq<DirectiveV> {
    let text = match content {
        Some(c) => if c.len() > 0 { seq![DirectiveV::Text(c)] } else { Seq::empty() },
        None => Seq::empty(),
    };
    text + calls.map_values(|c: (Seq<char>, Seq<char>, Seq<char>)| DirectiveV::Call(c.0, c.1, call_input(c.2)))
}

/// The tool calls of a choice as plain values (none when absent).
pub open spec fn openai_calls(c: Option<Vec<OpenAiToolCall>>) -> Seq<(Seq<char>, Seq<char>, Seq<char>)> {
    match c {
        Some(v) => v@.map_values(|t: OpenAiToolCall| (t.id@, t.name@, t.arguments@)),
        None => Seq::empty(),
    }
}

fn opt_string(o: &Option<String>) -> (r: Option<String>)
    ensures
        match r {
            Some(s) => o matches Some(t) && s@ == t@,
            None => o is None,
        },
{
    match o {
        Some(s) => Some(s.clone()),
        None => None,
    }
}

fn openai_stop_of(r: &Option<String>) -> (s: ModelStopReason)
    ensures
        s == openai_stop(opt_view(*r)),
{
    match r {
        None => ModelStopReason::Unknown,
        Some(x) => {
            if str_eq(x.as_str(), "stop") {
                ModelStopReason::EndTurn
            } else if str_eq(x.as_str(), "tool_calls") {
                ModelStopReason::ToolUse
            } else if str_eq(x.as_str(), "length") {
                ModelStopReason::MaxTokens
            } else if str_eq(x.as_str(), "content_filter") {
                ModelStopReason::Safety
            } else {
                ModelStopReason::Unknown
            }
        },
    }
}

/// How a transient failure and a retry budget combine: retry while
/// attempts remain.
pub enum AttemptOutcome {
    /// The request could not be sent or answered.
    Transport { timeout: bool, message: String },
    /// A response arrived.
    Response { status: u16, status_text: String, body: String },
}

/// What follows an attempt.
pub enum RetryStep {
    /// Try again (after the back-off); `last_error` describes this failure.
    Retry { last_error: String },
    /// The response body to read.
    Succeeded { body: String },
    /// Give up with this message.
    Failed { message: String },
}

/// `2` to the power `k`.
pub open spec fn two_to(k: nat) -> nat
    decreases k,
{
    if k == 0 { 1 } else { 2 * two_to((k - 1) as nat) }
}

proof fn lemma_two_to_monotonic(k: nat, j: nat)
    requires
        k <= j,
    ensures
        two_to(k) <= two_to(j),
    decreases j,
{
    if k < j {
        lemma_two_to_monotonic(k, (j - 1) as nat);
    }
}

/// The back-off before attempt `attempt` (from 1) in milliseconds:
/// 200, doubling with each attempt.
pub fn retry_delay_ms(attempt: u32) -> (d: u64)
    requires
        1 <= attempt <= 32,
    ensures
        d == 200 * two_to((attempt - 1) as nat),
{
    proof {
        reveal_with_fuel(two_to, 32);
        lemma_two_to_monotonic((attempt - 1) as nat, 31);
    }
    let mut p: u64 = 1;
    let mut i: u32 = 0;
    while i < attempt - 1
        invariant
            i <= attempt - 1,
            attempt <= 32,
            p == two_to(i as nat),
            two_to((attempt - 1) as nat) <= 2147483648,
        decreases attempt - 1 - i,
    {
        proof {
            lemma_two_to_monotonic((i + 1) as nat, (attempt - 1) as nat);
        }
        p = p * 2;
        i = i + 1;
    }
    200 * p
}

/// A provider for any OpenAI-compatible chat completions API.
pub struct OpenAiCompatibleProvider {
    pub config: OpenAiConfig,
}

impl OpenAiCompatibleProvider {
    pub fn new(config: OpenAiConfig) -> (p: Self)
        ensures
            p.config == config,
    {
        OpenAiCompatibleProvider { config }
    }

    /// The provider's name: its model.
    pub fn name(&self) -> (s: &str)
        ensures
            s@ == self.config.model@,
    {
        self.config.model.as_str()
    }

    /// The endpoint requests are sent to.
    pub fn chat_url(&self) -> (u: String)
        ensures
            u@ == self.config.base_url@ + "/v1/chat/completions"@,
    {
        let mut u = self.config.base_url.clone();
        push_str(&mut u, "/v1/chat/completions");
        u
    }

    /// The `authorization` header, sent only with a non-empty key.
    pub fn authorization(&self) -> (h: Option<String>)
        ensures
            self.config.api_key@.len() == 0 ==> h is None,
            self.config.api_key@.len() > 0 ==> (h matches Some(v) && v@ == "Bearer "@ + self.config.api_key@),
    {
        if self.config.api_key.as_str().as_bytes().len() == 0 {
            None
        } else {
            let mut v = "Bearer ".to_owned();
            push_str(&mut v, self.config.api_key.as_str());
            Some(v)
        }
    }

    /// The messages as the API takes them: each role by name, the content,
    /// and a tool message's call id.
    pub fn build_messages(&self, messages: &[ChatMessage]) -> (r: Vec<OpenAiMessage>)
        ensures
            r@.len() == messages@.len(),
            forall|i: int| 0 <= i < messages@.len() ==> {
                let m = #[trigger] messages@[i];
                &&& r@[i].role@ == openai_role(m.role)
                &&& r@[i].content matches Some(c) && c@ == m.content@
                &&& match r@[i].tool_call_id {
                    Some(id) => m.role == Role::Tool && (m.tool_call_id matches Some(t) && t@ == id@),
                    None => m.role != Role::Tool || m.tool_call_id is None,
                }
            },
    {
        let mut out: Vec<OpenAiMessage> = Vec::new();
        let mut i: usize = 0;
        while i < messages.len()
            invariant
                i <= messages@.len(),
                out@.len() == i,
                forall|k: int| 0 <= k < i ==> {
                    let m = #[trigger] messages@[k];
                    &&& out@[k].role@ == openai_role(m.role)
                    &&& out@[k].content matches Some(c) && c@ == m.content@
                    &&& match out@[k].tool_call_id {
                        Some(id) => m.role == Role::Tool && (m.tool_call_id matches Some(t) && t@ == id@),
                        None => m.role != Role::Tool || m.tool_call_id is None,
                    }
                },
            decreases messages.len() - i,
        {
            let m = &messages[i];
            let (role, tool_call_id) = match m.role {
                Role::System => ("system", None),
                Role::User => ("user", None),
                Role::Assistant => ("assistant", None),
                Role::Tool => ("tool", opt_string(&m.tool_call_id)),
            };
            out.push(OpenAiMessage { role: role.to_owned(), content: Some(m.content.clone()), tool_call_id });
            i = i + 1;
        }
        out
    }

    /// The tools as the API takes them: functions, strict.
    pub fn convert_tools(&self, tools: &[ToolDefinition]) -> (r: Vec<OpenAiTool>)
        ensures
            r@.len() == tools@.len(),
            forall|i: int| 0 <= i < tools@.len() ==> {
                &&& (#[trigger] r@[i]).tool_type@ == "function"@
                &&& r@[i].name@ == tools@[i].name@
                &&& r@[i].description@ == tools@[i].description@
                &&& r@[i].parameters@ == tools@[i].input_schema@
                &&& r@[i].strict == Some(true)
            },
    {
        let mut out: Vec<OpenAiTool> = Vec::new();
        let mut i: usize = 0;
        while i < tools.len()
            invariant
                i <= tools@.len(),
                out@.len() == i,
                forall|k: int| 0 <= k < i ==> {
                    &&& (#[trigger] out@[k]).tool_type@ == "function"@
                    &&& out@[k].name@ == tools@[k].name@
                    &&& out@[k].description@ == tools@[k].description@
                    &&& out@[k].parameters@ == tools@[k].input_schema@
                    &&& out@[k].strict == Some(true)
                },
            decreases tools.len() - i,
        {
            let t = &tools[i];
            out.push(OpenAiTool {
                tool_type: "function".to_owned(),
                name: t.name.clone(),
                description: t.description.clone(),
                parameters: t.input_schema.clone(),
                strict: Some(true),
            });
            i = i + 1;
        }
        out
    }

    /// The model turn of a response: from its first choice, the text (when
    /// not empty) and tool calls, the stop reason, and the usage; an error
    /// without choices.
    pub fn parse_response(&self, response: OpenAiResponse) -> (r: Result<ModelTurn, String>)
        ensures
            response.choices@.len() == 0 ==> (r matches Err(m) && m@ == "OpenAI response had no choices"@),
            response.choices@.len() > 0 ==> (r matches Ok(turn) && {
                let c = response.choices@[0];
                &&& directives_view(turn.directives@) == openai_directives(
                    opt_view(c.content), openai_calls(c.tool_calls))
                &&& turn.stop_reason == openai_stop(opt_view(c.finish_reason))
                &&& (turn.stop_reason is MaxTokens <==> opt_view(c.finish_reason) == Some("length"@))
                &&& (turn.stop_reason is EndTurn <==> opt_view(c.finish_reason) == Some("stop"@))
                &&& match response.usage {
                    Some((p, q)) => turn.usage matches Some(u) && u.input_tokens == p && u.output_tokens == q
                        && u.cache_read_tokens == 0 && u.cache_creation_tokens == 0,
                    None => turn.usage is None,
                }
            }),
    {
        if response.choices.len() == 0 {
            return Err("OpenAI response had no choices".to_owned());
        }
        let choice = &response.choices[0];
        let ghost content = opt_view(response.choices@[0].content);
        let ghost calls = openai_calls(response.choices@[0].tool_calls);
        let mut directives: Vec<ModelDirective> = Vec::new();
        match &choice.content {
            Some(c) => {
                if c.as_str().as_bytes().len() > 0 {
                    directives.push(ModelDirective::Text { delta: c.clone() });
                }
            },
            None => {},
        }
        let ghost text_part = directives_view(directives@);
        assert(text_part == openai_directives(content, Seq::empty()));
        match &choice.tool_calls {
            Some(tcs) => {
                let mut i: usize = 0;
                while i < tcs.len()
                    invariant
                        i <= tcs@.len(),
                        calls == tcs@.map_values(|t: OpenAiToolCall| (t.id@, t.name@, t.arguments@)),
                        directives_view(directives@) == text_part + calls.take(i as int).map_values(
                            |c: (Seq<char>, Seq<char>, Seq<char>)| DirectiveV::Call(c.0, c.1, call_input(c.2))),
                    decreases tcs.len() - i,
                {
                    let tc = &tcs[i];
                    let input = match reserialize_json(tc.arguments.as_str()) {
                        Some(t) => t,
                        None => "{}".to_owned(),
                    };
                    let ghost before = directives@;
                    directives.push(ModelDirective::ToolCall {
                        call: ToolCall { call_id: tc.id.clone(), tool_name: tc.name.clone(), input },
                    });
                    assert(directives_view(directives@) == directives_view(before).push(directive_view(directives@.last())));
                    assert(calls.take(i + 1) == calls.take(i as int).push(calls[i as int]));
                    i = i + 1;
                }
                assert(calls.take(tcs@.len() as int) == calls);
            },
            None => {
                assert(calls.take(0) == calls);
            },
        }
        assert(openai_directives(content, calls) == text_part + calls.map_values(
            |c: (Seq<char>, Seq<char>, Seq<char>)| DirectiveV::Call(c.0, c.1, call_input(c.2))));
        let stop_reason = openai_stop_of(&choice.finish_reason);
        proof {
            lemma_openai_stop_reasons(opt_view(response.choices@[0].finish_reason));
        }
        let usage = match response.usage {
            Some((p, q)) => Some(TokenUsage { input_tokens: p, output_tokens: q, cache_read_tokens: 0, cache_creation_tokens: 0 }),
            None => None,
        };
        Ok(ModelTurn { directives, stop_reason, usage })
    }

    /// What follows attempt `attempt` (from 0) of at most `max_retries`
    /// retries: a timeout, a 429 or a 5xx is retried while attempts
    /// remain; another transport failure or status fails; a success gives
    /// the body.
    pub fn retry_step(&self, attempt: u32, max_retries: u32, outcome: AttemptOutcome) -> (r: RetryStep)
        ensures
            match outcome {
                AttemptOutcome::Transport { timeout, message } => if timeout && attempt < max_retries {
                    r matches RetryStep::Retry { last_error } && last_error@ == "timeout: "@ + message@
                } else {
                    r matches RetryStep::Failed { message: m } && m@ == "HTTP request failed: "@ + message@
                },
                AttemptOutcome::Response { status, status_text, body } => if (status == 429 || (500 <= status < 600)) && attempt < max_retries {
                    r matches RetryStep::Retry { last_error } && last_error@ == status_text@ + ": "@ + body@
                } else if !(200 <= status < 300) {
                    r matches RetryStep::Failed { message: m }
                        && m@ == self.config.provider_name@ + " API returned "@ + status_text@ + ": "@ + body@
                } else {
                    r matches RetryStep::Succeeded { body: b } && b@ == body@
                },
            },
    {
        match outcome {
            AttemptOutcome::Transport { timeout, message } => {
                if timeout && attempt < max_retries {
                    let mut e = "timeout: ".to_owned();
                    push_str(&mut e, message.as_str());
                    RetryStep::Retry { last_error: e }
                } else {
                    let mut m = "HTTP request failed: ".to_owned();
                    push_str(&mut m, message.as_str());
                    RetryStep::Failed { message: m }
                }
            },
            AttemptOutcome::Response { status, status_text, body } => {
                if (status == 429 || (500 <= status && status < 600)) && attempt < max_retries {
                    let mut e = status_text;
                    push_str(&mut e, ": ");
                    push_str(&mut e, body.as_str());
                    RetryStep::Retry { last_error: e }
                } else if !(200 <= status && status < 300) {
                    let mut m = self.config.provider_name.clone();
                    push_str(&mut m, " API returned ");
                    push_str(&mut m, status_text.as_str());
                    push_str(&mut m, ": ");
                    push_str(&mut m, body.as_str());
                    RetryStep::Failed { message: m }
                } else {
                    RetryStep::Succeeded { body }
                }
            },
        }
    }

    /// The message once every attempt was retried away.
    pub fn retries_exhausted(&self, max_retries: u32, last_error: Option<String>) -> (m: String)
        ensures
            m@ == self.config.provider_name@ + " API failed after "@ + decimal(max_retries as nat) + " retries: "@
                + match last_error { Some(e) => e@, None => Seq::empty() },
    {
        let mut m = self.config.provider_name.clone();
        push_str(&mut m, " API failed after ");
        push_str(&mut m, u64_to_decimal(max_retries as u64).as_str());
        push_str(&mut m, " retries: ");
        match last_error {
            Some(e) => push_str(&mut m, e.as_str()),
            None => {},
        }
        m
    }
}

/// The content of an Anthropic message: text, or a tool result block.
pub enum AnthropicContent {
    Text(String),
    ToolResult { tool_use_id: String, content: String },
}

/// A Messages API message.
pub struct AnthropicMessage {
    pub role: String,
    pub content: AnthropicContent,
}

/// A Messages API tool.
pub struct AnthropicTool {
    pub name: String,
    pub description: String,
    pub input_schema: String,
}

/// A content block of a Messages API response; a tool input is JSON text.
pub enum AnthropicBlock {
    Text { text: String },
    ToolUse { id: String, name: String, input: String },
}

/// The parts of a Messages API response that are read.
pub struct AnthropicResponse {
    pub content: Vec<AnthropicBlock>,
    pub stop_reason: Option<String>,
    /// Input, output, cache-read and cache-creation tokens.
    pub usage: Option<(u64, u64, u64, u64)>,
}

/// A message as plain values: role, and text or (tool use id, result).
pub enum AnthropicMessageV {
    Text(Seq<char>, Seq<char>),
    ToolResult(Seq<char>, Seq<char>, Seq<char>),
}

/// The plain values of a message.
pub open spec fn anthropic_message_view(m: AnthropicMessage) -> AnthropicMessageV {
    match m.content {
        AnthropicContent::Text(t) => AnthropicMessageV::Text(m.role@, t@),
        AnthropicContent::ToolResult { tool_use_id, content } => AnthropicMessageV::ToolResult(m.role@, tool_use_id@, content@),
    }
}

/// The system prompt and the messages the Messages API takes for a
/// conversation: the last system message is the prompt; user and
/// assistant messages are sent as text; a tool message is a user message
/// holding a tool result for its call (`unknown` without one).
pub open spec fn anthropic_request(messages: Seq<ChatMessage>) -> (Option<Seq<char>>, Seq<AnthropicMessageV>)
    decreases messages.len(),
{
    if messages.len() == 0 {
        (None, Seq::empty())
    } else {
        let (sys, msgs) = anthropic_request(messages.drop_last());
        let m = messages.last();
        match m.role {
            Role::System => (Some(m.content@), msgs),
            Role::User => (sys, msgs.push(AnthropicMessageV::Text("user"@, m.content@))),
            Role::Assistant => (sys, msgs.push(AnthropicMessageV::Text("assistant"@, m.content@))),
            Role::Tool => (sys, msgs.push(AnthropicMessageV::ToolResult(
                "user"@,
                match m.tool_call_id { Some(t) => t@, None => "unknown"@ },
                m.content@,
            ))),
        }
    }
}

/// How a stop reason of the Messages API reads.
pub open spec fn anthropic_stop(r: Option<Seq<char>>) -> ModelStopReason {
    match r {
        Some(s) => if s == "end_turn"@ {
            ModelStopReason::EndTurn
        } else if s == "tool_use"@ {
            ModelStopReason::ToolUse
        } else if s == "max_tokens"@ {
            ModelStopReason::MaxTokens
        } else {
            ModelStopReason::Unknown
        },
        None => ModelStopReason::Unknown,
    }
}

/// The directives of a Messages API response, block by block.
pub open spec fn anthropic_directives(blocks: Seq<AnthropicBlock>) -> Seq<DirectiveV> {
    blocks.map_values(|b: AnthropicBlock| match b {
        AnthropicBlock::Text { text } => DirectiveV::Text(text@),
        AnthropicBlock::ToolUse { id, name, input } => DirectiveV::Call(id@, name@, input@),
    })
}

/// The Anthropic Messages API provider.
pub struct AnthropicProvider {
    pub config: AnthropicConfig,
}

impl AnthropicProvider {
    pub fn new(config: AnthropicConfig) -> (p: Self)
        ensures
            p.config == config,
    {
        AnthropicProvider { config }
    }

    /// The provider's name: its model.
    pub fn name(&self) -> (s: &str)
        ensures
            s@ == self.config.model@,
    {
        self.config.model.as_str()
    }

    /// The endpoint requests are sent to.
    pub fn messages_url(&self) -> (u: String)
        ensures
            u@ == self.config.base_url@ + "/v1/messages"@,
    {
        let mut u = self.config.base_url.clone();
        push_str(&mut u, "/v1/messages");
        u
    }

    /// The system prompt and messages of a conversation.
    pub fn build_messages(&self, messages: &[ChatMessage]) -> (r: (Option<String>, Vec<AnthropicMessage>))
        ensures
            (match r.0 { Some(s) => Some(s@), None => None }, r.1@.map_values(|m: AnthropicMessage| anthropic_message_view(m)))
                == anthropic_request(messages@),
            r.1@.len() == non_system(messages@).len(),
            forall|k: int| #![trigger non_system(messages@)[k]] 0 <= k < non_system(messages@).len() ==> {
                let m = non_system(messages@)[k];
                &&& m.role is User ==> r.1@[k].role@ == "user"@ && (r.1@[k].content matches AnthropicContent::Text(t) && t@ == m.content@)
                &&& m.role is Assistant ==> r.1@[k].role@ == "assistant"@ && (r.1@[k].content matches AnthropicContent::Text(t) && t@ == m.content@)
            },
    {
        let mut system_prompt: Option<String> = None;
        let mut out: Vec<AnthropicMessage> = Vec::new();
        let mut i: usize = 0;
        while i < messages.len()
            invariant
                i <= messages@.len(),
                (match system_prompt { Some(s) => Some(s@), None => None }, out@.map_values(|m: AnthropicMessage| anthropic_message_view(m)))
                    == anthropic_request(messages@.take(i as int)),
            decreases messages.len() - i,
        {
            let m = &messages[i];
            assert(messages@.take(i + 1).drop_last() == messages@.take(i as int));
            assert(messages@.take(i + 1).last() == *m);
            let ghost before = out@;
            match m.role {
                Role::System => {
                    system_prompt = Some(m.content.clone());
                },
                Role::User => {
                    out.push(AnthropicMessage { role: "user".to_owned(), content: AnthropicContent::Text(m.content.clone()) });
                },
                Role::Assistant => {
                    out.push(AnthropicMessage { role: "assistant".to_owned(), content: AnthropicContent::Text(m.content.clone()) });
                },
                Role::Tool => {
                    let tool_use_id = match &m.tool_call_id {
                        Some(t) => t.clone(),
                        None => "unknown".to_owned(),
                    };
                    out.push(AnthropicMessage {
                        role: "user".to_owned(),
                        content: AnthropicContent::ToolResult { tool_use_id, content: m.content.clone() },
                    });
                },
            }
            assert(m.role != Role::System ==> out@.map_values(|x: AnthropicMessage| anthropic_message_view(x))
                == before.map_values(|x: AnthropicMessage| anthropic_message_view(x)).push(anthropic_message_view(out@.last())));
            i = i + 1;
        }
        assert(messages@.take(messages@.len() as int) == messages@);
        proof {
            lemma_anthropic_turns_kept(messages@);
            let views = out@.map_values(|m: AnthropicMessage| anthropic_message_view(m));
            assert forall|k: int| 0 <= k < out@.len() implies #[trigger] views[k] == anthropic_message_view(out@[k]) by {}
        }
        (system_prompt, out)
    }

    /// The tools as the API takes them.
    pub fn convert_tools(&self, tools: &[ToolDefinition]) -> (r: Vec<AnthropicTool>)
        ensures
            r@.len() == tools@.len(),
            forall|i: int| 0 <= i < tools@.len() ==> {
                &&& (#[trigger] r@[i]).name@ == tools@[i].name@
                &&& r@[i].description@ == tools@[i].description@
                &&& r@[i].input_schema@ == tools@[i].input_schema@
            },
    {
        let mut out: Vec<AnthropicTool> = Vec::new();
        let mut i: usize = 0;
        while i < tools.len()
            invariant
                i <= tools@.len(),
                out@.len() == i,
                forall|k: int| 0 <= k < i ==> {
                    &&& (#[trigger] out@[k]).name@ == tools@[k].name@
                    &&& out@[k].description@ == tools@[k].description@
                    &&& out@[k].input_schema@ == tools@[k].input_schema@
                },
            decreases tools.len() - i,
        {
            let t = &tools[i];
            out.push(AnthropicTool { name: t.name.clone(), description: t.description.clone(), input_schema: t.input_schema.clone() });
            i = i + 1;
        }
        out
    }

    /// The model turn of a response: a directive per block, the stop
    /// reason, and the usage.
    pub fn parse_response(&self, response: AnthropicResponse) -> (r: Result<ModelTurn, String>)
        ensures
            r matches Ok(turn) && {
                &&& directives_view(turn.directives@) == anthropic_directives(response.content@)
                &&& turn.stop_reason == anthropic_stop(opt_view(response.stop_reason))
                &&& (turn.stop_reason is MaxTokens <==> opt_view(response.stop_reason) == Some("max_tokens"@))
                &&& (turn.stop_reason is EndTurn <==> opt_view(response.stop_reason) == Some("end_turn"@))
                &&& (turn.stop_reason is ToolUse <==> opt_view(response.stop_reason) == Some("tool_use"@))
                &&& match response.usage {
                    Some((a, b, c, d)) => turn.usage matches Some(u) && u.input_tokens == a && u.output_tokens == b
                        && u.cache_read_tokens == c && u.cache_creation_tokens == d,
                    None => turn.usage is None,
                }
            },
    {
        let mut directives: Vec<ModelDirective> = Vec::new();
        let mut i: usize = 0;
        while i < response.content.len()
            invariant
                i <= response.content@.len(),
                directives_view(directives@) == anthropic_directives(response.content@.take(i as int)),
            decreases response.content.len() - i,
        {
            let ghost before = directives@;
            match &response.content[i] {
                AnthropicBlock::Text { text } => {
                    directives.push(ModelDirective::Text { delta: text.clone() });
                },
                AnthropicBlock::ToolUse { id, name, input } => {
                    directives.push(ModelDirective::ToolCall {
                        call: ToolCall { call_id: id.clone(), tool_name: name.clone(), input: input.clone() },
                    });
                },
            }
            assert(directives_view(directives@) == directives_view(before).push(directive_view(directives@.last())));
            assert(response.content@.take(i + 1) == response.content@.take(i as int).push(response.content@[i as int]));
            i = i + 1;
        }
        assert(response.content@.take(response.content@.len() as int) == response.content@);
        let stop_reason = match &response.stop_reason {
            None => ModelStopReason::Unknown,
            Some(x) => {
                if str_eq(x.as_str(), "end_turn") {
                    ModelStopReason::EndTurn
                } else if str_eq(x.as_str(), "tool_use") {
                    ModelStopReason::ToolUse
                } else if str_eq(x.as_str(), "max_tokens") {
                    ModelStopReason::MaxTokens
                } else {
                    ModelStopReason::Unknown
                }
            },
        };
        proof {
            lemma_anthropic_stop_reasons(opt_view(response.stop_reason));
        }
        let usage = match response.usage {
            Some((a, b, c, d)) => Some(TokenUsage { input_tokens: a, output_tokens: b, cache_read_tokens: c, cache_creation_tokens: d }),
            None => None,
        };
        Ok(ModelTurn { directives, stop_reason, usage })
    }

    /// The message for a response with an error status.
    pub fn status_error(&self, status_text: &str, body: &str) -> (m: String)
        ensures
            m@ == "Anthropic API returned "@ + status_text@ + ": "@ + body@,
    {
        let mut m = "Anthropic API returned ".to_owned();
        push_str(&mut m, status_text);
        push_str(&mut m, ": ");
        push_str(&mut m, body);
        m
    }
}

// ---------------------------------------------------------------------------
// Laws
// ---------------------------------------------------------------------------

/// The messages of a conversation that become API messages: all but the
/// system ones, in order.
pub open spec fn non_system(messages: Seq<ChatMessage>) -> Seq<ChatMessage>
    decreases messages.len(),
{
    if messages.len() == 0 {
        messages
    } else if messages.last().role is System {
        non_system(messages.drop_last())
    } else {
        non_system(messages.drop_last()).push(messages.last())
    }
}

/// The Messages API keeps the conversation's turns: the non-system messages
/// become the API messages one for one and in order, each under its own
/// role (a user message as `user` text, an assistant message as
/// `assistant` text, a tool result as a `user` message carrying the call
/// id, `unknown` without one); the system prompt is the content of the last
/// system message, and there is none without a system message.
pub proof fn lemma_anthropic_turns_kept(messages: Seq<ChatMessage>)
    ensures
        anthropic_request(messages).1.len() == non_system(messages).len(),
        forall|k: int| #![trigger non_system(messages)[k]] 0 <= k < non_system(messages).len() ==> {
            let m = non_system(messages)[k];
            let sent = anthropic_request(messages).1[k];
            &&& m.role is User ==> sent == AnthropicMessageV::Text("user"@, m.content@)
            &&& m.role is Assistant ==> sent == AnthropicMessageV::Text("assistant"@, m.content@)
            &&& m.role is Tool ==> sent == AnthropicMessageV::ToolResult(
                "user"@,
                match m.tool_call_id { Some(t) => t@, None => "unknown"@ },
                m.content@,
            )
        },
        match anthropic_request(messages).0 {
            None => forall|i: int| 0 <= i < messages.len() ==> !(#[trigger] messages[i].role is System),
            Some(p) => exists|i: int| #![trigger messages[i]] 0 <= i < messages.len() && messages[i].role is System
                && messages[i].content@ == p
                && forall|j: int| i < j < messages.len() ==> !(#[trigger] messages[j].role is System),
        },
    decreases messages.len(),
{
    if messages.len() > 0 {
        let init = messages.drop_last();
        let m = messages.last();
        lemma_anthropic_turns_kept(init);
        let prev = anthropic_request(init);
        if m.role is System {
            assert(non_system(messages) == non_system(init));
            assert(anthropic_request(messages) == (Some(m.content@), prev.1));
            assert(messages[messages.len() - 1] == m);
        } else {
            assert(non_system(messages) == non_system(init).push(m));
            assert forall|k: int| 0 <= k < non_system(init).len() implies non_system(messages)[k] == non_system(init)[k] by {}
            match prev.0 {
                None => {
                    assert forall|i: int| 0 <= i < messages.len() implies !(#[trigger] messages[i].role is System) by {
                        if i < init.len() {
                            assert(messages[i] == init[i]);
                        }
                    }
                },
                Some(p) => {
                    let i = choose|i: int| #![trigger init[i]] 0 <= i < init.len() && init[i].role is System
                        && init[i].content@ == p
                        && forall|j: int| i < j < init.len() ==> !(#[trigger] init[j].role is System);
                    assert(messages[i] == init[i]);
                    assert forall|j: int| i < j < messages.len() implies !(#[trigger] messages[j].role is System) by {
                        if j < init.len() {
                            assert(messages[j] == init[j]);
                        }
                    }
                },
            }
        }
    }
}

/// The OpenAI chat completions API sends every role under a name of its
/// own (no two roles share one), and a user or assistant message goes under
/// the same role name the Messages API uses for it.
pub proof fn lemma_role_names_agree(a: Role, b: Role, c: String)
    ensures
        openai_role(a) == openai_role(b) ==> a == b,
        a is User ==> anthropic_request(seq![ChatMessage { role: a, content: c, tool_call_id: None }]).1
            == seq![AnthropicMessageV::Text(openai_role(a), c@)],
        a is Assistant ==> anthropic_request(seq![ChatMessage { role: a, content: c, tool_call_id: None }]).1
            == seq![AnthropicMessageV::Text(openai_role(a), c@)],
{
    reveal_strlit("system");
    reveal_strlit("user");
    reveal_strlit("assistant");
    reveal_strlit("tool");
    let m = ChatMessage { role: a, content: c, tool_call_id: None };
    assert(seq![m].drop_last() == Seq::<ChatMessage>::empty());
    assert(seq![m].last() == m);
    assert(anthropic_request(Seq::<ChatMessage>::empty()) == (None::<Seq<char>>, Seq::<AnthropicMessageV>::empty()));
    assert(Seq::<AnthropicMessageV>::empty().push(AnthropicMessageV::Text(openai_role(a), c@)) == seq![AnthropicMessageV::Text(openai_role(a), c@)]);
    if openai_role(a) == openai_role(b) && a != b {
        assert(openai_role(a).len() != openai_role(b).len() || openai_role(a)[0] != openai_role(b)[0]);
    }
}

/// How a Messages API stop reason reads, over every value: `max_tokens` and
/// nothing else is `MaxTokens`, `end_turn` and nothing else is `EndTurn`,
/// `tool_use` and nothing else is `ToolUse`, everything else (absent
/// included) is `Unknown`.  The chat completions API's truncation reason,
/// `length`, reads the same as `max_tokens`.
pub proof fn lemma_anthropic_stop_reasons(r: Option<Seq<char>>)
    ensures
        anthropic_stop(r) is MaxTokens <==> r == Some("max_tokens"@),
        anthropic_stop(r) is EndTurn <==> r == Some("end_turn"@),
        anthropic_stop(r) is ToolUse <==> r == Some("tool_use"@),
        anthropic_stop(r) is Unknown <==> !(r == Some("max_tokens"@) || r == Some("end_turn"@) || r == Some("tool_use"@)),
        anthropic_stop(Some("max_tokens"@)) == openai_stop(Some("length"@)),
{
    reveal_strlit("max_tokens");
    reveal_strlit("end_turn");
    reveal_strlit("tool_use");
    reveal_strlit("stop");
    reveal_strlit("tool_calls");
    reveal_strlit("length");
    assert("max_tokens"@ != "end_turn"@) by { assert("max_tokens"@[0] != "end_turn"@[0]); }
    assert("max_tokens"@ != "tool_use"@) by { assert("max_tokens"@[0] != "tool_use"@[0]); }
    assert("end_turn"@ != "tool_use"@) by { assert("end_turn"@[0] != "tool_use"@[0]); }
    assert("length"@ != "stop"@) by { assert("length"@[0] != "stop"@[0]); }
    assert("length"@ != "tool_calls"@) by { assert("length"@[0] != "tool_calls"@[0]); }
}

/// How a chat completions finish reason reads, over every value: `length`
/// and nothing else is `MaxTokens`, `stop` and nothing else is `EndTurn`,
/// `tool_calls` and nothing else is `ToolUse`, `content_filter` and
/// nothing else is `Safety`.
pub proof fn lemma_openai_stop_reasons(r: Option<Seq<char>>)
    ensures
        openai_stop(r) is MaxTokens <==> r == Some("length"@),
        openai_stop(r) is EndTurn <==> r == Some("stop"@),
        openai_stop(r) is ToolUse <==> r == Some("tool_calls"@),
        openai_stop(r) is Safety <==> r == Some("content_filter"@),
{
    reveal_strlit("stop");
    reveal_strlit("tool_calls");
    reveal_strlit("length");
    reveal_strlit("content_filter");
    assert("stop"@ != "tool_calls"@) by { assert("stop"@[0] != "tool_calls"@[0]); }
    assert("stop"@ != "length"@) by { assert("stop"@[0] != "length"@[0]); }
    assert("stop"@ != "content_filter"@) by { assert("stop"@[0] != "content_filter"@[0]); }
    assert("tool_calls"@ != "length"@) by { assert("tool_calls"@[0] != "length"@[0]); }
    assert("tool_calls"@ != "content_filter"@) by { assert("tool_calls"@[0] != "content_filter"@[0]); }
    assert("length"@ != "content_filter"@) by { assert("length"@[0] != "content_filter"@[0]); }
}

} // verus!
