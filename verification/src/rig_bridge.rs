//! Conversations in the shape of a generic completion client's chat
//! history, and its replies as model turns.
//!
//! The client takes a preamble (the system prompt) and a non-empty chat
//! history of user, assistant and tool-result messages; it answers with a
//! list of content items.  Sending the request is the caller's part.
use vstd::prelude::*;

use crate::event_map::{ModelStopReason, ToolCall};
use crate::model_providers::{directive_view, directives_view, DirectiveV, ModelDirective, ModelTurn};
use crate::state_projection::{ChatMessage, Role};

verus! {

/// A chat history message of the completion client.
pub enum RigMessage {
    /// A user message holding text.
    User { text: String },
    /// An assistant message holding text.
    Assistant { text: String },
    /// A user message holding the result of a tool call.
    ToolResult { tool_call_id: String, content: String },
}

/// A history message as plain values.
pub enum RigMessageV {
    User(Seq<char>),
    Assistant(Seq<char>),
    ToolResult(Seq<char>, Seq<char>),
}

/// The plain values of a history message.
pub open spec fn rig_message_view(m: RigMessage) -> RigMessageV {
    match m {
        RigMessage::User { text } => RigMessageV::User(text@),
        RigMessage::Assistant { text } => RigMessageV::Assistant(text@),
        RigMessage::ToolResult { tool_call_id, content } => RigMessageV::ToolResult(tool_call_id@, content@),
    }
}

/// The plain values of a history.
pub open spec fn rig_messages_view(v: Seq<RigMessage>) -> Seq<RigMessageV> {
    v.map_values(|m: RigMessage| rig_message_view(m))
}

/// The preamble and history of a conversation, message by message: the
/// last system message is the preamble; user and assistant messages keep
/// their text; a tool message becomes a tool result for its call
/// (`unknown` without one).
pub open spec fn rig_split(messages: Seq<ChatMessage>) -> (Option<Seq<char>>, Seq<RigMessageV>)
    decreases messages.len(),
{
    if messages.len() == 0 {
        (None, Seq::empty())
    } else {
        let (sys, hist) = rig_split(messages.drop_last());
        let m = messages.last();
        match m.role {
            Role::System => (Some(m.content@), hist),
            Role::User => (sys, hist.push(RigMessageV::User(m.content@))),
            Role::Assistant => (sys, hist.push(RigMessageV::Assistant(m.content@))),
            Role::Tool => (sys, hist.push(RigMessageV::ToolResult(
                match m.tool_call_id { Some(t) => t@, None => "unknown"@ },
                m.content@,
            ))),
        }
    }
}

/// The history sent for a conversation: its messages, or a single user
/// message `Continue.` when it has none (the client needs at least one).
pub open spec fn rig_history(messages: Seq<ChatMessage>) -> Seq<RigMessageV> {
    let hist = rig_split(messages).1;
    if hist.len() == 0 {
        seq![RigMessageV::User("Continue."@)]
    } else {
        hist
    }
}

/// Splits a conversation into the client's preamble and chat history.
pub fn build_rig_messages(messages: &[ChatMessage]) -> (r: Result<(Option<String>, Vec<RigMessage>), String>)
    ensures
        r matches Ok((sys, hist)) && {
            &&& (match sys { Some(s) => Some(s@), None => None }) == rig_split(messages@).0
            &&& rig_messages_view(hist@) == rig_history(messages@)
            &&& hist@.len() > 0
        },
{
    let mut system_prompt: Option<String> = None;
    let mut history: Vec<RigMessage> = Vec::new();
    let mut i: usize = 0;
    while i < messages.len()
        invariant
            i <= messages@.len(),
            (match system_prompt { Some(s) => Some(s@), None => None }, rig_messages_view(history@))
                == rig_split(messages@.take(i as int)),
        decreases messages.len() - i,
    {
        let m = &messages[i];
        assert(messages@.take(i + 1).drop_last() == messages@.take(i as int));
        assert(messages@.take(i + 1).last() == *m);
        let ghost before = history@;
        match m.role {
            Role::System => {
                system_prompt = Some(m.content.clone());
            },
            Role::User => {
                history.push(RigMessage::User { text: m.content.clone() });
            },
            Role::Assistant => {
                history.push(RigMessage::Assistant { text: m.content.clone() });
            },
            Role::Tool => {
                let tool_call_id = match &m.tool_call_id {
                    Some(t) => t.clone(),
                    None => "unknown".to_owned(),
                };
                history.push(RigMessage::ToolResult { tool_call_id, content: m.content.clone() });
            },
        }
        assert(m.role != Role::System ==> rig_messages_view(history@)
            == rig_messages_view(before).push(rig_message_view(history@.last())));
        i = i + 1;
    }
    assert(messages@.take(messages@.len() as int) == messages@);
    if history.len() == 0 {
        history.push(RigMessage::User { text: "Continue.".to_owned() });
        assert(rig_messages_view(history@) == seq![RigMessageV::User("Continue."@)]);
    }
    Ok((system_prompt, history))
}

/// A content item of the client's reply; tool arguments are JSON text.
pub enum RigContent {
    Text(String),
    ToolCall { id: String, name: String, arguments: String },
    /// Reasoning, images and the like, which carry no directive.
    Other,
}

/// The directives of a reply, item by item: text and tool calls; other
/// items give none.
pub open spec fn rig_directives(choice: Seq<RigContent>) -> Seq<DirectiveV>
    decreases choice.len(),
{
    if choice.len() == 0 {
        Seq::empty()
    } else {
        let prev = rig_directives(choice.drop_last());
        match choice.last() {
            RigContent::Text(t) => prev.push(DirectiveV::Text(t@)),
            RigContent::ToolCall { id, name, arguments } => prev.push(DirectiveV::Call(id@, name@, arguments@)),
            RigContent::Other => prev,
        }
    }
}

/// Whether a reply holds a tool call.
pub open spec fn has_tool_call(choice: Seq<RigContent>) -> bool {
    exists|i: int| 0 <= i < choice.len() && #[trigger] choice[i] is ToolCall
}

/// The model turn of a reply: its directives; it stopped for tool use when
/// it holds a tool call, else at the end of its turn; no usage.
pub fn parse_rig_response(choice: Vec<RigContent>) -> (r: Result<ModelTurn, String>)
    ensures
        r matches Ok(turn) && {
            &&& directives_view(turn.directives@) == rig_directives(choice@)
            &&& turn.stop_reason == (if has_tool_call(choice@) { ModelStopReason::ToolUse } else { ModelStopReason::EndTurn })
            &&& turn.usage is None
        },
{
    let mut directives: Vec<ModelDirective> = Vec::new();
    let mut stop_reason = ModelStopReason::EndTurn;
    let mut i: usize = 0;
    while i < choice.len()
        invariant
            i <= choice@.len(),
            directives_view(directives@) == rig_directives(choice@.take(i as int)),
            stop_reason == (if has_tool_call(choice@.take(i as int)) { ModelStopReason::ToolUse } else { ModelStopReason::EndTurn }),
        decreases choice.len() - i,
    {
        let ghost before = directives@;
        let ghost prefix = choice@.take(i as int);
        let ghost next = choice@.take(i + 1);
        assert(next.drop_last() == prefix);
        assert(next.last() == choice@[i as int]);
        assert(has_tool_call(next) <==> (has_tool_call(prefix) || choice@[i as int] is ToolCall)) by {
            if has_tool_call(prefix) {
                let w = choose|k: int| 0 <= k < prefix.len() && #[trigger] prefix[k] is ToolCall;
                assert(next[w] == prefix[w]);
            }
            if choice@[i as int] is ToolCall {
                assert(next[i as int] is ToolCall);
            }
            if has_tool_call(next) {
                let w = choose|k: int| 0 <= k < next.len() && #[trigger] next[k] is ToolCall;
                if w < i {
                    assert(prefix[w] == next[w]);
                }
            }
        }
        match &choice[i] {
            RigContent::Text(t) => {
                directives.push(ModelDirective::Text { delta: t.clone() });
                assert(directives_view(directives@) == directives_view(before).push(directive_view(directives@.last())));
            },
            RigContent::ToolCall { id, name, arguments } => {
                stop_reason = ModelStopReason::ToolUse;
                directives.push(ModelDirective::ToolCall {
                    call: ToolCall { call_id: id.clone(), tool_name: name.clone(), input: arguments.clone() },
                });
                assert(directives_view(directives@) == directives_view(before).push(directive_view(directives@.last())));
            },
            RigContent::Other => {},
        }
        i = i + 1;
    }
    assert(choice@.take(choice@.len() as int) == choice@);
    Ok(ModelTurn { directives, stop_reason, usage: None })
}

} // verus!
