//! Replays journal events into the conversation history and the state
//! patches of a session.
//!
//! Applying a patch to the application state is the caller's part: the
//! projection keeps the patch documents in the order they were journaled.
use vstd::prelude::*;

use crate::event_map::{lago_to_arcan, or_default, opt_view, to_event, AgentEvent, AgentEventV, EventEnvelope};
use crate::text::push_str;

verus! {

/// Who a chat message is from.
#[derive(Clone, Copy, PartialEq, Eq, Structural)]
pub enum Role {
    System,
    User,
    Assistant,
    Tool,
}

/// A message of the conversation; a tool message names the call it
/// answers.
pub struct ChatMessage {
    pub role: Role,
    pub content: String,
    pub tool_call_id: Option<String>,
}

/// A message as plain values.
pub open spec fn message_view(m: ChatMessage) -> (Role, Seq<char>, Option<Seq<char>>) {
    (m.role, m.content@, opt_view(m.tool_call_id))
}

/// The messages as plain values.
pub open spec fn messages_view(v: Seq<ChatMessage>) -> Seq<(Role, Seq<char>, Option<Seq<char>>)> {
    v.map_values(|m: ChatMessage| message_view(m))
}

/// The history after an event: text extends the last assistant message or
/// starts one; a completed tool call adds a tool message with its output.
pub open spec fn history_after(h: Seq<(Role, Seq<char>, Option<Seq<char>>)>, e: AgentEventV) -> Seq<(Role, Seq<char>, Option<Seq<char>>)> {
    match e {
        AgentEventV::TextDelta { delta, .. } =>
            if h.len() > 0 && h.last().0 == Role::Assistant {
                h.drop_last().push((Role::Assistant, h.last().1 + delta, h.last().2))
            } else {
                h.push((Role::Assistant, delta, None))
            },
        AgentEventV::ToolCallCompleted { call_id, output, .. } => h.push((Role::Tool, output, Some(call_id))),
        _ => h,
    }
}

/// The state patches after an event.
pub open spec fn patches_after(p: Seq<Seq<char>>, e: AgentEventV) -> Seq<Seq<char>> {
    match e {
        AgentEventV::StatePatched { patch, .. } => p.push(patch),
        _ => p,
    }
}

/// The agent event a journal envelope stands for, if any.
pub open spec fn event_of(envelope: EventEnvelope) -> Option<AgentEventV> {
    to_event(or_default(opt_view(envelope.run_id), Seq::empty()), envelope.session_id@, envelope.payload@)
}

/// Rebuilds the conversation history and state patches from journal
/// events.
pub struct AppStateProjection {
    patches: Vec<String>,
    messages: Vec<ChatMessage>,
}

impl AppStateProjection {
    /// The history rebuilt so far.
    pub closed spec fn history(&self) -> Seq<(Role, Seq<char>, Option<Seq<char>>)> {
        messages_view(self.messages@)
    }

    /// The state patches seen so far, in order.
    pub closed spec fn patch_log(&self) -> Seq<Seq<char>> {
        self.patches@.map_values(|p: String| p@)
    }

    /// No history and no patches.
    pub fn new() -> (p: Self)
        ensures
            p.history().len() == 0,
            p.patch_log().len() == 0,
    {
        AppStateProjection { patches: Vec::new(), messages: Vec::new() }
    }

    /// The state patches to apply to the application state, in order.
    pub fn state_patches(&self) -> (v: &[String])
        ensures
            v@.map_values(|p: String| p@) == self.patch_log(),
    {
        self.patches.as_slice()
    }

    /// The conversation history.
    pub fn messages(&self) -> (v: &[ChatMessage])
        ensures
            messages_view(v@) == self.history(),
    {
        self.messages.as_slice()
    }

    /// The state patches and the history, taken out.
    pub fn into_parts(self) -> (r: (Vec<String>, Vec<ChatMessage>))
        ensures
            r.0@.map_values(|p: String| p@) == self.patch_log(),
            messages_view(r.1@) == self.history(),
    {
        (self.patches, self.messages)
    }

    /// The projection's name.
    pub fn name(&self) -> (s: &'static str)
        ensures
            s@ == "arcan::app_state"@,
    {
        "arcan::app_state"
    }

    /// Replays one journal envelope.
    pub fn on_event(&mut self, envelope: &EventEnvelope)
        ensures
            match event_of(*envelope) {
                None => final(self).history() == old(self).history() && final(self).patch_log() == old(self).patch_log(),
                Some(e) => final(self).history() == history_after(old(self).history(), e)
                    && final(self).patch_log() == patches_after(old(self).patch_log(), e),
            },
    {
        let event = match lago_to_arcan(envelope) {
            None => return,
            Some(e) => e,
        };
        let ghost h0 = self.messages@;
        let ghost p0 = self.patches@;
        match event {
            AgentEvent::StatePatched { patch, .. } => {
                self.patches.push(patch);
                assert(self.patches@.map_values(|p: String| p@) == p0.map_values(|p: String| p@).push(patch@));
            },
            AgentEvent::TextDelta { delta, .. } => {
                let n = self.messages.len();
                if n > 0 && self.messages[n - 1].role == Role::Assistant {
                    let mut last = self.messages.pop().unwrap();
                    push_str(&mut last.content, delta.as_str());
                    self.messages.push(last);
                    assert(messages_view(self.messages@) == messages_view(h0).drop_last().push(
                        (Role::Assistant, messages_view(h0).last().1 + delta@, messages_view(h0).last().2)));
                } else {
                    self.messages.push(ChatMessage { role: Role::Assistant, content: delta, tool_call_id: None });
                    assert(messages_view(self.messages@) == messages_view(h0).push((Role::Assistant, delta@, None)));
                }
            },
            AgentEvent::ToolCallCompleted { result, .. } => {
                let ghost out = result.output@;
                let ghost id = result.call_id@;
                self.messages.push(ChatMessage { role: Role::Tool, content: result.output, tool_call_id: Some(result.call_id) });
                assert(messages_view(self.messages@) == messages_view(h0).push((Role::Tool, out, Some(id))));
            },
            _ => {},
        }
    }
}

} // verus!
