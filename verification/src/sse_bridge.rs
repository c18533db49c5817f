//! Numbering agent events for a server-sent event stream.
//!
//! Each event is journaled as an envelope with the next sequence number of
//! the stream; rendering the envelope in the selected wire format (OpenAI,
//! Anthropic, Vercel AI SDK or native Lago) is the caller's part.
use vstd::prelude::*;

use crate::event_map::{arcan_to_lago, journals, AgentEvent, EventEnvelope};
use crate::text::str_eq;

verus! {

/// The wire formats a stream can use.
#[derive(Clone, Copy, PartialEq, Eq, Structural)]
pub enum SseFormatKind {
    OpenAi,
    Anthropic,
    Vercel,
    Lago,
}

/// The name of a format.
pub open spec fn format_name_of(f: SseFormatKind) -> Seq<char> {
    match f {
        SseFormatKind::OpenAi => "openai"@,
        SseFormatKind::Anthropic => "anthropic"@,
        SseFormatKind::Vercel => "vercel"@,
        SseFormatKind::Lago => "lago"@,
    }
}

/// Selects a format by name: `openai`, `anthropic`, `vercel` or `lago`.
pub fn select_format(name: &str) -> (r: Option<SseFormatKind>)
    ensures
        match r {
            Some(f) => format_name_of(f) == name@,
            None => forall|f: SseFormatKind| format_name_of(f) != name@,
        },
{
    if str_eq(name, "openai") {
        Some(SseFormatKind::OpenAi)
    } else if str_eq(name, "anthropic") {
        Some(SseFormatKind::Anthropic)
    } else if str_eq(name, "vercel") {
        Some(SseFormatKind::Vercel)
    } else if str_eq(name, "lago") {
        Some(SseFormatKind::Lago)
    } else {
        None
    }
}

/// One stream of a session's events in a wire format.
pub struct SseBridge {
    format: SseFormatKind,
    session_id: String,
    branch_id: String,
    seq: u64,
}

impl SseBridge {
    /// The stream's format.
    pub closed spec fn format(&self) -> SseFormatKind {
        self.format
    }

    /// The number of events formatted so far.
    pub closed spec fn sequence(&self) -> u64 {
        self.seq
    }

    /// The session streamed.
    pub closed spec fn session(&self) -> Seq<char> {
        self.session_id@
    }

    /// The branch streamed.
    pub closed spec fn branch(&self) -> Seq<char> {
        self.branch_id@
    }

    /// A stream with no event yet.
    pub fn new(format: SseFormatKind, session_id: &str, branch_id: &str) -> (b: Self)
        ensures
            b.format() == format,
            b.sequence() == 0,
            b.session() == session_id@,
            b.branch() == branch_id@,
    {
        SseBridge { format, session_id: session_id.to_owned(), branch_id: branch_id.to_owned(), seq: 0 }
    }

    /// The envelope of the next event of run `run_id`, numbered after the
    /// previous one.  The event's id (`arcan_event_id`), the envelope's id,
    /// the span id of a tool completion and the time stamp are fresh values
    /// supplied by the caller.
    pub fn format_event(
        &mut self,
        event: &AgentEvent,
        run_id: &str,
        arcan_event_id: &str,
        envelope_id: String,
        tool_run_id: String,
        timestamp: u64,
    ) -> (env: EventEnvelope)
        requires
            old(self).sequence() < u64::MAX,
        ensures
            final(self).sequence() == old(self).sequence() + 1,
            final(self).format() == old(self).format(),
            final(self).session() == old(self).session(),
            final(self).branch() == old(self).branch(),
            journals(env, old(self).session(), old(self).branch(), final(self).sequence(), run_id@, event@, arcan_event_id@,
                envelope_id@, tool_run_id@, timestamp),
    {
        self.seq = self.seq + 1;
        arcan_to_lago(
            self.session_id.as_str(),
            self.branch_id.as_str(),
            self.seq,
            run_id,
            event,
            arcan_event_id,
            envelope_id,
            tool_run_id,
            timestamp,
        )
    }

    /// The number of events formatted so far.
    pub fn seq(&self) -> (n: u64)
        ensures
            n == self.sequence(),
    {
        self.seq
    }

    /// The name of the stream's format.
    pub fn format_name(&self) -> (s: &'static str)
        ensures
            s@ == format_name_of(self.format()),
    {
        match self.format {
            SseFormatKind::OpenAi => "openai",
            SseFormatKind::Anthropic => "anthropic",
            SseFormatKind::Vercel => "vercel",
            SseFormatKind::Lago => "lago",
        }
    }

    /// The stream's format.
    pub fn format_kind(&self) -> (f: SseFormatKind)
        ensures
            f == self.format(),
    {
        self.format
    }
}

} // verus!
