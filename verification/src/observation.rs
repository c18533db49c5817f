//! Observations drawn from runtime events, and their text compaction.
use vstd::prelude::*;

use crate::event_map::{opt_view, EventEnvelope, EventPayload, MemoryScope, PayloadV, SpanStatus};
use crate::text::{decimal, join_strings, join_with, push_str, u64_to_decimal, views};

verus! {

/// One observation: its text and the sequence number and time of the event
/// it came from.
pub struct Observation {
    pub text: String,
    pub source_seq: u64,
    pub timestamp: u64,
}

/// An observation as plain values.
pub open spec fn observation_view(o: Observation) -> (Seq<char>, u64, u64) {
    (o.text@, o.source_seq, o.timestamp)
}

/// Observations as plain values.
pub open spec fn observations_view(v: Seq<Observation>) -> Seq<(Seq<char>, u64, u64)> {
    v.map_values(|o: Observation| observation_view(o))
}

/// How a span status is written in observations.
pub open spec fn status_name(s: SpanStatus) -> Seq<char> {
    match s {
        SpanStatus::Success => "Ok"@,
        SpanStatus::Failure => "Error"@,
    }
}

/// The observation text of a payload: messages, message deltas, tool
/// results, state patches, errors and run ends are observed; every other
/// event is not.
pub open spec fn observation_text(p: PayloadV) -> Option<Seq<char>> {
    match p {
        PayloadV::Message { role, content, model } => Some(role + match model {
            Some(m) => " ["@ + m + "]"@,
            None => Seq::empty(),
        } + ": "@ + content),
        PayloadV::MessageDelta { role, delta } => Some(role + " delta: "@ + delta),
        PayloadV::ToolResult { tool_name, status, .. } => Some("tool:"@ + tool_name + " \u{2192} "@ + status_name(status)),
        PayloadV::StatePatched { patch, .. } => Some("state patched: "@ + patch),
        PayloadV::Error { error } => Some("error: "@ + error),
        PayloadV::RunFinished { reason, total_iterations, .. } =>
            Some("run finished: "@ + reason + " ("@ + decimal(total_iterations as nat) + " iterations)"@),
        _ => None,
    }
}

/// Accumulates the observations of one scope until a compaction threshold.
pub struct Observer {
    pub scope: MemoryScope,
    pub observations: Vec<Observation>,
    pub threshold: usize,
}

impl Observer {
    pub fn new(scope: MemoryScope, threshold: usize) -> (o: Self)
        ensures
            o.scope == scope,
            o.threshold == threshold,
            o.observations@.len() == 0,
    {
        Observer { scope, observations: Vec::new(), threshold }
    }

    /// The scope observed.
    pub fn scope(&self) -> (s: MemoryScope)
        ensures
            s == self.scope,
    {
        self.scope
    }

    /// How many observations are held.
    pub fn count(&self) -> (n: usize)
        ensures
            n == self.observations@.len(),
    {
        self.observations.len()
    }

    /// Whether enough observations are held to compact them.
    pub fn threshold_reached(&self) -> (b: bool)
        ensures
            b == (self.observations@.len() >= self.threshold),
    {
        self.observations.len() >= self.threshold
    }

    /// Hands over every observation held, leaving none.
    pub fn drain(&mut self) -> (r: Vec<Observation>)
        ensures
            r@ == old(self).observations@,
            final(self).observations@.len() == 0,
            final(self).scope == old(self).scope,
            final(self).threshold == old(self).threshold,
    {
        let mut out: Vec<Observation> = Vec::new();
        std::mem::swap(&mut out, &mut self.observations);
        out
    }

    /// The observations held.
    pub fn observations(&self) -> (r: &[Observation])
        ensures
            r@ == self.observations@,
    {
        self.observations.as_slice()
    }

    /// The projection's name.
    pub fn name(&self) -> (n: &'static str)
        ensures
            n@ == "arcan::observer"@,
    {
        "arcan::observer"
    }

    /// The observation text of a payload, if it is observed.
    pub fn extract_observation(payload: &EventPayload) -> (r: Option<String>)
        ensures
            opt_view(r) == observation_text(payload@),
    {
        match payload {
            EventPayload::Message { role, content, model } => {
                let mut s = role.clone();
                match model {
                    Some(m) => {
                        push_str(&mut s, " [");
                        push_str(&mut s, m.as_str());
                        push_str(&mut s, "]");
                    },
                    None => {},
                }
                push_str(&mut s, ": ");
                push_str(&mut s, content.as_str());
                Some(s)
            },
            EventPayload::MessageDelta { role, delta } => {
                let mut s = role.clone();
                push_str(&mut s, " delta: ");
                push_str(&mut s, delta.as_str());
                Some(s)
            },
            EventPayload::ToolResult { tool_name, status, .. } => {
                let mut s = "tool:".to_owned();
                push_str(&mut s, tool_name.as_str());
                push_str(&mut s, " \u{2192} ");
                match status {
                    SpanStatus::Success => push_str(&mut s, "Ok"),
                    SpanStatus::Failure => push_str(&mut s, "Error"),
                }
                Some(s)
            },
            EventPayload::StatePatched { patch, .. } => {
                let mut s = "state patched: ".to_owned();
                push_str(&mut s, patch.as_str());
                Some(s)
            },
            EventPayload::Error { error } => {
                let mut s = "error: ".to_owned();
                push_str(&mut s, error.as_str());
                Some(s)
            },
            EventPayload::RunFinished { reason, total_iterations, .. } => {
                let mut s = "run finished: ".to_owned();
                push_str(&mut s, reason.as_str());
                push_str(&mut s, " (");
                let n = u64_to_decimal(*total_iterations as u64);
                push_str(&mut s, n.as_str());
                push_str(&mut s, " iterations)");
                Some(s)
            },
            _ => None,
        }
    }

    /// Records the observation of an event, if it has one.
    pub fn on_event(&mut self, event: &EventEnvelope)
        ensures
            final(self).scope == old(self).scope,
            final(self).threshold == old(self).threshold,
            observations_view(final(self).observations@) == match observation_text(event.payload@) {
                Some(t) => observations_view(old(self).observations@).push((t, event.seq, event.timestamp)),
                None => observations_view(old(self).observations@),
            },
    {
        match Self::extract_observation(&event.payload) {
            Some(text) => {
                let ghost before = self.observations@;
                self.observations.push(Observation { text, source_seq: event.seq, timestamp: event.timestamp });
                assert(observations_view(self.observations@) == observations_view(before).push(observation_view(self.observations@.last())));
            },
            None => {},
        }
    }
}

/// The summary of observations: a header giving their number and the
/// sequence numbers of the first and last, then one `- text` line each,
/// joined by newlines; empty for no observations.
pub open spec fn summary(obs: Seq<(Seq<char>, u64, u64)>) -> Seq<char> {
    if obs.len() == 0 {
        Seq::empty()
    } else {
        join_with(
            seq!["Summary of "@ + decimal(obs.len()) + " observations (seq "@ + decimal(obs[0].1 as nat) + ".."@
                + decimal(obs.last().1 as nat) + "):"@]
                + obs.map_values(|o: (Seq<char>, u64, u64)| "- "@ + o.0),
            seq!['\n'],
        )
    }
}

/// Compacts observations into text.
pub struct Reflector;

impl Reflector {
    /// The summary of `observations`.
    pub fn compact(observations: &[Observation]) -> (s: String)
        ensures
            s@ == summary(observations_view(observations@)),
    {
        if observations.len() == 0 {
            return String::new();
        }
        let mut lines: Vec<String> = Vec::new();
        let mut header = "Summary of ".to_owned();
        let n = u64_to_decimal(observations.len() as u64);
        push_str(&mut header, n.as_str());
        push_str(&mut header, " observations (seq ");
        let first = u64_to_decimal(observations[0].source_seq);
        push_str(&mut header, first.as_str());
        push_str(&mut header, "..");
        let last = u64_to_decimal(observations[observations.len() - 1].source_seq);
        push_str(&mut header, last.as_str());
        push_str(&mut header, "):");
        lines.push(header);
        let ghost ov = observations_view(observations@);
        let ghost hv = lines@[0]@;
        let mut i: usize = 0;
        while i < observations.len()
            invariant
                i <= observations@.len(),
                ov == observations_view(observations@),
                lines@.len() == i + 1,
                views(lines@) == seq![hv] + ov.take(i as int).map_values(|o: (Seq<char>, u64, u64)| "- "@ + o.0),
            decreases observations.len() - i,
        {
            let mut line = "- ".to_owned();
            push_str(&mut line, observations[i].text.as_str());
            let ghost before = lines@;
            lines.push(line);
            assert(ov.take(i + 1) == ov.take(i as int).push(ov[i as int]));
            assert(views(lines@) == views(before).push("- "@ + ov[i as int].0));
            i = i + 1;
        }
        assert(ov.take(ov.len() as int) == ov);
        proof {
            reveal_strlit("\n");
        }
        let nl = crate::text::chars_vec("\n");
        let sep = crate::text::string_from_chars(nl.as_slice(), 0, 1);
        assert(sep@ == seq!['\n']);
        join_strings(&lines, sep.as_str())
    }
}

} // verus!
