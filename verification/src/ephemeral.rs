//! Session-scoped discarding of memory events.
//!
//! Anonymous and free-tier sessions must not persist memory proposals and
//! commits.  Such sessions are marked ephemeral (reference counted, so that
//! overlapping markers do not re-enable persistence early); their memory
//! events are discarded while every other event passes through.
use vstd::prelude::*;

use crate::event_map::{EventEnvelope, EventPayload, PayloadV};
use crate::keyed::{find_key, lookup, put, remove_key};

verus! {

/// A journal that keeps nothing: writes are accepted and dropped, reads
/// find nothing.
pub struct EphemeralJournal;

impl EphemeralJournal {
    /// Drops the event; the sequence number reported is 0.
    pub fn append(&self, event: EventEnvelope) -> (seq: u64)
        ensures
            seq == 0,
    {
        0
    }

    /// Drops the events; the sequence number reported is 0.
    pub fn append_batch(&self, events: Vec<EventEnvelope>) -> (seq: u64)
        ensures
            seq == 0,
    {
        0
    }

    /// Finds no event.
    pub fn read(&self) -> (r: Vec<EventEnvelope>)
        ensures
            r@.len() == 0,
    {
        Vec::new()
    }

    /// Finds no event by id.
    pub fn get_event(&self, event_id: &str) -> (r: Option<EventEnvelope>)
        ensures
            r is None,
    {
        None
    }

    /// The head of every session is 0.
    pub fn head_seq(&self, session_id: &str, branch_id: &str) -> (seq: u64)
        ensures
            seq == 0,
    {
        0
    }

    /// Streams no event.
    pub fn stream(&self, session_id: &str, branch_id: &str, after_seq: u64) -> (r: Vec<EventEnvelope>)
        ensures
            r@.len() == 0,
    {
        Vec::new()
    }

    /// Knows no session.
    pub fn list_sessions(&self) -> (r: Vec<String>)
        ensures
            r@.len() == 0,
    {
        Vec::new()
    }
}

/// Whether a payload is a memory proposal or commit.
pub open spec fn is_memory_payload(p: PayloadV) -> bool {
    p is MemoryProposed || p is MemoryCommitted
}

/// Where an append goes.
pub enum AppendRoute {
    /// The event is dropped (sequence number 0).
    Discard,
    /// The event goes to the real journal.
    Forward(EventEnvelope),
}

/// Routes memory events of ephemeral sessions to the discard path.
pub struct SessionJournalSelector {
    ephemeral: Vec<(String, usize)>,
}

impl SessionJournalSelector {
    /// How many markers a session holds.
    pub closed spec fn marks(&self, session_id: Seq<char>) -> nat {
        match lookup(self.ephemeral@, session_id) {
            Some(n) => n as nat,
            None => 0,
        }
    }

    /// A selector with no ephemeral session.
    pub fn new() -> (s: Self)
        ensures
            forall|q: Seq<char>| #[trigger] s.marks(q) == 0,
    {
        SessionJournalSelector { ephemeral: Vec::new() }
    }

    /// Adds a marker to a session: its memory events are discarded until
    /// every marker is removed.
    pub fn mark_ephemeral(&mut self, session_id: &str)
        requires
            old(self).marks(session_id@) < usize::MAX,
        ensures
            forall|q: Seq<char>| #[trigger] final(self).marks(q) == if q == session_id@ {
                old(self).marks(q) + 1
            } else {
                old(self).marks(q)
            },
    {
        let n = match find_key(&self.ephemeral, session_id) {
            Some(i) => self.ephemeral[i].1,
            None => 0,
        };
        put(&mut self.ephemeral, session_id.to_owned(), n + 1);
    }

    /// Removes one marker from a session; nothing happens to a session
    /// without markers.
    pub fn unmark_ephemeral(&mut self, session_id: &str)
        ensures
            forall|q: Seq<char>| #[trigger] final(self).marks(q) == if q == session_id@ && old(self).marks(q) > 0 {
                (old(self).marks(q) - 1) as nat
            } else {
                old(self).marks(q)
            },
    {
        match find_key(&self.ephemeral, session_id) {
            Some(i) => {
                let n = self.ephemeral[i].1;
                if n <= 1 {
                    remove_key(&mut self.ephemeral, session_id);
                } else {
                    put(&mut self.ephemeral, session_id.to_owned(), n - 1);
                }
            },
            None => {},
        }
    }

    /// Whether a session holds a marker.
    pub fn is_ephemeral(&self, session_id: &str) -> (b: bool)
        ensures
            b == (self.marks(session_id@) > 0),
    {
        match find_key(&self.ephemeral, session_id) {
            Some(i) => self.ephemeral[i].1 > 0,
            None => false,
        }
    }

    /// Whether a payload is intercepted for ephemeral sessions.
    pub fn is_memory_event(payload: &EventPayload) -> (b: bool)
        ensures
            b == is_memory_payload(payload@),
    {
        match payload {
            EventPayload::MemoryProposed { .. } => true,
            EventPayload::MemoryCommitted { .. } => true,
            _ => false,
        }
    }

    /// Whether an event is discarded: a memory event of an ephemeral session.
    pub open spec fn discards(&self, e: EventEnvelope) -> bool {
        self.marks(e.session_id@) > 0 && is_memory_payload(e.payload@)
    }

    /// Where an append goes: discarded for a memory event of an ephemeral
    /// session, forwarded unchanged otherwise.
    pub fn append(&self, event: EventEnvelope) -> (r: AppendRoute)
        ensures
            self.discards(event) ==> r is Discard,
            !self.discards(event) ==> (r matches AppendRoute::Forward(e) && e == event),
    {
        if self.is_ephemeral(event.session_id.as_str()) && Self::is_memory_event(&event.payload) {
            AppendRoute::Discard
        } else {
            AppendRoute::Forward(event)
        }
    }

    /// The part of a batch that is forwarded: the events not discarded, in
    /// order.  An empty result means nothing is appended (sequence number 0).
    pub fn append_batch(&self, events: Vec<EventEnvelope>) -> (kept: Vec<EventEnvelope>)
        ensures
            kept@ == events@.filter(|e: EventEnvelope| !self.discards(e)),
    {
        let ghost orig = events@;
        let mut events = events;
        let mut kept: Vec<EventEnvelope> = Vec::new();
        let mut n: usize = 0;
        let len0 = events.len();
        while events.len() > 0
            invariant
                orig.len() == len0,
                n <= orig.len(),
                events@ == orig.skip(n as int),
                kept@ == orig.take(n as int).filter(|e: EventEnvelope| !self.discards(e)),
            decreases events.len(),
        {
            assert(n < orig.len());
            let e = events.remove(0);
            assert(orig.take(n + 1).drop_last() == orig.take(n as int));
            assert(orig.take(n + 1).last() == e);
            reveal_with_fuel(Seq::filter, 1);
            let drop = self.is_ephemeral(e.session_id.as_str()) && Self::is_memory_event(&e.payload);
            if !drop {
                kept.push(e);
            }
            n = n + 1;
            assert(events@ == orig.skip(n as int));
        }
        assert(orig.take(n as int) == orig);
        kept
    }
}

/// The marker count after a run of markings (`true`) and unmarkings
/// (`false`) starting from `c`.
pub open spec fn marks_after(ops: Seq<bool>, c: nat) -> nat
    decreases ops.len(),
{
    if ops.len() == 0 {
        c
    } else {
        let prev = marks_after(ops.drop_last(), c);
        if ops.last() { prev + 1 } else if prev > 0 { (prev - 1) as nat } else { 0 }
    }
}

/// `n` markings.
pub open spec fn markings(n: nat) -> Seq<bool> {
    Seq::new(n, |i: int| true)
}

/// `k` unmarkings.
pub open spec fn unmarkings(k: nat) -> Seq<bool> {
    Seq::new(k, |i: int| false)
}

/// `n` markings followed by `n` unmarkings leave a session as it was, and
/// the session stays ephemeral until the last of its markers is removed.
pub proof fn lemma_balanced_marks(n: nat, c: nat)
    ensures
        marks_after(markings(n) + unmarkings(n), c) == c,
        forall|k: nat| k < n ==> #[trigger] marks_after(markings(n) + unmarkings(k), c) > 0,
{
    lemma_marks(n, c);
    assert forall|k: nat| k <= n implies #[trigger] marks_after(markings(n) + unmarkings(k), c) == c + n - k by {
        lemma_unmarks(markings(n), k, c);
    }
    assert(marks_after(markings(n) + unmarkings(n), c) == c + n - n);
}

/// `n` markings add `n` markers.
proof fn lemma_marks(n: nat, c: nat)
    ensures
        marks_after(markings(n), c) == c + n,
    decreases n,
{
    if n > 0 {
        lemma_marks((n - 1) as nat, c);
        assert(markings(n).drop_last() == markings((n - 1) as nat));
    }
}

/// `k` unmarkings after a prefix with enough markers remove `k` markers.
proof fn lemma_unmarks(pre: Seq<bool>, k: nat, c: nat)
    requires
        marks_after(pre, c) >= k,
    ensures
        marks_after(pre + unmarkings(k), c) == marks_after(pre, c) - k,
    decreases k,
{
    if k == 0 {
        assert(pre + unmarkings(0) == pre);
    } else {
        lemma_unmarks(pre, (k - 1) as nat, c);
        assert((pre + unmarkings(k)).drop_last() == pre + unmarkings((k - 1) as nat));
    }
}

/// `t` is `s` after one marking of `sid` (as `mark_ephemeral` ensures).
pub open spec fn marked_step(s: SessionJournalSelector, t: SessionJournalSelector, sid: Seq<char>) -> bool {
    forall|q: Seq<char>| #[trigger] t.marks(q) == if q == sid { s.marks(q) + 1 } else { s.marks(q) }
}

/// `t` is `s` after one unmarking of `sid` (as `unmark_ephemeral` ensures).
pub open spec fn unmarked_step(s: SessionJournalSelector, t: SessionJournalSelector, sid: Seq<char>) -> bool {
    forall|q: Seq<char>| #[trigger] t.marks(q) == if q == sid && s.marks(q) > 0 { (s.marks(q) - 1) as nat } else { s.marks(q) }
}

/// A run of markings (`true`) and unmarkings (`false`) of one session
/// through a selector: the session's marker count follows `marks_after`,
/// and every other session keeps its count.
pub proof fn lemma_selector_marks(states: Seq<SessionJournalSelector>, ops: Seq<bool>, sid: Seq<char>, other: Seq<char>)
    requires
        states.len() == ops.len() + 1,
        other != sid,
        forall|i: int| 0 <= i < ops.len() ==> (if #[trigger] ops[i] {
            marked_step(states[i], states[i + 1], sid)
        } else {
            unmarked_step(states[i], states[i + 1], sid)
        }),
    ensures
        states.last().marks(sid) == marks_after(ops, states[0].marks(sid)),
        states.last().marks(other) == states[0].marks(other),
    decreases ops.len(),
{
    if ops.len() > 0 {
        let n = ops.len() - 1;
        let pre = states.take(n + 1);
        assert forall|i: int| 0 <= i < ops.drop_last().len() implies (if #[trigger] ops.drop_last()[i] {
            marked_step(pre[i], pre[i + 1], sid)
        } else {
            unmarked_step(pre[i], pre[i + 1], sid)
        }) by {
            assert(ops.drop_last()[i] == ops[i]);
            assert(pre[i] == states[i] && pre[i + 1] == states[i + 1]);
        }
        lemma_selector_marks(pre, ops.drop_last(), sid, other);
        assert(pre.last() == states[n]);
        assert(ops[n] == ops.last());
        if ops[n] {
            assert(marked_step(states[n], states[n + 1], sid));
            assert(states.last().marks(sid) == states[n].marks(sid) + 1);
            assert(states.last().marks(other) == states[n].marks(other));
        } else {
            assert(unmarked_step(states[n], states[n + 1], sid));
            assert(states.last().marks(sid) == if states[n].marks(sid) > 0 { (states[n].marks(sid) - 1) as nat } else { states[n].marks(sid) });
            assert(states.last().marks(other) == states[n].marks(other));
        }
    }
}

/// Marking a fresh session `n` times and unmarking it `k <= n` times leaves
/// it ephemeral exactly when `k < n`; other sessions are unaffected.
pub proof fn lemma_selector_ref_counts(states: Seq<SessionJournalSelector>, n: nat, k: nat, sid: Seq<char>, other: Seq<char>)
    requires
        k <= n,
        states.len() == n + k + 1,
        other != sid,
        states[0].marks(sid) == 0,
        forall|i: int| 0 <= i < n ==> marked_step(#[trigger] states[i], states[i + 1], sid),
        forall|i: int| n <= i < n + k ==> unmarked_step(#[trigger] states[i], states[i + 1], sid),
    ensures
        (states.last().marks(sid) > 0) == (k < n),
        states.last().marks(other) == states[0].marks(other),
{
    let ops = markings(n) + unmarkings(k);
    assert forall|i: int| 0 <= i < ops.len() implies (if #[trigger] ops[i] {
        marked_step(states[i], states[i + 1], sid)
    } else {
        unmarked_step(states[i], states[i + 1], sid)
    }) by {
        if i < n {
            assert(ops[i]);
        } else {
            assert(!ops[i]);
        }
    }
    lemma_selector_marks(states, ops, sid, other);
    lemma_marks(n, 0);
    lemma_unmarks(markings(n), k, 0);
}

} // verus!
