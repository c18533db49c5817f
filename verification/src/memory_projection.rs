//! Queryable memory state folded from memory events: observations,
//! reflections and committed memories per scope, with tombstones.
use vstd::prelude::*;

use crate::event_map::{opt_view, EventPayload, MemoryScope, PayloadV};
use crate::text::{contains_str, lemma_seq_has_push, seq_has, views};

verus! {

/// A committed memory: its id, where its content is, and the memory it
/// replaces.
pub struct CommittedMemory {
    pub memory_id: String,
    pub committed_ref: String,
    pub supersedes: Option<String>,
}

/// A committed memory as plain values.
pub open spec fn committed_view(m: CommittedMemory) -> (Seq<char>, Seq<char>, Option<Seq<char>>) {
    (m.memory_id@, m.committed_ref@, opt_view(m.supersedes))
}

/// Committed memories as plain values.
pub open spec fn committed_views(v: Seq<CommittedMemory>) -> Seq<(Seq<char>, Seq<char>, Option<Seq<char>>)> {
    v.map_values(|m: CommittedMemory| committed_view(m))
}

/// What a scope's memory holds at query time.
pub struct MemoryQueryResult {
    pub observations: Vec<String>,
    pub reflection: Option<String>,
    pub committed: Vec<CommittedMemory>,
}

/// The slot of a scope.
pub open spec fn scope_slot(s: MemoryScope) -> int {
    match s {
        MemoryScope::Session => 0,
        MemoryScope::User => 1,
        MemoryScope::Agent => 2,
        MemoryScope::Org => 3,
    }
}

fn scope_index(s: MemoryScope) -> (i: usize)
    ensures
        i == scope_slot(s),
{
    match s {
        MemoryScope::Session => 0,
        MemoryScope::User => 1,
        MemoryScope::Agent => 2,
        MemoryScope::Org => 3,
    }
}

/// The memories of `v` whose ids are not in `gone`, in order.
pub open spec fn live(v: Seq<(Seq<char>, Seq<char>, Option<Seq<char>>)>, gone: Set<Seq<char>>) -> Seq<(Seq<char>, Seq<char>, Option<Seq<char>>)>
    decreases v.len(),
{
    if v.len() == 0 {
        Seq::empty()
    } else if gone.contains(v.last().0) {
        live(v.drop_last(), gone)
    } else {
        live(v.drop_last(), gone).push(v.last())
    }
}

/// A scope's observations after an event: an observation for the scope
/// is appended.
pub open spec fn observations_after(obs: Seq<Seq<char>>, p: PayloadV, s: MemoryScope) -> Seq<Seq<char>> {
    match p {
        PayloadV::ObservationAppended { scope, observation_ref, .. } => if scope == s { obs.push(observation_ref) } else { obs },
        _ => obs,
    }
}

/// A scope's reflection after an event: a reflection for the scope
/// replaces it.
pub open spec fn reflection_after(r: Option<Seq<char>>, p: PayloadV, s: MemoryScope) -> Option<Seq<char>> {
    match p {
        PayloadV::ReflectionCompacted { scope, summary_ref } => if scope == s { Some(summary_ref) } else { r },
        _ => r,
    }
}

/// A scope's committed memories after an event: a commit for the scope is
/// appended.
pub open spec fn committed_after(
    c: Seq<(Seq<char>, Seq<char>, Option<Seq<char>>)>,
    p: PayloadV,
    s: MemoryScope,
) -> Seq<(Seq<char>, Seq<char>, Option<Seq<char>>)> {
    match p {
        PayloadV::MemoryCommitted { scope, memory_id, committed_ref, supersedes } =>
            if scope == s { c.push((memory_id, committed_ref, supersedes)) } else { c },
        _ => c,
    }
}

/// The tombstones after an event: a commit tombstones the memory it
/// supersedes, a tombstone event its memory.
pub open spec fn tombstones_after(t: Set<Seq<char>>, p: PayloadV) -> Set<Seq<char>> {
    match p {
        PayloadV::MemoryCommitted { supersedes, .. } => match supersedes {
            Some(old_id) => t.insert(old_id),
            None => t,
        },
        PayloadV::MemoryTombstoned { memory_id, .. } => t.insert(memory_id),
        _ => t,
    }
}

/// Folds memory events into per-scope memory state.
pub struct MemoryProjection {
    observations: Vec<Vec<String>>,
    reflections: Vec<Option<String>>,
    committed: Vec<Vec<CommittedMemory>>,
    tombstoned: Vec<String>,
}

impl MemoryProjection {
    /// One slot per scope.
    pub closed spec fn wf(&self) -> bool {
        &&& self.observations@.len() == 4
        &&& self.reflections@.len() == 4
        &&& self.committed@.len() == 4
    }

    /// The observation references of a scope, in arrival order.
    pub closed spec fn observations_of(&self, s: MemoryScope) -> Seq<Seq<char>> {
        views(self.observations@[scope_slot(s)]@)
    }

    /// The latest reflection of a scope.
    pub closed spec fn reflection_of(&self, s: MemoryScope) -> Option<Seq<char>> {
        opt_view(self.reflections@[scope_slot(s)])
    }

    /// Every memory committed in a scope, in commit order.
    pub closed spec fn committed_of(&self, s: MemoryScope) -> Seq<(Seq<char>, Seq<char>, Option<Seq<char>>)> {
        committed_views(self.committed@[scope_slot(s)]@)
    }

    /// The ids of tombstoned memories.
    pub closed spec fn tombstones(&self) -> Set<Seq<char>> {
        Set::new(|id: Seq<char>| seq_has(self.tombstoned@, id))
    }

    /// The empty projection.
    pub fn new() -> (p: Self)
        ensures
            p.wf(),
            forall|s: MemoryScope| #[trigger] p.observations_of(s).len() == 0 && p.reflection_of(s) is None && p.committed_of(s).len() == 0,
            p.tombstones() == Set::<Seq<char>>::empty(),
    {
        let mut observations: Vec<Vec<String>> = Vec::new();
        let mut reflections: Vec<Option<String>> = Vec::new();
        let mut committed: Vec<Vec<CommittedMemory>> = Vec::new();
        let mut i: usize = 0;
        while i < 4
            invariant
                i <= 4,
                observations@.len() == i,
                reflections@.len() == i,
                committed@.len() == i,
                forall|k: int| 0 <= k < i ==> #[trigger] observations@[k]@.len() == 0 && reflections@[k] is None && committed@[k]@.len() == 0,
            decreases 4 - i,
        {
            observations.push(Vec::new());
            reflections.push(None);
            committed.push(Vec::new());
            i = i + 1;
        }
        let p = MemoryProjection { observations, reflections, committed, tombstoned: Vec::new() };
        assert(p.tombstones() =~= Set::<Seq<char>>::empty());
        p
    }

    /// The projection's name.
    pub fn name(&self) -> (n: &'static str)
        ensures
            n@ == "arcan::memory"@,
    {
        "arcan::memory"
    }

    fn tombstone(&mut self, id: &String)
        requires
            old(self).wf(),
        ensures
            final(self).wf(),
            final(self).tombstones() == old(self).tombstones().insert(id@),
            final(self).observations == old(self).observations,
            final(self).reflections == old(self).reflections,
            final(self).committed == old(self).committed,
            forall|s: MemoryScope| #![trigger final(self).observations_of(s)] #![trigger final(self).reflection_of(s)] #![trigger final(self).committed_of(s)]
                final(self).observations_of(s) == old(self).observations_of(s)
                && final(self).reflection_of(s) == old(self).reflection_of(s)
                && final(self).committed_of(s) == old(self).committed_of(s),
    {
        let ghost before = self.tombstoned@;
        let c = id.clone();
        self.tombstoned.push(c);
        assert forall|x: Seq<char>| #[trigger] self.tombstones().contains(x) <==> old(self).tombstones().insert(id@).contains(x) by {
            lemma_seq_has_push(before, c, x);
        }
        assert(self.tombstones() =~= old(self).tombstones().insert(id@));
    }

    /// Folds one event: an observation is appended to its scope, a
    /// reflection replaces its scope's reflection, a commit is appended to
    /// its scope (tombstoning the memory it supersedes), and a tombstone
    /// marks its memory.  Other events change nothing.
    pub fn on_event(&mut self, payload: &EventPayload)
        requires
            old(self).wf(),
        ensures
            final(self).wf(),
            forall|s: MemoryScope| #![trigger final(self).observations_of(s)] #![trigger final(self).reflection_of(s)] #![trigger final(self).committed_of(s)]
                final(self).observations_of(s) == observations_after(old(self).observations_of(s), payload@, s)
                && final(self).reflection_of(s) == reflection_after(old(self).reflection_of(s), payload@, s)
                && final(self).committed_of(s) == committed_after(old(self).committed_of(s), payload@, s),
            final(self).tombstones() == tombstones_after(old(self).tombstones(), payload@),
    {
        match payload {
            EventPayload::ObservationAppended { scope, observation_ref, source_run_id } => {
                assert(payload@ == PayloadV::ObservationAppended { scope: *scope, observation_ref: observation_ref@, source_run_id: opt_view(*source_run_id) });
                let i = scope_index(*scope);
                let mut slot = self.observations.remove(i);
                let ghost before = slot@;
                assert(before == old(self).observations@[i as int]@);
                slot.push(observation_ref.clone());
                assert(views(slot@) == views(before).push(observation_ref@));
                let ghost after = slot@;
                self.observations.insert(i, slot);
                assert(self.observations@[i as int]@ == after);
                assert(forall|k: int| 0 <= k < 4 && k != i ==> self.observations@[k] == old(self).observations@[k]);
                assert(forall|s: MemoryScope| scope_slot(s) == i ==> s == *scope);
            },
            EventPayload::ReflectionCompacted { scope, summary_ref } => {
                let i = scope_index(*scope);
                self.reflections.set(i, Some(summary_ref.clone()));
                assert(forall|s: MemoryScope| scope_slot(s) == i ==> s == *scope);
            },
            EventPayload::MemoryCommitted { scope, memory_id, committed_ref, supersedes } => {
                match supersedes {
                    Some(old_id) => self.tombstone(old_id),
                    None => {},
                }
                let i = scope_index(*scope);
                let entry = CommittedMemory {
                    memory_id: memory_id.clone(),
                    committed_ref: committed_ref.clone(),
                    supersedes: match supersedes { Some(x) => Some(x.clone()), None => None },
                };
                let ghost mid = self.committed@;
                let mut slot = self.committed.remove(i);
                let ghost before = slot@;
                assert(before == mid[i as int]@);
                slot.push(entry);
                assert(committed_views(slot@) == committed_views(before).push((memory_id@, committed_ref@, opt_view(*supersedes))));
                let ghost after = slot@;
                self.committed.insert(i, slot);
                assert(self.committed@[i as int]@ == after);
                assert(forall|k: int| 0 <= k < 4 && k != i ==> self.committed@[k] == mid[k]);
                assert(forall|s: MemoryScope| scope_slot(s) == i ==> s == *scope);
            },
            EventPayload::MemoryTombstoned { memory_id, .. } => {
                self.tombstone(memory_id);
            },
            _ => {},
        }
    }

    /// Everything a scope holds, committed memories without the tombstoned
    /// ones.
    pub fn query(&self, scope: MemoryScope) -> (r: MemoryQueryResult)
        requires
            self.wf(),
        ensures
            views(r.observations@) == self.observations_of(scope),
            opt_view(r.reflection) == self.reflection_of(scope),
            committed_views(r.committed@) == live(self.committed_of(scope), self.tombstones()),
    {
        let i = scope_index(scope);
        let mut observations: Vec<String> = Vec::new();
        let src = &self.observations[i];
        let mut k: usize = 0;
        while k < src.len()
            invariant
                k <= src@.len(),
                views(observations@) == views(src@.take(k as int)),
            decreases src.len() - k,
        {
            let ghost before = observations@;
            observations.push(src[k].clone());
            assert(src@.take(k + 1) == src@.take(k as int).push(src@[k as int]));
            assert(views(observations@) == views(before).push(src@[k as int]@));
            assert(views(src@.take(k + 1)) == views(src@.take(k as int)).push(src@[k as int]@));
            k = k + 1;
        }
        assert(src@.take(src@.len() as int) == src@);
        let reflection = match &self.reflections[i] {
            Some(r) => Some(r.clone()),
            None => None,
        };
        let entries = &self.committed[i];
        let mut committed: Vec<CommittedMemory> = Vec::new();
        let mut j: usize = 0;
        while j < entries.len()
            invariant
                j <= entries@.len(),
                committed_views(committed@) == live(committed_views(entries@.take(j as int)), self.tombstones()),
            decreases entries.len() - j,
        {
            let ghost cv = committed_views(entries@.take(j + 1));
            assert(entries@.take(j + 1).drop_last() == entries@.take(j as int));
            assert(cv.drop_last() == committed_views(entries@.take(j as int)));
            assert(cv.last() == committed_view(entries@[j as int]));
            let e = &entries[j];
            if !contains_str(&self.tombstoned, e.memory_id.as_str()) {
                assert(!self.tombstones().contains(e.memory_id@));
                let ghost before = committed@;
                committed.push(CommittedMemory {
                    memory_id: e.memory_id.clone(),
                    committed_ref: e.committed_ref.clone(),
                    supersedes: match &e.supersedes { Some(x) => Some(x.clone()), None => None },
                });
                assert(committed_views(committed@) == committed_views(before).push(committed_view(*e)));
            } else {
                assert(self.tombstones().contains(e.memory_id@));
            }
            j = j + 1;
        }
        assert(entries@.take(entries@.len() as int) == entries@);
        MemoryQueryResult { observations, reflection, committed }
    }

    /// The latest reflection of a scope.
    pub fn latest_reflection(&self, scope: MemoryScope) -> (r: Option<String>)
        requires
            self.wf(),
        ensures
            opt_view(r) == self.reflection_of(scope),
    {
        match &self.reflections[scope_index(scope)] {
            Some(x) => Some(x.clone()),
            None => None,
        }
    }

    /// How many observations a scope holds.
    pub fn observation_count(&self, scope: MemoryScope) -> (n: usize)
        requires
            self.wf(),
        ensures
            n == self.observations_of(scope).len(),
    {
        self.observations[scope_index(scope)].len()
    }
}

/// No tombstoned memory is live: queries never return a memory whose id
/// has been tombstoned (directly or by a commit that supersedes it).
pub proof fn lemma_live_excludes_tombstoned(v: Seq<(Seq<char>, Seq<char>, Option<Seq<char>>)>, gone: Set<Seq<char>>)
    ensures
        forall|i: int| 0 <= i < live(v, gone).len() ==> !gone.contains(#[trigger] live(v, gone)[i].0),
        live(v, gone).len() <= v.len(),
    decreases v.len(),
{
    if v.len() > 0 {
        lemma_live_excludes_tombstoned(v.drop_last(), gone);
    }
}

/// Every live memory that is not tombstoned stays: a memory committed in a
/// scope is returned by queries as long as its id is not tombstoned.
pub proof fn lemma_live_keeps_untombstoned(v: Seq<(Seq<char>, Seq<char>, Option<Seq<char>>)>, gone: Set<Seq<char>>, i: int)
    requires
        0 <= i < v.len(),
        !gone.contains(v[i].0),
    ensures
        live(v, gone).contains(v[i]),
    decreases v.len(),
{
    if i == v.len() - 1 {
        assert(live(v, gone).last() == v[i]);
    } else {
        lemma_live_keeps_untombstoned(v.drop_last(), gone, i);
        let w = live(v.drop_last(), gone);
        let k = choose|k: int| 0 <= k < w.len() && w[k] == v[i];
        if !gone.contains(v.last().0) {
            assert(live(v, gone)[k] == v[i]);
        }
    }
}

} // verus!
