//! Tiered retention for the event journal: time-to-live tagging, per-user
//! namespaces and approximate storage accounting.
//!
//! Free sessions share the `shared` namespace with a 7-day rolling TTL; pro
//! sessions use `pro` with 90 days.  Events of registered sessions are
//! tagged with their expiry, owner and namespace; expired events are hidden
//! from reads, expired memory events are tombstoned by eviction, and a
//! user's free events can be re-tagged as pro.  Reading and appending to the
//! underlying journal is the caller's part: this module decides what is
//! tagged, hidden, tombstoned, exported and migrated.
use vstd::prelude::*;

use crate::event_map::{opt_view, EventEnvelope, EventPayload, MemoryScope, PayloadV};
use crate::keyed::{find_key, lookup, put, remove_key};
use crate::text::{decimal, lemma_parse_decimal, parse_u64, parsed_u64, push_str, str_eq, u64_to_decimal};

verus! {

/// Microseconds in a day.
pub const MICROS_PER_DAY: u64 = 86_400_000_000;

/// A retention policy: the namespace written into events, the days events
/// are kept, and how many memories a user may pin.
pub struct LagoPolicyConfig {
    pub namespace: String,
    pub retention_days: u32,
    pub max_pinned: u32,
}

/// A policy as plain values.
pub open spec fn config_view(c: LagoPolicyConfig) -> (Seq<char>, u32, u32) {
    (c.namespace@, c.retention_days, c.max_pinned)
}

impl Default for LagoPolicyConfig {
    /// The free tier: `shared`, 7 days, 100 pinned memories.
    fn default() -> (c: Self)
        ensures
            config_view(c) == ("shared"@, 7u32, 100u32),
    {
        LagoPolicyConfig { namespace: "shared".to_owned(), retention_days: 7, max_pinned: 100 }
    }
}

/// `now` plus `add`, or the largest `u64` when that overflows.
pub open spec fn saturating_add(now: u64, add: u64) -> u64 {
    if now + add <= u64::MAX { (now + add) as u64 } else { u64::MAX }
}

/// The current time in microseconds since the Unix epoch (std
/// `SystemTime::now`).  Trusted to return; nothing is stated of the value.
#[verifier::external_body]
fn now_micros() -> (t: u64) {
    match std::time::SystemTime::now().duration_since(std::time::UNIX_EPOCH) {
        Ok(d) => d.as_micros() as u64,
        Err(_) => 0,
    }
}

impl LagoPolicyConfig {
    /// The pro tier: `pro`, 90 days, unlimited pinned memories.
    pub fn pro() -> (c: Self)
        ensures
            config_view(c) == ("pro"@, 90u32, u32::MAX),
    {
        LagoPolicyConfig { namespace: "pro".to_owned(), retention_days: 90, max_pinned: u32::MAX }
    }

    /// The retention window fits in 64 bits of microseconds.
    pub open spec fn window_fits(&self) -> bool {
        self.retention_days as nat * MICROS_PER_DAY as nat <= u64::MAX as nat
    }

    /// The retention window in microseconds.
    pub open spec fn window(&self) -> u64 {
        (self.retention_days as nat * MICROS_PER_DAY as nat) as u64
    }

    /// The expiry of an event appended at `now`: `now` plus the retention
    /// window, saturating.
    pub fn expires_at_from(&self, now: u64) -> (t: u64)
        requires
            self.window_fits(),
        ensures
            t == saturating_add(now, self.window()),
    {
        let window = (self.retention_days as u64) * MICROS_PER_DAY;
        now.saturating_add(window)
    }

    /// The expiry of an event appended now: `expires_at_from` at the time
    /// the clock gave (the clock's reading is not stated).
    pub fn expires_at_micros(&self) -> (t: u64)
        requires
            self.window_fits(),
        ensures
            exists|now: u64| t == #[trigger] saturating_add(now, self.window()),
            t >= self.window(),
    {
        let now = now_micros();
        let t = self.expires_at_from(now);
        assert(t == saturating_add(now, self.window()));
        t
    }
}

/// Which user owns a registered session, and under which policy.
pub struct SessionTierRegistration {
    pub user_id: String,
    pub config: LagoPolicyConfig,
}

/// A registration, if any, has a policy whose window fits.
pub open spec fn registration_fits(o: Option<SessionTierRegistration>) -> bool {
    match o {
        Some(r) => r.config.window_fits(),
        None => true,
    }
}

/// The metadata key of an event's expiry (microseconds, decimal).
pub open spec fn expires_key() -> Seq<char> {
    "lago:expires_at"@
}

/// The metadata key of an event's owner.
pub open spec fn user_key() -> Seq<char> {
    "lago:user_id"@
}

/// The metadata key of an event's namespace.
pub open spec fn namespace_key() -> Seq<char> {
    "lago:namespace"@
}

/// A metadata value as text.
pub open spec fn meta(m: Seq<(String, String)>, k: Seq<char>) -> Option<Seq<char>> {
    opt_view(lookup(m, k))
}

/// Whether an event with metadata `m` has expired at `now`: it carries an
/// expiry that parses as a number smaller than `now`.  Events without an
/// expiry, or with a malformed one, never expire.
pub open spec fn expired(m: Seq<(String, String)>, now: u64) -> bool {
    match meta(m, expires_key()) {
        None => false,
        Some(v) => match parsed_u64(v) {
            None => false,
            Some(e) => e < now,
        },
    }
}

/// The scope of a memory event (proposal, commit, observation), if it is one.
pub open spec fn memory_scope_spec(p: PayloadV) -> Option<MemoryScope> {
    match p {
        PayloadV::MemoryProposed { scope, .. } => Some(scope),
        PayloadV::MemoryCommitted { scope, .. } => Some(scope),
        PayloadV::ObservationAppended { scope, .. } => Some(scope),
        _ => None,
    }
}

/// The positions `i < n` of `events` that `p` selects, in order.
pub open spec fn positions(events: Seq<EventEnvelope>, p: spec_fn(EventEnvelope) -> bool, n: nat) -> Seq<usize>
    decreases n,
{
    if n == 0 {
        Seq::empty()
    } else {
        let prev = positions(events, p, (n - 1) as nat);
        if p(events[n - 1]) { prev.push((n - 1) as usize) } else { prev }
    }
}

/// Eviction targets: expired memory events.
pub open spec fn evictable(now: u64) -> spec_fn(EventEnvelope) -> bool {
    |e: EventEnvelope| expired(e.metadata@, now) && memory_scope_spec(e.payload@) is Some
}

/// Export targets: unexpired events owned by `user`.
pub open spec fn exportable(user: Seq<char>, now: u64) -> spec_fn(EventEnvelope) -> bool {
    |e: EventEnvelope| meta(e.metadata@, user_key()) == Some(user) && !expired(e.metadata@, now)
}

/// Migration targets: unexpired events owned by `user` in the shared
/// namespace.
pub open spec fn migratable(user: Seq<char>, now: u64) -> spec_fn(EventEnvelope) -> bool {
    |e: EventEnvelope| meta(e.metadata@, namespace_key()) == Some("shared"@)
        && meta(e.metadata@, user_key()) == Some(user) && !expired(e.metadata@, now)
}

/// Visible events: the unexpired ones.
pub open spec fn visible(now: u64) -> spec_fn(EventEnvelope) -> bool {
    |e: EventEnvelope| !expired(e.metadata@, now)
}

/// A metadata value, looked up.
fn meta_get(m: &Vec<(String, String)>, k: &str) -> (r: Option<String>)
    ensures
        opt_view(r) == meta(m@, k@),
{
    match find_key(m, k) {
        Some(i) => Some(m[i].1.clone()),
        None => None,
    }
}

/// Whether a metadata value is present and equal to `v`.
fn meta_is(m: &Vec<(String, String)>, k: &str, v: &str) -> (b: bool)
    ensures
        b == (meta(m@, k@) == Some(v@)),
{
    match meta_get(m, k) {
        Some(x) => str_eq(x.as_str(), v),
        None => false,
    }
}

/// Tags events with retention metadata and decides what is hidden,
/// evicted, exported and migrated.
pub struct FreeTierJournal {
    config: LagoPolicyConfig,
    registrations: Vec<(String, SessionTierRegistration)>,
    user_bytes: Vec<(String, u64)>,
}

impl FreeTierJournal {
    /// The default policy, used by `register_session`.
    pub closed spec fn default_config(&self) -> (Seq<char>, u32, u32) {
        config_view(self.config)
    }

    /// The owner and policy of a registered session.
    pub closed spec fn registration(&self, session_id: Seq<char>) -> Option<(Seq<char>, (Seq<char>, u32, u32))> {
        match lookup(self.registrations@, session_id) {
            Some(r) => Some((r.user_id@, config_view(r.config))),
            None => None,
        }
    }

    /// The approximate bytes stored for a user.
    pub closed spec fn bytes(&self, user_id: Seq<char>) -> u64 {
        match lookup(self.user_bytes@, user_id) {
            Some(b) => b,
            None => 0,
        }
    }

    /// Every registered session's policy has a window that fits.
    pub closed spec fn wf(&self) -> bool {
        &&& self.config.window_fits()
        &&& forall|s: Seq<char>| #[trigger] registration_fits(lookup(self.registrations@, s))
    }

    /// A journal with no registered session and no stored bytes.
    pub fn new(config: LagoPolicyConfig) -> (j: Self)
        requires
            config.window_fits(),
        ensures
            j.wf(),
            j.default_config() == config_view(config),
            forall|s: Seq<char>| #[trigger] j.registration(s) is None,
            forall|u: Seq<char>| #[trigger] j.bytes(u) == 0,
    {
        FreeTierJournal { config, registrations: Vec::new(), user_bytes: Vec::new() }
    }

    /// The default policy.
    pub fn config(&self) -> (c: &LagoPolicyConfig)
        ensures
            config_view(*c) == self.default_config(),
    {
        &self.config
    }

    /// Registers a session of `user_id` under `config`; it replaces an
    /// earlier registration of the session.
    pub fn register_session_with_config(&mut self, session_id: &str, user_id: &str, config: LagoPolicyConfig)
        requires
            old(self).wf(),
            config.window_fits(),
        ensures
            final(self).wf(),
            final(self).default_config() == old(self).default_config(),
            forall|s: Seq<char>| #[trigger] final(self).registration(s) == (if s == session_id@ {
                Some((user_id@, config_view(config)))
            } else {
                old(self).registration(s)
            }),
            forall|u: Seq<char>| #[trigger] final(self).bytes(u) == old(self).bytes(u),
    {
        let ghost cv = config_view(config);
        let reg = SessionTierRegistration { user_id: user_id.to_owned(), config };
        put(&mut self.registrations, session_id.to_owned(), reg);
        assert forall|s: Seq<char>| #[trigger] registration_fits(lookup(self.registrations@, s)) by {
            if s != session_id@ {
                assert(lookup(old(self).registrations@, s) == lookup(self.registrations@, s));
            }
        }
    }

    /// Registers a session of `user_id` under the default policy.
    pub fn register_session(&mut self, session_id: &str, user_id: &str)
        requires
            old(self).wf(),
        ensures
            final(self).wf(),
            final(self).default_config() == old(self).default_config(),
            forall|s: Seq<char>| #[trigger] final(self).registration(s) == (if s == session_id@ {
                Some((user_id@, old(self).default_config()))
            } else {
                old(self).registration(s)
            }),
            forall|u: Seq<char>| #[trigger] final(self).bytes(u) == old(self).bytes(u),
    {
        let config = LagoPolicyConfig {
            namespace: self.config.namespace.clone(),
            retention_days: self.config.retention_days,
            max_pinned: self.config.max_pinned,
        };
        self.register_session_with_config(session_id, user_id, config);
    }

    /// Forgets a session's registration; its later events pass untagged.
    pub fn unregister_session(&mut self, session_id: &str)
        requires
            old(self).wf(),
        ensures
            final(self).wf(),
            final(self).default_config() == old(self).default_config(),
            forall|s: Seq<char>| #[trigger] final(self).registration(s) == (if s == session_id@ {
                None
            } else {
                old(self).registration(s)
            }),
            forall|u: Seq<char>| #[trigger] final(self).bytes(u) == old(self).bytes(u),
    {
        remove_key(&mut self.registrations, session_id);
        assert forall|s: Seq<char>| #[trigger] registration_fits(lookup(self.registrations@, s)) by {
            if s != session_id@ {
                assert(lookup(old(self).registrations@, s) == lookup(self.registrations@, s));
            }
        }
    }

    /// Whether a session is registered.
    pub fn is_registered(&self, session_id: &str) -> (b: bool)
        ensures
            b == self.registration(session_id@) is Some,
    {
        find_key(&self.registrations, session_id).is_some()
    }

    /// The owner of a registered session.
    pub fn user_id_for_session(&self, session_id: &str) -> (r: Option<String>)
        ensures
            match self.registration(session_id@) {
                Some((u, _)) => r matches Some(x) && x@ == u,
                None => r is None,
            },
    {
        match find_key(&self.registrations, session_id) {
            Some(i) => Some(self.registrations[i].1.user_id.clone()),
            None => None,
        }
    }

    /// The approximate bytes stored for a user (0 for an unknown user).
    pub fn memory_used_bytes(&self, user_id: &str) -> (b: u64)
        ensures
            b == self.bytes(user_id@),
    {
        match find_key(&self.user_bytes, user_id) {
            Some(i) => self.user_bytes[i].1,
            None => 0,
        }
    }

    /// Whether an event's metadata says it has expired at `now`.
    pub fn is_expired(metadata: &Vec<(String, String)>, now: u64) -> (b: bool)
        ensures
            b == expired(metadata@, now),
    {
        match meta_get(metadata, "lago:expires_at") {
            None => false,
            Some(v) => match parse_u64(v.as_str()) {
                None => false,
                Some(e) => e < now,
            },
        }
    }

    /// The scope of a memory event, if it is one.
    pub fn memory_scope_of(payload: &EventPayload) -> (r: Option<MemoryScope>)
        ensures
            r == memory_scope_spec(payload@),
    {
        match payload {
            EventPayload::MemoryProposed { scope, .. } => Some(*scope),
            EventPayload::MemoryCommitted { scope, .. } => Some(*scope),
            EventPayload::ObservationAppended { scope, .. } => Some(*scope),
            _ => None,
        }
    }
}

/// `a` and `b` agree on everything but their metadata.
pub open spec fn same_but_metadata(a: EventEnvelope, b: EventEnvelope) -> bool {
    &&& a.event_id == b.event_id
    &&& a.session_id == b.session_id
    &&& a.branch_id == b.branch_id
    &&& a.run_id == b.run_id
    &&& a.seq == b.seq
    &&& a.timestamp == b.timestamp
    &&& a.parent_id == b.parent_id
    &&& a.payload == b.payload
    &&& a.schema_version == b.schema_version
}

/// The metadata `m` tagged with an expiry, an owner and a namespace; every
/// other key keeps its value.
pub open spec fn tagged(m: Seq<(String, String)>, t: Seq<(String, String)>, expires: u64, user: Seq<char>, namespace: Seq<char>) -> bool {
    forall|k: Seq<char>| #[trigger] meta(t, k) == (if k == expires_key() {
        Some(decimal(expires as nat))
    } else if k == user_key() {
        Some(user)
    } else if k == namespace_key() {
        Some(namespace)
    } else {
        meta(m, k)
    })
}

/// Selects the positions of `events` that `keep` accepts.
fn select_positions(events: &Vec<EventEnvelope>, now: u64, user: &str, which: u8) -> (r: Vec<usize>)
    requires
        which < 4,
    ensures
        r@ == positions(events@, selector(which, user@, now), events@.len()),
{
    let ghost p = selector(which, user@, now);
    let mut r: Vec<usize> = Vec::new();
    let mut i: usize = 0;
    while i < events.len()
        invariant
            i <= events@.len(),
            which < 4,
            p == selector(which, user@, now),
            r@ == positions(events@, p, i as nat),
        decreases events.len() - i,
    {
        let e = &events[i];
        let expired_now = FreeTierJournal::is_expired(&e.metadata, now);
        let keep = if which == 0 {
            expired_now && FreeTierJournal::memory_scope_of(&e.payload).is_some()
        } else if which == 1 {
            meta_is(&e.metadata, "lago:user_id", user) && !expired_now
        } else if which == 2 {
            meta_is(&e.metadata, "lago:namespace", "shared") && meta_is(&e.metadata, "lago:user_id", user) && !expired_now
        } else {
            !expired_now
        };
        assert(keep == p(events@[i as int]));
        if keep {
            r.push(i);
        }
        i = i + 1;
    }
    r
}

/// The selection a position filter applies: eviction, export, migration or
/// visibility.
pub open spec fn selector(which: u8, user: Seq<char>, now: u64) -> spec_fn(EventEnvelope) -> bool {
    if which == 0 {
        evictable(now)
    } else if which == 1 {
        exportable(user, now)
    } else if which == 2 {
        migratable(user, now)
    } else {
        visible(now)
    }
}

impl FreeTierJournal {
    /// Tags an event of `user_id` under `config` at `now`: its expiry, owner
    /// and namespace; the user's stored bytes grow by the payload's size
    /// (`payload_bytes`, or 256 when it could not be measured), saturating.
    pub fn tag_event(&mut self, event: EventEnvelope, user_id: &str, config: &LagoPolicyConfig, now: u64, payload_bytes: Option<u64>) -> (r: EventEnvelope)
        requires
            config.window_fits(),
        ensures
            same_but_metadata(r, event),
            tagged(event.metadata@, r.metadata@, saturating_add(now, config.window()), user_id@, config.namespace@),
            forall|q: Seq<char>| #[trigger] final(self).registration(q) == old(self).registration(q),
            final(self).default_config() == old(self).default_config(),
            old(self).wf() ==> final(self).wf(),
            forall|u: Seq<char>| #[trigger] final(self).bytes(u) == (if u == user_id@ {
                saturating_add(old(self).bytes(u), match payload_bytes { Some(b) => b, None => 256u64 })
            } else {
                old(self).bytes(u)
            }),
    {
        let mut event = event;
        let expires_at = config.expires_at_from(now);
        let ghost m0 = event.metadata@;
        put(&mut event.metadata, "lago:expires_at".to_owned(), u64_to_decimal(expires_at));
        put(&mut event.metadata, "lago:user_id".to_owned(), user_id.to_owned());
        put(&mut event.metadata, "lago:namespace".to_owned(), config.namespace.clone());
        proof {
            reveal_strlit("lago:expires_at");
            reveal_strlit("lago:user_id");
            reveal_strlit("lago:namespace");
            assert(expires_key()[5] != user_key()[5]);
            assert(expires_key()[5] != namespace_key()[5]);
            assert(user_key()[5] != namespace_key()[5]);
        }
        let approx = match payload_bytes {
            Some(b) => b,
            None => 256,
        };
        let before = self.memory_used_bytes(user_id);
        put(&mut self.user_bytes, user_id.to_owned(), before.saturating_add(approx));
        event
    }

    /// What is appended for an event at `now`: tagged under its session's
    /// registration, or unchanged when the session is not registered.
    pub fn prepare_append(&mut self, event: EventEnvelope, now: u64, payload_bytes: Option<u64>) -> (r: EventEnvelope)
        requires
            old(self).wf(),
        ensures
            final(self).wf(),
            final(self).default_config() == old(self).default_config(),
            forall|s: Seq<char>| #[trigger] final(self).registration(s) == old(self).registration(s),
            same_but_metadata(r, event),
            match old(self).registration(event.session_id@) {
                Some((u, c)) => tagged(event.metadata@, r.metadata@, saturating_add(now, (c.1 as nat * MICROS_PER_DAY as nat) as u64), u, c.0)
                    && forall|v: Seq<char>| #[trigger] final(self).bytes(v) == (if v == u {
                        saturating_add(old(self).bytes(v), match payload_bytes { Some(b) => b, None => 256u64 })
                    } else {
                        old(self).bytes(v)
                    }),
                None => r.metadata == event.metadata && forall|v: Seq<char>| #[trigger] final(self).bytes(v) == old(self).bytes(v),
            },
    {
        match find_key(&self.registrations, event.session_id.as_str()) {
            None => event,
            Some(i) => {
                let user = self.registrations[i].1.user_id.clone();
                let c = &self.registrations[i].1.config;
                let config = LagoPolicyConfig { namespace: c.namespace.clone(), retention_days: c.retention_days, max_pinned: c.max_pinned };
                assert(registration_fits(lookup(self.registrations@, event.session_id@)));
                self.tag_event(event, user.as_str(), &config, now, payload_bytes)
            },
        }
    }

    /// The positions of expired memory events: each is tombstoned by
    /// eviction.
    pub fn eviction_targets(events: &Vec<EventEnvelope>, now: u64) -> (r: Vec<usize>)
        ensures
            r@ == positions(events@, evictable(now), events@.len()),
    {
        select_positions(events, now, "", 0)
    }

    /// The positions of a user's unexpired events, as exported.
    pub fn export_targets(events: &Vec<EventEnvelope>, user_id: &str, now: u64) -> (r: Vec<usize>)
        ensures
            r@ == positions(events@, exportable(user_id@, now), events@.len()),
    {
        select_positions(events, now, user_id, 1)
    }

    /// The positions of a user's unexpired shared events, as migrated.
    pub fn migration_targets(events: &Vec<EventEnvelope>, user_id: &str, now: u64) -> (r: Vec<usize>)
        ensures
            r@ == positions(events@, migratable(user_id@, now), events@.len()),
    {
        select_positions(events, now, user_id, 2)
    }

    /// The positions of the events a read returns: the unexpired ones.
    pub fn visible_positions(events: &Vec<EventEnvelope>, now: u64) -> (r: Vec<usize>)
        ensures
            r@ == positions(events@, visible(now), events@.len()),
    {
        select_positions(events, now, "", 3)
    }

    /// The tombstone for an expired memory event of `scope`: it points back
    /// at the event, names the retention period of the journal's default
    /// policy, and is marked as a TTL eviction.  `event_id`, `memory_id`
    /// and `now` are fresh values supplied by the caller.
    pub fn tombstone_for(
        &self,
        expired_event_id: &str,
        scope: MemoryScope,
        session_id: &str,
        branch_id: &str,
        event_id: String,
        memory_id: String,
        now: u64,
    ) -> (t: EventEnvelope)
        ensures
            t.event_id@ == event_id@,
            t.session_id@ == session_id@,
            t.branch_id@ == branch_id@,
            t.run_id is None,
            t.seq == 0,
            t.timestamp == now,
            t.parent_id matches Some(p) && p@ == expired_event_id@,
            t.payload@ == (PayloadV::MemoryTombstoned { scope, memory_id: memory_id@,
                reason: "ttl-eviction: expired after "@ + decimal(self.default_config().1 as nat) + " day(s)"@ }),
            t.metadata@.len() == 1 && t.metadata@[0].0@ == "lago:eviction"@ && t.metadata@[0].1@ == "ttl"@,
            t.schema_version == 1,
    {
        let mut reason = "ttl-eviction: expired after ".to_owned();
        let days = u64_to_decimal(self.config.retention_days as u64);
        push_str(&mut reason, days.as_str());
        push_str(&mut reason, " day(s)");
        let mut metadata: Vec<(String, String)> = Vec::new();
        metadata.push(("lago:eviction".to_owned(), "ttl".to_owned()));
        EventEnvelope {
            event_id,
            session_id: session_id.to_owned(),
            branch_id: branch_id.to_owned(),
            run_id: None,
            seq: 0,
            timestamp: now,
            parent_id: Some(expired_event_id.to_owned()),
            payload: EventPayload::MemoryTombstoned { scope, memory_id, reason },
            metadata,
            schema_version: 1,
        }
    }

    /// The pro copy of a migrated event: a new id, the time `now`, the `pro`
    /// namespace and the pro expiry; everything else is kept.
    pub fn migrated(event: EventEnvelope, new_event_id: String, now: u64) -> (r: EventEnvelope)
        ensures
            r.event_id@ == new_event_id@,
            r.timestamp == now,
            r.session_id == event.session_id,
            r.branch_id == event.branch_id,
            r.run_id == event.run_id,
            r.seq == event.seq,
            r.parent_id == event.parent_id,
            r.payload == event.payload,
            r.schema_version == event.schema_version,
            forall|k: Seq<char>| #[trigger] meta(r.metadata@, k) == (if k == namespace_key() {
                Some("pro"@)
            } else if k == expires_key() {
                Some(decimal(saturating_add(now, (90 * MICROS_PER_DAY) as u64) as nat))
            } else {
                meta(event.metadata@, k)
            }),
    {
        let pro = LagoPolicyConfig::pro();
        let mut event = event;
        event.event_id = new_event_id;
        event.timestamp = now;
        put(&mut event.metadata, "lago:namespace".to_owned(), "pro".to_owned());
        let expires_at = pro.expires_at_from(now);
        put(&mut event.metadata, "lago:expires_at".to_owned(), u64_to_decimal(expires_at));
        proof {
            reveal_strlit("lago:expires_at");
            reveal_strlit("lago:namespace");
            assert(expires_key()[5] != namespace_key()[5]);
        }
        event
    }
}

/// An event tagged at `now` with a retention window expires exactly when
/// the clock passes `now` plus the window: it is visible at `now` and at
/// every time up to its expiry, and hidden after.
pub proof fn lemma_tagged_expiry(m: Seq<(String, String)>, t: Seq<(String, String)>, now: u64, window: u64, user: Seq<char>, namespace: Seq<char>, later: u64)
    requires
        tagged(m, t, saturating_add(now, window), user, namespace),
    ensures
        !expired(t, now),
        expired(t, later) <==> saturating_add(now, window) < later,
{
    let e = saturating_add(now, window);
    assert(meta(t, expires_key()) == Some(decimal(e as nat)));
    lemma_parse_decimal(e);
}

/// A migrated event is owned by the same user, sits in the pro namespace
/// and stays visible for the pro retention window from its migration.
pub proof fn lemma_migrated_expiry(m: Seq<(String, String)>, t: Seq<(String, String)>, now: u64, later: u64)
    requires
        forall|k: Seq<char>| #[trigger] meta(t, k) == (if k == namespace_key() {
            Some("pro"@)
        } else if k == expires_key() {
            Some(decimal(saturating_add(now, (90 * MICROS_PER_DAY) as u64) as nat))
        } else {
            meta(m, k)
        }),
    ensures
        meta(t, namespace_key()) == Some("pro"@),
        meta(t, user_key()) == meta(m, user_key()),
        expired(t, later) <==> saturating_add(now, (90 * MICROS_PER_DAY) as u64) < later,
{
    reveal_strlit("lago:user_id");
    reveal_strlit("lago:namespace");
    reveal_strlit("lago:expires_at");
    assert(user_key()[5] != namespace_key()[5]);
    assert(user_key()[5] != expires_key()[5]);
    assert(meta(t, user_key()) == meta(m, user_key()));
    lemma_parse_decimal(saturating_add(now, (90 * MICROS_PER_DAY) as u64));
    assert(meta(t, expires_key()) == Some(decimal(saturating_add(now, (90 * MICROS_PER_DAY) as u64) as nat)));
}

proof fn lemma_positions_extend(events: Seq<EventEnvelope>, more: Seq<EventEnvelope>, p: spec_fn(EventEnvelope) -> bool, n: nat)
    requires
        n <= events.len() + more.len(),
        forall|k: int| 0 <= k < more.len() ==> !p(#[trigger] more[k]),
    ensures
        positions(events + more, p, n) == positions(events, p, if n <= events.len() { n } else { events.len() }),
    decreases n,
{
    if n > 0 {
        lemma_positions_extend(events, more, p, (n - 1) as nat);
        if n > events.len() {
            assert((events + more)[n - 1] == more[n - 1 - events.len()]);
        } else {
            assert((events + more)[n - 1] == events[n - 1]);
        }
    }
}

/// Migrating a user's events is not idempotent: the pro copies it appends
/// are never targets themselves, so running it again over the journal with
/// those copies appended finds the same originals and copies them again.
pub proof fn lemma_migration_repeats(events: Seq<EventEnvelope>, copies: Seq<EventEnvelope>, user: Seq<char>, now: u64)
    requires
        forall|k: int| 0 <= k < copies.len() ==> meta((#[trigger] copies[k]).metadata@, namespace_key()) == Some("pro"@),
    ensures
        positions(events + copies, migratable(user, now), (events + copies).len())
            == positions(events, migratable(user, now), events.len()),
{
    reveal_strlit("pro");
    reveal_strlit("shared");
    assert forall|k: int| 0 <= k < copies.len() implies !migratable(user, now)(#[trigger] copies[k]) by {
        assert("pro"@ != "shared"@) by { assert("pro"@.len() != "shared"@.len()); }
    }
    lemma_positions_extend(events, copies, migratable(user, now), (events + copies).len());
}

} // verus!
