use arcan::ephemeral::{AppendRoute, EphemeralJournal, SessionJournalSelector};
use arcan::event_map::{
    arcan_to_lago, lago_to_arcan, AgentEvent, ApprovalDecision, EventEnvelope, EventPayload, MemoryScope, ModelStopReason,
    RiskLevel, RunStopReason, SpanStatus, ToolCall, ToolResultSummary,
};
use arcan::memory_projection::MemoryProjection;
use arcan::observation::{Observation, Observer, Reflector};
use arcan::policy_middleware::{resolve_approval, ApprovalOutcome, LagoPolicyMiddleware, PolicyDecision, PolicyDecisionKind, PreToolCall};
use arcan::policy_violation::{build_event, PolicyViolationData, ViolationType};
use arcan::retention::{FreeTierJournal, LagoPolicyConfig};
use arcan::skill_events::{build_skill_event, SkillEventType, SkillProjection};
use arcan::tools::annotations;
use arcan::policy_middleware::{PolicyRule, RuleCondition};

#[test]
fn default_config_values() {
    let cfg = LagoPolicyConfig::default();
    assert_eq!(cfg.namespace, "shared");
    assert_eq!(cfg.retention_days, 7);
    assert_eq!(cfg.max_pinned, 100);
}

#[test]
fn pro_config_values() {
    let cfg = LagoPolicyConfig::pro();
    assert_eq!(cfg.namespace, "pro");
    assert_eq!(cfg.retention_days, 90);
    assert_eq!(cfg.max_pinned, u32::MAX);
}

fn now_micros() -> u64 {
    std::time::SystemTime::now().duration_since(std::time::UNIX_EPOCH).unwrap().as_micros() as u64
}

#[test]
fn expires_at_is_in_the_future() {
    let cfg = LagoPolicyConfig::default();
    let before = now_micros();
    let exp = cfg.expires_at_micros();
    assert!(exp > before);
}

#[test]
fn expires_at_is_approximately_7_days_away() {
    let cfg = LagoPolicyConfig::default();
    let now = now_micros();
    let exp = cfg.expires_at_micros();
    let seven_days = 7u64 * 24 * 3600 * 1_000_000;
    assert!(exp >= now + seven_days - 1_000_000);
    assert!(exp <= now + seven_days + 1_000_000);
}

#[test]
fn pro_expires_at_is_approximately_90_days_away() {
    let cfg = LagoPolicyConfig::pro();
    let now = now_micros();
    let exp = cfg.expires_at_micros();
    let ninety = 90u64 * 24 * 3600 * 1_000_000;
    assert!(exp >= now + ninety - 1_000_000);
    assert!(exp <= now + ninety + 1_000_000);
}

#[test]
fn register_and_lookup() {
    let mut j = FreeTierJournal::new(LagoPolicyConfig::default());
    assert!(!j.is_registered("s1"));
    j.register_session("s1", "user-alice");
    assert!(j.is_registered("s1"));
    assert_eq!(j.user_id_for_session("s1").unwrap(), "user-alice");
    j.unregister_session("s1");
    assert!(!j.is_registered("s1"));
    assert!(j.user_id_for_session("s1").is_none());
}

#[test]
fn unregistered_session_has_no_user() {
    let j = FreeTierJournal::new(LagoPolicyConfig::default());
    assert!(j.user_id_for_session("no-such-session").is_none());
}

#[test]
fn register_with_config_uses_provided_config() {
    let mut j = FreeTierJournal::new(LagoPolicyConfig::default());
    j.register_session_with_config("s1", "alice", LagoPolicyConfig::pro());
    assert!(j.is_registered("s1"));
    assert_eq!(j.user_id_for_session("s1").unwrap(), "alice");
}

#[test]
fn memory_used_bytes_zero_for_unknown_user() {
    let j = FreeTierJournal::new(LagoPolicyConfig::default());
    assert_eq!(j.memory_used_bytes("nobody"), 0);
}

fn envelope(session: &str, seq: u64, payload: EventPayload) -> EventEnvelope {
    EventEnvelope {
        event_id: format!("evt-{seq}"),
        session_id: session.to_string(),
        branch_id: "main".to_string(),
        run_id: None,
        seq,
        timestamp: 1_700_000_000_000_000 + seq,
        parent_id: None,
        payload,
        metadata: vec![],
        schema_version: 1,
    }
}

fn memory_proposed() -> EventPayload {
    EventPayload::MemoryProposed {
        scope: MemoryScope::Session,
        proposal_id: "p1".to_string(),
        entries_ref: "ref".to_string(),
        source_run_id: None,
    }
}

fn tool_result() -> EventPayload {
    EventPayload::ToolResult {
        call_id: "c1".to_string(),
        tool_name: "read_file".to_string(),
        result: "{}".to_string(),
        duration_ms: 42,
        status: SpanStatus::Success,
    }
}

fn meta<'a>(e: &'a EventEnvelope, k: &str) -> Option<&'a str> {
    e.metadata.iter().find(|(kk, _)| kk == k).map(|(_, v)| v.as_str())
}

#[test]
fn registered_session_gets_ttl_tagged() {
    let mut j = FreeTierJournal::new(LagoPolicyConfig::default());
    j.register_session("s1", "alice");
    let now = 1_000u64;
    let tagged = j.prepare_append(envelope("s1", 1, tool_result()), now, Some(10));
    assert_eq!(meta(&tagged, "lago:user_id"), Some("alice"));
    assert_eq!(meta(&tagged, "lago:namespace"), Some("shared"));
    let seven_days = 7u64 * 24 * 3600 * 1_000_000;
    assert_eq!(meta(&tagged, "lago:expires_at"), Some((now + seven_days).to_string().as_str()));
    assert_eq!(j.memory_used_bytes("alice"), 10);
    let tagged = j.prepare_append(envelope("s1", 2, tool_result()), now, None);
    assert_eq!(j.memory_used_bytes("alice"), 266);
    assert!(!FreeTierJournal::is_expired(&tagged.metadata, now));
    assert!(FreeTierJournal::is_expired(&tagged.metadata, now + seven_days + 1));
}

#[test]
fn pro_session_gets_pro_namespace_tag() {
    let mut j = FreeTierJournal::new(LagoPolicyConfig::default());
    j.register_session_with_config("s1", "bob", LagoPolicyConfig::pro());
    let tagged = j.prepare_append(envelope("s1", 1, tool_result()), 5, None);
    assert_eq!(meta(&tagged, "lago:namespace"), Some("pro"));
}

#[test]
fn unregistered_session_passes_through_untagged() {
    let mut j = FreeTierJournal::new(LagoPolicyConfig::default());
    let e = j.prepare_append(envelope("s-x", 1, tool_result()), 5, None);
    assert!(e.metadata.is_empty());
    assert_eq!(j.memory_used_bytes("pro-user"), 0);
}

#[test]
fn expiry_parsing() {
    let m = vec![("lago:expires_at".to_string(), "100".to_string())];
    assert!(FreeTierJournal::is_expired(&m, 101));
    assert!(!FreeTierJournal::is_expired(&m, 100));
    let bad = vec![("lago:expires_at".to_string(), "soon".to_string())];
    assert!(!FreeTierJournal::is_expired(&bad, u64::MAX));
    assert!(!FreeTierJournal::is_expired(&vec![], u64::MAX));
}

#[test]
fn evict_tombstones_only_expired_memory_events() {
    let expired = vec![("lago:expires_at".to_string(), "10".to_string())];
    let mut a = envelope("s1", 1, memory_proposed());
    a.metadata = expired.clone();
    let mut b = envelope("s1", 2, tool_result());
    b.metadata = expired.clone();
    let c = envelope("s1", 3, memory_proposed());
    let events = vec![a, b, c];
    let targets = FreeTierJournal::eviction_targets(&events, 1_000);
    assert_eq!(targets, vec![0]);
    let j = FreeTierJournal::new(LagoPolicyConfig::default());
    let t = j.tombstone_for("evt-1", MemoryScope::Session, "s1", "main", "t1".to_string(), "m1".to_string(), 77);
    assert_eq!(meta(&t, "lago:eviction"), Some("ttl"));
    assert_eq!(t.parent_id.as_deref(), Some("evt-1"));
    match t.payload {
        EventPayload::MemoryTombstoned { reason, .. } => assert_eq!(reason, "ttl-eviction: expired after 7 day(s)"),
        _ => panic!("expected tombstone"),
    }
}

#[test]
fn migration_retags_shared_events() {
    let mut e = envelope("s1", 1, tool_result());
    e.metadata = vec![
        ("lago:namespace".to_string(), "shared".to_string()),
        ("lago:user_id".to_string(), "alice".to_string()),
    ];
    let events = vec![e, envelope("s1", 2, tool_result())];
    assert_eq!(FreeTierJournal::migration_targets(&events, "alice", 5), vec![0]);
    assert_eq!(FreeTierJournal::export_targets(&events, "alice", 5), vec![0]);
    assert_eq!(FreeTierJournal::visible_positions(&events, 5), vec![0, 1]);
    let m = FreeTierJournal::migrated(events.into_iter().next().unwrap(), "new".to_string(), 9);
    assert_eq!(m.event_id, "new");
    assert_eq!(meta(&m, "lago:namespace"), Some("pro"));
    assert_eq!(meta(&m, "lago:user_id"), Some("alice"));
}

// --- event mapping ---

#[test]
fn text_delta_round_trips() {
    let event = AgentEvent::TextDelta {
        run_id: "r1".into(),
        session_id: "s1".into(),
        iteration: 3,
        delta: "hello world".into(),
    };
    let envelope = arcan_to_lago("sess", "main", 1, "r1", &event, "uuid-1", "e1".into(), "t1".into(), 5);
    match lago_to_arcan(&envelope).expect("should map back") {
        AgentEvent::TextDelta { delta, iteration, .. } => {
            assert_eq!(delta, "hello world");
            assert_eq!(iteration, 3);
        }
        _ => panic!("expected TextDelta"),
    }
}

#[test]
fn run_started_round_trips() {
    let event = AgentEvent::RunStarted {
        run_id: "r1".into(),
        session_id: "s1".into(),
        provider: "anthropic".into(),
        max_iterations: 24,
    };
    let envelope = arcan_to_lago("sess", "main", 1, "r1", &event, "uuid-5", "e1".into(), "t1".into(), 5);
    if let EventPayload::RunStarted { provider, .. } = &envelope.payload {
        assert_eq!(provider, "anthropic");
    } else {
        panic!("expected RunStarted payload");
    }
    match lago_to_arcan(&envelope).expect("should map back") {
        AgentEvent::RunStarted { provider, max_iterations, .. } => {
            assert_eq!(provider, "anthropic");
            assert_eq!(max_iterations, 24);
        }
        _ => panic!("expected RunStarted"),
    }
}

#[test]
fn run_finished_round_trips() {
    let event = AgentEvent::RunFinished {
        run_id: "r1".into(),
        session_id: "s1".into(),
        reason: RunStopReason::Completed,
        total_iterations: 10,
        final_answer: Some("42".into()),
    };
    let envelope = arcan_to_lago("sess", "main", 1, "r1", &event, "uuid-6", "e1".into(), "t1".into(), 5);
    if let EventPayload::RunFinished { reason, .. } = &envelope.payload {
        assert_eq!(reason, "Completed");
    } else {
        panic!("expected RunFinished payload");
    }
    match lago_to_arcan(&envelope).expect("should map back") {
        AgentEvent::RunFinished { reason, final_answer, .. } => {
            assert!(reason == RunStopReason::Completed);
            assert_eq!(final_answer.as_deref(), Some("42"));
        }
        _ => panic!("expected RunFinished"),
    }
}

#[test]
fn approval_requested_round_trips() {
    let event = AgentEvent::ApprovalRequested {
        run_id: "r1".into(),
        session_id: "s1".into(),
        approval_id: "appr-1".into(),
        call_id: "c1".into(),
        tool_name: "bash".into(),
        arguments: "{\"command\":\"rm -rf /\"}".into(),
        risk: "high".into(),
    };
    let envelope = arcan_to_lago("sess", "main", 1, "r1", &event, "uuid-a1", "e1".into(), "t1".into(), 5);
    if let EventPayload::ApprovalRequested { tool_name, risk, .. } = &envelope.payload {
        assert_eq!(tool_name, "bash");
        assert!(*risk == RiskLevel::High);
    } else {
        panic!("expected ApprovalRequested payload");
    }
    match lago_to_arcan(&envelope).expect("should map back") {
        AgentEvent::ApprovalRequested { approval_id, tool_name, risk, .. } => {
            assert_eq!(approval_id, "appr-1");
            assert_eq!(tool_name, "bash");
            assert_eq!(risk, "high");
        }
        _ => panic!("expected ApprovalRequested"),
    }
}

#[test]
fn approval_resolved_round_trips() {
    let event = AgentEvent::ApprovalResolved {
        run_id: "r1".into(),
        session_id: "s1".into(),
        approval_id: "appr-2".into(),
        decision: "denied".into(),
        reason: Some("too dangerous".into()),
    };
    let envelope = arcan_to_lago("sess", "main", 1, "r1", &event, "uuid-a2", "e1".into(), "t1".into(), 5);
    if let EventPayload::ApprovalResolved { decision, reason, .. } = &envelope.payload {
        assert!(*decision == ApprovalDecision::Denied);
        assert_eq!(reason.as_deref(), Some("too dangerous"));
    } else {
        panic!("expected ApprovalResolved payload");
    }
    match lago_to_arcan(&envelope).expect("should map back") {
        AgentEvent::ApprovalResolved { approval_id, decision, reason, .. } => {
            assert_eq!(approval_id, "appr-2");
            assert_eq!(decision, "denied");
            assert_eq!(reason.as_deref(), Some("too dangerous"));
        }
        _ => panic!("expected ApprovalResolved"),
    }
}

#[test]
fn state_patched_round_trips() {
    let event = AgentEvent::StatePatched {
        run_id: "r1".into(),
        session_id: "s1".into(),
        iteration: 2,
        patch: "{\"format\":\"merge_patch\",\"patch\":{\"key\":\"value\"},\"source\":\"tool\"}".into(),
        revision: 5,
    };
    let envelope = arcan_to_lago("sess", "main", 5, "r1", &event, "uuid-7", "e1".into(), "t1".into(), 5);
    if let EventPayload::StatePatched { revision, .. } = &envelope.payload {
        assert_eq!(*revision, 5);
    } else {
        panic!("expected StatePatched payload");
    }
    match lago_to_arcan(&envelope).expect("should map back") {
        AgentEvent::StatePatched { revision, .. } => assert_eq!(revision, 5),
        _ => panic!("expected StatePatched"),
    }
}

#[test]
fn tool_failure_and_compaction_round_trip() {
    let failed = AgentEvent::ToolCallFailed {
        run_id: "r".into(),
        session_id: "s".into(),
        iteration: 4,
        call_id: "c".into(),
        tool_name: "bash".into(),
        error: "exit 1".into(),
    };
    let env = arcan_to_lago("sess", "main", 1, "r", &failed, "u", "e".into(), "t".into(), 5);
    match lago_to_arcan(&env).unwrap() {
        AgentEvent::ToolCallFailed { error, iteration, call_id, .. } => {
            assert_eq!(error, "exit 1");
            assert_eq!(iteration, 0);
            assert_eq!(call_id, "c");
        }
        _ => panic!("expected ToolCallFailed"),
    }
    let compacted = AgentEvent::ContextCompacted {
        run_id: "r".into(),
        session_id: "s".into(),
        iteration: 7,
        dropped_count: 3,
        tokens_before: 1000,
        tokens_after: 400,
    };
    let env = arcan_to_lago("sess", "main", 1, "r", &compacted, "u", "e".into(), "t".into(), 5);
    match lago_to_arcan(&env).unwrap() {
        AgentEvent::ContextCompacted { iteration, dropped_count, tokens_before, tokens_after, .. } => {
            assert_eq!((iteration, dropped_count, tokens_before, tokens_after), (7, 3, 1000, 400));
        }
        _ => panic!("expected ContextCompacted"),
    }
    let completed = AgentEvent::ToolCallCompleted {
        run_id: "r".into(),
        session_id: "s".into(),
        iteration: 1,
        result: ToolResultSummary { call_id: "c".into(), tool_name: "t".into(), output: "{\"ok\":true}".into() },
    };
    let env = arcan_to_lago("sess", "main", 1, "r", &completed, "u", "e".into(), "t".into(), 5);
    assert_eq!(env.metadata, vec![("arcan_event_id".to_string(), "u".to_string())]);
    assert!(matches!(lago_to_arcan(&env), Some(AgentEvent::ToolCallCompleted { .. })));
    let requested = AgentEvent::ToolCallRequested {
        run_id: "r".into(),
        session_id: "s".into(),
        iteration: 1,
        call: ToolCall { call_id: "c".into(), tool_name: "t".into(), input: "{}".into() },
    };
    let env = arcan_to_lago("sess", "main", 1, "r", &requested, "u", "e".into(), "t".into(), 5);
    assert!(matches!(lago_to_arcan(&env), Some(AgentEvent::ToolCallRequested { .. })));
    let output = AgentEvent::ModelOutput {
        run_id: "r".into(),
        session_id: "s".into(),
        iteration: 2,
        stop_reason: ModelStopReason::MaxTokens,
        directive_count: 1,
        usage: Some("{}".into()),
    };
    let env = arcan_to_lago("sess", "main", 1, "r", &output, "u", "e".into(), "t".into(), 5);
    match lago_to_arcan(&env).unwrap() {
        AgentEvent::ModelOutput { stop_reason, usage, .. } => {
            assert!(stop_reason == ModelStopReason::MaxTokens);
            assert!(usage.is_none());
        }
        _ => panic!("expected ModelOutput"),
    }
}

#[test]
fn unknown_payloads_have_no_agent_event() {
    let env = envelope("s", 1, EventPayload::Other { kind: "FileWrite".into() });
    assert!(lago_to_arcan(&env).is_none());
    let env = envelope("s", 1, EventPayload::Message { role: "user".into(), content: "x".into(), model: None });
    assert!(lago_to_arcan(&env).is_none());
    let env = envelope("s", 1, EventPayload::Message { role: "assistant".into(), content: "x".into(), model: None });
    assert!(matches!(lago_to_arcan(&env), Some(AgentEvent::TextDelta { .. })));
}

// --- memory projection ---

fn obs(scope: MemoryScope, r: &str) -> EventPayload {
    EventPayload::ObservationAppended { scope, observation_ref: r.into(), source_run_id: None }
}

fn commit(id: &str, supersedes: Option<&str>) -> EventPayload {
    EventPayload::MemoryCommitted {
        scope: MemoryScope::Session,
        memory_id: id.into(),
        committed_ref: format!("ref-{id}"),
        supersedes: supersedes.map(|s| s.to_string()),
    }
}

#[test]
fn tracks_per_scope_observations() {
    let mut proj = MemoryProjection::new();
    proj.on_event(&obs(MemoryScope::Session, "obs1"));
    proj.on_event(&obs(MemoryScope::User, "obs2"));
    proj.on_event(&obs(MemoryScope::Session, "obs3"));
    assert_eq!(proj.observation_count(MemoryScope::Session), 2);
    assert_eq!(proj.observation_count(MemoryScope::User), 1);
    assert_eq!(proj.observation_count(MemoryScope::Agent), 0);
}

#[test]
fn stores_reflections() {
    let mut proj = MemoryProjection::new();
    proj.on_event(&EventPayload::ReflectionCompacted { scope: MemoryScope::Session, summary_ref: "s1".into() });
    proj.on_event(&EventPayload::ReflectionCompacted { scope: MemoryScope::Session, summary_ref: "s2".into() });
    assert_eq!(proj.latest_reflection(MemoryScope::Session).as_deref(), Some("s2"));
    assert!(proj.latest_reflection(MemoryScope::User).is_none());
}

#[test]
fn respects_tombstones() {
    let mut proj = MemoryProjection::new();
    proj.on_event(&commit("m1", None));
    proj.on_event(&commit("m2", None));
    proj.on_event(&EventPayload::MemoryTombstoned { scope: MemoryScope::Session, memory_id: "m1".into(), reason: "r".into() });
    let q = proj.query(MemoryScope::Session);
    assert_eq!(q.committed.len(), 1);
    assert_eq!(q.committed[0].memory_id, "m2");
}

#[test]
fn handles_supersedes() {
    let mut proj = MemoryProjection::new();
    proj.on_event(&commit("m1", None));
    proj.on_event(&commit("m2", Some("m1")));
    let q = proj.query(MemoryScope::Session);
    assert_eq!(q.committed.len(), 1);
    assert_eq!(q.committed[0].memory_id, "m2");
    assert_eq!(q.committed[0].supersedes.as_deref(), Some("m1"));
}

#[test]
fn memory_projection_projection_name() {
    assert_eq!(MemoryProjection::new().name(), "arcan::memory");
}

// --- ephemeral routing ---

#[test]
fn ephemeral_markers_are_reference_counted() {
    let mut sel = SessionJournalSelector::new();
    sel.mark_ephemeral("s");
    sel.mark_ephemeral("s");
    sel.unmark_ephemeral("s");
    assert!(sel.is_ephemeral("s"));
    sel.unmark_ephemeral("s");
    assert!(!sel.is_ephemeral("s"));
    sel.unmark_ephemeral("s");
    assert!(!sel.is_ephemeral("s"));
}

#[test]
fn ephemeral_sessions_drop_only_memory_events() {
    let mut sel = SessionJournalSelector::new();
    sel.mark_ephemeral("s");
    assert!(matches!(sel.append(envelope("s", 1, memory_proposed())), AppendRoute::Discard));
    assert!(matches!(sel.append(envelope("s", 2, tool_result())), AppendRoute::Forward(_)));
    assert!(matches!(sel.append(envelope("t", 3, memory_proposed())), AppendRoute::Forward(_)));
    let kept = sel.append_batch(vec![envelope("s", 1, memory_proposed()), envelope("s", 2, tool_result())]);
    assert_eq!(kept.len(), 1);
    assert_eq!(kept[0].seq, 2);
    let j = EphemeralJournal;
    assert_eq!(j.append(envelope("s", 1, tool_result())), 0);
    assert!(j.read().is_empty());
}

// --- observation ---

#[test]
fn observer_extracts_from_message() {
    let mut o = Observer::new(MemoryScope::Session, 10);
    o.on_event(&envelope("s", 1, EventPayload::Message { role: "user".into(), content: "Hello world".into(), model: None }));
    assert_eq!(o.count(), 1);
    assert!(o.observations()[0].text.contains("Hello world"));
    assert_eq!(o.observations()[0].source_seq, 1);
}

#[test]
fn observer_extracts_from_tool_result() {
    let mut o = Observer::new(MemoryScope::Session, 10);
    o.on_event(&envelope("s", 2, tool_result()));
    assert_eq!(o.count(), 1);
    assert!(o.observations()[0].text.contains("read_file"));
    assert_eq!(o.observations()[0].text, "tool:read_file \u{2192} Ok");
}

#[test]
fn observer_ignores_lifecycle_events() {
    let mut o = Observer::new(MemoryScope::Session, 10);
    o.on_event(&envelope("s", 1, EventPayload::RunStarted { provider: "p".into(), max_iterations: 3 }));
    assert_eq!(o.count(), 0);
}

#[test]
fn threshold_triggers() {
    let mut o = Observer::new(MemoryScope::Session, 2);
    o.on_event(&envelope("s", 1, EventPayload::Error { error: "a".into() }));
    assert!(!o.threshold_reached());
    o.on_event(&envelope("s", 2, EventPayload::Error { error: "b".into() }));
    assert!(o.threshold_reached());
    let drained = o.drain();
    assert_eq!(drained.len(), 2);
    assert_eq!(o.count(), 0);
}

#[test]
fn reflector_compact_works() {
    let observations = vec![
        Observation { text: "user: hello".to_string(), source_seq: 1, timestamp: 100 },
        Observation { text: "tool:read_file \u{2192} Ok".to_string(), source_seq: 2, timestamp: 200 },
        Observation { text: "error: boom".to_string(), source_seq: 3, timestamp: 300 },
    ];
    let summary = Reflector::compact(&observations);
    assert!(summary.contains("Summary of 3 observations"));
    assert!(summary.contains("seq 1..3"));
    assert!(summary.contains("- user: hello"));
    assert!(summary.contains("- error: boom"));
}

#[test]
fn reflector_compact_empty() {
    assert_eq!(Reflector::compact(&[]), "");
}

// --- skills ---

#[test]
fn skill_projection_tracks_activations() {
    let mut proj = SkillProjection::new();
    for (i, name) in ["commit-helper", "test-runner", "commit-helper"].iter().enumerate() {
        let data = format!("{{\"name\":\"{name}\"}}");
        proj.fold(&build_skill_event("s", "main", SkillEventType::Activated, data, "e".into(), i as u64));
    }
    let count = |n: &str| proj.activations.iter().find(|(k, _)| k == n).map(|(_, c)| *c);
    assert_eq!(count("commit-helper"), Some(2));
    assert_eq!(count("test-runner"), Some(1));
    assert_eq!(proj.most_activated(), Some(("commit-helper".to_string(), 2)));
}

#[test]
fn skill_projection_tracks_mcp() {
    let mut proj = SkillProjection::new();
    proj.fold(&build_skill_event("s", "main", SkillEventType::McpConnected, "{}".into(), "e".into(), 1));
    assert_eq!(proj.mcp_connections, 1);
}

#[test]
fn skill_projection_ignores_unrelated_events() {
    let mut proj = SkillProjection::new();
    proj.fold(&envelope("s", 1, tool_result()));
    assert!(proj.activations.is_empty());
    assert_eq!(proj.mcp_connections, 0);
}

#[test]
fn build_skill_event_structure() {
    let e = build_skill_event("sess-1", "main", SkillEventType::Activated, "{\"name\":\"test\"}".into(), "e".into(), 1);
    assert_eq!(e.session_id, "sess-1");
    assert_eq!(e.branch_id, "main");
    assert!(e.schema_version == 1);
    match e.payload {
        EventPayload::Custom { event_type, .. } => assert_eq!(event_type, "skill.activated"),
        _ => panic!("expected custom payload"),
    }
}

// --- policy ---

fn anns() -> Vec<(String, arcan::tools::ToolAnnotations)> {
    vec![
        ("read_file".to_string(), annotations(true, false, true, false, false)),
        ("bash".to_string(), annotations(false, true, false, true, true)),
        ("write_file".to_string(), annotations(false, true, false, false, false)),
    ]
}

fn rule(id: &str, priority: u32, condition: RuleCondition, decision: PolicyDecisionKind, explanation: Option<&str>) -> PolicyRule {
    PolicyRule {
        id: id.to_string(),
        name: id.to_string(),
        priority,
        condition,
        decision,
        explanation: explanation.map(|s| s.to_string()),
        required_sandbox: None,
    }
}

fn call(name: &str) -> ToolCall {
    ToolCall { call_id: "c1".to_string(), tool_name: name.to_string(), input: "{}".to_string() }
}

fn middleware(gate: bool) -> LagoPolicyMiddleware {
    if gate { LagoPolicyMiddleware::with_gate(Vec::new(), anns()) } else { LagoPolicyMiddleware::new(Vec::new(), anns()) }
}

fn verdict(kind: PolicyDecisionKind, explanation: Option<&str>) -> PolicyDecision {
    PolicyDecision { decision: kind, rule_id: Some("deny-bash".into()), explanation: explanation.map(|s| s.to_string()) }
}

#[test]
fn allows_when_no_rules() {
    let mw = LagoPolicyMiddleware::new(Vec::new(), anns());
    assert!(matches!(mw.pre_tool_call("s1", &call("read_file")), PreToolCall::Proceed));
}

#[test]
fn denies_by_tool_name_rule() {
    let mut engine: Vec<PolicyRule> = Vec::new();
    engine.push(rule("deny-bash", 100, RuleCondition::ToolName("bash".into()), PolicyDecisionKind::Deny, Some("bash is not allowed")));
    let mw = LagoPolicyMiddleware::new(engine, anns());
    match mw.pre_tool_call("s1", &call("bash")) {
        PreToolCall::Blocked(err) => assert!(err.contains("bash is not allowed"), "got: {err}"),
        _ => panic!("expected block"),
    }
}

#[test]
fn no_gate_falls_back_to_deny() {
    let mut engine: Vec<PolicyRule> = Vec::new();
    engine.push(rule("approve-write", 100, RuleCondition::ToolName("write_file".into()), PolicyDecisionKind::RequireApproval, None));
    let mw = LagoPolicyMiddleware::new(engine, anns());
    match mw.pre_tool_call("s1", &call("write_file")) {
        PreToolCall::Blocked(err) => {
            assert!(err.contains("requires approval") && err.contains("no approval gate"), "got: {err}");
            assert!(err.contains("approve-write"));
        },
        _ => panic!("expected block"),
    }
}

#[test]
fn gate_awaits_approval_at_tool_risk() {
    let mut engine: Vec<PolicyRule> = Vec::new();
    engine.push(rule("approve-write", 100, RuleCondition::ToolName("write_file".into()), PolicyDecisionKind::RequireApproval, None));
    let mw = LagoPolicyMiddleware::with_gate(engine, anns());
    assert!(matches!(mw.pre_tool_call("s1", &call("write_file")), PreToolCall::AwaitApproval { risk: RiskLevel::Medium }));
    assert!(matches!(mw.pre_tool_call("s1", &call("read_file")), PreToolCall::Proceed));
}

#[test]
fn decisions_gate_calls() {
    match middleware(false).decide("bash", verdict(PolicyDecisionKind::RequireApproval, None)) {
        PreToolCall::Blocked(m) => assert_eq!(m, "tool 'bash' requires approval (rule: deny-bash) but no approval gate configured"),
        _ => panic!("expected block"),
    }
    assert!(matches!(
        middleware(true).decide("bash", verdict(PolicyDecisionKind::RequireApproval, None)),
        PreToolCall::AwaitApproval { risk: RiskLevel::High }
    ));
    match middleware(false).decide("bash", PolicyDecision { decision: PolicyDecisionKind::Deny, rule_id: None, explanation: None }) {
        PreToolCall::Blocked(m) => assert_eq!(m, "tool 'bash' blocked: denied by policy"),
        _ => panic!("expected block"),
    }
    assert!(matches!(middleware(false).decide("x", verdict(PolicyDecisionKind::Allow, None)), PreToolCall::Proceed));
}

#[test]
fn risk_level_from_annotations() {
    let mw = middleware(false);
    assert!(mw.risk_level("read_file") == RiskLevel::Low);
    assert!(mw.risk_level("bash") == RiskLevel::High);
    assert!(mw.risk_level("write_file") == RiskLevel::Medium);
    assert!(mw.risk_level("unknown_tool") == RiskLevel::Low);
}

#[test]
fn approval_outcomes() {
    let (_, ok) = resolve_approval("r", "s", "a", "bash", ApprovalOutcome { decision: ApprovalDecision::Approved, reason: None });
    assert!(ok.is_ok());
    let (ev, denied) = resolve_approval("r", "s", "a", "bash", ApprovalOutcome { decision: ApprovalDecision::Denied, reason: Some("no".into()) });
    assert_eq!(denied.err().unwrap(), "tool 'bash' approval denied: no");
    assert!(matches!(ev, AgentEvent::ApprovalResolved { ref decision, .. } if decision == "denied"));
}

#[test]
fn violation_type_as_str_matches_serde() {
    let cases = [
        (ViolationType::CapabilityBlocked, "capability_blocked"),
        (ViolationType::PathTraversal, "path_traversal"),
        (ViolationType::CommandNotAllowed, "command_not_allowed"),
        (ViolationType::EventBudgetExceeded, "event_budget_exceeded"),
        (ViolationType::RateLimitExceeded, "rate_limit_exceeded"),
        (ViolationType::ModelNotAllowed, "model_not_allowed"),
        (ViolationType::SkillNotAllowed, "skill_not_allowed"),
        (ViolationType::TokenExpired, "token_expired"),
        (ViolationType::AuthenticationError, "authentication_error"),
    ];
    for (v, s) in cases {
        assert_eq!(v.as_str(), s);
    }
}

#[test]
fn build_event_sets_correct_payload_type() {
    let data = PolicyViolationData {
        violation_type: ViolationType::TokenExpired,
        capability: None,
        attempted_value: None,
        tier: "pro".to_string(),
        subject: "user-def".to_string(),
    };
    let e = build_event("s", "main", &data, "e".into(), 1);
    match &e.payload {
        EventPayload::Custom { event_type, data } => {
            assert_eq!(event_type, "policy.violation");
            let doc: serde_json::Value = serde_json::from_str(data).unwrap();
            assert_eq!(doc["violation_type"], "token_expired");
        },
        _ => panic!("expected custom"),
    }
    assert_eq!(e.session_id, "s");
    assert_eq!(e.seq, 0);
}
