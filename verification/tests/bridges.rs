use arcan::bubblewrap::BubblewrapProvider;
use arcan::event_map::{EventEnvelope, EventPayload, MemoryScope, ModelStopReason, RiskLevel, ToolCall};
use arcan::mcp::{mcp_tool_to_arcan, McpToolAnnotations, McpToolInfo};
use arcan::memory::{ReadMemoryTool, WriteMemoryTool};
use arcan::memory_projection::MemoryProjection;
use arcan::model_providers::ModelDirective;
use arcan::observation::Observer;
use arcan::policy_middleware::{LagoPolicyMiddleware, PreToolCall};
use arcan::policy_middleware::{PolicyDecisionKind, PolicyRule, RuleCondition};
use arcan::policy_violation::{event_kind, PolicyViolationData, ViolationType};
use arcan::praxis::{exec_request_for, PraxisConfig};
use arcan::rig_bridge::{build_rig_messages, parse_rig_response, RigContent, RigMessage};
use arcan::sandbox::{CommandRequest, LocalCommandRunner, NetworkPolicy, SandboxError, SandboxPolicy};
use arcan::skill_events::{emit_skill_activated, SkillActivatedData};
use arcan::state_projection::{ChatMessage, Role};
use arcan::tools::annotations;

fn envelope(seq: u64, payload: EventPayload) -> EventEnvelope {
    EventEnvelope {
        event_id: "EVT001".to_string(),
        session_id: "SESS001".to_string(),
        branch_id: "main".to_string(),
        run_id: None,
        seq,
        timestamp: 1_700_000_000_000_000 + seq,
        parent_id: None,
        payload,
        metadata: vec![],
        schema_version: 1,
    }
}

fn json(text: &str) -> serde_json::Value {
    serde_json::from_str(text).unwrap()
}

// --- MCP tools ---

#[test]
fn mcp_tool_to_arcan_conversion() {
    let mcp_tool = McpToolInfo {
        name: "read_file".to_string(),
        title: Some("Read File".to_string()),
        description: Some("Reads a file from disk".to_string()),
        input_schema: r#"{"type":"object","properties":{"path":{"type":"string"}},"required":["path"]}"#.to_string(),
        output_schema: None,
        annotations: Some(McpToolAnnotations {
            title: None,
            read_only_hint: Some(true),
            destructive_hint: Some(false),
            idempotent_hint: Some(true),
            open_world_hint: Some(false),
        }),
    };
    let (def, original_name) = mcp_tool_to_arcan("test-server", &mcp_tool);
    assert_eq!(def.name, "mcp_test-server_read_file");
    assert_eq!(original_name, "read_file");
    assert_eq!(def.description, "Reads a file from disk");
    assert_eq!(def.title, Some("Read File".to_string()));
    assert_eq!(def.category, Some("mcp".to_string()));
    assert!(def.tags.contains(&"mcp".to_string()));
    assert!(def.tags.contains(&"test-server".to_string()));
    let ann = def.annotations.unwrap();
    assert!(ann.read_only);
    assert!(!ann.destructive);
    assert!(ann.idempotent);
    assert!(!ann.open_world);
}

#[test]
fn mcp_tool_without_annotations() {
    let mcp_tool = McpToolInfo {
        name: "simple".to_string(),
        title: None,
        description: Some("A simple tool".to_string()),
        input_schema: r#"{"type":"object"}"#.to_string(),
        output_schema: None,
        annotations: None,
    };
    let (def, _) = mcp_tool_to_arcan("srv", &mcp_tool);
    assert_eq!(def.name, "mcp_srv_simple");
    assert!(def.annotations.is_none());
    assert!(def.title.is_none());
}

// --- memory files ---

#[test]
fn write_then_read_memory() {
    let write_tool = WriteMemoryTool::new("/data/memory".to_string());
    let read_tool = ReadMemoryTool::new("/data/memory".to_string());
    let written = write_tool.file_for("test-notes").unwrap();
    let read = read_tool.file_for("test-notes").unwrap();
    // What is written under a key is what is read back under it.
    assert_eq!(written, "/data/memory/test-notes.md");
    assert_eq!(read, written);
}

#[test]
fn read_nonexistent_memory() {
    let read_tool = ReadMemoryTool::new("/data/memory".to_string());
    assert_eq!(read_tool.file_for("nonexistent").unwrap(), "/data/memory/nonexistent.md");
}

#[test]
fn write_creates_directory() {
    let write_tool = WriteMemoryTool::new("/data/ws/memory".to_string());
    let file = write_tool.file_for("auto-created").unwrap();
    // The file lies directly in the memory directory, which is created first.
    assert_eq!(file, "/data/ws/memory/auto-created.md");
}

#[test]
fn overwrite_memory() {
    let write_tool = WriteMemoryTool::new("/m".to_string());
    let read_tool = ReadMemoryTool::new("/m".to_string());
    let first = write_tool.file_for("overwrite-test").unwrap();
    let second = write_tool.file_for("overwrite-test").unwrap();
    assert_eq!(first, second);
    assert_eq!(read_tool.file_for("overwrite-test").unwrap(), second);
}

// --- memory projection ---

#[test]
fn tracks_committed_memories() {
    let mut proj = MemoryProjection::new();
    proj.on_event(&EventPayload::MemoryCommitted {
        scope: MemoryScope::User,
        memory_id: "MEM001".to_string(),
        committed_ref: "ref1".to_string(),
        supersedes: None,
    });
    let result = proj.query(MemoryScope::User);
    assert_eq!(result.committed.len(), 1);
    assert_eq!(result.committed[0].memory_id, "MEM001");
}

#[test]
fn query_returns_correct_data() {
    let mut proj = MemoryProjection::new();
    proj.on_event(&EventPayload::ObservationAppended {
        scope: MemoryScope::Session,
        observation_ref: "obs1".to_string(),
        source_run_id: Some("run-1".to_string()),
    });
    proj.on_event(&EventPayload::ReflectionCompacted { scope: MemoryScope::Session, summary_ref: "sum1".to_string() });
    proj.on_event(&EventPayload::MemoryCommitted {
        scope: MemoryScope::Session,
        memory_id: "MEM001".to_string(),
        committed_ref: "ref1".to_string(),
        supersedes: None,
    });
    let result = proj.query(MemoryScope::Session);
    assert_eq!(result.observations.len(), 1);
    assert_eq!(result.observations[0], "obs1");
    assert_eq!(result.reflection.as_deref(), Some("sum1"));
    assert_eq!(result.committed.len(), 1);

    let empty_result = proj.query(MemoryScope::Org);
    assert!(empty_result.observations.is_empty());
    assert!(empty_result.reflection.is_none());
    assert!(empty_result.committed.is_empty());
}

// --- observation ---

#[test]
fn observer_extracts_from_error() {
    let mut obs = Observer::new(MemoryScope::Session, 10);
    obs.on_event(&envelope(3, EventPayload::Error { error: "connection refused".to_string() }));
    assert_eq!(obs.count(), 1);
    assert!(obs.observations()[0].text.contains("connection refused"));
}

#[test]
fn observer_extracts_from_state_patched() {
    let mut obs = Observer::new(MemoryScope::Session, 10);
    obs.on_event(&envelope(4, EventPayload::StatePatched { index: Some(1), patch: r#"{"cwd":"/home"}"#.to_string(), revision: 1 }));
    assert_eq!(obs.count(), 1);
    assert!(obs.observations()[0].text.contains("state patched"));
}

#[test]
fn observer_tracks_source_seq() {
    let mut obs = Observer::new(MemoryScope::Session, 10);
    obs.on_event(&envelope(42, EventPayload::Error { error: "boom".to_string() }));
    assert_eq!(obs.observations()[0].source_seq, 42);
}

#[test]
fn drain_clears_observations() {
    let mut obs = Observer::new(MemoryScope::Session, 10);
    obs.on_event(&envelope(1, EventPayload::Error { error: "boom".to_string() }));
    assert_eq!(obs.count(), 1);
    let drained = obs.drain();
    assert_eq!(drained.len(), 1);
    assert_eq!(obs.count(), 0);
    assert!(!obs.threshold_reached());
}

// --- policy gate ---

fn default_middleware(engine: Vec<PolicyRule>) -> LagoPolicyMiddleware {
    LagoPolicyMiddleware::new(engine, vec![
        ("read_file".to_string(), annotations(true, false, true, false, false)),
        ("bash".to_string(), annotations(false, true, false, true, true)),
        ("write_file".to_string(), annotations(false, true, false, false, false)),
    ])
}

fn deny_rule(id: &str, priority: u32, condition: RuleCondition, explanation: &str) -> PolicyRule {
    PolicyRule {
        id: id.to_string(),
        name: id.to_string(),
        priority,
        condition,
        decision: PolicyDecisionKind::Deny,
        explanation: Some(explanation.to_string()),
        required_sandbox: None,
    }
}

fn tool_call(name: &str) -> ToolCall {
    ToolCall { call_id: "c1".to_string(), tool_name: name.to_string(), input: "{}".to_string() }
}

#[test]
fn allows_non_matching_tool() {
    let mut engine: Vec<PolicyRule> = Vec::new();
    engine.push(deny_rule("deny-bash", 100, RuleCondition::ToolName("bash".into()), "bash is not allowed"));
    let mw = default_middleware(engine);
    assert!(matches!(mw.pre_tool_call("s1", &tool_call("read_file")), PreToolCall::Proceed));
}

#[test]
fn denies_by_risk_level_rule() {
    let mut engine: Vec<PolicyRule> = Vec::new();
    engine.push(deny_rule("deny-high-risk", 50, RuleCondition::RiskAtLeast(RiskLevel::High), "high risk tools are blocked"));
    let mw = default_middleware(engine);
    match mw.pre_tool_call("s1", &tool_call("bash")) {
        PreToolCall::Blocked(err) => assert!(err.contains("high risk"), "got: {err}"),
        _ => panic!("expected block"),
    }
    assert!(matches!(mw.pre_tool_call("s1", &tool_call("read_file")), PreToolCall::Proceed));
}

// --- policy violations ---

fn violation(t: ViolationType, capability: Option<&str>, attempted: Option<&str>, tier: &str, subject: &str) -> PolicyViolationData {
    PolicyViolationData {
        violation_type: t,
        capability: capability.map(|s| s.to_string()),
        attempted_value: attempted.map(|s| s.to_string()),
        tier: tier.to_string(),
        subject: subject.to_string(),
    }
}

#[test]
fn violation_type_serialises_to_snake_case() {
    let data = violation(ViolationType::RateLimitExceeded, None, None, "free", "s");
    let doc = json(&data.to_json());
    assert_eq!(doc["violation_type"], serde_json::Value::String("rate_limit_exceeded".to_string()));
}

#[test]
fn event_kind_encodes_violation_type_in_data() {
    let data = violation(ViolationType::RateLimitExceeded, None, None, "anonymous", "session-abc");
    let EventPayload::Custom { event_type, data: payload } = event_kind(&data) else {
        panic!("expected Custom variant");
    };
    assert_eq!(event_type, "policy.violation");
    let doc = json(&payload);
    assert_eq!(doc["violation_type"], "rate_limit_exceeded");
    assert_eq!(doc["tier"], "anonymous");
    assert_eq!(doc["subject"], "session-abc");
}

#[test]
fn optional_fields_are_omitted_when_none() {
    let data = violation(ViolationType::AuthenticationError, None, None, "free", "user-xyz");
    let doc = json(&data.to_json());
    assert!(!doc.as_object().unwrap().contains_key("capability"));
    assert!(!doc.as_object().unwrap().contains_key("attempted_value"));
}

#[test]
fn optional_fields_are_present_when_set() {
    let data = violation(ViolationType::SkillNotAllowed, Some("exec:cmd:*"), Some("deep-research"), "free", "user-abc");
    let doc = json(&data.to_json());
    assert_eq!(doc["capability"], "exec:cmd:*");
    assert_eq!(doc["attempted_value"], "deep-research");
}

#[test]
fn violation_document_text_is_exact() {
    let data = violation(ViolationType::TokenExpired, Some("a\"b"), None, "pro", "u");
    assert_eq!(
        data.to_json(),
        r#"{"capability":"a\"b","subject":"u","tier":"pro","violation_type":"token_expired"}"#
    );
}

// --- skill events ---

#[test]
fn skill_event_data_serialization() {
    let data = SkillActivatedData {
        name: "test".to_string(),
        tags: vec!["a".to_string()],
        allowed_tools: Some(vec!["read_file".to_string()]),
        mcp_servers: None,
    };
    let doc = json(&data.to_json());
    assert_eq!(doc["name"], "test");
    assert_eq!(doc["tags"], json(r#"["a"]"#));
    assert_eq!(doc["allowed_tools"], json(r#"["read_file"]"#));
    assert!(doc.get("mcp_servers").is_none());
}

#[test]
fn skill_activated_event_without_tags() {
    let tools = vec!["bash".to_string(), "grep".to_string()];
    let e = emit_skill_activated("s1", "main", "helper", &[], Some(&tools), None, "e1".to_string(), 7);
    match e.payload {
        EventPayload::Custom { event_type, data } => {
            assert_eq!(event_type, "skill.activated");
            assert_eq!(data, r#"{"allowed_tools":["bash","grep"],"name":"helper"}"#);
        },
        _ => panic!("expected custom"),
    }
    assert_eq!(e.seq, 0);
    assert_eq!(e.timestamp, 7);
}

// --- completion client bridge ---

fn msg(role: Role, content: &str) -> ChatMessage {
    ChatMessage { role, content: content.to_string(), tool_call_id: None }
}

#[test]
fn build_messages_extracts_system() {
    let messages = vec![msg(Role::System, "You are helpful."), msg(Role::User, "Hello")];
    let (system, history) = build_rig_messages(&messages).unwrap();
    assert_eq!(system, Some("You are helpful.".to_string()));
    assert_eq!(history.len(), 1);
    assert!(matches!(&history[0], RigMessage::User { .. }));
}

#[test]
fn build_messages_with_conversation() {
    let messages = vec![
        msg(Role::System, "Be brief."),
        msg(Role::User, "What is 2+2?"),
        msg(Role::Assistant, "4"),
        msg(Role::User, "And 3+3?"),
    ];
    let (system, history) = build_rig_messages(&messages).unwrap();
    assert_eq!(system, Some("Be brief.".to_string()));
    assert_eq!(history.len(), 3);
}

#[test]
fn build_messages_with_tool_result() {
    let messages = vec![
        msg(Role::User, "Read test.rs"),
        ChatMessage { role: Role::Tool, content: "file contents here".to_string(), tool_call_id: Some("call_123".to_string()) },
        msg(Role::User, "Now edit it"),
    ];
    let (system, history) = build_rig_messages(&messages).unwrap();
    assert!(system.is_none());
    assert_eq!(history.len(), 3);
    assert!(matches!(&history[1], RigMessage::ToolResult { tool_call_id, .. } if tool_call_id == "call_123"));
}

#[test]
fn build_messages_empty_adds_default() {
    let messages: Vec<ChatMessage> = vec![];
    let (system, history) = build_rig_messages(&messages).unwrap();
    assert!(system.is_none());
    assert_eq!(history.len(), 1);
    assert!(matches!(&history[0], RigMessage::User { text } if text == "Continue."));
}

#[test]
fn parse_text_response() {
    let turn = parse_rig_response(vec![RigContent::Text("Hello!".to_string())]).unwrap();
    assert!(turn.stop_reason == ModelStopReason::EndTurn);
    assert_eq!(turn.directives.len(), 1);
    assert!(matches!(&turn.directives[0], ModelDirective::Text { delta } if delta == "Hello!"));
}

#[test]
fn parse_tool_call_response() {
    let turn = parse_rig_response(vec![RigContent::ToolCall {
        id: "call_123".to_string(),
        name: "read_file".to_string(),
        arguments: r#"{"path":"test.rs"}"#.to_string(),
    }])
    .unwrap();
    assert!(turn.stop_reason == ModelStopReason::ToolUse);
    assert_eq!(turn.directives.len(), 1);
    assert!(matches!(&turn.directives[0], ModelDirective::ToolCall { call } if call.tool_name == "read_file"));
}

#[test]
fn other_content_gives_no_directive() {
    let turn = parse_rig_response(vec![RigContent::Other, RigContent::Text("x".to_string())]).unwrap();
    assert_eq!(turn.directives.len(), 1);
    assert!(turn.usage.is_none());
}

// --- sandboxed runners ---

fn runner_policy(root: &str, shell_enabled: bool) -> SandboxPolicy {
    SandboxPolicy {
        workspace_root: root.to_string(),
        shell_enabled,
        network: NetworkPolicy::Disabled,
        allowed_env: Vec::new(),
        max_execution_ms: 10_000,
        max_stdout_bytes: 65_536,
        max_stderr_bytes: 65_536,
        max_processes: 16,
        max_memory_mb: 512,
    }
}

fn echo_request(cwd: &str) -> CommandRequest {
    CommandRequest { executable: "echo".to_string(), args: vec!["hello".to_string()], cwd: Some(cwd.to_string()), env: vec![] }
}

#[test]
fn shell_disabled_returns_error() {
    let policy = runner_policy("/w", false);
    let err = match exec_request_for(&policy, &echo_request("/w")) {
        Err(e) => e,
        Ok(_) => panic!("expected refusal"),
    };
    assert!(err.contains("disabled by policy"));
}

#[test]
fn service_runner_shell_disabled_returns_error() {
    let policy = runner_policy("/w", false);
    let err = match exec_request_for(&policy, &echo_request("/w/session")) {
        Err(e) => e,
        Ok(_) => panic!("expected refusal"),
    };
    assert!(err.contains("disabled by policy"));
}

#[test]
fn bubblewrap_provider_name() {
    let provider = BubblewrapProvider::new("/tmp/sandboxes".to_string(), false);
    assert_eq!(provider.name(), "bubblewrap");
}

#[test]
fn shell_disabled_rejects_bash() {
    let config = PraxisConfig::new("/tmp/workspace".to_string()).with_shell_disabled();
    let policy = config.sandbox_policy();
    assert!(matches!(LocalCommandRunner::preflight(&policy), Err(SandboxError::ShellDisabled)));
}

#[test]
fn workspace_boundary_enforced_through_bridge() {
    let config = PraxisConfig::new("/tmp/workspace".to_string());
    let fs = config.fs_policy();
    assert!(fs.ensure_within_root("/etc/passwd", &Ok("/tmp/workspace".to_string())).is_err());
    assert!(fs.ensure_within_root("/tmp/workspace/a.txt", &Ok("/tmp/workspace".to_string())).is_ok());
}
