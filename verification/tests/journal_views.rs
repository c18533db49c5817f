use arcan::event_map::{arcan_to_lago, AgentEvent, EventPayload, MemoryScope, RunStopReason, ToolCall, ToolResultSummary};
use arcan::memory_scope::{MemoryEntry, MemoryScopeConfig};
use arcan::remote_journal::{classify_stream_message, head_seq_of, http_error_message, ReadQuery, RemoteLagoJournal, StreamMessage};
use arcan::repository::{extract_run_id, AppendEvent, LagoSessionRepository};
use arcan::sandbox_manifest::{sync_file_written, FileManifestEntry, FileWrittenParams, SandboxManifest};
use arcan::sandbox_types::SandboxId;
use arcan::sse_bridge::{select_format, SseBridge, SseFormatKind};
use arcan::state_projection::{AppStateProjection, Role};
use arcan::tracked_fs::{tracked_path, write_event_envelope};

fn make_entry(sandbox_id: &str, path: &str) -> FileManifestEntry {
    FileManifestEntry {
        id: "id-1".to_owned(),
        sandbox_id: SandboxId(sandbox_id.to_owned()),
        session_id: "sess-1".to_owned(),
        path: path.to_owned(),
        size_bytes: 100,
        sha256: "abc123".to_owned(),
        blob_hash: None,
        mode: 0o644,
        written_at: 0,
        deleted: false,
        provider_at_write: "stub".to_owned(),
    }
}

#[test]
fn upsert_and_get() {
    let mut m = SandboxManifest::new();
    m.upsert(make_entry("box-1", "/workspace/main.py"));
    let got = m.get(&SandboxId("box-1".into()), "/workspace/main.py");
    assert!(got.is_some());
    assert_eq!(got.unwrap().size_bytes, 100);
    assert!(m.get(&SandboxId("box-2".into()), "/workspace/main.py").is_none());
}

#[test]
fn upsert_replaces_existing() {
    let mut m = SandboxManifest::new();
    let e1 = make_entry("box-1", "/file.txt");
    let mut e2 = make_entry("box-1", "/file.txt");
    e2.size_bytes = 999;
    m.upsert(e1);
    m.upsert(e2);
    assert_eq!(m.get(&SandboxId("box-1".into()), "/file.txt").unwrap().size_bytes, 999);
    assert_eq!(m.len(), 1);
    assert!(!m.is_empty());
}

#[test]
fn list_sandbox_filters_by_id() {
    let mut m = SandboxManifest::new();
    m.upsert(make_entry("box-A", "/a.py"));
    m.upsert(make_entry("box-A", "/b.py"));
    m.upsert(make_entry("box-B", "/c.py"));
    assert_eq!(m.list_sandbox(&SandboxId("box-A".into())).len(), 2);
    assert_eq!(m.list_sandbox(&SandboxId("box-B".into())).len(), 1);
}

#[test]
fn list_sandbox_sorted_by_path() {
    let mut m = SandboxManifest::new();
    m.upsert(make_entry("box-1", "/z.py"));
    m.upsert(make_entry("box-1", "/a.py"));
    m.upsert(make_entry("box-1", "/m.py"));
    let entries = m.list_sandbox(&SandboxId("box-1".into()));
    let paths: Vec<&str> = entries.iter().map(|e| e.path.as_str()).collect();
    assert_eq!(paths, ["/a.py", "/m.py", "/z.py"]);
}

#[test]
fn sync_file_written_records_without_blob_when_read_file_unsupported() {
    let entry = sync_file_written(
        FileWrittenParams {
            sandbox_id: SandboxId("box-1".into()),
            session_id: "sess-1".into(),
            path: "/workspace/main.py".into(),
            size_bytes: 14,
            sha256: "abc123def456".into(),
            mode: 0o644,
            provider_name: "stub-no-read".into(),
        },
        None,
        "id".into(),
        7,
    );
    assert_eq!(entry.path, "/workspace/main.py");
    assert_eq!(entry.size_bytes, 14);
    assert_eq!(entry.sha256, "abc123def456");
    assert!(entry.blob_hash.is_none());
    assert_eq!(entry.provider_at_write, "stub-no-read");
    assert!(!entry.deleted);
}

#[test]
fn default_config_reasonable() {
    let config = MemoryScopeConfig::default();
    assert_eq!(config.enabled_scopes.len(), 2);
    assert!(config.enabled_scopes.contains(&MemoryScope::Session));
    assert!(config.enabled_scopes.contains(&MemoryScope::User));
    assert_eq!(config.observation_threshold, 20);
    assert_eq!(config.per_scope_token_budget, 4_000);
}

#[test]
fn custom_config() {
    let config = MemoryScopeConfig {
        enabled_scopes: vec![MemoryScope::Agent, MemoryScope::Org],
        observation_threshold: 50,
        per_scope_token_budget: 8_000,
    };
    assert_eq!(config.enabled_scopes.len(), 2);
    assert_eq!(config.observation_threshold, 50);
    let entry = MemoryEntry {
        memory_id: "MEM001".into(),
        scope: MemoryScope::Session,
        content: "User prefers dark mode".into(),
        source_run_id: Some("run-1".into()),
        source_event_ids: vec!["evt-1".into(), "evt-2".into()],
        created_at: 1_700_000_000,
    };
    assert_eq!(entry.source_event_ids.len(), 2);
}

fn text_delta(delta: &str) -> AgentEvent {
    AgentEvent::TextDelta { run_id: "r1".into(), session_id: "s1".into(), iteration: 1, delta: delta.into() }
}

fn tool_completed(output: &str) -> AgentEvent {
    AgentEvent::ToolCallCompleted {
        run_id: "r1".into(),
        session_id: "s1".into(),
        iteration: 1,
        result: ToolResultSummary { call_id: "c1".into(), tool_name: "read_file".into(), output: output.into() },
    }
}

fn env_of(event: &AgentEvent) -> arcan::event_map::EventEnvelope {
    arcan_to_lago("s1", "main", 1, "r1", event, "test-id", "e".into(), "t".into(), 1)
}

#[test]
fn text_deltas_aggregate_into_assistant_message() {
    let mut proj = AppStateProjection::new();
    proj.on_event(&env_of(&text_delta("Hello ")));
    proj.on_event(&env_of(&text_delta("world!")));
    assert_eq!(proj.messages().len(), 1);
    assert_eq!(proj.messages()[0].content, "Hello world!");
    assert!(proj.messages()[0].role == Role::Assistant);
}

#[test]
fn tool_result_adds_tool_message() {
    let mut proj = AppStateProjection::new();
    proj.on_event(&env_of(&tool_completed(r#"{"content":"file data"}"#)));
    assert_eq!(proj.messages().len(), 1);
    assert!(proj.messages()[0].role == Role::Tool);
    assert!(proj.messages()[0].content.contains("file data"));
    assert_eq!(proj.messages()[0].tool_call_id.as_deref(), Some("c1"));
}

#[test]
fn state_patch_applies_to_app_state() {
    let mut proj = AppStateProjection::new();
    let e = AgentEvent::StatePatched {
        run_id: "r1".into(),
        session_id: "s1".into(),
        iteration: 1,
        patch: r#"{"format":"merge_patch","patch":{"cwd":"/home/user"},"source":"tool"}"#.into(),
        revision: 1,
    };
    proj.on_event(&env_of(&e));
    assert_eq!(proj.state_patches().len(), 1);
    assert!(proj.state_patches()[0].contains("/home/user"));
}

#[test]
fn into_parts_returns_owned_data() {
    let mut proj = AppStateProjection::new();
    proj.on_event(&env_of(&text_delta("test")));
    let (patches, messages) = proj.into_parts();
    assert_eq!(messages.len(), 1);
    assert!(patches.is_empty());
}

#[test]
fn mixed_events_produce_correct_history() {
    let mut proj = AppStateProjection::new();
    proj.on_event(&env_of(&text_delta("Let me read that file.")));
    proj.on_event(&env_of(&tool_completed(r#"{"content":"hello"}"#)));
    proj.on_event(&env_of(&text_delta("Done.")));
    assert_eq!(proj.messages().len(), 3);
    assert!(proj.messages()[0].role == Role::Assistant);
    assert_eq!(proj.messages()[0].content, "Let me read that file.");
    assert!(proj.messages()[1].role == Role::Tool);
    assert!(proj.messages()[2].role == Role::Assistant);
    assert_eq!(proj.messages()[2].content, "Done.");
}

#[test]
fn state_projection_projection_name() {
    assert_eq!(AppStateProjection::new().name(), "arcan::app_state");
}

#[test]
fn select_format_unknown_returns_none() {
    assert!(select_format("unknown").is_none());
}

#[test]
fn select_format_all_known() {
    for name in &["openai", "anthropic", "vercel", "lago"] {
        assert!(select_format(name).is_some(), "format {name} not found");
    }
    assert!(matches!(select_format("vercel"), Some(SseFormatKind::Vercel)));
}

#[test]
fn sequence_numbers_increment() {
    let mut bridge = SseBridge::new(select_format("lago").unwrap(), "test-session", "main");
    assert_eq!(bridge.format_name(), "lago");
    let event = text_delta("a");
    let e1 = bridge.format_event(&event, "r1", "u1", "e1".into(), "t1".into(), 1);
    let e2 = bridge.format_event(&event, "r1", "u2", "e2".into(), "t2".into(), 2);
    assert_eq!(bridge.seq(), 2);
    assert_eq!(e1.seq, 1);
    assert_eq!(e2.seq, 2);
    assert_eq!(e2.session_id, "test-session");
    assert!(matches!(e1.payload, EventPayload::TextDelta { .. }));
}

fn run_finished(run_id: &str, session_id: &str) -> AgentEvent {
    AgentEvent::RunFinished {
        run_id: run_id.to_string(),
        session_id: session_id.to_string(),
        reason: RunStopReason::Completed,
        total_iterations: 1,
        final_answer: Some("done".to_string()),
    }
}

#[test]
fn append_and_load_session() {
    let repo = LagoSessionRepository::new();
    let (env, record) = repo.append(
        AppendEvent { session_id: "s1".into(), parent_id: None, event: run_finished("r1", "s1") },
        0,
        "uuid-1",
        "e1".into(),
        "t1".into(),
        5_000_000,
    );
    assert_eq!(record.session_id, "s1");
    assert_eq!(record.id, "uuid-1");
    assert_eq!(env.seq, 1);
    assert_eq!(env.branch_id, "main");
    let records = repo.load_session("s1", &vec![env]);
    assert_eq!(records.len(), 1);
    assert_eq!(records[0].id, "uuid-1");
    assert_eq!(records[0].timestamp, 5_000_000);
}

#[test]
fn head_returns_last_event() {
    let repo = LagoSessionRepository::new();
    let mut envs = Vec::new();
    for (i, run) in ["r1", "r2"].iter().enumerate() {
        let (env, _) = repo.append(
            AppendEvent { session_id: "s1".into(), parent_id: None, event: run_finished(run, "s1") },
            i as u64,
            &format!("uuid-{i}"),
            format!("e{i}"),
            "t".into(),
            1,
        );
        envs.push(env);
    }
    let head = repo.head("s1", &envs).unwrap();
    assert_eq!(head.id, "uuid-1");
    assert_eq!(extract_run_id(&head.event), "r2");
}

#[test]
fn empty_session_returns_empty() {
    let repo = LagoSessionRepository::new();
    assert!(repo.load_session("none", &Vec::new()).is_empty());
    assert!(repo.head("none", &Vec::new()).is_none());
}

#[test]
fn tool_events_round_trip_through_journal() {
    let repo = LagoSessionRepository::new();
    let requested = AgentEvent::ToolCallRequested {
        run_id: "r1".into(),
        session_id: "s1".into(),
        iteration: 1,
        call: ToolCall { call_id: "c1".into(), tool_name: "bash".into(), input: r#"{"cmd":"ls"}"#.into() },
    };
    let (e1, _) = repo.append(AppendEvent { session_id: "s1".into(), parent_id: None, event: requested }, 0, "u1", "e1".into(), "t1".into(), 1);
    let (e2, _) = repo.append(
        AppendEvent { session_id: "s1".into(), parent_id: Some("u1".into()), event: tool_completed(r#"{"ok":true}"#) },
        1,
        "u2",
        "e2".into(),
        "t2".into(),
        2,
    );
    let mut e2 = e2;
    e2.parent_id = Some("u1".into());
    let records = repo.load_session("s1", &vec![e1, e2]);
    assert_eq!(records.len(), 2);
    assert!(matches!(records[0].event, AgentEvent::ToolCallRequested { .. }));
    assert!(matches!(records[1].event, AgentEvent::ToolCallCompleted { .. }));
    assert_eq!(records[1].parent_id.as_deref(), Some("u1"));
}

#[test]
fn children_are_selected_by_parent() {
    let repo = LagoSessionRepository::new();
    let (mut child, _) = repo.append(AppendEvent { session_id: "s1".into(), parent_id: None, event: text_delta("x") }, 0, "u1", "e1".into(), "t".into(), 1);
    child.parent_id = Some("p".into());
    let (other, _) = repo.append(AppendEvent { session_id: "s1".into(), parent_id: None, event: text_delta("y") }, 1, "u2", "e2".into(), "t".into(), 1);
    let children = repo.load_children("p", &vec![child, other]);
    assert_eq!(children.len(), 1);
    assert_eq!(children[0].id, "u1");
}

#[test]
fn remote_journal_urls() {
    let j = RemoteLagoJournal::new("http://lagod:3001//");
    assert_eq!(j.url("/x"), "http://lagod:3001/v1/x");
    assert_eq!(j.append_url("s1"), "http://lagod:3001/v1/sessions/s1/events");
    assert_eq!(j.head_url("s1", "main"), "http://lagod:3001/v1/sessions/s1/events/head?branch=main");
    assert_eq!(j.stream_url("s1", "main", 7), "http://lagod:3001/v1/sessions/s1/events?format=lago&after_seq=7&branch=main");
    assert_eq!(j.sessions_url(), "http://lagod:3001/v1/sessions");
    let q = ReadQuery { session_id: Some("s1".into()), branch_id: None, after_seq: None, limit: Some(10) };
    assert_eq!(j.read_url(&q), Ok("http://lagod:3001/v1/sessions/s1/events/read?branch=main&after_seq=0&limit=10".to_string()));
    let q = ReadQuery { session_id: None, branch_id: None, after_seq: None, limit: None };
    assert_eq!(j.read_url(&q), Err("session_id required for read".to_string()));
}

#[test]
fn remote_journal_statuses() {
    assert_eq!(head_seq_of(404, None), Some(0));
    assert_eq!(head_seq_of(200, Some(12)), Some(12));
    assert_eq!(head_seq_of(500, Some(12)), None);
    assert_eq!(http_error_message("500 Internal Server Error", "boom"), "lago HTTP 500 Internal Server Error: boom");
    assert!(matches!(classify_stream_message("event"), StreamMessage::Event));
    assert!(matches!(classify_stream_message("done"), StreamMessage::Done));
    assert!(matches!(classify_stream_message("ping"), StreamMessage::Skip));
}

#[test]
fn write_sends_notification() {
    assert_eq!(tracked_path("/ws", Some("/ws/src/main.rs"), "src/main.rs"), "/src/main.rs");
    assert_eq!(tracked_path("/ws", None, "src/main.rs"), "src/main.rs");
    let env = write_event_envelope(EventPayload::Other { kind: "file_write".into() }, "s", "main", "e".into(), 3);
    assert_eq!(env.session_id, "s");
    assert!(env.run_id.is_none());
    assert_eq!(env.timestamp, 3);
}
