use arcan::event_map::{lago_to_arcan, AgentEvent, EventEnvelope, EventPayload, RiskLevel, ToolCall};
use arcan::fs::{GrepSearch, GrepTool};
use arcan::mcp::{mcp_result_to_tool_result, McpCallResult, McpContent, ToolContent};
use arcan::memory_tools::{MemoryCommitTool, MemoryProposeTool};
use arcan::policy_middleware::{LagoPolicyMiddleware, PolicyDecisionKind, PolicyRule, PreToolCall, RuleCondition};
use arcan::praxis::{exec_request_for, finish_sandboxed, truncate};
use arcan::sandbox::{CommandRequest, LocalCommandRunner, NetworkPolicy, SandboxPolicy};
use arcan::sandbox_types::ExecResult;
use arcan::tools::annotations;
use arcan::tool_io::{content_output, edited_output, input_arg, memory_output, optional_input_arg, optional_u64_arg, path_matches_output, written_output};

fn envelope(payload: EventPayload) -> EventEnvelope {
    EventEnvelope {
        event_id: "e".to_string(),
        session_id: "s".to_string(),
        branch_id: "main".to_string(),
        run_id: Some("r".to_string()),
        seq: 1,
        timestamp: 1,
        parent_id: None,
        payload,
        metadata: vec![],
        schema_version: 1,
    }
}

#[test]
fn invalid_state_patch_maps_to_nothing() {
    let bad = envelope(EventPayload::StatePatched { index: Some(1), patch: r#"{"cwd":"/home"}"#.to_string(), revision: 1 });
    assert!(lago_to_arcan(&bad).is_none());
    let not_json = envelope(EventPayload::StatePatched { index: None, patch: "nope".to_string(), revision: 2 });
    assert!(lago_to_arcan(&not_json).is_none());
    let good = envelope(EventPayload::StatePatched {
        index: Some(3),
        patch: r#"{"format":"merge_patch","patch":{"a":1},"source":"tool"}"#.to_string(),
        revision: 4,
    });
    assert!(matches!(lago_to_arcan(&good), Some(AgentEvent::StatePatched { iteration: 3, revision: 4, .. })));
}

#[test]
fn grep_with_zero_maximum_returns_nothing() {
    let m = GrepTool::matcher("x").ok().unwrap();
    let mut search = GrepSearch::new(0);
    search.scan_file(&m, "a.txt", &vec![Some("x".to_string()), Some("xx".to_string())]);
    assert_eq!(search.matches.len(), 0);
    let mut one = GrepSearch::new(1);
    one.scan_file(&m, "a.txt", &vec![Some("no".to_string()), Some("x".to_string()), Some("xx".to_string())]);
    assert_eq!(one.matches.len(), 1);
    assert_eq!(one.matches[0].line, 2);
}

fn anns() -> Vec<(String, arcan::tools::ToolAnnotations)> {
    vec![
        ("read_file".to_string(), annotations(true, false, true, false, false)),
        ("bash".to_string(), annotations(false, true, false, true, true)),
        ("write_file".to_string(), annotations(false, true, false, false, false)),
    ]
}

fn rule(id: &str, priority: u32, condition: RuleCondition, decision: PolicyDecisionKind, explanation: Option<&str>) -> PolicyRule {
    PolicyRule {
        id: id.to_string(),
        name: id.to_string(),
        priority,
        condition,
        decision,
        explanation: explanation.map(|s| s.to_string()),
        required_sandbox: None,
    }
}

fn call(tool: &str) -> ToolCall {
    ToolCall { call_id: "c".to_string(), tool_name: tool.to_string(), input: "{}".to_string() }
}

#[test]
fn rules_are_tried_by_priority() {
    let rules = vec![
        rule("allow-all", 200, RuleCondition::Always, PolicyDecisionKind::Allow, None),
        rule("deny-bash", 10, RuleCondition::ToolName("bash".into()), PolicyDecisionKind::Deny, Some("no shell")),
    ];
    let mw = LagoPolicyMiddleware::new(rules, anns());
    match mw.pre_tool_call("s", &call("bash")) {
        PreToolCall::Blocked(m) => assert_eq!(m, "tool 'bash' blocked: no shell"),
        _ => panic!("expected block"),
    }
    assert!(matches!(mw.pre_tool_call("s", &call("read_file")), PreToolCall::Proceed));
}

#[test]
fn compound_conditions_reach_the_engine() {
    let cond = RuleCondition::And(vec![
        RuleCondition::ToolPattern("write_*".into()),
        RuleCondition::Not(Box::new(RuleCondition::RiskAtLeast(RiskLevel::High))),
    ]);
    let mw = LagoPolicyMiddleware::new(vec![rule("guard-writes", 1, cond, PolicyDecisionKind::Deny, None)], anns());
    match mw.pre_tool_call("s", &call("write_file")) {
        PreToolCall::Blocked(m) => assert_eq!(m, "tool 'write_file' blocked: denied by policy"),
        _ => panic!("expected block"),
    }
    assert!(matches!(mw.pre_tool_call("s", &call("bash")), PreToolCall::Proceed));
}

#[test]
fn truncate_cuts_at_a_character_boundary() {
    // "héllo": the 'é' takes bytes 1..3, so a cut at 2 falls inside it.
    let bytes = "héllo".as_bytes();
    assert_eq!(truncate(bytes, 2), "h");
    assert_eq!(truncate(bytes, 3), "hé");
    assert_eq!(truncate(bytes, 100), "héllo");
    assert_eq!(truncate(&[0xff, b'a'], 10), "\u{fffd}a");
    let policy = SandboxPolicy {
        workspace_root: "/w".to_string(),
        shell_enabled: true,
        network: NetworkPolicy::Disabled,
        allowed_env: Vec::new(),
        max_execution_ms: 1000,
        max_stdout_bytes: 2,
        max_stderr_bytes: 100,
        max_processes: 1,
        max_memory_mb: 1,
    };
    let r = finish_sandboxed(&policy, &ExecResult { stdout: bytes.to_vec(), stderr: b"err".to_vec(), exit_code: 3, duration_ms: 0 });
    assert_eq!(r.stdout, "h");
    assert_eq!(r.stderr, "err");
    assert_eq!(r.exit_code, 3);
}

#[test]
fn truncate_output_exact_texts() {
    assert_eq!(
        LocalCommandRunner::truncate_output(b"hello world, this is a longer string", 11),
        "hello world\n\n... [truncated: 36 bytes total, showing first 11]"
    );
    assert_eq!(LocalCommandRunner::truncate_output(b"hello world", 100), "hello world");
}

#[test]
fn sandbox_request_keeps_the_environment() {
    let policy = SandboxPolicy {
        workspace_root: "/w".to_string(),
        shell_enabled: true,
        network: NetworkPolicy::Disabled,
        allowed_env: Vec::new(),
        max_execution_ms: 1500,
        max_stdout_bytes: 10,
        max_stderr_bytes: 10,
        max_processes: 1,
        max_memory_mb: 1,
    };
    let req = CommandRequest {
        executable: "sh".to_string(),
        args: vec!["-c".to_string(), "env".to_string()],
        cwd: None,
        env: vec![("A".to_string(), "1".to_string()), ("B".to_string(), "2".to_string())],
    };
    let (x, entity) = match exec_request_for(&policy, &req) {
        Ok(v) => v,
        Err(e) => panic!("{e}"),
    };
    assert_eq!(x.env, vec![("A".to_string(), "1".to_string()), ("B".to_string(), "2".to_string())]);
    assert_eq!(x.timeout_secs, Some(2));
    assert_eq!(entity, "w");
}

#[test]
fn mcp_content_pieces_carry_over() {
    let result = McpCallResult {
        content: vec![
            McpContent::Text("one".to_string()),
            McpContent::Other,
            McpContent::Image { data: "AAA".to_string(), mime_type: "image/png".to_string() },
        ],
        structured_content: None,
        is_error: None,
    };
    let r = mcp_result_to_tool_result("c", "t", &result);
    let pieces = r.content.unwrap();
    assert_eq!(pieces.len(), 2);
    assert!(matches!(&pieces[0], ToolContent::Text { text } if text == "one"));
    assert!(matches!(&pieces[1], ToolContent::Image { data, mime_type } if data == "AAA" && mime_type == "image/png"));
    assert!(!r.is_error);
}

#[test]
fn with_session_fixes_the_event_session() {
    let tool = MemoryProposeTool::with_session("S", "main");
    let proposal = match tool.check(r#"{"scope":"session","entries":[{"content":"x"}]}"#) {
        Ok(p) => p,
        Err(_) => panic!("accepted"),
    };
    let (env, out) = tool.proposal_event("T", "run", &proposal, "P", "E", 0, 1);
    assert_eq!(env.session_id, "S");
    assert_eq!(out.entry_count, 1);
    let (env2, _) = MemoryProposeTool::new().proposal_event("T", "run", &proposal, "P", "E", 0, 1);
    assert_eq!(env2.session_id, "T");
    let commit = MemoryCommitTool::with_session("S", "main");
    let c = match commit.check(r#"{"proposal_id":"P"}"#) {
        Ok(c) => c,
        Err(_) => panic!("accepted"),
    };
    let (env3, _) = commit.commit_event("T", &c, "M", "E", 0, 0);
    assert_eq!(env3.session_id, "S");
}

#[test]
fn resume_step_follows_what_is_on_disk() {
    let p = arcan::bubblewrap::BubblewrapProvider::new("/srv/sb".to_string(), false);
    let id = arcan::sandbox_types::SandboxId("box".to_string());
    assert!(matches!(p.resume_step(&id, true, true), Ok(None)));
    match p.resume_step(&id, false, true) {
        Ok(Some(a)) => assert_eq!(a, vec!["-xzf", "/srv/sb/box.tar.gz", "-C", "/srv/sb"]),
        _ => panic!("expected extraction"),
    }
    assert!(matches!(p.resume_step(&id, false, false), Err(arcan::sandbox_types::SandboxError::NotFound(x)) if x.0 == "box"));
}

#[test]
fn percent_encoding_examples() {
    assert_eq!(arcan::credential::encode("a-b_c.d~e"), "a-b_c.d~e");
    assert_eq!(arcan::credential::encode("a b/é"), "a%20b%2F%C3%A9");
}

#[test]
fn line_tags_are_eight_hex_digits() {
    let t = arcan::edit::line_tag(1, "hello");
    assert_eq!(t.len(), 8);
    assert!(t.chars().all(|c| c.is_ascii_hexdigit() && !c.is_ascii_uppercase()));
}

#[test]
fn write_resolution_of_root_is_invalid_path() {
    let p = arcan::fs::FsPolicy::new("/ws".to_string());
    let parent: Result<String, String> = Ok("/ws".to_string());
    let root: Result<String, String> = Ok("/ws".to_string());
    let r = p.try_resolve_for_write("/", &parent, &root);
    match r {
        Some(Err(e)) => assert_eq!(e.to_string(), "invalid path: /"),
        _ => panic!("expected an invalid path"),
    }
    // a parent outside the root is refused before the file name is taken
    let outside: Result<String, String> = Ok("/elsewhere".to_string());
    assert!(matches!(p.try_resolve_for_write("..", &outside, &root), Some(Err(_))));
}

#[test]
fn memory_key_with_dot_is_refused_as_a_character() {
    let msg = "Memory key must contain only alphanumeric characters, hyphens, and underscores";
    assert_eq!(arcan::memory::validate_memory_key(".hidden").err().unwrap(), msg);
    assert_eq!(arcan::memory::validate_memory_key("a..b").err().unwrap(), msg);
    assert!(arcan::memory::validate_memory_key("valid-key_1").is_ok());
}

#[test]
fn tool_arguments_are_read_from_call_input() {
    let input = r#"{"path":"src/a.rs","max_matches":7,"n":"x"}"#;
    assert_eq!(input_arg("read_file", input, "path").ok().unwrap(), "src/a.rs");
    let e = input_arg("read_file", input, "content").err().unwrap();
    assert_eq!(e.tool_name, "read_file");
    assert_eq!(e.message, "Missing or invalid 'content' argument");
    // a number is not a string argument
    assert_eq!(input_arg("grep", input, "max_matches").err().unwrap().message, "Missing or invalid 'max_matches' argument");
    assert_eq!(optional_input_arg(input, "n"), Some("x".to_string()));
    assert_eq!(optional_input_arg(input, "glob"), None);
    assert_eq!(optional_u64_arg(input, "max_matches"), Some(7));
    assert_eq!(optional_u64_arg(input, "path"), None);
    assert!(input_arg("read_file", "not json", "path").is_err());
}

fn same_json(text: &str, expected: &str) {
    let got: serde_json::Value = serde_json::from_str(text).unwrap();
    let want: serde_json::Value = serde_json::from_str(expected).unwrap();
    assert_eq!(got, want);
}

#[test]
fn tool_answers_are_json_documents() {
    same_json(&content_output("1:ab|x", "/ws/a"), r#"{"content": "1:ab|x", "path": "/ws/a"}"#);
    same_json(&written_output("/ws/b"), r#"{"success": true, "path": "/ws/b"}"#);
    same_json(&edited_output("c", "/ws/c"), r#"{"success": true, "content": "c", "path": "/ws/c"}"#);
    same_json(&memory_output(Some("notes"), "/m/k.md"), r#"{"content": "notes", "exists": true, "path": "/m/k.md"}"#);
    same_json(&memory_output(None, "/m/k.md"), r#"{"content": null, "exists": false, "path": "/m/k.md"}"#);
    same_json(&path_matches_output(&vec!["a.rs".to_string(), "b/c.rs".to_string()]), r#"{"matches": ["a.rs", "b/c.rs"], "count": 2}"#);
}
