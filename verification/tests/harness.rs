use arcan::edit::{apply_tagged_edits, hash_lines, render_hashed_content, EditError, EditFileTool, TaggedEditOp};
use arcan::fs::{FsPolicy, FsPolicyError, GlobTool, GrepSearch, GrepTool, ReadFileTool};
use arcan::memory::{validate_memory_key, ReadMemoryTool, WriteMemoryTool};
use arcan::sandbox::{
    BashTool, CommandRequest, CommandResult, CommandRunner, LocalCommandRunner, NetworkPolicy, SandboxError, SandboxPolicy,
    WaitOutcome,
};

#[test]
fn replaces_line_by_tag() {
    let input = "a\nb\nc";
    let lines = hash_lines(input);
    let output = apply_tagged_edits(
        input,
        &[TaggedEditOp::ReplaceLine { tag: lines[1].tag.clone(), new_text: "B".to_string() }],
    )
    .ok()
    .expect("replace succeeds");
    assert_eq!(output, "a\nB\nc");
}

#[test]
fn stale_tag_fails() {
    let err = match apply_tagged_edits("a", &[TaggedEditOp::DeleteLine { tag: "missing".to_string() }]) {
        Err(e) => e,
        Ok(_) => panic!("stale tag should fail"),
    };
    assert!(err.to_string().contains("stale or missing"));
}

#[test]
fn inserts_after_tag() {
    let input = "line1\nline2\nline3";
    let lines = hash_lines(input);
    let output = apply_tagged_edits(
        input,
        &[TaggedEditOp::InsertAfterTag { tag: lines[1].tag.clone(), new_text: "inserted".to_string() }],
    )
    .ok()
    .expect("insert succeeds");
    assert_eq!(output, "line1\nline2\ninserted\nline3");
}

#[test]
fn deletes_line_by_tag() {
    let input = "a\nb\nc";
    let lines = hash_lines(input);
    let output = apply_tagged_edits(input, &[TaggedEditOp::DeleteLine { tag: lines[1].tag.clone() }])
        .ok()
        .expect("delete succeeds");
    assert_eq!(output, "a\nc");
}

#[test]
fn multiple_operations_applied_sequentially() {
    let input = "first\nsecond\nthird";
    let lines = hash_lines(input);
    let output = apply_tagged_edits(
        input,
        &[
            TaggedEditOp::ReplaceLine { tag: lines[0].tag.clone(), new_text: "FIRST".to_string() },
            TaggedEditOp::DeleteLine { tag: lines[2].tag.clone() },
        ],
    )
    .ok()
    .expect("multi-op succeeds");
    assert_eq!(output, "FIRST\nsecond");
}

#[test]
fn empty_content_with_ops_fails() {
    let err = match apply_tagged_edits("", &[TaggedEditOp::DeleteLine { tag: "any".to_string() }]) {
        Err(e) => e,
        Ok(_) => panic!("should fail on empty"),
    };
    assert!(err.to_string().contains("empty"));
}

#[test]
fn hash_lines_produces_unique_tags() {
    let input = "same\nsame\nsame";
    let lines = hash_lines(input);
    assert_ne!(lines[0].tag, lines[1].tag);
    assert_ne!(lines[1].tag, lines[2].tag);
}

#[test]
fn render_hashed_content_has_line_numbers() {
    let input = "hello\nworld";
    let rendered = render_hashed_content(input);
    assert!(rendered.contains("   1 "));
    assert!(rendered.contains("   2 "));
    assert!(rendered.contains("hello"));
    assert!(rendered.contains("world"));
}

#[test]
fn invalid_memory_key_rejected() {
    assert!(validate_memory_key("").is_err());
    assert!(validate_memory_key("../escape").is_err());
    assert!(validate_memory_key(".hidden").is_err());
    assert!(validate_memory_key("has spaces").is_err());
    assert!(validate_memory_key("has/slash").is_err());

    assert!(validate_memory_key("valid-key").is_ok());
    assert!(validate_memory_key("valid_key").is_ok());
    assert!(validate_memory_key("key123").is_ok());
}

#[test]
fn truncate_output_within_limit() {
    let data = b"hello world";
    let result = LocalCommandRunner::truncate_output(data, 100);
    assert_eq!(result, "hello world");
}

#[test]
fn truncate_output_exceeds_limit() {
    let data = b"hello world, this is a longer string";
    let result = LocalCommandRunner::truncate_output(data, 11);
    assert!(result.starts_with("hello world"));
    assert!(result.contains("[truncated:"));
    assert!(result.contains("showing first 11"));
}

// --- own tests ---

#[test]
fn line_tag_is_eight_hex_chars_of_blake3() {
    let lines = hash_lines("abc");
    assert_eq!(lines.len(), 1);
    let expected: String = blake3::hash(b"1:abc").to_hex().to_string().chars().take(8).collect();
    assert_eq!(lines[0].tag, expected);
    assert_eq!(lines[0].line_no, 1);
    assert_eq!(lines[0].text, "abc");
}

#[test]
fn render_exact_format() {
    let lines = hash_lines("x");
    let rendered = render_hashed_content("x");
    assert_eq!(rendered, format!("   1 {} | x", lines[0].tag));
}

#[test]
fn lines_drop_carriage_returns_and_final_newline() {
    let lines = hash_lines("a\r\nb\n");
    assert_eq!(lines.len(), 2);
    assert_eq!(lines[0].text, "a");
    assert_eq!(lines[1].text, "b");
}

#[test]
fn no_ops_on_empty_content_is_ok() {
    assert_eq!(apply_tagged_edits("", &[]).ok(), Some(String::new()));
}

#[test]
fn edit_error_messages() {
    assert_eq!(EditError::EmptyContent.to_string(), "input content is empty; tags are required before edit");
    assert_eq!(
        EditError::StaleTag("t".to_string()).to_string(),
        "tag is stale or missing in current content: t"
    );
}

#[test]
fn edit_tool_reports_read_and_edit_failures() {
    let tool = EditFileTool::new(FsPolicy::new("/ws".to_string()));
    let e = tool.edit(Err("boom".to_string()), &[]).err().unwrap();
    assert_eq!(e.message, "Failed to read file: boom");
    let e = tool.edit(Ok("a".to_string()), &[TaggedEditOp::DeleteLine { tag: "zz".to_string() }]).err().unwrap();
    assert_eq!(e.message, "Edit failed: tag is stale or missing in current content: zz");
    let lines = hash_lines("a\nb");
    let ok = tool
        .edit(Ok("a\nb".to_string()), &[TaggedEditOp::DeleteLine { tag: lines[0].tag.clone() }])
        .ok()
        .unwrap();
    assert_eq!(ok.new_content, "b");
    assert_eq!(ok.rendered, render_hashed_content("b"));
}

#[test]
fn memory_key_error_messages() {
    assert_eq!(validate_memory_key("").err().unwrap(), "Memory key cannot be empty");
    assert_eq!(validate_memory_key(&"k".repeat(65)).err().unwrap(), "Memory key too long (max 64 characters)");
    assert_eq!(
        validate_memory_key("a b").err().unwrap(),
        "Memory key must contain only alphanumeric characters, hyphens, and underscores"
    );
    assert!(validate_memory_key(&"k".repeat(64)).is_ok());
}

#[test]
fn memory_files_live_in_memory_dir() {
    let read = ReadMemoryTool::new("/mem".to_string());
    assert_eq!(read.file_for("notes").ok().unwrap(), "/mem/notes.md");
    let write = WriteMemoryTool::new("/mem/".to_string());
    assert_eq!(write.file_for("notes").ok().unwrap(), "/mem/notes.md");
    assert!(write.file_for("../x").is_err());
}

#[test]
fn fs_policy_joins_relative_candidates() {
    let p = FsPolicy::new("/ws".to_string());
    assert_eq!(p.joined("a/b.txt"), "/ws/a/b.txt");
    assert_eq!(p.joined("/abs"), "/abs");
}

#[test]
fn fs_policy_resolution_outcomes() {
    let p = FsPolicy::new("/ws".to_string());
    let root: Result<String, String> = Ok("/ws".to_string());
    let inside: Result<String, String> = Ok("/ws/a.txt".to_string());
    assert_eq!(p.resolve_existing("a.txt", &inside, &root).ok(), Some("/ws/a.txt".to_string()));
    let outside: Result<String, String> = Ok("/etc/passwd".to_string());
    match p.resolve_existing("../etc/passwd", &outside, &root) {
        Err(FsPolicyError::EscapesWorkspace { path, root }) => {
            assert_eq!(path, "/etc/passwd");
            assert_eq!(root, "/ws");
        }
        _ => panic!("expected escape"),
    }
    let missing: Result<String, String> = Err("No such file".to_string());
    let e = p.resolve_existing("nope", &missing, &root).err().unwrap();
    assert_eq!(e.to_string(), "filesystem IO error on /ws/nope: No such file");
    // prefix by characters is not a prefix by components
    let sibling: Result<String, String> = Ok("/wsx/a".to_string());
    assert!(p.resolve_existing("/wsx/a", &sibling, &root).is_err());
}

#[test]
fn fs_policy_resolve_for_write_joins_file_name() {
    let p = FsPolicy::new("/ws".to_string());
    assert_eq!(p.write_parent("sub/new.txt").ok(), Some("/ws/sub".to_string()));
    let parent: Result<String, String> = Ok("/ws/sub".to_string());
    let root: Result<String, String> = Ok("/ws".to_string());
    assert_eq!(p.resolve_for_write("sub/new.txt", &parent, &root).ok(), Some("/ws/sub/new.txt".to_string()));
    assert!(p.try_resolve_for_write("..", &parent, &root).is_none());
}

#[test]
fn read_file_tool_renders_content() {
    let tool = ReadFileTool::new(FsPolicy::new("/ws".to_string()));
    assert_eq!(tool.render(Ok("x".to_string())).ok(), Some(render_hashed_content("x")));
    assert_eq!(tool.render(Err("denied".to_string())).err().unwrap().message, "Failed to read file: denied");
    assert_eq!(tool.definition().name, "read_file");
}

#[test]
fn glob_tool_reports_relative_paths() {
    let tool = GlobTool::new(FsPolicy::new("/ws".to_string()));
    assert_eq!(tool.report("/ws/src/a.rs"), "src/a.rs");
    assert_eq!(tool.report("/other/a.rs"), "/other/a.rs");
    assert_eq!(GlobTool::full_pattern("/ws", "**/*.rs"), "/ws/**/*.rs");
    assert_eq!(tool.base_dir(None), "/ws");
}

#[test]
fn grep_scans_and_caps_matches() {
    let m = GrepTool::matcher("fo+").ok().unwrap();
    let mut search = GrepSearch::new(2);
    let lines = vec![Some("foo".to_string()), None, Some("bar".to_string()), Some("fooo".to_string()), Some("fo".to_string())];
    search.scan_file(&m, "a.txt", &lines);
    assert_eq!(search.matches.len(), 2);
    assert_eq!(search.matches[0].line, 1);
    assert_eq!(search.matches[1].line, 4);
    assert_eq!(search.matches[1].text, "fooo");
    assert!(search.finished());
}

#[test]
fn grep_bad_pattern_is_tool_error() {
    let e = GrepTool::matcher("(").err().unwrap();
    assert!(e.message.starts_with("Invalid regex pattern: "));
    assert_eq!(e.tool_name, "grep");
}

#[test]
fn grep_file_filter() {
    assert_eq!(GrepTool::keep_file(Some("*.rs"), "a.rs", Some(10)).ok(), Some(true));
    assert_eq!(GrepTool::keep_file(Some("*.rs"), "a.txt", Some(10)).ok(), Some(false));
    assert_eq!(GrepTool::keep_file(None, "a.txt", Some(10 * 1024 * 1024 + 1)).ok(), Some(false));
    assert!(GrepTool::keep_file(Some("[") , "a", None).is_err());
    assert_eq!(GrepTool::max_matches(None), 100);
}

fn shell_policy() -> SandboxPolicy {
    let mut p = SandboxPolicy::locked_down("/ws".to_string());
    p.shell_enabled = true;
    p.max_stdout_bytes = 5;
    p.max_stderr_bytes = 100;
    p.allowed_env = vec!["ALLOWED".to_string()];
    p
}

#[test]
fn locked_down_policy_values() {
    let p = SandboxPolicy::locked_down("/ws".to_string());
    assert!(!p.shell_enabled);
    assert!(matches!(p.network, NetworkPolicy::Disabled));
    assert!(p.allowed_env.is_empty());
    assert_eq!(p.max_execution_ms, 30_000);
    assert_eq!(p.max_stdout_bytes, 512 * 1024);
    assert_eq!(p.max_processes, 16);
    assert_eq!(p.max_memory_mb, 512);
}

#[test]
fn shell_disabled_is_refused() {
    let p = SandboxPolicy::locked_down("/ws".to_string());
    let e = LocalCommandRunner::preflight(&p).err().unwrap();
    assert!(matches!(e, SandboxError::ShellDisabled));
    assert_eq!(e.to_string(), "shell execution is disabled by policy");
}

#[test]
fn command_env_filters_and_appends_path_term() {
    let p = shell_policy();
    let req = CommandRequest {
        executable: "/bin/sh".to_string(),
        args: vec![],
        cwd: None,
        env: vec![("ALLOWED".to_string(), "1".to_string()), ("SECRET".to_string(), "2".to_string())],
    };
    let env = LocalCommandRunner::command_env(&p, &req, "/usr/bin");
    assert_eq!(
        env,
        vec![
            ("ALLOWED".to_string(), "1".to_string()),
            ("PATH".to_string(), "/usr/bin".to_string()),
            ("TERM".to_string(), "xterm-256color".to_string())
        ]
    );
}

#[test]
fn finish_reports_exit_and_truncates() {
    let p = shell_policy();
    let r = LocalCommandRunner::finish(&p, WaitOutcome::Exited(Some(3)), b"hello world", b"err").ok().unwrap();
    assert_eq!(r.exit_code, 3);
    assert_eq!(r.stdout, "hello\n\n... [truncated: 11 bytes total, showing first 5]");
    assert_eq!(r.stderr, "err");
    let r = LocalCommandRunner::finish(&p, WaitOutcome::Exited(None), b"", b"").ok().unwrap();
    assert_eq!(r.exit_code, -1);
    let e = LocalCommandRunner::finish(&p, WaitOutcome::TimedOut, b"", b"").err().unwrap();
    assert_eq!(e.to_string(), "command timed out after 30000ms");
}

#[test]
fn validate_cwd_rejects_escape() {
    let p = shell_policy();
    let root: Result<String, String> = Ok("/ws".to_string());
    let c: Result<String, String> = Ok("/tmp".to_string());
    let e = LocalCommandRunner::validate_cwd(&p, "/tmp", &c, &root).err().unwrap();
    assert_eq!(e.to_string(), "command violates sandbox policy: cwd '/tmp' escapes workspace root '/ws'");
    let ok: Result<String, String> = Ok("/ws/sub".to_string());
    assert_eq!(LocalCommandRunner::validate_cwd(&p, "sub", &ok, &root).ok(), Some("/ws/sub".to_string()));
    assert_eq!(LocalCommandRunner::cwd_to_resolve(&p, "sub"), "/ws/sub");
}

struct EchoRunner;

impl CommandRunner for EchoRunner {
    fn run(&self, _policy: &SandboxPolicy, request: &CommandRequest) -> Result<CommandResult, SandboxError> {
        Ok(CommandResult { exit_code: 0, stdout: request.args.join(" "), stderr: String::new() })
    }
}

#[test]
fn bash_tool_builds_bash_request() {
    let req = BashTool::request_for("echo hi", Some("sub"));
    assert_eq!(req.executable, "/bin/bash");
    assert_eq!(req.args, vec!["-c".to_string(), "echo hi".to_string()]);
    assert_eq!(req.cwd.as_deref(), Some("sub"));
    let tool = BashTool::new(shell_policy(), Box::new(EchoRunner));
    assert_eq!(tool.run_command("echo hi", None).ok().unwrap().stdout, "-c echo hi");
    assert_eq!(tool.definition().name, "bash");
}
