use arcan::sandbox::{BashTool, CommandRequest, LocalCommandRunner, NetworkPolicy, SandboxError, SandboxPolicy, WaitOutcome};

fn test_policy(root: &str) -> SandboxPolicy {
    SandboxPolicy {
        workspace_root: root.to_string(),
        shell_enabled: true,
        network: NetworkPolicy::Disabled,
        allowed_env: Vec::new(),
        max_execution_ms: 5_000,
        max_stdout_bytes: 1024,
        max_stderr_bytes: 1024,
        max_processes: 16,
        max_memory_mb: 512,
    }
}

fn bash(line: &str, env: Vec<(String, String)>) -> CommandRequest {
    CommandRequest {
        executable: "/bin/bash".to_string(),
        args: vec!["-c".to_string(), line.to_string()],
        cwd: None,
        env,
    }
}

fn value_of<'a>(env: &'a [(String, String)], key: &str) -> Option<&'a str> {
    env.iter().rev().find(|(k, _)| k == key).map(|(_, v)| v.as_str())
}

#[test]
fn empty_allowed_env_denies_all_request_vars() {
    let policy = test_policy("/work");
    let request = bash("echo $SECRET", vec![("SECRET".to_string(), "leaked".to_string())]);
    let env = LocalCommandRunner::command_env(&policy, &request, "/usr/bin:/bin");
    // SECRET is not passed through, so `echo $SECRET` prints an empty line.
    assert_eq!(value_of(&env, "SECRET"), None);
    assert_eq!(value_of(&env, "PATH"), Some("/usr/bin:/bin"));
    assert_eq!(value_of(&env, "TERM"), Some("xterm-256color"));
    assert_eq!(env.len(), 2);
}

#[test]
fn allowed_env_permits_listed_vars() {
    let mut policy = test_policy("/work");
    policy.allowed_env.push("MY_VAR".to_string());
    let request = bash("echo $MY_VAR", vec![("MY_VAR".to_string(), "hello".to_string())]);
    let env = LocalCommandRunner::command_env(&policy, &request, "/bin");
    assert_eq!(value_of(&env, "MY_VAR"), Some("hello"));
}

#[test]
fn allowed_env_filters_unlisted_vars() {
    let mut policy = test_policy("/work");
    policy.allowed_env.push("GOOD".to_string());
    let request = bash(
        "echo $BAD",
        vec![("GOOD".to_string(), "ok".to_string()), ("BAD".to_string(), "leaked".to_string())],
    );
    let env = LocalCommandRunner::command_env(&policy, &request, "/bin");
    assert_eq!(value_of(&env, "BAD"), None);
    assert_eq!(value_of(&env, "GOOD"), Some("ok"));
}

#[test]
fn cwd_outside_workspace_is_rejected() {
    let policy = test_policy("/tmp/workspace-x1");
    let resolved = LocalCommandRunner::cwd_to_resolve(&policy, "/tmp");
    assert_eq!(resolved, "/tmp");
    let err = LocalCommandRunner::validate_cwd(
        &policy,
        "/tmp",
        &Ok("/tmp".to_string()),
        &Ok("/tmp/workspace-x1".to_string()),
    )
    .unwrap_err();
    assert!(matches!(err, SandboxError::PolicyViolation(_)), "expected PolicyViolation, got: {}", err.to_string());
}

#[test]
fn shell_disabled_rejects_execution() {
    let mut policy = test_policy("/work");
    policy.shell_enabled = false;
    let err = LocalCommandRunner::preflight(&policy).unwrap_err();
    assert!(matches!(err, SandboxError::ShellDisabled));
}

#[test]
fn timeout_kills_long_running_command() {
    let mut policy = test_policy("/work");
    policy.max_execution_ms = 500;
    let err = match LocalCommandRunner::finish(&policy, WaitOutcome::TimedOut, b"", b"") {
        Err(e) => e,
        Ok(_) => panic!("expected Timeout"),
    };
    assert!(matches!(err, SandboxError::Timeout(500)), "expected Timeout, got: {}", err.to_string());
}

#[test]
fn stdout_truncated_at_limit() {
    let mut policy = test_policy("/work");
    policy.max_stdout_bytes = 50;
    let mut out = vec![b'A'; 200];
    out.push(b'\n');
    let result = match LocalCommandRunner::finish(&policy, WaitOutcome::Exited(Some(0)), &out, b"") {
        Ok(r) => r,
        Err(e) => panic!("unexpected error: {}", e.to_string()),
    };
    assert!(result.stdout.contains("[truncated:"), "output should be truncated: {}", &result.stdout[..100.min(result.stdout.len())]);
    assert!(result.stdout.starts_with(&"A".repeat(50)));
    assert!(result.stdout.contains("201 bytes total, showing first 50"));
}

#[test]
fn stderr_truncated_at_limit() {
    let mut policy = test_policy("/work");
    policy.max_stderr_bytes = 50;
    let err_out = vec![b'E'; 400];
    let result = match LocalCommandRunner::finish(&policy, WaitOutcome::Exited(Some(0)), b"", &err_out) {
        Ok(r) => r,
        Err(e) => panic!("unexpected error: {}", e.to_string()),
    };
    assert!(result.stderr.contains("[truncated:"), "stderr should be truncated: {}", &result.stderr[..100.min(result.stderr.len())]);
    assert_eq!(result.stdout, "");
}

#[test]
fn small_output_not_truncated() {
    let policy = test_policy("/work");
    let result = match LocalCommandRunner::finish(&policy, WaitOutcome::Exited(Some(0)), b"hello\n", b"") {
        Ok(r) => r,
        Err(e) => panic!("unexpected error: {}", e.to_string()),
    };
    assert_eq!(result.stdout.trim(), "hello");
    assert!(!result.stdout.contains("[truncated:"));
    assert_eq!(result.exit_code, 0);
}

#[test]
fn signal_exit_reports_minus_one() {
    let policy = test_policy("/work");
    let result = match LocalCommandRunner::finish(&policy, WaitOutcome::Exited(None), b"", b"") {
        Ok(r) => r,
        Err(e) => panic!("unexpected error: {}", e.to_string()),
    };
    assert_eq!(result.exit_code, -1);
}

#[test]
fn runner_errors_are_reported_by_message() {
    match BashTool::report(Err(SandboxError::Timeout(500))) {
        Err(m) => assert_eq!(m, "command timed out after 500ms"),
        Ok(_) => panic!("expected the message"),
    }
    match BashTool::report(Err(SandboxError::ShellDisabled)) {
        Err(m) => assert_eq!(m, "shell execution is disabled by policy"),
        Ok(_) => panic!("expected the message"),
    }
}
