use arcan::local_provider::LocalSandboxProvider;
use arcan::bubblewrap::{list_infos, BubblewrapProvider, TarOutcome};
use arcan::praxis::{
    derive_sandbox_spec, praxis_tool_names, register_praxis_tools, register_praxis_tools_for_session, select_provider,
    PraxisConfig, ProviderChoice, ToolRegistry,
};
use arcan::sandbox::{CommandRequest, CommandResult, CommandRunner, SandboxError, SandboxPolicy};
use arcan::sandbox_types::{ExecRequest, PersistencePolicy, SandboxError as ProviderError, SandboxId, SandboxStatus};
use arcan::skill_events::skills_to_manifest_entries;
use arcan::vercel::{map_status, map_status_error, retries_exhausted, vercel_sandbox_to_handle, SendStep, VercelSandbox, VercelSandboxProvider};

struct NoRunner;

impl CommandRunner for NoRunner {
    fn run(&self, _policy: &SandboxPolicy, _request: &CommandRequest) -> Result<CommandResult, SandboxError> {
        Err(SandboxError::ShellDisabled)
    }
}

fn names(registry: &ToolRegistry) -> Vec<String> {
    registry.definitions.iter().map(|d| d.name.clone()).collect()
}

#[test]
fn config_defaults_are_sensible() {
    let config = PraxisConfig::new("/tmp/workspace".to_string());
    assert!(config.shell_enabled);
    assert!(config.memory_dir.is_none());
    assert_eq!(config.max_execution_ms, 120_000);
    assert!(config.allowed_env.iter().any(|v| v == "PATH"));
    assert!(config.allowed_env.iter().any(|v| v == "HOME"));
}

#[test]
fn config_builder_methods() {
    let config = PraxisConfig::new("/tmp/workspace".to_string())
        .with_memory_dir("/tmp/memory".to_string())
        .with_shell_disabled()
        .with_max_execution_ms(30_000);
    assert!(!config.shell_enabled);
    assert_eq!(config.memory_dir.as_deref(), Some("/tmp/memory"));
    assert_eq!(config.max_execution_ms, 30_000);
}

#[test]
fn fs_policy_from_config() {
    let config = PraxisConfig::new("/tmp/workspace".to_string());
    assert_eq!(config.fs_policy().workspace_root, "/tmp/workspace");
}

#[test]
fn sandbox_policy_from_config() {
    let config = PraxisConfig::new("/tmp/workspace".to_string()).with_shell_disabled().with_max_execution_ms(5000);
    let policy = config.sandbox_policy();
    assert!(!policy.shell_enabled);
    assert_eq!(policy.max_execution_ms, 5000);
    assert_eq!(policy.workspace_root, "/tmp/workspace");
}

#[test]
fn registers_core_tools() {
    let config = PraxisConfig::new("/tmp/workspace".to_string());
    let mut registry = ToolRegistry::new();
    let count = register_praxis_tools(&config, Box::new(NoRunner), &mut registry);
    assert_eq!(count, 7);
    let n = names(&registry);
    for t in ["read_file", "write_file", "list_dir", "glob", "grep", "edit_file", "bash"] {
        assert!(n.iter().any(|x| x == t), "{t} missing");
    }
    assert!(!n.iter().any(|x| x == "read_memory"));
    assert!(!n.iter().any(|x| x == "write_memory"));
}

#[test]
fn registers_memory_tools_when_configured() {
    let config = PraxisConfig::new("/tmp/workspace".to_string()).with_memory_dir("/tmp/memory".to_string());
    let mut registry = ToolRegistry::new();
    let count = register_praxis_tools(&config, Box::new(NoRunner), &mut registry);
    assert_eq!(count, 9);
    let n = names(&registry);
    assert!(n.iter().any(|x| x == "read_memory"));
    assert!(n.iter().any(|x| x == "write_memory"));
}

#[test]
fn tool_definitions_are_valid() {
    let config = PraxisConfig::new("/tmp/workspace".to_string()).with_memory_dir("/tmp/memory".to_string());
    let mut registry = ToolRegistry::new();
    register_praxis_tools(&config, Box::new(NoRunner), &mut registry);
    for def in &registry.definitions {
        assert!(!def.name.is_empty());
        assert!(!def.description.is_empty());
        let schema: serde_json::Value = serde_json::from_str(&def.input_schema).unwrap();
        assert!(schema.is_object(), "input_schema should be a JSON object for {}", def.name);
    }
}

#[test]
fn praxis_tool_names_without_memory() {
    let names = praxis_tool_names(false);
    assert_eq!(names.len(), 7);
    assert!(names.contains(&"read_file"));
    assert!(names.contains(&"bash"));
    assert!(!names.contains(&"read_memory"));
}

#[test]
fn praxis_tool_names_with_memory() {
    let names = praxis_tool_names(true);
    assert_eq!(names.len(), 9);
    assert!(names.contains(&"read_memory"));
    assert!(names.contains(&"write_memory"));
}

#[test]
fn session_registration_returns_lifecycle() {
    let config = PraxisConfig::new("/tmp/workspace".to_string());
    let mut registry = ToolRegistry::new();
    let (count, lifecycle) = register_praxis_tools_for_session(&config, Box::new(NoRunner), "agent-1", "sess-1", &mut registry);
    assert_eq!(count, 7);
    assert_eq!(lifecycle.agent_id, "agent-1");
    assert_eq!(lifecycle.session_id, "sess-1");
}

#[test]
fn derive_spec_sets_correct_fields() {
    let config = PraxisConfig::new("/tmp/workspace".to_string()).with_max_execution_ms(2500);
    let spec = derive_sandbox_spec(&config.sandbox_policy(), "run-1");
    assert_eq!(spec.name, "praxis-run-1");
    assert_eq!(spec.resources.timeout_secs, 3);
    assert!(spec.persistence == PersistencePolicy::Ephemeral);
    assert_eq!(spec.labels, vec![("entity_id".to_string(), "run-1".to_string())]);
}

#[test]
fn provider_selection_by_name() {
    assert!(select_provider("local") == ProviderChoice::Local);
    assert!(select_provider("LOCAL") == ProviderChoice::Local);
    assert!(select_provider("bwrap") == ProviderChoice::Bubblewrap);
    assert!(select_provider("") == ProviderChoice::Bubblewrap);
}

#[test]
fn name_is_vercel() {
    let p = VercelSandboxProvider::new("tok".into(), None);
    assert_eq!(p.name(), "vercel");
}

#[test]
fn capabilities_include_network_outbound() {
    let c = VercelSandboxProvider::new("tok".into(), None).capabilities();
    assert!(c.network_outbound && c.filesystem_read && c.filesystem_write && c.persistence);
    assert!(!c.custom_image);
}

#[test]
fn from_env_returns_err_without_token() {
    match VercelSandboxProvider::from_env_values(None, None, None) {
        Err(ProviderError::ProviderError { provider, message }) => {
            assert_eq!(provider, "vercel");
            assert_eq!(message, "VERCEL_TOKEN or VERCEL_SANDBOX_API_KEY must be set");
        }
        _ => panic!("expected an error"),
    }
    let p = VercelSandboxProvider::from_env_values(None, Some("key".into()), Some("team".into())).ok().unwrap();
    assert_eq!(p.authorization(), "Bearer key");
    assert_eq!(p.url("/v1/sandboxes"), "https://api.vercel.com/v1/sandboxes?teamId=team");
}

#[test]
fn vercel_urls_and_retries() {
    let p = VercelSandboxProvider::new("tok".into(), None).with_base_url("http://mock".into());
    assert_eq!(p.sandbox_url(&SandboxId("sb1".into()), "/exec"), "http://mock/v1/sandboxes/sb1/exec");
    assert!(matches!(p.send_step(0, 429, "429 Too Many Requests"), SendStep::Retry { delay_ms: 100, .. }));
    assert!(matches!(p.send_step(2, 503, "503 Service Unavailable"), SendStep::Retry { delay_ms: 400, .. }));
    assert!(matches!(p.send_step(1, 200, "200 OK"), SendStep::Accept));
    assert!(p.destroyed(404));
    assert!(!p.destroyed(500));
    match retries_exhausted(None) {
        ProviderError::ProviderError { message, .. } => assert_eq!(message, "request failed after all retries"),
        _ => panic!("expected a provider error"),
    }
    let req = p.exec_request(ExecRequest { command: vec!["ls".into()], working_dir: None, env: vec![], timeout_secs: Some(5), stdin: None });
    assert_eq!(req.command, vec!["ls".to_string()]);
    assert_eq!(req.timeout, Some(5));
    let r = p.exec_result("out".into(), "err".into(), 2, 10);
    assert_eq!(r.stdout, b"out".to_vec());
    assert_eq!(r.exit_code, 2);
}

#[test]
fn error_404_maps_to_not_found() {
    let id = SandboxId("sb1".into());
    assert!(matches!(map_status_error(404, "404 Not Found", "", Some(&id)), ProviderError::NotFound(x) if x.0 == "sb1"));
    assert!(matches!(map_status_error(404, "404 Not Found", "", None), ProviderError::NotFound(x) if x.0 == "unknown"));
    assert!(matches!(map_status_error(403, "403 Forbidden", "", None), ProviderError::CapabilityDenied { capability } if capability == "api_access"));
    assert!(matches!(map_status_error(504, "504", "", Some(&id)), ProviderError::ExecTimeout { timeout_secs: 0, .. }));
    match map_status_error(500, "500 Internal Server Error", "boom", None) {
        ProviderError::ProviderError { message, .. } => assert_eq!(message, "HTTP 500 Internal Server Error: boom"),
        _ => panic!("expected a provider error"),
    }
}

#[test]
fn vercel_statuses_and_handles() {
    assert!(matches!(map_status("stopped"), SandboxStatus::Snapshotted));
    assert!(matches!(map_status("weird"), SandboxStatus::Running));
    assert!(matches!(map_status("error"), SandboxStatus::Failed { reason } if reason == "provider reported error"));
    let h = vercel_sandbox_to_handle(VercelSandbox {
        id: "sb1".into(),
        name: "n".into(),
        status: "running".into(),
        created_at: "2026-01-01T00:00:00Z".into(),
    })
    .ok()
    .unwrap();
    assert_eq!(h.id.0, "sb1");
    assert_eq!(h.provider, "vercel");
    assert_eq!(h.created_at, "2026-01-01T00:00:00+00:00");
    let bad = vercel_sandbox_to_handle(VercelSandbox { id: "x".into(), name: "n".into(), status: "running".into(), created_at: "soon".into() });
    assert!(matches!(bad, Err(ProviderError::ProviderError { message, .. }) if message.starts_with("invalid createdAt timestamp 'soon': ")));
}

#[test]
fn manifest_entries_for_stored_skills() {
    let stored = vec![("a".to_string(), Some("h1".to_string())), ("b".to_string(), None), ("c".to_string(), Some("h3".to_string()))];
    let entries = skills_to_manifest_entries(&stored);
    assert_eq!(entries, vec![("skills/a/SKILL.md".to_string(), "h1".to_string()), ("skills/c/SKILL.md".to_string(), "h3".to_string())]);
}

#[test]
fn bubblewrap_lists_directories() {
    let infos = list_infos(vec![("sb1".into(), true, "t1".into()), ("file".into(), false, "t2".into())]);
    assert_eq!(infos.len(), 1);
    assert_eq!(infos[0].name, "sb1");
    assert_eq!(infos[0].created_at, "t1");
}

#[test]
fn local_snapshot_and_resume_commands() {
    let p = LocalSandboxProvider::with_nsjail("/usr/bin/nsjail".into(), "/tmp/sbx".into());
    let id = SandboxId("s1".into());
    assert_eq!(p.nsjail_snapshot_args(&id), vec!["-czf", "/tmp/sbx/s1.tar.gz", "-C", "/tmp/sbx", "s1"]);
    assert_eq!(p.nsjail_resume_args(&id), vec!["-xzf", "/tmp/sbx/s1.tar.gz", "-C", "/tmp/sbx"]);
    let d = LocalSandboxProvider::with_docker("/var/run/docker.sock".into(), "/tmp/sbx".into());
    assert_eq!(
        d.docker_resume_run_args(&id),
        vec!["run", "-d", "--name", "arcan-s1", "--label", "arcan.session=s1", "-v", "/tmp/sbx/s1:/workspace", "arcan-snap-s1", "sleep", "infinity"]
    );
    assert_eq!(
        LocalSandboxProvider::docker_list_args(),
        vec!["ps", "-a", "--filter", "label=arcan.session", "--format", "{{.ID}}\t{{.Names}}\t{{.Status}}\t{{.CreatedAt}}"]
    );
}

#[test]
fn bubblewrap_resume_gives_back_running_sandbox() {
    let p = BubblewrapProvider::new("/tmp/sbx".to_string(), false);
    let id = SandboxId("s1".to_string());
    // neither workspace nor tarball
    assert!(matches!(p.resume_step(&id, false, false), Err(ProviderError::NotFound(x)) if x.0 == "s1"));
    // tarball only: unpack, then the sandbox is running again under its id
    let args = p.resume_step(&id, false, true).ok().unwrap().unwrap();
    assert_eq!(args, vec!["-xzf", "/tmp/sbx/s1.tar.gz", "-C", "/tmp/sbx"]);
    let ok = TarOutcome::Exited { success: true, status: "exit status: 0".to_string() };
    let h = p.resume_finish(&id, Some(ok), "2024-01-01T00:00:00+00:00".to_string()).ok().unwrap();
    assert_eq!(h.id.0, "s1");
    assert_eq!(h.name, "s1");
    assert!(matches!(h.status, SandboxStatus::Running));
    assert_eq!(h.created_at, "2024-01-01T00:00:00+00:00");
    assert_eq!(h.provider, "bubblewrap");
    let meta: serde_json::Value = serde_json::from_str(&h.metadata).unwrap();
    assert_eq!(meta["workspace"], "/tmp/sbx/s1");
    assert_eq!(meta["use_bwrap"], false);
    // workspace still there: nothing to unpack
    assert!(matches!(p.resume_step(&id, true, true), Ok(None)));
    assert!(p.resume_finish(&id, None, "t".to_string()).is_ok());
    // tar failures
    let failed = TarOutcome::Exited { success: false, status: "exit status: 2".to_string() };
    match p.resume_finish(&id, Some(failed), "t".to_string()) {
        Err(ProviderError::ProviderError { provider, message }) => {
            assert_eq!(provider, "bubblewrap");
            assert_eq!(message, "tar exited with exit status: 2 while extracting \"/tmp/sbx/s1.tar.gz\"");
        }
        _ => panic!("expected a provider error"),
    }
    match p.resume_finish(&id, Some(TarOutcome::SpawnFailed("no tar".to_string())), "t".to_string()) {
        Err(ProviderError::ProviderError { message, .. }) => assert_eq!(message, "tar extract failed: no tar"),
        _ => panic!("expected a provider error"),
    }
}

#[test]
fn bubblewrap_handle_names_created_sandbox() {
    let p = BubblewrapProvider::new("/tmp/sbx/".to_string(), true);
    let h = p.handle(&SandboxId("abc".to_string()), "my-box".to_string(), "now".to_string());
    assert_eq!(h.name, "my-box");
    assert_eq!(h.id.0, "abc");
    let meta: serde_json::Value = serde_json::from_str(&h.metadata).unwrap();
    assert_eq!(meta["workspace"], "/tmp/sbx/abc");
    assert_eq!(meta["use_bwrap"], true);
}
