use arcan::bubblewrap::BubblewrapProvider;
use arcan::credential::{
    credential_path, encode, stored_provider_of, token_set_from, AnthropicApiKeyCredential, ApiKeyCredential, AuthStep,
    Credential, OAuthCredential, OAuthTokenSet,
};
use arcan::local_provider::{LocalBackend, LocalSandboxProvider};
use arcan::provider_config::{apfel_port, health_url, resolve_base_url, AnthropicConfig, OpenAiConfig};
use arcan::sandbox_types::{ExecRequest, SandboxId};
use std::time::{SystemTime, UNIX_EPOCH};

fn now_secs() -> u64 {
    SystemTime::now().duration_since(UNIX_EPOCH).unwrap().as_secs()
}

#[test]
fn from_env_returns_err_when_no_backend_available() {
    let result = LocalSandboxProvider::detect("/tmp/arcan-sandboxes".to_string(), None, None);
    assert!(result.is_err(), "should fail when neither Docker nor nsjail is available");
}

#[test]
fn api_key_debug_redacts_key() {
    let cred = ApiKeyCredential::new("secret-key".to_string());
    let debug_output = cred.debug_string();
    assert!(!debug_output.contains("secret-key"));
    assert!(debug_output.contains("REDACTED"));
}

#[test]
fn token_set_not_expired() {
    let now = now_secs();
    let tokens = OAuthTokenSet {
        access_token: "test".to_string(),
        refresh_token: Some("refresh".to_string()),
        expires_at: now + 3600,
        provider: "test".to_string(),
    };
    assert!(!tokens.is_expired());
}

#[test]
fn token_set_expired() {
    let tokens = OAuthTokenSet {
        access_token: "test".to_string(),
        refresh_token: None,
        expires_at: 1000,
        provider: "test".to_string(),
    };
    assert!(tokens.is_expired());
}

#[test]
fn token_set_expires_within_buffer() {
    let now = now_secs();
    let tokens = OAuthTokenSet {
        access_token: "test".to_string(),
        refresh_token: None,
        expires_at: now + 30,
        provider: "test".to_string(),
    };
    assert!(tokens.is_expired());
}

#[test]
fn oauth_credential_kind() {
    let tokens = OAuthTokenSet {
        access_token: "at-test".to_string(),
        refresh_token: None,
        expires_at: 9999999999,
        provider: "openai".to_string(),
    };
    let cred = OAuthCredential::openai(tokens);
    assert_eq!(cred.kind(), "oauth");
}

#[test]
fn urlencoding_basic() {
    assert_eq!(encode("hello"), "hello");
    assert_eq!(encode("hello world"), "hello%20world");
    assert_eq!(encode("a+b"), "a%2Bb");
}

#[test]
fn ollama_config_defaults() {
    let config = OpenAiConfig::ollama_from_values(None, None, None);
    assert!(config.api_key.is_empty());
    assert_eq!(config.base_url, "http://localhost:11434");
    assert_eq!(config.model, "llama3.2");
    assert_eq!(config.max_tokens, 4096);
    assert_eq!(config.provider_name, "ollama");
}

// --- ported and own tests ---

#[test]
fn api_key_credential_bearer_header() {
    let cred = ApiKeyCredential::new("sk-test-123".to_string());
    assert_eq!(cred.auth_header().ok().unwrap(), "Bearer sk-test-123");
    assert_eq!(cred.kind(), "api_key");
    assert!(!cred.needs_refresh());
    assert!(!cred.is_empty());
}

#[test]
fn api_key_credential_empty_returns_error() {
    let cred = ApiKeyCredential::new(String::new());
    assert!(cred.auth_header().is_err());
    assert!(cred.is_empty());
}

#[test]
fn anthropic_credential_raw_key() {
    let cred = AnthropicApiKeyCredential::new("sk-ant-test".to_string());
    assert_eq!(cred.auth_header().ok().unwrap(), "sk-ant-test");
    assert_eq!(cred.kind(), "anthropic_api_key");
    assert_eq!(cred.raw_key(), "sk-ant-test");
}

#[test]
fn anthropic_credential_empty_returns_error() {
    let cred = AnthropicApiKeyCredential::new(String::new());
    assert!(cred.auth_header().is_err());
}

#[test]
fn refresh_is_noop_for_static_credentials() {
    let cred = ApiKeyCredential::new("test".to_string());
    assert!(!cred.needs_refresh());
}

#[test]
fn oauth_credential_auth_header_with_valid_token() {
    let now = now_secs();
    let tokens = OAuthTokenSet {
        access_token: "at-valid".to_string(),
        refresh_token: None,
        expires_at: now + 3600,
        provider: "openai".to_string(),
    };
    let cred = OAuthCredential::openai(tokens);
    assert_eq!(cred.auth_header().ok().unwrap(), "Bearer at-valid");
}

#[test]
fn parse_token_response_full() {
    let now = now_secs();
    let tokens = token_set_from("at-123".to_string(), Some("rt-456".to_string()), Some(7200), "openai", now);
    assert_eq!(tokens.access_token, "at-123");
    assert_eq!(tokens.refresh_token.as_deref(), Some("rt-456"));
    assert_eq!(tokens.provider, "openai");
    assert_eq!(tokens.expires_at, now + 7200);
    assert!(!tokens.is_expired());
}

#[test]
fn parse_token_response_minimal() {
    let tokens = token_set_from("at-123".to_string(), None, None, "test", 100);
    assert_eq!(tokens.access_token, "at-123");
    assert!(tokens.refresh_token.is_none());
    assert_eq!(tokens.expires_at, 3700);
}

#[test]
fn expired_tokens_need_refresh_or_relogin() {
    let tokens = OAuthTokenSet {
        access_token: "a".to_string(),
        refresh_token: Some("r".to_string()),
        expires_at: 1000,
        provider: "openai".to_string(),
    };
    let mut cred = OAuthCredential::openai(tokens);
    assert!(matches!(cred.auth_step(2000), AuthStep::Refresh(ref r) if r == "r"));
    assert!(matches!(cred.auth_step(900), AuthStep::Ready(ref h) if h == "Bearer a"));
    assert!(matches!(cred.auth_step(940), AuthStep::Refresh(_)));
    cred.apply_refresh(OAuthTokenSet {
        access_token: "b".to_string(),
        refresh_token: None,
        expires_at: 5000,
        provider: "x".to_string(),
    });
    assert_eq!(cred.tokens.refresh_token.as_deref(), Some("r"));
    assert!(matches!(cred.auth_step(2000), AuthStep::Ready(ref h) if h == "Bearer b"));
    cred.tokens.refresh_token = None;
    assert!(matches!(cred.auth_step(6000), AuthStep::Fail(_)));
}

#[test]
fn credential_files() {
    assert_eq!(credential_path("/home/u", "openai"), "/home/u/.arcan/credentials/openai.json");
    assert_eq!(stored_provider_of("openai.json").as_deref(), Some("openai"));
    assert_eq!(stored_provider_of("notes.txt"), None);
}

#[test]
fn urlencoding_utf8_and_reserved() {
    assert_eq!(encode("é"), "%C3%A9");
    assert_eq!(encode("a-b_c.d~e/f"), "a-b_c.d~e%2Ff");
}

#[test]
fn openai_config_from_values() {
    assert!(OpenAiConfig::openai_from_values(None, None, None, None).is_err());
    let c = OpenAiConfig::openai_from_values(Some("k".to_string()), None, Some("123".to_string()), None).ok().unwrap();
    assert_eq!(c.model, "gpt-4o");
    assert_eq!(c.max_tokens, 123);
    assert_eq!(c.base_url, "https://api.openai.com");
    let c = OpenAiConfig::openai_from_values(Some("k".to_string()), None, Some("x".to_string()), None).ok().unwrap();
    assert_eq!(c.max_tokens, 4096);
    let a = AnthropicConfig::from_values(Some("k".to_string()), None, "sonnet", None, None).ok().unwrap();
    assert_eq!(a.model, "sonnet");
    assert_eq!(a.base_url, "https://api.anthropic.com");
}

#[test]
fn resolve_base_url_returns_valid_url() {
    let url = resolve_base_url(None);
    assert!(url.starts_with("http"));
    assert_eq!(url, "http://localhost:11435");
    assert_eq!(apfel_port("http://localhost:9000/"), 9000);
    assert_eq!(apfel_port("http://localhost"), 11435);
    assert_eq!(health_url("http://x:1//"), "http://x:1/health");
}

#[test]
fn with_nsjail_name_is_local() {
    let p = LocalSandboxProvider::with_nsjail("/usr/bin/nsjail".to_string(), "/tmp/x".to_string());
    assert_eq!(p.name(), "local");
}

#[test]
fn with_docker_name_is_local() {
    let p = LocalSandboxProvider::with_docker("/var/run/docker.sock".to_string(), "/tmp/x".to_string());
    assert_eq!(p.name(), "local");
}

#[test]
fn capabilities_include_filesystem() {
    let p = LocalSandboxProvider::with_nsjail("/usr/bin/nsjail".to_string(), "/tmp/x".to_string());
    let c = p.capabilities();
    assert!(c.filesystem_read && c.filesystem_write && c.persistence);
    assert!(!c.custom_image);
    let d = LocalSandboxProvider::with_docker("/s".to_string(), "/tmp/x".to_string());
    assert!(d.capabilities().custom_image);
}

#[test]
fn detect_prefers_docker() {
    let p = LocalSandboxProvider::detect("/r".to_string(), Some("/s".to_string()), Some("/n".to_string())).ok().unwrap();
    assert!(matches!(p.backend, LocalBackend::Docker { .. }));
    let p = LocalSandboxProvider::detect("/r".to_string(), None, Some("/n".to_string())).ok().unwrap();
    assert!(matches!(p.backend, LocalBackend::Nsjail { .. }));
}

#[test]
fn docker_command_lines() {
    let id = SandboxId("abc".to_string());
    assert_eq!(LocalSandboxProvider::container_name(&id), "arcan-abc");
    let req = ExecRequest {
        command: vec!["ls".to_string(), "-l".to_string()],
        working_dir: Some("/workspace".to_string()),
        env: vec![("A".to_string(), "1".to_string())],
        timeout_secs: None,
        stdin: None,
    };
    assert_eq!(
        LocalSandboxProvider::docker_exec_args(&id, &req),
        vec!["exec", "-e", "A=1", "-w", "/workspace", "arcan-abc", "ls", "-l"]
    );
    let p = LocalSandboxProvider::with_nsjail("/n".to_string(), "/root".to_string());
    assert_eq!(
        p.nsjail_args(&id, &req),
        vec!["--mode", "once", "--chroot", "/", "--bindmount", "/root/abc:/workspace", "--", "ls", "-l"]
    );
}

#[test]
fn docker_ps_output_is_parsed() {
    let text = "1\tarcan-abc\tUp 3 minutes\t2024\nbad-line\n2\tarcan-arcan-x\tExited (0)\t2024\n";
    let infos = LocalSandboxProvider::parse_docker_ps(text);
    assert_eq!(infos.len(), 2);
    assert_eq!(infos[0].0, "abc");
    assert!(matches!(infos[0].1, arcan::sandbox_types::SandboxStatus::Running));
    assert_eq!(infos[1].0, "x");
    assert!(matches!(infos[1].1, arcan::sandbox_types::SandboxStatus::Stopped));
}

#[test]
fn name_returns_bubblewrap() {
    let p = BubblewrapProvider::new("/tmp/x".to_string(), false);
    assert_eq!(p.name(), "bubblewrap");
}

#[test]
fn bubblewrap_command_line() {
    let req = ExecRequest {
        command: vec!["echo".to_string(), "hi".to_string()],
        working_dir: None,
        env: vec![],
        timeout_secs: Some(5),
        stdin: None,
    };
    let plain = BubblewrapProvider::build_command("/ws/a", &req, false, false);
    assert_eq!(plain.program, "echo");
    assert_eq!(plain.args, vec!["hi".to_string()]);
    assert_eq!(plain.current_dir.as_deref(), Some("/ws/a"));
    let bw = BubblewrapProvider::build_command("/ws/a", &req, true, true);
    assert_eq!(bw.program, "bwrap");
    assert_eq!(&bw.args[0..3], &["--bind".to_string(), "/ws/a".to_string(), "/workspace".to_string()]);
    assert!(bw.args.contains(&"/lib64".to_string()));
    assert_eq!(bw.args[bw.args.len() - 3], "--");
    assert!(bw.current_dir.is_none());
    let p = BubblewrapProvider::new("/root".to_string(), true);
    assert_eq!(p.snapshot_path(&SandboxId("s".to_string())), "/root/s.tar.gz");
}
