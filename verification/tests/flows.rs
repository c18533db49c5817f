use arcan::event_map::{EventPayload, RunStopReason};
use arcan::learning::{LearningEntry, LearningMiddleware};
use arcan::oauth::{
    compute_code_challenge, device_poll_step, generate_code_verifier, pkce_authorization_url, poll_interval_secs,
    poll_window_secs, read_callback, request_path, status_failure_message, CallbackReply, PollStep,
};

fn entry(category: &str) -> LearningEntry {
    LearningEntry {
        category: category.to_string(),
        description: "d".to_string(),
        tool_name: None,
        error: None,
        session_id: "sess-1".to_string(),
        run_id: "run-1".to_string(),
    }
}

#[test]
fn captures_tool_failure() {
    let mut mw = LearningMiddleware::new();
    mw.post_tool_call("sess-1", "run-1", "write_file", r#"{"error": "permission denied"}"#, true);
    let entries = mw.buffered_entries();
    assert_eq!(entries.len(), 1);
    assert_eq!(entries[0].category, "tool_failure");
    assert!(entries[0].description.contains("write_file"));
    assert!(entries[0].description.contains("permission denied"));
    assert_eq!(entries[0].description, "Tool 'write_file' failed: permission denied");
    assert_eq!(entries[0].error.as_deref(), Some("permission denied"));
}

#[test]
fn tool_failure_without_error_field() {
    let mut mw = LearningMiddleware::new();
    mw.post_tool_call("s", "r", "bash", r#"{"stdout": ""}"#, true);
    assert_eq!(mw.buffered_entries()[0].description, "Tool 'bash' failed: unknown error");
}

#[test]
fn ignores_successful_tool() {
    let mut mw = LearningMiddleware::new();
    mw.post_tool_call("sess-1", "run-1", "read_file", r#"{"content": "data"}"#, false);
    assert_eq!(mw.buffered_entries().len(), 0);
}

#[test]
fn captures_run_error() {
    let mut mw = LearningMiddleware::new();
    mw.before_model_call("run-1", "sess-1");
    let env = mw.on_run_finished(RunStopReason::Error, "sess-1", "run-1", "EV").expect("an event");
    match env.payload {
        EventPayload::Custom { event_type, data } => {
            assert_eq!(event_type, "learning_captured");
            let v: serde_json::Value = serde_json::from_str(&data).unwrap();
            assert_eq!(v["entry_count"], 1);
            assert_eq!(v["entries"][0]["category"], "run_error");
            assert_eq!(v["entries"][0]["description"], "Run ended with error");
        }
        _ => panic!("expected a custom event"),
    }
    assert_eq!(mw.buffered_entries().len(), 0);
}

#[test]
fn captures_budget_exceeded() {
    let mut mw = LearningMiddleware::new();
    mw.push_entry(entry("budget_exceeded"));
    assert_eq!(mw.buffered_entries().len(), 1);
    assert_eq!(mw.buffered_entries()[0].category, "budget_exceeded");
}

#[test]
fn completed_run_without_entries_gives_no_event() {
    let mut mw = LearningMiddleware::new();
    assert!(mw.on_run_finished(RunStopReason::Completed, "s", "r", "EV").is_none());
}

#[test]
fn multiple_failures_accumulate() {
    let mut mw = LearningMiddleware::new();
    for i in 0..3 {
        mw.post_tool_call("sess-1", "run-1", &format!("tool_{i}"), &format!(r#"{{"error": "err-{i}"}}"#), true);
    }
    assert_eq!(mw.buffered_entries().len(), 3);
}

#[test]
fn learning_entry_serialization() {
    let mut mw = LearningMiddleware::new();
    mw.pre_tool_call("r1", "s1");
    mw.post_tool_call("s1", "r1", "bash", r#"{"error": "command \"x\" not found"}"#, true);
    let env = mw.drain_to_envelope("EV").expect("an event");
    assert_eq!(env.session_id, "s1");
    assert_eq!(env.run_id.as_deref(), Some("r1"));
    assert_eq!(env.branch_id, "main");
    match env.payload {
        EventPayload::Custom { data, .. } => {
            let v: serde_json::Value = serde_json::from_str(&data).unwrap();
            assert_eq!(v["scope"], "agent");
            assert_eq!(v["entries"][0]["tool_name"], "bash");
            assert_eq!(v["entries"][0]["error"], "command \"x\" not found");
            assert!(v["entries"][0]["session_id"] == "s1");
        }
        _ => panic!("expected a custom event"),
    }
}

#[test]
fn empty_buffer_flush_is_noop() {
    let mut mw = LearningMiddleware::new();
    mw.before_model_call("run-1", "sess-1");
    assert!(mw.drain_to_envelope("EV").is_none());
}

#[test]
fn first_context_is_kept() {
    let mut mw = LearningMiddleware::new();
    mw.before_model_call("run-1", "sess-1");
    mw.pre_tool_call("run-2", "sess-2");
    mw.push_entry(entry("tool_failure"));
    let env = mw.drain_to_envelope("EV").expect("an event");
    assert_eq!(env.run_id.as_deref(), Some("run-1"));
    assert_eq!(env.session_id, "sess-1");
}

#[test]
fn pkce_code_verifier_length() {
    let verifier = generate_code_verifier();
    assert!(verifier.len() >= 43);
    assert_eq!(verifier.len(), 43);
}

#[test]
fn pkce_code_challenge_is_base64url() {
    let challenge = compute_code_challenge("test-verifier-string");
    assert!(!challenge.contains('+'));
    assert!(!challenge.contains('/'));
    assert!(!challenge.contains('='));
    assert_eq!(challenge.len(), 43);
}

#[test]
fn pkce_challenge_matches_known_vector() {
    assert_eq!(
        compute_code_challenge("dBjftJeZ4CVP-mB92K27uhbUJU1p1r_wW1gFWFOEjXk"),
        "E9Melhoa2OwvFrEMTJguCHaoeK1t8URWbuGJSstw-cM"
    );
}

#[test]
fn authorization_url_is_encoded() {
    let u = pkce_authorization_url("abc");
    assert_eq!(
        u,
        "https://auth.openai.com/authorize?response_type=code&client_id=app_scp_BIqDzYAUWMiRFEih7bh0N&redirect_uri=http%3A%2F%2F127.0.0.1%3A8769%2Fcallback&scope=openai.public&code_challenge=abc&code_challenge_method=S256"
    );
}

#[test]
fn callback_with_code() {
    let (r, reply) = read_callback("GET /callback?code=abc123&state=x HTTP/1.1\r\nHost: 127.0.0.1\r\n\r\n");
    assert_eq!(r, Ok("abc123".to_string()));
    assert!(matches!(reply, Some(CallbackReply::Authenticated)));
    assert!(CallbackReply::Authenticated.text().contains("Authenticated!"));
}

#[test]
fn callback_with_error() {
    let (r, reply) = read_callback("GET /callback?error=access_denied&error_description=User+denied HTTP/1.1\r\n");
    assert_eq!(r, Err("OAuth error: access_denied \u{2014} User denied".to_string()));
    assert!(matches!(reply, Some(CallbackReply::Failed)));
}

#[test]
fn callback_without_code_or_path() {
    let (r, reply) = read_callback("GET /callback?state=x HTTP/1.1\r\n");
    assert_eq!(r, Err("no authorization code in callback".to_string()));
    assert!(reply.is_none());
    let (r, reply) = read_callback("GET\r\n");
    assert_eq!(r, Err("malformed callback request".to_string()));
    assert!(reply.is_none());
    assert_eq!(request_path("  GET   /a?b=c  HTTP/1.1"), Some("/a?b=c".to_string()));
    assert_eq!(request_path(""), None);
}

#[test]
fn device_polling_rules() {
    assert_eq!(poll_interval_secs(1), 5);
    assert_eq!(poll_interval_secs(8), 8);
    assert_eq!(poll_window_secs(1800), 900);
    assert_eq!(poll_window_secs(600), 600);
    assert!(matches!(device_poll_step(true, "200 OK", "{}", None), PollStep::Authorized));
    assert!(matches!(
        device_poll_step(false, "400 Bad Request", "", Some(("authorization_pending".to_string(), None))),
        PollStep::Wait { extra_secs: 0 }
    ));
    assert!(matches!(
        device_poll_step(false, "400 Bad Request", "", Some(("slow_down".to_string(), None))),
        PollStep::Wait { extra_secs: 5 }
    ));
    match device_poll_step(false, "400 Bad Request", "", Some(("expired_token".to_string(), None))) {
        PollStep::Fail { message } => assert_eq!(message, "device code expired, please try again"),
        _ => panic!("expected failure"),
    }
    match device_poll_step(false, "400 Bad Request", "", Some(("access_denied".to_string(), None))) {
        PollStep::Fail { message } => assert_eq!(message, "authorization denied by user"),
        _ => panic!("expected failure"),
    }
    match device_poll_step(false, "400 Bad Request", "", Some(("weird".to_string(), Some("details".to_string())))) {
        PollStep::Fail { message } => assert_eq!(message, "device auth error: details"),
        _ => panic!("expected failure"),
    }
    match device_poll_step(false, "500 Internal Server Error", "oops", None) {
        PollStep::Fail { message } => assert_eq!(message, "unexpected device token response (500 Internal Server Error): oops"),
        _ => panic!("expected failure"),
    }
    assert_eq!(status_failure_message("token exchange failed", "401 Unauthorized", "no"), "token exchange failed (401 Unauthorized): no");
}
