use arcan::event_map::ModelStopReason;
use arcan::model_providers::{
    retry_delay_ms, AnthropicBlock, AnthropicContent, AnthropicProvider, AnthropicResponse, AttemptOutcome, ModelDirective,
    OpenAiChoice, OpenAiCompatibleProvider, OpenAiResponse, OpenAiToolCall, RetryStep,
};
use arcan::provider_config::{AnthropicConfig, OpenAiConfig};
use arcan::state_projection::{ChatMessage, Role};
use arcan::tools::ToolDefinition;

fn test_config() -> OpenAiConfig {
    OpenAiConfig {
        api_key: "test-key".to_string(),
        model: "gpt-4o".to_string(),
        max_tokens: 4096,
        base_url: "http://localhost:8080".to_string(),
        provider_name: "test".to_string(),
    }
}

fn msg(role: Role, content: &str) -> ChatMessage {
    ChatMessage { role, content: content.to_string(), tool_call_id: None }
}

fn tool_msg(call_id: &str, content: &str) -> ChatMessage {
    ChatMessage { role: Role::Tool, content: content.to_string(), tool_call_id: Some(call_id.to_string()) }
}

fn choice(content: Option<&str>, calls: Option<Vec<OpenAiToolCall>>, finish: Option<&str>) -> OpenAiChoice {
    OpenAiChoice { content: content.map(|s| s.to_string()), tool_calls: calls, finish_reason: finish.map(|s| s.to_string()) }
}

#[test]
fn builds_messages_correctly() {
    let provider = OpenAiCompatibleProvider::new(test_config());
    let messages = vec![msg(Role::System, "You are helpful."), msg(Role::User, "Hello"), msg(Role::Assistant, "Hi there!")];
    let api_msgs = provider.build_messages(&messages);
    assert_eq!(api_msgs.len(), 3);
    assert_eq!(api_msgs[0].role, "system");
    assert_eq!(api_msgs[1].role, "user");
    assert_eq!(api_msgs[2].role, "assistant");
    assert!(api_msgs[2].tool_call_id.is_none());
}

#[test]
fn builds_tool_messages_with_call_id() {
    let provider = OpenAiCompatibleProvider::new(test_config());
    let api_msgs = provider.build_messages(&[tool_msg("call-1", "result data")]);
    assert_eq!(api_msgs.len(), 1);
    assert_eq!(api_msgs[0].role, "tool");
    assert_eq!(api_msgs[0].tool_call_id, Some("call-1".to_string()));
}

#[test]
fn converts_tools_to_api_format() {
    let provider = OpenAiCompatibleProvider::new(test_config());
    let tools = vec![ToolDefinition {
        name: "read_file".to_string(),
        description: "Read a file".to_string(),
        input_schema: r#"{"type":"object","properties":{"path":{"type":"string"}}}"#.to_string(),
        title: None,
        output_schema: None,
        annotations: None,
        category: None,
        tags: vec![],
        timeout_secs: None,
    }];
    let api_tools = provider.convert_tools(&tools);
    assert_eq!(api_tools.len(), 1);
    assert_eq!(api_tools[0].tool_type, "function");
    assert_eq!(api_tools[0].name, "read_file");
    assert_eq!(api_tools[0].strict, Some(true));
}

#[test]
fn openai_parses_text_response() {
    let provider = OpenAiCompatibleProvider::new(test_config());
    let response = OpenAiResponse { choices: vec![choice(Some("Hello!"), None, Some("stop"))], usage: Some((10, 5)) };
    let turn = provider.parse_response(response).unwrap();
    assert!(turn.stop_reason == ModelStopReason::EndTurn);
    assert_eq!(turn.directives.len(), 1);
    assert!(matches!(&turn.directives[0], ModelDirective::Text { delta } if delta == "Hello!"));
    let usage = turn.usage.unwrap();
    assert_eq!(usage.input_tokens, 10);
    assert_eq!(usage.output_tokens, 5);
}

#[test]
fn parses_tool_call_response() {
    let provider = OpenAiCompatibleProvider::new(test_config());
    let call = OpenAiToolCall { id: "call_abc123".into(), name: "read_file".into(), arguments: r#"{"path": "test.rs"}"#.into() };
    let response = OpenAiResponse { choices: vec![choice(Some("Let me read that."), Some(vec![call]), Some("tool_calls"))], usage: None };
    let turn = provider.parse_response(response).unwrap();
    assert!(turn.stop_reason == ModelStopReason::ToolUse);
    assert_eq!(turn.directives.len(), 2);
    assert!(matches!(&turn.directives[0], ModelDirective::Text { .. }));
    match &turn.directives[1] {
        ModelDirective::ToolCall { call } => {
            assert_eq!(call.tool_name, "read_file");
            assert_eq!(call.input, r#"{"path":"test.rs"}"#);
        }
        _ => panic!("expected a tool call"),
    }
}

#[test]
fn malformed_tool_arguments_become_empty_object() {
    let provider = OpenAiCompatibleProvider::new(test_config());
    let call = OpenAiToolCall { id: "c".into(), name: "t".into(), arguments: "not json".into() };
    let turn = provider.parse_response(OpenAiResponse { choices: vec![choice(Some(""), Some(vec![call]), None)], usage: None }).unwrap();
    assert_eq!(turn.directives.len(), 1);
    assert!(matches!(&turn.directives[0], ModelDirective::ToolCall { call } if call.input == "{}"));
    assert!(turn.stop_reason == ModelStopReason::Unknown);
}

#[test]
fn parses_empty_choices_returns_error() {
    let provider = OpenAiCompatibleProvider::new(test_config());
    let result = provider.parse_response(OpenAiResponse { choices: vec![], usage: None });
    assert_eq!(result.err(), Some("OpenAI response had no choices".to_string()));
}

#[test]
fn parses_max_tokens_stop_reason() {
    let provider = OpenAiCompatibleProvider::new(test_config());
    let turn = provider.parse_response(OpenAiResponse { choices: vec![choice(Some("truncated..."), None, Some("length"))], usage: None }).unwrap();
    assert!(turn.stop_reason == ModelStopReason::MaxTokens);
}

#[test]
fn parses_content_filter_stop_reason() {
    let provider = OpenAiCompatibleProvider::new(test_config());
    let turn = provider.parse_response(OpenAiResponse { choices: vec![choice(None, None, Some("content_filter"))], usage: None }).unwrap();
    assert!(turn.stop_reason == ModelStopReason::Safety);
    assert!(turn.directives.is_empty());
}

#[test]
fn provider_name_returns_model() {
    let provider = OpenAiCompatibleProvider::new(test_config());
    assert_eq!(provider.name(), "gpt-4o");
    assert_eq!(provider.chat_url(), "http://localhost:8080/v1/chat/completions");
    assert_eq!(provider.authorization(), Some("Bearer test-key".to_string()));
    let mut keyless = test_config();
    keyless.api_key = String::new();
    assert_eq!(OpenAiCompatibleProvider::new(keyless).authorization(), None);
}

#[test]
fn retries_transient_failures() {
    let provider = OpenAiCompatibleProvider::new(test_config());
    let r = provider.retry_step(0, 3, AttemptOutcome::Response { status: 429, status_text: "429 Too Many Requests".into(), body: "slow".into() });
    assert!(matches!(r, RetryStep::Retry { last_error } if last_error == "429 Too Many Requests: slow"));
    let r = provider.retry_step(3, 3, AttemptOutcome::Response { status: 503, status_text: "503 Service Unavailable".into(), body: "x".into() });
    assert!(matches!(r, RetryStep::Failed { message } if message == "test API returned 503 Service Unavailable: x"));
    let r = provider.retry_step(1, 3, AttemptOutcome::Transport { timeout: true, message: "t".into() });
    assert!(matches!(r, RetryStep::Retry { last_error } if last_error == "timeout: t"));
    let r = provider.retry_step(1, 3, AttemptOutcome::Transport { timeout: false, message: "refused".into() });
    assert!(matches!(r, RetryStep::Failed { message } if message == "HTTP request failed: refused"));
    let r = provider.retry_step(0, 3, AttemptOutcome::Response { status: 200, status_text: "200 OK".into(), body: "{}".into() });
    assert!(matches!(r, RetryStep::Succeeded { body } if body == "{}"));
    assert_eq!(provider.retries_exhausted(3, Some("e".into())), "test API failed after 3 retries: e");
    assert_eq!(retry_delay_ms(1), 200);
    assert_eq!(retry_delay_ms(3), 800);
}

fn anthropic() -> AnthropicProvider {
    AnthropicProvider::new(AnthropicConfig {
        api_key: "test".to_string(),
        model: "test-model".to_string(),
        max_tokens: 1024,
        base_url: "http://localhost".to_string(),
    })
}

#[test]
fn builds_messages_with_system_prompt() {
    let provider = anthropic();
    let messages = vec![msg(Role::System, "You are helpful."), msg(Role::User, "Hello"), msg(Role::Assistant, "Hi there!")];
    let (system, api_msgs) = provider.build_messages(&messages);
    assert_eq!(system, Some("You are helpful.".to_string()));
    assert_eq!(api_msgs.len(), 2);
}

#[test]
fn tool_results_become_user_blocks() {
    let provider = anthropic();
    let messages = vec![tool_msg("toolu_1", "ok"), ChatMessage { role: Role::Tool, content: "x".into(), tool_call_id: None }];
    let (system, api_msgs) = provider.build_messages(&messages);
    assert!(system.is_none());
    assert_eq!(api_msgs[0].role, "user");
    assert!(matches!(&api_msgs[0].content, AnthropicContent::ToolResult { tool_use_id, content } if tool_use_id == "toolu_1" && content == "ok"));
    assert!(matches!(&api_msgs[1].content, AnthropicContent::ToolResult { tool_use_id, .. } if tool_use_id == "unknown"));
    assert_eq!(provider.messages_url(), "http://localhost/v1/messages");
}

#[test]
fn anthropic_parses_text_response() {
    let provider = anthropic();
    let response = AnthropicResponse { content: vec![AnthropicBlock::Text { text: "Hello!".into() }], stop_reason: Some("end_turn".into()), usage: None };
    let turn = provider.parse_response(response).unwrap();
    assert!(turn.stop_reason == ModelStopReason::EndTurn);
    assert_eq!(turn.directives.len(), 1);
}

#[test]
fn parses_tool_use_response() {
    let provider = anthropic();
    let response = AnthropicResponse {
        content: vec![
            AnthropicBlock::Text { text: "Let me read that file.".into() },
            AnthropicBlock::ToolUse { id: "toolu_123".into(), name: "read_file".into(), input: r#"{"path":"test.rs"}"#.into() },
        ],
        stop_reason: Some("tool_use".into()),
        usage: Some((100, 50, 0, 0)),
    };
    let turn = provider.parse_response(response).unwrap();
    assert!(turn.stop_reason == ModelStopReason::ToolUse);
    assert_eq!(turn.directives.len(), 2);
    assert!(matches!(&turn.directives[1], ModelDirective::ToolCall { call } if call.tool_name == "read_file"));
    let usage = turn.usage.unwrap();
    assert_eq!(usage.input_tokens, 100);
    assert_eq!(usage.output_tokens, 50);
    assert_eq!(provider.status_error("400 Bad Request", "bad"), "Anthropic API returned 400 Bad Request: bad");
}
