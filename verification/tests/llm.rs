use sabi_agent::llm::{assistant_from_choices, chat_request, endpoint_url, model_report, models_ok, status_error,
    to_chat_message, ChatToolCall, ChoiceMessage, ModelConfig, ModelInfo};
use sabi_agent::messages::{Message, ToolCall};
use sabi_agent::tools::builtin_tool_specs;

#[test]
fn messages_take_the_protocol_form() {
    let m = to_chat_message(&Message::system("s".to_string()));
    assert_eq!(m.role, "system");
    assert_eq!(m.content.as_deref(), Some("s"));
    let m = to_chat_message(&Message::assistant_with_tool_calls(String::new(), vec![]));
    assert_eq!(m.role, "assistant");
    assert!(m.content.is_none());
    assert!(m.tool_calls.is_none());
    let call = ToolCall { id: "c".to_string(), name: "ls".to_string(), arguments: "{}".to_string() };
    let m = to_chat_message(&Message::assistant_with_tool_calls("t".to_string(), vec![call]));
    let calls = m.tool_calls.unwrap();
    assert_eq!(calls[0].kind, "function");
    assert_eq!(calls[0].name, "ls");
    let m = to_chat_message(&Message::tool_result("c".to_string(), "ls".to_string(), "out".to_string()));
    assert_eq!(m.role, "tool");
    assert_eq!(m.tool_call_id.as_deref(), Some("c"));
}

#[test]
fn requests_carry_tools_only_when_offered() {
    let config = ModelConfig { model: "m".to_string(), base_url: "b".to_string(), api_key: "k".to_string() };
    let r = chat_request(&config, &[Message::user("hi")], vec![]);
    assert_eq!(r.model, "m");
    assert_eq!(r.messages.len(), 1);
    assert!(r.tools.is_none());
    let r = chat_request(&config, &[], builtin_tool_specs());
    assert_eq!(r.tools.unwrap().len(), 9);
}

#[test]
fn endpoints_drop_trailing_slashes() {
    assert_eq!(endpoint_url("https://x/v1//", "/chat/completions"), "https://x/v1/chat/completions");
    assert_eq!(endpoint_url("https://x/v1", "/models"), "https://x/v1/models");
}

#[test]
fn status_errors_prefer_the_provider_message() {
    assert_eq!(status_error("provider", "401 Unauthorized", Some("bad key".to_string()), "{}"), "provider error (401 Unauthorized): bad key");
    assert_eq!(status_error("models endpoint", "500", None, "boom"), "models endpoint error (500): boom");
}

#[test]
fn the_first_choice_becomes_the_assistant_message() {
    let choice = ChoiceMessage {
        content: None,
        tool_calls: Some(vec![ChatToolCall { id: "1".to_string(), kind: "function".to_string(), name: "read".to_string(), arguments: "{\"path\":\"a\"}".to_string() }]),
    };
    let m = assistant_from_choices(vec![choice]).unwrap();
    assert_eq!(m.content(), "");
    assert_eq!(m.tool_calls()[0].name, "read");
    assert_eq!(assistant_from_choices(vec![]).unwrap_err(), "provider response did not include a choice");
}

#[test]
fn the_model_report_lists_models_when_missing() {
    let models = vec![
        ModelInfo { id: "a".to_string(), supported_endpoint_types: vec![] },
        ModelInfo { id: "b".to_string(), supported_endpoint_types: vec!["chat".to_string(), "responses".to_string()] },
    ];
    assert_eq!(model_report(&models, "a"), (vec!["selected model: found".to_string()], true));
    assert_eq!(model_report(&models, "b"), (vec!["selected model: found, supported endpoints: chat, responses".to_string()], true));
    let (lines, found) = model_report(&models, "c");
    assert!(!found);
    assert_eq!(lines, vec!["selected model: not found in /models", "available models:", "- a", "- b"]);
    assert_eq!(models_ok(2), "models endpoint: ok (2 models)");
}
