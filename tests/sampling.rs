use chat_cli::chat::{ChatSession, InputOutcome};
use chat_cli::conversation::ConversationState;
use chat_cli::permissions::ToolPermissions;
use chat_cli::json::Json;
use chat_cli::rpc::{INTERNAL_ERROR, METHOD_NOT_FOUND, USER_REJECTED};
use chat_cli::sampling::{
    approved_response, internal_error_reply, prompt_content, sampling_queue_failed_reply, sampling_reply,
    sampling_unsupported_reply, PendingSamplingRequest, SamplingApprovalResult, SamplingContent,
    SamplingMessage, SamplingRequest,
};

fn pending(server: &str, prompt: &str, system: Option<&str>, max_tokens: Option<u32>, temperature: Option<&str>) -> PendingSamplingRequest {
    PendingSamplingRequest::new(
        server.to_string(),
        prompt.to_string(),
        system.map(|s| s.to_string()),
        None,
        max_tokens,
        Some("thisServer".to_string()),
        temperature.map(|t| t.to_string()),
        Some(vec!["STOP".to_string()]),
        Some(Json::Bool(true)),
    )
}

#[test]
fn test_sampling_approval_result() {
    // Test approved result
    let approved = SamplingApprovalResult::approved();
    assert!(approved.approved);
    assert!(approved.error_message.is_none());

    // Test rejected result
    let rejected = SamplingApprovalResult::rejected("User declined".to_string());
    assert!(!rejected.approved);
    assert_eq!(rejected.error_message, Some("User declined".to_string()));
}

#[test]
fn test_sampling_content_types() {
    let text_content = SamplingContent::Text { text: "Hello world".to_string() };
    let json = text_content.to_json();
    assert_eq!(json.get("type"), Some(&Json::Str("text".to_string())));
    assert_eq!(json.get("text"), Some(&Json::Str("Hello world".to_string())));

    let image_content = SamplingContent::Image {
        data: "base64-encoded-data".to_string(),
        mime_type: "image/jpeg".to_string(),
    };
    let json = image_content.to_json();
    assert_eq!(json.get("type"), Some(&Json::Str("image".to_string())));
    assert_eq!(json.get("data"), Some(&Json::Str("base64-encoded-data".to_string())));
    assert_eq!(json.get("mime_type"), Some(&Json::Str("image/jpeg".to_string())));
}

#[test]
fn test_pending_sampling_request() {
    let mut session = ChatSession::new(ConversationState::new(), ToolPermissions::new(0), true, None);
    let pending_request = PendingSamplingRequest::new(
        "test-server".to_string(),
        "What is 2+2?".to_string(),
        Some("You are a math assistant.".to_string()),
        None,
        Some(50),
        Some("thisServer".to_string()),
        Some("0.7".to_string()),
        Some(vec!["STOP".to_string()]),
        Some(Json::Bool(true)),
    );

    let description = pending_request.get_description();
    assert!(description.contains("test-server"));
    assert!(description.contains("What is 2+2?"));
    assert!(description.contains("You are a math assistant"));
    assert!(description.contains("Max tokens: 50"));
    assert!(description.contains("Temperature: 0.7"));

    session.offer_sampling(pending_request);
    assert!(session.prompt_user(false).show_sampling_dialog);
    let taken = match session.handle_input("y".to_string()) {
        InputOutcome::SamplingVerdict { index, request, approved } => {
            assert_eq!(index, 0);
            assert!(approved);
            request
        },
        other => panic!("Failed to receive approval result: {:?}", other),
    };
    assert!(!taken.approved);
    let result = SamplingApprovalResult::approved();
    assert!(result.approved);
    assert!(result.error_message.is_none());
}

#[test]
fn test_chat_based_sampling_workflow() {
    let pending_request = PendingSamplingRequest::new(
        "test-server".to_string(),
        "What is the meaning of life?".to_string(),
        Some("You are a philosophical assistant.".to_string()),
        None,
        Some(200),
        Some("thisServer".to_string()),
        Some("0.8".to_string()),
        Some(vec!["END".to_string(), "STOP".to_string()]),
        Some(Json::Bool(true)),
    );

    assert_eq!(pending_request.server_name, "test-server");
    assert!(pending_request.prompt_content.contains("meaning of life"));
    assert_eq!(pending_request.max_tokens, Some(200));
    assert_eq!(pending_request.temperature, Some("0.8".to_string()));

    let description = pending_request.get_description();
    assert!(description.contains("test-server"));
    assert!(description.contains("meaning of life"));
    assert!(description.contains("philosophical assistant"));
    assert!(description.contains("Max tokens: 200"));
    assert!(description.contains("Temperature: 0.8"));
}

#[test]
fn test_concurrent_sampling_requests() {
    let mut session = ChatSession::new(ConversationState::new(), ToolPermissions::new(0), true, None);
    for i in 0..3 {
        session.offer_sampling(pending(&format!("test-server-{}", i), &format!("Question number {}", i), Some("You are a test assistant."), Some(100), Some("0.7")));
    }
    for i in 0..3u64 {
        session.prompt_user(false);
        let request = match session.handle_input("t".to_string()) {
            InputOutcome::SamplingVerdict { request, .. } => request,
            other => panic!("Failed to receive approval: {:?}", other),
        };
        assert_eq!(request.server_name, format!("test-server-{}", i));
        let reply = sampling_reply(i, Some(SamplingApprovalResult::approved()));
        assert_eq!(reply.id, i);
        assert!(reply.error.is_none());
    }
    assert!(session.pending_sampling_requests.is_empty());
}

#[test]
fn description_exact_text() {
    let p = pending("srv", "hi", None, None, None);
    assert_eq!(p.get_description(), "MCP Server 'srv' wants to make an LLM call\nPrompt: hi");
    let p = pending("srv", "hi", Some("sys"), Some(7), Some("0.25"));
    assert_eq!(
        p.get_description(),
        "MCP Server 'srv' wants to make an LLM call\nSystem prompt: sys\nPrompt: hi\nMax tokens: 7\nTemperature: 0.25"
    );
}

#[test]
fn description_shortens_long_texts() {
    let long_system = "s".repeat(150);
    let long_prompt = "p".repeat(250);
    let p = pending("srv", &long_prompt, Some(&long_system), Some(4294967295), None);
    let d = p.get_description();
    assert!(d.contains(&format!("\nSystem prompt: {}...\n", "s".repeat(100))));
    assert!(d.contains(&format!("\nPrompt: {}...", "p".repeat(200))));
    assert!(d.ends_with("Max tokens: 4294967295"));
    let exact = pending("srv", &"q".repeat(200), None, Some(0), None);
    assert!(exact.get_description().contains(&format!("Prompt: {}\nMax tokens: 0", "q".repeat(200))));
}

#[test]
fn requires_approval_only_outside_trusted() {
    let p = pending("alpha", "x", None, None, None);
    assert!(p.requires_approval(&[]));
    assert!(p.requires_approval(&["beta".to_string()]));
    assert!(!p.requires_approval(&["beta".to_string(), "alpha".to_string()]));
}

#[test]
fn prompt_content_joins_lines() {
    let messages = vec![
        SamplingMessage { role: "user".to_string(), content: SamplingContent::Text { text: "What is 2+2?".to_string() } },
        SamplingMessage {
            role: "user".to_string(),
            content: SamplingContent::Image { data: "AAAA".to_string(), mime_type: "image/png".to_string() },
        },
        SamplingMessage { role: "user".to_string(), content: SamplingContent::Text { text: "thanks".to_string() } },
    ];
    assert_eq!(prompt_content(&messages), "What is 2+2?\n[Image content]\nthanks");
    assert_eq!(prompt_content(&vec![]), "");
}

#[test]
fn pending_from_request_keeps_fields() {
    let request = SamplingRequest {
        messages: vec![SamplingMessage { role: "user".to_string(), content: SamplingContent::Text { text: "What is 2+2?".to_string() } }],
        model_preferences: None,
        system_prompt: Some("You are a math assistant.".to_string()),
        include_context: Some("none".to_string()),
        temperature: Some("0.5".to_string()),
        max_tokens: Some(10),
        stop_sequences: None,
        metadata: None,
    };
    let p = PendingSamplingRequest::from_request("math".to_string(), request);
    assert_eq!(p.server_name, "math");
    assert_eq!(p.prompt_content, "What is 2+2?");
    assert_eq!(p.max_tokens, Some(10));
    assert_eq!(p.include_context, Some("none".to_string()));
    assert!(!p.approved);
}

#[test]
fn sampling_approval_reply_is_assistant_message() {
    let reply = sampling_reply(9, Some(SamplingApprovalResult::approved()));
    assert_eq!(reply.id, 9);
    assert!(reply.error.is_none());
    let result = reply.result.expect("result");
    assert_eq!(result.get("role"), Some(&Json::Str("assistant".to_string())));
    assert_eq!(result.get("content").unwrap().get("type"), Some(&Json::Str("text".to_string())));
    assert!(result.get("stopReason").is_some());
    assert!(result.get("stop_reason").is_none());
}

#[test]
fn sampling_rejection_reply_is_user_rejected_error() {
    let reply = sampling_reply(4, Some(SamplingApprovalResult::rejected("nope".to_string())));
    assert!(reply.result.is_none());
    let error = reply.error.expect("error");
    assert_eq!(error.code, USER_REJECTED);
    assert_eq!(error.code, -32000);
    assert_eq!(error.message, "nope");

    let silent = SamplingApprovalResult { approved: false, modified_prompt: None, error_message: None };
    let reply = sampling_reply(5, Some(silent));
    assert_eq!(reply.error.expect("error").message, "User rejected sampling request");

    let closed = sampling_reply(6, None);
    let error = closed.error.expect("error");
    assert_eq!(error.code, -32000);
    assert_eq!(error.message, "channel closed");
}

#[test]
fn sampling_failure_replies() {
    let r = sampling_unsupported_reply(1);
    assert_eq!(r.error.as_ref().unwrap().code, METHOD_NOT_FOUND);
    assert_eq!(r.error.unwrap().message, "Sampling requests not supported in this configuration");
    let r = sampling_queue_failed_reply(2);
    assert_eq!(r.error.as_ref().unwrap().code, INTERNAL_ERROR);
    let r = internal_error_reply(3, "bad params");
    assert_eq!(r.error.as_ref().unwrap().code, -32603);
    assert_eq!(r.error.unwrap().message, "Internal error: bad params");
}

#[test]
fn sampling_response_uses_camel_case() {
    let json = approved_response().to_json();
    match &json {
        Json::Object(keys, _) => assert_eq!(keys, &vec!["role", "content", "model", "stopReason"]),
        other => panic!("not an object: {:?}", other),
    }
    assert_eq!(json.get("stopReason"), Some(&Json::Str("endTurn".to_string())));
}
