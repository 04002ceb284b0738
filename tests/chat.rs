use chat_cli::json::Json;
use chat_cli::chat::{
    sanitize_error_text, ApiErrorKind, ChatError, ChatSession, ChatState, ErrorOutcome, ExecuteStep, InputOutcome,
    QueuedTool, RecvErrorKind, ResponseEvent, ResponseProgress, ToolCheck,
};
use chat_cli::conversation::{AssistantMessage, AssistantToolUse, ConversationState, ToolResultStatus, ToolUseResult, ToolUseResultBlock};
use chat_cli::input::{classify, read_step, InputKind, ReadResult, ReadStep};
use chat_cli::permissions::{all_tools_trusted, ToolPermissions};
use chat_cli::sampling::{sampling_reply, PendingSamplingRequest, SamplingApprovalResult};

fn session() -> ChatSession {
    ChatSession::new(ConversationState::new(), ToolPermissions::new(0), true, None)
}

fn fs_write(id: &str) -> AssistantToolUse {
    AssistantToolUse {
        id: id.to_string(),
        name: "fs_write".to_string(),
        args: json("{\"command\":\"create\",\"file_text\":\"Hello, world!\",\"path\":\"/file.txt\"}"),
    }
}

fn answer(text: &str, uses: Vec<AssistantToolUse>) -> AssistantMessage {
    AssistantMessage { message_id: None, content: text.to_string(), tool_uses: uses }
}

/// Feeds one model turn and returns the state it leads to.
fn model_turn(s: &mut ChatSession, text: &str, uses: &[&str]) -> ChatState {
    let mut progress = ResponseProgress::new();
    assert!(s.on_response_event(&mut progress, ResponseEvent::AssistantText(text.to_string())).is_none());
    for id in uses {
        assert!(s.on_response_event(&mut progress, ResponseEvent::ToolUseStart { name: "fs_write".to_string() }).is_none());
        assert!(s.on_response_event(&mut progress, ResponseEvent::ToolUse(fs_write(id))).is_none());
    }
    let end = answer(text, uses.iter().map(|id| fs_write(id)).collect());
    s.on_response_event(&mut progress, ResponseEvent::EndStream { message: end }).unwrap().unwrap()
}

fn checks(state: ChatState) -> Vec<ToolCheck> {
    match state {
        ChatState::ValidateTools(uses) => uses
            .into_iter()
            .map(|u| ToolCheck { id: u.id, name: u.name, outcome: Ok(true) })
            .collect(),
        other => panic!("expected tools to validate, got {:?}", other),
    }
}

fn results(s: &ChatSession) -> Vec<ToolUseResult> {
    s.tool_uses
        .iter()
        .map(|t| ToolUseResult {
            tool_use_id: t.id.clone(),
            content: vec![ToolUseResultBlock::Text("ok".to_string())],
            status: ToolResultStatus::Success,
        })
        .collect()
}

#[test]
fn basic_tool_round() {
    let mut s = session();
    assert!(matches!(s.handle_input("create a file".to_string()), InputOutcome::SendToModel));
    let state = model_turn(&mut s, "Sure, I'll create a file for you", &["1"]);
    assert!(matches!(s.validate_tools(checks(state)), ChatState::ExecuteTools));
    assert_eq!(s.tool_permission_step(), ExecuteStep::AskApproval(0));
    let plan = s.prompt_user(false);
    assert!(plan.show_tool_dialog && !plan.show_sampling_dialog);
    assert!(matches!(s.handle_input("y".to_string()), InputOutcome::ExecuteTools));
    assert_eq!(s.tool_permission_step(), ExecuteStep::RunAll);
    let r = results(&s);
    assert!(matches!(s.finish_tool_execution(r), ChatState::HandleResponseStream));
    let state = model_turn(&mut s, "Hope that looks good to you!", &[]);
    assert!(matches!(state, ChatState::PromptUser { skip_printing_tools: false }));
    assert_eq!(s.conversation.history.len(), 2);
    assert_eq!(s.conversation.history[1].0.tool_use_results[0].tool_use_id, "1");
}

#[test]
fn trust_persists_until_reset() {
    let mut s = session();
    s.handle_input("create a file".to_string());
    let state = model_turn(&mut s, "Ok", &["1"]);
    s.validate_tools(checks(state));
    assert_eq!(s.tool_permission_step(), ExecuteStep::AskApproval(0));
    assert!(matches!(s.handle_input("t".to_string()), InputOutcome::ExecuteTools));
    assert!(s.tool_permissions.is_trusted("fs_write"));
    assert_eq!(s.tool_permission_step(), ExecuteStep::RunAll);
    let r = results(&s);
    s.finish_tool_execution(r);
    model_turn(&mut s, "Done", &[]);

    s.handle_input("create a file".to_string());
    let state = model_turn(&mut s, "Ok", &["2"]);
    s.validate_tools(checks(state));
    assert_eq!(s.tool_permission_step(), ExecuteStep::RunAll);
    let r = results(&s);
    s.finish_tool_execution(r);
    model_turn(&mut s, "Done", &[]);

    s.tool_permissions.reset();
    s.handle_input("create a file".to_string());
    let state = model_turn(&mut s, "Ok", &["3"]);
    s.validate_tools(checks(state));
    assert_eq!(s.tool_permission_step(), ExecuteStep::AskApproval(0));
}

#[test]
fn parallel_tools_each_need_consent() {
    let mut s = session();
    s.handle_input("create 2 new files parallel".to_string());
    let state = model_turn(&mut s, "Sure, I'll create a file for you", &["1", "2"]);
    s.validate_tools(checks(state));
    assert_eq!(s.tool_permission_step(), ExecuteStep::AskApproval(0));
    assert!(matches!(s.handle_input("y".to_string()), InputOutcome::ExecuteTools));
    assert_eq!(s.tool_permission_step(), ExecuteStep::AskApproval(1));
    assert!(matches!(s.handle_input("Y".to_string()), InputOutcome::ExecuteTools));
    assert_eq!(s.tool_permission_step(), ExecuteStep::RunAll);
    let r = results(&s);
    s.finish_tool_execution(r);
    let next = s.conversation.next_message.as_ref().unwrap();
    let ids: Vec<&str> = next.tool_use_results.iter().map(|r| r.tool_use_id.as_str()).collect();
    assert_eq!(ids, vec!["1", "2"]);
}

#[test]
fn refusal_cancels_tool_uses() {
    let mut s = session();
    s.handle_input("create a file".to_string());
    let state = model_turn(&mut s, "Ok", &["1"]);
    s.validate_tools(checks(state));
    s.tool_permission_step();
    assert!(matches!(s.handle_input("n".to_string()), InputOutcome::SendToModel));
    let next = s.conversation.next_message.as_ref().unwrap();
    assert_eq!(next.content, "n");
    assert_eq!(next.tool_use_results[0].tool_use_id, "1");
    assert_eq!(next.tool_use_results[0].status, ToolResultStatus::Error);
    assert!(s.pending_tool_index.is_none());
}

#[test]
fn interrupt_during_tools_answers_every_use() {
    let mut s = session();
    s.handle_input("create 2 new files parallel".to_string());
    let state = model_turn(&mut s, "Ok", &["1", "2"]);
    s.validate_tools(checks(state));
    let queued = vec![
        QueuedTool { id: "1".to_string(), name: "fs_write".to_string(), requires_acceptance: true, accepted: true },
    ];
    let (outcome, context) = s.handle_error(ChatError::Interrupted { tool_uses: Some(queued) }, true);
    assert_eq!(outcome, ErrorOutcome::Report);
    assert_eq!(context, "Tool use was interrupted");
    assert!(matches!(s.inner, Some(ChatState::PromptUser { skip_printing_tools: false })));
    let history = &s.conversation.history;
    assert_eq!(history.len(), 2);
    let ids: Vec<&str> = history[1].0.tool_use_results.iter().map(|r| r.tool_use_id.as_str()).collect();
    assert_eq!(ids, vec!["1", "2"]);
    assert!(history[1].1.tool_uses.is_empty());
    assert_eq!(history[1].1.content, "Tool uses were interrupted, waiting for the next user prompt");
    assert!(s.conversation.next_message.is_none());
    // A second interrupt keeps the conversation whole.
    s.handle_error(ChatError::Interrupted { tool_uses: Some(vec![QueuedTool { id: "x".to_string(), name: "fs_write".to_string(), requires_acceptance: true, accepted: false }]) }, true);
    assert_eq!(s.conversation.history.len(), 3);
    assert!(s.conversation.history[2].0.tool_use_results.is_empty());
}

#[test]
fn overflow_compacts_history() {
    let mut s = session();
    for i in 0..3 {
        s.handle_input(format!("question {}", i));
        model_turn(&mut s, "answer", &[]);
    }
    s.handle_input("one more".to_string());
    let (outcome, _) = s.handle_error(ChatError::Client { kind: ApiErrorKind::ContextWindowOverflow, status_code: None }, true);
    assert_eq!(outcome, ErrorOutcome::Report);
    assert!(matches!(s.inner, Some(ChatState::CompactHistory { prompt: None, show_summary: false })));
    assert!(s.can_compact());
    let next = s.finish_compaction("summary".to_string());
    assert!(matches!(next, ChatState::HandleResponseStream));
    assert!(s.conversation.history.is_empty());
    assert_eq!(s.conversation.latest_summary, Some("summary".to_string()));
    let count = 1 + 2 * s.conversation.history.len() + usize::from(s.conversation.next_message.is_some());
    assert!(count <= 3);
    let state = model_turn(&mut s, "answer", &[]);
    assert!(matches!(state, ChatState::PromptUser { .. }));
}

#[test]
fn overflow_without_summary_goes_back_to_prompt() {
    let mut s = session();
    s.handle_input("hi".to_string());
    let (outcome, _) = s.handle_error(ChatError::Client { kind: ApiErrorKind::ContextWindowOverflow, status_code: Some(400) }, false);
    assert_eq!(outcome, ErrorOutcome::ConversationTooLarge);
    assert!(s.conversation.next_message.is_none());
    assert!(matches!(s.inner, Some(ChatState::PromptUser { skip_printing_tools: false })));
}

#[test]
fn compaction_overflow_clears() {
    let mut s = session();
    s.handle_input("hi".to_string());
    model_turn(&mut s, "answer", &[]);
    assert!(!s.can_compact());
    assert!(matches!(s.compaction_overflowed(), ChatState::PromptUser { skip_printing_tools: true }));
    assert!(s.conversation.history.is_empty());
    assert!(matches!(s.finish_compaction("s".to_string()), ChatState::PromptUser { skip_printing_tools: true }));
}

fn math_request() -> PendingSamplingRequest {
    PendingSamplingRequest::new(
        "math".to_string(),
        "What is 2+2?".to_string(),
        None,
        None,
        None,
        None,
        None,
        None,
        None,
    )
}

#[test]
fn sampling_approval_flow() {
    let mut s = session();
    s.offer_sampling(math_request());
    let plan = s.prompt_user(false);
    assert!(plan.show_sampling_dialog && !plan.show_tool_dialog);
    match s.handle_input("y".to_string()) {
        InputOutcome::SamplingVerdict { request, approved, .. } => {
            assert!(approved);
            assert_eq!(request.prompt_content, "What is 2+2?");
            let reply = sampling_reply(3, Some(SamplingApprovalResult::approved()));
            assert_eq!(reply.result.unwrap().get("role"), Some(&text("assistant")));
        },
        other => panic!("unexpected outcome {:?}", other),
    }
    s.offer_sampling(math_request());
    s.prompt_user(false);
    match s.handle_input("n".to_string()) {
        InputOutcome::SamplingVerdict { approved, .. } => {
            assert!(!approved);
            let reply = sampling_reply(4, Some(SamplingApprovalResult::rejected("User rejected sampling request".to_string())));
            assert_eq!(reply.error.unwrap().code, -32000);
        },
        other => panic!("unexpected outcome {:?}", other),
    }
    assert!(s.pending_sampling_requests.is_empty());
}

#[test]
fn at_most_one_approval_shown() {
    let mut s = session();
    s.handle_input("create a file".to_string());
    let state = model_turn(&mut s, "Ok", &["1"]);
    s.validate_tools(checks(state));
    s.tool_permission_step();
    s.offer_sampling(math_request());
    let plan = s.prompt_user(false);
    assert!(plan.show_tool_dialog);
    assert!(!plan.show_sampling_dialog);
    assert!(s.pending_sampling_index.is_none());
    assert!(matches!(s.handle_input("y".to_string()), InputOutcome::ExecuteTools));
    s.tool_permission_step();
    let r = results(&s);
    s.finish_tool_execution(r);
    model_turn(&mut s, "Done", &[]);
    let plan = s.prompt_user(false);
    assert!(plan.show_sampling_dialog && !plan.show_tool_dialog);
}

#[test]
fn non_interactive_prompt_exits() {
    let mut s = ChatSession::new(ConversationState::new(), ToolPermissions::new(0), false, Some("hi".to_string()));
    assert!(matches!(s.inner, Some(ChatState::PromptUser { skip_printing_tools: false })));
    assert!(s.tool_uses.is_empty() && s.pending_sampling_requests.is_empty());
    s.start();
    assert!(matches!(s.inner, Some(ChatState::HandleInput { .. })));
    assert!(s.initial_input.is_none());
    assert!(s.prompt_user(false).exit);
    assert!(matches!(s.inner, Some(ChatState::Exit)));
}

#[test]
fn commands_and_shell_lines() {
    let mut s = session();
    match s.handle_input("  /tools trust fs_write ".to_string()) {
        InputOutcome::Command(args) => assert_eq!(args, vec!["q", "tools", "trust", "fs_write"]),
        other => panic!("unexpected outcome {:?}", other),
    }
    match s.handle_input("!ls -la".to_string()) {
        InputOutcome::Shell(cmd) => assert_eq!(cmd, "ls -la"),
        other => panic!("unexpected outcome {:?}", other),
    }
    assert!(matches!(s.handle_input("/say \"unbalanced".to_string()), InputOutcome::SendToModel));
    match classify("/prompts get 'two words'") {
        InputKind::Command(args) => assert_eq!(args, vec!["q", "prompts", "get", "two words"]),
        other => panic!("unexpected kind {:?}", other),
    }
    assert!(matches!(classify("hello"), InputKind::Plain));
}

#[test]
fn reading_lines() {
    assert_eq!(read_step(&ReadResult::Line("   \t".to_string()), false, false), ReadStep::Reprompt);
    assert_eq!(read_step(&ReadResult::Line(" hi ".to_string()), false, false), ReadStep::Accept);
    assert_eq!(read_step(&ReadResult::Interrupted, false, false), ReadStep::Warn);
    assert_eq!(read_step(&ReadResult::Interrupted, true, false), ReadStep::Exit);
    assert_eq!(read_step(&ReadResult::Interrupted, false, true), ReadStep::Exit);
    assert_eq!(read_step(&ReadResult::Failed, false, false), ReadStep::Exit);
}

#[test]
fn stream_errors_recover() {
    let mut s = session();
    s.handle_input("write a novel".to_string());
    let state = s.on_response_error(RecvErrorKind::StreamTimeout { source: "read".to_string(), duration_secs: 30 }).unwrap();
    assert!(matches!(state, ChatState::HandleResponseStream));
    assert_eq!(s.conversation.history[0].1.content, "Response timed out - message took too long to generate");
    assert_eq!(
        s.conversation.next_message.as_ref().unwrap().content,
        "You took too long to respond - try to split up the work into smaller steps."
    );
    let state = s
        .on_response_error(RecvErrorKind::UnexpectedToolUseEos {
            tool_use_id: "7".to_string(),
            name: "fs_write".to_string(),
            message: answer("partial", vec![fs_write("7")]),
        })
        .unwrap();
    assert!(matches!(state, ChatState::HandleResponseStream));
    let next = s.conversation.next_message.as_ref().unwrap();
    assert_eq!(next.tool_use_results[0].tool_use_id, "7");
    assert!(matches!(s.on_response_error(RecvErrorKind::Other("boom".to_string())), Err(ChatError::ResponseStream(_))));
}

#[test]
fn invalid_tools_go_back_to_model() {
    let mut s = session();
    s.handle_input("create a file".to_string());
    model_turn(&mut s, "Ok", &["1", "2"]);
    let state = s.validate_tools(vec![
        ToolCheck { id: "1".to_string(), name: "fs_write".to_string(), outcome: Ok(true) },
        ToolCheck { id: "2".to_string(), name: "fs_write".to_string(), outcome: Err("missing path".to_string()) },
    ]);
    assert!(matches!(state, ChatState::HandleResponseStream));
    let next = s.conversation.next_message.as_ref().unwrap();
    assert_eq!(next.tool_use_results.len(), 2);
    match &next.tool_use_results[1].content[0] {
        ToolUseResultBlock::Text(t) => assert_eq!(t, "Failed to validate tool parameters: missing path"),
        other => panic!("unexpected block {:?}", other),
    }
}

#[test]
fn tool_without_consent_need_runs() {
    let mut s = session();
    s.handle_input("read it".to_string());
    model_turn(&mut s, "Ok", &["1"]);
    s.validate_tools(vec![ToolCheck { id: "1".to_string(), name: "fs_read".to_string(), outcome: Ok(false) }]);
    assert_eq!(s.tool_permission_step(), ExecuteStep::RunAll);
}

#[test]
fn error_reasons_and_text() {
    assert_eq!(ChatError::Std("x".to_string()).reason_code(), "StdIoError");
    assert_eq!(ChatError::Interrupted { tool_uses: None }.reason_code(), "Interrupted");
    assert_eq!(ChatError::Client { kind: ApiErrorKind::MonthlyLimitReached, status_code: Some(429) }.status_code(), Some(429));
    assert_eq!(ChatError::Custom("x".to_string()).status_code(), None);
    assert_eq!(sanitize_error_text("\u{1b}[31mfailed\u{1b}[0m: naïve"), "failed: nave");
    let mut s = session();
    let (outcome, context) = s.handle_error(
        ChatError::Client { kind: ApiErrorKind::ModelOverloaded { request_id: Some("r-1".to_string()) }, status_code: None },
        true,
    );
    assert_eq!(outcome, ErrorOutcome::Report);
    assert_eq!(context, "Amazon Q is having trouble responding right now");
    assert!(s.conversation.transcript[0].contains("Request ID: r-1"));
    let shown = s.record_error_text("\u{1b}[1mbad\u{1b}[0m");
    assert_eq!(shown, "bad");
    assert_eq!(s.conversation.transcript.last().unwrap(), "bad");
}

#[test]
fn permissions_from_arguments() {
    let names = vec!["fs_read".to_string(), "fs_write".to_string()];
    let all = ToolPermissions::from_args(&names, true, None);
    assert!(all.trust_all && all_tools_trusted(&all, &names));
    let some = ToolPermissions::from_args(&names, false, Some(vec!["fs_read".to_string()]));
    assert!(some.is_trusted("fs_read"));
    assert!(!some.is_trusted("fs_write"));
    assert!(some.has("fs_write"));
    assert!(!all_tools_trusted(&some, &names));
    let none = ToolPermissions::from_args(&names, false, None);
    assert!(!none.has("fs_read"));
}

#[test]
fn permissions_trust_untrust_reset() {
    let mut p = ToolPermissions::new(2);
    p.trust_tool("fs_write");
    assert!(p.is_trusted("fs_write"));
    p.untrust_tool("fs_write");
    assert!(!p.is_trusted("fs_write") && p.has("fs_write"));
    p.trust_all = true;
    assert!(p.is_trusted("anything"));
    p.reset_tool("fs_write");
    assert!(!p.trust_all && !p.has("fs_write"));
    p.trust_tool("a");
    p.trust_tool("b");
    p.reset();
    assert!(!p.has("a") && !p.has("b"));
}

#[test]
fn next_enters_states_and_recovers() {
    let mut s = session();
    assert!(s.next(Ok(ChatState::ExecuteTools), true).is_none());
    assert!(matches!(s.inner, Some(ChatState::ExecuteTools)));
    let report = s.next(Err(ChatError::Custom("broken".to_string())), true).unwrap();
    assert_eq!(report.0, ErrorOutcome::Report);
    assert!(matches!(s.inner, Some(ChatState::PromptUser { skip_printing_tools: false })));
    let limit = s.next(Err(ChatError::Client { kind: ApiErrorKind::MonthlyLimitReached, status_code: None }), true).unwrap();
    assert_eq!(limit.0, ErrorOutcome::MonthlyLimit);
    let quota = s
        .next(Err(ChatError::Client { kind: ApiErrorKind::QuotaBreach { message: "slow down".to_string() }, status_code: None }), true)
        .unwrap();
    assert_eq!(quota.1, "slow down");
}

fn to_json(v: serde_json::Value) -> Json {
    match v {
        serde_json::Value::Null => Json::Null,
        serde_json::Value::Bool(b) => Json::Bool(b),
        serde_json::Value::Number(n) => match (n.as_u64(), n.as_i64()) {
            (Some(u), _) => Json::UInt(u),
            (None, Some(i)) => Json::Int(i),
            _ => Json::Decimal(n.to_string()),
        },
        serde_json::Value::String(s) => Json::Str(s),
        serde_json::Value::Array(items) => Json::Array(items.into_iter().map(to_json).collect()),
        serde_json::Value::Object(map) => {
            let (keys, values): (Vec<String>, Vec<Json>) = map.into_iter().map(|(k, v)| (k, to_json(v))).unzip();
            Json::Object(keys, values)
        },
    }
}

fn json(text: &str) -> Json {
    to_json(serde_json::from_str(text).unwrap())
}

fn text(s: &str) -> Json {
    Json::Str(s.to_string())
}

#[test]
fn compaction_keeps_last_turn_without_pending_message() {
    let mut s = session();
    for i in 0..3 {
        s.handle_input(format!("question {}", i));
        model_turn(&mut s, "answer", &[]);
    }
    assert!(matches!(s.finish_compaction("summary".to_string()), ChatState::PromptUser { skip_printing_tools: true }));
    assert!(s.conversation.history.is_empty());
    assert_eq!(s.conversation.retained, vec!["question 1".to_string(), "question 2".to_string()]);
}

#[test]
fn plain_yes_keeps_permissions() {
    let mut s = session();
    s.handle_input("create a file".to_string());
    let state = model_turn(&mut s, "Ok", &["1"]);
    s.validate_tools(checks(state));
    s.tool_permission_step();
    assert!(matches!(s.handle_input(" y ".to_string()), InputOutcome::ExecuteTools));
    assert!(!s.tool_permissions.has("fs_write"));
    assert!(s.tool_uses[0].accepted);
}

#[test]
fn compaction_with_pending_message_keeps_one_earlier_turn() {
    let mut s = session();
    for i in 0..3 {
        s.handle_input(format!("question {}", i));
        model_turn(&mut s, "answer", &[]);
    }
    s.handle_input("one more".to_string());
    assert!(matches!(s.finish_compaction("summary".to_string()), ChatState::HandleResponseStream));
    assert_eq!(s.conversation.retained, vec!["question 2".to_string()]);
    assert_eq!(s.conversation.next_message.as_ref().unwrap().content, "one more");
}

#[test]
fn sampling_verdict_at_any_shown_index() {
    let mut s = session();
    s.offer_sampling(math_request());
    s.offer_sampling(math_request());
    s.pending_sampling_index = Some(1);
    match s.handle_input("y".to_string()) {
        InputOutcome::SamplingVerdict { index, approved, .. } => {
            assert_eq!(index, 1);
            assert!(approved);
        },
        other => panic!("unexpected outcome {:?}", other),
    }
    assert_eq!(s.pending_sampling_requests.len(), 1);
}

#[test]
fn text_then_end_prompts_user() {
    let mut s = session();
    s.handle_input("hi".to_string());
    let mut progress = ResponseProgress::new();
    assert!(s.on_response_event(&mut progress, ResponseEvent::AssistantText("Hel".to_string())).is_none());
    assert!(s.on_response_event(&mut progress, ResponseEvent::AssistantText("lo".to_string())).is_none());
    assert_eq!(progress.text, "Hello");
    let end = s.on_response_event(&mut progress, ResponseEvent::EndStream { message: answer("Hello", vec![]) });
    assert!(matches!(end, Some(Ok(ChatState::PromptUser { skip_printing_tools: false }))));
    assert_eq!(s.conversation.history.last().unwrap().1.content, "Hello");
}

#[test]
fn tool_outcomes_become_results_in_order() {
    let mut s = session();
    s.handle_input("create 2 new files parallel".to_string());
    let state = model_turn(&mut s, "Ok", &["1", "2"]);
    s.validate_tools(checks(state));
    let outcomes = vec![Ok("written".to_string()), Err("disk full".to_string())];
    assert!(matches!(s.complete_tool_round(outcomes), ChatState::HandleResponseStream));
    let results = &s.conversation.next_message.as_ref().unwrap().tool_use_results;
    assert_eq!(results[0].tool_use_id, "1");
    assert_eq!(results[0].status, ToolResultStatus::Success);
    assert_eq!(results[1].tool_use_id, "2");
    assert_eq!(results[1].status, ToolResultStatus::Error);
    match &results[1].content[0] {
        ToolUseResultBlock::Text(t) => assert_eq!(t, "An error occurred processing the tool: \ndisk full"),
        other => panic!("unexpected block {:?}", other),
    }
}

#[test]
fn failures_go_to_transcript_cleaned() {
    let mut s = session();
    let (outcome, _) = s.handle_error(ChatError::Custom("x".to_string()), true);
    assert_eq!(outcome, ErrorOutcome::Report);
    assert_eq!(s.conversation.transcript.last().unwrap(), "Amazon Q is having trouble responding right now");
    let (_, context) = s.handle_error(ChatError::Client { kind: ApiErrorKind::QuotaBreach { message: "\u{1b}[31mslow ✋".to_string() }, status_code: None }, true);
    assert_eq!(context, "\u{1b}[31mslow ✋");
    assert_eq!(s.conversation.transcript.last().unwrap(), "slow ");
}
