use chat_cli::json::Json;
use chat_cli::client::{
    entries_from_list, spawn_plan, Catalog, CatalogEntry, Client, ClientCapabilities, ClientConfig, SamplingIntake,
};
use chat_cli::sampling::{SamplingContent, SamplingMessage, SamplingRequest};
use chat_cli::peer::{
    capabilities_from, dispatch, parse_log_level, CallStep, DispatchAction, LogLevel, PaginationSupportedOps,
    RequestCall, ServerCapabilities,
};
use chat_cli::rpc::{
    examine_server_capabilities, notification, ClientError, JsonRpcMessage, JsonRpcNotification, JsonRpcRequest,
    JsonRpcResponse, RequestTracker,
};


fn response(id: u64, result: &str) -> JsonRpcMessage {
    JsonRpcMessage::Response(JsonRpcResponse {
        jsonrpc: "2.0".to_string(),
        id,
        result: Some(json(result)),
        error: None,
    })
}

fn caps(prompts_changed: bool, tools_changed: bool) -> ServerCapabilities {
    ServerCapabilities {
        prompts: true,
        prompts_list_changed: prompts_changed,
        tools: true,
        tools_list_changed: tools_changed,
        resources: false,
    }
}

#[test]
fn in_flight_ids_are_distinct_and_increasing() {
    let mut t = RequestTracker::new();
    let a = t.begin("tools/list");
    let b = t.begin("prompts/list");
    let c = t.begin("ping");
    assert_eq!((a, b, c), (0, 1, 2));
    assert_eq!(t.complete(1), Some("prompts/list".to_string()));
    assert_eq!(t.complete(1), None);
    let d = t.begin("ping");
    assert_eq!(d, 3);
    let ids: Vec<u64> = t.outstanding.iter().map(|o| o.id).collect();
    assert_eq!(ids, vec![0, 2, 3]);
}

#[test]
fn unmatched_response_is_ignored() {
    let mut t = RequestTracker::new();
    let (mut call, req) = RequestCall::start(&mut t, "ping", None);
    assert_eq!(req.id, 0);
    assert!(matches!(call.on_message(&mut t, response(7, "{}")), CallStep::Pending));
    let note = JsonRpcMessage::Notification(notification("message", None));
    assert!(matches!(call.on_message(&mut t, note), CallStep::Pending));
    match call.on_message(&mut t, response(0, "{\"ok\":true}")) {
        CallStep::Finished(resp) => assert_eq!(resp.id, req.id),
        other => panic!("unexpected step {:?}", other),
    }
    assert!(t.outstanding.is_empty());
}

#[test]
fn pagination_concatenates_pages() {
    let mut t = RequestTracker::new();
    let (mut call, req) = RequestCall::start(&mut t, "tools/list", None);
    let first = call.on_message(&mut t, response(req.id, "{\"tools\":[\"A\",\"B\"],\"nextCursor\":\"c1\"}"));
    let next = match first {
        CallStep::Send(next) => next,
        other => panic!("unexpected step {:?}", other),
    };
    assert_eq!(next.method, "tools/list");
    assert_eq!(next.params.as_ref().unwrap().get("cursor"), Some(&text("c1")));
    assert_ne!(next.id, req.id);
    let last = call.on_message(&mut t, response(next.id, "{\"tools\":[\"C\"],\"nextCursor\":null}"));
    let listed = match last {
        CallStep::Listed(l) => l,
        other => panic!("unexpected step {:?}", other),
    };
    assert_eq!(listed.key, "tools");
    assert_eq!(listed.items, vec![json("\"A\""), json("\"B\""), json("\"C\"")]);
    let resp = listed.into_response();
    let result = resp.result.unwrap();
    assert_eq!(result, json("{\"tools\":[\"A\",\"B\",\"C\"]}"));
    assert!(result.get("nextCursor").is_none());
}

#[test]
fn list_without_cursor_passes_through() {
    let mut t = RequestTracker::new();
    let (mut call, req) = RequestCall::start(&mut t, "prompts/list", None);
    match call.on_message(&mut t, response(req.id, "{\"prompts\":[1]}")) {
        CallStep::Finished(resp) => assert_eq!(resp.result.unwrap(), json("{\"prompts\":[1]}")),
        other => panic!("unexpected step {:?}", other),
    }
}

#[test]
fn cursor_on_other_method_is_not_followed() {
    let mut t = RequestTracker::new();
    let (mut call, req) = RequestCall::start(&mut t, "tools/call", None);
    assert!(matches!(
        call.on_message(&mut t, response(req.id, "{\"nextCursor\":\"x\"}")),
        CallStep::Finished(_)
    ));
}

#[test]
fn page_without_list_fails() {
    let mut t = RequestTracker::new();
    let (mut call, req) = RequestCall::start(&mut t, "resources/list", None);
    assert!(matches!(
        call.on_message(&mut t, response(req.id, "{\"nextCursor\":\"x\"}")),
        CallStep::Failed(ClientError::Serialization(_))
    ));
}

#[test]
fn list_operations_by_method() {
    assert_eq!(PaginationSupportedOps::from_method("resources/list"), Some(PaginationSupportedOps::ResourcesList));
    assert_eq!(
        PaginationSupportedOps::from_method("resources/templates/list"),
        Some(PaginationSupportedOps::ResourceTemplatesList)
    );
    assert_eq!(PaginationSupportedOps::from_method("prompts/list"), Some(PaginationSupportedOps::PromptsList));
    assert_eq!(PaginationSupportedOps::from_method("tools/list"), Some(PaginationSupportedOps::ToolsList));
    assert_eq!(PaginationSupportedOps::from_method("tools/call"), None);
    assert_eq!(PaginationSupportedOps::ResourceTemplatesList.as_key(), "resourceTemplates");
}

#[test]
fn unknown_request_gets_method_not_found() {
    let req = JsonRpcRequest { jsonrpc: "2.0".to_string(), id: 5, method: "roots/list".to_string(), params: None };
    match dispatch(JsonRpcMessage::Request(req), &caps(true, true)) {
        DispatchAction::Reply(resp) => {
            assert_eq!(resp.id, 5);
            let e = resp.error.unwrap();
            assert_eq!(e.code, -32601);
            assert_eq!(e.message, "Method not found: roots/list");
        },
        other => panic!("unexpected action {:?}", other),
    }
    let sampling = JsonRpcRequest {
        jsonrpc: "2.0".to_string(),
        id: 6,
        method: "sampling/createMessage".to_string(),
        params: None,
    };
    assert!(matches!(dispatch(JsonRpcMessage::Request(sampling), &caps(true, true)), DispatchAction::HandleSampling(_)));
}

fn note(method: &str, params: Option<Json>) -> JsonRpcMessage {
    JsonRpcMessage::Notification(JsonRpcNotification { jsonrpc: "2.0".to_string(), method: method.to_string(), params })
}

#[test]
fn notifications_are_routed() {
    assert!(matches!(dispatch(note("notifications/tools/list_changed", None), &caps(false, true)), DispatchAction::RefetchTools));
    assert!(matches!(dispatch(note("notifications/tools/list_changed", None), &caps(true, false)), DispatchAction::Ignore));
    assert!(matches!(dispatch(note("prompts/list_changed", None), &caps(true, false)), DispatchAction::RefetchPrompts));
    assert!(matches!(dispatch(note("notifications/unknown", None), &caps(true, true)), DispatchAction::Ignore));
    match dispatch(note("notifications/message", Some(json("{\"level\":\"WARN\",\"data\":\"disk\"}"))), &caps(true, true)) {
        DispatchAction::Log { level, data } => {
            assert_eq!(level, LogLevel::Warn);
            assert_eq!(data, json("\"disk\""));
        },
        other => panic!("unexpected action {:?}", other),
    }
    assert!(matches!(dispatch(note("notifications/message", Some(json("{\"level\":\"loud\",\"data\":1}"))), &caps(true, true)), DispatchAction::Ignore));
    assert!(matches!(dispatch(response(1, "{}"), &caps(true, true)), DispatchAction::Ignore));
}

#[test]
fn log_levels_ignore_case() {
    assert_eq!(parse_log_level("Error"), Some(LogLevel::Error));
    assert_eq!(parse_log_level("trace"), Some(LogLevel::Trace));
    assert_eq!(parse_log_level("DEBUG"), Some(LogLevel::Debug));
    assert_eq!(parse_log_level("info"), Some(LogLevel::Info));
    assert_eq!(parse_log_level("fatal"), None);
}

#[test]
fn protocol_version_must_match_exactly() {
    let ok = JsonRpcResponse { jsonrpc: "2.0".to_string(), id: 0, result: None, error: None };
    assert!(examine_server_capabilities(&ok).is_ok());
    let bad = JsonRpcResponse { jsonrpc: "2.0.1".to_string(), id: 0, result: None, error: None };
    assert!(matches!(examine_server_capabilities(&bad), Err(ClientError::NegotiationError(_))));
}

#[test]
fn notify_prefixes_method() {
    assert_eq!(notification("initialized", None).method, "notifications/initialized");
}

fn config(bin: &str, args: &[&str]) -> ClientConfig {
    ClientConfig {
        server_name: "srv".to_string(),
        bin_path: bin.to_string(),
        args: args.iter().map(|a| a.to_string()).collect(),
        timeout: 120_000,
        client_info: json("{\"name\":\"TestClientOne\",\"version\":\"1.0.0\"}"),
        env: Some(vec![("ENV_ONE".to_string(), "1".to_string())]),
        sampling_enabled: true,
    }
}

#[test]
fn spawn_plan_per_platform() {
    let c = config("npx", &["-y", "@modelcontextprotocol/server-memory"]);
    let unix = spawn_plan(&c, false);
    assert_eq!(unix.program, "npx");
    assert_eq!(unix.args, vec!["-y".to_string(), "@modelcontextprotocol/server-memory".to_string()]);
    assert_eq!(unix.env, vec![("ENV_ONE".to_string(), "1".to_string())]);
    let windows = spawn_plan(&c, true);
    assert_eq!(windows.program, "cmd.exe");
    assert_eq!(windows.args, vec!["/C".to_string(), "npx -y @modelcontextprotocol/server-memory".to_string()]);
}

#[test]
fn spawn_plan_expands_home() {
    let plan = spawn_plan(&config("~/bin/server", &[]), false);
    assert!(plan.program.ends_with("/bin/server"));
    assert!(!plan.program.starts_with('~'));
}

#[test]
fn client_needs_process_id() {
    assert!(matches!(Client::from_config(config("srv", &[]), None), Err(ClientError::MissingProcessId)));
    let mut client = Client::from_config(config("srv", &[]), Some(42)).unwrap();
    assert_eq!(client.process_to_terminate(), Some(42));
    let (_, first) = client.request("tools/list", None).unwrap();
    let (_, second) = client.request("prompts/list", None).unwrap();
    assert_ne!(first.id, second.id);
    assert_eq!(client.notify("initialized", None).method, "notifications/initialized");
}

#[test]
fn initialize_declares_sampling() {
    let caps = ClientCapabilities::from_client_info(Json::Null);
    assert_eq!(caps.capabilities, vec!["sampling".to_string()]);
    let mut client = Client::from_config(config("srv", &[]), Some(1)).unwrap();
    let params = client.initialize_params();
    assert_eq!(params.get("capabilities").unwrap().get("sampling"), Some(&json("{}")));
    assert_eq!(params.get("clientInfo").unwrap().get("name"), Some(&text("TestClientOne")));
    assert_eq!(params.get("protocolVersion"), Some(&text("2.0")));
}

#[test]
fn init_checks_the_answer() {
    let client = Client::from_config(config("srv", &[]), Some(1)).unwrap();
    let good = JsonRpcResponse {
        jsonrpc: "2.0".to_string(),
        id: 0,
        result: Some(json("{\"capabilities\":{\"tools\":{\"listChanged\":true},\"prompts\":{}}}")),
        error: None,
    };
    let plan = client.init(&good).unwrap();
    assert!(plan.fetch_tools && plan.fetch_prompts);
    assert!(plan.capabilities.tools_list_changed);
    assert!(!plan.capabilities.prompts_list_changed);
    assert_eq!(plan.initialized.method, "notifications/initialized");

    let no_result = JsonRpcResponse { jsonrpc: "2.0".to_string(), id: 0, result: None, error: None };
    assert!(matches!(client.init(&no_result), Err(ClientError::NegotiationError(_))));
    let no_caps = JsonRpcResponse { jsonrpc: "2.0".to_string(), id: 0, result: Some(json("{}")), error: None };
    match client.init(&no_caps) {
        Err(ClientError::NegotiationError(m)) => assert_eq!(m, "Server srv init resp result is missing capabilities"),
        _ => panic!("expected a negotiation error"),
    }
}

#[test]
fn capabilities_are_read() {
    let c = capabilities_from(&json("{\"resources\":{}}"));
    assert!(c.resources && !c.tools && !c.prompts);
}

#[test]
fn catalog_replaces_and_bumps_version() {
    let mut catalog = Catalog::new();
    catalog.replace_all(vec![
        CatalogEntry { name: "a".to_string(), descriptor: json("1") },
        CatalogEntry { name: "a".to_string(), descriptor: json("2") },
    ]);
    assert_eq!(catalog.version, 1);
    assert_eq!(catalog.get("a"), Some(&json("2")));
    catalog.replace_all(vec![CatalogEntry { name: "b".to_string(), descriptor: json("3") }]);
    assert_eq!(catalog.version, 2);
    assert_eq!(catalog.get("a"), None);
}

#[test]
fn sampling_intake_decisions() {
    let mut client = Client::from_config(config("srv", &[]), Some(3)).unwrap();
    let request = || SamplingRequest {
        messages: vec![SamplingMessage { role: "user".to_string(), content: SamplingContent::Text { text: "What is 2+2?".to_string() } }],
        model_preferences: None,
        system_prompt: None,
        include_context: None,
        temperature: None,
        max_tokens: None,
        stop_sequences: None,
        metadata: None,
    };
    match client.handle_sampling_request(11, Ok(request())) {
        SamplingIntake::Queue { id, pending } => {
            assert_eq!(id, 11);
            assert_eq!(pending.server_name, "srv");
            assert_eq!(pending.prompt_content, "What is 2+2?");
        },
        other => panic!("unexpected intake {:?}", other),
    }
    match client.handle_sampling_request(12, Err("missing field `messages`".to_string())) {
        SamplingIntake::Reply(r) => {
            let e = r.error.unwrap();
            assert_eq!(e.code, -32603);
            assert_eq!(e.message, "Internal error: Invalid sampling request: missing field `messages`");
        },
        other => panic!("unexpected intake {:?}", other),
    }
    client.sampling_enabled = false;
    match client.handle_sampling_request(13, Ok(request())) {
        SamplingIntake::Reply(r) => assert_eq!(r.error.unwrap().code, -32601),
        other => panic!("unexpected intake {:?}", other),
    }
}

#[test]
fn catalog_entries_from_list_result() {
    let result = json("{\"prompts\":[{\"name\":\"review\",\"description\":\"d\"},{\"description\":\"no name\"},{\"name\":\"fix\"}]}");
    let entries = entries_from_list(result, "prompts").unwrap();
    let names: Vec<&str> = entries.iter().map(|e| e.name.as_str()).collect();
    assert_eq!(names, vec!["review", "fix"]);
    assert!(entries_from_list(json("{}"), "prompts").is_none());
    assert!(entries_from_list(json("{\"prompts\":{}}"), "prompts").is_none());
    assert_eq!(entries_from_list(json("{\"prompts\":[]}"), "prompts").map(|v| v.len()), Some(0));
}

fn to_json(v: serde_json::Value) -> Json {
    match v {
        serde_json::Value::Null => Json::Null,
        serde_json::Value::Bool(b) => Json::Bool(b),
        serde_json::Value::Number(n) => match (n.as_u64(), n.as_i64()) {
            (Some(u), _) => Json::UInt(u),
            (None, Some(i)) => Json::Int(i),
            _ => Json::Decimal(n.to_string()),
        },
        serde_json::Value::String(s) => Json::Str(s),
        serde_json::Value::Array(items) => Json::Array(items.into_iter().map(to_json).collect()),
        serde_json::Value::Object(map) => {
            let (keys, values): (Vec<String>, Vec<Json>) = map.into_iter().map(|(k, v)| (k, to_json(v))).unzip();
            Json::Object(keys, values)
        },
    }
}

fn json(text: &str) -> Json {
    to_json(serde_json::from_str(text).unwrap())
}

fn text(s: &str) -> Json {
    Json::Str(s.to_string())
}
