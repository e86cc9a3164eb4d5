use agentgateway_mcp::info::ClientMessage;
use agentgateway_mcp::info::ClientRequest;
use agentgateway_mcp::info::FailureMode;
use agentgateway_mcp::info::MCPError;
use agentgateway_mcp::info::MCPInfo;
use agentgateway_mcp::info::MCPOperation;
use agentgateway_mcp::info::MCPTarget;
use agentgateway_mcp::info::MCPTask;
use agentgateway_mcp::info::ResourceId;
use agentgateway_mcp::info::ResourceType;
use agentgateway_mcp::jsonrpc::ErrorData;
use agentgateway_mcp::routing::McpBackend;
use agentgateway_mcp::routing::McpPrefixMode;
use agentgateway_mcp::routing::McpTarget;
use agentgateway_mcp::routing::ResourceUri;
use agentgateway_mcp::routing::UiUri;

fn s(text: &str) -> String {
    text.to_string()
}

fn backend() -> McpBackend {
    McpBackend {
        targets: vec![McpTarget { name: s("a") }, McpTarget { name: s("b") }],
        prefix_mode: McpPrefixMode::Conditional,
    }
}

fn arguments() -> serde_json::Map<String, serde_json::Value> {
    let mut map = serde_json::Map::new();
    map.insert(s("x"), serde_json::Value::from(1));
    map
}

fn seen(request: ClientRequest) -> MCPInfo {
    let message = ClientMessage { method: Some(s("m")), request: Some(request) };
    MCPInfo::from_request(Some(b"sid"), message, &backend())
}

fn subject(info: &MCPInfo) -> Option<(MCPOperation, &str, &str)> {
    Some((info.resource_type()?, info.target_name()?, info.resource_name()?))
}

fn uri(text: &str) -> ResourceUri {
    ResourceUri { uri: s(text), ui: UiUri::Plain }
}

#[test]
fn task_keeps_target_and_name() {
    let task = MCPTask::new(s("t"), s("7"));
    assert_eq!((task.target(), task.name()), ("t", "7"));
    let id = ResourceId::new(s("t"), s("n"));
    assert_eq!((id.target(), id.name()), ("t", "n"));
}

#[test]
fn operations_have_labels() {
    let labels: Vec<String> = [
        MCPOperation::Tool,
        MCPOperation::Prompt,
        MCPOperation::Resource,
        MCPOperation::ResourceTemplates,
        MCPOperation::Task,
    ]
    .iter()
    .map(|op| op.to_string())
    .collect();
    assert_eq!(labels, ["tool", "prompt", "resource", "templates", "task"]);
}

#[test]
fn failure_mode_is_closed_by_default() {
    assert_eq!(FailureMode::default(), FailureMode::FailClosed);
}

#[test]
fn new_info_is_empty_and_a_target_does_not_count() {
    let mut info = MCPInfo::default();
    assert!(info.is_empty());
    assert_eq!(subject(&info), None);
    assert_eq!(info.metric_resource_name(), None);
    info.target = Some(MCPTarget { name: s("t") });
    assert!(info.is_empty());
    info.session_id = Some(s("x"));
    assert!(!info.is_empty());
    let lists = MCPInfo {
        resource_templates_list: Some(serde_json::Value::Null),
        ..MCPInfo::default()
    };
    assert!(!lists.is_empty());
}

#[test]
fn setting_a_subject_replaces_the_last() {
    let mut info = MCPInfo::default();
    info.set_prompt(s("t"), s("p"));
    assert_eq!(subject(&info), Some((MCPOperation::Prompt, "t", "p")));
    info.set_resource(s("t"), s("r"));
    assert_eq!(subject(&info), Some((MCPOperation::Resource, "t", "r")));
    assert_eq!(info.metric_resource_name(), Some("r"));
    info.set_task(s("t"), s("7"));
    assert_eq!(subject(&info), Some((MCPOperation::Task, "t", "7")));
    assert_eq!(info.metric_resource_name(), None);
    info.set_tool(s("t"), s("x"));
    assert_eq!(subject(&info), Some((MCPOperation::Tool, "t", "x")));
    assert!(info.prompt.is_none() && info.resource.is_none() && info.task.is_none());
    info.set_prompt(s("u"), s("p"));
    assert!(info.tool.is_none());
    assert_eq!(subject(&info), Some((MCPOperation::Prompt, "u", "p")));
}

#[test]
fn tool_call_keeps_what_is_known_of_it() {
    let mut info = MCPInfo::default();
    info.capture_call_arguments(Some(arguments()));
    info.capture_call_result(Some(serde_json::Value::from(2)));
    assert!(info.is_empty());
    info.set_tool(s("t"), s("x"));
    info.capture_call_arguments(Some(arguments()));
    info.capture_call_result(Some(serde_json::Value::from(2)));
    info.set_tool(s("u"), s("y"));
    let tool = info.tool.as_ref().unwrap();
    assert_eq!((tool.target.as_str(), tool.name.as_str()), ("u", "y"));
    assert_eq!(tool.arguments, Some(arguments()));
    assert_eq!(tool.result, Some(serde_json::Value::from(2)));
    info.capture_call_arguments(None);
    assert_eq!(info.tool.unwrap().arguments, None);
}

#[test]
fn errors_are_kept_with_the_tool_call() {
    let error = ErrorData {
        code: -32602,
        message: s("no"),
        data: Some(serde_json::Value::from("d")),
    };
    let mut info = MCPInfo::default();
    info.capture_error(&error);
    assert_eq!(info.error, Some(MCPError { code: -32602, message: s("no") }));
    assert!(info.tool.is_none());
    info.set_tool(s("t"), s("x"));
    info.capture_error(&error);
    assert_eq!(
        info.tool.unwrap().error.unwrap().to_string(),
        r#"{"code":-32602,"data":"d","message":"no"}"#
    );
}

#[test]
fn requests_are_seen_by_their_subject() {
    let call = seen(ClientRequest::CallToolRequest {
        name: s("b_x"),
        arguments: Some(arguments()),
    });
    assert_eq!(subject(&call), Some((MCPOperation::Tool, "b", "x")));
    assert_eq!(call.tool.as_ref().unwrap().arguments, Some(arguments()));
    assert_eq!(call.method_name.as_deref(), Some("m"));
    assert_eq!(call.session_id.as_deref(), Some("sid"));
    let prompt = seen(ClientRequest::GetPromptRequest { name: s("a_p") });
    assert_eq!(subject(&prompt), Some((MCPOperation::Prompt, "a", "p")));
    for request in [
        ClientRequest::ReadResourceRequest { uri: uri("a+r") },
        ClientRequest::SubscribeRequest { uri: uri("a+r") },
        ClientRequest::UnsubscribeRequest { uri: uri("a+r") },
    ] {
        assert_eq!(subject(&seen(request)), Some((MCPOperation::Resource, "a", "r")));
    }
    for request in [
        ClientRequest::GetTaskRequest { task_id: s("b+7") },
        ClientRequest::UpdateTaskRequest { task_id: s("b+7") },
        ClientRequest::CancelTaskRequest { task_id: s("b+7") },
    ] {
        assert_eq!(subject(&seen(request)), Some((MCPOperation::Task, "b", "7")));
    }
    for request in [
        ClientRequest::CallToolRequest { name: s("c_x"), arguments: Some(arguments()) },
        ClientRequest::GetPromptRequest { name: s("p") },
        ClientRequest::ReadResourceRequest { uri: uri("r") },
        ClientRequest::GetTaskRequest { task_id: s("7") },
        ClientRequest::Other,
    ] {
        assert_eq!(subject(&seen(request)), None);
    }
}

#[test]
fn sessions_are_shown_as_text_or_not_at_all() {
    let session = |value: Option<&[u8]>| {
        let message = ClientMessage { method: None, request: None };
        MCPInfo::from_request(value, message, &backend()).session_id
    };
    assert_eq!(session(None), None);
    assert_eq!(session(Some(b"")).as_deref(), Some(""));
    assert_eq!(session(Some(b"a b\t~")).as_deref(), Some("a b\t~"));
    assert_eq!(session(Some(b"a\n")), None);
    assert_eq!(session(Some(b"a\x7f")), None);
    assert_eq!(session(Some("\u{e9}".as_bytes())), None);
}

#[test]
fn access_checks_are_seen_by_their_subject() {
    let id = || ResourceId::new(s("t"), s("n"));
    let kinds = [
        (ResourceType::Tool(id()), MCPOperation::Tool),
        (ResourceType::Prompt(id()), MCPOperation::Prompt),
        (ResourceType::Resource(id()), MCPOperation::Resource),
        (ResourceType::Task(id()), MCPOperation::Task),
    ];
    for (resource, kind) in kinds {
        let info = MCPInfo::from(&resource);
        assert_eq!(subject(&info), Some((kind, "t", "n")));
        assert!(info.method_name.is_none() && info.session_id.is_none());
    }
}
