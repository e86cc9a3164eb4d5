//! What the gateway knows of an MCP request: its method, session and subject.
use crate::jsonrpc::error_data_text;
use crate::jsonrpc::error_value;
use crate::jsonrpc::optional_json;
use crate::jsonrpc::ErrorData;
use crate::response::header_text;
use crate::response::visible;
use crate::routing::mcp_request_name;
use crate::routing::mcp_request_name_spec;
use crate::routing::mcp_request_task;
use crate::routing::mcp_request_task_spec;
use crate::routing::mcp_request_uri;
use crate::routing::mcp_request_uri_spec;
use crate::routing::BackendView;
use crate::routing::McpBackend;
use crate::routing::ResourceUri;
use vstd::prelude::*;
use vstd::utf8::encode_utf8;

verus! {

/// How long a session may be idle before it is dropped, in seconds.
pub const DEFAULT_SESSION_IDLE_TTL_SECS: u64 = 1800;

/// What happens to a session when a target fails.
#[derive(Clone, Copy, Debug, PartialEq, Eq)]
pub enum FailureMode {
    /// Fail the entire session if any target fails to initialize or any upstream fails during a
    /// fanout. This is the default.
    FailClosed,
    /// Skip failed targets and upstreams and go on with the healthy ones. If all of them fail,
    /// that is still an error.
    FailOpen,
}

impl Default for FailureMode {
    fn default() -> (r: Self)
        ensures
            r == FailureMode::FailClosed,
    {
        FailureMode::FailClosed
    }
}

/// The kinds of subject that an MCP request can have.
#[derive(Clone, Copy, Debug, PartialEq, Eq, Hash, Structural)]
pub enum MCPOperation {
    Tool,
    Prompt,
    Resource,
    ResourceTemplates,
    Task,
}

impl MCPOperation {
    /// The label of an operation.
    pub open spec fn label(self) -> Seq<char> {
        match self {
            MCPOperation::Tool => "tool"@,
            MCPOperation::Prompt => "prompt"@,
            MCPOperation::Resource => "resource"@,
            MCPOperation::ResourceTemplates => "templates"@,
            MCPOperation::Task => "task"@,
        }
    }

    /// The label under which metrics and logs show the operation.
    pub fn to_string(&self) -> (r: String)
        ensures
            r@ == self.label(),
    {
        match self {
            MCPOperation::Tool => "tool".to_owned(),
            MCPOperation::Prompt => "prompt".to_owned(),
            MCPOperation::Resource => "resource".to_owned(),
            MCPOperation::ResourceTemplates => "templates".to_owned(),
            MCPOperation::Task => "task".to_owned(),
        }
    }
}

/// An error that ended an MCP request.
#[derive(Clone, Debug, PartialEq)]
pub struct MCPError {
    pub code: i32,
    pub message: String,
}

/// The MCP target of a target-scoped operation.
#[derive(Clone, Debug, PartialEq)]
pub struct MCPTarget {
    pub name: String,
}

/// A task, as the target that handles it knows it.
#[derive(Clone, Debug, PartialEq)]
pub struct MCPTask {
    /// The target handling the task.
    pub target: String,
    /// The task ID.
    pub name: String,
}

impl MCPTask {
    pub fn new(target: String, name: String) -> (r: Self)
        ensures
            r.target == target,
            r.name == name,
    {
        MCPTask { target, name }
    }

    pub fn target(&self) -> (r: &str)
        ensures
            r@ == self.target@,
    {
        self.target.as_str()
    }

    pub fn name(&self) -> (r: &str)
        ensures
            r@ == self.name@,
    {
        self.name.as_str()
    }
}

/// A tool, prompt or resource, as the target that has it knows it.
#[derive(Debug, PartialEq)]
pub struct ResourceId {
    pub target: String,
    pub name: String,
}

impl Clone for ResourceId {
    fn clone(&self) -> (r: Self)
        ensures
            r == *self,
    {
        ResourceId { target: self.target.clone(), name: self.name.clone() }
    }
}

impl ResourceId {
    pub fn new(target: String, name: String) -> (r: Self)
        ensures
            r.target == target,
            r.name == name,
    {
        ResourceId { target, name }
    }

    pub fn target(&self) -> (r: &str)
        ensures
            r@ == self.target@,
    {
        self.target.as_str()
    }

    pub fn name(&self) -> (r: &str)
        ensures
            r@ == self.name@,
    {
        self.name.as_str()
    }
}

/// What access is asked for.
#[derive(Debug, PartialEq)]
pub enum ResourceType {
    Tool(ResourceId),
    Prompt(ResourceId),
    Resource(ResourceId),
    Task(ResourceId),
}

/// A tool call.
#[derive(Debug, PartialEq)]
pub struct MCPTool {
    /// The target handling the tool call after multiplexing resolution.
    pub target: String,
    /// The resolved tool name sent to the upstream target.
    pub name: String,
    /// The JSON arguments passed to the tool call.
    pub arguments: Option<serde_json::Map<String, serde_json::Value>>,
    /// The terminal tool result payload, if available.
    pub result: Option<serde_json::Value>,
    /// The terminal JSON-RPC error payload, if available.
    pub error: Option<serde_json::Value>,
}

/// A call of this tool of which nothing more is known.
pub open spec fn bare_tool(target: String, name: String) -> MCPTool {
    MCPTool { target, name, arguments: None, result: None, error: None }
}

/// What is known of an MCP request.
#[derive(Debug, PartialEq)]
pub struct MCPInfo {
    pub method_name: Option<String>,
    pub session_id: Option<String>,
    pub target: Option<MCPTarget>,
    pub tool: Option<MCPTool>,
    pub prompt: Option<ResourceId>,
    pub resource: Option<ResourceId>,
    pub task: Option<MCPTask>,
    /// The terminal tools/list result returned to the client, if available.
    pub tools_list: Option<serde_json::Value>,
    /// The terminal prompts/list result returned to the client, if available.
    pub prompts_list: Option<serde_json::Value>,
    /// The terminal resources/list result returned to the client, if available.
    pub resources_list: Option<serde_json::Value>,
    /// The terminal resources/templates/list result returned to the client, if available.
    pub resource_templates_list: Option<serde_json::Value>,
    /// The error that ended the request. It arrives while the response body is drained, so no
    /// policy may depend on it; it is for the access log.
    pub error: Option<MCPError>,
}

/// Nothing is known of a request.
pub open spec fn no_info() -> MCPInfo {
    MCPInfo {
        method_name: None,
        session_id: None,
        target: None,
        tool: None,
        prompt: None,
        resource: None,
        task: None,
        tools_list: None,
        prompts_list: None,
        resources_list: None,
        resource_templates_list: None,
        error: None,
    }
}

impl Default for MCPInfo {
    fn default() -> (r: Self)
        ensures
            r == no_info(),
    {
        MCPInfo {
            method_name: None,
            session_id: None,
            target: None,
            tool: None,
            prompt: None,
            resource: None,
            task: None,
            tools_list: None,
            prompts_list: None,
            resources_list: None,
            resource_templates_list: None,
            error: None,
        }
    }
}

/// What a request is about: the kind of subject, its target, and the name by which the target
/// knows it.
pub type Subject = (MCPOperation, Seq<char>, Seq<char>);

impl MCPInfo {
    /// What the request is about.
    pub open spec fn subject(self) -> Option<Subject> {
        match (self.tool, self.prompt, self.resource, self.task) {
            (Some(tool), _, _, _) => Some((MCPOperation::Tool, tool.target@, tool.name@)),
            (None, Some(prompt), _, _) => Some(
                (MCPOperation::Prompt, prompt.target@, prompt.name@),
            ),
            (None, None, Some(resource), _) => Some(
                (MCPOperation::Resource, resource.target@, resource.name@),
            ),
            (None, None, None, Some(task)) => Some((MCPOperation::Task, task.target@, task.name@)),
            (None, None, None, None) => None,
        }
    }

    /// The same of another subject: the subjects that there were are gone.
    pub open spec fn about(
        self,
        tool: Option<MCPTool>,
        prompt: Option<ResourceId>,
        resource: Option<ResourceId>,
        task: Option<MCPTask>,
    ) -> MCPInfo {
        MCPInfo { tool, prompt, resource, task, ..self }
    }

    /// Whether nothing is known of the request. The target of a target-scoped operation does not
    /// count.
    pub fn is_empty(&self) -> (r: bool)
        ensures
            r == ((MCPInfo { target: None, ..*self }) == no_info()),
    {
        self.method_name.is_none() && self.session_id.is_none() && self.tool.is_none()
            && self.prompt.is_none() && self.resource.is_none() && self.task.is_none()
            && self.tools_list.is_none() && self.prompts_list.is_none()
            && self.resources_list.is_none() && self.resource_templates_list.is_none()
            && self.error.is_none()
    }

    /// The kind of the request's subject.
    pub fn resource_type(&self) -> (r: Option<MCPOperation>)
        ensures
            r == (match self.subject() {
                Some((kind, _, _)) => Some(kind),
                None => None,
            }),
    {
        if self.tool.is_some() {
            Some(MCPOperation::Tool)
        } else if self.prompt.is_some() {
            Some(MCPOperation::Prompt)
        } else if self.resource.is_some() {
            Some(MCPOperation::Resource)
        } else if self.task.is_some() {
            Some(MCPOperation::Task)
        } else {
            None
        }
    }

    /// The target of the request's subject.
    pub fn target_name(&self) -> (r: Option<&str>)
        ensures
            r.deep_view() == (match self.subject() {
                Some((_, target, _)) => Some(target),
                None => None,
            }),
    {
        match (&self.tool, &self.prompt, &self.resource, &self.task) {
            (Some(tool), _, _, _) => Some(tool.target.as_str()),
            (None, Some(prompt), _, _) => Some(prompt.target()),
            (None, None, Some(resource), _) => Some(resource.target()),
            (None, None, None, Some(task)) => Some(task.target()),
            (None, None, None, None) => None,
        }
    }

    /// The name of the request's subject.
    pub fn resource_name(&self) -> (r: Option<&str>)
        ensures
            r.deep_view() == (match self.subject() {
                Some((_, _, name)) => Some(name),
                None => None,
            }),
    {
        match (&self.tool, &self.prompt, &self.resource, &self.task) {
            (Some(tool), _, _, _) => Some(tool.name.as_str()),
            (None, Some(prompt), _, _) => Some(prompt.name()),
            (None, None, Some(resource), _) => Some(resource.name()),
            (None, None, None, Some(task)) => Some(task.name()),
            (None, None, None, None) => None,
        }
    }

    /// The name of the request's subject, but no task ID: those are unique per request and would
    /// grow the label set of a metric without bound.
    pub fn metric_resource_name(&self) -> (r: Option<&str>)
        ensures
            r.deep_view() == (match self.subject() {
                Some((kind, _, name)) => if kind is Task {
                    None
                } else {
                    Some(name)
                },
                None => None,
            }),
    {
        match (&self.tool, &self.prompt, &self.resource) {
            (Some(tool), _, _) => Some(tool.name.as_str()),
            (None, Some(prompt), _) => Some(prompt.name()),
            (None, None, Some(resource)) => Some(resource.name()),
            (None, None, None) => None,
        }
    }

    /// The request is a call of this tool. What is known of the call already is kept.
    pub fn set_tool(&mut self, target: String, name: String)
        ensures
            *final(self) == old(self).about(
                Some(
                    match old(self).tool {
                        Some(tool) => MCPTool { target, name, ..tool },
                        None => bare_tool(target, name),
                    },
                ),
                None,
                None,
                None,
            ),
    {
        self.prompt = None;
        self.resource = None;
        self.task = None;
        let tool = match self.tool.take() {
            Some(tool) => MCPTool { target, name, ..tool },
            None => MCPTool { target, name, arguments: None, result: None, error: None },
        };
        self.tool = Some(tool);
    }

    /// The request is about this prompt.
    pub fn set_prompt(&mut self, target: String, name: String)
        ensures
            *final(self) == old(self).about(
                None,
                Some((ResourceId { target, name })),
                None,
                None,
            ),
    {
        self.tool = None;
        self.resource = None;
        self.task = None;
        self.prompt = Some(ResourceId::new(target, name));
    }

    /// The request is about this resource.
    pub fn set_resource(&mut self, target: String, name: String)
        ensures
            *final(self) == old(self).about(
                None,
                None,
                Some((ResourceId { target, name })),
                None,
            ),
    {
        self.tool = None;
        self.prompt = None;
        self.task = None;
        self.resource = Some(ResourceId::new(target, name));
    }

    /// The request is about a task of this ID.
    pub fn set_task(&mut self, target: String, task_id: String)
        ensures
            *final(self) == old(self).about(
                None,
                None,
                None,
                Some((MCPTask { target, name: task_id })),
            ),
    {
        self.tool = None;
        self.prompt = None;
        self.resource = None;
        self.task = Some(MCPTask::new(target, task_id));
    }

    /// The same with another tool call, where there is one.
    pub open spec fn with_tool(self, tool: MCPTool) -> MCPInfo {
        if self.tool is Some {
            MCPInfo { tool: Some(tool), ..self }
        } else {
            self
        }
    }

    /// Keeps the arguments of a tool call.
    pub fn capture_call_arguments(
        &mut self,
        arguments: Option<serde_json::Map<String, serde_json::Value>>,
    )
        ensures
            *final(self) == old(self).with_tool(
                (MCPTool { arguments, ..old(self).tool->0 }),
            ),
    {
        if let Some(tool) = self.tool.take() {
            self.tool = Some(MCPTool { arguments, ..tool });
        }
    }

    /// Keeps the result of a tool call, as the JSON value that it serializes to.
    pub fn capture_call_result(&mut self, result: Option<serde_json::Value>)
        ensures
            *final(self) == old(self).with_tool((MCPTool { result, ..old(self).tool->0 })),
    {
        if let Some(tool) = self.tool.take() {
            self.tool = Some(MCPTool { result, ..tool });
        }
    }

    /// Keeps the error that ended the request, and with a tool call also as a JSON value.
    pub fn capture_error(&mut self, error: &ErrorData)
        ensures
            *final(self) == (MCPInfo { error: final(self).error, ..*old(self) }).with_tool(
                (MCPTool { error: final(self).tool->0.error, ..old(self).tool->0 }),
            ),
            final(self).error == Some((MCPError { code: error.code, message: error.message })),
            old(self).tool is Some ==> optional_json(final(self).tool->0.error) == Some(
                error_data_text(error@),
            ),
    {
        self.error = Some(MCPError { code: error.code, message: error.message.clone() });
        if let Some(tool) = self.tool.take() {
            self.tool = Some(MCPTool { error: error_value(error), ..tool });
        }
    }
}

/// What a client sent: its method, and the request that it is, if it is one.
#[derive(Debug, PartialEq)]
pub struct ClientMessage {
    pub method: Option<String>,
    pub request: Option<ClientRequest>,
}

/// A client's request, as far as it says what it is about.
#[derive(Debug, PartialEq)]
pub enum ClientRequest {
    CallToolRequest {
        name: String,
        arguments: Option<serde_json::Map<String, serde_json::Value>>,
    },
    GetPromptRequest { name: String },
    ReadResourceRequest { uri: ResourceUri },
    SubscribeRequest { uri: ResourceUri },
    UnsubscribeRequest { uri: ResourceUri },
    GetTaskRequest { task_id: String },
    UpdateTaskRequest { task_id: String },
    CancelTaskRequest { task_id: String },
    /// Any other request: it has no subject.
    Other,
}

/// A subject of this kind, where its target and name are known.
pub open spec fn subject_of(
    kind: MCPOperation,
    resolved: Option<(Seq<char>, Seq<char>)>,
) -> Option<Subject> {
    match resolved {
        Some((target, name)) => Some((kind, target, name)),
        None => None,
    }
}

/// What a client's request is about, where the backend has it.
pub open spec fn requested_subject(request: Option<ClientRequest>, backend: BackendView) -> Option<
    Subject,
> {
    match request {
        Some(ClientRequest::CallToolRequest { name, .. }) => subject_of(
            MCPOperation::Tool,
            mcp_request_name_spec(backend, name@),
        ),
        Some(ClientRequest::GetPromptRequest { name }) => subject_of(
            MCPOperation::Prompt,
            mcp_request_name_spec(backend, name@),
        ),
        Some(ClientRequest::ReadResourceRequest { uri }) => subject_of(
            MCPOperation::Resource,
            mcp_request_uri_spec(backend, uri@),
        ),
        Some(ClientRequest::SubscribeRequest { uri }) => subject_of(
            MCPOperation::Resource,
            mcp_request_uri_spec(backend, uri@),
        ),
        Some(ClientRequest::UnsubscribeRequest { uri }) => subject_of(
            MCPOperation::Resource,
            mcp_request_uri_spec(backend, uri@),
        ),
        Some(ClientRequest::GetTaskRequest { task_id }) => subject_of(
            MCPOperation::Task,
            mcp_request_task_spec(backend, task_id@),
        ),
        Some(ClientRequest::UpdateTaskRequest { task_id }) => subject_of(
            MCPOperation::Task,
            mcp_request_task_spec(backend, task_id@),
        ),
        Some(ClientRequest::CancelTaskRequest { task_id }) => subject_of(
            MCPOperation::Task,
            mcp_request_task_spec(backend, task_id@),
        ),
        Some(ClientRequest::Other) => None,
        None => None,
    }
}

/// What a session header says: its text, where it can be shown.
pub open spec fn shows_session(session: Option<Seq<u8>>, text: Option<Seq<char>>) -> bool {
    match session {
        Some(value) => {
            &&& text is Some <==> visible(value)
            &&& text matches Some(t) ==> encode_utf8(t) == value
        },
        None => text is None,
    }
}

impl MCPInfo {
    /// There is at most one subject.
    pub open spec fn single(self) -> bool {
        &&& self.tool is Some ==> self.prompt is None && self.resource is None && self.task is None
        &&& self.prompt is Some ==> self.resource is None && self.task is None
        &&& self.resource is Some ==> self.task is None
    }

    /// What request policies can know of a client's message. What comes with the response is
    /// filled in later on. `session` is the value of the session header.
    pub fn from_request(
        session: Option<&[u8]>,
        message: ClientMessage,
        backend: &McpBackend,
    ) -> (r: Self)
        ensures
            r == (MCPInfo {
                method_name: message.method,
                session_id: r.session_id,
                ..no_info()
            }).about(r.tool, r.prompt, r.resource, r.task),
            shows_session(session.deep_view(), r.session_id.deep_view()),
            r.single(),
            r.subject() == requested_subject(message.request, backend@),
            r.tool matches Some(tool) ==> {
                &&& tool.arguments == message.request->0->CallToolRequest_arguments
                &&& tool.result is None
                &&& tool.error is None
            },
    {
        let session_id = match session {
            Some(value) => {
                assert(value.deep_view() =~= value@);
                header_text(value)
            },
            None => None,
        };
        let mut info = MCPInfo { method_name: message.method, session_id, ..Default::default() };
        match message.request {
            Some(ClientRequest::CallToolRequest { name, arguments }) => {
                if let Some((target, name)) = mcp_request_name(backend, name.as_str()) {
                    info.set_tool(target, name);
                    info.capture_call_arguments(arguments);
                }
            },
            Some(ClientRequest::GetPromptRequest { name }) => {
                if let Some((target, name)) = mcp_request_name(backend, name.as_str()) {
                    info.set_prompt(target, name);
                }
            },
            Some(ClientRequest::ReadResourceRequest { uri }) => {
                if let Some((target, uri)) = mcp_request_uri(backend, &uri) {
                    info.set_resource(target, uri);
                }
            },
            Some(ClientRequest::SubscribeRequest { uri }) => {
                if let Some((target, uri)) = mcp_request_uri(backend, &uri) {
                    info.set_resource(target, uri);
                }
            },
            Some(ClientRequest::UnsubscribeRequest { uri }) => {
                if let Some((target, uri)) = mcp_request_uri(backend, &uri) {
                    info.set_resource(target, uri);
                }
            },
            Some(ClientRequest::GetTaskRequest { task_id }) => {
                if let Some((target, id)) = mcp_request_task(backend, task_id.as_str()) {
                    info.set_task(target, id);
                }
            },
            Some(ClientRequest::UpdateTaskRequest { task_id }) => {
                if let Some((target, id)) = mcp_request_task(backend, task_id.as_str()) {
                    info.set_task(target, id);
                }
            },
            Some(ClientRequest::CancelTaskRequest { task_id }) => {
                if let Some((target, id)) = mcp_request_task(backend, task_id.as_str()) {
                    info.set_task(target, id);
                }
            },
            Some(ClientRequest::Other) => {},
            None => {},
        }
        info
    }
}

impl From<&ResourceType> for MCPInfo {
    fn from(value: &ResourceType) -> (r: Self) {
        match value {
            ResourceType::Tool(tool) => MCPInfo {
                tool: Some(
                    MCPTool {
                        target: tool.target.clone(),
                        name: tool.name.clone(),
                        arguments: None,
                        result: None,
                        error: None,
                    },
                ),
                ..Default::default()
            },
            ResourceType::Prompt(prompt) => MCPInfo {
                prompt: Some(prompt.clone()),
                ..Default::default()
            },
            ResourceType::Resource(resource) => MCPInfo {
                resource: Some(resource.clone()),
                ..Default::default()
            },
            ResourceType::Task(task) => MCPInfo {
                task: Some(MCPTask::new(task.target.clone(), task.name.clone())),
                ..Default::default()
            },
        }
    }
}

impl vstd::std_specs::convert::FromSpecImpl<&ResourceType> for MCPInfo {
    open spec fn obeys_from_spec() -> bool {
        true
    }

    open spec fn from_spec(value: &ResourceType) -> Self {
        match *value {
            ResourceType::Tool(tool) => no_info().about(
                Some(bare_tool(tool.target, tool.name)),
                None,
                None,
                None,
            ),
            ResourceType::Prompt(prompt) => no_info().about(None, Some(prompt), None, None),
            ResourceType::Resource(resource) => no_info().about(None, None, Some(resource), None),
            ResourceType::Task(task) => no_info().about(
                None,
                None,
                None,
                Some(MCPTask { target: task.target, name: task.name }),
            ),
        }
    }
}

/// Whatever was known of a request, once its subject is set it is about that subject and no
/// other, and all else that was known of it still is.
pub proof fn one_subject_at_a_time(info: MCPInfo, target: String, name: String)
    ensures
        ({
            let tool = info.about(Some(bare_tool(target, name)), None, None, None);
            let prompt = info.about(None, Some(ResourceId { target, name }), None, None);
            let resource = info.about(None, None, Some(ResourceId { target, name }), None);
            let task = info.about(None, None, None, Some(MCPTask { target, name }));
            &&& tool.single() && tool.subject() == Some((MCPOperation::Tool, target@, name@))
            &&& prompt.single() && prompt.subject() == Some((MCPOperation::Prompt, target@, name@))
            &&& resource.single() && resource.subject() == Some(
                (MCPOperation::Resource, target@, name@),
            )
            &&& task.single() && task.subject() == Some((MCPOperation::Task, target@, name@))
            &&& tool.about(info.tool, info.prompt, info.resource, info.task) == info
            &&& prompt.about(info.tool, info.prompt, info.resource, info.task) == info
            &&& resource.about(info.tool, info.prompt, info.resource, info.task) == info
            &&& task.about(info.tool, info.prompt, info.resource, info.task) == info
        }),
{
}

} // verus!
