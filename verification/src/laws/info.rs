//! Laws of what is known of a request.
use crate::info::ClientMessage;
use crate::info::ClientRequest;
use crate::info::FailureMode;
use crate::info::MCPInfo;
use crate::info::MCPOperation;
use crate::info::MCPTask;
use crate::info::ResourceId;
use crate::info::ResourceType;
use crate::info::DEFAULT_SESSION_IDLE_TTL_SECS;
use crate::json::json_string;
use crate::json::json_text;
use crate::jsonrpc::ErrorData;
use crate::laws::routing::is_for;
use crate::routing::mcp_request_name;
use crate::routing::mcp_request_task;
use crate::routing::mcp_request_uri;
use crate::routing::McpBackend;
use crate::routing::ResourceUri;
use crate::text::signed_decimal;
use vstd::prelude::*;
use vstd::utf8::encode_utf8;

verus! {

/// A failing session is closed unless something else is asked for.
pub proof fn sessions_fail_closed(r: FailureMode)
    requires
        call_ensures(<FailureMode as Default>::default, (), r),
    ensures
        r is FailClosed,
{
}

/// A session may be idle for half an hour.
pub proof fn sessions_may_idle_half_an_hour()
    ensures
        DEFAULT_SESSION_IDLE_TTL_SECS == 30 * 60,
{
}

/// The labels of operations.
pub proof fn operations_have_their_labels(op: &MCPOperation, r: String)
    requires
        call_ensures(MCPOperation::to_string, (op,), r),
    ensures
        *op is Tool ==> r@ == "tool"@,
        *op is Prompt ==> r@ == "prompt"@,
        *op is Resource ==> r@ == "resource"@,
        *op is ResourceTemplates ==> r@ == "templates"@,
        *op is Task ==> r@ == "task"@,
{
}

/// A task and a resource have the target and the name that they were made with.
pub proof fn subjects_keep_target_and_name(
    target: String,
    name: String,
    task: MCPTask,
    task_target: &str,
    task_name: &str,
    id: ResourceId,
    id_target: &str,
    id_name: &str,
)
    requires
        call_ensures(MCPTask::new, (target, name), task),
        call_ensures(MCPTask::target, (&task,), task_target),
        call_ensures(MCPTask::name, (&task,), task_name),
        call_ensures(ResourceId::new, (target, name), id),
        call_ensures(ResourceId::target, (&id,), id_target),
        call_ensures(ResourceId::name, (&id,), id_name),
    ensures
        task_target@ == target@,
        task_name@ == name@,
        id_target@ == target@,
        id_name@ == name@,
{
}

/// Nothing is known of a new request, and a request of which nothing is known is empty; so is one
/// of which only the target of an operation is known, and no other.
pub proof fn empty_requests_are_unknown(new: MCPInfo, info: &MCPInfo, empty: bool)
    requires
        call_ensures(<MCPInfo as Default>::default, (), new),
        call_ensures(MCPInfo::is_empty, (info,), empty),
    ensures
        new.method_name is None && new.session_id is None && new.target is None && new.tool is None
            && new.prompt is None && new.resource is None && new.task is None
            && new.tools_list is None && new.prompts_list is None && new.resources_list is None
            && new.resource_templates_list is None && new.error is None,
        empty <==> info.method_name is None && info.session_id is None && info.tool is None
            && info.prompt is None && info.resource is None && info.task is None
            && info.tools_list is None && info.prompts_list is None && info.resources_list is None
            && info.resource_templates_list is None && info.error is None,
{
}

/// What the four views of a request's subject say, where it is about this one.
pub open spec fn views_say(
    kind: Option<MCPOperation>,
    target: Option<&str>,
    name: Option<&str>,
    metric: Option<&str>,
    of_kind: MCPOperation,
    of_target: Seq<char>,
    of_name: Seq<char>,
) -> bool {
    &&& kind == Some(of_kind)
    &&& target matches Some(t) && t@ == of_target
    &&& name matches Some(n) && n@ == of_name
    &&& of_kind is Task ==> metric is None
    &&& !(of_kind is Task) ==> (metric matches Some(n) && n@ == of_name)
}

/// A request is about its tool; without one about its prompt; without one about its resource;
/// without one about its task; and metrics never see a task.
pub proof fn subjects_come_in_order(
    info: &MCPInfo,
    kind: Option<MCPOperation>,
    target: Option<&str>,
    name: Option<&str>,
    metric: Option<&str>,
)
    requires
        call_ensures(MCPInfo::resource_type, (info,), kind),
        call_ensures(MCPInfo::target_name, (info,), target),
        call_ensures(MCPInfo::resource_name, (info,), name),
        call_ensures(MCPInfo::metric_resource_name, (info,), metric),
    ensures
        info.tool matches Some(x) ==> views_say(
            kind,
            target,
            name,
            metric,
            MCPOperation::Tool,
            x.target@,
            x.name@,
        ),
        info.tool is None ==> (info.prompt matches Some(x) ==> views_say(
            kind,
            target,
            name,
            metric,
            MCPOperation::Prompt,
            x.target@,
            x.name@,
        )),
        info.tool is None && info.prompt is None ==> (info.resource matches Some(x) ==> views_say(
            kind,
            target,
            name,
            metric,
            MCPOperation::Resource,
            x.target@,
            x.name@,
        )),
        info.tool is None && info.prompt is None && info.resource is None ==> (
        info.task matches Some(x) ==> views_say(
            kind,
            target,
            name,
            metric,
            MCPOperation::Task,
            x.target@,
            x.name@,
        )),
        info.tool is None && info.prompt is None && info.resource is None && info.task is None ==> {
            &&& kind is None
            &&& target is None
            &&& name is None
            &&& metric is None
        },
{
}

/// All that is known besides the subject is the same.
pub open spec fn same_besides_subject(a: MCPInfo, b: MCPInfo) -> bool {
    &&& a.method_name == b.method_name
    &&& a.session_id == b.session_id
    &&& a.target == b.target
    &&& a.tools_list == b.tools_list
    &&& a.prompts_list == b.prompts_list
    &&& a.resources_list == b.resources_list
    &&& a.resource_templates_list == b.resource_templates_list
    &&& a.error == b.error
}

/// Setting a subject, whatever there was before, leaves that subject and no other, and changes
/// nothing else; and of a tool call it keeps the arguments, the result and the error that are known.
pub proof fn setting_leaves_one_subject(target: String, name: String)
    ensures
        forall|m: &mut MCPInfo| #[trigger]
            call_ensures(MCPInfo::set_tool, (m, target, name), ()) ==> {
                &&& final(m).tool matches Some(tool) && {
                    &&& tool.target@ == target@
                    &&& tool.name@ == name@
                    &&& m.tool matches Some(before) ==> tool.arguments == before.arguments
                        && tool.result == before.result && tool.error == before.error
                    &&& m.tool is None ==> tool.arguments is None && tool.result is None
                        && tool.error is None
                }
                &&& final(m).prompt is None && final(m).resource is None && final(m).task is None
                &&& same_besides_subject(*m, *final(m))
            },
        forall|m: &mut MCPInfo| #[trigger]
            call_ensures(MCPInfo::set_prompt, (m, target, name), ()) ==> {
                &&& final(m).prompt matches Some(x) && x.target@ == target@ && x.name@ == name@
                &&& final(m).tool is None && final(m).resource is None && final(m).task is None
                &&& same_besides_subject(*m, *final(m))
            },
        forall|m: &mut MCPInfo| #[trigger]
            call_ensures(MCPInfo::set_resource, (m, target, name), ()) ==> {
                &&& final(m).resource matches Some(x) && x.target@ == target@ && x.name@ == name@
                &&& final(m).tool is None && final(m).prompt is None && final(m).task is None
                &&& same_besides_subject(*m, *final(m))
            },
        forall|m: &mut MCPInfo| #[trigger]
            call_ensures(MCPInfo::set_task, (m, target, name), ()) ==> {
                &&& final(m).task matches Some(x) && x.target@ == target@ && x.name@ == name@
                &&& final(m).tool is None && final(m).prompt is None && final(m).resource is None
                &&& same_besides_subject(*m, *final(m))
            },
{
}

/// Arguments and results are kept with the tool call that there is, and with nothing else; all else
/// that is known stays as it is.
pub proof fn calls_keep_what_is_captured(
    arguments: Option<serde_json::Map<String, serde_json::Value>>,
    result: Option<serde_json::Value>,
)
    ensures
        forall|m: &mut MCPInfo| #[trigger]
            call_ensures(MCPInfo::capture_call_arguments, (m, arguments), ()) ==> {
                &&& m.tool is None ==> *final(m) == *m
                &&& m.tool matches Some(before) ==> {
                    &&& final(m).tool matches Some(tool) && {
                        &&& tool.arguments == arguments
                        &&& tool.target == before.target && tool.name == before.name
                        &&& tool.result == before.result && tool.error == before.error
                    }
                    &&& final(m).prompt == m.prompt && final(m).resource == m.resource
                    &&& final(m).task == m.task
                    &&& same_besides_subject(*m, *final(m))
                }
            },
        forall|m: &mut MCPInfo| #[trigger]
            call_ensures(MCPInfo::capture_call_result, (m, result), ()) ==> {
                &&& m.tool is None ==> *final(m) == *m
                &&& m.tool matches Some(before) ==> {
                    &&& final(m).tool matches Some(tool) && {
                        &&& tool.result == result
                        &&& tool.target == before.target && tool.name == before.name
                        &&& tool.arguments == before.arguments && tool.error == before.error
                    }
                    &&& final(m).prompt == m.prompt && final(m).resource == m.resource
                    &&& final(m).task == m.task
                    &&& same_besides_subject(*m, *final(m))
                }
            },
{
}

/// An error is kept by code and message, whatever it is; with a tool call also as the JSON object of
/// code, data and message; all else that is known stays as it is.
pub proof fn errors_are_kept(error: &ErrorData)
    ensures
        forall|m: &mut MCPInfo| #[trigger]
            call_ensures(MCPInfo::capture_error, (m, error), ()) ==> {
                &&& final(m).error matches Some(e) && e.code == error.code && e.message@
                    == error.message@
                &&& final(m).method_name == m.method_name && final(m).session_id == m.session_id
                &&& final(m).target == m.target && final(m).prompt == m.prompt
                &&& final(m).resource == m.resource && final(m).task == m.task
                &&& final(m).tools_list == m.tools_list && final(m).prompts_list == m.prompts_list
                &&& final(m).resources_list == m.resources_list
                    && final(m).resource_templates_list == m.resource_templates_list
                &&& m.tool is None ==> final(m).tool is None
                &&& m.tool matches Some(before) ==> (final(m).tool matches Some(tool) && {
                    &&& tool.target == before.target && tool.name == before.name
                    &&& tool.arguments == before.arguments && tool.result == before.result
                    &&& tool.error matches Some(v) && {
                        &&& error.data is None ==> json_text(v) == "{\"code\":"@ + signed_decimal(
                            error.code as int,
                        ) + ",\"message\":"@ + json_string(error.message@) + "}"@
                        &&& error.data matches Some(d) ==> json_text(v) == "{\"code\":"@
                            + signed_decimal(error.code as int) + (",\"data\":"@ + json_text(d))
                            + ",\"message\":"@ + json_string(error.message@) + "}"@
                    }
                })
            },
{
    let a = "{\"code\":"@ + signed_decimal(error.code as int);
    assert(a + Seq::empty() =~= a);
}

/// A message is seen with its own method, and with its session where that can be shown; nothing is
/// seen of its response; and of a message that is no request, or of a request without a subject, no
/// subject.
pub proof fn messages_are_seen_as_they_came(
    session: Option<&[u8]>,
    message: ClientMessage,
    backend: &McpBackend,
    r: MCPInfo,
)
    requires
        call_ensures(MCPInfo::from_request, (session, message, backend), r),
    ensures
        r.method_name == message.method,
        session is None ==> r.session_id is None,
        session matches Some(value) ==> {
            &&& r.session_id is Some <==> forall|i: int|
                0 <= i < value@.len() ==> 32 <= #[trigger] value@[i] < 127 || value@[i] == 9
            &&& r.session_id matches Some(text) ==> encode_utf8(text@) == value@
        },
        r.target is None && r.tools_list is None && r.prompts_list is None && r.resources_list
            is None && r.resource_templates_list is None && r.error is None,
        message.request is None || message.request == Some(ClientRequest::Other) ==> r.tool is None
            && r.prompt is None && r.resource is None && r.task is None,
{
    if let Some(value) = session {
        assert(value.deep_view() =~= value@);
        assert(crate::response::visible(value@) <==> forall|i: int|
            0 <= i < value@.len() ==> 32 <= #[trigger] value@[i] < 127 || value@[i] == 9);
    }
}

/// A request that names a tool or a prompt is about the one that the name resolves to, and with a
/// tool call its arguments are seen; where the name does not resolve, it is about nothing.
pub proof fn named_requests_are_seen_as_resolved(
    session: Option<&[u8]>,
    message: ClientMessage,
    backend: &McpBackend,
    r: MCPInfo,
    name: &str,
    resolved: Option<(String, String)>,
)
    requires
        call_ensures(MCPInfo::from_request, (session, message, backend), r),
        call_ensures(mcp_request_name, (backend, name), resolved),
    ensures
        message.request matches Some(ClientRequest::CallToolRequest { name: n, arguments }) ==> n@
            == name@ ==> {
            &&& r.prompt is None && r.resource is None && r.task is None
            &&& r.tool is Some <==> resolved is Some
            &&& r.tool matches Some(tool) ==> {
                &&& is_for(resolved, tool.target@, tool.name@)
                &&& tool.arguments == arguments && tool.result is None && tool.error is None
            }
        },
        message.request matches Some(ClientRequest::GetPromptRequest { name: n }) ==> n@ == name@
            ==> {
            &&& r.tool is None && r.resource is None && r.task is None
            &&& r.prompt is Some <==> resolved is Some
            &&& r.prompt matches Some(x) ==> is_for(resolved, x.target@, x.name@)
        },
{
}

/// A request that reads, subscribes to or unsubscribes from a resource is about the one that its URI
/// resolves to; one that gets, updates or cancels a task about the one that its ID resolves to.
pub proof fn addressed_requests_are_seen_as_resolved(
    session: Option<&[u8]>,
    message: ClientMessage,
    backend: &McpBackend,
    r: MCPInfo,
    uri: &ResourceUri,
    by_uri: Option<(String, String)>,
    id: &str,
    by_id: Option<(String, String)>,
)
    requires
        call_ensures(MCPInfo::from_request, (session, message, backend), r),
        call_ensures(mcp_request_uri, (backend, uri), by_uri),
        call_ensures(mcp_request_task, (backend, id), by_id),
    ensures
        ({
            ||| message.request matches Some(ClientRequest::ReadResourceRequest { uri: u }) && u
                == *uri
            ||| message.request matches Some(ClientRequest::SubscribeRequest { uri: u }) && u
                == *uri
            ||| message.request matches Some(ClientRequest::UnsubscribeRequest { uri: u }) && u
                == *uri
        }) ==> {
            &&& r.tool is None && r.prompt is None && r.task is None
            &&& r.resource is Some <==> by_uri is Some
            &&& r.resource matches Some(x) ==> is_for(by_uri, x.target@, x.name@)
        },
        ({
            ||| message.request matches Some(ClientRequest::GetTaskRequest { task_id: t }) && t@
                == id@
            ||| message.request matches Some(ClientRequest::UpdateTaskRequest { task_id: t }) && t@
                == id@
            ||| message.request matches Some(ClientRequest::CancelTaskRequest { task_id: t }) && t@
                == id@
        }) ==> {
            &&& r.tool is None && r.prompt is None && r.resource is None
            &&& r.task is Some <==> by_id is Some
            &&& r.task matches Some(x) ==> is_for(by_id, x.target@, x.name@)
        },
{
}

/// What access is asked for is seen as the subject of its kind, and nothing else is.
pub proof fn access_is_seen_by_its_kind(asked: &ResourceType, r: MCPInfo)
    requires
        call_ensures(<MCPInfo as From<&ResourceType>>::from, (asked,), r),
    ensures
        r.method_name is None && r.session_id is None && r.target is None && r.tools_list is None
            && r.prompts_list is None && r.resources_list is None && r.resource_templates_list
            is None && r.error is None,
        *asked matches ResourceType::Tool(x) ==> {
            &&& r.tool matches Some(tool) && tool.target@ == x.target@ && tool.name@ == x.name@
                && tool.arguments is None && tool.result is None && tool.error is None
            &&& r.prompt is None && r.resource is None && r.task is None
        },
        *asked matches ResourceType::Prompt(x) ==> {
            &&& r.prompt matches Some(y) && y.target@ == x.target@ && y.name@ == x.name@
            &&& r.tool is None && r.resource is None && r.task is None
        },
        *asked matches ResourceType::Resource(x) ==> {
            &&& r.resource matches Some(y) && y.target@ == x.target@ && y.name@ == x.name@
            &&& r.tool is None && r.prompt is None && r.task is None
        },
        *asked matches ResourceType::Task(x) ==> {
            &&& r.task matches Some(y) && y.target@ == x.target@ && y.name@ == x.name@
            &&& r.tool is None && r.prompt is None && r.resource is None
        },
{
}

} // verus!
