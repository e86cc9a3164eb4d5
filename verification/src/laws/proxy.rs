//! Laws of limits and of failures around MCP.
use crate::error::Error;
use crate::error::RateLimitStatus;
use crate::error::Reply;
use crate::error::StatusCode;
use crate::jsonrpc::client_request;
use crate::jsonrpc::RequestId;
use crate::laws::error::data_hold_quota;
use crate::laws::error::is_error;
use crate::laws::error::limited_calls_are_told_their_quota;
use crate::laws::error::limited_requests_are_told_their_quota;
use crate::methods::is_modern_version;
use crate::proxy::convert_limit;
use crate::proxy::maybe_convert_mcp_error;
use crate::proxy::needs_body;
use crate::proxy::ClientError;
use crate::proxy::ProxyError;
use crate::proxy::ProxyResponse;
use crate::proxy::RequestProtocol;
use crate::text::decimal;
use crate::text::utf8_lossy;
use vstd::prelude::*;

verus! {

/// The quota that a limit tells of.
pub open spec fn quota(limit: ProxyError) -> Option<RateLimitStatus> {
    match limit {
        ProxyError::RateLimitExceeded { limit, remaining, reset_seconds } => Some(
            RateLimitStatus { limit, remaining, reset_seconds },
        ),
        ProxyError::RemoteRateLimitExceeded { status, .. } => status,
        _ => None,
    }
}

/// An MCP error tells of a limit, with this quota, as one that a request of this ID hit.
pub open spec fn tells_of(
    err: ProxyError,
    limit: ProxyError,
    request_id: crate::jsonrpc::IdView,
    is_tool_call: bool,
) -> bool {
    err matches ProxyError::MCP(Error::RateLimited { request_id: id, status, was_tool_call, .. })
        && {
        &&& id@ == request_id
        &&& status == quota(limit)
        &&& was_tool_call == is_tool_call
    }
}

/// A limit that is converted keeps its quota: the three numbers of the gateway's own, and whatever
/// status a service told, or none. It is told of the request that hit it, and of a tool call exactly
/// where the method is that of tool calls.
pub proof fn converted_limits_keep_their_quota(
    limit: ProxyError,
    request_id: RequestId,
    method: &str,
    version: Option<&str>,
    local_headers: Vec<(String, Vec<u8>)>,
    r: ProxyError,
)
    requires
        call_ensures(convert_limit, (limit, request_id, method, version, local_headers), r),
    ensures
        limit is RateLimitExceeded || limit is RemoteRateLimitExceeded ==> tells_of(
            r,
            limit,
            request_id@,
            method@ == "tools/call"@,
        ),
        limit is MCP || limit is Other ==> r == limit,
{
}

/// A limit of the gateway's own has the headers that go with it and no message; that of a service
/// has the service's headers, and its body as the message, unless it is empty.
pub proof fn converted_limits_say_what_was_said(
    limit: ProxyError,
    request_id: RequestId,
    method: &str,
    version: Option<&str>,
    local_headers: Vec<(String, Vec<u8>)>,
    r: ProxyError,
)
    requires
        call_ensures(convert_limit, (limit, request_id, method, version, local_headers), r),
    ensures
        limit is RateLimitExceeded ==> (r matches ProxyError::MCP(
            Error::RateLimited { message, headers, .. },
        ) && message is None && headers.deep_view() == local_headers.deep_view()),
        limit matches ProxyError::RemoteRateLimitExceeded { raw_body, response_headers, .. } ==> (
        r matches ProxyError::MCP(Error::RateLimited { message, headers, .. }) && {
            &&& headers.deep_view() == response_headers.deep_view()
            &&& message is None <==> raw_body@.len() == 0
            &&& message matches Some(m) ==> m@ == utf8_lossy(raw_body@)
        }),
{
}

/// A client counts as modern exactly where its header names a version and that version is modern.
pub proof fn converted_limits_know_the_client(
    limit: ProxyError,
    request_id: RequestId,
    method: &str,
    version: Option<&str>,
    local_headers: Vec<(String, Vec<u8>)>,
    r: ProxyError,
    modern: bool,
)
    requires
        call_ensures(convert_limit, (limit, request_id, method, version, local_headers), r),
        limit is RateLimitExceeded || limit is RemoteRateLimitExceeded,
        version matches Some(v) ==> call_ensures(is_modern_version, (v,), modern),
        version is None ==> !modern,
    ensures
        r matches ProxyError::MCP(Error::RateLimited { downstream_modern, .. })
            && downstream_modern == modern,
{
}

/// A client that hits a limit with a quota is told the quota: a tool call in words at the end of its
/// text, any other request by data that hold its three numbers.
pub proof fn quotas_reach_the_client(
    limit: ProxyError,
    request_id: RequestId,
    method: &str,
    version: Option<&str>,
    local_headers: Vec<(String, Vec<u8>)>,
    error: Error,
    text: String,
    reply: Option<Reply>,
)
    requires
        limit is RateLimitExceeded || limit is RemoteRateLimitExceeded,
        quota(limit) is Some,
        call_ensures(
            convert_limit,
            (limit, request_id, method, version, local_headers),
            ProxyError::MCP(error),
        ),
        call_ensures(Error::to_string, (&error,), text),
        call_ensures(Error::reply, (&error,), reply),
    ensures
        ({
            let s = quota(limit)->0;
            &&& method@ == "tools/call"@ ==> (reply matches Some(
                Reply::ToolError { request_id: id, text: told, .. },
            ) && {
                &&& id@ == request_id@
                &&& told@ == text@ + (" (retry after "@ + decimal(s.reset_seconds as nat)
                    + "s; limit "@ + decimal(s.limit as nat) + ", remaining "@ + decimal(
                    s.remaining as nat,
                ) + ")"@)
            })
            &&& method@ != "tools/call"@ ==> {
                &&& is_error(reply, request_id, -32003i32, text@)
                &&& data_hold_quota(reply, s)
            }
        }),
{
    converted_limits_keep_their_quota(
        limit,
        request_id,
        method,
        version,
        local_headers,
        ProxyError::MCP(error),
    );
    if method@ == "tools/call"@ {
        limited_calls_are_told_their_quota(&error, text, reply);
    } else {
        limited_requests_are_told_their_quota(&error, text, reply);
    }
}

/// The body is needed exactly where a request of MCP failed by a limit.
pub proof fn bodies_are_needed_for_limits_of_mcp<T, D>(
    res: &Result<T, ProxyResponse<D>>,
    protocol: RequestProtocol,
    r: bool,
)
    requires
        call_ensures(needs_body::<T, D>, (res, protocol), r),
    ensures
        r <==> protocol is Mcp && {
            ||| *res matches Err(ProxyResponse::Error(ProxyError::RateLimitExceeded { .. }))
            ||| *res matches Err(ProxyResponse::Error(ProxyError::RemoteRateLimitExceeded { .. }))
        },
{
}

/// A limit that a request of MCP hit becomes the MCP error that it converts to, for the request that
/// the body spells; where the body spells none, or could not be read, and for all else, the outcome
/// stays as it is.
pub proof fn limits_of_mcp_are_converted<T, D>(
    res: Result<T, ProxyResponse<D>>,
    protocol: RequestProtocol,
    body: Option<&[u8]>,
    version: Option<&str>,
    local_headers: Vec<(String, Vec<u8>)>,
    r: Result<T, ProxyResponse<D>>,
    needed: bool,
)
    requires
        call_ensures(
            maybe_convert_mcp_error::<T, D>,
            (res, protocol, body, version, local_headers),
            r,
        ),
        call_ensures(needs_body::<T, D>, (&res, protocol), needed),
    ensures
        !needed ==> r == res,
        body is None ==> r == res,
        body matches Some(bytes) ==> client_request(bytes@) is None ==> r == res,
        body matches Some(bytes) ==> needed ==> (client_request(bytes@) matches Some((id, method))
            ==> (r matches Err(ProxyResponse::Error(err)) && tells_of(
            err,
            res->Err_0->Error_0,
            id,
            method == "tools/call"@,
        ))),
{
    if let Some(bytes) = body {
        assert(bytes.deep_view() =~= bytes@);
    }
}

/// The error that comes of the whole is the one that comes of the limit by itself.
pub proof fn converting_is_the_same_in_whole_and_part<T, D>(
    limit: ProxyError,
    body: &[u8],
    version: Option<&str>,
    local_headers: Vec<(String, Vec<u8>)>,
    whole: Result<T, ProxyResponse<D>>,
    request_id: RequestId,
    method: &str,
    part: ProxyError,
)
    requires
        limit is RateLimitExceeded || limit is RemoteRateLimitExceeded,
        call_ensures(
            maybe_convert_mcp_error::<T, D>,
            (
                Err(ProxyResponse::Error(limit)),
                RequestProtocol::Mcp,
                Some(body),
                version,
                local_headers,
            ),
            whole,
        ),
        client_request(body@) == Some((request_id@, method@)),
        call_ensures(convert_limit, (limit, request_id, method, version, local_headers), part),
    ensures
        whole matches Err(ProxyResponse::Error(ProxyError::MCP(
            Error::RateLimited {
                request_id: id,
                status,
                message,
                headers,
                was_tool_call,
                downstream_modern,
            },
        ))) && (part matches ProxyError::MCP(
            Error::RateLimited {
                request_id: id2,
                status: status2,
                message: message2,
                headers: headers2,
                was_tool_call: call2,
                downstream_modern: modern2,
            },
        ) && {
            &&& id@ == id2@ && status == status2 && was_tool_call == call2
            &&& message.deep_view() == message2.deep_view()
            &&& headers.deep_view() == headers2.deep_view()
            &&& downstream_modern == modern2
        }),
{
    assert(body.deep_view() =~= body@);
}

/// An MCP error is a failure of the proxy as it is, by itself and as a result.
pub proof fn mcp_errors_are_wrapped_unchanged<T>(
    e: Error,
    wrapped: ProxyError,
    result: Result<T, ProxyError>,
    failure: ProxyError,
    client: ClientError,
)
    requires
        call_ensures(<ProxyError as From<Error>>::from, (e,), wrapped),
        call_ensures(<Result<T, ProxyError> as From<Error>>::from, (e,), result),
        call_ensures(<ClientError as From<ProxyError>>::from, (failure,), client),
    ensures
        wrapped == ProxyError::MCP(e),
        result == Err::<T, ProxyError>(ProxyError::MCP(e)),
        client == ClientError::Proxy(failure),
{
}

/// A failed call reads with its cause: the status of the upstream, the reason that it was made with,
/// or how the proxy's failure reads.
pub proof fn failed_calls_read_with_their_cause(
    reason: String,
    general: ClientError,
    proxy: &str,
    of_general: String,
    failure: ProxyError,
    of_proxy: String,
    status: StatusCode,
    shown: String,
    of_status: String,
)
    requires
        call_ensures(ClientError::new, (reason,), general),
        call_ensures(ClientError::to_string, (&general, proxy), of_general),
        call_ensures(ClientError::to_string, (&ClientError::Proxy(failure), proxy), of_proxy),
        call_ensures(StatusCode::to_string, (&status,), shown),
        call_ensures(ClientError::to_string, (&ClientError::Status(status), proxy), of_status),
    ensures
        of_general@ == "http request failed: "@ + reason@,
        of_proxy@ == "http request failed: "@ + proxy@,
        of_status@ == "http request failed with code: "@ + shown@,
{
}

} // verus!
