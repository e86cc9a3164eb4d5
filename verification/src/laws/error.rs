//! Laws of errors and of how they are told.
use crate::error::tool_error_body;
use crate::error::Error;
use crate::error::RateLimitStatus;
use crate::error::Reply;
use crate::error::StatusCode;
use crate::form::lookup;
use crate::json::json_fields;
use crate::json::json_string;
use crate::json::json_text;
use crate::json::FieldView;
use crate::jsonrpc::RequestId;
use crate::text::decimal;
use crate::text::signed_decimal;
use vstd::prelude::*;
use vstd::utf8::encode_utf8;

verus! {

/// A number is a status exactly where it has three digits, is then the number of that status, and
/// stands in front of its phrase.
pub proof fn statuses_are_their_number(
    code: u16,
    r: Option<StatusCode>,
    status: StatusCode,
    n: u16,
    text: String,
)
    requires
        call_ensures(StatusCode::new, (code,), r),
        call_ensures(StatusCode::as_u16, (&status,), n),
        call_ensures(StatusCode::to_string, (&status,), text),
    ensures
        r is Some <==> 100 <= code <= 999,
        r == Some(status) ==> n == code,
        exists|phrase: Seq<char>| text@ == #[trigger] (decimal(n as nat) + " "@ + phrase),
{
    assert(text@ == decimal(n as nat) + " "@ + crate::error::status_phrase(n));
}

/// An error that has a cause reads as what failed, followed by the cause, whatever it is.
pub proof fn errors_read_with_their_cause(e: &Error, r: String)
    requires
        call_ensures(Error::to_string, (e,), r),
    ensures
        *e matches Error::Deserialize(x) ==> r@ == "fail to deserialize request body: "@ + x@,
        *e matches Error::PayloadTooLarge(n) ==> r@
            == "request body exceeds the maximum buffer size of "@ + decimal(n as nat)
            + " bytes"@,
        *e matches Error::StartSession(x) ==> r@ == "fail to create session: "@ + x@,
        *e matches Error::UnsupportedVersion { version, .. } ==> r@
            == "unsupported MCP protocol version: "@ + version@,
        *e matches Error::HeaderBodyMismatch(_, x) ==> r@ == x@ + " header/body mismatch"@,
        *e matches Error::InvalidRoutingHeader(_, x) ==> r@ == "invalid MCP routing header: "@
            + x@,
        *e matches Error::MethodNotFound(_, x) ==> r@ == "method not found: "@ + x@,
        *e matches Error::InvalidParams(_, x) ==> r@ == "invalid request parameters: "@ + x@,
        *e matches Error::Stdio(x) ==> r@ == "failed to start stdio server: "@ + x@,
        *e matches Error::SendError(_, x) ==> r@ == "failed to send message: "@ + x@,
        *e matches Error::Unavailable(_, x) ==> r@ == x@,
        *e matches Error::Authorization(_, what, name) ==> r@ == "Unknown "@ + what@ + ": "@
            + name@,
        *e matches Error::McpGuardrails { rej, .. } ==> r@ == "mcpGuardrails rejected: "@
            + rej.message@,
        *e matches Error::RateLimited { message: Some(m), .. } ==> r@ == m@,
        *e matches Error::RateLimited { message: None, .. } ==> r@ == "rate limit exceeded"@,
        *e matches Error::EstablishGetStream(x) ==> r@ == "failed to establish get stream: "@ + x@,
        *e matches Error::ForwardLegacySse(x) ==> r@
            == "failed to forward message to legacy SSE: "@ + x@,
        *e matches Error::CreateSseUrl(x) ==> r@ == "failed to create SSE url: "@ + x@,
        *e matches Error::OpenAPI(x) ==> r@ == "failed to parse openapi: "@ + x@,
{
}

/// An upstream's error reads with the status of the upstream.
pub proof fn upstream_errors_read_with_their_status(
    status: StatusCode,
    text: String,
    e: &Error,
    r: String,
)
    requires
        *e == Error::UpstreamError(status),
        call_ensures(StatusCode::to_string, (&status,), text),
        call_ensures(Error::to_string, (e,), r),
    ensures
        r@ == "upstream error: "@ + text@,
{
}

/// The other errors read always the same.
pub proof fn errors_without_cause_read_the_same(e: &Error, r: String)
    requires
        call_ensures(Error::to_string, (e,), r),
    ensures
        *e is MethodNotAllowed ==> r@ == "method not allowed; must be GET, POST, or DELETE"@,
        *e is GetStreamNotSupported ==> r@ == "GET event stream is not supported by any upstream"@,
        *e is InvalidAccept ==> r@
            == "client must accept both application/json and text/event-stream"@,
        *e is InvalidAcceptGet ==> r@ == "client must accept text/event-stream"@,
        *e is InvalidContentType ==> r@ == "client must send application/json"@,
        *e is UnknownSession ==> r@ == "session not found"@,
        *e is MissingSessionHeader ==> r@
            == "session header is required for non-initialize requests"@,
        *e is SessionIdRequired ==> r@ == "session ID is required"@,
        *e is InvalidSessionIdHeader ==> r@ == "invalid session ID header"@,
        *e is InvalidProtocolVersion ==> r@ == "invalid MCP protocol version header"@,
        *e is VersionMismatch ==> r@ == "MCP protocol version header/body mismatch"@,
        *e is InvalidSessionIdQuery ==> r@ == "failed to process session_id query parameter"@,
        *e is NoBackends ==> r@ == "no backends configured"@,
{
}

/// A reply is a JSON-RPC error of this request, with this code and message.
pub open spec fn is_error(reply: Option<Reply>, id: RequestId, code: i32, message: Seq<char>) -> bool {
    reply matches Some(Reply::Error { request_id, error }) && {
        &&& request_id@ == id@
        &&& error.code == code
        &&& error.message@ == message
    }
}

/// A reply is an error without data.
pub open spec fn has_no_data(reply: Option<Reply>) -> bool {
    reply matches Some(Reply::Error { error, .. }) && error.data is None
}

/// A reply is an error whose data hold exactly these three numbers.
pub open spec fn data_hold_quota(reply: Option<Reply>, status: RateLimitStatus) -> bool {
    &&& reply matches Some(Reply::Error { error, .. })
    &&& error.data matches Some(v)
    &&& json_fields(encode_utf8(json_text(v))) matches Some(fields)
    &&& lookup(fields, "limit"@) == Some(Some(FieldView::Unsigned(status.limit)))
    &&& lookup(fields, "remaining"@) == Some(Some(FieldView::Unsigned(status.remaining)))
    &&& lookup(fields, "retryAfterSeconds"@) == Some(
        Some(FieldView::Unsigned(status.reset_seconds)),
    )
    &&& forall|name: Seq<char>|
        name != "limit"@ && name != "remaining"@ && name != "retryAfterSeconds"@ ==> #[trigger]
            lookup(fields, name) is None
}

proof fn lemma_quota_fields(status: RateLimitStatus)
    ensures
        ({
            let f = crate::error::quota_fields(status);
            &&& lookup(f, "limit"@) == Some(FieldView::Unsigned(status.limit))
            &&& lookup(f, "remaining"@) == Some(FieldView::Unsigned(status.remaining))
            &&& lookup(f, "retryAfterSeconds"@) == Some(FieldView::Unsigned(status.reset_seconds))
            &&& forall|name: Seq<char>|
                name != "limit"@ && name != "remaining"@ && name != "retryAfterSeconds"@
                    ==> #[trigger] lookup(f, name) is None
        }),
{
    reveal_with_fuel(lookup, 4);
    reveal_strlit("limit");
    reveal_strlit("remaining");
    reveal_strlit("retryAfterSeconds");
    assert("limit"@.len() == 5 && "remaining"@.len() == 9 && "retryAfterSeconds"@.len() == 17);
}

/// A limit that a tool call hit is told as a failed result of that call: how the error reads, and
/// where a quota is known, when to try again and what is left. Only modern clients get its type.
pub proof fn limited_calls_are_told_their_quota(
    e: &Error,
    text: String,
    r: Option<Reply>,
)
    requires
        call_ensures(Error::to_string, (e,), text),
        call_ensures(Error::reply, (e,), r),
        e->RateLimited_was_tool_call,
        *e is RateLimited,
    ensures
        r matches Some(Reply::ToolError { request_id, text: told, typed }) && {
            &&& request_id@ == e->RateLimited_request_id@
            &&& typed == e->RateLimited_downstream_modern
            &&& e->RateLimited_status is None ==> told@ == text@
            &&& e->RateLimited_status matches Some(s) ==> told@ == text@ + (" (retry after "@
                + decimal(s.reset_seconds as nat) + "s; limit "@ + decimal(s.limit as nat)
                + ", remaining "@ + decimal(s.remaining as nat) + ")"@)
        },
{
}

/// A limit that any other request hit is told as an error of its own code, that reads as the error
/// does, and whose data are the quota, where one is known.
pub proof fn limited_requests_are_told_their_quota(e: &Error, text: String, r: Option<Reply>)
    requires
        call_ensures(Error::to_string, (e,), text),
        call_ensures(Error::reply, (e,), r),
        *e is RateLimited,
        !e->RateLimited_was_tool_call,
    ensures
        is_error(r, e->RateLimited_request_id, -32003i32, text@),
        e->RateLimited_status is None ==> has_no_data(r),
        e->RateLimited_status matches Some(s) ==> data_hold_quota(r, s),
{
    if let Some(s) = e->RateLimited_status {
        lemma_quota_fields(s);
    }
}

/// What a guardrail rejects is told as the guardrail put it: to a tool call as a failed result with
/// its message, unless the code is that of an internal error; otherwise as its error, code, message
/// and data.
pub proof fn rejections_are_told_as_put(e: &Error, r: Option<Reply>)
    requires
        call_ensures(Error::reply, (e,), r),
        *e is McpGuardrails,
    ensures
        ({
            let rej = e->McpGuardrails_rej;
            let id = e->McpGuardrails_request_id;
            let softly = e->McpGuardrails_was_tool_call && rej.code != -32603i32;
            &&& softly ==> (r matches Some(Reply::ToolError { request_id, text, typed }) && {
                &&& request_id@ == id@
                &&& text@ == rej.message@
                &&& typed == e->McpGuardrails_downstream_modern
            })
            &&& !softly ==> is_error(r, id, rej.code, rej.message@) && {
                &&& rej.data is None ==> has_no_data(r)
                &&& rej.data matches Some(d) ==> (r matches Some(Reply::Error { error, .. })
                    && error.data matches Some(v) && json_text(v) == json_text(d))
            }
        }),
{
}

/// A version that is not supported is told by its own code, and where the supported ones are to be
/// listed, with the version that was asked for.
pub proof fn unsupported_versions_are_told(e: &Error, text: String, r: Option<Reply>)
    requires
        call_ensures(Error::to_string, (e,), text),
        call_ensures(Error::reply, (e,), r),
        *e is UnsupportedVersion,
    ensures
        e->UnsupportedVersion_request_id is None ==> r is None,
        e->UnsupportedVersion_request_id matches Some(id) ==> {
            &&& is_error(r, id, -32022i32, text@)
            &&& !e->include_supported_versions ==> has_no_data(r)
            &&& e->include_supported_versions ==> {
                &&& r matches Some(Reply::Error { error, .. })
                &&& error.data matches Some(v)
                &&& json_fields(encode_utf8(json_text(v))) matches Some(fields)
                &&& lookup(fields, "requested"@) == Some(
                    Some(FieldView::Text(e->UnsupportedVersion_version@)),
                )
                &&& lookup(fields, "supported"@) is Some
                &&& forall|name: Seq<char>|
                    name != "requested"@ && name != "supported"@ ==> #[trigger] lookup(fields, name)
                        is None
                &&& json_text(v) == crate::json::json_object_text(
                    seq![
                        (
                            "supported"@,
                            FieldView::Texts(
                                seq![
                                    "2024-11-05"@,
                                    "2025-03-26"@,
                                    "2025-06-18"@,
                                    "2025-11-25"@,
                                    "2026-07-28"@,
                                ],
                            ),
                        ),
                        ("requested"@, FieldView::Text(e->UnsupportedVersion_version@)),
                    ],
                )
            }
        },
{
    reveal_with_fuel(lookup, 3);
    reveal_strlit("supported");
    reveal_strlit("requested");
    assert("supported"@[0] == 's' && "requested"@[0] == 'r');
}

/// The other errors of a known request are told by the code of their kind, as they read, without
/// data; those of an unknown request, and those that belong to none, are not told at all.
pub proof fn plain_errors_are_told_by_code(e: &Error, text: String, r: Option<Reply>)
    requires
        call_ensures(Error::to_string, (e,), text),
        call_ensures(Error::reply, (e,), r),
        !(*e is RateLimited) && !(*e is McpGuardrails) && !(*e is UnsupportedVersion),
    ensures
        r is Some ==> has_no_data(r),
        *e matches Error::SendError(Some(id), _) ==> is_error(r, id, -32603i32, text@),
        *e matches Error::Unavailable(Some(id), _) ==> is_error(r, id, -32603i32, text@),
        *e matches Error::Authorization(id, _, _) ==> is_error(r, id, -32602i32, text@),
        *e matches Error::VersionMismatch(Some(id)) ==> is_error(r, id, -32020i32, text@),
        *e matches Error::HeaderBodyMismatch(Some(id), _) ==> is_error(r, id, -32020i32, text@),
        *e matches Error::InvalidRoutingHeader(Some(id), _) ==> is_error(r, id, -32020i32, text@),
        *e matches Error::MethodNotFound(Some(id), _) ==> is_error(r, id, -32601i32, text@),
        *e matches Error::InvalidParams(Some(id), _) ==> is_error(r, id, -32602i32, text@),
        ({
            ||| *e matches Error::SendError(None, _)
            ||| *e matches Error::Unavailable(None, _)
            ||| *e matches Error::VersionMismatch(None)
            ||| *e matches Error::HeaderBodyMismatch(None, _)
            ||| *e matches Error::InvalidRoutingHeader(None, _)
            ||| *e matches Error::MethodNotFound(None, _)
            ||| *e matches Error::InvalidParams(None, _)
        }) ==> r is None,
        *e is MethodNotAllowed || *e is GetStreamNotSupported || *e is InvalidAccept || *e
            is InvalidAcceptGet || *e is InvalidContentType || *e is Deserialize || *e
            is PayloadTooLarge || *e is StartSession || *e is UnknownSession || *e
            is MissingSessionHeader || *e is SessionIdRequired || *e is InvalidSessionIdHeader || *e
            is InvalidProtocolVersion || *e is Stdio || *e is UpstreamError || *e
            is InvalidSessionIdQuery || *e is EstablishGetStream || *e is ForwardLegacySse || *e
            is CreateSseUrl || *e is OpenAPI || *e is NoBackends ==> r is None,
{
}

/// A request ID in JSON: its number, or its text as a string.
pub open spec fn shows_id(id: RequestId, shown: Seq<char>) -> bool {
    &&& id matches RequestId::Number(n) ==> shown == signed_decimal(n as int)
    &&& id matches RequestId::Text(s) ==> shown == json_string(s@)
}

/// What is told is what the body holds: a failed result with the one text and, where it has one, the
/// type; or an error with its code, message and data; and what is not told has no body.
pub proof fn bodies_hold_what_is_told(
    e: &Error,
    r: Option<Reply>,
    body: Option<String>,
    shown: Seq<char>,
)
    requires
        call_ensures(Error::reply, (e,), r),
        call_ensures(Error::jsonrpc_error_body, (e,), body),
    ensures
        r is None <==> body is None,
        r matches Some(Reply::ToolError { request_id, text, typed }) ==> shows_id(request_id, shown)
            ==> {
            let start = "{\"id\":"@ + shown
                + ",\"jsonrpc\":\"2.0\",\"result\":{\"content\":[{\"text\":"@ + json_string(text@)
                + ",\"type\":\"text\"}],\"isError\":true"@;
            body matches Some(b) && b@ == (if typed {
                start + ",\"resultType\":\"complete\""@ + "}}"@
            } else {
                start + "}}"@
            })
        },
        r matches Some(Reply::Error { request_id, error }) ==> shows_id(request_id, shown) ==> {
            let start = "{\"jsonrpc\":\"2.0\",\"id\":"@ + shown + ",\"error\":{\"code\":"@
                + signed_decimal(error.code as int) + ",\"message\":"@ + json_string(
                error.message@,
            );
            body matches Some(b) && b@ == (if error.data is Some {
                start + (",\"data\":"@ + json_text(error.data->0)) + "}}"@
            } else {
                start + "}}"@
            })
        },
{
    if let Some(Reply::ToolError { request_id, text, typed }) = r {
        let start = "{\"id\":"@ + shown
            + ",\"jsonrpc\":\"2.0\",\"result\":{\"content\":[{\"text\":"@ + json_string(text@)
            + ",\"type\":\"text\"}],\"isError\":true"@;
        assert(start + Seq::empty() =~= start);
    }
    if let Some(Reply::Error { request_id, error }) = r {
        let start = "{\"jsonrpc\":\"2.0\",\"id\":"@ + shown + ",\"error\":{\"code\":"@
            + signed_decimal(error.code as int) + ",\"message\":"@ + json_string(error.message@);
        assert(start + Seq::empty() =~= start);
    }
}

/// The body of a failed tool call names the call and carries the text; only for modern clients it
/// has the type of the result.
pub proof fn failed_calls_carry_their_text(
    id: &RequestId,
    text: String,
    modern: bool,
    r: Option<String>,
    shown: Seq<char>,
)
    requires
        call_ensures(tool_error_body, (id, text, modern), r),
        shows_id(*id, shown),
    ensures
        ({
            let start = "{\"id\":"@ + shown
                + ",\"jsonrpc\":\"2.0\",\"result\":{\"content\":[{\"text\":"@ + json_string(text@)
                + ",\"type\":\"text\"}],\"isError\":true"@;
            r matches Some(b) && b@ == (if modern {
                start + ",\"resultType\":\"complete\""@ + "}}"@
            } else {
                start + "}}"@
            })
        }),
{
    let start = "{\"id\":"@ + shown + ",\"jsonrpc\":\"2.0\",\"result\":{\"content\":[{\"text\":"@
        + json_string(text@) + ",\"type\":\"text\"}],\"isError\":true"@;
    assert(start + Seq::empty() =~= start);
}

} // verus!
