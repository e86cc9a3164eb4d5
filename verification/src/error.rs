//! What can go wrong with an MCP request, and how it is told to the client.
use crate::json::distinct_keys;
use crate::json::json_fields;
use crate::json::json_object_text;
use crate::json::object_value;
use crate::json::spells;
use crate::json::Field;
use crate::json::FieldView;
use crate::jsonrpc::error_response_text;
use crate::jsonrpc::flat_data;
use crate::jsonrpc::is_response;
use crate::jsonrpc::optional_json;
use crate::jsonrpc::render_error_response;
use crate::jsonrpc::render_tool_error;
use crate::jsonrpc::tool_error_text;
use crate::jsonrpc::ErrorData;
use crate::jsonrpc::ErrorDataView;
use crate::jsonrpc::IdView;
use crate::jsonrpc::RequestId;
use crate::jsonrpc::HEADER_MISMATCH;
use crate::jsonrpc::INTERNAL_ERROR;
use crate::jsonrpc::INVALID_PARAMS;
use crate::jsonrpc::METHOD_NOT_FOUND;
use crate::jsonrpc::RESOURCE_EXHAUSTED;
use crate::jsonrpc::UNSUPPORTED_PROTOCOL_VERSION;
use crate::methods::known_versions;
use crate::methods::known_versions_spec;
use crate::text::decimal;
use crate::text::decimal_text;
use crate::text::join;
use vstd::prelude::*;
use vstd::string::StringExecFns;
use vstd::utf8::encode_utf8;

verus! {

/// An HTTP status: a number of three digits.
#[derive(Clone, Copy, Debug, PartialEq, Eq)]
pub struct StatusCode {
    code: u16,
}

/// The standard phrase of an HTTP status, such as `Not Found`.
pub uninterp spec fn status_phrase(code: u16) -> Seq<char>;

/// An HTTP status with its standard phrase, such as `404 Not Found`.
pub open spec fn status_text(code: u16) -> Seq<char> {
    decimal(code as nat) + " "@ + status_phrase(code)
}

/// Calls `to_string` of `http::StatusCode`. Claimed: the text is the number and, after a space, a
/// phrase that is a function of the number.
#[verifier::external_body]
fn render_status(code: u16) -> (r: String)
    requires
        100 <= code < 1000,
    ensures
        r@ == decimal(code as nat) + " "@ + status_phrase(code),
{
    http::StatusCode::from_u16(code).expect("a number of three digits").to_string()
}

impl StatusCode {
    #[verifier::type_invariant]
    closed spec fn valid(self) -> bool {
        100 <= self.code < 1000
    }

    /// The number of the status.
    pub closed spec fn number(self) -> u16 {
        self.code
    }

    /// The status of this number, if it is one.
    pub fn new(code: u16) -> (r: Option<Self>)
        ensures
            r is Some <==> 100 <= code < 1000,
            r matches Some(status) ==> status.number() == code,
    {
        if code >= 100 && code < 1000 {
            Some(StatusCode { code })
        } else {
            None
        }
    }

    /// The number of the status.
    pub fn as_u16(&self) -> (r: u16)
        ensures
            r == self.number(),
            100 <= r < 1000,
    {
        proof {
            use_type_invariant(self);
        }
        self.code
    }

    /// The status with its standard phrase.
    pub fn to_string(&self) -> (r: String)
        ensures
            r@ == status_text(self.number()),
    {
        proof {
            use_type_invariant(self);
        }
        render_status(self.code)
    }
}

/// What is left of a quota.
#[derive(Clone, Copy, Debug, PartialEq, Eq)]
pub struct RateLimitStatus {
    pub limit: u64,
    pub remaining: u64,
    pub reset_seconds: u64,
}

/// Why an MCP request failed.
#[derive(Debug, PartialEq)]
pub enum Error {
    MethodNotAllowed,
    GetStreamNotSupported,
    InvalidAccept,
    InvalidAcceptGet,
    InvalidContentType,
    Deserialize(String),
    PayloadTooLarge(usize),
    StartSession(String),
    UnknownSession,
    MissingSessionHeader,
    SessionIdRequired,
    InvalidSessionIdHeader,
    InvalidProtocolVersion,
    UnsupportedVersion {
        request_id: Option<RequestId>,
        version: String,
        include_supported_versions: bool,
    },
    VersionMismatch(Option<RequestId>),
    HeaderBodyMismatch(Option<RequestId>, &'static str),
    InvalidRoutingHeader(Option<RequestId>, &'static str),
    MethodNotFound(Option<RequestId>, String),
    InvalidParams(Option<RequestId>, String),
    Stdio(String),
    UpstreamError(StatusCode),
    SendError(Option<RequestId>, String),
    /// Nothing that could serve the request is available, or the transport cannot do it. The
    /// request itself was well-formed, so this is an internal error.
    Unavailable(Option<RequestId>, String),
    /// The text does not say that something is not authorized: its existence is hidden.
    Authorization(RequestId, String, String),
    McpGuardrails {
        request_id: RequestId,
        rej: ErrorData,
        was_tool_call: bool,
        downstream_modern: bool,
    },
    RateLimited {
        request_id: RequestId,
        status: Option<RateLimitStatus>,
        message: Option<String>,
        headers: Vec<(String, Vec<u8>)>,
        was_tool_call: bool,
        downstream_modern: bool,
    },
    InvalidSessionIdQuery,
    EstablishGetStream(String),
    ForwardLegacySse(String),
    CreateSseUrl(String),
    OpenAPI(String),
    NoBackends,
}

impl Error {
    /// How an error reads.
    pub open spec fn text(self) -> Seq<char> {
        match self {
            Error::MethodNotAllowed => "method not allowed; must be GET, POST, or DELETE"@,
            Error::GetStreamNotSupported => "GET event stream is not supported by any upstream"@,
            Error::InvalidAccept =>
                "client must accept both application/json and text/event-stream"@,
            Error::InvalidAcceptGet => "client must accept text/event-stream"@,
            Error::InvalidContentType => "client must send application/json"@,
            Error::Deserialize(e) => "fail to deserialize request body: "@ + e@,
            Error::PayloadTooLarge(n) => "request body exceeds the maximum buffer size of "@
                + decimal(n as nat) + " bytes"@,
            Error::StartSession(e) => "fail to create session: "@ + e@,
            Error::UnknownSession => "session not found"@,
            Error::MissingSessionHeader =>
                "session header is required for non-initialize requests"@,
            Error::SessionIdRequired => "session ID is required"@,
            Error::InvalidSessionIdHeader => "invalid session ID header"@,
            Error::InvalidProtocolVersion => "invalid MCP protocol version header"@,
            Error::UnsupportedVersion { version, .. } => "unsupported MCP protocol version: "@
                + version@,
            Error::VersionMismatch(_) => "MCP protocol version header/body mismatch"@,
            Error::HeaderBodyMismatch(_, header) => header@ + " header/body mismatch"@,
            Error::InvalidRoutingHeader(_, header) => "invalid MCP routing header: "@ + header@,
            Error::MethodNotFound(_, method) => "method not found: "@ + method@,
            Error::InvalidParams(_, e) => "invalid request parameters: "@ + e@,
            Error::Stdio(e) => "failed to start stdio server: "@ + e@,
            Error::UpstreamError(status) => "upstream error: "@ + status_text(status.number()),
            Error::SendError(_, e) => "failed to send message: "@ + e@,
            Error::Unavailable(_, e) => e@,
            Error::Authorization(_, what, name) => "Unknown "@ + what@ + ": "@ + name@,
            Error::McpGuardrails { rej, .. } => "mcpGuardrails rejected: "@ + rej.message@,
            Error::RateLimited { message, .. } => match message {
                Some(m) => m@,
                None => "rate limit exceeded"@,
            },
            Error::InvalidSessionIdQuery => "failed to process session_id query parameter"@,
            Error::EstablishGetStream(e) => "failed to establish get stream: "@ + e@,
            Error::ForwardLegacySse(e) => "failed to forward message to legacy SSE: "@ + e@,
            Error::CreateSseUrl(e) => "failed to create SSE url: "@ + e@,
            Error::OpenAPI(e) => "failed to parse openapi: "@ + e@,
            Error::NoBackends => "no backends configured"@,
        }
    }

    /// How the error reads.
    pub fn to_string(&self) -> (r: String)
        ensures
            r@ == self.text(),
    {
        match self {
            Error::MethodNotAllowed => "method not allowed; must be GET, POST, or DELETE".to_owned(),
            Error::GetStreamNotSupported => "GET event stream is not supported by any upstream".to_owned(),
            Error::InvalidAccept => "client must accept both application/json and text/event-stream".to_owned(),
            Error::InvalidAcceptGet => "client must accept text/event-stream".to_owned(),
            Error::InvalidContentType => "client must send application/json".to_owned(),
            Error::Deserialize(e) => join("fail to deserialize request body: ", e.as_str()),
            Error::PayloadTooLarge(n) => {
                let mut s = join(
                    "request body exceeds the maximum buffer size of ",
                    decimal_text(*n as u64).as_str(),
                );
                s.append(" bytes");
                s
            },
            Error::StartSession(e) => join("fail to create session: ", e.as_str()),
            Error::UnknownSession => "session not found".to_owned(),
            Error::MissingSessionHeader => "session header is required for non-initialize requests".to_owned(),
            Error::SessionIdRequired => "session ID is required".to_owned(),
            Error::InvalidSessionIdHeader => "invalid session ID header".to_owned(),
            Error::InvalidProtocolVersion => "invalid MCP protocol version header".to_owned(),
            Error::UnsupportedVersion { version, .. } => join(
                "unsupported MCP protocol version: ",
                version.as_str(),
            ),
            Error::VersionMismatch(_) => "MCP protocol version header/body mismatch".to_owned(),
            Error::HeaderBodyMismatch(_, header) => join(header, " header/body mismatch"),
            Error::InvalidRoutingHeader(_, header) => join("invalid MCP routing header: ", header),
            Error::MethodNotFound(_, method) => join("method not found: ", method.as_str()),
            Error::InvalidParams(_, e) => join("invalid request parameters: ", e.as_str()),
            Error::Stdio(e) => join("failed to start stdio server: ", e.as_str()),
            Error::UpstreamError(status) => join("upstream error: ", status.to_string().as_str()),
            Error::SendError(_, e) => join("failed to send message: ", e.as_str()),
            Error::Unavailable(_, e) => e.clone(),
            Error::Authorization(_, what, name) => {
                let mut s = join("Unknown ", what.as_str());
                s.append(": ");
                s.append(name.as_str());
                s
            },
            Error::McpGuardrails { rej, .. } => join(
                "mcpGuardrails rejected: ",
                rej.message.as_str(),
            ),
            Error::RateLimited { message, .. } => match message {
                Some(m) => m.clone(),
                None => "rate limit exceeded".to_owned(),
            },
            Error::InvalidSessionIdQuery => "failed to process session_id query parameter".to_owned(),
            Error::EstablishGetStream(e) => join("failed to establish get stream: ", e.as_str()),
            Error::ForwardLegacySse(e) => join(
                "failed to forward message to legacy SSE: ",
                e.as_str(),
            ),
            Error::CreateSseUrl(e) => join("failed to create SSE url: ", e.as_str()),
            Error::OpenAPI(e) => join("failed to parse openapi: ", e.as_str()),
            Error::NoBackends => "no backends configured".to_owned(),
        }
    }
}

/// How an error is told to the client that made the request.
#[derive(Debug, PartialEq)]
pub enum Reply {
    /// As the result of its tool call, with or without the type of the result.
    ToolError { request_id: RequestId, text: String, typed: bool },
    /// As a JSON-RPC error.
    Error { request_id: RequestId, error: ErrorData },
}

/// How an error is told, as plain content.
pub enum ReplyView {
    ToolError { request_id: IdView, text: Seq<char>, typed: bool },
    Error { request_id: IdView, error: ErrorDataView },
}

impl View for Reply {
    type V = ReplyView;

    open spec fn view(&self) -> ReplyView {
        match self {
            Reply::ToolError { request_id, text, typed } => ReplyView::ToolError {
                request_id: request_id@,
                text: text@,
                typed: *typed,
            },
            Reply::Error { request_id, error } => ReplyView::Error {
                request_id: request_id@,
                error: error@,
            },
        }
    }
}

impl DeepView for Reply {
    type V = ReplyView;

    open spec fn deep_view(&self) -> ReplyView {
        self.view()
    }
}

/// When to try again, in words.
pub open spec fn quota_note(status: RateLimitStatus) -> Seq<char> {
    " (retry after "@ + decimal(status.reset_seconds as nat) + "s; limit "@ + decimal(
        status.limit as nat,
    ) + ", remaining "@ + decimal(status.remaining as nat) + ")"@
}

/// When to try again, as the fields of a JSON object.
pub open spec fn quota_fields(status: RateLimitStatus) -> Seq<(Seq<char>, FieldView)> {
    seq![
        ("limit"@, FieldView::Unsigned(status.limit)),
        ("remaining"@, FieldView::Unsigned(status.remaining)),
        ("retryAfterSeconds"@, FieldView::Unsigned(status.reset_seconds)),
    ]
}

/// The versions to choose from, as the fields of a JSON object.
pub open spec fn version_fields(requested: Seq<char>) -> Seq<(Seq<char>, FieldView)> {
    seq![
        ("supported"@, FieldView::Texts(known_versions_spec())),
        ("requested"@, FieldView::Text(requested)),
    ]
}

/// A JSON-RPC error without data.
pub open spec fn plain_error(request_id: IdView, code: i32, message: Seq<char>) -> ReplyView {
    ReplyView::Error { request_id, error: ErrorDataView { code, message, data: None } }
}

impl Error {
    /// How an error is told to the client: not at all where the request has no known ID.
    ///
    /// A tool call that hits a limit or is rejected by a guardrail has a failed result, so that
    /// the caller of the tool sees why; but an internal error of a guardrail looks like one of
    /// the protocol and stays one.
    pub open spec fn reply_spec(self) -> Option<ReplyView> {
        match self {
            Error::RateLimited {
                request_id,
                status,
                was_tool_call,
                downstream_modern,
                ..
            } => if was_tool_call {
                Some(
                    ReplyView::ToolError {
                        request_id: request_id@,
                        text: match status {
                            Some(status) => self.text() + quota_note(status),
                            None => self.text(),
                        },
                        typed: downstream_modern,
                    },
                )
            } else {
                Some(
                    ReplyView::Error {
                        request_id: request_id@,
                        error: ErrorDataView {
                            code: RESOURCE_EXHAUSTED,
                            message: self.text(),
                            data: match status {
                                Some(status) => Some(json_object_text(quota_fields(status))),
                                None => None,
                            },
                        },
                    },
                )
            },
            Error::McpGuardrails { request_id, rej, was_tool_call, downstream_modern } => if was_tool_call
                && rej.code != INTERNAL_ERROR {
                Some(
                    ReplyView::ToolError {
                        request_id: request_id@,
                        text: rej.message@,
                        typed: downstream_modern,
                    },
                )
            } else {
                Some(ReplyView::Error { request_id: request_id@, error: rej@ })
            },
            Error::UnsupportedVersion {
                request_id: Some(id),
                version,
                include_supported_versions,
            } => Some(
                ReplyView::Error {
                    request_id: id@,
                    error: ErrorDataView {
                        code: UNSUPPORTED_PROTOCOL_VERSION,
                        message: self.text(),
                        data: if include_supported_versions {
                            Some(json_object_text(version_fields(version@)))
                        } else {
                            None
                        },
                    },
                },
            ),
            Error::SendError(Some(id), _) => Some(plain_error(id@, INTERNAL_ERROR, self.text())),
            Error::Unavailable(Some(id), _) => Some(plain_error(id@, INTERNAL_ERROR, self.text())),
            Error::Authorization(id, _, _) => Some(plain_error(id@, INVALID_PARAMS, self.text())),
            Error::VersionMismatch(Some(id)) => Some(
                plain_error(id@, HEADER_MISMATCH, self.text()),
            ),
            Error::HeaderBodyMismatch(Some(id), _) => Some(
                plain_error(id@, HEADER_MISMATCH, self.text()),
            ),
            Error::InvalidRoutingHeader(Some(id), _) => Some(
                plain_error(id@, HEADER_MISMATCH, self.text()),
            ),
            Error::MethodNotFound(Some(id), _) => Some(
                plain_error(id@, METHOD_NOT_FOUND, self.text()),
            ),
            Error::InvalidParams(Some(id), _) => Some(plain_error(id@, INVALID_PARAMS, self.text())),
            _ => None,
        }
    }

    /// The fields of the data that go with an error of the gateway's own, where there are any.
    pub open spec fn data_fields(self) -> Option<Seq<(Seq<char>, FieldView)>> {
        match self {
            Error::RateLimited { status: Some(status), was_tool_call, .. } => if was_tool_call {
                None
            } else {
                Some(quota_fields(status))
            },
            Error::UnsupportedVersion {
                request_id: Some(_),
                version,
                include_supported_versions,
            } => if include_supported_versions {
                Some(version_fields(version@))
            } else {
                None
            },
            _ => None,
        }
    }

    /// The error is told as the result of a tool call.
    pub open spec fn has_result(self) -> bool {
        match self {
            Error::RateLimited { was_tool_call, .. } => was_tool_call,
            Error::McpGuardrails { rej, was_tool_call, .. } => was_tool_call && rej.code
                != INTERNAL_ERROR,
            _ => false,
        }
    }

    /// The member of the response that tells the error.
    pub open spec fn outcome(self) -> Seq<char> {
        if self.has_result() {
            "result"@
        } else {
            "error"@
        }
    }

    /// A guardrail's data are its own, and may be nested at will; there are none of those.
    pub open spec fn without_foreign_data(self) -> bool {
        match self {
            Error::McpGuardrails { rej, .. } => rej.data is None,
            _ => true,
        }
    }

    fn plain_reply(&self, request_id: &RequestId, code: i32) -> (r: Reply)
        ensures
            r@ == plain_error(request_id@, code, self.text()),
    {
        Reply::Error {
            request_id: request_id.clone(),
            error: ErrorData { code, message: self.to_string(), data: None },
        }
    }

    /// How the error is told to the client that made the request.
    pub fn reply(&self) -> (r: Option<Reply>)
        ensures
            r.deep_view() == self.reply_spec(),
            self.data_fields() matches Some(fields) ==> {
                &&& r matches Some(Reply::Error { error, .. })
                &&& error@.data matches Some(text)
                &&& spells(encode_utf8(text), fields)
            },
            r matches Some(Reply::Error { error, .. }) ==> self.without_foreign_data()
                ==> flat_data(error@.data),
    {
        match self {
            Error::RateLimited {
                request_id,
                status,
                was_tool_call,
                downstream_modern,
                ..
            } => if *was_tool_call {
                let mut text = self.to_string();
                if let Some(status) = status {
                    append_quota_note(&mut text, status);
                }
                Some(
                    Reply::ToolError {
                        request_id: request_id.clone(),
                        text,
                        typed: *downstream_modern,
                    },
                )
            } else {
                let data = match status {
                    Some(status) => Some(quota_value(status)),
                    None => None,
                };
                Some(
                    Reply::Error {
                        request_id: request_id.clone(),
                        error: ErrorData {
                            code: RESOURCE_EXHAUSTED,
                            message: self.to_string(),
                            data,
                        },
                    },
                )
            },
            Error::McpGuardrails { request_id, rej, was_tool_call, downstream_modern } => if *was_tool_call
                && rej.code != INTERNAL_ERROR {
                Some(
                    Reply::ToolError {
                        request_id: request_id.clone(),
                        text: rej.message.clone(),
                        typed: *downstream_modern,
                    },
                )
            } else {
                Some(Reply::Error { request_id: request_id.clone(), error: rej.clone() })
            },
            Error::UnsupportedVersion {
                request_id: Some(id),
                version,
                include_supported_versions,
            } => {
                let data = if *include_supported_versions {
                    Some(versions_value(version.as_str()))
                } else {
                    None
                };
                Some(
                    Reply::Error {
                        request_id: id.clone(),
                        error: ErrorData {
                            code: UNSUPPORTED_PROTOCOL_VERSION,
                            message: self.to_string(),
                            data,
                        },
                    },
                )
            },
            Error::SendError(Some(id), _) => Some(self.plain_reply(id, INTERNAL_ERROR)),
            Error::Unavailable(Some(id), _) => Some(self.plain_reply(id, INTERNAL_ERROR)),
            Error::Authorization(id, _, _) => Some(self.plain_reply(id, INVALID_PARAMS)),
            Error::VersionMismatch(Some(id)) => Some(self.plain_reply(id, HEADER_MISMATCH)),
            Error::HeaderBodyMismatch(Some(id), _) => Some(self.plain_reply(id, HEADER_MISMATCH)),
            Error::InvalidRoutingHeader(Some(id), _) => Some(
                self.plain_reply(id, HEADER_MISMATCH),
            ),
            Error::MethodNotFound(Some(id), _) => Some(self.plain_reply(id, METHOD_NOT_FOUND)),
            Error::InvalidParams(Some(id), _) => Some(self.plain_reply(id, INVALID_PARAMS)),
            _ => None,
        }
    }

    /// The body that tells the error to the client, if it is told one.
    pub fn jsonrpc_error_body(&self) -> (r: Option<String>)
        ensures
            r.deep_view() == body_spec(self.reply_spec()),
            self.data_fields() matches Some(fields) ==> r is Some && spells(
                encode_utf8(json_object_text(fields)),
                fields,
            ),
            r matches Some(body) ==> json_fields(encode_utf8(body@)) is Some ==> is_response(
                body@,
                self.request()->0,
                self.outcome(),
            ),
            r matches Some(body) ==> self.has_result() || self.without_foreign_data()
                ==> is_response(body@, self.request()->0, self.outcome()),
    {
        match self.reply() {
            None => None,
            Some(Reply::ToolError { request_id, text, typed }) => tool_error_body(
                &request_id,
                text,
                typed,
            ),
            Some(Reply::Error { request_id, error }) => render_error_response(&request_id, &error),
        }
    }
}

/// The body of a reply.
pub open spec fn body_spec(reply: Option<ReplyView>) -> Option<Seq<char>> {
    match reply {
        None => None,
        Some(ReplyView::ToolError { request_id, text, typed }) => Some(
            tool_error_text(request_id, text, typed),
        ),
        Some(ReplyView::Error { request_id, error }) => Some(
            error_response_text(request_id, error),
        ),
    }
}

/// The response to a tool call that failed with this text. Only clients of the modern era know
/// the type of a result.
pub fn tool_error_body(request_id: &RequestId, text: String, downstream_modern: bool) -> (r: Option<
    String,
>)
    ensures
        r.deep_view() == Some(tool_error_text(request_id@, text@, downstream_modern)),
        r matches Some(body) ==> is_response(body@, request_id@, "result"@),
{
    render_tool_error(request_id, text.as_str(), downstream_modern)
}

fn append_quota_note(text: &mut String, status: &RateLimitStatus)
    ensures
        final(text)@ == old(text)@ + quota_note(*status),
{
    let ghost before = text@;
    text.append(" (retry after ");
    text.append(decimal_text(status.reset_seconds).as_str());
    text.append("s; limit ");
    text.append(decimal_text(status.limit).as_str());
    text.append(", remaining ");
    text.append(decimal_text(status.remaining).as_str());
    text.append(")");
    assert(text@ =~= before + quota_note(*status));
}

fn quota_value(status: &RateLimitStatus) -> (r: serde_json::Value)
    ensures
        optional_json(Some(r)) == Some(json_object_text(quota_fields(*status))),
        distinct_keys(quota_fields(*status)),
        spells(encode_utf8(json_object_text(quota_fields(*status))), quota_fields(*status)),
{
    let mut fields: Vec<(String, Field)> = Vec::new();
    fields.push(("limit".to_owned(), Field::Unsigned(status.limit)));
    fields.push(("remaining".to_owned(), Field::Unsigned(status.remaining)));
    fields.push(("retryAfterSeconds".to_owned(), Field::Unsigned(status.reset_seconds)));
    assert(fields.deep_view() =~= quota_fields(*status));
    proof {
        reveal_strlit("limit");
        reveal_strlit("remaining");
        reveal_strlit("retryAfterSeconds");
        assert("limit"@.len() == 5 && "remaining"@.len() == 9 && "retryAfterSeconds"@.len() == 17);
    }
    object_value(&fields)
}

fn versions_value(requested: &str) -> (r: serde_json::Value)
    ensures
        optional_json(Some(r)) == Some(json_object_text(version_fields(requested@))),
        distinct_keys(version_fields(requested@)),
        spells(
            encode_utf8(json_object_text(version_fields(requested@))),
            version_fields(requested@),
        ),
{
    let mut fields: Vec<(String, Field)> = Vec::new();
    fields.push(("supported".to_owned(), Field::Texts(known_versions())));
    fields.push(("requested".to_owned(), Field::Text(requested.to_owned())));
    assert(fields.deep_view() =~= version_fields(requested@));
    proof {
        reveal_strlit("supported");
        reveal_strlit("requested");
        assert("supported"@[0] == 's' && "requested"@[0] == 'r');
    }
    object_value(&fields)
}

impl Error {
    /// The request that an error belongs to, where that is known.
    pub open spec fn request(self) -> Option<IdView> {
        match self {
            Error::UnsupportedVersion { request_id, .. } => request_id.deep_view(),
            Error::VersionMismatch(request_id) => request_id.deep_view(),
            Error::HeaderBodyMismatch(request_id, _) => request_id.deep_view(),
            Error::InvalidRoutingHeader(request_id, _) => request_id.deep_view(),
            Error::MethodNotFound(request_id, _) => request_id.deep_view(),
            Error::InvalidParams(request_id, _) => request_id.deep_view(),
            Error::SendError(request_id, _) => request_id.deep_view(),
            Error::Unavailable(request_id, _) => request_id.deep_view(),
            Error::Authorization(request_id, _, _) => Some(request_id@),
            Error::McpGuardrails { request_id, .. } => Some(request_id@),
            Error::RateLimited { request_id, .. } => Some(request_id@),
            _ => None,
        }
    }
}

/// The request that a reply answers.
pub open spec fn answers(reply: ReplyView) -> IdView {
    match reply {
        ReplyView::ToolError { request_id, .. } => request_id,
        ReplyView::Error { request_id, .. } => request_id,
    }
}

/// An error is told to the client exactly where it belongs to a known request, and what is told
/// answers that request.
pub proof fn replies_answer_their_request(error: Error)
    ensures
        error.reply_spec() is Some <==> error.request() is Some,
        error.reply_spec() matches Some(reply) ==> error.request() == Some(answers(reply)),
        body_spec(error.reply_spec()) is Some <==> error.request() is Some,
        error.reply_spec() matches Some(ReplyView::ToolError { .. }) <==> error.has_result(),
{
}

/// A tool call that hits a limit has a failed result; any other request that hits one has a
/// JSON-RPC error that says so by its code.
pub proof fn limits_fail_tool_calls_softly(error: Error)
    requires
        error is RateLimited,
    ensures
        error->RateLimited_was_tool_call ==> error.reply_spec() matches Some(
            ReplyView::ToolError { .. },
        ),
        !error->RateLimited_was_tool_call ==> (error.reply_spec() matches Some(
            ReplyView::Error { error, .. },
        ) && error.code == RESOURCE_EXHAUSTED),
{
}

/// What a guardrail rejects reaches the client as the guardrail put it: a tool call fails with
/// its message, unless it is an internal error; anything else has its error, unchanged.
pub proof fn rejections_pass_through(error: Error)
    requires
        error is McpGuardrails,
    ensures
        ({
            let rej = error->McpGuardrails_rej@;
            if error->McpGuardrails_was_tool_call && rej.code != INTERNAL_ERROR {
                error.reply_spec() matches Some(ReplyView::ToolError { text, .. }) && text
                    == rej.message
            } else {
                error.reply_spec() matches Some(ReplyView::Error { error, .. }) && error == rej
            }
        }),
{
}

} // verus!
