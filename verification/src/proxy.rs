//! Failures of the proxy around MCP, and how those that hit a limit become MCP errors.
use crate::error::answers;
use crate::error::status_text;
use crate::error::Error;
use crate::error::RateLimitStatus;
use crate::error::ReplyView;
use crate::error::StatusCode;
use crate::jsonrpc::client_request;
use crate::jsonrpc::parse_client_request;
use crate::jsonrpc::IdView;
use crate::jsonrpc::RequestId;
use crate::methods::is_modern_version;
use crate::methods::is_modern_version_spec;
use crate::text::join;
use crate::text::lossy_text;
use crate::text::str_eq;
use crate::text::utf8_lossy;
use vstd::prelude::*;

verus! {

/// Why the proxy failed.
#[derive(Debug, PartialEq)]
pub enum ProxyError {
    /// An MCP request failed.
    MCP(Error),
    /// A limit that the gateway keeps itself.
    RateLimitExceeded { limit: u64, remaining: u64, reset_seconds: u64 },
    /// A limit that a service told of, with the reply of the service.
    RemoteRateLimitExceeded {
        status: Option<RateLimitStatus>,
        raw_body: Vec<u8>,
        response_headers: Vec<(String, Vec<u8>)>,
    },
    /// Anything else, in words.
    Other(String),
}

/// What the proxy answers in place of a result.
#[derive(Debug, PartialEq)]
pub enum ProxyResponse<D> {
    /// A failure.
    Error(ProxyError),
    /// A response of its own.
    DirectResponse(D),
}

/// The protocol that a request speaks.
#[derive(Clone, Copy, Debug, PartialEq, Eq)]
pub enum RequestProtocol {
    Mcp,
    Other,
}

impl From<Error> for ProxyError {
    fn from(value: Error) -> (r: Self) {
        ProxyError::MCP(value)
    }
}

impl vstd::std_specs::convert::FromSpecImpl<Error> for ProxyError {
    open spec fn obeys_from_spec() -> bool {
        true
    }

    open spec fn from_spec(value: Error) -> Self {
        ProxyError::MCP(value)
    }
}

impl<T> From<Error> for Result<T, ProxyError> {
    fn from(val: Error) -> (r: Self) {
        Err(ProxyError::MCP(val))
    }
}

impl<T> vstd::std_specs::convert::FromSpecImpl<Error> for Result<T, ProxyError> {
    open spec fn obeys_from_spec() -> bool {
        true
    }

    open spec fn from_spec(val: Error) -> Self {
        Err(ProxyError::MCP(val))
    }
}

/// Why a call to an upstream failed.
#[derive(Debug, PartialEq)]
pub enum ClientError {
    /// The upstream answered with this status.
    Status(StatusCode),
    /// The call itself failed, in words.
    General(String),
    /// The proxy failed.
    Proxy(ProxyError),
}

impl From<ProxyError> for ClientError {
    fn from(value: ProxyError) -> (r: Self) {
        ClientError::Proxy(value)
    }
}

impl vstd::std_specs::convert::FromSpecImpl<ProxyError> for ClientError {
    open spec fn obeys_from_spec() -> bool {
        true
    }

    open spec fn from_spec(value: ProxyError) -> Self {
        ClientError::Proxy(value)
    }
}

impl ClientError {
    /// A call that failed for this reason.
    pub fn new(error: String) -> (r: Self)
        ensures
            r == ClientError::General(error),
    {
        ClientError::General(error)
    }

    /// How an error reads, where the proxy's own failure reads `proxy`.
    pub open spec fn text(self, proxy: Seq<char>) -> Seq<char> {
        match self {
            ClientError::Status(status) => "http request failed with code: "@ + status_text(
                status.number(),
            ),
            ClientError::General(e) => "http request failed: "@ + e@,
            ClientError::Proxy(_) => "http request failed: "@ + proxy,
        }
    }

    /// How the error reads. `proxy` is how the proxy's own failure reads; only a `Proxy` error
    /// shows it.
    pub fn to_string(&self, proxy: &str) -> (r: String)
        ensures
            r@ == self.text(proxy@),
    {
        match self {
            ClientError::Status(status) => join(
                "http request failed with code: ",
                status.to_string().as_str(),
            ),
            ClientError::General(e) => join("http request failed: ", e.as_str()),
            ClientError::Proxy(_) => join("http request failed: ", proxy),
        }
    }
}

/// What an MCP error that tells of a limit holds.
#[verifier::ext_equal]
pub struct LimitView {
    pub request_id: IdView,
    pub status: Option<RateLimitStatus>,
    pub message: Option<Seq<char>>,
    pub headers: Seq<(Seq<char>, Seq<u8>)>,
    pub was_tool_call: bool,
    pub downstream_modern: bool,
}

/// What an error holds that tells an MCP client of a limit.
pub open spec fn limit_view(err: ProxyError) -> Option<LimitView> {
    match err {
        ProxyError::MCP(
            Error::RateLimited {
                request_id,
                status,
                message,
                headers,
                was_tool_call,
                downstream_modern,
            },
        ) => Some(
            LimitView {
                request_id: request_id@,
                status,
                message: message.deep_view(),
                headers: headers.deep_view(),
                was_tool_call,
                downstream_modern,
            },
        ),
        _ => None,
    }
}

/// The failure is a limit.
pub open spec fn is_limit(err: ProxyError) -> bool {
    err is RateLimitExceeded || err is RemoteRateLimitExceeded
}

/// The client speaks a version of the modern era.
pub open spec fn speaks_modern(version: Option<Seq<char>>) -> bool {
    match version {
        Some(version) => is_modern_version_spec(version),
        None => false,
    }
}

/// What an MCP client is told of a limit: that of the gateway with the headers that go with it,
/// that of a service with what the service said.
pub open spec fn converted(
    err: ProxyError,
    request_id: IdView,
    method: Seq<char>,
    version: Option<Seq<char>>,
    local_headers: Seq<(Seq<char>, Seq<u8>)>,
) -> Option<LimitView> {
    let was_tool_call = method == "tools/call"@;
    let downstream_modern = speaks_modern(version);
    match err {
        ProxyError::RateLimitExceeded { limit, remaining, reset_seconds } => Some(
            LimitView {
                request_id,
                status: Some(RateLimitStatus { limit, remaining, reset_seconds }),
                message: None,
                headers: local_headers,
                was_tool_call,
                downstream_modern,
            },
        ),
        ProxyError::RemoteRateLimitExceeded { status, raw_body, response_headers } => Some(
            LimitView {
                request_id,
                status,
                message: if raw_body@.len() == 0 {
                    None
                } else {
                    Some(utf8_lossy(raw_body@))
                },
                headers: response_headers.deep_view(),
                was_tool_call,
                downstream_modern,
            },
        ),
        _ => None,
    }
}

/// Turns a limit into an MCP error; any other failure stays as it is. `version` is the protocol
/// version that the request's header names, `local_headers` are the headers that go with a limit
/// of the gateway's own.
pub fn convert_limit(
    err: ProxyError,
    request_id: RequestId,
    method: &str,
    version: Option<&str>,
    local_headers: Vec<(String, Vec<u8>)>,
) -> (r: ProxyError)
    ensures
        is_limit(err) ==> limit_view(r) == converted(
            err,
            request_id@,
            method@,
            version.deep_view(),
            local_headers.deep_view(),
        ),
        !is_limit(err) ==> r == err,
{
    let was_tool_call = str_eq(method, "tools/call");
    let downstream_modern = match version {
        Some(version) => is_modern_version(version),
        None => false,
    };
    match err {
        ProxyError::RateLimitExceeded { limit, remaining, reset_seconds } => ProxyError::from(
            Error::RateLimited {
                request_id,
                status: Some(RateLimitStatus { limit, remaining, reset_seconds }),
                message: None,
                headers: local_headers,
                was_tool_call,
                downstream_modern,
            },
        ),
        ProxyError::RemoteRateLimitExceeded { status, raw_body, response_headers } => {
            let message = if raw_body.len() == 0 {
                None
            } else {
                Some(lossy_text(raw_body.as_slice()))
            };
            ProxyError::from(
                Error::RateLimited {
                    request_id,
                    status,
                    message,
                    headers: response_headers,
                    was_tool_call,
                    downstream_modern,
                },
            )
        },
        e => e,
    }
}

/// The request spoke MCP and hit a limit.
pub open spec fn limited<T, D>(res: Result<T, ProxyResponse<D>>, protocol: RequestProtocol) -> bool {
    &&& protocol is Mcp
    &&& res matches Err(ProxyResponse::Error(err)) && is_limit(err)
}

/// Whether the request's body has to be read to know what to answer.
pub fn needs_body<T, D>(res: &Result<T, ProxyResponse<D>>, protocol: RequestProtocol) -> (r: bool)
    ensures
        r == limited(*res, protocol),
{
    match (protocol, res) {
        (RequestProtocol::Mcp, Err(ProxyResponse::Error(ProxyError::RateLimitExceeded { .. }))) => true,
        (
            RequestProtocol::Mcp,
            Err(ProxyResponse::Error(ProxyError::RemoteRateLimitExceeded { .. })),
        ) => true,
        _ => false,
    }
}

/// The request that a body spells, where it could be read whole.
pub open spec fn body_request(body: Option<Seq<u8>>) -> Option<(IdView, Seq<char>)> {
    match body {
        Some(bytes) => client_request(bytes),
        None => None,
    }
}

/// A limit that an MCP request hits becomes an MCP error: a tool call then has a failed result,
/// any other request a JSON-RPC error. All else stays as it is, and so does the limit where the
/// body spells no request. `body` is the request's body, where it could be read whole.
pub fn maybe_convert_mcp_error<T, D>(
    res: Result<T, ProxyResponse<D>>,
    protocol: RequestProtocol,
    body: Option<&[u8]>,
    version: Option<&str>,
    local_headers: Vec<(String, Vec<u8>)>,
) -> (r: Result<T, ProxyResponse<D>>)
    ensures
        !limited(res, protocol) ==> r == res,
        body_request(body.deep_view()) is None ==> r == res,
        body_request(body.deep_view()) matches Some((id, method)) ==> limited(res, protocol) ==> {
            &&& r matches Err(ProxyResponse::Error(err))
            &&& limit_view(err) == converted(
                res->Err_0->Error_0,
                id,
                method,
                version.deep_view(),
                local_headers.deep_view(),
            )
        },
{
    if !needs_body(&res, protocol) {
        return res;
    }
    let request = match body {
        Some(bytes) => {
            assert(bytes.deep_view() =~= bytes@);
            parse_client_request(bytes)
        },
        None => None,
    };
    match (request, res) {
        (Some((request_id, method)), Err(ProxyResponse::Error(err))) => Err(
            ProxyResponse::Error(
                convert_limit(err, request_id, method.as_str(), version, local_headers),
            ),
        ),
        (_, res) => res,
    }
}

/// A client whose request hit a limit is answered: the answer names the request, and a tool
/// call, and nothing else, has a failed result.
pub proof fn limited_requests_are_answered(
    limit: ProxyError,
    request_id: IdView,
    method: Seq<char>,
    version: Option<Seq<char>>,
    local_headers: Seq<(Seq<char>, Seq<u8>)>,
    error: Error,
)
    requires
        is_limit(limit),
        limit_view(ProxyError::MCP(error)) == converted(
            limit,
            request_id,
            method,
            version,
            local_headers,
        ),
    ensures
        error.reply_spec() matches Some(reply) && {
            &&& answers(reply) == request_id
            &&& reply is ToolError <==> method == "tools/call"@
            &&& reply matches ReplyView::ToolError { typed, .. } ==> typed == speaks_modern(version)
        },
{
}

} // verus!
