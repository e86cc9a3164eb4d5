use agentgateway_mcp::error::tool_error_body;
use agentgateway_mcp::error::Error;
use agentgateway_mcp::error::RateLimitStatus;
use agentgateway_mcp::error::Reply;
use agentgateway_mcp::error::StatusCode;
use agentgateway_mcp::jsonrpc::ErrorData;
use agentgateway_mcp::jsonrpc::RequestId;
use agentgateway_mcp::proxy::convert_limit;
use agentgateway_mcp::proxy::maybe_convert_mcp_error;
use agentgateway_mcp::proxy::needs_body;
use agentgateway_mcp::proxy::ClientError;
use agentgateway_mcp::proxy::ProxyError;
use agentgateway_mcp::proxy::ProxyResponse;
use agentgateway_mcp::proxy::RequestProtocol;

const QUOTA: RateLimitStatus = RateLimitStatus { limit: 10, remaining: 0, reset_seconds: 42 };
const CALL: &[u8] = br#"{"jsonrpc":"2.0","id":7,"method":"tools/call","params":{"name":"x"}}"#;
const LIST: &[u8] = br#"{"jsonrpc":"2.0","id":"q","method":"tools/list"}"#;

fn s(text: &str) -> String {
    text.to_string()
}

fn id() -> RequestId {
    RequestId::Number(7)
}

fn limited(was_tool_call: bool, downstream_modern: bool, status: Option<RateLimitStatus>) -> Error {
    Error::RateLimited {
        request_id: id(),
        status,
        message: None,
        headers: vec![],
        was_tool_call,
        downstream_modern,
    }
}

fn rejected(code: i32, was_tool_call: bool) -> Error {
    Error::McpGuardrails {
        request_id: RequestId::Text(s("g")),
        rej: ErrorData { code, message: s("no"), data: Some(serde_json::Value::from(1)) },
        was_tool_call,
        downstream_modern: false,
    }
}

#[test]
fn errors_read_as_they_should() {
    let ok = StatusCode::new(404).unwrap();
    let odd = StatusCode::new(799).unwrap();
    let cases = [
        (Error::MethodNotAllowed, "method not allowed; must be GET, POST, or DELETE"),
        (Error::GetStreamNotSupported, "GET event stream is not supported by any upstream"),
        (
            Error::InvalidAccept,
            "client must accept both application/json and text/event-stream",
        ),
        (Error::InvalidAcceptGet, "client must accept text/event-stream"),
        (Error::InvalidContentType, "client must send application/json"),
        (Error::Deserialize(s("e")), "fail to deserialize request body: e"),
        (
            Error::PayloadTooLarge(2097152),
            "request body exceeds the maximum buffer size of 2097152 bytes",
        ),
        (Error::StartSession(s("e")), "fail to create session: e"),
        (Error::UnknownSession, "session not found"),
        (
            Error::MissingSessionHeader,
            "session header is required for non-initialize requests",
        ),
        (Error::SessionIdRequired, "session ID is required"),
        (Error::InvalidSessionIdHeader, "invalid session ID header"),
        (Error::InvalidProtocolVersion, "invalid MCP protocol version header"),
        (
            Error::UnsupportedVersion {
                request_id: None,
                version: s("v"),
                include_supported_versions: true,
            },
            "unsupported MCP protocol version: v",
        ),
        (Error::VersionMismatch(None), "MCP protocol version header/body mismatch"),
        (Error::HeaderBodyMismatch(None, "Mcp-Name"), "Mcp-Name header/body mismatch"),
        (Error::InvalidRoutingHeader(None, "h"), "invalid MCP routing header: h"),
        (Error::MethodNotFound(None, s("m")), "method not found: m"),
        (Error::InvalidParams(None, s("e")), "invalid request parameters: e"),
        (Error::Stdio(s("e")), "failed to start stdio server: e"),
        (Error::UpstreamError(ok), "upstream error: 404 Not Found"),
        (Error::UpstreamError(odd), "upstream error: 799 <unknown status code>"),
        (Error::SendError(None, s("e")), "failed to send message: e"),
        (Error::Unavailable(None, s("e")), "e"),
        (Error::Authorization(id(), s("tool"), s("x")), "Unknown tool: x"),
        (rejected(1, true), "mcpGuardrails rejected: no"),
        (limited(true, true, Some(QUOTA)), "rate limit exceeded"),
        (Error::InvalidSessionIdQuery, "failed to process session_id query parameter"),
        (Error::EstablishGetStream(s("e")), "failed to establish get stream: e"),
        (Error::ForwardLegacySse(s("e")), "failed to forward message to legacy SSE: e"),
        (Error::CreateSseUrl(s("e")), "failed to create SSE url: e"),
        (Error::OpenAPI(s("e")), "failed to parse openapi: e"),
        (Error::NoBackends, "no backends configured"),
    ];
    for (error, text) in cases {
        assert_eq!(error.to_string(), text);
    }
}

#[test]
fn statuses_have_three_digits() {
    assert!(StatusCode::new(99).is_none());
    assert!(StatusCode::new(1000).is_none());
    assert_eq!(StatusCode::new(100).unwrap().as_u16(), 100);
    assert_eq!(StatusCode::new(999).unwrap().as_u16(), 999);
    assert_eq!(StatusCode::new(200).unwrap().to_string(), "200 OK");
}

#[test]
fn plain_errors_have_their_codes() {
    let cases = [
        (Error::SendError(Some(id()), s("e")), -32603),
        (Error::Unavailable(Some(id()), s("e")), -32603),
        (Error::Authorization(id(), s("tool"), s("x")), -32602),
        (Error::VersionMismatch(Some(id())), -32020),
        (Error::HeaderBodyMismatch(Some(id()), "h"), -32020),
        (Error::InvalidRoutingHeader(Some(id()), "h"), -32020),
        (Error::MethodNotFound(Some(id()), s("m")), -32601),
        (Error::InvalidParams(Some(id()), s("e")), -32602),
    ];
    for (error, code) in cases {
        let message = error.to_string();
        assert_eq!(
            error.reply(),
            Some(Reply::Error {
                request_id: id(),
                error: ErrorData { code, message: message.clone(), data: None },
            })
        );
        assert_eq!(
            error.jsonrpc_error_body().unwrap(),
            format!(
                r#"{{"jsonrpc":"2.0","id":7,"error":{{"code":{code},"message":"{message}"}}}}"#
            )
        );
    }
}

#[test]
fn bodies_have_one_outcome() {
    let cases = [
        (limited(true, true, Some(QUOTA)), true),
        (limited(false, true, Some(QUOTA)), false),
        (rejected(-32000, true), true),
        (rejected(-32603, true), false),
        (rejected(-32000, false), false),
        (Error::MethodNotFound(Some(id()), s("m")), false),
    ];
    for (error, has_result) in cases {
        let body = error.jsonrpc_error_body().unwrap();
        let body: serde_json::Map<String, serde_json::Value> = serde_json::from_str(&body).unwrap();
        assert_eq!(body.len(), 3);
        assert_eq!(body["jsonrpc"], "2.0");
        assert!(body.contains_key("id"));
        assert_eq!(body.contains_key("result"), has_result);
        assert_eq!(body.contains_key("error"), !has_result);
    }
}

#[test]
fn strings_in_bodies_are_escaped() {
    let error = Error::InvalidParams(Some(RequestId::Text(s("a\"b"))), s("line\n"));
    assert_eq!(
        error.jsonrpc_error_body().unwrap(),
        r#"{"jsonrpc":"2.0","id":"a\"b","error":{"code":-32602,"message":"invalid request parameters: line\n"}}"#
    );
    let error = Error::VersionMismatch(Some(RequestId::Number(i64::MIN)));
    let body = error.jsonrpc_error_body().unwrap();
    assert!(body.contains(r#""id":-9223372036854775808,"#), "{body}");
}

#[test]
fn errors_without_a_request_have_no_body() {
    for error in [
        Error::SendError(None, s("e")),
        Error::Unavailable(None, s("e")),
        Error::VersionMismatch(None),
        Error::HeaderBodyMismatch(None, "h"),
        Error::InvalidRoutingHeader(None, "h"),
        Error::MethodNotFound(None, s("m")),
        Error::InvalidParams(None, s("e")),
        Error::UnsupportedVersion {
            request_id: None,
            version: s("v"),
            include_supported_versions: true,
        },
        Error::NoBackends,
        Error::UnknownSession,
        Error::UpstreamError(StatusCode::new(500).unwrap()),
    ] {
        assert_eq!(error.reply(), None);
        assert_eq!(error.jsonrpc_error_body(), None);
    }
}

#[test]
fn unsupported_versions_list_the_supported() {
    let error = |include_supported_versions: bool| Error::UnsupportedVersion {
        request_id: Some(id()),
        version: s("1999-01-01"),
        include_supported_versions,
    };
    let body = error(true).jsonrpc_error_body().unwrap();
    let body: serde_json::Value = serde_json::from_str(&body).unwrap();
    assert_eq!(body["error"]["code"], -32022);
    assert_eq!(body["error"]["message"], "unsupported MCP protocol version: 1999-01-01");
    assert_eq!(body["error"]["data"]["requested"], "1999-01-01");
    let supported = serde_json::to_value(rmcp::model::ProtocolVersion::KNOWN_VERSIONS).unwrap();
    assert_eq!(body["error"]["data"]["supported"], supported);
    assert_eq!(
        error(false).jsonrpc_error_body().unwrap(),
        r#"{"jsonrpc":"2.0","id":7,"error":{"code":-32022,"message":"unsupported MCP protocol version: 1999-01-01"}}"#
    );
}

#[test]
fn limited_tool_calls_have_a_failed_result() {
    assert_eq!(
        limited(true, true, Some(QUOTA)).jsonrpc_error_body().unwrap(),
        r#"{"id":7,"jsonrpc":"2.0","result":{"content":[{"text":"rate limit exceeded (retry after 42s; limit 10, remaining 0)","type":"text"}],"isError":true,"resultType":"complete"}}"#
    );
    assert_eq!(
        limited(true, false, None).jsonrpc_error_body().unwrap(),
        r#"{"id":7,"jsonrpc":"2.0","result":{"content":[{"text":"rate limit exceeded","type":"text"}],"isError":true}}"#
    );
    assert_eq!(
        tool_error_body(&RequestId::Text(s("q")), s("t"), false).unwrap(),
        r#"{"id":"q","jsonrpc":"2.0","result":{"content":[{"text":"t","type":"text"}],"isError":true}}"#
    );
}

#[test]
fn other_limited_requests_have_an_error() {
    assert_eq!(
        limited(false, true, Some(QUOTA)).jsonrpc_error_body().unwrap(),
        r#"{"jsonrpc":"2.0","id":7,"error":{"code":-32003,"message":"rate limit exceeded","data":{"limit":10,"remaining":0,"retryAfterSeconds":42}}}"#
    );
    assert_eq!(
        limited(false, true, None).jsonrpc_error_body().unwrap(),
        r#"{"jsonrpc":"2.0","id":7,"error":{"code":-32003,"message":"rate limit exceeded"}}"#
    );
}

#[test]
fn rejections_reach_the_client() {
    assert_eq!(
        rejected(-32000, true).reply(),
        Some(Reply::ToolError { request_id: RequestId::Text(s("g")), text: s("no"), typed: false })
    );
    let expected = |code: i32| {
        format!(
            r#"{{"jsonrpc":"2.0","id":"g","error":{{"code":{code},"message":"no","data":1}}}}"#
        )
    };
    assert_eq!(rejected(-32603, true).jsonrpc_error_body().unwrap(), expected(-32603));
    assert_eq!(rejected(-32000, false).jsonrpc_error_body().unwrap(), expected(-32000));
}

fn local() -> ProxyError {
    ProxyError::RateLimitExceeded { limit: 10, remaining: 0, reset_seconds: 42 }
}

fn remote(body: &[u8]) -> ProxyError {
    ProxyError::RemoteRateLimitExceeded {
        status: None,
        raw_body: body.to_vec(),
        response_headers: vec![(s("x-remote"), b"1".to_vec())],
    }
}

fn local_headers() -> Vec<(String, Vec<u8>)> {
    vec![(s("x-local"), b"2".to_vec())]
}

fn convert(
    err: ProxyError,
    protocol: RequestProtocol,
    body: Option<&[u8]>,
    version: Option<&str>,
) -> ProxyError {
    let res: Result<(), ProxyResponse<()>> = Err(ProxyResponse::Error(err));
    match maybe_convert_mcp_error(res, protocol, body, version, local_headers()) {
        Err(ProxyResponse::Error(err)) => err,
        other => panic!("an error stays one: {other:?}"),
    }
}

#[test]
fn local_limits_become_mcp_errors() {
    let call = convert(local(), RequestProtocol::Mcp, Some(CALL), Some("2026-07-28"));
    assert_eq!(
        call,
        ProxyError::MCP(Error::RateLimited {
            request_id: RequestId::Number(7),
            status: Some(QUOTA),
            message: None,
            headers: local_headers(),
            was_tool_call: true,
            downstream_modern: true,
        })
    );
    let list = convert(local(), RequestProtocol::Mcp, Some(LIST), Some("2025-11-25"));
    assert_eq!(
        list,
        ProxyError::MCP(Error::RateLimited {
            request_id: RequestId::Text(s("q")),
            status: Some(QUOTA),
            message: None,
            headers: local_headers(),
            was_tool_call: false,
            downstream_modern: false,
        })
    );
}

#[test]
fn remote_limits_say_what_the_service_said() {
    let told = |body: &[u8]| match convert(remote(body), RequestProtocol::Mcp, Some(CALL), None) {
        ProxyError::MCP(Error::RateLimited { message, headers, downstream_modern, .. }) => {
            assert_eq!(headers, vec![(s("x-remote"), b"1".to_vec())]);
            assert!(!downstream_modern);
            message
        }
        other => panic!("a limit becomes an MCP error: {other:?}"),
    };
    assert_eq!(told(b""), None);
    assert_eq!(told(b"slow down"), Some(s("slow down")));
    assert_eq!(told(b"\xff"), Some(s("\u{fffd}")));
}

#[test]
fn what_is_no_request_stays_as_it_is() {
    let notification = br#"{"jsonrpc":"2.0","method":"notifications/initialized"}"#;
    let response = br#"{"jsonrpc":"2.0","id":1,"result":{}}"#;
    for body in [None, Some(&b"{"[..]), Some(&notification[..]), Some(&response[..])] {
        assert_eq!(convert(local(), RequestProtocol::Mcp, body, None), local());
    }
    assert_eq!(convert(local(), RequestProtocol::Other, Some(CALL), None), local());
    let other = || ProxyError::Other(s("e"));
    assert_eq!(convert(other(), RequestProtocol::Mcp, Some(CALL), None), other());
    assert_eq!(convert_limit(other(), id(), "tools/call", None, vec![]), other());
    let done: Result<u8, ProxyResponse<u8>> = Ok(3);
    assert!(!needs_body(&done, RequestProtocol::Mcp));
    let done = maybe_convert_mcp_error(done, RequestProtocol::Mcp, Some(CALL), None, vec![]);
    assert_eq!(done, Ok(3));
    let direct: Result<u8, ProxyResponse<u8>> = Err(ProxyResponse::DirectResponse(4));
    let direct = maybe_convert_mcp_error(direct, RequestProtocol::Mcp, Some(CALL), None, vec![]);
    assert_eq!(direct, Err(ProxyResponse::DirectResponse(4)));
}

#[test]
fn only_limits_of_mcp_need_the_body() {
    let failed = |err: ProxyError| -> Result<(), ProxyResponse<()>> {
        Err(ProxyResponse::Error(err))
    };
    assert!(needs_body(&failed(local()), RequestProtocol::Mcp));
    assert!(needs_body(&failed(remote(b"")), RequestProtocol::Mcp));
    assert!(!needs_body(&failed(local()), RequestProtocol::Other));
    assert!(!needs_body(&failed(ProxyError::MCP(Error::NoBackends)), RequestProtocol::Mcp));
}

#[test]
fn errors_wrap_into_each_other() {
    assert_eq!(ProxyError::from(Error::NoBackends), ProxyError::MCP(Error::NoBackends));
    let r: Result<u8, ProxyError> = Error::NoBackends.into();
    assert_eq!(r, Err(ProxyError::MCP(Error::NoBackends)));
    assert_eq!(
        ClientError::from(local()).to_string("rate limited"),
        "http request failed: rate limited"
    );
    assert_eq!(ClientError::new(s("e")).to_string(""), "http request failed: e");
    assert_eq!(
        ClientError::Status(StatusCode::new(503).unwrap()).to_string(""),
        "http request failed with code: 503 Service Unavailable"
    );
}
