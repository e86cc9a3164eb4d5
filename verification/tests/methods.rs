use agentgateway_mcp::jsonrpc::HEADER_MISMATCH;
use agentgateway_mcp::jsonrpc::INTERNAL_ERROR;
use agentgateway_mcp::jsonrpc::INVALID_PARAMS;
use agentgateway_mcp::jsonrpc::METHOD_NOT_FOUND;
use agentgateway_mcp::jsonrpc::RESOURCE_EXHAUSTED;
use agentgateway_mcp::jsonrpc::UNSUPPORTED_PROTOCOL_VERSION;
use agentgateway_mcp::methods::at_most;
use agentgateway_mcp::methods::is_known_client_request_method;
use agentgateway_mcp::methods::is_modern_version;
use agentgateway_mcp::methods::known_versions;
use agentgateway_mcp::methods::REMOVED_METHODS_2026_07_28;
use rmcp::model::CallToolRequestMethod;
use rmcp::model::CancelTaskMethod;
use rmcp::model::CompleteRequestMethod;
use rmcp::model::ConstString;
use rmcp::model::DiscoverRequestMethod;
use rmcp::model::ErrorCode;
use rmcp::model::GetPromptRequestMethod;
use rmcp::model::GetTaskMethod;
use rmcp::model::InitializeResultMethod;
use rmcp::model::ListPromptsRequestMethod;
use rmcp::model::ListResourceTemplatesRequestMethod;
use rmcp::model::ListResourcesRequestMethod;
use rmcp::model::ListToolsRequestMethod;
use rmcp::model::PingRequestMethod;
use rmcp::model::ProtocolVersion;
use rmcp::model::ReadResourceRequestMethod;
use rmcp::model::SetLevelRequestMethod;
use rmcp::model::SubscribeRequestMethod;
use rmcp::model::SubscriptionsListenRequestMethod;
use rmcp::model::UnsubscribeRequestMethod;
use rmcp::model::UpdateTaskMethod;

#[test]
fn known_methods_are_those_of_the_typed_requests() {
    for method in [
        DiscoverRequestMethod::VALUE,
        PingRequestMethod::VALUE,
        InitializeResultMethod::VALUE,
        CompleteRequestMethod::VALUE,
        SetLevelRequestMethod::VALUE,
        GetPromptRequestMethod::VALUE,
        ListPromptsRequestMethod::VALUE,
        ListResourcesRequestMethod::VALUE,
        ListResourceTemplatesRequestMethod::VALUE,
        ReadResourceRequestMethod::VALUE,
        SubscriptionsListenRequestMethod::VALUE,
        SubscribeRequestMethod::VALUE,
        UnsubscribeRequestMethod::VALUE,
        CallToolRequestMethod::VALUE,
        ListToolsRequestMethod::VALUE,
        GetTaskMethod::VALUE,
        UpdateTaskMethod::VALUE,
        CancelTaskMethod::VALUE,
    ] {
        assert!(is_known_client_request_method(method), "{method}");
    }
    for method in ["", "tools", "tools/call ", "Tools/call", "notifications/initialized"] {
        assert!(!is_known_client_request_method(method), "{method}");
    }
}

#[test]
fn removed_methods_are_known_ones() {
    assert_eq!(
        REMOVED_METHODS_2026_07_28,
        [
            InitializeResultMethod::VALUE,
            PingRequestMethod::VALUE,
            SetLevelRequestMethod::VALUE,
            SubscribeRequestMethod::VALUE,
            UnsubscribeRequestMethod::VALUE,
        ]
    );
    for method in REMOVED_METHODS_2026_07_28 {
        assert!(is_known_client_request_method(method));
    }
}

#[test]
fn known_versions_are_those_of_the_protocol_crate() {
    let theirs: Vec<String> =
        ProtocolVersion::KNOWN_VERSIONS.iter().map(|v| v.as_str().to_string()).collect();
    assert_eq!(known_versions(), theirs);
}

#[test]
fn modern_era_begins_with_standard_headers() {
    assert!(is_modern_version(ProtocolVersion::STANDARD_HEADERS.as_str()));
    let modern: Vec<bool> = known_versions().iter().map(|v| is_modern_version(v)).collect();
    assert_eq!(modern, vec![false, false, false, false, true]);
    for version in ["2026-07-29", "2026-07-28-rc", "2027", "draft", "2026-08"] {
        assert!(is_modern_version(version), "{version}");
    }
    for version in ["", "2026", "2026-07-2", "2026-07-27", "1.0"] {
        assert!(!is_modern_version(version), "{version}");
    }
}

#[test]
fn text_order_is_that_of_strings() {
    let texts = ["", "a", "aa", "ab", "b", "\u{e9}", "\u{ffff}", "\u{10000}"];
    for a in texts {
        for b in texts {
            assert_eq!(at_most(a, b), a <= b, "{a} {b}");
        }
    }
}

#[test]
fn error_codes_are_those_of_the_protocol_crate() {
    assert_eq!(UNSUPPORTED_PROTOCOL_VERSION, ErrorCode::UNSUPPORTED_PROTOCOL_VERSION.0);
    assert_eq!(HEADER_MISMATCH, ErrorCode::HEADER_MISMATCH.0);
    assert_eq!(METHOD_NOT_FOUND, ErrorCode::METHOD_NOT_FOUND.0);
    assert_eq!(INVALID_PARAMS, ErrorCode::INVALID_PARAMS.0);
    assert_eq!(INTERNAL_ERROR, ErrorCode::INTERNAL_ERROR.0);
    assert_eq!(RESOURCE_EXHAUSTED, -32003);
}
