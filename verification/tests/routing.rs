use agentgateway_mcp::routing::mcp_request_name;
use agentgateway_mcp::routing::mcp_request_task;
use agentgateway_mcp::routing::mcp_request_uri;
use agentgateway_mcp::routing::McpBackend;
use agentgateway_mcp::routing::McpPrefixMode;
use agentgateway_mcp::routing::McpTarget;
use agentgateway_mcp::routing::ResourceUri;
use agentgateway_mcp::routing::UiUri;

fn backend(targets: &[&str], prefix_mode: McpPrefixMode) -> McpBackend {
    McpBackend {
        targets: targets.iter().map(|t| McpTarget { name: t.to_string() }).collect(),
        prefix_mode,
    }
}

fn found(target: &str, name: &str) -> Option<(String, String)> {
    Some((target.to_string(), name.to_string()))
}

fn plain(uri: &str) -> ResourceUri {
    ResourceUri { uri: uri.to_string(), ui: UiUri::Plain }
}

#[test]
fn sole_target_needs_no_prefix() {
    for mode in [McpPrefixMode::Conditional, McpPrefixMode::Never] {
        let b = backend(&["one"], mode);
        assert_eq!(mcp_request_name(&b, "two_x"), found("one", "two_x"));
        assert_eq!(mcp_request_task(&b, "two+x"), found("one", "two+x"));
        assert_eq!(mcp_request_uri(&b, &plain("two+x")), found("one", "two+x"));
        let odd = ResourceUri { uri: "ui://x".to_string(), ui: UiUri::Undecodable };
        assert_eq!(mcp_request_uri(&b, &odd), found("one", "ui://x"));
    }
}

#[test]
fn prefix_names_the_target() {
    for b in [
        backend(&["one"], McpPrefixMode::Always),
        backend(&["zero", "one"], McpPrefixMode::Always),
        backend(&["zero", "one"], McpPrefixMode::Conditional),
    ] {
        assert_eq!(mcp_request_name(&b, "one_x_y"), found("one", "x_y"));
        assert_eq!(mcp_request_name(&b, "other_x"), None);
        assert_eq!(mcp_request_name(&b, "one"), None);
        assert_eq!(mcp_request_name(&b, ""), None);
        assert_eq!(mcp_request_task(&b, "one+7+8"), found("one", "7+8"));
        assert_eq!(mcp_request_task(&b, "one_7"), None);
        assert_eq!(mcp_request_uri(&b, &plain("one+file:///a+b")), found("one", "file:///a+b"));
        assert_eq!(mcp_request_uri(&b, &plain("file:///a")), None);
    }
}

#[test]
fn names_without_prefix_wait_for_their_owner() {
    let b = backend(&["zero", "one"], McpPrefixMode::Never);
    assert_eq!(mcp_request_name(&b, "one_x"), found("", "one_x"));
    assert_eq!(mcp_request_task(&b, "one+x"), found("one", "x"));
    assert_eq!(mcp_request_uri(&b, &plain("one+x")), found("one", "x"));
    let none = backend(&[], McpPrefixMode::Conditional);
    assert_eq!(mcp_request_name(&none, "one_x"), None);
}

#[test]
fn ui_uris_are_taken_as_decoded() {
    let b = backend(&["zero", "one"], McpPrefixMode::Conditional);
    let of = |target: &str| ResourceUri {
        uri: "ui://coded+x".to_string(),
        ui: UiUri::Decoded(target.to_string(), "ui://x".to_string()),
    };
    assert_eq!(mcp_request_uri(&b, &of("one")), found("one", "ui://x"));
    assert_eq!(mcp_request_uri(&b, &of("two")), None);
    let odd = ResourceUri { uri: "one+x".to_string(), ui: UiUri::Undecodable };
    assert_eq!(mcp_request_uri(&b, &odd), None);
}

#[test]
fn separator_in_a_target_hides_it() {
    let b = backend(&["my_one", "two"], McpPrefixMode::Conditional);
    assert_eq!(mcp_request_name(&b, "my_one_x"), None);
    assert_eq!(mcp_request_task(&b, "my_one+x"), found("my_one", "x"));
}
