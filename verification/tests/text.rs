use agentgateway_mcp::text::decimal_text;
use agentgateway_mcp::text::ends_with;
use agentgateway_mcp::text::join;
use agentgateway_mcp::text::split_once;
use agentgateway_mcp::text::str_eq;
use agentgateway_mcp::text::strip_prefix;
use agentgateway_mcp::text::strip_suffix;

#[test]
fn texts_are_compared_and_stripped() {
    assert!(str_eq("\u{e9}", "\u{e9}") && !str_eq("a", "ab") && !str_eq("a", "b"));
    assert_eq!(strip_suffix("/x/token", "/token"), Some("/x"));
    assert_eq!(strip_suffix("/x/token", "/Token"), None);
    assert_eq!(strip_suffix("n", "token"), None);
    assert_eq!(strip_prefix("\u{e9}\u{e8}x", "\u{e9}"), Some("\u{e8}x"));
    assert_eq!(strip_prefix("a", "ab"), None);
    assert!(ends_with("abc", "") && ends_with("abc", "abc") && !ends_with("abc", "b"));
    assert_eq!(join("a", "\u{e9}"), "a\u{e9}");
}

#[test]
fn texts_are_split_at_the_first() {
    assert_eq!(split_once("a_b_c", '_'), Some(("a", "b_c")));
    assert_eq!(split_once("_", '_'), Some(("", "")));
    assert_eq!(split_once("\u{e9}+\u{e8}", '+'), Some(("\u{e9}", "\u{e8}")));
    assert_eq!(split_once("abc", '_'), None);
}

#[test]
fn numbers_are_written_in_decimal() {
    for n in [0, 7, 10, 99, 100, 1234567890, u64::MAX] {
        assert_eq!(decimal_text(n), n.to_string());
    }
}
