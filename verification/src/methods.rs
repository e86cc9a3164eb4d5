//! The methods and protocol versions of MCP that the gateway knows.
use crate::text::str_eq;
use vstd::prelude::*;
use vstd::string::StrSliceExecFns;

verus! {

/// The methods of the typed client requests.
pub open spec fn known_methods() -> Seq<Seq<char>> {
    seq![
        "server/discover"@,
        "ping"@,
        "initialize"@,
        "completion/complete"@,
        "logging/setLevel"@,
        "prompts/get"@,
        "prompts/list"@,
        "resources/list"@,
        "resources/templates/list"@,
        "resources/read"@,
        "subscriptions/listen"@,
        "resources/subscribe"@,
        "resources/unsubscribe"@,
        "tools/call"@,
        "tools/list"@,
        "tasks/get"@,
        "tasks/update"@,
        "tasks/cancel"@,
    ]
}

/// `a` comes before `b` in the order of code points, or is `b`.
pub open spec fn text_at_most(a: Seq<char>, b: Seq<char>) -> bool
    decreases a.len(),
{
    if a.len() == 0 {
        true
    } else if b.len() == 0 {
        false
    } else if a[0] != b[0] {
        (a[0] as u32) < (b[0] as u32)
    } else {
        text_at_most(a.drop_first(), b.drop_first())
    }
}

/// A protocol version of the era that began with 2026-07-28.
pub open spec fn is_modern_version_spec(version: Seq<char>) -> bool {
    text_at_most("2026-07-28"@, version)
}

/// The protocol versions that the gateway knows, oldest first.
pub open spec fn known_versions_spec() -> Seq<Seq<char>> {
    seq!["2024-11-05"@, "2025-03-26"@, "2025-06-18"@, "2025-11-25"@, "2026-07-28"@]
}

/// Whether a method is one of the typed client requests.
pub fn is_known_client_request_method(method: &str) -> (r: bool)
    ensures
        r == known_methods().contains(method@),
{
    let known: [&str; 18] = [
        "server/discover",
        "ping",
        "initialize",
        "completion/complete",
        "logging/setLevel",
        "prompts/get",
        "prompts/list",
        "resources/list",
        "resources/templates/list",
        "resources/read",
        "subscriptions/listen",
        "resources/subscribe",
        "resources/unsubscribe",
        "tools/call",
        "tools/list",
        "tasks/get",
        "tasks/update",
        "tasks/cancel",
    ];
    assert(known@.len() == known_methods().len());
    assert(forall|j: int| 0 <= j < 18 ==> #[trigger] known@[j]@ == known_methods()[j]);
    let mut i: usize = 0;
    while i < 18
        invariant
            i <= 18,
            known@.len() == 18,
            known_methods().len() == 18,
            forall|j: int| 0 <= j < 18 ==> #[trigger] known@[j]@ == known_methods()[j],
            forall|j: int| 0 <= j < i ==> #[trigger] known_methods()[j] != method@,
        decreases 18 - i,
    {
        if str_eq(method, known[i]) {
            assert(known_methods()[i as int] == method@);
            return true;
        }
        assert(known@[i as int]@ != method@);
        i += 1;
    }
    false
}

/// The methods that are gone from version 2026-07-28 on: clients of that era use
/// `server/discover` and what each request says of itself in place of an `initialize` that
/// establishes a session, and have no session to subscribe or set a level on.
pub const REMOVED_METHODS_2026_07_28: [&'static str; 5] = [
    "initialize",
    "ping",
    "logging/setLevel",
    "resources/subscribe",
    "resources/unsubscribe",
];

/// Each of the removed methods is a known one.
pub proof fn removed_methods_are_known()
    ensures
        forall|i: int|
            0 <= i < REMOVED_METHODS_2026_07_28@.len() ==> known_methods().contains(
                (#[trigger] REMOVED_METHODS_2026_07_28@[i])@,
            ),
{
    assert(known_methods()[2] == "initialize"@);
    assert(known_methods()[1] == "ping"@);
    assert(known_methods()[4] == "logging/setLevel"@);
    assert(known_methods()[11] == "resources/subscribe"@);
    assert(known_methods()[12] == "resources/unsubscribe"@);
}

proof fn lemma_at_most_skip(a: Seq<char>, b: Seq<char>, i: int)
    requires
        0 <= i <= a.len(),
        i <= b.len(),
        forall|j: int| 0 <= j < i ==> a[j] == b[j],
    ensures
        text_at_most(a, b) == text_at_most(a.skip(i), b.skip(i)),
    decreases i,
{
    if i == 0 {
        assert(a.skip(0) =~= a);
        assert(b.skip(0) =~= b);
    } else {
        let x = a.drop_first();
        let y = b.drop_first();
        assert forall|j: int| 0 <= j < i - 1 implies x[j] == y[j] by {
            assert(x[j] == a[j + 1] && y[j] == b[j + 1]);
        }
        lemma_at_most_skip(x, y, i - 1);
        assert(x.skip(i - 1) =~= a.skip(i));
        assert(y.skip(i - 1) =~= b.skip(i));
    }
}

/// Whether `a` comes before `b` in the order of code points, or is `b`.
pub fn at_most(a: &str, b: &str) -> (r: bool)
    ensures
        r == text_at_most(a@, b@),
{
    let n = a.unicode_len();
    let m = b.unicode_len();
    let mut i: usize = 0;
    while i < n
        invariant
            i <= n,
            i <= m,
            n == a@.len(),
            m == b@.len(),
            forall|j: int| 0 <= j < i ==> a@[j] == b@[j],
        decreases n - i,
    {
        proof {
            lemma_at_most_skip(a@, b@, i as int);
        }
        if i >= m {
            return false;
        }
        let x = a.get_char(i);
        let y = b.get_char(i);
        if x != y {
            return (x as u32) < (y as u32);
        }
        i += 1;
    }
    proof {
        lemma_at_most_skip(a@, b@, i as int);
    }
    true
}

/// Whether a protocol version is of the era that began with 2026-07-28, in which versions are
/// negotiated by `server/discover` and by each request rather than by an `initialize` that
/// establishes a session.
pub fn is_modern_version(version: &str) -> (r: bool)
    ensures
        r == is_modern_version_spec(version@),
{
    at_most("2026-07-28", version)
}

/// The protocol versions that the gateway knows, oldest first.
pub fn known_versions() -> (r: Vec<String>)
    ensures
        r.deep_view() == known_versions_spec(),
{
    let mut r: Vec<String> = Vec::new();
    r.push("2024-11-05".to_owned());
    r.push("2025-03-26".to_owned());
    r.push("2025-06-18".to_owned());
    r.push("2025-11-25".to_owned());
    r.push("2026-07-28".to_owned());
    assert(r.deep_view() =~= known_versions_spec());
    r
}

proof fn lemma_at_most_transitive(a: Seq<char>, b: Seq<char>, c: Seq<char>)
    requires
        text_at_most(a, b),
        text_at_most(b, c),
    ensures
        text_at_most(a, c),
    decreases a.len(),
{
    if a.len() > 0 && b.len() > 0 && c.len() > 0 && a[0] == b[0] && b[0] == c[0] {
        lemma_at_most_transitive(a.drop_first(), b.drop_first(), c.drop_first());
    }
}

/// Once modern, always modern: a version that does not come before a modern one is modern.
pub proof fn modern_versions_stay_modern(earlier: Seq<char>, later: Seq<char>)
    requires
        is_modern_version_spec(earlier),
        text_at_most(earlier, later),
    ensures
        is_modern_version_spec(later),
{
    lemma_at_most_transitive("2026-07-28"@, earlier, later);
}

/// Of the known versions only the newest is modern.
pub proof fn newest_version_is_modern()
    ensures
        forall|i: int|
            0 <= i < known_versions_spec().len() ==> (is_modern_version_spec(
                #[trigger] known_versions_spec()[i],
            ) <==> i == known_versions_spec().len() - 1),
{
    reveal_strlit("2024-11-05");
    reveal_strlit("2025-03-26");
    reveal_strlit("2025-06-18");
    reveal_strlit("2025-11-25");
    reveal_strlit("2026-07-28");
    let m = "2026-07-28"@;
    lemma_at_most_skip(m, "2024-11-05"@, 3);
    lemma_at_most_skip(m, "2025-03-26"@, 3);
    lemma_at_most_skip(m, "2025-06-18"@, 3);
    lemma_at_most_skip(m, "2025-11-25"@, 3);
    lemma_at_most_skip(m, m, 10);
}

} // verus!
