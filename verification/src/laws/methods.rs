//! Laws of methods and versions.
use crate::methods::at_most;
use crate::methods::is_known_client_request_method;
use crate::methods::is_modern_version;
use crate::methods::known_versions;
use crate::methods::text_at_most;
use crate::methods::REMOVED_METHODS_2026_07_28;
use vstd::prelude::*;

verus! {

/// A method is known exactly where it is one of the typed requests': of the server and the session,
/// of logging and completion, of prompts, resources, subscriptions, tools and tasks.
pub proof fn known_methods_are_the_typed_ones(method: &str, r: bool)
    requires
        call_ensures(is_known_client_request_method, (method,), r),
    ensures
        r <==> {
            let m = method@;
            ||| m == "server/discover"@ || m == "initialize"@ || m == "ping"@
            ||| m == "logging/setLevel"@ || m == "completion/complete"@
            ||| m == "prompts/get"@ || m == "prompts/list"@
            ||| m == "resources/list"@ || m == "resources/templates/list"@
            ||| m == "resources/read"@ || m == "resources/subscribe"@
            ||| m == "resources/unsubscribe"@ || m == "subscriptions/listen"@
            ||| m == "tools/call"@ || m == "tools/list"@
            ||| m == "tasks/get"@ || m == "tasks/update"@ || m == "tasks/cancel"@
        },
{
    let k = crate::methods::known_methods();
    assert(k[0] == "server/discover"@ && k[1] == "ping"@ && k[2] == "initialize"@);
    assert(k[3] == "completion/complete"@ && k[4] == "logging/setLevel"@);
    assert(k[5] == "prompts/get"@ && k[6] == "prompts/list"@ && k[7] == "resources/list"@);
    assert(k[8] == "resources/templates/list"@ && k[9] == "resources/read"@);
    assert(k[10] == "subscriptions/listen"@ && k[11] == "resources/subscribe"@);
    assert(k[12] == "resources/unsubscribe"@ && k[13] == "tools/call"@ && k[14] == "tools/list"@);
    assert(k[15] == "tasks/get"@ && k[16] == "tasks/update"@ && k[17] == "tasks/cancel"@);
    assert(k.len() == 18);
}

/// Every method that is gone from the modern era is a known one.
pub proof fn removed_methods_were_known(i: int, method: &str, r: bool)
    requires
        0 <= i < 5,
        method@ == REMOVED_METHODS_2026_07_28@[i]@,
        call_ensures(is_known_client_request_method, (method,), r),
    ensures
        r,
        method@ == "initialize"@ || method@ == "ping"@ || method@ == "logging/setLevel"@ || method@
            == "resources/subscribe"@ || method@ == "resources/unsubscribe"@,
{
    known_methods_are_the_typed_ones(method, r);
}

/// `a` and `b` are the same up to `i`, where `a` ends or has the smaller character.
pub open spec fn parts_at(a: Seq<char>, b: Seq<char>, i: int) -> bool {
    &&& 0 <= i <= a.len()
    &&& i <= b.len()
    &&& forall|j: int| 0 <= j < i ==> a[j] == b[j]
    &&& i == a.len() || (i < b.len() && (a[i] as u32) < (b[i] as u32))
}

proof fn lemma_order(a: Seq<char>, b: Seq<char>)
    ensures
        text_at_most(a, b) <==> exists|i: int| #[trigger] parts_at(a, b, i),
    decreases a.len(),
{
    if a.len() == 0 {
        assert(parts_at(a, b, 0));
    } else if b.len() == 0 {
    } else if a[0] != b[0] {
        if (a[0] as u32) < (b[0] as u32) {
            assert(parts_at(a, b, 0));
        } else {
            assert forall|i: int| !(#[trigger] parts_at(a, b, i)) by {
                if i > 0 && parts_at(a, b, i) {
                    assert(a[0] == b[0]);
                }
            }
        }
    } else {
        let x = a.drop_first();
        let y = b.drop_first();
        lemma_order(x, y);
        if exists|i: int| #[trigger] parts_at(x, y, i) {
            let i = choose|i: int| #[trigger] parts_at(x, y, i);
            assert forall|j: int| 0 <= j < i + 1 implies a[j] == b[j] by {
                if j > 0 {
                    assert(x[j - 1] == a[j] && y[j - 1] == b[j]);
                }
            }
            assert(parts_at(a, b, i + 1));
        }
        if exists|i: int| #[trigger] parts_at(a, b, i) {
            let i = choose|i: int| #[trigger] parts_at(a, b, i);
            assert(i > 0);
            assert forall|j: int| 0 <= j < i - 1 implies x[j] == y[j] by {
                assert(x[j] == a[j + 1] && y[j] == b[j + 1]);
            }
            assert(parts_at(x, y, i - 1));
        }
    }
}

/// One text does not come after another exactly where, up to some place, they are the same, and
/// there it ends or has the smaller character.
pub proof fn texts_are_ordered_where_they_part(a: &str, b: &str, r: bool)
    requires
        call_ensures(at_most, (a, b), r),
    ensures
        r <==> exists|i: int| #[trigger] parts_at(a@, b@, i),
{
    lemma_order(a@, b@);
}

/// Of two texts one does not come after the other; both do not only where they are the same.
pub proof fn texts_are_ordered_one_way(a: &str, b: &str, ab: bool, ba: bool)
    requires
        call_ensures(at_most, (a, b), ab),
        call_ensures(at_most, (b, a), ba),
    ensures
        ab || ba,
        ab && ba ==> a@ == b@,
{
    lemma_one_way(a@, b@);
}

proof fn lemma_one_way(a: Seq<char>, b: Seq<char>)
    ensures
        text_at_most(a, b) || text_at_most(b, a),
        text_at_most(a, b) && text_at_most(b, a) ==> a == b,
    decreases a.len(),
{
    if a.len() > 0 && b.len() > 0 && a[0] == b[0] {
        lemma_one_way(a.drop_first(), b.drop_first());
        if a.drop_first() == b.drop_first() {
            assert(a =~= seq![a[0]] + a.drop_first());
            assert(b =~= seq![b[0]] + b.drop_first());
        }
    } else if a.len() == 0 && b.len() == 0 {
        assert(a =~= b);
    } else if a.len() > 0 && b.len() > 0 {
        lemma_chars_differ(a[0], b[0]);
    }
}

proof fn lemma_chars_differ(x: char, y: char)
    requires
        x != y,
    ensures
        x as u32 != y as u32,
{
}

/// A version is modern exactly where 2026-07-28 does not come after it.
pub proof fn modern_is_from_2026_07_28_on(version: &str, r: bool)
    requires
        call_ensures(is_modern_version, (version,), r),
    ensures
        r <==> exists|i: int| #[trigger] parts_at("2026-07-28"@, version@, i),
{
    lemma_order("2026-07-28"@, version@);
}

/// The known versions are these five, oldest first.
pub proof fn known_versions_are_five(r: Vec<String>)
    requires
        call_ensures(known_versions, (), r),
    ensures
        r@.len() == 5,
        r@[0]@ == "2024-11-05"@,
        r@[1]@ == "2025-03-26"@,
        r@[2]@ == "2025-06-18"@,
        r@[3]@ == "2025-11-25"@,
        r@[4]@ == "2026-07-28"@,
{
    let v = r.deep_view();
    assert(v.len() == r@.len());
    assert(v[0] == r@[0]@ && v[1] == r@[1]@ && v[2] == r@[2]@ && v[3] == r@[3]@ && v[4] == r@[4]@);
}

} // verus!
