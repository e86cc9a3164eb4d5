//! Laws of which target a request is for.
use crate::routing::mcp_request_name;
use crate::routing::mcp_request_task;
use crate::routing::mcp_request_uri;
use crate::routing::prefix_comes_off;
use crate::routing::McpBackend;
use crate::routing::ResourceUri;
use crate::routing::UiUri;
use crate::text::first_index;
use crate::text::lemma_first_index;
use vstd::prelude::*;

verus! {

/// The target at `i` has this name.
pub open spec fn is_target(backend: &McpBackend, i: int, name: Seq<char>) -> bool {
    0 <= i < backend.targets@.len() && backend.targets@[i].name@ == name
}

/// The request is for this target, which knows its subject by this name.
pub open spec fn is_for(r: Option<(String, String)>, target: Seq<char>, name: Seq<char>) -> bool {
    r matches Some((t, n)) && t@ == target && n@ == name
}

proof fn lemma_targets(backend: &McpBackend)
    ensures
        backend@.targets.len() == backend.targets@.len(),
        forall|i: int|
            0 <= i < backend.targets@.len() ==> #[trigger] backend@.targets[i]
                == backend.targets@[i].name@,
{
}

proof fn lemma_prefixed(backend: &McpBackend, s: Seq<char>, c: char)
    ensures
        crate::routing::prefixed(backend@, s, c) matches Some((target, rest)) ==> {
            &&& s == target + seq![c] + rest
            &&& !target.contains(c)
            &&& exists|i: int| #[trigger] is_target(backend, i, target)
        },
{
    lemma_targets(backend);
    lemma_first_index(s, c);
    let i = first_index(s, c);
    if i < s.len() {
        let a = s.subrange(0, i);
        assert(s =~= a + seq![c] + s.subrange(i + 1, s.len() as int));
        assert forall|j: int| 0 <= j < i implies #[trigger] a[j] != c by {
            assert(a[j] == s[j]);
        }
        if backend@.targets.contains(a) {
            let k = choose|k: int| 0 <= k < backend@.targets.len() && backend@.targets[k] == a;
            assert(is_target(backend, k, a));
        }
    }
}

/// With one target, and a mode other than always, every name, URI and task ID is that target's,
/// unchanged, whatever it begins with and whatever the URI holds.
pub proof fn sole_target_gets_all_unchanged(
    backend: &McpBackend,
    text: &str,
    uri: &ResourceUri,
    of_name: Option<(String, String)>,
    of_task: Option<(String, String)>,
    of_uri: Option<(String, String)>,
)
    requires
        backend.targets@.len() == 1,
        !(backend.prefix_mode is Always),
        call_ensures(mcp_request_name, (backend, text), of_name),
        call_ensures(mcp_request_task, (backend, text), of_task),
        call_ensures(mcp_request_uri, (backend, uri), of_uri),
    ensures
        is_for(of_name, backend.targets@[0].name@, text@),
        is_for(of_task, backend.targets@[0].name@, text@),
        is_for(of_uri, backend.targets@[0].name@, uri.uri@),
{
    lemma_targets(backend);
}

/// With several targets, or in the mode always, a text that is a target, a separator that the
/// target does not hold, and a rest, is for that target by the rest, at whatever place among the
/// targets it stands. Only names in the mode never are not taken apart.
pub proof fn prefixed_texts_are_for_their_target(
    backend: &McpBackend,
    i: int,
    target: Seq<char>,
    rest: Seq<char>,
    name: &str,
    id: &str,
    uri: &ResourceUri,
    of_name: Option<(String, String)>,
    of_task: Option<(String, String)>,
    of_uri: Option<(String, String)>,
)
    requires
        backend.targets@.len() != 1 || backend.prefix_mode is Always,
        is_target(backend, i, target),
        call_ensures(mcp_request_name, (backend, name), of_name),
        call_ensures(mcp_request_task, (backend, id), of_task),
        call_ensures(mcp_request_uri, (backend, uri), of_uri),
    ensures
        !(backend.prefix_mode is Never) && !target.contains('_') && name@ == target + seq!['_']
            + rest ==> is_for(of_name, target, rest),
        !target.contains('+') && id@ == target + seq!['+'] + rest ==> is_for(of_task, target, rest),
        uri.ui is Plain && !target.contains('+') && uri.uri@ == target + seq!['+'] + rest
            ==> is_for(of_uri, target, rest),
{
    lemma_targets(backend);
    assert(backend@.targets[i] == target);
    if !target.contains('_') {
        prefix_comes_off(backend@, target, '_', rest);
    }
    if !target.contains('+') {
        prefix_comes_off(backend@, target, '+', rest);
    }
}

/// With several targets, or in the mode always, a request is for no target but one that stands in
/// front of its text; a text without one is for none.
pub proof fn other_texts_are_for_nobody(
    backend: &McpBackend,
    name: &str,
    id: &str,
    uri: &ResourceUri,
    of_name: Option<(String, String)>,
    of_task: Option<(String, String)>,
    of_uri: Option<(String, String)>,
)
    requires
        backend.targets@.len() != 1 || backend.prefix_mode is Always,
        call_ensures(mcp_request_name, (backend, name), of_name),
        call_ensures(mcp_request_task, (backend, id), of_task),
        call_ensures(mcp_request_uri, (backend, uri), of_uri),
    ensures
        !(backend.prefix_mode is Never) ==> (of_name matches Some((t, n)) ==> {
            &&& name@ == t@ + seq!['_'] + n@
            &&& !t@.contains('_')
            &&& exists|i: int| #[trigger] is_target(backend, i, t@)
        }),
        of_task matches Some((t, n)) ==> {
            &&& id@ == t@ + seq!['+'] + n@
            &&& !t@.contains('+')
            &&& exists|i: int| #[trigger] is_target(backend, i, t@)
        },
        uri.ui is Plain ==> (of_uri matches Some((t, n)) ==> {
            &&& uri.uri@ == t@ + seq!['+'] + n@
            &&& !t@.contains('+')
            &&& exists|i: int| #[trigger] is_target(backend, i, t@)
        }),
{
    lemma_prefixed(backend, name@, '_');
    lemma_prefixed(backend, id@, '+');
    lemma_prefixed(backend, uri.uri@, '+');
}

/// In the mode never, and with other than one target, a name is kept whole and has no target yet.
pub proof fn unprefixed_names_wait_whole(
    backend: &McpBackend,
    name: &str,
    r: Option<(String, String)>,
)
    requires
        backend.prefix_mode is Never,
        backend.targets@.len() != 1,
        call_ensures(mcp_request_name, (backend, name), r),
    ensures
        is_for(r, Seq::empty(), name@),
{
    lemma_targets(backend);
}

/// With several targets, or in the mode always, the URI of a user interface is for the target that
/// it holds, by the URI that it holds, if the backend has that target; and for nobody otherwise,
/// whatever its own text.
pub proof fn ui_uris_are_for_whom_they_hold(
    backend: &McpBackend,
    uri: &ResourceUri,
    r: Option<(String, String)>,
    i: int,
)
    requires
        backend.targets@.len() != 1 || backend.prefix_mode is Always,
        call_ensures(mcp_request_uri, (backend, uri), r),
    ensures
        uri.ui is Undecodable ==> r is None,
        uri.ui matches UiUri::Decoded(target, inner) ==> {
            &&& is_target(backend, i, target@) ==> is_for(r, target@, inner@)
            &&& (forall|j: int| !(#[trigger] is_target(backend, j, target@))) ==> r is None
        },
{
    lemma_targets(backend);
    if let UiUri::Decoded(target, inner) = uri.ui {
        if is_target(backend, i, target@) {
            assert(backend@.targets[i] == target@);
        }
        if backend@.targets.contains(target@) {
            let k = choose|k: int|
                0 <= k < backend@.targets.len() && backend@.targets[k] == target@;
            assert(is_target(backend, k, target@));
        }
    }
}

} // verus!
