//! Which target a request is for: with several targets behind one endpoint, names, URIs and task
//! IDs carry the target in front.
use crate::text::lemma_first_index_unique;
use crate::text::split_once;
use crate::text::split_once_spec;
use crate::text::str_eq;
use vstd::prelude::*;

verus! {

/// Whether names carry their target in front.
#[derive(Clone, Copy, Debug, PartialEq, Eq)]
pub enum McpPrefixMode {
    /// They always do.
    Always,
    /// They do where there is more than one target.
    Conditional,
    /// Names of tools and prompts never do.
    Never,
}

/// A target behind the gateway.
#[derive(Clone, Debug, PartialEq)]
pub struct McpTarget {
    pub name: String,
}

/// The targets behind one endpoint.
#[derive(Clone, Debug, PartialEq)]
pub struct McpBackend {
    pub targets: Vec<McpTarget>,
    pub prefix_mode: McpPrefixMode,
}

/// What a backend holds.
pub struct BackendView {
    pub targets: Seq<Seq<char>>,
    pub prefix_mode: McpPrefixMode,
}

impl View for McpBackend {
    type V = BackendView;

    open spec fn view(&self) -> BackendView {
        BackendView {
            targets: Seq::new(self.targets@.len(), |i: int| self.targets@[i].name@),
            prefix_mode: self.prefix_mode,
        }
    }
}

/// A resource URI with what it holds as the URI of a user interface.
#[derive(Clone, Debug, PartialEq)]
pub struct ResourceUri {
    pub uri: String,
    pub ui: UiUri,
}

/// What a resource URI holds as the URI of a user interface.
#[derive(Clone, Debug, PartialEq)]
pub enum UiUri {
    /// It is no such URI.
    Plain,
    /// It is one, but what it holds cannot be told.
    Undecodable,
    /// It is one of this target, which knows it by this URI.
    Decoded(String, String),
}

/// What a resource URI holds.
pub struct ResourceUriView {
    pub uri: Seq<char>,
    pub ui: UiUriView,
}

/// What a resource URI holds as the URI of a user interface.
pub enum UiUriView {
    Plain,
    Undecodable,
    Decoded(Seq<char>, Seq<char>),
}

impl View for ResourceUri {
    type V = ResourceUriView;

    open spec fn view(&self) -> ResourceUriView {
        ResourceUriView {
            uri: self.uri@,
            ui: match self.ui {
                UiUri::Plain => UiUriView::Plain,
                UiUri::Undecodable => UiUriView::Undecodable,
                UiUri::Decoded(target, uri) => UiUriView::Decoded(target@, uri@),
            },
        }
    }
}

/// The one target that there is, where names need not carry it.
pub open spec fn sole_target(backend: BackendView) -> Option<Seq<char>> {
    if backend.targets.len() == 1 && !(backend.prefix_mode is Always) {
        Some(backend.targets[0])
    } else {
        None
    }
}

/// What is left of a name behind its target, where that is a target of the backend.
pub open spec fn prefixed(backend: BackendView, s: Seq<char>, separator: char) -> Option<
    (Seq<char>, Seq<char>),
> {
    match split_once_spec(s, separator) {
        Some((target, rest)) => if backend.targets.contains(target) {
            Some((target, rest))
        } else {
            None
        },
        None => None,
    }
}

/// The target of a tool or prompt, and the name by which the target knows it.
///
/// Where names never carry their target and there are several, the owner is found by asking the
/// upstreams later on. The name is kept for request policies, and the target is empty until then.
pub open spec fn mcp_request_name_spec(backend: BackendView, name: Seq<char>) -> Option<
    (Seq<char>, Seq<char>),
> {
    match sole_target(backend) {
        Some(target) => Some((target, name)),
        None => if backend.prefix_mode is Never {
            Some((Seq::empty(), name))
        } else {
            prefixed(backend, name, '_')
        },
    }
}

/// The target of a resource, and the URI by which the target knows it.
pub open spec fn mcp_request_uri_spec(backend: BackendView, uri: ResourceUriView) -> Option<
    (Seq<char>, Seq<char>),
> {
    match sole_target(backend) {
        Some(target) => Some((target, uri.uri)),
        None => match uri.ui {
            UiUriView::Plain => prefixed(backend, uri.uri, '+'),
            UiUriView::Undecodable => None,
            UiUriView::Decoded(target, inner) => if backend.targets.contains(target) {
                Some((target, inner))
            } else {
                None
            },
        },
    }
}

/// The target of a task, and the ID by which the target knows it.
pub open spec fn mcp_request_task_spec(backend: BackendView, id: Seq<char>) -> Option<
    (Seq<char>, Seq<char>),
> {
    match sole_target(backend) {
        Some(target) => Some((target, id)),
        None => prefixed(backend, id, '+'),
    }
}

fn has_target(backend: &McpBackend, target: &str) -> (r: bool)
    ensures
        r == backend@.targets.contains(target@),
{
    let mut i: usize = 0;
    while i < backend.targets.len()
        invariant
            i <= backend.targets@.len(),
            forall|j: int| 0 <= j < i ==> #[trigger] backend@.targets[j] != target@,
        decreases backend.targets@.len() - i,
    {
        if str_eq(backend.targets[i].name.as_str(), target) {
            assert(backend@.targets[i as int] == target@);
            return true;
        }
        i += 1;
    }
    false
}

fn sole(backend: &McpBackend) -> (r: Option<String>)
    ensures
        r.deep_view() == sole_target(backend@),
{
    match backend.prefix_mode {
        McpPrefixMode::Always => None,
        _ => if backend.targets.len() == 1 {
            Some(backend.targets[0].name.clone())
        } else {
            None
        },
    }
}

fn split_prefix(backend: &McpBackend, s: &str, separator: char) -> (r: Option<(String, String)>)
    ensures
        r.deep_view() == prefixed(backend@, s@, separator),
{
    match split_once(s, separator) {
        Some((target, rest)) => if has_target(backend, target) {
            Some((target.to_owned(), rest.to_owned()))
        } else {
            None
        },
        None => None,
    }
}

/// The target of a tool or prompt, and the name by which the target knows it.
pub fn mcp_request_name(backend: &McpBackend, name: &str) -> (r: Option<(String, String)>)
    ensures
        r.deep_view() == mcp_request_name_spec(backend@, name@),
{
    if let Some(target) = sole(backend) {
        return Some((target, name.to_owned()));
    }
    match backend.prefix_mode {
        McpPrefixMode::Never => Some((String::new(), name.to_owned())),
        _ => split_prefix(backend, name, '_'),
    }
}

/// The target of a resource, and the URI by which the target knows it.
pub fn mcp_request_uri(backend: &McpBackend, uri: &ResourceUri) -> (r: Option<(String, String)>)
    ensures
        r.deep_view() == mcp_request_uri_spec(backend@, uri@),
{
    if let Some(target) = sole(backend) {
        return Some((target, uri.uri.clone()));
    }
    match &uri.ui {
        UiUri::Plain => split_prefix(backend, uri.uri.as_str(), '+'),
        UiUri::Undecodable => None,
        UiUri::Decoded(target, inner) => if has_target(backend, target.as_str()) {
            Some((target.clone(), inner.clone()))
        } else {
            None
        },
    }
}

/// The target of a task, and the ID by which the target knows it.
pub fn mcp_request_task(backend: &McpBackend, id: &str) -> (r: Option<(String, String)>)
    ensures
        r.deep_view() == mcp_request_task_spec(backend@, id@),
{
    if let Some(target) = sole(backend) {
        return Some((target, id.to_owned()));
    }
    split_prefix(backend, id, '+')
}

/// What was put behind a target of the backend, and a separator that the target's name does not
/// hold, is found there again.
pub proof fn prefix_comes_off(
    backend: BackendView,
    target: Seq<char>,
    separator: char,
    rest: Seq<char>,
)
    requires
        backend.targets.contains(target),
        !target.contains(separator),
    ensures
        prefixed(backend, target + seq![separator] + rest, separator) == Some((target, rest)),
{
    let s = target + seq![separator] + rest;
    assert forall|j: int| 0 <= j < target.len() implies s[j] != separator by {
        assert(s[j] == target[j]);
    }
    lemma_first_index_unique(s, separator, target.len() as int);
    assert(s.subrange(0, target.len() as int) =~= target);
    assert(s.subrange((target.len() + 1) as int, s.len() as int) =~= rest);
}

/// With several targets, a prefixed name, URI or task ID reaches the target in front, which gets
/// what stands behind it.
pub proof fn prefixed_requests_reach_their_target(
    backend: BackendView,
    target: Seq<char>,
    rest: Seq<char>,
)
    requires
        backend.targets.contains(target),
        backend.targets.len() > 1 || backend.prefix_mode is Always,
    ensures
        !target.contains('_') && !(backend.prefix_mode is Never) ==> mcp_request_name_spec(
            backend,
            target + seq!['_'] + rest,
        ) == Some((target, rest)),
        !target.contains('+') ==> mcp_request_task_spec(backend, target + seq!['+'] + rest) == Some(
            (target, rest),
        ),
        !target.contains('+') ==> mcp_request_uri_spec(
            backend,
            (ResourceUriView { uri: target + seq!['+'] + rest, ui: UiUriView::Plain }),
        ) == Some((target, rest)),
{
    if !target.contains('_') {
        prefix_comes_off(backend, target, '_', rest);
    }
    if !target.contains('+') {
        prefix_comes_off(backend, target, '+', rest);
    }
}

/// A request is only ever resolved to a target of the backend; or, for a name that carries none
/// and has several targets to choose from, to no target yet.
pub proof fn resolved_targets_exist(
    backend: BackendView,
    name: Seq<char>,
    uri: ResourceUriView,
    id: Seq<char>,
)
    ensures
        mcp_request_name_spec(backend, name) matches Some((target, _)) ==> {
            ||| backend.targets.contains(target)
            ||| target.len() == 0 && backend.prefix_mode is Never
        },
        mcp_request_uri_spec(backend, uri) matches Some((target, _)) ==> backend.targets.contains(
            target,
        ),
        mcp_request_task_spec(backend, id) matches Some((target, _)) ==> backend.targets.contains(
            target,
        ),
{
    if backend.targets.len() == 1 {
        assert(backend.targets.contains(backend.targets[0]));
    }
}

} // verus!
