//! Laws of what contracts see of values: values that look the same hold the same.
use crate::endpoint::Outbound;
use crate::endpoint::Step;
use crate::endpoint::TokenStep;
use crate::error::Reply;
use crate::info::ResourceId;
use crate::json::json_text;
use crate::json::Field;
use crate::jsonrpc::ErrorData;
use crate::jsonrpc::RequestId;
use crate::login::Refusal;
use crate::oauth::McpAuthentication;
use crate::oauth::RequestUri;
use crate::response::Response;
use crate::routing::McpBackend;
use crate::routing::ResourceUri;
use crate::routing::UiUri;
use crate::token::SealedCode;
use crate::token::SealedState;
use vstd::prelude::*;

verus! {

/// Request IDs that look the same are the same number or the same text.
pub proof fn ids_look_as_they_are(a: RequestId, b: RequestId)
    requires
        a@ == b@,
    ensures
        a matches RequestId::Number(n) ==> (b matches RequestId::Number(m) && n == m),
        a matches RequestId::Text(s) ==> (b matches RequestId::Text(t) && s@ == t@),
        a.deep_view() == a@,
{
}

/// Errors that look the same have the same code and message, and data that render the same.
pub proof fn errors_look_as_they_are(a: ErrorData, b: ErrorData)
    requires
        a@ == b@,
    ensures
        a.code == b.code,
        a.message@ == b.message@,
        a.data is None <==> b.data is None,
        a.data matches Some(x) ==> (b.data matches Some(y) && json_text(x) == json_text(y)),
{
}

/// A clone of an ID, of an error or of a resource looks the same.
pub proof fn clones_look_the_same(
    id: &RequestId,
    id2: RequestId,
    error: &ErrorData,
    error2: ErrorData,
    resource: &ResourceId,
    resource2: ResourceId,
)
    requires
        call_ensures(<RequestId as Clone>::clone, (id,), id2),
        call_ensures(<ErrorData as Clone>::clone, (error,), error2),
        call_ensures(<ResourceId as Clone>::clone, (resource,), resource2),
    ensures
        id2@ == id@,
        error2@ == error@,
        resource2.target@ == resource.target@,
        resource2.name@ == resource.name@,
{
}

/// Two lists of names and values are the same, pair by pair.
pub open spec fn same_pairs(a: Vec<(String, String)>, b: Vec<(String, String)>) -> bool {
    &&& a@.len() == b@.len()
    &&& forall|i: int|
        0 <= i < a@.len() ==> (#[trigger] a@[i]).0@ == b@[i].0@ && a@[i].1@ == b@[i].1@
}

proof fn lemma_same_pairs(a: Vec<(String, String)>, b: Vec<(String, String)>)
    requires
        a.deep_view() == b.deep_view(),
    ensures
        same_pairs(a, b),
{
    assert(a.deep_view().len() == a@.len() && b.deep_view().len() == b@.len());
    assert forall|i: int| 0 <= i < a@.len() implies (#[trigger] a@[i]).0@ == b@[i].0@ && a@[i].1@
        == b@[i].1@ by {
        assert(a.deep_view()[i] == (a@[i].0@, a@[i].1@));
        assert(b.deep_view()[i] == (b@[i].0@, b@[i].1@));
    }
}

/// Replies that look the same have the same status, headers and body.
pub proof fn responses_look_as_they_are(a: Response, b: Response)
    requires
        a@ == b@,
    ensures
        a.status == b.status,
        same_pairs(a.headers, b.headers),
        a.body@ == b.body@,
{
    lemma_same_pairs(a.headers, b.headers);
}

/// Sealed payloads that look the same hold the same.
pub proof fn payloads_look_as_they_are(a: SealedState, b: SealedState, c: SealedCode, d: SealedCode)
    requires
        a@ == b@,
        c@ == d@,
    ensures
        a.redirect_uri@ == b.redirect_uri@,
        a.exp == b.exp,
        a.state is None <==> b.state is None,
        a.state matches Some(x) ==> (b.state matches Some(y) && x@ == y@),
        c.code@ == d.code@,
        c.redirect_uri@ == d.redirect_uri@,
{
    assert(a.state.deep_view() == b.state.deep_view());
}

/// URIs and configurations that look the same hold the same.
pub proof fn settings_look_as_they_are(
    a: RequestUri,
    b: RequestUri,
    c: McpAuthentication,
    d: McpAuthentication,
    i: int,
)
    requires
        a@ == b@,
        c@ == d@,
    ensures
        a.origin@ == b.origin@,
        a.path@ == b.path@,
        c.issuer@ == d.issuer@,
        c.allowed_redirects@.len() == d.allowed_redirects@.len(),
        0 <= i < c.allowed_redirects@.len() ==> c.allowed_redirects@[i]@
            == d.allowed_redirects@[i]@,
{
    let x = c.allowed_redirects.deep_view();
    let y = d.allowed_redirects.deep_view();
    assert(x == y);
    assert(x.len() == c.allowed_redirects@.len() && y.len() == d.allowed_redirects@.len());
    if 0 <= i < c.allowed_redirects@.len() {
        assert(x[i] == c.allowed_redirects@[i]@ && y[i] == d.allowed_redirects@[i]@);
    }
}

/// Backends that look the same have the same targets, in order, and the same mode.
pub proof fn backends_look_as_they_are(a: McpBackend, b: McpBackend, i: int)
    requires
        a@ == b@,
    ensures
        a.prefix_mode == b.prefix_mode,
        a.targets@.len() == b.targets@.len(),
        0 <= i < a.targets@.len() ==> a.targets@[i].name@ == b.targets@[i].name@,
{
    assert(a@.targets == b@.targets);
    assert(a@.targets.len() == a.targets@.len() && b@.targets.len() == b.targets@.len());
    if 0 <= i < a.targets@.len() {
        assert(a@.targets[i] == a.targets@[i].name@ && b@.targets[i] == b.targets@[i].name@);
    }
}

/// Resource URIs that look the same are the same text and hold the same.
pub proof fn resource_uris_look_as_they_are(a: ResourceUri, b: ResourceUri)
    requires
        a@ == b@,
    ensures
        a.uri@ == b.uri@,
        a.ui is Plain <==> b.ui is Plain,
        a.ui is Undecodable <==> b.ui is Undecodable,
        a.ui matches UiUri::Decoded(t, u) ==> (b.ui matches UiUri::Decoded(v, w) && t@ == v@ && u@
            == w@),
{
}

/// JSON fields that look the same hold the same.
pub proof fn fields_look_as_they_are(a: Field, b: Field, i: int)
    requires
        a@ == b@,
    ensures
        a.deep_view() == a@,
        a is Null <==> b is Null,
        a matches Field::Text(s) ==> (b matches Field::Text(t) && s@ == t@),
        a matches Field::Unsigned(n) ==> (b matches Field::Unsigned(m) && n == m),
        a matches Field::Texts(v) ==> (b matches Field::Texts(w) && v@.len() == w@.len() && (0 <= i
            < v@.len() ==> v@[i]@ == w@[i]@)),
{
    if let Field::Texts(v) = a {
        if let Field::Texts(w) = b {
            assert(v.deep_view() == w.deep_view());
            assert(v.deep_view().len() == v@.len() && w.deep_view().len() == w@.len());
            if 0 <= i < v@.len() {
                assert(v.deep_view()[i] == v@[i]@);
                if i < w@.len() {
                    assert(w.deep_view()[i] == w@[i]@);
                }
            }
        }
    }
}

/// Steps that look the same do the same.
pub proof fn steps_look_as_they_are(a: Step, b: Step, c: TokenStep, d: TokenStep)
    requires
        a@ == b@,
        c@ == d@,
    ensures
        a is ReadBody <==> b is ReadBody,
        a matches Step::Reply(x) ==> (b matches Step::Reply(y) && x@ == y@),
        c matches TokenStep::Reply(x) ==> (d matches TokenStep::Reply(y) && x@ == y@),
        c matches TokenStep::Forward(x) ==> (d matches TokenStep::Forward(y) && x@ == y@),
{
}

/// Outbound requests that look the same go to the same place with the same content.
pub proof fn outbound_requests_look_as_they_are(a: Outbound, b: Outbound)
    requires
        a@ == b@,
    ensures
        a.uri@ == b.uri@,
        a.content_type@ == b.content_type@,
        a.body@ == b.body@,
        a.authorization is None <==> b.authorization is None,
        a.authorization matches Some(x) ==> (b.authorization matches Some(y) && x@ == y@),
{
    assert(a.authorization.deep_view() == b.authorization.deep_view());
    if let Some(x) = a.authorization {
        assert(x.deep_view() =~= x@);
    }
    if let Some(y) = b.authorization {
        assert(y.deep_view() =~= y@);
    }
}

/// What is told looks as it is: the same request, and the same text or error.
pub proof fn told_errors_look_as_they_are(a: Reply, b: Reply, c: Refusal, d: Refusal)
    requires
        a@ == b@,
        c@ == d@,
    ensures
        a matches Reply::ToolError { request_id, text, typed } ==> (b matches Reply::ToolError {
            request_id: id2,
            text: text2,
            typed: typed2,
        } && request_id@ == id2@ && text@ == text2@ && typed == typed2),
        a matches Reply::Error { request_id, error } ==> (b matches Reply::Error {
            request_id: id2,
            error: error2,
        } && request_id@ == id2@ && error@ == error2@),
        c matches Refusal::BadRequest(m) ==> (d matches Refusal::BadRequest(n) && m@ == n@),
        c matches Refusal::Fault(f) ==> (d matches Refusal::Fault(g) && f == g),
        a.deep_view() == a@,
{
}

} // verus!
