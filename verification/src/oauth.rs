//! The URIs of the gateway as authorization server in front of a Keycloak realm, and the URIs to
//! which it sends clients.
use crate::text::join;
use crate::text::str_eq;
use crate::text::strip_prefix;
use crate::text::strip_prefix_spec;
use crate::text::strip_suffix;
use crate::text::strip_suffix_spec;
use crate::weburl::parse_origin;
use crate::weburl::url_origin;
use vstd::prelude::*;
use vstd::string::StringExecFns;

verus! {

/// The issuer that the gateway stands in front of, and the redirect URIs that are allowed by
/// name.
#[derive(Clone, Debug, PartialEq)]
pub struct McpAuthentication {
    pub issuer: String,
    pub allowed_redirects: Vec<String>,
}

/// What an `McpAuthentication` holds.
pub struct AuthView {
    pub issuer: Seq<char>,
    pub allowed_redirects: Seq<Seq<char>>,
}

impl View for McpAuthentication {
    type V = AuthView;

    open spec fn view(&self) -> AuthView {
        AuthView {
            issuer: self.issuer@,
            allowed_redirects: self.allowed_redirects.deep_view(),
        }
    }
}

/// A request's external URL without its query: scheme and authority, then the path.
#[derive(Clone, Debug, PartialEq)]
pub struct RequestUri {
    pub origin: String,
    pub path: String,
}

/// What a `RequestUri` holds.
pub struct UriView {
    pub origin: Seq<char>,
    pub path: Seq<char>,
}

impl View for RequestUri {
    type V = UriView;

    open spec fn view(&self) -> UriView {
        UriView { origin: self.origin@, path: self.path@ }
    }
}

/// The URL of the metadata document that an endpoint hangs off.
pub open spec fn metadata_base_spec(uri: UriView, suffix: Seq<char>) -> Seq<char> {
    uri.origin + match strip_suffix_spec(uri.path, suffix) {
        Some(path) => path,
        None => uri.path,
    }
}

/// The issuer that the metadata document at this endpoint's base advertises: the document's URL
/// without the well-known part of its path.
pub open spec fn gateway_issuer_spec(uri: UriView, suffix: Seq<char>) -> Option<Seq<char>> {
    match strip_suffix_spec(uri.path, suffix) {
        Some(path) => match strip_prefix_spec(path, "/.well-known/oauth-authorization-server"@) {
            Some(issuer_path) => Some(uri.origin + issuer_path),
            None => None,
        },
        None => None,
    }
}

/// An endpoint of the realm.
pub open spec fn keycloak_endpoint_spec(issuer: Seq<char>, name: Seq<char>) -> Seq<char> {
    issuer + "/protocol/openid-connect/"@ + name
}

/// External URL of the metadata document this endpoint hangs off, such as
/// `https://gw/.well-known/oauth-authorization-server/my-server/mcp`.
pub fn metadata_base(uri: &RequestUri, suffix: &str) -> (r: String)
    ensures
        r@ == metadata_base_spec(uri@, suffix@),
{
    let path = match strip_suffix(uri.path.as_str(), suffix) {
        Some(path) => path,
        None => uri.path.as_str(),
    };
    join(uri.origin.as_str(), path)
}

/// The issuer the gateway advertises in its metadata.
pub fn gateway_issuer(uri: &RequestUri, suffix: &str) -> (r: Option<String>)
    ensures
        r.deep_view() == gateway_issuer_spec(uri@, suffix@),
{
    match strip_suffix(uri.path.as_str(), suffix) {
        Some(path) => match strip_prefix(path, "/.well-known/oauth-authorization-server") {
            Some(issuer_path) => Some(join(uri.origin.as_str(), issuer_path)),
            None => None,
        },
        None => None,
    }
}

/// The realm's endpoint of this name.
pub fn keycloak_endpoint(auth: &McpAuthentication, name: &str) -> (r: String)
    ensures
        r@ == keycloak_endpoint_spec(auth.issuer@, name@),
{
    let mut s = join(auth.issuer.as_str(), "/protocol/openid-connect/");
    s.append(name);
    s
}

/// A URI of this origin is a client's own: the loopback interface over plain HTTP, on any port
/// (RFC 8252 section 7.3), or one that is allowed by name.
pub open spec fn allowed_origin_spec(
    uri: Seq<char>,
    origin: Option<(Seq<char>, Option<Seq<char>>)>,
    listed: Seq<Seq<char>>,
) -> bool {
    match origin {
        None => false,
        Some((scheme, host)) => {
            ||| {
                &&& scheme == "http"@
                &&& (host == Some("127.0.0.1"@) || host == Some("localhost"@) || host == Some(
                    "[::1]"@,
                ))
            }
            ||| listed.contains(uri)
        },
    }
}

/// A client may be sent to this URI.
pub open spec fn allowed_redirect_spec(uri: Seq<char>, listed: Seq<Seq<char>>) -> bool {
    allowed_origin_spec(uri, url_origin(uri), listed)
}

fn is_listed(uri: &str, listed: &Vec<String>) -> (r: bool)
    ensures
        r == listed.deep_view().contains(uri@),
{
    let mut i: usize = 0;
    while i < listed.len()
        invariant
            i <= listed@.len(),
            forall|j: int| 0 <= j < i ==> #[trigger] listed.deep_view()[j] != uri@,
        decreases listed@.len() - i,
    {
        if str_eq(listed[i].as_str(), uri) {
            assert(listed.deep_view()[i as int] == uri@);
            return true;
        }
        i += 1;
    }
    false
}

/// Whether a client may be sent to a URI of this scheme and host.
pub fn allowed_origin(
    uri: &str,
    origin: &Option<(String, Option<String>)>,
    listed: &Vec<String>,
) -> (r: bool)
    ensures
        r == allowed_origin_spec(uri@, origin.deep_view(), listed.deep_view()),
{
    match origin {
        None => false,
        Some((scheme, host)) => {
            let loopback = match host {
                Some(h) => str_eq(h.as_str(), "127.0.0.1") || str_eq(h.as_str(), "localhost")
                    || str_eq(h.as_str(), "[::1]"),
                None => false,
            };
            (str_eq(scheme.as_str(), "http") && loopback) || is_listed(uri, listed)
        },
    }
}

/// Whether a client may be sent to this URI.
///
/// The provider only ever sees the gateway's callback, so it can no longer reject unknown
/// redirect URIs. Without this check `/authorize` would hand a victim's code to whoever wrote
/// the link.
pub fn allowed_redirect(uri: &str, listed: &Vec<String>) -> (r: bool)
    ensures
        r == allowed_redirect_spec(uri@, listed.deep_view()),
{
    allowed_origin(uri, &parse_origin(uri), listed)
}

} // verus!
