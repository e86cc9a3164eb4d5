//! Laws of logins.
use crate::form::lemma_lookup_at;
use crate::form::lemma_lookup_none;
use crate::laws::exchange::first_of_name;
use crate::laws::exchange::has_no;
use crate::login::accept_answer;
use crate::login::callback_url;
use crate::login::client_query;
use crate::login::provider_query;
use crate::login::start_login;
use crate::login::Fault;
use crate::login::Refusal;
use crate::oauth::allowed_origin;
use crate::oauth::allowed_redirect;
use crate::oauth::gateway_issuer;
use crate::oauth::keycloak_endpoint;
use crate::oauth::metadata_base;
use crate::oauth::McpAuthentication;
use crate::oauth::RequestUri;
use crate::text::ends_with_spec;
use crate::token::SealedState;
use crate::weburl::url_origin;
use vstd::prelude::*;

verus! {

// Which URIs a client may be sent to.

/// Loopback over plain HTTP.
pub open spec fn is_loopback(scheme: Seq<char>, host: Option<Seq<char>>) -> bool {
    &&& scheme == "http"@
    &&& exists|h: Seq<char>|
        host == Some(h) && (h == "127.0.0.1"@ || h == "localhost"@ || h == "[::1]"@)
}

/// Every URL of the list is allowed, at whatever place it stands; so is every loopback URL over
/// plain HTTP, whatever the list; and nothing else is.
pub proof fn listed_and_loopback_urls_are_allowed(
    uri: &str,
    listed: &Vec<String>,
    r: bool,
    i: int,
)
    requires
        call_ensures(allowed_redirect, (uri, listed), r),
    ensures
        0 <= i < listed@.len() && listed@[i]@ == uri@ && url_origin(uri@) is Some ==> r,
        url_origin(uri@) matches Some((scheme, host)) ==> is_loopback(scheme, host) ==> r,
        url_origin(uri@) is None ==> !r,
        r ==> (exists|j: int| 0 <= j < listed@.len() && (#[trigger] listed@[j])@ == uri@) || (
        url_origin(uri@) matches Some((scheme, host)) && is_loopback(scheme, host)),
{
    let l = listed.deep_view();
    assert(forall|j: int| 0 <= j < l.len() ==> #[trigger] l[j] == listed@[j]@);
    if 0 <= i < listed@.len() && listed@[i]@ == uri@ {
        assert(l[i] == uri@);
    }
    if l.contains(uri@) {
        let j = choose|j: int| 0 <= j < l.len() && l[j] == uri@;
        assert(listed@[j]@ == uri@);
    }
    if let Some((scheme, host)) = url_origin(uri@) {
        if let Some(h) = host {
            assert(host == Some(h));
        }
    }
}

/// The same of a URI whose scheme and host are known.
pub proof fn listed_and_loopback_origins_are_allowed(
    uri: &str,
    origin: &Option<(String, Option<String>)>,
    listed: &Vec<String>,
    r: bool,
    i: int,
)
    requires
        call_ensures(allowed_origin, (uri, origin, listed), r),
    ensures
        *origin is None ==> !r,
        *origin is Some && 0 <= i < listed@.len() && listed@[i]@ == uri@ ==> r,
        *origin matches Some((scheme, host)) ==> is_loopback(scheme@, host.deep_view()) ==> r,
        r ==> (exists|j: int| 0 <= j < listed@.len() && (#[trigger] listed@[j])@ == uri@) || (
        *origin matches Some((scheme, host)) && is_loopback(scheme@, host.deep_view())),
{
    let l = listed.deep_view();
    assert(forall|j: int| 0 <= j < l.len() ==> #[trigger] l[j] == listed@[j]@);
    if 0 <= i < listed@.len() && listed@[i]@ == uri@ {
        assert(l[i] == uri@);
    }
    if l.contains(uri@) {
        let j = choose|j: int| 0 <= j < l.len() && l[j] == uri@;
        assert(listed@[j]@ == uri@);
    }
    if let Some((scheme, host)) = *origin {
        if let Some(h) = host {
            assert(host.deep_view() == Some(h@));
        }
    }
}

// The gateway's URIs.

/// A document's URL is that of the endpoint without its suffix, whatever stands in front of it; a
/// path that does not end with the suffix is the document's own.
pub proof fn documents_stand_before_their_suffix(
    uri: &RequestUri,
    suffix: &str,
    front: Seq<char>,
    base: String,
    callback: String,
)
    requires
        call_ensures(metadata_base, (uri, suffix), base),
        call_ensures(callback_url, (uri, suffix), callback),
    ensures
        uri.path@ == front + suffix@ ==> base@ == uri.origin@ + front,
        (forall|f: Seq<char>| uri.path@ != #[trigger] (f + suffix@)) ==> base@ == uri.origin@
            + uri.path@,
        callback@ == base@ + "/callback"@,
{
    let p = uri.path@;
    if p == front + suffix@ {
        assert(p.subrange(p.len() - suffix@.len(), p.len() as int) =~= suffix@);
        assert(p.subrange(0, p.len() - suffix@.len()) =~= front);
    }
    if (forall|f: Seq<char>| p != #[trigger] (f + suffix@)) && ends_with_spec(p, suffix@) {
        let f = p.subrange(0, p.len() - suffix@.len());
        assert(p =~= f + suffix@);
    }
}

/// The gateway is the issuer of a document's path without the well-known part, whatever the path;
/// where there is no such part, or the suffix is missing, there is no issuer.
pub proof fn issuers_stand_behind_the_well_known_part(
    uri: &RequestUri,
    suffix: &str,
    path: Seq<char>,
    r: Option<String>,
)
    requires
        call_ensures(gateway_issuer, (uri, suffix), r),
    ensures
        uri.path@ == "/.well-known/oauth-authorization-server"@ + path + suffix@ ==> (
        r matches Some(issuer) && issuer@ == uri.origin@ + path),
        r matches Some(issuer) ==> exists|p: Seq<char>|
            {
                &&& uri.path@ == #[trigger] ("/.well-known/oauth-authorization-server"@ + p)
                    + suffix@
                &&& issuer@ == uri.origin@ + p
            },
{
    let w = "/.well-known/oauth-authorization-server"@;
    let s = uri.path@;
    let k = suffix@;
    if s == w + path + k {
        let front = w + path;
        assert(s.subrange(s.len() - k.len(), s.len() as int) =~= k);
        assert(s.subrange(0, s.len() - k.len()) =~= front);
        assert(front.subrange(0, w.len() as int) =~= w);
        assert(front.subrange(w.len() as int, front.len() as int) =~= path);
    }
    if let Some(issuer) = r {
        let front = s.subrange(0, s.len() - k.len());
        let p = front.subrange(w.len() as int, front.len() as int);
        assert(front =~= w + p);
        assert(s =~= (w + p) + k);
    }
}

/// A realm's endpoint hangs off its issuer.
pub proof fn endpoints_hang_off_the_issuer(auth: &McpAuthentication, name: &str, r: String)
    requires
        call_ensures(keycloak_endpoint, (auth, name), r),
    ensures
        r@ == auth.issuer@ + "/protocol/openid-connect/"@ + name@,
{
}

// Starting a login.

/// A login starts with the first redirect URI and the first state of the request, wherever they
/// stand, and lasts ten minutes; it does not start without a redirect URI, nor with one that is
/// not allowed, nor where its end cannot be told.
pub proof fn logins_keep_what_the_client_said(
    pairs: &Vec<(String, String)>,
    allowed: bool,
    now: u64,
    r: Result<SealedState, Refusal>,
    uri: int,
    state: int,
)
    requires
        call_ensures(start_login, (pairs, allowed, now), r),
    ensures
        has_no(pairs.deep_view(), "redirect_uri"@) ==> (r matches Err(Refusal::BadRequest(why))
            && why@ == "missing redirect_uri"@),
        first_of_name(pairs.deep_view(), uri, "redirect_uri"@) ==> {
            &&& !allowed ==> (r matches Err(Refusal::BadRequest(why)) && why@
                == "redirect_uri not allowed"@)
            &&& allowed && now > u64::MAX - 600 ==> r == Err::<SealedState, Refusal>(
                Refusal::Fault(Fault::Clock),
            )
            &&& allowed && now <= u64::MAX - 600 ==> (r matches Ok(st) && {
                &&& st.redirect_uri@ == pairs.deep_view()[uri].1
                &&& st.exp == now + 600
                &&& first_of_name(pairs.deep_view(), state, "state"@) ==> (st.state matches Some(s)
                    && s@ == pairs.deep_view()[state].1)
                &&& has_no(pairs.deep_view(), "state"@) ==> st.state is None
            })
        },
{
    let p = pairs.deep_view();
    if has_no(p, "redirect_uri"@) {
        lemma_lookup_none(p, "redirect_uri"@);
    }
    if first_of_name(p, uri, "redirect_uri"@) {
        lemma_lookup_at(p, "redirect_uri"@, uri);
    }
    if first_of_name(p, state, "state"@) {
        lemma_lookup_at(p, "state"@, state);
    }
    if has_no(p, "state"@) {
        lemma_lookup_none(p, "state"@);
    }
}

proof fn lemma_kept_of_concat(
    a: Seq<(Seq<char>, Seq<char>)>,
    b: Seq<(Seq<char>, Seq<char>)>,
    keep: spec_fn((Seq<char>, Seq<char>)) -> bool,
)
    ensures
        (a + b).filter(keep) == a.filter(keep) + b.filter(keep),
    decreases b.len(),
{
    reveal(Seq::filter);
    if b.len() == 0 {
        assert(a + b =~= a);
        assert(a.filter(keep) + b.filter(keep) =~= a.filter(keep));
    } else {
        lemma_kept_of_concat(a, b.drop_last(), keep);
        assert((a + b).drop_last() =~= a + b.drop_last());
        assert((a + b).last() == b.last());
        assert((a + b).filter(keep) =~= a.filter(keep) + b.filter(keep));
    }
}

/// What the provider gets of two halves of a request is what it gets of each, in order; of a pair
/// by itself it gets the pair, unless it is a redirect URI or a state; and behind all of it stand
/// the gateway's callback and state.
pub proof fn provider_gets_all_else_in_order(
    a: &Vec<(String, String)>,
    b: &Vec<(String, String)>,
    both: &Vec<(String, String)>,
    callback: String,
    state: String,
    of_a: Vec<(String, String)>,
    of_b: Vec<(String, String)>,
    of_both: Vec<(String, String)>,
)
    requires
        both.deep_view() == a.deep_view() + b.deep_view(),
        call_ensures(provider_query, (a, callback, state), of_a),
        call_ensures(provider_query, (b, callback, state), of_b),
        call_ensures(provider_query, (both, callback, state), of_both),
    ensures
        of_a@.len() >= 2,
        of_a.deep_view()[of_a@.len() - 2] == ("redirect_uri"@, callback@),
        of_a.deep_view()[of_a@.len() - 1] == ("state"@, state@),
        of_both.deep_view() == of_a.deep_view().take(of_a@.len() - 2) + of_b.deep_view(),
        a@.len() == 0 ==> of_a@.len() == 2,
        a@.len() == 1 && (a.deep_view()[0].0 == "redirect_uri"@ || a.deep_view()[0].0 == "state"@)
            ==> of_a@.len() == 2,
        a@.len() == 1 && a.deep_view()[0].0 != "redirect_uri"@ && a.deep_view()[0].0 != "state"@
            ==> of_a@.len() == 3 && of_a.deep_view()[0] == a.deep_view()[0],
{
    let keep = |p: (Seq<char>, Seq<char>)| crate::login::passes_on(p);
    let x = a.deep_view();
    let y = b.deep_view();
    lemma_kept_of_concat(x, y, keep);
    assert(of_a.deep_view().take(of_a@.len() - 2) =~= x.filter(keep));
    assert(of_both.deep_view() =~= x.filter(keep) + of_b.deep_view());
    reveal(Seq::filter);
    if x.len() == 1 {
        assert(x.drop_last() =~= Seq::empty());
        assert(x.last() == x[0]);
        assert(x.drop_last().filter(keep) =~= Seq::empty());
    }
}

// The provider's answer.

/// An answer whose issuer is the configured one, whatever text that is, or that names none, is not
/// refused for it: with a login that has not expired, an issuer of the gateway's own and a URL it is
/// accepted, as that login and that issuer. An answer whose issuer is another text is refused.
pub proof fn answers_pass_exactly_where_the_issuer_is_ours(
    pairs: &Vec<(String, String)>,
    auth: &McpAuthentication,
    login: Option<SealedState>,
    now: u64,
    gateway: Option<String>,
    is_url: bool,
    r: Result<(SealedState, String), &'static str>,
    iss: int,
)
    requires
        call_ensures(accept_answer, (pairs, auth, login, now, gateway, is_url), r),
        has_no(pairs.deep_view(), "iss"@) || first_of_name(pairs.deep_view(), iss, "iss"@),
    ensures
        ({
            let p = pairs.deep_view();
            let foreign = !has_no(p, "iss"@) && p[iss].1 != auth.issuer@;
            &&& foreign ==> (r matches Err(why) && why@
                == "iss does not match the configured issuer"@)
            &&& !foreign && login is None ==> (r matches Err(why) && why@ == "invalid state"@)
            &&& !foreign && login is Some ==> {
                let st = login->0;
                &&& now > st.exp ==> (r matches Err(why) && why@ == "login expired"@)
                &&& now <= st.exp && gateway is None ==> (r matches Err(why) && why@
                    == "cannot derive issuer"@)
                &&& now <= st.exp && gateway is Some && !is_url ==> (r matches Err(why) && why@
                    == "invalid redirect_uri"@)
                &&& now <= st.exp && gateway is Some && is_url ==> (r matches Ok((ended, issuer)) && {
                    &&& ended.redirect_uri@ == st.redirect_uri@
                    &&& ended.state.deep_view() == st.state.deep_view()
                    &&& ended.exp == st.exp
                    &&& issuer@ == gateway->0@
                })
            }
        }),
{
    let p = pairs.deep_view();
    if has_no(p, "iss"@) {
        lemma_lookup_none(p, "iss"@);
    } else {
        lemma_lookup_at(p, "iss"@, iss);
    }
}

/// Where a name stands among those that a client is told.
pub open spec fn place(name: Seq<char>) -> int {
    if name == "code"@ {
        0
    } else if name == "error"@ {
        1
    } else if name == "error_description"@ {
        2
    } else if name == "error_uri"@ {
        3
    } else if name == "state"@ {
        4
    } else if name == "iss"@ {
        5
    } else {
        6
    }
}

proof fn lemma_places()
    ensures
        place("code"@) == 0,
        place("error"@) == 1,
        place("error_description"@) == 2,
        place("error_uri"@) == 3,
        place("state"@) == 4,
        place("iss"@) == 5,
{
    reveal_strlit("code");
    reveal_strlit("error");
    reveal_strlit("error_description");
    reveal_strlit("error_uri");
    reveal_strlit("state");
    reveal_strlit("iss");
    assert("code"@.len() == 4 && "error"@.len() == 5 && "error_description"@.len() == 17);
    assert("error_uri"@.len() == 9 && "state"@.len() == 5 && "iss"@.len() == 3);
    assert("error"@[0] == 'e' && "state"@[0] == 's');
}

/// A client is told the code and the state that there are, what the answer says first of an error,
/// the gateway as issuer, each once, in order, and nothing else.
pub proof fn clients_are_told_each_thing_once(
    pairs: &Vec<(String, String)>,
    code: Option<&str>,
    state: Option<&str>,
    gateway: &str,
    r: Vec<(String, String)>,
    i: int,
    j: int,
    name: Seq<char>,
    at: int,
)
    requires
        call_ensures(client_query, (pairs, code, state, gateway), r),
    ensures
        0 <= i < j < r@.len() ==> place(r.deep_view()[i].0) < place(r.deep_view()[j].0) <= 5,
        r@.len() > 0,
        r.deep_view()[r@.len() - 1] == ("iss"@, gateway@),
        code matches Some(c) ==> r.deep_view()[0] == ("code"@, c@),
        code is None ==> has_no(r.deep_view(), "code"@),
        state matches Some(s) ==> r@.len() > 1 && r.deep_view()[r@.len() - 2] == ("state"@, s@),
        state is None ==> has_no(r.deep_view(), "state"@),
        1 <= place(name) <= 3 ==> {
            &&& has_no(pairs.deep_view(), name) ==> has_no(r.deep_view(), name)
            &&& first_of_name(pairs.deep_view(), at, name) ==> exists|k: int|
                0 <= k < r@.len() && #[trigger] r.deep_view()[k] == (
                    name,
                    pairs.deep_view()[at].1,
                )
        },
{
    lemma_places();
    let p = pairs.deep_view();
    let told = r.deep_view();
    assert(told.len() == r@.len());
    if has_no(p, name) {
        lemma_lookup_none(p, name);
    }
    if first_of_name(p, at, name) {
        lemma_lookup_at(p, name, at);
    }
    let a = crate::login::optional_pair("code"@, code.deep_view());
    let b = crate::login::optional_pair("error"@, crate::form::lookup(p, "error"@));
    let c = crate::login::optional_pair(
        "error_description"@,
        crate::form::lookup(p, "error_description"@),
    );
    let d = crate::login::optional_pair("error_uri"@, crate::form::lookup(p, "error_uri"@));
    let e = crate::login::optional_pair("state"@, state.deep_view());
    assert(told == a + b + c + d + e + seq![("iss"@, gateway@)]);
    let n = a.len() + b.len();
    if b.len() == 1 {
        assert(told[a.len() as int] == b[0]);
    }
    if c.len() == 1 {
        assert(told[n as int] == c[0]);
    }
    if d.len() == 1 {
        assert(told[(n + c.len()) as int] == d[0]);
    }
    if e.len() == 1 {
        assert(told[(n + c.len() + d.len()) as int] == e[0]);
    }
}

} // verus!
