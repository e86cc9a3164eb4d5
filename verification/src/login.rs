//! Logins through the gateway: `/authorize` sends the browser to the provider, `/callback` sends
//! it back to the client.
//!
//! When the gateway presents itself as the authorization server, the authorization response must
//! also come from the gateway, or clients that follow RFC 9207 reject the provider's `iss`. So
//! the gateway stands in the whole round trip:
//!
//! ```text
//! client -> {meta}/authorize -> provider's login -> {meta}/callback -> client's redirect_uri
//! client -> {meta}/token -> provider's token endpoint
//! ```
//!
//! It stores nothing. The client's `redirect_uri` and `state` travel inside a sealed `state`; the
//! code handed to the client is sealed too, with the original `redirect_uri`, so that `/token`
//! can enforce RFC 6749 section 4.1.3 without a store. The provider's client must list
//! `{meta}/callback` as a valid redirect URI.
use crate::clock::now;
use crate::form::form_pairs;
use crate::form::form_text;
use crate::form::get;
use crate::form::lookup;
use crate::form::query_pairs;
use crate::form::query_pairs_spec;
use crate::form::write_form;
use crate::oauth::allowed_redirect;
use crate::oauth::allowed_redirect_spec;
use crate::oauth::gateway_issuer;
use crate::oauth::gateway_issuer_spec;
use crate::oauth::keycloak_endpoint;
use crate::oauth::keycloak_endpoint_spec;
use crate::oauth::metadata_base;
use crate::oauth::metadata_base_spec;
use crate::oauth::AuthView;
use crate::oauth::McpAuthentication;
use crate::oauth::RequestUri;
use crate::oauth::UriView;
use crate::response::bad_request;
use crate::response::bad_request_spec;
use crate::response::header_char;
use crate::response::header_safe;
use crate::response::redirect;
use crate::response::redirect_spec;
use crate::response::Response;
use crate::response::ResponseView;
use crate::response::FOUND;
use crate::seal::random_nonce;
use crate::seal::SealingKey;
use crate::text::join;
use crate::text::str_eq;
use crate::token::code_fits;
use crate::token::opened_code;
use crate::token::opened_state;
use crate::token::sealed_code;
use crate::token::sealed_state;
use crate::token::state_fits;
use crate::token::CodeView;
use crate::token::SealedCode;
use crate::token::SealedState;
use crate::token::StateView;
use crate::weburl::fits;
use crate::weburl::parse_origin;
use crate::weburl::tells;
use crate::weburl::url_fits;
use crate::weburl::url_origin;
use crate::weburl::url_with_params;
use crate::weburl::with_params;
use vstd::prelude::*;
use vstd::string::StringExecFns;
use vstd::utf8::encode_utf8;

verus! {

/// How long a login may take, in seconds.
pub const STATE_TTL_SECS: u64 = 600;

/// Why no reply could be made at all.
#[derive(Clone, Copy, Debug, PartialEq, Eq)]
pub enum Fault {
    /// A location cannot stand in a header.
    InvalidHeader,
    /// A payload is too long to be sealed.
    Seal,
    /// The clock is so late that an expiry cannot be told.
    Clock,
    /// The redirect to the client would be too long.
    TooLong,
}

/// Why a login does not start.
#[derive(Clone, Copy, Debug, PartialEq, Eq)]
pub enum Refusal {
    /// The client is told what is wrong with its request.
    BadRequest(&'static str),
    /// No reply can be made.
    Fault(Fault),
}

/// What a refusal says.
pub enum RefusalView {
    BadRequest(Seq<char>),
    Fault(Fault),
}

impl View for Refusal {
    type V = RefusalView;

    open spec fn view(&self) -> RefusalView {
        match self {
            Refusal::BadRequest(msg) => RefusalView::BadRequest(msg@),
            Refusal::Fault(fault) => RefusalView::Fault(*fault),
        }
    }
}

/// What a function that replies hands back, as plain content.
pub open spec fn outcome(r: Result<Response, Fault>) -> Result<ResponseView, Fault> {
    match r {
        Ok(resp) => Ok(resp@),
        Err(fault) => Err(fault),
    }
}

/// What a check hands back, as plain content.
pub open spec fn start_outcome(r: Result<SealedState, Refusal>) -> Result<StateView, RefusalView> {
    match r {
        Ok(st) => Ok(st@),
        Err(refusal) => Err(refusal@),
    }
}

/// What a check hands back, as plain content.
pub open spec fn answer_outcome(r: Result<(SealedState, String), &'static str>) -> Result<
    (StateView, Seq<char>),
    Seq<char>,
> {
    match r {
        Ok((st, gateway)) => Ok((st@, gateway@)),
        Err(msg) => Err(msg@),
    }
}

// `/authorize`

/// The login that a request starts, where it may be started at all.
pub open spec fn start_login_spec(
    pairs: Seq<(Seq<char>, Seq<char>)>,
    allowed: bool,
    now: u64,
) -> Result<StateView, RefusalView> {
    match lookup(pairs, "redirect_uri"@) {
        None => Err(RefusalView::BadRequest("missing redirect_uri"@)),
        Some(redirect_uri) => if !allowed {
            Err(RefusalView::BadRequest("redirect_uri not allowed"@))
        } else if now + STATE_TTL_SECS > u64::MAX {
            Err(RefusalView::Fault(Fault::Clock))
        } else {
            Ok(
                StateView {
                    redirect_uri,
                    state: lookup(pairs, "state"@),
                    exp: (now + STATE_TTL_SECS) as u64,
                },
            )
        },
    }
}

/// A pair that goes on to the provider as it came.
pub open spec fn passes_on(pair: (Seq<char>, Seq<char>)) -> bool {
    pair.0 != "redirect_uri"@ && pair.0 != "state"@
}

/// The query that the provider gets: the client's, with the gateway's own redirect URI and state
/// in place of the client's.
pub open spec fn provider_pairs(
    pairs: Seq<(Seq<char>, Seq<char>)>,
    callback: Seq<char>,
    state: Seq<char>,
) -> Seq<(Seq<char>, Seq<char>)> {
    pairs.filter(|p: (Seq<char>, Seq<char>)| passes_on(p)).push(
        ("redirect_uri"@, callback),
    ).push(("state"@, state))
}

/// The redirect URI that the provider knows the gateway by, seen from the endpoint of this
/// suffix.
pub open spec fn callback_uri(uri: UriView, suffix: Seq<char>) -> Seq<char> {
    metadata_base_spec(uri, suffix) + "/callback"@
}

/// Where the browser is sent to log in.
pub open spec fn provider_location(
    pairs: Seq<(Seq<char>, Seq<char>)>,
    uri: UriView,
    issuer: Seq<char>,
    state: Seq<char>,
) -> Seq<char> {
    keycloak_endpoint_spec(issuer, "auth"@) + "?"@ + form_text(
        provider_pairs(pairs, callback_uri(uri, "/authorize"@), state),
    )
}

/// The client named a redirect URI, and it is one to which a client may be sent.
pub open spec fn login_allowed(
    pairs: Seq<(Seq<char>, Seq<char>)>,
    listed: Seq<Seq<char>>,
) -> bool {
    match lookup(pairs, "redirect_uri"@) {
        Some(redirect_uri) => allowed_redirect_spec(redirect_uri, listed),
        None => false,
    }
}

/// What `/authorize` answers at this time, with this nonce. An error cannot be redirected to an
/// untrusted URI, so it is answered directly (RFC 6749 section 4.1.2.1).
pub open spec fn authorize_spec(
    key: Seq<u8>,
    nonce: Seq<u8>,
    now: u64,
    uri: UriView,
    pairs: Seq<(Seq<char>, Seq<char>)>,
    auth: AuthView,
) -> Result<ResponseView, Fault> {
    match start_login_spec(pairs, login_allowed(pairs, auth.allowed_redirects), now) {
        Err(RefusalView::BadRequest(msg)) => Ok(bad_request_spec(msg)),
        Err(RefusalView::Fault(fault)) => Err(fault),
        Ok(st) => if !state_fits(st) {
            Err(Fault::Seal)
        } else if !header_safe(auth.issuer) {
            Err(Fault::InvalidHeader)
        } else {
            Ok(
                redirect_spec(
                    provider_location(pairs, uri, auth.issuer, sealed_state(key, nonce, st)),
                ),
            )
        },
    }
}

/// What a login is sent away with comes back: under this key its state opens to the login and to
/// no code, and the provider reads the query that was written.
pub open spec fn login_returns(
    key: Seq<u8>,
    nonce: Seq<u8>,
    now: u64,
    uri: UriView,
    pairs: Seq<(Seq<char>, Seq<char>)>,
) -> bool {
    let st = start_login_spec(pairs, true, now)->Ok_0;
    let state = sealed_state(key, nonce, st);
    let sent = provider_pairs(pairs, callback_uri(uri, "/authorize"@), state);
    &&& opened_state(key, state) == Some(st)
    &&& opened_code(key, state) is None
    &&& form_pairs(encode_utf8(form_text(sent))) == sent
}

proof fn lemma_header_safe_concat(a: Seq<char>, b: Seq<char>)
    ensures
        header_safe(a + b) <==> header_safe(a) && header_safe(b),
{
    if header_safe(a + b) {
        assert forall|i: int| 0 <= i < a.len() implies header_char(#[trigger] a[i]) by {
            assert((a + b)[i] == a[i]);
        }
        assert forall|i: int| 0 <= i < b.len() implies header_char(#[trigger] b[i]) by {
            assert((a + b)[a.len() + i] == b[i]);
        }
    }
}

proof fn lemma_literals_header_safe()
    ensures
        header_safe("/protocol/openid-connect/"@),
        header_safe("auth"@),
        header_safe("?"@),
{
    reveal_strlit("/protocol/openid-connect/");
    reveal_strlit("auth");
    reveal_strlit("?");
}

/// The redirect URI that the provider knows the gateway by.
pub fn callback_url(uri: &RequestUri, suffix: &str) -> (r: String)
    ensures
        r@ == callback_uri(uri@, suffix@),
{
    join(metadata_base(uri, suffix).as_str(), "/callback")
}

/// The login that a request starts. `allowed` tells whether a client may be sent to the redirect
/// URI that the request names.
pub fn start_login(pairs: &Vec<(String, String)>, allowed: bool, now: u64) -> (r: Result<
    SealedState,
    Refusal,
>)
    ensures
        start_outcome(r) == start_login_spec(pairs.deep_view(), allowed, now),
{
    let redirect_uri = match get(pairs, "redirect_uri") {
        Some(u) => u.to_owned(),
        None => return Err(Refusal::BadRequest("missing redirect_uri")),
    };
    if !allowed {
        return Err(Refusal::BadRequest("redirect_uri not allowed"));
    }
    if now > u64::MAX - STATE_TTL_SECS {
        return Err(Refusal::Fault(Fault::Clock));
    }
    let state = match get(pairs, "state") {
        Some(s) => Some(s.to_owned()),
        None => None,
    };
    Ok(SealedState { redirect_uri, state, exp: now + STATE_TTL_SECS })
}

/// The query that the provider gets.
pub fn provider_query(pairs: &Vec<(String, String)>, callback: String, state: String) -> (r: Vec<
    (String, String),
>)
    ensures
        r.deep_view() == provider_pairs(pairs.deep_view(), callback@, state@),
{
    let ghost all = pairs.deep_view();
    let ghost keep = |p: (Seq<char>, Seq<char>)| passes_on(p);
    let mut r: Vec<(String, String)> = Vec::new();
    let mut i: usize = 0;
    assert(r.deep_view() =~= all.take(0).filter(keep)) by {
        reveal(Seq::filter);
    }
    while i < pairs.len()
        invariant
            i <= pairs@.len(),
            all == pairs.deep_view(),
            keep == |p: (Seq<char>, Seq<char>)| passes_on(p),
            r.deep_view() == all.take(i as int).filter(keep),
        decreases pairs@.len() - i,
    {
        let ghost before = r.deep_view();
        proof {
            assert(all.take(i + 1).drop_last() =~= all.take(i as int));
            assert(all.take(i + 1).last() == all[i as int]);
            reveal(Seq::filter);
        }
        let k = pairs[i].0.as_str();
        if !str_eq(k, "redirect_uri") && !str_eq(k, "state") {
            r.push((pairs[i].0.clone(), pairs[i].1.clone()));
            assert(r.deep_view() =~= before.push(all[i as int]));
        }
        i += 1;
    }
    assert(all.take(i as int) =~= all);
    let ghost kept = r.deep_view();
    r.push(("redirect_uri".to_owned(), callback));
    assert(r.deep_view() =~= kept.push(("redirect_uri"@, callback@)));
    r.push(("state".to_owned(), state));
    assert(r.deep_view() =~= provider_pairs(all, callback@, state@));
    r
}

/// `/authorize` at this time, with this nonce. Where it redirects, the state that it sends along
/// opens to the login, and to nothing else.
pub fn authorize_with(
    key: &SealingKey,
    nonce: &[u8; 12],
    now: u64,
    uri: &RequestUri,
    query: Option<&str>,
    auth: &McpAuthentication,
) -> (r: Result<Response, Fault>)
    ensures
        outcome(r) == authorize_spec(
            key@,
            nonce@,
            now,
            uri@,
            query_pairs_spec(query.deep_view()),
            auth@,
        ),
        r matches Ok(resp) ==> resp.status == FOUND ==> login_returns(
            key@,
            nonce@,
            now,
            uri@,
            query_pairs_spec(query.deep_view()),
        ),
{
    let pairs = query_pairs(query);
    let allowed = match get(&pairs, "redirect_uri") {
        Some(u) => allowed_redirect(u, &auth.allowed_redirects),
        None => false,
    };
    let st = match start_login(&pairs, allowed, now) {
        Ok(st) => st,
        Err(Refusal::BadRequest(msg)) => return Ok(bad_request(msg)),
        Err(Refusal::Fault(fault)) => return Err(fault),
    };
    let state = match st.seal(key, nonce) {
        Some(t) => t,
        None => return Err(Fault::Seal),
    };
    let callback = callback_url(uri, "/authorize");
    let form = write_form(&provider_query(&pairs, callback, state));
    let mut location = keycloak_endpoint(auth, "auth");
    location.append("?");
    location.append(form.as_str());
    proof {
        lemma_literals_header_safe();
        let i = auth.issuer@;
        let p = "/protocol/openid-connect/"@;
        lemma_header_safe_concat(i, p);
        lemma_header_safe_concat(i + p, "auth"@);
        lemma_header_safe_concat(i + p + "auth"@, "?"@);
        lemma_header_safe_concat(i + p + "auth"@ + "?"@, form@);
    }
    match redirect(location) {
        Ok(resp) => Ok(resp),
        Err(_) => Err(Fault::InvalidHeader),
    }
}

/// `/authorize`: starts a login now, with a fresh nonce.
pub fn authorize(
    key: &SealingKey,
    uri: &RequestUri,
    query: Option<&str>,
    auth: &McpAuthentication,
) -> (r: Result<Response, Fault>)
    ensures
        exists|nonce: Seq<u8>, now: u64|
            {
                &&& nonce.len() == 12
                &&& outcome(r) == #[trigger] authorize_spec(
                    key@,
                    nonce,
                    now,
                    uri@,
                    query_pairs_spec(query.deep_view()),
                    auth@,
                )
                &&& r matches Ok(resp) ==> resp.status == FOUND ==> login_returns(
                    key@,
                    nonce,
                    now,
                    uri@,
                    query_pairs_spec(query.deep_view()),
                )
            },
        !login_allowed(query_pairs_spec(query.deep_view()), auth@.allowed_redirects) ==> {
            &&& r is Ok
            &&& outcome(r) == authorize_spec(
                key@,
                Seq::empty(),
                0,
                uri@,
                query_pairs_spec(query.deep_view()),
                auth@,
            )
        },
{
    let nonce = random_nonce();
    let time = now();
    authorize_with(key, &nonce, time, uri, query, auth)
}

// `/callback`

/// The provider's answer names another issuer.
pub open spec fn foreign_issuer(pairs: Seq<(Seq<char>, Seq<char>)>, issuer: Seq<char>) -> bool {
    match lookup(pairs, "iss"@) {
        Some(iss) => iss != issuer,
        None => false,
    }
}

/// The login that the provider's answer ends, with the gateway's issuer; or why it ends none.
/// `login` is what the answer's state holds, `gateway` the issuer that the gateway advertises,
/// `is_url` tells whether the login's redirect URI is a URL.
pub open spec fn accept_answer_spec(
    pairs: Seq<(Seq<char>, Seq<char>)>,
    issuer: Seq<char>,
    login: Option<StateView>,
    now: u64,
    gateway: Option<Seq<char>>,
    is_url: bool,
) -> Result<(StateView, Seq<char>), Seq<char>> {
    if foreign_issuer(pairs, issuer) {
        Err("iss does not match the configured issuer"@)
    } else {
        match login {
            None => Err("invalid state"@),
            Some(st) => if now > st.exp {
                Err("login expired"@)
            } else {
                match gateway {
                    None => Err("cannot derive issuer"@),
                    Some(gateway) => if !is_url {
                        Err("invalid redirect_uri"@)
                    } else {
                        Ok((st, gateway))
                    },
                }
            },
        }
    }
}

/// One pair, or none where there is no value.
pub open spec fn optional_pair(name: Seq<char>, value: Option<Seq<char>>) -> Seq<
    (Seq<char>, Seq<char>),
> {
    match value {
        Some(v) => seq![(name, v)],
        None => Seq::empty(),
    }
}

/// What the client is told: the code in its sealed form, what the provider said of an error, the
/// client's own state, and the gateway as issuer.
pub open spec fn client_pairs(
    pairs: Seq<(Seq<char>, Seq<char>)>,
    code: Option<Seq<char>>,
    state: Option<Seq<char>>,
    gateway: Seq<char>,
) -> Seq<(Seq<char>, Seq<char>)> {
    optional_pair("code"@, code) + optional_pair("error"@, lookup(pairs, "error"@))
        + optional_pair("error_description"@, lookup(pairs, "error_description"@)) + optional_pair(
        "error_uri"@,
        lookup(pairs, "error_uri"@),
    ) + optional_pair("state"@, state) + seq![("iss"@, gateway)]
}

/// The login that the state of the provider's answer belongs to.
pub open spec fn answered_login(key: Seq<u8>, pairs: Seq<(Seq<char>, Seq<char>)>) -> Option<
    StateView,
> {
    match lookup(pairs, "state"@) {
        Some(token) => opened_state(key, token),
        None => None,
    }
}

/// The code of the provider's answer, tied to the login's redirect URI.
pub open spec fn answered_code(pairs: Seq<(Seq<char>, Seq<char>)>, st: StateView) -> Option<
    CodeView,
> {
    match lookup(pairs, "code"@) {
        Some(code) => Some(CodeView { code, redirect_uri: st.redirect_uri }),
        None => None,
    }
}

/// The code as the client gets it.
pub open spec fn client_code(key: Seq<u8>, nonce: Seq<u8>, code: Option<CodeView>) -> Option<
    Seq<char>,
> {
    match code {
        Some(c) => Some(sealed_code(key, nonce, c)),
        None => None,
    }
}

/// The redirect that ends a login.
pub open spec fn client_redirect(
    redirect_uri: Seq<char>,
    told: Seq<(Seq<char>, Seq<char>)>,
) -> Result<ResponseView, Fault> {
    if !url_fits(redirect_uri, told) {
        Err(Fault::TooLong)
    } else {
        Ok(redirect_spec(url_with_params(redirect_uri, told)->0))
    }
}

/// What the check of the provider's answer says, everything that it looks at being taken from the
/// request.
pub open spec fn answer_check(
    key: Seq<u8>,
    now: u64,
    uri: UriView,
    pairs: Seq<(Seq<char>, Seq<char>)>,
    issuer: Seq<char>,
) -> Result<(StateView, Seq<char>), Seq<char>> {
    let login = answered_login(key, pairs);
    accept_answer_spec(
        pairs,
        issuer,
        login,
        now,
        gateway_issuer_spec(uri, "/callback"@),
        login is Some && url_origin(login->0.redirect_uri) is Some,
    )
}

/// What `/callback` answers at this time, with this nonce.
pub open spec fn callback_spec(
    key: Seq<u8>,
    nonce: Seq<u8>,
    now: u64,
    uri: UriView,
    pairs: Seq<(Seq<char>, Seq<char>)>,
    issuer: Seq<char>,
) -> Result<ResponseView, Fault> {
    match answer_check(key, now, uri, pairs, issuer) {
        Err(msg) => Ok(bad_request_spec(msg)),
        Ok((st, gateway)) => {
            let code = answered_code(pairs, st);
            if code is Some && !code_fits(code->0) {
                Err(Fault::Seal)
            } else {
                client_redirect(
                    st.redirect_uri,
                    client_pairs(pairs, client_code(key, nonce, code), st.state, gateway),
                )
            }
        },
    }
}

/// What the client of this answer is told.
pub open spec fn told_pairs(
    key: Seq<u8>,
    nonce: Seq<u8>,
    uri: UriView,
    answer: Seq<(Seq<char>, Seq<char>)>,
) -> Seq<(Seq<char>, Seq<char>)> {
    let st = answered_login(key, answer)->0;
    client_pairs(
        answer,
        client_code(key, nonce, answered_code(answer, st)),
        st.state,
        gateway_issuer_spec(uri, "/callback"@)->0,
    )
}

/// What a client is sent away with comes back: under this key its code opens to the provider's
/// code and the client's redirect URI, and to no state; and the client reads what it was told.
pub open spec fn answer_returns(
    key: Seq<u8>,
    nonce: Seq<u8>,
    uri: UriView,
    pairs: Seq<(Seq<char>, Seq<char>)>,
) -> bool {
    let st = answered_login(key, pairs)->0;
    let told = told_pairs(key, nonce, uri, pairs);
    &&& answered_code(pairs, st) matches Some(c) ==> {
        &&& opened_code(key, sealed_code(key, nonce, c)) == Some(c)
        &&& opened_state(key, sealed_code(key, nonce, c)) is None
    }
    &&& tells(url_with_params(st.redirect_uri, told)->0, st.redirect_uri, told)
}

/// Checks the provider's answer. The gateway is the provider's client, so it runs the check of
/// RFC 9207 itself.
pub fn accept_answer(
    pairs: &Vec<(String, String)>,
    auth: &McpAuthentication,
    login: Option<SealedState>,
    now: u64,
    gateway: Option<String>,
    is_url: bool,
) -> (r: Result<(SealedState, String), &'static str>)
    ensures
        answer_outcome(r) == accept_answer_spec(
            pairs.deep_view(),
            auth.issuer@,
            login.deep_view(),
            now,
            gateway.deep_view(),
            is_url,
        ),
{
    if let Some(iss) = get(pairs, "iss") {
        if !str_eq(iss, auth.issuer.as_str()) {
            return Err("iss does not match the configured issuer");
        }
    }
    let st = match login {
        Some(st) => st,
        None => return Err("invalid state"),
    };
    if now > st.exp {
        return Err("login expired");
    }
    let gateway = match gateway {
        Some(issuer) => issuer,
        None => return Err("cannot derive issuer"),
    };
    if !is_url {
        return Err("invalid redirect_uri");
    }
    Ok((st, gateway))
}

fn push_optional(out: &mut Vec<(String, String)>, name: &str, value: Option<&str>)
    ensures
        final(out).deep_view() == old(out).deep_view() + optional_pair(name@, value.deep_view()),
{
    let ghost before = out.deep_view();
    if let Some(v) = value {
        out.push((name.to_owned(), v.to_owned()));
    }
    assert(out.deep_view() =~= before + optional_pair(name@, value.deep_view()));
}

/// What the client is told. Errors get the same treatment as codes, or clients would report an
/// issuer mismatch in place of, say, `access_denied`.
pub fn client_query(
    pairs: &Vec<(String, String)>,
    code: Option<&str>,
    state: Option<&str>,
    gateway: &str,
) -> (r: Vec<(String, String)>)
    ensures
        r.deep_view() == client_pairs(
            pairs.deep_view(),
            code.deep_view(),
            state.deep_view(),
            gateway@,
        ),
{
    let mut out: Vec<(String, String)> = Vec::new();
    push_optional(&mut out, "code", code);
    assert(out.deep_view() =~= optional_pair("code"@, code.deep_view()));
    push_optional(&mut out, "error", get(pairs, "error"));
    push_optional(&mut out, "error_description", get(pairs, "error_description"));
    push_optional(&mut out, "error_uri", get(pairs, "error_uri"));
    push_optional(&mut out, "state", state);
    push_optional(&mut out, "iss", Some(gateway));
    out
}

/// `/callback` at this time, with this nonce. Where it redirects with a code, that code opens to
/// the provider's code and the client's redirect URI, and to nothing else.
pub fn callback_with(
    key: &SealingKey,
    nonce: &[u8; 12],
    now: u64,
    uri: &RequestUri,
    query: Option<&str>,
    auth: &McpAuthentication,
) -> (r: Result<Response, Fault>)
    ensures
        outcome(r) == callback_spec(
            key@,
            nonce@,
            now,
            uri@,
            query_pairs_spec(query.deep_view()),
            auth.issuer@,
        ),
        r matches Ok(resp) ==> resp.status == FOUND ==> answer_returns(
            key@,
            nonce@,
            uri@,
            query_pairs_spec(query.deep_view()),
        ),
{
    let pairs = query_pairs(query);
    let login = match get(&pairs, "state") {
        Some(token) => SealedState::open(key, token),
        None => None,
    };
    let is_url = match &login {
        Some(st) => parse_origin(st.redirect_uri.as_str()).is_some(),
        None => false,
    };
    let gateway = gateway_issuer(uri, "/callback");
    let (st, gateway) = match accept_answer(&pairs, auth, login, now, gateway, is_url) {
        Ok(accepted) => accepted,
        Err(msg) => return Ok(bad_request(msg)),
    };
    let code = match get(&pairs, "code") {
        Some(code) => {
            let c = SealedCode { code: code.to_owned(), redirect_uri: st.redirect_uri.clone() };
            match c.seal(key, nonce) {
                Some(t) => Some(t),
                None => return Err(Fault::Seal),
            }
        },
        None => None,
    };
    let told = client_query(
        &pairs,
        match &code {
            Some(t) => Some(t.as_str()),
            None => None,
        },
        match &st.state {
            Some(s) => Some(s.as_str()),
            None => None,
        },
        gateway.as_str(),
    );
    if !fits(st.redirect_uri.as_str(), &told) {
        return Err(Fault::TooLong);
    }
    match with_params(st.redirect_uri.as_str(), &told) {
        Some(location) => match redirect(location) {
            Ok(resp) => Ok(resp),
            Err(_) => Err(Fault::InvalidHeader),
        },
        None => Ok(bad_request("invalid redirect_uri")),
    }
}

/// `/callback`: ends a login now, with a fresh nonce.
pub fn callback(
    key: &SealingKey,
    uri: &RequestUri,
    query: Option<&str>,
    auth: &McpAuthentication,
) -> (r: Result<Response, Fault>)
    ensures
        exists|nonce: Seq<u8>, now: u64|
            {
                &&& nonce.len() == 12
                &&& outcome(r) == #[trigger] callback_spec(
                    key@,
                    nonce,
                    now,
                    uri@,
                    query_pairs_spec(query.deep_view()),
                    auth.issuer@,
                )
                &&& r matches Ok(resp) ==> resp.status == FOUND ==> answer_returns(
                    key@,
                    nonce,
                    uri@,
                    query_pairs_spec(query.deep_view()),
                )
            },
{
    let nonce = random_nonce();
    let time = now();
    callback_with(key, &nonce, time, uri, query, auth)
}

} // verus!
