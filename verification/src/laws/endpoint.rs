//! Laws of the endpoints' replies.
use crate::endpoint::begin_token;
use crate::endpoint::endpoint;
use crate::endpoint::handle;
use crate::endpoint::invalid_grant;
use crate::endpoint::token;
use crate::endpoint::Endpoint;
use crate::endpoint::Step;
use crate::endpoint::TokenStep;
use crate::exchange::rewrite_token_form;
use crate::form::form_pairs;
use crate::form::lookup;
use crate::json::json_fields;
use crate::json::FieldView;
use crate::laws::login::is_loopback;
use crate::login::authorize;
use crate::login::authorize_spec;
use crate::login::authorize_with;
use crate::login::callback;
use crate::login::callback_spec;
use crate::login::callback_url;
use crate::login::callback_with;
use crate::login::Fault;
use crate::oauth::McpAuthentication;
use crate::oauth::RequestUri;
use crate::response::bad_request;
use crate::response::header_safe;
use crate::response::redirect;
use crate::response::InvalidHeader;
use crate::response::Response;
use crate::roundtrip::client_is_told;
use crate::roundtrip::provider_sees_only_the_gateway;
use crate::seal::SealingKey;
use crate::text::ends_with_spec;
use crate::token::code_fits;
use crate::token::opened_code;
use crate::token::opened_state;
use crate::token::state_fits;
use crate::token::CodeView;
use crate::token::StateView;
use crate::weburl::is_clean;
use crate::weburl::own_pairs;
use crate::weburl::params_len;
use crate::weburl::query_of;
use crate::weburl::url_origin;
use vstd::prelude::*;
use vstd::utf8::encode_utf8;

verus! {

/// A reply is a refusal in plain words.
pub open spec fn is_refusal(resp: Response, why: Seq<char>) -> bool {
    &&& resp.status == 400
    &&& resp.headers@.len() == 0
    &&& resp.body@ == why
}

/// A reply sends the browser to a location.
pub open spec fn sends_to(resp: Response, location: Seq<char>) -> bool {
    &&& resp.status == 302
    &&& resp.headers@.len() == 1
    &&& resp.headers@[0].0@ == "location"@
    &&& resp.headers@[0].1@ == location
    &&& resp.body@.len() == 0
}

/// A redirect sends the browser to every location that has no control character but the tab; a
/// refusal says what it is given.
pub proof fn replies_say_what_they_are_given(
    location: String,
    r: Result<Response, InvalidHeader>,
    msg: &str,
    refusal: Response,
)
    requires
        call_ensures(redirect, (location,), r),
        call_ensures(bad_request, (msg,), refusal),
    ensures
        r matches Ok(resp) ==> sends_to(resp, location@),
        r is Ok <==> forall|i: int|
            0 <= i < location@.len() ==> #[trigger] location@[i] == '\t' || (location@[i] as u32
                >= 32 && location@[i] as u32 != 127),
        is_refusal(refusal, msg@),
{
    if let Ok(resp) = r {
        assert(resp.headers.deep_view().len() == resp.headers@.len());
        assert(resp.headers.deep_view()[0] == (resp.headers@[0].0@, resp.headers@[0].1@));
    }
    assert(refusal.headers.deep_view().len() == refusal.headers@.len());
    if forall|i: int|
        0 <= i < location@.len() ==> #[trigger] location@[i] == '\t' || (location@[i] as u32 >= 32
            && location@[i] as u32 != 127) {
        assert(header_safe(location@));
    }
    if header_safe(location@) {
        assert forall|i: int| 0 <= i < location@.len() implies #[trigger] location@[i] == '\t' || (
        location@[i] as u32 >= 32 && location@[i] as u32 != 127) by {
            assert(crate::response::header_char(location@[i]));
        }
    }
}

/// A client may be sent to a URI.
pub open spec fn may_be_sent_to(uri: Seq<char>, auth: &McpAuthentication) -> bool {
    &&& url_origin(uri) matches Some((scheme, host))
    &&& {
        ||| is_loopback(scheme, host)
        ||| exists|i: int|
            0 <= i < auth.allowed_redirects@.len() && (#[trigger] auth.allowed_redirects@[i])@
                == uri
    }
}

proof fn lemma_may_be_sent_to(uri: Seq<char>, auth: &McpAuthentication)
    ensures
        may_be_sent_to(uri, auth) <==> crate::oauth::allowed_redirect_spec(
            uri,
            auth@.allowed_redirects,
        ),
{
    let l = auth.allowed_redirects.deep_view();
    assert(forall|j: int| 0 <= j < l.len() ==> #[trigger] l[j] == auth.allowed_redirects@[j]@);
    if l.contains(uri) {
        let j = choose|j: int| 0 <= j < l.len() && l[j] == uri;
        assert(auth.allowed_redirects@[j]@ == uri);
    }
    if exists|i: int|
        0 <= i < auth.allowed_redirects@.len() && (#[trigger] auth.allowed_redirects@[i])@ == uri {
        let i = choose|i: int|
            0 <= i < auth.allowed_redirects@.len() && (#[trigger] auth.allowed_redirects@[i])@
                == uri;
        assert(l[i] == uri);
    }
    if let Some((scheme, host)) = url_origin(uri) {
        if let Some(h) = host {
            assert(host == Some(h));
        }
    }
}

/// The provider reads the client's request, but for the redirect URI, which is the gateway's
/// callback, and the state, which holds the client's own redirect URI and state until it expires.
pub open spec fn provider_reads(
    sent: Seq<(Seq<char>, Seq<char>)>,
    request: Seq<(Seq<char>, Seq<char>)>,
    key: Seq<u8>,
    now: u64,
    callback: Seq<char>,
) -> bool {
    &&& lookup(sent, "redirect_uri"@) == Some(callback)
    &&& lookup(sent, "state"@) matches Some(state) && opened_state(key, state) == Some(
        StateView {
            redirect_uri: lookup(request, "redirect_uri"@)->0,
            state: lookup(request, "state"@),
            exp: (now + 600) as u64,
        },
    ) && opened_code(key, state) is None
    &&& forall|name: Seq<char>|
        name != "redirect_uri"@ && name != "state"@ ==> #[trigger] lookup(sent, name) == lookup(
            request,
            name,
        )
}

/// `/authorize` sends the browser to the provider exactly where the client may be sent back; the
/// location is the provider's endpoint with a query that the provider reads so. All else is refused.
pub proof fn authorize_sends_to_the_provider(
    key: &SealingKey,
    nonce: &[u8; 12],
    now: u64,
    uri: &RequestUri,
    q: &str,
    auth: &McpAuthentication,
    r: Result<Response, Fault>,
    front: Seq<char>,
)
    requires
        call_ensures(authorize_with, (key, nonce, now, uri, Some(q), auth), r),
        uri.path@ == front + "/authorize"@,
    ensures
        ({
            let request = form_pairs(encode_utf8(q@));
            match lookup(request, "redirect_uri"@) {
                None => r matches Ok(resp) && is_refusal(resp, "missing redirect_uri"@),
                Some(back) => {
                    let st = StateView {
                        redirect_uri: back,
                        state: lookup(request, "state"@),
                        exp: (now + 600) as u64,
                    };
                    &&& !may_be_sent_to(back, auth) ==> (r matches Ok(resp) && is_refusal(
                        resp,
                        "redirect_uri not allowed"@,
                    ))
                    &&& may_be_sent_to(back, auth) ==> {
                        &&& now > u64::MAX - 600 ==> (r matches Err(fault) && fault is Clock)
                        &&& now <= u64::MAX - 600 && !state_fits(st) ==> (r matches Err(fault)
                            && fault is Seal)
                        &&& now <= u64::MAX - 600 && state_fits(st) && !header_safe(auth.issuer@)
                            ==> (r matches Err(fault) && fault is InvalidHeader)
                        &&& now <= u64::MAX - 600 && state_fits(st) && header_safe(auth.issuer@)
                            ==> (r matches Ok(resp) && exists|form: Seq<char>|
                            {
                                &&& #[trigger] sends_to(
                                    resp,
                                    auth.issuer@ + "/protocol/openid-connect/"@ + "auth"@ + "?"@
                                        + form,
                                )
                                &&& provider_reads(
                                    form_pairs(encode_utf8(form)),
                                    request,
                                    key@,
                                    now,
                                    uri.origin@ + front + "/callback"@,
                                )
                            })
                    }
                },
            }
        }),
{
    let request = form_pairs(encode_utf8(q@));
    let p = uri.path@;
    let suffix = "/authorize"@;
    assert(p.subrange(p.len() - suffix.len(), p.len() as int) =~= suffix);
    assert(p.subrange(0, p.len() - suffix.len()) =~= front);
    if let Some(back) = lookup(request, "redirect_uri"@) {
        lemma_may_be_sent_to(back, auth);
    }
    if let Ok(resp) = r {
        assert(resp.headers.deep_view().len() == resp.headers@.len());
        if resp.status == 302 {
            assert(resp.headers.deep_view()[0] == (resp.headers@[0].0@, resp.headers@[0].1@));
            let st = crate::login::start_login_spec(request, true, now)->Ok_0;
            let state = crate::token::sealed_state(key@, nonce@, st);
            let cb = crate::login::callback_uri(uri@, suffix);
            provider_sees_only_the_gateway(request, cb, state);
            let sent = crate::login::provider_pairs(request, cb, state);
            let form = crate::form::form_text(sent);
            assert(form_pairs(encode_utf8(form)) == sent);
            assert(sends_to(
                resp,
                auth.issuer@ + "/protocol/openid-connect/"@ + "auth"@ + "?"@ + form,
            ));
        }
    }
}

/// Without a query nothing starts and nothing ends.
pub proof fn requests_without_a_query_are_refused(
    key: &SealingKey,
    nonce: &[u8; 12],
    now: u64,
    uri: &RequestUri,
    auth: &McpAuthentication,
    start: Result<Response, Fault>,
    end: Result<Response, Fault>,
)
    requires
        call_ensures(authorize_with, (key, nonce, now, uri, None, auth), start),
        call_ensures(callback_with, (key, nonce, now, uri, None, auth), end),
    ensures
        start matches Ok(resp) && is_refusal(resp, "missing redirect_uri"@),
        end matches Ok(resp) && is_refusal(resp, "invalid state"@),
{
    if let Ok(resp) = start {
        assert(resp.headers.deep_view().len() == resp.headers@.len());
    }
    if let Ok(resp) = end {
        assert(resp.headers.deep_view().len() == resp.headers@.len());
    }
}

/// The client reads its own state, the gateway's issuer, the error that the provider told of, and a
/// code that holds the provider's and the client's redirect URI; and nothing else.
pub open spec fn client_reads(
    told: Seq<(Seq<char>, Seq<char>)>,
    answer: Seq<(Seq<char>, Seq<char>)>,
    key: Seq<u8>,
    st: StateView,
    issuer: Seq<char>,
) -> bool {
    &&& lookup(told, "state"@) == st.state
    &&& lookup(told, "iss"@) == Some(issuer)
    &&& lookup(answer, "code"@) is None ==> lookup(told, "code"@) is None
    &&& lookup(answer, "code"@) matches Some(code) ==> (lookup(told, "code"@) matches Some(t)
        && opened_code(key, t) == Some(CodeView { code, redirect_uri: st.redirect_uri })
        && opened_state(key, t) is None)
    &&& lookup(told, "error"@) == lookup(answer, "error"@)
    &&& lookup(told, "error_description"@) == lookup(answer, "error_description"@)
    &&& lookup(told, "error_uri"@) == lookup(answer, "error_uri"@)
    &&& forall|name: Seq<char>|
        name != "code"@ && name != "error"@ && name != "error_description"@ && name != "error_uri"@
            && name != "state"@ && name != "iss"@ ==> #[trigger] lookup(told, name) is None
}

/// `/callback` refuses an answer of another issuer, whatever the two texts are, an answer whose
/// state does not open, and one that comes after the login has expired; where there is no issuer of
/// the gateway's own, and where the client's redirect URI is no URL, it says so.
pub proof fn callback_refuses_for_its_reasons(
    key: &SealingKey,
    nonce: &[u8; 12],
    now: u64,
    uri: &RequestUri,
    q: &str,
    auth: &McpAuthentication,
    r: Result<Response, Fault>,
)
    requires
        call_ensures(callback_with, (key, nonce, now, uri, Some(q), auth), r),
    ensures
        ({
            let answer = form_pairs(encode_utf8(q@));
            let iss = lookup(answer, "iss"@);
            let state = lookup(answer, "state"@);
            if iss is Some && iss->0 != auth.issuer@ {
                r matches Ok(resp) && is_refusal(resp, "iss does not match the configured issuer"@)
            } else if state is None || opened_state(key@, state->0) is None {
                r matches Ok(resp) && is_refusal(resp, "invalid state"@)
            } else {
                let st = opened_state(key@, state->0)->0;
                &&& now > st.exp ==> (r matches Ok(resp) && is_refusal(resp, "login expired"@))
                &&& now <= st.exp && (forall|p: Seq<char>|
                    uri.path@ != #[trigger] ("/.well-known/oauth-authorization-server"@ + p)
                        + "/callback"@) ==> (r matches Ok(resp) && is_refusal(
                    resp,
                    "cannot derive issuer"@,
                ))
                &&& now <= st.exp && (exists|p: Seq<char>|
                    uri.path@ == #[trigger] ("/.well-known/oauth-authorization-server"@ + p)
                        + "/callback"@) && url_origin(st.redirect_uri) is None ==> (
                r matches Ok(resp) && is_refusal(resp, "invalid redirect_uri"@))
            }
        }),
{
    let answer = form_pairs(encode_utf8(q@));
    if let Ok(resp) = r {
        assert(resp.headers.deep_view().len() == resp.headers@.len());
    }
    let w = "/.well-known/oauth-authorization-server"@;
    let s = uri.path@;
    let k = "/callback"@;
    if exists|p: Seq<char>| s == #[trigger] (w + p) + k {
        let p = choose|p: Seq<char>| s == #[trigger] (w + p) + k;
        let front = w + p;
        assert(s.subrange(s.len() - k.len(), s.len() as int) =~= k);
        assert(s.subrange(0, s.len() - k.len()) =~= front);
        assert(front.subrange(0, w.len() as int) =~= w);
    } else if crate::oauth::gateway_issuer_spec(uri@, k) is Some {
        let front = s.subrange(0, s.len() - k.len());
        let p = front.subrange(w.len() as int, front.len() as int);
        assert(front =~= w + p);
        assert(s =~= (w + p) + k);
    }
}

/// `/callback` ends every live login whose answer names the configured issuer, whatever text that
/// is, or none: the browser is sent to the client's redirect URI with what the client reads.
pub proof fn callback_ends_live_logins(
    key: &SealingKey,
    nonce: &[u8; 12],
    now: u64,
    uri: &RequestUri,
    q: &str,
    auth: &McpAuthentication,
    r: Result<Response, Fault>,
    path: Seq<char>,
)
    requires
        call_ensures(callback_with, (key, nonce, now, uri, Some(q), auth), r),
        uri.path@ == "/.well-known/oauth-authorization-server"@ + path + "/callback"@,
        lookup(form_pairs(encode_utf8(q@)), "iss"@) is None || lookup(
            form_pairs(encode_utf8(q@)),
            "iss"@,
        ) == Some(auth.issuer@),
        lookup(form_pairs(encode_utf8(q@)), "state"@) is Some,
        opened_state(key@, lookup(form_pairs(encode_utf8(q@)), "state"@)->0) is Some,
        now <= opened_state(key@, lookup(form_pairs(encode_utf8(q@)), "state"@)->0)->0.exp,
        url_origin(
            opened_state(key@, lookup(form_pairs(encode_utf8(q@)), "state"@)->0)->0.redirect_uri,
        ) is Some,
    ensures
        ({
            let answer = form_pairs(encode_utf8(q@));
            let st = opened_state(key@, lookup(answer, "state"@)->0)->0;
            let code = lookup(answer, "code"@);
            let seals = code is Some ==> code_fits(
                CodeView { code: code->0, redirect_uri: st.redirect_uri },
            );
            &&& !seals ==> (r matches Err(fault) && fault is Seal)
            &&& seals ==> {
                ||| r matches Err(fault) && fault is TooLong && exists|
                    told: Seq<(Seq<char>, Seq<char>)>,
                |
                    {
                        &&& (code is None ==> #[trigger] lookup(told, "code"@) is None)
                        &&& lookup(told, "state"@) == st.state
                        &&& lookup(told, "iss"@) == Some(uri.origin@ + path)
                        &&& lookup(told, "error"@) == lookup(answer, "error"@)
                        &&& st.redirect_uri.len() + params_len(told) > 0x200_0000
                    }
                ||| r matches Ok(resp) && exists|
                    location: Seq<char>,
                    before: Seq<(Seq<char>, Seq<char>)>,
                    told: Seq<(Seq<char>, Seq<char>)>,
                |
                    {
                        &&& #[trigger] sends_to(resp, location)
                        &&& query_of(location) is Some
                        &&& form_pairs(encode_utf8(query_of(location)->0)) == #[trigger] (before
                            + told)
                        &&& is_clean(st.redirect_uri) ==> before == own_pairs(st.redirect_uri)
                        &&& client_reads(told, answer, key@, st, uri.origin@ + path)
                        &&& st.redirect_uri.len() + params_len(told) <= 0x200_0000
                    }
            }
        }),
{
    let answer = form_pairs(encode_utf8(q@));
    let st = opened_state(key@, lookup(answer, "state"@)->0)->0;
    let w = "/.well-known/oauth-authorization-server"@;
    let s = uri.path@;
    let k = "/callback"@;
    let front = w + path;
    assert(s.subrange(s.len() - k.len(), s.len() as int) =~= k);
    assert(s.subrange(0, s.len() - k.len()) =~= front);
    assert(front.subrange(0, w.len() as int) =~= w);
    assert(front.subrange(w.len() as int, front.len() as int) =~= path);
    let told = crate::login::told_pairs(key@, nonce@, uri@, answer);
    client_is_told(
        answer,
        crate::login::client_code(key@, nonce@, crate::login::answered_code(answer, st)),
        st.state,
        uri.origin@ + path,
    );
    if let Ok(resp) = r {
        assert(resp.headers.deep_view().len() == resp.headers@.len());
        assert(resp.headers.deep_view()[0] == (resp.headers@[0].0@, resp.headers@[0].1@));
        let location = crate::weburl::url_with_params(st.redirect_uri, told)->0;
        assert(crate::weburl::tells(location, st.redirect_uri, told));
        let before = choose|before: Seq<(Seq<char>, Seq<char>)>|
            {
                &&& form_pairs(encode_utf8(query_of(location)->0)) == #[trigger] (before + told)
                &&& is_clean(st.redirect_uri) ==> before == own_pairs(st.redirect_uri)
            };
        assert(sends_to(resp, location));
        assert(form_pairs(encode_utf8(query_of(location)->0)) == before + told);
    }
}

/// The pairs of a query; without one there are none.
pub open spec fn pairs_of(query: Option<&str>) -> Seq<(Seq<char>, Seq<char>)> {
    match query {
        Some(q) => form_pairs(encode_utf8(q@)),
        None => Seq::empty(),
    }
}

/// `/authorize` and `/callback` do now, with a nonce of twelve bytes, what they do at some time with
/// some nonce; what no clock decides they refuse at once.
pub proof fn replies_of_now_are_replies_of_some_time(
    key: &SealingKey,
    uri: &RequestUri,
    query: Option<&str>,
    auth: &McpAuthentication,
    start: Result<Response, Fault>,
    end: Result<Response, Fault>,
)
    requires
        call_ensures(authorize, (key, uri, query, auth), start),
        call_ensures(callback, (key, uri, query, auth), end),
    ensures
        ({
            let pairs = pairs_of(query);
            let back = lookup(pairs, "redirect_uri"@);
            let iss = lookup(pairs, "iss"@);
            let state = lookup(pairs, "state"@);
            &&& back is None ==> (start matches Ok(resp) && is_refusal(
                resp,
                "missing redirect_uri"@,
            ))
            &&& back is Some && !may_be_sent_to(back->0, auth) ==> (start matches Ok(resp)
                && is_refusal(resp, "redirect_uri not allowed"@))
            &&& iss is Some && iss->0 != auth.issuer@ ==> (end matches Ok(resp) && is_refusal(
                resp,
                "iss does not match the configured issuer"@,
            ))
            &&& (iss is None || iss->0 == auth.issuer@) && (state is None || opened_state(
                key@,
                state->0,
            ) is None) ==> (end matches Ok(resp) && is_refusal(resp, "invalid state"@))
            &&& exists|nonce: Seq<u8>, now: u64|
                nonce.len() == 12 && crate::login::outcome(start) == #[trigger] authorize_spec(
                    key@,
                    nonce,
                    now,
                    uri@,
                    pairs,
                    auth@,
                )
            &&& exists|nonce: Seq<u8>, now: u64|
                nonce.len() == 12 && crate::login::outcome(end) == #[trigger] callback_spec(
                    key@,
                    nonce,
                    now,
                    uri@,
                    pairs,
                    auth.issuer@,
                )
        }),
{
    let pairs = pairs_of(query);
    if let Some(back) = lookup(pairs, "redirect_uri"@) {
        lemma_may_be_sent_to(back, auth);
    }
    if let Ok(resp) = start {
        assert(resp.headers.deep_view().len() == resp.headers@.len());
    }
    if let Ok(resp) = end {
        assert(resp.headers.deep_view().len() == resp.headers@.len());
    }
}

/// A path leads to `/authorize` or `/callback` where it ends so, whatever stands in front, and to
/// `/token` otherwise.
pub proof fn paths_lead_by_their_end(path: &str, front: Seq<char>, r: Endpoint)
    requires
        call_ensures(endpoint, (path,), r),
    ensures
        path@ == front + "/authorize"@ ==> r is Authorize,
        path@ == front + "/callback"@ ==> r is Callback,
        (forall|f: Seq<char>| path@ != #[trigger] (f + "/authorize"@)) && (forall|f: Seq<char>|
            path@ != #[trigger] (f + "/callback"@)) ==> r is Token,
{
    let p = path@;
    let a = "/authorize"@;
    let c = "/callback"@;
    reveal_strlit("/authorize");
    reveal_strlit("/callback");
    assert(a.last() == 'e' && c.last() == 'k' && a.len() == 10 && c.len() == 9);
    if p == front + a {
        assert(p.subrange(p.len() - a.len(), p.len() as int) =~= a);
    }
    if p == front + c {
        assert(p.subrange(p.len() - c.len(), p.len() as int) =~= c);
        assert(p.last() == 'k');
        if ends_with_spec(p, a) {
            assert(p.subrange(p.len() - a.len(), p.len() as int).last() == p.last());
        }
    }
    if ends_with_spec(p, a) {
        assert(p =~= p.subrange(0, p.len() - a.len()) + a);
    }
    if ends_with_spec(p, c) {
        assert(p =~= p.subrange(0, p.len() - c.len()) + c);
    }
}

/// The body is read of a `POST` and of nothing else; any other method is told what is allowed.
pub proof fn only_post_is_read(method: &str, r: Step)
    requires
        call_ensures(begin_token, (method,), r),
    ensures
        method@ == "POST"@ ==> r is ReadBody,
        method@ != "POST"@ ==> (r matches Step::Reply(resp) && {
            &&& resp.status == 405
            &&& resp.headers@.len() == 1
            &&& resp.headers@[0].0@ == "allow"@
            &&& resp.headers@[0].1@ == "POST"@
            &&& resp.body@.len() == 0
        }),
{
    if let Step::Reply(resp) = r {
        assert(resp.headers.deep_view().len() == resp.headers@.len());
        assert(resp.headers.deep_view()[0] == (resp.headers@[0].0@, resp.headers@[0].1@));
    }
}

/// A request is handled by the endpoint that its path leads to: at `/token` as a token request
/// begins, at the others as they reply at some time.
pub proof fn requests_are_handled_where_they_lead(
    key: &SealingKey,
    method: &str,
    path: &str,
    uri: &RequestUri,
    query: Option<&str>,
    auth: &McpAuthentication,
    r: Result<Step, Fault>,
    leads: Endpoint,
    begun: Step,
)
    requires
        call_ensures(handle, (key, method, path, uri, query, auth), r),
        call_ensures(endpoint, (path,), leads),
        call_ensures(begin_token, (method,), begun),
    ensures
        ({
            let pairs = pairs_of(query);
            &&& leads is Token ==> (r matches Ok(step) && step@ == begun@)
            &&& leads is Authorize ==> exists|nonce: Seq<u8>, now: u64|
                {
                    let reply = #[trigger] authorize_spec(key@, nonce, now, uri@, pairs, auth@);
                    &&& reply matches Ok(said) ==> (r matches Ok(Step::Reply(resp)) && resp@
                        == said)
                    &&& reply matches Err(fault) ==> r == Err::<Step, Fault>(fault)
                }
            &&& leads is Callback ==> exists|nonce: Seq<u8>, now: u64|
                {
                    let reply = #[trigger] callback_spec(
                        key@,
                        nonce,
                        now,
                        uri@,
                        pairs,
                        auth.issuer@,
                    );
                    &&& reply matches Ok(said) ==> (r matches Ok(Step::Reply(resp)) && resp@
                        == said)
                    &&& reply matches Err(fault) ==> r == Err::<Step, Fault>(fault)
                }
        }),
{
    let pairs = pairs_of(query);
    let (nonce, now): (Seq<u8>, u64) = choose|nonce: Seq<u8>, now: u64|
        crate::endpoint::step_outcome(r) == #[trigger] crate::endpoint::handle_spec(
            key@,
            nonce,
            now,
            method@,
            path@,
            uri@,
            pairs,
            auth@,
        );
    let a = authorize_spec(key@, nonce, now, uri@, pairs, auth@);
    let c = callback_spec(key@, nonce, now, uri@, pairs, auth.issuer@);
}

/// A refused grant says so in JSON.
pub proof fn refused_grants_say_why(why: &str, r: Response)
    requires
        call_ensures(invalid_grant, (why,), r),
    ensures
        r.status == 400,
        r.headers@.len() == 1,
        r.headers@[0].0@ == "content-type"@,
        r.headers@[0].1@ == "application/json"@,
        json_fields(encode_utf8(r.body@)) matches Some(fields) && {
            &&& lookup(fields, "error"@) == Some(Some(FieldView::Text("invalid_grant"@)))
            &&& lookup(fields, "error_description"@) == Some(Some(FieldView::Text(why@)))
            &&& forall|name: Seq<char>|
                name != "error"@ && name != "error_description"@ ==> #[trigger] lookup(
                    fields,
                    name,
                ) is None
        },
{
    assert(r.headers.deep_view().len() == r.headers@.len());
    assert(r.headers.deep_view()[0] == (r.headers@[0].0@, r.headers@[0].1@));
    reveal_with_fuel(lookup, 3);
    reveal_strlit("error");
    reveal_strlit("error_description");
    assert("error"@.len() == 5 && "error_description"@.len() == 17);
}

/// A token request that is rewritten goes to the provider's token endpoint, with the client's own
/// credentials and the rewritten form; one that is refused has a refused grant for the same reason.
pub proof fn token_requests_go_on_as_rewritten(
    key: &SealingKey,
    uri: &RequestUri,
    auth: &McpAuthentication,
    authorization: Option<Vec<u8>>,
    form: &[u8],
    callback: String,
    rewritten: Result<String, &'static str>,
    r: TokenStep,
)
    requires
        call_ensures(token, (key, uri, auth, authorization, form), r),
        call_ensures(callback_url, (uri, "/token"), callback),
        exists|cb: &str|
            cb@ == callback@ && #[trigger] call_ensures(
                rewrite_token_form,
                (key, form, cb),
                rewritten,
            ),
    ensures
        rewritten matches Ok(body) ==> (r matches TokenStep::Forward(out) && {
            &&& out.uri@ == auth.issuer@ + "/protocol/openid-connect/"@ + "token"@
            &&& out.content_type@ == "application/x-www-form-urlencoded"@
            &&& out.authorization.deep_view() == authorization.deep_view()
            &&& out.body@ == body@
        }),
        rewritten matches Err(why) ==> (r matches TokenStep::Reply(resp) && {
            &&& resp.status == 400
            &&& resp.headers@.len() == 1
            &&& resp.headers@[0].0@ == "content-type"@
            &&& resp.headers@[0].1@ == "application/json"@
            &&& json_fields(encode_utf8(resp.body@)) matches Some(fields) && {
                &&& lookup(fields, "error"@) == Some(Some(FieldView::Text("invalid_grant"@)))
                &&& lookup(fields, "error_description"@) == Some(Some(FieldView::Text(why@)))
            }
        }),
{
    if let TokenStep::Reply(resp) = r {
        assert(resp.headers.deep_view().len() == resp.headers@.len());
        assert(resp.headers.deep_view()[0] == (resp.headers@[0].0@, resp.headers@[0].1@));
    }
    reveal_with_fuel(lookup, 3);
    reveal_strlit("error");
    reveal_strlit("error_description");
    assert("error"@.len() == 5 && "error_description"@.len() == 17);
}

} // verus!
