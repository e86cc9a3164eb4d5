//! What holds of a login from end to end: the client gets back its own state and the gateway's
//! issuer, the provider sees only the gateway, and nothing that was not sealed here passes.
use crate::endpoint::endpoint_spec;
use crate::exchange::exchange_pairs_spec;
use crate::exchange::redeemed;
use crate::exchange::redeems_code;
use crate::exchange::swapped_pairs;
use crate::form::form_pairs;
use crate::form::lookup;
use crate::login::answer_check;
use crate::login::answer_returns;
use crate::login::answered_code;
use crate::login::answered_login;
use crate::login::authorize_spec;
use crate::login::callback_spec;
use crate::login::callback_uri;
use crate::login::client_code;
use crate::login::client_pairs;
use crate::login::foreign_issuer;
use crate::login::login_allowed;
use crate::login::login_returns;
use crate::login::optional_pair;
use crate::login::provider_location;
use crate::login::Fault;
use crate::login::passes_on;
use crate::login::provider_pairs;
use crate::login::start_login_spec;
use crate::login::told_pairs;
use crate::login::STATE_TTL_SECS;
use crate::oauth::gateway_issuer_spec;
use crate::oauth::AuthView;
use crate::oauth::UriView;
use crate::response::header_safe;
use crate::response::redirect_spec;
use crate::response::ResponseView;
use crate::response::BAD_REQUEST;
use crate::response::FOUND;
use crate::text::ends_with_spec;
use crate::text::strip_suffix_spec;
use crate::token::code_fits;
use crate::token::sealed_state;
use crate::token::state_fits;
use crate::token::StateView;
use crate::weburl::is_clean;
use crate::weburl::own_pairs;
use crate::weburl::query_of;
use crate::weburl::url_fits;
use crate::weburl::url_with_params;
use vstd::prelude::*;
use vstd::utf8::encode_utf8;

verus! {

proof fn lemma_lookup_concat<T>(a: Seq<(Seq<char>, T)>, b: Seq<(Seq<char>, T)>, key: Seq<char>)
    ensures
        lookup(a + b, key) == (match lookup(a, key) {
            Some(v) => Some(v),
            None => lookup(b, key),
        }),
    decreases a.len(),
{
    if a.len() == 0 {
        assert(a + b =~= b);
    } else {
        assert((a + b).drop_first() =~= a.drop_first() + b);
        lemma_lookup_concat(a.drop_first(), b, key);
    }
}

proof fn lemma_lookup_push<T>(a: Seq<(Seq<char>, T)>, p: (Seq<char>, T), key: Seq<char>)
    ensures
        lookup(a.push(p), key) == (match lookup(a, key) {
            Some(v) => Some(v),
            None => if p.0 == key {
                Some(p.1)
            } else {
                None
            },
        }),
{
    assert(a.push(p) =~= a + seq![p]);
    lemma_lookup_concat(a, seq![p], key);
    reveal_with_fuel(lookup, 2);
}

proof fn lemma_lookup_kept(pairs: Seq<(Seq<char>, Seq<char>)>, key: Seq<char>)
    ensures
        lookup(pairs.filter(|p: (Seq<char>, Seq<char>)| passes_on(p)), key) == (if key
            != "redirect_uri"@ && key != "state"@ {
            lookup(pairs, key)
        } else {
            None
        }),
    decreases pairs.len(),
{
    reveal(Seq::filter);
    if pairs.len() > 0 {
        let rest = pairs.drop_last();
        let last = pairs.last();
        lemma_lookup_kept(rest, key);
        assert(rest.push(last) =~= pairs);
        lemma_lookup_push(rest, last, key);
        lemma_lookup_push(rest.filter(|p: (Seq<char>, Seq<char>)| passes_on(p)), last, key);
    }
}

/// The provider sees only the gateway: whatever the client sent, the redirect URI and the state
/// that reach the provider are the gateway's own, each once; all else reaches it as it came.
pub proof fn provider_sees_only_the_gateway(
    pairs: Seq<(Seq<char>, Seq<char>)>,
    callback: Seq<char>,
    state: Seq<char>,
)
    ensures
        lookup(provider_pairs(pairs, callback, state), "redirect_uri"@) == Some(callback),
        lookup(provider_pairs(pairs, callback, state), "state"@) == Some(state),
        forall|i: int|
            0 <= i < provider_pairs(pairs, callback, state).len() - 2 ==> passes_on(
                #[trigger] provider_pairs(pairs, callback, state)[i],
            ),
        forall|key: Seq<char>|
            key != "redirect_uri"@ && key != "state"@ ==> #[trigger] lookup(
                provider_pairs(pairs, callback, state),
                key,
            ) == lookup(pairs, key),
{
    let kept = pairs.filter(|p: (Seq<char>, Seq<char>)| passes_on(p));
    let one = kept.push(("redirect_uri"@, callback));
    reveal_strlit("redirect_uri");
    reveal_strlit("state");
    assert("redirect_uri"@.len() == 12 && "state"@.len() == 5);
    assert forall|key: Seq<char>| true implies #[trigger] lookup(
        provider_pairs(pairs, callback, state),
        key,
    ) == (if key == "redirect_uri"@ {
        Some(callback)
    } else if key == "state"@ {
        Some(state)
    } else {
        lookup(pairs, key)
    }) by {
        lemma_lookup_kept(pairs, key);
        lemma_lookup_push(kept, ("redirect_uri"@, callback), key);
        lemma_lookup_push(one, ("state"@, state), key);
    }
    assert forall|i: int|
        0 <= i < provider_pairs(pairs, callback, state).len() - 2 implies passes_on(
        #[trigger] provider_pairs(pairs, callback, state)[i],
    ) by {
        broadcast use vstd::seq_lib::group_filter_ensures;

        assert(provider_pairs(pairs, callback, state)[i] == kept[i]);
    }
}

proof fn lemma_answer_names()
    ensures
        "code"@ != "error"@,
        "code"@ != "error_description"@,
        "code"@ != "error_uri"@,
        "code"@ != "state"@,
        "code"@ != "iss"@,
        "error"@ != "error_description"@,
        "error"@ != "error_uri"@,
        "error"@ != "state"@,
        "error"@ != "iss"@,
        "error_description"@ != "error_uri"@,
        "error_description"@ != "state"@,
        "error_description"@ != "iss"@,
        "error_uri"@ != "state"@,
        "error_uri"@ != "iss"@,
        "state"@ != "iss"@,
{
    reveal_strlit("code");
    reveal_strlit("error");
    reveal_strlit("error_description");
    reveal_strlit("error_uri");
    reveal_strlit("state");
    reveal_strlit("iss");
    assert("code"@.len() == 4 && "error"@.len() == 5 && "error_description"@.len() == 17);
    assert("error_uri"@.len() == 9 && "state"@.len() == 5 && "iss"@.len() == 3);
    assert("error"@[0] == 'e' && "state"@[0] == 's');
}

/// The client is told its own state, the gateway's issuer, the code or error that there is, and
/// nothing else.
pub proof fn client_is_told(
    pairs: Seq<(Seq<char>, Seq<char>)>,
    code: Option<Seq<char>>,
    state: Option<Seq<char>>,
    gateway: Seq<char>,
)
    ensures
        lookup(client_pairs(pairs, code, state, gateway), "code"@) == code,
        lookup(client_pairs(pairs, code, state, gateway), "error"@) == lookup(pairs, "error"@),
        lookup(client_pairs(pairs, code, state, gateway), "error_description"@) == lookup(
            pairs,
            "error_description"@,
        ),
        lookup(client_pairs(pairs, code, state, gateway), "error_uri"@) == lookup(
            pairs,
            "error_uri"@,
        ),
        lookup(client_pairs(pairs, code, state, gateway), "state"@) == state,
        lookup(client_pairs(pairs, code, state, gateway), "iss"@) == Some(gateway),
        forall|key: Seq<char>|
            key != "code"@ && key != "error"@ && key != "error_description"@ && key != "error_uri"@
                && key != "state"@ && key != "iss"@ ==> #[trigger] lookup(
                client_pairs(pairs, code, state, gateway),
                key,
            ) is None,
{
    lemma_answer_names();
    let a = optional_pair("code"@, code);
    let b = optional_pair("error"@, lookup(pairs, "error"@));
    let c = optional_pair("error_description"@, lookup(pairs, "error_description"@));
    let d = optional_pair("error_uri"@, lookup(pairs, "error_uri"@));
    let e = optional_pair("state"@, state);
    let f = optional_pair("iss"@, Some(gateway));
    assert forall|key: Seq<char>| true implies #[trigger] lookup(
        client_pairs(pairs, code, state, gateway),
        key,
    ) == (if key == "code"@ {
        code
    } else if key == "error"@ {
        lookup(pairs, "error"@)
    } else if key == "error_description"@ {
        lookup(pairs, "error_description"@)
    } else if key == "error_uri"@ {
        lookup(pairs, "error_uri"@)
    } else if key == "state"@ {
        state
    } else if key == "iss"@ {
        Some(gateway)
    } else {
        None
    }) by {
        lemma_lookup_concat(a, b, key);
        lemma_lookup_concat(a + b, c, key);
        lemma_lookup_concat(a + b + c, d, key);
        lemma_lookup_concat(a + b + c + d, e, key);
        lemma_lookup_concat(a + b + c + d + e, f, key);
        lemma_lookup_optional("code"@, code, key);
        lemma_lookup_optional("error"@, lookup(pairs, "error"@), key);
        lemma_lookup_optional("error_description"@, lookup(pairs, "error_description"@), key);
        lemma_lookup_optional("error_uri"@, lookup(pairs, "error_uri"@), key);
        lemma_lookup_optional("state"@, state, key);
        lemma_lookup_optional("iss"@, Some(gateway), key);
    }
}

proof fn lemma_lookup_optional(name: Seq<char>, value: Option<Seq<char>>, key: Seq<char>)
    ensures
        lookup(optional_pair(name, value), key) == (if key == name {
            value
        } else {
            None
        }),
{
    reveal_with_fuel(lookup, 2);
}

proof fn lemma_lookup_swapped(
    pairs: Seq<(Seq<char>, Seq<char>)>,
    code: Seq<char>,
    callback: Seq<char>,
    key: Seq<char>,
)
    ensures
        lookup(swapped_pairs(pairs, code, callback), key) == (match lookup(pairs, key) {
            Some(v) => Some(
                if key == "code"@ {
                    code
                } else if key == "redirect_uri"@ {
                    callback
                } else {
                    v
                },
            ),
            None => None,
        }),
    decreases pairs.len(),
{
    if pairs.len() > 0 {
        assert(swapped_pairs(pairs, code, callback).drop_first() =~= swapped_pairs(
            pairs.drop_first(),
            code,
            callback,
        ));
        lemma_lookup_swapped(pairs.drop_first(), code, callback, key);
    }
}

/// The exchange touches nothing but codes and redirect URIs: the pairs keep their number, order
/// and names, and every other pair its value.
pub proof fn exchange_touches_only_its_own(
    pairs: Seq<(Seq<char>, Seq<char>)>,
    code: Seq<char>,
    callback: Seq<char>,
)
    ensures
        swapped_pairs(pairs, code, callback).len() == pairs.len(),
        forall|i: int|
            0 <= i < pairs.len() ==> {
                &&& (#[trigger] swapped_pairs(pairs, code, callback)[i]).0 == pairs[i].0
                &&& pairs[i].0 == "code"@ ==> swapped_pairs(pairs, code, callback)[i].1 == code
                &&& pairs[i].0 == "redirect_uri"@ ==> swapped_pairs(pairs, code, callback)[i].1
                    == callback
                &&& pairs[i].0 != "code"@ && pairs[i].0 != "redirect_uri"@ ==> swapped_pairs(
                    pairs,
                    code,
                    callback,
                )[i] == pairs[i]
            },
        forall|key: Seq<char>|
            key != "code"@ && key != "redirect_uri"@ ==> #[trigger] lookup(
                swapped_pairs(pairs, code, callback),
                key,
            ) == lookup(pairs, key),
{
    reveal_strlit("code");
    reveal_strlit("redirect_uri");
    assert("code"@.len() == 4 && "redirect_uri"@.len() == 12);
    assert forall|key: Seq<char>| key != "code"@ && key != "redirect_uri"@ implies #[trigger] lookup(
        swapped_pairs(pairs, code, callback),
        key,
    ) == lookup(pairs, key) by {
        lemma_lookup_swapped(pairs, code, callback, key);
    }
}

/// A login comes back: whoever answers with the state that the provider was given, in time, from
/// the right issuer, ends the login that the client started, with the client's own redirect URI
/// and state, and with the issuer that the gateway advertises.
pub proof fn login_comes_back(
    key: Seq<u8>,
    nonce: Seq<u8>,
    started: u64,
    start_uri: UriView,
    request: Seq<(Seq<char>, Seq<char>)>,
    auth: AuthView,
    answered: u64,
    answer_uri: UriView,
    answer: Seq<(Seq<char>, Seq<char>)>,
)
    requires
        authorize_spec(key, nonce, started, start_uri, request, auth) is Ok,
        login_allowed(request, auth.allowed_redirects),
        login_returns(key, nonce, started, start_uri, request),
        lookup(answer, "state"@) == lookup(
            provider_pairs(
                request,
                callback_uri(start_uri, "/authorize"@),
                sealed_state(key, nonce, start_login_spec(request, true, started)->Ok_0),
            ),
            "state"@,
        ),
        !foreign_issuer(answer, auth.issuer),
        answered <= started + STATE_TTL_SECS,
        gateway_issuer_spec(answer_uri, "/callback"@) is Some,
    ensures
        answer_check(key, answered, answer_uri, answer, auth.issuer) == Ok::<
            (StateView, Seq<char>),
            Seq<char>,
        >(
            (
                StateView {
                    redirect_uri: lookup(request, "redirect_uri"@)->0,
                    state: lookup(request, "state"@),
                    exp: (started + STATE_TTL_SECS) as u64,
                },
                gateway_issuer_spec(answer_uri, "/callback"@)->0,
            ),
        ),
{
    provider_sees_only_the_gateway(
        request,
        callback_uri(start_uri, "/authorize"@),
        sealed_state(key, nonce, start_login_spec(request, true, started)->Ok_0),
    );
}

/// A code comes back: a token request with the code that the client was told, and with the
/// redirect URI of its login, reaches the provider with the provider's own code and the gateway's
/// callback, and with all else as it came.
pub proof fn code_comes_back(
    key: Seq<u8>,
    nonce: Seq<u8>,
    answer_uri: UriView,
    answer: Seq<(Seq<char>, Seq<char>)>,
    code: Seq<char>,
    request: Seq<(Seq<char>, Seq<char>)>,
    callback: Seq<char>,
)
    requires
        answer_returns(key, nonce, answer_uri, answer),
        answered_login(key, answer) is Some,
        lookup(answer, "code"@) == Some(code),
        redeems_code(request),
        lookup(request, "code"@) == client_code(
            key,
            nonce,
            answered_code(answer, answered_login(key, answer)->0),
        ),
        lookup(request, "redirect_uri"@) == Some(answered_login(key, answer)->0.redirect_uri),
    ensures
        exchange_pairs_spec(request, redeemed(key, request), callback) matches Ok(Some(out)) && {
            &&& lookup(out, "code"@) == Some(code)
            &&& lookup(out, "redirect_uri"@) == Some(callback)
            &&& forall|k: Seq<char>|
                k != "code"@ && k != "redirect_uri"@ ==> #[trigger] lookup(out, k) == lookup(
                    request,
                    k,
                )
        },
{
    exchange_touches_only_its_own(request, code, callback);
    lemma_lookup_swapped(request, code, callback, "code"@);
    lemma_lookup_swapped(request, code, callback, "redirect_uri"@);
    reveal_strlit("code");
    reveal_strlit("redirect_uri");
    assert("code"@.len() == 4 && "redirect_uri"@.len() == 12);
}

/// Only codes of this gateway are redeemed: a token request is rewritten only where its code was
/// sealed here as a code, for the redirect URI that the request names (RFC 6749 section 4.1.3).
pub proof fn only_own_codes_are_redeemed(
    key: Seq<u8>,
    request: Seq<(Seq<char>, Seq<char>)>,
    callback: Seq<char>,
)
    ensures
        exchange_pairs_spec(request, redeemed(key, request), callback) matches Ok(Some(_))
            <==> redeems_code(request) && redeemed(key, request) is Some && lookup(
            request,
            "redirect_uri"@,
        ) == Some(redeemed(key, request)->0.redirect_uri),
{
}

/// The whole round trip. The client starts a login and is told its own state and the gateway's
/// issuer; with the code that it is told and the redirect URI that it named it redeems the
/// provider's code.
pub proof fn login_round_trip(
    key: Seq<u8>,
    nonce: Seq<u8>,
    started: u64,
    start_uri: UriView,
    request: Seq<(Seq<char>, Seq<char>)>,
    auth: AuthView,
    answer_nonce: Seq<u8>,
    answered: u64,
    answer_uri: UriView,
    answer: Seq<(Seq<char>, Seq<char>)>,
    code: Seq<char>,
    token_request: Seq<(Seq<char>, Seq<char>)>,
    callback: Seq<char>,
)
    requires
        authorize_spec(key, nonce, started, start_uri, request, auth) is Ok,
        login_allowed(request, auth.allowed_redirects),
        login_returns(key, nonce, started, start_uri, request),
        lookup(answer, "state"@) == lookup(
            provider_pairs(
                request,
                callback_uri(start_uri, "/authorize"@),
                sealed_state(key, nonce, start_login_spec(request, true, started)->Ok_0),
            ),
            "state"@,
        ),
        !foreign_issuer(answer, auth.issuer),
        answered <= started + STATE_TTL_SECS,
        gateway_issuer_spec(answer_uri, "/callback"@) is Some,
        lookup(answer, "code"@) == Some(code),
        answer_returns(key, answer_nonce, answer_uri, answer),
        redeems_code(token_request),
        lookup(token_request, "code"@) == lookup(
            told_pairs(key, answer_nonce, answer_uri, answer),
            "code"@,
        ),
        lookup(token_request, "redirect_uri"@) == lookup(request, "redirect_uri"@),
    ensures
        lookup(told_pairs(key, answer_nonce, answer_uri, answer), "state"@) == lookup(
            request,
            "state"@,
        ),
        lookup(told_pairs(key, answer_nonce, answer_uri, answer), "iss"@) == gateway_issuer_spec(
            answer_uri,
            "/callback"@,
        ),
        exchange_pairs_spec(token_request, redeemed(key, token_request), callback) matches Ok(
            Some(out),
        ) && {
            &&& lookup(out, "code"@) == Some(code)
            &&& lookup(out, "redirect_uri"@) == Some(callback)
        },
{
    login_comes_back(
        key,
        nonce,
        started,
        start_uri,
        request,
        auth,
        answered,
        answer_uri,
        answer,
    );
    let st = answered_login(key, answer)->0;
    client_is_told(
        answer,
        client_code(key, answer_nonce, answered_code(answer, st)),
        st.state,
        gateway_issuer_spec(answer_uri, "/callback"@)->0,
    );
    code_comes_back(key, answer_nonce, answer_uri, answer, code, token_request, callback);
}

/// Nobody is redirected to a URI that is not a client's: such a request, or one that names no
/// URI, is refused in plain words, with no header at all.
pub proof fn unlisted_redirect_is_refused(
    key: Seq<u8>,
    nonce: Seq<u8>,
    now: u64,
    uri: UriView,
    request: Seq<(Seq<char>, Seq<char>)>,
    auth: AuthView,
)
    requires
        !login_allowed(request, auth.allowed_redirects),
    ensures
        authorize_spec(key, nonce, now, uri, request, auth) matches Ok(resp) && {
            &&& resp.status == BAD_REQUEST
            &&& resp.headers.len() == 0
        },
{
}

/// Only a live login is ended: `/callback` redirects only where the answer comes from the right
/// issuer, its state was sealed here as a state, and the login has not expired.
pub proof fn only_live_logins_end(
    key: Seq<u8>,
    nonce: Seq<u8>,
    now: u64,
    uri: UriView,
    answer: Seq<(Seq<char>, Seq<char>)>,
    issuer: Seq<char>,
)
    requires
        callback_spec(key, nonce, now, uri, answer, issuer) matches Ok(resp) && resp.status
            == FOUND,
    ensures
        !foreign_issuer(answer, issuer),
        answered_login(key, answer) matches Some(st) && now <= st.exp,
        gateway_issuer_spec(uri, "/callback"@) is Some,
{
}

/// A login that may start does: the browser is sent to the provider.
pub proof fn allowed_logins_start(
    key: Seq<u8>,
    nonce: Seq<u8>,
    now: u64,
    uri: UriView,
    request: Seq<(Seq<char>, Seq<char>)>,
    auth: AuthView,
)
    requires
        login_allowed(request, auth.allowed_redirects),
        now + STATE_TTL_SECS <= u64::MAX,
        state_fits(start_login_spec(request, true, now)->Ok_0),
        header_safe(auth.issuer),
    ensures
        authorize_spec(key, nonce, now, uri, request, auth) == Ok::<ResponseView, Fault>(
            redirect_spec(
                provider_location(
                    request,
                    uri,
                    auth.issuer,
                    sealed_state(key, nonce, start_login_spec(request, true, now)->Ok_0),
                ),
            ),
        ),
{
}

/// A good answer ends its login: the browser is sent to the client's redirect URI with what the
/// client is told.
pub proof fn good_answers_end_their_login(
    key: Seq<u8>,
    nonce: Seq<u8>,
    now: u64,
    uri: UriView,
    answer: Seq<(Seq<char>, Seq<char>)>,
    issuer: Seq<char>,
)
    requires
        answer_check(key, now, uri, answer, issuer) is Ok,
        answered_code(answer, answered_login(key, answer)->0) matches Some(code) ==> code_fits(code),
        url_fits(
            answered_login(key, answer)->0.redirect_uri,
            told_pairs(key, nonce, uri, answer),
        ),
    ensures
        callback_spec(key, nonce, now, uri, answer, issuer) == Ok::<ResponseView, Fault>(
            redirect_spec(
                url_with_params(
                    answered_login(key, answer)->0.redirect_uri,
                    told_pairs(key, nonce, uri, answer),
                )->0,
            ),
        ),
{
}

/// A client reads the pairs of its own redirect URI, then what it is told, and nothing else.
pub proof fn client_reads_its_own_pairs_first(
    key: Seq<u8>,
    nonce: Seq<u8>,
    uri: UriView,
    answer: Seq<(Seq<char>, Seq<char>)>,
)
    requires
        answer_returns(key, nonce, uri, answer),
        is_clean(answered_login(key, answer)->0.redirect_uri),
    ensures
        ({
            let redirect_uri = answered_login(key, answer)->0.redirect_uri;
            let told = told_pairs(key, nonce, uri, answer);
            let url = url_with_params(redirect_uri, told)->0;
            &&& query_of(url) is Some
            &&& form_pairs(encode_utf8(query_of(url)->0)) == own_pairs(redirect_uri) + told
        }),
{
}

/// An answer of another issuer, one whose state was not sealed here as a state, and one that
/// comes after its login has expired are refused in plain words.
pub proof fn bad_answers_are_refused(
    key: Seq<u8>,
    nonce: Seq<u8>,
    now: u64,
    uri: UriView,
    answer: Seq<(Seq<char>, Seq<char>)>,
    issuer: Seq<char>,
)
    requires
        foreign_issuer(answer, issuer) || answered_login(key, answer) is None || now
            > answered_login(key, answer)->0.exp,
    ensures
        callback_spec(key, nonce, now, uri, answer, issuer) matches Ok(resp) && {
            &&& resp.status == BAD_REQUEST
            &&& resp.headers.len() == 0
        },
{
}

/// Seen from each of the three endpoints of one metadata document, the callback is that of the
/// document; and the issuer is the document's URL without the well-known part of its path.
pub proof fn endpoints_agree(origin: Seq<char>, path: Seq<char>)
    ensures
        ({
            let meta = "/.well-known/oauth-authorization-server"@ + path;
            let authorize = UriView { origin, path: meta + "/authorize"@ };
            let callback = UriView { origin, path: meta + "/callback"@ };
            let token = UriView { origin, path: meta + "/token"@ };
            &&& callback_uri(authorize, "/authorize"@) == origin + meta + "/callback"@
            &&& callback_uri(callback, "/callback"@) == origin + meta + "/callback"@
            &&& callback_uri(token, "/token"@) == origin + meta + "/callback"@
            &&& gateway_issuer_spec(callback, "/callback"@) == Some(origin + path)
            &&& endpoint_spec(authorize.path) is Authorize
            &&& endpoint_spec(callback.path) is Callback
            &&& endpoint_spec(token.path) is Token
        }),
{
    let well_known = "/.well-known/oauth-authorization-server"@;
    let meta = well_known + path;
    lemma_strip_back(meta, "/authorize"@);
    lemma_strip_back(meta, "/callback"@);
    lemma_strip_back(meta, "/token"@);
    assert(meta.subrange(0, well_known.len() as int) =~= well_known);
    assert(meta.subrange(well_known.len() as int, meta.len() as int) =~= path);
    reveal_strlit("/authorize");
    reveal_strlit("/callback");
    reveal_strlit("/token");
    let c = meta + "/callback"@;
    let t = meta + "/token"@;
    assert("/callback"@.last() == 'k' && "/authorize"@.last() == 'e' && "/token"@.last() == 'n');
    assert(c.last() == 'k' && t.last() == 'n');
    assert(!ends_with_spec(c, "/authorize"@)) by {
        if ends_with_spec(c, "/authorize"@) {
            assert(c.subrange(c.len() - 10, c.len() as int).last() == c.last());
        }
    }
    assert(!ends_with_spec(t, "/authorize"@)) by {
        if ends_with_spec(t, "/authorize"@) {
            assert(t.subrange(t.len() - 10, t.len() as int).last() == t.last());
        }
    }
    assert(!ends_with_spec(t, "/callback"@)) by {
        if ends_with_spec(t, "/callback"@) {
            assert(t.subrange(t.len() - 9, t.len() as int).last() == t.last());
        }
    }
}

proof fn lemma_strip_back(s: Seq<char>, suffix: Seq<char>)
    ensures
        ends_with_spec(s + suffix, suffix),
        strip_suffix_spec(s + suffix, suffix) == Some(s),
{
    assert((s + suffix).subrange(s.len() as int, (s + suffix).len() as int) =~= suffix);
    assert((s + suffix).subrange(0, s.len() as int) =~= s);
}

} // verus!
