use agentgateway_mcp::clock::now;
use agentgateway_mcp::clock::reading_secs;
use agentgateway_mcp::endpoint::begin_token;
use agentgateway_mcp::endpoint::endpoint;
use agentgateway_mcp::endpoint::handle;
use agentgateway_mcp::endpoint::invalid_grant;
use agentgateway_mcp::endpoint::token;
use agentgateway_mcp::endpoint::Endpoint;
use agentgateway_mcp::endpoint::Outbound;
use agentgateway_mcp::endpoint::Step;
use agentgateway_mcp::endpoint::TokenStep;
use agentgateway_mcp::exchange::exchange_pairs;
use agentgateway_mcp::exchange::rewrite_token_form;
use agentgateway_mcp::form::get;
use agentgateway_mcp::form::query_pairs;
use agentgateway_mcp::login::accept_answer;
use agentgateway_mcp::login::authorize;
use agentgateway_mcp::login::authorize_with;
use agentgateway_mcp::login::callback;
use agentgateway_mcp::login::callback_url;
use agentgateway_mcp::login::callback_with;
use agentgateway_mcp::login::client_query;
use agentgateway_mcp::login::provider_query;
use agentgateway_mcp::login::start_login;
use agentgateway_mcp::login::Fault;
use agentgateway_mcp::login::Refusal;
use agentgateway_mcp::login::STATE_TTL_SECS;
use agentgateway_mcp::oauth::allowed_redirect;
use agentgateway_mcp::oauth::gateway_issuer;
use agentgateway_mcp::oauth::keycloak_endpoint;
use agentgateway_mcp::oauth::metadata_base;
use agentgateway_mcp::oauth::McpAuthentication;
use agentgateway_mcp::oauth::RequestUri;
use agentgateway_mcp::response::redirect;
use agentgateway_mcp::response::Response;
use agentgateway_mcp::response::BAD_REQUEST;
use agentgateway_mcp::response::FOUND;
use agentgateway_mcp::seal::SealingKey;
use agentgateway_mcp::token::SealedCode;
use agentgateway_mcp::token::SealedState;

const META: &str = "https://gw.example.com/.well-known/oauth-authorization-server/my-server/mcp";
const CLIENT_CB: &str = "http://127.0.0.1:53682/callback";
const NONCE: [u8; 12] = [7; 12];

fn auth() -> McpAuthentication {
    McpAuthentication {
        issuer: "https://idp.example.com/realms/example".to_string(),
        allowed_redirects: vec!["https://client.example/api/mcp/auth_callback".to_string()],
    }
}

fn uri(suffix: &str) -> RequestUri {
    RequestUri {
        origin: "https://gw.example.com".to_string(),
        path: format!("/.well-known/oauth-authorization-server/my-server/mcp{suffix}"),
    }
}

fn location(resp: &Response) -> url::Url {
    assert_eq!(resp.status, FOUND);
    assert_eq!(resp.headers.len(), 1);
    assert_eq!(resp.headers[0].0, "location");
    url::Url::parse(&resp.headers[0].1).unwrap()
}

fn param(u: &url::Url, k: &str) -> Option<String> {
    u.query_pairs().find(|(kk, _)| kk == k).map(|(_, v)| v.into_owned())
}

fn pair(k: &str, v: &str) -> (String, String) {
    (k.to_string(), v.to_string())
}

fn login_query(redirect_uri: &str) -> String {
    url::form_urlencoded::Serializer::new(String::new())
        .append_pair("response_type", "code")
        .append_pair("client_id", "mcp-gateway")
        .append_pair("redirect_uri", redirect_uri)
        .append_pair("state", "client-state")
        .append_pair("code_challenge", "abc")
        .finish()
}

fn login(key: &SealingKey, redirect_uri: &str) -> Response {
    authorize(key, &uri("/authorize"), Some(&login_query(redirect_uri)), &auth()).unwrap()
}

fn answer(key: &SealingKey, query: &str) -> Response {
    callback(key, &uri("/callback"), Some(query), &auth()).unwrap()
}

fn sealed_state(key: &SealingKey, state: Option<&str>, exp: u64) -> String {
    let st = SealedState {
        redirect_uri: CLIENT_CB.to_string(),
        state: state.map(str::to_string),
        exp,
    };
    st.seal(key, &NONCE).unwrap()
}

fn sealed_code(key: &SealingKey) -> String {
    let c = SealedCode { code: "c".to_string(), redirect_uri: CLIENT_CB.to_string() };
    c.seal(key, &NONCE).unwrap()
}

/// Full browser round trip: client, gateway, provider, gateway, client.
#[test]
fn round_trip_gives_client_gateway_iss_and_its_own_state() {
    let key = SealingKey::random();
    let to_idp = location(&login(&key, CLIENT_CB));
    assert_eq!(
        to_idp.as_str().split('?').next().unwrap(),
        "https://idp.example.com/realms/example/protocol/openid-connect/auth"
    );
    assert_eq!(param(&to_idp, "redirect_uri").unwrap(), format!("{META}/callback"));
    assert_eq!(param(&to_idp, "code_challenge").unwrap(), "abc");

    // The provider redirects the browser back to the gateway's callback.
    let q = url::form_urlencoded::Serializer::new(String::new())
        .append_pair("code", "kc-code")
        .append_pair("state", &param(&to_idp, "state").unwrap())
        .append_pair("iss", "https://idp.example.com/realms/example")
        .finish();
    let to_client = location(&answer(&key, &q));

    assert_eq!(to_client.as_str().split('?').next().unwrap(), CLIENT_CB);
    assert_eq!(param(&to_client, "state").unwrap(), "client-state");
    // Matches the issuer that the metadata advertises.
    assert_eq!(param(&to_client, "iss").unwrap(), "https://gw.example.com/my-server/mcp");

    // Token step: sealed code and client's redirect URI, then provider's code and callback.
    let form = url::form_urlencoded::Serializer::new(String::new())
        .append_pair("grant_type", "authorization_code")
        .append_pair("code", &param(&to_client, "code").unwrap())
        .append_pair("redirect_uri", CLIENT_CB)
        .append_pair("code_verifier", "v")
        .finish();
    let out = rewrite_token_form(&key, form.as_bytes(), &format!("{META}/callback")).unwrap();
    let out: Vec<(String, String)> =
        url::form_urlencoded::parse(out.as_bytes()).into_owned().collect();
    assert_eq!(get(&out, "code"), Some("kc-code"));
    assert_eq!(get(&out, "redirect_uri"), Some(format!("{META}/callback").as_str()));
    assert_eq!(get(&out, "code_verifier"), Some("v"));
}

#[test]
fn authorize_rejects_non_loopback_redirect() {
    let key = SealingKey::random();
    assert_eq!(login(&key, "https://evil.example/steal").status, BAD_REQUEST);
    assert_eq!(location(&login(&key, "http://localhost:1/cb")).scheme(), "https");
    assert_eq!(
        location(&login(&key, "https://client.example/api/mcp/auth_callback")).scheme(),
        "https"
    );
}

#[test]
fn callback_forwards_errors_with_gateway_iss() {
    let key = SealingKey::random();
    let st = sealed_state(&key, Some("s"), now() + 60);
    let q = format!(
        "error=access_denied&state={st}&iss=https%3A%2F%2Fidp.example.com%2Frealms%2Fexample"
    );
    let u = location(&answer(&key, &q));
    assert_eq!(param(&u, "error").unwrap(), "access_denied");
    assert_eq!(param(&u, "iss").unwrap(), "https://gw.example.com/my-server/mcp");
    assert_eq!(param(&u, "code"), None);
}

#[test]
fn callback_rejects_tampered_expired_or_foreign_iss() {
    let key = SealingKey::random();
    let ok = sealed_state(&key, None, now() + 60);
    let expired = sealed_state(&key, None, 0);
    let code = sealed_code(&key);
    for q in [
        format!("code=c&state={ok}x"),
        format!("code=c&state={expired}"),
        format!("code=c&state={code}"),
        format!("code=c&state={ok}&iss=https%3A%2F%2Fother.example"),
    ] {
        let resp = answer(&key, &q);
        assert_eq!(resp.status, BAD_REQUEST, "{q}");
    }
}

#[test]
fn token_rejects_mismatched_redirect_and_unwrapped_code() {
    let key = SealingKey::random();
    let code = sealed_code(&key);
    let cb = format!("{META}/callback");
    let form = format!(
        "grant_type=authorization_code&code={code}&redirect_uri=http%3A%2F%2F127.0.0.1%3A9999%2Fcb"
    );
    assert!(rewrite_token_form(&key, form.as_bytes(), &cb).is_err());
    assert!(
        rewrite_token_form(&key, b"grant_type=authorization_code&code=raw-kc-code", &cb).is_err()
    );
    assert_eq!(
        rewrite_token_form(&key, b"grant_type=refresh_token&refresh_token=r", &cb).unwrap(),
        "grant_type=refresh_token&refresh_token=r"
    );
}

#[test]
fn refusals_say_why() {
    let key = SealingKey::random();
    let other = SealingKey::random();
    let ok = sealed_state(&key, None, now() + 60);
    let foreign = sealed_state(&other, None, now() + 60);
    let expired = sealed_state(&key, None, 0);
    let bad = SealedState { redirect_uri: "no url".to_string(), state: None, exp: now() + 60 };
    let bad = bad.seal(&key, &NONCE).unwrap();
    let cases = [
        (format!("state={ok}&iss=x"), "iss does not match the configured issuer"),
        ("code=c".to_string(), "invalid state"),
        (format!("state={foreign}"), "invalid state"),
        (format!("state={expired}"), "login expired"),
        (format!("state={bad}"), "invalid redirect_uri"),
    ];
    for (q, why) in cases {
        let resp = answer(&key, &q);
        assert_eq!((resp.status, resp.body.as_str()), (BAD_REQUEST, why));
        assert!(resp.headers.is_empty());
    }
    let elsewhere = RequestUri {
        origin: "https://gw.example.com".to_string(),
        path: "/elsewhere/callback".to_string(),
    };
    let resp = callback(&key, &elsewhere, Some(&format!("state={ok}")), &auth()).unwrap();
    assert_eq!(resp.body, "cannot derive issuer");

    let resp = authorize(&key, &uri("/authorize"), None, &auth()).unwrap();
    assert_eq!((resp.status, resp.body.as_str()), (BAD_REQUEST, "missing redirect_uri"));
    let resp = login(&key, "https://evil.example/steal");
    assert_eq!((resp.status, resp.body.as_str()), (BAD_REQUEST, "redirect_uri not allowed"));
}

#[test]
fn allowed_redirects_are_loopback_or_listed() {
    let allowed = |uri: &str| allowed_redirect(uri, &auth().allowed_redirects);
    assert!(allowed("http://127.0.0.1/"));
    assert!(allowed("http://localhost:8080/x?y=z"));
    assert!(allowed("http://[::1]:9/cb"));
    assert!(allowed("https://client.example/api/mcp/auth_callback"));
    assert!(!allowed("https://client.example/api/mcp/auth_callback?x"));
    assert!(!allowed("https://127.0.0.1/"));
    assert!(!allowed("http://localhost.evil.example/"));
    assert!(!allowed("http://127.0.0.1@evil.example/"));
    assert!(!allowed("not a url"));
    assert!(!allowed_redirect("https://client.example/api/mcp/auth_callback", &vec![]));
    assert!(!allowed_redirect("not a url", &vec!["not a url".to_string()]));
}

#[test]
fn login_lasts_ten_minutes() {
    let key = SealingKey::new([1; 32]);
    let start = authorize_with(
        &key,
        &NONCE,
        1000,
        &uri("/authorize"),
        Some(&login_query(CLIENT_CB)),
        &auth(),
    );
    let state = param(&location(&start.unwrap()), "state").unwrap();
    let opened = SealedState::open(&key, &state).unwrap();
    assert_eq!(opened.redirect_uri, CLIENT_CB);
    assert_eq!(opened.state.as_deref(), Some("client-state"));
    assert_eq!(opened.exp, 1600);
    assert!(SealedCode::open(&key, &state).is_none());
    let q = format!("code=k&state={state}");
    let at = |now: u64| {
        callback_with(&key, &NONCE, now, &uri("/callback"), Some(&q), &auth()).unwrap().status
    };
    assert_eq!(at(1000 + STATE_TTL_SECS), FOUND);
    assert_eq!(at(1001 + STATE_TTL_SECS), BAD_REQUEST);
}

#[test]
fn sealed_tokens_open_only_as_what_they_are() {
    let key = SealingKey::new([1; 32]);
    let other = SealingKey::new([2; 32]);
    let state = sealed_state(&key, Some("s"), 5);
    let code = sealed_code(&key);
    assert_eq!(SealedState::open(&key, &state).unwrap().exp, 5);
    assert_eq!(SealedCode::open(&key, &code).unwrap().code, "c");
    assert!(SealedState::open(&key, &code).is_none());
    assert!(SealedCode::open(&key, &state).is_none());
    assert!(SealedState::open(&other, &state).is_none());
    assert!(SealedState::open(&key, "").is_none());
    assert!(SealedState::open(&key, "*").is_none());
    assert!(SealedState::open(&key, "AAAA").is_none());
    // The nonce stands in front of the ciphertext and its tag.
    assert!(state.starts_with("BwcHBwcHBwcHBwcH"));
    let plain = r#"{"redirect_uri":"http://127.0.0.1:53682/callback","state":"s","exp":5}"#;
    assert_eq!(state.len(), ((12 + plain.len() + 16) * 4).div_ceil(3));
    assert_eq!(key.open(&state).unwrap(), plain.as_bytes());
    assert_eq!(
        key.open(&code).unwrap(),
        br#"{"code":"c","redirect_uri":"http://127.0.0.1:53682/callback"}"#
    );
    let odd = SealedState { redirect_uri: "a\"\n\u{e9}".to_string(), state: None, exp: u64::MAX };
    assert_eq!(
        key.open(&odd.seal(&key, &NONCE).unwrap()).unwrap(),
        "{\"redirect_uri\":\"a\\\"\\n\u{e9}\",\"state\":null,\"exp\":18446744073709551615}".as_bytes()
    );
}

#[test]
fn sealed_payloads_need_their_fields() {
    let key = SealingKey::new([1; 32]);
    let open = |plain: &str| SealedState::open(&key, &key.seal_with(&NONCE, plain).unwrap());
    let st = open(r#"{"redirect_uri":"u","exp":1,"more":[1]}"#).unwrap();
    assert_eq!((st.redirect_uri.as_str(), st.state, st.exp), ("u", None, 1));
    assert!(open(r#"{"redirect_uri":"u","state":"s"}"#).is_none());
    assert!(open(r#"{"redirect_uri":"u","exp":"1"}"#).is_none());
    assert!(open(r#"{"redirect_uri":"u","exp":-1}"#).is_none());
    assert!(open(r#"{"redirect_uri":"u","exp":1,"state":2}"#).is_none());
    assert!(open("[]").is_none());
    assert!(open("").is_none());
    let st = open(r#"["u",null,1]"#).unwrap();
    assert_eq!((st.redirect_uri.as_str(), st.state, st.exp), ("u", None, 1));
    assert!(open(r#"["u",null]"#).is_none());
    assert!(open(r#"["u",null,1,2]"#).is_none());
    let code = |plain: &str| SealedCode::open(&key, &key.seal_with(&NONCE, plain).unwrap());
    assert_eq!(code(r#"["c","u"]"#).unwrap().redirect_uri, "u");
    assert_eq!(code(r#"{"redirect_uri":"u","code":"c"}"#).unwrap().code, "c");
    assert!(code(r#"["u",null,1]"#).is_none());
    assert!(code(r#"{"code":"c"}"#).is_none());
}

#[test]
fn late_clock_and_bad_issuer_are_faults() {
    let key = SealingKey::new([1; 32]);
    let q = login_query(CLIENT_CB);
    let at = |now: u64, auth: &McpAuthentication| {
        authorize_with(&key, &NONCE, now, &uri("/authorize"), Some(&q), auth)
    };
    assert_eq!(at(u64::MAX - STATE_TTL_SECS + 1, &auth()), Err(Fault::Clock));
    assert!(at(u64::MAX - STATE_TTL_SECS, &auth()).is_ok());
    let broken = McpAuthentication { issuer: "https://idp\n".to_string(), ..auth() };
    assert_eq!(at(0, &broken), Err(Fault::InvalidHeader));
}

#[test]
fn provider_gets_only_the_gateways_own() {
    let pairs = vec![
        pair("state", "a"),
        pair("scope", "x"),
        pair("redirect_uri", "u"),
        pair("state", "b"),
        pair("scope", "y"),
    ];
    let out = provider_query(&pairs, "cb".to_string(), "sealed".to_string());
    assert_eq!(
        out,
        vec![
            pair("scope", "x"),
            pair("scope", "y"),
            pair("redirect_uri", "cb"),
            pair("state", "sealed"),
        ]
    );
}

#[test]
fn login_starts_with_the_first_of_each() {
    let pairs = vec![
        pair("redirect_uri", "u"),
        pair("redirect_uri", "v"),
        pair("state", "s"),
    ];
    let st = start_login(&pairs, true, 10).unwrap();
    assert_eq!((st.redirect_uri.as_str(), st.state.as_deref(), st.exp), ("u", Some("s"), 610));
    assert_eq!(
        start_login(&pairs, false, 10),
        Err(Refusal::BadRequest("redirect_uri not allowed"))
    );
    assert_eq!(
        start_login(&vec![], true, 10),
        Err(Refusal::BadRequest("missing redirect_uri"))
    );
    assert_eq!(start_login(&pairs, true, u64::MAX), Err(Refusal::Fault(Fault::Clock)));
}

#[test]
fn answers_are_checked_in_order() {
    let login = || Some(SealedState { redirect_uri: "u".to_string(), state: None, exp: 5 });
    let iss = || Some("g".to_string());
    let check = |pairs: &Vec<(String, String)>, login, now, gateway, is_url| {
        accept_answer(pairs, &auth(), login, now, gateway, is_url).map(|(st, g)| (st.exp, g))
    };
    let none = vec![];
    let foreign = vec![pair("iss", "x")];
    assert_eq!(
        check(&foreign, None, 9, None, false),
        Err("iss does not match the configured issuer")
    );
    assert_eq!(check(&none, None, 9, None, false), Err("invalid state"));
    assert_eq!(check(&none, login(), 6, None, false), Err("login expired"));
    assert_eq!(check(&none, login(), 5, None, false), Err("cannot derive issuer"));
    assert_eq!(check(&none, login(), 5, iss(), false), Err("invalid redirect_uri"));
    assert_eq!(check(&none, login(), 5, iss(), true), Ok((5, "g".to_string())));
    let own = vec![pair("iss", "https://idp.example.com/realms/example")];
    assert_eq!(check(&own, login(), 0, iss(), true), Ok((5, "g".to_string())));
}

#[test]
fn client_is_told_in_order() {
    let pairs = vec![
        pair("error_uri", "e3"),
        pair("error", "e1"),
        pair("session_state", "no"),
        pair("error_description", "e2"),
    ];
    assert_eq!(
        client_query(&pairs, Some("c"), Some("s"), "g"),
        vec![
            pair("code", "c"),
            pair("error", "e1"),
            pair("error_description", "e2"),
            pair("error_uri", "e3"),
            pair("state", "s"),
            pair("iss", "g"),
        ]
    );
    assert_eq!(client_query(&vec![], None, None, "g"), vec![pair("iss", "g")]);
}

#[test]
fn redirect_uri_keeps_its_own_query() {
    let key = SealingKey::new([1; 32]);
    let st = SealedState {
        redirect_uri: "http://localhost:1/cb?mine=1#frag".to_string(),
        state: Some("a b&c".to_string()),
        exp: 5,
    };
    let token = st.seal(&key, &NONCE).unwrap();
    let resp = callback_with(
        &key,
        &NONCE,
        5,
        &uri("/callback"),
        Some(&format!("state={token}&error=x")),
        &auth(),
    )
    .unwrap();
    assert_eq!(
        location(&resp).as_str(),
        "http://localhost:1/cb?mine=1&error=x&state=a+b%26c\
         &iss=https%3A%2F%2Fgw.example.com%2Fmy-server%2Fmcp#frag"
    );
}

#[test]
fn client_reads_its_own_pairs_before_what_it_is_told() {
    let key = SealingKey::new([1; 32]);
    for (own, pairs) in [
        ("a=\u{e9} b&c=%41+%", vec![pair("a", "\u{e9} b"), pair("c", "A %")]),
        ("", vec![]),
        ("iss=mine&'<>", vec![pair("iss", "mine"), pair("'<>", "")]),
    ] {
        let redirect_uri = format!("http://localhost/cb?{own}#f?x=y");
        let st = SealedState { redirect_uri, state: None, exp: 5 };
        let q = format!("state={}&error=e", st.seal(&key, &NONCE).unwrap());
        let resp = callback_with(&key, &NONCE, 5, &uri("/callback"), Some(&q), &auth()).unwrap();
        assert_eq!(query_pairs(Some(own)), pairs);
        let mut all = pairs;
        all.push(pair("error", "e"));
        all.push(pair("iss", "https://gw.example.com/my-server/mcp"));
        assert_eq!(query_pairs(location(&resp).query()), all);
    }
}

#[test]
fn odd_redirect_uris_still_stand_in_a_header() {
    let key = SealingKey::new([1; 32]);
    for redirect_uri in ["http://localhost/\u{e9}\u{7f}?\u{1}#\u{2}", "odd:\u{7f} x", "a://\u{e9}/"] {
        let st = SealedState { redirect_uri: redirect_uri.to_string(), state: None, exp: 5 };
        let token = st.seal(&key, &NONCE).unwrap();
        let q = format!("state={token}");
        let resp = callback_with(&key, &NONCE, 5, &uri("/callback"), Some(&q), &auth()).unwrap();
        let to = location(&resp);
        assert!(to.as_str().bytes().all(|b| (32..127).contains(&b)), "{to}");
        assert_eq!(param(&to, "iss").unwrap(), "https://gw.example.com/my-server/mcp");
    }
}

#[test]
fn oversized_redirect_is_a_fault() {
    let key = SealingKey::new([1; 32]);
    let st = SealedState { redirect_uri: CLIENT_CB.to_string(), state: None, exp: 5 };
    let token = st.seal(&key, &NONCE).unwrap();
    let q = format!("state={token}&error={}", "x".repeat(0x200_0000));
    let r = callback_with(&key, &NONCE, 5, &uri("/callback"), Some(&q), &auth());
    assert_eq!(r, Err(Fault::TooLong));
}

#[test]
fn endpoints_hang_off_one_document() {
    let cb = format!("{META}/callback");
    assert_eq!(callback_url(&uri("/authorize"), "/authorize"), cb);
    assert_eq!(callback_url(&uri("/token"), "/token"), cb);
    assert_eq!(metadata_base(&uri("/token"), "/token"), META);
    assert_eq!(metadata_base(&uri("/token"), "/authorize"), format!("{META}/token"));
    assert_eq!(
        gateway_issuer(&uri("/callback"), "/callback").as_deref(),
        Some("https://gw.example.com/my-server/mcp")
    );
    assert_eq!(gateway_issuer(&uri("/token"), "/callback"), None);
    assert_eq!(
        keycloak_endpoint(&auth(), "token"),
        "https://idp.example.com/realms/example/protocol/openid-connect/token"
    );
    assert_eq!(endpoint(&uri("/authorize").path), Endpoint::Authorize);
    assert_eq!(endpoint(&uri("/callback").path), Endpoint::Callback);
    assert_eq!(endpoint(&uri("/token").path), Endpoint::Token);
}

#[test]
fn exchange_swaps_only_code_and_redirect_uri() {
    let sc = || Some(SealedCode { code: "kc".to_string(), redirect_uri: "u".to_string() });
    let pairs = vec![
        pair("grant_type", "authorization_code"),
        pair("code", "sealed"),
        pair("client_id", "id"),
        pair("redirect_uri", "u"),
        pair("code", "again"),
    ];
    assert_eq!(
        exchange_pairs(&pairs, &sc(), "cb"),
        Ok(Some(vec![
            pair("grant_type", "authorization_code"),
            pair("code", "kc"),
            pair("client_id", "id"),
            pair("redirect_uri", "cb"),
            pair("code", "kc"),
        ]))
    );
    assert_eq!(
        exchange_pairs(&pairs, &None, "cb"),
        Err("code was not issued by this gateway")
    );
    let other = Some(SealedCode { code: "kc".to_string(), redirect_uri: "v".to_string() });
    assert_eq!(
        exchange_pairs(&pairs, &other, "cb"),
        Err("redirect_uri does not match the authorization request")
    );
    assert_eq!(exchange_pairs(&vec![pair("grant_type", "x")], &None, "cb"), Ok(None));
}

#[test]
fn other_grants_are_made_text() {
    let key = SealingKey::new([1; 32]);
    assert_eq!(rewrite_token_form(&key, b"a=%41&&b", "cb").unwrap(), "a=%41&&b");
    assert_eq!(rewrite_token_form(&key, b"a=\xff", "cb").unwrap(), "a=\u{fffd}");
}

#[test]
fn token_requests_go_to_the_provider() {
    let key = SealingKey::new([1; 32]);
    let code = sealed_code(&key);
    let form = format!(
        "grant_type=authorization_code&code={code}\
         &redirect_uri=http%3A%2F%2F127.0.0.1%3A53682%2Fcallback&x=a+b"
    );
    let step = token(&key, &uri("/token"), &auth(), Some(b"Basic x".to_vec()), form.as_bytes());
    assert_eq!(
        step,
        TokenStep::Forward(Outbound {
            uri: "https://idp.example.com/realms/example/protocol/openid-connect/token".to_string(),
            content_type: "application/x-www-form-urlencoded".to_string(),
            authorization: Some(b"Basic x".to_vec()),
            body: "grant_type=authorization_code&code=c&redirect_uri=https%3A%2F%2F\
                   gw.example.com%2F.well-known%2Foauth-authorization-server%2Fmy-server%2Fmcp\
                   %2Fcallback&x=a+b"
                .to_string(),
        })
    );
    let step = token(&key, &uri("/token"), &auth(), None, b"grant_type=authorization_code");
    assert_eq!(step, TokenStep::Reply(invalid_grant("code was not issued by this gateway")));
    let TokenStep::Reply(resp) = step else { panic!("a refusal is a reply") };
    assert_eq!(resp.status, 400);
    assert_eq!(
        resp.headers,
        vec![("content-type".to_string(), "application/json".to_string())]
    );
    assert_eq!(
        resp.body,
        r#"{"error":"invalid_grant","error_description":"code was not issued by this gateway"}"#
    );
}

#[test]
fn token_takes_only_post() {
    assert_eq!(begin_token("POST"), Step::ReadBody);
    let Step::Reply(resp) = begin_token("GET") else { panic!("only POST is read") };
    assert_eq!(resp.status, 405);
    assert_eq!(resp.headers, vec![("allow".to_string(), "POST".to_string())]);
    assert_eq!(resp.body, "");
}

#[test]
fn requests_are_handled_by_path() {
    let key = SealingKey::random();
    let at = |method: &str, suffix: &str, query: Option<&str>| {
        let uri = uri(suffix);
        handle(&key, method, &uri.path, &uri, query, &auth()).unwrap()
    };
    let q = login_query(CLIENT_CB);
    let Step::Reply(resp) = at("GET", "/authorize", Some(&q)) else { panic!("a login redirects") };
    assert_eq!(resp.status, FOUND);
    let Step::Reply(resp) = at("GET", "/callback", None) else { panic!("an answer is replied to") };
    assert_eq!(resp.body, "invalid state");
    assert_eq!(at("POST", "/token", None), Step::ReadBody);
    let Step::Reply(resp) = at("GET", "/token", None) else { panic!("only POST is read") };
    assert_eq!(resp.status, 405);
}

#[test]
fn queries_are_decoded() {
    assert_eq!(
        query_pairs(Some("a=1&b=x%20y+z&a=2")),
        vec![pair("a", "1"), pair("b", "x y z"), pair("a", "2")]
    );
    assert_eq!(query_pairs(None), vec![]);
}

#[test]
fn locations_must_stand_in_a_header() {
    assert!(redirect("https://x/\r\ny".to_string()).is_err());
    assert!(redirect("https://x/\u{7f}".to_string()).is_err());
    let resp = redirect("https://x/\u{e9}\t".to_string()).unwrap();
    assert_eq!(resp.headers, vec![pair("location", "https://x/\u{e9}\t")]);
    assert_eq!((resp.status, resp.body.as_str()), (302, ""));
}

#[test]
fn clock_is_past_2020() {
    assert!(now() > 1_577_836_800);
}

#[test]
fn clock_readings_are_whole_seconds() {
    let epoch = std::time::UNIX_EPOCH;
    let at = |millis: u64| epoch + std::time::Duration::from_millis(millis);
    assert_eq!(reading_secs(at(1999).duration_since(epoch)), 1);
    assert_eq!(reading_secs(at(2000).duration_since(epoch)), 2);
    assert_eq!(reading_secs(epoch.duration_since(at(5000))), 0);
}
