//! The three endpoints that the gateway adds to its metadata document: `/authorize`, `/callback`
//! and `/token`.
use crate::exchange::rewrite_token_form;
use crate::exchange::rewrite_token_form_spec;
use crate::form::query_pairs_spec;
use crate::json::json_object_text;
use crate::json::object_value;
use crate::json::spells;
use crate::json::value_text;
use crate::json::Field;
use crate::json::FieldView;
use crate::login::answer_returns;
use crate::login::authorize;
use crate::login::authorize_spec;
use crate::login::callback;
use crate::login::callback_spec;
use crate::login::callback_uri;
use crate::login::callback_url;
use crate::login::login_returns;
use crate::login::outcome;
use crate::login::Fault;
use crate::oauth::keycloak_endpoint;
use crate::oauth::keycloak_endpoint_spec;
use crate::oauth::AuthView;
use crate::oauth::McpAuthentication;
use crate::oauth::RequestUri;
use crate::oauth::UriView;
use crate::response::Response;
use crate::response::ResponseView;
use crate::response::BAD_REQUEST;
use crate::response::FOUND;
use crate::response::METHOD_NOT_ALLOWED;
use crate::seal::SealingKey;
use crate::text::ends_with;
use crate::text::ends_with_spec;
use crate::text::str_eq;
use vstd::prelude::*;
use vstd::utf8::encode_utf8;

verus! {

/// The endpoint that a path leads to.
#[derive(Clone, Copy, Debug, PartialEq, Eq)]
pub enum Endpoint {
    Authorize,
    Callback,
    Token,
}

/// The endpoint that a path leads to.
pub open spec fn endpoint_spec(path: Seq<char>) -> Endpoint {
    if ends_with_spec(path, "/authorize"@) {
        Endpoint::Authorize
    } else if ends_with_spec(path, "/callback"@) {
        Endpoint::Callback
    } else {
        Endpoint::Token
    }
}

/// The endpoint that a path leads to.
pub fn endpoint(path: &str) -> (r: Endpoint)
    ensures
        r == endpoint_spec(path@),
{
    if ends_with(path, "/authorize") {
        Endpoint::Authorize
    } else if ends_with(path, "/callback") {
        Endpoint::Callback
    } else {
        Endpoint::Token
    }
}

/// What is to be done with a request.
#[derive(Clone, Debug, PartialEq)]
pub enum Step {
    /// Answer it.
    Reply(Response),
    /// Read its body, and go on with `token`.
    ReadBody,
}

/// What is to be done with a request, as plain content.
pub enum StepView {
    Reply(ResponseView),
    ReadBody,
}

impl View for Step {
    type V = StepView;

    open spec fn view(&self) -> StepView {
        match self {
            Step::Reply(resp) => StepView::Reply(resp@),
            Step::ReadBody => StepView::ReadBody,
        }
    }
}

/// Only `POST` is allowed.
pub open spec fn post_only_spec() -> ResponseView {
    ResponseView {
        status: METHOD_NOT_ALLOWED,
        headers: seq![("allow"@, "POST"@)],
        body: Seq::empty(),
    }
}

/// How `/token` begins.
pub open spec fn begin_token_spec(method: Seq<char>) -> StepView {
    if method != "POST"@ {
        StepView::Reply(post_only_spec())
    } else {
        StepView::ReadBody
    }
}

/// How `/token` begins: a request that is no `POST` is refused, of any other the body is read.
pub fn begin_token(method: &str) -> (r: Step)
    ensures
        r@ == begin_token_spec(method@),
{
    if !str_eq(method, "POST") {
        let mut headers: Vec<(String, String)> = Vec::new();
        headers.push(("allow".to_owned(), "POST".to_owned()));
        let resp = Response { status: METHOD_NOT_ALLOWED, headers, body: String::new() };
        assert(resp@ =~= post_only_spec());
        Step::Reply(resp)
    } else {
        Step::ReadBody
    }
}

/// A request that the gateway makes of the provider, with `POST`.
#[derive(Clone, Debug, PartialEq)]
pub struct Outbound {
    pub uri: String,
    pub content_type: String,
    /// The client's own credentials, byte for byte.
    pub authorization: Option<Vec<u8>>,
    pub body: String,
}

/// What an outbound request holds.
#[verifier::ext_equal]
pub struct OutboundView {
    pub uri: Seq<char>,
    pub content_type: Seq<char>,
    pub authorization: Option<Seq<u8>>,
    pub body: Seq<char>,
}

impl View for Outbound {
    type V = OutboundView;

    open spec fn view(&self) -> OutboundView {
        OutboundView {
            uri: self.uri@,
            content_type: self.content_type@,
            authorization: self.authorization.deep_view(),
            body: self.body@,
        }
    }
}

/// What becomes of a token request.
#[derive(Clone, Debug, PartialEq)]
pub enum TokenStep {
    /// It is refused.
    Reply(Response),
    /// The provider answers it.
    Forward(Outbound),
}

/// What becomes of a token request, as plain content.
pub enum TokenStepView {
    Reply(ResponseView),
    Forward(OutboundView),
}

impl View for TokenStep {
    type V = TokenStepView;

    open spec fn view(&self) -> TokenStepView {
        match self {
            TokenStep::Reply(resp) => TokenStepView::Reply(resp@),
            TokenStep::Forward(out) => TokenStepView::Forward(out@),
        }
    }
}

/// The fields of the refusal of a grant.
pub open spec fn invalid_grant_fields(why: Seq<char>) -> Seq<(Seq<char>, FieldView)> {
    seq![
        ("error"@, FieldView::Text("invalid_grant"@)),
        ("error_description"@, FieldView::Text(why)),
    ]
}

/// The refusal of a grant.
pub open spec fn invalid_grant_spec(why: Seq<char>) -> ResponseView {
    ResponseView {
        status: BAD_REQUEST,
        headers: seq![("content-type"@, "application/json"@)],
        body: json_object_text(invalid_grant_fields(why)),
    }
}

/// Refuses a grant.
pub fn invalid_grant(why: &str) -> (r: Response)
    ensures
        r@ == invalid_grant_spec(why@),
        spells(encode_utf8(r.body@), invalid_grant_fields(why@)),
{
    let mut fields: Vec<(String, Field)> = Vec::new();
    fields.push(("error".to_owned(), Field::Text("invalid_grant".to_owned())));
    fields.push(("error_description".to_owned(), Field::Text(why.to_owned())));
    assert(fields.deep_view() =~= invalid_grant_fields(why@));
    proof {
        reveal_strlit("error");
        reveal_strlit("error_description");
        assert("error"@.len() == 5 && "error_description"@.len() == 17);
    }
    let body = value_text(&object_value(&fields));
    let mut headers: Vec<(String, String)> = Vec::new();
    headers.push(("content-type".to_owned(), "application/json".to_owned()));
    let r = Response { status: BAD_REQUEST, headers, body };
    assert(r@ =~= invalid_grant_spec(why@));
    r
}

/// What becomes of a token request whose form was rewritten so, or could not be.
pub open spec fn token_step_spec(
    rewritten: Result<Seq<char>, Seq<char>>,
    issuer: Seq<char>,
    authorization: Option<Seq<u8>>,
) -> TokenStepView {
    match rewritten {
        Err(why) => TokenStepView::Reply(invalid_grant_spec(why)),
        Ok(body) => TokenStepView::Forward(
            OutboundView {
                uri: keycloak_endpoint_spec(issuer, "token"@),
                content_type: "application/x-www-form-urlencoded"@,
                authorization,
                body,
            },
        ),
    }
}

/// What `/token` does with a request of this body.
pub open spec fn token_spec(
    key: Seq<u8>,
    uri: UriView,
    issuer: Seq<char>,
    authorization: Option<Seq<u8>>,
    form: Seq<u8>,
) -> TokenStepView {
    token_step_spec(
        rewrite_token_form_spec(key, form, callback_uri(uri, "/token"@)),
        issuer,
        authorization,
    )
}

/// `/token`: what becomes of a token request. `form` is the request's body, `authorization` its
/// header of that name.
pub fn token(
    key: &SealingKey,
    uri: &RequestUri,
    auth: &McpAuthentication,
    authorization: Option<Vec<u8>>,
    form: &[u8],
) -> (r: TokenStep)
    ensures
        r@ == token_spec(key@, uri@, auth.issuer@, authorization.deep_view(), form@),
        rewrite_token_form_spec(key@, form@, callback_uri(uri@, "/token"@)) matches Err(why) ==> {
            &&& r matches TokenStep::Reply(resp)
            &&& spells(encode_utf8(resp.body@), invalid_grant_fields(why))
        },
{
    let callback = callback_url(uri, "/token");
    match rewrite_token_form(key, form, callback.as_str()) {
        Err(why) => TokenStep::Reply(invalid_grant(why)),
        Ok(body) => TokenStep::Forward(
            Outbound {
                uri: keycloak_endpoint(auth, "token"),
                content_type: "application/x-www-form-urlencoded".to_owned(),
                authorization,
                body,
            },
        ),
    }
}

/// What is to be done with a request, as plain content.
pub open spec fn step_outcome(r: Result<Step, Fault>) -> Result<StepView, Fault> {
    match r {
        Ok(step) => Ok(step@),
        Err(fault) => Err(fault),
    }
}

/// What an endpoint does with a request at this time, with this nonce.
pub open spec fn handle_spec(
    key: Seq<u8>,
    nonce: Seq<u8>,
    now: u64,
    method: Seq<char>,
    path: Seq<char>,
    uri: UriView,
    pairs: Seq<(Seq<char>, Seq<char>)>,
    auth: AuthView,
) -> Result<StepView, Fault> {
    let reply = match endpoint_spec(path) {
        Endpoint::Authorize => Some(authorize_spec(key, nonce, now, uri, pairs, auth)),
        Endpoint::Callback => Some(callback_spec(key, nonce, now, uri, pairs, auth.issuer)),
        Endpoint::Token => None,
    };
    match reply {
        Some(Ok(resp)) => Ok(StepView::Reply(resp)),
        Some(Err(fault)) => Err(fault),
        None => Ok(begin_token_spec(method)),
    }
}

/// What the browser is redirected with comes back.
pub open spec fn redirect_returns(
    key: Seq<u8>,
    nonce: Seq<u8>,
    now: u64,
    path: Seq<char>,
    uri: UriView,
    pairs: Seq<(Seq<char>, Seq<char>)>,
) -> bool {
    match endpoint_spec(path) {
        Endpoint::Authorize => login_returns(key, nonce, now, uri, pairs),
        Endpoint::Callback => answer_returns(key, nonce, uri, pairs),
        Endpoint::Token => true,
    }
}

/// Handles a request to one of the endpoints. `path` is the path that was asked for, `uri` the
/// external URL of the request.
pub fn handle(
    key: &SealingKey,
    method: &str,
    path: &str,
    uri: &RequestUri,
    query: Option<&str>,
    auth: &McpAuthentication,
) -> (r: Result<Step, Fault>)
    ensures
        exists|nonce: Seq<u8>, now: u64|
            {
                &&& nonce.len() == 12
                &&& step_outcome(r) == #[trigger] handle_spec(
                    key@,
                    nonce,
                    now,
                    method@,
                    path@,
                    uri@,
                    query_pairs_spec(query.deep_view()),
                    auth@,
                )
                &&& r matches Ok(Step::Reply(resp)) ==> resp.status == FOUND ==> redirect_returns(
                    key@,
                    nonce,
                    now,
                    path@,
                    uri@,
                    query_pairs_spec(query.deep_view()),
                )
            },
        endpoint_spec(path@) is Token ==> step_outcome(r) == Ok::<StepView, Fault>(
            begin_token_spec(method@),
        ),
{
    let ghost pairs = query_pairs_spec(query.deep_view());
    match endpoint(path) {
        Endpoint::Authorize => {
            let reply = authorize(key, uri, query, auth);
            proof {
                let (nonce, now): (Seq<u8>, u64) = choose|nonce: Seq<u8>, now: u64| {
                    &&& nonce.len() == 12
                    &&& outcome(reply) == #[trigger] authorize_spec(key@, nonce, now, uri@, pairs, auth@)
                    &&& reply matches Ok(resp) ==> resp.status == FOUND ==> login_returns(key@, nonce, now, uri@, pairs)
                };
                let _ = handle_spec(key@, nonce, now, method@, path@, uri@, pairs, auth@);
            }
            match reply {
                Ok(resp) => Ok(Step::Reply(resp)),
                Err(fault) => Err(fault),
            }
        },
        Endpoint::Callback => {
            let reply = callback(key, uri, query, auth);
            proof {
                let (nonce, now): (Seq<u8>, u64) = choose|nonce: Seq<u8>, now: u64| {
                    &&& nonce.len() == 12
                    &&& outcome(reply) == #[trigger] callback_spec(key@, nonce, now, uri@, pairs, auth@.issuer)
                    &&& reply matches Ok(resp) ==> resp.status == FOUND ==> answer_returns(key@, nonce, uri@, pairs)
                };
                let _ = handle_spec(key@, nonce, now, method@, path@, uri@, pairs, auth@);
            }
            match reply {
                Ok(resp) => Ok(Step::Reply(resp)),
                Err(fault) => Err(fault),
            }
        },
        Endpoint::Token => {
            let ghost nonce = Seq::new(12, |i: int| 0u8);
            let step = begin_token(method);
            assert(handle_spec(key@, nonce, 0, method@, path@, uri@, pairs, auth@)
                == Ok::<StepView, Fault>(step@));
            Ok(step)
        },
    }
}

} // verus!
