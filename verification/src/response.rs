//! Replies to HTTP requests, and which texts an HTTP header can carry.
use vstd::prelude::*;
use vstd::utf8::encode_utf8;

verus! {

/// `302 Found`.
pub const FOUND: u16 = 302;

/// `400 Bad Request`.
pub const BAD_REQUEST: u16 = 400;

/// `405 Method Not Allowed`.
pub const METHOD_NOT_ALLOWED: u16 = 405;

/// A reply: status, headers in order, body.
#[derive(Clone, Debug, PartialEq)]
pub struct Response {
    pub status: u16,
    pub headers: Vec<(String, String)>,
    pub body: String,
}

/// What a reply says.
#[verifier::ext_equal]
pub struct ResponseView {
    pub status: u16,
    pub headers: Seq<(Seq<char>, Seq<char>)>,
    pub body: Seq<char>,
}

impl View for Response {
    type V = ResponseView;

    open spec fn view(&self) -> ResponseView {
        ResponseView {
            status: self.status,
            headers: self.headers.deep_view(),
            body: self.body@,
        }
    }
}

/// A reply could not be built because a text cannot stand in an HTTP header.
#[derive(Clone, Copy, Debug, PartialEq, Eq)]
pub struct InvalidHeader;

/// An HTTP header value can hold this character: no control character but the tab, and not DEL.
pub open spec fn header_char(c: char) -> bool {
    (c as u32 >= 32 && c as u32 != 127) || c == '\t'
}

/// An HTTP header can carry this text as its value.
pub open spec fn header_safe(s: Seq<char>) -> bool {
    forall|i: int| 0 <= i < s.len() ==> header_char(#[trigger] s[i])
}

/// A header value that can be shown: every byte is printable ASCII or a tab.
pub open spec fn visible(value: Seq<u8>) -> bool {
    forall|i: int| 0 <= i < value.len() ==> 32 <= #[trigger] value[i] < 127 || value[i] == 9
}

/// A redirect to `location`.
pub open spec fn redirect_spec(location: Seq<char>) -> ResponseView {
    ResponseView {
        status: FOUND,
        headers: seq![("location"@, location)],
        body: Seq::empty(),
    }
}

/// A refusal that says why.
pub open spec fn bad_request_spec(msg: Seq<char>) -> ResponseView {
    ResponseView { status: BAD_REQUEST, headers: Seq::empty(), body: msg }
}

/// Calls `http::HeaderValue::from_str` and tells whether it accepts the text. Claimed: it does
/// exactly where every character is one that a header value can hold.
#[verifier::external_body]
pub(crate) fn is_header_value(s: &str) -> (r: bool)
    ensures
        r == header_safe(s@),
{
    http::HeaderValue::from_str(s).is_ok()
}

/// Calls `http::HeaderValue::from_bytes` and `to_str`. Claimed: there is a text exactly where
/// every byte can be shown, and it has these bytes.
#[verifier::external_body]
pub(crate) fn header_text(value: &[u8]) -> (r: Option<String>)
    ensures
        r is Some <==> visible(value@),
        r matches Some(text) ==> encode_utf8(text@) == value@,
{
    http::HeaderValue::from_bytes(value).ok()?.to_str().ok().map(str::to_owned)
}

/// Redirects the browser. Fails exactly where the location cannot stand in a header.
pub fn redirect(location: String) -> (r: Result<Response, InvalidHeader>)
    ensures
        r is Ok <==> header_safe(location@),
        r matches Ok(resp) ==> resp@ == redirect_spec(location@),
{
    if !is_header_value(location.as_str()) {
        return Err(InvalidHeader);
    }
    let mut headers: Vec<(String, String)> = Vec::new();
    headers.push(("location".to_owned(), location));
    let resp = Response { status: FOUND, headers, body: String::new() };
    assert(resp@ =~= redirect_spec(location@));
    Ok(resp)
}

/// Refuses a request in plain words.
pub fn bad_request(msg: &str) -> (r: Response)
    ensures
        r@ == bad_request_spec(msg@),
{
    let r = Response { status: BAD_REQUEST, headers: Vec::new(), body: msg.to_owned() };
    assert(r@ =~= bad_request_spec(msg@));
    r
}

} // verus!
