//! JSON-RPC messages: what is read of a client's request, and how errors are written.
use crate::form::lookup;
use crate::json::distinct_keys;
use crate::json::json_fields;
use crate::json::json_object_text;
use crate::json::json_string;
use crate::json::json_text;
use crate::json::FieldView;
use crate::text::signed_decimal;
use rmcp::model::CallToolResult;
use rmcp::model::ClientJsonRpcMessage;
use rmcp::model::ContentBlock;
use rmcp::model::ErrorCode;
use rmcp::model::JsonRpcError;
use rmcp::model::JsonRpcResponse;
use rmcp::model::JsonRpcVersion2_0;
use rmcp::model::NumberOrString;
use rmcp::model::ResultType;
use vstd::prelude::*;
use vstd::utf8::encode_utf8;

verus! {

/// Application-defined "over quota" code; MCP defines none.
pub const RESOURCE_EXHAUSTED: i32 = -32003;

/// The protocol version is not supported.
pub const UNSUPPORTED_PROTOCOL_VERSION: i32 = -32022;

/// A header disagrees with the body.
pub const HEADER_MISMATCH: i32 = -32020;

/// There is no such method.
pub const METHOD_NOT_FOUND: i32 = -32601;

/// The parameters are not what the method takes.
pub const INVALID_PARAMS: i32 = -32602;

/// Something failed on the server's side.
pub const INTERNAL_ERROR: i32 = -32603;

/// The ID by which a client knows its request.
#[derive(Debug, PartialEq, Eq)]
pub enum RequestId {
    Number(i64),
    Text(String),
}

/// What a request ID holds.
pub enum IdView {
    Number(i64),
    Text(Seq<char>),
}

impl View for RequestId {
    type V = IdView;

    open spec fn view(&self) -> IdView {
        match self {
            RequestId::Number(n) => IdView::Number(*n),
            RequestId::Text(s) => IdView::Text(s@),
        }
    }
}

impl DeepView for RequestId {
    type V = IdView;

    open spec fn deep_view(&self) -> IdView {
        self.view()
    }
}

impl Clone for RequestId {
    fn clone(&self) -> (r: Self)
        ensures
            r@ == self@,
    {
        match self {
            RequestId::Number(n) => RequestId::Number(*n),
            RequestId::Text(s) => RequestId::Text(s.clone()),
        }
    }
}

/// The error of a JSON-RPC response.
#[derive(Debug, PartialEq)]
pub struct ErrorData {
    pub code: i32,
    pub message: String,
    pub data: Option<serde_json::Value>,
}

/// What an error holds; its data by their rendering.
#[verifier::ext_equal]
pub struct ErrorDataView {
    pub code: i32,
    pub message: Seq<char>,
    pub data: Option<Seq<char>>,
}

/// The rendering of a value that may be missing.
pub open spec fn optional_json(v: Option<serde_json::Value>) -> Option<Seq<char>> {
    match v {
        Some(v) => Some(json_text(v)),
        None => None,
    }
}

impl View for ErrorData {
    type V = ErrorDataView;

    open spec fn view(&self) -> ErrorDataView {
        ErrorDataView {
            code: self.code,
            message: self.message@,
            data: optional_json(self.data),
        }
    }
}

/// `serde_json::Value`'s `clone`. Claimed: the clone has the same rendering.
pub assume_specification[ <serde_json::Value as Clone>::clone ](
    v: &serde_json::Value,
) -> (r: serde_json::Value)
    ensures
        json_text(r) == json_text(*v),
;

impl Clone for ErrorData {
    fn clone(&self) -> (r: Self)
        ensures
            r@ == self@,
    {
        ErrorData {
            code: self.code,
            message: self.message.clone(),
            data: match &self.data {
                Some(v) => Some(v.clone()),
                None => None,
            },
        }
    }
}

/// A request ID in JSON.
pub open spec fn id_text(id: IdView) -> Seq<char> {
    match id {
        IdView::Number(n) => signed_decimal(n as int),
        IdView::Text(s) => json_string(s),
    }
}

/// The data of an error as its last member, where there are any.
pub open spec fn data_member(data: Option<Seq<char>>) -> Seq<char> {
    match data {
        Some(data) => ",\"data\":"@ + data,
        None => Seq::empty(),
    }
}

/// The JSON-RPC error response with this ID and error.
pub open spec fn error_response_text(id: IdView, error: ErrorDataView) -> Seq<char> {
    "{\"jsonrpc\":\"2.0\",\"id\":"@ + id_text(id) + ",\"error\":{\"code\":"@ + signed_decimal(
        error.code as int,
    ) + ",\"message\":"@ + json_string(error.message) + data_member(error.data) + "}}"@
}

/// The type of a result as its last member, where it has one.
pub open spec fn type_member(typed: bool) -> Seq<char> {
    if typed {
        ",\"resultType\":\"complete\""@
    } else {
        Seq::empty()
    }
}

/// The JSON-RPC response to a tool call that failed with this text: a result that is an error,
/// with one block of text, and with or without the type of the result.
pub open spec fn tool_error_text(id: IdView, text: Seq<char>, typed: bool) -> Seq<char> {
    "{\"id\":"@ + id_text(id)
        + ",\"jsonrpc\":\"2.0\",\"result\":{\"content\":[{\"text\":"@ + json_string(text)
        + ",\"type\":\"text\"}],\"isError\":true"@ + type_member(typed) + "}}"@
}

/// An error by itself in JSON, as a value whose members are in the order of their names.
pub open spec fn error_data_text(error: ErrorDataView) -> Seq<char> {
    "{\"code\":"@ + signed_decimal(error.code as int) + data_member(error.data) + ",\"message\":"@
        + json_string(error.message) + "}"@
}

/// What reading finds of a request ID: a negative number is there without its value.
pub open spec fn id_field(id: IdView) -> Option<FieldView> {
    match id {
        IdView::Number(n) => if n >= 0 {
            Some(FieldView::Unsigned(n as u64))
        } else {
            None
        },
        IdView::Text(s) => Some(FieldView::Text(s)),
    }
}

/// Whoever reads this body finds version 2.0, the ID of the request, an object under `member`,
/// and nothing else.
pub open spec fn is_response(body: Seq<char>, id: IdView, member: Seq<char>) -> bool {
    &&& json_fields(encode_utf8(body)) is Some
    &&& forall|k: Seq<char>| #[trigger]
        lookup(json_fields(encode_utf8(body))->0, k) == (if k == "jsonrpc"@ {
            Some(Some(FieldView::Text("2.0"@)))
        } else if k == "id"@ {
            Some(id_field(id))
        } else if k == member {
            Some(None)
        } else {
            None
        })
}

/// Where an error has data, they are a flat object.
pub open spec fn flat_data(data: Option<Seq<char>>) -> bool {
    data matches Some(text) ==> exists|fields: Seq<(Seq<char>, FieldView)>|
        distinct_keys(fields) && text == #[trigger] json_object_text(fields)
}

/// The ID and the method of the request that these bytes spell; nothing where they spell no
/// client message, or one that is no request.
pub uninterp spec fn client_request(bytes: Seq<u8>) -> Option<(IdView, Seq<char>)>;

/// Calls `serde_json::to_string` on rmcp's `JsonRpcError`. Claimed: there is a text, and it is the
/// compact object of version, ID and error, in which the ID is a number or a string, and the error
/// has its code, its message and, if any, its data. How a string is written is named, and left
/// open. If the text can be read back at all, its members are these; it can be where the data are
/// a flat object. (Data that are nested too deeply cannot be read back.)
#[verifier::external_body]
pub(crate) fn render_error_response(id: &RequestId, error: &ErrorData) -> (r: Option<String>)
    ensures
        r.deep_view() == Some(
            "{\"jsonrpc\":\"2.0\",\"id\":"@ + id_text(id@) + ",\"error\":{\"code\":"@
                + signed_decimal(error.code as int) + ",\"message\":"@ + json_string(
                error.message@,
            ) + data_member(error@.data) + "}}"@,
        ),
        r matches Some(body) ==> json_fields(encode_utf8(body@)) is Some ==> is_response(
            body@,
            id@,
            "error"@,
        ),
        r matches Some(body) ==> flat_data(error@.data) ==> is_response(body@, id@, "error"@),
{
    let id = match id {
        RequestId::Number(n) => NumberOrString::Number(*n),
        RequestId::Text(s) => NumberOrString::String(s.as_str().into()),
    };
    let e = rmcp::ErrorData::new(ErrorCode(error.code), error.message.clone(), error.data.clone());
    serde_json::to_string(&JsonRpcError::new(Some(id), e)).ok()
}

/// Calls rmcp's `CallToolResult::error` on one text, and renders the response that carries the
/// result, as a `serde_json::Value`. `typed` tells whether the result has a type; it is then set
/// to the one that `CallToolResult::error` gives. Claimed: there is a text; it is the compact object
/// of ID, version and result, members in the order of their names, in which the result is an error
/// with the text as its one block; and it can be read back.
#[verifier::external_body]
pub(crate) fn render_tool_error(id: &RequestId, text: &str, typed: bool) -> (r: Option<String>)
    ensures
        r.deep_view() == Some(tool_error_text(id@, text@, typed)),
        r matches Some(body) ==> is_response(body@, id@, "result"@),
{
    let id = match id {
        RequestId::Number(n) => NumberOrString::Number(*n),
        RequestId::Text(s) => NumberOrString::String(s.as_str().into()),
    };
    let mut result = CallToolResult::error(vec![ContentBlock::text(text)]);
    result.result_type = typed.then_some(ResultType::COMPLETE);
    let response = JsonRpcResponse { jsonrpc: JsonRpcVersion2_0, id, result };
    serde_json::to_value(response).ok().map(|v| v.to_string())
}

/// Calls `serde_json::to_value` on rmcp's `ErrorData`. Claimed: there is a value, and it renders as
/// the compact object of code, data, if any, and message.
#[verifier::external_body]
pub(crate) fn error_value(error: &ErrorData) -> (r: Option<serde_json::Value>)
    ensures
        optional_json(r) == Some(error_data_text(error@)),
{
    serde_json::to_value(
        rmcp::ErrorData::new(ErrorCode(error.code), error.message.clone(), error.data.clone()),
    ).ok()
}

/// What reading a request gives, as plain content.
pub open spec fn request_view(r: Option<(RequestId, String)>) -> Option<(IdView, Seq<char>)> {
    match r {
        Some((id, method)) => Some((id@, method@)),
        None => None,
    }
}

/// Calls `serde_json::from_slice` for rmcp's `ClientJsonRpcMessage` and takes out of a request
/// its ID and method. Claimed: the outcome is a function of the bytes.
#[verifier::external_body]
pub(crate) fn parse_client_request(bytes: &[u8]) -> (r: Option<(RequestId, String)>)
    ensures
        request_view(r) == client_request(bytes@),
{
    let request = match serde_json::from_slice::<ClientJsonRpcMessage>(bytes).ok()? {
        ClientJsonRpcMessage::Request(request) => request,
        _ => return None,
    };
    let id = match request.id {
        NumberOrString::Number(n) => RequestId::Number(n),
        NumberOrString::String(s) => RequestId::Text(s.to_string()),
    };
    Some((id, request.request.method().to_string()))
}

/// A response has exactly one of a result and an error.
pub proof fn responses_have_one_outcome(body: Seq<char>, id: IdView, has_result: bool)
    requires
        is_response(
            body,
            id,
            if has_result {
                "result"@
            } else {
                "error"@
            },
        ),
    ensures
        ({
            let fields = json_fields(encode_utf8(body))->0;
            &&& lookup(fields, "jsonrpc"@) == Some(Some(FieldView::Text("2.0"@)))
            &&& lookup(fields, "id"@) == Some(id_field(id))
            &&& lookup(fields, "result"@) is Some <==> has_result
            &&& lookup(fields, "error"@) is Some <==> !has_result
        }),
{
    reveal_strlit("jsonrpc");
    reveal_strlit("id");
    reveal_strlit("result");
    reveal_strlit("error");
    assert("jsonrpc"@.len() == 7 && "id"@.len() == 2 && "result"@.len() == 6 && "error"@.len() == 5);
}

} // verus!
