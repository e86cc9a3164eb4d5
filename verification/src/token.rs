//! The two payloads that travel sealed: the client's side of a login, and the code that ends it.
use crate::form::find;
use crate::form::lookup;
use crate::json::json_fields;
use crate::json::json_pair;
use crate::json::json_triple;
use crate::json::members_text;
use crate::json::parse_object;
use crate::json::parse_pair;
use crate::json::parse_triple;
use crate::json::spells;
use crate::json::write_object;
use crate::json::Field;
use crate::json::FieldView;
use crate::seal::opened;
use crate::seal::seal_fits;
use crate::seal::sealed;
use crate::seal::SealingKey;
use vstd::prelude::*;
use vstd::utf8::encode_utf8;

verus! {

/// Where a login started: the client's redirect URI and state, and when the login expires.
#[derive(Clone, Debug, PartialEq)]
pub struct SealedState {
    pub redirect_uri: String,
    pub state: Option<String>,
    pub exp: u64,
}

/// The code of the identity provider, with the redirect URI that it was asked for with.
#[derive(Clone, Debug, PartialEq)]
pub struct SealedCode {
    pub code: String,
    pub redirect_uri: String,
}

/// What a `SealedState` holds.
#[verifier::ext_equal]
pub struct StateView {
    pub redirect_uri: Seq<char>,
    pub state: Option<Seq<char>>,
    pub exp: u64,
}

/// What a `SealedCode` holds.
#[verifier::ext_equal]
pub struct CodeView {
    pub code: Seq<char>,
    pub redirect_uri: Seq<char>,
}

impl View for SealedState {
    type V = StateView;

    open spec fn view(&self) -> StateView {
        StateView {
            redirect_uri: self.redirect_uri@,
            state: self.state.deep_view(),
            exp: self.exp,
        }
    }
}

impl DeepView for SealedState {
    type V = StateView;

    open spec fn deep_view(&self) -> StateView {
        self.view()
    }
}

impl View for SealedCode {
    type V = CodeView;

    open spec fn view(&self) -> CodeView {
        CodeView { code: self.code@, redirect_uri: self.redirect_uri@ }
    }
}

impl DeepView for SealedCode {
    type V = CodeView;

    open spec fn deep_view(&self) -> CodeView {
        self.view()
    }
}

/// The JSON object of a state.
pub open spec fn state_fields(st: StateView) -> Seq<(Seq<char>, FieldView)> {
    seq![
        ("redirect_uri"@, FieldView::Text(st.redirect_uri)),
        (
            "state"@,
            match st.state {
                Some(s) => FieldView::Text(s),
                None => FieldView::Null,
            },
        ),
        ("exp"@, FieldView::Unsigned(st.exp)),
    ]
}

/// The JSON object of a code.
pub open spec fn code_fields(c: CodeView) -> Seq<(Seq<char>, FieldView)> {
    seq![
        ("code"@, FieldView::Text(c.code)),
        ("redirect_uri"@, FieldView::Text(c.redirect_uri)),
    ]
}

/// A required text field.
pub open spec fn text_field(field: Option<Option<FieldView>>) -> Option<Seq<char>> {
    match field {
        Some(Some(FieldView::Text(s))) => Some(s),
        _ => None,
    }
}

/// A text field that may be null or missing; nothing where it is something else.
pub open spec fn optional_text_field(field: Option<Option<FieldView>>) -> Option<Option<Seq<char>>> {
    match field {
        None => Some(None),
        Some(Some(FieldView::Null)) => Some(None),
        Some(Some(FieldView::Text(s))) => Some(Some(s)),
        _ => None,
    }
}

/// The state that an object spells: the redirect URI and the expiry are required, fields of
/// other names are passed over.
pub open spec fn state_of(fields: Seq<(Seq<char>, Option<FieldView>)>) -> Option<StateView> {
    match (
        text_field(lookup(fields, "redirect_uri"@)),
        optional_text_field(lookup(fields, "state"@)),
        lookup(fields, "exp"@),
    ) {
        (Some(redirect_uri), Some(state), Some(Some(FieldView::Unsigned(exp)))) => Some(
            StateView { redirect_uri, state, exp },
        ),
        _ => None,
    }
}

/// The code that an object spells: both of its fields are required, fields of other names are
/// passed over.
pub open spec fn code_of(fields: Seq<(Seq<char>, Option<FieldView>)>) -> Option<CodeView> {
    match (text_field(lookup(fields, "code"@)), text_field(lookup(fields, "redirect_uri"@))) {
        (Some(code), Some(redirect_uri)) => Some(CodeView { code, redirect_uri }),
        _ => None,
    }
}

/// The state that these bytes spell: an object, or an array of its fields in order.
pub open spec fn read_state(bytes: Seq<u8>) -> Option<StateView> {
    match json_fields(bytes) {
        Some(fields) => state_of(fields),
        None => match json_triple(bytes) {
            Some((redirect_uri, state, exp)) => Some(StateView { redirect_uri, state, exp }),
            None => None,
        },
    }
}

/// The code that these bytes spell: an object, or an array of its fields in order.
pub open spec fn read_code(bytes: Seq<u8>) -> Option<CodeView> {
    match json_fields(bytes) {
        Some(fields) => code_of(fields),
        None => match json_pair(bytes) {
            Some((code, redirect_uri)) => Some(CodeView { code, redirect_uri }),
            None => None,
        },
    }
}

/// The state that a token holds under this key.
pub open spec fn opened_state(key: Seq<u8>, token: Seq<char>) -> Option<StateView> {
    match opened(key, token) {
        Some(plain) => read_state(plain),
        None => None,
    }
}

/// The code that a token holds under this key.
pub open spec fn opened_code(key: Seq<u8>, token: Seq<char>) -> Option<CodeView> {
    match opened(key, token) {
        Some(plain) => read_code(plain),
        None => None,
    }
}

/// The token that seals a state.
pub open spec fn sealed_state(key: Seq<u8>, nonce: Seq<u8>, st: StateView) -> Seq<char> {
    sealed(key, nonce, encode_utf8(members_text(state_fields(st))))
}

/// The token that seals a code.
pub open spec fn sealed_code(key: Seq<u8>, nonce: Seq<u8>, c: CodeView) -> Seq<char> {
    sealed(key, nonce, encode_utf8(members_text(code_fields(c))))
}

/// A state is short enough to be sealed.
pub open spec fn state_fits(st: StateView) -> bool {
    seal_fits(encode_utf8(members_text(state_fields(st))).len())
}

/// A code is short enough to be sealed.
pub open spec fn code_fits(c: CodeView) -> bool {
    seal_fits(encode_utf8(members_text(code_fields(c))).len())
}

proof fn lemma_names()
    ensures
        "redirect_uri"@ != "state"@,
        "redirect_uri"@ != "exp"@,
        "redirect_uri"@ != "code"@,
        "state"@ != "exp"@,
        "state"@ != "code"@,
        "exp"@ != "code"@,
{
    reveal_strlit("redirect_uri");
    reveal_strlit("state");
    reveal_strlit("exp");
    reveal_strlit("code");
    assert("redirect_uri"@.len() == 12);
    assert("state"@.len() == 5);
    assert("exp"@.len() == 3);
    assert("code"@.len() == 4);
}

/// What was written as a state reads back as that state, and as no code.
pub proof fn state_reads_back(bytes: Seq<u8>, st: StateView)
    requires
        spells(bytes, state_fields(st)),
    ensures
        read_state(bytes) == Some(st),
        read_code(bytes) is None,
{
    lemma_names();
    reveal_with_fuel(lookup, 4);
    let f = state_fields(st);
    let g = json_fields(bytes)->0;
    assert(lookup(f, "redirect_uri"@) == Some(f[0].1));
    assert(lookup(f, "state"@) == Some(f[1].1));
    assert(lookup(f, "exp"@) == Some(f[2].1));
    assert(lookup(f, "code"@) is None);
    assert(lookup(g, "redirect_uri"@) == Some(Some(f[0].1)));
    assert(lookup(g, "state"@) == Some(Some(f[1].1)));
    assert(lookup(g, "exp"@) == Some(Some(f[2].1)));
    assert(lookup(g, "code"@) is None);
}

/// What was written as a code reads back as that code, and as no state.
pub proof fn code_reads_back(bytes: Seq<u8>, c: CodeView)
    requires
        spells(bytes, code_fields(c)),
    ensures
        read_code(bytes) == Some(c),
        read_state(bytes) is None,
{
    lemma_names();
    reveal_with_fuel(lookup, 3);
    let f = code_fields(c);
    let g = json_fields(bytes)->0;
    assert(lookup(f, "code"@) == Some(f[0].1));
    assert(lookup(f, "redirect_uri"@) == Some(f[1].1));
    assert(lookup(f, "exp"@) is None);
    assert(lookup(g, "code"@) == Some(Some(f[0].1)));
    assert(lookup(g, "redirect_uri"@) == Some(Some(f[1].1)));
    assert(lookup(g, "exp"@) is None);
}

fn take_text(field: Option<&Option<Field>>) -> (r: Option<String>)
    ensures
        r.deep_view() == text_field(field.deep_view()),
{
    match field {
        Some(Some(Field::Text(s))) => Some(s.clone()),
        _ => None,
    }
}

fn take_optional_text(field: Option<&Option<Field>>) -> (r: Option<Option<String>>)
    ensures
        r.deep_view() == optional_text_field(field.deep_view()),
{
    match field {
        None => Some(None),
        Some(Some(Field::Null)) => Some(None),
        Some(Some(Field::Text(s))) => Some(Some(s.clone())),
        _ => None,
    }
}

impl SealedState {
    /// Seals the state.
    pub fn seal(&self, key: &SealingKey, nonce: &[u8; 12]) -> (r: Option<String>)
        ensures
            r is Some <==> state_fits(self@),
            r matches Some(t) ==> {
                &&& t@ == sealed_state(key@, nonce@, self@)
                &&& opened_state(key@, t@) == Some(self@)
                &&& opened_code(key@, t@) is None
            },
    {
        let mut fields: Vec<(String, Field)> = Vec::new();
        fields.push(("redirect_uri".to_owned(), Field::Text(self.redirect_uri.clone())));
        fields.push(
            (
                "state".to_owned(),
                match &self.state {
                    Some(s) => Field::Text(s.clone()),
                    None => Field::Null,
                },
            ),
        );
        fields.push(("exp".to_owned(), Field::Unsigned(self.exp)));
        assert(fields.deep_view() =~= state_fields(self@));
        proof {
            lemma_names();
        }
        let text = write_object(&fields);
        proof {
            state_reads_back(encode_utf8(text@), self@);
        }
        key.seal_with(nonce, text.as_str())
    }

    /// Opens a token as a state. Of a field that stands twice in an object the last counts; nothing
    /// that is sealed here has one.
    pub fn open(key: &SealingKey, token: &str) -> (r: Option<Self>)
        ensures
            r.deep_view() == opened_state(key@, token@),
    {
        let plain = match key.open(token) {
            Some(p) => p,
            None => return None,
        };
        let fields = match parse_object(plain.as_slice()) {
            Some(f) => f,
            None => return match parse_triple(plain.as_slice()) {
                Some((redirect_uri, state, exp)) => Some(SealedState { redirect_uri, state, exp }),
                None => None,
            },
        };
        let redirect_uri = take_text(find(&fields, "redirect_uri"));
        let state = take_optional_text(find(&fields, "state"));
        let exp = match find(&fields, "exp") {
            Some(Some(Field::Unsigned(n))) => Some(*n),
            _ => None,
        };
        match (redirect_uri, state, exp) {
            (Some(redirect_uri), Some(state), Some(exp)) => Some(
                SealedState { redirect_uri, state, exp },
            ),
            _ => None,
        }
    }
}

impl SealedCode {
    /// Seals the code.
    pub fn seal(&self, key: &SealingKey, nonce: &[u8; 12]) -> (r: Option<String>)
        ensures
            r is Some <==> code_fits(self@),
            r matches Some(t) ==> {
                &&& t@ == sealed_code(key@, nonce@, self@)
                &&& opened_code(key@, t@) == Some(self@)
                &&& opened_state(key@, t@) is None
            },
    {
        let mut fields: Vec<(String, Field)> = Vec::new();
        fields.push(("code".to_owned(), Field::Text(self.code.clone())));
        fields.push(("redirect_uri".to_owned(), Field::Text(self.redirect_uri.clone())));
        assert(fields.deep_view() =~= code_fields(self@));
        proof {
            lemma_names();
        }
        let text = write_object(&fields);
        proof {
            code_reads_back(encode_utf8(text@), self@);
        }
        key.seal_with(nonce, text.as_str())
    }

    /// Opens a token as a code. Of a field that stands twice in an object the last counts; nothing
    /// that is sealed here has one.
    pub fn open(key: &SealingKey, token: &str) -> (r: Option<Self>)
        ensures
            r.deep_view() == opened_code(key@, token@),
    {
        let plain = match key.open(token) {
            Some(p) => p,
            None => return None,
        };
        let fields = match parse_object(plain.as_slice()) {
            Some(f) => f,
            None => return match parse_pair(plain.as_slice()) {
                Some((code, redirect_uri)) => Some(SealedCode { code, redirect_uri }),
                None => None,
            },
        };
        let code = take_text(find(&fields, "code"));
        let redirect_uri = take_text(find(&fields, "redirect_uri"));
        match (code, redirect_uri) {
            (Some(code), Some(redirect_uri)) => Some(SealedCode { code, redirect_uri }),
            _ => None,
        }
    }
}

} // verus!
