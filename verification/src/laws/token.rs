//! Laws of sealed tokens.
use crate::form::lookup;
use crate::json::json_fields;
use crate::json::json_pair;
use crate::json::json_triple;
use crate::json::members_text;
use crate::json::FieldView;
use crate::seal::b64_decode;
use crate::seal::b64_encode;
use crate::seal::gcm_decrypt;
use crate::seal::gcm_encrypt;
use crate::seal::SealingKey;
use crate::token::SealedCode;
use crate::token::SealedState;
use vstd::prelude::*;
use vstd::utf8::encode_utf8;

verus! {

/// A token is the base64 of its nonce and of the ciphertext, and opens to what was sealed; only a
/// text that is too long is not sealed.
pub proof fn tokens_are_nonce_and_ciphertext(
    key: &SealingKey,
    nonce: &[u8; 12],
    plain: &str,
    r: Option<String>,
)
    requires
        call_ensures(SealingKey::seal_with, (key, nonce, plain), r),
    ensures
        r is Some <==> encode_utf8(plain@).len() <= 0x10_0000_0000 && encode_utf8(plain@).len() + 28
            <= usize::MAX / 4,
        r matches Some(token) ==> token@ == b64_encode(
            nonce@ + gcm_encrypt(key@, nonce@, encode_utf8(plain@))->0,
        ),
{
}

/// What a token opens to is what its ciphertext decrypts to under its nonce, the first twelve bytes;
/// a text that is not base64, or holds less than a nonce, opens to nothing.
pub proof fn tokens_open_by_their_nonce(
    key: &SealingKey,
    token: &str,
    nonce: Seq<u8>,
    cipher: Seq<u8>,
    r: Option<Vec<u8>>,
)
    requires
        call_ensures(SealingKey::open, (key, token), r),
    ensures
        b64_decode(token@) is None ==> r is None,
        b64_decode(token@) matches Some(data) ==> data.len() < 12 ==> r is None,
        nonce.len() == 12 && b64_decode(token@) == Some(nonce + cipher) ==> r.deep_view()
            == gcm_decrypt(key@, nonce, cipher),
{
    if nonce.len() == 12 && b64_decode(token@) == Some(nonce + cipher) {
        let data = nonce + cipher;
        assert(data.subrange(0, 12) =~= nonce);
        assert(data.subrange(12, data.len() as int) =~= cipher);
        if let Some(p) = r {
            assert(p.deep_view() =~= p@);
        }
    }
}

/// A key of the caller's choice has the caller's bytes.
pub proof fn keys_are_their_bytes(bytes: [u8; 32], r: SealingKey)
    requires
        call_ensures(SealingKey::new, (bytes,), r),
    ensures
        r@ == bytes@,
{
}

/// A state is sealed as a JSON object of redirect URI, state, null where there is none, and expiry,
/// and opens to the same three, and to no code.
pub proof fn states_are_sealed_whole(
    st: &SealedState,
    key: &SealingKey,
    nonce: &[u8; 12],
    r: Option<String>,
    opener: &str,
    opened: Option<SealedState>,
    as_code: Option<SealedCode>,
)
    requires
        call_ensures(SealedState::seal, (st, key, nonce), r),
        r matches Some(token) && opener@ == token@,
        call_ensures(SealedState::open, (key, opener), opened),
        call_ensures(SealedCode::open, (key, opener), as_code),
    ensures
        opened matches Some(back) && {
            &&& back.redirect_uri@ == st.redirect_uri@
            &&& back.state.deep_view() == st.state.deep_view()
            &&& back.exp == st.exp
        },
        as_code is None,
        opener@ == b64_encode(
            nonce@ + gcm_encrypt(
                key@,
                nonce@,
                encode_utf8(
                    members_text(
                        seq![
                            ("redirect_uri"@, FieldView::Text(st.redirect_uri@)),
                            (
                                "state"@,
                                if st.state is Some {
                                    FieldView::Text(st.state->0@)
                                } else {
                                    FieldView::Null
                                },
                            ),
                            ("exp"@, FieldView::Unsigned(st.exp)),
                        ],
                    ),
                ),
            )->0,
        ),
{
    let fields = seq![
        ("redirect_uri"@, FieldView::Text(st.redirect_uri@)),
        (
            "state"@,
            if st.state is Some {
                FieldView::Text(st.state->0@)
            } else {
                FieldView::Null
            },
        ),
        ("exp"@, FieldView::Unsigned(st.exp)),
    ];
    assert(crate::token::state_fields(st@) =~= fields);
}

/// A code is sealed as a JSON object of code and redirect URI, and opens to the same two, and to no
/// state.
pub proof fn codes_are_sealed_whole(
    c: &SealedCode,
    key: &SealingKey,
    nonce: &[u8; 12],
    r: Option<String>,
    opener: &str,
    opened: Option<SealedCode>,
    as_state: Option<SealedState>,
)
    requires
        call_ensures(SealedCode::seal, (c, key, nonce), r),
        r matches Some(token) && opener@ == token@,
        call_ensures(SealedCode::open, (key, opener), opened),
        call_ensures(SealedState::open, (key, opener), as_state),
    ensures
        opened matches Some(back) && {
            &&& back.code@ == c.code@
            &&& back.redirect_uri@ == c.redirect_uri@
        },
        as_state is None,
        opener@ == b64_encode(
            nonce@ + gcm_encrypt(
                key@,
                nonce@,
                encode_utf8(
                    members_text(
                        seq![
                            ("code"@, FieldView::Text(c.code@)),
                            ("redirect_uri"@, FieldView::Text(c.redirect_uri@)),
                        ],
                    ),
                ),
            )->0,
        ),
{
    let fields = seq![
        ("code"@, FieldView::Text(c.code@)),
        ("redirect_uri"@, FieldView::Text(c.redirect_uri@)),
    ];
    assert(crate::token::code_fields(c@) =~= fields);
}

/// Every state and every code is sealed, unless its object is too long.
pub proof fn only_length_hinders_sealing(
    st: &SealedState,
    c: &SealedCode,
    key: &SealingKey,
    nonce: &[u8; 12],
    of_state: Option<String>,
    of_code: Option<String>,
)
    requires
        call_ensures(SealedState::seal, (st, key, nonce), of_state),
        call_ensures(SealedCode::seal, (c, key, nonce), of_code),
    ensures
        ({
            let n = encode_utf8(members_text(crate::token::state_fields(st@))).len();
            of_state is Some <==> n <= 0x10_0000_0000 && n + 28 <= usize::MAX / 4
        }),
        ({
            let n = encode_utf8(members_text(crate::token::code_fields(c@))).len();
            of_code is Some <==> n <= 0x10_0000_0000 && n + 28 <= usize::MAX / 4
        }),
{
}

/// A token opens as a state exactly where its plaintext is an object with a redirect URI that is a
/// text, an expiry that is an unsigned number, and a state that is a text, null or missing; or an
/// array of the three.
pub proof fn states_open_by_their_fields(
    key: &SealingKey,
    token: &str,
    plain: Option<Vec<u8>>,
    r: Option<SealedState>,
)
    requires
        call_ensures(SealingKey::open, (key, token), plain),
        call_ensures(SealedState::open, (key, token), r),
    ensures
        plain is None ==> r is None,
        plain matches Some(bytes) ==> match json_fields(bytes@) {
            Some(fields) => {
                let uri = lookup(fields, "redirect_uri"@);
                let state = lookup(fields, "state"@);
                let exp = lookup(fields, "exp"@);
                let good_state = state is None || state == Some(Some(FieldView::Null)) || (
                state matches Some(Some(FieldView::Text(_))));
                &&& r is Some <==> {
                    &&& uri matches Some(Some(FieldView::Text(_)))
                    &&& good_state
                    &&& exp matches Some(Some(FieldView::Unsigned(_)))
                }
                &&& r matches Some(st) ==> {
                    &&& uri == Some(Some(FieldView::Text(st.redirect_uri@)))
                    &&& exp == Some(Some(FieldView::Unsigned(st.exp)))
                    &&& st.state matches Some(s) ==> state == Some(Some(FieldView::Text(s@)))
                    &&& st.state is None ==> state is None || state == Some(Some(FieldView::Null))
                }
            },
            None => {
                &&& r is Some <==> json_triple(bytes@) is Some
                &&& r matches Some(st) ==> json_triple(bytes@) == Some(
                    (st.redirect_uri@, st.state.deep_view(), st.exp),
                )
            },
        },
{
}

/// A token opens as a code exactly where its plaintext is an object with a code and a redirect URI
/// that are texts, or an array of the two.
pub proof fn codes_open_by_their_fields(
    key: &SealingKey,
    token: &str,
    plain: Option<Vec<u8>>,
    r: Option<SealedCode>,
)
    requires
        call_ensures(SealingKey::open, (key, token), plain),
        call_ensures(SealedCode::open, (key, token), r),
    ensures
        plain is None ==> r is None,
        plain matches Some(bytes) ==> match json_fields(bytes@) {
            Some(fields) => {
                let code = lookup(fields, "code"@);
                let uri = lookup(fields, "redirect_uri"@);
                &&& r is Some <==> {
                    &&& code matches Some(Some(FieldView::Text(_)))
                    &&& uri matches Some(Some(FieldView::Text(_)))
                }
                &&& r matches Some(c) ==> {
                    &&& code == Some(Some(FieldView::Text(c.code@)))
                    &&& uri == Some(Some(FieldView::Text(c.redirect_uri@)))
                }
            },
            None => {
                &&& r is Some <==> json_pair(bytes@) is Some
                &&& r matches Some(c) ==> json_pair(bytes@) == Some((c.code@, c.redirect_uri@))
            },
        },
{
}

} // verus!
