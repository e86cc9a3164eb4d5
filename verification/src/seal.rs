//! Sealed tokens: what the gateway hands out and must recognise when it comes back.
//!
//! Nothing is stored. A token is the base64 of a nonce followed by an AES-256-GCM ciphertext.
use aes_gcm::aead::Aead;
use aes_gcm::KeyInit;
use base64::Engine;
use vstd::prelude::*;
use vstd::slice::slice_subrange;
use vstd::utf8::encode_utf8;

verus! {

/// The AES-256-GCM encryption of `plain`, tag at the end, without associated data.
pub uninterp spec fn gcm_encrypt(key: Seq<u8>, nonce: Seq<u8>, plain: Seq<u8>) -> Option<Seq<u8>>;

/// The plaintext of an AES-256-GCM ciphertext that ends with its tag; nothing where the tag is
/// not the right one.
pub uninterp spec fn gcm_decrypt(key: Seq<u8>, nonce: Seq<u8>, cipher: Seq<u8>) -> Option<Seq<u8>>;

/// Base64 in the URL-safe alphabet, without padding.
pub uninterp spec fn b64_encode(data: Seq<u8>) -> Seq<char>;

/// The bytes that a base64 text in the URL-safe alphabet, without padding, stands for.
pub uninterp spec fn b64_decode(s: Seq<char>) -> Option<Seq<u8>>;

/// The longest plaintext that AES-GCM takes.
pub const GCM_MAX: u64 = 0x10_0000_0000;

/// Calls `rand::random` for an array of bytes. Nothing is claimed of them.
#[verifier::external_body]
fn random_bytes<const N: usize>() -> (r: [u8; N]) {
    rand::random::<[u8; N]>()
}

/// Calls `encrypt` of `aes_gcm::Aes256Gcm`. Claimed: the ciphertext is a function of key, nonce
/// and plaintext; there is one unless the plaintext is too long for the cipher; it is as long as
/// the plaintext and a tag of sixteen bytes; and decrypting it gives the plaintext back.
#[verifier::external_body]
fn encrypt(key: &[u8], nonce: &[u8], plain: &[u8]) -> (r: Option<Vec<u8>>)
    requires
        key@.len() == 32,
        nonce@.len() == 12,
    ensures
        r is Some <==> plain@.len() <= GCM_MAX,
        r is None ==> gcm_encrypt(key@, nonce@, plain@) is None,
        r matches Some(c) ==> {
            &&& gcm_encrypt(key@, nonce@, plain@) == Some(c@)
            &&& gcm_decrypt(key@, nonce@, c@) == Some(plain@)
            &&& c@.len() == plain@.len() + 16
        },
{
    let cipher = aes_gcm::Aes256Gcm::new(aes_gcm::Key::<aes_gcm::Aes256Gcm>::from_slice(key));
    cipher.encrypt(aes_gcm::Nonce::from_slice(nonce), plain).ok()
}

/// Calls `decrypt` of `aes_gcm::Aes256Gcm`. Claimed: the outcome is a function of key, nonce and
/// ciphertext.
#[verifier::external_body]
fn decrypt(key: &[u8], nonce: &[u8], cipher: &[u8]) -> (r: Option<Vec<u8>>)
    requires
        key@.len() == 32,
        nonce@.len() == 12,
    ensures
        r is None ==> gcm_decrypt(key@, nonce@, cipher@) is None,
        r matches Some(p) ==> gcm_decrypt(key@, nonce@, cipher@) == Some(p@),
{
    let gcm = aes_gcm::Aes256Gcm::new(aes_gcm::Key::<aes_gcm::Aes256Gcm>::from_slice(key));
    gcm.decrypt(aes_gcm::Nonce::from_slice(nonce), cipher).ok()
}

/// Calls `encode` of base64's `URL_SAFE_NO_PAD`. Claimed: the text is a function of the bytes,
/// and decoding it gives the bytes back.
#[verifier::external_body]
fn encode_base64(data: &[u8]) -> (r: String)
    requires
        data@.len() <= usize::MAX / 4,
    ensures
        r@ == b64_encode(data@),
        b64_decode(r@) == Some(data@),
{
    base64::engine::general_purpose::URL_SAFE_NO_PAD.encode(data)
}

/// Calls `decode` of base64's `URL_SAFE_NO_PAD`. Claimed: the outcome is a function of the text.
#[verifier::external_body]
fn decode_base64(s: &str) -> (r: Option<Vec<u8>>)
    ensures
        r is None ==> b64_decode(s@) is None,
        r matches Some(d) ==> b64_decode(s@) == Some(d@),
{
    base64::engine::general_purpose::URL_SAFE_NO_PAD.decode(s).ok()
}

/// The key that tokens are sealed with.
pub struct SealingKey {
    key: [u8; 32],
}

impl View for SealingKey {
    type V = Seq<u8>;

    closed spec fn view(&self) -> Seq<u8> {
        self.key@
    }
}

/// A plaintext of `len` bytes can be sealed.
pub open spec fn seal_fits(len: nat) -> bool {
    len <= GCM_MAX && len + 28 <= usize::MAX / 4
}

/// The token that seals `plain`.
pub open spec fn sealed(key: Seq<u8>, nonce: Seq<u8>, plain: Seq<u8>) -> Seq<char> {
    b64_encode(nonce + gcm_encrypt(key, nonce, plain)->0)
}

/// What a token holds under this key; nothing where it was not sealed with it.
pub open spec fn opened(key: Seq<u8>, token: Seq<char>) -> Option<Seq<u8>> {
    match b64_decode(token) {
        Some(data) => if data.len() >= 12 {
            gcm_decrypt(key, data.subrange(0, 12), data.subrange(12, data.len() as int))
        } else {
            None
        },
        None => None,
    }
}

impl SealingKey {
    /// A key of the caller's choice.
    pub fn new(key: [u8; 32]) -> (r: Self)
        ensures
            r@ == key@,
    {
        SealingKey { key }
    }

    /// A key that nobody knows: what was sealed before a restart is lost with it.
    pub fn random() -> (r: Self)
        ensures
            r@.len() == 32,
    {
        let r = SealingKey { key: random_bytes::<32>() };
        assert(r.key@.len() == 32);
        r
    }

    /// Seals a text with a nonce of the caller's choice, which must not have been used with this
    /// key before.
    pub fn seal_with(&self, nonce: &[u8; 12], plain: &str) -> (r: Option<String>)
        ensures
            r is Some <==> seal_fits(encode_utf8(plain@).len()),
            r matches Some(t) ==> {
                &&& t@ == sealed(self@, nonce@, encode_utf8(plain@))
                &&& opened(self@, t@) == Some(encode_utf8(plain@))
            },
    {
        let ghost p = encode_utf8(plain@);
        match encrypt(self.key.as_slice(), nonce.as_slice(), plain.as_bytes()) {
            None => None,
            Some(cipher) => {
                if cipher.len() > usize::MAX / 4 - 12 {
                    return None;
                }
                let mut data: Vec<u8> = Vec::new();
                data.extend_from_slice(nonce.as_slice());
                data.extend_from_slice(cipher.as_slice());
                assert(data@ =~= nonce@ + cipher@);
                assert(data@.subrange(0, 12) =~= nonce@);
                assert(data@.subrange(12, data@.len() as int) =~= cipher@);
                Some(encode_base64(data.as_slice()))
            },
        }
    }

    /// Opens a token.
    pub fn open(&self, token: &str) -> (r: Option<Vec<u8>>)
        ensures
            r is None ==> opened(self@, token@) is None,
            r matches Some(p) ==> opened(self@, token@) == Some(p@),
    {
        match decode_base64(token) {
            None => None,
            Some(data) => {
                let n = data.len();
                if n < 12 {
                    return None;
                }
                let nonce = slice_subrange(data.as_slice(), 0, 12);
                let cipher = slice_subrange(data.as_slice(), 12, n);
                decrypt(self.key.as_slice(), nonce, cipher)
            },
        }
    }
}

/// A fresh nonce.
pub(crate) fn random_nonce() -> (r: [u8; 12]) {
    random_bytes::<12>()
}

} // verus!
