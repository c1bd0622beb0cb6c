//! Authenticated encryption of short strings, bound to the name of the field
//! that carries them.

use aes_gcm::aead::generic_array::GenericArray;
use aes_gcm::aead::{Aead, KeyInit, Payload};
use aes_gcm::Aes256Gcm;
use base64::Engine;
use rand::RngCore;
use vstd::prelude::*;
use vstd::slice::slice_subrange;
use vstd::string::*;
use vstd::utf8::*;

verus! {

/// Bytes of the nonce at the head of an envelope.
pub const NONCE_LEN: usize = 12;

/// Bytes of the authentication tag at the end of an envelope.
pub const TAG_LEN: usize = 16;

/// Bytes of key material that seals an envelope.
pub const KEY_LEN: usize = 32;

/// The most bytes of plaintext, and of associated data, that the cipher takes.
pub const SEAL_MAX: u64 = 0x10_0000_0000;

/// Why an inbound field was not accepted.
#[derive(Debug, Clone, Copy, PartialEq, Eq, Structural)]
pub enum SessionError {
    /// The text is no base64, is too short to hold a nonce, or does not hold
    /// a string.
    DecodeError,
    /// The seal did not verify: the value was altered, or sealed under another
    /// key or for another field.
    SealError,
}

/// Key material of one session, or of the whole service.
#[derive(Debug, Clone, Copy)]
pub struct SealKey {
    /// The half that signs.
    pub signing: [u8; 32],
    /// The half that encrypts.
    pub encryption: [u8; 32],
}

/// The standard base64 text of `data`.
pub uninterp spec fn base64_text(data: Seq<u8>) -> Seq<char>;

/// The bytes that standard base64 `text` stands for, if it is well formed.
pub uninterp spec fn base64_bytes(text: Seq<char>) -> Option<Seq<u8>>;

/// Ciphertext and tag of `msg` under AES-256-GCM.
pub uninterp spec fn sealed_bytes(key: Seq<u8>, nonce: Seq<u8>, aad: Seq<u8>, msg: Seq<u8>) -> Seq<u8>;

/// The plaintext of `sealed` under AES-256-GCM, if its tag verifies.
pub uninterp spec fn opened_bytes(key: Seq<u8>, nonce: Seq<u8>, aad: Seq<u8>, sealed: Seq<u8>) -> Option<Seq<u8>>;

/// Whether a value of `value_len` bytes can be sealed for a field whose name
/// has `name_len` bytes: both fit the cipher, and the envelope fits in memory.
pub open spec fn fits_seal(name_len: nat, value_len: nat) -> bool {
    &&& name_len <= SEAL_MAX
    &&& value_len <= SEAL_MAX
    &&& value_len <= usize::MAX / 4 - 28
}

/// The envelope of `value` for the field `name`, sealed with `nonce`.
pub open spec fn envelope(key: Seq<u8>, nonce: Seq<u8>, name: Seq<char>, value: Seq<char>) -> Seq<char> {
    base64_text(nonce + sealed_bytes(key, nonce, encode_utf8(name), encode_utf8(value)))
}

/// What the decoded bytes of an envelope give for the field `name`.
pub open spec fn opened_data(name: Seq<char>, data: Seq<u8>, key: Seq<u8>) -> Result<Seq<char>, SessionError> {
    if data.len() <= NONCE_LEN {
        Err(SessionError::DecodeError)
    } else {
        match opened_bytes(
            key,
            data.subrange(0, NONCE_LEN as int),
            encode_utf8(name),
            data.subrange(NONCE_LEN as int, data.len() as int),
        ) {
            None => Err(SessionError::SealError),
            Some(plain) => if valid_utf8(plain) {
                Ok(decode_utf8(plain))
            } else {
                Err(SessionError::DecodeError)
            },
        }
    }
}

/// What an envelope gives for the field `name`.
pub open spec fn opened(name: Seq<char>, text: Seq<char>, key: Seq<u8>) -> Result<Seq<char>, SessionError> {
    match base64_bytes(text) {
        None => Err(SessionError::DecodeError),
        Some(data) => opened_data(name, data, key),
    }
}

/// Whether a character belongs to padded standard base64: a letter, a digit,
/// `+`, `/` or `=`.
pub open spec fn is_base64_char(c: char) -> bool {
    let n = c as u32;
    (0x41 <= n <= 0x5a) || (0x61 <= n <= 0x7a) || (0x30 <= n <= 0x39) || c == '+' || c == '/' || c == '='
}

/// Whether `text` is the envelope of `value` for the field `name` under
/// `nonce`: padded standard base64, four characters for every three bytes,
/// of the nonce, then the ciphertext, as long as the value, and the tag; and
/// it opens again to `value`.
pub open spec fn is_envelope(text: Seq<char>, key: Seq<u8>, nonce: Seq<u8>, name: Seq<char>, value: Seq<char>) -> bool {
    let sealed = sealed_bytes(key, nonce, encode_utf8(name), encode_utf8(value));
    &&& text == envelope(key, nonce, name, value)
    &&& base64_bytes(text) == Some(nonce + sealed)
    &&& sealed.len() == encode_utf8(value).len() + TAG_LEN
    &&& text.len() == 4 * ((nonce.len() + sealed.len() + 2) / 3)
    &&& forall|i: int| 0 <= i < text.len() ==> is_base64_char(#[trigger] text[i])
    &&& opened(name, text, key) == Ok::<Seq<char>, SessionError>(value)
}

/// Envelopes of one value under different nonces differ: the nonce can be
/// read off the envelope.
pub proof fn law_nonce_shows(
    key: Seq<u8>,
    name: Seq<char>,
    value: Seq<char>,
    nonce_a: Seq<u8>,
    nonce_b: Seq<u8>,
    text_a: Seq<char>,
    text_b: Seq<char>,
)
    requires
        nonce_a.len() == NONCE_LEN,
        nonce_b.len() == NONCE_LEN,
        is_envelope(text_a, key, nonce_a, name, value),
        is_envelope(text_b, key, nonce_b, name, value),
        nonce_a != nonce_b,
    ensures
        text_a != text_b,
{
    if text_a == text_b {
        let data_a = nonce_a + sealed_bytes(key, nonce_a, encode_utf8(name), encode_utf8(value));
        let data_b = nonce_b + sealed_bytes(key, nonce_b, encode_utf8(name), encode_utf8(value));
        assert(data_a == data_b);
        assert(data_a.subrange(0, NONCE_LEN as int) =~= nonce_a);
        assert(data_b.subrange(0, NONCE_LEN as int) =~= nonce_b);
        assert(nonce_a =~= nonce_b);
    }
}

/// Whether `r` is the exec form of `model`.
pub open spec fn gives(r: Result<String, SessionError>, model: Result<Seq<char>, SessionError>) -> bool {
    match r {
        Ok(s) => model == Ok::<Seq<char>, SessionError>(s@),
        Err(e) => model == Err::<Seq<char>, SessionError>(e),
    }
}

/// Calls `Engine::encode` of base64's `STANDARD` engine. The result is named
/// `base64_text`; decoding that text gives `data` back, as the engine's
/// documentation says of its own output. The engine pads: it writes four
/// characters of the standard alphabet, or `=`, for every three bytes begun.
#[verifier::external_body]
fn base64_encode(data: &[u8]) -> (r: String)
    requires
        data@.len() <= usize::MAX / 4,
    ensures
        r@ == base64_text(data@),
        base64_bytes(r@) == Some(data@),
        r@.len() == 4 * ((data@.len() + 2) / 3),
        forall|i: int| 0 <= i < r@.len() ==> is_base64_char(#[trigger] r@[i]),
{
    base64::engine::general_purpose::STANDARD.encode(data)
}

/// Calls `Engine::decode` of base64's `STANDARD` engine. The result is named
/// `base64_bytes`; an error of the engine is `None`.
#[verifier::external_body]
fn base64_decode(text: &str) -> (r: Option<Vec<u8>>)
    ensures
        match r {
            Some(v) => base64_bytes(text@) == Some(v@),
            None => base64_bytes(text@) is None,
        },
{
    match base64::engine::general_purpose::STANDARD.decode(text) {
        Ok(v) => Some(v),
        Err(_) => None,
    }
}

/// Calls `RngCore::try_fill_bytes` of rand's thread-local generator on
/// `NONCE_LEN` bytes: that generator fills them and reports no error.
#[verifier::external_body]
fn fresh_nonce() -> (r: Option<Vec<u8>>)
    ensures
        r is Some && r.unwrap()@.len() == NONCE_LEN,
{
    let mut buf = vec![0u8; NONCE_LEN];
    match rand::thread_rng().try_fill_bytes(&mut buf) {
        Ok(()) => Some(buf),
        Err(_) => None,
    }
}

/// Calls `Aead::encrypt` of `Aes256Gcm`. The cipher refuses a message or
/// associated data of more than `SEAL_MAX` bytes and nothing else; its result,
/// named `sealed_bytes`, is the message's length and a tag long, and opens
/// again to the message under the same key, nonce and associated data.
#[verifier::external_body]
fn aes_seal(key: &[u8; 32], nonce: &[u8], aad: &[u8], msg: &[u8]) -> (r: Option<Vec<u8>>)
    requires
        nonce@.len() == NONCE_LEN,
    ensures
        r.is_some() == (msg@.len() <= SEAL_MAX && aad@.len() <= SEAL_MAX),
        r matches Some(v) ==> {
            &&& v@ == sealed_bytes(key@, nonce@, aad@, msg@)
            &&& v@.len() == msg@.len() + TAG_LEN
            &&& opened_bytes(key@, nonce@, aad@, v@) == Some(msg@)
        },
{
    let cipher = Aes256Gcm::new(GenericArray::from_slice(key));
    match cipher.encrypt(GenericArray::from_slice(nonce), Payload { msg, aad }) {
        Ok(v) => Some(v),
        Err(_) => None,
    }
}

/// Calls `Aead::decrypt` of `Aes256Gcm`. The result is named `opened_bytes`;
/// the cipher's one error is `None`. The plaintext is what was sealed less
/// the tag at its end.
#[verifier::external_body]
fn aes_open(key: &[u8; 32], nonce: &[u8], aad: &[u8], sealed: &[u8]) -> (r: Option<Vec<u8>>)
    requires
        nonce@.len() == NONCE_LEN,
    ensures
        match r {
            Some(v) => opened_bytes(key@, nonce@, aad@, sealed@) == Some(v@),
            None => opened_bytes(key@, nonce@, aad@, sealed@) is None,
        },
        r matches Some(v) ==> v@.len() + TAG_LEN == sealed@.len(),
{
    let cipher = Aes256Gcm::new(GenericArray::from_slice(key));
    match cipher.decrypt(GenericArray::from_slice(nonce), Payload { msg: sealed, aad }) {
        Ok(v) => Some(v),
        Err(_) => None,
    }
}

/// Calls `String::from_utf8`: the string that well-formed UTF-8 holds.
#[verifier::external_body]
fn utf8_string(bytes: Vec<u8>) -> (r: Option<String>)
    ensures
        match r {
            Some(s) => valid_utf8(bytes@) && s@ == decode_utf8(bytes@),
            None => !valid_utf8(bytes@),
        },
{
    match String::from_utf8(bytes) {
        Ok(s) => Some(s),
        Err(_) => None,
    }
}

/// Seals `value` for the field `name` with a nonce that the caller drew.
/// The nonce must never be used twice under one key.
pub fn seal_with_nonce(name: &str, value: &str, key: &SealKey, nonce: &[u8]) -> (r: Option<String>)
    requires
        nonce@.len() == NONCE_LEN,
    ensures
        r is Some <==> fits_seal(encode_utf8(name@).len(), encode_utf8(value@).len()),
        r matches Some(text) ==> is_envelope(text@, key.encryption@, nonce@, name@, value@),
{
    let msg = value.as_bytes();
    let aad = name.as_bytes();
    if msg.len() > usize::MAX / 4 - 28 {
        return None;
    }
    match aes_seal(&key.encryption, nonce, aad, msg) {
        None => None,
        Some(sealed) => {
            let mut data: Vec<u8> = Vec::new();
            data.extend_from_slice(nonce);
            data.extend_from_slice(sealed.as_slice());
            let text = base64_encode(data.as_slice());
            proof {
                broadcast use group_utf8_lib;
                let n: int = NONCE_LEN as int;
                assert(data@ =~= nonce@ + sealed@);
                assert(data@.subrange(0, n) =~= nonce@);
                assert(data@.subrange(n, data@.len() as int) =~= sealed@);
                assert(valid_utf8(encode_utf8(value@)));
                assert(decode_utf8(encode_utf8(value@)) == value@);
            }
            Some(text)
        },
    }
}

/// Seals `value` for the field `name` under a fresh random nonce. An envelope
/// comes back exactly for a value that fits the cipher, and it opens again,
/// for the same field and key, to `value`.
pub fn encrypt(name: &str, value: &str, key: &SealKey) -> (r: Option<String>)
    ensures
        r is Some <==> fits_seal(encode_utf8(name@).len(), encode_utf8(value@).len()),
        r matches Some(text) ==> exists|nonce: Seq<u8>|
            nonce.len() == NONCE_LEN && #[trigger] is_envelope(text@, key.encryption@, nonce, name@, value@),
{
    match fresh_nonce() {
        None => None,
        Some(nonce) => seal_with_nonce(name, value, key, nonce.as_slice()),
    }
}

/// Opens the decoded bytes of an envelope: nonce, then ciphertext and tag.
/// What opens is as long as the bytes less nonce and tag.
pub fn open_data(name: &str, data: &[u8], key: &SealKey) -> (r: Result<String, SessionError>)
    ensures
        gives(r, opened_data(name@, data@, key.encryption@)),
        r matches Ok(s) ==> data@.len() == NONCE_LEN + encode_utf8(s@).len() + TAG_LEN,
{
    broadcast use group_utf8_lib;

    if data.len() <= NONCE_LEN {
        return Err(SessionError::DecodeError);
    }
    let nonce = slice_subrange(data, 0, NONCE_LEN);
    let sealed = slice_subrange(data, NONCE_LEN, data.len());
    match aes_open(&key.encryption, nonce, name.as_bytes(), sealed) {
        None => Err(SessionError::SealError),
        Some(plain) => match utf8_string(plain) {
            Some(s) => Ok(s),
            None => Err(SessionError::DecodeError),
        },
    }
}

/// Opens an envelope for the field `name`. Text that is no base64, or too
/// short, gives `DecodeError`; a seal that does not verify gives `SealError`.
pub fn decrypt(name: &str, value: &str, key: &SealKey) -> (r: Result<String, SessionError>)
    ensures
        gives(r, opened(name@, value@, key.encryption@)),
        r matches Ok(s) ==> base64_bytes(value@) matches Some(d) && d.len() == NONCE_LEN + encode_utf8(
            s@,
        ).len() + TAG_LEN,
{
    match base64_decode(value) {
        None => Err(SessionError::DecodeError),
        Some(data) => open_data(name, data.as_slice(), key),
    }
}

} // verus!
