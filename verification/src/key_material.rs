//! Symmetric keys and their text tokens: a key is 32 bytes, and its token is
//! the base64 text of those bytes.

use crate::entropy::{thread_fill, zeroed};
use vstd::prelude::*;

verus! {

/// The length of a symmetric key in bytes.
pub const KEY_LEN: usize = 32;

/// Why a text is not the token of a key.
#[derive(Debug, Clone, Copy, PartialEq, Eq, Structural)]
pub enum KeyError {
    /// The text is not the base64 encoding of any bytes.
    MalformedToken,
    /// The text decodes, but not to exactly 32 bytes.
    WrongLength,
}

/// `base64::DecodeError`: why a text did not decode, carried through unread.
#[verifier::external_type_specification]
#[verifier::external_body]
pub struct ExDecodeError(base64::DecodeError);

/// The text that `base64::encode` gives for `bytes`: standard alphabet, padded.
pub uninterp spec fn base64_text(bytes: Seq<u8>) -> Seq<char>;

/// Every run of bytes that `text` encodes is `bytes`.
pub open spec fn decodes_to(text: Seq<char>, bytes: Seq<u8>) -> bool {
    forall|other: Seq<u8>| #[trigger] base64_text(other) == text ==> other == bytes
}

/// No run of bytes has `text` as its encoding.
pub open spec fn decodes_to_nothing(text: Seq<char>) -> bool {
    forall|other: Seq<u8>| #[trigger] base64_text(other) != text
}

/// `base64::encode`: the standard padded base64 text of `bytes`, which the
/// contract names `base64_text`.
#[verifier::external_body]
#[allow(deprecated)]
fn base64_encode(bytes: &[u8]) -> (text: String)
    ensures
        text@ == base64_text(bytes@),
{
    base64::encode(bytes)
}

/// `base64::decode`: the bytes that `text` encodes. The contract claims that
/// only a text that `base64::encode` gives for some bytes is accepted (the
/// standard engine wants canonical padding and no trailing bits), and that
/// such a text decodes to the bytes that were encoded.
#[verifier::external_body]
#[allow(deprecated)]
fn base64_decode(text: &str) -> (r: Result<Vec<u8>, base64::DecodeError>)
    ensures
        r matches Ok(bytes) ==> base64_text(bytes@) == text@,
        r matches Ok(bytes) ==> decodes_to(text@, bytes@),
        r is Err ==> decodes_to_nothing(text@),
{
    base64::decode(text)
}

/// Whether `text` is the token of the key `key`.
pub open spec fn is_token_of(text: Seq<char>, key: Seq<u8>) -> bool {
    key.len() == KEY_LEN && base64_text(key) == text
}

/// Whether `text` is the token of some key.
pub open spec fn is_key_token(text: Seq<char>) -> bool {
    exists|key: Seq<u8>| is_token_of(text, key)
}

/// What a text decodes to: the key it is the token of; `WrongLength` where it
/// encodes bytes that are no key; `MalformedToken` where it encodes nothing.
pub open spec fn token_key(text: Seq<char>) -> Result<Seq<u8>, KeyError> {
    if exists|bytes: Seq<u8>| base64_text(bytes) == text {
        let bytes = choose|bytes: Seq<u8>| base64_text(bytes) == text;
        if bytes.len() == KEY_LEN {
            Ok(bytes)
        } else {
            Err(KeyError::WrongLength)
        }
    } else {
        Err(KeyError::MalformedToken)
    }
}

/// The token of `key`.
pub fn encode_key(key: &[u8]) -> (token: String)
    requires
        key@.len() == KEY_LEN,
    ensures
        is_token_of(token@, key@),
        token@ == base64_text(key@),
{
    base64_encode(key)
}

/// The key that `token` stands for. Nothing is padded or cut: bytes of
/// another length than 32 are refused.
pub fn decode_key(token: &str) -> (r: Result<Vec<u8>, KeyError>)
    ensures
        match r {
            Ok(key) => token_key(token@) == Ok::<Seq<u8>, KeyError>(key@) && is_token_of(
                token@,
                key@,
            ),
            Err(e) => token_key(token@) == Err::<Seq<u8>, KeyError>(e),
        },
        forall|key: Seq<u8>| #[trigger]
            is_token_of(token@, key) ==> (r matches Ok(v) && v@ == key),
{
    match base64_decode(token) {
        Ok(bytes) => {
            if bytes.len() == KEY_LEN {
                Ok(bytes)
            } else {
                Err(KeyError::WrongLength)
            }
        },
        Err(_) => Err(KeyError::MalformedToken),
    }
}

/// A fresh key from the thread-local generator, as its token.
pub fn generate_key() -> (token: String)
    ensures
        is_key_token(token@),
{
    let mut key = zeroed(KEY_LEN);
    thread_fill(&mut key);
    let token = encode_key(key.as_slice());
    assert(is_token_of(token@, key@));
    token
}

} // verus!
