//! AES-256-CBC envelopes: a fresh 16-byte initialization vector followed by the
//! ciphertext. The cipher authenticates nothing: a wrong key or a damaged
//! envelope is noticed only where the padding of the last block fails.

use crate::entropy::{thread_fill, zeroed};
use crate::key_material::KEY_LEN;
use vstd::prelude::*;
use vstd::string::StringExecFns;

verus! {

/// The length of the initialization vector in bytes, and of a cipher block.
pub const IV_LEN: usize = 16;

/// The longest input the cipher takes in one call.
pub const MAX_CIPHER_INPUT: usize = 0x7fff_ffff;

/// The longest plaintext that can be sealed: one block is kept for padding.
pub const MAX_PLAINTEXT: usize = 0x7fff_ffef;

/// Why an envelope could not be made or opened.
#[derive(Debug, Clone, PartialEq, Eq)]
pub enum CryptoError {
    /// The key is not 32 bytes long.
    InvalidKeyLength,
    /// The envelope is shorter than an initialization vector.
    TruncatedEnvelope,
    /// The cipher failed while sealing; the detail says how.
    CipherFailure(String),
    /// The cipher refused the envelope: a wrong key, or a damaged or foreign
    /// envelope.
    DecryptionFailed,
}

/// The ciphertext that `openssl::symm::encrypt` gives under AES-256-CBC.
pub uninterp spec fn cbc_ciphertext(key: Seq<u8>, iv: Seq<u8>, plaintext: Seq<u8>) -> Seq<u8>;

/// The plaintext that `openssl::symm::decrypt` gives under AES-256-CBC, if it
/// accepts the ciphertext.
pub uninterp spec fn cbc_plaintext(key: Seq<u8>, iv: Seq<u8>, ciphertext: Seq<u8>) -> Option<
    Seq<u8>,
>;

/// `openssl::symm::encrypt` with `Cipher::aes_256_cbc()`: the padded CBC
/// ciphertext of `data`, which the contract names `cbc_ciphertext`. It claims
/// that the ciphertext is at most one block longer than `data` (the call
/// allocates that much and cuts it to what was written), and that the
/// ciphertext decrypts to `data` under the same key and vector. The call
/// panics on an input longer than a C `int` counts, which `requires` leaves out.
#[verifier::external_body]
fn aes256_cbc_encrypt(key: &[u8], iv: &[u8], data: &[u8]) -> (r: Result<
    Vec<u8>,
    openssl::error::ErrorStack,
>)
    requires
        key@.len() == KEY_LEN,
        iv@.len() == IV_LEN,
        data@.len() <= MAX_CIPHER_INPUT,
    ensures
        r matches Ok(c) ==> c@ == cbc_ciphertext(key@, iv@, data@),
        r matches Ok(c) ==> c@.len() <= data@.len() + IV_LEN,
        r matches Ok(c) ==> cbc_plaintext(key@, iv@, c@) == Some(data@),
{
    openssl::symm::encrypt(openssl::symm::Cipher::aes_256_cbc(), key, Some(iv), data)
}

/// `openssl::symm::decrypt` with `Cipher::aes_256_cbc()`: the plaintext of
/// `data`, or an error where the padding does not check. The contract names
/// the outcome `cbc_plaintext`. The call panics on an input longer than a C
/// `int` counts, which `requires` leaves out.
#[verifier::external_body]
fn aes256_cbc_decrypt(key: &[u8], iv: &[u8], data: &[u8]) -> (r: Result<
    Vec<u8>,
    openssl::error::ErrorStack,
>)
    requires
        key@.len() == KEY_LEN,
        iv@.len() == IV_LEN,
        data@.len() <= MAX_CIPHER_INPUT,
    ensures
        r matches Ok(p) ==> cbc_plaintext(key@, iv@, data@) == Some(p@),
        r is Err ==> cbc_plaintext(key@, iv@, data@) is None,
{
    openssl::symm::decrypt(openssl::symm::Cipher::aes_256_cbc(), key, Some(iv), data)
}

/// The `Display` text of an `openssl::error::ErrorStack`, of which nothing is
/// claimed.
#[verifier::external_body]
fn error_text(e: &openssl::error::ErrorStack) -> (text: String) {
    e.to_string()
}

/// Whether `envelope` seals `plaintext` under `key`: a vector, then the
/// ciphertext of `plaintext` under that vector, short enough to be opened,
/// and such that the cipher gives `plaintext` back for it.
pub open spec fn sealed(envelope: Seq<u8>, key: Seq<u8>, plaintext: Seq<u8>) -> bool {
    &&& IV_LEN <= envelope.len() <= IV_LEN + MAX_CIPHER_INPUT
    &&& envelope.skip(IV_LEN as int) == cbc_ciphertext(
        key,
        envelope.take(IV_LEN as int),
        plaintext,
    )
    &&& cbc_plaintext(key, envelope.take(IV_LEN as int), envelope.skip(IV_LEN as int)) == Some(
        plaintext,
    )
}

/// What opening `envelope` under `key` gives.
pub open spec fn opened(envelope: Seq<u8>, key: Seq<u8>) -> Result<Seq<u8>, CryptoError> {
    if key.len() != KEY_LEN {
        Err(CryptoError::InvalidKeyLength)
    } else if envelope.len() < IV_LEN {
        Err(CryptoError::TruncatedEnvelope)
    } else if envelope.len() - IV_LEN > MAX_CIPHER_INPUT {
        Err(CryptoError::DecryptionFailed)
    } else {
        match cbc_plaintext(key, envelope.take(IV_LEN as int), envelope.skip(IV_LEN as int)) {
            Some(plaintext) => Ok(plaintext),
            None => Err(CryptoError::DecryptionFailed),
        }
    }
}

/// The text that tells the operator of `e`.
pub open spec fn message_of(e: CryptoError) -> Seq<char> {
    match e {
        CryptoError::InvalidKeyLength => "Key must be 32 bytes."@,
        CryptoError::TruncatedEnvelope => "Ciphertext too short."@,
        CryptoError::CipherFailure(detail) => "Encryption failed: "@ + detail@,
        CryptoError::DecryptionFailed => "Decryption failed."@,
    }
}

impl CryptoError {
    /// The text that tells the operator of this error. It holds no key
    /// material.
    pub fn message(&self) -> (text: String)
        ensures
            text@ == message_of(*self),
    {
        match self {
            CryptoError::InvalidKeyLength => String::from_str("Key must be 32 bytes."),
            CryptoError::TruncatedEnvelope => String::from_str("Ciphertext too short."),
            CryptoError::CipherFailure(detail) => {
                let mut text = String::from_str("Encryption failed: ");
                text.append(detail.as_str());
                text
            },
            CryptoError::DecryptionFailed => String::from_str("Decryption failed."),
        }
    }
}

/// The envelope made of the vector `iv` and the ciphertext `ciphertext`.
pub fn join_envelope(iv: &[u8], ciphertext: &[u8]) -> (envelope: Vec<u8>)
    ensures
        envelope@ == iv@ + ciphertext@,
{
    let mut envelope: Vec<u8> = Vec::new();
    envelope.extend_from_slice(iv);
    envelope.extend_from_slice(ciphertext);
    envelope
}

/// The vector and the ciphertext of `envelope`; `None` where it is too short
/// to hold a vector.
pub fn split_envelope(envelope: &[u8]) -> (r: Option<(&[u8], &[u8])>)
    ensures
        match r {
            Some((iv, ciphertext)) => {
                &&& envelope@.len() >= IV_LEN
                &&& iv@ == envelope@.take(IV_LEN as int)
                &&& ciphertext@ == envelope@.skip(IV_LEN as int)
            },
            None => envelope@.len() < IV_LEN,
        },
{
    if envelope.len() < IV_LEN {
        None
    } else {
        let (iv, ciphertext) = envelope.split_at(IV_LEN);
        assert(iv@ == envelope@.take(IV_LEN as int));
        assert(ciphertext@ == envelope@.skip(IV_LEN as int));
        Some((iv, ciphertext))
    }
}

/// Seals `plaintext` under `key` with a fresh random vector.
///
/// A key of another length than 32 bytes is refused. Under a key of 32 bytes
/// the result is an envelope that seals `plaintext`, or `CipherFailure` where
/// the cipher failed or the plaintext is longer than `MAX_PLAINTEXT`.
pub fn encrypt_aes256_cbc(plaintext: &[u8], key: &[u8]) -> (r: Result<Vec<u8>, CryptoError>)
    ensures
        key@.len() != KEY_LEN ==> r == Err::<Vec<u8>, CryptoError>(CryptoError::InvalidKeyLength),
        key@.len() == KEY_LEN ==> match r {
            Ok(envelope) => sealed(envelope@, key@, plaintext@),
            Err(e) => e is CipherFailure,
        },
        plaintext@.len() > MAX_PLAINTEXT ==> r is Err,
{
    if key.len() != KEY_LEN {
        return Err(CryptoError::InvalidKeyLength);
    }
    if plaintext.len() > MAX_PLAINTEXT {
        return Err(CryptoError::CipherFailure(String::from_str("plaintext too long")));
    }
    let mut iv = zeroed(IV_LEN);
    thread_fill(&mut iv);
    match aes256_cbc_encrypt(key, iv.as_slice(), plaintext) {
        Ok(ciphertext) => {
            let envelope = join_envelope(iv.as_slice(), ciphertext.as_slice());
            assert(envelope@.take(IV_LEN as int) == iv@);
            assert(envelope@.skip(IV_LEN as int) == ciphertext@);
            Ok(envelope)
        },
        Err(e) => Err(CryptoError::CipherFailure(error_text(&e))),
    }
}

/// Opens `envelope` under `key`.
///
/// A key of another length than 32 bytes is refused first, then an envelope
/// too short to hold a vector. What the cipher does not accept, and a
/// ciphertext longer than `MAX_CIPHER_INPUT`, is `DecryptionFailed`. A
/// plaintext that comes back is no proof of the right key: the padding of a
/// damaged envelope may check by chance.
pub fn decrypt_aes256_cbc(envelope: &[u8], key: &[u8]) -> (r: Result<Vec<u8>, CryptoError>)
    ensures
        match r {
            Ok(plaintext) => opened(envelope@, key@) == Ok::<Seq<u8>, CryptoError>(plaintext@),
            Err(e) => opened(envelope@, key@) == Err::<Seq<u8>, CryptoError>(e),
        },
{
    if key.len() != KEY_LEN {
        return Err(CryptoError::InvalidKeyLength);
    }
    match split_envelope(envelope) {
        None => Err(CryptoError::TruncatedEnvelope),
        Some((iv, ciphertext)) => {
            if ciphertext.len() > MAX_CIPHER_INPUT {
                return Err(CryptoError::DecryptionFailed);
            }
            match aes256_cbc_decrypt(key, iv, ciphertext) {
                Ok(plaintext) => Ok(plaintext),
                Err(_) => Err(CryptoError::DecryptionFailed),
            }
        },
    }
}

/// An envelope that seals a plaintext under a key opens, under that key, to
/// that plaintext.
pub proof fn lemma_round_trip(plaintext: Seq<u8>, key: Seq<u8>, envelope: Seq<u8>)
    requires
        key.len() == KEY_LEN,
        sealed(envelope, key, plaintext),
    ensures
        opened(envelope, key) == Ok::<Seq<u8>, CryptoError>(plaintext),
{
}

/// A key of any other length than 32 bytes opens nothing.
pub proof fn lemma_key_length(envelope: Seq<u8>, key: Seq<u8>)
    requires
        key.len() != KEY_LEN,
    ensures
        opened(envelope, key) == Err::<Seq<u8>, CryptoError>(CryptoError::InvalidKeyLength),
{
}

} // verus!
