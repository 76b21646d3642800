//! The integrity checksum that is reported after every transform: the SHA-256
//! digest of a buffer, written in lower-case hexadecimal.

use sha2::Digest;
use vstd::prelude::*;

verus! {

/// The length of a SHA-256 digest in bytes.
pub const DIGEST_LEN: usize = 32;

/// The SHA-256 digest of `data`, as `sha2` computes it.
pub uninterp spec fn sha256(data: Seq<u8>) -> Seq<u8>;

/// The lower-case hexadecimal digit of a number below 16.
pub open spec fn hex_digit(nibble: int) -> char {
    if nibble < 10 {
        ('0' as u8 + nibble) as u8 as char
    } else {
        ('a' as u8 + nibble - 10) as u8 as char
    }
}

/// `bytes` in lower-case hexadecimal: two digits a byte, the high half first.
pub open spec fn hex_text(bytes: Seq<u8>) -> Seq<char> {
    Seq::new(
        2 * bytes.len(),
        |i: int|
            if i % 2 == 0 {
                hex_digit(bytes[i / 2] as int / 16)
            } else {
                hex_digit(bytes[i / 2] as int % 16)
            },
    )
}

/// `sha2::Sha256::digest`: the SHA-256 digest of `data`, which the contract
/// names `sha256`. It claims that a digest is 32 bytes long.
#[verifier::external_body]
fn sha256_digest(data: &[u8]) -> (digest: Vec<u8>)
    ensures
        digest@ == sha256(data@),
        digest@.len() == DIGEST_LEN,
{
    sha2::Sha256::digest(data).to_vec()
}

/// `hex::encode`: `bytes` in lower-case hexadecimal, two digits a byte.
#[verifier::external_body]
fn hex_encode(bytes: &[u8]) -> (text: String)
    ensures
        text@ == hex_text(bytes@),
{
    hex::encode(bytes)
}

/// `digest` as the text that is shown to the operator.
pub fn digest_text(digest: &[u8]) -> (text: String)
    ensures
        text@ == hex_text(digest@),
        text@.len() == 2 * digest@.len(),
{
    hex_encode(digest)
}

/// The checksum of `data`: its SHA-256 digest in lower-case hexadecimal, 64
/// characters long.
pub fn sha256_checksum(data: &[u8]) -> (checksum: String)
    ensures
        checksum@ == hex_text(sha256(data@)),
        checksum@.len() == 2 * DIGEST_LEN,
{
    let digest = sha256_digest(data);
    digest_text(digest.as_slice())
}

} // verus!
