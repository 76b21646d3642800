//! The file vault: which file the operator picked, what a packed or unpacked
//! file is called, and the transforms between a file and its envelope. Nothing
//! here touches the file system: contents come in and go out as bytes.

use crate::checksum::{hex_text, sha256, sha256_checksum};
use crate::cipher::{
    decrypt_aes256_cbc, encrypt_aes256_cbc, lemma_round_trip, opened, sealed, CryptoError,
};
use crate::key_material::{decode_key, token_key, KeyError};
use crate::text::{chars_of, has_suffix, parse_u64, parsed_u64, trim_bounds, trimmed};
use vstd::pervasive::unreached;
use vstd::prelude::*;
use vstd::string::{StrSliceExecFns, StringExecFns};

verus! {

broadcast use vstd::string::group_string_axioms;

/// Why a pack or an unpack was turned down after a file was admitted.
#[derive(Debug, Clone, PartialEq, Eq)]
pub enum FileVaultError {
    /// The key token is malformed or does not hold 32 bytes.
    InvalidKey(KeyError),
    /// The cipher failed while sealing.
    CipherFailure(String),
    /// The envelope did not open: a wrong key, or a damaged or foreign file.
    DecryptionFailed,
}

/// What a pack hands back: where the envelope goes, the envelope, and its
/// checksum.
#[derive(Debug, Clone, PartialEq, Eq)]
pub struct PackResult {
    pub output_path: String,
    pub envelope: Vec<u8>,
    pub checksum: String,
}

/// What an unpack hands back: where the plaintext goes, the plaintext, and
/// its checksum.
#[derive(Debug, Clone, PartialEq, Eq)]
pub struct UnpackResult {
    pub output_path: String,
    pub plaintext: Vec<u8>,
    pub checksum: String,
}

/// The suffix that marks a packed file.
pub open spec fn locked_suffix() -> Seq<char> {
    ".locked"@
}

/// The name of the packed form of the file `name`.
pub open spec fn locked_name(name: Seq<char>) -> Seq<char> {
    name + locked_suffix()
}

/// The name of the unpacked form of the file `name`: without the suffix where
/// `name` ends with it, and `name` itself where it does not.
pub open spec fn unlocked_name(name: Seq<char>) -> Seq<char> {
    if locked_suffix().is_suffix_of(name) {
        name.take(name.len() - locked_suffix().len())
    } else {
        name
    }
}

/// The path of the file `name` in the directory `namespace`.
pub open spec fn path_in(namespace: Seq<char>, name: Seq<char>) -> Seq<char> {
    namespace + "/"@ + name
}

/// The entry that the operator's answer picks from a listing that is
/// numbered from 1: the answer, without the white space around it, must be a
/// number from 1 to the length of the listing.
pub open spec fn selection(count: nat, answer: Seq<char>) -> Option<int> {
    match parsed_u64(trimmed(answer)) {
        Some(number) => if 1 <= number <= count {
            Some(number - 1)
        } else {
            None
        },
        None => None,
    }
}

/// Picks the entry of `candidates` that `answer` numbers. An answer that is no
/// number, or a number out of range, picks nothing.
pub fn select_by_index(candidates: &Vec<String>, answer: &str) -> (r: Option<String>)
    ensures
        match r {
            Some(path) => selection(candidates@.len(), answer@) matches Some(i) && path
                == candidates@[i],
            None => selection(candidates@.len(), answer@) is None,
        },
{
    let v = chars_of(answer);
    let (a, b) = trim_bounds(&v);
    match parse_u64(&v, a, b) {
        Some(number) => {
            if 1 <= number && number <= candidates.len() as u64 {
                Some(candidates[(number - 1) as usize].clone())
            } else {
                None
            }
        },
        None => None,
    }
}

/// The name under which the file `name` is packed.
pub fn packed_name(name: &str) -> (r: String)
    ensures
        r@ == locked_name(name@),
{
    let mut r = String::from_str(name);
    r.append(".locked");
    r
}

/// The name under which the packed file `name` is unpacked.
pub fn unpacked_name(name: &str) -> (r: String)
    ensures
        r@ == unlocked_name(name@),
{
    let v = chars_of(name);
    let suffix = chars_of(".locked");
    if has_suffix(&v, &suffix) {
        let keep: usize = v.len() - suffix.len();
        assert(name@.take(keep as int) == name@.subrange(0, keep as int));
        String::from_str(name.substring_char(0, keep))
    } else {
        String::from_str(name)
    }
}

/// The path of the file `name` in the directory `namespace`.
pub fn join_path(namespace: &str, name: &str) -> (r: String)
    ensures
        r@ == path_in(namespace@, name@),
{
    let mut r = String::from_str(namespace);
    r.append("/");
    r.append(name);
    r
}

/// Packs the file `name` with contents `plaintext` under the key that
/// `token` stands for, for the directory `namespace`.
///
/// A token that is no key is refused with the reason. Otherwise the result
/// is the envelope that seals the contents, with its path and checksum, or
/// `CipherFailure` where the cipher failed.
pub fn pack(name: &str, plaintext: &[u8], token: &str, namespace: &str) -> (r: Result<
    PackResult,
    FileVaultError,
>)
    ensures
        match r {
            Ok(packed) => {
                &&& token_key(token@) matches Ok(key) && sealed(packed.envelope@, key, plaintext@)
                &&& packed.output_path@ == path_in(namespace@, locked_name(name@))
                &&& packed.checksum@ == hex_text(sha256(packed.envelope@))
            },
            Err(FileVaultError::InvalidKey(e)) => token_key(token@) == Err::<Seq<u8>, KeyError>(e),
            Err(FileVaultError::CipherFailure(_)) => token_key(token@) is Ok,
            Err(FileVaultError::DecryptionFailed) => false,
        },
{
    let key = match decode_key(token) {
        Ok(key) => key,
        Err(e) => {
            return Err(FileVaultError::InvalidKey(e));
        },
    };
    match encrypt_aes256_cbc(plaintext, key.as_slice()) {
        Ok(envelope) => {
            let file = packed_name(name);
            let output_path = join_path(namespace, file.as_str());
            let checksum = sha256_checksum(envelope.as_slice());
            Ok(PackResult { output_path, envelope, checksum })
        },
        Err(CryptoError::CipherFailure(detail)) => Err(FileVaultError::CipherFailure(detail)),
        Err(_) => unreached(),
    }
}

/// What unpacking the envelope `envelope` under the token `token` gives.
pub open spec fn unpacked(envelope: Seq<u8>, token: Seq<char>) -> Result<Seq<u8>, FileVaultError> {
    match token_key(token) {
        Err(e) => Err(FileVaultError::InvalidKey(e)),
        Ok(key) => match opened(envelope, key) {
            Ok(plaintext) => Ok(plaintext),
            Err(_) => Err(FileVaultError::DecryptionFailed),
        },
    }
}

/// Unpacks the packed file `name` with contents `envelope` under the key that
/// `token` stands for, for the directory `namespace`.
pub fn unpack(name: &str, envelope: &[u8], token: &str, namespace: &str) -> (r: Result<
    UnpackResult,
    FileVaultError,
>)
    ensures
        match r {
            Ok(plain) => {
                &&& unpacked(envelope@, token@) == Ok::<Seq<u8>, FileVaultError>(plain.plaintext@)
                &&& plain.output_path@ == path_in(namespace@, unlocked_name(name@))
                &&& plain.checksum@ == hex_text(sha256(plain.plaintext@))
            },
            Err(e) => unpacked(envelope@, token@) == Err::<Seq<u8>, FileVaultError>(e),
        },
{
    let key = match decode_key(token) {
        Ok(key) => key,
        Err(e) => {
            return Err(FileVaultError::InvalidKey(e));
        },
    };
    match decrypt_aes256_cbc(envelope, key.as_slice()) {
        Ok(plaintext) => {
            let file = unpacked_name(name);
            let output_path = join_path(namespace, file.as_str());
            let checksum = sha256_checksum(plaintext.as_slice());
            Ok(UnpackResult { output_path, plaintext, checksum })
        },
        Err(_) => Err(FileVaultError::DecryptionFailed),
    }
}

/// Unpacking undoes the naming of a pack: the unpacked form of the packed
/// form of a name is that name.
pub proof fn lemma_unlock_inverts_lock(name: Seq<char>)
    ensures
        unlocked_name(locked_name(name)) == name,
{
    let suffix = locked_suffix();
    let full = locked_name(name);
    assert(full.subrange(full.len() - suffix.len(), full.len() as int) =~= suffix);
    assert(full.take(full.len() - suffix.len()) =~= name);
}

/// What a pack sealed under a token, an unpack under that token restores.
pub proof fn lemma_unpack_restores(plaintext: Seq<u8>, token: Seq<char>, envelope: Seq<u8>)
    requires
        token_key(token) matches Ok(key) && sealed(envelope, key, plaintext),
    ensures
        unpacked(envelope, token) == Ok::<Seq<u8>, FileVaultError>(plaintext),
{
    let key = token_key(token)->Ok_0;
    lemma_round_trip(plaintext, key, envelope);
}

} // verus!
