//! The random sources that keys, initialization vectors and generated
//! secrets are drawn from. Nothing is claimed of the values drawn beyond
//! what holds of every draw. The thread-local generator of `rand` panics
//! where the operating system gives it no seed; no contract can rule that out.

use rand::Rng;
use rand::RngCore;
use ring::rand::SecureRandom;
use vstd::prelude::*;

verus! {

/// `openssl::error::ErrorStack`: what OpenSSL reports of a failure, carried
/// through unread.
#[verifier::external_type_specification]
#[verifier::external_body]
pub struct ExErrorStack(openssl::error::ErrorStack);

/// `ring::error::Unspecified`: the failure of a `ring` operation, carried
/// through unread.
#[verifier::external_type_specification]
#[verifier::external_body]
pub struct ExUnspecified(ring::error::Unspecified);

/// `rand::Rng::fill` on the thread-local generator: overwrites `dest` with
/// random bytes. The contract claims only that the length is kept.
#[verifier::external_body]
pub(crate) fn thread_fill(dest: &mut Vec<u8>)
    ensures
        final(dest)@.len() == old(dest)@.len(),
{
    rand::thread_rng().fill(dest.as_mut_slice());
}

/// `rand::RngCore::fill_bytes` on the thread-local generator: overwrites
/// `dest` with random bytes. The contract claims only that the length is kept.
#[verifier::external_body]
pub(crate) fn thread_fill_bytes(dest: &mut Vec<u8>)
    ensures
        final(dest)@.len() == old(dest)@.len(),
{
    rand::thread_rng().fill_bytes(dest.as_mut_slice());
}

/// `rand::RngCore::next_u32` on the thread-local generator: one random word,
/// of which nothing is claimed.
#[verifier::external_body]
pub(crate) fn thread_next_u32() -> (word: u32) {
    rand::thread_rng().next_u32()
}

/// `rand::Rng::gen_range` on the thread-local generator, over `0..bound`: a
/// random index below `bound`. The call panics on an empty range, which
/// `requires` leaves out.
#[verifier::external_body]
pub(crate) fn thread_index(bound: usize) -> (index: usize)
    requires
        bound > 0,
    ensures
        index < bound,
{
    rand::thread_rng().gen_range(0..bound)
}

/// `rand::Rng::gen_ratio` on the thread-local generator: a random flag that
/// is set with probability `numerator / denominator`, of which nothing is
/// claimed. The call panics on a zero denominator and on a ratio above one,
/// which `requires` leaves out.
#[verifier::external_body]
pub(crate) fn thread_ratio(numerator: u32, denominator: u32) -> (flag: bool)
    requires
        0 < denominator,
        numerator <= denominator,
{
    rand::thread_rng().gen_ratio(numerator, denominator)
}

/// `openssl::rand::rand_bytes`: overwrites `dest` with random bytes, or
/// reports that the generator failed. The contract claims only that the
/// length is kept. The call panics on a buffer longer than a C `int` counts,
/// which `requires` leaves out.
#[verifier::external_body]
pub(crate) fn openssl_rand_bytes(dest: &mut Vec<u8>) -> (r: Result<(), openssl::error::ErrorStack>)
    requires
        old(dest)@.len() <= i32::MAX,
    ensures
        final(dest)@.len() == old(dest)@.len(),
{
    openssl::rand::rand_bytes(dest.as_mut_slice())
}

/// `ring::rand::SecureRandom::fill` on a fresh `SystemRandom`: overwrites
/// `dest` with random bytes, or reports that the generator failed. The
/// contract claims only that the length is kept.
#[verifier::external_body]
pub(crate) fn ring_fill(dest: &mut Vec<u8>) -> (r: Result<(), ring::error::Unspecified>)
    ensures
        final(dest)@.len() == old(dest)@.len(),
{
    ring::rand::SystemRandom::new().fill(dest.as_mut_slice())
}

/// A buffer of `len` zero bytes.
pub fn zeroed(len: usize) -> (buf: Vec<u8>)
    ensures
        buf@ == Seq::new(len as nat, |i: int| 0u8),
{
    let mut buf: Vec<u8> = Vec::new();
    let mut i: usize = 0;
    while i < len
        invariant
            i <= len,
            buf@ == Seq::new(i as nat, |j: int| 0u8),
        decreases len - i,
    {
        buf.push(0u8);
        i += 1;
    }
    buf
}

} // verus!
