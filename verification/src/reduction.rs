//! One-way reductions of canonical text to stored bytes.

use sha2::Digest;
use vep::Vep;
use vstd::prelude::*;

verus! {

/// A deterministic one-way function from bytes to a byte string of fixed
/// length. A container is parameterized by one; implement this trait to plug
/// in another.
pub trait Reduction {
    /// The length of every output.
    spec fn output_len() -> nat;

    /// The function itself.
    spec fn reduced(bytes: Seq<u8>) -> Seq<u8>;

    /// The length of every output.
    fn output_size() -> (n: usize)
        ensures
            n == Self::output_len(),
    ;

    /// Applies the function to `bytes`.
    fn reduce(bytes: &[u8]) -> (out: Vec<u8>)
        ensures
            out@ == Self::reduced(bytes@),
            out@.len() == Self::output_len(),
    ;
}

/// What `Vep(Sha256::new()).expand_and_then_reduce` returns for `bytes`: the
/// variable-length expansion pass of the `vep` crate over SHA-256, folded
/// down to one digest.
pub uninterp spec fn vep_sha256(bytes: Seq<u8>) -> Seq<u8>;

/// Calls `Vep::expand_and_then_reduce` with a fresh `sha2::Sha256`.
///
/// Trusted: the result depends on `bytes` alone, and it is a single SHA-256
/// output, 32 bytes long.
#[verifier::external_body]
fn vep_sha256_reduce(bytes: &[u8]) -> (out: Vec<u8>)
    ensures
        out@ == vep_sha256(bytes@),
        out@.len() == 32,
{
    Vep(sha2::Sha256::new()).expand_and_then_reduce(bytes)
}

/// Calls `Digest::output_size` for `sha2::Sha256`.
///
/// Trusted: SHA-256 digests are 32 bytes long.
#[verifier::external_body]
fn sha256_output_size() -> (n: usize)
    ensures
        n == 32,
{
    <sha2::Sha256 as Digest>::output_size()
}

/// The expansion pass of the `vep` crate over SHA-256.
pub struct Sha256;

impl Reduction for Sha256 {
    open spec fn output_len() -> nat {
        32
    }

    open spec fn reduced(bytes: Seq<u8>) -> Seq<u8> {
        vep_sha256(bytes)
    }

    fn output_size() -> (n: usize) {
        sha256_output_size()
    }

    fn reduce(bytes: &[u8]) -> (out: Vec<u8>) {
        vep_sha256_reduce(bytes)
    }
}

} // verus!
