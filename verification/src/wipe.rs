//! Overwriting buffers that held secret material.
//!
//! The `zeroize` crate writes zeros with volatile stores, which an optimizer
//! may not remove. What memory holds afterwards cannot be said in a contract;
//! what can be said is that the buffer is left empty.

use vstd::prelude::*;
use zeroize::Zeroize;

verus! {

/// Calls `Zeroize::zeroize` on a `String`.
///
/// Trusted: the crate zeroes the string's bytes and spare capacity and then
/// clears it, so that no character is left; it does not panic.
#[verifier::external_body]
pub(crate) fn wipe_text(text: &mut String)
    ensures
        final(text)@.len() == 0,
    opens_invariants none
    no_unwind
{
    text.zeroize();
}

/// Calls `Zeroize::zeroize` on a `Vec<u8>`.
///
/// Trusted: the crate zeroes the vector's elements and spare capacity and
/// then clears it, so that no byte is left; it does not panic.
#[verifier::external_body]
pub(crate) fn wipe_bytes(bytes: &mut Vec<u8>)
    ensures
        final(bytes)@.len() == 0,
    opens_invariants none
    no_unwind
{
    bytes.zeroize();
}

} // verus!
