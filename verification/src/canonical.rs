//! Canonical form of secret text.
//!
//! Text that looks the same can be spelled with different code points. Before
//! anything is derived from a secret it is brought into Unicode Normalization
//! Form KD, so that every spelling of one text gives one container.

use unicode_normalization::UnicodeNormalization;
use vstd::prelude::*;

verus! {

/// The compatibility decomposition (NFKD) of `text`, as the
/// `unicode-normalization` crate computes it.
pub uninterp spec fn nfkd_form(text: Seq<char>) -> Seq<char>;

/// Calls `UnicodeNormalization::nfkd` and collects the characters it yields.
///
/// Trusted: the result depends on the characters of `text` alone (the
/// decomposition tables are compiled into the crate).
#[verifier::external_body]
pub(crate) fn utf8_normalize(text: &str) -> (normed: String)
    ensures
        normed@ == nfkd_form(text@),
{
    text.nfkd().to_string()
}

} // verus!
