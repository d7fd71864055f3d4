//! Laws that hold of every container, stated over the models that the
//! operations' contracts use.

use crate::canonical::nfkd_form;
use crate::error::{Error, ParseFault};
use crate::hex_text::{hex_encoding, is_hex_text, lemma_decoding_inverts_encoding};
use crate::password::{byte_len, Password};
use crate::reduction::Reduction;
use vstd::prelude::*;
use vstd::std_specs::cmp::PartialEqSpec;

verus! {

/// Every text of at least `MIN_LENGTH` bytes makes a container, and that
/// container accepts the text it was made from.
pub proof fn law_admitted_text_matches_its_container<D: Reduction, const MIN_LENGTH: usize>(
    text: Seq<char>,
)
    requires
        byte_len(text) >= MIN_LENGTH,
    ensures
        Password::<D, MIN_LENGTH>::spec_hashed_words(text) is Ok,
        Password::<D, MIN_LENGTH>::spec_eq_original(
            Password::<D, MIN_LENGTH>::spec_hashed_words(text)->Ok_0,
            text,
        ),
{
}

/// A text of fewer than `MIN_LENGTH` bytes makes no container: the attempt
/// fails with the required and the actual length.
pub proof fn law_short_text_is_refused<D: Reduction, const MIN_LENGTH: usize>(text: Seq<char>)
    requires
        byte_len(text) < MIN_LENGTH,
    ensures
        Password::<D, MIN_LENGTH>::spec_hashed_words(text) == Err::<Seq<u8>, Error>(
            Error::InvalidLength { required: MIN_LENGTH, actual: byte_len(text) as usize },
        ),
{
}

/// A candidate of fewer than `MIN_LENGTH` bytes is accepted by no container.
pub proof fn law_short_candidate_never_matches<D: Reduction, const MIN_LENGTH: usize>(
    container: Password<D, MIN_LENGTH>,
    candidate: Seq<char>,
)
    requires
        byte_len(candidate) < MIN_LENGTH,
    ensures
        !Password::<D, MIN_LENGTH>::spec_eq_original(container@, candidate),
{
}

/// The bytes of a well-formed container, imported again, give an equal
/// container.
pub proof fn law_from_bytes_inverts_to_bytes<D: Reduction, const MIN_LENGTH: usize>(
    container: Password<D, MIN_LENGTH>,
)
    requires
        container.well_formed(),
    ensures
        Password::<D, MIN_LENGTH>::spec_from_bytes(container@) == Ok::<Seq<u8>, Error>(
            container@,
        ),
{
}

/// The hexadecimal text of a well-formed container, imported again, gives an
/// equal container.
pub proof fn law_from_hex_inverts_to_hex<D: Reduction, const MIN_LENGTH: usize>(
    container: Password<D, MIN_LENGTH>,
)
    requires
        container.well_formed(),
    ensures
        Password::<D, MIN_LENGTH>::spec_from_hex(hex_encoding(container@)) == Ok::<
            Seq<u8>,
            Error,
        >(container@),
{
    lemma_decoding_inverts_encoding(container@);
}

/// Bytes of any other length than an output of `D` make no container.
pub proof fn law_bytes_of_wrong_length_are_refused<D: Reduction, const MIN_LENGTH: usize>(
    bytes: Seq<u8>,
)
    requires
        bytes.len() != D::output_len(),
    ensures
        Password::<D, MIN_LENGTH>::spec_from_bytes(bytes) == Err::<Seq<u8>, Error>(
            Error::Parse(ParseFault::Length),
        ),
{
}

/// Hexadecimal text that spells any other number of bytes than an output of
/// `D` has makes no container, the empty text included.
pub proof fn law_hex_of_wrong_length_is_refused<D: Reduction, const MIN_LENGTH: usize>(
    text: Seq<char>,
)
    requires
        is_hex_text(text),
        text.len() != 2 * D::output_len(),
    ensures
        Password::<D, MIN_LENGTH>::spec_from_hex(text) == Err::<Seq<u8>, Error>(
            Error::Parse(ParseFault::Length),
        ),
{
}

/// Two admitted texts with one canonical form make equal containers, however
/// their code points differ.
pub proof fn law_canonical_form_decides_the_container<D: Reduction, const MIN_LENGTH: usize>(
    first: Seq<char>,
    second: Seq<char>,
)
    requires
        byte_len(first) >= MIN_LENGTH,
        byte_len(second) >= MIN_LENGTH,
    ensures
        nfkd_form(first) == nfkd_form(second) ==> Password::<D, MIN_LENGTH>::spec_hashed_words(
            first,
        ) == Password::<D, MIN_LENGTH>::spec_hashed_words(second),
{
}

/// What a container shows in print does not depend on what it holds: any two
/// containers show the same fixed marker.
pub proof fn law_print_is_content_independent<D: Reduction, const MIN_LENGTH: usize>(
    first: Password<D, MIN_LENGTH>,
    second: Password<D, MIN_LENGTH>,
)
    ensures
        first.spec_to_string() == second.spec_to_string(),
        first.spec_to_string() == "***SECURE***"@,
{
}

/// Equality of containers is reflexive, symmetric and transitive.
pub proof fn law_equality_is_an_equivalence<D: Reduction, const MIN_LENGTH: usize>(
    a: Password<D, MIN_LENGTH>,
    b: Password<D, MIN_LENGTH>,
    c: Password<D, MIN_LENGTH>,
)
    ensures
        a.eq_spec(&a),
        a.eq_spec(&b) == b.eq_spec(&a),
        a.eq_spec(&b) && b.eq_spec(&c) ==> a.eq_spec(&c),
{
}

} // verus!
