//! The container: what is stored for a secret text, how it is built, compared,
//! serialized, shown and destroyed.

use crate::canonical::{nfkd_form, utf8_normalize};
use crate::compare::same_bytes;
use crate::error::{Error, ParseFault};
use crate::hex_text::{decode, encode, hex_decoding, hex_encoding, is_hex_text};
use crate::reduction::Reduction;
use crate::wipe::{wipe_bytes, wipe_text};
use std::marker::PhantomData;
use std::ops::Deref;
use std::str::FromStr;
use vstd::prelude::*;
use vstd::std_specs::cmp::PartialEqSpecImpl;
use vstd::utf8::encode_utf8;

verus! {

/// The number of bytes that `text` takes in UTF-8. Lengths of secrets are
/// measured in bytes, not in characters.
pub open spec fn byte_len(text: Seq<char>) -> nat {
    encode_utf8(text).len()
}

/// A secret text, kept only as the reduction `D` of its canonical form.
/// Text of fewer than `MIN_LENGTH` bytes is never admitted.
pub struct Password<D: Reduction, const MIN_LENGTH: usize> {
    hashed_words: Vec<u8>,
    digester: PhantomData<D>,
}

impl<D: Reduction, const MIN_LENGTH: usize> View for Password<D, MIN_LENGTH> {
    type V = Seq<u8>;

    /// The stored bytes.
    closed spec fn view(&self) -> Seq<u8> {
        self.hashed_words@
    }
}

impl<D: Reduction, const MIN_LENGTH: usize> Password<D, MIN_LENGTH> {
    /// Whether the stored bytes have the length of an output of `D`. Every
    /// container has it as it is made, by [`Self::new`], [`Self::from_bytes`]
    /// or [`Self::from_hex`], and keeps it until it is wiped.
    pub open spec fn well_formed(&self) -> bool {
        self@.len() == D::output_len()
    }

    /// What a constructor hands back, with the container replaced by the
    /// bytes it stores.
    pub open spec fn stored(r: Result<Self, Error>) -> Result<Seq<u8>, Error> {
        match r {
            Ok(password) => Ok(password@),
            Err(e) => Err(e),
        }
    }

    /// The bytes stored for `plain_words`: the reduction of the UTF-8
    /// encoding of its canonical form, unless the text is too short as given.
    pub open spec fn spec_hashed_words(plain_words: Seq<char>) -> Result<Seq<u8>, Error> {
        if byte_len(plain_words) < MIN_LENGTH {
            Err(
                Error::InvalidLength {
                    required: MIN_LENGTH,
                    actual: byte_len(plain_words) as usize,
                },
            )
        } else {
            Ok(D::reduced(encode_utf8(nfkd_form(plain_words))))
        }
    }

    /// The bytes stored when `bytes` is imported as they are.
    pub open spec fn spec_from_bytes(bytes: Seq<u8>) -> Result<Seq<u8>, Error> {
        if bytes.len() == D::output_len() {
            Ok(bytes)
        } else {
            Err(Error::Parse(ParseFault::Length))
        }
    }

    /// The bytes stored when hexadecimal `text` is imported: what the text
    /// spells, if it is hexadecimal and spells as many bytes as an output of
    /// `D` has.
    pub open spec fn spec_from_hex(text: Seq<char>) -> Result<Seq<u8>, Error> {
        if !is_hex_text(text) {
            Err(Error::Parse(ParseFault::Hex))
        } else if hex_decoding(text).len() != D::output_len() {
            Err(Error::Parse(ParseFault::Length))
        } else {
            Ok(hex_decoding(text))
        }
    }

    /// Whether a container that stores `hashed_words` accepts `target` as its
    /// secret: the candidate must be admissible and reduce to the same bytes.
    pub open spec fn spec_eq_original(hashed_words: Seq<u8>, target: Seq<char>) -> bool {
        Self::spec_hashed_words(target) == Ok::<Seq<u8>, Error>(hashed_words)
    }

    /// What this container shows of itself in print.
    pub open spec fn spec_to_string(&self) -> Seq<char> {
        "***SECURE***"@
    }

    /// Builds a container from a plaintext, which is consumed and wiped.
    /// Fails with [`Error::InvalidLength`] exactly when the plaintext has
    /// fewer than `MIN_LENGTH` bytes.
    pub fn new(plain_words: String) -> (r: Result<Self, Error>)
        ensures
            Self::stored(r) == Self::spec_hashed_words(plain_words@),
            r matches Ok(password) ==> password.well_formed(),
    {
        let mut words = plain_words;
        match Self::extract_hashed_words(&mut words) {
            Ok(hashed_words) => Ok(Self { hashed_words, digester: PhantomData }),
            Err(e) => Err(e),
        }
    }

    /// Takes `bytes` as stored bytes, without normalizing or reducing them.
    /// Fails with [`Error::Parse`] exactly when their length is not the
    /// output size of `D`.
    pub fn from_bytes(bytes: &[u8]) -> (r: Result<Self, Error>)
        ensures
            Self::stored(r) == Self::spec_from_bytes(bytes@),
            r matches Ok(password) ==> password.well_formed(),
    {
        if bytes.len() != D::output_size() {
            return Err(Error::Parse(ParseFault::Length));
        }
        Ok(Self { hashed_words: vstd::slice::slice_to_vec(bytes), digester: PhantomData })
    }

    /// A copy of the stored bytes.
    pub fn to_bytes(&self) -> (bytes: Vec<u8>)
        ensures
            bytes@ == self@,
    {
        self.hashed_words.clone()
    }

    /// Takes the bytes that `hex_string` spells as stored bytes, without
    /// normalizing or reducing them. Fails with [`Error::Parse`] exactly when
    /// the text is not an even number of hexadecimal digits, or spells a
    /// number of bytes that is not the output size of `D`.
    pub fn from_hex(hex_string: &str) -> (r: Result<Self, Error>)
        ensures
            Self::stored(r) == Self::spec_from_hex(hex_string@),
            r matches Ok(password) ==> password.well_formed(),
    {
        match decode(hex_string) {
            Ok(hashed_words) => {
                if hashed_words.len() != D::output_size() {
                    return Err(Error::Parse(ParseFault::Length));
                }
                Ok(Self { hashed_words, digester: PhantomData })
            },
            Err(_) => Err(Error::Parse(ParseFault::Hex)),
        }
    }

    /// The stored bytes in lowercase hexadecimal. Never fails.
    pub fn to_hex(&self) -> (r: Result<String, Error>)
        ensures
            r matches Ok(text) && text@ == hex_encoding(self@),
    {
        Ok(encode(self.hashed_words.as_slice()))
    }

    /// Whether `target` is the secret of this container. The candidate is
    /// consumed and wiped. One that is too short is answered with `false`,
    /// like any other wrong candidate.
    pub fn eq_original(&self, target: String) -> (r: bool)
        ensures
            r == Self::spec_eq_original(self@, target@),
    {
        let mut words = target;
        match Self::extract_hashed_words(&mut words) {
            Ok(candidate) => same_bytes(self.hashed_words.as_slice(), candidate.as_slice()),
            Err(_) => false,
        }
    }

    /// The fixed marker that stands for any container in print.
    pub fn to_string(&self) -> (text: String)
        ensures
            text@ == self.spec_to_string(),
    {
        "***SECURE***".to_owned()
    }

    /// Overwrites the stored bytes and leaves the container empty. A wiped
    /// container is no longer well formed; wiping it again does nothing.
    pub fn zeroize(&mut self)
        ensures
            final(self)@.len() == 0,
        opens_invariants none
        no_unwind
    {
        wipe_bytes(&mut self.hashed_words);
    }

    /// Measures, normalizes and reduces a plaintext. The plaintext is wiped
    /// before this returns, whether it was admitted or not, and so is its
    /// canonical form.
    fn extract_hashed_words(plain_words: &mut String) -> (r: Result<Vec<u8>, Error>)
        ensures
            final(plain_words)@.len() == 0,
            match r {
                Ok(hashed_words) => {
                    &&& Self::spec_hashed_words(old(plain_words)@) == Ok::<Seq<u8>, Error>(
                        hashed_words@,
                    )
                    &&& hashed_words@.len() == D::output_len()
                },
                Err(e) => Self::spec_hashed_words(old(plain_words)@) == Err::<Seq<u8>, Error>(e),
            },
    {
        let actual: usize = plain_words.as_str().as_bytes().len();
        if actual < MIN_LENGTH {
            wipe_text(plain_words);
            return Err(Error::InvalidLength { required: MIN_LENGTH, actual });
        }
        let mut normed_words = utf8_normalize(plain_words.as_str());
        wipe_text(plain_words);

        let hashed_words = D::reduce(normed_words.as_str().as_bytes());
        wipe_text(&mut normed_words);
        // Nothing of the canonical form may outlive this call either.
        assert(normed_words@.len() == 0);

        Ok(hashed_words)
    }
}

impl<D: Reduction, const MIN_LENGTH: usize> Clone for Password<D, MIN_LENGTH> {
    fn clone(&self) -> (copy: Self)
        ensures
            copy@ == self@,
    {
        Self { hashed_words: self.hashed_words.clone(), digester: PhantomData }
    }
}

impl<D: Reduction, const MIN_LENGTH: usize> FromStr for Password<D, MIN_LENGTH> {
    type Err = Error;

    fn from_str(s: &str) -> (r: Result<Self, Error>)
        ensures
            Self::stored(r) == Self::spec_hashed_words(s@),
            r matches Ok(password) ==> password.well_formed(),
    {
        Self::new(s.to_owned())
    }
}

impl<D: Reduction, const MIN_LENGTH: usize> AsRef<[u8]> for Password<D, MIN_LENGTH> {
    fn as_ref(&self) -> (bytes: &[u8])
        ensures
            bytes@ == self@,
    {
        self.hashed_words.as_slice()
    }
}

impl<D: Reduction, const MIN_LENGTH: usize> Deref for Password<D, MIN_LENGTH> {
    type Target = Vec<u8>;

    fn deref(&self) -> (bytes: &Vec<u8>)
        ensures
            bytes@ == self@,
    {
        &self.hashed_words
    }
}

impl<D: Reduction, const MIN_LENGTH: usize> PartialEq for Password<D, MIN_LENGTH> {
    fn eq(&self, other: &Self) -> (r: bool) {
        same_bytes(self.hashed_words.as_slice(), other.hashed_words.as_slice())
    }
}

impl<D: Reduction, const MIN_LENGTH: usize> PartialEqSpecImpl for Password<D, MIN_LENGTH> {
    open spec fn obeys_eq_spec() -> bool {
        true
    }

    /// Containers are equal when they store the same bytes.
    open spec fn eq_spec(&self, other: &Self) -> bool {
        self@ == other@
    }
}

impl<D: Reduction, const MIN_LENGTH: usize> Eq for Password<D, MIN_LENGTH> {}

impl<D: Reduction, const MIN_LENGTH: usize> PartialEq<String> for Password<D, MIN_LENGTH> {
    fn eq(&self, other: &String) -> (r: bool) {
        self.eq_original(other.clone())
    }
}

impl<D: Reduction, const MIN_LENGTH: usize> PartialEqSpecImpl<String> for Password<D, MIN_LENGTH> {
    open spec fn obeys_eq_spec() -> bool {
        true
    }

    /// A container equals a text that it accepts as its secret.
    open spec fn eq_spec(&self, other: &String) -> bool {
        Self::spec_eq_original(self@, other@)
    }
}

impl<'a, D: Reduction, const MIN_LENGTH: usize> PartialEq<&'a str> for Password<D, MIN_LENGTH> {
    fn eq(&self, other: &&'a str) -> (r: bool) {
        self.eq_original((*other).to_owned())
    }
}

impl<'a, D: Reduction, const MIN_LENGTH: usize> PartialEqSpecImpl<&'a str> for Password<D, MIN_LENGTH> {
    open spec fn obeys_eq_spec() -> bool {
        true
    }

    /// A container equals a text that it accepts as its secret.
    open spec fn eq_spec(&self, other: &&'a str) -> bool {
        Self::spec_eq_original(self@, other@)
    }
}

impl<D: Reduction, const MIN_LENGTH: usize> Drop for Password<D, MIN_LENGTH> {
    /// Wipes the stored bytes before their memory is released.
    fn drop(&mut self)
        ensures
            final(self)@.len() == 0,
        opens_invariants none
        no_unwind
    {
        self.zeroize();
    }
}

} // verus!
