//! The failures that building or importing a password container can report.

use vstd::prelude::*;

verus! {

/// What was wrong with serialized input.
#[derive(Clone, Copy, Debug, PartialEq, Eq, Structural)]
pub enum ParseFault {
    /// The bytes, given as they are or spelled in hexadecimal, do not have
    /// the length of a reduction output.
    Length,
    /// The text is not an even number of hexadecimal digits.
    Hex,
}

/// Every way in which a container can fail to come into being.
#[derive(Clone, Copy, Debug, PartialEq, Eq, Structural)]
pub enum Error {
    /// The plaintext has fewer bytes than the container's minimum.
    InvalidLength {
        /// The minimum number of bytes.
        required: usize,
        /// The number of bytes that were offered.
        actual: usize,
    },
    /// Serialized input could not be taken as stored bytes.
    Parse(ParseFault),
}

} // verus!
