//! The failures of encoding and decoding.

use vstd::prelude::*;

verus! {

/// Why a value could not be encoded.
#[derive(Clone, Copy, Debug, PartialEq, Eq, Structural)]
pub enum EncodeError {
    /// The slice is too short for the encoding.
    UnexpectedEnd,
}

/// Why no value could be decoded.
#[derive(Clone, Copy, Debug, PartialEq, Eq, Structural)]
pub enum DecodeError {
    /// The bytes end before the value does.
    UnexpectedEnd,
    /// The byte that stands for a boolean is neither 0 nor 1.
    InvalidBoolValue(u8),
    /// The byte that tells whether an optional value is there is neither 0 nor 1.
    UnexpectedVariant(u8),
}

} // verus!
