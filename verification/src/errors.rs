//! Typed errors for the fallible conversions of the crypto value types.

use vstd::prelude::*;

verus! {

/// Why a conversion into a key or signature value failed.
///
/// Every fallible constructor returns one of these; none of them panics.
#[derive(Clone, Copy, PartialEq, Eq, Structural, Debug)]
pub enum ParseError {
    /// The raw byte input does not have the exact length the target type
    /// requires; carries the required and the offered length.
    SizeMismatch { expected: usize, actual: usize },
    /// The text input is not valid under the canonical base-58 codec.
    DecodeError,
    /// A wire-format key carries a type tag other than the supported scheme.
    UnsupportedKeyType,
}

} // verus!
