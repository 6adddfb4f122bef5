//! The canonical text codec: a reversible bytes-to-text transform, base-58
//! with the bitcoin alphabet, used for display, storage keys and wire
//! interchange of the crypto value types.

use vstd::prelude::*;

use crate::errors::ParseError;

verus! {

/// The canonical base-58 text of a byte string.
pub uninterp spec fn base_encoded(bytes: Seq<u8>) -> Seq<char>;

/// The byte string a text stands for under the canonical base-58 codec, or
/// `None` when the text is not valid base-58.
pub uninterp spec fn base_decoded(text: Seq<char>) -> Option<Seq<u8>>;

#[verifier::external_type_specification]
#[verifier::external_body]
pub struct ExBs58DecodeError(bs58::decode::Error);

/// Relies on bs58::encode with its default (bitcoin) alphabet: the canonical
/// base-58 text of the bytes, a pure function of them, which bs58::decode
/// takes back to the same bytes.
#[verifier::external_body]
fn base_encode(bytes: &[u8]) -> (r: String)
    ensures
        r@ == base_encoded(bytes@),
        base_decoded(r@) == Some(bytes@),
{
    bs58::encode(bytes).into_string()
}

/// Relies on bs58::decode with its default (bitcoin) alphabet: the byte
/// string the text stands for, a pure function of it, or an error exactly
/// when the text is not valid base-58.
#[verifier::external_body]
fn base_decode(s: &str) -> (r: Result<Vec<u8>, bs58::decode::Error>)
    ensures
        match r {
            Ok(v) => base_decoded(s@) == Some(v@),
            Err(_) => base_decoded(s@) is None,
        },
{
    bs58::decode(s).into_vec()
}

/// Encode a byte string into its canonical base-58 text; decoding the
/// result gives the bytes back.
pub fn to_base(bytes: &[u8]) -> (r: String)
    ensures
        r@ == base_encoded(bytes@),
        base_decoded(r@) == Some(bytes@),
{
    base_encode(bytes)
}

/// Decode canonical base-58 text into the byte string it stands for; text
/// that is not valid base-58 is rejected with a decode error.
pub fn from_base(s: &str) -> (r: Result<Vec<u8>, ParseError>)
    ensures
        match r {
            Ok(v) => base_decoded(s@) == Some(v@),
            Err(e) => base_decoded(s@) is None && e == ParseError::DecodeError,
        },
{
    match base_decode(s) {
        Ok(v) => Ok(v),
        Err(_) => Err(ParseError::DecodeError),
    }
}

} // verus!
