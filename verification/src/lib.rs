//! A binary chunk codec for a length-prefixed, type-tagged, checksum-verified
//! container format.
//!
//! A [`chunk::Chunk`] couples a byte payload with a [`chunk_type::ChunkType`]
//! (a four-byte ASCII identifier whose byte cases encode semantic flags), a
//! declared length, and a CRC-32 checksum, and converts to and from the exact
//! on-wire byte layout: four big-endian length bytes, four tag bytes, the
//! payload, and four big-endian checksum bytes.

use vstd::prelude::*;
use vstd::string::StringSliceAdditionalSpecFns;

pub mod chunk;
pub mod chunk_type;

verus! {

/// The failures that constructing a type tag or parsing a chunk can report.
#[derive(Debug, Clone, Copy, PartialEq, Eq, Structural)]
pub enum Error {
    /// A required type-tag byte was not an ASCII alphabetic character.
    InvalidByte,
    /// A fixed-width field could not be read because too few bytes remained,
    /// or a text of the wrong byte length was given for a four-byte tag.
    FailedConversion,
    /// An explicitly requested verification found that the stored checksum or
    /// the declared length does not match the payload.
    VerificationMismatch,
}

impl Error {
    /// A human-readable description of the failure.
    pub fn message(&self) -> (r: String)
        ensures
            *self is InvalidByte ==> r@ == "The byte given was invalid ascii"@,
            *self is FailedConversion ==> r@ == "A conversion failed"@,
            *self is VerificationMismatch ==> r@
                == "The stored checksum or length does not match the payload"@,
    {
        match self {
            Error::InvalidByte => "The byte given was invalid ascii".to_owned(),
            Error::FailedConversion => "A conversion failed".to_owned(),
            Error::VerificationMismatch => {
                "The stored checksum or length does not match the payload".to_owned()
            },
        }
    }
}

/// Mirrors `std::str::Utf8Error`, the error of the text-view accessors, so
/// that it can stand in signatures.
#[verifier::external_type_specification]
#[verifier::external_body]
pub struct ExUtf8Error(std::str::Utf8Error);

/// Relies on `std::str::from_utf8`: it returns the text borrowing the given
/// bytes exactly when they are a valid UTF-8 encoding, and that text reads as
/// the characters the bytes encode.
#[verifier::external_body]
pub(crate) fn utf8_from_bytes(bytes: &[u8]) -> (r: Result<&str, std::str::Utf8Error>)
    ensures
        (r is Ok) == vstd::utf8::valid_utf8(bytes@),
        r matches Ok(s) ==> s@ == vstd::utf8::decode_utf8(bytes@)
            && s.spec_bytes() == bytes@,
{
    std::str::from_utf8(bytes)
}

} // verus!
