//! Failures of the codec.

use vstd::prelude::*;

verus! {

/// Why an encode or a decode failed.
#[derive(Clone, Copy, Debug, PartialEq, Eq, Structural)]
pub enum CodecError {
    /// Fewer bytes than the layout needs.
    UnexpectedEof,
    /// A header whose total length is below the header's own size.
    InvalidData,
    /// The cipher refused the bytes, or changed their count.
    Crypto,
    /// The text could not be transcoded.
    Encoding,
    /// A field exceeds its fixed capacity, or a frame its length field.
    InvalidInput,
}

/// Failure reported by a cipher.
#[derive(Clone, Copy, Debug, PartialEq, Eq, Structural)]
pub struct CryptoError;

} // verus!
