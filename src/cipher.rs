//! The optional stream cipher that header and body bytes pass through.

use vstd::prelude::*;
use crate::error::CryptoError;

verus! {

/// A stateful stream cipher owned by one connection. Calls must follow the
/// order in which the bytes travel on the stream.
pub trait Cipher {
    /// Holds of a cipher that hands every input back unchanged.
    spec fn is_identity(&self) -> bool;

    fn encrypt(&mut self, input: &[u8]) -> (r: Result<Vec<u8>, CryptoError>)
        ensures
            old(self).is_identity() ==> final(self).is_identity() && r is Ok && r->Ok_0@
                == input@,
    ;

    fn decrypt(&mut self, input: &[u8]) -> (r: Result<Vec<u8>, CryptoError>)
        ensures
            old(self).is_identity() ==> final(self).is_identity() && r is Ok && r->Ok_0@
                == input@,
    ;
}

/// The cipher that leaves bytes as they are.
#[derive(Clone, Copy, Debug, PartialEq, Eq, Structural)]
pub struct IdentityCipher;

impl Cipher for IdentityCipher {
    open spec fn is_identity(&self) -> bool {
        true
    }

    fn encrypt(&mut self, input: &[u8]) -> (r: Result<Vec<u8>, CryptoError>) {
        Ok(crate::bytes::copy_range(input, 0, input.len()))
    }

    fn decrypt(&mut self, input: &[u8]) -> (r: Result<Vec<u8>, CryptoError>) {
        Ok(crate::bytes::copy_range(input, 0, input.len()))
    }
}

} // verus!
