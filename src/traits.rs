use vstd::prelude::*;

use crate::error::TextError;

verus! {

/// Signs a whole message.
pub trait TextSign {
    /// The signature (or envelope) of `msg`.
    fn sign(&self, msg: &[u8]) -> (r: Result<Vec<u8>, TextError>);
}

/// Checks a signature (or envelope) against a whole message.
pub trait TextVerify {
    /// `Ok(true)` when `signature` is one of `msg`, `Ok(false)` when it is
    /// not, and an error when it cannot be checked at all.
    fn verify(&self, msg: &[u8], signature: &[u8]) -> (r: Result<bool, TextError>);
}

/// Makes fresh key material.
pub trait TextGenerator {
    /// The key buffers, in order: one for a symmetric key, secret then public
    /// for a key pair.
    fn generate() -> (r: Result<Vec<Vec<u8>>, TextError>);
}

/// Builds a key object from the contents of a key file.
pub trait KeyLoader: Sized {
    /// Takes the first 32 bytes of `bytes` as the key.
    fn load(bytes: &[u8]) -> (r: Result<Self, TextError>)
        ensures
            bytes@.len() < 32 ==> r == Err::<Self, TextError>(TextError::KeyTooShort),
    ;
}

} // verus!
