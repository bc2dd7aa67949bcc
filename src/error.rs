use vstd::prelude::*;

verus! {

/// What can go wrong in signing, verifying, key loading and generation.
///
/// A signature that does not match, or an envelope that does not decrypt, is
/// not an error: verification then returns `Ok(false)`.
#[derive(Debug, Clone, Copy, PartialEq, Eq, Structural)]
pub enum TextError {
    /// The key bytes are fewer than the algorithm needs.
    KeyTooShort,
    /// The bytes of a public key are not a point of the curve.
    InvalidPublicKey,
    /// A signature or an envelope has a length the algorithm cannot take.
    InvalidSignatureLength,
    /// The cipher refused to encrypt the message (it is too long).
    EncryptionFailed,
    /// The signature text is not URL-safe unpadded base64.
    Base64Decode,
    /// A password is asked for with fewer than four characters, or with every
    /// character class excluded.
    InvalidPasswordLength,
    /// A format name that no format has.
    InvalidFormat,
}

} // verus!
