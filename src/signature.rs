use vstd::prelude::*;

use ed25519_dalek::{Signature, Signer, SigningKey, Verifier, VerifyingKey};
use rand::rngs::OsRng;

use crate::error::TextError;
use crate::key::{array_to_vec, leading};
use crate::traits::{KeyLoader, TextGenerator, TextSign, TextVerify};

verus! {

/// The Ed25519 signature of `msg` under the secret key `seed`.
pub uninterp spec fn ed25519_signature_of(seed: Seq<u8>, msg: Seq<u8>) -> Seq<u8>;

/// The public key that belongs to the secret key `seed`.
pub uninterp spec fn ed25519_public_of(seed: Seq<u8>) -> Seq<u8>;

/// Whether 32 bytes are the compressed form of a curve point.
pub uninterp spec fn ed25519_key_valid(public: Seq<u8>) -> bool;

/// Whether `signature` is an Ed25519 signature of `msg` under `public`.
pub uninterp spec fn ed25519_accepts(public: Seq<u8>, msg: Seq<u8>, signature: Seq<u8>) -> bool;

/// Relies on `Signer::sign` of `ed25519_dalek::SigningKey`: a deterministic
/// signature that the matching public key accepts.
#[verifier::external_body]
fn ed25519_sign(seed: &[u8; 32], msg: &[u8]) -> (r: [u8; 64])
    ensures
        r@ == ed25519_signature_of(seed@, msg@),
        ed25519_accepts(ed25519_public_of(seed@), msg@, r@),
{
    SigningKey::from_bytes(seed).sign(msg).to_bytes()
}

/// Relies on `SigningKey::verifying_key`: the public key of a secret key, a
/// point of the curve.
#[verifier::external_body]
fn ed25519_public(seed: &[u8; 32]) -> (r: [u8; 32])
    ensures
        r@ == ed25519_public_of(seed@),
        ed25519_key_valid(r@),
{
    SigningKey::from_bytes(seed).verifying_key().to_bytes()
}

/// Relies on `VerifyingKey::from_bytes`: it succeeds when the bytes
/// decompress to a curve point.
#[verifier::external_body]
fn ed25519_key_check(public: &[u8; 32]) -> (r: bool)
    ensures
        r == ed25519_key_valid(public@),
{
    VerifyingKey::from_bytes(public).is_ok()
}

/// Relies on `Verifier::verify` of `ed25519_dalek::VerifyingKey`.
#[verifier::external_body]
fn ed25519_check(public: &[u8; 32], msg: &[u8], signature: &[u8; 64]) -> (r: bool)
    requires
        ed25519_key_valid(public@),
    ensures
        r == ed25519_accepts(public@, msg@, signature@),
{
    match VerifyingKey::from_bytes(public) {
        Ok(key) => key.verify(msg, &Signature::from_bytes(signature)).is_ok(),
        Err(_) => false,
    }
}

/// Relies on `SigningKey::generate` with the operating system's RNG: a random
/// 32-byte secret key.
#[verifier::external_body]
fn fresh_seed() -> (r: [u8; 32]) {
    SigningKey::generate(&mut OsRng).to_bytes()
}

/// What verifying `signature` against `msg` under `public` gives: an error
/// unless it is 64 bytes long, else the verdict of Ed25519.
pub open spec fn signature_check(public: Seq<u8>, msg: Seq<u8>, signature: Seq<u8>) -> Result<
    bool,
    TextError,
> {
    if signature.len() != 64 {
        Err(TextError::InvalidSignatureLength)
    } else {
        Ok(ed25519_accepts(public, msg, signature))
    }
}

/// An Ed25519 secret key: the 32-byte seed.
pub struct Ed25519Signer {
    key: [u8; 32],
}

impl View for Ed25519Signer {
    type V = Seq<u8>;

    closed spec fn view(&self) -> Seq<u8> {
        self.key@
    }
}

impl Ed25519Signer {
    pub fn new(key: [u8; 32]) -> (r: Self)
        ensures
            r@ == key@,
    {
        Ed25519Signer { key }
    }

    /// Takes the first 32 bytes of `key` as the seed; fails when there are
    /// fewer.
    pub fn try_new(key: &[u8]) -> (r: Result<Self, TextError>)
        ensures
            key@.len() < 32 <==> r is Err,
            r is Err ==> r == Err::<Self, TextError>(TextError::KeyTooShort),
            r matches Ok(k) ==> k@ == key@.subrange(0, 32),
    {
        if key.len() < 32 {
            return Err(TextError::KeyTooShort);
        }
        Ok(Self::new(leading(key)))
    }

    /// The public key that verifies this key's signatures.
    pub fn verifying_key(&self) -> (r: Ed25519Verifier)
        ensures
            r@ == ed25519_public_of(self@),
    {
        Ed25519Verifier { key: ed25519_public(&self.key) }
    }
}

impl KeyLoader for Ed25519Signer {
    fn load(bytes: &[u8]) -> (r: Result<Self, TextError>)
        ensures
            bytes@.len() < 32 <==> r is Err,
            r is Err ==> r == Err::<Self, TextError>(TextError::KeyTooShort),
            r matches Ok(k) ==> k@ == bytes@.subrange(0, 32),
    {
        Self::try_new(bytes)
    }
}

impl TextSign for Ed25519Signer {
    /// The 64-byte signature of the message; it never fails, and the
    /// matching public key accepts it.
    fn sign(&self, msg: &[u8]) -> (r: Result<Vec<u8>, TextError>)
        ensures
            r matches Ok(s) && s@ == ed25519_signature_of(self@, msg@),
            signature_check(ed25519_public_of(self@), msg@, r->Ok_0@) == Ok::<bool, TextError>(true),
    {
        let signature = ed25519_sign(&self.key, msg);
        Ok(array_to_vec(&signature))
    }
}

impl TextGenerator for Ed25519Signer {
    /// A fresh secret key, then its public key.
    fn generate() -> (r: Result<Vec<Vec<u8>>, TextError>)
        ensures
            r matches Ok(keys) && keys@.len() == 2 && keys@[0]@.len() == 32 && keys@[1]@.len() == 32
                && keys@[1]@ == ed25519_public_of(keys@[0]@) && ed25519_key_valid(keys@[1]@),
    {
        let seed = fresh_seed();
        let public = ed25519_public(&seed);
        let mut keys: Vec<Vec<u8>> = Vec::new();
        keys.push(array_to_vec(&seed));
        keys.push(array_to_vec(&public));
        Ok(keys)
    }
}

/// An Ed25519 public key: 32 bytes that are a point of the curve.
pub struct Ed25519Verifier {
    key: [u8; 32],
}

impl View for Ed25519Verifier {
    type V = Seq<u8>;

    closed spec fn view(&self) -> Seq<u8> {
        self.key@
    }
}

impl Ed25519Verifier {
    #[verifier::type_invariant]
    spec fn valid(&self) -> bool {
        ed25519_key_valid(self.key@)
    }

    pub fn new(key: [u8; 32]) -> (r: Self)
        requires
            ed25519_key_valid(key@),
        ensures
            r@ == key@,
    {
        Ed25519Verifier { key }
    }

    /// Takes the first 32 bytes of `key`; fails when there are fewer, or when
    /// they are not a curve point.
    pub fn try_new(key: &[u8]) -> (r: Result<Self, TextError>)
        ensures
            key@.len() < 32 ==> r == Err::<Self, TextError>(TextError::KeyTooShort),
            key@.len() >= 32 && !ed25519_key_valid(key@.subrange(0, 32)) ==> r == Err::<
                Self,
                TextError,
            >(TextError::InvalidPublicKey),
            key@.len() >= 32 && ed25519_key_valid(key@.subrange(0, 32)) ==> (r matches Ok(k) && k@
                == key@.subrange(0, 32)),
    {
        if key.len() < 32 {
            return Err(TextError::KeyTooShort);
        }
        let bytes: [u8; 32] = leading(key);
        if !ed25519_key_check(&bytes) {
            return Err(TextError::InvalidPublicKey);
        }
        Ok(Self::new(bytes))
    }
}

impl KeyLoader for Ed25519Verifier {
    fn load(bytes: &[u8]) -> (r: Result<Self, TextError>)
        ensures
            bytes@.len() < 32 ==> r == Err::<Self, TextError>(TextError::KeyTooShort),
            bytes@.len() >= 32 && !ed25519_key_valid(bytes@.subrange(0, 32)) ==> r == Err::<
                Self,
                TextError,
            >(TextError::InvalidPublicKey),
            bytes@.len() >= 32 && ed25519_key_valid(bytes@.subrange(0, 32)) ==> (r matches Ok(k)
                && k@ == bytes@.subrange(0, 32)),
    {
        Self::try_new(bytes)
    }
}

impl TextVerify for Ed25519Verifier {
    /// Checks a 64-byte signature; any other length is an error.
    fn verify(&self, msg: &[u8], signature: &[u8]) -> (r: Result<bool, TextError>)
        ensures
            r == signature_check(self@, msg@, signature@),
    {
        proof {
            use_type_invariant(self);
        }
        if signature.len() != 64 {
            return Err(TextError::InvalidSignatureLength);
        }
        let bytes: [u8; 64] = leading(signature);
        assert(bytes@ =~= signature@);
        Ok(ed25519_check(&self.key, msg, &bytes))
    }
}

} // verus!
