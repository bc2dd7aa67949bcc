use vstd::prelude::*;

use chacha20poly1305::aead::{Aead, AeadCore, KeyInit, OsRng};
use chacha20poly1305::{ChaCha20Poly1305, Key, Nonce};

use crate::error::TextError;
use crate::key::{array_to_vec, bytes_equal, leading};
use crate::traits::{KeyLoader, TextGenerator, TextSign, TextVerify};

verus! {

/// Bytes of the nonce at the tail of an envelope.
pub const NONCE_SIZE: usize = 12;

/// The ChaCha20-Poly1305 ciphertext (with its 16-byte tag) of `msg`.
pub uninterp spec fn chacha_seal_of(key: Seq<u8>, nonce: Seq<u8>, msg: Seq<u8>) -> Seq<u8>;

/// The ChaCha20-Poly1305 decryption of `ciphertext`: `None` when the tag does
/// not check.
pub uninterp spec fn chacha_open_of(key: Seq<u8>, nonce: Seq<u8>, ciphertext: Seq<u8>) -> Option<
    Seq<u8>,
>;

/// Whether the cipher takes a message of this length: it refuses one of
/// 2^32 - 1 blocks of 64 bytes or more.
pub open spec fn sealable(msg: Seq<u8>) -> bool {
    msg.len() / 64 < 4294967295
}

/// Relies on `Aead::encrypt` of `ChaCha20Poly1305`: it fails only on a
/// message of `u32::MAX` blocks or more, appends a 16-byte tag, and what it
/// returns decrypts to the message under the same key and nonce.
#[verifier::external_body]
fn chacha_seal(key: &[u8; 32], nonce: &[u8; 12], msg: &[u8]) -> (r: Option<Vec<u8>>)
    ensures
        r is Some <==> sealable(msg@),
        r matches Some(c) ==> {
            &&& c@ == chacha_seal_of(key@, nonce@, msg@)
            &&& c@.len() == msg@.len() + 16
            &&& chacha_open_of(key@, nonce@, c@) == Some(msg@)
        },
{
    ChaCha20Poly1305::new(Key::from_slice(key)).encrypt(Nonce::from_slice(nonce), msg).ok()
}

/// Relies on `Aead::decrypt` of `ChaCha20Poly1305`: the plaintext, or `None`
/// when authentication fails.
#[verifier::external_body]
fn chacha_open(key: &[u8; 32], nonce: &[u8], ciphertext: &[u8]) -> (r: Option<Vec<u8>>)
    requires
        nonce@.len() == 12,
    ensures
        r is Some <==> chacha_open_of(key@, nonce@, ciphertext@) is Some,
        r matches Some(p) ==> chacha_open_of(key@, nonce@, ciphertext@) == Some(p@),
{
    ChaCha20Poly1305::new(Key::from_slice(key)).decrypt(Nonce::from_slice(nonce), ciphertext).ok()
}

/// Relies on `AeadCore::generate_nonce` with the operating system's RNG: a
/// random 12-byte nonce.
#[verifier::external_body]
fn fresh_nonce() -> (r: [u8; 12]) {
    ChaCha20Poly1305::generate_nonce(&mut OsRng).into()
}

/// Relies on `KeyInit::generate_key` with the operating system's RNG: a
/// random 32-byte key.
#[verifier::external_body]
fn fresh_key() -> (r: [u8; 32]) {
    ChaCha20Poly1305::generate_key(&mut OsRng).into()
}

/// The envelope of `msg`: its ciphertext, then the nonce.
pub open spec fn envelope_of(key: Seq<u8>, nonce: Seq<u8>, msg: Seq<u8>) -> Seq<u8> {
    chacha_seal_of(key, nonce, msg) + nonce
}

/// What verifying `envelope` against `msg` gives: an error below 12 bytes,
/// else whether the part before the last 12 bytes decrypts, under the last 12
/// as nonce, to exactly `msg`.
pub open spec fn envelope_check(key: Seq<u8>, msg: Seq<u8>, envelope: Seq<u8>) -> Result<
    bool,
    TextError,
> {
    if envelope.len() < 12 {
        Err(TextError::InvalidSignatureLength)
    } else {
        let split = envelope.len() - 12;
        Ok(
            chacha_open_of(key, envelope.subrange(split, envelope.len() as int), envelope.subrange(0, split))
                == Some(msg),
        )
    }
}

/// Envelopes of one message under one key but different nonces differ: the
/// nonce travels at the tail.
pub proof fn lemma_envelope_nonce_fresh(key: Seq<u8>, n1: Seq<u8>, n2: Seq<u8>, msg: Seq<u8>)
    requires
        n1.len() == 12,
        n2.len() == 12,
        n1 != n2,
    ensures
        envelope_of(key, n1, msg) != envelope_of(key, n2, msg),
{
    let e1 = envelope_of(key, n1, msg);
    let e2 = envelope_of(key, n2, msg);
    if e1 == e2 {
        assert(e1.subrange(e1.len() - 12, e1.len() as int) =~= n1);
        assert(e2.subrange(e2.len() - 12, e2.len() as int) =~= n2);
    }
}

/// An envelope cut to fewer than 12 bytes is an error to verify, neither a
/// true nor a false verdict.
pub proof fn lemma_truncated_envelope(key: Seq<u8>, msg: Seq<u8>, envelope: Seq<u8>, len: int)
    requires
        0 <= len < 12,
        len <= envelope.len(),
    ensures
        envelope_check(key, msg, envelope.subrange(0, len)) == Err::<bool, TextError>(
            TextError::InvalidSignatureLength,
        ),
{
}

/// A 32-byte key for ChaCha20-Poly1305, whose envelopes stand as signatures.
pub struct ChaCha20Poly1305Encryptor {
    key: [u8; 32],
}

impl View for ChaCha20Poly1305Encryptor {
    type V = Seq<u8>;

    closed spec fn view(&self) -> Seq<u8> {
        self.key@
    }
}

impl ChaCha20Poly1305Encryptor {
    /// Takes the first 32 bytes of `key`; fails when there are fewer.
    pub fn try_new(key: &[u8]) -> (r: Result<Self, TextError>)
        ensures
            key@.len() < 32 <==> r is Err,
            r is Err ==> r == Err::<Self, TextError>(TextError::KeyTooShort),
            r matches Ok(k) ==> k@ == key@.subrange(0, 32),
    {
        if key.len() < 32 {
            return Err(TextError::KeyTooShort);
        }
        Ok(ChaCha20Poly1305Encryptor { key: leading(key) })
    }

    /// The envelope of `msg` under the given nonce; it fails only when the
    /// cipher refuses a message that long. What it returns verifies against
    /// `msg`.
    pub fn sign_with_nonce(&self, msg: &[u8], nonce: [u8; 12]) -> (r: Result<Vec<u8>, TextError>)
        ensures
            sealable(msg@) <==> r is Ok,
            r is Err ==> r == Err::<Vec<u8>, TextError>(TextError::EncryptionFailed),
            r matches Ok(e) ==> {
                &&& e@ == envelope_of(self@, nonce@, msg@)
                &&& e@.len() == msg@.len() + 28
                &&& envelope_check(self@, msg@, e@) == Ok::<bool, TextError>(true)
            },
    {
        match chacha_seal(&self.key, &nonce, msg) {
            Some(c) => {
                let mut e = c;
                let mut i: usize = 0;
                while i < 12
                    invariant
                        0 <= i <= 12,
                        e@ == c@ + nonce@.subrange(0, i as int),
                    decreases 12 - i,
                {
                    e.push(nonce[i]);
                    assert(nonce@.subrange(0, i + 1) == nonce@.subrange(0, i as int).push(nonce@[i as int]));
                    i = i + 1;
                }
                proof {
                    assert(nonce@.subrange(0, 12) == nonce@);
                    let split = e@.len() - 12;
                    assert(e@.subrange(split, e@.len() as int) =~= nonce@);
                    assert(e@.subrange(0, split) =~= c@);
                }
                Ok(e)
            },
            None => Err(TextError::EncryptionFailed),
        }
    }
}

impl KeyLoader for ChaCha20Poly1305Encryptor {
    fn load(bytes: &[u8]) -> (r: Result<Self, TextError>)
        ensures
            bytes@.len() < 32 <==> r is Err,
            r is Err ==> r == Err::<Self, TextError>(TextError::KeyTooShort),
            r matches Ok(k) ==> k@ == bytes@.subrange(0, 32),
    {
        Self::try_new(bytes)
    }
}

impl TextSign for ChaCha20Poly1305Encryptor {
    /// The envelope of `msg` under a fresh random nonce.
    fn sign(&self, msg: &[u8]) -> (r: Result<Vec<u8>, TextError>)
        ensures
            sealable(msg@) <==> r is Ok,
            r is Err ==> r == Err::<Vec<u8>, TextError>(TextError::EncryptionFailed),
            r matches Ok(e) ==> {
                &&& exists|n: Seq<u8>| n.len() == 12 && e@ == envelope_of(self@, n, msg@)
                &&& e@.len() == msg@.len() + 28
                &&& envelope_check(self@, msg@, e@) == Ok::<bool, TextError>(true)
            },
    {
        let nonce = fresh_nonce();
        let r = self.sign_with_nonce(msg, nonce);
        assert(r matches Ok(e) ==> nonce@.len() == 12 && e@ == envelope_of(self@, nonce@, msg@));
        r
    }
}

impl TextVerify for ChaCha20Poly1305Encryptor {
    /// Splits the envelope 12 bytes before its end, decrypts, and compares
    /// the plaintext with `msg`. A tag that does not check gives `Ok(false)`.
    fn verify(&self, msg: &[u8], signature: &[u8]) -> (r: Result<bool, TextError>)
        ensures
            r == envelope_check(self@, msg@, signature@),
    {
        if signature.len() < NONCE_SIZE {
            return Err(TextError::InvalidSignatureLength);
        }
        let split = signature.len() - NONCE_SIZE;
        let (ciphertext, nonce) = signature.split_at(split);
        assert(ciphertext@ == signature@.subrange(0, split as int));
        assert(nonce@ == signature@.subrange(split as int, signature@.len() as int));
        match chacha_open(&self.key, nonce, ciphertext) {
            Some(plain) => Ok(bytes_equal(plain.as_slice(), msg)),
            None => Ok(false),
        }
    }
}

impl TextGenerator for ChaCha20Poly1305Encryptor {
    /// One fresh random 32-byte key.
    fn generate() -> (r: Result<Vec<Vec<u8>>, TextError>)
        ensures
            r matches Ok(keys) && keys@.len() == 1 && keys@[0]@.len() == 32,
    {
        let key = fresh_key();
        let bytes = array_to_vec(&key);
        let mut keys: Vec<Vec<u8>> = Vec::new();
        keys.push(bytes);
        Ok(keys)
    }
}

} // verus!
