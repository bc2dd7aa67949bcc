use vstd::prelude::*;

use crate::error::TextError;
use crate::key::{array_to_vec, bytes_equal, leading};
use crate::password::{generate_password, password_ok};
use crate::traits::{KeyLoader, TextGenerator, TextSign, TextVerify};

verus! {

/// The BLAKE3 keyed hash of `msg` under `key`.
pub uninterp spec fn blake3_keyed_of(key: Seq<u8>, msg: Seq<u8>) -> Seq<u8>;

/// Relies on `blake3::keyed_hash`: its 32-byte output depends on the key and
/// the message alone.
#[verifier::external_body]
fn keyed_hash(key: &[u8; 32], msg: &[u8]) -> (r: Vec<u8>)
    ensures
        r@ == blake3_keyed_of(key@, msg@),
        r@.len() == 32,
{
    blake3::keyed_hash(key, msg).as_bytes().to_vec()
}

/// Relies on `rand::random` (the thread-local generator, a CSPRNG seeded by
/// the operating system): 32 random bytes.
#[verifier::external_body]
fn random_key() -> (r: [u8; 32]) {
    rand::random()
}

/// Whether `signature` is the keyed hash of `msg` under `key`: byte for byte.
pub open spec fn keyed_hash_accepts(key: Seq<u8>, msg: Seq<u8>, signature: Seq<u8>) -> bool {
    signature == blake3_keyed_of(key, msg)
}

/// The keyed hash of a message verifies against that message under the same
/// key.
pub proof fn lemma_keyed_hash_round_trip(key: Seq<u8>, msg: Seq<u8>)
    ensures
        keyed_hash_accepts(key, msg, blake3_keyed_of(key, msg)),
{
}

/// Changing any one byte of a keyed hash makes it fail to verify.
pub proof fn lemma_keyed_hash_tamper(key: Seq<u8>, msg: Seq<u8>, i: int, b: u8)
    requires
        0 <= i < blake3_keyed_of(key, msg).len(),
        b != blake3_keyed_of(key, msg)[i],
    ensures
        !keyed_hash_accepts(key, msg, blake3_keyed_of(key, msg).update(i, b)),
{
    assert(blake3_keyed_of(key, msg).update(i, b)[i] != blake3_keyed_of(key, msg)[i]);
}

/// A shared 32-byte key for the BLAKE3 keyed hash.
pub struct Blake3 {
    key: [u8; 32],
}

impl View for Blake3 {
    type V = Seq<u8>;

    closed spec fn view(&self) -> Seq<u8> {
        self.key@
    }
}

impl Blake3 {
    pub fn new(key: [u8; 32]) -> (r: Self)
        ensures
            r@ == key@,
    {
        Blake3 { key }
    }

    /// Takes the first 32 bytes of `key`; fails when there are fewer.
    pub fn try_new(key: &[u8]) -> (r: Result<Self, TextError>)
        ensures
            key@.len() < 32 <==> r is Err,
            r is Err ==> r == Err::<Self, TextError>(TextError::KeyTooShort),
            r matches Ok(k) ==> k@ == key@.subrange(0, 32),
    {
        if key.len() < 32 {
            return Err(TextError::KeyTooShort);
        }
        Ok(Self::new(leading(key)))
    }
}

impl Blake3 {
    /// One 32-byte key over the full byte range, for callers that want the
    /// whole key space rather than the password alphabet of `generate`.
    pub fn generate_full_range() -> (r: Vec<Vec<u8>>)
        ensures
            r@.len() == 1,
            r@[0]@.len() == 32,
    {
        let key = random_key();
        let mut keys: Vec<Vec<u8>> = Vec::new();
        keys.push(array_to_vec(&key));
        keys
    }
}

impl KeyLoader for Blake3 {
    fn load(bytes: &[u8]) -> (r: Result<Self, TextError>)
        ensures
            bytes@.len() < 32 <==> r is Err,
            r is Err ==> r == Err::<Self, TextError>(TextError::KeyTooShort),
            r matches Ok(k) ==> k@ == bytes@.subrange(0, 32),
    {
        Self::try_new(bytes)
    }
}

impl TextSign for Blake3 {
    /// The 32-byte keyed hash of the message; it never fails.
    fn sign(&self, msg: &[u8]) -> (r: Result<Vec<u8>, TextError>)
        ensures
            r matches Ok(s) && s@ == blake3_keyed_of(self@, msg@) && s@.len() == 32,
            keyed_hash_accepts(self@, msg@, r->Ok_0@),
    {
        Ok(keyed_hash(&self.key, msg))
    }
}

impl TextVerify for Blake3 {
    /// Recomputes the keyed hash and compares it with `signature`.
    fn verify(&self, msg: &[u8], signature: &[u8]) -> (r: Result<bool, TextError>)
        ensures
            r == Ok::<bool, TextError>(keyed_hash_accepts(self@, msg@, signature@)),
    {
        let hash = keyed_hash(&self.key, msg);
        Ok(bytes_equal(hash.as_slice(), signature))
    }
}

impl TextGenerator for Blake3 {
    /// One 32-byte key drawn from the password alphabet, with every character
    /// class present.
    fn generate() -> (r: Result<Vec<Vec<u8>>, TextError>)
        ensures
            r matches Ok(keys) && keys@.len() == 1 && password_ok(
                keys@[0]@,
                32,
                false,
                false,
                false,
                false,
            ),
    {
        match generate_password(32, false, false, false, false) {
            Ok(key) => {
                let mut keys: Vec<Vec<u8>> = Vec::new();
                keys.push(key);
                Ok(keys)
            },
            Err(e) => Err(e),
        }
    }
}

} // verus!
