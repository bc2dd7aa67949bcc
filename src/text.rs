use vstd::prelude::*;

use crate::aead::{envelope_check, envelope_of, sealable, ChaCha20Poly1305Encryptor};
use crate::b64::{url_safe_decode, url_safe_decode_of, url_safe_encode, url_safe_of};
use crate::error::TextError;
use crate::format::TextSignFormat;
use crate::keyed_hash::{blake3_keyed_of, keyed_hash_accepts, Blake3};
use crate::password::password_ok;
use crate::signature::{
    ed25519_key_valid,
    ed25519_public_of,
    ed25519_signature_of,
    signature_check,
    Ed25519Signer,
    Ed25519Verifier,
};
use crate::traits::{KeyLoader, TextGenerator, TextSign, TextVerify};

verus! {

/// The signature bytes of `msg` under the key file's contents `key`, with
/// `nonce` as the nonce of an AEAD envelope.
pub open spec fn signature_of(
    format: TextSignFormat,
    key: Seq<u8>,
    msg: Seq<u8>,
    nonce: Seq<u8>,
) -> Result<Seq<u8>, TextError> {
    if key.len() < 32 {
        Err(TextError::KeyTooShort)
    } else {
        let k = key.subrange(0, 32);
        match format {
            TextSignFormat::Blake3 => Ok(blake3_keyed_of(k, msg)),
            TextSignFormat::ChaCha20Poly1305 => if sealable(msg) {
                Ok(envelope_of(k, nonce, msg))
            } else {
                Err(TextError::EncryptionFailed)
            },
            TextSignFormat::Ed25519 => Ok(ed25519_signature_of(k, msg)),
        }
    }
}

/// Whether `r` is `signature` written as URL-safe unpadded base64, or the
/// same error.
pub open spec fn written_as_text(r: Result<String, TextError>, signature: Result<Seq<u8>, TextError>) -> bool {
    match (r, signature) {
        (Ok(t), Ok(b)) => t@ == url_safe_of(b),
        (Err(e), Err(f)) => e == f,
        _ => false,
    }
}

/// What verifying the base64 text `signature` against `msg` under the key
/// file's contents `key` gives. The text is decoded first, then the key
/// loaded, then the signature checked.
pub open spec fn verification_of(
    format: TextSignFormat,
    key: Seq<u8>,
    msg: Seq<u8>,
    signature: Seq<char>,
) -> Result<bool, TextError> {
    match url_safe_decode_of(signature) {
        None => Err(TextError::Base64Decode),
        Some(sig) => if key.len() < 32 {
            Err(TextError::KeyTooShort)
        } else {
            let k = key.subrange(0, 32);
            match format {
                TextSignFormat::Blake3 => Ok(keyed_hash_accepts(k, msg, sig)),
                TextSignFormat::ChaCha20Poly1305 => envelope_check(k, msg, sig),
                TextSignFormat::Ed25519 => if !ed25519_key_valid(k) {
                    Err(TextError::InvalidPublicKey)
                } else {
                    signature_check(k, msg, sig)
                },
            }
        },
    }
}

/// A key file shorter than 32 bytes fails with `KeyTooShort` for every
/// format, in signing and, once the signature text decodes, in verifying.
pub proof fn lemma_short_key(
    format: TextSignFormat,
    key: Seq<u8>,
    msg: Seq<u8>,
    nonce: Seq<u8>,
    signature: Seq<char>,
)
    requires
        key.len() < 32,
    ensures
        signature_of(format, key, msg, nonce) == Err::<Seq<u8>, TextError>(TextError::KeyTooShort),
        url_safe_decode_of(signature) is Some ==> verification_of(format, key, msg, signature)
            == Err::<bool, TextError>(TextError::KeyTooShort),
{
}

/// With a generated key pair, a signature text made under the secret key
/// verifies under the public key.
pub proof fn lemma_ed25519_text_round_trip(
    secret: Seq<u8>,
    public: Seq<u8>,
    msg: Seq<u8>,
    text: Seq<char>,
)
    requires
        secret.len() == 32,
        public.len() == 32,
        public == ed25519_public_of(secret),
        ed25519_key_valid(public),
        url_safe_decode_of(text) is Some,
        signature_check(ed25519_public_of(secret.subrange(0, 32)), msg, url_safe_decode_of(text)->Some_0)
            == Ok::<bool, TextError>(true),
    ensures
        verification_of(TextSignFormat::Ed25519, public, msg, text) == Ok::<bool, TextError>(true),
{
    assert(secret.subrange(0, 32) =~= secret);
    assert(public.subrange(0, 32) =~= public);
}

/// Signs `msg` under the key file's contents `key` and writes the signature
/// as URL-safe unpadded base64. An AEAD envelope takes a fresh nonce. The
/// text decodes back to the signature bytes. With a symmetric key, verifying
/// the text under the same key gives `Ok(true)`; an Ed25519 signature is
/// accepted by the public key of the secret key.
pub fn process_text_sign(msg: &[u8], key: &[u8], format: TextSignFormat) -> (r: Result<
    String,
    TextError,
>)
    ensures
        exists|n: Seq<u8>|
            n.len() == 12 && written_as_text(r, #[trigger] signature_of(format, key@, msg@, n)),
        format != TextSignFormat::Ed25519 && r is Ok ==> verification_of(
            format,
            key@,
            msg@,
            r->Ok_0@,
        ) == Ok::<bool, TextError>(true),
        r matches Ok(t) ==> (url_safe_decode_of(t@) matches Some(b) && exists|n: Seq<u8>|
            n.len() == 12 && #[trigger] signature_of(format, key@, msg@, n) == Ok::<
                Seq<u8>,
                TextError,
            >(b)),
        format == TextSignFormat::Ed25519 && r is Ok ==> signature_check(
            ed25519_public_of(key@.subrange(0, 32)),
            msg@,
            url_safe_decode_of(r->Ok_0@)->Some_0,
        ) == Ok::<bool, TextError>(true),
        format == TextSignFormat::ChaCha20Poly1305 && r is Ok ==> url_safe_decode_of(
            r->Ok_0@,
        )->Some_0.len() == msg@.len() + 28,
{
    let ghost mut nonce: Seq<u8> = Seq::new(12, |i: int| 0u8);
    let signed = match format {
        TextSignFormat::Blake3 => match Blake3::load(key) {
            Ok(signer) => signer.sign(msg),
            Err(e) => Err(e),
        },
        TextSignFormat::ChaCha20Poly1305 => match ChaCha20Poly1305Encryptor::load(key) {
            Ok(signer) => {
                let signed = signer.sign(msg);
                proof {
                    if signed is Ok {
                        nonce = choose|n: Seq<u8>|
                            n.len() == 12 && signed->Ok_0@ == envelope_of(signer@, n, msg@);
                    }
                }
                signed
            },
            Err(e) => Err(e),
        },
        TextSignFormat::Ed25519 => match Ed25519Signer::load(key) {
            Ok(signer) => signer.sign(msg),
            Err(e) => Err(e),
        },
    };
    let r = match signed {
        Ok(signature) => Ok(url_safe_encode(signature.as_slice())),
        Err(e) => Err(e),
    };
    assert(nonce.len() == 12 && written_as_text(r, signature_of(format, key@, msg@, nonce)));
    r
}

/// Decodes the base64 text `signature`, loads the key (the public key for
/// Ed25519) from the key file's contents `key`, and verifies it against
/// `msg`.
pub fn process_text_verify(msg: &[u8], key: &[u8], signature: &str, format: TextSignFormat) -> (r:
    Result<bool, TextError>)
    ensures
        r == verification_of(format, key@, msg@, signature@),
{
    let signature = match url_safe_decode(signature) {
        Some(s) => s,
        None => return Err(TextError::Base64Decode),
    };
    match format {
        TextSignFormat::Blake3 => match Blake3::load(key) {
            Ok(verifier) => verifier.verify(msg, signature.as_slice()),
            Err(e) => Err(e),
        },
        TextSignFormat::ChaCha20Poly1305 => match ChaCha20Poly1305Encryptor::load(key) {
            Ok(verifier) => verifier.verify(msg, signature.as_slice()),
            Err(e) => Err(e),
        },
        TextSignFormat::Ed25519 => match Ed25519Verifier::load(key) {
            Ok(verifier) => verifier.verify(msg, signature.as_slice()),
            Err(e) => Err(e),
        },
    }
}

/// Fresh key material for the format: one key, or a secret key and its
/// public key for Ed25519. It never fails.
pub fn process_text_generate(format: TextSignFormat) -> (r: Result<Vec<Vec<u8>>, TextError>)
    ensures
        r is Ok,
        format == TextSignFormat::Blake3 ==> r->Ok_0@.len() == 1 && password_ok(
            r->Ok_0@[0]@,
            32,
            false,
            false,
            false,
            false,
        ),
        format == TextSignFormat::ChaCha20Poly1305 ==> r->Ok_0@.len() == 1 && r->Ok_0@[0]@.len()
            == 32,
        format == TextSignFormat::Ed25519 ==> {
            &&& r->Ok_0@.len() == 2
            &&& r->Ok_0@[0]@.len() == 32
            &&& r->Ok_0@[1]@.len() == 32
            &&& r->Ok_0@[1]@ == ed25519_public_of(r->Ok_0@[0]@)
            &&& ed25519_key_valid(r->Ok_0@[1]@)
        },
{
    match format {
        TextSignFormat::Blake3 => Blake3::generate(),
        TextSignFormat::ChaCha20Poly1305 => ChaCha20Poly1305Encryptor::generate(),
        TextSignFormat::Ed25519 => Ed25519Signer::generate(),
    }
}

} // verus!
