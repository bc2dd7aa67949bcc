use rcli::{
    process_decode, Base64Format,
    process_text_generate, process_text_sign, process_text_verify, Blake3,
    ChaCha20Poly1305Encryptor, Ed25519Signer, Ed25519Verifier, KeyLoader, TextError,
    TextGenerator, TextSign, TextSignFormat, TextVerify,
};

const HELLO_ZERO_KEY: [u8; 32] = [
    247, 13, 103, 83, 3, 56, 36, 106, 101, 34, 234, 233, 218, 173, 146, 192, 223, 212, 188, 244,
    229, 17, 96, 45, 150, 233, 175, 209, 210, 33, 4, 121,
];

fn sample_key() -> Vec<u8> {
    (0u8..32).map(|i| i.wrapping_mul(7).wrapping_add(3)).collect()
}

#[test]
fn test_blake3_sign_verify() {
    let key = sample_key();
    let signer = Blake3::load(&key).unwrap();
    let verifier = Blake3::load(&key).unwrap();
    let data = b"hello world";
    let signature = signer.sign(&data[..]).unwrap();
    assert!(verifier.verify(&data[..], &signature).unwrap());
}

#[test]
fn test_ed25519_sign_verify() {
    let keys = Ed25519Signer::generate().unwrap();
    let signer = Ed25519Signer::load(&keys[0]).unwrap();
    let verifier = Ed25519Verifier::load(&keys[1]).unwrap();
    let data = b"hello world";
    let signature = signer.sign(&data[..]).unwrap();
    assert!(verifier.verify(&data[..], &signature).unwrap());
}

#[test]
fn blake3_zero_key_reference_vector() {
    let signer = Blake3::new([0u8; 32]);
    let signature = signer.sign(b"hello world").unwrap();
    assert_eq!(signature, HELLO_ZERO_KEY.to_vec());
    assert_eq!(signer.sign(b"hello world").unwrap(), signature);
    assert!(signer.verify(b"hello world", &signature).unwrap());
    assert!(!signer.verify(b"hello worlD", &signature).unwrap());
}

#[test]
fn blake3_takes_first_32_bytes_of_a_longer_key() {
    let mut long = vec![0u8; 32];
    long.extend_from_slice(b"trailing bytes");
    let signer = Blake3::try_new(&long).unwrap();
    assert_eq!(signer.sign(b"hello world").unwrap(), HELLO_ZERO_KEY.to_vec());
}

#[test]
fn blake3_tampered_signature_fails() {
    let signer = Blake3::new([9u8; 32]);
    let signature = signer.sign(b"message").unwrap();
    for i in 0..signature.len() {
        let mut bad = signature.clone();
        bad[i] ^= 0x01;
        assert!(!signer.verify(b"message", &bad).unwrap());
    }
    assert!(!signer.verify(b"message", &signature[..31]).unwrap());
}

#[test]
fn chacha_sign_verify_round_trip() {
    let keys = ChaCha20Poly1305Encryptor::generate().unwrap();
    assert_eq!(keys.len(), 1);
    assert_eq!(keys[0].len(), 32);
    let cipher = ChaCha20Poly1305Encryptor::load(&keys[0]).unwrap();
    let envelope = cipher.sign(b"attack at dawn").unwrap();
    assert_eq!(envelope.len(), 14 + 16 + 12);
    assert!(cipher.verify(b"attack at dawn", &envelope).unwrap());
    assert!(!cipher.verify(b"attack at dusk", &envelope).unwrap());
}

#[test]
fn chacha_sign_with_nonce_appends_nonce() {
    let cipher = ChaCha20Poly1305Encryptor::try_new(&sample_key()).unwrap();
    let nonce = [5u8; 12];
    let envelope = cipher.sign_with_nonce(b"", nonce).unwrap();
    assert_eq!(envelope.len(), 28);
    assert_eq!(&envelope[16..], &nonce[..]);
    assert_eq!(cipher.sign_with_nonce(b"", nonce).unwrap(), envelope);
    assert!(cipher.verify(b"", &envelope).unwrap());
}

#[test]
fn chacha_envelopes_differ_but_both_verify() {
    let cipher = ChaCha20Poly1305Encryptor::try_new(&sample_key()).unwrap();
    let first = cipher.sign(b"same message").unwrap();
    let second = cipher.sign(b"same message").unwrap();
    assert_ne!(first, second);
    assert!(cipher.verify(b"same message", &first).unwrap());
    assert!(cipher.verify(b"same message", &second).unwrap());
}

#[test]
fn chacha_tampered_envelope_fails() {
    let cipher = ChaCha20Poly1305Encryptor::try_new(&sample_key()).unwrap();
    let envelope = cipher.sign(b"payload").unwrap();
    for i in 0..envelope.len() {
        let mut bad = envelope.clone();
        bad[i] ^= 0x80;
        assert_eq!(cipher.verify(b"payload", &bad), Ok(false));
    }
}

#[test]
fn chacha_short_envelope_is_an_error() {
    let cipher = ChaCha20Poly1305Encryptor::try_new(&sample_key()).unwrap();
    let envelope = cipher.sign(b"payload").unwrap();
    for len in 0..12 {
        assert_eq!(
            cipher.verify(b"payload", &envelope[..len]),
            Err(TextError::InvalidSignatureLength)
        );
    }
    assert_eq!(cipher.verify(b"payload", &envelope[..12]), Ok(false));
}

#[test]
fn ed25519_keypair_scenario() {
    let keys = process_text_generate(TextSignFormat::Ed25519).unwrap();
    assert_eq!(keys.len(), 2);
    assert_eq!(keys[0].len(), 32);
    assert_eq!(keys[1].len(), 32);
    let signer = Ed25519Signer::try_new(&keys[0]).unwrap();
    let signature = signer.sign(b"abc").unwrap();
    assert_eq!(signature.len(), 64);
    assert_ne!(signature[..3], b"abc"[..]);
    let verifier = Ed25519Verifier::try_new(&keys[1]).unwrap();
    assert!(verifier.verify(b"abc", &signature).unwrap());
    assert!(signer.verifying_key().verify(b"abc", &signature).unwrap());
    let other = process_text_generate(TextSignFormat::Ed25519).unwrap();
    let stranger = Ed25519Verifier::try_new(&other[1]).unwrap();
    assert!(!stranger.verify(b"abc", &signature).unwrap());
}

#[test]
fn ed25519_tampered_signature_fails() {
    let signer = Ed25519Signer::new([42u8; 32]);
    let verifier = signer.verifying_key();
    let signature = signer.sign(b"abc").unwrap();
    assert_eq!(signer.sign(b"abc").unwrap(), signature);
    for i in 0..signature.len() {
        let mut bad = signature.clone();
        bad[i] ^= 0x04;
        assert_eq!(verifier.verify(b"abc", &bad), Ok(false));
    }
}

#[test]
fn ed25519_signature_of_wrong_length_is_an_error() {
    let signer = Ed25519Signer::new([1u8; 32]);
    let verifier = signer.verifying_key();
    let signature = signer.sign(b"abc").unwrap();
    assert_eq!(
        verifier.verify(b"abc", &signature[..63]),
        Err(TextError::InvalidSignatureLength)
    );
    let mut longer = signature.clone();
    longer.push(0);
    assert_eq!(
        verifier.verify(b"abc", &longer),
        Err(TextError::InvalidSignatureLength)
    );
}

#[test]
fn ed25519_public_key_off_the_curve_is_refused() {
    let mut bytes = [0u8; 32];
    bytes[0] = 2;
    assert!(matches!(
        Ed25519Verifier::try_new(&bytes),
        Err(TextError::InvalidPublicKey)
    ));
}

#[test]
fn short_key_is_refused_by_every_algorithm() {
    let short = [7u8; 31];
    assert!(matches!(Blake3::try_new(&short), Err(TextError::KeyTooShort)));
    assert!(matches!(Blake3::load(&short), Err(TextError::KeyTooShort)));
    assert!(matches!(
        ChaCha20Poly1305Encryptor::load(&short),
        Err(TextError::KeyTooShort)
    ));
    assert!(matches!(Ed25519Signer::load(&short), Err(TextError::KeyTooShort)));
    assert!(matches!(Ed25519Verifier::load(&short), Err(TextError::KeyTooShort)));
    assert!(matches!(Blake3::load(&[]), Err(TextError::KeyTooShort)));
    for format in [
        TextSignFormat::Blake3,
        TextSignFormat::ChaCha20Poly1305,
        TextSignFormat::Ed25519,
    ] {
        assert_eq!(
            process_text_sign(b"hello", &short, format),
            Err(TextError::KeyTooShort)
        );
        assert_eq!(
            process_text_verify(b"hello", &short, "AAAA", format),
            Err(TextError::KeyTooShort)
        );
    }
}

#[test]
fn text_sign_is_url_safe_base64() {
    let text = process_text_sign(b"hello world", &[0u8; 32], TextSignFormat::Blake3).unwrap();
    assert_eq!(text, "9w1nUwM4JGplIurp2q2SwN_UvPTlEWAtlumv0dIhBHk");
    assert_eq!(
        process_text_verify(b"hello world", &[0u8; 32], &text, TextSignFormat::Blake3),
        Ok(true)
    );
    assert_eq!(
        process_text_verify(b"hello worlD", &[0u8; 32], &text, TextSignFormat::Blake3),
        Ok(false)
    );
}

#[test]
fn text_round_trip_for_every_format() {
    let msg = b"the quick brown fox";
    for format in [TextSignFormat::Blake3, TextSignFormat::ChaCha20Poly1305] {
        let keys = process_text_generate(format).unwrap();
        assert_eq!(keys.len(), 1);
        let text = process_text_sign(msg, &keys[0], format).unwrap();
        assert_eq!(process_text_verify(msg, &keys[0], &text, format), Ok(true));
        assert_eq!(process_text_verify(b"other", &keys[0], &text, format), Ok(false));
    }
    let keys = process_text_generate(TextSignFormat::Ed25519).unwrap();
    let text = process_text_sign(msg, &keys[0], TextSignFormat::Ed25519).unwrap();
    assert_eq!(
        process_text_verify(msg, &keys[1], &text, TextSignFormat::Ed25519),
        Ok(true)
    );
}

#[test]
fn text_verify_rejects_bad_base64() {
    assert_eq!(
        process_text_verify(b"x", &[0u8; 32], "not base64!", TextSignFormat::Blake3),
        Err(TextError::Base64Decode)
    );
    assert_eq!(
        process_text_verify(b"x", &[0u8; 31], "a+b=", TextSignFormat::Blake3),
        Err(TextError::Base64Decode)
    );
}

#[test]
fn generated_keyed_hash_key_uses_password_alphabet() {
    let keys = process_text_generate(TextSignFormat::Blake3).unwrap();
    assert_eq!(keys.len(), 1);
    assert_eq!(keys[0].len(), 32);
    assert!(keys[0].iter().all(|b| b.is_ascii_graphic()));
    let full = Blake3::generate_full_range();
    assert_eq!(full.len(), 1);
    assert_eq!(full[0].len(), 32);
}

#[test]
fn text_signature_decodes_to_its_bytes() {
    let msg = b"twelve bytes";
    let key = sample_key();
    let text = process_text_sign(msg, &key, TextSignFormat::ChaCha20Poly1305).unwrap();
    let envelope = process_decode(&text, Base64Format::UrlSafe).unwrap();
    assert_eq!(envelope.len(), msg.len() + 28);
    let keys = process_text_generate(TextSignFormat::Ed25519).unwrap();
    let text = process_text_sign(msg, &keys[0], TextSignFormat::Ed25519).unwrap();
    assert_eq!(text.len(), 86);
    let signature = process_decode(&text, Base64Format::UrlSafe).unwrap();
    let signer = Ed25519Signer::try_new(&keys[0]).unwrap();
    assert_eq!(signature, signer.sign(msg).unwrap());
}
