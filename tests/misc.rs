use rcli::listing::{format_filename, indent, within_depth};
use rcli::{
    accept_input, generate_password, process_decode, process_encode, process_generate, process_genpass,
    verify_input_file, Base64Format, GenPassOpts, OutputFormat, TextError, TextGenerateOpts,
    TextSignFormat,
};

const UPPER: &[u8] = b"ABCDEFGHJKLMNPQRSTUVWXYZ";
const LOWER: &[u8] = b"abcdefghijkmnopqrstuvwxyz";
const NUMBER: &[u8] = b"123456789";
const SYMBOL: &[u8] = b"@#$%^&*_+=.";

#[test]
fn test_verify_input_file() {
    assert_eq!(verify_input_file("src/lib.rs"), Ok("src/lib.rs".into()));
    assert_eq!(verify_input_file("-"), Ok("-".into()));
    assert_eq!(verify_input_file("*"), Err("Input file does not exist"));
    assert_eq!(
        verify_input_file("not-exist"),
        Err("Input file does not exist")
    );
}

#[test]
fn test_process_standard() {
    let input = b"[package]\nname = \"rcli\"\n";
    assert!(!process_encode(input, Base64Format::Standard).is_empty());
    let encoded = process_encode(input, Base64Format::Standard);
    assert_eq!(process_decode(&encoded, Base64Format::Standard), Ok(input.to_vec()));
}

#[test]
fn test_process_urlsafe() {
    let input = b"[package]\nname = \"rcli\"\n";
    let encoded = process_encode(input, Base64Format::UrlSafe);
    assert_eq!(process_decode(&encoded, Base64Format::UrlSafe), Ok(input.to_vec()));
}

#[test]
fn base64_known_vectors() {
    assert_eq!(process_encode(b"hello", Base64Format::Standard), "aGVsbG8=");
    assert_eq!(process_encode(b"hello", Base64Format::UrlSafe), "aGVsbG8");
    assert_eq!(process_encode(&[0xfb, 0xff], Base64Format::Standard), "+/8=");
    assert_eq!(process_encode(&[0xfb, 0xff], Base64Format::UrlSafe), "-_8");
    assert_eq!(process_encode(b"", Base64Format::Standard), "");
    assert_eq!(process_decode("aGVsbG8=", Base64Format::Standard), Ok(b"hello".to_vec()));
    assert_eq!(process_decode("-_8", Base64Format::UrlSafe), Ok(vec![0xfb, 0xff]));
    assert_eq!(process_decode("-_8", Base64Format::Standard), Err(TextError::Base64Decode));
    assert_eq!(process_decode("+/8=", Base64Format::UrlSafe), Err(TextError::Base64Decode));
}

fn has_any(p: &[u8], class: &[u8]) -> bool {
    p.iter().any(|b| class.contains(b))
}

#[test]
fn password_of_sixteen_has_every_class() {
    for _ in 0..50 {
        let p = generate_password(16, false, false, false, false).unwrap();
        assert_eq!(p.len(), 16);
        assert!(has_any(&p, UPPER));
        assert!(has_any(&p, LOWER));
        assert!(has_any(&p, NUMBER));
        assert!(has_any(&p, SYMBOL));
        assert!(p
            .iter()
            .all(|b| UPPER.contains(b) || LOWER.contains(b) || NUMBER.contains(b) || SYMBOL.contains(b)));
    }
}

#[test]
fn password_keeps_excluded_classes_out() {
    for _ in 0..50 {
        let p = generate_password(20, true, false, true, false).unwrap();
        assert_eq!(p.len(), 20);
        assert!(!has_any(&p, UPPER));
        assert!(!has_any(&p, NUMBER));
        assert!(has_any(&p, LOWER));
        assert!(has_any(&p, SYMBOL));
    }
    let p = generate_password(4, false, true, true, true).unwrap();
    assert!(p.iter().all(|b| UPPER.contains(b)));
}

#[test]
fn password_longer_than_the_pool() {
    let p = generate_password(255, false, false, false, false).unwrap();
    assert_eq!(p.len(), 255);
    let p = generate_password(100, true, true, false, true).unwrap();
    assert!(p.iter().all(|b| NUMBER.contains(b)));
}

#[test]
fn password_too_short_or_empty_pool_fails() {
    for flags in [
        (false, false, false, false),
        (true, false, false, false),
        (true, true, true, false),
    ] {
        assert_eq!(
            generate_password(3, flags.0, flags.1, flags.2, flags.3),
            Err(TextError::InvalidPasswordLength)
        );
    }
    assert_eq!(
        generate_password(0, false, false, false, false),
        Err(TextError::InvalidPasswordLength)
    );
    assert_eq!(
        generate_password(16, true, true, true, true),
        Err(TextError::InvalidPasswordLength)
    );
    assert_eq!(process_genpass(3, false, false, false, false), Err(TextError::InvalidPasswordLength));
}

#[test]
fn genpass_text_is_the_password() {
    let s = process_genpass(16, false, false, false, false).unwrap();
    assert_eq!(s.len(), 16);
    assert!(has_any(s.as_bytes(), UPPER));
    assert!(has_any(s.as_bytes(), SYMBOL));
    let secret = process_generate(32).unwrap();
    assert_eq!(secret.len(), 32);
    assert_eq!(process_generate(2), Err(TextError::InvalidPasswordLength));
}

#[test]
fn format_names_parse_in_any_case() {
    assert_eq!(TextSignFormat::parse("ED25519"), Ok(TextSignFormat::Ed25519));
    assert_eq!(TextSignFormat::parse("Blake3"), Ok(TextSignFormat::Blake3));
    assert_eq!(
        TextSignFormat::parse("ChaCha20Poly1305"),
        Ok(TextSignFormat::ChaCha20Poly1305)
    );
    assert_eq!(TextSignFormat::parse("rsa"), Err(TextError::InvalidFormat));
    assert_eq!(TextSignFormat::from_lowercase("BLAKE3"), Err(TextError::InvalidFormat));
    assert_eq!(TextSignFormat::Ed25519.name(), "ed25519");
    assert_eq!(TextSignFormat::ChaCha20Poly1305.name(), "chacha20poly1305");
    assert_eq!(Base64Format::parse("URLSAFE"), Ok(Base64Format::UrlSafe));
    assert_eq!(Base64Format::parse("standard"), Ok(Base64Format::Standard));
    assert_eq!(Base64Format::parse("hex"), Err(TextError::InvalidFormat));
    assert_eq!(Base64Format::UrlSafe.name(), "urlsafe");
    assert_eq!(OutputFormat::parse("JSON"), Ok(OutputFormat::Json));
    assert_eq!(OutputFormat::parse("yaml"), Ok(OutputFormat::Yaml));
    assert_eq!(OutputFormat::parse("toml"), Err(TextError::InvalidFormat));
    assert_eq!(OutputFormat::Yaml.name(), "yaml");
}

#[test]
fn key_files_are_named_by_format() {
    let opts = TextGenerateOpts {
        format: TextSignFormat::Ed25519,
        output: "keys".to_string(),
    };
    assert_eq!(opts.key_file_names(), vec!["ed25519.sk".to_string(), "ed25519.pk".to_string()]);
    let opts = TextGenerateOpts {
        format: TextSignFormat::Blake3,
        output: ".".to_string(),
    };
    assert_eq!(opts.key_file_names(), vec!["blake3.key".to_string()]);
    let opts = TextGenerateOpts {
        format: TextSignFormat::ChaCha20Poly1305,
        output: ".".to_string(),
    };
    assert_eq!(opts.key_file_names(), vec!["chacha20poly1305.key".to_string()]);
}

#[test]
fn genpass_opts_generate() {
    let opts = GenPassOpts {
        length: 12,
        no_upper: false,
        no_lower: true,
        no_number: false,
        no_symbol: true,
    };
    let s = opts.generate().unwrap();
    assert_eq!(s.len(), 12);
    assert!(!has_any(s.as_bytes(), LOWER));
    let bad = GenPassOpts { length: 3, ..opts };
    assert_eq!(bad.generate(), Err(TextError::InvalidPasswordLength));
}

#[test]
fn listing_lines() {
    assert_eq!(indent(0), "");
    assert_eq!(indent(2), "    ");
    assert_eq!(format_filename("Cargo.toml", "  "), "  |--Cargo.toml\n");
    assert_eq!(format_filename("src", ""), "|--src\n");
    assert!(within_depth(5, 0));
    assert!(within_depth(2, 2));
    assert!(!within_depth(3, 2));
}

#[test]
fn accept_input_follows_the_existence_answer() {
    assert_eq!(accept_input("Cargo.toml", true), Ok("Cargo.toml".into()));
    assert_eq!(accept_input("-", false), Ok("-".into()));
    assert_eq!(accept_input("not-exist", false), Err("Input file does not exist"));
}
