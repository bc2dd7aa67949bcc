//! Sign, verify and key generation over three algorithms (a keyed hash, an
//! AEAD envelope and an Ed25519 signature), with the password generator that
//! also feeds keyed-hash keys.

pub mod aead;
pub mod b64;
pub mod error;
pub mod format;
pub mod input;
pub mod key;
pub mod listing;
pub mod opts;
pub mod keyed_hash;
pub mod password;
pub mod signature;
pub mod text;
pub mod traits;

pub use aead::ChaCha20Poly1305Encryptor;
pub use b64::{process_decode, process_encode};
pub use error::TextError;
pub use format::{Base64Format, OutputFormat, TextSignFormat};
pub use input::{accept_input, verify_input_file};
pub use keyed_hash::Blake3;
pub use signature::{Ed25519Signer, Ed25519Verifier};
pub use text::{process_text_generate, process_text_sign, process_text_verify};
pub use password::{generate_password, process_generate, process_genpass, CharClass};
pub use traits::{KeyLoader, TextGenerator, TextSign, TextVerify};
pub use opts::{
    Base64DecodeOpts, Base64EncodeOpts, Base64SubCommand, GenPassOpts, TextGenerateOpts,
    TextSignOpts, TextSubCommand, TextVerifyOpts,
};
