use vstd::prelude::*;

use crate::error::TextError;
use crate::format::{Base64Format, TextSignFormat};
use crate::password::{chars_of, password_ok, password_refused, process_genpass};

verus! {

/// Options of password generation.
#[derive(Debug)]
pub struct GenPassOpts {
    pub length: u8,
    pub no_upper: bool,
    pub no_lower: bool,
    pub no_number: bool,
    pub no_symbol: bool,
}

impl GenPassOpts {
    /// A password under these options.
    pub fn generate(&self) -> (r: Result<String, TextError>)
        ensures
            password_refused(self.length, self.no_upper, self.no_lower, self.no_number, self.no_symbol)
                <==> r is Err,
            r is Err ==> r == Err::<String, TextError>(TextError::InvalidPasswordLength),
            r matches Ok(s) ==> exists|p: Seq<u8>|
                password_ok(p, self.length, self.no_upper, self.no_lower, self.no_number, self.no_symbol)
                    && s@ == chars_of(p),
    {
        process_genpass(self.length, self.no_upper, self.no_lower, self.no_number, self.no_symbol)
    }
}

/// Options of base64 encoding: the input path (`-` for standard input).
#[derive(Debug)]
pub struct Base64EncodeOpts {
    pub input: String,
    pub output: Option<String>,
    pub format: Base64Format,
}

/// Options of base64 decoding: the input path (`-` for standard input).
#[derive(Debug)]
pub struct Base64DecodeOpts {
    pub input: String,
    pub output: Option<String>,
    pub format: Base64Format,
}

/// The base64 commands.
#[derive(Debug)]
pub enum Base64SubCommand {
    Encode(Base64EncodeOpts),
    Decode(Base64DecodeOpts),
}

/// Options of signing: the message path (`-` for standard input) and the key
/// path.
#[derive(Debug)]
pub struct TextSignOpts {
    pub input: String,
    pub key: String,
    pub format: TextSignFormat,
}

/// Options of verifying: the message path, the key path and the signature
/// text.
#[derive(Debug)]
pub struct TextVerifyOpts {
    pub input: String,
    pub key: String,
    pub signature: String,
    pub format: TextSignFormat,
}

/// Options of key generation: the format and the directory the key files go
/// to.
#[derive(Debug)]
pub struct TextGenerateOpts {
    pub format: TextSignFormat,
    pub output: String,
}

/// The signing commands.
#[derive(Debug)]
pub enum TextSubCommand {
    Sign(TextSignOpts),
    Verify(TextVerifyOpts),
    Generate(TextGenerateOpts),
}

/// The file names of the buffers that key generation returns, in the same
/// order.
pub open spec fn key_file_names_of(format: TextSignFormat) -> Seq<Seq<char>> {
    match format {
        TextSignFormat::Blake3 => seq!["blake3.key"@],
        TextSignFormat::ChaCha20Poly1305 => seq!["chacha20poly1305.key"@],
        TextSignFormat::Ed25519 => seq!["ed25519.sk"@, "ed25519.pk"@],
    }
}

impl TextGenerateOpts {
    /// Where each generated buffer is written: `<format>.key` for a single
    /// key, `<format>.sk` and `<format>.pk` for a key pair.
    pub fn key_file_names(&self) -> (r: Vec<String>)
        ensures
            r@.len() == key_file_names_of(self.format).len(),
            forall|i: int| 0 <= i < r@.len() ==> #[trigger] r@[i]@ == key_file_names_of(self.format)[i],
    {
        let mut r: Vec<String> = Vec::new();
        match self.format {
            TextSignFormat::Blake3 => {
                r.push("blake3.key".to_owned());
            },
            TextSignFormat::ChaCha20Poly1305 => {
                r.push("chacha20poly1305.key".to_owned());
            },
            TextSignFormat::Ed25519 => {
                r.push("ed25519.sk".to_owned());
                r.push("ed25519.pk".to_owned());
            },
        }
        r
    }
}

} // verus!
