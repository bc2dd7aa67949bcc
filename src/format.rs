use vstd::prelude::*;

use crate::error::TextError;

verus! {

/// The lower-case form of a text, as Unicode defines it.
pub uninterp spec fn lower_of(s: Seq<char>) -> Seq<char>;

/// Relies on `str::to_lowercase`: the result depends on the characters alone.
#[verifier::external_body]
fn lowercase(s: &str) -> (r: String)
    ensures
        r@ == lower_of(s@),
{
    s.to_lowercase()
}

/// Whether two texts hold the same characters.
pub(crate) fn same_text(a: &String, b: &str) -> (r: bool)
    ensures
        r == (a@ == b@),
{
    let b = b.to_owned();
    *a == b
}

/// The algorithm that signs, verifies and generates keys.
#[derive(Debug, Clone, Copy, PartialEq, Eq, Structural)]
pub enum TextSignFormat {
    Blake3,
    ChaCha20Poly1305,
    Ed25519,
}

/// The format that a lower-case name stands for.
pub open spec fn sign_format_named(name: Seq<char>) -> Option<TextSignFormat> {
    if name == "blake3"@ {
        Some(TextSignFormat::Blake3)
    } else if name == "chacha20poly1305"@ {
        Some(TextSignFormat::ChaCha20Poly1305)
    } else if name == "ed25519"@ {
        Some(TextSignFormat::Ed25519)
    } else {
        None
    }
}

/// The name of a format.
pub open spec fn sign_format_name(f: TextSignFormat) -> Seq<char> {
    match f {
        TextSignFormat::Blake3 => "blake3"@,
        TextSignFormat::ChaCha20Poly1305 => "chacha20poly1305"@,
        TextSignFormat::Ed25519 => "ed25519"@,
    }
}

/// `Ok` of the format, or `InvalidFormat` where there is none.
pub open spec fn format_or_error<F>(f: Option<F>) -> Result<F, TextError> {
    match f {
        Some(f) => Ok(f),
        None => Err(TextError::InvalidFormat),
    }
}

impl TextSignFormat {
    /// The format whose name is exactly `name`.
    pub fn from_lowercase(name: &str) -> (r: Result<Self, TextError>)
        ensures
            r == format_or_error(sign_format_named(name@)),
    {
        let name = name.to_owned();
        if same_text(&name, "blake3") {
            Ok(TextSignFormat::Blake3)
        } else if same_text(&name, "chacha20poly1305") {
            Ok(TextSignFormat::ChaCha20Poly1305)
        } else if same_text(&name, "ed25519") {
            Ok(TextSignFormat::Ed25519)
        } else {
            Err(TextError::InvalidFormat)
        }
    }

    /// The format named by `value`, in any case.
    pub fn parse(value: &str) -> (r: Result<Self, TextError>)
        ensures
            r == format_or_error(sign_format_named(lower_of(value@))),
    {
        let lowered = lowercase(value);
        Self::from_lowercase(lowered.as_str())
    }

    /// The format's name, in lower case.
    pub fn name(self) -> (r: &'static str)
        ensures
            r@ == sign_format_name(self),
    {
        match self {
            TextSignFormat::Blake3 => "blake3",
            TextSignFormat::ChaCha20Poly1305 => "chacha20poly1305",
            TextSignFormat::Ed25519 => "ed25519",
        }
    }
}

/// The alphabet of a base64 text.
#[derive(Debug, Clone, Copy, PartialEq, Eq, Structural)]
pub enum Base64Format {
    /// `+` and `/`, with padding.
    Standard,
    /// `-` and `_`, without padding.
    UrlSafe,
}

/// The base64 format that a lower-case name stands for.
pub open spec fn base64_format_named(name: Seq<char>) -> Option<Base64Format> {
    if name == "standard"@ {
        Some(Base64Format::Standard)
    } else if name == "urlsafe"@ {
        Some(Base64Format::UrlSafe)
    } else {
        None
    }
}

impl Base64Format {
    /// The format whose name is exactly `name`.
    pub fn from_lowercase(name: &str) -> (r: Result<Self, TextError>)
        ensures
            r == format_or_error(base64_format_named(name@)),
    {
        let name = name.to_owned();
        if same_text(&name, "standard") {
            Ok(Base64Format::Standard)
        } else if same_text(&name, "urlsafe") {
            Ok(Base64Format::UrlSafe)
        } else {
            Err(TextError::InvalidFormat)
        }
    }

    /// The format named by `value`, in any case.
    pub fn parse(value: &str) -> (r: Result<Self, TextError>)
        ensures
            r == format_or_error(base64_format_named(lower_of(value@))),
    {
        let lowered = lowercase(value);
        Self::from_lowercase(lowered.as_str())
    }

    /// The format's name, in lower case.
    pub fn name(self) -> (r: &'static str)
        ensures
            r@ == (match self {
                Base64Format::Standard => "standard"@,
                Base64Format::UrlSafe => "urlsafe"@,
            }),
    {
        match self {
            Base64Format::Standard => "standard",
            Base64Format::UrlSafe => "urlsafe",
        }
    }
}

/// The form in which converted records are written.
#[derive(Debug, Clone, Copy, PartialEq, Eq, Structural)]
pub enum OutputFormat {
    Json,
    Yaml,
}

/// The output format that a lower-case name stands for.
pub open spec fn output_format_named(name: Seq<char>) -> Option<OutputFormat> {
    if name == "json"@ {
        Some(OutputFormat::Json)
    } else if name == "yaml"@ {
        Some(OutputFormat::Yaml)
    } else {
        None
    }
}

impl OutputFormat {
    /// The format whose name is exactly `name`.
    pub fn from_lowercase(name: &str) -> (r: Result<Self, TextError>)
        ensures
            r == format_or_error(output_format_named(name@)),
    {
        let name = name.to_owned();
        if same_text(&name, "json") {
            Ok(OutputFormat::Json)
        } else if same_text(&name, "yaml") {
            Ok(OutputFormat::Yaml)
        } else {
            Err(TextError::InvalidFormat)
        }
    }

    /// The format named by `value`, in any case.
    pub fn parse(value: &str) -> (r: Result<Self, TextError>)
        ensures
            r == format_or_error(output_format_named(lower_of(value@))),
    {
        let lowered = lowercase(value);
        Self::from_lowercase(lowered.as_str())
    }

    /// The format's name, in lower case.
    pub fn name(self) -> (r: &'static str)
        ensures
            r@ == (match self {
                OutputFormat::Json => "json"@,
                OutputFormat::Yaml => "yaml"@,
            }),
    {
        match self {
            OutputFormat::Json => "json",
            OutputFormat::Yaml => "yaml",
        }
    }
}

} // verus!
