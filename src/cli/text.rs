//! Options of the text subcommands, and the choice of signing scheme.

use vstd::prelude::*;

use super::{str_eq, FormatError};

verus! {

/// The signing scheme: the BLAKE3 keyed hash, or Ed25519 signatures.
#[derive(Debug, Clone, Copy, PartialEq, Eq, Structural)]
pub enum SignFormat {
    Blake3,
    Ed25519,
}

impl SignFormat {
    /// The name that selects this scheme on the command line.
    pub open spec fn spec_name(self) -> Seq<char> {
        match self {
            SignFormat::Blake3 => "blake3"@,
            SignFormat::Ed25519 => "ed25519"@,
        }
    }

    pub fn as_str(self) -> (r: &'static str)
        ensures
            r@ == self.spec_name(),
    {
        match self {
            SignFormat::Blake3 => "blake3",
            SignFormat::Ed25519 => "ed25519",
        }
    }
}

/// Parses `blake3` or `ed25519`, exactly as written.
pub fn parse_format(format: &str) -> (r: Result<SignFormat, FormatError>)
    ensures
        format@ == "blake3"@ <==> r == Ok::<SignFormat, FormatError>(SignFormat::Blake3),
        format@ == "ed25519"@ <==> r == Ok::<SignFormat, FormatError>(SignFormat::Ed25519),
        r is Err ==> r == Err::<SignFormat, FormatError>(FormatError),
{
    proof {
        reveal_strlit("blake3");
        reveal_strlit("ed25519");
        assert("blake3"@[0] != "ed25519"@[0]);
    }
    if str_eq(format, "blake3") {
        Ok(SignFormat::Blake3)
    } else if str_eq(format, "ed25519") {
        Ok(SignFormat::Ed25519)
    } else {
        Err(FormatError)
    }
}

/// The names of the files that `text generate` writes the generated keys to,
/// in the order of the keys.
pub open spec fn spec_key_file_names(format: SignFormat) -> Seq<Seq<char>> {
    match format {
        SignFormat::Blake3 => seq!["blake3.txt"@],
        SignFormat::Ed25519 => seq!["ed25519.sk"@, "ed25519.pk"@],
    }
}

/// Options of `text sign`: the message (`-` for standard input), the key file
/// and the scheme.
#[derive(Debug)]
pub struct SignOpts {
    pub input: String,
    pub key: String,
    pub format: SignFormat,
}

/// Options of `text verify`: the message, the key file, the signature in
/// URL-safe base64 without padding, and the scheme.
#[derive(Debug)]
pub struct VerifyOpts {
    pub input: String,
    pub key: String,
    pub sig: String,
    pub format: SignFormat,
}

/// Options of `text generate`: the scheme, and the directory that receives
/// the key files.
#[derive(Debug)]
pub struct GenerateOpts {
    pub format: SignFormat,
    pub output: String,
}

impl GenerateOpts {
    /// The names of the key files, one for each generated key and in the same
    /// order: `blake3.txt` for the keyed hash; `ed25519.sk` for the signing
    /// seed and `ed25519.pk` for the verifying key.
    pub fn key_file_names(&self) -> (r: Vec<&'static str>)
        ensures
            r@.len() == spec_key_file_names(self.format).len(),
            forall|i: int|
                0 <= i < r@.len() ==> (#[trigger] r@[i])@ == spec_key_file_names(self.format)[i],
    {
        match self.format {
            SignFormat::Blake3 => vec!["blake3.txt"],
            SignFormat::Ed25519 => vec!["ed25519.sk", "ed25519.pk"],
        }
    }
}

/// The text subcommands.
#[derive(Debug)]
pub enum TextSubCommand {
    Sign(SignOpts),
    Verify(VerifyOpts),
    Generate(GenerateOpts),
}

} // verus!
