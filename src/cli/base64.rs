//! Options of the base64 subcommands.

use vstd::prelude::*;

use super::{str_eq, FormatError};

verus! {

/// Which base64 alphabet: the standard one with padding, or the URL-safe one
/// without padding.
#[derive(Debug, Clone, Copy, PartialEq, Eq, Structural)]
pub enum Base64Format {
    Standard,
    UrlSafe,
}

impl Base64Format {
    /// The name that selects this format on the command line.
    pub open spec fn spec_name(self) -> Seq<char> {
        match self {
            Base64Format::Standard => "standard"@,
            Base64Format::UrlSafe => "urlsafe"@,
        }
    }

    pub fn as_str(self) -> (r: &'static str)
        ensures
            r@ == self.spec_name(),
    {
        match self {
            Base64Format::Standard => "standard",
            Base64Format::UrlSafe => "urlsafe",
        }
    }
}

/// Parses `standard` or `urlsafe`, exactly as written.
pub fn format_parser(format: &str) -> (r: Result<Base64Format, FormatError>)
    ensures
        format@ == "standard"@ <==> r == Ok::<Base64Format, FormatError>(Base64Format::Standard),
        format@ == "urlsafe"@ <==> r == Ok::<Base64Format, FormatError>(Base64Format::UrlSafe),
        r is Err ==> r == Err::<Base64Format, FormatError>(FormatError),
{
    proof {
        reveal_strlit("standard");
        reveal_strlit("urlsafe");
        assert("standard"@[0] != "urlsafe"@[0]);
    }
    if str_eq(format, "standard") {
        Ok(Base64Format::Standard)
    } else if str_eq(format, "urlsafe") {
        Ok(Base64Format::UrlSafe)
    } else {
        Err(FormatError)
    }
}

/// Options of `base64 encode`: the input (`-` for standard input) and the alphabet.
#[derive(Debug)]
pub struct Base64EncodeOpts {
    pub input: String,
    pub format: Base64Format,
}

/// Options of `base64 decode`: the input (`-` for standard input) and the alphabet.
#[derive(Debug)]
pub struct Base64DecodeOpts {
    pub input: String,
    pub format: Base64Format,
}

/// The base64 subcommands.
#[derive(Debug)]
pub enum Base64SubCommand {
    Encode(Base64EncodeOpts),
    Decode(Base64DecodeOpts),
}

} // verus!
