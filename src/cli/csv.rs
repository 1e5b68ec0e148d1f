//! Options of the csv subcommand.

use vstd::prelude::*;

use super::{ascii_fold_eq, eq_ignore_ascii_case, str_eq_ignore_ascii_case, FormatError};

verus! {

/// The format that csv rows are converted to.
#[derive(Debug, Clone, Copy, PartialEq, Eq, Structural)]
pub enum OutputFormat {
    Json,
    Yaml,
    Toml,
}

impl OutputFormat {
    /// The name that selects this format on the command line, in lowercase.
    pub open spec fn spec_name(self) -> Seq<char> {
        match self {
            OutputFormat::Json => "json"@,
            OutputFormat::Yaml => "yaml"@,
            OutputFormat::Toml => "toml"@,
        }
    }

    pub fn as_str(self) -> (r: &'static str)
        ensures
            r@ == self.spec_name(),
    {
        match self {
            OutputFormat::Json => "json",
            OutputFormat::Yaml => "yaml",
            OutputFormat::Toml => "toml",
        }
    }
}

/// Two lowercase words that start with different letters are never both
/// spelled by one string, whatever its case.
proof fn lemma_first_letters_tell_apart(s: Seq<char>, a: Seq<char>, b: Seq<char>)
    requires
        a.len() > 0,
        b.len() > 0,
        a[0] != b[0],
        'a' <= a[0] <= 'z',
        'a' <= b[0] <= 'z',
    ensures
        !(eq_ignore_ascii_case(s, a) && eq_ignore_ascii_case(s, b)),
{
    if eq_ignore_ascii_case(s, a) && eq_ignore_ascii_case(s, b) {
        assert(ascii_fold_eq(s[0], a[0]));
        assert(ascii_fold_eq(s[0], b[0]));
    }
}

/// Parses `json`, `yaml` or `toml`, in any mix of case.
pub fn parse_format(format: &str) -> (r: Result<OutputFormat, FormatError>)
    ensures
        eq_ignore_ascii_case(format@, "json"@) <==> r == Ok::<OutputFormat, FormatError>(
            OutputFormat::Json,
        ),
        eq_ignore_ascii_case(format@, "yaml"@) <==> r == Ok::<OutputFormat, FormatError>(
            OutputFormat::Yaml,
        ),
        eq_ignore_ascii_case(format@, "toml"@) <==> r == Ok::<OutputFormat, FormatError>(
            OutputFormat::Toml,
        ),
        r is Err ==> r == Err::<OutputFormat, FormatError>(FormatError),
{
    proof {
        reveal_strlit("json");
        reveal_strlit("yaml");
        reveal_strlit("toml");
        lemma_first_letters_tell_apart(format@, "json"@, "yaml"@);
        lemma_first_letters_tell_apart(format@, "json"@, "toml"@);
        lemma_first_letters_tell_apart(format@, "yaml"@, "toml"@);
    }
    if str_eq_ignore_ascii_case(format, "json") {
        Ok(OutputFormat::Json)
    } else if str_eq_ignore_ascii_case(format, "yaml") {
        Ok(OutputFormat::Yaml)
    } else if str_eq_ignore_ascii_case(format, "toml") {
        Ok(OutputFormat::Toml)
    } else {
        Err(FormatError)
    }
}

/// Options of `csv`: the input file, where to write (standard output when
/// absent), the output format, the field delimiter and whether the first row
/// is a header.
#[derive(Debug)]
pub struct CsvOpts {
    pub input: String,
    pub output: Option<String>,
    pub format: OutputFormat,
    pub delimiter: char,
    pub header: bool,
}

} // verus!
