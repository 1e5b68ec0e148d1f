//! The command line's options as plain values, the parsers of its format
//! names, and the checks of the paths it is given.

mod base64;
mod chacha20;
mod csv;
mod genpass;
mod http;
mod text;

use vstd::prelude::*;

pub use self::base64::{
    format_parser, Base64DecodeOpts, Base64EncodeOpts, Base64Format, Base64SubCommand,
};
pub use self::chacha20::{ChaCha20GenerateOpts, ChaCha20Opts, ChaCha20SubCommand};
pub use self::csv::{parse_format as parse_output_format, CsvOpts, OutputFormat};
pub use self::genpass::{GenPassOpts};
pub use self::http::{HttpServeOpts, HttpSubcommand};
pub use self::text::{
    parse_format, spec_key_file_names, GenerateOpts, SignFormat, SignOpts, TextSubCommand,
    VerifyOpts,
};

verus! {

/// The parsed command line.
#[derive(Debug)]
pub struct Cli {
    pub cmd: SubCommand,
}

/// The subcommands.
#[derive(Debug)]
pub enum SubCommand {
    Csv(CsvOpts),
    GenPass(GenPassOpts),
    Base64(Base64SubCommand),
    Text(TextSubCommand),
    ChaCha20(ChaCha20SubCommand),
    Http(HttpSubcommand),
}

/// A name that no format of the option answers to.
#[derive(Debug, Clone, Copy, PartialEq, Eq, Structural)]
pub struct FormatError;

/// Whether two strings hold the same characters.
pub fn str_eq(s: &str, t: &str) -> (r: bool)
    ensures
        r == (s@ == t@),
{
    let n = s.unicode_len();
    if n != t.unicode_len() {
        return false;
    }
    let mut i: usize = 0;
    while i < n
        invariant
            i <= n,
            n == s@.len(),
            n == t@.len(),
            forall|j: int| 0 <= j < i ==> s@[j] == t@[j],
        decreases n - i,
    {
        if s.get_char(i) != t.get_char(i) {
            return false;
        }
        i = i + 1;
    }
    assert(s@ =~= t@);
    true
}

/// Whether `c` equals the lowercase ASCII letter or other character `lower`
/// once ASCII uppercase letters are taken as lowercase.
pub open spec fn ascii_fold_eq(c: char, lower: char) -> bool {
    c == lower || ('a' <= lower <= 'z' && c as u32 + 32 == lower as u32)
}

/// Whether `s` spells `lower` with any mix of ASCII case.
pub open spec fn eq_ignore_ascii_case(s: Seq<char>, lower: Seq<char>) -> bool {
    &&& s.len() == lower.len()
    &&& forall|j: int| 0 <= j < s.len() ==> ascii_fold_eq(#[trigger] s[j], lower[j])
}

/// Whether `s` spells the lowercase word `lower` with any mix of ASCII case.
pub fn str_eq_ignore_ascii_case(s: &str, lower: &str) -> (r: bool)
    ensures
        r == eq_ignore_ascii_case(s@, lower@),
{
    let n = s.unicode_len();
    if n != lower.unicode_len() {
        return false;
    }
    let mut i: usize = 0;
    while i < n
        invariant
            i <= n,
            n == s@.len(),
            n == lower@.len(),
            forall|j: int| 0 <= j < i ==> ascii_fold_eq(#[trigger] s@[j], lower@[j]),
        decreases n - i,
    {
        let c = s.get_char(i);
        let l = lower.get_char(i);
        let same = c == l || ('a' <= l && l <= 'z' && (c as u32) + 32 == l as u32);
        if !same {
            return false;
        }
        i = i + 1;
    }
    true
}

/// The message of a rejected input file.
pub open spec fn file_missing_message() -> Seq<char> {
    "File does not exists"@
}

/// The message of a rejected directory.
pub open spec fn invalid_path_message() -> Seq<char> {
    "You provided a invalid path!"@
}

/// Relies on std::path::Path::exists: whether the filesystem holds an entry
/// at `path` at the moment of the call, of which nothing is promised.
#[verifier::external_body]
fn path_exists(path: &str) -> (r: bool) {
    std::path::Path::new(path).exists()
}

/// Relies on std::path::Path::is_dir: whether the filesystem holds a
/// directory at `path` at the moment of the call, of which nothing is promised.
#[verifier::external_body]
fn path_is_dir(path: &str) -> (r: bool) {
    std::path::Path::new(path).is_dir()
}

/// Accepts an input name: `-` for standard input, or the name of a file that
/// `exists` says is there.
pub fn accept_input_file(filename: &str, exists: bool) -> (r: Result<String, String>)
    ensures
        r is Ok <==> filename@ == "-"@ || exists,
        r matches Ok(name) ==> name@ == filename@,
        r matches Err(msg) ==> msg@ == file_missing_message(),
{
    if str_eq(filename, "-") || exists {
        Ok(filename.to_owned())
    } else {
        Err("File does not exists".to_owned())
    }
}

/// Accepts `-` for standard input, or the name of an existing file.
pub fn verify_file(filename: &str) -> (r: Result<String, String>)
    ensures
        filename@ == "-"@ ==> r is Ok,
        r matches Ok(name) ==> name@ == filename@,
        r matches Err(msg) ==> msg@ == file_missing_message() && filename@ != "-"@,
{
    let exists = path_exists(filename);
    accept_input_file(filename, exists)
}

/// Accepts the name of a file that `exists` says is there; `-` is no file here.
pub fn accept_existing_file(filename: &str, exists: bool) -> (r: Result<String, String>)
    ensures
        r is Ok <==> exists,
        r matches Ok(name) ==> name@ == filename@,
        r matches Err(msg) ==> msg@ == file_missing_message(),
{
    if exists {
        Ok(filename.to_owned())
    } else {
        Err("File does not exists".to_owned())
    }
}

/// Accepts the name of an existing file; `-` is no file here.
pub fn verify_input_file(filename: &str) -> (r: Result<String, String>)
    ensures
        r matches Ok(name) ==> name@ == filename@,
        r matches Err(msg) ==> msg@ == file_missing_message(),
{
    let exists = path_exists(filename);
    accept_existing_file(filename, exists)
}

/// Accepts a directory path when `exists` and `is_dir` both hold of it.
pub fn accept_dir(path: &str, exists: bool, is_dir: bool) -> (r: Result<String, &'static str>)
    ensures
        r is Ok <==> exists && is_dir,
        r matches Ok(p) ==> p@ == path@,
        r matches Err(msg) ==> msg@ == invalid_path_message(),
{
    if exists && is_dir {
        Ok(path.to_owned())
    } else {
        Err("You provided a invalid path!")
    }
}

/// Accepts the path of an existing directory.
pub fn verify_path(path: &str) -> (r: Result<String, &'static str>)
    ensures
        r matches Ok(p) ==> p@ == path@,
        r matches Err(msg) ==> msg@ == invalid_path_message(),
{
    let exists = path_exists(path);
    let is_dir = path_is_dir(path);
    accept_dir(path, exists, is_dir)
}

} // verus!
