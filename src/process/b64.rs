//! Base64 text of byte strings, in the standard alphabet with padding or the
//! URL-safe alphabet without.

use vstd::prelude::*;
use vstd::utf8::encode_utf8;

use base64::Engine;

use crate::cli::Base64Format;

verus! {

/// The base64 digit of the 6-bit value `v` (RFC 4648): `A`-`Z`, `a`-`z`,
/// `0`-`9`, then `+` and `/` in the standard alphabet or `-` and `_` in the
/// URL-safe one.
pub open spec fn base64_digit(v: int, url_safe: bool) -> char {
    if v < 26 {
        (65 + v) as char
    } else if v < 52 {
        (97 + v - 26) as char
    } else if v < 62 {
        (48 + v - 52) as char
    } else if v == 62 {
        if url_safe { '-' } else { '+' }
    } else {
        if url_safe { '_' } else { '/' }
    }
}

/// The base64 text of `bytes`: each group of three bytes gives four digits of
/// six bits each; a last group of one or two bytes gives two or three digits,
/// padded with `=` to four when `pad` holds.
pub open spec fn base64_text(bytes: Seq<u8>, url_safe: bool, pad: bool) -> Seq<char>
    decreases bytes.len(),
{
    if bytes.len() == 0 {
        seq![]
    } else if bytes.len() == 1 {
        let b0 = bytes[0] as int;
        seq![base64_digit(b0 / 4, url_safe), base64_digit((b0 % 4) * 16, url_safe)] + if pad {
            seq!['=', '=']
        } else {
            seq![]
        }
    } else if bytes.len() == 2 {
        let b0 = bytes[0] as int;
        let b1 = bytes[1] as int;
        seq![
            base64_digit(b0 / 4, url_safe),
            base64_digit((b0 % 4) * 16 + b1 / 16, url_safe),
            base64_digit((b1 % 16) * 4, url_safe),
        ] + if pad {
            seq!['=']
        } else {
            seq![]
        }
    } else {
        let b0 = bytes[0] as int;
        let b1 = bytes[1] as int;
        let b2 = bytes[2] as int;
        seq![
            base64_digit(b0 / 4, url_safe),
            base64_digit((b0 % 4) * 16 + b1 / 16, url_safe),
            base64_digit((b1 % 16) * 4 + b2 / 64, url_safe),
            base64_digit(b2 % 64, url_safe),
        ] + base64_text(bytes.skip(3), url_safe, pad)
    }
}

/// The bytes that standard base64 text decodes to, or None when it is no
/// such text.
pub uninterp spec fn base64_standard_decoded(text: Seq<u8>) -> Option<Seq<u8>>;

/// The bytes that URL-safe unpadded base64 text decodes to, or None when it
/// is no such text.
pub uninterp spec fn base64_url_safe_decoded(text: Seq<u8>) -> Option<Seq<u8>>;

#[verifier::external_type_specification]
#[verifier::external_body]
pub struct ExDecodeError(base64::DecodeError);

/// Relies on base64's Engine::encode with the STANDARD engine: the standard
/// alphabet with padding. Its buffer size is computed with checked arithmetic
/// that cannot overflow for inputs of at most half the address space.
#[verifier::external_body]
fn encode_standard(bytes: &[u8]) -> (r: String)
    requires
        bytes@.len() <= usize::MAX / 2,
    ensures
        r@ == base64_text(bytes@, false, true),
{
    base64::prelude::BASE64_STANDARD.encode(bytes)
}

/// Relies on base64's Engine::encode with the URL_SAFE_NO_PAD engine: the
/// URL-safe alphabet without padding; the buffer size as above.
#[verifier::external_body]
fn encode_url_safe(bytes: &[u8]) -> (r: String)
    requires
        bytes@.len() <= usize::MAX / 2,
    ensures
        r@ == base64_text(bytes@, true, false),
{
    base64::prelude::BASE64_URL_SAFE_NO_PAD.encode(bytes)
}

/// Relies on base64's Engine::decode with the STANDARD engine.
#[verifier::external_body]
fn decode_standard(text: &[u8]) -> (r: Result<Vec<u8>, base64::DecodeError>)
    ensures
        r is Ok <==> base64_standard_decoded(text@) is Some,
        r matches Ok(v) ==> base64_standard_decoded(text@) == Some(v@),
{
    base64::prelude::BASE64_STANDARD.decode(text)
}

/// Relies on base64's Engine::decode with the URL_SAFE_NO_PAD engine.
#[verifier::external_body]
pub(crate) fn decode_url_safe(text: &[u8]) -> (r: Result<Vec<u8>, base64::DecodeError>)
    ensures
        r is Ok <==> base64_url_safe_decoded(text@) is Some,
        r matches Ok(v) ==> base64_url_safe_decoded(text@) == Some(v@),
{
    base64::prelude::BASE64_URL_SAFE_NO_PAD.decode(text)
}

/// The text is not base64 of the chosen alphabet.
#[derive(Debug, Clone, Copy, PartialEq, Eq, Structural)]
pub struct Base64DecodeError;

/// The base64 text of `bytes` in the chosen format.
pub open spec fn spec_b64_encode(bytes: Seq<u8>, format: Base64Format) -> Seq<char> {
    match format {
        Base64Format::Standard => base64_text(bytes, false, true),
        Base64Format::UrlSafe => base64_text(bytes, true, false),
    }
}

/// What base64 text decodes to in the chosen format.
pub open spec fn spec_b64_decode(text: Seq<u8>, format: Base64Format) -> Option<Seq<u8>> {
    match format {
        Base64Format::Standard => base64_standard_decoded(text),
        Base64Format::UrlSafe => base64_url_safe_decoded(text),
    }
}

/// Whether `c` has the Unicode White_Space property: tab, line feed,
/// vertical tab, form feed, carriage return, space, next line, no-break space,
/// ogham space mark, the spaces from en quad to hair space, line separator,
/// paragraph separator, narrow no-break space, medium mathematical space and
/// ideographic space.
pub open spec fn is_white_space(c: char) -> bool {
    let u = c as u32;
    ||| 0x09 <= u <= 0x0d
    ||| u == 0x20
    ||| u == 0x85
    ||| u == 0xa0
    ||| u == 0x1680
    ||| 0x2000 <= u <= 0x200a
    ||| u == 0x2028
    ||| u == 0x2029
    ||| u == 0x202f
    ||| u == 0x205f
    ||| u == 0x3000
}

/// `s` without its leading white space.
pub open spec fn trim_start(s: Seq<char>) -> Seq<char>
    decreases s.len(),
{
    if s.len() > 0 && is_white_space(s[0]) {
        trim_start(s.drop_first())
    } else {
        s
    }
}

/// `s` without its trailing white space.
pub open spec fn trim_end(s: Seq<char>) -> Seq<char>
    decreases s.len(),
{
    if s.len() > 0 && is_white_space(s.last()) {
        trim_end(s.drop_last())
    } else {
        s
    }
}

/// `s` without the white space at either end.
pub open spec fn trim(s: Seq<char>) -> Seq<char> {
    trim_end(trim_start(s))
}

/// Whether `c` is white space.
fn white_space(c: char) -> (r: bool)
    ensures
        r == is_white_space(c),
{
    let u = c as u32;
    (0x09 <= u && u <= 0x0d) || u == 0x20 || u == 0x85 || u == 0xa0 || u == 0x1680 || (0x2000
        <= u && u <= 0x200a) || u == 0x2028 || u == 0x2029 || u == 0x202f || u == 0x205f || u
        == 0x3000
}

/// The part of `s` between its leading and trailing white space.
pub fn trim_white_space(s: &str) -> (r: &str)
    ensures
        r@ == trim(s@),
{
    let n = s.unicode_len();
    let mut i: usize = 0;
    assert(s@.subrange(0, n as int) =~= s@);
    while i < n && white_space(s.get_char(i))
        invariant
            i <= n,
            n == s@.len(),
            trim_start(s@) == trim_start(s@.subrange(i as int, n as int)),
        decreases n - i,
    {
        assert(s@.subrange(i as int, n as int).drop_first() =~= s@.subrange(i + 1, n as int));
        i = i + 1;
    }
    let ghost rest = s@.subrange(i as int, n as int);
    assert(trim_start(rest) == rest);
    let mut j: usize = n;
    assert(trim_start(s@) == rest);
    while j > i && white_space(s.get_char(j - 1))
        invariant
            i <= j <= n,
            n == s@.len(),
            trim_end(rest) == trim_end(s@.subrange(i as int, j as int)),
        decreases j,
    {
        assert(s@.subrange(i as int, j as int).drop_last() =~= s@.subrange(i as int, j - 1));
        j = j - 1;
    }
    let r = s.substring_char(i, j);
    assert(trim_end(r@) == r@);
    r
}

/// The base64 text of `input` in the chosen format.
pub fn b64_encode(input: &[u8], format: Base64Format) -> (r: String)
    requires
        input@.len() <= usize::MAX / 2,
    ensures
        r@ == spec_b64_encode(input@, format),
{
    match format {
        Base64Format::Standard => encode_standard(input),
        Base64Format::UrlSafe => encode_url_safe(input),
    }
}

/// Decodes base64 text in the chosen format, ignoring white space around it.
pub fn b64_decode(input: &str, format: Base64Format) -> (r: Result<Vec<u8>, Base64DecodeError>)
    ensures
        r is Ok <==> spec_b64_decode(encode_utf8(trim(input@)), format) is Some,
        r matches Ok(v) ==> spec_b64_decode(encode_utf8(trim(input@)), format) == Some(v@),
{
    let text = trim_white_space(input).as_bytes();
    let decoded = match format {
        Base64Format::Standard => decode_standard(text),
        Base64Format::UrlSafe => decode_url_safe(text),
    };
    match decoded {
        Ok(v) => Ok(v),
        Err(_) => Err(Base64DecodeError),
    }
}

} // verus!
