//! Random passwords drawn from four character classes, each of which the
//! caller may turn off.

use vstd::prelude::*;

use rand::seq::SliceRandom;

verus! {

/// A lowercase letter other than the easily misread `l`.
pub open spec fn is_lower(c: u32) -> bool {
    'a' as u32 <= c <= 'z' as u32 && c != 'l' as u32
}

/// An uppercase letter other than the easily misread `I` and `O`.
pub open spec fn is_upper(c: u32) -> bool {
    'A' as u32 <= c <= 'Z' as u32 && c != 'I' as u32 && c != 'O' as u32
}

/// A digit other than `0`.
pub open spec fn is_number(c: u32) -> bool {
    '1' as u32 <= c <= '9' as u32
}

/// One of the symbols `!@#$%^&*_`.
pub open spec fn is_symbol(c: u32) -> bool {
    c == '!' as u32 || c == '@' as u32 || c == '#' as u32 || c == '$' as u32 || c == '%' as u32
        || c == '^' as u32 || c == '&' as u32 || c == '*' as u32 || c == '_' as u32
}

/// The characters of a string given by its ASCII bytes.
pub open spec fn ascii_chars(bytes: Seq<u8>) -> Seq<char> {
    bytes.map_values(|b: u8| b as char)
}

/// Relies on String::from_utf8: bytes below 0x80 are valid UTF-8, one
/// character each.
#[verifier::external_body]
fn ascii_string(bytes: Vec<u8>) -> (r: String)
    requires
        forall|i: int| 0 <= i < bytes@.len() ==> bytes@[i] < 128,
    ensures
        r@ == ascii_chars(bytes@),
{
    String::from_utf8(bytes).unwrap_or_default()
}

/// Relies on rand's SliceRandom::choose with the thread-local generator: some
/// element of the slice, and None only for an empty slice.
#[verifier::external_body]
fn choose_byte(chars: &[u8]) -> (r: Option<u8>)
    ensures
        r is None <==> chars@.len() == 0,
        r matches Some(c) ==> chars@.contains(c),
{
    chars.choose(&mut rand::thread_rng()).copied()
}

/// Relies on rand's SliceRandom::shuffle with the thread-local generator: the
/// same bytes, in some order.
#[verifier::external_body]
fn shuffle_bytes(v: &mut Vec<u8>)
    ensures
        final(v)@.to_multiset() == old(v)@.to_multiset(),
{
    v.shuffle(&mut rand::thread_rng());
}

/// Why no password can be made.
#[derive(Debug, Clone, Copy, PartialEq, Eq, Structural)]
pub enum GenPassError {
    /// The length leaves no room for one character of each class that is on.
    TooShort,
    /// Every class is off, yet characters were asked for.
    NoCharacters,
}

/// Whether `c` belongs to a class that is on.
pub open spec fn allowed(
    c: u32,
    noupper: bool,
    nolower: bool,
    nonumber: bool,
    nosymbol: bool,
) -> bool {
    ||| !nolower && is_lower(c)
    ||| !noupper && is_upper(c)
    ||| !nonumber && is_number(c)
    ||| !nosymbol && is_symbol(c)
}

/// How many classes are on.
pub open spec fn class_count(noupper: bool, nolower: bool, nonumber: bool, nosymbol: bool) -> nat {
    (if nolower { 0nat } else { 1nat }) + (if noupper { 0nat } else { 1nat }) + (if nonumber {
        0nat
    } else {
        1nat
    }) + (if nosymbol { 0nat } else { 1nat })
}

/// Whether `p` holds a lowercase letter of the class.
pub open spec fn has_lower(p: Seq<u8>) -> bool {
    exists|i: int| 0 <= i < p.len() && is_lower(#[trigger] p[i] as u32)
}

/// Whether `p` holds an uppercase letter of the class.
pub open spec fn has_upper(p: Seq<u8>) -> bool {
    exists|i: int| 0 <= i < p.len() && is_upper(#[trigger] p[i] as u32)
}

/// Whether `p` holds a digit of the class.
pub open spec fn has_number(p: Seq<u8>) -> bool {
    exists|i: int| 0 <= i < p.len() && is_number(#[trigger] p[i] as u32)
}

/// Whether `p` holds a symbol of the class.
pub open spec fn has_symbol(p: Seq<u8>) -> bool {
    exists|i: int| 0 <= i < p.len() && is_symbol(#[trigger] p[i] as u32)
}

/// A password of `length` bytes, each from a class that is on, with at least
/// one byte of every class that is on.
pub open spec fn is_password(
    p: Seq<u8>,
    length: u8,
    noupper: bool,
    nolower: bool,
    nonumber: bool,
    nosymbol: bool,
) -> bool {
    &&& p.len() == length
    &&& forall|i: int|
        0 <= i < p.len() ==> allowed(#[trigger] p[i] as u32, noupper, nolower, nonumber, nosymbol)
    &&& !nolower ==> has_lower(p)
    &&& !noupper ==> has_upper(p)
    &&& !nonumber ==> has_number(p)
    &&& !nosymbol ==> has_symbol(p)
}

/// The bytes of a string of ASCII characters.
pub open spec fn char_bytes(chars: Seq<char>) -> Seq<u8> {
    chars.map_values(|c: char| c as u8)
}

/// Which result `process_genpass` owes for these settings: an error exactly
/// when the length and the classes that are on do not fit together.
pub open spec fn genpass_error(
    length: u8,
    noupper: bool,
    nolower: bool,
    nonumber: bool,
    nosymbol: bool,
) -> Option<GenPassError> {
    if (length as nat) < class_count(noupper, nolower, nonumber, nosymbol) {
        Some(GenPassError::TooShort)
    } else if class_count(noupper, nolower, nonumber, nosymbol) == 0 && length > 0 {
        Some(GenPassError::NoCharacters)
    } else {
        None
    }
}

fn lower_letters() -> (r: Vec<u8>)
    ensures
        r@.len() > 0,
        forall|i: int| 0 <= i < r@.len() ==> is_lower(#[trigger] r@[i] as u32),
{
    vec![
        'a' as u8, 'b' as u8, 'c' as u8, 'd' as u8, 'e' as u8, 'f' as u8, 'g' as u8, 'h' as u8,
        'i' as u8, 'j' as u8, 'k' as u8, 'm' as u8, 'n' as u8, 'o' as u8, 'p' as u8, 'q' as u8,
        'r' as u8, 's' as u8, 't' as u8, 'u' as u8, 'v' as u8, 'w' as u8, 'x' as u8, 'y' as u8,
        'z' as u8,
    ]
}

fn upper_letters() -> (r: Vec<u8>)
    ensures
        r@.len() > 0,
        forall|i: int| 0 <= i < r@.len() ==> is_upper(#[trigger] r@[i] as u32),
{
    vec![
        'A' as u8, 'B' as u8, 'C' as u8, 'D' as u8, 'E' as u8, 'F' as u8, 'G' as u8, 'H' as u8,
        'J' as u8, 'K' as u8, 'L' as u8, 'M' as u8, 'N' as u8, 'P' as u8, 'Q' as u8, 'R' as u8,
        'S' as u8, 'T' as u8, 'U' as u8, 'V' as u8, 'W' as u8, 'X' as u8, 'Y' as u8, 'Z' as u8,
    ]
}

fn numbers() -> (r: Vec<u8>)
    ensures
        r@.len() > 0,
        forall|i: int| 0 <= i < r@.len() ==> is_number(#[trigger] r@[i] as u32),
{
    vec![
        '1' as u8, '2' as u8, '3' as u8, '4' as u8, '5' as u8, '6' as u8, '7' as u8, '8' as u8,
        '9' as u8,
    ]
}

fn symbols() -> (r: Vec<u8>)
    ensures
        r@.len() > 0,
        forall|i: int| 0 <= i < r@.len() ==> is_symbol(#[trigger] r@[i] as u32),
{
    vec![
        '!' as u8, '@' as u8, '#' as u8, '$' as u8, '%' as u8, '^' as u8, '&' as u8, '*' as u8,
        '_' as u8,
    ]
}

/// Adding a byte keeps every class that a password already holds.
proof fn lemma_push_keeps_classes(p: Seq<u8>, c: u8)
    ensures
        has_lower(p) ==> has_lower(p.push(c)),
        has_upper(p) ==> has_upper(p.push(c)),
        has_number(p) ==> has_number(p.push(c)),
        has_symbol(p) ==> has_symbol(p.push(c)),
{
    let q = p.push(c);
    if has_lower(p) {
        let i = choose|i: int| 0 <= i < p.len() && is_lower(#[trigger] p[i] as u32);
        assert(q[i] == p[i]);
    }
    if has_upper(p) {
        let i = choose|i: int| 0 <= i < p.len() && is_upper(#[trigger] p[i] as u32);
        assert(q[i] == p[i]);
    }
    if has_number(p) {
        let i = choose|i: int| 0 <= i < p.len() && is_number(#[trigger] p[i] as u32);
        assert(q[i] == p[i]);
    }
    if has_symbol(p) {
        let i = choose|i: int| 0 <= i < p.len() && is_symbol(#[trigger] p[i] as u32);
        assert(q[i] == p[i]);
    }
}

/// Reordering a password keeps it a password for the same settings.
proof fn lemma_reorder_keeps_password(
    p: Seq<u8>,
    q: Seq<u8>,
    length: u8,
    noupper: bool,
    nolower: bool,
    nonumber: bool,
    nosymbol: bool,
)
    requires
        p.to_multiset() == q.to_multiset(),
        is_password(p, length, noupper, nolower, nonumber, nosymbol),
    ensures
        is_password(q, length, noupper, nolower, nonumber, nosymbol),
{
    broadcast use vstd::seq_lib::group_to_multiset_ensures;

    assert(p.len() == p.to_multiset().len());
    assert(q.len() == q.to_multiset().len());
    assert forall|i: int| 0 <= i < q.len() implies allowed(
        #[trigger] q[i] as u32,
        noupper,
        nolower,
        nonumber,
        nosymbol,
    ) by {
        assert(q.contains(q[i]));
        assert(q.to_multiset().count(q[i]) > 0);
        assert(p.contains(q[i]));
    }
    if has_lower(p) {
        let i = choose|i: int| 0 <= i < p.len() && is_lower(#[trigger] p[i] as u32);
        assert(p.contains(p[i]));
        assert(p.to_multiset().count(p[i]) > 0);
        assert(q.contains(p[i]));
    }
    if has_upper(p) {
        let i = choose|i: int| 0 <= i < p.len() && is_upper(#[trigger] p[i] as u32);
        assert(p.contains(p[i]));
        assert(p.to_multiset().count(p[i]) > 0);
        assert(q.contains(p[i]));
    }
    if has_number(p) {
        let i = choose|i: int| 0 <= i < p.len() && is_number(#[trigger] p[i] as u32);
        assert(p.contains(p[i]));
        assert(p.to_multiset().count(p[i]) > 0);
        assert(q.contains(p[i]));
    }
    if has_symbol(p) {
        let i = choose|i: int| 0 <= i < p.len() && is_symbol(#[trigger] p[i] as u32);
        assert(p.contains(p[i]));
        assert(p.to_multiset().count(p[i]) > 0);
        assert(q.contains(p[i]));
    }
}

/// Appends every byte of `class` to `pool`.
fn append_all(pool: &mut Vec<u8>, class: &Vec<u8>)
    ensures
        final(pool)@ == old(pool)@ + class@,
{
    let mut i: usize = 0;
    while i < class.len()
        invariant
            i <= class@.len(),
            pool@ == old(pool)@ + class@.subrange(0, i as int),
        decreases class@.len() - i,
    {
        pool.push(class[i]);
        i = i + 1;
        assert(pool@ =~= old(pool)@ + class@.subrange(0, i as int));
    }
    assert(class@.subrange(0, class@.len() as int) =~= class@);
}

/// Draws one byte of `class` into the password, and adds the whole class to
/// the pool that the remaining bytes are drawn from.
fn take_class(password: &mut Vec<u8>, pool: &mut Vec<u8>, class: Vec<u8>)
    requires
        class@.len() > 0,
    ensures
        final(password)@.len() == old(password)@.len() + 1,
        final(password)@.drop_last() == old(password)@,
        class@.contains(final(password)@.last()),
        final(pool)@ == old(pool)@ + class@,
{
    match choose_byte(class.as_slice()) {
        Some(c) => password.push(c),
        None => {},
    }
    append_all(pool, &class);
    assert(password@.drop_last() =~= old(password)@);
}

/// Draws a random password: one byte of each class that is on, the rest from
/// all of them together, in shuffled order. The classes are lowercase letters
/// without `l`, uppercase letters without `I` and `O`, the digits `1` to `9`
/// and the symbols `!@#$%^&*_`.
pub fn gen_password(
    length: u8,
    noupper: bool,
    nolower: bool,
    nonumber: bool,
    nosymbol: bool,
) -> (r: Result<Vec<u8>, GenPassError>)
    ensures
        match r {
            Ok(p) => genpass_error(length, noupper, nolower, nonumber, nosymbol) is None
                && is_password(p@, length, noupper, nolower, nonumber, nosymbol),
            Err(e) => genpass_error(length, noupper, nolower, nonumber, nosymbol) == Some(e),
        },
{
    let mut password: Vec<u8> = Vec::new();
    let mut pool: Vec<u8> = Vec::new();
    if !nolower {
        take_class(&mut password, &mut pool, lower_letters());
    }
    if !noupper {
        take_class(&mut password, &mut pool, upper_letters());
    }
    if !nonumber {
        take_class(&mut password, &mut pool, numbers());
    }
    if !nosymbol {
        take_class(&mut password, &mut pool, symbols());
    }
    assert(password@.len() == class_count(noupper, nolower, nonumber, nosymbol));
    if (length as usize) < password.len() {
        return Err(GenPassError::TooShort);
    }
    if pool.len() == 0 && length > 0 {
        return Err(GenPassError::NoCharacters);
    }
    let fill: usize = length as usize - password.len();
    let mut k: usize = 0;
    while k < fill
        invariant
            k <= fill,
            password@.len() == class_count(noupper, nolower, nonumber, nosymbol) + k,
            fill == length - class_count(noupper, nolower, nonumber, nosymbol),
            fill > 0 ==> pool@.len() > 0,
            forall|i: int|
                0 <= i < pool@.len() ==> allowed(
                    #[trigger] pool@[i] as u32,
                    noupper,
                    nolower,
                    nonumber,
                    nosymbol,
                ),
            forall|i: int|
                0 <= i < password@.len() ==> allowed(
                    #[trigger] password@[i] as u32,
                    noupper,
                    nolower,
                    nonumber,
                    nosymbol,
                ),
            !nolower ==> has_lower(password@),
            !noupper ==> has_upper(password@),
            !nonumber ==> has_number(password@),
            !nosymbol ==> has_symbol(password@),
        decreases fill - k,
    {
        let ghost before = password@;
        match choose_byte(pool.as_slice()) {
            Some(c) => {
                password.push(c);
                proof {
                    lemma_push_keeps_classes(before, c);
                }
            },
            None => {},
        }
        k = k + 1;
    }
    let ghost drawn = password@;
    shuffle_bytes(&mut password);
    proof {
        lemma_reorder_keeps_password(
            drawn,
            password@,
            length,
            noupper,
            nolower,
            nonumber,
            nosymbol,
        );
    }
    Ok(password)
}

/// A random password as a string; see `gen_password` for the classes.
pub fn process_genpass(
    length: u8,
    noupper: bool,
    nolower: bool,
    nonumber: bool,
    nosymbol: bool,
) -> (r: Result<String, GenPassError>)
    ensures
        match r {
            Ok(p) => genpass_error(length, noupper, nolower, nonumber, nosymbol) is None
                && is_password(char_bytes(p@), length, noupper, nolower, nonumber, nosymbol)
                && p@.len() == length,
            Err(e) => genpass_error(length, noupper, nolower, nonumber, nosymbol) == Some(e),
        },
{
    let bytes = match gen_password(length, noupper, nolower, nonumber, nosymbol) {
        Ok(bytes) => bytes,
        Err(e) => return Err(e),
    };
    let ghost b = bytes@;
    assert forall|i: int| 0 <= i < b.len() implies b[i] < 128 by {
        assert(allowed(b[i] as u32, noupper, nolower, nonumber, nosymbol));
    }
    let p = ascii_string(bytes);
    assert(char_bytes(p@) =~= b);
    Ok(p)
}

} // verus!
