use vstd::prelude::*;

verus! {

/// The characters of `s`, one for one.
#[verifier::external_body]
pub(crate) fn chars_of(s: &str) -> (r: Vec<char>)
    ensures
        r@ == s@,
{
    s.chars().collect()
}

/// The `String` made of exactly the characters of `v`.
#[verifier::external_body]
pub(crate) fn string_from_chars(v: &[char]) -> (r: String)
    ensures
        r@ == v@,
{
    v.iter().collect()
}

/// The character with code point `c`, if `c` is one (not a surrogate, at most
/// `0x10FFFF`): `char::from_u32`.
#[verifier::external_body]
pub(crate) fn char_from_code(c: u32) -> (r: Option<char>)
    ensures
        r == (if c <= 0x10FFFF && !(0xD800 <= c <= 0xDFFF) {
            Some(c as char)
        } else {
            None
        }),
{
    char::from_u32(c)
}

/// The characters `String::from_utf8_lossy` reads from `b`: ill-formed byte
/// sequences become U+FFFD.
pub uninterp spec fn utf8_lossy(b: Seq<u8>) -> Seq<char>;

/// `String::from_utf8_lossy`, collected into characters. What it gives is named by
/// `utf8_lossy`; of it only this is stated: bytes that are all ASCII decode one
/// character per byte, with the same code.
#[verifier::external_body]
pub(crate) fn decode_utf8_lossy(b: &[u8]) -> (r: Vec<char>)
    ensures
        r@ == utf8_lossy(b@),
        (forall|i: int| 0 <= i < b@.len() ==> b@[i] < 0x80) ==> r@ == Seq::new(b@.len(), |i: int| b@[i] as char),
{
    String::from_utf8_lossy(b).chars().collect()
}

/// The last component of the path spelled by `p`, as `Path::file_name` finds it
/// (`None` when the path ends in `..` or has no component).
pub uninterp spec fn path_file_name(p: Seq<char>) -> Option<Seq<char>>;

/// `Path::file_name` on the path spelled by `v`, as characters. What it gives is
/// named by `path_file_name`; nothing more of it is stated here.
#[verifier::external_body]
pub(crate) fn file_name_of(v: &[char]) -> (r: Option<Vec<char>>)
    ensures
        match r {
            Some(n) => path_file_name(v@) == Some(n@),
            None => path_file_name(v@) is None,
        },
{
    let s: String = v.iter().collect();
    match std::path::Path::new(&s).file_name() {
        Some(n) => Some(n.to_string_lossy().chars().collect()),
        None => None,
    }
}

/// The ASCII digit for `d` in base 16 (upper case above 9).
pub open spec fn digit_char(d: nat) -> char {
    if d < 10 {
        (('0' as u32) + d) as char
    } else {
        (('A' as u32) + d - 10) as char
    }
}

/// The decimal digits of `n`, most significant first, with no leading zeros.
pub open spec fn decimal(n: nat) -> Seq<char>
    decreases n,
{
    if n < 10 {
        seq![digit_char(n)]
    } else {
        decimal(n / 10).push(digit_char(n % 10))
    }
}

/// The decimal text of a signed integer, with a leading '-' when negative.
pub open spec fn signed_decimal(i: int) -> Seq<char> {
    if i < 0 {
        seq!['-'] + decimal((-i) as nat)
    } else {
        decimal(i as nat)
    }
}

/// The lower-case hexadecimal digit for `d`.
pub open spec fn lower_hex_char(d: nat) -> char {
    if d < 10 {
        (('0' as u32) + d) as char
    } else {
        (('a' as u32) + d - 10) as char
    }
}

/// The lower-case hexadecimal digits of `n`, most significant first, no leading zeros.
pub open spec fn lower_hex(n: nat) -> Seq<char>
    decreases n,
{
    if n < 16 {
        seq![lower_hex_char(n)]
    } else {
        lower_hex(n / 16).push(lower_hex_char(n % 16))
    }
}

/// Two upper-case hexadecimal digits for a byte.
pub open spec fn hex2(b: u8) -> Seq<char> {
    seq![digit_char((b / 16) as nat), digit_char((b % 16) as nat)]
}

fn digit(d: u64) -> (c: char)
    requires
        d < 16,
    ensures
        c == digit_char(d as nat),
{
    if d < 10 {
        ((('0' as u32) + (d as u32)) as u8) as char
    } else {
        ((('A' as u32) + (d as u32) - 10) as u8) as char
    }
}

fn lower_digit(d: u64) -> (c: char)
    requires
        d < 16,
    ensures
        c == lower_hex_char(d as nat),
{
    if d < 10 {
        ((('0' as u32) + (d as u32)) as u8) as char
    } else {
        ((('a' as u32) + (d as u32) - 10) as u8) as char
    }
}

/// Appends the decimal digits of `n` to `out`.
pub fn push_decimal(out: &mut Vec<char>, n: u64)
    ensures
        final(out)@ == old(out)@ + decimal(n as nat),
    decreases n,
{
    if n < 10 {
        out.push(digit(n));
        assert(decimal(n as nat) == seq![digit_char(n as nat)]);
    } else {
        push_decimal(out, n / 10);
        out.push(digit(n % 10));
    }
}

/// Appends the decimal text of the signed value `i` to `out`.
pub fn push_signed_decimal(out: &mut Vec<char>, i: i64)
    ensures
        final(out)@ == old(out)@ + signed_decimal(i as int),
{
    if i < 0 {
        out.push('-');
        let m: u64 = if i == i64::MIN {
            0x8000_0000_0000_0000u64
        } else {
            (-i) as u64
        };
        push_decimal(out, m);
        assert(final(out)@ =~= old(out)@ + (seq!['-'] + decimal(m as nat)));
    } else {
        push_decimal(out, i as u64);
    }
}

/// Appends the lower-case hexadecimal digits of `n` to `out`.
pub fn push_lower_hex(out: &mut Vec<char>, n: u64)
    ensures
        final(out)@ == old(out)@ + lower_hex(n as nat),
    decreases n,
{
    if n < 16 {
        out.push(lower_digit(n));
        assert(lower_hex(n as nat) == seq![lower_hex_char(n as nat)]);
    } else {
        push_lower_hex(out, n / 16);
        out.push(lower_digit(n % 16));
    }
}

/// Appends two upper-case hexadecimal digits for `b` to `out`.
pub fn push_hex2(out: &mut Vec<char>, b: u8)
    ensures
        final(out)@ == old(out)@ + hex2(b),
{
    out.push(digit((b / 16) as u64));
    out.push(digit((b % 16) as u64));
    assert(final(out)@ =~= old(out)@ + hex2(b));
}

/// Appends the characters of `s` to `out`.
pub fn push_str(out: &mut Vec<char>, s: &str)
    ensures
        final(out)@ == old(out)@ + s@,
{
    let mut v = chars_of(s);
    out.append(&mut v);
}

} // verus!
