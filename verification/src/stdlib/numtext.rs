use vstd::prelude::*;
use crate::text::{decimal, digit_char, lower_hex, push_lower_hex, push_signed_decimal, signed_decimal};

verus! {

/// The value of a digit character in bases up to 36 (`0-9`, then `a-z` or `A-Z`).
pub open spec fn digit_value(c: char) -> Option<nat> {
    if '0' <= c && c <= '9' {
        Some((c as nat - '0' as nat) as nat)
    } else if 'a' <= c && c <= 'z' {
        Some((c as nat - 'a' as nat + 10) as nat)
    } else if 'A' <= c && c <= 'Z' {
        Some((c as nat - 'A' as nat + 10) as nat)
    } else {
        None
    }
}

/// The value of a string of digits in base `radix`, or `None` when some character is
/// not a digit of that base. The empty string has value 0.
pub open spec fn digits_value(s: Seq<char>, radix: nat) -> Option<nat>
    decreases s.len(),
{
    if s.len() == 0 {
        Some(0)
    } else {
        match (digits_value(s.drop_last(), radix), digit_value(s.last())) {
            (Some(v), Some(d)) => if d < radix {
                Some(v * radix + d)
            } else {
                None
            },
            _ => None,
        }
    }
}

/// Rust's integer parsing: an optional single sign, then at least one digit of the
/// base, and a value within `[min, max]`.
pub open spec fn parse_integer(s: Seq<char>, radix: nat, min: int, max: int) -> Option<int> {
    if s.len() == 0 {
        None
    } else if (s[0] == '+' || s[0] == '-') && s.len() == 1 {
        None
    } else {
        let neg = s[0] == '-';
        let ds = if s[0] == '+' || s[0] == '-' {
            s.drop_first()
        } else {
            s
        };
        match digits_value(ds, radix) {
            None => None,
            Some(v) => {
                let x = if neg {
                    -(v as int)
                } else {
                    v as int
                };
                if min <= x && x <= max {
                    Some(x)
                } else {
                    None
                }
            },
        }
    }
}

fn digit_of(c: char, radix: u32) -> (r: Option<u32>)
    requires
        2 <= radix <= 36,
    ensures
        match digit_value(c) {
            Some(d) => if d < radix {
                r == Some(d as u32)
            } else {
                r is None
            },
            None => r is None,
        },
{
    let d: u32 = if '0' <= c && c <= '9' {
        (c as u32) - ('0' as u32)
    } else if 'a' <= c && c <= 'z' {
        (c as u32) - ('a' as u32) + 10
    } else if 'A' <= c && c <= 'Z' {
        (c as u32) - ('A' as u32) + 10
    } else {
        return None;
    };
    if d < radix {
        Some(d)
    } else {
        None
    }
}

proof fn lemma_digits_value_prefix(s: Seq<char>, radix: nat, i: int)
    requires
        0 <= i <= s.len(),
        radix >= 1,
        digits_value(s, radix) is Some,
    ensures
        digits_value(s.take(i), radix) is Some,
        digits_value(s.take(i), radix).unwrap() <= digits_value(s, radix).unwrap(),
    decreases s.len() - i,
{
    if i < s.len() {
        assert(s.take(s.len() as int) =~= s);
        lemma_digits_value_prefix(s, radix, i + 1);
        let t = s.take(i + 1);
        assert(t.drop_last() =~= s.take(i));
        let v = digits_value(s.take(i), radix).unwrap();
        let d = digit_value(t.last()).unwrap();
        assert(v * radix >= v) by (nonlinear_arith)
            requires
                radix >= 1,
        ;
    } else {
        assert(s.take(i) =~= s);
    }
}

/// Parses `s` in base `radix` as Rust does for an integer type with range `[min, max]`.
pub fn parse_integer_exec(s: &[char], radix: u32, min: i64, max: i64) -> (r: Option<i64>)
    requires
        2 <= radix <= 36,
        min <= 0 <= max,
    ensures
        match parse_integer(s@, radix as nat, min as int, max as int) {
            Some(x) => r == Some(x as i64),
            None => r is None,
        },
{
    let n = s.len();
    if n == 0 {
        return None;
    }
    let first = s[0];
    if (first == '+' || first == '-') && n == 1 {
        return None;
    }
    let neg = first == '-';
    let start: usize = if first == '+' || first == '-' {
        1
    } else {
        0
    };
    let ghost ds = if first == '+' || first == '-' {
        s@.drop_first()
    } else {
        s@
    };
    let limit: u128 = if neg {
        (0i128 - (min as i128)) as u128
    } else {
        max as u128
    };
    let mut acc: u128 = 0;
    let mut i = start;
    assert(ds =~= s@.subrange(start as int, n as int));
    assert(ds.take(0) =~= Seq::<char>::empty());
    while i < n
        invariant
            start <= i <= n,
            n == s@.len(),
            2 <= radix <= 36,
            ds == s@.subrange(start as int, n as int),
            ds == (if s@[0] == '+' || s@[0] == '-' {
                s@.drop_first()
            } else {
                s@
            }),
            neg == (s@[0] == '-'),
            n >= 1,
            !((s@[0] == '+' || s@[0] == '-') && n == 1),
            limit == (if neg {
                -(min as int)
            } else {
                max as int
            }),
            min <= 0 <= max,
            limit <= 0x8000_0000_0000_0000,
            digits_value(ds.take(i - start), radix as nat) == Some(acc as nat),
            acc <= limit,
        decreases n - i,
    {
        let d = match digit_of(s[i], radix) {
            Some(d) => d,
            None => {
                proof {
                    assert(ds.take(i + 1 - start).drop_last() =~= ds.take(i - start));
                    assert(ds.take(i + 1 - start).last() == s@[i as int]);
                    assert(digits_value(ds.take(i + 1 - start), radix as nat) is None);
                    if digits_value(ds, radix as nat) is Some {
                        lemma_digits_value_prefix(ds, radix as nat, i + 1 - start);
                    }
                    assert(digits_value(ds, radix as nat) is None);
                    assert(parse_integer(s@, radix as nat, min as int, max as int) is None);
                }
                return None;
            },
        };
        assert(acc * (radix as u128) <= 0x8000_0000_0000_0000 * 36) by (nonlinear_arith)
            requires
                acc <= 0x8000_0000_0000_0000,
                radix <= 36,
        ;
        let next = acc * (radix as u128) + (d as u128);
        proof {
            assert(ds.take(i + 1 - start).drop_last() =~= ds.take(i - start));
            assert(ds.take(i + 1 - start).last() == s@[i as int]);
        }
        if next > limit {
            proof {
                if digits_value(ds, radix as nat) is Some {
                    lemma_digits_value_prefix(ds, radix as nat, i + 1 - start);
                    assert(digits_value(ds, radix as nat).unwrap() > limit);
                }
                assert(parse_integer(s@, radix as nat, min as int, max as int) is None);
            }
            return None;
        }
        acc = next;
        i += 1;
    }
    proof {
        assert(ds.take(n - start) =~= ds);
    }
    if neg {
        Some((0i128 - (acc as i128)) as i64)
    } else {
        Some(acc as i64)
    }
}

/// The decimal text of an `i32`, as Rust's `to_string` writes it.
pub fn int_to_chars(i: i32) -> (r: Vec<char>)
    ensures
        r@ == signed_decimal(i as int),
{
    let mut v: Vec<char> = Vec::new();
    push_signed_decimal(&mut v, i as i64);
    assert(v@ =~= signed_decimal(i as int));
    v
}

/// The decimal text of an `i64`, as Rust's `to_string` writes it.
pub fn long_to_chars(i: i64) -> (r: Vec<char>)
    ensures
        r@ == signed_decimal(i as int),
{
    let mut v: Vec<char> = Vec::new();
    push_signed_decimal(&mut v, i);
    assert(v@ =~= signed_decimal(i as int));
    v
}

/// Lower-case hexadecimal of the two's-complement bits of an `i32`, as `{:x}` writes it.
pub fn int_to_hex_chars(i: i32) -> (r: Vec<char>)
    ensures
        r@ == lower_hex(i as u32 as nat),
{
    let mut v: Vec<char> = Vec::new();
    push_lower_hex(&mut v, (i as u32) as u64);
    assert(v@ =~= lower_hex(i as u32 as nat));
    v
}

/// "true" or "false".
pub open spec fn bool_text(b: bool) -> Seq<char> {
    if b {
        seq!['t', 'r', 'u', 'e']
    } else {
        seq!['f', 'a', 'l', 's', 'e']
    }
}

pub fn bool_to_chars(b: bool) -> (r: Vec<char>)
    ensures
        r@ == bool_text(b),
{
    let mut v: Vec<char> = Vec::new();
    if b {
        v.push('t');
        v.push('r');
        v.push('u');
        v.push('e');
    } else {
        v.push('f');
        v.push('a');
        v.push('l');
        v.push('s');
        v.push('e');
    }
    assert(v@ =~= bool_text(b));
    v
}

proof fn lemma_digit_char(d: nat)
    requires
        d < 10,
    ensures
        digit_value(digit_char(d)) == Some(d),
{
    let c = digit_char(d);
    assert(c as nat == '0' as nat + d);
}

proof fn lemma_decimal_value(n: nat)
    ensures
        digits_value(decimal(n), 10) == Some(n),
        decimal(n).len() >= 1,
        digit_value(decimal(n)[0]) is Some,
    decreases n,
{
    if n >= 10 {
        lemma_decimal_value(n / 10);
        lemma_digit_char(n % 10);
        let s = decimal(n);
        assert(s.drop_last() =~= decimal(n / 10));
        assert(s[0] == decimal(n / 10)[0]);
        assert(digits_value(s, 10) == Some((n / 10) * 10 + n % 10));
    } else {
        lemma_digit_char(n);
        let s = decimal(n);
        assert(s.drop_last() =~= Seq::<char>::empty());
        assert(s.last() == digit_char(n));
        assert(digits_value(s.drop_last(), 10) == Some(0nat));
    }
}

/// Parsing the decimal text of a value gives the value back: for every `i32`,
/// `Integer.parseInt(Integer.toString(i)) == i`, and the same for `i64`.
pub proof fn law_decimal_parse_round_trip(x: int, min: int, max: int)
    requires
        min <= x <= max,
    ensures
        parse_integer(signed_decimal(x), 10, min, max) == Some(x),
{
    if x < 0 {
        lemma_decimal_value((-x) as nat);
        let s = signed_decimal(x);
        assert(s.drop_first() =~= decimal((-x) as nat));
    } else {
        lemma_decimal_value(x as nat);
        let s = decimal(x as nat);
        assert(digit_value(s[0]) is Some);
    }
}

proof fn lemma_lower_hex_value(n: nat)
    ensures
        digits_value(lower_hex(n), 16) == Some(n),
        lower_hex(n).len() >= 1,
        lower_hex(n)[0] != '+' && lower_hex(n)[0] != '-',
    decreases n,
{
    if n >= 16 {
        lemma_lower_hex_value(n / 16);
        let s = lower_hex(n);
        let d = n % 16;
        let c = crate::text::lower_hex_char(d);
        if d < 10 {
            assert(c as nat == '0' as nat + d);
        } else {
            assert(c as nat == 'a' as nat + d - 10);
        }
        assert(digit_value(c) == Some(d));
        assert(s.drop_last() =~= lower_hex(n / 16));
        assert(s[0] == lower_hex(n / 16)[0]);
        assert(digits_value(s, 16) == Some((n / 16) * 16 + n % 16));
    } else {
        let s = lower_hex(n);
        let c = crate::text::lower_hex_char(n);
        if n < 10 {
            assert(c as nat == '0' as nat + n);
        } else {
            assert(c as nat == 'a' as nat + n - 10);
        }
        assert(digit_value(c) == Some(n));
        assert(s.drop_last() =~= Seq::<char>::empty());
        assert(s.last() == c);
        assert(digits_value(s.drop_last(), 16) == Some(0nat));
    }
}

/// Parsing the lower-case hexadecimal text of a non-negative value in base 16 gives
/// the value back: `Integer.parseUnsignedInt(Integer.toHexString(i), 16)` is `i`.
pub proof fn law_hex_parse_round_trip(n: nat, max: int)
    requires
        n <= max,
    ensures
        parse_integer(lower_hex(n), 16, 0, max) == Some(n as int),
{
    lemma_lower_hex_value(n);
}

/// A string with a character that is no digit of the base has no value in it.
pub proof fn lemma_digits_value_none(s: Seq<char>, radix: nat, j: int)
    requires
        0 <= j < s.len(),
        !(digit_value(s[j]) matches Some(d) && d < radix),
    ensures
        digits_value(s, radix) is None,
    decreases s.len(),
{
    if j < s.len() - 1 {
        lemma_digits_value_none(s.drop_last(), radix, j);
    }
}

} // verus!
