use vstd::prelude::*;
use crate::natives::common::{array_of, outcome, pop2, string_of, top, Effect};
use crate::natives::lang::{new_ref, object_text, with_string};
use crate::runtime::error::JvmError;
use crate::runtime::frame::{underflow_error, Frame};
use crate::runtime::heap::ObjectView;
use crate::runtime::jvm::{same_but_heap, Jvm};
use crate::runtime::value::Value;
use crate::stdlib::numtext::{bool_text, bool_to_chars};
use crate::text::{
    chars_of, decimal, lower_hex, push_decimal, push_lower_hex, push_signed_decimal, signed_decimal,
};

verus! {

/// The texts that only floating-point formatting can give for one argument: how it
/// displays, and how it displays with six decimals. They matter only for `float`
/// and `double` arguments.
pub open spec fn reals_view(r: Seq<(Vec<char>, Vec<char>)>) -> Seq<(Seq<char>, Seq<char>)> {
    r.map_values(|p: (Vec<char>, Vec<char>)| (p.0@, p.1@))
}

/// The text of a value as `%s` shows it; `shown` is the display text of a
/// floating-point value.
pub open spec fn value_text(h: Seq<ObjectView>, v: Value, shown: Seq<char>) -> Seq<char> {
    match v {
        Value::Null => "null"@,
        Value::ObjectRef(id) => if id < h.len() {
            match h[id as int].string {
                Some(s) => s,
                None => object_text(h[id as int].class_name, id),
            }
        } else {
            "null"@
        },
        Value::ArrayRef(id) => "Array@"@ + decimal(id as nat),
        Value::Int(x) => signed_decimal(x as int),
        Value::Long(x) => signed_decimal(x as int),
        Value::Byte(x) => signed_decimal(x as int),
        Value::Short(x) => signed_decimal(x as int),
        Value::Char(x) => decimal(x as nat),
        Value::Boolean(b) => bool_text(b),
        Value::Float(_) => shown,
        Value::Double(_) => shown,
    }
}

/// What the conversion `c` (one of `s d f x`) writes for argument `v`.
pub open spec fn conversion(h: Seq<ObjectView>, c: char, v: Value, rt: (Seq<char>, Seq<char>)) -> Seq<char> {
    if c == 's' {
        value_text(h, v, rt.0)
    } else if c == 'd' {
        match v {
            Value::Int(x) => signed_decimal(x as int),
            Value::Long(x) => signed_decimal(x as int),
            _ => "0"@,
        }
    } else if c == 'f' {
        match v {
            Value::Float(_) => rt.1,
            Value::Double(_) => rt.1,
            Value::Int(x) => signed_decimal(x as int) + ".0"@,
            _ => "0.0"@,
        }
    } else {
        match v {
            Value::Int(x) => lower_hex(x as u32 as nat),
            Value::Long(x) => lower_hex(x as u64 as nat),
            _ => "0"@,
        }
    }
}

/// The output for the format text `f` from position `i` on, when the next unused
/// argument is number `k`: `%s %d %f %x` write an argument (nothing once the arguments
/// are used up), `%n` a newline, `%%` a percent sign; `%` before any other character is
/// written with it, and a `%` at the end as itself.
pub open spec fn format_from(
    h: Seq<ObjectView>,
    f: Seq<char>,
    args: Seq<Value>,
    reals: Seq<(Seq<char>, Seq<char>)>,
    i: int,
    k: int,
) -> Seq<char>
    decreases f.len() - i,
{
    if i < 0 || i >= f.len() {
        Seq::<char>::empty()
    } else if f[i] != '%' {
        seq![f[i]] + format_from(h, f, args, reals, i + 1, k)
    } else if i + 1 >= f.len() {
        seq!['%']
    } else {
        let c = f[i + 1];
        if c == 's' || c == 'd' || c == 'f' || c == 'x' {
            if 0 <= k < args.len() {
                conversion(h, c, args[k], reals[k]) + format_from(h, f, args, reals, i + 2, k + 1)
            } else {
                format_from(h, f, args, reals, i + 2, k)
            }
        } else if c == 'n' {
            seq!['\n'] + format_from(h, f, args, reals, i + 2, k)
        } else if c == '%' {
            seq!['%'] + format_from(h, f, args, reals, i + 2, k)
        } else {
            seq!['%', c] + format_from(h, f, args, reals, i + 2, k)
        }
    }
}

/// `String.format(fmt, args)` on a format text and arguments.
pub open spec fn format_text(h: Seq<ObjectView>, f: Seq<char>, args: Seq<Value>, reals: Seq<(Seq<char>, Seq<char>)>) -> Seq<char> {
    format_from(h, f, args, reals, 0, 0)
}

pub fn copy_into(out: &mut Vec<char>, s: &Vec<char>)
    ensures
        final(out)@ == old(out)@ + s@,
{
    let mut i: usize = 0;
    while i < s.len()
        invariant
            i <= s@.len(),
            out@ == old(out)@ + s@.take(i as int),
        decreases s@.len() - i,
    {
        out.push(s[i]);
        i += 1;
        assert(out@ =~= old(out)@ + s@.take(i as int));
    }
    assert(s@.take(s@.len() as int) =~= s@);
}

pub fn push_value_text(out: &mut Vec<char>, jvm: &Jvm, v: Value, shown: &Vec<char>)
    ensures
        final(out)@ == old(out)@ + value_text(jvm.hv(), v, shown@),
{
    match v {
        Value::Null => {
            let mut t = chars_of("null");
            out.append(&mut t);
        },
        Value::ObjectRef(id) => {
            if id < jvm.heap.len() {
                match &jvm.heap[id].string_value {
                    Some(s) => copy_into(out, s),
                    None => {
                        let mut t = chars_of(jvm.heap[id].class_name.as_str());
                        out.append(&mut t);
                        out.push('@');
                        push_decimal(out, id as u64);
                        assert(out@ =~= old(out)@ + object_text(jvm.hv()[id as int].class_name, id));
                    },
                }
            } else {
                let mut t = chars_of("null");
                out.append(&mut t);
            }
        },
        Value::ArrayRef(id) => {
            let mut t = chars_of("Array@");
            out.append(&mut t);
            push_decimal(out, id as u64);
            assert(out@ =~= old(out)@ + ("Array@"@ + decimal(id as nat)));
        },
        Value::Int(x) => push_signed_decimal(out, x as i64),
        Value::Long(x) => push_signed_decimal(out, x),
        Value::Byte(x) => push_signed_decimal(out, x as i64),
        Value::Short(x) => push_signed_decimal(out, x as i64),
        Value::Char(x) => push_decimal(out, x as u64),
        Value::Boolean(b) => {
            let mut t = bool_to_chars(b);
            out.append(&mut t);
        },
        Value::Float(_) => copy_into(out, shown),
        Value::Double(_) => copy_into(out, shown),
    }
}

fn push_conversion(out: &mut Vec<char>, jvm: &Jvm, c: char, v: Value, rt: &(Vec<char>, Vec<char>))
    requires
        c == 's' || c == 'd' || c == 'f' || c == 'x',
    ensures
        final(out)@ == old(out)@ + conversion(jvm.hv(), c, v, (rt.0@, rt.1@)),
{
    if c == 's' {
        push_value_text(out, jvm, v, &rt.0);
    } else if c == 'd' {
        match v {
            Value::Int(x) => push_signed_decimal(out, x as i64),
            Value::Long(x) => push_signed_decimal(out, x),
            _ => {
                out.push('0');
                assert(out@ =~= old(out)@ + "0"@) by {
                    reveal_strlit("0");
                }
            },
        }
    } else if c == 'f' {
        match v {
            Value::Float(_) => copy_into(out, &rt.1),
            Value::Double(_) => copy_into(out, &rt.1),
            Value::Int(x) => {
                push_signed_decimal(out, x as i64);
                out.push('.');
                out.push('0');
                assert(out@ =~= old(out)@ + (signed_decimal(x as int) + ".0"@)) by {
                    reveal_strlit(".0");
                }
            },
            _ => {
                out.push('0');
                out.push('.');
                out.push('0');
                assert(out@ =~= old(out)@ + "0.0"@) by {
                    reveal_strlit("0.0");
                }
            },
        }
    } else {
        match v {
            Value::Int(x) => push_lower_hex(out, (x as u32) as u64),
            Value::Long(x) => push_lower_hex(out, x as u64),
            _ => {
                out.push('0');
                assert(out@ =~= old(out)@ + "0"@) by {
                    reveal_strlit("0");
                }
            },
        }
    }
}

/// The text `String.format` makes of the format `f` and the arguments, given for each
/// argument the texts only floating-point formatting can give.
pub fn format_string(jvm: &Jvm, f: &Vec<char>, args: &Vec<Value>, reals: &Vec<(Vec<char>, Vec<char>)>) -> (r: Vec<char>)
    requires
        reals@.len() >= args@.len(),
    ensures
        r@ == format_text(jvm.hv(), f@, args@, reals_view(reals@)),
{
    let ghost h = jvm.hv();
    let ghost rv = reals_view(reals@);
    let mut out: Vec<char> = Vec::new();
    let mut i: usize = 0;
    let mut k: usize = 0;
    while i < f.len()
        invariant
            i <= f@.len(),
            k <= args@.len(),
            reals@.len() >= args@.len(),
            h == jvm.hv(),
            rv == reals_view(reals@),
            out@ + format_from(h, f@, args@, rv, i as int, k as int) == format_text(h, f@, args@, rv),
        decreases f@.len() - i,
    {
        let ghost before = out@;
        let ch = f[i];
        if ch != '%' {
            out.push(ch);
            i += 1;
            assert(before + format_from(h, f@, args@, rv, i - 1, k as int) =~= out@ + format_from(h, f@, args@, rv, i as int, k as int));
        } else if i + 1 >= f.len() {
            out.push('%');
            i += 1;
            assert(format_from(h, f@, args@, rv, i as int, k as int) =~= Seq::<char>::empty());
            assert(before + format_from(h, f@, args@, rv, i - 1, k as int) =~= out@ + format_from(h, f@, args@, rv, i as int, k as int));
        } else {
            let c = f[i + 1];
            if c == 's' || c == 'd' || c == 'f' || c == 'x' {
                if k < args.len() {
                    push_conversion(&mut out, jvm, c, args[k], &reals[k]);
                    assert(rv[k as int] == (reals@[k as int].0@, reals@[k as int].1@));
                    i += 2;
                    k += 1;
                    assert(before + format_from(h, f@, args@, rv, i - 2, k - 1) =~= out@ + format_from(h, f@, args@, rv, i as int, k as int));
                } else {
                    i += 2;
                }
            } else if c == 'n' {
                out.push('\n');
                i += 2;
                assert(before + format_from(h, f@, args@, rv, i - 2, k as int) =~= out@ + format_from(h, f@, args@, rv, i as int, k as int));
            } else if c == '%' {
                out.push('%');
                i += 2;
                assert(before + format_from(h, f@, args@, rv, i - 2, k as int) =~= out@ + format_from(h, f@, args@, rv, i as int, k as int));
            } else {
                out.push('%');
                out.push(c);
                i += 2;
                assert(before + format_from(h, f@, args@, rv, i - 2, k as int) =~= out@ + format_from(h, f@, args@, rv, i as int, k as int));
            }
        }
    }
    assert(format_from(h, f@, args@, rv, i as int, k as int) =~= Seq::<char>::empty());
    assert(out@ =~= format_text(h, f@, args@, rv));
    out
}

/// The format text: that of the string the value refers to, or empty.
pub open spec fn format_of(h: Seq<ObjectView>, v: Value) -> Seq<char> {
    match v {
        Value::ObjectRef(id) => match string_of(h, id) {
            Some(s) => s,
            None => Seq::<char>::empty(),
        },
        _ => Seq::<char>::empty(),
    }
}

/// The arguments: the elements of the array the value refers to, or none.
pub open spec fn format_args_of(h: Seq<ObjectView>, v: Value) -> Seq<Value> {
    match v {
        Value::ArrayRef(id) => match array_of(h, id) {
            Some(a) => a,
            None => Seq::<Value>::empty(),
        },
        _ => Seq::<Value>::empty(),
    }
}

/// The arguments a pending `String.format` call will format (its top operand).
pub fn pending_format_args(frame: &Frame, jvm: &Jvm) -> (r: Vec<Value>)
    ensures
        frame.stack@.len() > 0 ==> r@ == format_args_of(jvm.hv(), top(*frame, 0)),
{
    if frame.stack.len() == 0 {
        return Vec::new();
    }
    let v = frame.stack[frame.stack.len() - 1];
    match v {
        Value::ArrayRef(id) => match crate::natives::common::array_elems(jvm, id) {
            Some(a) => crate::natives::arrays::copy_prefix(a, a.len()),
            None => Vec::new(),
        },
        _ => Vec::new(),
    }
}

/// `String.format(fmt, args)`: a new string with the formatted text.
pub open spec fn string_format(f: Frame, h: Seq<ObjectView>, reals: Seq<(Seq<char>, Seq<char>)>) -> Effect {
    if f.stack@.len() < 2 {
        Err(underflow_error())
    } else {
        let text = format_text(h, format_of(h, top(f, 1)), format_args_of(h, top(f, 0)), reals);
        Ok((with_string(h, text), 2, Some(new_ref(h))))
    }
}

pub fn string_format_native(frame: &mut Frame, jvm: &mut Jvm, reals: &Vec<(Vec<char>, Vec<char>)>) -> (r: Result<(), JvmError>)
    requires
        old(frame).stack@.len() > 0 ==> reals@.len() >= format_args_of(old(jvm).hv(), top(*old(frame), 0)).len(),
    ensures
        same_but_heap(*old(jvm), *final(jvm)),
        outcome(*old(frame), old(jvm).hv(), *final(frame), final(jvm).hv(), r, string_format(*old(frame), old(jvm).hv(), reals_view(reals@))),
{
    let (fmt_ref, args_ref) = pop2(frame)?;
    let fmt: Vec<char> = match fmt_ref {
        Value::ObjectRef(id) => match crate::natives::common::string_elems(jvm, id) {
            Some(s) => crate::natives::lang::copy_chars_pub(s),
            None => Vec::new(),
        },
        _ => Vec::new(),
    };
    let args: Vec<Value> = match args_ref {
        Value::ArrayRef(id) => match crate::natives::common::array_elems(jvm, id) {
            Some(a) => {
                let c = crate::natives::arrays::copy_prefix(a, a.len());
                assert(a@.take(a@.len() as int) =~= a@);
                c
            },
            None => Vec::new(),
        },
        _ => Vec::new(),
    };
    let text = format_string(jvm, &fmt, &args, reals);
    let s = jvm.alloc_string(text);
    frame.push(Value::ObjectRef(s));
    Ok(())
}

/// `String.format("%d", x)` writes the decimal text of `x`: reading that text back as
/// a number gives `x`, for every `int` and every `long`.
pub proof fn law_format_decimal_reads_back(h: Seq<ObjectView>, v: Value, reals: Seq<(Seq<char>, Seq<char>)>)
    requires
        reals.len() >= 1,
        v is Int || v is Long,
    ensures
        ({
            let t = format_text(h, "%d"@, seq![v], reals);
            match v {
                Value::Int(x) => crate::stdlib::numtext::parse_integer(t, 10, i32::MIN as int, i32::MAX as int)
                    == Some(x as int),
                Value::Long(x) => crate::stdlib::numtext::parse_integer(t, 10, i64::MIN as int, i64::MAX as int)
                    == Some(x as int),
                _ => true,
            }
        }),
{
    reveal_strlit("%d");
    let f = "%d"@;
    assert(f.len() == 2 && f[0] == '%' && f[1] == 'd');
    assert(format_from(h, f, seq![v], reals, 2, 1) == Seq::<char>::empty());
    let c = conversion(h, 'd', v, reals[0]);
    assert(format_text(h, f, seq![v], reals) == c + Seq::<char>::empty());
    assert(c + Seq::<char>::empty() =~= c);
    match v {
        Value::Int(x) => crate::stdlib::numtext::law_decimal_parse_round_trip(x as int, i32::MIN as int, i32::MAX as int),
        Value::Long(x) => crate::stdlib::numtext::law_decimal_parse_round_trip(x as int, i64::MIN as int, i64::MAX as int),
        _ => {},
    }
}

proof fn lemma_one_conversion(h: Seq<ObjectView>, c: char, v: Value, reals: Seq<(Seq<char>, Seq<char>)>)
    requires
        reals.len() >= 1,
        c == 's' || c == 'd' || c == 'f' || c == 'x',
    ensures
        format_text(h, seq!['%', c], seq![v], reals) == conversion(h, c, v, reals[0]),
{
    let f = seq!['%', c];
    assert(format_from(h, f, seq![v], reals, 2, 1) == Seq::<char>::empty());
    assert(format_text(h, f, seq![v], reals) == conversion(h, c, v, reals[0]) + Seq::<char>::empty());
    assert(conversion(h, c, v, reals[0]) + Seq::<char>::empty() =~= conversion(h, c, v, reals[0]));
}

/// `String.format("%x", x)` writes the hexadecimal digits of `x`'s unsigned bits:
/// read back in base 16 they give `x` for every `int` and `long` that is not negative,
/// and the 32-bit (64-bit) two's-complement value for one that is.
pub proof fn law_format_hex_reads_back(h: Seq<ObjectView>, v: Value, reals: Seq<(Seq<char>, Seq<char>)>)
    requires
        reals.len() >= 1,
        v is Int || v is Long,
    ensures
        ({
            let t = format_text(h, "%x"@, seq![v], reals);
            match v {
                Value::Int(x) => {
                    &&& crate::stdlib::numtext::parse_integer(t, 16, 0, u32::MAX as int) == Some((x as u32) as int)
                    &&& x >= 0 ==> crate::stdlib::numtext::parse_integer(t, 16, 0, u32::MAX as int) == Some(x as int)
                },
                Value::Long(x) => {
                    &&& crate::stdlib::numtext::parse_integer(t, 16, 0, u64::MAX as int) == Some((x as u64) as int)
                    &&& x >= 0 ==> crate::stdlib::numtext::parse_integer(t, 16, 0, u64::MAX as int) == Some(x as int)
                },
                _ => true,
            }
        }),
{
    reveal_strlit("%x");
    assert("%x"@ =~= seq!['%', 'x']);
    lemma_one_conversion(h, 'x', v, reals);
    match v {
        Value::Int(x) => {
            crate::stdlib::numtext::law_hex_parse_round_trip((x as u32) as nat, u32::MAX as int);
            assert(x >= 0 ==> x as u32 == x) by (bit_vector);
        },
        Value::Long(x) => {
            crate::stdlib::numtext::law_hex_parse_round_trip((x as u64) as nat, u64::MAX as int);
            assert(x >= 0 ==> x as u64 == x) by (bit_vector);
        },
        _ => {},
    }
}

/// `String.format("%s", s)` with a string argument writes that string's text, and
/// with `null` writes `null`.
pub proof fn law_format_string_arg(h: Seq<ObjectView>, v: Value, reals: Seq<(Seq<char>, Seq<char>)>)
    requires
        reals.len() >= 1,
    ensures
        v == Value::Null ==> format_text(h, "%s"@, seq![v], reals) == "null"@,
        (v matches Value::ObjectRef(id) && string_of(h, id) is Some)
            ==> format_text(h, "%s"@, seq![v], reals) == string_of(h, v->ObjectRef_0)->0,
{
    reveal_strlit("%s");
    assert("%s"@ =~= seq!['%', 's']);
    lemma_one_conversion(h, 's', v, reals);
}

proof fn lemma_plain_text(h: Seq<ObjectView>, f: Seq<char>, args: Seq<Value>, reals: Seq<(Seq<char>, Seq<char>)>, i: int, k: int)
    requires
        0 <= i <= f.len(),
        forall|j: int| 0 <= j < f.len() ==> f[j] != '%',
    ensures
        format_from(h, f, args, reals, i, k) == f.subrange(i, f.len() as int),
    decreases f.len() - i,
{
    if i < f.len() {
        lemma_plain_text(h, f, args, reals, i + 1, k);
        assert(seq![f[i]] + f.subrange(i + 1, f.len() as int) =~= f.subrange(i, f.len() as int));
    } else {
        assert(f.subrange(i, f.len() as int) =~= Seq::<char>::empty());
    }
}

/// A format text with no `%` in it is written as it stands, whatever the arguments.
pub proof fn law_format_plain_text(h: Seq<ObjectView>, f: Seq<char>, args: Seq<Value>, reals: Seq<(Seq<char>, Seq<char>)>)
    requires
        forall|j: int| 0 <= j < f.len() ==> f[j] != '%',
    ensures
        format_text(h, f, args, reals) == f,
{
    lemma_plain_text(h, f, args, reals, 0, 0);
    assert(f.subrange(0, f.len() as int) =~= f);
}

/// `%n` writes a line break and `%%` one percent sign, and neither uses an argument:
/// the next conversion takes the same argument as it would without them.
pub proof fn law_format_escapes(h: Seq<ObjectView>, f: Seq<char>, args: Seq<Value>, reals: Seq<(Seq<char>, Seq<char>)>, k: int)
    ensures
        format_from(h, seq!['%', 'n'] + f, args, reals, 0, k)
            == seq!['\n'] + format_from(h, f, args, reals, 0, k),
        format_from(h, seq!['%', '%'] + f, args, reals, 0, k)
            == seq!['%'] + format_from(h, f, args, reals, 0, k),
{
    lemma_format_from_shift(h, seq!['%', 'n'], f, args, reals, 0, k);
    lemma_format_from_shift(h, seq!['%', '%'], f, args, reals, 0, k);
}

proof fn lemma_format_from_shift(h: Seq<ObjectView>, p: Seq<char>, f: Seq<char>, args: Seq<Value>, reals: Seq<(Seq<char>, Seq<char>)>, i: int, k: int)
    requires
        p.len() == 2,
        p[0] == '%',
        0 <= i <= f.len(),
    ensures
        format_from(h, p + f, args, reals, i + 2, k) == format_from(h, f, args, reals, i, k),
    decreases f.len() - i,
{
    let g = p + f;
    if i < f.len() {
        assert(g[i + 2] == f[i]);
        if f[i] == '%' && i + 1 < f.len() {
            assert(g[i + 3] == f[i + 1]);
            if i + 2 <= f.len() {
                lemma_format_from_shift(h, p, f, args, reals, i + 2, k);
                if 0 <= k < args.len() {
                    lemma_format_from_shift(h, p, f, args, reals, i + 2, k + 1);
                }
            }
        } else if f[i] != '%' {
            lemma_format_from_shift(h, p, f, args, reals, i + 1, k);
        }
    }
}

/// `String.format(fmt, args)` with the format `%d` and an argument array whose first
/// element is an `int` makes a new string whose text reads back in base 10 as that
/// `int`; the format's own text and the arguments are left as they were.
pub proof fn law_string_format_decimal(f: Frame, h: Seq<ObjectView>, reals: Seq<(Seq<char>, Seq<char>)>)
    requires
        f.stack@.len() >= 2,
        reals.len() >= 1,
        format_of(h, top(f, 1)) == "%d"@,
        format_args_of(h, top(f, 0)).len() >= 1,
        format_args_of(h, top(f, 0))[0] is Int,
    ensures
        ({
            let r = string_format(f, h, reals);
            let h1 = r->Ok_0.0;
            &&& r is Ok
            &&& r->Ok_0.1 == 2
            &&& r->Ok_0.2 == Some(new_ref(h))
            &&& h1.len() == h.len() + 1
            &&& h1.subrange(0, h.len() as int) == h
            &&& h1[h.len() as int].string matches Some(t)
            &&& crate::stdlib::numtext::parse_integer(t, 10, i32::MIN as int, i32::MAX as int)
                == Some(format_args_of(h, top(f, 0))[0]->Int_0 as int)
        }),
{
    let args = format_args_of(h, top(f, 0));
    let v = args[0];
    reveal_strlit("%d");
    let fm = "%d"@;
    assert(fm =~= seq!['%', 'd']);
    assert(format_from(h, fm, args, reals, 2, 1) == Seq::<char>::empty());
    let c = conversion(h, 'd', v, reals[0]);
    assert(format_text(h, fm, args, reals) == c + Seq::<char>::empty());
    assert(c + Seq::<char>::empty() =~= c);
    crate::stdlib::numtext::law_decimal_parse_round_trip(v->Int_0 as int, i32::MIN as int, i32::MAX as int);
    let r = string_format(f, h, reals);
    assert(r->Ok_0.0.subrange(0, h.len() as int) =~= h);
}

} // verus!
