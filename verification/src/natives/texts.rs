use vstd::prelude::*;
use crate::natives::bignum::{trunc_div, trunc_div_exec};
use crate::natives::collections::trunc_rem;
use crate::natives::common::{
    array_elems, array_of, field_of, local_missing, outcome, pop1, string_of, this_of, top, Effect,
};
use crate::natives::format::{copy_into, push_value_text, value_text};
use crate::natives::lang::{new_ref, object_text, with_string};
use crate::natives::sorting::{sort_key, sort_key_exec};
use crate::runtime::error::{JvmError, RuntimeError};
use crate::runtime::frame::{local_error, underflow_error, Frame};
use crate::runtime::heap::ObjectView;
use crate::runtime::jvm::{same_but_heap, Jvm};
use crate::runtime::value::Value;
use crate::stdlib::numtext::{bool_text, bool_to_chars};
use crate::text::{chars_of, decimal, push_decimal, push_signed_decimal, signed_decimal};

verus! {

// ---------- Objects.compare ----------

/// `Objects.compare(a, b, comparator)` (the comparator unused): 0 for identical values,
/// else -1, 0 or 1 as the sort keys compare.
pub open spec fn objects_compare(f: Frame, h: Seq<ObjectView>) -> Effect {
    if f.stack@.len() < 3 {
        Err(underflow_error())
    } else {
        let a = top(f, 2);
        let b = top(f, 1);
        Ok((h, 3, Some(Value::Int(if a == b {
            0i32
        } else if sort_key(a) < sort_key(b) {
            -1i32
        } else if sort_key(a) > sort_key(b) {
            1i32
        } else {
            0i32
        }))))
    }
}

pub fn objects_compare_native(frame: &mut Frame, jvm: &mut Jvm) -> (r: Result<(), JvmError>)
    ensures
        *final(jvm) == *old(jvm),
        outcome(*old(frame), old(jvm).hv(), *final(frame), final(jvm).hv(), r, objects_compare(*old(frame), old(jvm).hv())),
{
    if frame.stack.len() < 3 {
        return Err(JvmError::RuntimeError(RuntimeError::StackUnderflow));
    }
    let _comparator = frame.pop()?;
    let b = frame.pop()?;
    let a = frame.pop()?;
    assert(frame.stack@ =~= crate::natives::common::popped(*old(frame), 3));
    let ka = sort_key_exec(a);
    let kb = sort_key_exec(b);
    let result: i32 = if a == b {
        0
    } else if ka < kb {
        -1
    } else if ka > kb {
        1
    } else {
        0
    };
    frame.push(Value::Int(result));
    Ok(())
}

// ---------- Objects.toString ----------

/// `Objects.toString(x)`: a new string with `null` for `null`, the text of a string,
/// `Class@id` for another live object, or the value's display text (`shown` for a
/// floating-point value); nothing is answered for a reference to no object.
pub open spec fn objects_to_string(f: Frame, h: Seq<ObjectView>, shown: Seq<char>) -> Effect {
    if f.stack@.len() == 0 {
        Err(underflow_error())
    } else {
        match top(f, 0) {
            Value::Null => Ok((with_string(h, "null"@), 1, Some(new_ref(h)))),
            Value::ObjectRef(id) => if id < h.len() {
                Ok((with_string(h, match h[id as int].string {
                    Some(s) => s,
                    None => object_text(h[id as int].class_name, id),
                }), 1, Some(new_ref(h))))
            } else {
                Ok((h, 1, None))
            },
            v => Ok((with_string(h, value_text(h, v, shown)), 1, Some(new_ref(h)))),
        }
    }
}

pub fn objects_to_string_native(frame: &mut Frame, jvm: &mut Jvm, shown: &Vec<char>) -> (r: Result<(), JvmError>)
    ensures
        same_but_heap(*old(jvm), *final(jvm)),
        outcome(*old(frame), old(jvm).hv(), *final(frame), final(jvm).hv(), r, objects_to_string(*old(frame), old(jvm).hv(), shown@)),
{
    let v = pop1(frame)?;
    if let Value::ObjectRef(id) = v {
        if id >= jvm.heap.len() {
            return Ok(());
        }
    }
    let mut t: Vec<char> = Vec::new();
    push_value_text(&mut t, jvm, v, shown);
    assert(t@ =~= value_text(jvm.hv(), v, shown@));
    let s = jvm.alloc_string(t);
    frame.push(Value::ObjectRef(s));
    Ok(())
}

// ---------- Arrays.toString ----------

/// The text `Arrays.toString` shows for one element (`shown` for a floating-point
/// one): numbers and booleans as usual, `null`, a string's text or `@id` for another
/// reference, `?` for anything else.
pub open spec fn element_text(h: Seq<ObjectView>, v: Value, shown: Seq<char>) -> Seq<char> {
    match v {
        Value::Int(x) => signed_decimal(x as int),
        Value::Long(x) => signed_decimal(x as int),
        Value::Float(_) => shown,
        Value::Double(_) => shown,
        Value::Boolean(b) => bool_text(b),
        Value::Null => "null"@,
        Value::ObjectRef(id) => match string_of(h, id) {
            Some(s) => s,
            None => seq!['@'] + decimal(id as nat),
        },
        _ => "?"@,
    }
}

/// The texts given, as character sequences.
pub open spec fn texts_view(r: Seq<Vec<char>>) -> Seq<Seq<char>> {
    r.map_values(|t: Vec<char>| t@)
}

/// The display text given for element `i`, empty when none is.
pub open spec fn shown_at(reals: Seq<Seq<char>>, i: int) -> Seq<char> {
    if 0 <= i < reals.len() {
        reals[i]
    } else {
        Seq::<char>::empty()
    }
}

/// The texts of the first `n` elements joined by `, `.
pub open spec fn joined(h: Seq<ObjectView>, e: Seq<Value>, reals: Seq<Seq<char>>, n: int) -> Seq<char>
    decreases n,
{
    if n <= 0 {
        Seq::<char>::empty()
    } else {
        joined(h, e, reals, n - 1) + (if n > 1 {
            ", "@
        } else {
            Seq::<char>::empty()
        }) + element_text(h, e[n - 1], shown_at(reals, n - 1))
    }
}

/// `Arrays.toString(array)`: a new string `[e0, e1, ...]` (`[]` when the argument is
/// no array); `reals[i]` is the display text of element `i` when it is a float.
pub open spec fn arrays_to_string(f: Frame, h: Seq<ObjectView>, reals: Seq<Seq<char>>) -> Effect {
    if f.stack@.len() == 0 {
        Err(underflow_error())
    } else {
        let e = match top(f, 0) {
            Value::ArrayRef(a) => match array_of(h, a) {
                Some(e) => e,
                None => Seq::<Value>::empty(),
            },
            _ => Seq::<Value>::empty(),
        };
        Ok((with_string(h, seq!['['] + joined(h, e, reals, e.len() as int) + seq![']']), 1, Some(new_ref(h))))
    }
}

fn push_element_text(out: &mut Vec<char>, jvm: &Jvm, v: Value, shown: &Vec<char>)
    ensures
        final(out)@ == old(out)@ + element_text(jvm.hv(), v, shown@),
{
    match v {
        Value::Int(x) => push_signed_decimal(out, x as i64),
        Value::Long(x) => push_signed_decimal(out, x),
        Value::Float(_) => copy_into(out, shown),
        Value::Double(_) => copy_into(out, shown),
        Value::Boolean(b) => {
            let mut t = bool_to_chars(b);
            out.append(&mut t);
        },
        Value::Null => {
            let mut t = chars_of("null");
            out.append(&mut t);
        },
        Value::ObjectRef(id) => match crate::natives::common::string_elems(jvm, id) {
            Some(s) => copy_into(out, s),
            None => {
                out.push('@');
                push_decimal(out, id as u64);
                assert(out@ =~= old(out)@ + (seq!['@'] + decimal(id as nat)));
            },
        },
        _ => {
            let mut t = chars_of("?");
            out.append(&mut t);
        },
    }
}

pub fn arrays_to_string_native(frame: &mut Frame, jvm: &mut Jvm, reals: &Vec<Vec<char>>) -> (r: Result<(), JvmError>)
    ensures
        same_but_heap(*old(jvm), *final(jvm)),
        outcome(*old(frame), old(jvm).hv(), *final(frame), final(jvm).hv(), r,
            arrays_to_string(*old(frame), old(jvm).hv(), texts_view(reals@))),
{
    let v = pop1(frame)?;
    let ghost rv = texts_view(reals@);
    let e: Vec<Value> = match v {
        Value::ArrayRef(a) => match array_elems(jvm, a) {
            Some(e) => crate::natives::arrays::copy_prefix(e, e.len()),
            None => Vec::new(),
        },
        _ => Vec::new(),
    };
    proof {
        match v {
            Value::ArrayRef(a) => match array_of(jvm.hv(), a) {
                Some(x) => {
                    assert(x.take(x.len() as int) =~= x);
                },
                None => {},
            },
            _ => {},
        }
    }
    let mut t: Vec<char> = Vec::new();
    t.push('[');
    let mut i: usize = 0;
    while i < e.len()
        invariant
            i <= e@.len(),
            rv == texts_view(reals@),
            t@ == seq!['['] + joined(jvm.hv(), e@, rv, i as int),
        decreases e@.len() - i,
    {
        if i > 0 {
            t.push(',');
            t.push(' ');
        }
        let shown: Vec<char> = if i < reals.len() {
            crate::natives::lang::copy_chars_pub(&reals[i])
        } else {
            Vec::new()
        };
        proof {
            reveal_strlit(", ");
            if i < reals@.len() {
                assert(rv[i as int] == reals@[i as int]@);
            }
        }
        assert(shown@ == shown_at(rv, i as int));
        push_element_text(&mut t, jvm, e[i], &shown);
        i += 1;
        assert(t@ =~= seq!['['] + joined(jvm.hv(), e@, rv, i as int));
    }
    t.push(']');
    assert(t@ =~= seq!['['] + joined(jvm.hv(), e@, rv, e@.len() as int) + seq![']']);
    let s = jvm.alloc_string(t);
    frame.push(Value::ObjectRef(s));
    Ok(())
}

// ---------- Date.toString ----------

/// A number as `{:02}` writes it: one digit gets a leading `0`.
pub open spec fn pad2(i: int) -> Seq<char> {
    if 0 <= i < 10 {
        seq!['0'] + decimal(i as nat)
    } else {
        signed_decimal(i)
    }
}

/// The text `Date.toString` gives for `ms` milliseconds after the epoch: month, day,
/// hours, minutes, seconds, `UTC` and year, from an approximate calendar of 365-day
/// years and 30-day months (all divisions truncating toward zero).
pub open spec fn date_text(ms: int) -> Seq<char> {
    let secs = trunc_div(ms, 1000);
    let days = trunc_div(secs, 86400);
    let ts = trunc_rem(secs, 86400);
    let hours = trunc_div(ts, 3600);
    let minutes = trunc_div(trunc_rem(ts, 3600), 60);
    let seconds = trunc_rem(ts, 60);
    let year = 1970 + trunc_div(days, 365);
    let doy = trunc_rem(days, 365);
    let month = if trunc_div(doy, 30) < 11 {
        trunc_div(doy, 30)
    } else {
        11
    };
    let day = if trunc_rem(doy, 30) + 1 < 31 {
        trunc_rem(doy, 30) + 1
    } else {
        31
    };
    pad2(month + 1) + seq![' '] + pad2(day) + seq![' '] + pad2(hours) + seq![':'] + pad2(minutes) + seq![':']
        + pad2(seconds) + " UTC "@ + signed_decimal(year)
}

/// `Date.toString()`: a new string with `date_text` of the receiver's `fastTime`
/// (0 when unset or not a `long`).
pub open spec fn date_to_string(f: Frame, h: Seq<ObjectView>) -> Effect {
    if local_missing(f, 0) {
        Err(local_error())
    } else {
        let ms: i64 = match this_of(f) {
            Value::ObjectRef(id) => match field_of(h, id, "fastTime"@) {
                Some(Value::Long(t)) => t,
                _ => 0,
            },
            _ => 0,
        };
        Ok((with_string(h, date_text(ms as int)), 0, Some(new_ref(h))))
    }
}

fn trunc_rem_exec(a: i64, b: i64) -> (r: i64)
    requires
        0 < b,
    ensures
        r == trunc_rem(a as int, b as int),
{
    let ua: u64 = if a < 0 {
        if a == i64::MIN {
            0x8000_0000_0000_0000
        } else {
            (-a) as u64
        }
    } else {
        a as u64
    };
    let m = ua % (b as u64);
    assert(m < b);
    if a >= 0 {
        m as i64
    } else {
        -(m as i64)
    }
}

fn push_pad2(out: &mut Vec<char>, i: i64)
    ensures
        final(out)@ == old(out)@ + pad2(i as int),
{
    if 0 <= i && i < 10 {
        out.push('0');
        push_decimal(out, i as u64);
        assert(out@ =~= old(out)@ + (seq!['0'] + decimal(i as nat)));
    } else {
        push_signed_decimal(out, i);
    }
}

proof fn lemma_trunc_div_le(a: int, b: int)
    requires
        b >= 1,
    ensures
        -abs_i(a) <= trunc_div(a, b) <= abs_i(a),
{
    let q = crate::natives::bignum::abs(a) / crate::natives::bignum::abs(b);
    assert(q <= crate::natives::bignum::abs(a)) by (nonlinear_arith)
        requires
            q == crate::natives::bignum::abs(a) / crate::natives::bignum::abs(b),
            crate::natives::bignum::abs(b) >= 1,
            crate::natives::bignum::abs(a) >= 0,
    ;
}

pub open spec fn abs_i(a: int) -> int {
    if a < 0 {
        -a
    } else {
        a
    }
}

pub fn date_text_exec(ms: i64) -> (r: Vec<char>)
    ensures
        r@ == date_text(ms as int),
{
    let secs = trunc_div_exec(ms, 1000);
    proof {
        lemma_trunc_div_le(ms as int, 1000);
    }
    let days = trunc_div_exec(secs, 86400);
    let ts = trunc_rem_exec(secs, 86400);
    let hours = trunc_div_exec(ts, 3600);
    let minutes = trunc_div_exec(trunc_rem_exec(ts, 3600), 60);
    let seconds = trunc_rem_exec(ts, 60);
    let yq = trunc_div_exec(days, 365);
    proof {
        lemma_trunc_div_le(secs as int, 86400);
        assert(trunc_div(ms as int, 1000) * 1000 <= abs_i(ms as int) || true);
    }
    let doy = trunc_rem_exec(days, 365);
    let mq = trunc_div_exec(doy, 30);
    let month: i64 = if mq < 11 {
        mq
    } else {
        11
    };
    let dr = trunc_rem_exec(doy, 30) + 1;
    let day: i64 = if dr < 31 {
        dr
    } else {
        31
    };
    proof {
        lemma_trunc_div_le(days as int, 365);
        lemma_trunc_div_le(doy as int, 30);
    }
    let mut t: Vec<char> = Vec::new();
    push_pad2(&mut t, month + 1);
    t.push(' ');
    push_pad2(&mut t, day);
    t.push(' ');
    push_pad2(&mut t, hours);
    t.push(':');
    push_pad2(&mut t, minutes);
    t.push(':');
    push_pad2(&mut t, seconds);
    let mut u = chars_of(" UTC ");
    t.append(&mut u);
    push_signed_decimal(&mut t, 1970 + yq);
    assert(t@ =~= date_text(ms as int));
    t
}

pub fn date_to_string_native(frame: &mut Frame, jvm: &mut Jvm) -> (r: Result<(), JvmError>)
    ensures
        same_but_heap(*old(jvm), *final(jvm)),
        outcome(*old(frame), old(jvm).hv(), *final(frame), final(jvm).hv(), r, date_to_string(*old(frame), old(jvm).hv())),
{
    let this = frame.get_local(0)?;
    proof {
        crate::natives::common::lemma_popped_zero(*old(frame));
    }
    let ms: i64 = match this {
        Value::ObjectRef(id) => match crate::natives::common::get_field_of(jvm, id, "fastTime") {
            Some(Value::Long(t)) => t,
            _ => 0,
        },
        _ => 0,
    };
    let text = date_text_exec(ms);
    let s = jvm.alloc_string(text);
    frame.push(Value::ObjectRef(s));
    Ok(())
}

/// `Arrays.toString` writes its text between `[` and `]`: `[]` for an empty array or
/// no array at all, and for an array of one `int` that number's decimal text (which
/// reads back as it) between the brackets.
pub proof fn law_arrays_to_string(f: Frame, h: Seq<ObjectView>, reals: Seq<Seq<char>>)
    requires
        f.stack@.len() >= 1,
    ensures
        ({
            let r = arrays_to_string(f, h, reals);
            let h1 = r->Ok_0.0;
            let e = match top(f, 0) {
                Value::ArrayRef(a) => match array_of(h, a) {
                    Some(e) => e,
                    None => Seq::<Value>::empty(),
                },
                _ => Seq::<Value>::empty(),
            };
            &&& r is Ok
            &&& r->Ok_0.2 == Some(new_ref(h))
            &&& h1.len() == h.len() + 1
            &&& h1[h.len() as int].string matches Some(t)
            &&& t.len() >= 2 && t[0] == '[' && t[t.len() - 1] == ']'
            &&& e.len() == 0 ==> t == seq!['[', ']']
            &&& (e.len() == 1 && e[0] is Int) ==> crate::stdlib::numtext::parse_integer(
                t.subrange(1, t.len() - 1), 10, i32::MIN as int, i32::MAX as int) == Some(e[0]->Int_0 as int)
        }),
{
    let e = match top(f, 0) {
        Value::ArrayRef(a) => match array_of(h, a) {
            Some(e) => e,
            None => Seq::<Value>::empty(),
        },
        _ => Seq::<Value>::empty(),
    };
    let j = joined(h, e, reals, e.len() as int);
    let t = seq!['['] + j + seq![']'];
    assert(t.len() >= 2 && t[0] == '[' && t[t.len() - 1] == ']');
    if e.len() == 0 {
        assert(t =~= seq!['[', ']']);
    }
    if e.len() == 1 && e[0] is Int {
        assert(joined(h, e, reals, 0) == Seq::<char>::empty());
        let x = element_text(h, e[0], shown_at(reals, 0));
        assert(j == Seq::<char>::empty() + Seq::<char>::empty() + x);
        assert(j =~= x);
        assert(t.subrange(1, t.len() - 1) =~= j);
        crate::stdlib::numtext::law_decimal_parse_round_trip(e[0]->Int_0 as int, i32::MIN as int, i32::MAX as int);
    }
}

} // verus!
