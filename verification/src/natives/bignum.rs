use vstd::prelude::*;
use crate::natives::common::{
    array_elems, array_of, call_error, field_of, get_field_of, local_missing, outcome, pop1_this,
    string_elems, string_of, this_of, top, Effect,
};
use crate::natives::digits::{
    add_digits, all_digits, canon, digits_low_u64, digits_of_text, digits_of_u64, digits_ok, digits_text,
    divmod_digits, dval, lemma_canon, lemma_trimmed_canon, mul_digits, sub_digits, text_value, trim_digits,
};
use crate::natives::lang::{new_ref, with_string};
use crate::runtime::error::{JvmError, RuntimeError};
use crate::runtime::frame::{local_error, Frame};
use crate::runtime::heap::{HeapObject, ObjectView};
use crate::runtime::jvm::{heap_set_field, same_but_heap, Jvm};
use crate::runtime::value::{spec_as_long, Value};
use crate::text::signed_decimal;

verus! {

// A `BigInteger` is an integer of any size: its `mag` field refers to an `int[]` of
// its decimal digits, least significant first and with no zero at the top, and its
// `negative` field tells its sign.

/// The digit an element of a magnitude array stands for (0 for anything that is
/// no digit).
pub open spec fn digit_of(v: Value) -> u8 {
    match v {
        Value::Int(d) => if 0 <= d <= 9 {
            d as u8
        } else {
            0
        },
        _ => 0,
    }
}

/// The magnitude digits of the `BigInteger` that `v` refers to (none when it has no
/// magnitude array).
pub open spec fn big_digits(h: Seq<ObjectView>, v: Value) -> Seq<u8> {
    match v {
        Value::ObjectRef(id) => match field_of(h, id, "mag"@) {
            Some(Value::ArrayRef(a)) => match array_of(h, a) {
                Some(e) => Seq::new(e.len(), |i: int| digit_of(e[i])),
                None => Seq::empty(),
            },
            _ => Seq::empty(),
        },
        _ => Seq::empty(),
    }
}

/// Whether the `BigInteger` that `v` refers to is negative.
pub open spec fn big_negative(h: Seq<ObjectView>, v: Value) -> bool {
    match v {
        Value::ObjectRef(id) => field_of(h, id, "negative"@) == Some(Value::Boolean(true)),
        _ => false,
    }
}

/// The integer the `BigInteger` that `v` refers to stands for.
pub open spec fn big_value(h: Seq<ObjectView>, v: Value) -> int {
    let m = dval(big_digits(h, v)) as int;
    if big_negative(h, v) {
        -m
    } else {
        m
    }
}

/// The magnitude array of `x`: its shortest digits as `int`s.
pub open spec fn mag_array(x: int) -> ObjectView {
    let d = canon(abs(x) as nat);
    ObjectView::array_obj("[I"@, Seq::new(d.len(), |i: int| Value::Int(d[i] as i32)))
}

/// The heap with a new `BigInteger` for `x` (its magnitude array first, then the
/// object).
pub open spec fn with_big(h: Seq<ObjectView>, x: int) -> Seq<ObjectView> {
    h.push(mag_array(x)).push(
        ObjectView::plain("java.math.BigInteger"@).with_field("mag"@, Value::ArrayRef(h.len() as usize)).with_field(
            "negative"@,
            Value::Boolean(x < 0),
        ),
    )
}

/// The heap after the object `this` is made to stand for `x`.
pub open spec fn set_big(h: Seq<ObjectView>, this: Value, x: int) -> Seq<ObjectView> {
    heap_set_field(
        heap_set_field(h.push(mag_array(x)), this, "mag"@, Value::ArrayRef(h.len() as usize)),
        this,
        "negative"@,
        Value::Boolean(x < 0),
    )
}

/// The digits and sign of the `BigInteger` that `v` refers to.
fn big_parts(jvm: &Jvm, v: Value) -> (r: (Vec<u8>, bool))
    ensures
        digits_ok(r.0@),
        r.0@ == big_digits(jvm.hv(), v),
        r.1 == big_negative(jvm.hv(), v),
{
    let mut d: Vec<u8> = Vec::new();
    let mut neg = false;
    if let Value::ObjectRef(id) = v {
        neg = match get_field_of(jvm, id, "negative") {
            Some(Value::Boolean(true)) => true,
            _ => false,
        };
        if let Some(Value::ArrayRef(a)) = get_field_of(jvm, id, "mag") {
            if let Some(e) = array_elems(jvm, a) {
                let mut i: usize = 0;
                while i < e.len()
                    invariant
                        i <= e@.len(),
                        d@ == Seq::new(i as nat, |k: int| digit_of(e@[k])),
                    decreases e@.len() - i,
                {
                    let x: u8 = match e[i] {
                        Value::Int(t) => if 0 <= t && t <= 9 {
                            t as u8
                        } else {
                            0
                        },
                        _ => 0,
                    };
                    d.push(x);
                    i += 1;
                    assert(d@ =~= Seq::new(i as nat, |k: int| digit_of(e@[k])));
                }
            }
        }
    }
    assert(digits_ok(d@));
    assert(d@ =~= big_digits(jvm.hv(), v));
    (d, neg)
}

/// Allocates the magnitude array of the integer with shortest digits `m` and sign
/// `neg` (`neg` only when `m` is not empty).
fn alloc_mag(jvm: &mut Jvm, m: &Vec<u8>, Ghost(x): Ghost<int>) -> (a: usize)
    requires
        m@ == canon(abs(x) as nat),
    ensures
        a == old(jvm).hv().len(),
        final(jvm).hv() == old(jvm).hv().push(mag_array(x)),
        same_but_heap(*old(jvm), *final(jvm)),
{
    let mut e: Vec<Value> = Vec::new();
    let mut i: usize = 0;
    proof {
        lemma_canon(abs(x) as nat);
    }
    while i < m.len()
        invariant
            i <= m@.len(),
            digits_ok(m@),
            e@ == Seq::new(i as nat, |k: int| Value::Int(m@[k] as i32)),
        decreases m@.len() - i,
    {
        e.push(Value::Int(m[i] as i32));
        i += 1;
        assert(e@ =~= Seq::new(i as nat, |k: int| Value::Int(m@[k] as i32)));
    }
    jvm.allocate(HeapObject::new_array_of(String::from_str("[I"), e))
}

/// Digits and sign of a `long`.
fn long_parts(x: i64) -> (r: Vec<u8>)
    ensures
        r@ == canon(abs(x as int) as nat),
{
    let m: u64 = if x < 0 {
        if x == i64::MIN {
            0x8000_0000_0000_0000u64
        } else {
            (-x) as u64
        }
    } else {
        x as u64
    };
    digits_of_u64(m)
}

/// `BigInteger(long)`: the receiver stands for the popped value (read as a `long`).
pub open spec fn big_init(f: Frame, h: Seq<ObjectView>) -> Effect {
    match call_error(f, 1) {
        Some(e) => Err(e),
        None => Ok((set_big(h, this_of(f), spec_as_long(top(f, 0)) as int), 1, None)),
    }
}

pub fn big_init_native(frame: &mut Frame, jvm: &mut Jvm) -> (r: Result<(), JvmError>)
    ensures
        same_but_heap(*old(jvm), *final(jvm)),
        outcome(*old(frame), old(jvm).hv(), *final(frame), final(jvm).hv(), r, big_init(*old(frame), old(jvm).hv())),
{
    let (this, v) = pop1_this(frame)?;
    let x = v.as_long();
    let m = long_parts(x);
    let a = alloc_mag(jvm, &m, Ghost(x as int));
    jvm.set_field(this, "mag", Value::ArrayRef(a));
    jvm.set_field(this, "negative", Value::Boolean(x < 0));
    Ok(())
}

/// What a decimal text names: an optional `-` or `+` followed by at least one digit.
pub open spec fn big_text_value(s: Seq<char>) -> Option<int> {
    let signed = s.len() > 0 && (s[0] == '-' || s[0] == '+');
    let body = if signed {
        s.drop_first()
    } else {
        s
    };
    if body.len() > 0 && all_digits(body) {
        Some(if signed && s[0] == '-' {
            -(text_value(body) as int)
        } else {
            text_value(body) as int
        })
    } else {
        None
    }
}

/// `BigInteger(String)`: the receiver stands for the integer local 1 names; a text
/// that names none fails with `NumberFormatException`, and `null` with
/// `NullPointerException`.
pub open spec fn big_init_string(f: Frame, h: Seq<ObjectView>) -> Effect {
    if local_missing(f, 1) {
        Err(local_error())
    } else {
        match f.locals@[1] {
            Value::ObjectRef(sid) => match string_of(h, sid) {
                Some(s) => match big_text_value(s) {
                    Some(x) => Ok((set_big(h, this_of(f), x), 0, None)),
                    None => Err(JvmError::RuntimeError(RuntimeError::NumberFormatException)),
                },
                None => Err(JvmError::RuntimeError(RuntimeError::NullPointerException)),
            },
            _ => Err(JvmError::RuntimeError(RuntimeError::NullPointerException)),
        }
    }
}

pub fn big_init_string_native(frame: &mut Frame, jvm: &mut Jvm) -> (r: Result<(), JvmError>)
    ensures
        same_but_heap(*old(jvm), *final(jvm)),
        outcome(*old(frame), old(jvm).hv(), *final(frame), final(jvm).hv(), r, big_init_string(*old(frame), old(jvm).hv())),
{
    let sv = frame.get_local(1)?;
    let this = frame.get_local(0)?;
    proof {
        crate::natives::common::lemma_popped_zero(*old(frame));
    }
    let s = match sv {
        Value::ObjectRef(id) => match string_elems(jvm, id) {
            Some(s) => s,
            None => {
                return Err(JvmError::RuntimeError(RuntimeError::NullPointerException));
            },
        },
        _ => {
            return Err(JvmError::RuntimeError(RuntimeError::NullPointerException));
        },
    };
    let signed = s.len() > 0 && (s[0] == '-' || s[0] == '+');
    let start: usize = if signed {
        1
    } else {
        0
    };
    let mut body: Vec<char> = Vec::new();
    let mut i = start;
    let mut ok = true;
    while i < s.len()
        invariant
            start <= i <= s@.len(),
            body@ == s@.subrange(start as int, i as int),
            ok <==> all_digits(body@),
        decreases s@.len() - i,
    {
        let c = s[i];
        let ghost old_body = body@;
        if !('0' <= c && c <= '9') {
            ok = false;
        }
        body.push(c);
        i += 1;
        assert(body@ =~= s@.subrange(start as int, i as int));
        proof {
            if all_digits(body@) {
                assert(body@[old_body.len() as int] == c);
                assert forall|j: int| 0 <= j < old_body.len() implies '0' <= #[trigger] old_body[j] && old_body[j] <= '9' by {
                    assert(body@[j] == old_body[j]);
                }
            }
            if all_digits(old_body) && '0' <= c && c <= '9' {
                assert forall|j: int| 0 <= j < body@.len() implies '0' <= #[trigger] body@[j] && body@[j] <= '9' by {
                    if j < old_body.len() {
                        assert(body@[j] == old_body[j]);
                    }
                }
            }
        }
    }
    proof {
        if signed {
            assert(body@ =~= s@.drop_first());
        } else {
            assert(body@ =~= s@);
        }
    }
    if body.len() == 0 || !ok {
        return Err(JvmError::RuntimeError(RuntimeError::NumberFormatException));
    }
    let neg = signed && s[0] == '-';
    let d = digits_of_text(body.as_slice());
    let m = trim_digits(&d);
    let ghost x: int = if neg {
        -(text_value(body@) as int)
    } else {
        text_value(body@) as int
    };
    let a = alloc_mag(jvm, &m, Ghost(x));
    let is_neg = neg && m.len() > 0;
    proof {
        lemma_canon(dval(d@));
        lemma_trimmed_canon(m@);
    }
    jvm.set_field(this, "mag", Value::ArrayRef(a));
    jvm.set_field(this, "negative", Value::Boolean(is_neg));
    Ok(())
}

/// The exact result of `add` (0), `subtract` (1), `multiply` (2) and `divide` (3),
/// division truncating toward zero.
pub open spec fn big_op(a: int, b: int, op: u8) -> int {
    if op == 0 {
        a + b
    } else if op == 1 {
        a - b
    } else if op == 2 {
        a * b
    } else {
        trunc_div(a, b)
    }
}

/// `a / b` rounded toward zero, as Rust divides.
pub open spec fn trunc_div(a: int, b: int) -> int {
    let q = abs(a) / abs(b);
    if (a < 0) == (b < 0) {
        q
    } else {
        -q
    }
}

pub open spec fn abs(a: int) -> int {
    if a < 0 {
        -a
    } else {
        a
    }
}

pub fn trunc_div_exec(a: i64, b: i64) -> (r: i64)
    requires
        b != 0,
        !(a == i64::MIN && b == -1),
    ensures
        r == trunc_div(a as int, b as int),
{
    let ua: u64 = if a < 0 {
        if a == i64::MIN {
            0x8000_0000_0000_0000
        } else {
            (-a) as u64
        }
    } else {
        a as u64
    };
    let ub: u64 = if b < 0 {
        if b == i64::MIN {
            0x8000_0000_0000_0000
        } else {
            (-b) as u64
        }
    } else {
        b as u64
    };
    let q = ua / ub;
    assert(q as int == abs(a as int) / abs(b as int));
    if (a < 0) == (b < 0) {
        proof {
            if a == i64::MIN {
                assert(ub >= 2);
                assert(q <= 0x4000_0000_0000_0000u64) by (nonlinear_arith)
                    requires
                        q == 0x8000_0000_0000_0000u64 / ub,
                        ub >= 2,
                ;
            } else {
                assert(q <= ua) by (nonlinear_arith)
                    requires
                        q == ua / ub,
                        ub >= 1,
                ;
            }
        }
        q as i64
    } else {
        proof {
            assert(q <= ua) by (nonlinear_arith)
                requires
                    q == ua / ub,
                    ub >= 1,
            ;
        }
        if q == 0x8000_0000_0000_0000 {
            i64::MIN
        } else {
            -(q as i64)
        }
    }
}

/// The binary operations: a new `BigInteger` for the exact result of the receiver's
/// integer combined with the argument's; dividing by 0 fails with
/// `ArithmeticException`.
pub open spec fn big_binary(f: Frame, h: Seq<ObjectView>, op: u8) -> Effect {
    match call_error(f, 1) {
        Some(e) => Err(e),
        None => {
            let a = big_value(h, this_of(f));
            let b = big_value(h, top(f, 0));
            if op >= 3 && b == 0 {
                Err(JvmError::RuntimeError(RuntimeError::ArithmeticException))
            } else {
                let x = big_op(a, b, op);
                Ok((with_big(h, x), 1, Some(Value::ObjectRef((h.len() + 1) as usize))))
            }
        },
    }
}

/// The sum of two signed magnitudes, as shortest digits and a sign.
fn signed_add(a: &Vec<u8>, an: bool, b: &Vec<u8>, bn: bool) -> (r: (Vec<u8>, bool))
    requires
        digits_ok(a@),
        digits_ok(b@),
    ensures
        r.0@ == canon(abs(signed(dval(a@), an) + signed(dval(b@), bn)) as nat),
        r.1 == (signed(dval(a@), an) + signed(dval(b@), bn) < 0),
{
    let (m, neg) = if an == bn {
        (add_digits(a, b), an)
    } else {
        let (d, borrow) = sub_digits(a, b);
        if !borrow {
            (d, an)
        } else {
            let (e, _) = sub_digits(b, a);
            (e, bn)
        }
    };
    let t = trim_digits(&m);
    let is_neg = neg && t.len() > 0;
    proof {
        lemma_trimmed_canon(t@);
    }
    (t, is_neg)
}

/// A magnitude with a sign.
pub open spec fn signed(m: nat, neg: bool) -> int {
    if neg {
        -(m as int)
    } else {
        m as int
    }
}

pub fn big_binary_native(frame: &mut Frame, jvm: &mut Jvm, op: u8) -> (r: Result<(), JvmError>)
    ensures
        same_but_heap(*old(jvm), *final(jvm)),
        outcome(*old(frame), old(jvm).hv(), *final(frame), final(jvm).hv(), r, big_binary(*old(frame), old(jvm).hv(), op)),
{
    let (this, other) = pop1_this(frame)?;
    let (a, an) = big_parts(jvm, this);
    let (b, bn) = big_parts(jvm, other);
    let ghost av = signed(dval(a@), an);
    let ghost bv = signed(dval(b@), bn);
    assert(av == big_value(jvm.hv(), this) && bv == big_value(jvm.hv(), other));
    let ghost x = big_op(av, bv, op);
    let (m, neg) = if op == 0 {
        signed_add(&a, an, &b, bn)
    } else if op == 1 {
        proof {
            assert(signed(dval(b@), !bn) == -bv);
        }
        signed_add(&a, an, &b, !bn)
    } else if op == 2 {
        let p = mul_digits(&a, &b);
        let t = trim_digits(&p);
        let is_neg = (an != bn) && t.len() > 0;
        proof {
            lemma_trimmed_canon(t@);
            assert(abs(av * bv) == dval(a@) * dval(b@)) by (nonlinear_arith)
                requires
                    av == signed(dval(a@), an),
                    bv == signed(dval(b@), bn),
            ;
            assert((av * bv < 0) == ((an != bn) && dval(a@) * dval(b@) > 0)) by (nonlinear_arith)
                requires
                    av == signed(dval(a@), an),
                    bv == signed(dval(b@), bn),
            ;
        }
        (t, is_neg)
    } else {
        let bz = trim_digits(&b);
        if bz.len() == 0 {
            proof {
                lemma_trimmed_canon(bz@);
            }
            return Err(JvmError::RuntimeError(RuntimeError::ArithmeticException));
        }
        proof {
            lemma_trimmed_canon(bz@);
        }
        let (q, _rem) = divmod_digits(&a, &b);
        let t = trim_digits(&q);
        let is_neg = (an != bn) && t.len() > 0;
        proof {
            lemma_trimmed_canon(t@);
            assert(abs(av) == dval(a@) && abs(bv) == dval(b@));
        }
        (t, is_neg)
    };
    let ghost h0 = jvm.hv();
    let ma = alloc_mag(jvm, &m, Ghost(x));
    let o = jvm.allocate(HeapObject::new(String::from_str("java.math.BigInteger")));
    jvm.set_field(Value::ObjectRef(o), "mag", Value::ArrayRef(ma));
    jvm.set_field(Value::ObjectRef(o), "negative", Value::Boolean(neg));
    assert(jvm.hv() =~= with_big(h0, x));
    frame.push(Value::ObjectRef(o));
    Ok(())
}

/// `BigInteger.toString()`: a new string with the decimal text of the integer.
pub open spec fn big_to_string(f: Frame, h: Seq<ObjectView>) -> Effect {
    if local_missing(f, 0) {
        Err(local_error())
    } else {
        Ok((with_string(h, signed_decimal(big_value(h, this_of(f)))), 0, Some(new_ref(h))))
    }
}

pub fn big_to_string_native(frame: &mut Frame, jvm: &mut Jvm) -> (r: Result<(), JvmError>)
    ensures
        same_but_heap(*old(jvm), *final(jvm)),
        outcome(*old(frame), old(jvm).hv(), *final(frame), final(jvm).hv(), r, big_to_string(*old(frame), old(jvm).hv())),
{
    let this = frame.get_local(0)?;
    proof {
        crate::natives::common::lemma_popped_zero(*old(frame));
    }
    let (m0, neg0) = big_parts(jvm, this);
    let m = trim_digits(&m0);
    let neg = neg0 && m.len() > 0;
    proof {
        lemma_trimmed_canon(m@);
    }
    let digits = digits_text(&m);
    let mut t: Vec<char> = Vec::new();
    if neg {
        t.push('-');
    }
    let mut i: usize = 0;
    while i < digits.len()
        invariant
            i <= digits@.len(),
            t@ == (if neg { seq!['-'] } else { Seq::<char>::empty() }) + digits@.take(i as int),
        decreases digits@.len() - i,
    {
        t.push(digits[i]);
        i += 1;
        assert(t@ =~= (if neg { seq!['-'] } else { Seq::<char>::empty() }) + digits@.take(i as int));
    }
    proof {
        assert(digits@.take(digits@.len() as int) =~= digits@);
        let v = dval(m@);
        if neg && v > 0 {
            assert(signed_decimal(-(v as int)) == seq!['-'] + crate::text::decimal(v));
        }
    }
    let s = jvm.alloc_string(t);
    frame.push(Value::ObjectRef(s));
    Ok(())
}

/// The low 64 bits of the two's-complement form of `x`, read as a `long`.
pub open spec fn low_long(x: int) -> i64 {
    ((x % 0x1_0000_0000_0000_0000) as u64) as i64
}

/// `BigInteger.longValue()`: the low 64 bits of the integer, as Java gives them.
pub open spec fn big_long_value(f: Frame, h: Seq<ObjectView>) -> Effect {
    if local_missing(f, 0) {
        Err(local_error())
    } else {
        Ok((h, 0, Some(Value::Long(low_long(big_value(h, this_of(f)))))))
    }
}

pub fn big_long_value_native(frame: &mut Frame, jvm: &mut Jvm) -> (r: Result<(), JvmError>)
    ensures
        *final(jvm) == *old(jvm),
        outcome(*old(frame), old(jvm).hv(), *final(frame), final(jvm).hv(), r, big_long_value(*old(frame), old(jvm).hv())),
{
    let this = frame.get_local(0)?;
    proof {
        crate::natives::common::lemma_popped_zero(*old(frame));
    }
    let (m, neg) = big_parts(jvm, this);
    let low = digits_low_u64(&m);
    let bits: u64 = if neg && low > 0 {
        proof {
            let v = dval(m@) as int;
            let big = 0x1_0000_0000_0000_0000int;
            vstd::arithmetic::div_mod::lemma_fundamental_div_mod(v, big);
            vstd::arithmetic::div_mod::lemma_fundamental_div_mod_converse(-v, big, -(v / big) - 1, big - low);
        }
        (0x1_0000_0000_0000_0000u128 - low as u128) as u64
    } else {
        proof {
            if neg {
                let v = dval(m@) as int;
                let big = 0x1_0000_0000_0000_0000int;
                vstd::arithmetic::div_mod::lemma_fundamental_div_mod(v, big);
                vstd::arithmetic::div_mod::lemma_fundamental_div_mod_converse(-v, big, -(v / big), 0);
            }
        }
        low
    };
    frame.push(Value::Long(bits as i64));
    Ok(())
}

/// A new `BigInteger` made for `x` stands for exactly `x`, whatever its size: so each
/// binary operation's result reads back as the exact sum, difference, product or
/// truncated quotient (on a heap with room for the two new objects).
pub proof fn law_big_reads_back(h: Seq<ObjectView>, x: int)
    requires
        h.len() + 2 <= usize::MAX,
    ensures
        big_value(with_big(h, x), Value::ObjectRef((h.len() + 1) as usize)) == x,
{
    reveal_strlit("mag");
    reveal_strlit("negative");
    assert("mag"@.len() == 3 && "negative"@.len() == 8);
    lemma_canon(abs(x) as nat);
    let h2 = with_big(h, x);
    let v = Value::ObjectRef((h.len() + 1) as usize);
    let d = canon(abs(x) as nat);
    assert(h2[(h.len() + 1) as int].fields == Map::<Seq<char>, Value>::empty().insert("mag"@,
        Value::ArrayRef(h.len() as usize)).insert("negative"@, Value::Boolean(x < 0)));
    assert(h2[h.len() as int] == mag_array(x));
    assert(field_of(h2, (h.len() + 1) as usize, "mag"@) == Some(Value::ArrayRef(h.len() as usize)));
    assert(array_of(h2, h.len() as usize) == Some(Seq::new(d.len(), |i: int| Value::Int(d[i] as i32))));
    assert(big_digits(h2, v) =~= d);
    assert(field_of(h2, (h.len() + 1) as usize, "negative"@) == Some(Value::Boolean(x < 0)));
}

proof fn lemma_division_remainder(a: int, b: int)
    requires
        b != 0,
    ensures
        ({
            let q = trunc_div(a, b);
            let rem = a - q * b;
            &&& abs(rem) < abs(b)
            &&& (rem == 0 || (rem < 0) == (a < 0))
        }),
{
    let aa = abs(a);
    let bb = abs(b);
    let qq = aa / bb;
    let rr = aa % bb;
    vstd::arithmetic::div_mod::lemma_fundamental_div_mod(aa, bb);
    assert(0 <= rr < bb);
    let q = trunc_div(a, b);
    if a >= 0 && b > 0 {
        assert(a - q * b == rr);
    } else if a >= 0 && b < 0 {
        assert(q * b == (-qq) * (-bb));
        assert((-qq) * (-bb) == qq * bb) by (nonlinear_arith);
        assert(a - q * b == rr);
    } else if a < 0 && b > 0 {
        assert(q * b == (-qq) * bb);
        assert((-qq) * bb == -(qq * bb)) by (nonlinear_arith);
        assert(a - q * b == -rr);
    } else {
        assert(q * b == qq * (-bb));
        assert(qq * (-bb) == -(qq * bb)) by (nonlinear_arith);
        assert(a - q * b == -rr);
    }
}

/// `add`, `subtract` and `multiply` give a `BigInteger` for the exact sum, difference
/// and product of the receiver and the argument, however large; `divide` gives the
/// quotient `q` that leaves a remainder `a - q * b` smaller than the divisor in size
/// and of the dividend's sign (the quotient rounded toward zero), and dividing by
/// zero fails with `ArithmeticException`. The receiver and the argument are not
/// changed.
pub proof fn law_big_arithmetic(f: Frame, h: Seq<ObjectView>, op: u8)
    requires
        call_error(f, 1) is None,
        h.len() + 2 <= usize::MAX,
    ensures
        ({
            let a = big_value(h, this_of(f));
            let b = big_value(h, top(f, 0));
            let r = big_binary(f, h, op);
            &&& (op >= 3 && b == 0) ==> r == Err::<(Seq<ObjectView>, nat, Option<Value>), JvmError>(
                JvmError::RuntimeError(RuntimeError::ArithmeticException))
            &&& !(op >= 3 && b == 0) ==> ({
                let h1 = r->Ok_0.0;
                let q = big_value(h1, r->Ok_0.2->0);
                &&& r is Ok
                &&& r->Ok_0.1 == 1
                &&& h1.subrange(0, h.len() as int) == h
                &&& (op == 0 ==> q == a + b)
                &&& (op == 1 ==> q == a - b)
                &&& (op == 2 ==> q == a * b)
                &&& (op >= 3 ==> abs(a - q * b) < abs(b) && (a - q * b == 0 || (a - q * b < 0) == (a < 0)))
            })
        }),
{
    let a = big_value(h, this_of(f));
    let b = big_value(h, top(f, 0));
    if !(op >= 3 && b == 0) {
        let x = big_op(a, b, op);
        law_big_reads_back(h, x);
        assert(with_big(h, x).subrange(0, h.len() as int) =~= h);
        if op >= 3 {
            lemma_division_remainder(a, b);
        }
    }
}

} // verus!
