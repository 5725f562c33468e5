use vstd::prelude::*;
use crate::natives::common::{
    local_missing, outcome, pop1, pop2, string_elems, string_of, this_of, top, Effect,
};
use crate::natives::lang::{new_ref, with_string};
use crate::runtime::error::{JvmError, RuntimeError};
use crate::runtime::frame::{local_error, underflow_error, Frame};
use crate::runtime::heap::{HeapObject, ObjectView};
use crate::runtime::jvm::{same_but_heap, Jvm};
use crate::runtime::value::{spec_as_int, spec_as_long, Value};
use crate::stdlib::numtext::{
    bool_text, bool_to_chars, int_to_chars, int_to_hex_chars, long_to_chars, parse_integer,
    parse_integer_exec,
};
use crate::text::{char_from_code, lower_hex, signed_decimal};

verus! {

/// The text of the string a value refers to.
pub open spec fn text_of(h: Seq<ObjectView>, v: Value) -> Option<Seq<char>> {
    match v {
        Value::ObjectRef(id) => string_of(h, id),
        _ => None,
    }
}

fn text_of_exec<'a>(jvm: &'a Jvm, v: Value) -> (r: Option<&'a Vec<char>>)
    ensures
        match r {
            Some(s) => text_of(jvm.hv(), v) == Some(s@),
            None => text_of(jvm.hv(), v) is None,
        },
{
    match v {
        Value::ObjectRef(id) => string_elems(jvm, id),
        _ => None,
    }
}

/// Decimal `int` parsing as Rust's `str::parse::<i32>` does it.
pub open spec fn parse_int(s: Seq<char>) -> Option<int> {
    parse_integer(s, 10, -0x8000_0000, 0x7fff_ffff)
}

/// Decimal `long` parsing as Rust's `str::parse::<i64>` does it.
pub open spec fn parse_long(s: Seq<char>) -> Option<int> {
    parse_integer(s, 10, -0x8000_0000_0000_0000, 0x7fff_ffff_ffff_ffff)
}

/// What the `int` parsers act on: local 0 when it is a string that parses.
pub open spec fn local0_int(f: Frame, h: Seq<ObjectView>) -> Option<int> {
    match text_of(h, f.locals@[0]) {
        Some(s) => parse_int(s),
        None => None,
    }
}

pub open spec fn local0_long(f: Frame, h: Seq<ObjectView>) -> Option<int> {
    match text_of(h, f.locals@[0]) {
        Some(s) => parse_long(s),
        None => None,
    }
}

fn local0_number(frame: &Frame, jvm: &Jvm, long: bool) -> (r: Result<Option<i64>, JvmError>)
    ensures
        local_missing(*frame, 0) ==> r == Err::<Option<i64>, JvmError>(local_error()),
        !local_missing(*frame, 0) ==> r == Ok::<Option<i64>, JvmError>(
            match if long {
                local0_long(*frame, jvm.hv())
            } else {
                local0_int(*frame, jvm.hv())
            } {
                Some(x) => Some(x as i64),
                None => None,
            },
        ),
{
    let v = frame.get_local(0)?;
    match text_of_exec(jvm, v) {
        Some(s) => if long {
            Ok(parse_integer_exec(s.as_slice(), 10, i64::MIN, i64::MAX))
        } else {
            Ok(parse_integer_exec(s.as_slice(), 10, -0x8000_0000, 0x7fff_ffff))
        },
        None => Ok(None),
    }
}

/// The error of a text that is no number.
pub open spec fn nfe() -> JvmError {
    JvmError::RuntimeError(RuntimeError::NumberFormatException)
}

/// `Integer.parseInt(String)`: pushes the value when local 0 is a string holding an
/// `int` in decimal (an optional sign, then digits); fails with
/// `NumberFormatException` otherwise.
pub open spec fn integer_parse_int(f: Frame, h: Seq<ObjectView>) -> Effect {
    if local_missing(f, 0) {
        Err(local_error())
    } else {
        match local0_int(f, h) {
            Some(x) => Ok((h, 0, Some(Value::Int(x as i32)))),
            None => Err(nfe()),
        }
    }
}

pub fn integer_parse_int_native(frame: &mut Frame, jvm: &mut Jvm) -> (r: Result<(), JvmError>)
    ensures
        *final(jvm) == *old(jvm),
        outcome(*old(frame), old(jvm).hv(), *final(frame), final(jvm).hv(), r, integer_parse_int(*old(frame), old(jvm).hv())),
{
    let n = local0_number(frame, jvm, false)?;
    proof {
        crate::natives::common::lemma_popped_zero(*old(frame));
    }
    match n {
        Some(x) => {
            frame.push(Value::Int(x as i32));
            Ok(())
        },
        None => Err(JvmError::RuntimeError(RuntimeError::NumberFormatException)),
    }
}

/// The radix that `Integer.parseInt(String, int)` uses: local 1 when it is an `int`,
/// else 10.
pub open spec fn radix_of(f: Frame) -> i32 {
    match f.locals@[1] {
        Value::Int(r) => r,
        _ => 10,
    }
}

/// `Integer.parseInt(String, int)`: pushes the value when local 0 is a string holding
/// an `int` in the base in local 1 (2 to 36); fails with `NumberFormatException` for
/// another base, a text that is no such number, or no string.
pub open spec fn integer_parse_int_radix(f: Frame, h: Seq<ObjectView>) -> Effect {
    if local_missing(f, 1) {
        Err(local_error())
    } else {
        match text_of(h, f.locals@[0]) {
            Some(s) => if 2 <= radix_of(f) <= 36 {
                match parse_integer(s, radix_of(f) as nat, -0x8000_0000, 0x7fff_ffff) {
                    Some(x) => Ok((h, 0, Some(Value::Int(x as i32)))),
                    None => Err(nfe()),
                }
            } else {
                Err(nfe())
            },
            None => Err(nfe()),
        }
    }
}

pub fn integer_parse_int_radix_native(frame: &mut Frame, jvm: &mut Jvm) -> (r: Result<(), JvmError>)
    ensures
        *final(jvm) == *old(jvm),
        outcome(*old(frame), old(jvm).hv(), *final(frame), final(jvm).hv(), r, integer_parse_int_radix(*old(frame), old(jvm).hv())),
{
    let rv = frame.get_local(1)?;
    let sv = frame.get_local(0)?;
    proof {
        crate::natives::common::lemma_popped_zero(*old(frame));
    }
    let radix: i32 = match rv {
        Value::Int(r) => r,
        _ => 10,
    };
    match text_of_exec(jvm, sv) {
        Some(s) => {
            if radix < 2 || radix > 36 {
                return Err(JvmError::RuntimeError(RuntimeError::NumberFormatException));
            }
            match parse_integer_exec(s.as_slice(), radix as u32, -0x8000_0000, 0x7fff_ffff) {
                Some(x) => {
                    frame.push(Value::Int(x as i32));
                    Ok(())
                },
                None => Err(JvmError::RuntimeError(RuntimeError::NumberFormatException)),
            }
        },
        None => Err(JvmError::RuntimeError(RuntimeError::NumberFormatException)),
    }
}

/// The static natives that turn local 0 into text: `Integer.valueOf(int)` and
/// `Integer.toString(int)` (kind 0, decimal), `Integer.toHexString` (kind 1, the
/// two's-complement bits in lower-case hex) and `Long.toString` (kind 2). A value of
/// another kind pushes nothing.
pub open spec fn number_text(f: Frame, h: Seq<ObjectView>, kind: u8) -> Effect {
    if local_missing(f, 0) {
        Err(local_error())
    } else {
        match f.locals@[0] {
            Value::Int(i) => if kind == 0 {
                Ok((with_string(h, signed_decimal(i as int)), 0, Some(new_ref(h))))
            } else if kind == 1 {
                Ok((with_string(h, lower_hex(i as u32 as nat)), 0, Some(new_ref(h))))
            } else {
                Ok((h, 0, None))
            },
            Value::Long(l) => if kind == 2 {
                Ok((with_string(h, signed_decimal(l as int)), 0, Some(new_ref(h))))
            } else {
                Ok((h, 0, None))
            },
            _ => Ok((h, 0, None)),
        }
    }
}

pub fn number_text_native(frame: &mut Frame, jvm: &mut Jvm, kind: u8) -> (r: Result<(), JvmError>)
    ensures
        same_but_heap(*old(jvm), *final(jvm)),
        outcome(*old(frame), old(jvm).hv(), *final(frame), final(jvm).hv(), r, number_text(*old(frame), old(jvm).hv(), kind)),
{
    let v = frame.get_local(0)?;
    proof {
        crate::natives::common::lemma_popped_zero(*old(frame));
    }
    let t = match v {
        Value::Int(i) => if kind == 0 {
            Some(int_to_chars(i))
        } else if kind == 1 {
            Some(int_to_hex_chars(i))
        } else {
            None
        },
        Value::Long(l) => if kind == 2 {
            Some(long_to_chars(l))
        } else {
            None
        },
        _ => None,
    };
    match t {
        Some(text) => {
            let s = jvm.alloc_string(text);
            frame.push(Value::ObjectRef(s));
        },
        None => {},
    }
    Ok(())
}

/// `Integer.valueOf(int)` returning an `Integer`: a new object whose `value:I` field
/// holds local 0 when it is an `int`.
pub open spec fn integer_box(f: Frame, h: Seq<ObjectView>) -> Effect {
    if local_missing(f, 0) {
        Err(local_error())
    } else {
        match f.locals@[0] {
            Value::Int(i) => Ok((
                h.push(ObjectView::plain("java.lang.Integer"@).with_field("value:I"@, Value::Int(i))),
                0,
                Some(new_ref(h)),
            )),
            _ => Ok((h, 0, None)),
        }
    }
}

pub fn integer_box_native(frame: &mut Frame, jvm: &mut Jvm) -> (r: Result<(), JvmError>)
    ensures
        same_but_heap(*old(jvm), *final(jvm)),
        outcome(*old(frame), old(jvm).hv(), *final(frame), final(jvm).hv(), r, integer_box(*old(frame), old(jvm).hv())),
{
    let v = frame.get_local(0)?;
    proof {
        crate::natives::common::lemma_popped_zero(*old(frame));
    }
    if let Value::Int(i) = v {
        let mut o = HeapObject::new(String::from_str("java.lang.Integer"));
        o.set_field("value:I", Value::Int(i));
        let id = jvm.allocate(o);
        frame.push(Value::ObjectRef(id));
    }
    Ok(())
}

/// `Integer.valueOf(String)` and `Long.valueOf(String)`: a new object of the class
/// whose `value:I` (`value:J`) field holds the parsed number, when local 0 is a
/// string that parses; `NumberFormatException` otherwise.
pub open spec fn parsed_box(f: Frame, h: Seq<ObjectView>, long: bool) -> Effect {
    if local_missing(f, 0) {
        Err(local_error())
    } else {
        let parsed = if long {
            local0_long(f, h)
        } else {
            local0_int(f, h)
        };
        match parsed {
            Some(x) => Ok((
                h.push(if long {
                    ObjectView::plain("java.lang.Long"@).with_field("value:J"@, Value::Long(x as i64))
                } else {
                    ObjectView::plain("java.lang.Integer"@).with_field("value:I"@, Value::Int(x as i32))
                }),
                0,
                Some(new_ref(h)),
            )),
            None => Err(nfe()),
        }
    }
}

pub fn parsed_box_native(frame: &mut Frame, jvm: &mut Jvm, long: bool) -> (r: Result<(), JvmError>)
    ensures
        same_but_heap(*old(jvm), *final(jvm)),
        outcome(*old(frame), old(jvm).hv(), *final(frame), final(jvm).hv(), r, parsed_box(*old(frame), old(jvm).hv(), long)),
{
    let n = local0_number(frame, jvm, long)?;
    proof {
        crate::natives::common::lemma_popped_zero(*old(frame));
    }
    match n {
        Some(x) => {
            let o = if long {
                let mut o = HeapObject::new(String::from_str("java.lang.Long"));
                o.set_field("value:J", Value::Long(x));
                o
            } else {
                let mut o = HeapObject::new(String::from_str("java.lang.Integer"));
                o.set_field("value:I", Value::Int(x as i32));
                o
            };
            let id = jvm.allocate(o);
            frame.push(Value::ObjectRef(id));
            Ok(())
        },
        None => Err(JvmError::RuntimeError(RuntimeError::NumberFormatException)),
    }
}

/// `Long.parseLong(String)`.
pub open spec fn long_parse_long(f: Frame, h: Seq<ObjectView>) -> Effect {
    if local_missing(f, 0) {
        Err(local_error())
    } else {
        match local0_long(f, h) {
            Some(x) => Ok((h, 0, Some(Value::Long(x as i64)))),
            None => Err(nfe()),
        }
    }
}

pub fn long_parse_long_native(frame: &mut Frame, jvm: &mut Jvm) -> (r: Result<(), JvmError>)
    ensures
        *final(jvm) == *old(jvm),
        outcome(*old(frame), old(jvm).hv(), *final(frame), final(jvm).hv(), r, long_parse_long(*old(frame), old(jvm).hv())),
{
    let n = local0_number(frame, jvm, true)?;
    proof {
        crate::natives::common::lemma_popped_zero(*old(frame));
    }
    match n {
        Some(x) => {
            frame.push(Value::Long(x));
            Ok(())
        },
        None => Err(JvmError::RuntimeError(RuntimeError::NumberFormatException)),
    }
}

/// `Integer.intValue()`: the receiver's `value:I` field when it is an `int`.
pub open spec fn integer_int_value(f: Frame, h: Seq<ObjectView>) -> Effect {
    if local_missing(f, 0) {
        Err(local_error())
    } else {
        match this_of(f) {
            Value::ObjectRef(id) => match crate::natives::common::field_of(h, id, "value:I"@) {
                Some(Value::Int(i)) => Ok((h, 0, Some(Value::Int(i)))),
                _ => Ok((h, 0, None)),
            },
            _ => Ok((h, 0, None)),
        }
    }
}

pub fn integer_int_value_native(frame: &mut Frame, jvm: &mut Jvm) -> (r: Result<(), JvmError>)
    ensures
        *final(jvm) == *old(jvm),
        outcome(*old(frame), old(jvm).hv(), *final(frame), final(jvm).hv(), r, integer_int_value(*old(frame), old(jvm).hv())),
{
    let this = frame.get_local(0)?;
    proof {
        crate::natives::common::lemma_popped_zero(*old(frame));
    }
    if let Value::ObjectRef(id) = this {
        match crate::natives::common::get_field_of(jvm, id, "value:I") {
            Some(Value::Int(i)) => frame.push(Value::Int(i)),
            _ => {},
        }
    }
    Ok(())
}

/// Natives that push a constant without reading anything.
pub fn push_constant_native(frame: &mut Frame, jvm: &mut Jvm, v: Value) -> (r: Result<(), JvmError>)
    ensures
        *final(jvm) == *old(jvm),
        outcome(*old(frame), old(jvm).hv(), *final(frame), final(jvm).hv(), r, Ok((old(jvm).hv(), 0, Some(v)))),
{
    proof {
        crate::natives::common::lemma_popped_zero(*old(frame));
    }
    frame.push(v);
    Ok(())
}

/// `Math.abs` of a popped value of the overload's kind (0 `int`, 1 `long`, 2 `float`,
/// 3 `double`); nothing is pushed for another kind. The minimum integer is its own
/// absolute value (two's complement wraps); for floating point the sign bit is cleared.
pub open spec fn math_abs(f: Frame, h: Seq<ObjectView>, kind: u8) -> Effect {
    if f.stack@.len() == 0 {
        Err(underflow_error())
    } else {
        match top(f, 0) {
            Value::Int(i) => if kind == 0 {
                Ok((h, 1, Some(Value::Int(if i < 0 && i != i32::MIN { (-i) as i32 } else { i }))))
            } else {
                Ok((h, 1, None))
            },
            Value::Long(l) => if kind == 1 {
                Ok((h, 1, Some(Value::Long(if l < 0 && l != i64::MIN { (-l) as i64 } else { l }))))
            } else {
                Ok((h, 1, None))
            },
            Value::Float(b) => if kind == 2 {
                Ok((h, 1, Some(Value::Float(b & 0x7FFF_FFFF))))
            } else {
                Ok((h, 1, None))
            },
            Value::Double(b) => if kind == 3 {
                Ok((h, 1, Some(Value::Double(b & 0x7FFF_FFFF_FFFF_FFFF))))
            } else {
                Ok((h, 1, None))
            },
            _ => Ok((h, 1, None)),
        }
    }
}

pub fn math_abs_native(frame: &mut Frame, jvm: &mut Jvm, kind: u8) -> (r: Result<(), JvmError>)
    ensures
        *final(jvm) == *old(jvm),
        outcome(*old(frame), old(jvm).hv(), *final(frame), final(jvm).hv(), r, math_abs(*old(frame), old(jvm).hv(), kind)),
{
    let v = pop1(frame)?;
    match v {
        Value::Int(i) => if kind == 0 {
            frame.push(Value::Int(if i < 0 && i != i32::MIN { -i } else { i }));
        },
        Value::Long(l) => if kind == 1 {
            frame.push(Value::Long(if l < 0 && l != i64::MIN { -l } else { l }));
        },
        Value::Float(b) => if kind == 2 {
            frame.push(Value::Float(b & 0x7FFF_FFFF));
        },
        Value::Double(b) => if kind == 3 {
            frame.push(Value::Double(b & 0x7FFF_FFFF_FFFF_FFFF));
        },
        _ => {},
    }
    Ok(())
}

/// `Math.max` and `Math.min` on two popped values read as `int`s (kind 0) or `long`s
/// (kind 1).
pub open spec fn math_extreme(f: Frame, h: Seq<ObjectView>, long: bool, max: bool) -> Effect {
    if f.stack@.len() < 2 {
        Err(underflow_error())
    } else {
        let b = top(f, 0);
        let a = top(f, 1);
        if long {
            let (x, y) = (spec_as_long(a), spec_as_long(b));
            Ok((h, 2, Some(Value::Long(if (x < y) == max { y } else { x }))))
        } else {
            let (x, y) = (spec_as_int(a), spec_as_int(b));
            Ok((h, 2, Some(Value::Int(if (x < y) == max { y } else { x }))))
        }
    }
}

pub fn math_extreme_native(frame: &mut Frame, jvm: &mut Jvm, long: bool, max: bool) -> (r: Result<(), JvmError>)
    ensures
        *final(jvm) == *old(jvm),
        outcome(*old(frame), old(jvm).hv(), *final(frame), final(jvm).hv(), r, math_extreme(*old(frame), old(jvm).hv(), long, max)),
{
    let (a, b) = pop2(frame)?;
    if long {
        let x = a.as_long();
        let y = b.as_long();
        frame.push(Value::Long(if (x < y) == max { y } else { x }));
    } else {
        let x = a.as_int();
        let y = b.as_int();
        frame.push(Value::Int(if (x < y) == max { y } else { x }));
    }
    Ok(())
}

// ---------- java.lang.Class ----------

/// The position of the last `.` in `s`, or -1.
pub open spec fn last_dot(s: Seq<char>) -> int
    decreases s.len(),
{
    if s.len() == 0 {
        -1
    } else if s.last() == '.' {
        s.len() - 1
    } else {
        last_dot(s.drop_last())
    }
}

/// The part of a qualified name after its last `.`.
pub open spec fn simple_name(s: Seq<char>) -> Seq<char> {
    s.skip(last_dot(s) + 1)
}

proof fn lemma_last_dot(s: Seq<char>)
    ensures
        -1 <= last_dot(s) < s.len(),
        last_dot(s) >= 0 ==> s[last_dot(s)] == '.',
        forall|j: int| last_dot(s) < j < s.len() ==> s[j] != '.',
    decreases s.len(),
{
    if s.len() > 0 && s.last() != '.' {
        lemma_last_dot(s.drop_last());
        assert(forall|j: int| 0 <= j < s.len() - 1 ==> s.drop_last()[j] == s[j]);
    }
}

fn simple_name_exec(s: &Vec<char>) -> (r: Vec<char>)
    ensures
        r@ == simple_name(s@),
{
    let mut i = s.len();
    while i > 0 && s[i - 1] != '.'
        invariant
            i <= s@.len(),
            forall|j: int| i <= j < s@.len() ==> s@[j] != '.',
        decreases i,
    {
        i -= 1;
    }
    proof {
        lemma_last_dot(s@);
        let d = last_dot(s@);
        if d >= 0 {
            assert(s@[d] == '.');
            assert(d < i);
        }
        if i > 0 {
            assert(s@[i - 1] == '.');
            assert(i - 1 <= d);
        }
        assert(d + 1 == i as int);
    }
    let mut r: Vec<char> = Vec::new();
    let mut k = i;
    while k < s.len()
        invariant
            i <= k <= s@.len(),
            r@ == s@.subrange(i as int, k as int),
        decreases s@.len() - k,
    {
        r.push(s[k]);
        k += 1;
        assert(r@ =~= s@.subrange(i as int, k as int));
    }
    assert(s@.skip(i as int) =~= s@.subrange(i as int, s@.len() as int));
    r
}

/// The text of the `name` string of a live `Class` receiver.
pub open spec fn class_name_text(f: Frame, h: Seq<ObjectView>) -> Option<Seq<char>> {
    match this_of(f) {
        Value::ObjectRef(id) => match crate::natives::common::field_of(h, id, "name"@) {
            Some(Value::ObjectRef(n)) => string_of(h, n),
            _ => None,
        },
        _ => None,
    }
}

fn class_name_text_exec(jvm: &Jvm, this: Value) -> (r: Option<Vec<char>>)
    ensures
        match r {
            Some(s) => (match this {
                Value::ObjectRef(id) => match crate::natives::common::field_of(jvm.hv(), id, "name"@) {
                    Some(Value::ObjectRef(n)) => string_of(jvm.hv(), n),
                    _ => None,
                },
                _ => None,
            }) == Some(s@),
            None => (match this {
                Value::ObjectRef(id) => match crate::natives::common::field_of(jvm.hv(), id, "name"@) {
                    Some(Value::ObjectRef(n)) => string_of(jvm.hv(), n),
                    _ => None,
                },
                _ => None,
            }) is None,
        },
{
    match this {
        Value::ObjectRef(id) => match crate::natives::common::get_field_of(jvm, id, "name") {
            Some(Value::ObjectRef(n)) => match string_elems(jvm, n) {
                Some(s) => {
                    let mut v: Vec<char> = Vec::new();
                    let mut i: usize = 0;
                    while i < s.len()
                        invariant
                            i <= s@.len(),
                            v@ == s@.take(i as int),
                        decreases s@.len() - i,
                    {
                        v.push(s[i]);
                        i += 1;
                        assert(v@ =~= s@.take(i as int));
                    }
                    assert(s@.take(s@.len() as int) =~= s@);
                    Some(v)
                },
                None => None,
            },
            _ => None,
        },
        _ => None,
    }
}

/// `Class.getName()` (simple = false) and `getSimpleName()` (simple = true): a new
/// string with the (simple) class name, or `Null`.
pub open spec fn class_get_name(f: Frame, h: Seq<ObjectView>, simple: bool) -> Effect {
    if local_missing(f, 0) {
        Err(local_error())
    } else {
        match class_name_text(f, h) {
            Some(n) => Ok((with_string(h, if simple {
                simple_name(n)
            } else {
                n
            }), 0, Some(new_ref(h)))),
            None => Ok((h, 0, Some(Value::Null))),
        }
    }
}

pub fn class_get_name_native(frame: &mut Frame, jvm: &mut Jvm, simple: bool) -> (r: Result<(), JvmError>)
    ensures
        same_but_heap(*old(jvm), *final(jvm)),
        outcome(*old(frame), old(jvm).hv(), *final(frame), final(jvm).hv(), r, class_get_name(*old(frame), old(jvm).hv(), simple)),
{
    let this = frame.get_local(0)?;
    proof {
        crate::natives::common::lemma_popped_zero(*old(frame));
    }
    match class_name_text_exec(jvm, this) {
        Some(n) => {
            let t = if simple {
                simple_name_exec(&n)
            } else {
                n
            };
            let s = jvm.alloc_string(t);
            frame.push(Value::ObjectRef(s));
        },
        None => frame.push(Value::Null),
    }
    Ok(())
}

/// `Class.forName(name)`: for a class with registered methods, a new string with the
/// name and then a `Class` object naming it; `Null` otherwise.
pub open spec fn class_for_name(f: Frame, h: Seq<ObjectView>, classes: Seq<Seq<char>>) -> Effect {
    if f.stack@.len() == 0 {
        Err(underflow_error())
    } else {
        match text_of(h, top(f, 0)) {
            Some(n) => if classes.contains(n) {
                let h1 = with_string(h, n);
                Ok((h1.push(ObjectView::plain("java.lang.Class"@).with_field("name"@, new_ref(h))), 1, Some(new_ref(h1))))
            } else {
                Ok((h, 1, Some(Value::Null)))
            },
            None => Ok((h, 1, Some(Value::Null))),
        }
    }
}

pub fn class_for_name_native(frame: &mut Frame, jvm: &mut Jvm) -> (r: Result<(), JvmError>)
    ensures
        same_but_heap(*old(jvm), *final(jvm)),
        outcome(*old(frame), old(jvm).hv(), *final(frame), final(jvm).hv(), r,
            class_for_name(*old(frame), old(jvm).hv(), old(jvm).method_area@.map_values(|e: (Seq<char>, crate::runtime::method::MethodView)| e.0))),
{
    let v = pop1(frame)?;
    let ghost classes = jvm.method_area@.map_values(|e: (Seq<char>, crate::runtime::method::MethodView)| e.0);
    let name: Option<Vec<char>> = match text_of_exec(jvm, v) {
        Some(s) => {
            if jvm.method_area.has_class(s) {
                Some(crate::natives::lang::copy_chars_pub(s))
            } else {
                None
            }
        },
        None => None,
    };
    proof {
        match text_of(old(jvm).hv(), v) {
            Some(n) => {
                if classes.contains(n) {
                    let i = choose|i: int| 0 <= i < classes.len() && classes[i] == n;
                    assert(jvm.method_area@[i].0 == n);
                }
                if jvm.method_area.has_class_spec(n) {
                    let i = choose|i: int| 0 <= i < jvm.method_area@.len() && #[trigger] jvm.method_area@[i].0 == n;
                    assert(classes[i] == n);
                }
            },
            None => {},
        }
    }
    match name {
        Some(n) => {
            let sr = jvm.alloc_string(n);
            let mut c = HeapObject::new(String::from_str("java.lang.Class"));
            c.set_field("name", Value::ObjectRef(sr));
            let cr = jvm.allocate(c);
            frame.push(Value::ObjectRef(cr));
        },
        None => frame.push(Value::Null),
    }
    Ok(())
}

// ---------- java.lang.Float and java.lang.Boolean ----------

/// `Float.valueOf(float)`: a new `Float` whose `value:F` holds the popped float;
/// nothing for another value.
pub open spec fn float_box(f: Frame, h: Seq<ObjectView>) -> Effect {
    if f.stack@.len() == 0 {
        Err(underflow_error())
    } else {
        match top(f, 0) {
            Value::Float(b) => Ok((
                h.push(ObjectView::plain("java.lang.Float"@).with_field("value:F"@, Value::Float(b))),
                1,
                Some(new_ref(h)),
            )),
            _ => Ok((h, 1, None)),
        }
    }
}

pub fn float_box_native(frame: &mut Frame, jvm: &mut Jvm) -> (r: Result<(), JvmError>)
    ensures
        same_but_heap(*old(jvm), *final(jvm)),
        outcome(*old(frame), old(jvm).hv(), *final(frame), final(jvm).hv(), r, float_box(*old(frame), old(jvm).hv())),
{
    let v = pop1(frame)?;
    if let Value::Float(b) = v {
        let mut o = HeapObject::new(String::from_str("java.lang.Float"));
        o.set_field("value:F", Value::Float(b));
        let id = jvm.allocate(o);
        frame.push(Value::ObjectRef(id));
    }
    Ok(())
}

/// `Float.floatValue()`: reads the receiver and answers `0.0`.
pub open spec fn float_float_value(f: Frame, h: Seq<ObjectView>) -> Effect {
    if local_missing(f, 0) {
        Err(local_error())
    } else {
        Ok((h, 0, Some(Value::Float(0))))
    }
}

pub fn float_float_value_native(frame: &mut Frame, jvm: &mut Jvm) -> (r: Result<(), JvmError>)
    ensures
        *final(jvm) == *old(jvm),
        outcome(*old(frame), old(jvm).hv(), *final(frame), final(jvm).hv(), r, float_float_value(*old(frame), old(jvm).hv())),
{
    let _this = frame.get_local(0)?;
    proof {
        crate::natives::common::lemma_popped_zero(*old(frame));
    }
    frame.push(Value::Float(0));
    Ok(())
}

/// The character with an ASCII capital letter turned into small.
pub open spec fn ascii_lower(c: char) -> char {
    if 'A' <= c && c <= 'Z' {
        ((c as u32) + 32) as char
    } else {
        c
    }
}

/// Whether `s` is `true` in any mix of cases.
pub open spec fn is_true_text(s: Seq<char>) -> bool {
    s.len() == 4 && ascii_lower(s[0]) == 't' && ascii_lower(s[1]) == 'r' && ascii_lower(s[2]) == 'u'
        && ascii_lower(s[3]) == 'e'
}

/// `Boolean.parseBoolean(s)`: `true` exactly when `s` is a string reading `true`,
/// ignoring case.
pub open spec fn boolean_parse(f: Frame, h: Seq<ObjectView>) -> Effect {
    if f.stack@.len() == 0 {
        Err(underflow_error())
    } else {
        Ok((h, 1, Some(Value::Boolean(match text_of(h, top(f, 0)) {
            Some(s) => is_true_text(s),
            None => false,
        }))))
    }
}

fn ascii_lower_exec(c: char) -> (r: char)
    ensures
        r == ascii_lower(c),
{
    if 'A' <= c && c <= 'Z' {
        char_from_code((c as u32) + 32).unwrap()
    } else {
        c
    }
}

pub fn boolean_parse_native(frame: &mut Frame, jvm: &mut Jvm) -> (r: Result<(), JvmError>)
    ensures
        *final(jvm) == *old(jvm),
        outcome(*old(frame), old(jvm).hv(), *final(frame), final(jvm).hv(), r, boolean_parse(*old(frame), old(jvm).hv())),
{
    let v = pop1(frame)?;
    let b = match text_of_exec(jvm, v) {
        Some(s) => s.len() == 4 && ascii_lower_exec(s[0]) == 't' && ascii_lower_exec(s[1]) == 'r'
            && ascii_lower_exec(s[2]) == 'u' && ascii_lower_exec(s[3]) == 'e',
        None => false,
    };
    frame.push(Value::Boolean(b));
    Ok(())
}

/// `Boolean.toString(boolean)`: a new string `true` or `false` (`false` for another
/// value).
pub open spec fn boolean_to_string(f: Frame, h: Seq<ObjectView>) -> Effect {
    if f.stack@.len() == 0 {
        Err(underflow_error())
    } else {
        let b = match top(f, 0) {
            Value::Boolean(b) => b,
            _ => false,
        };
        Ok((with_string(h, bool_text(b)), 1, Some(new_ref(h))))
    }
}

pub fn boolean_to_string_native(frame: &mut Frame, jvm: &mut Jvm) -> (r: Result<(), JvmError>)
    ensures
        same_but_heap(*old(jvm), *final(jvm)),
        outcome(*old(frame), old(jvm).hv(), *final(frame), final(jvm).hv(), r, boolean_to_string(*old(frame), old(jvm).hv())),
{
    let v = pop1(frame)?;
    let b = match v {
        Value::Boolean(b) => b,
        _ => false,
    };
    let s = jvm.alloc_string(bool_to_chars(b));
    frame.push(Value::ObjectRef(s));
    Ok(())
}

/// The `(String)` constructor of the exception classes: the receiver's text becomes
/// the message's text (none when local 1 is no live string object).
pub open spec fn exception_init_with_message(f: Frame, h: Seq<ObjectView>) -> Effect {
    if local_missing(f, 0) || local_missing(f, 1) {
        Err(local_error())
    } else {
        let msg = match f.locals@[1] {
            Value::ObjectRef(id) => string_of(h, id),
            _ => None,
        };
        Ok((crate::natives::lang::heap_with_text(h, this_of(f), msg), 0, None))
    }
}

pub fn exception_init_with_message_native(frame: &mut Frame, jvm: &mut Jvm) -> (r: Result<(), JvmError>)
    ensures
        same_but_heap(*old(jvm), *final(jvm)),
        outcome(*old(frame), old(jvm).hv(), *final(frame), final(jvm).hv(), r, exception_init_with_message(*old(frame), old(jvm).hv())),
{
    let m = frame.get_local(1)?;
    let this = frame.get_local(0)?;
    proof {
        crate::natives::common::lemma_popped_zero(*old(frame));
    }
    let msg: Option<Vec<char>> = match text_of_exec(jvm, m) {
        Some(s) => Some(crate::natives::lang::copy_chars_pub(s)),
        None => None,
    };
    if let Value::ObjectRef(id) = this {
        if id < jvm.heap.len() {
            jvm.set_string(id, msg);
        }
    }
    Ok(())
}

/// The `(String)` constructor of every exception class (it is one native for all of
/// them): on a live receiver it keeps the message's text as the receiver's text,
/// whatever the class, and changes no other object.
pub proof fn law_exception_message(f: Frame, h: Seq<ObjectView>, id: usize, m: usize)
    requires
        f.locals@.len() >= 2,
        f.locals@[0] == Value::ObjectRef(id),
        f.locals@[1] == Value::ObjectRef(m),
        id < h.len(),
        string_of(h, m) is Some,
    ensures
        exception_init_with_message(f, h) is Ok,
        string_of(exception_init_with_message(f, h)->Ok_0.0, id) == string_of(h, m),
        exception_init_with_message(f, h)->Ok_0.0[id as int].class_name == h[id as int].class_name,
        forall|j: int| 0 <= j < h.len() && j != id ==> #[trigger] exception_init_with_message(f, h)->Ok_0.0[j] == h[j],
{
}

/// `Math.max` answers one of its two arguments that no other is above, and
/// `Math.min` one that no other is below, for every pair of `int`s and of `long`s;
/// the two together answer both arguments.
pub proof fn law_math_max_min(f: Frame, h: Seq<ObjectView>, long: bool)
    requires
        f.stack@.len() >= 2,
    ensures
        ({
            let mx = math_extreme(f, h, long, true)->Ok_0.2->0;
            let mn = math_extreme(f, h, long, false)->Ok_0.2->0;
            &&& math_extreme(f, h, long, true) is Ok
            &&& math_extreme(f, h, long, false) is Ok
            &&& !long ==> {
                let (x, y) = (spec_as_int(top(f, 1)) as int, spec_as_int(top(f, 0)) as int);
                &&& mx is Int && mn is Int
                &&& mx->Int_0 >= x && mx->Int_0 >= y && (mx->Int_0 == x || mx->Int_0 == y)
                &&& mn->Int_0 <= x && mn->Int_0 <= y && (mn->Int_0 == x || mn->Int_0 == y)
                &&& mx->Int_0 + mn->Int_0 == x + y
            }
            &&& long ==> {
                let (x, y) = (spec_as_long(top(f, 1)) as int, spec_as_long(top(f, 0)) as int);
                &&& mx is Long && mn is Long
                &&& mx->Long_0 >= x && mx->Long_0 >= y && (mx->Long_0 == x || mx->Long_0 == y)
                &&& mn->Long_0 <= x && mn->Long_0 <= y && (mn->Long_0 == x || mn->Long_0 == y)
                &&& mx->Long_0 + mn->Long_0 == x + y
            }
        }),
{
}

/// `Math.abs` answers a value that is the argument or its negation and is never
/// negative, for every `int` and `long` but the minimum one, which is its own absolute
/// value; for `float` and `double` it clears the sign bit and keeps the others.
pub proof fn law_math_abs(f: Frame, h: Seq<ObjectView>, kind: u8)
    requires
        f.stack@.len() >= 1,
    ensures
        math_abs(f, h, kind) is Ok,
        math_abs(f, h, kind)->Ok_0.0 == h,
        math_abs(f, h, kind)->Ok_0.1 == 1,
        ({
            let r = math_abs(f, h, kind)->Ok_0.2;
            match top(f, 0) {
                Value::Int(i) => kind == 0 ==> (r matches Some(Value::Int(a)) && {
                    &&& (a == i || a == -i)
                    &&& (i != i32::MIN ==> a >= 0)
                    &&& (i >= 0 ==> a == i)
                    &&& (i == i32::MIN ==> a == i)
                }),
                Value::Long(l) => kind == 1 ==> (r matches Some(Value::Long(a)) && {
                    &&& (a == l || a == -l)
                    &&& (l != i64::MIN ==> a >= 0)
                    &&& (l >= 0 ==> a == l)
                    &&& (l == i64::MIN ==> a == l)
                }),
                Value::Float(b) => kind == 2 ==> (r matches Some(Value::Float(a)) && {
                    &&& a < 0x8000_0000
                    &&& (b < 0x8000_0000 ==> a == b)
                    &&& (b >= 0x8000_0000 ==> a == b - 0x8000_0000)
                }),
                Value::Double(b) => kind == 3 ==> (r matches Some(Value::Double(a)) && {
                    &&& a < 0x8000_0000_0000_0000
                    &&& (b < 0x8000_0000_0000_0000 ==> a == b)
                    &&& (b >= 0x8000_0000_0000_0000 ==> a == b - 0x8000_0000_0000_0000)
                }),
                _ => true,
            }
        }),
{
    match top(f, 0) {
        Value::Float(b) => {
            assert(b & 0x7FFF_FFFF < 0x8000_0000) by (bit_vector);
            assert(b < 0x8000_0000 ==> b & 0x7FFF_FFFF == b) by (bit_vector);
            assert(b >= 0x8000_0000 ==> b & 0x7FFF_FFFF == b - 0x8000_0000) by (bit_vector);
        },
        Value::Double(b) => {
            assert(b & 0x7FFF_FFFF_FFFF_FFFF < 0x8000_0000_0000_0000) by (bit_vector);
            assert(b < 0x8000_0000_0000_0000 ==> b & 0x7FFF_FFFF_FFFF_FFFF == b) by (bit_vector);
            assert(b >= 0x8000_0000_0000_0000 ==> b & 0x7FFF_FFFF_FFFF_FFFF == b - 0x8000_0000_0000_0000)
                by (bit_vector);
        },
        _ => {},
    }
}

/// The text that `Integer.toString`, `Long.toString` and `Integer.toHexString` give
/// reads back as the number: in base 10 as the same `int` or `long`, and in base 16
/// as the `int`'s unsigned 32-bit value (so as the `int` itself when it is not
/// negative). The text is a new string at the end of the heap, and nothing else of the
/// heap changes.
pub proof fn law_number_text_reads_back(f: Frame, h: Seq<ObjectView>, kind: u8)
    requires
        f.locals@.len() >= 1,
    ensures
        ({
            let r = number_text(f, h, kind);
            let t = r->Ok_0.0[h.len() as int].string;
            &&& r is Ok
            &&& r->Ok_0.0.subrange(0, h.len() as int) == h
            &&& match f.locals@[0] {
                Value::Int(i) => {
                    &&& kind == 0 ==> (r->Ok_0.2 == Some(new_ref(h)) && r->Ok_0.0.len() == h.len() + 1 && t is Some
                        && crate::stdlib::numtext::parse_integer(t->0, 10, i32::MIN as int, i32::MAX as int)
                            == Some(i as int))
                    &&& kind == 1 ==> (r->Ok_0.2 == Some(new_ref(h)) && r->Ok_0.0.len() == h.len() + 1 && t is Some
                        && crate::stdlib::numtext::parse_integer(t->0, 16, 0, u32::MAX as int)
                            == Some((i as u32) as int)
                        && (i >= 0 ==> crate::stdlib::numtext::parse_integer(t->0, 16, 0, u32::MAX as int)
                            == Some(i as int)))
                },
                Value::Long(l) => kind == 2 ==> (r->Ok_0.2 == Some(new_ref(h)) && r->Ok_0.0.len() == h.len() + 1 && t is Some
                    && crate::stdlib::numtext::parse_integer(t->0, 10, i64::MIN as int, i64::MAX as int)
                        == Some(l as int)),
                _ => true,
            }
        }),
{
    let r = number_text(f, h, kind);
    match f.locals@[0] {
        Value::Int(i) => {
            if kind == 0 {
                crate::stdlib::numtext::law_decimal_parse_round_trip(i as int, i32::MIN as int, i32::MAX as int);
                assert(r->Ok_0.0.subrange(0, h.len() as int) =~= h);
            } else if kind == 1 {
                crate::stdlib::numtext::law_hex_parse_round_trip((i as u32) as nat, u32::MAX as int);
                assert(i >= 0 ==> i as u32 == i) by (bit_vector);
                assert(r->Ok_0.0.subrange(0, h.len() as int) =~= h);
            } else {
                assert(r->Ok_0.0.subrange(0, h.len() as int) =~= h);
            }
        },
        Value::Long(l) => {
            if kind == 2 {
                crate::stdlib::numtext::law_decimal_parse_round_trip(l as int, i64::MIN as int, i64::MAX as int);
            }
            assert(r->Ok_0.0.subrange(0, h.len() as int) =~= h);
        },
        _ => {
            assert(r->Ok_0.0.subrange(0, h.len() as int) =~= h);
        },
    }
}

/// `Integer.parseInt` and `Long.parseLong` read back the decimal text of every `int`
/// (`long`): a string holding `Integer.toString(i)` parses to `i`, so `toString` and
/// then `parseInt` on the string it made (the new last object) gives `i` back. A string that is empty, or
/// that has a character other than a digit after an optional leading sign, fails with
/// `NumberFormatException`; so does an argument that is no string.
pub proof fn law_parse_int_natives(f: Frame, h: Seq<ObjectView>, f2: Frame)
    requires
        f.locals@.len() >= 1,
        f2.locals@.len() >= 1,
    ensures
        ({
            let t = text_of(h, f.locals@[0]);
            &&& t is None ==> integer_parse_int(f, h) == Err::<(Seq<ObjectView>, nat, Option<Value>), JvmError>(nfe())
            &&& t is None ==> long_parse_long(f, h) == Err::<(Seq<ObjectView>, nat, Option<Value>), JvmError>(nfe())
            &&& (t matches Some(s) && (s.len() == 0 || exists|j: int| 0 <= j < s.len()
                && !(j == 0 && (s[0] == '+' || s[0] == '-'))
                && !('0' <= #[trigger] s[j] && s[j] <= '9')))
                ==> (integer_parse_int(f, h) == Err::<(Seq<ObjectView>, nat, Option<Value>), JvmError>(nfe())
                    && long_parse_long(f, h) == Err::<(Seq<ObjectView>, nat, Option<Value>), JvmError>(nfe()))
        }),
        (f.locals@[0] is Int && (f2.locals@[0] matches Value::ObjectRef(k) && k == h.len())) ==> ({
            let h1 = number_text(f, h, 0)->Ok_0.0;
            integer_parse_int(f2, h1) == Ok::<(Seq<ObjectView>, nat, Option<Value>), JvmError>((h1, 0, Some(Value::Int(f.locals@[0]->Int_0))))
        }),
        (f.locals@[0] is Long && (f2.locals@[0] matches Value::ObjectRef(k) && k == h.len())) ==> ({
            let h1 = number_text(f, h, 2)->Ok_0.0;
            long_parse_long(f2, h1) == Ok::<(Seq<ObjectView>, nat, Option<Value>), JvmError>((h1, 0, Some(Value::Long(f.locals@[0]->Long_0))))
        }),
{
    match text_of(h, f.locals@[0]) {
        Some(s) => {
            if s.len() > 0 && exists|j: int| 0 <= j < s.len() && !(j == 0 && (s[0] == '+' || s[0] == '-'))
                && !('0' <= #[trigger] s[j] && s[j] <= '9') {
                let j = choose|j: int| 0 <= j < s.len() && !(j == 0 && (s[0] == '+' || s[0] == '-'))
                    && !('0' <= #[trigger] s[j] && s[j] <= '9');
                let signed = s[0] == '+' || s[0] == '-';
                let ds = if signed { s.drop_first() } else { s };
                let jj = if signed { j - 1 } else { j };
                if !(signed && s.len() == 1) {
                    assert(ds[jj] == s[j]);
                    crate::stdlib::numtext::lemma_digits_value_none(ds, 10, jj);
                }
            }
        },
        None => {},
    }
    match f.locals@[0] {
        Value::Int(i) => {
            crate::stdlib::numtext::law_decimal_parse_round_trip(i as int, i32::MIN as int, i32::MAX as int);
        },
        Value::Long(l) => {
            crate::stdlib::numtext::law_decimal_parse_round_trip(l as int, i64::MIN as int, i64::MAX as int);
        },
        _ => {},
    }
}

/// `Integer.parseInt(s, 16)` reads back the hexadecimal text `Integer.toHexString`
/// writes for every `int` that is not negative, and a base outside 2 to 36 fails
/// with `NumberFormatException`.
pub proof fn law_parse_int_radix(f: Frame, h: Seq<ObjectView>, n: nat)
    requires
        f.locals@.len() >= 2,
    ensures
        (text_of(h, f.locals@[0]) is Some && !(2 <= radix_of(f) <= 36)) ==> integer_parse_int_radix(f, h)
            == Err::<(Seq<ObjectView>, nat, Option<Value>), JvmError>(nfe()),
        (text_of(h, f.locals@[0]) == Some(lower_hex(n)) && n <= 0x7fff_ffff && f.locals@[1] == Value::Int(16))
            ==> integer_parse_int_radix(f, h) == Ok::<(Seq<ObjectView>, nat, Option<Value>), JvmError>((h, 0, Some(Value::Int(n as i32)))),
{
    if n <= 0x7fff_ffff {
        crate::stdlib::numtext::law_hex_parse_round_trip(n, 0x7fff_ffff);
        assert(parse_integer(lower_hex(n), 16, -0x8000_0000, 0x7fff_ffff) == Some(n as int)) by {
            assert(crate::stdlib::numtext::parse_integer(lower_hex(n), 16, 0, 0x7fff_ffff) == Some(n as int));
        }
    }
}

} // verus!
