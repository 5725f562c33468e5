use vstd::prelude::*;
use crate::natives::common::{
    local_missing, object, outcome, pop1, popped, string_elems, string_of, this_of, top, Effect,
};
use crate::runtime::error::{JvmError, ThreadingError};
use crate::runtime::frame::{local_error, underflow_error, Frame};
use crate::runtime::heap::{HeapObject, ObjectView};
use crate::runtime::jvm::{heap_set_field, same_but_heap, Jvm};
use crate::runtime::value::Value;
use crate::stdlib::numtext::{bool_text, bool_to_chars, int_to_chars, long_to_chars};
use crate::text::{char_from_code, chars_of, decimal, push_decimal, signed_decimal};

verus! {

/// The bytes `c` takes in UTF-8.
pub open spec fn utf8_width(c: char) -> nat {
    if (c as u32) < 0x80 {
        1
    } else if (c as u32) < 0x800 {
        2
    } else if (c as u32) < 0x10000 {
        3
    } else {
        4
    }
}

/// The length of `s` in UTF-8 bytes (what Rust's `String::len` counts).
pub open spec fn utf8_len(s: Seq<char>) -> nat
    decreases s.len(),
{
    if s.len() == 0 {
        0
    } else {
        utf8_len(s.drop_last()) + utf8_width(s.last())
    }
}

/// That length as a Java `int` (its low 32 bits, two's complement).
pub open spec fn utf8_len_int(s: Seq<char>) -> i32 {
    (utf8_len(s) % 0x1_0000_0000) as u32 as i32
}

/// `Class@id`, the default text of an object.
pub open spec fn object_text(class_name: Seq<char>, id: usize) -> Seq<char> {
    class_name + seq!['@'] + decimal(id as nat)
}

/// The string class.
pub open spec fn string_class() -> Seq<char> {
    "java.lang.String"@
}

/// A new string object holding `s` at the end of the heap.
pub open spec fn with_string(h: Seq<ObjectView>, s: Seq<char>) -> Seq<ObjectView> {
    h.push(ObjectView::string_obj(string_class(), s))
}

/// A reference to the object that `with_string(h, ..)` adds.
pub open spec fn new_ref(h: Seq<ObjectView>) -> Value {
    Value::ObjectRef(h.len() as usize)
}

fn utf8_len_exec(s: &Vec<char>) -> (n: i32)
    ensures
        n == utf8_len_int(s@),
{
    let mut acc: u32 = 0;
    let mut i: usize = 0;
    while i < s.len()
        invariant
            i <= s@.len(),
            acc == utf8_len(s@.take(i as int)) % 0x1_0000_0000,
        decreases s@.len() - i,
    {
        let c = s[i] as u32;
        let w: u32 = if c < 0x80 {
            1
        } else if c < 0x800 {
            2
        } else if c < 0x10000 {
            3
        } else {
            4
        };
        proof {
            let p = s@.take(i as int);
            let q = s@.take(i + 1);
            assert(q.drop_last() =~= p);
            assert(q.last() == s@[i as int]);
            let a = utf8_len(p);
            assert((a % 0x1_0000_0000 + w) % 0x1_0000_0000 == (a + w) % 0x1_0000_0000) by (nonlinear_arith);
        }
        acc = ((acc as u64 + w as u64) % 0x1_0000_0000) as u32;
        i += 1;
    }
    assert(s@.take(s@.len() as int) =~= s@);
    acc as i32
}

/// The characters of the class name of object `id` followed by `@` and `id`.
fn object_text_exec(o: &HeapObject, id: usize) -> (r: Vec<char>)
    ensures
        r@ == object_text(o@.class_name, id),
{
    let mut v = chars_of(o.class_name.as_str());
    v.push('@');
    push_decimal(&mut v, id as u64);
    assert(v@ =~= object_text(o@.class_name, id));
    v
}

// ---------- java.lang.Object ----------

/// `getClass()`: a new `Class` object whose `name` is a new string holding the
/// receiver's class name.
pub open spec fn object_get_class(f: Frame, h: Seq<ObjectView>) -> Effect {
    if local_missing(f, 0) {
        Err(local_error())
    } else {
        match this_of(f) {
            Value::ObjectRef(id) => if id < h.len() {
                let h1 = h.push(ObjectView::plain("java.lang.Class"@).with_field("name"@, Value::Null));
                let h2 = with_string(h1, h[id as int].class_name);
                Ok((heap_set_field(h2, new_ref(h), "name"@, new_ref(h1)), 0, Some(new_ref(h))))
            } else {
                Ok((h, 0, Some(Value::Null)))
            },
            _ => Ok((h, 0, Some(Value::Null))),
        }
    }
}

pub fn object_get_class_native(frame: &mut Frame, jvm: &mut Jvm) -> (r: Result<(), JvmError>)
    ensures
        same_but_heap(*old(jvm), *final(jvm)),
        outcome(*old(frame), old(jvm).hv(), *final(frame), final(jvm).hv(), r, object_get_class(*old(frame), old(jvm).hv())),
{
    let this = frame.get_local(0)?;
    proof {
        crate::natives::common::lemma_popped_zero(*old(frame));
    }
    if let Value::ObjectRef(id) = this {
        if id < jvm.heap.len() {
            let name = chars_of(jvm.heap[id].class_name.as_str());
            let mut c = HeapObject::new(String::from_str("java.lang.Class"));
            c.set_field("name", Value::Null);
            let cr = jvm.allocate(c);
            let nr = jvm.alloc_string(name);
            jvm.set_field(Value::ObjectRef(cr), "name", Value::ObjectRef(nr));
            frame.push(Value::ObjectRef(cr));
            return Ok(());
        }
    }
    frame.push(Value::Null);
    Ok(())
}

/// `hashCode()`: the reference number (as an `int`), or 0.
pub open spec fn object_hash_code(f: Frame, h: Seq<ObjectView>) -> Effect {
    if local_missing(f, 0) {
        Err(local_error())
    } else {
        match this_of(f) {
            Value::ObjectRef(id) => Ok((h, 0, Some(Value::Int(id as i32)))),
            _ => Ok((h, 0, Some(Value::Int(0)))),
        }
    }
}

pub fn object_hash_code_native(frame: &mut Frame, jvm: &mut Jvm) -> (r: Result<(), JvmError>)
    ensures
        *final(jvm) == *old(jvm),
        outcome(*old(frame), old(jvm).hv(), *final(frame), final(jvm).hv(), r, object_hash_code(*old(frame), old(jvm).hv())),
{
    let this = frame.get_local(0)?;
    proof {
        crate::natives::common::lemma_popped_zero(*old(frame));
    }
    match this {
        Value::ObjectRef(id) => frame.push(Value::Int(id as i32)),
        _ => frame.push(Value::Int(0)),
    }
    Ok(())
}

/// `equals(other)`: both are the same object reference.
pub open spec fn object_equals(f: Frame, h: Seq<ObjectView>) -> Effect {
    if f.stack@.len() == 0 {
        Err(underflow_error())
    } else if local_missing(f, 0) {
        Err(local_error())
    } else {
        Ok((h, 1, Some(Value::Boolean(
            match (this_of(f), top(f, 0)) {
                (Value::ObjectRef(a), Value::ObjectRef(b)) => a == b,
                _ => false,
            },
        ))))
    }
}

pub fn object_equals_native(frame: &mut Frame, jvm: &mut Jvm) -> (r: Result<(), JvmError>)
    ensures
        *final(jvm) == *old(jvm),
        outcome(*old(frame), old(jvm).hv(), *final(frame), final(jvm).hv(), r, object_equals(*old(frame), old(jvm).hv())),
{
    let other = pop1(frame)?;
    let this = frame.get_local(0)?;
    let result = match (this, other) {
        (Value::ObjectRef(a), Value::ObjectRef(b)) => a == b,
        _ => false,
    };
    frame.push(Value::Boolean(result));
    Ok(())
}

/// `toString()`: a new string `Class@id`; nothing is pushed for a receiver that is no
/// live object.
pub open spec fn object_to_string(f: Frame, h: Seq<ObjectView>) -> Effect {
    if local_missing(f, 0) {
        Err(local_error())
    } else {
        match this_of(f) {
            Value::ObjectRef(id) => if id < h.len() {
                Ok((with_string(h, object_text(h[id as int].class_name, id)), 0, Some(new_ref(h))))
            } else {
                Ok((h, 0, None))
            },
            _ => Ok((h, 0, None)),
        }
    }
}

pub fn object_to_string_native(frame: &mut Frame, jvm: &mut Jvm) -> (r: Result<(), JvmError>)
    ensures
        same_but_heap(*old(jvm), *final(jvm)),
        outcome(*old(frame), old(jvm).hv(), *final(frame), final(jvm).hv(), r, object_to_string(*old(frame), old(jvm).hv())),
{
    let this = frame.get_local(0)?;
    proof {
        crate::natives::common::lemma_popped_zero(*old(frame));
    }
    if let Value::ObjectRef(id) = this {
        if id < jvm.heap.len() {
            let text = object_text_exec(&jvm.heap[id], id);
            let s = jvm.alloc_string(text);
            frame.push(Value::ObjectRef(s));
        }
    }
    Ok(())
}

/// `notify`, `notifyAll` and the `wait`s: fail with `IllegalMonitorState` unless the
/// current thread owns the receiver's monitor; nothing else happens.
pub open spec fn object_monitor_check(f: Frame, h: Seq<ObjectView>, current: usize) -> Effect {
    if local_missing(f, 0) {
        Err(local_error())
    } else {
        match this_of(f) {
            Value::ObjectRef(id) => if id < h.len() && h[id as int].monitor_owner != Some(current) {
                Err(JvmError::ThreadingError(ThreadingError::IllegalMonitorState))
            } else {
                Ok((h, 0, None))
            },
            _ => Ok((h, 0, None)),
        }
    }
}

pub fn object_monitor_check_native(frame: &mut Frame, jvm: &mut Jvm) -> (r: Result<(), JvmError>)
    ensures
        *final(jvm) == *old(jvm),
        outcome(*old(frame), old(jvm).hv(), *final(frame), final(jvm).hv(), r,
            object_monitor_check(*old(frame), old(jvm).hv(), old(jvm).current_thread_id)),
{
    let this = frame.get_local(0)?;
    proof {
        crate::natives::common::lemma_popped_zero(*old(frame));
    }
    if let Value::ObjectRef(id) = this {
        if id < jvm.heap.len() {
            if jvm.heap[id].monitor_owner != Some(jvm.current_thread_id) {
                return Err(JvmError::ThreadingError(ThreadingError::IllegalMonitorState));
            }
        }
    }
    Ok(())
}

/// A native that does nothing: `Object()`, `Runnable.run()`, `Thread.run()`.
pub fn nothing_native(frame: &mut Frame, jvm: &mut Jvm) -> (r: Result<(), JvmError>)
    ensures
        *final(jvm) == *old(jvm),
        *final(frame) == *old(frame),
        r == Ok::<(), JvmError>(()),
{
    Ok(())
}

// ---------- java.lang.String ----------

/// The text of the receiver when it is a live string.
pub open spec fn this_string(f: Frame, h: Seq<ObjectView>) -> Option<Seq<char>> {
    match this_of(f) {
        Value::ObjectRef(id) => string_of(h, id),
        _ => None,
    }
}

fn ref_string<'a>(jvm: &'a Jvm, v: Value) -> (r: Option<&'a Vec<char>>)
    ensures
        match r {
            Some(s) => (match v {
                Value::ObjectRef(id) => string_of(jvm.hv(), id),
                _ => None,
            }) == Some(s@),
            None => (match v {
                Value::ObjectRef(id) => string_of(jvm.hv(), id),
                _ => None,
            }) is None,
        },
{
    match v {
        Value::ObjectRef(id) => string_elems(jvm, id),
        _ => None,
    }
}

/// `length()`: the UTF-8 length of the receiver's text; nothing is pushed for a
/// receiver that is no string.
pub open spec fn string_length(f: Frame, h: Seq<ObjectView>) -> Effect {
    if local_missing(f, 0) {
        Err(local_error())
    } else {
        match this_string(f, h) {
            Some(s) => Ok((h, 0, Some(Value::Int(utf8_len_int(s))))),
            None => Ok((h, 0, None)),
        }
    }
}

pub fn string_length_native(frame: &mut Frame, jvm: &mut Jvm) -> (r: Result<(), JvmError>)
    ensures
        *final(jvm) == *old(jvm),
        outcome(*old(frame), old(jvm).hv(), *final(frame), final(jvm).hv(), r, string_length(*old(frame), old(jvm).hv())),
{
    let this = frame.get_local(0)?;
    proof {
        crate::natives::common::lemma_popped_zero(*old(frame));
    }
    match ref_string(jvm, this) {
        Some(s) => {
            let n = utf8_len_exec(s);
            frame.push(Value::Int(n));
        },
        None => {},
    }
    Ok(())
}

/// `isEmpty()`.
pub open spec fn string_is_empty(f: Frame, h: Seq<ObjectView>) -> Effect {
    if local_missing(f, 0) {
        Err(local_error())
    } else {
        match this_string(f, h) {
            Some(s) => Ok((h, 0, Some(Value::Boolean(s.len() == 0)))),
            None => Ok((h, 0, None)),
        }
    }
}

pub fn string_is_empty_native(frame: &mut Frame, jvm: &mut Jvm) -> (r: Result<(), JvmError>)
    ensures
        *final(jvm) == *old(jvm),
        outcome(*old(frame), old(jvm).hv(), *final(frame), final(jvm).hv(), r, string_is_empty(*old(frame), old(jvm).hv())),
{
    let this = frame.get_local(0)?;
    proof {
        crate::natives::common::lemma_popped_zero(*old(frame));
    }
    match ref_string(jvm, this) {
        Some(s) => {
            frame.push(Value::Boolean(s.len() == 0));
        },
        None => {},
    }
    Ok(())
}

/// `equals(other)`: both are live strings with the same text.
pub open spec fn string_equals(f: Frame, h: Seq<ObjectView>) -> Effect {
    if local_missing(f, 1) {
        Err(local_error())
    } else {
        let other = match f.locals@[1] {
            Value::ObjectRef(id) => string_of(h, id),
            _ => None,
        };
        Ok((h, 0, Some(Value::Boolean(
            match (this_string(f, h), other) {
                (Some(a), Some(b)) => a == b,
                _ => false,
            },
        ))))
    }
}

pub fn string_equals_native(frame: &mut Frame, jvm: &mut Jvm) -> (r: Result<(), JvmError>)
    ensures
        *final(jvm) == *old(jvm),
        outcome(*old(frame), old(jvm).hv(), *final(frame), final(jvm).hv(), r, string_equals(*old(frame), old(jvm).hv())),
{
    let other = frame.get_local(1)?;
    let this = frame.get_local(0)?;
    proof {
        crate::natives::common::lemma_popped_zero(*old(frame));
    }
    let eq = match (ref_string(jvm, this), ref_string(jvm, other)) {
        (Some(a), Some(b)) => crate::natives::common::chars_eq(a, b),
        _ => false,
    };
    frame.push(Value::Boolean(eq));
    Ok(())
}

/// `String.valueOf(int)`, `(long)` and `(boolean)`: the text of a popped value of
/// the right kind as a new string; nothing is pushed for any other value.
pub open spec fn string_value_of(f: Frame, h: Seq<ObjectView>) -> Effect {
    if f.stack@.len() == 0 {
        Err(underflow_error())
    } else {
        match top(f, 0) {
            Value::Int(i) => Ok((with_string(h, signed_decimal(i as int)), 1, Some(new_ref(h)))),
            Value::Long(l) => Ok((with_string(h, signed_decimal(l as int)), 1, Some(new_ref(h)))),
            Value::Boolean(b) => Ok((with_string(h, bool_text(b)), 1, Some(new_ref(h)))),
            _ => Ok((h, 1, None)),
        }
    }
}

/// One native per kind; each accepts only its own kind.
pub open spec fn string_value_of_kind(f: Frame, h: Seq<ObjectView>, kind: u8) -> Effect {
    if f.stack@.len() == 0 {
        Err(underflow_error())
    } else {
        match top(f, 0) {
            Value::Int(_) => if kind == 0 {
                string_value_of(f, h)
            } else {
                Ok((h, 1, None))
            },
            Value::Long(_) => if kind == 1 {
                string_value_of(f, h)
            } else {
                Ok((h, 1, None))
            },
            Value::Boolean(_) => if kind == 2 {
                string_value_of(f, h)
            } else {
                Ok((h, 1, None))
            },
            _ => Ok((h, 1, None)),
        }
    }
}

/// `String.valueOf` for `int` (kind 0), `long` (kind 1) and `boolean` (kind 2).
pub fn string_value_of_native(frame: &mut Frame, jvm: &mut Jvm, kind: u8) -> (r: Result<(), JvmError>)
    ensures
        same_but_heap(*old(jvm), *final(jvm)),
        outcome(*old(frame), old(jvm).hv(), *final(frame), final(jvm).hv(), r, string_value_of_kind(*old(frame), old(jvm).hv(), kind)),
{
    let v = pop1(frame)?;
    let text = match v {
        Value::Int(i) => if kind == 0 {
            Some(int_to_chars(i))
        } else {
            None
        },
        Value::Long(l) => if kind == 1 {
            Some(long_to_chars(l))
        } else {
            None
        },
        Value::Boolean(b) => if kind == 2 {
            Some(bool_to_chars(b))
        } else {
            None
        },
        _ => None,
    };
    match text {
        Some(t) => {
            let s = jvm.alloc_string(t);
            frame.push(Value::ObjectRef(s));
        },
        None => {},
    }
    Ok(())
}

/// `System.identityHashCode(x)`: the reference number of a popped object reference
/// (as an `int`), else 0.
pub open spec fn system_identity_hash_code(f: Frame, h: Seq<ObjectView>) -> Effect {
    if f.stack@.len() == 0 {
        Err(underflow_error())
    } else {
        match top(f, 0) {
            Value::ObjectRef(id) => Ok((h, 1, Some(Value::Int(id as i32)))),
            _ => Ok((h, 1, Some(Value::Int(0)))),
        }
    }
}

pub fn system_identity_hash_code_native(frame: &mut Frame, jvm: &mut Jvm) -> (r: Result<(), JvmError>)
    ensures
        *final(jvm) == *old(jvm),
        outcome(*old(frame), old(jvm).hv(), *final(frame), final(jvm).hv(), r, system_identity_hash_code(*old(frame), old(jvm).hv())),
{
    let v = pop1(frame)?;
    match v {
        Value::ObjectRef(id) => frame.push(Value::Int(id as i32)),
        _ => frame.push(Value::Int(0)),
    }
    Ok(())
}

// ---------- java.lang.StringBuilder ----------

/// The heap with the text of object `this` (when it is a live object) set to `s`.
pub open spec fn heap_with_text(h: Seq<ObjectView>, this: Value, s: Option<Seq<char>>) -> Seq<ObjectView> {
    match this {
        Value::ObjectRef(id) => if id < h.len() {
            h.update(id as int, h[id as int].with_string(s))
        } else {
            h
        },
        _ => h,
    }
}

/// The text of a live object (empty when it has none).
pub open spec fn text_or_empty(h: Seq<ObjectView>, id: usize) -> Seq<char> {
    match string_of(h, id) {
        Some(s) => s,
        None => Seq::<char>::empty(),
    }
}

/// The heap with `s` appended to the text of object `this` (a missing text counts as
/// empty).
pub open spec fn heap_append(h: Seq<ObjectView>, this: Value, s: Seq<char>) -> Seq<ObjectView> {
    match this {
        Value::ObjectRef(id) => if id < h.len() {
            heap_with_text(h, this, Some(text_or_empty(h, id) + s))
        } else {
            h
        },
        _ => h,
    }
}

/// The text of the string that local 1 refers to, or empty.
pub open spec fn arg_text(h: Seq<ObjectView>, v: Value) -> Seq<char> {
    match v {
        Value::ObjectRef(id) => text_or_empty(h, id),
        _ => Seq::<char>::empty(),
    }
}

fn set_text(jvm: &mut Jvm, this: Value, s: Option<Vec<char>>)
    ensures
        final(jvm).hv() == heap_with_text(old(jvm).hv(), this, match s {
            Some(t) => Some(t@),
            None => None,
        }),
        same_but_heap(*old(jvm), *final(jvm)),
{
    if let Value::ObjectRef(id) = this {
        if id < jvm.heap.len() {
            jvm.set_string(id, s);
            return;
        }
    }
}

fn text_or_empty_exec(jvm: &Jvm, v: Value) -> (r: Vec<char>)
    ensures
        r@ == arg_text(jvm.hv(), v),
{
    match v {
        Value::ObjectRef(id) => match string_elems(jvm, id) {
            Some(s) => copy_chars(s),
            None => Vec::new(),
        },
        _ => Vec::new(),
    }
}

/// A copy of `s`.
pub fn copy_chars_pub(s: &Vec<char>) -> (r: Vec<char>)
    ensures
        r@ == s@,
{
    copy_chars(s)
}

fn copy_chars(s: &Vec<char>) -> (r: Vec<char>)
    ensures
        r@ == s@,
{
    let mut r: Vec<char> = Vec::new();
    let mut i: usize = 0;
    while i < s.len()
        invariant
            i <= s@.len(),
            r@ == s@.take(i as int),
        decreases s@.len() - i,
    {
        r.push(s[i]);
        i += 1;
        assert(r@ =~= s@.take(i as int));
    }
    assert(s@.take(s@.len() as int) =~= s@);
    r
}

fn append_text(jvm: &mut Jvm, this: Value, s: Vec<char>)
    ensures
        final(jvm).hv() == heap_append(old(jvm).hv(), this, s@),
        same_but_heap(*old(jvm), *final(jvm)),
{
    if let Value::ObjectRef(id) = this {
        if id < jvm.heap.len() {
            let mut t = text_or_empty_exec(jvm, this);
            let mut s2 = s;
            t.append(&mut s2);
            jvm.set_string(id, Some(t));
        }
    }
}

/// `StringBuilder()` and `StringBuilder(int)`: the text becomes empty.
pub open spec fn builder_init(f: Frame, h: Seq<ObjectView>) -> Effect {
    if local_missing(f, 0) {
        Err(local_error())
    } else {
        Ok((heap_with_text(h, this_of(f), Some(Seq::<char>::empty())), 0, None))
    }
}

pub fn builder_init_native(frame: &mut Frame, jvm: &mut Jvm) -> (r: Result<(), JvmError>)
    ensures
        same_but_heap(*old(jvm), *final(jvm)),
        outcome(*old(frame), old(jvm).hv(), *final(frame), final(jvm).hv(), r, builder_init(*old(frame), old(jvm).hv())),
{
    let this = frame.get_local(0)?;
    proof {
        crate::natives::common::lemma_popped_zero(*old(frame));
    }
    set_text(jvm, this, Some(Vec::new()));
    Ok(())
}

/// `StringBuilder(String)`: the text becomes that of the argument (empty when it is
/// no string).
pub open spec fn builder_init_with_string(f: Frame, h: Seq<ObjectView>) -> Effect {
    if local_missing(f, 1) {
        Err(local_error())
    } else {
        Ok((heap_with_text(h, this_of(f), Some(arg_text(h, f.locals@[1]))), 0, None))
    }
}

pub fn builder_init_with_string_native(frame: &mut Frame, jvm: &mut Jvm) -> (r: Result<(), JvmError>)
    ensures
        same_but_heap(*old(jvm), *final(jvm)),
        outcome(*old(frame), old(jvm).hv(), *final(frame), final(jvm).hv(), r, builder_init_with_string(*old(frame), old(jvm).hv())),
{
    let arg = frame.get_local(1)?;
    let this = frame.get_local(0)?;
    proof {
        crate::natives::common::lemma_popped_zero(*old(frame));
    }
    let s = text_or_empty_exec(jvm, arg);
    set_text(jvm, this, Some(s));
    Ok(())
}

/// The text that `append` adds for its argument `v`, by the overload `kind`:
/// 0 `String`, 1 `int`, 2 `long`, 3 `boolean`, 5 `Object` (kind 4, `char`, is
/// `builder_append_char`).
pub open spec fn append_piece(h: Seq<ObjectView>, v: Value, kind: u8) -> Seq<char> {
    if kind == 0 {
        arg_text(h, v)
    } else if kind == 1 {
        match v {
            Value::Int(i) => signed_decimal(i as int),
            _ => Seq::<char>::empty(),
        }
    } else if kind == 2 {
        match v {
            Value::Long(l) => signed_decimal(l as int),
            _ => Seq::<char>::empty(),
        }
    } else if kind == 3 {
        match v {
            Value::Boolean(b) => bool_text(b),
            _ => Seq::<char>::empty(),
        }
    } else {
        match v {
            Value::ObjectRef(id) => if id < h.len() {
                match h[id as int].string {
                    Some(s) => s,
                    None => object_text(h[id as int].class_name, id),
                }
            } else {
                Seq::<char>::empty()
            },
            _ => "null"@,
        }
    }
}

/// `append(x)`: the text of `x` appended to the receiver's text; the receiver is
/// pushed back.
pub open spec fn builder_append(f: Frame, h: Seq<ObjectView>, kind: u8) -> Effect {
    if local_missing(f, 1) {
        Err(local_error())
    } else {
        Ok((heap_append(h, this_of(f), append_piece(h, f.locals@[1], kind)), 0, Some(this_of(f))))
    }
}

fn append_piece_exec(jvm: &Jvm, v: Value, kind: u8) -> (r: Vec<char>)
    ensures
        r@ == append_piece(jvm.hv(), v, kind),
{
    if kind == 0 {
        text_or_empty_exec(jvm, v)
    } else if kind == 1 {
        match v {
            Value::Int(i) => int_to_chars(i),
            _ => Vec::new(),
        }
    } else if kind == 2 {
        match v {
            Value::Long(l) => long_to_chars(l),
            _ => Vec::new(),
        }
    } else if kind == 3 {
        match v {
            Value::Boolean(b) => bool_to_chars(b),
            _ => Vec::new(),
        }
    } else {
        match v {
            Value::ObjectRef(id) => if id < jvm.heap.len() {
                match &jvm.heap[id].string_value {
                    Some(s) => copy_chars(s),
                    None => object_text_exec(&jvm.heap[id], id),
                }
            } else {
                Vec::new()
            },
            _ => {
                let r = chars_of("null");
                r
            },
        }
    }
}

/// `append(String)`, `append(int)`, `append(long)`, `append(boolean)` and
/// `append(Object)`, by `kind` as in `append_piece`.
pub fn builder_append_native(frame: &mut Frame, jvm: &mut Jvm, kind: u8) -> (r: Result<(), JvmError>)
    ensures
        same_but_heap(*old(jvm), *final(jvm)),
        outcome(*old(frame), old(jvm).hv(), *final(frame), final(jvm).hv(), r, builder_append(*old(frame), old(jvm).hv(), kind)),
{
    let v = frame.get_local(1)?;
    let this = frame.get_local(0)?;
    proof {
        crate::natives::common::lemma_popped_zero(*old(frame));
    }
    let piece = append_piece_exec(jvm, v, kind);
    append_text(jvm, this, piece);
    frame.push(this);
    Ok(())
}

/// `append(double)`, with `shown` the display text of the argument: the text is
/// appended when local 1 is a `double` (nothing otherwise); the receiver is pushed
/// back.
pub open spec fn builder_append_shown(f: Frame, h: Seq<ObjectView>, shown: Seq<char>) -> Effect {
    if local_missing(f, 1) {
        Err(local_error())
    } else {
        let piece = match f.locals@[1] {
            Value::Double(_) => shown,
            _ => Seq::<char>::empty(),
        };
        Ok((heap_append(h, this_of(f), piece), 0, Some(this_of(f))))
    }
}

pub fn builder_append_shown_native(frame: &mut Frame, jvm: &mut Jvm, shown: &Vec<char>) -> (r: Result<(), JvmError>)
    ensures
        same_but_heap(*old(jvm), *final(jvm)),
        outcome(*old(frame), old(jvm).hv(), *final(frame), final(jvm).hv(), r,
            builder_append_shown(*old(frame), old(jvm).hv(), shown@)),
{
    let v = frame.get_local(1)?;
    let this = frame.get_local(0)?;
    proof {
        crate::natives::common::lemma_popped_zero(*old(frame));
    }
    let piece = match v {
        Value::Double(_) => copy_chars(shown),
        _ => Vec::new(),
    };
    append_text(jvm, this, piece);
    frame.push(this);
    Ok(())
}

/// The character a UTF-16 unit stands for on its own; surrogates stand for none.
pub open spec fn unit_char(c: u16) -> Option<char> {
    if 0xD800 <= c <= 0xDFFF {
        None
    } else {
        Some(c as char)
    }
}

/// `append(char)`: the character appended when it is one; the receiver is pushed back.
pub open spec fn builder_append_char(f: Frame, h: Seq<ObjectView>) -> Effect {
    if local_missing(f, 1) {
        Err(local_error())
    } else {
        match f.locals@[1] {
            Value::Char(c) => match unit_char(c) {
                Some(ch) => Ok((heap_append(h, this_of(f), seq![ch]), 0, Some(this_of(f)))),
                None => Ok((h, 0, Some(this_of(f)))),
            },
            _ => Ok((h, 0, Some(this_of(f)))),
        }
    }
}

pub fn builder_append_char_native(frame: &mut Frame, jvm: &mut Jvm) -> (r: Result<(), JvmError>)
    ensures
        same_but_heap(*old(jvm), *final(jvm)),
        outcome(*old(frame), old(jvm).hv(), *final(frame), final(jvm).hv(), r, builder_append_char(*old(frame), old(jvm).hv())),
{
    let v = frame.get_local(1)?;
    let this = frame.get_local(0)?;
    proof {
        crate::natives::common::lemma_popped_zero(*old(frame));
    }
    if let Value::Char(c) = v {
        match char_from_code(c as u32) {
            Some(ch) => {
                let mut piece: Vec<char> = Vec::new();
                piece.push(ch);
                proof {
                    assert(piece@ =~= seq![ch]);
                }
                append_text(jvm, this, piece);
            },
            None => {},
        }
    }
    frame.push(this);
    Ok(())
}

/// `toString()`: a new string with the receiver's text (empty when it has none);
/// nothing is pushed for a receiver that is no live object.
pub open spec fn builder_to_string(f: Frame, h: Seq<ObjectView>) -> Effect {
    if local_missing(f, 0) {
        Err(local_error())
    } else {
        match this_of(f) {
            Value::ObjectRef(id) => if id < h.len() {
                Ok((with_string(h, text_or_empty(h, id)), 0, Some(new_ref(h))))
            } else {
                Ok((h, 0, None))
            },
            _ => Ok((h, 0, None)),
        }
    }
}

pub fn builder_to_string_native(frame: &mut Frame, jvm: &mut Jvm) -> (r: Result<(), JvmError>)
    ensures
        same_but_heap(*old(jvm), *final(jvm)),
        outcome(*old(frame), old(jvm).hv(), *final(frame), final(jvm).hv(), r, builder_to_string(*old(frame), old(jvm).hv())),
{
    let this = frame.get_local(0)?;
    proof {
        crate::natives::common::lemma_popped_zero(*old(frame));
    }
    if let Value::ObjectRef(id) = this {
        if id < jvm.heap.len() {
            let t = text_or_empty_exec(jvm, this);
            let s = jvm.alloc_string(t);
            frame.push(Value::ObjectRef(s));
        }
    }
    Ok(())
}

/// `length()`: the UTF-8 length of the receiver's text (0 when it has none).
pub open spec fn builder_length(f: Frame, h: Seq<ObjectView>) -> Effect {
    if local_missing(f, 0) {
        Err(local_error())
    } else {
        match this_of(f) {
            Value::ObjectRef(id) => if id < h.len() {
                Ok((h, 0, Some(Value::Int(utf8_len_int(text_or_empty(h, id))))))
            } else {
                Ok((h, 0, None))
            },
            _ => Ok((h, 0, None)),
        }
    }
}

pub fn builder_length_native(frame: &mut Frame, jvm: &mut Jvm) -> (r: Result<(), JvmError>)
    ensures
        *final(jvm) == *old(jvm),
        outcome(*old(frame), old(jvm).hv(), *final(frame), final(jvm).hv(), r, builder_length(*old(frame), old(jvm).hv())),
{
    let this = frame.get_local(0)?;
    proof {
        crate::natives::common::lemma_popped_zero(*old(frame));
        assert(utf8_len(Seq::<char>::empty()) == 0);
    }
    if let Value::ObjectRef(id) = this {
        if id < jvm.heap.len() {
            let t = text_or_empty_exec(jvm, this);
            let n = utf8_len_exec(&t);
            frame.push(Value::Int(n));
        }
    }
    Ok(())
}

/// `StringBuilder.append(x)` extends the receiver's text by the text of `x` and keeps
/// what was there: a string's own text, an `int`'s or `long`'s decimal text (read back
/// in base 10 it is `x`), `true` or `false` for a boolean. It pushes the receiver back,
/// changes no other object, and a following `toString()` gives the whole new text.
pub proof fn law_builder_append(f: Frame, h: Seq<ObjectView>, kind: u8, id: usize)
    requires
        f.locals@.len() >= 2,
        this_of(f) == Value::ObjectRef(id),
        id < h.len(),
        kind <= 3,
    ensures
        ({
            let r = builder_append(f, h, kind);
            let h1 = r->Ok_0.0;
            let old_text = text_or_empty(h, id);
            let new_text = text_or_empty(h1, id);
            let x = f.locals@[1];
            &&& r is Ok
            &&& r->Ok_0.2 == Some(this_of(f))
            &&& h1.len() == h.len()
            &&& forall|j: int| 0 <= j < h.len() && j != id ==> #[trigger] h1[j] == h[j]
            &&& new_text.len() >= old_text.len()
            &&& new_text.subrange(0, old_text.len() as int) == old_text
            &&& ({
                let piece = new_text.subrange(old_text.len() as int, new_text.len() as int);
                &&& (kind == 0 && (x matches Value::ObjectRef(s) && string_of(h, s) is Some))
                    ==> piece == string_of(h, x->ObjectRef_0)->0
                &&& (kind == 1 && x is Int) ==> crate::stdlib::numtext::parse_integer(piece, 10,
                    i32::MIN as int, i32::MAX as int) == Some(x->Int_0 as int)
                &&& (kind == 2 && x is Long) ==> crate::stdlib::numtext::parse_integer(piece, 10,
                    i64::MIN as int, i64::MAX as int) == Some(x->Long_0 as int)
                &&& (kind == 3 && x is Boolean) ==> piece == (if x->Boolean_0 { "true"@ } else { "false"@ })
            })
            &&& builder_to_string(f, h1) is Ok
            &&& builder_to_string(f, h1)->Ok_0.2 == Some(new_ref(h1))
            &&& builder_to_string(f, h1)->Ok_0.0 == with_string(h1, new_text)
        }),
{
    let r = builder_append(f, h, kind);
    let h1 = r->Ok_0.0;
    let x = f.locals@[1];
    let old_text = text_or_empty(h, id);
    let piece = append_piece(h, x, kind);
    assert(h1 == h.update(id as int, h[id as int].with_string(Some(old_text + piece))));
    assert(text_or_empty(h1, id) == old_text + piece);
    let new_text = old_text + piece;
    assert(new_text.subrange(0, old_text.len() as int) =~= old_text);
    assert(new_text.subrange(old_text.len() as int, new_text.len() as int) =~= piece);
    if kind == 1 && x is Int {
        crate::stdlib::numtext::law_decimal_parse_round_trip(x->Int_0 as int, i32::MIN as int, i32::MAX as int);
    }
    if kind == 2 && x is Long {
        crate::stdlib::numtext::law_decimal_parse_round_trip(x->Long_0 as int, i64::MIN as int, i64::MAX as int);
    }
    if kind == 3 && x is Boolean {
        reveal_strlit("true");
        reveal_strlit("false");
        assert(bool_text(x->Boolean_0) =~= (if x->Boolean_0 { "true"@ } else { "false"@ }));
    }
}

proof fn lemma_utf8_len_bounds(s: Seq<char>)
    ensures
        s.len() <= utf8_len(s) <= 4 * s.len(),
        (forall|i: int| 0 <= i < s.len() ==> (#[trigger] s[i] as u32) < 0x80) ==> utf8_len(s) == s.len(),
    decreases s.len(),
{
    if s.len() > 0 {
        lemma_utf8_len_bounds(s.drop_last());
        if forall|i: int| 0 <= i < s.len() ==> (#[trigger] s[i] as u32) < 0x80 {
            assert forall|i: int| 0 <= i < s.drop_last().len() implies (#[trigger] s.drop_last()[i] as u32) < 0x80 by {
                assert(s.drop_last()[i] == s[i]);
            }
            assert((s[s.len() - 1] as u32) < 0x80);
        }
    }
}

/// `String.length()` counts the UTF-8 bytes of the text: at least one per character
/// and at most four, exactly one per character for ASCII text, and 0 only for the
/// empty text, which is also the one `isEmpty()` answers `true` for.
pub proof fn law_string_length(f: Frame, h: Seq<ObjectView>)
    requires
        f.locals@.len() >= 1,
        this_string(f, h) is Some,
        this_string(f, h)->0.len() < 0x2000_0000,
    ensures
        ({
            let s = this_string(f, h)->0;
            let n = string_length(f, h)->Ok_0.2->0->Int_0;
            &&& string_length(f, h) is Ok
            &&& string_length(f, h)->Ok_0.2 matches Some(Value::Int(_))
            &&& s.len() <= n <= 4 * s.len()
            &&& (forall|i: int| 0 <= i < s.len() ==> (#[trigger] s[i] as u32) < 0x80) ==> n == s.len()
            &&& (n == 0 <==> s.len() == 0)
            &&& string_is_empty(f, h) == Ok::<(Seq<ObjectView>, nat, Option<Value>), JvmError>((h, 0, Some(Value::Boolean(n == 0))))
        }),
{
    let s = this_string(f, h)->0;
    lemma_utf8_len_bounds(s);
    let u = utf8_len(s);
    assert(u < 0x8000_0000);
    assert(u % 0x1_0000_0000 == u);
    let v: u32 = u as u32;
    assert(v == u);
    assert(v as i32 == v) by (bit_vector)
        requires v < 0x8000_0000u32;
}

/// `String.equals` answers whether both are strings with the same text: a string
/// equals itself, and the answer does not depend on which of the two is the receiver.
pub proof fn law_string_equals(f: Frame, g: Frame, h: Seq<ObjectView>)
    requires
        f.locals@.len() >= 2,
        g.locals@.len() >= 2,
        g.locals@[0] == f.locals@[1],
        g.locals@[1] == f.locals@[0],
    ensures
        string_equals(f, h) is Ok,
        string_equals(f, h)->Ok_0.0 == h,
        string_equals(f, h)->Ok_0.2 == string_equals(g, h)->Ok_0.2,
        (f.locals@[0] == f.locals@[1] && this_string(f, h) is Some)
            ==> string_equals(f, h)->Ok_0.2 == Some(Value::Boolean(true)),
        (this_string(f, h) is Some && this_string(g, h) is Some)
            ==> string_equals(f, h)->Ok_0.2 == Some(Value::Boolean(this_string(f, h) == this_string(g, h))),
{
}

} // verus!
