use vstd::prelude::*;
use crate::natives::common::{
    call_error, field_of, get_field_of, instance_outcome, instance_outcome_or_err, npe, oref_field,
    pop1_this, popped, read_oref_field, this0, this_of, top,
};
use crate::natives::map::{append_entry, find_key, init_map_fields, map_append, map_entries, map_find, map_init, size_field};
use crate::runtime::error::{JvmError, RuntimeError};
use crate::runtime::frame::Frame;
use crate::runtime::heap::{HeapObject, ObjectView};
use crate::runtime::jvm::{heap_set_field, same_but_heap, Jvm};
use crate::runtime::value::Value;

verus! {

/// The backing map of a set: its `map` field.
pub open spec fn set_map(h: Seq<ObjectView>, id: usize) -> Option<Value> {
    field_of(h, id, "map"@)
}

/// The size of a set: the size of its backing map (0 when there is none).
pub open spec fn set_size(h: Seq<ObjectView>, id: usize) -> i32 {
    match set_map(h, id) {
        Some(Value::ObjectRef(m)) => size_field(h, m),
        _ => 0,
    }
}

/// The elements of a set, in the order they were added: the keys of its backing map.
pub open spec fn set_elems(h: Seq<ObjectView>, id: usize) -> Seq<Value> {
    match set_map(h, id) {
        Some(Value::ObjectRef(m)) => map_entries(h, m).map_values(|e: (Value, Value)| e.0),
        _ => Seq::empty(),
    }
}

/// Whether one of the backing map's keys equals `x`.
pub open spec fn set_contains(h: Seq<ObjectView>, id: usize, x: Value) -> bool {
    match set_map(h, id) {
        Some(Value::ObjectRef(m)) => m < h.len() && map_find(h, m, x) is Some,
        _ => false,
    }
}

/// The backing map's size is not negative.
pub open spec fn set_ready(h: Seq<ObjectView>, f: Frame) -> bool {
    f.locals@.len() > 0 ==> match f.locals@[0] {
        Value::ObjectRef(id) => size_field(h, oref_field(h, id, "map"@)) >= 0,
        _ => true,
    }
}

/// `add(x)`: when no key of the backing map equals `x`, appends `x` (with a `Null`
/// value) and answers `true`; otherwise leaves the set as it is and answers `false`.
/// A set without a backing map answers `true` and stays as it is.
pub open spec fn set_add(h: Seq<ObjectView>, id: usize, x: Value) -> Result<(Seq<ObjectView>, Option<Value>), JvmError> {
    let m = oref_field(h, id, "map"@);
    if m == 0 {
        Ok((h, Some(Value::Boolean(true))))
    } else if m >= h.len() {
        Err(npe())
    } else {
        match map_find(h, m, x) {
            Some(_) => Ok((h, Some(Value::Boolean(false)))),
            None => Ok((map_append(h, m, x, Value::Null), Some(Value::Boolean(true)))),
        }
    }
}

/// The heap after `HashSet()` on `this`: a new backing map, made empty as a map's
/// constructor makes it, in the set's `map` field.
pub open spec fn set_init(h: Seq<ObjectView>, this: Value) -> Seq<ObjectView> {
    match this {
        Value::ObjectRef(_) => {
            let m = Value::ObjectRef(h.len() as usize);
            heap_set_field(map_init(h.push(ObjectView::plain("java.util.HashMap"@)), m), this, "map"@, m)
        },
        _ => h,
    }
}

/// `HashSet()`.
pub fn hashset_init(frame: &mut Frame, jvm: &mut Jvm) -> (r: Result<(), JvmError>)
    ensures
        same_but_heap(*old(jvm), *final(jvm)),
        *final(frame) == *old(frame),
        match call_error(*old(frame), 0) {
            Some(e) => r == Err::<(), JvmError>(e) && final(jvm).hv() == old(jvm).hv(),
            None => r == Ok::<(), JvmError>(()) && final(jvm).hv() == set_init(old(jvm).hv(), this_of(*old(frame))),
        },
{
    let this = this0(frame)?;
    if let Value::ObjectRef(_) = this {
        let m = jvm.allocate(HeapObject::new(String::from_str("java.util.HashMap")));
        init_map_fields(jvm, Value::ObjectRef(m));
        jvm.set_field(this, "map", Value::ObjectRef(m));
    }
    Ok(())
}

/// `add(x)`.
pub fn hashset_add(frame: &mut Frame, jvm: &mut Jvm) -> (r: Result<(), JvmError>)
    requires
        set_ready(old(jvm).hv(), *old(frame)),
    ensures
        same_but_heap(*old(jvm), *final(jvm)),
        instance_outcome_or_err(*old(frame), old(jvm).hv(), *final(frame), final(jvm).hv(), r, 1,
            |id: usize| set_add(old(jvm).hv(), id, top(*old(frame), 0)), true,
            Some(Value::Boolean(true))),
{
    let (this, x) = pop1_this(frame)?;
    if let Value::ObjectRef(id) = this {
        if id >= jvm.heap.len() {
            return Err(JvmError::RuntimeError(RuntimeError::NullPointerException));
        }
        let m = read_oref_field(jvm, id, "map");
        if m == 0 {
            frame.push(Value::Boolean(true));
            return Ok(());
        }
        if m >= jvm.heap.len() {
            return Err(JvmError::RuntimeError(RuntimeError::NullPointerException));
        }
        if find_key(jvm, m, x).is_some() {
            frame.push(Value::Boolean(false));
            return Ok(());
        }
        append_entry(jvm, m, x, Value::Null);
    }
    frame.push(Value::Boolean(true));
    Ok(())
}

/// The size of the set `this` refers to.
fn set_size_exec(jvm: &Jvm, this: Value) -> (n: i32)
    ensures
        n == match this {
            Value::ObjectRef(id) => set_size(jvm.hv(), id),
            _ => 0,
        },
{
    match this {
        Value::ObjectRef(id) => match get_field_of(jvm, id, "map") {
            Some(Value::ObjectRef(m)) => crate::natives::common::read_int_field(jvm, m, "size", 0),
            _ => 0,
        },
        _ => 0,
    }
}

/// `size()`.
pub fn hashset_size(frame: &mut Frame, jvm: &mut Jvm) -> (r: Result<(), JvmError>)
    ensures
        *final(jvm) == *old(jvm),
        instance_outcome(*old(frame), old(jvm).hv(), *final(frame), final(jvm).hv(), r, 0,
            |id: usize| (old(jvm).hv(), Some(Value::Int(set_size(old(jvm).hv(), id)))), false,
            Some(Value::Int(0))),
{
    let this = this0(frame)?;
    assert(popped(*old(frame), 0) =~= old(frame).stack@);
    let n = set_size_exec(jvm, this);
    frame.push(Value::Int(n));
    Ok(())
}

/// `isEmpty()`.
pub fn hashset_is_empty(frame: &mut Frame, jvm: &mut Jvm) -> (r: Result<(), JvmError>)
    ensures
        *final(jvm) == *old(jvm),
        instance_outcome(*old(frame), old(jvm).hv(), *final(frame), final(jvm).hv(), r, 0,
            |id: usize| (old(jvm).hv(), Some(Value::Boolean(set_size(old(jvm).hv(), id) == 0))), false,
            Some(Value::Boolean(true))),
{
    let this = this0(frame)?;
    assert(popped(*old(frame), 0) =~= old(frame).stack@);
    let n = set_size_exec(jvm, this);
    frame.push(Value::Boolean(n == 0));
    Ok(())
}

/// `contains(x)`.
pub fn hashset_contains(frame: &mut Frame, jvm: &mut Jvm) -> (r: Result<(), JvmError>)
    ensures
        *final(jvm) == *old(jvm),
        instance_outcome(*old(frame), old(jvm).hv(), *final(frame), final(jvm).hv(), r, 1,
            |id: usize| (old(jvm).hv(), Some(Value::Boolean(set_contains(old(jvm).hv(), id, top(*old(frame), 0))))),
            false, Some(Value::Boolean(false))),
{
    let (this, x) = pop1_this(frame)?;
    let mut found = false;
    if let Value::ObjectRef(id) = this {
        match get_field_of(jvm, id, "map") {
            Some(Value::ObjectRef(m)) => {
                if m < jvm.heap.len() {
                    found = find_key(jvm, m, x).is_some();
                }
            },
            _ => {},
        }
    }
    frame.push(Value::Boolean(found));
    Ok(())
}

} // verus!
