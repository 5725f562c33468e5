use vstd::prelude::*;
use crate::natives::arrays::{
    array_prefix, heap_null_fill, heap_store, heap_with_array, null_fill, nulls, padded, padded_copy,
    prefix_upto, store,
};
use crate::natives::common::{
    array_elems, array_of, aref_field, call_error, find_equal, first_equal, instance_outcome,
    lemma_first_equal_bounds, pop1_this, pop2_this, popped, read_aref_field, read_int_field, this0, this_of, top,
};
use crate::natives::map::{object_array_class, size_field};
use crate::runtime::error::{JvmError, RuntimeError};
use crate::runtime::frame::Frame;
use crate::runtime::heap::{HeapObject, ObjectView};
use crate::runtime::jvm::{heap_set_field, same_but_heap, Jvm};
use crate::runtime::value::{spec_as_int, Value};

verus! {

/// The element array of list `id`.
pub open spec fn list_array(h: Seq<ObjectView>, id: usize) -> usize {
    aref_field(h, id, "elementData"@)
}

/// A list is in order when its size is not negative and fits its element array,
/// and that array can grow by half without leaving the address space.
pub open spec fn list_ok(h: Seq<ObjectView>, id: usize) -> bool {
    &&& size_field(h, id) >= 0
    &&& match array_of(h, list_array(h, id)) {
        Some(e) => size_field(h, id) <= e.len() && 2 * e.len() + 2 <= usize::MAX,
        None => true,
    }
}

/// The receiver, when it is a live object, is a list in order.
pub open spec fn list_ready(h: Seq<ObjectView>, f: Frame) -> bool {
    f.locals@.len() > 0 ==> match f.locals@[0] {
        Value::ObjectRef(id) => id < h.len() ==> list_ok(h, id),
        _ => true,
    }
}

/// The capacity a list's array grows to from `len` slots.
pub open spec fn list_capacity(len: nat) -> nat {
    if len * 3 / 2 + 1 > 10 {
        (len * 3 / 2 + 1) as nat
    } else {
        10
    }
}

/// The elements of the list (the first `size` slots of its array).
pub open spec fn list_elems(h: Seq<ObjectView>, id: usize) -> Seq<Value> {
    match array_of(h, list_array(h, id)) {
        Some(e) => prefix_upto(e, size_field(h, id)),
        None => Seq::<Value>::empty(),
    }
}

/// `add(x)`: `x` in slot `size` (the array grown first when full), size one larger.
pub open spec fn list_add(h: Seq<ObjectView>, id: usize, x: Value) -> Seq<ObjectView> {
    let size = size_field(h, id) as nat;
    let ar = list_array(h, id);
    let h1 = match array_of(h, ar) {
        Some(e) => {
            let e2 = if size >= e.len() {
                padded(e, list_capacity(e.len()))
            } else {
                e
            };
            heap_with_array(h, ar, if size < e2.len() {
                e2.update(size as int, x)
            } else {
                e2
            })
        },
        None => h,
    };
    heap_set_field(h1, Value::ObjectRef(id), "size"@, Value::Int((size + 1) as i32))
}

/// The array after removing slot `i` of the first `size`: later elements move down
/// one slot and slot `size - 1` becomes `Null`.
pub open spec fn removed_at(e: Seq<Value>, i: int, size: int) -> Seq<Value> {
    Seq::new(
        e.len(),
        |j: int|
            if j < i {
                e[j]
            } else if j < size - 1 {
                e[j + 1]
            } else if j == size - 1 {
                Value::Null
            } else {
                e[j]
            },
    )
}

/// `remove(index)`: the removed element, or `Null` when `index` is not below the size.
pub open spec fn list_remove(h: Seq<ObjectView>, id: usize, index: i32) -> (Seq<ObjectView>, Option<Value>) {
    let size = size_field(h, id);
    let ar = list_array(h, id);
    if 0 <= index < size {
        let removed = match array_of(h, ar) {
            Some(e) => if index < e.len() {
                e[index as int]
            } else {
                Value::Null
            },
            None => Value::Null,
        };
        let h1 = match array_of(h, ar) {
            Some(e) => heap_with_array(h, ar, removed_at(e, index as int, size as int)),
            None => h,
        };
        (heap_set_field(h1, Value::ObjectRef(id), "size"@, Value::Int((size - 1) as i32)), Some(removed))
    } else {
        (h, Some(Value::Null))
    }
}

/// `set(index, x)`: the previous element, or `Null` when `index` is not below the size.
pub open spec fn list_set(h: Seq<ObjectView>, id: usize, index: i32, x: Value) -> (Seq<ObjectView>, Option<Value>) {
    let size = size_field(h, id);
    let ar = list_array(h, id);
    if 0 <= index < size {
        let previous = match array_of(h, ar) {
            Some(e) => if index < e.len() {
                e[index as int]
            } else {
                Value::Null
            },
            None => Value::Null,
        };
        (heap_store(h, ar, index as int, x), Some(previous))
    } else {
        (h, Some(Value::Null))
    }
}

/// The position of the first element equal to `x` (strings by their text) among the
/// first `size`, or -1.
pub open spec fn list_index_of(h: Seq<ObjectView>, id: usize, x: Value) -> i32 {
    match array_of(h, list_array(h, id)) {
        Some(e) => match first_equal(h, e, x, 0, size_field(h, id) as int) {
            Some(i) => i as i32,
            None => -1i32,
        },
        None => -1i32,
    }
}

/// `ArrayList()` and `ArrayList(int)`: a new element array of `cap` slots, size 0.
pub open spec fn list_init(h: Seq<ObjectView>, this: Value, cap: nat) -> Seq<ObjectView> {
    match this {
        Value::ObjectRef(_) => heap_set_field(
            heap_set_field(
                h.push(ObjectView::array_obj(object_array_class(), nulls(cap))),
                this,
                "elementData"@,
                Value::ArrayRef(h.len() as usize),
            ),
            this,
            "size"@,
            Value::Int(0),
        ),
        _ => h,
    }
}

/// `ArrayList()`.
pub fn arraylist_init(frame: &mut Frame, jvm: &mut Jvm) -> (r: Result<(), JvmError>)
    ensures
        same_but_heap(*old(jvm), *final(jvm)),
        *final(frame) == *old(frame),
        match call_error(*old(frame), 0) {
            Some(e) => r == Err::<(), JvmError>(e) && final(jvm).hv() == old(jvm).hv(),
            None => r == Ok::<(), JvmError>(()) && final(jvm).hv() == list_init(old(jvm).hv(), this_of(*old(frame)), 0),
        },
{
    let this = this0(frame)?;
    if let Value::ObjectRef(_) = this {
        let a = jvm.allocate(HeapObject::new_array(String::from_str("[Ljava/lang/Object;"), 0));
        jvm.set_field(this, "elementData", Value::ArrayRef(a));
        jvm.set_field(this, "size", Value::Int(0));
    }
    Ok(())
}

/// `ArrayList(int capacity)`: the array gets `max(capacity, 0)` slots.
pub fn arraylist_init_capacity(frame: &mut Frame, jvm: &mut Jvm) -> (r: Result<(), JvmError>)
    ensures
        same_but_heap(*old(jvm), *final(jvm)),
        *final(frame) == *old(frame),
        old(frame).locals@.len() < 2 ==> r == Err::<(), JvmError>(crate::runtime::frame::local_error())
            && final(jvm).hv() == old(jvm).hv(),
        old(frame).locals@.len() >= 2 ==> r == Ok::<(), JvmError>(()) && final(jvm).hv() == list_init(
            old(jvm).hv(),
            this_of(*old(frame)),
            if spec_as_int(old(frame).locals@[1]) < 0 {
                0
            } else {
                spec_as_int(old(frame).locals@[1]) as nat
            },
        ),
{
    let this = frame.get_local(0)?;
    let cap = frame.get_local(1)?.as_int();
    if let Value::ObjectRef(_) = this {
        let n: usize = if cap < 0 {
            0
        } else {
            cap as usize
        };
        let a = jvm.allocate(HeapObject::new_array(String::from_str("[Ljava/lang/Object;"), n));
        jvm.set_field(this, "elementData", Value::ArrayRef(a));
        jvm.set_field(this, "size", Value::Int(0));
    }
    Ok(())
}

/// `size()`.
pub fn arraylist_size(frame: &mut Frame, jvm: &mut Jvm) -> (r: Result<(), JvmError>)
    ensures
        *final(jvm) == *old(jvm),
        instance_outcome(*old(frame), old(jvm).hv(), *final(frame), final(jvm).hv(), r, 0,
            |id: usize| (old(jvm).hv(), Some(Value::Int(size_field(old(jvm).hv(), id)))), false,
            Some(Value::Int(0))),
{
    let this = this0(frame)?;
    assert(popped(*old(frame), 0) =~= old(frame).stack@);
    let n = match this {
        Value::ObjectRef(id) => read_int_field(jvm, id, "size", 0),
        _ => 0,
    };
    frame.push(Value::Int(n));
    Ok(())
}

/// `isEmpty()`.
pub fn arraylist_is_empty(frame: &mut Frame, jvm: &mut Jvm) -> (r: Result<(), JvmError>)
    ensures
        *final(jvm) == *old(jvm),
        instance_outcome(*old(frame), old(jvm).hv(), *final(frame), final(jvm).hv(), r, 0,
            |id: usize| (old(jvm).hv(), Some(Value::Boolean(size_field(old(jvm).hv(), id) == 0))),
            false, Some(Value::Boolean(true))),
{
    let this = this0(frame)?;
    assert(popped(*old(frame), 0) =~= old(frame).stack@);
    let n = match this {
        Value::ObjectRef(id) => read_int_field(jvm, id, "size", 0),
        _ => 0,
    };
    frame.push(Value::Boolean(n == 0));
    Ok(())
}

/// Appends `x` to list `id`, growing its array when full.
pub fn list_append(jvm: &mut Jvm, id: usize, x: Value)
    requires
        id < old(jvm).hv().len(),
        list_ok(old(jvm).hv(), id),
    ensures
        final(jvm).hv() == list_add(old(jvm).hv(), id, x),
        same_but_heap(*old(jvm), *final(jvm)),
{
    let ghost h = jvm.hv();
    let size = read_int_field(jvm, id, "size", 0) as usize;
    let ar = read_aref_field(jvm, id, "elementData");
    let grown: Option<Vec<Value>> = match array_elems(jvm, ar) {
        Some(e) => {
            if size >= e.len() {
                let len = e.len();
                assert((len * 3) / 2 == len + len / 2) by (nonlinear_arith);
                let c = len + len / 2 + 1;
                let cap = if c > 10 {
                    c
                } else {
                    10
                };
                Some(padded_copy(e, cap))
            } else {
                None
            }
        },
        None => {
            jvm.set_field(Value::ObjectRef(id), "size", Value::Int((size + 1) as i32));
            return;
        },
    };
    match grown {
        Some(g) => {
            jvm.set_array(ar, g);
        },
        None => {},
    }
    let len2 = match array_elems(jvm, ar) {
        Some(e) => e.len(),
        None => 0,
    };
    if size < len2 {
        jvm.set_array_elem(ar, size, x);
    }
    jvm.set_field(Value::ObjectRef(id), "size", Value::Int((size + 1) as i32));
    assert(jvm.hv() =~= list_add(h, id, x));
}

/// `add(x)`: always answers `true`.
pub fn arraylist_add(frame: &mut Frame, jvm: &mut Jvm) -> (r: Result<(), JvmError>)
    requires
        list_ready(old(jvm).hv(), *old(frame)),
    ensures
        same_but_heap(*old(jvm), *final(jvm)),
        instance_outcome(*old(frame), old(jvm).hv(), *final(frame), final(jvm).hv(), r, 1,
            |id: usize| (list_add(old(jvm).hv(), id, top(*old(frame), 0)), Some(Value::Boolean(true))),
            true, Some(Value::Boolean(true))),
{
    let (this, x) = pop1_this(frame)?;
    if let Value::ObjectRef(id) = this {
        if id >= jvm.heap.len() {
            return Err(JvmError::RuntimeError(RuntimeError::NullPointerException));
        }
        list_append(jvm, id, x);
    }
    frame.push(Value::Boolean(true));
    Ok(())
}

/// `get(index)`: slot `index` of the array, or `Null` when the array has no such slot.
pub fn arraylist_get(frame: &mut Frame, jvm: &mut Jvm) -> (r: Result<(), JvmError>)
    ensures
        *final(jvm) == *old(jvm),
        instance_outcome(*old(frame), old(jvm).hv(), *final(frame), final(jvm).hv(), r, 1,
            |id: usize| (old(jvm).hv(), Some(
                match array_of(old(jvm).hv(), list_array(old(jvm).hv(), id)) {
                    Some(e) => if 0 <= spec_as_int(top(*old(frame), 0)) < e.len() {
                        e[spec_as_int(top(*old(frame), 0)) as int]
                    } else {
                        Value::Null
                    },
                    None => Value::Null,
                })), false, Some(Value::Null)),
{
    let (this, iv) = pop1_this(frame)?;
    let index = iv.as_int();
    if let Value::ObjectRef(id) = this {
        if id < jvm.heap.len() {
            let ar = read_aref_field(jvm, id, "elementData");
            match array_elems(jvm, ar) {
                Some(e) => {
                    if index >= 0 && (index as usize) < e.len() {
                        frame.push(e[index as usize]);
                        return Ok(());
                    }
                },
                None => {},
            }
        }
    }
    frame.push(Value::Null);
    Ok(())
}

/// `remove(int index)`.
pub fn arraylist_remove(frame: &mut Frame, jvm: &mut Jvm) -> (r: Result<(), JvmError>)
    requires
        list_ready(old(jvm).hv(), *old(frame)),
    ensures
        same_but_heap(*old(jvm), *final(jvm)),
        instance_outcome(*old(frame), old(jvm).hv(), *final(frame), final(jvm).hv(), r, 1,
            |id: usize| list_remove(old(jvm).hv(), id, spec_as_int(top(*old(frame), 0))), true,
            Some(Value::Null)),
{
    let (this, iv) = pop1_this(frame)?;
    let index = iv.as_int();
    if let Value::ObjectRef(id) = this {
        if id >= jvm.heap.len() {
            return Err(JvmError::RuntimeError(RuntimeError::NullPointerException));
        }
        let ghost h = jvm.hv();
        let ar = read_aref_field(jvm, id, "elementData");
        let size = read_int_field(jvm, id, "size", 0);
        if index >= 0 && index < size {
            let i = index as usize;
            let s = size as usize;
            let shifted: Option<(Value, Vec<Value>)> = match array_elems(jvm, ar) {
                Some(e) => {
                    let removed = if i < e.len() {
                        e[i]
                    } else {
                        Value::Null
                    };
                    let mut v: Vec<Value> = Vec::new();
                    let mut j: usize = 0;
                    while j < e.len()
                        invariant
                            j <= e@.len(),
                            i < s <= e@.len(),
                            v@ == removed_at(e@, i as int, s as int).take(j as int),
                        decreases e@.len() - j,
                    {
                        let x = if j < i {
                            e[j]
                        } else if j + 1 < s {
                            e[j + 1]
                        } else if j + 1 == s {
                            Value::Null
                        } else {
                            e[j]
                        };
                        v.push(x);
                        j += 1;
                        assert(v@ =~= removed_at(e@, i as int, s as int).take(j as int));
                    }
                    assert(v@ =~= removed_at(e@, i as int, s as int));
                    Some((removed, v))
                },
                None => None,
            };
            let removed = match shifted {
                Some((x, v)) => {
                    jvm.set_array(ar, v);
                    x
                },
                None => Value::Null,
            };
            jvm.set_field(this, "size", Value::Int((s - 1) as i32));
            assert(jvm.hv() =~= list_remove(h, id, index).0);
            frame.push(removed);
            return Ok(());
        }
    }
    frame.push(Value::Null);
    Ok(())
}

/// `indexOf(x)`: the first position among the first `size` holding exactly `x`, or -1.
pub fn arraylist_index_of(frame: &mut Frame, jvm: &mut Jvm) -> (r: Result<(), JvmError>)
    requires
        list_ready(old(jvm).hv(), *old(frame)),
    ensures
        *final(jvm) == *old(jvm),
        instance_outcome(*old(frame), old(jvm).hv(), *final(frame), final(jvm).hv(), r, 1,
            |id: usize| (old(jvm).hv(), Some(Value::Int(list_index_of(old(jvm).hv(), id, top(*old(frame), 0))))),
            false, Some(Value::Int(-1i32))),
{
    let (this, x) = pop1_this(frame)?;
    let mut idx: i32 = -1;
    if let Value::ObjectRef(id) = this {
        if id < jvm.heap.len() {
            let ar = read_aref_field(jvm, id, "elementData");
            let size = read_int_field(jvm, id, "size", 0);
            match array_elems(jvm, ar) {
                Some(e) => {
                    let n: usize = if size < 0 {
                        0
                    } else {
                        size as usize
                    };
                    match find_equal(jvm, e, x, n) {
                        Some(i) => {
                            proof {
                                lemma_first_equal_bounds(jvm.hv(), e@, x, 0, n as int);
                            }
                            idx = i as i32;
                        },
                        None => {},
                    }
                },
                None => {},
            }
        }
    }
    frame.push(Value::Int(idx));
    Ok(())
}

/// `contains(x)`: whether one of the first `size` elements equals `x`.
pub fn arraylist_contains(frame: &mut Frame, jvm: &mut Jvm) -> (r: Result<(), JvmError>)
    requires
        list_ready(old(jvm).hv(), *old(frame)),
    ensures
        *final(jvm) == *old(jvm),
        instance_outcome(*old(frame), old(jvm).hv(), *final(frame), final(jvm).hv(), r, 1,
            |id: usize| (old(jvm).hv(), Some(Value::Boolean(list_index_of(old(jvm).hv(), id, top(*old(frame), 0)) != -1))),
            false, Some(Value::Boolean(false))),
{
    let (this, x) = pop1_this(frame)?;
    let mut found = false;
    if let Value::ObjectRef(id) = this {
        if id < jvm.heap.len() {
            let ar = read_aref_field(jvm, id, "elementData");
            let size = read_int_field(jvm, id, "size", 0);
            match array_elems(jvm, ar) {
                Some(e) => {
                    let n: usize = if size < 0 {
                        0
                    } else {
                        size as usize
                    };
                    let i = find_equal(jvm, e, x, n);
                    proof {
                        lemma_first_equal_bounds(jvm.hv(), e@, x, 0, n as int);
                    }
                    found = i.is_some();
                },
                None => {},
            }
        }
    }
    frame.push(Value::Boolean(found));
    Ok(())
}

/// `clear()`: size 0 and every slot `Null`.
pub fn arraylist_clear(frame: &mut Frame, jvm: &mut Jvm) -> (r: Result<(), JvmError>)
    ensures
        same_but_heap(*old(jvm), *final(jvm)),
        *final(frame) == *old(frame),
        match call_error(*old(frame), 0) {
            Some(e) => r == Err::<(), JvmError>(e) && final(jvm).hv() == old(jvm).hv(),
            None => r == Ok::<(), JvmError>(()) && final(jvm).hv() == match this_of(*old(frame)) {
                Value::ObjectRef(id) => heap_null_fill(
                    heap_set_field(old(jvm).hv(), this_of(*old(frame)), "size"@, Value::Int(0)),
                    list_array(old(jvm).hv(), id),
                ),
                _ => old(jvm).hv(),
            },
        },
{
    let this = this0(frame)?;
    if let Value::ObjectRef(id) = this {
        let ar = read_aref_field(jvm, id, "elementData");
        jvm.set_field(this, "size", Value::Int(0));
        null_fill(jvm, ar);
    }
    Ok(())
}

/// `set(index, x)`.
pub fn arraylist_set(frame: &mut Frame, jvm: &mut Jvm) -> (r: Result<(), JvmError>)
    ensures
        same_but_heap(*old(jvm), *final(jvm)),
        instance_outcome(*old(frame), old(jvm).hv(), *final(frame), final(jvm).hv(), r, 2,
            |id: usize| list_set(old(jvm).hv(), id, spec_as_int(top(*old(frame), 1)), top(*old(frame), 0)),
            true, Some(Value::Null)),
{
    let (this, iv, x) = pop2_this(frame)?;
    let index = iv.as_int();
    if let Value::ObjectRef(id) = this {
        if id >= jvm.heap.len() {
            return Err(JvmError::RuntimeError(RuntimeError::NullPointerException));
        }
        let ar = read_aref_field(jvm, id, "elementData");
        let size = read_int_field(jvm, id, "size", 0);
        if index >= 0 && index < size {
            let previous = match array_elems(jvm, ar) {
                Some(e) => if (index as usize) < e.len() {
                    e[index as usize]
                } else {
                    Value::Null
                },
                None => Value::Null,
            };
            store(jvm, ar, index as usize, x);
            frame.push(previous);
            return Ok(());
        }
    }
    frame.push(Value::Null);
    Ok(())
}

/// `forEach(action)`: does nothing.
pub fn arraylist_for_each(frame: &mut Frame, jvm: &mut Jvm) -> (r: Result<(), JvmError>)
    ensures
        *final(jvm) == *old(jvm),
        *final(frame) == *old(frame),
        r == Ok::<(), JvmError>(()),
{
    Ok(())
}

/// An element array with `elems` stored from slot `size` on, grown first (to half as
/// much again as needed, at least ten slots) when they do not fit.
pub open spec fn appended(e: Seq<Value>, size: nat, elems: Seq<Value>) -> Seq<Value> {
    let e2 = if size + elems.len() > e.len() {
        padded(e, list_capacity(size + elems.len()))
    } else {
        e
    };
    Seq::new(e2.len(), |j: int| if size <= j < size + elems.len() {
        elems[j - size]
    } else {
        e2[j]
    })
}

/// `addAll(collection)`: the first `size` elements of the argument list appended;
/// answers whether there were any.
pub open spec fn list_add_all(h: Seq<ObjectView>, id: usize, coll: Value) -> (Seq<ObjectView>, Option<Value>) {
    let elems = match coll {
        Value::ObjectRef(c) => if c < h.len() {
            list_elems(h, c)
        } else {
            Seq::<Value>::empty()
        },
        _ => Seq::<Value>::empty(),
    };
    let size = size_field(h, id) as nat;
    let ar = list_array(h, id);
    let new_size = size + elems.len();
    let h1 = match array_of(h, ar) {
        Some(e) => heap_with_array(h, ar, appended(e, size, elems)),
        None => h,
    };
    (
        heap_set_field(h1, Value::ObjectRef(id), "size"@, Value::Int(new_size as i32)),
        Some(Value::Boolean(elems.len() > 0)),
    )
}

/// The receiver is a list in order and the two lists together can grow by half
/// without leaving the address space.
pub open spec fn add_all_ready(h: Seq<ObjectView>, f: Frame) -> bool {
    &&& list_ready(h, f)
    &&& (f.locals@.len() > 0 && f.stack@.len() > 0) ==> match (f.locals@[0], top(f, 0)) {
        (Value::ObjectRef(id), Value::ObjectRef(c)) => id < h.len() && c < h.len() ==> (size_field(h, id)
            + list_elems(h, c).len()) * 2 + 2 <= usize::MAX,
        _ => true,
    }
}

/// The elements of list `c`: the first `size` slots of its array.
fn list_elems_exec(jvm: &Jvm, c: usize) -> (r: Vec<Value>)
    ensures
        r@ == list_elems(jvm.hv(), c),
{
    let size = read_int_field(jvm, c, "size", 0);
    let ar = read_aref_field(jvm, c, "elementData");
    array_prefix(jvm, ar, size)
}

/// `addAll(collection)`.
pub fn arraylist_add_all(frame: &mut Frame, jvm: &mut Jvm) -> (r: Result<(), JvmError>)
    requires
        add_all_ready(old(jvm).hv(), *old(frame)),
    ensures
        same_but_heap(*old(jvm), *final(jvm)),
        instance_outcome(*old(frame), old(jvm).hv(), *final(frame), final(jvm).hv(), r, 1,
            |id: usize| list_add_all(old(jvm).hv(), id, top(*old(frame), 0)), true,
            Some(Value::Boolean(false))),
{
    let (this, coll) = pop1_this(frame)?;
    if let Value::ObjectRef(id) = this {
        let elems: Vec<Value> = match coll {
            Value::ObjectRef(c) => if c < jvm.heap.len() {
                list_elems_exec(jvm, c)
            } else {
                Vec::new()
            },
            _ => Vec::new(),
        };
        if id >= jvm.heap.len() {
            return Err(JvmError::RuntimeError(RuntimeError::NullPointerException));
        }
        let ghost h = jvm.hv();
        let size = read_int_field(jvm, id, "size", 0) as usize;
        let ar = read_aref_field(jvm, id, "elementData");
        let new_size = size + elems.len();
        let filled: Option<Vec<Value>> = match array_elems(jvm, ar) {
            Some(e) => Some(appended_copy(e, size, &elems)),
            None => None,
        };
        match filled {
            Some(v) => {
                jvm.set_array(ar, v);
            },
            None => {},
        }
        jvm.set_field(this, "size", Value::Int(new_size as i32));
        assert(jvm.hv() =~= list_add_all(h, id, coll).0);
        frame.push(Value::Boolean(elems.len() > 0));
        return Ok(());
    }
    frame.push(Value::Boolean(false));
    Ok(())
}

/// `appended` computed.
pub fn appended_copy(e: &Vec<Value>, size: usize, elems: &Vec<Value>) -> (r: Vec<Value>)
    requires
        (size + elems@.len()) * 2 + 2 <= usize::MAX,
    ensures
        r@ == appended(e@, size as nat, elems@),
{
    let new_size = size + elems.len();
    let mut e2: Vec<Value> = if new_size > e.len() {
        assert((new_size * 3) / 2 == new_size + new_size / 2) by (nonlinear_arith);
        let c = new_size + new_size / 2 + 1;
        let cap = if c > 10 {
            c
        } else {
            10
        };
        padded_copy(e, cap)
    } else {
        copy_all(e)
    };
    let ghost base = e2@;
    assert(base == if new_size > e@.len() {
        padded(e@, list_capacity(new_size as nat))
    } else {
        e@
    });
    let mut i: usize = 0;
    while i < elems.len()
        invariant
            i <= elems@.len(),
            size + elems@.len() <= base.len(),
            base.len() <= usize::MAX,
            e2@.len() == base.len(),
            forall|j: int| 0 <= j < base.len() ==> #[trigger] e2@[j] == if size <= j < size + i {
                elems@[j - size]
            } else {
                base[j]
            },
        decreases elems@.len() - i,
    {
        e2.set(size + i, elems[i]);
        i += 1;
    }
    assert(e2@ =~= Seq::new(
        base.len(),
        |j: int|
            if size <= j < size + elems@.len() {
                elems@[j - size]
            } else {
                base[j]
            },
    ));
    e2
}

/// A copy of `e`.
fn copy_all(e: &Vec<Value>) -> (r: Vec<Value>)
    ensures
        r@ == e@,
{
    let r = crate::natives::arrays::copy_prefix(e, e.len());
    assert(e@.take(e@.len() as int) =~= e@);
    r
}

} // verus!
