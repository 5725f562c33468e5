use vstd::prelude::*;
use crate::natives::arrays::{heap_store, heap_with_array, padded, padded_copy, store};
use crate::natives::common::{
    array_elems, array_of, instance_outcome, pop1_this, popped, read_aref_field, read_int_field, this0, top,
    values_equal, values_equal_exec,
};
use crate::natives::list::{list_array, list_ready, removed_at};
use crate::natives::map::{heap_map_store, map_capacity, map_capacity_exec, map_store, size_field};
use crate::runtime::error::{JvmError, RuntimeError};
use crate::runtime::frame::Frame;
use crate::runtime::heap::ObjectView;
use crate::runtime::jvm::{heap_set_field, same_but_heap, Jvm};
use crate::runtime::value::Value;

verus! {

/// Appends `x` at slot `size` of the element array (grown like a map's arrays) and sets
/// the size one larger: `LinkedList.add` and `Stack.push`.
pub open spec fn seq_append(h: Seq<ObjectView>, id: usize, x: Value) -> Seq<ObjectView> {
    let size = size_field(h, id) as nat;
    heap_set_field(
        heap_map_store(h, list_array(h, id), size, x),
        Value::ObjectRef(id),
        "size"@,
        Value::Int((size + 1) as i32),
    )
}

/// The receiver's size field is not negative when it is a live object.
pub open spec fn size_ready(h: Seq<ObjectView>, f: Frame) -> bool {
    f.locals@.len() > 0 ==> match f.locals@[0] {
        Value::ObjectRef(id) => id < h.len() ==> size_field(h, id) >= 0,
        _ => true,
    }
}

fn seq_append_exec(jvm: &mut Jvm, id: usize, x: Value)
    requires
        id < old(jvm).hv().len(),
        size_field(old(jvm).hv(), id) >= 0,
    ensures
        final(jvm).hv() == seq_append(old(jvm).hv(), id, x),
        same_but_heap(*old(jvm), *final(jvm)),
{
    let size = read_int_field(jvm, id, "size", 0) as usize;
    let ar = read_aref_field(jvm, id, "elementData");
    map_store(jvm, ar, size, x);
    jvm.set_field(Value::ObjectRef(id), "size", Value::Int((size + 1) as i32));
}

/// `LinkedList.add(x)` and `addLast(x)`: answers `true`.
pub fn linked_list_add(frame: &mut Frame, jvm: &mut Jvm) -> (r: Result<(), JvmError>)
    requires
        size_ready(old(jvm).hv(), *old(frame)),
    ensures
        same_but_heap(*old(jvm), *final(jvm)),
        instance_outcome(*old(frame), old(jvm).hv(), *final(frame), final(jvm).hv(), r, 1,
            |id: usize| (seq_append(old(jvm).hv(), id, top(*old(frame), 0)), Some(Value::Boolean(true))),
            true, Some(Value::Boolean(true))),
{
    let (this, x) = pop1_this(frame)?;
    if let Value::ObjectRef(id) = this {
        if id >= jvm.heap.len() {
            return Err(JvmError::RuntimeError(RuntimeError::NullPointerException));
        }
        seq_append_exec(jvm, id, x);
    }
    frame.push(Value::Boolean(true));
    Ok(())
}

/// `Stack.push(x)`: answers `x`.
pub fn stack_push(frame: &mut Frame, jvm: &mut Jvm) -> (r: Result<(), JvmError>)
    requires
        size_ready(old(jvm).hv(), *old(frame)),
    ensures
        same_but_heap(*old(jvm), *final(jvm)),
        instance_outcome(*old(frame), old(jvm).hv(), *final(frame), final(jvm).hv(), r, 1,
            |id: usize| (seq_append(old(jvm).hv(), id, top(*old(frame), 0)), Some(top(*old(frame), 0))),
            true, Some(top(*old(frame), 0))),
{
    let (this, x) = pop1_this(frame)?;
    if let Value::ObjectRef(id) = this {
        if id >= jvm.heap.len() {
            return Err(JvmError::RuntimeError(RuntimeError::NullPointerException));
        }
        seq_append_exec(jvm, id, x);
    }
    frame.push(x);
    Ok(())
}

/// `LinkedList.addFirst(x)`: the array grows when full; then, when slot `size` exists,
/// the elements move up one slot and `x` goes first; the size grows by one.
pub open spec fn linked_add_first(h: Seq<ObjectView>, id: usize, x: Value) -> Seq<ObjectView> {
    let size = size_field(h, id) as nat;
    let ar = list_array(h, id);
    let h1 = match array_of(h, ar) {
        Some(e) => {
            let e2 = if size >= e.len() {
                padded(e, map_capacity(size))
            } else {
                e
            };
            heap_with_array(h, ar, if size < e2.len() {
                Seq::new(e2.len(), |j: int| if j == 0 { x } else if j <= size { e2[j - 1] } else { e2[j] })
            } else {
                e2
            })
        },
        None => h,
    };
    heap_set_field(h1, Value::ObjectRef(id), "size"@, Value::Int((size + 1) as i32))
}

pub fn linked_list_add_first(frame: &mut Frame, jvm: &mut Jvm) -> (r: Result<(), JvmError>)
    requires
        size_ready(old(jvm).hv(), *old(frame)),
    ensures
        same_but_heap(*old(jvm), *final(jvm)),
        instance_outcome(*old(frame), old(jvm).hv(), *final(frame), final(jvm).hv(), r, 1,
            |id: usize| (linked_add_first(old(jvm).hv(), id, top(*old(frame), 0)), None), true, None),
{
    let (this, x) = pop1_this(frame)?;
    if let Value::ObjectRef(id) = this {
        if id >= jvm.heap.len() {
            return Err(JvmError::RuntimeError(RuntimeError::NullPointerException));
        }
        let ghost h = jvm.hv();
        let size = read_int_field(jvm, id, "size", 0) as usize;
        let ar = read_aref_field(jvm, id, "elementData");
        let shifted: Option<Vec<Value>> = match array_elems(jvm, ar) {
            Some(e) => {
                let e2: Vec<Value> = if size >= e.len() {
                    padded_copy(e, map_capacity_exec(size))
                } else {
                    crate::natives::arrays::copy_prefix(e, e.len())
                };
                proof {
                    assert(e@.take(e@.len() as int) =~= e@);
                }
                assert(e2@ == if size >= e@.len() {
                    padded(e@, map_capacity(size as nat))
                } else {
                    e@
                });
                if size < e2.len() {
                    let mut v: Vec<Value> = Vec::new();
                    let mut j: usize = 0;
                    while j < e2.len()
                        invariant
                            j <= e2@.len(),
                            size < e2@.len(),
                            v@ == Seq::new(e2@.len(), |k: int| if k == 0 { x } else if k <= size { e2@[k - 1] } else { e2@[k] }).take(j as int),
                        decreases e2@.len() - j,
                    {
                        let y = if j == 0 {
                            x
                        } else if j <= size {
                            e2[j - 1]
                        } else {
                            e2[j]
                        };
                        v.push(y);
                        j += 1;
                        assert(v@ =~= Seq::new(e2@.len(), |k: int| if k == 0 { x } else if k <= size { e2@[k - 1] } else { e2@[k] }).take(j as int));
                    }
                    assert(v@ =~= Seq::new(e2@.len(), |k: int| if k == 0 { x } else if k <= size { e2@[k - 1] } else { e2@[k] }));
                    Some(v)
                } else {
                    Some(e2)
                }
            },
            None => None,
        };
        match shifted {
            Some(v) => jvm.set_array(ar, v),
            None => {},
        }
        jvm.set_field(this, "size", Value::Int((size + 1) as i32));
        assert(jvm.hv() =~~= linked_add_first(h, id, x));
    }
    Ok(())
}

/// `getFirst()` (first = true) and `getLast()`: the element at index 0 or at index
/// `size - 1`, or `Null` for an empty list (or a size its array cannot hold).
pub open spec fn linked_end(h: Seq<ObjectView>, id: usize, first: bool) -> Value {
    let size = size_field(h, id);
    match array_of(h, list_array(h, id)) {
        Some(e) => if 0 < size && size <= e.len() {
            if first {
                e[0]
            } else {
                e[size - 1]
            }
        } else {
            Value::Null
        },
        None => Value::Null,
    }
}

pub fn linked_list_get_end(frame: &mut Frame, jvm: &mut Jvm, first: bool) -> (r: Result<(), JvmError>)
    ensures
        *final(jvm) == *old(jvm),
        instance_outcome(*old(frame), old(jvm).hv(), *final(frame), final(jvm).hv(), r, 0,
            |id: usize| (old(jvm).hv(), Some(linked_end(old(jvm).hv(), id, first))), false, Some(Value::Null)),
{
    let this = this0(frame)?;
    assert(popped(*old(frame), 0) =~= old(frame).stack@);
    let mut v = Value::Null;
    if let Value::ObjectRef(id) = this {
        if id < jvm.heap.len() {
            let ar = read_aref_field(jvm, id, "elementData");
            let size = read_int_field(jvm, id, "size", 0);
            match array_elems(jvm, ar) {
                Some(e) => {
                    if 0 < size && size as usize <= e.len() {
                        v = if first {
                            e[0]
                        } else {
                            e[(size - 1) as usize]
                        };
                    }
                },
                None => {},
            }
        }
    }
    frame.push(v);
    Ok(())
}

/// The receiver is a list in order.
pub open spec fn remove_ready(h: Seq<ObjectView>, f: Frame) -> bool {
    list_ready(h, f)
}

/// `LinkedList.remove(int index)`: for an index below the size (and an element
/// array), the element is removed (later ones move down), the size lowered by one and
/// the element answered; for any other index the list is left as it is and `Null`
/// is answered. Nothing is answered for a receiver that is no object reference.
pub open spec fn linked_remove(h: Seq<ObjectView>, id: usize, index: i32) -> (Seq<ObjectView>, Option<Value>) {
    let size = size_field(h, id);
    let ar = list_array(h, id);
    match array_of(h, ar) {
        Some(e) => if 0 <= index < size {
            (
                heap_set_field(
                    heap_with_array(h, ar, removed_at(e, index as int, size as int)),
                    Value::ObjectRef(id),
                    "size"@,
                    Value::Int((size - 1) as i32),
                ),
                Some(e[index as int]),
            )
        } else {
            (h, Some(Value::Null))
        },
        None => (h, Some(Value::Null)),
    }
}

/// The array with slot `i` of the first `size` removed.
pub fn removed_copy(e: &Vec<Value>, i: usize, s: usize) -> (v: Vec<Value>)
    requires
        i < s <= e@.len(),
    ensures
        v@ == removed_at(e@, i as int, s as int),
{
    let mut v: Vec<Value> = Vec::new();
    let mut j: usize = 0;
    while j < e.len()
        invariant
            j <= e@.len(),
            i < s <= e@.len(),
            v@ == removed_at(e@, i as int, s as int).take(j as int),
        decreases e@.len() - j,
    {
        let x = if j < i {
            e[j]
        } else if j + 1 < s {
            e[j + 1]
        } else if j + 1 == s {
            Value::Null
        } else {
            e[j]
        };
        v.push(x);
        j += 1;
        assert(v@ =~= removed_at(e@, i as int, s as int).take(j as int));
    }
    assert(v@ =~= removed_at(e@, i as int, s as int));
    v
}

pub fn linked_list_remove(frame: &mut Frame, jvm: &mut Jvm) -> (r: Result<(), JvmError>)
    requires
        remove_ready(old(jvm).hv(), *old(frame)),
    ensures
        same_but_heap(*old(jvm), *final(jvm)),
        instance_outcome(*old(frame), old(jvm).hv(), *final(frame), final(jvm).hv(), r, 1,
            |id: usize| linked_remove(old(jvm).hv(), id, crate::runtime::value::spec_as_int(top(*old(frame), 0))),
            true, None),
{
    let (this, iv) = pop1_this(frame)?;
    let index = iv.as_int();
    if let Value::ObjectRef(id) = this {
        if id >= jvm.heap.len() {
            return Err(JvmError::RuntimeError(RuntimeError::NullPointerException));
        }
        let ghost h = jvm.hv();
        let ar = read_aref_field(jvm, id, "elementData");
        let size = read_int_field(jvm, id, "size", 0);
        let mut removed = Value::Null;
        let shifted: Option<Vec<Value>> = match array_elems(jvm, ar) {
            Some(e) => if index >= 0 && index < size {
                removed = e[index as usize];
                Some(removed_copy(e, index as usize, size as usize))
            } else {
                None
            },
            None => None,
        };
        match shifted {
            Some(v) => {
                jvm.set_array(ar, v);
                jvm.set_field(this, "size", Value::Int(size - 1));
            },
            None => {},
        }
        assert(jvm.hv() =~= linked_remove(h, id, index).0);
        frame.push(removed);
    }
    Ok(())
}

/// `removeFirst()`: for a non-empty list, the first element (`Null` when the array is
/// empty or missing) is removed and answered and the size lowered; `Null` otherwise.
pub open spec fn linked_remove_first(h: Seq<ObjectView>, id: usize) -> (Seq<ObjectView>, Option<Value>) {
    let size = size_field(h, id);
    let ar = list_array(h, id);
    if size > 0 {
        let (h1, first) = match array_of(h, ar) {
            Some(e) => (heap_with_array(h, ar, removed_at(e, 0, size as int)), if e.len() > 0 {
                e[0]
            } else {
                Value::Null
            }),
            None => (h, Value::Null),
        };
        (heap_set_field(h1, Value::ObjectRef(id), "size"@, Value::Int((size - 1) as i32)), Some(first))
    } else {
        (h, Some(Value::Null))
    }
}

pub fn linked_list_remove_first(frame: &mut Frame, jvm: &mut Jvm) -> (r: Result<(), JvmError>)
    requires
        list_ready(old(jvm).hv(), *old(frame)),
    ensures
        same_but_heap(*old(jvm), *final(jvm)),
        instance_outcome(*old(frame), old(jvm).hv(), *final(frame), final(jvm).hv(), r, 0,
            |id: usize| linked_remove_first(old(jvm).hv(), id), true, Some(Value::Null)),
{
    let this = this0(frame)?;
    assert(popped(*old(frame), 0) =~= old(frame).stack@);
    if let Value::ObjectRef(id) = this {
        if id >= jvm.heap.len() {
            return Err(JvmError::RuntimeError(RuntimeError::NullPointerException));
        }
        let ghost h = jvm.hv();
        let ar = read_aref_field(jvm, id, "elementData");
        let size = read_int_field(jvm, id, "size", 0);
        if size > 0 {
            let mut first = Value::Null;
            let shifted: Option<Vec<Value>> = match array_elems(jvm, ar) {
                Some(e) => {
                    if e.len() > 0 {
                        first = e[0];
                    }
                    Some(removed_copy(e, 0, size as usize))
                },
                None => None,
            };
            match shifted {
                Some(v) => jvm.set_array(ar, v),
                None => {},
            }
            jvm.set_field(this, "size", Value::Int(size - 1));
            assert(jvm.hv() =~= linked_remove_first(h, id).0);
            frame.push(first);
            return Ok(());
        }
    }
    frame.push(Value::Null);
    Ok(())
}

/// `removeLast()` and `Stack.pop()`: for a non-empty list, the last element (slot
/// `size - 1`) is answered, that slot set to `Null` and the size lowered; `Null`
/// otherwise.
pub open spec fn pop_last(h: Seq<ObjectView>, id: usize) -> (Seq<ObjectView>, Option<Value>) {
    let size = size_field(h, id);
    let ar = list_array(h, id);
    if size > 0 {
        let last = match array_of(h, ar) {
            Some(e) => e[size - 1],
            None => Value::Null,
        };
        (
            heap_set_field(heap_store(h, ar, size - 1, Value::Null), Value::ObjectRef(id), "size"@, Value::Int((size - 1) as i32)),
            Some(last),
        )
    } else {
        (h, Some(Value::Null))
    }
}

pub fn pop_last_native(frame: &mut Frame, jvm: &mut Jvm) -> (r: Result<(), JvmError>)
    requires
        list_ready(old(jvm).hv(), *old(frame)),
    ensures
        same_but_heap(*old(jvm), *final(jvm)),
        instance_outcome(*old(frame), old(jvm).hv(), *final(frame), final(jvm).hv(), r, 0,
            |id: usize| pop_last(old(jvm).hv(), id), true, Some(Value::Null)),
{
    let this = this0(frame)?;
    assert(popped(*old(frame), 0) =~= old(frame).stack@);
    if let Value::ObjectRef(id) = this {
        if id >= jvm.heap.len() {
            return Err(JvmError::RuntimeError(RuntimeError::NullPointerException));
        }
        let ar = read_aref_field(jvm, id, "elementData");
        let size = read_int_field(jvm, id, "size", 0);
        if size > 0 {
            let last = match array_elems(jvm, ar) {
                Some(e) => e[(size - 1) as usize],
                None => Value::Null,
            };
            store(jvm, ar, (size - 1) as usize, Value::Null);
            jvm.set_field(this, "size", Value::Int(size - 1));
            frame.push(last);
            return Ok(());
        }
    }
    frame.push(Value::Null);
    Ok(())
}

/// `Stack.peek()`: slot `size - 1` when the size is positive and the array has that
/// slot, else `Null`.
pub open spec fn stack_peek(h: Seq<ObjectView>, id: usize) -> Value {
    let size = size_field(h, id);
    match array_of(h, list_array(h, id)) {
        Some(e) => if 0 < size && size - 1 < e.len() {
            e[size - 1]
        } else {
            Value::Null
        },
        None => Value::Null,
    }
}

pub fn stack_peek_native(frame: &mut Frame, jvm: &mut Jvm) -> (r: Result<(), JvmError>)
    ensures
        *final(jvm) == *old(jvm),
        instance_outcome(*old(frame), old(jvm).hv(), *final(frame), final(jvm).hv(), r, 0,
            |id: usize| (old(jvm).hv(), Some(stack_peek(old(jvm).hv(), id))), false, Some(Value::Null)),
{
    let this = this0(frame)?;
    assert(popped(*old(frame), 0) =~= old(frame).stack@);
    let mut v = Value::Null;
    if let Value::ObjectRef(id) = this {
        if id < jvm.heap.len() {
            let ar = read_aref_field(jvm, id, "elementData");
            let size = read_int_field(jvm, id, "size", 0);
            if size > 0 {
                match array_elems(jvm, ar) {
                    Some(e) => {
                        if ((size - 1) as usize) < e.len() {
                            v = e[(size - 1) as usize];
                        }
                    },
                    None => {},
                }
            }
        }
    }
    frame.push(v);
    Ok(())
}

/// The last position `i` below `n` whose value equals `x` (strings by their text).
pub open spec fn last_equal(h: Seq<ObjectView>, e: Seq<Value>, x: Value, n: int) -> Option<int>
    decreases n,
{
    if n <= 0 {
        None
    } else if n - 1 < e.len() && values_equal(h, e[n - 1], x) {
        Some(n - 1)
    } else {
        last_equal(h, e, x, n - 1)
    }
}

/// `Stack.search(x)`: the distance from the top (1 for the top) of the topmost element
/// equal to `x`, or -1.
pub open spec fn stack_search(h: Seq<ObjectView>, id: usize, x: Value) -> i32 {
    let size = size_field(h, id);
    match array_of(h, list_array(h, id)) {
        Some(e) => match last_equal(h, e, x, size as int) {
            Some(i) => (size - i) as i32,
            None => -1i32,
        },
        None => -1i32,
    }
}

fn last_equal_exec(jvm: &Jvm, e: &Vec<Value>, x: Value, n: usize) -> (r: Option<usize>)
    ensures
        match r {
            Some(i) => last_equal(jvm.hv(), e@, x, n as int) == Some(i as int) && i < n,
            None => last_equal(jvm.hv(), e@, x, n as int) is None,
        },
{
    let mut i = n;
    while i > 0
        invariant
            i <= n,
            last_equal(jvm.hv(), e@, x, n as int) == last_equal(jvm.hv(), e@, x, i as int),
        decreases i,
    {
        if i - 1 < e.len() && values_equal_exec(jvm, e[i - 1], x) {
            return Some(i - 1);
        }
        i -= 1;
    }
    None
}

pub fn stack_search_native(frame: &mut Frame, jvm: &mut Jvm) -> (r: Result<(), JvmError>)
    requires
        size_ready(old(jvm).hv(), *old(frame)),
    ensures
        *final(jvm) == *old(jvm),
        instance_outcome(*old(frame), old(jvm).hv(), *final(frame), final(jvm).hv(), r, 1,
            |id: usize| (old(jvm).hv(), Some(Value::Int(stack_search(old(jvm).hv(), id, top(*old(frame), 0))))),
            false, Some(Value::Int(-1i32))),
{
    let (this, x) = pop1_this(frame)?;
    let mut pos: i32 = -1;
    if let Value::ObjectRef(id) = this {
        if id < jvm.heap.len() {
            let ar = read_aref_field(jvm, id, "elementData");
            let size = read_int_field(jvm, id, "size", 0);
            match array_elems(jvm, ar) {
                Some(e) => match last_equal_exec(jvm, e, x, size as usize) {
                    Some(i) => {
                        pos = size - (i as i32);
                    },
                    None => {},
                },
                None => {},
            }
        }
    }
    frame.push(Value::Int(pos));
    Ok(())
}

} // verus!
