use vstd::prelude::*;
use crate::natives::arrays::{count_upto, heap_with_array};
use crate::natives::common::{
    array_elems, array_of, aref_field, call_error, instance_outcome, pop1_this,
    popped, read_aref_field, read_int_field, this0, this_of, top,
};
use crate::natives::list::removed_at;
use crate::natives::map::{
    find_key, heap_map_store, map_find, map_find_with_value, map_put, map_store,
    map_value_at, object_array_class, size_field, size_ok, value_at,
};
use crate::natives::seqs::removed_copy;
use crate::natives::sorting::{sort_key, sort_key_exec};
use crate::runtime::error::{JvmError, RuntimeError};
use crate::runtime::frame::Frame;
use crate::runtime::heap::{HeapObject, ObjectView};
use crate::runtime::jvm::{heap_set_field, same_but_heap, Jvm};
use crate::runtime::value::Value;

verus! {

/// `TreeMap.put` and `LinkedHashMap.put`: as `HashMap.put`, the value of a present
/// key among the first `size` is replaced and answered, a missing key gets a new entry
/// and `Null` is answered.
pub fn sorted_map_put(frame: &mut Frame, jvm: &mut Jvm) -> (r: Result<(), JvmError>)
    requires
        size_ok(old(jvm).hv(), *old(frame)),
    ensures
        same_but_heap(*old(jvm), *final(jvm)),
        instance_outcome(*old(frame), old(jvm).hv(), *final(frame), final(jvm).hv(), r, 2,
            |id: usize| map_put(old(jvm).hv(), id, top(*old(frame), 1), top(*old(frame), 0)), true,
            Some(Value::Null)),
{
    crate::natives::map::hashmap_put(frame, jvm)
}

/// `TreeMap.get` and `LinkedHashMap.get`: the value of the first key equal to `key`
/// below the size that has a value slot, else `Null`.
pub open spec fn sorted_map_lookup(h: Seq<ObjectView>, id: usize, key: Value) -> Value {
    match map_find_with_value(h, id, key) {
        Some(i) => map_value_at(h, id, i)->0,
        None => Value::Null,
    }
}

pub fn sorted_map_get(frame: &mut Frame, jvm: &mut Jvm) -> (r: Result<(), JvmError>)
    requires
        size_ok(old(jvm).hv(), *old(frame)),
    ensures
        *final(jvm) == *old(jvm),
        instance_outcome(*old(frame), old(jvm).hv(), *final(frame), final(jvm).hv(), r, 1,
            |id: usize| (old(jvm).hv(), Some(sorted_map_lookup(old(jvm).hv(), id, top(*old(frame), 0)))),
            false, Some(Value::Null)),
{
    let (this, key) = pop1_this(frame)?;
    if let Value::ObjectRef(id) = this {
        if id < jvm.heap.len() {
            match crate::natives::map::find_with_value(jvm, id, key) {
                Some(i) => {
                    let v = value_at(jvm, id, i);
                    frame.push(v.unwrap());
                    return Ok(());
                },
                None => {},
            }
        }
    }
    frame.push(Value::Null);
    Ok(())
}

/// `LinkedHashMap.containsKey`: whether a key equal to `key` is among the first `size`.
pub fn sorted_map_contains_key(frame: &mut Frame, jvm: &mut Jvm) -> (r: Result<(), JvmError>)
    requires
        size_ok(old(jvm).hv(), *old(frame)),
    ensures
        *final(jvm) == *old(jvm),
        instance_outcome(*old(frame), old(jvm).hv(), *final(frame), final(jvm).hv(), r, 1,
            |id: usize| (old(jvm).hv(), Some(Value::Boolean(map_find(old(jvm).hv(), id, top(*old(frame), 0)) is Some))),
            false, Some(Value::Boolean(false))),
{
    let (this, key) = pop1_this(frame)?;
    let mut found = false;
    if let Value::ObjectRef(id) = this {
        if id < jvm.heap.len() {
            found = find_key(jvm, id, key).is_some();
        }
    }
    frame.push(Value::Boolean(found));
    Ok(())
}

/// A constructor that gives the receiver an empty element array in field `field`
/// and size 0 (`LinkedHashSet()` with `keys`, `PriorityQueue()` with `queue`).
pub open spec fn holder_init(h: Seq<ObjectView>, this: Value, field: Seq<char>) -> Seq<ObjectView> {
    match this {
        Value::ObjectRef(_) => heap_set_field(
            heap_set_field(
                h.push(ObjectView::array_obj(object_array_class(), Seq::<Value>::empty())),
                this,
                field,
                Value::ArrayRef(h.len() as usize),
            ),
            this,
            "size"@,
            Value::Int(0),
        ),
        _ => h,
    }
}

pub fn holder_init_native(frame: &mut Frame, jvm: &mut Jvm, field: &str) -> (r: Result<(), JvmError>)
    ensures
        same_but_heap(*old(jvm), *final(jvm)),
        *final(frame) == *old(frame),
        match call_error(*old(frame), 0) {
            Some(e) => r == Err::<(), JvmError>(e) && final(jvm).hv() == old(jvm).hv(),
            None => r == Ok::<(), JvmError>(()) && final(jvm).hv() == holder_init(old(jvm).hv(), this_of(*old(frame)), field@),
        },
{
    let this = this0(frame)?;
    match this {
        Value::ObjectRef(_) => {
            let ar = jvm.allocate(HeapObject::new_array(String::from_str("[Ljava/lang/Object;"), 0));
            proof {
                assert(Seq::new(0, |i: int| Value::Null) =~= Seq::<Value>::empty());
            }
            jvm.set_field(this, field, Value::ArrayRef(ar));
            jvm.set_field(this, "size", Value::Int(0));
        },
        _ => {},
    }
    Ok(())
}

/// Appends `x` at slot `size` of the array in field `field` (grown as a map's arrays
/// grow) and sets the size one larger.
pub open spec fn holder_append(h: Seq<ObjectView>, id: usize, field: Seq<char>, x: Value) -> Seq<ObjectView> {
    let size = size_field(h, id) as nat;
    heap_set_field(
        heap_map_store(h, aref_field(h, id, field), size, x),
        Value::ObjectRef(id),
        "size"@,
        Value::Int((size + 1) as i32),
    )
}

fn holder_append_exec(jvm: &mut Jvm, id: usize, field: &str, x: Value)
    requires
        size_field(old(jvm).hv(), id) >= 0,
    ensures
        final(jvm).hv() == holder_append(old(jvm).hv(), id, field@, x),
        same_but_heap(*old(jvm), *final(jvm)),
{
    let size = read_int_field(jvm, id, "size", 0) as usize;
    let ar = read_aref_field(jvm, id, field);
    map_store(jvm, ar, size, x);
    jvm.set_field(Value::ObjectRef(id), "size", Value::Int((size + 1) as i32));
}

/// `LinkedHashSet.add(x)`: when none of the first `size` elements equals `x`, `x` is
/// appended and `true` answered; otherwise the set is left as it is and `false`
/// answered.
pub open spec fn linked_set_add(h: Seq<ObjectView>, id: usize, x: Value) -> (Seq<ObjectView>, Option<Value>) {
    match map_find(h, id, x) {
        Some(_) => (h, Some(Value::Boolean(false))),
        None => (holder_append(h, id, "keys"@, x), Some(Value::Boolean(true))),
    }
}

pub fn linked_set_add_native(frame: &mut Frame, jvm: &mut Jvm) -> (r: Result<(), JvmError>)
    requires
        size_ok(old(jvm).hv(), *old(frame)),
    ensures
        same_but_heap(*old(jvm), *final(jvm)),
        instance_outcome(*old(frame), old(jvm).hv(), *final(frame), final(jvm).hv(), r, 1,
            |id: usize| linked_set_add(old(jvm).hv(), id, top(*old(frame), 0)),
            true, Some(Value::Boolean(true))),
{
    let (this, x) = pop1_this(frame)?;
    if let Value::ObjectRef(id) = this {
        if id >= jvm.heap.len() {
            return Err(JvmError::RuntimeError(RuntimeError::NullPointerException));
        }
        if find_key(jvm, id, x).is_some() {
            frame.push(Value::Boolean(false));
            return Ok(());
        }
        holder_append_exec(jvm, id, "keys", x);
    }
    frame.push(Value::Boolean(true));
    Ok(())
}

/// `PriorityQueue.add(x)`: `x` is appended to the queue array (the queue's head is
/// found when it is read); `true` is answered.
pub fn queue_add_native(frame: &mut Frame, jvm: &mut Jvm) -> (r: Result<(), JvmError>)
    requires
        size_ok(old(jvm).hv(), *old(frame)),
    ensures
        same_but_heap(*old(jvm), *final(jvm)),
        instance_outcome(*old(frame), old(jvm).hv(), *final(frame), final(jvm).hv(), r, 1,
            |id: usize| (holder_append(old(jvm).hv(), id, "queue"@, top(*old(frame), 0)), Some(Value::Boolean(true))),
            true, Some(Value::Boolean(true))),
{
    let (this, x) = pop1_this(frame)?;
    if let Value::ObjectRef(id) = this {
        if id >= jvm.heap.len() {
            return Err(JvmError::RuntimeError(RuntimeError::NullPointerException));
        }
        holder_append_exec(jvm, id, "queue", x);
    }
    frame.push(Value::Boolean(true));
    Ok(())
}

/// The slot of the least element among the first `n` slots of `e` in the natural
/// order (the order `Collections.sort` uses); the first such slot when several tie.
pub open spec fn least_slot(e: Seq<Value>, n: int) -> int
    decreases n,
{
    if n <= 1 {
        0
    } else {
        let m = least_slot(e, n - 1);
        if sort_key(e[n - 1]) < sort_key(e[m]) {
            n - 1
        } else {
            m
        }
    }
}

/// `least_slot` is one of the first `n` slots, and no element there comes before it.
pub proof fn lemma_least_slot(e: Seq<Value>, n: int)
    requires
        0 < n,
    ensures
        0 <= least_slot(e, n) < n,
        forall|j: int| 0 <= j < n ==> sort_key(e[least_slot(e, n)]) <= sort_key(#[trigger] e[j]),
    decreases n,
{
    if n > 1 {
        lemma_least_slot(e, n - 1);
    }
}

/// The least element among the first `n` slots.
pub fn least_slot_exec(e: &Vec<Value>, n: usize) -> (m: usize)
    requires
        0 < n <= e@.len(),
    ensures
        m == least_slot(e@, n as int),
        m < n,
{
    let mut m: usize = 0;
    let mut km: i64 = sort_key_exec(e[0]);
    let mut i: usize = 1;
    while i < n
        invariant
            1 <= i <= n <= e@.len(),
            m == least_slot(e@, i as int),
            m < i,
            km == sort_key(e@[m as int]),
        decreases n - i,
    {
        let k = sort_key_exec(e[i]);
        if k < km {
            m = i;
            km = k;
        }
        i += 1;
    }
    m
}

/// The number of live slots of a queue: its size, capped at the array's length (the
/// whole array for a negative size).
pub open spec fn queue_count(h: Seq<ObjectView>, id: usize, e: Seq<Value>) -> int {
    count_upto(size_field(h, id), e.len()) as int
}

/// `PriorityQueue.peek()`: the least live element, or `Null` for an empty queue.
pub open spec fn queue_head(h: Seq<ObjectView>, id: usize) -> Value {
    match array_of(h, aref_field(h, id, "queue"@)) {
        Some(e) => if queue_count(h, id, e) > 0 {
            e[least_slot(e, queue_count(h, id, e))]
        } else {
            Value::Null
        },
        None => Value::Null,
    }
}

pub fn queue_peek_native(frame: &mut Frame, jvm: &mut Jvm) -> (r: Result<(), JvmError>)
    ensures
        *final(jvm) == *old(jvm),
        instance_outcome(*old(frame), old(jvm).hv(), *final(frame), final(jvm).hv(), r, 0,
            |id: usize| (old(jvm).hv(), Some(queue_head(old(jvm).hv(), id))), false, Some(Value::Null)),
{
    let this = this0(frame)?;
    assert(popped(*old(frame), 0) =~= old(frame).stack@);
    let mut v = Value::Null;
    if let Value::ObjectRef(id) = this {
        if id < jvm.heap.len() {
            let size = read_int_field(jvm, id, "size", 0);
            let qr = read_aref_field(jvm, id, "queue");
            match array_elems(jvm, qr) {
                Some(e) => {
                    let n = if size < 0 || size as usize > e.len() {
                        e.len()
                    } else {
                        size as usize
                    };
                    if n > 0 {
                        v = e[least_slot_exec(e, n)];
                    }
                },
                None => {},
            }
        }
    }
    frame.push(v);
    Ok(())
}

/// The receiver's size is not negative and, when its queue is an array, fits it:
/// `poll` reads the first `size` slots, and past the end the program stops.
pub open spec fn queue_ready(h: Seq<ObjectView>, f: Frame) -> bool {
    f.locals@.len() > 0 ==> match f.locals@[0] {
        Value::ObjectRef(id) => id < h.len() ==> {
            &&& size_field(h, id) >= 0
            &&& match array_of(h, aref_field(h, id, "queue"@)) {
                Some(e) => size_field(h, id) <= e.len(),
                None => true,
            }
        },
        _ => true,
    }
}

/// `PriorityQueue.poll()`: for a non-empty queue, the least live element is answered
/// and taken out (the live slots after it move down one) and the size is lowered;
/// `Null` otherwise.
pub open spec fn queue_poll(h: Seq<ObjectView>, id: usize) -> (Seq<ObjectView>, Option<Value>) {
    let size = size_field(h, id);
    let qr = aref_field(h, id, "queue"@);
    if size > 0 {
        let (h1, first) = match array_of(h, qr) {
            Some(e) => {
                let i = least_slot(e, size as int);
                (heap_with_array(h, qr, removed_at(e, i, size as int)), e[i])
            },
            None => (h, Value::Null),
        };
        (heap_set_field(h1, Value::ObjectRef(id), "size"@, Value::Int((size - 1) as i32)), Some(first))
    } else {
        (h, Some(Value::Null))
    }
}

pub fn queue_poll_native(frame: &mut Frame, jvm: &mut Jvm) -> (r: Result<(), JvmError>)
    requires
        queue_ready(old(jvm).hv(), *old(frame)),
    ensures
        same_but_heap(*old(jvm), *final(jvm)),
        instance_outcome(*old(frame), old(jvm).hv(), *final(frame), final(jvm).hv(), r, 0,
            |id: usize| queue_poll(old(jvm).hv(), id), true, Some(Value::Null)),
{
    let this = this0(frame)?;
    assert(popped(*old(frame), 0) =~= old(frame).stack@);
    if let Value::ObjectRef(id) = this {
        if id >= jvm.heap.len() {
            return Err(JvmError::RuntimeError(RuntimeError::NullPointerException));
        }
        let ghost h = jvm.hv();
        let qr = read_aref_field(jvm, id, "queue");
        let size = read_int_field(jvm, id, "size", 0);
        if size > 0 {
            let mut first = Value::Null;
            let shifted: Option<Vec<Value>> = match array_elems(jvm, qr) {
                Some(e) => {
                    let i = least_slot_exec(e, size as usize);
                    first = e[i];
                    Some(removed_copy(e, i, size as usize))
                },
                None => None,
            };
            match shifted {
                Some(v) => jvm.set_array(qr, v),
                None => {},
            }
            jvm.set_field(this, "size", Value::Int(size - 1));
            assert(jvm.hv() =~= queue_poll(h, id).0);
            frame.push(first);
            return Ok(());
        }
    }
    frame.push(Value::Null);
    Ok(())
}

/// `poll` on a non-empty queue whose size fits its array answers an element that no
/// live element comes before, and the queue keeps one element fewer.
pub proof fn law_poll_answers_a_least_element(h: Seq<ObjectView>, id: usize)
    requires
        size_field(h, id) > 0,
        array_of(h, aref_field(h, id, "queue"@)) is Some,
        size_field(h, id) <= array_of(h, aref_field(h, id, "queue"@))->0.len(),
    ensures
        ({
            let e = array_of(h, aref_field(h, id, "queue"@))->0;
            let x = queue_poll(h, id).1->0;
            &&& queue_poll(h, id).1 is Some
            &&& exists|i: int| 0 <= i < size_field(h, id) && e[i] == x
            &&& forall|j: int| 0 <= j < size_field(h, id) ==> sort_key(x) <= sort_key(#[trigger] e[j])
        }),
{
    let e = array_of(h, aref_field(h, id, "queue"@))->0;
    lemma_least_slot(e, size_field(h, id) as int);
    let i = least_slot(e, size_field(h, id) as int);
    assert(e[i] == queue_poll(h, id).1->0);
}

} // verus!
