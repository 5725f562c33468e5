use vstd::prelude::*;
use crate::natives::arrays::{
    array_prefix, count_upto, heap_null_fill, heap_with_array, null_fill, padded, padded_copy, prefix_upto,
};
use crate::natives::common::{
    answered, array_elems, array_of, aref_field, call_error, find_equal, first_equal,
    instance_outcome, int_field_or, popped, lemma_first_equal_bounds, lemma_first_equal_cap, pop1_this,
    pop2_this, pop3_this, read_aref_field, read_int_field, this0, this_of, top,
};
use crate::runtime::error::JvmError;
use crate::runtime::frame::Frame;
use crate::runtime::heap::{HeapObject, ObjectView};
use crate::runtime::jvm::{heap_set_field, same_but_heap, Jvm};
use crate::runtime::value::Value;

verus! {

/// The element-array class of the collections.
pub open spec fn object_array_class() -> Seq<char> {
    "[Ljava/lang/Object;"@
}

/// The `size` field of object `id` (0 when unset).
pub open spec fn size_field(h: Seq<ObjectView>, id: usize) -> i32 {
    int_field_or(h, id, "size"@, 0)
}

/// The receiver's `size` field is not negative, as every collection's is; the
/// growth arithmetic and the search loops rely on it.
pub open spec fn size_ok(h: Seq<ObjectView>, f: Frame) -> bool {
    f.locals@.len() > 0 ==> match f.locals@[0] {
        Value::ObjectRef(id) => size_field(h, id) >= 0,
        _ => true,
    }
}

/// The capacity a map's arrays grow to when slot `idx` is past their end.
pub open spec fn map_capacity(idx: nat) -> nat {
    if (idx + 1) * 3 / 2 + 1 > 10 {
        ((idx + 1) * 3 / 2 + 1) as nat
    } else {
        10
    }
}

/// One of a map's arrays with `x` stored in slot `idx`, grown first when `idx` is
/// past its end.
pub open spec fn map_slot_store(e: Seq<Value>, idx: nat, x: Value) -> Seq<Value> {
    (if idx >= e.len() {
        padded(e, map_capacity(idx))
    } else {
        e
    }).update(idx as int, x)
}

/// `map_slot_store` applied to array object `arr`.
pub open spec fn heap_map_store(h: Seq<ObjectView>, arr: usize, idx: nat, x: Value) -> Seq<ObjectView> {
    match array_of(h, arr) {
        Some(e) => heap_with_array(h, arr, map_slot_store(e, idx, x)),
        None => h,
    }
}

/// A new entry in slot `size` of the key and value arrays of map `id`, and its
/// size one larger.
pub open spec fn map_append(h: Seq<ObjectView>, id: usize, key: Value, value: Value) -> Seq<ObjectView> {
    let size = size_field(h, id) as nat;
    let h1 = heap_map_store(h, aref_field(h, id, "keys"@), size, key);
    let h2 = heap_map_store(h1, aref_field(h, id, "values"@), size, value);
    heap_set_field(h2, Value::ObjectRef(id), "size"@, Value::Int((size + 1) as i32))
}

/// The slot of the first key equal to `key` among the first `size` keys of map `id`.
pub open spec fn map_find(h: Seq<ObjectView>, id: usize, key: Value) -> Option<int> {
    match array_of(h, aref_field(h, id, "keys"@)) {
        Some(k) => first_equal(h, k, key, 0, count_upto(size_field(h, id), k.len()) as int),
        None => None,
    }
}

/// The entries of map `id` as key/value pairs in insertion order: the first `size`
/// slots of its key and value arrays (as many as both arrays hold).
pub open spec fn map_entries(h: Seq<ObjectView>, id: usize) -> Seq<(Value, Value)> {
    match (array_of(h, aref_field(h, id, "keys"@)), array_of(h, aref_field(h, id, "values"@))) {
        (Some(k), Some(v)) => {
            let n = count_upto(size_field(h, id), if k.len() < v.len() { k.len() } else { v.len() });
            Seq::new(n, |i: int| (k[i], v[i]))
        },
        _ => Seq::empty(),
    }
}

/// The value in slot `i` of map `id`'s value array, if it has that slot.
pub open spec fn map_value_at(h: Seq<ObjectView>, id: usize, i: int) -> Option<Value> {
    match array_of(h, aref_field(h, id, "values"@)) {
        Some(v) => if 0 <= i < v.len() {
            Some(v[i])
        } else {
            None
        },
        None => None,
    }
}

/// `put`: replace the value of an equal key among the map's first `size` keys, or
/// append a new entry; the result is the replaced value or `Null`.
pub open spec fn map_put(h: Seq<ObjectView>, id: usize, key: Value, value: Value) -> (Seq<ObjectView>, Option<Value>) {
    let vr = aref_field(h, id, "values"@);
    match map_find(h, id, key) {
        Some(i) => match map_value_at(h, id, i) {
            Some(old) => (
                heap_set_field(
                    heap_with_array(h, vr, array_of(h, vr)->0.update(i, value)),
                    Value::ObjectRef(id),
                    "size"@,
                    Value::Int(size_field(h, id)),
                ),
                Some(old),
            ),
            None => (h, Some(Value::Null)),
        },
        None => (map_append(h, id, key, value), Some(Value::Null)),
    }
}

/// `get`: the value of the first of the map's `size` keys that equals `key`, or
/// `Null` when none does.
pub open spec fn map_get(h: Seq<ObjectView>, id: usize, key: Value) -> Value {
    match map_find(h, id, key) {
        Some(i) => match map_value_at(h, id, i) {
            Some(v) => v,
            None => Value::Null,
        },
        None => Value::Null,
    }
}

/// `getOrDefault` and `replace` look at the first `size` slots that both arrays have.
pub open spec fn map_find_with_value(h: Seq<ObjectView>, id: usize, key: Value) -> Option<int> {
    match (array_of(h, aref_field(h, id, "keys"@)), array_of(h, aref_field(h, id, "values"@))) {
        (Some(k), Some(v)) => first_equal(h, k, key, 0, count_upto(size_field(h, id), v.len()) as int),
        _ => None,
    }
}

/// A new object of class `cls` with fields `name` = `array` and `size` = `n`.
pub open spec fn sized_object(cls: Seq<char>, name: Seq<char>, array: usize, n: i32) -> ObjectView {
    ObjectView::plain(cls).with_field(name, Value::ArrayRef(array)).with_field("size"@, Value::Int(n))
}

/// A collection object of class `cls` followed by its element array holding `elems`;
/// the collection's `name` field refers to the array and its size is `n`.
pub open spec fn heap_with_collection(h: Seq<ObjectView>, cls: Seq<char>, name: Seq<char>, elems: Seq<Value>, n: i32) -> Seq<ObjectView> {
    h.push(sized_object(cls, name, (h.len() + 1) as usize, n)).push(
        ObjectView::array_obj(object_array_class(), elems),
    )
}

/// The keys (or values) of map `id` as a new collection.
pub open spec fn map_view_collection(h: Seq<ObjectView>, id: usize, arr_field: Seq<char>, cls: Seq<char>, name: Seq<char>) -> (Seq<ObjectView>, Option<Value>) {
    let elems = match array_of(h, aref_field(h, id, arr_field)) {
        Some(e) => prefix_upto(e, size_field(h, id)),
        None => Seq::<Value>::empty(),
    };
    (
        heap_with_collection(h, cls, name, elems, size_field(h, id)),
        Some(Value::ObjectRef(h.len() as usize)),
    )
}

/// The entry objects for the key and value prefixes of a map.
pub open spec fn entries(kd: Seq<Value>, vd: Seq<Value>) -> Seq<ObjectView> {
    Seq::new(
        if kd.len() < vd.len() {
            kd.len()
        } else {
            vd.len()
        },
        |i: int|
            ObjectView::plain("java.util.AbstractMap$SimpleEntry"@).with_field("key"@, kd[i]).with_field(
                "value"@,
                vd[i],
            ),
    )
}

/// `entrySet`: one entry object per key/value pair, then a map whose keys are
/// references to them (its values `Null`), then a `HashSet` backed by that map.
pub open spec fn map_entry_set(h: Seq<ObjectView>, this: Value) -> (Seq<ObjectView>, Value) {
    let (kd, vd) = match this {
        Value::ObjectRef(id) => if id < h.len() {
            (
                match array_of(h, aref_field(h, id, "keys"@)) {
                    Some(e) => prefix_upto(e, size_field(h, id)),
                    None => Seq::<Value>::empty(),
                },
                match array_of(h, aref_field(h, id, "values"@)) {
                    Some(e) => prefix_upto(e, size_field(h, id)),
                    None => Seq::<Value>::empty(),
                },
            )
        } else {
            (Seq::<Value>::empty(), Seq::<Value>::empty())
        },
        _ => (Seq::<Value>::empty(), Seq::<Value>::empty()),
    };
    let es = entries(kd, vd);
    let h1 = h + es;
    let refs = Seq::new(es.len(), |i: int| Value::ObjectRef((h.len() + i) as usize));
    let m = Value::ObjectRef(h1.len() as usize);
    let h2 = heap_with_collection(h1, "java.util.HashMap"@, "keys"@, refs, es.len() as i32);
    let h3 = h2.push(ObjectView::array_obj(object_array_class(), Seq::new(es.len(), |i: int| Value::Null)));
    let h4 = heap_set_field(h3, m, "values"@, Value::ArrayRef(h2.len() as usize));
    (h4.push(ObjectView::plain("java.util.HashSet"@).with_field("map"@, m)), Value::ObjectRef(h4.len() as usize))
}

/// The heap after a map constructor on `this`: two empty arrays are allocated and
/// the receiver's `keys`, `values` and `size` fields set.
pub open spec fn map_init(h: Seq<ObjectView>, this: Value) -> Seq<ObjectView> {
    match this {
        Value::ObjectRef(id) => {
            let e = ObjectView::array_obj(object_array_class(), Seq::<Value>::empty());
            let h1 = h.push(e).push(e);
            heap_set_field(
                heap_set_field(
                    heap_set_field(h1, this, "keys"@, Value::ArrayRef(h.len() as usize)),
                    this,
                    "values"@,
                    Value::ArrayRef((h.len() + 1) as usize),
                ),
                this,
                "size"@,
                Value::Int(0),
            )
        },
        _ => h,
    }
}

/// `clear`: size 0 and both arrays filled with `Null`.
pub open spec fn map_clear(h: Seq<ObjectView>, this: Value) -> Seq<ObjectView> {
    match this {
        Value::ObjectRef(id) => {
            let kr = aref_field(h, id, "keys"@);
            let vr = aref_field(h, id, "values"@);
            heap_null_fill(heap_null_fill(heap_set_field(h, this, "size"@, Value::Int(0)), kr), vr)
        },
        _ => h,
    }
}

/// `merge` and `putIfAbsent` on a missing key: a new entry; on a present key, `merge`
/// overwrites the value.
pub open spec fn map_merge(h: Seq<ObjectView>, id: usize, key: Value, value: Value) -> (Seq<ObjectView>, Option<Value>) {
    match map_find(h, id, key) {
        Some(i) => {
            let vr = aref_field(h, id, "values"@);
            let h1 = match map_value_at(h, id, i) {
                Some(_) => heap_with_array(h, vr, array_of(h, vr)->0.update(i, value)),
                None => h,
            };
            (heap_set_field(h1, Value::ObjectRef(id), "size"@, Value::Int(size_field(h, id))), Some(value))
        },
        None => (map_append(h, id, key, value), Some(value)),
    }
}

pub open spec fn map_put_if_absent(h: Seq<ObjectView>, id: usize, key: Value, value: Value) -> (Seq<ObjectView>, Option<Value>) {
    match map_find(h, id, key) {
        Some(i) => match map_value_at(h, id, i) {
            Some(v) => (h, Some(v)),
            None => (
                heap_set_field(h, Value::ObjectRef(id), "size"@, Value::Int(size_field(h, id))),
                Some(Value::Null),
            ),
        },
        None => (map_append(h, id, key, value), Some(Value::Null)),
    }
}

pub open spec fn map_replace(h: Seq<ObjectView>, id: usize, key: Value, value: Value) -> (Seq<ObjectView>, Option<Value>) {
    match map_find_with_value(h, id, key) {
        Some(i) => {
            let vr = aref_field(h, id, "values"@);
            (heap_with_array(h, vr, array_of(h, vr)->0.update(i, value)), Some(array_of(h, vr)->0[i]))
        },
        None => (h, Some(Value::Null)),
    }
}

pub fn map_capacity_exec(idx: usize) -> (c: usize)
    requires
        (idx as int + 1) * 3 / 2 + 1 <= usize::MAX,
    ensures
        c == map_capacity(idx as nat),
{
    let n = idx + 1;
    assert((n * 3) / 2 == n + n / 2) by (nonlinear_arith);
    let c = n + n / 2 + 1;
    if c > 10 {
        c
    } else {
        10
    }
}

/// Stores `x` in slot `idx` of one of a map's arrays, growing it first when needed.
pub fn map_store(jvm: &mut Jvm, arr: usize, idx: usize, x: Value)
    requires
        (idx as int + 1) * 3 / 2 + 1 <= usize::MAX,
    ensures
        final(jvm).hv() == heap_map_store(old(jvm).hv(), arr, idx as nat, x),
        same_but_heap(*old(jvm), *final(jvm)),
{
    let grown: Option<Vec<Value>> = match array_elems(jvm, arr) {
        Some(e) => if idx >= e.len() {
            Some(padded_copy(e, map_capacity_exec(idx)))
        } else {
            None
        },
        None => {
            return;
        },
    };
    let ghost h0 = jvm.hv();
    match grown {
        Some(g) => {
            jvm.set_array(arr, g);
        },
        None => {},
    }
    jvm.set_array_elem(arr, idx, x);
    assert(jvm.hv() =~= heap_map_store(h0, arr, idx as nat, x));
}

/// Appends an entry at slot `size` and sets the size one larger.
pub fn append_entry(jvm: &mut Jvm, id: usize, key: Value, value: Value)
    requires
        id < old(jvm).hv().len(),
        size_field(old(jvm).hv(), id) >= 0,
    ensures
        final(jvm).hv() == map_append(old(jvm).hv(), id, key, value),
        same_but_heap(*old(jvm), *final(jvm)),
{
    let size = read_int_field(jvm, id, "size", 0);
    let kr = read_aref_field(jvm, id, "keys");
    let vr = read_aref_field(jvm, id, "values");
    let su = size as usize;
    map_store(jvm, kr, su, key);
    map_store(jvm, vr, su, value);
    jvm.set_field(Value::ObjectRef(id), "size", Value::Int((su + 1) as i32));
}

/// The slot of the first key equal to `key` among the first `size` keys.
pub fn find_key(jvm: &Jvm, id: usize, key: Value) -> (r: Option<usize>)
    ensures
        match r {
            Some(i) => map_find(jvm.hv(), id, key) == Some(i as int),
            None => map_find(jvm.hv(), id, key) is None,
        },
{
    let size = read_int_field(jvm, id, "size", 0);
    let kr = read_aref_field(jvm, id, "keys");
    match array_elems(jvm, kr) {
        Some(k) => {
            if size < 0 || size as usize >= k.len() {
                proof {
                    if size >= 0 {
                        lemma_first_equal_cap(jvm.hv(), k@, key, 0, size as int);
                    }
                }
                find_equal(jvm, k, key, k.len())
            } else {
                find_equal(jvm, k, key, size as usize)
            }
        },
        None => None,
    }
}

/// The value in slot `i` of the value array.
pub fn value_at(jvm: &Jvm, id: usize, i: usize) -> (r: Option<Value>)
    ensures
        r == map_value_at(jvm.hv(), id, i as int),
{
    let vr = read_aref_field(jvm, id, "values");
    match array_elems(jvm, vr) {
        Some(v) => if i < v.len() {
            Some(v[i])
        } else {
            None
        },
        None => None,
    }
}

/// `HashMap()`: empty key and value arrays and size 0.
pub fn hashmap_init(frame: &mut Frame, jvm: &mut Jvm) -> (r: Result<(), JvmError>)
    ensures
        same_but_heap(*old(jvm), *final(jvm)),
        *final(frame) == *old(frame),
        match call_error(*old(frame), 0) {
            Some(e) => r == Err::<(), JvmError>(e) && final(jvm).hv() == old(jvm).hv(),
            None => r == Ok::<(), JvmError>(()) && final(jvm).hv() == map_init(old(jvm).hv(), this_of(*old(frame))),
        },
{
    let this = this0(frame)?;
    init_map_fields(jvm, this);
    Ok(())
}

/// Gives the map `this` two new empty arrays and size 0.
pub fn init_map_fields(jvm: &mut Jvm, this: Value)
    ensures
        same_but_heap(*old(jvm), *final(jvm)),
        final(jvm).hv() == map_init(old(jvm).hv(), this),
{
    match this {
        Value::ObjectRef(id) => {
            let kr = jvm.allocate(HeapObject::new_array(String::from_str("[Ljava/lang/Object;"), 0));
            let vr = jvm.allocate(HeapObject::new_array(String::from_str("[Ljava/lang/Object;"), 0));
            proof {
                assert(Seq::new(0, |i: int| Value::Null) =~= Seq::<Value>::empty());
            }
            jvm.set_field(this, "keys", Value::ArrayRef(kr));
            jvm.set_field(this, "values", Value::ArrayRef(vr));
            jvm.set_field(this, "size", Value::Int(0));
        },
        _ => {},
    }
}

/// `size()`: the size field.
pub fn hashmap_size(frame: &mut Frame, jvm: &mut Jvm) -> (r: Result<(), JvmError>)
    ensures
        *final(jvm) == *old(jvm),
        instance_outcome(*old(frame), old(jvm).hv(), *final(frame), final(jvm).hv(), r, 0,
            |id: usize| (old(jvm).hv(), Some(Value::Int(size_field(old(jvm).hv(), id)))), false,
            Some(Value::Int(0))),
{
    let this = this0(frame)?;
    assert(popped(*old(frame), 0) =~= old(frame).stack@);
    let n = match this {
        Value::ObjectRef(id) => read_int_field(jvm, id, "size", 0),
        _ => 0,
    };
    frame.push(Value::Int(n));
    Ok(())
}

/// `isEmpty()`: whether the size field is 0.
pub fn hashmap_is_empty(frame: &mut Frame, jvm: &mut Jvm) -> (r: Result<(), JvmError>)
    ensures
        *final(jvm) == *old(jvm),
        instance_outcome(*old(frame), old(jvm).hv(), *final(frame), final(jvm).hv(), r, 0,
            |id: usize| (old(jvm).hv(), Some(Value::Boolean(size_field(old(jvm).hv(), id) == 0))),
            false, Some(Value::Boolean(true))),
{
    let this = this0(frame)?;
    assert(popped(*old(frame), 0) =~= old(frame).stack@);
    let n = match this {
        Value::ObjectRef(id) => read_int_field(jvm, id, "size", 0),
        _ => 0,
    };
    frame.push(Value::Boolean(n == 0));
    Ok(())
}

/// `put(key, value)`.
pub fn hashmap_put(frame: &mut Frame, jvm: &mut Jvm) -> (r: Result<(), JvmError>)
    requires
        size_ok(old(jvm).hv(), *old(frame)),
    ensures
        same_but_heap(*old(jvm), *final(jvm)),
        instance_outcome(*old(frame), old(jvm).hv(), *final(frame), final(jvm).hv(), r, 2,
            |id: usize| map_put(old(jvm).hv(), id, top(*old(frame), 1), top(*old(frame), 0)), true,
            Some(Value::Null)),
{
    let (this, key, value) = pop2_this(frame)?;
    if let Value::ObjectRef(id) = this {
        if id >= jvm.heap.len() {
            return Err(crate::runtime::error::JvmError::RuntimeError(
                crate::runtime::error::RuntimeError::NullPointerException,
            ));
        }
        let ghost h = jvm.hv();
        let kr = read_aref_field(jvm, id, "keys");
        let vr = read_aref_field(jvm, id, "values");
        let size = read_int_field(jvm, id, "size", 0);
        match find_key(jvm, id, key) {
            Some(i) => {
                match value_at(jvm, id, i) {
                    Some(old_val) => {
                        jvm.set_array_elem(vr, i, value);
                        jvm.set_field(this, "size", Value::Int(size));
                        frame.push(old_val);
                        return Ok(());
                    },
                    None => {},
                }
            },
            None => {
                append_entry(jvm, id, key, value);
            },
        }
    }
    frame.push(Value::Null);
    Ok(())
}

/// Allocates a collection object of class `cls` and its element array.
pub fn new_collection(jvm: &mut Jvm, cls: &str, name: &str, elems: Vec<Value>, n: i32) -> (c: usize)
    ensures
        c == old(jvm).hv().len(),
        final(jvm).hv() == heap_with_collection(old(jvm).hv(), cls@, name@, elems@, n),
        same_but_heap(*old(jvm), *final(jvm)),
{
    let ghost h = jvm.hv();
    let c = jvm.allocate(HeapObject::new(String::from_str(cls)));
    let a = jvm.allocate(HeapObject::new_array(String::from_str("[Ljava/lang/Object;"), elems.len()));
    jvm.set_array(a, elems);
    jvm.set_field(Value::ObjectRef(c), name, Value::ArrayRef(a));
    jvm.set_field(Value::ObjectRef(c), "size", Value::Int(n));
    assert(jvm.hv() =~= heap_with_collection(h, cls@, name@, elems@, n));
    c
}

/// `get(key)`.
pub fn hashmap_get(frame: &mut Frame, jvm: &mut Jvm) -> (r: Result<(), JvmError>)
    ensures
        *final(jvm) == *old(jvm),
        instance_outcome(*old(frame), old(jvm).hv(), *final(frame), final(jvm).hv(), r, 1,
            |id: usize| (old(jvm).hv(), Some(map_get(old(jvm).hv(), id, top(*old(frame), 0)))), false,
            Some(Value::Null)),
{
    let (this, key) = pop1_this(frame)?;
    let mut answer = Value::Null;
    if let Value::ObjectRef(id) = this {
        if id < jvm.heap.len() {
            match find_key(jvm, id, key) {
                Some(i) => match value_at(jvm, id, i) {
                    Some(v) => {
                        answer = v;
                    },
                    None => {},
                },
                None => {},
            }
        }
    }
    frame.push(answer);
    Ok(())
}

/// `containsKey(key)`: whether one of the map's first `size` keys equals `key`.
pub fn hashmap_contains_key(frame: &mut Frame, jvm: &mut Jvm) -> (r: Result<(), JvmError>)
    ensures
        *final(jvm) == *old(jvm),
        instance_outcome(*old(frame), old(jvm).hv(), *final(frame), final(jvm).hv(), r, 1,
            |id: usize| (old(jvm).hv(), Some(Value::Boolean(
                map_find(old(jvm).hv(), id, top(*old(frame), 0)) is Some))), false,
            Some(Value::Boolean(false))),
{
    let (this, key) = pop1_this(frame)?;
    let mut found = false;
    if let Value::ObjectRef(id) = this {
        if id < jvm.heap.len() {
            found = find_key(jvm, id, key).is_some();
        }
    }
    frame.push(Value::Boolean(found));
    Ok(())
}

/// `keySet()`: a new set holding the first `size` keys.
pub fn hashmap_key_set(frame: &mut Frame, jvm: &mut Jvm) -> (r: Result<(), JvmError>)
    ensures
        same_but_heap(*old(jvm), *final(jvm)),
        instance_outcome(*old(frame), old(jvm).hv(), *final(frame), final(jvm).hv(), r, 0,
            |id: usize| map_view_collection(old(jvm).hv(), id, "keys"@, "java.util.HashSet"@, "keys"@),
            false, Some(Value::Null)),
{
    let this = this0(frame)?;
    assert(popped(*old(frame), 0) =~= old(frame).stack@);
    if let Value::ObjectRef(id) = this {
        if id < jvm.heap.len() {
            let size = read_int_field(jvm, id, "size", 0);
            let kr = read_aref_field(jvm, id, "keys");
            let data = array_prefix(jvm, kr, size);
            let c = new_collection(jvm, "java.util.HashSet", "keys", data, size);
            frame.push(Value::ObjectRef(c));
            return Ok(());
        }
    }
    frame.push(Value::Null);
    Ok(())
}

/// `values()`: a new list holding the first `size` values.
pub fn hashmap_values(frame: &mut Frame, jvm: &mut Jvm) -> (r: Result<(), JvmError>)
    ensures
        same_but_heap(*old(jvm), *final(jvm)),
        instance_outcome(*old(frame), old(jvm).hv(), *final(frame), final(jvm).hv(), r, 0,
            |id: usize| map_view_collection(old(jvm).hv(), id, "values"@, "java.util.ArrayList"@, "elementData"@),
            false, Some(Value::Null)),
{
    let this = this0(frame)?;
    assert(popped(*old(frame), 0) =~= old(frame).stack@);
    if let Value::ObjectRef(id) = this {
        if id < jvm.heap.len() {
            let size = read_int_field(jvm, id, "size", 0);
            let vr = read_aref_field(jvm, id, "values");
            let data = array_prefix(jvm, vr, size);
            let c = new_collection(jvm, "java.util.ArrayList", "elementData", data, size);
            frame.push(Value::ObjectRef(c));
            return Ok(());
        }
    }
    frame.push(Value::Null);
    Ok(())
}

/// `clear()`: size 0 and every key and value slot `Null`.
pub fn hashmap_clear(frame: &mut Frame, jvm: &mut Jvm) -> (r: Result<(), JvmError>)
    ensures
        same_but_heap(*old(jvm), *final(jvm)),
        *final(frame) == *old(frame),
        match call_error(*old(frame), 0) {
            Some(e) => r == Err::<(), JvmError>(e) && final(jvm).hv() == old(jvm).hv(),
            None => r == Ok::<(), JvmError>(()) && final(jvm).hv() == map_clear(old(jvm).hv(), this_of(*old(frame))),
        },
{
    let this = this0(frame)?;
    if let Value::ObjectRef(id) = this {
        let kr = read_aref_field(jvm, id, "keys");
        let vr = read_aref_field(jvm, id, "values");
        jvm.set_field(this, "size", Value::Int(0));
        null_fill(jvm, kr);
        null_fill(jvm, vr);
    }
    Ok(())
}

/// `computeIfAbsent(key, f)`: the value of a present key, else `Null`. A native
/// method cannot run Java code (this library executes no bytecode), so `f` is not
/// applied and a missing key stays missing.
pub fn hashmap_compute_if_absent(frame: &mut Frame, jvm: &mut Jvm) -> (r: Result<(), JvmError>)
    requires
        size_ok(old(jvm).hv(), *old(frame)),
    ensures
        *final(jvm) == *old(jvm),
        instance_outcome(*old(frame), old(jvm).hv(), *final(frame), final(jvm).hv(), r, 2,
            |id: usize| (old(jvm).hv(), Some(
                match map_find(old(jvm).hv(), id, top(*old(frame), 1)) {
                    Some(i) => match map_value_at(old(jvm).hv(), id, i) {
                        Some(v) => v,
                        None => Value::Null,
                    },
                    None => Value::Null,
                })), true, Some(Value::Null)),
{
    let (this, key, _mapping) = pop2_this(frame)?;
    if let Value::ObjectRef(id) = this {
        if id >= jvm.heap.len() {
            return Err(crate::runtime::error::JvmError::RuntimeError(
                crate::runtime::error::RuntimeError::NullPointerException,
            ));
        }
        match find_key(jvm, id, key) {
            Some(i) => match value_at(jvm, id, i) {
                Some(v) => {
                    frame.push(v);
                    return Ok(());
                },
                None => {},
            },
            None => {},
        }
    }
    frame.push(Value::Null);
    Ok(())
}

/// `merge(key, value, f)`: stores `value` under `key` and returns `value`. A native
/// method cannot run Java code (this library executes no bytecode), so `f` is not
/// applied to the old and new values.
pub fn hashmap_merge(frame: &mut Frame, jvm: &mut Jvm) -> (r: Result<(), JvmError>)
    requires
        size_ok(old(jvm).hv(), *old(frame)),
    ensures
        same_but_heap(*old(jvm), *final(jvm)),
        instance_outcome(*old(frame), old(jvm).hv(), *final(frame), final(jvm).hv(), r, 3,
            |id: usize| map_merge(old(jvm).hv(), id, top(*old(frame), 2), top(*old(frame), 1)), true,
            Some(Value::Null)),
{
    let (this, key, value, _remapping) = pop3_this(frame)?;
    if let Value::ObjectRef(id) = this {
        if id >= jvm.heap.len() {
            return Err(crate::runtime::error::JvmError::RuntimeError(
                crate::runtime::error::RuntimeError::NullPointerException,
            ));
        }
        let size = read_int_field(jvm, id, "size", 0);
        let vr = read_aref_field(jvm, id, "values");
        match find_key(jvm, id, key) {
            Some(i) => {
                match value_at(jvm, id, i) {
                    Some(_) => {
                        jvm.set_array_elem(vr, i, value);
                    },
                    None => {},
                }
                jvm.set_field(this, "size", Value::Int(size));
            },
            None => {
                append_entry(jvm, id, key, value);
            },
        }
        frame.push(value);
        return Ok(());
    }
    frame.push(Value::Null);
    Ok(())
}

/// `forEach(action)`: does nothing, as the action is Java code that a native method
/// cannot run.
pub fn hashmap_for_each(frame: &mut Frame, jvm: &mut Jvm) -> (r: Result<(), JvmError>)
    ensures
        *final(jvm) == *old(jvm),
        *final(frame) == *old(frame),
        r == Ok::<(), JvmError>(()),
{
    Ok(())
}

/// `getOrDefault(key, default)`.
pub fn hashmap_get_or_default(frame: &mut Frame, jvm: &mut Jvm) -> (r: Result<(), JvmError>)
    requires
        size_ok(old(jvm).hv(), *old(frame)),
    ensures
        *final(jvm) == *old(jvm),
        instance_outcome(*old(frame), old(jvm).hv(), *final(frame), final(jvm).hv(), r, 2,
            |id: usize| (old(jvm).hv(), Some(
                match map_find_with_value(old(jvm).hv(), id, top(*old(frame), 1)) {
                    Some(i) => map_value_at(old(jvm).hv(), id, i)->0,
                    None => top(*old(frame), 0),
                })), false, Some(top(*old(frame), 0))),
{
    let (this, key, default) = pop2_this(frame)?;
    if let Value::ObjectRef(id) = this {
        if id < jvm.heap.len() {
            match find_with_value(jvm, id, key) {
                Some(i) => {
                    let v = value_at(jvm, id, i);
                    frame.push(v.unwrap());
                    return Ok(());
                },
                None => {},
            }
        }
    }
    frame.push(default);
    Ok(())
}

/// The first slot below `size` where both arrays have a slot and the key is equal.
pub fn find_with_value(jvm: &Jvm, id: usize, key: Value) -> (r: Option<usize>)
    requires
        size_field(jvm.hv(), id) >= 0,
    ensures
        match r {
            Some(i) => map_find_with_value(jvm.hv(), id, key) == Some(i as int)
                && map_value_at(jvm.hv(), id, i as int) is Some,
            None => map_find_with_value(jvm.hv(), id, key) is None,
        },
{
    let size = read_int_field(jvm, id, "size", 0);
    let kr = read_aref_field(jvm, id, "keys");
    let vr = read_aref_field(jvm, id, "values");
    match array_elems(jvm, kr) {
        Some(k) => match array_elems(jvm, vr) {
            Some(v) => {
                let n: usize = if (size as usize) < v.len() {
                    size as usize
                } else {
                    v.len()
                };
                let r = find_equal(jvm, k, key, n);
                proof {
                    lemma_first_equal_bounds(jvm.hv(), k@, key, 0, n as int);
                }
                r
            },
            None => None,
        },
        None => None,
    }
}

/// `putIfAbsent(key, value)`.
pub fn hashmap_put_if_absent(frame: &mut Frame, jvm: &mut Jvm) -> (r: Result<(), JvmError>)
    requires
        size_ok(old(jvm).hv(), *old(frame)),
    ensures
        same_but_heap(*old(jvm), *final(jvm)),
        instance_outcome(*old(frame), old(jvm).hv(), *final(frame), final(jvm).hv(), r, 2,
            |id: usize| map_put_if_absent(old(jvm).hv(), id, top(*old(frame), 1), top(*old(frame), 0)),
            true, Some(Value::Null)),
{
    let (this, key, value) = pop2_this(frame)?;
    if let Value::ObjectRef(id) = this {
        if id >= jvm.heap.len() {
            return Err(crate::runtime::error::JvmError::RuntimeError(
                crate::runtime::error::RuntimeError::NullPointerException,
            ));
        }
        let size = read_int_field(jvm, id, "size", 0);
        match find_key(jvm, id, key) {
            Some(i) => match value_at(jvm, id, i) {
                Some(v) => {
                    frame.push(v);
                    return Ok(());
                },
                None => {
                    jvm.set_field(this, "size", Value::Int(size));
                },
            },
            None => {
                append_entry(jvm, id, key, value);
            },
        }
    }
    frame.push(Value::Null);
    Ok(())
}

/// `replace(key, value)`: the replaced value, or `Null` when the key is absent.
pub fn hashmap_replace(frame: &mut Frame, jvm: &mut Jvm) -> (r: Result<(), JvmError>)
    requires
        size_ok(old(jvm).hv(), *old(frame)),
    ensures
        same_but_heap(*old(jvm), *final(jvm)),
        instance_outcome(*old(frame), old(jvm).hv(), *final(frame), final(jvm).hv(), r, 2,
            |id: usize| map_replace(old(jvm).hv(), id, top(*old(frame), 1), top(*old(frame), 0)),
            false, Some(Value::Null)),
{
    let (this, key, value) = pop2_this(frame)?;
    if let Value::ObjectRef(id) = this {
        if id < jvm.heap.len() {
            match find_with_value(jvm, id, key) {
                Some(i) => {
                    let old_val = value_at(jvm, id, i).unwrap();
                    let vr = read_aref_field(jvm, id, "values");
                    jvm.set_array_elem(vr, i, value);
                    frame.push(old_val);
                    return Ok(());
                },
                None => {},
            }
        }
    }
    frame.push(Value::Null);
    Ok(())
}

/// `entrySet()`.
pub fn hashmap_entry_set(frame: &mut Frame, jvm: &mut Jvm) -> (r: Result<(), JvmError>)
    ensures
        same_but_heap(*old(jvm), *final(jvm)),
        match call_error(*old(frame), 0) {
            Some(e) => r == Err::<(), JvmError>(e) && final(jvm).hv() == old(jvm).hv(),
            None => match this_of(*old(frame)) {
                Value::ObjectRef(_) => r == Ok::<(), JvmError>(())
                    && answered(*old(frame), *final(frame), 0, Some(map_entry_set(old(jvm).hv(), this_of(*old(frame))).1))
                    && final(jvm).hv() == map_entry_set(old(jvm).hv(), this_of(*old(frame))).0,
                _ => r == Ok::<(), JvmError>(()) && answered(*old(frame), *final(frame), 0, Some(Value::Null))
                    && final(jvm).hv() == old(jvm).hv(),
            },
        },
{
    let this = this0(frame)?;
    assert(popped(*old(frame), 0) =~= old(frame).stack@);
    if let Value::ObjectRef(id) = this {
        let ghost h = jvm.hv();
        let (kd, vd) = if id < jvm.heap.len() {
            let size = read_int_field(jvm, id, "size", 0);
            let kr = read_aref_field(jvm, id, "keys");
            let vr = read_aref_field(jvm, id, "values");
            (array_prefix(jvm, kr, size), array_prefix(jvm, vr, size))
        } else {
            (Vec::new(), Vec::new())
        };
        let n = if kd.len() < vd.len() {
            kd.len()
        } else {
            vd.len()
        };
        let ghost es = entries(kd@, vd@);
        let mut refs: Vec<Value> = Vec::new();
        let mut i: usize = 0;
        while i < n
            invariant
                i <= n,
                n == es.len(),
                n <= kd@.len(),
                n <= vd@.len(),
                es == entries(kd@, vd@),
                jvm.hv() == h + es.take(i as int),
                refs@ == Seq::new(i as nat, |j: int| Value::ObjectRef((h.len() + j) as usize)),
                same_but_heap(*old(jvm), *jvm),
            decreases n - i,
        {
            let e = jvm.allocate(HeapObject::new(String::from_str("java.util.AbstractMap$SimpleEntry")));
            jvm.set_field(Value::ObjectRef(e), "key", kd[i]);
            jvm.set_field(Value::ObjectRef(e), "value", vd[i]);
            refs.push(Value::ObjectRef(e));
            i += 1;
            assert(jvm.hv() =~= h + es.take(i as int));
            assert(refs@ =~= Seq::new(i as nat, |j: int| Value::ObjectRef((h.len() + j) as usize)));
        }
        assert(es.take(n as int) =~= es);
        let m = new_collection(jvm, "java.util.HashMap", "keys", refs, n as i32);
        let va = jvm.allocate(HeapObject::new_array(String::from_str("[Ljava/lang/Object;"), n));
        jvm.set_field(Value::ObjectRef(m), "values", Value::ArrayRef(va));
        let c = jvm.allocate(HeapObject::new(String::from_str("java.util.HashSet")));
        jvm.set_field(Value::ObjectRef(c), "map", Value::ObjectRef(m));
        proof {
            assert(jvm.hv() =~= map_entry_set(h, this).0);
        }
        frame.push(Value::ObjectRef(c));
        return Ok(());
    }
    frame.push(Value::Null);
    Ok(())
}

} // verus!
