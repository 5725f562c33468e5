use vstd::prelude::*;
use crate::natives::arrays::{count_upto, heap_with_array, prefix_upto};
use crate::natives::common::{
    array_elems, array_of, aref_field, field_of, find_equal, get_field_of, int_field_or,
    lemma_first_equal_bounds, outcome, pop1, pop2, popped, read_aref_field, read_int_field, top, values_equal,
    values_equal_exec, Effect,
};
use crate::natives::lang::new_ref;
use crate::natives::list::{appended, appended_copy};
use crate::natives::map::{heap_with_collection, new_collection, object_array_class};
use crate::runtime::error::{JvmError, RuntimeError};
use crate::runtime::frame::{underflow_error, Frame};
use crate::runtime::heap::{HeapObject, ObjectView};
use crate::runtime::jvm::{heap_set_field, same_but_heap, Jvm};
use crate::runtime::value::{spec_as_int, Value};

verus! {

/// The object a value refers to, when it is a live object.
pub open spec fn live(h: Seq<ObjectView>, v: Value) -> Option<usize> {
    match v {
        Value::ObjectRef(id) => if id < h.len() {
            Some(id)
        } else {
            None
        },
        _ => None,
    }
}

fn live_exec(jvm: &Jvm, v: Value) -> (r: Option<usize>)
    ensures
        r == live(jvm.hv(), v),
{
    match v {
        Value::ObjectRef(id) => if id < jvm.heap.len() {
            Some(id)
        } else {
            None
        },
        _ => None,
    }
}

/// The elements of a collection argument: the first `size` slots of its element
/// array (all of them for a negative size), none when it is no live object.
pub open spec fn coll_prefix(h: Seq<ObjectView>, v: Value) -> Seq<Value> {
    match live(h, v) {
        Some(id) => match array_of(h, aref_field(h, id, "elementData"@)) {
            Some(e) => prefix_upto(e, int_field_or(h, id, "size"@, 0)),
            None => Seq::<Value>::empty(),
        },
        None => Seq::<Value>::empty(),
    }
}

fn coll_prefix_exec(jvm: &Jvm, v: Value) -> (r: Vec<Value>)
    ensures
        r@ == coll_prefix(jvm.hv(), v),
{
    match live_exec(jvm, v) {
        Some(id) => {
            let s = read_int_field(jvm, id, "size", 0);
            let ar = read_aref_field(jvm, id, "elementData");
            crate::natives::arrays::array_prefix(jvm, ar, s)
        },
        None => Vec::new(),
    }
}

/// Pops three values; they come back deepest first.
fn pop3(frame: &mut Frame) -> (r: Result<(Value, Value, Value), JvmError>)
    ensures
        crate::natives::common::failed_frame(*old(frame), *final(frame)),
        final(frame).locals@ == old(frame).locals@,
        old(frame).stack@.len() < 3 ==> r == Err::<(Value, Value, Value), JvmError>(underflow_error()),
        old(frame).stack@.len() >= 3 ==> r == Ok::<(Value, Value, Value), JvmError>(
            (top(*old(frame), 2), top(*old(frame), 1), top(*old(frame), 0)))
            && final(frame).stack@ == popped(*old(frame), 3),
{
    if frame.stack.len() < 3 {
        return Err(JvmError::RuntimeError(RuntimeError::StackUnderflow));
    }
    let c = frame.pop()?;
    let b = frame.pop()?;
    let a = frame.pop()?;
    assert(frame.stack@ =~= popped(*old(frame), 3));
    Ok((a, b, c))
}

// ---------- new collections ----------

/// A static factory that pops `n` values and answers a new collection of class
/// `cls` whose array (in field `name`) holds `elems` and whose size is `size`.
pub open spec fn coll_made(f: Frame, h: Seq<ObjectView>, n: nat, cls: Seq<char>, name: Seq<char>, elems: Seq<Value>, size: i32) -> Effect {
    if f.stack@.len() < n {
        Err(underflow_error())
    } else {
        Ok((heap_with_collection(h, cls, name, elems, size), n, Some(new_ref(h))))
    }
}

/// `Collections.singletonList(x)`.
pub fn singleton_list_native(frame: &mut Frame, jvm: &mut Jvm) -> (r: Result<(), JvmError>)
    ensures
        same_but_heap(*old(jvm), *final(jvm)),
        outcome(*old(frame), old(jvm).hv(), *final(frame), final(jvm).hv(), r,
            coll_made(*old(frame), old(jvm).hv(), 1, "java.util.Collections$SingletonList"@, "elementData"@,
                seq![top(*old(frame), 0)], 1)),
{
    let x = pop1(frame)?;
    let mut v: Vec<Value> = Vec::new();
    v.push(x);
    let c = new_collection(jvm, "java.util.Collections$SingletonList", "elementData", v, 1);
    frame.push(Value::ObjectRef(c));
    Ok(())
}

/// `Collections.singleton(x)`: a `HashSet` whose `keys` array holds `x`.
pub fn singleton_set_native(frame: &mut Frame, jvm: &mut Jvm) -> (r: Result<(), JvmError>)
    ensures
        same_but_heap(*old(jvm), *final(jvm)),
        outcome(*old(frame), old(jvm).hv(), *final(frame), final(jvm).hv(), r,
            coll_made(*old(frame), old(jvm).hv(), 1, "java.util.HashSet"@, "keys"@, seq![top(*old(frame), 0)], 1)),
{
    let x = pop1(frame)?;
    let mut v: Vec<Value> = Vec::new();
    v.push(x);
    let c = new_collection(jvm, "java.util.HashSet", "keys", v, 1);
    frame.push(Value::ObjectRef(c));
    Ok(())
}

/// `Collections.emptyList()` (class `cls`, nothing popped) and `Collections.list(e)`
/// (an `ArrayList`, the argument popped and ignored): a new empty list.
pub fn empty_list_native(frame: &mut Frame, jvm: &mut Jvm, cls: &str, n: usize) -> (r: Result<(), JvmError>)
    requires
        n <= 1,
    ensures
        same_but_heap(*old(jvm), *final(jvm)),
        outcome(*old(frame), old(jvm).hv(), *final(frame), final(jvm).hv(), r,
            coll_made(*old(frame), old(jvm).hv(), n as nat, cls@, "elementData"@, Seq::<Value>::empty(), 0)),
{
    proof {
        crate::natives::common::lemma_popped_zero(*old(frame));
    }
    if n == 1 {
        pop1(frame)?;
    }
    let c = new_collection(jvm, cls, "elementData", Vec::new(), 0);
    frame.push(Value::ObjectRef(c));
    Ok(())
}

/// The count `nCopies` makes: the popped `int`, 0 when negative.
pub open spec fn copies_count(v: Value) -> nat {
    if spec_as_int(v) < 0 {
        0
    } else {
        spec_as_int(v) as nat
    }
}

/// `Collections.nCopies(n, x)`: an `ArrayList` of `n` slots holding `x`.
pub fn n_copies_native(frame: &mut Frame, jvm: &mut Jvm) -> (r: Result<(), JvmError>)
    ensures
        same_but_heap(*old(jvm), *final(jvm)),
        outcome(*old(frame), old(jvm).hv(), *final(frame), final(jvm).hv(), r,
            coll_made(*old(frame), old(jvm).hv(), 2, "java.util.ArrayList"@, "elementData"@,
                Seq::new(copies_count(top(*old(frame), 1)), |i: int| top(*old(frame), 0)),
                copies_count(top(*old(frame), 1)) as i32)),
{
    let (nv, x) = pop2(frame)?;
    let k = nv.as_int();
    let n: usize = if k < 0 {
        0
    } else {
        k as usize
    };
    let mut v: Vec<Value> = Vec::new();
    let mut i: usize = 0;
    while i < n
        invariant
            i <= n,
            v@ == Seq::new(i as nat, |j: int| x),
        decreases n - i,
    {
        v.push(x);
        i += 1;
        assert(v@ =~= Seq::new(i as nat, |j: int| x));
    }
    let c = new_collection(jvm, "java.util.ArrayList", "elementData", v, n as i32);
    frame.push(Value::ObjectRef(c));
    Ok(())
}

/// `Collections.singletonMap(k, v)`: a `HashMap` with one-slot `keys` and `values`
/// arrays holding the entry, and size 1.
pub open spec fn singleton_map(f: Frame, h: Seq<ObjectView>) -> Effect {
    if f.stack@.len() < 2 {
        Err(underflow_error())
    } else {
        let m = new_ref(h);
        let h1 = h.push(ObjectView::plain("java.util.HashMap"@));
        let h2 = h1.push(ObjectView::array_obj(object_array_class(), seq![top(f, 1)]));
        let h3 = h2.push(ObjectView::array_obj(object_array_class(), seq![top(f, 0)]));
        let h4 = heap_set_field(h3, m, "keys"@, Value::ArrayRef(h1.len() as usize));
        let h5 = heap_set_field(h4, m, "values"@, Value::ArrayRef(h2.len() as usize));
        Ok((heap_set_field(h5, m, "size"@, Value::Int(1)), 2, Some(m)))
    }
}

pub fn singleton_map_native(frame: &mut Frame, jvm: &mut Jvm) -> (r: Result<(), JvmError>)
    ensures
        same_but_heap(*old(jvm), *final(jvm)),
        outcome(*old(frame), old(jvm).hv(), *final(frame), final(jvm).hv(), r, singleton_map(*old(frame), old(jvm).hv())),
{
    let (k, v) = pop2(frame)?;
    let m = jvm.allocate(HeapObject::new(String::from_str("java.util.HashMap")));
    let mut kv: Vec<Value> = Vec::new();
    kv.push(k);
    let mut vv: Vec<Value> = Vec::new();
    vv.push(v);
    let ka = jvm.allocate(HeapObject::new_array_of(String::from_str("[Ljava/lang/Object;"), kv));
    let va = jvm.allocate(HeapObject::new_array_of(String::from_str("[Ljava/lang/Object;"), vv));
    jvm.set_field(Value::ObjectRef(m), "keys", Value::ArrayRef(ka));
    jvm.set_field(Value::ObjectRef(m), "values", Value::ArrayRef(va));
    jvm.set_field(Value::ObjectRef(m), "size", Value::Int(1));
    frame.push(Value::ObjectRef(m));
    Ok(())
}

// ---------- views of collections ----------

/// `unmodifiableList` and `synchronizedList`: for a live list, a new object of class
/// `cls` sharing its element array and size; otherwise `Null` (`keep` false) or the
/// argument itself (`keep` true).
pub open spec fn wrap_list(f: Frame, h: Seq<ObjectView>, cls: Seq<char>, keep: bool) -> Effect {
    if f.stack@.len() == 0 {
        Err(underflow_error())
    } else {
        match live(h, top(f, 0)) {
            Some(id) => Ok((
                h.push(ObjectView::plain(cls)
                    .with_field("elementData"@, Value::ArrayRef(aref_field(h, id, "elementData"@)))
                    .with_field("size"@, Value::Int(int_field_or(h, id, "size"@, 0)))),
                1,
                Some(new_ref(h)),
            )),
            None => Ok((h, 1, Some(if keep {
                top(f, 0)
            } else {
                Value::Null
            }))),
        }
    }
}

pub fn wrap_list_native(frame: &mut Frame, jvm: &mut Jvm, cls: &str, keep: bool) -> (r: Result<(), JvmError>)
    ensures
        same_but_heap(*old(jvm), *final(jvm)),
        outcome(*old(frame), old(jvm).hv(), *final(frame), final(jvm).hv(), r, wrap_list(*old(frame), old(jvm).hv(), cls@, keep)),
{
    let v = pop1(frame)?;
    match live_exec(jvm, v) {
        Some(id) => {
            let ar = read_aref_field(jvm, id, "elementData");
            let s = read_int_field(jvm, id, "size", 0);
            let ghost h0 = jvm.hv();
            let w = jvm.allocate(HeapObject::new(String::from_str(cls)));
            jvm.set_field(Value::ObjectRef(w), "elementData", Value::ArrayRef(ar));
            jvm.set_field(Value::ObjectRef(w), "size", Value::Int(s));
            assert(jvm.hv() =~= h0.push(ObjectView::plain(cls@)
                .with_field("elementData"@, Value::ArrayRef(ar))
                .with_field("size"@, Value::Int(s))));
            frame.push(Value::ObjectRef(w));
        },
        None => {
            frame.push(if keep {
                v
            } else {
                Value::Null
            });
        },
    }
    Ok(())
}

/// `unmodifiableMap` and `synchronizedMap`: as `wrap_list`, sharing the key and value
/// arrays and the size.
pub open spec fn wrap_map(f: Frame, h: Seq<ObjectView>, cls: Seq<char>, keep: bool) -> Effect {
    if f.stack@.len() == 0 {
        Err(underflow_error())
    } else {
        match live(h, top(f, 0)) {
            Some(id) => Ok((
                h.push(ObjectView::plain(cls)
                    .with_field("keys"@, Value::ArrayRef(aref_field(h, id, "keys"@)))
                    .with_field("values"@, Value::ArrayRef(aref_field(h, id, "values"@)))
                    .with_field("size"@, Value::Int(int_field_or(h, id, "size"@, 0)))),
                1,
                Some(new_ref(h)),
            )),
            None => Ok((h, 1, Some(if keep {
                top(f, 0)
            } else {
                Value::Null
            }))),
        }
    }
}

pub fn wrap_map_native(frame: &mut Frame, jvm: &mut Jvm, cls: &str, keep: bool) -> (r: Result<(), JvmError>)
    ensures
        same_but_heap(*old(jvm), *final(jvm)),
        outcome(*old(frame), old(jvm).hv(), *final(frame), final(jvm).hv(), r, wrap_map(*old(frame), old(jvm).hv(), cls@, keep)),
{
    let v = pop1(frame)?;
    match live_exec(jvm, v) {
        Some(id) => {
            let kr = read_aref_field(jvm, id, "keys");
            let vr = read_aref_field(jvm, id, "values");
            let s = read_int_field(jvm, id, "size", 0);
            let ghost h0 = jvm.hv();
            let w = jvm.allocate(HeapObject::new(String::from_str(cls)));
            jvm.set_field(Value::ObjectRef(w), "keys", Value::ArrayRef(kr));
            jvm.set_field(Value::ObjectRef(w), "values", Value::ArrayRef(vr));
            jvm.set_field(Value::ObjectRef(w), "size", Value::Int(s));
            assert(jvm.hv() =~= h0.push(ObjectView::plain(cls@)
                .with_field("keys"@, Value::ArrayRef(kr))
                .with_field("values"@, Value::ArrayRef(vr))
                .with_field("size"@, Value::Int(s))));
            frame.push(Value::ObjectRef(w));
        },
        None => {
            frame.push(if keep {
                v
            } else {
                Value::Null
            });
        },
    }
    Ok(())
}

/// Natives that pop `n` arguments and answer the first of them unchanged
/// (`unmodifiableSet`, `synchronizedSet`, `checkedList`, `checkedSet`, `checkedMap`).
pub open spec fn first_arg(f: Frame, h: Seq<ObjectView>, n: nat) -> Effect {
    if f.stack@.len() < n {
        Err(underflow_error())
    } else {
        Ok((h, n, Some(top(f, (n - 1) as nat))))
    }
}

pub fn first_arg_native(frame: &mut Frame, jvm: &mut Jvm, n: usize) -> (r: Result<(), JvmError>)
    requires
        1 <= n <= 3,
    ensures
        *final(jvm) == *old(jvm),
        outcome(*old(frame), old(jvm).hv(), *final(frame), final(jvm).hv(), r, first_arg(*old(frame), old(jvm).hv(), n as nat)),
{
    let first = if n == 1 {
        pop1(frame)?
    } else if n == 2 {
        pop2(frame)?.0
    } else {
        pop3(frame)?.0
    };
    frame.push(first);
    Ok(())
}

/// `indexOfSubList` and `lastIndexOfSubList`: the two lists are popped and -1 answered.
pub open spec fn no_sub_list(f: Frame, h: Seq<ObjectView>) -> Effect {
    if f.stack@.len() < 2 {
        Err(underflow_error())
    } else {
        Ok((h, 2, Some(Value::Int(-1i32))))
    }
}

pub fn no_sub_list_native(frame: &mut Frame, jvm: &mut Jvm) -> (r: Result<(), JvmError>)
    ensures
        *final(jvm) == *old(jvm),
        outcome(*old(frame), old(jvm).hv(), *final(frame), final(jvm).hv(), r, no_sub_list(*old(frame), old(jvm).hv())),
{
    pop2(frame)?;
    frame.push(Value::Int(-1));
    Ok(())
}

/// `Collections.newSetFromMap(m)`: for a live map, a new `HashSet` whose `keys` array
/// holds the map's first `size` keys, with the map's size; `Null` otherwise.
pub open spec fn set_from_map(f: Frame, h: Seq<ObjectView>) -> Effect {
    if f.stack@.len() == 0 {
        Err(underflow_error())
    } else {
        match live(h, top(f, 0)) {
            Some(id) => {
                let s = int_field_or(h, id, "size"@, 0);
                let keys = match array_of(h, aref_field(h, id, "keys"@)) {
                    Some(e) => prefix_upto(e, s),
                    None => Seq::<Value>::empty(),
                };
                Ok((heap_with_collection(h, "java.util.HashSet"@, "keys"@, keys, s), 1, Some(new_ref(h))))
            },
            None => Ok((h, 1, Some(Value::Null))),
        }
    }
}

pub fn set_from_map_native(frame: &mut Frame, jvm: &mut Jvm) -> (r: Result<(), JvmError>)
    ensures
        same_but_heap(*old(jvm), *final(jvm)),
        outcome(*old(frame), old(jvm).hv(), *final(frame), final(jvm).hv(), r, set_from_map(*old(frame), old(jvm).hv())),
{
    let v = pop1(frame)?;
    match live_exec(jvm, v) {
        Some(id) => {
            let s = read_int_field(jvm, id, "size", 0);
            let kr = read_aref_field(jvm, id, "keys");
            let keys = crate::natives::arrays::array_prefix(jvm, kr, s);
            let c = new_collection(jvm, "java.util.HashSet", "keys", keys, s);
            frame.push(Value::ObjectRef(c));
        },
        None => {
            frame.push(Value::Null);
        },
    }
    Ok(())
}

/// `Collections.enumeration(c)`: a new enumeration object; when the argument is an
/// object reference its `collection` field holds it and its `position` is 0.
pub open spec fn enumeration(f: Frame, h: Seq<ObjectView>) -> Effect {
    if f.stack@.len() == 0 {
        Err(underflow_error())
    } else {
        let h1 = h.push(ObjectView::plain("java.util.Collections$Enumeration"@));
        let c = top(f, 0);
        Ok((if c is ObjectRef {
            heap_set_field(heap_set_field(h1, new_ref(h), "collection"@, c), new_ref(h), "position"@, Value::Int(0))
        } else {
            h1
        }, 1, Some(new_ref(h))))
    }
}

pub fn enumeration_native(frame: &mut Frame, jvm: &mut Jvm) -> (r: Result<(), JvmError>)
    ensures
        same_but_heap(*old(jvm), *final(jvm)),
        outcome(*old(frame), old(jvm).hv(), *final(frame), final(jvm).hv(), r, enumeration(*old(frame), old(jvm).hv())),
{
    let c = pop1(frame)?;
    let e = jvm.allocate(HeapObject::new(String::from_str("java.util.Collections$Enumeration")));
    if let Value::ObjectRef(_) = c {
        jvm.set_field(Value::ObjectRef(e), "collection", c);
        jvm.set_field(Value::ObjectRef(e), "position", Value::Int(0));
    }
    frame.push(Value::ObjectRef(e));
    Ok(())
}

/// `Collections.asLifoQueue(d)`: for an object reference, a new queue object that
/// takes over the `elementData` and `size` fields the deque has (none when it is no
/// live object); any other argument is answered unchanged.
pub open spec fn lifo_queue(f: Frame, h: Seq<ObjectView>) -> Effect {
    if f.stack@.len() == 0 {
        Err(underflow_error())
    } else {
        match top(f, 0) {
            Value::ObjectRef(id) => {
                let q = new_ref(h);
                let h1 = h.push(ObjectView::plain("java.util.Collections$AsLIFOQueue"@));
                let h2 = match field_of(h, id, "elementData"@) {
                    Some(a) => heap_set_field(h1, q, "elementData"@, a),
                    None => h1,
                };
                let h3 = match field_of(h, id, "size"@) {
                    Some(s) => heap_set_field(h2, q, "size"@, s),
                    None => h2,
                };
                Ok((h3, 1, Some(q)))
            },
            v => Ok((h, 1, Some(v))),
        }
    }
}

pub fn lifo_queue_native(frame: &mut Frame, jvm: &mut Jvm) -> (r: Result<(), JvmError>)
    ensures
        same_but_heap(*old(jvm), *final(jvm)),
        outcome(*old(frame), old(jvm).hv(), *final(frame), final(jvm).hv(), r, lifo_queue(*old(frame), old(jvm).hv())),
{
    let d = pop1(frame)?;
    if let Value::ObjectRef(id) = d {
        let a = get_field_of(jvm, id, "elementData");
        let s = get_field_of(jvm, id, "size");
        let q = jvm.allocate(HeapObject::new(String::from_str("java.util.Collections$AsLIFOQueue")));
        if let Some(a) = a {
            jvm.set_field(Value::ObjectRef(q), "elementData", a);
        }
        if let Some(s) = s {
            jvm.set_field(Value::ObjectRef(q), "size", s);
        }
        frame.push(Value::ObjectRef(q));
        return Ok(());
    }
    frame.push(d);
    Ok(())
}

// ---------- changes to a list's elements ----------

/// The element array of a live list argument, with its size field.
pub open spec fn list_parts(h: Seq<ObjectView>, v: Value) -> Option<(usize, Seq<Value>, i32)> {
    match live(h, v) {
        Some(id) => {
            let ar = aref_field(h, id, "elementData"@);
            match array_of(h, ar) {
                Some(e) => Some((ar, e, int_field_or(h, id, "size"@, 0))),
                None => None,
            }
        },
        None => None,
    }
}

pub fn list_parts_exec<'a>(jvm: &'a Jvm, v: Value) -> (r: Option<(usize, &'a Vec<Value>, i32)>)
    ensures
        match r {
            Some((ar, e, s)) => list_parts(jvm.hv(), v) == Some((ar, e@, s)),
            None => list_parts(jvm.hv(), v) is None,
        },
{
    match live_exec(jvm, v) {
        Some(id) => {
            let ar = read_aref_field(jvm, id, "elementData");
            let s = read_int_field(jvm, id, "size", 0);
            match array_elems(jvm, ar) {
                Some(e) => Some((ar, e, s)),
                None => None,
            }
        },
        None => None,
    }
}

/// `Collections.swap(list, i, j)`: the two slots of the element array are exchanged
/// when both exist (a negative index, taken as an unsigned word, never does).
pub open spec fn list_swap(f: Frame, h: Seq<ObjectView>) -> Effect {
    if f.stack@.len() < 3 {
        Err(underflow_error())
    } else {
        let j = spec_as_int(top(f, 0)) as usize;
        let i = spec_as_int(top(f, 1)) as usize;
        Ok((match live(h, top(f, 2)) {
            Some(id) => {
                let ar = aref_field(h, id, "elementData"@);
                match array_of(h, ar) {
                    Some(e) => if i < e.len() && j < e.len() {
                        heap_with_array(h, ar, e.update(i as int, e[j as int]).update(j as int, e[i as int]))
                    } else {
                        h
                    },
                    None => h,
                }
            },
            None => h,
        }, 3, None))
    }
}

pub fn list_swap_native(frame: &mut Frame, jvm: &mut Jvm) -> (r: Result<(), JvmError>)
    ensures
        same_but_heap(*old(jvm), *final(jvm)),
        outcome(*old(frame), old(jvm).hv(), *final(frame), final(jvm).hv(), r, list_swap(*old(frame), old(jvm).hv())),
{
    let (l, iv, jv) = pop3(frame)?;
    let j = jv.as_int() as usize;
    let i = iv.as_int() as usize;
    if let Some(id) = live_exec(jvm, l) {
        let ar = read_aref_field(jvm, id, "elementData");
        let pair: Option<(Value, Value)> = match array_elems(jvm, ar) {
            Some(e) => if i < e.len() && j < e.len() {
                Some((e[i], e[j]))
            } else {
                None
            },
            None => None,
        };
        if let Some((a, b)) = pair {
            let ghost h0 = jvm.hv();
            jvm.set_array_elem(ar, i, b);
            jvm.set_array_elem(ar, j, a);
            assert(jvm.hv() =~= heap_with_array(h0, ar, array_of(h0, ar)->0.update(i as int, b).update(j as int, a)));
        }
    }
    Ok(())
}

/// `Collections.disjoint(a, b)`: no element of `b` equals an element of `a` (strings
/// by their text), both taken as their first `size` elements.
pub open spec fn disjoint(f: Frame, h: Seq<ObjectView>) -> Effect {
    if f.stack@.len() < 2 {
        Err(underflow_error())
    } else {
        let ea = coll_prefix(h, top(f, 1));
        let eb = coll_prefix(h, top(f, 0));
        Ok((h, 2, Some(Value::Boolean(!exists|i: int, j: int| 0 <= i < eb.len() && 0 <= j < ea.len()
            && values_equal(h, #[trigger] ea[j], #[trigger] eb[i])))))
    }
}

pub fn disjoint_native(frame: &mut Frame, jvm: &mut Jvm) -> (r: Result<(), JvmError>)
    ensures
        *final(jvm) == *old(jvm),
        outcome(*old(frame), old(jvm).hv(), *final(frame), final(jvm).hv(), r, disjoint(*old(frame), old(jvm).hv())),
{
    let (a, b) = pop2(frame)?;
    let ea = coll_prefix_exec(jvm, a);
    let eb = coll_prefix_exec(jvm, b);
    let ghost h = jvm.hv();
    let mut result = true;
    let mut k: usize = 0;
    while k < eb.len()
        invariant
            k <= eb@.len(),
            h == jvm.hv(),
            result ==> forall|i: int, j: int| 0 <= i < k && 0 <= j < ea@.len()
                ==> !values_equal(h, #[trigger] ea@[j], #[trigger] eb@[i]),
            !result ==> exists|i: int, j: int| 0 <= i < eb@.len() && 0 <= j < ea@.len()
                && values_equal(h, #[trigger] ea@[j], #[trigger] eb@[i]),
        ensures
            result ==> forall|i: int, j: int| 0 <= i < eb@.len() && 0 <= j < ea@.len()
                ==> !values_equal(h, #[trigger] ea@[j], #[trigger] eb@[i]),
            !result ==> exists|i: int, j: int| 0 <= i < eb@.len() && 0 <= j < ea@.len()
                && values_equal(h, #[trigger] ea@[j], #[trigger] eb@[i]),
        decreases eb@.len() - k,
    {
        let found = find_equal(jvm, &ea, eb[k], ea.len());
        proof {
            lemma_first_equal_bounds(h, ea@, eb@[k as int], 0, ea@.len() as int);
            if found is Some {
                let j = found->0 as int;
                assert(values_equal(h, ea@[j], eb@[k as int]));
            }
        }
        if found.is_some() {
            result = false;
            break;
        }
        k += 1;
    }
    frame.push(Value::Boolean(result));
    Ok(())
}

/// `Collections.replaceAll(list, old, new)`: every slot among the first `size` whose
/// value equals `old` (strings by their text) gets `new`; nothing is answered.
pub open spec fn replace_all(f: Frame, h: Seq<ObjectView>) -> Effect {
    if f.stack@.len() < 3 {
        Err(underflow_error())
    } else {
        let new = top(f, 0);
        let old = top(f, 1);
        Ok((match list_parts(h, top(f, 2)) {
            Some((ar, e, s)) => heap_with_array(h, ar, Seq::new(e.len(), |i: int|
                if i < count_upto(s, e.len()) && values_equal(h, e[i], old) {
                    new
                } else {
                    e[i]
                })),
            None => h,
        }, 3, None))
    }
}

pub fn replace_all_native(frame: &mut Frame, jvm: &mut Jvm) -> (r: Result<(), JvmError>)
    ensures
        same_but_heap(*old(jvm), *final(jvm)),
        outcome(*old(frame), old(jvm).hv(), *final(frame), final(jvm).hv(), r, replace_all(*old(frame), old(jvm).hv())),
{
    let (l, old_v, new_v) = pop3(frame)?;
    let changed: Option<(usize, Vec<Value>)> = match list_parts_exec(jvm, l) {
        Some((ar, e, s)) => {
            let n: usize = if s < 0 || s as usize > e.len() {
                e.len()
            } else {
                s as usize
            };
            let mut v: Vec<Value> = Vec::new();
            let mut i: usize = 0;
            while i < e.len()
                invariant
                    i <= e@.len(),
                    n == count_upto(s, e@.len()),
                    v@ == Seq::new(i as nat, |k: int| if k < n && values_equal(jvm.hv(), e@[k], old_v) {
                        new_v
                    } else {
                        e@[k]
                    }),
                decreases e@.len() - i,
            {
                v.push(if i < n && values_equal_exec(jvm, e[i], old_v) {
                    new_v
                } else {
                    e[i]
                });
                i += 1;
                assert(v@ =~= Seq::new(i as nat, |k: int| if k < n && values_equal(jvm.hv(), e@[k], old_v) {
                    new_v
                } else {
                    e@[k]
                }));
            }
            Some((ar, v))
        },
        None => None,
    };
    if let Some((ar, v)) = changed {
        jvm.set_array(ar, v);
    }
    Ok(())
}

/// A list's size is not negative and, for `reverse`, fits its array once two or more
/// elements are swapped (past that, or with a negative size, the program stops).
pub open spec fn reverse_ready(h: Seq<ObjectView>, f: Frame) -> bool {
    f.stack@.len() > 0 ==> match list_parts(h, top(f, 0)) {
        Some((_, e, s)) => 0 <= s && (s < 2 || s <= e.len()),
        None => true,
    }
}

/// `Collections.reverse(list)`: the first `size` elements in reverse order.
pub open spec fn reverse(f: Frame, h: Seq<ObjectView>) -> Effect {
    if f.stack@.len() == 0 {
        Err(underflow_error())
    } else {
        Ok((match list_parts(h, top(f, 0)) {
            Some((ar, e, s)) => heap_with_array(h, ar, Seq::new(e.len(), |i: int|
                if i < s {
                    e[s - 1 - i]
                } else {
                    e[i]
                })),
            None => h,
        }, 1, None))
    }
}

pub fn reverse_native(frame: &mut Frame, jvm: &mut Jvm) -> (r: Result<(), JvmError>)
    requires
        reverse_ready(old(jvm).hv(), *old(frame)),
    ensures
        same_but_heap(*old(jvm), *final(jvm)),
        outcome(*old(frame), old(jvm).hv(), *final(frame), final(jvm).hv(), r, reverse(*old(frame), old(jvm).hv())),
{
    let l = pop1(frame)?;
    let changed: Option<(usize, Vec<Value>)> = match list_parts_exec(jvm, l) {
        Some((ar, e, s)) => {
            let n = s as usize;
            let mut v: Vec<Value> = Vec::new();
            let mut i: usize = 0;
            while i < e.len()
                invariant
                    i <= e@.len(),
                    n == s,
                    0 <= s,
                    s < 2 || s <= e@.len(),
                    v@ == Seq::new(i as nat, |k: int| if k < s {
                        e@[s - 1 - k]
                    } else {
                        e@[k]
                    }),
                decreases e@.len() - i,
            {
                v.push(if i < n {
                    e[n - 1 - i]
                } else {
                    e[i]
                });
                i += 1;
                assert(v@ =~= Seq::new(i as nat, |k: int| if k < s {
                    e@[s - 1 - k]
                } else {
                    e@[k]
                }));
            }
            Some((ar, v))
        },
        None => None,
    };
    if let Some((ar, v)) = changed {
        jvm.set_array(ar, v);
    }
    Ok(())
}

/// `fill` and `frequency` loop up to the size itself: a negative one would not end.
pub open spec fn size_loop_ready(h: Seq<ObjectView>, v: Value) -> bool {
    match list_parts(h, v) {
        Some((_, e, s)) => 0 <= s,
        None => true,
    }
}

/// `Collections.fill(list, x)`: the first `size` slots that exist get `x`.
pub open spec fn fill(f: Frame, h: Seq<ObjectView>) -> Effect {
    if f.stack@.len() < 2 {
        Err(underflow_error())
    } else {
        Ok((match list_parts(h, top(f, 1)) {
            Some((ar, e, s)) => heap_with_array(h, ar, Seq::new(e.len(), |i: int|
                if i < s {
                    top(f, 0)
                } else {
                    e[i]
                })),
            None => h,
        }, 2, None))
    }
}

pub fn fill_native(frame: &mut Frame, jvm: &mut Jvm) -> (r: Result<(), JvmError>)
    requires
        old(frame).stack@.len() >= 2 ==> size_loop_ready(old(jvm).hv(), top(*old(frame), 1)),
    ensures
        same_but_heap(*old(jvm), *final(jvm)),
        outcome(*old(frame), old(jvm).hv(), *final(frame), final(jvm).hv(), r, fill(*old(frame), old(jvm).hv())),
{
    let (l, x) = pop2(frame)?;
    let changed: Option<(usize, Vec<Value>)> = match list_parts_exec(jvm, l) {
        Some((ar, e, s)) => {
            let mut v: Vec<Value> = Vec::new();
            let mut i: usize = 0;
            while i < e.len()
                invariant
                    i <= e@.len(),
                    0 <= s,
                    v@ == Seq::new(i as nat, |k: int| if k < s {
                        x
                    } else {
                        e@[k]
                    }),
                decreases e@.len() - i,
            {
                v.push(if i < s as usize {
                    x
                } else {
                    e[i]
                });
                i += 1;
                assert(v@ =~= Seq::new(i as nat, |k: int| if k < s {
                    x
                } else {
                    e@[k]
                }));
            }
            Some((ar, v))
        },
        None => None,
    };
    if let Some((ar, v)) = changed {
        jvm.set_array(ar, v);
    }
    Ok(())
}

/// The number of the first `n` slots of `e` whose value equals `x` (strings by their
/// text).
pub open spec fn count_equal(h: Seq<ObjectView>, e: Seq<Value>, x: Value, n: int) -> nat
    decreases n,
{
    if n <= 0 {
        0
    } else {
        count_equal(h, e, x, n - 1) + if values_equal(h, e[n - 1], x) {
            1nat
        } else {
            0nat
        }
    }
}

proof fn lemma_count_equal_le(h: Seq<ObjectView>, e: Seq<Value>, x: Value, n: int)
    ensures
        count_equal(h, e, x, n) <= if n < 0 { 0 } else { n },
    decreases n,
{
    if n > 0 {
        lemma_count_equal_le(h, e, x, n - 1);
    }
}

/// `Collections.frequency(c, x)`: how many of the first `size` elements equal `x`.
pub open spec fn frequency(f: Frame, h: Seq<ObjectView>) -> Effect {
    if f.stack@.len() < 2 {
        Err(underflow_error())
    } else {
        Ok((h, 2, Some(Value::Int(match list_parts(h, top(f, 1)) {
            Some((_, e, s)) => count_equal(h, e, top(f, 0), count_upto(s, e.len()) as int) as i32,
            None => 0,
        }))))
    }
}

pub fn frequency_native(frame: &mut Frame, jvm: &mut Jvm) -> (r: Result<(), JvmError>)
    requires
        old(frame).stack@.len() >= 2 ==> size_loop_ready(old(jvm).hv(), top(*old(frame), 1)),
    ensures
        *final(jvm) == *old(jvm),
        outcome(*old(frame), old(jvm).hv(), *final(frame), final(jvm).hv(), r, frequency(*old(frame), old(jvm).hv())),
{
    let (c, x) = pop2(frame)?;
    let mut count: i32 = 0;
    match list_parts_exec(jvm, c) {
        Some((_, e, s)) => {
            let n: usize = if s as usize > e.len() {
                e.len()
            } else {
                s as usize
            };
            let mut i: usize = 0;
            while i < n
                invariant
                    i <= n,
                    n <= e@.len(),
                    n <= s,
                    count == count_equal(jvm.hv(), e@, x, i as int),
                decreases n - i,
            {
                proof {
                    lemma_count_equal_le(jvm.hv(), e@, x, i as int);
                }
                if values_equal_exec(jvm, e[i], x) {
                    count += 1;
                }
                i += 1;
            }
        },
        None => {},
    }
    frame.push(Value::Int(count));
    Ok(())
}

/// The remainder of `a / b` as Rust computes it (the sign of `a`).
pub open spec fn trunc_rem(a: int, b: int) -> int {
    if a >= 0 {
        a % b
    } else {
        -((-a) % b)
    }
}

/// `rotate` computes `(distance % size + size) % size` in `int` arithmetic and swaps
/// within the first `size` slots: the size must fit the array and that sum must not
/// overflow.
pub open spec fn rotate_ready(h: Seq<ObjectView>, f: Frame) -> bool {
    f.stack@.len() >= 2 ==> match list_parts(h, top(f, 1)) {
        Some((_, e, s)) => s != 0 ==> 0 < s <= e.len() && trunc_rem(spec_as_int(top(f, 0)) as int, s as int) + s <= 0x7fff_ffff,
        None => true,
    }
}

/// `Collections.rotate(list, distance)`: among the first `size` elements, the one at
/// index `i` moves to index `(i + distance) mod size` (a negative distance turns the
/// other way).
pub open spec fn rotate(f: Frame, h: Seq<ObjectView>) -> Effect {
    if f.stack@.len() < 2 {
        Err(underflow_error())
    } else {
        Ok((match list_parts(h, top(f, 1)) {
            Some((ar, e, s)) => if s != 0 {
                let d = (s - (trunc_rem(spec_as_int(top(f, 0)) as int, s as int) + s) % (s as int)) % (s as int);
                heap_with_array(h, ar, Seq::new(e.len(), |i: int|
                    if i < s {
                        e[(i + d) % (s as int)]
                    } else {
                        e[i]
                    }))
            } else {
                h
            },
            None => h,
        }, 2, None))
    }
}

pub fn rotate_native(frame: &mut Frame, jvm: &mut Jvm) -> (r: Result<(), JvmError>)
    requires
        rotate_ready(old(jvm).hv(), *old(frame)),
    ensures
        same_but_heap(*old(jvm), *final(jvm)),
        outcome(*old(frame), old(jvm).hv(), *final(frame), final(jvm).hv(), r, rotate(*old(frame), old(jvm).hv())),
{
    let (l, dv) = pop2(frame)?;
    let dist = dv.as_int();
    let changed: Option<(usize, Vec<Value>)> = match list_parts_exec(jvm, l) {
        Some((ar, e, s)) => if s != 0 {
            let su = s as u64;
            let a: u64 = if dist >= 0 {
                dist as u64
            } else {
                (-(dist as i64)) as u64
            };
            let m = a % su;
            let rem: i64 = if dist >= 0 {
                m as i64
            } else {
                -(m as i64)
            };
            assert(rem == trunc_rem(dist as int, s as int));
            let d0 = ((rem + s as i64) % (s as i64)) as usize;
            let n = s as usize;
            assert(d0 < n);
            let d = if d0 == 0 {
                0
            } else {
                n - d0
            };
            proof {
                if d0 == 0 {
                    vstd::arithmetic::div_mod::lemma_mod_self_0(s as int);
                } else {
                    vstd::arithmetic::div_mod::lemma_small_mod((n - d0) as nat, n as nat);
                }
            }
            assert(d == (s - (trunc_rem(dist as int, s as int) + s) % (s as int)) % (s as int));
            let mut v: Vec<Value> = Vec::new();
            let mut i: usize = 0;
            while i < e.len()
                invariant
                    i <= e@.len(),
                    0 < n <= e@.len(),
                    n == s,
                    d == (s - (trunc_rem(dist as int, s as int) + s) % (s as int)) % (s as int),
                    d < n,
                    v@ == Seq::new(i as nat, |k: int| if k < s {
                        e@[(k + d) % (s as int)]
                    } else {
                        e@[k]
                    }),
                decreases e@.len() - i,
            {
                let x = if i < n {
                    let j = if i + d < n {
                        i + d
                    } else {
                        i + d - n
                    };
                    assert(j as int == (i + d) % (s as int)) by (nonlinear_arith)
                        requires
                            i < n,
                            d < n,
                            n == s,
                            j == (if i + d < n { i + d } else { i + d - n }),
                    ;
                    e[j]
                } else {
                    e[i]
                };
                v.push(x);
                i += 1;
                assert(v@ =~= Seq::new(i as nat, |k: int| if k < s {
                    e@[(k + d) % (s as int)]
                } else {
                    e@[k]
                }));
            }
            Some((ar, v))
        } else {
            None
        },
        None => None,
    };
    if let Some((ar, v)) = changed {
        jvm.set_array(ar, v);
    }
    Ok(())
}

/// `Collections.copy(dest, src)`: the source's first `size` elements (none for a
/// source that is no live object) go to the front of the destination's element array
/// as far as it reaches (array 0 for a destination reference to no object); a live
/// destination takes the source's size.
pub open spec fn list_copy(f: Frame, h: Seq<ObjectView>) -> Effect {
    if f.stack@.len() < 2 {
        Err(underflow_error())
    } else {
        let src = top(f, 1);
        let dest = top(f, 0);
        let elems = coll_prefix(h, src);
        let size = match live(h, src) {
            Some(id) => int_field_or(h, id, "size"@, 0),
            None => 0,
        };
        Ok((match dest {
            Value::ObjectRef(d) => {
                let da = if d < h.len() {
                    aref_field(h, d, "elementData"@)
                } else {
                    0
                };
                let h1 = match array_of(h, da) {
                    Some(e) => heap_with_array(h, da, Seq::new(e.len(), |i: int| if i < elems.len() {
                        elems[i]
                    } else {
                        e[i]
                    })),
                    None => h,
                };
                heap_set_field(h1, dest, "size"@, Value::Int(size))
            },
            _ => h,
        }, 2, None))
    }
}

pub fn list_copy_native(frame: &mut Frame, jvm: &mut Jvm) -> (r: Result<(), JvmError>)
    ensures
        same_but_heap(*old(jvm), *final(jvm)),
        outcome(*old(frame), old(jvm).hv(), *final(frame), final(jvm).hv(), r, list_copy(*old(frame), old(jvm).hv())),
{
    let (src, dest) = pop2(frame)?;
    let elems = coll_prefix_exec(jvm, src);
    let size: i32 = match live_exec(jvm, src) {
        Some(id) => read_int_field(jvm, id, "size", 0),
        None => 0,
    };
    if let Value::ObjectRef(d) = dest {
        let ghost h0 = jvm.hv();
        let da = if d < jvm.heap.len() {
            read_aref_field(jvm, d, "elementData")
        } else {
            0
        };
        let changed: Option<Vec<Value>> = match array_elems(jvm, da) {
            Some(e) => {
                let mut v: Vec<Value> = Vec::new();
                let mut i: usize = 0;
                while i < e.len()
                    invariant
                        i <= e@.len(),
                        v@ == Seq::new(i as nat, |k: int| if k < elems@.len() {
                            elems@[k]
                        } else {
                            e@[k]
                        }),
                    decreases e@.len() - i,
                {
                    v.push(if i < elems.len() {
                        elems[i]
                    } else {
                        e[i]
                    });
                    i += 1;
                    assert(v@ =~= Seq::new(i as nat, |k: int| if k < elems@.len() {
                        elems@[k]
                    } else {
                        e@[k]
                    }));
                }
                Some(v)
            },
            None => None,
        };
        if let Some(v) = changed {
            jvm.set_array(da, v);
        }
        jvm.set_field(dest, "size", Value::Int(size));
    }
    Ok(())
}

/// `Collections.addAll(c, array)` on a live collection: its size is not negative and
/// it can grow by half without leaving the address space.
pub open spec fn add_all_ready(h: Seq<ObjectView>, f: Frame) -> bool {
    f.stack@.len() >= 2 ==> match live(h, top(f, 1)) {
        Some(id) => {
            &&& int_field_or(h, id, "size"@, 0) >= 0
            &&& (int_field_or(h, id, "size"@, 0) + array_values(h, top(f, 0)).len()) * 2 + 2 <= usize::MAX
        },
        None => true,
    }
}

/// The elements of the array a value refers to (none when it is no array).
pub open spec fn array_values(h: Seq<ObjectView>, v: Value) -> Seq<Value> {
    match v {
        Value::ArrayRef(a) => match array_of(h, a) {
            Some(e) => e,
            None => Seq::<Value>::empty(),
        },
        _ => Seq::<Value>::empty(),
    }
}

/// `Collections.addAll(c, array)`: every element of the array is appended to the
/// collection's element array (grown as needed) and the size raised; answers whether
/// any was added (`false` when the collection has no element array or is no live
/// object).
pub open spec fn coll_add_all(f: Frame, h: Seq<ObjectView>) -> Effect {
    if f.stack@.len() < 2 {
        Err(underflow_error())
    } else {
        let elems = array_values(h, top(f, 0));
        match live(h, top(f, 1)) {
            Some(id) => {
                let s = int_field_or(h, id, "size"@, 0);
                let ar = aref_field(h, id, "elementData"@);
                match array_of(h, ar) {
                    Some(e) => Ok((
                        heap_set_field(heap_with_array(h, ar, appended(e, s as nat, elems)), top(f, 1), "size"@,
                            Value::Int((s + elems.len()) as i32)),
                        2,
                        Some(Value::Boolean(elems.len() > 0)),
                    )),
                    None => Ok((heap_set_field(h, top(f, 1), "size"@, Value::Int(s)), 2, Some(Value::Boolean(false)))),
                }
            },
            None => Ok((h, 2, Some(Value::Boolean(false)))),
        }
    }
}

pub fn coll_add_all_native(frame: &mut Frame, jvm: &mut Jvm) -> (r: Result<(), JvmError>)
    requires
        add_all_ready(old(jvm).hv(), *old(frame)),
    ensures
        same_but_heap(*old(jvm), *final(jvm)),
        outcome(*old(frame), old(jvm).hv(), *final(frame), final(jvm).hv(), r, coll_add_all(*old(frame), old(jvm).hv())),
{
    let (c, a) = pop2(frame)?;
    let elems: Vec<Value> = match a {
        Value::ArrayRef(ar) => match array_elems(jvm, ar) {
            Some(e) => crate::natives::arrays::copy_prefix(e, e.len()),
            None => Vec::new(),
        },
        _ => Vec::new(),
    };
    proof {
        match a {
            Value::ArrayRef(ar) => match array_of(jvm.hv(), ar) {
                Some(e) => {
                    assert(e.take(e.len() as int) =~= e);
                },
                None => {},
            },
            _ => {},
        }
    }
    match live_exec(jvm, c) {
        Some(id) => {
            let s = read_int_field(jvm, id, "size", 0);
            let ar = read_aref_field(jvm, id, "elementData");
            let grown: Option<Vec<Value>> = match array_elems(jvm, ar) {
                Some(e) => Some(appended_copy(e, s as usize, &elems)),
                None => None,
            };
            match grown {
                Some(v) => {
                    jvm.set_array(ar, v);
                    jvm.set_field(c, "size", Value::Int((s as usize + elems.len()) as i32));
                    frame.push(Value::Boolean(elems.len() > 0));
                },
                None => {
                    jvm.set_field(c, "size", Value::Int(s));
                    frame.push(Value::Boolean(false));
                },
            }
        },
        None => {
            frame.push(Value::Boolean(false));
        },
    }
    Ok(())
}

/// `Collections.disjoint(a, b)` answers `true` exactly when no element of `b` equals
/// (strings by their text) an element of `a`: so `true` when either is empty, and
/// `false` as soon as the two share an element.
pub proof fn law_disjoint(f: Frame, h: Seq<ObjectView>)
    requires
        f.stack@.len() >= 2,
    ensures
        ({
            let ea = coll_prefix(h, top(f, 1));
            let eb = coll_prefix(h, top(f, 0));
            let r = disjoint(f, h);
            &&& r is Ok
            &&& r->Ok_0.0 == h
            &&& r->Ok_0.2 is Some && r->Ok_0.2->0 is Boolean
            &&& r->Ok_0.2->0->Boolean_0 <==> (forall|i: int, j: int| 0 <= i < eb.len() && 0 <= j < ea.len()
                ==> !values_equal(h, #[trigger] ea[j], #[trigger] eb[i]))
            &&& (ea.len() == 0 || eb.len() == 0) ==> r->Ok_0.2 == Some(Value::Boolean(true))
            &&& (exists|i: int, j: int| 0 <= i < eb.len() && 0 <= j < ea.len() && #[trigger] ea[j] == #[trigger] eb[i])
                ==> r->Ok_0.2 == Some(Value::Boolean(false))
        }),
{
}
/// `Collections.reverse` puts the element at index `i` of the first `size` at index
/// `size - 1 - i` and leaves the slots past `size` alone; reversing a second time
/// gives back the heap that the first call started from.
pub proof fn law_reverse(f: Frame, h: Seq<ObjectView>)
    requires
        f.stack@.len() >= 1,
        reverse_ready(h, f),
    ensures
        reverse(f, h) is Ok,
        reverse(f, reverse(f, h)->Ok_0.0) is Ok,
        reverse(f, reverse(f, h)->Ok_0.0)->Ok_0.0 == h,
        match list_parts(h, top(f, 0)) {
            Some((ar, e, s)) => {
                let h1 = reverse(f, h)->Ok_0.0;
                &&& list_parts(h1, top(f, 0)) matches Some((ar1, e1, s1))
                &&& ar1 == ar && s1 == s && e1.len() == e.len()
                &&& forall|i: int| 0 <= i < s && i < e.len() ==> #[trigger] e1[i] == e[s - 1 - i]
                &&& forall|i: int| s <= i < e.len() ==> #[trigger] e1[i] == e[i]
            },
            None => reverse(f, h)->Ok_0.0 == h,
        },
{
    match list_parts(h, top(f, 0)) {
        Some((ar, e, s)) => {
            let id = live(h, top(f, 0))->0;
            let e1 = Seq::new(e.len(), |i: int| if i < s { e[s - 1 - i] } else { e[i] });
            let h1 = heap_with_array(h, ar, e1);
            assert(h1 == h.update(ar as int, h[ar as int].with_array(e1)));
            assert(h1[id as int].fields == h[id as int].fields);
            assert(field_of(h1, id, "elementData"@) == field_of(h, id, "elementData"@));
            assert(field_of(h1, id, "size"@) == field_of(h, id, "size"@));
            assert(array_of(h1, ar) == Some(e1));
            assert(list_parts(h1, top(f, 0)) == Some((ar, e1, s)));
            let e2 = Seq::new(e1.len(), |i: int| if i < s { e1[s - 1 - i] } else { e1[i] });
            assert(e2 =~= e);
            let h2 = heap_with_array(h1, ar, e2);
            assert(h1[ar as int].with_array(e2) == h[ar as int]);
            assert(h2 =~= h);
        },
        None => {},
    }
}

proof fn lemma_trunc_rem_congruent(a: int, s: int)
    requires
        s > 0,
    ensures
        (trunc_rem(a, s) + s) % s == a % s,
{
    if a >= 0 {
        vstd::arithmetic::div_mod::lemma_mod_add_multiples_vanish(a % s, s);
        vstd::arithmetic::div_mod::lemma_mod_twice(a, s);
        assert(a % s + s == s + a % s);
    } else {
        let q = (-a) / s;
        let rr = (-a) % s;
        vstd::arithmetic::div_mod::lemma_fundamental_div_mod(-a, s);
        assert(s * (-q) == -(s * q)) by (nonlinear_arith);
        assert(a == s * (-q) + (-rr));
        vstd::arithmetic::div_mod::lemma_mod_multiples_vanish(-q, -rr, s);
        vstd::arithmetic::div_mod::lemma_mod_add_multiples_vanish(-rr, s);
        assert(trunc_rem(a, s) + s == s + (-rr));
    }
}

proof fn lemma_rotate_index(i: int, dist: int, s: int)
    requires
        s > 0,
        0 <= i < s,
    ensures
        0 <= (i + dist) % s < s,
        ((i + dist) % s + (s - (trunc_rem(dist, s) + s) % s) % s) % s == i,
{
    let m = dist % s;
    let q = dist / s;
    lemma_trunc_rem_congruent(dist, s);
    vstd::arithmetic::div_mod::lemma_fundamental_div_mod(dist, s);
    vstd::arithmetic::div_mod::lemma_add_mod_noop(i + dist, s - m, s);
    assert(s * (q + 1) == s * q + s) by (nonlinear_arith);
    assert(i + dist + (s - m) == s * (q + 1) + i);
    vstd::arithmetic::div_mod::lemma_mod_multiples_vanish(q + 1, i, s);
    vstd::arithmetic::div_mod::lemma_small_mod(i as nat, s as nat);
}

/// `Collections.rotate(list, distance)` moves the element at index `i` of the first
/// `size` to index `(i + distance) mod size` (the remainder taken in `0..size`, so a
/// negative distance turns the other way) and leaves the slots past `size` alone.
pub proof fn law_rotate(f: Frame, h: Seq<ObjectView>)
    requires
        f.stack@.len() >= 2,
        rotate_ready(h, f),
    ensures
        rotate(f, h) is Ok,
        match list_parts(h, top(f, 1)) {
            Some((ar, e, s)) => s > 0 ==> {
                let h1 = rotate(f, h)->Ok_0.0;
                let dist = spec_as_int(top(f, 0)) as int;
                &&& list_parts(h1, top(f, 1)) matches Some((ar1, e1, s1))
                &&& ar1 == ar && s1 == s && e1.len() == e.len()
                &&& forall|i: int| 0 <= i < s ==> #[trigger] e1[(i + dist) % (s as int)] == e[i]
                &&& forall|i: int| s <= i < e.len() ==> #[trigger] e1[i] == e[i]
            },
            None => rotate(f, h)->Ok_0.0 == h,
        },
{
    match list_parts(h, top(f, 1)) {
        Some((ar, e, s)) => if s > 0 {
            let id = live(h, top(f, 1))->0;
            let dist = spec_as_int(top(f, 0)) as int;
            let d = (s - (trunc_rem(dist, s as int) + s) % (s as int)) % (s as int);
            let e1 = Seq::new(e.len(), |i: int| if i < s { e[(i + d) % (s as int)] } else { e[i] });
            let h1 = heap_with_array(h, ar, e1);
            assert(h1 == h.update(ar as int, h[ar as int].with_array(e1)));
            assert(field_of(h1, id, "elementData"@) == field_of(h, id, "elementData"@));
            assert(field_of(h1, id, "size"@) == field_of(h, id, "size"@));
            assert(list_parts(h1, top(f, 1)) == Some((ar, e1, s)));
            assert forall|i: int| 0 <= i < s implies #[trigger] e1[(i + dist) % (s as int)] == e[i] by {
                lemma_rotate_index(i, dist, s as int);
            }
        },
        None => {},
    }
}

/// `Collections.swap(list, i, j)` exchanges the elements at `i` and `j` and leaves the
/// others where they were; swapping the same two positions again gives back the heap
/// the first call started from.
pub proof fn law_swap(f: Frame, h: Seq<ObjectView>)
    requires
        f.stack@.len() >= 3,
    ensures
        list_swap(f, h) is Ok,
        list_swap(f, list_swap(f, h)->Ok_0.0)->Ok_0.0 == h,
        ({
            let j = spec_as_int(top(f, 0)) as usize;
            let i = spec_as_int(top(f, 1)) as usize;
            let h1 = list_swap(f, h)->Ok_0.0;
            match live(h, top(f, 2)) {
                Some(id) => {
                    let ar = aref_field(h, id, "elementData"@);
                    match array_of(h, ar) {
                        Some(e) => (i < e.len() && j < e.len()) ==> (array_of(h1, ar) matches Some(e1) && {
                            &&& e1.len() == e.len()
                            &&& e1[i as int] == e[j as int]
                            &&& e1[j as int] == e[i as int]
                            &&& forall|k: int| 0 <= k < e.len() && k != i && k != j ==> #[trigger] e1[k] == e[k]
                        }),
                        None => h1 == h,
                    }
                },
                None => h1 == h,
            }
        }),
{
    let j = spec_as_int(top(f, 0)) as usize;
    let i = spec_as_int(top(f, 1)) as usize;
    match live(h, top(f, 2)) {
        Some(id) => {
            let ar = aref_field(h, id, "elementData"@);
            match array_of(h, ar) {
                Some(e) => if i < e.len() && j < e.len() {
                    let e1 = e.update(i as int, e[j as int]).update(j as int, e[i as int]);
                    let h1 = heap_with_array(h, ar, e1);
                    assert(h1 == h.update(ar as int, h[ar as int].with_array(e1)));
                    assert(field_of(h1, id, "elementData"@) == field_of(h, id, "elementData"@));
                    assert(array_of(h1, ar) == Some(e1));
                    let e2 = e1.update(i as int, e1[j as int]).update(j as int, e1[i as int]);
                    assert(e2 =~= e);
                    assert(h1[ar as int].with_array(e2) == h[ar as int]);
                    assert(heap_with_array(h1, ar, e2) =~= h);
                },
                None => {},
            }
        },
        None => {},
    }
}

proof fn lemma_count_equal_all(h: Seq<ObjectView>, e: Seq<Value>, x: Value, n: int)
    requires
        0 <= n <= e.len(),
        forall|i: int| 0 <= i < n ==> #[trigger] e[i] == x,
    ensures
        count_equal(h, e, x, n) == n,
    decreases n,
{
    if n > 0 {
        lemma_count_equal_all(h, e, x, n - 1);
        assert(e[n - 1] == x);
    }
}

proof fn lemma_count_equal_none(h: Seq<ObjectView>, e: Seq<Value>, x: Value, n: int)
    requires
        n <= e.len(),
        forall|i: int| 0 <= i < n ==> !values_equal(h, #[trigger] e[i], x),
    ensures
        count_equal(h, e, x, n) == 0,
    decreases n,
{
    if n > 0 {
        lemma_count_equal_none(h, e, x, n - 1);
    }
}

/// `Collections.frequency(list, x)` counts the elements among the first `size` that
/// equal `x`: never more than there are, none when no element equals `x`, and after
/// `Collections.fill(list, x)` every one of them.
pub proof fn law_fill_then_frequency(f: Frame, h: Seq<ObjectView>)
    requires
        f.stack@.len() >= 2,
        size_loop_ready(h, top(f, 1)),
    ensures
        fill(f, h) is Ok,
        frequency(f, h) is Ok,
        match list_parts(h, top(f, 1)) {
            Some((ar, e, s)) => {
                let n = count_upto(s, e.len()) as int;
                let c = frequency(f, h)->Ok_0.2->0;
                let h1 = fill(f, h)->Ok_0.0;
                &&& e.len() <= i32::MAX ==> (c matches Value::Int(k) && 0 <= k <= n)
                &&& (forall|i: int| 0 <= i < n ==> !values_equal(h, #[trigger] e[i], top(f, 0)))
                    ==> c == Value::Int(0)
                &&& e.len() <= i32::MAX ==> frequency(f, h1)->Ok_0.2 == Some(Value::Int(n as i32))
            },
            None => frequency(f, h)->Ok_0.2 == Some(Value::Int(0)),
        },
{
    match list_parts(h, top(f, 1)) {
        Some((ar, e, s)) => {
            let n = count_upto(s, e.len()) as int;
            let x = top(f, 0);
            lemma_count_equal_le(h, e, x, n);
            if forall|i: int| 0 <= i < n ==> !values_equal(h, #[trigger] e[i], x) {
                lemma_count_equal_none(h, e, x, n);
            }
            let id = live(h, top(f, 1))->0;
            let e1 = Seq::new(e.len(), |i: int| if i < s { x } else { e[i] });
            let h1 = heap_with_array(h, ar, e1);
            assert(h1 == h.update(ar as int, h[ar as int].with_array(e1)));
            assert(field_of(h1, id, "elementData"@) == field_of(h, id, "elementData"@));
            assert(field_of(h1, id, "size"@) == field_of(h, id, "size"@));
            assert(list_parts(h1, top(f, 1)) == Some((ar, e1, s)));
            assert(n <= s);
            lemma_count_equal_all(h1, e1, x, n);
        },
        None => {},
    }
}

} // verus!
