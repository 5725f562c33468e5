use vstd::prelude::*;
use crate::natives::common::{array_elems, array_of};
use crate::runtime::heap::ObjectView;
use crate::runtime::jvm::{same_but_heap, Jvm};
use crate::runtime::value::Value;

verus! {

/// A copy of `e` with `cap` slots; the slots past the end of `e` are `Null`.
pub open spec fn padded(e: Seq<Value>, cap: nat) -> Seq<Value> {
    Seq::new(cap, |i: int| if i < e.len() { e[i] } else { Value::Null })
}

/// `cap` slots, all `Null`.
pub open spec fn nulls(cap: nat) -> Seq<Value> {
    Seq::new(cap, |i: int| Value::Null)
}

/// The heap with array object `arr` holding `a` in place of its elements; nothing
/// changes when `arr` is no array.
pub open spec fn heap_with_array(h: Seq<ObjectView>, arr: usize, a: Seq<Value>) -> Seq<ObjectView> {
    match array_of(h, arr) {
        Some(e) => h.update(arr as int, h[arr as int].with_array(a)),
        None => h,
    }
}

/// The heap with every slot of array object `arr` set to `Null`.
pub open spec fn heap_null_fill(h: Seq<ObjectView>, arr: usize) -> Seq<ObjectView> {
    match array_of(h, arr) {
        Some(e) => heap_with_array(h, arr, nulls(e.len())),
        None => h,
    }
}

/// The heap with slot `idx` of array object `arr` set to `x`, when that slot exists.
pub open spec fn heap_store(h: Seq<ObjectView>, arr: usize, idx: int, x: Value) -> Seq<ObjectView> {
    match array_of(h, arr) {
        Some(e) => if 0 <= idx < e.len() {
            heap_with_array(h, arr, e.update(idx, x))
        } else {
            h
        },
        None => h,
    }
}

/// The number of slots read by a loop `0..min(s as usize, len)`: the cast of a
/// negative `int` is larger than any length.
pub open spec fn count_upto(s: i32, len: nat) -> nat {
    if s < 0 || s as nat > len {
        len
    } else {
        s as nat
    }
}

/// The first `count_upto(s, e.len())` elements of `e`.
pub open spec fn prefix_upto(e: Seq<Value>, s: i32) -> Seq<Value> {
    e.take(count_upto(s, e.len()) as int)
}

/// A `Null`-padded copy of `e` with `cap` slots.
pub fn padded_copy(e: &Vec<Value>, cap: usize) -> (r: Vec<Value>)
    requires
        e@.len() <= cap,
    ensures
        r@ == padded(e@, cap as nat),
{
    let mut r: Vec<Value> = Vec::new();
    let mut i: usize = 0;
    while i < cap
        invariant
            i <= cap,
            e@.len() <= cap,
            r@ == padded(e@, cap as nat).take(i as int),
        decreases cap - i,
    {
        if i < e.len() {
            r.push(e[i]);
        } else {
            r.push(Value::Null);
        }
        i += 1;
    }
    assert(r@ =~= padded(e@, cap as nat));
    r
}

/// The first `n` elements of `e` (all of them when `n` is larger).
pub fn copy_prefix(e: &Vec<Value>, n: usize) -> (r: Vec<Value>)
    ensures
        r@ == e@.take(if n < e@.len() { n as int } else { e@.len() as int }),
{
    let m = if n < e.len() { n } else { e.len() };
    let mut r: Vec<Value> = Vec::new();
    let mut i: usize = 0;
    while i < m
        invariant
            i <= m,
            m <= e@.len(),
            r@ == e@.take(i as int),
        decreases m - i,
    {
        r.push(e[i]);
        i += 1;
        assert(r@ =~= e@.take(i as int));
    }
    r
}

/// The elements of array object `arr` read by a loop `0..min(s as usize, len)`;
/// empty when `arr` is no array.
pub fn array_prefix(jvm: &Jvm, arr: usize, s: i32) -> (r: Vec<Value>)
    ensures
        r@ == match array_of(jvm.hv(), arr) {
            Some(e) => prefix_upto(e, s),
            None => Seq::<Value>::empty(),
        },
{
    match array_elems(jvm, arr) {
        Some(e) => {
            let n: usize = if s < 0 { e.len() } else { s as usize };
            copy_prefix(e, n)
        },
        None => Vec::new(),
    }
}

/// Replaces the elements of array object `arr`; does nothing when it is no array.
pub fn replace_array(jvm: &mut Jvm, arr: usize, a: Vec<Value>)
    ensures
        final(jvm).hv() == heap_with_array(old(jvm).hv(), arr, a@),
        same_but_heap(*old(jvm), *final(jvm)),
{
    let is_array = match array_elems(jvm, arr) {
        Some(_) => true,
        None => false,
    };
    if is_array {
        jvm.set_array(arr, a);
    }
}

/// Sets every slot of array object `arr` to `Null`.
pub fn null_fill(jvm: &mut Jvm, arr: usize)
    ensures
        final(jvm).hv() == heap_null_fill(old(jvm).hv(), arr),
        same_but_heap(*old(jvm), *final(jvm)),
{
    let len = match array_elems(jvm, arr) {
        Some(e) => e.len(),
        None => {
            return;
        },
    };
    let mut v: Vec<Value> = Vec::new();
    let mut i: usize = 0;
    while i < len
        invariant
            i <= len,
            v@ == nulls(i as nat),
        decreases len - i,
    {
        v.push(Value::Null);
        i += 1;
        assert(v@ =~= nulls(i as nat));
    }
    replace_array(jvm, arr, v);
}

/// Stores `x` in slot `idx` of array object `arr` when that slot exists.
pub fn store(jvm: &mut Jvm, arr: usize, idx: usize, x: Value)
    ensures
        final(jvm).hv() == heap_store(old(jvm).hv(), arr, idx as int, x),
        same_but_heap(*old(jvm), *final(jvm)),
{
    let ok = match array_elems(jvm, arr) {
        Some(e) => idx < e.len(),
        None => false,
    };
    if ok {
        jvm.set_array_elem(arr, idx, x);
        assert(final(jvm).hv() =~= heap_store(old(jvm).hv(), arr, idx as int, x));
    }
}

} // verus!
