use vstd::prelude::*;
use crate::natives::arrays::{heap_with_array, nulls};
use crate::natives::common::{
    array_elems, array_of, field_of, get_field_of, local_missing, outcome, pop1, pop2, popped, this_of, top, values_equal,
    values_equal_exec, Effect,
};
use crate::natives::sorting::{bubble, sort_key, sort_key_exec, sorted_copy};
use crate::natives::lang::new_ref;
use crate::runtime::error::{JvmError, RuntimeError};
use crate::runtime::frame::{local_error, underflow_error, Frame};
use crate::runtime::heap::{HeapObject, ObjectView};
use crate::runtime::jvm::{heap_set_field, same_but_heap, Jvm};
use crate::runtime::value::{spec_as_int, Value};

verus! {

// ---------- java.util.Objects ----------

/// `Objects.equals(a, b)`: both `null`, or equal values (strings by their text,
/// other objects by identity).
pub open spec fn objects_equals(f: Frame, h: Seq<ObjectView>) -> Effect {
    if f.stack@.len() < 2 {
        Err(underflow_error())
    } else {
        Ok((h, 2, Some(Value::Boolean(values_equal(h, top(f, 1), top(f, 0))))))
    }
}

pub fn objects_equals_native(frame: &mut Frame, jvm: &mut Jvm) -> (r: Result<(), JvmError>)
    ensures
        *final(jvm) == *old(jvm),
        outcome(*old(frame), old(jvm).hv(), *final(frame), final(jvm).hv(), r, objects_equals(*old(frame), old(jvm).hv())),
{
    let (a, b) = pop2(frame)?;
    let result = values_equal_exec(jvm, a, b);
    frame.push(Value::Boolean(result));
    Ok(())
}

/// The hash `Objects.hashCode` gives: 0 for `null`, the reference number of an object,
/// the value of an `int`, 0 otherwise.
pub open spec fn objects_hash_of(v: Value) -> i32 {
    match v {
        Value::ObjectRef(id) => id as i32,
        Value::Int(x) => x,
        _ => 0,
    }
}

pub open spec fn objects_hash_code(f: Frame, h: Seq<ObjectView>) -> Effect {
    if f.stack@.len() == 0 {
        Err(underflow_error())
    } else {
        Ok((h, 1, Some(Value::Int(objects_hash_of(top(f, 0))))))
    }
}

pub fn objects_hash_code_native(frame: &mut Frame, jvm: &mut Jvm) -> (r: Result<(), JvmError>)
    ensures
        *final(jvm) == *old(jvm),
        outcome(*old(frame), old(jvm).hv(), *final(frame), final(jvm).hv(), r, objects_hash_code(*old(frame), old(jvm).hv())),
{
    let v = pop1(frame)?;
    let hash = match v {
        Value::ObjectRef(id) => id as i32,
        Value::Int(x) => x,
        _ => 0,
    };
    frame.push(Value::Int(hash));
    Ok(())
}

/// `Objects.requireNonNull(x)`: fails with `NullPointerException` on `null`, otherwise
/// answers `x`.
pub open spec fn objects_require_non_null(f: Frame, h: Seq<ObjectView>) -> Effect {
    if f.stack@.len() == 0 {
        Err(underflow_error())
    } else if top(f, 0) == Value::Null {
        Err(JvmError::RuntimeError(RuntimeError::NullPointerException))
    } else {
        Ok((h, 1, Some(top(f, 0))))
    }
}

pub fn objects_require_non_null_native(frame: &mut Frame, jvm: &mut Jvm) -> (r: Result<(), JvmError>)
    ensures
        *final(jvm) == *old(jvm),
        outcome(*old(frame), old(jvm).hv(), *final(frame), final(jvm).hv(), r, objects_require_non_null(*old(frame), old(jvm).hv())),
{
    let v = pop1(frame)?;
    if v == Value::Null {
        return Err(JvmError::RuntimeError(RuntimeError::NullPointerException));
    }
    frame.push(v);
    Ok(())
}

/// `Objects.deepEquals(a, b)`: identical values, or two array references whose objects
/// hold the same elements (or both no elements).
pub open spec fn objects_deep_equals(f: Frame, h: Seq<ObjectView>) -> Effect {
    if f.stack@.len() < 2 {
        Err(underflow_error())
    } else {
        let (a, b) = (top(f, 1), top(f, 0));
        let eq = match (a, b) {
            (Value::ArrayRef(x), Value::ArrayRef(y)) => x == y || (x < h.len() && y < h.len() && h[x as int].array
                == h[y as int].array),
            _ => a == b,
        };
        Ok((h, 2, Some(Value::Boolean(eq))))
    }
}

fn same_values(a: &Vec<Value>, b: &Vec<Value>) -> (r: bool)
    ensures
        r == (a@ == b@),
{
    if a.len() != b.len() {
        return false;
    }
    let mut i: usize = 0;
    while i < a.len()
        invariant
            i <= a@.len(),
            a@.len() == b@.len(),
            forall|j: int| 0 <= j < i ==> a@[j] == b@[j],
        decreases a@.len() - i,
    {
        if a[i] != b[i] {
            return false;
        }
        i += 1;
    }
    assert(a@ =~= b@);
    true
}

pub fn objects_deep_equals_native(frame: &mut Frame, jvm: &mut Jvm) -> (r: Result<(), JvmError>)
    ensures
        *final(jvm) == *old(jvm),
        outcome(*old(frame), old(jvm).hv(), *final(frame), final(jvm).hv(), r, objects_deep_equals(*old(frame), old(jvm).hv())),
{
    let (a, b) = pop2(frame)?;
    let eq = match (a, b) {
        (Value::ArrayRef(x), Value::ArrayRef(y)) => {
            if x == y {
                true
            } else if x < jvm.heap.len() && y < jvm.heap.len() {
                match (&jvm.heap[x].array_elements, &jvm.heap[y].array_elements) {
                    (Some(ea), Some(eb)) => same_values(ea, eb),
                    (None, None) => true,
                    _ => false,
                }
            } else {
                false
            }
        },
        _ => a == b,
    };
    frame.push(Value::Boolean(eq));
    Ok(())
}

/// `Objects.hash(values)`: the reference number of the argument array, or 0.
pub open spec fn objects_hash(f: Frame, h: Seq<ObjectView>) -> Effect {
    if f.stack@.len() == 0 {
        Err(underflow_error())
    } else {
        Ok((h, 1, Some(Value::Int(match top(f, 0) {
            Value::ArrayRef(id) => id as i32,
            _ => 0,
        }))))
    }
}

pub fn objects_hash_native(frame: &mut Frame, jvm: &mut Jvm) -> (r: Result<(), JvmError>)
    ensures
        *final(jvm) == *old(jvm),
        outcome(*old(frame), old(jvm).hv(), *final(frame), final(jvm).hv(), r, objects_hash(*old(frame), old(jvm).hv())),
{
    let v = pop1(frame)?;
    let hash = match v {
        Value::ArrayRef(id) => id as i32,
        _ => 0,
    };
    frame.push(Value::Int(hash));
    Ok(())
}

/// `Objects.isNull(x)` (want_null) and `Objects.nonNull(x)`.
pub open spec fn objects_null_test(f: Frame, h: Seq<ObjectView>, want_null: bool) -> Effect {
    if f.stack@.len() == 0 {
        Err(underflow_error())
    } else {
        Ok((h, 1, Some(Value::Boolean((top(f, 0) == Value::Null) == want_null))))
    }
}

pub fn objects_null_test_native(frame: &mut Frame, jvm: &mut Jvm, want_null: bool) -> (r: Result<(), JvmError>)
    ensures
        *final(jvm) == *old(jvm),
        outcome(*old(frame), old(jvm).hv(), *final(frame), final(jvm).hv(), r, objects_null_test(*old(frame), old(jvm).hv(), want_null)),
{
    let v = pop1(frame)?;
    frame.push(Value::Boolean((v == Value::Null) == want_null));
    Ok(())
}

// ---------- java.util.Optional ----------

/// `Optional.empty()` (no value: `Null`) and `Optional.of(x)`: a new `Optional` whose
/// `value` field holds the value.
pub open spec fn optional_make(f: Frame, h: Seq<ObjectView>, of: bool) -> Effect {
    if of && f.stack@.len() == 0 {
        Err(underflow_error())
    } else {
        let v = if of {
            top(f, 0)
        } else {
            Value::Null
        };
        Ok((h.push(ObjectView::plain("java.util.Optional"@).with_field("value"@, v)), if of {
            1
        } else {
            0
        }, Some(new_ref(h))))
    }
}

pub fn optional_make_native(frame: &mut Frame, jvm: &mut Jvm, of: bool) -> (r: Result<(), JvmError>)
    ensures
        same_but_heap(*old(jvm), *final(jvm)),
        outcome(*old(frame), old(jvm).hv(), *final(frame), final(jvm).hv(), r, optional_make(*old(frame), old(jvm).hv(), of)),
{
    proof {
        crate::natives::common::lemma_popped_zero(*old(frame));
    }
    let v = if of {
        pop1(frame)?
    } else {
        Value::Null
    };
    let ghost h0 = jvm.hv();
    let o = jvm.allocate(HeapObject::new(String::from_str("java.util.Optional")));
    jvm.set_field(Value::ObjectRef(o), "value", v);
    assert(jvm.hv() =~= h0.push(ObjectView::plain("java.util.Optional"@).with_field("value"@, v)));
    frame.push(Value::ObjectRef(o));
    Ok(())
}

/// The receiver's `value` field, when the receiver is a live object and has it.
pub open spec fn optional_value(f: Frame, h: Seq<ObjectView>) -> Option<Value> {
    match this_of(f) {
        Value::ObjectRef(id) => field_of(h, id, "value"@),
        _ => None,
    }
}

fn optional_value_exec(jvm: &Jvm, this: Value) -> (r: Option<Value>)
    ensures
        r == match this {
            Value::ObjectRef(id) => field_of(jvm.hv(), id, "value"@),
            _ => None,
        },
{
    match this {
        Value::ObjectRef(id) => get_field_of(jvm, id, "value"),
        _ => None,
    }
}

/// `isPresent()` (kind 0): the value is set and not `null`; `get()` (kind 1): the value,
/// or `Null`.
pub open spec fn optional_query(f: Frame, h: Seq<ObjectView>, get: bool) -> Effect {
    if local_missing(f, 0) {
        Err(local_error())
    } else if get {
        Ok((h, 0, Some(match optional_value(f, h) {
            Some(v) => v,
            None => Value::Null,
        })))
    } else {
        Ok((h, 0, Some(Value::Boolean(match optional_value(f, h) {
            Some(v) => v != Value::Null,
            None => false,
        }))))
    }
}

pub fn optional_query_native(frame: &mut Frame, jvm: &mut Jvm, get: bool) -> (r: Result<(), JvmError>)
    ensures
        *final(jvm) == *old(jvm),
        outcome(*old(frame), old(jvm).hv(), *final(frame), final(jvm).hv(), r, optional_query(*old(frame), old(jvm).hv(), get)),
{
    let this = frame.get_local(0)?;
    proof {
        crate::natives::common::lemma_popped_zero(*old(frame));
    }
    let v = optional_value_exec(jvm, this);
    if get {
        frame.push(match v {
            Some(x) => x,
            None => Value::Null,
        });
    } else {
        frame.push(Value::Boolean(match v {
            Some(x) => x != Value::Null,
            None => false,
        }));
    }
    Ok(())
}

/// `orElse(other)`: the value when it is set and not `null`, else `other`.
pub open spec fn optional_or_else(f: Frame, h: Seq<ObjectView>) -> Effect {
    if f.stack@.len() == 0 {
        Err(underflow_error())
    } else if local_missing(f, 0) {
        Err(local_error())
    } else {
        Ok((h, 1, Some(match optional_value(f, h) {
            Some(v) => if v != Value::Null {
                v
            } else {
                top(f, 0)
            },
            None => top(f, 0),
        })))
    }
}

pub fn optional_or_else_native(frame: &mut Frame, jvm: &mut Jvm) -> (r: Result<(), JvmError>)
    ensures
        *final(jvm) == *old(jvm),
        outcome(*old(frame), old(jvm).hv(), *final(frame), final(jvm).hv(), r, optional_or_else(*old(frame), old(jvm).hv())),
{
    let (this, other) = crate::natives::common::pop1_this(frame)?;
    let v = optional_value_exec(jvm, this);
    frame.push(match v {
        Some(x) => if x != Value::Null {
            x
        } else {
            other
        },
        None => other,
    });
    Ok(())
}

// ---------- java.util.Arrays ----------

/// `Arrays.asList(a)`: a new `Arrays$ArrayList` whose `elementData` is the argument
/// and whose size is 0, after an unused empty array.
pub open spec fn arrays_as_list(f: Frame, h: Seq<ObjectView>) -> Effect {
    if f.stack@.len() == 0 {
        Err(underflow_error())
    } else {
        let h1 = h.push(ObjectView::plain("java.util.Arrays$ArrayList"@)).push(
            ObjectView::array_obj("[Ljava/lang/Object;"@, Seq::<Value>::empty()),
        );
        Ok((
            heap_set_field(heap_set_field(h1, new_ref(h), "elementData"@, top(f, 0)), new_ref(h), "size"@, Value::Int(0)),
            1,
            Some(new_ref(h)),
        ))
    }
}

pub fn arrays_as_list_native(frame: &mut Frame, jvm: &mut Jvm) -> (r: Result<(), JvmError>)
    ensures
        same_but_heap(*old(jvm), *final(jvm)),
        outcome(*old(frame), old(jvm).hv(), *final(frame), final(jvm).hv(), r, arrays_as_list(*old(frame), old(jvm).hv())),
{
    let a = pop1(frame)?;
    let l = jvm.allocate(HeapObject::new(String::from_str("java.util.Arrays$ArrayList")));
    let _unused = jvm.allocate(HeapObject::new_array(String::from_str("[Ljava/lang/Object;"), 0));
    proof {
        assert(nulls(0) =~= Seq::<Value>::empty());
        assert(Seq::new(0, |i: int| Value::Null) =~= Seq::<Value>::empty());
    }
    jvm.set_field(Value::ObjectRef(l), "elementData", a);
    jvm.set_field(Value::ObjectRef(l), "size", Value::Int(0));
    frame.push(Value::ObjectRef(l));
    Ok(())
}

/// The elements of the array `v` refers to, if it refers to one.
pub open spec fn array_arg(h: Seq<ObjectView>, v: Value) -> Option<Seq<Value>> {
    match v {
        Value::ArrayRef(a) => array_of(h, a),
        _ => None,
    }
}

fn array_arg_exec<'a>(jvm: &'a Jvm, v: Value) -> (r: Option<&'a Vec<Value>>)
    ensures
        match r {
            Some(e) => array_arg(jvm.hv(), v) == Some(e@),
            None => array_arg(jvm.hv(), v) is None,
        },
{
    match v {
        Value::ArrayRef(a) => array_elems(jvm, a),
        _ => None,
    }
}

/// `Arrays.sort(a)`: the array's elements are put in the natural order (by
/// `sort_key`, equal keys keeping their order); `null` or no array fails with
/// `NullPointerException`.
pub open spec fn arrays_sort(f: Frame, h: Seq<ObjectView>) -> Effect {
    if f.stack@.len() == 0 {
        Err(underflow_error())
    } else {
        match (top(f, 0), array_arg(h, top(f, 0))) {
            (Value::ArrayRef(a), Some(e)) => Ok((heap_with_array(h, a, bubble(e, e.len() as int, 0)), 1, None)),
            _ => Err(JvmError::RuntimeError(RuntimeError::NullPointerException)),
        }
    }
}

pub fn arrays_sort_native(frame: &mut Frame, jvm: &mut Jvm) -> (r: Result<(), JvmError>)
    ensures
        same_but_heap(*old(jvm), *final(jvm)),
        outcome(*old(frame), old(jvm).hv(), *final(frame), final(jvm).hv(), r, arrays_sort(*old(frame), old(jvm).hv())),
{
    let a = pop1(frame)?;
    let sorted = match array_arg_exec(jvm, a) {
        Some(e) => sorted_copy(e, e.len()),
        None => {
            return Err(JvmError::RuntimeError(RuntimeError::NullPointerException));
        },
    };
    if let Value::ArrayRef(id) = a {
        let ghost h = jvm.hv();
        jvm.set_array(id, sorted);
        proof {
            assert(jvm.hv() =~= heap_with_array(h, id, bubble(array_of(h, id)->0, array_of(h, id)->0.len() as int, 0)));
        }
    }
    Ok(())
}

/// Whether the elements of `e` are in the order of their sort keys.
pub open spec fn keys_sorted(e: Seq<Value>) -> bool {
    forall|i: int, j: int| 0 <= i <= j < e.len() ==> sort_key(#[trigger] e[i]) <= sort_key(#[trigger] e[j])
}

/// What `Arrays.binarySearch` answers for the key `kk` on `e`: the index of an element
/// with that key, or `-p - 1` for an insertion point `p`; on elements in order the
/// elements before `p` have smaller keys and those from `p` on larger ones.
pub open spec fn search_answer(e: Seq<Value>, kk: i64, r: int) -> bool {
    if r >= 0 {
        r < e.len() && sort_key(e[r]) == kk
    } else {
        let p = -r - 1;
        &&& 0 <= p <= e.len()
        &&& keys_sorted(e) ==> (forall|j: int| 0 <= j < p ==> sort_key(#[trigger] e[j]) < kk)
            && (forall|j: int| p <= j < e.len() ==> sort_key(#[trigger] e[j]) > kk)
    }
}

/// `Arrays.binarySearch(a, key)`: the array is searched by halving for an element
/// whose sort key is the key's (see `search_answer`); `null` or no array fails with
/// `NullPointerException`.
pub fn arrays_binary_search_native(frame: &mut Frame, jvm: &mut Jvm) -> (r: Result<(), JvmError>)
    ensures
        *final(jvm) == *old(jvm),
        final(frame).locals@ == old(frame).locals@,
        r is Err ==> crate::natives::common::failed_frame(*old(frame), *final(frame)),
        old(frame).stack@.len() < 2 ==> r == Err::<(), JvmError>(underflow_error()),
        old(frame).stack@.len() >= 2 ==> match array_arg(old(jvm).hv(), top(*old(frame), 1)) {
            Some(e) => r == Ok::<(), JvmError>(()) && final(frame).stack@.len() == old(frame).stack@.len() - 1
                && final(frame).stack@.drop_last() == popped(*old(frame), 2)
                && final(frame).stack@.last() is Int
                && (e.len() < 0x7fff_ffff ==> search_answer(e, sort_key(top(*old(frame), 0)),
                    final(frame).stack@.last()->Int_0 as int)),
            None => r == Err::<(), JvmError>(JvmError::RuntimeError(RuntimeError::NullPointerException)),
        },
{
    let (a, key) = pop2(frame)?;
    let e = match array_arg_exec(jvm, a) {
        Some(e) => e,
        None => {
            return Err(JvmError::RuntimeError(RuntimeError::NullPointerException));
        },
    };
    let kk = sort_key_exec(key);
    let n = e.len();
    let mut lo: usize = 0;
    let mut hi: usize = n;
    let mut found: Option<usize> = None;
    while lo < hi
        invariant_except_break
            found is None,
        invariant
            lo <= hi <= n,
            n == e@.len(),
            keys_sorted(e@) ==> (forall|j: int| 0 <= j < lo ==> sort_key(#[trigger] e@[j]) < kk),
            keys_sorted(e@) ==> (forall|j: int| hi <= j < n ==> sort_key(#[trigger] e@[j]) > kk),
        ensures
            match found {
                Some(m) => m < n && sort_key(e@[m as int]) == kk,
                None => lo == hi,
            },
        decreases hi - lo,
    {
        let mid = lo + (hi - lo) / 2;
        let km = sort_key_exec(e[mid]);
        if km < kk {
            lo = mid + 1;
        } else if km > kk {
            hi = mid;
        } else {
            found = Some(mid);
            break;
        }
    }
    let answer: i32 = match found {
        Some(m) => m as i32,
        None => if lo < 0x7fff_ffff {
            -(lo as i32) - 1
        } else {
            i32::MIN
        },
    };
    frame.push(Value::Int(answer));
    Ok(())
}

/// `Arrays.copyOf(a, n)`: a new array of the same class with `max(n, 1)` slots (n read
/// as an `int`, negative as 0) holding the first elements of `a`, the rest `Null`;
/// `Null` when `a` is no live array reference.
pub open spec fn arrays_copy_of(f: Frame, h: Seq<ObjectView>) -> Effect {
    if f.stack@.len() < 2 {
        Err(underflow_error())
    } else {
        let n = spec_as_int(top(f, 0));
        let len: nat = if n <= 0 {
            0
        } else {
            n as nat
        };
        match top(f, 1) {
            Value::ArrayRef(id) => if id < h.len() {
                let src = match h[id as int].array {
                    Some(e) => e,
                    None => Seq::<Value>::empty(),
                };
                let cap: nat = if len < 1 {
                    1
                } else {
                    len
                };
                let elems = Seq::new(cap, |i: int| if i < len && i < src.len() { src[i] } else { Value::Null });
                Ok((h.push(ObjectView::array_obj(h[id as int].class_name, elems)), 2, Some(Value::ArrayRef(h.len() as usize))))
            } else {
                Ok((h, 2, Some(Value::Null)))
            },
            _ => Ok((h, 2, Some(Value::Null))),
        }
    }
}

pub fn arrays_copy_of_native(frame: &mut Frame, jvm: &mut Jvm) -> (r: Result<(), JvmError>)
    ensures
        same_but_heap(*old(jvm), *final(jvm)),
        outcome(*old(frame), old(jvm).hv(), *final(frame), final(jvm).hv(), r, arrays_copy_of(*old(frame), old(jvm).hv())),
{
    let (orig, nv) = pop2(frame)?;
    let n = nv.as_int();
    let len: usize = if n <= 0 {
        0
    } else {
        n as usize
    };
    if let Value::ArrayRef(id) = orig {
        if id < jvm.heap.len() {
            let cap: usize = if len < 1 {
                1
            } else {
                len
            };
            let ghost src = match jvm.hv()[id as int].array {
                Some(e) => e,
                None => Seq::<Value>::empty(),
            };
            let mut elems: Vec<Value> = Vec::new();
            let mut i: usize = 0;
            while i < cap
                invariant
                    i <= cap,
                    id < jvm.heap@.len(),
                    src == match jvm.hv()[id as int].array {
                        Some(e) => e,
                        None => Seq::<Value>::empty(),
                    },
                    elems@ == Seq::new(cap as nat, |k: int| if k < len && k < src.len() { src[k] } else { Value::Null }).take(i as int),
                decreases cap - i,
            {
                let x = match &jvm.heap[id].array_elements {
                    Some(e) => if i < len && i < e.len() {
                        e[i]
                    } else {
                        Value::Null
                    },
                    None => Value::Null,
                };
                elems.push(x);
                i += 1;
                assert(elems@ =~= Seq::new(cap as nat, |k: int| if k < len && k < src.len() { src[k] } else { Value::Null }).take(i as int));
            }
            assert(elems@ =~= Seq::new(cap as nat, |k: int| if k < len && k < src.len() { src[k] } else { Value::Null }));
            let cls = jvm.heap[id].class_name.clone();
            let r = jvm.allocate(HeapObject::new_array_of(cls, elems));
            frame.push(Value::ArrayRef(r));
            return Ok(());
        }
    }
    frame.push(Value::Null);
    Ok(())
}

/// `Arrays.fill(a, x)`: every slot of the array `a` refers to becomes `x`.
pub open spec fn arrays_fill(f: Frame, h: Seq<ObjectView>) -> Effect {
    if f.stack@.len() < 2 {
        Err(underflow_error())
    } else {
        let x = top(f, 0);
        match top(f, 1) {
            Value::ArrayRef(id) => match array_of(h, id) {
                Some(e) => Ok((h.update(id as int, h[id as int].with_array(Seq::new(e.len(), |i: int| x))), 2, None)),
                None => Ok((h, 2, None)),
            },
            _ => Ok((h, 2, None)),
        }
    }
}

pub fn arrays_fill_native(frame: &mut Frame, jvm: &mut Jvm) -> (r: Result<(), JvmError>)
    ensures
        same_but_heap(*old(jvm), *final(jvm)),
        outcome(*old(frame), old(jvm).hv(), *final(frame), final(jvm).hv(), r, arrays_fill(*old(frame), old(jvm).hv())),
{
    let (a, x) = pop2(frame)?;
    if let Value::ArrayRef(id) = a {
        let len = match array_elems(jvm, id) {
            Some(e) => e.len(),
            None => {
                return Ok(());
            },
        };
        let mut v: Vec<Value> = Vec::new();
        let mut i: usize = 0;
        while i < len
            invariant
                i <= len,
                v@ == Seq::new(i as nat, |k: int| x),
            decreases len - i,
        {
            v.push(x);
            i += 1;
            assert(v@ =~= Seq::new(i as nat, |k: int| x));
        }
        jvm.set_array(id, v);
    }
    Ok(())
}

/// `Objects.equals` is reflexive and symmetric: a value equals itself, and swapping
/// the two arguments does not change the answer; two different non-string objects
/// are not equal, and `null` equals only `null`.
pub proof fn law_objects_equals(f: Frame, g: Frame, h: Seq<ObjectView>)
    requires
        f.stack@.len() >= 2,
        g.stack@.len() >= 2,
        top(g, 0) == top(f, 1),
        top(g, 1) == top(f, 0),
    ensures
        objects_equals(f, h) is Ok,
        objects_equals(f, h)->Ok_0.2 == objects_equals(g, h)->Ok_0.2,
        top(f, 0) == top(f, 1) ==> objects_equals(f, h)->Ok_0.2 == Some(Value::Boolean(true)),
        top(f, 1) == Value::Null ==> objects_equals(f, h)->Ok_0.2 == Some(Value::Boolean(top(f, 0) == Value::Null)),
        (top(f, 1) matches Value::ObjectRef(x) && crate::natives::common::string_of(h, x) is None && top(f, 0) != top(f, 1))
            ==> objects_equals(f, h)->Ok_0.2 == Some(Value::Boolean(false)),
{
}

/// What `Optional.of(x)` and `Optional.empty()` make reads back: on the new object
/// `get()` gives `x` (`null` for an empty one), `isPresent()` tells whether `x` is
/// not `null`, and `orElse(y)` gives `x` when it is present and `y` otherwise.
pub proof fn law_optional_round_trip(f: Frame, h: Seq<ObjectView>, of: bool, g: Frame)
    requires
        of ==> f.stack@.len() >= 1,
        g.locals@.len() >= 1,
        g.stack@.len() >= 1,
        g.locals@[0] matches Value::ObjectRef(k) && k == h.len(),
    ensures
        ({
            let r = optional_make(f, h, of);
            let h1 = r->Ok_0.0;
            let x = if of { top(f, 0) } else { Value::Null };
            &&& r is Ok
            &&& r->Ok_0.2 == Some(new_ref(h))
            &&& h1.len() == h.len() + 1
            &&& h1.subrange(0, h.len() as int) == h
            &&& optional_query(g, h1, true) == Ok::<(Seq<ObjectView>, nat, Option<Value>), JvmError>((h1, 0, Some(x)))
            &&& optional_query(g, h1, false) == Ok::<(Seq<ObjectView>, nat, Option<Value>), JvmError>((h1, 0, Some(Value::Boolean(x != Value::Null))))
            &&& optional_or_else(g, h1) == Ok::<(Seq<ObjectView>, nat, Option<Value>), JvmError>((h1, 1, Some(if x != Value::Null { x } else { top(g, 0) })))
        }),
{
    let r = optional_make(f, h, of);
    let h1 = r->Ok_0.0;
    let x = if of { top(f, 0) } else { Value::Null };
    let o = ObjectView::plain("java.util.Optional"@).with_field("value"@, x);
    assert(h1 == h.push(o));
    assert(o.get("value"@) == Some(x));
    assert(optional_value(g, h1) == Some(x));
    assert(h1.subrange(0, h.len() as int) =~= h);
}

} // verus!
