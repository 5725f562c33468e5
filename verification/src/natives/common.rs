use vstd::prelude::*;
use crate::runtime::error::{JvmError, RuntimeError};
use crate::runtime::frame::{local_error, underflow_error, Frame};
use crate::runtime::heap::{HeapObject, ObjectView};
use crate::runtime::jvm::Jvm;
use crate::runtime::value::Value;

verus! {

/// The object with reference number `id`, if the heap has one there.
pub open spec fn obj_at(h: Seq<ObjectView>, id: usize) -> Option<ObjectView> {
    if id < h.len() {
        Some(h[id as int])
    } else {
        None
    }
}

/// Field `name` of object `id`.
pub open spec fn field_of(h: Seq<ObjectView>, id: usize, name: Seq<char>) -> Option<Value> {
    match obj_at(h, id) {
        Some(o) => o.get(name),
        None => None,
    }
}

/// Field `name` of object `id` read as an `int`, or `d` when it is absent or not an `int`.
pub open spec fn int_field_or(h: Seq<ObjectView>, id: usize, name: Seq<char>, d: i32) -> i32 {
    match field_of(h, id, name) {
        Some(Value::Int(s)) => s,
        _ => d,
    }
}

/// Field `name` of object `id` read as an array reference, or 0.
pub open spec fn aref_field(h: Seq<ObjectView>, id: usize, name: Seq<char>) -> usize {
    match field_of(h, id, name) {
        Some(Value::ArrayRef(a)) => a,
        _ => 0,
    }
}

/// The elements of object `id`, if it is an array.
pub open spec fn array_of(h: Seq<ObjectView>, id: usize) -> Option<Seq<Value>> {
    match obj_at(h, id) {
        Some(o) => o.array,
        None => None,
    }
}

/// The text of object `id`, if it is a string.
pub open spec fn string_of(h: Seq<ObjectView>, id: usize) -> Option<Seq<char>> {
    match obj_at(h, id) {
        Some(o) => o.string,
        None => None,
    }
}

/// Equality as the collections compare elements and keys: the same reference,
/// two strings with the same text, or equal plain values.
pub open spec fn values_equal(h: Seq<ObjectView>, a: Value, b: Value) -> bool {
    match a {
        Value::ObjectRef(x) => match b {
            Value::ObjectRef(y) => x == y || (string_of(h, x) is Some && string_of(h, x)
                == string_of(h, y)),
            _ => false,
        },
        _ => a == b,
    }
}

/// The first position `i` with `from <= i < n` whose element equals `key`.
pub open spec fn first_equal(h: Seq<ObjectView>, e: Seq<Value>, key: Value, from: int, n: int) -> Option<int>
    decreases n - from,
{
    if from >= n || from >= e.len() || from < 0 {
        None
    } else if values_equal(h, e[from], key) {
        Some(from)
    } else {
        first_equal(h, e, key, from + 1, n)
    }
}

/// The first element of `e` equal to `key`, looking at every slot.
pub open spec fn index_of(h: Seq<ObjectView>, e: Seq<Value>, key: Value) -> Option<int> {
    first_equal(h, e, key, 0, e.len() as int)
}

pub open spec fn npe() -> JvmError {
    JvmError::RuntimeError(RuntimeError::NullPointerException)
}

/// `old` with its top `n` operand-stack values removed.
pub open spec fn popped(old: Frame, n: nat) -> Seq<Value> {
    old.stack@.subrange(0, old.stack@.len() - n)
}

/// The `k`-th value from the top of the operand stack (0 is the top).
pub open spec fn top(f: Frame, k: nat) -> Value {
    f.stack@[f.stack@.len() - 1 - k]
}

pub proof fn lemma_first_equal_bounds(h: Seq<ObjectView>, e: Seq<Value>, key: Value, from: int, n: int)
    requires
        0 <= from,
    ensures
        match first_equal(h, e, key, from, n) {
            Some(i) => from <= i < n && i < e.len() && values_equal(h, e[i], key) && forall|j: int|
                from <= j < i ==> !values_equal(h, #[trigger] e[j], key),
            None => forall|j: int|
                from <= j < n && j < e.len() ==> !values_equal(h, #[trigger] e[j], key),
        },
    decreases n - from,
{
    if from >= n || from >= e.len() {
    } else if !values_equal(h, e[from], key) {
        lemma_first_equal_bounds(h, e, key, from + 1, n);
    }
}


/// The error a call that pops `n` arguments and then reads `this` from local 0
/// meets first, if any.
pub open spec fn call_error(f: Frame, n: nat) -> Option<JvmError> {
    if f.stack@.len() < n {
        Some(underflow_error())
    } else if f.locals@.len() == 0 {
        Some(local_error())
    } else {
        None
    }
}

/// The receiver of an instance call: local 0.
pub open spec fn this_of(f: Frame) -> Value {
    f.locals@[0]
}

/// The call popped `n` values and pushed `v`; the locals are untouched.
pub open spec fn returned(old: Frame, new: Frame, n: nat, v: Value) -> bool {
    new.locals@ == old.locals@ && new.stack@ == popped(old, n).push(v)
}

/// The call popped `n` values and pushed nothing; the locals are untouched.
pub open spec fn returned_void(old: Frame, new: Frame, n: nat) -> bool {
    new.locals@ == old.locals@ && new.stack@ == popped(old, n)
}


/// The frame after a failed call: the locals are untouched and the operand stack is
/// what it was with some values popped and nothing pushed.
pub open spec fn failed_frame(old: Frame, new: Frame) -> bool {
    &&& new.locals@ == old.locals@
    &&& new.stack@.len() <= old.stack@.len()
    &&& forall|i: int| 0 <= i < new.stack@.len() ==> #[trigger] new.stack@[i] == old.stack@[i]
}

/// The frame after a call that popped `n` values and pushed `v` (if any).
pub open spec fn answered(old: Frame, new: Frame, n: nat, v: Option<Value>) -> bool {
    match v {
        Some(x) => returned(old, new, n, x),
        None => returned_void(old, new, n),
    }
}

/// What a native instance method does that pops `n` arguments and then reads its
/// receiver from local 0: it fails with the first error met (heap unchanged); for a
/// receiver `ObjectRef(id)` naming an object it leaves the heap and the pushed value
/// that `live(id)` gives; for a reference to no object it fails with
/// `NullPointerException` when `npe_on_dangling`, and otherwise, like for any
/// receiver that is no object reference, leaves the heap alone and pushes `other`.
pub open spec fn instance_outcome(
    f0: Frame,
    h0: Seq<ObjectView>,
    f1: Frame,
    h1: Seq<ObjectView>,
    r: Result<(), JvmError>,
    n: nat,
    live: spec_fn(usize) -> (Seq<ObjectView>, Option<Value>),
    npe_on_dangling: bool,
    other: Option<Value>,
) -> bool {
    match call_error(f0, n) {
        Some(e) => r == Err::<(), JvmError>(e) && h1 == h0 && failed_frame(f0, f1),
        None => match this_of(f0) {
            Value::ObjectRef(id) => if id < h0.len() {
                r == Ok::<(), JvmError>(()) && answered(f0, f1, n, live(id).1) && h1 == live(id).0
            } else if npe_on_dangling {
                r == Err::<(), JvmError>(npe()) && h1 == h0 && failed_frame(f0, f1)
            } else {
                r == Ok::<(), JvmError>(()) && answered(f0, f1, n, other) && h1 == h0
            },
            _ => r == Ok::<(), JvmError>(()) && answered(f0, f1, n, other) && h1 == h0,
        },
    }
}


/// Field `name` of object `id` read as an object reference, or 0.
pub open spec fn oref_field(h: Seq<ObjectView>, id: usize, name: Seq<char>) -> usize {
    match field_of(h, id, name) {
        Some(Value::ObjectRef(a)) => a,
        _ => 0,
    }
}

/// Field `name` of object `id` as an object reference, or 0.
pub fn read_oref_field(jvm: &Jvm, id: usize, name: &str) -> (r: usize)
    ensures
        r == oref_field(jvm.hv(), id, name@),
{
    match get_field_of(jvm, id, name) {
        Some(Value::ObjectRef(a)) => a,
        _ => 0,
    }
}

/// Like `instance_outcome`, where the live case may itself fail.
pub open spec fn instance_outcome_or_err(
    f0: Frame,
    h0: Seq<ObjectView>,
    f1: Frame,
    h1: Seq<ObjectView>,
    r: Result<(), JvmError>,
    n: nat,
    live: spec_fn(usize) -> Result<(Seq<ObjectView>, Option<Value>), JvmError>,
    npe_on_dangling: bool,
    other: Option<Value>,
) -> bool {
    match call_error(f0, n) {
        Some(e) => r == Err::<(), JvmError>(e) && h1 == h0 && failed_frame(f0, f1),
        None => match this_of(f0) {
            Value::ObjectRef(id) => if id < h0.len() {
                match live(id) {
                    Ok(x) => r == Ok::<(), JvmError>(()) && answered(f0, f1, n, x.1) && h1 == x.0,
                    Err(e) => r == Err::<(), JvmError>(e) && h1 == h0 && failed_frame(f0, f1),
                }
            } else if npe_on_dangling {
                r == Err::<(), JvmError>(npe()) && h1 == h0 && failed_frame(f0, f1)
            } else {
                r == Ok::<(), JvmError>(()) && answered(f0, f1, n, other) && h1 == h0
            },
            _ => r == Ok::<(), JvmError>(()) && answered(f0, f1, n, other) && h1 == h0,
        },
    }
}


/// What a native call leaves: the heap, how many operand-stack values it popped and
/// what it pushed, or the error it failed with.
pub type Effect = Result<(Seq<ObjectView>, nat, Option<Value>), JvmError>;

/// The call ended as `e` says: on success the heap is `e`'s heap and the frame popped
/// and pushed what `e` says; on failure the error is `e`'s and the heap is unchanged.
pub open spec fn outcome(f0: Frame, h0: Seq<ObjectView>, f1: Frame, h1: Seq<ObjectView>, r: Result<(), JvmError>, e: Effect) -> bool {
    match e {
        Ok(x) => r == Ok::<(), JvmError>(()) && answered(f0, f1, x.1, x.2) && h1 == x.0,
        Err(err) => r == Err::<(), JvmError>(err) && h1 == h0 && failed_frame(f0, f1),
    }
}

/// The error of reading local `i`, if there is no such local.
pub open spec fn local_missing(f: Frame, i: nat) -> bool {
    f.locals@.len() <= i
}

/// Pops one value (the static argument convention of some natives).
pub fn pop1(frame: &mut Frame) -> (r: Result<Value, JvmError>)
    ensures
        failed_frame(*old(frame), *final(frame)),
        final(frame).locals@ == old(frame).locals@,
        old(frame).stack@.len() == 0 ==> r == Err::<Value, JvmError>(underflow_error()),
        old(frame).stack@.len() > 0 ==> r == Ok::<Value, JvmError>(top(*old(frame), 0))
            && final(frame).stack@ == popped(*old(frame), 1),
{
    let v = frame.pop()?;
    assert(frame.stack@ =~= popped(*old(frame), 1));
    Ok(v)
}

/// Pops two values; the top one is returned second.
pub fn pop2(frame: &mut Frame) -> (r: Result<(Value, Value), JvmError>)
    ensures
        failed_frame(*old(frame), *final(frame)),
        final(frame).locals@ == old(frame).locals@,
        old(frame).stack@.len() < 2 ==> r == Err::<(Value, Value), JvmError>(underflow_error()),
        old(frame).stack@.len() >= 2 ==> r == Ok::<(Value, Value), JvmError>((top(*old(frame), 1), top(*old(frame), 0)))
            && final(frame).stack@ == popped(*old(frame), 2),
{
    let b = frame.pop()?;
    let a = frame.pop()?;
    assert(frame.stack@ =~= popped(*old(frame), 2));
    Ok((a, b))
}

pub proof fn lemma_popped_zero(f: Frame)
    ensures
        popped(f, 0) == f.stack@,
{
    assert(popped(f, 0) =~= f.stack@);
}

/// Pops one argument, then reads `this` from local 0.
pub fn pop1_this(frame: &mut Frame) -> (r: Result<(Value, Value), JvmError>)
    ensures
        failed_frame(*old(frame), *final(frame)),
        final(frame).locals@ == old(frame).locals@,
        match call_error(*old(frame), 1) {
            Some(e) => r == Err::<(Value, Value), JvmError>(e),
            None => r == Ok::<(Value, Value), JvmError>((this_of(*old(frame)), top(*old(frame), 0)))
                && final(frame).stack@ == popped(*old(frame), 1),
        },
{
    let a = frame.pop()?;
    let this = frame.get_local(0)?;
    assert(frame.stack@ =~= popped(*old(frame), 1));
    Ok((this, a))
}

/// Pops two arguments (the top one is returned second), then reads `this`.
pub fn pop2_this(frame: &mut Frame) -> (r: Result<(Value, Value, Value), JvmError>)
    ensures
        failed_frame(*old(frame), *final(frame)),
        final(frame).locals@ == old(frame).locals@,
        match call_error(*old(frame), 2) {
            Some(e) => r == Err::<(Value, Value, Value), JvmError>(e),
            None => r == Ok::<(Value, Value, Value), JvmError>(
                (this_of(*old(frame)), top(*old(frame), 1), top(*old(frame), 0)),
            ) && final(frame).stack@ == popped(*old(frame), 2),
        },
{
    let b = frame.pop()?;
    let a = frame.pop()?;
    let this = frame.get_local(0)?;
    assert(frame.stack@ =~= popped(*old(frame), 2));
    Ok((this, a, b))
}

/// Pops three arguments (the top one is returned last), then reads `this`.
pub fn pop3_this(frame: &mut Frame) -> (r: Result<(Value, Value, Value, Value), JvmError>)
    ensures
        failed_frame(*old(frame), *final(frame)),
        final(frame).locals@ == old(frame).locals@,
        match call_error(*old(frame), 3) {
            Some(e) => r == Err::<(Value, Value, Value, Value), JvmError>(e),
            None => r == Ok::<(Value, Value, Value, Value), JvmError>(
                (this_of(*old(frame)), top(*old(frame), 2), top(*old(frame), 1), top(*old(frame), 0)),
            ) && final(frame).stack@ == popped(*old(frame), 3),
        },
{
    let c = frame.pop()?;
    let b = frame.pop()?;
    let a = frame.pop()?;
    let this = frame.get_local(0)?;
    assert(frame.stack@ =~= popped(*old(frame), 3));
    Ok((this, a, b, c))
}

/// Reads `this` from local 0 without popping anything.
pub fn this0(frame: &Frame) -> (r: Result<Value, JvmError>)
    ensures
        match call_error(*frame, 0) {
            Some(e) => r == Err::<Value, JvmError>(e),
            None => r == Ok::<Value, JvmError>(this_of(*frame)),
        },
{
    frame.get_local(0)
}

/// Searching past the end of `e` finds what searching to its end finds.
pub proof fn lemma_first_equal_cap(h: Seq<ObjectView>, e: Seq<Value>, key: Value, from: int, n: int)
    requires
        n >= e.len(),
    ensures
        first_equal(h, e, key, from, n) == first_equal(h, e, key, from, e.len() as int),
    decreases e.len() - from,
{
    if from < 0 || from >= e.len() {
    } else if !values_equal(h, e[from], key) {
        lemma_first_equal_cap(h, e, key, from + 1, n);
    }
}

/// The characters of `a` and `b` are the same.
pub fn chars_eq(a: &Vec<char>, b: &Vec<char>) -> (r: bool)
    ensures
        r == (a@ == b@),
{
    if a.len() != b.len() {
        return false;
    }
    let mut i: usize = 0;
    while i < a.len()
        invariant
            i <= a@.len(),
            a@.len() == b@.len(),
            forall|j: int| 0 <= j < i ==> a@[j] == b@[j],
        decreases a@.len() - i,
    {
        if a[i] != b[i] {
            return false;
        }
        i += 1;
    }
    assert(a@ =~= b@);
    true
}

/// The object with reference number `id`.
pub fn object(jvm: &Jvm, id: usize) -> (r: Option<&HeapObject>)
    ensures
        match r {
            Some(o) => obj_at(jvm.hv(), id) == Some(o@),
            None => obj_at(jvm.hv(), id) is None,
        },
{
    if id < jvm.heap.len() {
        Some(&jvm.heap[id])
    } else {
        None
    }
}

/// Field `name` of object `id`.
pub fn get_field_of(jvm: &Jvm, id: usize, name: &str) -> (r: Option<Value>)
    ensures
        r == field_of(jvm.hv(), id, name@),
{
    match object(jvm, id) {
        Some(o) => {
            let r = o.get_field(name);
            proof {
                crate::runtime::heap::lemma_field_map_get(o.fields@, name@);
            }
            r
        },
        None => None,
    }
}

/// Field `name` of object `id` as an `int`, or `d`.
pub fn read_int_field(jvm: &Jvm, id: usize, name: &str, d: i32) -> (r: i32)
    ensures
        r == int_field_or(jvm.hv(), id, name@, d),
{
    match get_field_of(jvm, id, name) {
        Some(Value::Int(s)) => s,
        _ => d,
    }
}

/// Field `name` of object `id` as an array reference, or 0.
pub fn read_aref_field(jvm: &Jvm, id: usize, name: &str) -> (r: usize)
    ensures
        r == aref_field(jvm.hv(), id, name@),
{
    match get_field_of(jvm, id, name) {
        Some(Value::ArrayRef(a)) => a,
        _ => 0,
    }
}

/// The elements of object `id`, if it is an array.
pub fn array_elems(jvm: &Jvm, id: usize) -> (r: Option<&Vec<Value>>)
    ensures
        match r {
            Some(a) => array_of(jvm.hv(), id) == Some(a@),
            None => array_of(jvm.hv(), id) is None,
        },
{
    match object(jvm, id) {
        Some(o) => match &o.array_elements {
            Some(a) => Some(a),
            None => None,
        },
        None => None,
    }
}

/// The text of object `id`, if it is a string.
pub fn string_elems(jvm: &Jvm, id: usize) -> (r: Option<&Vec<char>>)
    ensures
        match r {
            Some(s) => string_of(jvm.hv(), id) == Some(s@),
            None => string_of(jvm.hv(), id) is None,
        },
{
    match object(jvm, id) {
        Some(o) => match &o.string_value {
            Some(s) => Some(s),
            None => None,
        },
        None => None,
    }
}

/// Element and key equality of the collections.
pub fn values_equal_exec(jvm: &Jvm, a: Value, b: Value) -> (r: bool)
    ensures
        r == values_equal(jvm.hv(), a, b),
{
    match a {
        Value::ObjectRef(x) => match b {
            Value::ObjectRef(y) => {
                if x == y {
                    return true;
                }
                match string_elems(jvm, x) {
                    Some(sa) => match string_elems(jvm, y) {
                        Some(sb) => chars_eq(sa, sb),
                        None => false,
                    },
                    None => false,
                }
            },
            _ => false,
        },
        _ => a == b,
    }
}

/// The first position before `n` whose element equals `key`.
pub fn find_equal(jvm: &Jvm, e: &Vec<Value>, key: Value, n: usize) -> (r: Option<usize>)
    ensures
        match r {
            Some(i) => first_equal(jvm.hv(), e@, key, 0, n as int) == Some(i as int),
            None => first_equal(jvm.hv(), e@, key, 0, n as int) is None,
        },
{
    let mut i: usize = 0;
    while i < n && i < e.len()
        invariant
            first_equal(jvm.hv(), e@, key, 0, n as int) == first_equal(jvm.hv(), e@, key, i as int, n as int),
        decreases e@.len() - i,
    {
        if values_equal_exec(jvm, e[i], key) {
            return Some(i);
        }
        i += 1;
    }
    None
}

} // verus!
