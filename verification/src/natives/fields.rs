use vstd::prelude::*;
use crate::natives::common::{field_of, get_field_of, local_missing, outcome, pop1, this_of, Effect};
use crate::runtime::error::JvmError;
use crate::runtime::frame::{local_error, underflow_error, Frame};
use crate::runtime::heap::ObjectView;
use crate::runtime::jvm::{heap_set_field, same_but_heap, Jvm};
use crate::runtime::value::{spec_as_bool, spec_as_int, spec_as_long, Value};

verus! {

/// How a native reads its argument into a field: as an `int` (kind 0), a `long`
/// (kind 1), a `boolean` (kind 2), or unchanged (any other kind).
pub open spec fn convert(kind: u8, v: Value) -> Value {
    if kind == 0 {
        Value::Int(spec_as_int(v))
    } else if kind == 1 {
        Value::Long(spec_as_long(v))
    } else if kind == 2 {
        Value::Boolean(spec_as_bool(v))
    } else {
        v
    }
}

fn convert_exec(kind: u8, v: Value) -> (r: Value)
    ensures
        r == convert(kind, v),
{
    if kind == 0 {
        Value::Int(v.as_int())
    } else if kind == 1 {
        Value::Long(v.as_long())
    } else if kind == 2 {
        Value::Boolean(v.as_bool())
    } else {
        v
    }
}

/// The heap with field `name` of the receiver set to `x` when the receiver is a live
/// object.
pub open spec fn set_on_live(h: Seq<ObjectView>, this: Value, name: Seq<char>, x: Value) -> Seq<ObjectView> {
    heap_set_field(h, this, name, x)
}

/// Setters that read their argument from local 1 (converted by `kind`) and the
/// receiver from local 0: the atomics' `set` and one-argument constructors,
/// `Date(long)` and `Date.setTime`.
pub open spec fn set_field_from_local(f: Frame, h: Seq<ObjectView>, name: Seq<char>, kind: u8) -> Effect {
    if local_missing(f, 1) {
        Err(local_error())
    } else {
        Ok((set_on_live(h, this_of(f), name, convert(kind, f.locals@[1])), 0, None))
    }
}

pub fn set_field_from_local_native(frame: &mut Frame, jvm: &mut Jvm, name: &str, kind: u8) -> (r: Result<(), JvmError>)
    ensures
        same_but_heap(*old(jvm), *final(jvm)),
        outcome(*old(frame), old(jvm).hv(), *final(frame), final(jvm).hv(), r, set_field_from_local(*old(frame), old(jvm).hv(), name@, kind)),
{
    let v = frame.get_local(1)?;
    let this = frame.get_local(0)?;
    proof {
        crate::natives::common::lemma_popped_zero(*old(frame));
    }
    jvm.set_field(this, name, convert_exec(kind, v));
    Ok(())
}

/// Setters that store a fixed value: `AtomicInteger()` (value 0).
pub open spec fn set_field_const(f: Frame, h: Seq<ObjectView>, name: Seq<char>, x: Value) -> Effect {
    if local_missing(f, 0) {
        Err(local_error())
    } else {
        Ok((set_on_live(h, this_of(f), name, x), 0, None))
    }
}

pub fn set_field_const_native(frame: &mut Frame, jvm: &mut Jvm, name: &str, x: Value) -> (r: Result<(), JvmError>)
    ensures
        same_but_heap(*old(jvm), *final(jvm)),
        outcome(*old(frame), old(jvm).hv(), *final(frame), final(jvm).hv(), r, set_field_const(*old(frame), old(jvm).hv(), name@, x)),
{
    let this = frame.get_local(0)?;
    proof {
        crate::natives::common::lemma_popped_zero(*old(frame));
    }
    jvm.set_field(this, name, x);
    Ok(())
}

/// `AtomicReference.set(x)`: pops `x` and stores it.
pub open spec fn set_field_popped(f: Frame, h: Seq<ObjectView>, name: Seq<char>) -> Effect {
    if f.stack@.len() == 0 {
        Err(underflow_error())
    } else if local_missing(f, 0) {
        Err(local_error())
    } else {
        Ok((set_on_live(h, this_of(f), name, crate::natives::common::top(f, 0)), 1, None))
    }
}

pub fn set_field_popped_native(frame: &mut Frame, jvm: &mut Jvm, name: &str) -> (r: Result<(), JvmError>)
    ensures
        same_but_heap(*old(jvm), *final(jvm)),
        outcome(*old(frame), old(jvm).hv(), *final(frame), final(jvm).hv(), r, set_field_popped(*old(frame), old(jvm).hv(), name@)),
{
    let (this, v) = crate::natives::common::pop1_this(frame)?;
    jvm.set_field(this, name, v);
    Ok(())
}

/// Field `name` of the receiver read by `kind`: an `int` (0), `long` (1), `boolean`
/// (2) or `double` (4) field of that kind, or its default (0, 0, `false`, `0.0`); for
/// any other kind the field as it is, or `Null`.
pub open spec fn read_kind(h: Seq<ObjectView>, this: Value, name: Seq<char>, kind: u8) -> Value {
    let f = match this {
        Value::ObjectRef(id) => field_of(h, id, name),
        _ => None,
    };
    if kind == 0 {
        Value::Int(match f {
            Some(Value::Int(x)) => x,
            _ => 0,
        })
    } else if kind == 1 {
        Value::Long(match f {
            Some(Value::Long(x)) => x,
            _ => 0,
        })
    } else if kind == 2 {
        Value::Boolean(match f {
            Some(Value::Boolean(x)) => x,
            _ => false,
        })
    } else if kind == 4 {
        Value::Double(match f {
            Some(Value::Double(x)) => x,
            _ => 0,
        })
    } else {
        match f {
            Some(x) => x,
            None => Value::Null,
        }
    }
}

fn read_kind_exec(jvm: &Jvm, this: Value, name: &str, kind: u8) -> (r: Value)
    ensures
        r == read_kind(jvm.hv(), this, name@, kind),
{
    let f = match this {
        Value::ObjectRef(id) => get_field_of(jvm, id, name),
        _ => None,
    };
    if kind == 0 {
        Value::Int(match f {
            Some(Value::Int(x)) => x,
            _ => 0,
        })
    } else if kind == 1 {
        Value::Long(match f {
            Some(Value::Long(x)) => x,
            _ => 0,
        })
    } else if kind == 2 {
        Value::Boolean(match f {
            Some(Value::Boolean(x)) => x,
            _ => false,
        })
    } else if kind == 4 {
        Value::Double(match f {
            Some(Value::Double(x)) => x,
            _ => 0,
        })
    } else {
        match f {
            Some(x) => x,
            None => Value::Null,
        }
    }
}

/// Getters: the atomics' `get` and `Date.getTime`.
pub open spec fn get_field_kind(f: Frame, h: Seq<ObjectView>, name: Seq<char>, kind: u8) -> Effect {
    if local_missing(f, 0) {
        Err(local_error())
    } else {
        Ok((h, 0, Some(read_kind(h, this_of(f), name, kind))))
    }
}

pub fn get_field_kind_native(frame: &mut Frame, jvm: &mut Jvm, name: &str, kind: u8) -> (r: Result<(), JvmError>)
    ensures
        *final(jvm) == *old(jvm),
        outcome(*old(frame), old(jvm).hv(), *final(frame), final(jvm).hv(), r, get_field_kind(*old(frame), old(jvm).hv(), name@, kind)),
{
    let this = frame.get_local(0)?;
    proof {
        crate::natives::common::lemma_popped_zero(*old(frame));
    }
    let v = read_kind_exec(jvm, this, name, kind);
    frame.push(v);
    Ok(())
}

/// `incrementAndGet`, `decrementAndGet` and `addAndGet` of `AtomicInteger` (long =
/// false) and `AtomicLong`: for a live receiver the `value` field (0 when unset) plus
/// the delta (a constant, or local 1 read as the type) with two's-complement
/// wrap-around is stored and answered; otherwise 0 is answered.
pub open spec fn add_and_get(f: Frame, h: Seq<ObjectView>, long: bool, delta: Option<i64>) -> Effect {
    if delta is None && local_missing(f, 1) {
        Err(local_error())
    } else if local_missing(f, 0) {
        Err(local_error())
    } else {
        let d: i64 = match delta {
            Some(c) => c,
            None => if long {
                spec_as_long(f.locals@[1])
            } else {
                spec_as_int(f.locals@[1]) as i64
            },
        };
        match this_of(f) {
            Value::ObjectRef(id) => if id < h.len() {
                if long {
                    let old = match field_of(h, id, "value"@) {
                        Some(Value::Long(x)) => x,
                        _ => 0,
                    };
                    let new = old.wrapping_add(d);
                    Ok((heap_set_field(h, this_of(f), "value"@, Value::Long(new)), 0, Some(Value::Long(new))))
                } else {
                    let old = match field_of(h, id, "value"@) {
                        Some(Value::Int(x)) => x,
                        _ => 0,
                    };
                    let new = old.wrapping_add(d as i32);
                    Ok((heap_set_field(h, this_of(f), "value"@, Value::Int(new)), 0, Some(Value::Int(new))))
                }
            } else if long {
                Ok((h, 0, Some(Value::Long(0))))
            } else {
                Ok((h, 0, Some(Value::Int(0))))
            },
            _ => if long {
                Ok((h, 0, Some(Value::Long(0))))
            } else {
                Ok((h, 0, Some(Value::Int(0))))
            },
        }
    }
}

pub fn add_and_get_native(frame: &mut Frame, jvm: &mut Jvm, long: bool, delta: Option<i64>) -> (r: Result<(), JvmError>)
    requires
        match delta {
            Some(c) => -1 <= c <= 1,
            None => true,
        },
    ensures
        same_but_heap(*old(jvm), *final(jvm)),
        outcome(*old(frame), old(jvm).hv(), *final(frame), final(jvm).hv(), r, add_and_get(*old(frame), old(jvm).hv(), long, delta)),
{
    let d: i64 = match delta {
        Some(c) => c,
        None => {
            let v = frame.get_local(1)?;
            if long {
                v.as_long()
            } else {
                v.as_int() as i64
            }
        },
    };
    let this = frame.get_local(0)?;
    proof {
        crate::natives::common::lemma_popped_zero(*old(frame));
    }
    if let Value::ObjectRef(id) = this {
        if id < jvm.heap.len() {
            if long {
                let old = match get_field_of(jvm, id, "value") {
                    Some(Value::Long(x)) => x,
                    _ => 0,
                };
                let new = old.wrapping_add(d);
                jvm.set_field(this, "value", Value::Long(new));
                frame.push(Value::Long(new));
            } else {
                let old = match get_field_of(jvm, id, "value") {
                    Some(Value::Int(x)) => x,
                    _ => 0,
                };
                let new = old.wrapping_add(d as i32);
                jvm.set_field(this, "value", Value::Int(new));
                frame.push(Value::Int(new));
            }
            return Ok(());
        }
    }
    if long {
        frame.push(Value::Long(0));
    } else {
        frame.push(Value::Int(0));
    }
    Ok(())
}

/// `compareAndSet(expect, update)` of `AtomicInteger` (bool = false) and
/// `AtomicBoolean`: reads the update from local 2 and the expected value from local 1;
/// when the receiver's `value` (default 0 or `false`) equals the expected value it
/// becomes the update and `true` is answered.
pub open spec fn compare_and_set(f: Frame, h: Seq<ObjectView>, boolean: bool) -> Effect {
    if local_missing(f, 2) {
        Err(local_error())
    } else {
        let kind: u8 = if boolean {
            2
        } else {
            0
        };
        let update = convert(kind, f.locals@[2]);
        let expect = convert(kind, f.locals@[1]);
        match this_of(f) {
            Value::ObjectRef(id) => if id < h.len() && read_kind(h, this_of(f), "value"@, kind) == expect {
                Ok((heap_set_field(h, this_of(f), "value"@, update), 0, Some(Value::Boolean(true))))
            } else {
                Ok((h, 0, Some(Value::Boolean(false))))
            },
            _ => Ok((h, 0, Some(Value::Boolean(false)))),
        }
    }
}

pub fn compare_and_set_native(frame: &mut Frame, jvm: &mut Jvm, boolean: bool) -> (r: Result<(), JvmError>)
    ensures
        same_but_heap(*old(jvm), *final(jvm)),
        outcome(*old(frame), old(jvm).hv(), *final(frame), final(jvm).hv(), r, compare_and_set(*old(frame), old(jvm).hv(), boolean)),
{
    let kind: u8 = if boolean {
        2
    } else {
        0
    };
    let update = convert_exec(kind, frame.get_local(2)?);
    let expect = convert_exec(kind, frame.get_local(1)?);
    let this = frame.get_local(0)?;
    proof {
        crate::natives::common::lemma_popped_zero(*old(frame));
    }
    let mut ok = false;
    if let Value::ObjectRef(id) = this {
        if id < jvm.heap.len() {
            let current = read_kind_exec(jvm, this, "value", kind);
            if current == expect {
                jvm.set_field(this, "value", update);
                ok = true;
            }
        }
    }
    frame.push(Value::Boolean(ok));
    Ok(())
}

/// `AtomicBoolean.getAndSet(x)`: answers the old `value` (default `false`) of a live
/// receiver and stores `x` (local 1 read as a `boolean`); `false` otherwise.
pub open spec fn get_and_set_bool(f: Frame, h: Seq<ObjectView>) -> Effect {
    if local_missing(f, 1) {
        Err(local_error())
    } else {
        match this_of(f) {
            Value::ObjectRef(id) => if id < h.len() {
                Ok((
                    heap_set_field(h, this_of(f), "value"@, Value::Boolean(spec_as_bool(f.locals@[1]))),
                    0,
                    Some(read_kind(h, this_of(f), "value"@, 2)),
                ))
            } else {
                Ok((h, 0, Some(Value::Boolean(false))))
            },
            _ => Ok((h, 0, Some(Value::Boolean(false)))),
        }
    }
}

pub fn get_and_set_bool_native(frame: &mut Frame, jvm: &mut Jvm) -> (r: Result<(), JvmError>)
    ensures
        same_but_heap(*old(jvm), *final(jvm)),
        outcome(*old(frame), old(jvm).hv(), *final(frame), final(jvm).hv(), r, get_and_set_bool(*old(frame), old(jvm).hv())),
{
    let nv = frame.get_local(1)?.as_bool();
    let this = frame.get_local(0)?;
    proof {
        crate::natives::common::lemma_popped_zero(*old(frame));
    }
    let mut old_v = Value::Boolean(false);
    if let Value::ObjectRef(id) = this {
        if id < jvm.heap.len() {
            old_v = read_kind_exec(jvm, this, "value", 2);
            jvm.set_field(this, "value", Value::Boolean(nv));
        }
    }
    frame.push(old_v);
    Ok(())
}

/// `OptionalInt`, `OptionalLong` and `OptionalDouble` objects: `empty()` (value the
/// kind's zero, not present) and `of(x)` (pops `x`, read as an `int` (kind 0) or `long`
/// (kind 1)).
pub open spec fn optional_number(f: Frame, h: Seq<ObjectView>, cls: Seq<char>, kind: u8, of: bool) -> Effect {
    if of && f.stack@.len() == 0 {
        Err(underflow_error())
    } else {
        let v = if of {
            convert(kind, crate::natives::common::top(f, 0))
        } else if kind == 0 {
            Value::Int(0)
        } else if kind == 1 {
            Value::Long(0)
        } else {
            Value::Double(0)
        };
        Ok((
            h.push(ObjectView::plain(cls).with_field("value"@, v).with_field("isPresent"@, Value::Boolean(of))),
            if of {
                1
            } else {
                0
            },
            Some(crate::natives::lang::new_ref(h)),
        ))
    }
}

pub fn optional_number_native(frame: &mut Frame, jvm: &mut Jvm, cls: &str, kind: u8, of: bool) -> (r: Result<(), JvmError>)
    requires
        of ==> kind <= 1,
    ensures
        same_but_heap(*old(jvm), *final(jvm)),
        outcome(*old(frame), old(jvm).hv(), *final(frame), final(jvm).hv(), r, optional_number(*old(frame), old(jvm).hv(), cls@, kind, of)),
{
    proof {
        crate::natives::common::lemma_popped_zero(*old(frame));
    }
    let v = if of {
        convert_exec(kind, pop1(frame)?)
    } else if kind == 0 {
        Value::Int(0)
    } else if kind == 1 {
        Value::Long(0)
    } else {
        Value::Double(0)
    };
    let ghost h0 = jvm.hv();
    let o = jvm.allocate(crate::runtime::heap::HeapObject::new(String::from_str(cls)));
    jvm.set_field(Value::ObjectRef(o), "value", v);
    jvm.set_field(Value::ObjectRef(o), "isPresent", Value::Boolean(of));
    assert(jvm.hv() =~= h0.push(ObjectView::plain(cls@).with_field("value"@, v).with_field("isPresent"@, Value::Boolean(of))));
    frame.push(Value::ObjectRef(o));
    Ok(())
}

/// `OptionalInt.orElse(other)`: the value when present (and an `int`), else `other`
/// (popped, read as an `int`).
pub open spec fn optional_int_or_else(f: Frame, h: Seq<ObjectView>) -> Effect {
    if f.stack@.len() == 0 {
        Err(underflow_error())
    } else if local_missing(f, 0) {
        Err(local_error())
    } else {
        let other = spec_as_int(crate::natives::common::top(f, 0));
        let present = read_kind(h, this_of(f), "isPresent"@, 2) == Value::Boolean(true);
        let v = match this_of(f) {
            Value::ObjectRef(id) => if present {
                match field_of(h, id, "value"@) {
                    Some(Value::Int(x)) => x,
                    _ => other,
                }
            } else {
                other
            },
            _ => other,
        };
        Ok((h, 1, Some(Value::Int(v))))
    }
}

pub fn optional_int_or_else_native(frame: &mut Frame, jvm: &mut Jvm) -> (r: Result<(), JvmError>)
    ensures
        *final(jvm) == *old(jvm),
        outcome(*old(frame), old(jvm).hv(), *final(frame), final(jvm).hv(), r, optional_int_or_else(*old(frame), old(jvm).hv())),
{
    let (this, ov) = crate::natives::common::pop1_this(frame)?;
    let other = ov.as_int();
    let present = read_kind_exec(jvm, this, "isPresent", 2) == Value::Boolean(true);
    let v = match this {
        Value::ObjectRef(id) => if present {
            match get_field_of(jvm, id, "value") {
                Some(Value::Int(x)) => x,
                _ => other,
            }
        } else {
            other
        },
        _ => other,
    };
    frame.push(Value::Int(v));
    Ok(())
}

// ---------- java.util.concurrent.locks.ReentrantLock ----------

/// The current thread's id as an `int`.
pub open spec fn thread_int(j: Jvm) -> i32 {
    j.current_thread_id as i32
}

/// `lock()`: the current thread becomes the owner and the hold count (0 when unset)
/// grows by one.
pub open spec fn lock_heap(h: Seq<ObjectView>, this: Value, me: i32) -> Seq<ObjectView> {
    match this {
        Value::ObjectRef(id) => if id < h.len() {
            let count = match field_of(h, id, "holdCount"@) {
                Some(Value::Int(c)) => c,
                _ => 0,
            };
            heap_set_field(heap_set_field(h, this, "owner"@, Value::Int(me)), this, "holdCount"@, Value::Int(count.wrapping_add(1)))
        } else {
            h
        },
        _ => h,
    }
}

fn lock_exec(jvm: &mut Jvm, this: Value)
    ensures
        final(jvm).hv() == lock_heap(old(jvm).hv(), this, thread_int(*old(jvm))),
        same_but_heap(*old(jvm), *final(jvm)),
{
    if let Value::ObjectRef(id) = this {
        if id < jvm.heap.len() {
            let me = jvm.current_thread_id as i32;
            let count = match get_field_of(jvm, id, "holdCount") {
                Some(Value::Int(c)) => c,
                _ => 0,
            };
            jvm.set_field(this, "owner", Value::Int(me));
            jvm.set_field(this, "holdCount", Value::Int(count.wrapping_add(1)));
        }
    }
}

pub open spec fn lock_lock(f: Frame, j: Jvm) -> Effect {
    if local_missing(f, 0) {
        Err(local_error())
    } else {
        Ok((lock_heap(j.hv(), this_of(f), thread_int(j)), 0, None))
    }
}

pub fn lock_lock_native(frame: &mut Frame, jvm: &mut Jvm) -> (r: Result<(), JvmError>)
    ensures
        same_but_heap(*old(jvm), *final(jvm)),
        outcome(*old(frame), old(jvm).hv(), *final(frame), final(jvm).hv(), r, lock_lock(*old(frame), *old(jvm))),
{
    let this = frame.get_local(0)?;
    proof {
        crate::natives::common::lemma_popped_zero(*old(frame));
    }
    lock_exec(jvm, this);
    Ok(())
}

/// `unlock()`: a hold count above 1 drops by one; otherwise the owner becomes -1 and
/// the count 0.
pub open spec fn lock_unlock(f: Frame, h: Seq<ObjectView>) -> Effect {
    if local_missing(f, 0) {
        Err(local_error())
    } else {
        let this = this_of(f);
        Ok((match this {
            Value::ObjectRef(id) => if id < h.len() {
                let count = match field_of(h, id, "holdCount"@) {
                    Some(Value::Int(c)) => c,
                    _ => 0,
                };
                if count > 1 {
                    heap_set_field(h, this, "holdCount"@, Value::Int((count - 1) as i32))
                } else {
                    heap_set_field(heap_set_field(h, this, "owner"@, Value::Int(-1i32)), this, "holdCount"@, Value::Int(0))
                }
            } else {
                h
            },
            _ => h,
        }, 0, None))
    }
}

pub fn lock_unlock_native(frame: &mut Frame, jvm: &mut Jvm) -> (r: Result<(), JvmError>)
    ensures
        same_but_heap(*old(jvm), *final(jvm)),
        outcome(*old(frame), old(jvm).hv(), *final(frame), final(jvm).hv(), r, lock_unlock(*old(frame), old(jvm).hv())),
{
    let this = frame.get_local(0)?;
    proof {
        crate::natives::common::lemma_popped_zero(*old(frame));
    }
    if let Value::ObjectRef(id) = this {
        if id < jvm.heap.len() {
            let count = match get_field_of(jvm, id, "holdCount") {
                Some(Value::Int(c)) => c,
                _ => 0,
            };
            if count > 1 {
                jvm.set_field(this, "holdCount", Value::Int(count - 1));
            } else {
                jvm.set_field(this, "owner", Value::Int(-1));
                jvm.set_field(this, "holdCount", Value::Int(0));
            }
        }
    }
    Ok(())
}

/// `tryLock()`: succeeds and locks (as `lock`) when the receiver has no owner (-1,
/// also when unset) or the current thread owns it; answers whether it did (`true` for a
/// receiver that is no live object).
pub open spec fn lock_try(f: Frame, j: Jvm) -> Effect {
    let h = j.hv();
    if local_missing(f, 0) {
        Err(local_error())
    } else {
        let this = this_of(f);
        match this {
            Value::ObjectRef(id) => if id < h.len() {
                let owner = match field_of(h, id, "owner"@) {
                    Some(Value::Int(o)) => o,
                    _ => -1i32,
                };
                if owner == -1 || owner == thread_int(j) {
                    Ok((lock_heap(h, this, thread_int(j)), 0, Some(Value::Boolean(true))))
                } else {
                    Ok((h, 0, Some(Value::Boolean(false))))
                }
            } else {
                Ok((h, 0, Some(Value::Boolean(true))))
            },
            _ => Ok((h, 0, Some(Value::Boolean(true)))),
        }
    }
}

pub fn lock_try_native(frame: &mut Frame, jvm: &mut Jvm) -> (r: Result<(), JvmError>)
    ensures
        same_but_heap(*old(jvm), *final(jvm)),
        outcome(*old(frame), old(jvm).hv(), *final(frame), final(jvm).hv(), r, lock_try(*old(frame), *old(jvm))),
{
    let this = frame.get_local(0)?;
    proof {
        crate::natives::common::lemma_popped_zero(*old(frame));
    }
    let mut acquired = true;
    if let Value::ObjectRef(id) = this {
        if id < jvm.heap.len() {
            let owner = match get_field_of(jvm, id, "owner") {
                Some(Value::Int(o)) => o,
                _ => -1,
            };
            if owner == -1 || owner == jvm.current_thread_id as i32 {
                lock_exec(jvm, this);
            } else {
                acquired = false;
            }
        }
    }
    frame.push(Value::Boolean(acquired));
    Ok(())
}

/// `AtomicInteger.compareAndSet(expect, update)` on a live object, for all values:
/// it succeeds exactly when the current value is `expect`; then the value becomes
/// `update` (what `get` reads next), and otherwise nothing changes.
pub proof fn law_compare_and_set(f: Frame, h: Seq<ObjectView>, id: usize)
    requires
        f.locals@.len() >= 3,
        f.locals@[0] == Value::ObjectRef(id),
        id < h.len(),
    ensures
        compare_and_set(f, h, false) is Ok,
        compare_and_set(f, h, false)->Ok_0.2
            == Some(Value::Boolean(read_kind(h, f.locals@[0], "value"@, 0) == convert(0, f.locals@[1]))),
        read_kind(h, f.locals@[0], "value"@, 0) == convert(0, f.locals@[1]) ==> read_kind(
            compare_and_set(f, h, false)->Ok_0.0, f.locals@[0], "value"@, 0) == convert(0, f.locals@[2]),
        read_kind(h, f.locals@[0], "value"@, 0) != convert(0, f.locals@[1]) ==> compare_and_set(f, h, false)->Ok_0.0 == h,
{
    let h2 = heap_set_field(h, f.locals@[0], "value"@, convert(0, f.locals@[2]));
    assert(h2[id as int].fields == h[id as int].fields.insert("value"@, convert(0, f.locals@[2])));
    assert(field_of(h2, id, "value"@) == Some(convert(0, f.locals@[2])));
}

} // verus!
