use vstd::prelude::*;
use crate::natives::common::{field_of, get_field_of, local_missing, npe, outcome, this_of, Effect};
use crate::natives::lang::{new_ref, with_string};
use crate::runtime::error::{JvmError, RuntimeError};
use crate::runtime::frame::{local_error, Frame};
use crate::runtime::heap::{HeapObject, ObjectView};
use crate::runtime::jvm::{heap_set_field, Jvm};
use crate::runtime::value::{spec_as_int, Value};
use crate::text::{decimal, push_decimal};
use crate::threading::scheduler::{create_post, join_post, sleep_post, wake_post, yield_post};
use crate::threading::thread::ThreadState;

verus! {

broadcast use vstd::std_specs::hash::group_hash_axioms;

/// Everything of the machine but the scheduler is unchanged.
pub open spec fn only_scheduler(a: Jvm, b: Jvm) -> bool {
    &&& b.hv() == a.hv()
    &&& b.method_area@ == a.method_area@
    &&& b.thread_objects@ == a.thread_objects@
    &&& b.current_thread_id == a.current_thread_id
}

/// The native thread id a `Thread` object stores, if it stores an `int` one.
pub open spec fn native_id(h: Seq<ObjectView>, id: usize) -> Option<i32> {
    match field_of(h, id, "nativeThreadId"@) {
        Some(Value::Int(n)) => Some(n),
        _ => None,
    }
}

fn native_id_exec(jvm: &Jvm, id: usize) -> (r: Option<i32>)
    ensures
        r == native_id(jvm.hv(), id),
{
    match get_field_of(jvm, id, "nativeThreadId") {
        Some(Value::Int(n)) => Some(n),
        _ => None,
    }
}

/// `Thread.sleep(millis)`: the current thread sleeps (in the scheduler).
pub fn thread_sleep_native(frame: &mut Frame, jvm: &mut Jvm) -> (r: Result<(), JvmError>)
    requires
        old(jvm).scheduler.wf(),
    ensures
        *final(frame) == *old(frame),
        only_scheduler(*old(jvm), *final(jvm)),
        local_missing(*old(frame), 0) ==> r == Err::<(), JvmError>(local_error())
            && final(jvm).scheduler == old(jvm).scheduler,
        !local_missing(*old(frame), 0) ==> sleep_post(old(jvm).scheduler, final(jvm).scheduler, old(jvm).current_thread_id, r),
{
    let millis = frame.get_local(0)?.as_long() as u64;
    let current = jvm.current_thread_id;
    jvm.scheduler.sleep(current, millis)
}

/// `Thread.yield()`.
pub fn thread_yield_native(frame: &mut Frame, jvm: &mut Jvm) -> (r: Result<(), JvmError>)
    requires
        old(jvm).scheduler.wf(),
    ensures
        *final(frame) == *old(frame),
        only_scheduler(*old(jvm), *final(jvm)),
        yield_post(old(jvm).scheduler, final(jvm).scheduler, r),
{
    jvm.scheduler.yield_thread()
}

/// The thread a `join` waits for: the receiver's native id when it is positive.
pub open spec fn join_target(f: Frame, h: Seq<ObjectView>) -> Option<usize> {
    match this_of(f) {
        Value::ObjectRef(id) => match native_id(h, id) {
            Some(n) => if n as usize > 0 {
                Some(n as usize)
            } else {
                None
            },
            None => None,
        },
        _ => None,
    }
}

/// `join` waits only until the target has terminated, so it runs only on a target that
/// has (or is unknown), or when the current thread is unknown to the scheduler.
pub open spec fn join_ready(f: Frame, j: Jvm) -> bool {
    !local_missing(f, 0) ==> match join_target(f, j.hv()) {
        Some(t) => {
            ||| !j.scheduler.spec_threads().contains_key(t)
            ||| j.scheduler.spec_threads()[t].spec_state() == ThreadState::Terminated
            ||| (j.scheduler.spec_current() matches Some(c) && !j.scheduler.spec_threads().contains_key(c))
        },
        None => true,
    }
}

/// `join()`: waits for the receiver's thread (see `join_post`).
pub fn thread_join_native(frame: &mut Frame, jvm: &mut Jvm) -> (r: Result<(), JvmError>)
    requires
        old(jvm).scheduler.wf(),
        join_ready(*old(frame), *old(jvm)),
    ensures
        *final(frame) == *old(frame),
        only_scheduler(*old(jvm), *final(jvm)),
        local_missing(*old(frame), 0) ==> r == Err::<(), JvmError>(local_error())
            && final(jvm).scheduler == old(jvm).scheduler,
        !local_missing(*old(frame), 0) ==> match this_of(*old(frame)) {
            Value::ObjectRef(id) => if id >= old(jvm).hv().len() {
                r == Err::<(), JvmError>(npe()) && final(jvm).scheduler == old(jvm).scheduler
            } else {
                match join_target(*old(frame), old(jvm).hv()) {
                    Some(t) => join_post(old(jvm).scheduler, final(jvm).scheduler, t, r),
                    None => r is Ok && final(jvm).scheduler == old(jvm).scheduler,
                }
            },
            _ => r is Ok && final(jvm).scheduler == old(jvm).scheduler,
        },
{
    let this = frame.get_local(0)?;
    if let Value::ObjectRef(id) = this {
        if id >= jvm.heap.len() {
            return Err(JvmError::RuntimeError(RuntimeError::NullPointerException));
        }
        match native_id_exec(jvm, id) {
            Some(n) => {
                let t = n as usize;
                if t > 0 {
                    return jvm.scheduler.join(t);
                }
            },
            None => {},
        }
    }
    Ok(())
}

/// `Thread.currentThread()`: the `Thread` object registered for the current thread, or
/// `Null`.
pub open spec fn thread_current(j: Jvm) -> Value {
    if j.thread_objects@.contains_key(j.current_thread_id) {
        Value::ObjectRef(j.thread_objects@[j.current_thread_id])
    } else {
        Value::Null
    }
}

pub fn thread_current_native(frame: &mut Frame, jvm: &mut Jvm) -> (r: Result<(), JvmError>)
    ensures
        *final(jvm) == *old(jvm),
        r == Ok::<(), JvmError>(()),
        crate::natives::common::returned(*old(frame), *final(frame), 0, thread_current(*old(jvm))),
{
    proof {
        crate::natives::common::lemma_popped_zero(*old(frame));
    }
    match jvm.thread_objects.get(&jvm.current_thread_id) {
        Some(o) => frame.push(Value::ObjectRef(*o)),
        None => frame.push(Value::Null),
    }
    Ok(())
}

/// `getName()`: a new string with the text of the receiver's `name` string (empty when
/// it has none); nothing is pushed for a receiver that is no object reference.
pub open spec fn thread_get_name(f: Frame, h: Seq<ObjectView>) -> Effect {
    if local_missing(f, 0) {
        Err(local_error())
    } else {
        match this_of(f) {
            Value::ObjectRef(id) => if id >= h.len() {
                Err(npe())
            } else {
                let name = match field_of(h, id, "name"@) {
                    Some(Value::ObjectRef(s)) => if s < h.len() {
                        match h[s as int].string {
                            Some(t) => t,
                            None => Seq::<char>::empty(),
                        }
                    } else {
                        Seq::<char>::empty()
                    },
                    _ => Seq::<char>::empty(),
                };
                Ok((with_string(h, name), 0, Some(new_ref(h))))
            },
            _ => Ok((h, 0, None)),
        }
    }
}

pub fn thread_get_name_native(frame: &mut Frame, jvm: &mut Jvm) -> (r: Result<(), JvmError>)
    ensures
        crate::runtime::jvm::same_but_heap(*old(jvm), *final(jvm)),
        outcome(*old(frame), old(jvm).hv(), *final(frame), final(jvm).hv(), r, thread_get_name(*old(frame), old(jvm).hv())),
{
    let this = frame.get_local(0)?;
    proof {
        crate::natives::common::lemma_popped_zero(*old(frame));
    }
    if let Value::ObjectRef(id) = this {
        if id >= jvm.heap.len() {
            return Err(JvmError::RuntimeError(RuntimeError::NullPointerException));
        }
        let name: Vec<char> = match get_field_of(jvm, id, "name") {
            Some(Value::ObjectRef(s)) => if s < jvm.heap.len() {
                match &jvm.heap[s].string_value {
                    Some(t) => crate::natives::lang::copy_chars_pub(t),
                    None => Vec::new(),
                }
            } else {
                Vec::new()
            },
            _ => Vec::new(),
        };
        let r = jvm.alloc_string(name);
        frame.push(Value::ObjectRef(r));
    }
    Ok(())
}

/// `setName(name)`: when both the receiver and the argument are object references,
/// the receiver's `name` field refers to the argument.
pub open spec fn thread_set_name(f: Frame, h: Seq<ObjectView>) -> Effect {
    if local_missing(f, 0) || local_missing(f, 1) {
        Err(local_error())
    } else {
        match (this_of(f), f.locals@[1]) {
            (Value::ObjectRef(_), Value::ObjectRef(n)) => Ok((
                heap_set_field(h, this_of(f), "name"@, Value::ObjectRef(n)),
                0,
                None,
            )),
            _ => Ok((h, 0, None)),
        }
    }
}

pub fn thread_set_name_native(frame: &mut Frame, jvm: &mut Jvm) -> (r: Result<(), JvmError>)
    ensures
        crate::runtime::jvm::same_but_heap(*old(jvm), *final(jvm)),
        outcome(*old(frame), old(jvm).hv(), *final(frame), final(jvm).hv(), r, thread_set_name(*old(frame), old(jvm).hv())),
{
    let this = frame.get_local(0)?;
    let name = frame.get_local(1)?;
    proof {
        crate::natives::common::lemma_popped_zero(*old(frame));
    }
    if let (Value::ObjectRef(_), Value::ObjectRef(n)) = (this, name) {
        jvm.set_field(this, "name", Value::ObjectRef(n));
    }
    Ok(())
}

/// `getPriority()`: the receiver's `priority` field, 5 when unset.
pub open spec fn thread_get_priority(f: Frame, h: Seq<ObjectView>) -> Effect {
    if local_missing(f, 0) {
        Err(local_error())
    } else {
        match this_of(f) {
            Value::ObjectRef(id) => if id >= h.len() {
                Err(npe())
            } else {
                Ok((h, 0, Some(Value::Int(crate::natives::common::int_field_or(h, id, "priority"@, 5)))))
            },
            _ => Ok((h, 0, Some(Value::Int(5)))),
        }
    }
}

pub fn thread_get_priority_native(frame: &mut Frame, jvm: &mut Jvm) -> (r: Result<(), JvmError>)
    ensures
        *final(jvm) == *old(jvm),
        outcome(*old(frame), old(jvm).hv(), *final(frame), final(jvm).hv(), r, thread_get_priority(*old(frame), old(jvm).hv())),
{
    let this = frame.get_local(0)?;
    proof {
        crate::natives::common::lemma_popped_zero(*old(frame));
    }
    let p = match this {
        Value::ObjectRef(id) => {
            if id >= jvm.heap.len() {
                return Err(JvmError::RuntimeError(RuntimeError::NullPointerException));
            }
            crate::natives::common::read_int_field(jvm, id, "priority", 5)
        },
        _ => 5,
    };
    frame.push(Value::Int(p));
    Ok(())
}

/// `setPriority(p)`: the receiver's `priority` field becomes local 1 read as an `int`.
pub open spec fn thread_set_priority(f: Frame, h: Seq<ObjectView>) -> Effect {
    if local_missing(f, 0) || local_missing(f, 1) {
        Err(local_error())
    } else {
        Ok((heap_set_field(h, this_of(f), "priority"@, Value::Int(spec_as_int(f.locals@[1]))), 0, None))
    }
}

pub fn thread_set_priority_native(frame: &mut Frame, jvm: &mut Jvm) -> (r: Result<(), JvmError>)
    ensures
        crate::runtime::jvm::same_but_heap(*old(jvm), *final(jvm)),
        outcome(*old(frame), old(jvm).hv(), *final(frame), final(jvm).hv(), r, thread_set_priority(*old(frame), old(jvm).hv())),
{
    let this = frame.get_local(0)?;
    let p = frame.get_local(1)?.as_int();
    proof {
        crate::natives::common::lemma_popped_zero(*old(frame));
    }
    jvm.set_field(this, "priority", Value::Int(p));
    Ok(())
}

/// `getId()`: the receiver's native thread id as a `long`, 0 when unset.
pub open spec fn thread_get_id(f: Frame, h: Seq<ObjectView>) -> Effect {
    if local_missing(f, 0) {
        Err(local_error())
    } else {
        match this_of(f) {
            Value::ObjectRef(id) => if id >= h.len() {
                Err(npe())
            } else {
                Ok((h, 0, Some(Value::Long(match native_id(h, id) {
                    Some(n) => n as i64,
                    None => 0,
                }))))
            },
            _ => Ok((h, 0, Some(Value::Long(0)))),
        }
    }
}

pub fn thread_get_id_native(frame: &mut Frame, jvm: &mut Jvm) -> (r: Result<(), JvmError>)
    ensures
        *final(jvm) == *old(jvm),
        outcome(*old(frame), old(jvm).hv(), *final(frame), final(jvm).hv(), r, thread_get_id(*old(frame), old(jvm).hv())),
{
    let this = frame.get_local(0)?;
    proof {
        crate::natives::common::lemma_popped_zero(*old(frame));
    }
    let n: i64 = match this {
        Value::ObjectRef(id) => {
            if id >= jvm.heap.len() {
                return Err(JvmError::RuntimeError(RuntimeError::NullPointerException));
            }
            match native_id_exec(jvm, id) {
                Some(x) => x as i64,
                None => 0,
            }
        },
        _ => 0,
    };
    frame.push(Value::Long(n));
    Ok(())
}

/// `interrupt()`: the receiver's thread, if it waits, becomes runnable.
pub fn thread_interrupt_native(frame: &mut Frame, jvm: &mut Jvm) -> (r: Result<(), JvmError>)
    requires
        old(jvm).scheduler.wf(),
    ensures
        *final(frame) == *old(frame),
        only_scheduler(*old(jvm), *final(jvm)),
        final(jvm).scheduler.wf(),
        local_missing(*old(frame), 0) ==> r == Err::<(), JvmError>(local_error())
            && final(jvm).scheduler == old(jvm).scheduler,
        !local_missing(*old(frame), 0) ==> match this_of(*old(frame)) {
            Value::ObjectRef(id) => if id >= old(jvm).hv().len() {
                r == Err::<(), JvmError>(npe()) && final(jvm).scheduler == old(jvm).scheduler
            } else {
                r is Ok && match native_id(old(jvm).hv(), id) {
                    Some(n) => wake_post(old(jvm).scheduler, final(jvm).scheduler, n as usize),
                    None => final(jvm).scheduler == old(jvm).scheduler,
                }
            },
            _ => r is Ok && final(jvm).scheduler == old(jvm).scheduler,
        },
{
    let this = frame.get_local(0)?;
    if let Value::ObjectRef(id) = this {
        if id >= jvm.heap.len() {
            return Err(JvmError::RuntimeError(RuntimeError::NullPointerException));
        }
        match native_id_exec(jvm, id) {
            Some(n) => jvm.scheduler.wake(n as usize),
            None => {},
        }
    }
    Ok(())
}

/// `isInterrupted()`: the receiver's `interrupted` flag, `false` when unset.
pub open spec fn thread_is_interrupted(f: Frame, h: Seq<ObjectView>) -> Effect {
    if local_missing(f, 0) {
        Err(local_error())
    } else {
        match this_of(f) {
            Value::ObjectRef(id) => if id >= h.len() {
                Err(npe())
            } else {
                Ok((h, 0, Some(Value::Boolean(field_of(h, id, "interrupted"@) == Some(Value::Boolean(true))))))
            },
            _ => Ok((h, 0, Some(Value::Boolean(false)))),
        }
    }
}

pub fn thread_is_interrupted_native(frame: &mut Frame, jvm: &mut Jvm) -> (r: Result<(), JvmError>)
    ensures
        *final(jvm) == *old(jvm),
        outcome(*old(frame), old(jvm).hv(), *final(frame), final(jvm).hv(), r, thread_is_interrupted(*old(frame), old(jvm).hv())),
{
    let this = frame.get_local(0)?;
    proof {
        crate::natives::common::lemma_popped_zero(*old(frame));
    }
    let b = match this {
        Value::ObjectRef(id) => {
            if id >= jvm.heap.len() {
                return Err(JvmError::RuntimeError(RuntimeError::NullPointerException));
            }
            match get_field_of(jvm, id, "interrupted") {
                Some(Value::Boolean(x)) => x,
                _ => false,
            }
        },
        _ => false,
    };
    frame.push(Value::Boolean(b));
    Ok(())
}

/// `Thread.interrupted()`: the current thread's `interrupted` flag, which is then
/// cleared (both only when its `Thread` object is registered and live).
pub open spec fn thread_interrupted(j: Jvm) -> (Seq<ObjectView>, Value) {
    let h = j.hv();
    if j.thread_objects@.contains_key(j.current_thread_id) && j.thread_objects@[j.current_thread_id] < h.len() {
        let o = j.thread_objects@[j.current_thread_id];
        (
            heap_set_field(h, Value::ObjectRef(o), "interrupted"@, Value::Boolean(false)),
            Value::Boolean(field_of(h, o, "interrupted"@) == Some(Value::Boolean(true))),
        )
    } else {
        (h, Value::Boolean(false))
    }
}

pub fn thread_interrupted_native(frame: &mut Frame, jvm: &mut Jvm) -> (r: Result<(), JvmError>)
    ensures
        crate::runtime::jvm::same_but_heap(*old(jvm), *final(jvm)),
        r == Ok::<(), JvmError>(()),
        crate::natives::common::returned(*old(frame), *final(frame), 0, thread_interrupted(*old(jvm)).1),
        final(jvm).hv() == thread_interrupted(*old(jvm)).0,
{
    proof {
        crate::natives::common::lemma_popped_zero(*old(frame));
    }
    let current = jvm.current_thread_id;
    let obj = match jvm.thread_objects.get(&current) {
        Some(o) => Some(*o),
        None => None,
    };
    let mut b = false;
    match obj {
        Some(o) => {
            if o < jvm.heap.len() {
                b = match get_field_of(jvm, o, "interrupted") {
                    Some(Value::Boolean(x)) => x,
                    _ => false,
                };
                jvm.set_field(Value::ObjectRef(o), "interrupted", Value::Boolean(false));
            }
        },
        None => {},
    }
    frame.push(Value::Boolean(b));
    Ok(())
}

/// `isAlive()`: whether the receiver's thread is known to the scheduler and has not
/// terminated; `false` without a native id.
pub open spec fn thread_is_alive(f: Frame, j: Jvm) -> Effect {
    let h = j.hv();
    if local_missing(f, 0) {
        Err(local_error())
    } else {
        match this_of(f) {
            Value::ObjectRef(id) => if id >= h.len() {
                Err(npe())
            } else {
                Ok((h, 0, Some(Value::Boolean(match native_id(h, id) {
                    Some(n) => j.scheduler.spec_threads().contains_key(n as usize)
                        && j.scheduler.spec_threads()[n as usize].spec_state() != ThreadState::Terminated,
                    None => false,
                }))))
            },
            _ => Ok((h, 0, Some(Value::Boolean(false)))),
        }
    }
}

pub fn thread_is_alive_native(frame: &mut Frame, jvm: &mut Jvm) -> (r: Result<(), JvmError>)
    ensures
        *final(jvm) == *old(jvm),
        outcome(*old(frame), old(jvm).hv(), *final(frame), final(jvm).hv(), r, thread_is_alive(*old(frame), *old(jvm))),
{
    let this = frame.get_local(0)?;
    proof {
        crate::natives::common::lemma_popped_zero(*old(frame));
    }
    let b = match this {
        Value::ObjectRef(id) => {
            if id >= jvm.heap.len() {
                return Err(JvmError::RuntimeError(RuntimeError::NullPointerException));
            }
            match native_id_exec(jvm, id) {
                Some(n) => !jvm.scheduler.is_thread_terminated(n as usize),
                None => false,
            }
        },
        _ => false,
    };
    frame.push(Value::Boolean(b));
    Ok(())
}

/// What the host needs to run a started thread on an operating-system thread: the
/// class whose `run()` it executes, the scheduler's id for it and its `Thread` object.
pub struct ThreadLaunch {
    pub class_name: String,
    pub thread_id: usize,
    pub object: usize,
}

/// `Thread-n`, the name of the `n`-th thread.
pub open spec fn thread_name(n: nat) -> Seq<char> {
    "Thread-"@ + decimal(n)
}

/// Whether a `run()V` method is registered for class `c`.
pub open spec fn has_run(j: Jvm, c: Seq<char>) -> bool {
    exists|i: int|
        0 <= i < j.method_area@.len() && #[trigger] j.method_area@[i].0 == c && j.method_area@[i].1.name
            == "run"@ && j.method_area@[i].1.descriptor == "()V"@
}

/// `start()`, the part that decides: for a live receiver whose class (or
/// `java.lang.Thread`) has a registered `run()V`, a new scheduler thread named
/// `Thread-n` (n the thread count plus one), its id stored in the receiver's
/// `nativeThreadId` and the receiver registered as that thread's object. The host then
/// runs the thread.
pub fn thread_start_prepare(frame: &mut Frame, jvm: &mut Jvm) -> (r: Result<Option<ThreadLaunch>, JvmError>)
    requires
        old(jvm).scheduler.wf(),
        old(jvm).scheduler.spec_counter() < usize::MAX,
        old(jvm).scheduler.spec_threads().len() < 0xFFFF_FFFF_FFFF_FFFF,
    ensures
        *final(frame) == *old(frame),
        final(jvm).method_area@ == old(jvm).method_area@,
        final(jvm).current_thread_id == old(jvm).current_thread_id,
        final(jvm).scheduler.wf(),
        local_missing(*old(frame), 0) ==> r == Err::<Option<ThreadLaunch>, JvmError>(local_error())
            && *final(jvm) == *old(jvm),
        !local_missing(*old(frame), 0) ==> match this_of(*old(frame)) {
            Value::ObjectRef(id) => if id >= old(jvm).hv().len() {
                r == Err::<Option<ThreadLaunch>, JvmError>(npe()) && *final(jvm) == *old(jvm)
            } else if !has_run(*old(jvm), old(jvm).hv()[id as int].class_name) && !has_run(
                *old(jvm),
                "java.lang.Thread"@,
            ) {
                r == Err::<Option<ThreadLaunch>, JvmError>(
                    JvmError::RuntimeError(RuntimeError::MethodNotFound),
                ) && *final(jvm) == *old(jvm)
            } else {
                let t = old(jvm).scheduler.spec_counter();
                &&& r matches Ok(Some(l)) && l.class_name@ == old(jvm).hv()[id as int].class_name
                    && l.thread_id == t && l.object == id
                &&& create_post(
                    old(jvm).scheduler,
                    final(jvm).scheduler,
                    thread_name((old(jvm).scheduler.spec_threads().len() + 1) as nat),
                    Ok(t),
                )
                &&& final(jvm).hv() == heap_set_field(
                    old(jvm).hv(),
                    Value::ObjectRef(id),
                    "nativeThreadId"@,
                    Value::Int(t as i32),
                )
                &&& final(jvm).thread_objects@ == old(jvm).thread_objects@.insert(t, id)
            },
            _ => r == Ok::<Option<ThreadLaunch>, JvmError>(None) && *final(jvm) == *old(jvm),
        },
{
    let this = frame.get_local(0)?;
    if let Value::ObjectRef(id) = this {
        if id >= jvm.heap.len() {
            return Err(JvmError::RuntimeError(RuntimeError::NullPointerException));
        }
        let class_name = jvm.heap[id].class_name.clone();
        assert(jvm.hv()[id as int].class_name == class_name@);
        let own = jvm.method_area.get_method(class_name.as_str(), "run", "()V");
        let own_found = own.is_some();
        proof {
            match own {
                Some(m) => {
                    let i = choose|i: int|
                        0 <= i < jvm.method_area@.len() && #[trigger] jvm.method_area@[i] == (class_name@, m@)
                            && m@.name == "run"@ && m@.descriptor == "()V"@;
                    assert(jvm.method_area@[i].0 == class_name@);
                },
                None => {
                    assert forall|i: int| 0 <= i < jvm.method_area@.len() implies !(#[trigger] jvm.method_area@[i].0
                        == class_name@ && jvm.method_area@[i].1.name == "run"@ && jvm.method_area@[i].1.descriptor
                        == "()V"@) by {}
                },
            }
        }
        let fallback = jvm.method_area.get_method("java.lang.Thread", "run", "()V");
        let fallback_found = fallback.is_some();
        proof {
            match fallback {
                Some(m) => {
                    let i = choose|i: int|
                        0 <= i < jvm.method_area@.len() && #[trigger] jvm.method_area@[i] == ("java.lang.Thread"@, m@)
                            && m@.name == "run"@ && m@.descriptor == "()V"@;
                    assert(jvm.method_area@[i].0 == "java.lang.Thread"@);
                },
                None => {
                    assert forall|i: int| 0 <= i < jvm.method_area@.len() implies !(#[trigger] jvm.method_area@[i].0
                        == "java.lang.Thread"@ && jvm.method_area@[i].1.name == "run"@
                        && jvm.method_area@[i].1.descriptor == "()V"@) by {}
                },
            }
        }
        let found = own_found || fallback_found;
        if !found {
            return Err(JvmError::RuntimeError(RuntimeError::MethodNotFound));
        }
        let count = jvm.scheduler.thread_count();
        let mut name = crate::text::chars_of("Thread-");
        push_decimal(&mut name, (count as u64) + 1);
        let name_s = crate::text::string_from_chars(&name);
        let t = jvm.scheduler.create_thread(name_s)?;
        jvm.set_field(this, "nativeThreadId", Value::Int(t as i32));
        jvm.thread_objects.insert(t, id);
        return Ok(Some(ThreadLaunch { class_name, thread_id: t, object: id }));
    }
    Ok(None)
}

/// The heap after `register_thread_natives`: a new `Thread` object for the main thread
/// with native id 1, priority 5, not interrupted, not a daemon and no name.
pub open spec fn main_thread_object() -> ObjectView {
    ObjectView::plain("java.lang.Thread"@).with_field("nativeThreadId"@, Value::Int(1)).with_field(
        "priority"@,
        Value::Int(5),
    ).with_field("interrupted"@, Value::Boolean(false)).with_field("daemon"@, Value::Boolean(false)).with_field(
        "name"@,
        Value::Null,
    )
}

/// Creates the `Thread` object of the main thread (id 1) and registers it.
pub fn register_thread_natives(jvm: &mut Jvm)
    ensures
        final(jvm).hv() == old(jvm).hv().push(main_thread_object()),
        final(jvm).thread_objects@ == old(jvm).thread_objects@.insert(1, old(jvm).hv().len() as usize),
        final(jvm).method_area@ == old(jvm).method_area@,
        final(jvm).scheduler == old(jvm).scheduler,
        final(jvm).current_thread_id == old(jvm).current_thread_id,
{
    let r = jvm.allocate(HeapObject::new(String::from_str("java.lang.Thread")));
    let t = Value::ObjectRef(r);
    jvm.set_field(t, "nativeThreadId", Value::Int(1));
    jvm.set_field(t, "priority", Value::Int(5));
    jvm.set_field(t, "interrupted", Value::Boolean(false));
    jvm.set_field(t, "daemon", Value::Boolean(false));
    jvm.set_field(t, "name", Value::Null);
    jvm.thread_objects.insert(1, r);
}

/// What `setPriority(p)` and `setName(name)` write, `getPriority()` and `getName()` read
/// back on the same thread object: the priority `p` (an `int`), and a new string with
/// the text of the name string.
pub proof fn law_thread_set_then_get(f: Frame, h: Seq<ObjectView>, id: usize)
    requires
        f.locals@.len() >= 2,
        this_of(f) == Value::ObjectRef(id),
        id < h.len(),
    ensures
        ({
            let h1 = thread_set_priority(f, h)->Ok_0.0;
            &&& thread_set_priority(f, h) is Ok
            &&& f.locals@[1] is Int ==> thread_get_priority(f, h1)
                == Ok::<(Seq<ObjectView>, nat, Option<Value>), JvmError>((h1, 0, Some(f.locals@[1])))
        }),
        ({
            let h2 = thread_set_name(f, h)->Ok_0.0;
            &&& thread_set_name(f, h) is Ok
            &&& (f.locals@[1] matches Value::ObjectRef(n) && n < h.len() && h[n as int].string is Some)
                ==> thread_get_name(f, h2) == Ok::<(Seq<ObjectView>, nat, Option<Value>), JvmError>((
                    with_string(h2, h[f.locals@[1]->ObjectRef_0 as int].string->0), 0, Some(new_ref(h2))))
        }),
{
    let h1 = thread_set_priority(f, h)->Ok_0.0;
    let o1 = h[id as int].with_field("priority"@, Value::Int(spec_as_int(f.locals@[1])));
    assert(h1 == h.update(id as int, o1));
    assert(o1.get("priority"@) == Some(Value::Int(spec_as_int(f.locals@[1]))));
    let h2 = thread_set_name(f, h)->Ok_0.0;
    match f.locals@[1] {
        Value::ObjectRef(n) => {
            let o2 = h[id as int].with_field("name"@, Value::ObjectRef(n));
            assert(h2 == h.update(id as int, o2));
            assert(o2.get("name"@) == Some(Value::ObjectRef(n)));
            if n < h.len() && n != id {
                assert(h2[n as int] == h[n as int]);
            }
            if n == id {
                assert(h2[n as int].string == h[n as int].string);
            }
        },
        _ => {},
    }
}

} // verus!
