use vstd::prelude::*;
use crate::natives::bits::bitset_set_ready;
use crate::natives::collections::{
    add_all_ready as coll_add_all_ready, list_parts, reverse_ready, rotate_ready, size_loop_ready, trunc_rem,
};
use crate::natives::common::{
    array_elems, array_of, aref_field, read_aref_field, read_int_field, read_oref_field, string_elems,
};
use crate::natives::list::{add_all_ready, list_elems, list_ok, list_ready};
use crate::natives::map::size_ok;
use crate::natives::ordered::queue_ready;
use crate::natives::seqs::{remove_ready, size_ready};
use crate::natives::set::set_ready;
use crate::natives::sorting::sort_ready;
use crate::natives::streams::baos_ready;
use crate::natives::threads::join_ready;
use crate::runtime::frame::Frame;
use crate::runtime::jvm::Jvm;
use crate::runtime::value::Value;

verus! {

// Run-time tests of the conditions under which the natives run: each answers exactly
// its condition, so a caller can test it and refuse the call as the program would
// have stopped.

fn live_list_parts<'a>(jvm: &'a Jvm, v: Value) -> (r: Option<(usize, &'a Vec<Value>, i32)>)
    ensures
        match r {
            Some((ar, e, s)) => list_parts(jvm.hv(), v) == Some((ar, e@, s)),
            None => list_parts(jvm.hv(), v) is None,
        },
{
    match v {
        Value::ObjectRef(id) => if id < jvm.heap.len() {
            let ar = read_aref_field(jvm, id, "elementData");
            let s = read_int_field(jvm, id, "size", 0);
            match array_elems(jvm, ar) {
                Some(e) => Some((ar, e, s)),
                None => None,
            }
        } else {
            None
        },
        _ => None,
    }
}

pub fn size_ok_check(jvm: &Jvm, frame: &Frame) -> (b: bool)
    ensures
        b == size_ok(jvm.hv(), *frame),
{
    if frame.locals.len() == 0 {
        return true;
    }
    match frame.locals[0] {
        Value::ObjectRef(id) => read_int_field(jvm, id, "size", 0) >= 0,
        _ => true,
    }
}

pub fn size_ready_check(jvm: &Jvm, frame: &Frame) -> (b: bool)
    ensures
        b == size_ready(jvm.hv(), *frame),
{
    if frame.locals.len() == 0 {
        return true;
    }
    match frame.locals[0] {
        Value::ObjectRef(id) => id >= jvm.heap.len() || read_int_field(jvm, id, "size", 0) >= 0,
        _ => true,
    }
}

fn list_ok_check(jvm: &Jvm, id: usize) -> (b: bool)
    ensures
        b == list_ok(jvm.hv(), id),
{
    let s = read_int_field(jvm, id, "size", 0);
    if s < 0 {
        return false;
    }
    let ar = read_aref_field(jvm, id, "elementData");
    match array_elems(jvm, ar) {
        Some(e) => (s as usize) <= e.len() && e.len() <= (usize::MAX - 2) / 2,
        None => true,
    }
}

pub fn list_ready_check(jvm: &Jvm, frame: &Frame) -> (b: bool)
    ensures
        b == list_ready(jvm.hv(), *frame),
{
    if frame.locals.len() == 0 {
        return true;
    }
    match frame.locals[0] {
        Value::ObjectRef(id) => id >= jvm.heap.len() || list_ok_check(jvm, id),
        _ => true,
    }
}

pub fn remove_ready_check(jvm: &Jvm, frame: &Frame) -> (b: bool)
    ensures
        b == remove_ready(jvm.hv(), *frame),
{
    list_ready_check(jvm, frame)
}

pub fn add_all_ready_check(jvm: &Jvm, frame: &Frame) -> (b: bool)
    ensures
        b == add_all_ready(jvm.hv(), *frame),
{
    if !list_ready_check(jvm, frame) {
        return false;
    }
    if frame.locals.len() == 0 || frame.stack.len() == 0 {
        return true;
    }
    let c = frame.stack[frame.stack.len() - 1];
    match (frame.locals[0], c) {
        (Value::ObjectRef(id), Value::ObjectRef(c)) => {
            if id >= jvm.heap.len() || c >= jvm.heap.len() {
                return true;
            }
            let s = read_int_field(jvm, id, "size", 0);
            let cs = read_int_field(jvm, c, "size", 0);
            let car = read_aref_field(jvm, c, "elementData");
            let n: usize = match array_elems(jvm, car) {
                Some(e) => if cs < 0 || cs as usize > e.len() {
                    e.len()
                } else {
                    cs as usize
                },
                None => 0,
            };
            proof {
                let h = jvm.hv();
                match array_of(h, aref_field(h, c, "elementData"@)) {
                    Some(e) => {
                        assert(list_elems(h, c).len() == n);
                    },
                    None => {},
                }
            }
            if s < 0 {
                return false;
            }
            (s as usize) <= (usize::MAX - 2) / 2 && n <= (usize::MAX - 2) / 2 - s as usize
        },
        _ => true,
    }
}

pub fn set_ready_check(jvm: &Jvm, frame: &Frame) -> (b: bool)
    ensures
        b == set_ready(jvm.hv(), *frame),
{
    if frame.locals.len() == 0 {
        return true;
    }
    match frame.locals[0] {
        Value::ObjectRef(id) => {
            let m = read_oref_field(jvm, id, "map");
            read_int_field(jvm, m, "size", 0) >= 0
        },
        _ => true,
    }
}

pub fn queue_ready_check(jvm: &Jvm, frame: &Frame) -> (b: bool)
    ensures
        b == queue_ready(jvm.hv(), *frame),
{
    if frame.locals.len() == 0 {
        return true;
    }
    match frame.locals[0] {
        Value::ObjectRef(id) => {
            if id >= jvm.heap.len() {
                return true;
            }
            let s = read_int_field(jvm, id, "size", 0);
            if s < 0 {
                return false;
            }
            let qr = read_aref_field(jvm, id, "queue");
            match array_elems(jvm, qr) {
                Some(e) => (s as usize) <= e.len(),
                None => true,
            }
        },
        _ => true,
    }
}

pub fn bitset_set_ready_check(jvm: &Jvm, frame: &Frame) -> (b: bool)
    ensures
        b == bitset_set_ready(jvm.hv(), *frame),
{
    if frame.stack.len() == 0 || frame.locals.len() == 0 {
        return true;
    }
    match frame.locals[0] {
        Value::ObjectRef(id) => {
            if id >= jvm.heap.len() {
                return true;
            }
            let wr = read_aref_field(jvm, id, "words");
            match array_elems(jvm, wr) {
                Some(e) => {
                    let bit = frame.stack[frame.stack.len() - 1].as_int();
                    bit >= 0 || (bit as usize) / 64 < e.len()
                },
                None => true,
            }
        },
        _ => true,
    }
}

pub fn size_loop_ready_check(jvm: &Jvm, v: Value) -> (b: bool)
    ensures
        b == size_loop_ready(jvm.hv(), v),
{
    match live_list_parts(jvm, v) {
        Some((_, _, s)) => 0 <= s,
        None => true,
    }
}

pub fn reverse_ready_check(jvm: &Jvm, frame: &Frame) -> (b: bool)
    ensures
        b == reverse_ready(jvm.hv(), *frame),
{
    if frame.stack.len() == 0 {
        return true;
    }
    match live_list_parts(jvm, frame.stack[frame.stack.len() - 1]) {
        Some((_, e, s)) => 0 <= s && (s < 2 || s as usize <= e.len()),
        None => true,
    }
}

pub fn sort_ready_check(jvm: &Jvm, frame: &Frame, with_comparator: bool) -> (b: bool)
    ensures
        b == sort_ready(jvm.hv(), *frame, with_comparator),
{
    let k: usize = if with_comparator {
        1
    } else {
        0
    };
    if frame.stack.len() < k + 1 {
        return true;
    }
    match live_list_parts(jvm, frame.stack[frame.stack.len() - 1 - k]) {
        Some((ar, e, s)) => ar == 0 || (0 <= s && (s < 2 || s as usize <= e.len())),
        None => true,
    }
}

pub fn rotate_ready_check(jvm: &Jvm, frame: &Frame) -> (b: bool)
    ensures
        b == rotate_ready(jvm.hv(), *frame),
{
    if frame.stack.len() < 2 {
        return true;
    }
    let dist = frame.stack[frame.stack.len() - 1].as_int();
    match live_list_parts(jvm, frame.stack[frame.stack.len() - 2]) {
        Some((_, e, s)) => {
            if s == 0 {
                return true;
            }
            if !(0 < s && s as usize <= e.len()) {
                return false;
            }
            let a: u64 = if dist >= 0 {
                dist as u64
            } else {
                (-(dist as i64)) as u64
            };
            let m = a % (s as u64);
            let rem: i64 = if dist >= 0 {
                m as i64
            } else {
                -(m as i64)
            };
            assert(rem == trunc_rem(dist as int, s as int));
            rem + s as i64 <= 0x7fff_ffff
        },
        None => true,
    }
}

pub fn coll_add_all_ready_check(jvm: &Jvm, frame: &Frame) -> (b: bool)
    ensures
        b == coll_add_all_ready(jvm.hv(), *frame),
{
    if frame.stack.len() < 2 {
        return true;
    }
    let c = frame.stack[frame.stack.len() - 2];
    let a = frame.stack[frame.stack.len() - 1];
    match c {
        Value::ObjectRef(id) => {
            if id >= jvm.heap.len() {
                return true;
            }
            let s = read_int_field(jvm, id, "size", 0);
            if s < 0 {
                return false;
            }
            let n: usize = match a {
                Value::ArrayRef(ar) => match array_elems(jvm, ar) {
                    Some(e) => e.len(),
                    None => 0,
                },
                _ => 0,
            };
            (s as usize) <= (usize::MAX - 2) / 2 && n <= (usize::MAX - 2) / 2 - s as usize
        },
        _ => true,
    }
}

pub fn baos_ready_check(jvm: &Jvm, frame: &Frame) -> (b: bool)
    ensures
        b == baos_ready(jvm.hv(), *frame),
{
    if frame.locals.len() == 0 {
        return true;
    }
    match frame.locals[0] {
        Value::ObjectRef(id) => id >= jvm.heap.len() || read_int_field(jvm, id, "count", 0) >= 0,
        _ => true,
    }
}

pub fn join_ready_check(jvm: &Jvm, frame: &Frame) -> (b: bool)
    ensures
        b == join_ready(*frame, *jvm),
{
    if frame.locals.len() == 0 {
        return true;
    }
    let target: Option<usize> = match frame.locals[0] {
        Value::ObjectRef(id) => match crate::natives::common::get_field_of(jvm, id, "nativeThreadId") {
            Some(Value::Int(n)) => if n as usize > 0 {
                Some(n as usize)
            } else {
                None
            },
            _ => None,
        },
        _ => None,
    };
    match target {
        Some(t) => {
            if jvm.scheduler.is_thread_terminated(t) {
                return true;
            }
            match jvm.scheduler.get_current_thread() {
                Some(c) => jvm.scheduler.get_thread(c).is_none(),
                None => false,
            }
        },
        None => true,
    }
}

} // verus!
