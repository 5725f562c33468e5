use vstd::prelude::*;
use crate::natives::arrays::{copy_prefix, heap_with_array};
use crate::natives::clock::clock_reading;
use crate::natives::collections::{list_parts, reverse_ready};
use crate::natives::common::{outcome, pop1, top, Effect};
use crate::runtime::error::JvmError;
use crate::runtime::frame::{underflow_error, Frame};
use crate::runtime::heap::ObjectView;
use crate::runtime::jvm::{same_but_heap, Jvm};
use crate::runtime::value::Value;

verus! {

// ---------- java.util.Collections.shuffle, driven by clock readings ----------

/// The position that slot `i` trades places with when the clock reads `t`.
pub open spec fn swap_partner(t: u128, i: int) -> int {
    (t as int + i) % (i + 1)
}

/// The elements after `shuffle`'s swaps for the slots `i` down to 1: slot `i`
/// trades places with `swap_partner(stamps[k], i)`, `k` counting the swaps made
/// before it.
pub open spec fn shuffled(e: Seq<Value>, i: int, stamps: Seq<u128>, k: int) -> Seq<Value>
    decreases i,
{
    if i < 1 {
        e
    } else {
        let j = swap_partner(stamps[k], i);
        shuffled(e.update(i, e[j]).update(j, e[i]), i - 1, stamps, k + 1)
    }
}

/// How many clock readings `shuffle` takes for the list on top of the stack: one
/// per slot from `size - 1` down to 1.
pub open spec fn shuffle_swap_count(h: Seq<ObjectView>, f: Frame) -> nat {
    if f.stack@.len() == 0 {
        0
    } else {
        match list_parts(h, top(f, 0)) {
            Some((_, e, s)) => if s >= 2 {
                (s - 1) as nat
            } else {
                0
            },
            None => 0,
        }
    }
}

/// `Collections.shuffle(list)` with clock readings `stamps`: the list's array holds
/// `shuffled` of its elements from slot `size - 1` down.
pub open spec fn shuffle(f: Frame, h: Seq<ObjectView>, stamps: Seq<u128>) -> Effect {
    if f.stack@.len() == 0 {
        Err(underflow_error())
    } else {
        Ok((match list_parts(h, top(f, 0)) {
            Some((ar, e, s)) => heap_with_array(h, ar, shuffled(e, s - 1, stamps, 0)),
            None => h,
        }, 1, None))
    }
}

/// The number of clock readings `shuffle_native` needs for this call.
pub fn shuffle_swap_count_exec(jvm: &Jvm, frame: &Frame) -> (n: usize)
    ensures
        n == shuffle_swap_count(jvm.hv(), *frame),
{
    if frame.stack.len() == 0 {
        return 0;
    }
    match crate::natives::collections::list_parts_exec(jvm, frame.stack[frame.stack.len() - 1]) {
        Some((_, _, s)) => if s >= 2 {
            (s - 1) as usize
        } else {
            0
        },
        None => 0,
    }
}

/// The partner of slot `i` for reading `t`, computed without overflow.
fn swap_partner_exec(t: u128, i: usize) -> (j: usize)
    requires
        1 <= i,
    ensures
        j == swap_partner(t, i as int),
        j <= i,
{
    let m = (i as u128) + 1;
    let r = ((t % m) + (i as u128)) % m;
    proof {
        vstd::arithmetic::div_mod::lemma_add_mod_noop(t as int, i as int, m as int);
        vstd::arithmetic::div_mod::lemma_mod_twice(i as int, m as int);
        assert((i as int) % (m as int) == i as int) by {
            vstd::arithmetic::div_mod::lemma_small_mod(i as nat, m as nat);
        }
    }
    r as usize
}

pub fn shuffle_native(frame: &mut Frame, jvm: &mut Jvm, stamps: &Vec<u128>) -> (r: Result<(), JvmError>)
    requires
        reverse_ready(old(jvm).hv(), *old(frame)),
        shuffle_swap_count(old(jvm).hv(), *old(frame)) <= stamps@.len(),
    ensures
        same_but_heap(*old(jvm), *final(jvm)),
        outcome(*old(frame), old(jvm).hv(), *final(frame), final(jvm).hv(), r,
            shuffle(*old(frame), old(jvm).hv(), stamps@)),
{
    let l = pop1(frame)?;
    let changed: Option<(usize, Vec<Value>)> = match crate::natives::collections::list_parts_exec(jvm, l) {
        Some((ar, e, s)) => {
            let mut v: Vec<Value> = copy_prefix(e, e.len());
            assert(v@ =~= e@);
            if s >= 2 {
                let mut i: usize = (s - 1) as usize;
                let mut k: usize = 0;
                while i >= 1
                    invariant
                        1 <= s,
                        (s as int) <= e@.len(),
                        i < e@.len(),
                        v@.len() == e@.len(),
                        k + i == s - 1,
                        k <= stamps@.len(),
                        s - 1 <= stamps@.len(),
                        shuffled(v@, i as int, stamps@, k as int) == shuffled(e@, s - 1, stamps@, 0),
                    decreases i,
                {
                    let j = swap_partner_exec(stamps[k], i);
                    let ghost before = v@;
                    let a = v[i];
                    let b = v[j];
                    v.set(i, b);
                    v.set(j, a);
                    assert(v@ == before.update(i as int, before[j as int]).update(j as int, before[i as int]));
                    i -= 1;
                    k += 1;
                }
            }
            Some((ar, v))
        },
        None => None,
    };
    if let Some((ar, v)) = changed {
        jvm.set_array(ar, v);
    }
    Ok(())
}

/// `Collections.shuffle(list)`, reading the clock once per swap: the list ends as
/// `shuffle` says for some sequence of readings.
pub fn shuffle_now(frame: &mut Frame, jvm: &mut Jvm) -> (r: Result<(), JvmError>)
    requires
        reverse_ready(old(jvm).hv(), *old(frame)),
    ensures
        same_but_heap(*old(jvm), *final(jvm)),
        exists|stamps: Seq<u128>|
            #![trigger shuffle(*old(frame), old(jvm).hv(), stamps)]
            outcome(*old(frame), old(jvm).hv(), *final(frame), final(jvm).hv(), r, shuffle(*old(frame), old(jvm).hv(), stamps)),
{
    let n = shuffle_swap_count_exec(jvm, frame);
    let mut stamps: Vec<u128> = Vec::new();
    let mut i: usize = 0;
    while i < n
        invariant
            i <= n,
            stamps@.len() == i,
        decreases n - i,
    {
        stamps.push(clock_reading());
        i += 1;
    }
    shuffle_native(frame, jvm, &stamps)
}

} // verus!
