use vstd::prelude::*;
use vstd::arithmetic::power2::{lemma_pow2_pos, lemma_pow2_strictly_increases, lemma_pow2_unfold, pow2};
use crate::natives::arrays::{count_upto, heap_with_array};
use crate::natives::collections::{list_parts, size_loop_ready};
use crate::natives::common::{array_elems, outcome, pop1, pop2, read_aref_field, read_int_field, top, Effect};
use crate::runtime::error::JvmError;
use crate::runtime::frame::{underflow_error, Frame};
use crate::runtime::heap::ObjectView;
use crate::runtime::jvm::{same_but_heap, Jvm};
use crate::runtime::value::Value;

verus! {

// ---------- float to long, on bit patterns ----------

/// `m * 2^k`, truncated toward zero when `k` is negative.
pub open spec fn scaled(m: nat, k: int) -> nat {
    if k >= 0 {
        m * pow2(k as nat)
    } else {
        m / pow2((-k) as nat)
    }
}

/// A signed magnitude as a `long`, saturating at the ends of the range.
pub open spec fn saturate(neg: bool, mag: nat) -> i64 {
    if neg {
        if mag >= 0x8000_0000_0000_0000 {
            i64::MIN
        } else {
            (-(mag as int)) as i64
        }
    } else {
        if mag >= 0x7fff_ffff_ffff_ffff {
            i64::MAX
        } else {
            mag as i64
        }
    }
}

/// The `as i64` conversion of a binary float given by its sign, biased exponent `e`
/// and fraction `f` (`emax` the exponent of infinities and NaN, `hidden` the implicit
/// leading bit, `bias` the exponent that scales the significand to an integer): NaN
/// is 0, infinities and out-of-range values saturate, the rest truncates toward zero.
pub open spec fn float_to_long(neg: bool, e: nat, f: nat, emax: nat, hidden: nat, bias: int) -> i64 {
    if e == emax {
        if f != 0 {
            0
        } else {
            saturate(neg, 0x8000_0000_0000_0000)
        }
    } else if e == 0 {
        0
    } else {
        saturate(neg, scaled(f + hidden, e - bias))
    }
}

/// `f32::from_bits(b) as i64`.
pub open spec fn f32_to_long(b: u32) -> i64 {
    float_to_long(b >= 0x8000_0000, ((b / 0x80_0000) % 0x100) as nat, (b % 0x80_0000) as nat, 0xff, 0x80_0000, 150)
}

/// `f64::from_bits(b) as i64`.
pub open spec fn f64_to_long(b: u64) -> i64 {
    float_to_long(
        b >= 0x8000_0000_0000_0000,
        ((b / 0x10_0000_0000_0000) % 0x800) as nat,
        (b % 0x10_0000_0000_0000) as nat,
        0x7ff,
        0x10_0000_0000_0000,
        1075,
    )
}

/// `scaled(m, k)`, capped at 2^63.
fn magnitude(m: u64, k: i64) -> (r: u64)
    requires
        m < 0x20_0000_0000_0000,
        -2000 < k < 4000,
    ensures
        r == if scaled(m as nat, k as int) >= 0x8000_0000_0000_0000 {
            0x8000_0000_0000_0000
        } else {
            scaled(m as nat, k as int)
        },
{
    if k >= 0 {
        let mut v: u64 = m;
        let mut j: i64 = 0;
        proof {
            vstd::arithmetic::power2::lemma2_to64();
            assert(m * pow2(0) == m * 1);
        }
        while j < k && v < 0x8000_0000_0000_0000
            invariant
                0 <= j <= k,
                v as nat == m * pow2(j as nat),
            decreases k - j,
        {
            proof {
                lemma_pow2_unfold((j + 1) as nat);
                assert(m * pow2((j + 1) as nat) == (m * pow2(j as nat)) * 2) by (nonlinear_arith)
                    requires
                        pow2((j + 1) as nat) == 2 * pow2(j as nat),
                ;
            }
            v = v * 2;
            j += 1;
        }
        if v >= 0x8000_0000_0000_0000 {
            proof {
                if j < k {
                    lemma_pow2_strictly_increases(j as nat, k as nat);
                    assert(m * pow2(j as nat) <= m * pow2(k as nat)) by (nonlinear_arith)
                        requires
                            pow2(j as nat) < pow2(k as nat),
                    ;
                }
            }
            0x8000_0000_0000_0000
        } else {
            v
        }
    } else {
        let kk: i64 = -k;
        let mut v: u64 = m;
        let mut j: i64 = 0;
        proof {
            vstd::arithmetic::power2::lemma2_to64();
            assert(m as nat / pow2(0) == m);
        }
        while j < kk
            invariant
                0 <= j <= kk,
                v as nat == m as nat / pow2(j as nat),
            decreases kk - j,
        {
            proof {
                lemma_pow2_unfold((j + 1) as nat);
                lemma_pow2_pos(j as nat);
                vstd::arithmetic::div_mod::lemma_div_denominator(m as int, pow2(j as nat) as int, 2);
            }
            v = v / 2;
            j += 1;
        }
        proof {
            lemma_pow2_pos(kk as nat);
            assert(m as nat / pow2(kk as nat) <= m) by (nonlinear_arith)
                requires
                    pow2(kk as nat) > 0,
            ;
        }
        v
    }
}

fn saturate_exec(neg: bool, mag: u64) -> (r: i64)
    requires
        mag <= 0x8000_0000_0000_0000,
    ensures
        r == saturate(neg, mag as nat),
{
    if neg {
        if mag >= 0x8000_0000_0000_0000 {
            i64::MIN
        } else {
            -(mag as i64)
        }
    } else {
        if mag >= 0x7fff_ffff_ffff_ffff {
            i64::MAX
        } else {
            mag as i64
        }
    }
}

fn float_to_long_exec(neg: bool, e: u64, f: u64, emax: u64, hidden: u64, bias: i64) -> (r: i64)
    requires
        f < hidden,
        hidden <= 0x10_0000_0000_0000,
        e <= emax < 0x800,
        0 <= bias < 1100,
    ensures
        r == float_to_long(neg, e as nat, f as nat, emax as nat, hidden as nat, bias as int),
{
    if e == emax {
        if f != 0 {
            0
        } else {
            saturate_exec(neg, 0x8000_0000_0000_0000)
        }
    } else if e == 0 {
        0
    } else {
        let mag = magnitude(f + hidden, e as i64 - bias);
        saturate_exec(neg, mag)
    }
}

/// The key `Collections.sort`, `max` and `min` order elements by: the number a
/// primitive holds (a float converted as `as i64` converts it), the reference number
/// of an object or array, 1 and 0 for booleans, 0 for `null`.
pub open spec fn sort_key(v: Value) -> i64 {
    match v {
        Value::Int(x) => x as i64,
        Value::Long(x) => x,
        Value::Float(b) => f32_to_long(b),
        Value::Double(b) => f64_to_long(b),
        Value::Byte(x) => x as i64,
        Value::Short(x) => x as i64,
        Value::Char(c) => c as i64,
        Value::Boolean(b) => if b {
            1
        } else {
            0
        },
        Value::ObjectRef(id) => id as i64,
        Value::ArrayRef(id) => id as i64,
        Value::Null => 0,
    }
}

pub fn sort_key_exec(v: Value) -> (k: i64)
    ensures
        k == sort_key(v),
{
    match v {
        Value::Int(x) => x as i64,
        Value::Long(x) => x,
        Value::Float(b) => float_to_long_exec(
            b >= 0x8000_0000,
            ((b / 0x80_0000) % 0x100) as u64,
            (b % 0x80_0000) as u64,
            0xff,
            0x80_0000,
            150,
        ),
        Value::Double(b) => float_to_long_exec(
            b >= 0x8000_0000_0000_0000,
            (b / 0x10_0000_0000_0000) % 0x800,
            b % 0x10_0000_0000_0000,
            0x7ff,
            0x10_0000_0000_0000,
            1075,
        ),
        Value::Byte(x) => x as i64,
        Value::Short(x) => x as i64,
        Value::Char(c) => c as i64,
        Value::Boolean(b) => if b {
            1
        } else {
            0
        },
        Value::ObjectRef(id) => id as i64,
        Value::ArrayRef(id) => id as i64,
        Value::Null => 0,
    }
}

// ---------- Collections.max / min ----------

/// The position of the first element with the largest (`max`) or smallest key among
/// the first `n` of `e` (0 when there are none).
pub open spec fn best_index(e: Seq<Value>, n: int, max: bool) -> int
    decreases n,
{
    if n <= 1 {
        0
    } else {
        let b = best_index(e, n - 1, max);
        if (if max {
            sort_key(e[n - 1]) > sort_key(e[b])
        } else {
            sort_key(e[n - 1]) < sort_key(e[b])
        }) {
            n - 1
        } else {
            b
        }
    }
}

proof fn lemma_best_index_bounds(e: Seq<Value>, n: int, max: bool)
    ensures
        0 <= best_index(e, n, max),
        n >= 1 ==> best_index(e, n, max) < n,
    decreases n,
{
    if n > 1 {
        lemma_best_index_bounds(e, n - 1, max);
    }
}

/// `Collections.max(c)` and `min(c)`: the first element with the largest (smallest)
/// key among the first `size`; `Null` for an empty or missing collection.
pub open spec fn extreme(f: Frame, h: Seq<ObjectView>, max: bool) -> Effect {
    if f.stack@.len() == 0 {
        Err(underflow_error())
    } else {
        Ok((h, 1, Some(match list_parts(h, top(f, 0)) {
            Some((_, e, s)) => if s > 0 && e.len() > 0 {
                e[best_index(e, count_upto(s, e.len()) as int, max)]
            } else {
                Value::Null
            },
            None => Value::Null,
        })))
    }
}

pub fn extreme_native(frame: &mut Frame, jvm: &mut Jvm, max: bool) -> (r: Result<(), JvmError>)
    requires
        old(frame).stack@.len() >= 1 ==> size_loop_ready(old(jvm).hv(), top(*old(frame), 0)),
    ensures
        *final(jvm) == *old(jvm),
        outcome(*old(frame), old(jvm).hv(), *final(frame), final(jvm).hv(), r, extreme(*old(frame), old(jvm).hv(), max)),
{
    let c = pop1(frame)?;
    let mut result = Value::Null;
    if let Value::ObjectRef(id) = c {
        if id < jvm.heap.len() {
            let ar = read_aref_field(jvm, id, "elementData");
            let s = read_int_field(jvm, id, "size", 0);
            match array_elems(jvm, ar) {
                Some(e) => {
                    if s > 0 && e.len() > 0 {
                        let n: usize = if s as usize > e.len() {
                            e.len()
                        } else {
                            s as usize
                        };
                        let mut b: usize = 0;
                        let mut i: usize = 1;
                        while i < n
                            invariant
                                1 <= i <= n,
                                n <= e@.len(),
                                b as int == best_index(e@, i as int, max),
                            decreases n - i,
                        {
                            proof {
                                lemma_best_index_bounds(e@, i as int, max);
                            }
                            let better = if max {
                                sort_key_exec(e[i]) > sort_key_exec(e[b])
                            } else {
                                sort_key_exec(e[i]) < sort_key_exec(e[b])
                            };
                            if better {
                                b = i;
                            }
                            i += 1;
                        }
                        proof {
                            lemma_best_index_bounds(e@, n as int, max);
                        }
                        result = e[b];
                    }
                },
                None => {},
            }
        }
    }
    frame.push(result);
    Ok(())
}

// ---------- Collections.sort ----------

/// One bubble pass over slots `j..end`: each element whose key is larger than its
/// right neighbour's is swapped with it.
pub open spec fn bubble_pass(e: Seq<Value>, j: int, end: int) -> Seq<Value>
    decreases end - j,
{
    if j >= end || j < 0 || j + 1 >= e.len() {
        e
    } else {
        let e2 = if sort_key(e[j]) > sort_key(e[j + 1]) {
            e.update(j, e[j + 1]).update(j + 1, e[j])
        } else {
            e
        };
        bubble_pass(e2, j + 1, end)
    }
}

/// Passes `i..n` of bubble sort over the first `n` slots (pass `i` stops `i` slots
/// short of `n`).
pub open spec fn bubble(e: Seq<Value>, n: int, i: int) -> Seq<Value>
    decreases n - i,
{
    if i >= n || i < 0 {
        e
    } else {
        bubble(bubble_pass(e, 0, n - i - 1), n, i + 1)
    }
}

/// `Collections.sort` swaps within the first `size` slots: a negative size, or one
/// past the array once two elements are compared, stops the program.
pub open spec fn sort_ready(h: Seq<ObjectView>, f: Frame, with_comparator: bool) -> bool {
    let k: nat = if with_comparator {
        1
    } else {
        0
    };
    f.stack@.len() >= k + 1 ==> match list_parts(h, top(f, k)) {
        Some((ar, e, s)) => ar != 0 ==> 0 <= s && (s < 2 || s <= e.len()),
        None => true,
    }
}

/// `Collections.sort(list)` (one value popped) and `sort(list, comparator)` (two
/// popped, the comparator unused): the first `size` elements bubble-sorted by
/// `sort_key`; nothing happens when the list's element array is reference 0.
pub open spec fn list_sort(f: Frame, h: Seq<ObjectView>, with_comparator: bool) -> Effect {
    let k: nat = if with_comparator {
        1
    } else {
        0
    };
    if f.stack@.len() < k + 1 {
        Err(underflow_error())
    } else {
        Ok((match list_parts(h, top(f, k)) {
            Some((ar, e, s)) => if ar != 0 {
                heap_with_array(h, ar, bubble(e, s as int, 0))
            } else {
                h
            },
            None => h,
        }, k + 1, None))
    }
}

/// A copy of `e` with its first `n` elements bubble-sorted by `sort_key`.
pub fn sorted_copy(e: &Vec<Value>, n: usize) -> (v: Vec<Value>)
    requires
        n < 2 || n <= e@.len(),
    ensures
        v@ == bubble(e@, n as int, 0),
{
    let mut v = crate::natives::arrays::copy_prefix(e, e.len());
    proof {
        assert(e@.take(e@.len() as int) =~= e@);
    }
    let mut i: usize = 0;
    while i < n
        invariant
            i <= n,
            v@.len() == e@.len(),
            n < 2 || n <= e@.len(),
            bubble(v@, n as int, i as int) == bubble(e@, n as int, 0),
        decreases n - i,
    {
        let end = n - i - 1;
        let ghost start = v@;
        let mut j: usize = 0;
        while j < end
            invariant
                j <= end,
                end == n - i - 1,
                i < n,
                n < 2 || n <= e@.len(),
                v@.len() == e@.len(),
                bubble_pass(v@, j as int, end as int) == bubble_pass(start, 0, end as int),
            decreases end - j,
        {
            let a = v[j];
            let b = v[j + 1];
            if sort_key_exec(a) > sort_key_exec(b) {
                v.set(j, b);
                v.set(j + 1, a);
            }
            j += 1;
        }
        i += 1;
    }
    v
}

pub fn list_sort_native(frame: &mut Frame, jvm: &mut Jvm, with_comparator: bool) -> (r: Result<(), JvmError>)
    requires
        sort_ready(old(jvm).hv(), *old(frame), with_comparator),
    ensures
        same_but_heap(*old(jvm), *final(jvm)),
        outcome(*old(frame), old(jvm).hv(), *final(frame), final(jvm).hv(), r,
            list_sort(*old(frame), old(jvm).hv(), with_comparator)),
{
    let l = if with_comparator {
        let (l, _comparator) = pop2(frame)?;
        l
    } else {
        pop1(frame)?
    };
    let sorted: Option<(usize, Vec<Value>)> = match live_parts(jvm, l) {
        Some((ar, e, s)) => if ar != 0 {
            let n = s as usize;
            let v = sorted_copy(e, n);
            Some((ar, v))
        } else {
            None
        },
        None => None,
    };
    if let Some((ar, v)) = sorted {
        jvm.set_array(ar, v);
    }
    Ok(())
}

fn live_parts<'a>(jvm: &'a Jvm, v: Value) -> (r: Option<(usize, &'a Vec<Value>, i32)>)
    ensures
        match r {
            Some((ar, e, s)) => list_parts(jvm.hv(), v) == Some((ar, e@, s)),
            None => list_parts(jvm.hv(), v) is None,
        },
{
    match v {
        Value::ObjectRef(id) => if id < jvm.heap.len() {
            let ar = read_aref_field(jvm, id, "elementData");
            let s = read_int_field(jvm, id, "size", 0);
            match array_elems(jvm, ar) {
                Some(e) => Some((ar, e, s)),
                None => None,
            }
        } else {
            None
        },
        _ => None,
    }
}

proof fn lemma_best_index_is_best(e: Seq<Value>, n: int, max: bool)
    requires
        1 <= n <= e.len(),
    ensures
        0 <= best_index(e, n, max) < n,
        forall|j: int| 0 <= j < n ==> (if max {
            sort_key(#[trigger] e[j]) <= sort_key(e[best_index(e, n, max)])
        } else {
            sort_key(#[trigger] e[j]) >= sort_key(e[best_index(e, n, max)])
        }),
        forall|j: int| 0 <= j < best_index(e, n, max) ==> (if max {
            sort_key(#[trigger] e[j]) < sort_key(e[best_index(e, n, max)])
        } else {
            sort_key(#[trigger] e[j]) > sort_key(e[best_index(e, n, max)])
        }),
    decreases n,
{
    if n > 1 {
        lemma_best_index_is_best(e, n - 1, max);
    }
}

/// `Collections.max` answers an element among the first `size` that no other element
/// there is above, and the first such one; `Collections.min` one that none is below,
/// again the first. An empty list, or an argument that is no list, answers `null`.
/// Nothing else changes.
pub proof fn law_collections_max_min(f: Frame, h: Seq<ObjectView>, max: bool)
    requires
        f.stack@.len() >= 1,
    ensures
        extreme(f, h, max) is Ok,
        extreme(f, h, max)->Ok_0.0 == h,
        extreme(f, h, max)->Ok_0.2 is Some,
        ({
            let r = extreme(f, h, max)->Ok_0.2->0;
            match list_parts(h, top(f, 0)) {
                Some((_, e, s)) => if s > 0 && e.len() > 0 {
                    let n = count_upto(s, e.len()) as int;
                    exists|k: int| #![trigger e[k]] 0 <= k < n && r == e[k]
                        && (forall|j: int| 0 <= j < n ==> (if max {
                            sort_key(#[trigger] e[j]) <= sort_key(e[k])
                        } else {
                            sort_key(#[trigger] e[j]) >= sort_key(e[k])
                        }))
                        && (forall|j: int| 0 <= j < k ==> (if max {
                            sort_key(#[trigger] e[j]) < sort_key(e[k])
                        } else {
                            sort_key(#[trigger] e[j]) > sort_key(e[k])
                        }))
                } else {
                    r == Value::Null
                },
                None => r == Value::Null,
            }
        }),
{
    match list_parts(h, top(f, 0)) {
        Some((_, e, s)) => if s > 0 && e.len() > 0 {
            let n = count_upto(s, e.len()) as int;
            lemma_best_index_is_best(e, n, max);
            let k = best_index(e, n, max);
            assert(extreme(f, h, max)->Ok_0.2->0 == e[k]);
        },
        None => {},
    }
}

} // verus!
