use vstd::prelude::*;
use crate::natives::arrays::heap_with_array;
use crate::natives::common::{
    array_elems, array_of, aref_field, call_error, field_of, instance_outcome, outcome, pop1_this, popped,
    read_aref_field, this0, this_of, top, Effect,
};
use crate::runtime::error::JvmError;
use crate::runtime::frame::Frame;
use crate::runtime::heap::{HeapObject, ObjectView};
use crate::runtime::jvm::{heap_set_field, same_but_heap, Jvm};
use crate::runtime::value::{spec_as_int, Value};

verus! {

/// `BitSet()`: the receiver gets an empty word array (`long[]`) and size 0.
pub open spec fn bitset_init(h: Seq<ObjectView>, this: Value) -> Seq<ObjectView> {
    match this {
        Value::ObjectRef(_) => heap_set_field(
            heap_set_field(
                h.push(ObjectView::array_obj("[J"@, Seq::<Value>::empty())),
                this,
                "words"@,
                Value::ArrayRef(h.len() as usize),
            ),
            this,
            "size"@,
            Value::Int(0),
        ),
        _ => h,
    }
}

pub fn bitset_init_native(frame: &mut Frame, jvm: &mut Jvm) -> (r: Result<(), JvmError>)
    ensures
        same_but_heap(*old(jvm), *final(jvm)),
        *final(frame) == *old(frame),
        match call_error(*old(frame), 0) {
            Some(e) => r == Err::<(), JvmError>(e) && final(jvm).hv() == old(jvm).hv(),
            None => r == Ok::<(), JvmError>(()) && final(jvm).hv() == bitset_init(old(jvm).hv(), this_of(*old(frame))),
        },
{
    let this = this0(frame)?;
    match this {
        Value::ObjectRef(_) => {
            let a = jvm.allocate(HeapObject::new_array(String::from_str("[J"), 0));
            proof {
                assert(Seq::new(0, |i: int| Value::Null) =~= Seq::<Value>::empty());
            }
            jvm.set_field(this, "words", Value::ArrayRef(a));
            jvm.set_field(this, "size", Value::Int(0));
        },
        _ => {},
    }
    Ok(())
}

/// The word that bit `b` lives in: the bit number is taken as an unsigned machine
/// word, so a negative one names a word far past any array.
pub open spec fn word_index(b: i32) -> usize {
    (b as usize) / 64
}

/// The position of bit `b` in its word.
pub open spec fn bit_index(b: i32) -> usize {
    (b as usize) % 64
}

/// The `long` a word slot holds (0 for anything else).
pub open spec fn long_of(v: Value) -> i64 {
    match v {
        Value::Long(x) => x,
        _ => 0,
    }
}

/// Whether bit `i` of a word slot is set (a slot that holds no `long` has none set).
pub open spec fn word_has_bit(v: Value, i: usize) -> bool {
    match v {
        Value::Long(x) => ((x as u64) >> (i as u64)) & 1u64 == 1u64,
        _ => false,
    }
}

/// `x` with bit `i` set.
pub open spec fn with_bit(x: i64, i: usize) -> i64 {
    ((x as u64) | (1u64 << (i as u64))) as i64
}

/// `x` with bit `i` cleared.
pub open spec fn without_bit(x: i64, i: usize) -> i64 {
    ((x as u64) & !(1u64 << (i as u64))) as i64
}

/// The words of the receiver's `words` array, when it has one.
pub open spec fn bit_words(h: Seq<ObjectView>, id: usize) -> Option<Seq<Value>> {
    match field_of(h, id, "words"@) {
        Some(Value::ArrayRef(w)) => array_of(h, w),
        _ => None,
    }
}

/// `get(bit)`: whether the bit is set in the word array.
pub open spec fn bitset_get(h: Seq<ObjectView>, id: usize, b: i32) -> bool {
    match bit_words(h, id) {
        Some(e) => word_index(b) < e.len() && word_has_bit(e[word_index(b) as int], bit_index(b)),
        None => false,
    }
}

fn word_has_bit_exec(v: Value, i: usize) -> (r: bool)
    requires
        i < 64,
    ensures
        r == word_has_bit(v, i),
{
    match v {
        Value::Long(x) => ((x as u64) >> (i as u64)) & 1u64 == 1u64,
        _ => false,
    }
}

fn bit_words_exec(jvm: &Jvm, id: usize) -> (r: Option<(usize, &Vec<Value>)>)
    ensures
        match r {
            Some((w, e)) => field_of(jvm.hv(), id, "words"@) == Some(Value::ArrayRef(w))
                && bit_words(jvm.hv(), id) == Some(e@),
            None => bit_words(jvm.hv(), id) is None,
        },
{
    match crate::natives::common::get_field_of(jvm, id, "words") {
        Some(Value::ArrayRef(w)) => match array_elems(jvm, w) {
            Some(e) => Some((w, e)),
            None => None,
        },
        _ => None,
    }
}

pub fn bitset_get_native(frame: &mut Frame, jvm: &mut Jvm) -> (r: Result<(), JvmError>)
    ensures
        *final(jvm) == *old(jvm),
        instance_outcome(*old(frame), old(jvm).hv(), *final(frame), final(jvm).hv(), r, 1,
            |id: usize| (old(jvm).hv(), Some(Value::Boolean(bitset_get(old(jvm).hv(), id, spec_as_int(top(*old(frame), 0)))))),
            false, Some(Value::Boolean(false))),
{
    let (this, bv) = pop1_this(frame)?;
    let b = bv.as_int();
    let u = b as usize;
    let wi = u / 64;
    let bi = u % 64;
    let mut result = false;
    if let Value::ObjectRef(id) = this {
        if id < jvm.heap.len() {
            match bit_words_exec(jvm, id) {
                Some((_, e)) => {
                    if wi < e.len() {
                        result = word_has_bit_exec(e[wi], bi);
                    }
                },
                None => {},
            }
        }
    }
    frame.push(Value::Boolean(result));
    Ok(())
}

/// The word array grown to hold word `w`: at least ten slots, the `long`s kept and
/// every other slot 0.
pub open spec fn grown_words(e: Seq<Value>, w: nat) -> Seq<Value> {
    if w >= e.len() {
        Seq::new(
            if w + 1 > 10 {
                (w + 1) as nat
            } else {
                10
            },
            |i: int| if i < e.len() && e[i] is Long {
                e[i]
            } else {
                Value::Long(0)
            },
        )
    } else {
        e
    }
}

/// Growing stops the program when the bit is negative and its word lies past the
/// array (the new array would not fit in memory).
pub open spec fn bitset_set_ready(h: Seq<ObjectView>, f: Frame) -> bool {
    f.stack@.len() > 0 && f.locals@.len() > 0 ==> match f.locals@[0] {
        Value::ObjectRef(id) => id < h.len() ==> match array_of(h, aref_field(h, id, "words"@)) {
            Some(e) => spec_as_int(top(f, 0)) >= 0 || word_index(spec_as_int(top(f, 0))) < e.len(),
            None => true,
        },
        _ => true,
    }
}

/// `set(bit)`: the word array (that of a live receiver; array 0 for a reference to no
/// object, whose bit 0 is set) grows when the word lies past it and the bit is set;
/// the receiver's size becomes `bit + 1` (wrapping).
pub open spec fn bitset_set(h: Seq<ObjectView>, id: usize, b: i32) -> Seq<ObjectView> {
    let live = id < h.len();
    let w: nat = if live {
        word_index(b) as nat
    } else {
        0
    };
    let i: usize = if live {
        bit_index(b)
    } else {
        0
    };
    let wr = aref_field(h, id, "words"@);
    let h1 = match array_of(h, wr) {
        Some(e) => {
            let e2 = grown_words(e, w);
            heap_with_array(h, wr, e2.update(w as int, Value::Long(with_bit(long_of(e2[w as int]), i))))
        },
        None => h,
    };
    heap_set_field(h1, Value::ObjectRef(id), "size"@, Value::Int(b.wrapping_add(1)))
}

fn grown_words_exec(e: &Vec<Value>, w: usize) -> (r: Vec<Value>)
    requires
        w >= e@.len(),
        w < usize::MAX,
    ensures
        r@ == grown_words(e@, w as nat),
{
    let n: usize = if w + 1 > 10 {
        w + 1
    } else {
        10
    };
    let mut r: Vec<Value> = Vec::new();
    let mut i: usize = 0;
    while i < n
        invariant
            i <= n,
            n == (if w + 1 > 10 { (w + 1) as nat } else { 10 }),
            w >= e@.len(),
            r@ == grown_words(e@, w as nat).take(i as int),
        decreases n - i,
    {
        let x = if i < e.len() {
            match e[i] {
                Value::Long(v) => Value::Long(v),
                _ => Value::Long(0),
            }
        } else {
            Value::Long(0)
        };
        r.push(x);
        i += 1;
        assert(r@ =~= grown_words(e@, w as nat).take(i as int));
    }
    assert(r@ =~= grown_words(e@, w as nat));
    r
}

/// The whole call: a receiver that is no object reference changes nothing.
pub open spec fn bitset_set_effect(f: Frame, h: Seq<ObjectView>) -> Effect {
    match call_error(f, 1) {
        Some(e) => Err(e),
        None => match this_of(f) {
            Value::ObjectRef(id) => Ok((bitset_set(h, id, spec_as_int(top(f, 0))), 1, None)),
            _ => Ok((h, 1, None)),
        },
    }
}

pub fn bitset_set_native(frame: &mut Frame, jvm: &mut Jvm) -> (r: Result<(), JvmError>)
    requires
        bitset_set_ready(old(jvm).hv(), *old(frame)),
    ensures
        same_but_heap(*old(jvm), *final(jvm)),
        outcome(*old(frame), old(jvm).hv(), *final(frame), final(jvm).hv(), r, bitset_set_effect(*old(frame), old(jvm).hv())),
{
    let (this, bv) = pop1_this(frame)?;
    let b = bv.as_int();
    if let Value::ObjectRef(id) = this {
        let ghost h = jvm.hv();
        let live = id < jvm.heap.len();
        let u = b as usize;
        let w: usize = if live {
            u / 64
        } else {
            0
        };
        let i: usize = if live {
            u % 64
        } else {
            0
        };
        let wr = read_aref_field(jvm, id, "words");
        let updated: Option<Vec<Value>> = match array_elems(jvm, wr) {
            Some(e) => {
                let mut e2 = if w >= e.len() {
                    grown_words_exec(e, w)
                } else {
                    crate::natives::arrays::copy_prefix(e, e.len())
                };
                proof {
                    assert(e@.take(e@.len() as int) =~= e@);
                }
                let x: i64 = match e2[w] {
                    Value::Long(v) => v,
                    _ => 0,
                };
                let nx = ((x as u64) | (1u64 << (i as u64))) as i64;
                e2.set(w, Value::Long(nx));
                Some(e2)
            },
            None => None,
        };
        match updated {
            Some(v) => jvm.set_array(wr, v),
            None => {},
        }
        jvm.set_field(this, "size", Value::Int(b.wrapping_add(1)));
        assert(jvm.hv() =~= bitset_set(h, id, b));
    }
    Ok(())
}

/// `clear(bit)`: the bit is cleared when its word is in the array.
pub open spec fn bitset_clear(h: Seq<ObjectView>, id: usize, b: i32) -> Seq<ObjectView> {
    let w = word_index(b);
    let wr = aref_field(h, id, "words"@);
    match array_of(h, wr) {
        Some(e) => if w < e.len() {
            heap_with_array(h, wr, e.update(w as int, Value::Long(without_bit(long_of(e[w as int]), bit_index(b)))))
        } else {
            h
        },
        None => h,
    }
}

pub fn bitset_clear_native(frame: &mut Frame, jvm: &mut Jvm) -> (r: Result<(), JvmError>)
    ensures
        same_but_heap(*old(jvm), *final(jvm)),
        instance_outcome(*old(frame), old(jvm).hv(), *final(frame), final(jvm).hv(), r, 1,
            |id: usize| (bitset_clear(old(jvm).hv(), id, spec_as_int(top(*old(frame), 0))), None),
            false, None),
{
    let (this, bv) = pop1_this(frame)?;
    let b = bv.as_int();
    if let Value::ObjectRef(id) = this {
        if id < jvm.heap.len() {
            let u = b as usize;
            let w = u / 64;
            let i = u % 64;
            let wr = read_aref_field(jvm, id, "words");
            let x: Option<i64> = match array_elems(jvm, wr) {
                Some(e) => if w < e.len() {
                    match e[w] {
                        Value::Long(v) => Some(v),
                        _ => Some(0),
                    }
                } else {
                    None
                },
                None => None,
            };
            match x {
                Some(x) => {
                    let nx = ((x as u64) & !(1u64 << (i as u64))) as i64;
                    jvm.set_array_elem(wr, w, Value::Long(nx));
                },
                None => {},
            }
        }
    }
    Ok(())
}

/// The number of one bits of `x`.
pub open spec fn popcount(x: nat) -> nat
    decreases x,
{
    if x == 0 {
        0
    } else {
        x % 2 + popcount(x / 2)
    }
}

proof fn lemma_popcount_le(x: nat)
    ensures
        popcount(x) <= x,
    decreases x,
{
    if x > 0 {
        lemma_popcount_le(x / 2);
    }
}

/// The one bits of the `long`s among the first `n` word slots.
pub open spec fn words_ones(e: Seq<Value>, n: int) -> nat
    decreases n,
{
    if n <= 0 {
        0
    } else {
        words_ones(e, n - 1) + match e[n - 1] {
            Value::Long(v) => popcount(v as u64 as nat),
            _ => 0,
        }
    }
}

fn popcount_exec(x: u64) -> (c: u64)
    ensures
        c == popcount(x as nat),
{
    let mut y = x;
    let mut c: u64 = 0;
    proof {
        lemma_popcount_le(x as nat);
    }
    while y > 0
        invariant
            c + popcount(y as nat) == popcount(x as nat),
            popcount(x as nat) <= x,
        decreases y,
    {
        proof {
            lemma_popcount_le(x as nat);
        }
        c = c + y % 2;
        y = y / 2;
    }
    c
}

/// `cardinality()`: the number of one bits in the word array, as a Java `int`
/// (wrapping).
pub open spec fn bitset_cardinality(h: Seq<ObjectView>, id: usize) -> i32 {
    match bit_words(h, id) {
        Some(e) => (words_ones(e, e.len() as int) % 0x1_0000_0000) as u32 as i32,
        None => 0,
    }
}

pub fn bitset_cardinality_native(frame: &mut Frame, jvm: &mut Jvm) -> (r: Result<(), JvmError>)
    ensures
        *final(jvm) == *old(jvm),
        instance_outcome(*old(frame), old(jvm).hv(), *final(frame), final(jvm).hv(), r, 0,
            |id: usize| (old(jvm).hv(), Some(Value::Int(bitset_cardinality(old(jvm).hv(), id)))),
            false, Some(Value::Int(0))),
{
    let this = this0(frame)?;
    assert(popped(*old(frame), 0) =~= old(frame).stack@);
    let mut acc: u32 = 0;
    if let Value::ObjectRef(id) = this {
        if id < jvm.heap.len() {
            match bit_words_exec(jvm, id) {
                Some((_, e)) => {
                    let mut k: usize = 0;
                    while k < e.len()
                        invariant
                            k <= e@.len(),
                            acc == words_ones(e@, k as int) % 0x1_0000_0000,
                        decreases e@.len() - k,
                    {
                        let c: u64 = match e[k] {
                            Value::Long(v) => popcount_exec(v as u64),
                            _ => 0,
                        };
                        proof {
                            vstd::arithmetic::div_mod::lemma_add_mod_noop(
                                words_ones(e@, k as int) as int, c as int, 0x1_0000_0000);
                        }
                        acc = ((acc as u64 + c % 0x1_0000_0000) % 0x1_0000_0000) as u32;
                        k += 1;
                    }
                },
                None => {},
            }
        }
    }
    frame.push(Value::Int(acc as i32));
    Ok(())
}

proof fn lemma_word_bits(x: u64, i: u64, j: u64)
    by (bit_vector)
    requires
        i < 64,
        j < 64,
    ensures
        ((x | (1u64 << i)) >> i) & 1u64 == 1u64,
        ((x & !(1u64 << i)) >> i) & 1u64 == 0u64,
        i != j ==> ((x | (1u64 << i)) >> j) & 1u64 == (x >> j) & 1u64,
        i != j ==> ((x & !(1u64 << i)) >> j) & 1u64 == (x >> j) & 1u64,
        (0u64 >> j) & 1u64 == 0u64,
{
}

proof fn lemma_word_cast(y: u64, x: i64)
    by (bit_vector)
    ensures
        ((y as i64) as u64) == y,
        x == 0 ==> x as u64 == 0u64,
{
}

/// Bit `j` of the word `with_bit(x, i)` and of `without_bit(x, i)`.
proof fn lemma_with_without(x: i64, i: usize, j: usize)
    requires
        i < 64,
        j < 64,
    ensures
        word_has_bit(Value::Long(with_bit(x, i)), i),
        !word_has_bit(Value::Long(without_bit(x, i)), i),
        i != j ==> word_has_bit(Value::Long(with_bit(x, i)), j) == word_has_bit(Value::Long(x), j),
        i != j ==> word_has_bit(Value::Long(without_bit(x, i)), j) == word_has_bit(Value::Long(x), j),
        !word_has_bit(Value::Long(0), j),
{
    let u = x as u64;
    lemma_word_bits(u, i as u64, j as u64);
    lemma_word_cast(u | (1u64 << (i as u64)), 0);
    lemma_word_cast(u & !(1u64 << (i as u64)), 0);
}

/// On a bit set whose words are an array (not the set itself), for bits that are not
/// negative: after `set(b)` bit `b` is set, after `clear(b)` it is not, and either
/// leaves every other bit as it was.
pub proof fn law_bitset_set_clear_get(h: Seq<ObjectView>, id: usize, b: i32, c: i32)
    requires
        id < h.len(),
        field_of(h, id, "words"@) == Some(Value::ArrayRef(aref_field(h, id, "words"@))),
        aref_field(h, id, "words"@) != id,
        array_of(h, aref_field(h, id, "words"@)) is Some,
        b >= 0,
        c >= 0,
    ensures
        bitset_get(bitset_set(h, id, b), id, b),
        !bitset_get(bitset_clear(h, id, b), id, b),
        c != b ==> bitset_get(bitset_set(h, id, b), id, c) == bitset_get(h, id, c),
        c != b ==> bitset_get(bitset_clear(h, id, b), id, c) == bitset_get(h, id, c),
{
    reveal_strlit("words");
    reveal_strlit("size");
    assert("words"@.len() == 5 && "size"@.len() == 4);
    let wr = aref_field(h, id, "words"@);
    let e = array_of(h, wr)->0;
    let w = word_index(b);
    let i = bit_index(b);
    let wc = word_index(c);
    let ic = bit_index(c);
    assert(i < 64 && ic < 64);
    assert(c != b ==> (wc != w || ic != i));
    // set
    let e2 = grown_words(e, w as nat);
    let e3 = e2.update(w as int, Value::Long(with_bit(long_of(e2[w as int]), i)));
    let h1 = heap_with_array(h, wr, e3);
    let hs = heap_set_field(h1, Value::ObjectRef(id), "size"@, Value::Int(b.wrapping_add(1)));
    assert(bitset_set(h, id, b) == hs);
    assert(hs[id as int].fields == h[id as int].fields.insert("size"@, Value::Int(b.wrapping_add(1))));
    assert(field_of(hs, id, "words"@) == field_of(h, id, "words"@));
    assert(array_of(hs, wr) == Some(e3));
    assert(bit_words(hs, id) == Some(e3));
    assert(e2.len() > w);
    lemma_with_without(long_of(e2[w as int]), i, ic);
    if c != b {
        if wc != w && wc < e3.len() {
            lemma_with_without(0, 0, ic);
            if wc < e.len() {
                match e[wc as int] {
                    Value::Long(x) => {},
                    _ => {},
                }
            }
        }
        if wc == w {
            match e2[w as int] {
                Value::Long(x) => {},
                _ => {},
            }
            if w < e.len() {
                assert(e2 == e);
            }
        }
    }
    // clear
    if w < e.len() {
        let ec = e.update(w as int, Value::Long(without_bit(long_of(e[w as int]), i)));
        let hc = heap_with_array(h, wr, ec);
        assert(bitset_clear(h, id, b) == hc);
        assert(field_of(hc, id, "words"@) == field_of(h, id, "words"@));
        assert(bit_words(hc, id) == Some(ec));
        lemma_with_without(long_of(e[w as int]), i, ic);
        if c != b && wc == w {
            match e[w as int] {
                Value::Long(x) => {},
                _ => {
                    lemma_with_without(0, 0, ic);
                },
            }
        }
    } else {
        assert(bitset_clear(h, id, b) == h);
    }
}

} // verus!
