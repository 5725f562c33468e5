use vstd::prelude::*;
use crate::natives::common::{local_missing, outcome, pop1, this_of, top, Effect};
use crate::natives::lang::{new_ref, with_string};
use crate::runtime::error::{JvmError, RuntimeError};
use crate::runtime::frame::{local_error, underflow_error, Frame};
use crate::runtime::heap::ObjectView;
use crate::runtime::jvm::{heap_set_field, same_but_heap, Jvm};
use crate::runtime::value::{spec_as_int, Value};
use crate::text::{lower_hex, push_lower_hex};

verus! {

// The natives below rest on a reading of the clock (nanoseconds since the epoch).
// Each comes twice: with the reading as an argument, where its contract is exact,
// and reading the clock itself, where it is exact for some reading.

/// The current time in nanoseconds since the Unix epoch, as `SystemTime::now()` gives
/// it (0 for a clock set before the epoch). Nothing is stated of the reading: it
/// depends on the moment of the call.
#[verifier::external_body]
pub(crate) fn clock_reading() -> (t: u128) {
    std::time::SystemTime::now().duration_since(std::time::UNIX_EPOCH).unwrap_or_default().as_nanos()
}

/// `System.currentTimeMillis()`: the reading in milliseconds, as a `long` (low bits).
pub open spec fn millis_of(nanos: u128) -> i64 {
    (nanos / 1_000_000) as i64
}

pub fn current_time_millis_native(frame: &mut Frame, jvm: &mut Jvm, nanos: u128) -> (r: Result<(), JvmError>)
    ensures
        *final(jvm) == *old(jvm),
        outcome(*old(frame), old(jvm).hv(), *final(frame), final(jvm).hv(), r,
            Ok((old(jvm).hv(), 0, Some(Value::Long(millis_of(nanos)))))),
{
    proof {
        crate::natives::common::lemma_popped_zero(*old(frame));
    }
    frame.push(Value::Long((nanos / 1_000_000) as i64));
    Ok(())
}

/// `System.nanoTime()`: the reading as a `long` (low bits).
pub open spec fn nanos_of(nanos: u128) -> i64 {
    nanos as i64
}

pub fn nano_time_native(frame: &mut Frame, jvm: &mut Jvm, nanos: u128) -> (r: Result<(), JvmError>)
    ensures
        *final(jvm) == *old(jvm),
        outcome(*old(frame), old(jvm).hv(), *final(frame), final(jvm).hv(), r,
            Ok((old(jvm).hv(), 0, Some(Value::Long(nanos_of(nanos)))))),
{
    proof {
        crate::natives::common::lemma_popped_zero(*old(frame));
    }
    frame.push(Value::Long(nanos as i64));
    Ok(())
}

/// `new Date()`: the receiver's `fastTime` becomes the reading in milliseconds.
pub open spec fn date_now(f: Frame, h: Seq<ObjectView>, nanos: u128) -> Effect {
    if local_missing(f, 0) {
        Err(local_error())
    } else {
        Ok((heap_set_field(h, this_of(f), "fastTime"@, Value::Long(millis_of(nanos))), 0, None))
    }
}

pub fn date_now_native(frame: &mut Frame, jvm: &mut Jvm, nanos: u128) -> (r: Result<(), JvmError>)
    ensures
        same_but_heap(*old(jvm), *final(jvm)),
        outcome(*old(frame), old(jvm).hv(), *final(frame), final(jvm).hv(), r, date_now(*old(frame), old(jvm).hv(), nanos)),
{
    let this = frame.get_local(0)?;
    proof {
        crate::natives::common::lemma_popped_zero(*old(frame));
    }
    jvm.set_field(this, "fastTime", Value::Long((nanos / 1_000_000) as i64));
    Ok(())
}

/// `Random.nextInt()`, `nextLong()` and `nextBoolean()` (kinds 0, 1, 2): the low 31
/// bits, the low 63 bits, or the lowest bit of the reading.
pub open spec fn random_value(nanos: u128, kind: u8) -> Value {
    if kind == 0 {
        Value::Int((nanos % 0x8000_0000) as i32)
    } else if kind == 1 {
        Value::Long((nanos % 0x8000_0000_0000_0000) as i64)
    } else {
        Value::Boolean(nanos % 2 == 1)
    }
}

pub fn random_native(frame: &mut Frame, jvm: &mut Jvm, nanos: u128, kind: u8) -> (r: Result<(), JvmError>)
    ensures
        *final(jvm) == *old(jvm),
        outcome(*old(frame), old(jvm).hv(), *final(frame), final(jvm).hv(), r,
            Ok((old(jvm).hv(), 0, Some(random_value(nanos, kind))))),
{
    proof {
        crate::natives::common::lemma_popped_zero(*old(frame));
    }
    let v = if kind == 0 {
        Value::Int((nanos % 0x8000_0000) as i32)
    } else if kind == 1 {
        Value::Long((nanos % 0x8000_0000_0000_0000) as i64)
    } else {
        Value::Boolean(nanos % 2 == 1)
    };
    frame.push(v);
    Ok(())
}

/// `Random.nextInt(bound)`: the low 31 bits of the reading modulo the bound; a bound
/// that is not positive fails with `ArithmeticException`.
pub open spec fn random_bounded(f: Frame, h: Seq<ObjectView>, nanos: u128) -> Effect {
    if f.stack@.len() == 0 {
        Err(underflow_error())
    } else {
        let bound = spec_as_int(top(f, 0));
        if bound <= 0 {
            Err(JvmError::RuntimeError(RuntimeError::ArithmeticException))
        } else {
            Ok((h, 1, Some(Value::Int(((nanos % 0x8000_0000) % (bound as u128)) as i32))))
        }
    }
}

pub fn random_bounded_native(frame: &mut Frame, jvm: &mut Jvm, nanos: u128) -> (r: Result<(), JvmError>)
    ensures
        *final(jvm) == *old(jvm),
        outcome(*old(frame), old(jvm).hv(), *final(frame), final(jvm).hv(), r, random_bounded(*old(frame), old(jvm).hv(), nanos)),
{
    let bv = pop1(frame)?;
    let bound = bv.as_int();
    if bound <= 0 {
        return Err(JvmError::RuntimeError(RuntimeError::ArithmeticException));
    }
    let x = (nanos % 0x8000_0000) % (bound as u128);
    frame.push(Value::Int(x as i32));
    Ok(())
}

/// The lower-case hexadecimal digits of `n`, padded with zeros to `w` digits.
pub open spec fn hex_padded(n: nat, w: nat) -> Seq<char> {
    if lower_hex(n).len() < w {
        Seq::new((w - lower_hex(n).len()) as nat, |i: int| '0') + lower_hex(n)
    } else {
        lower_hex(n)
    }
}

fn push_hex_padded(out: &mut Vec<char>, n: u64, w: usize)
    ensures
        final(out)@ == old(out)@ + hex_padded(n as nat, w as nat),
{
    let mut digits: Vec<char> = Vec::new();
    push_lower_hex(&mut digits, n);
    assert(digits@ =~= lower_hex(n as nat));
    if digits.len() < w {
        let pad = w - digits.len();
        let mut i: usize = 0;
        while i < pad
            invariant
                i <= pad,
                out@ == old(out)@ + Seq::new(i as nat, |k: int| '0'),
            decreases pad - i,
        {
            out.push('0');
            i += 1;
            assert(out@ =~= old(out)@ + Seq::new(i as nat, |k: int| '0'));
        }
    }
    let ghost before = out@;
    out.append(&mut digits);
    assert(out@ =~= old(out)@ + hex_padded(n as nat, w as nat));
}

/// The text `UUID.randomUUID()` makes from a clock reading: a version-4 and
/// variant-2 layout of its low bits, `8-4-4-4-12` hexadecimal digits.
pub open spec fn uuid_text(ts: u128) -> Seq<char> {
    let most: u128 = (ts & 0xFFFF_FFFF_FFFF_0FFFu128) | 0x4000u128;
    let least: u128 = (ts & 0x3FFF_FFFF_FFFF_FFFFu128) | 0x8000_0000_0000_0000u128;
    hex_padded(((most >> 32u128) as u32) as nat, 8) + seq!['-'] + hex_padded((((most >> 16u128) as u16) & 0xFFFFu16) as nat, 4)
        + seq!['-'] + hex_padded(((most as u16) & 0xFFFFu16) as nat, 4) + seq!['-'] + hex_padded(((least >> 48u128) as u16) as nat, 4)
        + seq!['-'] + hex_padded((least & 0xFFFF_FFFF_FFFFu128) as nat, 12)
}

pub fn uuid_text_exec(ts: u128) -> (r: Vec<char>)
    ensures
        r@ == uuid_text(ts),
{
    let most: u128 = (ts & 0xFFFF_FFFF_FFFF_0FFFu128) | 0x4000u128;
    let least: u128 = (ts & 0x3FFF_FFFF_FFFF_FFFFu128) | 0x8000_0000_0000_0000u128;
    let a = (most >> 32u128) as u32;
    let b = ((most >> 16u128) as u16) & 0xFFFFu16;
    let c = (most as u16) & 0xFFFFu16;
    let d = (least >> 48u128) as u16;
    let e = least & 0xFFFF_FFFF_FFFFu128;
    assert(e <= 0xFFFF_FFFF_FFFFu128) by (bit_vector)
        requires
            e == least & 0xFFFF_FFFF_FFFFu128,
    ;
    let mut t: Vec<char> = Vec::new();
    push_hex_padded(&mut t, a as u64, 8);
    t.push('-');
    push_hex_padded(&mut t, b as u64, 4);
    t.push('-');
    push_hex_padded(&mut t, c as u64, 4);
    t.push('-');
    push_hex_padded(&mut t, d as u64, 4);
    t.push('-');
    push_hex_padded(&mut t, e as u64, 12);
    assert(t@ =~= uuid_text(ts));
    t
}

/// `UUID.randomUUID()`: a new string with `uuid_text` of the reading; the receiver
/// slot (local 0), when it refers to an object, has its `value` field set to it.
/// Without a local 0 the call fails after the string was made.
pub open spec fn uuid_random(f: Frame, h: Seq<ObjectView>, ts: u128) -> (Seq<ObjectView>, Result<(nat, Option<Value>), JvmError>) {
    let h1 = with_string(h, uuid_text(ts));
    if local_missing(f, 0) {
        (h1, Err(local_error()))
    } else {
        (heap_set_field(h1, this_of(f), "value"@, new_ref(h)), Ok((0nat, Some(new_ref(h)))))
    }
}

/// The call ended as `uuid_random` says for reading `ts`.
pub open spec fn uuid_outcome(f0: Frame, h0: Seq<ObjectView>, f1: Frame, h1: Seq<ObjectView>, r: Result<(), JvmError>, ts: u128) -> bool {
    &&& h1 == uuid_random(f0, h0, ts).0
    &&& match uuid_random(f0, h0, ts).1 {
        Ok(x) => r == Ok::<(), JvmError>(()) && crate::natives::common::answered(f0, f1, x.0, x.1),
        Err(e) => r == Err::<(), JvmError>(e) && crate::natives::common::failed_frame(f0, f1),
    }
}

pub fn uuid_random_native(frame: &mut Frame, jvm: &mut Jvm, ts: u128) -> (r: Result<(), JvmError>)
    ensures
        same_but_heap(*old(jvm), *final(jvm)),
        uuid_outcome(*old(frame), old(jvm).hv(), *final(frame), final(jvm).hv(), r, ts),
{
    let text = uuid_text_exec(ts);
    let s = jvm.alloc_string(text);
    let this = frame.get_local(0)?;
    proof {
        crate::natives::common::lemma_popped_zero(*old(frame));
    }
    jvm.set_field(this, "value", Value::ObjectRef(s));
    frame.push(Value::ObjectRef(s));
    Ok(())
}

// ---------- the same natives on the clock's own reading ----------

/// `System.currentTimeMillis()`, reading the clock.
pub fn current_time_millis_now(frame: &mut Frame, jvm: &mut Jvm) -> (r: Result<(), JvmError>)
    ensures
        *final(jvm) == *old(jvm),
        exists|t: u128|
            #![trigger millis_of(t)]
            outcome(*old(frame), old(jvm).hv(), *final(frame), final(jvm).hv(), r,
                Ok((old(jvm).hv(), 0, Some(Value::Long(millis_of(t)))))),
{
    let t = clock_reading();
    current_time_millis_native(frame, jvm, t)
}

/// `System.nanoTime()`, reading the clock.
pub fn nano_time_now(frame: &mut Frame, jvm: &mut Jvm) -> (r: Result<(), JvmError>)
    ensures
        *final(jvm) == *old(jvm),
        exists|t: u128|
            #![trigger nanos_of(t)]
            outcome(*old(frame), old(jvm).hv(), *final(frame), final(jvm).hv(), r,
                Ok((old(jvm).hv(), 0, Some(Value::Long(nanos_of(t)))))),
{
    let t = clock_reading();
    nano_time_native(frame, jvm, t)
}

/// `new Date()`, reading the clock.
pub fn date_now_now(frame: &mut Frame, jvm: &mut Jvm) -> (r: Result<(), JvmError>)
    ensures
        same_but_heap(*old(jvm), *final(jvm)),
        exists|t: u128|
            #![trigger date_now(*old(frame), old(jvm).hv(), t)]
            outcome(*old(frame), old(jvm).hv(), *final(frame), final(jvm).hv(), r, date_now(*old(frame), old(jvm).hv(), t)),
{
    let t = clock_reading();
    date_now_native(frame, jvm, t)
}

/// `Random.nextInt()`, `nextLong()`, `nextBoolean()` (kinds 0, 1, 2), reading the clock.
pub fn random_now(frame: &mut Frame, jvm: &mut Jvm, kind: u8) -> (r: Result<(), JvmError>)
    ensures
        *final(jvm) == *old(jvm),
        exists|t: u128|
            #![trigger random_value(t, kind)]
            outcome(*old(frame), old(jvm).hv(), *final(frame), final(jvm).hv(), r,
                Ok((old(jvm).hv(), 0, Some(random_value(t, kind))))),
{
    let t = clock_reading();
    random_native(frame, jvm, t, kind)
}

/// `Random.nextInt(bound)`, reading the clock.
pub fn random_bounded_now(frame: &mut Frame, jvm: &mut Jvm) -> (r: Result<(), JvmError>)
    ensures
        *final(jvm) == *old(jvm),
        exists|t: u128|
            #![trigger random_bounded(*old(frame), old(jvm).hv(), t)]
            outcome(*old(frame), old(jvm).hv(), *final(frame), final(jvm).hv(), r, random_bounded(*old(frame), old(jvm).hv(), t)),
{
    let t = clock_reading();
    random_bounded_native(frame, jvm, t)
}

/// `UUID.randomUUID()`, reading the clock.
pub fn uuid_random_now(frame: &mut Frame, jvm: &mut Jvm) -> (r: Result<(), JvmError>)
    ensures
        same_but_heap(*old(jvm), *final(jvm)),
        exists|t: u128|
            #![trigger uuid_random(*old(frame), old(jvm).hv(), t)]
            uuid_outcome(*old(frame), old(jvm).hv(), *final(frame), final(jvm).hv(), r, t),
{
    let t = clock_reading();
    let r = uuid_random_native(frame, jvm, t);
    assert(uuid_random(*old(frame), old(jvm).hv(), t) == uuid_random(*old(frame), old(jvm).hv(), t));
    r
}

} // verus!
