use vstd::prelude::*;
use crate::natives::arrays::{heap_with_array, padded, prefix_upto};
use crate::natives::common::{
    array_elems, array_of, aref_field, field_of, get_field_of, int_field_or, local_missing, outcome,
    read_aref_field, read_int_field, this_of, Effect,
};
use crate::natives::lang::{new_ref, with_string};
use crate::natives::misc::byte_of;
use crate::runtime::error::{JvmError, RuntimeError};
use crate::runtime::frame::{local_error, Frame};
use crate::runtime::heap::{HeapObject, ObjectView};
use crate::runtime::jvm::{heap_set_field, same_but_heap, Jvm};
use crate::runtime::value::{spec_as_int, Value};
use crate::text::{decode_utf8_lossy, utf8_lossy};

verus! {

/// The constructors of `ByteArrayInputStream(buf)` (`field` = `buf`, with `pos`),
/// `BufferedInputStream(in)` (`in`, with `pos`, `buffered`) and
/// `BufferedOutputStream(out)` (`out`, `buffered`): the receiver's `field` gets
/// local 1, `buf` becomes `Null` when `buffered`, `pos` 0 when `with_pos`, and
/// `count` 0.
pub open spec fn stream_init(f: Frame, h: Seq<ObjectView>, field: Seq<char>, buffered: bool, with_pos: bool) -> Effect {
    if local_missing(f, 1) {
        Err(local_error())
    } else {
        let this = this_of(f);
        let h1 = heap_set_field(h, this, field, f.locals@[1]);
        let h2 = if buffered {
            heap_set_field(h1, this, "buf"@, Value::Null)
        } else {
            h1
        };
        let h3 = if with_pos {
            heap_set_field(h2, this, "pos"@, Value::Int(0))
        } else {
            h2
        };
        Ok((heap_set_field(h3, this, "count"@, Value::Int(0)), 0, None))
    }
}

pub fn stream_init_native(frame: &mut Frame, jvm: &mut Jvm, field: &str, buffered: bool, with_pos: bool) -> (r: Result<(), JvmError>)
    ensures
        same_but_heap(*old(jvm), *final(jvm)),
        outcome(*old(frame), old(jvm).hv(), *final(frame), final(jvm).hv(), r,
            stream_init(*old(frame), old(jvm).hv(), field@, buffered, with_pos)),
{
    let v = frame.get_local(1)?;
    let this = frame.get_local(0)?;
    proof {
        crate::natives::common::lemma_popped_zero(*old(frame));
    }
    jvm.set_field(this, field, v);
    if buffered {
        jvm.set_field(this, "buf", Value::Null);
    }
    if with_pos {
        jvm.set_field(this, "pos", Value::Int(0));
    }
    jvm.set_field(this, "count", Value::Int(0));
    Ok(())
}

/// The `int` a byte slot reads as: its low eight bits taken unsigned (0 to 255), so
/// that no byte reads as the end-of-stream -1; 0 for a slot that holds no number.
pub open spec fn read_byte(v: Value) -> i32 {
    match v {
        Value::Byte(b) => (b as u8) as i32,
        Value::Int(i) => (i as u8) as i32,
        _ => 0,
    }
}

fn read_byte_exec(v: Value) -> (r: i32)
    ensures
        r == read_byte(v),
{
    match v {
        Value::Byte(b) => (b as u8) as i32,
        Value::Int(i) => (i as u8) as i32,
        _ => 0,
    }
}

/// The array in the receiver's `buf` field, when it is one.
pub open spec fn buf_array(h: Seq<ObjectView>, id: usize) -> Option<Seq<Value>> {
    match field_of(h, id, "buf"@) {
        Some(Value::ArrayRef(b)) => array_of(h, b),
        _ => None,
    }
}

fn buf_array_exec(jvm: &Jvm, id: usize) -> (r: Option<&Vec<Value>>)
    ensures
        match r {
            Some(e) => buf_array(jvm.hv(), id) == Some(e@),
            None => buf_array(jvm.hv(), id) is None,
        },
{
    match get_field_of(jvm, id, "buf") {
        Some(Value::ArrayRef(b)) => array_elems(jvm, b),
        _ => None,
    }
}

/// `ByteArrayInputStream.read()` (`buffered` false) and `BufferedInputStream.read()`:
/// the byte at `pos` (unsigned, 0 to 255) of the `buf` array, with `pos`
/// advanced; -1 at the end. The buffered stream also stops at `count`, and resets
/// `pos` and `count` to 0 when its buffer runs out before `count`.
pub open spec fn stream_read(f: Frame, h: Seq<ObjectView>, buffered: bool) -> Effect {
    if local_missing(f, 0) {
        Err(local_error())
    } else {
        let this = this_of(f);
        match this {
            Value::ObjectRef(id) => if id < h.len() {
                let pos = int_field_or(h, id, "pos"@, 0) as usize;
                let count = int_field_or(h, id, "count"@, 0) as usize;
                if buffered && pos >= count {
                    Ok((h, 0, Some(Value::Int(-1i32))))
                } else {
                    match buf_array(h, id) {
                        Some(e) => if pos < e.len() {
                            Ok((heap_set_field(h, this, "pos"@, Value::Int((pos + 1) as i32)), 0,
                                Some(Value::Int(read_byte(e[pos as int])))))
                        } else if buffered {
                            Ok((heap_set_field(heap_set_field(h, this, "pos"@, Value::Int(0)), this, "count"@,
                                Value::Int(0)), 0, Some(Value::Int(-1i32))))
                        } else {
                            Ok((h, 0, Some(Value::Int(-1i32))))
                        },
                        None => if buffered {
                            Ok((heap_set_field(heap_set_field(h, this, "pos"@, Value::Int(0)), this, "count"@,
                                Value::Int(0)), 0, Some(Value::Int(-1i32))))
                        } else {
                            Ok((h, 0, Some(Value::Int(-1i32))))
                        },
                    }
                }
            } else {
                Ok((h, 0, Some(Value::Int(-1i32))))
            },
            _ => Ok((h, 0, Some(Value::Int(-1i32)))),
        }
    }
}

pub fn stream_read_native(frame: &mut Frame, jvm: &mut Jvm, buffered: bool) -> (r: Result<(), JvmError>)
    ensures
        same_but_heap(*old(jvm), *final(jvm)),
        outcome(*old(frame), old(jvm).hv(), *final(frame), final(jvm).hv(), r, stream_read(*old(frame), old(jvm).hv(), buffered)),
{
    let this = frame.get_local(0)?;
    proof {
        crate::natives::common::lemma_popped_zero(*old(frame));
    }
    if let Value::ObjectRef(id) = this {
        if id < jvm.heap.len() {
            let pos = read_int_field(jvm, id, "pos", 0) as usize;
            let count = read_int_field(jvm, id, "count", 0) as usize;
            if !buffered || pos < count {
                let byte: Option<i32> = match buf_array_exec(jvm, id) {
                    Some(e) => if pos < e.len() {
                        Some(read_byte_exec(e[pos]))
                    } else {
                        None
                    },
                    None => None,
                };
                match byte {
                    Some(b) => {
                        jvm.set_field(this, "pos", Value::Int((pos + 1) as i32));
                        frame.push(Value::Int(b));
                        return Ok(());
                    },
                    None => {
                        if buffered {
                            jvm.set_field(this, "pos", Value::Int(0));
                            jvm.set_field(this, "count", Value::Int(0));
                        }
                    },
                }
            }
        }
    }
    frame.push(Value::Int(-1));
    Ok(())
}

/// `ByteArrayInputStream.available()`: the bytes of `buf` past `pos`, 0 when none.
pub open spec fn stream_available(f: Frame, h: Seq<ObjectView>) -> Effect {
    if local_missing(f, 0) {
        Err(local_error())
    } else {
        Ok((h, 0, Some(Value::Int(match this_of(f) {
            Value::ObjectRef(id) => if id < h.len() {
                let pos = int_field_or(h, id, "pos"@, 0) as usize;
                match buf_array(h, id) {
                    Some(e) => if pos < e.len() {
                        (e.len() - pos) as i32
                    } else {
                        0
                    },
                    None => 0,
                }
            } else {
                0
            },
            _ => 0,
        }))))
    }
}

pub fn stream_available_native(frame: &mut Frame, jvm: &mut Jvm) -> (r: Result<(), JvmError>)
    ensures
        *final(jvm) == *old(jvm),
        outcome(*old(frame), old(jvm).hv(), *final(frame), final(jvm).hv(), r, stream_available(*old(frame), old(jvm).hv())),
{
    let this = frame.get_local(0)?;
    proof {
        crate::natives::common::lemma_popped_zero(*old(frame));
    }
    let mut avail: i32 = 0;
    if let Value::ObjectRef(id) = this {
        if id < jvm.heap.len() {
            let pos = read_int_field(jvm, id, "pos", 0) as usize;
            match buf_array_exec(jvm, id) {
                Some(e) => {
                    if pos < e.len() {
                        avail = (e.len() - pos) as i32;
                    }
                },
                None => {},
            }
        }
    }
    frame.push(Value::Int(avail));
    Ok(())
}

/// `ByteArrayOutputStream()`: for an object reference a new empty `byte[]` is made;
/// the receiver's `buf` refers to it and its `count` is 0.
pub open spec fn baos_init(f: Frame, h: Seq<ObjectView>) -> Effect {
    if local_missing(f, 0) {
        Err(local_error())
    } else {
        let this = this_of(f);
        Ok((match this {
            Value::ObjectRef(_) => heap_set_field(
                heap_set_field(h.push(ObjectView::array_obj("[B"@, Seq::<Value>::empty())), this, "buf"@,
                    Value::ArrayRef(h.len() as usize)),
                this,
                "count"@,
                Value::Int(0),
            ),
            _ => h,
        }, 0, None))
    }
}

pub fn baos_init_native(frame: &mut Frame, jvm: &mut Jvm) -> (r: Result<(), JvmError>)
    ensures
        same_but_heap(*old(jvm), *final(jvm)),
        outcome(*old(frame), old(jvm).hv(), *final(frame), final(jvm).hv(), r, baos_init(*old(frame), old(jvm).hv())),
{
    let this = frame.get_local(0)?;
    proof {
        crate::natives::common::lemma_popped_zero(*old(frame));
    }
    if let Value::ObjectRef(_) = this {
        let a = jvm.allocate(HeapObject::new_array(String::from_str("[B"), 0));
        proof {
            assert(Seq::new(0, |i: int| Value::Null) =~= Seq::<Value>::empty());
        }
        jvm.set_field(this, "buf", Value::ArrayRef(a));
        jvm.set_field(this, "count", Value::Int(0));
    }
    Ok(())
}

/// The length the `buf` array of an output stream grows to when slot `idx` is past
/// its end.
pub open spec fn out_capacity(idx: nat) -> nat {
    if (idx + 1) * 3 / 2 + 1 > 32 {
        ((idx + 1) * 3 / 2 + 1) as nat
    } else {
        32
    }
}

/// A live receiver's `count` is not negative (the array would otherwise grow past
/// memory).
pub open spec fn baos_ready(h: Seq<ObjectView>, f: Frame) -> bool {
    f.locals@.len() > 0 ==> match f.locals@[0] {
        Value::ObjectRef(id) => id < h.len() ==> int_field_or(h, id, "count"@, 0) >= 0,
        _ => true,
    }
}

/// `ByteArrayOutputStream.write(b)`: the low byte of local 1 goes to slot `count` of
/// the `buf` array (grown first when full) and `count` grows by one.
pub open spec fn baos_write(f: Frame, h: Seq<ObjectView>) -> Effect {
    if local_missing(f, 1) {
        Err(local_error())
    } else {
        let this = this_of(f);
        let b = spec_as_int(f.locals@[1]) as u8;
        match this {
            Value::ObjectRef(id) => if id < h.len() {
                let c = int_field_or(h, id, "count"@, 0) as nat;
                let br = aref_field(h, id, "buf"@);
                let h1 = match array_of(h, br) {
                    Some(e) => {
                        let e2 = if c >= e.len() {
                            padded(e, out_capacity(c))
                        } else {
                            e
                        };
                        heap_with_array(h, br, e2.update(c as int, Value::Byte(b as i8)))
                    },
                    None => h,
                };
                Ok((heap_set_field(h1, this, "count"@, Value::Int((c + 1) as i32)), 0, None))
            } else {
                Err(JvmError::RuntimeError(RuntimeError::NullPointerException))
            },
            _ => Ok((h, 0, None)),
        }
    }
}

pub fn baos_write_native(frame: &mut Frame, jvm: &mut Jvm) -> (r: Result<(), JvmError>)
    requires
        baos_ready(old(jvm).hv(), *old(frame)),
    ensures
        same_but_heap(*old(jvm), *final(jvm)),
        outcome(*old(frame), old(jvm).hv(), *final(frame), final(jvm).hv(), r, baos_write(*old(frame), old(jvm).hv())),
{
    let bv = frame.get_local(1)?;
    let b = bv.as_int() as u8;
    let this = frame.get_local(0)?;
    proof {
        crate::natives::common::lemma_popped_zero(*old(frame));
    }
    if let Value::ObjectRef(id) = this {
        if id >= jvm.heap.len() {
            return Err(JvmError::RuntimeError(RuntimeError::NullPointerException));
        }
        let ghost h0 = jvm.hv();
        let c = read_int_field(jvm, id, "count", 0) as usize;
        let br = read_aref_field(jvm, id, "buf");
        let grown: Option<Vec<Value>> = match array_elems(jvm, br) {
            Some(e) => {
                let mut e2 = if c >= e.len() {
                    let n = c + 1;
                    assert((n * 3) / 2 == n + n / 2) by (nonlinear_arith);
                    let cap0 = n + n / 2 + 1;
                    let cap = if cap0 > 32 {
                        cap0
                    } else {
                        32
                    };
                    crate::natives::arrays::padded_copy(e, cap)
                } else {
                    crate::natives::arrays::copy_prefix(e, e.len())
                };
                proof {
                    assert(e@.take(e@.len() as int) =~= e@);
                }
                e2.set(c, Value::Byte(b as i8));
                Some(e2)
            },
            None => None,
        };
        if let Some(v) = grown {
            jvm.set_array(br, v);
        }
        jvm.set_field(this, "count", Value::Int((c + 1) as i32));
        assert(jvm.hv() =~= (baos_write(*old(frame), h0)->Ok_0).0);
    }
    Ok(())
}

/// The first `count` elements of a live receiver's `buf` array (`count` taken as an
/// unsigned word, so all of them for a negative one).
pub open spec fn out_bytes(h: Seq<ObjectView>, id: usize) -> Seq<Value> {
    match array_of(h, aref_field(h, id, "buf"@)) {
        Some(e) => prefix_upto(e, int_field_or(h, id, "count"@, 0)),
        None => Seq::<Value>::empty(),
    }
}

fn out_bytes_exec(jvm: &Jvm, id: usize) -> (r: Vec<Value>)
    ensures
        r@ == out_bytes(jvm.hv(), id),
{
    let c = read_int_field(jvm, id, "count", 0);
    let br = read_aref_field(jvm, id, "buf");
    crate::natives::arrays::array_prefix(jvm, br, c)
}

/// `ByteArrayOutputStream.toByteArray()`: a new `byte[]` of `count` slots holding the
/// written bytes (`Null` beyond them); `Null` for a receiver that is no live object.
pub open spec fn baos_to_byte_array(f: Frame, h: Seq<ObjectView>) -> Effect {
    if local_missing(f, 0) {
        Err(local_error())
    } else {
        match this_of(f) {
            Value::ObjectRef(id) => if id < h.len() {
                Ok((h.push(ObjectView::array_obj("[B"@, padded(out_bytes(h, id), int_field_or(h, id, "count"@, 0) as nat))), 0,
                    Some(Value::ArrayRef(h.len() as usize))))
            } else {
                Ok((h, 0, Some(Value::Null)))
            },
            _ => Ok((h, 0, Some(Value::Null))),
        }
    }
}

pub fn baos_to_byte_array_native(frame: &mut Frame, jvm: &mut Jvm) -> (r: Result<(), JvmError>)
    requires
        baos_ready(old(jvm).hv(), *old(frame)),
    ensures
        same_but_heap(*old(jvm), *final(jvm)),
        outcome(*old(frame), old(jvm).hv(), *final(frame), final(jvm).hv(), r, baos_to_byte_array(*old(frame), old(jvm).hv())),
{
    let this = frame.get_local(0)?;
    proof {
        crate::natives::common::lemma_popped_zero(*old(frame));
    }
    if let Value::ObjectRef(id) = this {
        if id < jvm.heap.len() {
            let c = read_int_field(jvm, id, "count", 0) as usize;
            let data = out_bytes_exec(jvm, id);
            proof {
                let h = jvm.hv();
                match array_of(h, aref_field(h, id, "buf"@)) {
                    Some(e) => {
                        assert(data@.len() <= c);
                    },
                    None => {},
                }
            }
            let v = crate::natives::arrays::padded_copy(&data, c);
            let a = jvm.allocate(HeapObject::new_array_of(String::from_str("[B"), v));
            frame.push(Value::ArrayRef(a));
            return Ok(());
        }
    }
    frame.push(Value::Null);
    Ok(())
}

/// `ByteArrayOutputStream.toString()`: a new string with the written bytes decoded
/// as UTF-8 (lossily); `Null` for a receiver that is no live object.
pub open spec fn baos_to_string(f: Frame, h: Seq<ObjectView>) -> Effect {
    if local_missing(f, 0) {
        Err(local_error())
    } else {
        match this_of(f) {
            Value::ObjectRef(id) => if id < h.len() {
                let e = out_bytes(h, id);
                Ok((with_string(h, utf8_lossy(Seq::new(e.len(), |i: int| byte_of(e[i])))), 0, Some(new_ref(h))))
            } else {
                Ok((h, 0, Some(Value::Null)))
            },
            _ => Ok((h, 0, Some(Value::Null))),
        }
    }
}

pub fn baos_to_string_native(frame: &mut Frame, jvm: &mut Jvm) -> (r: Result<(), JvmError>)
    ensures
        same_but_heap(*old(jvm), *final(jvm)),
        outcome(*old(frame), old(jvm).hv(), *final(frame), final(jvm).hv(), r, baos_to_string(*old(frame), old(jvm).hv())),
{
    let this = frame.get_local(0)?;
    proof {
        crate::natives::common::lemma_popped_zero(*old(frame));
    }
    if let Value::ObjectRef(id) = this {
        if id < jvm.heap.len() {
            let data = out_bytes_exec(jvm, id);
            let bytes = crate::natives::misc::bytes_of_values(&data);
            let text = decode_utf8_lossy(bytes.as_slice());
            let s = jvm.alloc_string(text);
            frame.push(Value::ObjectRef(s));
            return Ok(());
        }
    }
    frame.push(Value::Null);
    Ok(())
}

/// A live output stream whose `buf` is an array (not the stream itself) holding at
/// least `count` slots, with `count` not negative.
pub open spec fn baos_wf(h: Seq<ObjectView>, id: usize) -> bool {
    let br = aref_field(h, id, "buf"@);
    &&& id < h.len()
    &&& br != id
    &&& array_of(h, br) is Some
    &&& 0 <= int_field_or(h, id, "count"@, 0) <= array_of(h, br)->0.len()
}

/// `write(b)` on a stream in order appends the byte to the bytes written and keeps the
/// stream in order (while `count` stays below the largest `int`); `toByteArray`
/// answers exactly the bytes written.
pub proof fn law_baos_write_then_to_byte_array(f: Frame, h: Seq<ObjectView>, id: usize)
    requires
        f.locals@.len() >= 2,
        f.locals@[0] == Value::ObjectRef(id),
        baos_wf(h, id),
        int_field_or(h, id, "count"@, 0) < 0x7fff_ffff,
    ensures
        baos_write(f, h) is Ok,
        baos_wf(baos_write(f, h)->Ok_0.0, id),
        out_bytes(baos_write(f, h)->Ok_0.0, id)
            == out_bytes(h, id).push(Value::Byte((spec_as_int(f.locals@[1]) as u8) as i8)),
        baos_to_byte_array(f, h) == Ok::<(Seq<ObjectView>, nat, Option<Value>), JvmError>(
            (h.push(ObjectView::array_obj("[B"@, out_bytes(h, id))), 0, Some(Value::ArrayRef(h.len() as usize)))),
{
    reveal_strlit("buf");
    reveal_strlit("count");
    assert("buf"@.len() == 3 && "count"@.len() == 5);
    assert("buf"@ != "count"@);
    let c = int_field_or(h, id, "count"@, 0) as nat;
    let br = aref_field(h, id, "buf"@);
    let e = array_of(h, br)->0;
    let b = spec_as_int(f.locals@[1]) as u8;
    let e2 = if c >= e.len() {
        padded(e, out_capacity(c))
    } else {
        e
    };
    let e3 = e2.update(c as int, Value::Byte(b as i8));
    let h1 = heap_with_array(h, br, e3);
    let h2 = heap_set_field(h1, Value::ObjectRef(id), "count"@, Value::Int((c + 1) as i32));
    assert(baos_write(f, h) == Ok::<(Seq<ObjectView>, nat, Option<Value>), JvmError>((h2, 0, None)));
    assert(h2[id as int].fields == h[id as int].fields.insert("count"@, Value::Int((c + 1) as i32)));
    assert(aref_field(h2, id, "buf"@) == br);
    assert(int_field_or(h2, id, "count"@, 0) == c + 1);
    assert(array_of(h2, br) == Some(e3));
    assert(e3.len() >= c + 1);
    assert(out_bytes(h2, id) =~= e.take(c as int).push(Value::Byte(b as i8)));
    assert(out_bytes(h, id) =~= e.take(c as int));
    assert(padded(out_bytes(h, id), c) =~= out_bytes(h, id));
}

/// The heap after `write` is called with each frame of `fs` in turn (a failing call
/// stops the run).
pub open spec fn after_writes(fs: Seq<Frame>, h: Seq<ObjectView>) -> Seq<ObjectView>
    decreases fs.len(),
{
    if fs.len() == 0 {
        h
    } else {
        let h1 = after_writes(fs.drop_last(), h);
        match baos_write(fs.last(), h1) {
            Ok(x) => x.0,
            Err(_) => h1,
        }
    }
}

/// The byte a `write` call's argument stands for.
pub open spec fn written_byte(f: Frame) -> Value {
    Value::Byte((spec_as_int(f.locals@[1]) as u8) as i8)
}

/// `n` writes to a stream in order, then `toByteArray`: the array holds the bytes that
/// were there followed by the `n` bytes written, in order.
pub proof fn law_baos_writes(fs: Seq<Frame>, h: Seq<ObjectView>, id: usize)
    requires
        forall|i: int| 0 <= i < fs.len() ==> (#[trigger] fs[i]).locals@.len() >= 2 && fs[i].locals@[0]
            == Value::ObjectRef(id),
        baos_wf(h, id),
        int_field_or(h, id, "count"@, 0) + fs.len() < 0x7fff_ffff,
    ensures
        baos_wf(after_writes(fs, h), id),
        int_field_or(after_writes(fs, h), id, "count"@, 0) == int_field_or(h, id, "count"@, 0) + fs.len(),
        out_bytes(after_writes(fs, h), id) == out_bytes(h, id) + Seq::new(fs.len(), |i: int| written_byte(fs[i])),
    decreases fs.len(),
{
    if fs.len() == 0 {
        assert(out_bytes(h, id) + Seq::new(0, |i: int| written_byte(fs[i])) =~= out_bytes(h, id));
    } else {
        let ps = fs.drop_last();
        assert forall|i: int| 0 <= i < ps.len() implies (#[trigger] ps[i]).locals@.len() >= 2 && ps[i].locals@[0]
            == Value::ObjectRef(id) by {
            assert(ps[i] == fs[i]);
        }
        law_baos_writes(ps, h, id);
        let h1 = after_writes(ps, h);
        let f = fs.last();
        assert(f == fs[fs.len() - 1]);
        reveal_strlit("count");
        reveal_strlit("buf");
        law_baos_write_then_to_byte_array(f, h1, id);
        let h2 = baos_write(f, h1)->Ok_0.0;
        assert(int_field_or(h2, id, "count"@, 0) == int_field_or(h1, id, "count"@, 0) + 1) by {
            assert("buf"@.len() == 3 && "count"@.len() == 5);
        }
        assert(out_bytes(h, id) + Seq::new(fs.len(), |i: int| written_byte(fs[i])) =~= (out_bytes(h, id)
            + Seq::new(ps.len(), |i: int| written_byte(ps[i]))).push(written_byte(f)));
    }
}

} // verus!
