use vstd::prelude::*;
use crate::natives::arrays::heap_with_array;
use crate::natives::common::{
    array_elems, array_of, int_field_or, local_missing, outcome, read_int_field, string_elems, string_of,
    this_of, Effect,
};
use crate::natives::files::{file_path, file_path_of};
use crate::natives::misc::{byte_of, bytes_of_values};
use crate::runtime::error::{JvmError, RuntimeError};
use crate::runtime::frame::{local_error, Frame};
use crate::runtime::heap::ObjectView;
use crate::runtime::jvm::{heap_set_field, same_but_heap, Jvm};
use crate::runtime::value::{spec_as_int, Value};

verus! {

// ---------- java.io.FileInputStream / FileOutputStream: what is done with the
// ---------- bytes of a file once the application has read them, and what it is
// ---------- to write

/// The constructors `FileInputStream(name)` (`input`) and `FileOutputStream(name)`,
/// where `opened` says whether the file named by the string in local 1 could be
/// opened (created, for output): then the receiver's `path` becomes that string and
/// its `fd` 0. An input file that could not be opened fails with `NoSuchClass`
/// (file not found); an output file that could not be created leaves all as it is,
/// as does a name that is no string.
pub open spec fn file_stream_init(f: Frame, h: Seq<ObjectView>, opened: bool, input: bool) -> Effect {
    if local_missing(f, 1) {
        Err(local_error())
    } else {
        let this = this_of(f);
        match (this, f.locals@[1]) {
            (Value::ObjectRef(_), Value::ObjectRef(sid)) => if string_of(h, sid) is Some {
                if opened {
                    Ok((heap_set_field(heap_set_field(h, this, "path"@, Value::ObjectRef(sid)), this, "fd"@, Value::Int(0)), 0, None))
                } else if input {
                    Err(JvmError::RuntimeError(RuntimeError::NoSuchClass))
                } else {
                    Ok((h, 0, None))
                }
            } else {
                Ok((h, 0, None))
            },
            _ => Ok((h, 0, None)),
        }
    }
}

pub fn file_stream_init_native(frame: &mut Frame, jvm: &mut Jvm, opened: bool, input: bool) -> (r: Result<(), JvmError>)
    ensures
        same_but_heap(*old(jvm), *final(jvm)),
        outcome(*old(frame), old(jvm).hv(), *final(frame), final(jvm).hv(), r,
            file_stream_init(*old(frame), old(jvm).hv(), opened, input)),
{
    let name = frame.get_local(1)?;
    let this = frame.get_local(0)?;
    proof {
        crate::natives::common::lemma_popped_zero(*old(frame));
    }
    if let (Value::ObjectRef(_), Value::ObjectRef(sid)) = (this, name) {
        if string_elems(jvm, sid).is_some() {
            if opened {
                jvm.set_field(this, "path", Value::ObjectRef(sid));
                jvm.set_field(this, "fd", Value::Int(0));
            } else if input {
                return Err(JvmError::RuntimeError(RuntimeError::NoSuchClass));
            }
        }
    }
    Ok(())
}

/// The read position of stream `id`: its `pos` field taken as an index, 0 when it
/// has none.
pub open spec fn stream_pos(h: Seq<ObjectView>, id: usize) -> usize {
    int_field_or(h, id, "pos"@, 0) as usize
}

/// `FileInputStream.read()`, with `bytes` what reading the file behind the
/// receiver's path gave (`None` when it could not be read): the byte at the read
/// position (unsigned) with the position moved on, -1 past the end or without a
/// path or bytes.
pub open spec fn file_read(f: Frame, h: Seq<ObjectView>, bytes: Option<Seq<u8>>) -> Effect {
    if local_missing(f, 0) {
        Err(local_error())
    } else {
        let this = this_of(f);
        match this {
            Value::ObjectRef(id) => match (file_path(h, id), bytes) {
                (Some(_), Some(b)) => {
                    let pos = stream_pos(h, id);
                    if pos < b.len() {
                        Ok((heap_set_field(h, this, "pos"@, Value::Int((pos + 1) as i32)), 0, Some(Value::Int(b[pos as int] as i32))))
                    } else {
                        Ok((h, 0, Some(Value::Int(-1i32))))
                    }
                },
                _ => Ok((h, 0, Some(Value::Int(-1i32)))),
            },
            _ => Ok((h, 0, Some(Value::Int(-1i32)))),
        }
    }
}

pub fn file_read_native(frame: &mut Frame, jvm: &mut Jvm, bytes: &Option<Vec<u8>>) -> (r: Result<(), JvmError>)
    ensures
        same_but_heap(*old(jvm), *final(jvm)),
        outcome(*old(frame), old(jvm).hv(), *final(frame), final(jvm).hv(), r,
            file_read(*old(frame), old(jvm).hv(), match bytes { Some(b) => Some(b@), None => None })),
{
    let this = frame.get_local(0)?;
    proof {
        crate::natives::common::lemma_popped_zero(*old(frame));
    }
    if let Value::ObjectRef(id) = this {
        if let (Some(_), Some(b)) = (file_path_of(jvm, this), bytes) {
            let pos = read_int_field(jvm, id, "pos", 0) as usize;
            if pos < b.len() {
                let byte = b[pos] as i32;
                jvm.set_field(this, "pos", Value::Int((pos + 1) as i32));
                frame.push(Value::Int(byte));
                return Ok(());
            }
        }
    }
    frame.push(Value::Int(-1));
    Ok(())
}

/// How many bytes `read(byte[])` copies: as many as the array holds and the file
/// has left after `pos`.
pub open spec fn read_count(len: nat, b: Seq<u8>, pos: usize) -> nat {
    if pos < b.len() {
        if len < b.len() - pos {
            len
        } else {
            (b.len() - pos) as nat
        }
    } else {
        0
    }
}

/// `FileInputStream.read(byte[])`, with `bytes` as for `read()`: the bytes from the
/// read position go into the array in local 1 (as `byte` values) from its first
/// slot on, `read_count` of them, the position moves on by as many and their number
/// is answered; -1 when there is no path, no bytes or no array, and at the end of
/// the file (no byte left) for an array that is not empty.
pub open spec fn file_read_bytes(f: Frame, h: Seq<ObjectView>, bytes: Option<Seq<u8>>) -> Effect {
    if local_missing(f, 1) {
        Err(local_error())
    } else {
        let this = this_of(f);
        match (this, f.locals@[1]) {
            (Value::ObjectRef(id), Value::ArrayRef(aid)) => match (file_path(h, id), bytes, array_of(h, aid)) {
                (Some(_), Some(b), Some(e)) => {
                    let pos = stream_pos(h, id);
                    let n = read_count(e.len(), b, pos);
                    if n == 0 && e.len() > 0 {
                        Ok((h, 0, Some(Value::Int(-1i32))))
                    } else {
                    let e2 = Seq::new(e.len(), |i: int| if i < n {
                        Value::Byte(b[pos + i] as i8)
                    } else {
                        e[i]
                    });
                    Ok((heap_set_field(heap_with_array(h, aid, e2), this, "pos"@, Value::Int((pos + n) as i32)), 0,
                        Some(Value::Int(n as i32))))
                    }
                },
                _ => Ok((h, 0, Some(Value::Int(-1i32)))),
            },
            _ => Ok((h, 0, Some(Value::Int(-1i32)))),
        }
    }
}

pub fn file_read_bytes_native(frame: &mut Frame, jvm: &mut Jvm, bytes: &Option<Vec<u8>>) -> (r: Result<(), JvmError>)
    ensures
        same_but_heap(*old(jvm), *final(jvm)),
        outcome(*old(frame), old(jvm).hv(), *final(frame), final(jvm).hv(), r,
            file_read_bytes(*old(frame), old(jvm).hv(), match bytes { Some(b) => Some(b@), None => None })),
{
    let arr = frame.get_local(1)?;
    let this = frame.get_local(0)?;
    proof {
        crate::natives::common::lemma_popped_zero(*old(frame));
    }
    if let (Value::ObjectRef(id), Value::ArrayRef(aid)) = (this, arr) {
        if let (Some(_), Some(b)) = (file_path_of(jvm, this), bytes) {
            let pos = read_int_field(jvm, id, "pos", 0) as usize;
            let filled: Option<(Vec<Value>, usize)> = match array_elems(jvm, aid) {
                Some(e) => {
                    let n: usize = if pos < b.len() {
                        if e.len() < b.len() - pos {
                            e.len()
                        } else {
                            b.len() - pos
                        }
                    } else {
                        0
                    };
                    let blen = b.len();
                    let mut v: Vec<Value> = Vec::new();
                    let mut i: usize = 0;
                    while i < e.len()
                        invariant
                            i <= e@.len(),
                            n == read_count(e@.len(), b@, pos),
                            n == 0 || pos + n <= blen,
                            blen == b@.len(),
                            v@ == Seq::new(i as nat, |k: int| if k < n {
                                Value::Byte(b@[pos + k] as i8)
                            } else {
                                e@[k]
                            }),
                        decreases e@.len() - i,
                    {
                        if i < n {
                            let k: usize = pos + (i as usize);
                            v.push(Value::Byte(b[k] as i8));
                        } else {
                            v.push(e[i]);
                        }
                        i += 1;
                        assert(v@ =~= Seq::new(i as nat, |k: int| if k < n {
                            Value::Byte(b@[pos + k] as i8)
                        } else {
                            e@[k]
                        }));
                    }
                    Some((v, n))
                },
                None => None,
            };
            if let Some((v, n)) = filled {
                if n == 0 && v.len() > 0 {
                    frame.push(Value::Int(-1));
                    return Ok(());
                }
                jvm.set_array(aid, v);
                jvm.set_field(this, "pos", Value::Int((pos + n) as i32));
                frame.push(Value::Int(n as i32));
                return Ok(());
            }
        }
    }
    frame.push(Value::Int(-1));
    Ok(())
}

/// What `FileOutputStream.write(b)` (`whole` false: the low byte of local 1) and
/// `write(byte[])` (`whole`: the bytes of the array in local 1) append to the file
/// at the receiver's path; nothing when it has no path or there is no array.
pub open spec fn write_request(f: Frame, h: Seq<ObjectView>, whole: bool) -> Result<Option<(Seq<char>, Seq<u8>)>, JvmError> {
    if local_missing(f, 1) {
        Err(local_error())
    } else {
        match this_of(f) {
            Value::ObjectRef(id) => match file_path(h, id) {
                Some(p) => if whole {
                    match f.locals@[1] {
                        Value::ArrayRef(aid) => match array_of(h, aid) {
                            Some(e) => Ok(Some((p, Seq::new(e.len(), |i: int| byte_of(e[i]))))),
                            None => Ok(None),
                        },
                        _ => Ok(None),
                    }
                } else {
                    Ok(Some((p, seq![spec_as_int(f.locals@[1]) as u8])))
                },
                None => Ok(None),
            },
            _ => Ok(None),
        }
    }
}

/// The path and bytes a `FileOutputStream.write` call appends, as `write_request` says.
pub fn file_write_request(frame: &Frame, jvm: &Jvm, whole: bool) -> (r: Result<Option<(Vec<char>, Vec<u8>)>, JvmError>)
    ensures
        match (r, write_request(*frame, jvm.hv(), whole)) {
            (Ok(Some((p, b))), Ok(Some((q, c)))) => p@ == q && b@ == c,
            (Ok(None), Ok(None)) => true,
            (Err(e), Err(d)) => e == d,
            _ => false,
        },
{
    let x = frame.get_local(1)?;
    let this = frame.get_local(0)?;
    match (this, file_path_of(jvm, this)) {
        (Value::ObjectRef(_), Some(p)) => if whole {
            match x {
                Value::ArrayRef(aid) => match array_elems(jvm, aid) {
                    Some(e) => Ok(Some((p, bytes_of_values(e)))),
                    None => Ok(None),
                },
                _ => Ok(None),
            }
        } else {
            let mut b: Vec<u8> = Vec::new();
            b.push(x.as_int() as u8);
            assert(b@ =~= seq![spec_as_int(x) as u8]);
            Ok(Some((p, b)))
        },
        _ => Ok(None),
    }
}

/// `FileInputStream.read(buf)` over every file content `b` and read position: it
/// copies the next `min(buf.length, bytes left)` bytes of the file to the front of
/// the buffer, moves the position past them and answers their number; at the end of
/// the file (with a non-empty buffer) it answers -1 and changes nothing.
pub proof fn law_file_read_bytes(f: Frame, h: Seq<ObjectView>, b: Seq<u8>, id: usize, aid: usize)
    requires
        f.locals@.len() >= 2,
        f.locals@[0] == Value::ObjectRef(id),
        f.locals@[1] == Value::ArrayRef(aid),
        id < h.len(),
        aid != id,
        file_path(h, id) is Some,
        array_of(h, aid) is Some,
        stream_pos(h, id) + array_of(h, aid)->0.len() < 0x7fff_ffff,
    ensures
        ({
            let e = array_of(h, aid)->0;
            let pos = stream_pos(h, id);
            let n = read_count(e.len(), b, pos);
            let r = file_read_bytes(f, h, Some(b));
            &&& r is Ok
            &&& n == 0 && e.len() > 0 ==> r->Ok_0 == (h, 0nat, Some(Value::Int(-1i32)))
            &&& n > 0 ==> {
                &&& r->Ok_0.2 == Some(Value::Int(n as i32))
                &&& array_of(r->Ok_0.0, aid)->0.len() == e.len()
                &&& forall|i: int| 0 <= i < n ==> #[trigger] array_of(r->Ok_0.0, aid)->0[i]
                    == Value::Byte(b[pos + i] as i8)
                &&& forall|i: int| n <= i < e.len() ==> #[trigger] array_of(r->Ok_0.0, aid)->0[i] == e[i]
                &&& stream_pos(r->Ok_0.0, id) == pos + n
            }
        }),
{
    reveal_strlit("pos");
    let e = array_of(h, aid)->0;
    let pos = stream_pos(h, id);
    let n = read_count(e.len(), b, pos);
    if n > 0 {
        let e2 = Seq::new(e.len(), |i: int| if i < n {
            Value::Byte(b[pos + i] as i8)
        } else {
            e[i]
        });
        let h1 = crate::natives::arrays::heap_with_array(h, aid, e2);
        let h2 = heap_set_field(h1, Value::ObjectRef(id), "pos"@, Value::Int((pos + n) as i32));
        assert(file_read_bytes(f, h, Some(b))->Ok_0.0 == h2);
        assert(h2[id as int].fields == h[id as int].fields.insert("pos"@, Value::Int((pos + n) as i32)));
        assert(array_of(h2, aid) == Some(e2));
        assert(int_field_or(h2, id, "pos"@, 0) == pos + n);
    }
}

} // verus!
