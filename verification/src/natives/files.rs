use vstd::prelude::*;
use crate::natives::common::{
    field_of, get_field_of, local_missing, outcome, string_elems, string_of, this_of, Effect,
};
use crate::natives::lang::{new_ref, with_string};
use crate::runtime::error::JvmError;
use crate::runtime::frame::{local_error, Frame};
use crate::runtime::heap::ObjectView;
use crate::runtime::jvm::{heap_set_field, same_but_heap, Jvm};
use crate::runtime::value::Value;
use crate::text::{file_name_of, path_file_name};

verus! {

// ---------- java.io.File: the path it names ----------

/// The path of `File` object `id`: the text of the string in its `path` field.
pub open spec fn file_path(h: Seq<ObjectView>, id: usize) -> Option<Seq<char>> {
    match field_of(h, id, "path"@) {
        Some(Value::ObjectRef(sid)) => string_of(h, sid),
        _ => None,
    }
}

/// The path of the `File` object `v` refers to, if it has one.
pub fn file_path_of(jvm: &Jvm, v: Value) -> (r: Option<Vec<char>>)
    ensures
        match v {
            Value::ObjectRef(id) => match r {
                Some(p) => file_path(jvm.hv(), id) == Some(p@),
                None => file_path(jvm.hv(), id) is None,
            },
            _ => r is None,
        },
{
    match v {
        Value::ObjectRef(id) => match get_field_of(jvm, id, "path") {
            Some(Value::ObjectRef(sid)) => match string_elems(jvm, sid) {
                Some(s) => Some(crate::natives::lang::copy_chars_pub(s)),
                None => None,
            },
            _ => None,
        },
        _ => None,
    }
}

/// `File(pathname)`: when local 1 refers to a string, the receiver's `path` field
/// becomes that reference; otherwise nothing changes.
pub open spec fn file_init(f: Frame, h: Seq<ObjectView>) -> Effect {
    if local_missing(f, 1) {
        Err(local_error())
    } else {
        let this = this_of(f);
        match (this, f.locals@[1]) {
            (Value::ObjectRef(_), Value::ObjectRef(sid)) => if string_of(h, sid) is Some {
                Ok((heap_set_field(h, this, "path"@, Value::ObjectRef(sid)), 0, None))
            } else {
                Ok((h, 0, None))
            },
            _ => Ok((h, 0, None)),
        }
    }
}

pub fn file_init_native(frame: &mut Frame, jvm: &mut Jvm) -> (r: Result<(), JvmError>)
    ensures
        same_but_heap(*old(jvm), *final(jvm)),
        outcome(*old(frame), old(jvm).hv(), *final(frame), final(jvm).hv(), r, file_init(*old(frame), old(jvm).hv())),
{
    let pathname = frame.get_local(1)?;
    let this = frame.get_local(0)?;
    proof {
        crate::natives::common::lemma_popped_zero(*old(frame));
    }
    if let (Value::ObjectRef(_), Value::ObjectRef(sid)) = (this, pathname) {
        if string_elems(jvm, sid).is_some() {
            jvm.set_field(this, "path", Value::ObjectRef(sid));
        }
    }
    Ok(())
}

/// `getPath()` (`name` false) and `getName()`: a new string holding the receiver's
/// path, or for `getName` the last component of it (`path_file_name`, the whole path
/// when there is none); `null` when the receiver has no path.
pub open spec fn file_path_text(f: Frame, h: Seq<ObjectView>, name: bool) -> Effect {
    if local_missing(f, 0) {
        Err(local_error())
    } else {
        match this_of(f) {
            Value::ObjectRef(id) => match file_path(h, id) {
                Some(p) => {
                    let t = if name {
                        match path_file_name(p) {
                            Some(n) => n,
                            None => p,
                        }
                    } else {
                        p
                    };
                    Ok((with_string(h, t), 0, Some(new_ref(h))))
                },
                None => Ok((h, 0, Some(Value::Null))),
            },
            _ => Ok((h, 0, Some(Value::Null))),
        }
    }
}

pub fn file_path_text_native(frame: &mut Frame, jvm: &mut Jvm, name: bool) -> (r: Result<(), JvmError>)
    ensures
        same_but_heap(*old(jvm), *final(jvm)),
        outcome(*old(frame), old(jvm).hv(), *final(frame), final(jvm).hv(), r,
            file_path_text(*old(frame), old(jvm).hv(), name)),
{
    let this = frame.get_local(0)?;
    proof {
        crate::natives::common::lemma_popped_zero(*old(frame));
    }
    match file_path_of(jvm, this) {
        Some(p) => {
            let t = if name {
                match file_name_of(p.as_slice()) {
                    Some(n) => n,
                    None => p,
                }
            } else {
                p
            };
            let r = jvm.alloc_string(t);
            frame.push(Value::ObjectRef(r));
            Ok(())
        },
        None => {
            frame.push(Value::Null);
            Ok(())
        },
    }
}

} // verus!
