use vstd::prelude::*;
use crate::natives::boxes::text_of;
use crate::natives::common::{
    array_elems, array_of, field_of, get_field_of, instance_outcome, local_missing, outcome, pop1,
    string_elems, string_of, this_of, top, Effect,
};
use crate::natives::lang::{new_ref, with_string};
use crate::natives::map::{map_put, size_ok};
use crate::runtime::error::JvmError;
use crate::runtime::frame::{local_error, underflow_error, Frame};
use crate::runtime::heap::{HeapObject, ObjectView};
use crate::runtime::jvm::{heap_set_field, same_but_heap, Jvm};
use crate::runtime::value::Value;
use crate::stdlib::base64::{base64_decode, base64_decode_exec, base64_encode, base64_encode_exec};

verus! {

/// A static factory that answers a new object of class `cls` with no fields
/// (`Base64.getEncoder()` and `Base64.getDecoder()`).
pub open spec fn new_plain(h: Seq<ObjectView>, cls: Seq<char>) -> Effect {
    Ok((h.push(ObjectView::plain(cls)), 0, Some(new_ref(h))))
}

pub fn new_plain_native(frame: &mut Frame, jvm: &mut Jvm, cls: &str) -> (r: Result<(), JvmError>)
    ensures
        same_but_heap(*old(jvm), *final(jvm)),
        outcome(*old(frame), old(jvm).hv(), *final(frame), final(jvm).hv(), r, new_plain(old(jvm).hv(), cls@)),
{
    proof {
        crate::natives::common::lemma_popped_zero(*old(frame));
    }
    let o = jvm.allocate(HeapObject::new(String::from_str(cls)));
    frame.push(Value::ObjectRef(o));
    Ok(())
}

/// A getter that answers a new string with the text of the string in the receiver's
/// field `field` (`UUID.toString()` with `value`, `Locale.getLanguage()` with
/// `language`, `Locale.getCountry()` with `country`), or `Null` when there is none.
pub open spec fn string_field_copy(f: Frame, h: Seq<ObjectView>, field: Seq<char>) -> Effect {
    if local_missing(f, 0) {
        Err(local_error())
    } else {
        match this_of(f) {
            Value::ObjectRef(id) => match field_of(h, id, field) {
                Some(Value::ObjectRef(s)) => match string_of(h, s) {
                    Some(t) => Ok((with_string(h, t), 0, Some(new_ref(h)))),
                    None => Ok((h, 0, Some(Value::Null))),
                },
                _ => Ok((h, 0, Some(Value::Null))),
            },
            _ => Ok((h, 0, Some(Value::Null))),
        }
    }
}

pub fn string_field_copy_native(frame: &mut Frame, jvm: &mut Jvm, field: &str) -> (r: Result<(), JvmError>)
    ensures
        same_but_heap(*old(jvm), *final(jvm)),
        outcome(*old(frame), old(jvm).hv(), *final(frame), final(jvm).hv(), r,
            string_field_copy(*old(frame), old(jvm).hv(), field@)),
{
    let this = frame.get_local(0)?;
    proof {
        crate::natives::common::lemma_popped_zero(*old(frame));
    }
    if let Value::ObjectRef(id) = this {
        if let Some(Value::ObjectRef(s)) = get_field_of(jvm, id, field) {
            let t: Option<Vec<char>> = match string_elems(jvm, s) {
                Some(t) => Some(crate::natives::lang::copy_chars_pub(t)),
                None => None,
            };
            if let Some(t) = t {
                let n = jvm.alloc_string(t);
                frame.push(Value::ObjectRef(n));
                return Ok(());
            }
        }
    }
    frame.push(Value::Null);
    Ok(())
}

/// `UUID.fromString(s)`: a new `UUID` whose `value` field refers to a new string with
/// the text of `s` (empty when `s` is no string).
pub open spec fn uuid_from_string(f: Frame, h: Seq<ObjectView>) -> Effect {
    if f.stack@.len() == 0 {
        Err(underflow_error())
    } else {
        let t = match text_of(h, top(f, 0)) {
            Some(t) => t,
            None => Seq::<char>::empty(),
        };
        let h1 = with_string(h, t);
        let h2 = h1.push(ObjectView::plain("java.util.UUID"@));
        Ok((heap_set_field(h2, new_ref(h1), "value"@, new_ref(h)), 1, Some(new_ref(h1))))
    }
}

pub fn uuid_from_string_native(frame: &mut Frame, jvm: &mut Jvm) -> (r: Result<(), JvmError>)
    ensures
        same_but_heap(*old(jvm), *final(jvm)),
        outcome(*old(frame), old(jvm).hv(), *final(frame), final(jvm).hv(), r,
            uuid_from_string(*old(frame), old(jvm).hv())),
{
    let v = pop1(frame)?;
    let t: Vec<char> = match v {
        Value::ObjectRef(id) => match string_elems(jvm, id) {
            Some(t) => crate::natives::lang::copy_chars_pub(t),
            None => Vec::new(),
        },
        _ => Vec::new(),
    };
    let ghost h0 = jvm.hv();
    let s = jvm.alloc_string(t);
    let ghost h1 = jvm.hv();
    let u = jvm.allocate(HeapObject::new(String::from_str("java.util.UUID")));
    jvm.set_field(Value::ObjectRef(u), "value", Value::ObjectRef(s));
    frame.push(Value::ObjectRef(u));
    Ok(())
}

/// `Locale.getDefault()`: a new `Locale` whose `language` and `country` fields refer
/// to new strings `en` and `US`.
pub open spec fn locale_default(h: Seq<ObjectView>) -> Effect {
    let h1 = h.push(ObjectView::plain("java.util.Locale"@));
    let h2 = with_string(h1, "en"@);
    let h3 = with_string(h2, "US"@);
    let h4 = heap_set_field(h3, new_ref(h), "language"@, new_ref(h1));
    Ok((heap_set_field(h4, new_ref(h), "country"@, new_ref(h2)), 0, Some(new_ref(h))))
}

pub fn locale_default_native(frame: &mut Frame, jvm: &mut Jvm) -> (r: Result<(), JvmError>)
    ensures
        same_but_heap(*old(jvm), *final(jvm)),
        outcome(*old(frame), old(jvm).hv(), *final(frame), final(jvm).hv(), r, locale_default(old(jvm).hv())),
{
    proof {
        crate::natives::common::lemma_popped_zero(*old(frame));
    }
    let l = jvm.allocate(HeapObject::new(String::from_str("java.util.Locale")));
    let lang = jvm.alloc_string(crate::text::chars_of("en"));
    let country = jvm.alloc_string(crate::text::chars_of("US"));
    jvm.set_field(Value::ObjectRef(l), "language", Value::ObjectRef(lang));
    jvm.set_field(Value::ObjectRef(l), "country", Value::ObjectRef(country));
    frame.push(Value::ObjectRef(l));
    Ok(())
}

/// `Properties.setProperty(key, value)`: a `put` on the properties' table; the value
/// of an equal key is replaced and answered, another key is appended and `Null`
/// answered.
pub fn props_set_native(frame: &mut Frame, jvm: &mut Jvm) -> (r: Result<(), JvmError>)
    requires
        size_ok(old(jvm).hv(), *old(frame)),
    ensures
        same_but_heap(*old(jvm), *final(jvm)),
        instance_outcome(*old(frame), old(jvm).hv(), *final(frame), final(jvm).hv(), r, 2,
            |id: usize| map_put(old(jvm).hv(), id, top(*old(frame), 1), top(*old(frame), 0)), true,
            Some(Value::Null)),
{
    crate::natives::map::hashmap_put(frame, jvm)
}

/// The byte an element of a byte array stands for: a `byte` or the low bits of an
/// `int`; 0 for anything else.
pub open spec fn byte_of(v: Value) -> u8 {
    match v {
        Value::Byte(b) => b as u8,
        Value::Int(i) => i as u8,
        _ => 0,
    }
}

/// The bytes of the array that `v` refers to (none when it is no array).
pub open spec fn bytes_of(h: Seq<ObjectView>, v: Value) -> Seq<u8> {
    match v {
        Value::ArrayRef(a) => match array_of(h, a) {
            Some(e) => Seq::new(e.len(), |i: int| byte_of(e[i])),
            None => Seq::<u8>::empty(),
        },
        _ => Seq::<u8>::empty(),
    }
}

pub fn bytes_of_values(e: &Vec<Value>) -> (r: Vec<u8>)
    ensures
        r@ == Seq::new(e@.len(), |i: int| byte_of(e@[i])),
{
    let mut r: Vec<u8> = Vec::new();
    let mut i: usize = 0;
    while i < e.len()
        invariant
            i <= e@.len(),
            r@ == Seq::new(i as nat, |j: int| byte_of(e@[j])),
        decreases e@.len() - i,
    {
        let b: u8 = match e[i] {
            Value::Byte(b) => b as u8,
            Value::Int(x) => x as u8,
            _ => 0,
        };
        r.push(b);
        i += 1;
        assert(r@ =~= Seq::new(i as nat, |j: int| byte_of(e@[j])));
    }
    r
}

/// `Base64.Encoder.encodeToString(bytes)`: a new string with the Base64 text of the
/// bytes of the array in local 1.
pub open spec fn base64_encode_to_string(f: Frame, h: Seq<ObjectView>) -> Effect {
    if local_missing(f, 1) {
        Err(local_error())
    } else {
        Ok((with_string(h, base64_encode(bytes_of(h, f.locals@[1]))), 0, Some(new_ref(h))))
    }
}

pub fn base64_encode_to_string_native(frame: &mut Frame, jvm: &mut Jvm) -> (r: Result<(), JvmError>)
    ensures
        same_but_heap(*old(jvm), *final(jvm)),
        outcome(*old(frame), old(jvm).hv(), *final(frame), final(jvm).hv(), r,
            base64_encode_to_string(*old(frame), old(jvm).hv())),
{
    let v = frame.get_local(1)?;
    proof {
        crate::natives::common::lemma_popped_zero(*old(frame));
    }
    let bytes: Vec<u8> = match v {
        Value::ArrayRef(a) => match array_elems(jvm, a) {
            Some(e) => bytes_of_values(e),
            None => Vec::new(),
        },
        _ => Vec::new(),
    };
    let text = base64_encode_exec(bytes.as_slice());
    let s = jvm.alloc_string(text);
    frame.push(Value::ObjectRef(s));
    Ok(())
}

/// The byte-array elements holding `d`.
pub open spec fn byte_values(d: Seq<u8>) -> Seq<Value> {
    Seq::new(d.len(), |i: int| Value::Byte(d[i] as i8))
}

/// `Base64.Decoder.decode(text)`: a new `byte[]` with the bytes that the text of the
/// string in local 1 names (empty text when it is no string).
pub open spec fn base64_decode_array(f: Frame, h: Seq<ObjectView>) -> Effect {
    if local_missing(f, 1) {
        Err(local_error())
    } else {
        let t = match text_of(h, f.locals@[1]) {
            Some(t) => t,
            None => Seq::<char>::empty(),
        };
        Ok((h.push(ObjectView::array_obj("[B"@, byte_values(base64_decode(t)))), 0,
            Some(Value::ArrayRef(h.len() as usize))))
    }
}

fn byte_values_exec(d: &Vec<u8>) -> (r: Vec<Value>)
    ensures
        r@ == byte_values(d@),
{
    let mut r: Vec<Value> = Vec::new();
    let mut i: usize = 0;
    while i < d.len()
        invariant
            i <= d@.len(),
            r@ == byte_values(d@).take(i as int),
        decreases d@.len() - i,
    {
        r.push(Value::Byte(d[i] as i8));
        i += 1;
        assert(r@ =~= byte_values(d@).take(i as int));
    }
    assert(r@ =~= byte_values(d@));
    r
}

pub fn base64_decode_array_native(frame: &mut Frame, jvm: &mut Jvm) -> (r: Result<(), JvmError>)
    ensures
        same_but_heap(*old(jvm), *final(jvm)),
        outcome(*old(frame), old(jvm).hv(), *final(frame), final(jvm).hv(), r,
            base64_decode_array(*old(frame), old(jvm).hv())),
{
    let v = frame.get_local(1)?;
    proof {
        crate::natives::common::lemma_popped_zero(*old(frame));
    }
    let t: Vec<char> = match v {
        Value::ObjectRef(id) => match string_elems(jvm, id) {
            Some(t) => crate::natives::lang::copy_chars_pub(t),
            None => Vec::new(),
        },
        _ => Vec::new(),
    };
    let decoded = base64_decode_exec(t.as_slice());
    let elems = byte_values_exec(&decoded);
    let a = jvm.allocate(HeapObject::new_array_of(String::from_str("[B"), elems));
    frame.push(Value::ArrayRef(a));
    Ok(())
}

proof fn lemma_byte_cast(y: u8)
    by (bit_vector)
    ensures
        ((y as i8) as u8) == y,
{
}

/// Decoding the string that `encodeToString` made gives back the bytes of the array
/// it encoded, for every byte array (on a heap with room for the two new objects).
pub proof fn law_base64_natives_round_trip(f1: Frame, f2: Frame, h: Seq<ObjectView>)
    requires
        f1.locals@.len() >= 2,
        f2.locals@.len() >= 2,
        f2.locals@[1] == new_ref(h),
        h.len() + 2 <= usize::MAX,
    ensures
        base64_encode_to_string(f1, h) is Ok,
        base64_decode_array(f2, base64_encode_to_string(f1, h)->Ok_0.0) is Ok,
        bytes_of(
            base64_decode_array(f2, base64_encode_to_string(f1, h)->Ok_0.0)->Ok_0.0,
            Value::ArrayRef((h.len() + 1) as usize),
        ) == bytes_of(h, f1.locals@[1]),
{
    let d = bytes_of(h, f1.locals@[1]);
    crate::stdlib::base64::law_base64_round_trip(d);
    let h1 = with_string(h, base64_encode(d));
    assert(text_of(h1, new_ref(h)) == Some(base64_encode(d)));
    let h2 = h1.push(ObjectView::array_obj("[B"@, byte_values(d)));
    assert(base64_decode_array(f2, h1)->Ok_0.0 == h2);
    assert(array_of(h2, (h.len() + 1) as usize) == Some(byte_values(d)));
    assert forall|i: int| 0 <= i < d.len() implies byte_of(byte_values(d)[i]) == d[i] by {
        lemma_byte_cast(d[i]);
    }
    assert(bytes_of(h2, Value::ArrayRef((h.len() + 1) as usize)) =~= d);
}

} // verus!
