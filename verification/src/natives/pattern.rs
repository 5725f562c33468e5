use vstd::prelude::*;
use crate::natives::boxes::text_of;
use crate::natives::common::{field_of, local_missing, npe, oref_field, outcome, pop2, this_of, top, Effect};
use crate::natives::lang::{copy_chars_pub, new_ref, with_string};
use crate::natives::regex::{parse_regex_spec, regex_match_text, regex_matches};
use crate::runtime::error::{JvmError, RuntimeError};
use crate::runtime::frame::{local_error, underflow_error, Frame};
use crate::runtime::heap::{HeapObject, ObjectView};
use crate::runtime::jvm::{heap_set_field, same_but_heap, Jvm};
use crate::runtime::value::Value;

verus! {

/// The text of the string a value refers to, or empty.
pub open spec fn text_or_empty_of(h: Seq<ObjectView>, v: Value) -> Seq<char> {
    match text_of(h, v) {
        Some(s) => s,
        None => Seq::<char>::empty(),
    }
}

fn text_or_empty_exec(jvm: &Jvm, v: Value) -> (r: Vec<char>)
    ensures
        r@ == text_or_empty_of(jvm.hv(), v),
{
    match v {
        Value::ObjectRef(id) => match crate::natives::common::string_elems(jvm, id) {
            Some(s) => copy_chars_pub(s),
            None => Vec::new(),
        },
        _ => Vec::new(),
    }
}

/// Whether `regex` matches `input`.
pub open spec fn text_matches(regex: Seq<char>, input: Seq<char>) -> bool {
    regex_matches(parse_regex_spec(regex), input)
}

/// `Pattern.compile(regex)` (the regex is read from local 1): a new `Pattern` whose
/// `pattern` field refers to a new copy of the regex text.
pub open spec fn pattern_compile(f: Frame, h: Seq<ObjectView>) -> Effect {
    if local_missing(f, 1) {
        Err(local_error())
    } else {
        let h1 = h.push(ObjectView::plain("java.util.regex.Pattern"@));
        let h2 = with_string(h1, text_or_empty_of(h, f.locals@[1]));
        Ok((heap_set_field(h2, new_ref(h), "pattern"@, new_ref(h1)), 0, Some(new_ref(h))))
    }
}

pub fn pattern_compile_native(frame: &mut Frame, jvm: &mut Jvm) -> (r: Result<(), JvmError>)
    ensures
        same_but_heap(*old(jvm), *final(jvm)),
        outcome(*old(frame), old(jvm).hv(), *final(frame), final(jvm).hv(), r, pattern_compile(*old(frame), old(jvm).hv())),
{
    let rv = frame.get_local(1)?;
    proof {
        crate::natives::common::lemma_popped_zero(*old(frame));
    }
    let text = text_or_empty_exec(jvm, rv);
    let p = jvm.allocate(HeapObject::new(String::from_str("java.util.regex.Pattern")));
    let s = jvm.alloc_string(text);
    jvm.set_field(Value::ObjectRef(p), "pattern", Value::ObjectRef(s));
    frame.push(Value::ObjectRef(p));
    Ok(())
}

/// `Pattern.matches(regex, input)`: whether the regex matches the input (a value that is
/// no string counts as empty text).
pub open spec fn pattern_matches(f: Frame, h: Seq<ObjectView>) -> Effect {
    if f.stack@.len() < 2 {
        Err(underflow_error())
    } else {
        Ok((h, 2, Some(Value::Boolean(text_matches(text_or_empty_of(h, top(f, 1)), text_or_empty_of(h, top(f, 0)))))))
    }
}

pub fn pattern_matches_native(frame: &mut Frame, jvm: &mut Jvm) -> (r: Result<(), JvmError>)
    ensures
        *final(jvm) == *old(jvm),
        outcome(*old(frame), old(jvm).hv(), *final(frame), final(jvm).hv(), r, pattern_matches(*old(frame), old(jvm).hv())),
{
    let (rv, iv) = pop2(frame)?;
    let regex = text_or_empty_exec(jvm, rv);
    let input = text_or_empty_exec(jvm, iv);
    let m = regex_match_text(&regex, &input);
    frame.push(Value::Boolean(m));
    Ok(())
}

/// `matcher(input)`: a new `Matcher` holding the pattern's regex string and the input.
/// The matcher is allocated before the receiver is checked, so a dangling receiver
/// leaves it behind when the call fails.
pub open spec fn pattern_matcher_heap(f: Frame, h: Seq<ObjectView>) -> Seq<ObjectView> {
    let h1 = h.push(ObjectView::plain("java.util.regex.Matcher"@));
    match this_of(f) {
        Value::ObjectRef(id) => if id < h.len() {
            heap_set_field(
                heap_set_field(h1, new_ref(h), "pattern"@, Value::ObjectRef(oref_field(h, id, "pattern"@))),
                new_ref(h),
                "input"@,
                top(f, 0),
            )
        } else {
            h1
        },
        _ => h1,
    }
}

pub fn pattern_matcher_native(frame: &mut Frame, jvm: &mut Jvm) -> (r: Result<(), JvmError>)
    ensures
        r is Err ==> crate::natives::common::failed_frame(*old(frame), *final(frame)),
        same_but_heap(*old(jvm), *final(jvm)),
        old(frame).stack@.len() == 0 ==> r == Err::<(), JvmError>(underflow_error()) && final(jvm).hv() == old(jvm).hv(),
        old(frame).stack@.len() > 0 && local_missing(*old(frame), 0) ==> r == Err::<(), JvmError>(local_error())
            && final(jvm).hv() == old(jvm).hv(),
        old(frame).stack@.len() > 0 && !local_missing(*old(frame), 0) ==> {
            &&& final(jvm).hv() == pattern_matcher_heap(*old(frame), old(jvm).hv())
            &&& match this_of(*old(frame)) {
                Value::ObjectRef(id) => if id < old(jvm).hv().len() {
                    r == Ok::<(), JvmError>(()) && crate::natives::common::returned(*old(frame), *final(frame), 1, new_ref(old(jvm).hv()))
                } else {
                    r == Err::<(), JvmError>(npe())
                },
                _ => r == Ok::<(), JvmError>(()) && crate::natives::common::returned(*old(frame), *final(frame), 1, new_ref(old(jvm).hv())),
            }
        },
{
    let (this, input) = crate::natives::common::pop1_this(frame)?;
    let m = jvm.allocate(HeapObject::new(String::from_str("java.util.regex.Matcher")));
    if let Value::ObjectRef(id) = this {
        if id >= old_len_of(jvm, m) {
            return Err(JvmError::RuntimeError(RuntimeError::NullPointerException));
        }
        let ps = crate::natives::common::read_oref_field(jvm, id, "pattern");
        jvm.set_field(Value::ObjectRef(m), "pattern", Value::ObjectRef(ps));
        jvm.set_field(Value::ObjectRef(m), "input", input);
    }
    frame.push(Value::ObjectRef(m));
    Ok(())
}

/// The heap length before the matcher at `m` was allocated.
fn old_len_of(jvm: &Jvm, m: usize) -> (r: usize)
    ensures
        r == m,
{
    m
}

/// The regex and input texts of a matcher: from its `pattern` and `input` fields,
/// empty when a field is missing or refers to no string.
pub open spec fn matcher_texts(h: Seq<ObjectView>, id: usize) -> (Seq<char>, Seq<char>) {
    let pat = match field_of(h, id, "pattern"@) {
        Some(v) => text_or_empty_of(h, v),
        None => Seq::<char>::empty(),
    };
    let inp = match field_of(h, id, "input"@) {
        Some(v) => text_or_empty_of(h, v),
        None => Seq::<char>::empty(),
    };
    (pat, inp)
}

/// `Matcher.matches()` and `Matcher.find()`: whether the matcher's regex matches its
/// input; `false` for a receiver that is no live object.
pub open spec fn matcher_matches(f: Frame, h: Seq<ObjectView>) -> Effect {
    if local_missing(f, 0) {
        Err(local_error())
    } else {
        match this_of(f) {
            Value::ObjectRef(id) => if id < h.len() {
                Ok((h, 0, Some(Value::Boolean(text_matches(matcher_texts(h, id).0, matcher_texts(h, id).1)))))
            } else {
                Ok((h, 0, Some(Value::Boolean(false))))
            },
            _ => Ok((h, 0, Some(Value::Boolean(false)))),
        }
    }
}

fn field_text(jvm: &Jvm, id: usize, name: &str) -> (r: Vec<char>)
    ensures
        r@ == match field_of(jvm.hv(), id, name@) {
            Some(v) => text_or_empty_of(jvm.hv(), v),
            None => Seq::<char>::empty(),
        },
{
    match crate::natives::common::get_field_of(jvm, id, name) {
        Some(v) => text_or_empty_exec(jvm, v),
        None => Vec::new(),
    }
}

pub fn matcher_matches_native(frame: &mut Frame, jvm: &mut Jvm) -> (r: Result<(), JvmError>)
    ensures
        *final(jvm) == *old(jvm),
        outcome(*old(frame), old(jvm).hv(), *final(frame), final(jvm).hv(), r, matcher_matches(*old(frame), old(jvm).hv())),
{
    let this = frame.get_local(0)?;
    proof {
        crate::natives::common::lemma_popped_zero(*old(frame));
    }
    let mut result = false;
    if let Value::ObjectRef(id) = this {
        if id < jvm.heap.len() {
            let pat = field_text(jvm, id, "pattern");
            let inp = field_text(jvm, id, "input");
            result = regex_match_text(&pat, &inp);
        }
    }
    frame.push(Value::Boolean(result));
    Ok(())
}

/// `Matcher.group()`: a new copy of the input string, or `Null`.
pub open spec fn matcher_group(f: Frame, h: Seq<ObjectView>) -> Effect {
    if local_missing(f, 0) {
        Err(local_error())
    } else {
        match this_of(f) {
            Value::ObjectRef(id) => match field_of(h, id, "input"@) {
                Some(v) => match text_of(h, v) {
                    Some(s) => Ok((with_string(h, s), 0, Some(new_ref(h)))),
                    None => Ok((h, 0, Some(Value::Null))),
                },
                None => Ok((h, 0, Some(Value::Null))),
            },
            _ => Ok((h, 0, Some(Value::Null))),
        }
    }
}

pub fn matcher_group_native(frame: &mut Frame, jvm: &mut Jvm) -> (r: Result<(), JvmError>)
    ensures
        same_but_heap(*old(jvm), *final(jvm)),
        outcome(*old(frame), old(jvm).hv(), *final(frame), final(jvm).hv(), r, matcher_group(*old(frame), old(jvm).hv())),
{
    let this = frame.get_local(0)?;
    proof {
        crate::natives::common::lemma_popped_zero(*old(frame));
    }
    if let Value::ObjectRef(id) = this {
        match crate::natives::common::get_field_of(jvm, id, "input") {
            Some(v) => match v {
                Value::ObjectRef(sid) => match crate::natives::common::string_elems(jvm, sid) {
                    Some(s) => {
                        let t = copy_chars_pub(s);
                        let r = jvm.alloc_string(t);
                        frame.push(Value::ObjectRef(r));
                        return Ok(());
                    },
                    None => {},
                },
                _ => {},
            },
            None => {},
        }
    }
    frame.push(Value::Null);
    Ok(())
}

/// `Pattern.matches` with the regex `\d+` answers `true` exactly for an input that
/// holds a decimal digit, and with `^\d+$` exactly for a non-empty input made of
/// decimal digits alone; the heap is not changed.
pub proof fn law_pattern_matches_digits(f: Frame, h: Seq<ObjectView>)
    requires
        f.stack@.len() >= 2,
    ensures
        ({
            let t = text_or_empty_of(h, top(f, 0));
            let re = text_or_empty_of(h, top(f, 1));
            &&& pattern_matches(f, h) is Ok
            &&& pattern_matches(f, h)->Ok_0.0 == h
            &&& re == "\\d+"@ ==> pattern_matches(f, h)->Ok_0.2 == Some(Value::Boolean(
                exists|i: int| 0 <= i < t.len() && '0' <= #[trigger] t[i] && t[i] <= '9'))
            &&& re == "^\\d+$"@ ==> pattern_matches(f, h)->Ok_0.2 == Some(Value::Boolean(
                t.len() > 0 && forall|i: int| 0 <= i < t.len() ==> '0' <= #[trigger] t[i] && t[i] <= '9'))
        }),
{
    crate::natives::regex::law_digits_patterns(text_or_empty_of(h, top(f, 0)));
}

} // verus!
