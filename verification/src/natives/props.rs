use vstd::prelude::*;
use crate::natives::common::{aref_field, local_missing, npe, outcome, read_aref_field, this_of, Effect};
use crate::natives::lang::with_string;
use crate::natives::map::{heap_map_store, map_store};
use crate::natives::scanner::{
    copy_range, is_space, is_space_exec, lemma_run_end_bounds, run_end, run_end_exec,
};
use crate::runtime::error::{JvmError, RuntimeError};
use crate::runtime::frame::{local_error, underflow_error, Frame};
use crate::runtime::heap::ObjectView;
use crate::runtime::jvm::{heap_set_field, same_but_heap, Jvm};
use crate::runtime::value::Value;

verus! {

// ---------- java.util.Properties.load over the text of a properties file ----------

/// Where `s.take(e)` ends once the white space at its end is cut off.
pub open spec fn back_end(s: Seq<char>, e: int) -> int
    decreases e,
{
    if 0 < e <= s.len() && is_space(s[e - 1]) {
        back_end(s, e - 1)
    } else {
        e
    }
}

/// `str::trim`: `s` without the white space at either end.
pub open spec fn trimmed(s: Seq<char>) -> Seq<char> {
    let a = run_end(s, 0, 0);
    let b = back_end(s, s.len() as int);
    if a < b {
        s.subrange(a, b)
    } else {
        Seq::empty()
    }
}

proof fn lemma_back_end_bounds(s: Seq<char>, e: int)
    requires
        0 <= e <= s.len(),
    ensures
        0 <= back_end(s, e) <= e,
    decreases e,
{
    if 0 < e && is_space(s[e - 1]) {
        lemma_back_end_bounds(s, e - 1);
    }
}

fn back_end_exec(s: &Vec<char>) -> (r: usize)
    ensures
        r == back_end(s@, s@.len() as int),
        r <= s@.len(),
{
    let mut e = s.len();
    while e > 0 && is_space_exec(s[e - 1])
        invariant
            e <= s@.len(),
            back_end(s@, e as int) == back_end(s@, s@.len() as int),
        decreases e,
    {
        e -= 1;
    }
    e
}

fn trimmed_exec(s: &Vec<char>) -> (r: Vec<char>)
    ensures
        r@ == trimmed(s@),
{
    let a = run_end_exec(s, 0, 0);
    let b = back_end_exec(s);
    proof {
        lemma_run_end_bounds(s@, 0, 0);
    }
    if a < b {
        copy_range(s, a, b)
    } else {
        Vec::new()
    }
}

/// The entry a line of a properties file gives: once trimmed, a line that is not
/// empty, does not begin with `#` or `!` and holds an `=` gives the trimmed text
/// before the first `=` as key and the trimmed text after it as value, when that
/// key is not empty.
pub open spec fn line_entry(line: Seq<char>) -> Option<(Seq<char>, Seq<char>)> {
    let t = trimmed(line);
    if t.len() == 0 || t[0] == '#' || t[0] == '!' {
        None
    } else {
        let q = run_end(t, 0, 4);
        if q < t.len() {
            let k = trimmed(t.take(q));
            if k.len() > 0 {
                Some((k, trimmed(t.skip(q + 1))))
            } else {
                None
            }
        } else {
            None
        }
    }
}

fn line_entry_exec(line: &Vec<char>) -> (r: Option<(Vec<char>, Vec<char>)>)
    ensures
        match r {
            Some((k, v)) => line_entry(line@) == Some((k@, v@)),
            None => line_entry(line@) is None,
        },
{
    let t = trimmed_exec(line);
    if t.len() == 0 || t[0] == '#' || t[0] == '!' {
        return None;
    }
    let q = run_end_exec(&t, 0, 4);
    proof {
        lemma_run_end_bounds(t@, 0, 4);
    }
    if q < t.len() {
        let before = copy_range(&t, 0, q);
        let after = copy_range(&t, q + 1, t.len());
        assert(before@ =~= t@.take(q as int));
        assert(after@ =~= t@.skip(q + 1));
        let k = trimmed_exec(&before);
        if k.len() > 0 {
            let v = trimmed_exec(&after);
            Some((k, v))
        } else {
            None
        }
    } else {
        None
    }
}

/// One loaded entry: new strings for key and value (in that order), whose
/// references go into slot `size` of the key array `kr` and the value array `vr`,
/// each grown first when the slot is past its end.
pub open spec fn store_pair(h: Seq<ObjectView>, kr: usize, vr: usize, size: nat, k: Seq<char>, v: Seq<char>) -> Seq<
    ObjectView,
> {
    let h2 = with_string(with_string(h, k), v);
    let h3 = heap_map_store(h2, kr, size, Value::ObjectRef(h.len() as usize));
    heap_map_store(h3, vr, size, Value::ObjectRef((h.len() + 1) as usize))
}

/// The heap and entry count after loading the lines of `c` from position `p` on,
/// `size` entries having been loaded before: the text splits at each line feed,
/// and each line's `line_entry` is stored in turn.
pub open spec fn load_lines(h: Seq<ObjectView>, kr: usize, vr: usize, c: Seq<char>, p: int, size: nat) -> (Seq<
    ObjectView,
>, nat)
    decreases c.len() + 1 - p,
{
    if p < 0 || p > c.len() {
        (h, size)
    } else {
        let e = run_end(c, p, 3);
        proof {
            lemma_run_end_bounds(c, p, 3);
        }
        match line_entry(c.subrange(p, e)) {
            Some((k, v)) => load_lines(store_pair(h, kr, vr, size, k, v), kr, vr, c, e + 1, size + 1),
            None => load_lines(h, kr, vr, c, e + 1, size),
        }
    }
}

/// `Properties.load(in)` on text `content` (what the file behind `in` holds): pops
/// `in`; for a receiver that is an object, loads the lines of `content` into its
/// `keys` and `values` arrays from slot 0 on and sets its `size` to the number of
/// entries loaded; fails with `NullPointerException` for a reference to no object.
pub open spec fn props_load(f: Frame, h: Seq<ObjectView>, content: Seq<char>) -> Effect {
    if f.stack@.len() == 0 {
        Err(underflow_error())
    } else if local_missing(f, 0) {
        Err(local_error())
    } else {
        let this = this_of(f);
        match this {
            Value::ObjectRef(id) => if id < h.len() {
                let (h1, n) = load_lines(h, aref_field(h, id, "keys"@), aref_field(h, id, "values"@), content, 0, 0);
                Ok((heap_set_field(h1, this, "size"@, Value::Int(n as i32)), 1, None))
            } else {
                Err(npe())
            },
            _ => Ok((h, 1, None)),
        }
    }
}

fn store_pair_exec(jvm: &mut Jvm, kr: usize, vr: usize, size: usize, k: Vec<char>, v: Vec<char>)
    requires
        (size as int + 1) * 3 / 2 + 1 <= usize::MAX,
    ensures
        final(jvm).hv() == store_pair(old(jvm).hv(), kr, vr, size as nat, k@, v@),
        same_but_heap(*old(jvm), *final(jvm)),
        final(jvm).heap@.len() == old(jvm).heap@.len() + 2,
{
    let kref = jvm.alloc_string(k);
    let vref = jvm.alloc_string(v);
    map_store(jvm, kr, size, Value::ObjectRef(kref));
    map_store(jvm, vr, size, Value::ObjectRef(vref));
}

pub fn props_load_native(frame: &mut Frame, jvm: &mut Jvm, content: &Vec<char>) -> (r: Result<(), JvmError>)
    requires
        content@.len() < usize::MAX / 4,
    ensures
        same_but_heap(*old(jvm), *final(jvm)),
        outcome(*old(frame), old(jvm).hv(), *final(frame), final(jvm).hv(), r,
            props_load(*old(frame), old(jvm).hv(), content@)),
{
    let _ = frame.pop()?;
    let this = frame.get_local(0)?;
    if let Value::ObjectRef(id) = this {
        if id >= jvm.heap.len() {
            return Err(JvmError::RuntimeError(RuntimeError::NullPointerException));
        }
        let kr = read_aref_field(jvm, id, "keys");
        let vr = read_aref_field(jvm, id, "values");
        let ghost h0 = jvm.hv();
        let mut p: usize = 0;
        let mut size: usize = 0;
        while p <= content.len()
            invariant
                p <= content@.len() + 1,
                size <= p,
                content@.len() < usize::MAX / 4,
                load_lines(jvm.hv(), kr, vr, content@, p as int, size as nat) == load_lines(h0, kr, vr, content@, 0, 0),
                same_but_heap(*old(jvm), *jvm),
                id < jvm.heap@.len(),
            decreases content@.len() + 1 - p,
        {
            let e = run_end_exec(content, p, 3);
            proof {
                lemma_run_end_bounds(content@, p as int, 3);
            }
            let line = copy_range(content, p, e);
            match line_entry_exec(&line) {
                Some((k, v)) => {
                    assert(line@.len() > 0) by {
                        if line@.len() == 0 {
                            assert(trimmed(line@) =~= Seq::<char>::empty());
                        }
                    }
                    store_pair_exec(jvm, kr, vr, size, k, v);
                    size += 1;
                },
                None => {},
            }
            p = e + 1;
        }
        jvm.set_field(this, "size", Value::Int(size as i32));
    }
    Ok(())
}

} // verus!
