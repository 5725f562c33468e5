use vstd::prelude::*;
use crate::natives::common::{
    field_of, get_field_of, int_field_or, local_missing, outcome, read_int_field, string_elems, string_of,
    this_of, Effect,
};
use crate::natives::lang::{new_ref, with_string};
use crate::runtime::error::JvmError;
use crate::runtime::frame::{local_error, Frame};
use crate::runtime::heap::ObjectView;
use crate::runtime::jvm::{heap_set_field, same_but_heap, Jvm};
use crate::runtime::value::Value;
use crate::stdlib::numtext::{parse_integer, parse_integer_exec};

verus! {

// ---------- java.util.Scanner over the text of its source ----------

/// The characters that `char::is_whitespace` accepts: those with Unicode's
/// `White_Space` property.
pub open spec fn is_space(c: char) -> bool {
    let u = c as u32;
    ||| 0x9 <= u <= 0xD
    ||| u == 0x20 || u == 0x85 || u == 0xA0 || u == 0x1680
    ||| 0x2000 <= u <= 0x200A
    ||| u == 0x2028 || u == 0x2029 || u == 0x202F || u == 0x205F || u == 0x3000
}

pub fn is_space_exec(c: char) -> (r: bool)
    ensures
        r == is_space(c),
{
    let u = c as u32;
    (0x9 <= u && u <= 0xD) || u == 0x20 || u == 0x85 || u == 0xA0 || u == 0x1680 || (0x2000 <= u && u <= 0x200A)
        || u == 0x2028 || u == 0x2029 || u == 0x202F || u == 0x205F || u == 0x3000
}

/// Whether `c` continues a run of kind `kind`: white space (0), anything but white
/// space (1), ASCII digits (2), anything but a line feed (3), anything but `=` (4),
/// ASCII digits and dots (5 and above).
pub open spec fn stays(c: char, kind: u8) -> bool {
    if kind == 0 {
        is_space(c)
    } else if kind == 1 {
        !is_space(c)
    } else if kind == 2 {
        '0' <= c && c <= '9'
    } else if kind == 3 {
        c != '\n'
    } else if kind == 4 {
        c != '='
    } else {
        ('0' <= c && c <= '9') || c == '.'
    }
}

fn stays_exec(c: char, kind: u8) -> (r: bool)
    ensures
        r == stays(c, kind),
{
    if kind == 0 {
        is_space_exec(c)
    } else if kind == 1 {
        !is_space_exec(c)
    } else if kind == 2 {
        '0' <= c && c <= '9'
    } else if kind == 3 {
        c != '\n'
    } else if kind == 4 {
        c != '='
    } else {
        ('0' <= c && c <= '9') || c == '.'
    }
}

/// Where the run of kind `kind` that starts at `p` ends: the first index from `p` on
/// whose character does not continue it, or `p` itself when `p` is past the text.
pub open spec fn run_end(s: Seq<char>, p: int, kind: u8) -> int
    decreases s.len() - p,
{
    if 0 <= p < s.len() && stays(s[p], kind) {
        run_end(s, p + 1, kind)
    } else {
        p
    }
}

pub proof fn lemma_run_end_bounds(s: Seq<char>, p: int, kind: u8)
    requires
        0 <= p,
    ensures
        p <= run_end(s, p, kind),
        p <= s.len() ==> run_end(s, p, kind) <= s.len(),
        forall|i: int| p <= i < run_end(s, p, kind) ==> stays(#[trigger] s[i], kind),
    decreases s.len() - p,
{
    if 0 <= p < s.len() && stays(s[p], kind) {
        lemma_run_end_bounds(s, p + 1, kind);
    }
}

pub fn run_end_exec(s: &Vec<char>, p: usize, kind: u8) -> (r: usize)
    ensures
        r == run_end(s@, p as int, kind),
{
    let mut q = p;
    while q < s.len() && stays_exec(s[q], kind)
        invariant
            p <= q,
            run_end(s@, q as int, kind) == run_end(s@, p as int, kind),
        decreases s@.len() - q,
    {
        q += 1;
    }
    q
}

/// The text a scanner reads: the string held by the object in its `source` field,
/// or nothing.
pub open spec fn scanner_text(h: Seq<ObjectView>, id: usize) -> Seq<char> {
    match field_of(h, id, "source"@) {
        Some(Value::ObjectRef(sid)) => match string_of(h, sid) {
            Some(s) => s,
            None => Seq::empty(),
        },
        _ => Seq::empty(),
    }
}

fn scanner_text_exec(jvm: &Jvm, id: usize) -> (r: Vec<char>)
    ensures
        r@ == scanner_text(jvm.hv(), id),
{
    match get_field_of(jvm, id, "source") {
        Some(Value::ObjectRef(sid)) => match string_elems(jvm, sid) {
            Some(s) => crate::natives::lang::copy_chars_pub(s),
            None => Vec::new(),
        },
        _ => Vec::new(),
    }
}

/// The position a scanner reads from: its `position` field taken as an index, 0
/// when it has none.
pub open spec fn scanner_pos(h: Seq<ObjectView>, id: usize) -> usize {
    int_field_or(h, id, "position"@, 0) as usize
}

pub fn copy_range(s: &Vec<char>, a: usize, b: usize) -> (r: Vec<char>)
    requires
        a <= b <= s@.len(),
    ensures
        r@ == s@.subrange(a as int, b as int),
{
    let mut r: Vec<char> = Vec::new();
    let mut i = a;
    while i < b
        invariant
            a <= i <= b <= s@.len(),
            r@ == s@.subrange(a as int, i as int),
        decreases b - i,
    {
        r.push(s[i]);
        i += 1;
        assert(r@ =~= s@.subrange(a as int, i as int));
    }
    r
}

/// `Scanner(source)`: the receiver's `source` becomes local 1 and its `position` 0.
pub open spec fn scanner_init(f: Frame, h: Seq<ObjectView>) -> Effect {
    if local_missing(f, 1) {
        Err(local_error())
    } else {
        let this = this_of(f);
        Ok((heap_set_field(heap_set_field(h, this, "source"@, f.locals@[1]), this, "position"@, Value::Int(0)), 0, None))
    }
}

pub fn scanner_init_native(frame: &mut Frame, jvm: &mut Jvm) -> (r: Result<(), JvmError>)
    ensures
        same_but_heap(*old(jvm), *final(jvm)),
        outcome(*old(frame), old(jvm).hv(), *final(frame), final(jvm).hv(), r, scanner_init(*old(frame), old(jvm).hv())),
{
    let source = frame.get_local(1)?;
    let this = frame.get_local(0)?;
    proof {
        crate::natives::common::lemma_popped_zero(*old(frame));
    }
    jvm.set_field(this, "source", source);
    jvm.set_field(this, "position", Value::Int(0));
    Ok(())
}

/// Where the number that `nextInt` and `nextLong` read ends: past the white space
/// from `pos`, an optional sign, then the ASCII digits that follow.
pub open spec fn number_end(s: Seq<char>, pos: int) -> int {
    let start = run_end(s, pos, 0);
    let q = if 0 <= start < s.len() && (s[start] == '-' || s[start] == '+') {
        start + 1
    } else {
        start
    };
    run_end(s, q, 2)
}

/// What `nextInt` (`long` false) and `nextLong` read from `s` at `pos`: the value
/// of the number there and the position after it, or `None` when there is no
/// number or it does not fit the type.
pub open spec fn scan_number(s: Seq<char>, pos: int, long: bool) -> Option<(int, int)> {
    let start = run_end(s, pos, 0);
    let end = number_end(s, pos);
    if end > start {
        let (min, max) = if long {
            (i64::MIN as int, i64::MAX as int)
        } else {
            (i32::MIN as int, i32::MAX as int)
        };
        match parse_integer(s.subrange(start, end), 10, min, max) {
            Some(v) => Some((v, end)),
            None => None,
        }
    } else {
        None
    }
}

/// `nextInt()` (`long` false) and `nextLong()`: the number the receiver reads next,
/// with its position moved past it; 0 of the type, position unchanged, when there
/// is none.
pub open spec fn scanner_next_number(f: Frame, h: Seq<ObjectView>, long: bool) -> Effect {
    if local_missing(f, 0) {
        Err(local_error())
    } else {
        let this = this_of(f);
        let zero = if long {
            Value::Long(0)
        } else {
            Value::Int(0)
        };
        match this {
            Value::ObjectRef(id) => match scan_number(scanner_text(h, id), scanner_pos(h, id) as int, long) {
                Some((v, end)) => Ok((heap_set_field(h, this, "position"@, Value::Int(end as i32)), 0, Some(
                    if long {
                        Value::Long(v as i64)
                    } else {
                        Value::Int(v as i32)
                    },
                ))),
                None => Ok((h, 0, Some(zero))),
            },
            _ => Ok((h, 0, Some(zero))),
        }
    }
}

pub fn scanner_next_number_native(frame: &mut Frame, jvm: &mut Jvm, long: bool) -> (r: Result<(), JvmError>)
    ensures
        same_but_heap(*old(jvm), *final(jvm)),
        outcome(*old(frame), old(jvm).hv(), *final(frame), final(jvm).hv(), r,
            scanner_next_number(*old(frame), old(jvm).hv(), long)),
{
    let this = frame.get_local(0)?;
    proof {
        crate::natives::common::lemma_popped_zero(*old(frame));
    }
    if let Value::ObjectRef(id) = this {
        let s = scanner_text_exec(jvm, id);
        let pos = read_int_field(jvm, id, "position", 0) as usize;
        let start = run_end_exec(&s, pos, 0);
        let q = if start < s.len() && (s[start] == '-' || s[start] == '+') {
            start + 1
        } else {
            start
        };
        let end = run_end_exec(&s, q, 2);
        proof {
            lemma_run_end_bounds(s@, pos as int, 0);
            lemma_run_end_bounds(s@, q as int, 2);
        }
        if end > start {
            let (min, max): (i64, i64) = if long {
                (i64::MIN, i64::MAX)
            } else {
                (i32::MIN as i64, i32::MAX as i64)
            };
            let digits = copy_range(&s, start, end);
            if let Some(v) = parse_integer_exec(digits.as_slice(), 10, min, max) {
                jvm.set_field(this, "position", Value::Int(end as i32));
                if long {
                    frame.push(Value::Long(v));
                } else {
                    frame.push(Value::Int(v as i32));
                }
                return Ok(());
            }
        }
    }
    if long {
        frame.push(Value::Long(0));
    } else {
        frame.push(Value::Int(0));
    }
    Ok(())
}

/// `next()`: a new string holding the token the receiver reads next (the run of
/// non-white-space characters after the white space at its position), with its
/// position moved past it; `null`, position unchanged, when there is none.
pub open spec fn scanner_next(f: Frame, h: Seq<ObjectView>) -> Effect {
    if local_missing(f, 0) {
        Err(local_error())
    } else {
        let this = this_of(f);
        match this {
            Value::ObjectRef(id) => {
                let s = scanner_text(h, id);
                let start = run_end(s, scanner_pos(h, id) as int, 0);
                let end = run_end(s, start, 1);
                if end > start {
                    Ok((heap_set_field(with_string(h, s.subrange(start, end)), this, "position"@,
                        Value::Int(end as i32)), 0, Some(new_ref(h))))
                } else {
                    Ok((h, 0, Some(Value::Null)))
                }
            },
            _ => Ok((h, 0, Some(Value::Null))),
        }
    }
}

pub fn scanner_next_native(frame: &mut Frame, jvm: &mut Jvm) -> (r: Result<(), JvmError>)
    ensures
        same_but_heap(*old(jvm), *final(jvm)),
        outcome(*old(frame), old(jvm).hv(), *final(frame), final(jvm).hv(), r, scanner_next(*old(frame), old(jvm).hv())),
{
    let this = frame.get_local(0)?;
    proof {
        crate::natives::common::lemma_popped_zero(*old(frame));
    }
    if let Value::ObjectRef(id) = this {
        let s = scanner_text_exec(jvm, id);
        let pos = read_int_field(jvm, id, "position", 0) as usize;
        let start = run_end_exec(&s, pos, 0);
        let end = run_end_exec(&s, start, 1);
        proof {
            lemma_run_end_bounds(s@, pos as int, 0);
            lemma_run_end_bounds(s@, start as int, 1);
        }
        if end > start {
            let token = copy_range(&s, start, end);
            let r = jvm.alloc_string(token);
            jvm.set_field(this, "position", Value::Int(end as i32));
            frame.push(Value::ObjectRef(r));
            return Ok(());
        }
    }
    frame.push(Value::Null);
    Ok(())
}

/// Where the line that `nextLine` reads at `pos` begins: one character further on
/// when the text there is a line feed or a carriage return, and a second one
/// further when it is a line feed.
pub open spec fn line_start(s: Seq<char>, pos: int) -> int {
    let skip = s[pos] == '\n';
    let p1 = if skip {
        pos + 1
    } else {
        pos
    };
    if skip || (p1 < s.len() && s[p1] == '\r') {
        p1 + 1
    } else {
        p1
    }
}

/// `nextLine()` runs to its end unless its position holds the text's last
/// character and that is a line feed (the line would then begin past the end).
pub open spec fn scanner_line_ready(h: Seq<ObjectView>, f: Frame) -> bool {
    local_missing(f, 0) || match this_of(f) {
        Value::ObjectRef(id) => {
            let s = scanner_text(h, id);
            let pos = scanner_pos(h, id) as int;
            !(pos < s.len() && line_start(s, pos) > s.len())
        },
        _ => true,
    }
}

/// `nextLine()`: a new string holding the line the receiver reads next (from
/// `line_start` up to the next line feed), with its position moved past that line
/// feed; `null`, position unchanged, at the end of the text.
pub open spec fn scanner_next_line(f: Frame, h: Seq<ObjectView>) -> Effect {
    if local_missing(f, 0) {
        Err(local_error())
    } else {
        let this = this_of(f);
        match this {
            Value::ObjectRef(id) => {
                let s = scanner_text(h, id);
                let pos = scanner_pos(h, id) as int;
                if pos < s.len() {
                    let start = line_start(s, pos);
                    let end = run_end(s, start, 3);
                    let next = if end < s.len() && s[end] == '\n' {
                        end + 1
                    } else {
                        end
                    };
                    Ok((heap_set_field(with_string(h, s.subrange(start, end)), this, "position"@,
                        Value::Int(next as i32)), 0, Some(new_ref(h))))
                } else {
                    Ok((h, 0, Some(Value::Null)))
                }
            },
            _ => Ok((h, 0, Some(Value::Null))),
        }
    }
}

/// Tests `scanner_line_ready` at run time.
pub fn scanner_line_ready_check(jvm: &Jvm, frame: &Frame) -> (b: bool)
    ensures
        b == scanner_line_ready(jvm.hv(), *frame),
{
    if frame.locals.len() == 0 {
        return true;
    }
    match frame.locals[0] {
        Value::ObjectRef(id) => {
            let s = scanner_text_exec(jvm, id);
            let pos = read_int_field(jvm, id, "position", 0) as usize;
            // only a line feed moves the start two places on
            !(pos < s.len() && s[pos] == '\n' && pos + 1 == s.len())
        },
        _ => true,
    }
}

pub fn scanner_next_line_native(frame: &mut Frame, jvm: &mut Jvm) -> (r: Result<(), JvmError>)
    requires
        scanner_line_ready(old(jvm).hv(), *old(frame)),
    ensures
        same_but_heap(*old(jvm), *final(jvm)),
        outcome(*old(frame), old(jvm).hv(), *final(frame), final(jvm).hv(), r,
            scanner_next_line(*old(frame), old(jvm).hv())),
{
    let this = frame.get_local(0)?;
    proof {
        crate::natives::common::lemma_popped_zero(*old(frame));
    }
    if let Value::ObjectRef(id) = this {
        let s = scanner_text_exec(jvm, id);
        let pos = read_int_field(jvm, id, "position", 0) as usize;
        if pos < s.len() {
            let skip = s[pos] == '\n';
            let p1 = if skip {
                pos + 1
            } else {
                pos
            };
            let start = if skip || (p1 < s.len() && s[p1] == '\r') {
                p1 + 1
            } else {
                p1
            };
            let end = run_end_exec(&s, start, 3);
            proof {
                lemma_run_end_bounds(s@, start as int, 3);
            }
            let next = if end < s.len() && s[end] == '\n' {
                end + 1
            } else {
                end
            };
            let line = copy_range(&s, start, end);
            let r = jvm.alloc_string(line);
            jvm.set_field(this, "position", Value::Int(next as i32));
            frame.push(Value::ObjectRef(r));
            return Ok(());
        }
    }
    frame.push(Value::Null);
    Ok(())
}

/// `hasNext()`: whether anything but white space follows the receiver's position.
pub open spec fn scanner_has_next(f: Frame, h: Seq<ObjectView>) -> Effect {
    if local_missing(f, 0) {
        Err(local_error())
    } else {
        Ok((h, 0, Some(Value::Boolean(match this_of(f) {
            Value::ObjectRef(id) => {
                let s = scanner_text(h, id);
                run_end(s, scanner_pos(h, id) as int, 0) < s.len()
            },
            _ => false,
        }))))
    }
}

pub fn scanner_has_next_native(frame: &mut Frame, jvm: &mut Jvm) -> (r: Result<(), JvmError>)
    ensures
        same_but_heap(*old(jvm), *final(jvm)),
        outcome(*old(frame), old(jvm).hv(), *final(frame), final(jvm).hv(), r, scanner_has_next(*old(frame), old(jvm).hv())),
{
    let this = frame.get_local(0)?;
    proof {
        crate::natives::common::lemma_popped_zero(*old(frame));
    }
    let mut has = false;
    if let Value::ObjectRef(id) = this {
        let s = scanner_text_exec(jvm, id);
        let pos = read_int_field(jvm, id, "position", 0) as usize;
        has = run_end_exec(&s, pos, 0) < s.len();
    }
    frame.push(Value::Boolean(has));
    Ok(())
}

/// What `nextDouble` reads from `s` at `pos`: past the white space there, an
/// optional sign, then ASCII digits and dots; the text (from the sign on) and the
/// position after it, or `None` when that text is empty.
pub open spec fn real_token(s: Seq<char>, pos: int) -> Option<(Seq<char>, int)> {
    let start = run_end(s, pos, 0);
    let q = if 0 <= start < s.len() && (s[start] == '-' || s[start] == '+') {
        start + 1
    } else {
        start
    };
    let end = run_end(s, q, 5);
    if end > start {
        Some((s.subrange(start, end), end))
    } else {
        None
    }
}

/// The `real_token` of the scanner `this` refers to, at its position; `None` as well
/// when `this` is no object reference.
pub fn scanner_real_token(jvm: &Jvm, this: Value) -> (r: Option<(Vec<char>, usize)>)
    ensures
        match this {
            Value::ObjectRef(id) => match (r, real_token(scanner_text(jvm.hv(), id), scanner_pos(jvm.hv(), id) as int)) {
                (Some((t, e)), Some((u, f))) => t@ == u && e == f,
                (None, None) => true,
                _ => false,
            },
            _ => r is None,
        },
{
    if let Value::ObjectRef(id) = this {
        let s = scanner_text_exec(jvm, id);
        let pos = read_int_field(jvm, id, "position", 0) as usize;
        let start = run_end_exec(&s, pos, 0);
        let q = if start < s.len() && (s[start] == '-' || s[start] == '+') {
            start + 1
        } else {
            start
        };
        let end = run_end_exec(&s, q, 5);
        proof {
            lemma_run_end_bounds(s@, pos as int, 0);
            lemma_run_end_bounds(s@, q as int, 5);
        }
        if end > start {
            Some((copy_range(&s, start, end), end))
        } else {
            None
        }
    } else {
        None
    }
}

proof fn lemma_run_end_exact(s: Seq<char>, p: int, e: int, kind: u8)
    requires
        0 <= p <= e <= s.len(),
        forall|i: int| p <= i < e ==> stays(#[trigger] s[i], kind),
        e == s.len() || !stays(s[e], kind),
    ensures
        run_end(s, p, kind) == e,
    decreases e - p,
{
    if p < e {
        lemma_run_end_exact(s, p + 1, e, kind);
    }
}

proof fn lemma_decimal_digits(n: nat)
    ensures
        crate::text::decimal(n).len() >= 1,
        forall|i: int| 0 <= i < crate::text::decimal(n).len()
            ==> '0' <= #[trigger] crate::text::decimal(n)[i] && crate::text::decimal(n)[i] <= '9',
    decreases n,
{
    if n >= 10 {
        lemma_decimal_digits(n / 10);
        let d = n % 10;
        assert(crate::text::digit_char(d) as u32 == '0' as u32 + d);
    } else {
        assert(crate::text::digit_char(n) as u32 == '0' as u32 + n);
    }
}

/// A scanner reads back the decimal text of a number: on a text made of white space,
/// then `Integer.toString(x)` (`Long.toString`), then anything that does not start
/// with a digit, `nextInt` (`nextLong`) from the start gives `x` and moves the
/// position to just past the number.
pub proof fn law_scanner_reads_back(w: Seq<char>, x: int, r: Seq<char>, long: bool)
    requires
        forall|i: int| 0 <= i < w.len() ==> is_space(#[trigger] w[i]),
        r.len() > 0 ==> !('0' <= r[0] && r[0] <= '9'),
        long ==> i64::MIN <= x <= i64::MAX,
        !long ==> i32::MIN <= x <= i32::MAX,
    ensures
        scan_number(w + crate::text::signed_decimal(x) + r, 0, long)
            == Some((x, (w.len() + crate::text::signed_decimal(x).len()) as int)),
{
    let d = crate::text::signed_decimal(x);
    let s = w + d + r;
    let start = w.len() as int;
    let end = (w.len() + d.len()) as int;
    let mag: nat = if x < 0 { (-x) as nat } else { x as nat };
    lemma_decimal_digits(mag);
    assert(d.len() >= 1);
    assert(s[start] == d[0]);
    assert(!is_space(d[0])) by {
        if x < 0 {
            assert(d[0] == '-');
        } else {
            assert(d[0] == crate::text::decimal(mag)[0]);
        }
    }
    assert forall|i: int| 0 <= i < start implies stays(#[trigger] s[i], 0) by {
        assert(s[i] == w[i]);
    }
    lemma_run_end_exact(s, 0, start, 0);
    let q = if x < 0 { start + 1 } else { start };
    assert(q == (if 0 <= start < s.len() && (s[start] == '-' || s[start] == '+') { start + 1 } else { start })) by {
        if x >= 0 {
            assert(d[0] == crate::text::decimal(mag)[0]);
        }
    }
    assert forall|i: int| q <= i < end implies stays(#[trigger] s[i], 2) by {
        assert(s[i] == d[i - start]);
        if x < 0 {
            assert(d[i - start] == crate::text::decimal(mag)[i - start - 1]);
        } else {
            assert(d[i - start] == crate::text::decimal(mag)[i - start]);
        }
    }
    if end < s.len() {
        assert(s[end] == r[0]);
    }
    lemma_run_end_exact(s, q, end, 2);
    assert(number_end(s, 0) == end);
    assert(s.subrange(start, end) =~= d);
    if long {
        crate::stdlib::numtext::law_decimal_parse_round_trip(x, i64::MIN as int, i64::MAX as int);
    } else {
        crate::stdlib::numtext::law_decimal_parse_round_trip(x, i32::MIN as int, i32::MAX as int);
    }
}

/// `Scanner.nextInt()` (`nextLong()`) on a scanner at the start of a text made of
/// white space, `Integer.toString(x)` (`Long.toString(x)`) and anything that does not
/// start with a digit answers `x` and moves the scanner's position to just past it.
pub proof fn law_scanner_next_number(f: Frame, h: Seq<ObjectView>, id: usize, w: Seq<char>, x: int, r: Seq<char>, long: bool)
    requires
        f.locals@.len() >= 1,
        this_of(f) == Value::ObjectRef(id),
        id < h.len(),
        scanner_pos(h, id) == 0,
        scanner_text(h, id) == w + crate::text::signed_decimal(x) + r,
        forall|i: int| 0 <= i < w.len() ==> is_space(#[trigger] w[i]),
        r.len() > 0 ==> !('0' <= r[0] && r[0] <= '9'),
        long ==> i64::MIN <= x <= i64::MAX,
        !long ==> i32::MIN <= x <= i32::MAX,
        w.len() + crate::text::signed_decimal(x).len() <= i32::MAX,
    ensures
        ({
            let res = scanner_next_number(f, h, long);
            let end = (w.len() + crate::text::signed_decimal(x).len()) as int;
            &&& res is Ok
            &&& res->Ok_0.2 == Some(if long { Value::Long(x as i64) } else { Value::Int(x as i32) })
            &&& res->Ok_0.0 == heap_set_field(h, this_of(f), "position"@, Value::Int(end as i32))
        }),
{
    law_scanner_reads_back(w, x, r, long);
}

} // verus!
