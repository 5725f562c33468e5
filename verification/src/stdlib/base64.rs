use vstd::prelude::*;

verus! {

/// The character of the standard Base64 alphabet for a 6-bit value.
pub open spec fn b64_char(v: nat) -> char {
    if v < 26 {
        (('A' as nat) + v) as char
    } else if v < 52 {
        (('a' as nat) + v - 26) as char
    } else if v < 62 {
        (('0' as nat) + v - 52) as char
    } else if v == 62 {
        '+'
    } else {
        '/'
    }
}

/// The 6-bit value of a character of the standard Base64 alphabet.
pub open spec fn b64_value(c: char) -> Option<nat> {
    if 'A' <= c && c <= 'Z' {
        Some((c as nat - 'A' as nat) as nat)
    } else if 'a' <= c && c <= 'z' {
        Some((c as nat - 'a' as nat + 26) as nat)
    } else if '0' <= c && c <= '9' {
        Some((c as nat - '0' as nat + 52) as nat)
    } else if c == '+' {
        Some(62)
    } else if c == '/' {
        Some(63)
    } else {
        None
    }
}

/// Four characters for a group of one to three bytes, padded with '='.
pub open spec fn encode_group(d: Seq<u8>) -> Seq<char> {
    let b0 = d[0] as nat;
    let b1 = if d.len() > 1 {
        d[1] as nat
    } else {
        0
    };
    let b2 = if d.len() > 2 {
        d[2] as nat
    } else {
        0
    };
    let t = b0 * 65536 + b1 * 256 + b2;
    seq![
        b64_char((t / 262144) % 64),
        b64_char((t / 4096) % 64),
        if d.len() > 1 {
            b64_char((t / 64) % 64)
        } else {
            '='
        },
        if d.len() > 2 {
            b64_char(t % 64)
        } else {
            '='
        },
    ]
}

/// Bytes `3k .. 3k+3` of `d` (fewer at the end).
pub open spec fn group(d: Seq<u8>, k: int) -> Seq<u8> {
    d.subrange(3 * k, if 3 * k + 3 <= d.len() {
        3 * k + 3
    } else {
        d.len() as int
    })
}

/// The text of the first `k` groups.
pub open spec fn encode_groups(d: Seq<u8>, k: int) -> Seq<char>
    decreases k,
{
    if k <= 0 {
        seq![]
    } else {
        encode_groups(d, k - 1) + encode_group(group(d, k - 1))
    }
}

/// Standard Base64 with padding: four characters for every group of up to three bytes.
pub open spec fn base64_encode(d: Seq<u8>) -> Seq<char> {
    encode_groups(d, ((d.len() + 2) / 3) as int)
}

/// The values of the alphabet characters of `s`, in order; every other character
/// (padding included) is dropped.
pub open spec fn b64_values(s: Seq<char>) -> Seq<u32>
    decreases s.len(),
{
    if s.len() == 0 {
        seq![]
    } else {
        let r = b64_values(s.drop_last());
        match b64_value(s.last()) {
            Some(v) => r.push(v as u32),
            None => r,
        }
    }
}

/// The three bytes of the group of four values starting at `4k`.
pub open spec fn group_bytes(v: Seq<u32>, k: int) -> Seq<u8> {
    let t = v[4 * k] as int * 262144 + v[4 * k + 1] as int * 4096 + v[4 * k + 2] as int * 64
        + v[4 * k + 3] as int;
    seq![(t / 65536) as u8, ((t / 256) % 256) as u8, (t % 256) as u8]
}

/// The bytes of the first `k` complete groups of four values.
pub open spec fn decode_groups(v: Seq<u32>, k: int) -> Seq<u8>
    decreases k,
{
    if k <= 0 {
        seq![]
    } else {
        decode_groups(v, k - 1) + group_bytes(v, k - 1)
    }
}

/// The bytes of a final group of two or three values (the group of one or two bytes
/// that padding closed); a single leftover value names no whole byte and gives none.
pub open spec fn tail_bytes(v: Seq<u32>, k: int) -> Seq<u8> {
    let r = v.len() - 4 * k;
    if r == 2 {
        let t = v[4 * k] as int * 262144 + v[4 * k + 1] as int * 4096;
        seq![(t / 65536) as u8]
    } else if r == 3 {
        let t = v[4 * k] as int * 262144 + v[4 * k + 1] as int * 4096 + v[4 * k + 2] as int * 64;
        seq![(t / 65536) as u8, ((t / 256) % 256) as u8]
    } else {
        seq![]
    }
}

/// What decoding gives for a string: the values of its alphabet characters, four at
/// a time, then the bytes of a final padded group.
pub open spec fn base64_decode(s: Seq<char>) -> Seq<u8> {
    let v = b64_values(s);
    decode_groups(v, (v.len() / 4) as int) + tail_bytes(v, (v.len() / 4) as int)
}

fn b64_char_exec(v: u32) -> (c: char)
    requires
        v < 64,
    ensures
        c == b64_char(v as nat),
{
    if v < 26 {
        ((('A' as u32) + v) as u8) as char
    } else if v < 52 {
        ((('a' as u32) + v - 26) as u8) as char
    } else if v < 62 {
        ((('0' as u32) + v - 52) as u8) as char
    } else if v == 62 {
        '+'
    } else {
        '/'
    }
}

fn b64_value_exec(c: char) -> (r: Option<u32>)
    ensures
        match b64_value(c) {
            Some(v) => r == Some(v as u32),
            None => r is None,
        },
{
    if 'A' <= c && c <= 'Z' {
        Some((c as u32) - ('A' as u32))
    } else if 'a' <= c && c <= 'z' {
        Some((c as u32) - ('a' as u32) + 26)
    } else if '0' <= c && c <= '9' {
        Some((c as u32) - ('0' as u32) + 52)
    } else if c == '+' {
        Some(62)
    } else if c == '/' {
        Some(63)
    } else {
        None
    }
}

fn push_group(out: &mut Vec<char>, data: &[u8], i: usize)
    requires
        i < data@.len(),
        i % 3 == 0,
    ensures
        final(out)@ == old(out)@ + encode_group(group(data@, (i / 3) as int)),
{
    let n = data.len();
    let b0 = data[i] as u32;
    let b1: u32 = if i + 1 < n {
        data[i + 1] as u32
    } else {
        0
    };
    let b2: u32 = if i + 2 < n {
        data[i + 2] as u32
    } else {
        0
    };
    let triple = b0 * 65536 + b1 * 256 + b2;
    out.push(b64_char_exec((triple / 262144) % 64));
    out.push(b64_char_exec((triple / 4096) % 64));
    if i + 1 < n {
        out.push(b64_char_exec((triple / 64) % 64));
    } else {
        out.push('=');
    }
    if i + 2 < n {
        out.push(b64_char_exec(triple % 64));
    } else {
        out.push('=');
    }
    proof {
        let g = group(data@, (i / 3) as int);
        assert(3 * (i / 3) == i);
        assert(g.len() >= 1);
        assert(g[0] == data@[i as int]);
        assert(g.len() > 1 ==> g[1] == data@[i + 1]);
        assert(g.len() > 2 ==> g[2] == data@[i + 2]);
        assert(g.len() > 1 <==> i + 1 < n);
        assert(g.len() > 2 <==> i + 2 < n);
        assert(final(out)@ =~= old(out)@ + encode_group(g));
    }
}

/// Base64 text of `data`: standard alphabet, '=' padding.
pub fn base64_encode_exec(data: &[u8]) -> (r: Vec<char>)
    ensures
        r@ == base64_encode(data@),
{
    let n = data.len();
    let mut out: Vec<char> = Vec::new();
    let mut i: usize = 0;
    let mut k: usize = 0;
    while i < n
        invariant
            i == 3 * k,
            n == data@.len(),
            i < n || k == (n + 2) / 3,
            k <= (n + 2) / 3,
            out@ == encode_groups(data@, k as int),
        decreases n + 3 - i,
    {
        push_group(&mut out, data, i);
        assert(i / 3 == k);
        i = i + 3;
        k = k + 1;
    }
    out
}

fn push_bytes(out: &mut Vec<u8>, v: &Vec<u32>, i: usize)
    requires
        i + 4 <= v@.len(),
        i % 4 == 0,
        forall|j: int| 0 <= j < v@.len() ==> v@[j] < 64,
    ensures
        final(out)@ == old(out)@ + group_bytes(v@, (i / 4) as int),
{
    let t: u32 = v[i] * 262144 + v[i + 1] * 4096 + v[i + 2] * 64 + v[i + 3];
    out.push((t / 65536) as u8);
    out.push(((t / 256) % 256) as u8);
    out.push((t % 256) as u8);
    proof {
        assert(4 * (i / 4) == i);
        assert(final(out)@ =~= old(out)@ + group_bytes(v@, (i / 4) as int));
    }
}

/// The bytes named by Base64 text: characters outside the alphabet (padding
/// included) are skipped, and a final group of two or three characters gives one or
/// two bytes.
pub fn base64_decode_exec(s: &[char]) -> (r: Vec<u8>)
    ensures
        r@ == base64_decode(s@),
{
    let n = s.len();
    let mut vals: Vec<u32> = Vec::new();
    let mut i: usize = 0;
    while i < n
        invariant
            i <= n,
            n == s@.len(),
            vals@ == b64_values(s@.take(i as int)),
            forall|j: int| 0 <= j < vals@.len() ==> vals@[j] < 64,
        decreases n - i,
    {
        let ghost before = vals@;
        if let Some(v) = b64_value_exec(s[i]) {
            vals.push(v);
        }
        proof {
            assert(s@.take(i + 1).drop_last() =~= s@.take(i as int));
            assert(s@.take(i + 1).last() == s@[i as int]);
        }
        i += 1;
    }
    assert(s@.take(n as int) =~= s@);
    let m = vals.len();
    let mut out: Vec<u8> = Vec::new();
    let mut j: usize = 0;
    let mut k: usize = 0;
    while m - j >= 4
        invariant
            j <= m,
            j == 4 * k,
            m == vals@.len(),
            k <= m / 4,
            m - j < 4 ==> k == m / 4,
            out@ == decode_groups(vals@, k as int),
            forall|q: int| 0 <= q < vals@.len() ==> vals@[q] < 64,
        decreases m - j,
    {
        push_bytes(&mut out, &vals, j);
        assert(j / 4 == k);
        j = j + 4;
        k = k + 1;
    }
    assert(k == m / 4);
    if m - j == 2 {
        let t: u32 = vals[j] * 262144 + vals[j + 1] * 4096;
        out.push((t / 65536) as u8);
    } else if m - j == 3 {
        let t: u32 = vals[j] * 262144 + vals[j + 1] * 4096 + vals[j + 2] * 64;
        out.push((t / 65536) as u8);
        out.push(((t / 256) % 256) as u8);
    }
    proof {
        assert(out@ =~= decode_groups(vals@, k as int) + tail_bytes(vals@, k as int));
    }
    out
}

proof fn lemma_values_concat(a: Seq<char>, b: Seq<char>)
    ensures
        b64_values(a + b) == b64_values(a) + b64_values(b),
    decreases b.len(),
{
    if b.len() == 0 {
        assert(a + b =~= a);
        assert(b64_values(a) + b64_values(b) =~= b64_values(a));
    } else {
        lemma_values_concat(a, b.drop_last());
        assert((a + b).drop_last() =~= a + b.drop_last());
        assert((a + b).last() == b.last());
        match b64_value(b.last()) {
            Some(v) => {
                assert(b64_values(a) + b64_values(b) =~= (b64_values(a) + b64_values(b.drop_last())).push(v as u32));
            },
            None => {},
        }
    }
}

proof fn lemma_char_value(v: nat)
    requires
        v < 64,
    ensures
        b64_value(b64_char(v)) == Some(v),
{
}

proof fn lemma_split_join(b0: int, b1: int, b2: int)
    requires
        0 <= b0 < 256,
        0 <= b1 < 256,
        0 <= b2 < 256,
    ensures
        ({
            let t = b0 * 65536 + b1 * 256 + b2;
            &&& ((t / 262144) % 64) * 262144 + ((t / 4096) % 64) * 4096 + ((t / 64) % 64) * 64 + t % 64 == t
            &&& t / 65536 == b0
            &&& (t / 256) % 256 == b1
            &&& t % 256 == b2
            &&& 0 <= t < 0x100_0000
        }),
{
    let t = b0 * 65536 + b1 * 256 + b2;
    assert(0 <= t < 0x100_0000);
    assert(((t / 262144) % 64) * 262144 + ((t / 4096) % 64) * 4096 + ((t / 64) % 64) * 64 + t % 64 == t) by (nonlinear_arith)
        requires
            0 <= t < 0x100_0000,
    ;
    assert(t / 65536 == b0 && (t / 256) % 256 == b1 && t % 256 == b2) by (nonlinear_arith)
        requires
            0 <= b0 < 256,
            0 <= b1 < 256,
            0 <= b2 < 256,
            t == b0 * 65536 + b1 * 256 + b2,
    ;
}

proof fn lemma_group_values(g: Seq<u8>)
    requires
        g.len() == 3,
    ensures
        ({
            let t = g[0] as int * 65536 + g[1] as int * 256 + g[2] as int;
            b64_values(encode_group(g)) == seq![
                ((t / 262144) % 64) as u32,
                ((t / 4096) % 64) as u32,
                ((t / 64) % 64) as u32,
                (t % 64) as u32,
            ]
        }),
{
    let t = g[0] as int * 65536 + g[1] as int * 256 + g[2] as int;
    let v0 = (t / 262144) % 64;
    let v1 = (t / 4096) % 64;
    let v2 = (t / 64) % 64;
    let v3 = t % 64;
    lemma_char_value(v0 as nat);
    lemma_char_value(v1 as nat);
    lemma_char_value(v2 as nat);
    lemma_char_value(v3 as nat);
    let e = encode_group(g);
    let e3 = e.drop_last();
    let e2 = e3.drop_last();
    let e1 = e2.drop_last();
    let e0 = e1.drop_last();
    assert(e0 =~= Seq::<char>::empty());
    assert(e1 =~= seq![b64_char(v0 as nat)]);
    assert(e1.drop_last() =~= e0);
    assert(b64_values(e0) =~= Seq::<u32>::empty());
    assert(e1.last() == b64_char(v0 as nat));
    assert(b64_values(e1) =~= seq![v0 as u32]);
    assert(e2 =~= seq![b64_char(v0 as nat), b64_char(v1 as nat)]);
    assert(b64_values(e2) =~= seq![v0 as u32, v1 as u32]);
    assert(e3.last() == b64_char(v2 as nat));
    assert(b64_values(e3) =~= seq![v0 as u32, v1 as u32, v2 as u32]);
    assert(e.last() == b64_char(v3 as nat));
    assert(b64_values(e) =~= seq![v0 as u32, v1 as u32, v2 as u32, v3 as u32]);
}

/// The bytes a full group's four characters decode to are the group itself.
proof fn lemma_group_round_trip(g: Seq<u8>)
    requires
        g.len() == 3,
    ensures
        b64_values(encode_group(g)).len() == 4,
        group_bytes(b64_values(encode_group(g)), 0) == g,
{
    lemma_group_values(g);
    lemma_split_join(g[0] as int, g[1] as int, g[2] as int);
    let v = b64_values(encode_group(g));
    assert(group_bytes(v, 0) =~= g);
}

proof fn lemma_groups_round_trip(d: Seq<u8>, k: int)
    requires
        d.len() % 3 == 0,
        0 <= k <= d.len() / 3,
    ensures
        b64_values(encode_groups(d, k)).len() == 4 * k,
        decode_groups(b64_values(encode_groups(d, k)), k) == d.take(3 * k),
    decreases k,
{
    if k == 0 {
        assert(d.take(0) =~= Seq::<u8>::empty());
    } else {
        lemma_groups_round_trip(d, k - 1);
        let g = group(d, k - 1);
        assert(g.len() == 3);
        lemma_group_round_trip(g);
        let a = encode_groups(d, k - 1);
        lemma_values_concat(a, encode_group(g));
        let va = b64_values(a);
        let vb = b64_values(encode_group(g));
        let v = va + vb;
        assert(v == b64_values(encode_groups(d, k)));
        lemma_decode_prefix(va, vb, k - 1);
        assert(group_bytes(v, k - 1) =~= group_bytes(vb, 0));
        assert(d.take(3 * k) =~= d.take(3 * (k - 1)) + g);
    }
}

proof fn lemma_decode_prefix(a: Seq<u32>, b: Seq<u32>, k: int)
    requires
        0 <= k,
        a.len() == 4 * k,
    ensures
        decode_groups(a + b, k) == decode_groups(a, k),
    decreases k,
{
    if k > 0 {
        let a2 = a.take(4 * (k - 1));
        lemma_decode_prefix_any(a, b, k);
    }
}

proof fn lemma_decode_prefix_any(a: Seq<u32>, b: Seq<u32>, k: int)
    requires
        0 <= k,
        4 * k <= a.len(),
    ensures
        decode_groups(a + b, k) == decode_groups(a, k),
    decreases k,
{
    if k > 0 {
        lemma_decode_prefix_any(a, b, k - 1);
        assert(group_bytes(a + b, k - 1) =~= group_bytes(a, k - 1));
    }
}

/// The values of a final group of one or two bytes are those of its characters
/// before the padding, and they give the group back.
proof fn lemma_partial_group_round_trip(g: Seq<u8>)
    requires
        1 <= g.len() <= 2,
    ensures
        b64_values(encode_group(g)).len() == g.len() + 1,
        tail_bytes(b64_values(encode_group(g)), 0) == g,
{
    let b0 = g[0] as int;
    let b1: int = if g.len() > 1 {
        g[1] as int
    } else {
        0
    };
    lemma_split_join(b0, b1, 0);
    let t = b0 * 65536 + b1 * 256;
    assert(t % 64 == 0 && (g.len() == 1 ==> (t / 64) % 64 == 0)) by (nonlinear_arith)
        requires
            0 <= b0 < 256,
            0 <= b1 < 256,
            t == b0 * 65536 + b1 * 256,
            g.len() == 1 ==> b1 == 0,
    ;
    let v0 = (t / 262144) % 64;
    let v1 = (t / 4096) % 64;
    let v2 = (t / 64) % 64;
    lemma_char_value(v0 as nat);
    lemma_char_value(v1 as nat);
    lemma_char_value(v2 as nat);
    let e = encode_group(g);
    let e3 = e.drop_last();
    let e2 = e3.drop_last();
    let e1 = e2.drop_last();
    let e0 = e1.drop_last();
    assert(e0 =~= Seq::<char>::empty());
    assert(b64_values(e0) =~= Seq::<u32>::empty());
    assert(e1.last() == b64_char(v0 as nat));
    assert(b64_values(e1) =~= seq![v0 as u32]);
    assert(e2.last() == b64_char(v1 as nat));
    assert(b64_values(e2) =~= seq![v0 as u32, v1 as u32]);
    assert(b64_value('=') is None);
    let v = b64_values(e);
    if g.len() == 1 {
        assert(e3.last() == '=');
        assert(b64_values(e3) =~= seq![v0 as u32, v1 as u32]);
        assert(v =~= seq![v0 as u32, v1 as u32]);
        assert(v0 * 262144 + v1 * 4096 == t);
        assert(tail_bytes(v, 0) =~= g);
    } else {
        assert(e3.last() == b64_char(v2 as nat));
        assert(b64_values(e3) =~= seq![v0 as u32, v1 as u32, v2 as u32]);
        assert(v =~= seq![v0 as u32, v1 as u32, v2 as u32]);
        assert(v0 * 262144 + v1 * 4096 + v2 * 64 == t);
        assert(tail_bytes(v, 0) =~= g);
    }
}

/// Decoding the Base64 text of any data gives the data back.
pub proof fn law_base64_round_trip(d: Seq<u8>)
    ensures
        base64_decode(base64_encode(d)) == d,
{
    let k = d.len() / 3;
    let full = d.take(3 * k as int);
    assert(full.len() % 3 == 0);
    lemma_groups_round_trip(full, k as int);
    assert(full.take(3 * k as int) =~= full);
    lemma_encode_groups_prefix(d, full, k as int);
    let a = encode_groups(d, k as int);
    let va = b64_values(a);
    assert(va.len() == 4 * k);
    if d.len() % 3 == 0 {
        assert((d.len() + 2) / 3 == k);
        assert(full =~= d);
        assert(va.len() / 4 == k);
        assert(tail_bytes(va, k as int) =~= Seq::<u8>::empty());
        assert(base64_decode(base64_encode(d)) =~= d);
    } else {
        assert((d.len() + 2) / 3 == k + 1);
        let g = group(d, k as int);
        assert(g =~= d.subrange(3 * k as int, d.len() as int));
        lemma_partial_group_round_trip(g);
        let vb = b64_values(encode_group(g));
        lemma_values_concat(a, encode_group(g));
        let v = va + vb;
        assert(base64_encode(d) == a + encode_group(g));
        assert(v.len() / 4 == k);
        lemma_decode_prefix(va, vb, k as int);
        assert(tail_bytes(v, k as int) =~= tail_bytes(vb, 0));
        assert(d =~= full + g);
    }
}

/// The first `k` groups of data are those of any prefix of at least `3k` bytes.
proof fn lemma_encode_groups_prefix(d: Seq<u8>, p: Seq<u8>, k: int)
    requires
        0 <= k,
        3 * k <= p.len() <= d.len(),
        p == d.take(p.len() as int),
    ensures
        encode_groups(d, k) == encode_groups(p, k),
    decreases k,
{
    if k > 0 {
        lemma_encode_groups_prefix(d, p, k - 1);
        assert(group(d, k - 1) =~= group(p, k - 1));
    }
}

} // verus!
