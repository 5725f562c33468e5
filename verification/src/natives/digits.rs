use vstd::prelude::*;

verus! {

// Natural numbers of any size as sequences of decimal digits, least significant
// first.

/// Ten to the power `n`.
pub open spec fn pow10(n: nat) -> nat
    decreases n,
{
    if n == 0 {
        1
    } else {
        10 * pow10((n - 1) as nat)
    }
}

/// Digit `i` of `s`, 0 past its end.
pub open spec fn digit(s: Seq<u8>, i: int) -> nat {
    if 0 <= i < s.len() {
        s[i] as nat
    } else {
        0
    }
}

/// The number the first `n` digits of `s` stand for.
pub open spec fn dval_upto(s: Seq<u8>, n: nat) -> nat
    decreases n,
{
    if n == 0 {
        0
    } else {
        dval_upto(s, (n - 1) as nat) + digit(s, n - 1) * pow10((n - 1) as nat)
    }
}

/// The number the digits of `s` stand for.
pub open spec fn dval(s: Seq<u8>) -> nat {
    dval_upto(s, s.len())
}

/// Every element of `s` is a decimal digit.
pub open spec fn digits_ok(s: Seq<u8>) -> bool {
    forall|i: int| 0 <= i < s.len() ==> #[trigger] s[i] < 10
}

/// The shortest digits of `n`: none for 0.
pub open spec fn canon(n: nat) -> Seq<u8>
    decreases n,
{
    if n == 0 {
        seq![]
    } else {
        seq![(n % 10) as u8] + canon(n / 10)
    }
}

/// Digits with no zero at the most significant end.
pub open spec fn trimmed(s: Seq<u8>) -> bool {
    s.len() == 0 || s.last() != 0
}

pub proof fn lemma_pow10_pos(n: nat)
    ensures
        pow10(n) >= 1,
    decreases n,
{
    if n > 0 {
        lemma_pow10_pos((n - 1) as nat);
    }
}

/// `dval_upto` reads only the first `n` digits.
pub proof fn lemma_upto_agree(a: Seq<u8>, b: Seq<u8>, n: nat)
    requires
        forall|j: int| 0 <= j < n ==> digit(a, j) == digit(b, j),
    ensures
        dval_upto(a, n) == dval_upto(b, n),
    decreases n,
{
    if n > 0 {
        lemma_upto_agree(a, b, (n - 1) as nat);
    }
}

/// Digits past the end add nothing.
pub proof fn lemma_upto_past(s: Seq<u8>, n: nat)
    requires
        n >= s.len(),
    ensures
        dval_upto(s, n) == dval(s),
    decreases n,
{
    if n > s.len() {
        lemma_upto_past(s, (n - 1) as nat);
        assert(digit(s, n - 1) == 0);
        assert(digit(s, n - 1) * pow10((n - 1) as nat) == 0);
    }
}

/// The first `n` digits stand for less than `10^n`.
pub proof fn lemma_upto_bound(s: Seq<u8>, n: nat)
    requires
        digits_ok(s),
    ensures
        dval_upto(s, n) < pow10(n),
    decreases n,
{
    if n > 0 {
        lemma_upto_bound(s, (n - 1) as nat);
        let p = pow10((n - 1) as nat);
        assert(digit(s, n - 1) <= 9);
        assert(digit(s, n - 1) * p <= 9 * p) by (nonlinear_arith)
            requires
                digit(s, n - 1) <= 9,
        ;
    }
}

pub proof fn lemma_dval_bound(s: Seq<u8>)
    requires
        digits_ok(s),
    ensures
        dval(s) < pow10(s.len()),
{
    lemma_upto_bound(s, s.len());
}

/// Appending a digit at the most significant end.
pub proof fn lemma_dval_push(s: Seq<u8>, d: u8)
    ensures
        dval(s.push(d)) == dval(s) + d * pow10(s.len()),
{
    let t = s.push(d);
    assert forall|j: int| 0 <= j < s.len() implies digit(t, j) == digit(s, j) by {
        assert(t[j] == s[j]);
    }
    lemma_upto_agree(t, s, s.len());
    assert(digit(t, s.len() as int) == d);
}

/// The least significant digit, and the number the others stand for.
pub proof fn lemma_dval_first(s: Seq<u8>)
    requires
        s.len() > 0,
    ensures
        dval(s) == s[0] + 10 * dval(s.drop_first()),
    decreases s.len(),
{
    if s.len() == 1 {
        assert(dval_upto(s, 0) == 0);
        assert(pow10(0) == 1);
        assert(dval(s) == digit(s, 0) * pow10(0));
        assert(dval(s) == s[0]);
        assert(dval(s.drop_first()) == 0);
    } else {
        let t = s.drop_last();
        lemma_dval_first(t);
        assert(t.drop_first() =~= s.drop_first().drop_last());
        lemma_dval_push(t, s.last());
        assert(t.push(s.last()) =~= s);
        lemma_dval_push(s.drop_first().drop_last(), s.last());
        assert(s.drop_first().drop_last().push(s.last()) =~= s.drop_first());
        let q = pow10((t.len() - 1) as nat);
        assert(pow10(t.len()) == 10 * q);
        let l = s.last() as nat;
        assert(l * (10 * q) == 10 * (l * q)) by (nonlinear_arith);
        assert(t[0] == s[0]);
        let u = s.drop_first().drop_last();
        assert(dval(t) == t[0] + 10 * dval(u));
        assert(dval(s) == dval(t) + l * (10 * q));
        assert(dval(s.drop_first()) == dval(u) + l * q);
    }
}

/// Zeros at the most significant end add nothing.
pub proof fn lemma_dval_high_zeros(s: Seq<u8>, k: nat)
    requires
        k <= s.len(),
        forall|j: int| k <= j < s.len() ==> s[j] == 0,
    ensures
        dval(s) == dval(s.take(k as int)),
{
    lemma_high_zeros_upto(s, k, s.len());
    lemma_upto_agree(s, s.take(k as int), k);
}

proof fn lemma_high_zeros_upto(s: Seq<u8>, k: nat, n: nat)
    requires
        k <= n <= s.len(),
        forall|j: int| k <= j < s.len() ==> s[j] == 0,
    ensures
        dval_upto(s, n) == dval_upto(s, k),
    decreases n,
{
    if n > k {
        lemma_high_zeros_upto(s, k, (n - 1) as nat);
        assert(s[n - 1] == 0);
        assert(digit(s, n - 1) == 0);
        assert(digit(s, n - 1) * pow10((n - 1) as nat) == 0);
    }
}

/// Trimmed digits stand for a number only they stand for.
pub proof fn lemma_trimmed_canon(s: Seq<u8>)
    requires
        digits_ok(s),
        trimmed(s),
    ensures
        s == canon(dval(s)),
        s.len() == 0 <==> dval(s) == 0,
    decreases s.len(),
{
    if s.len() > 0 {
        let r = s.drop_first();
        assert(digits_ok(r));
        assert(trimmed(r));
        lemma_trimmed_canon(r);
        lemma_dval_first(s);
        let n = dval(s);
        if r.len() == 0 {
            assert(s[0] != 0);
        }
        assert(n > 0);
        vstd::arithmetic::div_mod::lemma_fundamental_div_mod_converse(n as int, 10, dval(r) as int, s[0] as int);
        assert(canon(n) =~= seq![s[0]] + r);
        assert(seq![s[0]] + r =~= s);
    }
}

/// The digits of `canon(n)`.
pub proof fn lemma_canon(n: nat)
    ensures
        digits_ok(canon(n)),
        trimmed(canon(n)),
        dval(canon(n)) == n,
    decreases n,
{
    if n > 0 {
        lemma_canon(n / 10);
        let c = canon(n);
        let r = canon(n / 10);
        assert(c.drop_first() =~= r);
        assert(c[0] == n % 10);
        lemma_dval_first(c);
        if r.len() == 0 {
            assert(n / 10 == 0);
        }
    }
}

/// The sum of two digit sequences.
pub fn add_digits(a: &Vec<u8>, b: &Vec<u8>) -> (r: Vec<u8>)
    requires
        digits_ok(a@),
        digits_ok(b@),
    ensures
        digits_ok(r@),
        dval(r@) == dval(a@) + dval(b@),
{
    let n = if a.len() > b.len() {
        a.len()
    } else {
        b.len()
    };
    let mut r: Vec<u8> = Vec::new();
    let mut carry: u8 = 0;
    let mut i: usize = 0;
    while i < n
        invariant
            i <= n,
            n >= a@.len(),
            n >= b@.len(),
            r@.len() == i,
            digits_ok(r@),
            carry <= 1,
            digits_ok(a@),
            digits_ok(b@),
            dval(r@) + carry * pow10(i as nat) == dval_upto(a@, i as nat) + dval_upto(b@, i as nat),
        decreases n - i,
    {
        let x: u8 = if i < a.len() {
            a[i]
        } else {
            0
        };
        let y: u8 = if i < b.len() {
            b[i]
        } else {
            0
        };
        assert(x as nat == digit(a@, i as int) && y as nat == digit(b@, i as int));
        let t: u8 = x + y + carry;
        let ghost old_r = r@;
        let ghost old_c = carry;
        r.push(t % 10);
        carry = t / 10;
        proof {
            lemma_dval_push(old_r, (t % 10) as u8);
            let p = pow10(i as nat);
            assert(pow10((i + 1) as nat) == 10 * p);
            assert((t % 10) * p + (t / 10) * (10 * p) == x * p + y * p + old_c * p) by (nonlinear_arith)
                requires
                    t == 10 * (t / 10) + t % 10,
                    t == x + y + old_c,
            ;
        }
        i += 1;
    }
    proof {
        lemma_upto_past(a@, n as nat);
        lemma_upto_past(b@, n as nat);
    }
    assert(dval(r@) + carry * pow10(n as nat) == dval(a@) + dval(b@));
    if carry > 0 {
        let ghost old_r = r@;
        r.push(carry);
        proof {
            lemma_dval_push(old_r, carry);
        }
    }
    r
}

/// The difference of two digit sequences, as many digits as the longer has, and
/// whether it borrowed past the top (then `a` is the smaller).
pub fn sub_digits(a: &Vec<u8>, b: &Vec<u8>) -> (r: (Vec<u8>, bool))
    requires
        digits_ok(a@),
        digits_ok(b@),
    ensures
        digits_ok(r.0@),
        r.1 <==> dval(a@) < dval(b@),
        !r.1 ==> dval(r.0@) == dval(a@) - dval(b@),
{
    let n = if a.len() > b.len() {
        a.len()
    } else {
        b.len()
    };
    let mut r: Vec<u8> = Vec::new();
    let mut borrow: u8 = 0;
    let mut i: usize = 0;
    while i < n
        invariant
            i <= n,
            n >= a@.len(),
            n >= b@.len(),
            r@.len() == i,
            digits_ok(r@),
            borrow <= 1,
            digits_ok(a@),
            digits_ok(b@),
            dval(r@) - borrow * pow10(i as nat) == dval_upto(a@, i as nat) - dval_upto(b@, i as nat),
        decreases n - i,
    {
        let x: u8 = if i < a.len() {
            a[i]
        } else {
            0
        };
        let y: u8 = if i < b.len() {
            b[i]
        } else {
            0
        };
        assert(x as nat == digit(a@, i as int) && y as nat == digit(b@, i as int));
        let ghost old_r = r@;
        let ghost old_b = borrow;
        let d: u8;
        if x >= y + borrow {
            d = x - y - borrow;
            borrow = 0;
        } else {
            d = x + 10 - y - borrow;
            borrow = 1;
        }
        assert(d as int == x as int - y as int - old_b as int + 10 * (borrow as int));
        r.push(d);
        proof {
            lemma_dval_push(old_r, d);
            let p = pow10(i as nat);
            assert(pow10((i + 1) as nat) == 10 * p);
            assert(d * p - borrow * (10 * p) == x * p - y * p - old_b * p) by (nonlinear_arith)
                requires
                    d as int == x as int - y as int - old_b as int + 10 * (borrow as int),
            ;
        }
        i += 1;
    }
    proof {
        lemma_upto_past(a@, n as nat);
        lemma_upto_past(b@, n as nat);
        lemma_dval_bound(r@);
    }
    (r, borrow == 1)
}

/// The same number without zeros at the most significant end.
pub fn trim_digits(s: &Vec<u8>) -> (t: Vec<u8>)
    requires
        digits_ok(s@),
    ensures
        digits_ok(t@),
        trimmed(t@),
        dval(t@) == dval(s@),
        t@ == canon(dval(s@)),
{
    let mut k = s.len();
    while k > 0 && s[k - 1] == 0
        invariant
            k <= s@.len(),
            forall|j: int| k <= j < s@.len() ==> s@[j] == 0,
        decreases k,
    {
        k -= 1;
    }
    let mut t: Vec<u8> = Vec::new();
    let mut i: usize = 0;
    while i < k
        invariant
            i <= k <= s@.len(),
            t@ == s@.take(i as int),
        decreases k - i,
    {
        t.push(s[i]);
        i += 1;
        assert(t@ =~= s@.take(i as int));
    }
    proof {
        lemma_dval_high_zeros(s@, k as nat);
        assert(digits_ok(t@));
        lemma_trimmed_canon(t@);
    }
    t
}

/// `k` zeros followed by `s`: the number times `10^k`.
pub proof fn lemma_dval_shift(s: Seq<u8>, k: nat)
    ensures
        dval(Seq::new(k, |i: int| 0u8) + s) == pow10(k) * dval(s),
    decreases k,
{
    let z = Seq::new(k, |i: int| 0u8) + s;
    if k == 0 {
        assert(z =~= s);
        assert(pow10(0) == 1);
        assert(pow10(k) * dval(s) == dval(s));
    } else {
        lemma_dval_shift(s, (k - 1) as nat);
        let z1 = Seq::new((k - 1) as nat, |i: int| 0u8) + s;
        assert(z.drop_first() =~= z1);
        lemma_dval_first(z);
        let p = pow10((k - 1) as nat);
        assert(10 * (p * dval(s)) == (10 * p) * dval(s)) by (nonlinear_arith);
    }
}

/// `d` times the number of `b`, for one digit `d`.
pub fn mul_digit(b: &Vec<u8>, d: u8) -> (r: Vec<u8>)
    requires
        digits_ok(b@),
        d < 10,
    ensures
        digits_ok(r@),
        dval(r@) == d * dval(b@),
{
    let n = b.len();
    let mut r: Vec<u8> = Vec::new();
    let mut carry: u8 = 0;
    let mut i: usize = 0;
    assert(dval(r@) == 0);
    assert(d * dval_upto(b@, 0) == 0) by (nonlinear_arith)
        requires
            dval_upto(b@, 0) == 0,
    ;
    while i < n
        invariant
            i <= n,
            n == b@.len(),
            r@.len() == i,
            digits_ok(r@),
            digits_ok(b@),
            d < 10,
            carry < 10,
            dval(r@) + carry * pow10(i as nat) == d * dval_upto(b@, i as nat),
        decreases n - i,
    {
        let y = b[i];
        assert(y as nat == digit(b@, i as int));
        assert(d * y <= 81) by (nonlinear_arith)
            requires
                d < 10,
                y < 10,
        ;
        let t: u8 = d * y + carry;
        let ghost old_r = r@;
        let ghost old_c = carry;
        r.push(t % 10);
        carry = t / 10;
        proof {
            lemma_dval_push(old_r, (t % 10) as u8);
            let p = pow10(i as nat);
            assert(pow10((i + 1) as nat) == 10 * p);
            let x = dval_upto(b@, i as nat);
            assert((t % 10) * p + (t / 10) * (10 * p) + d * x - old_c * p == d * (x + y * p)) by (nonlinear_arith)
                requires
                    t == 10 * (t / 10) + t % 10,
                    t == d * y + old_c,
            ;
        }
        i += 1;
    }
    let ghost before = r@;
    if carry > 0 {
        r.push(carry);
        proof {
            lemma_dval_push(before, carry);
        }
    }
    r
}

/// The product of two digit sequences.
pub fn mul_digits(a: &Vec<u8>, b: &Vec<u8>) -> (r: Vec<u8>)
    requires
        digits_ok(a@),
        digits_ok(b@),
    ensures
        digits_ok(r@),
        dval(r@) == dval(a@) * dval(b@),
{
    let mut acc: Vec<u8> = Vec::new();
    let mut i: usize = 0;
    assert(dval(acc@) == 0);
    assert(dval_upto(a@, 0) * dval(b@) == 0) by (nonlinear_arith)
        requires
            dval_upto(a@, 0) == 0,
    ;
    while i < a.len()
        invariant
            i <= a@.len(),
            digits_ok(a@),
            digits_ok(b@),
            digits_ok(acc@),
            dval(acc@) == dval_upto(a@, i as nat) * dval(b@),
        decreases a@.len() - i,
    {
        let row = mul_digit(b, a[i]);
        let mut shifted: Vec<u8> = Vec::new();
        let mut j: usize = 0;
        while j < i
            invariant
                j <= i,
                shifted@ == Seq::new(j as nat, |k: int| 0u8),
            decreases i - j,
        {
            shifted.push(0);
            j += 1;
            assert(shifted@ =~= Seq::new(j as nat, |k: int| 0u8));
        }
        let mut k: usize = 0;
        while k < row.len()
            invariant
                k <= row@.len(),
                shifted@ == Seq::new(i as nat, |q: int| 0u8) + row@.take(k as int),
            decreases row@.len() - k,
        {
            shifted.push(row[k]);
            k += 1;
            assert(shifted@ =~= Seq::new(i as nat, |q: int| 0u8) + row@.take(k as int));
        }
        proof {
            assert(row@.take(row@.len() as int) =~= row@);
            lemma_dval_shift(row@, i as nat);
            assert(digits_ok(shifted@));
            let p = pow10(i as nat);
            let x = dval_upto(a@, i as nat);
            let ai = a@[i as int] as nat;
            assert(digit(a@, i as int) == ai);
            assert(x * dval(b@) + p * (ai * dval(b@)) == (x + ai * p) * dval(b@)) by (nonlinear_arith);
        }
        acc = add_digits(&acc, &shifted);
        i += 1;
    }
    proof {
        lemma_upto_past(a@, a@.len());
    }
    acc
}

/// The digits `k..` of `a` with the digit below them put in front.
proof fn lemma_high_part(a: Seq<u8>, k: int)
    requires
        0 < k <= a.len(),
    ensures
        dval(a.subrange(k - 1, a.len() as int)) == a[k - 1] + 10 * dval(a.subrange(k, a.len() as int)),
{
    let s = a.subrange(k - 1, a.len() as int);
    lemma_dval_first(s);
    assert(s.drop_first() =~= a.subrange(k, a.len() as int));
}

/// Quotient and remainder of two digit sequences, the divisor not zero.
pub fn divmod_digits(a: &Vec<u8>, b: &Vec<u8>) -> (r: (Vec<u8>, Vec<u8>))
    requires
        digits_ok(a@),
        digits_ok(b@),
        dval(b@) > 0,
    ensures
        digits_ok(r.0@),
        digits_ok(r.1@),
        dval(r.0@) == dval(a@) / dval(b@),
        dval(r.1@) == dval(a@) % dval(b@),
{
    let ghost bv = dval(b@) as int;
    let mut q: Vec<u8> = Vec::new();
    let mut rem: Vec<u8> = Vec::new();
    let mut k = a.len();
    proof {
        assert(a@.subrange(k as int, a@.len() as int) =~= Seq::<u8>::empty());
        assert(dval(Seq::<u8>::empty()) == 0);
        assert(q@ =~= Seq::<u8>::empty());
        assert(rem@ =~= Seq::<u8>::empty());
    }
    while k > 0
        invariant
            k <= a@.len(),
            digits_ok(a@),
            digits_ok(b@),
            bv == dval(b@),
            bv > 0,
            digits_ok(q@),
            digits_ok(rem@),
            dval(a@.subrange(k as int, a@.len() as int)) == dval(q@) * bv + dval(rem@),
            dval(rem@) < bv,
        decreases k,
    {
        let mut r1 = rem.clone();
        r1.insert(0, a[k - 1]);
        proof {
            assert(r1@.drop_first() =~= rem@);
            lemma_dval_first(r1@);
            assert(digits_ok(r1@));
        }
        let ghost target = dval(r1@) as int;
        assert(target < 10 * bv);
        let mut qd: u8 = 0;
        loop
            invariant
                digits_ok(r1@),
                digits_ok(b@),
                bv == dval(b@),
                bv > 0,
                target < 10 * bv,
                qd < 10,
                dval(r1@) + qd * bv == target,
            ensures
                digits_ok(r1@),
                qd < 10,
                dval(r1@) + qd * bv == target,
                dval(r1@) < bv,
            decreases dval(r1@),
        {
            let (d, borrow) = sub_digits(&r1, b);
            if borrow {
                break;
            }
            proof {
                assert((qd + 1) * bv <= target) by (nonlinear_arith)
                    requires
                        dval(r1@) + qd * bv == target,
                        dval(r1@) >= bv,
                ;
                assert(qd + 1 < 10) by (nonlinear_arith)
                    requires
                        (qd + 1) * bv <= target,
                        target < 10 * bv,
                        bv > 0,
                ;
            }
            assert(dval(d@) + (qd + 1) * bv == target) by (nonlinear_arith)
                requires
                    dval(d@) == dval(r1@) - bv,
                    dval(r1@) + qd * bv == target,
            ;
            r1 = d;
            qd = qd + 1;
        }
        let ghost old_q = q@;
        q.insert(0, qd);
        proof {
            assert(q@.drop_first() =~= old_q);
            lemma_dval_first(q@);
            lemma_high_part(a@, k as int);
            let h = dval(a@.subrange(k as int, a@.len() as int));
            assert(a@[k - 1] + 10 * h == (qd + 10 * dval(old_q)) * bv + dval(r1@)) by (nonlinear_arith)
                requires
                    h == dval(old_q) * bv + dval(rem@),
                    target == a@[k - 1] + 10 * dval(rem@),
                    dval(r1@) + qd * bv == target,
            ;
        }
        rem = trim_digits(&r1);
        k -= 1;
    }
    proof {
        assert(a@.subrange(0, a@.len() as int) =~= a@);
        vstd::arithmetic::div_mod::lemma_fundamental_div_mod_converse(
            dval(a@) as int, bv, dval(q@) as int, dval(rem@) as int);
    }
    (q, rem)
}

/// The shortest digits of `m`.
pub fn digits_of_u64(m: u64) -> (r: Vec<u8>)
    ensures
        r@ == canon(m as nat),
{
    let mut r: Vec<u8> = Vec::new();
    let mut x = m;
    while x > 0
        invariant
            canon(m as nat) == r@ + canon(x as nat),
        decreases x,
    {
        let ghost old_r = r@;
        r.push((x % 10) as u8);
        assert(canon(x as nat) == seq![(x % 10) as u8] + canon((x / 10) as nat));
        x = x / 10;
        assert(old_r + (seq![(r@.last())] + canon(x as nat)) =~= r@ + canon(x as nat));
    }
    assert(canon(0) =~= Seq::<u8>::empty());
    assert(r@ + canon(0) =~= r@);
    r
}

/// The characters of digits, most significant first.
pub open spec fn digit_text(s: Seq<u8>) -> Seq<char> {
    Seq::new(s.len(), |i: int| crate::text::digit_char(s[s.len() - 1 - i] as nat))
}

/// The decimal text of trimmed, non-empty digits is their characters.
pub proof fn lemma_digit_text(s: Seq<u8>)
    requires
        digits_ok(s),
        trimmed(s),
        s.len() > 0,
    ensures
        crate::text::decimal(dval(s)) == digit_text(s),
    decreases s.len(),
{
    lemma_dval_first(s);
    let r = s.drop_first();
    let n = dval(s);
    if r.len() == 0 {
        assert(n == s[0]);
        assert(digit_text(s) =~= seq![crate::text::digit_char(s[0] as nat)]);
    } else {
        assert(digits_ok(r));
        assert(trimmed(r));
        lemma_digit_text(r);
        lemma_trimmed_canon(r);
        vstd::arithmetic::div_mod::lemma_fundamental_div_mod_converse(n as int, 10, dval(r) as int, s[0] as int);
        assert(n >= 10);
        assert(digit_text(s) =~= digit_text(r).push(crate::text::digit_char(s[0] as nat)));
    }
}

/// The decimal text of the number of `s` (`0` for none).
pub fn digits_text(s: &Vec<u8>) -> (t: Vec<char>)
    requires
        digits_ok(s@),
    ensures
        t@ == crate::text::decimal(dval(s@)),
{
    let c = trim_digits(s);
    if c.len() == 0 {
        proof {
            lemma_trimmed_canon(c@);
        }
        let mut t: Vec<char> = Vec::new();
        t.push('0');
        assert(t@ =~= crate::text::decimal(0));
        return t;
    }
    let mut t: Vec<char> = Vec::new();
    let n = c.len();
    let mut i: usize = 0;
    while i < n
        invariant
            i <= n,
            n == c@.len(),
            digits_ok(c@),
            t@ == digit_text(c@).take(i as int),
        decreases n - i,
    {
        let d = c[n - 1 - i];
        t.push(((d + 48) as char));
        proof {
            assert(crate::text::digit_char(d as nat) == ((d + 48) as char));
        }
        i += 1;
        assert(t@ =~= digit_text(c@).take(i as int));
    }
    proof {
        assert(digit_text(c@).take(n as int) =~= digit_text(c@));
        lemma_digit_text(c@);
    }
    t
}

/// The number a string of decimal digit characters reads as.
pub open spec fn text_value(t: Seq<char>) -> nat
    decreases t.len(),
{
    if t.len() == 0 {
        0
    } else {
        text_value(t.drop_last()) * 10 + ((t.last() as u32) - ('0' as u32)) as nat
    }
}

/// Every character is a decimal digit.
pub open spec fn all_digits(t: Seq<char>) -> bool {
    forall|i: int| 0 <= i < t.len() ==> '0' <= #[trigger] t[i] && t[i] <= '9'
}

/// The digits of a string of decimal digit characters.
pub fn digits_of_text(t: &[char]) -> (r: Vec<u8>)
    requires
        all_digits(t@),
    ensures
        digits_ok(r@),
        dval(r@) == text_value(t@),
{
    let mut r: Vec<u8> = Vec::new();
    let mut i: usize = 0;
    assert(t@.take(0) =~= Seq::<char>::empty());
    while i < t.len()
        invariant
            i <= t@.len(),
            all_digits(t@),
            digits_ok(r@),
            dval(r@) == text_value(t@.take(i as int)),
        decreases t@.len() - i,
    {
        let d: u8 = ((t[i] as u32) - ('0' as u32)) as u8;
        let ghost old_r = r@;
        r.insert(0, d);
        proof {
            assert(r@.drop_first() =~= old_r);
            lemma_dval_first(r@);
            assert(t@.take(i + 1).drop_last() =~= t@.take(i as int));
            assert(t@.take(i + 1).last() == t@[i as int]);
        }
        i += 1;
    }
    assert(t@.take(t@.len() as int) =~= t@);
    r
}

/// The number of `s` modulo `2^64`.
pub fn digits_low_u64(s: &Vec<u8>) -> (x: u64)
    requires
        digits_ok(s@),
    ensures
        x as int == dval(s@) as int % 0x1_0000_0000_0000_0000,
{
    let m: u128 = 0x1_0000_0000_0000_0000;
    let mut acc: u128 = 0;
    let mut k = s.len();
    proof {
        assert(s@.subrange(k as int, s@.len() as int) =~= Seq::<u8>::empty());
    }
    while k > 0
        invariant
            k <= s@.len(),
            digits_ok(s@),
            m == 0x1_0000_0000_0000_0000,
            acc < m,
            acc as int == dval(s@.subrange(k as int, s@.len() as int)) as int % (m as int),
        decreases k,
    {
        let d = s[k - 1];
        let ghost h = dval(s@.subrange(k as int, s@.len() as int)) as int;
        let ghost old_acc = acc as int;
        acc = (acc * 10 + d as u128) % m;
        proof {
            lemma_high_part(s@, k as int);
            let mi = m as int;
            vstd::arithmetic::div_mod::lemma_mul_mod_noop_left(h, 10, mi);
            vstd::arithmetic::div_mod::lemma_add_mod_noop(old_acc * 10, d as int, mi);
            vstd::arithmetic::div_mod::lemma_add_mod_noop(h * 10, d as int, mi);
            assert(old_acc * 10 == (h % mi) * 10);
            assert(h * 10 == 10 * h);
        }
        k -= 1;
    }
    proof {
        assert(s@.subrange(0, s@.len() as int) =~= s@);
    }
    acc as u64
}

} // verus!
