//! Exact non-negative decimal numbers written as `digits[.digits]`.
//!
//! A decimal is modelled by its integer and fraction digit strings; its value
//! is `digits_val(int ++ frac) / 10^|frac|`. There is no floating point and no
//! precision limit: comparisons are exact on numbers of any length.

use vstd::prelude::*;
use crate::text::{
    all_digit_chars, all_digits, chars_of, digit_val, digits_val, is_digit, nat_text, push_chars,
    slice_of, split_chars, split_on, string_from_chars, u64_text, views, lemma_nat_text_digits,
    lemma_split_none, lemma_split_one,
};

verus! {

// ── Value model ─────────────────────────────────────────────────────────────

pub open spec fn pow10(n: nat) -> nat
    decreases n,
{
    if n == 0 {
        1
    } else {
        10 * pow10((n - 1) as nat)
    }
}

/// Accepted grammar: one or more digits, optionally followed by `.` and one or
/// more digits. No sign, exponent, whitespace, separator or `%`.
pub open spec fn is_decimal(s: Seq<char>) -> bool {
    let parts = split_on(s, '.');
    &&& parts.len() == 1 || parts.len() == 2
    &&& parts[0].len() > 0 && all_digits(parts[0])
    &&& parts.len() == 2 ==> parts[1].len() > 0 && all_digits(parts[1])
}

/// `(integer digits, fraction digits)` of a decimal text.
pub open spec fn dec_parts(s: Seq<char>) -> (Seq<char>, Seq<char>) {
    let parts = split_on(s, '.');
    (parts[0], if parts.len() == 2 {
        parts[1]
    } else {
        Seq::empty()
    })
}

/// The digit pair is well formed: a non-empty integer part, digits only.
pub open spec fn dv_valid(d: (Seq<char>, Seq<char>)) -> bool {
    d.0.len() > 0 && all_digits(d.0) && all_digits(d.1)
}

/// The value times `10^scale`.
pub open spec fn dv_num(d: (Seq<char>, Seq<char>)) -> nat {
    digits_val(d.0 + d.1)
}

pub open spec fn dv_scale(d: (Seq<char>, Seq<char>)) -> nat {
    d.1.len()
}

/// The value times `10^k`, for `k >= scale`.
pub open spec fn dv_scaled(d: (Seq<char>, Seq<char>), k: nat) -> nat {
    dv_num(d) * pow10((k - dv_scale(d)) as nat)
}

pub open spec fn common_scale(a: (Seq<char>, Seq<char>), b: (Seq<char>, Seq<char>)) -> nat {
    if dv_scale(a) >= dv_scale(b) {
        dv_scale(a)
    } else {
        dv_scale(b)
    }
}

/// `a < b` as exact rationals (compared over the common denominator).
pub open spec fn dv_lt(a: (Seq<char>, Seq<char>), b: (Seq<char>, Seq<char>)) -> bool {
    dv_scaled(a, common_scale(a, b)) < dv_scaled(b, common_scale(a, b))
}

/// `a == b` as exact rationals.
pub open spec fn dv_eq(a: (Seq<char>, Seq<char>), b: (Seq<char>, Seq<char>)) -> bool {
    dv_scaled(a, common_scale(a, b)) == dv_scaled(b, common_scale(a, b))
}

pub open spec fn dv_le(a: (Seq<char>, Seq<char>), b: (Seq<char>, Seq<char>)) -> bool {
    dv_lt(a, b) || dv_eq(a, b)
}

/// `s` without redundant leading zeros (at least one digit stays).
pub open spec fn strip_lead(s: Seq<char>) -> Seq<char>
    decreases s.len(),
{
    if s.len() > 1 && s[0] == '0' {
        strip_lead(s.drop_first())
    } else {
        s
    }
}

/// `s` without trailing zeros.
pub open spec fn strip_trail(s: Seq<char>) -> Seq<char>
    decreases s.len(),
{
    if s.len() > 0 && s.last() == '0' {
        strip_trail(s.drop_last())
    } else {
        s
    }
}

/// The canonical plain text: no leading zeros in the integer part, no
/// trailing zeros in the fraction, and no `.` when the fraction is empty.
pub open spec fn plain(d: (Seq<char>, Seq<char>)) -> Seq<char> {
    let f = strip_trail(d.1);
    strip_lead(d.0) + if f.len() == 0 {
        Seq::<char>::empty()
    } else {
        seq!['.'] + f
    }
}

/// The canonical plain text of a decimal text.
pub open spec fn plain_text(s: Seq<char>) -> Seq<char> {
    plain(dec_parts(s))
}

/// The decimal divided by 100: the last two integer digits (after padding
/// with zeros) move into the fraction.
pub open spec fn dv_div100(d: (Seq<char>, Seq<char>)) -> (Seq<char>, Seq<char>) {
    let p = seq!['0', '0'] + d.0;
    (p.take(p.len() - 2), p.skip(p.len() - 2) + d.1)
}

// ── Lemmas on digit strings ─────────────────────────────────────────────────

pub proof fn lemma_digits_val_concat(x: Seq<char>, y: Seq<char>)
    ensures
        digits_val(x + y) == digits_val(x) * pow10(y.len()) + digits_val(y),
    decreases y.len(),
{
    if y.len() == 0 {
        assert(x + y =~= x);
        assert(pow10(0) == 1);
        assert(digits_val(y) == 0);
    } else {
        let y1 = y.drop_last();
        lemma_digits_val_concat(x, y1);
        assert((x + y).drop_last() =~= x + y1);
        assert((x + y).last() == y.last());
        assert(digits_val(x + y) == digits_val(x + y1) * 10 + digit_val(y.last()));
        assert(digits_val(y) == digits_val(y1) * 10 + digit_val(y.last()));
        let a = digits_val(x);
        let p = pow10(y1.len());
        let b = digits_val(y1);
        let d = digit_val(y.last());
        assert(pow10(y.len()) == 10 * p);
        assert((a * p + b) * 10 + d == a * (10 * p) + (b * 10 + d)) by (nonlinear_arith);
    }
}

pub proof fn lemma_digits_val_bound(s: Seq<char>)
    requires
        all_digits(s),
    ensures
        digits_val(s) < pow10(s.len()),
    decreases s.len(),
{
    if s.len() > 0 {
        let s1 = s.drop_last();
        assert(all_digits(s1)) by {
            assert forall|i: int| 0 <= i < s1.len() implies is_digit(#[trigger] s1[i]) by {
                assert(s1[i] == s[i]);
            }
        }
        lemma_digits_val_bound(s1);
        assert(is_digit(s[s.len() - 1]));
        let v = digits_val(s1);
        let p = pow10(s1.len());
        let d = digit_val(s.last());
        assert(v * 10 + d < 10 * p) by (nonlinear_arith)
            requires
                v < p,
                d <= 9,
        ;
    }
}

pub open spec fn zeros(k: nat) -> Seq<char> {
    Seq::new(k, |i: int| '0')
}

pub proof fn lemma_zeros_val(k: nat)
    ensures
        digits_val(zeros(k)) == 0,
        all_digits(zeros(k)),
    decreases k,
{
    if k > 0 {
        assert(zeros(k).drop_last() =~= zeros((k - 1) as nat));
        lemma_zeros_val((k - 1) as nat);
    }
}

pub proof fn lemma_all_digits_concat(x: Seq<char>, y: Seq<char>)
    requires
        all_digits(x),
        all_digits(y),
    ensures
        all_digits(x + y),
{
    assert forall|i: int| 0 <= i < (x + y).len() implies is_digit(#[trigger] (x + y)[i]) by {
        if i < x.len() {
            assert((x + y)[i] == x[i]);
        } else {
            assert((x + y)[i] == y[i - x.len()]);
        }
    }
}

/// Equal-length digit strings compare like their first differing digit.
pub proof fn lemma_lex_lt(a: Seq<char>, b: Seq<char>, i: int)
    requires
        all_digits(a),
        all_digits(b),
        a.len() == b.len(),
        0 <= i < a.len(),
        a.take(i) == b.take(i),
        digit_val(a[i]) < digit_val(b[i]),
    ensures
        digits_val(a) < digits_val(b),
{
    let n = a.len();
    let ra = a.skip(i + 1);
    let rb = b.skip(i + 1);
    assert(a =~= a.take(i) + (seq![a[i]] + ra));
    assert(b =~= b.take(i) + (seq![b[i]] + rb));
    lemma_digits_val_concat(a.take(i), seq![a[i]] + ra);
    lemma_digits_val_concat(b.take(i), seq![b[i]] + rb);
    lemma_digits_val_concat(seq![a[i]], ra);
    lemma_digits_val_concat(seq![b[i]], rb);
    assert(seq![a[i]].drop_last() =~= Seq::<char>::empty());
    assert(seq![b[i]].drop_last() =~= Seq::<char>::empty());
    assert(digits_val(Seq::<char>::empty()) == 0);
    assert(digits_val(seq![a[i]]) == digit_val(a[i]));
    assert(digits_val(seq![b[i]]) == digit_val(b[i]));
    assert(all_digits(ra)) by {
        assert forall|j: int| 0 <= j < ra.len() implies is_digit(#[trigger] ra[j]) by {
            assert(ra[j] == a[i + 1 + j]);
        }
    }
    lemma_digits_val_bound(ra);
    let p = pow10(ra.len());
    let va = digit_val(a[i]);
    let vb = digit_val(b[i]);
    let xa = digits_val(ra);
    let xb = digits_val(rb);
    assert(va * p + xa < vb * p + xb) by (nonlinear_arith)
        requires
            va < vb,
            xa < p,
            xb >= 0,
    ;
    let q = pow10((seq![a[i]] + ra).len());
    let pre = digits_val(a.take(i));
    assert(pre * q + (va * p + xa) < pre * q + (vb * p + xb));
}

/// `zeros(w) ++ i ++ f ++ zeros(k)` has value `digits_val(i ++ f) * 10^k`.
pub proof fn lemma_padded_val(w: nat, i: Seq<char>, f: Seq<char>, k: nat)
    ensures
        digits_val(zeros(w) + (i + f) + zeros(k)) == digits_val(i + f) * pow10(k),
{
    lemma_digits_val_concat(zeros(w), i + f);
    lemma_zeros_val(w);
    lemma_digits_val_concat(zeros(w) + (i + f), zeros(k));
    lemma_zeros_val(k);
}

// ── Laws of the value model ─────────────────────────────────────────────────

pub proof fn lemma_pow10_pos(n: nat)
    ensures
        pow10(n) >= 1,
    decreases n,
{
    if n > 0 {
        lemma_pow10_pos((n - 1) as nat);
    }
}

pub proof fn lemma_pow10_add(a: nat, b: nat)
    ensures
        pow10(a + b) == pow10(a) * pow10(b),
    decreases a,
{
    if a > 0 {
        let a1 = (a - 1) as nat;
        lemma_pow10_add(a1, b);
        let p = pow10(a1);
        let q = pow10(b);
        assert(a + b == (a1 + b) + 1);
        assert(pow10(a + b) == 10 * pow10(a1 + b));
        assert(pow10(a) == 10 * p);
        assert(10 * (p * q) == (10 * p) * q) by (nonlinear_arith);
    } else {
        assert(pow10(0) == 1);
        assert(a + b == b);
    }
}

/// Scaling to a finer common denominator multiplies by a power of ten.
proof fn lemma_rescale(d: (Seq<char>, Seq<char>), k: nat, big: nat)
    requires
        dv_scale(d) <= k <= big,
    ensures
        dv_scaled(d, big) == dv_scaled(d, k) * pow10((big - k) as nat),
{
    let s = dv_scale(d);
    lemma_pow10_add((k - s) as nat, (big - k) as nat);
    assert((big - s) as nat == ((k - s) as nat + (big - k) as nat) as nat);
    let n = dv_num(d);
    let p1 = pow10((k - s) as nat);
    let p2 = pow10((big - k) as nat);
    assert(n * (p1 * p2) == (n * p1) * p2) by (nonlinear_arith);
}

/// Two decimals compare alike over any common denominator.
proof fn lemma_compare_at(a: (Seq<char>, Seq<char>), b: (Seq<char>, Seq<char>), big: nat)
    requires
        dv_scale(a) <= big,
        dv_scale(b) <= big,
    ensures
        dv_lt(a, b) <==> dv_scaled(a, big) < dv_scaled(b, big),
        dv_eq(a, b) <==> dv_scaled(a, big) == dv_scaled(b, big),
{
    let c = common_scale(a, b);
    lemma_rescale(a, c, big);
    lemma_rescale(b, c, big);
    lemma_pow10_pos((big - c) as nat);
    let x = dv_scaled(a, c);
    let y = dv_scaled(b, c);
    let p = pow10((big - c) as nat);
    assert(x < y <==> x * p < y * p) by (nonlinear_arith)
        requires
            p >= 1,
    ;
    assert(x == y <==> x * p == y * p) by (nonlinear_arith)
        requires
            p >= 1,
    ;
}

/// Exactly one of `a < b`, `a == b`, `b < a` holds, and value equality is
/// symmetric.
pub proof fn lemma_dv_trichotomy(a: (Seq<char>, Seq<char>), b: (Seq<char>, Seq<char>))
    ensures
        dv_lt(a, b) || dv_eq(a, b) || dv_lt(b, a),
        !(dv_lt(a, b) && dv_eq(a, b)),
        !(dv_lt(a, b) && dv_lt(b, a)),
        !(dv_eq(a, b) && dv_lt(b, a)),
        dv_eq(a, b) == dv_eq(b, a),
        !dv_lt(a, a),
        dv_eq(a, a),
{
    assert(common_scale(a, b) == common_scale(b, a));
}

/// `<` on decimal values is transitive.
pub proof fn lemma_dv_lt_transitive(a: (Seq<char>, Seq<char>), b: (Seq<char>, Seq<char>), c: (Seq<char>, Seq<char>))
    requires
        dv_lt(a, b),
        dv_lt(b, c),
    ensures
        dv_lt(a, c),
{
    let big = dv_scale(a) + dv_scale(b) + dv_scale(c);
    lemma_compare_at(a, b, big);
    lemma_compare_at(b, c, big);
    lemma_compare_at(a, c, big);
}

/// Value equality is transitive.
pub proof fn lemma_dv_eq_transitive(a: (Seq<char>, Seq<char>), b: (Seq<char>, Seq<char>), c: (Seq<char>, Seq<char>))
    requires
        dv_eq(a, b),
        dv_eq(b, c),
    ensures
        dv_eq(a, c),
{
    let big = dv_scale(a) + dv_scale(b) + dv_scale(c);
    lemma_compare_at(a, b, big);
    lemma_compare_at(b, c, big);
    lemma_compare_at(a, c, big);
}

/// `<` depends on the values only: equal values may replace either side.
pub proof fn lemma_dv_lt_by_value(
    a: (Seq<char>, Seq<char>),
    a2: (Seq<char>, Seq<char>),
    b: (Seq<char>, Seq<char>),
    b2: (Seq<char>, Seq<char>),
)
    requires
        dv_eq(a, a2),
        dv_eq(b, b2),
    ensures
        dv_lt(a, b) == dv_lt(a2, b2),
        dv_eq(a, b) == dv_eq(a2, b2),
{
    let big = dv_scale(a) + dv_scale(a2) + dv_scale(b) + dv_scale(b2);
    lemma_compare_at(a, a2, big);
    lemma_compare_at(b, b2, big);
    lemma_compare_at(a, b, big);
    lemma_compare_at(a2, b2, big);
}

proof fn lemma_all_digits_skip(s: Seq<char>, k: int)
    requires
        all_digits(s),
        0 <= k <= s.len(),
    ensures
        all_digits(s.skip(k)),
        all_digits(s.take(k)),
{
    assert forall|i: int| 0 <= i < s.skip(k).len() implies is_digit(#[trigger] s.skip(k)[i]) by {
        assert(s.skip(k)[i] == s[k + i]);
    }
    assert forall|i: int| 0 <= i < s.take(k).len() implies is_digit(#[trigger] s.take(k)[i]) by {
        assert(s.take(k)[i] == s[i]);
    }
}

/// Dropping leading zeros keeps a digit string's value and leaves at least
/// one digit.
pub proof fn lemma_strip_lead(s: Seq<char>)
    requires
        all_digits(s),
        s.len() > 0,
    ensures
        all_digits(strip_lead(s)),
        strip_lead(s).len() > 0,
        digits_val(strip_lead(s)) == digits_val(s),
        strip_lead(strip_lead(s)) == strip_lead(s),
    decreases s.len(),
{
    if s.len() > 1 && s[0] == '0' {
        let t = s.drop_first();
        lemma_all_digits_skip(s, 1);
        assert(s.skip(1) =~= t);
        lemma_strip_lead(t);
        assert(s =~= seq![s[0]] + t);
        lemma_digits_val_concat(seq![s[0]], t);
        assert(seq![s[0]].drop_last() =~= Seq::<char>::empty());
        assert(digits_val(Seq::<char>::empty()) == 0);
        assert(digit_val('0') == 0);
        assert(digits_val(seq![s[0]]) == 0);
        assert(0 * pow10(t.len()) == 0);
    }
}

/// A digit string is its zero-free head followed by its trailing zeros.
pub proof fn lemma_strip_trail(s: Seq<char>)
    requires
        all_digits(s),
    ensures
        all_digits(strip_trail(s)),
        strip_trail(s).len() <= s.len(),
        s == strip_trail(s) + zeros((s.len() - strip_trail(s).len()) as nat),
        strip_trail(strip_trail(s)) == strip_trail(s),
    decreases s.len(),
{
    if s.len() > 0 && s.last() == '0' {
        let t = s.drop_last();
        lemma_all_digits_skip(s, 0);
        assert(s.take(s.len() - 1) =~= t);
        lemma_all_digits_skip(s, s.len() - 1);
        lemma_strip_trail(t);
        let st = strip_trail(t);
        let m = (t.len() - st.len()) as nat;
        assert(zeros(m + 1) =~= zeros(m).push('0'));
        assert(s =~= t.push('0'));
        assert(s =~= st + zeros(m + 1));
    } else {
        assert(s =~= s + zeros(0));
    }
}

/// The canonical digit pair: no redundant leading zeros, no trailing zeros.
pub open spec fn plain_parts(d: (Seq<char>, Seq<char>)) -> (Seq<char>, Seq<char>) {
    (strip_lead(d.0), strip_trail(d.1))
}

/// Canonicalization keeps the value and is idempotent.
pub proof fn lemma_plain_parts(d: (Seq<char>, Seq<char>))
    requires
        dv_valid(d),
    ensures
        dv_valid(plain_parts(d)),
        dv_eq(plain_parts(d), d),
        plain_parts(plain_parts(d)) == plain_parts(d),
{
    let (i, f) = d;
    let sl = strip_lead(i);
    let st = strip_trail(f);
    lemma_strip_lead(i);
    lemma_strip_trail(f);
    let m = (f.len() - st.len()) as nat;
    lemma_zeros_val(m);
    lemma_digits_val_concat(i, f);
    lemma_digits_val_concat(sl, st);
    lemma_digits_val_concat(st, zeros(m));
    lemma_digits_val_concat(i, st);
    lemma_pow10_add(st.len(), m);
    assert(common_scale(plain_parts(d), d) == f.len());
    let vi = digits_val(i);
    let vst = digits_val(st);
    let ps = pow10(st.len());
    let pm = pow10(m);
    assert(f == st + zeros(m));
    assert(digits_val(f) == vst * pm);
    assert(f.len() == st.len() + m);
    assert(pow10(f.len()) == ps * pm);
    assert(pow10(0) == 1);
    assert(dv_num(d) == vi * (ps * pm) + vst * pm);
    assert(dv_scaled(d, f.len()) == dv_num(d) * pow10(0));
    assert(dv_scaled(d, f.len()) == vi * (ps * pm) + vst * pm);
    assert(dv_scaled(plain_parts(d), f.len()) == (vi * ps + vst) * pm);
    assert((vi * ps + vst) * pm == vi * (ps * pm) + vst * pm) by (nonlinear_arith);
}


proof fn lemma_digits_no_dot(s: Seq<char>)
    requires
        all_digits(s),
    ensures
        !s.contains('.'),
{
    if s.contains('.') {
        let j = choose|j: int| 0 <= j < s.len() && s[j] == '.';
        assert(is_digit(s[j]));
    }
}

/// The plain text of a decimal is a decimal whose digit pair is the canonical
/// pair.
pub proof fn lemma_plain_text_parts(s: Seq<char>)
    requires
        is_decimal(s),
    ensures
        is_decimal(plain_text(s)),
        dec_parts(plain_text(s)) == plain_parts(dec_parts(s)),
{
    let d = dec_parts(s);
    lemma_plain_parts(d);
    let sl = strip_lead(d.0);
    let st = strip_trail(d.1);
    lemma_digits_no_dot(sl);
    lemma_digits_no_dot(st);
    if st.len() == 0 {
        assert(plain_text(s) =~= sl);
        lemma_split_none(sl, '.');
        assert(st =~= Seq::<char>::empty());
    } else {
        assert(plain_text(s) =~= sl + seq!['.'] + st);
        lemma_split_one(sl, st, '.');
    }
}

/// Normalizing a decimal text keeps its value, gives a decimal again, and
/// normalizing that changes nothing.
pub proof fn lemma_plain_text(s: Seq<char>)
    requires
        is_decimal(s),
    ensures
        is_decimal(plain_text(s)),
        dv_eq(dec_parts(plain_text(s)), dec_parts(s)),
        plain_text(plain_text(s)) == plain_text(s),
{
    lemma_plain_text_parts(s);
    lemma_plain_parts(dec_parts(s));
}

// ── The executable decimal ──────────────────────────────────────────────────

/// An exact non-negative decimal.
pub struct Decimal {
    int_digits: Vec<char>,
    frac_digits: Vec<char>,
}

impl View for Decimal {
    type V = (Seq<char>, Seq<char>);

    closed spec fn view(&self) -> (Seq<char>, Seq<char>) {
        (self.int_digits@, self.frac_digits@)
    }
}

fn zero_pad(k: usize) -> (r: Vec<char>)
    ensures
        r@ == zeros(k as nat),
{
    let mut r: Vec<char> = Vec::new();
    let mut j: usize = 0;
    while j < k
        invariant
            j <= k,
            r@ == zeros(j as nat),
        decreases k - j,
    {
        r.push('0');
        j = j + 1;
        assert(r@ =~= zeros(j as nat));
    }
    r
}

/// `-1`, `0` or `1` as `a` is below, equal to or above `b` (numerically,
/// for equal-length digit strings).
fn order_digits(a: &Vec<char>, b: &Vec<char>) -> (r: i8)
    requires
        all_digits(a@),
        all_digits(b@),
        a@.len() == b@.len(),
    ensures
        r == -1 <==> digits_val(a@) < digits_val(b@),
        r == 0 <==> digits_val(a@) == digits_val(b@),
        r == 1 <==> digits_val(a@) > digits_val(b@),
{
    let n = a.len();
    let mut i: usize = 0;
    while i < n
        invariant
            i <= n == a@.len() == b@.len(),
            all_digits(a@),
            all_digits(b@),
            a@.take(i as int) == b@.take(i as int),
        decreases n - i,
    {
        assert(is_digit(a@[i as int]) && is_digit(b@[i as int]));
        let da = a[i] as u32;
        let db = b[i] as u32;
        if da != db {
            if da < db {
                proof {
                    lemma_lex_lt(a@, b@, i as int);
                }
                return -1;
            } else {
                assert(digit_val(b@[i as int]) < digit_val(a@[i as int]));
                proof {
                    lemma_lex_lt(b@, a@, i as int);
                }
                return 1;
            }
        }
        proof {
            vstd::utf8::char_u32_cast(a@[i as int], da);
            vstd::utf8::char_u32_cast(b@[i as int], db);
        }
        assert(a@.take(i + 1) =~= a@.take(i as int).push(a@[i as int]));
        assert(b@.take(i + 1) =~= b@.take(i as int).push(b@[i as int]));
        i = i + 1;
    }
    assert(a@ =~= a@.take(n as int));
    assert(b@ =~= b@.take(n as int));
    0
}

fn all_digit_vec(v: &Vec<char>) -> (r: bool)
    ensures
        r == all_digits(v@),
{
    all_digit_chars(v.as_slice())
}

impl Decimal {
    #[verifier::type_invariant]
    closed spec fn inv(self) -> bool {
        dv_valid((self.int_digits@, self.frac_digits@))
    }

    /// Parses `digits[.digits]`; anything else is `None`.
    pub fn parse(s: &str) -> (r: Option<Decimal>)
        ensures
            r is Some <==> is_decimal(s@),
            r matches Some(d) ==> d@ == dec_parts(s@),
    {
        let v = chars_of(s);
        let parts = split_chars(v.as_slice(), '.');
        assert(views(parts@).len() == parts@.len());
        if parts.len() != 1 && parts.len() != 2 {
            return None;
        }
        assert(views(parts@)[0] == parts@[0]@);
        if parts[0].len() == 0 || !all_digit_vec(&parts[0]) {
            return None;
        }
        let ip = slice_of(parts[0].as_slice(), 0, parts[0].len());
        assert(ip@ =~= parts@[0]@);
        if parts.len() == 2 {
            assert(views(parts@)[1] == parts@[1]@);
            if parts[1].len() == 0 || !all_digit_vec(&parts[1]) {
                return None;
            }
            let fp = slice_of(parts[1].as_slice(), 0, parts[1].len());
            assert(fp@ =~= parts@[1]@);
            Some(Decimal { int_digits: ip, frac_digits: fp })
        } else {
            Some(Decimal { int_digits: ip, frac_digits: Vec::new() })
        }
    }

    /// `zeros ++ int ++ frac ++ zeros` padded to `w` integer and `k`
    /// fraction digits.
    fn padded(&self, w: usize, k: usize) -> (r: Vec<char>)
        requires
            self@.0.len() <= w,
            self@.1.len() <= k,
        ensures
            r@ == zeros((w - self@.0.len()) as nat) + (self@.0 + self@.1) + zeros(
                (k - self@.1.len()) as nat,
            ),
            all_digits(r@),
            r@.len() == w + k,
    {
        proof {
            use_type_invariant(self);
        }
        let mut r = zero_pad(w - self.int_digits.len());
        push_chars(&mut r, self.int_digits.as_slice());
        push_chars(&mut r, self.frac_digits.as_slice());
        let z = zero_pad(k - self.frac_digits.len());
        push_chars(&mut r, z.as_slice());
        proof {
            let zw = zeros((w - self@.0.len()) as nat);
            let zk = zeros((k - self@.1.len()) as nat);
            assert(r@ =~= zw + (self@.0 + self@.1) + zk);
            lemma_zeros_val((w - self@.0.len()) as nat);
            lemma_zeros_val((k - self@.1.len()) as nat);
            lemma_all_digits_concat(self@.0, self@.1);
            lemma_all_digits_concat(zw, self@.0 + self@.1);
            lemma_all_digits_concat(zw + (self@.0 + self@.1), zk);
        }
        r
    }

    /// `-1`, `0` or `1` as `self` is numerically below, equal to or above
    /// `other`.
    pub fn compare(&self, other: &Decimal) -> (r: i8)
        ensures
            r == -1 <==> dv_lt(self@, other@),
            r == 0 <==> dv_eq(self@, other@),
            r == 1 <==> dv_lt(other@, self@),
    {
        let w = if self.int_digits.len() >= other.int_digits.len() {
            self.int_digits.len()
        } else {
            other.int_digits.len()
        };
        let k = if self.frac_digits.len() >= other.frac_digits.len() {
            self.frac_digits.len()
        } else {
            other.frac_digits.len()
        };
        let a = self.padded(w, k);
        let b = other.padded(w, k);
        proof {
            lemma_padded_val(
                (w - self@.0.len()) as nat,
                self@.0,
                self@.1,
                (k - self@.1.len()) as nat,
            );
            lemma_padded_val(
                (w - other@.0.len()) as nat,
                other@.0,
                other@.1,
                (k - other@.1.len()) as nat,
            );
            assert(common_scale(self@, other@) == k);
            assert(common_scale(other@, self@) == k);
        }
        order_digits(&a, &b)
    }

    pub fn lt(&self, other: &Decimal) -> (r: bool)
        ensures
            r == dv_lt(self@, other@),
    {
        self.compare(other) == -1
    }

    pub fn le(&self, other: &Decimal) -> (r: bool)
        ensures
            r == dv_le(self@, other@),
    {
        self.compare(other) != 1
    }

    pub fn same_value(&self, other: &Decimal) -> (r: bool)
        ensures
            r == dv_eq(self@, other@),
    {
        self.compare(other) == 0
    }

    /// The canonical plain text of the value.
    pub fn plain_chars(&self) -> (r: Vec<char>)
        ensures
            r@ == plain(self@),
    {
        proof {
            use_type_invariant(self);
        }
        let ip = self.int_digits.as_slice();
        let n = ip.len();
        let mut i: usize = 0;
        assert(self@.0.skip(0) =~= self@.0);
        while i + 1 < n && ip[i] == '0'
            invariant
                i < n == ip@.len(),
                ip@ == self@.0,
                strip_lead(self@.0) == strip_lead(self@.0.skip(i as int)),
            decreases ip@.len() - i,
        {
            proof {
                assert(self@.0.skip(i as int).drop_first() =~= self@.0.skip(i + 1));
            }
            i = i + 1;
        }
        let mut r = slice_of(ip, i, n);
        assert(r@ =~= self@.0.skip(i as int));
        let fp = self.frac_digits.as_slice();
        let mut j: usize = fp.len();
        assert(self@.1.take(j as int) =~= self@.1);
        while j > 0 && fp[j - 1] == '0'
            invariant
                j <= fp@.len(),
                fp@ == self@.1,
                strip_trail(self@.1) == strip_trail(self@.1.take(j as int)),
            decreases j,
        {
            proof {
                assert(self@.1.take(j as int).drop_last() =~= self@.1.take(j - 1));
            }
            j = j - 1;
        }
        assert(strip_trail(self@.1) == self@.1.take(j as int));
        if j > 0 {
            r.push('.');
            let f = slice_of(fp, 0, j);
            push_chars(&mut r, f.as_slice());
            assert(f@ =~= self@.1.take(j as int));
        }
        r
    }

    /// The canonical plain text of the value.
    pub fn to_plain_string(&self) -> (r: String)
        ensures
            r@ == plain(self@),
    {
        let v = self.plain_chars();
        string_from_chars(v.as_slice())
    }

    /// The value divided by 100 (a percent as a ratio).
    pub fn pct_to_ratio(&self) -> (r: Decimal)
        ensures
            r@ == dv_div100(self@),
            dv_num(r@) == dv_num(self@),
            dv_scale(r@) == dv_scale(self@) + 2,
    {
        proof {
            use_type_invariant(self);
        }
        let mut p: Vec<char> = Vec::new();
        p.push('0');
        p.push('0');
        push_chars(&mut p, self.int_digits.as_slice());
        let n = p.len();
        let ip = slice_of(p.as_slice(), 0, n - 2);
        let mut fp = slice_of(p.as_slice(), n - 2, n);
        push_chars(&mut fp, self.frac_digits.as_slice());
        proof {
            let pp = seq!['0', '0'] + self@.0;
            assert(p@ =~= pp);
            assert(ip@ =~= pp.take(pp.len() - 2));
            assert(fp@ =~= pp.skip(pp.len() - 2) + self@.1);
            assert(ip@ + fp@ =~= zeros(2) + (self@.0 + self@.1));
            lemma_digits_val_concat(zeros(2), self@.0 + self@.1);
            lemma_zeros_val(2);
            lemma_all_digits_concat(zeros(2), self@.0);
            assert(all_digits(ip@)) by {
                assert forall|i: int| 0 <= i < ip@.len() implies is_digit(#[trigger] ip@[i]) by {
                    assert(ip@[i] == p@[i]);
                    assert(p@ == zeros(2) + self@.0);
                }
            }
            assert(all_digits(fp@)) by {
                assert forall|i: int| 0 <= i < fp@.len() implies is_digit(#[trigger] fp@[i]) by {
                    if i < 2 {
                        assert(fp@[i] == p@[n - 2 + i]);
                        assert(p@ == zeros(2) + self@.0);
                    } else {
                        assert(fp@[i] == self@.1[i - 2]);
                    }
                }
            }
        }
        Decimal { int_digits: ip, frac_digits: fp }
    }

    /// The decimal with the given integer and fraction digits.
    pub fn from_digits(int_digits: Vec<char>, frac_digits: Vec<char>) -> (r: Decimal)
        requires
            dv_valid((int_digits@, frac_digits@)),
        ensures
            r@ == (int_digits@, frac_digits@),
    {
        Decimal { int_digits, frac_digits }
    }

    /// The value of a whole number.
    pub fn from_u32(n: u32) -> (r: Decimal)
        ensures
            r@ == (nat_text(n as nat), Seq::<char>::empty()),
    {
        let t = u64_text(n as u64);
        proof {
            lemma_nat_text_digits(n as nat);
        }
        Decimal { int_digits: t, frac_digits: Vec::new() }
    }
}

} // verus!
