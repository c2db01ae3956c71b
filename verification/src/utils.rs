use vstd::prelude::*;
use vstd::string::StringExecFns;

use crate::graph::Tensor;
use crate::onnx::{find_attr, NodeProto};

verus! {

/// The character for one decimal digit.
pub open spec fn digit_char(d: nat) -> char {
    if d == 0 {
        '0'
    } else if d == 1 {
        '1'
    } else if d == 2 {
        '2'
    } else if d == 3 {
        '3'
    } else if d == 4 {
        '4'
    } else if d == 5 {
        '5'
    } else if d == 6 {
        '6'
    } else if d == 7 {
        '7'
    } else if d == 8 {
        '8'
    } else {
        '9'
    }
}

/// The decimal digits of `n`, most significant first.
pub open spec fn dec_digits(n: nat) -> Seq<char>
    decreases n,
{
    if n < 10 {
        seq![digit_char(n)]
    } else {
        dec_digits(n / 10) + seq![digit_char(n % 10)]
    }
}

/// The decimal form of a signed number: a minus sign, then the digits.
pub open spec fn dec_int(n: int) -> Seq<char> {
    if n < 0 {
        seq!['-'] + dec_digits((-n) as nat)
    } else {
        dec_digits(n as nat)
    }
}

fn digit_str(d: u64) -> (r: &'static str)
    requires
        d < 10,
    ensures
        r@ == seq![digit_char(d as nat)],
{
    proof {
        reveal_strlit("0");
        reveal_strlit("1");
        reveal_strlit("2");
        reveal_strlit("3");
        reveal_strlit("4");
        reveal_strlit("5");
        reveal_strlit("6");
        reveal_strlit("7");
        reveal_strlit("8");
        reveal_strlit("9");
    }
    if d == 0 {
        "0"
    } else if d == 1 {
        "1"
    } else if d == 2 {
        "2"
    } else if d == 3 {
        "3"
    } else if d == 4 {
        "4"
    } else if d == 5 {
        "5"
    } else if d == 6 {
        "6"
    } else if d == 7 {
        "7"
    } else if d == 8 {
        "8"
    } else {
        "9"
    }
}

/// Writes `n` in decimal.
pub fn u64_to_string(n: u64) -> (r: String)
    ensures
        r@ == dec_digits(n as nat),
    decreases n,
{
    if n < 10 {
        digit_str(n).to_owned()
    } else {
        let mut s = u64_to_string(n / 10);
        s.append(digit_str(n % 10));
        s
    }
}

/// Writes `n` in decimal, with a minus sign when negative.
pub fn i64_to_string(n: i64) -> (r: String)
    ensures
        r@ == dec_int(n as int),
{
    proof {
        reveal_strlit("-");
    }
    if n < 0 {
        let mag: u64 = ((-(n as i128)) as u64);
        let mut s = "-".to_owned();
        s.append(u64_to_string(mag).as_str());
        s
    } else {
        u64_to_string(n as u64)
    }
}

/// Writes `n` in decimal; the wide form used for scaled readings of
/// 32-bit float bit patterns.
pub fn u128_to_string(n: u128) -> (r: String)
    ensures
        r@ == dec_digits(n as nat),
    decreases n,
{
    if n < 10 {
        digit_str(n as u64).to_owned()
    } else {
        let mut s = u128_to_string(n / 10);
        s.append(digit_str((n % 10) as u64));
        s
    }
}

/// The last two decimal digits, as for a two-decimal fraction.
pub open spec fn two_digits(d: nat) -> Seq<char> {
    seq![digit_char(d / 10), digit_char(d % 10)]
}

/// `num / den` rounded to the nearest integer, ties to even.
pub open spec fn round_half_even(num: nat, den: nat) -> nat {
    let q = num / den;
    let r = num % den;
    if 2 * r > den {
        q + 1
    } else if 2 * r == den && q % 2 == 1 {
        q + 1
    } else {
        q
    }
}

/// The fixed two-decimal reading of an IEEE 754 single-precision bit
/// pattern: the exact binary value scaled by 100 and rounded to the
/// nearest integer with ties to even, written as integer digits, a point
/// and two fraction digits; the non-finite codes read "inf" and "NaN".
pub open spec fn fixed2_of_bits(bits: u32) -> Seq<char> {
    let sign = bits >> 31 == 1u32;
    let e = ((bits >> 23) & 0xff) as nat;
    let frac = (bits & 0x7fffff) as nat;
    if e == 255 {
        if frac != 0 {
            "NaN"@
        } else if sign {
            "-inf"@
        } else {
            "inf"@
        }
    } else {
        let m = if e == 0 {
            frac
        } else {
            0x800000 + frac
        };
        let q = if e >= 150 {
            m * vstd::arithmetic::power2::pow2((e - 150) as nat) * 100
        } else {
            round_half_even(m * 100, vstd::arithmetic::power2::pow2((150 - e) as nat))
        };
        let text = dec_digits(q / 100) + seq!['.'] + two_digits(q % 100);
        if sign {
            seq!['-'] + text
        } else {
            text
        }
    }
}

/// Writes an IEEE 754 single-precision bit pattern with two decimals:
/// the exact value scaled by 100 and rounded to the nearest integer,
/// ties to even.
pub fn format_f32_bits_fixed2(bits: u32) -> (r: String)
    ensures
        r@ == fixed2_of_bits(bits),
{
    broadcast use vstd::arithmetic::power2::lemma_pow2_pos;

    proof {
        reveal_strlit("-");
        reveal_strlit(".");
    }
    let sign = (bits >> 31) == 1;
    let e: u32 = (bits >> 23) & 0xff;
    let frac: u32 = bits & 0x7fffff;
    proof {
        assert((bits >> 23) & 0xff < 256 && bits & 0x7fffff < 0x800000) by (bit_vector);
    }
    if e == 255 {
        return if frac != 0 {
            "NaN".to_owned()
        } else if sign {
            "-inf".to_owned()
        } else {
            "inf".to_owned()
        };
    }
    let m: u64 = if e == 0 {
        frac as u64
    } else {
        0x800000u64 + (frac as u64)
    };
    let mut int_digits: String;
    let frac_val: u64;
    if e >= 150 {
        let shift = e - 150;
        let mut v: u128 = m as u128;
        let ghost mm = m as nat;
        proof {
            vstd::arithmetic::power2::lemma2_to64();
            assert(v as nat == mm * vstd::arithmetic::power2::pow2(0));
        }
        for t in 0..shift
            invariant
                v as nat == mm * vstd::arithmetic::power2::pow2(t as nat),
                mm < 0x1000000,
                shift <= 104,
        {
            proof {
                vstd::arithmetic::power2::lemma_pow2_adds(t as nat, 1);
                vstd::arithmetic::power2::lemma2_to64();
                vstd::arithmetic::power2::lemma_pow2_pos(t as nat);
                vstd::arithmetic::power2::lemma_pow2_pos((t + 1) as nat);
                if ((t + 1) as nat) < 104 {
                    vstd::arithmetic::power2::lemma_pow2_strictly_increases((t + 1) as nat, 104);
                }
                lemma_pow2_104_bound();
                let pt = vstd::arithmetic::power2::pow2(t as nat);
                let p1 = vstd::arithmetic::power2::pow2((t + 1) as nat);
                let p4 = vstd::arithmetic::power2::pow2(104);
                assert(p1 == pt * 2);
                assert((mm * pt) * 2 == mm * p1 && mm * p1 <= 0xffffff * p4) by (nonlinear_arith)
                    requires
                        mm <= 0xffffff,
                        0 <= pt,
                        p1 == pt * 2,
                        p1 <= p4,
                ;
            }
            v = v * 2;
        }
        proof {
            let q = mm * vstd::arithmetic::power2::pow2((e - 150) as nat) * 100;
            assert(q / 100 == mm * vstd::arithmetic::power2::pow2((e - 150) as nat) && q % 100
                == 0) by (nonlinear_arith)
                requires
                    q == mm * vstd::arithmetic::power2::pow2((e - 150) as nat) * 100,
            ;
        }
        int_digits = u128_to_string(v);
        frac_val = 0;
    } else {
        let k = 150 - e;
        let num: u64 = m * 100;
        let q: u64;
        if k >= 32 {
            proof {
                vstd::arithmetic::power2::lemma2_to64();
                if (k as nat) > 32 {
                    vstd::arithmetic::power2::lemma_pow2_strictly_increases(32, k as nat);
                }
                let den = vstd::arithmetic::power2::pow2(k as nat);
                assert((num as nat) / den == 0 && (num as nat) % den == num as nat) by (
                nonlinear_arith)
                    requires
                        den >= 0x100000000,
                        num < 0x100000000,
                ;
            }
            q = 0;
        } else {
            let mut den: u64 = 1;
            proof {
                vstd::arithmetic::power2::lemma2_to64();
            }
            for t in 0..k
                invariant
                    den as nat == vstd::arithmetic::power2::pow2(t as nat),
                    k <= 31,
            {
                proof {
                    vstd::arithmetic::power2::lemma_pow2_adds(t as nat, 1);
                    vstd::arithmetic::power2::lemma_pow2_unfold(1);
                    vstd::arithmetic::power2::lemma2_to64();
                    if ((t + 1) as nat) < 31 {
                        vstd::arithmetic::power2::lemma_pow2_strictly_increases((t + 1) as nat, 31);
                    }
                }
                den = den * 2;
            }
            proof {
                vstd::arithmetic::power2::lemma2_to64();
                if (k as nat) < 31 {
                    vstd::arithmetic::power2::lemma_pow2_strictly_increases(k as nat, 31);
                }
                assert(den <= 0x80000000);
            }
            let q0 = num / den;
            let rm = num % den;
            if 2 * rm > den {
                q = q0 + 1;
            } else if 2 * rm == den && q0 % 2 == 1 {
                q = q0 + 1;
            } else {
                q = q0;
            }
        }
        int_digits = u64_to_string(q / 100);
        frac_val = q % 100;
    }
    int_digits.append(".");
    int_digits.append(digit_str(frac_val / 10));
    int_digits.append(digit_str(frac_val % 10));
    if sign {
        let mut signed = "-".to_owned();
        signed.append(int_digits.as_str());
        signed
    } else {
        int_digits
    }
}

proof fn lemma_pow2_104_bound()
    ensures
        vstd::arithmetic::power2::pow2(104) == 0x100000000000000000000000000,
        0xffffff * vstd::arithmetic::power2::pow2(104) < 0x100000000000000000000000000000000,
{
    vstd::arithmetic::power2::lemma2_to64();
    vstd::arithmetic::power2::lemma_pow2_adds(64, 40);
    vstd::arithmetic::power2::lemma2_to64_rest();
}

/// The comma-separated two-decimal readings of float bit patterns.
pub open spec fn csv_fixed2(vals: Seq<u32>) -> Seq<char>
    decreases vals.len(),
{
    if vals.len() == 0 {
        Seq::empty()
    } else if vals.len() == 1 {
        fixed2_of_bits(vals[0])
    } else {
        csv_fixed2(vals.drop_last()) + seq![','] + fixed2_of_bits(vals.last())
    }
}

/// Writes a list of IEEE 754 single-precision bit patterns as
/// comma-separated two-decimal readings.
pub fn f32_bits_csv(vals: &Vec<u32>) -> (r: String)
    ensures
        r@ == csv_fixed2(vals@),
{
    let mut r = String::new();
    let n = vals.len();
    for i in 0..n
        invariant
            n == vals@.len(),
            r@ == csv_fixed2(vals@.take(i as int)),
    {
        proof {
            reveal_strlit(",");
            assert(vals@.take(i + 1).drop_last() =~= vals@.take(i as int));
        }
        if i > 0 {
            r.append(",");
        }
        let d = format_f32_bits_fixed2(vals[i]);
        r.append(d.as_str());
        assert(r@ =~= csv_fixed2(vals@.take(i + 1)));
    }
    assert(vals@.take(n as int) =~= vals@);
    r
}

/// The comma-separated decimal forms of the numbers, in order.
pub open spec fn csv_ints(vals: Seq<i64>) -> Seq<char>
    decreases vals.len(),
{
    if vals.len() == 0 {
        Seq::empty()
    } else if vals.len() == 1 {
        dec_int(vals[0] as int)
    } else {
        csv_ints(vals.drop_last()) + seq![','] + dec_int(vals.last() as int)
    }
}

/// A fresh copy of a vector of plain (`Copy`) values.
pub fn copy_vec<T: Copy>(v: &Vec<T>) -> (r: Vec<T>)
    ensures
        r@ == v@,
{
    let mut r: Vec<T> = Vec::new();
    let n = v.len();
    for i in 0..n
        invariant
            n == v@.len(),
            r@ == v@.take(i as int),
    {
        r.push(v[i]);
        assert(r@ =~= v@.take(i + 1));
    }
    assert(v@.take(n as int) =~= v@);
    r
}

/// A fresh copy of a vector of strings; string clones are exact, so the
/// copy's view equals the source's.
pub fn copy_strings(v: &Vec<String>) -> (r: Vec<String>)
    ensures
        r@ == v@,
{
    let mut r: Vec<String> = Vec::new();
    let n = v.len();
    for i in 0..n
        invariant
            n == v@.len(),
            r@ == v@.take(i as int),
    {
        r.push(v[i].clone());
        assert(r@ =~= v@.take(i + 1));
    }
    assert(v@.take(n as int) =~= v@);
    r
}

/// A fresh copy of a vector of string pairs.
pub fn copy_pairs(v: &Vec<(String, String)>) -> (r: Vec<(String, String)>)
    ensures
        r@ == v@,
{
    let mut r: Vec<(String, String)> = Vec::new();
    let n = v.len();
    for i in 0..n
        invariant
            n == v@.len(),
            r@ == v@.take(i as int),
    {
        let p = (v[i].0.clone(), v[i].1.clone());
        assert(p == v@[i as int]);
        r.push(p);
        assert(r@ =~= v@.take(i + 1));
    }
    assert(v@.take(n as int) =~= v@);
    r
}

/// Owned strings from borrowed names, preserving the character sequences.
pub fn owned_strings(v: &Vec<&str>) -> (r: Vec<String>)
    ensures
        r@.len() == v@.len(),
        forall|j: int| 0 <= j < v@.len() ==> r@[j]@ == v@[j]@,
{
    let mut r: Vec<String> = Vec::new();
    let n = v.len();
    for i in 0..n
        invariant
            n == v@.len(),
            r@.len() == i,
            forall|j: int| 0 <= j < i ==> r@[j]@ == v@[j]@,
    {
        r.push(v[i].to_owned());
    }
    r
}

/// The character sequences of a sequence of strings.
pub open spec fn views_of(v: Seq<String>) -> Seq<Seq<char>> {
    v.map_values(|s: String| s@)
}

/// Whether some string in `v` reads as `k`.
pub open spec fn contains_view(v: Seq<String>, k: Seq<char>) -> bool {
    views_of(v).contains(k)
}

/// Appending a string appends its character sequence.
pub proof fn lemma_views_of_push(v: Seq<String>, s: String)
    ensures
        views_of(v.push(s)) == views_of(v).push(s@),
{
    assert(views_of(v.push(s)) =~= views_of(v).push(s@));
}

/// Appending one string extends membership by exactly that string.
pub proof fn lemma_contains_view_push(v: Seq<String>, x: String, k: Seq<char>)
    ensures
        contains_view(v.push(x), k) <==> (contains_view(v, k) || x@ == k),
{
    lemma_views_of_push(v, x);
    lemma_contains_concat(views_of(v), seq![x@], k);
    assert(views_of(v).push(x@) =~= views_of(v) + seq![x@]);
    if x@ == k {
        assert(seq![x@][0] == k);
        assert(seq![x@].contains(k));
    }
    if seq![x@].contains(k) {
        assert(seq![x@][0] == x@);
    }
}

/// A name contained in a sequence is contained in any extension of it.
pub proof fn lemma_contains_view_prefix(a: Seq<String>, b: Seq<String>, k: Seq<char>)
    requires
        a.len() <= b.len(),
        b.take(a.len() as int) == a,
        contains_view(a, k),
    ensures
        contains_view(b, k),
{
    let w = choose|i: int| 0 <= i < views_of(a).len() && views_of(a)[i] == k;
    assert(a[w]@ == k);
    assert(b.take(a.len() as int)[w] == a[w]);
    assert(b[w]@ == k);
    assert(views_of(b)[w] == k);
}

/// Membership in a concatenation is membership in either part.
pub proof fn lemma_contains_concat<A>(a: Seq<A>, b: Seq<A>, x: A)
    ensures
        (a + b).contains(x) <==> (a.contains(x) || b.contains(x)),
{
    if (a + b).contains(x) {
        let w = choose|i: int| 0 <= i < (a + b).len() && (a + b)[i] == x;
        if w < a.len() {
            assert(a[w] == x);
        } else {
            assert(b[w - a.len()] == x);
        }
    }
    if a.contains(x) {
        let w = choose|i: int| 0 <= i < a.len() && a[i] == x;
        assert((a + b)[w] == x);
    }
    if b.contains(x) {
        let w = choose|i: int| 0 <= i < b.len() && b[i] == x;
        assert((a + b)[a.len() + w] == x);
    }
}

/// Whether `v` holds a string reading as `k`.
pub fn contains_string(v: &Vec<String>, k: &str) -> (r: bool)
    ensures
        r == contains_view(v@, k@),
{
    let n = v.len();
    for i in 0..n
        invariant
            n == v@.len(),
            forall|j: int| 0 <= j < i ==> v@[j]@ != k@,
    {
        if crate::store::str_eq(v[i].as_str(), k) {
            assert(views_of(v@)[i as int] == k@);
            assert(contains_view(v@, k@));
            return true;
        }
    }
    assert forall|j: int| 0 <= j < views_of(v@).len() implies views_of(v@)[j] != k@ by {
        assert(views_of(v@)[j] == v@[j]@);
    }
    false
}

/// Whether every string of `outs` also occurs in `ins`.
pub fn strings_subset(outs: &Vec<String>, ins: &Vec<String>) -> (r: bool)
    ensures
        r == (forall|x: int| 0 <= x < outs@.len() ==> contains_view(ins@, outs@[x]@)),
{
    let n = outs.len();
    for i in 0..n
        invariant
            n == outs@.len(),
            forall|x: int| 0 <= x < i ==> contains_view(ins@, outs@[x]@),
    {
        if !contains_string(ins, outs[i].as_str()) {
            return false;
        }
    }
    true
}

/// The product of the dimension sizes of a shape.
pub open spec fn shape_product(s: Seq<i64>) -> int
    decreases s.len(),
{
    if s.len() == 0 {
        1
    } else {
        shape_product(s.drop_last()) * s.last()
    }
}

proof fn lemma_shape_product_zero(s: Seq<i64>)
    requires
        exists|i: int| 0 <= i < s.len() && s[i] == 0,
    ensures
        shape_product(s) == 0,
    decreases s.len(),
{
    let w = choose|i: int| 0 <= i < s.len() && s[i] == 0;
    if w == s.len() - 1 {
        assert(shape_product(s) == shape_product(s.drop_last()) * s.last());
    } else {
        assert(s.drop_last()[w] == 0);
        lemma_shape_product_zero(s.drop_last());
        assert(shape_product(s) == shape_product(s.drop_last()) * s.last());
    }
}

proof fn lemma_shape_product_grows(s: Seq<i64>, i: int)
    requires
        0 <= i <= s.len(),
        forall|j: int| 0 <= j < s.len() ==> s[j] >= 1,
    ensures
        shape_product(s) >= shape_product(s.take(i)),
        shape_product(s.take(i)) >= 1,
    decreases s.len() - i,
{
    lemma_shape_product_positive(s.take(i));
    if i == s.len() {
        assert(s.take(i) =~= s);
    } else {
        lemma_shape_product_grows(s, i + 1);
        assert(s.take(i + 1).drop_last() =~= s.take(i));
        let p = shape_product(s.take(i));
        let d = s[i] as int;
        assert(p * d >= p) by (nonlinear_arith)
            requires
                p >= 1,
                d >= 1,
        ;
    }
}

proof fn lemma_shape_product_positive(s: Seq<i64>)
    requires
        forall|j: int| 0 <= j < s.len() ==> s[j] >= 1,
    ensures
        shape_product(s) >= 1,
    decreases s.len(),
{
    if s.len() > 0 {
        lemma_shape_product_positive(s.drop_last());
        let p = shape_product(s.drop_last());
        let d = s.last() as int;
        assert(p * d >= 1) by (nonlinear_arith)
            requires
                p >= 1,
                d >= 1,
        ;
    }
}

/// A product of non-negative factors is non-negative.
pub proof fn lemma_shape_product_nonneg(s: Seq<i64>)
    requires
        forall|j: int| 0 <= j < s.len() ==> s[j] >= 0,
    ensures
        shape_product(s) >= 0,
    decreases s.len(),
{
    if s.len() > 0 {
        lemma_shape_product_nonneg(s.drop_last());
        let p = shape_product(s.drop_last());
        let d = s.last() as int;
        assert(p * d >= 0) by (nonlinear_arith)
            requires
                p >= 0,
                d >= 0,
        ;
    }
}

/// Splitting one factor off the front of a suffix product.
pub proof fn lemma_shape_product_skip(s: Seq<i64>, k: int)
    requires
        0 <= k < s.len(),
    ensures
        shape_product(s.skip(k)) == s[k] * shape_product(s.skip(k + 1)),
    decreases s.len(),
{
    if k == s.len() - 1 {
        assert(s.skip(k) =~= seq![s[k]]);
        assert(s.skip(k + 1) =~= Seq::<i64>::empty());
        assert(seq![s[k]].drop_last() =~= Seq::<i64>::empty());
        assert(shape_product(seq![s[k]]) == shape_product(seq![s[k]].drop_last()) * seq![
            s[k],
        ].last());
        assert(seq![s[k]].last() == s[k]);
        assert(shape_product(Seq::<i64>::empty()) == 1);
        assert(shape_product(s.skip(k)) == 1 * (s[k] as int));
        assert(1 * (s[k] as int) == (s[k] as int) * 1) by (nonlinear_arith);
    } else {
        assert(s.skip(k).drop_last() =~= s.drop_last().skip(k));
        assert(s.skip(k).last() == s.last());
        lemma_shape_product_skip(s.drop_last(), k);
        assert(s.drop_last().skip(k + 1) =~= s.skip(k + 1).drop_last());
        assert(shape_product(s.skip(k + 1)) == shape_product(s.skip(k + 1).drop_last())
            * s.skip(k + 1).last());
        assert(s.skip(k + 1).last() == s.last());
        let a = s[k] as int;
        let b = shape_product(s.drop_last().skip(k + 1));
        let c = s.last() as int;
        assert((a * b) * c == a * (b * c)) by (nonlinear_arith);
    }
}

/// The element count of a shape, when it fits the machine: every dimension
/// size must be non-negative and the product must fit in `usize`.
pub fn shape_element_count(shape: &Vec<i64>) -> (r: Result<usize, String>)
    ensures
        match r {
            Ok(n) => {
                &&& n as int == shape_product(shape@)
                &&& forall|j: int| 0 <= j < shape@.len() ==> shape@[j] >= 0
            },
            Err(_) => (exists|j: int| 0 <= j < shape@.len() && shape@[j] < 0)
                || shape_product(shape@) > usize::MAX,
        },
{
    let n = shape.len();
    for i in 0..n
        invariant
            n == shape@.len(),
            forall|j: int| 0 <= j < i ==> shape@[j] >= 0,
    {
        if shape[i] < 0 {
            return Err("negative dimension size".to_owned());
        }
    }
    for i in 0..n
        invariant
            n == shape@.len(),
            forall|j: int| 0 <= j < n ==> shape@[j] >= 0,
            forall|j: int| 0 <= j < i ==> shape@[j] != 0,
    {
        if shape[i] == 0 {
            proof {
                lemma_shape_product_zero(shape@);
            }
            return Ok(0);
        }
    }
    let mut acc: u128 = 1;
    assert(shape@.take(0) =~= Seq::<i64>::empty());
    for i in 0..n
        invariant
            n == shape@.len(),
            forall|j: int| 0 <= j < n ==> shape@[j] >= 1,
            acc as int == shape_product(shape@.take(i as int)),
            acc <= usize::MAX,
    {
        proof {
            lemma_shape_product_grows(shape@, i as int);
            assert(shape@.take(i + 1).drop_last() =~= shape@.take(i as int));
            let a = acc as int;
            let d = shape@[i as int] as int;
            assert(a * d <= (usize::MAX as int) * (i64::MAX as int)) by (nonlinear_arith)
                requires
                    0 <= a <= usize::MAX as int,
                    0 <= d <= i64::MAX as int,
            ;
        }
        acc = acc * (shape[i] as u128);
        if acc > (usize::MAX as u128) {
            proof {
                lemma_shape_product_grows(shape@, i + 1);
            }
            return Err("shape is too large".to_owned());
        }
    }
    assert(shape@.take(n as int) =~= shape@);
    Ok(acc as usize)
}

/// The integer-list payload of the node's attribute `attr_name`, if the
/// attribute is present.
pub fn get_attr_ints(node_proto: &NodeProto, attr_name: &str) -> (r: Option<Vec<i64>>)
    ensures
        match r {
            Some(v) => find_attr(node_proto.attribute@, attr_name@) is Some && v@ == find_attr(
                node_proto.attribute@,
                attr_name@,
            )->Some_0.ints@,
            None => find_attr(node_proto.attribute@, attr_name@) is None,
        },
{
    let n = node_proto.attribute.len();
    proof {
        assert(node_proto.attribute@.skip(0) =~= node_proto.attribute@);
    }
    for idx in 0..n
        invariant
            n == node_proto.attribute@.len(),
            find_attr(node_proto.attribute@, attr_name@) == find_attr(
                node_proto.attribute@.skip(idx as int),
                attr_name@,
            ),
            forall|j: int| 0 <= j < idx ==> node_proto.attribute@[j].name@ != attr_name@,
    {
        proof {
            assert(node_proto.attribute@.skip(idx as int).drop_first() =~= node_proto.attribute@.skip(
                idx + 1,
            ));
            assert(node_proto.attribute@.skip(idx as int)[0] == node_proto.attribute@[idx as int]);
        }
        if crate::store::str_eq(node_proto.attribute[idx].name.as_str(), attr_name) {
            return Some(copy_vec(&node_proto.attribute[idx].ints));
        }
    }
    proof {
        assert(node_proto.attribute@.skip(n as int) =~= Seq::<crate::onnx::AttributeProto>::empty());
    }
    None
}

/// The scalar-integer payload of the node's attribute `attr_name`, if
/// present.
pub fn get_attr_i(node_proto: &NodeProto, attr_name: &str) -> (r: Option<i64>)
    ensures
        match r {
            Some(v) => find_attr(node_proto.attribute@, attr_name@) is Some && v == find_attr(
                node_proto.attribute@,
                attr_name@,
            )->Some_0.i,
            None => find_attr(node_proto.attribute@, attr_name@) is None,
        },
{
    let n = node_proto.attribute.len();
    proof {
        assert(node_proto.attribute@.skip(0) =~= node_proto.attribute@);
    }
    for idx in 0..n
        invariant
            n == node_proto.attribute@.len(),
            find_attr(node_proto.attribute@, attr_name@) == find_attr(
                node_proto.attribute@.skip(idx as int),
                attr_name@,
            ),
    {
        proof {
            assert(node_proto.attribute@.skip(idx as int).drop_first() =~= node_proto.attribute@.skip(
                idx + 1,
            ));
            assert(node_proto.attribute@.skip(idx as int)[0] == node_proto.attribute@[idx as int]);
        }
        if crate::store::str_eq(node_proto.attribute[idx].name.as_str(), attr_name) {
            return Some(node_proto.attribute[idx].i);
        }
    }
    proof {
        assert(node_proto.attribute@.skip(n as int) =~= Seq::<crate::onnx::AttributeProto>::empty());
    }
    None
}

/// The scalar-float payload of the node's attribute `attr_name`, in its
/// textual form, if present.
pub fn get_attr_f(node_proto: &NodeProto, attr_name: &str) -> (r: Option<String>)
    ensures
        match r {
            Some(v) => find_attr(node_proto.attribute@, attr_name@) is Some && v@ == find_attr(
                node_proto.attribute@,
                attr_name@,
            )->Some_0.f@,
            None => find_attr(node_proto.attribute@, attr_name@) is None,
        },
{
    let n = node_proto.attribute.len();
    proof {
        assert(node_proto.attribute@.skip(0) =~= node_proto.attribute@);
    }
    for idx in 0..n
        invariant
            n == node_proto.attribute@.len(),
            find_attr(node_proto.attribute@, attr_name@) == find_attr(
                node_proto.attribute@.skip(idx as int),
                attr_name@,
            ),
    {
        proof {
            assert(node_proto.attribute@.skip(idx as int).drop_first() =~= node_proto.attribute@.skip(
                idx + 1,
            ));
            assert(node_proto.attribute@.skip(idx as int)[0] == node_proto.attribute@[idx as int]);
        }
        if crate::store::str_eq(node_proto.attribute[idx].name.as_str(), attr_name) {
            return Some(node_proto.attribute[idx].f.clone());
        }
    }
    proof {
        assert(node_proto.attribute@.skip(n as int) =~= Seq::<crate::onnx::AttributeProto>::empty());
    }
    None
}

/// The string payload of the node's attribute `attr_name`, if present.
pub fn get_attr_string(node_proto: &NodeProto, attr_name: &str) -> (r: Option<String>)
    ensures
        match r {
            Some(v) => find_attr(node_proto.attribute@, attr_name@) is Some && v@ == find_attr(
                node_proto.attribute@,
                attr_name@,
            )->Some_0.s@,
            None => find_attr(node_proto.attribute@, attr_name@) is None,
        },
{
    let n = node_proto.attribute.len();
    proof {
        assert(node_proto.attribute@.skip(0) =~= node_proto.attribute@);
    }
    for idx in 0..n
        invariant
            n == node_proto.attribute@.len(),
            find_attr(node_proto.attribute@, attr_name@) == find_attr(
                node_proto.attribute@.skip(idx as int),
                attr_name@,
            ),
    {
        proof {
            assert(node_proto.attribute@.skip(idx as int).drop_first() =~= node_proto.attribute@.skip(
                idx + 1,
            ));
            assert(node_proto.attribute@.skip(idx as int)[0] == node_proto.attribute@[idx as int]);
        }
        if crate::store::str_eq(node_proto.attribute[idx].name.as_str(), attr_name) {
            return Some(node_proto.attribute[idx].s.clone());
        }
    }
    proof {
        assert(node_proto.attribute@.skip(n as int) =~= Seq::<crate::onnx::AttributeProto>::empty());
    }
    None
}

/// The 32-bit word read little-endian at element position `i`.
pub open spec fn le_u32_at(b: Seq<u8>, i: int) -> int {
    b[4 * i] + 256 * b[4 * i + 1] + 65536 * b[4 * i + 2] + 16777216 * b[4 * i + 3]
}

/// Reads a byte buffer as little-endian 32-bit words.
pub fn decode_u32s(b: &Vec<u8>) -> (r: Vec<u32>)
    requires
        b@.len() % 4 == 0,
    ensures
        r@.len() == b@.len() / 4,
        forall|i: int| 0 <= i < r@.len() ==> #[trigger] r@[i] as int == le_u32_at(b@, i),
{
    let blen = b.len();
    let n = blen / 4;
    proof {
        assert(b@.len() == 4 * (b@.len() / 4) + b@.len() % 4);
    }
    let mut r: Vec<u32> = Vec::new();
    for i in 0..n
        invariant
            n == b@.len() / 4,
            4 * n == b@.len(),
            blen == b@.len(),
            r@.len() == i,
            forall|j: int| 0 <= j < i ==> #[trigger] r@[j] as int == le_u32_at(b@, j),
    {
        let w: u32 = (b[4 * i] as u32) + 256 * (b[4 * i + 1] as u32) + 65536 * (b[4 * i + 2] as u32)
            + 16777216 * (b[4 * i + 3] as u32);
        r.push(w);
    }
    r
}

/// The little-endian bytes of a 32-bit word sequence.
pub open spec fn le_bytes_32(vals: Seq<u32>) -> Seq<u8>
    decreases vals.len(),
{
    if vals.len() == 0 {
        Seq::empty()
    } else {
        le_bytes_32(vals.drop_last()) + word_bytes_32(vals.last())
    }
}

/// The four little-endian bytes of one 32-bit word.
pub open spec fn word_bytes_32(v: u32) -> Seq<u8> {
    seq![
        (v & 0xff) as u8,
        ((v >> 8) & 0xff) as u8,
        ((v >> 16) & 0xff) as u8,
        ((v >> 24) & 0xff) as u8,
    ]
}

/// The eight little-endian bytes of one 64-bit word.
pub open spec fn word_bytes_64(v: u64) -> Seq<u8> {
    seq![
        (v & 0xff) as u8,
        ((v >> 8) & 0xff) as u8,
        ((v >> 16) & 0xff) as u8,
        ((v >> 24) & 0xff) as u8,
        ((v >> 32) & 0xff) as u8,
        ((v >> 40) & 0xff) as u8,
        ((v >> 48) & 0xff) as u8,
        ((v >> 56) & 0xff) as u8,
    ]
}

/// The little-endian bytes of a 64-bit word sequence.
pub open spec fn le_bytes_64(vals: Seq<u64>) -> Seq<u8>
    decreases vals.len(),
{
    if vals.len() == 0 {
        Seq::empty()
    } else {
        le_bytes_64(vals.drop_last()) + word_bytes_64(vals.last())
    }
}

/// Writes a 32-bit word sequence as little-endian bytes.
pub fn encode_u32s(vals: &Vec<u32>) -> (r: Vec<u8>)
    requires
        vals@.len() * 4 <= usize::MAX,
    ensures
        r@ == le_bytes_32(vals@),
{
    let n = vals.len();
    let mut r: Vec<u8> = Vec::new();
    for i in 0..n
        invariant
            n == vals@.len(),
            n * 4 <= usize::MAX,
            r@ == le_bytes_32(vals@.take(i as int)),
            r@.len() == i * 4,
    {
        proof {
            assert(vals@.take(i + 1).drop_last() =~= vals@.take(i as int));
        }
        let v = vals[i];
        r.push((v & 0xff) as u8);
        r.push(((v >> 8) & 0xff) as u8);
        r.push(((v >> 16) & 0xff) as u8);
        r.push(((v >> 24) & 0xff) as u8);
        assert(r@ =~= le_bytes_32(vals@.take(i + 1)));
    }
    assert(vals@.take(n as int) =~= vals@);
    r
}

/// Writes a 64-bit word sequence as little-endian bytes.
pub fn encode_u64s(vals: &Vec<u64>) -> (r: Vec<u8>)
    requires
        vals@.len() * 8 <= usize::MAX,
    ensures
        r@ == le_bytes_64(vals@),
{
    let n = vals.len();
    let mut r: Vec<u8> = Vec::new();
    for i in 0..n
        invariant
            n == vals@.len(),
            n * 8 <= usize::MAX,
            r@ == le_bytes_64(vals@.take(i as int)),
            r@.len() == i * 8,
    {
        proof {
            assert(vals@.take(i + 1).drop_last() =~= vals@.take(i as int));
        }
        let v = vals[i];
        r.push((v & 0xff) as u8);
        r.push(((v >> 8) & 0xff) as u8);
        r.push(((v >> 16) & 0xff) as u8);
        r.push(((v >> 24) & 0xff) as u8);
        r.push(((v >> 32) & 0xff) as u8);
        r.push(((v >> 40) & 0xff) as u8);
        r.push(((v >> 48) & 0xff) as u8);
        r.push(((v >> 56) & 0xff) as u8);
        assert(r@ =~= le_bytes_64(vals@.take(i + 1)));
    }
    assert(vals@.take(n as int) =~= vals@);
    r
}

/// The number of elements a tensor holds: the product of its dimension
/// sizes. Fails when a dimension is negative or the product does not fit
/// in `usize`.
pub fn tensor_len(t: &Tensor) -> (r: Result<usize, String>)
    ensures
        match r {
            Ok(n) => {
                &&& n as int == shape_product(t.spec_shape())
                &&& forall|j: int| 0 <= j < t.spec_shape().len() ==> t.spec_shape()[j] >= 0
            },
            Err(_) => (exists|j: int| 0 <= j < t.spec_shape().len() && t.spec_shape()[j] < 0)
                || shape_product(t.spec_shape()) > usize::MAX,
        },
{
    match t {
        Tensor::F32 { values: _, shape } => shape_element_count(shape),
        Tensor::F64 { values: _, shape } => shape_element_count(shape),
        Tensor::I64 { values: _, shape } => shape_element_count(shape),
    }
}

} // verus!
