//! Fixed-point rendering of `n / 10^k` with `p` decimals, matching what a
//! conversion to binary64, a division by `10^k` and a `{:.p}` format give,
//! computed exactly with integers.
//!
//! The binary64 steps are: the integer `n` is rounded to 53 significant bits
//! (ties to even), the quotient by `10^k` is rounded to 53 significant bits
//! (ties to even), and the decimal rendering rounds the exact binary value to
//! `p` fractional digits (ties to even).

use vstd::prelude::*;
use crate::text::{dec_seq, dec_pad, dec_string, dec_padded, push_str, owned};

verus! {

broadcast use vstd::string::group_string_axioms;

/// `2^e`.
pub open spec fn p2(e: nat) -> nat
    decreases e,
{
    if e == 0 {
        1
    } else {
        2 * p2((e - 1) as nat)
    }
}

/// `10^e`.
pub open spec fn p10(e: nat) -> nat
    decreases e,
{
    if e == 0 {
        1
    } else {
        10 * p10((e - 1) as nat)
    }
}

/// `num / den` rounded to the nearest integer, ties to even.
pub open spec fn rne(num: nat, den: nat) -> nat
    recommends
        den > 0,
{
    let q = num / den;
    let r = num % den;
    if 2 * r > den {
        q + 1
    } else if 2 * r < den {
        q
    } else if q % 2 == 0 {
        q
    } else {
        q + 1
    }
}

/// Number of binary digits of `n` (0 for 0).
pub open spec fn bitlen(n: nat) -> nat
    decreases n,
{
    if n == 0 {
        0
    } else {
        1 + bitlen(n / 2)
    }
}

/// The value of `n` once rounded to a binary64 significand of 53 bits.
pub open spec fn as_binary64(n: nat) -> nat {
    if bitlen(n) <= 53 {
        n
    } else {
        let e = (bitlen(n) - 53) as nat;
        rne(n, p2(e)) * p2(e)
    }
}

/// The smallest `s >= from` with `a * 2^s >= 2^52 * d` (searching up to 200).
pub open spec fn lift(a: nat, d: nat, from: nat) -> nat
    decreases 200 - from,
{
    if from >= 200 || a * p2(from) >= p2(52) * d {
        from
    } else {
        lift(a, d, from + 1)
    }
}

/// The scaled decimal digits `T` such that the rendering of `n / 10^k` with
/// `p` decimals is `T / 10^p`.
pub open spec fn scaled_digits(n: nat, k: nat, p: nat) -> nat {
    let a = as_binary64(n);
    if a == 0 {
        0
    } else {
        let d = p10(k);
        let s = lift(a, d, 0);
        let q = rne(a * p2(s), d);
        rne(q * p10(p), p2(s))
    }
}

/// Rendering of the fixed-point number `t / 10^p` with exactly `p` decimals.
pub open spec fn fixed_seq(t: nat, p: nat) -> Seq<char> {
    if p == 0 {
        dec_seq(t)
    } else {
        dec_seq(t / p10(p)) + seq!['.'] + dec_pad(t % p10(p), p)
    }
}

/// Rendering of `n / 10^k` with `p` decimals, as binary64 arithmetic and a
/// `{:.p}` format produce it.
pub open spec fn scaled_text(n: nat, k: nat, p: nat) -> Seq<char> {
    fixed_seq(scaled_digits(n, k, p), p)
}

pub(crate) proof fn lemma_p2_pos(e: nat)
    ensures
        p2(e) >= 1,
    decreases e,
{
    if e > 0 {
        lemma_p2_pos((e - 1) as nat);
    }
}

pub(crate) proof fn lemma_p2_mono(a: nat, b: nat)
    requires
        a <= b,
    ensures
        p2(a) <= p2(b),
    decreases b,
{
    if a < b {
        lemma_p2_mono(a, (b - 1) as nat);
        lemma_p2_pos((b - 1) as nat);
    }
}

pub(crate) proof fn lemma_p10_pos(e: nat)
    ensures
        p10(e) >= 1,
    decreases e,
{
    if e > 0 {
        lemma_p10_pos((e - 1) as nat);
    }
}

proof fn lemma_p2_72()
    ensures
        p2(52) == 0x10_0000_0000_0000nat,
        p2(53) == 0x20_0000_0000_0000nat,
        p2(72) == 0x100_0000_0000_0000_0000nat,
{
    reveal_with_fuel(p2, 73);
}

/// `2^e` as a `u128`.
fn pow2_u128(e: u32) -> (r: u128)
    requires
        e <= 72,
    ensures
        r == p2(e as nat),
{
    let mut r: u128 = 1;
    let mut i: u32 = 0;
    while i < e
        invariant
            i <= e <= 72,
            r == p2(i as nat),
        decreases e - i,
    {
        proof {
            lemma_p2_mono((i + 1) as nat, 72);
            lemma_p2_72();
        }
        r = r * 2;
        i = i + 1;
    }
    r
}

/// `10^e` as a `u128`.
fn pow10_u128(e: u32) -> (r: u128)
    requires
        e <= 6,
    ensures
        r == p10(e as nat),
        1 <= r <= 1_000_000,
{
    proof {
        reveal_with_fuel(p10, 7);
    }
    match e {
        0 => 1,
        1 => 10,
        2 => 100,
        3 => 1000,
        4 => 10_000,
        5 => 100_000,
        _ => 1_000_000,
    }
}

/// `num / den` rounded to nearest, ties to even.
pub(crate) fn rne_u128(num: u128, den: u128) -> (r: u128)
    requires
        den > 0,
        num / den < u128::MAX,
    ensures
        r == rne(num as nat, den as nat),
{
    let q = num / den;
    let r = num % den;
    if r > den - r {
        q + 1
    } else if r < den - r {
        q
    } else if q % 2 == 0 {
        q
    } else {
        q + 1
    }
}

proof fn lemma_bitlen_bound(n: nat, b: nat)
    requires
        n < p2(b),
    ensures
        bitlen(n) <= b,
    decreases b,
{
    if n > 0 {
        assert(b > 0) by {
            if b == 0 {
                assert(p2(0) == 1);
            }
        }
        lemma_bitlen_bound(n / 2, (b - 1) as nat);
    }
}

proof fn lemma_bitlen_lower(n: nat)
    requires
        n > 0,
    ensures
        p2((bitlen(n) - 1) as nat) <= n,
    decreases n,
{
    if n / 2 > 0 {
        lemma_bitlen_lower(n / 2);
        assert(bitlen(n) == 1 + bitlen(n / 2));
        assert(bitlen(n / 2) >= 1);
        assert(p2((bitlen(n) - 1) as nat) == 2 * p2((bitlen(n / 2) - 1) as nat));
    } else {
        assert(bitlen(n / 2) == 0);
        assert(bitlen(n) == 1);
        assert(p2(0) == 1);
    }
}

/// Number of binary digits of `n`.
fn bit_length(n: u64) -> (r: u32)
    ensures
        r as nat == bitlen(n as nat),
        r <= 64,
{
    let mut x = n;
    let mut r: u32 = 0;
    proof {
        lemma_p2_64();
    }
    while x > 0
        invariant
            r as nat + bitlen(x as nat) == bitlen(n as nat),
            r <= 64,
            x < p2((64 - r) as nat),
        decreases x,
    {
        proof {
            reveal_with_fuel(p2, 2);
            lemma_p2_pos((63 - r) as nat);
            if r >= 64 {
                assert(p2(0) == 1);
            }
        }
        x = x / 2;
        r = r + 1;
    }
    r
}

proof fn lemma_p2_64()
    ensures
        p2(64) == 0x1_0000_0000_0000_0000nat,
{
    reveal_with_fuel(p2, 65);
}

pub(crate) proof fn lemma_rne_le(num: nat, den: nat)
    requires
        den > 0,
    ensures
        rne(num, den) <= num / den + 1,
        rne(num, den) * den <= num + den,
{
    let q = num / den;
    let r = num % den;
    assert(num == q * den + r) by (nonlinear_arith)
        requires
            den > 0,
            q == num / den,
            r == num % den,
    ;
    assert((q + 1) * den == q * den + den) by (nonlinear_arith);
}

/// The value of `n` rounded to a 53-bit binary64 significand.
fn binary64_value(n: u64) -> (a: u128)
    ensures
        a as nat == as_binary64(n as nat),
        a as nat <= 0x1_0000_0000_0000_0800nat,
        (n > 0) == (a > 0),
{
    let bl = bit_length(n);
    proof {
        lemma_p2_64();
        lemma_bitlen_bound(n as nat, 64);
    }
    if bl <= 53 {
        n as u128
    } else {
        let e = bl - 53;
        let unit = pow2_u128(e);
        proof {
            lemma_p2_mono(e as nat, 11);
            reveal_with_fuel(p2, 12);
            lemma_rne_le(n as nat, unit as nat);
            lemma_bitlen_lower(n as nat);
            lemma_p2_pos(e as nat);
            assert(p2((bl - 1) as nat) == p2(e as nat) * p2(52)) by {
                lemma_p2_adds(e as nat, 52);
            }
            lemma_p2_72();
            assert(n as nat / unit as nat >= p2(52)) by (nonlinear_arith)
                requires
                    n as nat >= unit as nat * p2(52),
                    unit > 0,
            ;
        }
        let q = rne_u128(n as u128, unit);
        proof {
            assert(q * unit <= n as nat + unit as nat);
            assert(q >= 1);
            assert(q * unit >= 1) by (nonlinear_arith)
                requires
                    q >= 1,
                    unit >= 1,
            ;
        }
        q * unit
    }
}

pub(crate) proof fn lemma_p2_adds(a: nat, b: nat)
    ensures
        p2(a + b) == p2(a) * p2(b),
    decreases a,
{
    if a > 0 {
        lemma_p2_adds((a - 1) as nat, b);
        assert(p2(a + b) == 2 * p2((a - 1 + b) as nat));
        assert(p2(a) == 2 * p2((a - 1) as nat));
        let x = p2((a - 1) as nat);
        let y = p2(b);
        assert(2 * (x * y) == (2 * x) * y) by (nonlinear_arith);
        assert(p2(a + b) == 2 * (x * y));
        assert(p2(a) * p2(b) == (2 * x) * y);
    } else {
        assert(p2(0) == 1);
        assert(a + b == b);
    }
}

proof fn lemma_lift_step(a: nat, d: nat, s: nat)
    requires
        s < 200,
        a * p2(s) < p2(52) * d,
    ensures
        lift(a, d, s) == lift(a, d, s + 1),
{
}

/// The digits `T` of [`scaled_digits`].
fn scaled_digits_exec(n: u64, k: u32, p: u32) -> (t: u128)
    requires
        k <= 6,
        p <= 2,
    ensures
        t as nat == scaled_digits(n as nat, k as nat, p as nat),
{
    let a = binary64_value(n);
    if a == 0 {
        return 0;
    }
    let d = pow10_u128(k);
    proof {
        lemma_p2_72();
        lemma_p10_pos(k as nat);
    }
    let top = pow2_u128(52) * d;
    assert(top < p2(72));
    let mut s: u32 = 0;
    let mut scaled: u128 = a;
    assert(p2(0) == 1);
    while scaled < top
        invariant
            1 <= a <= 0x1_0000_0000_0000_0800nat,
            1 <= d <= 1_000_000,
            top == p2(52) * d,
            top < p2(72),
            p2(72) == 0x100_0000_0000_0000_0000nat,
            s <= 72,
            scaled >= 1,
            scaled == a * p2(s as nat),
            scaled < 0x2_0000_0000_0000_0000_0000nat,
            lift(a as nat, d as nat, s as nat) == lift(a as nat, d as nat, 0),
        decreases 72 - s,
    {
        proof {
            lemma_lift_step(a as nat, d as nat, s as nat);
            assert(p2(s as nat) <= scaled) by (nonlinear_arith)
                requires
                    scaled == a * p2(s as nat),
                    a >= 1,
            ;
            if s >= 72 {
                lemma_p2_mono(72, s as nat);
            }
            assert(p2((s + 1) as nat) == 2 * p2(s as nat));
            assert(a * p2((s + 1) as nat) == 2 * (a * p2(s as nat))) by (nonlinear_arith)
                requires
                    p2((s + 1) as nat) == 2 * p2(s as nat),
            ;
        }
        scaled = scaled * 2;
        s = s + 1;
    }
    assert(lift(a as nat, d as nat, s as nat) == s);
    proof {
        lemma_rne_le(scaled as nat, d as nat);
    }
    let q = rne_u128(scaled, d);
    let m = pow10_u128(p);
    proof {
        reveal_with_fuel(p10, 3);
        assert(q * m <= 0x2_0000_0000_0000_0000_0000nat * 100) by (nonlinear_arith)
            requires
                q <= (scaled as nat) / (d as nat) + 1,
                scaled < 0x2_0000_0000_0000_0000_0000nat,
                d >= 1,
                m <= 100,
        ;
        lemma_p2_pos(s as nat);
    }
    let unit = pow2_u128(s);
    proof {
        assert((q * m) as nat / (unit as nat) <= (q * m) as nat) by (nonlinear_arith)
            requires
                unit >= 1,
        ;
    }
    rne_u128(q * m, unit)
}

/// Rendering of `n / 10^k` with `p` decimals, as binary64 arithmetic and a
/// `{:.p}` format produce it.
pub fn scaled_string(n: u64, k: u32, p: u32) -> (r: String)
    requires
        k <= 6,
        p <= 2,
    ensures
        r@ == scaled_text(n as nat, k as nat, p as nat),
{
    let t = scaled_digits_exec(n, k, p);
    if p == 0 {
        dec_string(t)
    } else {
        let unit = pow10_u128(p);
        let mut r = dec_string(t / unit);
        proof {
            reveal_strlit(".");
        }
        push_str(&mut r, ".");
        let frac = dec_padded(t % unit, p as u64);
        push_str(&mut r, frac.as_str());
        r
    }
}

} // verus!
