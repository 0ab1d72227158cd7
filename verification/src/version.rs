//! Canonical short form of a `bcdUSB` version string.
//!
//! Sysfs writes the version as `"2.10"`, `"3.20"`, `"4.00"`: the part after
//! the point is a decimal sub-version, so `"2.10"` is USB 2.1. The short
//! form is the value read as a binary32 number and printed with one
//! decimal (`"2.1"`, `"3.2"`, `"4.0"`), computed here exactly with
//! integers: the decimal value `n / 10^k` is rounded to a 24-bit
//! significand (ties to even), and that binary value is rounded to tenths
//! (ties to even).

use vstd::prelude::*;
use crate::fixed::{
    fixed_seq, lemma_p2_adds, lemma_p2_mono, lemma_p2_pos, lemma_p10_pos, lemma_rne_le, p10, p2,
    rne, rne_u128,
};
use crate::text::{chars_of, dec_pad, dec_seq, dec_string, dec_padded, lower_seq, owned, push_str};
use crate::typec::find_from;

verus! {

broadcast use vstd::string::group_string_axioms;

/// An ASCII decimal digit.
pub open spec fn is_digit(c: char) -> bool {
    '0' <= c && c <= '9'
}

/// Every character of `s` is a decimal digit.
pub open spec fn all_digits(s: Seq<char>) -> bool {
    forall|i: int| 0 <= i < s.len() ==> is_digit(#[trigger] s[i])
}

/// The decimal value of a digit string.
pub open spec fn digits_value(s: Seq<char>) -> nat
    decreases s.len(),
{
    if s.len() == 0 {
        0
    } else {
        10 * digits_value(s.drop_last()) + (s.last() as nat - '0' as nat) as nat
    }
}

/// `s` without a leading `+` or `-`.
pub open spec fn unsigned_part(s: Seq<char>) -> Seq<char> {
    if s.len() > 0 && (s[0] == '-' || s[0] == '+') {
        s.drop_first()
    } else {
        s
    }
}

/// `s` starts with `-`.
pub open spec fn negative(s: Seq<char>) -> bool {
    s.len() > 0 && s[0] == '-'
}

/// The integer and fraction digits of a plain decimal literal
/// (`digits`, `digits.`, `.digits` or `digits.digits`, optionally signed).
pub open spec fn decimal_parts(s: Seq<char>) -> Option<(Seq<char>, Seq<char>)> {
    let body = unsigned_part(s);
    match find_from(body, '.', 0) {
        Some(k) => {
            let a = body.subrange(0, k as int);
            let b = body.subrange(k + 1int, body.len() as int);
            if all_digits(a) && all_digits(b) && a.len() + b.len() > 0 {
                Some((a, b))
            } else {
                None
            }
        },
        None => if all_digits(body) && body.len() > 0 {
            Some((body, Seq::empty()))
        } else {
            None
        },
    }
}

/// Smallest `s >= from` with `n * 2^s >= 2^23 * d` (searching to 100).
pub open spec fn up_shift(n: nat, d: nat, from: nat) -> nat
    decreases 100 - from,
{
    if from >= 100 || n * p2(from) >= p2(23) * d {
        from
    } else {
        up_shift(n, d, from + 1)
    }
}

/// Smallest `t >= from` with `n < 2^24 * d * 2^t` (searching to 100).
pub open spec fn down_shift(n: nat, d: nat, from: nat) -> nat
    decreases 100 - from,
{
    if from >= 100 || n < p2(24) * d * p2(from) {
        from
    } else {
        down_shift(n, d, from + 1)
    }
}

/// Tenths of the binary32 value nearest to `n / d`, rounded to the
/// nearest tenth (both roundings ties to even).
pub open spec fn binary32_tenths(n: nat, d: nat) -> nat {
    if n == 0 {
        0
    } else if n >= p2(24) * d {
        let t = down_shift(n, d, 1);
        10 * rne(n, d * p2(t)) * p2(t)
    } else {
        let s = up_shift(n, d, 0);
        rne(10 * rne(n * p2(s), d), p2(s))
    }
}

/// Largest digit value handled: below `10^19`, with at most 19 fraction
/// digits.
pub open spec fn in_range(a: Seq<char>, b: Seq<char>) -> bool {
    digits_value(a + b) < 10_000_000_000_000_000_000 && b.len() <= 19
}

/// The canonical form of a version string: empty for an empty or
/// malformed string, `"inf"` / `"-inf"` / `"NaN"` for the spelled-out
/// specials, else the signed value with one decimal. Decimal literals
/// outside [`in_range`] and exponent forms also give an empty string.
pub open spec fn version_text(s: Seq<char>) -> Seq<char> {
    let body = lower_seq(unsigned_part(s));
    if s.len() == 0 {
        Seq::empty()
    } else if body == "inf"@ || body == "infinity"@ {
        if negative(s) {
            "-inf"@
        } else {
            "inf"@
        }
    } else if body == "nan"@ {
        "NaN"@
    } else {
        match decimal_parts(s) {
            Some((a, b)) => if in_range(a, b) {
                (if negative(s) {
                    "-"@
                } else {
                    Seq::empty()
                }) + fixed_seq(binary32_tenths(digits_value(a + b), p10(b.len())), 1)
            } else {
                Seq::empty()
            },
            None => Seq::empty(),
        }
    }
}

proof fn lemma_p2_small()
    ensures
        p2(23) == 0x80_0000nat,
        p2(24) == 0x100_0000nat,
{
    reveal_with_fuel(p2, 25);
}

proof fn lemma_p2_41()
    ensures
        p2(41) == 0x200_0000_0000nat,
{
    reveal_with_fuel(p2, 42);
}

proof fn lemma_p10_19()
    ensures
        p10(19) == 10_000_000_000_000_000_000nat,
{
    reveal_with_fuel(p10, 20);
}

proof fn lemma_p10_step(e: nat)
    ensures
        p10(e + 1) == 10 * p10(e),
{
}

proof fn lemma_p10_mono(a: nat, b: nat)
    requires
        a <= b,
    ensures
        p10(a) <= p10(b),
    decreases b,
{
    if a < b {
        lemma_p10_mono(a, (b - 1) as nat);
        lemma_p10_pos((b - 1) as nat);
    }
}

/// `10^e` for `e <= 19`.
fn pow10(e: u32) -> (r: u128)
    requires
        e <= 19,
    ensures
        r == p10(e as nat),
{
    let mut r: u128 = 1;
    let mut i: u32 = 0;
    while i < e
        invariant
            i <= e <= 19,
            r == p10(i as nat),
        decreases e - i,
    {
        proof {
            lemma_p10_mono((i + 1) as nat, 19);
            lemma_p10_19();
        }
        r = r * 10;
        i = i + 1;
    }
    r
}

proof fn lemma_up_step(n: nat, d: nat, s: nat)
    requires
        s < 100,
        n * p2(s) < p2(23) * d,
    ensures
        up_shift(n, d, s) == up_shift(n, d, s + 1),
{
}

proof fn lemma_down_step(n: nat, d: nat, t: nat)
    requires
        t < 100,
        n >= p2(24) * d * p2(t),
    ensures
        down_shift(n, d, t) == down_shift(n, d, t + 1),
{
}

/// [`binary32_tenths`] for `0 < n < 10^19`, `1 <= d <= 10^19`.
fn tenths(n: u128, d: u128) -> (r: u128)
    requires
        0 < n < 10_000_000_000_000_000_000,
        1 <= d <= 10_000_000_000_000_000_000,
    ensures
        r as nat == binary32_tenths(n as nat, d as nat),
{
    proof {
        lemma_p2_small();
    }
    let big: u128 = 0x100_0000;
    if n >= big * d {
        let mut t: u32 = 1;
        let mut scale: u128 = 2;
        proof {
            reveal_with_fuel(p2, 2);
        }
        while n >= big * d * scale
            invariant
                1 <= t <= 41,
                scale == p2(t as nat),
                1 <= scale,
                0 < n < 10_000_000_000_000_000_000,
                1 <= d <= 10_000_000_000_000_000_000,
                big == 0x100_0000,
                big == p2(24),
                n >= big * d,
                big * d * scale <= 2 * n,
                down_shift(n as nat, d as nat, 1) == down_shift(n as nat, d as nat, t as nat),
            decreases 41 - t,
        {
            proof {
                lemma_down_step(n as nat, d as nat, t as nat);
                assert(big * d * (2 * scale) == 2 * (big * d * scale)) by (nonlinear_arith);
                assert(scale <= n) by (nonlinear_arith)
                    requires
                        big * d * scale <= 2 * n,
                        big == 0x100_0000,
                        d >= 1,
                ;
                assert(t < 41) by {
                    if t >= 41 {
                        lemma_p2_mono(41, t as nat);
                        lemma_p2_41();
                        assert(big * d * scale >= 0x100_0000 * 0x200_0000_0000) by (nonlinear_arith)
                            requires
                                big == 0x100_0000,
                                d >= 1,
                                scale >= 0x200_0000_0000,
                        ;
                    }
                }
            }
            t = t + 1;
            scale = scale * 2;
        }
        assert(d * scale <= n) by (nonlinear_arith)
            requires
                big * d * scale <= 2 * n,
                big == 0x100_0000,
        ;
        let den = d * scale;
        proof {
            assert(den >= 1) by (nonlinear_arith)
                requires
                    d >= 1,
                    scale >= 1,
                    den == d * scale,
            ;
            lemma_rne_le(n as nat, den as nat);
            assert(n / den <= n) by (nonlinear_arith)
                requires
                    den >= 1,
            ;
        }
        let q = rne_u128(n, den);
        proof {
            assert(n < big * den) by (nonlinear_arith)
                requires
                    n < big * d * scale,
                    den == d * scale,
            ;
            assert(n / den < big) by (nonlinear_arith)
                requires
                    n < big * den,
                    den >= 1,
            ;
            assert(scale <= n) by (nonlinear_arith)
                requires
                    d * scale <= n,
                    d >= 1,
            ;
            assert(10 * q * scale <= 10 * (big + 1) * n) by (nonlinear_arith)
                requires
                    q <= big + 1,
                    scale <= n,
            ;
            assert(10 * (big + 1) * n < 0x1_0000_0000_0000_0000_0000_0000_0000) by (nonlinear_arith)
                requires
                    big == 0x100_0000,
                    n < 10_000_000_000_000_000_000,
            ;
        }
        10 * q * scale
    } else {
        let lim: u128 = 0x80_0000;
        let mut s: u32 = 0;
        let mut scale: u128 = 1;
        proof {
            reveal_with_fuel(p2, 1);
        }
        while n * scale < lim * d
            invariant
                s <= 88,
                scale == p2(s as nat),
                1 <= scale,
                0 < n,
                1 <= d <= 10_000_000_000_000_000_000,
                lim == 0x80_0000,
                lim == p2(23),
                n * scale < 2 * lim * d,
                up_shift(n as nat, d as nat, 0) == up_shift(n as nat, d as nat, s as nat),
            decreases 88 - s,
        {
            proof {
                lemma_up_step(n as nat, d as nat, s as nat);
                assert(n * (2 * scale) == 2 * (n * scale)) by (nonlinear_arith);
                assert(scale < lim * d) by (nonlinear_arith)
                    requires
                        n * scale < lim * d,
                        n >= 1,
                ;
                assert(s < 88) by {
                    if s >= 88 {
                        lemma_p2_mono(88, s as nat);
                        reveal_with_fuel(p2, 89);
                    }
                }
            }
            s = s + 1;
            scale = scale * 2;
        }
        let q = rne_u128(n * scale, d);
        proof {
            lemma_rne_le((n * scale) as nat, d as nat);
            assert((n * scale) as nat / (d as nat) < 2 * lim) by (nonlinear_arith)
                requires
                    n * scale < 2 * lim * d,
                    d >= 1,
            ;
            lemma_p2_pos(s as nat);
        }
        rne_u128(10 * q, scale)
    }
}

/// The digit value of `cs[from..to]`, or `None` from `10^19` up.
fn digits_in(cs: &Vec<char>, from: usize, to: usize, acc: u128) -> (r: Option<u128>)
    requires
        from <= to <= cs.len(),
        all_digits(cs@.subrange(from as int, to as int)),
        acc < 10_000_000_000_000_000_000,
    ensures
        match r {
            Some(v) => v < 10_000_000_000_000_000_000 && v as nat == acc * p10((to - from) as nat)
                + digits_value(cs@.subrange(from as int, to as int)),
            None => acc * p10((to - from) as nat) + digits_value(cs@.subrange(from as int, to as int))
                >= 10_000_000_000_000_000_000,
        },
    decreases to - from,
{
    if from == to {
        assert(cs@.subrange(from as int, to as int) =~= Seq::<char>::empty());
        assert(p10(0) == 1);
        assert(digits_value(cs@.subrange(from as int, to as int)) == 0);
        assert(acc * 1 == acc);
        return Some(acc);
    }
    let ghost rest = cs@.subrange(from as int, to as int);
    assert(is_digit(rest[0]));
    let c = cs[from];
    let dg = (c as u32 - '0' as u32) as u128;
    let next = acc * 10 + dg;
    assert(cs@.subrange(from + 1, to as int) =~= rest.drop_first());
    assert(all_digits(cs@.subrange(from + 1, to as int)));
    proof {
        lemma_digits_front(rest);
        lemma_digits_bound(rest.drop_first());
        lemma_p10_step((to - from - 1) as nat);
        lemma_p10_pos((to - from - 1) as nat);
    }
    if next >= 10_000_000_000_000_000_000 {
        proof {
            assert(next * p10((to - from - 1) as nat) >= next) by (nonlinear_arith)
                requires
                    p10((to - from - 1) as nat) >= 1,
            ;
            assert(acc * p10((to - from) as nat) + digits_value(rest) == next * p10(
                (to - from - 1) as nat,
            ) + digits_value(rest.drop_first())) by (nonlinear_arith)
                requires
                    p10((to - from) as nat) == 10 * p10((to - from - 1) as nat),
                    digits_value(rest) == dg * p10((to - from - 1) as nat) + digits_value(
                        rest.drop_first(),
                    ),
                    next == acc * 10 + dg,
            ;
        }
        return None;
    }
    let r = digits_in(cs, from + 1, to, next);
    proof {
        assert(acc * p10((to - from) as nat) + digits_value(rest) == next * p10(
            (to - from - 1) as nat,
        ) + digits_value(rest.drop_first())) by (nonlinear_arith)
            requires
                p10((to - from) as nat) == 10 * p10((to - from - 1) as nat),
                digits_value(rest) == dg * p10((to - from - 1) as nat) + digits_value(
                    rest.drop_first(),
                ),
                next == acc * 10 + dg,
        ;
    }
    r
}

proof fn lemma_digits_bound(s: Seq<char>)
    requires
        all_digits(s),
    ensures
        digits_value(s) < p10(s.len()),
    decreases s.len(),
{
    if s.len() > 0 {
        assert(all_digits(s.drop_last())) by {
            assert forall|i: int| 0 <= i < s.drop_last().len() implies is_digit(
                #[trigger] s.drop_last()[i],
            ) by {
                assert(s.drop_last()[i] == s[i]);
            }
        }
        lemma_digits_bound(s.drop_last());
        assert(is_digit(s[s.len() - 1]));
    }
}

/// Value of a digit string split after its first digit.
proof fn lemma_digits_front(s: Seq<char>)
    requires
        s.len() > 0,
        all_digits(s),
    ensures
        digits_value(s) == (s[0] as nat - '0' as nat) * p10((s.len() - 1) as nat) + digits_value(
            s.drop_first(),
        ),
    decreases s.len(),
{
    if s.len() == 1 {
        assert(s.drop_first() =~= Seq::<char>::empty());
        assert(s.drop_last() =~= Seq::<char>::empty());
        assert(p10(0) == 1);
        assert(s.last() == s[0]);
    } else {
        assert(is_digit(s[0]));
        assert(all_digits(s.drop_last())) by {
            assert forall|i: int| 0 <= i < s.drop_last().len() implies is_digit(
                #[trigger] s.drop_last()[i],
            ) by {
                assert(s.drop_last()[i] == s[i]);
            }
        }
        lemma_digits_front(s.drop_last());
        assert(s.drop_last().drop_first() =~= s.drop_first().drop_last());
        assert(s.drop_last()[0] == s[0]);
        assert(s.drop_first().last() == s.last());
        lemma_p10_step((s.len() - 2) as nat);
        let d0 = s[0] as nat - '0' as nat;
        let a = digits_value(s.drop_first().drop_last());
        let e = p10((s.len() - 2) as nat);
        let l = (s.last() as nat - '0' as nat) as nat;
        assert(digits_value(s) == 10 * digits_value(s.drop_last()) + l);
        assert(digits_value(s.drop_first()) == 10 * a + l);
        assert(digits_value(s.drop_last()) == d0 * e + a);
        assert(10 * (d0 * e + a) == d0 * (10 * e) + 10 * a) by (nonlinear_arith);
    }
}

/// Value of the concatenation of two digit strings.
proof fn lemma_digits_concat(a: Seq<char>, b: Seq<char>)
    ensures
        digits_value(a + b) == digits_value(a) * p10(b.len()) + digits_value(b),
    decreases b.len(),
{
    if b.len() == 0 {
        assert(a + b =~= a);
        assert(p10(0) == 1);
    } else {
        lemma_digits_concat(a, b.drop_last());
        assert((a + b).drop_last() =~= a + b.drop_last());
        assert((a + b).last() == b.last());
        lemma_p10_step((b.len() - 1) as nat);
        let x = digits_value(a);
        let e = p10((b.len() - 1) as nat);
        let y = digits_value(b.drop_last());
        let l = (b.last() as nat - '0' as nat) as nat;
        assert(digits_value(a + b) == 10 * digits_value(a + b.drop_last()) + l);
        assert(digits_value(b) == 10 * y + l);
        assert(10 * (x * e + y) == x * (10 * e) + 10 * y) by (nonlinear_arith);
    }
}

/// `true` when `cs[from..to]` is all decimal digits.
fn all_digit_chars(cs: &Vec<char>, from: usize, to: usize) -> (r: bool)
    requires
        from <= to <= cs.len(),
    ensures
        r == all_digits(cs@.subrange(from as int, to as int)),
{
    let mut i = from;
    while i < to
        invariant
            from <= i <= to <= cs.len(),
            forall|k: int| from <= k < i ==> is_digit(#[trigger] cs@[k]),
        decreases to - i,
    {
        if !('0' <= cs[i] && cs[i] <= '9') {
            assert(!is_digit(cs@.subrange(from as int, to as int)[i - from]));
            return false;
        }
        i = i + 1;
    }
    assert forall|k: int| 0 <= k < to - from implies is_digit(
        #[trigger] cs@.subrange(from as int, to as int)[k],
    ) by {
        assert(cs@.subrange(from as int, to as int)[k] == cs@[from + k]);
    }
    true
}

/// Digit value and fraction length of a plain decimal literal `bs`
/// (unsigned), when in range.
fn parse_decimal(bs: &Vec<char>) -> (r: Option<(u128, usize)>)
    ensures
        match r {
            Some((v, k)) => decimal_parts_of(bs@) matches Some((a, b)) && in_range(a, b)
                && v as nat == digits_value(a + b) && k == b.len(),
            None => decimal_parts_of(bs@) matches Some((a, b)) ==> !in_range(a, b),
        },
{
    let m = bs.len();
    let (int_end, frac_start) = match crate::typec::find_char(bs, '.', 0) {
        Some(k) => {
            proof {
                crate::typec::lemma_find_from_bound(bs@, '.', 0);
            }
            (k, k + 1)
        },
        None => (m, m),
    };
    if !all_digit_chars(bs, 0, int_end) || !all_digit_chars(bs, frac_start, m) {
        return None;
    }
    let ghost a = bs@.subrange(0, int_end as int);
    let ghost b = bs@.subrange(frac_start as int, m as int);
    assert(int_end == m ==> b =~= Seq::<char>::empty());
    assert(int_end == m ==> a =~= bs@);
    if int_end + (m - frac_start) == 0 {
        return None;
    }
    assert(decimal_parts_of(bs@) == Some((a, b)));
    let frac_len = m - frac_start;
    proof {
        lemma_digits_concat(a, b);
        lemma_p10_pos(b.len());
    }
    let ia = match digits_in(bs, 0, int_end, 0) {
        Some(v) => v,
        None => {
            proof {
                assert(digits_value(a) * p10(b.len()) >= digits_value(a)) by (nonlinear_arith)
                    requires
                        p10(b.len()) >= 1,
                ;
            }
            return None;
        },
    };
    assert(ia as nat == digits_value(a)) by {
        assert(0 * p10(int_end as nat) == 0);
    }
    let whole = match digits_in(bs, frac_start, m, ia) {
        Some(v) => v,
        None => {
            return None;
        },
    };
    if frac_len > 19 {
        return None;
    }
    Some((whole, frac_len))
}

/// The decimal parts of an unsigned literal.
pub open spec fn decimal_parts_of(body: Seq<char>) -> Option<(Seq<char>, Seq<char>)> {
    match find_from(body, '.', 0) {
        Some(k) => {
            let a = body.subrange(0, k as int);
            let b = body.subrange(k + 1int, body.len() as int);
            if all_digits(a) && all_digits(b) && a.len() + b.len() > 0 {
                Some((a, b))
            } else {
                None
            }
        },
        None => if all_digits(body) && body.len() > 0 {
            Some((body, Seq::empty()))
        } else {
            None
        },
    }
}

/// `"-"` when `neg`, then the tenths of `whole / 10^k` as a binary32.
fn render(neg: bool, whole: u128, k: usize) -> (r: String)
    requires
        whole < 10_000_000_000_000_000_000,
        k <= 19,
    ensures
        r@ == (if neg {
            "-"@
        } else {
            Seq::empty()
        }) + fixed_seq(binary32_tenths(whole as nat, p10(k as nat)), 1),
{
    let d = pow10(k as u32);
    proof {
        lemma_p10_mono(k as nat, 19);
        lemma_p10_19();
        lemma_p10_pos(k as nat);
        reveal_strlit("-");
        reveal_strlit(".");
        reveal_with_fuel(p10, 2);
    }
    let t: u128 = if whole == 0 {
        0
    } else {
        tenths(whole, d)
    };
    let mut r = if neg {
        owned("-")
    } else {
        String::new()
    };
    push_str(&mut r, dec_string(t / 10).as_str());
    push_str(&mut r, ".");
    push_str(&mut r, dec_padded(t % 10, 1).as_str());
    r
}

/// Canonical short form of a `bcdUSB` version string (`"2.10"` → `"2.1"`,
/// `"4.00"` → `"4.0"`); empty when the string is empty or not a number.
pub fn canonical_usb_version(bcd: &str) -> (r: String)
    ensures
        r@ == version_text(bcd@),
{
    let cs = chars_of(bcd);
    let n = cs.len();
    if n == 0 {
        return String::new();
    }
    let neg = cs[0] == '-';
    let start: usize = if cs[0] == '-' || cs[0] == '+' {
        1
    } else {
        0
    };
    let body_text = crate::text::substring(bcd, start, n);
    let bs = chars_of(body_text.as_str());
    assert(bs@ =~= unsigned_part(bcd@));
    let body_l = crate::text::lower_chars(body_text.as_str());
    proof {
        reveal_strlit("inf");
        reveal_strlit("infinity");
        reveal_strlit("nan");
        reveal_strlit("-inf");
        reveal_strlit("NaN");
    }
    if crate::text::vec_is(&body_l, "inf") || crate::text::vec_is(&body_l, "infinity") {
        return if neg {
            owned("-inf")
        } else {
            owned("inf")
        };
    }
    if crate::text::vec_is(&body_l, "nan") {
        return owned("NaN");
    }
    assert(decimal_parts(bcd@) == decimal_parts_of(bs@));
    match parse_decimal(&bs) {
        Some((whole, k)) => render(neg, whole, k),
        None => String::new(),
    }
}

} // verus!
