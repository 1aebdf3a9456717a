//! The shortest decimal text that reads as a given double.

use vstd::prelude::*;
use crate::digits::{
    all_digits, copy_from, digits_of, extend, increment, is_less, lemma_power_product,
    lemma_total_bound, lemma_total_split, lemma_written_dec, lemma_written_split, scale_digits,
    scale_often, shift_up, tight, tighten, total, write_down, write_with_point, written,
};
use crate::double::{
    lemma_power_positive, lemma_power_sum, lemma_quotient, nearest, power, rounding_keeps_doubles,
    split, units, Double, HIDDEN, INFINITE, SIGN,
};
use crate::double_order::{doubles_round_from_their_interval, fractions_round_alike, lemma_units_of};
use crate::double_text::with_point;
use crate::text::{dec, dec_int, decimal_int};

verus! {

/// The magnitude of the double nearest to ten to the power of 16.
pub const LARGE: u64 = 0x4341_c379_37e0_8000;

/// The magnitude of the double nearest to ten to the power of -4.
pub const SMALL: u64 = 0x3f1a_36e2_eb1c_432d;

/// The doublings that a magnitude and the middles to its neighbours have in common.
spec fn doublings(a: nat) -> nat {
    if a < 0x20_0000_0000_0000 {
        0
    } else {
        (a / 0x10_0000_0000_0000 - 2) as nat
    }
}

/// Decimal places that suffice to write a magnitude exactly.
pub closed spec fn places(a: nat) -> nat {
    if doublings(a) >= 1074 {
        0
    } else {
        (1074 - doublings(a)) as nat
    }
}

/// A magnitude's exact value, counted in the last of its places.
pub open spec fn exact(a: nat) -> nat {
    units(a) * power(10, places(a)) / power(2, 1074)
}

/// The decimal `n`, counted in the same place, reads as the magnitude: that is the nearest double.
pub open spec fn reads(n: nat, a: nat) -> bool {
    nearest(n * power(2, 1074), power(10, places(a))) == a
}

/// The value cut off above its `c` lowest digits.
pub open spec fn cut_off(a: nat, c: nat) -> nat {
    exact(a) / power(10, c)
}

/// With the `c` lowest digits cut off, rounding down or up gives a decimal that reads as the
/// magnitude.
pub open spec fn survives(a: nat, c: nat) -> bool {
    reads(cut_off(a, c) * power(10, c), a) || reads((cut_off(a, c) + 1) * power(10, c), a)
}

/// The most digits, up to `c`, that can be cut off.
pub open spec fn most_cut(a: nat, c: nat) -> nat
    decreases c,
{
    if c == 0 || survives(a, c) {
        c
    } else {
        most_cut(a, (c - 1) as nat)
    }
}

/// The shortest decimal that reads as the magnitude: its digits, and how many lower ones were cut
/// off. Where rounding down and up both give one, it is the nearer of the two, the upper one in
/// the middle.
pub open spec fn shortest(a: nat) -> (nat, nat) {
    let c = most_cut(a, dec(exact(a)).len());
    let n = cut_off(a, c);
    let p = power(10, c);
    if reads((n + 1) * p, a) && (!reads(n * p, a) || 2 * (exact(a) % p) >= p) {
        (n + 1, c)
    } else {
        (n, c)
    }
}

/// `n * 10^e` with one digit in front of the point.
pub open spec fn scientific(n: nat, e: int) -> Seq<char> {
    let d = dec(n);
    if d.len() == 1 {
        d + "e"@ + dec_int(e)
    } else {
        d.subrange(0, 1).push('.') + d.subrange(1, d.len() as int) + "e"@ + dec_int(
            e + d.len() - 1,
        )
    }
}

/// A finite magnitude in the fewest digits that tell it from all others: at least one behind the
/// point, and with an exponent where it is very large or very small.
pub open spec fn magnitude_digits(a: nat) -> Seq<char> {
    if a == 0 {
        "0.0"@
    } else {
        let (n, c) = shortest(a);
        let p = places(a);
        if a >= LARGE || a < SMALL {
            scientific(n, c - p)
        } else if c >= p {
            dec(n * power(10, (c - p) as nat)) + ".0"@
        } else {
            with_point(n, (p - c) as nat)
        }
    }
}

/// A finite magnitude in the fewest digits that tell it from all others, without an exponent.
pub open spec fn plain_digits(a: nat) -> Seq<char> {
    if a == 0 {
        "0"@
    } else {
        let (n, c) = shortest(a);
        let p = places(a);
        if c >= p {
            dec(n * power(10, (c - p) as nat))
        } else {
            with_point(n, (p - c) as nat)
        }
    }
}

/// The power of two or five that takes mantissas to the last place.
spec fn weight(a: nat) -> nat {
    if doublings(a) >= 1074 {
        power(2, (doublings(a) - 1074) as nat)
    } else {
        power(5, places(a))
    }
}

proof fn lemma_weight(a: nat)
    ensures
        power(2, doublings(a)) * power(10, places(a)) == weight(a) * power(2, 1074),
        weight(a) > 0,
{
    let e = doublings(a);
    let p = places(a);
    if e >= 1074 {
        lemma_power_sum(2, (e - 1074) as nat, 1074);
        lemma_power_positive(2, (e - 1074) as nat);
        assert((e - 1074) as nat + 1074 == e);
        assert(power(10, 0) == 1);
        assert(power(2, e) * 1 == power(2, e));
    } else {
        lemma_power_sum(2, e, p);
        lemma_power_product(p);
        lemma_power_positive(5, p);
        assert(e + p == 1074);
        assert(power(2, e) * (power(2, p) * power(5, p)) == power(5, p) * (power(2, e) * power(
            2,
            p,
        ))) by (nonlinear_arith);
    }
}

/// A mantissa counted in the last place.
proof fn lemma_in_last_place(a: nat, m: nat)
    ensures
        (m * power(2, doublings(a))) * power(10, places(a)) == (m * weight(a)) * power(2, 1074),
{
    lemma_weight(a);
    let (x, y, w, one) = (
        power(2, doublings(a)),
        power(10, places(a)),
        weight(a),
        power(2, 1074),
    );
    assert((m * x) * y == (m * w) * one) by (nonlinear_arith)
        requires
            x * y == w * one,
    ;
}

/// The mantissas of a magnitude and of twice the middles to its neighbours.
struct Mantissas {
    own: u64,
    low: u64,
    high: u64,
    doublings: u32,
}

spec fn mantissas_of(m: Mantissas, a: nat) -> bool {
    &&& m.doublings == doublings(a)
    &&& m.doublings <= 2044
    &&& m.own > 0
    &&& units(a) == m.own * power(2, doublings(a))
    &&& units((a - 1) as nat) + units(a) == m.low * power(2, doublings(a))
    &&& units(a) + units(a + 1) == m.high * power(2, doublings(a))
}

fn mantissas(a: u64) -> (r: Mantissas)
    requires
        0 < a < INFINITE,
    ensures
        mantissas_of(r, a as nat),
{
    let (m, k): (u64, u32) = split(a);
    let ghost n = a as nat;
    let ghost p = power(2, k as nat);
    proof {
        lemma_units_of((m + 1) as nat, k as nat);
        assert(k * 0x10_0000_0000_0000 + (m + 1) == a + 1);
        assert(units(n + 1) == (m + 1) * p);
        assert((m + 1) * p == m * p + p) by (nonlinear_arith);
    }
    if k == 0 {
        proof {
            assert(p == 1);
            assert(m * p == m) by (nonlinear_arith)
                requires
                    p == 1,
            ;
            lemma_units_of((m - 1) as nat, 0);
            assert(units((n - 1) as nat) == m - 1) by (nonlinear_arith)
                requires
                    units((n - 1) as nat) == (m - 1) * p,
                    p == 1,
            ;
            assert(doublings(n) == 0);
            assert(m * power(2, 0) == m && (2 * m - 1) * power(2, 0) == 2 * m - 1 && (2 * m + 1)
                * power(2, 0) == 2 * m + 1) by (nonlinear_arith)
                requires
                    power(2, 0) == 1,
            ;
        }
        return Mantissas { own: m, low: 2 * m - 1, high: 2 * m + 1, doublings: 0 };
    }
    let e: u32 = k - 1;
    let ghost q = power(2, e as nat);
    proof {
        assert(p == 2 * q);
        assert(doublings(n) == e) by {
            assert(n / 0x10_0000_0000_0000 == k + 1);
        }
        assert(m * p == (2 * m) * q && m * p + (m + 1) * p == (4 * m + 2) * q) by (nonlinear_arith)
            requires
                p == 2 * q,
        ;
    }
    if m == HIDDEN {
        proof {
            let below: nat = 0x1f_ffff_ffff_ffff;
            lemma_units_of(below, e as nat);
            assert(e * 0x10_0000_0000_0000 + below == n - 1);
            assert(below * q + m * p == (4 * m - 1) * q) by (nonlinear_arith)
                requires
                    p == 2 * q,
                    below == 2 * m - 1,
            ;
        }
        Mantissas { own: 2 * m, low: 4 * m - 1, high: 4 * m + 2, doublings: e }
    } else {
        proof {
            lemma_units_of((m - 1) as nat, k as nat);
            assert(k * 0x10_0000_0000_0000 + (m - 1) == n - 1);
            assert((m - 1) * p + m * p == (4 * m - 2) * q) by (nonlinear_arith)
                requires
                    p == 2 * q,
            ;
        }
        Mantissas { own: 2 * m, low: 4 * m - 2, high: 4 * m + 2, doublings: e }
    }
}

/// A decimal reads as a magnitude where twice its value lies between the middles to the
/// neighbours, counted in the last place.
proof fn lemma_reads(n: nat, a: nat, m: Mantissas)
    requires
        0 < a < INFINITE,
        mantissas_of(m, a),
    ensures
        reads(n, a) == (if a % 2 == 0 {
            m.low * weight(a) <= 2 * n <= m.high * weight(a)
        } else {
            m.low * weight(a) < 2 * n < m.high * weight(a)
        }),
{
    let one = power(2, 1074);
    lemma_power_positive(2, 1074);
    lemma_power_positive(10, places(a));
    doubles_round_from_their_interval(n * one, power(10, places(a)), a);
    lemma_in_last_place(a, m.low as nat);
    lemma_in_last_place(a, m.high as nat);
    let (x, y) = (m.low * weight(a), m.high * weight(a));
    assert(2 * (n * one) == (2 * n) * one) by (nonlinear_arith);
    assert((x * one <= (2 * n) * one) == (x <= 2 * n) && ((2 * n) * one <= y * one) == (2 * n
        <= y) && (x * one < (2 * n) * one) == (x < 2 * n) && ((2 * n) * one < y * one) == (2 * n
        < y)) by (nonlinear_arith)
        requires
            one > 0,
    ;
}

/// The value in the last place.
proof fn lemma_exact_value(a: nat, m: Mantissas)
    requires
        0 < a < INFINITE,
        mantissas_of(m, a),
    ensures
        exact(a) == m.own * weight(a),
        exact(a) > 0,
        exact(a) * power(2, 1074) == units(a) * power(10, places(a)),
{
    let one = power(2, 1074);
    lemma_power_positive(2, 1074);
    lemma_in_last_place(a, m.own as nat);
    lemma_weight(a);
    let v = m.own * weight(a);
    assert(v > 0) by (nonlinear_arith)
        requires
            v == m.own * weight(a),
            m.own > 0,
            weight(a) > 0,
    ;
    lemma_quotient((v * one) as nat, one, v as nat, 0);
}

/// The digits of a mantissa counted in the last place.
fn in_last_place(m: u64, e: u32, Ghost(a): Ghost<nat>) -> (r: Vec<u8>)
    requires
        e == doublings(a),
        e <= 2044,
    ensures
        all_digits(r@),
        total(r@) == m * weight(a),
        r@.len() <= 1094,
        tight(r@),
{
    let mut digits: Vec<u8> = digits_of(m);
    if e >= 1074 {
        scale_often(&mut digits, 2, e - 1074);
    } else {
        scale_often(&mut digits, 5, 1074 - e);
    }
    digits
}

/// Whether `n * 10^c` reads as a magnitude.
fn reads_back(n: &Vec<u8>, c: usize, low: &Vec<u8>, high: &Vec<u8>, a: u64, m: &Mantissas) -> (r:
    bool)
    requires
        0 < a < INFINITE,
        mantissas_of(*m, a as nat),
        all_digits(n@),
        n@.len() <= 1095,
        c <= 1094,
        all_digits(low@),
        all_digits(high@),
        low@.len() <= 1094,
        high@.len() <= 1094,
        total(low@) == m.low * weight(a as nat),
        total(high@) == m.high * weight(a as nat),
    ensures
        r == reads(total(n@) * power(10, c as nat), a as nat),
{
    let mut twice: Vec<u8> = shift_up(n, c);
    scale_digits(&mut twice, 2);
    proof {
        lemma_reads(total(n@) * power(10, c as nat), a as nat, *m);
    }
    if a % 2 == 0 {
        !is_less(&twice, low) && !is_less(high, &twice)
    } else {
        is_less(low, &twice) && is_less(&twice, high)
    }
}

/// The digits of the shortest decimal, and how many lower ones were cut off.
fn shortest_digits(a: u64) -> (r: (Vec<u8>, usize))
    requires
        0 < a < INFINITE,
    ensures
        (total(r.0@), r.1 as nat) == shortest(a as nat),
        all_digits(r.0@),
        r.0@.len() <= 1095,
        r.1 <= 1094,
{
    let m: Mantissas = mantissas(a);
    let ghost n = a as nat;
    let value: Vec<u8> = in_last_place(m.own, m.doublings, Ghost(n));
    let low: Vec<u8> = in_last_place(m.low, m.doublings, Ghost(n));
    let high: Vec<u8> = in_last_place(m.high, m.doublings, Ghost(n));
    let ghost v = exact(n);
    proof {
        lemma_exact_value(n, m);
        if value@.len() == 0 {
            assert(total(value@) == 0);
        }
        lemma_written_dec(value@);
        lemma_written_split(value@, 0);
        assert(dec(v).len() == value@.len());
    }
    let mut c: usize = value.len();
    loop
        invariant
            0 < a < INFINITE,
            n == a as nat,
            mantissas_of(m, n),
            v == exact(n) == total(value@),
            all_digits(value@),
            c <= value@.len() <= 1094,
            all_digits(low@),
            all_digits(high@),
            low@.len() <= 1094,
            high@.len() <= 1094,
            total(low@) == m.low * weight(n),
            total(high@) == m.high * weight(n),
            most_cut(n, dec(v).len()) == most_cut(n, c as nat),
        decreases c,
    {
        let down: Vec<u8> = copy_from(&value, c);
        let mut up: Vec<u8> = copy_from(&value, c);
        increment(&mut up);
        proof {
            let p = power(10, c as nat);
            lemma_power_positive(10, c as nat);
            lemma_total_split(value@, c as int);
            let below = value@.subrange(0, c as int);
            lemma_total_bound(below);
            assert(p * total(down@) == total(down@) * p) by (nonlinear_arith);
            lemma_quotient(v, p, total(down@), total(below));
        }
        let down_reads: bool = reads_back(&down, c, &low, &high, a, &m);
        let up_reads: bool = reads_back(&up, c, &low, &high, a, &m);
        if c == 0 || down_reads || up_reads {
            let nearer_up: bool = c > 0 && value[c - 1] >= 5;
            proof {
                lemma_upper_half(value@, c as int);
            }
            return if up_reads && (!down_reads || nearer_up) {
                (up, c)
            } else {
                (down, c)
            };
        }
        c -= 1;
    }
}

/// The digits cut off make up half of their range or more where the highest of them is a five or
/// more.
proof fn lemma_upper_half(digits: Seq<u8>, c: int)
    requires
        all_digits(digits),
        0 <= c <= digits.len(),
    ensures
        (2 * (total(digits) % power(10, c as nat)) >= power(10, c as nat)) == (c > 0
            && digits[c - 1] >= 5),
{
    let p = power(10, c as nat);
    lemma_power_positive(10, c as nat);
    lemma_total_split(digits, c);
    let below = digits.subrange(0, c);
    let above = total(digits.subrange(c, digits.len() as int));
    lemma_total_bound(below);
    assert(p * above == above * p) by (nonlinear_arith);
    lemma_quotient(total(digits), p, above, total(below));
    if c > 0 {
        let q = power(10, (c - 1) as nat);
        let d = digits[c - 1] as nat;
        assert(below.last() == digits[c - 1]);
        lemma_total_bound(below.drop_last());
        assert(p == 10 * q);
        if d >= 5 {
            assert(d * q >= 5 * q) by (nonlinear_arith)
                requires
                    d >= 5,
            ;
        } else {
            assert(d * q + q <= 5 * q) by (nonlinear_arith)
                requires
                    d <= 4,
            ;
        }
    }
}

fn write_scientific(digits: Vec<u8>, e: i128) -> (r: String)
    requires
        all_digits(digits@),
        digits@.len() <= 1095,
        -10_000 <= e <= 10_000,
    ensures
        r@ == scientific(total(digits@), e as int),
{
    let mut digits = digits;
    let ghost n = total(digits@);
    extend(&mut digits, 0);
    tighten(&mut digits, 1);
    let k: usize = digits.len();
    let mut out = String::new();
    write_down(&mut out, &digits, k - 1, k);
    let ghost all = digits@;
    proof {
        lemma_written_dec(all);
        lemma_written_split(all, k - 1);
        lemma_written_split(all.subrange(k - 1, k as int), 0);
        lemma_written_split(all.subrange(0, k - 1), 0);
        assert(out@ =~= written(all.subrange(k - 1, k as int)));
        let d = dec(n);
        assert(d.subrange(0, 1) =~= out@);
        assert(d.subrange(1, d.len() as int) =~= written(all.subrange(0, k - 1)));
    }
    if k > 1 {
        out.push('.');
        write_down(&mut out, &digits, 0, k - 1);
    } else {
        assert(dec(n) =~= out@);
    }
    out.append("e");
    let exponent: i128 = e + (k as i128 - 1);
    out.append(decimal_int(exponent).as_str());
    out
}

fn exact_places(a: u64) -> (r: usize)
    ensures
        r == places(a as nat),
        r <= 1074,
{
    let doubled: usize = if a < 0x20_0000_0000_0000 {
        0
    } else {
        (a / HIDDEN - 2) as usize
    };
    if doubled >= 1074 {
        0
    } else {
        1074 - doubled
    }
}

fn write_plain(a: u64) -> (r: String)
    requires
        a < INFINITE,
    ensures
        r@ == plain_digits(a as nat),
{
    if a == 0 {
        return String::from_str("0");
    }
    let (n, c): (Vec<u8>, usize) = shortest_digits(a);
    let p: usize = exact_places(a);
    if c >= p {
        write_with_point(shift_up(&n, c - p), 0)
    } else {
        write_with_point(n, p - c)
    }
}

fn write_magnitude(a: u64) -> (r: String)
    requires
        a < INFINITE,
    ensures
        r@ == magnitude_digits(a as nat),
{
    if a == 0 {
        return String::from_str("0.0");
    }
    let (n, c): (Vec<u8>, usize) = shortest_digits(a);
    let p: usize = exact_places(a);
    if a >= LARGE || a < SMALL {
        write_scientific(n, c as i128 - p as i128)
    } else if c >= p {
        let shifted: Vec<u8> = shift_up(&n, c - p);
        let mut out = write_with_point(shifted, 0);
        out.append(".0");
        out
    } else {
        write_with_point(n, p - c)
    }
}

impl Double {
    /// The number in the fewest digits that tell it from all others.
    pub open spec fn shortest_text(self) -> Seq<char> {
        if self.nan() {
            "NaN"@
        } else {
            let body = if self.infinite() {
                "inf"@
            } else {
                magnitude_digits(self.magnitude())
            };
            if self.negative() {
                "-"@ + body
            } else {
                body
            }
        }
    }

    /// The same without an exponent, and without a point where the number is whole.
    pub open spec fn plain_text(self) -> Seq<char> {
        if self.nan() {
            "NaN"@
        } else {
            let body = if self.infinite() {
                "inf"@
            } else {
                plain_digits(self.magnitude())
            };
            if self.negative() {
                "-"@ + body
            } else {
                body
            }
        }
    }

    pub fn plain(self) -> (r: String)
        ensures
            r@ == self.plain_text(),
    {
        if self.is_nan() {
            return String::from_str("NaN");
        }
        let a: u64 = self.bits % SIGN;
        let body = if a == INFINITE {
            String::from_str("inf")
        } else {
            write_plain(a)
        };
        if self.bits >= SIGN {
            let mut out = String::from_str("-");
            out.append(body.as_str());
            out
        } else {
            body
        }
    }

    pub fn shortest(self) -> (r: String)
        ensures
            r@ == self.shortest_text(),
    {
        if self.is_nan() {
            return String::from_str("NaN");
        }
        let a: u64 = self.bits % SIGN;
        let body = if a == INFINITE {
            String::from_str("inf")
        } else {
            write_magnitude(a)
        };
        if self.bits >= SIGN {
            let mut out = String::from_str("-");
            out.append(body.as_str());
            out
        } else {
            body
        }
    }
}

/// The digits of the shortest decimal read as the double that they were made for.
pub proof fn the_shortest_decimal_reads_back(a: nat)
    requires
        0 < a < INFINITE,
    ensures
        reads(shortest(a).0 * power(10, shortest(a).1), a),
{
    let p = power(10, places(a));
    lemma_power_positive(10, places(a));
    lemma_whole_places(a);
    fractions_round_alike(units(a), 1, p);
    rounding_keeps_doubles(a);
    assert(1 * p == p);
    assert(reads(exact(a), a));
    assert(power(10, 0) == 1);
    assert(exact(a) / 1 == exact(a));
    assert(exact(a) * 1 == exact(a));
    assert(survives(a, 0));
    lemma_most_cut(a, dec(exact(a)).len());
}

proof fn lemma_most_cut(a: nat, c: nat)
    requires
        survives(a, 0),
    ensures
        survives(a, most_cut(a, c)),
    decreases c,
{
    if c > 0 && !survives(a, c) {
        lemma_most_cut(a, (c - 1) as nat);
    }
}

/// The places of a magnitude hold it exactly.
proof fn lemma_whole_places(a: nat)
    requires
        0 < a < INFINITE,
    ensures
        exact(a) * power(2, 1074) == units(a) * power(10, places(a)),
{
    let field = a / 0x10_0000_0000_0000;
    let fraction = a % 0x10_0000_0000_0000;
    let e = doublings(a);
    let m: nat = if field == 0 {
        fraction
    } else if field == 1 {
        0x10_0000_0000_0000 + fraction
    } else {
        2 * (0x10_0000_0000_0000 + fraction)
    };
    assert(power(2, 0) == 1);
    assert(units(a) == m * power(2, e)) by {
        if field <= 1 {
            assert(m * power(2, 0) == m) by (nonlinear_arith)
                requires
                    power(2, 0) == 1,
            ;
        } else {
            let f: nat = 0x10_0000_0000_0000 + fraction;
            assert(power(2, (field - 1) as nat) == 2 * power(2, e));
            assert(f * (2 * power(2, e)) == (2 * f) * power(2, e)) by (nonlinear_arith);
        }
    }
    lemma_in_last_place(a, m);
    let one = power(2, 1074);
    lemma_power_positive(2, 1074);
    lemma_quotient((m * weight(a)) * one, one, m * weight(a), 0);
}

} // verus!
