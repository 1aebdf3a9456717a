//! The order of doubles: rounding keeps it, and so do the shares computed from them.

use vstd::prelude::*;
use crate::double::{
    adding_zero_keeps, excess, lemma_excess, lemma_nearest_scale, lemma_power_127, lemma_power_53,
    lemma_nearest_even_scale, lemma_power_le, lemma_power_positive, lemma_power_sum,
    lemma_quotient, nearest, nearest_even, one_is_whole,
    power, rounded, rounding_keeps_doubles, signed, small_wholes_are_exact, units,
    values_grow_with_magnitudes, whole, zero_divided_is_zero, Double, HUNDRED, ONE,
};

verus! {

/// What the excess of `n / d` says of `n`.
proof fn lemma_excess_bounds(n: nat, d: nat)
    requires
        d > 0,
    ensures
        n < 0x20_0000_0000_0000 * (d * power(2, excess(n, d))),
        excess(n, d) > 0 ==> n >= 0x10_0000_0000_0000 * (d * power(2, excess(n, d))),
    decreases n - d,
{
    let k = excess(n, d);
    if n < 0x20_0000_0000_0000 * d {
        assert(d * power(2, 0) == d) by (nonlinear_arith)
            requires
                power(2, 0) == 1,
        ;
    } else {
        lemma_excess_bounds(n, 2 * d);
        let p = power(2, (k - 1) as nat);
        assert(power(2, k) == 2 * p);
        assert((2 * d) * p == d * power(2, k)) by (nonlinear_arith)
            requires
                power(2, k) == 2 * p,
        ;
        if k == 1 {
            assert(power(2, 0) == 1);
            assert((2 * d) * p == 2 * d) by (nonlinear_arith)
                requires
                    p == 1,
            ;
        }
    }
}

proof fn lemma_excess_grows(a: nat, b: nat, d: nat)
    requires
        a <= b,
        d > 0,
    ensures
        excess(a, d) <= excess(b, d),
    decreases b - d,
{
    if a >= 0x20_0000_0000_0000 * d {
        lemma_excess_grows(a, b, 2 * d);
    }
}

proof fn lemma_nearest_even_grows(a: nat, b: nat, d: nat)
    requires
        a <= b,
        d > 0,
    ensures
        nearest_even(a, d) <= nearest_even(b, d),
{
    vstd::arithmetic::div_mod::lemma_fundamental_div_mod(a as int, d as int);
    vstd::arithmetic::div_mod::lemma_fundamental_div_mod(b as int, d as int);
    let (q, r) = (a / d, a % d);
    let (s, t) = (b / d, b % d);
    if q > s {
        assert(d * q >= d * s + d) by (nonlinear_arith)
            requires
                q >= s + 1,
                d > 0,
        ;
    }
}

/// Rounding to doubles keeps the order of fractions over one denominator.
pub proof fn rounding_keeps_order(a: nat, b: nat, d: nat)
    requires
        a <= b,
        d > 0,
    ensures
        nearest(a, d) <= nearest(b, d),
{
    let (j, k) = (excess(a, d), excess(b, d));
    lemma_excess_grows(a, b, d);
    lemma_excess_bounds(a, d);
    lemma_excess_bounds(b, d);
    lemma_power_positive(2, j);
    lemma_power_positive(2, k);
    let e = d * power(2, j);
    let f = d * power(2, k);
    assert(e > 0 && f > 0) by (nonlinear_arith)
        requires
            e == d * power(2, j),
            f == d * power(2, k),
            d > 0,
            power(2, j) > 0,
            power(2, k) > 0,
    ;
    if j == k {
        lemma_nearest_even_grows(a, b, e);
    } else {
        lemma_quotient(0x20_0000_0000_0000 * e, e, 0x20_0000_0000_0000, 0);
        lemma_nearest_even_grows(a, 0x20_0000_0000_0000 * e, e);
        lemma_quotient(0x10_0000_0000_0000 * f, f, 0x10_0000_0000_0000, 0);
        lemma_nearest_even_grows(0x10_0000_0000_0000 * f, b, f);
        assert((j + 1) * 0x10_0000_0000_0000 <= k * 0x10_0000_0000_0000);
    }
}

/// Whole numbers below 2^64 are finite doubles in their order, and positive ones stay positive.
pub proof fn wholes_keep_order(a: nat, b: nat)
    requires
        a <= b <= 0x1_0000_0000_0000_0000,
    ensures
        whole(a).finite() && whole(b).finite(),
        !whole(a).negative() && !whole(b).negative(),
        whole(a).magnitude() <= whole(b).magnitude(),
        b > 0 ==> whole(b).magnitude() > 0,
{
    let one = power(2, 1074);
    let top: nat = 1087 * 0x10_0000_0000_0000;
    lemma_power_positive(2, 1074);
    lemma_power_53();
    lemma_power_127();
    lemma_power_sum(2, 64, 1074);
    lemma_power_sum(2, 52, 1086);
    assert(64nat + 1074nat == 52nat + 1086nat);
    assert(top / 0x10_0000_0000_0000 == 1087 && top % 0x10_0000_0000_0000 == 0);
    assert(units(top) == 0x1_0000_0000_0000_0000 * one);
    assert(a * one <= b * one && b * one <= units(top)) by (nonlinear_arith)
        requires
            a <= b <= 0x1_0000_0000_0000_0000,
            units(top) == 0x1_0000_0000_0000_0000 * one,
    ;
    rounding_keeps_doubles(top);
    rounding_keeps_order(a * one, b * one, 1);
    rounding_keeps_order(b * one, units(top), 1);
    if b > 0 {
        one_is_whole();
        assert(1 * one <= b * one) by (nonlinear_arith)
            requires
                b >= 1,
        ;
        rounding_keeps_order(1 * one, b * one, 1);
    }
}

/// A positive number divided by itself is one.
pub proof fn lemma_own_quotient(x: Double)
    requires
        x.finite(),
        !x.negative(),
        x.magnitude() > 0,
    ensures
        x.quotient(x) == (Double { bits: ONE }),
{
    assert(units(0) == 0);
    values_grow_with_magnitudes(0, x.magnitude());
    let u = units(x.magnitude());
    let one = power(2, 1074);
    let p = power(2, 1022);
    lemma_power_53();
    lemma_power_positive(2, 1022);
    lemma_power_sum(2, 52, 1022);
    assert(52nat + 1022nat == 1074nat);
    assert(power(2, 1075) == 2 * one);
    assert(u * one < u * power(2, 1075)) by (nonlinear_arith)
        requires
            u > 0,
            power(2, 1075) == 2 * one,
            one == power(2, 52) * p,
            power(2, 52) > 0,
            p > 0,
    ;
    lemma_excess(u * one, u, 1022);
    assert(u * one == 0x10_0000_0000_0000 * (u * p)) by (nonlinear_arith)
        requires
            one == 0x10_0000_0000_0000 * p,
    ;
    assert(u * p > 0) by (nonlinear_arith)
        requires
            u > 0,
            p > 0,
    ;
    lemma_quotient(u * one, u * p, 0x10_0000_0000_0000, 0);
}

pub proof fn lemma_hundred()
    ensures
        units(HUNDRED as nat) == 100 * power(2, 1074),
        (Double { bits: ONE }).product(Double { bits: HUNDRED }) == (Double { bits: HUNDRED }),
        rounded(HUNDRED as nat) == 100,
{
    let one = power(2, 1074);
    lemma_power_positive(2, 1074);
    let h: nat = HUNDRED as nat;
    lemma_power_53();
    lemma_power_sum(2, 46, 1028);
    reveal_with_fuel(power, 9);
    assert(power(2, 52) == 64 * power(2, 46)) by {
        lemma_power_sum(2, 6, 46);
        assert(power(2, 6) == 64);
    }
    assert(46nat + 1028nat == 1074nat);
    assert(h / 0x10_0000_0000_0000 == 1029);
    assert(0x10_0000_0000_0000 + h % 0x10_0000_0000_0000 == 100 * power(2, 46));
    assert(units(h) == 100 * one) by (nonlinear_arith)
        requires
            units(h) == (100 * power(2, 46)) * power(2, 1028),
            one == power(2, 46) * power(2, 1028),
    ;
    one_is_whole();
    small_wholes_are_exact(1);
    assert(1 * one == one);
    assert(units(ONE as nat) == one);
    rounding_keeps_doubles(h);
    lemma_nearest_scale(units(h), 1, 1074);
    assert(units(ONE as nat) * units(h) == units(h) * one && 1 * one == one) by (nonlinear_arith)
        requires
            units(ONE as nat) == one,
    ;
    assert(2 * units(h) + one == 100 * (2 * one) + one);
    lemma_quotient(2 * units(h) + one, 2 * one, 100, one);
}

/// The share of `part` in `total`, in percent, as it is computed in double precision.
pub open spec fn percent_of(part: nat, total: nat) -> int {
    whole(part).quotient(whole(total)).product(Double { bits: HUNDRED }).rounded_i64()
}

pub proof fn lemma_units_grow(a: nat, b: nat)
    requires
        a <= b < 0x7ff0_0000_0000_0000,
    ensures
        units(a) <= units(b),
{
    if a < b {
        values_grow_with_magnitudes(a, b);
    }
}

/// A number that is not negative and not above the other.
pub open spec fn ordered(a: Double, b: Double) -> bool {
    a.finite() && b.finite() && !a.negative() && !b.negative() && a.magnitude() <= b.magnitude()
}

/// A quotient of numbers that are not negative is what their fraction is rounded to.
pub proof fn lemma_quotient_rounds(a: Double, c: Double)
    requires
        ordered(a, a),
        ordered(c, c),
        c.magnitude() > 0,
    ensures
        a.quotient(c).magnitude() == nearest(
            units(a.magnitude()) * power(2, 1074),
            units(c.magnitude()),
        ),
        !a.quotient(c).negative(),
{
    let m = nearest(units(a.magnitude()) * power(2, 1074), units(c.magnitude()));
    assert(m <= 0x7ff0_0000_0000_0000);
    assert(a.quotient(c) == signed(false, m));
}

#[verifier::spinoff_prover]
pub proof fn lemma_quotients_grow(a: Double, b: Double, c: Double)
    requires
        ordered(a, b),
        ordered(b, c),
        c.magnitude() > 0,
    ensures
        ordered(a.quotient(c), b.quotient(c)),
        ordered(b.quotient(c), Double { bits: ONE }),
{
    lemma_own_quotient(c);
    lemma_quotient_rounds(a, c);
    lemma_quotient_rounds(b, c);
    lemma_quotient_rounds(c, c);
    let one = power(2, 1074);
    let (x, y, z) = (units(a.magnitude()), units(b.magnitude()), units(c.magnitude()));
    assert(z > 0) by {
        assert(units(0) == 0);
        values_grow_with_magnitudes(0, c.magnitude());
    }
    lemma_units_grow(a.magnitude(), b.magnitude());
    lemma_units_grow(b.magnitude(), c.magnitude());
    lemma_scaled_order(x, y, one);
    lemma_scaled_order(y, z, one);
    rounding_keeps_order(x * one, y * one, z);
    rounding_keeps_order(y * one, z * one, z);
}

pub proof fn lemma_scaled_order(a: nat, b: nat, c: nat)
    requires
        a <= b,
    ensures
        a * c <= b * c,
{
    assert(a * c <= b * c) by (nonlinear_arith)
        requires
            a <= b,
    ;
}

#[verifier::spinoff_prover]
pub proof fn lemma_products_grow(a: Double, b: Double)
    requires
        ordered(a, b),
        ordered(b, Double { bits: ONE }),
    ensures
        ordered(a.product(Double { bits: HUNDRED }), b.product(Double { bits: HUNDRED })),
        ordered(b.product(Double { bits: HUNDRED }), Double { bits: HUNDRED }),
{
    lemma_hundred();
    lemma_power_positive(2, 1074);
    lemma_units_grow(a.magnitude(), b.magnitude());
    lemma_units_grow(b.magnitude(), ONE as nat);
    let one = power(2, 1074);
    let h = units(HUNDRED as nat);
    let (x, y, z) = (units(a.magnitude()), units(b.magnitude()), units(ONE as nat));
    assert(x * h <= y * h && y * h <= z * h) by (nonlinear_arith)
        requires
            x <= y <= z,
    ;
    rounding_keeps_order(x * h, y * h, one);
    rounding_keeps_order(y * h, z * h, one);
    let hundred = Double { bits: HUNDRED };
    let top = Double { bits: ONE };
    assert(top.magnitude() == ONE && hundred.magnitude() == HUNDRED);
    assert(nearest(z * h, one) == HUNDRED) by {
        assert(top.product(hundred) == signed(false, nearest(z * h, one)));
        assert(nearest(z * h, one) <= 0x7ff0_0000_0000_0000);
    }
}

pub proof fn lemma_rounded_grows(a: Double, b: Double)
    requires
        ordered(a, b),
        ordered(b, Double { bits: HUNDRED }),
    ensures
        0 <= a.rounded_i64() <= b.rounded_i64() <= 100,
{
    lemma_hundred();
    let one = power(2, 1074);
    lemma_power_positive(2, 1074);
    let (x, y, h) = (a.magnitude(), b.magnitude(), HUNDRED as nat);
    assert((Double { bits: HUNDRED }).magnitude() == h);
    lemma_units_grow(x, y);
    lemma_units_grow(y, h);
    vstd::arithmetic::div_mod::lemma_div_is_ordered(
        (2 * units(x) + one) as int,
        (2 * units(y) + one) as int,
        (2 * one) as int,
    );
    vstd::arithmetic::div_mod::lemma_div_is_ordered(
        (2 * units(y) + one) as int,
        (2 * units(h) + one) as int,
        (2 * one) as int,
    );
    vstd::arithmetic::div_mod::lemma_div_pos_is_pos(
        (2 * units(x) + one) as int,
        (2 * one) as int,
    );
    assert(rounded(x) <= rounded(y) <= 100);
}

/// A share in percent lies between 0, which nothing has, and 100, which all has, and grows with
/// the part.
pub proof fn percents_grow(part: nat, more: nat, total: nat)
    requires
        part <= more <= total <= 0x1_0000_0000_0000_0000,
        total > 0,
    ensures
        0 <= percent_of(part, total) <= percent_of(more, total) <= 100,
        percent_of(0, total) == 0,
        percent_of(total, total) == 100,
{
    wholes_keep_order(part, more);
    wholes_keep_order(more, total);
    let (a, b, c) = (whole(part), whole(more), whole(total));
    lemma_quotients_grow(a, b, c);
    lemma_products_grow(a.quotient(c), b.quotient(c));
    let hundred = Double { bits: HUNDRED };
    lemma_rounded_grows(a.quotient(c).product(hundred), b.quotient(c).product(hundred));
    lemma_percent_of_all(total);
    lemma_percent_of_nothing(total);
}

proof fn lemma_percent_of_all(total: nat)
    requires
        0 < total <= 0x1_0000_0000_0000_0000,
    ensures
        percent_of(total, total) == 100,
{
    wholes_keep_order(total, total);
    lemma_own_quotient(whole(total));
    lemma_hundred();
    assert((Double { bits: HUNDRED }).magnitude() == HUNDRED);
}

proof fn lemma_percent_of_nothing(total: nat)
    requires
        0 < total <= 0x1_0000_0000_0000_0000,
    ensures
        percent_of(0, total) == 0,
{
    wholes_keep_order(total, total);
    adding_zero_keeps(whole(total));
    zero_divided_is_zero(whole(total));
    let one = power(2, 1074);
    lemma_power_positive(2, 1074);
    assert(units(0) == 0);
    assert(0 * units(HUNDRED as nat) == 0) by (nonlinear_arith);
    rounding_keeps_doubles(0);
    lemma_nearest_scale(0, 1, 1074);
    assert(0 * one == 0 && 1 * one == one) by (nonlinear_arith);
    assert(nearest(0, one) == 0);
    let zero = Double { bits: 0 };
    assert((Double { bits: HUNDRED }).magnitude() == HUNDRED);
    assert(zero.product(Double { bits: HUNDRED }) == zero);
    lemma_quotient(one, 2 * one, 0, one);
    assert(rounded(0) == 0);
}

proof fn lemma_excess_scale(n: nat, d: nat, c: nat)
    requires
        d > 0,
        c > 0,
    ensures
        excess(n * c, d * c) == excess(n, d),
    decreases n - d,
{
    let top: nat = 0x20_0000_0000_0000;
    assert(d * c > 0) by (nonlinear_arith)
        requires
            d > 0,
            c > 0,
    ;
    assert((top * d) * c == top * (d * c) && (2 * d) * c == 2 * (d * c)) by (nonlinear_arith);
    if n < top * d {
        assert(n * c < (top * d) * c) by (nonlinear_arith)
            requires
                n < top * d,
                c > 0,
        ;
    } else {
        assert(n * c >= (top * d) * c) by (nonlinear_arith)
            requires
                n >= top * d,
                c > 0,
        ;
        lemma_excess_scale(n, 2 * d, c);
    }
}

/// A fraction is rounded alike however it is written.
pub proof fn fractions_round_alike(n: nat, d: nat, c: nat)
    requires
        d > 0,
        c > 0,
    ensures
        nearest(n * c, d * c) == nearest(n, d),
{
    lemma_excess_scale(n, d, c);
    let p = power(2, excess(n, d));
    lemma_power_positive(2, excess(n, d));
    assert((d * c) * p == (d * p) * c && d * p > 0) by (nonlinear_arith)
        requires
            d > 0,
            p > 0,
    ;
    lemma_nearest_even_scale(n, d * p, c);
}

/// The value of a magnitude that is put together of a mantissa and a number of doublings.
pub proof fn lemma_units_of(r: nat, k: nat)
    requires
        r <= 0x20_0000_0000_0000,
        k > 0 ==> r >= 0x10_0000_0000_0000,
    ensures
        units(k * 0x10_0000_0000_0000 + r) == r * power(2, k),
{
    let m = k * 0x10_0000_0000_0000 + r;
    assert(power(2, 0) == 1);
    if r == 0x20_0000_0000_0000 {
        assert(m / 0x10_0000_0000_0000 == k + 2 && m % 0x10_0000_0000_0000 == 0);
        assert(power(2, k + 1) == 2 * power(2, k));
        assert(0x10_0000_0000_0000 * power(2, k + 1) == r * power(2, k)) by (nonlinear_arith)
            requires
                power(2, k + 1) == 2 * power(2, k),
                r == 0x20_0000_0000_0000,
        ;
    } else if r >= 0x10_0000_0000_0000 {
        assert(m / 0x10_0000_0000_0000 == k + 1);
        assert(m % 0x10_0000_0000_0000 == r - 0x10_0000_0000_0000);
    } else {
        assert(r * power(2, 0) == r) by (nonlinear_arith)
            requires
                power(2, 0) == 1,
        ;
    }
}

/// A large fraction and the double nearest to it differ by one part in 2^53 at most.
pub proof fn rounding_is_close(a: nat, d: nat)
    requires
        d > 0,
        excess(a, d) > 0,
        nearest(a, d) < 0x7ff0_0000_0000_0000,
    ensures
        -(a as int) <= 0x20_0000_0000_0000 * (units(nearest(a, d)) * d - a) <= a,
{
    let k = excess(a, d);
    let p = power(2, k);
    lemma_power_positive(2, k);
    lemma_excess_bounds(a, d);
    let e = d * p;
    assert(e > 0) by (nonlinear_arith)
        requires
            e == d * p,
            d > 0,
            p > 0,
    ;
    let r = nearest_even(a, e);
    lemma_quotient(0x20_0000_0000_0000 * e, e, 0x20_0000_0000_0000, 0);
    lemma_nearest_even_grows(a, 0x20_0000_0000_0000 * e, e);
    lemma_quotient(0x10_0000_0000_0000 * e, e, 0x10_0000_0000_0000, 0);
    lemma_nearest_even_grows(0x10_0000_0000_0000 * e, a, e);
    lemma_units_of(r, k);
    vstd::arithmetic::div_mod::lemma_fundamental_div_mod(a as int, e as int);
    let q = a / e;
    assert(e * (q + 1) == e * q + e) by (nonlinear_arith);
    assert(-(e as int) <= 2 * (e * r - a) <= e);
    assert(units(nearest(a, d)) * d == e * r) by (nonlinear_arith)
        requires
            units(nearest(a, d)) == r * p,
            e == d * p,
    ;
}

/// So many hundredths of a total are so many percent.
pub proof fn hundredths_are_percents(n: nat, unit: nat)
    requires
        n <= 100,
        unit > 0,
        100 * unit < 0x20_0000_0000_0000,
    ensures
        percent_of(n * unit, 100 * unit) == n,
{
    let total = 100 * unit;
    let part = n * unit;
    assert(part <= total) by (nonlinear_arith)
        requires
            part == n * unit,
            total == 100 * unit,
            n <= 100,
    ;
    if n == 0 {
        assert(part == 0) by (nonlinear_arith)
            requires
                part == n * unit,
                n == 0,
        ;
        percents_grow(0, 0, total);
    } else {
        lemma_hundredths(n, unit, part, total);
    }
}

#[verifier::spinoff_prover]
proof fn lemma_hundredths(n: nat, unit: nat, part: nat, total: nat)
    requires
        0 < n <= 100,
        unit > 0,
        part == n * unit,
        total == 100 * unit,
        part <= total < 0x20_0000_0000_0000,
    ensures
        percent_of(part, total) == n,
{
    let one = power(2, 1074);
    lemma_power_positive(2, 1074);
    lemma_power_53();
    lemma_power_le(2, 54, 1074);
    lemma_hundred();
    wholes_keep_order(part, total);
    small_wholes_are_exact(part);
    small_wholes_are_exact(total);
    let (a, b) = (whole(part), whole(total));
    lemma_quotients_grow(a, b, b);
    let share = a.quotient(b);
    lemma_products_grow(share, share);
    let hundred = Double { bits: HUNDRED };
    assert(hundred.magnitude() == HUNDRED);
    let shown = share.product(hundred);
    let q = share.magnitude();
    let y = shown.magnitude();
    // The share is rounded once, as n over a hundred is.
    let c = unit * one;
    assert(c > 0) by (nonlinear_arith)
        requires
            c == unit * one,
            unit > 0,
            one > 0,
    ;
    assert((part * one) * one == (n * one) * c && total * one == 100 * c) by (nonlinear_arith)
        requires
            part == n * unit,
            total == 100 * unit,
            c == unit * one,
    ;
    fractions_round_alike(n * one, 100, c);
    assert(nearest((part * one) * one, total * one) <= 0x7ff0_0000_0000_0000);
    assert(q == nearest(n * one, 100));
    let w = n * one;
    assert(one <= w <= 100 * one) by (nonlinear_arith)
        requires
            w == n * one,
            0 < n <= 100,
    ;
    lemma_power_sum(2, 64, 1010);
    assert(64nat + 1010nat == 1074nat);
    lemma_power_127();
    lemma_power_positive(2, 1010);
    assert(one >= 0x1_0000_0000_0000_0000) by (nonlinear_arith)
        requires
            one == 0x1_0000_0000_0000_0000 * power(2, 1010),
            power(2, 1010) >= 1,
    ;
    assert(excess(w, 100) > 0);
    rounding_is_close(w, 100);
    // A hundred times the share is rounded once more.
    let x = units(q) * 100;
    assert(units(q) * (100 * one) == x * one && 1 * one == one) by (nonlinear_arith)
        requires
            x == units(q) * 100,
    ;
    lemma_nearest_scale(x, 1, 1074);
    assert(nearest(x, 1) <= 0x7ff0_0000_0000_0000);
    assert(y == nearest(x, 1));
    assert(excess(x, 1) > 0);
    rounding_is_close(x, 1);
    assert(units(y) * 1 == units(y));
    let r = 2 * units(y) - 2 * w + one;
    assert(0 <= r < 2 * one);
    assert(2 * units(y) + one == n * (2 * one) + r) by (nonlinear_arith)
        requires
            r == 2 * units(y) - 2 * w + one,
            w == n * one,
    ;
    lemma_quotient(2 * units(y) + one, 2 * one, n, r as nat);
    assert(rounded(y) == n);
}

/// A magnitude as a mantissa and a number of doublings, and the magnitude above it.
proof fn lemma_neighbours(a: nat) -> (r: (nat, nat))
    requires
        a < 0x7ff0_0000_0000_0000,
    ensures
        a == r.1 * 0x10_0000_0000_0000 + r.0,
        r.0 < 0x20_0000_0000_0000,
        r.1 > 0 ==> r.0 >= 0x10_0000_0000_0000,
        units(a) == r.0 * power(2, r.1),
        units(a + 1) == (r.0 + 1) * power(2, r.1),
{
    let field = a / 0x10_0000_0000_0000;
    let r = if field == 0 {
        (a, 0)
    } else {
        ((0x10_0000_0000_0000 + a % 0x10_0000_0000_0000) as nat, (field - 1) as nat)
    };
    lemma_units_of(r.0, r.1);
    lemma_units_of(r.0 + 1, r.1);
    assert(r.1 * 0x10_0000_0000_0000 + (r.0 + 1) == a + 1);
    r
}

/// A fraction between two neighbouring doubles is rounded to the nearer one, and from the middle
/// to the even one.
proof fn lemma_between(n: nat, d: nat, a: nat)
    requires
        d > 0,
        a < 0x7ff0_0000_0000_0000,
        units(a) * d <= n < units(a + 1) * d,
    ensures
        nearest(n, d) == (if 2 * n < (units(a) + units(a + 1)) * d || (2 * n == (units(a) + units(
            a + 1,
        )) * d && a % 2 == 0) {
            a
        } else {
            a + 1
        }),
{
    let (m, k) = lemma_neighbours(a);
    let p = power(2, k);
    lemma_power_positive(2, k);
    lemma_power_53();
    lemma_power_sum(2, 53, k);
    lemma_power_sum(2, 52, k);
    let e = d * p;
    assert(e > 0 && units(a) * d == m * e && units(a + 1) * d == m * e + e && (units(a) + units(
        a + 1,
    )) * d == 2 * (m * e) + e) by (nonlinear_arith)
        requires
            e == d * p,
            d > 0,
            p > 0,
            units(a) == m * p,
            units(a + 1) == (m + 1) * p,
    ;
    assert(m * e + e <= d * power(2, 53 + k)) by (nonlinear_arith)
        requires
            power(2, 53 + k) == 0x20_0000_0000_0000 * p,
            e == d * p,
            m + 1 <= 0x20_0000_0000_0000,
    ;
    if k > 0 {
        assert(m * e >= d * power(2, (52 + k) as nat)) by (nonlinear_arith)
            requires
                power(2, (52 + k) as nat) == 0x10_0000_0000_0000 * p,
                e == d * p,
                m >= 0x10_0000_0000_0000,
        ;
    }
    lemma_excess(n, d, k);
    lemma_quotient(n, e, m, (n - m * e) as nat);
    assert(a % 2 == m % 2);
}

/// A fraction that reaches the first magnitude that is not finite is rounded to it.
proof fn lemma_overflows(d: nat)
    requires
        d > 0,
    ensures
        nearest(units(0x7ff0_0000_0000_0000) * d, d) == 0x7ff0_0000_0000_0000,
{
    let top = units(0x7ff0_0000_0000_0000);
    lemma_power_53();
    lemma_power_sum(2, 52, 2046);
    lemma_power_positive(2, 2046);
    assert(top == 0x10_0000_0000_0000 * power(2, 2046));
    assert(52nat + 2046nat == 2098nat && 53nat + 2046nat == 2099nat);
    assert(power(2, 2099) == 2 * power(2, 2098));
    assert(1 * power(2, 2098) == power(2, 2098) && 1 * power(2, 2099) == power(2, 2099));
    lemma_power_positive(2, 2098);
    lemma_excess(top, 1, 2046);
    lemma_quotient(top, power(2, 2046), 0x10_0000_0000_0000, 0);
    assert(1 * power(2, 2046) == power(2, 2046));
    fractions_round_alike(top, 1, d);
    assert(1 * d == d);
}

/// The fractions that are rounded to a double are those between the middles to its neighbours,
/// with the middles themselves where the double is even.
pub proof fn doubles_round_from_their_interval(n: nat, d: nat, a: nat)
    requires
        d > 0,
        0 < a < 0x7ff0_0000_0000_0000,
    ensures
        (nearest(n, d) == a) == ({
            let low = (units((a - 1) as nat) + units(a)) * d;
            let high = (units(a) + units(a + 1)) * d;
            if a % 2 == 0 {
                low <= 2 * n <= high
            } else {
                low < 2 * n < high
            }
        }),
{
    let b = (a - 1) as nat;
    let (l, u, h) = (units(b), units(a), units(a + 1));
    lemma_neighbours(a);
    values_grow_with_magnitudes(b, a);
    assert(u < h) by {
        let (m, k) = lemma_neighbours(a);
        lemma_power_positive(2, k);
        assert(m * power(2, k) < (m + 1) * power(2, k)) by (nonlinear_arith)
            requires
                power(2, k) > 0,
        ;
    }
    assert((l + u) * d == l * d + u * d && (u + h) * d == u * d + h * d && l * d < u * d && u * d
        < h * d) by (nonlinear_arith)
        requires
            l < u < h,
            d > 0,
    ;
    assert(1 * d == d);
    if n < u * d {
        if n >= l * d {
            lemma_between(n, d, b);
            assert(b % 2 == 0 <==> a % 2 != 0);
        } else {
            rounding_keeps_order(n, l * d, d);
            fractions_round_alike(l, 1, d);
            rounding_keeps_doubles(b);
        }
    } else if n < h * d {
        lemma_between(n, d, a);
    } else {
        rounding_keeps_order(h * d, n, d);
        if a + 1 < 0x7ff0_0000_0000_0000 {
            fractions_round_alike(h, 1, d);
            rounding_keeps_doubles(a + 1);
        } else {
            lemma_overflows(d);
        }
    }
}

} // verus!
