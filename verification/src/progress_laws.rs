//! What the progress of an operation promises: it starts at nothing, ends with the whole, and moves
//! with what has been achieved.

use vstd::prelude::*;
use crate::calendar::{span_between, stepped, Moment};
use crate::double::{
    adding_zero_keeps, excess, lemma_nearest_scale, lemma_power_127, lemma_power_53,
    lemma_power_positive, lemma_power_sum, lemma_quotient, nearest, nearest_even, one_is_whole,
    power, rounded, rounding_keeps_doubles, signed, small_wholes_are_exact, units,
    values_grow_with_magnitudes, whole, zero_divided_is_zero, Double, HUNDRED, ONE, TENTH,
};
use crate::double_order::{
    lemma_hundred, lemma_own_quotient, lemma_products_grow, lemma_quotient_rounds,
    lemma_quotients_grow, lemma_rounded_grows, lemma_scaled_order, lemma_units_grow,
    lemma_units_of, ordered, percent_of, rounding_is_close, rounding_keeps_order, wholes_keep_order,
};
use crate::sequence::{
    unit_clamped, CameraInfo, SequenceOperationKind, TrackedSequenceOperation,
};

verus! {

/// How far apart two temperatures are.
pub open spec fn apart(a: Double, b: Double) -> nat {
    if a.value() <= b.value() {
        (b.value() - a.value()) as nat
    } else {
        (a.value() - b.value()) as nat
    }
}

/// The distance of two numbers in double precision is their distance, rounded.
proof fn lemma_distance(a: Double, b: Double)
    requires
        a.finite(),
        b.finite(),
    ensures
        a.difference(b).absolute() == signed(false, nearest(apart(a, b), 1)),
        nearest(apart(a, b), 1) <= 0x7ff0_0000_0000_0000,
{
    let n = b.negated();
    assert(n.magnitude() == b.magnitude());
    assert(n.value() == -b.value()) by {
        assert(units(0) == 0);
    }
    let exact = a.value() + n.value();
    let m = nearest(apart(a, b), 1);
    assert(m <= 0x7ff0_0000_0000_0000);
    if exact == 0 {
        rounding_keeps_doubles(0);
        assert(units(0) == 0);
    }
}

/// What is left of one after a share was taken off, with nothing left below.
spec fn rest(share: Double) -> Double {
    unit_clamped((Double { bits: ONE }).difference(share))
}

spec fn percent_left(share: Double) -> int {
    rest(share).product(Double { bits: HUNDRED }).rounded_i64()
}

/// The more is taken off, the less is left.
#[verifier::spinoff_prover]
proof fn lemma_rests_shrink(x: Double, y: Double)
    requires
        !x.negative() && !y.negative(),
        x.magnitude() <= y.magnitude() <= 0x7ff0_0000_0000_0000,
    ensures
        ordered(rest(y), rest(x)),
        ordered(rest(x), Double { bits: ONE }),
        y.magnitude() >= ONE ==> rest(y) == (Double { bits: 0 }),
        x.magnitude() == 0 ==> rest(x) == (Double { bits: ONE }),
{
    lemma_rest(x);
    lemma_rest(y);
    if y.magnitude() < ONE {
        lemma_units_grow(x.magnitude(), y.magnitude());
        let one = units(ONE as nat);
        lemma_units_grow(y.magnitude(), ONE as nat);
        rounding_keeps_order(
            (one - units(y.magnitude())) as nat,
            (one - units(x.magnitude())) as nat,
            1,
        );
    }
}

#[verifier::spinoff_prover]
proof fn lemma_rest(x: Double)
    requires
        !x.negative(),
        x.magnitude() <= 0x7ff0_0000_0000_0000,
    ensures
        x.magnitude() >= ONE ==> rest(x) == (Double { bits: 0 }),
        x.magnitude() < ONE ==> {
            &&& units(x.magnitude()) < units(ONE as nat)
            &&& rest(x) == signed(
                false,
                nearest((units(ONE as nat) - units(x.magnitude())) as nat, 1),
            )
            &&& nearest((units(ONE as nat) - units(x.magnitude())) as nat, 1) <= ONE
        },
        x.magnitude() == 0 ==> rest(x) == (Double { bits: ONE }),
{
    let top = Double { bits: ONE };
    let one = units(ONE as nat);
    let n = x.negated();
    assert(top.magnitude() == ONE && !top.negative() && top.value() == one);
    assert(n.magnitude() == x.magnitude() && n.negative());
    assert(units(0) == 0);
    rounding_keeps_doubles(0);
    rounding_keeps_doubles(ONE as nat);
    if x.infinite() {
        assert(top.difference(x) == n);
    } else {
        let u = units(x.magnitude());
        assert(n.value() == -(u as int));
        if x.magnitude() < ONE {
            values_grow_with_magnitudes(x.magnitude(), ONE as nat);
            let m = nearest((one - u) as nat, 1);
            rounding_keeps_order((one - u) as nat, one, 1);
            assert(m <= ONE);
            assert(top.difference(x) == signed(false, m));
        } else {
            lemma_units_grow(ONE as nat, x.magnitude());
            if u == one {
                assert(top.difference(x) == signed(false, 0));
            } else {
                let m = nearest((u - one) as nat, 1);
                assert(m <= 0x7ff0_0000_0000_0000);
                rounding_keeps_order(1, (u - one) as nat, 1);
                rounding_keeps_doubles(1);
                assert(units(1) == 1);
                assert(m >= 1);
                let d = top.difference(x);
                assert(d == signed(true, m));
                assert(d.negative() && d.magnitude() == m);
                assert(d.lt(Double { bits: 0 }));
            }
        }
    }
}

/// A quotient by a positive number grows with what is divided.
#[verifier::spinoff_prover]
proof fn lemma_shares_grow(x: Double, y: Double, total: Double)
    requires
        !x.negative() && !y.negative(),
        x.magnitude() <= y.magnitude() <= 0x7ff0_0000_0000_0000,
        total.finite() && !total.negative() && total.magnitude() > 0,
    ensures
        !x.quotient(total).negative() && !y.quotient(total).negative(),
        x.quotient(total).magnitude() <= y.quotient(total).magnitude() <= 0x7ff0_0000_0000_0000,
        y.magnitude() >= total.magnitude() ==> y.quotient(total).magnitude() >= ONE,
        x.magnitude() == 0 ==> x.quotient(total).magnitude() == 0,
{
    let one = power(2, 1074);
    let z = units(total.magnitude());
    assert(units(0) == 0);
    values_grow_with_magnitudes(0, total.magnitude());
    if x.finite() {
        lemma_quotient_rounds(x, total);
        assert(nearest(units(x.magnitude()) * one, z) <= 0x7ff0_0000_0000_0000);
    }
    if y.finite() {
        lemma_quotient_rounds(y, total);
        assert(nearest(units(y.magnitude()) * one, z) <= 0x7ff0_0000_0000_0000);
        lemma_units_grow(x.magnitude(), y.magnitude());
        lemma_scaled_order(units(x.magnitude()), units(y.magnitude()), one);
        rounding_keeps_order(units(x.magnitude()) * one, units(y.magnitude()) * one, z);
        if y.magnitude() >= total.magnitude() {
            lemma_own_quotient(total);
            lemma_quotient_rounds(total, total);
            lemma_units_grow(total.magnitude(), y.magnitude());
            lemma_scaled_order(z, units(y.magnitude()), one);
            rounding_keeps_order(z * one, units(y.magnitude()) * one, z);
        }
    }
    if x.magnitude() == 0 {
        adding_zero_keeps(total);
        zero_divided_is_zero(total);
        assert(x == (Double { bits: 0 }));
    }
}

/// The progress of cooling is nothing while the camera is as far from the target as it was at
/// first, never falls as its temperature gets closer to the target, and is 100 at the target
/// temperature and wherever the camera says that it has arrived. It can be told where the first
/// temperature was at least a tenth of a degree away.
pub proof fn cooling_progress_rises_toward_the_target(
    t: TrackedSequenceOperation,
    closer: TrackedSequenceOperation,
    target: Double,
    initial: Double,
    a: CameraInfo,
    b: CameraInfo,
    now: Moment,
    later: Moment,
)
    requires
        t.operation.kind matches SequenceOperationKind::CameraCooling { target_temperature, .. }
            && target_temperature == target,
        closer.operation.kind == t.operation.kind,
        t.initial_temperature == Some(initial) && closer.initial_temperature == Some(initial),
        t.camera == Some(a) && closer.camera == Some(b),
        initial.finite() && target.finite() && a.temperature.finite() && b.temperature.finite(),
        !a.at_target_temp && !b.at_target_temp,
        units(TENTH as nat) <= apart(initial, target) <= units(0x7fef_ffff_ffff_ffff),
        apart(b.temperature, target) <= apart(a.temperature, target),
    ensures
        t.percent(now) is Some && closer.percent(later) is Some,
        t.percent(now)->0 <= closer.percent(later)->0 <= 100,
        apart(a.temperature, target) >= apart(initial, target) ==> t.percent(now) == Some(0u8),
        apart(b.temperature, target) == 0 ==> closer.percent(later) == Some(100u8),
{
    lemma_way(initial, target);
    lemma_distances_keep_order(b.temperature, a.temperature, target);
    let total = initial.difference(target).absolute();
    let far = a.temperature.difference(target).absolute();
    let near = b.temperature.difference(target).absolute();
    if apart(a.temperature, target) >= apart(initial, target) {
        lemma_distances_keep_order(initial, a.temperature, target);
    }
    lemma_part_of_the_way(near, far, total);
}

/// A way of at least a tenth of a degree is one in double precision.
#[verifier::spinoff_prover]
proof fn lemma_way(initial: Double, target: Double)
    requires
        initial.finite() && target.finite(),
        units(TENTH as nat) <= apart(initial, target) <= units(0x7fef_ffff_ffff_ffff),
    ensures
        initial.difference(target).absolute().finite(),
        !initial.difference(target).absolute().negative(),
        initial.difference(target).absolute().magnitude() > 0,
        !initial.difference(target).absolute().lt(Double { bits: TENTH }),
{
    let way = apart(initial, target);
    lemma_distance(initial, target);
    rounding_keeps_doubles(TENTH as nat);
    rounding_keeps_doubles(0x7fef_ffff_ffff_ffff);
    rounding_keeps_order(units(TENTH as nat), way, 1);
    rounding_keeps_order(way, units(0x7fef_ffff_ffff_ffff), 1);
    let m = nearest(way, 1);
    assert(TENTH <= m <= 0x7fef_ffff_ffff_ffff);
    let total = signed(false, m);
    assert(total.magnitude() == m && !total.negative());
    assert((Double { bits: TENTH }).magnitude() == TENTH);
}

/// Distances in double precision are in the order of the distances.
#[verifier::spinoff_prover]
proof fn lemma_distances_keep_order(a: Double, b: Double, c: Double)
    requires
        a.finite() && b.finite() && c.finite(),
        apart(a, c) <= apart(b, c),
    ensures
        !a.difference(c).absolute().negative() && !b.difference(c).absolute().negative(),
        a.difference(c).absolute().magnitude() <= b.difference(c).absolute().magnitude()
            <= 0x7ff0_0000_0000_0000,
        apart(a, c) == 0 ==> a.difference(c).absolute().magnitude() == 0,
{
    lemma_distance_magnitude(a, c);
    lemma_distance_magnitude(b, c);
    rounding_keeps_order(apart(a, c), apart(b, c), 1);
}

#[verifier::spinoff_prover]
proof fn lemma_distance_magnitude(a: Double, b: Double)
    requires
        a.finite(),
        b.finite(),
    ensures
        !a.difference(b).absolute().negative(),
        a.difference(b).absolute().magnitude() == nearest(apart(a, b), 1),
        nearest(apart(a, b), 1) <= 0x7ff0_0000_0000_0000,
        apart(a, b) == 0 ==> a.difference(b).absolute().magnitude() == 0,
{
    lemma_distance(a, b);
    lemma_sign_off(nearest(apart(a, b), 1));
    if apart(a, b) == 0 {
        assert(units(0) == 0);
        rounding_keeps_doubles(0);
    }
}

proof fn lemma_sign_off(m: nat)
    requires
        m <= 0x7ff0_0000_0000_0000,
    ensures
        signed(false, m).magnitude() == m,
        !signed(false, m).negative(),
{
}

#[verifier::spinoff_prover]
proof fn lemma_part_of_the_way(near: Double, far: Double, total: Double)
    requires
        !near.negative() && !far.negative(),
        near.magnitude() <= far.magnitude() <= 0x7ff0_0000_0000_0000,
        total.finite() && !total.negative() && total.magnitude() > 0,
    ensures
        0 <= percent_left(far.quotient(total)) <= percent_left(near.quotient(total)) <= 100,
        far.magnitude() >= total.magnitude() ==> percent_left(far.quotient(total)) == 0,
        near.magnitude() == 0 ==> percent_left(near.quotient(total)) == 100,
{
    lemma_shares_grow(near, far, total);
    let (x, y) = (near.quotient(total), far.quotient(total));
    lemma_rests_shrink(x, y);
    let hundred = Double { bits: HUNDRED };
    lemma_products_grow(rest(y), rest(x));
    lemma_rounded_grows(rest(y).product(hundred), rest(x).product(hundred));
    lemma_percent_ends();
}

proof fn lemma_percent_ends()
    ensures
        (Double { bits: 0 }).product(Double { bits: HUNDRED }).rounded_i64() == 0,
        (Double { bits: ONE }).product(Double { bits: HUNDRED }).rounded_i64() == 100,
{
    lemma_hundred();
    assert((Double { bits: HUNDRED }).magnitude() == HUNDRED);
    crate::double_order::percents_grow(0, 0, 1);
    one_is_whole();
    lemma_own_quotient(whole(1));
    adding_zero_keeps(whole(1));
    zero_divided_is_zero(whole(1));
}

/// A camera that says it has arrived has come the whole way, whatever its temperature.
pub proof fn cooling_ends_where_the_camera_says_so(
    t: TrackedSequenceOperation,
    initial: Double,
    camera: CameraInfo,
    now: Moment,
)
    requires
        t.operation.kind is CameraCooling,
        t.initial_temperature == Some(initial),
        t.camera == Some(camera),
        camera.at_target_temp,
    ensures
        t.percent(now) == Some(100u8),
{
}

/// Nothing is told of the progress of cooling where the way was less than a tenth of a degree,
/// where either temperature is unknown, or where the camera's is no number, unless the camera says
/// that it has arrived.
pub proof fn short_ways_have_no_progress(t: TrackedSequenceOperation, now: Moment)
    requires
        t.operation.kind is CameraCooling,
        t.camera matches Some(camera) ==> !camera.at_target_temp,
        t.initial_temperature is None || t.camera is None || !t.camera->0.temperature.finite() || ({
            let target = t.operation.kind->CameraCooling_target_temperature;
            &&& t.initial_temperature->0.finite() && target.finite()
            &&& apart(t.initial_temperature->0, target) <= units((TENTH - 1) as nat)
        }),
    ensures
        t.percent(now) is None,
{
    if t.initial_temperature is Some && t.camera is Some && t.camera->0.temperature.finite() {
        lemma_no_way(
            t.initial_temperature->0,
            t.operation.kind->CameraCooling_target_temperature,
        );
    }
}

#[verifier::spinoff_prover]
proof fn lemma_no_way(initial: Double, target: Double)
    requires
        initial.finite() && target.finite(),
        apart(initial, target) <= units((TENTH - 1) as nat),
    ensures
        initial.difference(target).absolute().lt(Double { bits: TENTH }),
{
    let below: nat = (TENTH - 1) as nat;
    let way = apart(initial, target);
    lemma_distance(initial, target);
    rounding_keeps_doubles(below);
    rounding_keeps_order(way, units(below), 1);
    let total = signed(false, nearest(way, 1));
    assert(total.magnitude() == nearest(way, 1) && !total.negative());
    assert((Double { bits: TENTH }).magnitude() == TENTH);
}

/// Warming progresses as a wait for the same time does, and a warming whose end was not reckoned as
/// one that is to end after its least duration.
pub proof fn warming_progresses_as_a_wait(
    warming: TrackedSequenceOperation,
    wait: TrackedSequenceOperation,
    now: Moment,
)
    requires
        warming.operation.kind is CameraWarming,
        wait.operation.kind is TimeWait,
        wait.started_at == warming.started_at,
        wait.estimated_end == (match warming.estimated_end {
            Some(end) => Some(end),
            None => match warming.operation.kind->CameraWarming_minimum_duration {
                Some(span) => Some(stepped(warming.started_at, span.nanos as int)),
                None => None,
            },
        }),
    ensures
        warming.percent(now) == wait.percent(now),
{
}

/// A whole number and the double nearest to it differ by one part in 2^53 at most.
#[verifier::spinoff_prover]
proof fn lemma_near(a: nat)
    requires
        nearest(a, 1) < 0x7ff0_0000_0000_0000,
    ensures
        -(a as int) <= 0x20_0000_0000_0000 * (units(nearest(a, 1)) - a) <= a,
{
    if excess(a, 1) > 0 {
        rounding_is_close(a, 1);
        assert(units(nearest(a, 1)) * 1 == units(nearest(a, 1)));
    } else {
        assert(a < 0x20_0000_0000_0000);
        assert(power(2, 0) == 1);
        lemma_quotient(a, 1, a, 0);
        assert(nearest(a, 1) == a);
        lemma_units_of(a, 0);
        assert(a * power(2, 0) == a) by (nonlinear_arith)
            requires
                power(2, 0) == 1,
        ;
    }
}

/// A fraction and the double nearest to it differ by one part in 2^53 or by one at most.
#[verifier::spinoff_prover]
proof fn lemma_fraction_near(n: nat, d: nat)
    requires
        d > 0,
        nearest(n, d) < 0x7ff0_0000_0000_0000,
    ensures
        -(n + 0x20_0000_0000_0000 * d) <= 0x20_0000_0000_0000 * (units(nearest(n, d)) * d - n)
            <= n + 0x20_0000_0000_0000 * d,
{
    if excess(n, d) > 0 {
        rounding_is_close(n, d);
        assert(0x20_0000_0000_0000 * d >= 0);
    } else {
        assert(n < 0x20_0000_0000_0000 * d);
        assert(power(2, 0) == 1);
        assert(d * power(2, 0) == d) by (nonlinear_arith)
            requires
                power(2, 0) == 1,
        ;
        vstd::arithmetic::div_mod::lemma_fundamental_div_mod(n as int, d as int);
        let q = n / d;
        let r = nearest_even(n, d);
        assert(q < 0x20_0000_0000_0000) by (nonlinear_arith)
            requires
                n < 0x20_0000_0000_0000 * d,
                q * d <= n,
                d > 0,
        ;
        assert(nearest(n, d) == r);
        lemma_units_of(r, 0);
        assert(r * power(2, 0) == r) by (nonlinear_arith)
            requires
                power(2, 0) == 1,
        ;
        assert(-(d as int) <= r * d - n <= d) by (nonlinear_arith)
            requires
                n == d * q + n % d,
                0 <= n % d < d,
                r == q || r == q + 1,
        ;
    }
}

/// Shares that are off by little stay within half a percent and a hundredth of one when they are
/// rounded.
#[verifier::spinoff_prover]
proof fn lemma_percent_near(p: int, y: int, w: int, q: int, u: int, t: int, x: int, s: int, r: int)
    requires
        u >= 0x1000_0000_0000_0000,
        0 <= r <= s,
        0 <= x <= t,
        0 < s,
        0 <= q <= u,
        0 <= w,
        -r <= 0x20_0000_0000_0000 * (x - r) <= r,
        -s <= 0x20_0000_0000_0000 * (t - s) <= s,
        -(t * u + 0x20_0000_0000_0000 * t) <= 0x20_0000_0000_0000 * (q * t - x * u) <= t * u
            + 0x20_0000_0000_0000 * t,
        -(u - q) <= 0x20_0000_0000_0000 * (w - (u - q)) <= u - q,
        -(100 * w) <= 0x20_0000_0000_0000 * (y - 100 * w) <= 100 * w,
        -u <= 2 * (p * u - y) <= u,
    ensures
        -(101 * s) <= 200 * (p * s - 100 * (s - r)) <= 101 * s,
{
    let n: int = 0x20_0000_0000_0000;
    // The rounded share against the share.
    assert(w <= 2 * u);
    let e = p * u - 100 * (u - q);
    assert(-((n + 600) * u) <= 2 * n * e <= (n + 600) * u) by {
        assert(2 * n * e == n * (2 * (p * u - y)) + 2 * (n * (y - 100 * w)) + 200 * (n * (w - (u
            - q)))) by (nonlinear_arith)
            requires
                e == p * u - 100 * (u - q),
        ;
        assert(-(n * u) <= n * (2 * (p * u - y)) <= n * u) by (nonlinear_arith)
            requires
                -u <= 2 * (p * u - y) <= u,
                n > 0,
        ;
    }
    // The share against the true one.
    assert(x <= 2 * r && t <= 2 * s);
    let f = q * s - r * u;
    assert(-(4 * (s * u) + 2 * n * s) <= n * f <= 4 * (s * u) + 2 * n * s) by {
        assert(n * f == n * (q * t - x * u) + q * (n * (s - t)) + u * (n * (x - r)))
            by (nonlinear_arith)
            requires
                f == q * s - r * u,
        ;
        assert(-(q * s) <= q * (n * (s - t)) <= q * s) by (nonlinear_arith)
            requires
                -s <= n * (s - t) <= s,
                q >= 0,
        ;
        assert(-(u * r) <= u * (n * (x - r)) <= u * r) by (nonlinear_arith)
            requires
                -r <= n * (x - r) <= r,
                u >= 0,
        ;
        assert(q * s <= s * u && u * r <= s * u && t * u <= 2 * (s * u)) by (nonlinear_arith)
            requires
                0 <= q <= u,
                0 <= r <= s,
                t <= 2 * s,
                u >= 0,
        ;
    }
    // Both together.
    let g = p * s - 100 * (s - r);
    assert(g * u == s * e - 100 * f) by (nonlinear_arith)
        requires
            g == p * s - 100 * (s - r),
            e == p * u - 100 * (u - q),
            f == q * s - r * u,
    ;
    let su = s * u;
    assert(-((n + 600) * su) <= 2 * n * (s * e) <= (n + 600) * su) by (nonlinear_arith)
        requires
            -((n + 600) * u) <= 2 * n * e <= (n + 600) * u,
            su == s * u,
            s > 0,
    ;
    assert(su >= 0x1000_0000_0000_0000 * s) by (nonlinear_arith)
        requires
            su == s * u,
            u >= 0x1000_0000_0000_0000,
            s > 0,
    ;
    assert(2 * n * (g * u) == 2 * n * (s * e) - 200 * (n * f)) by (nonlinear_arith)
        requires
            g * u == s * e - 100 * f,
    ;
    assert(-((n + 1400) * su + 400 * (n * s)) <= 2 * n * (g * u) <= (n + 1400) * su + 400 * (n
        * s)) by {
        assert((n + 1400) * su == (n + 600) * su + 800 * su) by (nonlinear_arith);
        assert(2 * n * s == 2 * (n * s)) by (nonlinear_arith);
    }
    assert(100 * ((n + 1400) * su + 400 * (n * s)) <= n * (101 * su)) by (nonlinear_arith)
        requires
            n == 0x20_0000_0000_0000,
            su >= 0x1000_0000_0000_0000 * s,
            s > 0,
    ;
    assert(-(101 * su) <= 200 * (g * u) <= 101 * su) by (nonlinear_arith)
        requires
            -((n + 1400) * su + 400 * (n * s)) <= 2 * n * (g * u) <= (n + 1400) * su + 400 * (n
                * s),
            100 * ((n + 1400) * su + 400 * (n * s)) <= n * (101 * su),
            n > 0,
    ;
    assert(-(101 * s) <= 200 * g <= 101 * s) by (nonlinear_arith)
        requires
            -(101 * su) <= 200 * (g * u) <= 101 * su,
            su == s * u,
            u > 0,
    ;
}

/// A double between nothing and one, as a percentage, rounded.
#[verifier::spinoff_prover]
proof fn lemma_percent_rounded(w: Double)
    requires
        ordered(w, Double { bits: ONE }),
    ensures
        ({
            let u = power(2, 1074) as int;
            let p = w.product(Double { bits: HUNDRED }).rounded_i64();
            let y = units(nearest(100 * units(w.magnitude()), 1)) as int;
            &&& -u <= 2 * (p * u - y) <= u
            &&& -(100 * units(w.magnitude())) <= 0x20_0000_0000_0000 * (y - 100 * units(
                w.magnitude(),
            )) <= 100 * units(w.magnitude())
            &&& 0 <= p <= 100
        }),
{
    let one = power(2, 1074);
    lemma_power_positive(2, 1074);
    lemma_hundred();
    let hundred = Double { bits: HUNDRED };
    assert(hundred.magnitude() == HUNDRED && !hundred.negative());
    lemma_products_grow(w, w);
    let shown = w.product(hundred);
    lemma_rounded_grows(shown, shown);
    let x = 100 * units(w.magnitude());
    assert(units(w.magnitude()) * (100 * one) == x * one && 1 * one == one) by (nonlinear_arith)
        requires
            x == 100 * units(w.magnitude()),
    ;
    lemma_nearest_scale(x, 1, 1074);
    assert(shown == signed(false, nearest(x, 1)));
    assert(nearest(x, 1) <= 0x7ff0_0000_0000_0000);
    lemma_sign_off(nearest(x, 1));
    lemma_near(x);
    let y = units(nearest(x, 1));
    let p = (2 * y + one) / (2 * one);
    vstd::arithmetic::div_mod::lemma_fundamental_div_mod(
        (2 * y + one) as int,
        (2 * one) as int,
    );
    assert(rounded(shown.magnitude()) == p);
    assert(shown.rounded_i64() == p);
    let rest = (2 * y + one) % (2 * one);
    assert(2 * (p * one) == 2 * y + one - rest) by (nonlinear_arith)
        requires
            2 * y + one == (2 * one) * p + rest,
    ;
}

/// The progress of cooling is the share of the way that the camera has come: the share in percent,
/// rounded to the nearest whole number, but for a hundredth of a percent where it stands in the
/// middle of two.
#[verifier::spinoff_prover]
pub proof fn cooling_progress_is_the_share_of_the_way(
    t: TrackedSequenceOperation,
    target: Double,
    initial: Double,
    camera: CameraInfo,
    now: Moment,
)
    requires
        t.operation.kind matches SequenceOperationKind::CameraCooling { target_temperature, .. }
            && target_temperature == target,
        t.initial_temperature == Some(initial),
        t.camera == Some(camera),
        initial.finite() && target.finite() && camera.temperature.finite(),
        !camera.at_target_temp,
        units(TENTH as nat) <= apart(initial, target) <= units(0x7fef_ffff_ffff_ffff),
        apart(camera.temperature, target) <= apart(initial, target),
    ensures
        t.percent(now) matches Some(p) && ({
            let way = apart(initial, target) as int;
            let left = apart(camera.temperature, target) as int;
            -(101 * way) <= 200 * (p * way - 100 * (way - left)) <= 101 * way
        }),
{
    lemma_way(initial, target);
    lemma_distances_keep_order(camera.temperature, initial, target);
    lemma_distance_magnitude(camera.temperature, target);
    lemma_distance_magnitude(initial, target);
    lemma_tenth_is_positive();
    lemma_cooling_share(
        camera.temperature.difference(target).absolute(),
        initial.difference(target).absolute(),
        apart(camera.temperature, target),
        apart(initial, target),
    );
}

proof fn lemma_tenth_is_positive()
    ensures
        units(TENTH as nat) > 0,
{
    assert(units(0) == 0);
    values_grow_with_magnitudes(0, TENTH as nat);
}

#[verifier::spinoff_prover]
proof fn lemma_cooling_share(near: Double, total: Double, r: nat, s: nat)
    requires
        ordered(near, total),
        total.magnitude() > 0,
        near.magnitude() == nearest(r, 1),
        total.magnitude() == nearest(s, 1),
        r <= s,
        s > 0,
    ensures
        ({
            let p = percent_left(near.quotient(total));
            &&& 0 <= p <= 100
            &&& -(101 * s) <= 200 * (p * s - 100 * (s - r)) <= 101 * s
        }),
{
    let u = power(2, 1074);
    lemma_power_positive(2, 1074);
    lemma_big();
    one_is_whole();
    small_wholes_are_exact(1);
    assert(1 * u == u);
    assert(units(ONE as nat) == u);
    let (x, t) = (units(near.magnitude()), units(total.magnitude()));
    lemma_near(r);
    lemma_near(s);
    lemma_units_grow(near.magnitude(), total.magnitude());
    assert(units(0) == 0);
    values_grow_with_magnitudes(0, total.magnitude());
    lemma_quotient_rounds(near, total);
    lemma_quotients_grow(near, total, total);
    let share = near.quotient(total);
    assert(ordered(share, Double { bits: ONE }));
    assert((Double { bits: ONE }).magnitude() == ONE);
    lemma_fraction_near(x * u, t);
    lemma_scaled_order(x, t, u);
    let q = units(share.magnitude());
    lemma_units_grow(share.magnitude(), ONE as nat);
    lemma_rest(share);
    lemma_rests_shrink(share, share);
    let w = rest(share);
    if share.magnitude() == ONE {
        assert(w == (Double { bits: 0 }));
        assert(units(w.magnitude()) == 0);
    } else {
        lemma_sign_off(nearest((u - q) as nat, 1));
        lemma_near((u - q) as nat);
    }
    lemma_percent_rounded(w);
    let wv = units(w.magnitude());
    lemma_percent_near(
        percent_left(share),
        units(nearest(100 * wv, 1)) as int,
        wv as int,
        q as int,
        u as int,
        t as int,
        x as int,
        s as int,
        r as int,
    );
}

/// The progress of a timed wait is the share of its time that has passed: the share in percent,
/// rounded to the nearest whole number, but for a hundredth of a percent where it stands in the
/// middle of two.
#[verifier::spinoff_prover]
pub proof fn wait_progress_is_the_share_of_the_time(
    t: TrackedSequenceOperation,
    end: Moment,
    now: Moment,
)
    requires
        t.operation.kind is TimeWait,
        t.estimated_end == Some(end),
        0 < span_between(t.started_at, end).whole_milliseconds() < 0x20_0000_0000_0000,
        0 <= span_between(t.started_at, now).whole_milliseconds() <= span_between(
            t.started_at,
            end,
        ).whole_milliseconds(),
    ensures
        t.percent(now) matches Some(p) && ({
            let all = span_between(t.started_at, end).whole_milliseconds();
            let passed = span_between(t.started_at, now).whole_milliseconds();
            -(101 * all) <= 200 * (p * all - 100 * passed) <= 101 * all
        }),
{
    let all = span_between(t.started_at, end).whole_milliseconds();
    let passed = span_between(t.started_at, now).whole_milliseconds();
    lemma_time_share(passed as nat, all as nat);
}

#[verifier::spinoff_prover]
proof fn lemma_time_share(part: nat, total: nat)
    requires
        part <= total < 0x20_0000_0000_0000,
        total > 0,
    ensures
        ({
            let p = percent_of(part, total);
            &&& 0 <= p <= 100
            &&& -(101 * total) <= 200 * (p * total - 100 * part) <= 101 * total
        }),
{
    let u = power(2, 1074);
    lemma_power_positive(2, 1074);
    lemma_big();
    one_is_whole();
    small_wholes_are_exact(1);
    small_wholes_are_exact(part);
    small_wholes_are_exact(total);
    assert(1 * u == u);
    assert(units(ONE as nat) == u);
    wholes_keep_order(part, total);
    let (a, b) = (whole(part), whole(total));
    lemma_quotients_grow(a, b, b);
    lemma_quotient_rounds(a, b);
    let share = a.quotient(b);
    assert((Double { bits: ONE }).magnitude() == ONE);
    lemma_units_grow(share.magnitude(), ONE as nat);
    let q = units(share.magnitude());
    assert(units(a.magnitude()) == part * u && units(b.magnitude()) == total * u);
    let c = total * u;
    assert(c > 0) by (nonlinear_arith)
        requires
            c == total * u,
            total > 0,
            u > 0,
    ;
    lemma_fraction_near((part * u) * u, c);
    let n: int = 0x20_0000_0000_0000;
    let gap = q * total - part * u;
    assert(n * (q * c - (part * u) * u) == (n * gap) * u && (part * u) * u + n * c == (part * u + n
        * total) * u) by (nonlinear_arith)
        requires
            gap == q * total - part * u,
            c == total * u,
    ;
    assert(-(part * u + n * total) <= n * gap <= part * u + n * total) by (nonlinear_arith)
        requires
            -((part * u + n * total) * u) <= (n * gap) * u <= (part * u + n * total) * u,
            u > 0,
    ;
    lemma_scaled_order(part, total, u);
    let away = u - q;
    let left = total - part;
    assert(away * total - left * u == -gap) by (nonlinear_arith)
        requires
            away == u - q,
            left == total - part,
            gap == q * total - part * u,
    ;
    lemma_percent_rounded(share);
    lemma_percent_near(
        percent_of(part, total),
        units(nearest(100 * q, 1)) as int,
        q as int,
        away,
        u as int,
        total as int,
        left,
        total as int,
        left,
    );
}

proof fn lemma_big()
    ensures
        power(2, 1074) >= 0x1000_0000_0000_0000,
{
    lemma_power_53();
    lemma_power_127();
    lemma_power_sum(2, 64, 1010);
    lemma_power_positive(2, 1010);
    assert(64nat + 1010nat == 1074nat);
    assert(power(2, 1074) >= 0x1_0000_0000_0000_0000) by (nonlinear_arith)
        requires
            power(2, 1074) == 0x1_0000_0000_0000_0000 * power(2, 1010),
            power(2, 1010) >= 1,
    ;
}

} // verus!
