//! Double-precision numbers held by their bit patterns, with the arithmetic of IEEE 754
//! (rounding to nearest, ties to even) stated over exact rationals.

use vstd::prelude::*;

verus! {

/// A double-precision number, by its bit pattern.
#[derive(Clone, Copy, Debug, PartialEq, Eq, Structural)]
pub struct Double {
    pub bits: u64,
}

/// The bit of the sign.
pub const SIGN: u64 = 0x8000_0000_0000_0000;

/// The magnitude of the infinities; larger magnitudes are not numbers.
pub const INFINITE: u64 = 0x7ff0_0000_0000_0000;

/// Two to the power of 52, the place of the exponent in a bit pattern.
pub const HIDDEN: u64 = 0x10_0000_0000_0000;

/// The magnitude used for results that are not numbers.
pub const NOT_A_NUMBER: u64 = 0x7ff8_0000_0000_0000;

pub const ONE: u64 = 0x3ff0_0000_0000_0000;

pub const TWO: u64 = 0x4000_0000_0000_0000;

pub const SIXTY: u64 = 0x404e_0000_0000_0000;

pub const HUNDRED: u64 = 0x4059_0000_0000_0000;

pub const BILLION: u64 = 0x41cd_cd65_0000_0000;

/// The double nearest to one tenth.
pub const TENTH: u64 = 0x3fb9_9999_9999_999a;

/// Two to the power of -52.
pub const EPSILON: u64 = 0x3cb0_0000_0000_0000;

/// `base` multiplied with itself `n` times.
pub open spec fn power(base: nat, n: nat) -> nat
    decreases n,
{
    if n == 0 {
        1
    } else {
        base * power(base, (n - 1) as nat)
    }
}

/// `n / d` rounded to the nearest whole number, ties to the even one.
pub open spec fn nearest_even(n: nat, d: nat) -> nat {
    let q = n / d;
    let r = n % d;
    if 2 * r < d || (2 * r == d && q % 2 == 0) {
        q
    } else {
        q + 1
    }
}

/// The number of bits by which `n / d` exceeds 53 bits.
pub open spec fn excess(n: nat, d: nat) -> nat
    decreases n - d,
{
    if d == 0 || n < 0x20_0000_0000_0000 * d {
        0
    } else {
        1 + excess(n, 2 * d)
    }
}

/// The magnitude of the double nearest to `n / d`, counted in the smallest
/// positive double (two to the power of -1074).
pub open spec fn nearest(n: nat, d: nat) -> nat {
    let k = excess(n, d);
    let m = k * 0x10_0000_0000_0000 + nearest_even(n, d * power(2, k));
    if m < 0x7ff0_0000_0000_0000 {
        m
    } else {
        0x7ff0_0000_0000_0000
    }
}

/// The value of a finite magnitude, counted in the smallest positive double.
pub open spec fn units(magnitude: nat) -> nat {
    let field = magnitude / 0x10_0000_0000_0000;
    let fraction = magnitude % 0x10_0000_0000_0000;
    if field == 0 {
        fraction
    } else {
        (0x10_0000_0000_0000 + fraction) * power(2, (field - 1) as nat)
    }
}

/// The double with the given sign and magnitude.
pub open spec fn signed(negative: bool, magnitude: nat) -> Double {
    if negative {
        Double { bits: (0x8000_0000_0000_0000 + magnitude) as u64 }
    } else {
        Double { bits: magnitude as u64 }
    }
}

pub open spec fn not_a_number() -> Double {
    Double { bits: 0x7ff8_0000_0000_0000 }
}

impl Double {
    pub open spec fn negative(self) -> bool {
        self.bits >= 0x8000_0000_0000_0000
    }

    pub open spec fn magnitude(self) -> nat {
        (self.bits % 0x8000_0000_0000_0000) as nat
    }

    pub open spec fn nan(self) -> bool {
        self.magnitude() > 0x7ff0_0000_0000_0000
    }

    pub open spec fn infinite(self) -> bool {
        self.magnitude() == 0x7ff0_0000_0000_0000
    }

    pub open spec fn finite(self) -> bool {
        self.magnitude() < 0x7ff0_0000_0000_0000
    }

    /// The exact value of a finite number, counted in the smallest positive double.
    pub open spec fn value(self) -> int {
        if self.negative() {
            -(units(self.magnitude()) as int)
        } else {
            units(self.magnitude()) as int
        }
    }

    /// The place of a number in the order of all numbers: the order of their bit
    /// patterns as signed magnitudes.
    pub open spec fn rank(self) -> int {
        if self.negative() {
            -(self.magnitude() as int)
        } else {
            self.magnitude() as int
        }
    }

    pub open spec fn lt(self, other: Double) -> bool {
        !self.nan() && !other.nan() && self.rank() < other.rank()
    }

    pub open spec fn same_number(self, other: Double) -> bool {
        !self.nan() && !other.nan() && self.rank() == other.rank()
    }

    /// The place in the order of all bit patterns: that of the numbers, with negative zero below
    /// zero, and what is not a number at either end.
    pub open spec fn total_rank(self) -> int {
        if self.negative() {
            -(self.magnitude() as int) - 1
        } else {
            self.magnitude() as int
        }
    }

    pub open spec fn absolute(self) -> Double {
        signed(false, self.magnitude())
    }

    pub open spec fn negated(self) -> Double {
        signed(!self.negative(), self.magnitude())
    }

    /// The sum, as IEEE 754 rounds it.
    pub open spec fn sum(self, other: Double) -> Double {
        if self.nan() || other.nan() {
            not_a_number()
        } else if self.infinite() {
            if other.infinite() && self.negative() != other.negative() {
                not_a_number()
            } else {
                self
            }
        } else if other.infinite() {
            other
        } else {
            let exact = self.value() + other.value();
            if exact == 0 {
                signed(self.negative() && other.negative(), 0)
            } else if exact < 0 {
                signed(true, nearest((-exact) as nat, 1))
            } else {
                signed(false, nearest(exact as nat, 1))
            }
        }
    }

    pub open spec fn difference(self, other: Double) -> Double {
        self.sum(other.negated())
    }

    /// The product, as IEEE 754 rounds it.
    pub open spec fn product(self, other: Double) -> Double {
        let negative = self.negative() != other.negative();
        if self.nan() || other.nan() {
            not_a_number()
        } else if self.infinite() || other.infinite() {
            if self.magnitude() == 0 || other.magnitude() == 0 {
                not_a_number()
            } else {
                signed(negative, 0x7ff0_0000_0000_0000)
            }
        } else {
            signed(
                negative,
                nearest(units(self.magnitude()) * units(other.magnitude()), power(2, 1074)),
            )
        }
    }

    /// The quotient, as IEEE 754 rounds it.
    pub open spec fn quotient(self, other: Double) -> Double {
        let negative = self.negative() != other.negative();
        if self.nan() || other.nan() {
            not_a_number()
        } else if self.infinite() {
            if other.infinite() {
                not_a_number()
            } else {
                signed(negative, 0x7ff0_0000_0000_0000)
            }
        } else if other.infinite() {
            signed(negative, 0)
        } else if other.magnitude() == 0 {
            if self.magnitude() == 0 {
                not_a_number()
            } else {
                signed(negative, 0x7ff0_0000_0000_0000)
            }
        } else {
            signed(
                negative,
                nearest(units(self.magnitude()) * power(2, 1074), units(other.magnitude())),
            )
        }
    }
}

/// The double nearest to a whole number.
pub open spec fn whole(n: nat) -> Double {
    signed(false, nearest(n * power(2, 1074), 1))
}

pub proof fn lemma_power_positive(base: nat, n: nat)
    requires
        base > 0,
    ensures
        power(base, n) > 0,
    decreases n,
{
    if n > 0 {
        lemma_power_positive(base, (n - 1) as nat);
        assert(base * power(base, (n - 1) as nat) > 0) by (nonlinear_arith)
            requires
                base > 0,
                power(base, (n - 1) as nat) > 0,
        ;
    }
}

pub proof fn lemma_power_sum(base: nat, m: nat, n: nat)
    ensures
        power(base, m + n) == power(base, m) * power(base, n),
    decreases m,
{
    if m > 0 {
        lemma_power_sum(base, (m - 1) as nat, n);
        assert(base * (power(base, (m - 1) as nat) * power(base, n)) == (base * power(
            base,
            (m - 1) as nat,
        )) * power(base, n)) by (nonlinear_arith);
        assert((m - 1 + n) as nat == (m + n - 1) as nat);
    } else {
        assert(power(base, 0) * power(base, n) == power(base, n)) by (nonlinear_arith)
            requires
                power(base, 0) == 1,
        ;
    }
}

pub proof fn lemma_power_le(base: nat, m: nat, n: nat)
    requires
        base > 0,
        m <= n,
    ensures
        power(base, m) <= power(base, n),
{
    lemma_power_sum(base, m, (n - m) as nat);
    lemma_power_positive(base, (n - m) as nat);
    assert(power(base, m) <= power(base, m) * power(base, (n - m) as nat)) by (nonlinear_arith)
        requires
            power(base, (n - m) as nat) >= 1,
    ;
}

/// What division by a positive number gives.
pub proof fn lemma_quotient(n: nat, d: nat, q: nat, r: nat)
    requires
        n == q * d + r,
        r < d,
    ensures
        n / d == q,
        n % d == r,
{
    vstd::arithmetic::div_mod::lemma_fundamental_div_mod_converse(
        n as int,
        d as int,
        q as int,
        r as int,
    );
}

pub proof fn lemma_nearest_even_scale(n: nat, d: nat, c: nat)
    requires
        d > 0,
        c > 0,
    ensures
        nearest_even(n * c, d * c) == nearest_even(n, d),
{
    let q = n / d;
    let r = n % d;
    vstd::arithmetic::div_mod::lemma_fundamental_div_mod(n as int, d as int);
    assert(n * c == q * (d * c) + r * c) by (nonlinear_arith)
        requires
            n == d * q + r,
    ;
    assert(r * c < d * c) by (nonlinear_arith)
        requires
            r < d,
            c > 0,
    ;
    lemma_quotient(n * c, d * c, q, r * c);
    assert((2 * r) * c == 2 * (r * c)) by (nonlinear_arith);
    if 2 * r < d {
        assert((2 * r) * c < d * c) by (nonlinear_arith)
            requires
                2 * r < d,
                c > 0,
        ;
    } else if 2 * r > d {
        assert((2 * r) * c > d * c) by (nonlinear_arith)
            requires
                2 * r > d,
                c > 0,
        ;
    }
}

/// A whole number closer than one half is the nearest one.
proof fn lemma_nearest_even_close(n: nat, d: nat, q: nat)
    requires
        d > 0,
        -(d as int) < 2 * (n - q * d) < d,
    ensures
        nearest_even(n, d) == q,
{
    let r = n - q * d;
    if r >= 0 {
        lemma_quotient(n, d, q, r as nat);
    } else {
        assert(q >= 1) by {
            if q == 0 {
                assert(q * d == 0) by (nonlinear_arith)
                    requires
                        q == 0,
                ;
            }
        }
        assert((q - 1) * d == q * d - d) by (nonlinear_arith);
        lemma_quotient(n, d, (q - 1) as nat, (d + r) as nat);
    }
}

/// The excess of `n / d`, from the power of two it lies below and the one it reaches.
pub proof fn lemma_excess(n: nat, d: nat, k: nat)
    requires
        d > 0,
        n < d * power(2, 53 + k),
        k == 0 || n >= d * power(2, (52 + k) as nat),
    ensures
        excess(n, d) == k,
    decreases k,
{
    lemma_power_53();
    if k > 0 {
        lemma_power_le(2, 53, (52 + k) as nat);
        assert(0x20_0000_0000_0000 * d <= d * power(2, (52 + k) as nat)) by (nonlinear_arith)
            requires
                power(2, (52 + k) as nat) >= 0x20_0000_0000_0000,
        ;
        assert(d * power(2, 53 + k) == (2 * d) * power(2, (52 + k) as nat)) by (nonlinear_arith)
            requires
                power(2, 53 + k) == 2 * power(2, (52 + k) as nat),
        ;
        if k > 1 {
            assert(d * power(2, (52 + k) as nat) == (2 * d) * power(2, (51 + k) as nat))
                by (nonlinear_arith)
                requires
                    power(2, (52 + k) as nat) == 2 * power(2, (51 + k) as nat),
            ;
        }
        assert(53 + (k - 1) == 52 + k);
        lemma_excess(n, 2 * d, (k - 1) as nat);
    } else {
        assert(d * power(2, 53) == 0x20_0000_0000_0000 * d) by (nonlinear_arith)
            requires
                power(2, 53) == 0x20_0000_0000_0000,
        ;
    }
}

proof fn lemma_power_8(n: nat)
    ensures
        power(2, n + 8) == 256 * power(2, n),
{
    reveal_with_fuel(power, 9);
    lemma_power_sum(2, n, 8);
    assert(power(2, 8) == 256);
}

pub proof fn lemma_power_53()
    ensures
        power(2, 52) == 0x10_0000_0000_0000,
        power(2, 53) == 0x20_0000_0000_0000,
        power(2, 54) == 0x40_0000_0000_0000,
{
    reveal_with_fuel(power, 9);
    assert(power(2, 4) == 16);
    lemma_power_8(4);
    lemma_power_8(12);
    lemma_power_8(20);
    lemma_power_8(28);
    lemma_power_8(36);
    lemma_power_8(44);
    assert(power(2, 53) == 2 * power(2, 52));
    assert(power(2, 54) == 2 * power(2, 53));
}

pub proof fn lemma_power_127()
    ensures
        power(2, 64) == 0x1_0000_0000_0000_0000,
        power(2, 127) == 0x8000_0000_0000_0000_0000_0000_0000_0000,
{
    lemma_power_53();
    reveal_with_fuel(power, 9);
    assert(power(2, 56) == 16 * power(2, 52));
    lemma_power_8(56);
    lemma_power_8(64);
    lemma_power_8(72);
    lemma_power_8(80);
    lemma_power_8(88);
    lemma_power_8(96);
    lemma_power_8(104);
    lemma_power_8(112);
    assert(power(2, 127) == 128 * power(2, 120));
}


/// The numerator of `n * 2^e / d` as a fraction of whole numbers.
pub open spec fn scaled_top(n: nat, e: int) -> nat {
    if e >= 0 {
        n * power(2, e as nat)
    } else {
        n
    }
}

/// The denominator of `n * 2^e / d` as a fraction of whole numbers.
pub open spec fn scaled_bottom(d: nat, e: int) -> nat {
    if e >= 0 {
        d
    } else {
        d * power(2, (-e) as nat)
    }
}

/// Comparing `n * 2^e / d` with `2^k` compares `n` with `d * 2^(k - e)`.
proof fn lemma_scaled_below(n: nat, d: nat, e: int, k: nat)
    requires
        k >= e,
    ensures
        (scaled_top(n, e) < scaled_bottom(d, e) * power(2, k)) == (n < d * power(
            2,
            (k - e) as nat,
        )),
{
    let s = (k - e) as nat;
    if e >= 0 {
        lemma_power_sum(2, s, e as nat);
        lemma_power_positive(2, e as nat);
        assert(s + e == k);
        let f = power(2, e as nat);
        assert(d * power(2, k) == (d * power(2, s)) * f) by (nonlinear_arith)
            requires
                power(2, k) == power(2, s) * f,
        ;
        let b = d * power(2, s);
        assert((n * f < b * f) == (n < b)) by (nonlinear_arith)
            requires
                f > 0,
        ;
    } else {
        lemma_power_sum(2, (-e) as nat, k);
        assert((-e) + k == s);
        assert(d * power(2, (-e) as nat) * power(2, k) == d * power(2, s)) by (nonlinear_arith)
            requires
                power(2, s) == power(2, (-e) as nat) * power(2, k),
        ;
    }
}

/// Rounding `n * 2^e / d` to a multiple of `2^k` rounds `n / (d * 2^(k - e))`.
proof fn lemma_scaled_nearest_even(n: nat, d: nat, e: int, k: nat)
    requires
        d > 0,
        k >= e,
    ensures
        nearest_even(scaled_top(n, e), scaled_bottom(d, e) * power(2, k)) == nearest_even(
            n,
            d * power(2, (k - e) as nat),
        ),
{
    let s = (k - e) as nat;
    if e >= 0 {
        lemma_power_sum(2, s, e as nat);
        lemma_power_positive(2, e as nat);
        lemma_power_positive(2, s);
        assert(s + e == k);
        let f = power(2, e as nat);
        assert(d * power(2, k) == (d * power(2, s)) * f) by (nonlinear_arith)
            requires
                power(2, k) == power(2, s) * f,
        ;
        assert(d * power(2, s) > 0) by (nonlinear_arith)
            requires
                d > 0,
                power(2, s) > 0,
        ;
        lemma_nearest_even_scale(n, d * power(2, s), f);
    } else {
        lemma_power_sum(2, (-e) as nat, k);
        assert((-e) + k == s);
        assert(d * power(2, (-e) as nat) * power(2, k) == d * power(2, s)) by (nonlinear_arith)
            requires
                power(2, s) == power(2, (-e) as nat) * power(2, k),
        ;
    }
}

/// Doubling the number and lowering the exponent keeps the fraction's nearest double.
proof fn lemma_scaled_double(n: nat, d: nat, e: int)
    requires
        d > 0,
    ensures
        nearest(scaled_top(2 * n, e - 1), scaled_bottom(d, e - 1)) == nearest(
            scaled_top(n, e),
            scaled_bottom(d, e),
        ),
{
    if e > 0 {
        assert(power(2, e as nat) == 2 * power(2, (e - 1) as nat));
        assert((2 * n) * power(2, (e - 1) as nat) == n * (2 * power(2, (e - 1) as nat)))
            by (nonlinear_arith);
    } else {
        let top = scaled_top(n, e);
        let bottom = scaled_bottom(d, e);
        lemma_power_positive(2, (-e) as nat);
        reveal_with_fuel(power, 2);
        assert(bottom > 0 && 2 * bottom == d * (2 * power(2, (-e) as nat))) by (nonlinear_arith)
            requires
                power(2, (-e) as nat) > 0,
                d > 0,
                bottom == d * power(2, (-e) as nat) || (e == 0 && bottom == d && power(
                    2,
                    (-e) as nat,
                ) == 1),
        ;
        assert(power(2, (1 - e) as nat) == 2 * power(2, (-e) as nat));
        assert(scaled_bottom(d, e - 1) == 2 * bottom);
        if e == 0 {
            assert(n * power(2, 0) == n) by (nonlinear_arith)
                requires
                    power(2, 0) == 1,
            ;
        }
        assert(top == n);
        lemma_nearest_double(top, bottom);
    }
}

proof fn lemma_excess_double(n: nat, d: nat)
    requires
        d > 0,
    ensures
        excess(2 * n, 2 * d) == excess(n, d),
    decreases n - d,
{
    if n >= 0x20_0000_0000_0000 * d {
        lemma_excess_double(n, 2 * d);
    }
}

proof fn lemma_nearest_double(n: nat, d: nat)
    requires
        d > 0,
    ensures
        nearest(2 * n, 2 * d) == nearest(n, d),
{
    lemma_excess_double(n, d);
    let k = excess(n, d);
    lemma_power_positive(2, k);
    assert(d * power(2, k) > 0 && (2 * d) * power(2, k) == (d * power(2, k)) * 2)
        by (nonlinear_arith)
        requires
            d > 0,
            power(2, k) > 0,
    ;
    lemma_nearest_even_scale(n, d * power(2, k), 2);
    assert(2 * n == n * 2);
}

/// Rounding `n / (d * 2^s)` from the quotient and the remainder of `n / d`.
proof fn lemma_round_quotient(n: nat, d: nat, s: nat)
    requires
        d > 0,
        s > 0,
    ensures
        ({
            let half = power(2, (s - 1) as nat);
            let whole = (n / d) / power(2, s);
            let rest = (n / d) % power(2, s);
            let up = rest > half || (rest == half && (n % d > 0 || whole % 2 == 1));
            nearest_even(n, d * power(2, s)) == (if up {
                whole + 1
            } else {
                whole
            })
        }),
{
    let p = power(2, s);
    let half = power(2, (s - 1) as nat);
    lemma_power_positive(2, s);
    let q0 = n / d;
    let r0 = n % d;
    let whole = q0 / p;
    let rest = q0 % p;
    vstd::arithmetic::div_mod::lemma_fundamental_div_mod(n as int, d as int);
    vstd::arithmetic::div_mod::lemma_fundamental_div_mod(q0 as int, p as int);
    let rem = rest * d + r0;
    assert(n == whole * (d * p) + rem) by (nonlinear_arith)
        requires
            n == d * q0 + r0,
            q0 == p * whole + rest,
            rem == rest * d + r0,
    ;
    assert(rem < d * p) by (nonlinear_arith)
        requires
            rem == rest * d + r0,
            r0 < d,
            rest < p,
    ;
    lemma_quotient(n, d * p, whole, rem as nat);
    assert(p == 2 * half);
    assert(d * p == 2 * (d * half)) by (nonlinear_arith)
        requires
            p == 2 * half,
    ;
    if rest < half {
        assert(rem < d * half) by (nonlinear_arith)
            requires
                rem == rest * d + r0,
                r0 < d,
                rest < half,
        ;
    } else if rest == half {
        assert(rest * d == d * half) by (nonlinear_arith)
            requires
                rest == half,
        ;
    } else {
        assert(rem > d * half) by (nonlinear_arith)
            requires
                rem == rest * d + r0,
                rest >= half + 1,
                d > 0,
        ;
    }
}

/// The magnitude of the double nearest to `n * 2^e / d`, in the smallest positive double.
fn round_scaled(n: u128, d: u64, e: i32) -> (r: u64)
    requires
        0 < d < 0x20_0000_0000_0000,
        n < 0x4000_0000_0000_0000_0000_0000_0000_0000,
        -4000 <= e <= 4000,
    ensures
        r == nearest(scaled_top(n as nat, e as int), scaled_bottom(d as nat, e as int)),
{
    proof {
        lemma_power_53();
        lemma_power_127();
    }
    if n == 0 {
        proof {
            let b = scaled_bottom(d as nat, e as int);
            if e >= 0 {
                assert(0 * power(2, e as nat) == 0) by (nonlinear_arith);
            } else {
                lemma_power_positive(2, (-e) as nat);
                assert(b > 0) by (nonlinear_arith)
                    requires
                        b == d * power(2, (-e) as nat),
                        d > 0,
                        power(2, (-e) as nat) > 0,
                ;
            }
            assert(scaled_top(0, e as int) == 0);
            assert(excess(0, b) == 0);
            assert(power(2, 0) == 1);
            assert(b * power(2, 0) == b) by (nonlinear_arith)
                requires
                    power(2, 0) == 1,
            ;
            lemma_quotient(0, b, 0, 0);
        }
        return 0;
    }
    let limit: u128 = (d as u128) * 0x20_0000_0000_0000u128;
    let mut m: u128 = n;
    let mut x: i32 = e;
    while m < limit
        invariant
            0 < d < 0x20_0000_0000_0000,
            limit == d * 0x20_0000_0000_0000,
            0 < m < 0x4000_0000_0000_0000_0000_0000_0000_0000,
            -4000 <= e <= 4000,
            x <= e,
            e - x <= 106,
            power(2, (e - x) as nat) <= m,
            nearest(scaled_top(m as nat, x as int), scaled_bottom(d as nat, x as int)) == nearest(
                scaled_top(n as nat, e as int),
                scaled_bottom(d as nat, e as int),
            ),
        decreases 2 * limit - m,
    {
        proof {
            lemma_scaled_double(m as nat, d as nat, x as int);
            assert(power(2, (e - x + 1) as nat) == 2 * power(2, (e - x) as nat));
            if e - x >= 106 {
                lemma_power_106();
                lemma_power_le(2, 106, (e - x) as nat);
            }
        }
        m = m * 2;
        x = x - 1;
    }
    let q0: u128 = m / (d as u128);
    let r0: u128 = m % (d as u128);
    proof {
        vstd::arithmetic::div_mod::lemma_fundamental_div_mod(m as int, d as int);
        assert(q0 >= 0x20_0000_0000_0000) by (nonlinear_arith)
            requires
                m >= d * 0x20_0000_0000_0000,
                m == d * q0 + r0,
                r0 < d,
        ;
        assert(q0 <= m) by (nonlinear_arith)
            requires
                m == d * q0 + r0,
                d >= 1,
                r0 >= 0,
        ;
    }
    let mut length: i32 = 54;
    let mut bound: u128 = 0x40_0000_0000_0000;
    while bound <= q0
        invariant
            54 <= length <= 127,
            bound == power(2, length as nat),
            q0 >= power(2, (length - 1) as nat),
            q0 < 0x4000_0000_0000_0000_0000_0000_0000_0000,
        decreases 127 - length,
    {
        proof {
            lemma_power_127();
            if length >= 126 {
                assert(power(2, 127) == 2 * power(2, 126));
                lemma_power_le(2, 126, length as nat);
            }
            lemma_power_le(2, (length + 1) as nat, 127);
            assert(power(2, (length + 1) as nat) == 2 * bound);
        }
        bound = bound * 2;
        length = length + 1;
    }
    let k: i32 = if length + x > 53 {
        length + x - 53
    } else {
        0
    };
    let s: i32 = k - x;
    proof {
        let top = scaled_top(m as nat, x as int);
        let bottom = scaled_bottom(d as nat, x as int);
        assert(bottom > 0) by {
            if x < 0 {
                lemma_power_positive(2, (-x) as nat);
                assert(d * power(2, (-x) as nat) > 0) by (nonlinear_arith)
                    requires
                        d > 0,
                        power(2, (-x) as nat) > 0,
                ;
            }
        }
        assert(m < d * power(2, length as nat)) by (nonlinear_arith)
            requires
                m == d * q0 + r0,
                r0 < d,
                q0 + 1 <= power(2, length as nat),
        ;
        assert(53 + k - x >= length);
        lemma_power_le(2, length as nat, (53 + k - x) as nat);
        assert(m < d * power(2, (53 + k - x) as nat)) by (nonlinear_arith)
            requires
                m < d * power(2, length as nat),
                power(2, length as nat) <= power(2, (53 + k - x) as nat),
                d > 0,
        ;
        lemma_scaled_below(m as nat, d as nat, x as int, (53 + k) as nat);
        if k > 0 {
            assert((52 + k - x) == length - 1);
            lemma_scaled_below(m as nat, d as nat, x as int, (52 + k) as nat);
            assert(m >= d * power(2, (length - 1) as nat)) by (nonlinear_arith)
                requires
                    m == d * q0 + r0,
                    r0 >= 0,
                    q0 >= power(2, (length - 1) as nat),
            ;
        }
        lemma_excess(top, bottom, k as nat);
        lemma_scaled_nearest_even(m as nat, d as nat, x as int, k as nat);
        lemma_round_quotient(m as nat, d as nat, s as nat);
    }
    let rounded: u128 = if s >= 127 {
        proof {
            lemma_power_le(2, 126, (s - 1) as nat);
            assert(power(2, 127) == 2 * power(2, 126));
            lemma_power_le(2, 127, s as nat);
            vstd::arithmetic::div_mod::lemma_small_mod(q0 as nat, power(2, s as nat));
            vstd::arithmetic::div_mod::lemma_basic_div(q0 as int, power(2, s as nat) as int);
        }
        0
    } else {
        let half: u128 = two_to((s - 1) as u32);
        let p: u128 = half * 2;
        let whole: u128 = q0 / p;
        let rest: u128 = q0 % p;
        if rest > half || (rest == half && (r0 > 0 || whole % 2 == 1)) {
            whole + 1
        } else {
            whole
        }
    };
    proof {
        if s < 127 {
            lemma_power_le(2, (length - 53) as nat, s as nat);
            lemma_power_sum(2, 53, (length - 53) as nat);
            assert(53 + (length - 53) == length);
            let p = power(2, s as nat);
            let w = q0 as nat / p;
            vstd::arithmetic::div_mod::lemma_fundamental_div_mod(q0 as int, p as int);
            assert(w < 0x20_0000_0000_0000) by (nonlinear_arith)
                requires
                    q0 < power(2, 53) * power(2, (length - 53) as nat),
                    power(2, 53) == 0x20_0000_0000_0000,
                    power(2, (length - 53) as nat) <= p,
                    p * w <= q0,
            ;
        }
    }
    if k >= 2047 {
        return INFINITE;
    }
    let magnitude: u64 = (k as u64) * HIDDEN + rounded as u64;
    if magnitude < INFINITE {
        magnitude
    } else {
        INFINITE
    }
}

proof fn lemma_power_106()
    ensures
        power(2, 106) == 0x20_0000_0000_0000 * 0x20_0000_0000_0000,
{
    lemma_power_53();
    lemma_power_sum(2, 53, 53);
    assert(53 + 53 == 106nat);
}

fn two_to(s: u32) -> (r: u128)
    requires
        s < 127,
    ensures
        r == power(2, s as nat),
        0 < r <= 0x4000_0000_0000_0000_0000_0000_0000_0000,
{
    proof {
        lemma_power_127();
        assert(power(2, 127) == 2 * power(2, 126));
    }
    let mut r: u128 = 1;
    let mut i: u32 = 0;
    while i < s
        invariant
            i <= s < 127,
            r == power(2, i as nat),
            power(2, 126) == 0x4000_0000_0000_0000_0000_0000_0000_0000,
        decreases s - i,
    {
        proof {
            lemma_power_le(2, (i + 1) as nat, 126);
        }
        r = r * 2;
        i += 1;
    }
    proof {
        lemma_power_le(2, s as nat, 126);
        lemma_power_positive(2, s as nat);
    }
    r
}

/// A term far below the last place of another does not change it.
proof fn lemma_far(m: nat, k: nat, small: nat, j: nat, n: nat)
    requires
        0x10_0000_0000_0000 <= m < 0x20_0000_0000_0000,
        small < 0x20_0000_0000_0000,
        j + 64 < k <= 2045,
        n == m * power(2, k) + small * power(2, j) || n == m * power(2, k) - small * power(2, j),
    ensures
        nearest(n, 1) == k * 0x10_0000_0000_0000 + m,
        small * power(2, j) < m * power(2, k),
{
    lemma_power_53();
    let p = power(2, k);
    let quarter = power(2, (k - 2) as nat);
    reveal_with_fuel(power, 3);
    assert(p == 4 * quarter);
    lemma_power_le(2, 53 + j, (k - 3) as nat);
    lemma_power_sum(2, 53, j);
    let t = small * power(2, j);
    lemma_power_positive(2, j);
    lemma_power_positive(2, (k - 3) as nat);
    assert(quarter == 2 * power(2, (k - 3) as nat));
    assert(t < quarter) by (nonlinear_arith)
        requires
            t == small * power(2, j),
            small < power(2, 53),
            power(2, 53 + j) == power(2, 53) * power(2, j),
            power(2, j) > 0,
            power(2, 53 + j) <= power(2, (k - 3) as nat),
            quarter == 2 * power(2, (k - 3) as nat),
            power(2, (k - 3) as nat) > 0,
    ;
    assert(m * p >= p) by (nonlinear_arith)
        requires
            m >= 1,
            p >= 0,
    ;
    lemma_power_sum(2, 53, k);
    lemma_power_sum(2, 52, k);
    assert(1 * power(2, 53 + k) == power(2, 53 + k));
    if m == 0x10_0000_0000_0000 && n < m * p {
        let h = power(2, (k - 1) as nat);
        assert(h == 2 * quarter);
        lemma_power_sum(2, 53, (k - 1) as nat);
        lemma_power_sum(2, 52, (k - 1) as nat);
        assert(53 + (k - 1) == 52 + k);
        assert(n < 1 * power(2, (52 + k) as nat));
        assert(n >= 1 * power(2, (51 + k) as nat)) by {
            assert(52 + (k - 1) == 51 + k);
            assert(0x10_0000_0000_0000 * (2 * h) == 2 * (0x10_0000_0000_0000 * h))
                by (nonlinear_arith);
            assert(n >= 0x10_0000_0000_0000 * (2 * h) - h);
            assert(0x10_0000_0000_0000 * h >= h) by (nonlinear_arith)
                requires
                    h >= 0,
            ;
        }
        lemma_excess(n, 1, (k - 1) as nat);
        assert(0x20_0000_0000_0000 * h == m * p) by (nonlinear_arith)
            requires
                m == 0x10_0000_0000_0000,
                p == 2 * h,
        ;
        lemma_nearest_even_close(n, h, 0x20_0000_0000_0000);
        assert(1 * power(2, (k - 1) as nat) == h);
    } else {
        assert(n < 1 * power(2, 53 + k)) by {
            assert((m + 1) * p <= 0x20_0000_0000_0000 * p) by (nonlinear_arith)
                requires
                    m + 1 <= 0x20_0000_0000_0000,
                    p >= 0,
            ;
            assert((m + 1) * p == m * p + p) by (nonlinear_arith);
        }
        assert(n >= 1 * power(2, (52 + k) as nat)) by {
            if m > 0x10_0000_0000_0000 {
                assert((m - 1) * p >= 0x10_0000_0000_0000 * p) by (nonlinear_arith)
                    requires
                        m - 1 >= 0x10_0000_0000_0000,
                        p >= 0,
                ;
                assert((m - 1) * p == m * p - p) by (nonlinear_arith);
            }
        }
        lemma_excess(n, 1, k);
        lemma_nearest_even_close(n, p, m);
        assert(1 * power(2, k) == p);
    }
}

/// A finite magnitude as a 53-bit number and a power of two.
pub fn split(magnitude: u64) -> (r: (u64, u32))
    requires
        magnitude < INFINITE,
    ensures
        units(magnitude as nat) == r.0 * power(2, r.1 as nat),
        r.0 < 0x20_0000_0000_0000,
        r.1 <= 2045,
        r.1 > 0 ==> r.0 >= 0x10_0000_0000_0000,
        magnitude == r.1 * 0x10_0000_0000_0000 + r.0,
        r.0 == 0 <==> magnitude == 0,
{
    let field: u64 = magnitude / HIDDEN;
    let fraction: u64 = magnitude % HIDDEN;
    if field == 0 {
        proof {
            assert(power(2, 0) == 1);
            assert(fraction * power(2, 0) == fraction) by (nonlinear_arith)
                requires
                    power(2, 0) == 1,
            ;
        }
        (fraction, 0)
    } else {
        (HIDDEN + fraction, (field - 1) as u32)
    }
}

fn with_sign(negative: bool, magnitude: u64) -> (r: Double)
    requires
        magnitude < SIGN,
    ensures
        r == signed(negative, magnitude as nat),
        r.negative() == negative,
        r.magnitude() == magnitude,
{
    if negative {
        Double { bits: SIGN + magnitude }
    } else {
        Double { bits: magnitude }
    }
}

/// The sum of `±m1 * 2^k1` and `±m2 * 2^k2`, the exponents at most 64 apart.
fn sum_near(n1: bool, m1: u64, k1: u32, n2: bool, m2: u64, k2: u32) -> (r: Double)
    requires
        m1 < 0x20_0000_0000_0000,
        m2 < 0x20_0000_0000_0000,
        k2 <= k1 <= k2 + 64,
        k1 <= 2045,
    ensures
        ({
            let v1 = m1 * power(2, k1 as nat);
            let v2 = m2 * power(2, k2 as nat);
            let exact = (if n1 {
                -v1
            } else {
                v1
            }) + (if n2 {
                -v2
            } else {
                v2
            });
            r == (if exact == 0 {
                signed(n1 && n2, 0)
            } else if exact < 0 {
                signed(true, nearest((-exact) as nat, 1))
            } else {
                signed(false, nearest(exact as nat, 1))
            })
        }),
{
    let f: u128 = two_to(k1 - k2);
    proof {
        lemma_power_53();
        lemma_power_127();
        lemma_power_le(2, (k1 - k2) as nat, 64);
        lemma_power_sum(2, (k1 - k2) as nat, k2 as nat);
        assert((k1 - k2) + k2 == k1);
        assert(m1 * f <= 0x20_0000_0000_0000 * 0x1_0000_0000_0000_0000) by (nonlinear_arith)
            requires
                m1 < 0x20_0000_0000_0000,
                0 <= f <= 0x1_0000_0000_0000_0000,
        ;
    }
    let a: u128 = (m1 as u128) * f;
    let b: u128 = m2 as u128;
    let ghost p = power(2, k2 as nat);
    proof {
        lemma_power_positive(2, k2 as nat);
        assert(m1 * power(2, k1 as nat) == a * p) by (nonlinear_arith)
            requires
                power(2, k1 as nat) == f * p,
                a == m1 * f,
        ;
        if a < b {
            assert(a * p < b * p && (b - a) * p == b * p - a * p) by (nonlinear_arith)
                requires
                    a < b,
                    p > 0,
            ;
        }
        if a > b {
            assert(b * p < a * p && (a - b) * p == a * p - b * p) by (nonlinear_arith)
                requires
                    b < a,
                    p > 0,
            ;
        }
        assert((a + b) * p == a * p + b * p) by (nonlinear_arith);
        assert(a + b > 0 ==> (a + b) * p > 0) by (nonlinear_arith)
            requires
                p > 0,
        ;
        assert(a + b == 0 ==> (a + b) * p == 0) by (nonlinear_arith);
    }
    if n1 == n2 {
        if a + b == 0 {
            return with_sign(n1, 0);
        }
        let magnitude: u64 = round_scaled(a + b, 1, k2 as i32);
        with_sign(n1, magnitude)
    } else if a == b {
        with_sign(false, 0)
    } else if a > b {
        let magnitude: u64 = round_scaled(a - b, 1, k2 as i32);
        with_sign(n1, magnitude)
    } else {
        let magnitude: u64 = round_scaled(b - a, 1, k2 as i32);
        with_sign(n2, magnitude)
    }
}

impl Double {
    pub fn is_nan(self) -> (r: bool)
        ensures
            r == self.nan(),
    {
        self.bits % SIGN > INFINITE
    }

    pub fn is_finite(self) -> (r: bool)
        ensures
            r == self.finite(),
    {
        self.bits % SIGN < INFINITE
    }

    pub fn abs(self) -> (r: Double)
        ensures
            r == self.absolute(),
    {
        with_sign(false, self.bits % SIGN)
    }

    pub fn neg(self) -> (r: Double)
        ensures
            r == self.negated(),
            r.magnitude() == self.magnitude(),
            r.negative() == !self.negative(),
    {
        with_sign(self.bits < SIGN, self.bits % SIGN)
    }

    pub fn less(self, other: Double) -> (r: bool)
        ensures
            r == self.lt(other),
    {
        if self.is_nan() || other.is_nan() {
            return false;
        }
        let a: u64 = self.bits % SIGN;
        let b: u64 = other.bits % SIGN;
        if self.bits >= SIGN {
            if other.bits >= SIGN {
                b < a
            } else {
                a > 0 || b > 0
            }
        } else {
            other.bits < SIGN && a < b
        }
    }

    pub fn total_less(self, other: Double) -> (r: bool)
        ensures
            r == (self.total_rank() < other.total_rank()),
    {
        let a: u64 = self.bits % SIGN;
        let b: u64 = other.bits % SIGN;
        if self.bits >= SIGN {
            other.bits < SIGN || b < a
        } else {
            other.bits < SIGN && a < b
        }
    }

    pub fn equals(self, other: Double) -> (r: bool)
        ensures
            r == self.same_number(other),
    {
        !self.is_nan() && !other.is_nan() && (self.bits == other.bits || (self.bits % SIGN == 0
            && other.bits % SIGN == 0))
    }

    pub fn plus(self, other: Double) -> (r: Double)
        ensures
            r == self.sum(other),
    {
        let a: u64 = self.bits % SIGN;
        let b: u64 = other.bits % SIGN;
        if a > INFINITE || b > INFINITE {
            return Double { bits: NOT_A_NUMBER };
        }
        if a == INFINITE {
            if b == INFINITE && self.bits != other.bits {
                return Double { bits: NOT_A_NUMBER };
            }
            return self;
        }
        if b == INFINITE {
            return other;
        }
        let n1: bool = self.bits >= SIGN;
        let n2: bool = other.bits >= SIGN;
        let (m1, k1): (u64, u32) = split(a);
        let (m2, k2): (u64, u32) = split(b);
        let ghost v1 = units(a as nat) as int;
        let ghost v2 = units(b as nat) as int;
        if k1 > k2 + 64 {
            proof {
                let exact = self.value() + other.value();
                let n = if exact < 0 {
                    -exact
                } else {
                    exact
                };
                lemma_far(m1 as nat, k1 as nat, m2 as nat, k2 as nat, (v1 + v2) as nat);
                lemma_far(m1 as nat, k1 as nat, m2 as nat, k2 as nat, (v1 - v2) as nat);
            }
            self
        } else if k2 > k1 + 64 {
            proof {
                lemma_far(m2 as nat, k2 as nat, m1 as nat, k1 as nat, (v2 + v1) as nat);
                lemma_far(m2 as nat, k2 as nat, m1 as nat, k1 as nat, (v2 - v1) as nat);
            }
            other
        } else if k1 >= k2 {
            sum_near(n1, m1, k1, n2, m2, k2)
        } else {
            sum_near(n2, m2, k2, n1, m1, k1)
        }
    }

    pub fn minus(self, other: Double) -> (r: Double)
        ensures
            r == self.difference(other),
    {
        self.plus(other.neg())
    }

    pub fn times(self, other: Double) -> (r: Double)
        ensures
            r == self.product(other),
    {
        let negative: bool = (self.bits >= SIGN) != (other.bits >= SIGN);
        let a: u64 = self.bits % SIGN;
        let b: u64 = other.bits % SIGN;
        if a > INFINITE || b > INFINITE {
            return Double { bits: NOT_A_NUMBER };
        }
        if a == INFINITE || b == INFINITE {
            if a == 0 || b == 0 {
                return Double { bits: NOT_A_NUMBER };
            }
            return with_sign(negative, INFINITE);
        }
        let (m1, k1): (u64, u32) = split(a);
        let (m2, k2): (u64, u32) = split(b);
        proof {
            assert(m1 * m2 < 0x4000_0000_0000_0000_0000_0000_0000_0000) by (nonlinear_arith)
                requires
                    0 <= m1 < 0x20_0000_0000_0000,
                    0 <= m2 < 0x20_0000_0000_0000,
            ;
        }
        let n: u128 = (m1 as u128) * (m2 as u128);
        let e: i32 = (k1 as i32) + (k2 as i32) - 1074;
        let magnitude: u64 = round_scaled(n, 1, e);
        proof {
            lemma_power_sum(2, k1 as nat, k2 as nat);
            let p1 = power(2, k1 as nat);
            let p2 = power(2, k2 as nat);
            assert((m1 * p1) * (m2 * p2) == n * power(2, (k1 + k2) as nat)) by (nonlinear_arith)
                requires
                    n == m1 * m2,
                    power(2, (k1 + k2) as nat) == p1 * p2,
            ;
            lemma_nearest_shift(n as nat, 1, (k1 + k2) as nat, 1074);
        }
        with_sign(negative, magnitude)
    }

    pub fn over(self, other: Double) -> (r: Double)
        ensures
            r == self.quotient(other),
    {
        let negative: bool = (self.bits >= SIGN) != (other.bits >= SIGN);
        let a: u64 = self.bits % SIGN;
        let b: u64 = other.bits % SIGN;
        if a > INFINITE || b > INFINITE {
            return Double { bits: NOT_A_NUMBER };
        }
        if a == INFINITE {
            if b == INFINITE {
                return Double { bits: NOT_A_NUMBER };
            }
            return with_sign(negative, INFINITE);
        }
        if b == INFINITE {
            return with_sign(negative, 0);
        }
        if b == 0 {
            if a == 0 {
                return Double { bits: NOT_A_NUMBER };
            }
            return with_sign(negative, INFINITE);
        }
        let (m1, k1): (u64, u32) = split(a);
        let (m2, k2): (u64, u32) = split(b);
        let e: i32 = (k1 as i32) + 1074 - (k2 as i32);
        let magnitude: u64 = round_scaled(m1 as u128, m2, e);
        proof {
            let p1 = power(2, k1 as nat);
            lemma_power_sum(2, k1 as nat, 1074);
            assert((m1 * p1) * power(2, 1074) == m1 * power(2, (k1 + 1074) as nat))
                by (nonlinear_arith)
                requires
                    power(2, (k1 + 1074) as nat) == p1 * power(2, 1074),
            ;
            lemma_nearest_shift(m1 as nat, m2 as nat, (k1 + 1074) as nat, k2 as nat);
        }
        with_sign(negative, magnitude)
    }

    /// The double nearest to a whole number.
    pub fn from_whole(n: u64) -> (r: Double)
        ensures
            r == whole(n as nat),
    {
        let magnitude: u64 = round_scaled(n as u128, 1, 1074);
        with_sign(false, magnitude)
    }
}

pub proof fn lemma_nearest_scale(n: nat, d: nat, j: nat)
    requires
        d > 0,
    ensures
        nearest(n * power(2, j), d * power(2, j)) == nearest(n, d),
    decreases j,
{
    if j > 0 {
        let f = power(2, (j - 1) as nat);
        lemma_nearest_scale(n, d, (j - 1) as nat);
        lemma_power_positive(2, (j - 1) as nat);
        assert(d * f > 0 && n * (2 * f) == 2 * (n * f) && d * (2 * f) == 2 * (d * f))
            by (nonlinear_arith)
            requires
                d > 0,
                f > 0,
        ;
        lemma_nearest_double(n * f, d * f);
    } else {
        assert(n * power(2, 0) == n && d * power(2, 0) == d) by (nonlinear_arith)
            requires
                power(2, 0) == 1,
        ;
    }
}

/// `n * 2^up / (d * 2^down)` and `n * 2^(up - down) / d` have the same nearest double.
proof fn lemma_nearest_shift(n: nat, d: nat, up: nat, down: nat)
    requires
        d > 0,
    ensures
        nearest(n * power(2, up), d * power(2, down)) == nearest(
            scaled_top(n, up - down),
            scaled_bottom(d, up - down),
        ),
{
    let e = up - down;
    if e >= 0 {
        lemma_power_sum(2, e as nat, down);
        assert(e + down == up);
        assert(n * power(2, up) == (n * power(2, e as nat)) * power(2, down)) by (nonlinear_arith)
            requires
                power(2, up) == power(2, e as nat) * power(2, down),
        ;
        lemma_nearest_scale(n * power(2, e as nat), d, down);
    } else {
        lemma_power_sum(2, (-e) as nat, up);
        assert((-e) + up == down);
        assert(d * power(2, down) == (d * power(2, (-e) as nat)) * power(2, up))
            by (nonlinear_arith)
            requires
                power(2, down) == power(2, (-e) as nat) * power(2, up),
        ;
        lemma_power_positive(2, (-e) as nat);
        assert(d * power(2, (-e) as nat) > 0) by (nonlinear_arith)
            requires
                d > 0,
                power(2, (-e) as nat) > 0,
        ;
        lemma_nearest_scale(n, d * power(2, (-e) as nat), up);
    }
}

/// A finite magnitude rounded to the nearest whole number, halves away from zero.
pub open spec fn rounded(magnitude: nat) -> nat {
    (2 * units(magnitude) + power(2, 1074)) / (2 * power(2, 1074))
}

/// A whole number held within the range of 64-bit signed integers.
pub open spec fn saturated(n: int) -> int {
    if n < i64::MIN {
        i64::MIN as int
    } else if n > i64::MAX {
        i64::MAX as int
    } else {
        n
    }
}

impl Double {
    /// The nearest whole number, halves away from zero, held within 64 bits; zero for what
    /// is not a number.
    pub open spec fn rounded_i64(self) -> int {
        if self.nan() {
            0
        } else if self.infinite() {
            if self.negative() {
                i64::MIN as int
            } else {
                i64::MAX as int
            }
        } else if self.negative() {
            saturated(-(rounded(self.magnitude()) as int))
        } else {
            saturated(rounded(self.magnitude()) as int)
        }
    }

    pub fn round_i64(self) -> (r: i64)
        ensures
            r == self.rounded_i64(),
    {
        let a: u64 = self.bits % SIGN;
        if a > INFINITE {
            return 0;
        }
        let negative: bool = self.bits >= SIGN;
        if a == INFINITE {
            return if negative {
                i64::MIN
            } else {
                i64::MAX
            };
        }
        let n: u128 = round_magnitude(a);
        if negative {
            if n >= 0x8000_0000_0000_0000 {
                i64::MIN
            } else {
                -(n as i64)
            }
        } else if n >= 0x8000_0000_0000_0000 {
            i64::MAX
        } else {
            n as i64
        }
    }
}

/// A finite magnitude rounded to a whole number; what exceeds 64 bits is told as some number
/// that does.
fn round_magnitude(a: u64) -> (r: u128)
    requires
        a < INFINITE,
    ensures
        r == rounded(a as nat) || (r >= 0x8000_0000_0000_0000 && rounded(a as nat)
            >= 0x8000_0000_0000_0000),
{
    let (m, k): (u64, u32) = split(a);
    let ghost one = power(2, 1074);
    proof {
        lemma_power_positive(2, 1074);
        lemma_power_127();
        lemma_power_53();
    }
    if k >= 1074 {
        let j: u32 = k - 1074;
        proof {
            lemma_power_sum(2, j as nat, 1074);
            assert(m * power(2, k as nat) == (m * power(2, j as nat)) * one) by (nonlinear_arith)
                requires
                    power(2, k as nat) == power(2, j as nat) * one,
            ;
            let w = m * power(2, j as nat);
            assert(2 * (w * one) + one == w * (2 * one) + one) by (nonlinear_arith);
            assert(w >= 0) by (nonlinear_arith)
                requires
                    w == m * power(2, j as nat),
                    m >= 0,
                    power(2, j as nat) >= 0,
            ;
            lemma_quotient((w * (2 * one) + one) as nat, 2 * one, w as nat, one);
        }
        if j > 64 {
            proof {
                lemma_power_le(2, 64, j as nat);
                assert(m * power(2, j as nat) >= 0x8000_0000_0000_0000) by (nonlinear_arith)
                    requires
                        m >= 0x10_0000_0000_0000,
                        power(2, j as nat) >= 0x1_0000_0000_0000_0000,
                ;
            }
            return 0x8000_0000_0000_0000;
        }
        let f: u128 = two_to(j);
        proof {
            lemma_power_le(2, j as nat, 64);
            assert(m * f <= 0x20_0000_0000_0000 * 0x1_0000_0000_0000_0000) by (nonlinear_arith)
                requires
                    0 <= m < 0x20_0000_0000_0000,
                    0 <= f <= 0x1_0000_0000_0000_0000,
            ;
        }
        (m as u128) * f
    } else {
        let s: u32 = 1074 - k;
        let ghost p = power(2, k as nat);
        let ghost half = power(2, (s - 1) as nat);
        let ghost full = power(2, s as nat);
        let ghost w = (m + half) / full as int;
        proof {
            lemma_power_positive(2, k as nat);
            lemma_power_positive(2, s as nat);
            lemma_power_sum(2, s as nat, k as nat);
            assert(s + k == 1074);
            assert(full == 2 * half);
            let rest = (m + half) % full as int;
            vstd::arithmetic::div_mod::lemma_fundamental_div_mod((m + half) as int, full as int);
            let top = 2 * (m * p) + one;
            assert(top == w * (2 * one) + rest * (2 * p)) by (nonlinear_arith)
                requires
                    top == 2 * (m * p) + one,
                    one == full * p,
                    full == 2 * half,
                    m + half == full * w + rest,
            ;
            assert(rest * (2 * p) < 2 * one) by (nonlinear_arith)
                requires
                    one == full * p,
                    rest < full,
                    p > 0,
            ;
            assert(0 <= rest * (2 * p)) by (nonlinear_arith)
                requires
                    rest >= 0,
                    p > 0,
            ;
            lemma_quotient(top as nat, 2 * one, w as nat, (rest * (2 * p)) as nat);
        }
        if s > 64 {
            proof {
                lemma_power_le(2, 54, (s - 1) as nat);
                vstd::arithmetic::div_mod::lemma_basic_div((m + half) as int, full as int);
            }
            return 0;
        }
        let h: u128 = two_to(s - 1);
        proof {
            lemma_power_le(2, (s - 1) as nat, 64);
        }
        (m as u128 + h) / (h * 2)
    }
}

/// A 53-bit number times a power of two is kept as it is.
proof fn lemma_exact(m: nat, j: nat)
    requires
        m < 0x20_0000_0000_0000,
        m >= 0x10_0000_0000_0000 || j == 0,
        j <= 2045,
    ensures
        nearest(m * power(2, j), 1) == j * 0x10_0000_0000_0000 + m,
        units(j * 0x10_0000_0000_0000 + m) == m * power(2, j),
{
    lemma_power_53();
    lemma_power_positive(2, j);
    lemma_power_sum(2, 53, j);
    lemma_power_sum(2, 52, j);
    let p = power(2, j);
    let n = m * p;
    assert(n < 1 * power(2, 53 + j)) by (nonlinear_arith)
        requires
            n == m * p,
            m < 0x20_0000_0000_0000,
            p > 0,
            power(2, 53 + j) == power(2, 53) * p,
            power(2, 53) == 0x20_0000_0000_0000,
    ;
    if j > 0 {
        assert(n >= 1 * power(2, (52 + j) as nat)) by (nonlinear_arith)
            requires
                n == m * p,
                m >= 0x10_0000_0000_0000,
                p > 0,
                power(2, (52 + j) as nat) == power(2, 52) * p,
                power(2, 52) == 0x10_0000_0000_0000,
        ;
    }
    lemma_excess(n, 1, j);
    lemma_nearest_even_scale(m, 1, p);
    assert(1 * p == p);
    lemma_quotient(m, 1, m, 0);
    let magnitude = j * 0x10_0000_0000_0000 + m;
    if m >= 0x10_0000_0000_0000 {
        assert(magnitude / 0x10_0000_0000_0000 == j + 1);
        assert(magnitude % 0x10_0000_0000_0000 == m - 0x10_0000_0000_0000);
    } else {
        assert(power(2, 0) == 1);
        assert(m * power(2, 0) == m) by (nonlinear_arith)
            requires
                power(2, 0) == 1,
        ;
    }
}

/// The value of a finite double is nearest to that double itself.
pub proof fn rounding_keeps_doubles(magnitude: nat)
    requires
        magnitude < 0x7ff0_0000_0000_0000,
    ensures
        nearest(units(magnitude), 1) == magnitude,
{
    let field = magnitude / 0x10_0000_0000_0000;
    let fraction = magnitude % 0x10_0000_0000_0000;
    if field == 0 {
        lemma_exact(fraction, 0);
        assert(power(2, 0) == 1);
        assert(fraction * power(2, 0) == fraction) by (nonlinear_arith)
            requires
                power(2, 0) == 1,
        ;
    } else {
        lemma_exact(0x10_0000_0000_0000 + fraction, (field - 1) as nat);
    }
}

/// Larger magnitudes have larger values.
pub proof fn values_grow_with_magnitudes(a: nat, b: nat)
    requires
        a < b < 0x7ff0_0000_0000_0000,
    ensures
        units(a) < units(b),
{
    let fa = a / 0x10_0000_0000_0000;
    let fb = b / 0x10_0000_0000_0000;
    let ra = a % 0x10_0000_0000_0000;
    let rb = b % 0x10_0000_0000_0000;
    assert(power(2, 0) == 1);
    if fa == fb {
        if fa > 0 {
            let p = power(2, (fa - 1) as nat);
            lemma_power_positive(2, (fa - 1) as nat);
            assert((0x10_0000_0000_0000 + ra) * p < (0x10_0000_0000_0000 + rb) * p)
                by (nonlinear_arith)
                requires
                    ra < rb,
                    p > 0,
            ;
        }
    } else {
        let q = power(2, (fb - 1) as nat);
        lemma_power_positive(2, (fb - 1) as nat);
        assert((0x10_0000_0000_0000 + rb) * q >= 0x10_0000_0000_0000 * q) by (nonlinear_arith)
            requires
                rb >= 0,
                q > 0,
        ;
        if fa == 0 {
            assert(0x10_0000_0000_0000 * q >= 0x10_0000_0000_0000) by (nonlinear_arith)
                requires
                    q >= 1,
            ;
        } else {
            let p = power(2, (fa - 1) as nat);
            lemma_power_le(2, fa, (fb - 1) as nat);
            assert(power(2, fa) == 2 * p);
            lemma_power_positive(2, (fa - 1) as nat);
            assert((0x10_0000_0000_0000 + ra) * p < 0x10_0000_0000_0000 * q) by (nonlinear_arith)
                requires
                    ra < 0x10_0000_0000_0000,
                    q >= 2 * p,
                    p > 0,
            ;
        }
    }
}

/// Comparing finite doubles compares their values.
pub proof fn order_is_the_order_of_values(a: Double, b: Double)
    requires
        a.finite(),
        b.finite(),
    ensures
        a.lt(b) == (a.value() < b.value()),
        a.same_number(b) == (a.value() == b.value()),
{
    let x = a.magnitude();
    let y = b.magnitude();
    assert(units(0) == 0);
    if x < y {
        values_grow_with_magnitudes(x, y);
    } else if y < x {
        values_grow_with_magnitudes(y, x);
    }
    if x > 0 {
        values_grow_with_magnitudes(0, x);
    }
    if y > 0 {
        values_grow_with_magnitudes(0, y);
    }
}

/// A whole number below 2^53 is a double: its value is the number.
pub proof fn small_wholes_are_exact(n: nat)
    requires
        n < 0x20_0000_0000_0000,
    ensures
        whole(n).finite(),
        !whole(n).negative(),
        whole(n).value() == n * power(2, 1074),
{
    assert(power(2, 0) == 1);
    assert(n * power(2, 0) == n) by (nonlinear_arith)
        requires
            power(2, 0) == 1,
    ;
    lemma_whole(n, n, 0);
}

proof fn lemma_whole(n: nat, m: nat, s: nat)
    requires
        n < 0x20_0000_0000_0000,
        m == n * power(2, s),
        m < 0x20_0000_0000_0000,
        s <= 1074,
    ensures
        whole(n).finite(),
        !whole(n).negative(),
        whole(n).value() == n * power(2, 1074),
    decreases 1074 - s,
{
    lemma_power_53();
    let one = power(2, 1074);
    if n == 0 {
        assert(0 * one == 0) by (nonlinear_arith);
        assert(excess(0, 1) == 0);
        assert(power(2, 0) == 1);
        lemma_quotient(0, 1, 0, 0);
        assert(units(0) == 0);
    } else if m >= 0x10_0000_0000_0000 || s == 1074 {
        let j = (1074 - s) as nat;
        lemma_power_sum(2, s, j);
        assert(s + j == 1074);
        let p = power(2, j);
        assert(n * one == m * p) by (nonlinear_arith)
            requires
                one == power(2, s) * p,
                m == n * power(2, s),
        ;
        if s == 1074 && m < 0x10_0000_0000_0000 {
            lemma_power_le(2, 53, 1074);
            assert(m >= power(2, 1074)) by (nonlinear_arith)
                requires
                    m == n * power(2, 1074),
                    n >= 1,
            ;
        }
        lemma_exact(m, j);
    } else {
        assert(power(2, s + 1) == 2 * power(2, s));
        assert(2 * m == n * (2 * power(2, s))) by (nonlinear_arith)
            requires
                m == n * power(2, s),
        ;
        lemma_whole(n, 2 * m, s + 1);
    }
}

/// One is the whole number one.
pub proof fn one_is_whole()
    ensures
        whole(1) == (Double { bits: ONE }),
{
    lemma_power_53();
    let p = power(2, 1022);
    lemma_power_sum(2, 52, 1022);
    assert(52nat + 1022nat == 1074nat);
    assert(1 * power(2, 1074) == 0x10_0000_0000_0000 * p) by (nonlinear_arith)
        requires
            power(2, 1074) == power(2, 52) * p,
            power(2, 52) == 0x10_0000_0000_0000,
    ;
    lemma_exact(0x10_0000_0000_0000, 1022);
}

/// Adding nothing to a number that is not negative leaves it.
pub proof fn adding_zero_keeps(x: Double)
    requires
        x.finite(),
        !x.negative(),
    ensures
        x.sum(whole(0)) == x,
        whole(0) == (Double { bits: 0 }),
{
    small_wholes_are_exact(0);
    rounding_keeps_doubles(0);
    assert(units(0) == 0);
    assert(0 * power(2, 1074) == 0) by (nonlinear_arith);
    assert(whole(0) == (Double { bits: 0 }));
    rounding_keeps_doubles(x.magnitude());
    if x.magnitude() > 0 {
        values_grow_with_magnitudes(0, x.magnitude());
    }
}

/// Nothing divided by a positive number is nothing.
pub proof fn zero_divided_is_zero(x: Double)
    requires
        x.finite(),
        !x.negative(),
        x.magnitude() > 0,
    ensures
        whole(0).quotient(x) == whole(0),
{
    adding_zero_keeps(x);
    assert(units(0) == 0);
    values_grow_with_magnitudes(0, x.magnitude());
    let d = units(x.magnitude());
    assert(0 * power(2, 1074) == 0) by (nonlinear_arith);
    assert(excess(0, d) == 0);
    assert(power(2, 0) == 1);
    assert(d * power(2, 0) == d) by (nonlinear_arith)
        requires
            power(2, 0) == 1,
    ;
    lemma_quotient(0, d, 0, 0);
}

/// Taking one from a small whole number gives the one before it.
pub proof fn counting_down(n: nat)
    requires
        0 < n < 0x20_0000_0000_0000,
    ensures
        whole(n).difference(Double { bits: ONE }) == whole((n - 1) as nat),
{
    let one = power(2, 1074);
    lemma_power_positive(2, 1074);
    small_wholes_are_exact(n);
    small_wholes_are_exact(1);
    small_wholes_are_exact((n - 1) as nat);
    one_is_whole();
    assert(1 * one == one);
    assert(n * one - one == (n - 1) * one) by (nonlinear_arith);
    let minus = (Double { bits: ONE }).negated();
    assert(minus.magnitude() == ONE && minus.negative());
    assert(minus.value() == -one);
    if n == 1 {
        assert(0 * one == 0) by (nonlinear_arith);
        adding_zero_keeps(whole(0));
    } else {
        assert((n - 1) * one > 0) by (nonlinear_arith)
            requires
                n > 1,
                one > 0,
        ;
    }
}

} // verus!
