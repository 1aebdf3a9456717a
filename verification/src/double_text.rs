//! Doubles as decimal text with a fixed number of places.

use vstd::prelude::*;
use crate::digits::{
    digits_of, extend, lemma_power_product, round_off, scale_often, shift_up, total,
    write_with_point,
};
use crate::double::{
    lemma_nearest_even_scale, lemma_power_positive, lemma_power_sum, lemma_quotient, nearest_even,
    power, split, units, Double, INFINITE, SIGN,
};
use crate::text::{dec, digit};

verus! {

/// The last `width` decimal digits of `n`.
pub open spec fn padded(n: nat, width: nat) -> Seq<char>
    decreases width,
{
    if width == 0 {
        Seq::empty()
    } else {
        padded(n / 10, (width - 1) as nat).push(digit(n % 10))
    }
}

/// `n / 10^places` in decimal.
pub open spec fn with_point(n: nat, places: nat) -> Seq<char> {
    if places == 0 {
        dec(n)
    } else {
        dec(n / power(10, places)).push('.') + padded(n % power(10, places), places)
    }
}

impl Double {
    /// The magnitude in decimal with `places` digits behind the point: the nearest such
    /// decimal, ties to the even one.
    pub open spec fn unsigned_text(self, places: nat) -> Seq<char> {
        if self.infinite() {
            "inf"@
        } else {
            with_point(
                nearest_even(units(self.magnitude()) * power(10, places), power(2, 1074)),
                places,
            )
        }
    }

    /// The number in decimal with `places` digits behind the point.
    pub open spec fn fixed_text(self, places: nat) -> Seq<char> {
        if self.nan() {
            "NaN"@
        } else if self.negative() {
            "-"@ + self.unsigned_text(places)
        } else {
            self.unsigned_text(places)
        }
    }

    /// The same with a sign in front of every number.
    pub open spec fn signed_text(self, places: nat) -> Seq<char> {
        if self.nan() {
            "NaN"@
        } else if self.negative() {
            "-"@ + self.unsigned_text(places)
        } else {
            "+"@ + self.unsigned_text(places)
        }
    }

    pub fn fixed(self, places: usize) -> (r: String)
        requires
            places <= 20,
        ensures
            r@ == self.fixed_text(places as nat),
    {
        if self.is_nan() {
            return String::from_str("NaN");
        }
        let body = magnitude_text(self, places);
        if self.bits >= SIGN {
            let mut out = String::from_str("-");
            out.append(body.as_str());
            out
        } else {
            body
        }
    }

    pub fn fixed_signed(self, places: usize) -> (r: String)
        requires
            places <= 20,
        ensures
            r@ == self.signed_text(places as nat),
    {
        if self.is_nan() {
            return String::from_str("NaN");
        }
        let body = magnitude_text(self, places);
        let mut out = String::from_str(if self.bits >= SIGN {
            "-"
        } else {
            "+"
        });
        out.append(body.as_str());
        out
    }
}

fn magnitude_text(x: Double, places: usize) -> (r: String)
    requires
        !x.nan(),
        places <= 20,
    ensures
        r@ == x.unsigned_text(places as nat),
{
    let a: u64 = x.bits % SIGN;
    if a == INFINITE {
        return String::from_str("inf");
    }
    let (m, k): (u64, u32) = split(a);
    let mut digits: Vec<u8> = digits_of(m);
    let ghost ten = power(10, places as nat);
    let ghost wanted = nearest_even(units(a as nat) * ten, power(2, 1074));
    let result: Vec<u8>;
    if k >= 1074 {
        scale_often(&mut digits, 2, k - 1074);
        result = shift_up(&digits, places);
        proof {
            let f = power(2, (k - 1074) as nat);
            let one = power(2, 1074);
            lemma_power_sum(2, (k - 1074) as nat, 1074);
            assert((k - 1074) + 1074 == k);
            lemma_power_positive(2, 1074);
            let v = (m * f) * ten;
            assert((m * power(2, k as nat)) * ten == v * one) by (nonlinear_arith)
                requires
                    power(2, k as nat) == f * one,
                    v == (m * f) * ten,
            ;
            assert(v >= 0) by (nonlinear_arith)
                requires
                    v == (m * f) * ten,
                    m >= 0,
                    f >= 0,
                    ten >= 0,
            ;
            lemma_nearest_even_scale(v as nat, 1, one);
            assert(1 * one == one);
            lemma_quotient(v as nat, 1, v as nat, 0);
        }
    } else {
        let s: u32 = 1074 - k;
        scale_often(&mut digits, 5, s);
        let ghost five = power(5, s as nat);
        let ghost hundred = power(10, s as nat);
        proof {
            let p = power(2, k as nat);
            let two = power(2, s as nat);
            lemma_power_sum(2, s as nat, k as nat);
            assert(s + k == 1074);
            lemma_power_positive(2, k as nat);
            lemma_power_positive(2, s as nat);
            lemma_power_positive(5, s as nat);
            lemma_power_product(s as nat);
            let mt = m * ten;
            assert(mt >= 0) by (nonlinear_arith)
                requires
                    mt == m * ten,
                    m >= 0,
                    ten >= 0,
            ;
            assert((m * p) * ten == mt * p) by (nonlinear_arith)
                requires
                    mt == m * ten,
            ;
            lemma_nearest_even_scale(mt as nat, two, p);
            lemma_nearest_even_scale(mt as nat, two, five);
            assert(mt * five == (m * five) * ten) by (nonlinear_arith)
                requires
                    mt == m * ten,
            ;
            assert(wanted == nearest_even(total(digits@) * ten, hundred));
        }
        if s as usize <= places {
            let zeros: usize = places - s as usize;
            result = shift_up(&digits, zeros);
            proof {
                let z = power(10, zeros as nat);
                lemma_power_sum(10, zeros as nat, s as nat);
                assert(zeros + s == places);
                lemma_power_positive(10, s as nat);
                let v = total(digits@) * z;
                assert(total(digits@) * ten == v * hundred) by (nonlinear_arith)
                    requires
                        ten == z * hundred,
                        v == total(digits@) * z,
                ;
                lemma_nearest_even_scale(v, 1, hundred);
                assert(1 * hundred == hundred);
                lemma_quotient(v, 1, v, 0);
            }
        } else {
            let drop: usize = s as usize - places;
            extend(&mut digits, drop);
            result = round_off(&digits, drop);
            proof {
                lemma_power_sum(10, drop as nat, places as nat);
                assert(drop + places == s);
                lemma_power_positive(10, places as nat);
                lemma_power_positive(10, drop as nat);
                lemma_nearest_even_scale(total(digits@), power(10, drop as nat), ten);
            }
        }
    }
    assert(total(result@) == wanted);
    write_with_point(result, places)
}

} // verus!
