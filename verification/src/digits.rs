//! Numbers of any size as decimal digits, the lowest digit first.

use vstd::prelude::*;
use crate::double::{
    lemma_power_positive, lemma_power_sum, lemma_quotient, nearest_even, power,
};
use crate::double_text::{padded, with_point};
use crate::text::{dec, digit};

verus! {

/// The number that decimal digits stand for, the lowest digit first.
pub(crate) open spec fn total(digits: Seq<u8>) -> nat
    decreases digits.len(),
{
    if digits.len() == 0 {
        0
    } else {
        total(digits.drop_last()) + digits.last() as nat * power(10, (digits.len() - 1) as nat)
    }
}

pub(crate) open spec fn all_digits(digits: Seq<u8>) -> bool {
    forall|i: int| 0 <= i < digits.len() ==> digits[i] < 10
}

/// No high zeros.
pub(crate) open spec fn tight(digits: Seq<u8>) -> bool {
    digits.len() > 0 ==> digits.last() != 0
}

pub(crate) proof fn lemma_total_bound(digits: Seq<u8>)
    requires
        all_digits(digits),
    ensures
        total(digits) < power(10, digits.len()),
    decreases digits.len(),
{
    if digits.len() > 0 {
        lemma_total_bound(digits.drop_last());
        let p = power(10, (digits.len() - 1) as nat);
        let d = digits.last() as nat;
        assert(d < 10);
        assert(d * p + p <= 10 * p) by (nonlinear_arith)
            requires
                d <= 9,
        ;
    }
}

/// Low digits and high digits.
pub(crate) proof fn lemma_total_split(digits: Seq<u8>, at: int)
    requires
        0 <= at <= digits.len(),
    ensures
        total(digits) == total(digits.subrange(0, at)) + power(10, at as nat) * total(
            digits.subrange(at, digits.len() as int),
        ),
    decreases digits.len() - at,
{
    if at == digits.len() {
        assert(digits.subrange(0, at) =~= digits);
        assert(digits.subrange(at, at) =~= Seq::<u8>::empty());
        assert(power(10, at as nat) * 0 == 0) by (nonlinear_arith);
    } else {
        let front = digits.drop_last();
        lemma_total_split(front, at);
        let high = digits.subrange(at, digits.len() as int);
        assert(front.subrange(0, at) =~= digits.subrange(0, at));
        assert(high.drop_last() =~= front.subrange(at, front.len() as int));
        assert(high.last() == digits.last());
        let n = (digits.len() - 1 - at) as nat;
        lemma_power_sum(10, at as nat, n);
        assert(at as nat + n == (digits.len() - 1) as nat);
        let d = digits.last() as nat;
        let a = power(10, at as nat);
        assert(a * (total(high.drop_last()) + d * power(10, n)) == a * total(high.drop_last()) + d
            * (a * power(10, n))) by (nonlinear_arith);
    }
}

pub(crate) proof fn lemma_total_zeros(digits: Seq<u8>)
    requires
        forall|i: int| 0 <= i < digits.len() ==> digits[i] == 0,
    ensures
        total(digits) == 0,
    decreases digits.len(),
{
    if digits.len() > 0 {
        lemma_total_zeros(digits.drop_last());
        let p = power(10, (digits.len() - 1) as nat);
        assert(0 * p == 0) by (nonlinear_arith);
    }
}

pub(crate) proof fn lemma_total_zero_only(digits: Seq<u8>)
    requires
        total(digits) == 0,
    ensures
        forall|i: int| 0 <= i < digits.len() ==> digits[i] == 0,
    decreases digits.len(),
{
    if digits.len() > 0 {
        let p = power(10, (digits.len() - 1) as nat);
        lemma_power_positive(10, (digits.len() - 1) as nat);
        let d = digits.last() as nat;
        assert(d == 0) by (nonlinear_arith)
            requires
                d * p == 0,
                p > 0,
        ;
        lemma_total_zero_only(digits.drop_last());
        assert forall|i: int| 0 <= i < digits.len() implies digits[i] == 0 by {
            if i < digits.len() - 1 {
                assert(digits.drop_last()[i] == 0);
            }
        }
    }
}

/// The lowest digit and the rest.
pub(crate) proof fn lemma_total_first(digits: Seq<u8>)
    requires
        digits.len() > 0,
        all_digits(digits),
    ensures
        total(digits) == digits[0] + 10 * total(digits.subrange(1, digits.len() as int)),
        total(digits) / 10 == total(digits.subrange(1, digits.len() as int)),
        total(digits) % 10 == digits[0],
{
    lemma_total_split(digits, 1);
    reveal_with_fuel(power, 2);
    let one = digits.subrange(0, 1);
    reveal_with_fuel(total, 2);
    assert(one.drop_last() =~= Seq::<u8>::empty());
    assert(one.last() == digits[0]);
    assert(digits[0] as nat * 1 == digits[0]);
}

/// Digits written from the highest down.
pub(crate) open spec fn written(digits: Seq<u8>) -> Seq<char>
    decreases digits.len(),
{
    if digits.len() == 0 {
        Seq::empty()
    } else {
        written(digits.subrange(1, digits.len() as int)).push(digit(digits[0] as nat))
    }
}

pub(crate) proof fn lemma_written_padded(digits: Seq<u8>)
    requires
        all_digits(digits),
    ensures
        written(digits) == padded(total(digits), digits.len()),
    decreases digits.len(),
{
    if digits.len() > 0 {
        lemma_total_first(digits);
        lemma_written_padded(digits.subrange(1, digits.len() as int));
    }
}

pub(crate) proof fn lemma_written_split(digits: Seq<u8>, at: int)
    requires
        0 <= at <= digits.len(),
    ensures
        written(digits) == written(digits.subrange(at, digits.len() as int)) + written(
            digits.subrange(0, at),
        ),
        written(digits).len() == digits.len(),
    decreases digits.len(),
{
    let n = digits.len() as int;
    if n == 0 {
        assert(digits.subrange(0, 0) =~= digits && digits.subrange(at, n) =~= digits);
        assert(written(digits) =~= Seq::<char>::empty());
    } else {
        let rest = digits.subrange(1, n);
        if at == 0 {
            lemma_written_split(rest, 0);
            assert(digits.subrange(0, n) =~= digits);
            assert(digits.subrange(0, 0) =~= Seq::<u8>::empty());
            assert(written(digits) + written(Seq::<u8>::empty()) =~= written(digits));
        } else {
            lemma_written_split(rest, at - 1);
            let low = digits.subrange(0, at);
            assert(rest.subrange(at - 1, n - 1) =~= digits.subrange(at, n));
            assert(low.subrange(1, at) =~= rest.subrange(0, at - 1));
            assert(written(digits) =~= written(digits.subrange(at, n)) + written(low));
        }
    }
}

pub(crate) proof fn lemma_written_dec(digits: Seq<u8>)
    requires
        digits.len() > 0,
        all_digits(digits),
        digits.len() == 1 || digits.last() != 0,
    ensures
        written(digits) == dec(total(digits)),
    decreases digits.len(),
{
    lemma_total_first(digits);
    let rest = digits.subrange(1, digits.len() as int);
    if digits.len() == 1 {
        assert(rest =~= Seq::<u8>::empty());
        assert(total(rest) == 0);
        assert(written(rest) =~= Seq::<char>::empty());
        assert(written(digits) =~= seq![digit(digits[0] as nat)]);
    } else {
        lemma_written_dec(rest);
        assert(total(rest) > 0) by {
            if total(rest) == 0 {
                lemma_total_zero_only(rest);
                assert(rest.last() == digits.last());
                assert(rest[rest.len() - 1] == 0);
            }
        }
    }
}

/// Writes `digits[from..to]` from the highest down behind `out`.
pub(crate) fn write_down(out: &mut String, digits: &Vec<u8>, from: usize, to: usize)
    requires
        from <= to <= digits@.len(),
        all_digits(digits@),
    ensures
        final(out)@ == old(out)@ + written(digits@.subrange(from as int, to as int)),
{
    let mut i: usize = to;
    let ghost start = out@;
    let ghost part = digits@.subrange(from as int, to as int);
    proof {
        assert(part.subrange(part.len() as int, part.len() as int) =~= Seq::<u8>::empty());
        assert(start + Seq::<char>::empty() =~= start);
    }
    while i > from
        invariant
            from <= i <= to <= digits@.len(),
            all_digits(digits@),
            part == digits@.subrange(from as int, to as int),
            out@ == start + written(part.subrange(i - from, part.len() as int)),
        decreases i,
    {
        i -= 1;
        proof {
            let now = part.subrange(i - from, part.len() as int);
            assert(now.subrange(1, now.len() as int) =~= part.subrange(
                i + 1 - from,
                part.len() as int,
            ));
            assert(now[0] == digits@[i as int]);
            assert((start + written(now.subrange(1, now.len() as int))).push(digit(now[0] as nat))
                =~= start + written(now));
        }
        out.push((48 + digits[i]) as char);
    }
    assert(part.subrange(0, part.len() as int) =~= part);
}

/// Multiplies the number that the digits stand for with a small factor.
pub(crate) fn scale_digits(digits: &mut Vec<u8>, factor: u8)
    requires
        all_digits(old(digits)@),
        0 < factor < 10,
        old(digits)@.len() < 100_000,
    ensures
        all_digits(final(digits)@),
        total(final(digits)@) == factor * total(old(digits)@),
        old(digits)@.len() <= final(digits)@.len() <= old(digits)@.len() + 1,
        tight(old(digits)@) ==> tight(final(digits)@),
{
    let ghost before = digits@;
    let n: usize = digits.len();
    let mut carry: u8 = 0;
    let mut i: usize = 0;
    proof {
        assert(before.subrange(0, 0) =~= Seq::<u8>::empty());
        assert(digits@.subrange(0, 0) =~= Seq::<u8>::empty());
        assert(0 * power(10, 0) == 0);
        assert(factor * 0 == 0);
    }
    while i < n
        invariant
            i <= n == digits@.len() == before.len(),
            0 < factor < 10,
            carry < 10,
            all_digits(before),
            all_digits(digits@),
            forall|j: int| i <= j < n ==> digits@[j] == before[j],
            total(digits@.subrange(0, i as int)) + carry * power(10, i as nat) == factor * total(
                before.subrange(0, i as int),
            ),
            tight(before) && i == n && n > 0 && carry == 0 ==> digits@[n - 1] != 0,
        decreases n - i,
    {
        let ghost prior = digits@;
        let d: u8 = digits[i];
        assert(d == before[i as int] && d < 10);
        assert(d * factor <= 81) by (nonlinear_arith)
            requires
                0 <= d <= 9,
                0 <= factor <= 9,
        ;
        let product: u8 = d * factor + carry;
        assert(d > 0 ==> d * factor > 0) by (nonlinear_arith)
            requires
                factor > 0,
        ;
        digits.set(i, product % 10);
        proof {
            let p = power(10, i as nat);
            let now = digits@.subrange(0, i + 1);
            let was = before.subrange(0, i + 1);
            assert(now.drop_last() =~= prior.subrange(0, i as int));
            assert(was.drop_last() =~= before.subrange(0, i as int));
            assert(now.last() == product % 10);
            assert(was.last() == d);
            let low = (product % 10) as nat;
            let high = (product / 10) as nat;
            let a = total(prior.subrange(0, i as int));
            let b = total(before.subrange(0, i as int));
            assert(power(10, (i + 1) as nat) == 10 * p);
            assert(a + low * p + high * (10 * p) == factor * (b + d * p)) by (nonlinear_arith)
                requires
                    a + carry * p == factor * b,
                    low + 10 * high == d * factor + carry,
            ;
        }
        carry = product / 10;
        i += 1;
    }
    proof {
        assert(digits@.subrange(0, n as int) =~= digits@);
        assert(before.subrange(0, n as int) =~= before);
    }
    if carry > 0 {
        let ghost prior = digits@;
        digits.push(carry);
        proof {
            assert(digits@.drop_last() =~= prior);
        }
    } else {
        assert(0 * power(10, n as nat) == 0) by (nonlinear_arith);
    }
}

/// Adds one to the number that the digits stand for.
pub(crate) fn increment(digits: &mut Vec<u8>)
    requires
        all_digits(old(digits)@),
        old(digits)@.len() < 100_000,
    ensures
        all_digits(final(digits)@),
        total(final(digits)@) == total(old(digits)@) + 1,
        old(digits)@.len() <= final(digits)@.len() <= old(digits)@.len() + 1,
{
    let ghost before = digits@;
    let n: usize = digits.len();
    let mut i: usize = 0;
    proof {
        assert(before.subrange(0, 0) =~= Seq::<u8>::empty());
        assert(digits@.subrange(0, 0) =~= Seq::<u8>::empty());
        assert(1 * power(10, 0) == 1);
    }
    while i < n
        invariant
            i <= n == digits@.len() == before.len(),
            n < 100_000,
            before == old(digits)@,
            all_digits(before),
            all_digits(digits@),
            forall|j: int| i <= j < n ==> digits@[j] == before[j],
            total(digits@.subrange(0, i as int)) + power(10, i as nat) == total(
                before.subrange(0, i as int),
            ) + 1,
        decreases n - i,
    {
        let ghost prior = digits@;
        let d: u8 = digits[i];
        assert(d == before[i as int] && d < 10);
        let ghost p = power(10, i as nat);
        if d < 9 {
            digits.set(i, d + 1);
            proof {
                lemma_total_split(digits@, i as int + 1);
                lemma_total_split(before, i as int + 1);
                let now = digits@.subrange(0, i + 1);
                let was = before.subrange(0, i + 1);
                assert(now.drop_last() =~= prior.subrange(0, i as int));
                assert(was.drop_last() =~= before.subrange(0, i as int));
                assert(digits@.subrange(i + 1, n as int) =~= before.subrange(i + 1, n as int));
                assert((d + 1) * p == d * p + p) by (nonlinear_arith);
            }
            return;
        }
        digits.set(i, 0);
        proof {
            let now = digits@.subrange(0, i + 1);
            let was = before.subrange(0, i + 1);
            assert(now.drop_last() =~= prior.subrange(0, i as int));
            assert(was.drop_last() =~= before.subrange(0, i as int));
            assert(power(10, (i + 1) as nat) == 10 * p);
            assert(0 * p == 0 && 9 * p + p == 10 * p) by (nonlinear_arith);
        }
        i += 1;
    }
    proof {
        assert(digits@.subrange(0, n as int) =~= digits@);
        assert(before.subrange(0, n as int) =~= before);
    }
    let ghost prior = digits@;
    digits.push(1);
    proof {
        assert(digits@.drop_last() =~= prior);
        assert(1 * power(10, n as nat) == power(10, n as nat));
    }
}

/// The digits of a number.
pub(crate) fn digits_of(n: u64) -> (r: Vec<u8>)
    ensures
        all_digits(r@),
        total(r@) == n,
        r@.len() <= 20,
        tight(r@),
{
    let mut digits: Vec<u8> = Vec::new();
    let mut rest: u64 = n;
    proof {
        assert(power(10, 0) == 1);
        assert(1 * n == n);
    }
    while rest > 0
        invariant
            all_digits(digits@),
            total(digits@) + power(10, digits@.len()) * rest == n,
            digits@.len() <= 20,
            power(10, digits@.len()) * rest <= n,
            rest == 0 ==> tight(digits@),
        decreases rest,
    {
        let ghost prior = digits@;
        let d: u8 = (rest % 10) as u8;
        proof {
            let p = power(10, prior.len());
            if prior.len() >= 20 {
                reveal_with_fuel(power, 21);
                assert(power(10, 20) == 100_000_000_000_000_000_000);
                assert(p * rest >= p) by (nonlinear_arith)
                    requires
                        rest >= 1,
                        p >= 0,
                ;
                assert(false);
            }
            assert(power(10, prior.len() + 1) == 10 * p);
            let low = rest as nat % 10;
            let high = rest as nat / 10;
            assert(low * p + (10 * p) * high == p * rest) by (nonlinear_arith)
                requires
                    rest == 10 * high + low,
            ;
            assert((10 * p) * high <= p * rest) by (nonlinear_arith)
                requires
                    rest == 10 * high + low,
                    low >= 0,
                    p >= 0,
            ;
        }
        digits.push(d);
        assert(digits@.drop_last() =~= prior);
        rest = rest / 10;
    }
    assert(power(10, digits@.len()) * 0 == 0) by (nonlinear_arith);
    digits
}

/// Multiplies the number that the digits stand for with `factor`, `times` times over.
pub(crate) fn scale_often(digits: &mut Vec<u8>, factor: u8, times: u32)
    requires
        all_digits(old(digits)@),
        0 < factor < 10,
        old(digits)@.len() <= 20,
        times <= 2000,
    ensures
        all_digits(final(digits)@),
        total(final(digits)@) == total(old(digits)@) * power(factor as nat, times as nat),
        final(digits)@.len() <= 20 + times,
        tight(old(digits)@) ==> tight(final(digits)@),
{
    let ghost before = total(digits@);
    let mut i: u32 = 0;
    assert(before * power(factor as nat, 0) == before) by (nonlinear_arith)
        requires
            power(factor as nat, 0) == 1,
    ;
    while i < times
        invariant
            i <= times <= 2000,
            0 < factor < 10,
            all_digits(digits@),
            total(digits@) == before * power(factor as nat, i as nat),
            digits@.len() <= 20 + i,
            tight(old(digits)@) ==> tight(digits@),
        decreases times - i,
    {
        proof {
            let p = power(factor as nat, i as nat);
            assert(factor * (before * p) == before * (factor * p)) by (nonlinear_arith);
            assert(power(factor as nat, (i + 1) as nat) == factor * p);
        }
        scale_digits(digits, factor);
        i += 1;
    }
}

/// The digits with `zeros` zeros below them.
pub(crate) fn shift_up(digits: &Vec<u8>, zeros: usize) -> (r: Vec<u8>)
    requires
        all_digits(digits@),
        digits@.len() <= 3000,
        zeros <= 3000,
    ensures
        all_digits(r@),
        total(r@) == total(digits@) * power(10, zeros as nat),
        r@.len() == digits@.len() + zeros,
{
    let mut out: Vec<u8> = Vec::new();
    let mut i: usize = 0;
    while i < zeros
        invariant
            i <= zeros,
            out@.len() == i,
            forall|j: int| 0 <= j < i ==> out@[j] == 0,
        decreases zeros - i,
    {
        out.push(0);
        i += 1;
    }
    let mut j: usize = 0;
    while j < digits.len()
        invariant
            j <= digits@.len(),
            out@.len() == zeros + j,
            forall|x: int| 0 <= x < zeros ==> out@[x] == 0,
            forall|x: int| 0 <= x < j ==> out@[zeros + x] == digits@[x],
        decreases digits@.len() - j,
    {
        out.push(digits[j]);
        j += 1;
    }
    proof {
        assert forall|x: int| 0 <= x < out@.len() implies out@[x] < 10 by {
            if x >= zeros {
                assert(out@[zeros + (x - zeros)] == digits@[x - zeros]);
            }
        }
        lemma_total_split(out@, zeros as int);
        lemma_total_zeros(out@.subrange(0, zeros as int));
        assert(out@.subrange(zeros as int, out@.len() as int) =~= digits@);
        let a = power(10, zeros as nat);
        let b = total(digits@);
        assert(a * b == b * a) by (nonlinear_arith);
    }
    out
}

/// Appends high zeros until there are more than `length` digits.
pub(crate) fn extend(digits: &mut Vec<u8>, length: usize)
    requires
        all_digits(old(digits)@),
        length <= 3000,
    ensures
        all_digits(final(digits)@),
        total(final(digits)@) == total(old(digits)@),
        final(digits)@.len() > length,
        final(digits)@.len() >= old(digits)@.len(),
        final(digits)@.len() <= old(digits)@.len() || final(digits)@.len() == length + 1,
{
    while digits.len() <= length
        invariant
            all_digits(digits@),
            length <= 3000,
            total(digits@) == total(old(digits)@),
            digits@.len() >= old(digits)@.len(),
            digits@.len() <= old(digits)@.len() || digits@.len() <= length + 1,
        decreases length + 1 - digits@.len(),
    {
        let ghost prior = digits@;
        digits.push(0);
        proof {
            assert(digits@.drop_last() =~= prior);
            assert(0 * power(10, prior.len()) == 0) by (nonlinear_arith);
        }
    }
}

/// The digits of the number divided by `10^drop` and rounded to the nearest whole number, ties
/// to the even one.
pub(crate) fn round_off(digits: &Vec<u8>, drop: usize) -> (r: Vec<u8>)
    requires
        all_digits(digits@),
        0 < drop < digits@.len() <= 4000,
    ensures
        all_digits(r@),
        total(r@) == nearest_even(total(digits@), power(10, drop as nat)),
{
    let mut high: Vec<u8> = Vec::new();
    let mut i: usize = drop;
    while i < digits.len()
        invariant
            drop <= i <= digits@.len(),
            high@ == digits@.subrange(drop as int, i as int),
        decreases digits@.len() - i,
    {
        high.push(digits[i]);
        assert(digits@.subrange(drop as int, i as int).push(digits@[i as int])
            =~= digits@.subrange(drop as int, i + 1));
        i += 1;
    }
    let top: u8 = digits[drop - 1];
    let mut rest: bool = false;
    let mut j: usize = 0;
    while j < drop - 1
        invariant
            j <= drop - 1 < digits@.len(),
            rest == exists|x: int| 0 <= x < j && digits@[x] != 0,
        decreases drop - 1 - j,
    {
        if digits[j] != 0 {
            rest = true;
            assert(digits@[j as int] != 0);
        }
        j += 1;
    }
    let ghost low = digits@.subrange(0, drop as int);
    let ghost p = power(10, drop as nat);
    let ghost tenth = power(10, (drop - 1) as nat);
    proof {
        assert(high@ =~= digits@.subrange(drop as int, digits@.len() as int));
        lemma_total_split(digits@, drop as int);
        lemma_total_bound(low);
        let h = total(high@);
        assert(p * h == h * p) by (nonlinear_arith);
        lemma_quotient(total(digits@), p, h, total(low));
        assert(all_digits(high@));
        lemma_total_first(high@);
        let below = low.drop_last();
        assert(low.last() == top);
        lemma_total_bound(below);
        assert(p == 10 * tenth);
        if rest {
            let x = choose|x: int| 0 <= x < j && digits@[x] != 0;
            if total(below) == 0 {
                lemma_total_zero_only(below);
                assert(below[x] == digits@[x]);
            }
        } else {
            assert forall|x: int| 0 <= x < below.len() implies below[x] == 0 by {
                assert(below[x] == digits@[x]);
            }
            lemma_total_zeros(below);
        }
        if top < 5 {
            assert(top * tenth + tenth <= 5 * tenth) by (nonlinear_arith)
                requires
                    top <= 4,
            ;
        } else if top > 5 {
            assert(top * tenth >= 5 * tenth + tenth) by (nonlinear_arith)
                requires
                    top >= 6,
            ;
            lemma_power_positive(10, (drop - 1) as nat);
        }
        let f = high@[0] as nat;
        assert((f + 10 * total(high@.subrange(1, high@.len() as int))) % 2 == f % 2);
    }
    if top > 5 || (top == 5 && (rest || high[0] % 2 == 1)) {
        increment(&mut high);
    }
    high
}

pub(crate) proof fn lemma_power_product(n: nat)
    ensures
        power(2, n) * power(5, n) == power(10, n),
    decreases n,
{
    if n > 0 {
        lemma_power_product((n - 1) as nat);
        let a = power(2, (n - 1) as nat);
        let b = power(5, (n - 1) as nat);
        assert(power(10, n) == 10 * (a * b));
        assert(power(2, n) * power(5, n) == 10 * (a * b)) by (nonlinear_arith)
            requires
                power(2, n) == 2 * a,
                power(5, n) == 5 * b,
        ;
    } else {
        assert(power(2, n) * power(5, n) == 1) by (nonlinear_arith)
            requires
                power(2, n) == 1,
                power(5, n) == 1,
        ;
    }
}

/// Drops high zeros, down to `least` digits.
pub(crate) fn tighten(digits: &mut Vec<u8>, least: usize)
    requires
        all_digits(old(digits)@),
    ensures
        all_digits(final(digits)@),
        total(final(digits)@) == total(old(digits)@),
        final(digits)@.len() <= old(digits)@.len(),
        old(digits)@.len() >= least ==> final(digits)@.len() >= least,
        final(digits)@.len() > least ==> final(digits)@.last() != 0,
{
    while digits.len() > least && digits[digits.len() - 1] == 0
        invariant
            all_digits(digits@),
            total(digits@) == total(old(digits)@),
            digits@.len() <= old(digits)@.len(),
            old(digits)@.len() >= least ==> digits@.len() >= least,
        decreases digits@.len(),
    {
        let ghost prior = digits@;
        digits.pop();
        proof {
            assert(digits@ =~= prior.drop_last());
            assert(0 * power(10, (prior.len() - 1) as nat) == 0) by (nonlinear_arith);
        }
    }
}

/// Writes a number divided by `10^places`.
pub(crate) fn write_with_point(digits: Vec<u8>, places: usize) -> (r: String)
    requires
        all_digits(digits@),
        places <= 3000,
    ensures
        r@ == with_point(total(digits@), places as nat),
{
    let ghost wanted = total(digits@);
    let ghost ten = power(10, places as nat);
    let mut result = digits;
    extend(&mut result, places);
    tighten(&mut result, places + 1);
    let mut out = String::new();
    let count: usize = result.len();
    write_down(&mut out, &result, places, count);
    let ghost high = result@.subrange(places as int, count as int);
    let ghost low = result@.subrange(0, places as int);
    proof {
        lemma_power_positive(10, places as nat);
        lemma_total_split(result@, places as int);
        lemma_total_bound(low);
        assert(high.last() == result@.last());
        lemma_written_dec(high);
        lemma_written_padded(low);
        let h = total(high);
        assert(ten * h == h * ten) by (nonlinear_arith);
        lemma_quotient(total(result@), ten, h, total(low));
        assert(out@ =~= dec(h));
    }
    if places > 0 {
        out.push('.');
        write_down(&mut out, &result, 0, places);
        assert(out@ == with_point(wanted, places as nat));
    } else {
        proof {
            assert(power(10, 0) == 1);
            assert(low =~= Seq::<u8>::empty());
            assert(total(low) == 0);
            let h = total(high);
            assert(ten * h == h) by (nonlinear_arith)
                requires
                    ten == 1,
            ;
            assert(out@ == with_point(wanted, places as nat));
        }
    }
    out
}

/// Whether one number is less than another.
pub(crate) fn is_less(a: &Vec<u8>, b: &Vec<u8>) -> (r: bool)
    requires
        all_digits(a@),
        all_digits(b@),
        a@.len() <= 3000,
        b@.len() <= 3000,
    ensures
        r == (total(a@) < total(b@)),
{
    let n: usize = if a.len() >= b.len() {
        a.len()
    } else {
        b.len()
    };
    let mut x: Vec<u8> = copy_from(a, 0);
    let mut y: Vec<u8> = copy_from(b, 0);
    extend(&mut x, n);
    extend(&mut y, n);
    let mut i: usize = n + 1;
    while i > 0
        invariant
            i <= n + 1 == x@.len() == y@.len(),
            all_digits(x@),
            all_digits(y@),
            total(x@) == total(a@),
            total(y@) == total(b@),
            forall|j: int| i <= j < x@.len() ==> x@[j] == y@[j],
        decreases i,
    {
        i -= 1;
        if x[i] < y[i] {
            proof {
                lemma_less_at(x@, y@, i as int);
            }
            return true;
        }
        if y[i] < x[i] {
            proof {
                lemma_less_at(y@, x@, i as int);
            }
            return false;
        }
    }
    assert(x@ =~= y@);
    false
}

/// The digits from one place on.
pub(crate) fn copy_from(digits: &Vec<u8>, from: usize) -> (r: Vec<u8>)
    requires
        from <= digits@.len(),
        all_digits(digits@),
    ensures
        r@ == digits@.subrange(from as int, digits@.len() as int),
        all_digits(r@),
        from == 0 ==> r@ == digits@,
{
    let mut out: Vec<u8> = Vec::new();
    let mut i: usize = from;
    while i < digits.len()
        invariant
            from <= i <= digits@.len(),
            out@ == digits@.subrange(from as int, i as int),
        decreases digits@.len() - i,
    {
        out.push(digits[i]);
        assert(digits@.subrange(from as int, i as int).push(digits@[i as int])
            =~= digits@.subrange(from as int, i + 1));
        i += 1;
    }
    assert(digits@.subrange(0, digits@.len() as int) =~= digits@);
    out
}

/// The highest digit in which two numbers differ decides between them.
proof fn lemma_less_at(x: Seq<u8>, y: Seq<u8>, i: int)
    requires
        all_digits(x),
        all_digits(y),
        x.len() == y.len(),
        0 <= i < x.len(),
        x[i] < y[i],
        forall|j: int| i < j < x.len() ==> x[j] == y[j],
    ensures
        total(x) < total(y),
{
    let n = x.len() as int;
    lemma_total_split(x, i + 1);
    lemma_total_split(y, i + 1);
    assert(x.subrange(i + 1, n) =~= y.subrange(i + 1, n));
    let (a, b) = (x.subrange(0, i + 1), y.subrange(0, i + 1));
    lemma_total_bound(a.drop_last());
    let p = power(10, i as nat);
    assert(a.last() == x[i] && b.last() == y[i]);
    assert(x[i] as nat * p + p <= y[i] as nat * p) by (nonlinear_arith)
        requires
            x[i] + 1 <= y[i],
    ;
}

} // verus!
