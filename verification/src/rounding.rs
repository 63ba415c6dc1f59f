//! Percentage change between two prices, in hundredths of a percent, rounded
//! half away from zero.
//!
//! Prices are non-negative integers in a fixed minor unit. Only their ratio
//! matters here, so any unit serves as long as both prices share it.

use vstd::prelude::*;
use vstd::arithmetic::div_mod::{lemma_div_multiples_vanish_quotient, lemma_fundamental_div_mod};

verus! {

/// Absolute value of an integer.
pub open spec fn abs(x: int) -> int {
    if x >= 0 {
        x
    } else {
        -x
    }
}

/// The integer nearest to `num / den`; of two equally near, the one further
/// from zero.
pub open spec fn round_half_away(num: int, den: int) -> int
    recommends
        den > 0,
{
    if num >= 0 {
        (2 * num + den) / (2 * den)
    } else {
        -((2 * (-num) + den) / (2 * den))
    }
}

/// Change from `before` to `after` as a share of `before`, in hundredths of a
/// percent: `(after - before) / before * 100`, kept to two decimals.
pub open spec fn spec_change(before: int, after: int) -> int
    recommends
        before > 0,
{
    round_half_away((after - before) * 10000, before)
}

proof fn lemma_round_nonneg(num: int, den: int)
    requires
        num >= 0,
        den > 0,
    ensures
        round_half_away(num, den) >= 0,
        -den < 2 * (round_half_away(num, den) * den - num) <= den,
{
    let q = (2 * num + den) / (2 * den);
    let m = (2 * num + den) % (2 * den);
    lemma_fundamental_div_mod(2 * num + den, 2 * den);
    assert(0 <= m < 2 * den && q >= 0) by (nonlinear_arith)
        requires
            q == (2 * num + den) / (2 * den),
            m == (2 * num + den) % (2 * den),
            num >= 0,
            den > 0,
    ;
    assert((2 * den) * q == 2 * (q * den)) by (nonlinear_arith);
}

/// The rounded value has the sign of the exact quotient (or is zero), lies
/// within half a unit of it, and on a tie is the candidate of larger
/// magnitude.
pub proof fn lemma_round_half_away(num: int, den: int)
    requires
        den > 0,
    ensures
        num >= 0 ==> round_half_away(num, den) >= 0,
        num <= 0 ==> round_half_away(num, den) <= 0,
        2 * abs(round_half_away(num, den) * den - num) <= den,
        2 * abs(round_half_away(num, den) * den - num) == den ==> abs(
            round_half_away(num, den) * den,
        ) > abs(num),
        round_half_away(-num, den) == -round_half_away(num, den),
{
    if num >= 0 {
        lemma_round_nonneg(num, den);
        if num == 0 {
            let q = round_half_away(0, den);
            assert(q == 0) by (nonlinear_arith)
                requires
                    q >= 0,
                    den > 0,
                    2 * (q * den) <= den,
            ;
        }
    } else {
        lemma_round_nonneg(-num, den);
        let p = round_half_away(-num, den);
        assert(round_half_away(num, den) == -p);
        assert((-p) * den == -(p * den)) by (nonlinear_arith);
    }
}

/// No integer multiple of `den` is nearer to `num` than the rounded one.
pub proof fn lemma_round_is_nearest(num: int, den: int, k: int)
    requires
        den > 0,
    ensures
        abs(round_half_away(num, den) * den - num) <= abs(k * den - num),
{
    let r = round_half_away(num, den);
    lemma_round_half_away(num, den);
    if k > r {
        assert(k * den - r * den >= den) by (nonlinear_arith)
            requires
                k > r,
                den > 0,
        ;
    } else if k < r {
        assert(r * den - k * den >= den) by (nonlinear_arith)
            requires
                k < r,
                den > 0,
        ;
    }
}

/// A change of less than half a hundredth of a percent either way is
/// reported as zero, and no other change is.
pub proof fn lemma_change_zero_iff(before: int, after: int)
    requires
        before > 0,
    ensures
        spec_change(before, after) == 0 <==> 2 * abs((after - before) * 10000) < before,
        spec_change(before, after) > 0 <==> 2 * ((after - before) * 10000) >= before,
        spec_change(before, after) < 0 <==> 2 * ((before - after) * 10000) >= before,
{
    let num = (after - before) * 10000;
    let r = round_half_away(num, before);
    lemma_round_half_away(num, before);
    if r > 0 {
        assert(r * before >= before) by (nonlinear_arith)
            requires
                r > 0,
                before > 0,
        ;
    } else if r < 0 {
        assert(r * before <= -before) by (nonlinear_arith)
            requires
                r < 0,
                before > 0,
        ;
    } else {
        assert(r * before == 0) by (nonlinear_arith)
            requires
                r == 0,
        ;
    }
}

/// The change does not depend on the unit that the two prices are counted
/// in: counting both in a unit `k` times finer gives the same value.
pub proof fn lemma_change_ignores_unit(before: int, after: int, k: int)
    requires
        before > 0,
        after >= 0,
        k > 0,
    ensures
        spec_change(k * before, k * after) == spec_change(before, after),
{
    let num = if after >= before {
        (after - before) * 10000
    } else {
        (before - after) * 10000
    };
    let scaled = if after >= before {
        (k * after - k * before) * 10000
    } else {
        (k * before - k * after) * 10000
    };
    assert(scaled == k * num && (after >= before <==> k * after >= k * before)) by (nonlinear_arith)
        requires
            k > 0,
            num == if after >= before {
                (after - before) * 10000
            } else {
                (before - after) * 10000
            },
            scaled == if after >= before {
                (k * after - k * before) * 10000
            } else {
                (k * before - k * after) * 10000
            },
    ;
    assert(2 * scaled + k * before == k * (2 * num + before) && 2 * (k * before) == k * (2
        * before)) by (nonlinear_arith)
        requires
            scaled == k * num,
    ;
    lemma_div_multiples_vanish_quotient(k, 2 * num + before, 2 * before);
}

/// Equal prices give a change of exactly zero.
pub proof fn lemma_change_of_equal_prices(price: int)
    requires
        price > 0,
    ensures
        spec_change(price, price) == 0,
{
    lemma_change_zero_iff(price, price);
}

/// Percentage change from `before` to `after` in hundredths of a percent, or
/// `None` when `before` is zero and the change is undefined.
pub fn percent_change(before: u64, after: u64) -> (r: Option<i128>)
    ensures
        before == 0 <==> r.is_none(),
        before > 0 ==> r == Some(spec_change(before as int, after as int) as i128),
        before > 0 ==> i128::MIN < spec_change(before as int, after as int) < i128::MAX,
{
    if before == 0 {
        return None;
    }
    let den: u128 = 2 * (before as u128);
    if after >= before {
        let diff: u128 = (after - before) as u128;
        let num: u128 = diff * 20000 + (before as u128);
        let q: u128 = num / den;
        proof {
            assert(num as int == 2 * ((after as int - before as int) * 10000) + before as int);
            assert(q <= num) by (nonlinear_arith)
                requires
                    q == num / den,
                    den > 0,
            ;
        }
        Some(q as i128)
    } else {
        let diff: u128 = (before - after) as u128;
        let num: u128 = diff * 20000 + (before as u128);
        let q: u128 = num / den;
        proof {
            assert(num as int == 2 * (-((after as int - before as int) * 10000)) + before as int);
            assert(q <= num) by (nonlinear_arith)
                requires
                    q == num / den,
                    den > 0,
            ;
        }
        Some(-(q as i128))
    }
}

} // verus!
