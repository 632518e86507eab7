//! Small verified arithmetic helpers shared across the library.

use vstd::prelude::*;

verus! {

/// `a + b`, saturating at `u64::MAX`.
pub open spec fn sat_add_u64(a: u64, b: u64) -> u64 {
    if a + b <= u64::MAX {
        (a + b) as u64
    } else {
        u64::MAX
    }
}

/// Add two counters without overflowing: the sum saturates at `u64::MAX`.
pub fn saturating_add(a: u64, b: u64) -> (r: u64)
    ensures
        r == sat_add_u64(a, b),
{
    if a <= u64::MAX - b {
        a + b
    } else {
        u64::MAX
    }
}

/// Quotient of `a` and `b` rounded toward zero, as machine division does.
pub open spec fn trunc_div(a: int, b: int) -> int
    recommends
        b > 0,
{
    if a >= 0 {
        a / b
    } else {
        -((-a) / b)
    }
}

/// Divide, rounding toward zero.
pub fn div_trunc(a: i128, b: i128) -> (r: i128)
    requires
        b > 0,
        a > i128::MIN,
    ensures
        r == trunc_div(a as int, b as int),
{
    if a >= 0 {
        let q: u128 = (a as u128) / (b as u128);
        proof {
            assert(q <= a as u128);
        }
        q as i128
    } else {
        let neg: i128 = -a;
        let q: u128 = (neg as u128) / (b as u128);
        proof {
            assert(q <= neg as u128);
        }
        -(q as i128)
    }
}

/// `trunc_div` keeps quotients inside any bound that covers the dividend
/// scaled by the divisor.
pub proof fn lemma_trunc_div_bounded(a: int, b: int, m: int)
    requires
        b >= 1,
        m >= 0,
        a <= b * m,
        -a <= b * m,
    ensures
        -m <= trunc_div(a, b) <= m,
{
    if a >= 0 {
        assert(a / b <= m) by (nonlinear_arith)
            requires
                b >= 1,
                m >= 0,
                a <= b * m,
                a >= 0,
        ;
        assert(a / b >= 0) by (nonlinear_arith)
            requires
                b >= 1,
                a >= 0,
        ;
    } else {
        let na = -a;
        assert(na / b <= m) by (nonlinear_arith)
            requires
                b >= 1,
                m >= 0,
                na <= b * m,
                na >= 0,
        ;
        assert(na / b >= 0) by (nonlinear_arith)
            requires
                b >= 1,
                na >= 0,
        ;
    }
}

} // verus!
