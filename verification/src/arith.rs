//! Integer helpers shared by the rules: range tests and floor and ceiling
//! division on wide integers.

use vstd::prelude::*;

verus! {

/// Whether `x` can be held in an `i64`.
pub open spec fn fits_i64(x: int) -> bool {
    i64::MIN <= x <= i64::MAX
}

/// The least integer that is at least `n / d`, for `d > 0`.
pub open spec fn ceil_div(n: int, d: int) -> int {
    -((-n) / d)
}

/// `x` limited to the interval from `lo` to `hi`.
pub open spec fn clamp(x: int, lo: int, hi: int) -> int {
    if x < lo {
        lo
    } else if x > hi {
        hi
    } else {
        x
    }
}

pub open spec fn min(a: int, b: int) -> int {
    if a <= b {
        a
    } else {
        b
    }
}

pub open spec fn max(a: int, b: int) -> int {
    if a >= b {
        a
    } else {
        b
    }
}

/// Floor division of a negative numerator in terms of a non-negative one.
pub proof fn lemma_floor_div_negative(n: int, d: int)
    requires
        n < 0,
        d > 0,
    ensures
        n / d == -((-n - 1) / d) - 1,
{
    let m = -n - 1;
    let a = m / d;
    let b = m % d;
    vstd::arithmetic::div_mod::lemma_fundamental_div_mod(m, d);
    vstd::arithmetic::div_mod::lemma_mod_bound(m, d);
    assert(n == (-a - 1) * d + (d - 1 - b)) by (nonlinear_arith)
        requires
            m == d * a + b,
            m == -n - 1,
    ;
    vstd::arithmetic::div_mod::lemma_fundamental_div_mod_converse(n, d, -a - 1, d - 1 - b);
}

/// Floor division on `i128`.
pub fn floor_div(n: i128, d: i128) -> (q: i128)
    requires
        d > 0,
    ensures
        q == n / d,
{
    if n >= 0 {
        n / d
    } else {
        proof {
            lemma_floor_div_negative(n as int, d as int);
            vstd::arithmetic::div_mod::lemma_div_pos_is_pos(-n - 1, d as int);
            vstd::arithmetic::div_mod::lemma_div_is_ordered_by_denominator(-n - 1, 1, d as int);
            vstd::arithmetic::div_mod::lemma_div_basics_3(-n - 1);
        }
        let m: i128 = -(n + 1);
        -(m / d) - 1
    }
}

/// Ceiling division on `i128`.
pub fn ceil_div_wide(n: i128, d: i128) -> (q: i128)
    requires
        d > 0,
        n > i128::MIN,
    ensures
        q == ceil_div(n as int, d as int),
{
    let f = floor_div(-n, d);
    proof {
        let m = -(n as int);
        if m >= 0 {
            vstd::arithmetic::div_mod::lemma_div_pos_is_pos(m, d as int);
            vstd::arithmetic::div_mod::lemma_div_is_ordered_by_denominator(m, 1, d as int);
            vstd::arithmetic::div_mod::lemma_div_basics_3(m);
        } else {
            lemma_floor_div_negative(m, d as int);
            vstd::arithmetic::div_mod::lemma_div_pos_is_pos(-m - 1, d as int);
            vstd::arithmetic::div_mod::lemma_div_is_ordered_by_denominator(-m - 1, 1, d as int);
            vstd::arithmetic::div_mod::lemma_div_basics_3(-m - 1);
        }
    }
    -f
}

} // verus!
