//! Compound price growth: each unit of an item costs 12% more than the one
//! before it, and the price is the whole part of the compounded amount.
//!
//! The compounded amount is kept exactly, as a whole part and a fraction
//! written in base 100, so that the whole part is never off by rounding.

use vstd::prelude::*;
use vstd::arithmetic::power::pow;
use vstd::arithmetic::power::lemma_pow_positive;
use vstd::arithmetic::div_mod::lemma_fundamental_div_mod;
use vstd::arithmetic::div_mod::lemma_fundamental_div_mod_converse;
use vstd::arithmetic::div_mod::lemma_mod_bound;
use crate::arith::fits_i64;

verus! {

/// The price of a unit after `i` steps of growth from `base`:
/// the floor of `base * 1.12^i`.
pub open spec fn compound(base: int, i: nat) -> int {
    (base * pow(112, i)) / pow(100, i)
}

/// The sum of the `n` prices that follow `q` steps of growth:
/// `compound(base, q) + ... + compound(base, q + n - 1)`.
pub open spec fn bulk(base: int, q: nat, n: nat) -> int
    decreases n,
{
    if n == 0 {
        0
    } else {
        bulk(base, q, (n - 1) as nat) + compound(base, (q + n - 1) as nat)
    }
}

/// The number that the first `k` digits of `d` write in base 100, least
/// significant digit first.
pub open spec fn low_value(d: Seq<u8>, k: nat) -> int
    decreases k,
{
    if k == 0 {
        0
    } else {
        low_value(d, (k - 1) as nat) + d[k - 1] * pow(100, (k - 1) as nat)
    }
}

pub open spec fn digits_ok(d: Seq<u8>) -> bool {
    forall|t: int| 0 <= t < d.len() ==> #[trigger] d[t] < 100
}

proof fn lemma_pow_step(b: int, k: nat)
    ensures
        pow(b, k + 1) == b * pow(b, k),
{
    reveal(pow);
}

proof fn lemma_low_value_agrees(a: Seq<u8>, b: Seq<u8>, k: nat)
    requires
        k <= a.len(),
        k <= b.len(),
        forall|t: int| 0 <= t < k ==> a[t] == b[t],
    ensures
        low_value(a, k) == low_value(b, k),
    decreases k,
{
    if k > 0 {
        lemma_low_value_agrees(a, b, (k - 1) as nat);
    }
}

proof fn lemma_low_value_bound(d: Seq<u8>, k: nat)
    requires
        k <= d.len(),
        digits_ok(d),
    ensures
        0 <= low_value(d, k) < pow(100, k),
    decreases k,
{
    if k == 0 {
        reveal(pow);
    } else {
        lemma_low_value_bound(d, (k - 1) as nat);
        lemma_pow_step(100, (k - 1) as nat);
        lemma_pow_positive(100, (k - 1) as nat);
        let p = pow(100, (k - 1) as nat);
        let x = d[k - 1] as int;
        assert(0 <= x * p <= 99 * p) by (nonlinear_arith)
            requires
                0 <= x <= 99,
                p > 0,
        ;
    }
}

proof fn lemma_low_value_zero(d: Seq<u8>, k: nat)
    requires
        k <= d.len(),
        digits_ok(d),
    ensures
        low_value(d, k) == 0 <==> (forall|t: int| 0 <= t < k ==> d[t] == 0),
    decreases k,
{
    if k > 0 {
        lemma_low_value_zero(d, (k - 1) as nat);
        lemma_low_value_bound(d, (k - 1) as nat);
        lemma_pow_positive(100, (k - 1) as nat);
        let p = pow(100, (k - 1) as nat);
        let x = d[k - 1] as int;
        if x == 0 {
            assert(x * p == 0) by (nonlinear_arith)
                requires
                    x == 0,
            ;
        } else {
            assert(x * p > 0) by (nonlinear_arith)
                requires
                    x > 0,
                    p > 0,
            ;
        }
    }
}

/// One more step of growth never lowers the price of a non-negative base.
pub proof fn lemma_compound_step(base: int, i: nat)
    requires
        base >= 0,
    ensures
        compound(base, i) <= compound(base, i + 1),
        compound(base, i) >= 9 ==> compound(base, i) < compound(base, i + 1),
        compound(base, i) >= 0,
{
    let a = base * pow(112, i);
    let d = pow(100, i);
    let q = a / d;
    lemma_pow_positive(112, i);
    lemma_pow_positive(100, i);
    lemma_pow_step(112, i);
    lemma_pow_step(100, i);
    assert(a >= 0) by (nonlinear_arith)
        requires
            a == base * pow(112, i),
            base >= 0,
            pow(112, i) > 0,
    ;
    lemma_fundamental_div_mod(a, d);
    lemma_mod_bound(a, d);
    assert(q >= 0) by (nonlinear_arith)
        requires
            a == d * q + a % d,
            a >= 0,
            0 <= a % d < d,
            d > 0,
    ;
    let a2 = base * pow(112, i + 1);
    let d2 = pow(100, i + 1);
    assert(a2 == 112 * a) by (nonlinear_arith)
        requires
            a2 == base * pow(112, i + 1),
            pow(112, i + 1) == 112 * pow(112, i),
            a == base * pow(112, i),
    ;
    assert(d2 == 100 * d);
    let q2 = a2 / d2;
    lemma_fundamental_div_mod(a2, d2);
    lemma_mod_bound(a2, d2);
    // a2 = 112 a >= 112 q d, and a2 < (q2 + 1) d2
    assert(q2 >= q) by (nonlinear_arith)
        requires
            a2 == 112 * a,
            d2 == 100 * d,
            a == d * q + a % d,
            0 <= a % d < d,
            a2 == d2 * q2 + a2 % d2,
            0 <= a2 % d2 < d2,
            d > 0,
            q >= 0,
    ;
    if q >= 9 {
        assert(q2 > q) by (nonlinear_arith)
            requires
                a2 == 112 * a,
                d2 == 100 * d,
                a == d * q + a % d,
                0 <= a % d < d,
                a2 == d2 * q2 + a2 % d2,
                0 <= a2 % d2 < d2,
                d > 0,
                q >= 9,
        ;
    }
}

/// A price that grows from a negative base is negative.
pub proof fn lemma_compound_negative(base: int, i: nat)
    requires
        base < 0,
    ensures
        compound(base, i) < 0,
{
    let a = base * pow(112, i);
    let d = pow(100, i);
    lemma_pow_positive(112, i);
    lemma_pow_positive(100, i);
    lemma_fundamental_div_mod(a, d);
    lemma_mod_bound(a, d);
    assert(a / d < 0) by (nonlinear_arith)
        requires
            a == base * pow(112, i),
            base < 0,
            pow(112, i) > 0,
            a == d * (a / d) + a % d,
            0 <= a % d < d,
            d > 0,
    ;
}

/// The price of a non-negative base never falls as the steps go up.
pub proof fn lemma_compound_nondecreasing(base: int, i: nat, j: nat)
    requires
        base >= 0,
        i <= j,
    ensures
        compound(base, i) <= compound(base, j),
    decreases j - i,
{
    if i < j {
        lemma_compound_step(base, i);
        lemma_compound_nondecreasing(base, i + 1, j);
    }
}

/// Multiplies the number that `digits` writes by 112 in place and returns
/// what is carried out of the top digit.
fn scale_digits(digits: &mut Vec<u8>) -> (carry: u64)
    requires
        digits_ok(old(digits)@),
    ensures
        final(digits)@.len() == old(digits)@.len(),
        digits_ok(final(digits)@),
        carry < 112,
        low_value(final(digits)@, final(digits)@.len()) + carry * pow(100, final(digits)@.len())
            == 112 * low_value(old(digits)@, old(digits)@.len()),
{
    let n = digits.len();
    let mut carry: u64 = 0;
    let mut k: usize = 0;
    proof {
        reveal(pow);
    }
    while k < n
        invariant
            n == digits@.len(),
            n == old(digits)@.len(),
            k <= n,
            carry < 112,
            digits_ok(digits@),
            forall|t: int| k <= t < n ==> digits@[t] == old(digits)@[t],
            low_value(digits@, k as nat) + carry * pow(100, k as nat) == 112 * low_value(
                old(digits)@,
                k as nat,
            ),
        decreases n - k,
    {
        let ghost before = digits@;
        let old_digit: u64 = digits[k] as u64;
        let t: u64 = old_digit * 112 + carry;
        let digit: u8 = (t % 100) as u8;
        let next: u64 = t / 100;
        digits.set(k, digit);
        proof {
            lemma_low_value_agrees(before, digits@, k as nat);
            lemma_pow_step(100, k as nat);
            let p = pow(100, k as nat);
            let lv = low_value(digits@, k as nat);
            let lo = low_value(old(digits)@, k as nat);
            assert(lv + digit * p + next * (100 * p) == 112 * (lo + old_digit * p))
                by (nonlinear_arith)
                requires
                    lv + carry * p == 112 * lo,
                    t == old_digit * 112 + carry,
                    t == 100 * next + digit,
            ;
        }
        carry = next;
        k = k + 1;
    }
    carry
}

/// The whole part of `mag * 1.12^steps` and whether the fraction is zero;
/// `None` when the whole part does not fit in a `u64`.
fn grow(mag: u64, steps: u64) -> (r: Option<(u64, bool)>)
    ensures
        match r {
            Some((whole, exact)) => {
                &&& whole == (mag * pow(112, steps as nat)) / pow(100, steps as nat)
                &&& exact == ((mag * pow(112, steps as nat)) % pow(100, steps as nat) == 0)
            },
            None => compound(mag as int, steps as nat) > u64::MAX,
        },
{
    if mag == 0 {
        proof {
            lemma_pow_positive(100, steps as nat);
            assert(mag * pow(112, steps as nat) == 0) by (nonlinear_arith)
                requires
                    mag == 0,
            ;
            lemma_fundamental_div_mod_converse(0, pow(100, steps as nat), 0, 0);
        }
        return Some((0, true));
    }
    let mut whole: u64 = mag;
    let mut digits: Vec<u8> = Vec::new();
    let mut j: u64 = 0;
    proof {
        reveal(pow);
        assert(mag * pow(112, 0) == mag) by (nonlinear_arith)
            requires
                pow(112, 0) == 1,
        ;
    }
    while j < steps
        invariant
            j <= steps,
            digits@.len() == j,
            digits_ok(digits@),
            whole * pow(100, j as nat) + low_value(digits@, j as nat) == mag * pow(112, j as nat),
        decreases steps - j,
    {
        let ghost lo = low_value(digits@, j as nat);
        let carry = scale_digits(&mut digits);
        let ghost scaled = digits@;
        let total: u128 = (whole as u128) * 112 + (carry as u128);
        let digit: u8 = (total % 100) as u8;
        let next: u128 = total / 100;
        digits.push(digit);
        proof {
            let p = pow(100, j as nat);
            let lv = low_value(digits@, j as nat);
            lemma_low_value_agrees(scaled, digits@, j as nat);
            lemma_pow_step(100, j as nat);
            lemma_pow_step(112, j as nat);
            assert forall|t: int| 0 <= t < digits@.len() implies #[trigger] digits@[t] < 100 by {
                if t < j {
                    assert(digits@[t] == scaled[t]);
                }
            }
            assert(next * (100 * p) + (lv + digit * p) == mag * (112 * pow(112, j as nat)))
                by (nonlinear_arith)
                requires
                    whole * p + lo == mag * pow(112, j as nat),
                    lv + carry * p == 112 * lo,
                    total == whole * 112 + carry,
                    total == 100 * next + digit,
            ;
            if next > u64::MAX {
                let j1 = (j + 1) as nat;
                lemma_low_value_bound(digits@, j1);
                lemma_fundamental_div_mod_converse(
                    mag * pow(112, j1),
                    pow(100, j1),
                    next as int,
                    low_value(digits@, j1),
                );
                lemma_compound_nondecreasing(mag as int, j1, steps as nat);
            }
        }
        if next > u64::MAX as u128 {
            return None;
        }
        whole = next as u64;
        j = j + 1;
    }
    let mut exact = true;
    let mut k: usize = 0;
    while k < digits.len()
        invariant
            k <= digits@.len(),
            exact <==> (forall|t: int| 0 <= t < k ==> digits@[t] == 0),
        decreases digits@.len() - k,
    {
        if digits[k] != 0 {
            exact = false;
        }
        k = k + 1;
    }
    proof {
        lemma_low_value_bound(digits@, steps as nat);
        lemma_low_value_zero(digits@, steps as nat);
        lemma_fundamental_div_mod_converse(
            mag * pow(112, steps as nat),
            pow(100, steps as nat),
            whole as int,
            low_value(digits@, steps as nat),
        );
    }
    Some((whole, exact))
}

/// Floor division of the negation of a non-negative numerator.
proof fn lemma_div_of_negation(x: int, d: int)
    requires
        x >= 0,
        d > 0,
    ensures
        (-x) / d == if x % d == 0 {
            -(x / d)
        } else {
            -(x / d) - 1
        },
{
    lemma_fundamental_div_mod(x, d);
    lemma_mod_bound(x, d);
    let q = x / d;
    let r = x % d;
    if r == 0 {
        assert(-x == (-q) * d + 0) by (nonlinear_arith)
            requires
                x == d * q + r,
                r == 0,
        ;
        lemma_fundamental_div_mod_converse(-x, d, -q, 0);
    } else {
        assert(-x == (-q - 1) * d + (d - r)) by (nonlinear_arith)
            requires
                x == d * q + r,
        ;
        lemma_fundamental_div_mod_converse(-x, d, -q - 1, d - r);
    }
}

/// The price after `steps` steps of growth from `base`, or `None` when it
/// cannot be held in an `i64`.
pub fn compound_cost(base: i64, steps: i64) -> (r: Option<i64>)
    requires
        steps >= 0,
    ensures
        match r {
            Some(c) => c == compound(base as int, steps as nat),
            None => !fits_i64(compound(base as int, steps as nat)),
        },
{
    if base >= 0 {
        match grow(base as u64, steps as u64) {
            Some((whole, _)) => {
                if whole <= i64::MAX as u64 {
                    Some(whole as i64)
                } else {
                    None
                }
            },
            None => None,
        }
    } else {
        let mag: u64 = (-(base as i128)) as u64;
        let grown = grow(mag, steps as u64);
        proof {
            let x = mag * pow(112, steps as nat);
            let d = pow(100, steps as nat);
            lemma_pow_positive(112, steps as nat);
            lemma_pow_positive(100, steps as nat);
            assert(x >= 0 && base * pow(112, steps as nat) == -x) by (nonlinear_arith)
                requires
                    x == mag * pow(112, steps as nat),
                    mag == -base,
                    mag >= 0,
                    pow(112, steps as nat) > 0,
            ;
            lemma_div_of_negation(x, d);
        }
        match grown {
            Some((whole, exact)) => {
                let up: u128 = if exact {
                    whole as u128
                } else {
                    whole as u128 + 1
                };
                if up <= 0x8000_0000_0000_0000u128 {
                    Some((-(up as i128)) as i64)
                } else {
                    None
                }
            },
            None => None,
        }
    }
}

} // verus!
