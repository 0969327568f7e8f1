//! The currency: an integral count of souls, its arithmetic and the way it
//! is written out.

use vstd::prelude::*;
use vstd::std_specs::convert::FromSpecImpl;
use vstd::std_specs::ops::AddSpecImpl;
use vstd::std_specs::ops::DivSpecImpl;
use vstd::std_specs::ops::MulSpecImpl;
use vstd::std_specs::ops::SubSpecImpl;
use vstd::string::StringExecFns;
use num_format::Locale;
use num_format::ToFormattedString;
use crate::arith::fits_i64;

verus! {

/// An amount of souls. Negative amounts are valid intermediate values; the
/// transactions clamp where an amount enters the state.
#[derive(Clone, Copy, Debug, PartialEq, Eq, Structural, PartialOrd, Ord, Hash)]
pub struct Souls(pub i64);

/// The decimal digit `d`.
pub open spec fn digit(d: int) -> char {
    if d == 0 {
        '0'
    } else if d == 1 {
        '1'
    } else if d == 2 {
        '2'
    } else if d == 3 {
        '3'
    } else if d == 4 {
        '4'
    } else if d == 5 {
        '5'
    } else if d == 6 {
        '6'
    } else if d == 7 {
        '7'
    } else if d == 8 {
        '8'
    } else {
        '9'
    }
}

/// `n` written in decimal digits.
pub open spec fn decimal(n: nat) -> Seq<char>
    decreases n,
{
    if n < 10 {
        seq![digit(n as int)]
    } else {
        decimal(n / 10).push(digit((n % 10) as int))
    }
}

/// `n` written in decimal digits, with a comma before each group of three.
pub open spec fn grouped(n: nat) -> Seq<char>
    decreases n,
{
    if n < 1000 {
        decimal(n)
    } else {
        grouped(n / 1000) + seq![
            ',',
            digit((n / 100 % 10) as int),
            digit((n / 10 % 10) as int),
            digit((n % 10) as int),
        ]
    }
}

/// `n` written in decimal digits with thousands separators, and a minus
/// sign before a negative number.
pub open spec fn thousands(n: int) -> Seq<char> {
    if n < 0 {
        seq!['-'] + grouped((-n) as nat)
    } else {
        grouped(n as nat)
    }
}

/// `m / d` rounded to the nearest whole number; a tie goes to the even
/// one.
pub open spec fn half_even(m: int, d: int) -> int {
    let q = m / d;
    let r = m % d;
    if 2 * r > d || (2 * r == d && q % 2 == 1) {
        q + 1
    } else {
        q
    }
}

/// The hundredths in `n / unit`, rounded to the nearest; a tie goes to the
/// even number.
pub open spec fn hundredths(n: int, unit: int) -> int {
    half_even(n * 100, unit)
}

/// `h` hundredths written with two decimal places.
pub open spec fn two_places(h: nat) -> Seq<char> {
    decimal(h / 100) + seq!['.', digit((h / 10 % 10) as int), digit((h % 10) as int)]
}

/// An amount of `n` souls as the screen shows it: in trillions, billions
/// or millions with two decimal places from a million on, with thousands
/// separators below.
pub open spec fn rendered(n: int) -> Seq<char> {
    if n >= 1_000_000_000_000 {
        two_places(hundredths(n, 1_000_000_000_000) as nat) + seq![' ', 'T']
    } else if n >= 1_000_000_000 {
        two_places(hundredths(n, 1_000_000_000) as nat) + seq![' ', 'B']
    } else if n >= 1_000_000 {
        two_places(hundredths(n, 1_000_000) as nat) + seq![' ', 'M']
    } else {
        thousands(n)
    }
}

/// The quotient of `a` by `b`, rounded toward zero.
pub open spec fn truncated(a: int, b: int) -> int {
    if a >= 0 && b > 0 {
        a / b
    } else if a < 0 && b > 0 {
        -((-a) / b)
    } else if a >= 0 && b < 0 {
        -(a / (-b))
    } else {
        (-a) / (-b)
    }
}

/// `num_format`'s `to_formatted_string` with the locale `en`: the number
/// in decimal digits, a comma before each group of three, and a minus sign
/// before a negative number.
#[verifier::external_body]
fn format_en(n: i64) -> (s: String)
    ensures
        s@ == thousands(n as int),
{
    n.to_formatted_string(&Locale::en)
}

/// Appends the decimal digit `d` to `s`.
pub(crate) fn push_digit(s: &mut String, d: u64)
    requires
        d < 10,
    ensures
        final(s)@ == old(s)@.push(digit(d as int)),
{
    proof {
        reveal_strlit("0");
        reveal_strlit("1");
        reveal_strlit("2");
        reveal_strlit("3");
        reveal_strlit("4");
        reveal_strlit("5");
        reveal_strlit("6");
        reveal_strlit("7");
        reveal_strlit("8");
        reveal_strlit("9");
    }
    let text = if d == 0 {
        "0"
    } else if d == 1 {
        "1"
    } else if d == 2 {
        "2"
    } else if d == 3 {
        "3"
    } else if d == 4 {
        "4"
    } else if d == 5 {
        "5"
    } else if d == 6 {
        "6"
    } else if d == 7 {
        "7"
    } else if d == 8 {
        "8"
    } else {
        "9"
    };
    s.append(text);
    assert(s@ =~= old(s)@.push(digit(d as int)));
}

/// Appends `n` in decimal digits to `s`.
pub(crate) fn push_decimal(s: &mut String, n: u64)
    ensures
        final(s)@ == old(s)@ + decimal(n as nat),
    decreases n,
{
    if n >= 10 {
        push_decimal(s, n / 10);
    }
    push_digit(s, n % 10);
    assert(s@ =~= old(s)@ + decimal(n as nat));
}

/// `n / unit` with two decimal places, followed by a space and `suffix`.
fn scaled(n: i64, unit: i64, suffix: &str) -> (s: String)
    requires
        n >= unit,
        unit >= 1_000_000,
    ensures
        s@ == two_places(hundredths(n as int, unit as int) as nat) + seq![' '] + suffix@,
{
    let num: u128 = (n as u128) * 100;
    let ud: u128 = unit as u128;
    let q: u128 = num / ud;
    let r: u128 = num % ud;
    let h: u128 = if 2 * r > ud || (2 * r == ud && q % 2 == 1) {
        q + 1
    } else {
        q
    };
    proof {
        vstd::arithmetic::div_mod::lemma_div_is_ordered_by_denominator(
            num as int,
            1_000_000,
            ud as int,
        );
    }
    let h: u64 = h as u64;
    let mut s = String::new();
    push_decimal(&mut s, h / 100);
    proof {
        reveal_strlit(".");
        reveal_strlit(" ");
    }
    s.append(".");
    push_digit(&mut s, h / 10 % 10);
    push_digit(&mut s, h % 10);
    s.append(" ");
    s.append(suffix);
    assert(s@ =~= two_places(hundredths(n as int, unit as int) as nat) + seq![' '] + suffix@);
    s
}

impl Souls {
    /// One thousand.
    pub const K: i64 = 1_000;

    /// One million.
    pub const M: i64 = 1_000_000;

    /// One billion.
    pub const B: i64 = 1_000_000_000;

    /// One trillion.
    pub const T: i64 = 1_000_000_000_000;

    /// The amount multiplied by `x`.
    pub fn times(self, x: i64) -> (r: Souls)
        requires
            fits_i64(self.0 * x),
        ensures
            r.0 == self.0 * x,
    {
        Souls(self.0 * x)
    }

    /// The amount as the screen shows it: in trillions, billions or
    /// millions with two decimal places from a million on, with thousands
    /// separators below.
    pub fn to_string(&self) -> (s: String)
        ensures
            s@ == rendered(self.0 as int),
    {
        proof {
            reveal_strlit("T");
            reveal_strlit("B");
            reveal_strlit("M");
        }
        let n = self.0;
        let s = if n >= Souls::T {
            scaled(n, Souls::T, "T")
        } else if n >= Souls::B {
            scaled(n, Souls::B, "B")
        } else if n >= Souls::M {
            scaled(n, Souls::M, "M")
        } else {
            format_en(n)
        };
        assert(s@ =~= rendered(self.0 as int));
        s
    }
}

impl From<i64> for Souls {
    fn from(x: i64) -> (r: Souls) {
        Souls(x)
    }
}

impl FromSpecImpl<i64> for Souls {
    open spec fn obeys_from_spec() -> bool {
        true
    }

    open spec fn from_spec(x: i64) -> Souls {
        Souls(x)
    }
}

impl From<Souls> for i64 {
    fn from(x: Souls) -> (r: i64) {
        x.0
    }
}

impl FromSpecImpl<Souls> for i64 {
    open spec fn obeys_from_spec() -> bool {
        true
    }

    open spec fn from_spec(x: Souls) -> i64 {
        x.0
    }
}

impl core::ops::Add for Souls {
    type Output = Souls;

    fn add(self, rhs: Souls) -> (r: Souls) {
        Souls(self.0 + rhs.0)
    }
}

impl AddSpecImpl for Souls {
    open spec fn obeys_add_spec() -> bool {
        true
    }

    open spec fn add_req(self, rhs: Souls) -> bool {
        fits_i64(self.0 + rhs.0)
    }

    open spec fn add_spec(self, rhs: Souls) -> Souls {
        Souls((self.0 + rhs.0) as i64)
    }
}

impl core::ops::Sub for Souls {
    type Output = Souls;

    fn sub(self, rhs: Souls) -> (r: Souls) {
        Souls(self.0 - rhs.0)
    }
}

impl SubSpecImpl for Souls {
    open spec fn obeys_sub_spec() -> bool {
        true
    }

    open spec fn sub_req(self, rhs: Souls) -> bool {
        fits_i64(self.0 - rhs.0)
    }

    open spec fn sub_spec(self, rhs: Souls) -> Souls {
        Souls((self.0 - rhs.0) as i64)
    }
}

impl core::ops::Mul for Souls {
    type Output = Souls;

    fn mul(self, rhs: Souls) -> (r: Souls) {
        Souls(self.0 * rhs.0)
    }
}

impl MulSpecImpl for Souls {
    open spec fn obeys_mul_spec() -> bool {
        true
    }

    open spec fn mul_req(self, rhs: Souls) -> bool {
        fits_i64(self.0 * rhs.0)
    }

    open spec fn mul_spec(self, rhs: Souls) -> Souls {
        Souls((self.0 * rhs.0) as i64)
    }
}

impl core::ops::Mul<i64> for Souls {
    type Output = Souls;

    fn mul(self, rhs: i64) -> (r: Souls) {
        Souls(self.0 * rhs)
    }
}

impl MulSpecImpl<i64> for Souls {
    open spec fn obeys_mul_spec() -> bool {
        true
    }

    open spec fn mul_req(self, rhs: i64) -> bool {
        fits_i64(self.0 * rhs)
    }

    open spec fn mul_spec(self, rhs: i64) -> Souls {
        Souls((self.0 * rhs) as i64)
    }
}

impl core::ops::Mul<Souls> for i64 {
    type Output = Souls;

    fn mul(self, rhs: Souls) -> (r: Souls) {
        Souls(self * rhs.0)
    }
}

impl MulSpecImpl<Souls> for i64 {
    open spec fn obeys_mul_spec() -> bool {
        true
    }

    open spec fn mul_req(self, rhs: Souls) -> bool {
        fits_i64(self * rhs.0)
    }

    open spec fn mul_spec(self, rhs: Souls) -> Souls {
        Souls((self * rhs.0) as i64)
    }
}

impl core::ops::Div<i64> for Souls {
    type Output = Souls;

    fn div(self, rhs: i64) -> (r: Souls) {
        let a: i128 = self.0 as i128;
        let b: i128 = rhs as i128;
        let q: i128 = if a >= 0 && b > 0 {
            a / b
        } else if a < 0 && b > 0 {
            -((-a) / b)
        } else if a >= 0 {
            -(a / (-b))
        } else {
            (-a) / (-b)
        };
        Souls(q as i64)
    }
}

impl DivSpecImpl<i64> for Souls {
    open spec fn obeys_div_spec() -> bool {
        true
    }

    open spec fn div_req(self, rhs: i64) -> bool {
        rhs != 0 && fits_i64(truncated(self.0 as int, rhs as int))
    }

    open spec fn div_spec(self, rhs: i64) -> Souls {
        Souls(truncated(self.0 as int, rhs as int) as i64)
    }
}

} // verus!
