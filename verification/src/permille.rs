//! Fixed-point rates and factors, in thousandths, and the way they are
//! written out.

use vstd::prelude::*;
use vstd::string::StringExecFns;
use crate::units::decimal;
use crate::units::digit;
use crate::units::half_even;
use crate::units::push_decimal;
use crate::units::push_digit;

verus! {

/// A rate or factor counted in thousandths: `Permille(1500)` is 1.5 and
/// `Permille(10)` is 1%.
#[derive(Clone, Copy, Debug, PartialEq, Eq, Structural, PartialOrd, Ord, Hash)]
pub struct Permille(pub i64);

/// Ten to the power `k`, for `k` up to three.
pub open spec fn pow10(k: int) -> int {
    if k <= 0 {
        1
    } else if k == 1 {
        10
    } else if k == 2 {
        100
    } else {
        1000
    }
}

/// The last `width` decimal digits of `v`, with leading zeros.
pub open spec fn padded(v: nat, width: nat) -> Seq<char>
    decreases width,
{
    if width == 0 {
        Seq::empty()
    } else {
        padded(v / 10, (width - 1) as nat).push(digit((v % 10) as int))
    }
}

/// The magnitude of `n`.
pub open spec fn magnitude(n: int) -> int {
    if n < 0 {
        -n
    } else {
        n
    }
}

/// `n` thousandths written with `places` decimal places, rounded to the
/// nearest with ties to even, and a minus sign before a negative number.
pub open spec fn fixed_point(n: int, places: int) -> Seq<char> {
    let h = half_even(magnitude(n), pow10(3 - places));
    let body = if places <= 0 {
        decimal(h as nat)
    } else {
        decimal((h / pow10(places)) as nat) + seq!['.'] + padded(
            (h % pow10(places)) as nat,
            places as nat,
        )
    };
    if n < 0 {
        seq!['-'] + body
    } else {
        body
    }
}

/// `n` thousandths written as a whole number of percent, rounded to the
/// nearest with ties to even, and a minus sign before a negative number.
pub open spec fn whole_percent(n: int) -> Seq<char> {
    let body = decimal(half_even(magnitude(n), 10) as nat);
    if n < 0 {
        seq!['-'] + body
    } else {
        body
    }
}

/// A change of `n` thousandths as the shop shows it: a rise with a plus
/// sign and a percent sign, a fall with its minus sign alone.
pub open spec fn delta_percent(n: int) -> Seq<char> {
    if n >= 0 {
        seq!['+'] + whole_percent(n) + seq!['%']
    } else {
        whole_percent(n)
    }
}

/// Appends the last `width` decimal digits of `v` to `s`.
fn push_padded(s: &mut String, v: u64, width: u8)
    ensures
        final(s)@ == old(s)@ + padded(v as nat, width as nat),
    decreases width,
{
    if width > 0 {
        push_padded(s, v / 10, width - 1);
        push_digit(s, v % 10);
    }
    assert(s@ =~= old(s)@ + padded(v as nat, width as nat));
}

/// The magnitude of `n` divided by `unit` and rounded to the nearest, with
/// ties to even.
fn round_magnitude(n: i64, unit: u64) -> (h: u64)
    requires
        unit == 1 || unit == 10 || unit == 100 || unit == 1000,
    ensures
        h == half_even(magnitude(n as int), unit as int),
{
    let m: u64 = if n < 0 {
        (-(n as i128)) as u64
    } else {
        n as u64
    };
    let q = m / unit;
    let r = m % unit;
    if 2 * r > unit || (2 * r == unit && q % 2 == 1) {
        q + 1
    } else {
        q
    }
}

impl Permille {
    /// `x` scaled by the factor and rounded down.
    pub open spec fn of(self, x: int) -> int {
        (x * self.0) / 1000
    }

    /// The value with `places` decimal places, rounded to the nearest with
    /// ties to even.
    pub fn fixed(&self, places: u8) -> (s: String)
        requires
            places <= 3,
        ensures
            s@ == fixed_point(self.0 as int, places as int),
    {
        let unit: u64 = if places == 0 {
            1000
        } else if places == 1 {
            100
        } else if places == 2 {
            10
        } else {
            1
        };
        let scale: u64 = if places == 0 {
            1
        } else if places == 1 {
            10
        } else if places == 2 {
            100
        } else {
            1000
        };
        let h = round_magnitude(self.0, unit);
        let mut s = String::new();
        proof {
            reveal_strlit("-");
            reveal_strlit(".");
        }
        if self.0 < 0 {
            s.append("-");
        }
        if places == 0 {
            push_decimal(&mut s, h);
        } else {
            push_decimal(&mut s, h / scale);
            s.append(".");
            push_padded(&mut s, h % scale, places);
        }
        assert(s@ =~= fixed_point(self.0 as int, places as int));
        s
    }

    /// The value with its three decimal places.
    pub fn to_string(&self) -> (s: String)
        ensures
            s@ == fixed_point(self.0 as int, 3),
    {
        self.fixed(3)
    }

    /// The value as a whole number of percent, rounded to the nearest with
    /// ties to even.
    pub fn percent(&self) -> (s: String)
        ensures
            s@ == whole_percent(self.0 as int),
    {
        let h = round_magnitude(self.0, 10);
        let mut s = String::new();
        proof {
            reveal_strlit("-");
        }
        if self.0 < 0 {
            s.append("-");
        }
        push_decimal(&mut s, h);
        assert(s@ =~= whole_percent(self.0 as int));
        s
    }
}

/// A change of rate as the shop shows it: a rise with a plus sign and a
/// percent sign, a fall with its minus sign alone.
pub fn delta_perc(x: Permille) -> (s: String)
    ensures
        s@ == delta_percent(x.0 as int),
{
    if x.0 >= 0 {
        proof {
            reveal_strlit("+");
            reveal_strlit("%");
        }
        let mut s = String::from_str("+");
        let body = x.percent();
        s.append(body.as_str());
        s.append("%");
        assert(s@ =~= delta_percent(x.0 as int));
        s
    } else {
        x.percent()
    }
}

} // verus!
