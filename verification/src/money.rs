//! A currency-tagged exact amount. The fraction keeps full precision;
//! rounding happens only where an amount becomes a reported figure.

use vstd::prelude::*;
use crate::currency::CurrencyCode;
use crate::rounding::{round_to_cents, rounded_cents};

verus! {

/// An exact fraction `num / den`. Well-formed values have a positive
/// denominator, so the sign of the fraction is the sign of `num`.
#[derive(Clone, Copy, Debug, PartialEq, Eq, Structural)]
pub struct Rational {
    pub num: i128,
    pub den: i128,
}

impl Rational {
    pub open spec fn wf(self) -> bool {
        self.den > 0
    }
}

/// `a <= b` as fractions, for well-formed `a` and `b`: compared by
/// cross-multiplication, which needs no common denominator.
pub open spec fn rat_le(a: Rational, b: Rational) -> bool
    recommends
        a.wf(),
        b.wf(),
{
    a.num * b.den <= b.num * a.den
}

/// An amount of money: an exact fraction tagged with its currency. Amounts in
/// different currencies can never be combined.
#[derive(Clone, Copy, Debug)]
pub struct Money {
    pub value: Rational,
    pub code: CurrencyCode,
}

impl Money {
    pub open spec fn wf(self) -> bool {
        self.value.wf()
    }

    /// The value-wise sum of two amounts of the same currency. Combining
    /// different currencies is ruled out by the precondition; the remaining
    /// bounds only keep the exact cross-multiplied sum within machine
    /// integers.
    pub fn add(self, other: Money) -> (r: Money)
        requires
            self.code == other.code,
            self.wf(),
            other.wf(),
            self.value.den * other.value.den <= i128::MAX,
            -i128::MAX <= self.value.num * other.value.den <= i128::MAX,
            -i128::MAX <= other.value.num * self.value.den <= i128::MAX,
            -i128::MAX <= self.value.num * other.value.den + other.value.num * self.value.den
                <= i128::MAX,
        ensures
            r.code == self.code,
            r.value.num == self.value.num * other.value.den + other.value.num * self.value.den,
            r.value.den == self.value.den * other.value.den,
            r.wf(),
    {
        proof {
            assert(self.value.den * other.value.den > 0) by (nonlinear_arith)
                requires
                    self.value.den > 0,
                    other.value.den > 0,
            ;
        }
        Money {
            value: Rational {
                num: self.value.num * other.value.den + other.value.num * self.value.den,
                den: self.value.den * other.value.den,
            },
            code: self.code,
        }
    }
}

/// Rounds an amount to a whole number of cents with round-half-to-even, the
/// one rounding rule applied wherever a fractional amount becomes a reported
/// figure.
pub fn bankers_round(money: Money) -> (r: Money)
    requires
        money.wf(),
        -(i128::MAX / 100) <= money.value.num <= i128::MAX / 100,
    ensures
        r.code == money.code,
        r.value.den == 100,
        r.value.num == rounded_cents(money.value.num as int, money.value.den as int),
        r.wf(),
{
    let cents = round_to_cents(money.value.num, money.value.den);
    Money { value: Rational { num: cents, den: 100 }, code: money.code }
}

} // verus!
