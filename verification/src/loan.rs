//! The loan contract terms and the two daily-interest calculators.

use vstd::prelude::*;
use crate::currency::CurrencyCode;
use crate::money::{Money, Rational};

verus! {

/// A decimal number stored exactly as a count of ten-thousandths, so four
/// fractional digits: `5.25` per cent is `Fixed { units: 52500 }`.
#[derive(Clone, Copy, Debug, PartialEq, Eq, Structural)]
pub struct Fixed {
    pub units: i64,
}

/// How many `Fixed` units make one whole: ten-thousandths.
pub const FIXED_SCALE: i64 = 10_000;

impl Fixed {
    /// The number `units / 10_000`.
    pub fn from_units(units: i64) -> (r: Fixed)
        ensures
            r.units == units,
    {
        Fixed { units }
    }

    /// The whole number `n`.
    pub fn from_int(n: i64) -> (r: Fixed)
        requires
            -922_337_203_685_477 <= n <= 922_337_203_685_477,
        ensures
            r.units == n * FIXED_SCALE,
    {
        Fixed { units: n * FIXED_SCALE }
    }
}

/// A calendar day, counted as a day number from a fixed epoch; consecutive
/// calendar days have consecutive day numbers.
#[derive(Clone, Copy, Debug, PartialEq, Eq, Structural)]
pub struct Date {
    pub days: i64,
}

/// A loan whose start date lies after its end date: rejected when a loan is
/// constructed, so that no schedule is ever built from such a range.
#[derive(Clone, Copy, Debug, PartialEq, Eq, Structural)]
pub struct InvalidDateRangeError {
    pub start_date: Date,
    pub end_date: Date,
}

/// The denominator of every in-range daily interest amount: 365 days of the
/// fixed Actual/365 day-count convention, 100 because rates are percentages,
/// and one `FIXED_SCALE` for each of the two `Fixed` factors (amount and
/// rate).
pub const DAILY_RATE_DEN: i128 = 365 * 100 * 10_000 * 10_000;

/// Largest day number (and smallest, negated) a well-formed loan may use.
pub const MAX_DAY_NUMBER: i64 = 100_000_000;

/// Largest loan amount, in `Fixed` units, a well-formed loan may carry.
pub const MAX_AMOUNT_UNITS: i64 = 10_000_000_000_000_000;

/// Largest magnitude, in `Fixed` units, of the base rate and of the margined
/// rate of a well-formed loan.
pub const MAX_RATE_UNITS: i64 = 100_000_000_000;

/// The immutable terms of a fixed-term loan.
#[derive(Clone, Copy, Debug)]
pub struct Loan {
    pub start_date: Date,
    pub end_date: Date,
    pub loan_amount: Fixed,
    pub base_rate: Fixed,
    pub margin: Fixed,
    pub currency: CurrencyCode,
}

impl Loan {
    /// The domain invariants of a loan (dates ordered, amount positive)
    /// together with magnitude bounds that keep every amount derived from the
    /// loan, and the total over its whole term, within machine integers.
    pub open spec fn wf(self) -> bool {
        &&& -MAX_DAY_NUMBER <= self.start_date.days
        &&& self.start_date.days <= self.end_date.days
        &&& self.end_date.days <= MAX_DAY_NUMBER
        &&& 0 < self.loan_amount.units <= MAX_AMOUNT_UNITS
        &&& -MAX_RATE_UNITS <= self.base_rate.units <= MAX_RATE_UNITS
        &&& -MAX_RATE_UNITS <= self.base_rate.units + self.margin.units <= MAX_RATE_UNITS
    }

    /// Builds a loan from validated inputs. A start date after the end date
    /// is rejected, and only then: every accepted loan is well-formed.
    pub fn new(
        start_date: Date,
        end_date: Date,
        loan_amount: Fixed,
        base_rate: Fixed,
        margin: Fixed,
        currency: CurrencyCode,
    ) -> (r: Result<Loan, InvalidDateRangeError>)
        requires
            -MAX_DAY_NUMBER <= start_date.days <= MAX_DAY_NUMBER,
            -MAX_DAY_NUMBER <= end_date.days <= MAX_DAY_NUMBER,
            0 < loan_amount.units <= MAX_AMOUNT_UNITS,
            -MAX_RATE_UNITS <= base_rate.units <= MAX_RATE_UNITS,
            -MAX_RATE_UNITS <= base_rate.units + margin.units <= MAX_RATE_UNITS,
        ensures
            r is Err <==> start_date.days > end_date.days,
            match r {
                Ok(l) => {
                    &&& l.start_date == start_date
                    &&& l.end_date == end_date
                    &&& l.loan_amount == loan_amount
                    &&& l.base_rate == base_rate
                    &&& l.margin == margin
                    &&& l.currency == currency
                    &&& l.wf()
                },
                Err(e) => e.start_date == start_date && e.end_date == end_date,
            },
    {
        if start_date.days > end_date.days {
            Err(InvalidDateRangeError { start_date, end_date })
        } else {
            Ok(Loan { start_date, end_date, loan_amount, base_rate, margin, currency })
        }
    }
}

/// The daily interest before the margin is applied:
/// `loan_amount * (base_rate / 365 / 100)`, exactly, for any accrual date
/// within the term; zero for a date outside it.
pub fn daily_interest_without_margin(loan: &Loan, date: Date) -> (r: Money)
    requires
        loan.wf(),
    ensures
        r.code == loan.currency,
        r.wf(),
        loan.start_date.days <= date.days <= loan.end_date.days ==> r.value.num
            == loan.loan_amount.units * loan.base_rate.units && r.value.den == DAILY_RATE_DEN,
        !(loan.start_date.days <= date.days <= loan.end_date.days) ==> r.value.num == 0
            && r.value.den == 1,
{
    if loan.start_date.days <= date.days && date.days <= loan.end_date.days {
        proof {
            lemma_rate_product_bounded(
                loan.loan_amount.units as int,
                loan.base_rate.units as int,
            );
        }
        let num = (loan.loan_amount.units as i128) * (loan.base_rate.units as i128);
        Money { value: Rational { num, den: DAILY_RATE_DEN }, code: loan.currency }
    } else {
        Money { value: Rational { num: 0, den: 1 }, code: loan.currency }
    }
}

/// The daily interest with the margin spread added to the base rate:
/// `loan_amount * ((base_rate + margin) / 365 / 100)`, exactly, for any
/// accrual date within the term; zero for a date outside it.
pub fn daily_interest_with_margin(loan: &Loan, date: Date) -> (r: Money)
    requires
        loan.wf(),
    ensures
        r.code == loan.currency,
        r.wf(),
        loan.start_date.days <= date.days <= loan.end_date.days ==> r.value.num
            == loan.loan_amount.units * (loan.base_rate.units + loan.margin.units)
            && r.value.den == DAILY_RATE_DEN,
        !(loan.start_date.days <= date.days <= loan.end_date.days) ==> r.value.num == 0
            && r.value.den == 1,
{
    if loan.start_date.days <= date.days && date.days <= loan.end_date.days {
        let rate = (loan.base_rate.units as i128) + (loan.margin.units as i128);
        proof {
            lemma_rate_product_bounded(loan.loan_amount.units as int, rate as int);
        }
        let num = (loan.loan_amount.units as i128) * rate;
        Money { value: Rational { num, den: DAILY_RATE_DEN }, code: loan.currency }
    } else {
        Money { value: Rational { num: 0, den: 1 }, code: loan.currency }
    }
}

proof fn lemma_rate_product_bounded(amount: int, rate: int)
    requires
        0 < amount <= MAX_AMOUNT_UNITS,
        -MAX_RATE_UNITS <= rate <= MAX_RATE_UNITS,
    ensures
        -(MAX_AMOUNT_UNITS as int * MAX_RATE_UNITS as int) <= amount * rate <= MAX_AMOUNT_UNITS
            as int * MAX_RATE_UNITS as int,
{
    assert(-(MAX_AMOUNT_UNITS as int * MAX_RATE_UNITS as int) <= amount * rate
        <= MAX_AMOUNT_UNITS as int * MAX_RATE_UNITS as int) by (nonlinear_arith)
        requires
            0 < amount <= MAX_AMOUNT_UNITS,
            -MAX_RATE_UNITS <= rate <= MAX_RATE_UNITS,
    ;
}

} // verus!
