//! The day-by-day accrual schedule of a loan and its rounded totals.

use vstd::prelude::*;
use crate::loan::{daily_interest_with_margin, daily_interest_without_margin, Loan, Date,
    DAILY_RATE_DEN};
use crate::money::{bankers_round, rat_le, Money, Rational};
use crate::rounding::{lemma_rounded_cents_bound, rounded_cents};

verus! {

/// One row of a schedule: the two daily interest amounts accrued on one
/// calendar day of the term.
#[derive(Clone, Copy, Debug)]
pub struct Entry {
    pub daily_interest_without_margin: Money,
    pub daily_interest_with_margin: Money,
    pub accrual_date: Date,
    pub days_elapsed: u64,
}

/// The ordered daily accrual entries spanning a loan's term, one per calendar
/// day from the start date to the end date, both included.
#[derive(Debug)]
pub struct Schedule {
    pub entries: Vec<Entry>,
}

/// The aggregate result: the banker's-rounded total interest over a whole
/// schedule, with and without the margin, in the loan's currency.
#[derive(Clone, Copy, Debug)]
pub struct TotalInterest {
    pub with_margin: Money,
    pub without_margin: Money,
}

/// Largest magnitude, in cents, of a single rounded entry that a total is
/// computed over; keeps the running total within machine integers.
pub const MAX_ENTRY_CENTS: i128 = 10_000_000_000_000_000_000_000_000_000;

/// Largest number of entries a total is computed over.
pub const MAX_ENTRIES: usize = 1_000_000_000;

/// What the schedule entry at 0-based offset `i` of `loan`'s schedule holds:
/// the `i`th calendar day of the term and the two exact daily amounts.
pub open spec fn entry_is_for(e: Entry, loan: Loan, i: int) -> bool {
    &&& e.days_elapsed == i
    &&& e.accrual_date.days == loan.start_date.days + i
    &&& e.daily_interest_without_margin.value.num == loan.loan_amount.units
        * loan.base_rate.units
    &&& e.daily_interest_without_margin.value.den == DAILY_RATE_DEN
    &&& e.daily_interest_without_margin.code == loan.currency
    &&& e.daily_interest_with_margin.value.num == loan.loan_amount.units * (loan.base_rate.units
        + loan.margin.units)
    &&& e.daily_interest_with_margin.value.den == DAILY_RATE_DEN
    &&& e.daily_interest_with_margin.code == loan.currency
}

/// `s` is exactly the schedule of `loan`: one entry per calendar day of the
/// term, in order, each holding that day's amounts.
pub open spec fn is_schedule_for(s: Seq<Entry>, loan: Loan) -> bool {
    &&& s.len() == loan.end_date.days - loan.start_date.days + 1
    &&& forall|i: int| 0 <= i < s.len() ==> entry_is_for(s[i], loan, i)
}

/// All amounts of all entries of `s` carry one currency, the one of the first
/// entry's with-margin amount.
pub open spec fn uniform_currency(s: Seq<Entry>) -> bool {
    forall|i: int|
        0 <= i < s.len() ==> s[i].daily_interest_with_margin.code
            == s[0].daily_interest_with_margin.code
            && s[i].daily_interest_without_margin.code == s[0].daily_interest_with_margin.code
}

/// The rounded cents of `e`'s with-margin amount.
pub open spec fn entry_cents_with_margin(e: Entry) -> int {
    rounded_cents(
        e.daily_interest_with_margin.value.num as int,
        e.daily_interest_with_margin.value.den as int,
    )
}

/// The rounded cents of `e`'s without-margin amount.
pub open spec fn entry_cents_without_margin(e: Entry) -> int {
    rounded_cents(
        e.daily_interest_without_margin.value.num as int,
        e.daily_interest_without_margin.value.den as int,
    )
}

/// The amounts of `e` are well-formed and small enough that rounding them,
/// and totalling the rounded values over `MAX_ENTRIES` entries, stays within
/// machine integers.
pub open spec fn entry_amounts_bounded(e: Entry) -> bool {
    &&& e.daily_interest_with_margin.wf()
    &&& e.daily_interest_without_margin.wf()
    &&& -(i128::MAX / 100) <= e.daily_interest_with_margin.value.num <= i128::MAX / 100
    &&& -(i128::MAX / 100) <= e.daily_interest_without_margin.value.num <= i128::MAX / 100
    &&& -MAX_ENTRY_CENTS <= entry_cents_with_margin(e) <= MAX_ENTRY_CENTS
    &&& -MAX_ENTRY_CENTS <= entry_cents_without_margin(e) <= MAX_ENTRY_CENTS
}

/// The sum, in cents, of the per-entry banker's-rounded with-margin amounts:
/// each entry is rounded first, then the rounded values are summed.
pub open spec fn sum_cents_with_margin(s: Seq<Entry>) -> int
    decreases s.len(),
{
    if s.len() == 0 {
        0
    } else {
        sum_cents_with_margin(s.drop_last()) + entry_cents_with_margin(s.last())
    }
}

/// The sum, in cents, of the per-entry banker's-rounded without-margin
/// amounts.
pub open spec fn sum_cents_without_margin(s: Seq<Entry>) -> int
    decreases s.len(),
{
    if s.len() == 0 {
        0
    } else {
        sum_cents_without_margin(s.drop_last()) + entry_cents_without_margin(s.last())
    }
}

impl Schedule {
    /// Builds the full accrual schedule of `loan`: one entry per calendar day
    /// from the start date to the end date inclusive, in ascending date
    /// order, each carrying that day's exact interest amounts.
    pub fn new(loan: &Loan) -> (r: Schedule)
        requires
            loan.wf(),
        ensures
            is_schedule_for(r.entries@, *loan),
            r.entries@.len() == loan.end_date.days - loan.start_date.days + 1,
    {
        let start: i64 = loan.start_date.days;
        let n_days: i64 = loan.end_date.days - start;
        let count: usize = (n_days as usize) + 1;
        let mut entries: Vec<Entry> = Vec::new();
        let mut i: usize = 0;
        while i < count
            invariant
                loan.wf(),
                start == loan.start_date.days,
                count == loan.end_date.days - loan.start_date.days + 1,
                i <= count,
                entries@.len() == i as int,
                forall|j: int| 0 <= j < i as int ==> entry_is_for(entries@[j], *loan, j),
            decreases count - i,
        {
            let date = Date { days: start + (i as i64) };
            let without = daily_interest_without_margin(loan, date);
            let with = daily_interest_with_margin(loan, date);
            let entry = Entry {
                daily_interest_without_margin: without,
                daily_interest_with_margin: with,
                accrual_date: date,
                days_elapsed: i as u64,
            };
            entries.push(entry);
            i = i + 1;
        }
        Schedule { entries }
    }

    /// Totals the schedule: each entry's two amounts are rounded to cents
    /// with round-half-to-even, then the rounded values are summed. An empty
    /// schedule has no total at all, which is distinct from a zero total.
    pub fn calculate_interest(&self) -> (r: Option<TotalInterest>)
        requires
            self.entries@.len() <= MAX_ENTRIES,
            uniform_currency(self.entries@),
            forall|i: int|
                0 <= i < self.entries@.len() ==> entry_amounts_bounded(#[trigger] self.entries@[i]),
        ensures
            r is None <==> self.entries@.len() == 0,
            match r {
                None => self.entries@.len() == 0,
                Some(t) => {
                    &&& t.with_margin.value.num == sum_cents_with_margin(self.entries@)
                    &&& t.with_margin.value.den == 100
                    &&& t.without_margin.value.num == sum_cents_without_margin(self.entries@)
                    &&& t.without_margin.value.den == 100
                    &&& t.with_margin.code == self.entries@[0].daily_interest_with_margin.code
                    &&& t.without_margin.code == self.entries@[0].daily_interest_with_margin.code
                    &&& t.with_margin.wf()
                    &&& t.without_margin.wf()
                },
            },
    {
        let n = self.entries.len();
        if n == 0 {
            return None;
        }
        let mut cents_with: i128 = 0;
        let mut cents_without: i128 = 0;
        let mut i: usize = 0;
        while i < n
            invariant
                n == self.entries@.len(),
                n <= MAX_ENTRIES,
                i <= n,
                forall|k: int|
                    0 <= k < self.entries@.len() ==> entry_amounts_bounded(
                        #[trigger] self.entries@[k],
                    ),
                cents_with == sum_cents_with_margin(self.entries@.take(i as int)),
                cents_without == sum_cents_without_margin(self.entries@.take(i as int)),
                // MAX_ENTRY_CENTS as a numeral: a product of a named constant
                // and a variable is opaque to the solver's linear arithmetic.
                -(i as int) * 10_000_000_000_000_000_000_000_000_000 <= cents_with <= (i as int)
                    * 10_000_000_000_000_000_000_000_000_000,
                -(i as int) * 10_000_000_000_000_000_000_000_000_000 <= cents_without <= (
                i as int) * 10_000_000_000_000_000_000_000_000_000,
            decreases n - i,
        {
            let e = self.entries[i];
            proof {
                assert(entry_amounts_bounded(self.entries@[i as int]));
            }
            let rounded_with = bankers_round(e.daily_interest_with_margin);
            let rounded_without = bankers_round(e.daily_interest_without_margin);
            proof {
                assert(self.entries@.take(i as int + 1).drop_last() =~= self.entries@.take(
                    i as int,
                ));
                assert(self.entries@.take(i as int + 1).last() == self.entries@[i as int]);
            }
            cents_with = cents_with + rounded_with.value.num;
            cents_without = cents_without + rounded_without.value.num;
            i = i + 1;
        }
        proof {
            assert(self.entries@.take(n as int) =~= self.entries@);
        }
        let code = self.entries[0].daily_interest_with_margin.code;
        Some(
            TotalInterest {
                with_margin: Money { value: Rational { num: cents_with, den: 100 }, code },
                without_margin: Money { value: Rational { num: cents_without, den: 100 }, code },
            },
        )
    }
}

/// The entries of a loan's schedule are strictly ordered by ascending accrual
/// date, with no duplicate dates and no gaps, every date lies within the
/// term, and the 0-based day offsets run up in step with the dates.
pub proof fn lemma_schedule_strictly_ordered(s: Seq<Entry>, loan: Loan)
    requires
        is_schedule_for(s, loan),
    ensures
        forall|i: int, j: int|
            0 <= i < j < s.len() ==> s[i].accrual_date.days < s[j].accrual_date.days,
        forall|i: int|
            #![trigger s[i].accrual_date]
            1 <= i < s.len() ==> s[i].accrual_date.days == s[i - 1].accrual_date.days + 1,
        forall|i: int| 0 <= i < s.len() ==> s[i].days_elapsed == i,
        forall|i: int|
            #![trigger s[i].accrual_date.days]
            0 <= i < s.len() ==> loan.start_date.days <= s[i].accrual_date.days
                <= loan.end_date.days,
{
    assert forall|i: int, j: int|
        0 <= i < j < s.len() implies s[i].accrual_date.days < s[j].accrual_date.days by {
        assert(entry_is_for(s[i], loan, i));
        assert(entry_is_for(s[j], loan, j));
    }
    assert forall|i: int|
        #![trigger s[i].accrual_date]
        1 <= i < s.len() implies s[i].accrual_date.days == s[i - 1].accrual_date.days + 1 by {
        assert(entry_is_for(s[i], loan, i));
        assert(entry_is_for(s[i - 1], loan, i - 1));
    }
}

/// A single-day loan (start date equal to end date) has exactly one entry,
/// and its day offset is zero.
pub proof fn lemma_single_day_schedule(s: Seq<Entry>, loan: Loan)
    requires
        is_schedule_for(s, loan),
        loan.start_date.days == loan.end_date.days,
    ensures
        s.len() == 1,
        s[0].days_elapsed == 0,
{
    assert(entry_is_for(s[0], loan, 0));
}

/// With a non-negative margin, every entry's with-margin amount is at least
/// its without-margin amount.
pub proof fn lemma_margin_dominates(s: Seq<Entry>, loan: Loan)
    requires
        is_schedule_for(s, loan),
        loan.wf(),
        loan.margin.units >= 0,
    ensures
        forall|i: int|
            0 <= i < s.len() ==> #[trigger] rat_le(
                s[i].daily_interest_without_margin.value,
                s[i].daily_interest_with_margin.value,
            ),
{
    assert forall|i: int|
        0 <= i < s.len() implies #[trigger] rat_le(
        s[i].daily_interest_without_margin.value,
        s[i].daily_interest_with_margin.value,
    ) by {
        assert(entry_is_for(s[i], loan, i));
        let a = loan.loan_amount.units as int;
        let b = loan.base_rate.units as int;
        let m = loan.margin.units as int;
        assert(a * b * DAILY_RATE_DEN <= a * (b + m) * DAILY_RATE_DEN) by (nonlinear_arith)
            requires
                a > 0,
                m >= 0,
        ;
    }
}

/// The schedule a well-formed loan builds meets every precondition of
/// `calculate_interest`: its amounts are bounded and share one currency.
pub proof fn lemma_built_schedule_summable(s: Seq<Entry>, loan: Loan)
    requires
        is_schedule_for(s, loan),
        loan.wf(),
    ensures
        s.len() <= MAX_ENTRIES,
        uniform_currency(s),
        forall|i: int| 0 <= i < s.len() ==> entry_amounts_bounded(#[trigger] s[i]),
{
    assert(entry_is_for(s[0], loan, 0));
    assert forall|i: int|
        0 <= i < s.len() implies s[i].daily_interest_with_margin.code
        == s[0].daily_interest_with_margin.code && s[i].daily_interest_without_margin.code
        == s[0].daily_interest_with_margin.code by {
        assert(entry_is_for(s[i], loan, i));
    }
    assert forall|i: int| 0 <= i < s.len() implies entry_amounts_bounded(#[trigger] s[i]) by {
        assert(entry_is_for(s[i], loan, i));
        let a = loan.loan_amount.units as int;
        let b = loan.base_rate.units as int;
        let m = loan.margin.units as int;
        lemma_rate_bound_helper(a, b);
        lemma_rate_bound_helper(a, b + m);
        assert(s[i].daily_interest_with_margin.value.den == 3_650_000_000_000);
        assert(s[i].daily_interest_without_margin.value.den == 3_650_000_000_000);
        // DAILY_RATE_DEN and MAX_ENTRY_CENTS - 1 as numerals, so the products
        // in the lemma's precondition stay linear.
        lemma_rounded_cents_bound(a * b, 3_650_000_000_000, 9_999_999_999_999_999_999_999_999_999);
        lemma_rounded_cents_bound(
            a * (b + m),
            3_650_000_000_000,
            9_999_999_999_999_999_999_999_999_999,
        );
    }
}

proof fn lemma_rate_bound_helper(a: int, rate: int)
    requires
        0 < a <= 10_000_000_000_000_000,
        -100_000_000_000 <= rate <= 100_000_000_000,
    ensures
        -1_000_000_000_000_000_000_000_000_000 <= a * rate
            <= 1_000_000_000_000_000_000_000_000_000,
{
    assert(-1_000_000_000_000_000_000_000_000_000 <= a * rate
        <= 1_000_000_000_000_000_000_000_000_000) by (nonlinear_arith)
        requires
            0 < a <= 10_000_000_000_000_000,
            -100_000_000_000 <= rate <= 100_000_000_000,
    ;
}

} // verus!
