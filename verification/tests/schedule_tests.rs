use chrono::{Datelike, NaiveDate};
use loan_schedule::currency::CurrencyCode;
use loan_schedule::loan::{
    daily_interest_with_margin, daily_interest_without_margin, Date, Fixed, Loan,
};
use loan_schedule::money::{Money, Rational};
use loan_schedule::schedule::Schedule;

fn day(y: i32, m: u32, d: u32) -> Date {
    let days = NaiveDate::from_ymd_opt(y, m, d).unwrap().num_days_from_ce();
    Date { days: days as i64 }
}

fn usd(num: i128, den: i128) -> Money {
    Money { value: Rational { num, den }, code: CurrencyCode::USD }
}

#[test]
fn single_day_usd_loan_totals() {
    // loan_amount = 100000, base_rate = 5, margin = 1, one day (2024-01-01).
    let loan = Loan::new(
        day(2024, 1, 1),
        day(2024, 1, 1),
        Fixed::from_int(100_000),
        Fixed::from_int(5),
        Fixed::from_int(1),
        CurrencyCode::USD,
    )
    .unwrap();
    let schedule = Schedule::new(&loan);
    assert_eq!(schedule.entries.len(), 1);
    assert_eq!(schedule.entries[0].days_elapsed, 0);
    assert_eq!(schedule.entries[0].accrual_date, day(2024, 1, 1));
    // 100000 * (5/365/100) = 13.698630... -> 13.70
    // 100000 * (6/365/100) = 16.438356... -> 16.44
    let total = schedule.calculate_interest().unwrap();
    assert_eq!((total.without_margin.value.num, total.without_margin.value.den), (1370, 100));
    assert_eq!((total.with_margin.value.num, total.with_margin.value.den), (1644, 100));
    assert!(matches!(total.with_margin.code, CurrencyCode::USD));
    assert!(matches!(total.without_margin.code, CurrencyCode::USD));
}

#[test]
fn schedule_has_one_entry_per_day_inclusive() {
    let loan = Loan::new(
        day(2024, 1, 1),
        day(2024, 1, 10),
        Fixed::from_int(100_000),
        Fixed::from_int(5),
        Fixed::from_int(1),
        CurrencyCode::USD,
    )
    .unwrap();
    let schedule = Schedule::new(&loan);
    assert_eq!(schedule.entries.len(), 10);
    let total = schedule.calculate_interest().unwrap();
    // Ten days of 13.70 and 16.44, rounded per entry before summing.
    assert_eq!(total.without_margin.value.num, 13700);
    assert_eq!(total.with_margin.value.num, 16440);
}

#[test]
fn entries_are_strictly_ordered_with_no_gaps() {
    let start = day(2024, 2, 27);
    let end = day(2024, 3, 2);
    let loan = Loan::new(
        start,
        end,
        Fixed::from_int(5000),
        Fixed::from_units(32_500),
        Fixed::from_units(7_500),
        CurrencyCode::GBP,
    )
    .unwrap();
    let schedule = Schedule::new(&loan);
    // 2024 is a leap year: 2024-02-27 .. 2024-03-02 is 5 days.
    assert_eq!(schedule.entries.len(), 5);
    for (i, entry) in schedule.entries.iter().enumerate() {
        assert_eq!(entry.days_elapsed, i as u64);
        assert_eq!(entry.accrual_date.days, start.days + i as i64);
    }
    for pair in schedule.entries.windows(2) {
        assert_eq!(pair[1].accrual_date.days, pair[0].accrual_date.days + 1);
    }
}

#[test]
fn margined_amount_is_at_least_unmargined_per_entry() {
    let loan = Loan::new(
        day(2023, 6, 1),
        day(2023, 6, 30),
        Fixed::from_int(250_000),
        Fixed::from_units(47_700),
        Fixed::from_units(12_300),
        CurrencyCode::EUR,
    )
    .unwrap();
    let schedule = Schedule::new(&loan);
    for entry in &schedule.entries {
        let without = &entry.daily_interest_without_margin.value;
        let with = &entry.daily_interest_with_margin.value;
        // Compare the fractions by cross-multiplication.
        assert!(without.num * with.den <= with.num * without.den);
    }
}

#[test]
fn seven_day_tie_boundary_totals_round_per_entry() {
    // amount 365, base rate 12.5% gives exactly 0.125 a day; margin 1% gives
    // 0.135 a day: every daily amount sits on a half-cent boundary.
    let loan = Loan::new(
        day(2024, 1, 1),
        day(2024, 1, 7),
        Fixed::from_int(365),
        Fixed::from_units(125_000),
        Fixed::from_units(10_000),
        CurrencyCode::USD,
    )
    .unwrap();
    let schedule = Schedule::new(&loan);
    assert_eq!(schedule.entries.len(), 7);
    // Reference sum, computed independently: each 0.125 rounds to 0.12 and
    // each 0.135 rounds to 0.14, so 7 * 12 and 7 * 14 cents. Summing first
    // and rounding once would give 0.88 and 0.95 instead.
    let total = schedule.calculate_interest().unwrap();
    assert_eq!((total.without_margin.value.num, total.without_margin.value.den), (84, 100));
    assert_eq!((total.with_margin.value.num, total.with_margin.value.den), (98, 100));
}

#[test]
fn empty_schedule_has_no_total() {
    let schedule = Schedule { entries: Vec::new() };
    assert!(schedule.calculate_interest().is_none());
}

#[test]
fn hand_built_schedule_total_matches_reference_sum() {
    let entries = vec![
        make_entry(usd(125, 1000), usd(135, 1000), 0),
        make_entry(usd(1, 3), usd(1, 2), 1),
        make_entry(usd(-125, 1000), usd(999, 1000), 2),
    ];
    let schedule = Schedule { entries };
    let total = schedule.calculate_interest().unwrap();
    // 12 + 33 + (-12) and 14 + 50 + 100, rounded per entry.
    assert_eq!(total.without_margin.value.num, 33);
    assert_eq!(total.with_margin.value.num, 164);
}

#[test]
fn start_after_end_is_rejected() {
    let start = day(2024, 1, 2);
    let end = day(2024, 1, 1);
    let err = Loan::new(
        start,
        end,
        Fixed::from_int(100_000),
        Fixed::from_int(5),
        Fixed::from_int(1),
        CurrencyCode::USD,
    )
    .unwrap_err();
    assert_eq!(err.start_date, start);
    assert_eq!(err.end_date, end);
}

#[test]
fn daily_interest_is_zero_outside_the_term() {
    let loan = Loan::new(
        day(2024, 1, 1),
        day(2024, 1, 10),
        Fixed::from_int(100_000),
        Fixed::from_int(5),
        Fixed::from_int(1),
        CurrencyCode::USD,
    )
    .unwrap();
    let before = daily_interest_without_margin(&loan, day(2023, 12, 31));
    assert_eq!(before.value.num, 0);
    let after = daily_interest_with_margin(&loan, day(2024, 1, 11));
    assert_eq!(after.value.num, 0);
    let inside = daily_interest_without_margin(&loan, day(2024, 1, 5));
    assert_ne!(inside.value.num, 0);
}

fn make_entry(
    without: Money,
    with: Money,
    days_elapsed: u64,
) -> loan_schedule::schedule::Entry {
    loan_schedule::schedule::Entry {
        daily_interest_without_margin: without,
        daily_interest_with_margin: with,
        accrual_date: Date { days: 738_885 + days_elapsed as i64 },
        days_elapsed,
    }
}
