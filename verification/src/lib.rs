//! A day-by-day simple-interest accrual schedule for a fixed-term loan.
//!
//! A validated [`loan::Loan`] describes the contract terms; [`schedule::Schedule`]
//! builds one entry per calendar day of the term and aggregates the daily
//! amounts, rounded half-to-even to two decimal places, into a total per rate.
//! Amounts are exact fractions tagged with a [`currency::CurrencyCode`], so no
//! precision is lost before the rounding step and amounts in different
//! currencies cannot be combined.

pub mod currency;
pub mod loan;
pub mod money;
pub mod rounding;
pub mod schedule;
