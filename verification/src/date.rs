//! Calendar dates, numbered by day.

use chrono::{Datelike, Duration, Local, NaiveDate};
use vstd::prelude::*;

verus! {

/// Day number of the first date the calendar can represent (1 January 262144 BCE).
pub const MIN_DAYS: i32 = -95_746_129;

/// Day number of the last date the calendar can represent (31 December 262142 CE).
pub const MAX_DAYS: i32 = 95_745_399;

/// A calendar date without a time of day.
///
/// A date is held as its day number in the proleptic Gregorian calendar, where
/// day 1 is 1 January of the year 1: the number that `chrono` calls the days
/// from the Common Era. Consecutive dates have consecutive numbers, so
/// chronological order is the order of the numbers.
#[derive(Clone, Copy, Debug, PartialEq, Eq, PartialOrd, Ord, Hash)]
pub struct Date {
    days: i32,
}

impl View for Date {
    type V = int;

    closed spec fn view(&self) -> int {
        self.days as int
    }
}

impl Date {
    /// Every date lies within the calendar's range.
    #[verifier::type_invariant]
    pub open spec fn in_range(self) -> bool {
        MIN_DAYS <= self@ <= MAX_DAYS
    }

    /// The date with the given day number, if the calendar reaches that far.
    pub fn from_days(days: i32) -> (r: Option<Date>)
        ensures
            r is Some <==> MIN_DAYS <= days <= MAX_DAYS,
            r matches Some(d) ==> d@ == days,
    {
        if MIN_DAYS <= days && days <= MAX_DAYS {
            Some(Date { days })
        } else {
            None
        }
    }

    /// The date with the given day number.
    pub closed spec fn of_day(day: int) -> Date {
        Date { days: day as i32 }
    }

    /// Within the calendar's range, `of_day` numbers its result as asked.
    pub proof fn lemma_of_day(day: int)
        requires
            MIN_DAYS <= day <= MAX_DAYS,
        ensures
            Date::of_day(day)@ == day,
    {
    }

    /// Dates with the same day number are the same date.
    pub proof fn lemma_same_day(a: Date, b: Date)
        requires
            a@ == b@,
        ensures
            a == b,
    {
    }

    /// The day number of this date.
    pub fn days(&self) -> (n: i32)
        ensures
            n == self@,
            MIN_DAYS <= n <= MAX_DAYS,
    {
        proof {
            use_type_invariant(self);
        }
        self.days
    }
}

/// The machine's current local date, from `chrono::Local::now`.
///
/// Two calls may differ. All that is claimed of the result is that it is a
/// date of the calendar, as every `chrono::NaiveDate` is.
#[verifier::external_body]
pub(crate) fn today() -> (d: Date)
    ensures
        d.in_range(),
{
    Date { days: Local::now().naive_local().date().num_days_from_ce() }
}

/// `chrono::NaiveDate::succ_opt`, on the `NaiveDate` with the day number of
/// `date`: it yields the date numbered one higher, and `None` only for the
/// last representable date.
#[verifier::external_body]
pub(crate) fn next_day(date: Date) -> (r: Option<Date>)
    ensures
        r is Some <==> date@ < MAX_DAYS,
        r matches Some(d) ==> d@ == date@ + 1,
{
    match NaiveDate::from_num_days_from_ce_opt(date.days)?.succ_opt() {
        Some(next) => Some(Date { days: next.num_days_from_ce() }),
        None => None,
    }
}

/// `chrono::NaiveDate::pred_opt`, on the `NaiveDate` with the day number of
/// `date`: it yields the date numbered one lower, and `None` only for the
/// first representable date.
#[verifier::external_body]
pub(crate) fn previous_day(date: Date) -> (r: Option<Date>)
    ensures
        r is Some <==> date@ > MIN_DAYS,
        r matches Some(d) ==> d@ == date@ - 1,
{
    match NaiveDate::from_num_days_from_ce_opt(date.days)?.pred_opt() {
        Some(previous) => Some(Date { days: previous.num_days_from_ce() }),
        None => None,
    }
}

/// `chrono::NaiveDate::checked_add_signed` with a span of whole weeks, on
/// the `NaiveDate` with the day number of `date`: it moves the date by seven
/// days per week, and yields `None` exactly when the result would leave the
/// representable range.
#[verifier::external_body]
pub(crate) fn add_weeks(date: Date, weeks: i32) -> (r: Option<Date>)
    ensures
        r is Some <==> MIN_DAYS <= date@ + 7 * weeks <= MAX_DAYS,
        r matches Some(d) ==> d@ == date@ + 7 * weeks,
{
    let day = NaiveDate::from_num_days_from_ce_opt(date.days)?;
    match day.checked_add_signed(Duration::weeks(i64::from(weeks))) {
        Some(moved) => Some(Date { days: moved.num_days_from_ce() }),
        None => None,
    }
}

/// The text of `chrono::NaiveDate::format` with the pattern `%d/%b/%y`, for
/// the date with the given day number.
pub uninterp spec fn short_date_text(day: int) -> Seq<char>;

/// The text that `chrono::NaiveDate` displays as, for the date with the
/// given day number.
pub uninterp spec fn iso_date_text(day: int) -> Seq<char>;

/// `chrono::NaiveDate::format` with the pattern `%d/%b/%y`: day of the
/// month, abbreviated month name and two-digit year. The text depends on the
/// date alone.
#[verifier::external_body]
pub(crate) fn short_text(date: Date) -> (s: String)
    ensures
        s@ == short_date_text(date@),
{
    match NaiveDate::from_num_days_from_ce_opt(date.days) {
        Some(day) => day.format("%d/%b/%y").to_string(),
        None => String::new(),
    }
}

/// The `Display` text of `chrono::NaiveDate`: year, month and day with
/// hyphens between. The text depends on the date alone.
#[verifier::external_body]
pub(crate) fn iso_text(date: Date) -> (s: String)
    ensures
        s@ == iso_date_text(date@),
{
    match NaiveDate::from_num_days_from_ce_opt(date.days) {
        Some(day) => day.to_string(),
        None => String::new(),
    }
}

} // verus!
