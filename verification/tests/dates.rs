use chrono::{Datelike, NaiveDate};
use dijo::{Absolute, Cursor, Date, MAX_DAYS, MIN_DAYS};

fn day(y: i32, m: u32, d: u32) -> Date {
    Date::from_days(NaiveDate::from_ymd_opt(y, m, d).unwrap().num_days_from_ce()).unwrap()
}

fn naive(date: Date) -> NaiveDate {
    NaiveDate::from_num_days_from_ce_opt(date.days()).unwrap()
}

#[test]
fn calendar_range_is_that_of_the_date_crate() {
    assert_eq!(MIN_DAYS, NaiveDate::MIN.num_days_from_ce());
    assert_eq!(MAX_DAYS, NaiveDate::MAX.num_days_from_ce());
    assert!(NaiveDate::from_num_days_from_ce_opt(MIN_DAYS - 1).is_none());
    assert!(NaiveDate::from_num_days_from_ce_opt(MAX_DAYS + 1).is_none());
}

#[test]
fn from_days_accepts_the_range_only() {
    assert_eq!(Date::from_days(MIN_DAYS).unwrap().days(), MIN_DAYS);
    assert_eq!(Date::from_days(MAX_DAYS).unwrap().days(), MAX_DAYS);
    assert_eq!(Date::from_days(730_000).unwrap().days(), 730_000);
    assert!(Date::from_days(MIN_DAYS - 1).is_none());
    assert!(Date::from_days(MAX_DAYS + 1).is_none());
    assert!(Date::from_days(i32::MAX).is_none());
    assert!(Date::from_days(i32::MIN).is_none());
}

#[test]
fn dates_order_as_their_days() {
    assert!(day(2020, 2, 28) < day(2020, 2, 29));
    assert!(day(2020, 2, 29) < day(2020, 3, 1));
    assert_eq!(day(1999, 9, 3).days(), 730_000);
}

#[test]
fn seek_left_goes_to_the_day_before() {
    let today = day(2021, 3, 1);
    let mut c = Cursor(today);
    c.small_seek_at(Absolute::Left, today);
    assert_eq!(naive(c.0), NaiveDate::from_ymd_opt(2021, 2, 28).unwrap());
    assert_eq!(c.0.days(), today.days() - 1);
}

#[test]
fn seek_right_goes_to_the_day_after_when_not_past_today() {
    let today = day(2020, 3, 1);
    let mut c = Cursor(day(2020, 2, 28));
    c.small_seek_at(Absolute::Right, today);
    assert_eq!(naive(c.0), NaiveDate::from_ymd_opt(2020, 2, 29).unwrap());
    c.small_seek_at(Absolute::Right, today);
    assert_eq!(c.0, today);
    c.small_seek_at(Absolute::Right, today);
    assert_eq!(c.0, today);
}

#[test]
fn seek_up_and_down_go_by_weeks() {
    let today = day(2021, 6, 20);
    let mut c = Cursor(day(2021, 6, 10));
    c.small_seek_at(Absolute::Up, today);
    assert_eq!(c.0, day(2021, 6, 3));
    c.small_seek_at(Absolute::Down, today);
    assert_eq!(c.0, day(2021, 6, 10));
    c.small_seek_at(Absolute::Down, today);
    assert_eq!(c.0, day(2021, 6, 17));
    c.small_seek_at(Absolute::Down, today);
    assert_eq!(c.0, day(2021, 6, 17));
    c.small_seek_at(Absolute::Still, today);
    assert_eq!(c.0, day(2021, 6, 17));
}

#[test]
fn seek_down_lands_on_today_exactly() {
    let today = day(2021, 6, 17);
    let mut c = Cursor(day(2021, 6, 10));
    c.small_seek_at(Absolute::Down, today);
    assert_eq!(c.0, today);
}

#[test]
fn seeks_stop_at_the_first_day_of_the_calendar() {
    let today = day(2021, 6, 17);
    let first = Date::from_days(MIN_DAYS).unwrap();
    let mut c = Cursor(first);
    c.small_seek_at(Absolute::Left, today);
    assert_eq!(c.0, first);
    c.small_seek_at(Absolute::Up, today);
    assert_eq!(c.0, first);
    let mut c = Cursor(Date::from_days(MIN_DAYS + 6).unwrap());
    c.small_seek_at(Absolute::Up, today);
    assert_eq!(c.0.days(), MIN_DAYS + 6);
    c.month_backward_at(today);
    assert_eq!(c.0.days(), MIN_DAYS + 6);
    let mut c = Cursor(Date::from_days(MIN_DAYS + 7).unwrap());
    c.small_seek_at(Absolute::Up, today);
    assert_eq!(c.0, first);
}

#[test]
fn seeks_stop_at_the_last_day_of_the_calendar() {
    let last = Date::from_days(MAX_DAYS).unwrap();
    let mut c = Cursor(last);
    c.small_seek_at(Absolute::Right, last);
    assert_eq!(c.0, last);
    c.small_seek_at(Absolute::Down, last);
    assert_eq!(c.0, last);
    c.month_forward_at(last);
    assert_eq!(c.0, last);
    let mut c = Cursor(Date::from_days(MAX_DAYS - 5).unwrap());
    c.month_forward_at(last);
    assert_eq!(c.0, last);
}

#[test]
fn repeated_seek_right_from_today_stays_on_today() {
    let mut c = Cursor::new();
    let today = c.0;
    for _ in 0..10 {
        c.small_seek_at(Absolute::Right, today);
        assert_eq!(c.0, today);
    }
    let mut c = Cursor::new();
    for _ in 0..3 {
        c.small_seek(Absolute::Right);
        assert!(c.0 <= Cursor::new().0);
    }
}

#[test]
fn repeated_seek_left_from_today_counts_the_days() {
    let mut c = Cursor::new();
    let today = c.0;
    for n in 1..=40 {
        c.small_seek_at(Absolute::Left, today);
        assert_eq!(c.0.days(), today.days() - n);
    }
    assert_eq!(naive(c.0), naive(today) - chrono::Duration::days(40));
}

#[test]
fn month_forward_goes_four_weeks_or_to_today() {
    let today = day(2021, 6, 30);
    let mut c = Cursor(day(2021, 5, 1));
    c.month_forward_at(today);
    assert_eq!(c.0, day(2021, 5, 29));
    c.month_forward_at(today);
    assert_eq!(c.0, day(2021, 6, 26));
    c.month_forward_at(today);
    assert_eq!(c.0, today);
    c.month_forward_at(today);
    assert_eq!(c.0, today);
}

#[test]
fn month_forward_lands_on_today_when_four_weeks_reach_it() {
    let today = day(2021, 6, 30);
    let mut c = Cursor(day(2021, 6, 2));
    c.month_forward_at(today);
    assert_eq!(c.0, today);
}

#[test]
fn month_backward_goes_four_weeks_however_far() {
    let today = day(2021, 6, 30);
    let mut c = Cursor(today);
    c.month_backward_at(today);
    assert_eq!(c.0, day(2021, 6, 2));
    for _ in 0..100 {
        c.month_backward_at(today);
    }
    assert_eq!(c.0.days(), today.days() - 28 * 101);
}

#[test]
fn month_backward_from_the_future_lands_on_today() {
    let today = day(2021, 6, 30);
    let mut c = Cursor(day(2021, 9, 30));
    c.month_backward_at(today);
    assert_eq!(c.0, today);
    let mut c = Cursor(day(2021, 7, 10));
    c.month_backward_at(today);
    assert_eq!(c.0, day(2021, 6, 12));
}

#[test]
fn reset_snaps_to_today() {
    let today = day(2021, 6, 30);
    let mut c = Cursor(day(2020, 1, 1));
    c.reset_at(today);
    assert_eq!(c.0, today);
    let mut c = Cursor(day(2020, 1, 1));
    c.reset();
    assert!(c.0 > day(2020, 1, 1));
    assert!(Cursor::default().0 >= c.0);
}

#[test]
fn clock_reading_seeks_agree_with_dated_ones() {
    let today = Cursor::new().0;
    let mut a = Cursor(day(2020, 1, 1));
    let mut b = Cursor(day(2020, 1, 1));
    a.small_seek(Absolute::Down);
    b.small_seek_at(Absolute::Down, today);
    assert_eq!(a.0, b.0);
    a.month_forward();
    b.month_forward_at(today);
    assert_eq!(a.0, b.0);
    a.month_backward();
    b.month_backward_at(today);
    assert_eq!(a.0, b.0);
}
