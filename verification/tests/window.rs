use ssr::api_functions::{get_next_date, month_window, MonthWindow};
use ssr::calendar::{month_exists, MonthStart, MAX_YEAR, MIN_YEAR};
use ssr::ssr_errors::SsrError;

fn window_of_texts(start: &str, end: &str) -> MonthWindow {
    MonthWindow { start_time: start.to_string(), end_time: end.to_string() }
}

#[test]
fn calendar_has_twelve_months_in_each_of_its_years() {
    assert!(month_exists(2023, 1));
    assert!(month_exists(2023, 12));
    assert!(!month_exists(2023, 0));
    assert!(!month_exists(2023, 13));
    assert!(month_exists(0, 6));
    assert!(month_exists(-1, 6));
    assert!(month_exists(MIN_YEAR, 1));
    assert!(month_exists(MAX_YEAR, 12));
    assert!(!month_exists(MIN_YEAR - 1, 12));
    assert!(!month_exists(MAX_YEAR + 1, 1));
    assert_eq!(MIN_YEAR, -262143);
    assert_eq!(MAX_YEAR, 262142);
}

#[test]
fn first_day_of_a_month_as_text() {
    assert_eq!(MonthStart { year: 2023, month: 2 }.text(), Some("2023-02-01".to_string()));
    assert_eq!(MonthStart { year: 2023, month: 11 }.text(), Some("2023-11-01".to_string()));
    assert_eq!(MonthStart { year: 1, month: 1 }.text(), Some("0001-01-01".to_string()));
    assert_eq!(MonthStart { year: 10000, month: 1 }.text(), Some("+10000-01-01".to_string()));
    assert_eq!(MonthStart { year: -10000, month: 1 }.text(), Some("-10000-01-01".to_string()));
    assert_eq!(MonthStart { year: -999, month: 10 }.text(), Some("-0999-10-01".to_string()));
    assert_eq!(MonthStart { year: 2023, month: 13 }.text(), None);
    assert_eq!(MonthStart { year: 2023, month: 0 }.text(), None);
    assert_eq!(MonthStart { year: MAX_YEAR + 1, month: 1 }.text(), None);
}

#[test]
fn month_after_february_is_march() {
    assert_eq!(get_next_date(2023, 2), Ok(MonthStart { year: 2023, month: 3 }));
}

#[test]
fn month_after_december_is_january_of_next_year() {
    assert_eq!(get_next_date(2023, 12), Ok(MonthStart { year: 2024, month: 1 }));
}

#[test]
fn month_after_january_and_november() {
    assert_eq!(get_next_date(2020, 1), Ok(MonthStart { year: 2020, month: 2 }));
    assert_eq!(get_next_date(2029, 11), Ok(MonthStart { year: 2029, month: 12 }));
}

#[test]
fn month_zero_and_thirteen_are_no_months() {
    assert_eq!(get_next_date(2023, 0), Err(SsrError::YearMonthConversion));
    assert_eq!(get_next_date(2023, 13), Err(SsrError::YearMonthConversion));
    assert_eq!(get_next_date(2023, u32::MAX), Err(SsrError::YearMonthConversion));
}

#[test]
fn years_beyond_the_calendar_have_no_months() {
    assert_eq!(get_next_date(MAX_YEAR + 1, 1), Err(SsrError::YearMonthConversion));
    assert_eq!(get_next_date(MIN_YEAR - 1, 1), Err(SsrError::YearMonthConversion));
    assert_eq!(get_next_date(i32::MAX, 12), Err(SsrError::YearMonthConversion));
    assert_eq!(get_next_date(i32::MIN, 1), Err(SsrError::YearMonthConversion));
}

#[test]
fn ends_of_the_calendar() {
    assert_eq!(get_next_date(MAX_YEAR, 11), Ok(MonthStart { year: MAX_YEAR, month: 12 }));
    assert_eq!(get_next_date(MAX_YEAR, 12), Err(SsrError::YearMonthConversion));
    assert_eq!(get_next_date(MIN_YEAR, 1), Ok(MonthStart { year: MIN_YEAR, month: 2 }));
    assert_eq!(get_next_date(MIN_YEAR, 12), Ok(MonthStart { year: MIN_YEAR + 1, month: 1 }));
}

#[test]
fn window_of_february_2023_ends_on_first_of_march() {
    let w = month_window(2023, 2).unwrap();
    assert_eq!(w.end_time, "2023-03-01T00:00:00.000");
    assert_eq!(w.start_time, "2023-02-01T00:00:00.000");
}

#[test]
fn window_of_december_2023_ends_in_2024() {
    let w = month_window(2023, 12).unwrap();
    assert_eq!(w.end_time, "2024-01-01T00:00:00.000");
    assert_eq!(w.start_time, "2023-12-01T00:00:00.000");
}

#[test]
fn window_of_september_ends_in_a_two_digit_month() {
    assert_eq!(
        month_window(2024, 9),
        Ok(window_of_texts("2024-09-01T00:00:00.000", "2024-10-01T00:00:00.000"))
    );
}

#[test]
fn window_pads_short_years() {
    assert_eq!(month_window(999, 12), Ok(window_of_texts("0999-12-01T00:00:00.000", "1000-01-01T00:00:00.000")));
    assert_eq!(month_window(0, 1), Ok(window_of_texts("0000-01-01T00:00:00.000", "0000-02-01T00:00:00.000")));
    assert_eq!(month_window(7, 3), Ok(window_of_texts("0007-03-01T00:00:00.000", "0007-04-01T00:00:00.000")));
}

#[test]
fn window_signs_years_outside_four_digits() {
    assert_eq!(
        month_window(9999, 12),
        Ok(window_of_texts("9999-12-01T00:00:00.000", "+10000-01-01T00:00:00.000"))
    );
    assert_eq!(
        month_window(-1, 12),
        Ok(window_of_texts("-0001-12-01T00:00:00.000", "0000-01-01T00:00:00.000"))
    );
    assert_eq!(
        month_window(MIN_YEAR, 1),
        Ok(window_of_texts("-262143-01-01T00:00:00.000", "-262143-02-01T00:00:00.000"))
    );
    assert_eq!(
        month_window(MAX_YEAR, 11),
        Ok(window_of_texts("+262142-11-01T00:00:00.000", "+262142-12-01T00:00:00.000"))
    );
}

#[test]
fn window_fails_without_a_month() {
    assert_eq!(month_window(2023, 13), Err(SsrError::YearMonthConversion));
    assert_eq!(month_window(2023, 0), Err(SsrError::YearMonthConversion));
    assert_eq!(month_window(MAX_YEAR, 12), Err(SsrError::YearMonthConversion));
}

#[test]
fn every_accepted_month_has_a_window() {
    for year in 2020..2030 {
        for month in 1..=12u32 {
            let w = month_window(year, month).unwrap();
            assert_eq!(w.start_time, format!("{:04}-{:02}-01T00:00:00.000", year, month));
            let (next_year, next_month) = if month == 12 { (year + 1, 1) } else { (year, month + 1) };
            assert_eq!(w.end_time, format!("{:04}-{:02}-01T00:00:00.000", next_year, next_month));
        }
    }
}
