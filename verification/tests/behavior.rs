use datediff::calendar::{delta_days, CalendarDate};
use datediff::pattern::{DateFormat, UnparsedDate};
use datediff::render::{decimal_string, delta_string, verbose_message};
use datediff::resolve::{current_date, run};

fn fmt_default() -> DateFormat {
    DateFormat::from(String::from("%Y-%m-%d"))
}

fn date(y: i16, m: i8, d: i8) -> CalendarDate {
    CalendarDate::new(y, m, d).unwrap()
}

fn text(s: &str) -> UnparsedDate {
    UnparsedDate::from(String::from(s))
}

fn any_today() -> CalendarDate {
    date(2000, 1, 1)
}

#[test]
fn nonverbose_forward_delta() {
    let r = run(
        &fmt_default(),
        &text("2023-01-10"),
        Some(&text("2023-01-01")),
        any_today(),
        false,
    );
    assert_eq!(r.unwrap(), "9");
}

#[test]
fn nonverbose_backward_delta() {
    let r = run(
        &fmt_default(),
        &text("2023-01-01"),
        Some(&text("2023-01-10")),
        any_today(),
        false,
    );
    assert_eq!(r.unwrap(), "-9");
}

#[test]
fn verbose_singular_day_before() {
    let r = run(
        &fmt_default(),
        &text("2023-01-01"),
        Some(&text("2023-01-02")),
        any_today(),
        true,
    );
    assert_eq!(r.unwrap(), "2023-01-01 is 1 day before 2023-01-02.");
}

#[test]
fn verbose_same_dates() {
    let r = run(
        &fmt_default(),
        &text("2023-06-01"),
        Some(&text("2023-06-01")),
        any_today(),
        true,
    );
    assert_eq!(r.unwrap(), "Both dates are the same (2023-06-01).");
}

#[test]
fn custom_format_delta() {
    let fmt = DateFormat::from(String::from("%m/%d/%Y"));
    let r = run(
        &fmt,
        &text("01/15/2023"),
        Some(&text("01/01/2023")),
        any_today(),
        false,
    );
    assert_eq!(r.unwrap(), "14");
}

#[test]
fn unparsable_text_is_an_error() {
    let r = run(&fmt_default(), &text("not-a-date"), None, any_today(), false);
    let e = r.unwrap_err();
    assert_eq!(e.text, "not-a-date");
    assert_eq!(e.pattern, "%Y-%m-%d");
    assert_eq!(
        e.message(),
        "could not parse date \"not-a-date\" with pattern \"%Y-%m-%d\""
    );
}

#[test]
fn invalid_calendar_date_is_an_error() {
    let r = run(
        &fmt_default(),
        &text("2023-13-40"),
        Some(&text("2023-01-01")),
        any_today(),
        false,
    );
    let e = r.unwrap_err();
    assert_eq!(e.text, "2023-13-40");
}

#[test]
fn from_text_failure_names_the_from_text() {
    let r = run(
        &fmt_default(),
        &text("2023-01-01"),
        Some(&text("garbage")),
        any_today(),
        false,
    );
    let e = r.unwrap_err();
    assert_eq!(e.text, "garbage");
    assert_eq!(e.pattern, "%Y-%m-%d");
}

#[test]
fn default_from_uses_injected_today() {
    let r = run(
        &fmt_default(),
        &text("2023-01-10"),
        None,
        date(2023, 1, 1),
        false,
    );
    assert_eq!(r.unwrap(), "9");
}

#[test]
fn default_from_verbose_uses_injected_today() {
    let r = run(
        &fmt_default(),
        &text("2023-01-02"),
        None,
        date(2023, 1, 1),
        true,
    );
    assert_eq!(r.unwrap(), "2023-01-02 is 1 day after 2023-01-01.");
}

#[test]
fn round_trip_default_pattern() {
    let fmt = fmt_default();
    let d = date(2023, 1, 10);
    let rendered = fmt.format(&d);
    assert_eq!(rendered, "2023-01-10");
    let back = fmt.parse(&UnparsedDate::from(rendered)).unwrap();
    assert_eq!(back, d);
}

#[test]
fn round_trip_custom_pattern() {
    let fmt = DateFormat::from(String::from("%m/%d/%Y"));
    let d = date(2023, 1, 15);
    let rendered = fmt.format(&d);
    assert_eq!(rendered, "01/15/2023");
    let back = fmt.parse(&UnparsedDate::from(rendered)).unwrap();
    assert_eq!(back, d);
}

#[test]
fn parse_fills_the_fields() {
    let d = fmt_default().parse(&text("2024-02-29")).unwrap();
    assert_eq!(d.year, 2024);
    assert_eq!(d.month, 2);
    assert_eq!(d.day, 29);
}

#[test]
fn nonleap_february_is_rejected() {
    assert!(fmt_default().parse(&text("2023-02-29")).is_err());
    assert!(CalendarDate::new(2023, 2, 29).is_none());
    assert!(CalendarDate::new(2024, 2, 29).is_some());
}

#[test]
fn delta_across_leap_day() {
    assert_eq!(delta_days(&date(2024, 3, 1), &date(2024, 2, 28)), 2);
    assert_eq!(delta_days(&date(2023, 3, 1), &date(2023, 2, 28)), 1);
    assert_eq!(delta_days(&date(1900, 3, 1), &date(1900, 2, 28)), 1);
    assert_eq!(delta_days(&date(2000, 3, 1), &date(2000, 2, 28)), 2);
}

#[test]
fn delta_across_years() {
    assert_eq!(delta_days(&date(2024, 1, 1), &date(2023, 1, 1)), 365);
    assert_eq!(delta_days(&date(2025, 1, 1), &date(2024, 1, 1)), 366);
}

#[test]
fn delta_antisymmetry_on_samples() {
    let pairs = [
        (date(2023, 1, 1), date(2023, 1, 10)),
        (date(1999, 12, 31), date(2000, 1, 1)),
        (date(-44, 3, 15), date(2024, 7, 4)),
    ];
    for (a, b) in pairs {
        assert_eq!(delta_days(&a, &b), -delta_days(&b, &a));
    }
}

#[test]
fn delta_matches_known_epoch_day_counts() {
    assert_eq!(delta_days(&date(2000, 1, 1), &date(1970, 1, 1)), 10957);
    assert_eq!(delta_days(&date(2023, 1, 1), &date(1970, 1, 1)), 19358);
}

#[test]
fn delta_with_self_is_zero() {
    let d = date(2023, 6, 1);
    assert_eq!(delta_days(&d, &d), 0);
}

#[test]
fn epoch_days_starts_at_minimum_year() {
    assert_eq!(date(-9999, 1, 1).epoch_days(), 0);
    assert_eq!(date(-9999, 1, 2).epoch_days(), 1);
    assert_eq!(date(-9998, 1, 1).epoch_days(), 365);
}

#[test]
fn verbose_pluralization_boundary() {
    assert_eq!(
        verbose_message(2, "2023-01-03", "2023-01-01"),
        "2023-01-03 is 2 days after 2023-01-01."
    );
    assert_eq!(
        verbose_message(-2, "2023-01-01", "2023-01-03"),
        "2023-01-01 is 2 days before 2023-01-03."
    );
    assert_eq!(verbose_message(1, "b", "a"), "b is 1 day after a.");
    assert_eq!(verbose_message(-1, "a", "b"), "a is 1 day before b.");
    assert_eq!(verbose_message(0, "x", "y"), "Both dates are the same (y).");
}

#[test]
fn delta_rendering() {
    assert_eq!(delta_string(0), "0");
    assert_eq!(delta_string(9), "9");
    assert_eq!(delta_string(-9), "-9");
    assert_eq!(delta_string(-123), "-123");
    assert_eq!(delta_string(i32::MIN), "-2147483648");
    assert_eq!(decimal_string(1234567890), "1234567890");
}

#[test]
fn current_date_is_a_real_date() {
    assert!(current_date().is_valid());
}

#[test]
fn date_validation_bounds() {
    assert!(CalendarDate::new(10000, 1, 1).is_none());
    assert!(CalendarDate::new(-10000, 1, 1).is_none());
    assert!(CalendarDate::new(2023, 0, 1).is_none());
    assert!(CalendarDate::new(2023, 4, 31).is_none());
    assert!(CalendarDate::new(2023, 4, 30).is_some());
}
