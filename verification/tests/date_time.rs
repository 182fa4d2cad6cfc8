use vinyld::types::date_time::leap_year;
use vinyld::types::DateTime;

#[test]
fn leap_years_follow_the_gregorian_rule() {
    assert!(leap_year(2000));
    assert!(leap_year(2004));
    assert!(leap_year(0));
    assert!(leap_year(-4));
    assert!(leap_year(-400));
    assert!(!leap_year(1900));
    assert!(!leap_year(2005));
    assert!(!leap_year(2100));
    assert!(!leap_year(-100));
    assert!(!leap_year(-1));
    assert!(!leap_year(9999));
    assert!(!leap_year(-9999));
}

#[test]
fn moment_keeps_its_six_numbers() {
    let moment = DateTime::new(2021, 60, 23, 59, 58, 999_999_999).unwrap();
    assert_eq!(moment.year(), 2021);
    assert_eq!(moment.ordinal(), 60);
    assert_eq!(moment.hour(), 23);
    assert_eq!(moment.minute(), 59);
    assert_eq!(moment.second(), 58);
    assert_eq!(moment.nanosecond(), 999_999_999);
}

#[test]
fn moment_at_the_edges_of_the_range() {
    assert!(DateTime::new(-9999, 1, 0, 0, 0, 0).is_some());
    assert!(DateTime::new(9999, 365, 23, 59, 59, 999_999_999).is_some());
    assert!(DateTime::new(2020, 366, 0, 0, 0, 0).is_some());
    assert!(DateTime::new(2000, 366, 0, 0, 0, 0).is_some());
}

#[test]
fn moment_refuses_numbers_out_of_range() {
    assert!(DateTime::new(-10000, 1, 0, 0, 0, 0).is_none());
    assert!(DateTime::new(10000, 1, 0, 0, 0, 0).is_none());
    assert!(DateTime::new(2021, 0, 0, 0, 0, 0).is_none());
    assert!(DateTime::new(2021, 366, 0, 0, 0, 0).is_none());
    assert!(DateTime::new(1900, 366, 0, 0, 0, 0).is_none());
    assert!(DateTime::new(2020, 367, 0, 0, 0, 0).is_none());
    assert!(DateTime::new(2021, 1, 24, 0, 0, 0).is_none());
    assert!(DateTime::new(2021, 1, 0, 60, 0, 0).is_none());
    assert!(DateTime::new(2021, 1, 0, 0, 60, 0).is_none());
    assert!(DateTime::new(2021, 1, 0, 0, 0, 1_000_000_000).is_none());
}

#[test]
fn moment_as_text() {
    let moment = DateTime::new(2020, 2, 3, 4, 5, 0).unwrap();
    assert_eq!(moment.to_text(), "2020-01-02 3:04:05.0");
}

#[test]
fn moment_as_text_counts_the_leap_day() {
    let leap = DateTime::new(2020, 61, 12, 0, 0, 0).unwrap();
    let common = DateTime::new(2021, 61, 12, 0, 0, 0).unwrap();
    assert_eq!(leap.to_text(), "2020-03-01 12:00:00.0");
    assert_eq!(common.to_text(), "2021-03-02 12:00:00.0");
}

#[test]
fn moment_as_text_with_a_fraction_of_a_second() {
    let moment = DateTime::new(1999, 365, 23, 59, 59, 250_000_000).unwrap();
    assert_eq!(moment.to_text(), "1999-12-31 23:59:59.25");
}
