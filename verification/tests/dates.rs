use exit_backup::calendar::{leap_year, CalendarDate, MAX_YEAR, MIN_YEAR};

fn stamp_of(year: i32, month: u32, day: u32) -> String {
    CalendarDate::new(year, month, day).unwrap().stamp()
}

#[test]
fn stamp_is_day_month_year() {
    assert_eq!(stamp_of(2024, 3, 5), "05-03-2024");
}

#[test]
fn stamp_keeps_two_digit_days_and_months() {
    assert_eq!(stamp_of(1999, 12, 31), "31-12-1999");
    assert_eq!(stamp_of(2026, 10, 28), "28-10-2026");
}

#[test]
fn stamp_pads_early_years_to_four_digits() {
    assert_eq!(stamp_of(987, 6, 5), "05-06-0987");
    assert_eq!(stamp_of(5, 1, 1), "01-01-0005");
    assert_eq!(stamp_of(0, 2, 29), "29-02-0000");
}

#[test]
fn stamp_signs_years_outside_four_digits() {
    assert_eq!(stamp_of(-5, 1, 2), "02-01--0005");
    assert_eq!(stamp_of(-12345, 7, 8), "08-07--12345");
    assert_eq!(stamp_of(10000, 1, 1), "01-01-+10000");
    assert_eq!(stamp_of(MAX_YEAR, 12, 31), "31-12-+262142");
    assert_eq!(stamp_of(MIN_YEAR, 1, 1), "01-01--262143");
}

/// The stamp spelled out digit by digit.
fn spelled(year: i32, month: u32, day: u32) -> String {
    let digits = |n: u32| -> String {
        if n < 10000 {
            [n / 1000, n / 100 % 10, n / 10 % 10, n % 10].map(|d| char::from(b'0' + d as u8)).iter().collect()
        } else {
            n.to_string()
        }
    };
    let sign = if year < 0 {
        "-"
    } else if year < 10000 {
        ""
    } else {
        "+"
    };
    let two = |n: u32| digits(n)[2..].to_string();
    format!("{}-{}-{}{}", two(day), two(month), sign, digits(year.unsigned_abs()))
}

#[test]
fn stamp_is_spelled_the_same_in_every_year() {
    let mut years: Vec<i32> = (MIN_YEAR..=MAX_YEAR).step_by(997).collect();
    years.extend([-10000, -9999, -1000, -999, -1, 0, 1, 9, 10, 99, 100, 999, 1000, 9999, 10000]);
    years.extend([99999, 100000, MAX_YEAR]);
    for year in years {
        for month in 1..=12 {
            for day in [1, 9, 10, 28] {
                assert_eq!(stamp_of(year, month, day), spelled(year, month, day));
            }
        }
    }
}

#[test]
fn stamp_is_what_chrono_writes() {
    for (year, month, day) in [(2024, 2, 29), (1, 1, 1), (9999, 12, 31), (-1, 3, 4)] {
        let theirs = chrono::NaiveDate::from_ymd_opt(year, month, day).unwrap();
        assert_eq!(stamp_of(year, month, day), theirs.format("%d-%m-%Y").to_string());
    }
}

#[test]
fn different_days_have_different_stamps() {
    let days = [(2024, 3, 5), (2024, 5, 3), (2025, 3, 5), (2024, 3, 6), (-2024, 3, 5), (12024, 3, 5)];
    for (i, a) in days.iter().enumerate() {
        for (j, b) in days.iter().enumerate() {
            assert_eq!(stamp_of(a.0, a.1, a.2) == stamp_of(b.0, b.1, b.2), i == j);
        }
    }
}

#[test]
fn new_keeps_the_numbers() {
    let date = CalendarDate::new(2024, 3, 5).unwrap();
    assert_eq!((date.year(), date.month(), date.day()), (2024, 3, 5));
}

#[test]
fn new_refuses_days_that_do_not_exist() {
    assert!(CalendarDate::new(2023, 2, 29).is_none());
    assert!(CalendarDate::new(2024, 2, 30).is_none());
    assert!(CalendarDate::new(2024, 4, 31).is_none());
    assert!(CalendarDate::new(2024, 0, 1).is_none());
    assert!(CalendarDate::new(2024, 13, 1).is_none());
    assert!(CalendarDate::new(2024, 1, 0).is_none());
    assert!(CalendarDate::new(2024, 1, 32).is_none());
}

#[test]
fn new_refuses_years_out_of_range() {
    assert!(CalendarDate::new(MAX_YEAR, 12, 31).is_some());
    assert!(CalendarDate::new(MAX_YEAR + 1, 1, 1).is_none());
    assert!(CalendarDate::new(MIN_YEAR, 1, 1).is_some());
    assert!(CalendarDate::new(MIN_YEAR - 1, 12, 31).is_none());
    assert!(CalendarDate::new(i32::MAX, 1, 1).is_none());
    assert!(CalendarDate::new(i32::MIN, 1, 1).is_none());
}

#[test]
fn new_agrees_with_chrono() {
    for year in [-401, -400, -100, -4, -1, 0, 1, 1900, 2000, 2023, 2024, 2100] {
        for month in 0..=13 {
            for day in 0..=32 {
                assert_eq!(
                    CalendarDate::new(year, month, day).is_some(),
                    chrono::NaiveDate::from_ymd_opt(year, month, day).is_some(),
                );
            }
        }
    }
}

#[test]
fn leap_years_follow_the_gregorian_rule() {
    assert!(leap_year(2024));
    assert!(!leap_year(2023));
    assert!(!leap_year(1900));
    assert!(leap_year(2000));
    assert!(leap_year(0));
    assert!(leap_year(-4));
    assert!(!leap_year(-100));
    assert!(leap_year(-400));
    assert!(!leap_year(i32::MAX));
    assert!(leap_year(i32::MIN));
}

#[test]
fn months_have_their_lengths() {
    let lengths = [31, 28, 31, 30, 31, 30, 31, 31, 30, 31, 30, 31];
    for (month, length) in (1..=12).zip(lengths) {
        assert!(CalendarDate::new(2023, month, length).is_some());
        assert!(CalendarDate::new(2023, month, length + 1).is_none());
    }
    assert!(CalendarDate::new(2024, 2, 29).is_some());
    assert!(CalendarDate::new(2024, 2, 30).is_none());
}

#[test]
fn today_is_the_local_date() {
    let before = chrono::Local::now().date_naive();
    let today = CalendarDate::today();
    let after = chrono::Local::now().date_naive();
    let stamp = today.stamp();
    assert!(
        stamp == before.format("%d-%m-%Y").to_string()
            || stamp == after.format("%d-%m-%Y").to_string()
    );
    assert!(CalendarDate::new(today.year(), today.month(), today.day()) == Some(today));
}
