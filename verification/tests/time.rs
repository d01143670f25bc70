use status_line::time::{date_local, time_local, LocalDateTime};

#[test]
fn time_test_datetime() {
    let time = LocalDateTime::new(2024, 2, 29, 13, 5, 9, 0).unwrap();

    println!("{:?}", time_local(&time));
    println!("{:?}", date_local(&time));
}

#[test]
fn date_and_time_are_zero_padded() {
    let t = LocalDateTime::new(2024, 2, 29, 3, 5, 9, 123).unwrap();
    assert_eq!(date_local(&t), "2024-02-29");
    assert_eq!(time_local(&t), "03:05:09");
}

#[test]
fn midnight_and_last_second() {
    let a = LocalDateTime::new(1999, 12, 31, 0, 0, 0, 0).unwrap();
    let b = LocalDateTime::new(1999, 12, 31, 23, 59, 59, 999_999_999).unwrap();
    assert_eq!(time_local(&a), "00:00:00");
    assert_eq!(time_local(&b), "23:59:59");
}

#[test]
fn leap_second_reads_sixty() {
    let t = LocalDateTime::new(2016, 12, 31, 23, 59, 59, 1_500_000_000).unwrap();
    assert_eq!(time_local(&t), "23:59:60");
}

#[test]
fn years_outside_four_digits_are_signed() {
    let early = LocalDateTime::new(-1, 1, 1, 0, 0, 0, 0).unwrap();
    let small = LocalDateTime::new(33, 4, 3, 0, 0, 0, 0).unwrap();
    let late = LocalDateTime::new(12345, 6, 7, 0, 0, 0, 0).unwrap();
    let first = LocalDateTime::new(-262_143, 1, 1, 0, 0, 0, 0).unwrap();
    let last = LocalDateTime::new(262_142, 12, 31, 0, 0, 0, 0).unwrap();
    assert_eq!(date_local(&early), "-0001-01-01");
    assert_eq!(date_local(&small), "0033-04-03");
    assert_eq!(date_local(&late), "+12345-06-07");
    assert_eq!(date_local(&first), "-262143-01-01");
    assert_eq!(date_local(&last), "+262142-12-31");
}

#[test]
fn invalid_moments_are_refused() {
    assert!(LocalDateTime::new(2023, 2, 29, 0, 0, 0, 0).is_none());
    assert!(LocalDateTime::new(2024, 2, 30, 0, 0, 0, 0).is_none());
    assert!(LocalDateTime::new(1900, 2, 29, 0, 0, 0, 0).is_none());
    assert!(LocalDateTime::new(2000, 2, 29, 0, 0, 0, 0).is_some());
    assert!(LocalDateTime::new(-4, 2, 29, 0, 0, 0, 0).is_some());
    assert!(LocalDateTime::new(2024, 0, 1, 0, 0, 0, 0).is_none());
    assert!(LocalDateTime::new(2024, 13, 1, 0, 0, 0, 0).is_none());
    assert!(LocalDateTime::new(2024, 4, 31, 0, 0, 0, 0).is_none());
    assert!(LocalDateTime::new(2024, 1, 0, 0, 0, 0, 0).is_none());
    assert!(LocalDateTime::new(262_143, 1, 1, 0, 0, 0, 0).is_none());
    assert!(LocalDateTime::new(-262_144, 1, 1, 0, 0, 0, 0).is_none());
    assert!(LocalDateTime::new(2024, 1, 1, 24, 0, 0, 0).is_none());
    assert!(LocalDateTime::new(2024, 1, 1, 0, 60, 0, 0).is_none());
    assert!(LocalDateTime::new(2024, 1, 1, 0, 0, 60, 0).is_none());
    assert!(LocalDateTime::new(2024, 1, 1, 0, 0, 58, 1_000_000_000).is_none());
    assert!(LocalDateTime::new(2024, 1, 1, 0, 0, 59, 2_000_000_000).is_none());
}

#[test]
fn validity_agrees_with_the_calendar_crate() {
    for year in [-262_144, -262_143, -401, -400, -100, -4, -1, 0, 1, 1900, 2000, 2023, 2024, 2100, 262_142, 262_143] {
        for month in 0..=13u32 {
            for day in 0..=32u32 {
                let ours = LocalDateTime::new(year, month, day, 0, 0, 0, 0).is_some();
                let theirs = chrono::NaiveDate::from_ymd_opt(year, month, day).is_some();
                assert_eq!(ours, theirs, "{}-{}-{}", year, month, day);
            }
        }
    }
}
