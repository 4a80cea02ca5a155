use iex::date::{Date, MAX_YEAR, MIN_YEAR};

fn text(year: i32, month: u32, day: u32) -> String {
    Date::from_ymd(year, month, day).unwrap().to_text()
}

#[test]
fn days_of_the_calendar() {
    let d = Date::from_ymd(2018, 10, 23).unwrap();
    assert_eq!((d.year(), d.month(), d.day()), (2018, 10, 23));
    assert!(Date::from_ymd(2020, 2, 29).is_some());
    assert!(Date::from_ymd(2000, 2, 29).is_some());
    assert!(Date::from_ymd(2019, 2, 29).is_none());
    assert!(Date::from_ymd(1900, 2, 29).is_none());
    assert!(Date::from_ymd(2100, 2, 29).is_none());
    assert!(Date::from_ymd(0, 2, 29).is_some());
    assert!(Date::from_ymd(-4, 2, 29).is_some());
    assert!(Date::from_ymd(-1, 2, 29).is_none());
    assert!(Date::from_ymd(-100, 2, 29).is_none());
    assert!(Date::from_ymd(-400, 2, 29).is_some());
    assert!(Date::from_ymd(2018, 4, 30).is_some());
    assert!(Date::from_ymd(2018, 4, 31).is_none());
    assert!(Date::from_ymd(2018, 12, 31).is_some());
    assert!(Date::from_ymd(2018, 12, 32).is_none());
    assert!(Date::from_ymd(2018, 0, 1).is_none());
    assert!(Date::from_ymd(2018, 13, 1).is_none());
    assert!(Date::from_ymd(2018, 1, 0).is_none());
    assert!(Date::from_ymd(MAX_YEAR, 12, 31).is_some());
    assert!(Date::from_ymd(MAX_YEAR + 1, 1, 1).is_none());
    assert!(Date::from_ymd(MIN_YEAR, 1, 1).is_some());
    assert!(Date::from_ymd(MIN_YEAR - 1, 12, 31).is_none());
    assert!(Date::from_ymd(i32::MAX, 1, 1).is_none());
    assert!(Date::from_ymd(i32::MIN, 1, 1).is_none());
}

#[test]
fn calendar_agrees_with_chrono() {
    for year in [-262143, -401, -400, -100, -4, -1, 0, 1, 1900, 2000, 2019, 2020, 262142] {
        for month in 0..14u32 {
            for day in 0..33u32 {
                assert_eq!(
                    Date::from_ymd(year, month, day).is_some(),
                    chrono::NaiveDate::from_ymd_opt(year, month, day).is_some(),
                    "{}-{}-{}",
                    year,
                    month,
                    day
                );
            }
        }
    }
}

#[test]
fn dates_are_read() {
    assert_eq!(Date::parse("2018-10-23"), Date::from_ymd(2018, 10, 23));
    assert_eq!(Date::parse("2017-11-10"), Date::from_ymd(2017, 11, 10));
    assert_eq!(Date::parse("+12345-6-7"), Date::from_ymd(12345, 6, 7));
    assert_eq!(Date::parse("2018-02-30"), None);
    assert_eq!(Date::parse("20181023"), None);
    assert_eq!(Date::parse("2018-10-23T00:00:00"), None);
    assert_eq!(Date::parse(""), None);
    assert_eq!(Date::parse("foo"), None);
}

#[test]
fn dates_are_written() {
    assert_eq!(text(2018, 10, 23), "2018-10-23");
    assert_eq!(text(2017, 1, 2), "2017-01-02");
    assert_eq!(text(0, 1, 1), "0000-01-01");
    assert_eq!(text(987, 12, 31), "0987-12-31");
    assert_eq!(text(9999, 12, 31), "9999-12-31");
    assert_eq!(text(10000, 12, 31), "+10000-12-31");
    assert_eq!(text(-1, 1, 1), "-0001-01-01");
    assert_eq!(text(MAX_YEAR, 12, 31), "+262142-12-31");
    assert_eq!(text(MIN_YEAR, 1, 1), "-262143-01-01");
}

#[test]
fn written_dates_are_read_back() {
    for (year, month, day) in [
        (2018, 10, 23),
        (2020, 2, 29),
        (0, 1, 1),
        (1, 1, 1),
        (-1, 12, 31),
        (9999, 12, 31),
        (10000, 1, 1),
        (MAX_YEAR, 12, 31),
        (MIN_YEAR, 1, 1),
    ] {
        let date = Date::from_ymd(year, month, day).unwrap();
        assert_eq!(Date::parse(&date.to_text()), Some(date));
    }
}
