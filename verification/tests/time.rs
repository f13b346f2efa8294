use rx8010sj::time::{
    days_in_month, decode_time, encode_time, is_leap_year, month_from_index, month_index,
    weekday_from_index, weekday_index, DateTime, Month, Weekday,
};

fn example_date_time() -> DateTime {
    DateTime {
        year: 2023,
        month: Month::March,
        day: 15,
        weekday: Weekday::Wednesday,
        hour: 12,
        minute: 30,
        second: 45,
    }
}

#[test]
fn decode_example_block() {
    // seconds=45, minutes=30, hours=12, weekday=3 (Wednesday), day=15,
    // month index=2 (March), year byte=23 -> 2023-03-15 12:30:45, Wednesday.
    let raw = vec![0x45, 0x30, 0x12, 0x03, 0x15, 0x02, 0x23];
    assert_eq!(decode_time(&raw), example_date_time());
}

#[test]
fn encode_example_block() {
    let raw = encode_time(&example_date_time());
    assert_eq!(raw, vec![0x45, 0x30, 0x12, 0x03, 0x15, 0x02, 0x23]);
}

#[test]
fn decode_impossible_day_falls_back_to_sentinel_date() {
    // Day 31 in February (month index 1) of 2023 is no real date: the date
    // falls back to year 1970, January, day 0; the valid time is kept.
    let raw = vec![0x05, 0x04, 0x03, 0x02, 0x31, 0x01, 0x23];
    let dt = decode_time(&raw);
    assert_eq!(dt.year, 1970);
    assert_eq!(dt.month, Month::January);
    assert_eq!(dt.day, 0);
    assert_eq!(dt.weekday, Weekday::Tuesday);
    assert_eq!(dt.hour, 3);
    assert_eq!(dt.minute, 4);
    assert_eq!(dt.second, 5);
}

#[test]
fn decode_day_zero_falls_back_to_sentinel_date() {
    let raw = vec![0x00, 0x00, 0x00, 0x00, 0x00, 0x02, 0x23];
    let dt = decode_time(&raw);
    assert_eq!(dt.year, 1970);
    assert_eq!(dt.month, Month::January);
    assert_eq!(dt.day, 0);
}

#[test]
fn decode_hour_24_falls_back_to_midnight() {
    // Hour 24 is out of range: the whole time of day falls back to
    // midnight; the valid date is kept.
    let raw = vec![0x10, 0x20, 0x24, 0x03, 0x15, 0x02, 0x23];
    let dt = decode_time(&raw);
    assert_eq!(dt.hour, 0);
    assert_eq!(dt.minute, 0);
    assert_eq!(dt.second, 0);
    assert_eq!(dt.year, 2023);
    assert_eq!(dt.month, Month::March);
    assert_eq!(dt.day, 15);
    assert_eq!(dt.weekday, Weekday::Wednesday);
}

#[test]
fn decode_second_60_falls_back_to_midnight() {
    let raw = vec![0x60, 0x30, 0x12, 0x03, 0x15, 0x02, 0x23];
    let dt = decode_time(&raw);
    assert_eq!(dt.hour, 0);
    assert_eq!(dt.minute, 0);
    assert_eq!(dt.second, 0);
}

#[test]
fn decode_keeps_leap_day_in_leap_year() {
    // 2024-02-29 is a real date ...
    let raw = vec![0x00, 0x00, 0x00, 0x04, 0x29, 0x01, 0x24];
    let dt = decode_time(&raw);
    assert_eq!(dt.year, 2024);
    assert_eq!(dt.month, Month::February);
    assert_eq!(dt.day, 29);
    // ... but 2023-02-29 is not.
    let raw = vec![0x00, 0x00, 0x00, 0x04, 0x29, 0x01, 0x23];
    let dt = decode_time(&raw);
    assert_eq!(dt.year, 1970);
    assert_eq!(dt.day, 0);
}

#[test]
fn decode_month_index_out_of_range_falls_back_to_january() {
    // Month index 12 does not name a month; it falls back to January, and
    // the day is then validated against January.
    let raw = vec![0x00, 0x00, 0x00, 0x00, 0x15, 0x12, 0x23];
    let dt = decode_time(&raw);
    assert_eq!(dt.month, Month::January);
    assert_eq!(dt.day, 15);
    assert_eq!(dt.year, 2023);
}

#[test]
fn round_trip_examples() {
    let candidates = [
        example_date_time(),
        DateTime {
            year: 2000,
            month: Month::January,
            day: 1,
            weekday: Weekday::Saturday,
            hour: 0,
            minute: 0,
            second: 0,
        },
        DateTime {
            year: 2099,
            month: Month::December,
            day: 31,
            weekday: Weekday::Thursday,
            hour: 23,
            minute: 59,
            second: 59,
        },
        DateTime {
            year: 2024,
            month: Month::February,
            day: 29,
            weekday: Weekday::Thursday,
            hour: 6,
            minute: 7,
            second: 8,
        },
    ];
    for dt in candidates {
        assert_eq!(decode_time(&encode_time(&dt)), dt);
    }
}

#[test]
fn encode_truncates_years_outside_the_century() {
    // The year byte is (1999 - 2000) mod 256 = 255, whose BCD encoding
    // (tens digit kept to four bits) is 0x95.
    let dt = DateTime { year: 1999, ..example_date_time() };
    let raw = encode_time(&dt);
    assert_eq!(raw[6], 0x95);
}

#[test]
fn month_index_mapping() {
    assert_eq!(month_from_index(0), Month::January);
    assert_eq!(month_from_index(2), Month::March);
    assert_eq!(month_from_index(11), Month::December);
    assert_eq!(month_from_index(12), Month::January);
    assert_eq!(month_index(Month::January), 0);
    assert_eq!(month_index(Month::December), 11);
}

#[test]
fn weekday_index_mapping() {
    assert_eq!(weekday_from_index(0), Weekday::Sunday);
    assert_eq!(weekday_from_index(3), Weekday::Wednesday);
    assert_eq!(weekday_from_index(6), Weekday::Saturday);
    assert_eq!(weekday_from_index(7), Weekday::Sunday);
    assert_eq!(weekday_index(Weekday::Sunday), 0);
    assert_eq!(weekday_index(Weekday::Saturday), 6);
}

#[test]
fn leap_year_rule() {
    assert!(is_leap_year(2000));
    assert!(is_leap_year(2024));
    assert!(!is_leap_year(2023));
    assert!(!is_leap_year(2100));
    assert!(!is_leap_year(1900));
}

#[test]
fn days_in_month_examples() {
    assert_eq!(days_in_month(Month::January, 2023), 31);
    assert_eq!(days_in_month(Month::February, 2023), 28);
    assert_eq!(days_in_month(Month::February, 2024), 29);
    assert_eq!(days_in_month(Month::February, 2100), 28);
    assert_eq!(days_in_month(Month::April, 2023), 30);
    assert_eq!(days_in_month(Month::December, 2023), 31);
}
