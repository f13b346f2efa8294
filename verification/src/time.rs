//! The driver's calendar model and the mapping between it and the chip's
//! seven time registers.
//!
//! The registers hold, in order: second, minute, hour, weekday, day, month,
//! year.  Second, minute, hour, day and year are BCD-encoded; weekday and
//! month are 0-based indices (Sunday = 0, January = 0).  The single year
//! byte stores the offset from the year 2000, so only 2000..=2099 encode
//! exactly; encoding truncates the offset to eight bits.
//!
//! Decoding never fails: a register block that does not form a valid
//! calendar date falls back to the sentinel date year 1970, January, day 0,
//! and one that does not form a valid time of day falls back to midnight.
//! The weekday is always taken from the weekday register (values above 6
//! fall back to Sunday); it is carried, not derived from the date.

use vstd::prelude::*;

use crate::codec::{bcd_to_binary, binary_to_bcd, spec_bcd_to_binary, spec_binary_to_bcd};

verus! {

/// The century epoch the single-byte year register counts from.
pub const YEAR_EPOCH: u16 = 2000;

/// The year of the sentinel date substituted for an invalid register date.
pub const FALLBACK_YEAR: u16 = 1970;

/// A named month, stored 0-based (January = 0) in the month register.
#[derive(Clone, Copy, PartialEq, Eq, Structural, Debug)]
pub enum Month {
    January,
    February,
    March,
    April,
    May,
    June,
    July,
    August,
    September,
    October,
    November,
    December,
}

/// A named weekday, stored 0-based (Sunday = 0) in the weekday register.
#[derive(Clone, Copy, PartialEq, Eq, Structural, Debug)]
pub enum Weekday {
    Sunday,
    Monday,
    Tuesday,
    Wednesday,
    Thursday,
    Friday,
    Saturday,
}

/// A calendar date-time as the driver models it.
///
/// Plain fields, no hidden invariant: decoding a register block can produce
/// the documented sentinel values (day 0 of 1970), so the type admits them.
#[derive(Clone, Copy, PartialEq, Eq, Structural, Debug)]
pub struct DateTime {
    pub year: u16,
    pub month: Month,
    pub day: u8,
    pub weekday: Weekday,
    pub hour: u8,
    pub minute: u8,
    pub second: u8,
}

/// The 0-based register index of a month (January = 0).
pub open spec fn spec_month_index(m: Month) -> u8 {
    match m {
        Month::January => 0,
        Month::February => 1,
        Month::March => 2,
        Month::April => 3,
        Month::May => 4,
        Month::June => 5,
        Month::July => 6,
        Month::August => 7,
        Month::September => 8,
        Month::October => 9,
        Month::November => 10,
        Month::December => 11,
    }
}

/// The month a 0-based register index denotes; indices above 11 fall back to
/// January.
pub open spec fn spec_month_from_index(i: u8) -> Month {
    match i {
        0u8 => Month::January,
        1u8 => Month::February,
        2u8 => Month::March,
        3u8 => Month::April,
        4u8 => Month::May,
        5u8 => Month::June,
        6u8 => Month::July,
        7u8 => Month::August,
        8u8 => Month::September,
        9u8 => Month::October,
        10u8 => Month::November,
        11u8 => Month::December,
        _ => Month::January,
    }
}

/// The 0-based register index of a weekday (Sunday = 0).
pub open spec fn spec_weekday_index(w: Weekday) -> u8 {
    match w {
        Weekday::Sunday => 0,
        Weekday::Monday => 1,
        Weekday::Tuesday => 2,
        Weekday::Wednesday => 3,
        Weekday::Thursday => 4,
        Weekday::Friday => 5,
        Weekday::Saturday => 6,
    }
}

/// The weekday a 0-based register index denotes; indices above 6 fall back
/// to Sunday.
pub open spec fn spec_weekday_from_index(i: u8) -> Weekday {
    match i {
        0u8 => Weekday::Sunday,
        1u8 => Weekday::Monday,
        2u8 => Weekday::Tuesday,
        3u8 => Weekday::Wednesday,
        4u8 => Weekday::Thursday,
        5u8 => Weekday::Friday,
        6u8 => Weekday::Saturday,
        _ => Weekday::Sunday,
    }
}

/// The Gregorian leap-year rule.
pub open spec fn spec_is_leap_year(y: u16) -> bool {
    y % 4 == 0 && (y % 100 != 0 || y % 400 == 0)
}

/// How many days the given month has in a year with the given leapness.
pub open spec fn spec_days_in_month(m: Month, leap: bool) -> u8 {
    match m {
        Month::January => 31,
        Month::February => if leap { 29 } else { 28 },
        Month::March => 31,
        Month::April => 30,
        Month::May => 31,
        Month::June => 30,
        Month::July => 31,
        Month::August => 31,
        Month::September => 30,
        Month::October => 31,
        Month::November => 30,
        Month::December => 31,
    }
}

/// Whether year, month and day form a real calendar date.
pub open spec fn spec_valid_date(year: u16, month: Month, day: u8) -> bool {
    1 <= day && day <= spec_days_in_month(month, spec_is_leap_year(year))
}

/// Whether hour, minute and second form a valid time of day.
pub open spec fn spec_valid_time(hour: u8, minute: u8, second: u8) -> bool {
    hour <= 23 && minute <= 59 && second <= 59
}

/// The year byte the chip stores: the year's offset from 2000, truncated to
/// eight bits (binary, before BCD encoding).
pub open spec fn spec_year_byte(year: u16) -> u8 {
    (((year as int) - (YEAR_EPOCH as int)) % 256) as u8
}

/// The date-time a seven-byte register block denotes, fallbacks applied.
pub open spec fn spec_decode_time(raw: Seq<u8>) -> DateTime
    recommends
        raw.len() == 7,
{
    let second = spec_bcd_to_binary(raw[0]);
    let minute = spec_bcd_to_binary(raw[1]);
    let hour = spec_bcd_to_binary(raw[2]);
    let weekday = spec_weekday_from_index(spec_bcd_to_binary(raw[3]));
    let day = spec_bcd_to_binary(raw[4]);
    let month = spec_month_from_index(spec_bcd_to_binary(raw[5]));
    let year = (YEAR_EPOCH + spec_bcd_to_binary(raw[6])) as u16;
    let date_ok = spec_valid_date(year, month, day);
    let time_ok = spec_valid_time(hour, minute, second);
    DateTime {
        year: if date_ok { year } else { FALLBACK_YEAR },
        month: if date_ok { month } else { Month::January },
        day: if date_ok { day } else { 0 },
        weekday,
        hour: if time_ok { hour } else { 0 },
        minute: if time_ok { minute } else { 0 },
        second: if time_ok { second } else { 0 },
    }
}

/// The seven register bytes that encode a date-time, in register order:
/// second, minute, hour, weekday, day, month, year.
pub open spec fn spec_encode_time(dt: DateTime) -> Seq<u8> {
    seq![
        spec_binary_to_bcd(dt.second),
        spec_binary_to_bcd(dt.minute),
        spec_binary_to_bcd(dt.hour),
        spec_binary_to_bcd(spec_weekday_index(dt.weekday)),
        spec_binary_to_bcd(dt.day),
        spec_binary_to_bcd(spec_month_index(dt.month)),
        spec_binary_to_bcd(spec_year_byte(dt.year)),
    ]
}

/// A date-time the seven registers can hold exactly: a real date and time of
/// day within the century the year byte covers.
pub open spec fn spec_encodable(dt: DateTime) -> bool {
    &&& YEAR_EPOCH <= dt.year <= YEAR_EPOCH + 99
    &&& spec_valid_date(dt.year, dt.month, dt.day)
    &&& spec_valid_time(dt.hour, dt.minute, dt.second)
}

/// The month denoted by a 0-based register index; indices above 11 fall
/// back to January.
pub fn month_from_index(i: u8) -> (m: Month)
    ensures
        m == spec_month_from_index(i),
{
    match i {
        0u8 => Month::January,
        1u8 => Month::February,
        2u8 => Month::March,
        3u8 => Month::April,
        4u8 => Month::May,
        5u8 => Month::June,
        6u8 => Month::July,
        7u8 => Month::August,
        8u8 => Month::September,
        9u8 => Month::October,
        10u8 => Month::November,
        11u8 => Month::December,
        _ => Month::January,
    }
}

/// The 0-based register index of a month (January = 0).
pub fn month_index(m: Month) -> (i: u8)
    ensures
        i == spec_month_index(m),
{
    match m {
        Month::January => 0,
        Month::February => 1,
        Month::March => 2,
        Month::April => 3,
        Month::May => 4,
        Month::June => 5,
        Month::July => 6,
        Month::August => 7,
        Month::September => 8,
        Month::October => 9,
        Month::November => 10,
        Month::December => 11,
    }
}

/// The weekday denoted by a 0-based register index; indices above 6 fall
/// back to Sunday.
pub fn weekday_from_index(i: u8) -> (w: Weekday)
    ensures
        w == spec_weekday_from_index(i),
{
    match i {
        0u8 => Weekday::Sunday,
        1u8 => Weekday::Monday,
        2u8 => Weekday::Tuesday,
        3u8 => Weekday::Wednesday,
        4u8 => Weekday::Thursday,
        5u8 => Weekday::Friday,
        6u8 => Weekday::Saturday,
        _ => Weekday::Sunday,
    }
}

/// The 0-based register index of a weekday (Sunday = 0).
pub fn weekday_index(w: Weekday) -> (i: u8)
    ensures
        i == spec_weekday_index(w),
{
    match w {
        Weekday::Sunday => 0,
        Weekday::Monday => 1,
        Weekday::Tuesday => 2,
        Weekday::Wednesday => 3,
        Weekday::Thursday => 4,
        Weekday::Friday => 5,
        Weekday::Saturday => 6,
    }
}

/// The Gregorian leap-year rule.
pub fn is_leap_year(y: u16) -> (r: bool)
    ensures
        r == spec_is_leap_year(y),
{
    y % 4 == 0 && (y % 100 != 0 || y % 400 == 0)
}

/// How many days the given month has in the given year.
pub fn days_in_month(m: Month, year: u16) -> (d: u8)
    ensures
        d == spec_days_in_month(m, spec_is_leap_year(year)),
{
    let leap = is_leap_year(year);
    match m {
        Month::January => 31,
        Month::February => if leap { 29 } else { 28 },
        Month::March => 31,
        Month::April => 30,
        Month::May => 31,
        Month::June => 30,
        Month::July => 31,
        Month::August => 31,
        Month::September => 30,
        Month::October => 31,
        Month::November => 30,
        Month::December => 31,
    }
}

/// Decode a seven-byte register block into a date-time.
///
/// This never fails: an invalid date becomes the sentinel date (1970,
/// January, day 0) and an invalid time of day becomes midnight, as the
/// fallback rules of [`spec_decode_time`] say.
pub fn decode_time(raw: &Vec<u8>) -> (dt: DateTime)
    requires
        raw@.len() == 7,
    ensures
        dt == spec_decode_time(raw@),
{
    let second = bcd_to_binary(raw[0]);
    let minute = bcd_to_binary(raw[1]);
    let hour = bcd_to_binary(raw[2]);
    let weekday = weekday_from_index(bcd_to_binary(raw[3]));
    let day = bcd_to_binary(raw[4]);
    let month = month_from_index(bcd_to_binary(raw[5]));
    let year = YEAR_EPOCH + bcd_to_binary(raw[6]) as u16;
    let date_ok = 1 <= day && day <= days_in_month(month, year);
    let time_ok = hour <= 23 && minute <= 59 && second <= 59;
    DateTime {
        year: if date_ok { year } else { FALLBACK_YEAR },
        month: if date_ok { month } else { Month::January },
        day: if date_ok { day } else { 0 },
        weekday,
        hour: if time_ok { hour } else { 0 },
        minute: if time_ok { minute } else { 0 },
        second: if time_ok { second } else { 0 },
    }
}

/// Encode a date-time into the seven register bytes, in register order.
///
/// Fields outside the registers' ranges are truncated as the codec and the
/// year byte define; they decode back changed.  [`spec_encodable`] says
/// which date-times survive the round trip exactly.
pub fn encode_time(dt: &DateTime) -> (raw: Vec<u8>)
    ensures
        raw@ == spec_encode_time(*dt),
{
    // Adding 48 is subtracting 2000 modulo 256, without underflow below the
    // epoch: 2048 is a multiple of 256.
    let year_byte: u8 = (((dt.year as u32) + 48) % 256) as u8;
    proof {
        vstd::arithmetic::div_mod::lemma_mod_multiples_vanish(
            8,
            (dt.year as int) - (YEAR_EPOCH as int),
            256,
        );
        assert(year_byte == spec_year_byte(dt.year));
    }
    let mut raw: Vec<u8> = Vec::new();
    raw.push(binary_to_bcd(dt.second));
    raw.push(binary_to_bcd(dt.minute));
    raw.push(binary_to_bcd(dt.hour));
    raw.push(binary_to_bcd(weekday_index(dt.weekday)));
    raw.push(binary_to_bcd(dt.day));
    raw.push(binary_to_bcd(month_index(dt.month)));
    raw.push(binary_to_bcd(year_byte));
    proof {
        assert(raw@ =~= spec_encode_time(*dt));
    }
    raw
}

/// Encoding an encodable date-time and decoding the bytes again gives the
/// date-time back: every field survives the trip through the registers.
pub proof fn lemma_time_round_trip(dt: DateTime)
    requires
        spec_encodable(dt),
    ensures
        spec_decode_time(spec_encode_time(dt)) == dt,
{
    crate::codec::lemma_binary_round_trip(dt.second);
    crate::codec::lemma_binary_round_trip(dt.minute);
    crate::codec::lemma_binary_round_trip(dt.hour);
    crate::codec::lemma_binary_round_trip(spec_weekday_index(dt.weekday));
    crate::codec::lemma_binary_round_trip(dt.day);
    crate::codec::lemma_binary_round_trip(spec_month_index(dt.month));
    assert(spec_year_byte(dt.year) == dt.year - YEAR_EPOCH);
    crate::codec::lemma_binary_round_trip(spec_year_byte(dt.year));
    assert(spec_month_from_index(spec_month_index(dt.month)) == dt.month);
    assert(spec_weekday_from_index(spec_weekday_index(dt.weekday)) == dt.weekday);
}

} // verus!
