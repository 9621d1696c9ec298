//! Conversion of the real-time clock's calendar date to seconds since
//! the start of 1970.

use vstd::prelude::*;

verus! {

/// A date and time of day as the real-time clock reports it.
#[derive(Clone, Copy, Debug, PartialEq, Eq)]
pub struct RtcDate {
    pub second: u64,
    pub minute: u64,
    pub hour: u64,
    pub day: u64,
    pub month: u64,
    pub year: u64,
}

/// Whether `year` has a 29th of February.
pub open spec fn spec_is_leap_year(year: u64) -> bool {
    year % 4 == 0 && (year % 100 != 0 || year % 400 == 0)
}

/// Tells whether `year` has a 29th of February.
#[verifier::when_used_as_spec(spec_is_leap_year)]
pub fn is_leap_year(year: u64) -> (leap: bool)
    ensures
        leap == spec_is_leap_year(year),
{
    year % 4 == 0 && (year % 100 != 0 || year % 400 == 0)
}

/// Days of a common year that lie before the first of `month`.
pub open spec fn days_before_month(month: u64) -> int
    recommends
        1 <= month <= 12,
{
    if month == 1 {
        0
    } else if month == 2 {
        31
    } else if month == 3 {
        59
    } else if month == 4 {
        90
    } else if month == 5 {
        120
    } else if month == 6 {
        151
    } else if month == 7 {
        181
    } else if month == 8 {
        212
    } else if month == 9 {
        243
    } else if month == 10 {
        273
    } else if month == 11 {
        304
    } else {
        334
    }
}

/// Days of `year` that lie before the given day: none before the first
/// of January.
pub open spec fn spec_day_of_year(year: u64, month: u64, day: u64) -> int {
    days_before_month(month) + day - 1 + if spec_is_leap_year(year) && month >= 3 {
        1int
    } else {
        0int
    }
}

/// Number of the day within its year, counted from 0.
pub fn day_of_year(year: u64, month: u64, day: u64) -> (days: u64)
    requires
        1 <= month <= 12,
        1 <= days_before_month(month) + day <= u64::MAX,
    ensures
        days == spec_day_of_year(year, month, day),
{
    let seek_table: [u64; 12] = [0, 31, 59, 90, 120, 151, 181, 212, 243, 273, 304, 334];
    let mut day_of_year = seek_table[month as usize - 1] + day - 1;

    if is_leap_year(year) && month >= 3 {
        day_of_year += 1;
    }
    day_of_year
}

/// Days in `year`.
pub fn days_in_year(year: u64) -> (days: u64)
    ensures
        days == if spec_is_leap_year(year) {
            366int
        } else {
            365int
        },
{
    if is_leap_year(year) {
        366
    } else {
        365
    }
}

/// `dividend` divided by `DIVISOR`, rounded down.
pub fn floor_div_by<const DIVISOR: u64>(dividend: u64) -> (quotient: u64)
    requires
        DIVISOR > 1,
    ensures
        quotient == dividend / DIVISOR,
{
    dividend / DIVISOR
}

/// How many multiples of `modulus` lie in `begin..end`.
pub open spec fn multiples_in_range(modulus: u64, begin: u64, end: u64) -> int
    recommends
        modulus > 1,
        1 <= begin <= end,
{
    (end - 1) / (modulus as int) - (begin - 1) / (modulus as int)
}

/// Counts the multiples of `POSITIVE_MOD` in `begin..end`.
pub fn mod_zeroes_in_range<const POSITIVE_MOD: u64>(begin: u64, end: u64) -> (count: u64)
    requires
        POSITIVE_MOD > 1,
        1 <= begin <= end,
    ensures
        count == multiples_in_range(POSITIVE_MOD, begin, end),
{
    assert((begin - 1) / (POSITIVE_MOD as int) <= (end - 1) / (POSITIVE_MOD as int)) by {
        vstd::arithmetic::div_mod::lemma_div_is_ordered(
            begin - 1,
            end - 1,
            POSITIVE_MOD as int,
        );
    }
    floor_div_by::<POSITIVE_MOD>(end - 1) - floor_div_by::<POSITIVE_MOD>(begin - 1)
}

/// Days from the start of 1970 to the start of `year`: 365 for each year
/// between, and one more for each multiple of 4, of 100 and of 400 among
/// those years.
pub open spec fn spec_years_to_days(year: u64) -> int
    recommends
        year >= 1970,
{
    365 * (year - 1970) + multiples_in_range(4, 1970, year) + multiples_in_range(100, 1970, year)
        + multiples_in_range(400, 1970, year)
}

/// Counts the days from the start of 1970 to the start of `year`.
pub fn years_to_days_since_epoch(year: u64) -> (days: u64)
    requires
        year >= 1970,
        spec_years_to_days(year) <= u64::MAX,
    ensures
        days == spec_years_to_days(year),
{
    let begin_year: u64 = 1970;
    let end_year: u64 = year;
    assert(multiples_in_range(4, 1970, year) >= 0 && multiples_in_range(100, 1970, year) >= 0
        && multiples_in_range(400, 1970, year) >= 0);
    let days: u64 = 365 * (year - 1970);
    let mut extra_leap_days: u64 = 0;
    extra_leap_days += mod_zeroes_in_range::<4>(begin_year, end_year);
    extra_leap_days += mod_zeroes_in_range::<100>(begin_year, end_year);
    extra_leap_days += mod_zeroes_in_range::<400>(begin_year, end_year);
    days + extra_leap_days
}

/// Days from the start of 1970 to the given day.
pub open spec fn spec_days_since_epoch(year: u64, month: u64, day: u64) -> int {
    spec_years_to_days(year) + spec_day_of_year(year, month, day)
}

/// Counts the days from the start of 1970 to the given day.
pub fn days_since_epoch(year: u64, month: u64, day: u64) -> (days: u64)
    requires
        year >= 1970,
        1 <= month <= 12,
        1 <= days_before_month(month) + day <= u64::MAX,
        spec_days_since_epoch(year, month, day) <= u64::MAX,
    ensures
        days == spec_days_since_epoch(year, month, day),
{
    assert(multiples_in_range(4, 1970, year) >= 0 && multiples_in_range(100, 1970, year) >= 0
        && multiples_in_range(400, 1970, year) >= 0);
    years_to_days_since_epoch(year) + day_of_year(year, month, day)
}

/// Seconds from the start of 1970 to the given date and time.
pub open spec fn spec_rtc_to_epoch(rtc: RtcDate) -> int {
    ((spec_days_since_epoch(rtc.year, rtc.month, rtc.day) * 24 + rtc.hour) * 60 + rtc.minute) * 60
        + rtc.second
}

/// Whether `rtc` is a date from 1970 on whose seconds since then fit in
/// 64 bits.
pub open spec fn convertible(rtc: RtcDate) -> bool {
    &&& rtc.year >= 1970
    &&& 1 <= rtc.month <= 12
    &&& 1 <= days_before_month(rtc.month) + rtc.day <= u64::MAX
    &&& spec_rtc_to_epoch(rtc) <= u64::MAX
}

/// Tells whether `rtc` can be converted: whether it is a date from 1970
/// on whose seconds since the start of 1970 fit in 64 bits.
pub fn is_convertible(rtc: &RtcDate) -> (ok: bool)
    ensures
        ok == convertible(*rtc),
{
    if rtc.year < 1970 || rtc.month < 1 || rtc.month > 12 {
        return false;
    }
    let seek_table: [u64; 12] = [0, 31, 59, 90, 120, 151, 181, 212, 243, 273, 304, 334];
    let before: u64 = seek_table[rtc.month as usize - 1];
    assert(before == days_before_month(rtc.month));
    if before == 0 && rtc.day == 0 {
        return false;
    }
    if rtc.day > u64::MAX - before {
        return false;
    }
    let year = rtc.year as u128;
    let fours: u128 = (year - 1) / 4 - 1969 / 4;
    let hundreds: u128 = (year - 1) / 100 - 1969 / 100;
    let four_hundreds: u128 = (year - 1) / 400 - 1969 / 400;
    assert(fours == multiples_in_range(4, 1970, rtc.year));
    assert(hundreds == multiples_in_range(100, 1970, rtc.year));
    assert(four_hundreds == multiples_in_range(400, 1970, rtc.year));
    let leap: u128 = if is_leap_year(rtc.year) && rtc.month >= 3 {
        1
    } else {
        0
    };
    let days: u128 = 365 * (year - 1970) + fours + hundreds + four_hundreds + (before as u128
        + rtc.day as u128 - 1) + leap;
    assert(days == spec_days_since_epoch(rtc.year, rtc.month, rtc.day));
    let seconds: u128 = ((days * 24 + rtc.hour as u128) * 60 + rtc.minute as u128) * 60
        + rtc.second as u128;
    assert(seconds == spec_rtc_to_epoch(*rtc));
    seconds <= u64::MAX as u128
}

/// Converts the clock's date to seconds since the start of 1970.
pub fn rtc_to_epoch(rtc: RtcDate) -> (seconds: u64)
    requires
        convertible(rtc),
    ensures
        seconds == spec_rtc_to_epoch(rtc),
{
    proof {
        assert(multiples_in_range(4, 1970, rtc.year) >= 0 && multiples_in_range(100, 1970, rtc.year)
            >= 0 && multiples_in_range(400, 1970, rtc.year) >= 0);
        let d = spec_days_since_epoch(rtc.year, rtc.month, rtc.day);
        assert(d >= 0);
        assert(((d * 24 + rtc.hour) * 60 + rtc.minute) * 60 + rtc.second <= u64::MAX);
        assert((d * 24 + rtc.hour) * 60 + rtc.minute <= u64::MAX);
        assert(d * 24 + rtc.hour <= u64::MAX);
        assert(d <= u64::MAX);
    }
    let days = days_since_epoch(rtc.year, rtc.month, rtc.day);
    ((days * 24 + rtc.hour) * 60 + rtc.minute) * 60 + rtc.second
}

} // verus!
