//! Changing the time of day of an instant, digit by digit.

use crate::clock::local_hour;
use crate::clock::local_minute;
use crate::clock::local_second;
use crate::clock::with_local_hour;
use crate::clock::with_local_minute;
use crate::clock::with_local_nanosecond;
use crate::clock::with_local_second;
use crate::clock::Timestamp;
use vstd::prelude::*;

verus! {

/// The value of `c` as a decimal digit, if it is one.
pub open spec fn digit_value(c: char) -> Option<u32> {
    if '0' <= c <= '9' {
        Some((c as u32 - '0' as u32) as u32)
    } else {
        None
    }
}

/// The value of `c` as a decimal digit, if it is one.
pub fn decimal_digit(c: char) -> (digit: Option<u32>)
    ensures
        digit == digit_value(c),
        digit matches Some(d) ==> d <= 9,
{
    if '0' <= c && c <= '9' {
        Some(c as u32 - '0' as u32)
    } else {
        None
    }
}

/// Whether `digit` cannot stand at place `pos` of a time of day, written
/// as six digits: no tens of hours from three up, no tens at all from six
/// up.
pub open spec fn digit_rejected(pos: usize, digit: u32) -> bool {
    (pos == 1 && digit >= 3) || (pos % 2 == 1 && digit >= 6)
}

/// The most that the number at place `pos` can be: 23 for the hours, 59 for
/// minutes and seconds.
pub open spec fn field_limit(pos: usize) -> u32 {
    if pos <= 2 {
        23
    } else {
        59
    }
}

/// The number that comes of the two-digit number `old` when the digit at
/// place `pos` becomes `digit`: odd places hold the tens and even places
/// the ones. A number above the limit of its place is cut down to that
/// limit.
pub open spec fn adjusted(old: u32, pos: usize, digit: u32) -> u32 {
    let raw = if pos % 2 == 1 {
        old % 10 + digit * 10
    } else {
        old - old % 10 + digit
    };
    if raw <= field_limit(pos) {
        raw as u32
    } else {
        field_limit(pos)
    }
}

/// The number that comes of the two-digit number `old` when the digit at
/// place `pos` becomes `digit`.
pub fn adjusted_number(old: u32, pos: usize, digit: u32) -> (new: u32)
    requires
        old <= 59,
        digit <= 9,
    ensures
        new == adjusted(old, pos, digit),
        new <= field_limit(pos),
{
    let limit: u32 = if pos <= 2 {
        23
    } else {
        59
    };
    let raw: u32 = if pos % 2 == 1 {
        old % 10 + digit * 10
    } else {
        old - old % 10 + digit
    };
    if raw <= limit {
        raw
    } else {
        limit
    }
}

/// Whether typing `c` at place `pos` is told apart before the clock is
/// looked at: `c` is no digit, or a digit that cannot stand there.
pub open spec fn refused_outright(pos: usize, c: char) -> bool {
    match digit_value(c) {
        Some(digit) => digit_rejected(pos, digit),
        None => true,
    }
}

/// The instant `dt` with one digit of its local time of day changed to
/// `c`. The time is taken as six digits, hours, minutes and seconds, and
/// `pos` counts them from 1 to 6.
///
/// Nothing comes back where `c` is no digit or cannot stand at that place.
/// Otherwise the number that the digit belongs to is read off the local
/// clock, changed as `adjusted` says and put back; what comes back then is
/// what `chrono` makes of it, which may be nothing.
pub fn adjust_datetime_digit(dt: &Timestamp, pos: usize, c: char) -> (new: Option<Timestamp>)
    requires
        !refused_outright(pos, c) ==> 1 <= pos <= 6,
    ensures
        refused_outright(pos, c) ==> new.is_none(),
{
    match decimal_digit(c) {
        Some(digit) => {
            if (pos == 1 && digit >= 3) || (pos % 2 == 1 && digit >= 6) {
                return None;
            }
            let old: Option<u32> = if pos <= 2 {
                local_hour(*dt)
            } else if pos <= 4 {
                local_minute(*dt)
            } else {
                local_second(*dt)
            };
            match old {
                Some(old) => {
                    let new_val: u32 = adjusted_number(old, pos, digit);
                    if pos <= 2 {
                        with_local_hour(*dt, new_val)
                    } else if pos <= 4 {
                        with_local_minute(*dt, new_val)
                    } else {
                        with_local_second(*dt, new_val)
                    }
                },
                None => None,
            }
        },
        None => None,
    }
}

/// The instant at which the local day of `dt` began, where `chrono` has
/// one: the hour, the minute, the second and the nanoseconds of `dt` are
/// set to nothing, in that order. What comes back lies on a whole second;
/// which second it is, and whether there is one, is left to `chrono` and
/// the time zone.
pub fn datetime_with_zeroed_time(dt: &Timestamp) -> (midnight: Option<Timestamp>)
    ensures
        midnight matches Some(t) ==> t.nanos == 0,
{
    match with_local_hour(*dt, 0) {
        Some(hour) => match with_local_minute(hour, 0) {
            Some(minute) => match with_local_second(minute, 0) {
                Some(second) => with_local_nanosecond(second, 0),
                None => None,
            },
            None => None,
        },
        None => None,
    }
}

} // verus!
