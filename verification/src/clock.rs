//! Points in time: the time stamps of messages and the dates of responses.

use vstd::prelude::*;

verus! {

/// The first second that an RFC 2822 date can express: the start of the year 0.
pub const FIRST_DATE: i64 = -62_167_219_200;

/// The last second that an RFC 2822 date can express: the end of the year 9999.
pub const LAST_DATE: i64 = 253_402_300_799;

/// The system clock's point in time.
#[verifier::external_type_specification]
#[verifier::external_body]
pub struct ExSystemTime(std::time::SystemTime);

/// The RFC 2822 date, in UTC, of a number of seconds since the start of 1970: what
/// `to_rfc2822` of the crate `chrono` writes.
pub uninterp spec fn rfc2822(seconds: i64) -> Seq<char>;

/// `std::time::SystemTime::now` reads the system clock. Nothing is claimed of what it reads.
#[verifier::external_body]
fn current_time() -> (now: std::time::SystemTime) {
    std::time::SystemTime::now()
}

/// The time is one that the system clock may show when it is read.
pub closed spec fn is_time_read(time: std::time::SystemTime) -> bool {
    call_ensures(current_time, (), time)
}

/// `chrono::DateTime::checked_add_signed` gives the date that is as long after the start of 1970
/// as the system clock shows, here as the number of whole seconds since then. There is none where
/// the clock stands before 1970, where `duration_since` gives none, or after the last year that
/// `chrono` knows. What the clock shows is open; that it is not before 1970 is claimed.
#[verifier::external_body]
fn utc_seconds() -> (seconds: Option<i64>)
    ensures
        seconds matches Some(s) ==> 0 <= s,
{
    let since = std::time::SystemTime::now().duration_since(std::time::UNIX_EPOCH).ok()?;
    let delta = chrono::TimeDelta::from_std(since).ok()?;
    let now = chrono::DateTime::<chrono::Utc>::UNIX_EPOCH.checked_add_signed(delta)?;
    Some(now.timestamp())
}

/// The second that a reading of the clock counts as: the second that was read, or the start of
/// 1970 where the clock shows no date.
pub open spec fn counted_second(reading: Option<i64>) -> i64 {
    match reading {
        Some(seconds) => seconds,
        None => 0,
    }
}

/// The second is one that a reading of the system clock may count as.
pub closed spec fn is_clock_reading(seconds: i64) -> bool {
    exists|reading: Option<i64>| #[trigger]
        call_ensures(utc_seconds, (), reading) && seconds == counted_second(reading)
}

/// The second that a reading of the clock counts as.
pub fn second_of(reading: Option<i64>) -> (seconds: i64)
    ensures
        seconds == counted_second(reading),
{
    match reading {
        Some(seconds) => seconds,
        None => 0,
    }
}

/// The time that the system clock shows.
pub fn read_time() -> (now: std::time::SystemTime)
    ensures
        is_time_read(now),
{
    current_time()
}

/// `chrono::DateTime::to_rfc2822` writes a date as RFC 2822 does. The date is that of
/// `chrono::DateTime::from_timestamp`, which is there for every second of the years 0 to 9999;
/// `to_rfc2822` panics in other years.
#[verifier::external_body]
fn rfc2822_text(seconds: i64) -> (date: String)
    requires
        FIRST_DATE <= seconds <= LAST_DATE,
    ensures
        date@ == rfc2822(seconds),
{
    chrono::DateTime::from_timestamp(seconds, 0).expect("a second of the years 0 to 9999").to_rfc2822()
}

/// A second that has a date: the second itself, or the nearest one that has a date.
pub open spec fn nearest_date(seconds: i64) -> i64 {
    if seconds < FIRST_DATE {
        FIRST_DATE
    } else if seconds > LAST_DATE {
        LAST_DATE
    } else {
        seconds
    }
}

/// The date of a number of seconds since the start of 1970. Years that a date cannot express give
/// the nearest date that can be expressed.
pub fn date_text(seconds: i64) -> (date: String)
    ensures
        date@ == rfc2822(nearest_date(seconds)),
{
    if seconds < FIRST_DATE {
        rfc2822_text(FIRST_DATE)
    } else if seconds > LAST_DATE {
        rfc2822_text(LAST_DATE)
    } else {
        rfc2822_text(seconds)
    }
}

/// The current second, and the date of it.
pub fn current_date() -> (now: (i64, String))
    ensures
        is_clock_reading(now.0),
        now.1@ == rfc2822(nearest_date(now.0)),
{
    let seconds: i64 = second_of(utc_seconds());
    (seconds, date_text(seconds))
}

/// A second that the clock has shown is one that it was read at, or the start of 1970 where a
/// reading gave none.
proof fn a_clock_reading_was_read(seconds: i64)
    requires
        is_clock_reading(seconds),
    ensures
        exists|reading: Option<i64>| #[trigger]
            call_ensures(utc_seconds, (), reading) && (reading is Some ==> seconds == reading->0)
                && (reading is None ==> seconds == 0),
        seconds >= 0,
{
}

/// A time that the clock has shown is one that it was read at.
proof fn a_time_was_read(time: std::time::SystemTime)
    requires
        is_time_read(time),
    ensures
        call_ensures(current_time, (), time),
{
}

} // verus!
