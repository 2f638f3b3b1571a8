//! The system clock.
use vstd::prelude::*;
use std::time::{Duration, SystemTime, SystemTimeError};

verus! {

#[verifier::external_type_specification]
#[verifier::external_body]
pub struct ExSystemTime(SystemTime);

#[verifier::external_type_specification]
#[verifier::external_body]
pub struct ExSystemTimeError(SystemTimeError);

/// `SystemTime::now` of the standard library. Nothing is promised of what the
/// clock says.
pub assume_specification[ SystemTime::now ]() -> (now: SystemTime);

/// How far a time is from the Unix epoch, where it is not before it.
pub uninterp spec fn epoch_distance(time: SystemTime) -> Option<Duration>;

/// `SystemTime::duration_since` of the standard library, from the Unix epoch. The
/// distance depends on the time alone, and there is an error exactly where there
/// is none.
#[verifier::external_body]
fn since_epoch(time: &SystemTime) -> (elapsed: Result<Duration, SystemTimeError>)
    ensures
        epoch_distance(*time) == match elapsed {
            Ok(distance) => Some(distance),
            Err(_) => None,
        },
{
    time.duration_since(SystemTime::UNIX_EPOCH)
}

/// The whole seconds of a duration.
pub uninterp spec fn whole_seconds(elapsed: Duration) -> u64;

/// `Duration::as_secs` of the standard library: the whole seconds of the duration,
/// which depend on it alone.
pub assume_specification[ Duration::as_secs ](elapsed: &Duration) -> (seconds: u64)
    ensures
        seconds == whole_seconds(*elapsed),
;

/// The whole seconds from the Unix epoch to a time, and zero for a time before
/// it.
pub open spec fn epoch_seconds(time: SystemTime) -> u64 {
    match epoch_distance(time) {
        Some(distance) => whole_seconds(distance),
        None => 0,
    }
}

/// The seconds since the Unix epoch at the time that an RFC 3339 text stands for,
/// where it stands for one.
pub uninterp spec fn rfc3339_seconds(text: Seq<char>) -> Option<i64>;

/// `chrono::DateTime::parse_from_rfc3339`, and `DateTime::timestamp` of the time
/// that it reads. Which texts are read, and as what time, depends on the text
/// alone.
#[verifier::external_body]
pub(crate) fn parse_rfc3339(text: &str) -> (seconds: Option<i64>)
    ensures
        seconds == rfc3339_seconds(text@),
{
    chrono::DateTime::parse_from_rfc3339(text).ok().map(|time| time.timestamp())
}

/// A signed number of 64 bits, read as an unsigned one.
pub open spec fn unsigned_bits(n: i64) -> u64 {
    if n < 0 {
        (n + 0x1_0000_0000_0000_0000) as u64
    } else {
        n as u64
    }
}

/// An unsigned number of 64 bits, read as a signed one.
pub open spec fn signed_bits(n: u64) -> i64 {
    if n > i64::MAX {
        (n - 0x1_0000_0000_0000_0000) as i64
    } else {
        n as i64
    }
}

/// Reads a signed number as an unsigned one.
pub fn cast_unsigned(n: i64) -> (bits: u64)
    ensures
        bits == unsigned_bits(n),
{
    if n < 0 {
        u64::MAX - (-(n + 1)) as u64
    } else {
        n as u64
    }
}

/// Reads an unsigned number as a signed one.
pub fn cast_signed(n: u64) -> (bits: i64)
    ensures
        bits == signed_bits(n),
{
    if n > i64::MAX as u64 {
        -((u64::MAX - n) as i64) - 1
    } else {
        n as i64
    }
}

/// Whether two times in seconds are at most a number of seconds apart.
pub fn within(a: i64, b: i64, seconds: u64) -> (near: bool)
    ensures
        near == (-(seconds as int) <= a - b <= seconds),
{
    let apart: i128 = a as i128 - b as i128;
    -(seconds as i128) <= apart && apart <= seconds as i128
}

/// The whole seconds of a distance from the Unix epoch, and zero where there is
/// none.
pub fn elapsed_seconds(elapsed: &Result<Duration, SystemTimeError>) -> (seconds: u64)
    ensures
        seconds == match *elapsed {
            Ok(distance) => whole_seconds(distance),
            Err(_) => 0,
        },
{
    match elapsed {
        Ok(distance) => distance.as_secs(),
        Err(_) => 0,
    }
}

/// The whole seconds from the Unix epoch to `time`, and zero for a time before it.
pub fn seconds_at(time: &SystemTime) -> (seconds: u64)
    ensures
        seconds == epoch_seconds(*time),
{
    elapsed_seconds(&since_epoch(time))
}

/// The seconds since the Unix epoch, and zero where the clock stands before it:
/// those of some time that the clock gave. Which time that is, is not stated.
pub fn unix_seconds() -> (seconds: u64)
    ensures
        exists|time: SystemTime| seconds == #[trigger] epoch_seconds(time),
{
    seconds_at(&SystemTime::now())
}

/// Reading a number the other way and back gives the number, and a number that
/// fits both ways is read as itself.
pub proof fn law_casts_are_undone(n: i64, m: u64)
    ensures
        signed_bits(unsigned_bits(n)) == n,
        unsigned_bits(signed_bits(m)) == m,
        n >= 0 ==> unsigned_bits(n) == n,
        n < 0 ==> unsigned_bits(n) == n + 0x1_0000_0000_0000_0000,
        m <= i64::MAX ==> signed_bits(m) == m,
{
}

} // verus!
