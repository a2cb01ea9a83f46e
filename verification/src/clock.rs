//! The wall clock, read through `chrono`.

use vstd::prelude::*;
use crate::text::is_digit;

verus! {

/// Whether a text is a time of day as hours, minutes and seconds of two digits
/// each, with colons between them.
pub open spec fn is_time_of_day(stamp: Seq<char>) -> bool {
    &&& stamp.len() == 8
    &&& is_digit(stamp[0]) && is_digit(stamp[1])
    &&& stamp[2] == ':'
    &&& is_digit(stamp[3]) && is_digit(stamp[4])
    &&& stamp[5] == ':'
    &&& is_digit(stamp[6]) && is_digit(stamp[7])
}

/// The local time of day: the reading of the system clock, made a local time
/// by `chrono`'s conversion from `SystemTime` and written by `DateTime::format`
/// with `%H:%M:%S`. Which time it is depends on the clock and the time zone of
/// the machine; the contract claims only its shape, which `chrono` documents
/// for these three fields: each is padded with zeros to two digits. `chrono`
/// panics where the clock stands outside the years that it can hold, some
/// 262,000 years from now.
#[verifier::external_body]
pub(crate) fn local_time_text() -> (stamp: String)
    ensures
        is_time_of_day(stamp@),
{
    chrono::DateTime::<chrono::Local>::from(std::time::SystemTime::now())
        .format("%H:%M:%S")
        .to_string()
}

/// The seconds since the start of 1970 in universal time: the reading of the
/// system clock, made a time by `chrono`'s conversion from `SystemTime` and
/// counted by `DateTime::timestamp`. The number depends on the clock of the
/// machine, so nothing is claimed of it. `chrono` panics where the clock stands
/// outside the years that it can hold, some 262,000 years from now.
#[verifier::external_body]
pub(crate) fn unix_seconds() -> (seconds: i64) {
    chrono::DateTime::<chrono::Utc>::from(std::time::SystemTime::now()).timestamp()
}

} // verus!
