//! Message timestamps in the server's local time zone, written by `chrono`.
use vstd::prelude::*;

use chrono::{DateTime, FixedOffset, Local};

verus! {

/// The latest timestamp, in milliseconds since the Unix epoch, that `chrono` represents:
/// the last millisecond of the year 262142.
pub const MAX_TIMESTAMP_MILLIS: u64 = 8210266876799999;

/// The last millisecond of the year 9999, the last year that RFC 2822 dates can write.
pub const MAX_RFC2822_MILLIS: u64 = 253402300799999;

/// A point in time: milliseconds since the Unix epoch, as the server stamps events.
pub struct Timestamp(pub u64);

/// Time-zone offsets, in seconds east of UTC, that `chrono` represents.
pub open spec fn offset_in_range(offset: int) -> bool {
    -86400 < offset < 86400
}

/// The timestamp format of the HTML feed, such as `14:05, 03 Feb 2024`.
pub open spec fn feed_time_format() -> Seq<char> {
    "%H:%M, %d %b %Y"@
}

/// The shorter timestamp format, such as `Feb 03, 14:05`.
pub open spec fn short_time_format() -> Seq<char> {
    "%b %d, %H:%M"@
}

/// What `chrono` writes for the instant `millis` (since the Unix epoch) seen at a UTC offset of
/// `offset` seconds, with the `strftime`-style format `fmt`.
pub uninterp spec fn chrono_format(millis: u64, offset: i32, fmt: Seq<char>) -> Seq<char>;

/// What `chrono`'s `to_rfc2822` writes for the instant `millis` seen at a UTC offset of
/// `offset` seconds.
pub uninterp spec fn chrono_rfc2822(millis: u64, offset: i32) -> Seq<char>;

/// `chrono::Local`: the offset of the machine's time zone from UTC, in seconds, at `millis`.
/// Trusted: the offset is within `chrono`'s range for `FixedOffset`; it depends on the time
/// zone that the environment sets, so nothing else is stated. (Where no time zone can be
/// found, `chrono` falls back to UTC.)
#[verifier::external_body]
pub(crate) fn local_offset(millis: u64) -> (offset: i32)
    requires
        millis <= MAX_TIMESTAMP_MILLIS,
    ensures
        offset_in_range(offset as int),
{
    let utc = DateTime::from_timestamp_millis(millis as i64).unwrap();
    utc.with_timezone(&Local).offset().local_minus_utc()
}

/// `DateTime::format(..).to_string()` of `chrono`, for the instant `millis` at a fixed UTC
/// offset and one of the two formats that this crate uses.
/// Trusted: the text is the named result `chrono_format` of the three arguments. Neither
/// format writes seconds or milliseconds: the fields it writes (hour, minute, day, month and
/// year of the local time) are the same for the instant cut to its whole minute, where the
/// offset is a whole number of minutes.
#[verifier::external_body]
pub(crate) fn format_instant(millis: u64, offset: i32, fmt: &str) -> (s: String)
    requires
        millis <= MAX_TIMESTAMP_MILLIS,
        offset_in_range(offset as int),
        fmt@ == feed_time_format() || fmt@ == short_time_format(),
    ensures
        s@ == chrono_format(millis, offset, fmt@),
        offset % 60 == 0 ==> s@ == chrono_format(
            (millis - millis % 60000) as u64,
            offset,
            fmt@,
        ),
{
    let utc = DateTime::from_timestamp_millis(millis as i64).unwrap();
    utc.with_timezone(&FixedOffset::east_opt(offset).unwrap()).format(fmt).to_string()
}

/// `DateTime::to_rfc2822` of `chrono`, for the instant `millis` at a fixed UTC offset, where
/// the local date lies in a year of at most four digits (`chrono` panics beyond).
/// Trusted: the text is the named result `chrono_rfc2822` of the two arguments.
#[verifier::external_body]
pub(crate) fn rfc2822_instant(millis: u64, offset: i32) -> (s: String)
    requires
        offset_in_range(offset as int),
        millis + offset * 1000 <= MAX_RFC2822_MILLIS,
    ensures
        s@ == chrono_rfc2822(millis, offset),
{
    let utc = DateTime::from_timestamp_millis(millis as i64).unwrap();
    utc.with_timezone(&FixedOffset::east_opt(offset).unwrap()).to_rfc2822()
}

} // verus!
