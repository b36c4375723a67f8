//! Capture times and where they were read from.

use chrono::{Datelike, Timelike};
use vstd::prelude::*;

verus! {

/// The source that a capture time was read from.
#[derive(Clone, Copy, Debug, PartialEq, Eq, Structural)]
pub enum Provenance {
    /// The picture's own metadata.
    EmbeddedMetadata,
    /// The record that the external metadata tool gave.
    ExternalToolMetadata,
    /// The file's last-modified time.
    FilesystemModifiedTime,
}

/// A point in time in UTC, as calendar date and time of day.
#[derive(Clone, Copy, Debug, PartialEq, Eq, Structural)]
pub struct CaptureTimestamp {
    /// The year of the proleptic Gregorian calendar; 0 is 1 BCE.
    pub year: i32,
    /// The month, from 1.
    pub month: u32,
    /// The day of the month, from 1.
    pub day: u32,
    /// The hour of the day, from 0.
    pub hour: u32,
    /// The minute of the hour, from 0.
    pub minute: u32,
    /// The second of the minute, from 0.
    pub second: u32,
}

impl CaptureTimestamp {
    /// The fields lie in the ranges of a calendar date and a time of day.
    pub open spec fn is_calendar_time(&self) -> bool {
        &&& 1 <= self.month <= 12
        &&& 1 <= self.day <= 31
        &&& self.hour <= 23
        &&& self.minute <= 59
        &&& self.second <= 59
    }

    /// Tells whether the fields lie in the ranges of a calendar date and a
    /// time of day.
    pub fn check_calendar_time(&self) -> (ok: bool)
        ensures
            ok == self.is_calendar_time(),
    {
        1 <= self.month && self.month <= 12 && 1 <= self.day && self.day <= 31 && self.hour <= 23
            && self.minute <= 59 && self.second <= 59
    }
}

/// What `chrono::NaiveDateTime::parse_from_str` makes of `text` under the
/// strftime pattern `pattern`: the date and time it reads, or `None` where it
/// reports an error.
pub uninterp spec fn chrono_parsed(text: Seq<char>, pattern: Seq<char>) -> Option<CaptureTimestamp>;

/// What `chrono::DateTime::<Utc>::from_timestamp` makes of `secs` whole
/// seconds and `nanos` nanoseconds since 1970-01-01 00:00:00 UTC: the date and
/// time of day in UTC, or `None` where it cannot represent the instant.
pub uninterp spec fn chrono_utc(secs: int, nanos: int) -> Option<CaptureTimestamp>;

/// Parses `text` with `chrono::NaiveDateTime::parse_from_str` under
/// `pattern`, which is the pattern of picture metadata. Not proved: that the
/// result is a function of the two strings alone, and that the fields that
/// chrono's `Datelike` and `Timelike` getters hand out lie in their
/// documented ranges (month 1 to 12, day 1 to 31, hour 0 to 23, minute and
/// second 0 to 59).
#[verifier::external_body]
fn parse_with_pattern(text: &str, pattern: &str) -> (parsed: Option<CaptureTimestamp>)
    requires
        pattern@ == date_pattern(),
    ensures
        parsed == chrono_parsed(text@, pattern@),
        parsed matches Some(t) ==> t.is_calendar_time(),
{
    match chrono::NaiveDateTime::parse_from_str(text, pattern) {
        Ok(dt) => Some(
            CaptureTimestamp {
                year: dt.year(),
                month: dt.month(),
                day: dt.day(),
                hour: dt.hour(),
                minute: dt.minute(),
                second: dt.second(),
            },
        ),
        Err(_) => None,
    }
}

/// Converts a UNIX timestamp with `chrono::DateTime::<Utc>::from_timestamp`.
/// Not proved: that the result is a function of the two numbers alone, and
/// that the fields lie in the ranges chrono documents for its getters.
#[verifier::external_body]
fn utc_from_unix(secs: i64, nanos: u32) -> (utc: Option<CaptureTimestamp>)
    ensures
        utc == chrono_utc(secs as int, nanos as int),
        utc matches Some(t) ==> t.is_calendar_time(),
{
    match chrono::DateTime::from_timestamp(secs, nanos) {
        Some(dt) => Some(
            CaptureTimestamp {
                year: dt.year(),
                month: dt.month(),
                day: dt.day(),
                hour: dt.hour(),
                minute: dt.minute(),
                second: dt.second(),
            },
        ),
        None => None,
    }
}

/// The strftime pattern of the dates that picture metadata holds:
/// `YYYY:MM:DD HH:MM:SS`.
pub open spec fn date_pattern() -> Seq<char> {
    "%Y:%m:%d %H:%M:%S"@
}

/// The capture time that `text` spells under the pattern
/// `YYYY:MM:DD HH:MM:SS`, if it spells one.
pub open spec fn capture_time_of_text(text: Seq<char>) -> Option<CaptureTimestamp> {
    chrono_parsed(text, date_pattern())
}

/// A time as a file system keeps it: how far from the UNIX epoch
/// (1970-01-01 00:00:00 UTC) it lies, and on which side.
#[derive(Clone, Copy, Debug, PartialEq, Eq, Structural)]
pub struct FileTime {
    /// The time lies before the epoch.
    pub before_epoch: bool,
    /// Whole seconds between the time and the epoch.
    pub secs: u64,
    /// Nanoseconds beyond the whole seconds, below 1 000 000 000.
    pub nanos: u32,
}

/// The nanoseconds in a second.
pub const NANOS_PER_SEC: u32 = 1_000_000_000;

impl FileTime {
    /// The time in nanoseconds since the epoch, negative before it.
    pub open spec fn nanos_since_epoch(self) -> int {
        if self.before_epoch {
            -(self.secs * NANOS_PER_SEC + self.nanos)
        } else {
            self.secs * NANOS_PER_SEC + self.nanos
        }
    }

    /// The UNIX timestamp of the time: the whole seconds since the epoch,
    /// rounded down, and the nanoseconds above them. `None` where the
    /// nanoseconds of the file time make a second or more, and where the
    /// seconds do not fit.
    pub open spec fn unix_time(self) -> Option<(i64, u32)> {
        let whole = self.nanos_since_epoch() / (NANOS_PER_SEC as int);
        let above = self.nanos_since_epoch() % (NANOS_PER_SEC as int);
        if self.nanos < NANOS_PER_SEC && i64::MIN <= whole <= i64::MAX {
            Some((whole as i64, above as u32))
        } else {
            None
        }
    }

    /// The UNIX timestamp of the time.
    pub fn to_unix_time(&self) -> (unix: Option<(i64, u32)>)
        ensures
            unix == self.unix_time(),
    {
        if self.nanos >= NANOS_PER_SEC {
            None
        } else if !self.before_epoch {
            if self.secs <= i64::MAX as u64 {
                Some((self.secs as i64, self.nanos))
            } else {
                None
            }
        } else if self.nanos == 0 {
            if self.secs <= i64::MAX as u64 {
                Some((-(self.secs as i64), 0))
            } else if self.secs == i64::MAX as u64 + 1 {
                Some((i64::MIN, 0))
            } else {
                None
            }
        } else {
            if self.secs <= i64::MAX as u64 {
                Some((-(self.secs as i64) - 1, NANOS_PER_SEC - self.nanos))
            } else {
                None
            }
        }
    }
}

/// The UTC date and time of a UNIX timestamp.
pub open spec fn capture_time_of_unix(secs: i64, nanos: u32) -> Option<CaptureTimestamp> {
    chrono_utc(secs as int, nanos as int)
}

/// The UTC date and time of a file time.
pub open spec fn capture_time_of_file_time(time: FileTime) -> Option<CaptureTimestamp> {
    match time.unix_time() {
        Some((secs, nanos)) => capture_time_of_unix(secs, nanos),
        None => None,
    }
}

/// Reads a capture time written as `YYYY:MM:DD HH:MM:SS`. The time is taken
/// as it stands, as a time in UTC.
pub fn parse_capture_time(text: &str) -> (parsed: Option<CaptureTimestamp>)
    ensures
        parsed == capture_time_of_text(text@),
        parsed matches Some(t) ==> t.is_calendar_time(),
{
    parse_with_pattern(text, "%Y:%m:%d %H:%M:%S")
}

/// The capture time that a file's last-modified time stands for: its date
/// and time of day in UTC. `None` where no date can be written for it.
pub fn modified_capture_time(modified: &FileTime) -> (utc: Option<CaptureTimestamp>)
    ensures
        utc == capture_time_of_file_time(*modified),
        utc matches Some(t) ==> t.is_calendar_time(),
{
    match modified.to_unix_time() {
        Some((secs, nanos)) => utc_from_unix(secs, nanos),
        None => None,
    }
}

} // verus!
