//! Civil (zone-less) date-times, read and written by chrono and ordered here
//! by their distance from 1970-01-01 00:00:00 in seconds.

use chrono::DateTime;
use chrono::NaiveDateTime;
use vstd::prelude::*;

verus! {

/// The civil format of the schedule's time cells: `YYYY-MM-DD HH:MM`.
pub const CIVIL_FORMAT: &'static str = "%Y-%m-%d %H:%M";

/// Seconds in the day that separates a moment from its look-back baseline.
pub const DAY_SECONDS: i64 = 86_400;

/// Seconds from 1970-01-01 00:00:00 to the first moment chrono can hold,
/// 00:00:00 on 1 January of the year -262143.
pub const MIN_SECONDS: i64 = -8_334_601_228_800;

/// Seconds from 1970-01-01 00:00:00 to the last whole second chrono can
/// hold, 23:59:59 on 31 December of the year 262142.
pub const MAX_SECONDS: i64 = 8_210_266_876_799;

/// The moment that chrono's `NaiveDateTime::parse_from_str` reads from `text`
/// under the format `pattern`, as whole seconds since 1970-01-01 00:00:00;
/// `None` where chrono rejects the text or the format.
pub uninterp spec fn parsed_seconds(text: Seq<char>, pattern: Seq<char>) -> Option<int>;

/// The text that chrono's `Display` gives the civil time `seconds` after
/// 1970-01-01 00:00:00.
pub uninterp spec fn displayed_time(seconds: int) -> Seq<char>;

/// Whether `seconds` lies within the span of civil times that chrono holds.
pub open spec fn in_civil_range(seconds: int) -> bool {
    MIN_SECONDS <= seconds <= MAX_SECONDS
}

/// What a time cell holding `text` means: the moment chrono reads from it
/// under [`CIVIL_FORMAT`], in seconds, or `None` where the text is no such
/// civil time.
pub open spec fn civil_seconds(text: Seq<char>) -> Option<int> {
    match parsed_seconds(text, CIVIL_FORMAT@) {
        Some(seconds) => if in_civil_range(seconds) {
            Some(seconds)
        } else {
            None
        },
        None => None,
    }
}

/// Calls chrono's `NaiveDateTime::parse_from_str` on `text` with the format
/// `pattern` and hands back the parsed moment as the seconds that
/// `and_utc().timestamp()` counts from 1970-01-01 00:00:00. Trusted: the
/// outcome is the one that `parsed_seconds` names, `None` exactly where chrono
/// answers with an error.
#[verifier::external_body]
fn parse_seconds(text: &str, pattern: &str) -> (seconds: Option<i64>)
    ensures
        seconds matches Some(s) ==> parsed_seconds(text@, pattern@) == Some(s as int),
        seconds is None ==> parsed_seconds(text@, pattern@) is None,
{
    match NaiveDateTime::parse_from_str(text, pattern) {
        Ok(moment) => Some(moment.and_utc().timestamp()),
        Err(_) => None,
    }
}

/// Builds the civil time `seconds` after 1970-01-01 00:00:00 with chrono's
/// `DateTime::from_timestamp` and writes it with the `Display` of its
/// `naive_utc()`. Trusted: chrono accepts every count from [`MIN_SECONDS`] to
/// [`MAX_SECONDS`], and the text is the one that `displayed_time` names.
#[verifier::external_body]
fn display_seconds(seconds: i64) -> (text: Option<String>)
    ensures
        in_civil_range(seconds as int) ==> text is Some,
        text matches Some(t) ==> t@ == displayed_time(seconds as int),
{
    match DateTime::from_timestamp(seconds, 0) {
        Some(moment) => Some(moment.naive_utc().to_string()),
        None => None,
    }
}

/// A civil date-time without a time zone, to the second.
#[derive(Clone, Copy, Debug, PartialEq, Eq, Structural)]
pub struct CivilTime {
    seconds: i64,
}

impl View for CivilTime {
    type V = int;

    /// Seconds since 1970-01-01 00:00:00, negative before it.
    closed spec fn view(&self) -> int {
        self.seconds as int
    }
}

impl CivilTime {
    #[verifier::type_invariant]
    spec fn within_range(self) -> bool {
        in_civil_range(self.seconds as int)
    }

    /// The civil time `seconds` after 1970-01-01 00:00:00, where chrono can
    /// hold it.
    pub fn from_seconds(seconds: i64) -> (time: Option<CivilTime>)
        ensures
            time is Some <==> in_civil_range(seconds as int),
            time matches Some(t) ==> t@ == seconds,
    {
        if MIN_SECONDS <= seconds && seconds <= MAX_SECONDS {
            Some(CivilTime { seconds })
        } else {
            None
        }
    }

    /// Seconds since 1970-01-01 00:00:00.
    pub fn seconds(&self) -> (seconds: i64)
        ensures
            seconds == self@,
            in_civil_range(seconds as int),
    {
        proof {
            use_type_invariant(self);
        }
        self.seconds
    }

    /// Reads a civil time written as `YYYY-MM-DD HH:MM`.
    pub fn parse(text: &str) -> (time: Option<CivilTime>)
        ensures
            time is Some <==> civil_seconds(text@) is Some,
            time matches Some(t) ==> civil_seconds(text@) == Some(t@),
    {
        match parse_seconds(text, CIVIL_FORMAT) {
            Some(seconds) => CivilTime::from_seconds(seconds),
            None => None,
        }
    }

    /// Writes the civil time as chrono displays it: date, a space, time.
    pub fn render(&self) -> (text: String)
        ensures
            text@ == displayed_time(self@),
    {
        proof {
            use_type_invariant(self);
        }
        match display_seconds(self.seconds) {
            Some(text) => text,
            None => vstd::pervasive::unreached(),
        }
    }
}

} // verus!
