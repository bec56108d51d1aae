//! Points in time, and the window in which a signature counts as fresh.

use std::fmt::Write;
use vstd::prelude::*;

verus! {

/// A point in time: whole seconds since the Unix epoch and the nanoseconds
/// past that second.
#[derive(Debug, Copy, Clone, PartialEq, Eq, Structural)]
pub struct Instant {
    pub secs: i64,
    pub nanos: u32,
}

/// Nanoseconds in a second.
pub const NANOS_PER_SEC: i128 = 1_000_000_000;

/// Half the width of the acceptance window: twelve hours, in nanoseconds.
pub const WINDOW_NANOS: i128 = 43_200_000_000_000;

impl Instant {
    /// Nanoseconds since the Unix epoch.
    pub open spec fn since_epoch(self) -> int {
        self.secs * NANOS_PER_SEC + self.nanos
    }

    /// Nanoseconds since the Unix epoch.
    pub fn total_nanos(self) -> (total: i128)
        ensures
            total == self.since_epoch(),
    {
        (self.secs as i128) * NANOS_PER_SEC + (self.nanos as i128)
    }
}

/// A timestamp is fresh when it lies less than twelve hours before or after
/// the time of the check.
pub open spec fn fresh(created: Instant, now: Instant) -> bool {
    -WINDOW_NANOS < created.since_epoch() - now.since_epoch() < WINDOW_NANOS
}

/// Decide whether `created` lies within the acceptance window around `now`.
pub fn is_fresh(created: Instant, now: Instant) -> (ok: bool)
    ensures
        ok == fresh(created, now),
{
    let diff: i128 = created.total_nanos() - now.total_nanos();
    -WINDOW_NANOS < diff && diff < WINDOW_NANOS
}

/// The instant that an RFC 3339 date and time names, if the text is one.
pub uninterp spec fn rfc3339_instant(text: Seq<char>) -> Option<Instant>;

/// `chrono::DateTime::parse_from_rfc3339`, the parsed date given as seconds
/// and nanoseconds since the epoch; `None` where chrono reports a parse error.
#[verifier::external_body]
pub(crate) fn parse_rfc3339(text: &str) -> (parsed: Option<Instant>)
    ensures
        parsed == rfc3339_instant(text@),
{
    match chrono::DateTime::parse_from_rfc3339(text) {
        Ok(date) => Some(Instant { secs: date.timestamp(), nanos: date.timestamp_subsec_nanos() }),
        Err(_) => None,
    }
}

/// `chrono::Utc::now`, as seconds and nanoseconds since the epoch. Nothing
/// is known of the clock's answer.
#[verifier::external_body]
pub(crate) fn now() -> Instant {
    let date = chrono::Utc::now();
    Instant { secs: date.timestamp(), nanos: date.timestamp_subsec_nanos() }
}

/// `chrono::DateTime::to_rfc3339` on `chrono::Utc::now`: the current time as
/// an RFC 3339 text. Nothing is known of the clock's answer.
#[verifier::external_body]
pub(crate) fn now_rfc3339() -> String {
    chrono::Utc::now().to_rfc3339()
}

/// The RFC 3339 text of a number of seconds since the epoch, in UTC; none
/// where chrono has no date for the number.
pub uninterp spec fn rfc3339_text(secs: i64) -> Option<Seq<char>>;

/// `chrono::DateTime::to_rfc3339` on the date that
/// `chrono::DateTime::from_timestamp` makes of a number of seconds: the date
/// as an RFC 3339 text, or `None` where the number is out of chrono's range.
#[verifier::external_body]
pub(crate) fn write_rfc3339(secs: i64) -> (text: Option<String>)
    ensures
        text is Some == rfc3339_text(secs) is Some,
        text matches Some(t) ==> t@ == rfc3339_text(secs).unwrap(),
{
    match chrono::DateTime::from_timestamp(secs, 0) {
        Some(date) => Some(date.to_rfc3339()),
        None => None,
    }
}

/// The format of the `Date` header of a request.
pub const HTTP_DATE_FORMAT: &'static str = "%a, %d %b %Y %T GMT";

/// The instant that a text names when it is read in a format of chrono's
/// `strftime` kind, if it is a date in that format.
pub uninterp spec fn formatted_instant(text: Seq<char>, format: Seq<char>) -> Option<Instant>;

/// The instant that a `Date` header names, if the text is one in the format
/// of such a header.
pub open spec fn http_date_instant(text: Seq<char>) -> Option<Instant> {
    formatted_instant(text, HTTP_DATE_FORMAT@)
}

/// `chrono::NaiveDateTime::parse_from_str`, the date taken as UTC and given
/// as seconds and nanoseconds since the epoch; `None` where chrono reports a
/// parse error.
#[verifier::external_body]
fn parse_formatted(text: &str, format: &str) -> (parsed: Option<Instant>)
    ensures
        parsed == formatted_instant(text@, format@),
{
    match chrono::NaiveDateTime::parse_from_str(text, format) {
        Ok(date) => Some(
            Instant {
                secs: date.and_utc().timestamp(),
                nanos: date.and_utc().timestamp_subsec_nanos(),
            },
        ),
        Err(_) => None,
    }
}

/// `chrono::DateTime::format` on `chrono::Utc::now`, written out; `None`
/// where chrono cannot write a date in the format. Nothing is known of the
/// clock's answer.
#[verifier::external_body]
fn now_formatted(format: &str) -> Option<String> {
    let mut text = String::new();
    match write!(text, "{}", chrono::Utc::now().format(format)) {
        Ok(()) => Some(text),
        Err(_) => None,
    }
}

/// Read the date of a `Date` header.
pub fn parse_http_date(text: &str) -> (parsed: Option<Instant>)
    ensures
        parsed == http_date_instant(text@),
{
    parse_formatted(text, HTTP_DATE_FORMAT)
}

/// The time of the clock as a `Date` header gives it: the text is empty
/// where the date could not be written.
pub fn now_http_date() -> String {
    match now_formatted(HTTP_DATE_FORMAT) {
        Some(date) => date,
        None => String::new(),
    }
}

} // verus!
