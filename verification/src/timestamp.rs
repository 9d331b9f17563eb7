//! Instants on the UTC time line, validated, parsed and rendered by `chrono`.

use vstd::prelude::*;

verus! {

/// Seconds since the Unix epoch of the first instant `chrono` represents:
/// midnight of 1 January of the year -262143.
pub const MIN_EPOCH_SECONDS: i64 = -8_334_601_228_800;

/// Seconds since the Unix epoch of the last second `chrono` represents:
/// 23:59:59 of 31 December of the year 262142.
pub const MAX_EPOCH_SECONDS: i64 = 8_210_266_876_799;

/// Seconds in one civil day.
pub const SECONDS_PER_DAY: i64 = 86_400;

/// Whether a pair of whole seconds and nanoseconds denotes an instant.
///
/// The nanosecond part reaches into a second billion only to denote a leap
/// second, which can follow only the last second of a minute.
pub open spec fn valid_instant(secs: int, nanos: int) -> bool {
    &&& MIN_EPOCH_SECONDS <= secs <= MAX_EPOCH_SECONDS
    &&& 0 <= nanos < 2_000_000_000
    &&& (nanos >= 1_000_000_000 ==> secs % 60 == 59)
}

/// The mathematical value of a [`Timestamp`].
pub struct Instant {
    pub secs: int,
    pub nanos: int,
}

/// An instant on the UTC time line, with nanosecond resolution.
#[derive(Clone, Copy, Debug, PartialEq, Eq)]
pub struct Timestamp {
    secs: i64,
    nanos: u32,
}

impl View for Timestamp {
    type V = Instant;

    closed spec fn view(&self) -> Instant {
        Instant { secs: self.secs as int, nanos: self.nanos as int }
    }
}

/// Calls `chrono::DateTime::from_timestamp` and reads the instant back with
/// `timestamp` and `timestamp_subsec_nanos`.
///
/// Claims that chrono accepts exactly the pairs of [`valid_instant`], and that
/// an accepted pair is read back unchanged. Chrono splits the seconds into
/// days and seconds of the day, accepts the days whose year lies between
/// -262143 and 262142, the bounds being the seconds of its `MIN_UTC` and
/// `MAX_UTC`, and accepts a second billion of nanoseconds only where the
/// second of the day is the last of its minute. It documents that the two
/// readers give back what `from_timestamp` was given.
#[verifier::external_body]
fn chrono_from_timestamp(secs: i64, nanos: u32) -> (out: Option<(i64, u32)>)
    ensures
        out == if valid_instant(secs as int, nanos as int) {
            Some((secs, nanos))
        } else {
            None::<(i64, u32)>
        },
{
    match chrono::DateTime::from_timestamp(secs, nanos) {
        Some(moment) => Some((moment.timestamp(), moment.timestamp_subsec_nanos())),
        None => None,
    }
}

/// What `chrono` reads from a date and time in its relaxed RFC 3339 form:
/// whole seconds since the Unix epoch and nanoseconds, or nothing where the
/// text is not such a date and time.
pub uninterp spec fn datetime_text_instant(text: Seq<char>) -> Option<(i64, u32)>;

/// What `chrono` reads from a calendar date under the pattern `%Y-%m-%d`: the
/// days between 1 January 1970 and that date, or nothing where the text is no
/// such date.
pub uninterp spec fn date_text_epoch_days(text: Seq<char>) -> Option<i32>;

/// The text `chrono` renders an instant to under the pattern
/// `%Y-%m-%dT%H:%M:%SZ`.
pub uninterp spec fn instant_text(secs: int, nanos: int) -> Seq<char>;

/// Calls `str::parse::<chrono::DateTime<chrono::Utc>>` and reads the instant
/// with `timestamp` and `timestamp_subsec_nanos`.
///
/// Claims only that the outcome depends on the text alone.
#[verifier::external_body]
fn chrono_parse_datetime(text: &str) -> (out: Option<(i64, u32)>)
    ensures
        out == datetime_text_instant(text@),
{
    match text.parse::<chrono::DateTime<chrono::Utc>>() {
        Ok(moment) => Some((moment.timestamp(), moment.timestamp_subsec_nanos())),
        Err(_) => None,
    }
}

/// Calls `chrono::NaiveDate::parse_from_str` with the pattern `%Y-%m-%d` and
/// reads the date with `to_epoch_days`.
///
/// Claims only that the outcome depends on the text alone.
#[verifier::external_body]
fn chrono_parse_date(text: &str) -> (out: Option<i32>)
    ensures
        out == date_text_epoch_days(text@),
{
    match chrono::NaiveDate::parse_from_str(text, "%Y-%m-%d") {
        Ok(date) => Some(date.to_epoch_days()),
        Err(_) => None,
    }
}

/// Calls `chrono::DateTime::format` with the pattern `%Y-%m-%dT%H:%M:%SZ` on
/// the instant that `chrono::DateTime::from_timestamp` makes of the pair.
///
/// Claims only that the text depends on the pair alone. The pair has to
/// denote an instant, and every specifier of the pattern is one that chrono
/// renders for a date and time.
#[verifier::external_body]
fn chrono_format_seconds(secs: i64, nanos: u32) -> (out: String)
    requires
        valid_instant(secs as int, nanos as int),
    ensures
        out@ == instant_text(secs as int, nanos as int),
{
    chrono::DateTime::from_timestamp(secs, nanos).unwrap().format("%Y-%m-%dT%H:%M:%SZ").to_string()
}

/// The instant a date-and-time text denotes: what chrono reads from it, where
/// that is an instant.
pub open spec fn datetime_instant(text: Seq<char>) -> Option<Instant> {
    match datetime_text_instant(text) {
        Some((secs, nanos)) if valid_instant(secs as int, nanos as int) => Some(
            Instant { secs: secs as int, nanos: nanos as int },
        ),
        _ => None,
    }
}

/// Midnight UTC of the day that lies `days` days after 1 January 1970, where
/// that is an instant.
pub open spec fn midnight_of(days: int) -> Option<Instant> {
    if valid_instant(days * SECONDS_PER_DAY, 0) {
        Some(Instant { secs: days * SECONDS_PER_DAY, nanos: 0 })
    } else {
        None
    }
}

/// The instant a date-only text denotes: midnight UTC of the day chrono reads
/// from it.
pub open spec fn date_instant(text: Seq<char>) -> Option<Instant> {
    match date_text_epoch_days(text) {
        Some(days) => midnight_of(days as int),
        None => None,
    }
}

impl Timestamp {
    #[verifier::type_invariant]
    spec fn well_formed(self) -> bool {
        valid_instant(self.secs as int, self.nanos as int)
    }

    /// The instant `secs` whole seconds and `nanos` nanoseconds after the
    /// Unix epoch, where that pair denotes one.
    pub fn new(secs: i64, nanos: u32) -> (out: Option<Timestamp>)
        ensures
            out is Some <==> valid_instant(secs as int, nanos as int),
            out matches Some(t) ==> t@ == (Instant { secs: secs as int, nanos: nanos as int }),
    {
        match chrono_from_timestamp(secs, nanos) {
            Some((s, n)) => Some(Timestamp { secs: s, nanos: n }),
            None => None,
        }
    }

    /// The instant `secs` whole seconds after the Unix epoch, where chrono
    /// represents it.
    pub fn from_epoch_seconds(secs: i64) -> (out: Option<Timestamp>)
        ensures
            out is Some <==> MIN_EPOCH_SECONDS <= secs <= MAX_EPOCH_SECONDS,
            out matches Some(t) ==> t@ == (Instant { secs: secs as int, nanos: 0 }),
    {
        Timestamp::new(secs, 0)
    }

    /// Midnight UTC of the day that lies `days` days after 1 January 1970,
    /// where chrono represents it.
    pub fn from_epoch_days(days: i32) -> (out: Option<Timestamp>)
        ensures
            out is Some <==> midnight_of(days as int) is Some,
            out matches Some(t) ==> Some(t@) == midnight_of(days as int),
    {
        let wide: i64 = days as i64;
        Timestamp::new(wide * SECONDS_PER_DAY, 0)
    }

    /// Reads a date and time in the relaxed RFC 3339 form that chrono accepts.
    pub fn parse_datetime(text: &str) -> (out: Option<Timestamp>)
        ensures
            out is Some <==> datetime_instant(text@) is Some,
            out matches Some(t) ==> Some(t@) == datetime_instant(text@),
    {
        match chrono_parse_datetime(text) {
            Some((secs, nanos)) => Timestamp::new(secs, nanos),
            None => None,
        }
    }

    /// Reads a calendar date written as year, month and day, and places it at
    /// midnight UTC.
    pub fn parse_date(text: &str) -> (out: Option<Timestamp>)
        ensures
            out is Some <==> date_instant(text@) is Some,
            out matches Some(t) ==> Some(t@) == date_instant(text@),
    {
        match chrono_parse_date(text) {
            Some(days) => Timestamp::from_epoch_days(days),
            None => None,
        }
    }

    /// The instant to the second, as `YYYY-MM-DDTHH:MM:SSZ`.
    pub fn to_seconds_text(&self) -> (out: String)
        ensures
            out@ == instant_text(self@.secs, self@.nanos),
    {
        proof {
            use_type_invariant(self);
        }
        chrono_format_seconds(self.secs, self.nanos)
    }

    /// Whole seconds since the Unix epoch.
    pub fn seconds(&self) -> (out: i64)
        ensures
            out == self@.secs,
            valid_instant(self@.secs, self@.nanos),
    {
        proof {
            use_type_invariant(self);
        }
        self.secs
    }

    /// Nanoseconds since the last whole second.
    pub fn subsec_nanos(&self) -> (out: u32)
        ensures
            out == self@.nanos,
            valid_instant(self@.secs, self@.nanos),
    {
        proof {
            use_type_invariant(self);
        }
        self.nanos
    }
}

} // verus!
