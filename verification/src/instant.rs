//! Points in time, and their textual forms.
//!
//! A record's creation time is a point on the UTC time line. The library
//! holds it as a count of seconds from the Unix epoch plus a nanosecond
//! part, and leaves reading and writing of calendar text to `chrono`. What
//! `chrono` reads out of a text, or writes for an instant, is not restated
//! here: each such result has a name, and the contracts of the mappers speak
//! of those names.

use std::fmt::Write;
use vstd::prelude::*;

verus! {

/// First second of the earliest day that `chrono` can represent.
pub const MIN_SECS: i64 = -8_334_601_228_800;

/// Last second of the latest day that `chrono` can represent.
pub const MAX_SECS: i64 = 8_210_266_876_799;

/// An instant on the UTC time line.
///
/// `secs` counts non-leap seconds from 1970-01-01T00:00:00Z. `nanos` counts
/// nanoseconds within that second; during a leap second it runs on past
/// 999,999,999.
#[derive(Clone, Copy, Debug, PartialEq, Eq, Structural)]
pub struct Timestamp {
    pub secs: i64,
    pub nanos: u32,
}

impl Timestamp {
    /// Whether the second of this instant lies on a day within the
    /// supported years, whatever its nanosecond part.
    pub open spec fn on_calendar(self) -> bool {
        MIN_SECS <= self.secs <= MAX_SECS
    }

    /// Decides [`Timestamp::on_calendar`].
    pub fn is_on_calendar(&self) -> (ok: bool)
        ensures
            ok == self.on_calendar(),
    {
        MIN_SECS <= self.secs && self.secs <= MAX_SECS
    }

    /// Whether this instant is one that calendar text can be written for:
    /// its day lies within the supported years, and a nanosecond part of a
    /// full second or more occurs only in the last second of a minute.
    pub open spec fn in_range(self) -> bool {
        &&& self.on_calendar()
        &&& self.nanos < 2_000_000_000
        &&& (self.nanos >= 1_000_000_000 ==> self.secs % 60 == 59)
    }

    /// Decides [`Timestamp::in_range`].
    pub fn is_in_range(&self) -> (ok: bool)
        ensures
            ok == self.in_range(),
    {
        if self.secs < MIN_SECS || self.secs > MAX_SECS {
            return false;
        }
        if self.nanos < 1_000_000_000 {
            return true;
        }
        let rem: i64 = self.secs % 60;
        let second_of_minute: i64 = if rem < 0 {
            rem + 60
        } else {
            rem
        };
        assert(second_of_minute == (self.secs as int) % 60);
        self.nanos < 2_000_000_000 && second_of_minute == 59
    }

    /// The Unix epoch, which stands in wherever a creation time could not be
    /// read.
    pub open spec fn spec_epoch() -> Timestamp {
        Timestamp { secs: 0, nanos: 0 }
    }

    #[verifier::when_used_as_spec(spec_epoch)]
    pub fn epoch() -> (e: Timestamp)
        ensures
            e == Self::spec_epoch(),
            e.in_range(),
    {
        Timestamp { secs: 0, nanos: 0 }
    }

    /// The instant that a reading of timestamp text stands for: the reading
    /// itself, or the epoch where the text was malformed.
    pub open spec fn spec_or_epoch(reading: Option<Timestamp>) -> Timestamp {
        match reading {
            Some(at) => at,
            None => Self::spec_epoch(),
        }
    }

    #[verifier::when_used_as_spec(spec_or_epoch)]
    pub fn or_epoch(reading: Option<Timestamp>) -> (at: Timestamp)
        ensures
            at == Self::spec_or_epoch(reading),
    {
        match reading {
            Some(at) => at,
            None => Timestamp { secs: 0, nanos: 0 },
        }
    }

    /// Reads timestamp text in the relaxed RFC 3339 form, falling back to
    /// the epoch on malformed text. Either way the instant is in range.
    pub fn parse_or_epoch(text: &str) -> (at: Timestamp)
        ensures
            at == Self::spec_or_epoch(parsed_instant(text@)),
            parsed_instant(text@) is None ==> at == Self::spec_epoch(),
            at.in_range(),
    {
        Self::or_epoch(parse_instant(text))
    }
}

/// What `chrono` reads out of `text` as a UTC date and time: the instant,
/// or `None` where `text` is not a timestamp in the relaxed RFC 3339 form.
pub uninterp spec fn parsed_instant(text: Seq<char>) -> Option<Timestamp>;

/// The RFC 3339 text that `chrono` writes for `at`.
pub uninterp spec fn rfc3339_text(at: Timestamp) -> Seq<char>;

/// The text that `chrono` displays for `at` as a UTC date and time.
pub uninterp spec fn display_text(at: Timestamp) -> Seq<char>;

/// The text that `chrono` writes for `at` after the `strftime`-style
/// `pattern`.
pub uninterp spec fn formatted_text(at: Timestamp, pattern: Seq<char>) -> Seq<char>;

/// Calls `chrono`'s `FromStr` for `DateTime<Utc>`. Trusted: the outcome is a
/// function of the text alone; a parsed date and time is handed back as its
/// seconds and nanoseconds, a parse error as `None`. A parsed instant is in
/// range: `chrono` accepts no date outside its years, and reads a leap
/// second only as second 60 of a minute.
#[verifier::external_body]
pub(crate) fn parse_instant(text: &str) -> (reading: Option<Timestamp>)
    ensures
        reading == parsed_instant(text@),
        reading matches Some(at) ==> at.in_range(),
{
    match text.parse::<chrono::DateTime<chrono::Utc>>() {
        Ok(moment) => Some(
            Timestamp { secs: moment.timestamp(), nanos: moment.timestamp_subsec_nanos() },
        ),
        Err(_) => None,
    }
}

/// Calls `chrono`'s `DateTime::to_rfc3339`. Trusted: the text is a function
/// of the instant alone, and `chrono` reads it back as the same instant:
/// year, month, day, time of day and fraction are written in the form that
/// its parser takes, a leap second as second 60. An instant in range is one
/// that `DateTime::from_timestamp` accepts.
#[verifier::external_body]
pub(crate) fn write_rfc3339(at: Timestamp) -> (text: String)
    requires
        at.in_range(),
    ensures
        text@ == rfc3339_text(at),
        parsed_instant(text@) == Some(at),
{
    chrono::DateTime::from_timestamp(at.secs, at.nanos).unwrap_or_default().to_rfc3339()
}

/// Calls `chrono`'s `Display` for `DateTime<Utc>`. Trusted: the text is a
/// function of the instant alone, and `chrono` reads it back as the same
/// instant: its parser takes a space between date and time, and `UTC` for
/// the offset.
#[verifier::external_body]
pub(crate) fn write_display(at: Timestamp) -> (text: String)
    requires
        at.in_range(),
    ensures
        text@ == display_text(at),
        parsed_instant(text@) == Some(at),
{
    chrono::DateTime::from_timestamp(at.secs, at.nanos).unwrap_or_default().to_string()
}

/// Calls `chrono`'s `DateTime::format` and writes the outcome to a string.
/// Trusted: the text is a function of the instant and the pattern alone. A
/// pattern that `chrono` rejects yields the empty text.
#[verifier::external_body]
pub(crate) fn write_formatted(at: Timestamp, pattern: &str) -> (text: String)
    requires
        at.in_range(),
    ensures
        text@ == formatted_text(at, pattern@),
{
    let moment = chrono::DateTime::from_timestamp(at.secs, at.nanos).unwrap_or_default();
    let mut text = String::new();
    let _ = write!(text, "{}", moment.format(pattern));
    text
}

} // verus!
