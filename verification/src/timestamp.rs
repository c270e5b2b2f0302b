//! Points in time, as the exchange reports and filters them.

use vstd::prelude::*;

verus! {

/// A point in time on the UTC scale: whole seconds since the Unix epoch and
/// the nanoseconds into that second.
#[derive(Clone, Copy, Debug, PartialEq, Eq, Structural)]
pub struct Timestamp {
    pub seconds: i64,
    pub nanos: u32,
}

/// The instant that chrono reads in a date-and-time text, as Unix seconds and
/// nanoseconds; `None` where chrono rejects the text.
pub uninterp spec fn parsed_instant(text: Seq<char>) -> Option<(i64, u32)>;

/// Parses a text as `chrono::DateTime<Utc>` through its `FromStr`, which
/// accepts a relaxed RFC 3339 form and converts any offset to UTC, and hands
/// back `timestamp()` and `timestamp_subsec_nanos()` of the result. A parse
/// error becomes `None`. The result is named by `parsed_instant`.
#[verifier::external_body]
pub(crate) fn parse_instant(text: &str) -> (parts: Option<(i64, u32)>)
    ensures
        parts == parsed_instant(text@),
{
    match text.parse::<chrono::DateTime<chrono::Utc>>() {
        Ok(t) => Some((t.timestamp(), t.timestamp_subsec_nanos())),
        Err(_) => None,
    }
}

impl Timestamp {
    /// The timestamp made of the given parts, if there are any.
    pub open spec fn spec_from_parts(parts: Option<(i64, u32)>) -> Option<Timestamp> {
        match parts {
            Some((seconds, nanos)) => Some(Timestamp { seconds, nanos }),
            None => None,
        }
    }

    /// The timestamp that a date-and-time text stands for.
    pub open spec fn spec_parse(text: Seq<char>) -> Option<Timestamp> {
        Timestamp::spec_from_parts(parsed_instant(text))
    }

    /// The timestamp of the given seconds and nanoseconds.
    pub fn new(seconds: i64, nanos: u32) -> (t: Timestamp)
        ensures
            t == (Timestamp { seconds, nanos }),
    {
        Timestamp { seconds, nanos }
    }

    /// Builds the timestamp of a parsed instant.
    pub fn from_parts(parts: Option<(i64, u32)>) -> (t: Option<Timestamp>)
        ensures
            t == Timestamp::spec_from_parts(parts),
    {
        match parts {
            Some((seconds, nanos)) => Some(Timestamp { seconds, nanos }),
            None => None,
        }
    }

    /// Reads a timestamp from a date-and-time text such as
    /// `2019-03-05T09:56:55.728933+00:00`.
    pub fn parse(text: &str) -> (t: Option<Timestamp>)
        ensures
            t == Timestamp::spec_parse(text@),
    {
        Timestamp::from_parts(parse_instant(text))
    }

    /// Whole seconds since the Unix epoch: the form in which time filters
    /// are transmitted.
    pub fn unix_seconds(&self) -> (s: i64)
        ensures
            s == self.seconds,
    {
        self.seconds
    }
}

} // verus!
