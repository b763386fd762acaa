//! The library's own model of a timestamp with a fixed UTC offset: the
//! instant as non-leap seconds since the Unix epoch plus nanoseconds since
//! the last second boundary, and the offset the source text carried.
//! Parsing and rendering of the two internet date formats is delegated to
//! chrono behind trusted wrappers; everything that compares or combines
//! timestamps is verified here on the plain fields.

use vstd::prelude::*;

verus! {

/// An instant in time together with the UTC offset it was written with.
/// Two timestamps are ordered by their instant (`secs`, then `nanos`);
/// the offset only matters when the value is rendered back to text.
#[derive(Clone, Copy, Debug, PartialEq, Eq, Structural)]
pub struct Timestamp {
    /// Non-leap seconds since 1970-01-01T00:00:00Z.
    pub secs: i64,
    /// Nanoseconds since the last second boundary; values of 1_000_000_000
    /// and above encode a leap second.
    pub nanos: u32,
    /// The UTC offset in seconds, strictly between -86400 and 86400.
    pub offset_secs: i32,
}

impl Timestamp {
    /// The ranges chrono guarantees for the fields of a parsed date.
    pub open spec fn wf(self) -> bool {
        self.nanos < 2_000_000_000 && -86400 < self.offset_secs < 86400
    }
}

/// Strict order on the instant: earlier seconds, or equal seconds and
/// earlier nanoseconds. The offset plays no part.
pub open spec fn spec_lt(a: Timestamp, b: Timestamp) -> bool {
    a.secs < b.secs || (a.secs == b.secs && a.nanos < b.nanos)
}

pub open spec fn spec_le(a: Timestamp, b: Timestamp) -> bool {
    !spec_lt(b, a)
}

/// The later of two timestamps; on equal instants the first one is kept,
/// offset included.
pub open spec fn spec_later(a: Timestamp, b: Timestamp) -> Timestamp {
    if spec_lt(a, b) {
        b
    } else {
        a
    }
}

/// The watermark used when no saved state can be read: the parse of
/// `0000-01-28T07:55:39-05:00`, far enough in the past that every real
/// feed item is newer.
pub open spec fn spec_sentinel() -> Timestamp {
    Timestamp { secs: -62164839861i64, nanos: 0u32, offset_secs: -18000i32 }
}

impl Timestamp {
    /// True iff `self` is strictly earlier than `other`.
    pub fn lt(&self, other: &Timestamp) -> (r: bool)
        ensures
            r == spec_lt(*self, *other),
    {
        self.secs < other.secs || (self.secs == other.secs && self.nanos < other.nanos)
    }

    /// The later of the two instants; ties keep `self`.
    pub fn later(&self, other: &Timestamp) -> (r: Timestamp)
        ensures
            r == spec_later(*self, *other),
    {
        if self.lt(other) {
            *other
        } else {
            *self
        }
    }

    /// The epoch sentinel returned when no watermark was ever saved.
    pub fn sentinel() -> (r: Timestamp)
        ensures
            r == spec_sentinel(),
            r.wf(),
    {
        Timestamp { secs: -62164839861, nanos: 0, offset_secs: -18000 }
    }
}

/// What `chrono::DateTime::parse_from_rfc3339` yields on a given text, as
/// (seconds, nanoseconds, offset), or `None` where the text is not a valid
/// RFC 3339 date-time. A function of the characters alone.
pub uninterp spec fn rfc3339_timestamp(s: Seq<char>) -> Option<Timestamp>;

/// What `chrono::DateTime::parse_from_rfc2822` yields on a given text, in
/// the same shape. A function of the characters alone.
pub uninterp spec fn rfc2822_timestamp(s: Seq<char>) -> Option<Timestamp>;

/// The RFC 3339 rendering chrono gives a (seconds, nanoseconds, offset)
/// triple, or `None` where the instant lies outside chrono's representable
/// range. A function of the three fields alone.
pub uninterp spec fn rfc3339_render(t: Timestamp) -> Option<Seq<char>>;

/// Relies on `chrono::DateTime::parse_from_rfc3339`: the result is a function
/// of the input text alone; `timestamp()` returns non-leap seconds since the
/// Unix epoch, `timestamp_subsec_nanos()` stays below 2_000_000_000, and a
/// `FixedOffset` lies strictly between -86400 and 86400 seconds.
#[verifier::external_body]
pub fn parse_rfc3339(s: &str) -> (r: Option<Timestamp>)
    ensures
        r == rfc3339_timestamp(s@),
        r matches Some(t) ==> t.wf(),
{
    match chrono::DateTime::parse_from_rfc3339(s) {
        Ok(d) => Some(
            Timestamp {
                secs: d.timestamp(),
                nanos: d.timestamp_subsec_nanos(),
                offset_secs: d.offset().local_minus_utc(),
            },
        ),
        Err(_) => None,
    }
}

/// Relies on `chrono::DateTime::parse_from_rfc2822`, with the same field
/// guarantees as the RFC 3339 parse.
#[verifier::external_body]
pub fn parse_rfc2822(s: &str) -> (r: Option<Timestamp>)
    ensures
        r == rfc2822_timestamp(s@),
        r matches Some(t) ==> t.wf(),
{
    match chrono::DateTime::parse_from_rfc2822(s) {
        Ok(d) => Some(
            Timestamp {
                secs: d.timestamp(),
                nanos: d.timestamp_subsec_nanos(),
                offset_secs: d.offset().local_minus_utc(),
            },
        ),
        Err(_) => None,
    }
}

/// Relies on chrono to render a timestamp: `FixedOffset::east_opt` and
/// `DateTime::from_timestamp` return `None` outside their documented ranges,
/// `with_timezone` reattaches the offset, and `to_rfc3339` never fails; the
/// text depends on the three fields alone.
#[verifier::external_body]
pub fn format_rfc3339(t: &Timestamp) -> (r: Option<String>)
    ensures
        r matches Some(s) ==> rfc3339_render(*t) == Some(s@),
        r is None ==> rfc3339_render(*t) is None,
{
    let offset = chrono::FixedOffset::east_opt(t.offset_secs)?;
    let utc = chrono::DateTime::from_timestamp(t.secs, t.nanos)?;
    Some(utc.with_timezone(&offset).to_rfc3339())
}

} // verus!
