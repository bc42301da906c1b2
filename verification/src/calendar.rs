//! Rendering of points in time as text, done by the `chrono` crate.

use vstd::prelude::*;

verus! {

/// The pattern of the time stamp in a backup's file name: year, month and
/// day, an underscore, then hour, minute and second.
pub const COMPACT_PATTERN: &'static str = "%Y%m%d_%H%M%S";

/// The RFC 3339 text of the point in time `secs` seconds and `nanos`
/// nanoseconds after the Unix epoch, in UTC; `None` where the calendar
/// cannot hold that point.
pub uninterp spec fn utc_rfc3339(secs: int, nanos: int) -> Option<Seq<char>>;

/// The same point in time written after `pattern`.
pub uninterp spec fn utc_formatted(secs: int, nanos: int, pattern: Seq<char>) -> Option<Seq<char>>;

/// `DateTime::from_timestamp`, and `DateTime::to_rfc3339` on what it
/// returns.
///
/// Trusted: the result is the text that `utc_rfc3339` names, and `None`
/// exactly where `from_timestamp` refuses the pair. It depends on the two
/// numbers alone: the time is taken as UTC, no clock and no time zone of
/// the machine is read.
#[verifier::external_body]
pub(crate) fn render_rfc3339(secs: i64, nanos: u32) -> (r: Option<String>)
    ensures
        match r {
            Some(text) => utc_rfc3339(secs as int, nanos as int) == Some(text@),
            None => utc_rfc3339(secs as int, nanos as int) is None,
        },
{
    match chrono::DateTime::from_timestamp(secs, nanos) {
        Some(time) => Some(time.to_rfc3339()),
        None => None,
    }
}

/// `DateTime::from_timestamp`, and `DateTime::format` with `to_string` on
/// what it returns.
///
/// Trusted: the result is the text that `utc_formatted` names, and `None`
/// exactly where `from_timestamp` refuses the pair. The pattern is held to
/// `COMPACT_PATTERN`, whose items are all known to `chrono`, so that the
/// rendering cannot fail.
#[verifier::external_body]
pub(crate) fn render_formatted(secs: i64, nanos: u32, pattern: &str) -> (r: Option<String>)
    requires
        pattern@ == COMPACT_PATTERN@,
    ensures
        match r {
            Some(text) => utc_formatted(secs as int, nanos as int, pattern@) == Some(text@),
            None => utc_formatted(secs as int, nanos as int, pattern@) is None,
        },
{
    match chrono::DateTime::from_timestamp(secs, nanos) {
        Some(time) => Some(time.format(pattern).to_string()),
        None => None,
    }
}

/// A point in time together with its two renderings.
pub struct Timestamp {
    secs: i64,
    nanos: u32,
    compact: String,
    rfc3339: String,
}

impl Timestamp {
    #[verifier::type_invariant]
    spec fn rendered(self) -> bool {
        &&& utc_formatted(self.secs as int, self.nanos as int, COMPACT_PATTERN@) == Some(
            self.compact@,
        )
        &&& utc_rfc3339(self.secs as int, self.nanos as int) == Some(self.rfc3339@)
    }

    /// Whole seconds since the Unix epoch.
    pub closed spec fn unix_seconds(self) -> int {
        self.secs as int
    }

    /// Nanoseconds since the last whole second.
    pub closed spec fn subsec_nanos(self) -> int {
        self.nanos as int
    }

    /// The point in time after `COMPACT_PATTERN`.
    pub closed spec fn compact_text(self) -> Seq<char> {
        self.compact@
    }

    /// The point in time as RFC 3339 text.
    pub closed spec fn rfc3339_text(self) -> Seq<char> {
        self.rfc3339@
    }

    /// The point in time `secs` seconds and `nanos` nanoseconds after the
    /// Unix epoch, where the calendar can hold it.
    pub fn from_unix(secs: i64, nanos: u32) -> (r: Option<Timestamp>)
        ensures
            r is Some <==> (utc_formatted(secs as int, nanos as int, COMPACT_PATTERN@) is Some
                && utc_rfc3339(secs as int, nanos as int) is Some),
            r matches Some(t) ==> {
                &&& t.unix_seconds() == secs
                &&& t.subsec_nanos() == nanos
                &&& Some(t.compact_text()) == utc_formatted(
                    secs as int,
                    nanos as int,
                    COMPACT_PATTERN@,
                )
                &&& Some(t.rfc3339_text()) == utc_rfc3339(secs as int, nanos as int)
            },
    {
        let compact = match render_formatted(secs, nanos, COMPACT_PATTERN) {
            Some(text) => text,
            None => {
                return None;
            },
        };
        let rfc3339 = match render_rfc3339(secs, nanos) {
            Some(text) => text,
            None => {
                return None;
            },
        };
        Some(Timestamp { secs, nanos, compact, rfc3339 })
    }

    /// Whole seconds since the Unix epoch.
    pub fn seconds(&self) -> (s: i64)
        ensures
            s == self.unix_seconds(),
    {
        self.secs
    }

    /// The point in time after `COMPACT_PATTERN`.
    pub fn compact(&self) -> (s: &str)
        ensures
            s@ == self.compact_text(),
    {
        self.compact.as_str()
    }

    /// The point in time as RFC 3339 text.
    pub fn rfc3339(&self) -> (s: &str)
        ensures
            s@ == self.rfc3339_text(),
    {
        self.rfc3339.as_str()
    }
}

} // verus!
