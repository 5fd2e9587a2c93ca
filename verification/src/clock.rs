//! Instants in UTC, as the store writes and reads them.

use vstd::prelude::*;

verus! {

#[verifier::external_type_specification]
#[verifier::external_body]
pub struct ExParseError(chrono::ParseError);

/// An instant in UTC: whole non-leap seconds since 1970-01-01T00:00:00Z and
/// the nanoseconds since the last whole second. During a leap second
/// `nanos` runs from 1,000,000,000 on, so instants are ordered by `secs`
/// first and by `nanos` within one second.
#[derive(Clone, Copy, Debug, PartialEq, Eq, Structural)]
pub struct Timestamp {
    pub secs: i64,
    pub nanos: u32,
}

impl DeepView for Timestamp {
    type V = Timestamp;

    open spec fn deep_view(&self) -> Timestamp {
        *self
    }
}

impl Timestamp {
    /// `self` is the same instant as `other` or an earlier one.
    pub open spec fn at_or_before(self, other: Timestamp) -> bool {
        self.secs < other.secs || (self.secs == other.secs && self.nanos <= other.nanos)
    }

    /// Whether `self` is the same instant as `other` or an earlier one.
    pub fn is_at_or_before(&self, other: &Timestamp) -> (r: bool)
        ensures
            r == self.at_or_before(*other),
    {
        self.secs < other.secs || (self.secs == other.secs && self.nanos <= other.nanos)
    }
}

/// The instant, as seconds and nanoseconds, that a text denotes in the
/// relaxed RFC 3339 form that the store's timestamps are read in, or `None`
/// for any other text.
pub uninterp spec fn datetime_parse(text: Seq<char>) -> Option<(i64, u32)>;

/// Calls `FromStr` of `chrono::DateTime<Utc>` and hands back the instant as
/// `DateTime::timestamp` and `DateTime::timestamp_subsec_nanos` give it. The
/// result is `Ok` exactly on the texts that `datetime_parse` accepts, with
/// the instant it names.
#[verifier::external_body]
pub(crate) fn parse_datetime(text: &str) -> (r: Result<Timestamp, chrono::ParseError>)
    ensures
        r is Ok <==> datetime_parse(text@) is Some,
        r matches Ok(t) ==> datetime_parse(text@) == Some((t.secs, t.nanos)),
{
    match text.parse::<chrono::DateTime<chrono::Utc>>() {
        Ok(at) => Ok(Timestamp { secs: at.timestamp(), nanos: at.timestamp_subsec_nanos() }),
        Err(e) => Err(e),
    }
}

/// Reads the clock with `chrono::Utc::now` and writes the instant with
/// `DateTime::to_rfc3339`. Which instant it is depends on the moment of
/// the call; whichever it is, the text is one that `FromStr` of
/// `DateTime<Utc>` reads: the date, `T`, the time with a fraction of 0, 3,
/// 6 or 9 digits and the offset `+00:00`, the year signed where it has
/// more than four digits. `Utc::now` panics where the system clock stands
/// before 1970.
#[verifier::external_body]
pub(crate) fn now_rfc3339() -> (text: String)
    ensures
        datetime_parse(text@) is Some,
{
    chrono::Utc::now().to_rfc3339()
}

} // verus!
