//! Moments in time as plain numbers, and the one format in which a request
//! names a moment.
use vstd::prelude::*;

verus! {

/// A moment in time: whole seconds since the epoch and the nanoseconds
/// within the second.
#[derive(Debug, Clone, Copy, PartialEq, Eq, Structural)]
pub struct Instant {
    pub secs: i64,
    pub nanos: u32,
}

/// Nanoseconds from `earlier` to `later`; negative if `later` comes first.
pub open spec fn elapsed_nanos(earlier: Instant, later: Instant) -> int {
    (later.secs - earlier.secs) * 1_000_000_000 + (later.nanos - earlier.nanos)
}

impl Instant {
    /// Whether this moment is `other` or comes before it.
    pub open spec fn at_or_before(self, other: Instant) -> bool {
        self.secs < other.secs || (self.secs == other.secs && self.nanos <= other.nanos)
    }

    /// Whether this moment is `other` or comes before it.
    pub fn is_at_or_before(&self, other: &Instant) -> (r: bool)
        ensures
            r == self.at_or_before(*other),
    {
        self.secs < other.secs || (self.secs == other.secs && self.nanos <= other.nanos)
    }
}

/// What `chrono` reads from `s` as an RFC 3339 date and time: the moment as
/// seconds since the epoch and nanoseconds, or the message of its error.
pub uninterp spec fn rfc3339_reading(s: Seq<char>) -> Result<(i64, u32), Seq<char>>;

/// `chrono::DateTime::parse_from_rfc3339`, the moment taken apart with
/// `timestamp` and `timestamp_subsec_nanos`, the error printed with
/// `to_string`: a function of the text alone.
#[verifier::external_body]
fn read_rfc3339(s: &str) -> (r: Result<(i64, u32), String>)
    ensures
        r is Ok <==> rfc3339_reading(s@) is Ok,
        r matches Ok(v) ==> rfc3339_reading(s@)->Ok_0 == v,
        r matches Err(m) ==> rfc3339_reading(s@)->Err_0 == m@,
{
    match chrono::DateTime::parse_from_rfc3339(s) {
        Ok(d) => Ok((d.timestamp(), d.timestamp_subsec_nanos())),
        Err(e) => Err(e.to_string()),
    }
}

/// The moment that `s` names in RFC 3339, or the reader's message.
pub open spec fn moment_of(s: Seq<char>) -> Result<Instant, Seq<char>> {
    match rfc3339_reading(s) {
        Ok((secs, nanos)) => Ok(Instant { secs, nanos }),
        Err(m) => Err(m),
    }
}

/// Reads a moment written in RFC 3339, such as `2020-04-12T22:10:57+02:00`.
pub fn parse_rfc3339(s: &str) -> (r: Result<Instant, String>)
    ensures
        r matches Ok(t) ==> moment_of(s@) == Ok::<Instant, Seq<char>>(t),
        r matches Err(m) ==> moment_of(s@) == Err::<Instant, Seq<char>>(m@),
{
    match read_rfc3339(s) {
        Ok((secs, nanos)) => Ok(Instant { secs, nanos }),
        Err(m) => Err(m),
    }
}

} // verus!
