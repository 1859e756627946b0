//! Durations and instants, counted in whole nanoseconds.

use vstd::prelude::*;

verus! {

/// Nanoseconds in one millisecond.
pub const NANOS_PER_MILLI: u128 = 1_000_000;

/// Nanoseconds in one second.
pub const NANOS_PER_SEC: u128 = 1_000_000_000;

/// No `Latency` is as long as this many nanoseconds: 2 to the power 96,
/// more than a 64-bit count of seconds can span.
pub const LATENCY_LIMIT: u128 = 0x1_0000_0000_0000_0000_0000_0000;

/// A non-negative span of time.
///
/// Its view is the number of nanoseconds it lasts.
#[derive(Clone, Copy, Debug, PartialEq, Eq, Structural)]
pub struct Latency {
    nanos: u128,
}

impl View for Latency {
    type V = nat;

    closed spec fn view(&self) -> nat {
        self.nanos as nat
    }
}

impl Latency {
    #[verifier::type_invariant]
    spec fn within_limit(self) -> bool {
        self.nanos < LATENCY_LIMIT
    }

    /// The span of `nanos` nanoseconds.
    pub fn from_nanos(nanos: u64) -> (span: Latency)
        ensures
            span@ == nanos,
    {
        Latency { nanos: nanos as u128 }
    }

    /// The span of `millis` milliseconds.
    pub fn from_millis(millis: u64) -> (span: Latency)
        ensures
            span@ == millis * NANOS_PER_MILLI,
    {
        Latency { nanos: (millis as u128) * NANOS_PER_MILLI }
    }

    /// The span of `secs` whole seconds and `subsec_nanos` further
    /// nanoseconds.
    pub fn from_secs_nanos(secs: u64, subsec_nanos: u32) -> (span: Latency)
        ensures
            span@ == secs * NANOS_PER_SEC + subsec_nanos,
    {
        Latency { nanos: (secs as u128) * NANOS_PER_SEC + (subsec_nanos as u128) }
    }

    /// The length of the span in nanoseconds.
    pub fn as_nanos(&self) -> (nanos: u128)
        ensures
            nanos == self@,
            nanos < LATENCY_LIMIT,
    {
        proof {
            use_type_invariant(self);
        }
        self.nanos
    }
}

/// The calendar's text for the instant `secs` seconds and `nanos`
/// nanoseconds after the Unix epoch (date, time of day and zone name), or
/// `None` where the calendar has no date for it.
pub uninterp spec fn utc_text(secs: i64, nanos: u32) -> Option<Seq<char>>;

/// Asks `chrono::DateTime::from_timestamp` whether it has a `DateTime<Utc>`
/// for the given seconds and nanoseconds.
///
/// Trusted: the answer depends on the two numbers alone, and it is yes
/// exactly where `utc_text` names a text. Nothing is claimed about which
/// numbers are accepted.
#[verifier::external_body]
fn calendar_accepts(secs: i64, nanos: u32) -> (accepted: bool)
    ensures
        accepted == utc_text(secs, nanos).is_some(),
{
    chrono::DateTime::from_timestamp(secs, nanos).is_some()
}

/// Builds a `chrono::DateTime<Utc>` with `chrono::DateTime::from_timestamp`
/// and formats it with the type's `Display` impl.
///
/// Trusted: the outcome depends on the two numbers alone, and is what
/// `utc_text` names: no text where `from_timestamp` refuses the numbers,
/// else the formatted instant.
#[verifier::external_body]
fn calendar_text(secs: i64, nanos: u32) -> (text: Option<String>)
    ensures
        text matches Some(written) ==> utc_text(secs, nanos) == Some(written@),
        text is None ==> utc_text(secs, nanos) is None,
{
    match chrono::DateTime::from_timestamp(secs, nanos) {
        Some(instant) => Some(instant.to_string()),
        None => None,
    }
}

/// An instant on the UTC time line that the calendar can name.
#[derive(Clone, Copy, Debug)]
pub struct Timestamp {
    secs: i64,
    subsec_nanos: u32,
}

impl Timestamp {
    #[verifier::type_invariant]
    spec fn well_formed(self) -> bool {
        &&& self.subsec_nanos < NANOS_PER_SEC
        &&& utc_text(self.secs, self.subsec_nanos) is Some
    }

    /// Whole seconds between the Unix epoch and the instant; negative
    /// before the epoch.
    pub closed spec fn spec_secs(self) -> i64 {
        self.secs
    }

    /// Nanoseconds between the last whole second and the instant.
    pub closed spec fn spec_subsec_nanos(self) -> u32 {
        self.subsec_nanos
    }

    /// Nanoseconds between the Unix epoch and the instant.
    pub open spec fn nanos_since_epoch(self) -> int {
        self.spec_secs() * NANOS_PER_SEC + self.spec_subsec_nanos()
    }

    /// The calendar's text for the instant.
    pub open spec fn spec_text(self) -> Seq<char> {
        utc_text(self.spec_secs(), self.spec_subsec_nanos()).unwrap()
    }

    /// The instant `secs` seconds and `subsec_nanos` nanoseconds after the
    /// Unix epoch, if `subsec_nanos` is less than a second and the calendar
    /// reaches that far.
    pub fn new(secs: i64, subsec_nanos: u32) -> (made: Option<Timestamp>)
        ensures
            made is Some <==> subsec_nanos < NANOS_PER_SEC && utc_text(
                secs,
                subsec_nanos,
            ) is Some,
            made matches Some(instant) ==> instant.spec_secs() == secs
                && instant.spec_subsec_nanos() == subsec_nanos,
    {
        if subsec_nanos < 1_000_000_000 && calendar_accepts(secs, subsec_nanos) {
            Some(Timestamp { secs, subsec_nanos })
        } else {
            None
        }
    }

    /// Whole seconds between the Unix epoch and the instant.
    pub fn secs(&self) -> (secs: i64)
        ensures
            secs == self.spec_secs(),
    {
        self.secs
    }

    /// Nanoseconds between the last whole second and the instant.
    pub fn subsec_nanos(&self) -> (nanos: u32)
        ensures
            nanos == self.spec_subsec_nanos(),
            nanos < NANOS_PER_SEC,
    {
        proof {
            use_type_invariant(self);
        }
        self.subsec_nanos
    }

    fn total_nanos(&self) -> (total: i128)
        ensures
            total == self.nanos_since_epoch(),
    {
        (self.secs as i128) * 1_000_000_000 + (self.subsec_nanos as i128)
    }

    /// Whether the instant is no later than `other`.
    pub fn not_after(&self, other: &Timestamp) -> (holds: bool)
        ensures
            holds == (self.nanos_since_epoch() <= other.nanos_since_epoch()),
    {
        self.total_nanos() <= other.total_nanos()
    }

    /// The time from `earlier` to the instant, or `None` where `earlier`
    /// comes after it.
    pub fn elapsed_since(&self, earlier: &Timestamp) -> (elapsed: Option<Latency>)
        ensures
            elapsed is Some <==> earlier.nanos_since_epoch() <= self.nanos_since_epoch(),
            elapsed matches Some(span) ==> span@ == self.nanos_since_epoch()
                - earlier.nanos_since_epoch(),
    {
        let from: i128 = earlier.total_nanos();
        let to: i128 = self.total_nanos();
        if from <= to {
            Some(Latency { nanos: (to - from) as u128 })
        } else {
            None
        }
    }

    /// The calendar's text for the instant.
    pub fn text(&self) -> (text: String)
        ensures
            text@ == self.spec_text(),
    {
        proof {
            use_type_invariant(self);
        }
        calendar_text(self.secs, self.subsec_nanos).unwrap()
    }
}

} // verus!
