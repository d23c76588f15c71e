use vstd::prelude::*;

verus! {

/// A point in time: nanoseconds since 1970-01-01 00:00:00 UTC, leap seconds
/// not counted. Later instants have larger values.
#[derive(Clone, Copy, Debug, PartialEq, Eq, Structural)]
pub struct Timestamp {
    pub nanos: i64,
}

/// The text that `chrono` prints for the UTC date and time that lies `nanos`
/// nanoseconds after the epoch, such as `2022-09-11 18:34:48 UTC`.
pub uninterp spec fn timestamp_text(nanos: i64) -> Seq<char>;

impl Timestamp {
    pub fn new(nanos: i64) -> (t: Timestamp)
        ensures
            t.nanos == nanos,
    {
        Timestamp { nanos }
    }

    /// True when `self` is strictly later than `other`.
    pub fn is_after(&self, other: &Timestamp) -> (b: bool)
        ensures
            b == (self.nanos > other.nanos),
    {
        self.nanos > other.nanos
    }

    /// Calls `chrono::DateTime::<Utc>::from_timestamp_nanos`, which accepts
    /// every `i64`, and prints the result with its `Display` impl. The
    /// contract claims only that the text is a function of the instant.
    #[verifier::external_body]
    fn text(&self) -> (s: String)
        ensures
            s@ == timestamp_text(self.nanos),
    {
        chrono::DateTime::<chrono::Utc>::from_timestamp_nanos(self.nanos).to_string()
    }

    /// The latest instant that a `Timestamp` can hold.
    pub open spec fn latest() -> Timestamp {
        Timestamp { nanos: i64::MAX }
    }

    /// The earliest instant that a `Timestamp` can hold.
    pub open spec fn earliest() -> Timestamp {
        Timestamp { nanos: i64::MIN }
    }

    /// The instant that lies `nanos` nanoseconds after the epoch, or the
    /// instant nearest to it that a `Timestamp` can hold.
    pub open spec fn clamped(nanos: int) -> Timestamp {
        if nanos > i64::MAX {
            Timestamp::latest()
        } else if nanos < i64::MIN {
            Timestamp::earliest()
        } else {
            Timestamp { nanos: nanos as i64 }
        }
    }

    /// The instant that lies `secs` seconds and `subsec_nanos` nanoseconds
    /// after the epoch. An instant too early to hold becomes the earliest
    /// that a `Timestamp` can hold, one too late the latest.
    pub fn from_parts(secs: i64, subsec_nanos: u32) -> (t: Timestamp)
        ensures
            t == Timestamp::clamped(secs * 1_000_000_000 + subsec_nanos),
    {
        let total: i128 = secs as i128 * 1_000_000_000 + subsec_nanos as i128;
        if total > i64::MAX as i128 {
            Timestamp { nanos: i64::MAX }
        } else if total < i64::MIN as i128 {
            Timestamp { nanos: i64::MIN }
        } else {
            Timestamp { nanos: total as i64 }
        }
    }

    /// The instant of a clock reading of `nanos` nanoseconds after the
    /// epoch; the latest instant that a `Timestamp` can hold when the clock
    /// is past it and so gives no count.
    pub fn saturating(nanos: Option<i64>) -> (t: Timestamp)
        ensures
            t == match nanos {
                Some(n) => Timestamp { nanos: n },
                None => Timestamp::latest(),
            },
    {
        match nanos {
            Some(n) => Timestamp { nanos: n },
            None => Timestamp { nanos: i64::MAX },
        }
    }

    /// What the system clock shows; the latest instant that a `Timestamp`
    /// can hold when the clock is past it.
    pub fn now() -> Timestamp {
        Timestamp::saturating(clock_nanos())
    }

    /// The instant as the text of its date and time in UTC.
    pub fn to_text(&self) -> (s: String)
        ensures
            s@ == timestamp_text(self.nanos),
    {
        self.text()
    }
}

/// Reads the system clock through `chrono::Utc::now` and
/// `DateTime::timestamp_nanos_opt`, which gives `None` for a date outside the
/// range of 64 bits of nanoseconds. Nothing is claimed of the value: it
/// differs from call to call.
#[verifier::external_body]
fn clock_nanos() -> Option<i64> {
    chrono::Utc::now().timestamp_nanos_opt()
}

} // verus!
