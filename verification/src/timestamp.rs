//! Instants of the service, at nanosecond precision, in the range that
//! `time::OffsetDateTime` represents.

use vstd::prelude::*;
use crate::boundary::{
    MIN_TIMESTAMP_NANOS, MAX_TIMESTAMP_NANOS, now_utc_nanos, offset_date_time_to_text,
    offset_date_time_text,
};

verus! {

/// An instant, as nanoseconds since the Unix epoch (UTC).
#[derive(Debug, Clone, Copy, PartialEq, Eq)]
pub struct Timestamp {
    nanos: i128,
}

/// Whether `n` nanoseconds after the epoch lies in the represented range.
pub open spec fn representable(n: int) -> bool {
    MIN_TIMESTAMP_NANOS <= n <= MAX_TIMESTAMP_NANOS
}

impl Timestamp {
    #[verifier::type_invariant]
    spec fn in_range(self) -> bool {
        representable(self.nanos as int)
    }

    /// Nanoseconds since the Unix epoch.
    pub closed spec fn nanos(self) -> int {
        self.nanos as int
    }

    /// The current instant, read from the system clock.
    pub fn now() -> (t: Self)
        ensures
            representable(t.nanos()),
    {
        let n = now_utc_nanos();
        Timestamp { nanos: n }
    }

    /// The instant `n` nanoseconds after the epoch, if it is representable.
    pub fn from_unix_nanos(n: i128) -> (r: Option<Self>)
        ensures
            r is Some <==> representable(n as int),
            r matches Some(t) ==> t.nanos() == n,
    {
        if MIN_TIMESTAMP_NANOS <= n && n <= MAX_TIMESTAMP_NANOS {
            Some(Timestamp { nanos: n })
        } else {
            None
        }
    }

    /// Nanoseconds since the Unix epoch.
    pub fn unix_nanos(&self) -> (n: i128)
        ensures
            n == self.nanos(),
    {
        self.nanos
    }

    /// Whether this instant is strictly later than `other`.
    pub fn is_after(&self, other: &Self) -> (r: bool)
        ensures
            r == (self.nanos() > other.nanos()),
    {
        self.nanos > other.nanos
    }

    /// The instant as `time::OffsetDateTime`'s `Display` writes it.
    pub fn to_text(&self) -> (s: String)
        ensures
            s@ == offset_date_time_text(self.nanos() as i128),
    {
        proof {
            use_type_invariant(self);
        }
        let r = offset_date_time_to_text(self.nanos);
        r.unwrap()
    }
}

} // verus!
