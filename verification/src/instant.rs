use vstd::prelude::*;

verus! {

/// Milliseconds since the Unix epoch of the earliest four-digit-year RFC 3339
/// instant, "0000-01-01T00:00:00Z".
pub const MIN_INSTANT_MILLIS: i64 = -62_167_219_200_000;

/// Milliseconds since the Unix epoch of the latest whole-millisecond
/// four-digit-year RFC 3339 instant, "9999-12-31T23:59:59.999Z".
pub const MAX_INSTANT_MILLIS: i64 = 253_402_300_799_999;

/// A timezone-normalized (UTC) instant, counted in milliseconds since the
/// Unix epoch. This is the data model for both persisted timestamps: the
/// liveness heartbeat and the last power-resumed instant.
#[derive(Clone, Copy, PartialEq, Eq, Structural, Debug)]
pub struct Instant {
    pub millis: i64,
}

impl Instant {
    /// Well-formedness: the instant lies in the range that a four-digit-year
    /// RFC 3339 string can denote, so it survives a round trip through the
    /// store's string encoding and all differences of two valid instants fit
    /// comfortably in `i64`.
    pub open spec fn valid(self) -> bool {
        MIN_INSTANT_MILLIS <= self.millis <= MAX_INSTANT_MILLIS
    }

    /// Constructs a valid instant from a raw millisecond count, rejecting
    /// counts outside the RFC 3339 range.
    pub fn from_millis(ms: i64) -> (r: Option<Instant>)
        ensures
            r == (if MIN_INSTANT_MILLIS <= ms <= MAX_INSTANT_MILLIS {
                Some(Instant { millis: ms })
            } else {
                None::<Instant>
            }),
            r matches Some(t) ==> t.valid(),
    {
        if MIN_INSTANT_MILLIS <= ms && ms <= MAX_INSTANT_MILLIS {
            Some(Instant { millis: ms })
        } else {
            None
        }
    }
}

} // verus!
