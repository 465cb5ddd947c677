//! Protobuf-style timestamps: seconds since the Unix epoch plus a
//! nanosecond remainder, both bounded to the range the wire format allows
//! (years 0001 through 9999).

use vstd::prelude::*;

verus! {

/// Smallest seconds value a timestamp may hold (0001-01-01T00:00:00Z).
pub const TIMESTAMP_SECONDS_MIN: i64 = -62135596800;

/// Largest seconds value a timestamp may hold (9999-12-31T23:59:59Z).
pub const TIMESTAMP_SECONDS_MAX: i64 = 253402300799;

/// Largest nanosecond remainder: one short of a full second.
pub const TIMESTAMP_NANOS_MAX: i32 = 999999999;

/// Nanoseconds in one second.
pub const NANOS_PER_SECOND: u64 = 1000000000;

/// Seconds and nanoseconds exactly as they arrived on the wire, not yet
/// checked against the allowed range.
#[derive(Clone, Copy, PartialEq, Eq, Structural, Debug)]
pub struct RawTimestamp {
    pub seconds: i64,
    pub nanos: i32,
}

/// A timestamp whose fields are known to lie in the allowed range.
#[derive(Clone, Copy, PartialEq, Eq, Structural, Debug, Hash)]
pub struct Timestamp {
    pub seconds: i64,
    pub nanos: i32,
}

/// A wire timestamp whose fields lie outside the allowed range.
#[derive(Clone, Copy, PartialEq, Eq, Structural, Debug)]
pub struct TryFromTimestampError {
    pub seconds: i64,
    pub nanos: i32,
}

impl Timestamp {
    /// Field bounds every [`Timestamp`] satisfies.
    pub open spec fn wf(&self) -> bool {
        &&& TIMESTAMP_SECONDS_MIN <= self.seconds <= TIMESTAMP_SECONDS_MAX
        &&& 0 <= self.nanos <= TIMESTAMP_NANOS_MAX
    }

    /// Whether a raw wire timestamp lies in the allowed range.
    pub open spec fn spec_in_range(raw: RawTimestamp) -> bool {
        &&& TIMESTAMP_SECONDS_MIN <= raw.seconds <= TIMESTAMP_SECONDS_MAX
        &&& 0 <= raw.nanos <= TIMESTAMP_NANOS_MAX
    }

    /// Validate a raw wire timestamp. Succeeds exactly when both fields lie
    /// in the allowed range, and then carries them over unchanged.
    pub fn try_from_raw(raw: RawTimestamp) -> (r: Result<Timestamp, TryFromTimestampError>)
        ensures
            Self::spec_in_range(raw) ==> r == Ok::<Timestamp, TryFromTimestampError>(Timestamp {
                seconds: raw.seconds,
                nanos: raw.nanos,
            }),
            !Self::spec_in_range(raw) ==> r == Err::<Timestamp, TryFromTimestampError>(
                TryFromTimestampError { seconds: raw.seconds, nanos: raw.nanos },
            ),
    {
        if TIMESTAMP_SECONDS_MIN <= raw.seconds && raw.seconds <= TIMESTAMP_SECONDS_MAX
            && 0 <= raw.nanos && raw.nanos <= TIMESTAMP_NANOS_MAX {
            Ok(Timestamp { seconds: raw.seconds, nanos: raw.nanos })
        } else {
            Err(TryFromTimestampError { seconds: raw.seconds, nanos: raw.nanos })
        }
    }

    /// Reconstruct a timestamp from a count of nanoseconds since the Unix
    /// epoch. Total: every `u64` count stays far below the year-9999 bound,
    /// so no input is rejected.
    pub fn from_unix_nanos(nanos: u64) -> (t: Timestamp)
        ensures
            t.seconds == nanos / NANOS_PER_SECOND,
            t.nanos == nanos % NANOS_PER_SECOND,
            t.wf(),
    {
        let seconds: u64 = nanos / NANOS_PER_SECOND;
        let rem: u64 = nanos % NANOS_PER_SECOND;
        proof {
            assert(seconds <= u64::MAX / NANOS_PER_SECOND) by (nonlinear_arith)
                requires
                    seconds == nanos / NANOS_PER_SECOND,
                    nanos <= u64::MAX,
                    NANOS_PER_SECOND == 1000000000,
            ;
        }
        Timestamp { seconds: seconds as i64, nanos: rem as i32 }
    }

    /// The count of whole nanoseconds since the Unix epoch, for timestamps
    /// at or after it whose count fits the word.
    pub fn as_unix_nanos(&self) -> (n: u64)
        requires
            self.wf(),
            self.seconds >= 0,
            self.seconds * NANOS_PER_SECOND + self.nanos <= u64::MAX,
        ensures
            n == self.seconds * NANOS_PER_SECOND + self.nanos,
    {
        proof {
            assert(self.seconds * NANOS_PER_SECOND >= 0) by (nonlinear_arith)
                requires
                    self.seconds >= 0,
                    NANOS_PER_SECOND == 1000000000,
            ;
        }
        (self.seconds as u64) * NANOS_PER_SECOND + (self.nanos as u64)
    }
}

} // verus!
