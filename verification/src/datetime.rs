use vstd::prelude::*;

use crate::error::IndeterminateOffsetError;
use crate::offset::OFFSET_SECONDS_MAX;
use crate::offset::ResolvedOffset;
use crate::platform::query_local_offset_at;

verus! {

/// Smallest Unix timestamp a `DateTime` can represent (the first second of
/// the year -9999, the earliest calendar date the platform supports).
pub const UNIX_TIMESTAMP_MIN: i64 = -377705116800;

/// Largest Unix timestamp a `DateTime` can represent (the last second of the
/// year 9999, the latest calendar date the platform supports).
pub const UNIX_TIMESTAMP_MAX: i64 = 253402300799;

/// An instant together with the UTC offset it is displayed in.
///
/// `unix_timestamp` fixes the instant (seconds since the Unix epoch, at UTC);
/// `offset` only fixes the wall-clock representation. Changing the offset
/// never changes the instant.
#[derive(Clone, Copy, Debug, PartialEq, Eq, Structural)]
pub struct DateTime {
    pub unix_timestamp: i64,
    pub offset: ResolvedOffset,
}

/// What `to_offset` returns: the same instant, displayed in the given offset.
pub open spec fn to_offset_spec(dt: DateTime, offset: ResolvedOffset) -> DateTime {
    DateTime { unix_timestamp: dt.unix_timestamp, offset }
}

impl DateTime {
    /// The wall-clock reading, in seconds: the instant shifted by the
    /// recorded offset.
    pub open spec fn wall_clock_seconds(self) -> int {
        self.unix_timestamp + self.offset.as_seconds()
    }

    /// Well-formed: the offset is in range and the wall-clock reading falls
    /// on a representable calendar date.
    pub open spec fn wf(self) -> bool {
        &&& self.offset.wf()
        &&& UNIX_TIMESTAMP_MIN as int <= self.wall_clock_seconds()
            <= UNIX_TIMESTAMP_MAX as int
    }

    /// Builds a `DateTime` at UTC from a Unix timestamp; `None` exactly when
    /// the timestamp falls outside the representable calendar range.
    pub fn from_unix_timestamp(timestamp: i64) -> (r: Option<DateTime>)
        ensures
            r is Some <==> UNIX_TIMESTAMP_MIN <= timestamp <= UNIX_TIMESTAMP_MAX,
            r is Some ==> r->0 == (DateTime {
                unix_timestamp: timestamp,
                offset: ResolvedOffset { seconds: 0 },
            }) && r->0.wf(),
    {
        if UNIX_TIMESTAMP_MIN <= timestamp && timestamp <= UNIX_TIMESTAMP_MAX {
            Some(DateTime { unix_timestamp: timestamp, offset: ResolvedOffset { seconds: 0 } })
        } else {
            None
        }
    }

    /// The same instant, displayed in the given offset. The instant is kept;
    /// only the wall-clock representation moves, by exactly the difference of
    /// the offsets.
    pub fn to_offset(self, offset: ResolvedOffset) -> (r: DateTime)
        requires
            offset.wf(),
            UNIX_TIMESTAMP_MIN as int <= self.unix_timestamp + offset.as_seconds()
                <= UNIX_TIMESTAMP_MAX as int,
        ensures
            r == to_offset_spec(self, offset),
            r.wf(),
    {
        DateTime { unix_timestamp: self.unix_timestamp, offset }
    }

    /// Queries the platform for the local offset at this instant and displays
    /// the instant in it. A fresh, non-cached query: only meaningful from a
    /// single-threaded context. Fails exactly when the environment does not
    /// determine an offset; whatever offset the environment yields, the
    /// instant is kept.
    pub fn to_local(self) -> (r: Result<DateTime, IndeterminateOffsetError>)
        requires
            UNIX_TIMESTAMP_MIN + OFFSET_SECONDS_MAX <= self.unix_timestamp
                <= UNIX_TIMESTAMP_MAX - OFFSET_SECONDS_MAX,
        ensures
            r matches Ok(d) ==> {
                &&& d.unix_timestamp == self.unix_timestamp
                &&& d.wf()
            },
    {
        match query_local_offset_at(self.unix_timestamp) {
            Ok(offset) => Ok(self.to_offset(offset)),
            Err(e) => Err(e),
        }
    }
}

/// Round trip: displaying an instant `dt` in an offset `o` keeps the instant,
/// records exactly `o`, and moves the wall-clock reading to the instant plus
/// `o`.
pub proof fn lemma_round_trip(dt: DateTime, o: ResolvedOffset)
    ensures
        to_offset_spec(dt, o).unix_timestamp == dt.unix_timestamp,
        to_offset_spec(dt, o).offset == o,
        to_offset_spec(dt, o).wall_clock_seconds() == dt.unix_timestamp + o.as_seconds(),
{
}

} // verus!
