use vstd::prelude::*;

verus! {

/// Largest magnitude, in whole seconds, that a resolved UTC offset can have:
/// 25 hours, 59 minutes and 59 seconds, the range the platform can report.
pub const OFFSET_SECONDS_MAX: i32 = 93599;

/// A fixed signed offset from UTC, in whole seconds. East of UTC is positive,
/// west is negative. Immutable once produced.
#[derive(Clone, Copy, Debug, PartialEq, Eq, Structural)]
pub struct ResolvedOffset {
    pub seconds: i32,
}

impl ResolvedOffset {
    /// The offset in whole seconds, as a mathematical integer.
    pub open spec fn as_seconds(self) -> int {
        self.seconds as int
    }

    /// Well-formed: within the range the platform can report.
    pub open spec fn wf(self) -> bool {
        -(OFFSET_SECONDS_MAX as int) <= self.as_seconds() <= OFFSET_SECONDS_MAX as int
    }

    /// The offset representing UTC itself.
    pub fn utc() -> (r: ResolvedOffset)
        ensures
            r.as_seconds() == 0,
            r.wf(),
    {
        ResolvedOffset { seconds: 0 }
    }

    /// Builds an offset from a number of whole seconds; `None` exactly when
    /// the magnitude exceeds what the platform can report.
    pub fn from_whole_seconds(seconds: i32) -> (r: Option<ResolvedOffset>)
        ensures
            r is Some <==> -(OFFSET_SECONDS_MAX as int) <= seconds as int
                <= OFFSET_SECONDS_MAX as int,
            r is Some ==> r->0 == (ResolvedOffset { seconds }) && r->0.wf(),
    {
        if -OFFSET_SECONDS_MAX <= seconds && seconds <= OFFSET_SECONDS_MAX {
            Some(ResolvedOffset { seconds })
        } else {
            None
        }
    }

    /// The offset in whole seconds.
    pub fn whole_seconds(&self) -> (r: i32)
        ensures
            r as int == self.as_seconds(),
    {
        self.seconds
    }
}

} // verus!
