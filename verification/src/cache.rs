use vstd::prelude::*;

use crate::error::IndeterminateOffsetError;
use crate::offset::ResolvedOffset;

verus! {

/// The result of asking the platform for the local offset at a moment when it
/// is safe to ask: either a resolved offset, or the environment did not
/// determine one.
pub type QueryOutcome = Result<ResolvedOffset, IndeterminateOffsetError>;

/// Write-once storage for at most one query outcome.
///
/// The slot starts empty, is populated at most once, never reverts to empty,
/// and an occupied slot is never overwritten with a different value. Every
/// read of an occupied slot returns the one stored outcome, so the single
/// unsafe-to-repeat platform query is amortized into a constant.
pub struct OffsetCache {
    slot: Option<QueryOutcome>,
}

/// What `get_or_init` leaves in the slot: an occupied slot is kept, an empty
/// one is populated with the fresh outcome.
pub open spec fn get_or_init_state(
    slot: Option<QueryOutcome>,
    fresh: QueryOutcome,
) -> Option<QueryOutcome> {
    if slot is Some {
        slot
    } else {
        Some(fresh)
    }
}

/// What `get_or_init` returns: the stored outcome of an occupied slot, the
/// fresh outcome otherwise.
pub open spec fn get_or_init_result(
    slot: Option<QueryOutcome>,
    fresh: QueryOutcome,
) -> QueryOutcome {
    if slot is Some {
        slot->0
    } else {
        fresh
    }
}

impl View for OffsetCache {
    type V = Option<QueryOutcome>;

    closed spec fn view(&self) -> Option<QueryOutcome> {
        self.slot
    }
}

impl OffsetCache {
    /// A fresh, empty cache.
    pub fn new() -> (c: OffsetCache)
        ensures
            c@ is None,
    {
        OffsetCache { slot: None }
    }

    /// Non-populating read: the stored outcome, or `None` while the slot is
    /// still empty. Distinguishes "not yet initialized" from "initialized but
    /// failed".
    pub fn peek(&self) -> (r: Option<QueryOutcome>)
        ensures
            r == self@,
    {
        self.slot
    }

    /// Attempts to populate an empty slot; returns whether this call was the
    /// one that populated it. An occupied slot is left exactly as it was.
    pub fn try_set(&mut self, outcome: QueryOutcome) -> (r: bool)
        ensures
            r == (old(self)@ is None),
            old(self)@ is None ==> final(self)@ == Some(outcome),
            old(self)@ is Some ==> final(self)@ == old(self)@,
        no_unwind
    {
        match self.slot {
            None => {
                self.slot = Some(outcome);
                true
            },
            Some(_) => false,
        }
    }

    /// If the slot is empty, runs `query` exactly once and stores its
    /// outcome; otherwise `query` is not run. Either way, returns the stored
    /// outcome, so every caller sees the outcome of the single query that
    /// populated the slot — a failed query is cached as-is.
    pub fn get_or_init<F: FnOnce() -> QueryOutcome>(&mut self, query: F) -> (r: QueryOutcome)
        requires
            old(self)@ is None ==> call_requires(query, ()),
        ensures
            final(self)@ == get_or_init_state(old(self)@, r),
            r == get_or_init_result(old(self)@, r),
            old(self)@ is None ==> call_ensures(query, (), r),
    {
        match self.slot {
            Some(outcome) => outcome,
            None => {
                let outcome = query();
                self.slot = Some(outcome);
                outcome
            },
        }
    }
}

/// Single population: once an empty slot has been populated with an outcome,
/// that population returned the outcome, and every later `get_or_init` —
/// whatever fresh outcome it could produce — returns the same stored outcome
/// and leaves the slot unchanged. All readers therefore see one identical
/// outcome.
pub proof fn lemma_single_population(first: QueryOutcome, later: QueryOutcome)
    ensures
        get_or_init_result(None::<QueryOutcome>, first) == first,
        get_or_init_state(None::<QueryOutcome>, first) == Some(first),
        get_or_init_result(Some(first), later) == first,
        get_or_init_state(Some(first), later) == Some(first),
{
}

/// Failure caching: if the one query failed, every later `get_or_init`
/// returns that same failure and does not replace it, whatever a retry could
/// have produced.
pub proof fn lemma_failure_cached(e: IndeterminateOffsetError, retry: QueryOutcome)
    ensures
        get_or_init_result(Some(Err(e)), retry) == Err::<ResolvedOffset, _>(e),
        get_or_init_state(Some(Err(e)), retry) == Some(Err::<ResolvedOffset, _>(e)),
{
}

} // verus!
