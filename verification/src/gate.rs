use vstd::prelude::*;

use crate::cache::OffsetCache;
use crate::cache::QueryOutcome;
use crate::datetime::DateTime;
use crate::datetime::UNIX_TIMESTAMP_MAX;
use crate::datetime::UNIX_TIMESTAMP_MIN;
use crate::datetime::to_offset_spec;
use crate::error::IndeterminateOffsetError;
use crate::offset::ResolvedOffset;
use crate::platform::query_local_offset;

verus! {

/// The result of one initialization attempt.
///
/// `AlreadyInitialized` is the double-initialization contract violation: a
/// caller that receives it must treat it as an unrecoverable fault (see
/// `utc_offset_init_error`), never as a recoverable error.
#[derive(Clone, Copy, Debug, PartialEq, Eq, Structural)]
pub enum InitOutcome {
    /// This call populated the cache with a freshly queried offset.
    Initialized,
    /// The platform query failed; the cache is unchanged and a later retry
    /// may succeed.
    QueryFailed(IndeterminateOffsetError),
    /// The cache was already populated by an earlier successful
    /// initialization; it is unchanged.
    AlreadyInitialized,
}

/// The public initialization and read API over the write-once cache.
///
/// Policy: explicit one-time initialization that fails hard on misuse.
/// `init` queries the platform once; on success the offset is cached, on
/// failure the cache stays empty so that a retry is possible. Reading the
/// cached offset before a successful `init`, and a second `init` after a
/// successful one, are contract violations: the checked operations report
/// them as distinct outcomes that callers turn into the fault of
/// `utc_offset_init_error`, and the unchecked operations exclude them by
/// precondition.
pub struct InitGate {
    cache: OffsetCache,
}

impl View for InitGate {
    type V = Option<ResolvedOffset>;

    /// The successfully cached offset, if any.
    closed spec fn view(&self) -> Option<ResolvedOffset> {
        match self.cache@ {
            Some(Ok(o)) => Some(o),
            _ => None,
        }
    }
}

impl InitGate {
    /// Only successful, in-range query outcomes are ever cached — a failed
    /// query leaves nothing cached.
    #[verifier::type_invariant]
    spec fn wf(self) -> bool {
        self.cache@ matches Some(outcome) ==> outcome matches Ok(o) && o.wf()
    }

    /// A fresh gate with nothing cached.
    pub fn new() -> (g: InitGate)
        ensures
            g@ is None,
    {
        InitGate { cache: OffsetCache::new() }
    }

    /// The policy step applied to the outcome of one platform query, exact
    /// for every outcome: a failed query changes nothing and is reported as
    /// `QueryFailed`; a successful query populates an empty cache
    /// (`Initialized`) and leaves a populated one untouched
    /// (`AlreadyInitialized`, the double-initialization fault).
    pub fn apply_init(&mut self, outcome: QueryOutcome) -> (r: InitOutcome)
        requires
            outcome matches Ok(o) ==> o.wf(),
        ensures
            outcome matches Err(e) ==> r == InitOutcome::QueryFailed(e) && final(self)@ == old(self)@,
            outcome matches Ok(o) ==> (old(self)@ is None ==> r == InitOutcome::Initialized
                && final(self)@ == Some(o)),
            outcome is Ok && old(self)@ is Some ==> r == InitOutcome::AlreadyInitialized && final(self)@ == old(self)@,
    {
        proof {
            use_type_invariant(&*self);
        }
        match outcome {
            Err(e) => InitOutcome::QueryFailed(e),
            Ok(o) => {
                if self.cache.try_set(Ok(o)) {
                    InitOutcome::Initialized
                } else {
                    InitOutcome::AlreadyInitialized
                }
            },
        }
    }

    /// Queries the platform once and applies the policy step, reporting the
    /// double-initialization fault as data instead of requiring it away: an
    /// already populated gate is never changed and never reports
    /// `Initialized`; an empty gate is populated exactly when the query
    /// succeeds. Only safe to call while the process is effectively
    /// single-threaded.
    pub fn checked_init(&mut self) -> (r: InitOutcome)
        ensures
            r == InitOutcome::Initialized ==> old(self)@ is None && final(self)@ is Some && final(self)@->0.wf(),
            r matches InitOutcome::QueryFailed(_) ==> final(self)@ == old(self)@,
            r == InitOutcome::AlreadyInitialized ==> old(self)@ is Some && final(self)@ == old(self)@,
            old(self)@ is Some ==> final(self)@ == old(self)@,
            old(self)@ is None && r != InitOutcome::Initialized ==> final(self)@ is None,
    {
        let outcome = query_local_offset();
        self.apply_init(outcome)
    }

    /// One-time initialization: queries the platform once and caches the
    /// offset. Call exactly once, before spawning threads and before any
    /// read of the cached offset. Returns the query's own failure as an
    /// error, leaving nothing cached so that a retry stays possible; succeeds
    /// exactly when the query does, and then the queried offset is cached.
    pub fn init(&mut self) -> (r: Result<(), IndeterminateOffsetError>)
        requires
            old(self)@ is None,
        ensures
            r is Ok <==> final(self)@ is Some,
            r is Ok ==> final(self)@->0.wf(),
            r is Err ==> final(self)@ is None,
    {
        match self.checked_init() {
            InitOutcome::QueryFailed(e) => Err(e),
            _ => Ok(()),
        }
    }

    /// The cached offset. Precondition: a successful `init` has already
    /// happened — reading earlier is the contract violation that
    /// `utc_offset_init_error` describes, and is excluded here. Always
    /// returns exactly the one cached offset, never a default.
    pub fn cached_local_offset(&self) -> (r: ResolvedOffset)
        requires
            self@ is Some,
        ensures
            r == self@->0,
            r.wf(),
    {
        proof {
            use_type_invariant(self);
        }
        match self.cache.peek() {
            Some(Ok(o)) => o,
            _ => vstd::pervasive::unreached(),
        }
    }

    /// Non-faulting read: the cached offset, or `None` while no successful
    /// `init` has happened. Callers that must fail hard turn `None` into the
    /// fault of `utc_offset_init_error`.
    pub fn peek_cached(&self) -> (r: Option<ResolvedOffset>)
        ensures
            r == self@,
            r matches Some(o) ==> o.wf(),
    {
        proof {
            use_type_invariant(self);
        }
        match self.cache.peek() {
            Some(Ok(o)) => Some(o),
            _ => None,
        }
    }

    /// Displays an instant in the cached offset: the instant is kept and the
    /// cached offset is recorded, so the wall-clock reading is the instant
    /// plus the cached offset. Requires a successful `init`, and an instant
    /// whose wall-clock reading stays on a representable calendar date.
    pub fn to_local_cached(&self, dt: DateTime) -> (r: DateTime)
        requires
            self@ is Some,
            UNIX_TIMESTAMP_MIN as int <= dt.unix_timestamp + self@->0.as_seconds()
                <= UNIX_TIMESTAMP_MAX as int,
        ensures
            r == to_offset_spec(dt, self@->0),
            r.unix_timestamp == dt.unix_timestamp,
            r.offset == self@->0,
            r.wall_clock_seconds() == dt.unix_timestamp + self@->0.as_seconds(),
    {
        proof {
            use_type_invariant(self);
        }
        let offset = self.cached_local_offset();
        dt.to_offset(offset)
    }
}

/// Reads agree: any two reads of a populated gate see the same cached
/// offset, bit for bit — the value a read returns is a function of the
/// gate's state alone.
pub proof fn lemma_reads_agree(g: InitGate, first: ResolvedOffset, second: ResolvedOffset)
    requires
        g@ is Some,
        first == g@->0,
        second == g@->0,
    ensures
        first == second,
{
}

/// The fixed message of the contract-violation fault: reading the cached
/// offset with no prior successful `init`, or initializing twice. Misuse of
/// the one-time-initialization contract, unlike a failed query, must not be
/// reported as a recoverable error: a caller that went on would read a
/// logically undefined offset.
pub open spec fn init_fault_message() -> Seq<char> {
    "call `time_local::init()` once during application initialization before spawning threads"@
}

/// The message carried by the contract-violation fault. Unverified callers
/// panic with exactly this message when they detect a read before a
/// successful `init` or a second `init` after a successful one.
pub fn utc_offset_init_error() -> (m: String)
    ensures
        m@ == init_fault_message(),
{
    String::from_str(
        "call `time_local::init()` once during application initialization before spawning threads",
    )
}

} // verus!
