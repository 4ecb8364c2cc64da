use vstd::prelude::*;

verus! {

/// The environment does not unambiguously determine a local offset, for
/// example because the timezone configuration is missing or conflicting.
///
/// This is the only data-level failure in the crate. It is always returned as
/// a recoverable result; it never signals misuse of the API. Contract
/// violations (reading the cache before a successful initialization, or
/// initializing twice) are a separate fault channel, see
/// `gate::utc_offset_init_error`.
#[derive(Clone, Copy, Debug, PartialEq, Eq, Structural)]
pub struct IndeterminateOffsetError;

impl IndeterminateOffsetError {
    /// A short description of the failure, for reporting to an end user.
    pub fn message(&self) -> (m: String)
        ensures
            m@ == "the local UTC offset could not be determined"@,
    {
        String::from_str("the local UTC offset could not be determined")
    }
}

} // verus!
