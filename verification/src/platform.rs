use vstd::prelude::*;

use crate::datetime::UNIX_TIMESTAMP_MAX;
use crate::datetime::UNIX_TIMESTAMP_MIN;
use crate::error::IndeterminateOffsetError;
use crate::offset::ResolvedOffset;

verus! {

/// Relies on `time::UtcOffset::current_local_offset`: asks the operating
/// system for the local UTC offset now. The result depends on the process
/// environment, so nothing ties two calls together; on success the offset is
/// within the range `time::UtcOffset` can represent (25:59:59 in magnitude).
/// Only safe to call while the process is effectively single-threaded.
#[verifier::external_body]
pub(crate) fn query_local_offset() -> (r: Result<ResolvedOffset, IndeterminateOffsetError>)
    ensures
        r matches Ok(o) ==> o.wf(),
{
    match time::UtcOffset::current_local_offset() {
        Ok(o) => Ok(ResolvedOffset { seconds: o.whole_seconds() }),
        Err(_) => Err(IndeterminateOffsetError),
    }
}

/// Relies on `time::UtcOffset::local_offset_at`, with
/// `time::OffsetDateTime::from_unix_timestamp` building its argument: asks
/// the operating system for the local UTC offset at the given instant. The
/// result depends on the process environment, so nothing ties two calls
/// together; on success the offset is within the range `time::UtcOffset` can
/// represent (25:59:59 in magnitude). Only safe to call while the process is
/// effectively single-threaded.
#[verifier::external_body]
pub(crate) fn query_local_offset_at(unix_timestamp: i64) -> (r: Result<
    ResolvedOffset,
    IndeterminateOffsetError,
>)
    requires
        UNIX_TIMESTAMP_MIN <= unix_timestamp <= UNIX_TIMESTAMP_MAX,
    ensures
        r matches Ok(o) ==> o.wf(),
{
    match time::OffsetDateTime::from_unix_timestamp(unix_timestamp) {
        Ok(dt) => match time::UtcOffset::local_offset_at(dt) {
            Ok(o) => Ok(ResolvedOffset { seconds: o.whole_seconds() }),
            Err(_) => Err(IndeterminateOffsetError),
        },
        Err(_) => Err(IndeterminateOffsetError),
    }
}

} // verus!
