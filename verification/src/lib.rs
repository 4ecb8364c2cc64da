//! Cached, one-time initialization of the process-local UTC offset.
//!
//! Discovering the local offset from the operating environment is only safe
//! from a single thread, while applications want to read it cheaply and
//! repeatedly afterwards. This crate models that discipline: a write-once
//! cache stores the outcome of the one platform query, and an initialization
//! gate enforces the policy of explicit one-time initialization, with reads
//! before a successful `init` and repeated `init` calls treated as contract
//! violations rather than recoverable errors.

pub mod cache;
pub mod datetime;
pub mod error;
pub mod gate;
pub mod offset;
mod platform;

pub use cache::OffsetCache;
pub use cache::QueryOutcome;
pub use datetime::DateTime;
pub use error::IndeterminateOffsetError;
pub use gate::InitGate;
pub use gate::InitOutcome;
pub use gate::utc_offset_init_error;
pub use offset::ResolvedOffset;
