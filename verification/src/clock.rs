//! Declarations for the standard library's monotonic clock, used by the
//! timed receive operations. Points in time are opaque to the library: it
//! only obtains them, adds a duration, and hands them to the timed wait.
use vstd::prelude::*;

verus! {

/// Relies on std::time::Instant: an opaque point on the monotonic clock.
/// The library never looks inside one; it only carries them through.
#[verifier::external_type_specification]
#[verifier::external_body]
pub struct ExInstant(std::time::Instant);

/// Relies on std::time::Instant::now: a reading of the monotonic clock.
/// Nothing can be promised of its value.
pub assume_specification[ std::time::Instant::now ]() -> std::time::Instant;

/// Relies on std::time::Instant::checked_add: `Some` of a later point unless
/// the sum cannot be represented, in which case `None`. The library only
/// branches on which of the two came back.
pub assume_specification[ std::time::Instant::checked_add ](
    t: &std::time::Instant,
    d: core::time::Duration,
) -> Option<std::time::Instant>;

} // verus!
