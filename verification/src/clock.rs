//! The one place where the library reads the wall clock.

use vstd::prelude::*;

verus! {

/// `SystemTime::now` of std, taken as whole seconds since the Unix epoch (a
/// clock that stands before the epoch reads as 0). Nothing is claimed of the
/// value: callers state what holds for every reading.
#[verifier::external_body]
pub(crate) fn unix_seconds() -> u64 {
    std::time::SystemTime::now().duration_since(std::time::UNIX_EPOCH).map(|d| d.as_secs()).unwrap_or(
        0,
    )
}

} // verus!
