//! The wall clock, the one source of "now" for the library.

use vstd::prelude::*;

verus! {

/// Relies on `std::time::SystemTime::now` read as whole seconds since the
/// Unix epoch (0 when the clock stands before it). Nothing is known of the
/// value: it depends on the machine and the moment.
#[verifier::external_body]
pub(crate) fn current_timestamp() -> (r: u64) {
    std::time::SystemTime::now()
        .duration_since(std::time::UNIX_EPOCH)
        .unwrap_or(std::time::Duration::ZERO)
        .as_secs()
}

} // verus!
