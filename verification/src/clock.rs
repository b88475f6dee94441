//! The system clock.  What the clock says is outside what can be proved:
//! the functions here promise nothing about their results.

use std::time::SystemTime;
use vstd::prelude::*;

verus! {

/// `std::time::SystemTime`: a point in time, opaque to the proofs.
#[verifier::external_type_specification]
#[verifier::external_body]
pub struct ExSystemTime(SystemTime);

/// `SystemTime::now`: the present moment.  Nothing is promised of it.
#[verifier::external_body]
pub(crate) fn current_time() -> SystemTime {
    SystemTime::now()
}

/// `SystemTime::elapsed`: the whole seconds that have passed since `start`,
/// or nothing where the clock has gone backwards.  Nothing is promised of
/// the answer.
#[verifier::external_body]
pub(crate) fn seconds_since(start: &SystemTime) -> Option<u64> {
    match start.elapsed() {
        Ok(elapsed) => Some(elapsed.as_secs()),
        Err(_) => None,
    }
}

} // verus!
