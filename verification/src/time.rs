use vstd::prelude::*;

use std::time::SystemTime;

verus! {

#[verifier::external_type_specification]
#[verifier::external_body]
pub struct ExSystemTime(SystemTime);

/// The current time of the system clock.
///
/// Trusted: calls `std::time::SystemTime::now`. Nothing is claimed of the
/// value: it depends on the clock.
#[verifier::external_body]
pub(crate) fn system_time_now() -> (t: SystemTime) {
    SystemTime::now()
}

/// The lower bound of a corpus download: everything, or only what appeared
/// after a point in time.
#[derive(Clone, Copy)]
pub enum Since {
    /// From the UNIX epoch on, that is, the whole corpus.
    Beginning,
    /// Only entries newer than this time.
    At(SystemTime),
}

} // verus!
