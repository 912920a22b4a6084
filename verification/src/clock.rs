//! The wall clock.

use vstd::prelude::*;

verus! {

/// Trusted: the standard library's `SystemTime::now`, turned into chrono's
/// `DateTime<Local>` by its `From<SystemTime>` and written out by
/// `DateTime::to_rfc3339`. The text depends on the machine's clock and time
/// zone, so nothing is claimed of it. A clock that stands before 1970 is
/// taken as it is.
#[verifier::external_body]
pub(crate) fn local_timestamp() -> (stamp: String) {
    chrono::DateTime::<chrono::Local>::from(std::time::SystemTime::now()).to_rfc3339()
}

} // verus!
