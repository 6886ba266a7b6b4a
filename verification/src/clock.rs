//! Access to the wall clock.  Verified code treats the reading as an
//! arbitrary instant: everything proved about token validity holds for
//! every value the clock may return.

use vstd::prelude::*;

verus! {

/// Relies on chrono's `Utc::now` and `DateTime::timestamp`: the current
/// instant as whole seconds since the Unix epoch.  Nothing is assumed of
/// the value.
#[verifier::external_body]
pub(crate) fn now_ts() -> i64 {
    chrono::Utc::now().timestamp()
}

} // verus!
