//! Wall-clock access: the one point where the library touches chrono.

use vstd::prelude::*;

verus! {

/// Relies on chrono::Local::now together with DateTime::timestamp_millis:
/// the current wall-clock instant, as milliseconds since the Unix epoch.
/// Nothing is promised of the reading itself; every caller states what
/// holds of its result whatever instant came back.
#[verifier::external_body]
pub(crate) fn now_millis() -> i64 {
    chrono::Local::now().timestamp_millis()
}

} // verus!
