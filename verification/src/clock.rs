//! The only place where the crate looks at the wall clock.

use vstd::prelude::*;

verus! {

/// Milliseconds since the Unix epoch, as read by `chrono::Utc::now` and
/// converted by `DateTime::timestamp_millis`.
///
/// Trusted: the body is not verified. Nothing is claimed about the value,
/// so callers are proved for every reading, and two readings may differ in
/// any way. `Utc::now` panics when the system clock is set before the epoch.
#[verifier::external_body]
pub(crate) fn now_millis() -> i64 {
    chrono::Utc::now().timestamp_millis()
}

} // verus!
