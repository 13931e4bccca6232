use vstd::prelude::*;

verus! {

/// Relies on chrono::Utc::now().timestamp(): the current wall-clock time
/// as whole seconds since the Unix epoch. Nothing can be promised of a
/// clock reading; callers state what holds for every value.
#[verifier::external_body]
pub fn now_seconds() -> i64 {
    chrono::Utc::now().timestamp()
}

} // verus!
