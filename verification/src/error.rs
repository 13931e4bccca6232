use vstd::prelude::*;

verus! {

/// Failure taxonomy of the access-control core.
///
/// `Unauthorized` covers bad credentials and bad, expired or malformed
/// tokens; `NotFound` an unknown access identifier; `Invalid` a malformed
/// header encoding; `Internal` a storage or signing failure.
#[derive(Clone, Copy, Debug, PartialEq, Eq, Structural)]
pub enum Error {
    Unauthorized,
    NotFound,
    Invalid,
    Internal,
}

} // verus!
