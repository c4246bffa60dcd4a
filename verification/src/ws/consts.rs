use vstd::prelude::*;

verus! {

/// The seconds to wait after a failed attempt to connect to the feed before
/// the next one.
pub const WS_TIMEOUT_FOR_RETRY: u64 = 5;

} // verus!
