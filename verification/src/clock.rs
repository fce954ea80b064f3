//! The time of day.
use vstd::prelude::*;

verus! {

/// `SystemTime::now`, in milliseconds since 1970. Nothing is claimed of it.
#[verifier::external_body]
pub(crate) fn now_ms() -> (ms: i64) {
    std::time::SystemTime::now()
        .duration_since(std::time::UNIX_EPOCH)
        .unwrap_or_default()
        .as_millis() as i64
}

} // verus!
