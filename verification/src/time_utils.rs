//! Wall-clock reading for output timestamps.

use vstd::prelude::*;

verus! {

/// Relies on std's `SystemTime`: microseconds since the epoch, as the
/// platform clock reports them; nothing further can be promised of a
/// clock reading.
#[verifier::external_body]
pub fn get_epoch_us() -> (r: u64)
{
    let us = std::time::SystemTime::now().duration_since(std::time::UNIX_EPOCH).map(
        |d| d.as_micros(),
    ).unwrap_or(0);
    if us > u64::MAX as u128 {
        u64::MAX
    } else {
        us as u64
    }
}

} // verus!
