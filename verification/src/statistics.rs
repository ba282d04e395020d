//! Packet counters kept by the ingestion and distribution stages.

use vstd::prelude::*;

verus! {

/// The counters themselves.
pub struct StatisticsData {
    pub udp_packets_count: u64,
    pub other_packets_count: u64,
    pub mbo_packets_count: u64,
    pub filtered_packets_count: u64,
}

/// Holder for the counters; the runtime around the library decides how
/// they are shared and shown.
pub struct Statistics {
    pub inner: StatisticsData,
}

impl Statistics {
    pub fn new() -> (r: Statistics)
        ensures
            r.inner.udp_packets_count == 0,
            r.inner.other_packets_count == 0,
            r.inner.mbo_packets_count == 0,
            r.inner.filtered_packets_count == 0,
    {
        Statistics {
            inner: StatisticsData {
                udp_packets_count: 0,
                other_packets_count: 0,
                mbo_packets_count: 0,
                filtered_packets_count: 0,
            },
        }
    }

    /// Saturating bump of one counter, chosen by the caller's reference.
    pub fn bump(counter: &mut u64)
        ensures
            *final(counter) == (if *old(counter) == u64::MAX {
                u64::MAX as int
            } else {
                *old(counter) + 1
            }),
    {
        if *counter < u64::MAX {
            *counter = *counter + 1;
        }
    }
}

} // verus!
