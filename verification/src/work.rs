//! Work classification: what arrived, and which queue or key it belongs to.

use vstd::prelude::*;

verus! {

/// Classification of a received broadcast packet.  FIFO kinds map to a work
/// queue id; `TokenWise` and the MCX kinds name a per-instrument coalescing
/// key instead.
#[derive(Clone, Copy, PartialEq, Eq, Structural)]
pub enum WorkType {
    BseCompressed,
    BseUncompressed,
    NseUncompressed,
    SegmentWise(u8),
    TokenWise(i32),
    McxDepthSnapshot,
    McxDepthIncr,
    McxOther,
}

/// The queue id (or, for `TokenWise`, map key) of a work type: one fixed
/// queue per BSE class and for uncompressed NSE traffic, one queue per
/// segment starting after those, and the instrument token itself for
/// token-wise work.
pub open spec fn spec_work_id(w: WorkType) -> int {
    match w {
        WorkType::BseCompressed => 0,
        WorkType::BseUncompressed => 1,
        WorkType::NseUncompressed => 2,
        WorkType::SegmentWise(i) => 3 + i,
        // A negative token is malformed input; all such tokens share key
        // zero rather than wrapping into unrelated keys.
        WorkType::TokenWise(i) => if i >= 0 {
            i as int
        } else {
            0
        },
        WorkType::McxDepthSnapshot => 0,
        WorkType::McxDepthIncr => 0,
        WorkType::McxOther => 0,
    }
}

/// A work type is FIFO-queued; the rest coalesce per key.
pub open spec fn spec_is_fifo(w: WorkType) -> bool {
    match w {
        WorkType::BseCompressed => true,
        WorkType::BseUncompressed => true,
        WorkType::NseUncompressed => true,
        WorkType::SegmentWise(_) => true,
        WorkType::TokenWise(_) => false,
        WorkType::McxDepthSnapshot => false,
        WorkType::McxDepthIncr => false,
        WorkType::McxOther => false,
    }
}

impl WorkType {
    pub fn get_id(&self) -> (r: usize)
        ensures
            r as int == spec_work_id(*self),
    {
        match self {
            Self::BseCompressed => 0,
            Self::BseUncompressed => 1,
            Self::NseUncompressed => 2,
            Self::SegmentWise(i) => 3 + *i as usize,
            Self::TokenWise(i) => {
                if *i >= 0 {
                    *i as usize
                } else {
                    0
                }
            },
            Self::McxDepthSnapshot => 0,
            Self::McxDepthIncr => 0,
            Self::McxOther => 0,
        }
    }
}

/// One schedulable unit: what to process, the coalescing key it belongs
/// to (for token-wise and MCX work), and the sequence number it carried
/// (used only by the MCX fencing discipline).
#[derive(Clone, Copy)]
pub struct Work {
    pub work_type: WorkType,
    pub key: u64,
    pub seq_no: u32,
}

} // verus!
