//! Static configuration the feed handler is started with.

use vstd::prelude::*;

verus! {

/// Which exchange feed this process handles.
#[derive(Clone, Copy, PartialEq, Eq, Structural)]
pub enum Exchange {
    NEQ,
    NFO,
    NCD,
    BSE,
    MCX,
}

/// Output sinks selected in the configuration, as a bit set.
#[derive(Clone, Copy, PartialEq, Eq, Structural)]
pub struct OutputTargets {
    pub bits: u8,
}

pub const TARGET_UDP: u8 = 1;

pub const TARGET_KAFKA: u8 = 2;

pub const TARGET_STDOUT: u8 = 4;

pub const TARGET_COUNTER: u8 = 8;

pub const TARGET_DEPTH_VIEW: u8 = 16;

pub const TARGET_WS: u8 = 32;

impl OutputTargets {
    pub open spec fn spec_contains(self, t: u8) -> bool {
        self.bits & t == t
    }

    pub fn contains(&self, t: u8) -> (r: bool)
        ensures
            r == self.spec_contains(t),
    {
        self.bits & t == t
    }
}

/// The configuration surface the core consumes; transport addresses and
/// sink parameters live with the runtime around the library.
pub struct Settings {
    pub exchange: Exchange,
    pub thread_count: usize,
    pub steps: usize,
    pub output_targets: OutputTargets,
}

} // verus!
