//! In-process output sinks the core can drive directly.

use vstd::prelude::*;

use crate::bytesio::read_i32_be;
use crate::constants::BUF_SIZE;
use crate::maps::UnsafeHashMap;
use crate::packet::Packet;

verus! {

/// Counts the records written, reporting every `step`-th.
pub struct Counter {
    pub i: usize,
    pub step: usize,
}

impl Counter {
    pub fn new(step: usize) -> (r: Counter)
        ensures
            r.i == 0,
            r.step == step,
    {
        Counter { i: 0, step }
    }

    /// Counts one record; the count pins at its maximum rather than wrap.
    pub fn write(&mut self, _data: &Packet)
        ensures
            final(self).step == old(self).step,
            final(self).i == (if old(self).i == usize::MAX {
                usize::MAX as int
            } else {
                old(self).i + 1
            }),
    {
        if self.i < usize::MAX {
            self.i = self.i + 1;
        }
    }
}

/// Writes each record's bytes to the process's standard output.
pub struct StdOut {}

impl StdOut {
    pub fn new() -> (r: StdOut) {
        StdOut {  }
    }

    /// Relies on std's `Stdout`: writes the record's valid bytes out;
    /// nothing is promised of the terminal.
    #[verifier::external_body]
    pub fn write(&mut self, data: &Packet)
        requires
            data.wf(),
    {
        let _ = std::io::Write::write_all(&mut std::io::stdout(), &data.data[..data.len]);
    }
}

/// Keeps the latest record per subscribed instrument for display.
pub struct DisplayOutput {
    pub subscribed_tokens: Vec<u64>,
    pub latest_map: UnsafeHashMap<Packet>,
}

impl DisplayOutput {
    pub fn new(subscribed_tokens: Vec<u64>) -> (r: DisplayOutput)
        ensures
            r.subscribed_tokens == subscribed_tokens,
            forall|k: u64| !r.latest_map.spec_contains(k),
    {
        DisplayOutput { subscribed_tokens, latest_map: UnsafeHashMap::new() }
    }

    /// Remembers the record as the newest for its instrument when that
    /// instrument is subscribed.
    pub fn write(&mut self, data: &Packet) -> (kept: bool)
        requires
            data.wf(),
        ensures
            !kept ==> *final(self) == *old(self),
    {
        let token = read_i32_be(data.data.as_slice(), 0);
        if token < 0 {
            return false;
        }
        let key = token as u64;
        let n = self.subscribed_tokens.len();
        let mut i: usize = 0;
        let mut subscribed = false;
        while i < n
            invariant
                i <= n,
                n == self.subscribed_tokens@.len(),
            decreases n - i,
        {
            if self.subscribed_tokens[i] == key {
                subscribed = true;
            }
            i = i + 1;
        }
        if subscribed {
            self.latest_map.insert(key, data.dup());
            true
        } else {
            false
        }
    }
}

} // verus!
