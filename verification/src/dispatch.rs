//! The dispatch core: single-flight FIFO queues and per-key coalescing.
//!
//! Every packet is either pushed onto the FIFO queue of its queue id, with a
//! work item enqueued only when that queue's work lock was free, or swapped
//! into its instrument's coalescing slot, with a work item enqueued only
//! when the slot was idle.  The module's well-formedness invariant is the
//! single-flight guarantee itself: for every queue id and for every key, at
//! most one work item referencing it is outstanding, and exactly one when
//! its lock is held or its slot is full.

use vstd::prelude::*;

use crate::book::{DepthIncrement, DepthSnapshot};
use crate::maps::UnsafeHashMap;
use crate::packet::Packet;
use crate::queues::{packet_fifo_seq, work_fifo_seq, PacketFifo, WorkFifo};
use crate::settings::Exchange;
use crate::work::{spec_is_fifo, spec_work_id, Work, WorkType};

verus! {

/// Number of FIFO work queues: one per BSE class, one for uncompressed NSE
/// traffic, one per segment.
pub const TYPE_COUNT: usize = 258;

/// Per-instrument coalescing state for NSE token-wise traffic: the slot
/// holds the newest pending packet, or nothing while no work is in flight.
pub struct NseTokenState {
    pub slot: Option<Packet>,
}

/// One queued unit of MCX work still to apply against an instrument's book.
pub enum McxPendingItem {
    Refresh,
    Increment(DepthIncrement, u32),
}

/// Per-instrument MCX state: pending updates in arrival order, the
/// single-flight lock, the live snapshot, and the applied sequence number.
pub struct McxTokenState {
    pub packet_queue: Vec<McxPendingItem>,
    pub work_lock: bool,
    pub snapshot: Option<DepthSnapshot>,
    pub seq_no: u32,
}

/// The composition root: every queue, lock and registry of the engine.
pub struct DispatchCore {
    pub exchange: Exchange,
    pub work_queues: Vec<PacketFifo>,
    pub work_locks: Vec<bool>,
    pub tpool_queue: WorkFifo,
    pub nse_map: UnsafeHashMap<NseTokenState>,
    pub mcx_index: UnsafeHashMap<usize>,
    pub mcx_states: Vec<McxTokenState>,
}

// ---------------------------------------------------------------------------
// Counting outstanding work items.
// ---------------------------------------------------------------------------

/// Outstanding FIFO work items for queue id `qid`.
pub open spec fn count_fifo(s: Seq<Work>, qid: int) -> int
    decreases s.len(),
{
    if s.len() == 0 {
        0
    } else {
        count_fifo(s.drop_last(), qid) + if spec_is_fifo(s.last().work_type) && spec_work_id(
            s.last().work_type,
        ) == qid {
            1int
        } else {
            0int
        }
    }
}

/// Outstanding token-wise work items for coalescing key `k`.
pub open spec fn count_nse(s: Seq<Work>, k: u64) -> int
    decreases s.len(),
{
    if s.len() == 0 {
        0
    } else {
        count_nse(s.drop_last(), k) + if s.last().work_type matches WorkType::TokenWise(_)
            && s.last().key == k {
            1int
        } else {
            0int
        }
    }
}

pub open spec fn spec_is_mcx(w: WorkType) -> bool {
    w == WorkType::McxDepthSnapshot || w == WorkType::McxDepthIncr || w == WorkType::McxOther
}

/// Outstanding MCX work items for instrument key `k`.
pub open spec fn count_mcx(s: Seq<Work>, k: u64) -> int
    decreases s.len(),
{
    if s.len() == 0 {
        0
    } else {
        count_mcx(s.drop_last(), k) + if spec_is_mcx(s.last().work_type) && s.last().key == k {
            1int
        } else {
            0int
        }
    }
}

pub proof fn lemma_counts_push_pub(s: Seq<Work>, w: Work)
    ensures
        forall|qid: int|
            count_fifo(s.push(w), qid) == count_fifo(s, qid) + if spec_is_fifo(w.work_type)
                && spec_work_id(w.work_type) == qid {
                1int
            } else {
                0int
            },
        forall|k: u64|
            count_nse(s.push(w), k) == count_nse(s, k) + if w.work_type matches
                WorkType::TokenWise(_) && w.key == k {
                1int
            } else {
                0int
            },
        forall|k: u64|
            count_mcx(s.push(w), k) == count_mcx(s, k) + if spec_is_mcx(w.work_type) && w.key
                == k {
                1int
            } else {
                0int
            },
{
    assert forall|qid: int|
        count_fifo(s.push(w), qid) == count_fifo(s, qid) + (if spec_is_fifo(w.work_type)
            && spec_work_id(w.work_type) == qid {
            1int
        } else {
            0int
        }) by {
        assert(s.push(w).drop_last() =~= s);
    }
    assert forall|k: u64|
        count_nse(s.push(w), k) == count_nse(s, k) + (if w.work_type matches WorkType::TokenWise(
            _,
        ) && w.key == k {
            1int
        } else {
            0int
        }) by {
        assert(s.push(w).drop_last() =~= s);
    }
    assert forall|k: u64|
        count_mcx(s.push(w), k) == count_mcx(s, k) + (if spec_is_mcx(w.work_type) && w.key == k {
            1int
        } else {
            0int
        }) by {
        assert(s.push(w).drop_last() =~= s);
    }
}

/// Splitting a non-empty queue at its head splits each count.
pub proof fn lemma_counts_drop_first(s: Seq<Work>)
    requires
        s.len() > 0,
    ensures
        forall|qid: int|
            count_fifo(s, qid) == count_fifo(s.drop_first(), qid) + if spec_is_fifo(
                s.first().work_type,
            ) && spec_work_id(s.first().work_type) == qid {
                1int
            } else {
                0int
            },
        forall|k: u64|
            count_nse(s, k) == count_nse(s.drop_first(), k) + if s.first().work_type matches
                WorkType::TokenWise(_) && s.first().key == k {
                1int
            } else {
                0int
            },
        forall|k: u64|
            count_mcx(s, k) == count_mcx(s.drop_first(), k) + if spec_is_mcx(s.first().work_type)
                && s.first().key == k {
                1int
            } else {
                0int
            },
    decreases s.len(),
{
    if s.len() == 1 {
        assert(s.drop_last() =~= Seq::<Work>::empty());
        assert(s.drop_first() =~= Seq::<Work>::empty());
        assert(s.last() == s.first());
    } else {
        lemma_counts_drop_first(s.drop_last());
        assert(s.drop_last().first() == s.first());
        assert(s.drop_first().drop_last() =~= s.drop_last().drop_first());
        assert(s.drop_first().last() == s.last());
        assert forall|qid: int|
            count_fifo(s, qid) == count_fifo(s.drop_first(), qid) + (if spec_is_fifo(
                s.first().work_type,
            ) && spec_work_id(s.first().work_type) == qid {
                1int
            } else {
                0int
            }) by {
            assert(count_fifo(s.drop_last(), qid) == count_fifo(s.drop_last().drop_first(), qid)
                + (if spec_is_fifo(s.first().work_type) && spec_work_id(s.first().work_type)
                == qid {
                1int
            } else {
                0int
            }));
        }
        assert forall|k: u64|
            count_nse(s, k) == count_nse(s.drop_first(), k) + (if s.first().work_type matches
                WorkType::TokenWise(_) && s.first().key == k {
                1int
            } else {
                0int
            }) by {
            assert(count_nse(s.drop_last(), k) == count_nse(s.drop_last().drop_first(), k) + (
            if s.first().work_type matches WorkType::TokenWise(_) && s.first().key == k {
                1int
            } else {
                0int
            }));
        }
        assert forall|k: u64|
            count_mcx(s, k) == count_mcx(s.drop_first(), k) + (if spec_is_mcx(
                s.first().work_type,
            ) && s.first().key == k {
                1int
            } else {
                0int
            }) by {
            assert(count_mcx(s.drop_last(), k) == count_mcx(s.drop_last().drop_first(), k) + (
            if spec_is_mcx(s.first().work_type) && s.first().key == k {
                1int
            } else {
                0int
            }));
        }
    }
}

// ---------------------------------------------------------------------------
// The single-flight invariant.
// ---------------------------------------------------------------------------

/// The well-formedness of the engine: at most one work item in flight per
/// queue id and per key, with the lock or slot telling exactly whether one
/// is.
pub open spec fn wf_core(c: DispatchCore) -> bool {
    let tq = work_fifo_seq(&c.tpool_queue);
    &&& c.work_queues@.len() == TYPE_COUNT
    &&& c.work_locks@.len() == TYPE_COUNT
    &&& forall|i: int|
        0 <= i < tq.len() && spec_is_fifo((#[trigger] tq[i]).work_type) ==> 0 <= spec_work_id(
            tq[i].work_type,
        ) < TYPE_COUNT
    &&& forall|qid: int|
        0 <= qid < TYPE_COUNT ==> count_fifo(tq, qid) == (if c.work_locks@[qid] {
            1int
        } else {
            0int
        })
    &&& forall|k: u64|
        #[trigger] count_nse(tq, k) == (if c.nse_map.spec_contains(k) && c.nse_map.spec_get(
            k,
        ).slot is Some {
            1int
        } else {
            0int
        })
    &&& forall|k: u64|
        #[trigger] count_mcx(tq, k) == (if c.mcx_index.spec_contains(k) && c.mcx_index.spec_get(k)
            < c.mcx_states@.len() && c.mcx_states@[c.mcx_index.spec_get(k) as int].work_lock {
            1int
        } else {
            0int
        })
    &&& forall|k: u64|
        #[trigger] c.mcx_index.spec_contains(k) ==> c.mcx_index.spec_get(k) < c.mcx_states@.len()
    &&& forall|k1: u64, k2: u64|
        #[trigger] c.mcx_index.spec_contains(k1) && #[trigger] c.mcx_index.spec_contains(k2) && k1
            != k2 ==> c.mcx_index.spec_get(k1) != c.mcx_index.spec_get(k2)
    &&& forall|i: int|
        0 <= i < c.mcx_states@.len() && (#[trigger] c.mcx_states@[i]).snapshot is Some
            ==> c.mcx_states@[i].snapshot->0.msg_seq_num is Some
}

/// At-most-one-in-flight: in a well-formed engine, no queue id and no key
/// ever has more than one outstanding work item.
pub proof fn lemma_at_most_one_in_flight(c: DispatchCore, qid: int, k: u64)
    requires
        wf_core(c),
        0 <= qid < TYPE_COUNT,
    ensures
        count_fifo(work_fifo_seq(&c.tpool_queue), qid) <= 1,
        count_nse(work_fifo_seq(&c.tpool_queue), k) <= 1,
        count_mcx(work_fifo_seq(&c.tpool_queue), k) <= 1,
{
}

// ---------------------------------------------------------------------------
// The coalescing slot protocol, as a transition on the slot value alone.
// ---------------------------------------------------------------------------

/// Installing a new packet always leaves the newest value in the slot.
pub open spec fn spec_slot_install(slot: Option<Packet>, p: Packet) -> Option<Packet> {
    Some(p)
}

/// What an installation displaces: the packet that will never be processed.
pub open spec fn spec_slot_displaced(slot: Option<Packet>, p: Packet) -> Option<Packet> {
    slot
}

/// Latest-value-wins: after any two installations, a worker taking the slot
/// gets the second packet, and the first was displaced at the second
/// installation (handed back exactly once to be freed).
pub proof fn lemma_latest_value_wins(slot: Option<Packet>, p1: Packet, p2: Packet)
    ensures
        spec_slot_install(spec_slot_install(slot, p1), p2) == Some(p2),
        spec_slot_displaced(spec_slot_install(slot, p1), p2) == Some(p1),
{
}

impl DispatchCore {
    /// A fresh engine for one exchange: every queue empty, every lock free,
    /// no keys registered.
    pub fn new(exchange: Exchange) -> (r: DispatchCore)
        ensures
            wf_core(r),
            r.exchange == exchange,
            work_fifo_seq(&r.tpool_queue).len() == 0,
            forall|qid: int|
                0 <= qid < TYPE_COUNT ==> packet_fifo_seq(&#[trigger] r.work_queues@[qid]).len()
                    == 0,
            forall|k: u64| !r.nse_map.spec_contains(k),
            forall|k: u64| !r.mcx_index.spec_contains(k),
    {
        let mut work_queues: Vec<PacketFifo> = Vec::new();
        let mut work_locks: Vec<bool> = Vec::new();
        let mut i: usize = 0;
        while i < TYPE_COUNT
            invariant
                i <= TYPE_COUNT,
                work_queues@.len() == i,
                work_locks@.len() == i,
                forall|q: int|
                    0 <= q < i ==> packet_fifo_seq(&#[trigger] work_queues@[q]).len() == 0,
                forall|q: int| 0 <= q < i ==> !(#[trigger] work_locks@[q]),
            decreases TYPE_COUNT - i,
        {
            work_queues.push(PacketFifo::new());
            work_locks.push(false);
            i = i + 1;
        }
        let r = DispatchCore {
            exchange,
            work_queues,
            work_locks,
            tpool_queue: WorkFifo::new(),
            nse_map: UnsafeHashMap::new(),
            mcx_index: UnsafeHashMap::new(),
            mcx_states: Vec::new(),
        };
        proof {
            let tq = work_fifo_seq(&r.tpool_queue);
            assert(tq.len() == 0);
            assert(forall|qid: int| count_fifo(tq, qid) == 0);
            assert(forall|k: u64| count_nse(tq, k) == 0);
            assert(forall|k: u64| count_mcx(tq, k) == 0);
        }
        r
    }

    /// FIFO policy: append the packet to its queue; when no worker holds
    /// the queue's lock, take it and schedule one work item.
    pub fn distribute_to_queue(&mut self, packet: Packet, work: Work)
        requires
            wf_core(*old(self)),
            spec_is_fifo(work.work_type),
            0 <= spec_work_id(work.work_type) < TYPE_COUNT,
        ensures
            wf_core(*final(self)),
            ({
                let qid = spec_work_id(work.work_type);
                &&& packet_fifo_seq(&final(self).work_queues@[qid]) == packet_fifo_seq(
                    &old(self).work_queues@[qid],
                ).push(packet)
                &&& forall|q: int|
                    0 <= q < TYPE_COUNT && q != qid ==> packet_fifo_seq(
                        &#[trigger] final(self).work_queues@[q],
                    ) == packet_fifo_seq(&old(self).work_queues@[q])
                &&& (old(self).work_locks@[qid] ==> final(self).work_locks@ == old(
                    self,
                ).work_locks@ && work_fifo_seq(&final(self).tpool_queue) == work_fifo_seq(
                    &old(self).tpool_queue,
                ))
                &&& (!old(self).work_locks@[qid] ==> final(self).work_locks@ == old(
                    self,
                ).work_locks@.update(qid, true) && work_fifo_seq(&final(self).tpool_queue)
                    == work_fifo_seq(&old(self).tpool_queue).push(work))
                &&& final(self).exchange == old(self).exchange
                &&& final(self).nse_map == old(self).nse_map
                &&& final(self).mcx_index == old(self).mcx_index
                &&& final(self).mcx_states == old(self).mcx_states
            }),
    {
        let qid = work.work_type.get_id();
        let mut q = self.work_queues.remove(qid);
        q.push(packet);
        self.work_queues.insert(qid, q);
        proof {
            assert(self.work_queues@ =~= old(self).work_queues@.update(
                qid as int,
                self.work_queues@[qid as int],
            ));
        }

        if !self.work_locks[qid] {
            self.work_locks.set(qid, true);
            let ghost tq0 = work_fifo_seq(&self.tpool_queue);
            self.tpool_queue.push(work);
            proof {
                lemma_counts_push_pub(tq0, work);
            }
        }
    }

    /// Coalescing policy: install the packet as the key's newest value.
    /// When the slot was idle, schedule one work item; otherwise hand back
    /// the displaced older packet, to be dropped, and schedule nothing —
    /// the in-flight worker will pick up the newer value.
    pub fn distribute_to_map(&mut self, packet: Packet, work: Work) -> (displaced: Option<Packet>)
        requires
            wf_core(*old(self)),
            work.work_type matches WorkType::TokenWise(_),
            work.key == spec_work_id(work.work_type),
        ensures
            wf_core(*final(self)),
            final(self).nse_map.spec_contains(work.key),
            final(self).nse_map.spec_get(work.key).slot == spec_slot_install(
                (if old(self).nse_map.spec_contains(work.key) {
                    old(self).nse_map.spec_get(work.key).slot
                } else {
                    None
                }),
                packet,
            ),
            displaced == spec_slot_displaced(
                (if old(self).nse_map.spec_contains(work.key) {
                    old(self).nse_map.spec_get(work.key).slot
                } else {
                    None
                }),
                packet,
            ),
            forall|k2: u64|
                k2 != work.key ==> #[trigger] final(self).nse_map.spec_contains(k2)
                    == old(self).nse_map.spec_contains(k2),
            forall|k2: u64|
                k2 != work.key && old(self).nse_map.spec_contains(k2)
                    ==> #[trigger] final(self).nse_map.spec_get(k2)
                    == old(self).nse_map.spec_get(k2),
            (displaced is None ==> work_fifo_seq(&final(self).tpool_queue) == work_fifo_seq(
                &old(self).tpool_queue,
            ).push(work)),
            (displaced is Some ==> work_fifo_seq(&final(self).tpool_queue) == work_fifo_seq(
                &old(self).tpool_queue,
            )),
            final(self).work_queues == old(self).work_queues,
            final(self).work_locks == old(self).work_locks,
            final(self).exchange == old(self).exchange,
            final(self).mcx_index == old(self).mcx_index,
            final(self).mcx_states == old(self).mcx_states,
    {
        let old_state = self.nse_map.insert(work.key, NseTokenState { slot: Some(packet) });
        let displaced: Option<Packet> = match old_state {
            Some(st) => st.slot,
            None => None,
        };
        match displaced {
            Some(p) => Some(p),
            None => {
                let ghost tq0 = work_fifo_seq(&self.tpool_queue);
                self.tpool_queue.push(work);
                proof {
                    lemma_counts_push_pub(tq0, work);
                }
                None
            },
        }
    }
}



// ---------------------------------------------------------------------------
// MCX: per-instrument pending queues under the same single-flight protocol.
// ---------------------------------------------------------------------------

/// Registry capacity: instruments beyond it are refused rather than grown
/// without bound.
pub const MAX_MCX_INSTRUMENTS: usize = 100_000;

/// Pending-update capacity per instrument; updates beyond it are refused.
pub const MAX_MCX_PENDING: usize = 100_000;

/// The instrument's stored state; meaningful only when its key is
/// registered.
pub open spec fn spec_mcx_state_of(c: DispatchCore, key: u64) -> McxTokenState {
    c.mcx_states@[c.mcx_index.spec_get(key) as int]
}

/// The fence the instrument currently holds: its stored sequence number,
/// or zero before first sight.
pub open spec fn spec_mcx_seq_of(c: DispatchCore, key: u64) -> int {
    if c.mcx_index.spec_contains(key) {
        spec_mcx_state_of(c, key).seq_no as int
    } else {
        0
    }
}

/// The instrument's pending queue, or the empty one it is born with.
pub open spec fn spec_mcx_queue_of(c: DispatchCore, key: u64) -> Seq<McxPendingItem> {
    if c.mcx_index.spec_contains(key) {
        spec_mcx_state_of(c, key).packet_queue@
    } else {
        Seq::empty()
    }
}

/// The instrument's single-flight lock, free before first sight.
pub open spec fn spec_mcx_lock_of(c: DispatchCore, key: u64) -> bool {
    if c.mcx_index.spec_contains(key) {
        spec_mcx_state_of(c, key).work_lock
    } else {
        false
    }
}

/// The instrument's stored snapshot, absent before first sight.
pub open spec fn spec_mcx_snapshot_of(c: DispatchCore, key: u64) -> Option<DepthSnapshot> {
    if c.mcx_index.spec_contains(key) {
        spec_mcx_state_of(c, key).snapshot
    } else {
        None
    }
}

/// Whether a registration for `key` can take place or already has.
pub open spec fn spec_mcx_registrable(c: DispatchCore, key: u64) -> bool {
    c.mcx_index.spec_contains(key) || c.mcx_states@.len() < MAX_MCX_INSTRUMENTS
}

/// Everything outside the one instrument's state is untouched (the
/// scheduler queue is stated separately).
pub open spec fn spec_mcx_others_unchanged(c0: DispatchCore, c1: DispatchCore, key: u64) -> bool {
    &&& c1.exchange == c0.exchange
    &&& c1.work_queues == c0.work_queues
    &&& c1.work_locks == c0.work_locks
    &&& c1.nse_map == c0.nse_map
    &&& forall|k2: u64|
        k2 != key ==> #[trigger] c1.mcx_index.spec_contains(k2) == c0.mcx_index.spec_contains(k2)
    &&& forall|k2: u64|
        k2 != key && c0.mcx_index.spec_contains(k2) ==> #[trigger] c1.mcx_index.spec_get(k2)
            == c0.mcx_index.spec_get(k2)
    &&& forall|k2: u64|
        k2 != key && c0.mcx_index.spec_contains(k2) ==> #[trigger] c1.mcx_states@[
            c0.mcx_index.spec_get(k2) as int] == c0.mcx_states@[c0.mcx_index.spec_get(k2) as int]
}

impl DispatchCore {
    /// Looks up the instrument's state index, creating a fresh idle state
    /// on first sight of the key; a full registry refuses new keys.
    fn mcx_state_index(&mut self, key: u64) -> (r: Option<usize>)
        requires
            wf_core(*old(self)),
        ensures
            wf_core(*final(self)),
            final(self).exchange == old(self).exchange,
            final(self).work_queues == old(self).work_queues,
            final(self).work_locks == old(self).work_locks,
            final(self).nse_map == old(self).nse_map,
            work_fifo_seq(&final(self).tpool_queue) == work_fifo_seq(&old(self).tpool_queue),
            r is None <==> !spec_mcx_registrable(*old(self), key),
            match r {
                Some(i) => final(self).mcx_index.spec_contains(key)
                    && final(self).mcx_index.spec_get(key) == i
                    && i < final(self).mcx_states@.len()
                    && spec_mcx_others_unchanged(*old(self), *final(self), key),
                None => *final(self) == *old(self),
            },
            old(self).mcx_index.spec_contains(key) ==> *final(self) == *old(self),
            r is Some && !old(self).mcx_index.spec_contains(key) ==> ({
                let i = r->0 as int;
                &&& i == old(self).mcx_states@.len()
                &&& final(self).mcx_states@.len() == old(self).mcx_states@.len() + 1
                &&& final(self).mcx_states@[i].packet_queue@.len() == 0
                &&& !final(self).mcx_states@[i].work_lock
                &&& final(self).mcx_states@[i].snapshot is None
                &&& final(self).mcx_states@[i].seq_no == 0
                &&& forall|j: int|
                    0 <= j < old(self).mcx_states@.len() ==> #[trigger] final(self).mcx_states@[j]
                        == old(self).mcx_states@[j]
            }),
    {
        match self.mcx_index.get(key) {
            Some(i) => Some(*i),
            None => {
                let i = self.mcx_states.len();
                if i >= MAX_MCX_INSTRUMENTS {
                    return None;
                }
                self.mcx_states.push(
                    McxTokenState {
                        packet_queue: Vec::new(),
                        work_lock: false,
                        snapshot: None,
                        seq_no: 0,
                    },
                );
                self.mcx_index.insert(key, i);
                proof {
                    let tq = work_fifo_seq(&self.tpool_queue);
                    assert forall|k2: u64| #[trigger] count_mcx(tq, k2) == (
                    if self.mcx_index.spec_contains(k2) && self.mcx_index.spec_get(k2)
                        < self.mcx_states@.len() && self.mcx_states@[self.mcx_index.spec_get(
                        k2,
                    ) as int].work_lock {
                        1int
                    } else {
                        0int
                    }) by {
                        if k2 != key && old(self).mcx_index.spec_contains(k2) {
                            assert(self.mcx_states@[old(self).mcx_index.spec_get(k2) as int]
                                == old(self).mcx_states@[old(self).mcx_index.spec_get(k2) as int]);
                        }
                    }
                }
                Some(i)
            },
        }
    }

    /// Registers a full MCX refresh: a snapshot whose sequence number
    /// strictly exceeds the instrument's fence replaces its book slot
    /// wholesale and advances the fence; a refresh marker is queued exactly
    /// when nothing was pending, and a work item scheduled exactly when
    /// that found the single-flight lock free.  A stale snapshot, or one
    /// for an unregistrable instrument, changes nothing.
    pub fn dispatch_mcx_snapshot(&mut self, snapshot: DepthSnapshot) -> (accepted: bool)
        requires
            wf_core(*old(self)),
            snapshot.msg_seq_num is Some,
        ensures
            wf_core(*final(self)),
            accepted == (snapshot.security_id >= 0 && spec_mcx_registrable(
                *old(self),
                snapshot.security_id as u64,
            ) && snapshot.msg_seq_num->0 > spec_mcx_seq_of(
                *old(self),
                snapshot.security_id as u64,
            )),
            snapshot.security_id < 0 ==> *final(self) == *old(self),
            snapshot.security_id >= 0 && !spec_mcx_registrable(
                *old(self),
                snapshot.security_id as u64,
            ) ==> *final(self) == *old(self),
            snapshot.security_id >= 0 && spec_mcx_registrable(
                *old(self),
                snapshot.security_id as u64,
            ) ==> ({
                let key = snapshot.security_id as u64;
                let n = snapshot.msg_seq_num->0;
                let q0 = spec_mcx_queue_of(*old(self), key);
                let l0 = spec_mcx_lock_of(*old(self), key);
                &&& spec_mcx_others_unchanged(*old(self), *final(self), key)
                &&& final(self).mcx_index.spec_contains(key)
                &&& (accepted ==> ({
                    let st1 = spec_mcx_state_of(*final(self), key);
                    &&& st1.snapshot == Some(snapshot)
                    &&& st1.seq_no == n
                    &&& st1.packet_queue@ == (if q0.len() == 0 {
                        q0.push(McxPendingItem::Refresh)
                    } else {
                        q0
                    })
                    &&& st1.work_lock == (l0 || q0.len() == 0)
                    &&& work_fifo_seq(&final(self).tpool_queue) == (if q0.len() == 0 && !l0 {
                        work_fifo_seq(&old(self).tpool_queue).push(
                            Work { work_type: WorkType::McxDepthSnapshot, key, seq_no: n },
                        )
                    } else {
                        work_fifo_seq(&old(self).tpool_queue)
                    })
                }))
                &&& (!accepted ==> ({
                    let st1 = spec_mcx_state_of(*final(self), key);
                    &&& work_fifo_seq(&final(self).tpool_queue) == work_fifo_seq(
                        &old(self).tpool_queue,
                    )
                    &&& st1.packet_queue@ == q0
                    &&& st1.work_lock == l0
                    &&& st1.snapshot == spec_mcx_snapshot_of(*old(self), key)
                    &&& st1.seq_no as int == spec_mcx_seq_of(*old(self), key)
                }))
            }),
    {
        if snapshot.security_id < 0 {
            return false;
        }
        let key: u64 = snapshot.security_id as u64;
        let idx: usize = match self.mcx_state_index(key) {
            Some(i) => i,
            None => {
                return false;
            },
        };
        let ghost mid = *self;

        let mut st = self.mcx_states.remove(idx);

        let n = match snapshot.msg_seq_num {
            Some(n) => n,
            None => 0,
        };
        let mut enqueue = false;
        let mut accepted = false;
        if n > st.seq_no {
            st.snapshot = Some(snapshot);
            st.seq_no = n;
            accepted = true;
            if st.packet_queue.len() == 0 {
                st.packet_queue.push(McxPendingItem::Refresh);
                if !st.work_lock {
                    st.work_lock = true;
                    enqueue = true;
                }
            }
        }
        let ghost st1 = st;
        self.mcx_states.insert(idx, st);
        proof {
            assert(self.mcx_states@ =~= mid.mcx_states@.update(idx as int, st1));
            assert forall|k2: u64| k2 != key && #[trigger] self.mcx_index.spec_contains(
                k2,
            ) implies self.mcx_states@[self.mcx_index.spec_get(k2) as int] == mid.mcx_states@[
                mid.mcx_index.spec_get(k2) as int] by {
                assert(self.mcx_index.spec_get(k2) != idx);
            }
        }
        if enqueue {
            let work = Work { work_type: WorkType::McxDepthSnapshot, key, seq_no: n };
            let ghost tq = work_fifo_seq(&self.tpool_queue);
            self.tpool_queue.push(work);
            proof {
                lemma_counts_push_pub(tq, work);
            }
        }
        accepted
    }

    /// Registers one decoded incremental update: accepted exactly when its
    /// instrument is known, its sequence number strictly exceeds the fence,
    /// and the pending queue has room; then it joins that queue in arrival
    /// order, and a work item is scheduled exactly when this call took the
    /// free single-flight lock.  Anything else — an unseen instrument (no
    /// snapshot yet), a stale number, a full queue — changes nothing, and
    /// the drop never disturbs the rest of the engine.
    pub fn dispatch_mcx_incremental(&mut self, inc: DepthIncrement, msg_seq: u32) -> (accepted:
        bool)
        requires
            wf_core(*old(self)),
        ensures
            wf_core(*final(self)),
            accepted == (inc.security_id >= 0 && old(self).mcx_index.spec_contains(
                inc.security_id as u64,
            ) && msg_seq > spec_mcx_seq_of(*old(self), inc.security_id as u64)
                && spec_mcx_queue_of(*old(self), inc.security_id as u64).len()
                < MAX_MCX_PENDING),
            !accepted ==> final(self).exchange == old(self).exchange && final(self).work_queues
                == old(self).work_queues && final(self).work_locks == old(self).work_locks
                && final(self).nse_map == old(self).nse_map && final(self).mcx_index == old(
                self,
            ).mcx_index && final(self).mcx_states@ == old(self).mcx_states@ && work_fifo_seq(
                &final(self).tpool_queue,
            ) == work_fifo_seq(&old(self).tpool_queue),
            accepted ==> ({
                let key = inc.security_id as u64;
                let st1 = spec_mcx_state_of(*final(self), key);
                &&& spec_mcx_others_unchanged(*old(self), *final(self), key)
                &&& final(self).mcx_index.spec_contains(key)
                &&& final(self).mcx_index.spec_get(key) == old(self).mcx_index.spec_get(key)
                &&& st1.packet_queue@ == spec_mcx_queue_of(*old(self), key).push(
                    McxPendingItem::Increment(inc, msg_seq),
                )
                &&& st1.work_lock
                &&& st1.snapshot == spec_mcx_snapshot_of(*old(self), key)
                &&& st1.seq_no as int == spec_mcx_seq_of(*old(self), key)
                &&& work_fifo_seq(&final(self).tpool_queue) == (if !spec_mcx_lock_of(
                    *old(self),
                    key,
                ) {
                    work_fifo_seq(&old(self).tpool_queue).push(
                        Work { work_type: WorkType::McxDepthIncr, key, seq_no: msg_seq },
                    )
                } else {
                    work_fifo_seq(&old(self).tpool_queue)
                })
            }),
    {
        if inc.security_id < 0 {
            return false;
        }
        let key: u64 = inc.security_id as u64;
        let idx: usize = match self.mcx_index.get(key) {
            Some(i) => *i,
            None => {
                return false;
            },
        };
        let ghost mid = *self;

        let mut st = self.mcx_states.remove(idx);
        let mut enqueue = false;
        let mut accepted = false;
        if msg_seq > st.seq_no && st.packet_queue.len() < MAX_MCX_PENDING {
            st.packet_queue.push(McxPendingItem::Increment(inc, msg_seq));
            accepted = true;
            if !st.work_lock {
                st.work_lock = true;
                enqueue = true;
            }
        }
        let ghost st1 = st;
        self.mcx_states.insert(idx, st);
        proof {
            assert(self.mcx_states@ =~= mid.mcx_states@.update(idx as int, st1));
            assert forall|k2: u64| k2 != key && #[trigger] self.mcx_index.spec_contains(
                k2,
            ) implies self.mcx_states@[self.mcx_index.spec_get(k2) as int] == mid.mcx_states@[
                mid.mcx_index.spec_get(k2) as int] by {
                assert(self.mcx_index.spec_get(k2) != idx);
            }
        }
        if enqueue {
            let work = Work { work_type: WorkType::McxDepthIncr, key, seq_no: msg_seq };
            let ghost tq = work_fifo_seq(&self.tpool_queue);
            self.tpool_queue.push(work);
            proof {
                lemma_counts_push_pub(tq, work);
            }
        }
        accepted
    }
}

} // verus!
