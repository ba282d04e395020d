//! The worker pool: draining FIFO queues and coalescing keys.
//!
//! A worker takes one work item at a time.  For a FIFO item it drains that
//! queue's packets in order, keeping the batch going only while no other
//! work is waiting — otherwise it requeues itself after one packet so every
//! queue makes bounded progress.  For a coalescing item it takes ownership
//! of the key's newest packet, processes it, and re-arms the key if a newer
//! packet arrived meanwhile.  Every path releases the lock or slot it
//! holds, so no queue or key is ever wedged.

use vstd::prelude::*;

use crate::book::{process_mcx_depth_incremental, DepthIncrement, DepthSnapshot, ENTRY_ASK, ENTRY_BID};
use crate::bse_worker::{
    process_bse_compressed, process_bse_uncompressed, spec_bse_compressed_code,
    spec_bse_record_count, spec_bse_trans_code, spec_trunc_i16,
};
use crate::constants::{BUF_SIZE, MAX_MARKET_DEPTH_IDX};
use crate::depth_output::TagMarketPictureBroadcast;
use crate::dispatch::{
    count_fifo, count_mcx, count_nse, lemma_counts_drop_first, spec_is_mcx, wf_core, DispatchCore,
    McxPendingItem, McxTokenState, NseTokenState, TYPE_COUNT,
};
use crate::mcx_worker::{snapshot_to_market_picture, spec_count_type};
use crate::nse_worker::{
    cast_and_twiddle_ncd, cast_and_twiddle_neq, cast_and_twiddle_nfo, spec_ncd_processed,
    spec_neq_processed, spec_nfo_processed,
};
use crate::packet::Packet;
use crate::queues::{packet_fifo_seq, work_fifo_seq, PacketFifo, WorkFifo};
use crate::settings::Exchange;
use crate::work::{spec_is_fifo, spec_work_id, Work, WorkType};

verus! {

/// The bounded worker pool handle: how many workers drain the scheduler's
/// queue.
pub struct ThreadPoolMaster {
    pub num_threads: usize,
}

impl ThreadPoolMaster {
    pub fn new(num_threads: usize) -> (r: ThreadPoolMaster)
        ensures
            r.num_threads == num_threads,
    {
        ThreadPoolMaster { num_threads }
    }
}

// ---------------------------------------------------------------------------
// What one processing step appends to the output, per work type.
// ---------------------------------------------------------------------------

/// How one inner NSE message is processed under each exchange.
pub open spec fn spec_nse_processed_by(ex: Exchange, inp: Packet, outp: Packet, now: u64) -> bool {
    match ex {
        Exchange::NEQ => spec_neq_processed(inp, outp, now),
        Exchange::NFO => spec_nfo_processed(inp, outp, now),
        Exchange::NCD => spec_ncd_processed(inp, outp, now),
        Exchange::BSE => outp == inp,
        Exchange::MCX => outp == inp,
    }
}

/// The output block one packet of a FIFO queue produces: the decompressed
/// records of a compressed BSE picture, the re-serialized record of an
/// uncompressed one, or the packet's own processed form.
pub open spec fn spec_step_ok(
    ex: Exchange,
    wt: WorkType,
    inp: Packet,
    block: Seq<Packet>,
    now: u64,
) -> bool {
    if wt == WorkType::BseCompressed {
        &&& (block.len() == 0 || (spec_bse_compressed_code(inp.data@) && block.len()
            == spec_bse_record_count(inp.data@)))
        &&& forall|i: int| 0 <= i < block.len() ==> (#[trigger] block[i]).wf()
    } else if wt == WorkType::BseUncompressed {
        let tc = spec_trunc_i16(spec_bse_trans_code(inp.data@)) as i16;
        if crate::bse::spec_bse_known(tc) && inp.data@.len() >= crate::bse::spec_bse_size(tc) {
            &&& block.len() == 1
            &&& block[0].wf()
            &&& block[0].len == inp.len
            &&& exists|msg: crate::bse::BseBroadcastTransactionMapping|
                #[trigger] crate::bse::spec_bse_variant_ok(tc, msg, inp.data@) && msg.wf() && (forall|j: int|
                    0 <= j < BUF_SIZE && j < msg.spec_ser().len() ==> block[0].data@[j]
                        == msg.spec_ser()[j]) && (forall|j: int|
                    msg.spec_ser().len() <= j < BUF_SIZE ==> block[0].data@[j] == inp.data@[j])
        } else {
            block.len() == 0
        }
    } else {
        block.len() == 1 && spec_nse_processed_by(ex, inp, block[0], now)
    }
}

/// The blocks of a run of packets, concatenated in packet order: the
/// outputs of a FIFO drain are the per-packet blocks, one after another,
/// in exactly the order the packets were queued.
pub open spec fn spec_outputs_ok(
    ex: Exchange,
    wt: WorkType,
    inputs: Seq<Packet>,
    appended: Seq<Packet>,
    now: u64,
) -> bool
    decreases inputs.len(),
{
    if inputs.len() == 0 {
        appended.len() == 0
    } else {
        exists|m: int|
            #![trigger appended.take(m)]
            0 <= m <= appended.len() && spec_outputs_ok(
                ex,
                wt,
                inputs.drop_last(),
                appended.take(m),
                now,
            ) && spec_step_ok(ex, wt, inputs.last(), appended.skip(m), now)
    }
}

/// One more packet's block extends a valid output run.
proof fn lemma_outputs_ok_step(
    ex: Exchange,
    wt: WorkType,
    inputs: Seq<Packet>,
    appended: Seq<Packet>,
    now: u64,
    m: int,
)
    requires
        inputs.len() > 0,
        0 <= m <= appended.len(),
        spec_outputs_ok(ex, wt, inputs.drop_last(), appended.take(m), now),
        spec_step_ok(ex, wt, inputs.last(), appended.skip(m), now),
    ensures
        spec_outputs_ok(ex, wt, inputs, appended, now),
{
    assert(appended.take(m).len() <= appended.len());
}

/// Applies the processing step of one FIFO packet and appends its outputs.
fn process_fifo_packet(
    ex: Exchange,
    wt: WorkType,
    packet: &mut Packet,
    out: &mut Vec<Packet>,
    now_us: u64,
) -> (r: bool)
    requires
        old(packet).wf(),
        spec_is_fifo(wt),
    ensures
        final(packet).wf(),
        final(out)@.len() >= old(out)@.len(),
        forall|i: int| 0 <= i < old(out)@.len() ==> final(out)@[i] == old(out)@[i],
        spec_step_ok(
            ex,
            wt,
            *old(packet),
            final(out)@.skip(old(out)@.len() as int),
            now_us,
        ),
{
    let ghost pre = out@;
    match wt {
        WorkType::BseCompressed => {
            let ok = process_bse_compressed(packet, out, now_us);
            proof {
                let block = out@.skip(pre.len() as int);
                if ok {
                    assert(block.len() == spec_bse_record_count(old(packet).data@));
                    assert forall|i: int| 0 <= i < block.len() implies (
                    #[trigger] block[i]).wf() by {
                        assert(block[i] == out@[pre.len() + i]);
                    }
                } else {
                    assert(out@ =~= pre);
                    assert(block.len() == 0);
                }
            }
            ok
        },
        WorkType::BseUncompressed => {
            let ok = process_bse_uncompressed(packet, out);
            proof {
                if ok {
                    assert(out@.skip(pre.len() as int).len() == 1);
                    assert(out@.skip(pre.len() as int)[0] == out@[pre.len() as int]);
                } else {
                    assert(out@.skip(pre.len() as int).len() == 0);
                }
            }
            ok
        },
        _ => {
            match ex {
                Exchange::NEQ => {
                    cast_and_twiddle_neq(packet, now_us);
                },
                Exchange::NFO => {
                    cast_and_twiddle_nfo(packet, now_us);
                },
                Exchange::NCD => {
                    cast_and_twiddle_ncd(packet, now_us);
                },
                Exchange::BSE => {},
                Exchange::MCX => {},
            }
            let mut copy = packet.dup();
            core::mem::swap(packet, &mut copy);
            out.push(copy);
            proof {
                assert(out@.skip(pre.len() as int).len() == 1);
                assert(out@.skip(pre.len() as int)[0] == out@[pre.len() as int]);
            }
            true
        },
    }
}

/// Every packet stored in the engine's FIFO queues is a well-formed
/// buffer.
pub open spec fn wf_queue_packets(c: DispatchCore) -> bool {
    forall|q: int, i: int|
        0 <= q < c.work_queues@.len() && 0 <= i < packet_fifo_seq(
            &#[trigger] c.work_queues@[q],
        ).len() ==> packet_fifo_seq(&c.work_queues@[q])[i].wf()
}

/// Every packet parked in a coalescing slot is a well-formed buffer.
pub open spec fn wf_slot_packets(c: DispatchCore) -> bool {
    forall|k: u64|
        #[trigger] c.nse_map.spec_contains(k) && c.nse_map.spec_get(k).slot is Some
            ==> c.nse_map.spec_get(k).slot->0.wf()
}

/// The engine as a worker that just took FIFO item `w` sees it: the item is
/// out of the scheduler queue, its queue's lock is held, and everything
/// else satisfies the single-flight invariant.
pub open spec fn wf_running_fifo(c: DispatchCore, w: Work) -> bool {
    let tq = work_fifo_seq(&c.tpool_queue);
    let qid = spec_work_id(w.work_type);
    &&& spec_is_fifo(w.work_type)
    &&& 0 <= qid < TYPE_COUNT
    &&& c.work_queues@.len() == TYPE_COUNT
    &&& c.work_locks@.len() == TYPE_COUNT
    &&& c.work_locks@[qid]
    &&& count_fifo(tq, qid) == 0
    &&& forall|i: int|
        0 <= i < tq.len() && spec_is_fifo((#[trigger] tq[i]).work_type) ==> 0 <= spec_work_id(
            tq[i].work_type,
        ) < TYPE_COUNT
    &&& forall|q2: int|
        0 <= q2 < TYPE_COUNT && q2 != qid ==> count_fifo(tq, q2) == (if c.work_locks@[q2] {
            1int
        } else {
            0int
        })
    &&& forall|k: u64|
        #[trigger] count_nse(tq, k) == (if c.nse_map.spec_contains(k) && c.nse_map.spec_get(
            k,
        ).slot is Some {
            1int
        } else {
            0int
        })
    &&& forall|k: u64|
        #[trigger] count_mcx(tq, k) == (if c.mcx_index.spec_contains(k) && c.mcx_index.spec_get(k)
            < c.mcx_states@.len() && c.mcx_states@[c.mcx_index.spec_get(k) as int].work_lock {
            1int
        } else {
            0int
        })
    &&& forall|k: u64|
        #[trigger] c.mcx_index.spec_contains(k) ==> c.mcx_index.spec_get(k) < c.mcx_states@.len()
    &&& forall|k1: u64, k2: u64|
        #[trigger] c.mcx_index.spec_contains(k1) && #[trigger] c.mcx_index.spec_contains(k2) && k1
            != k2 ==> c.mcx_index.spec_get(k1) != c.mcx_index.spec_get(k2)
    &&& forall|i: int|
        0 <= i < c.mcx_states@.len() && (#[trigger] c.mcx_states@[i]).snapshot is Some
            ==> c.mcx_states@[i].snapshot->0.msg_seq_num is Some
}

/// Drains the FIFO queue of one work item: packets leave in the exact
/// order they were pushed, each contributing its output block in turn.
/// With other work pending in the scheduler queue the drain stops after
/// one packet and requeues itself; with none it drains to empty and
/// releases the queue's lock.
#[verifier::rlimit(100)]
pub fn work_on_queue(
    core: &mut DispatchCore,
    out: &mut Vec<Packet>,
    work: Work,
    now_us: u64,
) -> (processed: usize)
    requires
        wf_running_fifo(*old(core), work),
        wf_queue_packets(*old(core)),
        wf_slot_packets(*old(core)),
    ensures
        wf_core(*final(core)),
        wf_queue_packets(*final(core)),
        wf_slot_packets(*final(core)),
        final(out)@.len() >= old(out)@.len(),
        forall|i: int| 0 <= i < old(out)@.len() ==> final(out)@[i] == old(out)@[i],
        ({
            let qid = spec_work_id(work.work_type);
            let q0 = packet_fifo_seq(&old(core).work_queues@[qid]);
            let tq0 = work_fifo_seq(&old(core).tpool_queue);
            &&& processed as int == (if tq0.len() == 0 {
                q0.len() as int
            } else if q0.len() > 0 {
                1int
            } else {
                0int
            })
            &&& packet_fifo_seq(&final(core).work_queues@[qid]) == q0.skip(processed as int)
            &&& spec_outputs_ok(
                old(core).exchange,
                work.work_type,
                q0.take(processed as int),
                final(out)@.skip(old(out)@.len() as int),
                now_us,
            )
            &&& (processed < q0.len() ==> work_fifo_seq(&final(core).tpool_queue)
                == work_fifo_seq(&old(core).tpool_queue).push(work) && final(core).work_locks@
                == old(core).work_locks@)
            &&& (processed == q0.len() ==> work_fifo_seq(&final(core).tpool_queue)
                == work_fifo_seq(&old(core).tpool_queue) && final(core).work_locks@ == old(
                core,
            ).work_locks@.update(qid, false))
            &&& forall|q2: int|
                0 <= q2 < TYPE_COUNT && q2 != qid ==> packet_fifo_seq(
                    &#[trigger] final(core).work_queues@[q2],
                ) == packet_fifo_seq(&old(core).work_queues@[q2])
            &&& final(core).exchange == old(core).exchange
            &&& final(core).nse_map == old(core).nse_map
            &&& final(core).mcx_index == old(core).mcx_index
            &&& final(core).mcx_states == old(core).mcx_states
        }),
{
    let qid = work.work_type.get_id();
    let ghost q0 = packet_fifo_seq(&core.work_queues@[qid as int]);
    let ghost tq0 = work_fifo_seq(&core.tpool_queue);
    let ghost out0 = out@;
    let tpool_empty_at_entry = self_tpool_is_empty(core);
    let n0: usize = core.work_queues[qid].len();
    let mut processed: usize = 0;

    loop
        invariant
            wf_running_fifo(*core, work),
            wf_queue_packets(*core),
            wf_slot_packets(*core),
            qid as int == spec_work_id(work.work_type),
            0 <= qid < TYPE_COUNT,
            out0 == old(out)@,
            q0 == packet_fifo_seq(&old(core).work_queues@[qid as int]),
            q0.len() == n0,
            tq0 == work_fifo_seq(&old(core).tpool_queue),
            core.work_locks@ == old(core).work_locks@,
            tpool_empty_at_entry == (tq0.len() == 0),
            work_fifo_seq(&core.tpool_queue) == tq0,
            processed <= q0.len(),
            packet_fifo_seq(&core.work_queues@[qid as int]) == q0.skip(processed as int),
            spec_outputs_ok(
                core.exchange,
                work.work_type,
                q0.take(processed as int),
                out@.skip(out0.len() as int),
                now_us,
            ),
            out@.len() >= out0.len(),
            forall|i: int| 0 <= i < out0.len() ==> out@[i] == out0[i],
            !tpool_empty_at_entry ==> processed == 0 || (processed == 1 && q0.len() == 1),
            forall|q2: int|
                0 <= q2 < TYPE_COUNT && q2 != qid ==> packet_fifo_seq(
                    &#[trigger] core.work_queues@[q2],
                ) == packet_fifo_seq(&old(core).work_queues@[q2]),
            core.exchange == old(core).exchange,
            core.nse_map == old(core).nse_map,
            core.mcx_index == old(core).mcx_index,
            core.mcx_states == old(core).mcx_states,
        ensures
            wf_running_fifo(*core, work),
            wf_queue_packets(*core),
            wf_slot_packets(*core),
            out0 == old(out)@,
            q0 == packet_fifo_seq(&old(core).work_queues@[qid as int]),
            tq0 == work_fifo_seq(&old(core).tpool_queue),
            core.work_locks@ == old(core).work_locks@,
            work_fifo_seq(&core.tpool_queue) == tq0,
            out@.len() >= out0.len(),
            forall|i: int| 0 <= i < out0.len() ==> out@[i] == out0[i],
            packet_fifo_seq(&core.work_queues@[qid as int]) == q0.skip(processed as int),
            spec_outputs_ok(
                core.exchange,
                work.work_type,
                q0.take(processed as int),
                out@.skip(out0.len() as int),
                now_us,
            ),
            processed as int == (if tq0.len() == 0 {
                q0.len() as int
            } else if q0.len() > 0 {
                1int
            } else {
                0int
            }),
            forall|q2: int|
                0 <= q2 < TYPE_COUNT && q2 != qid ==> packet_fifo_seq(
                    &#[trigger] core.work_queues@[q2],
                ) == packet_fifo_seq(&old(core).work_queues@[q2]),
            core.exchange == old(core).exchange,
            core.nse_map == old(core).nse_map,
            core.mcx_index == old(core).mcx_index,
            core.mcx_states == old(core).mcx_states,
        decreases q0.len() - processed,
    {
        let ghost ws_before = core.work_queues@;
        let mut q = core.work_queues.remove(qid);
        let popped = q.pop();
        core.work_queues.insert(qid, q);
        proof {
            assert(core.work_queues@ =~= ws_before.update(
                qid as int,
                core.work_queues@[qid as int],
            ));
        }
        match popped {
            None => {
                proof {
                    assert(q0.skip(processed as int).len() == 0);
                    assert(processed == q0.len());
                }
                break ;
            },
            Some(mut packet) => {
                proof {
                    assert(q0.skip(processed as int)[0] == q0[processed as int]);
                    assert(q0.skip(processed as int).drop_first() =~= q0.skip(
                        processed as int + 1,
                    ));
                }
                let ghost before_block = out@;
                process_fifo_packet(core.exchange, work.work_type, &mut packet, out, now_us);
                processed = processed + 1;
                proof {
                    let inputs = q0.take(processed as int);
                    assert(inputs.drop_last() =~= q0.take(processed as int - 1));
                    assert(inputs.last() == q0[processed as int - 1]);
                    let appended = out@.skip(out0.len() as int);
                    let m = before_block.len() - out0.len() as int;
                    assert(appended.take(m) =~= before_block.skip(out0.len() as int));
                    assert(appended.skip(m) =~= out@.skip(before_block.len() as int));
                    assert(spec_outputs_ok(
                        core.exchange,
                        work.work_type,
                        inputs.drop_last(),
                        appended.take(m),
                        now_us,
                    ));
                    assert(spec_step_ok(
                        core.exchange,
                        work.work_type,
                        q0[processed as int - 1],
                        appended.skip(m),
                        now_us,
                    ));
                    lemma_outputs_ok_step(
                        core.exchange,
                        work.work_type,
                        inputs,
                        appended,
                        now_us,
                        m,
                    );

                }
                let empty_now = {
                    let qq = &core.work_queues[qid];
                    qq.is_empty()
                };
                if !empty_now {
                    if !tpool_empty_at_entry {
                        // Other work is waiting: requeue this queue's item
                        // and yield the worker.
                        let ghost tqb = work_fifo_seq(&core.tpool_queue);
                        core.tpool_queue.push(work);
                        proof {
                            crate::dispatch::lemma_counts_push_pub(tqb, work);
                        }
                        return processed;
                    }
                }
            },
        }
    }

    // Queue observed empty: release the lock, then close the race window by
    // re-checking emptiness and re-arming if a packet arrived meanwhile.
    core.work_locks.set(qid, false);
    let still_nonempty = !core.work_queues[qid].is_empty();
    if still_nonempty && !core.work_locks[qid] {
        core.work_locks.set(qid, true);
        let ghost tqb = work_fifo_seq(&core.tpool_queue);
        core.tpool_queue.push(work);
        proof {
            crate::dispatch::lemma_counts_push_pub(tqb, work);
        }
    }
    processed
}

/// Whether the scheduler queue is empty right now.
fn self_tpool_is_empty(core: &DispatchCore) -> (r: bool)
    ensures
        r == (work_fifo_seq(&core.tpool_queue).len() == 0),
{
    core.tpool_queue.is_empty()
}


// ---------------------------------------------------------------------------
// Coalescing keys: take the newest value, process it, re-arm if needed.
// ---------------------------------------------------------------------------

/// The engine as a worker that just took token-wise item `w` sees it.
pub open spec fn wf_running_token(c: DispatchCore, w: Work) -> bool {
    let tq = work_fifo_seq(&c.tpool_queue);
    &&& w.work_type matches WorkType::TokenWise(_)
    &&& c.work_queues@.len() == TYPE_COUNT
    &&& c.work_locks@.len() == TYPE_COUNT
    &&& count_nse(tq, w.key) == 0
    &&& c.nse_map.spec_contains(w.key)
    &&& c.nse_map.spec_get(w.key).slot is Some
    &&& forall|i: int|
        0 <= i < tq.len() && spec_is_fifo((#[trigger] tq[i]).work_type) ==> 0 <= spec_work_id(
            tq[i].work_type,
        ) < TYPE_COUNT
    &&& forall|qid: int|
        0 <= qid < TYPE_COUNT ==> count_fifo(tq, qid) == (if c.work_locks@[qid] {
            1int
        } else {
            0int
        })
    &&& forall|k: u64|
        k != w.key ==> #[trigger] count_nse(tq, k) == (if c.nse_map.spec_contains(k)
            && c.nse_map.spec_get(k).slot is Some {
            1int
        } else {
            0int
        })
    &&& forall|k: u64|
        #[trigger] count_mcx(tq, k) == (if c.mcx_index.spec_contains(k) && c.mcx_index.spec_get(k)
            < c.mcx_states@.len() && c.mcx_states@[c.mcx_index.spec_get(k) as int].work_lock {
            1int
        } else {
            0int
        })
    &&& forall|k: u64|
        #[trigger] c.mcx_index.spec_contains(k) ==> c.mcx_index.spec_get(k) < c.mcx_states@.len()
    &&& forall|k1: u64, k2: u64|
        #[trigger] c.mcx_index.spec_contains(k1) && #[trigger] c.mcx_index.spec_contains(k2) && k1
            != k2 ==> c.mcx_index.spec_get(k1) != c.mcx_index.spec_get(k2)
    &&& forall|i: int|
        0 <= i < c.mcx_states@.len() && (#[trigger] c.mcx_states@[i]).snapshot is Some
            ==> c.mcx_states@[i].snapshot->0.msg_seq_num is Some
}

/// Works off one coalescing key: takes ownership of the newest packet by
/// swapping the slot to idle, processes it, writes the result out, and —
/// had a newer packet arrived meanwhile — would requeue a fresh item for
/// the key rather than strand it.
pub fn work_on_map(core: &mut DispatchCore, out: &mut Vec<Packet>, work: Work, now_us: u64)
    requires
        wf_running_token(*old(core), work),
        wf_queue_packets(*old(core)),
        wf_slot_packets(*old(core)),
    ensures
        wf_core(*final(core)),
        wf_queue_packets(*final(core)),
        wf_slot_packets(*final(core)),
        final(out)@.len() == old(out)@.len() + 1,
        forall|i: int| 0 <= i < old(out)@.len() ==> final(out)@[i] == old(out)@[i],
        spec_nse_processed_by(
            old(core).exchange,
            old(core).nse_map.spec_get(work.key).slot->0,
            final(out)@.last(),
            now_us,
        ),
        final(core).nse_map.spec_contains(work.key),
        final(core).nse_map.spec_get(work.key).slot is None,
        work_fifo_seq(&final(core).tpool_queue) == work_fifo_seq(&old(core).tpool_queue),
        final(core).work_queues == old(core).work_queues,
        final(core).work_locks == old(core).work_locks,
        final(core).exchange == old(core).exchange,
        final(core).mcx_index == old(core).mcx_index,
        final(core).mcx_states == old(core).mcx_states,
{
    let taken = core.nse_map.insert(work.key, NseTokenState { slot: None });
    let mut packet = match taken {
        Some(st) => match st.slot {
            Some(p) => p,
            None => {
                proof {
                    assert(false);
                }
                Packet::empty()
            },
        },
        None => {
            proof {
                assert(false);
            }
            Packet::empty()
        },
    };

    match core.exchange {
        Exchange::NEQ => {
            cast_and_twiddle_neq(&mut packet, now_us);
        },
        Exchange::NFO => {
            cast_and_twiddle_nfo(&mut packet, now_us);
        },
        Exchange::NCD => {
            cast_and_twiddle_ncd(&mut packet, now_us);
        },
        Exchange::BSE => {},
        Exchange::MCX => {},
    }
    out.push(packet);

    // Re-arm the key if a newer packet landed in the slot while this one
    // was being processed.
    let rearm = match core.nse_map.get(work.key) {
        Some(st) => st.slot.is_some(),
        None => false,
    };
    if rearm {
        let ghost tq = work_fifo_seq(&core.tpool_queue);
        core.tpool_queue.push(work);
        proof {
            crate::dispatch::lemma_counts_push_pub(tq, work);
        }
    }
}

// ---------------------------------------------------------------------------
// MCX keys: drain the instrument's pending updates against its book.
// ---------------------------------------------------------------------------

/// The engine as a worker that just took MCX item `w` sees it.
pub open spec fn wf_running_mcx(c: DispatchCore, w: Work) -> bool {
    let tq = work_fifo_seq(&c.tpool_queue);
    &&& spec_is_mcx(w.work_type)
    &&& c.work_queues@.len() == TYPE_COUNT
    &&& c.work_locks@.len() == TYPE_COUNT
    &&& count_mcx(tq, w.key) == 0
    &&& c.mcx_index.spec_contains(w.key)
    &&& c.mcx_index.spec_get(w.key) < c.mcx_states@.len()
    &&& c.mcx_states@[c.mcx_index.spec_get(w.key) as int].work_lock
    &&& forall|i: int|
        0 <= i < tq.len() && spec_is_fifo((#[trigger] tq[i]).work_type) ==> 0 <= spec_work_id(
            tq[i].work_type,
        ) < TYPE_COUNT
    &&& forall|qid: int|
        0 <= qid < TYPE_COUNT ==> count_fifo(tq, qid) == (if c.work_locks@[qid] {
            1int
        } else {
            0int
        })
    &&& forall|k: u64|
        #[trigger] count_nse(tq, k) == (if c.nse_map.spec_contains(k) && c.nse_map.spec_get(
            k,
        ).slot is Some {
            1int
        } else {
            0int
        })
    &&& forall|k: u64|
        k != w.key ==> #[trigger] count_mcx(tq, k) == (if c.mcx_index.spec_contains(k)
            && c.mcx_index.spec_get(k) < c.mcx_states@.len() && c.mcx_states@[c.mcx_index.spec_get(
            k,
        ) as int].work_lock {
            1int
        } else {
            0int
        })
    &&& forall|k: u64|
        #[trigger] c.mcx_index.spec_contains(k) ==> c.mcx_index.spec_get(k) < c.mcx_states@.len()
    &&& forall|k1: u64, k2: u64|
        #[trigger] c.mcx_index.spec_contains(k1) && #[trigger] c.mcx_index.spec_contains(k2) && k1
            != k2 ==> c.mcx_index.spec_get(k1) != c.mcx_index.spec_get(k2)
    &&& forall|i: int|
        0 <= i < c.mcx_states@.len() && (#[trigger] c.mcx_states@[i]).snapshot is Some
            ==> c.mcx_states@[i].snapshot->0.msg_seq_num is Some
}

/// Counts the snapshot's depth rows of one side.
fn count_entries_of_type(entries: &Vec<crate::book::DepthEntry>, et: u32) -> (r: usize)
    ensures
        r as int == spec_count_type(entries@, et),
{
    let n = entries.len();
    let mut c: usize = 0;
    let mut i: usize = 0;
    while i < n
        invariant
            i <= n,
            n == entries@.len(),
            c <= i,
            c as int == spec_count_type(entries@.take(i as int), et),
        decreases n - i,
    {
        proof {
            let t = entries@.take(i + 1);
            assert(t.drop_last() =~= entries@.take(i as int));
            assert(t.last() == entries@[i as int]);
        }
        if entries[i].entry_type == et {
            c = c + 1;
        }
        i = i + 1;
    }
    proof {
        assert(entries@.take(n as int) =~= entries@);
    }
    c
}

/// All price levels the book holds are small enough that one more level
/// shift cannot overflow, and the book itself is small enough to patch.
fn check_book_bounds(entries: &Vec<crate::book::DepthEntry>) -> (r: bool)
    ensures
        r == (entries@.len() < 100_000_000 && forall|i: int|
            0 <= i < entries@.len() && (#[trigger] entries@[i]).price_level is Some
                ==> entries@[i].price_level->0 < 0xffff_ffff),
{
    let n = entries.len();
    if n >= 100_000_000 {
        return false;
    }
    let mut i: usize = 0;
    while i < n
        invariant
            i <= n,
            n == entries@.len(),
            forall|j: int|
                0 <= j < i && (#[trigger] entries@[j]).price_level is Some
                    ==> entries@[j].price_level->0 < 0xffff_ffff,
        decreases n - i,
    {
        match entries[i].price_level {
            Some(l) => {
                if !(l < 0xffff_ffff) {
                    return false;
                }
            },
            None => {},
        }
        i = i + 1;
    }
    true
}

/// The bounds under which an incremental update can be applied at all:
/// the book is small enough to patch, and no stored or incoming level can
/// overflow a one-step shift.
pub open spec fn spec_mcx_bounds_ok(snap: DepthSnapshot, inc: DepthIncrement) -> bool {
    &&& snap.entries@.len() < 100_000_000
    &&& (inc.price_level is Some ==> inc.price_level->0 < 0xffff_ffff)
    &&& forall|i: int|
        0 <= i < snap.entries@.len() && (#[trigger] snap.entries@[i]).price_level is Some
            ==> snap.entries@[i].price_level->0 < 0xffff_ffff
}

/// What emitting one instrument's book appends: exactly one packet holding
/// the serialized normalized picture when the depth fits the output record,
/// nothing otherwise.
pub open spec fn spec_emit_ok(snap: DepthSnapshot, block: Seq<Packet>, now: u64) -> bool {
    let bids = spec_count_type(snap.entries@, ENTRY_BID);
    let asks = spec_count_type(snap.entries@, ENTRY_ASK);
    if bids <= MAX_MARKET_DEPTH_IDX && asks <= MAX_MARKET_DEPTH_IDX - bids {
        &&& block.len() == 1
        &&& exists|pic: TagMarketPictureBroadcast|
            #![trigger pic.spec_ser()]
            pic.wf() && crate::mcx_worker::spec_picture_of(snap, pic, now) && block[0].data@
                == Seq::new(
                BUF_SIZE as nat,
                |k: int|
                    if k < pic.spec_ser().len() {
                        pic.spec_ser()[k]
                    } else {
                        0u8
                    },
            )
        &&& block[0].len as int == (if crate::nse_worker::TAG_PICTURE_BASE_LEN
            + crate::nse_worker::TAG_DEPTH_ROW_LEN * (bids + asks) <= BUF_SIZE {
            crate::nse_worker::TAG_PICTURE_BASE_LEN + crate::nse_worker::TAG_DEPTH_ROW_LEN * (bids
                + asks)
        } else {
            BUF_SIZE as int
        })
    } else {
        block.len() == 0
    }
}

/// One pending MCX item's effect: a refresh marker emits the current book
/// and changes nothing; an increment is applied under the bounds and the
/// sequence fence, advancing the fence and emitting the updated book, or
/// is dropped whole.
pub open spec fn spec_mcx_step_ok(
    item: McxPendingItem,
    s0: Option<DepthSnapshot>,
    q0: u32,
    s1: Option<DepthSnapshot>,
    q1: u32,
    block: Seq<Packet>,
    now: u64,
) -> bool {
    match item {
        McxPendingItem::Refresh => s1 == s0 && q1 == q0 && (match s0 {
            Option::Some(snap) => spec_emit_ok(snap, block, now),
            Option::None => block.len() == 0,
        }),
        McxPendingItem::Increment(inc, mseq) => match s0 {
            Option::None => s1 == s0 && q1 == q0 && block.len() == 0,
            Option::Some(snap) => {
                if spec_mcx_bounds_ok(snap, inc) && crate::book::spec_gate_applies(
                    q0,
                    mseq,
                    inc,
                ) {
                    &&& q1 == mseq
                    &&& s1 matches Option::Some(ns) && ns.entries@
                        == crate::book::spec_apply_action(snap.entries@, inc) && ns.msg_seq_num
                        == Some(mseq) && ns.security_id == snap.security_id
                        && ns.last_update_time == snap.last_update_time && ns.total_buy_qty
                        == snap.total_buy_qty && ns.total_sell_qty == snap.total_sell_qty
                        && spec_emit_ok(ns, block, now)
                } else {
                    s1 == s0 && q1 == q0 && block.len() == 0
                }
            },
        },
    }
}

/// A run of pending items drained in arrival order: each item's block
/// follows the previous one's in the output, with the book and fence
/// threaded through.
pub open spec fn spec_mcx_drain_ok(
    items: Seq<McxPendingItem>,
    s0: Option<DepthSnapshot>,
    q0: u32,
    s1: Option<DepthSnapshot>,
    q1: u32,
    appended: Seq<Packet>,
    now: u64,
) -> bool
    decreases items.len(),
{
    if items.len() == 0 {
        s1 == s0 && q1 == q0 && appended.len() == 0
    } else {
        exists|m: int, sm: Option<DepthSnapshot>, qm: u32|
            #![trigger spec_mcx_step_ok(items.first(), s0, q0, sm, qm, appended.take(m), now)]
            0 <= m <= appended.len() && spec_mcx_step_ok(
                items.first(),
                s0,
                q0,
                sm,
                qm,
                appended.take(m),
                now,
            ) && spec_mcx_drain_ok(items.drop_first(), sm, qm, s1, q1, appended.skip(m), now)
    }
}

/// One more drained item extends a valid drain run.
#[verifier::rlimit(100)]
#[verifier::spinoff_prover]
proof fn lemma_mcx_drain_snoc(
    items: Seq<McxPendingItem>,
    item: McxPendingItem,
    s0: Option<DepthSnapshot>,
    q0: u32,
    sm: Option<DepthSnapshot>,
    qm: u32,
    s1: Option<DepthSnapshot>,
    q1: u32,
    app1: Seq<Packet>,
    block: Seq<Packet>,
    now: u64,
)
    requires
        spec_mcx_drain_ok(items, s0, q0, sm, qm, app1, now),
        spec_mcx_step_ok(item, sm, qm, s1, q1, block, now),
    ensures
        spec_mcx_drain_ok(items.push(item), s0, q0, s1, q1, app1 + block, now),
    decreases items.len(),
{
    let full = items.push(item);
    let appended = app1 + block;
    if items.len() == 0 {
        assert(full.first() == item);
        assert(full.drop_first() =~= Seq::<McxPendingItem>::empty());
        assert(sm == s0 && qm == q0 && app1.len() == 0);
        let m = block.len() as int;
        assert(appended.take(m) =~= block);
        assert(appended.skip(m) =~= Seq::<Packet>::empty());
        assert(spec_mcx_step_ok(full.first(), s0, q0, s1, q1, appended.take(m), now));
        assert(spec_mcx_drain_ok(full.drop_first(), s1, q1, s1, q1, appended.skip(m), now));
    } else {
        let (m0, sa, qa): (int, Option<DepthSnapshot>, u32) = choose|
            m0: int,
            sa: Option<DepthSnapshot>,
            qa: u32,
        |
            0 <= m0 <= app1.len() && #[trigger] spec_mcx_step_ok(
                items.first(),
                s0,
                q0,
                sa,
                qa,
                app1.take(m0),
                now,
            ) && spec_mcx_drain_ok(items.drop_first(), sa, qa, sm, qm, app1.skip(m0), now);
        lemma_mcx_drain_snoc(
            items.drop_first(),
            item,
            sa,
            qa,
            sm,
            qm,
            s1,
            q1,
            app1.skip(m0),
            block,
            now,
        );
        assert(full.first() == items.first());
        assert(full.drop_first() =~= items.drop_first().push(item));
        assert(appended.take(m0) =~= app1.take(m0));
        assert(appended.skip(m0) =~= app1.skip(m0) + block);
        assert(spec_mcx_step_ok(full.first(), s0, q0, sa, qa, appended.take(m0), now));
        assert(spec_mcx_drain_ok(full.drop_first(), sa, qa, s1, q1, appended.skip(m0), now));
    }
}

/// Cap on items drained in one run, so a run provably terminates even on a
/// pathological queue.
pub const MAX_MCX_DRAIN: usize = 200_000;

/// Converts the instrument's current book to an output packet, when its
/// depth fits the output record.
fn emit_mcx_picture(snap: &DepthSnapshot, out: &mut Vec<Packet>, now_us: u64)
    requires
        snap.msg_seq_num is Some,
    ensures
        final(out)@.len() >= old(out)@.len(),
        forall|i: int| 0 <= i < old(out)@.len() ==> final(out)@[i] == old(out)@[i],
        spec_emit_ok(*snap, final(out)@.skip(old(out)@.len() as int), now_us),
{
    let ghost pre = out@;
    let bids = count_entries_of_type(&snap.entries, ENTRY_BID);
    let asks = count_entries_of_type(&snap.entries, ENTRY_ASK);
    if bids <= MAX_MARKET_DEPTH_IDX && asks <= MAX_MARKET_DEPTH_IDX - bids {
        let pic = snapshot_to_market_picture(snap, now_us);
        let bytes = pic.to_bytes_vec();
        proof {
            pic.lemma_ser_len();
            crate::mcx_worker::lemma_depth_rows_len_pub(snap.entries@);
        }
        let mut p = Packet::from_bytes(bytes.as_slice());
        let len16 = pic.msg_header.message_length;
        if len16 >= 0 && len16 <= BUF_SIZE as i16 {
            p.len = len16 as usize;
        }
        out.push(p);
        proof {
            assert(out@.skip(pre.len() as int).len() == 1);
            assert(out@.skip(pre.len() as int)[0] == out@[pre.len() as int]);
        }
    } else {
        proof {
            assert(out@.skip(pre.len() as int).len() == 0);
        }
    }
}

/// Works off one MCX instrument: drains its pending refresh markers and
/// incremental updates in arrival order, each applied against the live
/// book under the sequence fence and emitting one normalized picture, with
/// the same fairness rule as the FIFO queues — other work pending stops
/// the drain after one item.  Every exit releases the instrument's lock or
/// requeues the item with the lock held, so the key is never wedged.
#[verifier::rlimit(100)]
pub fn work_on_mcx(core: &mut DispatchCore, out: &mut Vec<Packet>, work: Work, now_us: u64)
    requires
        wf_running_mcx(*old(core), work),
        wf_queue_packets(*old(core)),
        wf_slot_packets(*old(core)),
    ensures
        wf_core(*final(core)),
        wf_queue_packets(*final(core)),
        wf_slot_packets(*final(core)),
        final(out)@.len() >= old(out)@.len(),
        forall|i: int| 0 <= i < old(out)@.len() ==> final(out)@[i] == old(out)@[i],
        ({
            let key = work.key;
            let st0 = crate::dispatch::spec_mcx_state_of(*old(core), key);
            let tq0 = work_fifo_seq(&old(core).tpool_queue);
            let n = (if tq0.len() == 0 {
                if st0.packet_queue@.len() <= MAX_MCX_DRAIN {
                    st0.packet_queue@.len() as int
                } else {
                    MAX_MCX_DRAIN as int
                }
            } else if st0.packet_queue@.len() > 0 {
                1int
            } else {
                0int
            });
            let st1 = crate::dispatch::spec_mcx_state_of(*final(core), key);
            &&& crate::dispatch::spec_mcx_others_unchanged(*old(core), *final(core), key)
            &&& final(core).mcx_index.spec_contains(key)
            &&& final(core).mcx_index.spec_get(key) == old(core).mcx_index.spec_get(key)
            &&& st1.packet_queue@ == st0.packet_queue@.skip(n)
            &&& spec_mcx_drain_ok(
                st0.packet_queue@.take(n),
                st0.snapshot,
                st0.seq_no,
                st1.snapshot,
                st1.seq_no,
                final(out)@.skip(old(out)@.len() as int),
                now_us,
            )
            &&& (st1.packet_queue@.len() == 0 ==> !st1.work_lock && work_fifo_seq(
                &final(core).tpool_queue,
            ) == tq0)
            &&& (st1.packet_queue@.len() > 0 ==> st1.work_lock && work_fifo_seq(
                &final(core).tpool_queue,
            ) == tq0.push(work))
        }),
{
    let idx: usize = match core.mcx_index.get(work.key) {
        Some(i) => *i,
        None => {
            proof {
                assert(false);
            }
            0
        },
    };
    let ghost mid = *core;
    let tpool_empty_at_entry = core.tpool_queue.is_empty();
    let mut st = core.mcx_states.remove(idx);
    let ghost st0 = st;
    let ghost out0 = out@;

    let mut j: usize = 0;
    let mut requeue = false;
    loop
        invariant
            st0 == crate::dispatch::spec_mcx_state_of(*old(core), work.key),
            out0 == old(out)@,
            tpool_empty_at_entry == (work_fifo_seq(&old(core).tpool_queue).len() == 0),
            j <= st0.packet_queue@.len(),
            j <= MAX_MCX_DRAIN,
            !tpool_empty_at_entry ==> j <= 1,
            !requeue,
            st.packet_queue@ == st0.packet_queue@.skip(j as int),
            st.work_lock == st0.work_lock,
            st.snapshot matches Some(sp) ==> sp.msg_seq_num is Some,
            spec_mcx_drain_ok(
                st0.packet_queue@.take(j as int),
                st0.snapshot,
                st0.seq_no,
                st.snapshot,
                st.seq_no,
                out@.skip(out0.len() as int),
                now_us,
            ),
            out@.len() >= out0.len(),
            forall|i: int| 0 <= i < out0.len() ==> out@[i] == out0[i],
            core.exchange == mid.exchange,
            core.work_queues == mid.work_queues,
            core.work_locks == mid.work_locks,
            core.nse_map == mid.nse_map,
            core.mcx_index == mid.mcx_index,
            core.mcx_states@ == mid.mcx_states@.remove(idx as int),
            work_fifo_seq(&core.tpool_queue) == work_fifo_seq(&mid.tpool_queue),
            mid == *old(core),
            idx as int == mid.mcx_index.spec_get(work.key),
            idx < mid.mcx_states@.len(),
        ensures
            st0 == crate::dispatch::spec_mcx_state_of(*old(core), work.key),
            out0 == old(out)@,
            st.packet_queue@ == st0.packet_queue@.skip(j as int),
            st.work_lock == st0.work_lock,
            st.snapshot matches Some(sp) ==> sp.msg_seq_num is Some,
            spec_mcx_drain_ok(
                st0.packet_queue@.take(j as int),
                st0.snapshot,
                st0.seq_no,
                st.snapshot,
                st.seq_no,
                out@.skip(out0.len() as int),
                now_us,
            ),
            out@.len() >= out0.len(),
            forall|i: int| 0 <= i < out0.len() ==> out@[i] == out0[i],
            core.exchange == mid.exchange,
            core.work_queues == mid.work_queues,
            core.work_locks == mid.work_locks,
            core.nse_map == mid.nse_map,
            core.mcx_index == mid.mcx_index,
            core.mcx_states@ == mid.mcx_states@.remove(idx as int),
            work_fifo_seq(&core.tpool_queue) == work_fifo_seq(&mid.tpool_queue),
            mid == *old(core),
            idx as int == mid.mcx_index.spec_get(work.key),
            idx < mid.mcx_states@.len(),
            j as int == (if work_fifo_seq(&old(core).tpool_queue).len() == 0 {
                if st0.packet_queue@.len() <= MAX_MCX_DRAIN {
                    st0.packet_queue@.len() as int
                } else {
                    MAX_MCX_DRAIN as int
                }
            } else if st0.packet_queue@.len() > 0 {
                1int
            } else {
                0int
            }),
        decreases st0.packet_queue@.len() - j,
    {
        if st.packet_queue.len() == 0 {
            proof {
                assert(st0.packet_queue@.skip(j as int).len() == 0);
                assert(j == st0.packet_queue@.len());
            }
            break ;
        }
        if !tpool_empty_at_entry && j >= 1 {
            break ;
        }
        if j >= MAX_MCX_DRAIN {
            break ;
        }

        let item = st.packet_queue.remove(0);
        proof {
            assert(st0.packet_queue@.skip(j as int).first() == st0.packet_queue@[j as int]);
            assert(st0.packet_queue@.skip(j as int).drop_first() =~= st0.packet_queue@.skip(
                j as int + 1,
            ));
        }
        let ghost snap_before = st.snapshot;
        let ghost seq_before = st.seq_no;
        let ghost before_block = out@;
        match item {
            McxPendingItem::Refresh => {
                match &st.snapshot {
                    Some(snap) => {
                        emit_mcx_picture(snap, out, now_us);
                    },
                    None => {},
                }
            },
            McxPendingItem::Increment(inc, mseq) => {
                let mut snap_opt: Option<DepthSnapshot> = None;
                core::mem::swap(&mut st.snapshot, &mut snap_opt);
                match snap_opt {
                    Some(mut snap) => {
                        let level_ok = match inc.price_level {
                            Some(l) => l < 0xffff_ffff,
                            None => true,
                        };
                        if level_ok && check_book_bounds(&snap.entries) {
                            let applied = process_mcx_depth_incremental(
                                &mut snap,
                                &mut st.seq_no,
                                &inc,
                                mseq,
                            );
                            if applied {
                                emit_mcx_picture(&snap, out, now_us);
                            }
                        }
                        st.snapshot = Some(snap);
                    },
                    None => {},
                }
            },
        }
        j = j + 1;
        proof {
            let items = st0.packet_queue@.take(j as int);
            assert(items.drop_last() =~= st0.packet_queue@.take(j as int - 1));
            assert(items.last() == st0.packet_queue@[j as int - 1]);
            let appended = out@.skip(out0.len() as int);
            let m = before_block.len() - out0.len() as int;
            assert(appended.take(m) =~= before_block.skip(out0.len() as int));
            assert(appended.skip(m) =~= out@.skip(before_block.len() as int));
            assert(spec_mcx_step_ok(
                st0.packet_queue@[j as int - 1],
                snap_before,
                seq_before,
                st.snapshot,
                st.seq_no,
                appended.skip(m),
                now_us,
            ));
            lemma_mcx_drain_snoc(
                items.drop_last(),
                items.last(),
                st0.snapshot,
                st0.seq_no,
                snap_before,
                seq_before,
                st.snapshot,
                st.seq_no,
                appended.take(m),
                appended.skip(m),
                now_us,
            );
            assert(appended.take(m) + appended.skip(m) =~= appended);
            assert(items.drop_last().push(items.last()) =~= items);
        }
    }

    // Done with this run: release the instrument's lock, then close the
    // race window — anything still pending re-arms a fresh work item.
    st.work_lock = false;
    let mut rearm = false;
    if st.packet_queue.len() > 0 {
        if !st.work_lock {
            st.work_lock = true;
            rearm = true;
        }
    }
    let ghost st1 = st;
    core.mcx_states.insert(idx, st);
    proof {
        assert(core.mcx_states@ =~= mid.mcx_states@.update(idx as int, st1));
        assert forall|k2: u64| k2 != work.key && #[trigger] core.mcx_index.spec_contains(
            k2,
        ) implies core.mcx_states@[core.mcx_index.spec_get(k2) as int] == mid.mcx_states@[
            mid.mcx_index.spec_get(k2) as int] by {
            assert(core.mcx_index.spec_get(k2) != idx);
        }
    }
    if rearm {
        let ghost tq = work_fifo_seq(&core.tpool_queue);
        core.tpool_queue.push(work);
        proof {
            crate::dispatch::lemma_counts_push_pub(tq, work);
        }
    }
}

/// Every in-flight count is a count: never negative.
proof fn lemma_counts_nonneg(s: Seq<Work>)
    ensures
        forall|qid: int| #[trigger] count_fifo(s, qid) >= 0,
        forall|k: u64| #[trigger] count_nse(s, k) >= 0,
        forall|k: u64| #[trigger] count_mcx(s, k) >= 0,
    decreases s.len(),
{
    if s.len() > 0 {
        lemma_counts_nonneg(s.drop_last());
        assert forall|qid: int| #[trigger] count_fifo(s, qid) >= 0 by {
            assert(count_fifo(s.drop_last(), qid) >= 0);
        }
        assert forall|k: u64| #[trigger] count_nse(s, k) >= 0 by {
            assert(count_nse(s.drop_last(), k) >= 0);
        }
        assert forall|k: u64| #[trigger] count_mcx(s, k) >= 0 by {
            assert(count_mcx(s.drop_last(), k) >= 0);
        }
    }
}

/// Takes the next work item off the scheduler queue and runs it on this
/// worker; reports whether there was one.
pub fn run_next(core: &mut DispatchCore, out: &mut Vec<Packet>, now_us: u64) -> (ran: bool)
    requires
        wf_core(*old(core)),
        wf_queue_packets(*old(core)),
        wf_slot_packets(*old(core)),
    ensures
        wf_core(*final(core)),
        wf_queue_packets(*final(core)),
        wf_slot_packets(*final(core)),
        final(out)@.len() >= old(out)@.len(),
        forall|i: int| 0 <= i < old(out)@.len() ==> final(out)@[i] == old(out)@[i],
        ran == (work_fifo_seq(&old(core).tpool_queue).len() > 0),
{
    let ghost tq0 = work_fifo_seq(&core.tpool_queue);
    let popped = core.tpool_queue.pop();
    match popped {
        None => false,
        Some(work) => {
            proof {
                lemma_counts_drop_first(tq0);
                lemma_counts_nonneg(tq0.drop_first());
                assert forall|i: int|
                    0 <= i < tq0.drop_first().len() && spec_is_fifo(
                        (#[trigger] tq0.drop_first()[i]).work_type,
                    ) implies 0 <= spec_work_id(tq0.drop_first()[i].work_type) < TYPE_COUNT by {
                    assert(tq0.drop_first()[i] == tq0[i + 1]);
                }
                let rest = tq0.drop_first();
                assert forall|qid: int| true implies #[trigger] count_fifo(rest, qid)
                    == count_fifo(tq0, qid) - (if spec_is_fifo(work.work_type) && spec_work_id(
                    work.work_type,
                ) == qid {
                    1int
                } else {
                    0int
                }) by {
                    assert(count_fifo(tq0, qid) == count_fifo(rest, qid) + (if spec_is_fifo(
                        work.work_type,
                    ) && spec_work_id(work.work_type) == qid {
                        1int
                    } else {
                        0int
                    }));
                }
                assert forall|k: u64| true implies #[trigger] count_nse(rest, k) == count_nse(
                    tq0,
                    k,
                ) - (if work.work_type matches WorkType::TokenWise(_) && work.key == k {
                    1int
                } else {
                    0int
                }) by {
                    assert(count_nse(tq0, k) == count_nse(rest, k) + (if work.work_type matches
                        WorkType::TokenWise(_) && work.key == k {
                        1int
                    } else {
                        0int
                    }));
                }
                assert forall|k: u64| true implies #[trigger] count_mcx(rest, k) == count_mcx(
                    tq0,
                    k,
                ) - (if spec_is_mcx(work.work_type) && work.key == k {
                    1int
                } else {
                    0int
                }) by {
                    assert(count_mcx(tq0, k) == count_mcx(rest, k) + (if spec_is_mcx(
                        work.work_type,
                    ) && work.key == k {
                        1int
                    } else {
                        0int
                    }));
                }
            }
            match work.work_type {
                WorkType::TokenWise(_) => {
                    proof {
                        assert(count_nse(tq0, work.key) == count_nse(tq0.drop_first(), work.key)
                            + 1);
                        assert(count_nse(tq0.drop_first(), work.key) >= 0);
                        assert(count_nse(tq0, work.key) == 1);
                    }
                    work_on_map(core, out, work, now_us);
                },
                WorkType::McxDepthSnapshot | WorkType::McxDepthIncr | WorkType::McxOther => {
                    proof {
                        assert(count_mcx(tq0, work.key) == count_mcx(tq0.drop_first(), work.key)
                            + 1);
                        assert(count_mcx(tq0.drop_first(), work.key) >= 0);
                        assert(count_mcx(tq0, work.key) == 1);
                    }
                    work_on_mcx(core, out, work, now_us);
                },
                _ => {
                    proof {
                        assert(count_fifo(tq0, spec_work_id(work.work_type)) == count_fifo(
                            tq0.drop_first(),
                            spec_work_id(work.work_type),
                        ) + 1);
                        assert(count_fifo(tq0.drop_first(), spec_work_id(work.work_type)) >= 0);
                    }
                    work_on_queue(core, out, work, now_us);
                },
            }
            true
        },
    }
}

} // verus!
