//! Per-exchange distributors: classify each received packet and hand it to
//! the dispatch core.
//!
//! An NSE datagram is a container of frames: plain inner messages go to
//! the uncompressed FIFO queue at once, while compressed frames are handed
//! back to the caller, which owns the decompressor, and re-enter through
//! `process_nse_inner`.  A decompressed inner message is classified
//! token-wise or segment-wise by its transaction code.  A BSE packet is
//! classified compressed or uncompressed by its leading message code.

use vstd::prelude::*;

use crate::bytesio::{be_bytes, read_i16_be, read_i32_be, to_signed, write_u8};
use crate::constants::{
    BCAST_MBO_MBP, BCAST_ONLY_MBP, BCAST_ONLY_MBP_EQ, BSE_BCAST_COMPLEX, BSE_BCAST_DEBT,
    BSE_BCAST_MBP, BUF_SIZE, NSE_HEADER_SIZE, SKIP_BYTES,
};
use crate::dispatch::{wf_core, DispatchCore, TYPE_COUNT};
use crate::nse_worker::{get_token, spec_token};
use crate::packet::{FrameDesc, NseFrame, Packet};
use crate::settings::Exchange;
use crate::queues::work_fifo_seq;
use crate::threadpool::{wf_queue_packets, wf_slot_packets};
use crate::work::{spec_work_id, Work, WorkType};

verus! {

/// The distributor stage itself; the per-exchange strategies below carry
/// the classification rules.
pub struct Distributor {}

pub struct BseDistributor {}

pub struct NeqDistributor {}

pub struct NfoDistributor {}

pub struct NcdDistributor {}

/// How a BSE packet is classified by its leading message code.
pub open spec fn spec_bse_worktype(s: Seq<u8>) -> WorkType {
    let code = to_signed(be_bytes(s, 0, 4), 4);
    if code == BSE_BCAST_MBP || code == BSE_BCAST_COMPLEX || code == BSE_BCAST_DEBT {
        WorkType::BseCompressed
    } else {
        WorkType::BseUncompressed
    }
}


/// A frame's bytes zero-padded to a full packet buffer, as
/// `Packet::from_bytes` stores them.
pub open spec fn spec_pad_to_buf(s: Seq<u8>) -> Seq<u8> {
    Seq::new(
        BUF_SIZE as nat,
        |k: int|
            if k < s.len() {
                s[k]
            } else {
                0u8
            },
    )
}

/// The valid length a padded packet records for `s`.
pub open spec fn spec_clamped_len(s: Seq<u8>) -> int {
    if s.len() <= BUF_SIZE {
        s.len() as int
    } else {
        BUF_SIZE as int
    }
}

/// The compressed frames' payloads of a container, in container order.
pub open spec fn spec_compressed_payloads(d: Seq<u8>, descs: Seq<FrameDesc>) -> Seq<Seq<u8>>
    decreases descs.len(),
{
    if descs.len() == 0 {
        Seq::empty()
    } else {
        let rest = spec_compressed_payloads(d, descs.drop_last());
        if descs.last().compressed {
            rest.push(d.subrange(descs.last().start, descs.last().start + descs.last().flen))
        } else {
            rest
        }
    }
}

/// The plain frames' payloads of a container, in container order.
pub open spec fn spec_plain_payloads(d: Seq<u8>, descs: Seq<FrameDesc>) -> Seq<Seq<u8>>
    decreases descs.len(),
{
    if descs.len() == 0 {
        Seq::empty()
    } else {
        let rest = spec_plain_payloads(d, descs.drop_last());
        if !descs.last().compressed {
            rest.push(d.subrange(descs.last().start, descs.last().start + descs.last().flen))
        } else {
            rest
        }
    }
}


/// The engine and returned frames after splitting the prefix `descs` of a
/// container `d`: the compressed payloads handed back in order, the plain
/// payloads queued on the uncompressed FIFO in order, the lock taken and
/// one work item scheduled exactly when a plain frame found it free.
pub open spec fn spec_nse_split_ok(
    c0: DispatchCore,
    c1: DispatchCore,
    d: Seq<u8>,
    descs: Seq<FrameDesc>,
    pending: Seq<NseFrame>,
) -> bool {
    let comp = spec_compressed_payloads(d, descs);
    let plain = spec_plain_payloads(d, descs);
    let qid = spec_work_id(WorkType::NseUncompressed);
    let q0 = crate::queues::packet_fifo_seq(&c0.work_queues@[qid]);
    let q1 = crate::queues::packet_fifo_seq(&c1.work_queues@[qid]);
    &&& pending.len() == comp.len()
    &&& forall|x: int|
        0 <= x < comp.len() ==> (#[trigger] pending[x]).compressed && pending[x].data@ == comp[x]
    &&& q1.len() == q0.len() + plain.len()
    &&& forall|x: int| 0 <= x < q0.len() ==> #[trigger] q1[x] == q0[x]
    &&& forall|x: int|
        0 <= x < plain.len() ==> (#[trigger] q1[q0.len() + x]).data@ == spec_pad_to_buf(plain[x])
            && q1[q0.len() + x].len as int == spec_clamped_len(plain[x])
    &&& forall|q2: int|
        0 <= q2 < TYPE_COUNT && q2 != qid ==> crate::queues::packet_fifo_seq(
            &#[trigger] c1.work_queues@[q2],
        ) == crate::queues::packet_fifo_seq(&c0.work_queues@[q2])
    &&& (plain.len() > 0 && !c0.work_locks@[qid] ==> c1.work_locks@ == c0.work_locks@.update(
        qid,
        true,
    ) && work_fifo_seq(&c1.tpool_queue) == work_fifo_seq(&c0.tpool_queue).push(
        Work { work_type: WorkType::NseUncompressed, key: 0, seq_no: 0 },
    ))
    &&& (plain.len() == 0 || c0.work_locks@[qid] ==> c1.work_locks@ == c0.work_locks@
        && work_fifo_seq(&c1.tpool_queue) == work_fifo_seq(&c0.tpool_queue))
    &&& c1.nse_map == c0.nse_map
    &&& c1.mcx_index == c0.mcx_index
    &&& c1.mcx_states == c0.mcx_states
    &&& c1.exchange == c0.exchange
}

/// The engine after one packet was installed in a coalescing slot: exactly
/// what `distribute_to_map` leaves behind.
pub open spec fn spec_map_installed(
    c0: DispatchCore,
    c1: DispatchCore,
    key: u64,
    pdata: Seq<u8>,
    plen: int,
    w: Work,
) -> bool {
    &&& c1.nse_map.spec_contains(key)
    &&& c1.nse_map.spec_get(key).slot is Some
    &&& c1.nse_map.spec_get(key).slot->0.data@ == pdata
    &&& c1.nse_map.spec_get(key).slot->0.len as int == plen
    &&& forall|k2: u64|
        k2 != key ==> #[trigger] c1.nse_map.spec_contains(k2) == c0.nse_map.spec_contains(k2)
    &&& forall|k2: u64|
        k2 != key && c0.nse_map.spec_contains(k2) ==> #[trigger] c1.nse_map.spec_get(k2)
            == c0.nse_map.spec_get(k2)
    &&& work_fifo_seq(&c1.tpool_queue) == (if c0.nse_map.spec_contains(key)
        && c0.nse_map.spec_get(key).slot is Some {
        work_fifo_seq(&c0.tpool_queue)
    } else {
        work_fifo_seq(&c0.tpool_queue).push(w)
    })
    &&& c1.work_queues == c0.work_queues
    &&& c1.work_locks == c0.work_locks
    &&& c1.exchange == c0.exchange
    &&& c1.mcx_index == c0.mcx_index
    &&& c1.mcx_states == c0.mcx_states
}

/// The engine after one packet was queued FIFO: exactly what
/// `distribute_to_queue` leaves behind.
pub open spec fn spec_fifo_dispatched(
    c0: DispatchCore,
    c1: DispatchCore,
    qid: int,
    pdata: Seq<u8>,
    plen: int,
    w: Work,
) -> bool {
    let q0 = crate::queues::packet_fifo_seq(&c0.work_queues@[qid]);
    let q1 = crate::queues::packet_fifo_seq(&c1.work_queues@[qid]);
    &&& 0 <= qid < TYPE_COUNT
    &&& q1.len() == q0.len() + 1
    &&& forall|x: int| 0 <= x < q0.len() ==> #[trigger] q1[x] == q0[x]
    &&& q1[q0.len() as int].data@ == pdata
    &&& q1[q0.len() as int].len as int == plen
    &&& forall|q2: int|
        0 <= q2 < TYPE_COUNT && q2 != qid ==> crate::queues::packet_fifo_seq(
            &#[trigger] c1.work_queues@[q2],
        ) == crate::queues::packet_fifo_seq(&c0.work_queues@[q2])
    &&& (c0.work_locks@[qid] ==> c1.work_locks@ == c0.work_locks@ && work_fifo_seq(
        &c1.tpool_queue,
    ) == work_fifo_seq(&c0.tpool_queue))
    &&& (!c0.work_locks@[qid] ==> c1.work_locks@ == c0.work_locks@.update(qid, true)
        && work_fifo_seq(&c1.tpool_queue) == work_fifo_seq(&c0.tpool_queue).push(w))
    &&& c1.nse_map == c0.nse_map
    &&& c1.exchange == c0.exchange
    &&& c1.mcx_index == c0.mcx_index
    &&& c1.mcx_states == c0.mcx_states
}

/// What classifying one inner NSE message does to the engine: a depth
/// record coalesces under its instrument token — a two-record set is split,
/// the second record detached under its own token with the count field
/// rewritten per copy — and any other code is queued under its segment
/// byte when the segment is in range; `dispatched` counts the dispatches
/// made.
pub open spec fn spec_nse_inner_post(
    c0: DispatchCore,
    c1: DispatchCore,
    data: Seq<u8>,
    dispatched: int,
) -> bool {
    let p = spec_pad_to_buf(data);
    let plen = spec_clamped_len(data);
    let tc = (to_signed(be_bytes(p, SKIP_BYTES + 10, 2), 2)) as i16;
    let ex = c0.exchange;
    if !(tc == BCAST_ONLY_MBP || tc == BCAST_ONLY_MBP_EQ || tc == BCAST_MBO_MBP) {
        let seg = p[SKIP_BYTES + 30];
        if seg + 3 < TYPE_COUNT {
            dispatched == 1 && spec_fifo_dispatched(
                c0,
                c1,
                3 + seg,
                p,
                plen,
                Work { work_type: WorkType::SegmentWise(seg), key: 0, seq_no: 0 },
            )
        } else {
            dispatched == 0 && c1 == c0
        }
    } else if tc == BCAST_MBO_MBP {
        let tok = spec_token(ex, tc, p, 0) as i32;
        let wt = WorkType::TokenWise(tok);
        dispatched == 1 && spec_map_installed(
            c0,
            c1,
            spec_work_id(wt) as u64,
            p,
            plen,
            Work { work_type: wt, key: spec_work_id(wt) as u64, seq_no: 0 },
        )
    } else {
        let nrec = to_signed(be_bytes(p, SKIP_BYTES + NSE_HEADER_SIZE, 2), 2);
        let p1 = p.update(SKIP_BYTES + NSE_HEADER_SIZE, 0u8).update(
            SKIP_BYTES + NSE_HEADER_SIZE + 1,
            0u8,
        );
        let tok1 = spec_token(ex, tc, p1, 0) as i32;
        let wt1 = WorkType::TokenWise(tok1);
        let w1 = Work { work_type: wt1, key: spec_work_id(wt1) as u64, seq_no: 0 };
        if nrec > 1 {
            let second = p.update(SKIP_BYTES + NSE_HEADER_SIZE, 0u8).update(
                SKIP_BYTES + NSE_HEADER_SIZE + 1,
                1u8,
            );
            let tok2 = spec_token(ex, tc, second, 1) as i32;
            let wt2 = WorkType::TokenWise(tok2);
            let w2 = Work { work_type: wt2, key: spec_work_id(wt2) as u64, seq_no: 0 };
            dispatched == 2 && exists|cm: DispatchCore|
                #[trigger] spec_map_installed(c0, cm, spec_work_id(wt2) as u64, second, plen, w2)
                    && spec_map_installed(cm, c1, spec_work_id(wt1) as u64, p1, plen, w1)
        } else {
            dispatched == 1 && spec_map_installed(c0, c1, spec_work_id(wt1) as u64, p1, plen, w1)
        }
    }
}

impl Distributor {
    pub fn new() -> (r: Distributor) {
        Distributor {  }
    }

    /// Classifies one BSE packet and queues it FIFO under its class.
    pub fn process_bse_packet(core: &mut DispatchCore, packet: Packet)
        requires
            wf_core(*old(core)),
            wf_queue_packets(*old(core)),
            wf_slot_packets(*old(core)),
            packet.wf(),
        ensures
            wf_core(*final(core)),
            wf_queue_packets(*final(core)),
            wf_slot_packets(*final(core)),
            ({
                let wt = spec_bse_worktype(packet.data@);
                let qid = spec_work_id(wt);
                crate::queues::packet_fifo_seq(&final(core).work_queues@[qid])
                    == crate::queues::packet_fifo_seq(&old(core).work_queues@[qid]).push(packet)
            }),
    {
        let message_code = read_i32_be(packet.data.as_slice(), 0);
        let work_type = if message_code == BSE_BCAST_MBP || message_code == BSE_BCAST_COMPLEX
            || message_code == BSE_BCAST_DEBT {
            WorkType::BseCompressed
        } else {
            WorkType::BseUncompressed
        };
        let work = Work { work_type, key: 0, seq_no: 0 };
        core.distribute_to_queue(packet, work);
    }

    /// Splits one NSE container datagram: every plain inner message is
    /// queued on the uncompressed FIFO at once, as a full-buffer packet
    /// from its first framing byte on; the compressed frames come back as
    /// exactly the container's compressed payloads, in container order, to
    /// re-enter through `process_nse_inner` once the caller's decompressor
    /// has unpacked them.
    #[verifier::rlimit(100)]
    pub fn process_nse_packet(core: &mut DispatchCore, packet: Packet) -> (pending: Vec<NseFrame>)
        requires
            wf_core(*old(core)),
            wf_queue_packets(*old(core)),
            wf_slot_packets(*old(core)),
            packet.wf(),
        ensures
            wf_core(*final(core)),
            wf_queue_packets(*final(core)),
            wf_slot_packets(*final(core)),
            spec_nse_split_ok(
                *old(core),
                *final(core),
                packet.data@,
                crate::packet::spec_nse_frames(
                    packet.data@,
                    4,
                    crate::packet::spec_nse_frame_count(packet.data@),
                ),
                pending@,
            ),
    {
        let frames = packet.get_nse_packets();
        let ghost d = packet.data@;
        let ghost descs = crate::packet::spec_nse_frames(
            d,
            4,
            crate::packet::spec_nse_frame_count(d),
        );
        let mut pending: Vec<NseFrame> = Vec::new();
        let n = frames.len();
        let mut i: usize = 0;
        while i < n
            invariant
                i <= n,
                n == frames@.len(),
                n == descs.len(),
                d == packet.data@,
                descs == crate::packet::spec_nse_frames(
                    d,
                    4,
                    crate::packet::spec_nse_frame_count(d),
                ),
                forall|x: int|
                    0 <= x < descs.len() ==> (#[trigger] frames@[x]).compressed
                        == descs[x].compressed && frames@[x].data@ == d.subrange(
                        descs[x].start,
                        descs[x].start + descs[x].flen,
                    ),
                wf_core(*core),
                wf_queue_packets(*core),
                wf_slot_packets(*core),
                old(core).work_locks@.len() == TYPE_COUNT,
                old(core).work_queues@.len() == TYPE_COUNT,
                spec_nse_split_ok(*old(core), *core, d, descs.take(i as int), pending@),
            decreases n - i,
        {
            proof {
                let t = descs.take(i + 1);
                assert(t.drop_last() =~= descs.take(i as int));
                assert(t.last() == descs[i as int]);
            }
            let frame = &frames[i];
            if frame.compressed {
                pending.push(
                    NseFrame {
                        compressed: true,
                        data: crate::bytesio::read_bytes(frame.data.as_slice(), 0, frame.data.len()),
                    },
                );
                proof {
                    assert(frame.data@.subrange(0, frame.data@.len() as int) =~= frame.data@);
                }
            } else {
                let inner = Packet::from_bytes(frame.data.as_slice());
                proof {
                    assert(inner.data@ =~= spec_pad_to_buf(frame.data@));
                }
                let work = Work { work_type: WorkType::NseUncompressed, key: 0, seq_no: 0 };
                let ghost cpre = *core;
                core.distribute_to_queue(inner, work);
                proof {
                    let qid = spec_work_id(WorkType::NseUncompressed);
                    let plain0 = spec_plain_payloads(d, descs.take(i as int));
                    if !old(core).work_locks@[qid] {
                        if plain0.len() == 0 {
                            assert(cpre.work_locks@ == old(core).work_locks@);
                            assert(!cpre.work_locks@[qid]);
                            assert(core.work_locks@ == old(core).work_locks@.update(qid, true));
                            assert(work_fifo_seq(&core.tpool_queue) == work_fifo_seq(
                                &old(core).tpool_queue,
                            ).push(work));
                        } else {
                            assert(cpre.work_locks@ == old(core).work_locks@.update(qid, true));
                            assert(cpre.work_locks@[qid]);
                            assert(core.work_locks@ == cpre.work_locks@);
                            assert(work_fifo_seq(&core.tpool_queue) == work_fifo_seq(
                                &old(core).tpool_queue,
                            ).push(work));
                        }
                    } else {
                        assert(cpre.work_locks@[qid]);
                        assert(core.work_locks@ == old(core).work_locks@);
                        assert(work_fifo_seq(&core.tpool_queue) == work_fifo_seq(
                            &old(core).tpool_queue,
                        ));
                    }
                }
            }
            proof {
                let dsc = descs.take(i as int + 1);
                let comp = spec_compressed_payloads(d, dsc);
                let plain = spec_plain_payloads(d, dsc);
                assert(dsc.drop_last() =~= descs.take(i as int));
                assert(dsc.last() == descs[i as int]);
                if descs[i as int].compressed {
                    assert(plain == spec_plain_payloads(d, descs.take(i as int)));
                } else {
                    assert(comp == spec_compressed_payloads(d, descs.take(i as int)));
                }
            }
            i = i + 1;
        }
        proof {
            assert(descs.take(n as int) =~= descs);
        }
        pending
    }

    /// Classifies one plain or decompressed inner NSE message: the depth
    /// record codes coalesce per instrument token — a record set carrying a
    /// second record dispatches it under its own token, with the count
    /// field rewritten per copy — and everything else is queued FIFO by its
    /// segment byte when that is in range.
    #[verifier::rlimit(100)]
    pub fn process_nse_inner(core: &mut DispatchCore, data: &[u8]) -> (dispatched: usize)
        requires
            wf_core(*old(core)),
            wf_queue_packets(*old(core)),
            wf_slot_packets(*old(core)),
        ensures
            wf_core(*final(core)),
            wf_queue_packets(*final(core)),
            wf_slot_packets(*final(core)),
            spec_nse_inner_post(*old(core), *final(core), data@, dispatched as int),
    {
        let mut packet = Packet::from_bytes(data);
        proof {
            assert(packet.data@ =~= spec_pad_to_buf(data@));
            assert(packet.len as int == spec_clamped_len(data@));
        }
        let trans_code = crate::neq::BcastHeaders::get_trans_code(packet.data.as_slice());
        proof {
            assert(trans_code == (to_signed(
                be_bytes(spec_pad_to_buf(data@), SKIP_BYTES + 10, 2),
                2,
            )) as i16);
        }
        let exchange = core.exchange;

        let token_wise = trans_code == BCAST_ONLY_MBP || trans_code == BCAST_ONLY_MBP_EQ
            || trans_code == BCAST_MBO_MBP;
        if !token_wise {
            let segment = crate::neq::BcastHeaders::get_segment(packet.data.as_slice());
            if segment as usize + 3 < TYPE_COUNT {
                let work = Work { work_type: WorkType::SegmentWise(segment), key: 0, seq_no: 0 };
                core.distribute_to_queue(packet, work);
                return 1;
            }
            return 0;
        }

        if trans_code == BCAST_MBO_MBP {
            let token = get_token(exchange, trans_code, packet.data.as_slice(), 0);
            let wt = WorkType::TokenWise(token);
            let work = Work { work_type: wt, key: wt.get_id() as u64, seq_no: 0 };
            let ghost pdata = packet.data@;
            let ghost plen = packet.len as int;
            core.distribute_to_map(packet, work);
            proof {
                assert(spec_map_installed(
                    *old(core),
                    *core,
                    spec_work_id(wt) as u64,
                    pdata,
                    plen,
                    work,
                ));
            }
            return 1;
        }

        // A record set: clear the count on the first copy; a second record
        // present dispatches first under its own token with count one.
        let ghost p = packet.data@;
        let no_of_records = read_i16_be(packet.data.as_slice(), SKIP_BYTES + NSE_HEADER_SIZE);
        write_u8(&mut packet.data, SKIP_BYTES + NSE_HEADER_SIZE, 0);
        write_u8(&mut packet.data, SKIP_BYTES + NSE_HEADER_SIZE + 1, 0);
        proof {
            assert(packet.data@ =~= p.update(SKIP_BYTES + NSE_HEADER_SIZE, 0u8).update(
                SKIP_BYTES + NSE_HEADER_SIZE + 1,
                0u8,
            ));
        }
        if no_of_records > 1 {
            let mut second = packet.dup();
            write_u8(&mut second.data, SKIP_BYTES + NSE_HEADER_SIZE + 1, 1);
            proof {
                assert(second.data@ =~= p.update(SKIP_BYTES + NSE_HEADER_SIZE, 0u8).update(
                    SKIP_BYTES + NSE_HEADER_SIZE + 1,
                    1u8,
                ));
            }
            let token2 = get_token(exchange, trans_code, second.data.as_slice(), 1);
            let wt2 = WorkType::TokenWise(token2);
            let work2 = Work { work_type: wt2, key: wt2.get_id() as u64, seq_no: 0 };
            let ghost secondv = second.data@;
            let ghost plen = second.len as int;
            core.distribute_to_map(second, work2);
            let ghost cm = *core;

            let token = get_token(exchange, trans_code, packet.data.as_slice(), 0);
            let wt = WorkType::TokenWise(token);
            let work = Work { work_type: wt, key: wt.get_id() as u64, seq_no: 0 };
            let ghost p1v = packet.data@;
            core.distribute_to_map(packet, work);
            proof {
                let tok2s = spec_token(old(core).exchange, trans_code, secondv, 1) as i32;
                let wt2s = WorkType::TokenWise(tok2s);
                let w2s = Work { work_type: wt2s, key: spec_work_id(wt2s) as u64, seq_no: 0 };
                let tok1s = spec_token(old(core).exchange, trans_code, p1v, 0) as i32;
                let wt1s = WorkType::TokenWise(tok1s);
                let w1s = Work { work_type: wt1s, key: spec_work_id(wt1s) as u64, seq_no: 0 };
                assert(token2 == tok2s);
                assert(work2 == w2s);
                assert(token == tok1s);
                assert(work == w1s);
                assert(spec_map_installed(
                    *old(core),
                    cm,
                    spec_work_id(wt2s) as u64,
                    secondv,
                    plen,
                    w2s,
                ));
                assert(spec_map_installed(cm, *core, spec_work_id(wt1s) as u64, p1v, plen, w1s));
            }
            2
        } else {
            let token = get_token(exchange, trans_code, packet.data.as_slice(), 0);
            let wt = WorkType::TokenWise(token);
            let work = Work { work_type: wt, key: wt.get_id() as u64, seq_no: 0 };
            let ghost p1v = packet.data@;
            let ghost plen = packet.len as int;
            core.distribute_to_map(packet, work);
            proof {
                assert(spec_map_installed(
                    *old(core),
                    *core,
                    spec_work_id(wt) as u64,
                    p1v,
                    plen,
                    work,
                ));
            }
            1
        }
    }
}

/// One strategy per exchange, chosen once at startup.
pub trait Distribute {
    /// Classifies one received packet; any frames that still need the
    /// caller's decompressor come back compressed.
    fn distribute(&mut self, core: &mut DispatchCore, packet: Packet) -> (pending: Vec<NseFrame>)
        requires
            wf_core(*old(core)),
            wf_queue_packets(*old(core)),
            wf_slot_packets(*old(core)),
            packet.wf(),
        ensures
            wf_core(*final(core)),
            wf_queue_packets(*final(core)),
            wf_slot_packets(*final(core)),
    ;
}

impl BseDistributor {
    pub fn new() -> (r: BseDistributor) {
        BseDistributor {  }
    }
}

impl Distribute for BseDistributor {
    fn distribute(&mut self, core: &mut DispatchCore, packet: Packet) -> (pending: Vec<NseFrame>) {
        Distributor::process_bse_packet(core, packet);
        Vec::new()
    }
}

impl NeqDistributor {
    pub fn new() -> (r: NeqDistributor) {
        NeqDistributor {  }
    }
}

impl Distribute for NeqDistributor {
    fn distribute(&mut self, core: &mut DispatchCore, packet: Packet) -> (pending: Vec<NseFrame>) {
        Distributor::process_nse_packet(core, packet)
    }
}

impl NfoDistributor {
    pub fn new() -> (r: NfoDistributor) {
        NfoDistributor {  }
    }
}

impl Distribute for NfoDistributor {
    fn distribute(&mut self, core: &mut DispatchCore, packet: Packet) -> (pending: Vec<NseFrame>) {
        Distributor::process_nse_packet(core, packet)
    }
}

impl NcdDistributor {
    pub fn new() -> (r: NcdDistributor) {
        NcdDistributor {  }
    }
}

impl Distribute for NcdDistributor {
    fn distribute(&mut self, core: &mut DispatchCore, packet: Packet) -> (pending: Vec<NseFrame>) {
        Distributor::process_nse_packet(core, packet)
    }
}

impl Distributor {
    /// Classifies one inner equity message.
    pub fn process_neq_packet(core: &mut DispatchCore, data: &[u8]) -> (dispatched: usize)
        requires
            wf_core(*old(core)),
            wf_queue_packets(*old(core)),
            wf_slot_packets(*old(core)),
        ensures
            wf_core(*final(core)),
            wf_queue_packets(*final(core)),
            wf_slot_packets(*final(core)),
            spec_nse_inner_post(*old(core), *final(core), data@, dispatched as int),
    {
        Distributor::process_nse_inner(core, data)
    }

    /// Classifies one inner futures-and-options message.
    pub fn process_nfo_packet(core: &mut DispatchCore, data: &[u8]) -> (dispatched: usize)
        requires
            wf_core(*old(core)),
            wf_queue_packets(*old(core)),
            wf_slot_packets(*old(core)),
        ensures
            wf_core(*final(core)),
            wf_queue_packets(*final(core)),
            wf_slot_packets(*final(core)),
            spec_nse_inner_post(*old(core), *final(core), data@, dispatched as int),
    {
        Distributor::process_nse_inner(core, data)
    }

    /// Classifies one inner currency-derivatives message.
    pub fn process_ncd_packet(core: &mut DispatchCore, data: &[u8]) -> (dispatched: usize)
        requires
            wf_core(*old(core)),
            wf_queue_packets(*old(core)),
            wf_slot_packets(*old(core)),
        ensures
            wf_core(*final(core)),
            wf_queue_packets(*final(core)),
            wf_slot_packets(*final(core)),
            spec_nse_inner_post(*old(core), *final(core), data@, dispatched as int),
    {
        Distributor::process_nse_inner(core, data)
    }
}

} // verus!
