//! Dispatch engine scenarios: single-flight, coalescing, FIFO order and
//! fairness.

use feed_handler::book::{DepthEntry, DepthIncrement, DepthSnapshot};
use feed_handler::dispatch::DispatchCore;
use feed_handler::packet::Packet;
use feed_handler::settings::Exchange;
use feed_handler::threadpool::run_next;
use feed_handler::work::{Work, WorkType};

fn marked_packet(mark: u8) -> Packet {
    let mut p = Packet::empty();
    p.data[100] = mark;
    p
}

#[test]
fn coalescing_keeps_latest_and_schedules_once() {
    let mut core = DispatchCore::new(Exchange::NEQ);
    let wt = WorkType::TokenWise(42);
    let work = Work { work_type: wt, key: wt.get_id() as u64, seq_no: 0 };

    let displaced = core.distribute_to_map(marked_packet(1), work);
    assert!(displaced.is_none());
    assert_eq!(core.tpool_queue.len(), 1);

    // A second update for the same key displaces the first and schedules
    // nothing new: one work item stays in flight.
    let displaced = core.distribute_to_map(marked_packet(2), work);
    assert_eq!(displaced.map(|p| p.data[100]), Some(1));
    assert_eq!(core.tpool_queue.len(), 1);

    let mut out: Vec<Packet> = Vec::new();
    assert!(run_next(&mut core, &mut out, 0));
    // The worker processed exactly the newest value.
    assert_eq!(out.len(), 1);
    assert_eq!(out[0].data[100], 2);
    assert_eq!(core.tpool_queue.len(), 0);
}

#[test]
fn fifo_queue_preserves_push_order() {
    let mut core = DispatchCore::new(Exchange::BSE);
    // Keep-alive records (unknown codes keep the queue drainable too);
    // each packet carries a distinct mark beyond the record bytes.
    for mark in 1..=5u8 {
        let mut p = marked_packet(mark);
        // Message code 2030 (a keep-alive) in big-endian.
        p.data[0] = 0;
        p.data[1] = 0;
        p.data[2] = 0x07;
        p.data[3] = 0xEE;
        feed_handler::distributor::Distributor::process_bse_packet(&mut core, p);
    }
    assert_eq!(core.tpool_queue.len(), 1);

    let mut out: Vec<Packet> = Vec::new();
    assert!(run_next(&mut core, &mut out, 0));
    let marks: Vec<u8> = out.iter().map(|p| p.data[100]).collect();
    assert_eq!(marks, vec![1, 2, 3, 4, 5]);
}

#[test]
fn fairness_two_queues_one_worker() {
    let mut core = DispatchCore::new(Exchange::NEQ);
    let per_queue = 1000usize;
    for (seg, markbase) in [(1u8, 0u8), (2u8, 100u8)] {
        let wt = WorkType::SegmentWise(seg);
        for i in 0..per_queue {
            let work = Work { work_type: wt, key: 0, seq_no: 0 };
            core.distribute_to_queue(marked_packet(markbase + (i % 50) as u8), work);
        }
    }
    assert_eq!(core.tpool_queue.len(), 2);

    // One worker drains: with the other queue's item always pending, each
    // run handles exactly one packet and requeues, so the queues
    // alternate and neither is starved.
    let mut out: Vec<Packet> = Vec::new();
    let mut runs = 0usize;
    while run_next(&mut core, &mut out, 0) {
        runs += 1;
        assert!(runs <= 2 * per_queue + 2, "drain did not terminate");
    }
    assert_eq!(out.len(), 2 * per_queue);

    // Bounded progress: after the first two runs one packet of each queue
    // was already processed — check by replaying a small prefix.
    let mut core = DispatchCore::new(Exchange::NEQ);
    for seg in [1u8, 2u8] {
        let wt = WorkType::SegmentWise(seg);
        for _ in 0..3 {
            core.distribute_to_queue(marked_packet(seg), Work { work_type: wt, key: 0, seq_no: 0 });
        }
    }
    let mut out: Vec<Packet> = Vec::new();
    run_next(&mut core, &mut out, 0);
    run_next(&mut core, &mut out, 0);
    let first_two: Vec<u8> = out.iter().map(|p| p.data[100]).collect();
    assert_eq!(first_two, vec![1, 2]);
}

#[test]
fn work_queue_lock_released_after_drain() {
    let mut core = DispatchCore::new(Exchange::NEQ);
    let wt = WorkType::SegmentWise(9);
    core.distribute_to_queue(marked_packet(1), Work { work_type: wt, key: 0, seq_no: 0 });
    let qid = wt.get_id();
    assert!(core.work_locks[qid]);

    let mut out: Vec<Packet> = Vec::new();
    run_next(&mut core, &mut out, 0);
    assert!(!core.work_locks[qid]);

    // A later packet schedules a fresh work item.
    core.distribute_to_queue(marked_packet(2), Work { work_type: wt, key: 0, seq_no: 0 });
    assert_eq!(core.tpool_queue.len(), 1);
}

fn mcx_snapshot(token: i64, seq: u32) -> DepthSnapshot {
    DepthSnapshot {
        msg_seq_num: Some(seq),
        security_id: token,
        last_update_time: 11,
        total_buy_qty: Some(10),
        total_sell_qty: Some(0),
        entries: vec![DepthEntry {
            entry_type: 0,
            price_level: Some(1),
            price: Some(10000),
            size: Some(10),
            order_count: Some(1),
            entry_time: Some(0),
            trade_condition: None,
            avg_traded_price: None,
            pste: None,
            quote_condition: None,
        }],
    }
}

#[test]
fn mcx_snapshot_and_increment_flow() {
    let mut core = DispatchCore::new(Exchange::MCX);
    assert!(core.dispatch_mcx_snapshot(mcx_snapshot(77, 1)));
    let mut out: Vec<Packet> = Vec::new();
    assert!(run_next(&mut core, &mut out, 5));
    assert_eq!(out.len(), 1);

    // A stale snapshot is refused outright.
    assert!(!core.dispatch_mcx_snapshot(mcx_snapshot(77, 1)));

    // An increment for an unknown instrument is dropped.
    let update = DepthIncrement {
        update_action: 0,
        entry_type: 1,
        security_id: 555,
        price: Some(10100),
        size: Some(5),
        order_count: Some(1),
        price_level: Some(1),
        entry_time: Some(0),
        pste: None,
        quote_condition: None,
        total_buy_qty: None,
        total_sell_qty: None,
    };
    assert!(!core.dispatch_mcx_incremental(update, 2));

    // The same increment for the known instrument is applied and emits a
    // picture with both sides populated.
    let mut update = update;
    update.security_id = 77;
    assert!(core.dispatch_mcx_incremental(update, 2));
    let before = out.len();
    assert!(run_next(&mut core, &mut out, 6));
    assert_eq!(out.len(), before + 1);

    // Replaying the same sequence number is dropped by the fence.
    assert!(!core.dispatch_mcx_incremental(update, 2));
}
