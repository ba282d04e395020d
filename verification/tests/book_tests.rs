//! Order-book reconstruction scenarios.

use feed_handler::book::{
    add_depth, del_depth, del_thru_depth, do_trade, process_mcx_depth_incremental,
    process_mcx_depth_snapshot, DepthEntry, DepthIncrement, DepthSnapshot,
};
use feed_handler::mcx_worker::snapshot_to_market_picture;

fn entry(entry_type: u32, level: u32, price: i64, size: i64) -> DepthEntry {
    DepthEntry {
        entry_type,
        price_level: Some(level),
        price: Some(price),
        size: Some(size),
        order_count: Some(1),
        entry_time: Some(0),
        trade_condition: None,
        avg_traded_price: None,
        pste: None,
        quote_condition: None,
    }
}

fn inc(action: u32, entry_type: u32, level: Option<u32>, price: Option<i64>, size: Option<i64>) -> DepthIncrement {
    DepthIncrement {
        update_action: action,
        entry_type,
        security_id: 7,
        price,
        size,
        order_count: Some(1),
        price_level: level,
        entry_time: Some(0),
        pste: None,
        quote_condition: None,
        total_buy_qty: None,
        total_sell_qty: None,
    }
}

fn snapshot(entries: Vec<DepthEntry>) -> DepthSnapshot {
    DepthSnapshot {
        msg_seq_num: Some(1),
        security_id: 7,
        last_update_time: 0,
        total_buy_qty: Some(0),
        total_sell_qty: Some(0),
        entries,
    }
}

fn levels_of(snap: &DepthSnapshot, et: u32) -> Vec<u32> {
    snap.entries
        .iter()
        .filter(|e| e.entry_type == et)
        .map(|e| e.price_level.unwrap_or(0))
        .collect()
}

#[test]
fn add_then_delete_round_trip() {
    // One bid at level 1, empty ask side; an ask arrives without an
    // explicit level, takes level 1, and a Delete of that level restores
    // the empty ask side with the bid untouched.
    let mut snap = snapshot(vec![entry(0, 1, 10000, 10)]);
    let mut seq: u32 = 1;

    let applied = process_mcx_depth_incremental(
        &mut snap,
        &mut seq,
        &inc(0, 1, None, Some(10100), Some(5)),
        2,
    );
    assert!(applied);
    assert_eq!(levels_of(&snap, 1), vec![1]);
    let ask = snap.entries.iter().find(|e| e.entry_type == 1).unwrap();
    assert_eq!(ask.price, Some(10100));
    assert_eq!(ask.size, Some(5));
    assert_eq!(levels_of(&snap, 0), vec![1]);

    let applied = process_mcx_depth_incremental(&mut snap, &mut seq, &inc(2, 1, Some(1), None, None), 3);
    assert!(applied);
    assert_eq!(levels_of(&snap, 1), Vec::<u32>::new());
    assert_eq!(levels_of(&snap, 0), vec![1]);
    assert_eq!(snap.entries.iter().find(|e| e.entry_type == 0).unwrap().size, Some(10));
}

#[test]
fn trade_consumes_a_level() {
    // Bid level (price 100, qty 10); a trade of qty 10 at 100 removes it
    // and renumbers the deeper bid.
    let mut snap = snapshot(vec![entry(0, 1, 100, 10), entry(0, 2, 99, 7)]);
    let matched = do_trade(&mut snap, &inc(0, 2, None, Some(100), Some(10)));
    assert!(matched);
    let bids: Vec<(u32, i64)> = snap
        .entries
        .iter()
        .filter(|e| e.entry_type == 0)
        .map(|e| (e.price_level.unwrap(), e.price.unwrap()))
        .collect();
    assert_eq!(bids, vec![(1, 99)]);
}

#[test]
fn trade_partial_fill_reduces_size() {
    let mut snap = snapshot(vec![entry(0, 1, 100, 10)]);
    let matched = do_trade(&mut snap, &inc(0, 2, None, Some(100), Some(4)));
    assert!(matched);
    let bid = snap.entries.iter().find(|e| e.entry_type == 0).unwrap();
    assert_eq!(bid.size, Some(6));
    assert_eq!(bid.price_level, Some(1));
}

#[test]
fn delete_thru_renumbers_from_one() {
    // Bid side [1, 2, 3, 4]: DeleteThru(2) leaves the rows that were
    // deeper than 2, renumbered from 1.
    let mut snap = snapshot(vec![
        entry(0, 1, 104, 1),
        entry(0, 2, 103, 2),
        entry(0, 3, 102, 3),
        entry(0, 4, 101, 4),
    ]);
    let applied = del_thru_depth(&mut snap, &inc(3, 0, Some(2), None, None));
    assert!(applied);
    let bids: Vec<(u32, i64)> = snap
        .entries
        .iter()
        .filter(|e| e.entry_type == 0)
        .map(|e| (e.price_level.unwrap(), e.price.unwrap()))
        .collect();
    assert_eq!(bids, vec![(1, 102), (2, 101)]);
}

#[test]
fn delete_from_keeps_shallow_levels() {
    let mut snap = snapshot(vec![
        entry(0, 1, 104, 1),
        entry(0, 2, 103, 2),
        entry(0, 3, 102, 3),
    ]);
    let applied = feed_handler::book::del_from_depth(&mut snap, &inc(4, 0, Some(2), None, None));
    assert!(applied);
    assert_eq!(levels_of(&snap, 0), vec![1]);
}

#[test]
fn replay_same_sequence_is_noop() {
    let mut snap = snapshot(vec![entry(0, 1, 100, 10)]);
    let mut seq: u32 = 1;
    let update = inc(0, 0, Some(1), Some(101), Some(3));

    assert!(process_mcx_depth_incremental(&mut snap, &mut seq, &update, 5));
    let after_first: Vec<u32> = levels_of(&snap, 0);

    // Same message, same sequence number: dropped.
    assert!(!process_mcx_depth_incremental(&mut snap, &mut seq, &update, 5));
    assert_eq!(levels_of(&snap, 0), after_first);
    assert_eq!(seq, 5);
}

#[test]
fn out_of_order_sequence_is_noop() {
    let mut snap = snapshot(vec![entry(0, 1, 100, 10)]);
    let mut seq: u32 = 9;
    assert!(!process_mcx_depth_incremental(
        &mut snap,
        &mut seq,
        &inc(2, 0, Some(1), None, None),
        4,
    ));
    assert_eq!(levels_of(&snap, 0), vec![1]);
    assert_eq!(seq, 9);
}

#[test]
fn change_updates_only_present_fields() {
    let mut snap = snapshot(vec![entry(0, 1, 100, 10)]);
    let mut update = inc(1, 0, Some(1), None, Some(25));
    update.order_count = None;
    update.entry_time = None;
    assert!(feed_handler::book::change_depth(&mut snap, &update));
    let bid = &snap.entries[0];
    assert_eq!(bid.size, Some(25));
    assert_eq!(bid.price, Some(100));
    assert_eq!(bid.order_count, Some(1));
}

#[test]
fn overlay_updates_price_at_level() {
    let mut snap = snapshot(vec![entry(1, 1, 200, 4)]);
    let update = inc(5, 1, Some(1), Some(205), None);
    assert!(feed_handler::book::overlay_depth(&mut snap, &update));
    assert_eq!(snap.entries[0].price, Some(205));
    assert_eq!(snap.entries[0].size, Some(4));
}

#[test]
fn snapshot_refresh_wins_only_when_newer() {
    let mut slot: Option<DepthSnapshot> = None;
    let mut seq: u32 = 0;
    let mut first = snapshot(vec![entry(0, 1, 100, 1)]);
    first.msg_seq_num = Some(5);
    assert!(process_mcx_depth_snapshot(&mut slot, &mut seq, first));
    assert_eq!(seq, 5);

    let mut stale = snapshot(vec![]);
    stale.msg_seq_num = Some(5);
    assert!(!process_mcx_depth_snapshot(&mut slot, &mut seq, stale));
    assert_eq!(seq, 5);
    assert_eq!(slot.as_ref().unwrap().entries.len(), 1);
}

#[test]
fn contiguous_levels_after_update_run() {
    // A run of adds, a change, deletes of both directions and a trade keep
    // each side's levels a gapless range from 1.
    let mut snap = snapshot(vec![]);
    let mut seq: u32 = 0;
    let steps = vec![
        (inc(0, 0, Some(1), Some(100), Some(10)), 1u32),
        (inc(0, 0, Some(2), Some(99), Some(5)), 2),
        (inc(0, 0, Some(1), Some(101), Some(2)), 3),
        (inc(0, 1, Some(1), Some(102), Some(9)), 4),
        (inc(1, 0, Some(2), None, Some(42)), 5),
        (inc(2, 0, Some(1), None, None), 6),
        (inc(0, 2, None, Some(102), Some(9)), 7),
    ];
    for (update, msg_seq) in steps {
        process_mcx_depth_incremental(&mut snap, &mut seq, &update, msg_seq);
        for side in [0u32, 1u32] {
            let mut ls = levels_of(&snap, side);
            ls.sort();
            let expect: Vec<u32> = (1..=ls.len() as u32).collect();
            assert_eq!(ls, expect, "side {} not contiguous", side);
        }
    }
}

#[test]
fn picture_of_small_book() {
    let mut snap = snapshot(vec![
        entry(0, 1, 10050, 12),
        entry(1, 1, 10060, 3),
        DepthEntry {
            entry_type: 2,
            price_level: None,
            price: Some(10055),
            size: Some(2),
            order_count: None,
            entry_time: Some(3_000_000_000),
            trade_condition: Some(1 | 2 | 4 | 8 | 128),
            avg_traded_price: None,
            pste: None,
            quote_condition: None,
        },
        DepthEntry {
            entry_type: 9,
            price_level: None,
            price: None,
            size: Some(777),
            order_count: None,
            entry_time: None,
            trade_condition: None,
            avg_traded_price: Some(10052),
            pste: None,
            quote_condition: None,
        },
    ]);
    snap.msg_seq_num = Some(42);
    snap.total_buy_qty = Some(12);
    snap.total_sell_qty = Some(3);

    let pic = snapshot_to_market_picture(&snap, 123456);
    assert_eq!(pic.token, 7);
    assert_eq!(pic.msg_header.timestamp, 123456);
    assert_eq!(pic.msg_header.log_time, 42);
    assert_eq!(pic.total_buy_qty, 12);
    assert_eq!(pic.total_sell_qty, 3);
    assert_eq!(pic.volume_traded_today, 777);
    assert_eq!(pic.atp, 10052);
    assert_eq!(pic.ltp, 10055);
    assert_eq!(pic.ltq, 2);
    assert_eq!(pic.ltt, 3);
    assert_eq!(pic.open_price, 10055);
    assert_eq!(pic.high_price, 10055);
    assert_eq!(pic.low_price, 10055);
    assert_eq!(pic.close_price, 10055);
    assert_eq!(pic.buy_depth_count, 1);
    assert_eq!(pic.sell_depth_count, 1);
    assert_eq!(pic.market_depth_info[0].qty, 12);
    assert_eq!(pic.market_depth_info[0].price, 10050);
    assert_eq!(pic.market_depth_info[1].qty, 3);
    assert_eq!(pic.market_depth_info[1].price, 10060);
    assert_eq!(pic.market_depth_info[2].qty, 0);
    // Two depth rows: the serialized length grows by two rows over the base.
    assert_eq!(pic.msg_header.message_length, 130 + 14 * 2);
}

#[test]
fn add_without_level_takes_top_of_side() {
    // An add that carries no explicit level ranks at the top of its side,
    // pushing the rest of the side one level down.
    let mut snap = snapshot(vec![entry(1, 1, 102, 4), entry(1, 2, 103, 6)]);
    let mut seq: u32 = 0;
    assert!(process_mcx_depth_incremental(
        &mut snap,
        &mut seq,
        &inc(0, 1, None, Some(101), Some(5)),
        1,
    ));
    let asks: Vec<(u32, i64)> = snap
        .entries
        .iter()
        .filter(|e| e.entry_type == 1)
        .map(|e| (e.price_level.unwrap(), e.price.unwrap()))
        .collect();
    assert_eq!(asks, vec![(1, 101), (2, 102), (3, 103)]);
}

#[test]
fn trade_consumes_mid_level_and_closes_deeper_side() {
    // Consuming the second of three bid levels pulls only the deeper row
    // up; the top of the book keeps its rank.
    let mut snap = snapshot(vec![
        entry(0, 1, 100, 5),
        entry(0, 2, 99, 7),
        entry(0, 3, 98, 9),
    ]);
    let matched = do_trade(&mut snap, &inc(0, 2, None, Some(99), Some(7)));
    assert!(matched);
    let bids: Vec<(u32, i64)> = snap
        .entries
        .iter()
        .filter(|e| e.entry_type == 0)
        .map(|e| (e.price_level.unwrap(), e.price.unwrap()))
        .collect();
    assert_eq!(bids, vec![(1, 100), (2, 98)]);
}
