//! Converting a reconstructed MCX depth snapshot into the normalized
//! market picture.
//!
//! Prices and quantities in the book are already scaled integers; the
//! trade and volume statistics rows contribute the summary fields, and the
//! bid and ask rows become the depth array in their storage order.

use vstd::prelude::*;

use crate::book::{DepthEntry, DepthSnapshot, ENTRY_ASK, ENTRY_BID, ENTRY_TRADE, ENTRY_VOLUME};
use crate::bytesio::to_signed;
use crate::constants::{MAX_MARKET_DEPTH_IDX, SNAPSHOT_TEMPLATE_ID};
use crate::depth_output::{TagMarketDepthInfo, TagMarketPictureBroadcast, TagMessageHeader};
use crate::nse_worker::{spec_trunc_i32, TAG_DEPTH_ROW_LEN, TAG_PICTURE_BASE_LEN};

verus! {

/// Saturation of a wide value to the signed 32-bit range, as converting a
/// scaled price into a 32-bit record field does.
pub open spec fn spec_sat_i32(v: int) -> int {
    if v > i32::MAX {
        i32::MAX as int
    } else if v < i32::MIN {
        i32::MIN as int
    } else {
        v
    }
}

fn i64_to_i32_sat(v: i64) -> (r: i32)
    ensures
        r as int == spec_sat_i32(v as int),
{
    if v > i32::MAX as i64 {
        i32::MAX
    } else if v < i32::MIN as i64 {
        i32::MIN
    } else {
        v as i32
    }
}

/// Truncated-toward-zero division of a nanosecond timestamp down to
/// seconds, as storing it in the record does.
pub open spec fn spec_ns_to_s(t: int) -> int {
    if t >= 0 {
        t / 1000000000
    } else {
        -((-t) / 1000000000)
    }
}

fn ns_to_s(t: i64) -> (r: i64)
    ensures
        r as int == spec_ns_to_s(t as int),
{
    if t >= 0 {
        t / 1000000000
    } else {
        let mag: u64 = if t == i64::MIN {
            0x8000_0000_0000_0000u64
        } else {
            (-t) as u64
        };
        let q: u64 = mag / 1000000000;
        -(q as i64)
    }
}

/// The summary fields the statistics and trade rows of a snapshot carry.
pub struct PictureSummary {
    pub volume_traded_today: i64,
    pub atp: i32,
    pub ltp: i32,
    pub ltq: i32,
    pub ltt: i32,
    pub open_price: i32,
    pub high_price: i32,
    pub low_price: i32,
    pub close_price: i32,
}

pub open spec fn spec_zero_summary() -> PictureSummary {
    PictureSummary {
        volume_traded_today: 0,
        atp: 0,
        ltp: 0,
        ltq: 0,
        ltt: 0,
        open_price: 0,
        high_price: 0,
        low_price: 0,
        close_price: 0,
    }
}

pub open spec fn spec_opt_or_zero(v: Option<i64>) -> int {
    match v {
        Some(x) => x as int,
        None => 0,
    }
}

/// Folds one row into the running summary: a volume row sets the traded
/// volume and average price; a trade row sets the last-trade and session
/// price fields its condition bits announce.
pub open spec fn spec_apply_summary(acc: PictureSummary, e: DepthEntry) -> PictureSummary {
    if e.entry_type == ENTRY_VOLUME {
        PictureSummary {
            volume_traded_today: spec_opt_or_zero(e.size) as i64,
            atp: spec_sat_i32(spec_opt_or_zero(e.avg_traded_price)) as i32,
            ..acc
        }
    } else if e.entry_type == ENTRY_TRADE {
        let tc = match e.trade_condition {
            Some(t) => t,
            None => 0,
        };
        let acc1 = if tc & 1 == 1 {
            PictureSummary {
                ltp: spec_sat_i32(spec_opt_or_zero(e.price)) as i32,
                ltq: spec_sat_i32(spec_opt_or_zero(e.size)) as i32,
                ltt: spec_trunc_i32(
                    spec_ns_to_s(
                        match e.entry_time {
                            Some(t) => t as int,
                            None => 0,
                        },
                    ),
                ) as i32,
                ..acc
            }
        } else {
            acc
        };
        let acc2 = if tc & 2 == 2 {
            PictureSummary { open_price: spec_sat_i32(spec_opt_or_zero(e.price)) as i32, ..acc1 }
        } else {
            acc1
        };
        let acc3 = if tc & 4 == 4 {
            PictureSummary { high_price: spec_sat_i32(spec_opt_or_zero(e.price)) as i32, ..acc2 }
        } else {
            acc2
        };
        let acc4 = if tc & 8 == 8 {
            PictureSummary { low_price: spec_sat_i32(spec_opt_or_zero(e.price)) as i32, ..acc3 }
        } else {
            acc3
        };
        if tc & 128 == 128 {
            PictureSummary { close_price: spec_sat_i32(spec_opt_or_zero(e.price)) as i32, ..acc4 }
        } else {
            acc4
        }
    } else {
        acc
    }
}

pub open spec fn spec_summary(s: Seq<DepthEntry>) -> PictureSummary
    decreases s.len(),
{
    if s.len() == 0 {
        spec_zero_summary()
    } else {
        spec_apply_summary(spec_summary(s.drop_last()), s.last())
    }
}

/// The bid and ask rows of the snapshot, in storage order.
pub open spec fn spec_depth_rows(s: Seq<DepthEntry>) -> Seq<DepthEntry>
    decreases s.len(),
{
    if s.len() == 0 {
        Seq::empty()
    } else {
        let rest = spec_depth_rows(s.drop_last());
        if s.last().entry_type == ENTRY_BID || s.last().entry_type == ENTRY_ASK {
            rest.push(s.last())
        } else {
            rest
        }
    }
}

pub open spec fn spec_count_type(s: Seq<DepthEntry>, et: u32) -> int
    decreases s.len(),
{
    if s.len() == 0 {
        0
    } else {
        spec_count_type(s.drop_last(), et) + if s.last().entry_type == et {
            1int
        } else {
            0int
        }
    }
}

pub proof fn lemma_depth_rows_len_pub(s: Seq<DepthEntry>)
    ensures
        spec_depth_rows(s).len() == spec_count_type(s, ENTRY_BID) + spec_count_type(s, ENTRY_ASK),
        spec_count_type(s, ENTRY_BID) >= 0,
        spec_count_type(s, ENTRY_ASK) >= 0,
    decreases s.len(),
{
    if s.len() > 0 {
        lemma_depth_rows_len_pub(s.drop_last());
    }
}

/// One depth row of the output, from one bid or ask row of the book.
pub open spec fn spec_picture_row(e: DepthEntry) -> (int, int, int) {
    (
        spec_opt_or_zero(e.size),
        spec_sat_i32(spec_opt_or_zero(e.price)),
        spec_trunc_order(
            match e.order_count {
                Some(c) => c,
                None => 0u32,
            },
        ),
    )
}

/// A 32-bit order count stored into the record's 16-bit field.
pub open spec fn spec_trunc_order(c: u32) -> int {
    to_signed(c as int % 0x1_0000, 2)
}

fn u32_to_i16_trunc(c: u32) -> (r: i16)
    ensures
        r as int == spec_trunc_order(c),
{
    proof {
        crate::bytesio::lemma_pow256_values();
    }
    let m: u32 = c % 0x1_0000;
    if m >= 0x8000 {
        ((m as i32 - 0x1_0000) as i16)
    } else {
        m as i16
    }
}

/// What the picture of a snapshot holds, field by field, for a given
/// clock: the summary fold of its statistics and trade rows, and one depth
/// row per bid or ask row in storage order.
pub open spec fn spec_picture_of(
    depth_snapshot: DepthSnapshot,
    r: TagMarketPictureBroadcast,
    now_us: u64,
) -> bool {
    let depth_snapshot = &depth_snapshot;
    ({
            let s = depth_snapshot.entries@;
            let sm = spec_summary(s);
            let rows = spec_depth_rows(s);
            &&& r.msg_header.message_code == SNAPSHOT_TEMPLATE_ID
            &&& r.msg_header.log_time as int == spec_trunc_i32(
                depth_snapshot.msg_seq_num->0 as int,
            )
            &&& r.msg_header.timestamp == now_us
            &&& r.msg_header.message_length as int == TAG_PICTURE_BASE_LEN + TAG_DEPTH_ROW_LEN
                * rows.len()
            &&& r.token == depth_snapshot.security_id
            &&& r.total_buy_qty as int == spec_opt_or_zero(depth_snapshot.total_buy_qty)
            &&& r.total_sell_qty as int == spec_opt_or_zero(depth_snapshot.total_sell_qty)
            &&& r.volume_traded_today == sm.volume_traded_today
            &&& r.open_price == sm.open_price
            &&& r.close_price == sm.close_price
            &&& r.high_price == sm.high_price
            &&& r.low_price == sm.low_price
            &&& r.ltp == sm.ltp
            &&& r.ltq == sm.ltq
            &&& r.ltt == sm.ltt
            &&& r.atp == sm.atp
            &&& r.indicative_close_price == 0
            &&& r.lut == depth_snapshot.last_update_time
            &&& r.buy_depth_count as int == spec_count_type(s, ENTRY_BID)
            &&& r.sell_depth_count as int == spec_count_type(s, ENTRY_ASK)
            &&& r.trading_status == 1
            &&& r.market_depth_info@.len() == MAX_MARKET_DEPTH_IDX
            &&& forall|i: int|
                0 <= i < rows.len() ==> ((#[trigger] r.market_depth_info@[i]).qty as int,
                r.market_depth_info@[i].price as int,
                r.market_depth_info@[i].number_of_orders as int) == spec_picture_row(rows[i])
            &&& forall|i: int|
                rows.len() <= i < MAX_MARKET_DEPTH_IDX ==> (
                #[trigger] r.market_depth_info@[i]).qty == 0 && r.market_depth_info@[i].price == 0
                    && r.market_depth_info@[i].number_of_orders == 0
    })
}

/// Builds the normalized market picture of a reconstructed snapshot: the
/// summary fields folded from its statistics and trade rows, and one depth
/// row per bid or ask row in storage order, bid rows counted first.
#[verifier::rlimit(100)]
pub fn snapshot_to_market_picture(depth_snapshot: &DepthSnapshot, now_us: u64) -> (r:
    TagMarketPictureBroadcast)
    requires
        depth_snapshot.msg_seq_num is Some,
        spec_count_type(depth_snapshot.entries@, ENTRY_BID) + spec_count_type(
            depth_snapshot.entries@,
            ENTRY_ASK,
        ) <= MAX_MARKET_DEPTH_IDX,
    ensures
        r.wf(),
        spec_picture_of(*depth_snapshot, r, now_us),
{
    let n = depth_snapshot.entries.len();

    // Summary fold.
    let mut sm_vtt: i64 = 0;
    let mut sm_atp: i32 = 0;
    let mut sm_ltp: i32 = 0;
    let mut sm_ltq: i32 = 0;
    let mut sm_ltt: i32 = 0;
    let mut sm_open: i32 = 0;
    let mut sm_high: i32 = 0;
    let mut sm_low: i32 = 0;
    let mut sm_close: i32 = 0;
    let mut i: usize = 0;
    while i < n
        invariant
            i <= n,
            n == depth_snapshot.entries@.len(),
            ({
                let sm = spec_summary(depth_snapshot.entries@.take(i as int));
                &&& sm_vtt == sm.volume_traded_today
                &&& sm_atp == sm.atp
                &&& sm_ltp == sm.ltp
                &&& sm_ltq == sm.ltq
                &&& sm_ltt == sm.ltt
                &&& sm_open == sm.open_price
                &&& sm_high == sm.high_price
                &&& sm_low == sm.low_price
                &&& sm_close == sm.close_price
            }),
        decreases n - i,
    {
        let e = depth_snapshot.entries[i];
        if e.entry_type == ENTRY_VOLUME {
            sm_vtt = match e.size {
                Some(v) => v,
                None => 0,
            };
            sm_atp = i64_to_i32_sat(
                match e.avg_traded_price {
                    Some(v) => v,
                    None => 0,
                },
            );
        } else if e.entry_type == ENTRY_TRADE {
            let tc: u64 = match e.trade_condition {
                Some(t) => t,
                None => 0,
            };
            if tc & 1 == 1 {
                sm_ltp = i64_to_i32_sat(
                    match e.price {
                        Some(v) => v,
                        None => 0,
                    },
                );
                sm_ltq = i64_to_i32_sat(
                    match e.size {
                        Some(v) => v,
                        None => 0,
                    },
                );
                let t: i64 = match e.entry_time {
                    Some(v) => v,
                    None => 0,
                };
                sm_ltt = crate::nse_worker::i64_to_i32_wrap_pub(ns_to_s(t));
            }
            if tc & 2 == 2 {
                sm_open = i64_to_i32_sat(
                    match e.price {
                        Some(v) => v,
                        None => 0,
                    },
                );
            }
            if tc & 4 == 4 {
                sm_high = i64_to_i32_sat(
                    match e.price {
                        Some(v) => v,
                        None => 0,
                    },
                );
            }
            if tc & 8 == 8 {
                sm_low = i64_to_i32_sat(
                    match e.price {
                        Some(v) => v,
                        None => 0,
                    },
                );
            }
            if tc & 128 == 128 {
                sm_close = i64_to_i32_sat(
                    match e.price {
                        Some(v) => v,
                        None => 0,
                    },
                );
            }
        }
        proof {
            let t = depth_snapshot.entries@.take(i + 1);
            assert(t.drop_last() =~= depth_snapshot.entries@.take(i as int));
            assert(t.last() == depth_snapshot.entries@[i as int]);
        }
        i = i + 1;
    }
    proof {
        assert(depth_snapshot.entries@.take(n as int) =~= depth_snapshot.entries@);
    }

    // Depth rows.
    let mut mdi: Vec<TagMarketDepthInfo> = Vec::new();
    let mut buy_count: usize = 0;
    let mut sell_count: usize = 0;
    let mut k: usize = 0;
    while k < n
        invariant
            k <= n,
            n == depth_snapshot.entries@.len(),
            spec_count_type(depth_snapshot.entries@, ENTRY_BID) + spec_count_type(
                depth_snapshot.entries@,
                ENTRY_ASK,
            ) <= MAX_MARKET_DEPTH_IDX,
            buy_count as int == spec_count_type(depth_snapshot.entries@.take(k as int), ENTRY_BID),
            sell_count as int == spec_count_type(
                depth_snapshot.entries@.take(k as int),
                ENTRY_ASK,
            ),
            mdi@.len() == spec_depth_rows(depth_snapshot.entries@.take(k as int)).len(),
            mdi@.len() == buy_count + sell_count,
            forall|x: int|
                0 <= x < mdi@.len() ==> ((#[trigger] mdi@[x]).qty as int, mdi@[x].price as int,
                mdi@[x].number_of_orders as int) == spec_picture_row(
                    spec_depth_rows(depth_snapshot.entries@.take(k as int))[x],
                ),
        decreases n - k,
    {
        let e = depth_snapshot.entries[k];
        proof {
            let t = depth_snapshot.entries@.take(k + 1);
            assert(t.drop_last() =~= depth_snapshot.entries@.take(k as int));
            assert(t.last() == depth_snapshot.entries@[k as int]);
            lemma_count_type_take_bound(depth_snapshot.entries@, k + 1, ENTRY_BID);
            lemma_count_type_take_bound(depth_snapshot.entries@, k + 1, ENTRY_ASK);
        }
        if e.entry_type == ENTRY_BID || e.entry_type == ENTRY_ASK {
            if e.entry_type == ENTRY_BID {
                buy_count = buy_count + 1;
            } else {
                sell_count = sell_count + 1;
            }
            let row = TagMarketDepthInfo {
                qty: match e.size {
                    Some(v) => v,
                    None => 0,
                },
                price: i64_to_i32_sat(
                    match e.price {
                        Some(v) => v,
                        None => 0,
                    },
                ),
                number_of_orders: u32_to_i16_trunc(
                    match e.order_count {
                        Some(c) => c,
                        None => 0,
                    },
                ),
            };
            mdi.push(row);
            proof {
                let t = depth_snapshot.entries@.take(k + 1);
                assert(spec_depth_rows(t) =~= spec_depth_rows(
                    depth_snapshot.entries@.take(k as int),
                ).push(depth_snapshot.entries@[k as int]));
            }
        } else {
            proof {
                let t = depth_snapshot.entries@.take(k + 1);
                assert(spec_depth_rows(t) =~= spec_depth_rows(
                    depth_snapshot.entries@.take(k as int),
                ));
            }
        }
        k = k + 1;
    }
    proof {
        assert(depth_snapshot.entries@.take(n as int) =~= depth_snapshot.entries@);
        lemma_depth_rows_len_pub(depth_snapshot.entries@);
    }

    let filled = mdi.len();
    let ghost mdi0 = mdi@;
    let mut z: usize = filled;
    while z < MAX_MARKET_DEPTH_IDX
        invariant
            filled <= z <= MAX_MARKET_DEPTH_IDX,
            mdi@.len() == z,
            mdi0.len() == filled,
            forall|x: int| 0 <= x < filled ==> #[trigger] mdi@[x] == mdi0[x],
            forall|x: int|
                filled <= x < z ==> (#[trigger] mdi@[x]).qty == 0 && mdi@[x].price == 0
                    && mdi@[x].number_of_orders == 0,
        decreases MAX_MARKET_DEPTH_IDX - z,
    {
        mdi.push(TagMarketDepthInfo { qty: 0, price: 0, number_of_orders: 0 });
        z = z + 1;
    }

    let seq_no: u32 = match depth_snapshot.msg_seq_num {
        Some(v) => v,
        None => 0,
    };
    let mut alpha_char: Vec<u8> = Vec::new();
    alpha_char.push(0u8);
    alpha_char.push(0u8);
    let mut ts1: Vec<u8> = Vec::new();
    let mut t: usize = 0;
    while t < 8
        invariant
            t <= 8,
            ts1@.len() == t,
        decreases 8 - t,
    {
        ts1.push(0u8);
        t = t + 1;
    }
    let ts2 = crate::bytesio::read_bytes(ts1.as_slice(), 0, 8);

    let msg_header = TagMessageHeader {
        message_code: SNAPSHOT_TEMPLATE_ID,
        transaction_type: 0,
        log_time: crate::nse_worker::i64_to_i32_wrap_pub(seq_no as i64),
        alpha_char,
        trader_id: 0,
        error_code: 0,
        timestamp: now_us,
        timestamp1: ts1,
        timestamp2: ts2,
        message_length: (TAG_PICTURE_BASE_LEN + TAG_DEPTH_ROW_LEN * filled) as i16,
    };

    TagMarketPictureBroadcast {
        msg_header,
        token: depth_snapshot.security_id,
        total_buy_qty: match depth_snapshot.total_buy_qty {
            Some(v) => v,
            None => 0,
        },
        total_sell_qty: match depth_snapshot.total_sell_qty {
            Some(v) => v,
            None => 0,
        },
        volume_traded_today: sm_vtt,
        open_price: sm_open,
        close_price: sm_close,
        high_price: sm_high,
        low_price: sm_low,
        ltp: sm_ltp,
        ltq: sm_ltq,
        ltt: sm_ltt,
        atp: sm_atp,
        indicative_close_price: 0,
        lut: depth_snapshot.last_update_time,
        buy_depth_count: buy_count as i32,
        sell_depth_count: sell_count as i32,
        trading_status: 1,
        market_depth_info: mdi,
    }
}

proof fn lemma_count_type_take_bound(s: Seq<DepthEntry>, k: int, et: u32)
    requires
        0 <= k <= s.len(),
    ensures
        spec_count_type(s.take(k), et) <= spec_count_type(s, et),
        spec_count_type(s.take(k), et) >= 0,
    decreases s.len() - k,
{
    if k < s.len() {
        lemma_count_type_take_bound(s, k + 1, et);
        lemma_count_type_nonneg(s.take(k), et);
        let t = s.take(k + 1);
        assert(t.drop_last() =~= s.take(k));
        assert(t.last() == s[k]);
    } else {
        assert(s.take(k) =~= s);
        lemma_count_type_nonneg(s, et);
    }
}

proof fn lemma_count_type_nonneg(s: Seq<DepthEntry>, et: u32)
    ensures
        spec_count_type(s, et) >= 0,
    decreases s.len(),
{
    if s.len() > 0 {
        lemma_count_type_nonneg(s.drop_last(), et);
    }
}

} // verus!
