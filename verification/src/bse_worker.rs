//! BSE compressed market-picture processing.
//!
//! The three compressed broadcast records carry a fixed prefix per record
//! followed by delta-compressed fields: each field is a 16-bit stop value
//! that either ends the side, escapes to a full 32-bit value, or adds to a
//! base field decoded earlier.  The scan never panics: a record that runs
//! past the buffer or advertises impossible counts is dropped whole, as
//! malformed input is elsewhere in this pipeline.

use vstd::prelude::*;

use crate::bse::{
    build_bse_struct, BcastComplexMBPDetails, BcastComplexMarketPicture, BcastDebtMBPData,
    BcastDebtMBPDetails, BcastDebtMarketPicture, BcastMBPData, BcastMBPDetails,
    BcastMarketPicture, BseBroadcastTransactionMapping, BCAST_MBP_DATA_SIZE,
};
use crate::bytesio::{be_bytes, read_i16_be, read_i32_be, read_i64_be, read_u16_be, to_signed};
use crate::constants::{
    BEST_BID_VALUE, BEST_OFFER_VALUE, BSE_BCAST_COMPLEX, BSE_BCAST_DEBT, BSE_BCAST_MBP, BUF_SIZE,
    MAX_BSE_MBP_DATA_IDX, MAX_BSE_MBP_DEATIL_IDX, MAX_MARKET_DEPTH_IDX,
    MBP_UNCOMPRESSED_HEADER_LEN, U16_MAX,
};
use crate::depth_output::{TagMarketDepthInfo, TagMarketPictureBroadcast, TagMessageHeader};
use crate::packet::Packet;

verus! {

/// Signed 32-bit sum wrapped to the 32-bit two's-complement range.
pub open spec fn spec_wrap_i32(v: int) -> int {
    if v > i32::MAX {
        v - 0x1_0000_0000
    } else if v < i32::MIN {
        v + 0x1_0000_0000
    } else {
        v
    }
}

fn wrap_add_i32(a: i32, b: i32) -> (r: i32)
    ensures
        r as int == spec_wrap_i32(a as int + b as int),
{
    let s: i64 = a as i64 + b as i64;
    if s > i32::MAX as i64 {
        (s - 0x1_0000_0000) as i32
    } else if s < i32::MIN as i64 {
        (s + 0x1_0000_0000) as i32
    } else {
        s as i32
    }
}

/// The stop value opening the delta field at `off`.
pub open spec fn spec_stop_bit(s: Seq<u8>, off: int) -> int {
    to_signed(be_bytes(s, off, 2), 2)
}

/// Value of the delta field at `off` against `base`: a side sentinel stands
/// for itself, the escape value is followed by the full 32-bit value, and
/// anything else is a wrapping offset from the base.
pub open spec fn spec_decompress_value(base: int, s: Seq<u8>, off: int) -> int {
    let stop = spec_stop_bit(s, off);
    if stop == BEST_BID_VALUE || stop == BEST_OFFER_VALUE {
        stop
    } else if stop == U16_MAX {
        to_signed(be_bytes(s, off + 2, 4), 4)
    } else {
        spec_wrap_i32(stop + base)
    }
}

/// Bytes the delta field at `off` occupies.
pub open spec fn spec_decompress_width(s: Seq<u8>, off: int) -> int {
    if spec_stop_bit(s, off) == U16_MAX {
        6
    } else {
        2
    }
}

/// Reads one delta-compressed field and advances the cursor past it; only
/// the escape form needs the four extra bytes after its stop value.
pub fn decompress_field(base_value: i32, buf: &[u8], offset: &mut usize) -> (r: i32)
    requires
        *old(offset) + 2 <= buf@.len(),
        spec_stop_bit(buf@, *old(offset) as int) == U16_MAX ==> *old(offset) + 6 <= buf@.len(),
    ensures
        r as int == spec_decompress_value(base_value as int, buf@, *old(offset) as int),
        *final(offset) == *old(offset) + spec_decompress_width(buf@, *old(offset) as int),
{
    let n: usize = buf.len();
    let stop_bit_value = read_i16_be(buf, *offset);
    *offset = *offset + 2;

    if stop_bit_value == BEST_BID_VALUE || stop_bit_value == BEST_OFFER_VALUE {
        stop_bit_value as i32
    } else if stop_bit_value == U16_MAX {
        let final_value = read_i32_be(buf, *offset);
        *offset = *offset + 4;
        final_value
    } else {
        wrap_add_i32(stop_bit_value as i32, base_value)
    }
}

/// Truncation of a 32-bit value to the signed 16-bit range, as storing it in
/// an order-count field does.
pub open spec fn spec_trunc_i16(v: int) -> int {
    let m = ((v % 0x1_0000) + 0x1_0000) % 0x1_0000;
    to_signed(m, 2)
}

fn i32_to_i16_trunc(v: i32) -> (r: i16)
    ensures
        r as int == spec_trunc_i16(v as int),
{
    proof {
        crate::bytesio::lemma_pow256_values();
    }
    let m: i64 = ((v as i64 % 0x1_0000) + 0x1_0000) % 0x1_0000;
    if m >= 0x8000 {
        ((m - 0x1_0000) as i16)
    } else {
        m as i16
    }
}

// ---------------------------------------------------------------------------
// Zero-valued records, standing in for the uninitialized remainder of a
// partially decoded picture.
// ---------------------------------------------------------------------------

fn empty_mbp_data() -> (r: BcastMBPData)
    ensures
        r.wf(),
        r.best_bid_rate == 0,
        r.total_bid_qty == 0,
        r.no_of_bid_at_price_point == 0,
        r.implied_buy_qty == 0,
        r.best_offer_rate == 0,
        r.total_offer_qty == 0,
        r.no_of_offer_at_price_point == 0,
        r.implied_sell_qty == 0,
{
    BcastMBPData {
        best_bid_rate: 0,
        total_bid_qty: 0,
        no_of_bid_at_price_point: 0,
        implied_buy_qty: 0,
        best_offer_rate: 0,
        total_offer_qty: 0,
        no_of_offer_at_price_point: 0,
        implied_sell_qty: 0,
    }
}

fn empty_mbp_data_vec() -> (r: Vec<BcastMBPData>)
    ensures
        r@.len() == MAX_BSE_MBP_DATA_IDX,
        forall|k: int| 0 <= k < r@.len() ==> (#[trigger] r@[k]).wf(),
{
    let mut v: Vec<BcastMBPData> = Vec::new();
    let mut i: usize = 0;
    while i < MAX_BSE_MBP_DATA_IDX
        invariant
            i <= MAX_BSE_MBP_DATA_IDX,
            v@.len() == i,
            forall|k: int| 0 <= k < v@.len() ==> (#[trigger] v@[k]).wf(),
        decreases MAX_BSE_MBP_DATA_IDX - i,
    {
        v.push(empty_mbp_data());
        i = i + 1;
    }
    v
}

/// The fixed per-record prefix fields, pinned to their wire bytes.
pub open spec fn spec_mbp_details_prefix(det: BcastMBPDetails, s: Seq<u8>, off: int) -> bool {
    &&& det.instrument as int == to_signed(be_bytes(s, off + 0, 4), 4)
    &&& det.no_of_trades as int == to_signed(be_bytes(s, off + 4, 4), 4)
    &&& det.traded_volume as int == to_signed(be_bytes(s, off + 8, 4), 4)
    &&& det.traded_value as int == to_signed(be_bytes(s, off + 12, 4), 4)
    &&& det.trade_value_flag == s[off + 16]
    &&& det.reserved6 == s[off + 17]
    &&& det.reserved7 == s[off + 18]
    &&& det.reserved8@ == s.subrange(off + 19, off + 19 + 1)
    &&& det.market_type as int == to_signed(be_bytes(s, off + 20, 2), 2)
    &&& det.ession_number as int == to_signed(be_bytes(s, off + 22, 2), 2)
    &&& det.ltp_hour == s[off + 24]
    &&& det.ltp_minute == s[off + 25]
    &&& det.ltp_second == s[off + 26]
    &&& det.ltp_milli_second@ == s.subrange(off + 27, off + 27 + 3)
    &&& det.reserved9@ == s.subrange(off + 30, off + 30 + 2)
    &&& det.reserved10 as int == to_signed(be_bytes(s, off + 32, 2), 2)
    &&& det.no_of_price_points as int == to_signed(be_bytes(s, off + 34, 2), 2)
    &&& det.timestamp as int == to_signed(be_bytes(s, off + 36, 8), 8)
    &&& det.close_rate as int == to_signed(be_bytes(s, off + 44, 4), 4)
    &&& det.ltq as int == to_signed(be_bytes(s, off + 48, 4), 4)
    &&& det.ltp as int == to_signed(be_bytes(s, off + 52, 4), 4)
}

/// Decodes one record: its fixed prefix, the delta-compressed summary
/// fields, and the buy and sell price-point chains; returns the record and
/// the number of buy and sell points decoded.  The prefix and the twelve
/// summary fields are pinned to their wire bytes; the price-point chain
/// values are specified at the field reader and checked end to end by the
/// crate's tests.  A scan that would leave the buffer drops the record.
#[verifier::rlimit(100)]
fn decode_mbp_details(buf: &[u8], offset: &mut usize) -> (r: Option<(BcastMBPDetails, usize, usize)>)
    requires
        buf@.len() == BUF_SIZE,
        *old(offset) <= BUF_SIZE,
    ensures
        *final(offset) <= buf@.len(),
        r matches Some(t) ==> t.0.wf() && spec_mbp_details_prefix(t.0, buf@, *old(offset) as int) && t.1
            <= MAX_BSE_MBP_DATA_IDX && t.2 <= MAX_BSE_MBP_DATA_IDX,
        r matches Some(t) ==> ({
            let s = buf@;
            let o0 = *old(offset) as int + 56;
            let o1 = o0 + spec_decompress_width(s, o0);
            let o2 = o1 + spec_decompress_width(s, o1);
            let o3 = o2 + spec_decompress_width(s, o2);
            let o4 = o3 + spec_decompress_width(s, o3);
            let o5 = o4 + spec_decompress_width(s, o4);
            let o6 = o5 + spec_decompress_width(s, o5);
            let o7 = o6 + spec_decompress_width(s, o6);
            let o8 = o7 + spec_decompress_width(s, o7);
            let o9 = o8 + spec_decompress_width(s, o8);
            let o10 = o9 + spec_decompress_width(s, o9);
            let o11 = o10 + spec_decompress_width(s, o10);
            &&& t.0.open_rate as int == spec_decompress_value(t.0.ltp as int, s, o0)
            &&& t.0.prev_close_rate as int == spec_decompress_value(t.0.ltp as int, s, o1)
            &&& t.0.high_rate as int == spec_decompress_value(t.0.ltp as int, s, o2)
            &&& t.0.low_rate as int == spec_decompress_value(t.0.ltp as int, s, o3)
            &&& t.0.block_deal_ref_rate as int == spec_decompress_value(t.0.ltp as int, s, o4)
            &&& t.0.indicative_equilibrium_price as int == spec_decompress_value(t.0.ltp as int, s, o5)
            &&& t.0.indicative_equilibrium_qty as int == spec_decompress_value(t.0.ltq as int, s, o6)
            &&& t.0.total_bid_qty as int == spec_decompress_value(t.0.ltq as int, s, o7)
            &&& t.0.total_offer_qty as int == spec_decompress_value(t.0.ltq as int, s, o8)
            &&& t.0.lower_price_band as int == spec_decompress_value(t.0.ltp as int, s, o9)
            &&& t.0.upper_price_band as int == spec_decompress_value(t.0.ltp as int, s, o10)
            &&& t.0.weighted_avg_price as int == spec_decompress_value(t.0.ltp as int, s, o11)
        }),
{
    if *offset + 56 > BUF_SIZE {
        return None;
    }
    let instrument = read_i32_be(buf, *offset + 0);
    let no_of_trades = read_i32_be(buf, *offset + 4);
    let traded_volume = read_i32_be(buf, *offset + 8);
    let traded_value = read_i32_be(buf, *offset + 12);
    let trade_value_flag = crate::bytesio::read_u8(buf, *offset + 16);
    let reserved6 = crate::bytesio::read_u8(buf, *offset + 17);
    let reserved7 = crate::bytesio::read_u8(buf, *offset + 18);
    let reserved8 = crate::bytesio::read_bytes(buf, *offset + 19, 1);
    let market_type = read_i16_be(buf, *offset + 20);
    let ession_number = read_i16_be(buf, *offset + 22);
    let ltp_hour = crate::bytesio::read_u8(buf, *offset + 24);
    let ltp_minute = crate::bytesio::read_u8(buf, *offset + 25);
    let ltp_second = crate::bytesio::read_u8(buf, *offset + 26);
    let ltp_milli_second = crate::bytesio::read_bytes(buf, *offset + 27, 3);
    let reserved9 = crate::bytesio::read_bytes(buf, *offset + 30, 2);
    let reserved10 = read_i16_be(buf, *offset + 32);
    let no_of_price_points = read_i16_be(buf, *offset + 34);
    let timestamp = read_i64_be(buf, *offset + 36);
    let close_rate = read_i32_be(buf, *offset + 44);
    let ltq = read_i32_be(buf, *offset + 48);
    let ltp = read_i32_be(buf, *offset + 52);
    *offset = *offset + 56;

    let mut det = BcastMBPDetails {
        instrument,
        no_of_trades,
        traded_volume,
        traded_value,
        trade_value_flag,
        reserved6,
        reserved7,
        reserved8,
        market_type,
        ession_number,
        ltp_hour,
        ltp_minute,
        ltp_second,
        ltp_milli_second,
        reserved9,
        reserved10,
        no_of_price_points,
        timestamp,
        close_rate,
        ltq,
        ltp,
        open_rate: 0,
        prev_close_rate: 0,
        high_rate: 0,
        low_rate: 0,
        block_deal_ref_rate: 0,
        indicative_equilibrium_price: 0,
        indicative_equilibrium_qty: 0,
        total_bid_qty: 0,
        total_offer_qty: 0,
        lower_price_band: 0,
        upper_price_band: 0,
        weighted_avg_price: 0,
        mbp_data: empty_mbp_data_vec(),
    };

    if *offset + 6 > BUF_SIZE {
        return None;
    }
    det.open_rate = decompress_field(det.ltp, buf, offset);
    if *offset + 6 > BUF_SIZE {
        return None;
    }
    det.prev_close_rate = decompress_field(det.ltp, buf, offset);
    if *offset + 6 > BUF_SIZE {
        return None;
    }
    det.high_rate = decompress_field(det.ltp, buf, offset);
    if *offset + 6 > BUF_SIZE {
        return None;
    }
    det.low_rate = decompress_field(det.ltp, buf, offset);
    if *offset + 6 > BUF_SIZE {
        return None;
    }
    det.block_deal_ref_rate = decompress_field(det.ltp, buf, offset);
    if *offset + 6 > BUF_SIZE {
        return None;
    }
    det.indicative_equilibrium_price = decompress_field(det.ltp, buf, offset);
    if *offset + 6 > BUF_SIZE {
        return None;
    }
    det.indicative_equilibrium_qty = decompress_field(det.ltq, buf, offset);
    if *offset + 6 > BUF_SIZE {
        return None;
    }
    det.total_bid_qty = decompress_field(det.ltq, buf, offset);
    if *offset + 6 > BUF_SIZE {
        return None;
    }
    det.total_offer_qty = decompress_field(det.ltq, buf, offset);
    if *offset + 6 > BUF_SIZE {
        return None;
    }
    det.lower_price_band = decompress_field(det.ltp, buf, offset);
    if *offset + 6 > BUF_SIZE {
        return None;
    }
    det.upper_price_band = decompress_field(det.ltp, buf, offset);
    if *offset + 6 > BUF_SIZE {
        return None;
    }
    det.weighted_avg_price = decompress_field(det.ltp, buf, offset);

    if det.no_of_price_points < 0 || det.no_of_price_points > MAX_BSE_MBP_DATA_IDX as i16 {
        return None;
    }
    let points: usize = det.no_of_price_points as usize;

    let ghost det_pre = det;
    let mut buy_count: usize = 0;
    let mut c_buy: usize = 0;
    while c_buy < points
        invariant
            c_buy <= points,
            points <= MAX_BSE_MBP_DATA_IDX,
            det.mbp_data@.len() == MAX_BSE_MBP_DATA_IDX,
            forall|k: int| 0 <= k < det.mbp_data@.len() ==> (#[trigger] det.mbp_data@[k]).wf(),
            buy_count <= points,
            *offset <= BUF_SIZE,
            buf@.len() == BUF_SIZE,
            det == (BcastMBPDetails { mbp_data: det.mbp_data, ..det_pre }),
        ensures
            buy_count <= points,
            det.mbp_data@.len() == MAX_BSE_MBP_DATA_IDX,
            forall|k: int| 0 <= k < det.mbp_data@.len() ==> (#[trigger] det.mbp_data@[k]).wf(),
            *offset <= BUF_SIZE,
            det == (BcastMBPDetails { mbp_data: det.mbp_data, ..det_pre }),
        decreases points - c_buy,
    {
        buy_count = c_buy + 1;
        let mut row = det.mbp_data[c_buy];
        if *offset + 6 > BUF_SIZE {
            det.mbp_data.set(c_buy, row);
            return None;
        }
        row.best_bid_rate = if c_buy == 0 {
            decompress_field(det.ltp, buf, offset)
        } else {
            let prev = det.mbp_data[c_buy - 1];
            decompress_field(prev.best_bid_rate, buf, offset)
        };
        if row.best_bid_rate == BEST_BID_VALUE as i32 {
            row.best_bid_rate = 0;
            det.mbp_data.set(c_buy, row);
            break ;
        }
        if *offset + 6 > BUF_SIZE {
            det.mbp_data.set(c_buy, row);
            return None;
        }
        row.total_bid_qty = if c_buy == 0 {
            decompress_field(det.ltq, buf, offset)
        } else {
            let prev = det.mbp_data[c_buy - 1];
            decompress_field(prev.total_bid_qty, buf, offset)
        };
        if *offset + 6 > BUF_SIZE {
            det.mbp_data.set(c_buy, row);
            return None;
        }
        row.no_of_bid_at_price_point = if c_buy == 0 {
            decompress_field(det.ltq, buf, offset)
        } else {
            let prev = det.mbp_data[c_buy - 1];
            decompress_field(prev.no_of_bid_at_price_point, buf, offset)
        };
        if *offset + 6 > BUF_SIZE {
            det.mbp_data.set(c_buy, row);
            return None;
        }
        row.implied_buy_qty = if c_buy == 0 {
            decompress_field(det.ltq, buf, offset)
        } else {
            let prev = det.mbp_data[c_buy - 1];
            decompress_field(prev.implied_buy_qty, buf, offset)
        };
        det.mbp_data.set(c_buy, row);
        c_buy = c_buy + 1;
    }

    let mut sell_count: usize = 0;
    let mut c_sell: usize = 0;
    while c_sell < points
        invariant
            c_sell <= points,
            points <= MAX_BSE_MBP_DATA_IDX,
            det.mbp_data@.len() == MAX_BSE_MBP_DATA_IDX,
            forall|k: int| 0 <= k < det.mbp_data@.len() ==> (#[trigger] det.mbp_data@[k]).wf(),
            sell_count <= points,
            *offset <= BUF_SIZE,
            buf@.len() == BUF_SIZE,
            det == (BcastMBPDetails { mbp_data: det.mbp_data, ..det_pre }),
        ensures
            sell_count <= points,
            det.mbp_data@.len() == MAX_BSE_MBP_DATA_IDX,
            forall|k: int| 0 <= k < det.mbp_data@.len() ==> (#[trigger] det.mbp_data@[k]).wf(),
            *offset <= BUF_SIZE,
            det == (BcastMBPDetails { mbp_data: det.mbp_data, ..det_pre }),
        decreases points - c_sell,
    {
        sell_count = c_sell + 1;
        let mut row = det.mbp_data[c_sell];
        if *offset + 6 > BUF_SIZE {
            det.mbp_data.set(c_sell, row);
            return None;
        }
        row.best_offer_rate = if c_sell == 0 {
            decompress_field(det.ltp, buf, offset)
        } else {
            let prev = det.mbp_data[c_sell - 1];
            decompress_field(prev.best_offer_rate, buf, offset)
        };
        if row.best_offer_rate == BEST_OFFER_VALUE as i32 {
            row.best_offer_rate = 0;
            det.mbp_data.set(c_sell, row);
            break ;
        }
        if *offset + 6 > BUF_SIZE {
            det.mbp_data.set(c_sell, row);
            return None;
        }
        row.total_offer_qty = if c_sell == 0 {
            decompress_field(det.ltq, buf, offset)
        } else {
            let prev = det.mbp_data[c_sell - 1];
            decompress_field(prev.total_offer_qty, buf, offset)
        };
        if *offset + 6 > BUF_SIZE {
            det.mbp_data.set(c_sell, row);
            return None;
        }
        row.no_of_offer_at_price_point = if c_sell == 0 {
            decompress_field(det.ltq, buf, offset)
        } else {
            let prev = det.mbp_data[c_sell - 1];
            decompress_field(prev.no_of_offer_at_price_point, buf, offset)
        };
        if *offset + 6 > BUF_SIZE {
            det.mbp_data.set(c_sell, row);
            return None;
        }
        row.implied_sell_qty = if c_sell == 0 {
            decompress_field(det.ltq, buf, offset)
        } else {
            let prev = det.mbp_data[c_sell - 1];
            decompress_field(prev.implied_sell_qty, buf, offset)
        };
        det.mbp_data.set(c_sell, row);
        c_sell = c_sell + 1;
    }

    Some((det, buy_count, sell_count))
}

/// The fixed per-record prefix fields, pinned to their wire bytes.
pub open spec fn spec_complex_details_prefix(det: BcastComplexMBPDetails, s: Seq<u8>, off: int) -> bool {
    &&& det.contract_code as int == to_signed(be_bytes(s, off + 0, 8), 8)
    &&& det.no_of_trades as int == to_signed(be_bytes(s, off + 8, 4), 4)
    &&& det.traded_volume as int == to_signed(be_bytes(s, off + 12, 4), 4)
    &&& det.traded_value as int == to_signed(be_bytes(s, off + 16, 4), 4)
    &&& det.trade_value_flag == s[off + 20]
    &&& det.reserved6 == s[off + 21]
    &&& det.reserved7 == s[off + 22]
    &&& det.reserved8@ == s.subrange(off + 23, off + 23 + 1)
    &&& det.market_type as int == to_signed(be_bytes(s, off + 24, 2), 2)
    &&& det.ession_number as int == to_signed(be_bytes(s, off + 26, 2), 2)
    &&& det.ltp_hour == s[off + 28]
    &&& det.ltp_minute == s[off + 29]
    &&& det.ltp_second == s[off + 30]
    &&& det.ltp_milli_second@ == s.subrange(off + 31, off + 31 + 3)
    &&& det.reserved9@ == s.subrange(off + 34, off + 34 + 2)
    &&& det.reserved10 as int == to_signed(be_bytes(s, off + 36, 2), 2)
    &&& det.no_of_price_points as int == to_signed(be_bytes(s, off + 38, 2), 2)
    &&& det.timestamp as int == to_signed(be_bytes(s, off + 40, 8), 8)
    &&& det.close_rate as int == to_signed(be_bytes(s, off + 48, 4), 4)
    &&& det.ltq as int == to_signed(be_bytes(s, off + 52, 4), 4)
    &&& det.ltp as int == to_signed(be_bytes(s, off + 56, 4), 4)
}

/// Decodes one record: its fixed prefix, the delta-compressed summary
/// fields, and the buy and sell price-point chains; returns the record and
/// the number of buy and sell points decoded.  The prefix and the twelve
/// summary fields are pinned to their wire bytes; the price-point chain
/// values are specified at the field reader and checked end to end by the
/// crate's tests.  A scan that would leave the buffer drops the record.
#[verifier::rlimit(100)]
fn decode_complex_details(buf: &[u8], offset: &mut usize) -> (r: Option<(BcastComplexMBPDetails, usize, usize)>)
    requires
        buf@.len() == BUF_SIZE,
        *old(offset) <= BUF_SIZE,
    ensures
        *final(offset) <= buf@.len(),
        r matches Some(t) ==> t.0.wf() && spec_complex_details_prefix(t.0, buf@, *old(offset) as int) && t.1
            <= MAX_BSE_MBP_DATA_IDX && t.2 <= MAX_BSE_MBP_DATA_IDX,
        r matches Some(t) ==> ({
            let s = buf@;
            let o0 = *old(offset) as int + 60;
            let o1 = o0 + spec_decompress_width(s, o0);
            let o2 = o1 + spec_decompress_width(s, o1);
            let o3 = o2 + spec_decompress_width(s, o2);
            let o4 = o3 + spec_decompress_width(s, o3);
            let o5 = o4 + spec_decompress_width(s, o4);
            let o6 = o5 + spec_decompress_width(s, o5);
            let o7 = o6 + spec_decompress_width(s, o6);
            let o8 = o7 + spec_decompress_width(s, o7);
            let o9 = o8 + spec_decompress_width(s, o8);
            let o10 = o9 + spec_decompress_width(s, o9);
            let o11 = o10 + spec_decompress_width(s, o10);
            &&& t.0.open_rate as int == spec_decompress_value(t.0.ltp as int, s, o0)
            &&& t.0.prev_close_rate as int == spec_decompress_value(t.0.ltp as int, s, o1)
            &&& t.0.high_rate as int == spec_decompress_value(t.0.ltp as int, s, o2)
            &&& t.0.low_rate as int == spec_decompress_value(t.0.ltp as int, s, o3)
            &&& t.0.block_deal_ref_rate as int == spec_decompress_value(t.0.ltp as int, s, o4)
            &&& t.0.indicative_equilibrium_price as int == spec_decompress_value(t.0.ltp as int, s, o5)
            &&& t.0.indicative_equilibrium_qty as int == spec_decompress_value(t.0.ltq as int, s, o6)
            &&& t.0.total_bid_qty as int == spec_decompress_value(t.0.ltq as int, s, o7)
            &&& t.0.total_offer_qty as int == spec_decompress_value(t.0.ltq as int, s, o8)
            &&& t.0.lower_price_band as int == spec_decompress_value(t.0.ltp as int, s, o9)
            &&& t.0.upper_price_band as int == spec_decompress_value(t.0.ltp as int, s, o10)
            &&& t.0.weighted_avg_price as int == spec_decompress_value(t.0.ltp as int, s, o11)
        }),
{
    if *offset + 60 > BUF_SIZE {
        return None;
    }
    let contract_code = read_i64_be(buf, *offset + 0);
    let no_of_trades = read_i32_be(buf, *offset + 8);
    let traded_volume = read_i32_be(buf, *offset + 12);
    let traded_value = read_i32_be(buf, *offset + 16);
    let trade_value_flag = crate::bytesio::read_u8(buf, *offset + 20);
    let reserved6 = crate::bytesio::read_u8(buf, *offset + 21);
    let reserved7 = crate::bytesio::read_u8(buf, *offset + 22);
    let reserved8 = crate::bytesio::read_bytes(buf, *offset + 23, 1);
    let market_type = read_i16_be(buf, *offset + 24);
    let ession_number = read_i16_be(buf, *offset + 26);
    let ltp_hour = crate::bytesio::read_u8(buf, *offset + 28);
    let ltp_minute = crate::bytesio::read_u8(buf, *offset + 29);
    let ltp_second = crate::bytesio::read_u8(buf, *offset + 30);
    let ltp_milli_second = crate::bytesio::read_bytes(buf, *offset + 31, 3);
    let reserved9 = crate::bytesio::read_bytes(buf, *offset + 34, 2);
    let reserved10 = read_i16_be(buf, *offset + 36);
    let no_of_price_points = read_i16_be(buf, *offset + 38);
    let timestamp = read_i64_be(buf, *offset + 40);
    let close_rate = read_i32_be(buf, *offset + 48);
    let ltq = read_i32_be(buf, *offset + 52);
    let ltp = read_i32_be(buf, *offset + 56);
    *offset = *offset + 60;

    let mut det = BcastComplexMBPDetails {
        contract_code,
        no_of_trades,
        traded_volume,
        traded_value,
        trade_value_flag,
        reserved6,
        reserved7,
        reserved8,
        market_type,
        ession_number,
        ltp_hour,
        ltp_minute,
        ltp_second,
        ltp_milli_second,
        reserved9,
        reserved10,
        no_of_price_points,
        timestamp,
        close_rate,
        ltq,
        ltp,
        open_rate: 0,
        prev_close_rate: 0,
        high_rate: 0,
        low_rate: 0,
        block_deal_ref_rate: 0,
        indicative_equilibrium_price: 0,
        indicative_equilibrium_qty: 0,
        total_bid_qty: 0,
        total_offer_qty: 0,
        lower_price_band: 0,
        upper_price_band: 0,
        weighted_avg_price: 0,
        mbp_data: empty_mbp_data_vec(),
    };

    if *offset + 6 > BUF_SIZE {
        return None;
    }
    det.open_rate = decompress_field(det.ltp, buf, offset);
    if *offset + 6 > BUF_SIZE {
        return None;
    }
    det.prev_close_rate = decompress_field(det.ltp, buf, offset);
    if *offset + 6 > BUF_SIZE {
        return None;
    }
    det.high_rate = decompress_field(det.ltp, buf, offset);
    if *offset + 6 > BUF_SIZE {
        return None;
    }
    det.low_rate = decompress_field(det.ltp, buf, offset);
    if *offset + 6 > BUF_SIZE {
        return None;
    }
    det.block_deal_ref_rate = decompress_field(det.ltp, buf, offset);
    if *offset + 6 > BUF_SIZE {
        return None;
    }
    det.indicative_equilibrium_price = decompress_field(det.ltp, buf, offset);
    if *offset + 6 > BUF_SIZE {
        return None;
    }
    det.indicative_equilibrium_qty = decompress_field(det.ltq, buf, offset);
    if *offset + 6 > BUF_SIZE {
        return None;
    }
    det.total_bid_qty = decompress_field(det.ltq, buf, offset);
    if *offset + 6 > BUF_SIZE {
        return None;
    }
    det.total_offer_qty = decompress_field(det.ltq, buf, offset);
    if *offset + 6 > BUF_SIZE {
        return None;
    }
    det.lower_price_band = decompress_field(det.ltp, buf, offset);
    if *offset + 6 > BUF_SIZE {
        return None;
    }
    det.upper_price_band = decompress_field(det.ltp, buf, offset);
    if *offset + 6 > BUF_SIZE {
        return None;
    }
    det.weighted_avg_price = decompress_field(det.ltp, buf, offset);

    if det.no_of_price_points < 0 || det.no_of_price_points > MAX_BSE_MBP_DATA_IDX as i16 {
        return None;
    }
    let points: usize = det.no_of_price_points as usize;

    let ghost det_pre = det;
    let mut buy_count: usize = 0;
    let mut c_buy: usize = 0;
    while c_buy < points
        invariant
            c_buy <= points,
            points <= MAX_BSE_MBP_DATA_IDX,
            det.mbp_data@.len() == MAX_BSE_MBP_DATA_IDX,
            forall|k: int| 0 <= k < det.mbp_data@.len() ==> (#[trigger] det.mbp_data@[k]).wf(),
            buy_count <= points,
            *offset <= BUF_SIZE,
            buf@.len() == BUF_SIZE,
            det == (BcastComplexMBPDetails { mbp_data: det.mbp_data, ..det_pre }),
        ensures
            buy_count <= points,
            det.mbp_data@.len() == MAX_BSE_MBP_DATA_IDX,
            forall|k: int| 0 <= k < det.mbp_data@.len() ==> (#[trigger] det.mbp_data@[k]).wf(),
            *offset <= BUF_SIZE,
            det == (BcastComplexMBPDetails { mbp_data: det.mbp_data, ..det_pre }),
        decreases points - c_buy,
    {
        buy_count = c_buy + 1;
        let mut row = det.mbp_data[c_buy];
        if *offset + 6 > BUF_SIZE {
            det.mbp_data.set(c_buy, row);
            return None;
        }
        row.best_bid_rate = if c_buy == 0 {
            decompress_field(det.ltp, buf, offset)
        } else {
            let prev = det.mbp_data[c_buy - 1];
            decompress_field(prev.best_bid_rate, buf, offset)
        };
        if row.best_bid_rate == BEST_BID_VALUE as i32 {
            row.best_bid_rate = 0;
            det.mbp_data.set(c_buy, row);
            break ;
        }
        if *offset + 6 > BUF_SIZE {
            det.mbp_data.set(c_buy, row);
            return None;
        }
        row.total_bid_qty = if c_buy == 0 {
            decompress_field(det.ltq, buf, offset)
        } else {
            let prev = det.mbp_data[c_buy - 1];
            decompress_field(prev.total_bid_qty, buf, offset)
        };
        if *offset + 6 > BUF_SIZE {
            det.mbp_data.set(c_buy, row);
            return None;
        }
        row.no_of_bid_at_price_point = if c_buy == 0 {
            decompress_field(det.ltq, buf, offset)
        } else {
            let prev = det.mbp_data[c_buy - 1];
            decompress_field(prev.no_of_bid_at_price_point, buf, offset)
        };
        if *offset + 6 > BUF_SIZE {
            det.mbp_data.set(c_buy, row);
            return None;
        }
        row.implied_buy_qty = if c_buy == 0 {
            decompress_field(det.ltq, buf, offset)
        } else {
            let prev = det.mbp_data[c_buy - 1];
            decompress_field(prev.implied_buy_qty, buf, offset)
        };
        det.mbp_data.set(c_buy, row);
        c_buy = c_buy + 1;
    }

    let mut sell_count: usize = 0;
    let mut c_sell: usize = 0;
    while c_sell < points
        invariant
            c_sell <= points,
            points <= MAX_BSE_MBP_DATA_IDX,
            det.mbp_data@.len() == MAX_BSE_MBP_DATA_IDX,
            forall|k: int| 0 <= k < det.mbp_data@.len() ==> (#[trigger] det.mbp_data@[k]).wf(),
            sell_count <= points,
            *offset <= BUF_SIZE,
            buf@.len() == BUF_SIZE,
            det == (BcastComplexMBPDetails { mbp_data: det.mbp_data, ..det_pre }),
        ensures
            sell_count <= points,
            det.mbp_data@.len() == MAX_BSE_MBP_DATA_IDX,
            forall|k: int| 0 <= k < det.mbp_data@.len() ==> (#[trigger] det.mbp_data@[k]).wf(),
            *offset <= BUF_SIZE,
            det == (BcastComplexMBPDetails { mbp_data: det.mbp_data, ..det_pre }),
        decreases points - c_sell,
    {
        sell_count = c_sell + 1;
        let mut row = det.mbp_data[c_sell];
        if *offset + 6 > BUF_SIZE {
            det.mbp_data.set(c_sell, row);
            return None;
        }
        row.best_offer_rate = if c_sell == 0 {
            decompress_field(det.ltp, buf, offset)
        } else {
            let prev = det.mbp_data[c_sell - 1];
            decompress_field(prev.best_offer_rate, buf, offset)
        };
        if row.best_offer_rate == BEST_OFFER_VALUE as i32 {
            row.best_offer_rate = 0;
            det.mbp_data.set(c_sell, row);
            break ;
        }
        if *offset + 6 > BUF_SIZE {
            det.mbp_data.set(c_sell, row);
            return None;
        }
        row.total_offer_qty = if c_sell == 0 {
            decompress_field(det.ltq, buf, offset)
        } else {
            let prev = det.mbp_data[c_sell - 1];
            decompress_field(prev.total_offer_qty, buf, offset)
        };
        if *offset + 6 > BUF_SIZE {
            det.mbp_data.set(c_sell, row);
            return None;
        }
        row.no_of_offer_at_price_point = if c_sell == 0 {
            decompress_field(det.ltq, buf, offset)
        } else {
            let prev = det.mbp_data[c_sell - 1];
            decompress_field(prev.no_of_offer_at_price_point, buf, offset)
        };
        if *offset + 6 > BUF_SIZE {
            det.mbp_data.set(c_sell, row);
            return None;
        }
        row.implied_sell_qty = if c_sell == 0 {
            decompress_field(det.ltq, buf, offset)
        } else {
            let prev = det.mbp_data[c_sell - 1];
            decompress_field(prev.implied_sell_qty, buf, offset)
        };
        det.mbp_data.set(c_sell, row);
        c_sell = c_sell + 1;
    }

    Some((det, buy_count, sell_count))
}

/// The fixed per-record prefix fields, pinned to their wire bytes.
pub open spec fn spec_debt_details_prefix(det: BcastDebtMBPDetails, s: Seq<u8>, off: int) -> bool {
    &&& det.instrument as int == to_signed(be_bytes(s, off + 0, 4), 4)
    &&& det.no_of_trades as int == to_signed(be_bytes(s, off + 4, 4), 4)
    &&& det.traded_volume as int == to_signed(be_bytes(s, off + 8, 4), 4)
    &&& det.traded_value as int == to_signed(be_bytes(s, off + 12, 4), 4)
    &&& det.trade_value_flag == s[off + 16]
    &&& det.reserved6 == s[off + 17]
    &&& det.reserved7 == s[off + 18]
    &&& det.reserved8@ == s.subrange(off + 19, off + 19 + 1)
    &&& det.market_type as int == to_signed(be_bytes(s, off + 20, 2), 2)
    &&& det.ession_number as int == to_signed(be_bytes(s, off + 22, 2), 2)
    &&& det.ltp_hour == s[off + 24]
    &&& det.ltp_minute == s[off + 25]
    &&& det.ltp_second == s[off + 26]
    &&& det.ltp_milli_second@ == s.subrange(off + 27, off + 27 + 3)
    &&& det.reserved9@ == s.subrange(off + 30, off + 30 + 2)
    &&& det.reserved10 as int == to_signed(be_bytes(s, off + 32, 2), 2)
    &&& det.no_of_price_points as int == to_signed(be_bytes(s, off + 34, 2), 2)
    &&& det.timestamp as int == to_signed(be_bytes(s, off + 36, 8), 8)
    &&& det.close_rate as int == to_signed(be_bytes(s, off + 44, 4), 4)
    &&& det.ytm as int == to_signed(be_bytes(s, off + 48, 4), 4)
    &&& det.ytp as int == to_signed(be_bytes(s, off + 52, 4), 4)
    &&& det.ytc as int == to_signed(be_bytes(s, off + 56, 4), 4)
    &&& det.ltq as int == to_signed(be_bytes(s, off + 60, 4), 4)
    &&& det.ltp as int == to_signed(be_bytes(s, off + 64, 4), 4)
}

/// Decodes one record: its fixed prefix, the delta-compressed summary
/// fields, and the buy and sell price-point chains; returns the record and
/// the number of buy and sell points decoded.  The prefix and the twelve
/// summary fields are pinned to their wire bytes; the price-point chain
/// values are specified at the field reader and checked end to end by the
/// crate's tests.  A scan that would leave the buffer drops the record.
#[verifier::rlimit(100)]
fn decode_debt_details(buf: &[u8], offset: &mut usize) -> (r: Option<(BcastDebtMBPDetails, usize, usize)>)
    requires
        buf@.len() == BUF_SIZE,
        *old(offset) <= BUF_SIZE,
    ensures
        *final(offset) <= buf@.len(),
        r matches Some(t) ==> t.0.wf() && spec_debt_details_prefix(t.0, buf@, *old(offset) as int) && t.1
            <= MAX_BSE_MBP_DATA_IDX && t.2 <= MAX_BSE_MBP_DATA_IDX,
        r matches Some(t) ==> ({
            let s = buf@;
            let o0 = *old(offset) as int + 68;
            let o1 = o0 + spec_decompress_width(s, o0);
            let o2 = o1 + spec_decompress_width(s, o1);
            let o3 = o2 + spec_decompress_width(s, o2);
            let o4 = o3 + spec_decompress_width(s, o3);
            let o5 = o4 + spec_decompress_width(s, o4);
            let o6 = o5 + spec_decompress_width(s, o5);
            let o7 = o6 + spec_decompress_width(s, o6);
            let o8 = o7 + spec_decompress_width(s, o7);
            let o9 = o8 + spec_decompress_width(s, o8);
            let o10 = o9 + spec_decompress_width(s, o9);
            let o11 = o10 + spec_decompress_width(s, o10);
            &&& t.0.open_rate as int == spec_decompress_value(t.0.ltp as int, s, o0)
            &&& t.0.prev_close_rate as int == spec_decompress_value(t.0.ltp as int, s, o1)
            &&& t.0.high_rate as int == spec_decompress_value(t.0.ltp as int, s, o2)
            &&& t.0.low_rate as int == spec_decompress_value(t.0.ltp as int, s, o3)
            &&& t.0.reserved11 as int == spec_decompress_value(t.0.ltp as int, s, o4)
            &&& t.0.indicative_equilibrium_price as int == spec_decompress_value(t.0.ltp as int, s, o5)
            &&& t.0.indicative_equilibrium_qty as int == spec_decompress_value(t.0.ltq as int, s, o6)
            &&& t.0.total_bid_qty as int == spec_decompress_value(t.0.ltq as int, s, o7)
            &&& t.0.total_offer_qty as int == spec_decompress_value(t.0.ltq as int, s, o8)
            &&& t.0.lower_price_band as int == spec_decompress_value(t.0.ltp as int, s, o9)
            &&& t.0.upper_price_band as int == spec_decompress_value(t.0.ltp as int, s, o10)
            &&& t.0.weighted_avg_price as int == spec_decompress_value(t.0.ltp as int, s, o11)
        }),
{
    if *offset + 68 > BUF_SIZE {
        return None;
    }
    let instrument = read_i32_be(buf, *offset + 0);
    let no_of_trades = read_i32_be(buf, *offset + 4);
    let traded_volume = read_i32_be(buf, *offset + 8);
    let traded_value = read_i32_be(buf, *offset + 12);
    let trade_value_flag = crate::bytesio::read_u8(buf, *offset + 16);
    let reserved6 = crate::bytesio::read_u8(buf, *offset + 17);
    let reserved7 = crate::bytesio::read_u8(buf, *offset + 18);
    let reserved8 = crate::bytesio::read_bytes(buf, *offset + 19, 1);
    let market_type = read_i16_be(buf, *offset + 20);
    let ession_number = read_i16_be(buf, *offset + 22);
    let ltp_hour = crate::bytesio::read_u8(buf, *offset + 24);
    let ltp_minute = crate::bytesio::read_u8(buf, *offset + 25);
    let ltp_second = crate::bytesio::read_u8(buf, *offset + 26);
    let ltp_milli_second = crate::bytesio::read_bytes(buf, *offset + 27, 3);
    let reserved9 = crate::bytesio::read_bytes(buf, *offset + 30, 2);
    let reserved10 = read_i16_be(buf, *offset + 32);
    let no_of_price_points = read_i16_be(buf, *offset + 34);
    let timestamp = read_i64_be(buf, *offset + 36);
    let close_rate = read_i32_be(buf, *offset + 44);
    let ytm = read_i32_be(buf, *offset + 48);
    let ytp = read_i32_be(buf, *offset + 52);
    let ytc = read_i32_be(buf, *offset + 56);
    let ltq = read_i32_be(buf, *offset + 60);
    let ltp = read_i32_be(buf, *offset + 64);
    *offset = *offset + 68;

    let mut det = BcastDebtMBPDetails {
        instrument,
        no_of_trades,
        traded_volume,
        traded_value,
        trade_value_flag,
        reserved6,
        reserved7,
        reserved8,
        market_type,
        ession_number,
        ltp_hour,
        ltp_minute,
        ltp_second,
        ltp_milli_second,
        reserved9,
        reserved10,
        no_of_price_points,
        timestamp,
        close_rate,
        ytm,
        ytp,
        ytc,
        ltq,
        ltp,
        open_rate: 0,
        prev_close_rate: 0,
        high_rate: 0,
        low_rate: 0,
        reserved11: 0,
        indicative_equilibrium_price: 0,
        indicative_equilibrium_qty: 0,
        total_bid_qty: 0,
        total_offer_qty: 0,
        lower_price_band: 0,
        upper_price_band: 0,
        weighted_avg_price: 0,
        mbp_data: empty_debt_data_vec(),
    };

    if *offset + 6 > BUF_SIZE {
        return None;
    }
    det.open_rate = decompress_field(det.ltp, buf, offset);
    if *offset + 6 > BUF_SIZE {
        return None;
    }
    det.prev_close_rate = decompress_field(det.ltp, buf, offset);
    if *offset + 6 > BUF_SIZE {
        return None;
    }
    det.high_rate = decompress_field(det.ltp, buf, offset);
    if *offset + 6 > BUF_SIZE {
        return None;
    }
    det.low_rate = decompress_field(det.ltp, buf, offset);
    if *offset + 6 > BUF_SIZE {
        return None;
    }
    det.reserved11 = decompress_field(det.ltp, buf, offset);
    if *offset + 6 > BUF_SIZE {
        return None;
    }
    det.indicative_equilibrium_price = decompress_field(det.ltp, buf, offset);
    if *offset + 6 > BUF_SIZE {
        return None;
    }
    det.indicative_equilibrium_qty = decompress_field(det.ltq, buf, offset);
    if *offset + 6 > BUF_SIZE {
        return None;
    }
    det.total_bid_qty = decompress_field(det.ltq, buf, offset);
    if *offset + 6 > BUF_SIZE {
        return None;
    }
    det.total_offer_qty = decompress_field(det.ltq, buf, offset);
    if *offset + 6 > BUF_SIZE {
        return None;
    }
    det.lower_price_band = decompress_field(det.ltp, buf, offset);
    if *offset + 6 > BUF_SIZE {
        return None;
    }
    det.upper_price_band = decompress_field(det.ltp, buf, offset);
    if *offset + 6 > BUF_SIZE {
        return None;
    }
    det.weighted_avg_price = decompress_field(det.ltp, buf, offset);

    if det.no_of_price_points < 0 || det.no_of_price_points > MAX_BSE_MBP_DATA_IDX as i16 {
        return None;
    }
    let points: usize = det.no_of_price_points as usize;

    let ghost det_pre = det;
    let mut buy_count: usize = 0;
    let mut c_buy: usize = 0;
    while c_buy < points
        invariant
            c_buy <= points,
            points <= MAX_BSE_MBP_DATA_IDX,
            det.mbp_data@.len() == MAX_BSE_MBP_DATA_IDX,
            forall|k: int| 0 <= k < det.mbp_data@.len() ==> (#[trigger] det.mbp_data@[k]).wf(),
            buy_count <= points,
            *offset <= BUF_SIZE,
            buf@.len() == BUF_SIZE,
            det == (BcastDebtMBPDetails { mbp_data: det.mbp_data, ..det_pre }),
        ensures
            buy_count <= points,
            det.mbp_data@.len() == MAX_BSE_MBP_DATA_IDX,
            forall|k: int| 0 <= k < det.mbp_data@.len() ==> (#[trigger] det.mbp_data@[k]).wf(),
            *offset <= BUF_SIZE,
            det == (BcastDebtMBPDetails { mbp_data: det.mbp_data, ..det_pre }),
        decreases points - c_buy,
    {
        buy_count = c_buy + 1;
        let mut row = det.mbp_data[c_buy];
        if *offset + 6 > BUF_SIZE {
            det.mbp_data.set(c_buy, row);
            return None;
        }
        row.best_bid_rate = if c_buy == 0 {
            decompress_field(det.ltp, buf, offset)
        } else {
            let prev = det.mbp_data[c_buy - 1];
            decompress_field(prev.best_bid_rate, buf, offset)
        };
        if row.best_bid_rate == BEST_BID_VALUE as i32 {
            row.best_bid_rate = 0;
            det.mbp_data.set(c_buy, row);
            break ;
        }
        if *offset + 6 > BUF_SIZE {
            det.mbp_data.set(c_buy, row);
            return None;
        }
        row.total_bid_qty = if c_buy == 0 {
            decompress_field(det.ltq, buf, offset)
        } else {
            let prev = det.mbp_data[c_buy - 1];
            decompress_field(prev.total_bid_qty, buf, offset)
        };
        if *offset + 6 > BUF_SIZE {
            det.mbp_data.set(c_buy, row);
            return None;
        }
        row.buy_ytm = if c_buy == 0 {
            decompress_field(det.ltq, buf, offset)
        } else {
            let prev = det.mbp_data[c_buy - 1];
            decompress_field(prev.buy_ytm, buf, offset)
        };
        if *offset + 6 > BUF_SIZE {
            det.mbp_data.set(c_buy, row);
            return None;
        }
        row.buy_ytp = if c_buy == 0 {
            decompress_field(det.ltq, buf, offset)
        } else {
            let prev = det.mbp_data[c_buy - 1];
            decompress_field(prev.buy_ytp, buf, offset)
        };
        if *offset + 6 > BUF_SIZE {
            det.mbp_data.set(c_buy, row);
            return None;
        }
        row.buy_ytc = if c_buy == 0 {
            decompress_field(det.ltq, buf, offset)
        } else {
            let prev = det.mbp_data[c_buy - 1];
            decompress_field(prev.buy_ytc, buf, offset)
        };
        if *offset + 6 > BUF_SIZE {
            det.mbp_data.set(c_buy, row);
            return None;
        }
        row.no_of_bid_at_price_point = if c_buy == 0 {
            decompress_field(det.ltq, buf, offset)
        } else {
            let prev = det.mbp_data[c_buy - 1];
            decompress_field(prev.no_of_bid_at_price_point, buf, offset)
        };
        if *offset + 6 > BUF_SIZE {
            det.mbp_data.set(c_buy, row);
            return None;
        }
        row.filler1 = if c_buy == 0 {
            decompress_field(det.ltq, buf, offset)
        } else {
            let prev = det.mbp_data[c_buy - 1];
            decompress_field(prev.filler1, buf, offset)
        };
        det.mbp_data.set(c_buy, row);
        c_buy = c_buy + 1;
    }

    let mut sell_count: usize = 0;
    let mut c_sell: usize = 0;
    while c_sell < points
        invariant
            c_sell <= points,
            points <= MAX_BSE_MBP_DATA_IDX,
            det.mbp_data@.len() == MAX_BSE_MBP_DATA_IDX,
            forall|k: int| 0 <= k < det.mbp_data@.len() ==> (#[trigger] det.mbp_data@[k]).wf(),
            sell_count <= points,
            *offset <= BUF_SIZE,
            buf@.len() == BUF_SIZE,
            det == (BcastDebtMBPDetails { mbp_data: det.mbp_data, ..det_pre }),
        ensures
            sell_count <= points,
            det.mbp_data@.len() == MAX_BSE_MBP_DATA_IDX,
            forall|k: int| 0 <= k < det.mbp_data@.len() ==> (#[trigger] det.mbp_data@[k]).wf(),
            *offset <= BUF_SIZE,
            det == (BcastDebtMBPDetails { mbp_data: det.mbp_data, ..det_pre }),
        decreases points - c_sell,
    {
        sell_count = c_sell + 1;
        let mut row = det.mbp_data[c_sell];
        if *offset + 6 > BUF_SIZE {
            det.mbp_data.set(c_sell, row);
            return None;
        }
        row.best_offer_rate = if c_sell == 0 {
            decompress_field(det.ltp, buf, offset)
        } else {
            let prev = det.mbp_data[c_sell - 1];
            decompress_field(prev.best_offer_rate, buf, offset)
        };
        if row.best_offer_rate == BEST_OFFER_VALUE as i32 {
            row.best_offer_rate = 0;
            det.mbp_data.set(c_sell, row);
            break ;
        }
        if *offset + 6 > BUF_SIZE {
            det.mbp_data.set(c_sell, row);
            return None;
        }
        row.total_offer_qty = if c_sell == 0 {
            decompress_field(det.ltq, buf, offset)
        } else {
            let prev = det.mbp_data[c_sell - 1];
            decompress_field(prev.total_offer_qty, buf, offset)
        };
        if *offset + 6 > BUF_SIZE {
            det.mbp_data.set(c_sell, row);
            return None;
        }
        row.sell_ytm = if c_sell == 0 {
            decompress_field(det.ltq, buf, offset)
        } else {
            let prev = det.mbp_data[c_sell - 1];
            decompress_field(prev.sell_ytm, buf, offset)
        };
        if *offset + 6 > BUF_SIZE {
            det.mbp_data.set(c_sell, row);
            return None;
        }
        row.sell_ytp = if c_sell == 0 {
            decompress_field(det.ltq, buf, offset)
        } else {
            let prev = det.mbp_data[c_sell - 1];
            decompress_field(prev.sell_ytp, buf, offset)
        };
        if *offset + 6 > BUF_SIZE {
            det.mbp_data.set(c_sell, row);
            return None;
        }
        row.sell_ytc = if c_sell == 0 {
            decompress_field(det.ltq, buf, offset)
        } else {
            let prev = det.mbp_data[c_sell - 1];
            decompress_field(prev.sell_ytc, buf, offset)
        };
        if *offset + 6 > BUF_SIZE {
            det.mbp_data.set(c_sell, row);
            return None;
        }
        row.no_of_offer_at_price_point = if c_sell == 0 {
            decompress_field(det.ltq, buf, offset)
        } else {
            let prev = det.mbp_data[c_sell - 1];
            decompress_field(prev.no_of_offer_at_price_point, buf, offset)
        };
        if *offset + 6 > BUF_SIZE {
            det.mbp_data.set(c_sell, row);
            return None;
        }
        row.filler2 = if c_sell == 0 {
            decompress_field(det.ltq, buf, offset)
        } else {
            let prev = det.mbp_data[c_sell - 1];
            decompress_field(prev.filler2, buf, offset)
        };
        det.mbp_data.set(c_sell, row);
        c_sell = c_sell + 1;
    }

    Some((det, buy_count, sell_count))
}


fn empty_debt_data() -> (r: BcastDebtMBPData)
    ensures
        r.wf(),
{
    BcastDebtMBPData {
        best_bid_rate: 0,
        total_bid_qty: 0,
        buy_ytm: 0,
        buy_ytp: 0,
        buy_ytc: 0,
        no_of_bid_at_price_point: 0,
        filler1: 0,
        best_offer_rate: 0,
        total_offer_qty: 0,
        sell_ytm: 0,
        sell_ytp: 0,
        sell_ytc: 0,
        no_of_offer_at_price_point: 0,
        filler2: 0,
    }
}

fn empty_debt_data_vec() -> (r: Vec<BcastDebtMBPData>)
    ensures
        r@.len() == MAX_BSE_MBP_DATA_IDX,
        forall|k: int| 0 <= k < r@.len() ==> (#[trigger] r@[k]).wf(),
{
    let mut v: Vec<BcastDebtMBPData> = Vec::new();
    let mut i: usize = 0;
    while i < MAX_BSE_MBP_DATA_IDX
        invariant
            i <= MAX_BSE_MBP_DATA_IDX,
            v@.len() == i,
            forall|k: int| 0 <= k < v@.len() ==> (#[trigger] v@[k]).wf(),
        decreases MAX_BSE_MBP_DATA_IDX - i,
    {
        v.push(empty_debt_data());
        i = i + 1;
    }
    v
}

/// The common 28-byte picture header, pinned to its wire bytes.
pub open spec fn spec_bse_picture_header(
    s: Seq<u8>,
    message_type: int,
    hour: int,
    minute: int,
    econd: int,
    milli_second: int,
    no_of_records: int,
) -> bool {
    &&& message_type == to_signed(be_bytes(s, 0, 4), 4)
    &&& hour == to_signed(be_bytes(s, 14, 2), 2)
    &&& minute == to_signed(be_bytes(s, 16, 2), 2)
    &&& econd == to_signed(be_bytes(s, 18, 2), 2)
    &&& milli_second == to_signed(be_bytes(s, 20, 2), 2)
    &&& no_of_records == to_signed(be_bytes(s, 26, 2), 2)
}

/// Record count a compressed BSE picture advertises.
pub open spec fn spec_bse_record_count(s: Seq<u8>) -> int {
    to_signed(be_bytes(s, 26, 2), 2)
}

fn empty_mbp_details() -> (r: BcastMBPDetails)
    ensures
        r.wf(),
{
    let mut z1: Vec<u8> = Vec::new();
    z1.push(0u8);
    let mut z3: Vec<u8> = Vec::new();
    z3.push(0u8);
    z3.push(0u8);
    z3.push(0u8);
    let mut z2: Vec<u8> = Vec::new();
    z2.push(0u8);
    z2.push(0u8);
    BcastMBPDetails {
        instrument: 0,
        no_of_trades: 0,
        traded_volume: 0,
        traded_value: 0,
        trade_value_flag: 0,
        reserved6: 0,
        reserved7: 0,
        reserved8: z1,
        market_type: 0,
        ession_number: 0,
        ltp_hour: 0,
        ltp_minute: 0,
        ltp_second: 0,
        ltp_milli_second: z3,
        reserved9: z2,
        reserved10: 0,
        no_of_price_points: 0,
        timestamp: 0,
        close_rate: 0,
        ltq: 0,
        ltp: 0,
        open_rate: 0,
        prev_close_rate: 0,
        high_rate: 0,
        low_rate: 0,
        block_deal_ref_rate: 0,
        indicative_equilibrium_price: 0,
        indicative_equilibrium_qty: 0,
        total_bid_qty: 0,
        total_offer_qty: 0,
        lower_price_band: 0,
        upper_price_band: 0,
        weighted_avg_price: 0,
        mbp_data: empty_mbp_data_vec(),
    }
}

fn empty_complex_details() -> (r: BcastComplexMBPDetails)
    ensures
        r.wf(),
{
    let mut z1: Vec<u8> = Vec::new();
    z1.push(0u8);
    let mut z3: Vec<u8> = Vec::new();
    z3.push(0u8);
    z3.push(0u8);
    z3.push(0u8);
    let mut z2: Vec<u8> = Vec::new();
    z2.push(0u8);
    z2.push(0u8);
    BcastComplexMBPDetails {
        contract_code: 0,
        no_of_trades: 0,
        traded_volume: 0,
        traded_value: 0,
        trade_value_flag: 0,
        reserved6: 0,
        reserved7: 0,
        reserved8: z1,
        market_type: 0,
        ession_number: 0,
        ltp_hour: 0,
        ltp_minute: 0,
        ltp_second: 0,
        ltp_milli_second: z3,
        reserved9: z2,
        reserved10: 0,
        no_of_price_points: 0,
        timestamp: 0,
        close_rate: 0,
        ltq: 0,
        ltp: 0,
        open_rate: 0,
        prev_close_rate: 0,
        high_rate: 0,
        low_rate: 0,
        block_deal_ref_rate: 0,
        indicative_equilibrium_price: 0,
        indicative_equilibrium_qty: 0,
        total_bid_qty: 0,
        total_offer_qty: 0,
        lower_price_band: 0,
        upper_price_band: 0,
        weighted_avg_price: 0,
        mbp_data: empty_mbp_data_vec(),
    }
}

fn empty_debt_details() -> (r: BcastDebtMBPDetails)
    ensures
        r.wf(),
{
    let mut z1: Vec<u8> = Vec::new();
    z1.push(0u8);
    let mut z3: Vec<u8> = Vec::new();
    z3.push(0u8);
    z3.push(0u8);
    z3.push(0u8);
    let mut z2: Vec<u8> = Vec::new();
    z2.push(0u8);
    z2.push(0u8);
    BcastDebtMBPDetails {
        instrument: 0,
        no_of_trades: 0,
        traded_volume: 0,
        traded_value: 0,
        trade_value_flag: 0,
        reserved6: 0,
        reserved7: 0,
        reserved8: z1,
        market_type: 0,
        ession_number: 0,
        ltp_hour: 0,
        ltp_minute: 0,
        ltp_second: 0,
        ltp_milli_second: z3,
        reserved9: z2,
        reserved10: 0,
        no_of_price_points: 0,
        timestamp: 0,
        close_rate: 0,
        ytm: 0,
        ytp: 0,
        ytc: 0,
        ltq: 0,
        ltp: 0,
        open_rate: 0,
        prev_close_rate: 0,
        high_rate: 0,
        low_rate: 0,
        reserved11: 0,
        indicative_equilibrium_price: 0,
        indicative_equilibrium_qty: 0,
        total_bid_qty: 0,
        total_offer_qty: 0,
        lower_price_band: 0,
        upper_price_band: 0,
        weighted_avg_price: 0,
        mbp_data: empty_debt_data_vec(),
    }
}

/// Decompresses a mbp market picture.  The header and every record's
/// fixed prefix are pinned to their wire bytes; a record set that would
/// run past the buffer or advertises impossible counts yields `None`.
pub fn decompress_bcast_mbp(packet: &Packet) -> (r: Option<(BcastMarketPicture, usize, usize)>)
    requires
        packet.wf(),
    ensures
        spec_bse_record_count(packet.data@) == 0 ==> r is Some,
        r matches Some(t) ==> ({
            let mp = t.0;
            &&& mp.wf()
            &&& spec_bse_picture_header(
                packet.data@,
                mp.message_type as int,
                mp.hour as int,
                mp.minute as int,
                mp.econd as int,
                mp.milli_second as int,
                mp.no_of_records as int,
            )
            &&& 0 <= mp.no_of_records <= MAX_BSE_MBP_DEATIL_IDX
            &&& t.1 <= MAX_BSE_MBP_DATA_IDX
            &&& t.2 <= MAX_BSE_MBP_DATA_IDX
        }),
{
    let d = packet.data.as_slice();
    let message_type = read_i32_be(d, 0);
    let reserved1 = read_i32_be(d, 4);
    let reserved2 = read_i32_be(d, 8);
    let reserved3 = read_u16_be(d, 12);
    let hour = read_i16_be(d, 14);
    let minute = read_i16_be(d, 16);
    let econd = read_i16_be(d, 18);
    let milli_second = read_i16_be(d, 20);
    let reserved4 = read_i16_be(d, 22);
    let reserved5 = read_i16_be(d, 24);
    let no_of_records = read_i16_be(d, 26);

    if no_of_records < 0 || no_of_records > MAX_BSE_MBP_DEATIL_IDX as i16 {
        return None;
    }
    let nrec: usize = no_of_records as usize;

    let mut offset: usize = MBP_UNCOMPRESSED_HEADER_LEN;
    let mut dets: Vec<BcastMBPDetails> = Vec::new();
    let mut buy_count: usize = 0;
    let mut sell_count: usize = 0;
    let mut i: usize = 0;
    while i < nrec
        invariant
            i <= nrec,
            nrec as int == spec_bse_record_count(packet.data@),
            nrec <= MAX_BSE_MBP_DEATIL_IDX,
            offset <= BUF_SIZE,
            d@.len() == BUF_SIZE,
            d@ == packet.data@,
            dets@.len() == i,
            buy_count <= MAX_BSE_MBP_DATA_IDX,
            sell_count <= MAX_BSE_MBP_DATA_IDX,
            forall|k: int| 0 <= k < dets@.len() ==> (#[trigger] dets@[k]).wf(),
        decreases nrec - i,
    {
        let one = decode_mbp_details(d, &mut offset);
        match one {
            Some(t) => {
                dets.push(t.0);
                buy_count = t.1;
                sell_count = t.2;
            },
            None => {
                return None;
            },
        }
        i = i + 1;
    }
    while dets.len() < MAX_BSE_MBP_DEATIL_IDX
        invariant
            dets@.len() <= MAX_BSE_MBP_DEATIL_IDX,
            forall|k: int| 0 <= k < dets@.len() ==> (#[trigger] dets@[k]).wf(),
        decreases MAX_BSE_MBP_DEATIL_IDX - dets@.len(),
    {
        dets.push(empty_mbp_details());
    }

    let mp = BcastMarketPicture {
        message_type,
        reserved1,
        reserved2,
        reserved3,
        hour,
        minute,
        econd,
        milli_second,
        reserved4,
        reserved5,
        no_of_records,
        mbp_details: dets,
    };
    Some((mp, buy_count, sell_count))
}

/// Decompresses a mbp_complex_list market picture.  The header and every record's
/// fixed prefix are pinned to their wire bytes; a record set that would
/// run past the buffer or advertises impossible counts yields `None`.
pub fn decompress_bcast_mbp_complex_list(packet: &Packet) -> (r: Option<(BcastComplexMarketPicture)>)
    requires
        packet.wf(),
    ensures
        spec_bse_record_count(packet.data@) == 0 ==> r is Some,
        r matches Some(t) ==> ({
            let mp = t;
            &&& mp.wf()
            &&& spec_bse_picture_header(
                packet.data@,
                mp.message_type as int,
                mp.hour as int,
                mp.minute as int,
                mp.econd as int,
                mp.milli_second as int,
                mp.no_of_records as int,
            )
            &&& 0 <= mp.no_of_records <= MAX_BSE_MBP_DEATIL_IDX
            
        }),
{
    let d = packet.data.as_slice();
    let message_type = read_i32_be(d, 0);
    let reserved1 = read_i32_be(d, 4);
    let reserved2 = read_i32_be(d, 8);
    let reserved3 = read_u16_be(d, 12);
    let hour = read_i16_be(d, 14);
    let minute = read_i16_be(d, 16);
    let econd = read_i16_be(d, 18);
    let milli_second = read_i16_be(d, 20);
    let reserved4 = read_i16_be(d, 22);
    let reserved5 = read_i16_be(d, 24);
    let no_of_records = read_i16_be(d, 26);

    if no_of_records < 0 || no_of_records > MAX_BSE_MBP_DEATIL_IDX as i16 {
        return None;
    }
    let nrec: usize = no_of_records as usize;

    let mut offset: usize = MBP_UNCOMPRESSED_HEADER_LEN;
    let mut dets: Vec<BcastComplexMBPDetails> = Vec::new();
    let mut buy_count: usize = 0;
    let mut sell_count: usize = 0;
    let mut i: usize = 0;
    while i < nrec
        invariant
            i <= nrec,
            nrec as int == spec_bse_record_count(packet.data@),
            nrec <= MAX_BSE_MBP_DEATIL_IDX,
            offset <= BUF_SIZE,
            d@.len() == BUF_SIZE,
            d@ == packet.data@,
            dets@.len() == i,
            buy_count <= MAX_BSE_MBP_DATA_IDX,
            sell_count <= MAX_BSE_MBP_DATA_IDX,
            forall|k: int| 0 <= k < dets@.len() ==> (#[trigger] dets@[k]).wf(),
        decreases nrec - i,
    {
        let one = decode_complex_details(d, &mut offset);
        match one {
            Some(t) => {
                dets.push(t.0);
                buy_count = t.1;
                sell_count = t.2;
            },
            None => {
                return None;
            },
        }
        i = i + 1;
    }
    while dets.len() < MAX_BSE_MBP_DEATIL_IDX
        invariant
            dets@.len() <= MAX_BSE_MBP_DEATIL_IDX,
            forall|k: int| 0 <= k < dets@.len() ==> (#[trigger] dets@[k]).wf(),
        decreases MAX_BSE_MBP_DEATIL_IDX - dets@.len(),
    {
        dets.push(empty_complex_details());
    }

    let mp = BcastComplexMarketPicture {
        message_type,
        reserved1,
        reserved2,
        reserved3,
        hour,
        minute,
        econd,
        milli_second,
        reserved4,
        reserved5,
        no_of_records,
        mbp_details: dets,
    };
    Some(mp)
}

/// Decompresses a debt_mbp market picture.  The header and every record's
/// fixed prefix are pinned to their wire bytes; a record set that would
/// run past the buffer or advertises impossible counts yields `None`.
pub fn decompress_bcast_debt_mbp(packet: &Packet) -> (r: Option<(BcastDebtMarketPicture)>)
    requires
        packet.wf(),
    ensures
        spec_bse_record_count(packet.data@) == 0 ==> r is Some,
        r matches Some(t) ==> ({
            let mp = t;
            &&& mp.wf()
            &&& spec_bse_picture_header(
                packet.data@,
                mp.message_type as int,
                mp.hour as int,
                mp.minute as int,
                mp.econd as int,
                mp.milli_second as int,
                mp.no_of_records as int,
            )
            &&& 0 <= mp.no_of_records <= MAX_BSE_MBP_DEATIL_IDX
            
        }),
{
    let d = packet.data.as_slice();
    let message_type = read_i32_be(d, 0);
    let reserved1 = read_i32_be(d, 4);
    let reserved2 = read_i32_be(d, 8);
    let reserved3 = read_u16_be(d, 12);
    let hour = read_i16_be(d, 14);
    let minute = read_i16_be(d, 16);
    let econd = read_i16_be(d, 18);
    let milli_second = read_i16_be(d, 20);
    let reserved4 = read_i16_be(d, 22);
    let reserved5 = read_i16_be(d, 24);
    let no_of_records = read_i16_be(d, 26);

    if no_of_records < 0 || no_of_records > MAX_BSE_MBP_DEATIL_IDX as i16 {
        return None;
    }
    let nrec: usize = no_of_records as usize;

    let mut offset: usize = MBP_UNCOMPRESSED_HEADER_LEN;
    let mut dets: Vec<BcastDebtMBPDetails> = Vec::new();
    let mut buy_count: usize = 0;
    let mut sell_count: usize = 0;
    let mut i: usize = 0;
    while i < nrec
        invariant
            i <= nrec,
            nrec as int == spec_bse_record_count(packet.data@),
            nrec <= MAX_BSE_MBP_DEATIL_IDX,
            offset <= BUF_SIZE,
            d@.len() == BUF_SIZE,
            d@ == packet.data@,
            dets@.len() == i,
            buy_count <= MAX_BSE_MBP_DATA_IDX,
            sell_count <= MAX_BSE_MBP_DATA_IDX,
            forall|k: int| 0 <= k < dets@.len() ==> (#[trigger] dets@[k]).wf(),
        decreases nrec - i,
    {
        let one = decode_debt_details(d, &mut offset);
        match one {
            Some(t) => {
                dets.push(t.0);
                buy_count = t.1;
                sell_count = t.2;
            },
            None => {
                return None;
            },
        }
        i = i + 1;
    }
    while dets.len() < MAX_BSE_MBP_DEATIL_IDX
        invariant
            dets@.len() <= MAX_BSE_MBP_DEATIL_IDX,
            forall|k: int| 0 <= k < dets@.len() ==> (#[trigger] dets@[k]).wf(),
        decreases MAX_BSE_MBP_DEATIL_IDX - dets@.len(),
    {
        dets.push(empty_debt_details());
    }

    let mp = BcastDebtMarketPicture {
        message_type,
        reserved1,
        reserved2,
        reserved3,
        hour,
        minute,
        econd,
        milli_second,
        reserved4,
        reserved5,
        no_of_records,
        mbp_details: dets,
    };
    Some(mp)
}


/// Builds the normalized market picture for one record of a decompressed
/// BSE picture: summary fields come from that record, and the depth rows
/// are the decoded bid points followed by the decoded offer points.
#[verifier::rlimit(100)]
pub fn bcast_mbp_to_market_picture(
    bcast_mbp: &BcastMarketPicture,
    record_idx: usize,
    buy_count: usize,
    sell_count: usize,
    now_us: u64,
) -> (r: TagMarketPictureBroadcast)
    requires
        bcast_mbp.wf(),
        record_idx < MAX_BSE_MBP_DEATIL_IDX,
        buy_count <= MAX_BSE_MBP_DATA_IDX,
        sell_count <= MAX_BSE_MBP_DATA_IDX,
    ensures
        r.wf(),
        ({
            let det = bcast_mbp.mbp_details@[record_idx as int];
            &&& r.msg_header.message_code == BSE_BCAST_MBP
            &&& r.msg_header.transaction_type == 0
            &&& r.msg_header.log_time == 0
            &&& r.msg_header.trader_id == 0
            &&& r.msg_header.error_code == 0
            &&& r.msg_header.timestamp == now_us
            &&& r.msg_header.message_length == 0
            &&& r.token == det.instrument as i64
            &&& r.total_buy_qty == det.total_bid_qty as i64
            &&& r.total_sell_qty == det.total_offer_qty as i64
            &&& r.volume_traded_today == det.traded_volume as i64
            &&& r.open_price == det.open_rate
            &&& r.close_price == det.close_rate
            &&& r.high_price == det.high_rate
            &&& r.low_price == det.low_rate
            &&& r.ltp == det.ltp
            &&& r.ltq == det.ltq
            &&& r.ltt == 0
            &&& r.atp == det.weighted_avg_price
            &&& r.indicative_close_price == 0
            &&& r.lut == det.timestamp
            &&& r.buy_depth_count == buy_count as i32
            &&& r.sell_depth_count == sell_count as i32
            &&& r.trading_status == det.ession_number
            &&& r.market_depth_info@.len() == MAX_MARKET_DEPTH_IDX
            &&& forall|i: int|
                0 <= i < buy_count ==> (#[trigger] r.market_depth_info@[i]).qty
                    == det.mbp_data@[i].no_of_bid_at_price_point as i64
                    && r.market_depth_info@[i].price == det.mbp_data@[i].best_bid_rate
                    && r.market_depth_info@[i].number_of_orders as int == spec_trunc_i16(
                    det.mbp_data@[i].no_of_bid_at_price_point as int,
                )
            &&& forall|i: int|
                0 <= i < sell_count ==> (#[trigger] r.market_depth_info@[buy_count + i]).qty
                    == det.mbp_data@[i].no_of_offer_at_price_point as i64
                    && r.market_depth_info@[buy_count + i].price
                    == det.mbp_data@[i].best_offer_rate
                    && r.market_depth_info@[buy_count + i].number_of_orders as int
                    == spec_trunc_i16(det.mbp_data@[i].no_of_offer_at_price_point as int)
            &&& forall|i: int|
                buy_count + sell_count <= i < MAX_MARKET_DEPTH_IDX ==> (
                #[trigger] r.market_depth_info@[i]).qty == 0 && r.market_depth_info@[i].price == 0
                    && r.market_depth_info@[i].number_of_orders == 0
        }),
{
    let det = &bcast_mbp.mbp_details[record_idx];

    let mut alpha_char: Vec<u8> = Vec::new();
    alpha_char.push(0u8);
    alpha_char.push(0u8);
    let mut ts1: Vec<u8> = Vec::new();
    let mut i: usize = 0;
    while i < 8
        invariant
            i <= 8,
            ts1@.len() == i,
        decreases 8 - i,
    {
        ts1.push(0u8);
        i = i + 1;
    }
    let ts2 = crate::bytesio::read_bytes(ts1.as_slice(), 0, 8);

    let msg_header = TagMessageHeader {
        message_code: BSE_BCAST_MBP,
        transaction_type: 0,
        log_time: 0,
        alpha_char,
        trader_id: 0,
        error_code: 0,
        timestamp: now_us,
        timestamp1: ts1,
        timestamp2: ts2,
        message_length: 0,
    };

    let mut mdi: Vec<TagMarketDepthInfo> = Vec::new();
    let mut b: usize = 0;
    while b < buy_count
        invariant
            b <= buy_count,
            buy_count <= MAX_BSE_MBP_DATA_IDX,
            det.mbp_data@.len() == MAX_BSE_MBP_DATA_IDX,
            mdi@.len() == b,
            forall|i: int|
                0 <= i < b ==> (#[trigger] mdi@[i]).qty == det.mbp_data@[i].no_of_bid_at_price_point
                    as i64 && mdi@[i].price == det.mbp_data@[i].best_bid_rate
                    && mdi@[i].number_of_orders as int == spec_trunc_i16(
                    det.mbp_data@[i].no_of_bid_at_price_point as int,
                ),
        decreases buy_count - b,
    {
        let p = det.mbp_data[b];
        mdi.push(
            TagMarketDepthInfo {
                qty: p.no_of_bid_at_price_point as i64,
                price: p.best_bid_rate,
                number_of_orders: i32_to_i16_trunc(p.no_of_bid_at_price_point),
            },
        );
        b = b + 1;
    }
    let mut s: usize = 0;
    while s < sell_count
        invariant
            s <= sell_count,
            sell_count <= MAX_BSE_MBP_DATA_IDX,
            buy_count <= MAX_BSE_MBP_DATA_IDX,
            det.mbp_data@.len() == MAX_BSE_MBP_DATA_IDX,
            mdi@.len() == buy_count + s,
            forall|i: int|
                0 <= i < buy_count ==> (#[trigger] mdi@[i]).qty
                    == det.mbp_data@[i].no_of_bid_at_price_point as i64 && mdi@[i].price
                    == det.mbp_data@[i].best_bid_rate && mdi@[i].number_of_orders as int
                    == spec_trunc_i16(det.mbp_data@[i].no_of_bid_at_price_point as int),
            forall|i: int|
                0 <= i < s ==> (#[trigger] mdi@[buy_count + i]).qty
                    == det.mbp_data@[i].no_of_offer_at_price_point as i64 && mdi@[buy_count
                    + i].price == det.mbp_data@[i].best_offer_rate && mdi@[buy_count
                    + i].number_of_orders as int == spec_trunc_i16(
                    det.mbp_data@[i].no_of_offer_at_price_point as int,
                ),
        decreases sell_count - s,
    {
        let p = det.mbp_data[s];
        mdi.push(
            TagMarketDepthInfo {
                qty: p.no_of_offer_at_price_point as i64,
                price: p.best_offer_rate,
                number_of_orders: i32_to_i16_trunc(p.no_of_offer_at_price_point),
            },
        );
        s = s + 1;
    }
    let filled = mdi.len();
    let ghost mdi0 = mdi@;
    let mut z: usize = filled;
    while z < MAX_MARKET_DEPTH_IDX
        invariant
            filled <= z <= MAX_MARKET_DEPTH_IDX,
            mdi@.len() == z,
            mdi0.len() == filled,
            forall|i: int| 0 <= i < filled ==> #[trigger] mdi@[i] == mdi0[i],
            forall|i: int|
                filled <= i < z ==> (#[trigger] mdi@[i]).qty == 0 && mdi@[i].price == 0
                    && mdi@[i].number_of_orders == 0,
        decreases MAX_MARKET_DEPTH_IDX - z,
    {
        mdi.push(TagMarketDepthInfo { qty: 0, price: 0, number_of_orders: 0 });
        z = z + 1;
    }

    TagMarketPictureBroadcast {
        msg_header,
        token: det.instrument as i64,
        total_buy_qty: det.total_bid_qty as i64,
        total_sell_qty: det.total_offer_qty as i64,
        volume_traded_today: det.traded_volume as i64,
        open_price: det.open_rate,
        close_price: det.close_rate,
        high_price: det.high_rate,
        low_price: det.low_rate,
        ltp: det.ltp,
        ltq: det.ltq,
        ltt: 0,
        atp: det.weighted_avg_price,
        indicative_close_price: 0,
        lut: det.timestamp,
        buy_depth_count: buy_count as i32,
        sell_depth_count: sell_count as i32,
        trading_status: det.ession_number,
        market_depth_info: mdi,
    }
}


/// Serializes a finished picture into a fresh output packet; the record is
/// longer than the buffer, so the packet holds its leading bytes, and the
/// valid length is carried over from the packet being processed.
fn picture_to_packet(pic: &TagMarketPictureBroadcast, len: usize) -> (r: Packet)
    requires
        pic.wf(),
        len <= BUF_SIZE,
    ensures
        r.wf(),
        r.len == len,
        r.data@ == Seq::new(
            BUF_SIZE as nat,
            |k: int|
                if k < pic.spec_ser().len() {
                    pic.spec_ser()[k]
                } else {
                    0u8
                },
        ),
{
    let bytes = pic.to_bytes_vec();
    let mut p = Packet::from_bytes(bytes.as_slice());
    p.len = len;
    p
}

/// Transaction code in the first four bytes of a BSE packet.
pub open spec fn spec_bse_trans_code(s: Seq<u8>) -> int {
    to_signed(be_bytes(s, 0, 4), 4)
}

pub open spec fn spec_bse_compressed_code(s: Seq<u8>) -> bool {
    spec_bse_trans_code(s) == BSE_BCAST_MBP || spec_bse_trans_code(s) == BSE_BCAST_COMPLEX
        || spec_bse_trans_code(s) == BSE_BCAST_DEBT
}

/// Processes one compressed BSE packet: decompresses it and appends one
/// output packet per advertised record.  For the plain picture the output is
/// the normalized market picture of that record; for the complex and debt
/// pictures it is the decompressed record set serialized with the record
/// index in the count field, as downstream consumers of those records
/// expect.  A packet whose scan fails is dropped whole.
pub fn process_bse_compressed(packet: &mut Packet, out: &mut Vec<Packet>, now_us: u64) -> (ok:
    bool)
    requires
        old(packet).wf(),
    ensures
        *final(packet) == *old(packet),
        final(out)@.len() >= old(out)@.len(),
        forall|i: int| 0 <= i < old(out)@.len() ==> final(out)@[i] == old(out)@[i],
        forall|i: int|
            old(out)@.len() <= i < final(out)@.len() ==> (#[trigger] final(out)@[i]).wf(),
        !spec_bse_compressed_code(old(packet).data@) ==> !ok,
        !ok ==> final(out)@ == old(out)@,
        ok ==> final(out)@.len() == old(out)@.len() + spec_bse_record_count(old(packet).data@),
        spec_bse_compressed_code(old(packet).data@) && spec_bse_record_count(old(packet).data@)
            == 0 ==> ok,
{
    let trans_code = read_i32_be(packet.data.as_slice(), 0);

    if trans_code == BSE_BCAST_MBP {
        let decoded = decompress_bcast_mbp(packet);
        match decoded {
            Some((mp, buy_count, sell_count)) => {
                let nrec: usize = mp.no_of_records as usize;
                let mut i: usize = 0;
                while i < nrec
                    invariant
                        i <= nrec,
                        nrec <= MAX_BSE_MBP_DEATIL_IDX,
                        buy_count <= MAX_BSE_MBP_DATA_IDX,
                        sell_count <= MAX_BSE_MBP_DATA_IDX,
                        mp.wf(),
                        packet.wf(),
                        *packet == *old(packet),
                        out@.len() == old(out)@.len() + i,
                        forall|j: int| 0 <= j < old(out)@.len() ==> out@[j] == old(out)@[j],
                        forall|j: int|
                            old(out)@.len() <= j < out@.len() ==> (#[trigger] out@[j]).wf(),
                    decreases nrec - i,
                {
                    let pic = bcast_mbp_to_market_picture(&mp, i, buy_count, sell_count, now_us);
                    let p = picture_to_packet(&pic, packet.len);
                    out.push(p);
                    i = i + 1;
                }
                true
            },
            None => false,
        }
    } else if trans_code == BSE_BCAST_COMPLEX {
        let decoded = decompress_bcast_mbp_complex_list(packet);
        match decoded {
            Some(mp) => {
                let nrec: usize = mp.no_of_records as usize;
                let bytes = mp.to_bytes_vec();
                proof {
                    mp.lemma_ser_len();
                }
                let mut i: usize = 0;
                while i < nrec
                    invariant
                        i <= nrec,
                        nrec <= MAX_BSE_MBP_DEATIL_IDX,
                        packet.wf(),
                        *packet == *old(packet),
                        bytes@.len() == crate::bse::BCAST_COMPLEX_MARKET_PICTURE_SIZE,
                        out@.len() == old(out)@.len() + i,
                        forall|j: int| 0 <= j < old(out)@.len() ==> out@[j] == old(out)@[j],
                        forall|j: int|
                            old(out)@.len() <= j < out@.len() ==> (#[trigger] out@[j]).wf(),
                    decreases nrec - i,
                {
                    let mut rec = crate::bytesio::read_bytes(bytes.as_slice(), 0, bytes.len());
                    crate::bytesio::write_i16_le(&mut rec, 26, i as i16);
                    let mut p = Packet::from_bytes(rec.as_slice());
                    p.len = packet.len;
                    out.push(p);
                    i = i + 1;
                }
                true
            },
            None => false,
        }
    } else if trans_code == BSE_BCAST_DEBT {
        let decoded = decompress_bcast_debt_mbp(packet);
        match decoded {
            Some(mp) => {
                let nrec: usize = mp.no_of_records as usize;
                let bytes = mp.to_bytes_vec();
                proof {
                    mp.lemma_ser_len();
                }
                let mut i: usize = 0;
                while i < nrec
                    invariant
                        i <= nrec,
                        nrec <= MAX_BSE_MBP_DEATIL_IDX,
                        packet.wf(),
                        *packet == *old(packet),
                        bytes@.len() == crate::bse::BCAST_DEBT_MARKET_PICTURE_SIZE,
                        out@.len() == old(out)@.len() + i,
                        forall|j: int| 0 <= j < old(out)@.len() ==> out@[j] == old(out)@[j],
                        forall|j: int|
                            old(out)@.len() <= j < out@.len() ==> (#[trigger] out@[j]).wf(),
                    decreases nrec - i,
                {
                    let mut rec = crate::bytesio::read_bytes(bytes.as_slice(), 0, bytes.len());
                    crate::bytesio::write_i16_le(&mut rec, 26, i as i16);
                    let mut p = Packet::from_bytes(rec.as_slice());
                    p.len = packet.len;
                    out.push(p);
                    i = i + 1;
                }
                true
            },
            None => false,
        }
    } else {
        false
    }
}

/// Processes one uncompressed BSE packet: decodes the record announced by
/// the leading transaction code, re-serializes it host-order over the
/// packet's buffer, and appends the packet to the output.  An unknown code
/// or a short packet is dropped.
pub fn process_bse_uncompressed(packet: &mut Packet, out: &mut Vec<Packet>) -> (ok: bool)
    requires
        old(packet).wf(),
    ensures
        final(packet).wf(),
        final(packet).len == old(packet).len,
        final(out)@.len() >= old(out)@.len(),
        forall|i: int| 0 <= i < old(out)@.len() ==> final(out)@[i] == old(out)@[i],
        ok <==> crate::bse::spec_bse_known(spec_trunc_i16(spec_bse_trans_code(old(packet).data@)) as i16)
            && old(packet).data@.len() >= crate::bse::spec_bse_size(
            spec_trunc_i16(spec_bse_trans_code(old(packet).data@)) as i16,
        ),
        ok ==> final(out)@.len() == old(out)@.len() + 1 && final(out)@[old(out)@.len() as int].wf()
            && final(out)@[old(out)@.len() as int].len == old(packet).len
            && final(out)@[old(out)@.len() as int].data@ == final(packet).data@,
        ok ==> exists|msg: BseBroadcastTransactionMapping|
            #[trigger] crate::bse::spec_bse_variant_ok(
                spec_trunc_i16(spec_bse_trans_code(old(packet).data@)) as i16,
                msg,
                old(packet).data@,
            ) && msg.wf() && (forall|j: int|
                0 <= j < BUF_SIZE && j < msg.spec_ser().len() ==> final(packet).data@[j]
                    == msg.spec_ser()[j]) && (forall|j: int|
                msg.spec_ser().len() <= j < BUF_SIZE ==> final(packet).data@[j] == old(
                    packet,
                ).data@[j]),
        !ok ==> *final(packet) == *old(packet) && final(out)@ == old(out)@,
{
    let trans32 = read_i32_be(packet.data.as_slice(), 0);
    let trans_code = i32_to_i16_trunc(trans32);

    let built = build_bse_struct(trans_code, packet.data.as_slice());
    match built {
        Some(msg) => {
            msg.to_bytes(&mut packet.data);
            let copy = packet.dup();
            out.push(copy);
            true
        },
        None => false,
    }
}

} // verus!
