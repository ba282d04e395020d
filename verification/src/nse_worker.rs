//! NSE depth-record processing: converting the decoded broadcast records
//! into the normalized market picture.
//!
//! The populated depth rows of a record are the leading positive-quantity
//! run of its bid half followed by the leading run of its offer half; the
//! serialized length grows by one fixed-size row per populated entry.

use vstd::prelude::*;

use crate::bytesio::{be_bytes, read_i32_be, to_signed};
use crate::constants::{
    BCAST_MBO_MBP, BCAST_ONLY_MBP, BCAST_ONLY_MBP_EQ, BUF_SIZE, MAX_BUY_SELL_DEPTH_IDX,
    MAX_MARKET_DEPTH_IDX, MAX_MBPINFO_IDX, MAX_MBP_DATA_IDX, NSE_HEADER_SIZE, SKIP_BYTES,
};
use crate::depth_output::{TagMarketDepthInfo, TagMarketPictureBroadcast, TagMessageHeader};
use crate::packet::Packet;
use crate::settings::Exchange;

verus! {

/// Serialized picture length with no depth rows.
pub const TAG_PICTURE_BASE_LEN: usize = 130;

/// Serialized length of one depth row.
pub const TAG_DEPTH_ROW_LEN: usize = 14;

/// Truncation of a wider value to the signed 32-bit range, as storing it in
/// a 32-bit record field does.
pub open spec fn spec_trunc_i32(v: int) -> int {
    let m = ((v % 0x1_0000_0000) + 0x1_0000_0000) % 0x1_0000_0000;
    to_signed(m, 4)
}

pub fn i64_to_i32_wrap_pub(v: i64) -> (r: i32)
    ensures
        r as int == spec_trunc_i32(v as int),
{
    proof {
        crate::bytesio::lemma_pow256_values();
    }
    let m: i64 = ((v % 0x1_0000_0000) + 0x1_0000_0000) % 0x1_0000_0000;
    if m >= 0x8000_0000 {
        ((m - 0x1_0000_0000) as i32)
    } else {
        m as i32
    }
}

/// Length of the run of rows with positive quantity starting at `i`, over
/// at most `m` rows.
pub open spec fn spec_nz_nfo(s: Seq<crate::nfo::BcastMBPInfo>, i: int, m: int) -> int
    decreases m,
{
    if m <= 0 || i < 0 || i >= s.len() || !(s[i].qty > 0) {
        0
    } else {
        1 + spec_nz_nfo(s, i + 1, m - 1)
    }
}

proof fn lemma_nz_nfo_char(s: Seq<crate::nfo::BcastMBPInfo>, start: int, m: int, c: int)
    requires
        0 <= c <= m,
        start >= 0,
        start + m <= s.len(),
        forall|i: int| start <= i < start + c ==> (#[trigger] s[i]).qty > 0,
        c < m ==> !(s[start + c].qty > 0),
    ensures
        spec_nz_nfo(s, start, m) == c,
    decreases c,
{
    if c > 0 {
        assert(s[start].qty > 0);
        lemma_nz_nfo_char(s, start + 1, m - 1, c - 1);
    }
}

pub proof fn lemma_nz_nfo_bound(s: Seq<crate::nfo::BcastMBPInfo>, i: int, m: int)
    ensures
        0 <= spec_nz_nfo(s, i, m) <= (if m >= 0 { m } else { 0 }),
    decreases m,
{
    if m > 0 && 0 <= i < s.len() && s[i].qty > 0 {
        lemma_nz_nfo_bound(s, i + 1, m - 1);
    }
}

/// Collects the populated depth rows of one record: the bid rows are the
/// leading positive-quantity run of the first half, the offer rows the
/// leading run of the second half; the rest of the output is zeroed.
fn collect_depth_rows_nfo(info: &Vec<crate::nfo::BcastMBPInfo>) -> (r: (Vec<TagMarketDepthInfo>, usize, usize))
    requires
        info@.len() == MAX_MBPINFO_IDX,
    ensures
        ({
            let bc = spec_nz_nfo(info@, 0, MAX_BUY_SELL_DEPTH_IDX as int);
            let sc = spec_nz_nfo(
                info@,
                MAX_BUY_SELL_DEPTH_IDX as int,
                MAX_BUY_SELL_DEPTH_IDX as int,
            );
            &&& r.1 == bc
            &&& r.2 == sc
            &&& r.1 <= MAX_BUY_SELL_DEPTH_IDX
            &&& r.2 <= MAX_BUY_SELL_DEPTH_IDX
            &&& r.0@.len() == MAX_MARKET_DEPTH_IDX
            &&& forall|i: int|
                0 <= i < bc ==> (#[trigger] r.0@[i]).qty == info@[i].qty as i64 && r.0@[i].price
                    == info@[i].price && r.0@[i].number_of_orders == info@[i].number_of_orders
            &&& forall|i: int|
                0 <= i < sc ==> (#[trigger] r.0@[bc + i]).qty == info@[MAX_BUY_SELL_DEPTH_IDX
                    + i].qty as i64 && r.0@[bc + i].price == info@[MAX_BUY_SELL_DEPTH_IDX
                    + i].price && r.0@[bc + i].number_of_orders == info@[MAX_BUY_SELL_DEPTH_IDX
                    + i].number_of_orders
            &&& forall|i: int|
                bc + sc <= i < MAX_MARKET_DEPTH_IDX ==> (#[trigger] r.0@[i]).qty == 0
                    && r.0@[i].price == 0 && r.0@[i].number_of_orders == 0
        }),
{
    let mut mdi: Vec<TagMarketDepthInfo> = Vec::new();
    let mut bc: usize = 0;
    loop
        invariant
            bc <= MAX_BUY_SELL_DEPTH_IDX,
            info@.len() == MAX_MBPINFO_IDX,
            mdi@.len() == bc,
            forall|i: int| 0 <= i < bc ==> (#[trigger] info@[i]).qty > 0,
            forall|i: int|
                0 <= i < bc ==> (#[trigger] mdi@[i]).qty == info@[i].qty as i64 && mdi@[i].price
                    == info@[i].price && mdi@[i].number_of_orders == info@[i].number_of_orders,
        ensures
            bc <= MAX_BUY_SELL_DEPTH_IDX,
            bc < MAX_BUY_SELL_DEPTH_IDX ==> !(info@[bc as int].qty > 0),
        decreases MAX_BUY_SELL_DEPTH_IDX - bc,
    {
        if bc >= MAX_BUY_SELL_DEPTH_IDX {
            break ;
        }
        let p = &info[bc];
        if !(p.qty > 0) {
            break ;
        }
        mdi.push(
            TagMarketDepthInfo {
                qty: p.qty as i64,
                price: p.price,
                number_of_orders: p.number_of_orders,
            },
        );
        bc = bc + 1;
    }
    proof {
        lemma_nz_nfo_char(info@, 0, MAX_BUY_SELL_DEPTH_IDX as int, bc as int);
    }

    let ghost mdi_b = mdi@;
    let mut sc: usize = 0;
    loop
        invariant
            sc <= MAX_BUY_SELL_DEPTH_IDX,
            bc <= MAX_BUY_SELL_DEPTH_IDX,
            info@.len() == MAX_MBPINFO_IDX,
            mdi@.len() == bc + sc,
            mdi_b.len() == bc,
            forall|i: int| 0 <= i < bc ==> #[trigger] mdi@[i] == mdi_b[i],
            forall|i: int|
                0 <= i < sc ==> (#[trigger] info@[MAX_BUY_SELL_DEPTH_IDX + i]).qty > 0,
            forall|i: int|
                0 <= i < sc ==> (#[trigger] mdi@[bc + i]).qty == info@[MAX_BUY_SELL_DEPTH_IDX
                    + i].qty as i64 && mdi@[bc + i].price == info@[MAX_BUY_SELL_DEPTH_IDX
                    + i].price && mdi@[bc + i].number_of_orders == info@[MAX_BUY_SELL_DEPTH_IDX
                    + i].number_of_orders,
        ensures
            sc <= MAX_BUY_SELL_DEPTH_IDX,
            sc < MAX_BUY_SELL_DEPTH_IDX ==> !(info@[MAX_BUY_SELL_DEPTH_IDX + sc].qty > 0),
            mdi@.len() == bc + sc,
            forall|i: int| 0 <= i < bc ==> #[trigger] mdi@[i] == mdi_b[i],
            forall|i: int|
                0 <= i < sc ==> (#[trigger] mdi@[bc + i]).qty == info@[MAX_BUY_SELL_DEPTH_IDX
                    + i].qty as i64 && mdi@[bc + i].price == info@[MAX_BUY_SELL_DEPTH_IDX
                    + i].price && mdi@[bc + i].number_of_orders == info@[MAX_BUY_SELL_DEPTH_IDX
                    + i].number_of_orders,
        decreases MAX_BUY_SELL_DEPTH_IDX - sc,
    {
        if sc >= MAX_BUY_SELL_DEPTH_IDX {
            break ;
        }
        let p = &info[MAX_BUY_SELL_DEPTH_IDX + sc];
        if !(p.qty > 0) {
            break ;
        }
        mdi.push(
            TagMarketDepthInfo {
                qty: p.qty as i64,
                price: p.price,
                number_of_orders: p.number_of_orders,
            },
        );
        sc = sc + 1;
    }
    proof {
        assert forall|i: int|
            MAX_BUY_SELL_DEPTH_IDX <= i < MAX_BUY_SELL_DEPTH_IDX + sc implies (
        #[trigger] info@[i]).qty > 0 by {
            assert(info@[MAX_BUY_SELL_DEPTH_IDX + (i - MAX_BUY_SELL_DEPTH_IDX)].qty > 0);
        }
        lemma_nz_nfo_char(
            info@,
            MAX_BUY_SELL_DEPTH_IDX as int,
            MAX_BUY_SELL_DEPTH_IDX as int,
            sc as int,
        );
    }

    let filled = mdi.len();
    let ghost mdi0 = mdi@;
    let mut z: usize = filled;
    while z < MAX_MARKET_DEPTH_IDX
        invariant
            filled <= z <= MAX_MARKET_DEPTH_IDX,
            mdi@.len() == z,
            mdi0.len() == filled,
            forall|i: int| 0 <= i < filled ==> #[trigger] mdi@[i] == mdi0[i],
            forall|i: int|
                filled <= i < z ==> (#[trigger] mdi@[i]).qty == 0 && mdi@[i].price == 0
                    && mdi@[i].number_of_orders == 0,
        decreases MAX_MARKET_DEPTH_IDX - z,
    {
        mdi.push(TagMarketDepthInfo { qty: 0, price: 0, number_of_orders: 0 });
        z = z + 1;
    }
    (mdi, bc, sc)
}

/// Length of the run of rows with positive quantity starting at `i`, over
/// at most `m` rows.
pub open spec fn spec_nz_neq(s: Seq<crate::neq::BcastMBPInfo>, i: int, m: int) -> int
    decreases m,
{
    if m <= 0 || i < 0 || i >= s.len() || !(s[i].qty > 0) {
        0
    } else {
        1 + spec_nz_neq(s, i + 1, m - 1)
    }
}

proof fn lemma_nz_neq_char(s: Seq<crate::neq::BcastMBPInfo>, start: int, m: int, c: int)
    requires
        0 <= c <= m,
        start >= 0,
        start + m <= s.len(),
        forall|i: int| start <= i < start + c ==> (#[trigger] s[i]).qty > 0,
        c < m ==> !(s[start + c].qty > 0),
    ensures
        spec_nz_neq(s, start, m) == c,
    decreases c,
{
    if c > 0 {
        assert(s[start].qty > 0);
        lemma_nz_neq_char(s, start + 1, m - 1, c - 1);
    }
}

pub proof fn lemma_nz_neq_bound(s: Seq<crate::neq::BcastMBPInfo>, i: int, m: int)
    ensures
        0 <= spec_nz_neq(s, i, m) <= (if m >= 0 { m } else { 0 }),
    decreases m,
{
    if m > 0 && 0 <= i < s.len() && s[i].qty > 0 {
        lemma_nz_neq_bound(s, i + 1, m - 1);
    }
}

/// Collects the populated depth rows of one record: the bid rows are the
/// leading positive-quantity run of the first half, the offer rows the
/// leading run of the second half; the rest of the output is zeroed.
fn collect_depth_rows_neq(info: &Vec<crate::neq::BcastMBPInfo>) -> (r: (Vec<TagMarketDepthInfo>, usize, usize))
    requires
        info@.len() == MAX_MBPINFO_IDX,
    ensures
        ({
            let bc = spec_nz_neq(info@, 0, MAX_BUY_SELL_DEPTH_IDX as int);
            let sc = spec_nz_neq(
                info@,
                MAX_BUY_SELL_DEPTH_IDX as int,
                MAX_BUY_SELL_DEPTH_IDX as int,
            );
            &&& r.1 == bc
            &&& r.2 == sc
            &&& r.1 <= MAX_BUY_SELL_DEPTH_IDX
            &&& r.2 <= MAX_BUY_SELL_DEPTH_IDX
            &&& r.0@.len() == MAX_MARKET_DEPTH_IDX
            &&& forall|i: int|
                0 <= i < bc ==> (#[trigger] r.0@[i]).qty == info@[i].qty as i64 && r.0@[i].price
                    == info@[i].price && r.0@[i].number_of_orders == info@[i].number_of_orders
            &&& forall|i: int|
                0 <= i < sc ==> (#[trigger] r.0@[bc + i]).qty == info@[MAX_BUY_SELL_DEPTH_IDX
                    + i].qty as i64 && r.0@[bc + i].price == info@[MAX_BUY_SELL_DEPTH_IDX
                    + i].price && r.0@[bc + i].number_of_orders == info@[MAX_BUY_SELL_DEPTH_IDX
                    + i].number_of_orders
            &&& forall|i: int|
                bc + sc <= i < MAX_MARKET_DEPTH_IDX ==> (#[trigger] r.0@[i]).qty == 0
                    && r.0@[i].price == 0 && r.0@[i].number_of_orders == 0
        }),
{
    let mut mdi: Vec<TagMarketDepthInfo> = Vec::new();
    let mut bc: usize = 0;
    loop
        invariant
            bc <= MAX_BUY_SELL_DEPTH_IDX,
            info@.len() == MAX_MBPINFO_IDX,
            mdi@.len() == bc,
            forall|i: int| 0 <= i < bc ==> (#[trigger] info@[i]).qty > 0,
            forall|i: int|
                0 <= i < bc ==> (#[trigger] mdi@[i]).qty == info@[i].qty as i64 && mdi@[i].price
                    == info@[i].price && mdi@[i].number_of_orders == info@[i].number_of_orders,
        ensures
            bc <= MAX_BUY_SELL_DEPTH_IDX,
            bc < MAX_BUY_SELL_DEPTH_IDX ==> !(info@[bc as int].qty > 0),
        decreases MAX_BUY_SELL_DEPTH_IDX - bc,
    {
        if bc >= MAX_BUY_SELL_DEPTH_IDX {
            break ;
        }
        let p = &info[bc];
        if !(p.qty > 0) {
            break ;
        }
        mdi.push(
            TagMarketDepthInfo {
                qty: p.qty as i64,
                price: p.price,
                number_of_orders: p.number_of_orders,
            },
        );
        bc = bc + 1;
    }
    proof {
        lemma_nz_neq_char(info@, 0, MAX_BUY_SELL_DEPTH_IDX as int, bc as int);
    }

    let ghost mdi_b = mdi@;
    let mut sc: usize = 0;
    loop
        invariant
            sc <= MAX_BUY_SELL_DEPTH_IDX,
            bc <= MAX_BUY_SELL_DEPTH_IDX,
            info@.len() == MAX_MBPINFO_IDX,
            mdi@.len() == bc + sc,
            mdi_b.len() == bc,
            forall|i: int| 0 <= i < bc ==> #[trigger] mdi@[i] == mdi_b[i],
            forall|i: int|
                0 <= i < sc ==> (#[trigger] info@[MAX_BUY_SELL_DEPTH_IDX + i]).qty > 0,
            forall|i: int|
                0 <= i < sc ==> (#[trigger] mdi@[bc + i]).qty == info@[MAX_BUY_SELL_DEPTH_IDX
                    + i].qty as i64 && mdi@[bc + i].price == info@[MAX_BUY_SELL_DEPTH_IDX
                    + i].price && mdi@[bc + i].number_of_orders == info@[MAX_BUY_SELL_DEPTH_IDX
                    + i].number_of_orders,
        ensures
            sc <= MAX_BUY_SELL_DEPTH_IDX,
            sc < MAX_BUY_SELL_DEPTH_IDX ==> !(info@[MAX_BUY_SELL_DEPTH_IDX + sc].qty > 0),
            mdi@.len() == bc + sc,
            forall|i: int| 0 <= i < bc ==> #[trigger] mdi@[i] == mdi_b[i],
            forall|i: int|
                0 <= i < sc ==> (#[trigger] mdi@[bc + i]).qty == info@[MAX_BUY_SELL_DEPTH_IDX
                    + i].qty as i64 && mdi@[bc + i].price == info@[MAX_BUY_SELL_DEPTH_IDX
                    + i].price && mdi@[bc + i].number_of_orders == info@[MAX_BUY_SELL_DEPTH_IDX
                    + i].number_of_orders,
        decreases MAX_BUY_SELL_DEPTH_IDX - sc,
    {
        if sc >= MAX_BUY_SELL_DEPTH_IDX {
            break ;
        }
        let p = &info[MAX_BUY_SELL_DEPTH_IDX + sc];
        if !(p.qty > 0) {
            break ;
        }
        mdi.push(
            TagMarketDepthInfo {
                qty: p.qty as i64,
                price: p.price,
                number_of_orders: p.number_of_orders,
            },
        );
        sc = sc + 1;
    }
    proof {
        assert forall|i: int|
            MAX_BUY_SELL_DEPTH_IDX <= i < MAX_BUY_SELL_DEPTH_IDX + sc implies (
        #[trigger] info@[i]).qty > 0 by {
            assert(info@[MAX_BUY_SELL_DEPTH_IDX + (i - MAX_BUY_SELL_DEPTH_IDX)].qty > 0);
        }
        lemma_nz_neq_char(
            info@,
            MAX_BUY_SELL_DEPTH_IDX as int,
            MAX_BUY_SELL_DEPTH_IDX as int,
            sc as int,
        );
    }

    let filled = mdi.len();
    let ghost mdi0 = mdi@;
    let mut z: usize = filled;
    while z < MAX_MARKET_DEPTH_IDX
        invariant
            filled <= z <= MAX_MARKET_DEPTH_IDX,
            mdi@.len() == z,
            mdi0.len() == filled,
            forall|i: int| 0 <= i < filled ==> #[trigger] mdi@[i] == mdi0[i],
            forall|i: int|
                filled <= i < z ==> (#[trigger] mdi@[i]).qty == 0 && mdi@[i].price == 0
                    && mdi@[i].number_of_orders == 0,
        decreases MAX_MARKET_DEPTH_IDX - z,
    {
        mdi.push(TagMarketDepthInfo { qty: 0, price: 0, number_of_orders: 0 });
        z = z + 1;
    }
    (mdi, bc, sc)
}

/// Length of the run of rows with positive quantity starting at `i`, over
/// at most `m` rows.
pub open spec fn spec_nz_cedtc(s: Seq<crate::neq::BcastMBPInfoCEDTC>, i: int, m: int) -> int
    decreases m,
{
    if m <= 0 || i < 0 || i >= s.len() || !(s[i].qty > 0) {
        0
    } else {
        1 + spec_nz_cedtc(s, i + 1, m - 1)
    }
}

proof fn lemma_nz_cedtc_char(s: Seq<crate::neq::BcastMBPInfoCEDTC>, start: int, m: int, c: int)
    requires
        0 <= c <= m,
        start >= 0,
        start + m <= s.len(),
        forall|i: int| start <= i < start + c ==> (#[trigger] s[i]).qty > 0,
        c < m ==> !(s[start + c].qty > 0),
    ensures
        spec_nz_cedtc(s, start, m) == c,
    decreases c,
{
    if c > 0 {
        assert(s[start].qty > 0);
        lemma_nz_cedtc_char(s, start + 1, m - 1, c - 1);
    }
}

pub proof fn lemma_nz_cedtc_bound(s: Seq<crate::neq::BcastMBPInfoCEDTC>, i: int, m: int)
    ensures
        0 <= spec_nz_cedtc(s, i, m) <= (if m >= 0 { m } else { 0 }),
    decreases m,
{
    if m > 0 && 0 <= i < s.len() && s[i].qty > 0 {
        lemma_nz_cedtc_bound(s, i + 1, m - 1);
    }
}

/// Collects the populated depth rows of one record: the bid rows are the
/// leading positive-quantity run of the first half, the offer rows the
/// leading run of the second half; the rest of the output is zeroed.
fn collect_depth_rows_cedtc(info: &Vec<crate::neq::BcastMBPInfoCEDTC>) -> (r: (Vec<TagMarketDepthInfo>, usize, usize))
    requires
        info@.len() == MAX_MBPINFO_IDX,
    ensures
        ({
            let bc = spec_nz_cedtc(info@, 0, MAX_BUY_SELL_DEPTH_IDX as int);
            let sc = spec_nz_cedtc(
                info@,
                MAX_BUY_SELL_DEPTH_IDX as int,
                MAX_BUY_SELL_DEPTH_IDX as int,
            );
            &&& r.1 == bc
            &&& r.2 == sc
            &&& r.1 <= MAX_BUY_SELL_DEPTH_IDX
            &&& r.2 <= MAX_BUY_SELL_DEPTH_IDX
            &&& r.0@.len() == MAX_MARKET_DEPTH_IDX
            &&& forall|i: int|
                0 <= i < bc ==> (#[trigger] r.0@[i]).qty == info@[i].qty as i64 && r.0@[i].price
                    == info@[i].price && r.0@[i].number_of_orders == info@[i].number_of_orders
            &&& forall|i: int|
                0 <= i < sc ==> (#[trigger] r.0@[bc + i]).qty == info@[MAX_BUY_SELL_DEPTH_IDX
                    + i].qty as i64 && r.0@[bc + i].price == info@[MAX_BUY_SELL_DEPTH_IDX
                    + i].price && r.0@[bc + i].number_of_orders == info@[MAX_BUY_SELL_DEPTH_IDX
                    + i].number_of_orders
            &&& forall|i: int|
                bc + sc <= i < MAX_MARKET_DEPTH_IDX ==> (#[trigger] r.0@[i]).qty == 0
                    && r.0@[i].price == 0 && r.0@[i].number_of_orders == 0
        }),
{
    let mut mdi: Vec<TagMarketDepthInfo> = Vec::new();
    let mut bc: usize = 0;
    loop
        invariant
            bc <= MAX_BUY_SELL_DEPTH_IDX,
            info@.len() == MAX_MBPINFO_IDX,
            mdi@.len() == bc,
            forall|i: int| 0 <= i < bc ==> (#[trigger] info@[i]).qty > 0,
            forall|i: int|
                0 <= i < bc ==> (#[trigger] mdi@[i]).qty == info@[i].qty as i64 && mdi@[i].price
                    == info@[i].price && mdi@[i].number_of_orders == info@[i].number_of_orders,
        ensures
            bc <= MAX_BUY_SELL_DEPTH_IDX,
            bc < MAX_BUY_SELL_DEPTH_IDX ==> !(info@[bc as int].qty > 0),
        decreases MAX_BUY_SELL_DEPTH_IDX - bc,
    {
        if bc >= MAX_BUY_SELL_DEPTH_IDX {
            break ;
        }
        let p = &info[bc];
        if !(p.qty > 0) {
            break ;
        }
        mdi.push(
            TagMarketDepthInfo {
                qty: p.qty as i64,
                price: p.price,
                number_of_orders: p.number_of_orders,
            },
        );
        bc = bc + 1;
    }
    proof {
        lemma_nz_cedtc_char(info@, 0, MAX_BUY_SELL_DEPTH_IDX as int, bc as int);
    }

    let ghost mdi_b = mdi@;
    let mut sc: usize = 0;
    loop
        invariant
            sc <= MAX_BUY_SELL_DEPTH_IDX,
            bc <= MAX_BUY_SELL_DEPTH_IDX,
            info@.len() == MAX_MBPINFO_IDX,
            mdi@.len() == bc + sc,
            mdi_b.len() == bc,
            forall|i: int| 0 <= i < bc ==> #[trigger] mdi@[i] == mdi_b[i],
            forall|i: int|
                0 <= i < sc ==> (#[trigger] info@[MAX_BUY_SELL_DEPTH_IDX + i]).qty > 0,
            forall|i: int|
                0 <= i < sc ==> (#[trigger] mdi@[bc + i]).qty == info@[MAX_BUY_SELL_DEPTH_IDX
                    + i].qty as i64 && mdi@[bc + i].price == info@[MAX_BUY_SELL_DEPTH_IDX
                    + i].price && mdi@[bc + i].number_of_orders == info@[MAX_BUY_SELL_DEPTH_IDX
                    + i].number_of_orders,
        ensures
            sc <= MAX_BUY_SELL_DEPTH_IDX,
            sc < MAX_BUY_SELL_DEPTH_IDX ==> !(info@[MAX_BUY_SELL_DEPTH_IDX + sc].qty > 0),
            mdi@.len() == bc + sc,
            forall|i: int| 0 <= i < bc ==> #[trigger] mdi@[i] == mdi_b[i],
            forall|i: int|
                0 <= i < sc ==> (#[trigger] mdi@[bc + i]).qty == info@[MAX_BUY_SELL_DEPTH_IDX
                    + i].qty as i64 && mdi@[bc + i].price == info@[MAX_BUY_SELL_DEPTH_IDX
                    + i].price && mdi@[bc + i].number_of_orders == info@[MAX_BUY_SELL_DEPTH_IDX
                    + i].number_of_orders,
        decreases MAX_BUY_SELL_DEPTH_IDX - sc,
    {
        if sc >= MAX_BUY_SELL_DEPTH_IDX {
            break ;
        }
        let p = &info[MAX_BUY_SELL_DEPTH_IDX + sc];
        if !(p.qty > 0) {
            break ;
        }
        mdi.push(
            TagMarketDepthInfo {
                qty: p.qty as i64,
                price: p.price,
                number_of_orders: p.number_of_orders,
            },
        );
        sc = sc + 1;
    }
    proof {
        assert forall|i: int|
            MAX_BUY_SELL_DEPTH_IDX <= i < MAX_BUY_SELL_DEPTH_IDX + sc implies (
        #[trigger] info@[i]).qty > 0 by {
            assert(info@[MAX_BUY_SELL_DEPTH_IDX + (i - MAX_BUY_SELL_DEPTH_IDX)].qty > 0);
        }
        lemma_nz_cedtc_char(
            info@,
            MAX_BUY_SELL_DEPTH_IDX as int,
            MAX_BUY_SELL_DEPTH_IDX as int,
            sc as int,
        );
    }

    let filled = mdi.len();
    let ghost mdi0 = mdi@;
    let mut z: usize = filled;
    while z < MAX_MARKET_DEPTH_IDX
        invariant
            filled <= z <= MAX_MARKET_DEPTH_IDX,
            mdi@.len() == z,
            mdi0.len() == filled,
            forall|i: int| 0 <= i < filled ==> #[trigger] mdi@[i] == mdi0[i],
            forall|i: int|
                filled <= i < z ==> (#[trigger] mdi@[i]).qty == 0 && mdi@[i].price == 0
                    && mdi@[i].number_of_orders == 0,
        decreases MAX_MARKET_DEPTH_IDX - z,
    {
        mdi.push(TagMarketDepthInfo { qty: 0, price: 0, number_of_orders: 0 });
        z = z + 1;
    }
    (mdi, bc, sc)
}

/// What `convert_mbo_mbp` produces, field by field, for a given record and clock.
pub open spec fn spec_convert_mbo_mbp_ok(src: crate::nfo::BcastMBOMBP, r: TagMarketPictureBroadcast, now_us: u64, new_size: int) -> bool {
    let src = &src;
    ({
            let rec = src;
            let bc = spec_nz_nfo(src.mbp_info@, 0, MAX_BUY_SELL_DEPTH_IDX as int);
            let sc = spec_nz_nfo(
                rec.mbp_info@,
                MAX_BUY_SELL_DEPTH_IDX as int,
                MAX_BUY_SELL_DEPTH_IDX as int,
            );
            &&& r.msg_header.message_code == src.bcast_header.trans_code as i32
            &&& r.msg_header.log_time == src.bcast_header.log_time
            &&& r.msg_header.trader_id == src.bcast_header.bc_seq_no
            &&& r.msg_header.error_code == src.bcast_header.error_code
            &&& r.msg_header.timestamp == now_us
            &&& r.msg_header.message_length == src.bcast_header.message_length
            &&& r.token == src.mbo_data.token as i64
            &&& r.total_buy_qty == src.lf_total_buy_quantity
            &&& r.total_sell_qty == src.lf_total_sell_quantity
            &&& r.volume_traded_today == src.mbo_data.volume_traded_today as i64
            &&& r.open_price == src.open_price
            &&& r.close_price == src.closing_price
            &&& r.high_price == src.high_price
            &&& r.low_price == src.low_price
            &&& r.ltp == src.mbo_data.last_traded_price
            &&& r.ltq == src.mbo_data.last_trade_quantity
            &&& r.ltt as int == spec_trunc_i32(src.mbo_data.last_trade_time as int)
            &&& r.atp == src.mbo_data.average_trade_price
            &&& r.indicative_close_price == 0
            &&& r.lut as int == src.bcast_header.log_time as int
            &&& r.buy_depth_count == bc as i32
            &&& r.sell_depth_count == sc as i32
            &&& r.trading_status == src.mbo_data.trading_status
            &&& r.market_depth_info@.len() == MAX_MARKET_DEPTH_IDX
            &&& forall|i: int|
                0 <= i < bc ==> (#[trigger] r.market_depth_info@[i]).qty == rec.mbp_info@[i].qty
                    as i64 && r.market_depth_info@[i].price == rec.mbp_info@[i].price
                    && r.market_depth_info@[i].number_of_orders
                    == rec.mbp_info@[i].number_of_orders
            &&& forall|i: int|
                0 <= i < sc ==> (#[trigger] r.market_depth_info@[bc + i]).qty == rec.mbp_info@[
                    MAX_BUY_SELL_DEPTH_IDX + i].qty as i64 && r.market_depth_info@[bc + i].price
                    == rec.mbp_info@[MAX_BUY_SELL_DEPTH_IDX + i].price && r.market_depth_info@[bc
                    + i].number_of_orders == rec.mbp_info@[MAX_BUY_SELL_DEPTH_IDX
                    + i].number_of_orders
            &&& forall|i: int|
                bc + sc <= i < MAX_MARKET_DEPTH_IDX ==> (#[trigger] r.market_depth_info@[i]).qty
                    == 0 && r.market_depth_info@[i].price == 0
                    && r.market_depth_info@[i].number_of_orders == 0
            &&& new_size == TAG_PICTURE_BASE_LEN + TAG_DEPTH_ROW_LEN * (bc + sc)
    })
}

#[verifier::rlimit(100)]
pub fn convert_mbo_mbp(src: &crate::nfo::BcastMBOMBP, packet_size: &mut usize, now_us: u64) -> (r:
    TagMarketPictureBroadcast)
    requires
        src.wf(),
    ensures
        r.wf(),
        spec_convert_mbo_mbp_ok(*src, r, now_us, *final(packet_size) as int),
{
    let rec = &src.mbo_data;
    let hdr = &src.bcast_header;
    let header = TagMessageHeader {
        message_code: hdr.trans_code as i32,
        transaction_type: 0,
        log_time: hdr.log_time,
        alpha_char: crate::bytesio::read_bytes(hdr.alpha_char.as_slice(), 0, 2),
        trader_id: hdr.bc_seq_no,
        error_code: hdr.error_code,
        timestamp: now_us,
        timestamp1: crate::bytesio::read_bytes(hdr.time_stamp2.as_slice(), 0, 8),
        timestamp2: crate::bytesio::read_bytes(hdr.time_stamp2.as_slice(), 0, 8),
        message_length: hdr.message_length,
    };
    proof {
        assert(hdr.alpha_char@.subrange(0, 2) =~= hdr.alpha_char@);
        assert(hdr.time_stamp2@.subrange(0, 8) =~= hdr.time_stamp2@);
    }

    let collected = collect_depth_rows_nfo(&src.mbp_info);
    let mdi = collected.0;
    let bc = collected.1;
    let sc = collected.2;

    *packet_size = TAG_PICTURE_BASE_LEN + TAG_DEPTH_ROW_LEN * (bc + sc);

    TagMarketPictureBroadcast {
        msg_header: header,
        token: rec.token as i64,
        total_buy_qty: src.lf_total_buy_quantity,
        total_sell_qty: src.lf_total_sell_quantity,
        volume_traded_today: rec.volume_traded_today as i64,
        open_price: src.open_price,
        close_price: src.closing_price,
        high_price: src.high_price,
        low_price: src.low_price,
        ltp: rec.last_traded_price,
        ltq: rec.last_trade_quantity,
        ltt: i64_to_i32_wrap_pub(rec.last_trade_time),
        atp: rec.average_trade_price,
        indicative_close_price: 0,
        lut: hdr.log_time as i64,
        buy_depth_count: bc as i32,
        sell_depth_count: sc as i32,
        trading_status: rec.trading_status,
        market_depth_info: mdi,
    }
}

/// What `convert_mbo_mbp_eq` produces, field by field, for a given record and clock.
pub open spec fn spec_convert_mbo_mbp_eq_ok(src: crate::neq::BcastMBOMBP, r: TagMarketPictureBroadcast, now_us: u64, new_size: int) -> bool {
    let src = &src;
    ({
            let rec = src;
            let bc = spec_nz_neq(rec.mbp_info@, 0, MAX_BUY_SELL_DEPTH_IDX as int);
            let sc = spec_nz_neq(
                rec.mbp_info@,
                MAX_BUY_SELL_DEPTH_IDX as int,
                MAX_BUY_SELL_DEPTH_IDX as int,
            );
            &&& r.msg_header.message_code == src.bcast_header.trans_code as i32
            &&& r.msg_header.log_time == src.bcast_header.log_time
            &&& r.msg_header.trader_id == src.bcast_header.bc_seq_no
            &&& r.msg_header.error_code == src.bcast_header.error_code
            &&& r.msg_header.timestamp == now_us
            &&& r.msg_header.message_length == src.bcast_header.message_length
            &&& r.token == src.mbo_data.token as i64
            &&& r.total_buy_qty == src.total_buy_qty
            &&& r.total_sell_qty == src.total_sell_qty
            &&& r.volume_traded_today == src.mbo_data.volume_traded_today as i64
            &&& r.open_price == src.open_price
            &&& r.close_price == src.closing_price
            &&& r.high_price == src.high_price
            &&& r.low_price == src.low_price
            &&& r.ltp == src.mbo_data.last_traded_price
            &&& r.ltq == src.mbo_data.last_trade_quantity
            &&& r.ltt as int == src.mbo_data.last_trade_time as int
            &&& r.atp == src.mbo_data.average_trade_price
            &&& r.indicative_close_price == 0
            &&& r.lut as int == src.bcast_header.log_time as int
            &&& r.buy_depth_count == bc as i32
            &&& r.sell_depth_count == sc as i32
            &&& r.trading_status == src.mbo_data.trading_status
            &&& r.market_depth_info@.len() == MAX_MARKET_DEPTH_IDX
            &&& forall|i: int|
                0 <= i < bc ==> (#[trigger] r.market_depth_info@[i]).qty == rec.mbp_info@[i].qty
                    as i64 && r.market_depth_info@[i].price == rec.mbp_info@[i].price
                    && r.market_depth_info@[i].number_of_orders
                    == rec.mbp_info@[i].number_of_orders
            &&& forall|i: int|
                0 <= i < sc ==> (#[trigger] r.market_depth_info@[bc + i]).qty == rec.mbp_info@[
                    MAX_BUY_SELL_DEPTH_IDX + i].qty as i64 && r.market_depth_info@[bc + i].price
                    == rec.mbp_info@[MAX_BUY_SELL_DEPTH_IDX + i].price && r.market_depth_info@[bc
                    + i].number_of_orders == rec.mbp_info@[MAX_BUY_SELL_DEPTH_IDX
                    + i].number_of_orders
            &&& forall|i: int|
                bc + sc <= i < MAX_MARKET_DEPTH_IDX ==> (#[trigger] r.market_depth_info@[i]).qty
                    == 0 && r.market_depth_info@[i].price == 0
                    && r.market_depth_info@[i].number_of_orders == 0
            &&& new_size == TAG_PICTURE_BASE_LEN + TAG_DEPTH_ROW_LEN * (bc + sc)
    })
}

#[verifier::rlimit(100)]
pub fn convert_mbo_mbp_eq(src: &crate::neq::BcastMBOMBP, packet_size: &mut usize, now_us: u64) -> (r:
    TagMarketPictureBroadcast)
    requires
        src.wf(),
    ensures
        r.wf(),
        spec_convert_mbo_mbp_eq_ok(*src, r, now_us, *final(packet_size) as int),
{
    let rec = &src.mbo_data;
    let hdr = &src.bcast_header;
    let header = TagMessageHeader {
        message_code: hdr.trans_code as i32,
        transaction_type: 0,
        log_time: hdr.log_time,
        alpha_char: crate::bytesio::read_bytes(hdr.alpha_char.as_slice(), 0, 2),
        trader_id: hdr.bc_seq_no,
        error_code: hdr.error_code,
        timestamp: now_us,
        timestamp1: crate::bytesio::read_bytes(hdr.time_stamp2.as_slice(), 0, 8),
        timestamp2: crate::bytesio::read_bytes(hdr.time_stamp2.as_slice(), 0, 8),
        message_length: hdr.message_length,
    };
    proof {
        assert(hdr.alpha_char@.subrange(0, 2) =~= hdr.alpha_char@);
        assert(hdr.time_stamp2@.subrange(0, 8) =~= hdr.time_stamp2@);
    }

    let collected = collect_depth_rows_neq(&src.mbp_info);
    let mdi = collected.0;
    let bc = collected.1;
    let sc = collected.2;

    *packet_size = TAG_PICTURE_BASE_LEN + TAG_DEPTH_ROW_LEN * (bc + sc);

    TagMarketPictureBroadcast {
        msg_header: header,
        token: rec.token as i64,
        total_buy_qty: src.total_buy_qty,
        total_sell_qty: src.total_sell_qty,
        volume_traded_today: rec.volume_traded_today as i64,
        open_price: src.open_price,
        close_price: src.closing_price,
        high_price: src.high_price,
        low_price: src.low_price,
        ltp: rec.last_traded_price,
        ltq: rec.last_trade_quantity,
        ltt: rec.last_trade_time,
        atp: rec.average_trade_price,
        indicative_close_price: 0,
        lut: hdr.log_time as i64,
        buy_depth_count: bc as i32,
        sell_depth_count: sc as i32,
        trading_status: rec.trading_status,
        market_depth_info: mdi,
    }
}

/// What `convert_only_mbp` produces, field by field, for a given record and clock.
pub open spec fn spec_convert_only_mbp_ok(src: crate::nfo::BcastOnlyMBP, r: TagMarketPictureBroadcast, now_us: u64, new_size: int) -> bool {
    let src = &src;
    ({
            let rec = src.mbp_data@[src.no_of_records as int];
            let bc = spec_nz_nfo(rec.mbp_info@, 0, MAX_BUY_SELL_DEPTH_IDX as int);
            let sc = spec_nz_nfo(
                rec.mbp_info@,
                MAX_BUY_SELL_DEPTH_IDX as int,
                MAX_BUY_SELL_DEPTH_IDX as int,
            );
            &&& r.msg_header.message_code == src.bcast_header.trans_code as i32
            &&& r.msg_header.log_time == src.bcast_header.log_time
            &&& r.msg_header.trader_id == src.bcast_header.bc_seq_no
            &&& r.msg_header.error_code == src.bcast_header.error_code
            &&& r.msg_header.timestamp == now_us
            &&& r.msg_header.message_length == src.bcast_header.message_length
            &&& r.token == rec.token as i64
            &&& r.total_buy_qty == rec.total_buy_quantity
            &&& r.total_sell_qty == rec.total_sell_quantity
            &&& r.volume_traded_today == rec.volume_traded_today as i64
            &&& r.open_price == rec.open_price
            &&& r.close_price == rec.closing_price
            &&& r.high_price == rec.high_price
            &&& r.low_price == rec.low_price
            &&& r.ltp == rec.last_traded_price
            &&& r.ltq == rec.last_trade_quantity
            &&& r.ltt as int == spec_trunc_i32(rec.last_trade_time as int)
            &&& r.atp == rec.average_trade_price
            &&& r.indicative_close_price == 0
            &&& r.lut as int == src.bcast_header.log_time as int
            &&& r.buy_depth_count == bc as i32
            &&& r.sell_depth_count == sc as i32
            &&& r.trading_status == rec.trading_status
            &&& r.market_depth_info@.len() == MAX_MARKET_DEPTH_IDX
            &&& forall|i: int|
                0 <= i < bc ==> (#[trigger] r.market_depth_info@[i]).qty == rec.mbp_info@[i].qty
                    as i64 && r.market_depth_info@[i].price == rec.mbp_info@[i].price
                    && r.market_depth_info@[i].number_of_orders
                    == rec.mbp_info@[i].number_of_orders
            &&& forall|i: int|
                0 <= i < sc ==> (#[trigger] r.market_depth_info@[bc + i]).qty == rec.mbp_info@[
                    MAX_BUY_SELL_DEPTH_IDX + i].qty as i64 && r.market_depth_info@[bc + i].price
                    == rec.mbp_info@[MAX_BUY_SELL_DEPTH_IDX + i].price && r.market_depth_info@[bc
                    + i].number_of_orders == rec.mbp_info@[MAX_BUY_SELL_DEPTH_IDX
                    + i].number_of_orders
            &&& forall|i: int|
                bc + sc <= i < MAX_MARKET_DEPTH_IDX ==> (#[trigger] r.market_depth_info@[i]).qty
                    == 0 && r.market_depth_info@[i].price == 0
                    && r.market_depth_info@[i].number_of_orders == 0
            &&& new_size == TAG_PICTURE_BASE_LEN + TAG_DEPTH_ROW_LEN * (bc + sc)
    })
}

#[verifier::rlimit(100)]
pub fn convert_only_mbp(src: &crate::nfo::BcastOnlyMBP, packet_size: &mut usize, now_us: u64) -> (r:
    TagMarketPictureBroadcast)
    requires
        src.wf(),
        0 <= src.no_of_records < MAX_MBP_DATA_IDX as i16,
    ensures
        r.wf(),
        spec_convert_only_mbp_ok(*src, r, now_us, *final(packet_size) as int),
{
    let rec = &src.mbp_data[src.no_of_records as usize];
    let hdr = &src.bcast_header;
    let header = TagMessageHeader {
        message_code: hdr.trans_code as i32,
        transaction_type: 0,
        log_time: hdr.log_time,
        alpha_char: crate::bytesio::read_bytes(hdr.alpha_char.as_slice(), 0, 2),
        trader_id: hdr.bc_seq_no,
        error_code: hdr.error_code,
        timestamp: now_us,
        timestamp1: crate::bytesio::read_bytes(hdr.time_stamp2.as_slice(), 0, 8),
        timestamp2: crate::bytesio::read_bytes(hdr.time_stamp2.as_slice(), 0, 8),
        message_length: hdr.message_length,
    };
    proof {
        assert(hdr.alpha_char@.subrange(0, 2) =~= hdr.alpha_char@);
        assert(hdr.time_stamp2@.subrange(0, 8) =~= hdr.time_stamp2@);
    }

    let collected = collect_depth_rows_nfo(&rec.mbp_info);
    let mdi = collected.0;
    let bc = collected.1;
    let sc = collected.2;

    *packet_size = TAG_PICTURE_BASE_LEN + TAG_DEPTH_ROW_LEN * (bc + sc);

    TagMarketPictureBroadcast {
        msg_header: header,
        token: rec.token as i64,
        total_buy_qty: rec.total_buy_quantity,
        total_sell_qty: rec.total_sell_quantity,
        volume_traded_today: rec.volume_traded_today as i64,
        open_price: rec.open_price,
        close_price: rec.closing_price,
        high_price: rec.high_price,
        low_price: rec.low_price,
        ltp: rec.last_traded_price,
        ltq: rec.last_trade_quantity,
        ltt: i64_to_i32_wrap_pub(rec.last_trade_time),
        atp: rec.average_trade_price,
        indicative_close_price: 0,
        lut: hdr.log_time as i64,
        buy_depth_count: bc as i32,
        sell_depth_count: sc as i32,
        trading_status: rec.trading_status,
        market_depth_info: mdi,
    }
}

/// What `convert_only_mbp_eq` produces, field by field, for a given record and clock.
pub open spec fn spec_convert_only_mbp_eq_ok(src: crate::neq::BcastOnlyMBP, r: TagMarketPictureBroadcast, now_us: u64, new_size: int) -> bool {
    let src = &src;
    ({
            let rec = src.mbp_data@[src.no_of_records as int];
            let bc = spec_nz_neq(rec.mbp_info@, 0, MAX_BUY_SELL_DEPTH_IDX as int);
            let sc = spec_nz_neq(
                rec.mbp_info@,
                MAX_BUY_SELL_DEPTH_IDX as int,
                MAX_BUY_SELL_DEPTH_IDX as int,
            );
            &&& r.msg_header.message_code == src.bcast_header.trans_code as i32
            &&& r.msg_header.log_time == src.bcast_header.log_time
            &&& r.msg_header.trader_id == src.bcast_header.bc_seq_no
            &&& r.msg_header.error_code == src.bcast_header.error_code
            &&& r.msg_header.timestamp == now_us
            &&& r.msg_header.message_length == src.bcast_header.message_length
            &&& r.token == rec.token as i64
            &&& r.total_buy_qty == rec.lf_total_buy_quantity
            &&& r.total_sell_qty == rec.lf_total_sell_quantity
            &&& r.volume_traded_today == rec.volume_traded_today as i64
            &&& r.open_price == rec.open_price
            &&& r.close_price == rec.closing_price
            &&& r.high_price == rec.high_price
            &&& r.low_price == rec.low_price
            &&& r.ltp == rec.last_traded_price
            &&& r.ltq == rec.last_trade_quantity
            &&& r.ltt as int == spec_trunc_i32(rec.last_trade_time as int * 1000)
            &&& r.atp == rec.average_trade_price
            &&& r.indicative_close_price == 0
            &&& r.lut as int == src.bcast_header.log_time as int * 1000
            &&& r.buy_depth_count == bc as i32
            &&& r.sell_depth_count == sc as i32
            &&& r.trading_status == rec.trading_status
            &&& r.market_depth_info@.len() == MAX_MARKET_DEPTH_IDX
            &&& forall|i: int|
                0 <= i < bc ==> (#[trigger] r.market_depth_info@[i]).qty == rec.mbp_info@[i].qty
                    as i64 && r.market_depth_info@[i].price == rec.mbp_info@[i].price
                    && r.market_depth_info@[i].number_of_orders
                    == rec.mbp_info@[i].number_of_orders
            &&& forall|i: int|
                0 <= i < sc ==> (#[trigger] r.market_depth_info@[bc + i]).qty == rec.mbp_info@[
                    MAX_BUY_SELL_DEPTH_IDX + i].qty as i64 && r.market_depth_info@[bc + i].price
                    == rec.mbp_info@[MAX_BUY_SELL_DEPTH_IDX + i].price && r.market_depth_info@[bc
                    + i].number_of_orders == rec.mbp_info@[MAX_BUY_SELL_DEPTH_IDX
                    + i].number_of_orders
            &&& forall|i: int|
                bc + sc <= i < MAX_MARKET_DEPTH_IDX ==> (#[trigger] r.market_depth_info@[i]).qty
                    == 0 && r.market_depth_info@[i].price == 0
                    && r.market_depth_info@[i].number_of_orders == 0
            &&& new_size == TAG_PICTURE_BASE_LEN + TAG_DEPTH_ROW_LEN * (bc + sc)
    })
}

#[verifier::rlimit(100)]
pub fn convert_only_mbp_eq(src: &crate::neq::BcastOnlyMBP, packet_size: &mut usize, now_us: u64) -> (r:
    TagMarketPictureBroadcast)
    requires
        src.wf(),
        0 <= src.no_of_records < MAX_MBP_DATA_IDX as i16,
    ensures
        r.wf(),
        spec_convert_only_mbp_eq_ok(*src, r, now_us, *final(packet_size) as int),
{
    let rec = &src.mbp_data[src.no_of_records as usize];
    let hdr = &src.bcast_header;
    let header = TagMessageHeader {
        message_code: hdr.trans_code as i32,
        transaction_type: 0,
        log_time: hdr.log_time,
        alpha_char: crate::bytesio::read_bytes(hdr.alpha_char.as_slice(), 0, 2),
        trader_id: hdr.bc_seq_no,
        error_code: hdr.error_code,
        timestamp: now_us,
        timestamp1: crate::bytesio::read_bytes(hdr.time_stamp2.as_slice(), 0, 8),
        timestamp2: crate::bytesio::read_bytes(hdr.time_stamp2.as_slice(), 0, 8),
        message_length: hdr.message_length,
    };
    proof {
        assert(hdr.alpha_char@.subrange(0, 2) =~= hdr.alpha_char@);
        assert(hdr.time_stamp2@.subrange(0, 8) =~= hdr.time_stamp2@);
    }

    let collected = collect_depth_rows_neq(&rec.mbp_info);
    let mdi = collected.0;
    let bc = collected.1;
    let sc = collected.2;

    *packet_size = TAG_PICTURE_BASE_LEN + TAG_DEPTH_ROW_LEN * (bc + sc);

    TagMarketPictureBroadcast {
        msg_header: header,
        token: rec.token as i64,
        total_buy_qty: rec.lf_total_buy_quantity,
        total_sell_qty: rec.lf_total_sell_quantity,
        volume_traded_today: rec.volume_traded_today as i64,
        open_price: rec.open_price,
        close_price: rec.closing_price,
        high_price: rec.high_price,
        low_price: rec.low_price,
        ltp: rec.last_traded_price,
        ltq: rec.last_trade_quantity,
        ltt: i64_to_i32_wrap_pub(rec.last_trade_time as i64 * 1000),
        atp: rec.average_trade_price,
        indicative_close_price: 0,
        lut: hdr.log_time as i64 * 1000,
        buy_depth_count: bc as i32,
        sell_depth_count: sc as i32,
        trading_status: rec.trading_status,
        market_depth_info: mdi,
    }
}

/// What `convert_only_mbp_cedtc` produces, field by field, for a given record and clock.
pub open spec fn spec_convert_only_mbp_cedtc_ok(src: crate::neq::BcastOnlyMBPCEDTC, r: TagMarketPictureBroadcast, now_us: u64, new_size: int) -> bool {
    let src = &src;
    ({
            let rec = src.mbp_data@[src.no_of_records as int];
            let bc = spec_nz_cedtc(rec.mbp_info@, 0, MAX_BUY_SELL_DEPTH_IDX as int);
            let sc = spec_nz_cedtc(
                rec.mbp_info@,
                MAX_BUY_SELL_DEPTH_IDX as int,
                MAX_BUY_SELL_DEPTH_IDX as int,
            );
            &&& r.msg_header.message_code == src.bcast_header.trans_code as i32
            &&& r.msg_header.log_time == src.bcast_header.log_time
            &&& r.msg_header.trader_id == src.bcast_header.bc_seq_no
            &&& r.msg_header.error_code == src.bcast_header.error_code
            &&& r.msg_header.timestamp == now_us
            &&& r.msg_header.message_length == src.bcast_header.message_length
            &&& r.token == rec.token as i64
            &&& r.total_buy_qty == rec.total_buy_quantity
            &&& r.total_sell_qty == rec.total_sell_quantity
            &&& r.volume_traded_today == rec.volume_traded_today
            &&& r.open_price == rec.open_price
            &&& r.close_price == rec.closing_price
            &&& r.high_price == rec.high_price
            &&& r.low_price == rec.low_price
            &&& r.ltp == rec.last_traded_price
            &&& r.ltq == rec.last_trade_quantity
            &&& r.ltt as int == rec.last_trade_time as int
            &&& r.atp == rec.average_trade_price
            &&& r.indicative_close_price == 0
            &&& r.lut as int == src.bcast_header.log_time as int
            &&& r.buy_depth_count == bc as i32
            &&& r.sell_depth_count == sc as i32
            &&& r.trading_status == rec.trading_status
            &&& r.market_depth_info@.len() == MAX_MARKET_DEPTH_IDX
            &&& forall|i: int|
                0 <= i < bc ==> (#[trigger] r.market_depth_info@[i]).qty == rec.mbp_info@[i].qty
                    as i64 && r.market_depth_info@[i].price == rec.mbp_info@[i].price
                    && r.market_depth_info@[i].number_of_orders
                    == rec.mbp_info@[i].number_of_orders
            &&& forall|i: int|
                0 <= i < sc ==> (#[trigger] r.market_depth_info@[bc + i]).qty == rec.mbp_info@[
                    MAX_BUY_SELL_DEPTH_IDX + i].qty as i64 && r.market_depth_info@[bc + i].price
                    == rec.mbp_info@[MAX_BUY_SELL_DEPTH_IDX + i].price && r.market_depth_info@[bc
                    + i].number_of_orders == rec.mbp_info@[MAX_BUY_SELL_DEPTH_IDX
                    + i].number_of_orders
            &&& forall|i: int|
                bc + sc <= i < MAX_MARKET_DEPTH_IDX ==> (#[trigger] r.market_depth_info@[i]).qty
                    == 0 && r.market_depth_info@[i].price == 0
                    && r.market_depth_info@[i].number_of_orders == 0
            &&& new_size == TAG_PICTURE_BASE_LEN + TAG_DEPTH_ROW_LEN * (bc + sc)
    })
}

#[verifier::rlimit(100)]
pub fn convert_only_mbp_cedtc(src: &crate::neq::BcastOnlyMBPCEDTC, packet_size: &mut usize, now_us: u64) -> (r:
    TagMarketPictureBroadcast)
    requires
        src.wf(),
        0 <= src.no_of_records < MAX_MBP_DATA_IDX as i16,
    ensures
        r.wf(),
        spec_convert_only_mbp_cedtc_ok(*src, r, now_us, *final(packet_size) as int),
{
    let rec = &src.mbp_data[src.no_of_records as usize];
    let hdr = &src.bcast_header;
    let header = TagMessageHeader {
        message_code: hdr.trans_code as i32,
        transaction_type: 0,
        log_time: hdr.log_time,
        alpha_char: crate::bytesio::read_bytes(hdr.alpha_char.as_slice(), 0, 2),
        trader_id: hdr.bc_seq_no,
        error_code: hdr.error_code,
        timestamp: now_us,
        timestamp1: crate::bytesio::read_bytes(hdr.time_stamp2.as_slice(), 0, 8),
        timestamp2: crate::bytesio::read_bytes(hdr.time_stamp2.as_slice(), 0, 8),
        message_length: hdr.message_length,
    };
    proof {
        assert(hdr.alpha_char@.subrange(0, 2) =~= hdr.alpha_char@);
        assert(hdr.time_stamp2@.subrange(0, 8) =~= hdr.time_stamp2@);
    }

    let collected = collect_depth_rows_cedtc(&rec.mbp_info);
    let mdi = collected.0;
    let bc = collected.1;
    let sc = collected.2;

    *packet_size = TAG_PICTURE_BASE_LEN + TAG_DEPTH_ROW_LEN * (bc + sc);

    TagMarketPictureBroadcast {
        msg_header: header,
        token: rec.token as i64,
        total_buy_qty: rec.total_buy_quantity,
        total_sell_qty: rec.total_sell_quantity,
        volume_traded_today: rec.volume_traded_today,
        open_price: rec.open_price,
        close_price: rec.closing_price,
        high_price: rec.high_price,
        low_price: rec.low_price,
        ltp: rec.last_traded_price,
        ltq: rec.last_trade_quantity,
        ltt: rec.last_trade_time,
        atp: rec.average_trade_price,
        indicative_close_price: 0,
        lut: hdr.log_time as i64,
        buy_depth_count: bc as i32,
        sell_depth_count: sc as i32,
        trading_status: rec.trading_status,
        market_depth_info: mdi,
    }
}

/// Instrument token of the `idx`-th record of a depth message, read at the
/// record layout's fixed offset for the exchange.
pub fn get_token(exchange: Exchange, trans_code: i16, buf: &[u8], idx: usize) -> (token: i32)
    requires
        buf@.len() >= BUF_SIZE,
        idx < MAX_MBP_DATA_IDX,
    ensures
        token as int == spec_token(exchange, trans_code, buf@, idx as int),
{
    let n: usize = buf.len();
    if exchange == Exchange::NEQ {
        if trans_code == BCAST_MBO_MBP {
            read_i32_be(buf, SKIP_BYTES + NSE_HEADER_SIZE)
        } else if trans_code == BCAST_ONLY_MBP {
            read_i32_be(
                buf,
                SKIP_BYTES + NSE_HEADER_SIZE + 2 + idx
                    * crate::neq::BCAST_INTERACTIVE_MBP_DATA_CEDTC_SIZE,
            )
        } else if trans_code == BCAST_ONLY_MBP_EQ {
            read_i32_be(
                buf,
                SKIP_BYTES + NSE_HEADER_SIZE + 2 + idx * crate::neq::BCAST_INTERACTIVE_MBP_DATA_SIZE,
            )
        } else {
            0
        }
    } else {
        if trans_code == BCAST_MBO_MBP {
            read_i32_be(buf, SKIP_BYTES + NSE_HEADER_SIZE)
        } else {
            read_i32_be(
                buf,
                SKIP_BYTES + NSE_HEADER_SIZE + 2 + idx * crate::nfo::BCAST_INTERACTIVE_MBP_DATA_SIZE,
            )
        }
    }
}

/// Where `get_token` reads, and what it yields, per exchange and record
/// type.
pub open spec fn spec_token(exchange: Exchange, trans_code: i16, s: Seq<u8>, idx: int) -> int {
    let base = SKIP_BYTES + NSE_HEADER_SIZE;
    if exchange == Exchange::NEQ {
        if trans_code == BCAST_MBO_MBP {
            to_signed(be_bytes(s, base as int, 4), 4)
        } else if trans_code == BCAST_ONLY_MBP {
            to_signed(
                be_bytes(s, base + 2 + idx * crate::neq::BCAST_INTERACTIVE_MBP_DATA_CEDTC_SIZE, 4),
                4,
            )
        } else if trans_code == BCAST_ONLY_MBP_EQ {
            to_signed(
                be_bytes(s, base + 2 + idx * crate::neq::BCAST_INTERACTIVE_MBP_DATA_SIZE, 4),
                4,
            )
        } else {
            0
        }
    } else {
        if trans_code == BCAST_MBO_MBP {
            to_signed(be_bytes(s, base as int, 4), 4)
        } else {
            to_signed(
                be_bytes(s, base + 2 + idx * crate::nfo::BCAST_INTERACTIVE_MBP_DATA_SIZE, 4),
                4,
            )
        }
    }
}


/// The inner-message bytes of a packet, after the transport framing.
pub open spec fn spec_nse_sub(s: Seq<u8>) -> Seq<u8> {
    s.subrange(SKIP_BYTES as int, BUF_SIZE as int)
}

/// The inner message's transaction code.
pub open spec fn spec_nse_trans_code(s: Seq<u8>) -> i16 {
    to_signed(be_bytes(s, SKIP_BYTES + 10, 2), 2) as i16
}

/// The packet bytes after a finished picture replaces the buffer.
pub open spec fn spec_picture_packet(pic: TagMarketPictureBroadcast, outp: Packet) -> bool {
    outp.data@ == pic.spec_ser().take(BUF_SIZE as int) && outp.len as int <= BUF_SIZE
}

/// What processing one equity inner message does to the packet: the three
/// depth record kinds become a serialized normalized picture; anything
/// else leaves the packet as it came.
pub open spec fn spec_neq_processed(inp: Packet, outp: Packet, now: u64) -> bool {
    let sub = spec_nse_sub(inp.data@);
    let tc = spec_nse_trans_code(inp.data@);
    if !crate::neq::spec_neq_known(tc) || sub.len() < crate::neq::spec_neq_size(tc) {
        outp == inp
    } else if tc == BCAST_MBO_MBP {
        exists|m: crate::neq::BcastMBOMBP, pic: TagMarketPictureBroadcast|
            #![trigger m.parsed_from(sub, 0), pic.spec_ser()]
            m.wf() && m.parsed_from(sub, 0) && pic.wf() && spec_convert_mbo_mbp_eq_ok(
                m,
                pic,
                now,
                outp.len as int,
            ) && spec_picture_packet(pic, outp)
    } else if tc == BCAST_ONLY_MBP {
        exists|m: crate::neq::BcastOnlyMBPCEDTC|
            #![trigger m.parsed_from(sub, 0)]
            m.wf() && m.parsed_from(sub, 0) && (if 0 <= m.no_of_records
                < MAX_MBP_DATA_IDX as i16 {
                exists|pic: TagMarketPictureBroadcast|
                    #![trigger pic.spec_ser()]
                    pic.wf() && spec_convert_only_mbp_cedtc_ok(m, pic, now, outp.len as int)
                        && spec_picture_packet(pic, outp)
            } else {
                outp == inp
            })
    } else {
        exists|m: crate::neq::BcastOnlyMBP|
            #![trigger m.parsed_from(sub, 0)]
            m.wf() && m.parsed_from(sub, 0) && (if 0 <= m.no_of_records
                < MAX_MBP_DATA_IDX as i16 {
                exists|pic: TagMarketPictureBroadcast|
                    #![trigger pic.spec_ser()]
                    pic.wf() && spec_convert_only_mbp_eq_ok(m, pic, now, outp.len as int)
                        && spec_picture_packet(pic, outp)
            } else {
                outp == inp
            })
    }
}

/// What processing one futures-and-options inner message does to the
/// packet.
pub open spec fn spec_nfo_processed(inp: Packet, outp: Packet, now: u64) -> bool {
    let sub = spec_nse_sub(inp.data@);
    let tc = spec_nse_trans_code(inp.data@);
    if !crate::nfo::spec_nfo_known(tc) || sub.len() < crate::nfo::spec_nfo_size(tc) {
        outp == inp
    } else if tc == BCAST_MBO_MBP {
        exists|m: crate::nfo::BcastMBOMBP, pic: TagMarketPictureBroadcast|
            #![trigger m.parsed_from(sub, 0), pic.spec_ser()]
            m.wf() && m.parsed_from(sub, 0) && pic.wf() && spec_convert_mbo_mbp_ok(
                m,
                pic,
                now,
                outp.len as int,
            ) && spec_picture_packet(pic, outp)
    } else if tc == BCAST_ONLY_MBP {
        exists|m: crate::nfo::BcastOnlyMBP|
            #![trigger m.parsed_from(sub, 0)]
            m.wf() && m.parsed_from(sub, 0) && (if 0 <= m.no_of_records
                < MAX_MBP_DATA_IDX as i16 {
                exists|pic: TagMarketPictureBroadcast|
                    #![trigger pic.spec_ser()]
                    pic.wf() && spec_convert_only_mbp_ok(m, pic, now, outp.len as int)
                        && spec_picture_packet(pic, outp)
            } else {
                outp == inp
            })
    } else {
        // A recognized non-depth record passes through as it came.
        outp == inp
    }
}

/// What processing one currency-derivatives inner message does to the
/// packet; the depth records share the futures-and-options layout.
pub open spec fn spec_ncd_processed(inp: Packet, outp: Packet, now: u64) -> bool {
    let sub = spec_nse_sub(inp.data@);
    let tc = spec_nse_trans_code(inp.data@);
    if !crate::ncd::spec_ncd_known(tc) || sub.len() < crate::ncd::spec_ncd_size(tc) {
        outp == inp
    } else if tc == BCAST_MBO_MBP {
        exists|m: crate::nfo::BcastMBOMBP, pic: TagMarketPictureBroadcast|
            #![trigger m.parsed_from(sub, 0), pic.spec_ser()]
            m.wf() && m.parsed_from(sub, 0) && pic.wf() && spec_convert_mbo_mbp_ok(
                m,
                pic,
                now,
                outp.len as int,
            ) && spec_picture_packet(pic, outp)
    } else if tc == BCAST_ONLY_MBP {
        exists|m: crate::nfo::BcastOnlyMBP|
            #![trigger m.parsed_from(sub, 0)]
            m.wf() && m.parsed_from(sub, 0) && (if 0 <= m.no_of_records
                < MAX_MBP_DATA_IDX as i16 {
                exists|pic: TagMarketPictureBroadcast|
                    #![trigger pic.spec_ser()]
                    pic.wf() && spec_convert_only_mbp_ok(m, pic, now, outp.len as int)
                        && spec_picture_packet(pic, outp)
            } else {
                outp == inp
            })
    } else {
        outp == inp
    }
}

/// Replaces the packet's buffer with the serialized picture, and its valid
/// length with the picture's serialized length.
pub fn install_picture(packet: &mut Packet, pic: &TagMarketPictureBroadcast, new_len: usize)
    requires
        old(packet).wf(),
        pic.wf(),
        new_len <= BUF_SIZE,
    ensures
        final(packet).wf(),
        final(packet).len == new_len,
        final(packet).data@ == pic.spec_ser().take(BUF_SIZE as int),
{
    let bytes = pic.to_bytes_vec();
    proof {
        pic.lemma_ser_len();
    }
    let mut p = Packet::from_bytes(bytes.as_slice());
    p.len = new_len;
    proof {
        assert(p.data@ =~= pic.spec_ser().take(BUF_SIZE as int));
    }
    *packet = p;
}

/// Processes one equity inner message in place; always reports the packet
/// as handled, as a drop is a terminal state for it.
pub fn cast_and_twiddle_neq(packet: &mut Packet, now_us: u64) -> (r: bool)
    requires
        old(packet).wf(),
    ensures
        r,
        final(packet).wf(),
        spec_neq_processed(*old(packet), *final(packet), now_us),
{
    let sub = crate::bytesio::read_bytes(packet.data.as_slice(), SKIP_BYTES, BUF_SIZE - SKIP_BYTES);
    let tc = crate::neq::BcastHeaders::get_trans_code(packet.data.as_slice());
    let built = crate::neq::build_neq_struct(tc, sub.as_slice());
    match built {
        Some(msg) => {
            match msg {
                crate::neq::NeqBroadcastTransactionMapping::BcastMboMbpCedtc(m) => {
                    let mut sz: usize = 0;
                    let pic = convert_mbo_mbp_eq(&m, &mut sz, now_us);
                    proof {
                        lemma_nz_neq_bound(m.mbp_info@, 0, MAX_BUY_SELL_DEPTH_IDX as int);
                        lemma_nz_neq_bound(
                            m.mbp_info@,
                            MAX_BUY_SELL_DEPTH_IDX as int,
                            MAX_BUY_SELL_DEPTH_IDX as int,
                        );
                    }
                    install_picture(packet, &pic, sz);
                },
                crate::neq::NeqBroadcastTransactionMapping::BcastOnlyMbpCedtc(m) => {
                    if 0 <= m.no_of_records && m.no_of_records < MAX_MBP_DATA_IDX as i16 {
                        let mut sz: usize = 0;
                        let pic = convert_only_mbp_cedtc(&m, &mut sz, now_us);
                        proof {
                            lemma_nz_cedtc_bound(m.mbp_data@[m.no_of_records as int].mbp_info@, 0, MAX_BUY_SELL_DEPTH_IDX as int);
                            lemma_nz_cedtc_bound(m.mbp_data@[m.no_of_records as int].mbp_info@, MAX_BUY_SELL_DEPTH_IDX as int, MAX_BUY_SELL_DEPTH_IDX as int);
                        }
                        install_picture(packet, &pic, sz);
                    }
                },
                crate::neq::NeqBroadcastTransactionMapping::BcastOnlyMbp(m) => {
                    if 0 <= m.no_of_records && m.no_of_records < MAX_MBP_DATA_IDX as i16 {
                        let mut sz: usize = 0;
                        let pic = convert_only_mbp_eq(&m, &mut sz, now_us);
                        proof {
                            lemma_nz_neq_bound(m.mbp_data@[m.no_of_records as int].mbp_info@, 0, MAX_BUY_SELL_DEPTH_IDX as int);
                            lemma_nz_neq_bound(m.mbp_data@[m.no_of_records as int].mbp_info@, MAX_BUY_SELL_DEPTH_IDX as int, MAX_BUY_SELL_DEPTH_IDX as int);
                        }
                        install_picture(packet, &pic, sz);
                    }
                },
            }
        },
        None => {},
    }
    true
}

/// Processes one futures-and-options inner message in place.
pub fn cast_and_twiddle_nfo(packet: &mut Packet, now_us: u64) -> (r: bool)
    requires
        old(packet).wf(),
    ensures
        r,
        final(packet).wf(),
        spec_nfo_processed(*old(packet), *final(packet), now_us),
{
    let sub = crate::bytesio::read_bytes(packet.data.as_slice(), SKIP_BYTES, BUF_SIZE - SKIP_BYTES);
    let tc = crate::neq::BcastHeaders::get_trans_code(packet.data.as_slice());
    let built = crate::nfo::build_nfo_struct(tc, sub.as_slice());
    match built {
        Some(msg) => {
            match msg {
                crate::nfo::NfoBroadcastTransactionMapping::BcastMboMbpUpdate(m) => {
                    let mut sz: usize = 0;
                    let pic = convert_mbo_mbp(&m, &mut sz, now_us);
                    proof {
                        lemma_nz_nfo_bound(m.mbp_info@, 0, MAX_BUY_SELL_DEPTH_IDX as int);
                        lemma_nz_nfo_bound(
                            m.mbp_info@,
                            MAX_BUY_SELL_DEPTH_IDX as int,
                            MAX_BUY_SELL_DEPTH_IDX as int,
                        );
                    }
                    install_picture(packet, &pic, sz);
                },
                crate::nfo::NfoBroadcastTransactionMapping::BcastOnlyMbp(m) => {
                    if 0 <= m.no_of_records && m.no_of_records < MAX_MBP_DATA_IDX as i16 {
                        let mut sz: usize = 0;
                        let pic = convert_only_mbp(&m, &mut sz, now_us);
                        proof {
                            lemma_nz_nfo_bound(m.mbp_data@[m.no_of_records as int].mbp_info@, 0, MAX_BUY_SELL_DEPTH_IDX as int);
                            lemma_nz_nfo_bound(m.mbp_data@[m.no_of_records as int].mbp_info@, MAX_BUY_SELL_DEPTH_IDX as int, MAX_BUY_SELL_DEPTH_IDX as int);
                        }
                        install_picture(packet, &pic, sz);
                    }
                },
                crate::nfo::NfoBroadcastTransactionMapping::BcastCircuitCheck(_) => {},
            }
        },
        None => {},
    }
    true
}

/// Processes one currency-derivatives inner message in place.
pub fn cast_and_twiddle_ncd(packet: &mut Packet, now_us: u64) -> (r: bool)
    requires
        old(packet).wf(),
    ensures
        r,
        final(packet).wf(),
        spec_ncd_processed(*old(packet), *final(packet), now_us),
{
    let sub = crate::bytesio::read_bytes(packet.data.as_slice(), SKIP_BYTES, BUF_SIZE - SKIP_BYTES);
    let tc = crate::neq::BcastHeaders::get_trans_code(packet.data.as_slice());
    let built = crate::ncd::build_ncd_struct(tc, sub.as_slice());
    match built {
        Some(msg) => {
            match msg {
                crate::ncd::NcdBroadcastTransactionMapping::BcastMboMbpUpdate(m) => {
                    let mut sz: usize = 0;
                    let pic = convert_mbo_mbp(&m, &mut sz, now_us);
                    proof {
                        lemma_nz_nfo_bound(m.mbp_info@, 0, MAX_BUY_SELL_DEPTH_IDX as int);
                        lemma_nz_nfo_bound(
                            m.mbp_info@,
                            MAX_BUY_SELL_DEPTH_IDX as int,
                            MAX_BUY_SELL_DEPTH_IDX as int,
                        );
                    }
                    install_picture(packet, &pic, sz);
                },
                crate::ncd::NcdBroadcastTransactionMapping::BcastOnlyMbp(m) => {
                    if 0 <= m.no_of_records && m.no_of_records < MAX_MBP_DATA_IDX as i16 {
                        let mut sz: usize = 0;
                        let pic = convert_only_mbp(&m, &mut sz, now_us);
                        proof {
                            lemma_nz_nfo_bound(m.mbp_data@[m.no_of_records as int].mbp_info@, 0, MAX_BUY_SELL_DEPTH_IDX as int);
                            lemma_nz_nfo_bound(m.mbp_data@[m.no_of_records as int].mbp_info@, MAX_BUY_SELL_DEPTH_IDX as int, MAX_BUY_SELL_DEPTH_IDX as int);
                        }
                        install_picture(packet, &pic, sz);
                    }
                },
                crate::ncd::NcdBroadcastTransactionMapping::BcastAssetUpdtIntRateChg(_) => {},
                crate::ncd::NcdBroadcastTransactionMapping::BcastCircuitCheck(_) => {},
                crate::ncd::NcdBroadcastTransactionMapping::BcastCurrencyAssets(_) => {},
                crate::ncd::NcdBroadcastTransactionMapping::BcastTradeExecutionRange(_) => {},
            }
        },
        None => {},
    }
    true
}

} // verus!
