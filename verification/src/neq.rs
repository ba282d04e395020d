//! NSE equity broadcast record codec: the depth records the pipeline
//! reconstructs pictures from, each field read at its fixed big-endian wire
//! offset, together with the header accessors the distributor classifies by.

use vstd::prelude::*;

use crate::bytesio::{be_bytes, to_signed, read_u8, read_u16_be, read_i16_be, read_u32_be,
    read_i32_be, read_u64_be, read_i64_be, read_bytes};
use crate::fp::{spec_f64_field, f64_field};
use crate::constants::SKIP_BYTES;

verus! {

pub const BCAST_HEADERS_SIZE: usize = 40;

#[derive(Clone)]
pub struct BcastHeaders {
    pub reserved1: Vec<u8>,
    pub log_time: i32,
    pub alpha_char: Vec<u8>,
    pub trans_code: i16,
    pub error_code: i16,
    pub bc_seq_no: i32,
    pub reserved2: Vec<u8>,
    pub time_stamp2: Vec<u8>,
    pub filler2: Vec<u8>,
    pub message_length: i16,
}

impl BcastHeaders {
    pub open spec fn wf(self) -> bool {
        &&& self.reserved1@.len() == 4
        &&& self.alpha_char@.len() == 2
        &&& self.reserved2@.len() == 4
        &&& self.time_stamp2@.len() == 8
        &&& self.filler2@.len() == 8
    }

    /// Exactly which big-endian wire bytes each field was read from.
    pub open spec fn parsed_from(self, s: Seq<u8>, off: int) -> bool {
        &&& self.reserved1@ == s.subrange(off + 0, off + 0 + 4)
        &&& self.log_time as int == to_signed(be_bytes(s, off + 4, 4), 4)
        &&& self.alpha_char@ == s.subrange(off + 8, off + 8 + 2)
        &&& self.trans_code as int == to_signed(be_bytes(s, off + 10, 2), 2)
        &&& self.error_code as int == to_signed(be_bytes(s, off + 12, 2), 2)
        &&& self.bc_seq_no as int == to_signed(be_bytes(s, off + 14, 4), 4)
        &&& self.reserved2@ == s.subrange(off + 18, off + 18 + 4)
        &&& self.time_stamp2@ == s.subrange(off + 22, off + 22 + 8)
        &&& self.filler2@ == s.subrange(off + 30, off + 30 + 8)
        &&& self.message_length as int == to_signed(be_bytes(s, off + 38, 2), 2)
    }

    #[verifier::rlimit(100)]
    pub fn from_bytes(buf: &[u8], off: usize) -> (r: Self)
        requires
            off + BCAST_HEADERS_SIZE <= buf@.len(),
        ensures
            r.parsed_from(buf@, off as int),
            r.wf(),
    {
        let n: usize = buf.len();
        let reserved1 = read_bytes(buf, off + 0, 4);
        let log_time = read_i32_be(buf, off + 4);
        let alpha_char = read_bytes(buf, off + 8, 2);
        let trans_code = read_i16_be(buf, off + 10);
        let error_code = read_i16_be(buf, off + 12);
        let bc_seq_no = read_i32_be(buf, off + 14);
        let reserved2 = read_bytes(buf, off + 18, 4);
        let time_stamp2 = read_bytes(buf, off + 22, 8);
        let filler2 = read_bytes(buf, off + 30, 8);
        let message_length = read_i16_be(buf, off + 38);
        BcastHeaders {
            reserved1,
            log_time,
            alpha_char,
            trans_code,
            error_code,
            bc_seq_no,
            reserved2,
            time_stamp2,
            filler2,
            message_length,
        }
    }
}

pub const BCAST_MBO_MBP_TERMS_SIZE: usize = 4;

#[derive(Clone, Copy)]
pub struct BcastMBOMBPTerms {
    pub mf: u8,
    pub aon: u8,
    pub reserved1: u8,
    pub reserved: u8,
}

impl BcastMBOMBPTerms {
    pub open spec fn wf(self) -> bool {
        true
    }

    /// Exactly which big-endian wire bytes each field was read from.
    pub open spec fn parsed_from(self, s: Seq<u8>, off: int) -> bool {
        &&& self.mf == s[off + 0]
        &&& self.aon == s[off + 1]
        &&& self.reserved1 == s[off + 2]
        &&& self.reserved == s[off + 3]
    }

    #[verifier::rlimit(100)]
    pub fn from_bytes(buf: &[u8], off: usize) -> (r: Self)
        requires
            off + BCAST_MBO_MBP_TERMS_SIZE <= buf@.len(),
        ensures
            r.parsed_from(buf@, off as int),
            r.wf(),
    {
        let n: usize = buf.len();
        let mf = read_u8(buf, off + 0);
        let aon = read_u8(buf, off + 1);
        let reserved1 = read_u8(buf, off + 2);
        let reserved = read_u8(buf, off + 3);
        BcastMBOMBPTerms {
            mf,
            aon,
            reserved1,
            reserved,
        }
    }
}

pub const BCAST_MBO_INFO_SIZE: usize = 20;

#[derive(Clone, Copy)]
pub struct BcastMBOInfo {
    pub trader_id: i32,
    pub qty: i32,
    pub price: i32,
    pub mbombp_terms: BcastMBOMBPTerms,
    pub min_fill_qty: i32,
}

impl BcastMBOInfo {
    pub open spec fn wf(self) -> bool {
        &&& self.mbombp_terms.wf()
    }

    /// Exactly which big-endian wire bytes each field was read from.
    pub open spec fn parsed_from(self, s: Seq<u8>, off: int) -> bool {
        &&& self.trader_id as int == to_signed(be_bytes(s, off + 0, 4), 4)
        &&& self.qty as int == to_signed(be_bytes(s, off + 4, 4), 4)
        &&& self.price as int == to_signed(be_bytes(s, off + 8, 4), 4)
        &&& self.mbombp_terms.parsed_from(s, off + 12)
        &&& self.min_fill_qty as int == to_signed(be_bytes(s, off + 16, 4), 4)
    }

    #[verifier::rlimit(100)]
    pub fn from_bytes(buf: &[u8], off: usize) -> (r: Self)
        requires
            off + BCAST_MBO_INFO_SIZE <= buf@.len(),
        ensures
            r.parsed_from(buf@, off as int),
            r.wf(),
    {
        let n: usize = buf.len();
        let trader_id = read_i32_be(buf, off + 0);
        let qty = read_i32_be(buf, off + 4);
        let price = read_i32_be(buf, off + 8);
        let mbombp_terms = BcastMBOMBPTerms::from_bytes(buf, off + 12);
        let min_fill_qty = read_i32_be(buf, off + 16);
        BcastMBOInfo {
            trader_id,
            qty,
            price,
            mbombp_terms,
            min_fill_qty,
        }
    }
}

pub const BCAST_MBP_INFO_SIZE: usize = 12;

#[derive(Clone, Copy)]
pub struct BcastMBPInfo {
    pub qty: u32,
    pub price: i32,
    pub number_of_orders: i16,
    pub bb_buy_sell_flag: i16,
}

impl BcastMBPInfo {
    pub open spec fn wf(self) -> bool {
        true
    }

    /// Exactly which big-endian wire bytes each field was read from.
    pub open spec fn parsed_from(self, s: Seq<u8>, off: int) -> bool {
        &&& self.qty as int == be_bytes(s, off + 0, 4)
        &&& self.price as int == to_signed(be_bytes(s, off + 4, 4), 4)
        &&& self.number_of_orders as int == to_signed(be_bytes(s, off + 8, 2), 2)
        &&& self.bb_buy_sell_flag as int == to_signed(be_bytes(s, off + 10, 2), 2)
    }

    #[verifier::rlimit(100)]
    pub fn from_bytes(buf: &[u8], off: usize) -> (r: Self)
        requires
            off + BCAST_MBP_INFO_SIZE <= buf@.len(),
        ensures
            r.parsed_from(buf@, off as int),
            r.wf(),
    {
        let n: usize = buf.len();
        let qty = read_u32_be(buf, off + 0);
        let price = read_i32_be(buf, off + 4);
        let number_of_orders = read_i16_be(buf, off + 8);
        let bb_buy_sell_flag = read_i16_be(buf, off + 10);
        BcastMBPInfo {
            qty,
            price,
            number_of_orders,
            bb_buy_sell_flag,
        }
    }
}

pub const BCAST_MBP_INFO_CEDTC_SIZE: usize = 16;

#[derive(Clone, Copy)]
pub struct BcastMBPInfoCEDTC {
    pub qty: i64,
    pub price: i32,
    pub number_of_orders: i16,
    pub bb_buy_sell_flag: i16,
}

impl BcastMBPInfoCEDTC {
    pub open spec fn wf(self) -> bool {
        true
    }

    /// Exactly which big-endian wire bytes each field was read from.
    pub open spec fn parsed_from(self, s: Seq<u8>, off: int) -> bool {
        &&& self.qty as int == to_signed(be_bytes(s, off + 0, 8), 8)
        &&& self.price as int == to_signed(be_bytes(s, off + 8, 4), 4)
        &&& self.number_of_orders as int == to_signed(be_bytes(s, off + 12, 2), 2)
        &&& self.bb_buy_sell_flag as int == to_signed(be_bytes(s, off + 14, 2), 2)
    }

    #[verifier::rlimit(100)]
    pub fn from_bytes(buf: &[u8], off: usize) -> (r: Self)
        requires
            off + BCAST_MBP_INFO_CEDTC_SIZE <= buf@.len(),
        ensures
            r.parsed_from(buf@, off as int),
            r.wf(),
    {
        let n: usize = buf.len();
        let qty = read_i64_be(buf, off + 0);
        let price = read_i32_be(buf, off + 8);
        let number_of_orders = read_i16_be(buf, off + 12);
        let bb_buy_sell_flag = read_i16_be(buf, off + 14);
        BcastMBPInfoCEDTC {
            qty,
            price,
            number_of_orders,
            bb_buy_sell_flag,
        }
    }
}

pub const BCAST_MBP_INDICATOR_SIZE: usize = 6;

#[derive(Clone, Copy)]
pub struct BcastMBPIndicator {
    pub last_trade_more: u8,
    pub last_trade_less: u8,
    pub buy: u8,
    pub sell: u8,
    pub reserved1: u8,
    pub reserved2: u8,
}

impl BcastMBPIndicator {
    pub open spec fn wf(self) -> bool {
        true
    }

    /// Exactly which big-endian wire bytes each field was read from.
    pub open spec fn parsed_from(self, s: Seq<u8>, off: int) -> bool {
        &&& self.last_trade_more == s[off + 0]
        &&& self.last_trade_less == s[off + 1]
        &&& self.buy == s[off + 2]
        &&& self.sell == s[off + 3]
        &&& self.reserved1 == s[off + 4]
        &&& self.reserved2 == s[off + 5]
    }

    #[verifier::rlimit(100)]
    pub fn from_bytes(buf: &[u8], off: usize) -> (r: Self)
        requires
            off + BCAST_MBP_INDICATOR_SIZE <= buf@.len(),
        ensures
            r.parsed_from(buf@, off as int),
            r.wf(),
    {
        let n: usize = buf.len();
        let last_trade_more = read_u8(buf, off + 0);
        let last_trade_less = read_u8(buf, off + 1);
        let buy = read_u8(buf, off + 2);
        let sell = read_u8(buf, off + 3);
        let reserved1 = read_u8(buf, off + 4);
        let reserved2 = read_u8(buf, off + 5);
        BcastMBPIndicator {
            last_trade_more,
            last_trade_less,
            buy,
            sell,
            reserved1,
            reserved2,
        }
    }
}

pub const BCAST_MBO_MBP_INDICATOR_SIZE: usize = 6;

#[derive(Clone, Copy)]
pub struct BcastMBOMBPIndicator {
    pub last_trade_more: u8,
    pub last_trade_less: u8,
    pub buy: u8,
    pub sell: u8,
    pub reserved1: u8,
    pub reserved2: u8,
}

impl BcastMBOMBPIndicator {
    pub open spec fn wf(self) -> bool {
        true
    }

    /// Exactly which big-endian wire bytes each field was read from.
    pub open spec fn parsed_from(self, s: Seq<u8>, off: int) -> bool {
        &&& self.last_trade_more == s[off + 0]
        &&& self.last_trade_less == s[off + 1]
        &&& self.buy == s[off + 2]
        &&& self.sell == s[off + 3]
        &&& self.reserved1 == s[off + 4]
        &&& self.reserved2 == s[off + 5]
    }

    #[verifier::rlimit(100)]
    pub fn from_bytes(buf: &[u8], off: usize) -> (r: Self)
        requires
            off + BCAST_MBO_MBP_INDICATOR_SIZE <= buf@.len(),
        ensures
            r.parsed_from(buf@, off as int),
            r.wf(),
    {
        let n: usize = buf.len();
        let last_trade_more = read_u8(buf, off + 0);
        let last_trade_less = read_u8(buf, off + 1);
        let buy = read_u8(buf, off + 2);
        let sell = read_u8(buf, off + 3);
        let reserved1 = read_u8(buf, off + 4);
        let reserved2 = read_u8(buf, off + 5);
        BcastMBOMBPIndicator {
            last_trade_more,
            last_trade_less,
            buy,
            sell,
            reserved1,
            reserved2,
        }
    }
}

pub const BCAST_INTERACTIVE_MBO_DATA_SIZE: usize = 260;

#[derive(Clone)]
pub struct BcastInteractiveMBOData {
    pub token: i32,
    pub book_type: i16,
    pub trading_status: i16,
    pub volume_traded_today: i64,
    pub last_traded_price: i32,
    pub net_change_indicator: u8,
    pub filler: u8,
    pub net_price_change_from_closing_price: i32,
    pub last_trade_quantity: i32,
    pub last_trade_time: i32,
    pub average_trade_price: i32,
    pub auction_number: i16,
    pub auction_status: i16,
    pub initiator_type: i16,
    pub initiator_price: i32,
    pub initiator_quantity: i32,
    pub auction_price: i32,
    pub auction_quantity: i32,
    pub mbo_info: Vec<BcastMBOInfo>,
}

impl BcastInteractiveMBOData {
    pub open spec fn wf(self) -> bool {
        &&& self.mbo_info@.len() == 10
        &&& (forall|k: int| 0 <= k < 10 ==> (#[trigger] self.mbo_info@[k]).wf())
    }

    /// Exactly which big-endian wire bytes each field was read from.
    pub open spec fn parsed_from(self, s: Seq<u8>, off: int) -> bool {
        &&& self.token as int == to_signed(be_bytes(s, off + 0, 4), 4)
        &&& self.book_type as int == to_signed(be_bytes(s, off + 4, 2), 2)
        &&& self.trading_status as int == to_signed(be_bytes(s, off + 6, 2), 2)
        &&& self.volume_traded_today as int == to_signed(be_bytes(s, off + 8, 8), 8)
        &&& self.last_traded_price as int == to_signed(be_bytes(s, off + 16, 4), 4)
        &&& self.net_change_indicator == s[off + 20]
        &&& self.filler == s[off + 21]
        &&& self.net_price_change_from_closing_price as int == to_signed(be_bytes(s, off + 22, 4), 4)
        &&& self.last_trade_quantity as int == to_signed(be_bytes(s, off + 26, 4), 4)
        &&& self.last_trade_time as int == to_signed(be_bytes(s, off + 30, 4), 4)
        &&& self.average_trade_price as int == to_signed(be_bytes(s, off + 34, 4), 4)
        &&& self.auction_number as int == to_signed(be_bytes(s, off + 38, 2), 2)
        &&& self.auction_status as int == to_signed(be_bytes(s, off + 40, 2), 2)
        &&& self.initiator_type as int == to_signed(be_bytes(s, off + 42, 2), 2)
        &&& self.initiator_price as int == to_signed(be_bytes(s, off + 44, 4), 4)
        &&& self.initiator_quantity as int == to_signed(be_bytes(s, off + 48, 4), 4)
        &&& self.auction_price as int == to_signed(be_bytes(s, off + 52, 4), 4)
        &&& self.auction_quantity as int == to_signed(be_bytes(s, off + 56, 4), 4)
        &&& self.mbo_info@.len() == 10
        &&& (forall|k: int| 0 <= k < 10 ==> (#[trigger] self.mbo_info@[k]).parsed_from(s, off + 60 + k * 20))
    }

    #[verifier::rlimit(100)]
    pub fn from_bytes(buf: &[u8], off: usize) -> (r: Self)
        requires
            off + BCAST_INTERACTIVE_MBO_DATA_SIZE <= buf@.len(),
        ensures
            r.parsed_from(buf@, off as int),
            r.wf(),
    {
        let n: usize = buf.len();
        let token = read_i32_be(buf, off + 0);
        let book_type = read_i16_be(buf, off + 4);
        let trading_status = read_i16_be(buf, off + 6);
        let volume_traded_today = read_i64_be(buf, off + 8);
        let last_traded_price = read_i32_be(buf, off + 16);
        let net_change_indicator = read_u8(buf, off + 20);
        let filler = read_u8(buf, off + 21);
        let net_price_change_from_closing_price = read_i32_be(buf, off + 22);
        let last_trade_quantity = read_i32_be(buf, off + 26);
        let last_trade_time = read_i32_be(buf, off + 30);
        let average_trade_price = read_i32_be(buf, off + 34);
        let auction_number = read_i16_be(buf, off + 38);
        let auction_status = read_i16_be(buf, off + 40);
        let initiator_type = read_i16_be(buf, off + 42);
        let initiator_price = read_i32_be(buf, off + 44);
        let initiator_quantity = read_i32_be(buf, off + 48);
        let auction_price = read_i32_be(buf, off + 52);
        let auction_quantity = read_i32_be(buf, off + 56);
        let mut mbo_info: Vec<BcastMBOInfo> = Vec::new();
        let mut k_mbo_info: usize = 0;
        while k_mbo_info < 10
            invariant
                k_mbo_info <= 10,
                n == buf@.len(),
                off + BCAST_INTERACTIVE_MBO_DATA_SIZE <= n,
                mbo_info@.len() == k_mbo_info,
                forall|x: int| 0 <= x < k_mbo_info ==> (#[trigger] mbo_info@[x]).parsed_from(buf@, off + 60 + x * 20) && mbo_info@[x].wf(),
            decreases 10 - k_mbo_info,
        {
            mbo_info.push(BcastMBOInfo::from_bytes(buf, off + 60 + k_mbo_info * 20));
            k_mbo_info = k_mbo_info + 1;
        }
        BcastInteractiveMBOData {
            token,
            book_type,
            trading_status,
            volume_traded_today,
            last_traded_price,
            net_change_indicator,
            filler,
            net_price_change_from_closing_price,
            last_trade_quantity,
            last_trade_time,
            average_trade_price,
            auction_number,
            auction_status,
            initiator_type,
            initiator_price,
            initiator_quantity,
            auction_price,
            auction_quantity,
            mbo_info,
        }
    }
}

pub const BCAST_INTERACTIVE_MBP_DATA_SIZE: usize = 218;

#[derive(Clone)]
pub struct BcastInteractiveMBPData {
    pub token: i32,
    pub book_type: i16,
    pub trading_status: i16,
    pub volume_traded_today: u32,
    pub last_traded_price: i32,
    pub net_change_indicator: u8,
    pub filler: u8,
    pub net_price_change_from_closing_price: i32,
    pub last_trade_quantity: i32,
    pub last_trade_time: i32,
    pub average_trade_price: i32,
    pub auction_number: i16,
    pub auction_status: i16,
    pub initiator_type: i16,
    pub initiator_price: i32,
    pub initiator_quantity: i32,
    pub auction_price: i32,
    pub auction_quantity: i32,
    pub mbp_info: Vec<BcastMBPInfo>,
    pub bb_total_buy_flag: i16,
    pub bb_total_sell_flag: i16,
    pub lf_total_buy_quantity: i64,
    pub lf_total_sell_quantity: i64,
    pub mbp_indicator: BcastMBPIndicator,
    pub closing_price: i32,
    pub open_price: i32,
    pub high_price: i32,
    pub low_price: i32,
}

impl BcastInteractiveMBPData {
    pub open spec fn wf(self) -> bool {
        &&& self.mbp_info@.len() == 10
        &&& (forall|k: int| 0 <= k < 10 ==> (#[trigger] self.mbp_info@[k]).wf())
        &&& self.mbp_indicator.wf()
    }

    /// Exactly which big-endian wire bytes each field was read from.
    pub open spec fn parsed_from(self, s: Seq<u8>, off: int) -> bool {
        &&& self.token as int == to_signed(be_bytes(s, off + 0, 4), 4)
        &&& self.book_type as int == to_signed(be_bytes(s, off + 4, 2), 2)
        &&& self.trading_status as int == to_signed(be_bytes(s, off + 6, 2), 2)
        &&& self.volume_traded_today as int == be_bytes(s, off + 8, 4)
        &&& self.last_traded_price as int == to_signed(be_bytes(s, off + 12, 4), 4)
        &&& self.net_change_indicator == s[off + 16]
        &&& self.filler == s[off + 17]
        &&& self.net_price_change_from_closing_price as int == to_signed(be_bytes(s, off + 18, 4), 4)
        &&& self.last_trade_quantity as int == to_signed(be_bytes(s, off + 22, 4), 4)
        &&& self.last_trade_time as int == to_signed(be_bytes(s, off + 26, 4), 4)
        &&& self.average_trade_price as int == to_signed(be_bytes(s, off + 30, 4), 4)
        &&& self.auction_number as int == to_signed(be_bytes(s, off + 34, 2), 2)
        &&& self.auction_status as int == to_signed(be_bytes(s, off + 36, 2), 2)
        &&& self.initiator_type as int == to_signed(be_bytes(s, off + 38, 2), 2)
        &&& self.initiator_price as int == to_signed(be_bytes(s, off + 40, 4), 4)
        &&& self.initiator_quantity as int == to_signed(be_bytes(s, off + 44, 4), 4)
        &&& self.auction_price as int == to_signed(be_bytes(s, off + 48, 4), 4)
        &&& self.auction_quantity as int == to_signed(be_bytes(s, off + 52, 4), 4)
        &&& self.mbp_info@.len() == 10
        &&& (forall|k: int| 0 <= k < 10 ==> (#[trigger] self.mbp_info@[k]).parsed_from(s, off + 56 + k * 12))
        &&& self.bb_total_buy_flag as int == to_signed(be_bytes(s, off + 176, 2), 2)
        &&& self.bb_total_sell_flag as int == to_signed(be_bytes(s, off + 178, 2), 2)
        &&& self.lf_total_buy_quantity == spec_f64_field(s, off + 180)
        &&& self.lf_total_sell_quantity == spec_f64_field(s, off + 188)
        &&& self.mbp_indicator.parsed_from(s, off + 196)
        &&& self.closing_price as int == to_signed(be_bytes(s, off + 202, 4), 4)
        &&& self.open_price as int == to_signed(be_bytes(s, off + 206, 4), 4)
        &&& self.high_price as int == to_signed(be_bytes(s, off + 210, 4), 4)
        &&& self.low_price as int == to_signed(be_bytes(s, off + 214, 4), 4)
    }

    #[verifier::rlimit(100)]
    pub fn from_bytes(buf: &[u8], off: usize) -> (r: Self)
        requires
            off + BCAST_INTERACTIVE_MBP_DATA_SIZE <= buf@.len(),
        ensures
            r.parsed_from(buf@, off as int),
            r.wf(),
    {
        let n: usize = buf.len();
        let token = read_i32_be(buf, off + 0);
        let book_type = read_i16_be(buf, off + 4);
        let trading_status = read_i16_be(buf, off + 6);
        let volume_traded_today = read_u32_be(buf, off + 8);
        let last_traded_price = read_i32_be(buf, off + 12);
        let net_change_indicator = read_u8(buf, off + 16);
        let filler = read_u8(buf, off + 17);
        let net_price_change_from_closing_price = read_i32_be(buf, off + 18);
        let last_trade_quantity = read_i32_be(buf, off + 22);
        let last_trade_time = read_i32_be(buf, off + 26);
        let average_trade_price = read_i32_be(buf, off + 30);
        let auction_number = read_i16_be(buf, off + 34);
        let auction_status = read_i16_be(buf, off + 36);
        let initiator_type = read_i16_be(buf, off + 38);
        let initiator_price = read_i32_be(buf, off + 40);
        let initiator_quantity = read_i32_be(buf, off + 44);
        let auction_price = read_i32_be(buf, off + 48);
        let auction_quantity = read_i32_be(buf, off + 52);
        let mut mbp_info: Vec<BcastMBPInfo> = Vec::new();
        let mut k_mbp_info: usize = 0;
        while k_mbp_info < 10
            invariant
                k_mbp_info <= 10,
                n == buf@.len(),
                off + BCAST_INTERACTIVE_MBP_DATA_SIZE <= n,
                mbp_info@.len() == k_mbp_info,
                forall|x: int| 0 <= x < k_mbp_info ==> (#[trigger] mbp_info@[x]).parsed_from(buf@, off + 56 + x * 12) && mbp_info@[x].wf(),
            decreases 10 - k_mbp_info,
        {
            mbp_info.push(BcastMBPInfo::from_bytes(buf, off + 56 + k_mbp_info * 12));
            k_mbp_info = k_mbp_info + 1;
        }
        let bb_total_buy_flag = read_i16_be(buf, off + 176);
        let bb_total_sell_flag = read_i16_be(buf, off + 178);
        let lf_total_buy_quantity = f64_field(buf, off + 180);
        let lf_total_sell_quantity = f64_field(buf, off + 188);
        let mbp_indicator = BcastMBPIndicator::from_bytes(buf, off + 196);
        let closing_price = read_i32_be(buf, off + 202);
        let open_price = read_i32_be(buf, off + 206);
        let high_price = read_i32_be(buf, off + 210);
        let low_price = read_i32_be(buf, off + 214);
        BcastInteractiveMBPData {
            token,
            book_type,
            trading_status,
            volume_traded_today,
            last_traded_price,
            net_change_indicator,
            filler,
            net_price_change_from_closing_price,
            last_trade_quantity,
            last_trade_time,
            average_trade_price,
            auction_number,
            auction_status,
            initiator_type,
            initiator_price,
            initiator_quantity,
            auction_price,
            auction_quantity,
            mbp_info,
            bb_total_buy_flag,
            bb_total_sell_flag,
            lf_total_buy_quantity,
            lf_total_sell_quantity,
            mbp_indicator,
            closing_price,
            open_price,
            high_price,
            low_price,
        }
    }
}

pub const BCAST_MBO_MBP_SIZE: usize = 458;

#[derive(Clone)]
pub struct BcastMBOMBP {
    pub bcast_header: BcastHeaders,
    pub mbo_data: BcastInteractiveMBOData,
    pub mbp_info: Vec<BcastMBPInfo>,
    pub total_buy_qty: i64,
    pub total_sell_qty: i64,
    pub mbombp_indicator: BcastMBOMBPIndicator,
    pub closing_price: i32,
    pub open_price: i32,
    pub high_price: i32,
    pub low_price: i32,
}

impl BcastMBOMBP {
    pub open spec fn wf(self) -> bool {
        &&& self.bcast_header.wf()
        &&& self.mbo_data.wf()
        &&& self.mbp_info@.len() == 10
        &&& (forall|k: int| 0 <= k < 10 ==> (#[trigger] self.mbp_info@[k]).wf())
        &&& self.mbombp_indicator.wf()
    }

    /// Exactly which big-endian wire bytes each field was read from.
    pub open spec fn parsed_from(self, s: Seq<u8>, off: int) -> bool {
        &&& self.bcast_header.parsed_from(s, off + 0)
        &&& self.mbo_data.parsed_from(s, off + 40)
        &&& self.mbp_info@.len() == 10
        &&& (forall|k: int| 0 <= k < 10 ==> (#[trigger] self.mbp_info@[k]).parsed_from(s, off + 300 + k * 12))
        &&& self.total_buy_qty == spec_f64_field(s, off + 420)
        &&& self.total_sell_qty == spec_f64_field(s, off + 428)
        &&& self.mbombp_indicator.parsed_from(s, off + 436)
        &&& self.closing_price as int == to_signed(be_bytes(s, off + 442, 4), 4)
        &&& self.open_price as int == to_signed(be_bytes(s, off + 446, 4), 4)
        &&& self.high_price as int == to_signed(be_bytes(s, off + 450, 4), 4)
        &&& self.low_price as int == to_signed(be_bytes(s, off + 454, 4), 4)
    }

    #[verifier::rlimit(100)]
    pub fn from_bytes(buf: &[u8], off: usize) -> (r: Self)
        requires
            off + BCAST_MBO_MBP_SIZE <= buf@.len(),
        ensures
            r.parsed_from(buf@, off as int),
            r.wf(),
    {
        let n: usize = buf.len();
        let bcast_header = BcastHeaders::from_bytes(buf, off + 0);
        let mbo_data = BcastInteractiveMBOData::from_bytes(buf, off + 40);
        let mut mbp_info: Vec<BcastMBPInfo> = Vec::new();
        let mut k_mbp_info: usize = 0;
        while k_mbp_info < 10
            invariant
                k_mbp_info <= 10,
                n == buf@.len(),
                off + BCAST_MBO_MBP_SIZE <= n,
                mbp_info@.len() == k_mbp_info,
                forall|x: int| 0 <= x < k_mbp_info ==> (#[trigger] mbp_info@[x]).parsed_from(buf@, off + 300 + x * 12) && mbp_info@[x].wf(),
            decreases 10 - k_mbp_info,
        {
            mbp_info.push(BcastMBPInfo::from_bytes(buf, off + 300 + k_mbp_info * 12));
            k_mbp_info = k_mbp_info + 1;
        }
        let total_buy_qty = f64_field(buf, off + 420);
        let total_sell_qty = f64_field(buf, off + 428);
        let mbombp_indicator = BcastMBOMBPIndicator::from_bytes(buf, off + 436);
        let closing_price = read_i32_be(buf, off + 442);
        let open_price = read_i32_be(buf, off + 446);
        let high_price = read_i32_be(buf, off + 450);
        let low_price = read_i32_be(buf, off + 454);
        BcastMBOMBP {
            bcast_header,
            mbo_data,
            mbp_info,
            total_buy_qty,
            total_sell_qty,
            mbombp_indicator,
            closing_price,
            open_price,
            high_price,
            low_price,
        }
    }
}

pub const BCAST_ONLY_MBP_SIZE: usize = 478;

#[derive(Clone)]
pub struct BcastOnlyMBP {
    pub bcast_header: BcastHeaders,
    pub no_of_records: i16,
    pub mbp_data: Vec<BcastInteractiveMBPData>,
}

impl BcastOnlyMBP {
    pub open spec fn wf(self) -> bool {
        &&& self.bcast_header.wf()
        &&& self.mbp_data@.len() == 2
        &&& (forall|k: int| 0 <= k < 2 ==> (#[trigger] self.mbp_data@[k]).wf())
    }

    /// Exactly which big-endian wire bytes each field was read from.
    pub open spec fn parsed_from(self, s: Seq<u8>, off: int) -> bool {
        &&& self.bcast_header.parsed_from(s, off + 0)
        &&& self.no_of_records as int == to_signed(be_bytes(s, off + 40, 2), 2)
        &&& self.mbp_data@.len() == 2
        &&& (forall|k: int| 0 <= k < 2 ==> (#[trigger] self.mbp_data@[k]).parsed_from(s, off + 42 + k * 218))
    }

    #[verifier::rlimit(100)]
    pub fn from_bytes(buf: &[u8], off: usize) -> (r: Self)
        requires
            off + BCAST_ONLY_MBP_SIZE <= buf@.len(),
        ensures
            r.parsed_from(buf@, off as int),
            r.wf(),
    {
        let n: usize = buf.len();
        let bcast_header = BcastHeaders::from_bytes(buf, off + 0);
        let no_of_records = read_i16_be(buf, off + 40);
        let mut mbp_data: Vec<BcastInteractiveMBPData> = Vec::new();
        let mut k_mbp_data: usize = 0;
        while k_mbp_data < 2
            invariant
                k_mbp_data <= 2,
                n == buf@.len(),
                off + BCAST_ONLY_MBP_SIZE <= n,
                mbp_data@.len() == k_mbp_data,
                forall|x: int| 0 <= x < k_mbp_data ==> (#[trigger] mbp_data@[x]).parsed_from(buf@, off + 42 + x * 218) && mbp_data@[x].wf(),
            decreases 2 - k_mbp_data,
        {
            mbp_data.push(BcastInteractiveMBPData::from_bytes(buf, off + 42 + k_mbp_data * 218));
            k_mbp_data = k_mbp_data + 1;
        }
        BcastOnlyMBP {
            bcast_header,
            no_of_records,
            mbp_data,
        }
    }
}

pub const BCAST_INTERACTIVE_MBP_DATA_CEDTC_SIZE: usize = 266;

#[derive(Clone)]
pub struct BcastInteractiveMBPDataCEDTC {
    pub token: i32,
    pub book_type: i16,
    pub trading_status: i16,
    pub volume_traded_today: i64,
    pub last_traded_price: i32,
    pub net_change_indicator: u8,
    pub filler: u8,
    pub net_price_change_from_closing_price: i32,
    pub last_trade_quantity: i32,
    pub last_trade_time: i32,
    pub average_trade_price: i32,
    pub auction_number: i16,
    pub auction_status: i16,
    pub initiator_type: i16,
    pub initiator_price: i32,
    pub initiator_quantity: i32,
    pub auction_price: i32,
    pub auction_quantity: i32,
    pub mbp_info: Vec<BcastMBPInfoCEDTC>,
    pub bb_total_buy_flag: i16,
    pub bb_total_sell_flag: i16,
    pub total_buy_quantity: i64,
    pub total_sell_quantity: i64,
    pub mbp_indicator: BcastMBPIndicator,
    pub closing_price: i32,
    pub open_price: i32,
    pub high_price: i32,
    pub low_price: i32,
    pub indicative_closing_price: i32,
}

impl BcastInteractiveMBPDataCEDTC {
    pub open spec fn wf(self) -> bool {
        &&& self.mbp_info@.len() == 10
        &&& (forall|k: int| 0 <= k < 10 ==> (#[trigger] self.mbp_info@[k]).wf())
        &&& self.mbp_indicator.wf()
    }

    /// Exactly which big-endian wire bytes each field was read from.
    pub open spec fn parsed_from(self, s: Seq<u8>, off: int) -> bool {
        &&& self.token as int == to_signed(be_bytes(s, off + 0, 4), 4)
        &&& self.book_type as int == to_signed(be_bytes(s, off + 4, 2), 2)
        &&& self.trading_status as int == to_signed(be_bytes(s, off + 6, 2), 2)
        &&& self.volume_traded_today as int == to_signed(be_bytes(s, off + 8, 8), 8)
        &&& self.last_traded_price as int == to_signed(be_bytes(s, off + 16, 4), 4)
        &&& self.net_change_indicator == s[off + 20]
        &&& self.filler == s[off + 21]
        &&& self.net_price_change_from_closing_price as int == to_signed(be_bytes(s, off + 22, 4), 4)
        &&& self.last_trade_quantity as int == to_signed(be_bytes(s, off + 26, 4), 4)
        &&& self.last_trade_time as int == to_signed(be_bytes(s, off + 30, 4), 4)
        &&& self.average_trade_price as int == to_signed(be_bytes(s, off + 34, 4), 4)
        &&& self.auction_number as int == to_signed(be_bytes(s, off + 38, 2), 2)
        &&& self.auction_status as int == to_signed(be_bytes(s, off + 40, 2), 2)
        &&& self.initiator_type as int == to_signed(be_bytes(s, off + 42, 2), 2)
        &&& self.initiator_price as int == to_signed(be_bytes(s, off + 44, 4), 4)
        &&& self.initiator_quantity as int == to_signed(be_bytes(s, off + 48, 4), 4)
        &&& self.auction_price as int == to_signed(be_bytes(s, off + 52, 4), 4)
        &&& self.auction_quantity as int == to_signed(be_bytes(s, off + 56, 4), 4)
        &&& self.mbp_info@.len() == 10
        &&& (forall|k: int| 0 <= k < 10 ==> (#[trigger] self.mbp_info@[k]).parsed_from(s, off + 60 + k * 16))
        &&& self.bb_total_buy_flag as int == to_signed(be_bytes(s, off + 220, 2), 2)
        &&& self.bb_total_sell_flag as int == to_signed(be_bytes(s, off + 222, 2), 2)
        &&& self.total_buy_quantity as int == to_signed(be_bytes(s, off + 224, 8), 8)
        &&& self.total_sell_quantity as int == to_signed(be_bytes(s, off + 232, 8), 8)
        &&& self.mbp_indicator.parsed_from(s, off + 240)
        &&& self.closing_price as int == to_signed(be_bytes(s, off + 246, 4), 4)
        &&& self.open_price as int == to_signed(be_bytes(s, off + 250, 4), 4)
        &&& self.high_price as int == to_signed(be_bytes(s, off + 254, 4), 4)
        &&& self.low_price as int == to_signed(be_bytes(s, off + 258, 4), 4)
        &&& self.indicative_closing_price as int == to_signed(be_bytes(s, off + 262, 4), 4)
    }

    #[verifier::rlimit(100)]
    pub fn from_bytes(buf: &[u8], off: usize) -> (r: Self)
        requires
            off + BCAST_INTERACTIVE_MBP_DATA_CEDTC_SIZE <= buf@.len(),
        ensures
            r.parsed_from(buf@, off as int),
            r.wf(),
    {
        let n: usize = buf.len();
        let token = read_i32_be(buf, off + 0);
        let book_type = read_i16_be(buf, off + 4);
        let trading_status = read_i16_be(buf, off + 6);
        let volume_traded_today = read_i64_be(buf, off + 8);
        let last_traded_price = read_i32_be(buf, off + 16);
        let net_change_indicator = read_u8(buf, off + 20);
        let filler = read_u8(buf, off + 21);
        let net_price_change_from_closing_price = read_i32_be(buf, off + 22);
        let last_trade_quantity = read_i32_be(buf, off + 26);
        let last_trade_time = read_i32_be(buf, off + 30);
        let average_trade_price = read_i32_be(buf, off + 34);
        let auction_number = read_i16_be(buf, off + 38);
        let auction_status = read_i16_be(buf, off + 40);
        let initiator_type = read_i16_be(buf, off + 42);
        let initiator_price = read_i32_be(buf, off + 44);
        let initiator_quantity = read_i32_be(buf, off + 48);
        let auction_price = read_i32_be(buf, off + 52);
        let auction_quantity = read_i32_be(buf, off + 56);
        let mut mbp_info: Vec<BcastMBPInfoCEDTC> = Vec::new();
        let mut k_mbp_info: usize = 0;
        while k_mbp_info < 10
            invariant
                k_mbp_info <= 10,
                n == buf@.len(),
                off + BCAST_INTERACTIVE_MBP_DATA_CEDTC_SIZE <= n,
                mbp_info@.len() == k_mbp_info,
                forall|x: int| 0 <= x < k_mbp_info ==> (#[trigger] mbp_info@[x]).parsed_from(buf@, off + 60 + x * 16) && mbp_info@[x].wf(),
            decreases 10 - k_mbp_info,
        {
            mbp_info.push(BcastMBPInfoCEDTC::from_bytes(buf, off + 60 + k_mbp_info * 16));
            k_mbp_info = k_mbp_info + 1;
        }
        let bb_total_buy_flag = read_i16_be(buf, off + 220);
        let bb_total_sell_flag = read_i16_be(buf, off + 222);
        let total_buy_quantity = read_i64_be(buf, off + 224);
        let total_sell_quantity = read_i64_be(buf, off + 232);
        let mbp_indicator = BcastMBPIndicator::from_bytes(buf, off + 240);
        let closing_price = read_i32_be(buf, off + 246);
        let open_price = read_i32_be(buf, off + 250);
        let high_price = read_i32_be(buf, off + 254);
        let low_price = read_i32_be(buf, off + 258);
        let indicative_closing_price = read_i32_be(buf, off + 262);
        BcastInteractiveMBPDataCEDTC {
            token,
            book_type,
            trading_status,
            volume_traded_today,
            last_traded_price,
            net_change_indicator,
            filler,
            net_price_change_from_closing_price,
            last_trade_quantity,
            last_trade_time,
            average_trade_price,
            auction_number,
            auction_status,
            initiator_type,
            initiator_price,
            initiator_quantity,
            auction_price,
            auction_quantity,
            mbp_info,
            bb_total_buy_flag,
            bb_total_sell_flag,
            total_buy_quantity,
            total_sell_quantity,
            mbp_indicator,
            closing_price,
            open_price,
            high_price,
            low_price,
            indicative_closing_price,
        }
    }
}

pub const BCAST_ONLY_MBP_CEDTC_SIZE: usize = 574;

#[derive(Clone)]
pub struct BcastOnlyMBPCEDTC {
    pub bcast_header: BcastHeaders,
    pub no_of_records: i16,
    pub mbp_data: Vec<BcastInteractiveMBPDataCEDTC>,
}

impl BcastOnlyMBPCEDTC {
    pub open spec fn wf(self) -> bool {
        &&& self.bcast_header.wf()
        &&& self.mbp_data@.len() == 2
        &&& (forall|k: int| 0 <= k < 2 ==> (#[trigger] self.mbp_data@[k]).wf())
    }

    /// Exactly which big-endian wire bytes each field was read from.
    pub open spec fn parsed_from(self, s: Seq<u8>, off: int) -> bool {
        &&& self.bcast_header.parsed_from(s, off + 0)
        &&& self.no_of_records as int == to_signed(be_bytes(s, off + 40, 2), 2)
        &&& self.mbp_data@.len() == 2
        &&& (forall|k: int| 0 <= k < 2 ==> (#[trigger] self.mbp_data@[k]).parsed_from(s, off + 42 + k * 266))
    }

    #[verifier::rlimit(100)]
    pub fn from_bytes(buf: &[u8], off: usize) -> (r: Self)
        requires
            off + BCAST_ONLY_MBP_CEDTC_SIZE <= buf@.len(),
        ensures
            r.parsed_from(buf@, off as int),
            r.wf(),
    {
        let n: usize = buf.len();
        let bcast_header = BcastHeaders::from_bytes(buf, off + 0);
        let no_of_records = read_i16_be(buf, off + 40);
        let mut mbp_data: Vec<BcastInteractiveMBPDataCEDTC> = Vec::new();
        let mut k_mbp_data: usize = 0;
        while k_mbp_data < 2
            invariant
                k_mbp_data <= 2,
                n == buf@.len(),
                off + BCAST_ONLY_MBP_CEDTC_SIZE <= n,
                mbp_data@.len() == k_mbp_data,
                forall|x: int| 0 <= x < k_mbp_data ==> (#[trigger] mbp_data@[x]).parsed_from(buf@, off + 42 + x * 266) && mbp_data@[x].wf(),
            decreases 2 - k_mbp_data,
        {
            mbp_data.push(BcastInteractiveMBPDataCEDTC::from_bytes(buf, off + 42 + k_mbp_data * 266));
            k_mbp_data = k_mbp_data + 1;
        }
        BcastOnlyMBPCEDTC {
            bcast_header,
            no_of_records,
            mbp_data,
        }
    }
}

/// The NEQ broadcast record kinds this handler decodes.
pub enum NeqBroadcastTransactionMapping {
    BcastMboMbpCedtc(BcastMBOMBP),
    BcastOnlyMbpCedtc(BcastOnlyMBPCEDTC),
    BcastOnlyMbp(BcastOnlyMBP),
}

impl NeqBroadcastTransactionMapping {
    pub open spec fn wf(self) -> bool {
        match self {
            Self::BcastMboMbpCedtc(s) => s.wf(),
            Self::BcastOnlyMbpCedtc(s) => s.wf(),
            Self::BcastOnlyMbp(s) => s.wf(),
        }
    }
}

/// Transaction codes this codec decodes.
pub open spec fn spec_neq_known(t: i16) -> bool {
    t == 7200 || t == 7208 || t == 18705
}

/// Wire size of the record that transaction code `t` announces.
pub open spec fn spec_neq_size(t: i16) -> int {
    if t == 7200 {
        BCAST_MBO_MBP_SIZE as int
    } else if t == 7208 {
        BCAST_ONLY_MBP_CEDTC_SIZE as int
    } else if t == 18705 {
        BCAST_ONLY_MBP_SIZE as int
    } else {
        0
    }
}

/// The decoded variant matches the transaction code and was parsed from `s`.
pub open spec fn spec_neq_variant_ok(t: i16, m: NeqBroadcastTransactionMapping, s: Seq<u8>) -> bool {
    if t == 7200 {
        m matches NeqBroadcastTransactionMapping::BcastMboMbpCedtc(x) && x.parsed_from(s, 0)
    } else if t == 7208 {
        m matches NeqBroadcastTransactionMapping::BcastOnlyMbpCedtc(x) && x.parsed_from(s, 0)
    } else if t == 18705 {
        m matches NeqBroadcastTransactionMapping::BcastOnlyMbp(x) && x.parsed_from(s, 0)
    } else {
        false
    }
}

/// Decodes one NEQ broadcast record by its transaction id; an id
/// outside this handler's set, or a buffer shorter than the record, is
/// refused.
pub fn build_neq_struct(transaction_id: i16, buf: &[u8]) -> (r: Option<NeqBroadcastTransactionMapping>)
    ensures
        r is Some <==> spec_neq_known(transaction_id) && buf@.len() >= spec_neq_size(
            transaction_id,
        ),
        r matches Some(msg) ==> msg.wf() && spec_neq_variant_ok(transaction_id, msg, buf@),
{
    match transaction_id {
        7200 => {
            if buf.len() >= BCAST_MBO_MBP_SIZE {
                Some(NeqBroadcastTransactionMapping::BcastMboMbpCedtc(BcastMBOMBP::from_bytes(buf, 0)))
            } else {
                None
            }
        },
        7208 => {
            if buf.len() >= BCAST_ONLY_MBP_CEDTC_SIZE {
                Some(NeqBroadcastTransactionMapping::BcastOnlyMbpCedtc(BcastOnlyMBPCEDTC::from_bytes(buf, 0)))
            } else {
                None
            }
        },
        18705 => {
            if buf.len() >= BCAST_ONLY_MBP_SIZE {
                Some(NeqBroadcastTransactionMapping::BcastOnlyMbp(BcastOnlyMBP::from_bytes(buf, 0)))
            } else {
                None
            }
        },
        _ => None,
    }
}


impl BcastHeaders {
    /// Transaction code of the inner message that starts after the transport
    /// framing bytes.
    pub fn get_trans_code(buf: &[u8]) -> (r: i16)
        requires
            buf@.len() >= SKIP_BYTES + BCAST_HEADERS_SIZE,
        ensures
            r as int == to_signed(be_bytes(buf@, SKIP_BYTES + 10, 2), 2),
    {
        read_i16_be(buf, SKIP_BYTES + 10)
    }

    /// Segment byte of the inner message, stored in the header's trailing
    /// filler area.
    pub fn get_segment(buf: &[u8]) -> (r: u8)
        requires
            buf@.len() >= SKIP_BYTES + BCAST_HEADERS_SIZE,
        ensures
            r == buf@[SKIP_BYTES + 30],
    {
        read_u8(buf, SKIP_BYTES + 30)
    }
}

} // verus!
