//! NSE currency-derivatives broadcast record codec; the depth records are
//! shared with the futures-and-options segment.

use vstd::prelude::*;

use crate::bytesio::{be_bytes, to_signed, read_u8, read_u16_be, read_i16_be, read_u32_be,
    read_i32_be, read_u64_be, read_i64_be, read_bytes};
use crate::fp::{spec_f64_field, f64_field};

verus! {

pub const BCAST_HEADERS_SIZE: usize = 40;

#[derive(Clone)]
pub struct BcastHeaders {
    pub reserved1: Vec<u8>,
    pub log_time: i32,
    pub alpha_char: Vec<u8>,
    pub trans_code: i16,
    pub error_code: i16,
    pub bc_seq_no: i32,
    pub reserved2: Vec<u8>,
    pub time_stamp2: Vec<u8>,
    pub filler2: Vec<u8>,
    pub message_length: i16,
}

impl BcastHeaders {
    pub open spec fn wf(self) -> bool {
        &&& self.reserved1@.len() == 4
        &&& self.alpha_char@.len() == 2
        &&& self.reserved2@.len() == 4
        &&& self.time_stamp2@.len() == 8
        &&& self.filler2@.len() == 8
    }

    /// Exactly which big-endian wire bytes each field was read from.
    pub open spec fn parsed_from(self, s: Seq<u8>, off: int) -> bool {
        &&& self.reserved1@ == s.subrange(off + 0, off + 0 + 4)
        &&& self.log_time as int == to_signed(be_bytes(s, off + 4, 4), 4)
        &&& self.alpha_char@ == s.subrange(off + 8, off + 8 + 2)
        &&& self.trans_code as int == to_signed(be_bytes(s, off + 10, 2), 2)
        &&& self.error_code as int == to_signed(be_bytes(s, off + 12, 2), 2)
        &&& self.bc_seq_no as int == to_signed(be_bytes(s, off + 14, 4), 4)
        &&& self.reserved2@ == s.subrange(off + 18, off + 18 + 4)
        &&& self.time_stamp2@ == s.subrange(off + 22, off + 22 + 8)
        &&& self.filler2@ == s.subrange(off + 30, off + 30 + 8)
        &&& self.message_length as int == to_signed(be_bytes(s, off + 38, 2), 2)
    }

    #[verifier::rlimit(100)]
    pub fn from_bytes(buf: &[u8], off: usize) -> (r: Self)
        requires
            off + BCAST_HEADERS_SIZE <= buf@.len(),
        ensures
            r.parsed_from(buf@, off as int),
            r.wf(),
    {
        let n: usize = buf.len();
        let reserved1 = read_bytes(buf, off + 0, 4);
        let log_time = read_i32_be(buf, off + 4);
        let alpha_char = read_bytes(buf, off + 8, 2);
        let trans_code = read_i16_be(buf, off + 10);
        let error_code = read_i16_be(buf, off + 12);
        let bc_seq_no = read_i32_be(buf, off + 14);
        let reserved2 = read_bytes(buf, off + 18, 4);
        let time_stamp2 = read_bytes(buf, off + 22, 8);
        let filler2 = read_bytes(buf, off + 30, 8);
        let message_length = read_i16_be(buf, off + 38);
        BcastHeaders {
            reserved1,
            log_time,
            alpha_char,
            trans_code,
            error_code,
            bc_seq_no,
            reserved2,
            time_stamp2,
            filler2,
            message_length,
        }
    }
}

pub const BCAST_TRADE_EXEC_RANGE_DETAILS_SIZE: usize = 12;

#[derive(Clone, Copy)]
pub struct BcastTradeExecRangeDetails {
    pub token: i32,
    pub high_exec_band: i32,
    pub low_exec_band: i32,
}

impl BcastTradeExecRangeDetails {
    pub open spec fn wf(self) -> bool {
        true
    }

    /// Exactly which big-endian wire bytes each field was read from.
    pub open spec fn parsed_from(self, s: Seq<u8>, off: int) -> bool {
        &&& self.token as int == to_signed(be_bytes(s, off + 0, 4), 4)
        &&& self.high_exec_band as int == to_signed(be_bytes(s, off + 4, 4), 4)
        &&& self.low_exec_band as int == to_signed(be_bytes(s, off + 8, 4), 4)
    }

    #[verifier::rlimit(100)]
    pub fn from_bytes(buf: &[u8], off: usize) -> (r: Self)
        requires
            off + BCAST_TRADE_EXEC_RANGE_DETAILS_SIZE <= buf@.len(),
        ensures
            r.parsed_from(buf@, off as int),
            r.wf(),
    {
        let n: usize = buf.len();
        let token = read_i32_be(buf, off + 0);
        let high_exec_band = read_i32_be(buf, off + 4);
        let low_exec_band = read_i32_be(buf, off + 8);
        BcastTradeExecRangeDetails {
            token,
            high_exec_band,
            low_exec_band,
        }
    }
}

pub const BCAST_TRADE_EXEC_RANGE_DATA_SIZE: usize = 304;

#[derive(Clone)]
pub struct BcastTradeExecRangeData {
    pub msg_count: i32,
    pub trade_exec_range_details: Vec<BcastTradeExecRangeDetails>,
}

impl BcastTradeExecRangeData {
    pub open spec fn wf(self) -> bool {
        &&& self.trade_exec_range_details@.len() == 25
        &&& (forall|k: int| 0 <= k < 25 ==> (#[trigger] self.trade_exec_range_details@[k]).wf())
    }

    /// Exactly which big-endian wire bytes each field was read from.
    pub open spec fn parsed_from(self, s: Seq<u8>, off: int) -> bool {
        &&& self.msg_count as int == to_signed(be_bytes(s, off + 0, 4), 4)
        &&& self.trade_exec_range_details@.len() == 25
        &&& (forall|k: int| 0 <= k < 25 ==> (#[trigger] self.trade_exec_range_details@[k]).parsed_from(s, off + 4 + k * 12))
    }

    #[verifier::rlimit(100)]
    pub fn from_bytes(buf: &[u8], off: usize) -> (r: Self)
        requires
            off + BCAST_TRADE_EXEC_RANGE_DATA_SIZE <= buf@.len(),
        ensures
            r.parsed_from(buf@, off as int),
            r.wf(),
    {
        let n: usize = buf.len();
        let msg_count = read_i32_be(buf, off + 0);
        let mut trade_exec_range_details: Vec<BcastTradeExecRangeDetails> = Vec::new();
        let mut k_trade_exec_range_details: usize = 0;
        while k_trade_exec_range_details < 25
            invariant
                k_trade_exec_range_details <= 25,
                n == buf@.len(),
                off + BCAST_TRADE_EXEC_RANGE_DATA_SIZE <= n,
                trade_exec_range_details@.len() == k_trade_exec_range_details,
                forall|x: int| 0 <= x < k_trade_exec_range_details ==> (#[trigger] trade_exec_range_details@[x]).parsed_from(buf@, off + 4 + x * 12) && trade_exec_range_details@[x].wf(),
            decreases 25 - k_trade_exec_range_details,
        {
            trade_exec_range_details.push(BcastTradeExecRangeDetails::from_bytes(buf, off + 4 + k_trade_exec_range_details * 12));
            k_trade_exec_range_details = k_trade_exec_range_details + 1;
        }
        BcastTradeExecRangeData {
            msg_count,
            trade_exec_range_details,
        }
    }
}

pub const BCAST_TRADE_EXEC_RANGE_SIZE: usize = 344;

#[derive(Clone)]
pub struct BcastTradeExecRange {
    pub bcast_header: BcastHeaders,
    pub trade_exec_range_data: BcastTradeExecRangeData,
}

impl BcastTradeExecRange {
    pub open spec fn wf(self) -> bool {
        &&& self.bcast_header.wf()
        &&& self.trade_exec_range_data.wf()
    }

    /// Exactly which big-endian wire bytes each field was read from.
    pub open spec fn parsed_from(self, s: Seq<u8>, off: int) -> bool {
        &&& self.bcast_header.parsed_from(s, off + 0)
        &&& self.trade_exec_range_data.parsed_from(s, off + 40)
    }

    #[verifier::rlimit(100)]
    pub fn from_bytes(buf: &[u8], off: usize) -> (r: Self)
        requires
            off + BCAST_TRADE_EXEC_RANGE_SIZE <= buf@.len(),
        ensures
            r.parsed_from(buf@, off as int),
            r.wf(),
    {
        let n: usize = buf.len();
        let bcast_header = BcastHeaders::from_bytes(buf, off + 0);
        let trade_exec_range_data = BcastTradeExecRangeData::from_bytes(buf, off + 40);
        BcastTradeExecRange {
            bcast_header,
            trade_exec_range_data,
        }
    }
}

pub const BCAST_ASSEST_UPDATE_INTEREST_RATE_INFO_SIZE: usize = 52;

#[derive(Clone)]
pub struct BcastAssestUpdateInterestRateInfo {
    pub bcast_header: BcastHeaders,
    pub token: i32,
    pub foreign_interest_rate: i16,
    pub volatility: i32,
    pub domestii32erest_rate: i16,
}

impl BcastAssestUpdateInterestRateInfo {
    pub open spec fn wf(self) -> bool {
        &&& self.bcast_header.wf()
    }

    /// Exactly which big-endian wire bytes each field was read from.
    pub open spec fn parsed_from(self, s: Seq<u8>, off: int) -> bool {
        &&& self.bcast_header.parsed_from(s, off + 0)
        &&& self.token as int == to_signed(be_bytes(s, off + 40, 4), 4)
        &&& self.foreign_interest_rate as int == to_signed(be_bytes(s, off + 44, 2), 2)
        &&& self.volatility as int == to_signed(be_bytes(s, off + 46, 4), 4)
        &&& self.domestii32erest_rate as int == to_signed(be_bytes(s, off + 50, 2), 2)
    }

    #[verifier::rlimit(100)]
    pub fn from_bytes(buf: &[u8], off: usize) -> (r: Self)
        requires
            off + BCAST_ASSEST_UPDATE_INTEREST_RATE_INFO_SIZE <= buf@.len(),
        ensures
            r.parsed_from(buf@, off as int),
            r.wf(),
    {
        let n: usize = buf.len();
        let bcast_header = BcastHeaders::from_bytes(buf, off + 0);
        let token = read_i32_be(buf, off + 40);
        let foreign_interest_rate = read_i16_be(buf, off + 44);
        let volatility = read_i32_be(buf, off + 46);
        let domestii32erest_rate = read_i16_be(buf, off + 50);
        BcastAssestUpdateInterestRateInfo {
            bcast_header,
            token,
            foreign_interest_rate,
            volatility,
            domestii32erest_rate,
        }
    }
}

pub const BCAST_ASSET_DATA_SIZE: usize = 76;

#[derive(Clone)]
pub struct BcastAssetData {
    pub bcast_header: BcastHeaders,
    pub token: i32,
    pub bid_price: i32,
    pub ask_price: i32,
    pub deal_price: i32,
    pub symbol: Vec<u8>,
    pub instrument: Vec<u8>,
    pub closing_price: i32,
}

impl BcastAssetData {
    pub open spec fn wf(self) -> bool {
        &&& self.bcast_header.wf()
        &&& self.symbol@.len() == 10
        &&& self.instrument@.len() == 6
    }

    /// Exactly which big-endian wire bytes each field was read from.
    pub open spec fn parsed_from(self, s: Seq<u8>, off: int) -> bool {
        &&& self.bcast_header.parsed_from(s, off + 0)
        &&& self.token as int == to_signed(be_bytes(s, off + 40, 4), 4)
        &&& self.bid_price as int == to_signed(be_bytes(s, off + 44, 4), 4)
        &&& self.ask_price as int == to_signed(be_bytes(s, off + 48, 4), 4)
        &&& self.deal_price as int == to_signed(be_bytes(s, off + 52, 4), 4)
        &&& self.symbol@ == s.subrange(off + 56, off + 56 + 10)
        &&& self.instrument@ == s.subrange(off + 66, off + 66 + 6)
        &&& self.closing_price as int == to_signed(be_bytes(s, off + 72, 4), 4)
    }

    #[verifier::rlimit(100)]
    pub fn from_bytes(buf: &[u8], off: usize) -> (r: Self)
        requires
            off + BCAST_ASSET_DATA_SIZE <= buf@.len(),
        ensures
            r.parsed_from(buf@, off as int),
            r.wf(),
    {
        let n: usize = buf.len();
        let bcast_header = BcastHeaders::from_bytes(buf, off + 0);
        let token = read_i32_be(buf, off + 40);
        let bid_price = read_i32_be(buf, off + 44);
        let ask_price = read_i32_be(buf, off + 48);
        let deal_price = read_i32_be(buf, off + 52);
        let symbol = read_bytes(buf, off + 56, 10);
        let instrument = read_bytes(buf, off + 66, 6);
        let closing_price = read_i32_be(buf, off + 72);
        BcastAssetData {
            bcast_header,
            token,
            bid_price,
            ask_price,
            deal_price,
            symbol,
            instrument,
            closing_price,
        }
    }
}

/// The NCD broadcast record kinds this handler decodes.
pub enum NcdBroadcastTransactionMapping {
    BcastAssetUpdtIntRateChg(BcastAssestUpdateInterestRateInfo),
    BcastCircuitCheck(BcastHeaders),
    BcastMboMbpUpdate(crate::nfo::BcastMBOMBP),
    BcastOnlyMbp(crate::nfo::BcastOnlyMBP),
    BcastCurrencyAssets(BcastAssetData),
    BcastTradeExecutionRange(BcastTradeExecRange),
}

impl NcdBroadcastTransactionMapping {
    pub open spec fn wf(self) -> bool {
        match self {
            Self::BcastAssetUpdtIntRateChg(s) => s.wf(),
            Self::BcastCircuitCheck(s) => s.wf(),
            Self::BcastMboMbpUpdate(s) => s.wf(),
            Self::BcastOnlyMbp(s) => s.wf(),
            Self::BcastCurrencyAssets(s) => s.wf(),
            Self::BcastTradeExecutionRange(s) => s.wf(),
        }
    }
}

/// Transaction codes this codec decodes.
pub open spec fn spec_ncd_known(t: i16) -> bool {
    t == 6503 || t == 6541 || t == 7200 || t == 7208 || t == 7213 || t == 7220
}

/// Wire size of the record that transaction code `t` announces.
pub open spec fn spec_ncd_size(t: i16) -> int {
    if t == 6503 {
        BCAST_ASSEST_UPDATE_INTEREST_RATE_INFO_SIZE as int
    } else if t == 6541 {
        BCAST_HEADERS_SIZE as int
    } else if t == 7200 {
        crate::nfo::BCAST_MBO_MBP_SIZE as int
    } else if t == 7208 {
        crate::nfo::BCAST_ONLY_MBP_SIZE as int
    } else if t == 7213 {
        BCAST_ASSET_DATA_SIZE as int
    } else if t == 7220 {
        BCAST_TRADE_EXEC_RANGE_SIZE as int
    } else {
        0
    }
}

/// The decoded variant matches the transaction code and was parsed from `s`.
pub open spec fn spec_ncd_variant_ok(t: i16, m: NcdBroadcastTransactionMapping, s: Seq<u8>) -> bool {
    if t == 6503 {
        m matches NcdBroadcastTransactionMapping::BcastAssetUpdtIntRateChg(x) && x.parsed_from(s, 0)
    } else if t == 6541 {
        m matches NcdBroadcastTransactionMapping::BcastCircuitCheck(x) && x.parsed_from(s, 0)
    } else if t == 7200 {
        m matches NcdBroadcastTransactionMapping::BcastMboMbpUpdate(x) && x.parsed_from(s, 0)
    } else if t == 7208 {
        m matches NcdBroadcastTransactionMapping::BcastOnlyMbp(x) && x.parsed_from(s, 0)
    } else if t == 7213 {
        m matches NcdBroadcastTransactionMapping::BcastCurrencyAssets(x) && x.parsed_from(s, 0)
    } else if t == 7220 {
        m matches NcdBroadcastTransactionMapping::BcastTradeExecutionRange(x) && x.parsed_from(s, 0)
    } else {
        false
    }
}

/// Decodes one NCD broadcast record by its transaction id; an id
/// outside this handler's set, or a buffer shorter than the record, is
/// refused.
pub fn build_ncd_struct(transaction_id: i16, buf: &[u8]) -> (r: Option<NcdBroadcastTransactionMapping>)
    ensures
        r is Some <==> spec_ncd_known(transaction_id) && buf@.len() >= spec_ncd_size(
            transaction_id,
        ),
        r matches Some(msg) ==> msg.wf() && spec_ncd_variant_ok(transaction_id, msg, buf@),
{
    match transaction_id {
        6503 => {
            if buf.len() >= BCAST_ASSEST_UPDATE_INTEREST_RATE_INFO_SIZE {
                Some(NcdBroadcastTransactionMapping::BcastAssetUpdtIntRateChg(BcastAssestUpdateInterestRateInfo::from_bytes(buf, 0)))
            } else {
                None
            }
        },
        6541 => {
            if buf.len() >= BCAST_HEADERS_SIZE {
                Some(NcdBroadcastTransactionMapping::BcastCircuitCheck(BcastHeaders::from_bytes(buf, 0)))
            } else {
                None
            }
        },
        7200 => {
            if buf.len() >= crate::nfo::BCAST_MBO_MBP_SIZE {
                Some(NcdBroadcastTransactionMapping::BcastMboMbpUpdate(crate::nfo::BcastMBOMBP::from_bytes(buf, 0)))
            } else {
                None
            }
        },
        7208 => {
            if buf.len() >= crate::nfo::BCAST_ONLY_MBP_SIZE {
                Some(NcdBroadcastTransactionMapping::BcastOnlyMbp(crate::nfo::BcastOnlyMBP::from_bytes(buf, 0)))
            } else {
                None
            }
        },
        7213 => {
            if buf.len() >= BCAST_ASSET_DATA_SIZE {
                Some(NcdBroadcastTransactionMapping::BcastCurrencyAssets(BcastAssetData::from_bytes(buf, 0)))
            } else {
                None
            }
        },
        7220 => {
            if buf.len() >= BCAST_TRADE_EXEC_RANGE_SIZE {
                Some(NcdBroadcastTransactionMapping::BcastTradeExecutionRange(BcastTradeExecRange::from_bytes(buf, 0)))
            } else {
                None
            }
        },
        _ => None,
    }
}

} // verus!
