//! The normalized market-picture record every exchange path produces.
//!
//! A finished record is serialized little-endian into the packet buffer that
//! travels to the output sinks; `spec_ser` pins the exact bytes.

use vstd::prelude::*;

use crate::bytesio::{be_bytes, to_signed, read_u8, read_u16_be, read_i16_be, read_u32_be,
    read_i32_be, read_u64_be, read_i64_be, read_bytes, spec_u16_le, spec_u32_le, spec_u64_le,
    spec_i16_le, spec_i32_le, spec_i64_le, push_u8, push_u16_le, push_i16_le, push_u32_le,
    push_i32_le, push_u64_le, push_i64_le, push_bytes, push_zeros};

verus! {

pub const TAG_MARKET_DEPTH_INFO_SIZE: usize = 14;

#[derive(Clone, Copy)]
pub struct TagMarketDepthInfo {
    pub qty: i64,
    pub price: i32,
    pub number_of_orders: i16,
}

impl TagMarketDepthInfo {
    pub open spec fn wf(self) -> bool {
        true
    }

    /// Exactly which big-endian wire bytes each field was read from.
    pub open spec fn parsed_from(self, s: Seq<u8>, off: int) -> bool {
        &&& self.qty as int == to_signed(be_bytes(s, off + 0, 8), 8)
        &&& self.price as int == to_signed(be_bytes(s, off + 8, 4), 4)
        &&& self.number_of_orders as int == to_signed(be_bytes(s, off + 12, 2), 2)
    }

    #[verifier::rlimit(100)]
    pub fn from_bytes(buf: &[u8], off: usize) -> (r: Self)
        requires
            off + TAG_MARKET_DEPTH_INFO_SIZE <= buf@.len(),
        ensures
            r.parsed_from(buf@, off as int),
            r.wf(),
    {
        let n: usize = buf.len();
        let qty = read_i64_be(buf, off + 0);
        let price = read_i32_be(buf, off + 8);
        let number_of_orders = read_i16_be(buf, off + 12);
        TagMarketDepthInfo {
            qty,
            price,
            number_of_orders,
        }
    }

    /// The record's little-endian serialized bytes, padding zeroed.
    pub open spec fn spec_ser(self) -> Seq<u8> {
        spec_i64_le(self.qty)
            + spec_i32_le(self.price)
            + spec_i16_le(self.number_of_orders)
    }

    #[verifier::rlimit(100)]
    pub proof fn lemma_ser_len(self)
        requires
            self.wf(),
        ensures
            self.spec_ser().len() == TAG_MARKET_DEPTH_INFO_SIZE,
    {
        broadcast use crate::bytesio::group_le_lens;

    }

    #[verifier::rlimit(100)]
    pub fn to_bytes_vec(&self) -> (r: Vec<u8>)
        requires
            self.wf(),
        ensures
            r@ == self.spec_ser(),
    {
        let mut out: Vec<u8> = Vec::new();
        push_i64_le(&mut out, self.qty);
        push_i32_le(&mut out, self.price);
        push_i16_le(&mut out, self.number_of_orders);
        proof {
            assert(out@ =~= self.spec_ser());
        }
        out
    }
}

/// Concatenated serialization of a sequence of `TagMarketDepthInfo` records.
pub open spec fn ser_seq_tag_market_depth_info(a: Seq<TagMarketDepthInfo>) -> Seq<u8>
    decreases a.len(),
{
    if a.len() == 0 {
        Seq::empty()
    } else {
        ser_seq_tag_market_depth_info(a.drop_last()) + a.last().spec_ser()
    }
}

pub proof fn lemma_ser_seq_tag_market_depth_info_len(a: Seq<TagMarketDepthInfo>)
    requires
        forall|k: int| 0 <= k < a.len() ==> (#[trigger] a[k]).wf(),
    ensures
        ser_seq_tag_market_depth_info(a).len() == a.len() * TAG_MARKET_DEPTH_INFO_SIZE,
    decreases a.len(),
{
    if a.len() == 0 {
    } else {
        lemma_ser_seq_tag_market_depth_info_len(a.drop_last());
        a.last().lemma_ser_len();
        assert((a.len() - 1) * TAG_MARKET_DEPTH_INFO_SIZE + TAG_MARKET_DEPTH_INFO_SIZE == a.len() * TAG_MARKET_DEPTH_INFO_SIZE) by (nonlinear_arith);
    }
}


pub const TAG_MESSAGE_HEADER_SIZE: usize = 44;

#[derive(Clone)]
pub struct TagMessageHeader {
    pub message_code: i32,
    pub transaction_type: i16,
    pub log_time: i32,
    pub alpha_char: Vec<u8>,
    pub trader_id: i32,
    pub error_code: i16,
    pub timestamp: u64,
    pub timestamp1: Vec<u8>,
    pub timestamp2: Vec<u8>,
    pub message_length: i16,
}

impl TagMessageHeader {
    pub open spec fn wf(self) -> bool {
        &&& self.alpha_char@.len() == 2
        &&& self.timestamp1@.len() == 8
        &&& self.timestamp2@.len() == 8
    }

    /// Exactly which big-endian wire bytes each field was read from.
    pub open spec fn parsed_from(self, s: Seq<u8>, off: int) -> bool {
        &&& self.message_code as int == to_signed(be_bytes(s, off + 0, 4), 4)
        &&& self.transaction_type as int == to_signed(be_bytes(s, off + 4, 2), 2)
        &&& self.log_time as int == to_signed(be_bytes(s, off + 6, 4), 4)
        &&& self.alpha_char@ == s.subrange(off + 10, off + 10 + 2)
        &&& self.trader_id as int == to_signed(be_bytes(s, off + 12, 4), 4)
        &&& self.error_code as int == to_signed(be_bytes(s, off + 16, 2), 2)
        &&& self.timestamp as int == be_bytes(s, off + 18, 8)
        &&& self.timestamp1@ == s.subrange(off + 26, off + 26 + 8)
        &&& self.timestamp2@ == s.subrange(off + 34, off + 34 + 8)
        &&& self.message_length as int == to_signed(be_bytes(s, off + 42, 2), 2)
    }

    #[verifier::rlimit(100)]
    pub fn from_bytes(buf: &[u8], off: usize) -> (r: Self)
        requires
            off + TAG_MESSAGE_HEADER_SIZE <= buf@.len(),
        ensures
            r.parsed_from(buf@, off as int),
            r.wf(),
    {
        let n: usize = buf.len();
        let message_code = read_i32_be(buf, off + 0);
        let transaction_type = read_i16_be(buf, off + 4);
        let log_time = read_i32_be(buf, off + 6);
        let alpha_char = read_bytes(buf, off + 10, 2);
        let trader_id = read_i32_be(buf, off + 12);
        let error_code = read_i16_be(buf, off + 16);
        let timestamp = read_u64_be(buf, off + 18);
        let timestamp1 = read_bytes(buf, off + 26, 8);
        let timestamp2 = read_bytes(buf, off + 34, 8);
        let message_length = read_i16_be(buf, off + 42);
        TagMessageHeader {
            message_code,
            transaction_type,
            log_time,
            alpha_char,
            trader_id,
            error_code,
            timestamp,
            timestamp1,
            timestamp2,
            message_length,
        }
    }

    /// The record's little-endian serialized bytes, padding zeroed.
    pub open spec fn spec_ser(self) -> Seq<u8> {
        spec_i32_le(self.message_code)
            + spec_i16_le(self.transaction_type)
            + spec_i32_le(self.log_time)
            + self.alpha_char@
            + spec_i32_le(self.trader_id)
            + spec_i16_le(self.error_code)
            + spec_u64_le(self.timestamp)
            + self.timestamp1@
            + self.timestamp2@
            + spec_i16_le(self.message_length)
    }

    #[verifier::rlimit(100)]
    pub proof fn lemma_ser_len(self)
        requires
            self.wf(),
        ensures
            self.spec_ser().len() == TAG_MESSAGE_HEADER_SIZE,
    {
        broadcast use crate::bytesio::group_le_lens;

    }

    #[verifier::rlimit(100)]
    pub fn to_bytes_vec(&self) -> (r: Vec<u8>)
        requires
            self.wf(),
        ensures
            r@ == self.spec_ser(),
    {
        let mut out: Vec<u8> = Vec::new();
        push_i32_le(&mut out, self.message_code);
        push_i16_le(&mut out, self.transaction_type);
        push_i32_le(&mut out, self.log_time);
        push_bytes(&mut out, self.alpha_char.as_slice());
        push_i32_le(&mut out, self.trader_id);
        push_i16_le(&mut out, self.error_code);
        push_u64_le(&mut out, self.timestamp);
        push_bytes(&mut out, self.timestamp1.as_slice());
        push_bytes(&mut out, self.timestamp2.as_slice());
        push_i16_le(&mut out, self.message_length);
        proof {
            assert(out@ =~= self.spec_ser());
        }
        out
    }
}

pub const TAG_MARKET_PICTURE_BROADCAST_SIZE: usize = 2930;

#[derive(Clone)]
pub struct TagMarketPictureBroadcast {
    pub msg_header: TagMessageHeader,
    pub token: i64,
    pub total_buy_qty: i64,
    pub total_sell_qty: i64,
    pub volume_traded_today: i64,
    pub open_price: i32,
    pub close_price: i32,
    pub high_price: i32,
    pub low_price: i32,
    pub ltp: i32,
    pub ltq: i32,
    pub ltt: i32,
    pub atp: i32,
    pub indicative_close_price: i32,
    pub lut: i64,
    pub buy_depth_count: i32,
    pub sell_depth_count: i32,
    pub trading_status: i16,
    pub market_depth_info: Vec<TagMarketDepthInfo>,
}

impl TagMarketPictureBroadcast {
    pub open spec fn wf(self) -> bool {
        &&& self.msg_header.wf()
        &&& self.market_depth_info@.len() == 200
        &&& (forall|k: int| 0 <= k < 200 ==> (#[trigger] self.market_depth_info@[k]).wf())
    }

    /// Exactly which big-endian wire bytes each field was read from.
    pub open spec fn parsed_from(self, s: Seq<u8>, off: int) -> bool {
        &&& self.msg_header.parsed_from(s, off + 0)
        &&& self.token as int == to_signed(be_bytes(s, off + 44, 8), 8)
        &&& self.total_buy_qty as int == to_signed(be_bytes(s, off + 52, 8), 8)
        &&& self.total_sell_qty as int == to_signed(be_bytes(s, off + 60, 8), 8)
        &&& self.volume_traded_today as int == to_signed(be_bytes(s, off + 68, 8), 8)
        &&& self.open_price as int == to_signed(be_bytes(s, off + 76, 4), 4)
        &&& self.close_price as int == to_signed(be_bytes(s, off + 80, 4), 4)
        &&& self.high_price as int == to_signed(be_bytes(s, off + 84, 4), 4)
        &&& self.low_price as int == to_signed(be_bytes(s, off + 88, 4), 4)
        &&& self.ltp as int == to_signed(be_bytes(s, off + 92, 4), 4)
        &&& self.ltq as int == to_signed(be_bytes(s, off + 96, 4), 4)
        &&& self.ltt as int == to_signed(be_bytes(s, off + 100, 4), 4)
        &&& self.atp as int == to_signed(be_bytes(s, off + 104, 4), 4)
        &&& self.indicative_close_price as int == to_signed(be_bytes(s, off + 108, 4), 4)
        &&& self.lut as int == to_signed(be_bytes(s, off + 112, 8), 8)
        &&& self.buy_depth_count as int == to_signed(be_bytes(s, off + 120, 4), 4)
        &&& self.sell_depth_count as int == to_signed(be_bytes(s, off + 124, 4), 4)
        &&& self.trading_status as int == to_signed(be_bytes(s, off + 128, 2), 2)
        &&& self.market_depth_info@.len() == 200
        &&& (forall|k: int| 0 <= k < 200 ==> (#[trigger] self.market_depth_info@[k]).parsed_from(s, off + 130 + k * 14))
    }

    #[verifier::rlimit(100)]
    pub fn from_bytes(buf: &[u8], off: usize) -> (r: Self)
        requires
            off + TAG_MARKET_PICTURE_BROADCAST_SIZE <= buf@.len(),
        ensures
            r.parsed_from(buf@, off as int),
            r.wf(),
    {
        let n: usize = buf.len();
        let msg_header = TagMessageHeader::from_bytes(buf, off + 0);
        let token = read_i64_be(buf, off + 44);
        let total_buy_qty = read_i64_be(buf, off + 52);
        let total_sell_qty = read_i64_be(buf, off + 60);
        let volume_traded_today = read_i64_be(buf, off + 68);
        let open_price = read_i32_be(buf, off + 76);
        let close_price = read_i32_be(buf, off + 80);
        let high_price = read_i32_be(buf, off + 84);
        let low_price = read_i32_be(buf, off + 88);
        let ltp = read_i32_be(buf, off + 92);
        let ltq = read_i32_be(buf, off + 96);
        let ltt = read_i32_be(buf, off + 100);
        let atp = read_i32_be(buf, off + 104);
        let indicative_close_price = read_i32_be(buf, off + 108);
        let lut = read_i64_be(buf, off + 112);
        let buy_depth_count = read_i32_be(buf, off + 120);
        let sell_depth_count = read_i32_be(buf, off + 124);
        let trading_status = read_i16_be(buf, off + 128);
        let mut market_depth_info: Vec<TagMarketDepthInfo> = Vec::new();
        let mut k_market_depth_info: usize = 0;
        while k_market_depth_info < 200
            invariant
                k_market_depth_info <= 200,
                n == buf@.len(),
                off + TAG_MARKET_PICTURE_BROADCAST_SIZE <= n,
                market_depth_info@.len() == k_market_depth_info,
                forall|x: int| 0 <= x < k_market_depth_info ==> (#[trigger] market_depth_info@[x]).parsed_from(buf@, off + 130 + x * 14) && market_depth_info@[x].wf(),
            decreases 200 - k_market_depth_info,
        {
            market_depth_info.push(TagMarketDepthInfo::from_bytes(buf, off + 130 + k_market_depth_info * 14));
            k_market_depth_info = k_market_depth_info + 1;
        }
        TagMarketPictureBroadcast {
            msg_header,
            token,
            total_buy_qty,
            total_sell_qty,
            volume_traded_today,
            open_price,
            close_price,
            high_price,
            low_price,
            ltp,
            ltq,
            ltt,
            atp,
            indicative_close_price,
            lut,
            buy_depth_count,
            sell_depth_count,
            trading_status,
            market_depth_info,
        }
    }

    /// The record's little-endian serialized bytes, padding zeroed.
    pub open spec fn spec_ser(self) -> Seq<u8> {
        self.msg_header.spec_ser()
            + spec_i64_le(self.token)
            + spec_i64_le(self.total_buy_qty)
            + spec_i64_le(self.total_sell_qty)
            + spec_i64_le(self.volume_traded_today)
            + spec_i32_le(self.open_price)
            + spec_i32_le(self.close_price)
            + spec_i32_le(self.high_price)
            + spec_i32_le(self.low_price)
            + spec_i32_le(self.ltp)
            + spec_i32_le(self.ltq)
            + spec_i32_le(self.ltt)
            + spec_i32_le(self.atp)
            + spec_i32_le(self.indicative_close_price)
            + spec_i64_le(self.lut)
            + spec_i32_le(self.buy_depth_count)
            + spec_i32_le(self.sell_depth_count)
            + spec_i16_le(self.trading_status)
            + ser_seq_tag_market_depth_info(self.market_depth_info@)
    }

    #[verifier::rlimit(100)]
    pub proof fn lemma_ser_len(self)
        requires
            self.wf(),
        ensures
            self.spec_ser().len() == TAG_MARKET_PICTURE_BROADCAST_SIZE,
    {
        broadcast use crate::bytesio::group_le_lens;

        self.msg_header.lemma_ser_len();
        lemma_ser_seq_tag_market_depth_info_len(self.market_depth_info@);
    }

    #[verifier::rlimit(100)]
    pub fn to_bytes_vec(&self) -> (r: Vec<u8>)
        requires
            self.wf(),
        ensures
            r@ == self.spec_ser(),
    {
        let mut out: Vec<u8> = Vec::new();
        let mut sub_msg_header = self.msg_header.to_bytes_vec();
        out.append(&mut sub_msg_header);
        push_i64_le(&mut out, self.token);
        push_i64_le(&mut out, self.total_buy_qty);
        push_i64_le(&mut out, self.total_sell_qty);
        push_i64_le(&mut out, self.volume_traded_today);
        push_i32_le(&mut out, self.open_price);
        push_i32_le(&mut out, self.close_price);
        push_i32_le(&mut out, self.high_price);
        push_i32_le(&mut out, self.low_price);
        push_i32_le(&mut out, self.ltp);
        push_i32_le(&mut out, self.ltq);
        push_i32_le(&mut out, self.ltt);
        push_i32_le(&mut out, self.atp);
        push_i32_le(&mut out, self.indicative_close_price);
        push_i64_le(&mut out, self.lut);
        push_i32_le(&mut out, self.buy_depth_count);
        push_i32_le(&mut out, self.sell_depth_count);
        push_i16_le(&mut out, self.trading_status);
        let ghost pre_market_depth_info = out@;
        let mut k_market_depth_info: usize = 0;
        while k_market_depth_info < 200
            invariant
                k_market_depth_info <= 200,
                self.market_depth_info@.len() == 200,
                forall|k: int| 0 <= k < 200 ==> (#[trigger] self.market_depth_info@[k]).wf(),
                out@ == pre_market_depth_info + ser_seq_tag_market_depth_info(self.market_depth_info@.take(k_market_depth_info as int)),
            decreases 200 - k_market_depth_info,
        {
            let mut one = self.market_depth_info[k_market_depth_info].to_bytes_vec();
            out.append(&mut one);
            proof {
                let t = self.market_depth_info@.take(k_market_depth_info + 1);
                assert(t.drop_last() =~= self.market_depth_info@.take(k_market_depth_info as int));
                assert(t.last() == self.market_depth_info@[k_market_depth_info as int]);
                assert(out@ =~= pre_market_depth_info + ser_seq_tag_market_depth_info(t));
            }
            k_market_depth_info = k_market_depth_info + 1;
        }
        proof {
            assert(self.market_depth_info@.take(200) =~= self.market_depth_info@);
        }
        proof {
            assert(out@ =~= self.spec_ser());
        }
        out
    }
}

} // verus!
