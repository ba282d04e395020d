//! BSE broadcast record codec.
//!
//! Each record is a packed big-endian wire structure; decoding reads every
//! field at its fixed offset, and serialization writes the host-order record
//! little-endian, as the downstream consumers expect.  The `parsed_from`
//! predicates pin each decoded field to the exact bytes it came from.

use vstd::prelude::*;

use crate::bytesio::{be_bytes, to_signed, read_u8, read_u16_be, read_i16_be, read_u32_be,
    read_i32_be, read_u64_be, read_i64_be, read_bytes, spec_u16_le, spec_u32_le, spec_u64_le,
    spec_i16_le, spec_i32_le, spec_i64_le, push_u8, push_u16_le, push_i16_le, push_u32_le,
    push_i32_le, push_u64_le, push_i64_le, push_bytes, push_zeros};

verus! {

pub const BCAST_TIME_MESSAGE_SIZE: usize = 32;

#[derive(Clone)]
pub struct BcastTimeMessage {
    pub message_type: i32,
    pub reserved1: i32,
    pub reserved2: i32,
    pub reserved3: u16,
    pub hour: i16,
    pub minute: i16,
    pub econd: i16,
    pub milli_second: i16,
    pub reserved4: i16,
    pub reserved5: i16,
    pub reserved6: i16,
    pub reserved7: u8,
    pub reserved8: u8,
    pub reserved9: Vec<u8>,
}

impl BcastTimeMessage {
    pub open spec fn wf(self) -> bool {
        &&& self.reserved9@.len() == 2
    }

    /// Exactly which big-endian wire bytes each field was read from.
    pub open spec fn parsed_from(self, s: Seq<u8>, off: int) -> bool {
        &&& self.message_type as int == to_signed(be_bytes(s, off + 0, 4), 4)
        &&& self.reserved1 as int == to_signed(be_bytes(s, off + 4, 4), 4)
        &&& self.reserved2 as int == to_signed(be_bytes(s, off + 8, 4), 4)
        &&& self.reserved3 as int == be_bytes(s, off + 12, 2)
        &&& self.hour as int == to_signed(be_bytes(s, off + 14, 2), 2)
        &&& self.minute as int == to_signed(be_bytes(s, off + 16, 2), 2)
        &&& self.econd as int == to_signed(be_bytes(s, off + 18, 2), 2)
        &&& self.milli_second as int == to_signed(be_bytes(s, off + 20, 2), 2)
        &&& self.reserved4 as int == to_signed(be_bytes(s, off + 22, 2), 2)
        &&& self.reserved5 as int == to_signed(be_bytes(s, off + 24, 2), 2)
        &&& self.reserved6 as int == to_signed(be_bytes(s, off + 26, 2), 2)
        &&& self.reserved7 == s[off + 28]
        &&& self.reserved8 == s[off + 29]
        &&& self.reserved9@ == s.subrange(off + 30, off + 30 + 2)
    }

    #[verifier::rlimit(100)]
    pub fn from_bytes(buf: &[u8], off: usize) -> (r: Self)
        requires
            off + BCAST_TIME_MESSAGE_SIZE <= buf@.len(),
        ensures
            r.parsed_from(buf@, off as int),
            r.wf(),
    {
        let n: usize = buf.len();
        let message_type = read_i32_be(buf, off + 0);
        let reserved1 = read_i32_be(buf, off + 4);
        let reserved2 = read_i32_be(buf, off + 8);
        let reserved3 = read_u16_be(buf, off + 12);
        let hour = read_i16_be(buf, off + 14);
        let minute = read_i16_be(buf, off + 16);
        let econd = read_i16_be(buf, off + 18);
        let milli_second = read_i16_be(buf, off + 20);
        let reserved4 = read_i16_be(buf, off + 22);
        let reserved5 = read_i16_be(buf, off + 24);
        let reserved6 = read_i16_be(buf, off + 26);
        let reserved7 = read_u8(buf, off + 28);
        let reserved8 = read_u8(buf, off + 29);
        let reserved9 = read_bytes(buf, off + 30, 2);
        BcastTimeMessage {
            message_type,
            reserved1,
            reserved2,
            reserved3,
            hour,
            minute,
            econd,
            milli_second,
            reserved4,
            reserved5,
            reserved6,
            reserved7,
            reserved8,
            reserved9,
        }
    }

    /// The record's little-endian serialized bytes, padding zeroed.
    pub open spec fn spec_ser(self) -> Seq<u8> {
        spec_i32_le(self.message_type)
            + spec_i32_le(self.reserved1)
            + spec_i32_le(self.reserved2)
            + spec_u16_le(self.reserved3)
            + spec_i16_le(self.hour)
            + spec_i16_le(self.minute)
            + spec_i16_le(self.econd)
            + spec_i16_le(self.milli_second)
            + spec_i16_le(self.reserved4)
            + spec_i16_le(self.reserved5)
            + spec_i16_le(self.reserved6)
            + seq![self.reserved7]
            + seq![self.reserved8]
            + self.reserved9@
    }

    #[verifier::rlimit(100)]
    pub proof fn lemma_ser_len(self)
        requires
            self.wf(),
        ensures
            self.spec_ser().len() == BCAST_TIME_MESSAGE_SIZE,
    {
        broadcast use crate::bytesio::group_le_lens;

    }

    #[verifier::rlimit(100)]
    #[verifier::spinoff_prover]
    pub fn to_bytes_vec(&self) -> (r: Vec<u8>)
        requires
            self.wf(),
        ensures
            r@ == self.spec_ser(),
    {
        let mut out: Vec<u8> = Vec::new();
        push_i32_le(&mut out, self.message_type);
        push_i32_le(&mut out, self.reserved1);
        push_i32_le(&mut out, self.reserved2);
        push_u16_le(&mut out, self.reserved3);
        push_i16_le(&mut out, self.hour);
        push_i16_le(&mut out, self.minute);
        push_i16_le(&mut out, self.econd);
        push_i16_le(&mut out, self.milli_second);
        push_i16_le(&mut out, self.reserved4);
        push_i16_le(&mut out, self.reserved5);
        push_i16_le(&mut out, self.reserved6);
        push_u8(&mut out, self.reserved7);
        push_u8(&mut out, self.reserved8);
        push_bytes(&mut out, self.reserved9.as_slice());
        proof {
            assert(out@ =~= self.spec_ser());
        }
        out
    }
}

pub const BCAST_KEEP_ALIVE_SIZE: usize = 4;

#[derive(Clone, Copy)]
pub struct BcastKeepAlive {
    pub message_type: i32,
}

impl BcastKeepAlive {
    pub open spec fn wf(self) -> bool {
        true
    }

    /// Exactly which big-endian wire bytes each field was read from.
    pub open spec fn parsed_from(self, s: Seq<u8>, off: int) -> bool {
        &&& self.message_type as int == to_signed(be_bytes(s, off + 0, 4), 4)
    }

    #[verifier::rlimit(100)]
    pub fn from_bytes(buf: &[u8], off: usize) -> (r: Self)
        requires
            off + BCAST_KEEP_ALIVE_SIZE <= buf@.len(),
        ensures
            r.parsed_from(buf@, off as int),
            r.wf(),
    {
        let n: usize = buf.len();
        let message_type = read_i32_be(buf, off + 0);
        BcastKeepAlive {
            message_type,
        }
    }

    /// The record's little-endian serialized bytes, padding zeroed.
    pub open spec fn spec_ser(self) -> Seq<u8> {
        spec_i32_le(self.message_type)
    }

    #[verifier::rlimit(100)]
    pub proof fn lemma_ser_len(self)
        requires
            self.wf(),
        ensures
            self.spec_ser().len() == BCAST_KEEP_ALIVE_SIZE,
    {
        broadcast use crate::bytesio::group_le_lens;

    }

    #[verifier::rlimit(100)]
    #[verifier::spinoff_prover]
    pub fn to_bytes_vec(&self) -> (r: Vec<u8>)
        requires
            self.wf(),
        ensures
            r@ == self.spec_ser(),
    {
        let mut out: Vec<u8> = Vec::new();
        push_i32_le(&mut out, self.message_type);
        proof {
            assert(out@ =~= self.spec_ser());
        }
        out
    }
}

pub const BCAST_SESSION_CHANGE_SIZE: usize = 40;

#[derive(Clone)]
pub struct BcastSessionChange {
    pub message_type: i32,
    pub reserved1: i32,
    pub reserved2: i32,
    pub reserved3: u16,
    pub hour: i16,
    pub minute: i16,
    pub econd: i16,
    pub milli_second: i16,
    pub product_id: i16,
    pub reserved4: i16,
    pub filler: i16,
    pub market_type: i16,
    pub ession_number: i16,
    pub reserved5: i32,
    pub tart_end_flag: u8,
    pub reserved6: u8,
    pub reserved7: Vec<u8>,
}

impl BcastSessionChange {
    pub open spec fn wf(self) -> bool {
        &&& self.reserved7@.len() == 2
    }

    /// Exactly which big-endian wire bytes each field was read from.
    pub open spec fn parsed_from(self, s: Seq<u8>, off: int) -> bool {
        &&& self.message_type as int == to_signed(be_bytes(s, off + 0, 4), 4)
        &&& self.reserved1 as int == to_signed(be_bytes(s, off + 4, 4), 4)
        &&& self.reserved2 as int == to_signed(be_bytes(s, off + 8, 4), 4)
        &&& self.reserved3 as int == be_bytes(s, off + 12, 2)
        &&& self.hour as int == to_signed(be_bytes(s, off + 14, 2), 2)
        &&& self.minute as int == to_signed(be_bytes(s, off + 16, 2), 2)
        &&& self.econd as int == to_signed(be_bytes(s, off + 18, 2), 2)
        &&& self.milli_second as int == to_signed(be_bytes(s, off + 20, 2), 2)
        &&& self.product_id as int == to_signed(be_bytes(s, off + 22, 2), 2)
        &&& self.reserved4 as int == to_signed(be_bytes(s, off + 24, 2), 2)
        &&& self.filler as int == to_signed(be_bytes(s, off + 26, 2), 2)
        &&& self.market_type as int == to_signed(be_bytes(s, off + 28, 2), 2)
        &&& self.ession_number as int == to_signed(be_bytes(s, off + 30, 2), 2)
        &&& self.reserved5 as int == to_signed(be_bytes(s, off + 32, 4), 4)
        &&& self.tart_end_flag == s[off + 36]
        &&& self.reserved6 == s[off + 37]
        &&& self.reserved7@ == s.subrange(off + 38, off + 38 + 2)
    }

    #[verifier::rlimit(100)]
    pub fn from_bytes(buf: &[u8], off: usize) -> (r: Self)
        requires
            off + BCAST_SESSION_CHANGE_SIZE <= buf@.len(),
        ensures
            r.parsed_from(buf@, off as int),
            r.wf(),
    {
        let n: usize = buf.len();
        let message_type = read_i32_be(buf, off + 0);
        let reserved1 = read_i32_be(buf, off + 4);
        let reserved2 = read_i32_be(buf, off + 8);
        let reserved3 = read_u16_be(buf, off + 12);
        let hour = read_i16_be(buf, off + 14);
        let minute = read_i16_be(buf, off + 16);
        let econd = read_i16_be(buf, off + 18);
        let milli_second = read_i16_be(buf, off + 20);
        let product_id = read_i16_be(buf, off + 22);
        let reserved4 = read_i16_be(buf, off + 24);
        let filler = read_i16_be(buf, off + 26);
        let market_type = read_i16_be(buf, off + 28);
        let ession_number = read_i16_be(buf, off + 30);
        let reserved5 = read_i32_be(buf, off + 32);
        let tart_end_flag = read_u8(buf, off + 36);
        let reserved6 = read_u8(buf, off + 37);
        let reserved7 = read_bytes(buf, off + 38, 2);
        BcastSessionChange {
            message_type,
            reserved1,
            reserved2,
            reserved3,
            hour,
            minute,
            econd,
            milli_second,
            product_id,
            reserved4,
            filler,
            market_type,
            ession_number,
            reserved5,
            tart_end_flag,
            reserved6,
            reserved7,
        }
    }

    /// The record's little-endian serialized bytes, padding zeroed.
    pub open spec fn spec_ser(self) -> Seq<u8> {
        spec_i32_le(self.message_type)
            + spec_i32_le(self.reserved1)
            + spec_i32_le(self.reserved2)
            + spec_u16_le(self.reserved3)
            + spec_i16_le(self.hour)
            + spec_i16_le(self.minute)
            + spec_i16_le(self.econd)
            + spec_i16_le(self.milli_second)
            + spec_i16_le(self.product_id)
            + spec_i16_le(self.reserved4)
            + spec_i16_le(self.filler)
            + spec_i16_le(self.market_type)
            + spec_i16_le(self.ession_number)
            + spec_i32_le(self.reserved5)
            + seq![self.tart_end_flag]
            + seq![self.reserved6]
            + self.reserved7@
    }

    #[verifier::rlimit(100)]
    pub proof fn lemma_ser_len(self)
        requires
            self.wf(),
        ensures
            self.spec_ser().len() == BCAST_SESSION_CHANGE_SIZE,
    {
        broadcast use crate::bytesio::group_le_lens;

    }

    #[verifier::rlimit(100)]
    #[verifier::spinoff_prover]
    pub fn to_bytes_vec(&self) -> (r: Vec<u8>)
        requires
            self.wf(),
        ensures
            r@ == self.spec_ser(),
    {
        let mut out: Vec<u8> = Vec::new();
        push_i32_le(&mut out, self.message_type);
        push_i32_le(&mut out, self.reserved1);
        push_i32_le(&mut out, self.reserved2);
        push_u16_le(&mut out, self.reserved3);
        push_i16_le(&mut out, self.hour);
        push_i16_le(&mut out, self.minute);
        push_i16_le(&mut out, self.econd);
        push_i16_le(&mut out, self.milli_second);
        push_i16_le(&mut out, self.product_id);
        push_i16_le(&mut out, self.reserved4);
        push_i16_le(&mut out, self.filler);
        push_i16_le(&mut out, self.market_type);
        push_i16_le(&mut out, self.ession_number);
        push_i32_le(&mut out, self.reserved5);
        push_u8(&mut out, self.tart_end_flag);
        push_u8(&mut out, self.reserved6);
        push_bytes(&mut out, self.reserved7.as_slice());
        proof {
            assert(out@ =~= self.spec_ser());
        }
        out
    }
}

pub const BCAST_AUCTION_SESSION_CHANGE_SIZE: usize = 40;

#[derive(Clone)]
pub struct BcastAuctionSessionChange {
    pub message_type: i32,
    pub reserved1: i32,
    pub reserved2: i32,
    pub reserved3: u16,
    pub hour: i16,
    pub minute: i16,
    pub econd: i16,
    pub milli_second: i16,
    pub reserved4: i16,
    pub reserved5: i16,
    pub filler: i16,
    pub reserved6: i16,
    pub ession_number: i16,
    pub reserved7: i32,
    pub reserved8: u8,
    pub reserved9: u8,
    pub reserved10: Vec<u8>,
}

impl BcastAuctionSessionChange {
    pub open spec fn wf(self) -> bool {
        &&& self.reserved10@.len() == 2
    }

    /// Exactly which big-endian wire bytes each field was read from.
    pub open spec fn parsed_from(self, s: Seq<u8>, off: int) -> bool {
        &&& self.message_type as int == to_signed(be_bytes(s, off + 0, 4), 4)
        &&& self.reserved1 as int == to_signed(be_bytes(s, off + 4, 4), 4)
        &&& self.reserved2 as int == to_signed(be_bytes(s, off + 8, 4), 4)
        &&& self.reserved3 as int == be_bytes(s, off + 12, 2)
        &&& self.hour as int == to_signed(be_bytes(s, off + 14, 2), 2)
        &&& self.minute as int == to_signed(be_bytes(s, off + 16, 2), 2)
        &&& self.econd as int == to_signed(be_bytes(s, off + 18, 2), 2)
        &&& self.milli_second as int == to_signed(be_bytes(s, off + 20, 2), 2)
        &&& self.reserved4 as int == to_signed(be_bytes(s, off + 22, 2), 2)
        &&& self.reserved5 as int == to_signed(be_bytes(s, off + 24, 2), 2)
        &&& self.filler as int == to_signed(be_bytes(s, off + 26, 2), 2)
        &&& self.reserved6 as int == to_signed(be_bytes(s, off + 28, 2), 2)
        &&& self.ession_number as int == to_signed(be_bytes(s, off + 30, 2), 2)
        &&& self.reserved7 as int == to_signed(be_bytes(s, off + 32, 4), 4)
        &&& self.reserved8 == s[off + 36]
        &&& self.reserved9 == s[off + 37]
        &&& self.reserved10@ == s.subrange(off + 38, off + 38 + 2)
    }

    #[verifier::rlimit(100)]
    pub fn from_bytes(buf: &[u8], off: usize) -> (r: Self)
        requires
            off + BCAST_AUCTION_SESSION_CHANGE_SIZE <= buf@.len(),
        ensures
            r.parsed_from(buf@, off as int),
            r.wf(),
    {
        let n: usize = buf.len();
        let message_type = read_i32_be(buf, off + 0);
        let reserved1 = read_i32_be(buf, off + 4);
        let reserved2 = read_i32_be(buf, off + 8);
        let reserved3 = read_u16_be(buf, off + 12);
        let hour = read_i16_be(buf, off + 14);
        let minute = read_i16_be(buf, off + 16);
        let econd = read_i16_be(buf, off + 18);
        let milli_second = read_i16_be(buf, off + 20);
        let reserved4 = read_i16_be(buf, off + 22);
        let reserved5 = read_i16_be(buf, off + 24);
        let filler = read_i16_be(buf, off + 26);
        let reserved6 = read_i16_be(buf, off + 28);
        let ession_number = read_i16_be(buf, off + 30);
        let reserved7 = read_i32_be(buf, off + 32);
        let reserved8 = read_u8(buf, off + 36);
        let reserved9 = read_u8(buf, off + 37);
        let reserved10 = read_bytes(buf, off + 38, 2);
        BcastAuctionSessionChange {
            message_type,
            reserved1,
            reserved2,
            reserved3,
            hour,
            minute,
            econd,
            milli_second,
            reserved4,
            reserved5,
            filler,
            reserved6,
            ession_number,
            reserved7,
            reserved8,
            reserved9,
            reserved10,
        }
    }

    /// The record's little-endian serialized bytes, padding zeroed.
    pub open spec fn spec_ser(self) -> Seq<u8> {
        spec_i32_le(self.message_type)
            + spec_i32_le(self.reserved1)
            + spec_i32_le(self.reserved2)
            + spec_u16_le(self.reserved3)
            + spec_i16_le(self.hour)
            + spec_i16_le(self.minute)
            + spec_i16_le(self.econd)
            + spec_i16_le(self.milli_second)
            + spec_i16_le(self.reserved4)
            + spec_i16_le(self.reserved5)
            + spec_i16_le(self.filler)
            + spec_i16_le(self.reserved6)
            + spec_i16_le(self.ession_number)
            + spec_i32_le(self.reserved7)
            + seq![self.reserved8]
            + seq![self.reserved9]
            + self.reserved10@
    }

    #[verifier::rlimit(100)]
    pub proof fn lemma_ser_len(self)
        requires
            self.wf(),
        ensures
            self.spec_ser().len() == BCAST_AUCTION_SESSION_CHANGE_SIZE,
    {
        broadcast use crate::bytesio::group_le_lens;

    }

    #[verifier::rlimit(100)]
    #[verifier::spinoff_prover]
    pub fn to_bytes_vec(&self) -> (r: Vec<u8>)
        requires
            self.wf(),
        ensures
            r@ == self.spec_ser(),
    {
        let mut out: Vec<u8> = Vec::new();
        push_i32_le(&mut out, self.message_type);
        push_i32_le(&mut out, self.reserved1);
        push_i32_le(&mut out, self.reserved2);
        push_u16_le(&mut out, self.reserved3);
        push_i16_le(&mut out, self.hour);
        push_i16_le(&mut out, self.minute);
        push_i16_le(&mut out, self.econd);
        push_i16_le(&mut out, self.milli_second);
        push_i16_le(&mut out, self.reserved4);
        push_i16_le(&mut out, self.reserved5);
        push_i16_le(&mut out, self.filler);
        push_i16_le(&mut out, self.reserved6);
        push_i16_le(&mut out, self.ession_number);
        push_i32_le(&mut out, self.reserved7);
        push_u8(&mut out, self.reserved8);
        push_u8(&mut out, self.reserved9);
        push_bytes(&mut out, self.reserved10.as_slice());
        proof {
            assert(out@ =~= self.spec_ser());
        }
        out
    }
}

pub const BCAST_NEWS_HEADLINE_SIZE: usize = 78;

#[derive(Clone)]
pub struct BcastNewsHeadline {
    pub message_type: i32,
    pub reserved1: i32,
    pub reserved2: i32,
    pub reserved3: u16,
    pub hour: i16,
    pub minute: i16,
    pub econd: i16,
    pub milli_second: i16,
    pub reserved4: i16,
    pub reserved5: i16,
    pub news_category: i16,
    pub reserved7: i16,
    pub news_id: i32,
    pub news_headline: Vec<u8>,
    pub reserved8: u8,
    pub reserved9: u8,
    pub reserved10: Vec<u8>,
}

impl BcastNewsHeadline {
    pub open spec fn wf(self) -> bool {
        &&& self.news_headline@.len() == 40
        &&& self.reserved10@.len() == 2
    }

    /// Exactly which big-endian wire bytes each field was read from.
    pub open spec fn parsed_from(self, s: Seq<u8>, off: int) -> bool {
        &&& self.message_type as int == to_signed(be_bytes(s, off + 0, 4), 4)
        &&& self.reserved1 as int == to_signed(be_bytes(s, off + 4, 4), 4)
        &&& self.reserved2 as int == to_signed(be_bytes(s, off + 8, 4), 4)
        &&& self.reserved3 as int == be_bytes(s, off + 12, 2)
        &&& self.hour as int == to_signed(be_bytes(s, off + 14, 2), 2)
        &&& self.minute as int == to_signed(be_bytes(s, off + 16, 2), 2)
        &&& self.econd as int == to_signed(be_bytes(s, off + 18, 2), 2)
        &&& self.milli_second as int == to_signed(be_bytes(s, off + 20, 2), 2)
        &&& self.reserved4 as int == to_signed(be_bytes(s, off + 22, 2), 2)
        &&& self.reserved5 as int == to_signed(be_bytes(s, off + 24, 2), 2)
        &&& self.news_category as int == to_signed(be_bytes(s, off + 26, 2), 2)
        &&& self.reserved7 as int == to_signed(be_bytes(s, off + 28, 2), 2)
        &&& self.news_id as int == to_signed(be_bytes(s, off + 30, 4), 4)
        &&& self.news_headline@ == s.subrange(off + 34, off + 34 + 40)
        &&& self.reserved8 == s[off + 74]
        &&& self.reserved9 == s[off + 75]
        &&& self.reserved10@ == s.subrange(off + 76, off + 76 + 2)
    }

    #[verifier::rlimit(100)]
    pub fn from_bytes(buf: &[u8], off: usize) -> (r: Self)
        requires
            off + BCAST_NEWS_HEADLINE_SIZE <= buf@.len(),
        ensures
            r.parsed_from(buf@, off as int),
            r.wf(),
    {
        let n: usize = buf.len();
        let message_type = read_i32_be(buf, off + 0);
        let reserved1 = read_i32_be(buf, off + 4);
        let reserved2 = read_i32_be(buf, off + 8);
        let reserved3 = read_u16_be(buf, off + 12);
        let hour = read_i16_be(buf, off + 14);
        let minute = read_i16_be(buf, off + 16);
        let econd = read_i16_be(buf, off + 18);
        let milli_second = read_i16_be(buf, off + 20);
        let reserved4 = read_i16_be(buf, off + 22);
        let reserved5 = read_i16_be(buf, off + 24);
        let news_category = read_i16_be(buf, off + 26);
        let reserved7 = read_i16_be(buf, off + 28);
        let news_id = read_i32_be(buf, off + 30);
        let news_headline = read_bytes(buf, off + 34, 40);
        let reserved8 = read_u8(buf, off + 74);
        let reserved9 = read_u8(buf, off + 75);
        let reserved10 = read_bytes(buf, off + 76, 2);
        BcastNewsHeadline {
            message_type,
            reserved1,
            reserved2,
            reserved3,
            hour,
            minute,
            econd,
            milli_second,
            reserved4,
            reserved5,
            news_category,
            reserved7,
            news_id,
            news_headline,
            reserved8,
            reserved9,
            reserved10,
        }
    }

    /// The record's little-endian serialized bytes, padding zeroed.
    pub open spec fn spec_ser(self) -> Seq<u8> {
        spec_i32_le(self.message_type)
            + spec_i32_le(self.reserved1)
            + spec_i32_le(self.reserved2)
            + spec_u16_le(self.reserved3)
            + spec_i16_le(self.hour)
            + spec_i16_le(self.minute)
            + spec_i16_le(self.econd)
            + spec_i16_le(self.milli_second)
            + spec_i16_le(self.reserved4)
            + spec_i16_le(self.reserved5)
            + spec_i16_le(self.news_category)
            + spec_i16_le(self.reserved7)
            + spec_i32_le(self.news_id)
            + self.news_headline@
            + seq![self.reserved8]
            + seq![self.reserved9]
            + self.reserved10@
    }

    #[verifier::rlimit(100)]
    pub proof fn lemma_ser_len(self)
        requires
            self.wf(),
        ensures
            self.spec_ser().len() == BCAST_NEWS_HEADLINE_SIZE,
    {
        broadcast use crate::bytesio::group_le_lens;

    }

    #[verifier::rlimit(100)]
    #[verifier::spinoff_prover]
    pub fn to_bytes_vec(&self) -> (r: Vec<u8>)
        requires
            self.wf(),
        ensures
            r@ == self.spec_ser(),
    {
        let mut out: Vec<u8> = Vec::new();
        push_i32_le(&mut out, self.message_type);
        push_i32_le(&mut out, self.reserved1);
        push_i32_le(&mut out, self.reserved2);
        push_u16_le(&mut out, self.reserved3);
        push_i16_le(&mut out, self.hour);
        push_i16_le(&mut out, self.minute);
        push_i16_le(&mut out, self.econd);
        push_i16_le(&mut out, self.milli_second);
        push_i16_le(&mut out, self.reserved4);
        push_i16_le(&mut out, self.reserved5);
        push_i16_le(&mut out, self.news_category);
        push_i16_le(&mut out, self.reserved7);
        push_i32_le(&mut out, self.news_id);
        push_bytes(&mut out, self.news_headline.as_slice());
        push_u8(&mut out, self.reserved8);
        push_u8(&mut out, self.reserved9);
        push_bytes(&mut out, self.reserved10.as_slice());
        proof {
            assert(out@ =~= self.spec_ser());
        }
        out
    }
}

pub const BCAST_MBP_DATA_SIZE: usize = 32;

#[derive(Clone, Copy)]
pub struct BcastMBPData {
    pub best_bid_rate: i32,
    pub total_bid_qty: i32,
    pub no_of_bid_at_price_point: i32,
    pub implied_buy_qty: i32,
    pub best_offer_rate: i32,
    pub total_offer_qty: i32,
    pub no_of_offer_at_price_point: i32,
    pub implied_sell_qty: i32,
}

impl BcastMBPData {
    pub open spec fn wf(self) -> bool {
        true
    }

    /// Exactly which big-endian wire bytes each field was read from.
    pub open spec fn parsed_from(self, s: Seq<u8>, off: int) -> bool {
        &&& self.best_bid_rate as int == to_signed(be_bytes(s, off + 0, 4), 4)
        &&& self.total_bid_qty as int == to_signed(be_bytes(s, off + 4, 4), 4)
        &&& self.no_of_bid_at_price_point as int == to_signed(be_bytes(s, off + 8, 4), 4)
        &&& self.implied_buy_qty as int == to_signed(be_bytes(s, off + 12, 4), 4)
        &&& self.best_offer_rate as int == to_signed(be_bytes(s, off + 16, 4), 4)
        &&& self.total_offer_qty as int == to_signed(be_bytes(s, off + 20, 4), 4)
        &&& self.no_of_offer_at_price_point as int == to_signed(be_bytes(s, off + 24, 4), 4)
        &&& self.implied_sell_qty as int == to_signed(be_bytes(s, off + 28, 4), 4)
    }

    #[verifier::rlimit(100)]
    pub fn from_bytes(buf: &[u8], off: usize) -> (r: Self)
        requires
            off + BCAST_MBP_DATA_SIZE <= buf@.len(),
        ensures
            r.parsed_from(buf@, off as int),
            r.wf(),
    {
        let n: usize = buf.len();
        let best_bid_rate = read_i32_be(buf, off + 0);
        let total_bid_qty = read_i32_be(buf, off + 4);
        let no_of_bid_at_price_point = read_i32_be(buf, off + 8);
        let implied_buy_qty = read_i32_be(buf, off + 12);
        let best_offer_rate = read_i32_be(buf, off + 16);
        let total_offer_qty = read_i32_be(buf, off + 20);
        let no_of_offer_at_price_point = read_i32_be(buf, off + 24);
        let implied_sell_qty = read_i32_be(buf, off + 28);
        BcastMBPData {
            best_bid_rate,
            total_bid_qty,
            no_of_bid_at_price_point,
            implied_buy_qty,
            best_offer_rate,
            total_offer_qty,
            no_of_offer_at_price_point,
            implied_sell_qty,
        }
    }

    /// The record's little-endian serialized bytes, padding zeroed.
    pub open spec fn spec_ser(self) -> Seq<u8> {
        spec_i32_le(self.best_bid_rate)
            + spec_i32_le(self.total_bid_qty)
            + spec_i32_le(self.no_of_bid_at_price_point)
            + spec_i32_le(self.implied_buy_qty)
            + spec_i32_le(self.best_offer_rate)
            + spec_i32_le(self.total_offer_qty)
            + spec_i32_le(self.no_of_offer_at_price_point)
            + spec_i32_le(self.implied_sell_qty)
    }

    #[verifier::rlimit(100)]
    pub proof fn lemma_ser_len(self)
        requires
            self.wf(),
        ensures
            self.spec_ser().len() == BCAST_MBP_DATA_SIZE,
    {
        broadcast use crate::bytesio::group_le_lens;

    }

    #[verifier::rlimit(100)]
    #[verifier::spinoff_prover]
    pub fn to_bytes_vec(&self) -> (r: Vec<u8>)
        requires
            self.wf(),
        ensures
            r@ == self.spec_ser(),
    {
        let mut out: Vec<u8> = Vec::new();
        push_i32_le(&mut out, self.best_bid_rate);
        push_i32_le(&mut out, self.total_bid_qty);
        push_i32_le(&mut out, self.no_of_bid_at_price_point);
        push_i32_le(&mut out, self.implied_buy_qty);
        push_i32_le(&mut out, self.best_offer_rate);
        push_i32_le(&mut out, self.total_offer_qty);
        push_i32_le(&mut out, self.no_of_offer_at_price_point);
        push_i32_le(&mut out, self.implied_sell_qty);
        proof {
            assert(out@ =~= self.spec_ser());
        }
        out
    }
}

/// Concatenated serialization of a sequence of `BcastMBPData` records.
pub open spec fn ser_seq_bcast_mbp_data(a: Seq<BcastMBPData>) -> Seq<u8>
    decreases a.len(),
{
    if a.len() == 0 {
        Seq::empty()
    } else {
        ser_seq_bcast_mbp_data(a.drop_last()) + a.last().spec_ser()
    }
}

pub proof fn lemma_ser_seq_bcast_mbp_data_len(a: Seq<BcastMBPData>)
    requires
        forall|k: int| 0 <= k < a.len() ==> (#[trigger] a[k]).wf(),
    ensures
        ser_seq_bcast_mbp_data(a).len() == a.len() * BCAST_MBP_DATA_SIZE,
    decreases a.len(),
{
    if a.len() == 0 {
    } else {
        lemma_ser_seq_bcast_mbp_data_len(a.drop_last());
        a.last().lemma_ser_len();
        assert((a.len() - 1) * BCAST_MBP_DATA_SIZE + BCAST_MBP_DATA_SIZE == a.len() * BCAST_MBP_DATA_SIZE) by (nonlinear_arith);
    }
}


pub const BCAST_MBP_DETAILS_SIZE: usize = 264;

#[derive(Clone)]
pub struct BcastMBPDetails {
    pub instrument: i32,
    pub no_of_trades: i32,
    pub traded_volume: i32,
    pub traded_value: i32,
    pub trade_value_flag: u8,
    pub reserved6: u8,
    pub reserved7: u8,
    pub reserved8: Vec<u8>,
    pub market_type: i16,
    pub ession_number: i16,
    pub ltp_hour: u8,
    pub ltp_minute: u8,
    pub ltp_second: u8,
    pub ltp_milli_second: Vec<u8>,
    pub reserved9: Vec<u8>,
    pub reserved10: i16,
    pub no_of_price_points: i16,
    pub timestamp: i64,
    pub close_rate: i32,
    pub ltq: i32,
    pub ltp: i32,
    pub open_rate: i32,
    pub prev_close_rate: i32,
    pub high_rate: i32,
    pub low_rate: i32,
    pub block_deal_ref_rate: i32,
    pub indicative_equilibrium_price: i32,
    pub indicative_equilibrium_qty: i32,
    pub total_bid_qty: i32,
    pub total_offer_qty: i32,
    pub lower_price_band: i32,
    pub upper_price_band: i32,
    pub weighted_avg_price: i32,
    pub mbp_data: Vec<BcastMBPData>,
}

impl BcastMBPDetails {
    pub open spec fn wf(self) -> bool {
        &&& self.reserved8@.len() == 1
        &&& self.ltp_milli_second@.len() == 3
        &&& self.reserved9@.len() == 2
        &&& self.mbp_data@.len() == 5
        &&& (forall|k: int| 0 <= k < 5 ==> (#[trigger] self.mbp_data@[k]).wf())
    }

    /// Exactly which big-endian wire bytes each field was read from.
    pub open spec fn parsed_from(self, s: Seq<u8>, off: int) -> bool {
        &&& self.instrument as int == to_signed(be_bytes(s, off + 0, 4), 4)
        &&& self.no_of_trades as int == to_signed(be_bytes(s, off + 4, 4), 4)
        &&& self.traded_volume as int == to_signed(be_bytes(s, off + 8, 4), 4)
        &&& self.traded_value as int == to_signed(be_bytes(s, off + 12, 4), 4)
        &&& self.trade_value_flag == s[off + 16]
        &&& self.reserved6 == s[off + 17]
        &&& self.reserved7 == s[off + 18]
        &&& self.reserved8@ == s.subrange(off + 19, off + 19 + 1)
        &&& self.market_type as int == to_signed(be_bytes(s, off + 20, 2), 2)
        &&& self.ession_number as int == to_signed(be_bytes(s, off + 22, 2), 2)
        &&& self.ltp_hour == s[off + 24]
        &&& self.ltp_minute == s[off + 25]
        &&& self.ltp_second == s[off + 26]
        &&& self.ltp_milli_second@ == s.subrange(off + 27, off + 27 + 3)
        &&& self.reserved9@ == s.subrange(off + 30, off + 30 + 2)
        &&& self.reserved10 as int == to_signed(be_bytes(s, off + 32, 2), 2)
        &&& self.no_of_price_points as int == to_signed(be_bytes(s, off + 34, 2), 2)
        &&& self.timestamp as int == to_signed(be_bytes(s, off + 36, 8), 8)
        &&& self.close_rate as int == to_signed(be_bytes(s, off + 44, 4), 4)
        &&& self.ltq as int == to_signed(be_bytes(s, off + 48, 4), 4)
        &&& self.ltp as int == to_signed(be_bytes(s, off + 52, 4), 4)
        &&& self.open_rate as int == to_signed(be_bytes(s, off + 56, 4), 4)
        &&& self.prev_close_rate as int == to_signed(be_bytes(s, off + 60, 4), 4)
        &&& self.high_rate as int == to_signed(be_bytes(s, off + 64, 4), 4)
        &&& self.low_rate as int == to_signed(be_bytes(s, off + 68, 4), 4)
        &&& self.block_deal_ref_rate as int == to_signed(be_bytes(s, off + 72, 4), 4)
        &&& self.indicative_equilibrium_price as int == to_signed(be_bytes(s, off + 76, 4), 4)
        &&& self.indicative_equilibrium_qty as int == to_signed(be_bytes(s, off + 80, 4), 4)
        &&& self.total_bid_qty as int == to_signed(be_bytes(s, off + 84, 4), 4)
        &&& self.total_offer_qty as int == to_signed(be_bytes(s, off + 88, 4), 4)
        &&& self.lower_price_band as int == to_signed(be_bytes(s, off + 92, 4), 4)
        &&& self.upper_price_band as int == to_signed(be_bytes(s, off + 96, 4), 4)
        &&& self.weighted_avg_price as int == to_signed(be_bytes(s, off + 100, 4), 4)
        &&& self.mbp_data@.len() == 5
        &&& (forall|k: int| 0 <= k < 5 ==> (#[trigger] self.mbp_data@[k]).parsed_from(s, off + 104 + k * 32))
    }

    #[verifier::rlimit(100)]
    pub fn from_bytes(buf: &[u8], off: usize) -> (r: Self)
        requires
            off + BCAST_MBP_DETAILS_SIZE <= buf@.len(),
        ensures
            r.parsed_from(buf@, off as int),
            r.wf(),
    {
        let n: usize = buf.len();
        let instrument = read_i32_be(buf, off + 0);
        let no_of_trades = read_i32_be(buf, off + 4);
        let traded_volume = read_i32_be(buf, off + 8);
        let traded_value = read_i32_be(buf, off + 12);
        let trade_value_flag = read_u8(buf, off + 16);
        let reserved6 = read_u8(buf, off + 17);
        let reserved7 = read_u8(buf, off + 18);
        let reserved8 = read_bytes(buf, off + 19, 1);
        let market_type = read_i16_be(buf, off + 20);
        let ession_number = read_i16_be(buf, off + 22);
        let ltp_hour = read_u8(buf, off + 24);
        let ltp_minute = read_u8(buf, off + 25);
        let ltp_second = read_u8(buf, off + 26);
        let ltp_milli_second = read_bytes(buf, off + 27, 3);
        let reserved9 = read_bytes(buf, off + 30, 2);
        let reserved10 = read_i16_be(buf, off + 32);
        let no_of_price_points = read_i16_be(buf, off + 34);
        let timestamp = read_i64_be(buf, off + 36);
        let close_rate = read_i32_be(buf, off + 44);
        let ltq = read_i32_be(buf, off + 48);
        let ltp = read_i32_be(buf, off + 52);
        let open_rate = read_i32_be(buf, off + 56);
        let prev_close_rate = read_i32_be(buf, off + 60);
        let high_rate = read_i32_be(buf, off + 64);
        let low_rate = read_i32_be(buf, off + 68);
        let block_deal_ref_rate = read_i32_be(buf, off + 72);
        let indicative_equilibrium_price = read_i32_be(buf, off + 76);
        let indicative_equilibrium_qty = read_i32_be(buf, off + 80);
        let total_bid_qty = read_i32_be(buf, off + 84);
        let total_offer_qty = read_i32_be(buf, off + 88);
        let lower_price_band = read_i32_be(buf, off + 92);
        let upper_price_band = read_i32_be(buf, off + 96);
        let weighted_avg_price = read_i32_be(buf, off + 100);
        let mut mbp_data: Vec<BcastMBPData> = Vec::new();
        let mut k_mbp_data: usize = 0;
        while k_mbp_data < 5
            invariant
                k_mbp_data <= 5,
                n == buf@.len(),
                off + BCAST_MBP_DETAILS_SIZE <= n,
                mbp_data@.len() == k_mbp_data,
                forall|x: int| 0 <= x < k_mbp_data ==> (#[trigger] mbp_data@[x]).parsed_from(buf@, off + 104 + x * 32) && mbp_data@[x].wf(),
            decreases 5 - k_mbp_data,
        {
            mbp_data.push(BcastMBPData::from_bytes(buf, off + 104 + k_mbp_data * 32));
            k_mbp_data = k_mbp_data + 1;
        }
        BcastMBPDetails {
            instrument,
            no_of_trades,
            traded_volume,
            traded_value,
            trade_value_flag,
            reserved6,
            reserved7,
            reserved8,
            market_type,
            ession_number,
            ltp_hour,
            ltp_minute,
            ltp_second,
            ltp_milli_second,
            reserved9,
            reserved10,
            no_of_price_points,
            timestamp,
            close_rate,
            ltq,
            ltp,
            open_rate,
            prev_close_rate,
            high_rate,
            low_rate,
            block_deal_ref_rate,
            indicative_equilibrium_price,
            indicative_equilibrium_qty,
            total_bid_qty,
            total_offer_qty,
            lower_price_band,
            upper_price_band,
            weighted_avg_price,
            mbp_data,
        }
    }

    /// The record's little-endian serialized bytes, padding zeroed.
    pub open spec fn spec_ser(self) -> Seq<u8> {
        spec_i32_le(self.instrument)
            + spec_i32_le(self.no_of_trades)
            + spec_i32_le(self.traded_volume)
            + spec_i32_le(self.traded_value)
            + seq![self.trade_value_flag]
            + seq![self.reserved6]
            + seq![self.reserved7]
            + self.reserved8@
            + spec_i16_le(self.market_type)
            + spec_i16_le(self.ession_number)
            + seq![self.ltp_hour]
            + seq![self.ltp_minute]
            + seq![self.ltp_second]
            + self.ltp_milli_second@
            + self.reserved9@
            + spec_i16_le(self.reserved10)
            + spec_i16_le(self.no_of_price_points)
            + spec_i64_le(self.timestamp)
            + spec_i32_le(self.close_rate)
            + spec_i32_le(self.ltq)
            + spec_i32_le(self.ltp)
            + spec_i32_le(self.open_rate)
            + spec_i32_le(self.prev_close_rate)
            + spec_i32_le(self.high_rate)
            + spec_i32_le(self.low_rate)
            + spec_i32_le(self.block_deal_ref_rate)
            + spec_i32_le(self.indicative_equilibrium_price)
            + spec_i32_le(self.indicative_equilibrium_qty)
            + spec_i32_le(self.total_bid_qty)
            + spec_i32_le(self.total_offer_qty)
            + spec_i32_le(self.lower_price_band)
            + spec_i32_le(self.upper_price_band)
            + spec_i32_le(self.weighted_avg_price)
            + ser_seq_bcast_mbp_data(self.mbp_data@)
    }

    #[verifier::rlimit(100)]
    pub proof fn lemma_ser_len(self)
        requires
            self.wf(),
        ensures
            self.spec_ser().len() == BCAST_MBP_DETAILS_SIZE,
    {
        broadcast use crate::bytesio::group_le_lens;

        lemma_ser_seq_bcast_mbp_data_len(self.mbp_data@);
    }

    #[verifier::rlimit(100)]
    #[verifier::spinoff_prover]
    pub fn to_bytes_vec(&self) -> (r: Vec<u8>)
        requires
            self.wf(),
        ensures
            r@ == self.spec_ser(),
    {
        let mut out: Vec<u8> = Vec::new();
        push_i32_le(&mut out, self.instrument);
        push_i32_le(&mut out, self.no_of_trades);
        push_i32_le(&mut out, self.traded_volume);
        push_i32_le(&mut out, self.traded_value);
        push_u8(&mut out, self.trade_value_flag);
        push_u8(&mut out, self.reserved6);
        push_u8(&mut out, self.reserved7);
        push_bytes(&mut out, self.reserved8.as_slice());
        push_i16_le(&mut out, self.market_type);
        push_i16_le(&mut out, self.ession_number);
        push_u8(&mut out, self.ltp_hour);
        push_u8(&mut out, self.ltp_minute);
        push_u8(&mut out, self.ltp_second);
        push_bytes(&mut out, self.ltp_milli_second.as_slice());
        push_bytes(&mut out, self.reserved9.as_slice());
        push_i16_le(&mut out, self.reserved10);
        push_i16_le(&mut out, self.no_of_price_points);
        push_i64_le(&mut out, self.timestamp);
        push_i32_le(&mut out, self.close_rate);
        push_i32_le(&mut out, self.ltq);
        push_i32_le(&mut out, self.ltp);
        push_i32_le(&mut out, self.open_rate);
        push_i32_le(&mut out, self.prev_close_rate);
        push_i32_le(&mut out, self.high_rate);
        push_i32_le(&mut out, self.low_rate);
        push_i32_le(&mut out, self.block_deal_ref_rate);
        push_i32_le(&mut out, self.indicative_equilibrium_price);
        push_i32_le(&mut out, self.indicative_equilibrium_qty);
        push_i32_le(&mut out, self.total_bid_qty);
        push_i32_le(&mut out, self.total_offer_qty);
        push_i32_le(&mut out, self.lower_price_band);
        push_i32_le(&mut out, self.upper_price_band);
        push_i32_le(&mut out, self.weighted_avg_price);
        let ghost pre_mbp_data = out@;
        let mut k_mbp_data: usize = 0;
        while k_mbp_data < 5
            invariant
                k_mbp_data <= 5,
                self.mbp_data@.len() == 5,
                forall|k: int| 0 <= k < 5 ==> (#[trigger] self.mbp_data@[k]).wf(),
                out@ == pre_mbp_data + ser_seq_bcast_mbp_data(self.mbp_data@.take(k_mbp_data as int)),
            decreases 5 - k_mbp_data,
        {
            let mut one = self.mbp_data[k_mbp_data].to_bytes_vec();
            out.append(&mut one);
            proof {
                let t = self.mbp_data@.take(k_mbp_data + 1);
                assert(t.drop_last() =~= self.mbp_data@.take(k_mbp_data as int));
                assert(t.last() == self.mbp_data@[k_mbp_data as int]);
                assert(out@ =~= pre_mbp_data + ser_seq_bcast_mbp_data(t));
            }
            k_mbp_data = k_mbp_data + 1;
        }
        proof {
            assert(self.mbp_data@.take(5) =~= self.mbp_data@);
        }
        proof {
            assert(out@ =~= self.spec_ser());
        }
        out
    }
}

/// Concatenated serialization of a sequence of `BcastMBPDetails` records.
pub open spec fn ser_seq_bcast_mbp_details(a: Seq<BcastMBPDetails>) -> Seq<u8>
    decreases a.len(),
{
    if a.len() == 0 {
        Seq::empty()
    } else {
        ser_seq_bcast_mbp_details(a.drop_last()) + a.last().spec_ser()
    }
}

pub proof fn lemma_ser_seq_bcast_mbp_details_len(a: Seq<BcastMBPDetails>)
    requires
        forall|k: int| 0 <= k < a.len() ==> (#[trigger] a[k]).wf(),
    ensures
        ser_seq_bcast_mbp_details(a).len() == a.len() * BCAST_MBP_DETAILS_SIZE,
    decreases a.len(),
{
    if a.len() == 0 {
    } else {
        lemma_ser_seq_bcast_mbp_details_len(a.drop_last());
        a.last().lemma_ser_len();
        assert((a.len() - 1) * BCAST_MBP_DETAILS_SIZE + BCAST_MBP_DETAILS_SIZE == a.len() * BCAST_MBP_DETAILS_SIZE) by (nonlinear_arith);
    }
}


pub const BCAST_MARKET_PICTURE_SIZE: usize = 1612;

#[derive(Clone)]
pub struct BcastMarketPicture {
    pub message_type: i32,
    pub reserved1: i32,
    pub reserved2: i32,
    pub reserved3: u16,
    pub hour: i16,
    pub minute: i16,
    pub econd: i16,
    pub milli_second: i16,
    pub reserved4: i16,
    pub reserved5: i16,
    pub no_of_records: i16,
    pub mbp_details: Vec<BcastMBPDetails>,
}

impl BcastMarketPicture {
    pub open spec fn wf(self) -> bool {
        &&& self.mbp_details@.len() == 6
        &&& (forall|k: int| 0 <= k < 6 ==> (#[trigger] self.mbp_details@[k]).wf())
    }

    /// Exactly which big-endian wire bytes each field was read from.
    pub open spec fn parsed_from(self, s: Seq<u8>, off: int) -> bool {
        &&& self.message_type as int == to_signed(be_bytes(s, off + 0, 4), 4)
        &&& self.reserved1 as int == to_signed(be_bytes(s, off + 4, 4), 4)
        &&& self.reserved2 as int == to_signed(be_bytes(s, off + 8, 4), 4)
        &&& self.reserved3 as int == be_bytes(s, off + 12, 2)
        &&& self.hour as int == to_signed(be_bytes(s, off + 14, 2), 2)
        &&& self.minute as int == to_signed(be_bytes(s, off + 16, 2), 2)
        &&& self.econd as int == to_signed(be_bytes(s, off + 18, 2), 2)
        &&& self.milli_second as int == to_signed(be_bytes(s, off + 20, 2), 2)
        &&& self.reserved4 as int == to_signed(be_bytes(s, off + 22, 2), 2)
        &&& self.reserved5 as int == to_signed(be_bytes(s, off + 24, 2), 2)
        &&& self.no_of_records as int == to_signed(be_bytes(s, off + 26, 2), 2)
        &&& self.mbp_details@.len() == 6
        &&& (forall|k: int| 0 <= k < 6 ==> (#[trigger] self.mbp_details@[k]).parsed_from(s, off + 28 + k * 264))
    }

    #[verifier::rlimit(100)]
    pub fn from_bytes(buf: &[u8], off: usize) -> (r: Self)
        requires
            off + BCAST_MARKET_PICTURE_SIZE <= buf@.len(),
        ensures
            r.parsed_from(buf@, off as int),
            r.wf(),
    {
        let n: usize = buf.len();
        let message_type = read_i32_be(buf, off + 0);
        let reserved1 = read_i32_be(buf, off + 4);
        let reserved2 = read_i32_be(buf, off + 8);
        let reserved3 = read_u16_be(buf, off + 12);
        let hour = read_i16_be(buf, off + 14);
        let minute = read_i16_be(buf, off + 16);
        let econd = read_i16_be(buf, off + 18);
        let milli_second = read_i16_be(buf, off + 20);
        let reserved4 = read_i16_be(buf, off + 22);
        let reserved5 = read_i16_be(buf, off + 24);
        let no_of_records = read_i16_be(buf, off + 26);
        let mut mbp_details: Vec<BcastMBPDetails> = Vec::new();
        let mut k_mbp_details: usize = 0;
        while k_mbp_details < 6
            invariant
                k_mbp_details <= 6,
                n == buf@.len(),
                off + BCAST_MARKET_PICTURE_SIZE <= n,
                mbp_details@.len() == k_mbp_details,
                forall|x: int| 0 <= x < k_mbp_details ==> (#[trigger] mbp_details@[x]).parsed_from(buf@, off + 28 + x * 264) && mbp_details@[x].wf(),
            decreases 6 - k_mbp_details,
        {
            mbp_details.push(BcastMBPDetails::from_bytes(buf, off + 28 + k_mbp_details * 264));
            k_mbp_details = k_mbp_details + 1;
        }
        BcastMarketPicture {
            message_type,
            reserved1,
            reserved2,
            reserved3,
            hour,
            minute,
            econd,
            milli_second,
            reserved4,
            reserved5,
            no_of_records,
            mbp_details,
        }
    }

    /// The record's little-endian serialized bytes, padding zeroed.
    pub open spec fn spec_ser(self) -> Seq<u8> {
        spec_i32_le(self.message_type)
            + spec_i32_le(self.reserved1)
            + spec_i32_le(self.reserved2)
            + spec_u16_le(self.reserved3)
            + spec_i16_le(self.hour)
            + spec_i16_le(self.minute)
            + spec_i16_le(self.econd)
            + spec_i16_le(self.milli_second)
            + spec_i16_le(self.reserved4)
            + spec_i16_le(self.reserved5)
            + spec_i16_le(self.no_of_records)
            + ser_seq_bcast_mbp_details(self.mbp_details@)
    }

    #[verifier::rlimit(100)]
    pub proof fn lemma_ser_len(self)
        requires
            self.wf(),
        ensures
            self.spec_ser().len() == BCAST_MARKET_PICTURE_SIZE,
    {
        broadcast use crate::bytesio::group_le_lens;

        lemma_ser_seq_bcast_mbp_details_len(self.mbp_details@);
    }

    #[verifier::rlimit(100)]
    #[verifier::spinoff_prover]
    pub fn to_bytes_vec(&self) -> (r: Vec<u8>)
        requires
            self.wf(),
        ensures
            r@ == self.spec_ser(),
    {
        let mut out: Vec<u8> = Vec::new();
        push_i32_le(&mut out, self.message_type);
        push_i32_le(&mut out, self.reserved1);
        push_i32_le(&mut out, self.reserved2);
        push_u16_le(&mut out, self.reserved3);
        push_i16_le(&mut out, self.hour);
        push_i16_le(&mut out, self.minute);
        push_i16_le(&mut out, self.econd);
        push_i16_le(&mut out, self.milli_second);
        push_i16_le(&mut out, self.reserved4);
        push_i16_le(&mut out, self.reserved5);
        push_i16_le(&mut out, self.no_of_records);
        let ghost pre_mbp_details = out@;
        let mut k_mbp_details: usize = 0;
        while k_mbp_details < 6
            invariant
                k_mbp_details <= 6,
                self.mbp_details@.len() == 6,
                forall|k: int| 0 <= k < 6 ==> (#[trigger] self.mbp_details@[k]).wf(),
                out@ == pre_mbp_details + ser_seq_bcast_mbp_details(self.mbp_details@.take(k_mbp_details as int)),
            decreases 6 - k_mbp_details,
        {
            let mut one = self.mbp_details[k_mbp_details].to_bytes_vec();
            out.append(&mut one);
            proof {
                let t = self.mbp_details@.take(k_mbp_details + 1);
                assert(t.drop_last() =~= self.mbp_details@.take(k_mbp_details as int));
                assert(t.last() == self.mbp_details@[k_mbp_details as int]);
                assert(out@ =~= pre_mbp_details + ser_seq_bcast_mbp_details(t));
            }
            k_mbp_details = k_mbp_details + 1;
        }
        proof {
            assert(self.mbp_details@.take(6) =~= self.mbp_details@);
        }
        proof {
            assert(out@ =~= self.spec_ser());
        }
        out
    }
}

pub const BCAST_COMPLEX_MBP_DETAILS_SIZE: usize = 268;

#[derive(Clone)]
pub struct BcastComplexMBPDetails {
    pub contract_code: i64,
    pub no_of_trades: i32,
    pub traded_volume: i32,
    pub traded_value: i32,
    pub trade_value_flag: u8,
    pub reserved6: u8,
    pub reserved7: u8,
    pub reserved8: Vec<u8>,
    pub market_type: i16,
    pub ession_number: i16,
    pub ltp_hour: u8,
    pub ltp_minute: u8,
    pub ltp_second: u8,
    pub ltp_milli_second: Vec<u8>,
    pub reserved9: Vec<u8>,
    pub reserved10: i16,
    pub no_of_price_points: i16,
    pub timestamp: i64,
    pub close_rate: i32,
    pub ltq: i32,
    pub ltp: i32,
    pub open_rate: i32,
    pub prev_close_rate: i32,
    pub high_rate: i32,
    pub low_rate: i32,
    pub block_deal_ref_rate: i32,
    pub indicative_equilibrium_price: i32,
    pub indicative_equilibrium_qty: i32,
    pub total_bid_qty: i32,
    pub total_offer_qty: i32,
    pub lower_price_band: i32,
    pub upper_price_band: i32,
    pub weighted_avg_price: i32,
    pub mbp_data: Vec<BcastMBPData>,
}

impl BcastComplexMBPDetails {
    pub open spec fn wf(self) -> bool {
        &&& self.reserved8@.len() == 1
        &&& self.ltp_milli_second@.len() == 3
        &&& self.reserved9@.len() == 2
        &&& self.mbp_data@.len() == 5
        &&& (forall|k: int| 0 <= k < 5 ==> (#[trigger] self.mbp_data@[k]).wf())
    }

    /// Exactly which big-endian wire bytes each field was read from.
    pub open spec fn parsed_from(self, s: Seq<u8>, off: int) -> bool {
        &&& self.contract_code as int == to_signed(be_bytes(s, off + 0, 8), 8)
        &&& self.no_of_trades as int == to_signed(be_bytes(s, off + 8, 4), 4)
        &&& self.traded_volume as int == to_signed(be_bytes(s, off + 12, 4), 4)
        &&& self.traded_value as int == to_signed(be_bytes(s, off + 16, 4), 4)
        &&& self.trade_value_flag == s[off + 20]
        &&& self.reserved6 == s[off + 21]
        &&& self.reserved7 == s[off + 22]
        &&& self.reserved8@ == s.subrange(off + 23, off + 23 + 1)
        &&& self.market_type as int == to_signed(be_bytes(s, off + 24, 2), 2)
        &&& self.ession_number as int == to_signed(be_bytes(s, off + 26, 2), 2)
        &&& self.ltp_hour == s[off + 28]
        &&& self.ltp_minute == s[off + 29]
        &&& self.ltp_second == s[off + 30]
        &&& self.ltp_milli_second@ == s.subrange(off + 31, off + 31 + 3)
        &&& self.reserved9@ == s.subrange(off + 34, off + 34 + 2)
        &&& self.reserved10 as int == to_signed(be_bytes(s, off + 36, 2), 2)
        &&& self.no_of_price_points as int == to_signed(be_bytes(s, off + 38, 2), 2)
        &&& self.timestamp as int == to_signed(be_bytes(s, off + 40, 8), 8)
        &&& self.close_rate as int == to_signed(be_bytes(s, off + 48, 4), 4)
        &&& self.ltq as int == to_signed(be_bytes(s, off + 52, 4), 4)
        &&& self.ltp as int == to_signed(be_bytes(s, off + 56, 4), 4)
        &&& self.open_rate as int == to_signed(be_bytes(s, off + 60, 4), 4)
        &&& self.prev_close_rate as int == to_signed(be_bytes(s, off + 64, 4), 4)
        &&& self.high_rate as int == to_signed(be_bytes(s, off + 68, 4), 4)
        &&& self.low_rate as int == to_signed(be_bytes(s, off + 72, 4), 4)
        &&& self.block_deal_ref_rate as int == to_signed(be_bytes(s, off + 76, 4), 4)
        &&& self.indicative_equilibrium_price as int == to_signed(be_bytes(s, off + 80, 4), 4)
        &&& self.indicative_equilibrium_qty as int == to_signed(be_bytes(s, off + 84, 4), 4)
        &&& self.total_bid_qty as int == to_signed(be_bytes(s, off + 88, 4), 4)
        &&& self.total_offer_qty as int == to_signed(be_bytes(s, off + 92, 4), 4)
        &&& self.lower_price_band as int == to_signed(be_bytes(s, off + 96, 4), 4)
        &&& self.upper_price_band as int == to_signed(be_bytes(s, off + 100, 4), 4)
        &&& self.weighted_avg_price as int == to_signed(be_bytes(s, off + 104, 4), 4)
        &&& self.mbp_data@.len() == 5
        &&& (forall|k: int| 0 <= k < 5 ==> (#[trigger] self.mbp_data@[k]).parsed_from(s, off + 108 + k * 32))
    }

    #[verifier::rlimit(100)]
    pub fn from_bytes(buf: &[u8], off: usize) -> (r: Self)
        requires
            off + BCAST_COMPLEX_MBP_DETAILS_SIZE <= buf@.len(),
        ensures
            r.parsed_from(buf@, off as int),
            r.wf(),
    {
        let n: usize = buf.len();
        let contract_code = read_i64_be(buf, off + 0);
        let no_of_trades = read_i32_be(buf, off + 8);
        let traded_volume = read_i32_be(buf, off + 12);
        let traded_value = read_i32_be(buf, off + 16);
        let trade_value_flag = read_u8(buf, off + 20);
        let reserved6 = read_u8(buf, off + 21);
        let reserved7 = read_u8(buf, off + 22);
        let reserved8 = read_bytes(buf, off + 23, 1);
        let market_type = read_i16_be(buf, off + 24);
        let ession_number = read_i16_be(buf, off + 26);
        let ltp_hour = read_u8(buf, off + 28);
        let ltp_minute = read_u8(buf, off + 29);
        let ltp_second = read_u8(buf, off + 30);
        let ltp_milli_second = read_bytes(buf, off + 31, 3);
        let reserved9 = read_bytes(buf, off + 34, 2);
        let reserved10 = read_i16_be(buf, off + 36);
        let no_of_price_points = read_i16_be(buf, off + 38);
        let timestamp = read_i64_be(buf, off + 40);
        let close_rate = read_i32_be(buf, off + 48);
        let ltq = read_i32_be(buf, off + 52);
        let ltp = read_i32_be(buf, off + 56);
        let open_rate = read_i32_be(buf, off + 60);
        let prev_close_rate = read_i32_be(buf, off + 64);
        let high_rate = read_i32_be(buf, off + 68);
        let low_rate = read_i32_be(buf, off + 72);
        let block_deal_ref_rate = read_i32_be(buf, off + 76);
        let indicative_equilibrium_price = read_i32_be(buf, off + 80);
        let indicative_equilibrium_qty = read_i32_be(buf, off + 84);
        let total_bid_qty = read_i32_be(buf, off + 88);
        let total_offer_qty = read_i32_be(buf, off + 92);
        let lower_price_band = read_i32_be(buf, off + 96);
        let upper_price_band = read_i32_be(buf, off + 100);
        let weighted_avg_price = read_i32_be(buf, off + 104);
        let mut mbp_data: Vec<BcastMBPData> = Vec::new();
        let mut k_mbp_data: usize = 0;
        while k_mbp_data < 5
            invariant
                k_mbp_data <= 5,
                n == buf@.len(),
                off + BCAST_COMPLEX_MBP_DETAILS_SIZE <= n,
                mbp_data@.len() == k_mbp_data,
                forall|x: int| 0 <= x < k_mbp_data ==> (#[trigger] mbp_data@[x]).parsed_from(buf@, off + 108 + x * 32) && mbp_data@[x].wf(),
            decreases 5 - k_mbp_data,
        {
            mbp_data.push(BcastMBPData::from_bytes(buf, off + 108 + k_mbp_data * 32));
            k_mbp_data = k_mbp_data + 1;
        }
        BcastComplexMBPDetails {
            contract_code,
            no_of_trades,
            traded_volume,
            traded_value,
            trade_value_flag,
            reserved6,
            reserved7,
            reserved8,
            market_type,
            ession_number,
            ltp_hour,
            ltp_minute,
            ltp_second,
            ltp_milli_second,
            reserved9,
            reserved10,
            no_of_price_points,
            timestamp,
            close_rate,
            ltq,
            ltp,
            open_rate,
            prev_close_rate,
            high_rate,
            low_rate,
            block_deal_ref_rate,
            indicative_equilibrium_price,
            indicative_equilibrium_qty,
            total_bid_qty,
            total_offer_qty,
            lower_price_band,
            upper_price_band,
            weighted_avg_price,
            mbp_data,
        }
    }

    /// The record's little-endian serialized bytes, padding zeroed.
    pub open spec fn spec_ser(self) -> Seq<u8> {
        spec_i64_le(self.contract_code)
            + spec_i32_le(self.no_of_trades)
            + spec_i32_le(self.traded_volume)
            + spec_i32_le(self.traded_value)
            + seq![self.trade_value_flag]
            + seq![self.reserved6]
            + seq![self.reserved7]
            + self.reserved8@
            + spec_i16_le(self.market_type)
            + spec_i16_le(self.ession_number)
            + seq![self.ltp_hour]
            + seq![self.ltp_minute]
            + seq![self.ltp_second]
            + self.ltp_milli_second@
            + self.reserved9@
            + spec_i16_le(self.reserved10)
            + spec_i16_le(self.no_of_price_points)
            + spec_i64_le(self.timestamp)
            + spec_i32_le(self.close_rate)
            + spec_i32_le(self.ltq)
            + spec_i32_le(self.ltp)
            + spec_i32_le(self.open_rate)
            + spec_i32_le(self.prev_close_rate)
            + spec_i32_le(self.high_rate)
            + spec_i32_le(self.low_rate)
            + spec_i32_le(self.block_deal_ref_rate)
            + spec_i32_le(self.indicative_equilibrium_price)
            + spec_i32_le(self.indicative_equilibrium_qty)
            + spec_i32_le(self.total_bid_qty)
            + spec_i32_le(self.total_offer_qty)
            + spec_i32_le(self.lower_price_band)
            + spec_i32_le(self.upper_price_band)
            + spec_i32_le(self.weighted_avg_price)
            + ser_seq_bcast_mbp_data(self.mbp_data@)
    }

    #[verifier::rlimit(100)]
    pub proof fn lemma_ser_len(self)
        requires
            self.wf(),
        ensures
            self.spec_ser().len() == BCAST_COMPLEX_MBP_DETAILS_SIZE,
    {
        broadcast use crate::bytesio::group_le_lens;

        lemma_ser_seq_bcast_mbp_data_len(self.mbp_data@);
    }

    #[verifier::rlimit(100)]
    #[verifier::spinoff_prover]
    pub fn to_bytes_vec(&self) -> (r: Vec<u8>)
        requires
            self.wf(),
        ensures
            r@ == self.spec_ser(),
    {
        let mut out: Vec<u8> = Vec::new();
        push_i64_le(&mut out, self.contract_code);
        push_i32_le(&mut out, self.no_of_trades);
        push_i32_le(&mut out, self.traded_volume);
        push_i32_le(&mut out, self.traded_value);
        push_u8(&mut out, self.trade_value_flag);
        push_u8(&mut out, self.reserved6);
        push_u8(&mut out, self.reserved7);
        push_bytes(&mut out, self.reserved8.as_slice());
        push_i16_le(&mut out, self.market_type);
        push_i16_le(&mut out, self.ession_number);
        push_u8(&mut out, self.ltp_hour);
        push_u8(&mut out, self.ltp_minute);
        push_u8(&mut out, self.ltp_second);
        push_bytes(&mut out, self.ltp_milli_second.as_slice());
        push_bytes(&mut out, self.reserved9.as_slice());
        push_i16_le(&mut out, self.reserved10);
        push_i16_le(&mut out, self.no_of_price_points);
        push_i64_le(&mut out, self.timestamp);
        push_i32_le(&mut out, self.close_rate);
        push_i32_le(&mut out, self.ltq);
        push_i32_le(&mut out, self.ltp);
        push_i32_le(&mut out, self.open_rate);
        push_i32_le(&mut out, self.prev_close_rate);
        push_i32_le(&mut out, self.high_rate);
        push_i32_le(&mut out, self.low_rate);
        push_i32_le(&mut out, self.block_deal_ref_rate);
        push_i32_le(&mut out, self.indicative_equilibrium_price);
        push_i32_le(&mut out, self.indicative_equilibrium_qty);
        push_i32_le(&mut out, self.total_bid_qty);
        push_i32_le(&mut out, self.total_offer_qty);
        push_i32_le(&mut out, self.lower_price_band);
        push_i32_le(&mut out, self.upper_price_band);
        push_i32_le(&mut out, self.weighted_avg_price);
        let ghost pre_mbp_data = out@;
        let mut k_mbp_data: usize = 0;
        while k_mbp_data < 5
            invariant
                k_mbp_data <= 5,
                self.mbp_data@.len() == 5,
                forall|k: int| 0 <= k < 5 ==> (#[trigger] self.mbp_data@[k]).wf(),
                out@ == pre_mbp_data + ser_seq_bcast_mbp_data(self.mbp_data@.take(k_mbp_data as int)),
            decreases 5 - k_mbp_data,
        {
            let mut one = self.mbp_data[k_mbp_data].to_bytes_vec();
            out.append(&mut one);
            proof {
                let t = self.mbp_data@.take(k_mbp_data + 1);
                assert(t.drop_last() =~= self.mbp_data@.take(k_mbp_data as int));
                assert(t.last() == self.mbp_data@[k_mbp_data as int]);
                assert(out@ =~= pre_mbp_data + ser_seq_bcast_mbp_data(t));
            }
            k_mbp_data = k_mbp_data + 1;
        }
        proof {
            assert(self.mbp_data@.take(5) =~= self.mbp_data@);
        }
        proof {
            assert(out@ =~= self.spec_ser());
        }
        out
    }
}

/// Concatenated serialization of a sequence of `BcastComplexMBPDetails` records.
pub open spec fn ser_seq_bcast_complex_mbp_details(a: Seq<BcastComplexMBPDetails>) -> Seq<u8>
    decreases a.len(),
{
    if a.len() == 0 {
        Seq::empty()
    } else {
        ser_seq_bcast_complex_mbp_details(a.drop_last()) + a.last().spec_ser()
    }
}

pub proof fn lemma_ser_seq_bcast_complex_mbp_details_len(a: Seq<BcastComplexMBPDetails>)
    requires
        forall|k: int| 0 <= k < a.len() ==> (#[trigger] a[k]).wf(),
    ensures
        ser_seq_bcast_complex_mbp_details(a).len() == a.len() * BCAST_COMPLEX_MBP_DETAILS_SIZE,
    decreases a.len(),
{
    if a.len() == 0 {
    } else {
        lemma_ser_seq_bcast_complex_mbp_details_len(a.drop_last());
        a.last().lemma_ser_len();
        assert((a.len() - 1) * BCAST_COMPLEX_MBP_DETAILS_SIZE + BCAST_COMPLEX_MBP_DETAILS_SIZE == a.len() * BCAST_COMPLEX_MBP_DETAILS_SIZE) by (nonlinear_arith);
    }
}


pub const BCAST_COMPLEX_MARKET_PICTURE_SIZE: usize = 1636;

#[derive(Clone)]
pub struct BcastComplexMarketPicture {
    pub message_type: i32,
    pub reserved1: i32,
    pub reserved2: i32,
    pub reserved3: u16,
    pub hour: i16,
    pub minute: i16,
    pub econd: i16,
    pub milli_second: i16,
    pub reserved4: i16,
    pub reserved5: i16,
    pub no_of_records: i16,
    pub mbp_details: Vec<BcastComplexMBPDetails>,
}

impl BcastComplexMarketPicture {
    pub open spec fn wf(self) -> bool {
        &&& self.mbp_details@.len() == 6
        &&& (forall|k: int| 0 <= k < 6 ==> (#[trigger] self.mbp_details@[k]).wf())
    }

    /// Exactly which big-endian wire bytes each field was read from.
    pub open spec fn parsed_from(self, s: Seq<u8>, off: int) -> bool {
        &&& self.message_type as int == to_signed(be_bytes(s, off + 0, 4), 4)
        &&& self.reserved1 as int == to_signed(be_bytes(s, off + 4, 4), 4)
        &&& self.reserved2 as int == to_signed(be_bytes(s, off + 8, 4), 4)
        &&& self.reserved3 as int == be_bytes(s, off + 12, 2)
        &&& self.hour as int == to_signed(be_bytes(s, off + 14, 2), 2)
        &&& self.minute as int == to_signed(be_bytes(s, off + 16, 2), 2)
        &&& self.econd as int == to_signed(be_bytes(s, off + 18, 2), 2)
        &&& self.milli_second as int == to_signed(be_bytes(s, off + 20, 2), 2)
        &&& self.reserved4 as int == to_signed(be_bytes(s, off + 22, 2), 2)
        &&& self.reserved5 as int == to_signed(be_bytes(s, off + 24, 2), 2)
        &&& self.no_of_records as int == to_signed(be_bytes(s, off + 26, 2), 2)
        &&& self.mbp_details@.len() == 6
        &&& (forall|k: int| 0 <= k < 6 ==> (#[trigger] self.mbp_details@[k]).parsed_from(s, off + 28 + k * 268))
    }

    #[verifier::rlimit(100)]
    pub fn from_bytes(buf: &[u8], off: usize) -> (r: Self)
        requires
            off + BCAST_COMPLEX_MARKET_PICTURE_SIZE <= buf@.len(),
        ensures
            r.parsed_from(buf@, off as int),
            r.wf(),
    {
        let n: usize = buf.len();
        let message_type = read_i32_be(buf, off + 0);
        let reserved1 = read_i32_be(buf, off + 4);
        let reserved2 = read_i32_be(buf, off + 8);
        let reserved3 = read_u16_be(buf, off + 12);
        let hour = read_i16_be(buf, off + 14);
        let minute = read_i16_be(buf, off + 16);
        let econd = read_i16_be(buf, off + 18);
        let milli_second = read_i16_be(buf, off + 20);
        let reserved4 = read_i16_be(buf, off + 22);
        let reserved5 = read_i16_be(buf, off + 24);
        let no_of_records = read_i16_be(buf, off + 26);
        let mut mbp_details: Vec<BcastComplexMBPDetails> = Vec::new();
        let mut k_mbp_details: usize = 0;
        while k_mbp_details < 6
            invariant
                k_mbp_details <= 6,
                n == buf@.len(),
                off + BCAST_COMPLEX_MARKET_PICTURE_SIZE <= n,
                mbp_details@.len() == k_mbp_details,
                forall|x: int| 0 <= x < k_mbp_details ==> (#[trigger] mbp_details@[x]).parsed_from(buf@, off + 28 + x * 268) && mbp_details@[x].wf(),
            decreases 6 - k_mbp_details,
        {
            mbp_details.push(BcastComplexMBPDetails::from_bytes(buf, off + 28 + k_mbp_details * 268));
            k_mbp_details = k_mbp_details + 1;
        }
        BcastComplexMarketPicture {
            message_type,
            reserved1,
            reserved2,
            reserved3,
            hour,
            minute,
            econd,
            milli_second,
            reserved4,
            reserved5,
            no_of_records,
            mbp_details,
        }
    }

    /// The record's little-endian serialized bytes, padding zeroed.
    pub open spec fn spec_ser(self) -> Seq<u8> {
        spec_i32_le(self.message_type)
            + spec_i32_le(self.reserved1)
            + spec_i32_le(self.reserved2)
            + spec_u16_le(self.reserved3)
            + spec_i16_le(self.hour)
            + spec_i16_le(self.minute)
            + spec_i16_le(self.econd)
            + spec_i16_le(self.milli_second)
            + spec_i16_le(self.reserved4)
            + spec_i16_le(self.reserved5)
            + spec_i16_le(self.no_of_records)
            + ser_seq_bcast_complex_mbp_details(self.mbp_details@)
    }

    #[verifier::rlimit(100)]
    pub proof fn lemma_ser_len(self)
        requires
            self.wf(),
        ensures
            self.spec_ser().len() == BCAST_COMPLEX_MARKET_PICTURE_SIZE,
    {
        broadcast use crate::bytesio::group_le_lens;

        lemma_ser_seq_bcast_complex_mbp_details_len(self.mbp_details@);
    }

    #[verifier::rlimit(100)]
    #[verifier::spinoff_prover]
    pub fn to_bytes_vec(&self) -> (r: Vec<u8>)
        requires
            self.wf(),
        ensures
            r@ == self.spec_ser(),
    {
        let mut out: Vec<u8> = Vec::new();
        push_i32_le(&mut out, self.message_type);
        push_i32_le(&mut out, self.reserved1);
        push_i32_le(&mut out, self.reserved2);
        push_u16_le(&mut out, self.reserved3);
        push_i16_le(&mut out, self.hour);
        push_i16_le(&mut out, self.minute);
        push_i16_le(&mut out, self.econd);
        push_i16_le(&mut out, self.milli_second);
        push_i16_le(&mut out, self.reserved4);
        push_i16_le(&mut out, self.reserved5);
        push_i16_le(&mut out, self.no_of_records);
        let ghost pre_mbp_details = out@;
        let mut k_mbp_details: usize = 0;
        while k_mbp_details < 6
            invariant
                k_mbp_details <= 6,
                self.mbp_details@.len() == 6,
                forall|k: int| 0 <= k < 6 ==> (#[trigger] self.mbp_details@[k]).wf(),
                out@ == pre_mbp_details + ser_seq_bcast_complex_mbp_details(self.mbp_details@.take(k_mbp_details as int)),
            decreases 6 - k_mbp_details,
        {
            let mut one = self.mbp_details[k_mbp_details].to_bytes_vec();
            out.append(&mut one);
            proof {
                let t = self.mbp_details@.take(k_mbp_details + 1);
                assert(t.drop_last() =~= self.mbp_details@.take(k_mbp_details as int));
                assert(t.last() == self.mbp_details@[k_mbp_details as int]);
                assert(out@ =~= pre_mbp_details + ser_seq_bcast_complex_mbp_details(t));
            }
            k_mbp_details = k_mbp_details + 1;
        }
        proof {
            assert(self.mbp_details@.take(6) =~= self.mbp_details@);
        }
        proof {
            assert(out@ =~= self.spec_ser());
        }
        out
    }
}

pub const BCAST_AUCTION_MBP_DATA_SIZE: usize = 8;

#[derive(Clone, Copy)]
pub struct BcastAuctionMBPData {
    pub likely_cut_off_rate: i32,
    pub offer_qty: i32,
}

impl BcastAuctionMBPData {
    pub open spec fn wf(self) -> bool {
        true
    }

    /// Exactly which big-endian wire bytes each field was read from.
    pub open spec fn parsed_from(self, s: Seq<u8>, off: int) -> bool {
        &&& self.likely_cut_off_rate as int == to_signed(be_bytes(s, off + 0, 4), 4)
        &&& self.offer_qty as int == to_signed(be_bytes(s, off + 4, 4), 4)
    }

    #[verifier::rlimit(100)]
    pub fn from_bytes(buf: &[u8], off: usize) -> (r: Self)
        requires
            off + BCAST_AUCTION_MBP_DATA_SIZE <= buf@.len(),
        ensures
            r.parsed_from(buf@, off as int),
            r.wf(),
    {
        let n: usize = buf.len();
        let likely_cut_off_rate = read_i32_be(buf, off + 0);
        let offer_qty = read_i32_be(buf, off + 4);
        BcastAuctionMBPData {
            likely_cut_off_rate,
            offer_qty,
        }
    }

    /// The record's little-endian serialized bytes, padding zeroed.
    pub open spec fn spec_ser(self) -> Seq<u8> {
        spec_i32_le(self.likely_cut_off_rate)
            + spec_i32_le(self.offer_qty)
    }

    #[verifier::rlimit(100)]
    pub proof fn lemma_ser_len(self)
        requires
            self.wf(),
        ensures
            self.spec_ser().len() == BCAST_AUCTION_MBP_DATA_SIZE,
    {
        broadcast use crate::bytesio::group_le_lens;

    }

    #[verifier::rlimit(100)]
    #[verifier::spinoff_prover]
    pub fn to_bytes_vec(&self) -> (r: Vec<u8>)
        requires
            self.wf(),
        ensures
            r@ == self.spec_ser(),
    {
        let mut out: Vec<u8> = Vec::new();
        push_i32_le(&mut out, self.likely_cut_off_rate);
        push_i32_le(&mut out, self.offer_qty);
        proof {
            assert(out@ =~= self.spec_ser());
        }
        out
    }
}

/// Concatenated serialization of a sequence of `BcastAuctionMBPData` records.
pub open spec fn ser_seq_bcast_auction_mbp_data(a: Seq<BcastAuctionMBPData>) -> Seq<u8>
    decreases a.len(),
{
    if a.len() == 0 {
        Seq::empty()
    } else {
        ser_seq_bcast_auction_mbp_data(a.drop_last()) + a.last().spec_ser()
    }
}

pub proof fn lemma_ser_seq_bcast_auction_mbp_data_len(a: Seq<BcastAuctionMBPData>)
    requires
        forall|k: int| 0 <= k < a.len() ==> (#[trigger] a[k]).wf(),
    ensures
        ser_seq_bcast_auction_mbp_data(a).len() == a.len() * BCAST_AUCTION_MBP_DATA_SIZE,
    decreases a.len(),
{
    if a.len() == 0 {
    } else {
        lemma_ser_seq_bcast_auction_mbp_data_len(a.drop_last());
        a.last().lemma_ser_len();
        assert((a.len() - 1) * BCAST_AUCTION_MBP_DATA_SIZE + BCAST_AUCTION_MBP_DATA_SIZE == a.len() * BCAST_AUCTION_MBP_DATA_SIZE) by (nonlinear_arith);
    }
}


pub const BCAST_AUCTION_MBP_DETAILS_SIZE: usize = 84;

#[derive(Clone)]
pub struct BcastAuctionMBPDetails {
    pub instrument: i32,
    pub reserved5: i32,
    pub auction_qty: i32,
    pub ceiling_price: i32,
    pub floor_price: i32,
    pub cut_off_rate: i32,
    pub lowest_offered_rate: i32,
    pub cumulative_qty: i32,
    pub reserved6: i32,
    pub reserved7: i16,
    pub reserved8: i16,
    pub reserved9: u8,
    pub reserved10: u8,
    pub reserved11: Vec<u8>,
    pub reserved12: Vec<u8>,
    pub mbp_data: Vec<BcastAuctionMBPData>,
}

impl BcastAuctionMBPDetails {
    pub open spec fn wf(self) -> bool {
        &&& self.reserved11@.len() == 1
        &&& self.reserved12@.len() == 1
        &&& self.mbp_data@.len() == 5
        &&& (forall|k: int| 0 <= k < 5 ==> (#[trigger] self.mbp_data@[k]).wf())
    }

    /// Exactly which big-endian wire bytes each field was read from.
    pub open spec fn parsed_from(self, s: Seq<u8>, off: int) -> bool {
        &&& self.instrument as int == to_signed(be_bytes(s, off + 0, 4), 4)
        &&& self.reserved5 as int == to_signed(be_bytes(s, off + 4, 4), 4)
        &&& self.auction_qty as int == to_signed(be_bytes(s, off + 8, 4), 4)
        &&& self.ceiling_price as int == to_signed(be_bytes(s, off + 12, 4), 4)
        &&& self.floor_price as int == to_signed(be_bytes(s, off + 16, 4), 4)
        &&& self.cut_off_rate as int == to_signed(be_bytes(s, off + 20, 4), 4)
        &&& self.lowest_offered_rate as int == to_signed(be_bytes(s, off + 24, 4), 4)
        &&& self.cumulative_qty as int == to_signed(be_bytes(s, off + 28, 4), 4)
        &&& self.reserved6 as int == to_signed(be_bytes(s, off + 32, 4), 4)
        &&& self.reserved7 as int == to_signed(be_bytes(s, off + 36, 2), 2)
        &&& self.reserved8 as int == to_signed(be_bytes(s, off + 38, 2), 2)
        &&& self.reserved9 == s[off + 40]
        &&& self.reserved10 == s[off + 41]
        &&& self.reserved11@ == s.subrange(off + 42, off + 42 + 1)
        &&& self.reserved12@ == s.subrange(off + 43, off + 43 + 1)
        &&& self.mbp_data@.len() == 5
        &&& (forall|k: int| 0 <= k < 5 ==> (#[trigger] self.mbp_data@[k]).parsed_from(s, off + 44 + k * 8))
    }

    #[verifier::rlimit(100)]
    pub fn from_bytes(buf: &[u8], off: usize) -> (r: Self)
        requires
            off + BCAST_AUCTION_MBP_DETAILS_SIZE <= buf@.len(),
        ensures
            r.parsed_from(buf@, off as int),
            r.wf(),
    {
        let n: usize = buf.len();
        let instrument = read_i32_be(buf, off + 0);
        let reserved5 = read_i32_be(buf, off + 4);
        let auction_qty = read_i32_be(buf, off + 8);
        let ceiling_price = read_i32_be(buf, off + 12);
        let floor_price = read_i32_be(buf, off + 16);
        let cut_off_rate = read_i32_be(buf, off + 20);
        let lowest_offered_rate = read_i32_be(buf, off + 24);
        let cumulative_qty = read_i32_be(buf, off + 28);
        let reserved6 = read_i32_be(buf, off + 32);
        let reserved7 = read_i16_be(buf, off + 36);
        let reserved8 = read_i16_be(buf, off + 38);
        let reserved9 = read_u8(buf, off + 40);
        let reserved10 = read_u8(buf, off + 41);
        let reserved11 = read_bytes(buf, off + 42, 1);
        let reserved12 = read_bytes(buf, off + 43, 1);
        let mut mbp_data: Vec<BcastAuctionMBPData> = Vec::new();
        let mut k_mbp_data: usize = 0;
        while k_mbp_data < 5
            invariant
                k_mbp_data <= 5,
                n == buf@.len(),
                off + BCAST_AUCTION_MBP_DETAILS_SIZE <= n,
                mbp_data@.len() == k_mbp_data,
                forall|x: int| 0 <= x < k_mbp_data ==> (#[trigger] mbp_data@[x]).parsed_from(buf@, off + 44 + x * 8) && mbp_data@[x].wf(),
            decreases 5 - k_mbp_data,
        {
            mbp_data.push(BcastAuctionMBPData::from_bytes(buf, off + 44 + k_mbp_data * 8));
            k_mbp_data = k_mbp_data + 1;
        }
        BcastAuctionMBPDetails {
            instrument,
            reserved5,
            auction_qty,
            ceiling_price,
            floor_price,
            cut_off_rate,
            lowest_offered_rate,
            cumulative_qty,
            reserved6,
            reserved7,
            reserved8,
            reserved9,
            reserved10,
            reserved11,
            reserved12,
            mbp_data,
        }
    }

    /// The record's little-endian serialized bytes, padding zeroed.
    pub open spec fn spec_ser(self) -> Seq<u8> {
        spec_i32_le(self.instrument)
            + spec_i32_le(self.reserved5)
            + spec_i32_le(self.auction_qty)
            + spec_i32_le(self.ceiling_price)
            + spec_i32_le(self.floor_price)
            + spec_i32_le(self.cut_off_rate)
            + spec_i32_le(self.lowest_offered_rate)
            + spec_i32_le(self.cumulative_qty)
            + spec_i32_le(self.reserved6)
            + spec_i16_le(self.reserved7)
            + spec_i16_le(self.reserved8)
            + seq![self.reserved9]
            + seq![self.reserved10]
            + self.reserved11@
            + self.reserved12@
            + ser_seq_bcast_auction_mbp_data(self.mbp_data@)
    }

    #[verifier::rlimit(100)]
    pub proof fn lemma_ser_len(self)
        requires
            self.wf(),
        ensures
            self.spec_ser().len() == BCAST_AUCTION_MBP_DETAILS_SIZE,
    {
        broadcast use crate::bytesio::group_le_lens;

        lemma_ser_seq_bcast_auction_mbp_data_len(self.mbp_data@);
    }

    #[verifier::rlimit(100)]
    #[verifier::spinoff_prover]
    pub fn to_bytes_vec(&self) -> (r: Vec<u8>)
        requires
            self.wf(),
        ensures
            r@ == self.spec_ser(),
    {
        let mut out: Vec<u8> = Vec::new();
        push_i32_le(&mut out, self.instrument);
        push_i32_le(&mut out, self.reserved5);
        push_i32_le(&mut out, self.auction_qty);
        push_i32_le(&mut out, self.ceiling_price);
        push_i32_le(&mut out, self.floor_price);
        push_i32_le(&mut out, self.cut_off_rate);
        push_i32_le(&mut out, self.lowest_offered_rate);
        push_i32_le(&mut out, self.cumulative_qty);
        push_i32_le(&mut out, self.reserved6);
        push_i16_le(&mut out, self.reserved7);
        push_i16_le(&mut out, self.reserved8);
        push_u8(&mut out, self.reserved9);
        push_u8(&mut out, self.reserved10);
        push_bytes(&mut out, self.reserved11.as_slice());
        push_bytes(&mut out, self.reserved12.as_slice());
        let ghost pre_mbp_data = out@;
        let mut k_mbp_data: usize = 0;
        while k_mbp_data < 5
            invariant
                k_mbp_data <= 5,
                self.mbp_data@.len() == 5,
                forall|k: int| 0 <= k < 5 ==> (#[trigger] self.mbp_data@[k]).wf(),
                out@ == pre_mbp_data + ser_seq_bcast_auction_mbp_data(self.mbp_data@.take(k_mbp_data as int)),
            decreases 5 - k_mbp_data,
        {
            let mut one = self.mbp_data[k_mbp_data].to_bytes_vec();
            out.append(&mut one);
            proof {
                let t = self.mbp_data@.take(k_mbp_data + 1);
                assert(t.drop_last() =~= self.mbp_data@.take(k_mbp_data as int));
                assert(t.last() == self.mbp_data@[k_mbp_data as int]);
                assert(out@ =~= pre_mbp_data + ser_seq_bcast_auction_mbp_data(t));
            }
            k_mbp_data = k_mbp_data + 1;
        }
        proof {
            assert(self.mbp_data@.take(5) =~= self.mbp_data@);
        }
        proof {
            assert(out@ =~= self.spec_ser());
        }
        out
    }
}

/// Concatenated serialization of a sequence of `BcastAuctionMBPDetails` records.
pub open spec fn ser_seq_bcast_auction_mbp_details(a: Seq<BcastAuctionMBPDetails>) -> Seq<u8>
    decreases a.len(),
{
    if a.len() == 0 {
        Seq::empty()
    } else {
        ser_seq_bcast_auction_mbp_details(a.drop_last()) + a.last().spec_ser()
    }
}

pub proof fn lemma_ser_seq_bcast_auction_mbp_details_len(a: Seq<BcastAuctionMBPDetails>)
    requires
        forall|k: int| 0 <= k < a.len() ==> (#[trigger] a[k]).wf(),
    ensures
        ser_seq_bcast_auction_mbp_details(a).len() == a.len() * BCAST_AUCTION_MBP_DETAILS_SIZE,
    decreases a.len(),
{
    if a.len() == 0 {
    } else {
        lemma_ser_seq_bcast_auction_mbp_details_len(a.drop_last());
        a.last().lemma_ser_len();
        assert((a.len() - 1) * BCAST_AUCTION_MBP_DETAILS_SIZE + BCAST_AUCTION_MBP_DETAILS_SIZE == a.len() * BCAST_AUCTION_MBP_DETAILS_SIZE) by (nonlinear_arith);
    }
}


pub const BCAST_AUCTION_MBP_SIZE: usize = 880;

#[derive(Clone)]
pub struct BcastAuctionMBP {
    pub message_type: i32,
    pub reserved1: i32,
    pub reserved2: i32,
    pub reserved3: u16,
    pub hour: i16,
    pub minute: i16,
    pub econd: i16,
    pub milli_second: i16,
    pub auction_number: i16,
    pub auction_trading_session: i16,
    pub no_of_records: i16,
    pub notice_number: Vec<u8>,
    pub reserved4: u8,
    pub mbp_details: Vec<BcastAuctionMBPDetails>,
}

impl BcastAuctionMBP {
    pub open spec fn wf(self) -> bool {
        &&& self.notice_number@.len() == 11
        &&& self.mbp_details@.len() == 10
        &&& (forall|k: int| 0 <= k < 10 ==> (#[trigger] self.mbp_details@[k]).wf())
    }

    /// Exactly which big-endian wire bytes each field was read from.
    pub open spec fn parsed_from(self, s: Seq<u8>, off: int) -> bool {
        &&& self.message_type as int == to_signed(be_bytes(s, off + 0, 4), 4)
        &&& self.reserved1 as int == to_signed(be_bytes(s, off + 4, 4), 4)
        &&& self.reserved2 as int == to_signed(be_bytes(s, off + 8, 4), 4)
        &&& self.reserved3 as int == be_bytes(s, off + 12, 2)
        &&& self.hour as int == to_signed(be_bytes(s, off + 14, 2), 2)
        &&& self.minute as int == to_signed(be_bytes(s, off + 16, 2), 2)
        &&& self.econd as int == to_signed(be_bytes(s, off + 18, 2), 2)
        &&& self.milli_second as int == to_signed(be_bytes(s, off + 20, 2), 2)
        &&& self.auction_number as int == to_signed(be_bytes(s, off + 22, 2), 2)
        &&& self.auction_trading_session as int == to_signed(be_bytes(s, off + 24, 2), 2)
        &&& self.no_of_records as int == to_signed(be_bytes(s, off + 26, 2), 2)
        &&& self.notice_number@ == s.subrange(off + 28, off + 28 + 11)
        &&& self.reserved4 == s[off + 39]
        &&& self.mbp_details@.len() == 10
        &&& (forall|k: int| 0 <= k < 10 ==> (#[trigger] self.mbp_details@[k]).parsed_from(s, off + 40 + k * 84))
    }

    #[verifier::rlimit(100)]
    pub fn from_bytes(buf: &[u8], off: usize) -> (r: Self)
        requires
            off + BCAST_AUCTION_MBP_SIZE <= buf@.len(),
        ensures
            r.parsed_from(buf@, off as int),
            r.wf(),
    {
        let n: usize = buf.len();
        let message_type = read_i32_be(buf, off + 0);
        let reserved1 = read_i32_be(buf, off + 4);
        let reserved2 = read_i32_be(buf, off + 8);
        let reserved3 = read_u16_be(buf, off + 12);
        let hour = read_i16_be(buf, off + 14);
        let minute = read_i16_be(buf, off + 16);
        let econd = read_i16_be(buf, off + 18);
        let milli_second = read_i16_be(buf, off + 20);
        let auction_number = read_i16_be(buf, off + 22);
        let auction_trading_session = read_i16_be(buf, off + 24);
        let no_of_records = read_i16_be(buf, off + 26);
        let notice_number = read_bytes(buf, off + 28, 11);
        let reserved4 = read_u8(buf, off + 39);
        let mut mbp_details: Vec<BcastAuctionMBPDetails> = Vec::new();
        let mut k_mbp_details: usize = 0;
        while k_mbp_details < 10
            invariant
                k_mbp_details <= 10,
                n == buf@.len(),
                off + BCAST_AUCTION_MBP_SIZE <= n,
                mbp_details@.len() == k_mbp_details,
                forall|x: int| 0 <= x < k_mbp_details ==> (#[trigger] mbp_details@[x]).parsed_from(buf@, off + 40 + x * 84) && mbp_details@[x].wf(),
            decreases 10 - k_mbp_details,
        {
            mbp_details.push(BcastAuctionMBPDetails::from_bytes(buf, off + 40 + k_mbp_details * 84));
            k_mbp_details = k_mbp_details + 1;
        }
        BcastAuctionMBP {
            message_type,
            reserved1,
            reserved2,
            reserved3,
            hour,
            minute,
            econd,
            milli_second,
            auction_number,
            auction_trading_session,
            no_of_records,
            notice_number,
            reserved4,
            mbp_details,
        }
    }

    /// The record's little-endian serialized bytes, padding zeroed.
    pub open spec fn spec_ser(self) -> Seq<u8> {
        spec_i32_le(self.message_type)
            + spec_i32_le(self.reserved1)
            + spec_i32_le(self.reserved2)
            + spec_u16_le(self.reserved3)
            + spec_i16_le(self.hour)
            + spec_i16_le(self.minute)
            + spec_i16_le(self.econd)
            + spec_i16_le(self.milli_second)
            + spec_i16_le(self.auction_number)
            + spec_i16_le(self.auction_trading_session)
            + spec_i16_le(self.no_of_records)
            + self.notice_number@
            + seq![self.reserved4]
            + ser_seq_bcast_auction_mbp_details(self.mbp_details@)
    }

    #[verifier::rlimit(100)]
    pub proof fn lemma_ser_len(self)
        requires
            self.wf(),
        ensures
            self.spec_ser().len() == BCAST_AUCTION_MBP_SIZE,
    {
        broadcast use crate::bytesio::group_le_lens;

        lemma_ser_seq_bcast_auction_mbp_details_len(self.mbp_details@);
    }

    #[verifier::rlimit(100)]
    #[verifier::spinoff_prover]
    pub fn to_bytes_vec(&self) -> (r: Vec<u8>)
        requires
            self.wf(),
        ensures
            r@ == self.spec_ser(),
    {
        let mut out: Vec<u8> = Vec::new();
        push_i32_le(&mut out, self.message_type);
        push_i32_le(&mut out, self.reserved1);
        push_i32_le(&mut out, self.reserved2);
        push_u16_le(&mut out, self.reserved3);
        push_i16_le(&mut out, self.hour);
        push_i16_le(&mut out, self.minute);
        push_i16_le(&mut out, self.econd);
        push_i16_le(&mut out, self.milli_second);
        push_i16_le(&mut out, self.auction_number);
        push_i16_le(&mut out, self.auction_trading_session);
        push_i16_le(&mut out, self.no_of_records);
        push_bytes(&mut out, self.notice_number.as_slice());
        push_u8(&mut out, self.reserved4);
        let ghost pre_mbp_details = out@;
        let mut k_mbp_details: usize = 0;
        while k_mbp_details < 10
            invariant
                k_mbp_details <= 10,
                self.mbp_details@.len() == 10,
                forall|k: int| 0 <= k < 10 ==> (#[trigger] self.mbp_details@[k]).wf(),
                out@ == pre_mbp_details + ser_seq_bcast_auction_mbp_details(self.mbp_details@.take(k_mbp_details as int)),
            decreases 10 - k_mbp_details,
        {
            let mut one = self.mbp_details[k_mbp_details].to_bytes_vec();
            out.append(&mut one);
            proof {
                let t = self.mbp_details@.take(k_mbp_details + 1);
                assert(t.drop_last() =~= self.mbp_details@.take(k_mbp_details as int));
                assert(t.last() == self.mbp_details@[k_mbp_details as int]);
                assert(out@ =~= pre_mbp_details + ser_seq_bcast_auction_mbp_details(t));
            }
            k_mbp_details = k_mbp_details + 1;
        }
        proof {
            assert(self.mbp_details@.take(10) =~= self.mbp_details@);
        }
        proof {
            assert(out@ =~= self.spec_ser());
        }
        out
    }
}

pub const BCAST_ODD_LOT_MBP_DETAILS_SIZE: usize = 80;

#[derive(Clone)]
pub struct BcastOddLotMBPDetails {
    pub instrument: i32,
    pub open_rate: i32,
    pub prev_close_rate: i32,
    pub high_rate: i32,
    pub low_rate: i32,
    pub no_of_trades: i32,
    pub traded_volume: i64,
    pub traded_value: i32,
    pub ltq: i64,
    pub ltp: i32,
    pub close_rate: i32,
    pub trade_value_flag: u8,
    pub reserved7: u8,
    pub reserved8: u8,
    pub reserved9: u8,
    pub lower_price_band: i32,
    pub upper_price_band: i32,
    pub weighted_avg_price: i32,
    pub market_type: i16,
    pub ession_number: i16,
    pub ltp_hour: u8,
    pub ltp_minute: u8,
    pub ltp_second: u8,
    pub ltp_milli_second: Vec<u8>,
    pub reserved10: Vec<u8>,
}

impl BcastOddLotMBPDetails {
    pub open spec fn wf(self) -> bool {
        &&& self.ltp_milli_second@.len() == 3
        &&& self.reserved10@.len() == 2
    }

    /// Exactly which big-endian wire bytes each field was read from.
    pub open spec fn parsed_from(self, s: Seq<u8>, off: int) -> bool {
        &&& self.instrument as int == to_signed(be_bytes(s, off + 0, 4), 4)
        &&& self.open_rate as int == to_signed(be_bytes(s, off + 4, 4), 4)
        &&& self.prev_close_rate as int == to_signed(be_bytes(s, off + 8, 4), 4)
        &&& self.high_rate as int == to_signed(be_bytes(s, off + 12, 4), 4)
        &&& self.low_rate as int == to_signed(be_bytes(s, off + 16, 4), 4)
        &&& self.no_of_trades as int == to_signed(be_bytes(s, off + 20, 4), 4)
        &&& self.traded_volume as int == to_signed(be_bytes(s, off + 24, 8), 8)
        &&& self.traded_value as int == to_signed(be_bytes(s, off + 32, 4), 4)
        &&& self.ltq as int == to_signed(be_bytes(s, off + 36, 8), 8)
        &&& self.ltp as int == to_signed(be_bytes(s, off + 44, 4), 4)
        &&& self.close_rate as int == to_signed(be_bytes(s, off + 48, 4), 4)
        &&& self.trade_value_flag == s[off + 52]
        &&& self.reserved7 == s[off + 53]
        &&& self.reserved8 == s[off + 54]
        &&& self.reserved9 == s[off + 55]
        &&& self.lower_price_band as int == to_signed(be_bytes(s, off + 56, 4), 4)
        &&& self.upper_price_band as int == to_signed(be_bytes(s, off + 60, 4), 4)
        &&& self.weighted_avg_price as int == to_signed(be_bytes(s, off + 64, 4), 4)
        &&& self.market_type as int == to_signed(be_bytes(s, off + 68, 2), 2)
        &&& self.ession_number as int == to_signed(be_bytes(s, off + 70, 2), 2)
        &&& self.ltp_hour == s[off + 72]
        &&& self.ltp_minute == s[off + 73]
        &&& self.ltp_second == s[off + 74]
        &&& self.ltp_milli_second@ == s.subrange(off + 75, off + 75 + 3)
        &&& self.reserved10@ == s.subrange(off + 78, off + 78 + 2)
    }

    #[verifier::rlimit(100)]
    pub fn from_bytes(buf: &[u8], off: usize) -> (r: Self)
        requires
            off + BCAST_ODD_LOT_MBP_DETAILS_SIZE <= buf@.len(),
        ensures
            r.parsed_from(buf@, off as int),
            r.wf(),
    {
        let n: usize = buf.len();
        let instrument = read_i32_be(buf, off + 0);
        let open_rate = read_i32_be(buf, off + 4);
        let prev_close_rate = read_i32_be(buf, off + 8);
        let high_rate = read_i32_be(buf, off + 12);
        let low_rate = read_i32_be(buf, off + 16);
        let no_of_trades = read_i32_be(buf, off + 20);
        let traded_volume = read_i64_be(buf, off + 24);
        let traded_value = read_i32_be(buf, off + 32);
        let ltq = read_i64_be(buf, off + 36);
        let ltp = read_i32_be(buf, off + 44);
        let close_rate = read_i32_be(buf, off + 48);
        let trade_value_flag = read_u8(buf, off + 52);
        let reserved7 = read_u8(buf, off + 53);
        let reserved8 = read_u8(buf, off + 54);
        let reserved9 = read_u8(buf, off + 55);
        let lower_price_band = read_i32_be(buf, off + 56);
        let upper_price_band = read_i32_be(buf, off + 60);
        let weighted_avg_price = read_i32_be(buf, off + 64);
        let market_type = read_i16_be(buf, off + 68);
        let ession_number = read_i16_be(buf, off + 70);
        let ltp_hour = read_u8(buf, off + 72);
        let ltp_minute = read_u8(buf, off + 73);
        let ltp_second = read_u8(buf, off + 74);
        let ltp_milli_second = read_bytes(buf, off + 75, 3);
        let reserved10 = read_bytes(buf, off + 78, 2);
        BcastOddLotMBPDetails {
            instrument,
            open_rate,
            prev_close_rate,
            high_rate,
            low_rate,
            no_of_trades,
            traded_volume,
            traded_value,
            ltq,
            ltp,
            close_rate,
            trade_value_flag,
            reserved7,
            reserved8,
            reserved9,
            lower_price_band,
            upper_price_band,
            weighted_avg_price,
            market_type,
            ession_number,
            ltp_hour,
            ltp_minute,
            ltp_second,
            ltp_milli_second,
            reserved10,
        }
    }

    /// The record's little-endian serialized bytes, padding zeroed.
    pub open spec fn spec_ser(self) -> Seq<u8> {
        spec_i32_le(self.instrument)
            + spec_i32_le(self.open_rate)
            + spec_i32_le(self.prev_close_rate)
            + spec_i32_le(self.high_rate)
            + spec_i32_le(self.low_rate)
            + spec_i32_le(self.no_of_trades)
            + spec_i64_le(self.traded_volume)
            + spec_i32_le(self.traded_value)
            + spec_i64_le(self.ltq)
            + spec_i32_le(self.ltp)
            + spec_i32_le(self.close_rate)
            + seq![self.trade_value_flag]
            + seq![self.reserved7]
            + seq![self.reserved8]
            + seq![self.reserved9]
            + spec_i32_le(self.lower_price_band)
            + spec_i32_le(self.upper_price_band)
            + spec_i32_le(self.weighted_avg_price)
            + spec_i16_le(self.market_type)
            + spec_i16_le(self.ession_number)
            + seq![self.ltp_hour]
            + seq![self.ltp_minute]
            + seq![self.ltp_second]
            + self.ltp_milli_second@
            + self.reserved10@
    }

    #[verifier::rlimit(100)]
    pub proof fn lemma_ser_len(self)
        requires
            self.wf(),
        ensures
            self.spec_ser().len() == BCAST_ODD_LOT_MBP_DETAILS_SIZE,
    {
        broadcast use crate::bytesio::group_le_lens;

    }

    #[verifier::rlimit(100)]
    #[verifier::spinoff_prover]
    pub fn to_bytes_vec(&self) -> (r: Vec<u8>)
        requires
            self.wf(),
        ensures
            r@ == self.spec_ser(),
    {
        let mut out: Vec<u8> = Vec::new();
        push_i32_le(&mut out, self.instrument);
        push_i32_le(&mut out, self.open_rate);
        push_i32_le(&mut out, self.prev_close_rate);
        push_i32_le(&mut out, self.high_rate);
        push_i32_le(&mut out, self.low_rate);
        push_i32_le(&mut out, self.no_of_trades);
        push_i64_le(&mut out, self.traded_volume);
        push_i32_le(&mut out, self.traded_value);
        push_i64_le(&mut out, self.ltq);
        push_i32_le(&mut out, self.ltp);
        push_i32_le(&mut out, self.close_rate);
        push_u8(&mut out, self.trade_value_flag);
        push_u8(&mut out, self.reserved7);
        push_u8(&mut out, self.reserved8);
        push_u8(&mut out, self.reserved9);
        push_i32_le(&mut out, self.lower_price_band);
        push_i32_le(&mut out, self.upper_price_band);
        push_i32_le(&mut out, self.weighted_avg_price);
        push_i16_le(&mut out, self.market_type);
        push_i16_le(&mut out, self.ession_number);
        push_u8(&mut out, self.ltp_hour);
        push_u8(&mut out, self.ltp_minute);
        push_u8(&mut out, self.ltp_second);
        push_bytes(&mut out, self.ltp_milli_second.as_slice());
        push_bytes(&mut out, self.reserved10.as_slice());
        proof {
            assert(out@ =~= self.spec_ser());
        }
        out
    }
}

/// Concatenated serialization of a sequence of `BcastOddLotMBPDetails` records.
pub open spec fn ser_seq_bcast_odd_lot_mbp_details(a: Seq<BcastOddLotMBPDetails>) -> Seq<u8>
    decreases a.len(),
{
    if a.len() == 0 {
        Seq::empty()
    } else {
        ser_seq_bcast_odd_lot_mbp_details(a.drop_last()) + a.last().spec_ser()
    }
}

pub proof fn lemma_ser_seq_bcast_odd_lot_mbp_details_len(a: Seq<BcastOddLotMBPDetails>)
    requires
        forall|k: int| 0 <= k < a.len() ==> (#[trigger] a[k]).wf(),
    ensures
        ser_seq_bcast_odd_lot_mbp_details(a).len() == a.len() * BCAST_ODD_LOT_MBP_DETAILS_SIZE,
    decreases a.len(),
{
    if a.len() == 0 {
    } else {
        lemma_ser_seq_bcast_odd_lot_mbp_details_len(a.drop_last());
        a.last().lemma_ser_len();
        assert((a.len() - 1) * BCAST_ODD_LOT_MBP_DETAILS_SIZE + BCAST_ODD_LOT_MBP_DETAILS_SIZE == a.len() * BCAST_ODD_LOT_MBP_DETAILS_SIZE) by (nonlinear_arith);
    }
}


pub const BCAST_ODD_LOT_MARKET_PICTURE_SIZE: usize = 508;

#[derive(Clone)]
pub struct BcastOddLotMarketPicture {
    pub message_type: i32,
    pub reserved1: i32,
    pub reserved2: i32,
    pub reserved3: u16,
    pub hour: i16,
    pub minute: i16,
    pub econd: i16,
    pub milli_second: i16,
    pub reserved4: i16,
    pub reserved5: i16,
    pub no_of_records: i16,
    pub mbp_details: Vec<BcastOddLotMBPDetails>,
}

impl BcastOddLotMarketPicture {
    pub open spec fn wf(self) -> bool {
        &&& self.mbp_details@.len() == 6
        &&& (forall|k: int| 0 <= k < 6 ==> (#[trigger] self.mbp_details@[k]).wf())
    }

    /// Exactly which big-endian wire bytes each field was read from.
    pub open spec fn parsed_from(self, s: Seq<u8>, off: int) -> bool {
        &&& self.message_type as int == to_signed(be_bytes(s, off + 0, 4), 4)
        &&& self.reserved1 as int == to_signed(be_bytes(s, off + 4, 4), 4)
        &&& self.reserved2 as int == to_signed(be_bytes(s, off + 8, 4), 4)
        &&& self.reserved3 as int == be_bytes(s, off + 12, 2)
        &&& self.hour as int == to_signed(be_bytes(s, off + 14, 2), 2)
        &&& self.minute as int == to_signed(be_bytes(s, off + 16, 2), 2)
        &&& self.econd as int == to_signed(be_bytes(s, off + 18, 2), 2)
        &&& self.milli_second as int == to_signed(be_bytes(s, off + 20, 2), 2)
        &&& self.reserved4 as int == to_signed(be_bytes(s, off + 22, 2), 2)
        &&& self.reserved5 as int == to_signed(be_bytes(s, off + 24, 2), 2)
        &&& self.no_of_records as int == to_signed(be_bytes(s, off + 26, 2), 2)
        &&& self.mbp_details@.len() == 6
        &&& (forall|k: int| 0 <= k < 6 ==> (#[trigger] self.mbp_details@[k]).parsed_from(s, off + 28 + k * 80))
    }

    #[verifier::rlimit(100)]
    pub fn from_bytes(buf: &[u8], off: usize) -> (r: Self)
        requires
            off + BCAST_ODD_LOT_MARKET_PICTURE_SIZE <= buf@.len(),
        ensures
            r.parsed_from(buf@, off as int),
            r.wf(),
    {
        let n: usize = buf.len();
        let message_type = read_i32_be(buf, off + 0);
        let reserved1 = read_i32_be(buf, off + 4);
        let reserved2 = read_i32_be(buf, off + 8);
        let reserved3 = read_u16_be(buf, off + 12);
        let hour = read_i16_be(buf, off + 14);
        let minute = read_i16_be(buf, off + 16);
        let econd = read_i16_be(buf, off + 18);
        let milli_second = read_i16_be(buf, off + 20);
        let reserved4 = read_i16_be(buf, off + 22);
        let reserved5 = read_i16_be(buf, off + 24);
        let no_of_records = read_i16_be(buf, off + 26);
        let mut mbp_details: Vec<BcastOddLotMBPDetails> = Vec::new();
        let mut k_mbp_details: usize = 0;
        while k_mbp_details < 6
            invariant
                k_mbp_details <= 6,
                n == buf@.len(),
                off + BCAST_ODD_LOT_MARKET_PICTURE_SIZE <= n,
                mbp_details@.len() == k_mbp_details,
                forall|x: int| 0 <= x < k_mbp_details ==> (#[trigger] mbp_details@[x]).parsed_from(buf@, off + 28 + x * 80) && mbp_details@[x].wf(),
            decreases 6 - k_mbp_details,
        {
            mbp_details.push(BcastOddLotMBPDetails::from_bytes(buf, off + 28 + k_mbp_details * 80));
            k_mbp_details = k_mbp_details + 1;
        }
        BcastOddLotMarketPicture {
            message_type,
            reserved1,
            reserved2,
            reserved3,
            hour,
            minute,
            econd,
            milli_second,
            reserved4,
            reserved5,
            no_of_records,
            mbp_details,
        }
    }

    /// The record's little-endian serialized bytes, padding zeroed.
    pub open spec fn spec_ser(self) -> Seq<u8> {
        spec_i32_le(self.message_type)
            + spec_i32_le(self.reserved1)
            + spec_i32_le(self.reserved2)
            + spec_u16_le(self.reserved3)
            + spec_i16_le(self.hour)
            + spec_i16_le(self.minute)
            + spec_i16_le(self.econd)
            + spec_i16_le(self.milli_second)
            + spec_i16_le(self.reserved4)
            + spec_i16_le(self.reserved5)
            + spec_i16_le(self.no_of_records)
            + ser_seq_bcast_odd_lot_mbp_details(self.mbp_details@)
    }

    #[verifier::rlimit(100)]
    pub proof fn lemma_ser_len(self)
        requires
            self.wf(),
        ensures
            self.spec_ser().len() == BCAST_ODD_LOT_MARKET_PICTURE_SIZE,
    {
        broadcast use crate::bytesio::group_le_lens;

        lemma_ser_seq_bcast_odd_lot_mbp_details_len(self.mbp_details@);
    }

    #[verifier::rlimit(100)]
    #[verifier::spinoff_prover]
    pub fn to_bytes_vec(&self) -> (r: Vec<u8>)
        requires
            self.wf(),
        ensures
            r@ == self.spec_ser(),
    {
        let mut out: Vec<u8> = Vec::new();
        push_i32_le(&mut out, self.message_type);
        push_i32_le(&mut out, self.reserved1);
        push_i32_le(&mut out, self.reserved2);
        push_u16_le(&mut out, self.reserved3);
        push_i16_le(&mut out, self.hour);
        push_i16_le(&mut out, self.minute);
        push_i16_le(&mut out, self.econd);
        push_i16_le(&mut out, self.milli_second);
        push_i16_le(&mut out, self.reserved4);
        push_i16_le(&mut out, self.reserved5);
        push_i16_le(&mut out, self.no_of_records);
        let ghost pre_mbp_details = out@;
        let mut k_mbp_details: usize = 0;
        while k_mbp_details < 6
            invariant
                k_mbp_details <= 6,
                self.mbp_details@.len() == 6,
                forall|k: int| 0 <= k < 6 ==> (#[trigger] self.mbp_details@[k]).wf(),
                out@ == pre_mbp_details + ser_seq_bcast_odd_lot_mbp_details(self.mbp_details@.take(k_mbp_details as int)),
            decreases 6 - k_mbp_details,
        {
            let mut one = self.mbp_details[k_mbp_details].to_bytes_vec();
            out.append(&mut one);
            proof {
                let t = self.mbp_details@.take(k_mbp_details + 1);
                assert(t.drop_last() =~= self.mbp_details@.take(k_mbp_details as int));
                assert(t.last() == self.mbp_details@[k_mbp_details as int]);
                assert(out@ =~= pre_mbp_details + ser_seq_bcast_odd_lot_mbp_details(t));
            }
            k_mbp_details = k_mbp_details + 1;
        }
        proof {
            assert(self.mbp_details@.take(6) =~= self.mbp_details@);
        }
        proof {
            assert(out@ =~= self.spec_ser());
        }
        out
    }
}

pub const BCAST_DEBT_MBP_DATA_SIZE: usize = 56;

#[derive(Clone, Copy)]
pub struct BcastDebtMBPData {
    pub best_bid_rate: i32,
    pub total_bid_qty: i32,
    pub buy_ytm: i32,
    pub buy_ytp: i32,
    pub buy_ytc: i32,
    pub no_of_bid_at_price_point: i32,
    pub filler1: i32,
    pub best_offer_rate: i32,
    pub total_offer_qty: i32,
    pub sell_ytm: i32,
    pub sell_ytp: i32,
    pub sell_ytc: i32,
    pub no_of_offer_at_price_point: i32,
    pub filler2: i32,
}

impl BcastDebtMBPData {
    pub open spec fn wf(self) -> bool {
        true
    }

    /// Exactly which big-endian wire bytes each field was read from.
    pub open spec fn parsed_from(self, s: Seq<u8>, off: int) -> bool {
        &&& self.best_bid_rate as int == to_signed(be_bytes(s, off + 0, 4), 4)
        &&& self.total_bid_qty as int == to_signed(be_bytes(s, off + 4, 4), 4)
        &&& self.buy_ytm as int == to_signed(be_bytes(s, off + 8, 4), 4)
        &&& self.buy_ytp as int == to_signed(be_bytes(s, off + 12, 4), 4)
        &&& self.buy_ytc as int == to_signed(be_bytes(s, off + 16, 4), 4)
        &&& self.no_of_bid_at_price_point as int == to_signed(be_bytes(s, off + 20, 4), 4)
        &&& self.filler1 as int == to_signed(be_bytes(s, off + 24, 4), 4)
        &&& self.best_offer_rate as int == to_signed(be_bytes(s, off + 28, 4), 4)
        &&& self.total_offer_qty as int == to_signed(be_bytes(s, off + 32, 4), 4)
        &&& self.sell_ytm as int == to_signed(be_bytes(s, off + 36, 4), 4)
        &&& self.sell_ytp as int == to_signed(be_bytes(s, off + 40, 4), 4)
        &&& self.sell_ytc as int == to_signed(be_bytes(s, off + 44, 4), 4)
        &&& self.no_of_offer_at_price_point as int == to_signed(be_bytes(s, off + 48, 4), 4)
        &&& self.filler2 as int == to_signed(be_bytes(s, off + 52, 4), 4)
    }

    #[verifier::rlimit(100)]
    pub fn from_bytes(buf: &[u8], off: usize) -> (r: Self)
        requires
            off + BCAST_DEBT_MBP_DATA_SIZE <= buf@.len(),
        ensures
            r.parsed_from(buf@, off as int),
            r.wf(),
    {
        let n: usize = buf.len();
        let best_bid_rate = read_i32_be(buf, off + 0);
        let total_bid_qty = read_i32_be(buf, off + 4);
        let buy_ytm = read_i32_be(buf, off + 8);
        let buy_ytp = read_i32_be(buf, off + 12);
        let buy_ytc = read_i32_be(buf, off + 16);
        let no_of_bid_at_price_point = read_i32_be(buf, off + 20);
        let filler1 = read_i32_be(buf, off + 24);
        let best_offer_rate = read_i32_be(buf, off + 28);
        let total_offer_qty = read_i32_be(buf, off + 32);
        let sell_ytm = read_i32_be(buf, off + 36);
        let sell_ytp = read_i32_be(buf, off + 40);
        let sell_ytc = read_i32_be(buf, off + 44);
        let no_of_offer_at_price_point = read_i32_be(buf, off + 48);
        let filler2 = read_i32_be(buf, off + 52);
        BcastDebtMBPData {
            best_bid_rate,
            total_bid_qty,
            buy_ytm,
            buy_ytp,
            buy_ytc,
            no_of_bid_at_price_point,
            filler1,
            best_offer_rate,
            total_offer_qty,
            sell_ytm,
            sell_ytp,
            sell_ytc,
            no_of_offer_at_price_point,
            filler2,
        }
    }

    /// The record's little-endian serialized bytes, padding zeroed.
    pub open spec fn spec_ser(self) -> Seq<u8> {
        spec_i32_le(self.best_bid_rate)
            + spec_i32_le(self.total_bid_qty)
            + spec_i32_le(self.buy_ytm)
            + spec_i32_le(self.buy_ytp)
            + spec_i32_le(self.buy_ytc)
            + spec_i32_le(self.no_of_bid_at_price_point)
            + spec_i32_le(self.filler1)
            + spec_i32_le(self.best_offer_rate)
            + spec_i32_le(self.total_offer_qty)
            + spec_i32_le(self.sell_ytm)
            + spec_i32_le(self.sell_ytp)
            + spec_i32_le(self.sell_ytc)
            + spec_i32_le(self.no_of_offer_at_price_point)
            + spec_i32_le(self.filler2)
    }

    #[verifier::rlimit(100)]
    pub proof fn lemma_ser_len(self)
        requires
            self.wf(),
        ensures
            self.spec_ser().len() == BCAST_DEBT_MBP_DATA_SIZE,
    {
        broadcast use crate::bytesio::group_le_lens;

    }

    #[verifier::rlimit(100)]
    #[verifier::spinoff_prover]
    pub fn to_bytes_vec(&self) -> (r: Vec<u8>)
        requires
            self.wf(),
        ensures
            r@ == self.spec_ser(),
    {
        let mut out: Vec<u8> = Vec::new();
        push_i32_le(&mut out, self.best_bid_rate);
        push_i32_le(&mut out, self.total_bid_qty);
        push_i32_le(&mut out, self.buy_ytm);
        push_i32_le(&mut out, self.buy_ytp);
        push_i32_le(&mut out, self.buy_ytc);
        push_i32_le(&mut out, self.no_of_bid_at_price_point);
        push_i32_le(&mut out, self.filler1);
        push_i32_le(&mut out, self.best_offer_rate);
        push_i32_le(&mut out, self.total_offer_qty);
        push_i32_le(&mut out, self.sell_ytm);
        push_i32_le(&mut out, self.sell_ytp);
        push_i32_le(&mut out, self.sell_ytc);
        push_i32_le(&mut out, self.no_of_offer_at_price_point);
        push_i32_le(&mut out, self.filler2);
        proof {
            assert(out@ =~= self.spec_ser());
        }
        out
    }
}

/// Concatenated serialization of a sequence of `BcastDebtMBPData` records.
pub open spec fn ser_seq_bcast_debt_mbp_data(a: Seq<BcastDebtMBPData>) -> Seq<u8>
    decreases a.len(),
{
    if a.len() == 0 {
        Seq::empty()
    } else {
        ser_seq_bcast_debt_mbp_data(a.drop_last()) + a.last().spec_ser()
    }
}

pub proof fn lemma_ser_seq_bcast_debt_mbp_data_len(a: Seq<BcastDebtMBPData>)
    requires
        forall|k: int| 0 <= k < a.len() ==> (#[trigger] a[k]).wf(),
    ensures
        ser_seq_bcast_debt_mbp_data(a).len() == a.len() * BCAST_DEBT_MBP_DATA_SIZE,
    decreases a.len(),
{
    if a.len() == 0 {
    } else {
        lemma_ser_seq_bcast_debt_mbp_data_len(a.drop_last());
        a.last().lemma_ser_len();
        assert((a.len() - 1) * BCAST_DEBT_MBP_DATA_SIZE + BCAST_DEBT_MBP_DATA_SIZE == a.len() * BCAST_DEBT_MBP_DATA_SIZE) by (nonlinear_arith);
    }
}


pub const BCAST_DEBT_MBP_DETAILS_SIZE: usize = 396;

#[derive(Clone)]
pub struct BcastDebtMBPDetails {
    pub instrument: i32,
    pub no_of_trades: i32,
    pub traded_volume: i32,
    pub traded_value: i32,
    pub trade_value_flag: u8,
    pub reserved6: u8,
    pub reserved7: u8,
    pub reserved8: Vec<u8>,
    pub market_type: i16,
    pub ession_number: i16,
    pub ltp_hour: u8,
    pub ltp_minute: u8,
    pub ltp_second: u8,
    pub ltp_milli_second: Vec<u8>,
    pub reserved9: Vec<u8>,
    pub reserved10: i16,
    pub no_of_price_points: i16,
    pub timestamp: i64,
    pub close_rate: i32,
    pub ytm: i32,
    pub ytp: i32,
    pub ytc: i32,
    pub ltq: i32,
    pub ltp: i32,
    pub open_rate: i32,
    pub prev_close_rate: i32,
    pub high_rate: i32,
    pub low_rate: i32,
    pub reserved11: i32,
    pub indicative_equilibrium_price: i32,
    pub indicative_equilibrium_qty: i32,
    pub total_bid_qty: i32,
    pub total_offer_qty: i32,
    pub lower_price_band: i32,
    pub upper_price_band: i32,
    pub weighted_avg_price: i32,
    pub mbp_data: Vec<BcastDebtMBPData>,
}

impl BcastDebtMBPDetails {
    pub open spec fn wf(self) -> bool {
        &&& self.reserved8@.len() == 1
        &&& self.ltp_milli_second@.len() == 3
        &&& self.reserved9@.len() == 2
        &&& self.mbp_data@.len() == 5
        &&& (forall|k: int| 0 <= k < 5 ==> (#[trigger] self.mbp_data@[k]).wf())
    }

    /// Exactly which big-endian wire bytes each field was read from.
    pub open spec fn parsed_from(self, s: Seq<u8>, off: int) -> bool {
        &&& self.instrument as int == to_signed(be_bytes(s, off + 0, 4), 4)
        &&& self.no_of_trades as int == to_signed(be_bytes(s, off + 4, 4), 4)
        &&& self.traded_volume as int == to_signed(be_bytes(s, off + 8, 4), 4)
        &&& self.traded_value as int == to_signed(be_bytes(s, off + 12, 4), 4)
        &&& self.trade_value_flag == s[off + 16]
        &&& self.reserved6 == s[off + 17]
        &&& self.reserved7 == s[off + 18]
        &&& self.reserved8@ == s.subrange(off + 19, off + 19 + 1)
        &&& self.market_type as int == to_signed(be_bytes(s, off + 20, 2), 2)
        &&& self.ession_number as int == to_signed(be_bytes(s, off + 22, 2), 2)
        &&& self.ltp_hour == s[off + 24]
        &&& self.ltp_minute == s[off + 25]
        &&& self.ltp_second == s[off + 26]
        &&& self.ltp_milli_second@ == s.subrange(off + 27, off + 27 + 3)
        &&& self.reserved9@ == s.subrange(off + 30, off + 30 + 2)
        &&& self.reserved10 as int == to_signed(be_bytes(s, off + 32, 2), 2)
        &&& self.no_of_price_points as int == to_signed(be_bytes(s, off + 34, 2), 2)
        &&& self.timestamp as int == to_signed(be_bytes(s, off + 36, 8), 8)
        &&& self.close_rate as int == to_signed(be_bytes(s, off + 44, 4), 4)
        &&& self.ytm as int == to_signed(be_bytes(s, off + 48, 4), 4)
        &&& self.ytp as int == to_signed(be_bytes(s, off + 52, 4), 4)
        &&& self.ytc as int == to_signed(be_bytes(s, off + 56, 4), 4)
        &&& self.ltq as int == to_signed(be_bytes(s, off + 60, 4), 4)
        &&& self.ltp as int == to_signed(be_bytes(s, off + 64, 4), 4)
        &&& self.open_rate as int == to_signed(be_bytes(s, off + 68, 4), 4)
        &&& self.prev_close_rate as int == to_signed(be_bytes(s, off + 72, 4), 4)
        &&& self.high_rate as int == to_signed(be_bytes(s, off + 76, 4), 4)
        &&& self.low_rate as int == to_signed(be_bytes(s, off + 80, 4), 4)
        &&& self.reserved11 as int == to_signed(be_bytes(s, off + 84, 4), 4)
        &&& self.indicative_equilibrium_price as int == to_signed(be_bytes(s, off + 88, 4), 4)
        &&& self.indicative_equilibrium_qty as int == to_signed(be_bytes(s, off + 92, 4), 4)
        &&& self.total_bid_qty as int == to_signed(be_bytes(s, off + 96, 4), 4)
        &&& self.total_offer_qty as int == to_signed(be_bytes(s, off + 100, 4), 4)
        &&& self.lower_price_band as int == to_signed(be_bytes(s, off + 104, 4), 4)
        &&& self.upper_price_band as int == to_signed(be_bytes(s, off + 108, 4), 4)
        &&& self.weighted_avg_price as int == to_signed(be_bytes(s, off + 112, 4), 4)
        &&& self.mbp_data@.len() == 5
        &&& (forall|k: int| 0 <= k < 5 ==> (#[trigger] self.mbp_data@[k]).parsed_from(s, off + 116 + k * 56))
    }

    #[verifier::rlimit(100)]
    pub fn from_bytes(buf: &[u8], off: usize) -> (r: Self)
        requires
            off + BCAST_DEBT_MBP_DETAILS_SIZE <= buf@.len(),
        ensures
            r.parsed_from(buf@, off as int),
            r.wf(),
    {
        let n: usize = buf.len();
        let instrument = read_i32_be(buf, off + 0);
        let no_of_trades = read_i32_be(buf, off + 4);
        let traded_volume = read_i32_be(buf, off + 8);
        let traded_value = read_i32_be(buf, off + 12);
        let trade_value_flag = read_u8(buf, off + 16);
        let reserved6 = read_u8(buf, off + 17);
        let reserved7 = read_u8(buf, off + 18);
        let reserved8 = read_bytes(buf, off + 19, 1);
        let market_type = read_i16_be(buf, off + 20);
        let ession_number = read_i16_be(buf, off + 22);
        let ltp_hour = read_u8(buf, off + 24);
        let ltp_minute = read_u8(buf, off + 25);
        let ltp_second = read_u8(buf, off + 26);
        let ltp_milli_second = read_bytes(buf, off + 27, 3);
        let reserved9 = read_bytes(buf, off + 30, 2);
        let reserved10 = read_i16_be(buf, off + 32);
        let no_of_price_points = read_i16_be(buf, off + 34);
        let timestamp = read_i64_be(buf, off + 36);
        let close_rate = read_i32_be(buf, off + 44);
        let ytm = read_i32_be(buf, off + 48);
        let ytp = read_i32_be(buf, off + 52);
        let ytc = read_i32_be(buf, off + 56);
        let ltq = read_i32_be(buf, off + 60);
        let ltp = read_i32_be(buf, off + 64);
        let open_rate = read_i32_be(buf, off + 68);
        let prev_close_rate = read_i32_be(buf, off + 72);
        let high_rate = read_i32_be(buf, off + 76);
        let low_rate = read_i32_be(buf, off + 80);
        let reserved11 = read_i32_be(buf, off + 84);
        let indicative_equilibrium_price = read_i32_be(buf, off + 88);
        let indicative_equilibrium_qty = read_i32_be(buf, off + 92);
        let total_bid_qty = read_i32_be(buf, off + 96);
        let total_offer_qty = read_i32_be(buf, off + 100);
        let lower_price_band = read_i32_be(buf, off + 104);
        let upper_price_band = read_i32_be(buf, off + 108);
        let weighted_avg_price = read_i32_be(buf, off + 112);
        let mut mbp_data: Vec<BcastDebtMBPData> = Vec::new();
        let mut k_mbp_data: usize = 0;
        while k_mbp_data < 5
            invariant
                k_mbp_data <= 5,
                n == buf@.len(),
                off + BCAST_DEBT_MBP_DETAILS_SIZE <= n,
                mbp_data@.len() == k_mbp_data,
                forall|x: int| 0 <= x < k_mbp_data ==> (#[trigger] mbp_data@[x]).parsed_from(buf@, off + 116 + x * 56) && mbp_data@[x].wf(),
            decreases 5 - k_mbp_data,
        {
            mbp_data.push(BcastDebtMBPData::from_bytes(buf, off + 116 + k_mbp_data * 56));
            k_mbp_data = k_mbp_data + 1;
        }
        BcastDebtMBPDetails {
            instrument,
            no_of_trades,
            traded_volume,
            traded_value,
            trade_value_flag,
            reserved6,
            reserved7,
            reserved8,
            market_type,
            ession_number,
            ltp_hour,
            ltp_minute,
            ltp_second,
            ltp_milli_second,
            reserved9,
            reserved10,
            no_of_price_points,
            timestamp,
            close_rate,
            ytm,
            ytp,
            ytc,
            ltq,
            ltp,
            open_rate,
            prev_close_rate,
            high_rate,
            low_rate,
            reserved11,
            indicative_equilibrium_price,
            indicative_equilibrium_qty,
            total_bid_qty,
            total_offer_qty,
            lower_price_band,
            upper_price_band,
            weighted_avg_price,
            mbp_data,
        }
    }

    /// The record's little-endian serialized bytes, padding zeroed.
    pub open spec fn spec_ser(self) -> Seq<u8> {
        spec_i32_le(self.instrument)
            + spec_i32_le(self.no_of_trades)
            + spec_i32_le(self.traded_volume)
            + spec_i32_le(self.traded_value)
            + seq![self.trade_value_flag]
            + seq![self.reserved6]
            + seq![self.reserved7]
            + self.reserved8@
            + spec_i16_le(self.market_type)
            + spec_i16_le(self.ession_number)
            + seq![self.ltp_hour]
            + seq![self.ltp_minute]
            + seq![self.ltp_second]
            + self.ltp_milli_second@
            + self.reserved9@
            + spec_i16_le(self.reserved10)
            + spec_i16_le(self.no_of_price_points)
            + spec_i64_le(self.timestamp)
            + spec_i32_le(self.close_rate)
            + spec_i32_le(self.ytm)
            + spec_i32_le(self.ytp)
            + spec_i32_le(self.ytc)
            + spec_i32_le(self.ltq)
            + spec_i32_le(self.ltp)
            + spec_i32_le(self.open_rate)
            + spec_i32_le(self.prev_close_rate)
            + spec_i32_le(self.high_rate)
            + spec_i32_le(self.low_rate)
            + spec_i32_le(self.reserved11)
            + spec_i32_le(self.indicative_equilibrium_price)
            + spec_i32_le(self.indicative_equilibrium_qty)
            + spec_i32_le(self.total_bid_qty)
            + spec_i32_le(self.total_offer_qty)
            + spec_i32_le(self.lower_price_band)
            + spec_i32_le(self.upper_price_band)
            + spec_i32_le(self.weighted_avg_price)
            + ser_seq_bcast_debt_mbp_data(self.mbp_data@)
    }

    #[verifier::rlimit(100)]
    pub proof fn lemma_ser_len(self)
        requires
            self.wf(),
        ensures
            self.spec_ser().len() == BCAST_DEBT_MBP_DETAILS_SIZE,
    {
        broadcast use crate::bytesio::group_le_lens;

        lemma_ser_seq_bcast_debt_mbp_data_len(self.mbp_data@);
    }

    #[verifier::rlimit(100)]
    #[verifier::spinoff_prover]
    pub fn to_bytes_vec(&self) -> (r: Vec<u8>)
        requires
            self.wf(),
        ensures
            r@ == self.spec_ser(),
    {
        let mut out: Vec<u8> = Vec::new();
        push_i32_le(&mut out, self.instrument);
        push_i32_le(&mut out, self.no_of_trades);
        push_i32_le(&mut out, self.traded_volume);
        push_i32_le(&mut out, self.traded_value);
        push_u8(&mut out, self.trade_value_flag);
        push_u8(&mut out, self.reserved6);
        push_u8(&mut out, self.reserved7);
        push_bytes(&mut out, self.reserved8.as_slice());
        push_i16_le(&mut out, self.market_type);
        push_i16_le(&mut out, self.ession_number);
        push_u8(&mut out, self.ltp_hour);
        push_u8(&mut out, self.ltp_minute);
        push_u8(&mut out, self.ltp_second);
        push_bytes(&mut out, self.ltp_milli_second.as_slice());
        push_bytes(&mut out, self.reserved9.as_slice());
        push_i16_le(&mut out, self.reserved10);
        push_i16_le(&mut out, self.no_of_price_points);
        push_i64_le(&mut out, self.timestamp);
        push_i32_le(&mut out, self.close_rate);
        push_i32_le(&mut out, self.ytm);
        push_i32_le(&mut out, self.ytp);
        push_i32_le(&mut out, self.ytc);
        push_i32_le(&mut out, self.ltq);
        push_i32_le(&mut out, self.ltp);
        push_i32_le(&mut out, self.open_rate);
        push_i32_le(&mut out, self.prev_close_rate);
        push_i32_le(&mut out, self.high_rate);
        push_i32_le(&mut out, self.low_rate);
        push_i32_le(&mut out, self.reserved11);
        push_i32_le(&mut out, self.indicative_equilibrium_price);
        push_i32_le(&mut out, self.indicative_equilibrium_qty);
        push_i32_le(&mut out, self.total_bid_qty);
        push_i32_le(&mut out, self.total_offer_qty);
        push_i32_le(&mut out, self.lower_price_band);
        push_i32_le(&mut out, self.upper_price_band);
        push_i32_le(&mut out, self.weighted_avg_price);
        let ghost pre_mbp_data = out@;
        let mut k_mbp_data: usize = 0;
        while k_mbp_data < 5
            invariant
                k_mbp_data <= 5,
                self.mbp_data@.len() == 5,
                forall|k: int| 0 <= k < 5 ==> (#[trigger] self.mbp_data@[k]).wf(),
                out@ == pre_mbp_data + ser_seq_bcast_debt_mbp_data(self.mbp_data@.take(k_mbp_data as int)),
            decreases 5 - k_mbp_data,
        {
            let mut one = self.mbp_data[k_mbp_data].to_bytes_vec();
            out.append(&mut one);
            proof {
                let t = self.mbp_data@.take(k_mbp_data + 1);
                assert(t.drop_last() =~= self.mbp_data@.take(k_mbp_data as int));
                assert(t.last() == self.mbp_data@[k_mbp_data as int]);
                assert(out@ =~= pre_mbp_data + ser_seq_bcast_debt_mbp_data(t));
            }
            k_mbp_data = k_mbp_data + 1;
        }
        proof {
            assert(self.mbp_data@.take(5) =~= self.mbp_data@);
        }
        proof {
            assert(out@ =~= self.spec_ser());
        }
        out
    }
}

/// Concatenated serialization of a sequence of `BcastDebtMBPDetails` records.
pub open spec fn ser_seq_bcast_debt_mbp_details(a: Seq<BcastDebtMBPDetails>) -> Seq<u8>
    decreases a.len(),
{
    if a.len() == 0 {
        Seq::empty()
    } else {
        ser_seq_bcast_debt_mbp_details(a.drop_last()) + a.last().spec_ser()
    }
}

pub proof fn lemma_ser_seq_bcast_debt_mbp_details_len(a: Seq<BcastDebtMBPDetails>)
    requires
        forall|k: int| 0 <= k < a.len() ==> (#[trigger] a[k]).wf(),
    ensures
        ser_seq_bcast_debt_mbp_details(a).len() == a.len() * BCAST_DEBT_MBP_DETAILS_SIZE,
    decreases a.len(),
{
    if a.len() == 0 {
    } else {
        lemma_ser_seq_bcast_debt_mbp_details_len(a.drop_last());
        a.last().lemma_ser_len();
        assert((a.len() - 1) * BCAST_DEBT_MBP_DETAILS_SIZE + BCAST_DEBT_MBP_DETAILS_SIZE == a.len() * BCAST_DEBT_MBP_DETAILS_SIZE) by (nonlinear_arith);
    }
}


pub const BCAST_DEBT_MARKET_PICTURE_SIZE: usize = 2404;

#[derive(Clone)]
pub struct BcastDebtMarketPicture {
    pub message_type: i32,
    pub reserved1: i32,
    pub reserved2: i32,
    pub reserved3: u16,
    pub hour: i16,
    pub minute: i16,
    pub econd: i16,
    pub milli_second: i16,
    pub reserved4: i16,
    pub reserved5: i16,
    pub no_of_records: i16,
    pub mbp_details: Vec<BcastDebtMBPDetails>,
}

impl BcastDebtMarketPicture {
    pub open spec fn wf(self) -> bool {
        &&& self.mbp_details@.len() == 6
        &&& (forall|k: int| 0 <= k < 6 ==> (#[trigger] self.mbp_details@[k]).wf())
    }

    /// Exactly which big-endian wire bytes each field was read from.
    pub open spec fn parsed_from(self, s: Seq<u8>, off: int) -> bool {
        &&& self.message_type as int == to_signed(be_bytes(s, off + 0, 4), 4)
        &&& self.reserved1 as int == to_signed(be_bytes(s, off + 4, 4), 4)
        &&& self.reserved2 as int == to_signed(be_bytes(s, off + 8, 4), 4)
        &&& self.reserved3 as int == be_bytes(s, off + 12, 2)
        &&& self.hour as int == to_signed(be_bytes(s, off + 14, 2), 2)
        &&& self.minute as int == to_signed(be_bytes(s, off + 16, 2), 2)
        &&& self.econd as int == to_signed(be_bytes(s, off + 18, 2), 2)
        &&& self.milli_second as int == to_signed(be_bytes(s, off + 20, 2), 2)
        &&& self.reserved4 as int == to_signed(be_bytes(s, off + 22, 2), 2)
        &&& self.reserved5 as int == to_signed(be_bytes(s, off + 24, 2), 2)
        &&& self.no_of_records as int == to_signed(be_bytes(s, off + 26, 2), 2)
        &&& self.mbp_details@.len() == 6
        &&& (forall|k: int| 0 <= k < 6 ==> (#[trigger] self.mbp_details@[k]).parsed_from(s, off + 28 + k * 396))
    }

    #[verifier::rlimit(100)]
    pub fn from_bytes(buf: &[u8], off: usize) -> (r: Self)
        requires
            off + BCAST_DEBT_MARKET_PICTURE_SIZE <= buf@.len(),
        ensures
            r.parsed_from(buf@, off as int),
            r.wf(),
    {
        let n: usize = buf.len();
        let message_type = read_i32_be(buf, off + 0);
        let reserved1 = read_i32_be(buf, off + 4);
        let reserved2 = read_i32_be(buf, off + 8);
        let reserved3 = read_u16_be(buf, off + 12);
        let hour = read_i16_be(buf, off + 14);
        let minute = read_i16_be(buf, off + 16);
        let econd = read_i16_be(buf, off + 18);
        let milli_second = read_i16_be(buf, off + 20);
        let reserved4 = read_i16_be(buf, off + 22);
        let reserved5 = read_i16_be(buf, off + 24);
        let no_of_records = read_i16_be(buf, off + 26);
        let mut mbp_details: Vec<BcastDebtMBPDetails> = Vec::new();
        let mut k_mbp_details: usize = 0;
        while k_mbp_details < 6
            invariant
                k_mbp_details <= 6,
                n == buf@.len(),
                off + BCAST_DEBT_MARKET_PICTURE_SIZE <= n,
                mbp_details@.len() == k_mbp_details,
                forall|x: int| 0 <= x < k_mbp_details ==> (#[trigger] mbp_details@[x]).parsed_from(buf@, off + 28 + x * 396) && mbp_details@[x].wf(),
            decreases 6 - k_mbp_details,
        {
            mbp_details.push(BcastDebtMBPDetails::from_bytes(buf, off + 28 + k_mbp_details * 396));
            k_mbp_details = k_mbp_details + 1;
        }
        BcastDebtMarketPicture {
            message_type,
            reserved1,
            reserved2,
            reserved3,
            hour,
            minute,
            econd,
            milli_second,
            reserved4,
            reserved5,
            no_of_records,
            mbp_details,
        }
    }

    /// The record's little-endian serialized bytes, padding zeroed.
    pub open spec fn spec_ser(self) -> Seq<u8> {
        spec_i32_le(self.message_type)
            + spec_i32_le(self.reserved1)
            + spec_i32_le(self.reserved2)
            + spec_u16_le(self.reserved3)
            + spec_i16_le(self.hour)
            + spec_i16_le(self.minute)
            + spec_i16_le(self.econd)
            + spec_i16_le(self.milli_second)
            + spec_i16_le(self.reserved4)
            + spec_i16_le(self.reserved5)
            + spec_i16_le(self.no_of_records)
            + ser_seq_bcast_debt_mbp_details(self.mbp_details@)
    }

    #[verifier::rlimit(100)]
    pub proof fn lemma_ser_len(self)
        requires
            self.wf(),
        ensures
            self.spec_ser().len() == BCAST_DEBT_MARKET_PICTURE_SIZE,
    {
        broadcast use crate::bytesio::group_le_lens;

        lemma_ser_seq_bcast_debt_mbp_details_len(self.mbp_details@);
    }

    #[verifier::rlimit(100)]
    #[verifier::spinoff_prover]
    pub fn to_bytes_vec(&self) -> (r: Vec<u8>)
        requires
            self.wf(),
        ensures
            r@ == self.spec_ser(),
    {
        let mut out: Vec<u8> = Vec::new();
        push_i32_le(&mut out, self.message_type);
        push_i32_le(&mut out, self.reserved1);
        push_i32_le(&mut out, self.reserved2);
        push_u16_le(&mut out, self.reserved3);
        push_i16_le(&mut out, self.hour);
        push_i16_le(&mut out, self.minute);
        push_i16_le(&mut out, self.econd);
        push_i16_le(&mut out, self.milli_second);
        push_i16_le(&mut out, self.reserved4);
        push_i16_le(&mut out, self.reserved5);
        push_i16_le(&mut out, self.no_of_records);
        let ghost pre_mbp_details = out@;
        let mut k_mbp_details: usize = 0;
        while k_mbp_details < 6
            invariant
                k_mbp_details <= 6,
                self.mbp_details@.len() == 6,
                forall|k: int| 0 <= k < 6 ==> (#[trigger] self.mbp_details@[k]).wf(),
                out@ == pre_mbp_details + ser_seq_bcast_debt_mbp_details(self.mbp_details@.take(k_mbp_details as int)),
            decreases 6 - k_mbp_details,
        {
            let mut one = self.mbp_details[k_mbp_details].to_bytes_vec();
            out.append(&mut one);
            proof {
                let t = self.mbp_details@.take(k_mbp_details + 1);
                assert(t.drop_last() =~= self.mbp_details@.take(k_mbp_details as int));
                assert(t.last() == self.mbp_details@[k_mbp_details as int]);
                assert(out@ =~= pre_mbp_details + ser_seq_bcast_debt_mbp_details(t));
            }
            k_mbp_details = k_mbp_details + 1;
        }
        proof {
            assert(self.mbp_details@.take(6) =~= self.mbp_details@);
        }
        proof {
            assert(out@ =~= self.spec_ser());
        }
        out
    }
}

pub const BCAST_INDEX_DETAILS_SIZE: usize = 40;

#[derive(Clone)]
pub struct BcastIndexDetails {
    pub index_code: i32,
    pub index_high: i32,
    pub index_low: i32,
    pub index_open: i32,
    pub prev_index_close: i32,
    pub index_value: i32,
    pub index_id: Vec<u8>,
    pub reserved6: u8,
    pub reserved7: u8,
    pub reserved8: u8,
    pub reserved9: Vec<u8>,
    pub index_close_value_indicator: i16,
    pub reserved10: i16,
}

impl BcastIndexDetails {
    pub open spec fn wf(self) -> bool {
        &&& self.index_id@.len() == 7
        &&& self.reserved9@.len() == 2
    }

    /// Exactly which big-endian wire bytes each field was read from.
    pub open spec fn parsed_from(self, s: Seq<u8>, off: int) -> bool {
        &&& self.index_code as int == to_signed(be_bytes(s, off + 0, 4), 4)
        &&& self.index_high as int == to_signed(be_bytes(s, off + 4, 4), 4)
        &&& self.index_low as int == to_signed(be_bytes(s, off + 8, 4), 4)
        &&& self.index_open as int == to_signed(be_bytes(s, off + 12, 4), 4)
        &&& self.prev_index_close as int == to_signed(be_bytes(s, off + 16, 4), 4)
        &&& self.index_value as int == to_signed(be_bytes(s, off + 20, 4), 4)
        &&& self.index_id@ == s.subrange(off + 24, off + 24 + 7)
        &&& self.reserved6 == s[off + 31]
        &&& self.reserved7 == s[off + 32]
        &&& self.reserved8 == s[off + 33]
        &&& self.reserved9@ == s.subrange(off + 34, off + 34 + 2)
        &&& self.index_close_value_indicator as int == to_signed(be_bytes(s, off + 36, 2), 2)
        &&& self.reserved10 as int == to_signed(be_bytes(s, off + 38, 2), 2)
    }

    #[verifier::rlimit(100)]
    pub fn from_bytes(buf: &[u8], off: usize) -> (r: Self)
        requires
            off + BCAST_INDEX_DETAILS_SIZE <= buf@.len(),
        ensures
            r.parsed_from(buf@, off as int),
            r.wf(),
    {
        let n: usize = buf.len();
        let index_code = read_i32_be(buf, off + 0);
        let index_high = read_i32_be(buf, off + 4);
        let index_low = read_i32_be(buf, off + 8);
        let index_open = read_i32_be(buf, off + 12);
        let prev_index_close = read_i32_be(buf, off + 16);
        let index_value = read_i32_be(buf, off + 20);
        let index_id = read_bytes(buf, off + 24, 7);
        let reserved6 = read_u8(buf, off + 31);
        let reserved7 = read_u8(buf, off + 32);
        let reserved8 = read_u8(buf, off + 33);
        let reserved9 = read_bytes(buf, off + 34, 2);
        let index_close_value_indicator = read_i16_be(buf, off + 36);
        let reserved10 = read_i16_be(buf, off + 38);
        BcastIndexDetails {
            index_code,
            index_high,
            index_low,
            index_open,
            prev_index_close,
            index_value,
            index_id,
            reserved6,
            reserved7,
            reserved8,
            reserved9,
            index_close_value_indicator,
            reserved10,
        }
    }

    /// The record's little-endian serialized bytes, padding zeroed.
    pub open spec fn spec_ser(self) -> Seq<u8> {
        spec_i32_le(self.index_code)
            + spec_i32_le(self.index_high)
            + spec_i32_le(self.index_low)
            + spec_i32_le(self.index_open)
            + spec_i32_le(self.prev_index_close)
            + spec_i32_le(self.index_value)
            + self.index_id@
            + seq![self.reserved6]
            + seq![self.reserved7]
            + seq![self.reserved8]
            + self.reserved9@
            + spec_i16_le(self.index_close_value_indicator)
            + spec_i16_le(self.reserved10)
    }

    #[verifier::rlimit(100)]
    pub proof fn lemma_ser_len(self)
        requires
            self.wf(),
        ensures
            self.spec_ser().len() == BCAST_INDEX_DETAILS_SIZE,
    {
        broadcast use crate::bytesio::group_le_lens;

    }

    #[verifier::rlimit(100)]
    #[verifier::spinoff_prover]
    pub fn to_bytes_vec(&self) -> (r: Vec<u8>)
        requires
            self.wf(),
        ensures
            r@ == self.spec_ser(),
    {
        let mut out: Vec<u8> = Vec::new();
        push_i32_le(&mut out, self.index_code);
        push_i32_le(&mut out, self.index_high);
        push_i32_le(&mut out, self.index_low);
        push_i32_le(&mut out, self.index_open);
        push_i32_le(&mut out, self.prev_index_close);
        push_i32_le(&mut out, self.index_value);
        push_bytes(&mut out, self.index_id.as_slice());
        push_u8(&mut out, self.reserved6);
        push_u8(&mut out, self.reserved7);
        push_u8(&mut out, self.reserved8);
        push_bytes(&mut out, self.reserved9.as_slice());
        push_i16_le(&mut out, self.index_close_value_indicator);
        push_i16_le(&mut out, self.reserved10);
        proof {
            assert(out@ =~= self.spec_ser());
        }
        out
    }
}

/// Concatenated serialization of a sequence of `BcastIndexDetails` records.
pub open spec fn ser_seq_bcast_index_details(a: Seq<BcastIndexDetails>) -> Seq<u8>
    decreases a.len(),
{
    if a.len() == 0 {
        Seq::empty()
    } else {
        ser_seq_bcast_index_details(a.drop_last()) + a.last().spec_ser()
    }
}

pub proof fn lemma_ser_seq_bcast_index_details_len(a: Seq<BcastIndexDetails>)
    requires
        forall|k: int| 0 <= k < a.len() ==> (#[trigger] a[k]).wf(),
    ensures
        ser_seq_bcast_index_details(a).len() == a.len() * BCAST_INDEX_DETAILS_SIZE,
    decreases a.len(),
{
    if a.len() == 0 {
    } else {
        lemma_ser_seq_bcast_index_details_len(a.drop_last());
        a.last().lemma_ser_len();
        assert((a.len() - 1) * BCAST_INDEX_DETAILS_SIZE + BCAST_INDEX_DETAILS_SIZE == a.len() * BCAST_INDEX_DETAILS_SIZE) by (nonlinear_arith);
    }
}


pub const BCAST_INDEX_CHANGE_MESSAGE_SIZE: usize = 988;

#[derive(Clone)]
pub struct BcastIndexChangeMessage {
    pub message_type: i32,
    pub reserved1: i32,
    pub reserved2: i32,
    pub reserved3: u16,
    pub hour: i16,
    pub minute: i16,
    pub econd: i16,
    pub milli_second: i16,
    pub reserved4: i16,
    pub reserved5: i16,
    pub no_of_records: i16,
    pub index_details: Vec<BcastIndexDetails>,
}

impl BcastIndexChangeMessage {
    pub open spec fn wf(self) -> bool {
        &&& self.index_details@.len() == 24
        &&& (forall|k: int| 0 <= k < 24 ==> (#[trigger] self.index_details@[k]).wf())
    }

    /// Exactly which big-endian wire bytes each field was read from.
    pub open spec fn parsed_from(self, s: Seq<u8>, off: int) -> bool {
        &&& self.message_type as int == to_signed(be_bytes(s, off + 0, 4), 4)
        &&& self.reserved1 as int == to_signed(be_bytes(s, off + 4, 4), 4)
        &&& self.reserved2 as int == to_signed(be_bytes(s, off + 8, 4), 4)
        &&& self.reserved3 as int == be_bytes(s, off + 12, 2)
        &&& self.hour as int == to_signed(be_bytes(s, off + 14, 2), 2)
        &&& self.minute as int == to_signed(be_bytes(s, off + 16, 2), 2)
        &&& self.econd as int == to_signed(be_bytes(s, off + 18, 2), 2)
        &&& self.milli_second as int == to_signed(be_bytes(s, off + 20, 2), 2)
        &&& self.reserved4 as int == to_signed(be_bytes(s, off + 22, 2), 2)
        &&& self.reserved5 as int == to_signed(be_bytes(s, off + 24, 2), 2)
        &&& self.no_of_records as int == to_signed(be_bytes(s, off + 26, 2), 2)
        &&& self.index_details@.len() == 24
        &&& (forall|k: int| 0 <= k < 24 ==> (#[trigger] self.index_details@[k]).parsed_from(s, off + 28 + k * 40))
    }

    #[verifier::rlimit(100)]
    pub fn from_bytes(buf: &[u8], off: usize) -> (r: Self)
        requires
            off + BCAST_INDEX_CHANGE_MESSAGE_SIZE <= buf@.len(),
        ensures
            r.parsed_from(buf@, off as int),
            r.wf(),
    {
        let n: usize = buf.len();
        let message_type = read_i32_be(buf, off + 0);
        let reserved1 = read_i32_be(buf, off + 4);
        let reserved2 = read_i32_be(buf, off + 8);
        let reserved3 = read_u16_be(buf, off + 12);
        let hour = read_i16_be(buf, off + 14);
        let minute = read_i16_be(buf, off + 16);
        let econd = read_i16_be(buf, off + 18);
        let milli_second = read_i16_be(buf, off + 20);
        let reserved4 = read_i16_be(buf, off + 22);
        let reserved5 = read_i16_be(buf, off + 24);
        let no_of_records = read_i16_be(buf, off + 26);
        let mut index_details: Vec<BcastIndexDetails> = Vec::new();
        let mut k_index_details: usize = 0;
        while k_index_details < 24
            invariant
                k_index_details <= 24,
                n == buf@.len(),
                off + BCAST_INDEX_CHANGE_MESSAGE_SIZE <= n,
                index_details@.len() == k_index_details,
                forall|x: int| 0 <= x < k_index_details ==> (#[trigger] index_details@[x]).parsed_from(buf@, off + 28 + x * 40) && index_details@[x].wf(),
            decreases 24 - k_index_details,
        {
            index_details.push(BcastIndexDetails::from_bytes(buf, off + 28 + k_index_details * 40));
            k_index_details = k_index_details + 1;
        }
        BcastIndexChangeMessage {
            message_type,
            reserved1,
            reserved2,
            reserved3,
            hour,
            minute,
            econd,
            milli_second,
            reserved4,
            reserved5,
            no_of_records,
            index_details,
        }
    }

    /// The record's little-endian serialized bytes, padding zeroed.
    pub open spec fn spec_ser(self) -> Seq<u8> {
        spec_i32_le(self.message_type)
            + spec_i32_le(self.reserved1)
            + spec_i32_le(self.reserved2)
            + spec_u16_le(self.reserved3)
            + spec_i16_le(self.hour)
            + spec_i16_le(self.minute)
            + spec_i16_le(self.econd)
            + spec_i16_le(self.milli_second)
            + spec_i16_le(self.reserved4)
            + spec_i16_le(self.reserved5)
            + spec_i16_le(self.no_of_records)
            + ser_seq_bcast_index_details(self.index_details@)
    }

    #[verifier::rlimit(100)]
    pub proof fn lemma_ser_len(self)
        requires
            self.wf(),
        ensures
            self.spec_ser().len() == BCAST_INDEX_CHANGE_MESSAGE_SIZE,
    {
        broadcast use crate::bytesio::group_le_lens;

        lemma_ser_seq_bcast_index_details_len(self.index_details@);
    }

    #[verifier::rlimit(100)]
    #[verifier::spinoff_prover]
    pub fn to_bytes_vec(&self) -> (r: Vec<u8>)
        requires
            self.wf(),
        ensures
            r@ == self.spec_ser(),
    {
        let mut out: Vec<u8> = Vec::new();
        push_i32_le(&mut out, self.message_type);
        push_i32_le(&mut out, self.reserved1);
        push_i32_le(&mut out, self.reserved2);
        push_u16_le(&mut out, self.reserved3);
        push_i16_le(&mut out, self.hour);
        push_i16_le(&mut out, self.minute);
        push_i16_le(&mut out, self.econd);
        push_i16_le(&mut out, self.milli_second);
        push_i16_le(&mut out, self.reserved4);
        push_i16_le(&mut out, self.reserved5);
        push_i16_le(&mut out, self.no_of_records);
        let ghost pre_index_details = out@;
        let mut k_index_details: usize = 0;
        while k_index_details < 24
            invariant
                k_index_details <= 24,
                self.index_details@.len() == 24,
                forall|k: int| 0 <= k < 24 ==> (#[trigger] self.index_details@[k]).wf(),
                out@ == pre_index_details + ser_seq_bcast_index_details(self.index_details@.take(k_index_details as int)),
            decreases 24 - k_index_details,
        {
            let mut one = self.index_details[k_index_details].to_bytes_vec();
            out.append(&mut one);
            proof {
                let t = self.index_details@.take(k_index_details + 1);
                assert(t.drop_last() =~= self.index_details@.take(k_index_details as int));
                assert(t.last() == self.index_details@[k_index_details as int]);
                assert(out@ =~= pre_index_details + ser_seq_bcast_index_details(t));
            }
            k_index_details = k_index_details + 1;
        }
        proof {
            assert(self.index_details@.take(24) =~= self.index_details@);
        }
        proof {
            assert(out@ =~= self.spec_ser());
        }
        out
    }
}

pub const BCAST_LPP_RANGE_DETAILS_SIZE: usize = 20;

#[derive(Clone, Copy)]
pub struct BcastLPPRangeDetails {
    pub instrument_code: i32,
    pub upper_limit_exec_price: i32,
    pub lower_limit_exec_price: i32,
    pub reserved6: i32,
    pub reserved7: i32,
}

impl BcastLPPRangeDetails {
    pub open spec fn wf(self) -> bool {
        true
    }

    /// Exactly which big-endian wire bytes each field was read from.
    pub open spec fn parsed_from(self, s: Seq<u8>, off: int) -> bool {
        &&& self.instrument_code as int == to_signed(be_bytes(s, off + 0, 4), 4)
        &&& self.upper_limit_exec_price as int == to_signed(be_bytes(s, off + 4, 4), 4)
        &&& self.lower_limit_exec_price as int == to_signed(be_bytes(s, off + 8, 4), 4)
        &&& self.reserved6 as int == to_signed(be_bytes(s, off + 12, 4), 4)
        &&& self.reserved7 as int == to_signed(be_bytes(s, off + 16, 4), 4)
    }

    #[verifier::rlimit(100)]
    pub fn from_bytes(buf: &[u8], off: usize) -> (r: Self)
        requires
            off + BCAST_LPP_RANGE_DETAILS_SIZE <= buf@.len(),
        ensures
            r.parsed_from(buf@, off as int),
            r.wf(),
    {
        let n: usize = buf.len();
        let instrument_code = read_i32_be(buf, off + 0);
        let upper_limit_exec_price = read_i32_be(buf, off + 4);
        let lower_limit_exec_price = read_i32_be(buf, off + 8);
        let reserved6 = read_i32_be(buf, off + 12);
        let reserved7 = read_i32_be(buf, off + 16);
        BcastLPPRangeDetails {
            instrument_code,
            upper_limit_exec_price,
            lower_limit_exec_price,
            reserved6,
            reserved7,
        }
    }

    /// The record's little-endian serialized bytes, padding zeroed.
    pub open spec fn spec_ser(self) -> Seq<u8> {
        spec_i32_le(self.instrument_code)
            + spec_i32_le(self.upper_limit_exec_price)
            + spec_i32_le(self.lower_limit_exec_price)
            + spec_i32_le(self.reserved6)
            + spec_i32_le(self.reserved7)
    }

    #[verifier::rlimit(100)]
    pub proof fn lemma_ser_len(self)
        requires
            self.wf(),
        ensures
            self.spec_ser().len() == BCAST_LPP_RANGE_DETAILS_SIZE,
    {
        broadcast use crate::bytesio::group_le_lens;

    }

    #[verifier::rlimit(100)]
    #[verifier::spinoff_prover]
    pub fn to_bytes_vec(&self) -> (r: Vec<u8>)
        requires
            self.wf(),
        ensures
            r@ == self.spec_ser(),
    {
        let mut out: Vec<u8> = Vec::new();
        push_i32_le(&mut out, self.instrument_code);
        push_i32_le(&mut out, self.upper_limit_exec_price);
        push_i32_le(&mut out, self.lower_limit_exec_price);
        push_i32_le(&mut out, self.reserved6);
        push_i32_le(&mut out, self.reserved7);
        proof {
            assert(out@ =~= self.spec_ser());
        }
        out
    }
}

/// Concatenated serialization of a sequence of `BcastLPPRangeDetails` records.
pub open spec fn ser_seq_bcast_lpp_range_details(a: Seq<BcastLPPRangeDetails>) -> Seq<u8>
    decreases a.len(),
{
    if a.len() == 0 {
        Seq::empty()
    } else {
        ser_seq_bcast_lpp_range_details(a.drop_last()) + a.last().spec_ser()
    }
}

pub proof fn lemma_ser_seq_bcast_lpp_range_details_len(a: Seq<BcastLPPRangeDetails>)
    requires
        forall|k: int| 0 <= k < a.len() ==> (#[trigger] a[k]).wf(),
    ensures
        ser_seq_bcast_lpp_range_details(a).len() == a.len() * BCAST_LPP_RANGE_DETAILS_SIZE,
    decreases a.len(),
{
    if a.len() == 0 {
    } else {
        lemma_ser_seq_bcast_lpp_range_details_len(a.drop_last());
        a.last().lemma_ser_len();
        assert((a.len() - 1) * BCAST_LPP_RANGE_DETAILS_SIZE + BCAST_LPP_RANGE_DETAILS_SIZE == a.len() * BCAST_LPP_RANGE_DETAILS_SIZE) by (nonlinear_arith);
    }
}


pub const BCAST_LPP_RANGE_SIZE: usize = 428;

#[derive(Clone)]
pub struct BcastLPPRange {
    pub message_type: i32,
    pub reserved1: i32,
    pub reserved2: i32,
    pub reserved3: u16,
    pub hour: i16,
    pub minute: i16,
    pub econd: i16,
    pub milli_second: i16,
    pub reserved4: i16,
    pub reserved5: i16,
    pub no_of_records: i16,
    pub lpp_range_details: Vec<BcastLPPRangeDetails>,
}

impl BcastLPPRange {
    pub open spec fn wf(self) -> bool {
        &&& self.lpp_range_details@.len() == 20
        &&& (forall|k: int| 0 <= k < 20 ==> (#[trigger] self.lpp_range_details@[k]).wf())
    }

    /// Exactly which big-endian wire bytes each field was read from.
    pub open spec fn parsed_from(self, s: Seq<u8>, off: int) -> bool {
        &&& self.message_type as int == to_signed(be_bytes(s, off + 0, 4), 4)
        &&& self.reserved1 as int == to_signed(be_bytes(s, off + 4, 4), 4)
        &&& self.reserved2 as int == to_signed(be_bytes(s, off + 8, 4), 4)
        &&& self.reserved3 as int == be_bytes(s, off + 12, 2)
        &&& self.hour as int == to_signed(be_bytes(s, off + 14, 2), 2)
        &&& self.minute as int == to_signed(be_bytes(s, off + 16, 2), 2)
        &&& self.econd as int == to_signed(be_bytes(s, off + 18, 2), 2)
        &&& self.milli_second as int == to_signed(be_bytes(s, off + 20, 2), 2)
        &&& self.reserved4 as int == to_signed(be_bytes(s, off + 22, 2), 2)
        &&& self.reserved5 as int == to_signed(be_bytes(s, off + 24, 2), 2)
        &&& self.no_of_records as int == to_signed(be_bytes(s, off + 26, 2), 2)
        &&& self.lpp_range_details@.len() == 20
        &&& (forall|k: int| 0 <= k < 20 ==> (#[trigger] self.lpp_range_details@[k]).parsed_from(s, off + 28 + k * 20))
    }

    #[verifier::rlimit(100)]
    pub fn from_bytes(buf: &[u8], off: usize) -> (r: Self)
        requires
            off + BCAST_LPP_RANGE_SIZE <= buf@.len(),
        ensures
            r.parsed_from(buf@, off as int),
            r.wf(),
    {
        let n: usize = buf.len();
        let message_type = read_i32_be(buf, off + 0);
        let reserved1 = read_i32_be(buf, off + 4);
        let reserved2 = read_i32_be(buf, off + 8);
        let reserved3 = read_u16_be(buf, off + 12);
        let hour = read_i16_be(buf, off + 14);
        let minute = read_i16_be(buf, off + 16);
        let econd = read_i16_be(buf, off + 18);
        let milli_second = read_i16_be(buf, off + 20);
        let reserved4 = read_i16_be(buf, off + 22);
        let reserved5 = read_i16_be(buf, off + 24);
        let no_of_records = read_i16_be(buf, off + 26);
        let mut lpp_range_details: Vec<BcastLPPRangeDetails> = Vec::new();
        let mut k_lpp_range_details: usize = 0;
        while k_lpp_range_details < 20
            invariant
                k_lpp_range_details <= 20,
                n == buf@.len(),
                off + BCAST_LPP_RANGE_SIZE <= n,
                lpp_range_details@.len() == k_lpp_range_details,
                forall|x: int| 0 <= x < k_lpp_range_details ==> (#[trigger] lpp_range_details@[x]).parsed_from(buf@, off + 28 + x * 20) && lpp_range_details@[x].wf(),
            decreases 20 - k_lpp_range_details,
        {
            lpp_range_details.push(BcastLPPRangeDetails::from_bytes(buf, off + 28 + k_lpp_range_details * 20));
            k_lpp_range_details = k_lpp_range_details + 1;
        }
        BcastLPPRange {
            message_type,
            reserved1,
            reserved2,
            reserved3,
            hour,
            minute,
            econd,
            milli_second,
            reserved4,
            reserved5,
            no_of_records,
            lpp_range_details,
        }
    }

    /// The record's little-endian serialized bytes, padding zeroed.
    pub open spec fn spec_ser(self) -> Seq<u8> {
        spec_i32_le(self.message_type)
            + spec_i32_le(self.reserved1)
            + spec_i32_le(self.reserved2)
            + spec_u16_le(self.reserved3)
            + spec_i16_le(self.hour)
            + spec_i16_le(self.minute)
            + spec_i16_le(self.econd)
            + spec_i16_le(self.milli_second)
            + spec_i16_le(self.reserved4)
            + spec_i16_le(self.reserved5)
            + spec_i16_le(self.no_of_records)
            + ser_seq_bcast_lpp_range_details(self.lpp_range_details@)
    }

    #[verifier::rlimit(100)]
    pub proof fn lemma_ser_len(self)
        requires
            self.wf(),
        ensures
            self.spec_ser().len() == BCAST_LPP_RANGE_SIZE,
    {
        broadcast use crate::bytesio::group_le_lens;

        lemma_ser_seq_bcast_lpp_range_details_len(self.lpp_range_details@);
    }

    #[verifier::rlimit(100)]
    #[verifier::spinoff_prover]
    pub fn to_bytes_vec(&self) -> (r: Vec<u8>)
        requires
            self.wf(),
        ensures
            r@ == self.spec_ser(),
    {
        let mut out: Vec<u8> = Vec::new();
        push_i32_le(&mut out, self.message_type);
        push_i32_le(&mut out, self.reserved1);
        push_i32_le(&mut out, self.reserved2);
        push_u16_le(&mut out, self.reserved3);
        push_i16_le(&mut out, self.hour);
        push_i16_le(&mut out, self.minute);
        push_i16_le(&mut out, self.econd);
        push_i16_le(&mut out, self.milli_second);
        push_i16_le(&mut out, self.reserved4);
        push_i16_le(&mut out, self.reserved5);
        push_i16_le(&mut out, self.no_of_records);
        let ghost pre_lpp_range_details = out@;
        let mut k_lpp_range_details: usize = 0;
        while k_lpp_range_details < 20
            invariant
                k_lpp_range_details <= 20,
                self.lpp_range_details@.len() == 20,
                forall|k: int| 0 <= k < 20 ==> (#[trigger] self.lpp_range_details@[k]).wf(),
                out@ == pre_lpp_range_details + ser_seq_bcast_lpp_range_details(self.lpp_range_details@.take(k_lpp_range_details as int)),
            decreases 20 - k_lpp_range_details,
        {
            let mut one = self.lpp_range_details[k_lpp_range_details].to_bytes_vec();
            out.append(&mut one);
            proof {
                let t = self.lpp_range_details@.take(k_lpp_range_details + 1);
                assert(t.drop_last() =~= self.lpp_range_details@.take(k_lpp_range_details as int));
                assert(t.last() == self.lpp_range_details@[k_lpp_range_details as int]);
                assert(out@ =~= pre_lpp_range_details + ser_seq_bcast_lpp_range_details(t));
            }
            k_lpp_range_details = k_lpp_range_details + 1;
        }
        proof {
            assert(self.lpp_range_details@.take(20) =~= self.lpp_range_details@);
        }
        proof {
            assert(out@ =~= self.spec_ser());
        }
        out
    }
}

pub const BCAST_CA_CXL_QTY_DETAILS_SIZE: usize = 28;

#[derive(Clone, Copy)]
pub struct BcastCACxlQtyDetails {
    pub instrument_code: i32,
    pub cancelled_buy_qty: i32,
    pub cancelled_buy_orders: i32,
    pub cancelled_sell_qty: i32,
    pub cancelled_sell_orders: i32,
    pub reserved6: i32,
    pub reserved7: i32,
}

impl BcastCACxlQtyDetails {
    pub open spec fn wf(self) -> bool {
        true
    }

    /// Exactly which big-endian wire bytes each field was read from.
    pub open spec fn parsed_from(self, s: Seq<u8>, off: int) -> bool {
        &&& self.instrument_code as int == to_signed(be_bytes(s, off + 0, 4), 4)
        &&& self.cancelled_buy_qty as int == to_signed(be_bytes(s, off + 4, 4), 4)
        &&& self.cancelled_buy_orders as int == to_signed(be_bytes(s, off + 8, 4), 4)
        &&& self.cancelled_sell_qty as int == to_signed(be_bytes(s, off + 12, 4), 4)
        &&& self.cancelled_sell_orders as int == to_signed(be_bytes(s, off + 16, 4), 4)
        &&& self.reserved6 as int == to_signed(be_bytes(s, off + 20, 4), 4)
        &&& self.reserved7 as int == to_signed(be_bytes(s, off + 24, 4), 4)
    }

    #[verifier::rlimit(100)]
    pub fn from_bytes(buf: &[u8], off: usize) -> (r: Self)
        requires
            off + BCAST_CA_CXL_QTY_DETAILS_SIZE <= buf@.len(),
        ensures
            r.parsed_from(buf@, off as int),
            r.wf(),
    {
        let n: usize = buf.len();
        let instrument_code = read_i32_be(buf, off + 0);
        let cancelled_buy_qty = read_i32_be(buf, off + 4);
        let cancelled_buy_orders = read_i32_be(buf, off + 8);
        let cancelled_sell_qty = read_i32_be(buf, off + 12);
        let cancelled_sell_orders = read_i32_be(buf, off + 16);
        let reserved6 = read_i32_be(buf, off + 20);
        let reserved7 = read_i32_be(buf, off + 24);
        BcastCACxlQtyDetails {
            instrument_code,
            cancelled_buy_qty,
            cancelled_buy_orders,
            cancelled_sell_qty,
            cancelled_sell_orders,
            reserved6,
            reserved7,
        }
    }

    /// The record's little-endian serialized bytes, padding zeroed.
    pub open spec fn spec_ser(self) -> Seq<u8> {
        spec_i32_le(self.instrument_code)
            + spec_i32_le(self.cancelled_buy_qty)
            + spec_i32_le(self.cancelled_buy_orders)
            + spec_i32_le(self.cancelled_sell_qty)
            + spec_i32_le(self.cancelled_sell_orders)
            + spec_i32_le(self.reserved6)
            + spec_i32_le(self.reserved7)
    }

    #[verifier::rlimit(100)]
    pub proof fn lemma_ser_len(self)
        requires
            self.wf(),
        ensures
            self.spec_ser().len() == BCAST_CA_CXL_QTY_DETAILS_SIZE,
    {
        broadcast use crate::bytesio::group_le_lens;

    }

    #[verifier::rlimit(100)]
    #[verifier::spinoff_prover]
    pub fn to_bytes_vec(&self) -> (r: Vec<u8>)
        requires
            self.wf(),
        ensures
            r@ == self.spec_ser(),
    {
        let mut out: Vec<u8> = Vec::new();
        push_i32_le(&mut out, self.instrument_code);
        push_i32_le(&mut out, self.cancelled_buy_qty);
        push_i32_le(&mut out, self.cancelled_buy_orders);
        push_i32_le(&mut out, self.cancelled_sell_qty);
        push_i32_le(&mut out, self.cancelled_sell_orders);
        push_i32_le(&mut out, self.reserved6);
        push_i32_le(&mut out, self.reserved7);
        proof {
            assert(out@ =~= self.spec_ser());
        }
        out
    }
}

/// Concatenated serialization of a sequence of `BcastCACxlQtyDetails` records.
pub open spec fn ser_seq_bcast_ca_cxl_qty_details(a: Seq<BcastCACxlQtyDetails>) -> Seq<u8>
    decreases a.len(),
{
    if a.len() == 0 {
        Seq::empty()
    } else {
        ser_seq_bcast_ca_cxl_qty_details(a.drop_last()) + a.last().spec_ser()
    }
}

pub proof fn lemma_ser_seq_bcast_ca_cxl_qty_details_len(a: Seq<BcastCACxlQtyDetails>)
    requires
        forall|k: int| 0 <= k < a.len() ==> (#[trigger] a[k]).wf(),
    ensures
        ser_seq_bcast_ca_cxl_qty_details(a).len() == a.len() * BCAST_CA_CXL_QTY_DETAILS_SIZE,
    decreases a.len(),
{
    if a.len() == 0 {
    } else {
        lemma_ser_seq_bcast_ca_cxl_qty_details_len(a.drop_last());
        a.last().lemma_ser_len();
        assert((a.len() - 1) * BCAST_CA_CXL_QTY_DETAILS_SIZE + BCAST_CA_CXL_QTY_DETAILS_SIZE == a.len() * BCAST_CA_CXL_QTY_DETAILS_SIZE) by (nonlinear_arith);
    }
}


pub const BCAST_CA_CXL_QTY_MESSAGE_SIZE: usize = 588;

#[derive(Clone)]
pub struct BcastCACxlQtyMessage {
    pub message_type: i32,
    pub reserved1: i32,
    pub reserved2: i32,
    pub reserved3: u16,
    pub hour: i16,
    pub minute: i16,
    pub econd: i16,
    pub milli_second: i16,
    pub reserved4: i16,
    pub reserved5: i16,
    pub no_of_records: i16,
    pub ca_cxl_qty_details: Vec<BcastCACxlQtyDetails>,
}

impl BcastCACxlQtyMessage {
    pub open spec fn wf(self) -> bool {
        &&& self.ca_cxl_qty_details@.len() == 20
        &&& (forall|k: int| 0 <= k < 20 ==> (#[trigger] self.ca_cxl_qty_details@[k]).wf())
    }

    /// Exactly which big-endian wire bytes each field was read from.
    pub open spec fn parsed_from(self, s: Seq<u8>, off: int) -> bool {
        &&& self.message_type as int == to_signed(be_bytes(s, off + 0, 4), 4)
        &&& self.reserved1 as int == to_signed(be_bytes(s, off + 4, 4), 4)
        &&& self.reserved2 as int == to_signed(be_bytes(s, off + 8, 4), 4)
        &&& self.reserved3 as int == be_bytes(s, off + 12, 2)
        &&& self.hour as int == to_signed(be_bytes(s, off + 14, 2), 2)
        &&& self.minute as int == to_signed(be_bytes(s, off + 16, 2), 2)
        &&& self.econd as int == to_signed(be_bytes(s, off + 18, 2), 2)
        &&& self.milli_second as int == to_signed(be_bytes(s, off + 20, 2), 2)
        &&& self.reserved4 as int == to_signed(be_bytes(s, off + 22, 2), 2)
        &&& self.reserved5 as int == to_signed(be_bytes(s, off + 24, 2), 2)
        &&& self.no_of_records as int == to_signed(be_bytes(s, off + 26, 2), 2)
        &&& self.ca_cxl_qty_details@.len() == 20
        &&& (forall|k: int| 0 <= k < 20 ==> (#[trigger] self.ca_cxl_qty_details@[k]).parsed_from(s, off + 28 + k * 28))
    }

    #[verifier::rlimit(100)]
    pub fn from_bytes(buf: &[u8], off: usize) -> (r: Self)
        requires
            off + BCAST_CA_CXL_QTY_MESSAGE_SIZE <= buf@.len(),
        ensures
            r.parsed_from(buf@, off as int),
            r.wf(),
    {
        let n: usize = buf.len();
        let message_type = read_i32_be(buf, off + 0);
        let reserved1 = read_i32_be(buf, off + 4);
        let reserved2 = read_i32_be(buf, off + 8);
        let reserved3 = read_u16_be(buf, off + 12);
        let hour = read_i16_be(buf, off + 14);
        let minute = read_i16_be(buf, off + 16);
        let econd = read_i16_be(buf, off + 18);
        let milli_second = read_i16_be(buf, off + 20);
        let reserved4 = read_i16_be(buf, off + 22);
        let reserved5 = read_i16_be(buf, off + 24);
        let no_of_records = read_i16_be(buf, off + 26);
        let mut ca_cxl_qty_details: Vec<BcastCACxlQtyDetails> = Vec::new();
        let mut k_ca_cxl_qty_details: usize = 0;
        while k_ca_cxl_qty_details < 20
            invariant
                k_ca_cxl_qty_details <= 20,
                n == buf@.len(),
                off + BCAST_CA_CXL_QTY_MESSAGE_SIZE <= n,
                ca_cxl_qty_details@.len() == k_ca_cxl_qty_details,
                forall|x: int| 0 <= x < k_ca_cxl_qty_details ==> (#[trigger] ca_cxl_qty_details@[x]).parsed_from(buf@, off + 28 + x * 28) && ca_cxl_qty_details@[x].wf(),
            decreases 20 - k_ca_cxl_qty_details,
        {
            ca_cxl_qty_details.push(BcastCACxlQtyDetails::from_bytes(buf, off + 28 + k_ca_cxl_qty_details * 28));
            k_ca_cxl_qty_details = k_ca_cxl_qty_details + 1;
        }
        BcastCACxlQtyMessage {
            message_type,
            reserved1,
            reserved2,
            reserved3,
            hour,
            minute,
            econd,
            milli_second,
            reserved4,
            reserved5,
            no_of_records,
            ca_cxl_qty_details,
        }
    }

    /// The record's little-endian serialized bytes, padding zeroed.
    pub open spec fn spec_ser(self) -> Seq<u8> {
        spec_i32_le(self.message_type)
            + spec_i32_le(self.reserved1)
            + spec_i32_le(self.reserved2)
            + spec_u16_le(self.reserved3)
            + spec_i16_le(self.hour)
            + spec_i16_le(self.minute)
            + spec_i16_le(self.econd)
            + spec_i16_le(self.milli_second)
            + spec_i16_le(self.reserved4)
            + spec_i16_le(self.reserved5)
            + spec_i16_le(self.no_of_records)
            + ser_seq_bcast_ca_cxl_qty_details(self.ca_cxl_qty_details@)
    }

    #[verifier::rlimit(100)]
    pub proof fn lemma_ser_len(self)
        requires
            self.wf(),
        ensures
            self.spec_ser().len() == BCAST_CA_CXL_QTY_MESSAGE_SIZE,
    {
        broadcast use crate::bytesio::group_le_lens;

        lemma_ser_seq_bcast_ca_cxl_qty_details_len(self.ca_cxl_qty_details@);
    }

    #[verifier::rlimit(100)]
    #[verifier::spinoff_prover]
    pub fn to_bytes_vec(&self) -> (r: Vec<u8>)
        requires
            self.wf(),
        ensures
            r@ == self.spec_ser(),
    {
        let mut out: Vec<u8> = Vec::new();
        push_i32_le(&mut out, self.message_type);
        push_i32_le(&mut out, self.reserved1);
        push_i32_le(&mut out, self.reserved2);
        push_u16_le(&mut out, self.reserved3);
        push_i16_le(&mut out, self.hour);
        push_i16_le(&mut out, self.minute);
        push_i16_le(&mut out, self.econd);
        push_i16_le(&mut out, self.milli_second);
        push_i16_le(&mut out, self.reserved4);
        push_i16_le(&mut out, self.reserved5);
        push_i16_le(&mut out, self.no_of_records);
        let ghost pre_ca_cxl_qty_details = out@;
        let mut k_ca_cxl_qty_details: usize = 0;
        while k_ca_cxl_qty_details < 20
            invariant
                k_ca_cxl_qty_details <= 20,
                self.ca_cxl_qty_details@.len() == 20,
                forall|k: int| 0 <= k < 20 ==> (#[trigger] self.ca_cxl_qty_details@[k]).wf(),
                out@ == pre_ca_cxl_qty_details + ser_seq_bcast_ca_cxl_qty_details(self.ca_cxl_qty_details@.take(k_ca_cxl_qty_details as int)),
            decreases 20 - k_ca_cxl_qty_details,
        {
            let mut one = self.ca_cxl_qty_details[k_ca_cxl_qty_details].to_bytes_vec();
            out.append(&mut one);
            proof {
                let t = self.ca_cxl_qty_details@.take(k_ca_cxl_qty_details + 1);
                assert(t.drop_last() =~= self.ca_cxl_qty_details@.take(k_ca_cxl_qty_details as int));
                assert(t.last() == self.ca_cxl_qty_details@[k_ca_cxl_qty_details as int]);
                assert(out@ =~= pre_ca_cxl_qty_details + ser_seq_bcast_ca_cxl_qty_details(t));
            }
            k_ca_cxl_qty_details = k_ca_cxl_qty_details + 1;
        }
        proof {
            assert(self.ca_cxl_qty_details@.take(20) =~= self.ca_cxl_qty_details@);
        }
        proof {
            assert(out@ =~= self.spec_ser());
        }
        out
    }
}

pub const BCAST_CLOSE_PRICE_DETAILS_SIZE: usize = 12;

#[derive(Clone, Copy)]
pub struct BcastClosePriceDetails {
    pub instrument_code: i32,
    pub price: i32,
    pub reserved6: u8,
    pub traded_flag: u8,
    pub reserved7: u8,
    pub reserved8: u8,
}

impl BcastClosePriceDetails {
    pub open spec fn wf(self) -> bool {
        true
    }

    /// Exactly which big-endian wire bytes each field was read from.
    pub open spec fn parsed_from(self, s: Seq<u8>, off: int) -> bool {
        &&& self.instrument_code as int == to_signed(be_bytes(s, off + 0, 4), 4)
        &&& self.price as int == to_signed(be_bytes(s, off + 4, 4), 4)
        &&& self.reserved6 == s[off + 8]
        &&& self.traded_flag == s[off + 9]
        &&& self.reserved7 == s[off + 10]
        &&& self.reserved8 == s[off + 11]
    }

    #[verifier::rlimit(100)]
    pub fn from_bytes(buf: &[u8], off: usize) -> (r: Self)
        requires
            off + BCAST_CLOSE_PRICE_DETAILS_SIZE <= buf@.len(),
        ensures
            r.parsed_from(buf@, off as int),
            r.wf(),
    {
        let n: usize = buf.len();
        let instrument_code = read_i32_be(buf, off + 0);
        let price = read_i32_be(buf, off + 4);
        let reserved6 = read_u8(buf, off + 8);
        let traded_flag = read_u8(buf, off + 9);
        let reserved7 = read_u8(buf, off + 10);
        let reserved8 = read_u8(buf, off + 11);
        BcastClosePriceDetails {
            instrument_code,
            price,
            reserved6,
            traded_flag,
            reserved7,
            reserved8,
        }
    }

    /// The record's little-endian serialized bytes, padding zeroed.
    pub open spec fn spec_ser(self) -> Seq<u8> {
        spec_i32_le(self.instrument_code)
            + spec_i32_le(self.price)
            + seq![self.reserved6]
            + seq![self.traded_flag]
            + seq![self.reserved7]
            + seq![self.reserved8]
    }

    #[verifier::rlimit(100)]
    pub proof fn lemma_ser_len(self)
        requires
            self.wf(),
        ensures
            self.spec_ser().len() == BCAST_CLOSE_PRICE_DETAILS_SIZE,
    {
        broadcast use crate::bytesio::group_le_lens;

    }

    #[verifier::rlimit(100)]
    #[verifier::spinoff_prover]
    pub fn to_bytes_vec(&self) -> (r: Vec<u8>)
        requires
            self.wf(),
        ensures
            r@ == self.spec_ser(),
    {
        let mut out: Vec<u8> = Vec::new();
        push_i32_le(&mut out, self.instrument_code);
        push_i32_le(&mut out, self.price);
        push_u8(&mut out, self.reserved6);
        push_u8(&mut out, self.traded_flag);
        push_u8(&mut out, self.reserved7);
        push_u8(&mut out, self.reserved8);
        proof {
            assert(out@ =~= self.spec_ser());
        }
        out
    }
}

/// Concatenated serialization of a sequence of `BcastClosePriceDetails` records.
pub open spec fn ser_seq_bcast_close_price_details(a: Seq<BcastClosePriceDetails>) -> Seq<u8>
    decreases a.len(),
{
    if a.len() == 0 {
        Seq::empty()
    } else {
        ser_seq_bcast_close_price_details(a.drop_last()) + a.last().spec_ser()
    }
}

pub proof fn lemma_ser_seq_bcast_close_price_details_len(a: Seq<BcastClosePriceDetails>)
    requires
        forall|k: int| 0 <= k < a.len() ==> (#[trigger] a[k]).wf(),
    ensures
        ser_seq_bcast_close_price_details(a).len() == a.len() * BCAST_CLOSE_PRICE_DETAILS_SIZE,
    decreases a.len(),
{
    if a.len() == 0 {
    } else {
        lemma_ser_seq_bcast_close_price_details_len(a.drop_last());
        a.last().lemma_ser_len();
        assert((a.len() - 1) * BCAST_CLOSE_PRICE_DETAILS_SIZE + BCAST_CLOSE_PRICE_DETAILS_SIZE == a.len() * BCAST_CLOSE_PRICE_DETAILS_SIZE) by (nonlinear_arith);
    }
}


pub const BCAST_CLOSE_PRICE_SIZE: usize = 988;

#[derive(Clone)]
pub struct BcastClosePrice {
    pub message_type: i32,
    pub reserved1: i32,
    pub reserved2: i32,
    pub reserved3: u16,
    pub hour: i16,
    pub minute: i16,
    pub econd: i16,
    pub milli_second: i16,
    pub reserved4: i16,
    pub reserved5: i16,
    pub no_of_records: i16,
    pub close_price_details: Vec<BcastClosePriceDetails>,
}

impl BcastClosePrice {
    pub open spec fn wf(self) -> bool {
        &&& self.close_price_details@.len() == 80
        &&& (forall|k: int| 0 <= k < 80 ==> (#[trigger] self.close_price_details@[k]).wf())
    }

    /// Exactly which big-endian wire bytes each field was read from.
    pub open spec fn parsed_from(self, s: Seq<u8>, off: int) -> bool {
        &&& self.message_type as int == to_signed(be_bytes(s, off + 0, 4), 4)
        &&& self.reserved1 as int == to_signed(be_bytes(s, off + 4, 4), 4)
        &&& self.reserved2 as int == to_signed(be_bytes(s, off + 8, 4), 4)
        &&& self.reserved3 as int == be_bytes(s, off + 12, 2)
        &&& self.hour as int == to_signed(be_bytes(s, off + 14, 2), 2)
        &&& self.minute as int == to_signed(be_bytes(s, off + 16, 2), 2)
        &&& self.econd as int == to_signed(be_bytes(s, off + 18, 2), 2)
        &&& self.milli_second as int == to_signed(be_bytes(s, off + 20, 2), 2)
        &&& self.reserved4 as int == to_signed(be_bytes(s, off + 22, 2), 2)
        &&& self.reserved5 as int == to_signed(be_bytes(s, off + 24, 2), 2)
        &&& self.no_of_records as int == to_signed(be_bytes(s, off + 26, 2), 2)
        &&& self.close_price_details@.len() == 80
        &&& (forall|k: int| 0 <= k < 80 ==> (#[trigger] self.close_price_details@[k]).parsed_from(s, off + 28 + k * 12))
    }

    #[verifier::rlimit(100)]
    pub fn from_bytes(buf: &[u8], off: usize) -> (r: Self)
        requires
            off + BCAST_CLOSE_PRICE_SIZE <= buf@.len(),
        ensures
            r.parsed_from(buf@, off as int),
            r.wf(),
    {
        let n: usize = buf.len();
        let message_type = read_i32_be(buf, off + 0);
        let reserved1 = read_i32_be(buf, off + 4);
        let reserved2 = read_i32_be(buf, off + 8);
        let reserved3 = read_u16_be(buf, off + 12);
        let hour = read_i16_be(buf, off + 14);
        let minute = read_i16_be(buf, off + 16);
        let econd = read_i16_be(buf, off + 18);
        let milli_second = read_i16_be(buf, off + 20);
        let reserved4 = read_i16_be(buf, off + 22);
        let reserved5 = read_i16_be(buf, off + 24);
        let no_of_records = read_i16_be(buf, off + 26);
        let mut close_price_details: Vec<BcastClosePriceDetails> = Vec::new();
        let mut k_close_price_details: usize = 0;
        while k_close_price_details < 80
            invariant
                k_close_price_details <= 80,
                n == buf@.len(),
                off + BCAST_CLOSE_PRICE_SIZE <= n,
                close_price_details@.len() == k_close_price_details,
                forall|x: int| 0 <= x < k_close_price_details ==> (#[trigger] close_price_details@[x]).parsed_from(buf@, off + 28 + x * 12) && close_price_details@[x].wf(),
            decreases 80 - k_close_price_details,
        {
            close_price_details.push(BcastClosePriceDetails::from_bytes(buf, off + 28 + k_close_price_details * 12));
            k_close_price_details = k_close_price_details + 1;
        }
        BcastClosePrice {
            message_type,
            reserved1,
            reserved2,
            reserved3,
            hour,
            minute,
            econd,
            milli_second,
            reserved4,
            reserved5,
            no_of_records,
            close_price_details,
        }
    }

    /// The record's little-endian serialized bytes, padding zeroed.
    pub open spec fn spec_ser(self) -> Seq<u8> {
        spec_i32_le(self.message_type)
            + spec_i32_le(self.reserved1)
            + spec_i32_le(self.reserved2)
            + spec_u16_le(self.reserved3)
            + spec_i16_le(self.hour)
            + spec_i16_le(self.minute)
            + spec_i16_le(self.econd)
            + spec_i16_le(self.milli_second)
            + spec_i16_le(self.reserved4)
            + spec_i16_le(self.reserved5)
            + spec_i16_le(self.no_of_records)
            + ser_seq_bcast_close_price_details(self.close_price_details@)
    }

    #[verifier::rlimit(100)]
    pub proof fn lemma_ser_len(self)
        requires
            self.wf(),
        ensures
            self.spec_ser().len() == BCAST_CLOSE_PRICE_SIZE,
    {
        broadcast use crate::bytesio::group_le_lens;

        lemma_ser_seq_bcast_close_price_details_len(self.close_price_details@);
    }

    #[verifier::rlimit(100)]
    #[verifier::spinoff_prover]
    pub fn to_bytes_vec(&self) -> (r: Vec<u8>)
        requires
            self.wf(),
        ensures
            r@ == self.spec_ser(),
    {
        let mut out: Vec<u8> = Vec::new();
        push_i32_le(&mut out, self.message_type);
        push_i32_le(&mut out, self.reserved1);
        push_i32_le(&mut out, self.reserved2);
        push_u16_le(&mut out, self.reserved3);
        push_i16_le(&mut out, self.hour);
        push_i16_le(&mut out, self.minute);
        push_i16_le(&mut out, self.econd);
        push_i16_le(&mut out, self.milli_second);
        push_i16_le(&mut out, self.reserved4);
        push_i16_le(&mut out, self.reserved5);
        push_i16_le(&mut out, self.no_of_records);
        let ghost pre_close_price_details = out@;
        let mut k_close_price_details: usize = 0;
        while k_close_price_details < 80
            invariant
                k_close_price_details <= 80,
                self.close_price_details@.len() == 80,
                forall|k: int| 0 <= k < 80 ==> (#[trigger] self.close_price_details@[k]).wf(),
                out@ == pre_close_price_details + ser_seq_bcast_close_price_details(self.close_price_details@.take(k_close_price_details as int)),
            decreases 80 - k_close_price_details,
        {
            let mut one = self.close_price_details[k_close_price_details].to_bytes_vec();
            out.append(&mut one);
            proof {
                let t = self.close_price_details@.take(k_close_price_details + 1);
                assert(t.drop_last() =~= self.close_price_details@.take(k_close_price_details as int));
                assert(t.last() == self.close_price_details@[k_close_price_details as int]);
                assert(out@ =~= pre_close_price_details + ser_seq_bcast_close_price_details(t));
            }
            k_close_price_details = k_close_price_details + 1;
        }
        proof {
            assert(self.close_price_details@.take(80) =~= self.close_price_details@);
        }
        proof {
            assert(out@ =~= self.spec_ser());
        }
        out
    }
}

pub const BCAST_OPEN_INTEREST_DETAILS_SIZE: usize = 32;

#[derive(Clone)]
pub struct BcastOpenInterestDetails {
    pub instrument_id: i32,
    pub open_interest_qty: i32,
    pub open_interest_value: i32,
    pub open_interest_change: i32,
    pub reserved6: Vec<u8>,
    pub reserved7: i32,
    pub reserved8: i16,
    pub reserved9: i16,
    pub reserved10: u8,
    pub reserved11: u8,
    pub reserved12: Vec<u8>,
}

impl BcastOpenInterestDetails {
    pub open spec fn wf(self) -> bool {
        &&& self.reserved6@.len() == 4
        &&& self.reserved12@.len() == 2
    }

    /// Exactly which big-endian wire bytes each field was read from.
    pub open spec fn parsed_from(self, s: Seq<u8>, off: int) -> bool {
        &&& self.instrument_id as int == to_signed(be_bytes(s, off + 0, 4), 4)
        &&& self.open_interest_qty as int == to_signed(be_bytes(s, off + 4, 4), 4)
        &&& self.open_interest_value as int == to_signed(be_bytes(s, off + 8, 4), 4)
        &&& self.open_interest_change as int == to_signed(be_bytes(s, off + 12, 4), 4)
        &&& self.reserved6@ == s.subrange(off + 16, off + 16 + 4)
        &&& self.reserved7 as int == to_signed(be_bytes(s, off + 20, 4), 4)
        &&& self.reserved8 as int == to_signed(be_bytes(s, off + 24, 2), 2)
        &&& self.reserved9 as int == to_signed(be_bytes(s, off + 26, 2), 2)
        &&& self.reserved10 == s[off + 28]
        &&& self.reserved11 == s[off + 29]
        &&& self.reserved12@ == s.subrange(off + 30, off + 30 + 2)
    }

    #[verifier::rlimit(100)]
    pub fn from_bytes(buf: &[u8], off: usize) -> (r: Self)
        requires
            off + BCAST_OPEN_INTEREST_DETAILS_SIZE <= buf@.len(),
        ensures
            r.parsed_from(buf@, off as int),
            r.wf(),
    {
        let n: usize = buf.len();
        let instrument_id = read_i32_be(buf, off + 0);
        let open_interest_qty = read_i32_be(buf, off + 4);
        let open_interest_value = read_i32_be(buf, off + 8);
        let open_interest_change = read_i32_be(buf, off + 12);
        let reserved6 = read_bytes(buf, off + 16, 4);
        let reserved7 = read_i32_be(buf, off + 20);
        let reserved8 = read_i16_be(buf, off + 24);
        let reserved9 = read_i16_be(buf, off + 26);
        let reserved10 = read_u8(buf, off + 28);
        let reserved11 = read_u8(buf, off + 29);
        let reserved12 = read_bytes(buf, off + 30, 2);
        BcastOpenInterestDetails {
            instrument_id,
            open_interest_qty,
            open_interest_value,
            open_interest_change,
            reserved6,
            reserved7,
            reserved8,
            reserved9,
            reserved10,
            reserved11,
            reserved12,
        }
    }

    /// The record's little-endian serialized bytes, padding zeroed.
    pub open spec fn spec_ser(self) -> Seq<u8> {
        spec_i32_le(self.instrument_id)
            + spec_i32_le(self.open_interest_qty)
            + spec_i32_le(self.open_interest_value)
            + spec_i32_le(self.open_interest_change)
            + self.reserved6@
            + spec_i32_le(self.reserved7)
            + spec_i16_le(self.reserved8)
            + spec_i16_le(self.reserved9)
            + seq![self.reserved10]
            + seq![self.reserved11]
            + self.reserved12@
    }

    #[verifier::rlimit(100)]
    pub proof fn lemma_ser_len(self)
        requires
            self.wf(),
        ensures
            self.spec_ser().len() == BCAST_OPEN_INTEREST_DETAILS_SIZE,
    {
        broadcast use crate::bytesio::group_le_lens;

    }

    #[verifier::rlimit(100)]
    #[verifier::spinoff_prover]
    pub fn to_bytes_vec(&self) -> (r: Vec<u8>)
        requires
            self.wf(),
        ensures
            r@ == self.spec_ser(),
    {
        let mut out: Vec<u8> = Vec::new();
        push_i32_le(&mut out, self.instrument_id);
        push_i32_le(&mut out, self.open_interest_qty);
        push_i32_le(&mut out, self.open_interest_value);
        push_i32_le(&mut out, self.open_interest_change);
        push_bytes(&mut out, self.reserved6.as_slice());
        push_i32_le(&mut out, self.reserved7);
        push_i16_le(&mut out, self.reserved8);
        push_i16_le(&mut out, self.reserved9);
        push_u8(&mut out, self.reserved10);
        push_u8(&mut out, self.reserved11);
        push_bytes(&mut out, self.reserved12.as_slice());
        proof {
            assert(out@ =~= self.spec_ser());
        }
        out
    }
}

/// Concatenated serialization of a sequence of `BcastOpenInterestDetails` records.
pub open spec fn ser_seq_bcast_open_interest_details(a: Seq<BcastOpenInterestDetails>) -> Seq<u8>
    decreases a.len(),
{
    if a.len() == 0 {
        Seq::empty()
    } else {
        ser_seq_bcast_open_interest_details(a.drop_last()) + a.last().spec_ser()
    }
}

pub proof fn lemma_ser_seq_bcast_open_interest_details_len(a: Seq<BcastOpenInterestDetails>)
    requires
        forall|k: int| 0 <= k < a.len() ==> (#[trigger] a[k]).wf(),
    ensures
        ser_seq_bcast_open_interest_details(a).len() == a.len() * BCAST_OPEN_INTEREST_DETAILS_SIZE,
    decreases a.len(),
{
    if a.len() == 0 {
    } else {
        lemma_ser_seq_bcast_open_interest_details_len(a.drop_last());
        a.last().lemma_ser_len();
        assert((a.len() - 1) * BCAST_OPEN_INTEREST_DETAILS_SIZE + BCAST_OPEN_INTEREST_DETAILS_SIZE == a.len() * BCAST_OPEN_INTEREST_DETAILS_SIZE) by (nonlinear_arith);
    }
}


pub const BCAST_OPEN_INTEREST_SIZE: usize = 860;

#[derive(Clone)]
pub struct BcastOpenInterest {
    pub message_type: i32,
    pub reserved1: i32,
    pub reserved2: i32,
    pub reserved3: u16,
    pub hour: i16,
    pub minute: i16,
    pub econd: i16,
    pub milli_second: i16,
    pub reserved4: i16,
    pub reserved5: i16,
    pub no_of_records: i16,
    pub close_price_details: Vec<BcastOpenInterestDetails>,
}

impl BcastOpenInterest {
    pub open spec fn wf(self) -> bool {
        &&& self.close_price_details@.len() == 26
        &&& (forall|k: int| 0 <= k < 26 ==> (#[trigger] self.close_price_details@[k]).wf())
    }

    /// Exactly which big-endian wire bytes each field was read from.
    pub open spec fn parsed_from(self, s: Seq<u8>, off: int) -> bool {
        &&& self.message_type as int == to_signed(be_bytes(s, off + 0, 4), 4)
        &&& self.reserved1 as int == to_signed(be_bytes(s, off + 4, 4), 4)
        &&& self.reserved2 as int == to_signed(be_bytes(s, off + 8, 4), 4)
        &&& self.reserved3 as int == be_bytes(s, off + 12, 2)
        &&& self.hour as int == to_signed(be_bytes(s, off + 14, 2), 2)
        &&& self.minute as int == to_signed(be_bytes(s, off + 16, 2), 2)
        &&& self.econd as int == to_signed(be_bytes(s, off + 18, 2), 2)
        &&& self.milli_second as int == to_signed(be_bytes(s, off + 20, 2), 2)
        &&& self.reserved4 as int == to_signed(be_bytes(s, off + 22, 2), 2)
        &&& self.reserved5 as int == to_signed(be_bytes(s, off + 24, 2), 2)
        &&& self.no_of_records as int == to_signed(be_bytes(s, off + 26, 2), 2)
        &&& self.close_price_details@.len() == 26
        &&& (forall|k: int| 0 <= k < 26 ==> (#[trigger] self.close_price_details@[k]).parsed_from(s, off + 28 + k * 32))
    }

    #[verifier::rlimit(100)]
    pub fn from_bytes(buf: &[u8], off: usize) -> (r: Self)
        requires
            off + BCAST_OPEN_INTEREST_SIZE <= buf@.len(),
        ensures
            r.parsed_from(buf@, off as int),
            r.wf(),
    {
        let n: usize = buf.len();
        let message_type = read_i32_be(buf, off + 0);
        let reserved1 = read_i32_be(buf, off + 4);
        let reserved2 = read_i32_be(buf, off + 8);
        let reserved3 = read_u16_be(buf, off + 12);
        let hour = read_i16_be(buf, off + 14);
        let minute = read_i16_be(buf, off + 16);
        let econd = read_i16_be(buf, off + 18);
        let milli_second = read_i16_be(buf, off + 20);
        let reserved4 = read_i16_be(buf, off + 22);
        let reserved5 = read_i16_be(buf, off + 24);
        let no_of_records = read_i16_be(buf, off + 26);
        let mut close_price_details: Vec<BcastOpenInterestDetails> = Vec::new();
        let mut k_close_price_details: usize = 0;
        while k_close_price_details < 26
            invariant
                k_close_price_details <= 26,
                n == buf@.len(),
                off + BCAST_OPEN_INTEREST_SIZE <= n,
                close_price_details@.len() == k_close_price_details,
                forall|x: int| 0 <= x < k_close_price_details ==> (#[trigger] close_price_details@[x]).parsed_from(buf@, off + 28 + x * 32) && close_price_details@[x].wf(),
            decreases 26 - k_close_price_details,
        {
            close_price_details.push(BcastOpenInterestDetails::from_bytes(buf, off + 28 + k_close_price_details * 32));
            k_close_price_details = k_close_price_details + 1;
        }
        BcastOpenInterest {
            message_type,
            reserved1,
            reserved2,
            reserved3,
            hour,
            minute,
            econd,
            milli_second,
            reserved4,
            reserved5,
            no_of_records,
            close_price_details,
        }
    }

    /// The record's little-endian serialized bytes, padding zeroed.
    pub open spec fn spec_ser(self) -> Seq<u8> {
        spec_i32_le(self.message_type)
            + spec_i32_le(self.reserved1)
            + spec_i32_le(self.reserved2)
            + spec_u16_le(self.reserved3)
            + spec_i16_le(self.hour)
            + spec_i16_le(self.minute)
            + spec_i16_le(self.econd)
            + spec_i16_le(self.milli_second)
            + spec_i16_le(self.reserved4)
            + spec_i16_le(self.reserved5)
            + spec_i16_le(self.no_of_records)
            + ser_seq_bcast_open_interest_details(self.close_price_details@)
    }

    #[verifier::rlimit(100)]
    pub proof fn lemma_ser_len(self)
        requires
            self.wf(),
        ensures
            self.spec_ser().len() == BCAST_OPEN_INTEREST_SIZE,
    {
        broadcast use crate::bytesio::group_le_lens;

        lemma_ser_seq_bcast_open_interest_details_len(self.close_price_details@);
    }

    #[verifier::rlimit(100)]
    #[verifier::spinoff_prover]
    pub fn to_bytes_vec(&self) -> (r: Vec<u8>)
        requires
            self.wf(),
        ensures
            r@ == self.spec_ser(),
    {
        let mut out: Vec<u8> = Vec::new();
        push_i32_le(&mut out, self.message_type);
        push_i32_le(&mut out, self.reserved1);
        push_i32_le(&mut out, self.reserved2);
        push_u16_le(&mut out, self.reserved3);
        push_i16_le(&mut out, self.hour);
        push_i16_le(&mut out, self.minute);
        push_i16_le(&mut out, self.econd);
        push_i16_le(&mut out, self.milli_second);
        push_i16_le(&mut out, self.reserved4);
        push_i16_le(&mut out, self.reserved5);
        push_i16_le(&mut out, self.no_of_records);
        let ghost pre_close_price_details = out@;
        let mut k_close_price_details: usize = 0;
        while k_close_price_details < 26
            invariant
                k_close_price_details <= 26,
                self.close_price_details@.len() == 26,
                forall|k: int| 0 <= k < 26 ==> (#[trigger] self.close_price_details@[k]).wf(),
                out@ == pre_close_price_details + ser_seq_bcast_open_interest_details(self.close_price_details@.take(k_close_price_details as int)),
            decreases 26 - k_close_price_details,
        {
            let mut one = self.close_price_details[k_close_price_details].to_bytes_vec();
            out.append(&mut one);
            proof {
                let t = self.close_price_details@.take(k_close_price_details + 1);
                assert(t.drop_last() =~= self.close_price_details@.take(k_close_price_details as int));
                assert(t.last() == self.close_price_details@[k_close_price_details as int]);
                assert(out@ =~= pre_close_price_details + ser_seq_bcast_open_interest_details(t));
            }
            k_close_price_details = k_close_price_details + 1;
        }
        proof {
            assert(self.close_price_details@.take(26) =~= self.close_price_details@);
        }
        proof {
            assert(out@ =~= self.spec_ser());
        }
        out
    }
}

pub const BCAST_VAR_DETAILS_SIZE: usize = 24;

#[derive(Clone)]
pub struct BcastVarDetails {
    pub instrument_code: i32,
    pub varim_percene: i32,
    pub elmvar_percene: i32,
    pub reserved6: i32,
    pub reserved7: i16,
    pub reserved: i16,
    pub reserved8: u8,
    pub identifier: u8,
    pub reserved9: Vec<u8>,
}

impl BcastVarDetails {
    pub open spec fn wf(self) -> bool {
        &&& self.reserved9@.len() == 2
    }

    /// Exactly which big-endian wire bytes each field was read from.
    pub open spec fn parsed_from(self, s: Seq<u8>, off: int) -> bool {
        &&& self.instrument_code as int == to_signed(be_bytes(s, off + 0, 4), 4)
        &&& self.varim_percene as int == to_signed(be_bytes(s, off + 4, 4), 4)
        &&& self.elmvar_percene as int == to_signed(be_bytes(s, off + 8, 4), 4)
        &&& self.reserved6 as int == to_signed(be_bytes(s, off + 12, 4), 4)
        &&& self.reserved7 as int == to_signed(be_bytes(s, off + 16, 2), 2)
        &&& self.reserved as int == to_signed(be_bytes(s, off + 18, 2), 2)
        &&& self.reserved8 == s[off + 20]
        &&& self.identifier == s[off + 21]
        &&& self.reserved9@ == s.subrange(off + 22, off + 22 + 2)
    }

    #[verifier::rlimit(100)]
    pub fn from_bytes(buf: &[u8], off: usize) -> (r: Self)
        requires
            off + BCAST_VAR_DETAILS_SIZE <= buf@.len(),
        ensures
            r.parsed_from(buf@, off as int),
            r.wf(),
    {
        let n: usize = buf.len();
        let instrument_code = read_i32_be(buf, off + 0);
        let varim_percene = read_i32_be(buf, off + 4);
        let elmvar_percene = read_i32_be(buf, off + 8);
        let reserved6 = read_i32_be(buf, off + 12);
        let reserved7 = read_i16_be(buf, off + 16);
        let reserved = read_i16_be(buf, off + 18);
        let reserved8 = read_u8(buf, off + 20);
        let identifier = read_u8(buf, off + 21);
        let reserved9 = read_bytes(buf, off + 22, 2);
        BcastVarDetails {
            instrument_code,
            varim_percene,
            elmvar_percene,
            reserved6,
            reserved7,
            reserved,
            reserved8,
            identifier,
            reserved9,
        }
    }

    /// The record's little-endian serialized bytes, padding zeroed.
    pub open spec fn spec_ser(self) -> Seq<u8> {
        spec_i32_le(self.instrument_code)
            + spec_i32_le(self.varim_percene)
            + spec_i32_le(self.elmvar_percene)
            + spec_i32_le(self.reserved6)
            + spec_i16_le(self.reserved7)
            + spec_i16_le(self.reserved)
            + seq![self.reserved8]
            + seq![self.identifier]
            + self.reserved9@
    }

    #[verifier::rlimit(100)]
    pub proof fn lemma_ser_len(self)
        requires
            self.wf(),
        ensures
            self.spec_ser().len() == BCAST_VAR_DETAILS_SIZE,
    {
        broadcast use crate::bytesio::group_le_lens;

    }

    #[verifier::rlimit(100)]
    #[verifier::spinoff_prover]
    pub fn to_bytes_vec(&self) -> (r: Vec<u8>)
        requires
            self.wf(),
        ensures
            r@ == self.spec_ser(),
    {
        let mut out: Vec<u8> = Vec::new();
        push_i32_le(&mut out, self.instrument_code);
        push_i32_le(&mut out, self.varim_percene);
        push_i32_le(&mut out, self.elmvar_percene);
        push_i32_le(&mut out, self.reserved6);
        push_i16_le(&mut out, self.reserved7);
        push_i16_le(&mut out, self.reserved);
        push_u8(&mut out, self.reserved8);
        push_u8(&mut out, self.identifier);
        push_bytes(&mut out, self.reserved9.as_slice());
        proof {
            assert(out@ =~= self.spec_ser());
        }
        out
    }
}

/// Concatenated serialization of a sequence of `BcastVarDetails` records.
pub open spec fn ser_seq_bcast_var_details(a: Seq<BcastVarDetails>) -> Seq<u8>
    decreases a.len(),
{
    if a.len() == 0 {
        Seq::empty()
    } else {
        ser_seq_bcast_var_details(a.drop_last()) + a.last().spec_ser()
    }
}

pub proof fn lemma_ser_seq_bcast_var_details_len(a: Seq<BcastVarDetails>)
    requires
        forall|k: int| 0 <= k < a.len() ==> (#[trigger] a[k]).wf(),
    ensures
        ser_seq_bcast_var_details(a).len() == a.len() * BCAST_VAR_DETAILS_SIZE,
    decreases a.len(),
{
    if a.len() == 0 {
    } else {
        lemma_ser_seq_bcast_var_details_len(a.drop_last());
        a.last().lemma_ser_len();
        assert((a.len() - 1) * BCAST_VAR_DETAILS_SIZE + BCAST_VAR_DETAILS_SIZE == a.len() * BCAST_VAR_DETAILS_SIZE) by (nonlinear_arith);
    }
}


pub const BCAST_VAR_PERCENTAGE_SIZE: usize = 988;

#[derive(Clone)]
pub struct BcastVarPercentage {
    pub message_type: i32,
    pub reserved1: i32,
    pub reserved2: i32,
    pub reserved3: u16,
    pub hour: i16,
    pub minute: i16,
    pub econd: i16,
    pub milli_second: i16,
    pub reserved4: i16,
    pub reserved5: i16,
    pub no_of_records: i16,
    pub var_details: Vec<BcastVarDetails>,
}

impl BcastVarPercentage {
    pub open spec fn wf(self) -> bool {
        &&& self.var_details@.len() == 40
        &&& (forall|k: int| 0 <= k < 40 ==> (#[trigger] self.var_details@[k]).wf())
    }

    /// Exactly which big-endian wire bytes each field was read from.
    pub open spec fn parsed_from(self, s: Seq<u8>, off: int) -> bool {
        &&& self.message_type as int == to_signed(be_bytes(s, off + 0, 4), 4)
        &&& self.reserved1 as int == to_signed(be_bytes(s, off + 4, 4), 4)
        &&& self.reserved2 as int == to_signed(be_bytes(s, off + 8, 4), 4)
        &&& self.reserved3 as int == be_bytes(s, off + 12, 2)
        &&& self.hour as int == to_signed(be_bytes(s, off + 14, 2), 2)
        &&& self.minute as int == to_signed(be_bytes(s, off + 16, 2), 2)
        &&& self.econd as int == to_signed(be_bytes(s, off + 18, 2), 2)
        &&& self.milli_second as int == to_signed(be_bytes(s, off + 20, 2), 2)
        &&& self.reserved4 as int == to_signed(be_bytes(s, off + 22, 2), 2)
        &&& self.reserved5 as int == to_signed(be_bytes(s, off + 24, 2), 2)
        &&& self.no_of_records as int == to_signed(be_bytes(s, off + 26, 2), 2)
        &&& self.var_details@.len() == 40
        &&& (forall|k: int| 0 <= k < 40 ==> (#[trigger] self.var_details@[k]).parsed_from(s, off + 28 + k * 24))
    }

    #[verifier::rlimit(100)]
    pub fn from_bytes(buf: &[u8], off: usize) -> (r: Self)
        requires
            off + BCAST_VAR_PERCENTAGE_SIZE <= buf@.len(),
        ensures
            r.parsed_from(buf@, off as int),
            r.wf(),
    {
        let n: usize = buf.len();
        let message_type = read_i32_be(buf, off + 0);
        let reserved1 = read_i32_be(buf, off + 4);
        let reserved2 = read_i32_be(buf, off + 8);
        let reserved3 = read_u16_be(buf, off + 12);
        let hour = read_i16_be(buf, off + 14);
        let minute = read_i16_be(buf, off + 16);
        let econd = read_i16_be(buf, off + 18);
        let milli_second = read_i16_be(buf, off + 20);
        let reserved4 = read_i16_be(buf, off + 22);
        let reserved5 = read_i16_be(buf, off + 24);
        let no_of_records = read_i16_be(buf, off + 26);
        let mut var_details: Vec<BcastVarDetails> = Vec::new();
        let mut k_var_details: usize = 0;
        while k_var_details < 40
            invariant
                k_var_details <= 40,
                n == buf@.len(),
                off + BCAST_VAR_PERCENTAGE_SIZE <= n,
                var_details@.len() == k_var_details,
                forall|x: int| 0 <= x < k_var_details ==> (#[trigger] var_details@[x]).parsed_from(buf@, off + 28 + x * 24) && var_details@[x].wf(),
            decreases 40 - k_var_details,
        {
            var_details.push(BcastVarDetails::from_bytes(buf, off + 28 + k_var_details * 24));
            k_var_details = k_var_details + 1;
        }
        BcastVarPercentage {
            message_type,
            reserved1,
            reserved2,
            reserved3,
            hour,
            minute,
            econd,
            milli_second,
            reserved4,
            reserved5,
            no_of_records,
            var_details,
        }
    }

    /// The record's little-endian serialized bytes, padding zeroed.
    pub open spec fn spec_ser(self) -> Seq<u8> {
        spec_i32_le(self.message_type)
            + spec_i32_le(self.reserved1)
            + spec_i32_le(self.reserved2)
            + spec_u16_le(self.reserved3)
            + spec_i16_le(self.hour)
            + spec_i16_le(self.minute)
            + spec_i16_le(self.econd)
            + spec_i16_le(self.milli_second)
            + spec_i16_le(self.reserved4)
            + spec_i16_le(self.reserved5)
            + spec_i16_le(self.no_of_records)
            + ser_seq_bcast_var_details(self.var_details@)
    }

    #[verifier::rlimit(100)]
    pub proof fn lemma_ser_len(self)
        requires
            self.wf(),
        ensures
            self.spec_ser().len() == BCAST_VAR_PERCENTAGE_SIZE,
    {
        broadcast use crate::bytesio::group_le_lens;

        lemma_ser_seq_bcast_var_details_len(self.var_details@);
    }

    #[verifier::rlimit(100)]
    #[verifier::spinoff_prover]
    pub fn to_bytes_vec(&self) -> (r: Vec<u8>)
        requires
            self.wf(),
        ensures
            r@ == self.spec_ser(),
    {
        let mut out: Vec<u8> = Vec::new();
        push_i32_le(&mut out, self.message_type);
        push_i32_le(&mut out, self.reserved1);
        push_i32_le(&mut out, self.reserved2);
        push_u16_le(&mut out, self.reserved3);
        push_i16_le(&mut out, self.hour);
        push_i16_le(&mut out, self.minute);
        push_i16_le(&mut out, self.econd);
        push_i16_le(&mut out, self.milli_second);
        push_i16_le(&mut out, self.reserved4);
        push_i16_le(&mut out, self.reserved5);
        push_i16_le(&mut out, self.no_of_records);
        let ghost pre_var_details = out@;
        let mut k_var_details: usize = 0;
        while k_var_details < 40
            invariant
                k_var_details <= 40,
                self.var_details@.len() == 40,
                forall|k: int| 0 <= k < 40 ==> (#[trigger] self.var_details@[k]).wf(),
                out@ == pre_var_details + ser_seq_bcast_var_details(self.var_details@.take(k_var_details as int)),
            decreases 40 - k_var_details,
        {
            let mut one = self.var_details[k_var_details].to_bytes_vec();
            out.append(&mut one);
            proof {
                let t = self.var_details@.take(k_var_details + 1);
                assert(t.drop_last() =~= self.var_details@.take(k_var_details as int));
                assert(t.last() == self.var_details@[k_var_details as int]);
                assert(out@ =~= pre_var_details + ser_seq_bcast_var_details(t));
            }
            k_var_details = k_var_details + 1;
        }
        proof {
            assert(self.var_details@.take(40) =~= self.var_details@);
        }
        proof {
            assert(out@ =~= self.spec_ser());
        }
        out
    }
}

pub const BCAST_RBI_REFERENCE_RATE_DETAILS_SIZE: usize = 30;

#[derive(Clone)]
pub struct BcastRBIReferenceRateDetails {
    pub underlying_assetid: i32,
    pub rbi_rate: i32,
    pub elmvar_percene: i32,
    pub reserved6: i32,
    pub reserved7: i16,
    pub date: Vec<u8>,
    pub filler: u8,
}

impl BcastRBIReferenceRateDetails {
    pub open spec fn wf(self) -> bool {
        &&& self.date@.len() == 11
    }

    /// Exactly which big-endian wire bytes each field was read from.
    pub open spec fn parsed_from(self, s: Seq<u8>, off: int) -> bool {
        &&& self.underlying_assetid as int == to_signed(be_bytes(s, off + 0, 4), 4)
        &&& self.rbi_rate as int == to_signed(be_bytes(s, off + 4, 4), 4)
        &&& self.elmvar_percene as int == to_signed(be_bytes(s, off + 8, 4), 4)
        &&& self.reserved6 as int == to_signed(be_bytes(s, off + 12, 4), 4)
        &&& self.reserved7 as int == to_signed(be_bytes(s, off + 16, 2), 2)
        &&& self.date@ == s.subrange(off + 18, off + 18 + 11)
        &&& self.filler == s[off + 29]
    }

    #[verifier::rlimit(100)]
    pub fn from_bytes(buf: &[u8], off: usize) -> (r: Self)
        requires
            off + BCAST_RBI_REFERENCE_RATE_DETAILS_SIZE <= buf@.len(),
        ensures
            r.parsed_from(buf@, off as int),
            r.wf(),
    {
        let n: usize = buf.len();
        let underlying_assetid = read_i32_be(buf, off + 0);
        let rbi_rate = read_i32_be(buf, off + 4);
        let elmvar_percene = read_i32_be(buf, off + 8);
        let reserved6 = read_i32_be(buf, off + 12);
        let reserved7 = read_i16_be(buf, off + 16);
        let date = read_bytes(buf, off + 18, 11);
        let filler = read_u8(buf, off + 29);
        BcastRBIReferenceRateDetails {
            underlying_assetid,
            rbi_rate,
            elmvar_percene,
            reserved6,
            reserved7,
            date,
            filler,
        }
    }

    /// The record's little-endian serialized bytes, padding zeroed.
    pub open spec fn spec_ser(self) -> Seq<u8> {
        spec_i32_le(self.underlying_assetid)
            + spec_i32_le(self.rbi_rate)
            + spec_i32_le(self.elmvar_percene)
            + spec_i32_le(self.reserved6)
            + spec_i16_le(self.reserved7)
            + self.date@
            + seq![self.filler]
    }

    #[verifier::rlimit(100)]
    pub proof fn lemma_ser_len(self)
        requires
            self.wf(),
        ensures
            self.spec_ser().len() == BCAST_RBI_REFERENCE_RATE_DETAILS_SIZE,
    {
        broadcast use crate::bytesio::group_le_lens;

    }

    #[verifier::rlimit(100)]
    #[verifier::spinoff_prover]
    pub fn to_bytes_vec(&self) -> (r: Vec<u8>)
        requires
            self.wf(),
        ensures
            r@ == self.spec_ser(),
    {
        let mut out: Vec<u8> = Vec::new();
        push_i32_le(&mut out, self.underlying_assetid);
        push_i32_le(&mut out, self.rbi_rate);
        push_i32_le(&mut out, self.elmvar_percene);
        push_i32_le(&mut out, self.reserved6);
        push_i16_le(&mut out, self.reserved7);
        push_bytes(&mut out, self.date.as_slice());
        push_u8(&mut out, self.filler);
        proof {
            assert(out@ =~= self.spec_ser());
        }
        out
    }
}

/// Concatenated serialization of a sequence of `BcastRBIReferenceRateDetails` records.
pub open spec fn ser_seq_bcast_rbi_reference_rate_details(a: Seq<BcastRBIReferenceRateDetails>) -> Seq<u8>
    decreases a.len(),
{
    if a.len() == 0 {
        Seq::empty()
    } else {
        ser_seq_bcast_rbi_reference_rate_details(a.drop_last()) + a.last().spec_ser()
    }
}

pub proof fn lemma_ser_seq_bcast_rbi_reference_rate_details_len(a: Seq<BcastRBIReferenceRateDetails>)
    requires
        forall|k: int| 0 <= k < a.len() ==> (#[trigger] a[k]).wf(),
    ensures
        ser_seq_bcast_rbi_reference_rate_details(a).len() == a.len() * BCAST_RBI_REFERENCE_RATE_DETAILS_SIZE,
    decreases a.len(),
{
    if a.len() == 0 {
    } else {
        lemma_ser_seq_bcast_rbi_reference_rate_details_len(a.drop_last());
        a.last().lemma_ser_len();
        assert((a.len() - 1) * BCAST_RBI_REFERENCE_RATE_DETAILS_SIZE + BCAST_RBI_REFERENCE_RATE_DETAILS_SIZE == a.len() * BCAST_RBI_REFERENCE_RATE_DETAILS_SIZE) by (nonlinear_arith);
    }
}


pub const BCAST_RBI_REFERENCE_RATE_SIZE: usize = 1228;

#[derive(Clone)]
pub struct BcastRBIReferenceRate {
    pub message_type: i32,
    pub reserved1: i32,
    pub reserved2: i32,
    pub reserved3: u16,
    pub hour: i16,
    pub minute: i16,
    pub econd: i16,
    pub milli_second: i16,
    pub reserved4: i16,
    pub reserved5: i16,
    pub no_of_records: i16,
    pub rbi_ref_rate_details: Vec<BcastRBIReferenceRateDetails>,
}

impl BcastRBIReferenceRate {
    pub open spec fn wf(self) -> bool {
        &&& self.rbi_ref_rate_details@.len() == 40
        &&& (forall|k: int| 0 <= k < 40 ==> (#[trigger] self.rbi_ref_rate_details@[k]).wf())
    }

    /// Exactly which big-endian wire bytes each field was read from.
    pub open spec fn parsed_from(self, s: Seq<u8>, off: int) -> bool {
        &&& self.message_type as int == to_signed(be_bytes(s, off + 0, 4), 4)
        &&& self.reserved1 as int == to_signed(be_bytes(s, off + 4, 4), 4)
        &&& self.reserved2 as int == to_signed(be_bytes(s, off + 8, 4), 4)
        &&& self.reserved3 as int == be_bytes(s, off + 12, 2)
        &&& self.hour as int == to_signed(be_bytes(s, off + 14, 2), 2)
        &&& self.minute as int == to_signed(be_bytes(s, off + 16, 2), 2)
        &&& self.econd as int == to_signed(be_bytes(s, off + 18, 2), 2)
        &&& self.milli_second as int == to_signed(be_bytes(s, off + 20, 2), 2)
        &&& self.reserved4 as int == to_signed(be_bytes(s, off + 22, 2), 2)
        &&& self.reserved5 as int == to_signed(be_bytes(s, off + 24, 2), 2)
        &&& self.no_of_records as int == to_signed(be_bytes(s, off + 26, 2), 2)
        &&& self.rbi_ref_rate_details@.len() == 40
        &&& (forall|k: int| 0 <= k < 40 ==> (#[trigger] self.rbi_ref_rate_details@[k]).parsed_from(s, off + 28 + k * 30))
    }

    #[verifier::rlimit(100)]
    pub fn from_bytes(buf: &[u8], off: usize) -> (r: Self)
        requires
            off + BCAST_RBI_REFERENCE_RATE_SIZE <= buf@.len(),
        ensures
            r.parsed_from(buf@, off as int),
            r.wf(),
    {
        let n: usize = buf.len();
        let message_type = read_i32_be(buf, off + 0);
        let reserved1 = read_i32_be(buf, off + 4);
        let reserved2 = read_i32_be(buf, off + 8);
        let reserved3 = read_u16_be(buf, off + 12);
        let hour = read_i16_be(buf, off + 14);
        let minute = read_i16_be(buf, off + 16);
        let econd = read_i16_be(buf, off + 18);
        let milli_second = read_i16_be(buf, off + 20);
        let reserved4 = read_i16_be(buf, off + 22);
        let reserved5 = read_i16_be(buf, off + 24);
        let no_of_records = read_i16_be(buf, off + 26);
        let mut rbi_ref_rate_details: Vec<BcastRBIReferenceRateDetails> = Vec::new();
        let mut k_rbi_ref_rate_details: usize = 0;
        while k_rbi_ref_rate_details < 40
            invariant
                k_rbi_ref_rate_details <= 40,
                n == buf@.len(),
                off + BCAST_RBI_REFERENCE_RATE_SIZE <= n,
                rbi_ref_rate_details@.len() == k_rbi_ref_rate_details,
                forall|x: int| 0 <= x < k_rbi_ref_rate_details ==> (#[trigger] rbi_ref_rate_details@[x]).parsed_from(buf@, off + 28 + x * 30) && rbi_ref_rate_details@[x].wf(),
            decreases 40 - k_rbi_ref_rate_details,
        {
            rbi_ref_rate_details.push(BcastRBIReferenceRateDetails::from_bytes(buf, off + 28 + k_rbi_ref_rate_details * 30));
            k_rbi_ref_rate_details = k_rbi_ref_rate_details + 1;
        }
        BcastRBIReferenceRate {
            message_type,
            reserved1,
            reserved2,
            reserved3,
            hour,
            minute,
            econd,
            milli_second,
            reserved4,
            reserved5,
            no_of_records,
            rbi_ref_rate_details,
        }
    }

    /// The record's little-endian serialized bytes, padding zeroed.
    pub open spec fn spec_ser(self) -> Seq<u8> {
        spec_i32_le(self.message_type)
            + spec_i32_le(self.reserved1)
            + spec_i32_le(self.reserved2)
            + spec_u16_le(self.reserved3)
            + spec_i16_le(self.hour)
            + spec_i16_le(self.minute)
            + spec_i16_le(self.econd)
            + spec_i16_le(self.milli_second)
            + spec_i16_le(self.reserved4)
            + spec_i16_le(self.reserved5)
            + spec_i16_le(self.no_of_records)
            + ser_seq_bcast_rbi_reference_rate_details(self.rbi_ref_rate_details@)
    }

    #[verifier::rlimit(100)]
    pub proof fn lemma_ser_len(self)
        requires
            self.wf(),
        ensures
            self.spec_ser().len() == BCAST_RBI_REFERENCE_RATE_SIZE,
    {
        broadcast use crate::bytesio::group_le_lens;

        lemma_ser_seq_bcast_rbi_reference_rate_details_len(self.rbi_ref_rate_details@);
    }

    #[verifier::rlimit(100)]
    #[verifier::spinoff_prover]
    pub fn to_bytes_vec(&self) -> (r: Vec<u8>)
        requires
            self.wf(),
        ensures
            r@ == self.spec_ser(),
    {
        let mut out: Vec<u8> = Vec::new();
        push_i32_le(&mut out, self.message_type);
        push_i32_le(&mut out, self.reserved1);
        push_i32_le(&mut out, self.reserved2);
        push_u16_le(&mut out, self.reserved3);
        push_i16_le(&mut out, self.hour);
        push_i16_le(&mut out, self.minute);
        push_i16_le(&mut out, self.econd);
        push_i16_le(&mut out, self.milli_second);
        push_i16_le(&mut out, self.reserved4);
        push_i16_le(&mut out, self.reserved5);
        push_i16_le(&mut out, self.no_of_records);
        let ghost pre_rbi_ref_rate_details = out@;
        let mut k_rbi_ref_rate_details: usize = 0;
        while k_rbi_ref_rate_details < 40
            invariant
                k_rbi_ref_rate_details <= 40,
                self.rbi_ref_rate_details@.len() == 40,
                forall|k: int| 0 <= k < 40 ==> (#[trigger] self.rbi_ref_rate_details@[k]).wf(),
                out@ == pre_rbi_ref_rate_details + ser_seq_bcast_rbi_reference_rate_details(self.rbi_ref_rate_details@.take(k_rbi_ref_rate_details as int)),
            decreases 40 - k_rbi_ref_rate_details,
        {
            let mut one = self.rbi_ref_rate_details[k_rbi_ref_rate_details].to_bytes_vec();
            out.append(&mut one);
            proof {
                let t = self.rbi_ref_rate_details@.take(k_rbi_ref_rate_details + 1);
                assert(t.drop_last() =~= self.rbi_ref_rate_details@.take(k_rbi_ref_rate_details as int));
                assert(t.last() == self.rbi_ref_rate_details@[k_rbi_ref_rate_details as int]);
                assert(out@ =~= pre_rbi_ref_rate_details + ser_seq_bcast_rbi_reference_rate_details(t));
            }
            k_rbi_ref_rate_details = k_rbi_ref_rate_details + 1;
        }
        proof {
            assert(self.rbi_ref_rate_details@.take(40) =~= self.rbi_ref_rate_details@);
        }
        proof {
            assert(out@ =~= self.spec_ser());
        }
        out
    }
}

pub const BCAST_IMPLIED_VOLATILITY_DETAILS_SIZE: usize = 72;

#[derive(Clone)]
pub struct BcastImpliedVolatilityDetails {
    pub intrument_id: i32,
    pub implied_volatility: i64,
    pub reserved6: i64,
    pub reserved7: i64,
    pub reserved8: i64,
    pub reserved9: i64,
    pub reserved10: i64,
    pub reserved11: i64,
    pub reserved12: i32,
    pub reserved13: i16,
    pub reserved14: i16,
    pub reserved15: u8,
    pub reserved16: u8,
    pub reserved17: Vec<u8>,
}

impl BcastImpliedVolatilityDetails {
    pub open spec fn wf(self) -> bool {
        &&& self.reserved17@.len() == 2
    }

    /// Exactly which big-endian wire bytes each field was read from.
    pub open spec fn parsed_from(self, s: Seq<u8>, off: int) -> bool {
        &&& self.intrument_id as int == to_signed(be_bytes(s, off + 0, 4), 4)
        &&& self.implied_volatility as int == to_signed(be_bytes(s, off + 4, 8), 8)
        &&& self.reserved6 as int == to_signed(be_bytes(s, off + 12, 8), 8)
        &&& self.reserved7 as int == to_signed(be_bytes(s, off + 20, 8), 8)
        &&& self.reserved8 as int == to_signed(be_bytes(s, off + 28, 8), 8)
        &&& self.reserved9 as int == to_signed(be_bytes(s, off + 36, 8), 8)
        &&& self.reserved10 as int == to_signed(be_bytes(s, off + 44, 8), 8)
        &&& self.reserved11 as int == to_signed(be_bytes(s, off + 52, 8), 8)
        &&& self.reserved12 as int == to_signed(be_bytes(s, off + 60, 4), 4)
        &&& self.reserved13 as int == to_signed(be_bytes(s, off + 64, 2), 2)
        &&& self.reserved14 as int == to_signed(be_bytes(s, off + 66, 2), 2)
        &&& self.reserved15 == s[off + 68]
        &&& self.reserved16 == s[off + 69]
        &&& self.reserved17@ == s.subrange(off + 70, off + 70 + 2)
    }

    #[verifier::rlimit(100)]
    pub fn from_bytes(buf: &[u8], off: usize) -> (r: Self)
        requires
            off + BCAST_IMPLIED_VOLATILITY_DETAILS_SIZE <= buf@.len(),
        ensures
            r.parsed_from(buf@, off as int),
            r.wf(),
    {
        let n: usize = buf.len();
        let intrument_id = read_i32_be(buf, off + 0);
        let implied_volatility = read_i64_be(buf, off + 4);
        let reserved6 = read_i64_be(buf, off + 12);
        let reserved7 = read_i64_be(buf, off + 20);
        let reserved8 = read_i64_be(buf, off + 28);
        let reserved9 = read_i64_be(buf, off + 36);
        let reserved10 = read_i64_be(buf, off + 44);
        let reserved11 = read_i64_be(buf, off + 52);
        let reserved12 = read_i32_be(buf, off + 60);
        let reserved13 = read_i16_be(buf, off + 64);
        let reserved14 = read_i16_be(buf, off + 66);
        let reserved15 = read_u8(buf, off + 68);
        let reserved16 = read_u8(buf, off + 69);
        let reserved17 = read_bytes(buf, off + 70, 2);
        BcastImpliedVolatilityDetails {
            intrument_id,
            implied_volatility,
            reserved6,
            reserved7,
            reserved8,
            reserved9,
            reserved10,
            reserved11,
            reserved12,
            reserved13,
            reserved14,
            reserved15,
            reserved16,
            reserved17,
        }
    }

    /// The record's little-endian serialized bytes, padding zeroed.
    pub open spec fn spec_ser(self) -> Seq<u8> {
        spec_i32_le(self.intrument_id)
            + spec_i64_le(self.implied_volatility)
            + spec_i64_le(self.reserved6)
            + spec_i64_le(self.reserved7)
            + spec_i64_le(self.reserved8)
            + spec_i64_le(self.reserved9)
            + spec_i64_le(self.reserved10)
            + spec_i64_le(self.reserved11)
            + spec_i32_le(self.reserved12)
            + spec_i16_le(self.reserved13)
            + spec_i16_le(self.reserved14)
            + seq![self.reserved15]
            + seq![self.reserved16]
            + self.reserved17@
    }

    #[verifier::rlimit(100)]
    pub proof fn lemma_ser_len(self)
        requires
            self.wf(),
        ensures
            self.spec_ser().len() == BCAST_IMPLIED_VOLATILITY_DETAILS_SIZE,
    {
        broadcast use crate::bytesio::group_le_lens;

    }

    #[verifier::rlimit(100)]
    #[verifier::spinoff_prover]
    pub fn to_bytes_vec(&self) -> (r: Vec<u8>)
        requires
            self.wf(),
        ensures
            r@ == self.spec_ser(),
    {
        let mut out: Vec<u8> = Vec::new();
        push_i32_le(&mut out, self.intrument_id);
        push_i64_le(&mut out, self.implied_volatility);
        push_i64_le(&mut out, self.reserved6);
        push_i64_le(&mut out, self.reserved7);
        push_i64_le(&mut out, self.reserved8);
        push_i64_le(&mut out, self.reserved9);
        push_i64_le(&mut out, self.reserved10);
        push_i64_le(&mut out, self.reserved11);
        push_i32_le(&mut out, self.reserved12);
        push_i16_le(&mut out, self.reserved13);
        push_i16_le(&mut out, self.reserved14);
        push_u8(&mut out, self.reserved15);
        push_u8(&mut out, self.reserved16);
        push_bytes(&mut out, self.reserved17.as_slice());
        proof {
            assert(out@ =~= self.spec_ser());
        }
        out
    }
}

/// Concatenated serialization of a sequence of `BcastImpliedVolatilityDetails` records.
pub open spec fn ser_seq_bcast_implied_volatility_details(a: Seq<BcastImpliedVolatilityDetails>) -> Seq<u8>
    decreases a.len(),
{
    if a.len() == 0 {
        Seq::empty()
    } else {
        ser_seq_bcast_implied_volatility_details(a.drop_last()) + a.last().spec_ser()
    }
}

pub proof fn lemma_ser_seq_bcast_implied_volatility_details_len(a: Seq<BcastImpliedVolatilityDetails>)
    requires
        forall|k: int| 0 <= k < a.len() ==> (#[trigger] a[k]).wf(),
    ensures
        ser_seq_bcast_implied_volatility_details(a).len() == a.len() * BCAST_IMPLIED_VOLATILITY_DETAILS_SIZE,
    decreases a.len(),
{
    if a.len() == 0 {
    } else {
        lemma_ser_seq_bcast_implied_volatility_details_len(a.drop_last());
        a.last().lemma_ser_len();
        assert((a.len() - 1) * BCAST_IMPLIED_VOLATILITY_DETAILS_SIZE + BCAST_IMPLIED_VOLATILITY_DETAILS_SIZE == a.len() * BCAST_IMPLIED_VOLATILITY_DETAILS_SIZE) by (nonlinear_arith);
    }
}


pub const BCAST_IMPLIED_VOLATILITY_SIZE: usize = 964;

#[derive(Clone)]
pub struct BcastImpliedVolatility {
    pub message_type: i32,
    pub reserved1: i32,
    pub reserved2: i32,
    pub reserved3: u16,
    pub hour: i16,
    pub minute: i16,
    pub econd: i16,
    pub milli_second: i16,
    pub reserved4: i16,
    pub reserved5: i16,
    pub no_of_records: i16,
    pub implied_volatility: Vec<BcastImpliedVolatilityDetails>,
}

impl BcastImpliedVolatility {
    pub open spec fn wf(self) -> bool {
        &&& self.implied_volatility@.len() == 13
        &&& (forall|k: int| 0 <= k < 13 ==> (#[trigger] self.implied_volatility@[k]).wf())
    }

    /// Exactly which big-endian wire bytes each field was read from.
    pub open spec fn parsed_from(self, s: Seq<u8>, off: int) -> bool {
        &&& self.message_type as int == to_signed(be_bytes(s, off + 0, 4), 4)
        &&& self.reserved1 as int == to_signed(be_bytes(s, off + 4, 4), 4)
        &&& self.reserved2 as int == to_signed(be_bytes(s, off + 8, 4), 4)
        &&& self.reserved3 as int == be_bytes(s, off + 12, 2)
        &&& self.hour as int == to_signed(be_bytes(s, off + 14, 2), 2)
        &&& self.minute as int == to_signed(be_bytes(s, off + 16, 2), 2)
        &&& self.econd as int == to_signed(be_bytes(s, off + 18, 2), 2)
        &&& self.milli_second as int == to_signed(be_bytes(s, off + 20, 2), 2)
        &&& self.reserved4 as int == to_signed(be_bytes(s, off + 22, 2), 2)
        &&& self.reserved5 as int == to_signed(be_bytes(s, off + 24, 2), 2)
        &&& self.no_of_records as int == to_signed(be_bytes(s, off + 26, 2), 2)
        &&& self.implied_volatility@.len() == 13
        &&& (forall|k: int| 0 <= k < 13 ==> (#[trigger] self.implied_volatility@[k]).parsed_from(s, off + 28 + k * 72))
    }

    #[verifier::rlimit(100)]
    pub fn from_bytes(buf: &[u8], off: usize) -> (r: Self)
        requires
            off + BCAST_IMPLIED_VOLATILITY_SIZE <= buf@.len(),
        ensures
            r.parsed_from(buf@, off as int),
            r.wf(),
    {
        let n: usize = buf.len();
        let message_type = read_i32_be(buf, off + 0);
        let reserved1 = read_i32_be(buf, off + 4);
        let reserved2 = read_i32_be(buf, off + 8);
        let reserved3 = read_u16_be(buf, off + 12);
        let hour = read_i16_be(buf, off + 14);
        let minute = read_i16_be(buf, off + 16);
        let econd = read_i16_be(buf, off + 18);
        let milli_second = read_i16_be(buf, off + 20);
        let reserved4 = read_i16_be(buf, off + 22);
        let reserved5 = read_i16_be(buf, off + 24);
        let no_of_records = read_i16_be(buf, off + 26);
        let mut implied_volatility: Vec<BcastImpliedVolatilityDetails> = Vec::new();
        let mut k_implied_volatility: usize = 0;
        while k_implied_volatility < 13
            invariant
                k_implied_volatility <= 13,
                n == buf@.len(),
                off + BCAST_IMPLIED_VOLATILITY_SIZE <= n,
                implied_volatility@.len() == k_implied_volatility,
                forall|x: int| 0 <= x < k_implied_volatility ==> (#[trigger] implied_volatility@[x]).parsed_from(buf@, off + 28 + x * 72) && implied_volatility@[x].wf(),
            decreases 13 - k_implied_volatility,
        {
            implied_volatility.push(BcastImpliedVolatilityDetails::from_bytes(buf, off + 28 + k_implied_volatility * 72));
            k_implied_volatility = k_implied_volatility + 1;
        }
        BcastImpliedVolatility {
            message_type,
            reserved1,
            reserved2,
            reserved3,
            hour,
            minute,
            econd,
            milli_second,
            reserved4,
            reserved5,
            no_of_records,
            implied_volatility,
        }
    }

    /// The record's little-endian serialized bytes, padding zeroed.
    pub open spec fn spec_ser(self) -> Seq<u8> {
        spec_i32_le(self.message_type)
            + spec_i32_le(self.reserved1)
            + spec_i32_le(self.reserved2)
            + spec_u16_le(self.reserved3)
            + spec_i16_le(self.hour)
            + spec_i16_le(self.minute)
            + spec_i16_le(self.econd)
            + spec_i16_le(self.milli_second)
            + spec_i16_le(self.reserved4)
            + spec_i16_le(self.reserved5)
            + spec_i16_le(self.no_of_records)
            + ser_seq_bcast_implied_volatility_details(self.implied_volatility@)
    }

    #[verifier::rlimit(100)]
    pub proof fn lemma_ser_len(self)
        requires
            self.wf(),
        ensures
            self.spec_ser().len() == BCAST_IMPLIED_VOLATILITY_SIZE,
    {
        broadcast use crate::bytesio::group_le_lens;

        lemma_ser_seq_bcast_implied_volatility_details_len(self.implied_volatility@);
    }

    #[verifier::rlimit(100)]
    #[verifier::spinoff_prover]
    pub fn to_bytes_vec(&self) -> (r: Vec<u8>)
        requires
            self.wf(),
        ensures
            r@ == self.spec_ser(),
    {
        let mut out: Vec<u8> = Vec::new();
        push_i32_le(&mut out, self.message_type);
        push_i32_le(&mut out, self.reserved1);
        push_i32_le(&mut out, self.reserved2);
        push_u16_le(&mut out, self.reserved3);
        push_i16_le(&mut out, self.hour);
        push_i16_le(&mut out, self.minute);
        push_i16_le(&mut out, self.econd);
        push_i16_le(&mut out, self.milli_second);
        push_i16_le(&mut out, self.reserved4);
        push_i16_le(&mut out, self.reserved5);
        push_i16_le(&mut out, self.no_of_records);
        let ghost pre_implied_volatility = out@;
        let mut k_implied_volatility: usize = 0;
        while k_implied_volatility < 13
            invariant
                k_implied_volatility <= 13,
                self.implied_volatility@.len() == 13,
                forall|k: int| 0 <= k < 13 ==> (#[trigger] self.implied_volatility@[k]).wf(),
                out@ == pre_implied_volatility + ser_seq_bcast_implied_volatility_details(self.implied_volatility@.take(k_implied_volatility as int)),
            decreases 13 - k_implied_volatility,
        {
            let mut one = self.implied_volatility[k_implied_volatility].to_bytes_vec();
            out.append(&mut one);
            proof {
                let t = self.implied_volatility@.take(k_implied_volatility + 1);
                assert(t.drop_last() =~= self.implied_volatility@.take(k_implied_volatility as int));
                assert(t.last() == self.implied_volatility@[k_implied_volatility as int]);
                assert(out@ =~= pre_implied_volatility + ser_seq_bcast_implied_volatility_details(t));
            }
            k_implied_volatility = k_implied_volatility + 1;
        }
        proof {
            assert(self.implied_volatility@.take(13) =~= self.implied_volatility@);
        }
        proof {
            assert(out@ =~= self.spec_ser());
        }
        out
    }
}

/// Every BSE broadcast record type, keyed by its leading message code.
pub enum BseBroadcastTransactionMapping {
    BcastTimeMessage(BcastTimeMessage),
    BcastSessionChange(BcastSessionChange),
    BcastAuctoinSessionChange(BcastAuctionSessionChange),
    BcastNewsHeadline(BcastNewsHeadline),
    BcastIndex1(BcastIndexChangeMessage),
    BcastIndex2(BcastIndexChangeMessage),
    BcastClosePrice(BcastClosePrice),
    BcastOpenInterestMsg(BcastOpenInterest),
    BcastVarPercentage(BcastVarPercentage),
    BcastAuctionMbp(BcastAuctionMBP),
    BcastMbp(BcastMarketPicture),
    BcastMbpComplexInst(BcastComplexMarketPicture),
    BcastRbiRefRate(BcastRBIReferenceRate),
    BcastOddLotMbp(BcastOddLotMarketPicture),
    BcastImpliedVolatility(BcastImpliedVolatility),
    BcastKeepAlive(BcastKeepAlive),
    BcastDebtMbp(BcastDebtMarketPicture),
    BcastLppRange(BcastLPPRange),
    BcastCallAuctionCxlQtyMsg(BcastCACxlQtyMessage),
}

impl BseBroadcastTransactionMapping {
    pub open spec fn wf(self) -> bool {
        match self {
            Self::BcastTimeMessage(s) => s.wf(),
            Self::BcastSessionChange(s) => s.wf(),
            Self::BcastAuctoinSessionChange(s) => s.wf(),
            Self::BcastNewsHeadline(s) => s.wf(),
            Self::BcastIndex1(s) => s.wf(),
            Self::BcastIndex2(s) => s.wf(),
            Self::BcastClosePrice(s) => s.wf(),
            Self::BcastOpenInterestMsg(s) => s.wf(),
            Self::BcastVarPercentage(s) => s.wf(),
            Self::BcastAuctionMbp(s) => s.wf(),
            Self::BcastMbp(s) => s.wf(),
            Self::BcastMbpComplexInst(s) => s.wf(),
            Self::BcastRbiRefRate(s) => s.wf(),
            Self::BcastOddLotMbp(s) => s.wf(),
            Self::BcastImpliedVolatility(s) => s.wf(),
            Self::BcastKeepAlive(s) => s.wf(),
            Self::BcastDebtMbp(s) => s.wf(),
            Self::BcastLppRange(s) => s.wf(),
            Self::BcastCallAuctionCxlQtyMsg(s) => s.wf(),
        }
    }

    pub open spec fn spec_ser(self) -> Seq<u8> {
        match self {
            Self::BcastTimeMessage(s) => s.spec_ser(),
            Self::BcastSessionChange(s) => s.spec_ser(),
            Self::BcastAuctoinSessionChange(s) => s.spec_ser(),
            Self::BcastNewsHeadline(s) => s.spec_ser(),
            Self::BcastIndex1(s) => s.spec_ser(),
            Self::BcastIndex2(s) => s.spec_ser(),
            Self::BcastClosePrice(s) => s.spec_ser(),
            Self::BcastOpenInterestMsg(s) => s.spec_ser(),
            Self::BcastVarPercentage(s) => s.spec_ser(),
            Self::BcastAuctionMbp(s) => s.spec_ser(),
            Self::BcastMbp(s) => s.spec_ser(),
            Self::BcastMbpComplexInst(s) => s.spec_ser(),
            Self::BcastRbiRefRate(s) => s.spec_ser(),
            Self::BcastOddLotMbp(s) => s.spec_ser(),
            Self::BcastImpliedVolatility(s) => s.spec_ser(),
            Self::BcastKeepAlive(s) => s.spec_ser(),
            Self::BcastDebtMbp(s) => s.spec_ser(),
            Self::BcastLppRange(s) => s.spec_ser(),
            Self::BcastCallAuctionCxlQtyMsg(s) => s.spec_ser(),
        }
    }

    /// Serializes the record little-endian into the front of `buf`; a
    /// record longer than the buffer is cut off at the buffer's end.
    #[verifier::rlimit(100)]
    pub fn to_bytes(&self, buf: &mut Vec<u8>)
        requires
            self.wf(),
        ensures
            final(buf)@.len() == old(buf)@.len(),
            forall|j: int|
                0 <= j < old(buf)@.len() && j < self.spec_ser().len() ==> final(buf)@[j]
                    == self.spec_ser()[j],
            forall|j: int|
                self.spec_ser().len() <= j < old(buf)@.len() ==> final(buf)@[j] == old(buf)@[j],
    {
        let bytes = match self {
            Self::BcastTimeMessage(s) => s.to_bytes_vec(),
            Self::BcastSessionChange(s) => s.to_bytes_vec(),
            Self::BcastAuctoinSessionChange(s) => s.to_bytes_vec(),
            Self::BcastNewsHeadline(s) => s.to_bytes_vec(),
            Self::BcastIndex1(s) => s.to_bytes_vec(),
            Self::BcastIndex2(s) => s.to_bytes_vec(),
            Self::BcastClosePrice(s) => s.to_bytes_vec(),
            Self::BcastOpenInterestMsg(s) => s.to_bytes_vec(),
            Self::BcastVarPercentage(s) => s.to_bytes_vec(),
            Self::BcastAuctionMbp(s) => s.to_bytes_vec(),
            Self::BcastMbp(s) => s.to_bytes_vec(),
            Self::BcastMbpComplexInst(s) => s.to_bytes_vec(),
            Self::BcastRbiRefRate(s) => s.to_bytes_vec(),
            Self::BcastOddLotMbp(s) => s.to_bytes_vec(),
            Self::BcastImpliedVolatility(s) => s.to_bytes_vec(),
            Self::BcastKeepAlive(s) => s.to_bytes_vec(),
            Self::BcastDebtMbp(s) => s.to_bytes_vec(),
            Self::BcastLppRange(s) => s.to_bytes_vec(),
            Self::BcastCallAuctionCxlQtyMsg(s) => s.to_bytes_vec(),
        };
        let m = if bytes.len() <= buf.len() {
            bytes.len()
        } else {
            buf.len()
        };
        let mut i: usize = 0;
        while i < m
            invariant
                i <= m,
                m <= bytes@.len(),
                m <= buf@.len(),
                buf@.len() == old(buf)@.len(),
                bytes@ == self.spec_ser(),
                forall|j: int| 0 <= j < i ==> #[trigger] buf@[j] == bytes@[j],
                forall|j: int| i <= j < buf@.len() ==> #[trigger] buf@[j] == old(buf)@[j],
            decreases m - i,
        {
            let b = bytes[i];
            buf.set(i, b);
            i = i + 1;
        }
    }
}

/// Message codes this codec decodes.
pub open spec fn spec_bse_known(t: i16) -> bool {
    t == 2001 || t == 2002 || t == 2003 || t == 2004 || t == 2011 || t == 2012 || t == 2014 || t == 2015 || t == 2016 || t == 2017 || t == 2020 || t == 2021 || t == 2022 || t == 2027 || t == 2028 || t == 2030 || t == 2033 || t == 2034 || t == 2035
}

/// Wire size of the record that message code `t` announces.
pub open spec fn spec_bse_size(t: i16) -> int {
    if t == 2001 {
        BCAST_TIME_MESSAGE_SIZE as int
    } else if t == 2002 {
        BCAST_SESSION_CHANGE_SIZE as int
    } else if t == 2003 {
        BCAST_AUCTION_SESSION_CHANGE_SIZE as int
    } else if t == 2004 {
        BCAST_NEWS_HEADLINE_SIZE as int
    } else if t == 2011 {
        BCAST_INDEX_CHANGE_MESSAGE_SIZE as int
    } else if t == 2012 {
        BCAST_INDEX_CHANGE_MESSAGE_SIZE as int
    } else if t == 2014 {
        BCAST_CLOSE_PRICE_SIZE as int
    } else if t == 2015 {
        BCAST_OPEN_INTEREST_SIZE as int
    } else if t == 2016 {
        BCAST_VAR_PERCENTAGE_SIZE as int
    } else if t == 2017 {
        BCAST_AUCTION_MBP_SIZE as int
    } else if t == 2020 {
        BCAST_MARKET_PICTURE_SIZE as int
    } else if t == 2021 {
        BCAST_COMPLEX_MARKET_PICTURE_SIZE as int
    } else if t == 2022 {
        BCAST_RBI_REFERENCE_RATE_SIZE as int
    } else if t == 2027 {
        BCAST_ODD_LOT_MARKET_PICTURE_SIZE as int
    } else if t == 2028 {
        BCAST_IMPLIED_VOLATILITY_SIZE as int
    } else if t == 2030 {
        BCAST_KEEP_ALIVE_SIZE as int
    } else if t == 2033 {
        BCAST_DEBT_MARKET_PICTURE_SIZE as int
    } else if t == 2034 {
        BCAST_LPP_RANGE_SIZE as int
    } else if t == 2035 {
        BCAST_CA_CXL_QTY_MESSAGE_SIZE as int
    } else {
        0
    }
}

/// The decoded variant matches the message code and was parsed from `s`.
pub open spec fn spec_bse_variant_ok(t: i16, m: BseBroadcastTransactionMapping, s: Seq<u8>) -> bool {
    if t == 2001 {
        m matches BseBroadcastTransactionMapping::BcastTimeMessage(x) && x.parsed_from(s, 0)
    } else if t == 2002 {
        m matches BseBroadcastTransactionMapping::BcastSessionChange(x) && x.parsed_from(s, 0)
    } else if t == 2003 {
        m matches BseBroadcastTransactionMapping::BcastAuctoinSessionChange(x) && x.parsed_from(s, 0)
    } else if t == 2004 {
        m matches BseBroadcastTransactionMapping::BcastNewsHeadline(x) && x.parsed_from(s, 0)
    } else if t == 2011 {
        m matches BseBroadcastTransactionMapping::BcastIndex1(x) && x.parsed_from(s, 0)
    } else if t == 2012 {
        m matches BseBroadcastTransactionMapping::BcastIndex2(x) && x.parsed_from(s, 0)
    } else if t == 2014 {
        m matches BseBroadcastTransactionMapping::BcastClosePrice(x) && x.parsed_from(s, 0)
    } else if t == 2015 {
        m matches BseBroadcastTransactionMapping::BcastOpenInterestMsg(x) && x.parsed_from(s, 0)
    } else if t == 2016 {
        m matches BseBroadcastTransactionMapping::BcastVarPercentage(x) && x.parsed_from(s, 0)
    } else if t == 2017 {
        m matches BseBroadcastTransactionMapping::BcastAuctionMbp(x) && x.parsed_from(s, 0)
    } else if t == 2020 {
        m matches BseBroadcastTransactionMapping::BcastMbp(x) && x.parsed_from(s, 0)
    } else if t == 2021 {
        m matches BseBroadcastTransactionMapping::BcastMbpComplexInst(x) && x.parsed_from(s, 0)
    } else if t == 2022 {
        m matches BseBroadcastTransactionMapping::BcastRbiRefRate(x) && x.parsed_from(s, 0)
    } else if t == 2027 {
        m matches BseBroadcastTransactionMapping::BcastOddLotMbp(x) && x.parsed_from(s, 0)
    } else if t == 2028 {
        m matches BseBroadcastTransactionMapping::BcastImpliedVolatility(x) && x.parsed_from(s, 0)
    } else if t == 2030 {
        m matches BseBroadcastTransactionMapping::BcastKeepAlive(x) && x.parsed_from(s, 0)
    } else if t == 2033 {
        m matches BseBroadcastTransactionMapping::BcastDebtMbp(x) && x.parsed_from(s, 0)
    } else if t == 2034 {
        m matches BseBroadcastTransactionMapping::BcastLppRange(x) && x.parsed_from(s, 0)
    } else if t == 2035 {
        m matches BseBroadcastTransactionMapping::BcastCallAuctionCxlQtyMsg(x) && x.parsed_from(s, 0)
    } else {
        false
    }
}

/// Decodes one BSE broadcast record by its transaction id; an unknown id or
/// a buffer shorter than the record is refused.
pub fn build_bse_struct(transaction_id: i16, buf: &[u8]) -> (r: Option<
    BseBroadcastTransactionMapping,
>)
    ensures
        r is Some <==> spec_bse_known(transaction_id) && buf@.len() >= spec_bse_size(
            transaction_id,
        ),
        r matches Some(msg) ==> msg.wf() && spec_bse_variant_ok(transaction_id, msg, buf@),
{
    match transaction_id {
        2001 => {
            if buf.len() >= BCAST_TIME_MESSAGE_SIZE {
                Some(BseBroadcastTransactionMapping::BcastTimeMessage(BcastTimeMessage::from_bytes(buf, 0)))
            } else {
                None
            }
        },
        2002 => {
            if buf.len() >= BCAST_SESSION_CHANGE_SIZE {
                Some(BseBroadcastTransactionMapping::BcastSessionChange(BcastSessionChange::from_bytes(buf, 0)))
            } else {
                None
            }
        },
        2003 => {
            if buf.len() >= BCAST_AUCTION_SESSION_CHANGE_SIZE {
                Some(BseBroadcastTransactionMapping::BcastAuctoinSessionChange(BcastAuctionSessionChange::from_bytes(buf, 0)))
            } else {
                None
            }
        },
        2004 => {
            if buf.len() >= BCAST_NEWS_HEADLINE_SIZE {
                Some(BseBroadcastTransactionMapping::BcastNewsHeadline(BcastNewsHeadline::from_bytes(buf, 0)))
            } else {
                None
            }
        },
        2011 => {
            if buf.len() >= BCAST_INDEX_CHANGE_MESSAGE_SIZE {
                Some(BseBroadcastTransactionMapping::BcastIndex1(BcastIndexChangeMessage::from_bytes(buf, 0)))
            } else {
                None
            }
        },
        2012 => {
            if buf.len() >= BCAST_INDEX_CHANGE_MESSAGE_SIZE {
                Some(BseBroadcastTransactionMapping::BcastIndex2(BcastIndexChangeMessage::from_bytes(buf, 0)))
            } else {
                None
            }
        },
        2014 => {
            if buf.len() >= BCAST_CLOSE_PRICE_SIZE {
                Some(BseBroadcastTransactionMapping::BcastClosePrice(BcastClosePrice::from_bytes(buf, 0)))
            } else {
                None
            }
        },
        2015 => {
            if buf.len() >= BCAST_OPEN_INTEREST_SIZE {
                Some(BseBroadcastTransactionMapping::BcastOpenInterestMsg(BcastOpenInterest::from_bytes(buf, 0)))
            } else {
                None
            }
        },
        2016 => {
            if buf.len() >= BCAST_VAR_PERCENTAGE_SIZE {
                Some(BseBroadcastTransactionMapping::BcastVarPercentage(BcastVarPercentage::from_bytes(buf, 0)))
            } else {
                None
            }
        },
        2017 => {
            if buf.len() >= BCAST_AUCTION_MBP_SIZE {
                Some(BseBroadcastTransactionMapping::BcastAuctionMbp(BcastAuctionMBP::from_bytes(buf, 0)))
            } else {
                None
            }
        },
        2020 => {
            if buf.len() >= BCAST_MARKET_PICTURE_SIZE {
                Some(BseBroadcastTransactionMapping::BcastMbp(BcastMarketPicture::from_bytes(buf, 0)))
            } else {
                None
            }
        },
        2021 => {
            if buf.len() >= BCAST_COMPLEX_MARKET_PICTURE_SIZE {
                Some(BseBroadcastTransactionMapping::BcastMbpComplexInst(BcastComplexMarketPicture::from_bytes(buf, 0)))
            } else {
                None
            }
        },
        2022 => {
            if buf.len() >= BCAST_RBI_REFERENCE_RATE_SIZE {
                Some(BseBroadcastTransactionMapping::BcastRbiRefRate(BcastRBIReferenceRate::from_bytes(buf, 0)))
            } else {
                None
            }
        },
        2027 => {
            if buf.len() >= BCAST_ODD_LOT_MARKET_PICTURE_SIZE {
                Some(BseBroadcastTransactionMapping::BcastOddLotMbp(BcastOddLotMarketPicture::from_bytes(buf, 0)))
            } else {
                None
            }
        },
        2028 => {
            if buf.len() >= BCAST_IMPLIED_VOLATILITY_SIZE {
                Some(BseBroadcastTransactionMapping::BcastImpliedVolatility(BcastImpliedVolatility::from_bytes(buf, 0)))
            } else {
                None
            }
        },
        2030 => {
            if buf.len() >= BCAST_KEEP_ALIVE_SIZE {
                Some(BseBroadcastTransactionMapping::BcastKeepAlive(BcastKeepAlive::from_bytes(buf, 0)))
            } else {
                None
            }
        },
        2033 => {
            if buf.len() >= BCAST_DEBT_MARKET_PICTURE_SIZE {
                Some(BseBroadcastTransactionMapping::BcastDebtMbp(BcastDebtMarketPicture::from_bytes(buf, 0)))
            } else {
                None
            }
        },
        2034 => {
            if buf.len() >= BCAST_LPP_RANGE_SIZE {
                Some(BseBroadcastTransactionMapping::BcastLppRange(BcastLPPRange::from_bytes(buf, 0)))
            } else {
                None
            }
        },
        2035 => {
            if buf.len() >= BCAST_CA_CXL_QTY_MESSAGE_SIZE {
                Some(BseBroadcastTransactionMapping::BcastCallAuctionCxlQtyMsg(BcastCACxlQtyMessage::from_bytes(buf, 0)))
            } else {
                None
            }
        },
        _ => None,
    }
}

} // verus!
