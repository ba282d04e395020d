//! Sizes, transaction codes and sentinel values shared across the crate.

use vstd::prelude::*;

verus! {

/// Size of every packet buffer moved through the queues.
pub const BUF_SIZE: usize = 1024;
/// Bytes of transport framing that precede each inner NSE message.
pub const SKIP_BYTES: usize = 8;
/// Size of the NSE broadcast header that opens every inner message.
pub const NSE_HEADER_SIZE: usize = 40;

pub const ALPHA_CHAR_LEN: usize = 2;
pub const TIMESTAMP_LEN: usize = 8;

pub const MAX_MBPINFO_IDX: usize = 10;
pub const MAX_MBOINFO_IDX: usize = 10;
pub const MAX_MBP_DATA_IDX: usize = 2;
pub const MAX_MARKET_DEPTH_IDX: usize = 200;
pub const MAX_BUY_SELL_DEPTH_IDX: usize = 5;
pub const MAX_SUB_PACKETS: usize = 12;

pub const BCAST_ONLY_MBP: i16 = 7208;
pub const BCAST_ONLY_MBP_EQ: i16 = 18705;
pub const BCAST_MBO_MBP: i16 = 7200;

pub const BSE_BCAST_MBP: i32 = 2020;
pub const BSE_BCAST_COMPLEX: i32 = 2021;
pub const BSE_BCAST_DEBT: i32 = 2033;

// BSE delta-decompression sentinels.
pub const U16_MAX: i16 = 32767;
pub const BEST_BID_VALUE: i16 = 32766;
pub const BEST_OFFER_VALUE: i16 = -32766;

pub const MBP_UNCOMPRESSED_HEADER_LEN: usize = 28;
pub const MBP_UNCOMPRESSED_DATA_LEN: usize = 56;
pub const COMPLEX_MBP_UNCOMPRESSED_DATA_LEN: usize = 60;
pub const DEBT_MBP_UNCOMPRESSED_DATA_LEN: usize = 68;

pub const MAX_BSE_MBP_DATA_IDX: usize = 5;
pub const MAX_BSE_MBP_DEATIL_IDX: usize = 6;

/// Template id a reconstructed MCX depth snapshot is tagged with on output.
pub const SNAPSHOT_TEMPLATE_ID: i32 = 1698;

} // verus!
