//! Codec checks: field readers, the BSE delta decompression, and the
//! double-field truncation.

use feed_handler::bse::{build_bse_struct, BseBroadcastTransactionMapping, BCAST_KEEP_ALIVE_SIZE};
use feed_handler::bse_worker::{decompress_bcast_mbp, decompress_field};
use feed_handler::bytesio::{read_i16_be, read_i32_be, read_u16_be, read_u32_be};
use feed_handler::book::{DepthEntry, DepthSnapshot};
use feed_handler::fp::f64_bits_to_i64;
use feed_handler::mcx_worker::snapshot_to_market_picture;
use feed_handler::nse_worker::get_token;
use feed_handler::packet::Packet;
use feed_handler::settings::Exchange;

#[test]
fn be_readers_read_exact_values() {
    let buf = [0x12u8, 0x34, 0x56, 0x78, 0xFF, 0xFE];
    assert_eq!(read_u16_be(&buf, 0), 0x1234);
    assert_eq!(read_u32_be(&buf, 0), 0x12345678);
    assert_eq!(read_i16_be(&buf, 4), -2);
    assert_eq!(read_i32_be(&buf, 1), 0x345678FF);
}

#[test]
fn decompress_field_delta_escape_and_sentinel() {
    // A small delta adds to the base.
    let mut buf = vec![0u8; 16];
    buf[0] = 0xFF;
    buf[1] = 0xFB;  // -5
    let mut off = 0usize;
    assert_eq!(decompress_field(100, &buf, &mut off), 95);
    assert_eq!(off, 2);

    // The escape value pulls a full 32-bit value after it.
    buf[2] = 0x7F;
    buf[3] = 0xFF;  // 32767: escape
    buf[4] = 0x00;
    buf[5] = 0x01;
    buf[6] = 0x00;
    buf[7] = 0x00;
    assert_eq!(decompress_field(100, &buf, &mut off), 0x00010000);
    assert_eq!(off, 8);

    // The side sentinels stand for themselves.
    buf[8] = 0x7F;
    buf[9] = 0xFE;  // 32766
    assert_eq!(decompress_field(0, &buf, &mut off), 32766);
    assert_eq!(off, 10);
    buf[10] = 0x80;
    buf[11] = 0x02;  // -32766
    assert_eq!(decompress_field(0, &buf, &mut off), -32766);
    assert_eq!(off, 12);
}

#[test]
fn build_bse_struct_known_and_unknown() {
    let mut buf = vec![0u8; 1024];
    // 2030, a keep-alive, in big-endian at the record start.
    buf[2] = 0x07;
    buf[3] = 0xEE;
    let msg = build_bse_struct(2030, &buf);
    match msg {
        Some(BseBroadcastTransactionMapping::BcastKeepAlive(ka)) => {
            assert_eq!(ka.message_type, 0x000007EE);
        },
        _ => panic!("keep-alive not decoded"),
    }
    assert_eq!(BCAST_KEEP_ALIVE_SIZE, 4);
    assert!(build_bse_struct(1234, &buf).is_none());
    // A buffer shorter than the record is refused.
    assert!(build_bse_struct(2030, &buf[..2]).is_none());
}

#[test]
fn bse_mbp_decompression_header_and_record() {
    // One record: the 28-byte header announces it, the 56-byte record
    // prefix follows, then twelve delta fields and two empty sides.
    let mut data = vec![0u8; 1024];
    data[2] = 0x07;
    data[3] = 0xE4;  // message type 2020
    data[27] = 1;  // no_of_records == 1 (big-endian i16 at 26)

    let rec = 28;
    // instrument id 500 (i32 at +0).
    data[rec + 2] = 0x01;
    data[rec + 3] = 0xF4;
    // no_of_price_points = 0 (i16 at +34); ltp = 1000 (i32 at +52).
    data[rec + 54] = 0x03;
    data[rec + 55] = 0xE8;
    // Twelve delta fields, each +1 over its base.
    let mut off = rec + 56;
    for _ in 0..12 {
        data[off] = 0x00;
        data[off + 1] = 0x01;
        off += 2;
    }

    let packet = Packet::from_bytes(&data);
    let decoded = decompress_bcast_mbp(&packet).expect("decode failed");
    let (mp, buy_count, sell_count) = decoded;
    assert_eq!(mp.no_of_records, 1);
    assert_eq!(mp.mbp_details[0].instrument, 500);
    assert_eq!(mp.mbp_details[0].ltp, 1000);
    // Every price-based delta lands at base + 1.
    assert_eq!(mp.mbp_details[0].open_rate, 1001);
    assert_eq!(mp.mbp_details[0].weighted_avg_price, 1001);
    // Quantity-based deltas add to ltq, which is zero here.
    assert_eq!(mp.mbp_details[0].total_bid_qty, 1);
    assert_eq!(buy_count, 0);
    assert_eq!(sell_count, 0);
}

#[test]
fn double_field_truncates_like_a_cast() {
    for v in [
        0.0f64,
        1.0,
        1.5,
        -2.7,
        1234567.99,
        -0.5,
        1e18,
        -1e18,
        1e300,
        -1e300,
        f64::NAN,
        f64::INFINITY,
        f64::NEG_INFINITY,
        f64::MIN_POSITIVE,
    ] {
        assert_eq!(f64_bits_to_i64(v.to_bits()), v as i64, "value {}", v);
    }
}

#[test]
fn nse_container_split_and_classify() {
    // A container with one plain inner message.
    let mut data = vec![0u8; 1024];
    data[3] = 1;  // one frame (u16 big-endian at 2)
    // Frame at 4: compression length 0, then the inner message; its
    // header puts the transaction code at +8+10 and the length at +8+38.
    data[4] = 0;
    data[5] = 0;
    let inner = 6;
    data[inner + 18] = 0x19;  // trans code 6501 = 0x1965
    data[inner + 19] = 0x65;
    data[inner + 46] = 0x00;
    data[inner + 47] = 40;  // message length 40
    let p = Packet::from_bytes(&data);
    let frames = p.get_nse_packets();
    assert_eq!(frames.len(), 1);
    assert!(!frames[0].compressed);
    assert_eq!(frames[0].data[18], 0x19);

    // A compressed frame is handed back as its exact compressed bytes.
    let mut data = vec![0u8; 1024];
    data[3] = 1;
    data[4] = 0;
    data[5] = 3;  // compression length 3
    data[6] = 9;
    data[7] = 8;
    data[8] = 7;
    let p = Packet::from_bytes(&data);
    let frames = p.get_nse_packets();
    assert_eq!(frames.len(), 1);
    assert!(frames[0].compressed);
    assert_eq!(frames[0].data, vec![9, 8, 7]);
}

#[test]
fn token_read_at_record_offset() {
    let mut data = vec![0u8; 1024];
    // Token 0x01020304 right after the framing and header bytes.
    data[48] = 1;
    data[49] = 2;
    data[50] = 3;
    data[51] = 4;
    assert_eq!(get_token(Exchange::NFO, 7200, &data, 0), 0x01020304);
    assert_eq!(get_token(Exchange::NEQ, 7200, &data, 0), 0x01020304);
    // An unhandled code reads no token.
    assert_eq!(get_token(Exchange::NEQ, 9999, &data, 0), 0);
}

#[test]
fn picture_serialization_starts_with_header() {
    let snap = DepthSnapshot {
        msg_seq_num: Some(3),
        security_id: 9,
        last_update_time: 0,
        total_buy_qty: None,
        total_sell_qty: None,
        entries: Vec::<DepthEntry>::new(),
    };
    let pic = snapshot_to_market_picture(&snap, 1);
    let bytes = pic.to_bytes_vec();
    assert_eq!(bytes.len(), 2930);
    // message code 1698 little-endian.
    assert_eq!(&bytes[0..4], &[0xA2, 0x06, 0x00, 0x00]);
    assert_eq!(pic.msg_header.message_length, 130);
}
