//! The packet buffer, and un-multiplexing of NSE container datagrams.
//!
//! One UDP datagram from an NSE feed is a container: a small header, then a
//! run of inner messages, each preceded by a compression length — zero for a
//! plain message, otherwise the length of an LZO-compressed block.  This
//! module splits the container into frames and leaves decompression of the
//! compressed frames to the caller.

use vstd::prelude::*;

use crate::bytesio::{be_bytes, read_bytes, read_i16_be, read_u16_be, read_u8, to_signed};
use crate::constants::{BUF_SIZE, MAX_SUB_PACKETS, SKIP_BYTES};

verus! {

/// Fixed-capacity byte buffer plus the valid length: the unit of data moved
/// through every queue.
pub struct Packet {
    pub data: Vec<u8>,
    pub len: usize,
}

impl Packet {
    pub open spec fn wf(self) -> bool {
        &&& self.data@.len() == BUF_SIZE
        &&& self.len <= BUF_SIZE
    }

    /// A zeroed buffer of full capacity.
    pub fn empty() -> (r: Packet)
        ensures
            r.wf(),
            r.data@ == Seq::new(BUF_SIZE as nat, |k: int| 0u8),
            r.len == BUF_SIZE,
    {
        let mut data: Vec<u8> = Vec::new();
        let mut i: usize = 0;
        while i < BUF_SIZE
            invariant
                i <= BUF_SIZE,
                data@ == Seq::new(i as nat, |k: int| 0u8),
            decreases BUF_SIZE - i,
        {
            data.push(0u8);
            proof {
                assert(data@ =~= Seq::new((i + 1) as nat, |k: int| 0u8));
            }
            i = i + 1;
        }
        Packet { data, len: BUF_SIZE }
    }

    /// Builds a packet from raw bytes, zero-padding or cutting to capacity;
    /// the valid length is the amount of `bytes` kept.
    pub fn from_bytes(bytes: &[u8]) -> (r: Packet)
        ensures
            r.wf(),
            r.len == (if bytes@.len() <= BUF_SIZE {
                bytes@.len() as int
            } else {
                BUF_SIZE as int
            }),
            r.data@ == Seq::new(
                BUF_SIZE as nat,
                |k: int|
                    if k < bytes@.len() {
                        bytes@[k]
                    } else {
                        0u8
                    },
            ),
    {
        let n = bytes.len();
        let mut data: Vec<u8> = Vec::new();
        let mut i: usize = 0;
        while i < BUF_SIZE
            invariant
                i <= BUF_SIZE,
                n == bytes@.len(),
                data@ == Seq::new(
                    i as nat,
                    |k: int|
                        if k < bytes@.len() {
                            bytes@[k]
                        } else {
                            0u8
                        },
                ),
            decreases BUF_SIZE - i,
        {
            if i < n {
                data.push(bytes[i]);
            } else {
                data.push(0u8);
            }
            proof {
                assert(data@ =~= Seq::new(
                    (i + 1) as nat,
                    |k: int|
                        if k < bytes@.len() {
                            bytes@[k]
                        } else {
                            0u8
                        },
                ));
            }
            i = i + 1;
        }
        let len = if n <= BUF_SIZE {
            n
        } else {
            BUF_SIZE
        };
        Packet { data, len }
    }

    /// An exact copy.
    pub fn dup(&self) -> (r: Packet)
        requires
            self.wf(),
        ensures
            r.data@ == self.data@,
            r.len == self.len,
            r.wf(),
    {
        let data = read_bytes(self.data.as_slice(), 0, BUF_SIZE);
        proof {
            assert(self.data@.subrange(0, BUF_SIZE as int) =~= self.data@);
        }
        Packet { data, len: self.len }
    }
}

/// Container header of an NSE datagram.
#[derive(Clone)]
pub struct PackData {
    pub net_id: u8,
    pub reserved: u8,
    pub no_of_packets: u16,
}

impl PackData {
    pub fn from_bytes(buf: &[u8]) -> (r: PackData)
        requires
            buf@.len() >= 4,
        ensures
            r.net_id == buf@[0],
            r.reserved == buf@[1],
            r.no_of_packets as int == be_bytes(buf@, 2, 2),
    {
        PackData {
            net_id: read_u8(buf, 0),
            reserved: read_u8(buf, 1),
            no_of_packets: read_u16_be(buf, 2),
        }
    }
}

/// One frame of the container: its compression length and the raw bytes
/// that follow it.
#[derive(Clone)]
pub struct CompressionData {
    pub compression_len: u16,
    pub broadcast_data: Vec<u8>,
}

/// A frame cut out of an NSE container datagram: either one plain inner
/// message (a full buffer starting at the message's first framing byte) or
/// one LZO-compressed block still to be decompressed.
pub struct NseFrame {
    pub compressed: bool,
    pub data: Vec<u8>,
}

/// Descriptor of a frame inside the datagram: compressed flag, start of its
/// payload, payload length.
pub struct FrameDesc {
    pub compressed: bool,
    pub start: int,
    pub flen: int,
}

/// The frames of the container in `d`, scanning from `pos` for at most
/// `count` more; a malformed length field ends the scan.
pub open spec fn spec_nse_frames(d: Seq<u8>, pos: int, count: nat) -> Seq<FrameDesc>
    decreases count,
{
    if count == 0 {
        Seq::empty()
    } else if pos + 2 > d.len() {
        Seq::empty()
    } else {
        let clen = be_bytes(d, pos, 2);
        if clen == 0 {
            if pos + 2 + SKIP_BYTES + 40 > d.len() {
                Seq::empty()
            } else {
                let mlen = to_signed(be_bytes(d, pos + 2 + SKIP_BYTES + 38, 2), 2);
                let desc = FrameDesc { compressed: false, start: pos + 2, flen: d.len() - (pos + 2) };
                if mlen < 0 || pos + 2 + SKIP_BYTES + mlen + 2 > d.len() {
                    seq![desc]
                } else {
                    seq![desc] + spec_nse_frames(
                        d,
                        pos + 2 + SKIP_BYTES + mlen + 2,
                        (count - 1) as nat,
                    )
                }
            }
        } else {
            if pos + 2 + clen > d.len() {
                Seq::empty()
            } else {
                let desc = FrameDesc { compressed: true, start: pos + 2, flen: clen };
                seq![desc] + spec_nse_frames(d, pos + 2 + clen, (count - 1) as nat)
            }
        }
    }
}

/// How many frames the datagram advertises, capped at the handler's limit.
pub open spec fn spec_nse_frame_count(d: Seq<u8>) -> nat {
    let n = be_bytes(d, 2, 2);
    if n <= MAX_SUB_PACKETS {
        n as nat
    } else {
        MAX_SUB_PACKETS as nat
    }
}

impl Packet {
    /// Splits an NSE container datagram into its frames, in order: plain
    /// inner messages are handed out as full buffers from their first
    /// framing byte on, compressed blocks as the exact compressed bytes.
    pub fn get_nse_packets(&self) -> (r: Vec<NseFrame>)
        requires
            self.wf(),
        ensures
            ({
                let descs = spec_nse_frames(
                    self.data@,
                    4,
                    spec_nse_frame_count(self.data@),
                );
                &&& r@.len() == descs.len()
                &&& forall|i: int|
                    0 <= i < descs.len() ==> (#[trigger] r@[i]).compressed == descs[i].compressed
                        && r@[i].data@ == self.data@.subrange(
                        descs[i].start,
                        descs[i].start + descs[i].flen,
                    )
            }),
    {
        let d = self.data.as_slice();
        let dn = d.len();
        let header = PackData::from_bytes(d);
        let mut count: usize = header.no_of_packets as usize;
        if count > MAX_SUB_PACKETS {
            count = MAX_SUB_PACKETS;
        }

        let mut out: Vec<NseFrame> = Vec::new();
        let mut pos: usize = 4;
        let mut done: usize = 0;
        let ghost descs = spec_nse_frames(self.data@, 4, spec_nse_frame_count(self.data@));
        let ghost mut taken: Seq<FrameDesc> = Seq::empty();
        proof {
            assert(taken + spec_nse_frames(self.data@, 4, (count - done) as nat) =~= descs);
        }
        loop
            invariant_except_break
                taken + spec_nse_frames(self.data@, pos as int, (count - done) as nat) == descs,
            invariant
                done <= count,
                count as nat == spec_nse_frame_count(self.data@),
                dn == self.data@.len(),
                d@ == self.data@,
                dn == BUF_SIZE,
                4 <= pos <= dn,
                out@.len() == taken.len(),
                forall|i: int|
                    0 <= i < taken.len() ==> (#[trigger] out@[i]).compressed == taken[i].compressed
                        && out@[i].data@ == self.data@.subrange(
                        taken[i].start,
                        taken[i].start + taken[i].flen,
                    ),
            ensures
                taken == descs,
                out@.len() == taken.len(),
                forall|i: int|
                    0 <= i < taken.len() ==> (#[trigger] out@[i]).compressed == taken[i].compressed
                        && out@[i].data@ == self.data@.subrange(
                        taken[i].start,
                        taken[i].start + taken[i].flen,
                    ),
            decreases count - done,
        {
            let ghost rem = (count - done) as nat;
            if done >= count {
                proof {
                    assert(spec_nse_frames(self.data@, pos as int, 0) =~= Seq::<
                        FrameDesc,
                    >::empty());
                    assert(taken + Seq::<FrameDesc>::empty() =~= taken);
                }
                break ;
            }
            if pos + 2 > dn {
                proof {
                    assert(spec_nse_frames(self.data@, pos as int, rem) =~= Seq::<
                        FrameDesc,
                    >::empty());
                    assert(taken + Seq::<FrameDesc>::empty() =~= taken);
                }
                break ;
            }
            let clen = read_u16_be(d, pos) as usize;
            if clen == 0 {
                if pos + 2 + SKIP_BYTES + 40 > dn {
                    proof {
                        assert(spec_nse_frames(self.data@, pos as int, rem) =~= Seq::<
                            FrameDesc,
                        >::empty());
                        assert(taken + Seq::<FrameDesc>::empty() =~= taken);
                    }
                    break ;
                }
                let mlen = read_i16_be(d, pos + 2 + SKIP_BYTES + 38);
                let ghost desc = FrameDesc {
                    compressed: false,
                    start: pos + 2,
                    flen: dn - (pos + 2),
                };
                let data = read_bytes(d, pos + 2, dn - (pos + 2));
                out.push(NseFrame { compressed: false, data });
                proof {
                    taken = taken + seq![desc];
                }
                if mlen < 0 || pos + 2 + SKIP_BYTES + (mlen as usize) + 2 > dn {
                    proof {
                        let tail = spec_nse_frames(self.data@, pos as int, rem);
                        assert(tail =~= seq![desc]);
                        assert((taken.drop_last() + seq![desc]) + Seq::<FrameDesc>::empty()
                            =~= taken.drop_last() + seq![desc]);
                        assert(taken =~= taken.drop_last() + seq![desc]);
                    }
                    break ;
                }
                let next = pos + 2 + SKIP_BYTES + (mlen as usize) + 2;
                proof {
                    let rest = spec_nse_frames(self.data@, next as int, (rem - 1) as nat);
                    assert(spec_nse_frames(self.data@, pos as int, rem) =~= seq![desc] + rest);
                    assert(taken.drop_last() + (seq![desc] + rest) =~= (taken.drop_last()
                        + seq![desc]) + rest);
                    assert(taken =~= taken.drop_last() + seq![desc]);
                }
                pos = next;
                done = done + 1;
            } else {
                if pos + 2 + clen > dn {
                    proof {
                        assert(spec_nse_frames(self.data@, pos as int, rem) =~= Seq::<
                            FrameDesc,
                        >::empty());
                        assert(taken + Seq::<FrameDesc>::empty() =~= taken);
                    }
                    break ;
                }
                let ghost desc = FrameDesc { compressed: true, start: pos + 2, flen: clen as int };
                let data = read_bytes(d, pos + 2, clen);
                out.push(NseFrame { compressed: true, data });
                proof {
                    taken = taken + seq![desc];
                    let rest = spec_nse_frames(
                        self.data@,
                        pos + 2 + clen as int,
                        (rem - 1) as nat,
                    );
                    assert(spec_nse_frames(self.data@, pos as int, rem) =~= seq![desc] + rest);
                    assert(taken.drop_last() + (seq![desc] + rest) =~= (taken.drop_last()
                        + seq![desc]) + rest);
                    assert(taken =~= taken.drop_last() + seq![desc]);
                }
                pos = pos + 2 + clen;
                done = done + 1;
            }
        }
        out
    }
}

} // verus!
