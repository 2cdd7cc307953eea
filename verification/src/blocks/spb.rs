//! The Simple Packet Block.
//!
//! Body layout: `u32 original_len | payload (padded to 4)`.  This is the
//! format's minimal packet record: no interface, no timestamp, no options.

use crate::constants::BLOCK_COMMON_LEN;
use crate::encoding::{lemma_u32_bytes_len, lemma_u32_bytes_roundtrip, put_bytes, put_u32,
    put_zero_bytes, u32_bytes, u32_of_bytes, zero_bytes};
use crate::enums::BlockType;
use crate::utils::{lemma_pad_len, pad_len, pad_to_32};
use crate::writer::{Encodable, Endianness};
use vstd::prelude::*;

verus! {

broadcast use lemma_u32_bytes_len;

/// A Simple Packet Block: the original packet length and the padded
/// payload, nothing else.
#[derive(Clone, Debug)]
pub struct SimplePacketBlock {
    pub orig_packet_len: u32,
    pub packet_data: Vec<u8>,
}

impl SimplePacketBlock {
    /// The block's total encoded length: envelope, the original length
    /// field and the padded payload.
    pub open spec fn total_len(self) -> int {
        BLOCK_COMMON_LEN + 4 + self.packet_data@.len() + pad_len(self.packet_data@.len() as int)
    }

    /// Creates a new `SimplePacketBlock`.
    pub fn new(orig_len: u32, packet_data: Vec<u8>) -> (r: SimplePacketBlock)
        ensures
            r.orig_packet_len == orig_len,
            r.packet_data@ == packet_data@,
    {
        SimplePacketBlock { orig_packet_len: orig_len, packet_data }
    }

    /// Returns the zero bytes that pad the payload to a 32-bit boundary.
    pub fn data_padding(&self) -> (r: Vec<u8>)
        ensures
            r@ == zero_bytes(pad_len(self.packet_data@.len() as int)),
    {
        let n = pad_to_32(self.packet_data.len());
        let mut v: Vec<u8> = Vec::new();
        put_zero_bytes(&mut v, n);
        v
    }

    /// Returns the block's total encoded length.
    pub fn length(&self) -> (r: u32)
        requires
            self.wf(),
        ensures
            r as int == self.total_len(),
    {
        proof {
            lemma_pad_len(self.packet_data@.len() as int);
        }
        let data_len = self.packet_data.len();
        let pad = pad_to_32(data_len);
        BLOCK_COMMON_LEN + 4 + data_len as u32 + pad as u32
    }
}

impl Encodable for SimplePacketBlock {
    open spec fn wf(&self) -> bool {
        self.total_len() <= u32::MAX
    }

    open spec fn encoding(&self, e: Endianness) -> Seq<u8> {
        u32_bytes(e, BlockType::SimplePacket.spec_value()) + u32_bytes(e, self.total_len() as u32)
            + u32_bytes(e, self.orig_packet_len) + self.packet_data@ + zero_bytes(
            pad_len(self.packet_data@.len() as int),
        ) + u32_bytes(e, self.total_len() as u32)
    }

    fn check_wf(&self) -> (b: bool) {
        proof {
            lemma_pad_len(self.packet_data@.len() as int);
        }
        if self.packet_data.len() as u64 > 0xFFFF_FFFFu64 {
            return false;
        }
        let total: u64 = 12 + 4 + self.packet_data.len() as u64 + pad_to_32(
            self.packet_data.len(),
        ) as u64;
        total <= 0xFFFF_FFFFu64
    }

    fn encode(&self, e: Endianness, out: &mut Vec<u8>) {
        let total_length = self.length();
        put_u32(out, e, BlockType::SimplePacket.value());
        put_u32(out, e, total_length);
        put_u32(out, e, self.orig_packet_len);
        put_bytes(out, &self.packet_data);
        put_zero_bytes(out, pad_to_32(self.packet_data.len()));
        put_u32(out, e, total_length);
        proof {
            assert(out@ =~= old(out)@ + self.encoding(e));
        }
    }
}

/// The total length computed for a Simple Packet Block equals the number of
/// bytes a full encode appends, in either byte order.
pub proof fn lemma_spb_encoding_len(b: &SimplePacketBlock, e: Endianness)
    requires
        b.wf(),
    ensures
        b.encoding(e).len() == b.total_len(),
{
    lemma_pad_len(b.packet_data@.len() as int);
}

/// The first four bytes of a Simple Packet Block's encoding, reinterpreted
/// under the byte order they were written in, equal the block's type tag.
pub proof fn lemma_spb_type_field(b: &SimplePacketBlock, e: Endianness)
    ensures
        u32_of_bytes(e, b.encoding(e).subrange(0, 4)) == BlockType::SimplePacket.spec_value(),
{
    lemma_u32_bytes_roundtrip(e, BlockType::SimplePacket.spec_value());
    assert(b.encoding(e).subrange(0, 4) =~= u32_bytes(e, BlockType::SimplePacket.spec_value()));
}

} // verus!
