//! The Enhanced Packet Block.
//!
//! Body layout: `u32 interface_id | u32 ts_high | u32 ts_low |
//! u32 captured_len | u32 original_len | payload (padded to 4) | options`.
//! Captured and original length are independent and may differ: a capture
//! truncated below the original packet size is legitimate, and no check
//! relates the two.

use crate::blocks::options::{lemma_options_enc_len_nonneg, lemma_options_encoding_len,
    options_enc_len, options_encoding, options_len_consistent, options_wf, Options};
use crate::constants::BLOCK_COMMON_LEN;
use crate::encoding::{lemma_u32_bytes_len, lemma_u32_bytes_roundtrip, put_bytes, put_u32,
    put_zero_bytes, u32_bytes, u32_of_bytes, zero_bytes};
use crate::enums::BlockType;
use crate::utils::{lemma_pad_len, pad_len, pad_to_32, TimestampResolution};
use crate::writer::{Encodable, Endianness};
use vstd::prelude::*;

verus! {

broadcast use lemma_u32_bytes_len;

/// An Enhanced Packet Block: one captured packet with its interface,
/// timestamp halves, the two length fields and an option list.
#[derive(Clone, Debug)]
pub struct EnhancedPacketBlock {
    pub interface_id: u32,
    pub ts_high: u32,
    pub ts_low: u32,
    pub cap_packet_len: u32,
    pub orig_packet_len: u32,
    pub packet_data: Vec<u8>,
    pub options: Options,
}

impl EnhancedPacketBlock {
    /// The block's total encoded length: envelope, five fixed fields,
    /// padded payload and encoded options.
    pub open spec fn total_len(self) -> int {
        BLOCK_COMMON_LEN + 4 + 4 + 4 + 4 + 4 + self.packet_data@.len() + pad_len(
            self.packet_data@.len() as int,
        ) + options_enc_len(self.options.opts@)
    }

    /// Creates a new `EnhancedPacketBlock`.
    pub fn new(
        interface_id: u32,
        ts_high: u32,
        ts_low: u32,
        cap_len: u32,
        orig_len: u32,
        packet_data: Vec<u8>,
        options: Options,
    ) -> (r: EnhancedPacketBlock)
        ensures
            r.interface_id == interface_id,
            r.ts_high == ts_high,
            r.ts_low == ts_low,
            r.cap_packet_len == cap_len,
            r.orig_packet_len == orig_len,
            r.packet_data@ == packet_data@,
            r.options == options,
    {
        EnhancedPacketBlock {
            interface_id,
            ts_high,
            ts_low,
            cap_packet_len: cap_len,
            orig_packet_len: orig_len,
            packet_data,
            options,
        }
    }

    /// Creates a new `EnhancedPacketBlock`, deriving the two timestamp
    /// halves from a resolution and a nanosecond count.
    pub fn from_timestamp(
        interface_id: u32,
        ts_res: &TimestampResolution,
        nanoseconds: u128,
        cap_len: u32,
        orig_len: u32,
        packet_data: Vec<u8>,
        options: Options,
    ) -> (r: EnhancedPacketBlock)
        requires
            ts_res.ts_in_range(nanoseconds),
        ensures
            r.interface_id == interface_id,
            r.ts_high == ts_res.spec_ts_high(nanoseconds),
            r.ts_low == ts_res.spec_ts_low(nanoseconds),
            r.cap_packet_len == cap_len,
            r.orig_packet_len == orig_len,
            r.packet_data@ == packet_data@,
            r.options == options,
    {
        let (ts_high, ts_low) = ts_res.ts_from_nanoseconds(nanoseconds);
        Self::new(interface_id, ts_high, ts_low, cap_len, orig_len, packet_data, options)
    }

    /// Returns the zero bytes that pad the payload to a 32-bit boundary.
    pub fn data_padding(&self) -> (r: Vec<u8>)
        ensures
            r@ == zero_bytes(pad_len(self.packet_data@.len() as int)),
    {
        let n = pad_to_32(self.packet_data.len());
        let mut v: Vec<u8> = Vec::new();
        put_zero_bytes(&mut v, n);
        v
    }

    /// Returns the block's total encoded length.
    pub fn length(&self) -> (r: u32)
        requires
            self.wf(),
        ensures
            r as int == self.total_len(),
    {
        proof {
            lemma_options_enc_len_nonneg(self.options.opts@);
            lemma_pad_len(self.packet_data@.len() as int);
        }
        let data_len = self.packet_data.len();
        let pad = pad_to_32(data_len);
        let opt_len = self.options.length();
        BLOCK_COMMON_LEN + 4 + 4 + 4 + 4 + 4 + data_len as u32 + pad as u32 + opt_len
    }
}

impl Encodable for EnhancedPacketBlock {
    open spec fn wf(&self) -> bool {
        &&& options_wf(self.options.opts@)
        &&& options_len_consistent(self.options.opts@)
        &&& self.total_len() <= u32::MAX
    }

    open spec fn encoding(&self, e: Endianness) -> Seq<u8> {
        u32_bytes(e, BlockType::EnhancedPacket.spec_value()) + u32_bytes(
            e,
            self.total_len() as u32,
        ) + u32_bytes(e, self.interface_id) + u32_bytes(e, self.ts_high) + u32_bytes(
            e,
            self.ts_low,
        ) + u32_bytes(e, self.cap_packet_len) + u32_bytes(e, self.orig_packet_len)
            + self.packet_data@ + zero_bytes(pad_len(self.packet_data@.len() as int))
            + options_encoding(self.options.opts@, e) + u32_bytes(e, self.total_len() as u32)
    }

    fn check_wf(&self) -> (b: bool) {
        proof {
            lemma_pad_len(self.packet_data@.len() as int);
        }
        if !self.options.check_wf() {
            return false;
        }
        if !self.options.check_len_consistent() {
            return false;
        }
        let opt_len = match self.options.try_length() {
            Some(n) => n,
            None => {
                proof {
                    lemma_pad_len(self.packet_data@.len() as int);
                }
                return false;
            },
        };
        if self.packet_data.len() as u64 > 0xFFFF_FFFFu64 {
            proof {
                lemma_options_enc_len_nonneg(self.options.opts@);
                lemma_pad_len(self.packet_data@.len() as int);
            }
            return false;
        }
        let total: u64 = 12 + 20 + self.packet_data.len() as u64 + pad_to_32(
            self.packet_data.len(),
        ) as u64 + opt_len as u64;
        total <= 0xFFFF_FFFFu64
    }

    fn encode(&self, e: Endianness, out: &mut Vec<u8>) {
        let total_length = self.length();
        put_u32(out, e, BlockType::EnhancedPacket.value());
        put_u32(out, e, total_length);
        put_u32(out, e, self.interface_id);
        put_u32(out, e, self.ts_high);
        put_u32(out, e, self.ts_low);
        put_u32(out, e, self.cap_packet_len);
        put_u32(out, e, self.orig_packet_len);
        put_bytes(out, &self.packet_data);
        put_zero_bytes(out, pad_to_32(self.packet_data.len()));
        self.options.encode(e, out);
        put_u32(out, e, total_length);
        proof {
            assert(out@ =~= old(out)@ + self.encoding(e));
        }
    }
}

/// The total length computed for an Enhanced Packet Block equals the number
/// of bytes a full encode appends, in either byte order.
pub proof fn lemma_epb_encoding_len(b: &EnhancedPacketBlock, e: Endianness)
    requires
        b.wf(),
    ensures
        b.encoding(e).len() == b.total_len(),
{
    lemma_options_encoding_len(b.options.opts@, e);
    lemma_pad_len(b.packet_data@.len() as int);
}

/// The first four bytes of an Enhanced Packet Block's encoding,
/// reinterpreted under the byte order they were written in, equal the
/// block's type tag.
pub proof fn lemma_epb_type_field(b: &EnhancedPacketBlock, e: Endianness)
    ensures
        u32_of_bytes(e, b.encoding(e).subrange(0, 4)) == BlockType::EnhancedPacket.spec_value(),
{
    lemma_u32_bytes_roundtrip(e, BlockType::EnhancedPacket.spec_value());
    assert(b.encoding(e).subrange(0, 4) =~= u32_bytes(e, BlockType::EnhancedPacket.spec_value()));
}

} // verus!
