//! The Interface Statistics Block.
//!
//! Body layout: `u32 interface_id | u32 ts_high | u32 ts_low | options`.

use crate::blocks::options::{lemma_options_enc_len_nonneg, lemma_options_encoding_len,
    options_enc_len, options_encoding, options_len_consistent, options_wf, Options};
use crate::constants::BLOCK_COMMON_LEN;
use crate::encoding::{lemma_u32_bytes_len, lemma_u32_bytes_roundtrip, put_u32, u32_bytes,
    u32_of_bytes};
use crate::enums::BlockType;
use crate::writer::{Encodable, Endianness};
use vstd::prelude::*;

verus! {

broadcast use lemma_u32_bytes_len;

/// An Interface Statistics Block: statistics for one interface at one
/// moment, identified by the interface and a timestamp, with an option
/// list.
#[derive(Clone, Debug)]
pub struct InterfaceStatisticsBlock {
    pub interface_id: u32,
    pub ts_high: u32,
    pub ts_low: u32,
    pub options: Options,
}

impl InterfaceStatisticsBlock {
    /// The block's total encoded length: envelope, three fixed fields and
    /// encoded options.
    pub open spec fn total_len(self) -> int {
        BLOCK_COMMON_LEN + 4 + 4 + 4 + options_enc_len(self.options.opts@)
    }

    /// Creates a new `InterfaceStatisticsBlock`.
    pub fn new(interface_id: u32, ts_high: u32, ts_low: u32, options: Options) -> (r:
        InterfaceStatisticsBlock)
        ensures
            r.interface_id == interface_id,
            r.ts_high == ts_high,
            r.ts_low == ts_low,
            r.options == options,
    {
        InterfaceStatisticsBlock { interface_id, ts_high, ts_low, options }
    }

    /// Returns the block's total encoded length.
    pub fn length(&self) -> (r: u32)
        requires
            self.wf(),
        ensures
            r as int == self.total_len(),
    {
        proof {
            lemma_options_enc_len_nonneg(self.options.opts@);
        }
        BLOCK_COMMON_LEN + 4 + 4 + 4 + self.options.length()
    }
}

impl Encodable for InterfaceStatisticsBlock {
    open spec fn wf(&self) -> bool {
        &&& options_wf(self.options.opts@)
        &&& options_len_consistent(self.options.opts@)
        &&& self.total_len() <= u32::MAX
    }

    open spec fn encoding(&self, e: Endianness) -> Seq<u8> {
        u32_bytes(e, BlockType::InterfaceStatistics.spec_value()) + u32_bytes(
            e,
            self.total_len() as u32,
        ) + u32_bytes(e, self.interface_id) + u32_bytes(e, self.ts_high) + u32_bytes(
            e,
            self.ts_low,
        ) + options_encoding(self.options.opts@, e) + u32_bytes(e, self.total_len() as u32)
    }

    fn check_wf(&self) -> (b: bool) {
        if !self.options.check_wf() {
            return false;
        }
        if !self.options.check_len_consistent() {
            return false;
        }
        match self.options.try_length() {
            Some(opt_len) => {
                let total: u64 = 12 + 12 + opt_len as u64;
                total <= 0xFFFF_FFFFu64
            },
            None => false,
        }
    }

    fn encode(&self, e: Endianness, out: &mut Vec<u8>) {
        let total_length = self.length();
        put_u32(out, e, BlockType::InterfaceStatistics.value());
        put_u32(out, e, total_length);
        put_u32(out, e, self.interface_id);
        put_u32(out, e, self.ts_high);
        put_u32(out, e, self.ts_low);
        self.options.encode(e, out);
        put_u32(out, e, total_length);
        proof {
            assert(out@ =~= old(out)@ + self.encoding(e));
        }
    }
}

/// The total length computed for an Interface Statistics Block equals the
/// number of bytes a full encode appends, in either byte order.
pub proof fn lemma_isb_encoding_len(b: &InterfaceStatisticsBlock, e: Endianness)
    requires
        b.wf(),
    ensures
        b.encoding(e).len() == b.total_len(),
{
    lemma_options_encoding_len(b.options.opts@, e);
}

/// The first four bytes of an Interface Statistics Block's encoding,
/// reinterpreted under the byte order they were written in, equal the
/// block's type tag.
pub proof fn lemma_isb_type_field(b: &InterfaceStatisticsBlock, e: Endianness)
    ensures
        u32_of_bytes(e, b.encoding(e).subrange(0, 4)) == BlockType::InterfaceStatistics.spec_value(),
{
    lemma_u32_bytes_roundtrip(e, BlockType::InterfaceStatistics.spec_value());
    assert(b.encoding(e).subrange(0, 4) =~= u32_bytes(
        e,
        BlockType::InterfaceStatistics.spec_value(),
    ));
}

} // verus!
