//! The Section Header Block.
//!
//! Body layout: `u32 byte_order_magic | u16 major | u16 minor |
//! u64 section_length | options`.  The byte-order magic is a fixed
//! constant; a big-endian file and a little-endian file differ only in the
//! byte order of this constant's bytes, which is how a reader detects the
//! file's endianness.

use crate::blocks::options::{lemma_options_enc_len_nonneg, lemma_options_encoding_len,
    options_enc_len, options_encoding, options_len_consistent, options_wf, Options};
use crate::constants::{BLOCK_COMMON_LEN, BYTE_ORDER_MAGIC, SHB_UNSPECIFIED_LENGTH};
use crate::encoding::{lemma_u16_bytes_len, lemma_u32_bytes_len, lemma_u64_bytes_len,
    lemma_u32_bytes_roundtrip, put_u16, put_u32, put_u64, u16_bytes, u32_bytes, u32_of_bytes,
    u64_bytes};
use crate::enums::{BlockType, SectionHeaderSectionLength};
use crate::writer::{Encodable, Endianness};
use vstd::prelude::*;

verus! {

broadcast use lemma_u16_bytes_len, lemma_u32_bytes_len, lemma_u64_bytes_len;

/// A Section Header Block: the byte-order magic, the format version and the
/// section length, with an option list.
#[derive(Clone, Debug)]
pub struct SectionHeaderBlock {
    pub byte_order_magic: u32,
    pub major_version: u16,
    pub minor_version: u16,
    pub section_length: u64,
    pub options: Options,
}

impl SectionHeaderBlock {
    /// The block's total encoded length: envelope, magic, the two version
    /// fields, the section length and encoded options.
    pub open spec fn total_len(self) -> int {
        BLOCK_COMMON_LEN + 4 + 2 + 2 + 8 + options_enc_len(self.options.opts@)
    }

    /// Creates a new Section Header Block.
    pub fn new(
        byte_order_magic: u32,
        major_version: u16,
        minor_version: u16,
        section_length: SectionHeaderSectionLength,
        options: Options,
    ) -> (r: SectionHeaderBlock)
        ensures
            r.byte_order_magic == byte_order_magic,
            r.major_version == major_version,
            r.minor_version == minor_version,
            r.section_length == section_length.spec_value(),
            r.options == options,
    {
        SectionHeaderBlock {
            byte_order_magic,
            major_version,
            minor_version,
            section_length: section_length.value(),
            options,
        }
    }

    /// Creates a new Section Header Block with version set to 1.0 and
    /// Section Length "unspecified".
    pub fn new_with_defaults(options: Options) -> (r: SectionHeaderBlock)
        ensures
            r.byte_order_magic == BYTE_ORDER_MAGIC,
            r.major_version == 1,
            r.minor_version == 0,
            r.section_length == SHB_UNSPECIFIED_LENGTH,
            r.options == options,
    {
        Self::new(
            BYTE_ORDER_MAGIC,
            1,
            0,
            SectionHeaderSectionLength::Unspecified,
            options,
        )
    }

    /// Returns the block's total encoded length.
    pub fn length(&self) -> (r: u32)
        requires
            self.wf(),
        ensures
            r as int == self.total_len(),
    {
        proof {
            lemma_options_enc_len_nonneg(self.options.opts@);
        }
        BLOCK_COMMON_LEN + 4 + 2 + 2 + 8 + self.options.length()
    }
}

impl Encodable for SectionHeaderBlock {
    open spec fn wf(&self) -> bool {
        &&& options_wf(self.options.opts@)
        &&& options_len_consistent(self.options.opts@)
        &&& self.total_len() <= u32::MAX
    }

    open spec fn encoding(&self, e: Endianness) -> Seq<u8> {
        u32_bytes(e, BlockType::SectionHeader.spec_value()) + u32_bytes(
            e,
            self.total_len() as u32,
        ) + u32_bytes(e, self.byte_order_magic) + u16_bytes(e, self.major_version) + u16_bytes(
            e,
            self.minor_version,
        ) + u64_bytes(e, self.section_length) + options_encoding(self.options.opts@, e)
            + u32_bytes(e, self.total_len() as u32)
    }

    fn check_wf(&self) -> (b: bool) {
        if !self.options.check_wf() {
            return false;
        }
        if !self.options.check_len_consistent() {
            return false;
        }
        match self.options.try_length() {
            Some(opt_len) => {
                let total: u64 = 12 + 16 + opt_len as u64;
                total <= 0xFFFF_FFFFu64
            },
            None => false,
        }
    }

    fn encode(&self, e: Endianness, out: &mut Vec<u8>) {
        let total_length = self.length();
        put_u32(out, e, BlockType::SectionHeader.value());
        put_u32(out, e, total_length);
        put_u32(out, e, self.byte_order_magic);
        put_u16(out, e, self.major_version);
        put_u16(out, e, self.minor_version);
        put_u64(out, e, self.section_length);
        self.options.encode(e, out);
        put_u32(out, e, total_length);
        proof {
            assert(out@ =~= old(out)@ + self.encoding(e));
        }
    }
}

/// The total length computed for a Section Header Block equals the number
/// of bytes a full encode appends, in either byte order.
pub proof fn lemma_shb_encoding_len(b: &SectionHeaderBlock, e: Endianness)
    requires
        b.wf(),
    ensures
        b.encoding(e).len() == b.total_len(),
{
    lemma_options_encoding_len(b.options.opts@, e);
}

/// The first four bytes of a Section Header Block's encoding, reinterpreted
/// under the byte order they were written in, equal the block's type tag.
pub proof fn lemma_shb_type_field(b: &SectionHeaderBlock, e: Endianness)
    ensures
        u32_of_bytes(e, b.encoding(e).subrange(0, 4)) == BlockType::SectionHeader.spec_value(),
{
    lemma_u32_bytes_roundtrip(e, BlockType::SectionHeader.spec_value());
    assert(b.encoding(e).subrange(0, 4) =~= u32_bytes(e, BlockType::SectionHeader.spec_value()));
}

} // verus!
