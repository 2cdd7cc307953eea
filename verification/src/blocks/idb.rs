//! The Interface Description Block.
//!
//! Body layout: `u16 link_type | u16 reserved(=0) | u32 snap_len | options`.

use crate::blocks::options::{lemma_options_enc_len_nonneg, lemma_options_encoding_len,
    options_enc_len, options_encoding, options_len_consistent, options_wf, Options};
use crate::constants::BLOCK_COMMON_LEN;
use crate::encoding::{lemma_u16_bytes_len, lemma_u32_bytes_len, lemma_u32_bytes_roundtrip,
    put_u16, put_u32, u16_bytes, u32_bytes, u32_of_bytes};
use crate::enums::{BlockType, LinkType};
use crate::writer::{Encodable, Endianness};
use vstd::prelude::*;

verus! {

broadcast use lemma_u16_bytes_len, lemma_u32_bytes_len;

/// An Interface Description Block: the link-layer type and snapshot length
/// of one capture interface, with an option list.
#[derive(Clone, Debug)]
pub struct InterfaceDescriptionBlock {
    pub link_type: u16,
    pub snap_len: u32,
    pub options: Options,
}

impl InterfaceDescriptionBlock {
    /// The block's total encoded length: envelope, link type, reserved
    /// bytes, snapshot length and encoded options.
    pub open spec fn total_len(self) -> int {
        BLOCK_COMMON_LEN + 2 + 2 + 4 + options_enc_len(self.options.opts@)
    }

    /// Creates a new `InterfaceDescriptionBlock`.
    pub fn new(link_type: LinkType, snap_len: u32, options: Options) -> (r:
        InterfaceDescriptionBlock)
        ensures
            r.link_type == link_type.spec_value(),
            r.snap_len == snap_len,
            r.options == options,
    {
        InterfaceDescriptionBlock { link_type: link_type.value(), snap_len, options }
    }

    /// Returns the block's total encoded length.
    pub fn length(&self) -> (r: u32)
        requires
            self.wf(),
        ensures
            r as int == self.total_len(),
    {
        proof {
            lemma_options_enc_len_nonneg(self.options.opts@);
        }
        BLOCK_COMMON_LEN + 2 + 2 + 4 + self.options.length()
    }
}

impl Encodable for InterfaceDescriptionBlock {
    open spec fn wf(&self) -> bool {
        &&& options_wf(self.options.opts@)
        &&& options_len_consistent(self.options.opts@)
        &&& self.total_len() <= u32::MAX
    }

    open spec fn encoding(&self, e: Endianness) -> Seq<u8> {
        u32_bytes(e, BlockType::InterfaceDescription.spec_value()) + u32_bytes(
            e,
            self.total_len() as u32,
        ) + u16_bytes(e, self.link_type) + u16_bytes(e, 0) + u32_bytes(e, self.snap_len)
            + options_encoding(self.options.opts@, e) + u32_bytes(e, self.total_len() as u32)
    }

    fn check_wf(&self) -> (b: bool) {
        if !self.options.check_wf() {
            return false;
        }
        if !self.options.check_len_consistent() {
            return false;
        }
        match self.options.try_length() {
            Some(opt_len) => {
                let total: u64 = 12 + 8 + opt_len as u64;
                total <= 0xFFFF_FFFFu64
            },
            None => false,
        }
    }

    fn encode(&self, e: Endianness, out: &mut Vec<u8>) {
        let total_length = self.length();
        put_u32(out, e, BlockType::InterfaceDescription.value());
        put_u32(out, e, total_length);
        put_u16(out, e, self.link_type);
        put_u16(out, e, 0);
        put_u32(out, e, self.snap_len);
        self.options.encode(e, out);
        put_u32(out, e, total_length);
        proof {
            assert(out@ =~= old(out)@ + self.encoding(e));
        }
    }
}

/// The total length computed for an Interface Description Block equals the
/// number of bytes a full encode appends, in either byte order.
pub proof fn lemma_idb_encoding_len(b: &InterfaceDescriptionBlock, e: Endianness)
    requires
        b.wf(),
    ensures
        b.encoding(e).len() == b.total_len(),
{
    lemma_options_encoding_len(b.options.opts@, e);
}

/// The first four bytes of an Interface Description Block's encoding,
/// reinterpreted under the byte order they were written in, equal the
/// block's type tag.
pub proof fn lemma_idb_type_field(b: &InterfaceDescriptionBlock, e: Endianness)
    ensures
        u32_of_bytes(e, b.encoding(e).subrange(0, 4))
            == BlockType::InterfaceDescription.spec_value(),
{
    lemma_u32_bytes_roundtrip(e, BlockType::InterfaceDescription.spec_value());
    assert(b.encoding(e).subrange(0, 4) =~= u32_bytes(
        e,
        BlockType::InterfaceDescription.spec_value(),
    ));
}

} // verus!
