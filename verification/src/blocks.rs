//! The pcapng block kinds.
//!
//! Every block's wire form is `type(4) | total_length(4) | body | total_length(4)`,
//! where the body is padded so that its end aligns to a 32-bit boundary and
//! the two length fields are identical.  The `RawBlock` below bypasses the
//! length computation entirely and emits caller-supplied values verbatim;
//! it exists to build byte-exact fixtures, including intentionally invalid
//! ones, for exercising the real encoders.

use crate::encoding::{put_bytes, put_u32, u32_bytes};
use crate::writer::{Encodable, Endianness};
use vstd::prelude::*;

pub mod options;

mod epb;
mod idb;
mod isb;
mod shb;
mod spb;

pub use crate::blocks::epb::lemma_epb_encoding_len;
pub use crate::blocks::epb::lemma_epb_type_field;
pub use crate::blocks::epb::EnhancedPacketBlock;
pub use crate::blocks::idb::lemma_idb_encoding_len;
pub use crate::blocks::idb::lemma_idb_type_field;
pub use crate::blocks::idb::InterfaceDescriptionBlock;
pub use crate::blocks::isb::lemma_isb_encoding_len;
pub use crate::blocks::isb::lemma_isb_type_field;
pub use crate::blocks::isb::InterfaceStatisticsBlock;
pub use crate::blocks::shb::lemma_shb_encoding_len;
pub use crate::blocks::shb::lemma_shb_type_field;
pub use crate::blocks::shb::SectionHeaderBlock;
pub use crate::blocks::spb::lemma_spb_encoding_len;
pub use crate::blocks::spb::lemma_spb_type_field;
pub use crate::blocks::spb::SimplePacketBlock;

verus! {

/// A raw pcapng block: a caller-supplied type tag, two independently
/// supplied length fields and a verbatim body.  Nothing checks that the two
/// lengths agree with each other or with the body.
#[derive(Debug)]
pub struct RawBlock {
    pub block_type: u32,
    pub total_length1: u32,
    pub total_length2: u32,
    pub body: Vec<u8>,
}

impl RawBlock {
    /// Builds a raw block from its four wire fields, taken verbatim.
    pub fn new(block_type: u32, total_length1: u32, total_length2: u32, body: Vec<u8>) -> (r: Self)
        ensures
            r.block_type == block_type,
            r.total_length1 == total_length1,
            r.total_length2 == total_length2,
            r.body@ == body@,
    {
        Self { block_type, total_length1, total_length2, body }
    }
}

impl Encodable for RawBlock {
    open spec fn wf(&self) -> bool {
        true
    }

    open spec fn encoding(&self, e: Endianness) -> Seq<u8> {
        u32_bytes(e, self.block_type) + u32_bytes(e, self.total_length1) + self.body@ + u32_bytes(
            e,
            self.total_length2,
        )
    }

    fn check_wf(&self) -> (b: bool) {
        true
    }

    /// For raw blocks, the total length fields are not automatically
    /// calculated.
    fn encode(&self, e: Endianness, out: &mut Vec<u8>) {
        put_u32(out, e, self.block_type);
        put_u32(out, e, self.total_length1);
        put_bytes(out, &self.body);
        put_u32(out, e, self.total_length2);
        proof {
            assert(out@ =~= old(out)@ + self.encoding(e));
        }
    }
}

} // verus!
