//! Fixed constants of the pcapng wire format.

use vstd::prelude::*;

verus! {

/// Number of bytes in the Block Type field and the two Block Total Length
/// fields that frame every block.
pub const BLOCK_COMMON_LEN: u32 = 12;

/// The Byte-Order Magic constant of the Section Header Block.  Its byte
/// order in the file tells a reader the file's endianness.
pub const BYTE_ORDER_MAGIC: u32 = 0x1A2B_3C4D;

/// The Section Length value meaning that the length of the section is not
/// specified.
pub const SHB_UNSPECIFIED_LENGTH: u64 = 0xFFFF_FFFF_FFFF_FFFF;

} // verus!
