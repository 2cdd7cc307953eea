//! Closed enumerations of the pcapng format: block type tags, link-layer
//! types, packet-flag fields and the section-length sentinel.

use crate::constants::SHB_UNSPECIFIED_LENGTH;
use vstd::prelude::*;

verus! {

/// The numeric type tag of each supported block kind.
#[derive(Clone, Copy, Debug, PartialEq, Eq, Hash, Structural)]
pub enum BlockType {
    SectionHeader,
    InterfaceDescription,
    SimplePacket,
    EnhancedPacket,
    InterfaceStatistics,
}

impl BlockType {
    /// The 32-bit tag written in the Block Type field.
    pub open spec fn spec_value(self) -> u32 {
        match self {
            BlockType::SectionHeader => 0x0A0D_0D0A,
            BlockType::InterfaceDescription => 1,
            BlockType::SimplePacket => 3,
            BlockType::EnhancedPacket => 6,
            BlockType::InterfaceStatistics => 5,
        }
    }

    /// Returns the 32-bit tag written in the Block Type field.
    pub fn value(&self) -> (r: u32)
        ensures
            r == self.spec_value(),
    {
        match *self {
            BlockType::SectionHeader => 0x0A0D_0D0A,
            BlockType::InterfaceDescription => 1,
            BlockType::SimplePacket => 3,
            BlockType::EnhancedPacket => 6,
            BlockType::InterfaceStatistics => 5,
        }
    }
}

/// A link-layer type of an Interface Description Block.
#[derive(Clone, Copy, Debug, PartialEq, Eq, Structural)]
pub enum LinkType {
    Null,
    Ethernet,
    Fddi,
    Raw,
    Ieee802_11,
    Loop,
    LinuxSll,
}

impl LinkType {
    /// The 16-bit link-type code written in the LinkType field.
    pub open spec fn spec_value(self) -> u16 {
        match self {
            LinkType::Null => 0,
            LinkType::Ethernet => 1,
            LinkType::Fddi => 10,
            LinkType::Raw => 101,
            LinkType::Ieee802_11 => 105,
            LinkType::Loop => 108,
            LinkType::LinuxSll => 113,
        }
    }

    /// Returns the 16-bit link-type code written in the LinkType field.
    pub fn value(&self) -> (r: u16)
        ensures
            r == self.spec_value(),
    {
        match *self {
            LinkType::Null => 0,
            LinkType::Ethernet => 1,
            LinkType::Fddi => 10,
            LinkType::Raw => 101,
            LinkType::Ieee802_11 => 105,
            LinkType::Loop => 108,
            LinkType::LinuxSll => 113,
        }
    }
}

/// The direction bits of the epb_flags option.
#[derive(Clone, Copy, Debug, PartialEq, Eq, Structural)]
pub enum PacketDirection {
    Unknown,
    Inbound,
    Outbound,
}

impl PacketDirection {
    /// The two-bit direction field of the flags word.
    pub open spec fn spec_value(self) -> u8 {
        match self {
            PacketDirection::Unknown => 0,
            PacketDirection::Inbound => 1,
            PacketDirection::Outbound => 2,
        }
    }

    /// Returns the two-bit direction field of the flags word.
    pub fn value(&self) -> (r: u8)
        ensures
            r == self.spec_value(),
    {
        match *self {
            PacketDirection::Unknown => 0,
            PacketDirection::Inbound => 1,
            PacketDirection::Outbound => 2,
        }
    }
}

/// The reception-type bits of the epb_flags option.
#[derive(Clone, Copy, Debug, PartialEq, Eq, Structural)]
pub enum ReceptionType {
    Unspecified,
    Unicast,
    Multicast,
    Broadcast,
    Promiscuous,
}

impl ReceptionType {
    /// The three-bit reception field of the flags word.
    pub open spec fn spec_value(self) -> u8 {
        match self {
            ReceptionType::Unspecified => 0,
            ReceptionType::Unicast => 1,
            ReceptionType::Multicast => 2,
            ReceptionType::Broadcast => 3,
            ReceptionType::Promiscuous => 4,
        }
    }

    /// Returns the three-bit reception field of the flags word.
    pub fn value(&self) -> (r: u8)
        ensures
            r == self.spec_value(),
    {
        match *self {
            ReceptionType::Unspecified => 0,
            ReceptionType::Unicast => 1,
            ReceptionType::Multicast => 2,
            ReceptionType::Broadcast => 3,
            ReceptionType::Promiscuous => 4,
        }
    }
}

/// The Section Length field of a Section Header Block: either a real byte
/// count or the sentinel meaning "unspecified".
#[derive(Clone, Copy, Debug, PartialEq, Eq, Structural)]
pub enum SectionHeaderSectionLength {
    Unspecified,
    Length(u64),
}

impl SectionHeaderSectionLength {
    /// The 64-bit value written in the Section Length field.
    pub open spec fn spec_value(self) -> u64 {
        match self {
            SectionHeaderSectionLength::Unspecified => SHB_UNSPECIFIED_LENGTH,
            SectionHeaderSectionLength::Length(n) => n,
        }
    }

    /// Returns the 64-bit value written in the Section Length field.
    pub fn value(&self) -> (r: u64)
        ensures
            r == self.spec_value(),
    {
        match *self {
            SectionHeaderSectionLength::Unspecified => SHB_UNSPECIFIED_LENGTH,
            SectionHeaderSectionLength::Length(n) => n,
        }
    }
}

} // verus!
