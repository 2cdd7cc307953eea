use nom::IResult;
use pcapng_writer::blocks::options::{OptionComment, Options};
use pcapng_writer::blocks::{
    EnhancedPacketBlock, InterfaceDescriptionBlock, InterfaceStatisticsBlock, RawBlock,
    SectionHeaderBlock, SimplePacketBlock,
};
use pcapng_writer::enums::{BlockType, LinkType, SectionHeaderSectionLength};
use pcapng_writer::writer::{Encodable, Endianness};

#[test]
fn new_epb() {
    let opts = Options::new();
    let epb = EnhancedPacketBlock::new(1, 1, 2, 10, 10, vec![9; 10], opts);
    let mut buf = vec![];
    epb.encode(Endianness::Big, &mut buf);
    // interface ID
    assert_eq!(&buf[8..12], &[0, 0, 0, 1]);
    // packet data
    assert_eq!(&buf[28..38], &[9; 10]);
    // padding
    assert_eq!(&buf[38..40], &[0, 0]);
    let mut buf = vec![];
    epb.encode(Endianness::Little, &mut buf);
    // interface ID
    assert_eq!(&buf[8..12], &[1, 0, 0, 0]);
    // packet data
    assert_eq!(&buf[28..38], &[9; 10]);
    // padding
    assert_eq!(&buf[38..40], &[0, 0]);
}

#[test]
fn epb_round_trip() {
    let opts = Options::new();
    let epb = EnhancedPacketBlock::new(1, 1, 2, 10, 20, vec![9; 10], opts);
    let mut buf = vec![];
    epb.encode(Endianness::Little, &mut buf);
    if let IResult::Done(_, blocks) = pcapng::block::parse_blocks(&buf[..]) {
        for raw in blocks {
            if let IResult::Done(_, block) = raw.parse() {
                if let pcapng::block::Block::EnhancedPacket(parsed_epb) = block {
                    assert_eq!(parsed_epb.captured_len, 10);
                    assert_eq!(parsed_epb.packet_len, 20);
                    assert_eq!(parsed_epb.timestamp_hi, 1);
                    assert_eq!(parsed_epb.timestamp_lo, 2);
                    assert_eq!(parsed_epb.data, &[9; 10]);
                } else {
                    panic!()
                }
            } else {
                panic!();
            }
        }
    } else {
        panic!();
    }
}

#[test]
fn epb_odd_payload_round_trip() {
    // a thirteen-byte payload takes three bytes of padding; the parser
    // recovers the block and the exact payload
    let epb = EnhancedPacketBlock::new(1, 0, 0, 13, 13, vec![5; 13], Options::new());
    let mut buf = vec![];
    epb.encode(Endianness::Little, &mut buf);
    assert_eq!(buf.len(), 12 + 20 + 13 + 3);
    assert_eq!(buf.len() as u32, epb.length());
    if let IResult::Done(_, blocks) = pcapng::block::parse_blocks(&buf[..]) {
        assert_eq!(blocks.len(), 1);
        for raw in blocks {
            if let IResult::Done(_, block) = raw.parse() {
                if let pcapng::block::Block::EnhancedPacket(parsed_epb) = block {
                    assert_eq!(parsed_epb.captured_len, 13);
                    assert_eq!(parsed_epb.data, &[5; 13]);
                } else {
                    panic!()
                }
            } else {
                panic!();
            }
        }
    } else {
        panic!();
    }
}

#[test]
fn new_raw_be() {
    let opts = Options::new();
    let epb = EnhancedPacketBlock::new(1, 1, 2, 10, 20, vec![9; 10], opts);
    let mut epb_buf = vec![];
    epb.encode(Endianness::Big, &mut epb_buf);
    let raw = RawBlock::new(
        6,
        44,
        44,
        vec![
            0, 0, 0, 1, 0, 0, 0, 1, 0, 0, 0, 2, 0, 0, 0, 10, 0, 0, 0, 20, 9, 9, 9, 9, 9, 9, 9, 9,
            9, 9, 0, 0,
        ],
    );
    let mut raw_buf = vec![];
    raw.encode(Endianness::Big, &mut raw_buf);
    assert_eq!(epb_buf, raw_buf);
}

#[test]
fn new_raw_le() {
    let opts = Options::new();
    let epb = EnhancedPacketBlock::new(1, 1, 2, 10, 20, vec![9; 10], opts);
    let mut epb_buf = vec![];
    epb.encode(Endianness::Little, &mut epb_buf);
    let raw = RawBlock::new(
        6,
        44,
        44,
        vec![
            1, 0, 0, 0, 1, 0, 0, 0, 2, 0, 0, 0, 10, 0, 0, 0, 20, 0, 0, 0, 9, 9, 9, 9, 9, 9, 9, 9,
            9, 9, 0, 0,
        ],
    );
    let mut raw_buf = vec![];
    raw.encode(Endianness::Little, &mut raw_buf);
    assert_eq!(epb_buf, raw_buf);
}

#[test]
fn new_idb() {
    let opts = Options::new();
    let idb = InterfaceDescriptionBlock::new(LinkType::Ethernet, 1500, opts);
    let mut buf = vec![];
    idb.encode(Endianness::Big, &mut buf);
    // snaplen
    assert_eq!(&buf[12..16], &[0, 0, 0x05, 0xdc]);
    let mut buf = vec![];
    idb.encode(Endianness::Little, &mut buf);
    // snaplen
    assert_eq!(&buf[12..16], &[0xdc, 0x05, 0, 0]);
}

#[test]
fn idb_round_trip() {
    let opts = Options::new();
    let idb = InterfaceDescriptionBlock::new(LinkType::Ethernet, 1500, opts);
    let mut buf = vec![];
    idb.encode(Endianness::Little, &mut buf);
    if let IResult::Done(_, blocks) = pcapng::block::parse_blocks(&buf[..]) {
        for raw in blocks {
            if let IResult::Done(_, block) = raw.parse() {
                if let pcapng::block::Block::InterfaceDescription(parsed_idb) = block {
                    assert_eq!(parsed_idb.link_type, 1);
                    assert_eq!(parsed_idb.snap_len, 1500);
                } else {
                    panic!()
                }
            } else {
                panic!();
            }
        }
    } else {
        panic!();
    }
}

#[test]
fn new_isb() {
    let opts = Options::new();
    let isb = InterfaceStatisticsBlock::new(1, 100, 200, opts);
    let mut buf = vec![];
    isb.encode(Endianness::Big, &mut buf);
    // interface ID
    assert_eq!(&buf[8..12], &[0, 0, 0, 1]);
    let mut buf = vec![];
    isb.encode(Endianness::Little, &mut buf);
    // interface ID
    assert_eq!(&buf[8..12], &[1, 0, 0, 0]);
}

#[test]
fn isb_round_trip() {
    let opts = Options::new();
    let isb = InterfaceStatisticsBlock::new(1, 100, 200, opts);
    let mut buf = vec![];
    isb.encode(Endianness::Little, &mut buf);
    if let IResult::Done(_, blocks) = pcapng::block::parse_blocks(&buf[..]) {
        for raw in blocks {
            if let IResult::Done(_, block) = raw.parse() {
                if let pcapng::block::Block::InterfaceStatistics(parsed_isb) = block {
                    assert_eq!(parsed_isb.interface_id, 1);
                    assert_eq!(parsed_isb.timestamp_high, 100);
                    assert_eq!(parsed_isb.timestamp_low, 200);
                } else {
                    panic!()
                }
            } else {
                panic!();
            }
        }
    } else {
        panic!();
    }
}

#[test]
fn new_shb() {
    let opts = Options::new();
    let shb = SectionHeaderBlock::new_with_defaults(opts);
    let mut buf = vec![];
    shb.encode(Endianness::Big, &mut buf);
    assert_eq!(&buf[..4], &[0xa, 0xd, 0xd, 0xa]);
    assert_eq!(&buf[8..12], &[0x1a, 0x2b, 0x3c, 0x4d]);
    let mut buf = vec![];
    shb.encode(Endianness::Little, &mut buf);
    assert_eq!(&buf[..4], &[0xa, 0xd, 0xd, 0xa]);
    assert_eq!(&buf[8..12], &[0x4d, 0x3c, 0x2b, 0x1a]);
}

#[test]
fn shb_round_trip() {
    let opts = Options::new();
    let shb = SectionHeaderBlock::new_with_defaults(opts);
    let mut buf = vec![];
    shb.encode(Endianness::Little, &mut buf);
    if let IResult::Done(_, blocks) = pcapng::block::parse_blocks(&buf[..]) {
        for raw in blocks {
            if let IResult::Done(_, block) = raw.parse() {
                if let pcapng::block::Block::SectionHeader(parsed_shb) = block {
                    assert_eq!(parsed_shb.major_version, 1);
                    assert_eq!(parsed_shb.minor_version, 0);
                    assert_eq!(
                        parsed_shb.section_length,
                        pcapng::blocks::section_header::SectionLength::Unspecified
                    );
                } else {
                    panic!()
                }
            } else {
                panic!();
            }
        }
    } else {
        panic!();
    }
}

#[test]
fn shb_field_bytes() {
    let shb = SectionHeaderBlock::new(
        0x1A2B_3C4D,
        1,
        2,
        SectionHeaderSectionLength::Length(0x0102_0304_0506_0708),
        Options::new(),
    );
    let mut be = vec![];
    shb.encode(Endianness::Big, &mut be);
    assert_eq!(&be[12..16], &[0, 1, 0, 2]);
    assert_eq!(&be[16..24], &[1, 2, 3, 4, 5, 6, 7, 8]);
    let mut le = vec![];
    shb.encode(Endianness::Little, &mut le);
    assert_eq!(&le[12..16], &[1, 0, 2, 0]);
    assert_eq!(&le[16..24], &[8, 7, 6, 5, 4, 3, 2, 1]);
}

#[test]
fn new_spb() {
    let spb = SimplePacketBlock::new(10, vec![9; 10]);
    let mut buf = vec![];
    spb.encode(Endianness::Big, &mut buf);
    // original length
    assert_eq!(&buf[8..12], &[0, 0, 0, 0xa]);
    // packet data
    assert_eq!(&buf[12..22], &[9; 10]);
    // padding
    assert_eq!(&buf[22..24], &[0, 0]);
    let mut buf = vec![];
    spb.encode(Endianness::Little, &mut buf);
    // original length
    assert_eq!(&buf[8..12], &[0xa, 0, 0, 0]);
    // packet data
    assert_eq!(&buf[12..22], &[9; 10]);
    // padding
    assert_eq!(&buf[22..24], &[0, 0]);
}

#[test]
fn spb_round_trip() {
    let spb = SimplePacketBlock::new(10, vec![9; 10]);
    let mut buf = vec![];
    spb.encode(Endianness::Little, &mut buf);
    if let IResult::Done(_, blocks) = pcapng::block::parse_blocks(&buf[..]) {
        for raw in blocks {
            if let IResult::Done(_, block) = raw.parse() {
                if let pcapng::block::Block::UnknownBlock(r) = block {
                    // the parser has no rule for Simple Packet Blocks; only
                    // the type tag is checked
                    assert_eq!(r.ty, BlockType::SimplePacket.value());
                } else {
                    panic!()
                }
            } else {
                panic!();
            }
        }
    } else {
        panic!();
    }
}

#[test]
fn total_length_matches_bytes() {
    // for every block kind and both byte orders, the computed total length
    // equals the number of bytes a full encode produces
    let mut opts = Options::new();
    opts.add_option(OptionComment::new_option("abc").unwrap());
    for e in [Endianness::Little, Endianness::Big] {
        let epb = EnhancedPacketBlock::new(1, 2, 3, 5, 5, vec![7; 5], opts.clone());
        let mut buf = vec![];
        epb.encode(e, &mut buf);
        assert_eq!(buf.len() as u32, epb.length());

        let idb = InterfaceDescriptionBlock::new(LinkType::Ethernet, 1500, opts.clone());
        let mut buf = vec![];
        idb.encode(e, &mut buf);
        assert_eq!(buf.len() as u32, idb.length());

        let isb = InterfaceStatisticsBlock::new(4, 5, 6, opts.clone());
        let mut buf = vec![];
        isb.encode(e, &mut buf);
        assert_eq!(buf.len() as u32, isb.length());

        let shb = SectionHeaderBlock::new_with_defaults(opts.clone());
        let mut buf = vec![];
        shb.encode(e, &mut buf);
        assert_eq!(buf.len() as u32, shb.length());

        let spb = SimplePacketBlock::new(5, vec![7; 5]);
        let mut buf = vec![];
        spb.encode(e, &mut buf);
        assert_eq!(buf.len() as u32, spb.length());
    }
}

#[test]
fn type_tag_at_offset_zero() {
    // the first four bytes, reinterpreted under the byte order they were
    // written in, equal each block's declared type constant
    let read_u32 = |buf: &Vec<u8>, e: Endianness| -> u32 {
        let b = [buf[0], buf[1], buf[2], buf[3]];
        match e {
            Endianness::Little => u32::from_le_bytes(b),
            Endianness::Big => u32::from_be_bytes(b),
        }
    };
    for e in [Endianness::Little, Endianness::Big] {
        let mut buf = vec![];
        EnhancedPacketBlock::new(0, 0, 0, 0, 0, vec![], Options::new()).encode(e, &mut buf);
        assert_eq!(read_u32(&buf, e), BlockType::EnhancedPacket.value());

        let mut buf = vec![];
        InterfaceDescriptionBlock::new(LinkType::Null, 0, Options::new()).encode(e, &mut buf);
        assert_eq!(read_u32(&buf, e), BlockType::InterfaceDescription.value());

        let mut buf = vec![];
        InterfaceStatisticsBlock::new(0, 0, 0, Options::new()).encode(e, &mut buf);
        assert_eq!(read_u32(&buf, e), BlockType::InterfaceStatistics.value());

        let mut buf = vec![];
        SectionHeaderBlock::new_with_defaults(Options::new()).encode(e, &mut buf);
        assert_eq!(read_u32(&buf, e), BlockType::SectionHeader.value());

        let mut buf = vec![];
        SimplePacketBlock::new(0, vec![]).encode(e, &mut buf);
        assert_eq!(read_u32(&buf, e), BlockType::SimplePacket.value());
    }
}

#[test]
fn option_code_collision() {
    // an Interface Description's if_name and a Section Header's
    // shb_hardware option share code 2: the surrounding block bytes differ,
    // the two-byte code fields are identical
    let mut idb_opts = Options::new();
    idb_opts.add_option(
        pcapng_writer::blocks::options::OptionIfName::new_option("x").unwrap(),
    );
    let idb = InterfaceDescriptionBlock::new(LinkType::Ethernet, 0, idb_opts);
    let mut idb_buf = vec![];
    idb.encode(Endianness::Little, &mut idb_buf);

    let mut shb_opts = Options::new();
    shb_opts.add_option(pcapng_writer::blocks::options::BlockOption::Raw(
        pcapng_writer::blocks::options::RawOption::new(2, 1, vec![b'x']),
    ));
    let shb = SectionHeaderBlock::new_with_defaults(shb_opts);
    let mut shb_buf = vec![];
    shb.encode(Endianness::Little, &mut shb_buf);

    // options start after the fixed fields: 16 bytes into an IDB, 24 into
    // an SHB
    assert_eq!(&idb_buf[16..18], &[2, 0]);
    assert_eq!(&shb_buf[24..26], &[2, 0]);
    assert_eq!(&idb_buf[16..18], &shb_buf[24..26]);
    assert_ne!(idb_buf, shb_buf);
}
