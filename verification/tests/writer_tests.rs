use nom::IResult;
use pcapng_writer::blocks::options::Options;
use pcapng_writer::blocks::{EnhancedPacketBlock, InterfaceDescriptionBlock, SectionHeaderBlock};
use pcapng_writer::enums::{self, LinkType};
use pcapng_writer::writer::{Endianness, PcapNgWriter};
use std::collections::HashMap;

#[test]
fn new_le() {
    let buf = vec![];
    let writer = PcapNgWriter::new_le(buf);
    assert_eq!(writer.endianness, Endianness::Little);
}

#[test]
fn new_be() {
    let buf = vec![];
    let writer = PcapNgWriter::new_be(buf);
    assert_eq!(writer.endianness, Endianness::Big);
}

#[test]
fn round_trip_le() {
    let opts = Options::new();
    let mut writer = PcapNgWriter::new(Endianness::Little, vec![]);
    let mut counts: HashMap<enums::BlockType, u32> = HashMap::new();
    let shb = SectionHeaderBlock::new_with_defaults(opts.clone());
    let p = b"\x00\x11\x22\x33\x44\x01\x00\x11\x22\x33\x44\x02\x08\x00\x45\x00\
              \x00\x42\x88\x1f\x40\x00\x40\x11\x2f\x30\xc0\xa8\x01\x0a\xc0\xa8\
              \x01\x01\x8c\xdf\x00\x35\x00\x2e\x83\x9b\xbd\x67\x01\x00\x00\x01\
              \x00\x00\x00\x00\x00\x00\x04\x6e\x65\x77\x73\x0b\x79\x63\x6f\x6d\
              \x62\x69\x6e\x61\x74\x6f\x72\x03\x63\x6f\x6d\x00\x00\x01\x00\x01";

    let idb0 = InterfaceDescriptionBlock::new(LinkType::Ethernet, 1500, opts.clone());
    let idb1 = InterfaceDescriptionBlock::new(LinkType::Ethernet, 1500, opts.clone());
    let ehp = EnhancedPacketBlock::new(1, 0, 0, p.len() as u32, p.len() as u32, p.to_vec(), opts);
    writer.write(&shb);
    writer.write(&idb0);
    writer.write(&idb1);
    for _i in 0..100 {
        writer.write(&ehp);
    }

    let buf = writer.get_writer();
    if let IResult::Done(_, blocks) = pcapng::block::parse_blocks(&buf[..]) {
        for raw in blocks {
            if let IResult::Done(_, block) = raw.parse() {
                match block {
                    pcapng::block::Block::SectionHeader(parsed_shb) => {
                        *counts.entry(enums::BlockType::SectionHeader).or_insert(0) += 1;
                        assert_eq!(
                            parsed_shb.section_length,
                            pcapng::blocks::section_header::SectionLength::Unspecified
                        );
                    }
                    pcapng::block::Block::InterfaceDescription(_) => {
                        *counts
                            .entry(enums::BlockType::InterfaceDescription)
                            .or_insert(0) += 1;
                    }
                    pcapng::block::Block::EnhancedPacket(parsed_epb) => {
                        *counts.entry(enums::BlockType::EnhancedPacket).or_insert(0) += 1;
                        assert_eq!(parsed_epb.interface_id, 1);
                    }
                    _ => {
                        panic!();
                    }
                }
            } else {
                panic!()
            }
        }
    } else {
        panic!()
    }
    assert_eq!(counts[&enums::BlockType::SectionHeader], 1);
    assert_eq!(counts[&enums::BlockType::InterfaceDescription], 2);
    assert_eq!(counts[&enums::BlockType::EnhancedPacket], 100);
}

#[test]
fn round_trip_short_packets() {
    // one section header, two interface descriptions and a hundred
    // fourteen-byte packets on interface 1: parsing the stream back
    // recovers every block with its field values
    let p = b"\x00\x11\x22\x33\x44\x01\x00\x11\x22\x33\x44\x02\x08\x00";
    let mut writer = PcapNgWriter::new_le(vec![]);
    writer.write(&SectionHeaderBlock::new_with_defaults(Options::new()));
    writer.write(&InterfaceDescriptionBlock::new(
        LinkType::Ethernet,
        1500,
        Options::new(),
    ));
    writer.write(&InterfaceDescriptionBlock::new(
        LinkType::Ethernet,
        1500,
        Options::new(),
    ));
    let epb = EnhancedPacketBlock::new(
        1,
        0,
        0,
        p.len() as u32,
        p.len() as u32,
        p.to_vec(),
        Options::new(),
    );
    for _i in 0..100 {
        writer.write(&epb);
    }
    let mut n_shb = 0;
    let mut n_idb = 0;
    let mut n_epb = 0;
    let buf = writer.get_writer();
    if let IResult::Done(_, blocks) = pcapng::block::parse_blocks(&buf[..]) {
        for raw in blocks {
            if let IResult::Done(_, block) = raw.parse() {
                match block {
                    pcapng::block::Block::SectionHeader(_) => n_shb += 1,
                    pcapng::block::Block::InterfaceDescription(_) => n_idb += 1,
                    pcapng::block::Block::EnhancedPacket(parsed_epb) => {
                        n_epb += 1;
                        assert_eq!(parsed_epb.interface_id, 1);
                        assert_eq!(parsed_epb.captured_len, 14);
                    }
                    _ => panic!(),
                }
            } else {
                panic!()
            }
        }
    } else {
        panic!()
    }
    assert_eq!((n_shb, n_idb, n_epb), (1, 2, 100));
}

#[test]
fn writer_sink_access() {
    let mut writer = PcapNgWriter::new_be(vec![1, 2, 3]);
    assert_eq!(writer.get_writer().as_slice(), &[1, 2, 3]);
    writer.get_writer_mut().push(4);
    assert_eq!(writer.get_writer().as_slice(), &[1, 2, 3, 4]);
    assert_eq!(writer.endianness, Endianness::Big);
}
