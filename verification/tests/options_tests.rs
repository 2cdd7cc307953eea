use pcapng_writer::blocks::options::{
    BlockOption, OptionComment, OptionEndOfOpt, OptionError, OptionEpbFlags, OptionIfDescription,
    OptionIfIpv4Addr, OptionIfIpv6Addr, OptionIfMacAddr, OptionIfName, OptionIfTsResol, Options,
    RawOption,
};
use pcapng_writer::enums::{PacketDirection, ReceptionType};
use pcapng_writer::utils::TimestampResolution;
use pcapng_writer::writer::{Encodable, Endianness};

#[test]
fn option_encode() {
    let data = vec![9u8; 10];
    let raw = BlockOption::Raw(RawOption::new(2, data.len() as u16, data));
    let mut buf = vec![];
    raw.encode(Endianness::Little, &mut buf);
    assert_eq!(buf.len(), 16);
    // padding
    assert_eq!(&buf[14..], &[0, 0]);
}

#[test]
fn padding() {
    for i in 9..=12 {
        let data = vec![9u8; i];
        let raw = BlockOption::Raw(RawOption::new(2, data.len() as u16, data));
        let mut buf = vec![];
        raw.encode(Endianness::Little, &mut buf);
        assert_eq!(buf.len(), 16);
        assert_eq!(raw.padding().len(), 12 - i);
    }
}

#[test]
fn opt_comment() {
    let opt = BlockOption::OptComment(OptionComment::new("Hello World!!").unwrap());
    let mut buf = vec![];
    opt.encode(Endianness::Big, &mut buf);
    assert_eq!(
        buf,
        [0, 1, 0, 13, 72, 101, 108, 108, 111, 32, 87, 111, 114, 108, 100, 33, 33, 0, 0, 0]
    );
    let opt = BlockOption::OptComment(OptionComment::new("Hello World!!").unwrap());
    let mut buf = vec![];
    opt.encode(Endianness::Little, &mut buf);
    assert_eq!(
        buf,
        [1, 0, 13, 0, 72, 101, 108, 108, 111, 32, 87, 111, 114, 108, 100, 33, 33, 0, 0, 0]
    );
}

#[test]
fn comment_too_long() {
    let long = "a".repeat(0x10000);
    assert_eq!(
        OptionComment::new(&long).unwrap_err(),
        OptionError::ValueTooLong
    );
    assert_eq!(
        OptionIfName::new(&long).unwrap_err(),
        OptionError::ValueTooLong
    );
    assert_eq!(
        OptionIfDescription::new(&long).unwrap_err(),
        OptionError::ValueTooLong
    );
    // exactly 65535 bytes still fits the 16-bit length field
    let fits = "a".repeat(0xFFFF);
    assert!(OptionComment::new(&fits).is_ok());
}

#[test]
fn mac_addr_text() {
    let m = OptionIfMacAddr::new("0.1.2.3.4.5").unwrap();
    assert_eq!(m.mac_addr, [0, 1, 2, 3, 4, 5]);
    let m = OptionIfMacAddr::new("00.01.002.3.255.5").unwrap();
    assert_eq!(m.mac_addr, [0, 1, 2, 3, 255, 5]);
    assert_eq!(
        OptionIfMacAddr::new("1.2.3.4.5").unwrap_err(),
        OptionError::MalformedAddress
    );
    assert_eq!(
        OptionIfMacAddr::new("1.2.3.4.5.6.7").unwrap_err(),
        OptionError::MalformedAddress
    );
    assert_eq!(
        OptionIfMacAddr::new("0.1.2.3.4.256").unwrap_err(),
        OptionError::MalformedAddress
    );
    assert_eq!(
        OptionIfMacAddr::new("0.1.2.3.4.").unwrap_err(),
        OptionError::MalformedAddress
    );
    assert_eq!(
        OptionIfMacAddr::new("0.1.2.3.4.x").unwrap_err(),
        OptionError::MalformedAddress
    );
}

#[test]
fn mac_addr_encode() {
    let opt = OptionIfMacAddr::new_option("0.1.2.3.4.5").unwrap();
    let mut buf = vec![];
    opt.encode(Endianness::Big, &mut buf);
    assert_eq!(buf, [0, 6, 0, 6, 0, 1, 2, 3, 4, 5, 0, 0]);
}

#[test]
fn ipv4_addr_encode() {
    let opt = OptionIfIpv4Addr::new_option([192, 168, 1, 1], [255, 255, 255, 0]);
    let mut le = vec![];
    opt.encode(Endianness::Little, &mut le);
    let mut be = vec![];
    opt.encode(Endianness::Big, &mut be);
    // the address octets are not byte-swapped; only the header is
    assert_eq!(&le[4..12], &[192, 168, 1, 1, 255, 255, 255, 0]);
    assert_eq!(&be[4..12], &[192, 168, 1, 1, 255, 255, 255, 0]);
    assert_eq!(&le[0..4], &[4, 0, 8, 0]);
    assert_eq!(&be[0..4], &[0, 4, 0, 8]);
}

#[test]
fn ipv6_addr_encode() {
    let ip = [
        0x20, 0x01, 0x0d, 0xb8, 0x85, 0xa3, 0x08, 0xd3, 0x13, 0x19, 0x8a, 0x2e, 0x03, 0x70, 0x73,
        0x44,
    ];
    let opt = OptionIfIpv6Addr::new_option(ip, 64);
    let mut buf = vec![];
    opt.encode(Endianness::Big, &mut buf);
    assert_eq!(buf.len(), 4 + 17 + 3);
    assert_eq!(&buf[4..20], &ip);
    assert_eq!(buf[20], 64);
    assert_eq!(&buf[21..], &[0, 0, 0]);
}

#[test]
fn tsresol_option_encode() {
    let opt = OptionIfTsResol::new_option(&TimestampResolution::PowerOfTen(6));
    let mut buf = vec![];
    opt.encode(Endianness::Little, &mut buf);
    assert_eq!(buf, [9, 0, 1, 0, 6, 0, 0, 0]);
}

#[test]
fn epb_flags_word() {
    let f = OptionEpbFlags::new(
        PacketDirection::Inbound,
        ReceptionType::Promiscuous,
        Some(4),
        0x8001,
    );
    assert_eq!(f.flags, 0x8001_0091);
    let f = OptionEpbFlags::new(PacketDirection::Inbound, ReceptionType::Promiscuous, None, 0);
    assert_eq!(f.flags, 0b1_0001);
    assert_eq!(OptionEpbFlags::from_u32(7).flags, 7);
}

#[test]
fn end_of_opt_encode() {
    let opt = OptionEndOfOpt::new_option();
    let mut buf = vec![];
    opt.encode(Endianness::Big, &mut buf);
    assert_eq!(buf, [0, 0, 0, 0]);
}

#[test]
fn option_list_length_matches_bytes() {
    // the list's computed length equals the bytes produced, and re-summing
    // the encoded bytes option by option reproduces the same total
    let mut opts = Options::new();
    opts.add_option(OptionComment::new_option("hello").unwrap());
    opts.add_option(OptionEpbFlags::new_option(
        PacketDirection::Outbound,
        ReceptionType::Unicast,
        None,
        0,
    ));
    opts.add_option(OptionEndOfOpt::new_option());
    let total = opts.length();
    assert_eq!(total, (4 + 5 + 3) + (4 + 4) + 4);
    for e in [Endianness::Little, Endianness::Big] {
        let mut buf = vec![];
        opts.encode(e, &mut buf);
        assert_eq!(buf.len() as u32, total);
        // independent re-summation from the encoded headers
        let mut at = 0usize;
        let mut resum = 0u32;
        while at < buf.len() {
            let len = match e {
                Endianness::Little => u16::from_le_bytes([buf[at + 2], buf[at + 3]]),
                Endianness::Big => u16::from_be_bytes([buf[at + 2], buf[at + 3]]),
            } as usize;
            let pad = (4 - len % 4) % 4;
            resum += (4 + len + pad) as u32;
            at += 4 + len + pad;
        }
        assert_eq!(resum, total);
    }
}

#[test]
fn option_codes() {
    assert_eq!(OptionEndOfOpt::new_option().code(), 0);
    assert_eq!(OptionComment::new_option("x").unwrap().code(), 1);
    assert_eq!(OptionIfName::new_option("eth0").unwrap().code(), 2);
    assert_eq!(OptionIfDescription::new_option("d").unwrap().code(), 3);
    assert_eq!(OptionIfIpv4Addr::new_option([0; 4], [0; 4]).code(), 4);
    assert_eq!(OptionIfIpv6Addr::new_option([0; 16], 0).code(), 5);
    assert_eq!(OptionIfMacAddr::new_option("0.0.0.0.0.0").unwrap().code(), 6);
    assert_eq!(
        OptionIfTsResol::new_option(&TimestampResolution::PowerOfTen(9)).code(),
        9
    );
    assert_eq!(BlockOption::ShbHardware.code(), 2);
    assert_eq!(
        OptionEpbFlags::new_option(PacketDirection::Unknown, ReceptionType::Unspecified, None, 0)
            .code(),
        2
    );
}
