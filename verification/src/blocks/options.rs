//! The pcapng options sub-format.
//!
//! An option is a typed, length-prefixed attribute attached to a block:
//! `code(2) | length(2) | value | pad_to_4`.  Codes are reused across block
//! kinds, so an option code is only meaningful in the context of its block.
//! An ordered option list is encoded back to back, in insertion order, with
//! no separator beyond the implicit padding.  The designated end-of-options
//! sentinel (code 0, length 0) is not appended automatically: callers add
//! it explicitly when the consuming reader requires termination.

use crate::encoding::{lemma_u16_bytes_len, lemma_u32_bytes_len, put_bytes, put_u16, put_u32,
    put_zero_bytes, u16_bytes, u32_bytes, zero_bytes};
use crate::enums::{PacketDirection, ReceptionType};
use crate::text::{mac_octets, mac_text_valid, parse_mac_text};
use crate::utils::{lemma_pad_len, pad_len, pad_to_32, TimestampResolution};
use crate::writer::{Encodable, Endianness};
use vstd::prelude::*;
use vstd::string::{StrSliceExecFns, StringSliceAdditionalSpecFns};

verus! {

broadcast use lemma_u16_bytes_len, lemma_u32_bytes_len;

/// A recoverable option-construction failure: a supplied value does not fit
/// its wire field.
#[derive(Clone, Copy, Debug, PartialEq, Eq, Structural)]
pub enum OptionError {
    /// The UTF-8 byte length of a text value exceeds the 16-bit length field.
    ValueTooLong,
    /// An address string does not match the expected textual form.
    MalformedAddress,
}

/// A raw option: a caller-supplied code, declared length and value bytes,
/// written verbatim.  The declared length and the value's byte count are
/// independent, so byte-exact fixtures — including inconsistent ones — can
/// be spliced into an option list.
#[derive(Clone, Debug)]
pub struct RawOption {
    pub code: u16,
    pub length: u16,
    pub value: Vec<u8>,
}

/// The opt_endofopt option: delimits the end of the optional fields.
#[derive(Clone, Debug)]
pub struct OptionEndOfOpt;

/// The opt_comment option: a UTF-8 comment associated to the current block,
/// held as its UTF-8 bytes.
#[derive(Clone, Debug)]
pub struct OptionComment {
    pub comment: Vec<u8>,
}

/// The if_name option: the name of the capture device, held as its UTF-8
/// bytes.
#[derive(Clone, Debug)]
pub struct OptionIfName {
    pub if_name: Vec<u8>,
}

/// The if_description option: the description of the capture device, held
/// as its UTF-8 bytes.
#[derive(Clone, Debug)]
pub struct OptionIfDescription {
    pub if_description: Vec<u8>,
}

/// The if_IPv4addr option: an IPv4 address and netmask, four octets each,
/// written verbatim in either byte order.
#[derive(Clone, Debug)]
pub struct OptionIfIpv4Addr {
    pub ip: [u8; 4],
    pub netmask: [u8; 4],
}

/// The if_IPv6addr option: an IPv6 address, sixteen octets, followed by the
/// prefix length.
#[derive(Clone, Debug)]
pub struct OptionIfIpv6Addr {
    pub ip: [u8; 16],
    pub prefix_len: u8,
}

/// The if_MACaddr option: the interface's 48-bit hardware address.
#[derive(Clone, Debug)]
pub struct OptionIfMacAddr {
    pub mac_addr: [u8; 6],
}

/// The if_tsresol option: the single-byte timestamp-resolution code.
#[derive(Clone, Debug)]
pub struct OptionIfTsResol {
    pub tsresol: u8,
}

/// The epb_flags option: a 32-bit flags word of link-layer information.
#[derive(Clone, Debug)]
pub struct OptionEpbFlags {
    pub flags: u32,
}

/// One option of a block, fully qualified by the block kind it belongs to.
/// Variants without a payload are recognized codes that have no encoding
/// rule here; encoding them is refused rather than silently skipped, which
/// would desynchronize the length accounting from the bytes written.
#[derive(Clone, Debug)]
pub enum BlockOption {
    OptEndOfOpt(OptionEndOfOpt),
    OptComment(OptionComment),
    OptCustom(u16),
    ShbHardware,
    ShbOs,
    ShbUserAppl,
    IfName(OptionIfName),
    IfDescription(OptionIfDescription),
    IfIpv4Addr(OptionIfIpv4Addr),
    IfIpv6Addr(OptionIfIpv6Addr),
    IfMacAddr(OptionIfMacAddr),
    IfEuiAddr,
    IfSpeed,
    IfTsResol(OptionIfTsResol),
    IfTZone,
    IfFilter,
    IfOs,
    IfFcsLen,
    IfTsOffset,
    IfHardware,
    EpbFlags(OptionEpbFlags),
    EpbHash,
    EpbDropCount,
    Raw(RawOption),
}

impl BlockOption {
    /// The 16-bit option code.  Codes are reused across block kinds: code 2
    /// is shb_hardware in a Section Header but if_name in an Interface
    /// Description.
    pub open spec fn spec_code(self) -> u16 {
        match self {
            Self::OptEndOfOpt(_) => 0,
            Self::OptComment(_) => 1,
            Self::OptCustom(x) => x,
            Self::ShbHardware => 2,
            Self::ShbOs => 3,
            Self::ShbUserAppl => 4,
            Self::IfName(_) => 2,
            Self::IfDescription(_) => 3,
            Self::IfIpv4Addr(_) => 4,
            Self::IfIpv6Addr(_) => 5,
            Self::IfMacAddr(_) => 6,
            Self::IfEuiAddr => 7,
            Self::IfSpeed => 8,
            Self::IfTsResol(_) => 9,
            Self::IfTZone => 10,
            Self::IfFilter => 11,
            Self::IfOs => 12,
            Self::IfFcsLen => 13,
            Self::IfTsOffset => 14,
            Self::IfHardware => 15,
            Self::EpbFlags(_) => 2,
            Self::EpbHash => 3,
            Self::EpbDropCount => 4,
            Self::Raw(r) => r.code,
        }
    }

    /// The declared option length: the byte length of the value for every
    /// variant with an encoding rule, except a raw option, whose declared
    /// length is supplied by the caller.
    pub open spec fn spec_length(self) -> int {
        match self {
            Self::OptEndOfOpt(_) => 0,
            Self::OptComment(c) => c.comment@.len() as int,
            Self::IfName(n) => n.if_name@.len() as int,
            Self::IfDescription(d) => d.if_description@.len() as int,
            Self::IfIpv4Addr(_) => 8,
            Self::IfIpv6Addr(_) => 17,
            Self::IfMacAddr(_) => 6,
            Self::IfTsResol(_) => 1,
            Self::EpbFlags(_) => 4,
            Self::Raw(r) => r.length as int,
            _ => 0,
        }
    }

    /// The value bytes of the option.  Only the epb_flags word depends on
    /// the byte order; addresses are octet strings and are written verbatim.
    pub open spec fn value_bytes(self, e: Endianness) -> Seq<u8> {
        match self {
            Self::OptEndOfOpt(_) => Seq::empty(),
            Self::OptComment(c) => c.comment@,
            Self::IfName(n) => n.if_name@,
            Self::IfDescription(d) => d.if_description@,
            Self::IfIpv4Addr(a) => a.ip@ + a.netmask@,
            Self::IfIpv6Addr(a) => a.ip@ + seq![a.prefix_len],
            Self::IfMacAddr(m) => m.mac_addr@,
            Self::IfTsResol(t) => seq![t.tsresol],
            Self::EpbFlags(f) => u32_bytes(e, f.flags),
            Self::Raw(r) => r.value@,
            _ => Seq::empty(),
        }
    }

    /// The variant has an encoding rule and its declared length fits the
    /// 16-bit length field.
    pub open spec fn has_encoding(self) -> bool {
        match self {
            Self::OptEndOfOpt(_) | Self::OptComment(_) | Self::IfName(_) | Self::IfDescription(_)
                | Self::IfIpv4Addr(_) | Self::IfIpv6Addr(_) | Self::IfMacAddr(_)
                | Self::IfTsResol(_) | Self::EpbFlags(_) | Self::Raw(_) => true,
            _ => false,
        }
    }

    /// The declared length agrees with the value bytes.  This holds by
    /// construction of every variant except a raw option, where the two are
    /// independently supplied.
    pub open spec fn len_matches_value(self) -> bool {
        match self {
            Self::Raw(r) => r.value@.len() == r.length,
            _ => true,
        }
    }

    /// The total encoded length of the option: header, declared value
    /// length and padding.
    pub open spec fn enc_len(self) -> int {
        4 + self.spec_length() + pad_len(self.spec_length())
    }

    /// Returns the option's 16-bit code.  A raw option embeds its own
    /// header and has no code of its own.
    pub fn code(&self) -> (r: u16)
        requires
            !(self is Raw),
        ensures
            r == self.spec_code(),
    {
        match self {
            Self::OptEndOfOpt(_) => 0,
            Self::OptComment(_) => 1,
            Self::OptCustom(x) => *x,
            Self::ShbHardware => 2,
            Self::ShbOs => 3,
            Self::ShbUserAppl => 4,
            Self::IfName(_) => 2,
            Self::IfDescription(_) => 3,
            Self::IfIpv4Addr(_) => 4,
            Self::IfIpv6Addr(_) => 5,
            Self::IfMacAddr(_) => 6,
            Self::IfEuiAddr => 7,
            Self::IfSpeed => 8,
            Self::IfTsResol(_) => 9,
            Self::IfTZone => 10,
            Self::IfFilter => 11,
            Self::IfOs => 12,
            Self::IfFcsLen => 13,
            Self::IfTsOffset => 14,
            Self::IfHardware => 15,
            Self::EpbFlags(_) => 2,
            Self::EpbHash => 3,
            Self::EpbDropCount => 4,
            Self::Raw(_) => 0,
        }
    }

    /// Returns the declared option length.
    pub fn length(&self) -> (r: u16)
        requires
            self.wf(),
        ensures
            r as int == self.spec_length(),
    {
        match self {
            Self::OptEndOfOpt(o) => o.length(),
            Self::OptComment(o) => o.length(),
            Self::IfName(o) => o.length(),
            Self::IfDescription(o) => o.length(),
            Self::IfIpv4Addr(o) => o.length(),
            Self::IfIpv6Addr(o) => o.length(),
            Self::IfMacAddr(o) => o.length(),
            Self::IfTsResol(o) => o.length(),
            Self::EpbFlags(o) => o.length(),
            Self::Raw(r) => r.length,
            _ => 0,
        }
    }

    /// Returns the option's value bytes.
    pub fn bytes(&self, e: Endianness) -> (r: Vec<u8>)
        requires
            self.wf(),
        ensures
            r@ == self.value_bytes(e),
    {
        match self {
            Self::OptEndOfOpt(o) => o.bytes(e),
            Self::OptComment(o) => o.bytes(e),
            Self::IfName(o) => o.bytes(e),
            Self::IfDescription(o) => o.bytes(e),
            Self::IfIpv4Addr(o) => o.bytes(e),
            Self::IfIpv6Addr(o) => o.bytes(e),
            Self::IfMacAddr(o) => o.bytes(e),
            Self::IfTsResol(o) => o.bytes(e),
            Self::EpbFlags(o) => o.bytes(e),
            Self::Raw(r) => {
                let mut v: Vec<u8> = Vec::new();
                put_bytes(&mut v, &r.value);
                v
            },
            _ => Vec::new(),
        }
    }

    /// Returns the option's zero-valued padding: the bytes that bring the
    /// declared length to the next 32-bit boundary.
    pub fn padding(&self) -> (r: Vec<u8>)
        requires
            self.wf(),
        ensures
            r@ == zero_bytes(pad_len(self.spec_length())),
    {
        let n = pad_to_32(self.length() as usize);
        let mut v: Vec<u8> = Vec::new();
        put_zero_bytes(&mut v, n);
        v
    }

    /// Returns whether the declared length agrees with the value bytes.
    pub fn check_len_matches(&self) -> (b: bool)
        ensures
            b == self.len_matches_value(),
    {
        match self {
            Self::Raw(r) => r.value.len() == r.length as usize,
            _ => true,
        }
    }
}

impl Encodable for BlockOption {
    open spec fn wf(&self) -> bool {
        &&& self.has_encoding()
        &&& self.spec_length() <= 0xFFFF
    }

    open spec fn encoding(&self, e: Endianness) -> Seq<u8> {
        u16_bytes(e, self.spec_code()) + u16_bytes(e, self.spec_length() as u16) + self.value_bytes(
            e,
        ) + zero_bytes(pad_len(self.spec_length()))
    }

    fn check_wf(&self) -> (b: bool) {
        match self {
            Self::OptEndOfOpt(_) | Self::IfIpv4Addr(_) | Self::IfIpv6Addr(_) | Self::IfMacAddr(_)
                | Self::IfTsResol(_) | Self::EpbFlags(_) | Self::Raw(_) => true,
            Self::OptComment(c) => c.comment.len() <= 0xFFFF,
            Self::IfName(n) => n.if_name.len() <= 0xFFFF,
            Self::IfDescription(d) => d.if_description.len() <= 0xFFFF,
            _ => false,
        }
    }

    fn encode(&self, e: Endianness, out: &mut Vec<u8>) {
        match self {
            Self::Raw(r) => {
                let header_and_value = r.bytes(e);
                put_bytes(out, &header_and_value);
                let pad = pad_to_32(r.length as usize);
                put_zero_bytes(out, pad);
            },
            _ => {
                put_u16(out, e, self.code());
                put_u16(out, e, self.length());
                let value = self.bytes(e);
                put_bytes(out, &value);
                let pad = pad_to_32(self.length() as usize);
                put_zero_bytes(out, pad);
            },
        }
        proof {
            assert(out@ =~= old(out)@ + self.encoding(e));
        }
    }
}

/// Every option of the list has an encoding rule and fits its wire fields.
pub open spec fn options_wf(s: Seq<BlockOption>) -> bool {
    forall|i: int| 0 <= i < s.len() ==> (#[trigger] s[i]).wf()
}

/// Every option's declared length agrees with its value bytes.
pub open spec fn options_len_consistent(s: Seq<BlockOption>) -> bool {
    forall|i: int| 0 <= i < s.len() ==> (#[trigger] s[i]).len_matches_value()
}

/// The summed encoded length of an option list: for each option, its value
/// length plus its padding plus the four header bytes.
pub open spec fn options_enc_len(s: Seq<BlockOption>) -> int
    decreases s.len(),
{
    if s.len() == 0 {
        0
    } else {
        options_enc_len(s.drop_last()) + s.last().enc_len()
    }
}

/// The byte sequence of an option list encoded back to back, in order.
pub open spec fn options_encoding(s: Seq<BlockOption>, e: Endianness) -> Seq<u8>
    decreases s.len(),
{
    if s.len() == 0 {
        Seq::empty()
    } else {
        options_encoding(s.drop_last(), e) + s.last().encoding(e)
    }
}

/// An option occupies at least its four header bytes, and its padding is
/// at most three bytes.
pub proof fn lemma_option_enc_len_bounds(o: BlockOption)
    ensures
        o.spec_length() >= 0,
        0 <= pad_len(o.spec_length()) <= 3,
        o.enc_len() >= 4,
{
    lemma_pad_len(o.spec_length());
}

/// A prefix of an option list never encodes to more bytes than the whole.
pub proof fn lemma_options_enc_len_prefix(s: Seq<BlockOption>, i: int)
    requires
        0 <= i <= s.len(),
    ensures
        options_enc_len(s.take(i)) <= options_enc_len(s),
    decreases s.len(),
{
    if i == s.len() {
        assert(s.take(i) =~= s);
    } else {
        assert(s.drop_last().take(i) =~= s.take(i));
        lemma_options_enc_len_prefix(s.drop_last(), i);
        lemma_option_enc_len_bounds(s.last());
    }
}

/// Option-list lengths are never negative.
pub proof fn lemma_options_enc_len_nonneg(s: Seq<BlockOption>)
    ensures
        options_enc_len(s) >= 0,
{
    lemma_options_enc_len_prefix(s, 0);
    assert(s.take(0) =~= Seq::<BlockOption>::empty());
}

/// One well-formed, consistent option encodes to exactly its accounted
/// length.
pub proof fn lemma_option_encoding_len(o: BlockOption, e: Endianness)
    requires
        o.wf(),
        o.len_matches_value(),
    ensures
        o.encoding(e).len() == o.enc_len(),
{
    lemma_option_enc_len_bounds(o);
    match o {
        BlockOption::EpbFlags(f) => {
            assert(o.value_bytes(e).len() == 4);
        },
        _ => {},
    }
}

/// The encoded option list's byte length equals the sum over its options of
/// value length, padding and the four header bytes.
pub proof fn lemma_options_encoding_len(s: Seq<BlockOption>, e: Endianness)
    requires
        options_wf(s),
        options_len_consistent(s),
    ensures
        options_encoding(s, e).len() == options_enc_len(s),
    decreases s.len(),
{
    if s.len() > 0 {
        assert(forall|i: int|
            0 <= i < s.len() - 1 ==> #[trigger] s.drop_last()[i] == s[i]);
        lemma_options_encoding_len(s.drop_last(), e);
        lemma_option_encoding_len(s.last(), e);
    }
}

/// Option codes are reused across block kinds: an Interface Description's
/// if_name option and a Section Header's shb_hardware option carry the same
/// code field, 2, and so does an Enhanced Packet's epb_flags option.  Only
/// the surrounding block disambiguates them.
pub proof fn lemma_option_code_reuse(n: OptionIfName, f: OptionEpbFlags)
    ensures
        BlockOption::IfName(n).spec_code() == 2,
        BlockOption::ShbHardware.spec_code() == 2,
        BlockOption::EpbFlags(f).spec_code() == 2,
{
}

/// An ordered option list.  Order is caller-significant and preserved
/// verbatim in the output; duplicates are permitted.  The list owns its
/// options.
#[derive(Clone, Debug)]
pub struct Options {
    pub opts: Vec<BlockOption>,
}

impl Options {
    /// Creates an empty option list.
    pub fn new() -> (r: Options)
        ensures
            r.opts@ == Seq::<BlockOption>::empty(),
    {
        Options { opts: Vec::new() }
    }

    /// Appends an option to the end of the list.
    pub fn add_option(&mut self, opt: BlockOption)
        ensures
            final(self).opts@ == old(self).opts@.push(opt),
    {
        self.opts.push(opt);
    }

    /// Returns the total encoded byte length of the list: the sum over its
    /// options of declared length, padding and the four header bytes.
    pub fn length(&self) -> (r: u32)
        requires
            options_wf(self.opts@),
            options_enc_len(self.opts@) <= u32::MAX,
        ensures
            r as int == options_enc_len(self.opts@),
    {
        let opts = &self.opts;
        let mut total: u32 = 0;
        let mut i: usize = 0;
        proof {
            assert(opts@.take(0) =~= Seq::<BlockOption>::empty());
        }
        while i < opts.len()
            invariant
                i <= opts@.len(),
                options_wf(opts@),
                options_enc_len(opts@) <= u32::MAX,
                total as int == options_enc_len(opts@.take(i as int)),
            decreases opts@.len() - i,
        {
            let l = opts[i].length();
            let pad = pad_to_32(l as usize);
            proof {
                assert(opts@.take(i + 1).drop_last() =~= opts@.take(i as int));
                assert(opts@.take(i + 1).last() == opts@[i as int]);
                lemma_options_enc_len_prefix(opts@, i + 1);
                lemma_option_enc_len_bounds(opts@[i as int]);
            }
            total = total + 4 + l as u32 + pad as u32;
            i = i + 1;
        }
        proof {
            assert(opts@.take(opts@.len() as int) =~= opts@);
        }
        total
    }

    /// Returns the total encoded byte length of the list if it fits the
    /// 32-bit length fields, and nothing otherwise.
    pub fn try_length(&self) -> (r: Option<u32>)
        requires
            options_wf(self.opts@),
        ensures
            r matches Some(n) ==> options_enc_len(self.opts@) <= u32::MAX && n as int
                == options_enc_len(self.opts@),
            r is None ==> options_enc_len(self.opts@) > u32::MAX,
    {
        let mut total: u64 = 0;
        let mut i: usize = 0;
        proof {
            assert(self.opts@.take(0) =~= Seq::<BlockOption>::empty());
        }
        while i < self.opts.len()
            invariant
                i <= self.opts@.len(),
                options_wf(self.opts@),
                total <= u32::MAX,
                total as int == options_enc_len(self.opts@.take(i as int)),
            decreases self.opts@.len() - i,
        {
            let l = self.opts[i].length();
            let pad = pad_to_32(l as usize);
            proof {
                assert(self.opts@.take(i + 1).drop_last() =~= self.opts@.take(i as int));
                assert(self.opts@.take(i + 1).last() == self.opts@[i as int]);
                lemma_option_enc_len_bounds(self.opts@[i as int]);
            }
            total = total + 4 + l as u64 + pad as u64;
            if total > 0xFFFF_FFFF {
                proof {
                    assert(total as int == options_enc_len(self.opts@.take(i + 1)));
                    lemma_options_enc_len_prefix(self.opts@, i + 1);
                    assert(options_enc_len(self.opts@) > u32::MAX);
                }
                return None;
            }
            i = i + 1;
        }
        proof {
            assert(self.opts@.take(self.opts@.len() as int) =~= self.opts@);
        }
        Some(total as u32)
    }

    /// Returns whether every option's declared length agrees with its value
    /// bytes.
    pub fn check_len_consistent(&self) -> (b: bool)
        ensures
            b == options_len_consistent(self.opts@),
    {
        let mut i: usize = 0;
        while i < self.opts.len()
            invariant
                i <= self.opts@.len(),
                forall|j: int| 0 <= j < i ==> (#[trigger] self.opts@[j]).len_matches_value(),
            decreases self.opts@.len() - i,
        {
            if !self.opts[i].check_len_matches() {
                proof {
                    assert(!(self.opts@[i as int].len_matches_value()));
                    assert(!options_len_consistent(self.opts@));
                }
                return false;
            }
            i = i + 1;
        }
        true
    }

    /// Empties the list.
    pub fn clear(&mut self)
        ensures
            final(self).opts@ == Seq::<BlockOption>::empty(),
    {
        self.opts.clear();
    }
}

impl Encodable for Options {
    open spec fn wf(&self) -> bool {
        options_wf(self.opts@)
    }

    open spec fn encoding(&self, e: Endianness) -> Seq<u8> {
        options_encoding(self.opts@, e)
    }

    fn check_wf(&self) -> (b: bool) {
        let mut i: usize = 0;
        while i < self.opts.len()
            invariant
                i <= self.opts@.len(),
                forall|j: int| 0 <= j < i ==> (#[trigger] self.opts@[j]).wf(),
            decreases self.opts@.len() - i,
        {
            if !self.opts[i].check_wf() {
                proof {
                    assert(!(self.opts@[i as int].wf()));
                    assert(!options_wf(self.opts@));
                }
                return false;
            }
            i = i + 1;
        }
        true
    }

    fn encode(&self, e: Endianness, out: &mut Vec<u8>) {
        let opts = &self.opts;
        let mut i: usize = 0;
        proof {
            assert(opts@.take(0) =~= Seq::<BlockOption>::empty());
            assert(out@ =~= out@ + options_encoding(opts@.take(0), e));
        }
        while i < opts.len()
            invariant
                i <= opts@.len(),
                options_wf(opts@),
                out@ == old(out)@ + options_encoding(opts@.take(i as int), e),
            decreases opts@.len() - i,
        {
            opts[i].encode(e, out);
            proof {
                assert(opts@.take(i + 1).drop_last() =~= opts@.take(i as int));
                assert(opts@.take(i + 1).last() == opts@[i as int]);
                assert(out@ =~= old(out)@ + options_encoding(opts@.take(i + 1), e));
            }
            i = i + 1;
        }
        proof {
            assert(opts@.take(opts@.len() as int) =~= opts@);
        }
    }
}

impl RawOption {
    /// Builds a raw option from a code, an independently declared length
    /// and the value bytes.
    pub fn new(code: u16, length: u16, value: Vec<u8>) -> (r: RawOption)
        ensures
            r.code == code,
            r.length == length,
            r.value@ == value@,
    {
        RawOption { code, length, value }
    }

    /// Returns the raw option's header and value bytes: the stored code and
    /// declared length, then the value verbatim.
    pub fn bytes(&self, e: Endianness) -> (r: Vec<u8>)
        ensures
            r@ == u16_bytes(e, self.code) + u16_bytes(e, self.length) + self.value@,
    {
        let mut buf: Vec<u8> = Vec::new();
        put_u16(&mut buf, e, self.code);
        put_u16(&mut buf, e, self.length);
        put_bytes(&mut buf, &self.value);
        proof {
            assert(buf@ =~= u16_bytes(e, self.code) + u16_bytes(e, self.length) + self.value@);
        }
        buf
    }
}

impl OptionEndOfOpt {
    /// Creates the end-of-options sentinel.
    pub fn new() -> (r: Self) {
        OptionEndOfOpt
    }

    /// Creates the end-of-options sentinel as a block option.
    pub fn new_option() -> (r: BlockOption)
        ensures
            r matches BlockOption::OptEndOfOpt(_),
    {
        BlockOption::OptEndOfOpt(Self::new())
    }

    /// Returns the declared length: the sentinel carries no value.
    pub fn length(&self) -> (r: u16)
        ensures
            r == 0,
    {
        0
    }

    /// Returns the value bytes: none.
    pub fn bytes(&self, e: Endianness) -> (r: Vec<u8>)
        ensures
            r@ == Seq::<u8>::empty(),
    {
        Vec::new()
    }
}

impl OptionComment {
    /// Builds a comment option from UTF-8 text.  Fails when the text's byte
    /// length exceeds the 16-bit length field.
    pub fn new(comment: &str) -> (r: Result<Self, OptionError>)
        ensures
            r is Ok <==> comment.spec_bytes().len() <= 0xFFFF,
            r matches Ok(o) ==> o.comment@ == comment.spec_bytes(),
            r matches Err(x) ==> x == OptionError::ValueTooLong,
    {
        let bytes = comment.as_bytes_vec();
        if bytes.len() <= 0xFFFF {
            Ok(Self { comment: bytes })
        } else {
            Err(OptionError::ValueTooLong)
        }
    }

    /// Builds a comment option as a block option.
    pub fn new_option(comment: &str) -> (r: Result<BlockOption, OptionError>)
        ensures
            r is Ok <==> comment.spec_bytes().len() <= 0xFFFF,
            r matches Ok(o) ==> (o matches BlockOption::OptComment(c) && c.comment@
                == comment.spec_bytes()),
            r matches Err(x) ==> x == OptionError::ValueTooLong,
    {
        match Self::new(comment) {
            Ok(o) => Ok(BlockOption::OptComment(o)),
            Err(x) => Err(x),
        }
    }

    /// Returns the declared length: the comment's UTF-8 byte length.
    pub fn length(&self) -> (r: u16)
        requires
            self.comment@.len() <= 0xFFFF,
        ensures
            r as int == self.comment@.len(),
    {
        self.comment.len() as u16
    }

    /// Returns the value bytes: the comment's UTF-8 bytes, not
    /// zero-terminated.
    pub fn bytes(&self, e: Endianness) -> (r: Vec<u8>)
        ensures
            r@ == self.comment@,
    {
        let mut v: Vec<u8> = Vec::new();
        put_bytes(&mut v, &self.comment);
        v
    }
}

impl OptionIfName {
    /// Builds an interface-name option from UTF-8 text.  Fails when the
    /// text's byte length exceeds the 16-bit length field.
    pub fn new(name: &str) -> (r: Result<Self, OptionError>)
        ensures
            r is Ok <==> name.spec_bytes().len() <= 0xFFFF,
            r matches Ok(o) ==> o.if_name@ == name.spec_bytes(),
            r matches Err(x) ==> x == OptionError::ValueTooLong,
    {
        let bytes = name.as_bytes_vec();
        if bytes.len() <= 0xFFFF {
            Ok(Self { if_name: bytes })
        } else {
            Err(OptionError::ValueTooLong)
        }
    }

    /// Builds an interface-name option as a block option.
    pub fn new_option(name: &str) -> (r: Result<BlockOption, OptionError>)
        ensures
            r is Ok <==> name.spec_bytes().len() <= 0xFFFF,
            r matches Ok(o) ==> (o matches BlockOption::IfName(n) && n.if_name@
                == name.spec_bytes()),
            r matches Err(x) ==> x == OptionError::ValueTooLong,
    {
        match Self::new(name) {
            Ok(o) => Ok(BlockOption::IfName(o)),
            Err(x) => Err(x),
        }
    }

    /// Returns the declared length: the name's UTF-8 byte length.
    pub fn length(&self) -> (r: u16)
        requires
            self.if_name@.len() <= 0xFFFF,
        ensures
            r as int == self.if_name@.len(),
    {
        self.if_name.len() as u16
    }

    /// Returns the value bytes: the name's UTF-8 bytes, not zero-terminated.
    pub fn bytes(&self, e: Endianness) -> (r: Vec<u8>)
        ensures
            r@ == self.if_name@,
    {
        let mut v: Vec<u8> = Vec::new();
        put_bytes(&mut v, &self.if_name);
        v
    }
}

impl OptionIfDescription {
    /// Builds an interface-description option from UTF-8 text.  Fails when
    /// the text's byte length exceeds the 16-bit length field.
    pub fn new(description: &str) -> (r: Result<Self, OptionError>)
        ensures
            r is Ok <==> description.spec_bytes().len() <= 0xFFFF,
            r matches Ok(o) ==> o.if_description@ == description.spec_bytes(),
            r matches Err(x) ==> x == OptionError::ValueTooLong,
    {
        let bytes = description.as_bytes_vec();
        if bytes.len() <= 0xFFFF {
            Ok(Self { if_description: bytes })
        } else {
            Err(OptionError::ValueTooLong)
        }
    }

    /// Builds an interface-description option as a block option.
    pub fn new_option(description: &str) -> (r: Result<BlockOption, OptionError>)
        ensures
            r is Ok <==> description.spec_bytes().len() <= 0xFFFF,
            r matches Ok(o) ==> (o matches BlockOption::IfDescription(d) && d.if_description@
                == description.spec_bytes()),
            r matches Err(x) ==> x == OptionError::ValueTooLong,
    {
        match Self::new(description) {
            Ok(o) => Ok(BlockOption::IfDescription(o)),
            Err(x) => Err(x),
        }
    }

    /// Returns the declared length: the description's UTF-8 byte length.
    pub fn length(&self) -> (r: u16)
        requires
            self.if_description@.len() <= 0xFFFF,
        ensures
            r as int == self.if_description@.len(),
    {
        self.if_description.len() as u16
    }

    /// Returns the value bytes: the description's UTF-8 bytes, not
    /// zero-terminated.
    pub fn bytes(&self, e: Endianness) -> (r: Vec<u8>)
        ensures
            r@ == self.if_description@,
    {
        let mut v: Vec<u8> = Vec::new();
        put_bytes(&mut v, &self.if_description);
        v
    }
}

impl OptionIfIpv4Addr {
    /// Builds an IPv4-address option from an address and a netmask, four
    /// octets each.
    pub fn new(ip: [u8; 4], netmask: [u8; 4]) -> (r: Self)
        ensures
            r.ip == ip,
            r.netmask == netmask,
    {
        Self { ip, netmask }
    }

    /// Builds an IPv4-address option as a block option.
    pub fn new_option(ip: [u8; 4], netmask: [u8; 4]) -> (r: BlockOption)
        ensures
            r matches BlockOption::IfIpv4Addr(a) && a.ip == ip && a.netmask == netmask,
    {
        BlockOption::IfIpv4Addr(Self::new(ip, netmask))
    }

    /// Returns the declared length: four address octets and four netmask
    /// octets.
    pub fn length(&self) -> (r: u16)
        ensures
            r == 8,
    {
        4 + 4
    }

    /// Returns the value bytes: the address octets, then the netmask
    /// octets.  Both are octet strings, unaffected by the byte order.
    pub fn bytes(&self, e: Endianness) -> (r: Vec<u8>)
        ensures
            r@ == self.ip@ + self.netmask@,
    {
        let mut v: Vec<u8> = Vec::new();
        let mut i: usize = 0;
        while i < 4
            invariant
                i <= 4,
                v@ == self.ip@.take(i as int),
            decreases 4 - i,
        {
            v.push(self.ip[i]);
            proof {
                assert(self.ip@.take(i + 1) =~= self.ip@.take(i as int).push(self.ip@[i as int]));
            }
            i = i + 1;
        }
        let mut j: usize = 0;
        while j < 4
            invariant
                j <= 4,
                v@ == self.ip@.take(4) + self.netmask@.take(j as int),
            decreases 4 - j,
        {
            v.push(self.netmask[j]);
            proof {
                assert(self.netmask@.take(j + 1) =~= self.netmask@.take(j as int).push(
                    self.netmask@[j as int],
                ));
            }
            j = j + 1;
        }
        proof {
            assert(self.ip@.take(4) =~= self.ip@);
            assert(self.netmask@.take(4) =~= self.netmask@);
        }
        v
    }
}

impl OptionIfIpv6Addr {
    /// Builds an IPv6-address option from sixteen address octets and a
    /// prefix length.
    pub fn new(ip: [u8; 16], prefix_len: u8) -> (r: Self)
        ensures
            r.ip == ip,
            r.prefix_len == prefix_len,
    {
        Self { ip, prefix_len }
    }

    /// Builds an IPv6-address option as a block option.
    pub fn new_option(ip: [u8; 16], prefix_len: u8) -> (r: BlockOption)
        ensures
            r matches BlockOption::IfIpv6Addr(a) && a.ip == ip && a.prefix_len == prefix_len,
    {
        BlockOption::IfIpv6Addr(Self::new(ip, prefix_len))
    }

    /// Returns the declared length: sixteen address octets and the prefix
    /// byte.
    pub fn length(&self) -> (r: u16)
        ensures
            r == 17,
    {
        16 + 1
    }

    /// Returns the value bytes: the address octets, then the prefix length.
    pub fn bytes(&self, e: Endianness) -> (r: Vec<u8>)
        ensures
            r@ == self.ip@ + seq![self.prefix_len],
    {
        let mut v: Vec<u8> = Vec::new();
        let mut i: usize = 0;
        while i < 16
            invariant
                i <= 16,
                v@ == self.ip@.take(i as int),
            decreases 16 - i,
        {
            v.push(self.ip[i]);
            proof {
                assert(self.ip@.take(i + 1) =~= self.ip@.take(i as int).push(self.ip@[i as int]));
            }
            i = i + 1;
        }
        v.push(self.prefix_len);
        proof {
            assert(self.ip@.take(16) =~= self.ip@);
            assert(v@ =~= self.ip@ + seq![self.prefix_len]);
        }
        v
    }
}

impl OptionIfMacAddr {
    /// Builds a hardware-address option from dotted-decimal text such as
    /// `0.1.2.3.4.5`.  Fails when the text does not hold exactly six
    /// dot-separated decimal octets.
    pub fn new(mac_addr: &str) -> (r: Result<Self, OptionError>)
        ensures
            r is Ok <==> mac_text_valid(mac_addr.spec_bytes()),
            r matches Ok(o) ==> o.mac_addr@ == mac_octets(mac_addr.spec_bytes()),
            r matches Err(x) ==> x == OptionError::MalformedAddress,
    {
        let bytes = mac_addr.as_bytes_vec();
        match parse_mac_text(&bytes) {
            Some(m) => Ok(Self { mac_addr: m }),
            None => Err(OptionError::MalformedAddress),
        }
    }

    /// Builds a hardware-address option as a block option.
    pub fn new_option(mac_addr: &str) -> (r: Result<BlockOption, OptionError>)
        ensures
            r is Ok <==> mac_text_valid(mac_addr.spec_bytes()),
            r matches Ok(o) ==> (o matches BlockOption::IfMacAddr(m) && m.mac_addr@ == mac_octets(
                mac_addr.spec_bytes(),
            )),
            r matches Err(x) ==> x == OptionError::MalformedAddress,
    {
        match Self::new(mac_addr) {
            Ok(o) => Ok(BlockOption::IfMacAddr(o)),
            Err(x) => Err(x),
        }
    }

    /// Returns the declared length: the six octets of the address.
    pub fn length(&self) -> (r: u16)
        ensures
            r == 6,
    {
        6
    }

    /// Returns the value bytes: the address octets.
    pub fn bytes(&self, e: Endianness) -> (r: Vec<u8>)
        ensures
            r@ == self.mac_addr@,
    {
        let mut v: Vec<u8> = Vec::new();
        let mut i: usize = 0;
        while i < 6
            invariant
                i <= 6,
                v@ == self.mac_addr@.take(i as int),
            decreases 6 - i,
        {
            v.push(self.mac_addr[i]);
            proof {
                assert(self.mac_addr@.take(i + 1) =~= self.mac_addr@.take(i as int).push(
                    self.mac_addr@[i as int],
                ));
            }
            i = i + 1;
        }
        proof {
            assert(self.mac_addr@.take(6) =~= self.mac_addr@);
        }
        v
    }
}

impl OptionIfTsResol {
    /// Builds a timestamp-resolution option from the raw resolution code.
    pub fn new(tsresol: u8) -> (r: Self)
        ensures
            r.tsresol == tsresol,
    {
        Self { tsresol }
    }

    /// Builds a timestamp-resolution option from a resolution value.
    pub fn new_option(tsresol: &TimestampResolution) -> (r: BlockOption)
        ensures
            r matches BlockOption::IfTsResol(o) && o.tsresol == tsresol.spec_tsresol(),
    {
        BlockOption::IfTsResol(Self::new(tsresol.to_tsresol()))
    }

    /// Returns the declared length: the single resolution byte.
    pub fn length(&self) -> (r: u16)
        ensures
            r == 1,
    {
        1
    }

    /// Returns the value bytes: the resolution code.
    pub fn bytes(&self, e: Endianness) -> (r: Vec<u8>)
        ensures
            r@ == seq![self.tsresol],
    {
        let mut v: Vec<u8> = Vec::new();
        v.push(self.tsresol);
        proof {
            assert(v@ =~= seq![self.tsresol]);
        }
        v
    }
}

/// The 32-bit epb_flags word assembled from its fields: direction in bits
/// 0-1, reception type in bits 2-4, FCS length in bits 5-8 and the error
/// flags in the upper half.
pub open spec fn spec_epb_flags(
    dir: PacketDirection,
    reception: ReceptionType,
    fcs_length: Option<u8>,
    error_flags: u16,
) -> u32 {
    (dir.spec_value() & 0b11) as u32 | ((reception.spec_value() & 0b111) as u32) << 2 | ((
    match fcs_length {
        Some(x) => x & 0b1111,
        None => 0,
    }) as u32) << 5 | (error_flags as u32) << 16
}

impl OptionEpbFlags {
    /// Builds a flags option from its fields.
    pub fn new(
        dir: PacketDirection,
        reception: ReceptionType,
        fcs_length: Option<u8>,
        error_flags: u16,
    ) -> (r: Self)
        ensures
            r.flags == spec_epb_flags(dir, reception, fcs_length, error_flags),
    {
        let dir_bits = dir.value() & 0b11;
        let rec_bits = reception.value() & 0b111;
        let fcs_bits = match fcs_length {
            Some(x) => x & 0b1111,
            None => 0,
        };
        let flags: u32 = dir_bits as u32 | ((rec_bits as u32) << 2) | ((fcs_bits as u32) << 5) | ((
        error_flags as u32) << 16);
        Self { flags }
    }

    /// Builds a flags option as a block option.
    pub fn new_option(
        dir: PacketDirection,
        reception: ReceptionType,
        fcs_length: Option<u8>,
        error_flags: u16,
    ) -> (r: BlockOption)
        ensures
            r matches BlockOption::EpbFlags(o) && o.flags == spec_epb_flags(
                dir,
                reception,
                fcs_length,
                error_flags,
            ),
    {
        BlockOption::EpbFlags(Self::new(dir, reception, fcs_length, error_flags))
    }

    /// Builds a flags option from an already assembled flags word.
    pub fn from_u32(flags: u32) -> (r: Self)
        ensures
            r.flags == flags,
    {
        Self { flags }
    }

    /// Returns the declared length: the four bytes of the flags word.
    pub fn length(&self) -> (r: u16)
        ensures
            r == 4,
    {
        4
    }

    /// Returns the value bytes: the flags word in the chosen byte order.
    pub fn bytes(&self, e: Endianness) -> (r: Vec<u8>)
        ensures
            r@ == u32_bytes(e, self.flags),
    {
        let mut v: Vec<u8> = Vec::new();
        put_u32(&mut v, e, self.flags);
        v
    }
}

} // verus!
