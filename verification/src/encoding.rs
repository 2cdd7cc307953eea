//! Byte-level encoding primitives.
//!
//! A pcapng writer renders every multi-byte integer field in a chosen byte
//! order.  The specification functions here pin the byte sequence produced
//! for each integer width and order; the executable helpers append those
//! bytes to a sink and are verified against them.  The actual byte stores
//! are made by the `byteorder` crate.

use crate::writer::Endianness;
use byteorder::ByteOrder;
use vstd::prelude::*;

verus! {

/// The two bytes of `v`, least significant first.
pub open spec fn u16_le_bytes(v: u16) -> Seq<u8> {
    seq![(v & 0xff) as u8, ((v >> 8) & 0xff) as u8]
}

/// The two bytes of `v`, most significant first.
pub open spec fn u16_be_bytes(v: u16) -> Seq<u8> {
    seq![((v >> 8) & 0xff) as u8, (v & 0xff) as u8]
}

/// The four bytes of `v`, least significant first.
pub open spec fn u32_le_bytes(v: u32) -> Seq<u8> {
    seq![
        (v & 0xff) as u8,
        ((v >> 8) & 0xff) as u8,
        ((v >> 16) & 0xff) as u8,
        ((v >> 24) & 0xff) as u8,
    ]
}

/// The four bytes of `v`, most significant first.
pub open spec fn u32_be_bytes(v: u32) -> Seq<u8> {
    seq![
        ((v >> 24) & 0xff) as u8,
        ((v >> 16) & 0xff) as u8,
        ((v >> 8) & 0xff) as u8,
        (v & 0xff) as u8,
    ]
}

/// The eight bytes of `v`, least significant first.
pub open spec fn u64_le_bytes(v: u64) -> Seq<u8> {
    seq![
        (v & 0xff) as u8,
        ((v >> 8) & 0xff) as u8,
        ((v >> 16) & 0xff) as u8,
        ((v >> 24) & 0xff) as u8,
        ((v >> 32) & 0xff) as u8,
        ((v >> 40) & 0xff) as u8,
        ((v >> 48) & 0xff) as u8,
        ((v >> 56) & 0xff) as u8,
    ]
}

/// The eight bytes of `v`, most significant first.
pub open spec fn u64_be_bytes(v: u64) -> Seq<u8> {
    seq![
        ((v >> 56) & 0xff) as u8,
        ((v >> 48) & 0xff) as u8,
        ((v >> 40) & 0xff) as u8,
        ((v >> 32) & 0xff) as u8,
        ((v >> 24) & 0xff) as u8,
        ((v >> 16) & 0xff) as u8,
        ((v >> 8) & 0xff) as u8,
        (v & 0xff) as u8,
    ]
}

/// The wire form of a 16-bit field under byte order `e`.
pub open spec fn u16_bytes(e: Endianness, v: u16) -> Seq<u8> {
    match e {
        Endianness::Little => u16_le_bytes(v),
        Endianness::Big => u16_be_bytes(v),
    }
}

/// The wire form of a 32-bit field under byte order `e`.
pub open spec fn u32_bytes(e: Endianness, v: u32) -> Seq<u8> {
    match e {
        Endianness::Little => u32_le_bytes(v),
        Endianness::Big => u32_be_bytes(v),
    }
}

/// The wire form of a 64-bit field under byte order `e`.
pub open spec fn u64_bytes(e: Endianness, v: u64) -> Seq<u8> {
    match e {
        Endianness::Little => u64_le_bytes(v),
        Endianness::Big => u64_be_bytes(v),
    }
}

/// Four bytes reinterpreted as a 32-bit integer under byte order `e`.
pub open spec fn u32_of_bytes(e: Endianness, s: Seq<u8>) -> u32
    recommends
        s.len() == 4,
{
    match e {
        Endianness::Little => (s[0] as u32) | (s[1] as u32) << 8 | (s[2] as u32) << 16 | (
        s[3] as u32) << 24,
        Endianness::Big => (s[3] as u32) | (s[2] as u32) << 8 | (s[1] as u32) << 16 | (
        s[0] as u32) << 24,
    }
}

/// Writing a 32-bit field and reinterpreting its four bytes under the same
/// byte order gives the field back.
pub proof fn lemma_u32_bytes_roundtrip(e: Endianness, v: u32)
    ensures
        u32_bytes(e, v).len() == 4,
        u32_of_bytes(e, u32_bytes(e, v)) == v,
{
    assert({
        &&& v & 0xff < 256
        &&& (v >> 8) & 0xff < 256
        &&& (v >> 16) & 0xff < 256
        &&& (v >> 24) & 0xff < 256
    }) by (bit_vector);
    assert(v == (v & 0xff) | ((v >> 8) & 0xff) << 8 | ((v >> 16) & 0xff) << 16 | ((v >> 24)
        & 0xff) << 24) by (bit_vector);
}

/// A 16-bit field always encodes to two bytes.
pub broadcast proof fn lemma_u16_bytes_len(e: Endianness, v: u16)
    ensures
        (#[trigger] u16_bytes(e, v)).len() == 2,
{
    match e {
        Endianness::Little => {},
        Endianness::Big => {},
    }
}

/// A 32-bit field always encodes to four bytes.
pub broadcast proof fn lemma_u32_bytes_len(e: Endianness, v: u32)
    ensures
        (#[trigger] u32_bytes(e, v)).len() == 4,
{
    match e {
        Endianness::Little => {},
        Endianness::Big => {},
    }
}

/// A 64-bit field always encodes to eight bytes.
pub broadcast proof fn lemma_u64_bytes_len(e: Endianness, v: u64)
    ensures
        (#[trigger] u64_bytes(e, v)).len() == 8,
{
    match e {
        Endianness::Little => {},
        Endianness::Big => {},
    }
}

/// `n` zero-valued padding bytes.
pub open spec fn zero_bytes(n: int) -> Seq<u8> {
    Seq::new(n as nat, |i: int| 0u8)
}

/// Relies on `byteorder::LittleEndian::write_u16`: stores the two bytes of
/// `n` in little-endian order into a buffer of exactly two bytes.
#[verifier::external_body]
fn u16_le_vec(v: u16) -> (r: Vec<u8>)
    ensures
        r@ == u16_le_bytes(v),
{
    let mut buf = vec![0u8; 2];
    byteorder::LittleEndian::write_u16(&mut buf, v);
    buf
}

/// Relies on `byteorder::BigEndian::write_u16`: stores the two bytes of
/// `n` in big-endian order into a buffer of exactly two bytes.
#[verifier::external_body]
fn u16_be_vec(v: u16) -> (r: Vec<u8>)
    ensures
        r@ == u16_be_bytes(v),
{
    let mut buf = vec![0u8; 2];
    byteorder::BigEndian::write_u16(&mut buf, v);
    buf
}

/// Relies on `byteorder::LittleEndian::write_u32`: stores the four bytes of
/// `n` in little-endian order into a buffer of exactly four bytes.
#[verifier::external_body]
fn u32_le_vec(v: u32) -> (r: Vec<u8>)
    ensures
        r@ == u32_le_bytes(v),
{
    let mut buf = vec![0u8; 4];
    byteorder::LittleEndian::write_u32(&mut buf, v);
    buf
}

/// Relies on `byteorder::BigEndian::write_u32`: stores the four bytes of
/// `n` in big-endian order into a buffer of exactly four bytes.
#[verifier::external_body]
fn u32_be_vec(v: u32) -> (r: Vec<u8>)
    ensures
        r@ == u32_be_bytes(v),
{
    let mut buf = vec![0u8; 4];
    byteorder::BigEndian::write_u32(&mut buf, v);
    buf
}

/// Relies on `byteorder::LittleEndian::write_u64`: stores the eight bytes of
/// `n` in little-endian order into a buffer of exactly eight bytes.
#[verifier::external_body]
fn u64_le_vec(v: u64) -> (r: Vec<u8>)
    ensures
        r@ == u64_le_bytes(v),
{
    let mut buf = vec![0u8; 8];
    byteorder::LittleEndian::write_u64(&mut buf, v);
    buf
}

/// Relies on `byteorder::BigEndian::write_u64`: stores the eight bytes of
/// `n` in big-endian order into a buffer of exactly eight bytes.
#[verifier::external_body]
fn u64_be_vec(v: u64) -> (r: Vec<u8>)
    ensures
        r@ == u64_be_bytes(v),
{
    let mut buf = vec![0u8; 8];
    byteorder::BigEndian::write_u64(&mut buf, v);
    buf
}

/// Appends the wire form of a 16-bit field to the sink.
pub fn put_u16(out: &mut Vec<u8>, e: Endianness, v: u16)
    ensures
        final(out)@ == old(out)@ + u16_bytes(e, v),
{
    let mut b = match e {
        Endianness::Little => u16_le_vec(v),
        Endianness::Big => u16_be_vec(v),
    };
    out.append(&mut b);
}

/// Appends the wire form of a 32-bit field to the sink.
pub fn put_u32(out: &mut Vec<u8>, e: Endianness, v: u32)
    ensures
        final(out)@ == old(out)@ + u32_bytes(e, v),
{
    let mut b = match e {
        Endianness::Little => u32_le_vec(v),
        Endianness::Big => u32_be_vec(v),
    };
    out.append(&mut b);
}

/// Appends the wire form of a 64-bit field to the sink.
pub fn put_u64(out: &mut Vec<u8>, e: Endianness, v: u64)
    ensures
        final(out)@ == old(out)@ + u64_bytes(e, v),
{
    let mut b = match e {
        Endianness::Little => u64_le_vec(v),
        Endianness::Big => u64_be_vec(v),
    };
    out.append(&mut b);
}

/// Appends a copy of `data` to the sink.
pub fn put_bytes(out: &mut Vec<u8>, data: &Vec<u8>)
    ensures
        final(out)@ == old(out)@ + data@,
{
    let mut i: usize = 0;
    while i < data.len()
        invariant
            i <= data.len(),
            out@ == old(out)@ + data@.take(i as int),
        decreases data.len() - i,
    {
        out.push(data[i]);
        assert(data@.take(i + 1) == data@.take(i as int).push(data@[i as int]));
        i = i + 1;
    }
    assert(data@.take(data@.len() as int) == data@);
}

/// Appends `n` zero-valued padding bytes to the sink.
pub fn put_zero_bytes(out: &mut Vec<u8>, n: usize)
    ensures
        final(out)@ == old(out)@ + zero_bytes(n as int),
{
    let mut i: usize = 0;
    while i < n
        invariant
            i <= n,
            out@ == old(out)@ + zero_bytes(i as int),
        decreases n - i,
    {
        out.push(0u8);
        assert(zero_bytes(i + 1) == zero_bytes(i as int).push(0u8));
        i = i + 1;
    }
}

} // verus!
