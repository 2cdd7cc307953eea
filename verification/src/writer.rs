//! The stream writer: binds a byte order to an in-memory sink and dispatches
//! encode calls through the `Encodable` trait.

use vstd::prelude::*;

verus! {

/// The byte order in which every multi-byte integer field of a pcapng
/// stream is written.
#[derive(Clone, Copy, Debug, PartialEq, Eq, Structural)]
pub enum Endianness {
    Big,
    Little,
}

/// A value that can be serialized onto a byte sink in a chosen byte order.
pub trait Encodable {
    /// The value is well formed: every declared length fits its wire field
    /// and agrees with the bytes it describes.
    spec fn wf(&self) -> bool;

    /// The exact byte sequence that `encode` appends under byte order `e`.
    spec fn encoding(&self, e: Endianness) -> Seq<u8>;

    /// Returns whether the value is well formed, so that unverified callers
    /// can test `encode`'s precondition at run time.
    fn check_wf(&self) -> (b: bool)
        ensures
            b == self.wf(),
    ;

    /// Serializes the value and appends it to the sink provided.
    fn encode(&self, e: Endianness, out: &mut Vec<u8>)
        requires
            self.wf(),
        ensures
            final(out)@ == old(out)@ + self.encoding(e),
    ;
}

/// The `PcapNgWriter` manages serialization of data with the specified
/// endianness, appending every block to an in-memory sink.
#[derive(Debug)]
pub struct PcapNgWriter {
    pub endianness: Endianness,
    pub writer: Vec<u8>,
}

impl PcapNgWriter {
    /// Creates a new pcapng writer.
    pub fn new(endianness: Endianness, writer: Vec<u8>) -> (r: Self)
        ensures
            r.endianness == endianness,
            r.writer@ == writer@,
    {
        Self { endianness, writer }
    }

    /// Creates a new little-endian pcapng writer.
    pub fn new_le(writer: Vec<u8>) -> (r: Self)
        ensures
            r.endianness == Endianness::Little,
            r.writer@ == writer@,
    {
        Self::new(Endianness::Little, writer)
    }

    /// Creates a new big-endian pcapng writer.
    pub fn new_be(writer: Vec<u8>) -> (r: Self)
        ensures
            r.endianness == Endianness::Big,
            r.writer@ == writer@,
    {
        Self::new(Endianness::Big, writer)
    }

    /// Serializes a block and appends it to the underlying sink in the
    /// writer's byte order.
    pub fn write<T: Encodable>(&mut self, block: &T)
        requires
            block.wf(),
        ensures
            final(self).endianness == old(self).endianness,
            final(self).writer@ == old(self).writer@ + block.encoding(old(self).endianness),
    {
        let e = self.endianness;
        block.encode(e, &mut self.writer);
    }

    /// Returns the writer's byte order.
    pub fn get_endianness(&self) -> (r: Endianness)
        ensures
            r == self.endianness,
    {
        self.endianness
    }

    /// Returns an immutable reference to the underlying sink.
    pub fn get_writer(&self) -> (r: &Vec<u8>)
        ensures
            r@ == self.writer@,
    {
        &self.writer
    }

    /// Returns a mutable reference to the underlying sink.
    pub fn get_writer_mut(&mut self) -> (r: &mut Vec<u8>)
        ensures
            *r == old(self).writer,
            final(self).writer == *final(r),
            final(self).endianness == old(self).endianness,
    {
        &mut self.writer
    }
}

} // verus!
