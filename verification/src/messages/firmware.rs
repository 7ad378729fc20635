//! The payloads of the firmware upload: a position in the image, and a
//! chunk of the image at a position.

use crate::messages::helpers::{
    be24, byte_at, byte_of, lemma_bytes_of_be24, lemma_bytes_of_number, read_be24, CopyIntoSlice,
};
use std::ops::{Deref, DerefMut};
use vstd::prelude::*;
use vstd::std_specs::convert::{FromSpecImpl, TryFromSpecImpl};

verus! {

/// A position in the firmware image: an offset of at most 24 bits, three
/// bytes big-endian on the wire.
#[derive(Debug, Copy, Clone, Eq, PartialEq)]
pub struct UploadPartChangePos(usize);

impl UploadPartChangePos {
    /// The largest position.
    pub const MAX: usize = 0xFFFFFF;

    #[verifier::type_invariant]
    spec fn in_range(self) -> bool {
        self.0 <= 0xFF_FFFF
    }

    /// The offset that the value holds.
    pub closed spec fn value(self) -> nat {
        self.0 as nat
    }

    /// The position with the given offset.
    pub closed spec fn at(offset: nat) -> UploadPartChangePos {
        UploadPartChangePos(offset as usize)
    }

    /// Whether the offset is in range. Every value that the library hands
    /// out is.
    pub open spec fn wf(self) -> bool {
        self.value() <= 0xFF_FFFF
    }

    /// A position is its offset and nothing more.
    pub proof fn lemma_at_value(self)
        ensures
            UploadPartChangePos::at(self.value()) == self,
    {
    }

    /// The position at an offset holds that offset.
    pub proof fn lemma_value_at(offset: nat)
        requires
            offset <= 0xFF_FFFF,
        ensures
            UploadPartChangePos::at(offset).value() == offset,
            UploadPartChangePos::at(offset).wf(),
    {
    }

    /// The position at `pos`; none where `pos` does not fit in 24 bits.
    pub fn new(pos: usize) -> (r: Option<Self>)
        ensures
            r is Some <==> pos <= 0xFF_FFFF,
            r is Some ==> r == Some(UploadPartChangePos::at(pos as nat)),
            r matches Some(p) ==> p.value() == pos && p.wf(),
    {
        if pos <= 0xFF_FFFF {
            Some(UploadPartChangePos(pos))
        } else {
            None
        }
    }

    /// The offset.
    #[inline]
    pub fn pos(&self) -> (r: usize)
        ensures
            r == self.value(),
            r <= 0xFF_FFFF,
    {
        proof {
            use_type_invariant(self);
        }
        self.0
    }

    /// The position that the first three bytes of `bytes` stand for; none
    /// where there are fewer than three.
    pub open spec fn parse(bytes: Seq<u8>) -> Option<UploadPartChangePos> {
        if bytes.len() >= 3 {
            Some(UploadPartChangePos::at(be24(bytes[0], bytes[1], bytes[2]) as nat))
        } else {
            None
        }
    }

    /// The wire form as an array.
    pub open spec fn wire_array(self) -> [u8; 3] {
        [byte_of(self.value(), 2), byte_of(self.value(), 1), byte_of(self.value(), 0)]
    }

    /// Writing a position and reading it again gives the position back,
    /// whatever follows it in the buffer.
    pub proof fn lemma_round_trip(self, rest: Seq<u8>)
        requires
            self.wf(),
        ensures
            UploadPartChangePos::parse(self.wire() + rest) == Some(self),
            self.wire().len() == 3,
    {
        lemma_bytes_of_number(self.value() as u32);
    }

    /// Reading three bytes as a position and writing it again gives the
    /// bytes back.
    pub proof fn lemma_parse_wire(bytes: Seq<u8>)
        requires
            bytes.len() == 3,
        ensures
            UploadPartChangePos::parse(bytes) is Some,
            UploadPartChangePos::parse(bytes).unwrap().wf(),
            UploadPartChangePos::parse(bytes).unwrap().wire() == bytes,
    {
        lemma_bytes_of_be24(bytes[0], bytes[1], bytes[2]);
    }
}

impl From<[u8; 3]> for UploadPartChangePos {
    fn from(val: [u8; 3]) -> (r: Self) {
        UploadPartChangePos(read_be24(val[0], val[1], val[2]) as usize)
    }
}

impl FromSpecImpl<[u8; 3]> for UploadPartChangePos {
    open spec fn obeys_from_spec() -> bool {
        true
    }

    open spec fn from_spec(v: [u8; 3]) -> Self {
        UploadPartChangePos::parse(v@).unwrap()
    }
}

impl<'a> TryFrom<&'a [u8]> for UploadPartChangePos {
    type Error = ();

    /// Reads a position from the first three bytes of `value`.
    fn try_from(value: &'a [u8]) -> (r: Result<Self, ()>) {
        if value.len() < 3 {
            return Err(());
        }
        Ok(UploadPartChangePos(read_be24(value[0], value[1], value[2]) as usize))
    }
}

impl<'a> TryFromSpecImpl<&'a [u8]> for UploadPartChangePos {
    open spec fn obeys_try_from_spec() -> bool {
        true
    }

    open spec fn try_from_spec(v: &'a [u8]) -> Result<Self, ()> {
        match UploadPartChangePos::parse(v@) {
            Some(pos) => Ok(pos),
            None => Err(()),
        }
    }
}

impl From<UploadPartChangePos> for [u8; 3] {
    fn from(v: UploadPartChangePos) -> (r: Self) {
        let x: u32 = v.pos() as u32;
        let r = [byte_at(x, 2), byte_at(x, 1), byte_at(x, 0)];
        r
    }
}

impl FromSpecImpl<UploadPartChangePos> for [u8; 3] {
    open spec fn obeys_from_spec() -> bool {
        true
    }

    open spec fn from_spec(v: UploadPartChangePos) -> Self {
        v.wire_array()
    }
}

impl CopyIntoSlice for UploadPartChangePos {
    open spec fn wire(&self) -> Seq<u8> {
        seq![byte_of(self.value(), 2), byte_of(self.value(), 1), byte_of(self.value(), 0)]
    }

    fn copy_into_slice(&self, dst: &mut [u8]) -> (r: Option<usize>) {
        if dst.len() < 3 {
            return None;
        }
        let x: u32 = self.pos() as u32;
        dst[0] = byte_at(x, 2);
        dst[1] = byte_at(x, 1);
        dst[2] = byte_at(x, 0);
        Some(3)
    }
}

/// A chunk of the firmware image: where it belongs, and its five bytes.
/// Eight bytes on the wire, the position first.
#[derive(Debug, Copy, Clone, Eq, PartialEq)]
pub struct UploadPart {
    position: UploadPartChangePos,
    pub data: [u8; 5],
}

impl UploadPart {
    /// Where the chunk belongs.
    pub closed spec fn place(self) -> UploadPartChangePos {
        self.position
    }

    /// The five bytes of the chunk.
    pub closed spec fn bytes(self) -> [u8; 5] {
        self.data
    }

    /// The chunk with the given bytes at the given place.
    pub closed spec fn at(place: UploadPartChangePos, data: [u8; 5]) -> UploadPart {
        UploadPart { position: place, data }
    }

    /// Whether the position is in range. Every value that the library
    /// hands out is.
    pub open spec fn wf(self) -> bool {
        self.place().wf()
    }

    /// A chunk is its place and its bytes and nothing more.
    pub proof fn lemma_at(place: UploadPartChangePos, data: [u8; 5])
        ensures
            UploadPart::at(place, data).place() == place,
            UploadPart::at(place, data).bytes() == data,
    {
    }

    /// Two chunks with the same place and the same bytes are the same.
    pub proof fn lemma_at_place(self)
        ensures
            UploadPart::at(self.place(), self.bytes()) == self,
    {
    }

    /// The chunk `data` at `position`; none where `position` does not fit
    /// in 24 bits.
    pub fn new(position: usize, data: [u8; 5]) -> (r: Option<Self>)
        ensures
            r is Some <==> position <= 0xFF_FFFF,
            r is Some ==> r == Some(
                UploadPart::at(UploadPartChangePos::at(position as nat), data),
            ),
            r matches Some(p) ==> p.place().value() == position && p.bytes() == data && p.wf(),
    {
        match UploadPartChangePos::new(position) {
            Some(place) => Some(UploadPart { position: place, data }),
            None => None,
        }
    }

    /// The offset at which the chunk belongs.
    #[inline]
    pub fn position(&self) -> (r: usize)
        ensures
            r == self.place().value(),
            r <= 0xFF_FFFF,
    {
        self.position.pos()
    }

    /// The chunk that the first eight bytes of `bytes` stand for; none
    /// where there are fewer than eight.
    pub open spec fn parse(bytes: Seq<u8>) -> Option<UploadPart> {
        if bytes.len() >= 8 {
            Some(
                UploadPart::at(
                    UploadPartChangePos::at(be24(bytes[0], bytes[1], bytes[2]) as nat),
                    [bytes[3], bytes[4], bytes[5], bytes[6], bytes[7]],
                ),
            )
        } else {
            None
        }
    }

    /// The wire form as an array.
    pub open spec fn wire_array(self) -> [u8; 8] {
        [
            byte_of(self.place().value(), 2),
            byte_of(self.place().value(), 1),
            byte_of(self.place().value(), 0),
            self.bytes()[0],
            self.bytes()[1],
            self.bytes()[2],
            self.bytes()[3],
            self.bytes()[4],
        ]
    }

    /// Writing a chunk and reading it again gives the chunk back, whatever
    /// follows it in the buffer.
    pub proof fn lemma_round_trip(self, rest: Seq<u8>)
        requires
            self.wf(),
        ensures
            UploadPart::parse(self.wire() + rest) == Some(self),
            self.wire().len() == 8,
    {
        lemma_bytes_of_number(self.place().value() as u32);
        let bytes = self.wire() + rest;
        let data = [bytes[3], bytes[4], bytes[5], bytes[6], bytes[7]];
        assert(data =~= self.data);
    }

    /// Reading eight bytes as a chunk and writing it again gives the bytes
    /// back.
    pub proof fn lemma_parse_wire(bytes: Seq<u8>)
        requires
            bytes.len() == 8,
        ensures
            UploadPart::parse(bytes) is Some,
            UploadPart::parse(bytes).unwrap().wf(),
            UploadPart::parse(bytes).unwrap().wire() == bytes,
    {
        lemma_bytes_of_be24(bytes[0], bytes[1], bytes[2]);
    }

    fn read(value: &[u8]) -> (r: Self)
        requires
            value@.len() >= 8,
        ensures
            Some(r) == UploadPart::parse(value@),
    {
        let data: [u8; 5] = [value[3], value[4], value[5], value[6], value[7]];
        UploadPart {
            position: UploadPartChangePos(read_be24(value[0], value[1], value[2]) as usize),
            data,
        }
    }
}

impl From<[u8; 8]> for UploadPart {
    fn from(val: [u8; 8]) -> (r: Self) {
        UploadPart::read(val.as_slice())
    }
}

impl FromSpecImpl<[u8; 8]> for UploadPart {
    open spec fn obeys_from_spec() -> bool {
        true
    }

    open spec fn from_spec(v: [u8; 8]) -> Self {
        UploadPart::parse(v@).unwrap()
    }
}

impl<'a> TryFrom<&'a [u8]> for UploadPart {
    type Error = ();

    /// Reads a chunk from the first eight bytes of `value`.
    fn try_from(value: &'a [u8]) -> (r: Result<Self, ()>) {
        if value.len() < 8 {
            return Err(());
        }
        Ok(UploadPart::read(value))
    }
}

impl<'a> TryFromSpecImpl<&'a [u8]> for UploadPart {
    open spec fn obeys_try_from_spec() -> bool {
        true
    }

    open spec fn try_from_spec(v: &'a [u8]) -> Result<Self, ()> {
        match UploadPart::parse(v@) {
            Some(part) => Ok(part),
            None => Err(()),
        }
    }
}

impl From<UploadPart> for [u8; 8] {
    fn from(v: UploadPart) -> (r: Self) {
        let x: u32 = v.position() as u32;
        let r = [
            byte_at(x, 2),
            byte_at(x, 1),
            byte_at(x, 0),
            v.data[0],
            v.data[1],
            v.data[2],
            v.data[3],
            v.data[4],
        ];
        r
    }
}

impl FromSpecImpl<UploadPart> for [u8; 8] {
    open spec fn obeys_from_spec() -> bool {
        true
    }

    open spec fn from_spec(v: UploadPart) -> Self {
        v.wire_array()
    }
}

impl CopyIntoSlice for UploadPart {
    open spec fn wire(&self) -> Seq<u8> {
        self.place().wire() + self.bytes()@
    }

    fn copy_into_slice(&self, dst: &mut [u8]) -> (r: Option<usize>) {
        if dst.len() < 8 {
            return None;
        }
        let x: u32 = self.position() as u32;
        dst[0] = byte_at(x, 2);
        dst[1] = byte_at(x, 1);
        dst[2] = byte_at(x, 0);
        dst[3] = self.data[0];
        dst[4] = self.data[1];
        dst[5] = self.data[2];
        dst[6] = self.data[3];
        dst[7] = self.data[4];
        Some(8)
    }
}

impl Deref for UploadPart {
    type Target = [u8];

    #[inline]
    fn deref(&self) -> (r: &[u8])
        ensures
            r@ == self.bytes()@,
    {
        self.data.as_slice()
    }
}

impl DerefMut for UploadPart {
    #[inline]
    fn deref_mut(&mut self) -> (r: &mut [u8])
        ensures
            r@ == old(self).bytes()@,
            final(self).bytes()@ == final(r)@,
            final(self).place() == old(self).place(),
    {
        &mut self.data
    }
}

impl AsRef<[u8]> for UploadPart {
    #[inline]
    fn as_ref(&self) -> (r: &[u8])
        ensures
            r@ == self.bytes()@,
    {
        self.data.as_slice()
    }
}

impl AsMut<[u8]> for UploadPart {
    #[inline]
    fn as_mut(&mut self) -> (r: &mut [u8])
        ensures
            r@ == old(self).bytes()@,
            final(self).bytes()@ == final(r)@,
            final(self).place() == old(self).place(),
    {
        &mut self.data
    }
}

} // verus!
