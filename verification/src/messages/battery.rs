//! The payloads of the battery: its temperatures, and the state of a cell.

use crate::bounded::{bytes_of, cells_of, cells_slice, new_bytes, new_cells, push_byte, push_cell};
use crate::messages::helpers::{
    be16, byte_at, byte_of, lemma_bytes_of_be16, lemma_bytes_of_number, read_be16, CopyIntoSlice,
};
use arrayvec::ArrayVec;
use vstd::prelude::*;
use vstd::std_specs::convert::{FromSpecImpl, TryFromSpecImpl};

verus! {

/// The signed reading that a byte stands for, in two's complement.
pub open spec fn signed(b: u8) -> i8 {
    if b < 0x80 {
        b as i8
    } else {
        (b - 0x100) as i8
    }
}

/// The byte that stands for a signed reading, in two's complement.
pub open spec fn unsigned(t: i8) -> u8 {
    if t >= 0 {
        t as u8
    } else {
        (t + 0x100) as u8
    }
}

/// Each byte stands for one reading and each reading for one byte.
pub proof fn lemma_signed_unsigned(b: u8, t: i8)
    ensures
        unsigned(signed(b)) == b,
        signed(unsigned(t)) == t,
{
}

/// Reads a byte as a signed reading.
pub fn to_signed(b: u8) -> (t: i8)
    ensures
        t == signed(b),
{
    if b < 0x80 {
        b as i8
    } else {
        let wide: i16 = b as i16;
        (wide - 0x100) as i8
    }
}

/// Writes a signed reading as a byte.
pub fn to_unsigned(t: i8) -> (b: u8)
    ensures
        b == unsigned(t),
{
    if t >= 0 {
        t as u8
    } else {
        let wide: i16 = t as i16;
        (wide + 0x100) as u8
    }
}

/// The five temperatures of a battery, one signed byte each.
#[derive(Debug, Copy, Clone, Eq, PartialEq)]
pub struct Battery {
    pub temperature: [i8; 5],
}

impl Battery {
    /// The report that the first five bytes of `bytes` stand for; none
    /// where there are fewer than five.
    pub open spec fn parse(bytes: Seq<u8>) -> Option<Battery> {
        if bytes.len() >= 5 {
            Some(
                Battery {
                    temperature: [
                        signed(bytes[0]),
                        signed(bytes[1]),
                        signed(bytes[2]),
                        signed(bytes[3]),
                        signed(bytes[4]),
                    ],
                },
            )
        } else {
            None
        }
    }

    /// The wire form as an array.
    pub open spec fn wire_array(self) -> [u8; 5] {
        [
            unsigned(self.temperature[0]),
            unsigned(self.temperature[1]),
            unsigned(self.temperature[2]),
            unsigned(self.temperature[3]),
            unsigned(self.temperature[4]),
        ]
    }

    /// Writing a report and reading it again gives the report back,
    /// whatever follows it in the buffer.
    pub proof fn lemma_round_trip(self, rest: Seq<u8>)
        ensures
            Battery::parse(self.wire() + rest) == Some(self),
            self.wire().len() == 5,
    {
        assert(Battery::parse(self.wire() + rest).unwrap().temperature =~= self.temperature);
    }

    /// Reading five bytes as a report and writing it again gives the bytes
    /// back.
    pub proof fn lemma_parse_wire(bytes: Seq<u8>)
        requires
            bytes.len() == 5,
        ensures
            Battery::parse(bytes) is Some,
            Battery::parse(bytes).unwrap().wire() == bytes,
    {
    }

    fn read(value: &[u8]) -> (r: Self)
        requires
            value@.len() >= 5,
        ensures
            Some(r) == Battery::parse(value@),
    {
        let temperature: [i8; 5] = [
            to_signed(value[0]),
            to_signed(value[1]),
            to_signed(value[2]),
            to_signed(value[3]),
            to_signed(value[4]),
        ];
        Battery { temperature }
    }
}

impl<'a> TryFrom<&'a [u8]> for Battery {
    type Error = ();

    /// Reads a report from the first five bytes of `value`.
    fn try_from(value: &'a [u8]) -> (r: Result<Self, ()>) {
        if value.len() < 5 {
            return Err(());
        }
        Ok(Battery::read(value))
    }
}

impl<'a> TryFromSpecImpl<&'a [u8]> for Battery {
    open spec fn obeys_try_from_spec() -> bool {
        true
    }

    open spec fn try_from_spec(v: &'a [u8]) -> Result<Self, ()> {
        match Battery::parse(v@) {
            Some(battery) => Ok(battery),
            None => Err(()),
        }
    }
}

impl CopyIntoSlice for Battery {
    open spec fn wire(&self) -> Seq<u8> {
        seq![
            unsigned(self.temperature[0]),
            unsigned(self.temperature[1]),
            unsigned(self.temperature[2]),
            unsigned(self.temperature[3]),
            unsigned(self.temperature[4]),
        ]
    }

    fn copy_into_slice(&self, dst: &mut [u8]) -> (r: Option<usize>) {
        if dst.len() < 5 {
            return None;
        }
        dst[0] = to_unsigned(self.temperature[0]);
        dst[1] = to_unsigned(self.temperature[1]);
        dst[2] = to_unsigned(self.temperature[2]);
        dst[3] = to_unsigned(self.temperature[3]);
        dst[4] = to_unsigned(self.temperature[4]);
        Some(5)
    }
}

impl From<[u8; 5]> for Battery {
    fn from(v: [u8; 5]) -> (r: Self) {
        Battery::read(v.as_slice())
    }
}

impl FromSpecImpl<[u8; 5]> for Battery {
    open spec fn obeys_from_spec() -> bool {
        true
    }

    open spec fn from_spec(v: [u8; 5]) -> Self {
        Battery::parse(v@).unwrap()
    }
}

impl From<Battery> for [u8; 5] {
    fn from(v: Battery) -> (r: Self) {
        let r = [
            to_unsigned(v.temperature[0]),
            to_unsigned(v.temperature[1]),
            to_unsigned(v.temperature[2]),
            to_unsigned(v.temperature[3]),
            to_unsigned(v.temperature[4]),
        ];
        r
    }
}

impl FromSpecImpl<Battery> for [u8; 5] {
    open spec fn obeys_from_spec() -> bool {
        true
    }

    open spec fn from_spec(v: Battery) -> Self {
        v.wire_array()
    }
}

/// The state of one cell: its voltage, of which fifteen bits are kept, and
/// whether the cell is being balanced. One 16-bit field, big-endian on the
/// wire: bit 15 is the flag, bits 0 to 14 the voltage.
#[derive(Debug, Copy, Clone, Eq, PartialEq)]
pub struct CellState {
    pub balancing: bool,
    pub voltage: u16,
}

impl CellState {
    /// The 16-bit field that holds the state. Of a voltage above 32767 only
    /// the low fifteen bits are kept.
    pub open spec fn packed(self) -> u16 {
        (self.voltage & 0x7FFF) | (if self.balancing {
            0x8000u16
        } else {
            0u16
        })
    }

    /// The state that a 16-bit field holds.
    pub open spec fn unpacked(field: u16) -> CellState {
        CellState { balancing: field & 0x8000 != 0, voltage: field & 0x7FFF }
    }

    /// The state that the first two bytes of `bytes` stand for; none where
    /// there are fewer than two.
    pub open spec fn parse(bytes: Seq<u8>) -> Option<CellState> {
        if bytes.len() >= 2 {
            Some(CellState::unpacked(be16(bytes[0], bytes[1])))
        } else {
            None
        }
    }

    /// Packs the state into its 16-bit field.
    pub fn to_packed(&self) -> (field: u16)
        ensures
            field == self.packed(),
    {
        let flag: u16 = if self.balancing {
            0x8000
        } else {
            0
        };
        (self.voltage & 0x7FFF) | flag
    }

    /// Reads the state out of a 16-bit field. Every field holds one.
    pub fn from_packed(field: u16) -> (state: CellState)
        ensures
            state == CellState::unpacked(field),
    {
        CellState { balancing: field & 0x8000 != 0, voltage: field & 0x7FFF }
    }

    /// Unpacking a packed state gives the flag back, and the low fifteen
    /// bits of the voltage: the state itself where the voltage is at most
    /// 32767.
    pub proof fn lemma_unpack_packed(self)
        ensures
            CellState::unpacked(self.packed()).balancing == self.balancing,
            CellState::unpacked(self.packed()).voltage == self.voltage & 0x7FFF,
            CellState::unpacked(self.packed()).voltage <= 0x7FFF,
            self.voltage <= 0x7FFF ==> CellState::unpacked(self.packed()) == self,
    {
        let v = self.voltage;
        assert(((v & 0x7FFF) | 0x8000u16) & 0x8000 != 0) by (bit_vector);
        assert(((v & 0x7FFF) | 0u16) & 0x8000 == 0) by (bit_vector);
        assert(((v & 0x7FFF) | 0x8000u16) & 0x7FFF == v & 0x7FFF) by (bit_vector);
        assert(((v & 0x7FFF) | 0u16) & 0x7FFF == v & 0x7FFF) by (bit_vector);
        assert(v & 0x7FFF <= 0x7FFF) by (bit_vector);
        assert(v <= 0x7FFF ==> v & 0x7FFF == v) by (bit_vector);
    }

    /// Packing the state that a field holds gives the field back.
    pub proof fn lemma_packed_unpack(field: u16)
        ensures
            CellState::unpacked(field).packed() == field,
    {
        assert(field & 0x8000 != 0 ==> ((field & 0x7FFF) & 0x7FFF) | 0x8000u16 == field)
            by (bit_vector);
        assert(!(field & 0x8000 != 0) ==> ((field & 0x7FFF) & 0x7FFF) | 0u16 == field)
            by (bit_vector);
    }

    /// Writing a state and reading it again gives the state back where the
    /// voltage is at most 32767, whatever follows it in the buffer.
    pub proof fn lemma_round_trip(self, rest: Seq<u8>)
        requires
            self.voltage <= 0x7FFF,
        ensures
            CellState::parse(self.wire() + rest) == Some(self),
            self.wire().len() == 2,
    {
        self.lemma_unpack_packed();
        lemma_bytes_of_number(self.packed() as u32);
    }

    /// Reading two bytes as a state and writing it again gives the bytes
    /// back.
    pub proof fn lemma_parse_wire(bytes: Seq<u8>)
        requires
            bytes.len() == 2,
        ensures
            CellState::parse(bytes) is Some,
            CellState::parse(bytes).unwrap().wire() == bytes,
    {
        let field = be16(bytes[0], bytes[1]);
        CellState::lemma_packed_unpack(field);
        lemma_bytes_of_be16(bytes[0], bytes[1]);
    }
}

impl From<u16> for CellState {
    fn from(field: u16) -> (r: Self) {
        CellState::from_packed(field)
    }
}

impl FromSpecImpl<u16> for CellState {
    open spec fn obeys_from_spec() -> bool {
        true
    }

    open spec fn from_spec(field: u16) -> Self {
        CellState::unpacked(field)
    }
}

impl From<CellState> for u16 {
    fn from(state: CellState) -> (r: Self) {
        state.to_packed()
    }
}

impl FromSpecImpl<CellState> for u16 {
    open spec fn obeys_from_spec() -> bool {
        true
    }

    open spec fn from_spec(state: CellState) -> Self {
        state.packed()
    }
}

impl<'a> TryFrom<&'a [u8]> for CellState {
    type Error = ();

    /// Reads a state from the first two bytes of `value`.
    fn try_from(value: &'a [u8]) -> (r: Result<Self, ()>) {
        if value.len() < 2 {
            return Err(());
        }
        Ok(CellState::from_packed(read_be16(value[0], value[1])))
    }
}

impl<'a> TryFromSpecImpl<&'a [u8]> for CellState {
    open spec fn obeys_try_from_spec() -> bool {
        true
    }

    open spec fn try_from_spec(v: &'a [u8]) -> Result<Self, ()> {
        match CellState::parse(v@) {
            Some(state) => Ok(state),
            None => Err(()),
        }
    }
}

impl CopyIntoSlice for CellState {
    open spec fn wire(&self) -> Seq<u8> {
        seq![byte_of(self.packed() as nat, 1), byte_of(self.packed() as nat, 0)]
    }

    fn copy_into_slice(&self, dst: &mut [u8]) -> (r: Option<usize>) {
        if dst.len() < 2 {
            return None;
        }
        let field: u32 = self.to_packed() as u32;
        dst[0] = byte_at(field, 1);
        dst[1] = byte_at(field, 0);
        Some(2)
    }
}

/// The wire form of a block of 16-bit fields: the index of the first
/// field, then the fields, each of them two bytes big-endian.
pub open spec fn block_wire(from: u16, fields: Seq<u16>) -> Seq<u8> {
    Seq::new(
        2 + 2 * fields.len(),
        |i: int|
            if i == 0 {
                byte_of(from as nat, 1)
            } else if i == 1 {
                byte_of(from as nat, 0)
            } else if i % 2 == 0 {
                byte_of(fields[(i - 2) / 2] as nat, 1)
            } else {
                byte_of(fields[(i - 2) / 2] as nat, 0)
            },
    )
}

/// The block that `bytes` stand for: the index of the first field and one
/// to three fields. None where the length is odd, below four or above
/// eight.
pub open spec fn block_parse(bytes: Seq<u8>) -> Option<(u16, Seq<u16>)> {
    if bytes.len() < 4 || bytes.len() % 2 != 0 || bytes.len() > 8 {
        None
    } else {
        Some(
            (
                be16(bytes[0], bytes[1]),
                Seq::new(
                    ((bytes.len() - 2) / 2) as nat,
                    |k: int| be16(bytes[2 * k + 2], bytes[2 * k + 3]),
                ),
            ),
        )
    }
}

/// Writing a block of one to three fields and reading it again gives the
/// block back.
pub proof fn lemma_block_round_trip(from: u16, fields: Seq<u16>)
    requires
        1 <= fields.len() <= 3,
    ensures
        block_parse(block_wire(from, fields)) == Some((from, fields)),
        block_wire(from, fields).len() == 2 + 2 * fields.len(),
{
    let bytes = block_wire(from, fields);
    lemma_bytes_of_number(from as u32);
    let read = block_parse(bytes).unwrap().1;
    assert forall|k: int| 0 <= k < fields.len() implies read[k] == fields[k] by {
        lemma_bytes_of_number(fields[k] as u32);
    }
}

/// Reading a block and writing it again gives the bytes back.
pub proof fn lemma_block_parse_wire(bytes: Seq<u8>)
    requires
        block_parse(bytes) is Some,
    ensures
        block_wire(block_parse(bytes).unwrap().0, block_parse(bytes).unwrap().1) == bytes,
        1 <= block_parse(bytes).unwrap().1.len() <= 3,
{
    let from = block_parse(bytes).unwrap().0;
    let fields = block_parse(bytes).unwrap().1;
    let written = block_wire(from, fields);
    lemma_bytes_of_be16(bytes[0], bytes[1]);
    assert forall|i: int| 0 <= i < bytes.len() implies written[i] == bytes[i] by {
        if i >= 2 {
            let k = (i - 2) / 2;
            lemma_bytes_of_be16(bytes[2 * k + 2], bytes[2 * k + 3]);
        }
    }
}

/// The states of up to three cells in a row, and the index of the first.
/// At most eight bytes on the wire: the index, then one packed field for
/// each cell.
#[derive(Debug, Eq, PartialEq)]
pub struct CellsStates {
    pub from: u16,
    pub values: ArrayVec<CellState, 3>,
}

impl CellsStates {
    /// The packed fields of the cells, in order.
    pub open spec fn fields(&self) -> Seq<u16> {
        cells_of(self.values).map_values(|cell: CellState| cell.packed())
    }

    /// The wire form: the index, then each packed field, all big-endian.
    pub open spec fn wire(&self) -> Seq<u8> {
        block_wire(self.from, self.fields())
    }

    /// The index and the cell states that `bytes` stand for. None where
    /// the length is odd, below four or above eight.
    pub open spec fn parse(bytes: Seq<u8>) -> Option<(u16, Seq<CellState>)> {
        match block_parse(bytes) {
            Some((from, fields)) => Some(
                (from, fields.map_values(|field: u16| CellState::unpacked(field))),
            ),
            None => None,
        }
    }

    /// Writing the states of one to three cells and reading them again
    /// gives them back, where no voltage is above 32767.
    pub proof fn lemma_round_trip(from: u16, cells: Seq<CellState>)
        requires
            1 <= cells.len() <= 3,
            forall|k: int| 0 <= k < cells.len() ==> cells[k].voltage <= 0x7FFF,
        ensures
            CellsStates::parse(
                block_wire(from, cells.map_values(|cell: CellState| cell.packed())),
            ) == Some((from, cells)),
    {
        let fields = cells.map_values(|cell: CellState| cell.packed());
        lemma_block_round_trip(from, fields);
        let read = fields.map_values(|field: u16| CellState::unpacked(field));
        assert forall|k: int| 0 <= k < cells.len() implies read[k] == cells[k] by {
            cells[k].lemma_unpack_packed();
        }
    }
}

impl Default for CellsStates {
    /// The block at index 0 that holds no cell.
    fn default() -> (r: Self)
        ensures
            r.from == 0,
            cells_of(r.values) == Seq::<CellState>::empty(),
    {
        CellsStates { from: 0, values: new_cells() }
    }
}

impl Clone for CellsStates {
    fn clone(&self) -> (r: Self)
        ensures
            r.from == self.from,
            cells_of(r.values) == cells_of(self.values),
    {
        let items = cells_slice(&self.values);
        let mut values = new_cells();
        let mut i: usize = 0;
        while i < items.len()
            invariant
                i <= items@.len() <= 3,
                cells_of(values) =~= items@.take(i as int),
            decreases items@.len() - i,
        {
            push_cell(&mut values, items[i]);
            i += 1;
        }
        CellsStates { from: self.from, values }
    }
}

impl<'a> TryFrom<&'a [u8]> for CellsStates {
    type Error = ();

    /// Reads a block. The bytes must be a whole number of 16-bit fields:
    /// the index and one to three cells.
    fn try_from(value: &'a [u8]) -> (r: Result<Self, ()>)
        ensures
            match CellsStates::parse(value@) {
                Some((from, cells)) => r matches Ok(block) && block.from == from && cells_of(
                    block.values,
                ) == cells,
                None => r is Err,
            },
    {
        let len = value.len();
        if len < 4 || len % 2 != 0 || len > 8 {
            return Err(());
        }
        let from = read_be16(value[0], value[1]);
        let mut values = new_cells();
        let mut i: usize = 2;
        while i < len
            invariant
                len == value@.len(),
                4 <= len <= 8,
                len % 2 == 0,
                2 <= i <= len,
                i % 2 == 0,
                cells_of(values) =~= Seq::new(
                    ((i - 2) / 2) as nat,
                    |k: int| CellState::unpacked(be16(value@[2 * k + 2], value@[2 * k + 3])),
                ),
            decreases len - i,
        {
            push_cell(&mut values, CellState::from_packed(read_be16(value[i], value[i + 1])));
            i += 2;
        }
        Ok(CellsStates { from, values })
    }
}

impl<'a> TryFromSpecImpl<&'a [u8]> for CellsStates {
    open spec fn obeys_try_from_spec() -> bool {
        false
    }

    open spec fn try_from_spec(v: &'a [u8]) -> Result<Self, ()> {
        arbitrary()
    }
}

impl<'a> From<&'a CellsStates> for ArrayVec<u8, 8> {
    /// Writes a block into a vector of its own.
    fn from(v: &'a CellsStates) -> (array: Self)
        ensures
            bytes_of(array) == v.wire(),
    {
        let mut array = new_bytes();
        let from: u32 = v.from as u32;
        push_byte(&mut array, byte_at(from, 1));
        push_byte(&mut array, byte_at(from, 0));
        let items = cells_slice(&v.values);
        let ghost fields = v.fields();
        let mut i: usize = 0;
        while i < items.len()
            invariant
                i <= items@.len() <= 3,
                items@ == cells_of(v.values),
                fields == v.fields(),
                bytes_of(array) =~= block_wire(v.from, fields.take(i as int)),
            decreases items@.len() - i,
        {
            let field: u32 = items[i].to_packed() as u32;
            push_byte(&mut array, byte_at(field, 1));
            push_byte(&mut array, byte_at(field, 0));
            i += 1;
        }
        array
    }
}

impl<'a> FromSpecImpl<&'a CellsStates> for ArrayVec<u8, 8> {
    open spec fn obeys_from_spec() -> bool {
        false
    }

    open spec fn from_spec(v: &'a CellsStates) -> Self {
        arbitrary()
    }
}

impl CopyIntoSlice for CellsStates {
    open spec fn wire(&self) -> Seq<u8> {
        block_wire(self.from, self.fields())
    }

    fn copy_into_slice(&self, dst: &mut [u8]) -> (r: Option<usize>) {
        let items = cells_slice(&self.values);
        let size: usize = 2 + 2 * items.len();
        if dst.len() < size {
            return None;
        }
        let from: u32 = self.from as u32;
        dst[0] = byte_at(from, 1);
        dst[1] = byte_at(from, 0);
        let ghost fields = self.fields();
        let mut i: usize = 0;
        while i < items.len()
            invariant
                i <= items@.len() <= 3,
                items@ == cells_of(self.values),
                fields == self.fields(),
                size == 2 + 2 * items@.len(),
                dst@.len() == old(dst)@.len(),
                dst@.len() >= size,
                dst@.take(2 + 2 * i) =~= block_wire(self.from, fields.take(i as int)),
                forall|j: int| 2 + 2 * i <= j < dst@.len() ==> dst@[j] == old(dst)@[j],
            decreases items@.len() - i,
        {
            let ghost before = dst@;
            let field: u32 = items[i].to_packed() as u32;
            dst[2 + 2 * i] = byte_at(field, 1);
            dst[2 + 2 * i + 1] = byte_at(field, 0);
            i += 1;
            proof {
                let written = block_wire(self.from, fields.take(i as int));
                assert forall|j: int| 0 <= j < 2 + 2 * i implies dst@[j] == written[j] by {
                    if j < 2 * i {
                        assert(dst@[j] == before.take(2 * i)[j]);
                    }
                }
            }
        }
        assert(fields.take(i as int) =~= fields);
        Some(size)
    }
}

} // verus!
