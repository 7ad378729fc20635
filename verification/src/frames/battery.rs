//! The block of cell values as the first frame set writes it: raw 16-bit
//! values, without a balancing flag.

use crate::bounded::{
    bytes_of, new_bytes, new_values, push_byte, push_value, values_of, values_slice,
};
use crate::messages::battery::{block_parse, block_wire};
use crate::messages::helpers::{be16, byte_at, read_be16};
use arrayvec::ArrayVec;
use vstd::prelude::*;
use vstd::std_specs::convert::{FromSpecImpl, TryFromSpecImpl};

verus! {

/// The values of up to three cells in a row, and the index of the first.
#[derive(Debug, Eq, PartialEq)]
pub struct CellsStates {
    pub from: u16,
    pub values: ArrayVec<u16, 3>,
}

impl CellsStates {
    /// The wire form: the index, then each value, all big-endian.
    pub open spec fn wire(&self) -> Seq<u8> {
        block_wire(self.from, values_of(self.values))
    }
}

impl Default for CellsStates {
    /// The block at index 0 that holds no value.
    fn default() -> (r: Self)
        ensures
            r.from == 0,
            values_of(r.values) == Seq::<u16>::empty(),
    {
        CellsStates { from: 0, values: new_values() }
    }
}

impl Clone for CellsStates {
    fn clone(&self) -> (r: Self)
        ensures
            r.from == self.from,
            values_of(r.values) == values_of(self.values),
    {
        let items = values_slice(&self.values);
        let mut values = new_values();
        let mut i: usize = 0;
        while i < items.len()
            invariant
                i <= items@.len() <= 3,
                values_of(values) =~= items@.take(i as int),
            decreases items@.len() - i,
        {
            push_value(&mut values, items[i]);
            i += 1;
        }
        CellsStates { from: self.from, values }
    }
}

impl<'a> TryFrom<&'a [u8]> for CellsStates {
    type Error = ();

    /// Reads a block. The bytes must be a whole number of 16-bit fields:
    /// the index and one to three values.
    fn try_from(value: &'a [u8]) -> (r: Result<Self, ()>)
        ensures
            match block_parse(value@) {
                Some((from, values)) => r matches Ok(cells) && cells.from == from && values_of(
                    cells.values,
                ) == values,
                None => r is Err,
            },
    {
        let len = value.len();
        if len < 4 || len % 2 != 0 || len > 8 {
            return Err(());
        }
        let from = read_be16(value[0], value[1]);
        let mut values = new_values();
        let mut i: usize = 2;
        while i < len
            invariant
                len == value@.len(),
                4 <= len <= 8,
                len % 2 == 0,
                2 <= i <= len,
                i % 2 == 0,
                values_of(values) =~= Seq::new(
                    ((i - 2) / 2) as nat,
                    |k: int| be16(value@[2 * k + 2], value@[2 * k + 3]),
                ),
            decreases len - i,
        {
            push_value(&mut values, read_be16(value[i], value[i + 1]));
            i += 2;
        }
        Ok(CellsStates { from, values })
    }
}

impl<'a> TryFromSpecImpl<&'a [u8]> for CellsStates {
    open spec fn obeys_try_from_spec() -> bool {
        false
    }

    open spec fn try_from_spec(v: &'a [u8]) -> Result<Self, ()> {
        arbitrary()
    }
}

impl<'a> From<&'a CellsStates> for ArrayVec<u8, 8> {
    /// Writes a block into a vector of its own.
    fn from(v: &'a CellsStates) -> (array: Self)
        ensures
            bytes_of(array) == v.wire(),
    {
        let mut array = new_bytes();
        let from: u32 = v.from as u32;
        push_byte(&mut array, byte_at(from, 1));
        push_byte(&mut array, byte_at(from, 0));
        let items = values_slice(&v.values);
        let mut i: usize = 0;
        while i < items.len()
            invariant
                i <= items@.len() <= 3,
                items@ == values_of(v.values),
                bytes_of(array) =~= block_wire(v.from, items@.take(i as int)),
            decreases items@.len() - i,
        {
            let field: u32 = items[i] as u32;
            push_byte(&mut array, byte_at(field, 1));
            push_byte(&mut array, byte_at(field, 0));
            i += 1;
        }
        array
    }
}

impl<'a> FromSpecImpl<&'a CellsStates> for ArrayVec<u8, 8> {
    open spec fn obeys_from_spec() -> bool {
        false
    }

    open spec fn from_spec(v: &'a CellsStates) -> Self {
        arbitrary()
    }
}

} // verus!
