//! The bounded vectors of `arrayvec`, as far as the codec uses them. Their
//! code is not verified here: what this file says of it is taken on trust
//! from the source of `arrayvec`.

use crate::messages::battery::CellState;
use arrayvec::ArrayVec;
use vstd::prelude::*;

verus! {

/// `arrayvec::ArrayVec`: a vector of at most `CAP` elements, kept in place.
/// Nothing inside it is visible here.
#[verifier::external_type_specification]
#[verifier::external_body]
#[verifier::reject_recursive_types(T)]
pub struct ExArrayVec<T, const CAP: usize>(ArrayVec<T, CAP>);

/// The raw 16-bit values that a vector of at most three holds, in order.
pub uninterp spec fn values_of(v: ArrayVec<u16, 3>) -> Seq<u16>;

/// The cell states that a vector of at most three holds, in order.
pub uninterp spec fn cells_of(v: ArrayVec<CellState, 3>) -> Seq<CellState>;

/// The bytes that a vector of at most eight holds, in order.
pub uninterp spec fn bytes_of(v: ArrayVec<u8, 8>) -> Seq<u8>;

/// `ArrayVec::new` for three 16-bit values: the new vector is empty.
#[verifier::external_body]
pub(crate) fn new_values() -> (v: ArrayVec<u16, 3>)
    ensures
        values_of(v) == Seq::<u16>::empty(),
{
    ArrayVec::new()
}

/// `ArrayVec::push` for three 16-bit values: the element is added at the
/// end. The call panics on a full vector, so there must be room.
#[verifier::external_body]
pub(crate) fn push_value(v: &mut ArrayVec<u16, 3>, element: u16)
    requires
        values_of(*old(v)).len() < 3,
    ensures
        values_of(*final(v)) == values_of(*old(v)).push(element),
{
    v.push(element)
}

/// `ArrayVec::as_slice` for three 16-bit values: the slice holds what the
/// vector holds, which is never more than its capacity.
#[verifier::external_body]
pub(crate) fn values_slice(v: &ArrayVec<u16, 3>) -> (s: &[u16])
    ensures
        s@ == values_of(*v),
        s@.len() <= 3,
{
    v.as_slice()
}

/// `ArrayVec::new` for three cell states: the new vector is empty.
#[verifier::external_body]
pub(crate) fn new_cells() -> (v: ArrayVec<CellState, 3>)
    ensures
        cells_of(v) == Seq::<CellState>::empty(),
{
    ArrayVec::new()
}

/// `ArrayVec::push` for three cell states: the element is added at the
/// end. The call panics on a full vector, so there must be room.
#[verifier::external_body]
pub(crate) fn push_cell(v: &mut ArrayVec<CellState, 3>, element: CellState)
    requires
        cells_of(*old(v)).len() < 3,
    ensures
        cells_of(*final(v)) == cells_of(*old(v)).push(element),
{
    v.push(element)
}

/// `ArrayVec::as_slice` for three cell states: the slice holds what the
/// vector holds, which is never more than its capacity.
#[verifier::external_body]
pub(crate) fn cells_slice(v: &ArrayVec<CellState, 3>) -> (s: &[CellState])
    ensures
        s@ == cells_of(*v),
        s@.len() <= 3,
{
    v.as_slice()
}

/// `ArrayVec::new` for eight bytes: the new vector is empty.
#[verifier::external_body]
pub(crate) fn new_bytes() -> (v: ArrayVec<u8, 8>)
    ensures
        bytes_of(v) == Seq::<u8>::empty(),
{
    ArrayVec::new()
}

/// `ArrayVec::push` for eight bytes: the element is added at the end. The
/// call panics on a full vector, so there must be room.
#[verifier::external_body]
pub(crate) fn push_byte(v: &mut ArrayVec<u8, 8>, element: u8)
    requires
        bytes_of(*old(v)).len() < 8,
    ensures
        bytes_of(*final(v)) == bytes_of(*old(v)).push(element),
{
    v.push(element)
}

} // verus!
