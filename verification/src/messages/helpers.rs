//! Writing values into a byte buffer, and the carrier for optional values.

use vstd::prelude::*;
use vstd::std_specs::convert::{TryFromSpec, TryFromSpecImpl};

verus! {

/// The 16-bit number whose big-endian form is `hi`, `lo`.
pub open spec fn be16(hi: u8, lo: u8) -> u16 {
    (hi * 0x100 + lo) as u16
}

/// The 24-bit number whose big-endian form is `b2`, `b1`, `b0`.
pub open spec fn be24(b2: u8, b1: u8, b0: u8) -> u32 {
    (b2 * 0x1_0000 + b1 * 0x100 + b0) as u32
}

/// The 32-bit number whose big-endian form is `b3`, `b2`, `b1`, `b0`.
pub open spec fn be32(b3: u8, b2: u8, b1: u8, b0: u8) -> u32 {
    (b3 * 0x100_0000 + b2 * 0x1_0000 + b1 * 0x100 + b0) as u32
}

/// Byte `i` of a number of at most four bytes, counted from the least
/// significant one. From the fifth on it is zero.
pub open spec fn byte_of(x: nat, i: nat) -> u8 {
    if i == 0 {
        (x % 0x100) as u8
    } else if i == 1 {
        (x / 0x100 % 0x100) as u8
    } else if i == 2 {
        (x / 0x1_0000 % 0x100) as u8
    } else if i == 3 {
        (x / 0x100_0000 % 0x100) as u8
    } else {
        0
    }
}

/// Reads a big-endian 16-bit number.
pub fn read_be16(hi: u8, lo: u8) -> (r: u16)
    ensures
        r == be16(hi, lo),
{
    let h: u16 = hi as u16;
    let l: u16 = lo as u16;
    h * 0x100 + l
}

/// Reads a big-endian 24-bit number.
pub fn read_be24(b2: u8, b1: u8, b0: u8) -> (r: u32)
    ensures
        r == be24(b2, b1, b0),
        r <= 0xFF_FFFF,
{
    let x2: u32 = b2 as u32;
    let x1: u32 = b1 as u32;
    let x0: u32 = b0 as u32;
    x2 * 0x1_0000 + x1 * 0x100 + x0
}

/// Reads a big-endian 32-bit number.
pub fn read_be32(b3: u8, b2: u8, b1: u8, b0: u8) -> (r: u32)
    ensures
        r == be32(b3, b2, b1, b0),
{
    let x3: u32 = b3 as u32;
    let x2: u32 = b2 as u32;
    let x1: u32 = b1 as u32;
    let x0: u32 = b0 as u32;
    x3 * 0x100_0000 + x2 * 0x1_0000 + x1 * 0x100 + x0
}

/// Byte `i` of `x`, counted from the least significant one.
pub fn byte_at(x: u32, i: u8) -> (r: u8)
    ensures
        r == byte_of(x as nat, i as nat),
{
    if i == 0 {
        (x % 0x100) as u8
    } else if i == 1 {
        (x / 0x100 % 0x100) as u8
    } else if i == 2 {
        (x / 0x1_0000 % 0x100) as u8
    } else if i == 3 {
        (x / 0x100_0000 % 0x100) as u8
    } else {
        0
    }
}

/// Taking a number apart into bytes and putting the bytes together again
/// gives the number back, for each of the three widths.
pub proof fn lemma_bytes_of_number(x: u32)
    ensures
        x <= 0xFFFF ==> be16(byte_of(x as nat, 1), byte_of(x as nat, 0)) == x,
        x <= 0xFF_FFFF ==> be24(byte_of(x as nat, 2), byte_of(x as nat, 1), byte_of(x as nat, 0))
            == x,
        be32(byte_of(x as nat, 3), byte_of(x as nat, 2), byte_of(x as nat, 1), byte_of(x as nat, 0))
            == x,
{
}

/// Putting two bytes together into a number and taking the number apart
/// again gives the bytes back.
pub proof fn lemma_bytes_of_be16(b1: u8, b0: u8)
    ensures
        byte_of(be16(b1, b0) as nat, 1) == b1,
        byte_of(be16(b1, b0) as nat, 0) == b0,
{
    let x: int = b1 * 0x100 + b0;
    assert(x % 0x100 == b0 && x / 0x100 == b1) by (nonlinear_arith)
        requires
            x == b1 * 0x100 + b0,
            0 <= b0 < 0x100,
            0 <= b1 < 0x100,
    ;
}

/// Putting three bytes together into a number and taking the number apart
/// again gives the bytes back.
pub proof fn lemma_bytes_of_be24(b2: u8, b1: u8, b0: u8)
    ensures
        byte_of(be24(b2, b1, b0) as nat, 2) == b2,
        byte_of(be24(b2, b1, b0) as nat, 1) == b1,
        byte_of(be24(b2, b1, b0) as nat, 0) == b0,
{
    let x: int = b2 * 0x1_0000 + b1 * 0x100 + b0;
    let y: int = b2 * 0x100 + b1;
    assert(x % 0x100 == b0 && x / 0x100 == y) by (nonlinear_arith)
        requires
            x == y * 0x100 + b0,
            0 <= b0 < 0x100,
    ;
    assert(y % 0x100 == b1 && y / 0x100 == b2) by (nonlinear_arith)
        requires
            y == b2 * 0x100 + b1,
            0 <= b1 < 0x100,
            0 <= b2 < 0x100,
    ;
    assert(x / 0x1_0000 == y / 0x100) by (nonlinear_arith)
        requires
            x / 0x100 == y,
            0 <= x,
    ;
}

/// Putting four bytes together into a number and taking the number apart
/// again gives the bytes back.
pub proof fn lemma_bytes_of_be32(b3: u8, b2: u8, b1: u8, b0: u8)
    ensures
        byte_of(be32(b3, b2, b1, b0) as nat, 3) == b3,
        byte_of(be32(b3, b2, b1, b0) as nat, 2) == b2,
        byte_of(be32(b3, b2, b1, b0) as nat, 1) == b1,
        byte_of(be32(b3, b2, b1, b0) as nat, 0) == b0,
{
    let x: int = b3 * 0x100_0000 + b2 * 0x1_0000 + b1 * 0x100 + b0;
    let y: int = b3 * 0x1_0000 + b2 * 0x100 + b1;
    let z: int = b3 * 0x100 + b2;
    assert(x % 0x100 == b0 && x / 0x100 == y) by (nonlinear_arith)
        requires
            x == y * 0x100 + b0,
            0 <= b0 < 0x100,
    ;
    assert(y % 0x100 == b1 && y / 0x100 == z) by (nonlinear_arith)
        requires
            y == z * 0x100 + b1,
            0 <= b1 < 0x100,
    ;
    assert(z % 0x100 == b2 && z / 0x100 == b3) by (nonlinear_arith)
        requires
            z == b3 * 0x100 + b2,
            0 <= b2 < 0x100,
            0 <= b3 < 0x100,
    ;
    assert(x / 0x1_0000 == y / 0x100) by (nonlinear_arith)
        requires
            x / 0x100 == y,
            0 <= x,
    ;
    assert(x / 0x100_0000 == z / 0x100) by (nonlinear_arith)
        requires
            x / 0x1_0000 == z,
            0 <= x,
    ;
}

/// A value that has a wire form and can write it at the start of a buffer.
pub trait CopyIntoSlice {
    /// The bytes that stand for the value on the wire.
    spec fn wire(&self) -> Seq<u8>;

    /// Writes the wire form over the first bytes of `dst` and returns how
    /// many bytes that took. Where `dst` is too short for it, nothing is
    /// written and the result is `None`.
    fn copy_into_slice(&self, dst: &mut [u8]) -> (r: Option<usize>)
        ensures
            final(dst)@.len() == old(dst)@.len(),
            r is Some <==> self.wire().len() <= old(dst)@.len(),
            r matches Some(n) ==> n == self.wire().len() && final(dst)@ == self.wire() + old(
                dst,
            )@.skip(n as int),
            r is None ==> final(dst)@ == old(dst)@,
    ;
}

impl CopyIntoSlice for bool {
    open spec fn wire(&self) -> Seq<u8> {
        seq![if *self { 1u8 } else { 0u8 }]
    }

    fn copy_into_slice(&self, dst: &mut [u8]) -> (r: Option<usize>) {
        if dst.len() < 1 {
            return None;
        }
        dst[0] = if *self { 1 } else { 0 };
        Some(1)
    }
}

/// A value that may be absent, for a field that a frame may leave out.
///
/// On the wire, nothing stands for the absent value. A present value stands
/// as its own wire form where that is two bytes or longer, and as its own
/// wire form and one further byte, a 1, where it is shorter.
#[derive(Debug, Copy, Clone, Eq, PartialEq)]
pub struct OptionWrapped<T>(pub Option<T>);

/// The slice that holds the first `n` bytes of `v`.
pub open spec fn slice_prefix<'a>(v: &'a [u8], n: int) -> &'a [u8] {
    choose|s: &'a [u8]| s@ == v@.take(n)
}

impl<T: CopyIntoSlice> CopyIntoSlice for OptionWrapped<T> {
    open spec fn wire(&self) -> Seq<u8> {
        match self.0 {
            None => Seq::empty(),
            Some(value) => if value.wire().len() < 2 {
                value.wire().push(1u8)
            } else {
                value.wire()
            },
        }
    }

    fn copy_into_slice(&self, dst: &mut [u8]) -> (r: Option<usize>) {
        match &self.0 {
            None => Some(0),
            Some(value) => {
                let first: u8 = if dst.len() > 0 {
                    dst[0]
                } else {
                    0
                };
                match value.copy_into_slice(dst) {
                    None => None,
                    Some(size) => {
                        if size >= 2 {
                            Some(size)
                        } else if size < dst.len() {
                            dst[size] = 1;
                            Some(size + 1)
                        } else {
                            if size == 1 {
                                dst[0] = first;
                            }
                            None
                        }
                    },
                }
            },
        }
    }
}

/// Whether `r` is what the reader of the value itself made of `input`: the
/// value that it returned, present, or a failure where it failed.
pub open spec fn read_by_inner<'a, T: TryFrom<&'a [u8]>>(
    input: &'a [u8],
    r: Result<OptionWrapped<T>, ()>,
) -> bool {
    match r {
        Ok(OptionWrapped(Some(v))) => call_ensures(
            T::try_from,
            (input,),
            Ok::<T, <T as TryFrom<&'a [u8]>>::Error>(v),
        ),
        Ok(OptionWrapped(None)) => false,
        Err(_) => exists|e: <T as TryFrom<&'a [u8]>>::Error|
            call_ensures(T::try_from, (input,), Err::<T, <T as TryFrom<&'a [u8]>>::Error>(e)),
    }
}

impl<'a, T: TryFrom<&'a [u8]>> TryFrom<&'a [u8]> for OptionWrapped<T> {
    type Error = ();

    /// Reads a value that may be absent. No bytes stand for the absent
    /// value. One or two bytes must end in a 1, and the bytes before it are
    /// read as the value; three bytes or more are read as the value, all
    /// of them.
    ///
    /// This much holds whatever the reader of the value itself does; what
    /// it is handed, and that its answer is passed on, is stated of every
    /// such reader, also of one that has no specification.
    fn try_from(value: &'a [u8]) -> (r: Result<Self, ()>)
        ensures
            value@.len() == 0 ==> r == Ok::<Self, ()>(OptionWrapped(None)),
            r matches Ok(w) ==> (w.0 is None <==> value@.len() == 0),
            (value@.len() == 1 || value@.len() == 2) && value@.last() != 1 ==> r is Err,
            (value@.len() == 1 || value@.len() == 2) && value@.last() == 1 ==> read_by_inner(
                slice_prefix(value, value@.len() - 1),
                r,
            ),
            value@.len() >= 3 ==> read_by_inner(value, r),
    {
        let len = value.len();
        if len == 0 {
            Ok(OptionWrapped(None))
        } else if len <= 2 {
            if value[len - 1] != 1 {
                return Err(());
            }
            let inner = vstd::slice::slice_subrange(value, 0, len - 1);
            assert(inner =~= slice_prefix(value, len - 1));
            match T::try_from(inner) {
                Ok(v) => Ok(OptionWrapped(Some(v))),
                Err(_) => Err(()),
            }
        } else {
            match T::try_from(value) {
                Ok(v) => Ok(OptionWrapped(Some(v))),
                Err(_) => Err(()),
            }
        }
    }
}

impl<'a, T: TryFrom<&'a [u8]>> TryFromSpecImpl<&'a [u8]> for OptionWrapped<T> {
    open spec fn obeys_try_from_spec() -> bool {
        T::obeys_try_from_spec()
    }

    open spec fn try_from_spec(v: &'a [u8]) -> Result<Self, ()> {
        if v@.len() == 0 {
            Ok(OptionWrapped(None))
        } else if v@.len() <= 2 {
            if v@.last() == 1 {
                match T::try_from_spec(slice_prefix(v, v@.len() - 1)) {
                    Ok(value) => Ok(OptionWrapped(Some(value))),
                    Err(_) => Err(()),
                }
            } else {
                Err(())
            }
        } else {
            match T::try_from_spec(v) {
                Ok(value) => Ok(OptionWrapped(Some(value))),
                Err(_) => Err(()),
            }
        }
    }
}

/// Writing a value that may be absent and reading it again gives it back.
///
/// This holds where the reader of the value itself gives the value back
/// from its wire form, and where that wire form is not exactly two bytes
/// long: two bytes are written as they are, and read as one byte and a
/// closing 1. `bytes` holds what was written, and `inner`, where the value
/// is present, its own wire form.
pub proof fn lemma_option_round_trip<'a, T>(
    value: OptionWrapped<T>,
    bytes: &'a [u8],
    inner: &'a [u8],
) where T: CopyIntoSlice + TryFrom<&'a [u8]>
    requires
        bytes@ == value.wire(),
        value.0 matches Some(v) ==> inner@ == v.wire() && v.wire().len() != 2
            && T::try_from_spec(inner) == Ok::<T, <T as TryFrom<&'a [u8]>>::Error>(v),
    ensures
        <OptionWrapped<T> as TryFromSpec<&'a [u8]>>::try_from_spec(bytes) == Ok::<
            OptionWrapped<T>,
            (),
        >(value),
{
    match value.0 {
        None => {},
        Some(v) => {
            if v.wire().len() < 2 {
                assert(bytes@.take(bytes@.len() - 1) =~= v.wire());
                assert(inner =~= slice_prefix(bytes, bytes@.len() - 1));
            } else {
                assert(inner =~= bytes);
            }
        },
    }
}

} // verus!
