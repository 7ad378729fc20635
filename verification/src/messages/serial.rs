//! The serial number of a device.

use crate::messages::helpers::CopyIntoSlice;
use hex::ToHex;
use vstd::prelude::*;
use vstd::std_specs::convert::{FromSpecImpl, TryFromSpecImpl};
use vstd::string::*;

verus! {

/// A serial number: five bytes that mean nothing to the codec.
#[derive(Debug, Copy, Clone, Eq, PartialEq)]
pub struct Serial(pub [u8; 5]);

impl Serial {
    /// The serial number that `bytes` stand for; none unless there are
    /// exactly five of them.
    pub open spec fn parse(bytes: Seq<u8>) -> Option<Serial> {
        if bytes.len() == 5 {
            Some(Serial([bytes[0], bytes[1], bytes[2], bytes[3], bytes[4]]))
        } else {
            None
        }
    }

    /// Writing a serial number and reading it again gives it back.
    pub proof fn lemma_round_trip(self)
        ensures
            Serial::parse(self.wire()) == Some(self),
            self.wire().len() == 5,
    {
        assert(Serial::parse(self.wire()).unwrap().0 =~= self.0);
    }

    /// Reading five bytes as a serial number and writing it again gives the
    /// bytes back.
    pub proof fn lemma_parse_wire(bytes: Seq<u8>)
        requires
            bytes.len() == 5,
        ensures
            Serial::parse(bytes) is Some,
            Serial::parse(bytes).unwrap().wire() == bytes,
    {
    }
}

impl From<[u8; 5]> for Serial {
    fn from(val: [u8; 5]) -> (r: Self) {
        Serial(val)
    }
}

impl FromSpecImpl<[u8; 5]> for Serial {
    open spec fn obeys_from_spec() -> bool {
        true
    }

    open spec fn from_spec(v: [u8; 5]) -> Self {
        Serial(v)
    }
}

impl From<Serial> for [u8; 5] {
    fn from(v: Serial) -> (r: Self) {
        v.0
    }
}

impl FromSpecImpl<Serial> for [u8; 5] {
    open spec fn obeys_from_spec() -> bool {
        true
    }

    open spec fn from_spec(v: Serial) -> Self {
        v.0
    }
}

impl<'a> TryFrom<&'a [u8]> for Serial {
    type Error = ();

    /// Reads a serial number from exactly five bytes.
    fn try_from(value: &'a [u8]) -> (r: Result<Self, ()>) {
        if value.len() != 5 {
            return Err(());
        }
        let arr: [u8; 5] = [value[0], value[1], value[2], value[3], value[4]];
        Ok(Serial(arr))
    }
}

impl<'a> TryFromSpecImpl<&'a [u8]> for Serial {
    open spec fn obeys_try_from_spec() -> bool {
        true
    }

    open spec fn try_from_spec(v: &'a [u8]) -> Result<Self, ()> {
        match Serial::parse(v@) {
            Some(serial) => Ok(serial),
            None => Err(()),
        }
    }
}

impl CopyIntoSlice for Serial {
    open spec fn wire(&self) -> Seq<u8> {
        self.0@
    }

    fn copy_into_slice(&self, dst: &mut [u8]) -> (r: Option<usize>) {
        if dst.len() < 5 {
            return None;
        }
        let mut i: usize = 0;
        while i < 5
            invariant
                i <= 5,
                dst@.len() == old(dst)@.len(),
                dst@.len() >= 5,
                forall|j: int| 0 <= j < i ==> dst@[j] == self.0@[j],
                forall|j: int| i <= j < dst@.len() ==> dst@[j] == old(dst)@[j],
            decreases 5 - i,
        {
            dst[i] = self.0[i];
            i += 1;
        }
        Some(5)
    }
}

/// `heapless::String`: a string of at most `N` bytes, kept in place.
/// Nothing inside it is visible here.
#[verifier::external_type_specification]
#[verifier::external_body]
pub struct ExHeaplessString<const N: usize>(heapless::String<N>);

/// The characters that a string of at most ten bytes holds, in order.
pub uninterp spec fn text_of(s: heapless::String<10>) -> Seq<char>;

/// The lower-case hex digit of a number below sixteen.
pub open spec fn hex_digit(n: int) -> char {
    if n < 10 {
        (0x30 + n) as char
    } else {
        (0x61 + n - 10) as char
    }
}

/// The number that a hex digit of either case stands for.
pub open spec fn hex_value(c: char) -> Option<u8> {
    if 0x30 <= c as int <= 0x39 {
        Some((c as int - 0x30) as u8)
    } else if 0x61 <= c as int <= 0x66 {
        Some((c as int - 0x61 + 10) as u8)
    } else if 0x41 <= c as int <= 0x46 {
        Some((c as int - 0x41 + 10) as u8)
    } else {
        None
    }
}

/// Bytes as text: two lower-case hex digits for each byte, the high one
/// first.
pub open spec fn lower_hex(bytes: Seq<u8>) -> Seq<char> {
    Seq::new(
        2 * bytes.len(),
        |i: int|
            if i % 2 == 0 {
                hex_digit(bytes[i / 2] as int / 16)
            } else {
                hex_digit(bytes[i / 2] as int % 16)
            },
    )
}

/// The byte that two hex digits stand for, the high one first.
pub open spec fn hex_pair(high: char, low: char) -> Option<u8> {
    match (hex_value(high), hex_value(low)) {
        (Some(h), Some(l)) => Some((h * 16 + l) as u8),
        _ => None,
    }
}

/// The serial number that a text stands for: ten hex digits of either case,
/// two for each byte. None for any other text.
pub open spec fn parse_hex(text: Seq<char>) -> Option<Serial> {
    if text.len() == 10 && hex_pair(text[0], text[1]) is Some && hex_pair(text[2], text[3]) is Some
        && hex_pair(text[4], text[5]) is Some && hex_pair(text[6], text[7]) is Some && hex_pair(
        text[8],
        text[9],
    ) is Some {
        Some(
            Serial(
                [
                    hex_pair(text[0], text[1]).unwrap(),
                    hex_pair(text[2], text[3]).unwrap(),
                    hex_pair(text[4], text[5]).unwrap(),
                    hex_pair(text[6], text[7]).unwrap(),
                    hex_pair(text[8], text[9]).unwrap(),
                ],
            ),
        )
    } else {
        None
    }
}

/// A hex digit stands for the number that it is the digit of.
pub proof fn lemma_hex_digit(n: int)
    requires
        0 <= n < 16,
    ensures
        hex_value(hex_digit(n)) == Some(n as u8),
{
}

/// The two hex digits of a byte stand for that byte.
pub proof fn lemma_hex_byte(b: u8)
    ensures
        hex_pair(hex_digit(b as int / 16), hex_digit(b as int % 16)) == Some(b),
{
    lemma_hex_digit(b as int / 16);
    lemma_hex_digit(b as int % 16);
}

/// The hex text of a serial number stands for that serial number.
pub proof fn lemma_hex_round_trip(serial: Serial)
    ensures
        lower_hex(serial.0@).len() == 10,
        parse_hex(lower_hex(serial.0@)) == Some(serial),
{
    let text = lower_hex(serial.0@);
    lemma_hex_byte(serial.0@[0]);
    lemma_hex_byte(serial.0@[1]);
    lemma_hex_byte(serial.0@[2]);
    lemma_hex_byte(serial.0@[3]);
    lemma_hex_byte(serial.0@[4]);
    assert(parse_hex(text).unwrap().0 =~= serial.0);
}

/// `hex::ToHex::encode_hex` on five bytes, collected into a
/// `heapless::String<10>`: two lower-case hex digits for each byte, the high
/// one first. The ten digits fill the string exactly.
#[verifier::external_body]
fn encode_hex(bytes: &[u8; 5]) -> (s: heapless::String<10>)
    ensures
        text_of(s) == lower_hex(bytes@),
{
    bytes.encode_hex::<heapless::String<10>>()
}

impl<'a> From<&'a Serial> for heapless::String<10> {
    /// The serial number as ten lower-case hex digits.
    fn from(v: &'a Serial) -> (s: Self)
        ensures
            text_of(s) == lower_hex(v.0@),
    {
        encode_hex(&v.0)
    }
}

impl<'a> FromSpecImpl<&'a Serial> for heapless::String<10> {
    open spec fn obeys_from_spec() -> bool {
        false
    }

    open spec fn from_spec(v: &'a Serial) -> Self {
        arbitrary()
    }
}

/// The number that an ASCII hex digit of either case stands for.
fn digit_value(b: u8) -> (r: Option<u8>)
    requires
        b < 0x80,
    ensures
        r == hex_value(b as char),
{
    if 0x30 <= b && b <= 0x39 {
        Some(b - 0x30)
    } else if 0x61 <= b && b <= 0x66 {
        Some(b - 0x61 + 10)
    } else if 0x41 <= b && b <= 0x46 {
        Some(b - 0x41 + 10)
    } else {
        None
    }
}

impl<'a> TryFrom<&'a str> for Serial {
    type Error = ();

    /// Reads a serial number from ten hex digits.
    fn try_from(value: &'a str) -> (r: Result<Self, ()>) {
        if !value.is_ascii() {
            assert(parse_hex(value@) is None) by {
                if parse_hex(value@) is Some {
                    assert forall|i: int| 0 <= i < value@.len() implies '\0' <= #[trigger] value@[i]
                        <= '\u{7f}' by {}
                }
            }
            return Err(());
        }
        let bytes = value.as_bytes();
        proof {
            is_ascii_spec_bytes(value);
        }
        if bytes.len() != 10 {
            return Err(());
        }
        let mut buff: [u8; 5] = [0, 0, 0, 0, 0];
        let mut i: usize = 0;
        while i < 5
            invariant
                i <= 5,
                value.is_ascii(),
                value@.len() == 10,
                bytes@.len() == 10,
                forall|k: int| 0 <= k < 10 ==> bytes@[k] == value@[k] as u8,
                forall|k: int|
                    0 <= k < i ==> hex_pair(value@[2 * k], value@[2 * k + 1]) == Some(
                        #[trigger] buff@[k],
                    ),
            decreases 5 - i,
        {
            let high = bytes[2 * i];
            let low = bytes[2 * i + 1];
            match (digit_value(high), digit_value(low)) {
                (Some(h), Some(l)) => {
                    buff[i] = h * 16 + l;
                },
                _ => {
                    return Err(());
                },
            }
            i += 1;
        }
        assert(hex_pair(value@[0], value@[1]) == Some(buff@[0]));
        assert(hex_pair(value@[2], value@[3]) == Some(buff@[1]));
        assert(hex_pair(value@[4], value@[5]) == Some(buff@[2]));
        assert(hex_pair(value@[6], value@[7]) == Some(buff@[3]));
        assert(hex_pair(value@[8], value@[9]) == Some(buff@[4]));
        assert(buff =~= parse_hex(value@).unwrap().0);
        Ok(Serial(buff))
    }
}

impl<'a> TryFromSpecImpl<&'a str> for Serial {
    open spec fn obeys_try_from_spec() -> bool {
        true
    }

    open spec fn try_from_spec(v: &'a str) -> Result<Self, ()> {
        match parse_hex(v@) {
            Some(serial) => Ok(serial),
            None => Err(()),
        }
    }
}

} // verus!
