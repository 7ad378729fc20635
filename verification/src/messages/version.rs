//! The version of a piece of hardware or firmware.

use crate::messages::helpers::{
    be16, be32, byte_at, byte_of, lemma_bytes_of_be16, lemma_bytes_of_be32, lemma_bytes_of_number,
    read_be16, read_be32, CopyIntoSlice,
};
use vstd::prelude::*;
use vstd::std_specs::convert::{FromSpecImpl, TryFromSpecImpl};

verus! {

/// A version: eight bytes on the wire, `path` and `build` big-endian.
#[derive(Debug, Copy, Clone, Eq, PartialEq)]
pub struct Version {
    pub major: u8,
    pub minor: u8,
    pub path: u16,
    pub build: u32,
}

impl Version {
    /// The version that the first eight bytes of `bytes` stand for; none
    /// where there are fewer than eight.
    pub open spec fn parse(bytes: Seq<u8>) -> Option<Version> {
        if bytes.len() >= 8 {
            Some(
                Version {
                    major: bytes[0],
                    minor: bytes[1],
                    path: be16(bytes[2], bytes[3]),
                    build: be32(bytes[4], bytes[5], bytes[6], bytes[7]),
                },
            )
        } else {
            None
        }
    }

    /// The wire form as an array.
    pub open spec fn wire_array(self) -> [u8; 8] {
        [
            self.major,
            self.minor,
            byte_of(self.path as nat, 1),
            byte_of(self.path as nat, 0),
            byte_of(self.build as nat, 3),
            byte_of(self.build as nat, 2),
            byte_of(self.build as nat, 1),
            byte_of(self.build as nat, 0),
        ]
    }

    /// Writing a version and reading it again gives the version back,
    /// whatever follows it in the buffer.
    pub proof fn lemma_round_trip(self, rest: Seq<u8>)
        ensures
            Version::parse(self.wire() + rest) == Some(self),
            self.wire().len() == 8,
    {
        lemma_bytes_of_number(self.path as u32);
        lemma_bytes_of_number(self.build);
    }

    /// Reading eight bytes as a version and writing it again gives the
    /// bytes back.
    pub proof fn lemma_parse_wire(bytes: Seq<u8>)
        requires
            bytes.len() == 8,
        ensures
            Version::parse(bytes) is Some,
            Version::parse(bytes).unwrap().wire() == bytes,
    {
        lemma_bytes_of_be16(bytes[2], bytes[3]);
        lemma_bytes_of_be32(bytes[4], bytes[5], bytes[6], bytes[7]);
    }
}

impl CopyIntoSlice for Version {
    open spec fn wire(&self) -> Seq<u8> {
        seq![
            self.major,
            self.minor,
            byte_of(self.path as nat, 1),
            byte_of(self.path as nat, 0),
            byte_of(self.build as nat, 3),
            byte_of(self.build as nat, 2),
            byte_of(self.build as nat, 1),
            byte_of(self.build as nat, 0),
        ]
    }

    fn copy_into_slice(&self, dst: &mut [u8]) -> (r: Option<usize>) {
        if dst.len() < 8 {
            return None;
        }
        let path: u32 = self.path as u32;
        dst[0] = self.major;
        dst[1] = self.minor;
        dst[2] = byte_at(path, 1);
        dst[3] = byte_at(path, 0);
        dst[4] = byte_at(self.build, 3);
        dst[5] = byte_at(self.build, 2);
        dst[6] = byte_at(self.build, 1);
        dst[7] = byte_at(self.build, 0);
        Some(8)
    }
}

impl<'a> TryFrom<&'a [u8]> for Version {
    type Error = ();

    /// Reads a version from the first eight bytes of `value`.
    fn try_from(value: &'a [u8]) -> (r: Result<Self, ()>) {
        if value.len() < 8 {
            return Err(());
        }
        Ok(
            Version {
                major: value[0],
                minor: value[1],
                path: read_be16(value[2], value[3]),
                build: read_be32(value[4], value[5], value[6], value[7]),
            },
        )
    }
}

impl<'a> TryFromSpecImpl<&'a [u8]> for Version {
    open spec fn obeys_try_from_spec() -> bool {
        true
    }

    open spec fn try_from_spec(v: &'a [u8]) -> Result<Self, ()> {
        match Version::parse(v@) {
            Some(version) => Ok(version),
            None => Err(()),
        }
    }
}

impl From<[u8; 8]> for Version {
    fn from(v: [u8; 8]) -> (r: Self) {
        Version {
            major: v[0],
            minor: v[1],
            path: read_be16(v[2], v[3]),
            build: read_be32(v[4], v[5], v[6], v[7]),
        }
    }
}

impl FromSpecImpl<[u8; 8]> for Version {
    open spec fn obeys_from_spec() -> bool {
        true
    }

    open spec fn from_spec(v: [u8; 8]) -> Self {
        Version::parse(v@).unwrap()
    }
}

impl From<Version> for [u8; 8] {
    fn from(v: Version) -> (r: Self)
        ensures
            r@ == v.wire(),
    {
        let path: u32 = v.path as u32;
        let r = [
            v.major,
            v.minor,
            byte_at(path, 1),
            byte_at(path, 0),
            byte_at(v.build, 3),
            byte_at(v.build, 2),
            byte_at(v.build, 1),
            byte_at(v.build, 0),
        ];
        r
    }
}

impl FromSpecImpl<Version> for [u8; 8] {
    open spec fn obeys_from_spec() -> bool {
        true
    }

    open spec fn from_spec(v: Version) -> Self {
        v.wire_array()
    }
}

} // verus!
