//! The first frame set of the bus, for peers that still speak it. It has
//! the device and firmware frames and none for the battery; the payloads
//! are those of the messages.

use crate::message::MessageId;
use crate::messages::firmware::{UploadPart, UploadPartChangePos};
use crate::messages::helpers::be24;
use crate::messages::serial::Serial;
use crate::messages::version::Version;
use crate::messages::{parse_flag, with_request, without_request};
use vstd::prelude::*;

pub use crate::messages::helpers::CopyIntoSlice;
pub use crate::messages::{firmware, helpers, serial, version};
pub use crate::messages::{Empty, ParseError, Type};

pub mod battery;

verus! {

/// A frame of the first set.
#[derive(Debug, Clone, Eq, PartialEq)]
pub enum Frame {
    Serial(Type<Serial, Empty>),
    HardwareVersion(Type<Version, Empty>),
    FirmwareVersion(Type<Version, Empty>),
    PendingFirmwareVersion(Type<Version, Empty>),
    FirmwareUploadPartChangePos(Type<UploadPartChangePos, Empty>),
    FirmwareUploadPause(Type<bool, Empty>),
    FirmwareUploadPart(Type<UploadPart, Empty>),
    FirmwareStartUpdate,
    FirmwareUploadFinished,
}

impl Frame {
    /// The kind of the frame.
    pub open spec fn kind(&self) -> MessageId {
        match self {
            Frame::Serial(_) => MessageId::Serial,
            Frame::HardwareVersion(_) => MessageId::HardwareVersion,
            Frame::FirmwareVersion(_) => MessageId::FirmwareVersion,
            Frame::PendingFirmwareVersion(_) => MessageId::PendingFirmwareVersion,
            Frame::FirmwareUploadPartChangePos(_) => MessageId::FirmwareUploadPartChangePos,
            Frame::FirmwareUploadPause(_) => MessageId::FirmwareUploadPause,
            Frame::FirmwareUploadPart(_) => MessageId::FirmwareUploadPart,
            Frame::FirmwareStartUpdate => MessageId::FirmwareStartUpdate,
            Frame::FirmwareUploadFinished => MessageId::FirmwareUploadFinished,
        }
    }

    /// Whether the frame asks for a value instead of carrying one.
    pub open spec fn is_request(&self) -> bool {
        match self {
            Frame::Serial(t) => t is Request,
            Frame::HardwareVersion(t) => t is Request,
            Frame::FirmwareVersion(t) => t is Request,
            Frame::PendingFirmwareVersion(t) => t is Request,
            Frame::FirmwareUploadPartChangePos(t) => t is Request,
            Frame::FirmwareUploadPause(t) => t is Request,
            Frame::FirmwareUploadPart(t) => t is Request,
            Frame::FirmwareStartUpdate => false,
            Frame::FirmwareUploadFinished => false,
        }
    }

    /// The payload bytes of the frame.
    pub open spec fn payload(&self) -> Seq<u8> {
        match self {
            Frame::Serial(t) => t.wire(),
            Frame::HardwareVersion(t) => t.wire(),
            Frame::FirmwareVersion(t) => t.wire(),
            Frame::PendingFirmwareVersion(t) => t.wire(),
            Frame::FirmwareUploadPartChangePos(t) => t.wire(),
            Frame::FirmwareUploadPause(t) => t.wire(),
            Frame::FirmwareUploadPart(t) => t.wire(),
            Frame::FirmwareStartUpdate => Seq::empty(),
            Frame::FirmwareUploadFinished => Seq::empty(),
        }
    }

    /// Whether the positions in the frame are in range. Every frame that
    /// the library hands out is well formed.
    pub open spec fn wf(&self) -> bool {
        match self {
            Frame::FirmwareUploadPartChangePos(Type::Data(pos)) => pos.wf(),
            Frame::FirmwareUploadPart(Type::Data(part)) => part.wf(),
            _ => true,
        }
    }

    /// Whether frames of a kind may be requests.
    pub open spec fn has_request(id: MessageId) -> bool {
        match id {
            MessageId::Serial => true,
            MessageId::HardwareVersion => true,
            MessageId::FirmwareVersion => true,
            MessageId::PendingFirmwareVersion => true,
            MessageId::FirmwareUploadPartChangePos => true,
            _ => false,
        }
    }

    /// The frame that a payload of a kind stands for, or why it stands for
    /// none.
    ///
    /// A request of a kind that has requests is that request, whatever the
    /// payload holds; a request of any other kind is a `RemoteFrame`.
    /// Otherwise the payload is read as the kind's value, and is of the
    /// `WrongDataSize` where it is too short for one (a serial number is
    /// exactly five bytes).
    pub open spec fn parse(id: MessageId, data: Seq<u8>, is_request: bool) -> Result<
        Frame,
        ParseError,
    > {
        match id {
            MessageId::Serial => match with_request(is_request, Serial::parse(data)) {
                Ok(t) => Ok(Frame::Serial(t)),
                Err(e) => Err(e),
            },
            MessageId::HardwareVersion => match with_request(is_request, Version::parse(data)) {
                Ok(t) => Ok(Frame::HardwareVersion(t)),
                Err(e) => Err(e),
            },
            MessageId::FirmwareVersion => match with_request(is_request, Version::parse(data)) {
                Ok(t) => Ok(Frame::FirmwareVersion(t)),
                Err(e) => Err(e),
            },
            MessageId::PendingFirmwareVersion => match with_request(
                is_request,
                Version::parse(data),
            ) {
                Ok(t) => Ok(Frame::PendingFirmwareVersion(t)),
                Err(e) => Err(e),
            },
            MessageId::FirmwareUploadPartChangePos => match with_request(
                is_request,
                UploadPartChangePos::parse(data),
            ) {
                Ok(t) => Ok(Frame::FirmwareUploadPartChangePos(t)),
                Err(e) => Err(e),
            },
            MessageId::FirmwareUploadPause => match without_request(is_request, parse_flag(data)) {
                Ok(t) => Ok(Frame::FirmwareUploadPause(t)),
                Err(e) => Err(e),
            },
            MessageId::FirmwareUploadPart => match without_request(
                is_request,
                UploadPart::parse(data),
            ) {
                Ok(t) => Ok(Frame::FirmwareUploadPart(t)),
                Err(e) => Err(e),
            },
            MessageId::FirmwareStartUpdate => if is_request {
                Err(ParseError::RemoteFrame)
            } else {
                Ok(Frame::FirmwareStartUpdate)
            },
            MessageId::FirmwareUploadFinished => if is_request {
                Err(ParseError::RemoteFrame)
            } else {
                Ok(Frame::FirmwareUploadFinished)
            },
        }
    }

    /// Reads the payload of a frame of kind `frame_id`.
    pub fn parse_frame(frame_id: MessageId, data: &[u8], is_request: bool) -> (r: Result<
        Frame,
        ParseError,
    >)
        ensures
            r == Frame::parse(frame_id, data@, is_request),
            r matches Ok(f) ==> f.wf() && f.kind() == frame_id && f.is_request() == is_request,
    {
        let r = match frame_id {
            MessageId::Serial => {
                match Type::from_slice(is_request, data) {
                    Some(t) => Ok(Frame::Serial(t)),
                    None => Err(ParseError::WrongDataSize),
                }
            },
            MessageId::HardwareVersion => {
                match Type::from_slice(is_request, data) {
                    Some(t) => Ok(Frame::HardwareVersion(t)),
                    None => Err(ParseError::WrongDataSize),
                }
            },
            MessageId::FirmwareVersion => {
                match Type::from_slice(is_request, data) {
                    Some(t) => Ok(Frame::FirmwareVersion(t)),
                    None => Err(ParseError::WrongDataSize),
                }
            },
            MessageId::PendingFirmwareVersion => {
                match Type::from_slice(is_request, data) {
                    Some(t) => Ok(Frame::PendingFirmwareVersion(t)),
                    None => Err(ParseError::WrongDataSize),
                }
            },
            MessageId::FirmwareUploadPartChangePos => {
                match Type::from_slice(is_request, data) {
                    Some(t) => Ok(Frame::FirmwareUploadPartChangePos(t)),
                    None => Err(ParseError::WrongDataSize),
                }
            },
            MessageId::FirmwareUploadPause => match is_request {
                false => {
                    match data.first() {
                        Some(byte) => Ok(Frame::FirmwareUploadPause(Type::Data(*byte != 0))),
                        None => Err(ParseError::WrongDataSize),
                    }
                },
                true => Err(ParseError::RemoteFrame),
            },
            MessageId::FirmwareUploadPart => match is_request {
                false => {
                    match Type::from_slice(is_request, data) {
                        Some(t) => Ok(Frame::FirmwareUploadPart(t)),
                        None => Err(ParseError::WrongDataSize),
                    }
                },
                true => Err(ParseError::RemoteFrame),
            },
            MessageId::FirmwareStartUpdate => match is_request {
                true => Err(ParseError::RemoteFrame),
                false => Ok(Frame::FirmwareStartUpdate),
            },
            MessageId::FirmwareUploadFinished => match is_request {
                true => Err(ParseError::RemoteFrame),
                false => Ok(Frame::FirmwareUploadFinished),
            },
        };
        proof {
            Frame::lemma_parse_wf(frame_id, data@, is_request);
        }
        r
    }

    /// Every frame that a payload stands for is well formed, of the kind
    /// asked for, and a request exactly where the payload came as one.
    pub proof fn lemma_parse_wf(id: MessageId, data: Seq<u8>, is_request: bool)
        ensures
            Frame::parse(id, data, is_request) matches Ok(f) ==> f.wf() && f.kind() == id
                && f.is_request() == is_request && (is_request ==> Frame::has_request(id)),
    {
        if data.len() >= 3 {
            UploadPartChangePos::lemma_value_at(be24(data[0], data[1], data[2]) as nat);
        }
        if data.len() >= 8 {
            UploadPart::lemma_at(
                UploadPartChangePos::at(be24(data[0], data[1], data[2]) as nat),
                [data[3], data[4], data[5], data[6], data[7]],
            );
        }
    }

    /// Writing the payload of a frame and reading it again gives the frame
    /// back.
    ///
    /// This holds of every well-formed frame but a request of a kind that
    /// has no requests. Bytes that follow the payload do not matter, except
    /// after a serial number, which must end where the buffer ends.
    pub proof fn lemma_round_trip(self, rest: Seq<u8>)
        requires
            self.wf(),
            self.is_request() ==> Frame::has_request(self.kind()),
            self matches Frame::Serial(Type::Data(_)) ==> rest.len() == 0,
        ensures
            Frame::parse(self.kind(), self.payload() + rest, self.is_request()) == Ok::<
                _,
                ParseError,
            >(self),
    {
        match self {
            Frame::Serial(Type::Data(v)) => {
                v.lemma_round_trip();
            },
            Frame::HardwareVersion(Type::Data(v)) => {
                v.lemma_round_trip(rest);
            },
            Frame::FirmwareVersion(Type::Data(v)) => {
                v.lemma_round_trip(rest);
            },
            Frame::PendingFirmwareVersion(Type::Data(v)) => {
                v.lemma_round_trip(rest);
            },
            Frame::FirmwareUploadPartChangePos(Type::Data(v)) => {
                v.lemma_round_trip(rest);
            },
            Frame::FirmwareUploadPart(Type::Data(v)) => {
                v.lemma_round_trip(rest);
            },
            _ => {},
        }
    }

    /// Writes the payload over the first bytes of `dst`; returns its length
    /// and whether the frame is a request. Where `dst` is too short,
    /// nothing is written and the result is `None`.
    pub fn frame_into_slise(&self, dst: &mut [u8]) -> (r: Option<(usize, bool)>)
        ensures
            final(dst)@.len() == old(dst)@.len(),
            r is Some <==> self.payload().len() <= old(dst)@.len(),
            r matches Some((n, is_request)) ==> n == self.payload().len() && is_request
                == self.is_request() && final(dst)@ == self.payload() + old(dst)@.skip(n as int),
            r is None ==> final(dst)@ == old(dst)@,
    {
        match self {
            Frame::Serial(v) => v.into_slice(dst),
            Frame::HardwareVersion(v) => v.into_slice(dst),
            Frame::FirmwareVersion(v) => v.into_slice(dst),
            Frame::PendingFirmwareVersion(v) => v.into_slice(dst),
            Frame::FirmwareUploadPartChangePos(v) => v.into_slice(dst),
            Frame::FirmwareUploadPause(v) => v.into_slice(dst),
            Frame::FirmwareUploadPart(v) => v.into_slice(dst),
            Frame::FirmwareStartUpdate => Some((0, false)),
            Frame::FirmwareUploadFinished => Some((0, false)),
        }
    }

    /// The kind of the frame.
    #[inline]
    pub fn id(&self) -> (r: MessageId)
        ensures
            r == self.kind(),
    {
        match self {
            Frame::Serial(_) => MessageId::Serial,
            Frame::HardwareVersion(_) => MessageId::HardwareVersion,
            Frame::FirmwareVersion(_) => MessageId::FirmwareVersion,
            Frame::PendingFirmwareVersion(_) => MessageId::PendingFirmwareVersion,
            Frame::FirmwareUploadPartChangePos(_) => MessageId::FirmwareUploadPartChangePos,
            Frame::FirmwareUploadPause(_) => MessageId::FirmwareUploadPause,
            Frame::FirmwareUploadPart(_) => MessageId::FirmwareUploadPart,
            Frame::FirmwareStartUpdate => MessageId::FirmwareStartUpdate,
            Frame::FirmwareUploadFinished => MessageId::FirmwareUploadFinished,
        }
    }
}

} // verus!
