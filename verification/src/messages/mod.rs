//! The messages of the bus and their payloads.

use crate::message_id::MessageId;
use crate::messages::battery::Battery;
use crate::messages::firmware::{UploadPart, UploadPartChangePos};
use crate::messages::helpers::CopyIntoSlice;
use crate::messages::serial::Serial;
use crate::messages::version::Version;
use vstd::prelude::*;
use vstd::std_specs::convert::{TryFromSpec, TryFromSpecImpl};

pub mod battery;
pub mod firmware;
pub mod helpers;
pub mod serial;
pub mod version;

verus! {

/// What a frame of some kind carries: a value, or a request for one.
#[derive(Debug, Copy, Clone, Eq, PartialEq)]
pub enum Type<D, R> {
    Data(D),
    Request(R),
}

impl<D, R> Type<D, R> {
    /// What `from_slice` returns where the two readers behave as their
    /// specifications say.
    pub open spec fn parse<'a>(is_request: bool, data: &'a [u8]) -> Option<Self> where
        D: TryFrom<&'a [u8]>,
        R: TryFrom<&'a [u8]>,
     {
        if is_request {
            match R::try_from_spec(data) {
                Ok(request) => Some(Type::Request(request)),
                Err(_) => None,
            }
        } else {
            match D::try_from_spec(data) {
                Ok(value) => Some(Type::Data(value)),
                Err(_) => None,
            }
        }
    }

    /// Reads the payload of a frame: a request where the frame is one, a
    /// value where it is not. `None` where the bytes are not a payload of
    /// that form.
    ///
    /// The reader of the one form is handed all of `data`, and the reader
    /// of the other is not asked: what is returned is what that reader
    /// returned, and `None` stands for its failure. This is stated of every
    /// reader, also of one that has no specification.
    pub fn from_slice<'a>(is_request: bool, data: &'a [u8]) -> (r: Option<Self>) where
        D: TryFrom<&'a [u8]>,
        R: TryFrom<&'a [u8]>,

        ensures
            r matches Some(t) ==> (t is Request <==> is_request),
            is_request && R::obeys_try_from_spec() ==> r == Self::parse(is_request, data),
            !is_request && D::obeys_try_from_spec() ==> r == Self::parse(is_request, data),
            r matches Some(Type::Data(value)) ==> call_ensures(
                D::try_from,
                (data,),
                Ok::<D, <D as TryFrom<&'a [u8]>>::Error>(value),
            ),
            r matches Some(Type::Request(request)) ==> call_ensures(
                R::try_from,
                (data,),
                Ok::<R, <R as TryFrom<&'a [u8]>>::Error>(request),
            ),
            r is None && !is_request ==> exists|e: <D as TryFrom<&'a [u8]>>::Error|
                call_ensures(D::try_from, (data,), Err::<D, <D as TryFrom<&'a [u8]>>::Error>(e)),
            r is None && is_request ==> exists|e: <R as TryFrom<&'a [u8]>>::Error|
                call_ensures(R::try_from, (data,), Err::<R, <R as TryFrom<&'a [u8]>>::Error>(e)),
    {
        match is_request {
            false => match D::try_from(data) {
                Ok(value) => Some(Type::Data(value)),
                Err(_) => None,
            },
            true => match R::try_from(data) {
                Ok(request) => Some(Type::Request(request)),
                Err(_) => None,
            },
        }
    }

    /// The bytes of the payload.
    pub open spec fn wire(&self) -> Seq<u8> where D: CopyIntoSlice, R: CopyIntoSlice {
        match self {
            Type::Data(value) => value.wire(),
            Type::Request(request) => request.wire(),
        }
    }

    /// Writes the payload over the first bytes of `dst`; returns its length
    /// and whether it is a request. Where `dst` is too short, nothing is
    /// written and the result is `None`.
    pub fn into_slice(&self, dst: &mut [u8]) -> (r: Option<(usize, bool)>) where
        D: CopyIntoSlice,
        R: CopyIntoSlice,

        ensures
            final(dst)@.len() == old(dst)@.len(),
            r is Some <==> self.wire().len() <= old(dst)@.len(),
            r matches Some((n, is_request)) ==> n == self.wire().len() && (is_request
                <==> self is Request) && final(dst)@ == self.wire() + old(dst)@.skip(n as int),
            r is None ==> final(dst)@ == old(dst)@,
    {
        match self {
            Type::Data(value) => match value.copy_into_slice(dst) {
                Some(n) => Some((n, false)),
                None => None,
            },
            Type::Request(request) => match request.copy_into_slice(dst) {
                Some(n) => Some((n, true)),
                None => None,
            },
        }
    }
}

/// The payload of a request: nothing.
#[derive(Debug, Clone, Eq, PartialEq)]
pub struct Empty;

impl<'a> TryFrom<&'a [u8]> for Empty {
    type Error = ();

    /// Reads nothing; whatever bytes there are stay unread.
    fn try_from(_value: &'a [u8]) -> (r: Result<Self, ()>) {
        Ok(Empty)
    }
}

impl<'a> TryFromSpecImpl<&'a [u8]> for Empty {
    open spec fn obeys_try_from_spec() -> bool {
        true
    }

    open spec fn try_from_spec(v: &'a [u8]) -> Result<Self, ()> {
        Ok(Empty)
    }
}

impl CopyIntoSlice for Empty {
    open spec fn wire(&self) -> Seq<u8> {
        Seq::empty()
    }

    fn copy_into_slice(&self, _dst: &mut [u8]) -> (r: Option<usize>) {
        Some(0)
    }
}

/// A message of the bus: one variant for each kind that has a payload
/// codec.
#[derive(Debug, Clone, Eq, PartialEq)]
pub enum Message {
    Serial(Type<Serial, Empty>),
    HardwareVersion(Type<Version, Empty>),
    FirmwareVersion(Type<Version, Empty>),
    PendingFirmwareVersion(Type<Version, Empty>),
    FirmwareUploadPartChangePos(Type<UploadPartChangePos, Empty>),
    FirmwareUploadPause(Type<bool, Empty>),
    FirmwareUploadPart(Type<UploadPart, Empty>),
    FirmwareStartUpdate,
    FirmwareUploadFinished,
    Battery(Type<Battery, Empty>),
}

/// Why a frame is not a message.
#[derive(Debug, Copy, Clone, Eq, PartialEq, Structural)]
pub enum ParseError {
    /// The payload has not the length that its kind asks for.
    WrongDataSize,
    /// The payload has a possible length, but its bytes stand for nothing.
    WrongData,
    /// No kind has the code in the header.
    UnknownId,
    /// The frame is a request, and its kind has no requests.
    RemoteFrame,
    /// Kept for peers that still report a request of the wrong length.
    RemovedWrongDlc,
    /// Anything else, such as a frame without a header.
    Other,
}

/// The payload of a kind that has requests: the request where the frame is
/// one, otherwise the value that was read, and `WrongDataSize` where none
/// was.
pub open spec fn with_request<D>(is_request: bool, value: Option<D>) -> Result<
    Type<D, Empty>,
    ParseError,
> {
    if is_request {
        Ok(Type::Request(Empty))
    } else {
        match value {
            Some(v) => Ok(Type::Data(v)),
            None => Err(ParseError::WrongDataSize),
        }
    }
}

/// The payload of a kind that has no requests: `RemoteFrame` where the
/// frame is one, otherwise the value that was read, and `WrongDataSize`
/// where none was.
pub open spec fn without_request<D>(is_request: bool, value: Option<D>) -> Result<
    Type<D, Empty>,
    ParseError,
> {
    if is_request {
        Err(ParseError::RemoteFrame)
    } else {
        match value {
            Some(v) => Ok(Type::Data(v)),
            None => Err(ParseError::WrongDataSize),
        }
    }
}

/// The flag that the first byte of `data` stands for: set unless the byte
/// is zero. None where `data` is empty.
pub open spec fn parse_flag(data: Seq<u8>) -> Option<bool> {
    if data.len() >= 1 {
        Some(data[0] != 0)
    } else {
        None
    }
}

impl Message {
    /// The kind of the message.
    pub open spec fn kind(&self) -> MessageId {
        match self {
            Message::Serial(_) => MessageId::Serial,
            Message::HardwareVersion(_) => MessageId::HardwareVersion,
            Message::FirmwareVersion(_) => MessageId::FirmwareVersion,
            Message::PendingFirmwareVersion(_) => MessageId::PendingFirmwareVersion,
            Message::FirmwareUploadPartChangePos(_) => MessageId::FirmwareUploadPartChangePos,
            Message::FirmwareUploadPause(_) => MessageId::FirmwareUploadPause,
            Message::FirmwareUploadPart(_) => MessageId::FirmwareUploadPart,
            Message::FirmwareStartUpdate => MessageId::FirmwareStartUpdate,
            Message::FirmwareUploadFinished => MessageId::FirmwareUploadFinished,
            Message::Battery(_) => MessageId::Battery,
        }
    }

    /// Whether the message asks for a value instead of carrying one.
    pub open spec fn is_request(&self) -> bool {
        match self {
            Message::Serial(t) => t is Request,
            Message::HardwareVersion(t) => t is Request,
            Message::FirmwareVersion(t) => t is Request,
            Message::PendingFirmwareVersion(t) => t is Request,
            Message::FirmwareUploadPartChangePos(t) => t is Request,
            Message::FirmwareUploadPause(t) => t is Request,
            Message::FirmwareUploadPart(t) => t is Request,
            Message::FirmwareStartUpdate => false,
            Message::FirmwareUploadFinished => false,
            Message::Battery(t) => t is Request,
        }
    }

    /// The payload bytes of the message.
    pub open spec fn payload(&self) -> Seq<u8> {
        match self {
            Message::Serial(t) => t.wire(),
            Message::HardwareVersion(t) => t.wire(),
            Message::FirmwareVersion(t) => t.wire(),
            Message::PendingFirmwareVersion(t) => t.wire(),
            Message::FirmwareUploadPartChangePos(t) => t.wire(),
            Message::FirmwareUploadPause(t) => t.wire(),
            Message::FirmwareUploadPart(t) => t.wire(),
            Message::FirmwareStartUpdate => Seq::empty(),
            Message::FirmwareUploadFinished => Seq::empty(),
            Message::Battery(t) => t.wire(),
        }
    }

    /// Whether the positions in the message are in range. Every message
    /// that the library hands out is well formed.
    pub open spec fn wf(&self) -> bool {
        match self {
            Message::FirmwareUploadPartChangePos(Type::Data(pos)) => pos.wf(),
            Message::FirmwareUploadPart(Type::Data(part)) => part.wf(),
            _ => true,
        }
    }

    /// Whether frames of a kind may be requests.
    pub open spec fn has_request(id: MessageId) -> bool {
        match id {
            MessageId::Serial => true,
            MessageId::HardwareVersion => true,
            MessageId::FirmwareVersion => true,
            MessageId::PendingFirmwareVersion => true,
            MessageId::FirmwareUploadPartChangePos => true,
            MessageId::Battery => true,
            _ => false,
        }
    }

    /// The message that a payload of a kind stands for, or why it stands
    /// for none.
    ///
    /// A request of a kind that has requests is that request, whatever the
    /// payload holds; a request of any other kind is a `RemoteFrame`.
    /// Otherwise the payload is read as the kind's value, and is of the
    /// `WrongDataSize` where it is too short for one (a serial number is
    /// exactly five bytes). `Reboot` has no payload codec: it is `Other`.
    pub open spec fn parse(id: MessageId, data: Seq<u8>, is_request: bool) -> Result<
        Message,
        ParseError,
    > {
        match id {
            MessageId::Serial => match with_request(is_request, Serial::parse(data)) {
                Ok(t) => Ok(Message::Serial(t)),
                Err(e) => Err(e),
            },
            MessageId::HardwareVersion => match with_request(is_request, Version::parse(data)) {
                Ok(t) => Ok(Message::HardwareVersion(t)),
                Err(e) => Err(e),
            },
            MessageId::FirmwareVersion => match with_request(is_request, Version::parse(data)) {
                Ok(t) => Ok(Message::FirmwareVersion(t)),
                Err(e) => Err(e),
            },
            MessageId::Reboot => Err(ParseError::Other),
            MessageId::PendingFirmwareVersion => match with_request(
                is_request,
                Version::parse(data),
            ) {
                Ok(t) => Ok(Message::PendingFirmwareVersion(t)),
                Err(e) => Err(e),
            },
            MessageId::FirmwareUploadPartChangePos => match with_request(
                is_request,
                UploadPartChangePos::parse(data),
            ) {
                Ok(t) => Ok(Message::FirmwareUploadPartChangePos(t)),
                Err(e) => Err(e),
            },
            MessageId::FirmwareUploadPause => match without_request(is_request, parse_flag(data)) {
                Ok(t) => Ok(Message::FirmwareUploadPause(t)),
                Err(e) => Err(e),
            },
            MessageId::FirmwareUploadPart => match without_request(
                is_request,
                UploadPart::parse(data),
            ) {
                Ok(t) => Ok(Message::FirmwareUploadPart(t)),
                Err(e) => Err(e),
            },
            MessageId::FirmwareStartUpdate => if is_request {
                Err(ParseError::RemoteFrame)
            } else {
                Ok(Message::FirmwareStartUpdate)
            },
            MessageId::FirmwareUploadFinished => if is_request {
                Err(ParseError::RemoteFrame)
            } else {
                Ok(Message::FirmwareUploadFinished)
            },
            MessageId::Battery => match with_request(is_request, Battery::parse(data)) {
                Ok(t) => Ok(Message::Battery(t)),
                Err(e) => Err(e),
            },
        }
    }

    /// The shortest payload that stands for a value of a kind.
    pub open spec fn payload_len(id: MessageId) -> nat {
        match id {
            MessageId::Serial => 5,
            MessageId::HardwareVersion => 8,
            MessageId::FirmwareVersion => 8,
            MessageId::Reboot => 0,
            MessageId::PendingFirmwareVersion => 8,
            MessageId::FirmwareUploadPartChangePos => 3,
            MessageId::FirmwareUploadPause => 1,
            MessageId::FirmwareUploadPart => 8,
            MessageId::FirmwareStartUpdate => 0,
            MessageId::FirmwareUploadFinished => 0,
            MessageId::Battery => 5,
        }
    }

    /// Which payloads stand for a message, and which error each of the
    /// others gives.
    ///
    /// A payload of the kind `Reboot` is `Other`. Of the other kinds, a
    /// request of a kind without requests is a `RemoteFrame`, and a value
    /// whose payload is shorter than the kind asks for, or a serial number
    /// that is longer, is of the `WrongDataSize`. Everything else stands for
    /// a message, and no other error comes from a payload.
    pub proof fn lemma_parse_errors(id: MessageId, data: Seq<u8>, is_request: bool)
        ensures
            Message::parse(id, data, is_request) == Err::<Message, _>(ParseError::Other) <==> id
                == MessageId::Reboot,
            Message::parse(id, data, is_request) == Err::<Message, _>(ParseError::RemoteFrame)
                <==> id != MessageId::Reboot && is_request && !Message::has_request(id),
            Message::parse(id, data, is_request) == Err::<Message, _>(ParseError::WrongDataSize)
                <==> id != MessageId::Reboot && !is_request && (data.len() < Message::payload_len(
                id,
            ) || (id == MessageId::Serial && data.len() != 5)),
            Message::parse(id, data, is_request) matches Err(e) ==> e == ParseError::Other || e
                == ParseError::RemoteFrame || e == ParseError::WrongDataSize,
    {
    }

    /// Reads the payload of a frame of kind `message_id`.
    pub fn parse_message(message_id: MessageId, data: &[u8], is_request: bool) -> (r: Result<
        Message,
        ParseError,
    >)
        ensures
            r == Message::parse(message_id, data@, is_request),
            r matches Ok(m) ==> m.wf() && m.kind() == message_id && m.is_request() == is_request,
    {
        let r = match message_id {
            MessageId::Serial => {
                match Type::from_slice(is_request, data) {
                    Some(t) => Ok(Message::Serial(t)),
                    None => Err(ParseError::WrongDataSize),
                }
            },
            MessageId::HardwareVersion => {
                match Type::from_slice(is_request, data) {
                    Some(t) => Ok(Message::HardwareVersion(t)),
                    None => Err(ParseError::WrongDataSize),
                }
            },
            MessageId::FirmwareVersion => {
                match Type::from_slice(is_request, data) {
                    Some(t) => Ok(Message::FirmwareVersion(t)),
                    None => Err(ParseError::WrongDataSize),
                }
            },
            MessageId::Reboot => Err(ParseError::Other),
            MessageId::PendingFirmwareVersion => {
                match Type::from_slice(is_request, data) {
                    Some(t) => Ok(Message::PendingFirmwareVersion(t)),
                    None => Err(ParseError::WrongDataSize),
                }
            },
            MessageId::FirmwareUploadPartChangePos => {
                match Type::from_slice(is_request, data) {
                    Some(t) => Ok(Message::FirmwareUploadPartChangePos(t)),
                    None => Err(ParseError::WrongDataSize),
                }
            },
            MessageId::FirmwareUploadPause => match is_request {
                false => {
                    match data.first() {
                        Some(byte) => Ok(Message::FirmwareUploadPause(Type::Data(*byte != 0))),
                        None => Err(ParseError::WrongDataSize),
                    }
                },
                true => Err(ParseError::RemoteFrame),
            },
            MessageId::FirmwareUploadPart => match is_request {
                false => {
                    match Type::from_slice(is_request, data) {
                        Some(t) => Ok(Message::FirmwareUploadPart(t)),
                        None => Err(ParseError::WrongDataSize),
                    }
                },
                true => Err(ParseError::RemoteFrame),
            },
            MessageId::FirmwareStartUpdate => match is_request {
                true => Err(ParseError::RemoteFrame),
                false => Ok(Message::FirmwareStartUpdate),
            },
            MessageId::FirmwareUploadFinished => match is_request {
                true => Err(ParseError::RemoteFrame),
                false => Ok(Message::FirmwareUploadFinished),
            },
            MessageId::Battery => {
                match Type::from_slice(is_request, data) {
                    Some(t) => Ok(Message::Battery(t)),
                    None => Err(ParseError::WrongDataSize),
                }
            },
        };
        proof {
            Message::lemma_parse_wf(message_id, data@, is_request);
        }
        r
    }

    /// Every message that a payload stands for is well formed, of the kind
    /// asked for, and a request exactly where the frame is one.
    pub proof fn lemma_parse_wf(id: MessageId, data: Seq<u8>, is_request: bool)
        ensures
            Message::parse(id, data, is_request) matches Ok(m) ==> m.wf() && m.kind() == id
                && m.is_request() == is_request && (is_request ==> Message::has_request(id)),
    {
        if data.len() >= 3 {
            UploadPartChangePos::lemma_value_at(
                crate::messages::helpers::be24(data[0], data[1], data[2]) as nat,
            );
        }
        if data.len() >= 8 {
            UploadPart::lemma_at(
                UploadPartChangePos::at(
                    crate::messages::helpers::be24(data[0], data[1], data[2]) as nat,
                ),
                [data[3], data[4], data[5], data[6], data[7]],
            );
        }
    }

    /// Writes the payload over the first bytes of `dst`; returns its length
    /// and whether the message is a request. Where `dst` is too short,
    /// nothing is written and the result is `None`.
    pub fn message_into_slise(&self, dst: &mut [u8]) -> (r: Option<(usize, bool)>)
        ensures
            final(dst)@.len() == old(dst)@.len(),
            r is Some <==> self.payload().len() <= old(dst)@.len(),
            r matches Some((n, is_request)) ==> n == self.payload().len() && is_request
                == self.is_request() && final(dst)@ == self.payload() + old(dst)@.skip(n as int),
            r is None ==> final(dst)@ == old(dst)@,
    {
        match self {
            Message::Serial(v) => v.into_slice(dst),
            Message::HardwareVersion(v) => v.into_slice(dst),
            Message::FirmwareVersion(v) => v.into_slice(dst),
            Message::PendingFirmwareVersion(v) => v.into_slice(dst),
            Message::FirmwareUploadPartChangePos(v) => v.into_slice(dst),
            Message::FirmwareUploadPause(v) => v.into_slice(dst),
            Message::FirmwareUploadPart(v) => v.into_slice(dst),
            Message::FirmwareStartUpdate => Some((0, false)),
            Message::FirmwareUploadFinished => Some((0, false)),
            Message::Battery(v) => v.into_slice(dst),
        }
    }

    /// The kind of the message.
    #[inline]
    pub fn id(&self) -> (r: MessageId)
        ensures
            r == self.kind(),
    {
        match self {
            Message::Serial(_) => MessageId::Serial,
            Message::HardwareVersion(_) => MessageId::HardwareVersion,
            Message::FirmwareVersion(_) => MessageId::FirmwareVersion,
            Message::PendingFirmwareVersion(_) => MessageId::PendingFirmwareVersion,
            Message::FirmwareUploadPartChangePos(_) => MessageId::FirmwareUploadPartChangePos,
            Message::FirmwareUploadPause(_) => MessageId::FirmwareUploadPause,
            Message::FirmwareUploadPart(_) => MessageId::FirmwareUploadPart,
            Message::FirmwareStartUpdate => MessageId::FirmwareStartUpdate,
            Message::FirmwareUploadFinished => MessageId::FirmwareUploadFinished,
            Message::Battery(_) => MessageId::Battery,
        }
    }
}

} // verus!
