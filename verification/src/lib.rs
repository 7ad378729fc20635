//! A codec for the messages of a small control bus. A frame is one header
//! byte, which holds the kind of the message in its low seven bits and
//! marks a request with its high bit, and at most eight payload bytes.

use crate::message_id::{lemma_code_lookup, MessageId};
use crate::messages::helpers::CopyIntoSlice;
use crate::messages::{Message, ParseError, Type};
use vstd::prelude::*;

pub mod bounded;
pub mod frames;
pub mod message;
pub mod message_id;
pub mod messages;

verus! {

/// The header byte of a frame of kind `id`.
pub open spec fn header(id: MessageId, is_request: bool) -> u8 {
    (id.code() & 0x7F) | (if is_request {
        0x80u8
    } else {
        0u8
    })
}

/// What a frame is made of: its kind, whether it is a request, and its
/// payload. `Other` for a frame without a header, `UnknownId` where no kind
/// has the code in the header.
pub open spec fn envelope(bytes: Seq<u8>) -> Result<(MessageId, bool, Seq<u8>), ParseError> {
    if bytes.len() == 0 {
        Err(ParseError::Other)
    } else {
        match MessageId::lookup(bytes[0] & 0x7F) {
            Some(id) => Ok((id, bytes[0] & 0x80 != 0, bytes.skip(1))),
            None => Err(ParseError::UnknownId),
        }
    }
}

/// The message that a frame stands for, or why it stands for none.
pub open spec fn decode(bytes: Seq<u8>) -> Result<Message, ParseError> {
    match envelope(bytes) {
        Ok((id, is_request, payload)) => Message::parse(id, payload, is_request),
        Err(e) => Err(e),
    }
}

/// The frame that stands for a message.
pub open spec fn frame(message: Message) -> Seq<u8> {
    seq![header(message.kind(), message.is_request())] + message.payload()
}

/// The header byte of a frame of kind `id`.
pub fn header_byte(id: MessageId, is_request: bool) -> (r: u8)
    ensures
        r == header(id, is_request),
{
    let code: u8 = match id.to_u8() {
        Some(code) => code,
        None => 0,
    };
    if is_request {
        (code & 0x7F) | 0x80
    } else {
        (code & 0x7F) | 0
    }
}

/// Takes a frame apart into its kind, whether it is a request, and its
/// payload, which is left unread.
pub fn decode_envelope(data: &[u8]) -> (r: Result<(MessageId, bool, &[u8]), ParseError>)
    ensures
        match r {
            Ok((id, is_request, payload)) => envelope(data@) == Ok::<_, ParseError>(
                (id, is_request, payload@),
            ),
            Err(e) => envelope(data@) == Err::<(MessageId, bool, Seq<u8>), _>(e),
        },
{
    if data.len() == 0 {
        return Err(ParseError::Other);
    }
    let first: u8 = data[0];
    match MessageId::from_u8(first & 0x7F) {
        Some(id) => Ok((id, first & 0x80 != 0, vstd::slice::slice_subrange(data, 1, data.len()))),
        None => Err(ParseError::UnknownId),
    }
}

/// Writes the frame of a payload of kind `id` over the first bytes of
/// `dst` and returns its length. Where `dst` is too short for the header and
/// the payload, nothing is written and the result is `Other`.
pub fn encode_envelope<P: CopyIntoSlice>(
    id: MessageId,
    is_request: bool,
    payload: &P,
    dst: &mut [u8],
) -> (r: Result<usize, ParseError>)
    ensures
        final(dst)@.len() == old(dst)@.len(),
        r is Ok <==> 1 + payload.wire().len() <= old(dst)@.len(),
        r matches Ok(n) ==> n == 1 + payload.wire().len() && final(dst)@ == seq![
            header(id, is_request),
        ] + payload.wire() + old(dst)@.skip(n as int),
        r matches Err(e) ==> e == ParseError::Other && final(dst)@ == old(dst)@,
{
    if dst.len() < 1 {
        return Err(ParseError::Other);
    }
    let byte = header_byte(id, is_request);
    let (head, tail) = dst.split_at_mut(1);
    match payload.copy_into_slice(tail) {
        Some(size) => {
            head[0] = byte;
            assert(head@ + tail@ =~= seq![header(id, is_request)] + payload.wire() + old(
                dst,
            )@.skip(size + 1));
            Ok(size + 1)
        },
        None => Err(ParseError::Other),
    }
}

/// Reads a frame. `None` where it stands for no message.
pub fn from_slice(data: &[u8]) -> (r: Option<Message>)
    ensures
        r == match decode(data@) {
            Ok(message) => Some(message),
            Err(_) => None,
        },
        r matches Some(message) ==> message.wf(),
{
    match decode_envelope(data) {
        Ok((id, is_request, payload)) => match Message::parse_message(id, payload, is_request) {
            Ok(message) => Some(message),
            Err(_) => None,
        },
        Err(_) => None,
    }
}

/// Writes the frame of a message over the first bytes of `dst` and returns
/// its length. Where `dst` is too short for the frame, nothing is written
/// and the result is `None`.
pub fn to_slice(message: &Message, dst: &mut [u8]) -> (r: Option<usize>)
    ensures
        final(dst)@.len() == old(dst)@.len(),
        r is Some <==> frame(*message).len() <= old(dst)@.len(),
        r matches Some(n) ==> n == frame(*message).len() && final(dst)@ == frame(*message) + old(
            dst,
        )@.skip(n as int),
        r matches Some(n) ==> 1 <= n <= 9,
        r is None ==> final(dst)@ == old(dst)@,
{
    proof {
        lemma_frame_len(*message);
    }
    if dst.len() < 1 {
        return None;
    }
    let id = message.id();
    let (head, tail) = dst.split_at_mut(1);
    match message.message_into_slise(tail) {
        Some((size, is_request)) => {
            head[0] = header_byte(id, is_request);
            Some(size + 1)
        },
        None => None,
    }
}

/// The header byte holds the kind and the request mark, and each can be
/// read back from it.
pub proof fn lemma_header(id: MessageId, is_request: bool)
    ensures
        header(id, is_request) & 0x7F == id.code(),
        header(id, is_request) & 0x80 != 0 <==> is_request,
        MessageId::lookup(header(id, is_request) & 0x7F) == Some(id),
{
    lemma_code_lookup(id);
    let c = id.code();
    assert(c < 128 ==> ((c & 0x7F) | 0x80u8) & 0x7F == c) by (bit_vector);
    assert(c < 128 ==> ((c & 0x7F) | 0u8) & 0x7F == c) by (bit_vector);
    assert(((c & 0x7F) | 0x80u8) & 0x80 != 0) by (bit_vector);
    assert(((c & 0x7F) | 0u8) & 0x80 == 0) by (bit_vector);
}

/// A frame is at most nine bytes: the header and at most eight bytes of
/// payload.
pub proof fn lemma_frame_len(message: Message)
    ensures
        1 <= frame(message).len() <= 9,
        message.is_request() ==> frame(message).len() == 1,
{
}

/// Writing a message and reading the frame again gives the message back.
///
/// This holds of every well-formed message but a request of a kind that has
/// no requests: such a frame is refused as a `RemoteFrame`. Bytes that
/// follow the frame in the buffer do not matter, except after a serial
/// number, whose payload must end where the buffer ends.
pub proof fn lemma_round_trip(message: Message, rest: Seq<u8>)
    requires
        message.wf(),
        message.is_request() ==> Message::has_request(message.kind()),
        message matches Message::Serial(Type::Data(_)) ==> rest.len() == 0,
    ensures
        decode(frame(message) + rest) == Ok::<_, ParseError>(message),
{
    lemma_header(message.kind(), message.is_request());
    match message {
        Message::Serial(Type::Data(v)) => {
            v.lemma_round_trip();
        },
        Message::HardwareVersion(Type::Data(v)) => {
            v.lemma_round_trip(rest);
        },
        Message::FirmwareVersion(Type::Data(v)) => {
            v.lemma_round_trip(rest);
        },
        Message::PendingFirmwareVersion(Type::Data(v)) => {
            v.lemma_round_trip(rest);
        },
        Message::FirmwareUploadPartChangePos(Type::Data(v)) => {
            v.lemma_round_trip(rest);
        },
        Message::FirmwareUploadPart(Type::Data(v)) => {
            v.lemma_round_trip(rest);
        },
        Message::Battery(Type::Data(v)) => {
            v.lemma_round_trip(rest);
        },
        _ => {},
    }
}

/// A frame that stands for a message is what writing that message gives,
/// where the frame has exactly the length of its kind and its flag byte, if
/// it has one, is 0 or 1.
pub proof fn lemma_decode_frame(bytes: Seq<u8>, message: Message)
    requires
        decode(bytes) == Ok::<_, ParseError>(message),
        bytes.len() == frame(message).len(),
        message matches Message::FirmwareUploadPause(_) ==> bytes[1] <= 1,
    ensures
        frame(message) == bytes,
{
    let id = envelope(bytes).unwrap().0;
    let is_request = envelope(bytes).unwrap().1;
    let payload = bytes.skip(1);
    crate::message_id::lemma_lookup_code(bytes[0] & 0x7F, id);
    Message::lemma_parse_wf(id, payload, is_request);
    let b = bytes[0];
    assert((b & 0x80 != 0) ==> ((b & 0x7F) & 0x7F) | 0x80u8 == b) by (bit_vector);
    assert(!(b & 0x80 != 0) ==> ((b & 0x7F) & 0x7F) | 0u8 == b) by (bit_vector);
    if !is_request {
        match message {
            Message::Serial(_) => {
                crate::messages::serial::Serial::lemma_parse_wire(payload);
            },
            Message::HardwareVersion(_) => {
                crate::messages::version::Version::lemma_parse_wire(payload);
            },
            Message::FirmwareVersion(_) => {
                crate::messages::version::Version::lemma_parse_wire(payload);
            },
            Message::PendingFirmwareVersion(_) => {
                crate::messages::version::Version::lemma_parse_wire(payload);
            },
            Message::FirmwareUploadPartChangePos(_) => {
                crate::messages::firmware::UploadPartChangePos::lemma_parse_wire(payload);
            },
            Message::FirmwareUploadPart(_) => {
                crate::messages::firmware::UploadPart::lemma_parse_wire(payload);
            },
            Message::Battery(_) => {
                crate::messages::battery::Battery::lemma_parse_wire(payload);
            },
            _ => {},
        }
    }
}

} // verus!
