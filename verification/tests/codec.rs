use can_messages::message_id::MessageId;
use can_messages::messages::battery::Battery;
use can_messages::messages::firmware::{UploadPart, UploadPartChangePos};
use can_messages::messages::serial::Serial;
use can_messages::messages::version::Version;
use can_messages::messages::{Empty, Message, ParseError, Type};
use can_messages::{decode_envelope, encode_envelope, from_slice, header_byte, to_slice};

#[test]
fn convert_data() {
    let mess = Message::FirmwareUploadPartChangePos(Type::Data(
        UploadPartChangePos::new(1000).unwrap(),
    ));
    // not enough space
    assert_eq!(to_slice(&mess, &mut [1, 2, 3]), None);
    assert_eq!(to_slice(&mess, &mut [1,]), None);
    assert_eq!(to_slice(&mess, &mut []), None);

    let mut buf = [0; 50];
    let size = to_slice(&mess, &mut buf).unwrap();
    assert_eq!(size, 4);

    assert_eq!(from_slice(&[]), None);
    assert_eq!(from_slice(&buf), Some(mess));
}

#[test]
fn convert_request() {
    let mess = Message::FirmwareVersion(Type::Request(Empty));
    // not enough space
    assert_eq!(to_slice(&mess, &mut []), None);

    let mut buf = [0; 50];
    let size = to_slice(&mess, &mut buf).unwrap();
    assert_eq!(size, 1);

    assert_eq!(from_slice(&buf), Some(mess));
}

#[test]
fn frame_bytes() {
    let mess = Message::FirmwareUploadPartChangePos(Type::Data(
        UploadPartChangePos::new(15_000_000).unwrap(),
    ));
    let mut buf = [0xAA; 6];
    assert_eq!(to_slice(&mess, &mut buf), Some(4));
    assert_eq!(buf, [11, 0xE4, 0xE1, 0xC0, 0xAA, 0xAA]);

    let mess = Message::Battery(Type::Request(Empty));
    let mut buf = [0xAA; 2];
    assert_eq!(to_slice(&mess, &mut buf), Some(1));
    assert_eq!(buf, [0x80 | 50, 0xAA]);
}

#[test]
fn frame_that_does_not_fit_leaves_the_buffer() {
    let mess = Message::FirmwareUploadPartChangePos(Type::Data(
        UploadPartChangePos::new(1000).unwrap(),
    ));
    let mut buf = [1, 2, 3];
    assert_eq!(to_slice(&mess, &mut buf), None);
    assert_eq!(buf, [1, 2, 3]);
}

#[test]
fn envelope_of_a_request() {
    let (id, is_request, payload) = decode_envelope(&[0x82]).unwrap();
    assert_eq!(id, MessageId::FirmwareVersion);
    assert!(is_request);
    assert!(payload.is_empty());
    assert_eq!(
        from_slice(&[0x82]),
        Some(Message::FirmwareVersion(Type::Request(Empty)))
    );
}

#[test]
fn envelope_of_a_version() {
    let frame = [0x02, 1, 2, 0, 3, 0, 0, 0x26, 0x88];
    let (id, is_request, payload) = decode_envelope(&frame).unwrap();
    assert_eq!(id, MessageId::FirmwareVersion);
    assert!(!is_request);
    assert_eq!(payload, &frame[1..]);
    assert_eq!(
        from_slice(&frame),
        Some(Message::FirmwareVersion(Type::Data(Version {
            major: 1,
            minor: 2,
            path: 3,
            build: 9864,
        })))
    );
}

#[test]
fn envelope_errors() {
    assert_eq!(decode_envelope(&[]), Err(ParseError::Other));
    assert_eq!(decode_envelope(&[4]), Err(ParseError::UnknownId));
    assert_eq!(decode_envelope(&[0x7F, 1, 2]), Err(ParseError::UnknownId));
    assert_eq!(decode_envelope(&[0x80 | 51]), Err(ParseError::UnknownId));
    assert_eq!(from_slice(&[4]), None);
    assert_eq!(
        decode_envelope(&[3]),
        Ok((MessageId::Reboot, false, &[0u8; 0][..]))
    );
    assert_eq!(from_slice(&[3]), None);
}

#[test]
fn pause_under_a_request_header() {
    let (id, is_request, payload) = decode_envelope(&[0x80 | 12, 1]).unwrap();
    assert_eq!(id, MessageId::FirmwareUploadPause);
    assert!(is_request);
    assert_eq!(
        Message::parse_message(id, payload, is_request),
        Err(ParseError::RemoteFrame)
    );
    assert_eq!(from_slice(&[0x80 | 12, 1]), None);
}

#[test]
fn header_bytes() {
    assert_eq!(header_byte(MessageId::Serial, false), 0x00);
    assert_eq!(header_byte(MessageId::Serial, true), 0x80);
    assert_eq!(header_byte(MessageId::FirmwareVersion, true), 0x82);
    assert_eq!(header_byte(MessageId::Battery, false), 50);
    assert_eq!(header_byte(MessageId::Battery, true), 0xB2);
}

#[test]
fn envelope_written() {
    let mut buf = [0xAA; 8];
    let serial = Serial([1, 2, 3, 4, 5]);
    assert_eq!(
        encode_envelope(MessageId::Serial, false, &serial, &mut buf),
        Ok(6)
    );
    assert_eq!(buf, [0, 1, 2, 3, 4, 5, 0xAA, 0xAA]);

    assert_eq!(
        encode_envelope(MessageId::Serial, true, &Empty, &mut buf),
        Ok(1)
    );
    assert_eq!(buf, [0x80, 1, 2, 3, 4, 5, 0xAA, 0xAA]);

    let mut short = [0xAA; 5];
    assert_eq!(
        encode_envelope(MessageId::Serial, false, &serial, &mut short),
        Err(ParseError::Other)
    );
    assert_eq!(short, [0xAA; 5]);
    assert_eq!(
        encode_envelope(MessageId::Serial, true, &Empty, &mut []),
        Err(ParseError::Other)
    );
}

fn round_trip(mess: Message, len: usize) {
    let mut buf = [0x55u8; 9];
    assert_eq!(to_slice(&mess, &mut buf), Some(len));
    assert_eq!(from_slice(&buf[..len]), Some(mess));
}

#[test]
fn every_kind_round_trips() {
    round_trip(Message::Serial(Type::Data(Serial([1, 2, 3, 4, 5]))), 6);
    round_trip(Message::Serial(Type::Request(Empty)), 1);
    let v = Version {
        major: 0xFF,
        minor: 0,
        path: 0xFFFF,
        build: 0xFFFF_FFFF,
    };
    round_trip(Message::HardwareVersion(Type::Data(v)), 9);
    round_trip(Message::HardwareVersion(Type::Request(Empty)), 1);
    round_trip(Message::FirmwareVersion(Type::Data(v)), 9);
    round_trip(Message::FirmwareVersion(Type::Request(Empty)), 1);
    round_trip(Message::PendingFirmwareVersion(Type::Data(v)), 9);
    round_trip(Message::PendingFirmwareVersion(Type::Request(Empty)), 1);
    round_trip(
        Message::FirmwareUploadPartChangePos(Type::Data(UploadPartChangePos::new(0).unwrap())),
        4,
    );
    round_trip(
        Message::FirmwareUploadPartChangePos(Type::Data(
            UploadPartChangePos::new(0xFFFFFF).unwrap(),
        )),
        4,
    );
    round_trip(Message::FirmwareUploadPartChangePos(Type::Request(Empty)), 1);
    round_trip(Message::FirmwareUploadPause(Type::Data(true)), 2);
    round_trip(Message::FirmwareUploadPause(Type::Data(false)), 2);
    round_trip(
        Message::FirmwareUploadPart(Type::Data(
            UploadPart::new(0xFFFFFF, [1, 2, 3, 4, 5]).unwrap(),
        )),
        9,
    );
    round_trip(Message::FirmwareStartUpdate, 1);
    round_trip(Message::FirmwareUploadFinished, 1);
    round_trip(
        Message::Battery(Type::Data(Battery {
            temperature: [-128, -1, 0, 1, 127],
        })),
        6,
    );
    round_trip(Message::Battery(Type::Request(Empty)), 1);
}

#[test]
fn request_of_a_kind_without_requests_does_not_round_trip() {
    let mess = Message::FirmwareUploadPause(Type::Request(Empty));
    let mut buf = [0u8; 9];
    assert_eq!(to_slice(&mess, &mut buf), Some(1));
    assert_eq!(buf[0], 0x80 | 12);
    assert_eq!(from_slice(&buf[..1]), None);
}

#[test]
fn serial_frame_must_end_with_the_buffer() {
    let mess = Message::Serial(Type::Data(Serial([1, 2, 3, 4, 5])));
    let mut buf = [0u8; 9];
    assert_eq!(to_slice(&mess, &mut buf), Some(6));
    assert_eq!(from_slice(&buf[..6]), Some(mess));
    assert_eq!(from_slice(&buf[..7]), None);
}

#[test]
fn reading_then_writing_gives_the_frame_back() {
    let frames: [&[u8]; 6] = [
        &[0x00, 1, 2, 3, 4, 5],
        &[0x02, 1, 2, 0, 3, 0, 0, 0x26, 0x88],
        &[0x0B, 0xE4, 0xE1, 0xC0],
        &[0x0C, 1],
        &[0x0D, 0xFF, 0xFF, 0xFF, 1, 2, 3, 4, 5],
        &[0xB2],
    ];
    for frame in frames {
        let mess = from_slice(frame).unwrap();
        let mut buf = [0u8; 9];
        let size = to_slice(&mess, &mut buf).unwrap();
        assert_eq!(&buf[..size], frame);
    }
}
