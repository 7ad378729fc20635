use can_messages::message_id::MessageId;
use can_messages::messages::battery::{Battery, CellState, CellsStates};
use can_messages::messages::firmware::{UploadPart, UploadPartChangePos};
use can_messages::messages::helpers::{CopyIntoSlice, OptionWrapped};
use can_messages::messages::serial::Serial;
use can_messages::messages::version::Version;
use can_messages::messages::Empty;
use core::ops::Deref;

#[test]
fn upload_part_change_pos() {
    assert_eq!(UploadPartChangePos::new(0).unwrap().pos(), 0);
    assert_eq!(
        UploadPartChangePos::new(125468usize).unwrap().pos(),
        125468usize
    );
    assert_eq!(UploadPartChangePos::new(0xFFFFFFusize + 1), None);

    let v = UploadPartChangePos::new(15000000).unwrap();
    let arr: [u8; 3] = v.into();
    assert_eq!(arr, [0xE4, 0xE1, 0xC0]);
    assert_eq!(
        UploadPartChangePos::from(arr).pos(),
        15000000,
        "arr is {:#04x} {:#04x} {:#04x}",
        arr[0],
        arr[1],
        arr[2]
    );
}

#[test]
fn upload_part() {
    assert_eq!(UploadPart::new(0xFFFFFFusize + 1, [1, 2, 3, 4, 5]), None);

    let p = UploadPart::new(0xFFF1FFusize, [1, 2, 3, 4, 5]).unwrap();
    assert_eq!(p.deref(), [1, 2, 3, 4, 5]);
    assert_eq!(p.position(), 0xFFF1FFusize);

    let p = UploadPart::from([0x01, 0x02, 0x03, 1, 2, 3, 4, 5]);
    assert_eq!(p.data, [1, 2, 3, 4, 5]);
    assert_eq!(p.position(), 0x010203usize);

    assert_eq!(<[u8; 8]>::from(p), [0x01, 0x02, 0x03, 1, 2, 3, 4, 5]);
}

#[test]
fn upload_part_as_bytes() {
    let mut p = UploadPart::new(7, [1, 2, 3, 4, 5]).unwrap();
    assert_eq!(p.as_ref(), [1, 2, 3, 4, 5]);
    p.as_mut()[0] = 9;
    p[4] = 8;
    assert_eq!(p.data, [9, 2, 3, 4, 8]);
    assert_eq!(p.position(), 7);
    assert_eq!(p.len(), 5);
}

#[test]
fn upload_positions_at_the_bounds() {
    assert_eq!(UploadPartChangePos::MAX, 0xFFFFFF);
    let low = UploadPartChangePos::new(0).unwrap();
    let high = UploadPartChangePos::new(0xFFFFFF).unwrap();
    assert_eq!(<[u8; 3]>::from(low), [0, 0, 0]);
    assert_eq!(<[u8; 3]>::from(high), [0xFF, 0xFF, 0xFF]);
    assert_eq!(UploadPartChangePos::from([0, 0, 0]), low);
    assert_eq!(UploadPartChangePos::from([0xFF, 0xFF, 0xFF]), high);
    assert_eq!(UploadPartChangePos::try_from(&[0xFFu8, 0xFF, 0xFF][..]), Ok(high));
    assert_eq!(UploadPartChangePos::try_from(&[0xFFu8, 0xFF][..]), Err(()));

    let mut buf = [0u8; 2];
    assert_eq!(high.copy_into_slice(&mut buf), None);
    assert_eq!(buf, [0, 0]);
    let mut buf = [0u8; 4];
    assert_eq!(high.copy_into_slice(&mut buf), Some(3));
    assert_eq!(buf, [0xFF, 0xFF, 0xFF, 0]);

    assert!(UploadPart::new(0xFFFFFF, [0; 5]).is_some());
    let part = UploadPart::try_from(&[0xFFu8, 0xFF, 0xFF, 1, 2, 3, 4, 5, 6][..]).unwrap();
    assert_eq!(part.position(), 0xFFFFFF);
    assert_eq!(part.data, [1, 2, 3, 4, 5]);
    assert_eq!(UploadPart::try_from(&[0u8; 7][..]), Err(()));
}

#[test]
fn version_version() {
    let v = Version {
        major: 1,
        minor: 2,
        path: 3,
        build: 9864,
    };
    let arr: [u8; 8] = v.into();
    assert_eq!(Version::from(arr), v)
}

#[test]
fn version_on_the_wire() {
    let v = Version {
        major: 1,
        minor: 2,
        path: 3,
        build: 9864,
    };
    let arr: [u8; 8] = v.into();
    assert_eq!(arr, [1, 2, 0, 3, 0, 0, 0x26, 0x88]);
    assert_eq!(Version::try_from(&arr[..]), Ok(v));
    assert_eq!(Version::try_from(&arr[..7]), Err(()));

    let v = Version {
        major: 0xFF,
        minor: 0,
        path: 0xABCD,
        build: 0x0102_0304,
    };
    let mut buf = [0u8; 9];
    assert_eq!(v.copy_into_slice(&mut buf), Some(8));
    assert_eq!(buf, [0xFF, 0, 0xAB, 0xCD, 1, 2, 3, 4, 0]);
    assert_eq!(Version::try_from(&buf[..]), Ok(v));
    let mut short = [0u8; 7];
    assert_eq!(v.copy_into_slice(&mut short), None);
}

#[test]
fn battery_test() {
    let s = Battery::from([1, 255, 0, 254, 253]);
    assert_eq!(s.temperature, [1, -1, 0, -2, -3]);

    let s = Battery::try_from([1, 255, 0, 254, 253]).unwrap();
    assert_eq!(s.temperature, [1, -1, 0, -2, -3]);
}

#[test]
fn battery_on_the_wire() {
    let s = Battery {
        temperature: [-128, 127, 0, -1, 25],
    };
    assert_eq!(<[u8; 5]>::from(s), [0x80, 0x7F, 0, 0xFF, 25]);
    let mut buf = [0u8; 5];
    assert_eq!(s.copy_into_slice(&mut buf), Some(5));
    assert_eq!(buf, [0x80, 0x7F, 0, 0xFF, 25]);
    assert_eq!(Battery::try_from(&buf[..]), Ok(s));
    assert_eq!(Battery::try_from(&buf[..4]), Err(()));
    assert_eq!(s.copy_into_slice(&mut buf[..4]), None);
}

#[test]
fn serial_test() {
    let s = Serial::from([1, 2, 3, 4, 5]);
    assert_eq!(s.0, [1, 2, 3, 4, 5]);

    let s = Serial::from([1, 2, 3, 4, 5]);
    assert_eq!(<[u8; 5]>::from(s), [1, 2, 3, 4, 5]);

    let s = Serial::try_from([1, 2, 3, 4, 5, 6].as_slice());
    assert_eq!(s, Err(()));

    let s = Serial::try_from([1, 2, 3, 4, 5].as_slice()).unwrap();
    assert_eq!(s.0, [1, 2, 3, 4, 5]);

    assert_eq!(<heapless::String<10>>::from(&s).as_str(), "0102030405");

    assert_eq!(
        Serial::try_from("010203FFFE").unwrap().0,
        [1, 2, 3, 255, 254]
    );
}

#[test]
fn serial_as_text() {
    let s = Serial([0x00, 0x9A, 0xBC, 0xDE, 0xF0]);
    assert_eq!(<heapless::String<10>>::from(&s).as_str(), "009abcdef0");
    assert_eq!(Serial::try_from("009abcdef0"), Ok(s));
    assert_eq!(Serial::try_from("009ABCDEF0"), Ok(s));
    assert_eq!(Serial::try_from("009abcdef"), Err(()));
    assert_eq!(Serial::try_from("009abcdef00"), Err(()));
    assert_eq!(Serial::try_from("009abcdeg0"), Err(()));
    assert_eq!(Serial::try_from("+1+2+3+4+5"), Err(()));
    assert_eq!(Serial::try_from("00é9abcde"), Err(()));
    assert_eq!(Serial::try_from(""), Err(()));
}

#[test]
fn option_wrapped() {
    let mut buff = [0u8; 200];
    let size = OptionWrapped::<bool>(None).copy_into_slice(&mut buff);
    assert_eq!(size, Some(0));

    // A flag is one byte long, so a closing 1 follows it.
    let size = OptionWrapped(Some(true)).copy_into_slice(&mut buff);
    assert_eq!(size, Some(2));
    assert_ne!(buff[0], 0);

    let size = OptionWrapped(Some(false)).copy_into_slice(&mut buff);
    assert_eq!(size, Some(2));
    assert_eq!(buff[0], 0);

    let size = OptionWrapped(Some(Serial::from([1, 2, 3, 4, 5]))).copy_into_slice(&mut buff);
    assert_eq!(size, Some(5));
    assert_eq!(buff[0..5], [1, 2, 3, 4, 5]);
}

#[test]
fn option_wrapped_bytes() {
    let mut buff = [9u8; 4];
    assert_eq!(OptionWrapped::<bool>(None).copy_into_slice(&mut buff), Some(0));
    assert_eq!(buff, [9, 9, 9, 9]);

    assert_eq!(OptionWrapped(Some(true)).copy_into_slice(&mut buff), Some(2));
    assert_eq!(buff, [1, 1, 9, 9]);

    assert_eq!(OptionWrapped(Some(false)).copy_into_slice(&mut buff), Some(2));
    assert_eq!(buff, [0, 1, 9, 9]);

    assert_eq!(OptionWrapped(Some(Empty)).copy_into_slice(&mut buff), Some(1));
    assert_eq!(buff, [1, 1, 9, 9]);

    let mut buff = [9u8; 6];
    assert_eq!(
        OptionWrapped(Some(Serial::from([1, 2, 3, 4, 5]))).copy_into_slice(&mut buff),
        Some(5)
    );
    assert_eq!(buff, [1, 2, 3, 4, 5, 9]);
}

#[test]
fn option_wrapped_without_room() {
    let mut one = [7u8; 1];
    assert_eq!(OptionWrapped(Some(true)).copy_into_slice(&mut one), None);
    assert_eq!(one, [7]);
    let mut none: [u8; 0] = [];
    assert_eq!(OptionWrapped(Some(true)).copy_into_slice(&mut none), None);
    assert_eq!(OptionWrapped(Some(Empty)).copy_into_slice(&mut none), None);
    assert_eq!(OptionWrapped::<bool>(None).copy_into_slice(&mut none), Some(0));
    let mut four = [7u8; 4];
    assert_eq!(
        OptionWrapped(Some(Serial::from([1, 2, 3, 4, 5]))).copy_into_slice(&mut four),
        None
    );
    assert_eq!(four, [7; 4]);
}

#[test]
fn option_wrapped_read() {
    assert_eq!(
        OptionWrapped::<Serial>::try_from(&[0u8; 0][..]),
        Ok(OptionWrapped(None))
    );
    assert_eq!(
        OptionWrapped::<Serial>::try_from(&[1u8, 2, 3, 4, 5][..]),
        Ok(OptionWrapped(Some(Serial([1, 2, 3, 4, 5]))))
    );
    // Three bytes or more are the value, all of them: too few for a serial number.
    assert_eq!(OptionWrapped::<Serial>::try_from(&[1u8, 2, 1][..]), Err(()));
    // One or two bytes must end in a 1.
    assert_eq!(OptionWrapped::<Empty>::try_from(&[1u8][..]), Ok(OptionWrapped(Some(Empty))));
    assert_eq!(OptionWrapped::<Empty>::try_from(&[0u8][..]), Err(()));
    assert_eq!(OptionWrapped::<Empty>::try_from(&[5u8, 1][..]), Ok(OptionWrapped(Some(Empty))));
    assert_eq!(OptionWrapped::<Empty>::try_from(&[1u8, 2][..]), Err(()));
    // The bytes before the closing 1 are the value: one byte is no cell state.
    assert_eq!(OptionWrapped::<CellState>::try_from(&[3u8, 1][..]), Err(()));
    assert_eq!(
        OptionWrapped::<CellState>::try_from(&[0x90u8, 0x68, 7][..]),
        Ok(OptionWrapped(Some(CellState {
            balancing: true,
            voltage: 4200
        })))
    );
}

#[test]
fn option_wrapped_round_trip() {
    let mut buff = [0u8; 8];
    let value = OptionWrapped(Some(Serial([9, 8, 7, 6, 5])));
    let size = value.copy_into_slice(&mut buff).unwrap();
    assert_eq!(OptionWrapped::<Serial>::try_from(&buff[..size]), Ok(value));

    let value = OptionWrapped(Some(Empty));
    let size = value.copy_into_slice(&mut buff).unwrap();
    assert_eq!(OptionWrapped::<Empty>::try_from(&buff[..size]), Ok(value));

    let value: OptionWrapped<Serial> = OptionWrapped(None);
    let size = value.copy_into_slice(&mut buff).unwrap();
    assert_eq!(OptionWrapped::<Serial>::try_from(&buff[..size]), Ok(value));
}

#[test]
fn flag_and_nothing() {
    let mut buf = [9u8; 2];
    assert_eq!(true.copy_into_slice(&mut buf), Some(1));
    assert_eq!(buf, [1, 9]);
    assert_eq!(false.copy_into_slice(&mut buf), Some(1));
    assert_eq!(buf, [0, 9]);
    assert_eq!(Empty.copy_into_slice(&mut buf), Some(0));
    assert_eq!(buf, [0, 9]);
    let mut none: [u8; 0] = [];
    assert_eq!(true.copy_into_slice(&mut none), None);
    assert_eq!(Empty.copy_into_slice(&mut none), Some(0));
    assert_eq!(Empty::try_from(&[1u8, 2, 3][..]), Ok(Empty));
}

#[test]
fn message_id_message_id() {
    assert_eq!(MessageId::from_u8(0), Some(MessageId::Serial));
    assert_eq!(MessageId::from_u8(200), None);
}

#[test]
fn identifier_table() {
    let table = [
        (0u8, MessageId::Serial),
        (1, MessageId::HardwareVersion),
        (2, MessageId::FirmwareVersion),
        (3, MessageId::Reboot),
        (10, MessageId::PendingFirmwareVersion),
        (11, MessageId::FirmwareUploadPartChangePos),
        (12, MessageId::FirmwareUploadPause),
        (13, MessageId::FirmwareUploadPart),
        (14, MessageId::FirmwareStartUpdate),
        (15, MessageId::FirmwareUploadFinished),
        (50, MessageId::Battery),
    ];
    for code in 0..=255u8 {
        let known = table.iter().find(|(c, _)| *c == code).map(|(_, id)| *id);
        assert_eq!(MessageId::from_u8(code), known);
    }
    for (code, id) in table {
        assert_eq!(id.to_u8(), Some(code));
    }
}

#[test]
fn cell_state_packed() {
    let cell = CellState {
        balancing: true,
        voltage: 4200,
    };
    assert_eq!(cell.to_packed(), 0x8000 | 4200);
    assert_eq!(CellState::from_packed(cell.to_packed()), cell);
    assert_eq!(u16::from(cell), 0x9068);
    assert_eq!(CellState::from(0x9068u16), cell);

    let cell = CellState {
        balancing: true,
        voltage: 15100,
    };
    assert_eq!(CellState::from_packed(cell.to_packed()), cell);

    let cell = CellState {
        balancing: false,
        voltage: 0x7FFF,
    };
    assert_eq!(cell.to_packed(), 0x7FFF);
    assert_eq!(CellState::from_packed(0x7FFF), cell);

    // Of a voltage above 32767 the low fifteen bits are kept.
    let cell = CellState {
        balancing: false,
        voltage: 0x8001,
    };
    assert_eq!(cell.to_packed(), 0x0001);
    assert_eq!(
        CellState::from_packed(cell.to_packed()),
        CellState {
            balancing: false,
            voltage: 1
        }
    );
    assert_eq!(
        CellState::from_packed(0xFFFF),
        CellState {
            balancing: true,
            voltage: 0x7FFF
        }
    );
}

#[test]
fn cell_state_on_the_wire() {
    let cell = CellState {
        balancing: true,
        voltage: 4200,
    };
    let mut buf = [0u8; 3];
    assert_eq!(cell.copy_into_slice(&mut buf), Some(2));
    assert_eq!(buf, [0x90, 0x68, 0]);
    assert_eq!(CellState::try_from(&buf[..]), Ok(cell));
    assert_eq!(CellState::try_from(&buf[..1]), Err(()));
    assert_eq!(cell.copy_into_slice(&mut buf[..1]), None);
}

#[test]
fn cells_states_round_trip() {
    let mut values = arrayvec::ArrayVec::<CellState, 3>::new();
    values.push(CellState {
        balancing: true,
        voltage: 4200,
    });
    values.push(CellState {
        balancing: true,
        voltage: 15100,
    });
    values.push(CellState {
        balancing: false,
        voltage: 1000,
    });
    let v = CellsStates { from: 2, values };

    let raw = arrayvec::ArrayVec::<u8, 8>::from(&v);
    assert_eq!(
        raw.as_slice(),
        &[0x00, 0x02, 0x90, 0x68, 0xBA, 0xFC, 0x03, 0xE8]
    );
    assert_eq!(CellsStates::try_from(raw.as_slice()).unwrap(), v);
    assert_eq!(v.clone(), v);

    let mut buf = [0u8; 9];
    assert_eq!(v.copy_into_slice(&mut buf), Some(8));
    assert_eq!(buf, [0x00, 0x02, 0x90, 0x68, 0xBA, 0xFC, 0x03, 0xE8, 0]);
    assert_eq!(v.copy_into_slice(&mut buf[..7]), None);
}

#[test]
fn cells_states_of_a_wrong_length() {
    assert_eq!(CellsStates::try_from(&[0u8; 3][..]), Err(()));
    assert_eq!(CellsStates::try_from(&[0u8; 5][..]), Err(()));
    assert_eq!(CellsStates::try_from(&[0u8; 2][..]), Err(()));
    assert_eq!(CellsStates::try_from(&[0u8; 10][..]), Err(()));
    let one = CellsStates::try_from(&[0u8, 7, 0x80, 0x01][..]).unwrap();
    assert_eq!(one.from, 7);
    assert_eq!(
        one.values.as_slice(),
        &[CellState {
            balancing: true,
            voltage: 1
        }]
    );
}

#[test]
fn cells_states_by_default() {
    let block = CellsStates::default();
    assert_eq!(block.from, 0);
    assert!(block.values.is_empty());
    let raw = arrayvec::ArrayVec::<u8, 8>::from(&block);
    assert_eq!(raw.as_slice(), &[0, 0]);
    // The index alone is no block: there must be a cell.
    assert_eq!(CellsStates::try_from(raw.as_slice()), Err(()));
}

#[test]
fn option_wrapped_block_of_cells() {
    // No bytes are the absent value, whatever the value would be.
    assert_eq!(
        OptionWrapped::<CellsStates>::try_from(&[0u8; 0][..]),
        Ok(OptionWrapped(None))
    );
    // One or two bytes must end in a 1.
    assert_eq!(OptionWrapped::<CellsStates>::try_from(&[0u8][..]), Err(()));
    assert_eq!(OptionWrapped::<CellsStates>::try_from(&[1u8, 0][..]), Err(()));
    // With the closing 1 the bytes before it are read: too few for a block.
    assert_eq!(OptionWrapped::<CellsStates>::try_from(&[1u8][..]), Err(()));
    assert_eq!(OptionWrapped::<CellsStates>::try_from(&[7u8, 1][..]), Err(()));
    // Three bytes or more are read as the block, all of them.
    assert_eq!(OptionWrapped::<CellsStates>::try_from(&[0u8, 2, 1][..]), Err(()));
    let read = OptionWrapped::<CellsStates>::try_from(&[0u8, 2, 0x90, 0x68][..]).unwrap();
    let block = read.0.unwrap();
    assert_eq!(block.from, 2);
    assert_eq!(
        block.values.as_slice(),
        &[CellState {
            balancing: true,
            voltage: 4200
        }]
    );
}
