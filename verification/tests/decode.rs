use rawinput::device::{DeviceClass, DeviceHandle};
use rawinput::dispatch::{dispatch, Handler};
use rawinput::error::Error;
use rawinput::fetch::CALL_FAILED;
use rawinput::layout::PointerWidth;
use rawinput::packet::{decode, parse, KeyboardSample, MouseSample, Payload};

fn header(width: PointerWidth, tag: u32, size: u32, handle: u64) -> Vec<u8> {
    let mut bytes = Vec::new();
    bytes.extend_from_slice(&tag.to_le_bytes());
    bytes.extend_from_slice(&size.to_le_bytes());
    match width {
        PointerWidth::Bits32 => {
            bytes.extend_from_slice(&(handle as u32).to_le_bytes());
            bytes.extend_from_slice(&0u32.to_le_bytes());
        }
        PointerWidth::Bits64 => {
            bytes.extend_from_slice(&handle.to_le_bytes());
            bytes.extend_from_slice(&0u64.to_le_bytes());
        }
    }
    bytes
}

fn keyboard_packet(width: PointerWidth, handle: u64, flags: u16, vkey: u16, extra: u32) -> Vec<u8> {
    let mut bytes = header(width, 1, 0, handle);
    bytes.extend_from_slice(&0x1eu16.to_le_bytes());
    bytes.extend_from_slice(&flags.to_le_bytes());
    bytes.extend_from_slice(&0u16.to_le_bytes());
    bytes.extend_from_slice(&vkey.to_le_bytes());
    bytes.extend_from_slice(&0x0100u32.to_le_bytes());
    bytes.extend_from_slice(&extra.to_le_bytes());
    bytes
}

fn mouse_packet(width: PointerWidth, handle: u64, sample: &MouseSample) -> Vec<u8> {
    let mut bytes = header(width, 0, 0, handle);
    bytes.extend_from_slice(&sample.flags.to_le_bytes());
    bytes.extend_from_slice(&0xeeeeu16.to_le_bytes());
    bytes.extend_from_slice(&sample.button_flags.to_le_bytes());
    bytes.extend_from_slice(&sample.button_data.to_le_bytes());
    bytes.extend_from_slice(&sample.raw_buttons.to_le_bytes());
    bytes.extend_from_slice(&sample.last_x.to_le_bytes());
    bytes.extend_from_slice(&sample.last_y.to_le_bytes());
    bytes.extend_from_slice(&sample.extra_information.to_le_bytes());
    bytes
}

#[test]
fn keyboard_packet_decodes_to_keyboard_sample() {
    let bytes = keyboard_packet(PointerWidth::Bits64, 0x1234, 0x01, 0x41, 0);
    let size = bytes.len() as u32;
    let packet = decode(PointerWidth::Bits64, size, size, &bytes).unwrap();
    assert_eq!(packet.header().device_class, DeviceClass::Keyboard);
    assert_eq!(packet.header().source_handle, DeviceHandle(0x1234));
    assert_eq!(
        packet.payload,
        Payload::Keyboard(KeyboardSample { flags: 1, virtual_key_code: 0x41, extra_information: 0 })
    );
    assert_eq!(dispatch(&packet), Handler::Keyboard);
}

#[test]
fn keyboard_fields_come_from_their_offsets() {
    let bytes = keyboard_packet(PointerWidth::Bits32, 7, 0x0203, 0xa1b2, 0xdead_beef);
    assert_eq!(bytes.len(), 32);
    let packet = parse(PointerWidth::Bits32, &bytes).unwrap();
    assert_eq!(packet.source_handle, DeviceHandle(7));
    assert_eq!(
        packet.payload,
        Payload::Keyboard(KeyboardSample {
            flags: 0x0203,
            virtual_key_code: 0xa1b2,
            extra_information: 0xdead_beef,
        })
    );
}

#[test]
fn mouse_packet_decodes_every_field() {
    let sample = MouseSample {
        flags: 0x0001,
        button_flags: 0x0400,
        button_data: 0xff88,
        raw_buttons: 0x8000_0001,
        last_x: -3,
        last_y: 0x1234_5678,
        extra_information: 0xcafe_f00d,
    };
    let bytes = mouse_packet(PointerWidth::Bits64, 0xfeed_face_0000_0042, &sample);
    assert_eq!(bytes.len(), 48);
    let packet = parse(PointerWidth::Bits64, &bytes).unwrap();
    assert_eq!(packet.header().device_class, DeviceClass::Mouse);
    assert_eq!(packet.source_handle, DeviceHandle(0xfeed_face_0000_0042));
    assert_eq!(packet.payload, Payload::Mouse(sample));
    assert_eq!(dispatch(&packet), Handler::Mouse);
}

#[test]
fn mouse_deltas_are_signed() {
    let sample = MouseSample {
        flags: 0,
        button_flags: 0,
        button_data: 0,
        raw_buttons: 0,
        last_x: i32::MIN,
        last_y: -1,
        extra_information: 0,
    };
    let bytes = mouse_packet(PointerWidth::Bits32, 1, &sample);
    match parse(PointerWidth::Bits32, &bytes).unwrap().payload {
        Payload::Mouse(got) => {
            assert_eq!(got.last_x, i32::MIN);
            assert_eq!(got.last_y, -1);
        }
        other => panic!("not a mouse sample: {:?}", other),
    }
    let sample = MouseSample { last_x: i32::MAX, last_y: 0, ..sample };
    let bytes = mouse_packet(PointerWidth::Bits32, 1, &sample);
    assert_eq!(parse(PointerWidth::Bits32, &bytes).unwrap().payload, Payload::Mouse(sample));
}

#[test]
fn narrow_handle_is_four_bytes() {
    let mut bytes = keyboard_packet(PointerWidth::Bits32, 0x89ab_cdef, 0, 0, 0);
    // What follows the handle is another field, not part of it.
    bytes[12] = 0xff;
    let packet = parse(PointerWidth::Bits32, &bytes).unwrap();
    assert_eq!(packet.source_handle, DeviceHandle(0x89ab_cdef));
}

#[test]
fn hid_packet_keeps_its_bytes() {
    let mut bytes = header(PointerWidth::Bits64, 2, 0, 9);
    bytes.extend_from_slice(&[4, 0, 0, 0, 1, 0, 0, 0, 0xde, 0xad, 0xbe, 0xef]);
    let packet = parse(PointerWidth::Bits64, &bytes).unwrap();
    assert_eq!(packet.header().device_class, DeviceClass::Hid);
    match &packet.payload {
        Payload::Hid(sample) => {
            assert_eq!(sample.data, vec![4, 0, 0, 0, 1, 0, 0, 0, 0xde, 0xad, 0xbe, 0xef])
        }
        other => panic!("not a report: {:?}", other),
    }
    assert_eq!(dispatch(&packet), Handler::Hid);
}

#[test]
fn hid_packet_may_be_a_bare_header() {
    let bytes = header(PointerWidth::Bits32, 2, 0, 9);
    let packet = parse(PointerWidth::Bits32, &bytes).unwrap();
    match packet.payload {
        Payload::Hid(sample) => assert!(sample.data.is_empty()),
        other => panic!("not a report: {:?}", other),
    }
}

#[test]
fn header_class_matches_payload_for_each_tag() {
    for width in [PointerWidth::Bits32, PointerWidth::Bits64] {
        for tag in 0u32..3 {
            let mut bytes = header(width, tag, 0, 5);
            bytes.extend_from_slice(&[0u8; 24]);
            let packet = parse(width, &bytes).unwrap();
            let class = packet.header().device_class;
            assert_eq!(class, DeviceClass::from_tag(tag));
            match packet.payload {
                Payload::Mouse(_) => assert_eq!(class, DeviceClass::Mouse),
                Payload::Keyboard(_) => assert_eq!(class, DeviceClass::Keyboard),
                Payload::Hid(_) => assert_eq!(class, DeviceClass::Hid),
            }
        }
    }
}

#[test]
fn unknown_tag_is_unclassified() {
    for tag in [3u32, 4, 0x100, u32::MAX] {
        let mut bytes = header(PointerWidth::Bits64, tag, 0, 5);
        bytes.extend_from_slice(&[0u8; 24]);
        assert_eq!(parse(PointerWidth::Bits64, &bytes), Err(Error::UnclassifiedPacket));
    }
}

#[test]
fn short_packet_is_a_short_read() {
    let bytes = keyboard_packet(PointerWidth::Bits64, 1, 1, 0x41, 0);
    let size = bytes.len() as u32;
    for got in 0..size {
        assert_eq!(decode(PointerWidth::Bits64, size, got, &bytes), Err(Error::ShortRead));
    }
    assert!(decode(PointerWidth::Bits64, size, size, &bytes).is_ok());
}

#[test]
fn failed_retrieval_is_a_short_read() {
    let bytes = keyboard_packet(PointerWidth::Bits64, 1, 1, 0x41, 0);
    let size = bytes.len() as u32;
    assert_eq!(decode(PointerWidth::Bits64, size, CALL_FAILED, &bytes), Err(Error::ShortRead));
}

#[test]
fn status_beyond_the_buffer_is_a_short_read() {
    let bytes = keyboard_packet(PointerWidth::Bits64, 1, 1, 0x41, 0);
    let size = bytes.len() as u32;
    assert_eq!(decode(PointerWidth::Bits64, size, size + 1, &bytes), Err(Error::ShortRead));
}

#[test]
fn only_written_bytes_are_decoded() {
    // The buffer is larger than what was written: the report is what was written.
    let mut bytes = header(PointerWidth::Bits64, 2, 0, 9);
    bytes.extend_from_slice(&[1, 2, 3, 4, 5, 6]);
    let packet = decode(PointerWidth::Bits64, 26, 27, &bytes).unwrap();
    match packet.payload {
        Payload::Hid(sample) => assert_eq!(sample.data, vec![1, 2, 3]),
        other => panic!("not a report: {:?}", other),
    }
}

#[test]
fn bytes_that_end_before_the_header_does() {
    let bytes = header(PointerWidth::Bits64, 1, 0, 9);
    assert_eq!(parse(PointerWidth::Bits64, &bytes[..23]), Err(Error::ShortRead));
    assert_eq!(parse(PointerWidth::Bits64, &[]), Err(Error::ShortRead));
    // An unknown tag in a header that is not all there is still a short read.
    let bytes = header(PointerWidth::Bits64, 9, 0, 9);
    assert_eq!(parse(PointerWidth::Bits64, &bytes[..8]), Err(Error::ShortRead));
}

#[test]
fn bytes_that_end_before_the_sample_does() {
    let bytes = keyboard_packet(PointerWidth::Bits32, 1, 1, 0x41, 0);
    assert_eq!(parse(PointerWidth::Bits32, &bytes[..31]), Err(Error::ShortRead));
    let mouse = mouse_packet(
        PointerWidth::Bits32,
        1,
        &MouseSample {
            flags: 0,
            button_flags: 0,
            button_data: 0,
            raw_buttons: 0,
            last_x: 0,
            last_y: 0,
            extra_information: 0,
        },
    );
    assert_eq!(mouse.len(), 40);
    assert_eq!(parse(PointerWidth::Bits32, &mouse[..39]), Err(Error::ShortRead));
    assert!(parse(PointerWidth::Bits32, &mouse).is_ok());
}

#[test]
fn layout_sizes() {
    assert_eq!(PointerWidth::Bits32.header_size(), 16);
    assert_eq!(PointerWidth::Bits64.header_size(), 24);
    assert_eq!(PointerWidth::Bits32.max_packet_size(), 40);
    assert_eq!(PointerWidth::Bits64.max_packet_size(), 48);
    let native = PointerWidth::native();
    assert_eq!(native.header_size(), 8 + 2 * std::mem::size_of::<usize>());
}

#[test]
fn handler_follows_class() {
    assert_eq!(Handler::for_class(DeviceClass::Mouse), Some(Handler::Mouse));
    assert_eq!(Handler::for_class(DeviceClass::Keyboard), Some(Handler::Keyboard));
    assert_eq!(Handler::for_class(DeviceClass::Hid), Some(Handler::Hid));
    assert_eq!(Handler::for_class(DeviceClass::Unknown), None);
}
