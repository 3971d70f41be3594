use rawinput::device::DeviceHandle;
use rawinput::dispatch::Handler;
use rawinput::error::Error;
use rawinput::fetch::CALL_FAILED;
use rawinput::layout::PointerWidth;
use rawinput::packet::{KeyboardSample, Payload, RawInputPacket};
use rawinput::pipeline::{step, Action, Event, Stage};

fn packet_bytes(tag: u32, handle: u64, payload: &[u8]) -> Vec<u8> {
    let mut bytes = Vec::new();
    bytes.extend_from_slice(&tag.to_le_bytes());
    bytes.extend_from_slice(&0u32.to_le_bytes());
    bytes.extend_from_slice(&handle.to_le_bytes());
    bytes.extend_from_slice(&0u64.to_le_bytes());
    bytes.extend_from_slice(payload);
    bytes
}

fn keyboard_bytes(handle: u64, flags: u16, vkey: u16) -> Vec<u8> {
    let mut payload = Vec::new();
    payload.extend_from_slice(&0u16.to_le_bytes());
    payload.extend_from_slice(&flags.to_le_bytes());
    payload.extend_from_slice(&0u16.to_le_bytes());
    payload.extend_from_slice(&vkey.to_le_bytes());
    payload.extend_from_slice(&0u32.to_le_bytes());
    payload.extend_from_slice(&0u32.to_le_bytes());
    packet_bytes(1, handle, &payload)
}

/// What the handlers saw and what was logged, and the handler that is told to
/// fail.
struct Host {
    failing: Option<Handler>,
    mouse_calls: Vec<RawInputPacket>,
    keyboard_calls: Vec<RawInputPacket>,
    hid_calls: Vec<RawInputPacket>,
    errors: Vec<Error>,
    faults: Vec<Handler>,
}

impl Host {
    fn new(failing: Option<Handler>) -> Host {
        Host {
            failing,
            mouse_calls: Vec::new(),
            keyboard_calls: Vec::new(),
            hid_calls: Vec::new(),
            errors: Vec::new(),
            faults: Vec::new(),
        }
    }

    fn invoke(&mut self, handler: Handler, packet: RawInputPacket) -> bool {
        match handler {
            Handler::Mouse => self.mouse_calls.push(packet),
            Handler::Keyboard => self.keyboard_calls.push(packet),
            Handler::Hid => self.hid_calls.push(packet),
        }
        self.failing == Some(handler)
    }

    /// Handles one notification for a pending packet of these bytes, as the
    /// host's loop does, and gives back the stage it ends in.
    fn handle_one(&mut self, stage: Stage, pending: &[u8]) -> Stage {
        let width = PointerWidth::Bits64;
        let mut t = step(width, stage, Event::Notification);
        loop {
            let event = match t.action {
                Action::QuerySize => Event::SizeReply { status: 0, size: pending.len() as u32 },
                Action::Retrieve { capacity } => {
                    let mut data = vec![0u8; capacity as usize];
                    if pending.len() <= data.len() {
                        data[..pending.len()].copy_from_slice(pending);
                        Event::DataReply { status: pending.len() as u32, data }
                    } else {
                        Event::DataReply { status: CALL_FAILED, data }
                    }
                }
                Action::Invoke { handler } => {
                    let fault = self.invoke(handler, t.packet.take().unwrap());
                    Event::HandlerReturned { fault }
                }
                Action::Report { error } => {
                    self.errors.push(error);
                    return t.stage;
                }
                Action::ReportFault { handler } => {
                    self.faults.push(handler);
                    return t.stage;
                }
                Action::Rest => return t.stage,
                Action::Ignore => panic!("the loop reported what was not asked for"),
            };
            t = step(width, t.stage, event);
        }
    }
}

#[test]
fn keyboard_packet_reaches_only_the_keyboard_handler() {
    let mut host = Host::new(None);
    let end = host.handle_one(Stage::Idle, &keyboard_bytes(0x77, 0x01, 0x41));
    assert_eq!(end, Stage::Dispatched);
    assert_eq!(host.keyboard_calls.len(), 1);
    assert!(host.mouse_calls.is_empty());
    assert!(host.hid_calls.is_empty());
    assert!(host.errors.is_empty());
    assert!(host.faults.is_empty());
    let packet = &host.keyboard_calls[0];
    assert_eq!(packet.source_handle, DeviceHandle(0x77));
    assert_eq!(
        packet.payload,
        Payload::Keyboard(KeyboardSample { flags: 1, virtual_key_code: 0x41, extra_information: 0 })
    );
}

#[test]
fn each_packet_reaches_exactly_one_handler() {
    let mut host = Host::new(None);
    let mut stage = Stage::Idle;
    stage = host.handle_one(stage, &packet_bytes(0, 1, &[0u8; 24]));
    stage = host.handle_one(stage, &keyboard_bytes(2, 0, 0x20));
    stage = host.handle_one(stage, &packet_bytes(2, 3, &[1, 2, 3]));
    stage = host.handle_one(stage, &packet_bytes(0, 4, &[0u8; 24]));
    assert_eq!(stage, Stage::Dispatched);
    assert_eq!(host.mouse_calls.len(), 2);
    assert_eq!(host.keyboard_calls.len(), 1);
    assert_eq!(host.hid_calls.len(), 1);
    assert_eq!(host.mouse_calls[0].source_handle, DeviceHandle(1));
    assert_eq!(host.mouse_calls[1].source_handle, DeviceHandle(4));
    assert_eq!(host.keyboard_calls[0].source_handle, DeviceHandle(2));
    assert_eq!(host.hid_calls[0].source_handle, DeviceHandle(3));
}

#[test]
fn handler_fault_does_not_stop_the_next_packet() {
    let mut host = Host::new(Some(Handler::Keyboard));
    let stage = host.handle_one(Stage::Idle, &keyboard_bytes(1, 0, 0x41));
    assert_eq!(stage, Stage::Dispatched);
    assert_eq!(host.faults, vec![Handler::Keyboard]);
    let stage = host.handle_one(stage, &keyboard_bytes(2, 0, 0x42));
    assert_eq!(stage, Stage::Dispatched);
    let stage = host.handle_one(stage, &packet_bytes(0, 3, &[0u8; 24]));
    assert_eq!(stage, Stage::Dispatched);
    assert_eq!(host.keyboard_calls.len(), 2);
    assert_eq!(host.mouse_calls.len(), 1);
    assert_eq!(host.faults, vec![Handler::Keyboard, Handler::Keyboard]);
    assert!(host.errors.is_empty());
}

#[test]
fn failed_notification_does_not_stop_the_next_packet() {
    let mut host = Host::new(None);
    let stage = host.handle_one(Stage::Idle, &packet_bytes(9, 1, &[0u8; 24]));
    assert_eq!(stage, Stage::Idle);
    assert_eq!(host.errors, vec![Error::UnclassifiedPacket]);
    let stage = host.handle_one(stage, &keyboard_bytes(2, 0, 0x42));
    assert_eq!(stage, Stage::Dispatched);
    assert_eq!(host.keyboard_calls.len(), 1);
}

#[test]
fn packet_larger_than_the_ceiling_is_not_dispatched() {
    let mut host = Host::new(None);
    let stage = host.handle_one(Stage::Idle, &packet_bytes(2, 1, &[0u8; 64]));
    assert_eq!(stage, Stage::Idle);
    assert_eq!(host.errors, vec![Error::ShortRead]);
    assert!(host.hid_calls.is_empty());
}

#[test]
fn size_reply_fixes_the_buffer() {
    let t = step(PointerWidth::Bits64, Stage::Idle, Event::Notification);
    assert_eq!((t.stage, t.action), (Stage::SizeQueried, Action::QuerySize));
    assert!(t.packet.is_none());
    let t = step(PointerWidth::Bits64, Stage::SizeQueried, Event::SizeReply { status: 0, size: 40 });
    assert_eq!(t.stage, Stage::Retrieved { advertised: 40 });
    assert_eq!(t.action, Action::Retrieve { capacity: 40 });
    let t = step(PointerWidth::Bits64, Stage::SizeQueried, Event::SizeReply { status: 0, size: 4096 });
    assert_eq!(t.stage, Stage::Retrieved { advertised: 4096 });
    assert_eq!(t.action, Action::Retrieve { capacity: 48 });
    let t = step(PointerWidth::Bits32, Stage::SizeQueried, Event::SizeReply { status: 0, size: 4096 });
    assert_eq!(t.action, Action::Retrieve { capacity: 40 });
}

#[test]
fn failed_size_query_ends_the_notification() {
    let t = step(
        PointerWidth::Bits64,
        Stage::SizeQueried,
        Event::SizeReply { status: CALL_FAILED, size: 40 },
    );
    assert_eq!(t.stage, Stage::Idle);
    assert_eq!(t.action, Action::Report { error: Error::QuerySizeFailure });
    assert!(t.packet.is_none());
}

#[test]
fn short_read_ends_the_notification() {
    let bytes = keyboard_bytes(1, 1, 0x41);
    for status in [0u32, 39, CALL_FAILED] {
        let t = step(
            PointerWidth::Bits64,
            Stage::Retrieved { advertised: 40 },
            Event::DataReply { status, data: bytes.clone() },
        );
        assert_eq!(t.stage, Stage::Idle);
        assert_eq!(t.action, Action::Report { error: Error::ShortRead });
        assert!(t.packet.is_none());
    }
}

#[test]
fn handler_return_ends_the_notification() {
    let stage = Stage::Classified { handler: Handler::Mouse };
    let t = step(PointerWidth::Bits64, stage, Event::HandlerReturned { fault: false });
    assert_eq!((t.stage, t.action), (Stage::Dispatched, Action::Rest));
    let t = step(PointerWidth::Bits64, stage, Event::HandlerReturned { fault: true });
    assert_eq!(
        (t.stage, t.action),
        (Stage::Dispatched, Action::ReportFault { handler: Handler::Mouse })
    );
    let t = step(PointerWidth::Bits64, Stage::Dispatched, Event::Notification);
    assert_eq!((t.stage, t.action), (Stage::SizeQueried, Action::QuerySize));
}

#[test]
fn event_that_was_not_asked_for_is_ignored() {
    let bytes = keyboard_bytes(1, 1, 0x41);
    let stages = [
        Stage::Idle,
        Stage::SizeQueried,
        Stage::Retrieved { advertised: 40 },
        Stage::Classified { handler: Handler::Keyboard },
        Stage::Dispatched,
    ];
    for stage in stages {
        let events = [
            Event::Notification,
            Event::SizeReply { status: 0, size: 40 },
            Event::DataReply { status: 40, data: bytes.clone() },
            Event::HandlerReturned { fault: true },
        ];
        for (i, event) in events.into_iter().enumerate() {
            let expected = match stage {
                Stage::Idle | Stage::Dispatched => i == 0,
                Stage::SizeQueried => i == 1,
                Stage::Retrieved { .. } => i == 2,
                Stage::Classified { .. } => i == 3,
            };
            let t = step(PointerWidth::Bits64, stage, event);
            if expected {
                assert_ne!(t.action, Action::Ignore);
            } else {
                assert_eq!(t.action, Action::Ignore);
                assert_eq!(t.stage, stage);
                assert!(t.packet.is_none());
            }
        }
    }
}
