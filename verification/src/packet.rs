//! One input event as the platform delivers it, and its decoding from the
//! bytes of the retrieved packet.

use vstd::prelude::*;
use vstd::slice::{slice_subrange, slice_to_vec};
use crate::device::{class_of_tag, DeviceClass, DeviceHandle};
use crate::error::Error;
use crate::fetch::{check_retrieval, retrieval_complete};
use crate::layout::{
    header_len, le_i32, le_u16, le_u32, le_u64, read_i32, read_u16, read_u32, read_u64,
    PointerWidth, HANDLE_OFFSET, KEYBOARD_SIZE, MOUSE_SIZE, TAG_OFFSET,
};

verus! {

/// What every packet says of itself: the class of its device and the device.
#[derive(Clone, Copy, Debug, PartialEq, Eq, Hash, Structural)]
pub struct PacketHeader {
    pub device_class: DeviceClass,
    pub source_handle: DeviceHandle,
}

/// Motion and button state of a mouse. `flags` says how the motion is meant
/// (relative or absolute); the rest are deltas and button bits as sent.
#[derive(Clone, Copy, Debug, PartialEq, Eq, Hash, Structural)]
pub struct MouseSample {
    pub flags: u16,
    pub button_flags: u16,
    pub button_data: u16,
    pub raw_buttons: u32,
    pub last_x: i32,
    pub last_y: i32,
    pub extra_information: u32,
}

/// One key event.
#[derive(Clone, Copy, Debug, PartialEq, Eq, Hash, Structural)]
pub struct KeyboardSample {
    pub flags: u16,
    pub virtual_key_code: u16,
    pub extra_information: u32,
}

/// The report of another device, kept as the bytes it came in. Their size and
/// number are the device's business and are not read here.
#[derive(Clone, Debug, PartialEq, Eq, Hash)]
pub struct HidSample {
    pub data: Vec<u8>,
}

/// The part of a packet that depends on the class of its device.
#[derive(Clone, Debug, PartialEq, Eq, Hash)]
pub enum Payload {
    Mouse(MouseSample),
    Keyboard(KeyboardSample),
    Hid(HidSample),
}

/// A decoded packet. It is made anew for each notification and is not meant to
/// outlive the handling of it. The class is not stored beside the payload: it
/// is the payload's variant, so the two cannot disagree.
#[derive(Clone, Debug, PartialEq, Eq, Hash)]
pub struct RawInputPacket {
    pub source_handle: DeviceHandle,
    pub payload: Payload,
}

/// A payload with its bytes as a sequence.
pub enum PayloadView {
    Mouse(MouseSample),
    Keyboard(KeyboardSample),
    Hid(Seq<u8>),
}

/// A packet with its bytes as a sequence.
pub struct PacketView {
    pub source_handle: DeviceHandle,
    pub payload: PayloadView,
}

impl PayloadView {
    /// The class whose packets carry this variant.
    pub open spec fn class(self) -> DeviceClass {
        match self {
            PayloadView::Mouse(_) => DeviceClass::Mouse,
            PayloadView::Keyboard(_) => DeviceClass::Keyboard,
            PayloadView::Hid(_) => DeviceClass::Hid,
        }
    }
}

impl PacketView {
    /// The header that goes with the payload.
    pub open spec fn header(self) -> PacketHeader {
        PacketHeader { device_class: self.payload.class(), source_handle: self.source_handle }
    }
}

impl View for HidSample {
    type V = Seq<u8>;

    open spec fn view(&self) -> Seq<u8> {
        self.data@
    }
}

impl View for Payload {
    type V = PayloadView;

    open spec fn view(&self) -> PayloadView {
        match self {
            Payload::Mouse(sample) => PayloadView::Mouse(*sample),
            Payload::Keyboard(sample) => PayloadView::Keyboard(*sample),
            Payload::Hid(sample) => PayloadView::Hid(sample@),
        }
    }
}

impl View for RawInputPacket {
    type V = PacketView;

    open spec fn view(&self) -> PacketView {
        PacketView { source_handle: self.source_handle, payload: self.payload@ }
    }
}

impl Payload {
    /// The class whose packets carry this variant.
    pub fn class(&self) -> (class: DeviceClass)
        ensures
            class == self@.class(),
            class != DeviceClass::Unknown,
    {
        match self {
            Payload::Mouse(_) => DeviceClass::Mouse,
            Payload::Keyboard(_) => DeviceClass::Keyboard,
            Payload::Hid(_) => DeviceClass::Hid,
        }
    }
}

impl RawInputPacket {
    /// The packet's header. Its class is that of the payload's variant.
    pub fn header(&self) -> (header: PacketHeader)
        ensures
            header == self@.header(),
    {
        PacketHeader { device_class: self.payload.class(), source_handle: self.source_handle }
    }
}

/// The device-class tag that the bytes of a packet start with.
pub open spec fn wire_tag(bytes: Seq<u8>) -> u32 {
    le_u32(bytes, TAG_OFFSET as int)
}

/// The handle of the device that the bytes of a packet name.
pub open spec fn wire_handle(width: PointerWidth, bytes: Seq<u8>) -> DeviceHandle {
    match width {
        PointerWidth::Bits32 => DeviceHandle(le_u32(bytes, HANDLE_OFFSET as int) as u64),
        PointerWidth::Bits64 => DeviceHandle(le_u64(bytes, HANDLE_OFFSET as int)),
    }
}

/// The mouse sample in the twenty-four bytes at `at`. Two bytes after the
/// flags are padding.
pub open spec fn mouse_at(bytes: Seq<u8>, at: int) -> MouseSample {
    MouseSample {
        flags: le_u16(bytes, at),
        button_flags: le_u16(bytes, at + 4),
        button_data: le_u16(bytes, at + 6),
        raw_buttons: le_u32(bytes, at + 8),
        last_x: le_i32(bytes, at + 12),
        last_y: le_i32(bytes, at + 16),
        extra_information: le_u32(bytes, at + 20),
    }
}

/// The keyboard sample in the sixteen bytes at `at`: the flags follow the
/// scan code, the virtual key follows a reserved field, and the extra
/// information follows the window message.
pub open spec fn keyboard_at(bytes: Seq<u8>, at: int) -> KeyboardSample {
    KeyboardSample {
        flags: le_u16(bytes, at + 2),
        virtual_key_code: le_u16(bytes, at + 6),
        extra_information: le_u32(bytes, at + 12),
    }
}

/// The packet that the bytes hold. Bytes too few for the header, or for the
/// sample that the tag announces, hold none; neither do bytes with a tag that
/// stands for no class. All bytes behind the header of a packet of the third
/// class are its report.
pub open spec fn parsed(width: PointerWidth, bytes: Seq<u8>) -> Result<PacketView, Error> {
    let start = header_len(width) as int;
    if bytes.len() < start {
        Err(Error::ShortRead)
    } else {
        match class_of_tag(wire_tag(bytes)) {
            DeviceClass::Mouse => if bytes.len() < start + MOUSE_SIZE {
                Err(Error::ShortRead)
            } else {
                Ok(
                    PacketView {
                        source_handle: wire_handle(width, bytes),
                        payload: PayloadView::Mouse(mouse_at(bytes, start)),
                    },
                )
            },
            DeviceClass::Keyboard => if bytes.len() < start + KEYBOARD_SIZE {
                Err(Error::ShortRead)
            } else {
                Ok(
                    PacketView {
                        source_handle: wire_handle(width, bytes),
                        payload: PayloadView::Keyboard(keyboard_at(bytes, start)),
                    },
                )
            },
            DeviceClass::Hid => Ok(
                PacketView {
                    source_handle: wire_handle(width, bytes),
                    payload: PayloadView::Hid(bytes.skip(start)),
                },
            ),
            DeviceClass::Unknown => Err(Error::UnclassifiedPacket),
        }
    }
}

/// The packet that a retrieval gave: the one in the bytes that were written,
/// if the retrieval was complete.
pub open spec fn decoded(width: PointerWidth, advertised: u32, status: u32, buffer: Seq<u8>) -> Result<
    PacketView,
    Error,
> {
    if retrieval_complete(advertised, status, buffer.len()) {
        parsed(width, buffer.take(status as int))
    } else {
        Err(Error::ShortRead)
    }
}

fn parse_handle(width: PointerWidth, bytes: &[u8]) -> (handle: DeviceHandle)
    requires
        header_len(width) <= bytes.len(),
    ensures
        handle == wire_handle(width, bytes@),
{
    match width {
        PointerWidth::Bits32 => DeviceHandle(read_u32(bytes, HANDLE_OFFSET) as u64),
        PointerWidth::Bits64 => DeviceHandle(read_u64(bytes, HANDLE_OFFSET)),
    }
}

fn parse_mouse(bytes: &[u8], at: usize) -> (sample: MouseSample)
    requires
        at + MOUSE_SIZE <= bytes.len(),
    ensures
        sample == mouse_at(bytes@, at as int),
{
    MouseSample {
        flags: read_u16(bytes, at),
        button_flags: read_u16(bytes, at + 4),
        button_data: read_u16(bytes, at + 6),
        raw_buttons: read_u32(bytes, at + 8),
        last_x: read_i32(bytes, at + 12),
        last_y: read_i32(bytes, at + 16),
        extra_information: read_u32(bytes, at + 20),
    }
}

fn parse_keyboard(bytes: &[u8], at: usize) -> (sample: KeyboardSample)
    requires
        at + KEYBOARD_SIZE <= bytes.len(),
    ensures
        sample == keyboard_at(bytes@, at as int),
{
    KeyboardSample {
        flags: read_u16(bytes, at + 2),
        virtual_key_code: read_u16(bytes, at + 6),
        extra_information: read_u32(bytes, at + 12),
    }
}

/// Decodes the bytes of one whole packet. The tag in the header is read once
/// and selects the one variant of the payload; a tag that stands for no class
/// gives `UnclassifiedPacket`, and bytes that end before the header or the
/// announced sample does give `ShortRead`.
pub fn parse(width: PointerWidth, bytes: &[u8]) -> (packet: Result<RawInputPacket, Error>)
    ensures
        match parsed(width, bytes@) {
            Ok(v) => packet matches Ok(p) && p@ == v,
            Err(e) => packet matches Err(f) && f == e,
        },
        packet matches Ok(p) ==> p@.header().device_class == class_of_tag(wire_tag(bytes@)),
{
    let start = width.header_size();
    if bytes.len() < start {
        return Err(Error::ShortRead);
    }
    let source_handle = parse_handle(width, bytes);
    match DeviceClass::from_tag(read_u32(bytes, TAG_OFFSET)) {
        DeviceClass::Mouse => {
            if bytes.len() - start < MOUSE_SIZE {
                Err(Error::ShortRead)
            } else {
                Ok(RawInputPacket { source_handle, payload: Payload::Mouse(parse_mouse(bytes, start)) })
            }
        },
        DeviceClass::Keyboard => {
            if bytes.len() - start < KEYBOARD_SIZE {
                Err(Error::ShortRead)
            } else {
                Ok(
                    RawInputPacket {
                        source_handle,
                        payload: Payload::Keyboard(parse_keyboard(bytes, start)),
                    },
                )
            }
        },
        DeviceClass::Hid => {
            let data = slice_to_vec(slice_subrange(bytes, start, bytes.len()));
            assert(data@ == bytes@.skip(start as int));
            Ok(RawInputPacket { source_handle, payload: Payload::Hid(HidSample { data }) })
        },
        DeviceClass::Unknown => Err(Error::UnclassifiedPacket),
    }
}

/// Decodes what a retrieval returned. `advertised` is the size that the size
/// query gave, `status` what the retrieving call returned, `buffer` what it
/// wrote to. A retrieval that failed or gave fewer bytes than advertised is a
/// `ShortRead`: no packet is made of a part. Otherwise the written bytes are
/// decoded as `parse` does.
pub fn decode(width: PointerWidth, advertised: u32, status: u32, buffer: &[u8]) -> (packet: Result<
    RawInputPacket,
    Error,
>)
    ensures
        match decoded(width, advertised, status, buffer@) {
            Ok(v) => packet matches Ok(p) && p@ == v,
            Err(e) => packet matches Err(f) && f == e,
        },
        status < advertised ==> (packet matches Err(e) && e == Error::ShortRead),
        packet matches Ok(p) ==> p@.header().device_class == class_of_tag(wire_tag(buffer@)),
{
    match check_retrieval(advertised, status, buffer.len()) {
        Ok(written) => {
            let bytes = slice_subrange(buffer, 0, written);
            assert(bytes@ == buffer@.take(status as int));
            parse(width, bytes)
        },
        Err(_) => Err(Error::ShortRead),
    }
}

/// A retrieval that gave fewer bytes than were advertised is a short read,
/// whatever the bytes are: no packet is made of a part.
pub proof fn lemma_short_retrieval_decodes_nothing(
    width: PointerWidth,
    advertised: u32,
    status: u32,
    buffer: Seq<u8>,
)
    requires
        status < advertised,
    ensures
        decoded(width, advertised, status, buffer) == Err::<PacketView, Error>(Error::ShortRead),
{
}

/// The class in a decoded packet's header, which is its payload's variant, is
/// the class that the tag on the wire stands for, and bytes whose tag stands
/// for no class are never decoded.
pub proof fn lemma_payload_matches_tag(width: PointerWidth, bytes: Seq<u8>)
    ensures
        parsed(width, bytes) matches Ok(packet) ==> {
            &&& packet.header().device_class == class_of_tag(wire_tag(bytes))
            &&& packet.header().device_class == packet.payload.class()
            &&& packet.header().device_class != DeviceClass::Unknown
        },
        parsed(width, bytes) == Err::<PacketView, Error>(Error::UnclassifiedPacket) <==> bytes.len()
            >= header_len(width) && class_of_tag(wire_tag(bytes)) == DeviceClass::Unknown,
{
}

} // verus!
