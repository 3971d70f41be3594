//! How a raw-input packet lies in memory: little-endian fields at fixed
//! offsets, behind a header whose size depends on the width of a handle.

use vstd::prelude::*;

verus! {

/// The width of a platform handle, which two fields of the packet header have.
#[derive(Clone, Copy, Debug, PartialEq, Eq, Hash, Structural)]
pub enum PointerWidth {
    /// Four bytes.
    Bits32,
    /// Eight bytes.
    Bits64,
}

/// Bytes of a mouse sample on the wire.
pub const MOUSE_SIZE: usize = 24;

/// Bytes of a keyboard sample on the wire.
pub const KEYBOARD_SIZE: usize = 16;

/// Offset of the device-class tag in the header.
pub const TAG_OFFSET: usize = 0;

/// Offset of the source handle in the header.
pub const HANDLE_OFFSET: usize = 8;

impl PointerWidth {
    /// Bytes that a handle takes.
    pub open spec fn bytes(self) -> nat {
        match self {
            PointerWidth::Bits32 => 4,
            PointerWidth::Bits64 => 8,
        }
    }

    /// The width of the machine that runs this code.
    pub fn native() -> (width: PointerWidth)
        ensures
            width.bytes() * 8 == usize::BITS,
    {
        if usize::BITS == 64 {
            PointerWidth::Bits64
        } else {
            PointerWidth::Bits32
        }
    }

    /// Bytes of the packet header: tag and size, four bytes each, then the
    /// source handle and one more field of a handle's width.
    pub fn header_size(self) -> (size: usize)
        ensures
            size == header_len(self),
    {
        match self {
            PointerWidth::Bits32 => 16,
            PointerWidth::Bits64 => 24,
        }
    }

    /// Bytes of the largest packet that is retrieved: a header and a mouse
    /// sample, the larger of the two samples of fixed size.
    pub fn max_packet_size(self) -> (size: u32)
        ensures
            size == packet_ceiling(self),
    {
        match self {
            PointerWidth::Bits32 => 40,
            PointerWidth::Bits64 => 48,
        }
    }
}

/// Bytes of the packet header.
pub open spec fn header_len(width: PointerWidth) -> nat {
    8 + 2 * width.bytes()
}

/// Bytes of the largest packet that is retrieved.
pub open spec fn packet_ceiling(width: PointerWidth) -> nat {
    header_len(width) + MOUSE_SIZE as nat
}

/// The unsigned number in the two bytes at `at`, least significant first.
pub open spec fn le_u16(s: Seq<u8>, at: int) -> u16 {
    (s[at] + 0x100 * s[at + 1]) as u16
}

/// The unsigned number in the four bytes at `at`, least significant first.
pub open spec fn le_u32(s: Seq<u8>, at: int) -> u32 {
    (s[at] + 0x100 * s[at + 1] + 0x1_0000 * s[at + 2] + 0x100_0000 * s[at + 3]) as u32
}

/// The unsigned number in the eight bytes at `at`, least significant first.
pub open spec fn le_u64(s: Seq<u8>, at: int) -> u64 {
    (le_u32(s, at) + 0x1_0000_0000 * le_u32(s, at + 4)) as u64
}

/// The two's-complement number in the four bytes at `at`.
pub open spec fn le_i32(s: Seq<u8>, at: int) -> i32 {
    if le_u32(s, at) < 0x8000_0000 {
        le_u32(s, at) as i32
    } else {
        (le_u32(s, at) - 0x1_0000_0000) as i32
    }
}

/// Reads two bytes as an unsigned number.
pub(crate) fn read_u16(bytes: &[u8], at: usize) -> (value: u16)
    requires
        at + 2 <= bytes.len(),
    ensures
        value == le_u16(bytes@, at as int),
{
    let low: u16 = bytes[at] as u16;
    let high: u16 = bytes[at + 1] as u16;
    low + 0x100 * high
}

/// Reads four bytes as an unsigned number.
pub(crate) fn read_u32(bytes: &[u8], at: usize) -> (value: u32)
    requires
        at + 4 <= bytes.len(),
    ensures
        value == le_u32(bytes@, at as int),
{
    let b0: u32 = bytes[at] as u32;
    let b1: u32 = bytes[at + 1] as u32;
    let b2: u32 = bytes[at + 2] as u32;
    let b3: u32 = bytes[at + 3] as u32;
    b0 + 0x100 * b1 + 0x1_0000 * b2 + 0x100_0000 * b3
}

/// Reads eight bytes as an unsigned number.
pub(crate) fn read_u64(bytes: &[u8], at: usize) -> (value: u64)
    requires
        at + 8 <= bytes.len(),
    ensures
        value == le_u64(bytes@, at as int),
{
    let low: u64 = read_u32(bytes, at) as u64;
    let high: u64 = read_u32(bytes, at + 4) as u64;
    low + 0x1_0000_0000 * high
}

/// Reads four bytes as a signed number.
pub(crate) fn read_i32(bytes: &[u8], at: usize) -> (value: i32)
    requires
        at + 4 <= bytes.len(),
    ensures
        value == le_i32(bytes@, at as int),
{
    let raw: u32 = read_u32(bytes, at);
    if raw < 0x8000_0000 {
        raw as i32
    } else {
        let rest: i32 = (raw - 0x8000_0000) as i32;
        rest + i32::MIN
    }
}

} // verus!
