//! Devices as the platform names them: an opaque handle and a coarse class.

use vstd::prelude::*;

verus! {

/// Wire tag of a mouse.
pub const TAG_MOUSE: u32 = 0;

/// Wire tag of a keyboard.
pub const TAG_KEYBOARD: u32 = 1;

/// Wire tag of a human-interface device that is neither mouse nor keyboard.
pub const TAG_HID: u32 = 2;

/// The platform's identifier of an attached device. It is a token to compare
/// and to hand back, never an address to follow, and nothing here owns what it
/// names.
#[derive(Clone, Copy, Debug, PartialEq, Eq, Hash, Structural)]
pub struct DeviceHandle(pub u64);

/// The class of an input device: what it is, not which one.
#[derive(Clone, Copy, Debug, PartialEq, Eq, Hash, Structural)]
pub enum DeviceClass {
    Mouse,
    Keyboard,
    Hid,
    /// The platform gave a tag that stands for none of the three.
    Unknown,
}

/// The class that a wire tag stands for.
pub open spec fn class_of_tag(tag: u32) -> DeviceClass {
    if tag == TAG_MOUSE {
        DeviceClass::Mouse
    } else if tag == TAG_KEYBOARD {
        DeviceClass::Keyboard
    } else if tag == TAG_HID {
        DeviceClass::Hid
    } else {
        DeviceClass::Unknown
    }
}

/// The wire tag of a class; `Unknown` has none.
pub open spec fn tag_of_class(class: DeviceClass) -> Option<u32> {
    match class {
        DeviceClass::Mouse => Some(TAG_MOUSE),
        DeviceClass::Keyboard => Some(TAG_KEYBOARD),
        DeviceClass::Hid => Some(TAG_HID),
        DeviceClass::Unknown => None,
    }
}

impl DeviceClass {
    /// Reads a wire tag once into the closed set of classes. Everything after
    /// this point matches on the class, never on the number.
    pub fn from_tag(tag: u32) -> (class: DeviceClass)
        ensures
            class == class_of_tag(tag),
    {
        if tag == TAG_MOUSE {
            DeviceClass::Mouse
        } else if tag == TAG_KEYBOARD {
            DeviceClass::Keyboard
        } else if tag == TAG_HID {
            DeviceClass::Hid
        } else {
            DeviceClass::Unknown
        }
    }

    /// The wire tag of this class, if it has one.
    pub fn tag(self) -> (tag: Option<u32>)
        ensures
            tag == tag_of_class(self),
    {
        match self {
            DeviceClass::Mouse => Some(TAG_MOUSE),
            DeviceClass::Keyboard => Some(TAG_KEYBOARD),
            DeviceClass::Hid => Some(TAG_HID),
            DeviceClass::Unknown => None,
        }
    }
}

/// A class with a tag is read back from that tag, and a tag is read back from
/// its class exactly when it is one of the three known tags.
pub proof fn lemma_tag_round_trip(class: DeviceClass, tag: u32)
    ensures
        tag_of_class(class) matches Some(t) ==> class_of_tag(t) == class,
        tag_of_class(class_of_tag(tag)) == (if tag <= TAG_HID {
            Some(tag)
        } else {
            None
        }),
{
}

/// One attached device as enumeration reports it.
#[derive(Clone, Copy, Debug, PartialEq, Eq, Hash, Structural)]
pub struct DeviceDescriptor {
    pub handle: DeviceHandle,
    pub device_class: DeviceClass,
}

} // verus!
