//! Routing of a decoded packet to the one handler of its class.

use vstd::prelude::*;
use crate::device::DeviceClass;
use crate::packet::{PacketView, Payload, PayloadView, RawInputPacket};

verus! {

/// The handlers, one for each class of device.
#[derive(Clone, Copy, Debug, PartialEq, Eq, Hash, Structural)]
pub enum Handler {
    Mouse,
    Keyboard,
    Hid,
}

/// The handler of a class. An unknown class has none.
pub open spec fn handler_for(class: DeviceClass) -> Option<Handler> {
    match class {
        DeviceClass::Mouse => Some(Handler::Mouse),
        DeviceClass::Keyboard => Some(Handler::Keyboard),
        DeviceClass::Hid => Some(Handler::Hid),
        DeviceClass::Unknown => None,
    }
}

/// The handler that a packet goes to.
pub open spec fn selected(packet: PacketView) -> Handler {
    match packet.payload {
        PayloadView::Mouse(_) => Handler::Mouse,
        PayloadView::Keyboard(_) => Handler::Keyboard,
        PayloadView::Hid(_) => Handler::Hid,
    }
}

impl Handler {
    /// The handler of a class, if the class is known.
    pub fn for_class(class: DeviceClass) -> (handler: Option<Handler>)
        ensures
            handler == handler_for(class),
    {
        match class {
            DeviceClass::Mouse => Some(Handler::Mouse),
            DeviceClass::Keyboard => Some(Handler::Keyboard),
            DeviceClass::Hid => Some(Handler::Hid),
            DeviceClass::Unknown => None,
        }
    }
}

/// Names the one handler that `packet` is for. The choice follows the decoded
/// class and nothing else: not the source, not the sample, and not the number
/// that stood for the class on the wire.
pub fn dispatch(packet: &RawInputPacket) -> (handler: Handler)
    ensures
        handler == selected(packet@),
        handler_for(packet@.header().device_class) == Some(handler),
{
    match &packet.payload {
        Payload::Mouse(_) => Handler::Mouse,
        Payload::Keyboard(_) => Handler::Keyboard,
        Payload::Hid(_) => Handler::Hid,
    }
}

/// Packets of one class go to one handler, whatever else they hold, and that
/// handler is the handler of the class.
pub proof fn lemma_class_alone_selects(first: PacketView, second: PacketView)
    ensures
        handler_for(first.header().device_class) == Some(selected(first)),
        first.header().device_class == second.header().device_class ==> selected(first)
            == selected(second),
        selected(first) == selected(second) ==> first.header().device_class
            == second.header().device_class,
{
}

} // verus!
