//! Raw input for human-interface devices: the rules by which a host lists the
//! attached devices, subscribes a window to their unfiltered input, and turns
//! each delivered packet into a typed record for one handler.
//!
//! The platform is reached by the caller. Every function here takes what a
//! platform call returned as plain values and says what to do next, so each
//! rule holds for every reply the platform can give.
//!
//! - [`fetch`]: the size-then-retrieve exchange that names, lists and packets
//!   share.
//! - [`enumerate`] and [`resolver`]: the pass over the attached devices and
//!   their names; [`wide`] reads the names' sixteen-bit units.
//! - [`register`]: subscriptions and the batch that carries them.
//! - [`packet`] and [`layout`]: the bytes of a packet and what they decode to.
//! - [`dispatch`] and [`pipeline`]: the one handler of a packet, and the
//!   stages of handling one notification.

pub mod error;
pub mod device;
pub mod fetch;
pub mod layout;
pub mod packet;
pub mod dispatch;
pub mod pipeline;
pub mod wide;
pub mod resolver;
pub mod enumerate;
pub mod register;
