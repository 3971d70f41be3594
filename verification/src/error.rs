//! The ways in which enumeration, registration and decoding fail.

use vstd::prelude::*;

verus! {

/// Why an operation of the raw-input pipeline gave no result.
#[derive(Clone, Copy, Debug, PartialEq, Eq, Hash, Structural)]
pub enum Error {
    /// The platform could not report the size of the buffer it needs.
    QuerySizeFailure,
    /// The platform handed over less than it had advertised, or nothing.
    ShortRead,
    /// The packet's device-class tag is none of the known ones.
    UnclassifiedPacket,
    /// A device name could not be looked up, or is not valid text.
    ResolverFailure,
    /// The platform rejected a batch of subscriptions.
    RegistrationFailure,
}

} // verus!
