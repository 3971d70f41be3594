//! Name resolution: from a device's handle to the path by which the platform
//! knows it, through one size query and one retrieval.

use vstd::prelude::*;
use crate::device::DeviceHandle;
use crate::error::Error;
use crate::fetch::{check_retrieval, plan_fetch, retrieval_complete, CALL_FAILED};
use crate::wide::{decode_name, decoded_name};

verus! {

/// The display name of a device. It belongs to whoever asked for it and says
/// nothing of the device once the enumeration pass is over.
#[derive(Debug, PartialEq, Eq)]
pub struct DeviceName {
    pub device: DeviceHandle,
    pub text: String,
}

/// The capacity, in units, of the buffer to retrieve a name into.
pub open spec fn name_plan(status: u32, advertised: u32) -> Result<u32, Error> {
    if status == CALL_FAILED {
        Err(Error::ResolverFailure)
    } else {
        Ok(advertised)
    }
}

/// The text of the name that a retrieval gave. A retrieval that failed, or
/// wrote fewer units than were advertised, gives none, and neither do written
/// units that hold no name.
pub open spec fn resolved_text(advertised: u32, status: u32, buffer: Seq<u16>, lossy: bool) -> Result<
    Seq<char>,
    Error,
> {
    if retrieval_complete(advertised, status, buffer.len()) {
        decoded_name(buffer.take(status as int), lossy)
    } else {
        Err(Error::ResolverFailure)
    }
}

/// Reads the reply to the size query for a name: the number of units to
/// retrieve into, or `ResolverFailure` where the lookup failed.
pub fn plan_name_fetch(status: u32, advertised: u32) -> (plan: Result<u32, Error>)
    ensures
        plan == name_plan(status, advertised),
{
    match plan_fetch(status, advertised, u32::MAX) {
        Ok(capacity) => Ok(capacity),
        Err(_) => Err(Error::ResolverFailure),
    }
}

/// Resolves the name of `device` from what the retrieval returned: `status`
/// is the number of units the platform says it wrote into `buffer`, after it
/// had advertised `advertised` of them. Only the written units are read. A
/// short write is reported, not read as a shorter name, and the text is never
/// longer than the buffer.
pub fn resolve(
    device: DeviceHandle,
    advertised: u32,
    status: u32,
    buffer: Vec<u16>,
    lossy: bool,
) -> (name: Result<DeviceName, Error>)
    ensures
        match resolved_text(advertised, status, buffer@, lossy) {
            Ok(t) => name matches Ok(n) && n.device == device && n.text@ == t,
            Err(e) => name matches Err(f) && f == e,
        },
        name matches Ok(n) ==> n.text@.len() <= buffer@.len() && status >= advertised,
        name matches Err(e) ==> e == Error::ResolverFailure,
{
    let mut buffer = buffer;
    match check_retrieval(advertised, status, buffer.len()) {
        Ok(written) => {
            buffer.truncate(written);
            match decode_name(buffer, lossy) {
                Ok(text) => Ok(DeviceName { device, text }),
                Err(_) => Err(Error::ResolverFailure),
            }
        },
        Err(_) => Err(Error::ResolverFailure),
    }
}

/// A resolved name is never longer than the buffer it was read from, and is
/// read only where the platform wrote at least what it had advertised. Every
/// other outcome is a failure of the resolver: nothing is cut short in
/// silence.
pub proof fn lemma_name_fits_buffer(advertised: u32, status: u32, buffer: Seq<u16>, lossy: bool)
    ensures
        decoded_name(buffer, lossy) matches Ok(text) ==> text.len() <= buffer.len(),
        decoded_name(buffer, lossy) matches Err(e) ==> e == Error::ResolverFailure,
        resolved_text(advertised, status, buffer, lossy) matches Ok(text) ==> text.len()
            <= buffer.len() && advertised <= status <= buffer.len(),
        resolved_text(advertised, status, buffer, lossy) matches Err(e) ==> e
            == Error::ResolverFailure,
{
}

} // verus!
