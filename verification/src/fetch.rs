//! The platform hands over anything of variable length in two calls: the first
//! says how much there is, the second fills a buffer of that size. What is
//! attached can change between the two, so the size from the first call is
//! advice, and what the second call returned is checked against it here, once,
//! for names, device lists and packets alike.
//!
//! Nothing here makes the two calls see one state of the machine, and nothing
//! tries again: a device that comes or goes between them shortens a list or
//! fails the exchange, and whoever asked may ask anew.

use vstd::prelude::*;
use crate::error::Error;

verus! {

/// The status with which a platform call says that it failed.
pub const CALL_FAILED: u32 = 0xFFFF_FFFF;

/// The size of the buffer to retrieve into: what the platform advertised, cut
/// down to `ceiling`.
pub open spec fn planned_capacity(advertised: u32, ceiling: u32) -> u32 {
    if advertised <= ceiling {
        advertised
    } else {
        ceiling
    }
}

/// What a size query's reply means for the retrieval that follows.
pub open spec fn fetch_plan(status: u32, advertised: u32, ceiling: u32) -> Result<u32, Error> {
    if status == CALL_FAILED {
        Err(Error::QuerySizeFailure)
    } else {
        Ok(planned_capacity(advertised, ceiling))
    }
}

/// The retrieval gave at least the `advertised` units, and the buffer of
/// `held` units holds all that the `status` claims.
pub open spec fn retrieval_complete(advertised: u32, status: u32, held: nat) -> bool {
    &&& status != CALL_FAILED
    &&& advertised <= status
    &&& status <= held
}

/// The number of entries that may be read from a list retrieved into
/// `capacity` slots: never more than were asked for, than the platform says it
/// wrote, or than the buffer holds.
pub open spec fn readable_count(capacity: u32, status: u32, held: nat) -> nat {
    let least = if capacity <= status {
        capacity
    } else {
        status
    };
    if least <= held {
        least as nat
    } else {
        held
    }
}

/// Reads the reply to a size query: `status` is what the call returned and
/// `advertised` the size it reported. A failed query ends the exchange;
/// otherwise the result is the capacity to retrieve into.
pub fn plan_fetch(status: u32, advertised: u32, ceiling: u32) -> (plan: Result<u32, Error>)
    ensures
        plan == fetch_plan(status, advertised, ceiling),
{
    if status == CALL_FAILED {
        Err(Error::QuerySizeFailure)
    } else if advertised <= ceiling {
        Ok(advertised)
    } else {
        Ok(ceiling)
    }
}

/// Checks a retrieval against the size that was advertised for it. `status` is
/// what the retrieving call returned, `held` the length of the buffer it wrote
/// to. The result is the number of units to read, all of them written; a
/// retrieval that failed or fell short is a `ShortRead`, never a part.
pub fn check_retrieval(advertised: u32, status: u32, held: usize) -> (units: Result<usize, Error>)
    ensures
        units == (if retrieval_complete(advertised, status, held as nat) {
            Ok::<usize, Error>(status as usize)
        } else {
            Err(Error::ShortRead)
        }),
{
    if status != CALL_FAILED && advertised <= status && status as usize <= held {
        Ok(status as usize)
    } else {
        Err(Error::ShortRead)
    }
}

/// Bounds the reading of a retrieved list. The platform may report another
/// count on the second call than on the first; the result is the least of the
/// slots asked for, the count reported and the entries at hand.
pub fn clamp_count(capacity: u32, status: u32, held: usize) -> (count: usize)
    ensures
        count == readable_count(capacity, status, held as nat),
        count <= capacity,
        count <= status,
        count <= held,
{
    let least: u32 = if capacity <= status {
        capacity
    } else {
        status
    };
    if least as usize <= held {
        least as usize
    } else {
        held
    }
}

} // verus!
