//! What becomes of one input notification, step by step. The host's loop makes
//! the platform calls and runs the handlers; after each it says what came back
//! and is told what to do next. Nothing is kept from one notification to the
//! next but the stage.

use vstd::prelude::*;
use crate::device::class_of_tag;
use crate::dispatch::{dispatch, handler_for, selected, Handler};
use crate::error::Error;
use crate::fetch::{fetch_plan, plan_fetch, retrieval_complete};
use crate::layout::{packet_ceiling, PointerWidth};
use crate::packet::{decode, decoded, wire_tag, RawInputPacket};

verus! {

/// How far the handling of a notification has come.
#[derive(Clone, Copy, Debug, PartialEq, Eq, Hash, Structural)]
pub enum Stage {
    /// No notification is being handled.
    Idle,
    /// The size of the pending packet has been asked for.
    SizeQueried,
    /// The packet has been asked for, after `advertised` bytes were announced.
    Retrieved { advertised: u32 },
    /// The packet was decoded and its handler is running.
    Classified { handler: Handler },
    /// The handler has returned. The next notification starts from here as it
    /// does from `Idle`.
    Dispatched,
}

/// What the host's loop reports.
#[derive(Clone, Debug, PartialEq, Eq, Hash)]
pub enum Event {
    /// An input notification has arrived.
    Notification,
    /// The size query returned `status` and reported `size` bytes.
    SizeReply { status: u32, size: u32 },
    /// The retrieval returned `status` and wrote to `data`.
    DataReply { status: u32, data: Vec<u8> },
    /// The handler returned; `fault` says that it failed.
    HandlerReturned { fault: bool },
}

/// What the host's loop is to do next.
#[derive(Clone, Copy, Debug, PartialEq, Eq, Hash, Structural)]
pub enum Action {
    /// Ask the platform for the size of the pending packet.
    QuerySize,
    /// Retrieve the packet into a buffer of `capacity` bytes.
    Retrieve { capacity: u32 },
    /// Run this handler, and no other, on the packet handed over with this.
    Invoke { handler: Handler },
    /// Log the error; this notification is over.
    Report { error: Error },
    /// Log that the handler failed; this notification is over.
    ReportFault { handler: Handler },
    /// Nothing: this notification is over.
    Rest,
    /// Nothing: the event answers nothing that was asked at this stage and
    /// has changed nothing.
    Ignore,
}

/// The outcome of a step: the stage reached, what to do, and with `Invoke` the
/// packet to run the handler on.
#[derive(Clone, Debug, PartialEq, Eq)]
pub struct Transition {
    pub stage: Stage,
    pub action: Action,
    pub packet: Option<RawInputPacket>,
}

/// The stage that follows `stage` on `event`, and what is to be done. Each
/// stage waits for one event and leaves every other alone.
pub open spec fn next(width: PointerWidth, stage: Stage, event: Event) -> (Stage, Action) {
    match (stage, event) {
        (Stage::Idle, Event::Notification) | (Stage::Dispatched, Event::Notification) => (
            Stage::SizeQueried,
            Action::QuerySize,
        ),
        (Stage::SizeQueried, Event::SizeReply { status, size }) => match fetch_plan(
            status,
            size,
            packet_ceiling(width) as u32,
        ) {
            Ok(capacity) => (Stage::Retrieved { advertised: size }, Action::Retrieve { capacity }),
            Err(error) => (Stage::Idle, Action::Report { error }),
        },
        (Stage::Retrieved { advertised }, Event::DataReply { status, data }) => match decoded(
            width,
            advertised,
            status,
            data@,
        ) {
            Ok(packet) => (
                Stage::Classified { handler: selected(packet) },
                Action::Invoke { handler: selected(packet) },
            ),
            Err(error) => (Stage::Idle, Action::Report { error }),
        },
        (Stage::Classified { handler }, Event::HandlerReturned { fault }) => (
            Stage::Dispatched,
            if fault {
                Action::ReportFault { handler }
            } else {
                Action::Rest
            },
        ),
        _ => (stage, Action::Ignore),
    }
}

/// Takes one step in the handling of a notification.
///
/// A notification starts with the size query. Its reply fixes the buffer to
/// retrieve into, never larger than the largest packet. The retrieved bytes
/// are decoded only if all advertised bytes came; the handler is chosen by the
/// decoded class. When the handler has returned the notification is over,
/// whether it failed or not. Every failure on the way ends the notification
/// and leaves the pipeline idle.
pub fn step(width: PointerWidth, stage: Stage, event: Event) -> (t: Transition)
    ensures
        (t.stage, t.action) == next(width, stage, event),
        t.packet is Some <==> t.action is Invoke,
        t.packet matches Some(p) ==> (stage matches Stage::Retrieved { advertised } && event matches Event::DataReply {
            status,
            data,
        } && decoded(width, advertised, status, data@) == Ok::<_, Error>(p@)),
{
    match stage {
        Stage::Idle | Stage::Dispatched => match event {
            Event::Notification => Transition {
                stage: Stage::SizeQueried,
                action: Action::QuerySize,
                packet: None,
            },
            _ => Transition { stage, action: Action::Ignore, packet: None },
        },
        Stage::SizeQueried => match event {
            Event::SizeReply { status, size } => match plan_fetch(
                status,
                size,
                width.max_packet_size(),
            ) {
                Ok(capacity) => Transition {
                    stage: Stage::Retrieved { advertised: size },
                    action: Action::Retrieve { capacity },
                    packet: None,
                },
                Err(error) => Transition {
                    stage: Stage::Idle,
                    action: Action::Report { error },
                    packet: None,
                },
            },
            _ => Transition { stage, action: Action::Ignore, packet: None },
        },
        Stage::Retrieved { advertised } => match event {
            Event::DataReply { status, data } => match decode(
                width,
                advertised,
                status,
                data.as_slice(),
            ) {
                Ok(packet) => {
                    let handler = dispatch(&packet);
                    Transition {
                        stage: Stage::Classified { handler },
                        action: Action::Invoke { handler },
                        packet: Some(packet),
                    }
                },
                Err(error) => Transition {
                    stage: Stage::Idle,
                    action: Action::Report { error },
                    packet: None,
                },
            },
            _ => Transition { stage, action: Action::Ignore, packet: None },
        },
        Stage::Classified { handler } => match event {
            Event::HandlerReturned { fault } => Transition {
                stage: Stage::Dispatched,
                action: if fault {
                    Action::ReportFault { handler }
                } else {
                    Action::Rest
                },
                packet: None,
            },
            _ => Transition { stage, action: Action::Ignore, packet: None },
        },
    }
}

/// Every failure ends the notification: where an error is to be reported, the
/// pipeline is idle. Errors come from two stages only: a size query can fail,
/// and a retrieval can fall short or bring a packet of no known class.
pub proof fn lemma_failure_returns_to_idle(width: PointerWidth, stage: Stage, event: Event)
    ensures
        next(width, stage, event).1 matches Action::Report { error } ==> {
            &&& next(width, stage, event).0 == Stage::Idle
            &&& stage is SizeQueried || stage is Retrieved
            &&& stage is SizeQueried ==> error == Error::QuerySizeFailure
            &&& stage is Retrieved ==> error == Error::ShortRead || error
                == Error::UnclassifiedPacket
        },
{
}

/// A handler runs only on a whole packet: only after a retrieval that gave
/// all advertised bytes, and it is the handler of the class that the packet's
/// tag stands for.
pub proof fn lemma_invoke_needs_whole_packet(width: PointerWidth, stage: Stage, event: Event)
    ensures
        next(width, stage, event).1 matches Action::Invoke { handler } ==> (stage matches Stage::Retrieved {
            advertised,
        } && event matches Event::DataReply { status, data } && retrieval_complete(
            advertised,
            status,
            data@.len(),
        ) && handler_for(class_of_tag(wire_tag(data@))) == Some(handler)),
{
}

/// A handler that fails holds nothing up: once it has returned, failed or not,
/// the next notification is taken as the first one was.
pub proof fn lemma_fault_does_not_stall(width: PointerWidth, handler: Handler, fault: bool)
    ensures
        next(width, Stage::Classified { handler }, Event::HandlerReturned { fault }).0
            == Stage::Dispatched,
        next(width, Stage::Dispatched, Event::Notification) == next(
            width,
            Stage::Idle,
            Event::Notification,
        ),
        next(width, Stage::Dispatched, Event::Notification) == (
            Stage::SizeQueried,
            Action::QuerySize,
        ),
{
}

} // verus!
