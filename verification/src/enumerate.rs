//! Enumeration: the list of attached devices, and for each of them its name
//! where the platform gives one.

use vstd::prelude::*;
use crate::device::{class_of_tag, DeviceClass, DeviceDescriptor, DeviceHandle};
use crate::error::Error;
use crate::fetch::{clamp_count, fetch_plan, plan_fetch, readable_count, CALL_FAILED};
use crate::resolver::{name_plan, plan_name_fetch, resolve, resolved_text};

verus! {

/// One entry of the device list as the platform fills it in.
#[derive(Clone, Copy, Debug, PartialEq, Eq, Hash, Structural)]
pub struct RawDeviceEntry {
    pub handle: u64,
    pub type_tag: u32,
}

/// The descriptor that an entry of the platform's list stands for.
pub open spec fn descriptor_of(entry: RawDeviceEntry) -> DeviceDescriptor {
    DeviceDescriptor {
        handle: DeviceHandle(entry.handle),
        device_class: class_of_tag(entry.type_tag),
    }
}

/// The devices that a filled list names: one for each entry that may be read,
/// in the platform's order. A fill that failed names none.
pub open spec fn collected(capacity: u32, status: u32, entries: Seq<RawDeviceEntry>) -> Result<
    Seq<DeviceDescriptor>,
    Error,
> {
    if status == CALL_FAILED {
        Err(Error::ShortRead)
    } else {
        Ok(
            Seq::new(
                readable_count(capacity, status, entries.len()),
                |i: int| descriptor_of(entries[i]),
            ),
        )
    }
}

/// Reads a filled device list. `capacity` is the number of slots that were
/// asked for, which is the count that the first call gave; `status` is the
/// count that the filling call returned, which may be another. No entry is
/// read beyond the smaller of the two, nor beyond the end of `entries`.
pub fn collect_devices(capacity: u32, status: u32, entries: &[RawDeviceEntry]) -> (devices: Result<
    Vec<DeviceDescriptor>,
    Error,
>)
    ensures
        match collected(capacity, status, entries@) {
            Ok(s) => devices matches Ok(v) && v@ == s,
            Err(e) => devices matches Err(f) && f == e,
        },
        devices matches Ok(v) ==> v@.len() <= capacity && v@.len() <= status,
{
    if status == CALL_FAILED {
        return Err(Error::ShortRead);
    }
    let count = clamp_count(capacity, status, entries.len());
    let mut devices: Vec<DeviceDescriptor> = Vec::new();
    let mut i: usize = 0;
    while i < count
        invariant
            i <= count <= entries.len(),
            devices@.len() == i,
            forall|j: int| 0 <= j < i ==> devices@[j] == descriptor_of(entries@[j]),
        decreases count - i,
    {
        let entry = entries[i];
        devices.push(
            DeviceDescriptor {
                handle: DeviceHandle(entry.handle),
                device_class: DeviceClass::from_tag(entry.type_tag),
            },
        );
        i = i + 1;
    }
    assert(devices@ == collected(capacity, status, entries@)->Ok_0);
    Ok(devices)
}

/// What an enumeration pass waits for.
#[derive(Clone, Copy, Debug, PartialEq, Eq, Hash, Structural)]
pub enum Phase {
    /// The number of attached devices.
    AwaitCount,
    /// The list, asked for with `capacity` slots.
    AwaitList { capacity: u32 },
    /// The size of the name of the next device.
    AwaitNameSize,
    /// The name of the next device, after `advertised` units were announced.
    AwaitName { advertised: u32 },
    /// Nothing: the pass is over.
    Done,
}

/// The platform call that an enumeration pass asks for next.
#[derive(Clone, Copy, Debug, PartialEq, Eq, Hash, Structural)]
pub enum Request {
    /// Ask for the number of devices, with no list and no capacity.
    QueryCount,
    /// Ask for the list, with `capacity` slots.
    FillList { capacity: u32 },
    /// Ask for the size of the name of `device`, with no buffer.
    QueryNameSize { device: DeviceHandle },
    /// Ask for the name of `device`, with a buffer of `capacity` units.
    FetchName { device: DeviceHandle, capacity: u32 },
    /// Nothing more.
    Finished,
}

/// What a platform call returned.
#[derive(Clone, Debug, PartialEq, Eq, Hash)]
pub enum Reply {
    /// The count query returned `status` and reported `count` devices.
    Count { status: u32, count: u32 },
    /// The filling call returned `status` and wrote to `entries`.
    List { status: u32, entries: Vec<RawDeviceEntry> },
    /// The size query for a name returned `status` and reported `size` units.
    NameSize { status: u32, size: u32 },
    /// The retrieval of a name returned `status` and wrote to `buffer`.
    Name { status: u32, buffer: Vec<u16> },
}

/// A device with its name, where it has one.
#[derive(Clone, Debug, PartialEq, Eq, Hash)]
pub struct DeviceListing {
    pub descriptor: DeviceDescriptor,
    pub name: Option<String>,
}

/// A listing with its name as a sequence of characters.
pub struct ListingView {
    pub descriptor: DeviceDescriptor,
    pub name: Option<Seq<char>>,
}

impl View for DeviceListing {
    type V = ListingView;

    open spec fn view(&self) -> ListingView {
        ListingView { descriptor: self.descriptor, name: text_of(self.name) }
    }
}

/// A name, if there is one, as a sequence of characters.
pub open spec fn text_of(name: Option<String>) -> Option<Seq<char>> {
    match name {
        Some(s) => Some(s@),
        None => None,
    }
}

/// An enumeration pass seen from outside: what it waits for, the devices it
/// has found, and the names it has dealt with so far, one for each device in
/// turn, `None` where a device has none.
pub struct PassView {
    pub resolve_names: bool,
    pub lossy: bool,
    pub phase: Phase,
    pub devices: Seq<DeviceDescriptor>,
    pub names: Seq<Option<Seq<char>>>,
}

impl PassView {
    /// What holds of every pass: no name without its device, a device still
    /// to name while a name is awaited, and no device before the list came.
    pub open spec fn wf(self) -> bool {
        &&& self.names.len() <= self.devices.len()
        &&& (self.phase is AwaitNameSize || self.phase is AwaitName) ==> self.names.len()
            < self.devices.len()
        &&& (self.phase is AwaitCount || self.phase is AwaitList) ==> self.devices.len() == 0
    }

    /// The call that the pass asks for.
    pub open spec fn request(self) -> Request {
        match self.phase {
            Phase::AwaitCount => Request::QueryCount,
            Phase::AwaitList { capacity } => Request::FillList { capacity },
            Phase::AwaitNameSize => Request::QueryNameSize {
                device: self.devices[self.names.len() as int].handle,
            },
            Phase::AwaitName { advertised } => Request::FetchName {
                device: self.devices[self.names.len() as int].handle,
                capacity: advertised,
            },
            Phase::Done => Request::Finished,
        }
    }

    /// The listing: every device found, in the platform's order, each with
    /// its name if the pass has found one.
    pub open spec fn listing(self) -> Seq<ListingView> {
        Seq::new(
            self.devices.len(),
            |i: int|
                ListingView {
                    descriptor: self.devices[i],
                    name: if i < self.names.len() {
                        self.names[i]
                    } else {
                        None
                    },
                },
        )
    }

    /// The pass after the next device's name was settled as `name`: it goes on
    /// to the device after it, or is over if there is none.
    pub open spec fn named(self, name: Option<Seq<char>>) -> PassView {
        PassView {
            phase: if self.names.len() + 1 < self.devices.len() {
                Phase::AwaitNameSize
            } else {
                Phase::Done
            },
            names: self.names.push(name),
            ..self
        }
    }

    /// The pass after `reply`, and the failure to log if the reply brought
    /// one. A reply that answers nothing the pass waits for changes nothing.
    pub open spec fn after(self, reply: Reply) -> (PassView, Option<Error>) {
        match (self.phase, reply) {
            (Phase::AwaitCount, Reply::Count { status, count }) => match fetch_plan(
                status,
                count,
                u32::MAX,
            ) {
                Ok(capacity) => (
                    PassView {
                        phase: if capacity == 0 {
                            Phase::Done
                        } else {
                            Phase::AwaitList { capacity }
                        },
                        ..self
                    },
                    None,
                ),
                Err(error) => (PassView { phase: Phase::Done, ..self }, Some(error)),
            },
            (Phase::AwaitList { capacity }, Reply::List { status, entries }) => match collected(
                capacity,
                status,
                entries@,
            ) {
                Ok(devices) => (
                    PassView {
                        phase: if self.resolve_names && devices.len() > 0 {
                            Phase::AwaitNameSize
                        } else {
                            Phase::Done
                        },
                        devices,
                        ..self
                    },
                    None,
                ),
                Err(error) => (PassView { phase: Phase::Done, ..self }, Some(error)),
            },
            (Phase::AwaitNameSize, Reply::NameSize { status, size }) => match name_plan(
                status,
                size,
            ) {
                Ok(advertised) => (PassView { phase: Phase::AwaitName { advertised }, ..self }, None),
                Err(error) => (self.named(None), Some(error)),
            },
            (Phase::AwaitName { advertised }, Reply::Name { status, buffer }) => match resolved_text(
                advertised,
                status,
                buffer@,
                self.lossy,
            ) {
                Ok(text) => (self.named(Some(text)), None),
                Err(error) => (self.named(None), Some(error)),
            },
            _ => (self, None),
        }
    }
}

/// One enumeration pass. It is run by making the call that `request` names
/// and handing what came back to `step`, until the request is `Finished`.
#[derive(Debug)]
pub struct Enumeration {
    resolve_names: bool,
    lossy: bool,
    phase: Phase,
    devices: Vec<DeviceDescriptor>,
    names: Vec<Option<String>>,
}

/// A step of a pass: the pass as it goes on, and the failure to log, if any.
#[derive(Debug)]
pub struct Advance {
    pub pass: Enumeration,
    pub failure: Option<Error>,
}

impl View for Enumeration {
    type V = PassView;

    closed spec fn view(&self) -> PassView {
        PassView {
            resolve_names: self.resolve_names,
            lossy: self.lossy,
            phase: self.phase,
            devices: self.devices@,
            names: Seq::new(self.names@.len(), |i: int| text_of(self.names@[i])),
        }
    }
}

impl Enumeration {
    #[verifier::type_invariant]
    spec fn valid(self) -> bool {
        self@.wf()
    }

    /// A pass that has not asked for anything yet. With `resolve_names` it
    /// asks for the name of every device it finds; with `lossy` it reads
    /// names that are not well-formed text as far as they can be shown.
    pub fn begin(resolve_names: bool, lossy: bool) -> (pass: Enumeration)
        ensures
            pass@ == (PassView {
                resolve_names,
                lossy,
                phase: Phase::AwaitCount,
                devices: Seq::<DeviceDescriptor>::empty(),
                names: Seq::<Option<Seq<char>>>::empty(),
            }),
            pass@.wf(),
    {
        let pass = Enumeration {
            resolve_names,
            lossy,
            phase: Phase::AwaitCount,
            devices: Vec::new(),
            names: Vec::new(),
        };
        assert(pass@.names =~= Seq::<Option<Seq<char>>>::empty());
        pass
    }

    /// What the pass waits for.
    pub fn phase(&self) -> (phase: Phase)
        ensures
            phase == self@.phase,
            self@.wf(),
    {
        proof {
            use_type_invariant(self);
        }
        self.phase
    }

    /// The platform call to make next.
    pub fn request(&self) -> (request: Request)
        ensures
            request == self@.request(),
            self@.wf(),
    {
        proof {
            use_type_invariant(self);
        }
        match self.phase {
            Phase::AwaitCount => Request::QueryCount,
            Phase::AwaitList { capacity } => Request::FillList { capacity },
            Phase::AwaitNameSize => Request::QueryNameSize {
                device: self.devices[self.names.len()].handle,
            },
            Phase::AwaitName { advertised } => Request::FetchName {
                device: self.devices[self.names.len()].handle,
                capacity: advertised,
            },
            Phase::Done => Request::Finished,
        }
    }

    /// The devices found so far, in the platform's order.
    pub fn devices(&self) -> (devices: &Vec<DeviceDescriptor>)
        ensures
            devices@ == self@.devices,
            self@.wf(),
    {
        proof {
            use_type_invariant(self);
        }
        &self.devices
    }

    fn named(self, name: Option<String>) -> (pass: Enumeration)
        requires
            self@.phase is AwaitNameSize || self@.phase is AwaitName,
        ensures
            pass@ == self@.named(text_of(name)),
    {
        proof {
            use_type_invariant(&self);
        }
        let ghost before = self@;
        let Enumeration { resolve_names, lossy, phase: _, devices, names } = self;
        let mut names = names;
        names.push(name);
        let phase = if names.len() < devices.len() {
            Phase::AwaitNameSize
        } else {
            Phase::Done
        };
        let pass = Enumeration { resolve_names, lossy, phase, devices, names };
        assert(pass@.names =~= before.names.push(text_of(name)));
        pass
    }

    /// Takes what a platform call returned and goes on with the pass.
    ///
    /// The count from the first call fixes the number of slots that the list
    /// is asked for with, and no more descriptors than that are read from the
    /// list, whatever count the filling call reports. A failing list query
    /// ends the pass. A name that cannot be resolved is reported and recorded
    /// as absent, and the pass goes on with the next device.
    pub fn step(self, reply: Reply) -> (advance: Advance)
        ensures
            (advance.pass@, advance.failure) == self@.after(reply),
            advance.pass@.wf(),
    {
        proof {
            use_type_invariant(&self);
        }
        match (self.phase, reply) {
            (Phase::AwaitCount, Reply::Count { status, count }) => {
                let Enumeration { resolve_names, lossy, phase: _, devices, names } = self;
                match plan_fetch(status, count, u32::MAX) {
                    Ok(capacity) => {
                        let phase = if capacity == 0 {
                            Phase::Done
                        } else {
                            Phase::AwaitList { capacity }
                        };
                        Advance {
                            pass: Enumeration { resolve_names, lossy, phase, devices, names },
                            failure: None,
                        }
                    },
                    Err(error) => Advance {
                        pass: Enumeration { resolve_names, lossy, phase: Phase::Done, devices, names },
                        failure: Some(error),
                    },
                }
            },
            (Phase::AwaitList { capacity }, Reply::List { status, entries }) => {
                let Enumeration { resolve_names, lossy, phase: _, devices, names } = self;
                match collect_devices(capacity, status, entries.as_slice()) {
                    Ok(found) => {
                        let phase = if resolve_names && found.len() > 0 {
                            Phase::AwaitNameSize
                        } else {
                            Phase::Done
                        };
                        Advance {
                            pass: Enumeration { resolve_names, lossy, phase, devices: found, names },
                            failure: None,
                        }
                    },
                    Err(error) => Advance {
                        pass: Enumeration { resolve_names, lossy, phase: Phase::Done, devices, names },
                        failure: Some(error),
                    },
                }
            },
            (Phase::AwaitNameSize, Reply::NameSize { status, size }) => {
                match plan_name_fetch(status, size) {
                    Ok(advertised) => {
                        let Enumeration { resolve_names, lossy, phase: _, devices, names } = self;
                        Advance {
                            pass: Enumeration {
                                resolve_names,
                                lossy,
                                phase: Phase::AwaitName { advertised },
                                devices,
                                names,
                            },
                            failure: None,
                        }
                    },
                    Err(error) => Advance { pass: self.named(None), failure: Some(error) },
                }
            },
            (Phase::AwaitName { advertised }, Reply::Name { status, buffer }) => {
                let device = self.devices[self.names.len()].handle;
                match resolve(device, advertised, status, buffer, self.lossy) {
                    Ok(name) => Advance { pass: self.named(Some(name.text)), failure: None },
                    Err(error) => Advance { pass: self.named(None), failure: Some(error) },
                }
            },
            _ => Advance { pass: self, failure: None },
        }
    }

    /// The listing of the pass: every device found, in the platform's order,
    /// each with its name if one was resolved. A device whose name failed, or
    /// was never asked for, is listed without one.
    pub fn listing(&self) -> (listing: Vec<DeviceListing>)
        ensures
            listing@.len() == self@.devices.len(),
            forall|i: int| 0 <= i < listing@.len() ==> (#[trigger] listing@[i])@ == self@.listing()[i],
    {
        proof {
            use_type_invariant(self);
        }
        let mut listing: Vec<DeviceListing> = Vec::new();
        let mut i: usize = 0;
        while i < self.devices.len()
            invariant
                i <= self.devices.len(),
                self.names.len() <= self.devices.len(),
                listing@.len() == i,
                forall|j: int| 0 <= j < i ==> (#[trigger] listing@[j])@ == self@.listing()[j],
            decreases self.devices.len() - i,
        {
            let name = if i < self.names.len() {
                match &self.names[i] {
                    Some(text) => Some(text.clone()),
                    None => None,
                }
            } else {
                None
            };
            listing.push(DeviceListing { descriptor: self.devices[i], name });
            i = i + 1;
        }
        listing
    }
}

/// However many devices the filling call claims, the pass holds no more than
/// the count that the first call gave.
pub proof fn lemma_fill_bounded_by_first_count(
    pass: PassView,
    status: u32,
    count: u32,
    fill_status: u32,
    entries: Vec<RawDeviceEntry>,
)
    requires
        pass.wf(),
        pass.phase is AwaitCount,
    ensures
        pass.after(Reply::Count { status, count }).0.after(
            Reply::List { status: fill_status, entries },
        ).0.devices.len() <= count,
{
}

/// A pass stays well-formed, keeps the devices it has found once the list
/// came, and never changes a name that it has settled.
pub proof fn lemma_step_keeps_what_is_settled(pass: PassView, reply: Reply)
    requires
        pass.wf(),
    ensures
        pass.after(reply).0.wf(),
        !(pass.phase is AwaitList) ==> pass.after(reply).0.devices == pass.devices,
        pass.names.len() <= pass.after(reply).0.names.len(),
        forall|i: int|
            0 <= i < pass.names.len() ==> pass.after(reply).0.names[i] == pass.names[i],
{
}

/// A name that fails stops nothing: whatever the reply to a request for a
/// name or its size, the pass either waits for that name still or has settled
/// it and gone on, to the next device if there is one.
pub proof fn lemma_name_failure_moves_on(pass: PassView, reply: Reply)
    requires
        pass.wf(),
        (pass.phase is AwaitNameSize && reply is NameSize) || (pass.phase is AwaitName
            && reply is Name),
    ensures
        ({
            let next = pass.after(reply).0;
            if next.phase is AwaitName {
                next.names == pass.names && pass.after(reply).1 is None
            } else {
                &&& next.names.len() == pass.names.len() + 1
                &&& next.devices == pass.devices
                &&& pass.after(reply).1 is Some ==> next.names.last() is None
                &&& next.phase == (if next.names.len() < next.devices.len() {
                    Phase::AwaitNameSize
                } else {
                    Phase::Done
                })
            }
        }),
{
}

/// The listing has one entry for each device, in order, named or not.
pub proof fn lemma_listing_covers_devices(pass: PassView)
    ensures
        pass.listing().len() == pass.devices.len(),
        forall|i: int|
            0 <= i < pass.devices.len() ==> (#[trigger] pass.listing()[i]).descriptor
                == pass.devices[i],
{
}

} // verus!
