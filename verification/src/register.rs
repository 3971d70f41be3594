//! Registration: which classes of device a window subscribes to, under which
//! policy, and what becomes of a batch of subscriptions.

use vstd::prelude::*;
use crate::error::Error;

verus! {

/// Flag bits by which a subscription asks that the window no longer gets the
/// traditional input messages of the class.
pub const FLAG_SUPPRESS_LEGACY: u32 = 0x30;

/// Flag bit by which a subscription asks for input also while the window is
/// not in the foreground.
pub const FLAG_INPUT_SINK: u32 = 0x100;

/// Flag bit by which a subscription asks that reserved key combinations are
/// delivered and not intercepted.
pub const FLAG_SUPPRESS_HOTKEYS: u32 = 0x200;

/// Usage page of the generic desktop controls.
pub const USAGE_PAGE_GENERIC_DESKTOP: u16 = 0x01;

/// Usage of a mouse on the generic desktop page.
pub const USAGE_MOUSE: u16 = 0x02;

/// Usage of a keyboard on the generic desktop page.
pub const USAGE_KEYBOARD: u16 = 0x06;

/// The platform's identifier of the window that input is routed to: a token,
/// as a device handle is.
#[derive(Clone, Copy, Debug, PartialEq, Eq, Hash, Structural)]
pub struct WindowHandle(pub u64);

/// What a subscription asks of the platform's input routing.
#[derive(Clone, Copy, Debug, PartialEq, Eq, Hash, Structural)]
pub struct UsagePolicy {
    pub suppress_legacy: bool,
    pub suppress_hotkeys: bool,
    pub input_sink: bool,
}

/// One class of device to subscribe to, by usage page and usage.
#[derive(Clone, Copy, Debug, PartialEq, Eq, Hash, Structural)]
pub struct UsageClassDescriptor {
    pub usage_page: u16,
    pub usage: u16,
    pub policy: UsagePolicy,
}

/// A subscription as it is handed to the platform.
#[derive(Clone, Copy, Debug, PartialEq, Eq, Hash, Structural)]
pub struct RegistrationRecord {
    pub usage_page: u16,
    pub usage: u16,
    pub flags: u32,
    pub target: WindowHandle,
}

/// The flag word of a policy. The three flags share no bit, so the word is
/// their sum.
pub open spec fn policy_flags(policy: UsagePolicy) -> u32 {
    ((if policy.suppress_legacy {
        FLAG_SUPPRESS_LEGACY
    } else {
        0
    }) + (if policy.suppress_hotkeys {
        FLAG_SUPPRESS_HOTKEYS
    } else {
        0
    }) + (if policy.input_sink {
        FLAG_INPUT_SINK
    } else {
        0
    })) as u32
}

/// The record that subscribes `target` to `class`.
pub open spec fn record_of(class: UsageClassDescriptor, target: WindowHandle) -> RegistrationRecord {
    RegistrationRecord {
        usage_page: class.usage_page,
        usage: class.usage,
        flags: policy_flags(class.policy),
        target,
    }
}

/// The batch that subscribes `target` to `classes`: one record for each, in
/// their order.
pub open spec fn batch_of(classes: Seq<UsageClassDescriptor>, target: WindowHandle) -> Seq<
    RegistrationRecord,
> {
    Seq::new(classes.len(), |i: int| record_of(classes[i], target))
}

impl UsagePolicy {
    /// The policy that asks for everything: raw input in place of the
    /// traditional messages, reserved key combinations included, in the
    /// foreground or not.
    pub fn exclusive() -> (policy: UsagePolicy)
        ensures
            policy == (UsagePolicy { suppress_legacy: true, suppress_hotkeys: true, input_sink: true }),
    {
        UsagePolicy { suppress_legacy: true, suppress_hotkeys: true, input_sink: true }
    }

    /// The flag word that stands for this policy.
    pub fn flags(self) -> (flags: u32)
        ensures
            flags == policy_flags(self),
    {
        let mut flags: u32 = 0;
        if self.suppress_legacy {
            flags = flags + FLAG_SUPPRESS_LEGACY;
        }
        if self.suppress_hotkeys {
            flags = flags + FLAG_SUPPRESS_HOTKEYS;
        }
        if self.input_sink {
            flags = flags + FLAG_INPUT_SINK;
        }
        flags
    }
}

impl UsageClassDescriptor {
    /// The subscription that is made at startup: mice of the generic desktop
    /// page, exclusively.
    pub fn generic_mouse() -> (class: UsageClassDescriptor)
        ensures
            class == (UsageClassDescriptor {
                usage_page: USAGE_PAGE_GENERIC_DESKTOP,
                usage: USAGE_MOUSE,
                policy: UsagePolicy { suppress_legacy: true, suppress_hotkeys: true, input_sink: true },
            }),
    {
        UsageClassDescriptor {
            usage_page: USAGE_PAGE_GENERIC_DESKTOP,
            usage: USAGE_MOUSE,
            policy: UsagePolicy::exclusive(),
        }
    }

    /// The record that subscribes `target` to this class.
    pub fn record(self, target: WindowHandle) -> (record: RegistrationRecord)
        ensures
            record == record_of(self, target),
    {
        RegistrationRecord {
            usage_page: self.usage_page,
            usage: self.usage,
            flags: self.policy.flags(),
            target,
        }
    }
}

/// Different policies have different flag words.
pub proof fn lemma_policy_flags_distinct(first: UsagePolicy, second: UsagePolicy)
    ensures
        policy_flags(first) == policy_flags(second) <==> first == second,
{
}

/// The subscriptions of a window that the platform has accepted.
#[derive(Debug)]
pub struct Registrar {
    active: Vec<UsageClassDescriptor>,
}

impl View for Registrar {
    type V = Seq<UsageClassDescriptor>;

    closed spec fn view(&self) -> Seq<UsageClassDescriptor> {
        self.active@
    }
}

impl Registrar {
    /// A registrar with no subscription.
    pub fn new() -> (registrar: Registrar)
        ensures
            registrar@ == Seq::<UsageClassDescriptor>::empty(),
    {
        Registrar { active: Vec::new() }
    }

    /// The subscriptions in force, in the order in which they were accepted.
    pub fn active(&self) -> (active: &Vec<UsageClassDescriptor>)
        ensures
            active@ == self@,
    {
        &self.active
    }

    /// Makes the batch to hand to the platform in one call: one record for
    /// each class, in their order, each with the flags of its policy and with
    /// `target` as the window.
    pub fn batch(classes: &Vec<UsageClassDescriptor>, target: WindowHandle) -> (records: Vec<
        RegistrationRecord,
    >)
        ensures
            records@ == batch_of(classes@, target),
    {
        let mut records: Vec<RegistrationRecord> = Vec::new();
        let mut i: usize = 0;
        while i < classes.len()
            invariant
                i <= classes.len(),
                records@ == batch_of(classes@.take(i as int), target),
            decreases classes.len() - i,
        {
            records.push(classes[i].record(target));
            i = i + 1;
        }
        assert(classes@.take(classes.len() as int) == classes@);
        records
    }

    /// Takes note of the platform's answer to a batch. `reply` is what the
    /// registering call returned: zero says that the batch was rejected. A
    /// batch is accepted whole or not at all, so a rejected batch leaves the
    /// subscriptions as they were and an accepted one adds all of its classes.
    pub fn conclude(&mut self, classes: Vec<UsageClassDescriptor>, reply: i32) -> (outcome: Result<
        (),
        Error,
    >)
        ensures
            reply != 0 ==> outcome is Ok && final(self)@ == old(self)@ + classes@,
            reply == 0 ==> outcome == Err::<(), Error>(Error::RegistrationFailure) && final(self)@
                == old(self)@,
    {
        if reply == 0 {
            Err(Error::RegistrationFailure)
        } else {
            let mut classes = classes;
            self.active.append(&mut classes);
            Ok(())
        }
    }
}

} // verus!
