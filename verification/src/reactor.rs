//! The policy reactor: the sole consumer of the trigger bus.
//!
//! Each trigger kind maps to one enforcement action: log a label naming the
//! compromise, raise a user-visible notification, wait a kind-specific grace
//! period, then terminate the session. The grace periods are fixed; the
//! remote-application period is longer than the input-device period because
//! a false positive there is more costly. Handling is strictly in order and
//! exit is terminal: once a trigger has been handled, no further trigger is
//! processed.

use vstd::prelude::*;
use vstd::string::StringExecFns;
use crate::types::{Triggers, USBDevice};

verus! {

/// Grace period before exit after a disallowed input device was found.
pub const DISALLOWED_INPUT_GRACE_SECONDS: u64 = 30;

/// Grace period before exit after a remote-control application was found.
/// Longer than the input period: a false positive here costs more.
pub const REMOTE_APPLICATION_GRACE_SECONDS: u64 = 60;

/// Grace period before exit after an additional display was found.
pub const ADDITIONAL_DISPLAY_GRACE_SECONDS: u64 = 200;

/// The enforcement action for one trigger: what to log, what to show the
/// user, and how long to wait before terminating the session.
pub struct ReactorAction {
    pub logged_label: String,
    pub notify_title: String,
    pub notify_body: String,
    pub grace_seconds: u64,
}

/// The label logged for a disallowed-input finding: the last matched
/// device's description, or a fallback when that device carries none.
pub open spec fn spec_device_label(devices: Seq<USBDevice>) -> Seq<char> {
    if devices.len() == 0 {
        "UnNamed Device"@
    } else {
        match devices.last().description {
            Some(d) => d@,
            None => "UnNamed Device"@,
        }
    }
}

/// The label logged for an additional-display finding: the last enumerated
/// label, or a fallback when none was enumerated.
pub open spec fn spec_display_label(displays: Seq<String>) -> Seq<char> {
    if displays.len() == 0 {
        "UnNamed Display"@
    } else {
        displays.last()@
    }
}

/// The label the reactor logs for a trigger.
pub open spec fn spec_logged_label(t: Triggers) -> Seq<char> {
    match t {
        Triggers::DisallowedInput(devices) => spec_device_label(devices@),
        Triggers::RemoteApplicationDetected(_) => "Remote application detected"@,
        Triggers::AdditionalDisplayDetected(displays) => spec_display_label(displays@),
    }
}

/// The grace period the reactor waits for a trigger before the exit.
pub open spec fn spec_grace_seconds(t: Triggers) -> u64 {
    match t {
        Triggers::DisallowedInput(_) => DISALLOWED_INPUT_GRACE_SECONDS,
        Triggers::RemoteApplicationDetected(_) => REMOTE_APPLICATION_GRACE_SECONDS,
        Triggers::AdditionalDisplayDetected(_) => ADDITIONAL_DISPLAY_GRACE_SECONDS,
    }
}

/// Map one trigger to its enforcement action. Every trigger ends the
/// session; the kinds differ in their logged label and grace period.
pub fn react(t: &Triggers) -> (a: ReactorAction)
    ensures
        a.logged_label@ == spec_logged_label(*t),
        a.notify_title@ == "Device Compromised"@,
        a.notify_body@ == "An external device has been attached to your device"@,
        a.grace_seconds == spec_grace_seconds(*t),
{
    let logged_label: String = match t {
        Triggers::DisallowedInput(devices) => {
            if devices.len() == 0 {
                String::from_str("UnNamed Device")
            } else {
                match &devices[devices.len() - 1].description {
                    Some(d) => d.clone(),
                    None => String::from_str("UnNamed Device"),
                }
            }
        },
        Triggers::RemoteApplicationDetected(_) => String::from_str("Remote application detected"),
        Triggers::AdditionalDisplayDetected(displays) => {
            if displays.len() == 0 {
                String::from_str("UnNamed Display")
            } else {
                displays[displays.len() - 1].clone()
            }
        },
    };
    let grace_seconds: u64 = match t {
        Triggers::DisallowedInput(_) => DISALLOWED_INPUT_GRACE_SECONDS,
        Triggers::RemoteApplicationDetected(_) => REMOTE_APPLICATION_GRACE_SECONDS,
        Triggers::AdditionalDisplayDetected(_) => ADDITIONAL_DISPLAY_GRACE_SECONDS,
    };
    ReactorAction {
        logged_label,
        notify_title: String::from_str("Device Compromised"),
        notify_body: String::from_str("An external device has been attached to your device"),
        grace_seconds,
    }
}

/// The reactor's one piece of state: whether it has begun terminating the
/// session. Exit is terminal — a reactor that has handled a trigger
/// processes no further one.
pub struct Reactor {
    pub exited: bool,
}

impl Reactor {
    pub fn new() -> (r: Reactor)
        ensures
            !r.exited,
    {
        Reactor { exited: false }
    }

    /// Handle the next trigger. The first trigger yields its enforcement
    /// action and moves the reactor to its terminal state; after that every
    /// trigger is ignored and the state never changes back.
    pub fn handle(&mut self, t: &Triggers) -> (a: Option<ReactorAction>)
        ensures
            old(self).exited ==> a is None && *final(self) == *old(self),
            !old(self).exited ==> final(self).exited && (match a {
                Some(act) => act.logged_label@ == spec_logged_label(*t)
                    && act.grace_seconds == spec_grace_seconds(*t) && act.notify_title@
                    == "Device Compromised"@ && act.notify_body@
                    == "An external device has been attached to your device"@,
                None => false,
            }),
    {
        if self.exited {
            return None;
        }
        self.exited = true;
        Some(react(t))
    }
}

} // verus!
