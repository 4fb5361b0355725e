//! The notification bridge: every asynchronous event the operating system
//! pushes at the process is translated into one of the process's few
//! possible reactions.
//!
//! Device-list changes, default-device changes, per-device property
//! changes and per-device mute changes all ask for a redraw (the next
//! paint re-reads live mute state through the cache, so no state needs to
//! be carried here); session lock and unlock run the lock policy; any
//! other session change is ignored.  The periodic fallback tick asks for a
//! redraw as well.

use vstd::prelude::*;

verus! {

/// The session-change code the operating system delivers when the session
/// locks.
pub const SESSION_LOCK_CODE: u32 = 7;

/// The session-change code the operating system delivers when the session
/// unlocks.
pub const SESSION_UNLOCK_CODE: u32 = 8;

/// An asynchronous event as the bridge receives it.
#[derive(Clone, Copy, Debug, PartialEq, Eq, Structural)]
pub enum OsEvent {
    /// A device changed state (enabled, disabled, unplugged).
    DeviceStateChanged,
    /// A device was added to the system.
    DeviceAdded,
    /// A device was removed from the system.
    DeviceRemoved,
    /// A different device became the default for some role.
    DefaultDeviceChanged,
    /// A property in some device's property store changed.
    PropertyValueChanged,
    /// The volume or mute state of a tracked device changed.
    DeviceMuteChanged,
    /// The session changed, with the operating system's change code.
    SessionChanged(u32),
    /// The periodic self-healing tick fired.
    PeriodicTick,
}

/// The reaction an event demands.
#[derive(Clone, Copy, Debug, PartialEq, Eq, Structural)]
pub enum Reaction {
    /// Ask the window surface to repaint.
    RequestRedraw,
    /// Run the lock policy's lock transition.
    RunLockPolicy,
    /// Run the lock policy's unlock transition.
    RunUnlockPolicy,
    /// Do nothing.
    Ignore,
}

/// The reaction each event maps to: session lock and unlock drive the lock
/// policy, an unrecognised session change does nothing, and every other
/// event just asks for a repaint.
pub open spec fn spec_classify(e: OsEvent) -> Reaction {
    match e {
        OsEvent::SessionChanged(code) => if code == SESSION_LOCK_CODE {
            Reaction::RunLockPolicy
        } else if code == SESSION_UNLOCK_CODE {
            Reaction::RunUnlockPolicy
        } else {
            Reaction::Ignore
        },
        _ => Reaction::RequestRedraw,
    }
}

/// Map an event to the reaction it demands.
pub fn classify(e: OsEvent) -> (r: Reaction)
    ensures
        r == spec_classify(e),
{
    match e {
        OsEvent::SessionChanged(code) => {
            if code == SESSION_LOCK_CODE {
                Reaction::RunLockPolicy
            } else if code == SESSION_UNLOCK_CODE {
                Reaction::RunUnlockPolicy
            } else {
                Reaction::Ignore
            }
        },
        _ => Reaction::RequestRedraw,
    }
}

/// Whether handling `r` must end with a repaint request: every reaction
/// that may have touched state does, so the surface always catches up
/// after a state-affecting event.
pub fn triggers_repaint(r: Reaction) -> (b: bool)
    ensures
        b == !(r is Ignore),
{
    !matches!(r, Reaction::Ignore)
}

} // verus!
