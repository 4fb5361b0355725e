//! Core of an always-on-screen audio mute indicator.
//!
//! The library tracks the mute state of the default playback and capture
//! audio endpoints and enforces a lock policy: endpoints are force-muted
//! while the session is locked and restored on unlock, without ever
//! un-muting a device the user muted on purpose.
//!
//! Everything that touches the operating system (device enumeration, mute
//! control, window invalidation, session notifications) lives outside this
//! crate; the caller probes the devices and applies the actions the library
//! decides on.  The library itself owns the endpoint cache, the lock policy
//! state machine, the notification-to-reaction bridge, the icon descriptor
//! parser and the repaint planner.

use vstd::prelude::*;

pub mod bridge;
pub mod cache;
pub mod dispatcher;
pub mod error;
pub mod icon;
pub mod messages;
pub mod paint;
pub mod policy;

verus! {

/// Shorthand for `Default::default()` with the target type inferred from
/// context.
pub fn default<T: Default>() -> (r: T)
    ensures
        call_ensures(T::default, (), r),
{
    Default::default()
}

} // verus!
