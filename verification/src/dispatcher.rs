//! The redraw dispatcher's shared state.
//!
//! The process keeps exactly one mutable state object — the endpoint
//! cache together with the lock policy flags — and serialises every
//! handler (paint, lock, unlock, periodic tick) behind one exclusive lock
//! around it.  The lock itself and the threads live with the caller; this
//! module owns the state object and its well-formedness.

use crate::cache::EndpointCache;
use crate::policy::LockPolicyState;
use vstd::prelude::*;

verus! {

/// How long the self-healing fallback waits between unconditional redraw
/// requests, guarding against missed or dropped notifications.
pub const REDRAW_INTERVAL_SECONDS: u64 = 30;

/// The single process-wide state object: the endpoint cache and the lock
/// policy flags, mutated only under the caller's exclusive lock.
pub struct IndicatorState<H> {
    /// Every device ever observed, with its live resources.
    pub cache: EndpointCache<H>,
    /// Which endpoints the lock policy force-muted.
    pub policy: LockPolicyState,
}

impl<H> IndicatorState<H> {
    /// Well-formedness of the whole state.
    pub open spec fn inv(&self) -> bool {
        self.cache.inv()
    }

    /// The state at process start: an empty cache and cleared flags.
    pub fn new() -> (s: Self)
        ensures
            s.inv(),
            s.cache@.len() == 0,
            !s.policy.output_was_force_muted,
            !s.policy.input_was_force_muted,
    {
        IndicatorState { cache: EndpointCache::new(), policy: LockPolicyState::new() }
    }
}

} // verus!
