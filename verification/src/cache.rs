//! The endpoint cache: one entry per device identity ever observed.
//!
//! Entries are created on first observation through a fallible, one-shot
//! activation step supplied by the caller (opening the property store,
//! decoding the icon, activating the mute control, subscribing to change
//! notifications) and are never evicted until shutdown.  The cache is
//! memoizing: a second request for a known identity returns the stored
//! entry and runs no activation at all, and a failed activation leaves the
//! cache exactly as it was.
//!
//! The live operating-system resources of an entry (the icon and the
//! mute-control subscription) are opaque to the cache; they travel in the
//! payload type parameter `H` and are handed back out at shutdown through
//! [`EndpointCache::into_entries`] so the caller can release each of them
//! exactly once.

use crate::error::IndicatorError;
use vstd::prelude::*;

verus! {

/// One tracked device: the stable identity the operating system assigned
/// to the endpoint, its display name (diagnostic only) and the caller's
/// bundle of live resources for it (icon and mute-control handle).
pub struct TrackedDevice<H> {
    /// The cache key: an opaque, stable string unique to the endpoint.
    pub identity: String,
    /// Human-readable device name, kept for diagnostics.
    pub display_name: String,
    /// The caller's live resources bound to this endpoint.
    pub handle: H,
}

/// What a successful activation of a new device yields: everything of a
/// [`TrackedDevice`] except the identity, which the cache fills in from
/// the key it was asked for.
pub struct DeviceInit<H> {
    /// Human-readable device name.
    pub display_name: String,
    /// The caller's live resources bound to this endpoint.
    pub handle: H,
}

/// The cache itself: a sequence of tracked devices with pairwise distinct
/// identities.
pub struct EndpointCache<H> {
    entries: Vec<TrackedDevice<H>>,
}

impl<H> View for EndpointCache<H> {
    type V = Seq<TrackedDevice<H>>;

    closed spec fn view(&self) -> Seq<TrackedDevice<H>> {
        self.entries@
    }
}

impl<H> EndpointCache<H> {
    /// Well-formedness: no two entries share an identity.
    pub open spec fn inv(&self) -> bool {
        forall|i: int, j: int|
            0 <= i < j < self@.len() ==> (#[trigger] self@[i]).identity@ != (
            #[trigger] self@[j]).identity@
    }

    /// Whether some entry carries the identity `id`.
    pub open spec fn spec_contains(&self, id: Seq<char>) -> bool {
        exists|i: int| 0 <= i < self@.len() && (#[trigger] self@[i]).identity@ == id
    }

    /// An empty cache.
    pub fn new() -> (c: Self)
        ensures
            c.inv(),
            c@.len() == 0,
    {
        EndpointCache { entries: Vec::new() }
    }

    /// How many devices are tracked.
    pub fn len(&self) -> (n: usize)
        ensures
            n == self@.len(),
    {
        self.entries.len()
    }

    /// The entry at position `i`.  Positions are stable: entries are only
    /// ever appended, never removed or replaced.
    pub fn entry(&self, i: usize) -> (d: &TrackedDevice<H>)
        requires
            i < self@.len(),
        ensures
            *d == self@[i as int],
    {
        &self.entries[i]
    }

    /// Look a device identity up, returning its position when present.
    pub fn find(&self, id: &String) -> (r: Option<usize>)
        ensures
            match r {
                Some(i) => i < self@.len() && self@[i as int].identity@ == id@,
                None => !self.spec_contains(id@),
            },
    {
        let n = self.entries.len();
        let mut i: usize = 0;
        while i < n
            invariant
                n == self@.len(),
                i <= n,
                forall|k: int| 0 <= k < i ==> (#[trigger] self@[k]).identity@ != id@,
            decreases n - i,
        {
            if self.entries[i].identity.eq(id) {
                return Some(i);
            }
            i = i + 1;
        }
        None
    }

    /// Append a device that is not tracked yet.
    fn track(&mut self, dev: TrackedDevice<H>) -> (i: usize)
        requires
            old(self).inv(),
            !old(self).spec_contains(dev.identity@),
        ensures
            final(self).inv(),
            final(self)@ == old(self)@.push(dev),
            i == old(self)@.len(),
    {
        let i = self.entries.len();
        let ghost gdev = dev;
        self.entries.push(dev);
        proof {
            assert forall|p: int, q: int| 0 <= p < q < self@.len() implies (#[trigger] self@[p]).identity@
                != (#[trigger] self@[q]).identity@ by {
                if q == old(self)@.len() {
                    assert(self@[p] == old(self)@[p]);
                    assert(self@[q] == gdev);
                    assert(old(self)@[p].identity@ != gdev.identity@);
                } else {
                    assert(self@[p] == old(self)@[p]);
                    assert(self@[q] == old(self)@[q]);
                }
            }
        }
        i
    }

    /// Return the entry for `id`, creating it through `activate` on first
    /// observation.
    ///
    /// The memoizing contract: when `id` is already tracked, the cache is
    /// left untouched and the position of the existing entry is returned
    /// (the supplied activation is not run; nothing is re-activated or
    /// re-subscribed).  When `id` is new, a successful activation appends
    /// exactly one entry made of `id` and the activation's yield, and a
    /// failed activation changes nothing and hands the error through, so
    /// no half-initialised entry ever exists.
    pub fn get_or_track<F: FnOnce() -> Result<DeviceInit<H>, IndicatorError>>(
        &mut self,
        id: &String,
        activate: F,
    ) -> (r: Result<usize, IndicatorError>)
        requires
            old(self).inv(),
            call_requires(activate, ()),
        ensures
            final(self).inv(),
            match r {
                Ok(i) => {
                    &&& i < final(self)@.len()
                    &&& final(self)@[i as int].identity@ == id@
                    &&& if old(self).spec_contains(id@) {
                        final(self)@ == old(self)@
                    } else {
                        &&& i == old(self)@.len()
                        &&& exists|init: DeviceInit<H>|
                            #[trigger] call_ensures(activate, (), Result::Ok(init))
                                && final(self)@ == old(self)@.push(
                                (TrackedDevice {
                                    identity: *id,
                                    display_name: init.display_name,
                                    handle: init.handle,
                                }),
                            )
                    }
                },
                Err(e) => {
                    &&& !old(self).spec_contains(id@)
                    &&& final(self)@ == old(self)@
                    &&& call_ensures(activate, (), Result::<DeviceInit<H>, IndicatorError>::Err(e))
                },
            },
    {
        match self.find(id) {
            Some(i) => Ok(i),
            None => match activate() {
                Ok(init) => {
                    let ghost g = init;
                    let dev = TrackedDevice {
                        identity: id.clone(),
                        display_name: init.display_name,
                        handle: init.handle,
                    };
                    let i = self.track(dev);
                    proof {
                        assert(call_ensures(activate, (), Result::<DeviceInit<H>, IndicatorError>::Ok(g)));
                    }
                    Ok(i)
                },
                Err(e) => Err(e),
            },
        }
    }

    /// Surrender all entries for shutdown, in the order they were created,
    /// so the caller can unsubscribe each device's notification and then
    /// release its icon, exactly once per device.
    pub fn into_entries(self) -> (v: Vec<TrackedDevice<H>>)
        ensures
            v@ == self@,
    {
        self.entries
    }
}

} // verus!
