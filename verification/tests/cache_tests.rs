//! Tests of the endpoint cache: memoization, atomic create-or-fail, and
//! the shutdown hand-back.

use mute_indicator::cache::{DeviceInit, EndpointCache};
use mute_indicator::error::IndicatorError;

/// Stand-in for the live resources an embedding bundles per device: an
/// icon handle and a mute-control handle.
#[derive(Clone, Copy, Debug, PartialEq, Eq)]
struct FakeHandles {
    icon: u64,
    controls: u64,
}

#[test]
fn get_or_track_is_memoizing() {
    let mut cache: EndpointCache<FakeHandles> = EndpointCache::new();
    let id = String::from("{0.0.0.00000000}.{aa-bb}");
    let mut activations = 0;

    let i = cache
        .get_or_track(&id, || {
            activations += 1;
            Ok(DeviceInit {
                display_name: String::from("Speakers"),
                handle: FakeHandles { icon: 11, controls: 21 },
            })
        })
        .unwrap();
    assert_eq!(activations, 1);
    assert_eq!(cache.len(), 1);
    assert_eq!(i, 0);

    let j = cache
        .get_or_track(&id, || {
            activations += 1;
            Ok(DeviceInit {
                display_name: String::from("Speakers again?"),
                handle: FakeHandles { icon: 99, controls: 99 },
            })
        })
        .unwrap();
    assert_eq!(j, i, "the same identity yields the same entry");
    assert_eq!(activations, 1, "a cached identity must not re-activate");
    assert_eq!(cache.len(), 1);
    let entry = cache.entry(j);
    assert_eq!(entry.identity, id);
    assert_eq!(entry.display_name, "Speakers");
    assert_eq!(entry.handle, FakeHandles { icon: 11, controls: 21 });
}

#[test]
fn distinct_identities_get_distinct_entries() {
    let mut cache: EndpointCache<u32> = EndpointCache::new();
    let a = String::from("render-dev");
    let b = String::from("capture-dev");
    let ia = cache
        .get_or_track(&a, || Ok(DeviceInit { display_name: String::from("A"), handle: 1 }))
        .unwrap();
    let ib = cache
        .get_or_track(&b, || Ok(DeviceInit { display_name: String::from("B"), handle: 2 }))
        .unwrap();
    assert_ne!(ia, ib);
    assert_eq!(cache.len(), 2);
    assert_eq!(cache.entry(ia).display_name, "A");
    assert_eq!(cache.entry(ib).display_name, "B");
    assert_eq!(cache.find(&a), Some(ia));
    assert_eq!(cache.find(&b), Some(ib));
    assert_eq!(cache.find(&String::from("never-seen")), None);
}

#[test]
fn failed_activation_leaves_no_entry() {
    let mut cache: EndpointCache<u32> = EndpointCache::new();
    let id = String::from("flaky-dev");

    let r = cache.get_or_track(&id, || Err(IndicatorError::InvalidIconDescriptor));
    assert_eq!(r.unwrap_err(), IndicatorError::InvalidIconDescriptor);
    assert_eq!(cache.len(), 0);
    assert_eq!(cache.find(&id), None, "no half-initialised entry may exist");

    // a later attempt may still succeed
    let i = cache
        .get_or_track(&id, || Ok(DeviceInit { display_name: String::from("OK now"), handle: 7 }))
        .unwrap();
    assert_eq!(cache.len(), 1);
    assert_eq!(cache.entry(i).display_name, "OK now");
}

#[test]
fn activation_errors_pass_through_unchanged() {
    let mut cache: EndpointCache<u32> = EndpointCache::new();
    let id = String::from("gone-dev");
    let r = cache.get_or_track(&id, || Err(IndicatorError::DeviceUnavailable));
    assert_eq!(r.unwrap_err(), IndicatorError::DeviceUnavailable);
    let r = cache.get_or_track(&id, || Err(IndicatorError::OsCallFailed));
    assert_eq!(r.unwrap_err(), IndicatorError::OsCallFailed);
    assert_eq!(cache.len(), 0);
}

#[test]
fn into_entries_surrenders_all_in_creation_order() {
    let mut cache: EndpointCache<u32> = EndpointCache::new();
    for (n, name) in ["one", "two", "three"].iter().enumerate() {
        let id = String::from(*name);
        cache
            .get_or_track(&id, || {
                Ok(DeviceInit { display_name: String::from(*name), handle: n as u32 })
            })
            .unwrap();
    }
    let entries = cache.into_entries();
    assert_eq!(entries.len(), 3);
    assert_eq!(entries[0].identity, "one");
    assert_eq!(entries[1].identity, "two");
    assert_eq!(entries[2].identity, "three");
    assert_eq!(entries[2].handle, 2);
}
