//! Tests of the notification bridge and of the message-name table.

use mute_indicator::bridge::{
    classify, triggers_repaint, OsEvent, Reaction, SESSION_LOCK_CODE, SESSION_UNLOCK_CODE,
};
use mute_indicator::messages::message_name;

#[test]
fn device_events_ask_for_redraw() {
    assert_eq!(classify(OsEvent::DeviceStateChanged), Reaction::RequestRedraw);
    assert_eq!(classify(OsEvent::DeviceAdded), Reaction::RequestRedraw);
    assert_eq!(classify(OsEvent::DeviceRemoved), Reaction::RequestRedraw);
    assert_eq!(classify(OsEvent::DefaultDeviceChanged), Reaction::RequestRedraw);
    assert_eq!(classify(OsEvent::PropertyValueChanged), Reaction::RequestRedraw);
    assert_eq!(classify(OsEvent::DeviceMuteChanged), Reaction::RequestRedraw);
}

#[test]
fn periodic_tick_asks_for_redraw() {
    assert_eq!(classify(OsEvent::PeriodicTick), Reaction::RequestRedraw);
}

#[test]
fn session_changes_drive_the_lock_policy() {
    assert_eq!(classify(OsEvent::SessionChanged(SESSION_LOCK_CODE)), Reaction::RunLockPolicy);
    assert_eq!(classify(OsEvent::SessionChanged(SESSION_UNLOCK_CODE)), Reaction::RunUnlockPolicy);
}

#[test]
fn other_session_changes_are_ignored() {
    // remote-connect, logon and friends
    assert_eq!(classify(OsEvent::SessionChanged(1)), Reaction::Ignore);
    assert_eq!(classify(OsEvent::SessionChanged(5)), Reaction::Ignore);
    assert_eq!(classify(OsEvent::SessionChanged(0)), Reaction::Ignore);
}

#[test]
fn every_handled_reaction_ends_in_a_repaint() {
    assert!(triggers_repaint(Reaction::RequestRedraw));
    assert!(triggers_repaint(Reaction::RunLockPolicy));
    assert!(triggers_repaint(Reaction::RunUnlockPolicy));
    assert!(!triggers_repaint(Reaction::Ignore));
}

#[test]
fn message_names_match_the_table() {
    assert_eq!(message_name(0x0000), "WM_NULL");
    assert_eq!(message_name(0x000F), "WM_PAINT");
    assert_eq!(message_name(0x0008), "WM_KILLFOCUS");
    assert_eq!(message_name(0x02B1), "unknown");
    assert_eq!(message_name(0x8000), "WM_APP");
    assert_eq!(message_name(0xFFFF_FFFF), "unknown");
}
