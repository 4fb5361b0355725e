//! Tests of the lock policy state machine, driven through the same
//! probe/action/confirm protocol an embedding runs against real devices.

use mute_indicator::policy::{LockPolicyState, MuteAction, MuteProbe, Role};

/// A two-device world: the mute state of the device backing each role,
/// `None` when the role has no device.
struct World {
    render: Option<bool>,
    capture: Option<bool>,
}

impl World {
    fn probe(&self, role: Role) -> MuteProbe {
        let state = match role {
            Role::Render => self.render,
            Role::Capture => self.capture,
        };
        match state {
            None => MuteProbe::Unavailable,
            Some(true) => MuteProbe::Muted,
            Some(false) => MuteProbe::Unmuted,
        }
    }

    fn set_mute(&mut self, role: Role, value: bool) {
        let state = match role {
            Role::Render => &mut self.render,
            Role::Capture => &mut self.capture,
        };
        if state.is_some() {
            *state = Some(value);
        }
    }
}

/// Run the lock protocol for both roles, as the session-lock handler does.
fn run_lock(world: &mut World, policy: &mut LockPolicyState) {
    for role in [Role::Render, Role::Capture] {
        let probe = world.probe(role);
        if let MuteAction::SetMute(v) = policy.lock_action(probe) {
            world.set_mute(role, v);
            policy.confirm_forced_mute(role);
        }
    }
}

/// Run the unlock protocol for both roles, as the session-unlock handler
/// does.
fn run_unlock(world: &mut World, policy: &mut LockPolicyState) {
    for role in [Role::Render, Role::Capture] {
        let probe = if policy.unlock_pending(role) {
            world.probe(role)
        } else {
            MuteProbe::Unavailable
        };
        if let MuteAction::SetMute(v) = policy.unlock_action(role, probe) {
            world.set_mute(role, v);
        }
        policy.finish_unlock(role);
    }
}

#[test]
fn lock_mutes_unmuted_device_and_unlock_restores_it() {
    let mut world = World { render: Some(false), capture: Some(false) };
    let mut policy = LockPolicyState::new();

    run_lock(&mut world, &mut policy);
    assert_eq!(world.render, Some(true));
    assert_eq!(world.capture, Some(true));
    assert!(policy.flag(Role::Render));
    assert!(policy.flag(Role::Capture));

    run_unlock(&mut world, &mut policy);
    assert_eq!(world.render, Some(false));
    assert_eq!(world.capture, Some(false));
    assert!(!policy.flag(Role::Render));
    assert!(!policy.flag(Role::Capture));
}

#[test]
fn lock_leaves_user_muted_device_alone() {
    let mut world = World { render: Some(true), capture: Some(true) };
    let mut policy = LockPolicyState::new();

    run_lock(&mut world, &mut policy);
    assert_eq!(world.render, Some(true));
    assert_eq!(world.capture, Some(true));
    assert!(!policy.flag(Role::Render));
    assert!(!policy.flag(Role::Capture));

    run_unlock(&mut world, &mut policy);
    assert_eq!(world.render, Some(true), "unlock must not unmute a user-muted device");
    assert_eq!(world.capture, Some(true));
}

#[test]
fn unlock_without_lock_is_noop() {
    let mut world = World { render: Some(false), capture: Some(true) };
    let mut policy = LockPolicyState::new();

    run_unlock(&mut world, &mut policy);
    assert_eq!(world.render, Some(false));
    assert_eq!(world.capture, Some(true));
    assert!(!policy.flag(Role::Render));
    assert!(!policy.flag(Role::Capture));
}

#[test]
fn second_lock_in_a_row_changes_nothing() {
    let mut world = World { render: Some(false), capture: Some(true) };
    let mut policy = LockPolicyState::new();

    run_lock(&mut world, &mut policy);
    let render_after_one = world.render;
    let capture_after_one = world.capture;
    let flags_after_one = (policy.flag(Role::Render), policy.flag(Role::Capture));

    run_lock(&mut world, &mut policy);
    assert_eq!(world.render, render_after_one);
    assert_eq!(world.capture, capture_after_one);
    assert_eq!((policy.flag(Role::Render), policy.flag(Role::Capture)), flags_after_one);
    assert_eq!(flags_after_one, (true, false));
}

#[test]
fn lock_skips_unavailable_device() {
    let mut world = World { render: None, capture: Some(false) };
    let mut policy = LockPolicyState::new();

    run_lock(&mut world, &mut policy);
    assert_eq!(world.render, None);
    assert!(!policy.flag(Role::Render));
    assert_eq!(world.capture, Some(true), "one unavailable role must not stop the other");
    assert!(policy.flag(Role::Capture));
}

#[test]
fn unlock_clears_flag_even_when_device_disappeared() {
    let mut world = World { render: Some(false), capture: Some(true) };
    let mut policy = LockPolicyState::new();

    run_lock(&mut world, &mut policy);
    assert!(policy.flag(Role::Render));

    // the render device vanishes while locked
    world.render = None;
    run_unlock(&mut world, &mut policy);
    assert!(!policy.flag(Role::Render), "the flag must never stay stuck");
    assert!(!policy.flag(Role::Capture));
}

#[test]
fn unlock_leaves_device_remuted_by_user_after_manual_unmute() {
    let mut world = World { render: Some(false), capture: Some(true) };
    let mut policy = LockPolicyState::new();

    run_lock(&mut world, &mut policy);
    assert_eq!(world.render, Some(true));

    // the user unmutes the render device by hand while locked
    world.render = Some(false);
    run_unlock(&mut world, &mut policy);
    assert_eq!(world.render, Some(false), "nothing to restore once the user unmuted");
    assert!(!policy.flag(Role::Render));
}

#[test]
fn lock_action_is_pure_decision() {
    let policy = LockPolicyState::new();
    assert_eq!(policy.lock_action(MuteProbe::Unmuted), MuteAction::SetMute(true));
    assert_eq!(policy.lock_action(MuteProbe::Muted), MuteAction::Keep);
    assert_eq!(policy.lock_action(MuteProbe::Unavailable), MuteAction::Keep);
}

#[test]
fn unlock_action_needs_flag_and_muted_device() {
    let mut policy = LockPolicyState::new();
    assert_eq!(policy.unlock_action(Role::Render, MuteProbe::Muted), MuteAction::Keep);
    policy.confirm_forced_mute(Role::Render);
    assert_eq!(policy.unlock_action(Role::Render, MuteProbe::Muted), MuteAction::SetMute(false));
    assert_eq!(policy.unlock_action(Role::Render, MuteProbe::Unmuted), MuteAction::Keep);
    assert_eq!(policy.unlock_action(Role::Render, MuteProbe::Unavailable), MuteAction::Keep);
    assert_eq!(policy.unlock_action(Role::Capture, MuteProbe::Muted), MuteAction::Keep);
}
