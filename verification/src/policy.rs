//! The lock policy state machine.
//!
//! Two independent flags remember which of the two tracked endpoints this
//! process force-muted when the session locked, so that unlock can restore
//! exactly those endpoints and never un-mute a device the user muted on
//! purpose.
//!
//! The decisions are pure functions over probed mute states; the caller
//! performs the actual device queries and mute calls and feeds their
//! outcomes back in.  A spec-level model of one tracked role
//! ([`RoleModel`], [`role_step`], [`role_run`]) ties the decision functions
//! together into a transition system over whole lock/unlock histories, and
//! the laws at the end of the module are proved against it.

use vstd::prelude::*;

verus! {

/// The two logical endpoint roles the indicator tracks.  Each one is
/// resolved to a concrete device identity at the moment of use; the
/// resolution is never cached.
#[derive(Clone, Copy, Debug, PartialEq, Eq, Structural)]
pub enum Role {
    /// The default playback (render) endpoint.
    Render,
    /// The default recording (capture) endpoint.
    Capture,
}

/// Outcome of probing the current default device of a role for its live
/// mute state.
#[derive(Clone, Copy, Debug, PartialEq, Eq, Structural)]
pub enum MuteProbe {
    /// No default device exists for the role, or the query failed.
    Unavailable,
    /// The device is present and muted.
    Muted,
    /// The device is present and not muted.
    Unmuted,
}

/// What the caller must do to the probed device.
#[derive(Clone, Copy, Debug, PartialEq, Eq, Structural)]
pub enum MuteAction {
    /// Set the device's mute flag to the given value.
    SetMute(bool),
    /// Leave the device alone.
    Keep,
}

/// The singleton two-flag lock policy state.  A flag is true only between
/// a lock event that made this process mute that endpoint and the matching
/// unlock that restores it.
pub struct LockPolicyState {
    /// True while the default render endpoint stays muted only because this
    /// process muted it at lock time.
    pub output_was_force_muted: bool,
    /// True while the default capture endpoint stays muted only because
    /// this process muted it at lock time.
    pub input_was_force_muted: bool,
}

/// The lock decision for one role: force-mute exactly the devices that are
/// currently unmuted.  A device that is already muted was muted by the user
/// (or by an earlier lock) and is left alone; an unavailable device is
/// skipped.
pub open spec fn spec_lock_action(probe: MuteProbe) -> MuteAction {
    if probe is Unmuted {
        MuteAction::SetMute(true)
    } else {
        MuteAction::Keep
    }
}

/// The unlock decision for one role: restore the device only if this
/// process force-muted it at lock time and it is still muted now.
pub open spec fn spec_unlock_action(flag: bool, probe: MuteProbe) -> MuteAction {
    if flag && probe is Muted {
        MuteAction::SetMute(false)
    } else {
        MuteAction::Keep
    }
}

impl LockPolicyState {
    /// The force-muted flag of `role`.
    pub open spec fn spec_flag(&self, role: Role) -> bool {
        match role {
            Role::Render => self.output_was_force_muted,
            Role::Capture => self.input_was_force_muted,
        }
    }

    /// `self` with the flag of `role` replaced by `v`.
    pub open spec fn with_flag(self, role: Role, v: bool) -> LockPolicyState {
        match role {
            Role::Render => LockPolicyState { output_was_force_muted: v, ..self },
            Role::Capture => LockPolicyState { input_was_force_muted: v, ..self },
        }
    }

    /// The state at process start: nothing has been force-muted yet.
    pub fn new() -> (s: Self)
        ensures
            !s.output_was_force_muted,
            !s.input_was_force_muted,
    {
        LockPolicyState { output_was_force_muted: false, input_was_force_muted: false }
    }

    /// Read the force-muted flag of `role`.
    pub fn flag(&self, role: Role) -> (b: bool)
        ensures
            b == self.spec_flag(role),
    {
        match role {
            Role::Render => self.output_was_force_muted,
            Role::Capture => self.input_was_force_muted,
        }
    }

    /// The action a lock event demands for a role whose probe came back as
    /// `probe`.  Does not change any flag: the caller must apply the action
    /// to the device first and call [`Self::confirm_forced_mute`] only once
    /// the mute call succeeded, so that a failed call leaves the state as
    /// it was.
    pub fn lock_action(&self, probe: MuteProbe) -> (a: MuteAction)
        ensures
            a == spec_lock_action(probe),
    {
        if matches!(probe, MuteProbe::Unmuted) {
            MuteAction::SetMute(true)
        } else {
            MuteAction::Keep
        }
    }

    /// Record that this process has just force-muted the device of `role`:
    /// the matching unlock now owes it a restore.
    pub fn confirm_forced_mute(&mut self, role: Role)
        ensures
            *final(self) == old(self).with_flag(role, true),
    {
        match role {
            Role::Render => self.output_was_force_muted = true,
            Role::Capture => self.input_was_force_muted = true,
        }
    }

    /// Whether an unlock event owes `role` a restore, and hence whether its
    /// device needs to be probed at all.
    pub fn unlock_pending(&self, role: Role) -> (b: bool)
        ensures
            b == self.spec_flag(role),
    {
        self.flag(role)
    }

    /// The action an unlock event demands for `role` given its probe.  A
    /// caller that saw [`Self::unlock_pending`] return false may skip the
    /// probe and pass `MuteProbe::Unavailable`: without the flag the action
    /// is `Keep` whatever the probe says.
    pub fn unlock_action(&self, role: Role, probe: MuteProbe) -> (a: MuteAction)
        ensures
            a == spec_unlock_action(self.spec_flag(role), probe),
    {
        if self.flag(role) && matches!(probe, MuteProbe::Muted) {
            MuteAction::SetMute(false)
        } else {
            MuteAction::Keep
        }
    }

    /// Unconditionally clear the flag of `role` at the end of its unlock
    /// step, whether or not the device was found and whether or not the
    /// restore succeeded.  Leaving the flag set would make it fire on a
    /// later unlock after an intervening manual mute.
    pub fn finish_unlock(&mut self, role: Role)
        ensures
            *final(self) == old(self).with_flag(role, false),
    {
        match role {
            Role::Render => self.output_was_force_muted = false,
            Role::Capture => self.input_was_force_muted = false,
        }
    }
}

/// An event affecting one tracked role, as the policy model sees it.
pub enum PolicyEvent {
    /// The session locked.
    Lock,
    /// The session unlocked.
    Unlock,
    /// The observable mute state of the role changed for a reason outside
    /// the lock policy: user action, a device swap, or removal (`None`).
    MuteChanged(Option<bool>),
}

/// Model of one tracked role: the live mute state of the device currently
/// backing it (`None` when no device is available) together with the
/// policy flag for that role.
pub struct RoleModel {
    /// `Some(m)` when a device is present with mute state `m`; `None` when
    /// no default device backs the role.
    pub mute: Option<bool>,
    /// The force-muted flag the policy keeps for the role.
    pub flag: bool,
}

/// The probe a well-behaved query returns for a device in state `mute`.
pub open spec fn probe_of(mute: Option<bool>) -> MuteProbe {
    match mute {
        Option::None => MuteProbe::Unavailable,
        Option::Some(true) => MuteProbe::Muted,
        Option::Some(false) => MuteProbe::Unmuted,
    }
}

/// The device state after an action is applied to it, assuming a present
/// device honours set requests.
pub open spec fn apply_action(mute: Option<bool>, a: MuteAction) -> Option<bool> {
    match a {
        MuteAction::SetMute(v) => if mute is Some {
            Option::Some(v)
        } else {
            Option::None
        },
        MuteAction::Keep => mute,
    }
}

/// One transition of a tracked role.  Lock and unlock apply exactly the
/// decision functions the executable policy exposes, with the probe the
/// device's current state would produce; the flag is set precisely when a
/// lock actually muted the device, and is always cleared by unlock.
pub open spec fn role_step(m: RoleModel, e: PolicyEvent) -> RoleModel {
    match e {
        PolicyEvent::Lock => {
            let a = spec_lock_action(probe_of(m.mute));
            RoleModel { mute: apply_action(m.mute, a), flag: if a is SetMute {
                true
            } else {
                m.flag
            } }
        },
        PolicyEvent::Unlock => {
            let a = spec_unlock_action(m.flag, probe_of(m.mute));
            RoleModel { mute: apply_action(m.mute, a), flag: false }
        },
        PolicyEvent::MuteChanged(v) => RoleModel { mute: v, flag: m.flag },
    }
}

/// A whole history of events applied in order.
pub open spec fn role_run(m: RoleModel, es: Seq<PolicyEvent>) -> RoleModel
    decreases es.len(),
{
    if es.len() == 0 {
        m
    } else {
        role_run(role_step(m, es[0]), es.drop_first())
    }
}

/// Running a concatenated history is running its halves in order.
pub proof fn lemma_role_run_append(m: RoleModel, es1: Seq<PolicyEvent>, es2: Seq<PolicyEvent>)
    ensures
        role_run(m, es1 + es2) == role_run(role_run(m, es1), es2),
    decreases es1.len(),
{
    if es1.len() == 0 {
        assert(es1 + es2 =~= es2);
    } else {
        assert((es1 + es2).drop_first() =~= es1.drop_first() + es2);
        lemma_role_run_append(role_step(m, es1[0]), es1.drop_first(), es2);
    }
}

/// Running a single event is stepping it.
pub proof fn lemma_role_run_one(m: RoleModel, e: PolicyEvent)
    ensures
        role_run(m, seq![e]) == role_step(m, e),
{
    reveal_with_fuel(role_run, 2);
    assert(seq![e].drop_first() =~= Seq::<PolicyEvent>::empty());
}

/// Law: whatever events came before, a device that is unmuted immediately
/// before a lock is muted immediately after it and flagged, and the
/// matching unlock restores it to unmuted and clears the flag, provided no
/// other mute change occurs in between.
pub proof fn lemma_lock_then_unlock_restores(m0: RoleModel, history: Seq<PolicyEvent>)
    requires
        role_run(m0, history).mute == Option::Some(false),
    ensures
        role_run(m0, history + seq![PolicyEvent::Lock]).mute == Option::Some(true),
        role_run(m0, history + seq![PolicyEvent::Lock]).flag,
        role_run(m0, history + seq![PolicyEvent::Lock, PolicyEvent::Unlock]).mute
            == Option::Some(false),
        !role_run(m0, history + seq![PolicyEvent::Lock, PolicyEvent::Unlock]).flag,
{
    let m = role_run(m0, history);
    lemma_role_run_append(m0, history, seq![PolicyEvent::Lock]);
    lemma_role_run_append(m0, history, seq![PolicyEvent::Lock, PolicyEvent::Unlock]);
    lemma_role_run_one(m, PolicyEvent::Lock);
    let locked = role_step(m, PolicyEvent::Lock);
    assert(seq![PolicyEvent::Lock, PolicyEvent::Unlock] =~= seq![PolicyEvent::Lock] + seq![
        PolicyEvent::Unlock,
    ]);
    lemma_role_run_append(m, seq![PolicyEvent::Lock], seq![PolicyEvent::Unlock]);
    lemma_role_run_one(locked, PolicyEvent::Unlock);
}

/// Law: a device that was already muted before a lock keeps its mute state
/// and its flag stays false, so the following unlock does not un-mute it.
pub proof fn lemma_lock_preserves_user_mute(m: RoleModel)
    requires
        m.mute == Option::Some(true),
        !m.flag,
    ensures
        role_step(m, PolicyEvent::Lock) == m,
        role_step(role_step(m, PolicyEvent::Lock), PolicyEvent::Unlock) == m,
{
}

/// Law: an unlock with no preceding lock is a no-op, because the flag is
/// already clear.
pub proof fn lemma_unlock_without_lock_is_noop(m: RoleModel)
    requires
        !m.flag,
    ensures
        role_step(m, PolicyEvent::Unlock) == m,
{
}

/// Law: a second lock with no intervening unlock changes nothing: it
/// observes the device already muted (or still unavailable) and neither
/// re-sets the device nor touches the flags again.
pub proof fn lemma_lock_idempotent(m: RoleModel)
    ensures
        role_step(role_step(m, PolicyEvent::Lock), PolicyEvent::Lock) == role_step(
            m,
            PolicyEvent::Lock,
        ),
{
}

} // verus!
