//! Repaint planning.
//!
//! A repaint re-resolves both roles, re-reads live mute state through the
//! cache and draws the two device icons with a cross overlay on whichever
//! is muted.  The planning half is pure: given what the probes of the two
//! roles observed, it decides what is drawn where.  An unavailable device
//! or a failed activation simply leaves its slot empty rather than
//! failing the whole repaint.

use vstd::prelude::*;

verus! {

/// Horizontal origin of the playback (render) slot.
pub const OUTPUT_SLOT_X: i32 = 8;

/// Horizontal origin of the capture slot.
pub const INPUT_SLOT_X: i32 = 48;

/// Vertical origin of both slots.
pub const SLOT_Y: i32 = 8;

/// Side length of a slot's icon; the mute overlay crosses the full icon.
pub const SLOT_ICON_SIZE: i32 = 32;

/// What a repaint observed about one role: the cache position of its
/// current default device and that device's live mute state.
#[derive(Clone, Copy, Debug, PartialEq, Eq, Structural)]
pub struct SlotObservation {
    /// Position of the device's entry in the endpoint cache.
    pub cache_index: usize,
    /// The device's live mute state, read during this very repaint.
    pub muted: bool,
}

/// What one slot of the surface shows.
#[derive(Clone, Copy, Debug, PartialEq, Eq, Structural)]
pub struct SlotPlan {
    /// Position of the device entry whose icon is drawn.
    pub cache_index: usize,
    /// Horizontal origin of the icon.
    pub x: i32,
    /// Vertical origin of the icon.
    pub y: i32,
    /// Whether the mute cross is drawn over the icon.
    pub mute_overlay: bool,
}

/// The whole surface: one optional slot per role; `None` draws nothing
/// for that slot.
#[derive(Clone, Copy, Debug, PartialEq, Eq)]
pub struct RenderPlan {
    /// The playback (render) slot.
    pub output: Option<SlotPlan>,
    /// The capture slot.
    pub input: Option<SlotPlan>,
}

/// The slot drawn at horizontal origin `x` for an observation: the
/// observed device's icon, crossed out exactly when it is muted; nothing
/// when the role had no observable device.
pub open spec fn spec_slot_plan(x: i32, obs: Option<SlotObservation>) -> Option<SlotPlan> {
    match obs {
        Option::None => Option::None,
        Option::Some(o) => Option::Some(
            SlotPlan { cache_index: o.cache_index, x: x, y: SLOT_Y, mute_overlay: o.muted },
        ),
    }
}

/// The surface a repaint shows for the two observations.
pub open spec fn spec_plan_repaint(
    output: Option<SlotObservation>,
    input: Option<SlotObservation>,
) -> RenderPlan {
    RenderPlan {
        output: spec_slot_plan(OUTPUT_SLOT_X, output),
        input: spec_slot_plan(INPUT_SLOT_X, input),
    }
}

/// Plan a repaint from what the two role probes observed.  The plan is a
/// pure function of the observations: probing the same live state twice
/// paints the same picture twice.
pub fn plan_repaint(output: Option<SlotObservation>, input: Option<SlotObservation>) -> (plan:
    RenderPlan)
    ensures
        plan == spec_plan_repaint(output, input),
{
    RenderPlan { output: slot_plan(OUTPUT_SLOT_X, output), input: slot_plan(INPUT_SLOT_X, input) }
}

/// Plan one slot.
fn slot_plan(x: i32, obs: Option<SlotObservation>) -> (p: Option<SlotPlan>)
    ensures
        p == spec_slot_plan(x, obs),
{
    match obs {
        None => None,
        Some(o) => Some(
            SlotPlan { cache_index: o.cache_index, x: x, y: SLOT_Y, mute_overlay: o.muted },
        ),
    }
}

/// One straight stroke of the mute cross.
#[derive(Clone, Copy, Debug, PartialEq, Eq, Structural)]
pub struct Segment {
    /// Horizontal start.
    pub x1: i32,
    /// Vertical start.
    pub y1: i32,
    /// Horizontal end.
    pub x2: i32,
    /// Vertical end.
    pub y2: i32,
}

/// The two strokes of the mute cross over a slot's icon: its two
/// diagonals.
pub fn mute_overlay_segments(slot: &SlotPlan) -> (segs: (Segment, Segment))
    requires
        slot.x + SLOT_ICON_SIZE <= i32::MAX,
        slot.y + SLOT_ICON_SIZE <= i32::MAX,
    ensures
        segs.0.x1 == slot.x && segs.0.y1 == slot.y,
        segs.0.x2 == slot.x + SLOT_ICON_SIZE && segs.0.y2 == slot.y + SLOT_ICON_SIZE,
        segs.1.x1 == slot.x + SLOT_ICON_SIZE && segs.1.y1 == slot.y,
        segs.1.x2 == slot.x && segs.1.y2 == slot.y + SLOT_ICON_SIZE,
{
    let far_x = slot.x + SLOT_ICON_SIZE;
    let far_y = slot.y + SLOT_ICON_SIZE;
    (
        Segment { x1: slot.x, y1: slot.y, x2: far_x, y2: far_y },
        Segment { x1: far_x, y1: slot.y, x2: slot.x, y2: far_y },
    )
}

} // verus!
