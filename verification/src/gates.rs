//! The per-step rules of the controller: when a body is grounded, when the
//! ground spring pushes, when the move force applies, and when a jump fires.
//!
//! The comparisons of times and distances are made on the engine's clock and
//! ray hits; the rules below combine their outcomes.

use vstd::prelude::*;

verus! {

/// What the grounding step does to one body: mark it grounded or airborne,
/// and, when grounded, stamp its last-grounded time with `now`.
#[derive(Debug, PartialEq, Eq)]
pub struct GroundUpdate<T> {
    /// Whether the body carries the grounded marker after this step.
    pub grounded: bool,
    /// The new last-grounded time, or `None` to leave the recorded one as it is.
    pub stamp_last_grounded: Option<T>,
}

/// The grounding step for a body whose ground is (or is not) closer than its
/// ride height.
pub open spec fn ground_step<T>(below_ride_height: bool, now: T) -> GroundUpdate<T> {
    GroundUpdate {
        grounded: below_ride_height,
        stamp_last_grounded: if below_ride_height { Some(now) } else { None },
    }
}

/// Decides the grounding step: a body whose ground is closer than its ride
/// height is grounded and stamped with `now`; otherwise it loses the grounded
/// marker and keeps its last-grounded time.
pub fn ground_update<T>(below_ride_height: bool, now: T) -> (update: GroundUpdate<T>)
    ensures
        update == ground_step(below_ride_height, now),
{
    if below_ride_height {
        GroundUpdate { grounded: true, stamp_last_grounded: Some(now) }
    } else {
        GroundUpdate { grounded: false, stamp_last_grounded: None }
    }
}

/// The last-grounded time a body has after `update`, given the one it had.
pub open spec fn last_grounded_after<T>(previous: Option<T>, update: GroundUpdate<T>) -> Option<T> {
    match update.stamp_last_grounded {
        Some(time) => Some(time),
        None => previous,
    }
}

/// The last-grounded time persists while the body is airborne and is set to
/// the current time whenever it is grounded, so the coyote time counts from the
/// last grounded step.
pub proof fn last_grounded_persists_while_airborne<T>(
    previous: Option<T>,
    below_ride_height: bool,
    now: T,
)
    ensures
        !below_ride_height ==> last_grounded_after(previous, ground_step(below_ride_height, now))
            == previous,
        below_ride_height ==> last_grounded_after(previous, ground_step(below_ride_height, now))
            == Some(now),
        ground_step(below_ride_height, now).grounded == below_ride_height,
        ground_step(below_ride_height, now).stamp_last_grounded is Some <==> below_ride_height,
        below_ride_height ==> ground_step(below_ride_height, now).stamp_last_grounded == Some(now),
{
}

/// What the movement rule reads for one body in one step.
#[derive(Clone, Copy, Debug, PartialEq, Eq, Structural)]
pub struct MovementConditions {
    /// Movement and jump input is taken into account.
    pub enabled: bool,
    /// The movement intent points somewhere (it is not zero).
    pub has_direction: bool,
}

/// The move force applies when the controller is enabled and the intent
/// points somewhere.
pub open spec fn movement_applies(c: MovementConditions) -> bool {
    c.enabled && c.has_direction
}

/// Decides whether the move force is computed and applied this step.
pub fn should_move(conditions: &MovementConditions) -> (apply: bool)
    ensures
        apply == movement_applies(*conditions),
{
    if !conditions.enabled {
        return false;
    }
    conditions.has_direction
}

/// A disabled controller ignores movement input: whatever the intent, no
/// move force applies.
pub proof fn disabled_controller_ignores_movement(conditions: MovementConditions)
    ensures
        !conditions.enabled ==> !movement_applies(conditions),
        !conditions.has_direction ==> !movement_applies(conditions),
        conditions.enabled && conditions.has_direction ==> movement_applies(conditions),
{
}

/// What the jump rule reads for one body in one step.
#[derive(Clone, Copy, Debug, PartialEq, Eq, Structural)]
pub struct JumpConditions {
    /// Movement and jump input is taken into account.
    pub enabled: bool,
    /// More than the coyote time has passed since the body was last grounded.
    pub coyote_time_expired: bool,
    /// The body jumped less than the jump cooldown ago.
    pub cooling_down: bool,
    /// A jump is being requested.
    pub jump_requested: bool,
}

/// A jump fires when the controller is enabled, the body was grounded within
/// the coyote time, the cooldown since the last jump is over, and a jump is
/// requested.
pub open spec fn jump_fires(c: JumpConditions) -> bool {
    c.enabled && !c.coyote_time_expired && !c.cooling_down && c.jump_requested
}

/// Decides whether the body launches this step (its vertical velocity is set
/// to the jump velocity and the jump time recorded).
pub fn should_jump(conditions: &JumpConditions) -> (jump: bool)
    ensures
        jump == jump_fires(*conditions),
{
    if !conditions.enabled {
        return false;
    }
    if conditions.coyote_time_expired {
        return false;
    }
    if conditions.cooling_down {
        return false;
    }
    conditions.jump_requested
}

/// What the ground spring reads for one body in one step.
#[derive(Clone, Copy, Debug, PartialEq, Eq, Structural)]
pub struct HoverConditions {
    /// The body jumped a short while ago, so the spring must not cancel the
    /// launch before the body clears hover range.
    pub recently_jumped: bool,
    /// The ground is at or beyond the ride height.
    pub at_or_above_ride_height: bool,
}

/// The spring pushes when the body is below its ride height and did not just jump.
pub open spec fn spring_pushes(c: HoverConditions) -> bool {
    !c.recently_jumped && !c.at_or_above_ride_height
}

/// Decides whether the ground spring force is applied this step.
pub fn should_hover(conditions: &HoverConditions) -> (hover: bool)
    ensures
        hover == spring_pushes(*conditions),
{
    if conditions.recently_jumped {
        return false;
    }
    !conditions.at_or_above_ride_height
}

/// A disabled controller never jumps, whatever else holds; the coyote time
/// and the cooldown likewise each veto a jump on their own.
pub proof fn jump_vetoes(jump: JumpConditions)
    ensures
        !jump.enabled ==> !jump_fires(jump),
        jump.coyote_time_expired ==> !jump_fires(jump),
        jump.cooling_down ==> !jump_fires(jump),
        !jump.jump_requested ==> !jump_fires(jump),
        jump.enabled && !jump.coyote_time_expired && !jump.cooling_down && jump.jump_requested
            ==> jump_fires(jump),
{
}

/// The ground spring is held off right after a jump and at or above the ride
/// height, and pushes whenever neither holds.
pub proof fn spring_vetoes(hover: HoverConditions)
    ensures
        hover.recently_jumped ==> !spring_pushes(hover),
        hover.at_or_above_ride_height ==> !spring_pushes(hover),
        !hover.recently_jumped && !hover.at_or_above_ride_height ==> spring_pushes(hover),
{
}

} // verus!
