//! The decisions that the player's keys drive: which way the ragdoll is pushed and
//! whether the simulation clock runs.

use vstd::prelude::*;

verus! {

/// A direction on the unit grid, pointing where the held movement keys push.
#[derive(Clone, Copy, PartialEq, Eq, Debug, Structural)]
pub struct MoveDirection {
    pub x: i32,
    pub y: i32,
}

pub open spec fn key_value(held: bool) -> int {
    if held {
        1
    } else {
        0
    }
}

/// The direction the movement keys push in: up and right count positive, down and
/// left negative, and opposite keys held together cancel.
pub fn keyboard_direction(up: bool, down: bool, left: bool, right: bool) -> (d: MoveDirection)
    ensures
        d.x == key_value(right) - key_value(left),
        d.y == key_value(up) - key_value(down),
        -1 <= d.x <= 1,
        -1 <= d.y <= 1,
        (d.x == 0 && d.y == 0) <==> (up == down && left == right),
{
    let mut d = MoveDirection { x: 0, y: 0 };
    if up {
        d.y = d.y + 1;
    }
    if down {
        d.y = d.y - 1;
    }
    if left {
        d.x = d.x - 1;
    }
    if right {
        d.x = d.x + 1;
    }
    d
}

impl MoveDirection {
    /// Whether the direction pushes at all.
    pub fn is_moving(&self) -> (r: bool)
        ensures
            r == (self.x != 0 || self.y != 0),
    {
        self.x != 0 || self.y != 0
    }
}

/// What to do with the simulation clock.
#[derive(Clone, Copy, PartialEq, Eq, Debug, Structural)]
pub enum TimeAction {
    Pause,
    Unpause,
    Keep,
}

/// Whether the clock is paused after the action, given whether it was before.
pub open spec fn paused_after(paused: bool, action: TimeAction) -> bool {
    match action {
        TimeAction::Pause => true,
        TimeAction::Unpause => false,
        TimeAction::Keep => paused,
    }
}

/// Space toggles the clock: it pauses a running clock and resumes a paused one;
/// without a press the clock is left alone.
pub open spec fn time_action(space_just_pressed: bool, paused: bool) -> TimeAction {
    if !space_just_pressed {
        TimeAction::Keep
    } else if paused {
        TimeAction::Unpause
    } else {
        TimeAction::Pause
    }
}

/// Decides what a frame does to the clock, given whether space was just pressed and
/// whether the clock is paused.
pub fn set_time(space_just_pressed: bool, paused: bool) -> (a: TimeAction)
    ensures
        a == time_action(space_just_pressed, paused),
        paused_after(paused, a) == (paused != space_just_pressed),
{
    if space_just_pressed {
        if paused {
            TimeAction::Unpause
        } else {
            TimeAction::Pause
        }
    } else {
        TimeAction::Keep
    }
}

/// Pressing space twice leaves the clock as it was.
pub proof fn lemma_two_presses_restore(paused: bool)
    ensures
        ({
            let once = paused_after(paused, time_action(true, paused));
            paused_after(once, time_action(true, once)) == paused
        }),
{
}

/// Once the clock has been paused (as spawning a ragdoll does), a frame without a
/// press keeps it paused, and a press of space starts it.
pub proof fn lemma_paused_until_space(paused: bool)
    ensures
        ({
            let stopped = paused_after(paused, TimeAction::Pause);
            &&& paused_after(stopped, time_action(false, stopped))
            &&& !paused_after(stopped, time_action(true, stopped))
        }),
{
}

} // verus!
