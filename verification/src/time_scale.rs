//! Global simulation time-scale control.
//!
//! The scale is one of 0.5, 1.0 or 2.0 (500, 1000 or 2000 milli), chosen by
//! the three speed keys; the pause key toggles a flag. While paused the
//! effective scale is zero and speed changes are ignored.

use vstd::prelude::*;

verus! {

/// The simulation speed multiplier and pause flag, in milli-units.
#[derive(Debug, Clone, Copy, PartialEq, Eq, Structural)]
pub struct TimeScale {
    pub scale_milli: i64,
    pub is_paused: bool,
}

/// A `TimeScale` holds one of the three selectable speeds.
pub open spec fn time_scale_wf(t: TimeScale) -> bool {
    t.scale_milli == 500 || t.scale_milli == 1000 || t.scale_milli == 2000
}

/// The state after one frame of the pause key handler: a just-pressed pause
/// key flips the flag and touches nothing else.
pub open spec fn pause_step(t: TimeScale, pause_pressed: bool) -> TimeScale {
    if pause_pressed {
        TimeScale { scale_milli: t.scale_milli, is_paused: !t.is_paused }
    } else {
        t
    }
}

/// The state after one frame of the speed key handler: while paused all
/// speed keys are ignored; otherwise the first of keys 1/2/3 that was just
/// pressed selects 0.5/1.0/2.0.
pub open spec fn speed_step(t: TimeScale, key1: bool, key2: bool, key3: bool) -> TimeScale {
    if t.is_paused {
        t
    } else if key1 {
        TimeScale { scale_milli: 500, is_paused: t.is_paused }
    } else if key2 {
        TimeScale { scale_milli: 1000, is_paused: t.is_paused }
    } else if key3 {
        TimeScale { scale_milli: 2000, is_paused: t.is_paused }
    } else {
        t
    }
}

impl TimeScale {
    /// The initial control state: normal speed, not paused.
    pub fn new() -> (t: TimeScale)
        ensures
            t.scale_milli == 1000,
            !t.is_paused,
            time_scale_wf(t),
    {
        TimeScale { scale_milli: 1000, is_paused: false }
    }

    /// The multiplier gameplay systems apply to the frame delta: zero while
    /// paused, the selected scale otherwise.
    pub fn effective_scale(&self) -> (r: i64)
        ensures
            r == if self.is_paused { 0int } else { self.scale_milli as int },
    {
        if self.is_paused {
            0
        } else {
            self.scale_milli
        }
    }

    /// One frame of the pause key handler.
    pub fn handle_pause_input(&mut self, pause_pressed: bool)
        ensures
            *final(self) == pause_step(*old(self), pause_pressed),
    {
        if pause_pressed {
            self.is_paused = !self.is_paused;
        }
    }

    /// One frame of the speed key handler; `key1`/`key2`/`key3` say which
    /// speed keys were just pressed.
    pub fn handle_speed_input(&mut self, key1: bool, key2: bool, key3: bool)
        ensures
            *final(self) == speed_step(*old(self), key1, key2, key3),
            time_scale_wf(*old(self)) ==> time_scale_wf(*final(self)),
    {
        if self.is_paused {
            return;
        }
        if key1 {
            self.scale_milli = 500;
        } else if key2 {
            self.scale_milli = 1000;
        } else if key3 {
            self.scale_milli = 2000;
        }
    }
}

/// Toggling pause twice restores the original state, whatever it was.
pub proof fn lemma_pause_toggle_involutive(t: TimeScale)
    ensures
        pause_step(pause_step(t, true), true) == t,
{
}

/// While unpaused, pressing the normal-speed key sets the scale to exactly
/// 1.0; while paused, every speed key leaves the state unchanged.
pub proof fn lemma_speed_key_effect(t: TimeScale, key1: bool, key2: bool, key3: bool)
    ensures
        !t.is_paused ==> speed_step(t, false, true, false).scale_milli == 1000,
        t.is_paused ==> speed_step(t, key1, key2, key3) == t,
{
}

} // verus!
