//! A per-switch linear tween between the two switch extremes.
//!
//! Positions are measured in microseconds of travel at the fixed slide
//! speed: `0` is the LEFT extreme and [`TRAVEL_MICROS`] the RIGHT one, so a
//! full traverse takes exactly [`TRAVEL_MICROS`] microseconds (150 ms).
//! A renderer divides the position by [`TRAVEL_MICROS`] to recover the
//! fraction of the way across.
//!
//! The tween is a two-state machine: Idle (settled exactly on the extreme
//! its target names) and Animating (in transit). Retriggering while in
//! transit redirects the tween from its live position - it never jumps.

use vstd::prelude::*;

verus! {

/// Microseconds a full LEFT-to-RIGHT traverse takes; also the position
/// value of the RIGHT extreme.
pub const TRAVEL_MICROS: u64 = 150000;

/// Animation state for a single DIP switch.
#[derive(Debug, Clone, Copy)]
pub struct SwitchAnimation {
    /// The logical value the tween is easing toward.
    pub target_state: bool,
    /// Travel position: `0` = LEFT, [`TRAVEL_MICROS`] = RIGHT.
    pub current_position: u64,
    /// True while the position has not yet reached the target extreme.
    pub animating: bool,
}

/// The position value the target state names.
pub open spec fn spec_target(target_state: bool) -> int {
    if target_state {
        TRAVEL_MICROS as int
    } else {
        0
    }
}

/// Retargeting: the target is replaced and the tween re-armed; the
/// position stays exactly where it was.
pub open spec fn spec_start(a: SwitchAnimation, new_state: bool) -> SwitchAnimation {
    SwitchAnimation {
        target_state: new_state,
        current_position: a.current_position,
        animating: true,
    }
}

/// One tick: an idle tween is left alone; a live one moves toward its
/// target by the elapsed time, clamps exactly onto the target instead of
/// overshooting, and goes idle the tick the target is reached or passed.
pub open spec fn spec_update(a: SwitchAnimation, delta_micros: u64) -> SwitchAnimation {
    if !a.animating {
        a
    } else if a.target_state {
        if a.current_position + delta_micros >= TRAVEL_MICROS {
            SwitchAnimation {
                target_state: a.target_state,
                current_position: TRAVEL_MICROS,
                animating: false,
            }
        } else {
            SwitchAnimation {
                target_state: a.target_state,
                current_position: (a.current_position + delta_micros) as u64,
                animating: true,
            }
        }
    } else {
        if delta_micros >= a.current_position {
            SwitchAnimation { target_state: a.target_state, current_position: 0, animating: false }
        } else {
            SwitchAnimation {
                target_state: a.target_state,
                current_position: (a.current_position - delta_micros) as u64,
                animating: true,
            }
        }
    }
}

impl SwitchAnimation {
    /// The tween's invariant: the position never leaves the travel range,
    /// and an idle tween sits exactly on the extreme its target names.
    pub open spec fn wf(self) -> bool {
        &&& self.current_position <= TRAVEL_MICROS
        &&& !self.animating ==> self.current_position == spec_target(self.target_state)
    }

    /// A fresh tween: already settled on the extreme of `initial_state`.
    pub fn new(initial_state: bool) -> (r: Self)
        ensures
            r.wf(),
            r.target_state == initial_state,
            r.current_position == spec_target(initial_state),
            !r.animating,
    {
        Self {
            target_state: initial_state,
            current_position: if initial_state {
                TRAVEL_MICROS
            } else {
                0
            },
            animating: false,
        }
    }

    /// Ease toward `new_state` from wherever the knob is right now, even
    /// mid-flight toward the opposite extreme.
    pub fn start_animation(&mut self, new_state: bool)
        ensures
            *final(self) == spec_start(*old(self), new_state),
            old(self).wf() ==> final(self).wf(),
    {
        self.target_state = new_state;
        self.animating = true;
    }

    /// Advance the tween by `delta_micros` elapsed microseconds.
    pub fn update(&mut self, delta_micros: u64)
        requires
            old(self).wf(),
        ensures
            *final(self) == spec_update(*old(self), delta_micros),
            final(self).wf(),
    {
        if !self.animating {
            return;
        }
        if self.target_state {
            let remaining = TRAVEL_MICROS - self.current_position;
            if delta_micros >= remaining {
                self.current_position = TRAVEL_MICROS;
                self.animating = false;
            } else {
                self.current_position = self.current_position + delta_micros;
            }
        } else {
            if delta_micros >= self.current_position {
                self.current_position = 0;
                self.animating = false;
            } else {
                self.current_position = self.current_position - delta_micros;
            }
        }
    }

    /// The current travel position, for rendering.
    pub fn position(&self) -> (r: u64)
        ensures
            r == self.current_position,
    {
        self.current_position
    }
}

/// Retriggering redirects without teleporting: the position is untouched,
/// the tween is live, and the target is the new state.
pub proof fn lemma_retrigger_keeps_position(a: SwitchAnimation, new_state: bool)
    ensures
        spec_start(a, new_state).current_position == a.current_position,
        spec_start(a, new_state).animating,
        spec_start(a, new_state).target_state == new_state,
{
}

/// Updates move the position monotonically toward the target, never by
/// more than the elapsed time, never out of the travel range, and the
/// tween goes idle exactly when the target is reached.
pub proof fn lemma_update_moves_toward_target(a: SwitchAnimation, delta_micros: u64)
    requires
        a.current_position <= TRAVEL_MICROS,
    ensures
        a.target_state ==> spec_update(a, delta_micros).current_position >= a.current_position,
        !a.target_state ==> spec_update(a, delta_micros).current_position <= a.current_position,
        spec_update(a, delta_micros).current_position <= a.current_position + delta_micros,
        a.current_position <= spec_update(a, delta_micros).current_position + delta_micros,
        spec_update(a, delta_micros).current_position <= TRAVEL_MICROS,
        a.animating ==> (spec_update(a, delta_micros).animating <==> spec_update(a, delta_micros).current_position
            != spec_target(a.target_state)),
{
}

} // verus!
