//! The orchestrator: one switch bank and eight animations, kept in step.
//!
//! Every mutation goes through the panel, which retargets the matching
//! animation whenever a switch changes, so an animation's target always
//! tracks its switch's logical state (the [`SwitchPanel::wf`] invariant).
//! Key presses are decoded into [`KeyAction`] values here as well, so the
//! whole control surface is decided by verified code.

use vstd::prelude::*;
use crate::animation::SwitchAnimation;
use crate::animation::spec_start;
use crate::animation::spec_update;
use crate::dipswitch::DipSwitch;
use crate::dipswitch::spec_all_off;
use crate::dipswitch::spec_toggle;

verus! {

/// What a key press asks of the panel.
#[derive(Debug, Clone, Copy, PartialEq, Eq)]
pub enum KeyAction {
    /// Toggle the switch with this index (0-7).
    Toggle(u8),
    /// Put every switch back in the LEFT position.
    Reset,
    /// Leave the simulator.
    Quit,
    /// The key means nothing to the panel.
    Ignored,
}

/// The action a key press maps to: digits `1`-`8` toggle the switch one
/// below the digit, `r`/`R` resets, `q`/`Q` quits, anything else is
/// ignored.
pub open spec fn spec_decode_key(c: char) -> KeyAction {
    if c == '1' {
        KeyAction::Toggle(0)
    } else if c == '2' {
        KeyAction::Toggle(1)
    } else if c == '3' {
        KeyAction::Toggle(2)
    } else if c == '4' {
        KeyAction::Toggle(3)
    } else if c == '5' {
        KeyAction::Toggle(4)
    } else if c == '6' {
        KeyAction::Toggle(5)
    } else if c == '7' {
        KeyAction::Toggle(6)
    } else if c == '8' {
        KeyAction::Toggle(7)
    } else if c == 'r' || c == 'R' {
        KeyAction::Reset
    } else if c == 'q' || c == 'Q' {
        KeyAction::Quit
    } else {
        KeyAction::Ignored
    }
}

/// Decode one pressed character into the action it asks for.
pub fn decode_key(c: char) -> (a: KeyAction)
    ensures
        a == spec_decode_key(c),
{
    match c {
        '1' => KeyAction::Toggle(0),
        '2' => KeyAction::Toggle(1),
        '3' => KeyAction::Toggle(2),
        '4' => KeyAction::Toggle(3),
        '5' => KeyAction::Toggle(4),
        '6' => KeyAction::Toggle(5),
        '7' => KeyAction::Toggle(6),
        '8' => KeyAction::Toggle(7),
        'r' | 'R' => KeyAction::Reset,
        'q' | 'Q' => KeyAction::Quit,
        _ => KeyAction::Ignored,
    }
}

/// The panel: the sole owner of the switch bank and its 8 animations.
pub struct SwitchPanel {
    pub dipswitch: DipSwitch,
    pub animations: [SwitchAnimation; 8],
}

impl SwitchPanel {
    /// The panel's invariant: the bank holds its 8 switches, every
    /// animation is well formed, and every animation's target tracks its
    /// switch's logical state.
    pub open spec fn wf(self) -> bool {
        &&& self.dipswitch@.len() == 8
        &&& forall|i: int| 0 <= i < 8 ==> (#[trigger] self.animations@[i]).wf()
        &&& forall|i: int|
            0 <= i < 8 ==> (#[trigger] self.animations@[i]).target_state == self.dipswitch@[i]
    }

    /// A fresh panel: all switches LEFT, all animations settled at the
    /// LEFT extreme.
    pub fn new() -> (r: Self)
        ensures
            r.wf(),
            spec_all_off(r.dipswitch@),
            forall|i: int|
                0 <= i < 8 ==> !(#[trigger] r.animations@[i]).animating
                    && r.animations@[i].current_position == 0,
    {
        let r = Self {
            dipswitch: DipSwitch::new(),
            animations: [
                SwitchAnimation::new(false),
                SwitchAnimation::new(false),
                SwitchAnimation::new(false),
                SwitchAnimation::new(false),
                SwitchAnimation::new(false),
                SwitchAnimation::new(false),
                SwitchAnimation::new(false),
                SwitchAnimation::new(false),
            ],
        };
        r
    }

    /// Toggle the switch at `index` and ease its animation toward the new
    /// state; out of range nothing happens.
    pub fn toggle(&mut self, index: usize)
        requires
            old(self).wf(),
        ensures
            final(self).wf(),
            final(self).dipswitch@ == spec_toggle(old(self).dipswitch@, index as int),
            index < 8 ==> final(self).animations@ == old(self).animations@.update(
                index as int,
                spec_start(old(self).animations@[index as int], !old(self).dipswitch@[index as int]),
            ),
            index >= 8 ==> final(self).animations@ == old(self).animations@,
    {
        self.dipswitch.toggle(index);
        if index < 8 {
            let new_state = self.dipswitch.get(index);
            let mut anim = self.animations[index];
            anim.start_animation(new_state);
            self.animations[index] = anim;
        }
    }

    /// Put every switch back LEFT and ease every animation toward LEFT,
    /// re-arming each unconditionally.
    pub fn reset(&mut self)
        requires
            old(self).wf(),
        ensures
            final(self).wf(),
            spec_all_off(final(self).dipswitch@),
            forall|j: int|
                0 <= j < 8 ==> #[trigger] final(self).animations@[j] == spec_start(
                    old(self).animations@[j],
                    false,
                ),
    {
        self.dipswitch.reset();
        let mut i: usize = 0;
        while i < 8
            invariant
                i <= 8,
                old(self).wf(),
                spec_all_off(self.dipswitch@),
                forall|j: int|
                    0 <= j < i ==> #[trigger] self.animations@[j] == spec_start(
                        old(self).animations@[j],
                        false,
                    ),
                forall|j: int|
                    i <= j < 8 ==> #[trigger] self.animations@[j] == old(self).animations@[j],
            decreases 8 - i,
        {
            let mut anim = self.animations[i];
            anim.start_animation(false);
            self.animations[i] = anim;
            i = i + 1;
        }
    }

    /// Advance all 8 animations by the elapsed time; the switches are
    /// untouched.
    pub fn advance(&mut self, delta_micros: u64)
        requires
            old(self).wf(),
        ensures
            final(self).wf(),
            final(self).dipswitch == old(self).dipswitch,
            forall|j: int|
                0 <= j < 8 ==> #[trigger] final(self).animations@[j] == spec_update(
                    old(self).animations@[j],
                    delta_micros,
                ),
    {
        let mut i: usize = 0;
        while i < 8
            invariant
                i <= 8,
                old(self).wf(),
                self.dipswitch == old(self).dipswitch,
                forall|j: int|
                    0 <= j < i ==> #[trigger] self.animations@[j] == spec_update(
                        old(self).animations@[j],
                        delta_micros,
                    ),
                forall|j: int|
                    i <= j < 8 ==> #[trigger] self.animations@[j] == old(self).animations@[j],
            decreases 8 - i,
        {
            let mut anim = self.animations[i];
            anim.update(delta_micros);
            self.animations[i] = anim;
            i = i + 1;
        }
    }

    /// Apply one pressed character to the panel; the result says whether
    /// the key asked to quit.
    pub fn handle_key(&mut self, c: char) -> (quit: bool)
        requires
            old(self).wf(),
        ensures
            final(self).wf(),
            quit == (spec_decode_key(c) is Quit),
            match spec_decode_key(c) {
                KeyAction::Toggle(i) => final(self).dipswitch@ == spec_toggle(
                    old(self).dipswitch@,
                    i as int,
                ) && final(self).animations@ == old(self).animations@.update(
                    i as int,
                    spec_start(old(self).animations@[i as int], !old(self).dipswitch@[i as int]),
                ),
                KeyAction::Reset => spec_all_off(final(self).dipswitch@) && (forall|j: int|
                    0 <= j < 8 ==> #[trigger] final(self).animations@[j] == spec_start(
                        old(self).animations@[j],
                        false,
                    )),
                KeyAction::Quit => *final(self) == *old(self),
                KeyAction::Ignored => *final(self) == *old(self),
            },
    {
        let action = decode_key(c);
        match action {
            KeyAction::Toggle(i) => {
                self.toggle(i as usize);
                false
            },
            KeyAction::Reset => {
                self.reset();
                false
            },
            KeyAction::Quit => true,
            KeyAction::Ignored => false,
        }
    }
}

} // verus!
