//! Internal state of the eight Game Boy buttons.

use vstd::prelude::*;

use crate::utils::JoypadMode;

verus! {

/// Holds one cell per button, 1 for unpressed and 0 for pressed, indexed
/// as Right=0, Left=1, Up=2, Down=3, Start=4, Select=5, B=6, A=7.
#[derive(Debug)]
pub struct Joypad {
    pub state: Vec<u8>,
}

impl Joypad {
    /// Eight button cells, each either pressed (0) or unpressed (1).
    pub open spec fn wf(self) -> bool {
        &&& self.state@.len() == 8
        &&& forall|i: int| 0 <= i < 8 ==> self.state@[i] == 0 || self.state@[i] == 1
    }

    pub fn new() -> (r: Joypad)
        ensures
            r.wf(),
            forall|i: int| 0 <= i < 8 ==> r.state@[i] == 1,
    {
        Joypad { state: vec![1u8, 1, 1, 1, 1, 1, 1, 1] }
    }

    pub fn get_button_state(&self, button: usize) -> (r: u8)
        requires
            button < 8,
            self.wf(),
        ensures
            r == self.state@[button as int],
    {
        self.state[button]
    }

    pub fn set_button_state(&mut self, button: usize)
        requires
            button < 8,
            old(self).wf(),
        ensures
            final(self).wf(),
            final(self).state@ == old(self).state@.update(button as int, 0u8),
    {
        self.state[button] = 0;
    }

    pub fn reset_button_state(&mut self, button: usize)
        requires
            button < 8,
            old(self).wf(),
        ensures
            final(self).wf(),
            final(self).state@ == old(self).state@.update(button as int, 1u8),
    {
        self.state[button] = 1;
    }

    pub fn get_buttons_for_mode(&mut self, mode: JoypadMode) -> (r: u8)
        requires
            old(self).wf(),
        ensures
            *final(self) == *old(self),
            r == spec_buttons_nibble(old(self).state@, mode),
            r <= 0xF,
    {
        proof {
            lemma_nibble_bound(
                self.state@[3],
                self.state@[2],
                self.state@[1],
                self.state@[0],
            );
            lemma_nibble_bound(
                self.state@[4],
                self.state@[5],
                self.state@[6],
                self.state@[7],
            );
        }
        match mode {
            JoypadMode::DIRECTION => {
                let down = self.state[3];
                let up = self.state[2];
                let left = self.state[1];
                let right = self.state[0];
                (down << 3u8) | (up << 2u8) | (left << 1u8) | right
            },
            JoypadMode::ACTION => {
                let start = self.state[4];
                let select = self.state[5];
                let b = self.state[6];
                let a = self.state[7];
                (start << 3u8) | (select << 2u8) | (b << 1u8) | a
            },
        }
    }
}

/// The low nibble of the joypad register for the selected button row:
/// bit 3..0 are Down/Up/Left/Right in direction mode and
/// Start/Select/B/A in action mode, 0 meaning pressed.
pub open spec fn spec_buttons_nibble(s: Seq<u8>, mode: JoypadMode) -> u8
    recommends
        s.len() == 8,
{
    match mode {
        JoypadMode::DIRECTION => (s[3] << 3u8) | (s[2] << 2u8) | (s[1] << 1u8) | s[0],
        JoypadMode::ACTION => (s[4] << 3u8) | (s[5] << 2u8) | (s[6] << 1u8) | s[7],
    }
}

proof fn lemma_nibble_bound(a: u8, b: u8, c: u8, d: u8)
    by (bit_vector)
    requires
        a <= 1,
        b <= 1,
        c <= 1,
        d <= 1,
    ensures
        ((a << 3u8) | (b << 2u8) | (c << 1u8) | d) <= 0xF,
{
}

/// Pressing and then releasing a button restores the joypad register's
/// low nibble to its value before the press, provided the button was not
/// already held down.
pub proof fn lemma_set_then_reset_restores_nibble(s: Seq<u8>, k: int, mode: JoypadMode)
    requires
        s.len() == 8,
        0 <= k < 8,
        s[k] == 1,
    ensures
        spec_buttons_nibble(s.update(k, 0u8).update(k, 1u8), mode) == spec_buttons_nibble(
            s,
            mode,
        ),
{
    assert(s.update(k, 0u8).update(k, 1u8) =~= s);
}

} // verus!
