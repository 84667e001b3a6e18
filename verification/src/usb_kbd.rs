//! The USB keyboard input report, maintained as held-key state.
//!
//! A standard keyboard report is one modifier bitmask byte plus up to six
//! concurrently held keycodes. [`StateReport`] tracks that state across
//! [`StateReport::press`] and [`StateReport::release`] calls so the engine's
//! `KeyPress`/`KeyRelease` events can drive a multi-key held-state report.

use vstd::prelude::*;

verus! {

use crate::keycodes::KeyWithFlags;

broadcast use vstd::array::group_array_axioms;

/// The usual number of keycode slots in a boot-protocol keyboard report.
pub const KEY_SLOTS: usize = 6;

/// First USB keycode that names a modifier key (Left Ctrl).
pub const MODIFIERS_START: u8 = 224;

/// Last USB keycode that names a modifier key (Right GUI).
pub const MODIFIERS_END: u8 = 231;

/// Why a press or release could not be recorded.
#[derive(Clone, Copy, Debug, PartialEq, Eq, Structural)]
pub enum Error {
    /// The key is already marked as pressed.
    AlreadyPressed,
    /// The key is already marked as released.
    AlreadyReleased,
    /// Too many keys are already marked as pressed.
    TooManyKeysPressed,
}

/// The modifier-bit mask a keycode stands for: modifier keycodes 224..=231
/// map to bits 0..=7 of the report's modifier byte.
pub open spec fn spec_as_modifier_mask(key: u8) -> Option<u8> {
    if MODIFIERS_START <= key && key <= MODIFIERS_END {
        Some(1u8 << ((key - MODIFIERS_START) as u8))
    } else {
        None
    }
}

/// The modifier-bit mask `key` stands for, or `None` for an ordinary key.
pub fn as_modifier_mask(key: u8) -> (r: Option<u8>)
    ensures
        r == spec_as_modifier_mask(key),
{
    if !(MODIFIERS_START <= key && key <= MODIFIERS_END) {
        return None;
    }
    let idx = key - MODIFIERS_START;
    Some(1u8 << idx)
}

/// The least index at or after `i` where `s` holds `x`, or `s.len()` if none.
pub open spec fn first_slot_from(s: Seq<u8>, x: u8, i: int) -> int
    decreases s.len() - i,
{
    if i < 0 || i >= s.len() {
        s.len() as int
    } else if s[i] == x {
        i
    } else {
        first_slot_from(s, x, i + 1)
    }
}

/// The least index where `s` holds `x`, or `s.len()` if none.
pub open spec fn first_slot(s: Seq<u8>, x: u8) -> int {
    first_slot_from(s, x, 0)
}

/// The abstract state of a [`StateReport`]: what its contracts speak of.
pub struct StateReportView {
    /// The modifier byte: one bit per modifier key held.
    pub modifier: u8,
    /// The six keycode slots; 0 is an empty slot.
    pub keycodes: Seq<u8>,
}

/// The effect of recording a press of `key`: the new state and the result.
///
/// A modifier key sets its bit; pressing it twice is refused. An ordinary key
/// takes the first empty slot, unless it is already held or no slot is free.
pub open spec fn spec_press(st: StateReportView, key: u8) -> (StateReportView, Result<(), Error>) {
    match spec_as_modifier_mask(key) {
        Some(mask) => {
            if st.modifier & mask != 0 {
                (st, Err(Error::AlreadyPressed))
            } else {
                (StateReportView { modifier: st.modifier | mask, ..st }, Ok(()))
            }
        },
        None => {
            if first_slot(st.keycodes, key) < st.keycodes.len() {
                (st, Err(Error::AlreadyPressed))
            } else if first_slot(st.keycodes, 0) < st.keycodes.len() {
                (
                    StateReportView {
                        keycodes: st.keycodes.update(first_slot(st.keycodes, 0), key),
                        ..st
                    },
                    Ok(()),
                )
            } else {
                (st, Err(Error::TooManyKeysPressed))
            }
        },
    }
}

/// The effect of recording a release of `key`: the new state and the result.
///
/// A modifier key clears its bit; releasing one not held is refused. An
/// ordinary key empties its slot; releasing one not held is refused.
pub open spec fn spec_release(st: StateReportView, key: u8) -> (
    StateReportView,
    Result<(), Error>,
) {
    match spec_as_modifier_mask(key) {
        Some(mask) => {
            if st.modifier & mask == 0 {
                (st, Err(Error::AlreadyReleased))
            } else {
                (StateReportView { modifier: st.modifier & !mask, ..st }, Ok(()))
            }
        },
        None => {
            if first_slot(st.keycodes, key) < st.keycodes.len() {
                (
                    StateReportView {
                        keycodes: st.keycodes.update(first_slot(st.keycodes, key), 0),
                        ..st
                    },
                    Ok(()),
                )
            } else {
                (st, Err(Error::AlreadyReleased))
            }
        },
    }
}

/// A keyboard input report maintained as held-key state.
#[derive(Clone, Copy, Debug)]
pub struct StateReport {
    modifier: u8,
    keycodes: [u8; 6],
}

impl View for StateReport {
    type V = StateReportView;

    closed spec fn view(&self) -> StateReportView {
        StateReportView { modifier: self.modifier, keycodes: self.keycodes@ }
    }
}

impl Default for StateReport {
    /// An empty report: no modifiers, all keycode slots free.
    fn default() -> (r: Self)
        ensures
            r@.modifier == 0,
            r@.keycodes == Seq::new(KEY_SLOTS as nat, |i: int| 0u8),
    {
        let r = StateReport { modifier: 0, keycodes: [0u8; 6] };
        proof {
            broadcast use vstd::array::group_array_axioms;

            assert(r@.keycodes =~= Seq::new(KEY_SLOTS as nat, |i: int| 0u8));
        }
        r
    }
}

impl StateReport {
    /// Empties the report: no modifiers, all keycode slots free.
    pub fn clear(&mut self)
        ensures
            final(self)@.modifier == 0,
            final(self)@.keycodes == Seq::new(KEY_SLOTS as nat, |i: int| 0u8),
    {
        self.modifier = 0;
        self.keycodes = [0u8; 6];
        proof {
            broadcast use vstd::array::group_array_axioms;

            assert(self@.keycodes =~= Seq::new(KEY_SLOTS as nat, |i: int| 0u8));
        }
    }

    /// Records a press of `key`, exactly as [`spec_press`] prescribes.
    pub fn press(&mut self, key: u8) -> (r: Result<(), Error>)
        ensures
            ({
                let (post, res) = spec_press(old(self)@, key);
                final(self)@ == post && r == res
            }),
    {
        if let Some(mask) = as_modifier_mask(key) {
            if self.modifier & mask != 0 {
                return Err(Error::AlreadyPressed);
            }
            self.modifier = self.modifier | mask;
            return Ok(());
        }
        let ghost kc = self.keycodes@;
        let mut i: usize = 0;
        while i < 6
            invariant
                0 <= i <= 6,
                spec_as_modifier_mask(key) is None,
                self@ == old(self)@,
                kc == self.keycodes@,
                kc.len() == 6,
                first_slot(kc, key) == first_slot_from(kc, key, i as int),
            decreases 6 - i,
        {
            if self.keycodes[i] == key {
                return Err(Error::AlreadyPressed);
            }
            i = i + 1;
        }
        // Note: this loop must not be merged with the one above, unless the
        // release logic is also adjusted appropriately.
        let mut i: usize = 0;
        while i < 6
            invariant
                0 <= i <= 6,
                spec_as_modifier_mask(key) is None,
                self@ == old(self)@,
                kc == self.keycodes@,
                kc.len() == 6,
                first_slot(kc, key) == 6,
                first_slot(kc, 0) == first_slot_from(kc, 0, i as int),
            decreases 6 - i,
        {
            if self.keycodes[i] == 0 {
                self.keycodes[i] = key;
                return Ok(());
            }
            i = i + 1;
        }
        Err(Error::TooManyKeysPressed)
    }

    /// Records a release of `key`, exactly as [`spec_release`] prescribes.
    pub fn release(&mut self, key: u8) -> (r: Result<(), Error>)
        ensures
            ({
                let (post, res) = spec_release(old(self)@, key);
                final(self)@ == post && r == res
            }),
    {
        if let Some(mask) = as_modifier_mask(key) {
            if self.modifier & mask == 0 {
                return Err(Error::AlreadyReleased);
            }
            self.modifier = self.modifier & !mask;
            return Ok(());
        }
        let ghost kc = self.keycodes@;
        let mut i: usize = 0;
        while i < 6
            invariant
                0 <= i <= 6,
                spec_as_modifier_mask(key) is None,
                self@ == old(self)@,
                kc == self.keycodes@,
                kc.len() == 6,
                first_slot(kc, key) == first_slot_from(kc, key, i as int),
            decreases 6 - i,
        {
            if self.keycodes[i] == key {
                self.keycodes[i] = 0;
                return Ok(());
            }
            i = i + 1;
        }
        Err(Error::AlreadyReleased)
    }

    /// The report's modifier byte.
    pub fn modifier(&self) -> (r: u8)
        ensures
            r == self@.modifier,
    {
        self.modifier
    }

    /// The keycode held in slot `i`, 0 when the slot is free.
    pub fn keycode(&self, i: usize) -> (r: u8)
        requires
            i < KEY_SLOTS,
        ensures
            r == self@.keycodes[i as int],
    {
        self.keycodes[i]
    }
}

/// Splits a [`KeyWithFlags`] into its modifier byte and its keycode byte,
/// in that order, as a keyboard report wants them.
pub fn split_key_with_flags(k: KeyWithFlags) -> (r: (u8, u8))
    ensures
        r.0 == k >> 8,
        r.1 == k & 0xff,
{
    proof {
        assert((((k >> 8) as u8) as u16) == k >> 8 && (((k & 0xff) as u8) as u16) == k & 0xff)
            by (bit_vector);
    }
    (
        #[verifier::truncate]
        ((k >> 8) as u8),
        #[verifier::truncate]
        ((k & 0xff) as u8),
    )
}

} // verus!
