//! The state of one keyswitch across two scan cycles.
use vstd::prelude::*;

verus! {

/// Bits that a keyswitch state may carry: `injected`, `is_pressed`, `was_pressed`.
pub const KEYSWITCH_STATE_MASK: u8 = 0x83;

/// Bit 0: pressed in the previous cycle; bit 1: pressed now; bit 7: injected.
#[derive(Clone, Copy, Debug, PartialEq, Eq, Structural)]
pub struct KeyswitchState(pub u8);

impl KeyswitchState {
    pub open spec fn was_pressed_spec(self) -> bool {
        self.0 % 2 == 1
    }

    pub open spec fn is_pressed_spec(self) -> bool {
        (self.0 / 2) % 2 == 1
    }

    pub open spec fn injected_spec(self) -> bool {
        self.0 >= 128
    }

    pub open spec fn toggled_on_spec(self) -> bool {
        self.is_pressed_spec() && !self.was_pressed_spec()
    }

    pub open spec fn toggled_off_spec(self) -> bool {
        self.was_pressed_spec() && !self.is_pressed_spec()
    }

    /// The state with no bit set.
    pub fn default() -> (r: KeyswitchState)
        ensures
            r.0 == 0,
    {
        KeyswitchState(0)
    }

    /// The state with the given bits.
    pub fn new(was_pressed: bool, is_pressed: bool, injected: bool) -> (r: KeyswitchState)
        ensures
            r.was_pressed_spec() == was_pressed,
            r.is_pressed_spec() == is_pressed,
            r.injected_spec() == injected,
            r.0 & KEYSWITCH_STATE_MASK == r.0,
    {
        let b: u8 = (if was_pressed { 1u8 } else { 0u8 }) + (if is_pressed { 2u8 } else { 0u8 }) + (
        if injected {
            128u8
        } else {
            0u8
        });
        assert(b & 0x83 == b) by (bit_vector)
            requires
                b == 0 || b == 1 || b == 2 || b == 3 || b == 128 || b == 129 || b == 130 || b
                    == 131,
        ;
        KeyswitchState(b)
    }

    pub fn was_pressed(&self) -> (r: bool)
        ensures
            r == self.was_pressed_spec(),
    {
        let b = self.0;
        assert((b & 1 != 0) == (b % 2 == 1)) by (bit_vector);
        b & 1 != 0
    }

    pub fn is_pressed(&self) -> (r: bool)
        ensures
            r == self.is_pressed_spec(),
    {
        let b = self.0;
        assert((b & 2 != 0) == ((b / 2) % 2 == 1)) by (bit_vector);
        b & 2 != 0
    }

    pub fn injected(&self) -> (r: bool)
        ensures
            r == self.injected_spec(),
    {
        let b = self.0;
        assert((b & 0x80 != 0) == (b >= 128)) by (bit_vector);
        b & 0x80 != 0
    }

    /// True while the key is pressed in this scan cycle.
    pub fn key_is_pressed(&self) -> (r: bool)
        ensures
            r == self.is_pressed_spec(),
    {
        self.is_pressed()
    }

    /// True if the key was pressed in the previous scan cycle.
    pub fn key_was_pressed(&self) -> (r: bool)
        ensures
            r == self.was_pressed_spec(),
    {
        self.was_pressed()
    }

    /// True if the key is newly pressed in this scan cycle.
    pub fn key_toggled_on(&self) -> (r: bool)
        ensures
            r == self.toggled_on_spec(),
    {
        self.key_is_pressed() && !self.key_was_pressed()
    }

    /// True if the key is newly released in this scan cycle.
    pub fn key_toggled_off(&self) -> (r: bool)
        ensures
            r == self.toggled_off_spec(),
    {
        self.key_was_pressed() && !self.key_is_pressed()
    }

    /// True if the event was generated rather than read from a keyswitch.
    pub fn key_is_injected(&self) -> (r: bool)
        ensures
            r == self.injected_spec(),
    {
        self.injected()
    }
}

impl From<u8> for KeyswitchState {
    /// Keeps the bits of `KEYSWITCH_STATE_MASK` only.
    fn from(k: u8) -> (r: KeyswitchState)
        ensures
            r.0 == k & KEYSWITCH_STATE_MASK,
    {
        KeyswitchState(k & KEYSWITCH_STATE_MASK)
    }
}

impl vstd::std_specs::convert::FromSpecImpl<u8> for KeyswitchState {
    open spec fn obeys_from_spec() -> bool {
        true
    }

    open spec fn from_spec(k: u8) -> KeyswitchState {
        KeyswitchState(k & KEYSWITCH_STATE_MASK)
    }
}

} // verus!
