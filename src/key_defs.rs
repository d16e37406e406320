//! Symbolic key values and physical key addresses.
//!
//! A [`Key`] is a 16-bit value: a keycode in the low byte and a flag byte in
//! the high byte. The flag byte partitions the value space into plain
//! keyboard keys, consumer-control keys, system-control keys and layer keys.
//! These numeric ranges are stable: stored keymaps are keyed to them.
use vstd::prelude::*;

verus! {

/// Flag: a control key is held with the keycode.
pub const CTRL_HELD: u8 = 0x01;
/// Flag: the left alt key is held with the keycode.
pub const LALT_HELD: u8 = 0x02;
/// Flag: the right alt key is held with the keycode.
pub const RALT_HELD: u8 = 0x04;
/// Flag: a shift key is held with the keycode.
pub const SHIFT_HELD: u8 = 0x08;
/// Flag: a GUI key is held with the keycode.
pub const GUI_HELD: u8 = 0x10;
/// Flag: the value is not a plain keyboard keycode.
pub const SYNTHETIC: u8 = 0x40;
/// Flag: the value is reserved for sentinels and plugin ranges.
pub const RESERVED: u8 = 0x80;
/// Synthetic flag: a system-control key.
pub const IS_SYSCTL: u8 = 0x01;
/// Synthetic flag: an internal key (with `SWITCH_TO_KEYMAP`: a mod-layer key).
pub const IS_INTERNAL: u8 = 0x02;
/// Synthetic flag: a layer key.
pub const SWITCH_TO_KEYMAP: u8 = 0x04;
/// Synthetic flag: a consumer-control key.
pub const IS_CONSUMER: u8 = 0x08;

/// Flag byte of a layer key.
pub const LAYER_KEY_FLAGS: u8 = 0x44;
/// Flag byte of a mod-layer key.
pub const MOD_LAYER_KEY_FLAGS: u8 = 0x46;

/// Distance between the lock, shift and move ranges of layer keycodes.
pub const LAYER_OP_OFFSET: u8 = 42;
/// First keycode of the layer-shift range.
pub const LAYER_SHIFT_OFFSET: u8 = 42;
/// First keycode of the layer-move range.
pub const LAYER_MOVE_OFFSET: u8 = 84;
/// Layer-shift target meaning "the layer below the top one".
pub const KEYMAP_PREVIOUS: u8 = 33;
/// Layer-shift target meaning "the layer above the top one".
pub const KEYMAP_NEXT: u8 = 34;

/// First HID keyboard modifier keycode (left control).
pub const HID_KEYBOARD_FIRST_MODIFIER: u8 = 0xe0;
/// Last HID keyboard modifier keycode (right GUI).
pub const HID_KEYBOARD_LAST_MODIFIER: u8 = 0xe7;

/// Number of matrix rows.
pub const ROWS: u8 = 4;
/// Number of matrix columns.
pub const COLS: u8 = 12;
/// Number of key addresses: `ROWS * COLS`.
pub const UPPER_LIMIT: u8 = 48;
/// Offset of the "no address" sentinel.
pub const INVALID_ADDR: u8 = 255;

/// A symbolic key value.
#[derive(Clone, Copy, Debug, PartialEq, Eq, Structural)]
pub struct Key {
    pub key_code: u8,
    pub flags: u8,
}

/// No key: sends nothing. Also the value of a masked live key.
pub const KEY_NO_KEY: u16 = 0x0000;
/// Falls through to the next lower active layer.
pub const KEY_TRANSPARENT: u16 = 0xffff;
/// A live key that is masked until its release.
pub const KEY_MASKED: u16 = KEY_NO_KEY;
/// A live key that is not active.
pub const KEY_INACTIVE: u16 = KEY_TRANSPARENT;
/// The key of an event that has not been looked up yet.
pub const KEY_UNDEFINED: u16 = 0xfffe;

/// HID keycodes used by the library itself.
pub const KEYCODE_LEFT_CONTROL: u8 = 0xe0;
pub const KEYCODE_LEFT_SHIFT: u8 = 0xe1;
pub const KEYCODE_LEFT_ALT: u8 = 0xe2;
pub const KEYCODE_LEFT_GUI: u8 = 0xe3;
pub const KEYCODE_RIGHT_ALT: u8 = 0xe6;

/// The key with raw value `raw`.
pub open spec fn key_from_raw(raw: u16) -> Key {
    Key { key_code: (raw % 256) as u8, flags: (raw / 256) as u8 }
}

pub open spec fn no_key() -> Key {
    key_from_raw(KEY_NO_KEY)
}

pub open spec fn transparent() -> Key {
    key_from_raw(KEY_TRANSPARENT)
}

pub open spec fn masked() -> Key {
    key_from_raw(KEY_MASKED)
}

pub open spec fn inactive() -> Key {
    key_from_raw(KEY_INACTIVE)
}

pub open spec fn undefined() -> Key {
    key_from_raw(KEY_UNDEFINED)
}

impl Key {
    /// The raw 16-bit value.
    pub open spec fn raw_spec(self) -> u16 {
        (self.flags as int * 256 + self.key_code as int) as u16
    }

    pub open spec fn key_code_spec(self) -> u8 {
        self.key_code
    }

    pub open spec fn flags_spec(self) -> u8 {
        self.flags
    }

    /// A plain keyboard keycode: neither `SYNTHETIC` nor `RESERVED` is set.
    pub open spec fn is_keyboard_key_spec(self) -> bool {
        self.flags < 0x40
    }

    pub open spec fn is_keyboard_modifier_spec(self) -> bool {
        self.is_keyboard_key_spec() && HID_KEYBOARD_FIRST_MODIFIER <= self.key_code
            <= HID_KEYBOARD_LAST_MODIFIER
    }

    pub open spec fn is_layer_key_spec(self) -> bool {
        self.flags == LAYER_KEY_FLAGS
    }

    pub open spec fn is_mod_layer_key_spec(self) -> bool {
        self.flags == MOD_LAYER_KEY_FLAGS
    }

    /// `RESERVED`, `SYNTHETIC`, `IS_CONSUMER`, `IS_SYSCTL` read 0, 1, 0, 1.
    pub open spec fn is_system_control_key_spec(self) -> bool {
        self.flags & 0xc9 == 0x41
    }

    /// `RESERVED`, `SYNTHETIC`, `IS_CONSUMER` read 0, 1, 1.
    pub open spec fn is_consumer_control_key_spec(self) -> bool {
        self.flags & 0xc8 == 0x48
    }

    /// The ten-bit consumer-control usage: the keycode and the two low flag bits.
    pub open spec fn consumer_spec(self) -> u16 {
        ((self.flags % 4) as int * 256 + self.key_code as int) as u16
    }

    pub fn no_key() -> (r: Key)
        ensures
            r == no_key(),
    {
        Key { key_code: 0, flags: 0 }
    }

    pub fn transparent() -> (r: Key)
        ensures
            r == transparent(),
    {
        Key { key_code: 0xff, flags: 0xff }
    }

    pub fn masked() -> (r: Key)
        ensures
            r == masked(),
    {
        Key { key_code: 0, flags: 0 }
    }

    pub fn inactive() -> (r: Key)
        ensures
            r == inactive(),
    {
        Key { key_code: 0xff, flags: 0xff }
    }

    pub fn undefined() -> (r: Key)
        ensures
            r == undefined(),
    {
        Key { key_code: 0xfe, flags: 0xff }
    }

    /// Builds a key from its keycode and flag byte.
    pub fn new(key_code: u8, flags: u8) -> (r: Key)
        ensures
            r.key_code_spec() == key_code,
            r.flags_spec() == flags,
    {
        Key { key_code, flags }
    }

    /// Builds a key from its raw 16-bit value.
    pub fn from_raw(raw: u16) -> (r: Key)
        ensures
            r.raw_spec() == raw,
            r.key_code_spec() == raw % 256,
            r.flags_spec() == raw / 256,
    {
        Key { key_code: (raw % 256) as u8, flags: (raw / 256) as u8 }
    }

    /// The raw 16-bit value.
    pub fn raw(&self) -> (r: u16)
        ensures
            r == self.raw_spec(),
            r as int == self.flags_spec() as int * 256 + self.key_code_spec() as int,
    {
        self.flags as u16 * 256 + self.key_code as u16
    }

    pub fn key_code(&self) -> (r: u8)
        ensures
            r == self.key_code_spec(),
    {
        self.key_code
    }

    pub fn flags(&self) -> (r: u8)
        ensures
            r == self.flags_spec(),
    {
        self.flags
    }

    /// Replaces the flag byte.
    pub fn set_flags(&mut self, flags: u8)
        ensures
            final(self).flags_spec() == flags,
            final(self).key_code_spec() == old(self).key_code_spec(),
    {
        self.flags = flags;
    }

    pub fn is_keyboard_key(&self) -> (r: bool)
        ensures
            r == self.is_keyboard_key_spec(),
    {
        self.flags < 0x40
    }

    pub fn is_keyboard_modifier(&self) -> (r: bool)
        ensures
            r == self.is_keyboard_modifier_spec(),
    {
        self.flags < 0x40 && HID_KEYBOARD_FIRST_MODIFIER <= self.key_code && self.key_code
            <= HID_KEYBOARD_LAST_MODIFIER
    }

    pub fn is_layer_key(&self) -> (r: bool)
        ensures
            r == self.is_layer_key_spec(),
    {
        self.flags == LAYER_KEY_FLAGS
    }

    pub fn is_mod_layer_key(&self) -> (r: bool)
        ensures
            r == self.is_mod_layer_key_spec(),
    {
        self.flags == MOD_LAYER_KEY_FLAGS
    }

    pub fn is_system_control_key(&self) -> (r: bool)
        ensures
            r == self.is_system_control_key_spec(),
    {
        self.flags & 0xc9 == 0x41
    }

    pub fn is_consumer_control_key(&self) -> (r: bool)
        ensures
            r == self.is_consumer_control_key_spec(),
    {
        self.flags & 0xc8 == 0x48
    }

    /// The consumer-control usage of a consumer-control key.
    pub fn consumer(&self) -> (r: u16)
        ensures
            r == self.consumer_spec(),
    {
        (self.flags % 4) as u16 * 256 + self.key_code as u16
    }
}

impl Default for Key {
    /// The key of a fresh event: the undefined key.
    fn default() -> (r: Key)
        ensures
            r == undefined(),
    {
        Key { key_code: 0xfe, flags: 0xff }
    }
}

/// The layer-lock key for `layer`.
pub open spec fn lock_layer_spec(layer: u8) -> Key {
    Key { key_code: layer, flags: LAYER_KEY_FLAGS }
}

/// The layer-shift key for `layer` (the keycode wraps to eight bits).
pub open spec fn shift_to_layer_spec(layer: u8) -> Key {
    Key { key_code: ((layer + LAYER_SHIFT_OFFSET) % 256) as u8, flags: LAYER_KEY_FLAGS }
}

/// The layer-move key for `layer`.
pub open spec fn move_to_layer_spec(layer: u8) -> Key {
    Key { key_code: (layer + LAYER_MOVE_OFFSET) as u8, flags: LAYER_KEY_FLAGS }
}

/// Layer-lock key: toggles `layer` as a locked layer.
pub fn lock_layer(layer: u8) -> (r: Key)
    requires
        layer < LAYER_SHIFT_OFFSET,
    ensures
        r == lock_layer_spec(layer),
{
    Key { key_code: layer, flags: LAYER_KEY_FLAGS }
}

/// Layer-shift key: holds `layer` active while the key is held.
pub fn shift_to_layer(layer: u8) -> (r: Key)
    ensures
        r == shift_to_layer_spec(layer),
{
    Key { key_code: layer.wrapping_add(LAYER_SHIFT_OFFSET), flags: LAYER_KEY_FLAGS }
}

/// Layer-move key: replaces the whole layer stack with `layer`.
pub fn move_to_layer(layer: u8) -> (r: Key)
    requires
        layer < LAYER_OP_OFFSET,
    ensures
        r == move_to_layer_spec(layer),
{
    Key { key_code: layer + LAYER_MOVE_OFFSET, flags: LAYER_KEY_FLAGS }
}

/// The address of one physical key: `row * COLS + col`, or the sentinel
/// [`INVALID_ADDR`].
#[derive(Clone, Copy, Debug, PartialEq, Eq, Structural)]
pub struct KeyAddr {
    pub offset: u8,
}

impl KeyAddr {
    pub open spec fn offset_spec(self) -> u8 {
        self.offset
    }

    pub open spec fn is_valid_spec(self) -> bool {
        self.offset < UPPER_LIMIT
    }

    pub open spec fn index_spec(self) -> int {
        self.offset as int
    }

    /// The address with the given flat offset.
    pub fn new(offset: u8) -> (r: KeyAddr)
        ensures
            r.offset_spec() == offset,
    {
        KeyAddr { offset }
    }

    /// The "no address" sentinel, used by synthetic events.
    pub fn none() -> (r: KeyAddr)
        ensures
            r.offset_spec() == INVALID_ADDR,
            !r.is_valid_spec(),
    {
        KeyAddr { offset: INVALID_ADDR }
    }

    /// The address of the key at `row` and `col`.
    pub fn create(row: u8, col: u8) -> (r: KeyAddr)
        requires
            row < ROWS,
            col < COLS,
        ensures
            r.offset_spec() == row * COLS + col,
            r.is_valid_spec(),
    {
        KeyAddr { offset: row * COLS + col }
    }

    pub fn is_valid(&self) -> (r: bool)
        ensures
            r == self.is_valid_spec(),
    {
        self.offset < UPPER_LIMIT
    }

    /// The flat offset, as an index.
    pub fn index(&self) -> (r: usize)
        ensures
            r == self.index_spec(),
    {
        self.offset as usize
    }

    pub fn row(&self) -> (r: u8)
        ensures
            r == self.offset_spec() / COLS,
    {
        self.offset / COLS
    }

    pub fn col(&self) -> (r: u8)
        ensures
            r == self.offset_spec() % COLS,
    {
        self.offset % COLS
    }
}

impl Default for KeyAddr {
    /// The "no address" sentinel.
    fn default() -> (r: KeyAddr)
        ensures
            r.offset_spec() == INVALID_ADDR,
    {
        KeyAddr { offset: INVALID_ADDR }
    }
}

} // verus!
