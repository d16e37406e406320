//! The keymap of the Atreus: three layers over its 48 key addresses.
use vstd::prelude::*;
use crate::key_defs::{Key, key_from_raw};
use crate::layers::Keymap;

verus! {

/// The base layer.
pub const QWERTY: u8 = 0;
/// The function layer, held with its shift key.
pub const FUN: u8 = 1;
/// The upper layer, toggled from the function layer.
pub const UPPER: u8 = 2;
/// Number of layers of the keymap.
pub const NUM_LAYERS: usize = 3;

/// One layer from the raw values of its keys.
pub fn layer_from_raw(raw: [u16; 48]) -> (r: Vec<Key>)
    ensures
        r@.len() == 48,
        forall|i: int| 0 <= i < 48 ==> #[trigger] r@[i] == key_from_raw(raw@[i]),
{
    let mut r: Vec<Key> = Vec::new();
    let mut i: usize = 0;
    while i < 48
        invariant
            i <= 48,
            r@.len() == i,
            forall|j: int| 0 <= j < i ==> #[trigger] r@[j] == key_from_raw(raw@[j]),
        decreases 48 - i,
    {
        r.push(Key::from_raw(raw[i]));
        i = i + 1;
    }
    r
}

/// The Atreus keymap: QWERTY, FUN and UPPER.
pub fn atreus_keymap() -> (r: Keymap)
    ensures
        r.table().len() == NUM_LAYERS,
        forall|l: int| 0 <= l < NUM_LAYERS ==> #[trigger] r.table()[l].len() == 48,
{
    // Raw values: the keycode in the low byte, the flags in the high byte
    // (0x08 shift held, 0x44 layer key, 0x48 consumer control, 0x60 macro);
    // 0x0000 is no key and 0xffff transparent.
    let qwerty: [u16; 48] = [
        0x14, 0x1a, 0x08, 0x15, 0x17,
        0x04, 0x16, 0x07, 0x09, 0x0a,
        0x1d, 0x1b, 0x06, 0x19, 0x05, 0x35,
        0x29, 0x2b, 0xe3, 0xe1, 0x2a, 0xe0,
        0x1c, 0x18, 0x0c, 0x12, 0x13,
        0x0b, 0x0d, 0x0e, 0x0f, 0x33,
        0x31, 0x11, 0x10, 0x36, 0x37, 0x38,
        0xe2, 0x2c, 0x442b, 0x2d, 0x34, 0x28,
        0x0000, 0x0000, 0x0000, 0x0000,
    ];
    let fun: [u16; 48] = [
        0x081e, 0x081f, 0x52, 0x0821, 0x0822,
        0x0826, 0x50, 0x51, 0x4f, 0x0827,
        0x2f, 0x30, 0x0820, 0x082f, 0x0830, 0x0823,
        0x4402, 0x49, 0xe3, 0xe1, 0x4c, 0xe0,
        0x4b, 0x24, 0x25, 0x26, 0x2a,
        0x4e, 0x21, 0x22, 0x23, 0xffff,
        0x0824, 0x0825, 0x1e, 0x1f, 0x20, 0x082e,
        0xe2, 0x2c, 0xffff, 0x37, 0x27, 0x2e,
        0x0000, 0x0000, 0x0000, 0x0000,
    ];
    let upper: [u16; 48] = [
        0x49, 0x4a, 0x52, 0x4d, 0x4b,
        0x4c, 0x50, 0x51, 0x4f, 0x4e,
        0x6001, 0x48e9, 0x0000, 0x0000, 0xffff, 0xffff,
        0x4454, 0x48ea, 0xffff, 0xffff, 0xffff, 0xffff,
        0x52, 0x40, 0x41, 0x42, 0x43,
        0x51, 0x3d, 0x3e, 0x3f, 0x44,
        0xffff, 0x0000, 0x3a, 0x3b, 0x3c, 0x45,
        0xffff, 0xffff, 0x4454, 0x46, 0x47, 0x48cd,
        0x0000, 0x0000, 0x0000, 0x0000,
    ];
    let mut layers: Vec<Vec<Key>> = Vec::new();
    layers.push(layer_from_raw(qwerty));
    layers.push(layer_from_raw(fun));
    layers.push(layer_from_raw(upper));
    Keymap::new(layers)
}

} // verus!
