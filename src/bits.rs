//! Single-bit helpers on bytes.
use vstd::prelude::*;

verus! {

/// Bit `bit` of `value`, as 0 or 1.
pub open spec fn bit_of(value: u8, bit: u8) -> u8
    recommends
        bit < 8,
{
    (value >> bit) & 1
}

/// Reads bit `bit` of `value`.
pub fn bit_read(value: u8, bit: u8) -> (r: u8)
    requires
        bit < 8,
    ensures
        r == bit_of(value, bit),
        r <= 1,
{
    let r = (value >> bit) & 0x01;
    assert(r <= 1) by (bit_vector)
        requires
            r == (value >> bit) & 0x01,
    ;
    r
}

/// Sets bit `bit` of `value`; the other bits are kept.
pub fn bit_set(value: u8, bit: u8) -> (r: u8)
    requires
        bit < 8,
    ensures
        bit_of(r, bit) == 1,
        forall|j: u8| j < 8 && j != bit ==> #[trigger] bit_of(r, j) == bit_of(value, j),
{
    let r = value | (1u8 << bit);
    assert(bit_of(r, bit) == 1) by (bit_vector)
        requires
            r == value | (1u8 << bit),
            bit < 8,
    ;
    assert forall|j: u8| j < 8 && j != bit implies #[trigger] bit_of(r, j) == bit_of(value, j) by {
        assert(((value | (1u8 << bit)) >> j) & 1 == (value >> j) & 1) by (bit_vector)
            requires
                j < 8,
                j != bit,
                bit < 8,
        ;
    }
    r
}

/// Clears bit `bit` of `value`; the other bits are kept.
pub fn bit_clear(value: u8, bit: u8) -> (r: u8)
    requires
        bit < 8,
    ensures
        bit_of(r, bit) == 0,
        forall|j: u8| j < 8 && j != bit ==> #[trigger] bit_of(r, j) == bit_of(value, j),
{
    let r = value & !(1u8 << bit);
    assert(bit_of(r, bit) == 0) by (bit_vector)
        requires
            r == value & !(1u8 << bit),
            bit < 8,
    ;
    assert forall|j: u8| j < 8 && j != bit implies #[trigger] bit_of(r, j) == bit_of(value, j) by {
        assert(((value & !(1u8 << bit)) >> j) & 1 == (value >> j) & 1) by (bit_vector)
            requires
                j < 8,
                j != bit,
                bit < 8,
        ;
    }
    r
}

/// Writes bit `bit` of `value`: set when `bit_value` is non-zero, cleared otherwise.
pub fn bit_write(value: u8, bit: u8, bit_value: u8) -> (r: u8)
    requires
        bit < 8,
    ensures
        bit_of(r, bit) == (if bit_value != 0 { 1u8 } else { 0u8 }),
        forall|j: u8| j < 8 && j != bit ==> #[trigger] bit_of(r, j) == bit_of(value, j),
{
    if bit_value != 0 {
        bit_set(value, bit)
    } else {
        bit_clear(value, bit)
    }
}

} // verus!
