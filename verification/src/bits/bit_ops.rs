//! Reading and writing single bits of a word.
use vstd::prelude::*;

verus! {

/// Whether bit `bit` of `x` is set.
pub open spec fn bit16(x: u16, bit: u16) -> bool {
    (x >> bit) & 1 == 1
}

/// `x` with bit `bit` set where `v` holds and cleared otherwise.
pub open spec fn with_bit16(x: u16, bit: u16, v: bool) -> u16 {
    if v {
        x | ((1u16 << bit) as u16)
    } else {
        x & !((1u16 << bit) as u16)
    }
}

/// Whether bit `bit` of `x` is set.
pub fn get_bit_u16(x: u16, bit: u16) -> (r: bool)
    requires
        bit < 16,
    ensures
        r == bit16(x, bit),
{
    (x >> bit) & 1 == 1
}

/// `x` with bit `bit` set where `v` holds and cleared otherwise.
pub fn set_bit_u16(x: u16, bit: u16, v: bool) -> (r: u16)
    requires
        bit < 16,
    ensures
        r == with_bit16(x, bit, v),
{
    if v {
        x | (1u16 << bit)
    } else {
        x & !(1u16 << bit)
    }
}

} // verus!
