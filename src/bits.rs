use vstd::prelude::*;

verus! {

/// The low `len` bits set.
pub open spec fn low_mask(len: u32) -> u32 {
    (0xffff_ffffu32 >> ((32 - len) as u32)) as u32
}

/// Bits `start..start + len` of `x`, shifted down to bit 0.
pub open spec fn bit_range(x: u32, start: u32, len: u32) -> u32 {
    ((x >> start) & low_mask(len)) as u32
}

/// Whether bit `b` of `x` is set.
pub open spec fn bit_set(x: u32, b: u32) -> bool {
    (x >> b) & 1 == 1
}

/// Reads the bit field `start..start + len` of `x`.
pub fn get_bits(x: u32, start: u32, len: u32) -> (r: u32)
    requires
        start < 32,
        1 <= len <= 32,
    ensures
        r == bit_range(x, start, len),
{
    (x >> start) & (0xffff_ffffu32 >> (32 - len))
}

/// Reads bit `b` of `x`.
pub fn get_bit(x: u32, b: u32) -> (r: bool)
    requires
        b < 32,
    ensures
        r == bit_set(x, b),
{
    (x >> b) & 1 == 1
}

} // verus!
