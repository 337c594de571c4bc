use vstd::prelude::*;
use crate::operand::{Dst, Src};

verus! {

/// 32-bit integer multiply-add.
pub struct OpIMad {
    pub dst: Dst,
    pub srcs: [Src; 3],
    pub signed: bool,
}

/// 32-bit integer multiply, low or high word of the product.
pub struct OpIMul {
    pub dst: Dst,
    pub srcs: [Src; 2],
    pub signed: [bool; 2],
    pub high: bool,
}

/// Integer multiply-add with a 64-bit result.
pub struct OpIMad64 {
    pub dst: Dst,
    pub srcs: [Src; 3],
    pub signed: bool,
}

/// Copies a value; `quad_lanes` picks the lanes of each quad that write.
pub struct OpMov {
    pub dst: Dst,
    pub src: Src,
    pub quad_lanes: u8,
}

/// Selects the first source when the condition holds, else the second.
pub struct OpSel {
    pub dst: Dst,
    pub cond: Src,
    pub srcs: [Src; 2],
}

/// Builds a bit mask of `width` bits from `pos`.
pub struct OpBMsk {
    pub dst: Dst,
    pub pos: Src,
    pub width: Src,
    pub wrap: bool,
}

/// Reverses the bits of a value.
pub struct OpBRev {
    pub dst: Dst,
    pub src: Src,
}

/// Extracts a bit field: byte 2 of `range` is its width and byte 3 its
/// offset.
pub struct OpBfe {
    pub dst: Dst,
    pub base: Src,
    pub range: Src,
    pub signed: bool,
    pub reverse: bool,
}

} // verus!
