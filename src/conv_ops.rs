use vstd::prelude::*;
use crate::float_ops::FRndMode;
use crate::operand::{Dst, Src};
use crate::types::{FloatType, IntType};

verus! {

/// Float to float conversion.
pub struct OpF2F {
    pub dst: Dst,
    pub src: Src,
    pub src_type: FloatType,
    pub dst_type: FloatType,
    pub rnd_mode: FRndMode,
    pub ftz: bool,
    pub high: bool,
    pub integer_rnd: bool,
}

/// Packs two floats into one register of two halves.
pub struct OpF2FP {
    pub dst: Dst,
    pub srcs: [Src; 2],
    pub rnd_mode: FRndMode,
}

/// Float to integer conversion.
pub struct OpF2I {
    pub dst: Dst,
    pub src: Src,
    pub src_type: FloatType,
    pub dst_type: IntType,
    pub rnd_mode: FRndMode,
    pub ftz: bool,
}

/// Integer to float conversion.
pub struct OpI2F {
    pub dst: Dst,
    pub src: Src,
    pub dst_type: FloatType,
    pub src_type: IntType,
    pub rnd_mode: FRndMode,
}

/// Integer to integer conversion.
pub struct OpI2I {
    pub dst: Dst,
    pub src: Src,
    pub src_type: IntType,
    pub dst_type: IntType,
    pub saturate: bool,
    pub abs: bool,
    pub neg: bool,
}

/// Rounds a float to an integral value.
pub struct OpFRnd {
    pub dst: Dst,
    pub src: Src,
    pub dst_type: FloatType,
    pub src_type: FloatType,
    pub rnd_mode: FRndMode,
    pub ftz: bool,
}

} // verus!
