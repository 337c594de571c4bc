use vstd::prelude::*;
use crate::logic::{FloatCmpOp, PredSetOp};
use crate::operand::{Dst, Src};

verus! {

/// A floating-point rounding mode.
#[derive(Clone, Copy, PartialEq, Eq, Structural, Debug)]
pub enum FRndMode {
    NearestEven,
    NegInf,
    PosInf,
    Zero,
}

/// 32-bit float add.
pub struct OpFAdd {
    pub dst: Dst,
    pub srcs: [Src; 2],
    pub saturate: bool,
    pub rnd_mode: FRndMode,
    pub ftz: bool,
}

/// 32-bit float fused multiply-add.
pub struct OpFFma {
    pub dst: Dst,
    pub srcs: [Src; 3],
    pub saturate: bool,
    pub rnd_mode: FRndMode,
    pub ftz: bool,
    pub dnz: bool,
}

/// 32-bit float minimum or maximum, selected by a predicate.
pub struct OpFMnMx {
    pub dst: Dst,
    pub srcs: [Src; 2],
    pub min: Src,
    pub ftz: bool,
}

/// 32-bit float multiply.
pub struct OpFMul {
    pub dst: Dst,
    pub srcs: [Src; 2],
    pub saturate: bool,
    pub rnd_mode: FRndMode,
    pub ftz: bool,
    pub dnz: bool,
}

/// 32-bit float compare into a 0 or 1.0 value.
pub struct OpFSet {
    pub dst: Dst,
    pub cmp_op: FloatCmpOp,
    pub srcs: [Src; 2],
    pub ftz: bool,
}

/// 32-bit float compare into a predicate, combined with an accumulator.
pub struct OpFSetP {
    pub dst: Dst,
    pub set_op: PredSetOp,
    pub cmp_op: FloatCmpOp,
    pub srcs: [Src; 2],
    pub accum: Src,
    pub ftz: bool,
}

/// 64-bit float add.
pub struct OpDAdd {
    pub dst: Dst,
    pub srcs: [Src; 2],
    pub rnd_mode: FRndMode,
}

/// 64-bit float multiply.
pub struct OpDMul {
    pub dst: Dst,
    pub srcs: [Src; 2],
    pub rnd_mode: FRndMode,
}

/// 64-bit float fused multiply-add.
pub struct OpDFma {
    pub dst: Dst,
    pub srcs: [Src; 3],
    pub rnd_mode: FRndMode,
}

/// 64-bit float minimum or maximum, selected by a predicate.
pub struct OpDMnMx {
    pub dst: Dst,
    pub srcs: [Src; 2],
    pub min: Src,
}

/// 64-bit float compare into a predicate, combined with an accumulator.
pub struct OpDSetP {
    pub dst: Dst,
    pub set_op: PredSetOp,
    pub cmp_op: FloatCmpOp,
    pub srcs: [Src; 2],
    pub accum: Src,
}

} // verus!
