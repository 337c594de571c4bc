use vstd::prelude::*;
use crate::float_ops::FRndMode;
use crate::logic::IntCmpType;
use crate::operand::{Dst, Src, SrcRef};
use crate::types::IntType;

verus! {

/// A step of a quad swizzle add.
#[derive(Clone, Copy, PartialEq, Eq, Structural, Debug)]
pub enum FSwzAddOp {
    Add,
    SubRight,
    SubLeft,
    MoveLeft,
}

/// Which lanes of a quad a swizzle reads.
#[derive(Clone, Copy, PartialEq, Eq, Structural, Debug)]
pub enum FSwzShuffle {
    Quad0,
    Quad1,
    Quad2,
    Quad3,
    SwapHorizontal,
    SwapVertical,
}

/// How derivatives are taken across a quad.
#[derive(Clone, Copy, PartialEq, Eq, Structural, Debug)]
pub enum TexDerivMode {
    Auto,
    NonDivergent,
    ForceDivergent,
    DerivXY,
}

/// The range reduction performed ahead of a transcendental.
#[derive(Clone, Copy, PartialEq, Eq, Structural, Debug)]
pub enum RroOp {
    SinCos,
    Exp2,
}

/// A transcendental function.
#[derive(Clone, Copy, PartialEq, Eq, Structural, Debug)]
pub enum MuFuOp {
    Cos,
    Sin,
    Exp2,
    Log2,
    Rcp,
    Rsq,
    Rcp64H,
    Rsq64H,
    Sqrt,
    Tanh,
}

/// How a shuffle picks its source lane.
#[derive(Clone, Copy, PartialEq, Eq, Structural, Debug)]
pub enum ShflOp {
    Idx,
    Up,
    Down,
    Bfly,
}

/// A reduction across the wave.
#[derive(Clone, Copy, PartialEq, Eq, Structural, Debug)]
pub enum ReduxOp {
    And,
    Or,
    Xor,
    Sum,
    Min(IntCmpType),
    Max(IntCmpType),
}

/// Quad swizzle add: each lane adds or subtracts its neighbour per `ops`.
pub struct OpFSwzAdd {
    pub dst: Dst,
    pub srcs: [Src; 2],
    pub rnd_mode: FRndMode,
    pub ftz: bool,
    pub deriv_mode: TexDerivMode,
    pub ops: [FSwzAddOp; 4],
}

/// Quad swizzle with a lane shuffle.
pub struct OpFSwz {
    pub dst: Dst,
    pub srcs: [Src; 2],
    pub rnd_mode: FRndMode,
    pub ftz: bool,
    pub deriv_mode: TexDerivMode,
    pub shuffle: FSwzShuffle,
    pub ops: [FSwzAddOp; 4],
}

/// Range reduction ahead of a transcendental.
pub struct OpRro {
    pub dst: Dst,
    pub op: RroOp,
    pub src: Src,
}

/// A transcendental function.
pub struct OpMuFu {
    pub dst: Dst,
    pub op: MuFuOp,
    pub src: Src,
}

/// Four-way byte dot product with accumulate.
pub struct OpIDp4 {
    pub dst: Dst,
    pub src_types: [IntType; 2],
    pub srcs: [Src; 3],
}

/// Reads a value from another lane of the wave.
pub struct OpShfl {
    pub dst: Dst,
    pub in_bounds: Dst,
    pub src: Src,
    pub lane: Src,
    pub c: Src,
    pub op: ShflOp,
}

/// Copies a per-lane register to a uniform one.
pub struct OpR2UR {
    pub dst: Dst,
    pub src: Src,
}

/// Reduction across the wave.
pub struct OpRedux {
    pub dst: Dst,
    pub src: Src,
    pub op: ReduxOp,
}

impl OpShfl {
    /// Masks the lane and clamp immediates to the bits the hardware reads.
    pub fn reduce_lane_c_imm(&mut self)
        requires
            old(self).lane.src_mod is Plain,
            old(self).c.src_mod is Plain,
        ensures
            old(self).lane.src_ref matches SrcRef::Imm32(l) ==> final(self).lane.src_ref == SrcRef::Imm32(l & 0x1f),
            !(old(self).lane.src_ref is Imm32) ==> final(self).lane.src_ref == old(self).lane.src_ref,
            old(self).c.src_ref matches SrcRef::Imm32(c) ==> final(self).c.src_ref == SrcRef::Imm32(c & 0x1f1f),
            !(old(self).c.src_ref is Imm32) ==> final(self).c.src_ref == old(self).c.src_ref,
            final(self).lane.src_mod == old(self).lane.src_mod,
            final(self).c.src_mod == old(self).c.src_mod,
            final(self).op == old(self).op,
    {
        let lane = match &self.lane.src_ref {
            SrcRef::Imm32(l) => Some(*l),
            _ => None,
        };
        if let Some(l) = lane {
            self.lane.src_ref = SrcRef::Imm32(l & 0x1f);
        }
        let c = match &self.c.src_ref {
            SrcRef::Imm32(c) => Some(*c),
            _ => None,
        };
        if let Some(c) = c {
            self.c.src_ref = SrcRef::Imm32(c & 0x1f1f);
        }
    }
}

} // verus!
