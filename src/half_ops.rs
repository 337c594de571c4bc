use vstd::prelude::*;
use crate::logic::{FloatCmpOp, PredSetOp};
use crate::operand::{Dst, Src};
use crate::types::{FloatType, IntType};

verus! {

/// The shape of an integer matrix multiply.
#[derive(Clone, Copy, PartialEq, Eq, Structural, Debug)]
pub enum ImmaSize {
    M8N8K16,
    M8N8K32,
    M16N8K16,
    M16N8K32,
    M16N8K64,
}

/// The shape of a half-precision matrix multiply.
#[derive(Clone, Copy, PartialEq, Eq, Structural, Debug)]
pub enum HmmaSize {
    M16N8K16,
    M16N8K8,
    M16N8K4,
}

/// Packed half-precision add.
pub struct OpHAdd2 {
    pub dst: Dst,
    pub srcs: [Src; 2],
    pub saturate: bool,
    pub ftz: bool,
    /// Whether the sum is computed in single precision.
    pub out_f32: bool,
}

/// Packed half-precision compare into values.
pub struct OpHSet2 {
    pub dst: Dst,
    pub set_op: PredSetOp,
    pub cmp_op: FloatCmpOp,
    pub srcs: [Src; 2],
    pub accum: Src,
    pub ftz: bool,
}

/// Packed half-precision compare into predicates.
pub struct OpHSetP2 {
    pub dsts: [Dst; 2],
    pub set_op: PredSetOp,
    pub cmp_op: FloatCmpOp,
    pub srcs: [Src; 2],
    pub accum: Src,
    pub ftz: bool,
    pub horizontal: bool,
}

/// Packed half-precision multiply.
pub struct OpHMul2 {
    pub dst: Dst,
    pub srcs: [Src; 2],
    pub saturate: bool,
    pub ftz: bool,
    pub dnz: bool,
}

/// Packed half-precision fused multiply-add.
pub struct OpHFma2 {
    pub dst: Dst,
    pub srcs: [Src; 3],
    pub saturate: bool,
    pub ftz: bool,
    pub dnz: bool,
    /// Whether the sum is computed in single precision.
    pub out_f32: bool,
}

/// Packed half-precision minimum or maximum.
pub struct OpHMnMx2 {
    pub dst: Dst,
    pub srcs: [Src; 2],
    pub min: Src,
    pub ftz: bool,
}

/// Integer matrix multiply-accumulate.
pub struct OpImma {
    pub dst: Dst,
    pub mat_size: ImmaSize,
    pub src_types: [IntType; 2],
    pub saturate: bool,
    pub srcs: [Src; 3],
}

/// Half-precision matrix multiply-accumulate.
pub struct OpHmma {
    pub dst: Dst,
    pub mat_size: HmmaSize,
    pub src_type: FloatType,
    pub dst_type: FloatType,
    pub srcs: [Src; 3],
}

} // verus!
