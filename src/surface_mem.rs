use vstd::prelude::*;
use crate::operand::{Dst, Src};
use crate::tex::ChannelMask;
use crate::types::{AtomOp, AtomType, ImageDim, LdCacheOp, MemEvictionPriority, MemOrder, MemType, StCacheOp};

verus! {

/// How an image is accessed: raw bits of a memory type, or formatted
/// channels.
#[derive(Clone, Copy, PartialEq, Eq, Structural, Debug)]
pub enum ImageAccess {
    Binary(MemType),
    Formatted(ChannelMask),
}

/// How a global surface access extends its offset.
#[derive(Clone, Copy, PartialEq, Eq, Structural, Debug)]
pub enum SuGaOffsetMode {
    U32,
    S32,
    U8,
    S8,
}

/// Surface load.
pub struct OpSuLd {
    pub dst: Dst,
    pub fault: Dst,
    pub image_access: ImageAccess,
    pub image_dim: ImageDim,
    pub mem_order: MemOrder,
    pub mem_eviction_priority: MemEvictionPriority,
    pub handle: Src,
    pub coord: Src,
}

/// Surface store.
pub struct OpSuSt {
    pub image_access: ImageAccess,
    pub image_dim: ImageDim,
    pub mem_order: MemOrder,
    pub mem_eviction_priority: MemEvictionPriority,
    pub handle: Src,
    pub coord: Src,
    pub data: Src,
}

/// Surface atomic.
pub struct OpSuAtom {
    pub dst: Dst,
    pub fault: Dst,
    pub image_dim: ImageDim,
    pub atom_op: AtomOp,
    pub atom_type: AtomType,
    pub mem_order: MemOrder,
    pub mem_eviction_priority: MemEvictionPriority,
    pub handle: Src,
    pub coord: Src,
    pub data: Src,
}

/// Global-memory surface load (Kepler).
pub struct OpSuLdGa {
    pub dst: Dst,
    pub mem_type: MemType,
    pub offset_mode: SuGaOffsetMode,
    pub cache_op: LdCacheOp,
    pub format: Src,
    pub addr: Src,
    pub out_of_bounds: Src,
}

/// Global-memory surface store (Kepler).
pub struct OpSuStGa {
    pub image_access: ImageAccess,
    pub offset_mode: SuGaOffsetMode,
    pub cache_op: StCacheOp,
    pub format: Src,
    pub addr: Src,
    pub data: Src,
    pub out_of_bounds: Src,
}

} // verus!
