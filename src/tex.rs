use vstd::prelude::*;
use crate::misc_ops::TexDerivMode;
use crate::operand::{Dst, Src};
use crate::types::MemEvictionPriority;

verus! {

/// A texture binding.
#[derive(Clone, Copy, PartialEq, Eq, Structural, Debug)]
pub struct TexCBufRef {
    pub idx: u8,
    pub offset: u16,
}

/// Where a texture descriptor comes from.
#[derive(Clone, Copy, PartialEq, Eq, Structural, Debug)]
pub enum TexRef {
    Bound(u16),
    CBuf(TexCBufRef),
    Bindless,
}

/// A texture dimensionality.
#[derive(Clone, Copy, PartialEq, Eq, Structural, Debug)]
pub enum TexDim {
    _1D,
    Array1D,
    _2D,
    Array2D,
    _3D,
    Cube,
    ArrayCube,
}

/// How a texture level of detail is chosen.
#[derive(Clone, Copy, PartialEq, Eq, Structural, Debug)]
pub enum TexLodMode {
    Auto,
    Zero,
    Bias,
    Lod,
    Clamp,
    BiasClamp,
}

impl TexLodMode {
    /// Whether the level of detail is given rather than computed.
    pub fn is_explicit_lod(&self) -> (r: bool)
        ensures
            r == (*self is Zero || *self is Lod),
    {
        match self {
            TexLodMode::Zero | TexLodMode::Lod => true,
            _ => false,
        }
    }
}

/// Which of the four channels a texture instruction writes.
#[derive(Clone, Copy, PartialEq, Eq, Structural, Debug)]
pub struct ChannelMask(u8);

impl ChannelMask {
    pub closed spec fn spec_bits(&self) -> u8 {
        self.0
    }

    /// The mask with the channels of `mask`: at least one, of the four.
    pub fn new(mask: u8) -> (r: Self)
        requires
            mask != 0,
            mask & !0xfu8 == 0,
        ensures
            r.spec_bits() == mask,
    {
        ChannelMask(mask)
    }

    /// The mask of the first `comps` channels.
    pub fn for_comps(comps: u8) -> (r: Self)
        requires
            1 <= comps <= 4,
        ensures
            r.spec_bits() == if comps == 1 { 1u8 } else if comps == 2 { 3u8 } else if comps == 3 { 7u8 } else { 15u8 },
    {
        let m: u8 = if comps == 1 {
            1
        } else if comps == 2 {
            3
        } else if comps == 3 {
            7
        } else {
            15
        };
        ChannelMask(m)
    }

    pub fn to_bits(self) -> (r: u8)
        ensures
            r == self.spec_bits(),
    {
        self.0
    }
}

/// How texel offsets are given.
#[derive(Clone, Copy, PartialEq, Eq, Structural, Debug)]
pub enum TexOffsetMode {
    Unset,
    AddOffI,
    PerPx,
}

/// What a texture query asks.
#[derive(Clone, Copy, PartialEq, Eq, Structural, Debug)]
pub enum TexQuery {
    Dimension,
    TextureType,
    SamplerPos,
}

/// Texture sample.
pub struct OpTex {
    pub dsts: [Dst; 2],
    pub fault: Dst,
    pub tex: TexRef,
    pub srcs: [Src; 2],
    pub dim: TexDim,
    pub lod_mode: TexLodMode,
    pub deriv_mode: TexDerivMode,
    pub z_cmpr: bool,
    pub offset_mode: TexOffsetMode,
    pub mem_eviction_priority: MemEvictionPriority,
    pub nodep: bool,
    pub channel_mask: ChannelMask,
}

/// Texel fetch.
pub struct OpTld {
    pub dsts: [Dst; 2],
    pub fault: Dst,
    pub tex: TexRef,
    pub srcs: [Src; 2],
    pub dim: TexDim,
    pub is_ms: bool,
    pub lod_mode: TexLodMode,
    pub offset_mode: TexOffsetMode,
    pub mem_eviction_priority: MemEvictionPriority,
    pub nodep: bool,
    pub channel_mask: ChannelMask,
}

/// Texture gather of one component from four texels.
pub struct OpTld4 {
    pub dsts: [Dst; 2],
    pub fault: Dst,
    pub tex: TexRef,
    pub srcs: [Src; 2],
    pub dim: TexDim,
    pub comp: u8,
    pub offset_mode: TexOffsetMode,
    pub z_cmpr: bool,
    pub mem_eviction_priority: MemEvictionPriority,
    pub nodep: bool,
    pub channel_mask: ChannelMask,
}

/// Texture level-of-detail query.
pub struct OpTmml {
    pub dsts: [Dst; 2],
    pub tex: TexRef,
    pub srcs: [Src; 2],
    pub dim: TexDim,
    pub deriv_mode: TexDerivMode,
    pub nodep: bool,
    pub channel_mask: ChannelMask,
}

/// Texture sample with explicit derivatives.
pub struct OpTxd {
    pub dsts: [Dst; 2],
    pub fault: Dst,
    pub tex: TexRef,
    pub srcs: [Src; 2],
    pub dim: TexDim,
    pub offset_mode: TexOffsetMode,
    pub mem_eviction_priority: MemEvictionPriority,
    pub nodep: bool,
    pub channel_mask: ChannelMask,
}

/// Texture property query.
pub struct OpTxq {
    pub dsts: [Dst; 2],
    pub tex: TexRef,
    pub src: Src,
    pub query: TexQuery,
    pub nodep: bool,
    pub channel_mask: ChannelMask,
}

} // verus!
