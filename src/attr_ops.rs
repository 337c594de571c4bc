use vstd::prelude::*;
use crate::operand::{Dst, Src};
use crate::types::{MemScope, MemSpace, MemType};

verus! {

/// How a constant buffer load indexes the buffer.
#[derive(Clone, Copy, PartialEq, Eq, Structural, Debug)]
pub enum LdcMode {
    Indexed,
    IndexedLinear,
    IndexedSegmented,
    IndexedSegmentedLinear,
}

/// How an attribute is interpolated.
#[derive(Clone, Copy, PartialEq, Eq, Structural, Debug)]
pub enum InterpFreq {
    Pass,
    PassMulW,
    Constant,
    State,
}

/// Where in the pixel an attribute is interpolated.
#[derive(Clone, Copy, PartialEq, Eq, Structural, Debug)]
pub enum InterpLoc {
    Default,
    Centroid,
    Offset,
}

/// A cache control operation.
#[derive(Clone, Copy, PartialEq, Eq, Structural, Debug)]
pub enum CCtlOp {
    Qry1,
    PF1,
    PF1_5,
    PF2,
    WB,
    IV,
    IVAll,
    RS,
    RSLB,
    IVAllP,
    WBAll,
    WBAllP,
}

impl CCtlOp {
    /// Whether the operation acts on the whole cache rather than one line.
    pub fn is_all(&self) -> (r: bool)
        ensures
            r == (*self is IVAll || *self is IVAllP || *self is WBAll || *self is WBAllP),
    {
        match self {
            CCtlOp::IVAll | CCtlOp::IVAllP | CCtlOp::WBAll | CCtlOp::WBAllP => true,
            _ => false,
        }
    }
}

/// Constant buffer load; `cb` names the buffer and a fixed offset.
pub struct OpLdc {
    pub dst: Dst,
    pub cb: Src,
    pub offset: Src,
    pub mode: LdcMode,
    pub mem_type: MemType,
}

/// Shared memory load that takes a lock.
pub struct OpLdSharedLock {
    pub dst: Dst,
    pub locked: Dst,
    pub addr: Src,
    pub offset: i32,
    pub mem_type: MemType,
}

/// Shared memory store that releases a lock if still held.
pub struct OpStSCheckUnlock {
    pub locked: Dst,
    pub addr: Src,
    pub data: Src,
    pub offset: i32,
    pub mem_type: MemType,
}

/// Converts an attribute address to a physical one.
pub struct OpAL2P {
    pub dst: Dst,
    pub offset: Src,
    pub addr: u16,
    pub comps: u8,
    pub output: bool,
}

/// Attribute load.
pub struct OpALd {
    pub dst: Dst,
    pub vtx: Src,
    pub offset: Src,
    pub addr: u16,
    pub comps: u8,
    pub patch: bool,
    pub output: bool,
    pub phys: bool,
}

/// Attribute store.
pub struct OpASt {
    pub vtx: Src,
    pub offset: Src,
    pub data: Src,
    pub addr: u16,
    pub comps: u8,
    pub patch: bool,
    pub phys: bool,
}

/// Attribute interpolation.
pub struct OpIpa {
    pub dst: Dst,
    pub addr: u16,
    pub freq: InterpFreq,
    pub loc: InterpLoc,
    pub inv_w: Src,
    pub offset: Src,
}

/// Loads an attribute from the triangle RAM.
pub struct OpLdTram {
    pub dst: Dst,
    pub addr: u16,
    pub use_c: bool,
}

/// Cache control.
pub struct OpCCtl {
    pub op: CCtlOp,
    pub mem_space: MemSpace,
    pub addr: Src,
    pub addr_offset: i32,
}

/// Memory barrier.
pub struct OpMemBar {
    pub scope: MemScope,
}

} // verus!
