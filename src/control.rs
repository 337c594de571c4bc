use vstd::prelude::*;
use crate::operand::{Dst, Src};
use crate::reg::Label;

verus! {

/// A per-pixel value a fragment shader can read.
#[derive(Clone, Copy, PartialEq, Eq, Structural, Debug)]
pub enum PixVal {
    MsCount,
    CovMask,
    Covered,
    Offset,
    CentroidOffset,
    MyIndex,
    InnerCoverage,
}

/// Which lanes a match reports.
#[derive(Clone, Copy, PartialEq, Eq, Structural, Debug)]
pub enum MatchOp {
    All,
    Any,
}

/// The largest count a texture dependency barrier can wait down to.
pub const MAX_TEXTURES_LEFT: u8 = 62;

/// Clears a barrier register.
pub struct OpBClear {
    pub dst: Dst,
}

/// Moves between a barrier register and a general one.
pub struct OpBMov {
    pub dst: Dst,
    pub src: Src,
    pub clear: bool,
}

/// Removes the lanes where `cond` holds from a barrier.
pub struct OpBreak {
    pub bar_out: Dst,
    pub bar_in: Src,
    pub cond: Src,
}

/// Sets up a barrier to re-converge at `target`.
pub struct OpBSSy {
    pub bar_out: Dst,
    pub bar_in: Src,
    pub cond: Src,
    pub target: Label,
}

/// Waits for the lanes of a barrier.
pub struct OpBSync {
    pub bar: Src,
    pub cond: Src,
}

/// Pushes a re-convergence point.
pub struct OpSSy {
    pub target: Label,
}

/// Pushes a loop break point.
pub struct OpPBk {
    pub target: Label,
}

/// Pushes a loop continue point.
pub struct OpPCnt {
    pub target: Label,
}

/// Waits for the lanes of `mask`.
pub struct OpWarpSync {
    pub mask: u32,
}

/// Workgroup barrier.
pub struct OpBar {
}

/// Waits until at most `textures_left` texture loads are pending.
pub struct OpTexDepBar {
    pub textures_left: u8,
}

/// Reads a system register, fixed latency form.
pub struct OpCS2R {
    pub dst: Dst,
    pub idx: u8,
}

/// Reads the internal stage buffer.
pub struct OpIsberd {
    pub dst: Dst,
    pub idx: Src,
}

/// Ends the fragment shader for the lanes that run it.
pub struct OpKill {
}

/// Reads a per-pixel value.
pub struct OpPixLd {
    pub dst: Dst,
    pub val: PixVal,
}

/// Reads a system register.
pub struct OpS2R {
    pub dst: Dst,
    pub idx: u8,
}

/// Finds the lanes holding the same value.
pub struct OpMatch {
    pub pred: Dst,
    pub mask: Dst,
    pub src: Src,
    pub op: MatchOp,
    pub u64: bool,
}

/// Defines a value with no particular contents.
pub struct OpUndef {
    pub dst: Dst,
}

/// Keeps a source alive up to this point.
pub struct OpSrcBar {
    pub src: Src,
}

} // verus!
