use vstd::prelude::*;
use crate::operand::{Dst, Src};
use crate::reg::RegRef;
use crate::vec_pair::VecPair;

verus! {

/// What a geometry output does.
#[derive(Clone, Copy, PartialEq, Eq, Structural, Debug)]
pub enum OutType {
    Emit,
    Cut,
    EmitThenCut,
}

/// Copies a value; removed before encoding.
pub struct OpCopy {
    pub dst: Dst,
    pub src: Src,
}

/// Pins a value to its register.
pub struct OpPin {
    pub dst: Dst,
    pub src: Src,
}

/// Releases a pinned value.
pub struct OpUnpin {
    pub dst: Dst,
    pub src: Src,
}

/// Exchanges two values.
pub struct OpSwap {
    pub dsts: [Dst; 2],
    pub srcs: [Src; 2],
}

/// Geometry shader output.
pub struct OpOut {
    pub dst: Dst,
    pub handle: Src,
    pub stream: Src,
    pub out_type: OutType,
}

/// Ends geometry shader output.
pub struct OpOutFinal {
    pub handle: Src,
}

/// A parallel copy: all sources are read before any destination is
/// written; `tmp` may serve to break cycles.
pub struct OpParCopy {
    pub dsts_srcs: VecPair<Dst, Src>,
    pub tmp: Option<RegRef>,
}

impl OpParCopy {
    pub fn new() -> (r: OpParCopy)
        ensures
            r.dsts_srcs.wf(),
            r.dsts_srcs.firsts().len() == 0,
            r.tmp.is_none(),
    {
        OpParCopy { dsts_srcs: VecPair::new(), tmp: None }
    }

    pub fn is_empty(&self) -> (r: bool)
        requires
            self.dsts_srcs.wf(),
        ensures
            r == (self.dsts_srcs.firsts().len() == 0),
    {
        self.dsts_srcs.is_empty()
    }

    /// Adds the copy of `src` to `dst`.
    pub fn push(&mut self, dst: Dst, src: Src)
        requires
            old(self).dsts_srcs.wf(),
        ensures
            final(self).dsts_srcs.wf(),
            final(self).dsts_srcs.firsts() == old(self).dsts_srcs.firsts().push(dst),
            final(self).dsts_srcs.seconds() == old(self).dsts_srcs.seconds().push(src),
            final(self).tmp == old(self).tmp,
    {
        self.dsts_srcs.push(dst, src);
    }
}

/// Makes values live out of the shader in registers.
pub struct OpRegOut {
    pub srcs: Vec<Src>,
}

} // verus!
