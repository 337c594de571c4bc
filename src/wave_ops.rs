use vstd::prelude::*;
use crate::logic::LogicOp3;
use crate::operand::{Dst, Src};

verus! {

/// A wave vote.
#[derive(Clone, Copy, PartialEq, Eq, Structural, Debug)]
pub enum VoteOp {
    Any,
    All,
    Eq,
}

/// Two three-input logic operations on predicates.
pub struct OpPLop3 {
    pub dsts: [Dst; 2],
    pub srcs: [Src; 3],
    pub ops: [LogicOp3; 2],
}

/// Wave vote on a predicate, with the ballot of lanes.
pub struct OpVote {
    pub op: VoteOp,
    pub ballot: Dst,
    pub vote: Dst,
    pub pred: Src,
}

/// Loads a vertex index.
pub struct OpViLd {
    pub dst: Dst,
    pub idx: Src,
    pub off: i8,
}

} // verus!
