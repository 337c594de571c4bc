use vstd::prelude::*;
use crate::operand::{Src, SrcMod, SrcRef, is_bitwise_mod};

verus! {

/// A concrete value held by one operand slot during constant folding.
#[derive(Clone, Copy, PartialEq, Eq, Structural, Debug)]
pub enum FoldData {
    Pred(bool),
    Carry(bool),
    U32(u32),
    /// The low and high halves of a 64-bit value.
    Vec2(u32, u32),
}

/// The values of an instruction's sources, read by folding, and of its
/// destinations, written by it; slot `i` of each holds the value of the
/// `i`-th source or destination of the instruction.
pub struct OpFoldData {
    pub dsts: Vec<FoldData>,
    pub srcs: Vec<FoldData>,
}

/// Whether `src`, with slot value `d`, can be read as a 32-bit integer: a
/// literal, or a register whose slot holds one.
pub open spec fn u32_src_ok(src: Src, d: FoldData) -> bool {
    match src.src_ref {
        SrcRef::True | SrcRef::False => false,
        SrcRef::Zero | SrcRef::Imm32(_) => true,
        _ => d is U32,
    }
}

/// The 32 bits read from `src` with slot value `d`, before any modifier.
pub open spec fn u32_src_value(src: Src, d: FoldData) -> u32 {
    match src.src_ref {
        SrcRef::Zero => 0,
        SrcRef::Imm32(i) => i,
        _ => d->U32_0,
    }
}

/// Whether `src`, with slot value `d`, can be read as a predicate.
pub open spec fn pred_src_ok(src: Src, d: FoldData) -> bool {
    &&& is_bitwise_mod(src.src_mod)
    &&& match src.src_ref {
        SrcRef::Zero | SrcRef::Imm32(_) => false,
        SrcRef::True | SrcRef::False => true,
        _ => d is Pred,
    }
}

/// The truth value read from `src` with slot value `d`, after its modifier.
pub open spec fn pred_src_value(src: Src, d: FoldData) -> bool {
    let b = match src.src_ref {
        SrcRef::True => true,
        SrcRef::False => false,
        _ => d->Pred_0,
    };
    if src.src_mod is BNot { !b } else { b }
}

/// The 32 bits read from `src`, inverted under a bitwise-not modifier.
pub open spec fn u32_bnot_src_value(src: Src, d: FoldData) -> u32 {
    let x = u32_src_value(src, d);
    if src.src_mod is BNot { !x } else { x }
}

impl OpFoldData {
    /// The 32 bits of source `i`, which is `src`.
    pub fn get_u32_src(&self, i: usize, src: &Src) -> (r: u32)
        requires
            i < self.srcs@.len(),
            u32_src_ok(*src, self.srcs@[i as int]),
        ensures
            r == u32_src_value(*src, self.srcs@[i as int]),
    {
        match src.src_ref {
            SrcRef::Zero => 0,
            SrcRef::Imm32(imm) => imm,
            _ => match self.srcs[i] {
                FoldData::U32(u) => u,
                _ => 0,
            },
        }
    }

    /// The 32 bits of source `i`, inverted if it carries a bitwise not.
    pub fn get_u32_bnot_src(&self, i: usize, src: &Src) -> (r: u32)
        requires
            i < self.srcs@.len(),
            u32_src_ok(*src, self.srcs@[i as int]),
            is_bitwise_mod(src.src_mod),
        ensures
            r == u32_bnot_src_value(*src, self.srcs@[i as int]),
    {
        let x = self.get_u32_src(i, src);
        if src.src_mod.is_bnot() {
            !x
        } else {
            x
        }
    }

    /// The truth value of predicate source `i`, which is `src`.
    pub fn get_pred_src(&self, i: usize, src: &Src) -> (r: bool)
        requires
            i < self.srcs@.len(),
            pred_src_ok(*src, self.srcs@[i as int]),
        ensures
            r == pred_src_value(*src, self.srcs@[i as int]),
    {
        let b = match src.src_ref {
            SrcRef::True => true,
            SrcRef::False => false,
            _ => match self.srcs[i] {
                FoldData::Pred(b) => b,
                _ => false,
            },
        };
        b ^ src.src_mod.is_bnot()
    }

    /// The carry flag held by source `i`, which is `src`.
    pub fn get_carry_src(&self, i: usize, src: &Src) -> (r: bool)
        requires
            i < self.srcs@.len(),
            src.src_ref is SSA,
            self.srcs@[i as int] is Carry,
        ensures
            r == self.srcs@[i as int]->Carry_0,
    {
        match self.srcs[i] {
            FoldData::Carry(b) => b,
            _ => false,
        }
    }

    /// Sets destination `i` to a predicate value.
    pub fn set_pred_dst(&mut self, i: usize, b: bool)
        requires
            i < old(self).dsts@.len(),
        ensures
            final(self).dsts@ == old(self).dsts@.update(i as int, FoldData::Pred(b)),
            final(self).srcs@ == old(self).srcs@,
    {
        self.dsts.set(i, FoldData::Pred(b));
    }

    /// Sets destination `i` to a carry flag.
    pub fn set_carry_dst(&mut self, i: usize, b: bool)
        requires
            i < old(self).dsts@.len(),
        ensures
            final(self).dsts@ == old(self).dsts@.update(i as int, FoldData::Carry(b)),
            final(self).srcs@ == old(self).srcs@,
    {
        self.dsts.set(i, FoldData::Carry(b));
    }

    /// Sets destination `i` to a 32-bit value.
    pub fn set_u32_dst(&mut self, i: usize, u: u32)
        requires
            i < old(self).dsts@.len(),
        ensures
            final(self).dsts@ == old(self).dsts@.update(i as int, FoldData::U32(u)),
            final(self).srcs@ == old(self).srcs@,
    {
        self.dsts.set(i, FoldData::U32(u));
    }
}

} // verus!
