use vstd::prelude::*;
use vstd::std_specs::bits::u32_leading_zeros;
use crate::fold::{
    FoldData, OpFoldData, pred_src_ok, pred_src_value, u32_bnot_src_value, u32_src_ok, u32_src_value,
};
use crate::logic::{
    IntCmpOp, IntCmpType, LogicOp2, LogicOp3, PredSetOp, spec_int_cmp, spec_lop2, spec_lop3_eval,
    spec_pred_set,
};
use crate::operand::{Dst, Src, SrcMod, is_bitwise_mod, is_int_mod};

verus! {

/// The number of 32-bit values.
pub open spec fn two_32() -> int {
    0x1_0000_0000
}

/// Slot `i` of `f` reads as a 32-bit integer.
pub open spec fn u32_at(f: &OpFoldData, i: int, s: Src) -> bool {
    i < f.srcs@.len() && u32_src_ok(s, f.srcs@[i])
}

/// Slot `i` of `f` reads as a 32-bit integer, possibly under a bitwise not.
pub open spec fn b32_at(f: &OpFoldData, i: int, s: Src) -> bool {
    u32_at(f, i, s) && is_bitwise_mod(s.src_mod)
}

/// Slot `i` of `f` reads as a 32-bit integer, possibly under a negation.
pub open spec fn i32_at(f: &OpFoldData, i: int, s: Src) -> bool {
    u32_at(f, i, s) && is_int_mod(s.src_mod)
}

/// Slot `i` of `f` reads as a predicate.
pub open spec fn pred_at(f: &OpFoldData, i: int, s: Src) -> bool {
    i < f.srcs@.len() && pred_src_ok(s, f.srcs@[i])
}

pub open spec fn uval(f: &OpFoldData, i: int, s: Src) -> u32 {
    u32_src_value(s, f.srcs@[i])
}

pub open spec fn bval(f: &OpFoldData, i: int, s: Src) -> u32 {
    u32_bnot_src_value(s, f.srcs@[i])
}

pub open spec fn pval(f: &OpFoldData, i: int, s: Src) -> bool {
    pred_src_value(s, f.srcs@[i])
}

/// The term an adder takes for `x`: itself, or its literal two's
/// complement `!x + 1` (which is `2^32` for zero) when negated.
pub open spec fn add_term(x: u32, neg: bool) -> int {
    if neg { (!x) as int + 1 } else { x as int }
}

/// `x` read as a signed 32-bit value.
pub open spec fn as_signed(x: u32) -> int {
    if x >= 0x8000_0000 { x as int - two_32() } else { x as int }
}

/// `x` with its sign bit flipped: unsigned order on keys is signed order
/// on values.
fn signed_key(x: u32) -> (r: u32)
    ensures
        r as int == as_signed(x) + 0x8000_0000,
{
    assert(x >= 0x8000_0000 ==> (x ^ 0x8000_0000u32) == x - 0x8000_0000u32) by (bit_vector);
    assert(x < 0x8000_0000 ==> (x ^ 0x8000_0000u32) == x + 0x8000_0000u32) by (bit_vector);
    x ^ 0x8000_0000u32
}

/// The low 32 bits of `x`.
pub open spec fn low32(x: int) -> u32 {
    (x % two_32()) as u32
}

fn add_term_exec(x: u32, neg: bool) -> (r: u64)
    ensures
        r == add_term(x, neg),
{
    if neg {
        (!x) as u64 + 1
    } else {
        x as u64
    }
}

/// The sum of `x` and `y` modulo `2^32`, and whether it carried out.
pub open spec fn ovf_add(x: u32, y: u32) -> (u32, bool) {
    (low32(x + y), x + y >= two_32())
}

fn overflowing_add(x: u32, y: u32) -> (r: (u32, bool))
    ensures
        r == ovf_add(x, y),
{
    let t = x as u64 + y as u64;
    ((t % 0x1_0000_0000u64) as u32, t >= 0x1_0000_0000u64)
}

/// Find leading one.
pub struct OpFlo {
    pub dst: Dst,
    pub src: Src,
    pub signed: bool,
    pub return_shift_amount: bool,
}

/// The position of the leading one of `x` (of the leading zero, for a
/// negative signed value), or the shift that brings it to bit 31; the
/// position of none is `-1` as 32 bits.
pub open spec fn spec_flo(x: u32, signed: bool, return_shift_amount: bool) -> u32 {
    let leading = if signed && x >= 0x8000_0000 { u32_leading_zeros(!x) } else { u32_leading_zeros(x) };
    if return_shift_amount {
        leading
    } else {
        low32(31 - leading + two_32())
    }
}

impl OpFlo {
    pub fn fold(&self, f: &mut OpFoldData)
        requires
            old(f).dsts@.len() == 1,
            u32_at(old(f), 0, self.src),
        ensures
            final(f).srcs@ == old(f).srcs@,
            final(f).dsts@ == seq![FoldData::U32(spec_flo(uval(old(f), 0, self.src), self.signed, self.return_shift_amount))],
    {
        let src = f.get_u32_src(0, &self.src);
        let leading = if self.signed && src >= 0x8000_0000 {
            (!src).leading_zeros()
        } else {
            src.leading_zeros()
        };
        let dst = if self.return_shift_amount {
            leading
        } else {
            31u32.wrapping_sub(leading)
        };
        proof {
            assert(31u32.wrapping_sub(leading) == low32(31 - leading + two_32())) by {
                vstd::std_specs::bits::axiom_u32_leading_zeros(src);
                vstd::std_specs::bits::axiom_u32_leading_zeros(!src);
            }
        }
        f.set_u32_dst(0, dst);
        assert(f.dsts@ =~= seq![FoldData::U32(dst)]);
    }
}

/// Integer absolute value.
pub struct OpIAbs {
    pub dst: Dst,
    pub src: Src,
}

/// The absolute value of `x` read as signed, as 32 bits.
pub open spec fn spec_iabs(x: u32) -> u32 {
    if x >= 0x8000_0000 { (two_32() - x) as u32 } else { x }
}

impl OpIAbs {
    pub fn fold(&self, f: &mut OpFoldData)
        requires
            old(f).dsts@.len() == 1,
            u32_at(old(f), 0, self.src),
        ensures
            final(f).srcs@ == old(f).srcs@,
            final(f).dsts@ == seq![FoldData::U32(spec_iabs(uval(old(f), 0, self.src)))],
    {
        let src = f.get_u32_src(0, &self.src);
        let dst = if src >= 0x8000_0000 {
            assert(src >= 0x8000_0000 ==> (!src) + 1 == 0x1_0000_0000 - src) by (bit_vector);
            (!src) + 1
        } else {
            src
        };
        f.set_u32_dst(0, dst);
        assert(f.dsts@ =~= seq![FoldData::U32(dst)]);
    }
}

/// Two-source integer add with carry out; each source may be negated.
pub struct OpIAdd2 {
    pub dst: Dst,
    pub carry_out: Dst,
    pub srcs: [Src; 2],
}

impl OpIAdd2 {
    pub open spec fn spec_sum(&self, f: &OpFoldData) -> int {
        add_term(uval(f, 0, self.srcs[0]), self.srcs[0].src_mod is INeg)
            + add_term(uval(f, 1, self.srcs[1]), self.srcs[1].src_mod is INeg)
    }

    pub fn fold(&self, f: &mut OpFoldData)
        requires
            old(f).dsts@.len() == 2,
            i32_at(old(f), 0, self.srcs[0]),
            i32_at(old(f), 1, self.srcs[1]),
        ensures
            final(f).srcs@ == old(f).srcs@,
            final(f).dsts@ == seq![
                FoldData::U32(low32(self.spec_sum(old(f)))),
                FoldData::Carry(self.spec_sum(old(f)) >= two_32()),
            ],
    {
        let a = f.get_u32_src(0, &self.srcs[0]);
        let b = f.get_u32_src(1, &self.srcs[1]);
        let sum = add_term_exec(a, self.srcs[0].src_mod.is_ineg()) + add_term_exec(b, self.srcs[1].src_mod.is_ineg());
        f.set_u32_dst(0, (sum % 0x1_0000_0000u64) as u32);
        f.set_carry_dst(1, sum >= 0x1_0000_0000u64);
        assert(f.dsts@ =~= seq![
            FoldData::U32(low32(self.spec_sum(old(f)))),
            FoldData::Carry(self.spec_sum(old(f)) >= two_32()),
        ]);
    }
}

/// Two-source add with carry in and carry out.
pub struct OpIAdd2X {
    pub dst: Dst,
    pub carry_out: Dst,
    pub srcs: [Src; 2],
    pub carry_in: Src,
}

impl OpIAdd2X {
    pub open spec fn spec_sum(&self, f: &OpFoldData) -> int {
        bval(f, 0, self.srcs[0]) + bval(f, 1, self.srcs[1]) + (if f.srcs@[2]->Carry_0 { 1int } else { 0 })
    }

    pub fn fold(&self, f: &mut OpFoldData)
        requires
            old(f).dsts@.len() == 2,
            old(f).srcs@.len() == 3,
            b32_at(old(f), 0, self.srcs[0]),
            b32_at(old(f), 1, self.srcs[1]),
            self.carry_in.src_ref is SSA,
            old(f).srcs@[2] is Carry,
        ensures
            final(f).srcs@ == old(f).srcs@,
            final(f).dsts@ == seq![
                FoldData::U32(low32(self.spec_sum(old(f)))),
                FoldData::Carry(self.spec_sum(old(f)) >= two_32()),
            ],
    {
        let a = f.get_u32_bnot_src(0, &self.srcs[0]);
        let b = f.get_u32_bnot_src(1, &self.srcs[1]);
        let carry_in = f.get_carry_src(2, &self.carry_in);
        let sum = a as u64 + b as u64 + if carry_in { 1u64 } else { 0u64 };
        f.set_u32_dst(0, (sum % 0x1_0000_0000u64) as u32);
        f.set_carry_dst(1, sum >= 0x1_0000_0000u64);
        assert(f.dsts@ =~= seq![
            FoldData::U32(low32(self.spec_sum(old(f)))),
            FoldData::Carry(self.spec_sum(old(f)) >= two_32()),
        ]);
    }
}

/// Three-source integer add; each source may be negated. The two overflow
/// predicates are bits 32 and 33 of the sum.
pub struct OpIAdd3 {
    pub dst: Dst,
    pub overflow: [Dst; 2],
    pub srcs: [Src; 3],
}

impl OpIAdd3 {
    pub open spec fn spec_sum(&self, f: &OpFoldData) -> int {
        add_term(uval(f, 0, self.srcs[0]), self.srcs[0].src_mod is INeg)
            + add_term(uval(f, 1, self.srcs[1]), self.srcs[1].src_mod is INeg)
            + add_term(uval(f, 2, self.srcs[2]), self.srcs[2].src_mod is INeg)
    }

    /// The sum of the sources read as signed two's-complement values.
    pub open spec fn spec_signed_sum(&self, f: &OpFoldData) -> int {
        (if self.srcs[0].src_mod is INeg { -uval(f, 0, self.srcs[0]) } else { uval(f, 0, self.srcs[0]) as int })
            + (if self.srcs[1].src_mod is INeg { -uval(f, 1, self.srcs[1]) } else { uval(f, 1, self.srcs[1]) as int })
            + (if self.srcs[2].src_mod is INeg { -uval(f, 2, self.srcs[2]) } else { uval(f, 2, self.srcs[2]) as int })
    }

    pub fn fold(&self, f: &mut OpFoldData)
        requires
            old(f).dsts@.len() == 3,
            i32_at(old(f), 0, self.srcs[0]),
            i32_at(old(f), 1, self.srcs[1]),
            i32_at(old(f), 2, self.srcs[2]),
        ensures
            final(f).srcs@ == old(f).srcs@,
            final(f).dsts@ == seq![
                FoldData::U32(low32(self.spec_sum(old(f)))),
                FoldData::Pred(self.spec_sum(old(f)) >= two_32()),
                FoldData::Pred(self.spec_sum(old(f)) >= 2 * two_32()),
            ],
    {
        let a = f.get_u32_src(0, &self.srcs[0]);
        let b = f.get_u32_src(1, &self.srcs[1]);
        let c = f.get_u32_src(2, &self.srcs[2]);
        let sum = add_term_exec(a, self.srcs[0].src_mod.is_ineg()) + add_term_exec(b, self.srcs[1].src_mod.is_ineg())
            + add_term_exec(c, self.srcs[2].src_mod.is_ineg());
        f.set_u32_dst(0, (sum % 0x1_0000_0000u64) as u32);
        f.set_pred_dst(1, sum >= 0x1_0000_0000u64);
        f.set_pred_dst(2, sum >= 0x2_0000_0000u64);
        assert(f.dsts@ =~= seq![
            FoldData::U32(low32(self.spec_sum(old(f)))),
            FoldData::Pred(self.spec_sum(old(f)) >= two_32()),
            FoldData::Pred(self.spec_sum(old(f)) >= 2 * two_32()),
        ]);
    }
}

/// The literal two's complement of `x` is `2^32 - x`.
proof fn lemma_not_plus_one(x: u32)
    ensures
        (!x) as int + 1 == two_32() - x,
{
    assert((!x) as int == 0xffff_ffff - x) by (bit_vector);
}

/// The folded three-source sum is, modulo `2^32`, the sum of the sources
/// read as signed two's-complement values.
pub proof fn lemma_iadd3_twos_complement(op: OpIAdd3, f: OpFoldData)
    ensures
        low32(op.spec_sum(&f)) == low32(op.spec_signed_sum(&f)),
        op.spec_sum(&f) >= 0,
{
    let a = uval(&f, 0, op.srcs[0]);
    let b = uval(&f, 1, op.srcs[1]);
    let c = uval(&f, 2, op.srcs[2]);
    lemma_not_plus_one(a);
    lemma_not_plus_one(b);
    lemma_not_plus_one(c);
    let na: int = if op.srcs[0].src_mod is INeg { 1 } else { 0 };
    let nb: int = if op.srcs[1].src_mod is INeg { 1 } else { 0 };
    let nc: int = if op.srcs[2].src_mod is INeg { 1 } else { 0 };
    assert(op.spec_sum(&f) == op.spec_signed_sum(&f) + (na + nb + nc) * two_32());
    vstd::arithmetic::div_mod::lemma_mod_multiples_vanish(na + nb + nc, op.spec_signed_sum(&f), two_32());
}

/// Three-source add with two carries in, read from predicates.
pub struct OpIAdd3X {
    pub dst: Dst,
    pub overflow: [Dst; 2],
    pub srcs: [Src; 3],
    pub carry: [Src; 2],
}

impl OpIAdd3X {
    pub open spec fn spec_sum(&self, f: &OpFoldData) -> int {
        bval(f, 0, self.srcs[0]) + bval(f, 1, self.srcs[1]) + bval(f, 2, self.srcs[2])
            + (if pval(f, 3, self.carry[0]) { 1int } else { 0 })
            + (if pval(f, 4, self.carry[1]) { 1int } else { 0 })
    }

    pub fn fold(&self, f: &mut OpFoldData)
        requires
            old(f).dsts@.len() == 3,
            b32_at(old(f), 0, self.srcs[0]),
            b32_at(old(f), 1, self.srcs[1]),
            b32_at(old(f), 2, self.srcs[2]),
            pred_at(old(f), 3, self.carry[0]),
            pred_at(old(f), 4, self.carry[1]),
        ensures
            final(f).srcs@ == old(f).srcs@,
            final(f).dsts@ == seq![
                FoldData::U32(low32(self.spec_sum(old(f)))),
                FoldData::Pred(self.spec_sum(old(f)) >= two_32()),
                FoldData::Pred(self.spec_sum(old(f)) >= 2 * two_32()),
            ],
    {
        let a = f.get_u32_bnot_src(0, &self.srcs[0]);
        let b = f.get_u32_bnot_src(1, &self.srcs[1]);
        let c = f.get_u32_bnot_src(2, &self.srcs[2]);
        let c0 = f.get_pred_src(3, &self.carry[0]);
        let c1 = f.get_pred_src(4, &self.carry[1]);
        let sum = a as u64 + b as u64 + c as u64 + if c0 { 1u64 } else { 0u64 } + if c1 { 1u64 } else { 0u64 };
        f.set_u32_dst(0, (sum % 0x1_0000_0000u64) as u32);
        f.set_pred_dst(1, sum >= 0x1_0000_0000u64);
        f.set_pred_dst(2, sum >= 0x2_0000_0000u64);
        assert(f.dsts@ =~= seq![
            FoldData::U32(low32(self.spec_sum(old(f)))),
            FoldData::Pred(self.spec_sum(old(f)) >= two_32()),
            FoldData::Pred(self.spec_sum(old(f)) >= 2 * two_32()),
        ]);
    }
}

/// Integer minimum or maximum, selected by a predicate.
pub struct OpIMnMx {
    pub dst: Dst,
    pub cmp_type: IntCmpType,
    pub srcs: [Src; 2],
    pub min: Src,
}

/// The minimum (or maximum) of `a` and `b`, compared unsigned or signed.
pub open spec fn spec_imnmx(a: u32, b: u32, min: bool, signed: bool) -> u32 {
    let (x, y) = if signed { (as_signed(a), as_signed(b)) } else { (a as int, b as int) };
    if min {
        if x <= y { a } else { b }
    } else {
        if x >= y { a } else { b }
    }
}

impl OpIMnMx {
    pub fn fold(&self, f: &mut OpFoldData)
        requires
            old(f).dsts@.len() == 1,
            b32_at(old(f), 0, self.srcs[0]),
            b32_at(old(f), 1, self.srcs[1]),
            pred_at(old(f), 2, self.min),
        ensures
            final(f).srcs@ == old(f).srcs@,
            final(f).dsts@ == seq![FoldData::U32(spec_imnmx(
                bval(old(f), 0, self.srcs[0]),
                bval(old(f), 1, self.srcs[1]),
                pval(old(f), 2, self.min),
                self.cmp_type is I32,
            ))],
    {
        let a = f.get_u32_bnot_src(0, &self.srcs[0]);
        let b = f.get_u32_bnot_src(1, &self.srcs[1]);
        let min = f.get_pred_src(2, &self.min);
        let res = if self.cmp_type.is_signed() {
            let x = signed_key(a);
            let y = signed_key(b);
            if min {
                if x <= y { a } else { b }
            } else {
                if x >= y { a } else { b }
            }
        } else {
            if min {
                if a <= b { a } else { b }
            } else {
                if a >= b { a } else { b }
            }
        };
        f.set_u32_dst(0, res);
        assert(f.dsts@ =~= seq![FoldData::U32(res)]);
    }
}

/// Integer compare into a predicate, combined with an accumulator.
pub struct OpISetP {
    pub dst: Dst,
    pub set_op: PredSetOp,
    pub cmp_op: IntCmpOp,
    pub cmp_type: IntCmpType,
    pub ex: bool,
    pub srcs: [Src; 2],
    pub accum: Src,
    pub low_cmp: Src,
}

/// Whether the extended form hands the decision to the low comparison.
pub open spec fn isetp_uses_low(ex: bool, cmp_op: IntCmpOp, x: u32, y: u32) -> bool {
    ex && x == y && !(cmp_op is False) && !(cmp_op is True)
}

/// The folded predicate: the comparison (or, for an extended compare of
/// equal high words, the low comparison) combined with the accumulator.
pub open spec fn spec_isetp(
    set_op: PredSetOp,
    cmp_op: IntCmpOp,
    signed: bool,
    ex: bool,
    x: u32,
    y: u32,
    accum: bool,
    low_cmp: bool,
) -> bool {
    let cmp = if signed {
        spec_int_cmp(cmp_op, as_signed(x), as_signed(y))
    } else {
        spec_int_cmp(cmp_op, x as int, y as int)
    };
    let cmp = if isetp_uses_low(ex, cmp_op, x, y) { low_cmp } else { cmp };
    spec_pred_set(set_op, cmp, accum)
}

impl OpISetP {
    /// Folds the compare; `sm` is the shader model number. Before SM70 the
    /// extended compare also reads the accumulator, which is not folded.
    pub fn fold(&self, sm: u8, f: &mut OpFoldData)
        requires
            old(f).dsts@.len() == 1,
            u32_at(old(f), 0, self.srcs[0]),
            u32_at(old(f), 1, self.srcs[1]),
            pred_at(old(f), 2, self.accum),
            pred_at(old(f), 3, self.low_cmp),
            isetp_uses_low(self.ex, self.cmp_op, uval(old(f), 0, self.srcs[0]), uval(old(f), 1, self.srcs[1]))
                ==> sm >= 70,
        ensures
            final(f).srcs@ == old(f).srcs@,
            final(f).dsts@ == seq![FoldData::Pred(spec_isetp(
                self.set_op,
                self.cmp_op,
                self.cmp_type is I32,
                self.ex,
                uval(old(f), 0, self.srcs[0]),
                uval(old(f), 1, self.srcs[1]),
                pval(old(f), 2, self.accum),
                pval(old(f), 3, self.low_cmp),
            ))],
    {
        let x = f.get_u32_src(0, &self.srcs[0]);
        let y = f.get_u32_src(1, &self.srcs[1]);
        let accum = f.get_pred_src(2, &self.accum);
        let low_cmp = f.get_pred_src(3, &self.low_cmp);

        let cmp = if self.cmp_type.is_signed() {
            self.cmp_op.eval_u32(signed_key(x), signed_key(y))
        } else {
            self.cmp_op.eval_u32(x, y)
        };
        let cmp_op_is_const = match self.cmp_op {
            IntCmpOp::False | IntCmpOp::True => true,
            _ => false,
        };
        let cmp = if self.ex && x == y && !cmp_op_is_const {
            low_cmp
        } else {
            cmp
        };
        let dst = self.set_op.eval(cmp, accum);
        f.set_pred_dst(0, dst);
        assert(f.dsts@ =~= seq![FoldData::Pred(dst)]);
    }
}

/// Shift-and-add address computation, optionally from a 64-bit value.
pub struct OpLea {
    pub dst: Dst,
    pub overflow: Dst,
    pub a: Src,
    pub b: Src,
    pub a_high: Src,
    pub shift: u8,
    pub dst_high: bool,
    /// Modifier of the shifted temporary `a << shift`.
    pub intermediate_mod: SrcMod,
}

/// `a << shift`, or the high word of `(a_high:a) << shift`.
pub open spec fn lea_shifted(a: u32, a_high: u32, shift: u8, dst_high: bool) -> u32 {
    if dst_high {
        (((((a_high as u64) << 32u64) | (a as u64)) >> ((32 - shift) as u64)) as u32)
    } else {
        ((a << shift) as u32)
    }
}

/// Whether the shift is in range: at most 32 for the high word, below 32
/// otherwise.
pub open spec fn lea_shift_ok(shift: u8, dst_high: bool) -> bool {
    if dst_high { shift <= 32 } else { shift < 32 }
}

/// `!x + 1` modulo `2^32`, and whether it carried out.
pub open spec fn ovf_neg(x: u32) -> (u32, bool) {
    ovf_add(!x, 1)
}

/// The folded address and overflow flag: the shifted value and `b`, each
/// negated literally when asked, then added; any carry out sets overflow.
pub open spec fn spec_lea(s: u32, b: u32, neg_s: bool, neg_b: bool) -> (u32, bool) {
    let (s1, o1) = if neg_s { ovf_neg(s) } else { (s, false) };
    let (b1, o2) = if neg_b { ovf_neg(b) } else { (b, false) };
    let (d, o3) = ovf_add(s1, b1);
    (d, o1 || o2 || o3)
}

fn shifted_exec(a: u32, a_high: u32, shift: u8, dst_high: bool) -> (r: u32)
    requires
        lea_shift_ok(shift, dst_high),
    ensures
        r == lea_shifted(a, a_high, shift, dst_high),
{
    if dst_high {
        let wide = ((a_high as u64) << 32u64) | (a as u64);
        (wide >> ((32 - shift) as u64)) as u32
    } else {
        a << shift
    }
}

impl OpLea {
    pub fn fold(&self, f: &mut OpFoldData)
        requires
            old(f).dsts@.len() == 2,
            u32_at(old(f), 0, self.a),
            i32_at(old(f), 1, self.b),
            u32_at(old(f), 2, self.a_high),
            is_int_mod(self.intermediate_mod),
            lea_shift_ok(self.shift, self.dst_high),
        ensures
            final(f).srcs@ == old(f).srcs@,
            final(f).dsts@ == seq![
                FoldData::U32(spec_lea(
                    lea_shifted(uval(old(f), 0, self.a), uval(old(f), 2, self.a_high), self.shift, self.dst_high),
                    uval(old(f), 1, self.b),
                    self.intermediate_mod is INeg,
                    self.b.src_mod is INeg,
                ).0),
                FoldData::Pred(spec_lea(
                    lea_shifted(uval(old(f), 0, self.a), uval(old(f), 2, self.a_high), self.shift, self.dst_high),
                    uval(old(f), 1, self.b),
                    self.intermediate_mod is INeg,
                    self.b.src_mod is INeg,
                ).1),
            ],
    {
        let a = f.get_u32_src(0, &self.a);
        let b = f.get_u32_src(1, &self.b);
        let a_high = f.get_u32_src(2, &self.a_high);
        let s = shifted_exec(a, a_high, self.shift, self.dst_high);
        let (s1, o1) = if self.intermediate_mod.is_ineg() { overflowing_add(!s, 1) } else { (s, false) };
        let (b1, o2) = if self.b.src_mod.is_ineg() { overflowing_add(!b, 1) } else { (b, false) };
        let (dst, o3) = overflowing_add(s1, b1);
        f.set_u32_dst(0, dst);
        f.set_pred_dst(1, o1 || o2 || o3);
        assert(f.dsts@ =~= seq![FoldData::U32(dst), FoldData::Pred(o1 || o2 || o3)]);
    }
}

/// The extended form of `OpLea`, with bitwise nots and a carry in.
pub struct OpLeaX {
    pub dst: Dst,
    pub overflow: Dst,
    pub a: Src,
    pub b: Src,
    pub a_high: Src,
    pub carry: Src,
    pub shift: u8,
    pub dst_high: bool,
    /// Modifier of the shifted temporary `a << shift`.
    pub intermediate_mod: SrcMod,
}

/// The folded value and overflow flag: the shifted value plus `b`, each
/// inverted when asked, then plus the carry.
pub open spec fn spec_leax(s: u32, b: u32, not_s: bool, not_b: bool, carry: bool) -> (u32, bool) {
    let s1 = if not_s { !s } else { s };
    let b1 = if not_b { !b } else { b };
    let (d, o1) = ovf_add(s1, b1);
    let (d2, o2) = ovf_add(d, if carry { 1u32 } else { 0u32 });
    (d2, o1 || o2)
}

impl OpLeaX {
    pub fn fold(&self, f: &mut OpFoldData)
        requires
            old(f).dsts@.len() == 2,
            u32_at(old(f), 0, self.a),
            b32_at(old(f), 1, self.b),
            u32_at(old(f), 2, self.a_high),
            pred_at(old(f), 3, self.carry),
            is_bitwise_mod(self.intermediate_mod),
            lea_shift_ok(self.shift, self.dst_high),
        ensures
            final(f).srcs@ == old(f).srcs@,
            final(f).dsts@ == seq![
                FoldData::U32(spec_leax(
                    lea_shifted(uval(old(f), 0, self.a), uval(old(f), 2, self.a_high), self.shift, self.dst_high),
                    uval(old(f), 1, self.b),
                    self.intermediate_mod is BNot,
                    self.b.src_mod is BNot,
                    pval(old(f), 3, self.carry),
                ).0),
                FoldData::Pred(spec_leax(
                    lea_shifted(uval(old(f), 0, self.a), uval(old(f), 2, self.a_high), self.shift, self.dst_high),
                    uval(old(f), 1, self.b),
                    self.intermediate_mod is BNot,
                    self.b.src_mod is BNot,
                    pval(old(f), 3, self.carry),
                ).1),
            ],
    {
        let a = f.get_u32_src(0, &self.a);
        let b = f.get_u32_src(1, &self.b);
        let a_high = f.get_u32_src(2, &self.a_high);
        let carry = f.get_pred_src(3, &self.carry);
        let s = shifted_exec(a, a_high, self.shift, self.dst_high);
        let s1 = if self.intermediate_mod.is_bnot() { !s } else { s };
        let b1 = if self.b.src_mod.is_bnot() { !b } else { b };
        let (d, o1) = overflowing_add(s1, b1);
        let (d2, o2) = overflowing_add(d, if carry { 1 } else { 0 });
        f.set_u32_dst(0, d2);
        f.set_pred_dst(1, o1 || o2);
        assert(f.dsts@ =~= seq![FoldData::U32(d2), FoldData::Pred(o1 || o2)]);
    }
}

/// Two-source bitwise operation.
pub struct OpLop2 {
    pub dst: Dst,
    pub srcs: [Src; 2],
    pub op: LogicOp2,
}

impl OpLop2 {
    pub fn fold(&self, f: &mut OpFoldData)
        requires
            old(f).dsts@.len() == 1,
            b32_at(old(f), 0, self.srcs[0]),
            b32_at(old(f), 1, self.srcs[1]),
        ensures
            final(f).srcs@ == old(f).srcs@,
            final(f).dsts@ == seq![FoldData::U32(spec_lop2(self.op, bval(old(f), 0, self.srcs[0]), bval(old(f), 1, self.srcs[1])))],
    {
        let a = f.get_u32_bnot_src(0, &self.srcs[0]);
        let b = f.get_u32_bnot_src(1, &self.srcs[1]);
        let dst = match self.op {
            LogicOp2::And => a & b,
            LogicOp2::Or => a | b,
            LogicOp2::Xor => a ^ b,
            LogicOp2::PassB => b,
        };
        f.set_u32_dst(0, dst);
        assert(f.dsts@ =~= seq![FoldData::U32(dst)]);
    }
}

/// Three-source bitwise operation given by a truth table.
pub struct OpLop3 {
    pub dst: Dst,
    pub srcs: [Src; 3],
    pub op: LogicOp3,
}

impl OpLop3 {
    pub fn fold(&self, f: &mut OpFoldData)
        requires
            old(f).dsts@.len() == 1,
            b32_at(old(f), 0, self.srcs[0]),
            b32_at(old(f), 1, self.srcs[1]),
            b32_at(old(f), 2, self.srcs[2]),
        ensures
            final(f).srcs@ == old(f).srcs@,
            final(f).dsts@ == seq![FoldData::U32(spec_lop3_eval(
                self.op.lut,
                bval(old(f), 0, self.srcs[0]),
                bval(old(f), 1, self.srcs[1]),
                bval(old(f), 2, self.srcs[2]),
            ))],
    {
        let a = f.get_u32_bnot_src(0, &self.srcs[0]);
        let b = f.get_u32_bnot_src(1, &self.srcs[1]);
        let c = f.get_u32_bnot_src(2, &self.srcs[2]);
        let dst = self.op.eval(a, b, c);
        f.set_u32_dst(0, dst);
        assert(f.dsts@ =~= seq![FoldData::U32(dst)]);
    }
}

/// Combines three predicates with two set operations; the second result
/// uses the first source inverted.
pub struct OpPSetP {
    pub dsts: [Dst; 2],
    pub ops: [PredSetOp; 2],
    pub srcs: [Src; 3],
}

impl OpPSetP {
    pub fn fold(&self, f: &mut OpFoldData)
        requires
            old(f).dsts@.len() == 2,
            pred_at(old(f), 0, self.srcs[0]),
            pred_at(old(f), 1, self.srcs[1]),
            pred_at(old(f), 2, self.srcs[2]),
        ensures
            final(f).srcs@ == old(f).srcs@,
            final(f).dsts@ == seq![
                FoldData::Pred(spec_pred_set(self.ops[1], pval(old(f), 2, self.srcs[2]),
                    spec_pred_set(self.ops[0], pval(old(f), 0, self.srcs[0]), pval(old(f), 1, self.srcs[1])))),
                FoldData::Pred(spec_pred_set(self.ops[1], pval(old(f), 2, self.srcs[2]),
                    spec_pred_set(self.ops[0], !pval(old(f), 0, self.srcs[0]), pval(old(f), 1, self.srcs[1])))),
            ],
    {
        let a = f.get_pred_src(0, &self.srcs[0]);
        let b = f.get_pred_src(1, &self.srcs[1]);
        let c = f.get_pred_src(2, &self.srcs[2]);
        let tmp = self.ops[0].eval(a, b);
        let dst0 = self.ops[1].eval(c, tmp);
        let tmp = self.ops[0].eval(!a, b);
        let dst1 = self.ops[1].eval(c, tmp);
        f.set_pred_dst(0, dst0);
        f.set_pred_dst(1, dst1);
        assert(f.dsts@ =~= seq![FoldData::Pred(dst0), FoldData::Pred(dst1)]);
    }
}

/// Population count.
pub struct OpPopC {
    pub dst: Dst,
    pub src: Src,
}

/// The number of set bits among the low `k` bits of `x`.
pub open spec fn popcount_low(x: u32, k: nat) -> nat
    decreases k,
{
    if k == 0 { 0 } else { popcount_low(x, (k - 1) as nat) + ((x >> ((k - 1) as u32)) & 1) as nat }
}

/// The number of set bits of `x`.
pub open spec fn popcount(x: u32) -> nat {
    popcount_low(x, 32)
}

fn count_ones(x: u32) -> (r: u32)
    ensures
        r == popcount(x),
{
    let mut n: u32 = 0;
    let mut i: u32 = 0;
    while i < 32
        invariant
            i <= 32,
            n == popcount_low(x, i as nat),
            n <= i,
        decreases 32 - i,
    {
        let bit = (x >> i) & 1;
        assert(bit <= 1) by (bit_vector)
            requires
                bit == (x >> i) & 1,
        ;
        n = n + bit;
        i = i + 1;
    }
    n
}

impl OpPopC {
    pub fn fold(&self, f: &mut OpFoldData)
        requires
            old(f).dsts@.len() == 1,
            b32_at(old(f), 0, self.src),
        ensures
            final(f).srcs@ == old(f).srcs@,
            final(f).dsts@ == seq![FoldData::U32(popcount(bval(old(f), 0, self.src)) as u32)],
    {
        let x = f.get_u32_bnot_src(0, &self.src);
        let dst = count_ones(x);
        f.set_u32_dst(0, dst);
        assert(f.dsts@ =~= seq![FoldData::U32(dst)]);
    }
}

} // verus!
