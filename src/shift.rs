use vstd::prelude::*;
use crate::fold::{FoldData, OpFoldData};
use crate::int_ops::{u32_at, uval};
use crate::operand::{Dst, Src, SrcRef};
use crate::types::{IntType, spec_int_type_bits, spec_int_type_signed};

verus! {

/// The shift actually applied for a requested `shift` on a `bits`-wide
/// value: reduced modulo `bits` in wrap mode, clamped to `bits` otherwise.
pub open spec fn shift_amount(shift: u32, wrap: bool, bits: u32) -> u32 {
    if wrap {
        shift & ((bits - 1) as u32)
    } else if shift < bits {
        shift
    } else {
        bits
    }
}

/// `x << s`, or zero once every bit is shifted out.
pub open spec fn shl32(x: u32, s: u32) -> u32 {
    if s >= 32 { 0 } else { (x << s) as u32 }
}

/// `x >> s`, or zero once every bit is shifted out.
pub open spec fn shr32(x: u32, s: u32) -> u32 {
    if s >= 32 { 0 } else { x >> s }
}

/// `x >> s` with the sign bit copied into the vacated bits; a shift of 32
/// or more leaves only copies of the sign bit.
pub open spec fn sar32(x: u32, s: u32) -> u32 {
    let s = if s >= 32 { 31 } else { s };
    if x >= 0x8000_0000 { !((!x) >> s) } else { x >> s }
}

/// The folded 32-bit left shift.
pub open spec fn spec_shl(x: u32, shift: u32, wrap: bool) -> u32 {
    shl32(x, shift_amount(shift, wrap, 32))
}

/// The folded 32-bit right shift, arithmetic when signed.
pub open spec fn spec_shr(x: u32, shift: u32, wrap: bool, signed: bool) -> u32 {
    let s = shift_amount(shift, wrap, 32);
    if signed { sar32(x, s) } else { shr32(x, s) }
}

pub open spec fn shl64(x: u64, s: u32) -> u64 {
    if s >= 64 { 0 } else { (x << s) as u64 }
}

pub open spec fn shr64(x: u64, s: u32) -> u64 {
    if s >= 64 { 0 } else { x >> s }
}

pub open spec fn sar64(x: u64, s: u32) -> u64 {
    let s = if s >= 64 { 63 } else { s };
    if x >= 0x8000_0000_0000_0000 { !((!x) >> s) } else { x >> s }
}

fn shl32_exec(x: u32, s: u32) -> (r: u32)
    ensures
        r == shl32(x, s),
{
    if s >= 32 { 0 } else { x << s }
}

fn shr32_exec(x: u32, s: u32) -> (r: u32)
    ensures
        r == shr32(x, s),
{
    if s >= 32 { 0 } else { x >> s }
}

fn sar32_exec(x: u32, s: u32) -> (r: u32)
    ensures
        r == sar32(x, s),
{
    let s = if s >= 32 { 31 } else { s };
    if x >= 0x8000_0000 { !((!x) >> s) } else { x >> s }
}

fn shl64_exec(x: u64, s: u32) -> (r: u64)
    ensures
        r == shl64(x, s),
{
    if s >= 64 { 0 } else { x << s }
}

fn shr64_exec(x: u64, s: u32) -> (r: u64)
    ensures
        r == shr64(x, s),
{
    if s >= 64 { 0 } else { x >> s }
}

fn sar64_exec(x: u64, s: u32) -> (r: u64)
    ensures
        r == sar64(x, s),
{
    let s = if s >= 64 { 63 } else { s };
    if x >= 0x8000_0000_0000_0000 { !((!x) >> s) } else { x >> s }
}

fn shift_amount_exec(shift: u32, wrap: bool, bits: u32) -> (r: u32)
    requires
        bits >= 1,
    ensures
        r == shift_amount(shift, wrap, bits),
{
    if wrap {
        shift & (bits - 1)
    } else if shift < bits {
        shift
    } else {
        bits
    }
}

/// Reduces an immediate shift amount as the shift would: modulo `bits` in
/// wrap mode, clamped to `bits` otherwise. Other sources stay as they are.
pub fn reduce_shift_imm(shift: &mut Src, wrap: bool, bits: u32)
    requires
        bits >= 1,
        old(shift).src_mod is Plain,
    ensures
        final(shift).src_mod == old(shift).src_mod,
        final(shift).src_swizzle == old(shift).src_swizzle,
        old(shift).src_ref matches SrcRef::Imm32(s) ==> final(shift).src_ref == SrcRef::Imm32(shift_amount(s, wrap, bits)),
        !(old(shift).src_ref is Imm32) ==> final(shift).src_ref == old(shift).src_ref,
{
    let imm = match &shift.src_ref {
        SrcRef::Imm32(s) => Some(*s),
        _ => None,
    };
    if let Some(s) = imm {
        shift.src_ref = SrcRef::Imm32(shift_amount_exec(s, wrap, bits));
    }
}

/// Funnel shift of the 64-bit pair `high:low`.
pub struct OpShf {
    pub dst: Dst,
    pub low: Src,
    pub high: Src,
    pub shift: Src,
    pub right: bool,
    pub wrap: bool,
    pub data_type: IntType,
    pub dst_high: bool,
}

/// The folded funnel shift on shader model `sm`: `high:low` shifted by the
/// reduced amount (arithmetically for a signed right shift), then the high
/// word when asked (or for a left shift before SM70), else the low word.
/// Before SM70 a high-word shift of a type narrower than 64 bits is logical.
pub open spec fn spec_shf(
    low: u32,
    high: u32,
    shift: u32,
    right: bool,
    wrap: bool,
    data_type: IntType,
    dst_high: bool,
    sm: u8,
) -> u32 {
    let bits = spec_int_type_bits(data_type) as u32;
    let s = shift_amount(shift, wrap, bits);
    let x = ((low as u64) | ((high as u64) << 32u64)) as u64;
    let shifted = if sm < 70 && dst_high && !(data_type is I64) {
        if right { shr64(x, s) } else { shl64(x, s) }
    } else if spec_int_type_signed(data_type) {
        if right { sar64(x, s) } else { shl64(x, s) }
    } else {
        if right { shr64(x, s) } else { shl64(x, s) }
    };
    if (sm < 70 && !right) || dst_high {
        (shifted >> 32u64) as u32
    } else {
        shifted as u32
    }
}

impl OpShf {
    /// Reduces the shift immediate, if any.
    pub fn reduce_shift_imm(&mut self)
        requires
            old(self).shift.src_mod is Plain,
        ensures
            final(self).shift.src_mod == old(self).shift.src_mod,
            old(self).shift.src_ref matches SrcRef::Imm32(s) ==> final(self).shift.src_ref
                == SrcRef::Imm32(shift_amount(s, old(self).wrap, spec_int_type_bits(old(self).data_type) as u32)),
            !(old(self).shift.src_ref is Imm32) ==> final(self).shift.src_ref == old(self).shift.src_ref,
            final(self).wrap == old(self).wrap,
            final(self).data_type == old(self).data_type,
    {
        let bits = self.data_type.bits() as u32;
        reduce_shift_imm(&mut self.shift, self.wrap, bits);
    }

    /// Folds the shift; `sm` is the shader model number.
    pub fn fold(&self, sm: u8, f: &mut OpFoldData)
        requires
            old(f).dsts@.len() == 1,
            u32_at(old(f), 0, self.low),
            u32_at(old(f), 1, self.high),
            u32_at(old(f), 2, self.shift),
        ensures
            final(f).srcs@ == old(f).srcs@,
            final(f).dsts@ == seq![FoldData::U32(spec_shf(
                uval(old(f), 0, self.low),
                uval(old(f), 1, self.high),
                uval(old(f), 2, self.shift),
                self.right,
                self.wrap,
                self.data_type,
                self.dst_high,
                sm,
            ))],
    {
        let low = f.get_u32_src(0, &self.low);
        let high = f.get_u32_src(1, &self.high);
        let shift = f.get_u32_src(2, &self.shift);

        let bits = self.data_type.bits() as u32;
        let s = shift_amount_exec(shift, self.wrap, bits);
        let x = (low as u64) | ((high as u64) << 32u64);
        let shifted = if sm < 70 && self.dst_high && self.data_type != IntType::I64 {
            if self.right { shr64_exec(x, s) } else { shl64_exec(x, s) }
        } else if self.data_type.is_signed() {
            if self.right { sar64_exec(x, s) } else { shl64_exec(x, s) }
        } else {
            if self.right { shr64_exec(x, s) } else { shl64_exec(x, s) }
        };
        let dst = if (sm < 70 && !self.right) || self.dst_high {
            (shifted >> 32u64) as u32
        } else {
            shifted as u32
        };
        f.set_u32_dst(0, dst);
        assert(f.dsts@ =~= seq![FoldData::U32(dst)]);
    }
}

/// 32-bit left shift.
pub struct OpShl {
    pub dst: Dst,
    pub src: Src,
    pub shift: Src,
    pub wrap: bool,
}

impl OpShl {
    /// Reduces the shift immediate, if any.
    pub fn reduce_shift_imm(&mut self)
        requires
            old(self).shift.src_mod is Plain,
        ensures
            final(self).shift.src_mod == old(self).shift.src_mod,
            old(self).shift.src_ref matches SrcRef::Imm32(s) ==> final(self).shift.src_ref
                == SrcRef::Imm32(shift_amount(s, old(self).wrap, 32)),
            !(old(self).shift.src_ref is Imm32) ==> final(self).shift.src_ref == old(self).shift.src_ref,
            final(self).wrap == old(self).wrap,
    {
        reduce_shift_imm(&mut self.shift, self.wrap, 32);
    }

    pub fn fold(&self, f: &mut OpFoldData)
        requires
            old(f).dsts@.len() == 1,
            u32_at(old(f), 0, self.src),
            u32_at(old(f), 1, self.shift),
        ensures
            final(f).srcs@ == old(f).srcs@,
            final(f).dsts@ == seq![FoldData::U32(spec_shl(uval(old(f), 0, self.src), uval(old(f), 1, self.shift), self.wrap))],
    {
        let x = f.get_u32_src(0, &self.src);
        let shift = f.get_u32_src(1, &self.shift);
        let s = shift_amount_exec(shift, self.wrap, 32);
        let dst = shl32_exec(x, s);
        f.set_u32_dst(0, dst);
        assert(f.dsts@ =~= seq![FoldData::U32(dst)]);
    }
}

/// 32-bit right shift, arithmetic when signed.
pub struct OpShr {
    pub dst: Dst,
    pub src: Src,
    pub shift: Src,
    pub wrap: bool,
    pub signed: bool,
}

impl OpShr {
    /// Reduces the shift immediate, if any.
    pub fn reduce_shift_imm(&mut self)
        requires
            old(self).shift.src_mod is Plain,
        ensures
            final(self).shift.src_mod == old(self).shift.src_mod,
            old(self).shift.src_ref matches SrcRef::Imm32(s) ==> final(self).shift.src_ref
                == SrcRef::Imm32(shift_amount(s, old(self).wrap, 32)),
            !(old(self).shift.src_ref is Imm32) ==> final(self).shift.src_ref == old(self).shift.src_ref,
            final(self).wrap == old(self).wrap,
    {
        reduce_shift_imm(&mut self.shift, self.wrap, 32);
    }

    pub fn fold(&self, f: &mut OpFoldData)
        requires
            old(f).dsts@.len() == 1,
            u32_at(old(f), 0, self.src),
            u32_at(old(f), 1, self.shift),
        ensures
            final(f).srcs@ == old(f).srcs@,
            final(f).dsts@ == seq![FoldData::U32(spec_shr(uval(old(f), 0, self.src), uval(old(f), 1, self.shift), self.wrap, self.signed))],
    {
        let x = f.get_u32_src(0, &self.src);
        let shift = f.get_u32_src(1, &self.shift);
        let s = shift_amount_exec(shift, self.wrap, 32);
        let dst = if self.signed { sar32_exec(x, s) } else { shr32_exec(x, s) };
        f.set_u32_dst(0, dst);
        assert(f.dsts@ =~= seq![FoldData::U32(dst)]);
    }
}

/// Out-of-range shifts: clamped, a shift by 35 leaves nothing of a left or
/// logical right shift and only sign copies of an arithmetic one; wrapped,
/// it is a shift by 3.
pub proof fn lemma_shift_clamp_vs_wrap(x: u32)
    ensures
        spec_shl(x, 35, false) == 0,
        spec_shr(x, 35, false, false) == 0,
        spec_shr(x, 35, false, true) == if x >= 0x8000_0000 { 0xffff_ffffu32 } else { 0u32 },
        spec_shl(x, 35, true) == (x << 3u32) as u32,
        spec_shr(x, 35, true, false) == x >> 3u32,
        spec_shr(x, 35, true, true) == sar32(x, 3),
{
    assert(35u32 & 31u32 == 3u32) by (bit_vector);
    assert(x >= 0x8000_0000 ==> !((!x) >> 31u32) == 0xffff_ffffu32) by (bit_vector);
    assert(x < 0x8000_0000 ==> x >> 31u32 == 0u32) by (bit_vector);
}

} // verus!
