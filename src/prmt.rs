use vstd::prelude::*;
use crate::fold::{FoldData, OpFoldData};
use crate::int_ops::{u32_at, uval};
use crate::operand::{Dst, Src, SrcRef, SrcType, spec_imm, spec_unmodified};

verus! {

/// One nibble of a permute selector: bit 2 picks the source, bits 0..2
/// the byte, and bit 3 asks for the byte's sign replicated instead.
#[derive(Clone, Copy, PartialEq, Eq, Structural, Debug)]
pub struct PrmtSelByte(pub u8);

/// The source picked by selector nibble `nib`.
pub open spec fn nib_src(nib: u8) -> u8 {
    (nib >> 2u8) & 1
}

/// The byte picked by selector nibble `nib`.
pub open spec fn nib_byte(nib: u8) -> u8 {
    nib & 3
}

pub open spec fn nib_msb(nib: u8) -> bool {
    nib & 8 != 0
}

/// The output byte for nibble `nib` from source value `u`: the picked byte,
/// or all copies of its top bit.
pub open spec fn nib_fold(nib: u8, u: u32) -> u8 {
    let sb = (u >> ((nib_byte(nib) as u32) * 8)) as u8;
    if nib_msb(nib) {
        if sb >= 0x80 { 0xffu8 } else { 0u8 }
    } else {
        sb
    }
}

impl PrmtSelByte {
    /// The nibble marking no selection.
    pub fn invalid() -> (r: PrmtSelByte)
        ensures
            r.0 == 0xff,
    {
        PrmtSelByte(0xff)
    }

    /// The nibble picking byte `byte_idx` of source `src_idx`.
    pub fn new(src_idx: usize, byte_idx: usize, msb: bool) -> (r: PrmtSelByte)
        requires
            src_idx < 2,
            byte_idx < 4,
        ensures
            r.0 <= 0xf,
            nib_src(r.0) == src_idx,
            nib_byte(r.0) == byte_idx,
            nib_msb(r.0) == msb,
    {
        let s = src_idx as u8;
        let b = byte_idx as u8;
        let nib: u8 = (s << 2u8) | b | if msb { 8u8 } else { 0u8 };
        assert(s < 2 && b < 4 && nib == (s << 2u8) | b | 8u8 ==> nib <= 0xf && (nib >> 2u8) & 1 == s && nib & 3 == b
            && nib & 8 != 0) by (bit_vector);
        assert(s < 2 && b < 4 && nib == (s << 2u8) | b | 0u8 ==> nib <= 0xf && (nib >> 2u8) & 1 == s && nib & 3 == b
            && nib & 8 == 0) by (bit_vector);
        PrmtSelByte(nib)
    }

    pub fn src(&self) -> (r: usize)
        ensures
            r == nib_src(self.0),
            r < 2,
    {
        let n = self.0;
        assert((n >> 2u8) & 1 < 2) by (bit_vector);
        ((n >> 2u8) & 1) as usize
    }

    pub fn byte(&self) -> (r: usize)
        ensures
            r == nib_byte(self.0),
            r < 4,
    {
        let n = self.0;
        assert(n & 3 < 4) by (bit_vector);
        (n & 3) as usize
    }

    pub fn msb(&self) -> (r: bool)
        ensures
            r == nib_msb(self.0),
    {
        (self.0 & 8) != 0
    }

    /// The output byte this nibble makes from source value `u`.
    pub fn fold_u32(&self, u: u32) -> (r: u8)
        ensures
            r == nib_fold(self.0, u),
    {
        let sb = (u >> ((self.byte() as u32) * 8)) as u8;
        if self.msb() {
            if sb >= 0x80 { 0xff } else { 0 }
        } else {
            sb
        }
    }
}

/// A permute selector: nibble `i` makes output byte `i`.
#[derive(Clone, Copy, PartialEq, Eq, Structural, Debug)]
pub struct PrmtSel(pub u16);

/// Nibble `i` of selector `sel`.
pub open spec fn sel_nib(sel: u16, i: u32) -> u8 {
    ((sel >> ((i * 4) as u16)) & 0xf) as u8
}

/// The permuted value: output byte `i` is made by nibble `i` of `sel`
/// from the source it picks.
pub open spec fn spec_prmt(sel: u16, s0: u32, s1: u32) -> u32 {
    let b0 = nib_fold(sel_nib(sel, 0), if nib_src(sel_nib(sel, 0)) == 0 { s0 } else { s1 });
    let b1 = nib_fold(sel_nib(sel, 1), if nib_src(sel_nib(sel, 1)) == 0 { s0 } else { s1 });
    let b2 = nib_fold(sel_nib(sel, 2), if nib_src(sel_nib(sel, 2)) == 0 { s0 } else { s1 });
    let b3 = nib_fold(sel_nib(sel, 3), if nib_src(sel_nib(sel, 3)) == 0 { s0 } else { s1 });
    (b0 as u32) | ((b1 as u32) << 8u32) | ((b2 as u32) << 16u32) | ((b3 as u32) << 24u32)
}

impl PrmtSel {
    /// The selector made of four nibbles, output byte 0 first.
    pub fn new(bytes: [PrmtSelByte; 4]) -> (r: PrmtSel)
        requires
            forall|i: int| 0 <= i < 4 ==> #[trigger] bytes[i].0 <= 0xf,
        ensures
            forall|i: int| 0 <= i < 4 ==> #[trigger] sel_nib(r.0, i as u32) == bytes[i].0,
    {
        let a = bytes[0].0 as u16;
        let b = bytes[1].0 as u16;
        let c = bytes[2].0 as u16;
        let d = bytes[3].0 as u16;
        let sel: u16 = a | (b << 4u16) | (c << 8u16) | (d << 12u16);
        assert(a <= 0xf && b <= 0xf && c <= 0xf && d <= 0xf && sel == a | (b << 4u16) | (c << 8u16) | (d << 12u16) ==> (
            (sel >> 0u16) & 0xf == a && (sel >> 4u16) & 0xf == b && (sel >> 8u16) & 0xf == c && (sel >> 12u16) & 0xf == d))
            by (bit_vector);
        let r = PrmtSel(sel);
        assert forall|i: int| 0 <= i < 4 implies #[trigger] sel_nib(r.0, i as u32) == bytes[i].0 by {
            assert(i == 0 || i == 1 || i == 2 || i == 3);
        }
        r
    }

    /// Nibble `byte_idx`.
    pub fn get(&self, byte_idx: usize) -> (r: PrmtSelByte)
        requires
            byte_idx < 4,
        ensures
            r.0 == sel_nib(self.0, byte_idx as u32),
    {
        PrmtSelByte(((self.0 >> ((byte_idx * 4) as u16)) & 0xf) as u8)
    }
}

/// How a permute interprets its selector.
#[derive(Clone, Copy, PartialEq, Eq, Structural, Debug)]
pub enum PrmtMode {
    Index,
    Forward4Extract,
    Backward4Extract,
    Replicate8,
    EdgeClampLeft,
    EdgeClampRight,
    Replicate16,
}

/// Byte permute of two sources.
pub struct OpPrmt {
    pub dst: Dst,
    pub srcs: [Src; 2],
    pub sel: Src,
    pub mode: PrmtMode,
}

/// A literal operand of an ALU slot is unmodified.
pub open spec fn alu_literal_ok(s: Src) -> bool {
    spec_imm(s.src_ref) is Some ==> spec_unmodified(s)
}

fn permute(sel: PrmtSel, s0: u32, s1: u32) -> (r: u32)
    ensures
        r == spec_prmt(sel.0, s0, s1),
{
    let n0 = sel.get(0);
    let n1 = sel.get(1);
    let n2 = sel.get(2);
    let n3 = sel.get(3);
    let b0 = n0.fold_u32(if n0.src() == 0 { s0 } else { s1 });
    let b1 = n1.fold_u32(if n1.src() == 0 { s0 } else { s1 });
    let b2 = n2.fold_u32(if n2.src() == 0 { s0 } else { s1 });
    let b3 = n3.fold_u32(if n3.src() == 0 { s0 } else { s1 });
    (b0 as u32) | ((b1 as u32) << 8u32) | ((b2 as u32) << 16u32) | ((b3 as u32) << 24u32)
}

impl OpPrmt {
    /// The selector, when the mode is `Index` and the selector a literal;
    /// only its low 16 bits count.
    pub fn get_sel(&self) -> (r: Option<PrmtSel>)
        requires
            alu_literal_ok(self.sel),
        ensures
            r == if self.mode is Index && spec_imm(self.sel.src_ref) is Some {
                Some(PrmtSel(spec_imm(self.sel.src_ref).unwrap() as u16))
            } else {
                None::<PrmtSel>
            },
    {
        if self.mode != PrmtMode::Index {
            return None;
        }
        match self.sel.as_u32(SrcType::ALU) {
            Some(sel) => Some(PrmtSel(sel as u16)),
            None => None,
        }
    }

    /// Keeps only the low 16 bits of a literal selector.
    pub fn reduce_sel_imm(&mut self)
        requires
            old(self).sel.src_mod is Plain,
        ensures
            old(self).sel.src_ref matches SrcRef::Imm32(s) ==> final(self).sel.src_ref == SrcRef::Imm32(s & 0xffff),
            !(old(self).sel.src_ref is Imm32) ==> final(self).sel.src_ref == old(self).sel.src_ref,
            final(self).sel.src_mod == old(self).sel.src_mod,
            final(self).mode == old(self).mode,
    {
        let imm = match &self.sel.src_ref {
            SrcRef::Imm32(s) => Some(*s),
            _ => None,
        };
        if let Some(s) = imm {
            self.sel.src_ref = SrcRef::Imm32(s & 0xffff);
        }
    }

    /// The permuted value, when the mode is `Index` and the selector and
    /// both sources are literals.
    pub fn as_u32(&self) -> (r: Option<u32>)
        requires
            alu_literal_ok(self.sel),
            alu_literal_ok(self.srcs[0]),
            alu_literal_ok(self.srcs[1]),
        ensures
            r == if self.mode is Index && spec_imm(self.sel.src_ref) is Some && spec_imm(self.srcs[0].src_ref) is Some
                && spec_imm(self.srcs[1].src_ref) is Some {
                Some(spec_prmt(
                    spec_imm(self.sel.src_ref).unwrap() as u16,
                    spec_imm(self.srcs[0].src_ref).unwrap(),
                    spec_imm(self.srcs[1].src_ref).unwrap(),
                ))
            } else {
                None::<u32>
            },
    {
        let sel = match self.get_sel() {
            Some(sel) => sel,
            None => {
                return None;
            },
        };
        let s0 = match self.srcs[0].as_u32(SrcType::ALU) {
            Some(u) => u,
            None => {
                return None;
            },
        };
        let s1 = match self.srcs[1].as_u32(SrcType::ALU) {
            Some(u) => u,
            None => {
                return None;
            },
        };
        Some(permute(sel, s0, s1))
    }

    /// Folds the permute; only the `Index` mode is folded.
    pub fn fold(&self, f: &mut OpFoldData)
        requires
            self.mode is Index,
            old(f).dsts@.len() == 1,
            u32_at(old(f), 0, self.srcs[0]),
            u32_at(old(f), 1, self.srcs[1]),
            u32_at(old(f), 2, self.sel),
        ensures
            final(f).srcs@ == old(f).srcs@,
            final(f).dsts@ == seq![FoldData::U32(spec_prmt(
                uval(old(f), 2, self.sel) as u16,
                uval(old(f), 0, self.srcs[0]),
                uval(old(f), 1, self.srcs[1]),
            ))],
    {
        let s0 = f.get_u32_src(0, &self.srcs[0]);
        let s1 = f.get_u32_src(1, &self.srcs[1]);
        let sel = f.get_u32_src(2, &self.sel);
        let dst = permute(PrmtSel(sel as u16), s0, s1);
        f.set_u32_dst(0, dst);
        assert(f.dsts@ =~= seq![FoldData::U32(dst)]);
    }
}

} // verus!
