use vstd::prelude::*;
use crate::bits::{bit_range, get_bits};
use crate::fold::{FoldData, OpFoldData};
use crate::int_ops::{as_signed, low32, two_32, u32_at, uval};
use crate::operand::{Dst, Src};

verus! {

/// Which part of a source register an extracting multiply-add reads, and
/// whether signed.
#[derive(Clone, Copy, PartialEq, Eq, Structural, Debug)]
pub enum IMadSpSrcType {
    U32,
    U24,
    U16Hi,
    U16Lo,
    S32,
    S24,
    S16Hi,
    S16Lo,
}

pub open spec fn spec_unsigned(t: IMadSpSrcType) -> IMadSpSrcType {
    match t {
        IMadSpSrcType::S32 => IMadSpSrcType::U32,
        IMadSpSrcType::S24 => IMadSpSrcType::U24,
        IMadSpSrcType::S16Hi => IMadSpSrcType::U16Hi,
        IMadSpSrcType::S16Lo => IMadSpSrcType::U16Lo,
        _ => t,
    }
}

pub open spec fn spec_sign(t: IMadSpSrcType) -> bool {
    t is S32 || t is S24 || t is S16Hi || t is S16Lo
}

/// The value a source of type `t` holding `v` stands for.
pub open spec fn spec_cast(t: IMadSpSrcType, v: u32) -> int {
    match t {
        IMadSpSrcType::U32 => v as int,
        IMadSpSrcType::U24 => bit_range(v, 0, 24) as int,
        IMadSpSrcType::U16Lo => bit_range(v, 0, 16) as int,
        IMadSpSrcType::U16Hi => bit_range(v, 16, 16) as int,
        IMadSpSrcType::S32 => as_signed(v),
        IMadSpSrcType::S24 => if bit_range(v, 0, 24) >= 0x80_0000 { bit_range(v, 0, 24) - 0x100_0000 } else { bit_range(v, 0, 24) as int },
        IMadSpSrcType::S16Lo => if bit_range(v, 0, 16) >= 0x8000 { bit_range(v, 0, 16) - 0x1_0000 } else { bit_range(v, 0, 16) as int },
        IMadSpSrcType::S16Hi => if bit_range(v, 16, 16) >= 0x8000 { bit_range(v, 16, 16) - 0x1_0000 } else { bit_range(v, 16, 16) as int },
    }
}

impl IMadSpSrcType {
    pub fn unsigned(self) -> (r: IMadSpSrcType)
        ensures
            r == spec_unsigned(self),
    {
        match self {
            IMadSpSrcType::S32 => IMadSpSrcType::U32,
            IMadSpSrcType::S24 => IMadSpSrcType::U24,
            IMadSpSrcType::S16Hi => IMadSpSrcType::U16Hi,
            IMadSpSrcType::S16Lo => IMadSpSrcType::U16Lo,
            x => x,
        }
    }

    /// The same part, signed or unsigned as asked.
    pub fn with_sign(self, sign: bool) -> (r: Self)
        ensures
            spec_unsigned(r) == spec_unsigned(self),
            spec_sign(r) == sign,
    {
        if !sign {
            return self.unsigned();
        }
        match self {
            IMadSpSrcType::U32 => IMadSpSrcType::S32,
            IMadSpSrcType::U24 => IMadSpSrcType::S24,
            IMadSpSrcType::U16Hi => IMadSpSrcType::S16Hi,
            IMadSpSrcType::U16Lo => IMadSpSrcType::S16Lo,
            x => x,
        }
    }

    pub fn sign(self) -> (r: bool)
        ensures
            r == spec_sign(self),
    {
        match self {
            IMadSpSrcType::U32 | IMadSpSrcType::U24 | IMadSpSrcType::U16Hi | IMadSpSrcType::U16Lo => false,
            IMadSpSrcType::S32 | IMadSpSrcType::S24 | IMadSpSrcType::S16Hi | IMadSpSrcType::S16Lo => true,
        }
    }

    /// The value a source of this type holding `v` stands for.
    pub fn cast(&self, v: u32) -> (r: i64)
        ensures
            r == spec_cast(*self, v),
    {
        match self {
            IMadSpSrcType::U32 => v as i64,
            IMadSpSrcType::U24 => get_bits(v, 0, 24) as i64,
            IMadSpSrcType::U16Lo => get_bits(v, 0, 16) as i64,
            IMadSpSrcType::U16Hi => get_bits(v, 16, 16) as i64,
            IMadSpSrcType::S32 => {
                if v >= 0x8000_0000 { v as i64 - 0x1_0000_0000i64 } else { v as i64 }
            },
            IMadSpSrcType::S24 => {
                let u = get_bits(v, 0, 24);
                if u >= 0x80_0000 { u as i64 - 0x100_0000i64 } else { u as i64 }
            },
            IMadSpSrcType::S16Lo => {
                let u = get_bits(v, 0, 16);
                if u >= 0x8000 { u as i64 - 0x1_0000i64 } else { u as i64 }
            },
            IMadSpSrcType::S16Hi => {
                let u = get_bits(v, 16, 16);
                if u >= 0x8000 { u as i64 - 0x1_0000i64 } else { u as i64 }
            },
        }
    }
}

/// Where the source types of an extracting multiply-add come from.
#[derive(Clone, Copy, Debug)]
pub enum IMadSpMode {
    Explicit([IMadSpSrcType; 3]),
    /// Taken from bits 26..32 of the second source.
    FromSrc1,
}

/// Extracting integer multiply-add (Kepler): `srcs[0] * srcs[1] + srcs[2]`
/// on parts of the registers. The second source is never a full or high
/// 32-bit or 16-bit part.
pub struct OpIMadSp {
    pub dst: Dst,
    pub srcs: [Src; 3],
    pub mode: IMadSpMode,
}

/// The source types that bits 26..32 of `src1` select.
pub open spec fn types_from_src1(src1: u32) -> (IMadSpSrcType, IMadSpSrcType, IMadSpSrcType) {
    let st2 = bit_range(src1, 26, 2);
    let st1 = bit_range(src1, 28, 2);
    let st0 = bit_range(src1, 30, 2);
    let t0 = if st0 == 0 {
        IMadSpSrcType::U32
    } else if st0 == 1 {
        IMadSpSrcType::U24
    } else if st0 == 2 {
        IMadSpSrcType::U16Lo
    } else {
        IMadSpSrcType::U16Hi
    };
    let t1 = if st1 == 1 || st1 == 3 { IMadSpSrcType::U24 } else { IMadSpSrcType::U16Lo };
    let t2 = if st2 == 1 {
        IMadSpSrcType::U24
    } else if st2 == 2 {
        IMadSpSrcType::U16Lo
    } else {
        IMadSpSrcType::U32
    };
    (t0, t1, t2)
}

/// The second source's type reads at most 24 bits.
pub open spec fn src1_type_ok(t: IMadSpSrcType) -> bool {
    !(t is U32) && !(t is S32) && !(t is U16Hi) && !(t is S16Hi)
}

pub open spec fn imadsp_mode_ok(mode: IMadSpMode) -> bool {
    mode matches IMadSpMode::Explicit(t) ==> src1_type_ok(t[1])
}

/// The folded multiply-add.
pub open spec fn spec_imadsp(mode: IMadSpMode, s0: u32, s1: u32, s2: u32) -> u32 {
    let (t0, t1, t2) = match mode {
        IMadSpMode::Explicit(t) => (t[0], t[1], t[2]),
        IMadSpMode::FromSrc1 => types_from_src1(s1),
    };
    low32(spec_cast(t0, s0) * spec_cast(t1, s1) + spec_cast(t2, s2))
}

fn type_from_table(st: u32, t0: IMadSpSrcType, t1: IMadSpSrcType, t2: IMadSpSrcType, t3: IMadSpSrcType) -> (r: IMadSpSrcType)
    ensures
        r == if st == 0 { t0 } else if st == 1 { t1 } else if st == 2 { t2 } else { t3 },
{
    if st == 0 {
        t0
    } else if st == 1 {
        t1
    } else if st == 2 {
        t2
    } else {
        t3
    }
}

impl OpIMadSp {
    pub fn fold(&self, f: &mut OpFoldData)
        requires
            old(f).dsts@.len() == 1,
            u32_at(old(f), 0, self.srcs[0]),
            u32_at(old(f), 1, self.srcs[1]),
            u32_at(old(f), 2, self.srcs[2]),
            imadsp_mode_ok(self.mode),
        ensures
            final(f).srcs@ == old(f).srcs@,
            final(f).dsts@ == seq![FoldData::U32(spec_imadsp(self.mode, uval(old(f), 0, self.srcs[0]),
                uval(old(f), 1, self.srcs[1]), uval(old(f), 2, self.srcs[2])))],
    {
        let s0 = f.get_u32_src(0, &self.srcs[0]);
        let s1 = f.get_u32_src(1, &self.srcs[1]);
        let s2 = f.get_u32_src(2, &self.srcs[2]);

        let (t0, t1, t2) = match self.mode {
            IMadSpMode::Explicit(t) => (t[0], t[1], t[2]),
            IMadSpMode::FromSrc1 => {
                let st2 = get_bits(s1, 26, 2);
                let st1 = get_bits(s1, 28, 2);
                let st0 = get_bits(s1, 30, 2);
                assert(bit_range(s1, 26, 2) < 4 && bit_range(s1, 28, 2) < 4) by (bit_vector);
                (
                    type_from_table(st0, IMadSpSrcType::U32, IMadSpSrcType::U24, IMadSpSrcType::U16Lo, IMadSpSrcType::U16Hi),
                    type_from_table(st1, IMadSpSrcType::U16Lo, IMadSpSrcType::U24, IMadSpSrcType::U16Lo, IMadSpSrcType::U24),
                    type_from_table(st2, IMadSpSrcType::U32, IMadSpSrcType::U24, IMadSpSrcType::U16Lo, IMadSpSrcType::U32),
                )
            },
        };
        let a = t0.cast(s0);
        let b = t1.cast(s1);
        let c = t2.cast(s2);
        proof {
            assert(bit_range(s1, 0, 24) < 0x100_0000 && bit_range(s1, 0, 16) < 0x1_0000) by (bit_vector);
            assert(-0x1_0000_0000 <= a <= 0x1_0000_0000);
            assert(-0x100_0000 <= b <= 0x100_0000);
            assert(-0x1_0000_0000 <= c <= 0x1_0000_0000);
            vstd::arithmetic::mul::lemma_mul_upper_bound(if a >= 0 { a as int } else { -a }, 0x1_0000_0000, if b >= 0 { b as int } else { -b }, 0x100_0000);
            assert(-0x100_0000_0000_0000 <= a * b <= 0x100_0000_0000_0000) by (nonlinear_arith)
                requires
                    -0x1_0000_0000 <= a <= 0x1_0000_0000,
                    -0x100_0000 <= b <= 0x100_0000,
            ;
        }
        let sum = a * b + c;
        // Shifted up by a multiple of 2^32 so that the low word is taken
        // from a non-negative value.
        let shifted = (sum + 0x1000_0000_0000_0000i64) as u64;
        let dst = (shifted % 0x1_0000_0000u64) as u32;
        proof {
            vstd::arithmetic::div_mod::lemma_mod_multiples_vanish(0x1000_0000, sum as int, two_32());
            assert(0x1000_0000_0000_0000int == two_32() * 0x1000_0000);
        }
        f.set_u32_dst(0, dst);
        assert(f.dsts@ =~= seq![FoldData::U32(dst)]);
    }
}

} // verus!
