use vstd::prelude::*;
use crate::bits::{bit_range, bit_set, get_bit, get_bits};
use crate::fold::{FoldData, OpFoldData};
use crate::int_ops::{as_signed, u32_at, uval};
use crate::operand::{Dst, Src};

verus! {

/// How a surface clamp lays out its result.
#[derive(Clone, Copy, PartialEq, Eq, Structural, Debug)]
pub enum SuClampMode {
    /// Pitch-linear or block-linear, as bit 21 of the parameters says.
    StoredInDescriptor,
    PitchLinear,
    BlockLinear,
}

/// To what multiple the clamp bound is rounded down.
#[derive(Clone, Copy, PartialEq, Eq, Structural, Debug)]
pub enum SuClampRound {
    R1,
    R2,
    R4,
    R8,
    R16,
}

pub open spec fn spec_round_int(r: SuClampRound) -> u8 {
    match r {
        SuClampRound::R1 => 1,
        SuClampRound::R2 => 2,
        SuClampRound::R4 => 4,
        SuClampRound::R8 => 8,
        SuClampRound::R16 => 16,
    }
}

/// The mask rounding a bound down to a multiple of the rounding.
pub open spec fn spec_round_mask(r: SuClampRound) -> u32 {
    !((spec_round_int(r) - 1) as u32)
}

impl SuClampRound {
    pub fn to_int(&self) -> (r: u8)
        ensures
            r == spec_round_int(*self),
    {
        match self {
            SuClampRound::R1 => 1,
            SuClampRound::R2 => 2,
            SuClampRound::R4 => 4,
            SuClampRound::R8 => 8,
            SuClampRound::R16 => 16,
        }
    }

    pub fn to_mask(&self) -> (r: u32)
        ensures
            r == spec_round_mask(*self),
    {
        !(self.to_int() as u32 - 1)
    }
}

/// Surface coordinate clamp (Kepler). Clamps a coordinate into
/// `0..=bound` and packs what block-linear or pitch-linear addressing
/// needs next. The parameters hold the inclusive bound in bits 0..20, the
/// layout in bit 21, the coordinate right shift in bits 22..26, the
/// element size log2 in bits 26..29 and the tile count in bits 29..32.
pub struct OpSuClamp {
    pub dst: Dst,
    pub out_of_bounds: Dst,
    pub mode: SuClampMode,
    pub round: SuClampRound,
    pub is_s32: bool,
    pub is_2d: bool,
    pub coords: Src,
    pub params: Src,
    /// Added to the coordinate; a 6-bit signed value.
    pub imm: i8,
}

/// Whether the clamp uses the pitch-linear layout.
pub open spec fn suclamp_pitch_linear(mode: SuClampMode, params: u32) -> bool {
    match mode {
        SuClampMode::StoredInDescriptor => bit_set(params, 21),
        SuClampMode::PitchLinear => true,
        SuClampMode::BlockLinear => false,
    }
}

/// Whether a coordinate is out of bounds, and the clamped coordinate.
pub open spec fn clamp_coord(src: int, bounds: u32) -> (bool, u32) {
    if src < 0 {
        (true, 0)
    } else if src > bounds {
        (true, bounds)
    } else {
        (false, src as u32)
    }
}

/// The folded clamp: the packed result and the out-of-bounds flag.
pub open spec fn spec_suclamp(
    mode: SuClampMode,
    round: SuClampRound,
    is_s32: bool,
    is_2d: bool,
    coords: u32,
    params: u32,
    imm: i8,
) -> (u32, bool) {
    let src = (if is_s32 { as_signed(coords) } else { coords as int }) + imm;
    let pitch_linear = suclamp_pitch_linear(mode, params);
    let bounds = if pitch_linear && !is_2d { params } else { bit_range(params, 0, 20) };
    let bounds = bounds & spec_round_mask(round);
    let (is_oob, clamped) = clamp_coord(src, bounds);
    let oob_bit: u32 = if is_oob { 0x8000_0000 } else { 0 };
    let out = if pitch_linear {
        if !is_2d {
            clamped
        } else {
            (clamped & 0xfffff) | ((bit_range(params, 26, 3) << 27u32) as u32) | 0x4000_0000u32 | oob_bit
        }
    } else {
        let shr_a = bit_range(params, 22, 4);
        let el_size_log2 = bit_range(params, 26, 3);
        let n_tiles = bit_range(params, 29, 3);
        ((clamped >> shr_a) & 0xffff) | (((((clamped << el_size_log2) as u32) & 0xff) << 16u32) as u32)
            | ((n_tiles << 27u32) as u32) | oob_bit
    };
    (out, is_oob)
}

impl OpSuClamp {
    pub fn fold(&self, f: &mut OpFoldData)
        requires
            old(f).dsts@.len() == 2,
            u32_at(old(f), 0, self.coords),
            u32_at(old(f), 1, self.params),
        ensures
            final(f).srcs@ == old(f).srcs@,
            final(f).dsts@ == seq![
                FoldData::U32(spec_suclamp(self.mode, self.round, self.is_s32, self.is_2d,
                    uval(old(f), 0, self.coords), uval(old(f), 1, self.params), self.imm).0),
                FoldData::Pred(spec_suclamp(self.mode, self.round, self.is_s32, self.is_2d,
                    uval(old(f), 0, self.coords), uval(old(f), 1, self.params), self.imm).1),
            ],
    {
        let coords = f.get_u32_src(0, &self.coords);
        let params = f.get_u32_src(1, &self.params);

        let src: i64 = if self.is_s32 {
            if coords >= 0x8000_0000 {
                coords as i64 - 0x1_0000_0000i64
            } else {
                coords as i64
            }
        } else {
            coords as i64
        };
        let src = src + self.imm as i64;

        let pitch_linear = match self.mode {
            SuClampMode::StoredInDescriptor => get_bit(params, 21),
            SuClampMode::PitchLinear => true,
            SuClampMode::BlockLinear => false,
        };
        let bounds = if pitch_linear && !self.is_2d { params } else { get_bits(params, 0, 20) };
        let bounds = bounds & self.round.to_mask();
        let (is_oob, clamped) = if src < 0 {
            (true, 0u32)
        } else if src > bounds as i64 {
            (true, bounds)
        } else {
            (false, src as u32)
        };
        let oob_bit: u32 = if is_oob { 0x8000_0000 } else { 0 };

        let out = if pitch_linear {
            if !self.is_2d {
                // A plain clamp, with no bit fields.
                clamped
            } else {
                // Pitch-linear: the coordinate, the element size log2
                // passed through, the layout bit and the bounds flag.
                (clamped & 0xfffff) | (get_bits(params, 26, 3) << 27u32) | 0x4000_0000u32 | oob_bit
            }
        } else {
            // Block-linear: the block coordinate (with the bits that select
            // a place in a GOB dropped), the in-GOB coordinate in element
            // space, the tile count and the bounds flag.
            let shr_a = get_bits(params, 22, 4);
            let el_size_log2 = get_bits(params, 26, 3);
            let n_tiles = get_bits(params, 29, 3);
            assert(shr_a == bit_range(params, 22, 4) && el_size_log2 == bit_range(params, 26, 3) ==> shr_a < 16
                && el_size_log2 < 8) by (bit_vector);
            ((clamped >> shr_a) & 0xffff) | (((clamped << el_size_log2) & 0xff) << 16u32) | (n_tiles << 27u32)
                | oob_bit
        };
        f.set_u32_dst(0, out);
        f.set_pred_dst(1, is_oob);
        assert(f.dsts@ =~= seq![FoldData::U32(out), FoldData::Pred(is_oob)]);
    }
}

/// Surface bit-field merge (Kepler): from the clamped x, y and z words,
/// the low address bits inside a GOB (bits 0..9), the layout bit (11), the
/// GOB coordinate bit count (12..16) and the GOB offset inside a block
/// (16..27); for pitch-linear 2D, the scaled low byte of z (0..8) and the
/// element size log2 (12..15).
pub struct OpSuBfm {
    pub dst: Dst,
    pub pdst: Dst,
    /// x, y and z.
    pub srcs: [Src; 3],
    /// Without it z counts only for pitch-linear addressing.
    pub is_3d: bool,
}

/// The low `n` bits of `v`.
pub open spec fn low_bits64(v: u64, n: u64) -> u64 {
    v & (((1u64 << n) - 1) as u64)
}

pub open spec fn min5(v: u64) -> u64 {
    if v < 5 { v } else { 5 }
}

pub open spec fn bit_u32(b: bool, at: u32) -> u32 {
    if b { (1u32 << at) as u32 } else { 0 }
}

/// The folded bit-field merge and the out-of-bounds flag.
pub open spec fn spec_subfm(x: u32, y: u32, z: u32, is_3d: bool) -> (u32, bool) {
    let is_pitch_linear_2d = bit_set(x, 30) || bit_set(y, 30);
    let o = if !is_pitch_linear_2d {
        let ntx = (bit_range(x, 27, 3) & 1) as u64;
        let nty = bit_range(y, 27, 3) as u64;
        let ntz = if is_3d { bit_range(z, 27, 3) as u64 } else { 0u64 };
        let a = low_bits64(bit_range(x, 22, 2) as u64, ntx);
        let b = low_bits64(bit_range(y, 19, 5) as u64, min5(nty));
        let c = low_bits64(bit_range(z, 16, 8) as u64, min5(ntz));
        let res = ((((((c << nty) as u64) | b) << ntx) as u64) | a) as u64;
        let mask: u64 = if ntx == 0 { 0x3ff } else { 0x7ff };
        bit_range(x, 16, 4) | bit_u32(bit_set(y, 16), 4) | bit_u32(bit_set(y, 17), 5) | bit_u32(bit_set(x, 20), 6)
            | bit_u32(bit_set(y, 18), 7) | bit_u32(bit_set(x, 21), 8) | ((((ntx + nty + ntz) as u32) << 12u32) as u32)
            | ((((res & mask) as u32) << 16u32) as u32)
    } else {
        let d = bit_range(z, 0, 8);
        let el_size_log2 = bit_range(x, 27, 3);
        (((d << el_size_log2) as u32) & 0xff) | ((el_size_log2 << 12u32) as u32)
    };
    let is_oob = bit_set(x, 31) || bit_set(y, 31) || (bit_set(z, 31) && is_3d);
    (o | bit_u32(is_pitch_linear_2d, 11), is_oob)
}

fn bit_at(b: bool, at: u32) -> (r: u32)
    requires
        at < 32,
    ensures
        r == bit_u32(b, at),
{
    if b { 1u32 << at } else { 0 }
}

fn low_bits64_exec(v: u64, n: u64) -> (r: u64)
    requires
        n <= 7,
    ensures
        r == low_bits64(v, n),
{
    assert(n <= 7 ==> (1u64 << n) >= 1) by (bit_vector);
    v & ((1u64 << n) - 1)
}

impl OpSuBfm {
    pub fn fold(&self, f: &mut OpFoldData)
        requires
            old(f).dsts@.len() == 2,
            u32_at(old(f), 0, self.srcs[0]),
            u32_at(old(f), 1, self.srcs[1]),
            u32_at(old(f), 2, self.srcs[2]),
        ensures
            final(f).srcs@ == old(f).srcs@,
            final(f).dsts@ == seq![
                FoldData::U32(spec_subfm(uval(old(f), 0, self.srcs[0]), uval(old(f), 1, self.srcs[1]),
                    uval(old(f), 2, self.srcs[2]), self.is_3d).0),
                FoldData::Pred(spec_subfm(uval(old(f), 0, self.srcs[0]), uval(old(f), 1, self.srcs[1]),
                    uval(old(f), 2, self.srcs[2]), self.is_3d).1),
            ],
    {
        let x = f.get_u32_src(0, &self.srcs[0]);
        let y = f.get_u32_src(1, &self.srcs[1]);
        let z = f.get_u32_src(2, &self.srcs[2]);

        let is_pitch_linear_2d = get_bit(x, 30) || get_bit(y, 30);
        let o = if !is_pitch_linear_2d {
            // Tile counts (log2); z counts only in 3D.
            let nx = get_bits(x, 27, 3);
            let ny = get_bits(y, 27, 3);
            let nz = get_bits(z, 27, 3);
            assert(nx == bit_range(x, 27, 3) ==> nx & 1 <= 1) by (bit_vector);
            assert(ny == bit_range(y, 27, 3) ==> ny < 8) by (bit_vector);
            assert(nz == bit_range(z, 27, 3) ==> nz < 8) by (bit_vector);
            let ntx = (nx & 1) as u64;
            let nty = ny as u64;
            let ntz = if self.is_3d { nz as u64 } else { 0u64 };
            // GOB coordinates inside a block: z, then y, then x from bit 0.
            let a = low_bits64_exec(get_bits(x, 22, 2) as u64, ntx);
            let b = low_bits64_exec(get_bits(y, 19, 5) as u64, if nty < 5 { nty } else { 5 });
            let c = low_bits64_exec(get_bits(z, 16, 8) as u64, if ntz < 5 { ntz } else { 5 });
            let res = (((c << nty) | b) << ntx) | a;
            let mask: u64 = if ntx == 0 { 0x3ff } else { 0x7ff };
            let field = (res & mask) as u32;
            assert(mask <= 0x7ff && field == (res & mask) as u32 ==> field <= 0x7ff) by (bit_vector);
            // Element coordinates inside a GOB, in the swizzled order the
            // hardware uses.
            get_bits(x, 16, 4) | bit_at(get_bit(y, 16), 4) | bit_at(get_bit(y, 17), 5) | bit_at(get_bit(x, 20), 6)
                | bit_at(get_bit(y, 18), 7) | bit_at(get_bit(x, 21), 8) | (((ntx + nty + ntz) as u32) << 12u32)
                | (field << 16u32)
        } else {
            let d = get_bits(z, 0, 8);
            let el_size_log2 = get_bits(x, 27, 3);
            assert(el_size_log2 == bit_range(x, 27, 3) ==> el_size_log2 < 8) by (bit_vector);
            ((d << el_size_log2) & 0xff) | (el_size_log2 << 12u32)
        };
        let out = o | bit_at(is_pitch_linear_2d, 11);
        let is_oob = get_bit(x, 31) || get_bit(y, 31) || (get_bit(z, 31) && self.is_3d);
        f.set_u32_dst(0, out);
        f.set_pred_dst(1, is_oob);
        assert(f.dsts@ =~= seq![FoldData::U32(out), FoldData::Pred(is_oob)]);
    }
}

/// Surface address high part (Kepler): adds the block offset, placed as
/// the merged bit field says, to an address.
pub struct OpSuEau {
    pub dst: Dst,
    /// The block coordinates.
    pub off: Src,
    /// Bit 8: the last offset bit; bit 11: pitch-linear; bits 12..16: the
    /// offset shift; bits 16..27: the offset.
    pub bit_field: Src,
    pub addr: Src,
}

/// The folded address.
pub open spec fn spec_sueau(off: u32, bf: u32, addr: u32) -> u32 {
    let off1 = bit_range(bf, 8, 1);
    let is_pitch_linear = bit_set(bf, 11);
    let off_shift = bit_range(bf, 12, 4);
    let offs = bit_range(bf, 16, 11);
    if !is_pitch_linear {
        let omul = (off_shift + 1) as u32;
        let real_off = ((off << omul) as u32) | ((offs << 1u32) as u32) | off1;
        ((addr + (real_off & 0x7ff_ffffu32)) % 0x1_0000_0000) as u32
    } else {
        let o = if off_shift < 8 { off >> ((8 - off_shift) as u32) } else { ((off << ((off_shift - 8) as u32)) as u32) };
        ((addr + (o & 0xff_ffffu32)) % 0x1_0000_0000) as u32
    }
}

impl OpSuEau {
    pub fn fold(&self, f: &mut OpFoldData)
        requires
            old(f).dsts@.len() == 1,
            u32_at(old(f), 0, self.off),
            u32_at(old(f), 1, self.bit_field),
            u32_at(old(f), 2, self.addr),
        ensures
            final(f).srcs@ == old(f).srcs@,
            final(f).dsts@ == seq![FoldData::U32(spec_sueau(uval(old(f), 0, self.off),
                uval(old(f), 1, self.bit_field), uval(old(f), 2, self.addr)))],
    {
        let off = f.get_u32_src(0, &self.off);
        let bf = f.get_u32_src(1, &self.bit_field);
        let addr = f.get_u32_src(2, &self.addr);

        let off1 = get_bits(bf, 8, 1);
        let is_pitch_linear = get_bit(bf, 11);
        let off_shift = get_bits(bf, 12, 4);
        let offs = get_bits(bf, 16, 11);
        assert(off_shift == bit_range(bf, 12, 4) ==> off_shift < 16) by (bit_vector);

        let res = if !is_pitch_linear {
            // Block-linear: the block coordinates, shifted, with the GOB
            // coordinates and the top in-GOB bit below them.
            let omul = off_shift + 1;
            let real_off = (off << omul) | (offs << 1u32) | off1;
            addr.wrapping_add(real_off & 0x7ff_ffff)
        } else {
            // Pitch-linear: the offset moved by `off_shift - 8`, which is
            // a right shift whenever the field came from a bit-field merge.
            let o = if off_shift < 8 { off >> (8 - off_shift) } else { off << (off_shift - 8) };
            addr.wrapping_add(o & 0xff_ffff)
        };
        f.set_u32_dst(0, res);
        assert(f.dsts@ =~= seq![FoldData::U32(res)]);
    }
}

} // verus!
