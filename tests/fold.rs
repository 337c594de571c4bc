use nak_ir::fold::{FoldData, OpFoldData};
use nak_ir::int_ops::{OpFlo, OpIAbs, OpIAdd2, OpIAdd3, OpIAdd3X, OpIMnMx, OpISetP, OpLea, OpLeaX, OpLop2, OpLop3, OpPSetP, OpPopC};
use nak_ir::logic::{IntCmpOp, IntCmpType, LogicOp2, LogicOp3, PredSetOp};
use nak_ir::operand::{Dst, Src, SrcMod, SrcRef, SrcSwizzle};
use nak_ir::prmt::{OpPrmt, PrmtMode, PrmtSel, PrmtSelByte};
use nak_ir::shift::{OpShf, OpShl, OpShr};
use nak_ir::reg::RegFile;
use nak_ir::ssa::{SSARef, SSAValue};
use nak_ir::types::IntType;

fn ssa_src() -> Src {
    Src::from_ref(SrcRef::SSA(SSARef::from_value(SSAValue { idx: 1, file: RegFile::GPR })))
}

fn imm(u: u32) -> Src {
    Src::new_imm_u32(u)
}

fn with_mod(s: Src, m: SrcMod) -> Src {
    Src { src_ref: s.src_ref, src_mod: m, src_swizzle: SrcSwizzle::Xy }
}

fn data(srcs: Vec<FoldData>, n_dsts: usize) -> OpFoldData {
    OpFoldData { dsts: vec![FoldData::U32(0); n_dsts], srcs }
}

#[test]
fn iadd3_negated_operand() {
    let op = OpIAdd3 {
        dst: Dst::Null,
        overflow: [Dst::Null, Dst::Null],
        srcs: [imm(5), with_mod(imm(3), SrcMod::INeg), imm(10)],
    };
    let mut f = data(vec![FoldData::U32(0); 3], 3);
    op.fold(&mut f);
    // 5 + (2^32 - 3) + 10 = 2^32 + 12: the low word is 12 and the sum
    // reaches 2^32 but not 2 * 2^32.
    assert_eq!(f.dsts, vec![FoldData::U32(12), FoldData::Pred(true), FoldData::Pred(false)]);
}

#[test]
fn iadd3_overflow_flags() {
    let op = OpIAdd3 {
        dst: Dst::Null,
        overflow: [Dst::Null, Dst::Null],
        srcs: [imm(0xffff_ffff), imm(0xffff_ffff), imm(2)],
    };
    let mut f = data(vec![FoldData::U32(0); 3], 3);
    op.fold(&mut f);
    assert_eq!(f.dsts, vec![FoldData::U32(0), FoldData::Pred(true), FoldData::Pred(true)]);

    let op = OpIAdd3 { dst: Dst::Null, overflow: [Dst::Null, Dst::Null], srcs: [imm(1), imm(2), imm(3)] };
    let mut f = data(vec![FoldData::U32(0); 3], 3);
    op.fold(&mut f);
    assert_eq!(f.dsts, vec![FoldData::U32(6), FoldData::Pred(false), FoldData::Pred(false)]);
}

#[test]
fn iadd3_negated_zero_carries() {
    // The literal two's complement of zero is 2^32.
    let op = OpIAdd3 {
        dst: Dst::Null,
        overflow: [Dst::Null, Dst::Null],
        srcs: [with_mod(Src::zero(), SrcMod::INeg), imm(7), Src::zero()],
    };
    let mut f = data(vec![FoldData::U32(0); 3], 3);
    op.fold(&mut f);
    assert_eq!(f.dsts, vec![FoldData::U32(7), FoldData::Pred(true), FoldData::Pred(false)]);
}

#[test]
fn iadd3_reads_registers_from_fold_data() {
    let op = OpIAdd3 { dst: Dst::Null, overflow: [Dst::Null, Dst::Null], srcs: [ssa_src(), imm(1), Src::zero()] };
    let mut f = data(vec![FoldData::U32(41), FoldData::U32(0), FoldData::U32(0)], 3);
    op.fold(&mut f);
    assert_eq!(f.dsts[0], FoldData::U32(42));
}

#[test]
fn iadd2_carry_out() {
    let op = OpIAdd2 { dst: Dst::Null, carry_out: Dst::Null, srcs: [imm(0x8000_0000), imm(0x8000_0001)] };
    let mut f = data(vec![FoldData::U32(0); 2], 2);
    op.fold(&mut f);
    assert_eq!(f.dsts, vec![FoldData::U32(1), FoldData::Carry(true)]);
}

#[test]
fn iadd3x_adds_carries_and_inverts() {
    let op = OpIAdd3X {
        dst: Dst::Null,
        overflow: [Dst::Null, Dst::Null],
        srcs: [imm(1), with_mod(Src::zero(), SrcMod::BNot), imm(0)],
        carry: [Src::new_imm_bool(true), Src::new_imm_bool(false)],
    };
    let mut f = data(vec![FoldData::U32(0); 5], 3);
    op.fold(&mut f);
    // 1 + 0xffffffff + 0 + 1 = 2^32 + 1
    assert_eq!(f.dsts, vec![FoldData::U32(1), FoldData::Pred(true), FoldData::Pred(false)]);
}

#[test]
fn flo_modes() {
    let mut f = data(vec![FoldData::U32(0)], 1);
    let op = OpFlo { dst: Dst::Null, src: imm(0x0000_0100), signed: false, return_shift_amount: false };
    op.fold(&mut f);
    assert_eq!(f.dsts[0], FoldData::U32(8));
    let op = OpFlo { dst: Dst::Null, src: imm(0x0000_0100), signed: false, return_shift_amount: true };
    op.fold(&mut f);
    assert_eq!(f.dsts[0], FoldData::U32(23));
    // A negative signed value looks for the leading zero.
    let op = OpFlo { dst: Dst::Null, src: imm(0xffff_f0ff), signed: true, return_shift_amount: false };
    op.fold(&mut f);
    assert_eq!(f.dsts[0], FoldData::U32(11));
    let op = OpFlo { dst: Dst::Null, src: Src::zero(), signed: false, return_shift_amount: false };
    op.fold(&mut f);
    assert_eq!(f.dsts[0], FoldData::U32(0xffff_ffff));
}

#[test]
fn iabs_values() {
    let mut f = data(vec![FoldData::U32(0)], 1);
    let op = OpIAbs { dst: Dst::Null, src: imm(0xffff_fffb) };
    op.fold(&mut f);
    assert_eq!(f.dsts[0], FoldData::U32(5));
    let op = OpIAbs { dst: Dst::Null, src: imm(0x8000_0000) };
    op.fold(&mut f);
    assert_eq!(f.dsts[0], FoldData::U32(0x8000_0000));
}

#[test]
fn imnmx_signed_and_unsigned() {
    let mut f = data(vec![FoldData::U32(0); 3], 1);
    let op = OpIMnMx {
        dst: Dst::Null,
        cmp_type: IntCmpType::I32,
        srcs: [imm(0xffff_ffff), imm(3)],
        min: Src::new_imm_bool(true),
    };
    op.fold(&mut f);
    assert_eq!(f.dsts[0], FoldData::U32(0xffff_ffff));
    let op = OpIMnMx {
        dst: Dst::Null,
        cmp_type: IntCmpType::U32,
        srcs: [imm(0xffff_ffff), imm(3)],
        min: Src::new_imm_bool(true),
    };
    op.fold(&mut f);
    assert_eq!(f.dsts[0], FoldData::U32(3));
    let op = OpIMnMx {
        dst: Dst::Null,
        cmp_type: IntCmpType::U32,
        srcs: [imm(0xffff_ffff), imm(3)],
        min: Src::new_imm_bool(false),
    };
    op.fold(&mut f);
    assert_eq!(f.dsts[0], FoldData::U32(0xffff_ffff));
}

fn isetp(cmp_op: IntCmpOp, cmp_type: IntCmpType, set_op: PredSetOp, ex: bool, x: u32, y: u32, accum: bool, low: bool) -> FoldData {
    let op = OpISetP {
        dst: Dst::Null,
        set_op,
        cmp_op,
        cmp_type,
        ex,
        srcs: [imm(x), imm(y)],
        accum: Src::new_imm_bool(accum),
        low_cmp: Src::new_imm_bool(low),
    };
    let mut f = data(vec![FoldData::U32(0); 4], 1);
    op.fold(75, &mut f);
    f.dsts[0]
}

#[test]
fn isetp_compares() {
    assert_eq!(isetp(IntCmpOp::Lt, IntCmpType::I32, PredSetOp::And, false, 0xffff_ffff, 1, true, false), FoldData::Pred(true));
    assert_eq!(isetp(IntCmpOp::Lt, IntCmpType::U32, PredSetOp::And, false, 0xffff_ffff, 1, true, false), FoldData::Pred(false));
    assert_eq!(isetp(IntCmpOp::Eq, IntCmpType::U32, PredSetOp::And, false, 4, 4, false, false), FoldData::Pred(false));
    assert_eq!(isetp(IntCmpOp::Ne, IntCmpType::U32, PredSetOp::Or, false, 4, 4, true, false), FoldData::Pred(true));
    assert_eq!(isetp(IntCmpOp::Gt, IntCmpType::U32, PredSetOp::Xor, false, 5, 4, true, false), FoldData::Pred(false));
    // Extended compare of equal high words takes the low comparison.
    assert_eq!(isetp(IntCmpOp::Lt, IntCmpType::U32, PredSetOp::And, true, 4, 4, true, true), FoldData::Pred(true));
    assert_eq!(isetp(IntCmpOp::True, IntCmpType::U32, PredSetOp::And, true, 4, 4, true, false), FoldData::Pred(true));
}

#[test]
fn lea_shift_and_add() {
    let op = OpLea {
        dst: Dst::Null,
        overflow: Dst::Null,
        a: imm(3),
        b: imm(100),
        a_high: Src::zero(),
        shift: 4,
        dst_high: false,
        intermediate_mod: SrcMod::Plain,
    };
    let mut f = data(vec![FoldData::U32(0); 3], 2);
    op.fold(&mut f);
    assert_eq!(f.dsts, vec![FoldData::U32(148), FoldData::Pred(false)]);

    // High word of (1:0x80000000) << 4 is 0x18; minus 8 gives 0x10.
    let op = OpLea {
        dst: Dst::Null,
        overflow: Dst::Null,
        a: imm(0x8000_0000),
        b: with_mod(imm(8), SrcMod::INeg),
        a_high: imm(1),
        shift: 4,
        dst_high: true,
        intermediate_mod: SrcMod::Plain,
    };
    op.fold(&mut f);
    assert_eq!(f.dsts, vec![FoldData::U32(0x10), FoldData::Pred(true)]);
}

#[test]
fn leax_carry_in() {
    let op = OpLeaX {
        dst: Dst::Null,
        overflow: Dst::Null,
        a: imm(0xffff_ffff),
        b: Src::zero(),
        a_high: Src::zero(),
        carry: Src::new_imm_bool(true),
        shift: 0,
        dst_high: false,
        intermediate_mod: SrcMod::Plain,
    };
    let mut f = data(vec![FoldData::U32(0); 4], 2);
    op.fold(&mut f);
    assert_eq!(f.dsts, vec![FoldData::U32(0), FoldData::Pred(true)]);
}

#[test]
fn lop_folds() {
    let mut f = data(vec![FoldData::U32(0); 3], 1);
    let op = OpLop2 { dst: Dst::Null, srcs: [imm(0xf0f0), imm(0xff00)], op: LogicOp2::Xor };
    op.fold(&mut f);
    assert_eq!(f.dsts[0], FoldData::U32(0x0ff0));
    let op = OpLop3 { dst: Dst::Null, srcs: [imm(0xf0f0), imm(0xff00), imm(0xaaaa)], op: LogicOp2::And.to_lut() };
    op.fold(&mut f);
    assert_eq!(f.dsts[0], FoldData::U32(0xf000));
    let op = OpLop3 {
        dst: Dst::Null,
        srcs: [imm(1), imm(2), with_mod(imm(4), SrcMod::BNot)],
        op: LogicOp3 { lut: 0xaa },
    };
    op.fold(&mut f);
    assert_eq!(f.dsts[0], FoldData::U32(0xffff_fffb));
}

#[test]
fn psetp_and_popc() {
    let op = OpPSetP {
        dsts: [Dst::Null, Dst::Null],
        ops: [PredSetOp::And, PredSetOp::Or],
        srcs: [Src::new_imm_bool(true), Src::new_imm_bool(true), Src::new_imm_bool(false)],
    };
    let mut f = data(vec![FoldData::U32(0); 3], 2);
    op.fold(&mut f);
    assert_eq!(f.dsts, vec![FoldData::Pred(true), FoldData::Pred(false)]);

    let op = OpPopC { dst: Dst::Null, src: imm(0xf00f_0001) };
    let mut f = data(vec![FoldData::U32(0)], 1);
    op.fold(&mut f);
    assert_eq!(f.dsts[0], FoldData::U32(9));
    let op = OpPopC { dst: Dst::Null, src: with_mod(Src::zero(), SrcMod::BNot) };
    op.fold(&mut f);
    assert_eq!(f.dsts[0], FoldData::U32(32));
}

fn shl(x: u32, s: u32, wrap: bool) -> FoldData {
    let op = OpShl { dst: Dst::Null, src: imm(x), shift: imm(s), wrap };
    let mut f = data(vec![FoldData::U32(0); 2], 1);
    op.fold(&mut f);
    f.dsts[0]
}

fn shr(x: u32, s: u32, wrap: bool, signed: bool) -> FoldData {
    let op = OpShr { dst: Dst::Null, src: imm(x), shift: imm(s), wrap, signed };
    let mut f = data(vec![FoldData::U32(0); 2], 1);
    op.fold(&mut f);
    f.dsts[0]
}

#[test]
fn shift_by_35_clamps_or_wraps() {
    assert_eq!(shl(0x1234_5678, 35, false), FoldData::U32(0));
    assert_eq!(shl(0x1234_5678, 35, true), FoldData::U32(0x1234_5678 << 3));
    assert_eq!(shr(0x8000_0010, 35, false, false), FoldData::U32(0));
    assert_eq!(shr(0x8000_0010, 35, false, true), FoldData::U32(0xffff_ffff));
    assert_eq!(shr(0x7000_0010, 35, false, true), FoldData::U32(0));
    assert_eq!(shr(0x8000_0010, 35, true, false), FoldData::U32(0x1000_0002));
    assert_eq!(shr(0x8000_0010, 35, true, true), FoldData::U32(0xf000_0002));
}

#[test]
fn shf_funnel() {
    let run = |right: bool, dst_high: bool, data_type: IntType, sm: u8, s: u32| {
        let op = OpShf {
            dst: Dst::Null,
            low: imm(0x8765_4321),
            high: imm(0x1234_5678),
            shift: imm(s),
            right,
            wrap: false,
            data_type,
            dst_high,
        };
        let mut f = data(vec![FoldData::U32(0); 3], 1);
        op.fold(sm, &mut f);
        f.dsts[0]
    };
    assert_eq!(run(true, false, IntType::U64, 75, 8), FoldData::U32(0x7887_6543));
    assert_eq!(run(false, true, IntType::U64, 75, 8), FoldData::U32(0x3456_7887));
    assert_eq!(run(true, true, IntType::I64, 75, 64), FoldData::U32(0));
    assert_eq!(run(false, false, IntType::U32, 50, 4), FoldData::U32(0x2345_6788));
}

#[test]
fn shift_immediate_reduction() {
    let mut op = OpShl { dst: Dst::Null, src: imm(1), shift: imm(35), wrap: true };
    op.reduce_shift_imm();
    assert!(matches!(op.shift.src_ref, SrcRef::Imm32(3)));
    let mut op = OpShr { dst: Dst::Null, src: imm(1), shift: imm(35), wrap: false, signed: false };
    op.reduce_shift_imm();
    assert!(matches!(op.shift.src_ref, SrcRef::Imm32(32)));
}

#[test]
fn prmt_folds_literals_only() {
    let sel = PrmtSel::new([
        PrmtSelByte::new(1, 0, false),
        PrmtSelByte::new(0, 3, false),
        PrmtSelByte::new(0, 2, true),
        PrmtSelByte::new(1, 2, false),
    ]);
    assert_eq!(sel.0, 0x6a34);
    let op = OpPrmt { dst: Dst::Null, srcs: [imm(0x4480_2211), imm(0xaabb_ccdd)], sel: imm(sel.0 as u32), mode: PrmtMode::Index };
    assert_eq!(op.as_u32(), Some(0xbbff_44dd));

    let mut f = data(vec![FoldData::U32(0); 3], 1);
    op.fold(&mut f);
    assert_eq!(f.dsts[0], FoldData::U32(0xbbff_44dd));

    let op = OpPrmt { dst: Dst::Null, srcs: [imm(1), ssa_src()], sel: imm(0x3210), mode: PrmtMode::Index };
    assert_eq!(op.as_u32(), None);
    let op = OpPrmt { dst: Dst::Null, srcs: [imm(1), imm(2)], sel: ssa_src(), mode: PrmtMode::Index };
    assert_eq!(op.as_u32(), None);
    let op = OpPrmt { dst: Dst::Null, srcs: [imm(1), imm(2)], sel: imm(0x3210), mode: PrmtMode::Replicate8 };
    assert_eq!(op.as_u32(), None);
    let op = OpPrmt { dst: Dst::Null, srcs: [imm(0x0403_0201), imm(2)], sel: imm(0x1_3210), mode: PrmtMode::Index };
    assert_eq!(op.as_u32(), Some(0x0403_0201));
}

use nak_ir::imadsp::{IMadSpMode, IMadSpSrcType, OpIMadSp};
use nak_ir::int_ops::OpIAdd2X;
use nak_ir::surface::{OpSuBfm, OpSuClamp, OpSuEau, SuClampMode, SuClampRound};

fn suclamp(mode: SuClampMode, round: SuClampRound, is_s32: bool, is_2d: bool, coords: u32, params: u32, imm: i8) -> Vec<FoldData> {
    let op = OpSuClamp {
        dst: Dst::Null,
        out_of_bounds: Dst::Null,
        mode,
        round,
        is_s32,
        is_2d,
        coords: imm_src(coords),
        params: imm_src(params),
        imm,
    };
    let mut f = data(vec![FoldData::U32(0); 2], 2);
    op.fold(&mut f);
    f.dsts
}

fn imm_src(u: u32) -> Src {
    Src::new_imm_u32(u)
}

#[test]
fn suclamp_plain_clamp() {
    // Pitch-linear 1D: a plain clamp against the whole parameter word.
    assert_eq!(suclamp(SuClampMode::PitchLinear, SuClampRound::R1, false, false, 5, 100, 0), vec![FoldData::U32(5), FoldData::Pred(false)]);
    assert_eq!(suclamp(SuClampMode::PitchLinear, SuClampRound::R1, false, false, 150, 100, 0), vec![FoldData::U32(100), FoldData::Pred(true)]);
    assert_eq!(suclamp(SuClampMode::PitchLinear, SuClampRound::R1, true, false, 0xffff_fffe, 100, 0), vec![FoldData::U32(0), FoldData::Pred(true)]);
    assert_eq!(suclamp(SuClampMode::PitchLinear, SuClampRound::R1, false, false, 3, 100, -5), vec![FoldData::U32(0), FoldData::Pred(true)]);
    // The bound rounds down to a multiple of 4.
    assert_eq!(suclamp(SuClampMode::PitchLinear, SuClampRound::R4, false, false, 15, 15, 0), vec![FoldData::U32(12), FoldData::Pred(true)]);
}

#[test]
fn suclamp_pitch_linear_2d() {
    // Bound 0x40 in bits 0..20, element size log2 2 in bits 26..29.
    let params = 0x40 | (2 << 26);
    assert_eq!(
        suclamp(SuClampMode::PitchLinear, SuClampRound::R1, false, true, 7, params, 0),
        vec![FoldData::U32(7 | (2 << 27) | (1 << 30)), FoldData::Pred(false)]
    );
    // Bit 21 selects pitch-linear when the mode comes from the descriptor.
    assert_eq!(
        suclamp(SuClampMode::StoredInDescriptor, SuClampRound::R1, false, true, 0x50, params | (1 << 21), 0),
        vec![FoldData::U32(0x40 | (2 << 27) | (1 << 30) | (1 << 31)), FoldData::Pred(true)]
    );
}

#[test]
fn suclamp_block_linear() {
    // Bound 0xfff, shift right 2, element size log2 2, 3 tiles.
    let params = 0xfff | (2 << 22) | (2 << 26) | (3 << 29);
    let coord: u32 = 0x123;
    let expect = ((coord >> 2) & 0xffff) | (((coord << 2) & 0xff) << 16) | (3 << 27);
    assert_eq!(
        suclamp(SuClampMode::BlockLinear, SuClampRound::R1, false, true, coord, params, 0),
        vec![FoldData::U32(expect), FoldData::Pred(false)]
    );
}

fn subfm(x: u32, y: u32, z: u32, is_3d: bool) -> Vec<FoldData> {
    let op = OpSuBfm { dst: Dst::Null, pdst: Dst::Null, srcs: [imm_src(x), imm_src(y), imm_src(z)], is_3d };
    let mut f = data(vec![FoldData::U32(0); 3], 2);
    op.fold(&mut f);
    f.dsts
}

#[test]
fn subfm_block_linear() {
    // x: bits 16..20 = 0xa, bit 20 set, bit 21 set, 1 tile bit, gob coord 3.
    let x = (0xa << 16) | (1 << 20) | (1 << 21) | (1 << 27) | (3 << 22);
    // y: bits 16, 18 set, 2 tile bits, gob coord 0x1f.
    let y = (1 << 16) | (1 << 18) | (2 << 27) | (0x1f << 19);
    let z = 0;
    // Tiles: ntx = 1, nty = 2: gob offset = (0 << 2 | 0x3) << 1 | 1 = 7.
    let expect = 0xa | (1 << 4) | (1 << 6) | (1 << 7) | (1 << 8) | (3 << 12) | (7 << 16);
    assert_eq!(subfm(x, y, z, false), vec![FoldData::U32(expect), FoldData::Pred(false)]);
    assert_eq!(subfm(x, y, 1 << 31, true), vec![FoldData::U32(expect), FoldData::Pred(true)]);
    assert_eq!(subfm(x, y, 1 << 31, false), vec![FoldData::U32(expect), FoldData::Pred(false)]);
}

#[test]
fn subfm_pitch_linear() {
    let x = (1 << 30) | (2 << 27);
    let z = 0x33;
    let expect = ((0x33 << 2) & 0xff) | (2 << 12) | (1 << 11);
    assert_eq!(subfm(x, 0, z, false), vec![FoldData::U32(expect), FoldData::Pred(false)]);
}

#[test]
fn sueau_address() {
    let run = |off: u32, bf: u32, addr: u32| {
        let op = OpSuEau { dst: Dst::Null, off: imm_src(off), bit_field: imm_src(bf), addr: imm_src(addr) };
        let mut f = data(vec![FoldData::U32(0); 3], 1);
        op.fold(&mut f);
        f.dsts[0]
    };
    // Block-linear: (off << (shift + 1)) | (offs << 1) | off1, added to addr.
    let bf = (1 << 8) | (3 << 12) | (0x5 << 16);
    assert_eq!(run(2, bf, 0x1000), FoldData::U32(0x1000 + ((2 << 4) | (5 << 1) | 1)));
    // Pitch-linear: the offset is shifted right by 8 - shift.
    let bf = (1 << 11) | (3 << 12);
    assert_eq!(run(0x400, bf, 0x10), FoldData::U32(0x10 + (0x400 >> 5)));
    assert_eq!(run(0x400, bf, 0xffff_fff0), FoldData::U32(0x10));
}

#[test]
fn imadsp_explicit_and_from_src1() {
    let run = |mode: IMadSpMode, a: u32, b: u32, c: u32| {
        let op = OpIMadSp { dst: Dst::Null, srcs: [imm_src(a), imm_src(b), imm_src(c)], mode };
        let mut f = data(vec![FoldData::U32(0); 3], 1);
        op.fold(&mut f);
        f.dsts[0]
    };
    let t = IMadSpMode::Explicit([IMadSpSrcType::S32, IMadSpSrcType::S16Lo, IMadSpSrcType::S32]);
    assert_eq!(run(t, 0xffff_fffe, 0x0001_0003, 10), FoldData::U32(4));
    let t = IMadSpMode::Explicit([IMadSpSrcType::U16Hi, IMadSpSrcType::U24, IMadSpSrcType::U32]);
    assert_eq!(run(t, 0x0005_0000, 0xff00_0007, 1), FoldData::U32(36));
    // From the second source: st0 = 2 (U16Lo), st1 = 1 (U24), st2 = 0 (U32).
    let src1 = (2 << 30) | (1 << 28) | 0x10;
    assert_eq!(run(IMadSpMode::FromSrc1, 0x1_0003, src1, 5), FoldData::U32(3 * (src1 & 0xff_ffff) + 5));
    assert_eq!(IMadSpSrcType::U24.with_sign(true), IMadSpSrcType::S24);
    assert_eq!(IMadSpSrcType::S16Hi.unsigned(), IMadSpSrcType::U16Hi);
    assert_eq!(IMadSpSrcType::S24.cast(0x0080_0000), -0x80_0000);
}

#[test]
fn iadd2x_carry_in() {
    let carry = Src::from_ref(SrcRef::SSA(SSARef::from_value(SSAValue { idx: 9, file: RegFile::Carry })));
    let op = OpIAdd2X { dst: Dst::Null, carry_out: Dst::Null, srcs: [imm(0xffff_ffff), imm(0)], carry_in: carry };
    let mut f = data(vec![FoldData::U32(0), FoldData::U32(0), FoldData::Carry(true)], 2);
    op.fold(&mut f);
    assert_eq!(f.dsts, vec![FoldData::U32(0), FoldData::Carry(true)]);
}
