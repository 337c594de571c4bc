use nak_ir::block::{BasicBlock, Instr, MappedInstrs, Op, OpAnnotate, OpPhiDsts, OpPhiSrcs, Phi, Pred, PredRef};
use nak_ir::int_ops::{OpIAdd3, OpISetP};
use nak_ir::logic::{IntCmpOp, IntCmpType, PredSetOp};
use nak_ir::operand::{CBuf, CBufRef, Dst, DstType, Src, SrcRef, SrcType};
use nak_ir::reg::{Label, RegFile, RegRef};
use nak_ir::ssa::{SSARef, SSAValue};

fn v(idx: u32, file: RegFile) -> SSAValue {
    SSAValue { idx, file }
}

fn ssa(idx: u32, file: RegFile) -> SSARef {
    SSARef::from_value(v(idx, file))
}

fn iadd3(dst_file: RegFile) -> Op {
    Op::IAdd3(OpIAdd3 {
        dst: Dst::from_ssa(ssa(1, dst_file)),
        overflow: [Dst::Null, Dst::from_ssa(ssa(2, RegFile::Pred))],
        srcs: [
            Src::from_ref(SrcRef::SSA(ssa(3, RegFile::GPR))),
            Src::from_ref(SrcRef::CBuf(CBufRef { buf: CBuf::BindlessSSA(ssa(4, RegFile::UGPR)), offset: 0 })),
            Src::new_imm_u32(7),
        ],
    })
}

#[test]
fn operand_slots_and_types() {
    let op = iadd3(RegFile::GPR);
    assert_eq!(op.num_srcs(), 3);
    assert_eq!(op.num_dsts(), 3);
    assert!(matches!(op.src(2).map(|s| &s.src_ref), Some(SrcRef::Imm32(7))));
    assert!(op.src(3).is_none());
    assert!(op.dst(1).map(|d| d.is_none()).unwrap_or(false));
    assert_eq!(op.src_type(0), SrcType::I32);
    assert_eq!(op.dst_type(0), DstType::GPR);
    assert_eq!(op.dst_type(2), DstType::Pred);

    let setp = Op::ISetP(OpISetP {
        dst: Dst::Null,
        set_op: PredSetOp::And,
        cmp_op: IntCmpOp::Eq,
        cmp_type: IntCmpType::U32,
        ex: false,
        srcs: [Src::zero(), Src::zero()],
        accum: Src::new_imm_bool(true),
        low_cmp: Src::new_imm_bool(true),
    });
    assert_eq!(setp.num_srcs(), 4);
    assert_eq!(setp.src_type(1), SrcType::ALU);
    assert_eq!(setp.src_type(3), SrcType::Pred);

    let mut phis = OpPhiSrcs::new();
    phis.srcs.push(Phi { idx: 0 }, Src::zero());
    phis.srcs.push(Phi { idx: 1 }, Src::new_imm_u32(1));
    let op = Op::PhiSrcs(phis);
    assert_eq!(op.num_srcs(), 2);
    assert_eq!(op.src_type(1), SrcType::GPR);
    assert_eq!(op.num_dsts(), 0);
}

#[test]
fn uniformity_from_destinations() {
    let u = Instr::new(Op::IAdd3(OpIAdd3 {
        dst: Dst::from_ssa(ssa(1, RegFile::UGPR)),
        overflow: [Dst::Null, Dst::Null],
        srcs: [Src::zero(), Src::zero(), Src::zero()],
    }));
    assert!(u.is_uniform());
    let g = Instr::new(iadd3(RegFile::GPR));
    assert!(!g.is_uniform());
    let mut d = OpPhiDsts::new();
    d.dsts.push(Phi { idx: 0 }, Dst::from_ssa(ssa(1, RegFile::UGPR)));
    assert!(!Instr::new(Op::PhiDsts(d)).is_uniform());
}

#[test]
fn ssa_uses_and_defs() {
    let mut i = Instr::new(iadd3(RegFile::GPR));
    i.pred = Pred::from_ref(PredRef::SSA(v(9, RegFile::Pred)));
    assert_eq!(i.ssa_uses(), vec![v(9, RegFile::Pred), v(3, RegFile::GPR), v(4, RegFile::UGPR)]);
    assert_eq!(i.ssa_defs(), vec![v(1, RegFile::GPR), v(2, RegFile::Pred)]);
    let r = Instr::new(Op::IAdd3(OpIAdd3 {
        dst: Dst::from_reg(RegRef::new(RegFile::GPR, 0, 1)),
        overflow: [Dst::Null, Dst::Null],
        srcs: [Src::zero(), Src::zero(), Src::zero()],
    }));
    assert!(r.ssa_uses().is_empty());
    assert!(r.ssa_defs().is_empty());
}

#[test]
fn map_instrs_rewrites_in_order() {
    let note = |s: &str| Instr::new_boxed(Op::Annotate(OpAnnotate { annotation: s.to_string() }));
    let mut b = BasicBlock { label: Label { idx: 3 }, uniform: false, instrs: vec![note("a"), Instr::new_boxed(iadd3(RegFile::GPR)), note("b")] };
    b.map_instrs(|i: Box<Instr>| -> MappedInstrs {
        match &i.op {
            Op::Annotate(a) if a.annotation == "a" => MappedInstrs::Empty,
            Op::Annotate(_) => MappedInstrs::Many(vec![Instr::new_boxed(Op::Annotate(OpAnnotate { annotation: "x".to_string() })), i]),
            _ => MappedInstrs::One(i),
        }
    });
    assert_eq!(b.instrs.len(), 3);
    assert!(matches!(b.instrs[0].op, Op::IAdd3(_)));
    assert!(matches!(&b.instrs[1].op, Op::Annotate(a) if a.annotation == "x"));
    assert!(matches!(&b.instrs[2].op, Op::Annotate(a) if a.annotation == "b"));
    assert_eq!(b.label, Label { idx: 3 });
}

use nak_ir::alu::{OpBfe, OpBMsk, OpIMul, OpMov, OpSel};
use nak_ir::block::op_needs_scoreboard;

#[test]
fn integer_multiply_latency_by_generation() {
    let imul = Op::IMul(OpIMul { dst: Dst::Null, srcs: [Src::zero(), Src::zero()], signed: [true, false], high: true });
    assert!(!imul.has_fixed_latency(60));
    assert!(imul.has_fixed_latency(70));
    assert!(op_needs_scoreboard(60, &imul));
    assert!(!op_needs_scoreboard(75, &imul));
    assert_eq!(imul.to_text(), "null = imul.hi.s32.u32 rZ rZ");
}

#[test]
fn alu_text_and_slots() {
    let mov = Op::Mov(OpMov { dst: Dst::from_ssa(ssa(1, RegFile::GPR)), src: Src::new_imm_u32(0x10), quad_lanes: 0xf });
    assert_eq!(mov.to_text(), "%r1 = mov 0x10");
    let mov = Op::Mov(OpMov { dst: Dst::from_ssa(ssa(1, RegFile::GPR)), src: Src::new_imm_u32(0x10), quad_lanes: 0x3 });
    assert_eq!(mov.to_text(), "%r1 = mov[0x3] 0x10");
    let sel = Op::Sel(OpSel { dst: Dst::Null, cond: Src::new_imm_bool(true), srcs: [Src::zero(), Src::new_imm_u32(1)] });
    assert_eq!(sel.src_type(0), SrcType::Pred);
    assert_eq!(sel.src_type(2), SrcType::ALU);
    assert_eq!(sel.to_text(), "null = sel pT rZ 0x1");
    let bmsk = Op::BMsk(OpBMsk { dst: Dst::Null, pos: Src::zero(), width: Src::new_imm_u32(4), wrap: false });
    assert_eq!(bmsk.to_text(), "null = bmsk.clamp rZ 0x4");
    let bfe = Op::Bfe(OpBfe { dst: Dst::Null, base: Src::zero(), range: Src::zero(), signed: true, reverse: true });
    assert_eq!(bfe.to_text(), "null = bfe.s.rev rZ rZ");
    assert_eq!(bfe.num_srcs(), 2);
}

use nak_ir::float_ops::{FRndMode, OpDAdd, OpFFma, OpFSetP};
use nak_ir::logic::FloatCmpOp;

#[test]
fn float_kinds_text_latency_and_fp64() {
    let ffma = Op::FFma(OpFFma {
        dst: Dst::from_ssa(ssa(1, RegFile::GPR)),
        srcs: [Src::zero().fneg(), Src::new_imm_u32(0x3f80_0000).fabs(), Src::zero()],
        saturate: true,
        rnd_mode: FRndMode::Zero,
        ftz: true,
        dnz: false,
    });
    assert_eq!(ffma.to_text(), "%r1 = ffma.sat.rz.ftz -rZ |0x3f800000| rZ");
    assert!(ffma.has_fixed_latency(50));
    assert!(!ffma.is_fp64());
    assert_eq!(ffma.src_type(2), SrcType::F32);
    let fsetp = Op::FSetP(OpFSetP {
        dst: Dst::Null,
        set_op: PredSetOp::And,
        cmp_op: FloatCmpOp::UnordLt,
        srcs: [Src::zero(), Src::zero()],
        accum: Src::new_imm_bool(true),
        ftz: false,
    });
    assert_eq!(fsetp.to_text(), "null = fsetp.ltu rZ rZ");
    let dadd = Op::DAdd(OpDAdd { dst: Dst::Null, srcs: [Src::zero(), Src::zero()], rnd_mode: FRndMode::NearestEven });
    assert!(dadd.is_fp64());
    assert!(!dadd.has_fixed_latency(75));
    assert_eq!(dadd.to_text(), "null = dadd rZ rZ");
}

use nak_ir::conv_ops::{OpF2F, OpI2F, OpI2I};
use nak_ir::float_ops::OpDMnMx;
use nak_ir::misc_ops::{FSwzAddOp, MuFuOp, OpFSwzAdd, OpMuFu, OpRedux, OpShfl, ReduxOp, ShflOp, TexDerivMode};
use nak_ir::types::{FloatType, IntType};

#[test]
fn conversion_slot_types_follow_the_formats() {
    let f2f = Op::F2F(OpF2F {
        dst: Dst::Null,
        src: Src::zero(),
        src_type: FloatType::F64,
        dst_type: FloatType::F16,
        rnd_mode: FRndMode::NearestEven,
        ftz: false,
        high: false,
        integer_rnd: true,
    });
    assert_eq!(f2f.src_type(0), SrcType::F64);
    assert_eq!(f2f.dst_type(0), DstType::F16);
    assert!(f2f.is_fp64());
    assert_eq!(f2f.to_text(), "null = f2f.int.f16.f64.re rZ");
    let i2f = Op::I2F(OpI2F { dst: Dst::Null, src: Src::zero(), dst_type: FloatType::F32, src_type: IntType::I64, rnd_mode: FRndMode::PosInf });
    assert_eq!(i2f.src_type(0), SrcType::GPR);
    assert!(i2f.is_fp64());
    let i2f = Op::I2F(OpI2F { dst: Dst::Null, src: Src::zero(), dst_type: FloatType::F32, src_type: IntType::U16, rnd_mode: FRndMode::PosInf });
    assert_eq!(i2f.src_type(0), SrcType::ALU);
    assert!(!i2f.is_fp64());
    assert_eq!(i2f.to_text(), "null = i2f.f32.u16.rp rZ");
    let i2i = Op::I2I(OpI2I { dst: Dst::Null, src: Src::zero(), src_type: IntType::I32, dst_type: IntType::U8, saturate: true, abs: true, neg: false });
    assert_eq!(i2i.to_text(), "null = i2i.sat .u8.i32 rZ.abs");
    let dmnmx = Op::DMnMx(OpDMnMx { dst: Dst::Null, srcs: [Src::zero(), Src::zero()], min: Src::new_imm_bool(false) });
    assert_eq!(dmnmx.src_type(2), SrcType::Pred);
}

#[test]
fn misc_kinds() {
    let mufu = Op::MuFu(OpMuFu { dst: Dst::Null, op: MuFuOp::Rsq64H, src: Src::zero() });
    assert!(mufu.is_fp64());
    assert_eq!(mufu.to_text(), "null = mufu.rsq64h rZ");
    let swz = Op::FSwzAdd(OpFSwzAdd {
        dst: Dst::Null,
        srcs: [Src::zero(), Src::zero()],
        rnd_mode: FRndMode::NearestEven,
        ftz: true,
        deriv_mode: TexDerivMode::NonDivergent,
        ops: [FSwzAddOp::Add, FSwzAddOp::SubRight, FSwzAddOp::SubLeft, FSwzAddOp::MoveLeft],
    });
    assert_eq!(swz.to_text(), "null = fswzadd.ftz.ndv rZ rZ [add, subr, sub, mov2]");
    let redux = Op::Redux(OpRedux { dst: Dst::Null, src: Src::zero(), op: ReduxOp::Min(IntCmpType::I32) });
    assert_eq!(redux.to_text(), "null = redux.min.i32 rZ");
    let mut shfl = OpShfl {
        dst: Dst::Null,
        in_bounds: Dst::Null,
        src: Src::zero(),
        lane: Src::new_imm_u32(0x25),
        c: Src::new_imm_u32(0xffff),
        op: ShflOp::Bfly,
    };
    shfl.reduce_lane_c_imm();
    assert!(matches!(shfl.lane.src_ref, SrcRef::Imm32(0x5)));
    assert!(matches!(shfl.c.src_ref, SrcRef::Imm32(0x1f1f)));
    let op = Op::Shfl(shfl);
    assert_eq!(op.num_dsts(), 2);
    assert_eq!(op.to_text(), "null = shfl.bfly rZ 0x5 0x1f1f");
}

use nak_ir::tex::{ChannelMask, OpTex, OpTxq, TexDim, TexLodMode, TexOffsetMode, TexQuery, TexRef, TexCBufRef};
use nak_ir::types::MemEvictionPriority;

#[test]
fn texture_kinds() {
    let tex = Op::Tex(OpTex {
        dsts: [Dst::from_ssa(ssa(1, RegFile::GPR)), Dst::Null],
        fault: Dst::Null,
        tex: TexRef::CBuf(TexCBufRef { idx: 1, offset: 0x30 }),
        srcs: [Src::from_ref(SrcRef::SSA(ssa(2, RegFile::GPR))), Src::zero()],
        dim: TexDim::Array2D,
        lod_mode: TexLodMode::Lod,
        deriv_mode: nak_ir::misc_ops::TexDerivMode::Auto,
        z_cmpr: true,
        offset_mode: TexOffsetMode::Unset,
        mem_eviction_priority: MemEvictionPriority::Normal,
        nodep: true,
        channel_mask: ChannelMask::new(0b1011),
    });
    assert_eq!(tex.to_text(), "%r1 = tex.a2d.ll.dc.nodep.rga c[0x1][0x30] %r2 rZ");
    assert_eq!(tex.num_dsts(), 3);
    assert!(!tex.has_fixed_latency(75));
    assert!(TexLodMode::Zero.is_explicit_lod() && !TexLodMode::Bias.is_explicit_lod());
    assert_eq!(ChannelMask::for_comps(3).to_bits(), 7);
    let txq = Op::Txq(OpTxq {
        dsts: [Dst::Null, Dst::Null],
        tex: TexRef::Bound(3),
        src: Src::zero(),
        query: TexQuery::TextureType,
        nodep: false,
        channel_mask: ChannelMask::for_comps(1),
    });
    assert_eq!(txq.to_text(), "null = txq.r tex[3] rZ texture_type");
}

use nak_ir::attr_ops::{CCtlOp, InterpFreq, InterpLoc, LdcMode, OpALd, OpCCtl, OpIpa, OpLdc, OpMemBar};
use nak_ir::surface_mem::{ImageAccess, OpSuSt};
use nak_ir::types::{ImageDim, MemOrder, MemScope, MemSpace, MemType};

#[test]
fn attribute_and_constant_loads() {
    let ldc = Op::Ldc(OpLdc {
        dst: Dst::Null,
        cb: Src::from_ref(SrcRef::CBuf(CBufRef { buf: CBuf::Binding(2), offset: 0x40 })),
        offset: Src::from_ref(SrcRef::SSA(ssa(5, RegFile::GPR))),
        mode: LdcMode::IndexedLinear,
        mem_type: MemType::B64,
    });
    assert_eq!(ldc.to_text(), "null = ldc.il.b64 c[0x2][%r5+0x40]");
    let ald = Op::ALd(OpALd {
        dst: Dst::Null,
        vtx: Src::from_ref(SrcRef::SSA(ssa(1, RegFile::GPR))),
        offset: Src::zero(),
        addr: 0x80,
        comps: 4,
        patch: true,
        output: false,
        phys: false,
    });
    assert_eq!(ald.to_text(), "null = ald.p a[%r1][0x80]");
    let ipa = Op::Ipa(OpIpa { dst: Dst::Null, addr: 0x7c, freq: InterpFreq::Pass, loc: InterpLoc::Offset, inv_w: Src::zero(), offset: Src::new_imm_u32(1) });
    assert_eq!(ipa.to_text(), "null = ipa.pass.offset a[0x7c] rZ 0x1");
    let cctl = Instr::new(Op::CCtl(OpCCtl { op: CCtlOp::IVAll, mem_space: MemSpace::Shared, addr: Src::zero(), addr_offset: 4 }));
    assert_eq!(cctl.op.to_text(), "cctl.shared");
    assert!(!cctl.can_eliminate());
    assert!(CCtlOp::WBAllP.is_all() && !CCtlOp::PF2.is_all());
    assert_eq!(Op::MemBar(OpMemBar { scope: MemScope::GPU }).to_text(), "membar.sc..gpu");
    let sust = Instr::new(Op::SuSt(OpSuSt {
        image_access: ImageAccess::Binary(MemType::B32),
        image_dim: ImageDim::_2D,
        mem_order: MemOrder::Weak,
        mem_eviction_priority: MemEvictionPriority::Normal,
        handle: Src::zero(),
        coord: Src::zero(),
        data: Src::zero(),
    }));
    assert!(sust.uses_global_mem() && sust.writes_global_mem());
    assert_eq!(sust.op.to_text(), "sust.b.b32.2d.weak [rZ] rZ rZ");
}


use nak_ir::control::{OpBMov, OpBSSy, OpBSync, OpBar, OpMatch, OpPixLd, OpSSy, OpTexDepBar, OpWarpSync, MatchOp, PixVal, MAX_TEXTURES_LEFT};

#[test]
fn control_kinds() {
    let bssy = Op::BSSy(OpBSSy { bar_out: Dst::Null, bar_in: Src::new_imm_bool(true), cond: Src::new_imm_bool(true), target: Label { idx: 4 } });
    assert_eq!(bssy.to_text(), "null = bssy pT pT L4");
    assert!(bssy.no_scoreboard());
    let bar = Instr::new(Op::Bar(OpBar {}));
    assert!(bar.needs_yield() && !bar.can_eliminate());
    let bsync = Instr::new(Op::BSync(OpBSync { bar: Src::zero(), cond: Src::new_imm_bool(true) }));
    assert!(bsync.needs_yield());
    assert!(!Instr::new(Op::SSy(OpSSy { target: Label { idx: 1 } })).needs_yield());
    assert_eq!(Op::WarpSync(OpWarpSync { mask: 0xffff_ffff }).to_text(), "warpsync 0xffffffff");
    assert_eq!(Op::TexDepBar(OpTexDepBar { textures_left: MAX_TEXTURES_LEFT }).to_text(), "texdepbar 62");
    assert_eq!(Op::PixLd(OpPixLd { dst: Dst::Null, val: PixVal::CovMask }).to_text(), "null = pixld.covmask");
    let m = Op::Match(OpMatch { pred: Dst::Null, mask: Dst::from_ssa(ssa(2, RegFile::GPR)), src: Src::zero(), op: MatchOp::Any, u64: true });
    assert_eq!(m.to_text(), "null %r2 = match.any.u64 rZ");
    assert!(!Instr::new(Op::BMov(OpBMov { dst: Dst::Null, src: Src::zero(), clear: true })).can_eliminate());
    assert!(Instr::new(Op::BMov(OpBMov { dst: Dst::Null, src: Src::zero(), clear: false })).can_eliminate());
}

use nak_ir::half_ops::{ImmaSize, OpHFma2, OpHSetP2, OpImma};
use nak_ir::virtual_ops::{OpCopy, OpOut, OpOutFinal, OutType};

#[test]
fn half_matrix_and_virtual_kinds() {
    let hfma = Op::HFma2(OpHFma2 { dst: Dst::Null, srcs: [Src::zero(), Src::zero(), Src::zero()], saturate: false, ftz: true, dnz: true, out_f32: true });
    assert_eq!(hfma.to_text(), "null = hfma2.f32.dnz rZ rZ rZ");
    assert_eq!(hfma.src_type(1), SrcType::F16v2);
    let hsetp = Op::HSetP2(OpHSetP2 {
        dsts: [Dst::Null, Dst::Null],
        set_op: PredSetOp::Or,
        cmp_op: FloatCmpOp::OrdGe,
        srcs: [Src::zero(), Src::zero()],
        accum: Src::new_imm_bool(true),
        ftz: false,
        horizontal: false,
    });
    assert_eq!(hsetp.to_text(), "null = hsetp2.ge.or rZ rZ pT");
    let imma = Op::Imma(OpImma { dst: Dst::Null, mat_size: ImmaSize::M16N8K32, src_types: [IntType::I8, IntType::U8], saturate: true, srcs: [Src::zero(), Src::zero(), Src::zero()] });
    assert_eq!(imma.to_text(), "null = imma.m16n8k32.i8.u8.sat rZ rZ rZ");
    let copy = Op::Copy(OpCopy { dst: Dst::Null, src: Src::zero() });
    assert_eq!(copy.to_text(), "null = copy rZ");
    let out = Instr::new(Op::Out(OpOut { dst: Dst::Null, handle: Src::zero(), stream: Src::zero(), out_type: OutType::EmitThenCut }));
    assert!(!out.can_eliminate());
    assert_eq!(out.op.to_text(), "null = out.emit_then_cut rZ rZ");
    assert_eq!(Op::OutFinal(OpOutFinal { handle: Src::zero() }).to_text(), "out.final { rZ }");
}

use nak_ir::wave_ops::{OpPLop3, OpViLd, OpVote, VoteOp};
use nak_ir::logic::LogicOp3;

#[test]
fn custom_destination_text() {
    let plop = Op::PLop3(OpPLop3 {
        dsts: [Dst::Null, Dst::Null],
        srcs: [Src::new_imm_bool(true), Src::new_imm_bool(false), Src::new_imm_bool(true)],
        ops: [LogicOp3 { lut: 0x80 }, LogicOp3 { lut: 0xf }],
    });
    assert_eq!(plop.to_text(), "null null = plop3 pT pF pT LUT[0x80] LUT[0xf]");
    let vote = Op::Vote(OpVote { op: VoteOp::All, ballot: Dst::Null, vote: Dst::Null, pred: Src::new_imm_bool(true) });
    assert_eq!(vote.to_text(), "none = vote.all pT");
    let vote = Op::Vote(OpVote { op: VoteOp::Any, ballot: Dst::from_ssa(ssa(1, RegFile::GPR)), vote: Dst::from_ssa(ssa(2, RegFile::Pred)), pred: Src::new_imm_bool(true) });
    assert_eq!(vote.to_text(), "%r1%p2 = vote.any pT");
    let vild = Op::ViLd(OpViLd { dst: Dst::Null, idx: Src::from_ref(SrcRef::SSA(ssa(3, RegFile::GPR))), off: -4 });
    assert_eq!(vild.to_text(), "null = vild v[%r3-4]");
    let vild = Op::ViLd(OpViLd { dst: Dst::Null, idx: Src::from_ref(SrcRef::SSA(ssa(3, RegFile::GPR))), off: 4 });
    assert_eq!(vild.to_text(), "null = vild v[%r3+4]");
    let vild = Op::ViLd(OpViLd { dst: Dst::Null, idx: Src::zero(), off: 7 });
    assert_eq!(vild.to_text(), "null = vild v[7]");
}

use nak_ir::virtual_ops::{OpParCopy, OpRegOut};

#[test]
fn variable_length_kinds() {
    let mut pc = OpParCopy::new();
    assert!(pc.is_empty());
    pc.push(Dst::from_ssa(ssa(1, RegFile::GPR)), Src::zero());
    pc.push(Dst::from_ssa(ssa(2, RegFile::GPR)), Src::new_imm_u32(5));
    let op = Op::ParCopy(pc);
    assert_eq!(op.to_text(), "par_copy %r1 = rZ, %r2 = 0x5");
    assert_eq!(op.num_srcs(), 2);
    assert_eq!(op.num_dsts(), 2);
    assert_eq!(op.dst_type(1), DstType::Vec);
    let out = Op::RegOut(OpRegOut { srcs: vec![Src::zero(), Src::new_imm_u32(1)] });
    assert_eq!(out.to_text(), "reg_out { rZ, 0x1 }");
    assert!(!Instr::new(out).can_eliminate());
}
