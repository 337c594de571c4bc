use nak_ir::block::{BasicBlock, Instr, InstrDeps, Op, OpAnnotate, OpBra, OpExit, OpPhiDsts, OpPhiSrcs, Phi, PhiAllocator, Pred, PredRef};
use nak_ir::int_ops::OpIAdd3;
use nak_ir::logic::{FloatCmpOp, IntCmpOp, LogicOp2, LogicOp3, PredSetOp};
use nak_ir::operand::{all_dsts_uniform, CBuf, CBufRef, Dst, Src, SrcMod, SrcRef, SrcSwizzle, SrcType};
use nak_ir::reg::{Label, LabelAllocator, PerRegFile, RegFile, RegFileSet, RegRef};
use nak_ir::ssa::{SSARef, SSAValue};
use nak_ir::types::{AtomOp, AtomType, IntType, LdCacheOp, MemOrder, MemEvictionPriority, MemScope, MemSpace, MemAddrType, MemType, StCacheOp};
use nak_ir::vec_pair::VecPair;

fn src(r: SrcRef, m: SrcMod, sw: SrcSwizzle) -> Src {
    Src { src_ref: r, src_mod: m, src_swizzle: sw }
}

fn ssa(file: RegFile, idx: u32) -> SSARef {
    SSARef::from_value(SSAValue { idx, file })
}

#[test]
fn reg_file_conversions() {
    assert_eq!(RegFile::try_from(0), Ok(RegFile::GPR));
    assert_eq!(RegFile::try_from(6), Ok(RegFile::Mem));
    assert_eq!(RegFile::try_from(7), Err("Invalid register file number"));
    assert_eq!(RegFile::try_from_u8(3), Ok(RegFile::UPred));
    assert_eq!(RegFile::try_from_u16(200), Err("Invalid register file number"));
    assert_eq!(RegFile::Carry.to_u8(), 4);
    assert!(RegFile::UGPR.is_uniform() && !RegFile::GPR.is_uniform());
    assert_eq!(RegFile::GPR.to_uniform(), Some(RegFile::UGPR));
    assert_eq!(RegFile::Bar.to_uniform(), None);
    assert_eq!(RegFile::UPred.to_warp(), RegFile::Pred);
    assert_eq!(RegFile::UPred.fmt_prefix(), "up");
    assert_eq!(RegFile::Mem.name(), "Mem");
}

#[test]
fn reg_file_set_iterates_in_order() {
    let mut set = RegFileSet::new();
    assert!(set.is_empty());
    assert!(set.insert(RegFile::Bar));
    assert!(set.insert(RegFile::GPR));
    assert!(!set.insert(RegFile::GPR));
    assert!(set.contains(RegFile::Bar));
    assert!(!set.contains(RegFile::Pred));
    assert!(set.remove(RegFile::Bar));
    assert!(!set.remove(RegFile::Bar));
    set.insert(RegFile::Mem);
    set.insert(RegFile::UPred);
    assert_eq!(set.next(), Some(RegFile::GPR));
    assert_eq!(set.next(), Some(RegFile::UPred));
    assert_eq!(set.next(), Some(RegFile::Mem));
    assert_eq!(set.next(), None);
}

#[test]
fn per_reg_file_holds_one_value_each() {
    let mut p = PerRegFile::new_with(|f: RegFile| f.to_u8() as u32 * 10);
    assert_eq!(*p.get(RegFile::Carry), 40);
    p.set(RegFile::Carry, 7);
    assert_eq!(*p.get(RegFile::Carry), 7);
    assert_eq!(p.values(), &[0, 10, 20, 30, 7, 50, 60]);
}

#[test]
fn reg_ref_round_trip() {
    for (file, base, comps) in [(RegFile::GPR, 0, 1), (RegFile::Mem, RegRef::MAX_IDX, 8), (RegFile::UPred, 12345, 3)] {
        let r = RegRef::new(file, base, comps);
        assert_eq!(r.file(), file);
        assert_eq!(r.base_idx(), base);
        assert_eq!(r.comps(), comps);
    }
    let r = RegRef::new(RegFile::UGPR, 4, 4);
    assert_eq!(r.idx_range(), 4..8);
    let c = r.comp(2);
    assert_eq!((c.file(), c.base_idx(), c.comps()), (RegFile::UGPR, 6, 1));
}

#[test]
fn labels_and_phis_are_fresh() {
    let mut labels = LabelAllocator::new();
    assert_eq!(labels.alloc_label(), Label { idx: 0 });
    assert_eq!(labels.alloc_label(), Label { idx: 1 });
    let mut phis = PhiAllocator::new();
    assert_eq!(phis.alloc_phi(), Phi { idx: 0 });
    assert_eq!(phis.alloc_phi(), Phi { idx: 1 });
}

#[test]
fn src_mod_composition() {
    let float_mods = [SrcMod::Plain, SrcMod::FAbs, SrcMod::FNeg, SrcMod::FNegAbs];
    for m in float_mods {
        assert_eq!(m.fneg().fneg(), m);
        assert_eq!(m.fabs().fabs(), m.fabs());
        assert!(m.fabs().has_fabs());
    }
    assert_eq!(SrcMod::Plain.modify(SrcMod::FAbs).modify(SrcMod::FNeg), SrcMod::FNegAbs);
    assert_eq!(SrcMod::Plain.modify(SrcMod::FNeg).modify(SrcMod::FAbs), SrcMod::FNegAbs);
    assert_eq!(SrcMod::FNegAbs.modify(SrcMod::FNeg), SrcMod::FAbs);
    assert_eq!(SrcMod::Plain.modify(SrcMod::FNegAbs), SrcMod::FNegAbs);
    assert_eq!(SrcMod::Plain.ineg().ineg(), SrcMod::Plain);
    assert_eq!(SrcMod::INeg.ineg(), SrcMod::Plain);
    assert_eq!(SrcMod::Plain.bnot().bnot(), SrcMod::Plain);
    assert_eq!(SrcMod::BNot.modify(SrcMod::BNot), SrcMod::Plain);
}

#[test]
fn src_as_u32_folds_modifiers() {
    let imm = |u: u32, m: SrcMod, sw: SrcSwizzle| src(SrcRef::Imm32(u), m, sw);
    assert_eq!(imm(5, SrcMod::Plain, SrcSwizzle::Xy).as_u32(SrcType::ALU), Some(5));
    assert_eq!(imm(5, SrcMod::INeg, SrcSwizzle::Xy).as_u32(SrcType::I32), None);
    assert_eq!(imm(5, SrcMod::BNot, SrcSwizzle::Xy).as_u32(SrcType::B32), Some(!5));
    assert_eq!(imm(0x3f80_0000, SrcMod::FNeg, SrcSwizzle::Xy).as_u32(SrcType::F32), Some(0xbf80_0000));
    assert_eq!(imm(0xbf80_0000, SrcMod::FAbs, SrcSwizzle::Xy).as_u32(SrcType::F64), Some(0x3f80_0000));
    assert_eq!(imm(0x1234_3c00, SrcMod::FNegAbs, SrcSwizzle::Xy).as_u32(SrcType::F16), Some(0xbc00));
    assert_eq!(imm(0x1111_2222, SrcMod::Plain, SrcSwizzle::Xx).as_u32(SrcType::F16v2), Some(0x2222_2222));
    assert_eq!(imm(0x1111_2222, SrcMod::FNeg, SrcSwizzle::Yy).as_u32(SrcType::F16v2), Some(0x9111_9111));
    assert_eq!(Src::zero().as_u32(SrcType::GPR), Some(0));
    assert_eq!(src(SrcRef::SSA(ssa(RegFile::GPR, 1)), SrcMod::Plain, SrcSwizzle::Xy).as_u32(SrcType::ALU), None);
    assert!(imm(0x8000_0000, SrcMod::Plain, SrcSwizzle::Xy).is_fneg_zero(SrcType::F32));
    assert!(!imm(0x8000_0000, SrcMod::Plain, SrcSwizzle::Xy).is_fneg_zero(SrcType::F16));
    assert!(src(SrcRef::Zero, SrcMod::FNeg, SrcSwizzle::Xy).is_fneg_zero(SrcType::F32));
}

#[test]
fn src_predicates() {
    assert!(Src::zero().is_zero());
    assert!(src(SrcRef::Imm32(0), SrcMod::FAbs, SrcSwizzle::Xy).is_zero());
    assert!(!src(SrcRef::Zero, SrcMod::INeg, SrcSwizzle::Xy).is_zero());
    assert!(Src::new_imm_u32(3).is_nonzero());
    assert_eq!(Src::new_imm_u32(0x0008_0000).as_imm_not_i20(), Some(0x0008_0000));
    assert_eq!(Src::new_imm_u32(0xfff8_0001).as_imm_not_i20(), None);
    assert_eq!(Src::new_imm_u32(0x3f80_0000).as_imm_not_f20(), None);
    assert_eq!(Src::new_imm_u32(0x3f80_0001).as_imm_not_f20(), Some(0x3f80_0001));
    assert_eq!(Src::new_imm_bool(true).as_bool(), Some(true));
    assert_eq!(src(SrcRef::True, SrcMod::BNot, SrcSwizzle::Xy).as_bool(), Some(false));
    assert_eq!(Src::from_ref(SrcRef::SSA(ssa(RegFile::Pred, 2))).as_bool(), None);
    let ugpr = Src::from_ref(SrcRef::Reg(RegRef::new(RegFile::UGPR, 1, 1)));
    assert!(ugpr.is_uniform());
    assert!(!Src::from_ref(SrcRef::SSA(ssa(RegFile::GPR, 1))).is_uniform());
    let bindless = SrcRef::CBuf(CBufRef { buf: CBuf::BindlessUGPR(RegRef::new(RegFile::UGPR, 2, 1)), offset: 8 });
    assert!(bindless.is_bindless_cbuf());
    assert!(bindless.get_reg().is_some());
}

#[test]
fn src_supports_type() {
    let gpr = Src::from_ref(SrcRef::SSA(ssa(RegFile::GPR, 1)));
    let pred = Src::from_ref(SrcRef::SSA(ssa(RegFile::Pred, 1)));
    let carry = Src::from_ref(SrcRef::SSA(ssa(RegFile::Carry, 1)));
    assert!(gpr.supports_type(&SrcType::SSA));
    assert!(gpr.supports_type(&SrcType::ALU));
    assert!(!Src::new_imm_u32(4).supports_type(&SrcType::SSA));
    assert!(Src::zero().supports_type(&SrcType::GPR));
    assert!(Src::new_imm_u32(4).supports_type(&SrcType::ALU));
    assert!(!Src::new_imm_bool(true).supports_type(&SrcType::ALU));
    assert!(gpr.clone().fneg().supports_type(&SrcType::F32));
    assert!(!gpr.clone().fneg().supports_type(&SrcType::I32));
    assert!(gpr.clone().ineg().supports_type(&SrcType::I32));
    assert!(gpr.clone().bnot().supports_type(&SrcType::B32));
    assert!(!gpr.clone().bnot().supports_type(&SrcType::ALU));
    assert!(pred.clone().bnot().supports_type(&SrcType::Pred));
    assert!(!gpr.supports_type(&SrcType::Pred));
    assert!(carry.supports_type(&SrcType::Carry));
    assert!(!carry.supports_type(&SrcType::Bar));
}

#[test]
fn dst_uniformity() {
    let u = Dst::from_reg(RegRef::new(RegFile::UGPR, 0, 1));
    let g = Dst::from_ssa(ssa(RegFile::GPR, 0));
    assert!(all_dsts_uniform(&[Dst::Null, u.clone()]));
    assert!(!all_dsts_uniform(&[Dst::Null, g]));
    assert!(!all_dsts_uniform(&[Dst::Null]));
    assert!(!all_dsts_uniform(&[]));
    assert!(Dst::from_opt_ssa(None).is_none());
    assert_eq!(u.as_reg().map(|r| r.base_idx()), Some(0));
}

#[test]
fn logic_op2_luts_match_their_operation() {
    for (op, expect) in [(LogicOp2::And, 0xc0u8), (LogicOp2::Or, 0xfc), (LogicOp2::Xor, 0x3c), (LogicOp2::PassB, 0xcc)] {
        assert_eq!(op.to_lut().lut, expect);
    }
    for x in [0u32, 0xff, 0x5a, 0xf0f0_1234] {
        for y in [0u32, 0xff, 0x3c, 0x0ff0_8765] {
            for z in [0u32, 0xff, 0x99] {
                assert_eq!(LogicOp2::And.to_lut().eval(x, y, z), x & y);
                assert_eq!(LogicOp2::Or.to_lut().eval(x, y, z), x | y);
                assert_eq!(LogicOp2::Xor.to_lut().eval(x, y, z), x ^ y);
                assert_eq!(LogicOp2::PassB.to_lut().eval(x, y, z), y);
            }
        }
    }
}

#[test]
fn logic_op3_specialization() {
    let and3 = LogicOp3::new_lut(&|x: u8, y: u8, z: u8| x & y & z);
    assert_eq!(and3.lut, 0x80);
    assert!(and3.src_used(0) && and3.src_used(1) && and3.src_used(2));
    let pass_a = LogicOp3 { lut: 0xf0 };
    assert!(pass_a.src_used(0) && !pass_a.src_used(1) && !pass_a.src_used(2));
    let mut l = and3;
    l.fix_src(2, true);
    assert_eq!(l.lut, 0xc0);
    let mut l = and3;
    l.fix_src(0, false);
    assert_eq!(l.lut, 0);
    let mut l = LogicOp3 { lut: 0xf0 };
    l.invert_src(0);
    assert_eq!(l.lut, 0x0f);
    assert_eq!(LogicOp3::new_const(true).lut, 0xff);
    assert_eq!(LogicOp3::new_const(false).eval(1, 2, 3), 0);
}

#[test]
fn pred_set_op_triviality() {
    let t = Src::new_imm_bool(true);
    let f = Src::new_imm_bool(false);
    let reg = Src::from_ref(SrcRef::Reg(RegRef::new(RegFile::Pred, 0, 1)));
    assert!(PredSetOp::And.is_trivial(&t));
    assert!(!PredSetOp::And.is_trivial(&f));
    assert!(PredSetOp::Or.is_trivial(&f));
    assert!(PredSetOp::Xor.is_trivial(&f));
    assert!(!PredSetOp::Or.is_trivial(&t));
    assert!(!PredSetOp::And.is_trivial(&reg));
    assert!(!PredSetOp::Xor.is_trivial(&reg));
    assert!(PredSetOp::And.is_trivial(&f.clone().bnot()));
    assert!(PredSetOp::Xor.eval(true, false));
}

#[test]
fn compare_ops_flip() {
    assert_eq!(IntCmpOp::Lt.flip(), IntCmpOp::Gt);
    assert_eq!(IntCmpOp::Eq.flip(), IntCmpOp::Eq);
    assert_eq!(FloatCmpOp::UnordLe.flip(), FloatCmpOp::UnordGe);
    assert_eq!(FloatCmpOp::OrdNe.flip(), FloatCmpOp::OrdNe);
    assert!(IntCmpOp::Le.eval_i32(-3, 2));
}

#[test]
fn type_tables() {
    assert_eq!(IntType::from_bits(16, true), IntType::I16);
    assert_eq!(IntType::from_bits(64, false).bits(), 64);
    assert_eq!(MemType::from_size(2, true), MemType::I16);
    assert_eq!(MemType::from_size(16, true), MemType::B128);
    assert_eq!(AtomType::U(64), AtomType::U64);
    assert!(AtomType::F(32).is_float());
    assert_eq!(AtomType::I(32).bits(), 32);
    assert!(AtomOp::Add.is_reduction());
    assert!(!AtomOp::Exch.is_reduction());
    assert_eq!(MemSpace::Global(MemAddrType::A64).addr_type(), MemAddrType::A64);
    let g = MemSpace::Global(MemAddrType::A64);
    assert_eq!(LdCacheOp::select(50, g, MemOrder::Constant, MemEvictionPriority::Normal), LdCacheOp::CacheIncoherent);
    assert_eq!(LdCacheOp::select(35, g, MemOrder::Constant, MemEvictionPriority::Normal), LdCacheOp::CacheAll);
    assert_eq!(LdCacheOp::select(35, g, MemOrder::Weak, MemEvictionPriority::Normal), LdCacheOp::CacheGlobal);
    assert_eq!(LdCacheOp::select(75, g, MemOrder::Strong(MemScope::System), MemEvictionPriority::Normal), LdCacheOp::CacheInvalidate);
    assert_eq!(LdCacheOp::select(35, MemSpace::Shared, MemOrder::Weak, MemEvictionPriority::Normal), LdCacheOp::CacheAll);
    assert_eq!(StCacheOp::select(35, g, MemOrder::Weak, MemEvictionPriority::Normal), StCacheOp::CacheGlobal);
    assert_eq!(StCacheOp::select(75, g, MemOrder::Strong(MemScope::System), MemEvictionPriority::Normal), StCacheOp::WriteThrough);
    assert_eq!(StCacheOp::select(75, MemSpace::Local, MemOrder::Weak, MemEvictionPriority::Normal), StCacheOp::WriteBack);
}

#[test]
fn vec_pair_retain_keeps_order() {
    let mut v: VecPair<u32, u32> = VecPair::new();
    for i in 0..6u32 {
        v.push(i, i * 10);
    }
    v.retain(|a: &u32, _b: &u32| a % 2 == 0);
    assert_eq!(v.len(), 3);
    assert_eq!(v.get(1), (&2, &20));
    assert_eq!(v.get(2), (&4, &40));
    let mut w: VecPair<u32, u32> = VecPair::new();
    w.push(9, 90);
    v.append(&mut w);
    assert!(w.is_empty());
    assert_eq!(v.get(3), (&9, &90));
}

fn annotate(s: &str) -> Box<Instr> {
    Instr::new_boxed(Op::Annotate(OpAnnotate { annotation: s.to_string() }))
}

fn iadd3() -> Box<Instr> {
    Instr::new_boxed(Op::IAdd3(OpIAdd3 {
        dst: Dst::from_ssa(ssa(RegFile::GPR, 3)),
        overflow: [Dst::Null, Dst::Null],
        srcs: [Src::new_imm_u32(1), Src::zero(), Src::zero()],
    }))
}

fn block(instrs: Vec<Box<Instr>>) -> BasicBlock {
    BasicBlock { label: Label { idx: 0 }, uniform: false, instrs }
}

#[test]
fn block_phi_discovery() {
    let mut dsts = OpPhiDsts::new();
    dsts.dsts.push(Phi { idx: 0 }, Dst::from_ssa(ssa(RegFile::GPR, 1)));
    let mut srcs = OpPhiSrcs::new();
    srcs.srcs.push(Phi { idx: 1 }, Src::new_imm_u32(2));
    let b = block(vec![
        annotate("a"),
        Instr::new_boxed(Op::PhiDsts(dsts)),
        iadd3(),
        Instr::new_boxed(Op::PhiSrcs(srcs)),
        annotate("b"),
        Instr::new_boxed(Op::Bra(OpBra { target: Label { idx: 2 } })),
    ]);
    assert_eq!(b.phi_dsts_ip(), Some(1));
    assert_eq!(b.phi_dsts().map(|p| p.dsts.len()), Some(1));
    assert_eq!(b.phi_srcs_ip(), Some(3));
    assert_eq!(b.phi_srcs().map(|p| p.srcs.len()), Some(1));
    assert_eq!(b.branch_ip(), Some(5));
    assert!(b.branch().is_some());

    let b = block(vec![iadd3(), Instr::new_boxed(Op::PhiDsts(OpPhiDsts::new())), iadd3()]);
    assert_eq!(b.phi_dsts_ip(), None);
    assert!(b.phi_dsts().is_none());
    assert_eq!(b.phi_srcs_ip(), None);
    assert!(b.phi_srcs().is_none());
    assert_eq!(b.branch_ip(), None);

    let b = block(vec![]);
    assert_eq!(b.phi_dsts_ip(), None);
    assert_eq!(b.phi_srcs_ip(), None);
}

#[test]
fn instr_deps_bars() {
    let mut d = InstrDeps::new();
    assert_eq!(d.rd_bar(), None);
    d.set_rd_bar(2);
    d.set_wr_bar(5);
    d.add_wt_bar(1);
    d.add_wt_bar_mask(0b100100);
    d.add_reuse(0);
    d.set_delay(3);
    d.set_yield(true);
    assert_eq!((d.rd_bar(), d.wr_bar(), d.wt_bar_mask, d.reuse_mask, d.delay, d.yld), (Some(2), Some(5), 0b100110, 1, 3, true));
}

#[test]
fn text_rendering() {
    let r = RegRef::new(RegFile::GPR, 4, 2);
    assert_eq!(Dst::from_reg(r).to_text(), "r4..6");
    assert_eq!(Dst::Null.to_text(), "null");
    assert_eq!(src(SrcRef::Imm32(0x1f), SrcMod::FNegAbs, SrcSwizzle::Xy).to_text(), "-|0x1f|");
    assert_eq!(src(SrcRef::SSA(ssa(RegFile::UGPR, 7)), SrcMod::BNot, SrcSwizzle::Yy).to_text(), "!%ur7.yy");
    assert_eq!(Src::from_ref(SrcRef::CBuf(CBufRef { buf: CBuf::Binding(1), offset: 0x10 })).to_text(), "c[0x1][0x10]");
    let vec2 = SSARef::new(vec![SSAValue { idx: 1, file: RegFile::GPR }, SSAValue { idx: 2, file: RegFile::GPR }]);
    assert_eq!(Dst::from_ssa(vec2).to_text(), "{ %r1 %r2 }");
}

#[test]
fn instruction_text_is_deterministic() {
    let mut i = Instr::new(Op::IAdd3(OpIAdd3 {
        dst: Dst::from_ssa(ssa(RegFile::GPR, 3)),
        overflow: [Dst::from_ssa(ssa(RegFile::Pred, 4)), Dst::Null],
        srcs: [Src::new_imm_u32(1), Src::zero().ineg(), Src::from_ref(SrcRef::Reg(RegRef::new(RegFile::GPR, 2, 1)))],
    }));
    i.pred = Pred::from_ref(PredRef::Reg(RegRef::new(RegFile::Pred, 1, 1))).bnot();
    i.deps.set_delay(2);
    i.deps.set_wr_bar(1);
    i.deps.add_wt_bar(3);
    let a = i.to_text();
    let b = i.to_text();
    assert_eq!(a, b);
    assert_eq!(a, "@!p1  %r3 %p4 = iadd3 0x1 -rZ r2 delay=2 wt=001000 wr:1");
    let e = Instr::new(Op::Exit(OpExit {}));
    assert_eq!(e.to_text(), " exit");
}

#[test]
fn reg_file_set_len() {
    let mut set = RegFileSet::new();
    assert_eq!(set.len(), 0);
    set.insert(RegFile::UGPR);
    set.insert(RegFile::Mem);
    set.insert(RegFile::UGPR);
    assert_eq!(set.len(), 2);
}

#[test]
fn logic_op3_fix_and_invert_match_evaluation() {
    for lut in [0x00u8, 0x80, 0x96, 0xe8, 0x5a, 0xff] {
        for (x, y, z) in [(0x1234_5678u32, 0x0f0f_0f0fu32, 0xff00_ff00u32), (0, 0xffff_ffff, 0xaaaa_aaaa)] {
            for i in 0..3usize {
                let mut t = LogicOp3 { lut };
                t.fix_src(i, true);
                let fixed = [if i == 0 { !0 } else { x }, if i == 1 { !0 } else { y }, if i == 2 { !0 } else { z }];
                assert_eq!(t.eval(x, y, z), LogicOp3 { lut }.eval(fixed[0], fixed[1], fixed[2]));
                let mut t = LogicOp3 { lut };
                t.invert_src(i);
                let inv = [if i == 0 { !x } else { x }, if i == 1 { !y } else { y }, if i == 2 { !z } else { z }];
                assert_eq!(t.eval(x, y, z), LogicOp3 { lut }.eval(inv[0], inv[1], inv[2]));
            }
        }
    }
}

#[test]
fn reg_file_set_from_files() {
    let mut set = RegFileSet::from_files(&[RegFile::Bar, RegFile::GPR, RegFile::Bar]);
    assert_eq!(set.len(), 2);
    let copy = set.iter();
    assert_eq!(copy.len(), 2);
    assert_eq!(set.next(), Some(RegFile::GPR));
    assert_eq!(set.next(), Some(RegFile::Bar));
    assert!(set.is_empty());
}
