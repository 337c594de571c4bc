use nak_ir::block::{op_needs_scoreboard, BasicBlock, Instr, MemAccess, Op, OpAnnotate, OpAtom, OpBra, OpExit, OpLd, OpSt, PhiAllocator, Pred, PredRef};
use nak_ir::int_ops::{OpFlo, OpIAdd3};
use nak_ir::operand::{Dst, Src, SrcRef};
use nak_ir::reg::{Label, RegFile, RegRef};
use nak_ir::shader::{gpr_limit_from_local_size, max_warps_per_sm, Function, Shader, ShaderInfo};
use nak_ir::ssa::{SSARef, SSAValue};
use nak_ir::types::{AtomCmpSrc, AtomOp, AtomType, LdCacheOp, MemAddrType, MemEvictionPriority, MemOrder, MemScope, MemSpace, MemType, StCacheOp};

fn gpr(idx: u32) -> SSARef {
    SSARef::from_value(SSAValue { idx, file: RegFile::GPR })
}

fn access(space: MemSpace) -> MemAccess {
    MemAccess { mem_type: MemType::B32, space, order: MemOrder::Strong(MemScope::GPU), eviction_priority: MemEvictionPriority::Normal }
}

fn ld(space: MemSpace) -> Box<Instr> {
    Instr::new_boxed(Op::Ld(OpLd { dst: Dst::from_ssa(gpr(1)), addr: Src::from_ref(SrcRef::SSA(gpr(2))), offset: 16, access: access(space) }))
}

fn st(space: MemSpace) -> Box<Instr> {
    Instr::new_boxed(Op::St(OpSt { addr: Src::from_ref(SrcRef::SSA(gpr(2))), data: Src::from_ref(SrcRef::SSA(gpr(3))), offset: 0, access: access(space) }))
}

fn annotate() -> Box<Instr> {
    Instr::new_boxed(Op::Annotate(OpAnnotate { annotation: "note".to_string() }))
}

fn iadd3() -> Box<Instr> {
    Instr::new_boxed(Op::IAdd3(OpIAdd3 {
        dst: Dst::from_ssa(gpr(5)),
        overflow: [Dst::Null, Dst::Null],
        srcs: [Src::new_imm_u32(1), Src::zero(), Src::zero()],
    }))
}

fn info(num_gprs: u8) -> ShaderInfo {
    ShaderInfo {
        max_warps_per_sm: 0,
        num_gprs,
        num_control_barriers: 0,
        num_instrs: 0,
        num_static_cycles: 0,
        num_spills_to_mem: 0,
        num_fills_from_mem: 0,
        num_spills_to_reg: 0,
        num_fills_from_reg: 0,
        slm_size: 0,
        max_crs_depth: 0,
        uses_global_mem: false,
        writes_global_mem: false,
        uses_fp64: false,
    }
}

fn block(instrs: Vec<Box<Instr>>) -> BasicBlock {
    BasicBlock { label: Label { idx: 0 }, uniform: true, instrs }
}

#[test]
fn warp_and_register_limits() {
    assert_eq!(max_warps_per_sm(1), 48);
    assert_eq!(max_warps_per_sm(32), 48);
    assert_eq!(max_warps_per_sm(64), 32);
    assert_eq!(max_warps_per_sm(255), 8);
    assert_eq!(max_warps_per_sm(100), 16);
    assert_eq!(gpr_limit_from_local_size(&[1, 1, 1]), 255);
    assert_eq!(gpr_limit_from_local_size(&[16, 16, 1]), 255);
    assert_eq!(gpr_limit_from_local_size(&[32, 32, 1]), 64);
    assert_eq!(gpr_limit_from_local_size(&[100, 3, 1]), 168);
}

#[test]
fn gather_info_scans_every_instruction() {
    let f1 = Function { phi_alloc: PhiAllocator::new(), blocks: vec![block(vec![iadd3(), ld(MemSpace::Local)]), block(vec![annotate()])] };
    let f2 = Function { phi_alloc: PhiAllocator::new(), blocks: vec![block(vec![ld(MemSpace::Global(MemAddrType::A64))])] };
    let mut s = Shader { sm: 75, info: info(30), functions: vec![f1, f2] };
    s.gather_info(2);
    assert_eq!(s.info.num_instrs, 4);
    assert!(s.info.uses_global_mem);
    assert!(!s.info.writes_global_mem);
    assert!(!s.info.uses_fp64);
    assert_eq!(s.info.max_warps_per_sm, max_warps_per_sm(32));

    let f = Function { phi_alloc: PhiAllocator::new(), blocks: vec![block(vec![st(MemSpace::Global(MemAddrType::A32))])] };
    let mut s = Shader { sm: 50, info: info(10), functions: vec![f] };
    s.gather_info(0);
    assert!(s.info.uses_global_mem && s.info.writes_global_mem);
    assert_eq!(s.info.num_instrs, 1);

    let mut s = Shader { sm: 50, info: info(10), functions: vec![] };
    s.gather_info(0);
    assert_eq!(s.info.num_instrs, 0);
    assert!(!s.info.uses_global_mem);
}

#[test]
fn annotations_are_removed() {
    let mut b = block(vec![annotate(), iadd3(), annotate(), ld(MemSpace::Shared)]);
    b.remove_annotations();
    assert_eq!(b.instrs.len(), 2);
    assert!(matches!(b.instrs[0].op, Op::IAdd3(_)));
    assert!(matches!(b.instrs[1].op, Op::Ld(_)));
    let f = Function { phi_alloc: PhiAllocator::new(), blocks: vec![block(vec![annotate()]), block(vec![iadd3(), annotate()])] };
    let mut s = Shader { sm: 70, info: info(1), functions: vec![f] };
    s.remove_annotations();
    assert_eq!(s.functions[0].blocks[0].instrs.len(), 0);
    assert_eq!(s.functions[0].blocks[1].instrs.len(), 1);
}

#[test]
fn instruction_queries() {
    let l = ld(MemSpace::Local);
    assert!(!l.uses_global_mem() && !l.writes_global_mem() && l.can_eliminate());
    let g = st(MemSpace::Shared);
    assert!(g.uses_global_mem() && !g.writes_global_mem() && !g.can_eliminate());
    assert!(!annotate().can_eliminate());
    assert!(iadd3().op.has_fixed_latency(70));
    assert!(!op_needs_scoreboard(70, &iadd3().op));
    assert!(op_needs_scoreboard(70, &l.op));
    let flo = Op::Flo(OpFlo { dst: Dst::Null, src: Src::zero(), signed: false, return_shift_amount: false });
    assert!(op_needs_scoreboard(50, &flo));
    let bra = Op::Bra(OpBra { target: Label { idx: 1 } });
    assert!(bra.no_scoreboard() && !op_needs_scoreboard(50, &bra));
    assert!(!bra.is_fp64());

    let b = block(vec![iadd3(), Instr::new_boxed(Op::Exit(OpExit {}))]);
    assert!(!b.falls_through());
    let mut guarded = Instr::new(Op::Bra(OpBra { target: Label { idx: 1 } }));
    guarded.pred = Pred::from_ref(PredRef::Reg(RegRef::new(RegFile::Pred, 0, 1)));
    let b = block(vec![iadd3(), Box::new(guarded)]);
    assert!(b.falls_through());
    assert!(block(vec![iadd3()]).falls_through());
}

#[test]
fn cache_ops_from_access() {
    let a = MemAccess { mem_type: MemType::B64, space: MemSpace::Global(MemAddrType::A64), order: MemOrder::Constant, eviction_priority: MemEvictionPriority::First };
    assert_eq!(a.ld_cache_op(52), LdCacheOp::CacheIncoherent);
    let a = MemAccess { order: MemOrder::Weak, ..a };
    assert_eq!(a.st_cache_op(30), StCacheOp::CacheGlobal);
}

#[test]
fn memory_instruction_text() {
    assert_eq!(ld(MemSpace::Global(MemAddrType::A64)).op.to_text(), "%r1 = ld.global.a64.strong.gpu.b32 [%r2+0x10]");
    assert_eq!(st(MemSpace::Shared).op.to_text(), "st.shared.strong.gpu.b32 [%r2] %r3");
    let atom = Op::Atom(OpAtom {
        dst: Dst::from_ssa(gpr(7)),
        addr: Src::zero(),
        cmpr: Src::from_ref(SrcRef::SSA(gpr(8))),
        data: Src::from_ref(SrcRef::SSA(gpr(9))),
        atom_op: AtomOp::CmpExch(AtomCmpSrc::Separate),
        atom_type: AtomType::U32,
        addr_offset: 0x20,
        mem_space: MemSpace::Shared,
        mem_order: MemOrder::Weak,
        mem_eviction_priority: MemEvictionPriority::LastUse,
    });
    assert_eq!(atom.to_text(), "%r7 = atom.cmpexch.u32.shared.weak.lu [0x20] %r8 %r9");
}

use nak_ir::io::{SysValInfo, VtgIoInfo};

fn empty_io() -> VtgIoInfo {
    let sv = SysValInfo { ab: 0, c: 0 };
    VtgIoInfo {
        sysvals_in: sv,
        sysvals_in_d: 0,
        sysvals_out: sv,
        sysvals_out_d: 0,
        attr_in: [0; 4],
        attr_out: [0; 4],
        store_req_start: u8::MAX,
        store_req_end: 0,
        clip_enable: 0,
        cull_enable: 0,
    }
}

#[test]
fn vertex_io_marking() {
    let mut io = empty_io();
    io.mark_attrs_written(0x70..0x90);
    assert!(io.attr_written(0x70) && io.attr_written(0x7c) && io.attr_written(0x80) && io.attr_written(0x8c));
    assert!(!io.attr_written(0x90) && !io.attr_written(0x6c));
    assert_eq!(io.sysvals_out.ab, 0xf << 28);
    assert_eq!(io.attr_out[0], 0xf);
    // A start inside a slot marks that whole slot.
    io.mark_attrs_written(0x2c6..0x2c8);
    assert!(io.attr_written(0x2c4) && !io.attr_written(0x2c0));
    io.mark_attrs_written(0x3a0..0x3a4);
    assert_eq!(io.sysvals_out_d, 1);
    // Addresses without bookkeeping are skipped.
    io.mark_attrs_written(0x300..0x3a0);
    assert_eq!(io.sysvals_out_d, 1);
    io.mark_attrs_read(0x27c..0x280);
    assert_eq!(io.attr_in[3], 1 << 31);
    assert_eq!(io.attr_out[3], 0);
    io.mark_store_req(0x80..0x90);
    io.mark_store_req(0x40..0x44);
    assert_eq!((io.store_req_start, io.store_req_end), (0x10, 0x23));
}
