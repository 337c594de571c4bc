use vstd::prelude::*;
use crate::block::{BasicBlock, Instr, Op, PhiAllocator, spec_op_is_fp64, spec_uses_global_mem, spec_writes_global_mem};
use crate::vec_pair::kept;

verus! {

/// `x` rounded up to a multiple of `m`.
pub open spec fn round_up(x: int, m: int) -> int {
    (x + m - 1) / m * m
}

/// `x` rounded down to a multiple of `m`.
pub open spec fn round_down(x: int, m: int) -> int {
    x / m * m
}

pub open spec fn spec_min(a: int, b: int) -> int {
    if a <= b { a } else { b }
}

/// The warps that fit on a multiprocessor when each thread needs `gprs`
/// registers: 65536 registers shared by warps of 32 threads, registers
/// given out in multiples of 8 and warps in multiples of 4, at most 48.
pub open spec fn spec_max_warps_per_sm(gprs: u32) -> int {
    spec_min(round_down(2048int / round_up(gprs as int, 8), 4), 48)
}

/// The registers each thread may use when `threads` threads run together:
/// warps come in groups of 4 and registers in multiples of 8, at most 255.
pub open spec fn spec_gpr_limit(threads: int) -> int {
    spec_min(round_down(65536int / round_up(threads, 128), 8), 255)
}

pub fn max_warps_per_sm(gprs: u32) -> (r: u32)
    requires
        1 <= gprs <= 0xffff_fff8,
    ensures
        r == spec_max_warps_per_sm(gprs),
{
    let total_regs: u32 = 65536;
    let g = (gprs + 7) / 8 * 8;
    assert(g >= 8) by (nonlinear_arith)
        requires
            gprs >= 1,
            g == (gprs + 7) / 8 * 8,
    ;
    let max_warps = (total_regs / 32) / g / 4 * 4;
    if max_warps < 48 {
        max_warps
    } else {
        48
    }
}

/// The register limit for a workgroup of the given size.
pub fn gpr_limit_from_local_size(local_size: &[u16; 3]) -> (r: u32)
    requires
        1 <= local_size[0] * local_size[1] * local_size[2] <= 0xff80,
    ensures
        r == spec_gpr_limit(local_size[0] * local_size[1] * local_size[2]),
{
    let a = local_size[0] as u32;
    let b = local_size[1] as u32;
    let c = local_size[2] as u32;
    assert(c != 0) by (nonlinear_arith)
        requires
            1 <= a * b * c,
    ;
    assert(a * b <= 0xff80) by (nonlinear_arith)
        requires
            1 <= a * b * c <= 0xff80,
            c >= 1,
    ;
    let threads = a * b * c;
    let rounded = (threads + 127) / 128 * 128;
    assert(rounded >= 128) by (nonlinear_arith)
        requires
            threads >= 1,
            rounded == (threads + 127) / 128 * 128,
    ;
    let total_regs: u32 = 65536;
    let out = total_regs / rounded / 8 * 8;
    if out < 255 {
        out
    } else {
        255
    }
}

/// Summary facts about a shader.
pub struct ShaderInfo {
    pub max_warps_per_sm: u32,
    pub num_gprs: u8,
    pub num_control_barriers: u8,
    pub num_instrs: u32,
    pub num_static_cycles: u32,
    pub num_spills_to_mem: u32,
    pub num_fills_from_mem: u32,
    pub num_spills_to_reg: u32,
    pub num_fills_from_reg: u32,
    pub slm_size: u32,
    pub max_crs_depth: u32,
    pub uses_global_mem: bool,
    pub writes_global_mem: bool,
    pub uses_fp64: bool,
}

/// A function: its phi allocator and its blocks in layout order. The edges
/// between blocks belong to the control-flow graph, kept elsewhere.
pub struct Function {
    pub phi_alloc: PhiAllocator,
    pub blocks: Vec<BasicBlock>,
}

/// A shader for shader model `sm`.
pub struct Shader {
    pub sm: u8,
    pub info: ShaderInfo,
    pub functions: Vec<Function>,
}

/// The instructions of `blocks`, in order.
pub open spec fn block_instrs(blocks: Seq<BasicBlock>) -> Seq<Box<Instr>>
    decreases blocks.len(),
{
    if blocks.len() == 0 {
        Seq::empty()
    } else {
        block_instrs(blocks.drop_last()) + blocks.last().instrs@
    }
}

/// The instructions of `funcs`, in order.
pub open spec fn func_instrs(funcs: Seq<Function>) -> Seq<Box<Instr>>
    decreases funcs.len(),
{
    if funcs.len() == 0 {
        Seq::empty()
    } else {
        func_instrs(funcs.drop_last()) + block_instrs(funcs.last().blocks@)
    }
}

/// Some instruction of `instrs` touches non-local memory.
pub open spec fn any_uses_global_mem(instrs: Seq<Box<Instr>>) -> bool {
    exists|k: int| 0 <= k < instrs.len() && spec_uses_global_mem(&(#[trigger] instrs[k]).op)
}

/// Some instruction of `instrs` writes global memory.
pub open spec fn any_writes_global_mem(instrs: Seq<Box<Instr>>) -> bool {
    exists|k: int| 0 <= k < instrs.len() && spec_writes_global_mem(&(#[trigger] instrs[k]).op)
}

/// Some instruction of `instrs` works on 64-bit floats.
pub open spec fn any_uses_fp64(instrs: Seq<Box<Instr>>) -> bool {
    exists|k: int| 0 <= k < instrs.len() && spec_op_is_fp64(&(#[trigger] instrs[k]).op)
}

/// Which instructions are not annotations.
pub open spec fn not_annotations(instrs: Seq<Box<Instr>>) -> Seq<bool> {
    Seq::new(instrs.len(), |i: int| !(instrs[i].op is Annotate))
}

impl BasicBlock {
    /// Removes the annotations, keeping the other instructions in order.
    pub fn remove_annotations(&mut self)
        ensures
            final(self).instrs@ == kept(old(self).instrs@, not_annotations(old(self).instrs@)),
            final(self).label == old(self).label,
            final(self).uniform == old(self).uniform,
    {
        let mut rest: Vec<Box<Instr>> = Vec::new();
        std::mem::swap(&mut rest, &mut self.instrs);
        let ghost all = rest@;
        let n = rest.len();
        let mut i: usize = 0;
        while i < n
            invariant
                n == all.len(),
                i <= n,
                rest@ == all.subrange(i as int, n as int),
                self.label == old(self).label,
                self.uniform == old(self).uniform,
                self.instrs@ == kept(all.subrange(0, i as int), not_annotations(all).take(i as int)),
            decreases n - i,
        {
            let instr = rest.remove(0);
            let keep = match instr.op {
                Op::Annotate(_) => false,
                _ => true,
            };
            proof {
                assert(instr == all[i as int]);
                assert(rest@ =~= all.subrange(i + 1, n as int));
                assert(all.subrange(0, i + 1).drop_last() =~= all.subrange(0, i as int));
                assert(not_annotations(all).take(i + 1).drop_last() =~= not_annotations(all).take(i as int));
            }
            if keep {
                self.instrs.push(instr);
            }
            i = i + 1;
        }
        proof {
            assert(all.subrange(0, n as int) =~= all);
            assert(not_annotations(all).take(n as int) =~= not_annotations(all));
        }
    }
}

/// `after` is `before` with the annotations of every block removed.
pub open spec fn annotations_removed(before: Function, after: Function) -> bool {
    &&& after.blocks@.len() == before.blocks@.len()
    &&& forall|j: int| 0 <= j < before.blocks@.len() ==> (#[trigger] after.blocks@[j]).instrs@ == kept(
        before.blocks@[j].instrs@,
        not_annotations(before.blocks@[j].instrs@),
    )
}

impl Function {
    /// Removes the annotations from every block.
    pub fn remove_annotations(&mut self)
        ensures
            annotations_removed(*old(self), *final(self)),
    {
        let n = self.blocks.len();
        let mut j: usize = 0;
        while j < n
            invariant
                j <= n,
                n == self.blocks@.len(),
                n == old(self).blocks@.len(),
                forall|k: int| 0 <= k < j ==> (#[trigger] self.blocks@[k]).instrs@ == kept(
                    old(self).blocks@[k].instrs@,
                    not_annotations(old(self).blocks@[k].instrs@),
                ),
                forall|k: int| j <= k < n ==> #[trigger] self.blocks@[k] == old(self).blocks@[k],
            decreases n - j,
        {
            let ghost prev = self.blocks@;
            let mut b = self.blocks.remove(j);
            b.remove_annotations();
            self.blocks.insert(j, b);
            proof {
                assert(self.blocks@ =~= prev.update(j as int, b));
            }
            j = j + 1;
        }
    }
}

impl Shader {
    /// Removes the annotations of every function, as encoding requires.
    pub fn remove_annotations(&mut self)
        ensures
            final(self).functions@.len() == old(self).functions@.len(),
            forall|f: int| 0 <= f < old(self).functions@.len() ==> #[trigger] annotations_removed(
                old(self).functions@[f],
                final(self).functions@[f],
            ),
    {
        let n = self.functions.len();
        let mut i: usize = 0;
        while i < n
            invariant
                i <= n,
                n == self.functions@.len(),
                n == old(self).functions@.len(),
                forall|f: int| 0 <= f < i ==> #[trigger] annotations_removed(
                    old(self).functions@[f],
                    self.functions@[f],
                ),
                forall|f: int| i <= f < n ==> #[trigger] self.functions@[f] == old(self).functions@[f],
            decreases n - i,
        {
            let ghost prev = self.functions@;
            let mut func = self.functions.remove(i);
            func.remove_annotations();
            self.functions.insert(i, func);
            proof {
                assert(self.functions@ =~= prev.update(i as int, func));
                assert(annotations_removed(old(self).functions@[i as int], func));
                assert forall|f: int| 0 <= f < i + 1 implies #[trigger] annotations_removed(
                    old(self).functions@[f],
                    self.functions@[f],
                ) by {
                    if f < i {
                        assert(self.functions@[f] == prev[f]);
                    }
                }
            }
            i = i + 1;
        }
    }

    /// All instructions of the shader, function by function and block by
    /// block.
    pub open spec fn spec_instrs(&self) -> Seq<Box<Instr>> {
        func_instrs(self.functions@)
    }

    /// Scans every instruction once and records the instruction count and
    /// whether global memory is used or written; the warp limit follows from
    /// the registers used plus `hw_reserved_gprs`, reserved by the hardware.
    pub fn gather_info(&mut self, hw_reserved_gprs: u32)
        requires
            old(self).spec_instrs().len() <= u32::MAX,
            hw_reserved_gprs <= 0xffff_fe00,
            old(self).info.num_gprs as u32 + hw_reserved_gprs >= 1,
        ensures
            final(self).info.num_instrs == old(self).spec_instrs().len(),
            final(self).info.uses_global_mem == any_uses_global_mem(old(self).spec_instrs()),
            final(self).info.writes_global_mem == any_writes_global_mem(old(self).spec_instrs()),
            final(self).info.uses_fp64 == any_uses_fp64(old(self).spec_instrs()),
            final(self).info.max_warps_per_sm == spec_max_warps_per_sm(
                (old(self).info.num_gprs as u32 + hw_reserved_gprs) as u32,
            ),
            final(self).info.num_gprs == old(self).info.num_gprs,
            final(self).functions@ == old(self).functions@,
            final(self).sm == old(self).sm,
    {
        let ghost all = self.spec_instrs();
        let ghost mut seen: Seq<Box<Instr>> = Seq::empty();
        let mut num_instrs: u32 = 0;
        let mut uses_global_mem = false;
        let mut writes_global_mem = false;
        let mut uses_fp64 = false;
        let nf = self.functions.len();
        let mut fi: usize = 0;
        while fi < nf
            invariant
                fi <= nf,
                nf == self.functions@.len(),
                all == func_instrs(self.functions@),
                all.len() <= u32::MAX,
                seen == func_instrs(self.functions@.take(fi as int)),
                num_instrs == seen.len(),
                uses_global_mem == any_uses_global_mem(seen),
                writes_global_mem == any_writes_global_mem(seen),
                uses_fp64 == any_uses_fp64(seen),
            decreases nf - fi,
        {
            let func = &self.functions[fi];
            let nb = func.blocks.len();
            let ghost before = seen;
            let mut bi: usize = 0;
            proof {
                lemma_func_instrs_prefix(self.functions@, fi as int);
                assert(seen =~= before + block_instrs(func.blocks@.take(0)));
            }
            while bi < nb
                invariant
                    bi <= nb,
                    nb == func.blocks@.len(),
                    func == self.functions@[fi as int],
                    fi < nf,
                    nf == self.functions@.len(),
                    all == func_instrs(self.functions@),
                    all.len() <= u32::MAX,
                    before == func_instrs(self.functions@.take(fi as int)),
                    before + block_instrs(func.blocks@) == func_instrs(self.functions@.take(fi + 1)),
                    func_instrs(self.functions@.take(fi + 1)).len() <= all.len(),
                    seen == before + block_instrs(func.blocks@.take(bi as int)),
                    num_instrs == seen.len(),
                    uses_global_mem == any_uses_global_mem(seen),
                    writes_global_mem == any_writes_global_mem(seen),
                    uses_fp64 == any_uses_fp64(seen),
                decreases nb - bi,
            {
                let b = &func.blocks[bi];
                let ni = b.instrs.len();
                let ghost before_b = seen;
                proof {
                    lemma_block_instrs_prefix(func.blocks@, bi as int);
                    assert(block_instrs(func.blocks@.take(bi + 1)) =~= block_instrs(func.blocks@.take(bi as int))
                        + b.instrs@);
                    lemma_block_instrs_len(func.blocks@, bi + 1);
                    assert(seen =~= before_b + b.instrs@.take(0));
                }
                let mut ii: usize = 0;
                while ii < ni
                    invariant
                        ii <= ni,
                        ni == b.instrs@.len(),
                        all.len() <= u32::MAX,
                        before_b.len() + ni <= all.len(),
                        seen == before_b + b.instrs@.take(ii as int),
                        num_instrs == seen.len(),
                        uses_global_mem == any_uses_global_mem(seen),
                        writes_global_mem == any_writes_global_mem(seen),
                        uses_fp64 == any_uses_fp64(seen),
                    decreases ni - ii,
                {
                    let instr = &b.instrs[ii];
                    num_instrs = num_instrs + 1;
                    let u = instr.uses_global_mem();
                    let w = instr.writes_global_mem();
                    let fp = instr.op.is_fp64();
                    proof {
                        let next = seen.push(*instr);
                        assert(next =~= before_b + b.instrs@.take(ii + 1));
                        if u && !uses_global_mem {
                            assert(next[next.len() - 1] == *instr);
                        }
                        if w && !writes_global_mem {
                            assert(next[next.len() - 1] == *instr);
                        }
                        if uses_global_mem {
                            let k = choose|k: int| 0 <= k < seen.len() && spec_uses_global_mem(&(#[trigger] seen[k]).op);
                            assert(next[k] == seen[k]);
                        }
                        if writes_global_mem {
                            let k = choose|k: int| 0 <= k < seen.len() && spec_writes_global_mem(&(#[trigger] seen[k]).op);
                            assert(next[k] == seen[k]);
                        }
                        if !uses_global_mem && !u {
                            assert forall|k: int| 0 <= k < next.len() implies !spec_uses_global_mem(&(#[trigger] next[k]).op) by {
                                if k < seen.len() {
                                    assert(next[k] == seen[k]);
                                }
                            }
                        }
                        if fp && !uses_fp64 {
                            assert(next[next.len() - 1] == *instr);
                        }
                        if uses_fp64 {
                            let k = choose|k: int| 0 <= k < seen.len() && spec_op_is_fp64(&(#[trigger] seen[k]).op);
                            assert(next[k] == seen[k]);
                        }
                        if !uses_fp64 && !fp {
                            assert forall|k: int| 0 <= k < next.len() implies !spec_op_is_fp64(&(#[trigger] next[k]).op) by {
                                if k < seen.len() {
                                    assert(next[k] == seen[k]);
                                }
                            }
                        }
                        if !writes_global_mem && !w {
                            assert forall|k: int| 0 <= k < next.len() implies !spec_writes_global_mem(&(#[trigger] next[k]).op) by {
                                if k < seen.len() {
                                    assert(next[k] == seen[k]);
                                }
                            }
                        }
                        seen = next;
                    }
                    uses_global_mem = uses_global_mem || u;
                    writes_global_mem = writes_global_mem || w;
                    uses_fp64 = uses_fp64 || fp;
                    ii = ii + 1;
                }
                proof {
                    assert(b.instrs@.take(ni as int) =~= b.instrs@);
                }
                bi = bi + 1;
            }
            proof {
                assert(func.blocks@.take(nb as int) =~= func.blocks@);
            }
            fi = fi + 1;
        }
        proof {
            assert(self.functions@.take(nf as int) =~= self.functions@);
        }
        self.info.num_instrs = num_instrs;
        self.info.uses_global_mem = uses_global_mem;
        self.info.writes_global_mem = writes_global_mem;
        self.info.uses_fp64 = uses_fp64;
        self.info.max_warps_per_sm = max_warps_per_sm(self.info.num_gprs as u32 + hw_reserved_gprs);
    }
}

proof fn lemma_block_instrs_prefix(blocks: Seq<BasicBlock>, i: int)
    requires
        0 <= i < blocks.len(),
    ensures
        block_instrs(blocks.take(i + 1)) == block_instrs(blocks.take(i)) + blocks[i].instrs@,
{
    assert(blocks.take(i + 1).drop_last() =~= blocks.take(i));
}

proof fn lemma_block_instrs_len(blocks: Seq<BasicBlock>, i: int)
    requires
        0 <= i <= blocks.len(),
    ensures
        block_instrs(blocks.take(i)).len() <= block_instrs(blocks).len(),
    decreases blocks.len() - i,
{
    if i < blocks.len() {
        lemma_block_instrs_prefix(blocks, i);
        lemma_block_instrs_len(blocks, i + 1);
    } else {
        assert(blocks.take(i) =~= blocks);
    }
}

proof fn lemma_func_instrs_prefix(funcs: Seq<Function>, i: int)
    requires
        0 <= i < funcs.len(),
    ensures
        func_instrs(funcs.take(i + 1)) == func_instrs(funcs.take(i)) + block_instrs(funcs[i].blocks@),
        func_instrs(funcs.take(i + 1)).len() <= func_instrs(funcs).len(),
{
    assert(funcs.take(i + 1).drop_last() =~= funcs.take(i));
    lemma_func_instrs_len(funcs, i + 1);
}

proof fn lemma_func_instrs_len(funcs: Seq<Function>, i: int)
    requires
        0 <= i <= funcs.len(),
    ensures
        func_instrs(funcs.take(i)).len() <= func_instrs(funcs).len(),
    decreases funcs.len() - i,
{
    if i < funcs.len() {
        assert(funcs.take(i + 1).drop_last() =~= funcs.take(i));
        lemma_func_instrs_len(funcs, i + 1);
    } else {
        assert(funcs.take(i) =~= funcs);
    }
}

} // verus!
