use vstd::prelude::*;
use crate::alu::{OpBMsk, OpBRev, OpBfe, OpIMad, OpIMad64, OpIMul, OpMov, OpSel};
use crate::float_ops::{OpFAdd, OpFFma, OpFMnMx, OpFMul, OpFSet, OpFSetP, OpDAdd, OpDMul, OpDFma, OpDMnMx, OpDSetP};
use crate::conv_ops::{OpF2F, OpF2FP, OpF2I, OpI2F, OpI2I, OpFRnd};
use crate::misc_ops::{MuFuOp, OpFSwzAdd, OpFSwz, OpRro, OpMuFu, OpIDp4, OpShfl, OpR2UR, OpRedux};
use crate::tex::{OpTex, OpTld, OpTld4, OpTmml, OpTxd, OpTxq};
use crate::surface_mem::{OpSuLd, OpSuSt, OpSuAtom, OpSuLdGa, OpSuStGa};
use crate::attr_ops::{OpLdc, OpLdSharedLock, OpStSCheckUnlock, OpAL2P, OpALd, OpASt, OpIpa, OpLdTram, OpCCtl, OpMemBar};
use crate::control::{OpBClear, OpBMov, OpBreak, OpBSSy, OpBSync, OpSSy, OpPBk, OpPCnt, OpWarpSync, OpBar, OpTexDepBar, OpCS2R, OpIsberd, OpKill, OpPixLd, OpS2R, OpMatch, OpUndef, OpSrcBar};
use crate::half_ops::{OpHAdd2, OpHSet2, OpHSetP2, OpHMul2, OpHFma2, OpHMnMx2, OpImma, OpHmma};
use crate::virtual_ops::{OpParCopy, OpRegOut, OpCopy, OpPin, OpUnpin, OpSwap, OpOut, OpOutFinal};
use crate::wave_ops::{OpPLop3, OpVote, OpViLd};
use crate::imadsp::OpIMadSp;
use crate::int_ops::{
    OpFlo, OpIAbs, OpIAdd2, OpIAdd2X, OpIAdd3, OpIAdd3X, OpIMnMx, OpISetP, OpLea, OpLeaX, OpLop2, OpLop3,
    OpPSetP, OpPopC,
};
use crate::operand::{Dst, Src};
use crate::prmt::OpPrmt;
use crate::reg::{Label, RegRef};
use crate::shift::{OpShf, OpShl, OpShr};
use crate::ssa::SSAValue;
use crate::surface::{OpSuBfm, OpSuClamp, OpSuEau};
use crate::types::{AtomOp, AtomType, LdCacheOp, MemEvictionPriority, MemOrder, MemSpace, MemType, StCacheOp};
use crate::vec_pair::VecPair;

verus! {

/// A merged value living on the edges between blocks: its sources are
/// consumed at the end of each predecessor (by `OpPhiSrcs`) and its
/// destinations defined at the start of the successor (by `OpPhiDsts`).
#[derive(Clone, Copy, PartialEq, Eq, Structural, Debug)]
pub struct Phi {
    pub idx: u32,
}

/// Hands out phis with strictly increasing indices.
pub struct PhiAllocator {
    pub count: u32,
}

impl PhiAllocator {
    pub fn new() -> (r: PhiAllocator)
        ensures
            r.count == 0,
    {
        PhiAllocator { count: 0 }
    }

    /// Returns a phi never handed out before by this allocator.
    pub fn alloc_phi(&mut self) -> (r: Phi)
        requires
            old(self).count < u32::MAX,
        ensures
            r.idx == old(self).count,
            final(self).count == old(self).count + 1,
    {
        let idx = self.count;
        self.count = idx + 1;
        Phi { idx }
    }
}

/// The phi sources of a block, consumed at its end.
pub struct OpPhiSrcs {
    pub srcs: VecPair<Phi, Src>,
}

impl OpPhiSrcs {
    pub fn new() -> (r: OpPhiSrcs)
        ensures
            r.srcs.wf(),
            r.srcs.len_spec() == 0,
    {
        OpPhiSrcs { srcs: VecPair::new() }
    }
}

/// The phi destinations of a block, defined at its start.
pub struct OpPhiDsts {
    pub dsts: VecPair<Phi, Dst>,
}

impl OpPhiDsts {
    pub fn new() -> (r: OpPhiDsts)
        ensures
            r.dsts.wf(),
            r.dsts.len_spec() == 0,
    {
        OpPhiDsts { dsts: VecPair::new() }
    }
}

/// A comment attached to the instruction stream.
pub struct OpAnnotate {
    pub annotation: String,
}

/// An unconditional branch.
pub struct OpBra {
    pub target: Label,
}

/// End of the shader for the lanes that execute it.
pub struct OpExit {}

/// Breaks out of the innermost loop.
pub struct OpBrk {
    pub target: Label,
}

/// Continues the innermost loop.
pub struct OpCont {
    pub target: Label,
}

/// Re-converges at a sync point.
pub struct OpSync {
    pub target: Label,
}

/// Does nothing.
pub struct OpNop {
    pub label: Option<Label>,
}

/// How a memory instruction accesses memory.
#[derive(Clone, Copy, PartialEq, Eq, Structural, Debug)]
pub struct MemAccess {
    pub mem_type: MemType,
    pub space: MemSpace,
    pub order: MemOrder,
    pub eviction_priority: MemEvictionPriority,
}

impl MemAccess {
    /// The cache behavior of a load with this access on shader model `sm`.
    pub fn ld_cache_op(&self, sm: u8) -> (r: LdCacheOp)
        ensures
            r == LdCacheOp::spec_select(sm, self.space, self.order),
    {
        LdCacheOp::select(sm, self.space, self.order, self.eviction_priority)
    }

    /// The cache behavior of a store with this access on shader model `sm`.
    pub fn st_cache_op(&self, sm: u8) -> (r: StCacheOp)
        requires
            self.space is Global ==> !(self.order is Constant),
        ensures
            r == StCacheOp::spec_select(sm, self.space, self.order),
    {
        StCacheOp::select(sm, self.space, self.order, self.eviction_priority)
    }
}

/// A load from memory.
pub struct OpLd {
    pub dst: Dst,
    pub addr: Src,
    pub offset: i32,
    pub access: MemAccess,
}

/// A store to memory.
pub struct OpSt {
    pub addr: Src,
    pub data: Src,
    pub offset: i32,
    pub access: MemAccess,
}

/// An atomic memory operation.
pub struct OpAtom {
    pub dst: Dst,
    pub addr: Src,
    pub cmpr: Src,
    pub data: Src,
    pub atom_op: AtomOp,
    pub atom_type: AtomType,
    pub addr_offset: i32,
    pub mem_space: MemSpace,
    pub mem_order: MemOrder,
    pub mem_eviction_priority: MemEvictionPriority,
}

/// An instruction kind and its operands.
pub enum Op {
    ParCopy(OpParCopy),
    RegOut(OpRegOut),
    PLop3(OpPLop3),
    Vote(OpVote),
    ViLd(OpViLd),
    Copy(OpCopy),
    Pin(OpPin),
    Unpin(OpUnpin),
    Swap(OpSwap),
    Out(OpOut),
    OutFinal(OpOutFinal),
    HAdd2(OpHAdd2),
    HSet2(OpHSet2),
    HSetP2(OpHSetP2),
    HMul2(OpHMul2),
    HFma2(OpHFma2),
    HMnMx2(OpHMnMx2),
    Imma(OpImma),
    Hmma(OpHmma),
    BClear(OpBClear),
    BMov(OpBMov),
    Break(OpBreak),
    BSSy(OpBSSy),
    BSync(OpBSync),
    SSy(OpSSy),
    PBk(OpPBk),
    PCnt(OpPCnt),
    WarpSync(OpWarpSync),
    Bar(OpBar),
    TexDepBar(OpTexDepBar),
    CS2R(OpCS2R),
    Isberd(OpIsberd),
    Kill(OpKill),
    PixLd(OpPixLd),
    S2R(OpS2R),
    Match(OpMatch),
    Undef(OpUndef),
    SrcBar(OpSrcBar),
    Ldc(OpLdc),
    LdSharedLock(OpLdSharedLock),
    StSCheckUnlock(OpStSCheckUnlock),
    AL2P(OpAL2P),
    ALd(OpALd),
    ASt(OpASt),
    Ipa(OpIpa),
    LdTram(OpLdTram),
    CCtl(OpCCtl),
    MemBar(OpMemBar),
    SuLd(OpSuLd),
    SuSt(OpSuSt),
    SuAtom(OpSuAtom),
    SuLdGa(OpSuLdGa),
    SuStGa(OpSuStGa),
    Tex(OpTex),
    Tld(OpTld),
    Tld4(OpTld4),
    Tmml(OpTmml),
    Txd(OpTxd),
    Txq(OpTxq),
    FSwzAdd(OpFSwzAdd),
    FSwz(OpFSwz),
    Rro(OpRro),
    MuFu(OpMuFu),
    IDp4(OpIDp4),
    Shfl(OpShfl),
    R2UR(OpR2UR),
    Redux(OpRedux),
    F2F(OpF2F),
    F2FP(OpF2FP),
    F2I(OpF2I),
    I2F(OpI2F),
    I2I(OpI2I),
    FRnd(OpFRnd),
    FAdd(OpFAdd),
    FFma(OpFFma),
    FMnMx(OpFMnMx),
    FMul(OpFMul),
    FSet(OpFSet),
    FSetP(OpFSetP),
    DAdd(OpDAdd),
    DMul(OpDMul),
    DFma(OpDFma),
    DMnMx(OpDMnMx),
    DSetP(OpDSetP),
    IMad(OpIMad),
    IMul(OpIMul),
    IMad64(OpIMad64),
    Mov(OpMov),
    Sel(OpSel),
    BMsk(OpBMsk),
    BRev(OpBRev),
    Bfe(OpBfe),
    Ld(OpLd),
    St(OpSt),
    Atom(OpAtom),
    Flo(OpFlo),
    IAbs(OpIAbs),
    IAdd2(OpIAdd2),
    IAdd2X(OpIAdd2X),
    IAdd3(OpIAdd3),
    IAdd3X(OpIAdd3X),
    IMadSp(OpIMadSp),
    IMnMx(OpIMnMx),
    ISetP(OpISetP),
    Lea(OpLea),
    LeaX(OpLeaX),
    Lop2(OpLop2),
    Lop3(OpLop3),
    Shf(OpShf),
    Shl(OpShl),
    Shr(OpShr),
    Prmt(OpPrmt),
    PSetP(OpPSetP),
    PopC(OpPopC),
    SuClamp(OpSuClamp),
    SuBfm(OpSuBfm),
    SuEau(OpSuEau),
    Nop(OpNop),
    Bra(OpBra),
    Sync(OpSync),
    Brk(OpBrk),
    Cont(OpCont),
    Exit(OpExit),
    PhiSrcs(OpPhiSrcs),
    PhiDsts(OpPhiDsts),
    Annotate(OpAnnotate),
}

/// Whether an operation ends a block with a jump.
pub open spec fn spec_op_is_branch(op: &Op) -> bool {
    op is Bra || op is Sync || op is Brk || op is Cont || op is Exit
}

/// Operations that exist only in the IR and are never encoded.
pub open spec fn spec_op_is_virtual(op: &Op) -> bool {
    op is ParCopy || op is RegOut || op is Copy || op is Pin || op is Unpin || op is Swap || op is Undef || op is SrcBar || op is PhiSrcs || op is PhiDsts || op is Annotate
}

/// Whether an operation of a hardware kind completes in a fixed number of
/// cycles: the integer, logic, shift, permute and surface-address ALU kinds
/// and `nop` do, and integer multiplies from SM70 on; find-leading-one, bit
/// reversal, population count, memory and control flow do not.
pub open spec fn spec_has_fixed_latency(op: &Op, sm: u8) -> bool {
    match op {
        Op::PLop3(_) | Op::Vote(_) => true,
        Op::ViLd(_) => false,
        Op::Out(_) | Op::OutFinal(_) => false,
        Op::HAdd2(_) | Op::HSet2(_) | Op::HSetP2(_) | Op::HMul2(_) | Op::HFma2(_) | Op::HMnMx2(_) => true,
        Op::Imma(_) | Op::Hmma(_) => false,
        Op::BClear(_) | Op::BMov(_) | Op::Break(_) | Op::BSSy(_) | Op::BSync(_) | Op::SSy(_) | Op::PBk(_) | Op::PCnt(_) | Op::WarpSync(_) | Op::Bar(_) | Op::TexDepBar(_) | Op::CS2R(_) | Op::Isberd(_) | Op::Kill(_) | Op::PixLd(_) | Op::S2R(_) | Op::Match(_) => false,
        Op::Ldc(_) | Op::LdSharedLock(_) | Op::StSCheckUnlock(_) | Op::AL2P(_) | Op::ALd(_) | Op::ASt(_) | Op::Ipa(_) | Op::LdTram(_) | Op::CCtl(_) | Op::MemBar(_) => false,
        Op::SuLd(_) | Op::SuSt(_) | Op::SuAtom(_) | Op::SuLdGa(_) | Op::SuStGa(_) => false,
        Op::Tex(_) | Op::Tld(_) | Op::Tld4(_) | Op::Tmml(_) | Op::Txd(_) | Op::Txq(_) => false,
        Op::FSwzAdd(_) | Op::FSwz(_) | Op::IDp4(_) => true,
        Op::Rro(_) | Op::MuFu(_) | Op::Shfl(_) | Op::R2UR(_) | Op::Redux(_) => false,
        Op::F2FP(_) => true,
        Op::F2F(_) | Op::F2I(_) | Op::I2F(_) | Op::I2I(_) | Op::FRnd(_) => false,
        Op::FAdd(_) | Op::FFma(_) | Op::FMnMx(_) | Op::FMul(_) | Op::FSet(_) | Op::FSetP(_) => true,
        Op::DAdd(_) | Op::DMul(_) | Op::DFma(_) | Op::DMnMx(_) | Op::DSetP(_) => false,
        Op::IMad(_) | Op::IMul(_) => sm >= 70,
        Op::BRev(_) | Op::Flo(_) | Op::PopC(_) => false,
        Op::Ld(_) | Op::St(_) | Op::Atom(_) => false,
        Op::Bra(_) | Op::Sync(_) | Op::Brk(_) | Op::Cont(_) | Op::Exit(_) => false,
        _ => true,
    }
}

/// Whether an operation works on 64-bit floats.
pub open spec fn spec_op_is_fp64(op: &Op) -> bool {
    (op matches Op::MuFu(o) && (o.op is Rcp64H || o.op is Rsq64H)) || (op matches Op::F2F(o) && (o.src_type is F64 || o.dst_type is F64)) || (op matches Op::F2I(o) && (o.src_type is F64 || o.dst_type is U64 || o.dst_type is I64)) || (op matches Op::I2F(o) && (o.dst_type is F64 || o.src_type is U64 || o.src_type is I64)) || (op matches Op::FRnd(o) && (o.src_type is F64 || o.dst_type is F64)) || op is DAdd || op is DMul || op is DFma || op is DMnMx || op is DSetP
}

/// Control flow that needs no scoreboard as the IR uses it.
pub open spec fn spec_no_scoreboard(op: &Op) -> bool {
    op is BClear || op is Break || op is BSSy || op is BSync || op is SSy || op is PBk || op is PCnt || op is Sync
        || op is Brk || op is Cont || op is Bra || op is Exit
}

impl Op {
    /// Whether the operation has a fixed latency on shader model `sm`.
    pub fn has_fixed_latency(&self, sm: u8) -> (r: bool)
        requires
            !spec_op_is_virtual(self),
        ensures
            r == spec_has_fixed_latency(self, sm),
    {
        match self {
            Op::PLop3(_) | Op::Vote(_) => true,
            Op::ViLd(_) => false,
            Op::Out(_) | Op::OutFinal(_) => false,
            Op::HAdd2(_) | Op::HSet2(_) | Op::HSetP2(_) | Op::HMul2(_) | Op::HFma2(_) | Op::HMnMx2(_) => true,
            Op::Imma(_) | Op::Hmma(_) => false,
            Op::BClear(_) | Op::BMov(_) | Op::Break(_) | Op::BSSy(_) | Op::BSync(_) | Op::SSy(_) | Op::PBk(_) | Op::PCnt(_) | Op::WarpSync(_) | Op::Bar(_) | Op::TexDepBar(_) | Op::CS2R(_) | Op::Isberd(_) | Op::Kill(_) | Op::PixLd(_) | Op::S2R(_) | Op::Match(_) => false,
            Op::Ldc(_) | Op::LdSharedLock(_) | Op::StSCheckUnlock(_) | Op::AL2P(_) | Op::ALd(_) | Op::ASt(_) | Op::Ipa(_) | Op::LdTram(_) | Op::CCtl(_) | Op::MemBar(_) => false,
            Op::SuLd(_) | Op::SuSt(_) | Op::SuAtom(_) | Op::SuLdGa(_) | Op::SuStGa(_) => false,
            Op::Tex(_) | Op::Tld(_) | Op::Tld4(_) | Op::Tmml(_) | Op::Txd(_) | Op::Txq(_) => false,
            Op::FSwzAdd(_) | Op::FSwz(_) | Op::IDp4(_) => true,
            Op::Rro(_) | Op::MuFu(_) | Op::Shfl(_) | Op::R2UR(_) | Op::Redux(_) => false,
            Op::F2FP(_) => true,
            Op::F2F(_) | Op::F2I(_) | Op::I2F(_) | Op::I2I(_) | Op::FRnd(_) => false,
            Op::FAdd(_) | Op::FFma(_) | Op::FMnMx(_) | Op::FMul(_) | Op::FSet(_) | Op::FSetP(_) => true,
            Op::DAdd(_) | Op::DMul(_) | Op::DFma(_) | Op::DMnMx(_) | Op::DSetP(_) => false,
            Op::IMad(_) | Op::IMul(_) => sm >= 70,
            Op::BRev(_) | Op::Flo(_) | Op::PopC(_) => false,
            Op::Ld(_) | Op::St(_) | Op::Atom(_) => false,
            Op::Bra(_) | Op::Sync(_) | Op::Brk(_) | Op::Cont(_) | Op::Exit(_) => false,
            _ => true,
        }
    }

    /// Whether the operation is exempt from completion scoreboards.
    pub fn no_scoreboard(&self) -> (r: bool)
        ensures
            r == spec_no_scoreboard(self),
    {
        match self {
            Op::BClear(_) | Op::Break(_) | Op::BSSy(_) | Op::BSync(_) | Op::SSy(_) | Op::PBk(_) | Op::PCnt(_)
            | Op::Sync(_) | Op::Brk(_) | Op::Cont(_) | Op::Bra(_) | Op::Exit(_) => true,
            _ => false,
        }
    }

    /// Whether the operation works on 64-bit floats.
    pub fn is_fp64(&self) -> (r: bool)
        ensures
            r == spec_op_is_fp64(self),
    {
        match self {
            Op::MuFu(o) => match o.op { MuFuOp::Rcp64H | MuFuOp::Rsq64H => true, _ => false },
            Op::F2F(o) => o.src_type.bits() == 64 || o.dst_type.bits() == 64,
            Op::F2I(o) => o.src_type.bits() == 64 || o.dst_type.bits() == 64,
            Op::I2F(o) => o.src_type.bits() == 64 || o.dst_type.bits() == 64,
            Op::FRnd(o) => o.src_type.bits() == 64 || o.dst_type.bits() == 64,
            Op::DAdd(_) | Op::DMul(_) | Op::DFma(_) | Op::DMnMx(_) | Op::DSetP(_) => true,
            _ => false,
        }
    }

    pub fn is_branch(&self) -> (r: bool)
        ensures
            r == spec_op_is_branch(self),
    {
        match self {
            Op::Bra(_) | Op::Sync(_) | Op::Brk(_) | Op::Cont(_) | Op::Exit(_) => true,
            _ => false,
        }
    }
}

/// What a predicate reads; `Nil` stands for the constant true.
#[derive(Clone, Copy, PartialEq, Eq, Structural)]
pub enum PredRef {
    Nil,
    SSA(SSAValue),
    Reg(RegRef),
}

impl PredRef {
    pub fn as_reg(&self) -> (r: Option<&RegRef>)
        ensures
            *self is Reg ==> r == Some(&self->Reg_0),
            !(*self is Reg) ==> r.is_none(),
    {
        match self {
            PredRef::Reg(r) => Some(r),
            _ => None,
        }
    }

    pub fn as_ssa(&self) -> (r: Option<&SSAValue>)
        ensures
            *self is SSA ==> r == Some(&self->SSA_0),
            !(*self is SSA) ==> r.is_none(),
    {
        match self {
            PredRef::SSA(r) => Some(r),
            _ => None,
        }
    }

    pub fn is_none(&self) -> (r: bool)
        ensures
            r == (*self is Nil),
    {
        match self {
            PredRef::Nil => true,
            _ => false,
        }
    }
}

/// An instruction predicate, possibly inverted.
#[derive(Clone, Copy, PartialEq, Eq, Structural)]
pub struct Pred {
    pub pred_ref: PredRef,
    pub pred_inv: bool,
}

impl Pred {
    pub fn is_true(&self) -> (r: bool)
        ensures
            r == (self.pred_ref is Nil && !self.pred_inv),
    {
        self.pred_ref.is_none() && !self.pred_inv
    }

    pub fn is_false(&self) -> (r: bool)
        ensures
            r == (self.pred_ref is Nil && self.pred_inv),
    {
        self.pred_ref.is_none() && self.pred_inv
    }

    pub fn bnot(self) -> (r: Self)
        ensures
            r.pred_ref == self.pred_ref,
            r.pred_inv == !self.pred_inv,
    {
        Pred { pred_ref: self.pred_ref, pred_inv: !self.pred_inv }
    }

    /// The constant predicate `b`.
    pub fn from_bool(b: bool) -> (r: Pred)
        ensures
            r.pred_ref is Nil,
            r.pred_inv == !b,
    {
        Pred { pred_ref: PredRef::Nil, pred_inv: !b }
    }

    /// The predicate reading `pred_ref`, not inverted.
    pub fn from_ref(pred_ref: PredRef) -> (r: Pred)
        ensures
            r.pred_ref == pred_ref,
            !r.pred_inv,
    {
        Pred { pred_ref, pred_inv: false }
    }
}

/// The smallest issue delay of an instruction.
pub const MIN_INSTR_DELAY: u8 = 1;

/// Scheduling annotations of an instruction: issue delay, yield, the read
/// and write scoreboards it sets (0..6, or none), the scoreboards it waits
/// on and the operand reuse flags.
#[derive(Clone, Copy)]
pub struct InstrDeps {
    pub delay: u8,
    pub yld: bool,
    /// The write scoreboard, or -1 for none.
    pub wr_bar: i8,
    /// The read scoreboard, or -1 for none.
    pub rd_bar: i8,
    pub wt_bar_mask: u8,
    pub reuse_mask: u8,
}

/// Everything but the issue delay, the yield flag and the masks is kept.
pub open spec fn same_bars(a: InstrDeps, b: InstrDeps) -> bool {
    a.spec_wr_bar() == b.spec_wr_bar() && a.spec_rd_bar() == b.spec_rd_bar()
}

impl InstrDeps {
    /// The scoreboard set on write, if any.
    pub open spec fn spec_wr_bar(&self) -> Option<u8> {
        if self.wr_bar < 0 { None } else { Some(self.wr_bar as u8) }
    }

    /// The scoreboard set on read, if any.
    pub open spec fn spec_rd_bar(&self) -> Option<u8> {
        if self.rd_bar < 0 { None } else { Some(self.rd_bar as u8) }
    }

    pub fn new() -> (r: InstrDeps)
        ensures
            r.delay == 0,
            !r.yld,
            r.spec_wr_bar().is_none(),
            r.spec_rd_bar().is_none(),
            r.wt_bar_mask == 0,
            r.reuse_mask == 0,
    {
        InstrDeps { delay: 0, yld: false, wr_bar: -1, rd_bar: -1, wt_bar_mask: 0, reuse_mask: 0 }
    }

    pub fn rd_bar(&self) -> (r: Option<u8>)
        ensures
            r == self.spec_rd_bar(),
    {
        if self.rd_bar < 0 {
            None
        } else {
            Some(self.rd_bar as u8)
        }
    }

    pub fn wr_bar(&self) -> (r: Option<u8>)
        ensures
            r == self.spec_wr_bar(),
    {
        if self.wr_bar < 0 {
            None
        } else {
            Some(self.wr_bar as u8)
        }
    }

    pub fn set_delay(&mut self, delay: u8)
        ensures
            final(self).delay == delay,
            final(self).yld == old(self).yld,
            final(self).wt_bar_mask == old(self).wt_bar_mask,
            final(self).reuse_mask == old(self).reuse_mask,
            same_bars(*final(self), *old(self)),
    {
        self.delay = delay;
    }

    pub fn set_yield(&mut self, yld: bool)
        ensures
            final(self).delay == old(self).delay,
            final(self).yld == yld,
            final(self).wt_bar_mask == old(self).wt_bar_mask,
            final(self).reuse_mask == old(self).reuse_mask,
            same_bars(*final(self), *old(self)),
    {
        self.yld = yld;
    }

    pub fn set_rd_bar(&mut self, idx: u8)
        requires
            idx < 6,
        ensures
            final(self).spec_rd_bar() == Some(idx),
            final(self).spec_wr_bar() == old(self).spec_wr_bar(),
            final(self).delay == old(self).delay,
            final(self).yld == old(self).yld,
            final(self).wt_bar_mask == old(self).wt_bar_mask,
            final(self).reuse_mask == old(self).reuse_mask,
    {
        self.rd_bar = idx as i8;
    }

    pub fn set_wr_bar(&mut self, idx: u8)
        requires
            idx < 6,
        ensures
            final(self).spec_wr_bar() == Some(idx),
            final(self).spec_rd_bar() == old(self).spec_rd_bar(),
            final(self).delay == old(self).delay,
            final(self).yld == old(self).yld,
            final(self).wt_bar_mask == old(self).wt_bar_mask,
            final(self).reuse_mask == old(self).reuse_mask,
    {
        self.wr_bar = idx as i8;
    }

    /// Adds scoreboard `idx` to those waited on.
    pub fn add_wt_bar(&mut self, idx: u8)
        requires
            idx < 6,
        ensures
            final(self).wt_bar_mask == (old(self).wt_bar_mask | (1u8 << idx)) as u8,
            final(self).delay == old(self).delay,
            final(self).yld == old(self).yld,
            final(self).reuse_mask == old(self).reuse_mask,
            same_bars(*final(self), *old(self)),
    {
        assert(idx < 6 ==> (1u8 << idx) < 64) by (bit_vector);
        self.add_wt_bar_mask(1u8 << idx);
    }

    /// Adds the scoreboards of `bar_mask` to those waited on.
    pub fn add_wt_bar_mask(&mut self, bar_mask: u8)
        requires
            bar_mask < 64,
        ensures
            final(self).wt_bar_mask == (old(self).wt_bar_mask | bar_mask) as u8,
            final(self).delay == old(self).delay,
            final(self).yld == old(self).yld,
            final(self).reuse_mask == old(self).reuse_mask,
            same_bars(*final(self), *old(self)),
    {
        self.wt_bar_mask = self.wt_bar_mask | bar_mask;
    }

    /// Marks source `idx` for operand reuse.
    pub fn add_reuse(&mut self, idx: u8)
        requires
            idx < 6,
        ensures
            final(self).reuse_mask == (old(self).reuse_mask | (1u8 << idx)) as u8,
            final(self).delay == old(self).delay,
            final(self).yld == old(self).yld,
            final(self).wt_bar_mask == old(self).wt_bar_mask,
            same_bars(*final(self), *old(self)),
    {
        self.reuse_mask = self.reuse_mask | (1u8 << idx);
    }
}

/// An instruction: an operation under a predicate, with its scheduling
/// annotations.
pub struct Instr {
    pub pred: Pred,
    pub op: Op,
    pub deps: InstrDeps,
}

impl Instr {
    /// The always-executed instruction doing `op`.
    pub fn new(op: Op) -> (r: Instr)
        ensures
            r.op == op,
            r.pred.pred_ref is Nil && !r.pred.pred_inv,
            r.deps.delay == 0 && r.deps.spec_rd_bar().is_none() && r.deps.spec_wr_bar().is_none(),
            r.deps.wt_bar_mask == 0 && r.deps.reuse_mask == 0 && !r.deps.yld,
    {
        Instr { op, pred: Pred::from_bool(true), deps: InstrDeps::new() }
    }

    pub fn new_boxed(op: Op) -> (r: Box<Instr>)
        ensures
            r.op == op,
            r.pred.pred_ref is Nil && !r.pred.pred_inv,
    {
        Box::new(Instr::new(op))
    }

    pub fn is_branch(&self) -> (r: bool)
        ensures
            r == spec_op_is_branch(&self.op),
    {
        self.op.is_branch()
    }

    /// Whether the instruction touches memory other than local memory.
    pub fn uses_global_mem(&self) -> (r: bool)
        ensures
            r == spec_uses_global_mem(&self.op),
    {
        match &self.op {
            Op::Atom(op) => op.mem_space != MemSpace::Local,
            Op::Ld(op) => op.access.space != MemSpace::Local,
            Op::St(op) => op.access.space != MemSpace::Local,
            Op::SuAtom(_) | Op::SuLd(_) | Op::SuSt(_) | Op::SuLdGa(_) | Op::SuStGa(_) => true,
            _ => false,
        }
    }

    /// Whether the instruction writes global memory.
    pub fn writes_global_mem(&self) -> (r: bool)
        ensures
            r == spec_writes_global_mem(&self.op),
    {
        match &self.op {
            Op::Atom(op) => match op.mem_space {
                MemSpace::Global(_) => true,
                _ => false,
            },
            Op::St(op) => match op.access.space {
                MemSpace::Global(_) => true,
                _ => false,
            },
            Op::SuAtom(_) | Op::SuSt(_) | Op::SuStGa(_) => true,
            _ => false,
        }
    }

    /// Whether the instruction may be removed when its results are unused:
    /// not when it stores, has side effects or steers control flow; a
    /// barrier move only when it does not clear.
    pub fn can_eliminate(&self) -> (r: bool)
        ensures
            r == spec_can_eliminate(&self.op),
    {
        match &self.op {
            Op::ASt(_) | Op::LdSharedLock(_) | Op::StSCheckUnlock(_) | Op::CCtl(_) | Op::MemBar(_) | Op::SuSt(_)
            | Op::SuStGa(_) | Op::SuAtom(_) | Op::St(_) | Op::Atom(_) | Op::Kill(_) | Op::Nop(_) | Op::BSync(_)
            | Op::Bra(_) | Op::SSy(_) | Op::Sync(_) | Op::Brk(_) | Op::PBk(_) | Op::Cont(_) | Op::PCnt(_)
            | Op::Exit(_) | Op::WarpSync(_) | Op::Bar(_) | Op::TexDepBar(_) | Op::Out(_) | Op::OutFinal(_)
            | Op::RegOut(_) | Op::Annotate(_) => false,
            Op::BMov(o) => !o.clear,
            _ => true,
        }
    }

    /// Whether the instruction waits at a barrier and so must yield.
    pub fn needs_yield(&self) -> (r: bool)
        ensures
            r == (self.op is Bar || self.op is BSync),
    {
        match &self.op {
            Op::Bar(_) | Op::BSync(_) => true,
            _ => false,
        }
    }
}

/// Whether an operation may be removed when its results are unused.
pub open spec fn spec_can_eliminate(op: &Op) -> bool {
    match op {
        Op::ASt(_) | Op::LdSharedLock(_) | Op::StSCheckUnlock(_) | Op::CCtl(_) | Op::MemBar(_) | Op::SuSt(_)
        | Op::SuStGa(_) | Op::SuAtom(_) | Op::St(_) | Op::Atom(_) | Op::Kill(_) | Op::Nop(_) | Op::BSync(_)
        | Op::Bra(_) | Op::SSy(_) | Op::Sync(_) | Op::Brk(_) | Op::PBk(_) | Op::Cont(_) | Op::PCnt(_)
        | Op::Exit(_) | Op::WarpSync(_) | Op::Bar(_) | Op::TexDepBar(_) | Op::Out(_) | Op::OutFinal(_)
        | Op::RegOut(_) | Op::Annotate(_) => false,
        Op::BMov(o) => !o.clear,
        _ => true,
    }
}

/// Whether an operation touches memory other than local memory.
pub open spec fn spec_uses_global_mem(op: &Op) -> bool {
    match op {
        Op::Atom(o) => o.mem_space != MemSpace::Local,
        Op::Ld(o) => o.access.space != MemSpace::Local,
        Op::St(o) => o.access.space != MemSpace::Local,
        Op::SuAtom(_) | Op::SuLd(_) | Op::SuSt(_) | Op::SuLdGa(_) | Op::SuStGa(_) => true,
        _ => false,
    }
}

/// Whether an operation writes global memory.
pub open spec fn spec_writes_global_mem(op: &Op) -> bool {
    match op {
        Op::Atom(o) => o.mem_space is Global,
        Op::St(o) => o.access.space is Global,
        Op::SuAtom(_) | Op::SuSt(_) | Op::SuStGa(_) => true,
        _ => false,
    }
}

/// Whether the scheduler must track an operation's completion with a
/// scoreboard on shader model `sm`: unless it is exempt or has a fixed
/// latency.
pub fn op_needs_scoreboard(sm: u8, op: &Op) -> (r: bool)
    requires
        !spec_op_is_virtual(op),
    ensures
        r == (!spec_no_scoreboard(op) && !spec_has_fixed_latency(op, sm)),
{
    !op.no_scoreboard() && !op.has_fixed_latency(sm)
}


/// What a rewrite makes of one instruction: nothing, one instruction, or
/// several.
pub enum MappedInstrs {
    Empty,
    One(Box<Instr>),
    Many(Vec<Box<Instr>>),
}

/// The instructions a rewrite result stands for, in order.
pub open spec fn mapped_seq(m: MappedInstrs) -> Seq<Box<Instr>> {
    match m {
        MappedInstrs::Empty => Seq::empty(),
        MappedInstrs::One(i) => seq![i],
        MappedInstrs::Many(v) => v@,
    }
}

/// The concatenation of the rewrite results `outs`.
pub open spec fn concat_mapped(outs: Seq<MappedInstrs>) -> Seq<Box<Instr>>
    decreases outs.len(),
{
    if outs.len() == 0 {
        Seq::empty()
    } else {
        concat_mapped(outs.drop_last()) + mapped_seq(outs.last())
    }
}

/// A basic block. When `uniform` is set, every lane not yet exited runs
/// the block together.
pub struct BasicBlock {
    pub label: Label,
    pub uniform: bool,
    pub instrs: Vec<Box<Instr>>,
}

/// Instruction `ip` of a block starts its phi destinations: it is an
/// `OpPhiDsts` with only annotations before it.
pub open spec fn is_phi_dsts_ip(instrs: Seq<Box<Instr>>, ip: int) -> bool {
    &&& 0 <= ip < instrs.len()
    &&& instrs[ip].op is PhiDsts
    &&& forall|j: int| 0 <= j < ip ==> #[trigger] instrs[j].op is Annotate
}

/// Instruction `ip` of a block holds its phi sources: it is an `OpPhiSrcs`
/// with only annotations and branches after it.
pub open spec fn is_phi_srcs_ip(instrs: Seq<Box<Instr>>, ip: int) -> bool {
    &&& 0 <= ip < instrs.len()
    &&& instrs[ip].op is PhiSrcs
    &&& forall|j: int| ip < j < instrs.len() ==> #[trigger] instrs[j].op is Annotate || spec_op_is_branch(&instrs[j].op)
}

impl BasicBlock {
    /// Replaces each instruction, in order, by what `map` makes of it.
    pub fn map_instrs<F: Fn(Box<Instr>) -> MappedInstrs>(&mut self, map: F)
        requires
            forall|i: Box<Instr>| #[trigger] map.requires((i,)),
        ensures
            final(self).label == old(self).label,
            final(self).uniform == old(self).uniform,
            exists|outs: Seq<MappedInstrs>| {
                &&& outs.len() == old(self).instrs@.len()
                &&& forall|k: int| 0 <= k < outs.len() ==> #[trigger] map.ensures((old(self).instrs@[k],), outs[k])
                &&& final(self).instrs@ == concat_mapped(outs)
            },
    {
        let mut rest: Vec<Box<Instr>> = Vec::new();
        std::mem::swap(&mut rest, &mut self.instrs);
        let ghost all = rest@;
        let ghost mut outs: Seq<MappedInstrs> = Seq::empty();
        let n = rest.len();
        let mut i: usize = 0;
        while i < n
            invariant
                n == all.len(),
                i <= n,
                rest@ == all.subrange(i as int, n as int),
                self.label == old(self).label,
                self.uniform == old(self).uniform,
                outs.len() == i,
                forall|k: int| 0 <= k < i ==> #[trigger] map.ensures((all[k],), outs[k]),
                forall|x: Box<Instr>| #[trigger] map.requires((x,)),
                self.instrs@ == concat_mapped(outs),
            decreases n - i,
        {
            let instr = rest.remove(0);
            proof {
                assert(instr == all[i as int]);
                assert(rest@ =~= all.subrange(i + 1, n as int));
            }
            let out = map(instr);
            let ghost prev_outs = outs;
            proof {
                outs = outs.push(out);
                assert(outs.drop_last() =~= prev_outs);
            }
            match out {
                MappedInstrs::Empty => {
                    assert(self.instrs@ =~= concat_mapped(outs));
                },
                MappedInstrs::One(x) => {
                    self.instrs.push(x);
                    assert(self.instrs@ =~= concat_mapped(outs));
                },
                MappedInstrs::Many(mut v) => {
                    let ghost vv = v@;
                    self.instrs.append(&mut v);
                    assert(self.instrs@ =~= concat_mapped(outs));
                },
            }
            i = i + 1;
        }
    }

    /// The position of the phi destinations, if the block has them.
    pub fn phi_dsts_ip(&self) -> (r: Option<usize>)
        ensures
            r matches Some(ip) ==> is_phi_dsts_ip(self.instrs@, ip as int),
            r is None ==> forall|ip: int| !is_phi_dsts_ip(self.instrs@, ip),
    {
        let mut ip: usize = 0;
        while ip < self.instrs.len()
            invariant
                ip <= self.instrs@.len(),
                forall|j: int| 0 <= j < ip ==> #[trigger] self.instrs@[j].op is Annotate,
            decreases self.instrs@.len() - ip,
        {
            match &self.instrs[ip].op {
                Op::Annotate(_) => {},
                Op::PhiDsts(_) => {
                    return Some(ip);
                },
                _ => {
                    assert forall|k: int| !is_phi_dsts_ip(self.instrs@, k) by {
                        if is_phi_dsts_ip(self.instrs@, k) && k > ip {
                            assert(self.instrs@[ip as int].op is Annotate);
                        }
                    }
                    return None;
                },
            }
            ip = ip + 1;
        }
        None
    }

    /// The phi destinations, if the block has them.
    pub fn phi_dsts(&self) -> (r: Option<&OpPhiDsts>)
        ensures
            r matches Some(p) ==> exists|ip: int| is_phi_dsts_ip(self.instrs@, ip) && p == self.instrs@[ip].op->PhiDsts_0,
            r is None ==> forall|ip: int| !is_phi_dsts_ip(self.instrs@, ip),
    {
        match self.phi_dsts_ip() {
            Some(ip) => match &self.instrs[ip].op {
                Op::PhiDsts(phi) => Some(phi),
                _ => None,
            },
            None => None,
        }
    }

    /// The position of the phi sources, if the block has them.
    pub fn phi_srcs_ip(&self) -> (r: Option<usize>)
        ensures
            r matches Some(ip) ==> is_phi_srcs_ip(self.instrs@, ip as int),
            r is None ==> forall|ip: int| !is_phi_srcs_ip(self.instrs@, ip),
    {
        let n = self.instrs.len();
        let mut k: usize = n;
        while k > 0
            invariant
                k <= n,
                n == self.instrs@.len(),
                forall|j: int| k <= j < n ==> #[trigger] self.instrs@[j].op is Annotate || spec_op_is_branch(&self.instrs@[j].op),
            decreases k,
        {
            let ip = k - 1;
            let instr = &self.instrs[ip];
            match &instr.op {
                Op::Annotate(_) => {},
                Op::PhiSrcs(_) => {
                    return Some(ip);
                },
                _ => {
                    if !instr.is_branch() {
                        assert forall|m: int| !is_phi_srcs_ip(self.instrs@, m) by {
                            if is_phi_srcs_ip(self.instrs@, m) && m < ip {
                                assert(self.instrs@[ip as int].op is Annotate || spec_op_is_branch(&self.instrs@[ip as int].op));
                            }
                        }
                        return None;
                    }
                },
            }
            k = ip;
        }
        None
    }

    /// The phi sources, if the block has them.
    pub fn phi_srcs(&self) -> (r: Option<&OpPhiSrcs>)
        ensures
            r matches Some(p) ==> exists|ip: int| is_phi_srcs_ip(self.instrs@, ip) && p == self.instrs@[ip].op->PhiSrcs_0,
            r is None ==> forall|ip: int| !is_phi_srcs_ip(self.instrs@, ip),
    {
        match self.phi_srcs_ip() {
            Some(ip) => match &self.instrs[ip].op {
                Op::PhiSrcs(phi) => Some(phi),
                _ => None,
            },
            None => None,
        }
    }

    /// The position of the closing branch, if the block ends in one.
    pub fn branch_ip(&self) -> (r: Option<usize>)
        ensures
            r matches Some(ip) ==> ip == self.instrs@.len() - 1 && spec_op_is_branch(&self.instrs@[ip as int].op),
            r is None ==> self.instrs@.len() == 0 || !spec_op_is_branch(&self.instrs@.last().op),
    {
        let n = self.instrs.len();
        if n == 0 {
            None
        } else if self.instrs[n - 1].is_branch() {
            Some(n - 1)
        } else {
            None
        }
    }

    /// Whether control may reach the next block: unless the block ends in
    /// a branch taken whatever the predicate.
    pub fn falls_through(&self) -> (r: bool)
        ensures
            r == !(self.instrs@.len() > 0 && spec_op_is_branch(&self.instrs@.last().op)
                && self.instrs@.last().pred.pred_ref is Nil && !self.instrs@.last().pred.pred_inv),
    {
        match self.branch() {
            Some(i) => !i.pred.is_true(),
            None => true,
        }
    }

    /// The closing branch, if the block ends in one.
    pub fn branch(&self) -> (r: Option<&Instr>)
        ensures
            r matches Some(i) ==> self.instrs@.len() > 0 && *i == *self.instrs@.last() && spec_op_is_branch(&i.op),
            r is None ==> self.instrs@.len() == 0 || !spec_op_is_branch(&self.instrs@.last().op),
    {
        match self.branch_ip() {
            Some(ip) => Some(&self.instrs[ip]),
            None => None,
        }
    }
}

/// The phi destinations are found exactly when the first instruction that
/// is not an annotation is an `OpPhiDsts`, and then there.
pub proof fn lemma_phi_dsts_position(instrs: Seq<Box<Instr>>, ip: int)
    requires
        0 <= ip < instrs.len(),
        forall|j: int| 0 <= j < ip ==> #[trigger] instrs[j].op is Annotate,
        !(instrs[ip].op is Annotate),
    ensures
        instrs[ip].op is PhiDsts ==> is_phi_dsts_ip(instrs, ip),
        forall|k: int| #[trigger] is_phi_dsts_ip(instrs, k) ==> k == ip,
{
    assert forall|k: int| #[trigger] is_phi_dsts_ip(instrs, k) implies k == ip by {
        if k > ip {
            assert(instrs[ip].op is Annotate);
        }
    }
}

} // verus!
