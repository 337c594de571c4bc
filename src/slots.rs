use vstd::prelude::*;
use crate::block::{Instr, Op, Pred, PredRef};
use crate::ssa::SSAValue;
use crate::types::FloatType;
use crate::operand::{CBuf, Dst, DstType, Src, SrcRef, SrcType, dst_uniformity, dsts_agree, dsts_have_files};

verus! {

/// The source slot type for a float of type `t`.
pub open spec fn float_src_type(t: FloatType) -> SrcType {
    match t {
        FloatType::F16 => SrcType::F16,
        FloatType::F32 => SrcType::F32,
        FloatType::F64 => SrcType::F64,
    }
}

/// The destination slot type for a float of type `t`.
pub open spec fn float_dst_type(t: FloatType) -> DstType {
    match t {
        FloatType::F16 => DstType::F16,
        FloatType::F32 => DstType::F32,
        FloatType::F64 => DstType::F64,
    }
}

fn float_src_type_of(t: FloatType) -> (r: SrcType)
    ensures
        r == float_src_type(t),
{
    match t {
        FloatType::F16 => SrcType::F16,
        FloatType::F32 => SrcType::F32,
        FloatType::F64 => SrcType::F64,
    }
}

fn float_dst_type_of(t: FloatType) -> (r: DstType)
    ensures
        r == float_dst_type(t),
{
    match t {
        FloatType::F16 => DstType::F16,
        FloatType::F32 => DstType::F32,
        FloatType::F64 => DstType::F64,
    }
}

/// The sources of an operation, in slot order.
pub open spec fn op_srcs(op: &Op) -> Seq<Src> {
    match op {
        Op::ParCopy(o) => o.dsts_srcs.seconds(),
        Op::RegOut(o) => o.srcs@,
        Op::PLop3(o) => seq![o.srcs[0], o.srcs[1], o.srcs[2]],
        Op::Vote(o) => seq![o.pred],
        Op::ViLd(o) => seq![o.idx],
        Op::Copy(o) => seq![o.src],
        Op::Pin(o) => seq![o.src],
        Op::Unpin(o) => seq![o.src],
        Op::Swap(o) => seq![o.srcs[0], o.srcs[1]],
        Op::Out(o) => seq![o.handle, o.stream],
        Op::OutFinal(o) => seq![o.handle],
        Op::HAdd2(o) => seq![o.srcs[0], o.srcs[1]],
        Op::HSet2(o) => seq![o.srcs[0], o.srcs[1], o.accum],
        Op::HSetP2(o) => seq![o.srcs[0], o.srcs[1], o.accum],
        Op::HMul2(o) => seq![o.srcs[0], o.srcs[1]],
        Op::HFma2(o) => seq![o.srcs[0], o.srcs[1], o.srcs[2]],
        Op::HMnMx2(o) => seq![o.srcs[0], o.srcs[1], o.min],
        Op::Imma(o) => seq![o.srcs[0], o.srcs[1], o.srcs[2]],
        Op::Hmma(o) => seq![o.srcs[0], o.srcs[1], o.srcs[2]],
        Op::BClear(o) => Seq::empty(),
        Op::BMov(o) => seq![o.src],
        Op::Break(o) => seq![o.bar_in, o.cond],
        Op::BSSy(o) => seq![o.bar_in, o.cond],
        Op::BSync(o) => seq![o.bar, o.cond],
        Op::SSy(o) => Seq::empty(),
        Op::PBk(o) => Seq::empty(),
        Op::PCnt(o) => Seq::empty(),
        Op::WarpSync(o) => Seq::empty(),
        Op::Bar(o) => Seq::empty(),
        Op::TexDepBar(o) => Seq::empty(),
        Op::CS2R(o) => Seq::empty(),
        Op::Isberd(o) => seq![o.idx],
        Op::Kill(o) => Seq::empty(),
        Op::PixLd(o) => Seq::empty(),
        Op::S2R(o) => Seq::empty(),
        Op::Match(o) => seq![o.src],
        Op::Undef(o) => Seq::empty(),
        Op::SrcBar(o) => seq![o.src],
        Op::Ldc(o) => seq![o.cb, o.offset],
        Op::LdSharedLock(o) => seq![o.addr],
        Op::StSCheckUnlock(o) => seq![o.addr, o.data],
        Op::AL2P(o) => seq![o.offset],
        Op::ALd(o) => seq![o.vtx, o.offset],
        Op::ASt(o) => seq![o.vtx, o.offset, o.data],
        Op::Ipa(o) => seq![o.inv_w, o.offset],
        Op::LdTram(o) => Seq::empty(),
        Op::CCtl(o) => seq![o.addr],
        Op::MemBar(o) => Seq::empty(),
        Op::SuLd(o) => seq![o.handle, o.coord],
        Op::SuSt(o) => seq![o.handle, o.coord, o.data],
        Op::SuAtom(o) => seq![o.handle, o.coord, o.data],
        Op::SuLdGa(o) => seq![o.format, o.addr, o.out_of_bounds],
        Op::SuStGa(o) => seq![o.format, o.addr, o.data, o.out_of_bounds],
        Op::Tex(o) => seq![o.srcs[0], o.srcs[1]],
        Op::Tld(o) => seq![o.srcs[0], o.srcs[1]],
        Op::Tld4(o) => seq![o.srcs[0], o.srcs[1]],
        Op::Tmml(o) => seq![o.srcs[0], o.srcs[1]],
        Op::Txd(o) => seq![o.srcs[0], o.srcs[1]],
        Op::Txq(o) => seq![o.src],
        Op::FSwzAdd(o) => seq![o.srcs[0], o.srcs[1]],
        Op::FSwz(o) => seq![o.srcs[0], o.srcs[1]],
        Op::Rro(o) => seq![o.src],
        Op::MuFu(o) => seq![o.src],
        Op::IDp4(o) => seq![o.srcs[0], o.srcs[1], o.srcs[2]],
        Op::Shfl(o) => seq![o.src, o.lane, o.c],
        Op::R2UR(o) => seq![o.src],
        Op::Redux(o) => seq![o.src],
        Op::F2F(o) => seq![o.src],
        Op::F2FP(o) => seq![o.srcs[0], o.srcs[1]],
        Op::F2I(o) => seq![o.src],
        Op::I2F(o) => seq![o.src],
        Op::I2I(o) => seq![o.src],
        Op::FRnd(o) => seq![o.src],
        Op::FAdd(o) => seq![o.srcs[0], o.srcs[1]],
        Op::FFma(o) => seq![o.srcs[0], o.srcs[1], o.srcs[2]],
        Op::FMnMx(o) => seq![o.srcs[0], o.srcs[1], o.min],
        Op::FMul(o) => seq![o.srcs[0], o.srcs[1]],
        Op::FSet(o) => seq![o.srcs[0], o.srcs[1]],
        Op::FSetP(o) => seq![o.srcs[0], o.srcs[1], o.accum],
        Op::DAdd(o) => seq![o.srcs[0], o.srcs[1]],
        Op::DMul(o) => seq![o.srcs[0], o.srcs[1]],
        Op::DFma(o) => seq![o.srcs[0], o.srcs[1], o.srcs[2]],
        Op::DMnMx(o) => seq![o.srcs[0], o.srcs[1], o.min],
        Op::DSetP(o) => seq![o.srcs[0], o.srcs[1], o.accum],
        Op::IMad(o) => seq![o.srcs[0], o.srcs[1], o.srcs[2]],
        Op::IMul(o) => seq![o.srcs[0], o.srcs[1]],
        Op::IMad64(o) => seq![o.srcs[0], o.srcs[1], o.srcs[2]],
        Op::Mov(o) => seq![o.src],
        Op::Sel(o) => seq![o.cond, o.srcs[0], o.srcs[1]],
        Op::BMsk(o) => seq![o.pos, o.width],
        Op::BRev(o) => seq![o.src],
        Op::Bfe(o) => seq![o.base, o.range],
        Op::Flo(o) => seq![o.src],
        Op::IAbs(o) => seq![o.src],
        Op::IAdd2(o) => seq![o.srcs[0], o.srcs[1]],
        Op::IAdd2X(o) => seq![o.srcs[0], o.srcs[1], o.carry_in],
        Op::IAdd3(o) => seq![o.srcs[0], o.srcs[1], o.srcs[2]],
        Op::IAdd3X(o) => seq![o.srcs[0], o.srcs[1], o.srcs[2], o.carry[0], o.carry[1]],
        Op::IMadSp(o) => seq![o.srcs[0], o.srcs[1], o.srcs[2]],
        Op::IMnMx(o) => seq![o.srcs[0], o.srcs[1], o.min],
        Op::ISetP(o) => seq![o.srcs[0], o.srcs[1], o.accum, o.low_cmp],
        Op::Lea(o) => seq![o.a, o.b, o.a_high],
        Op::LeaX(o) => seq![o.a, o.b, o.a_high, o.carry],
        Op::Lop2(o) => seq![o.srcs[0], o.srcs[1]],
        Op::Lop3(o) => seq![o.srcs[0], o.srcs[1], o.srcs[2]],
        Op::Shf(o) => seq![o.low, o.high, o.shift],
        Op::Shl(o) => seq![o.src, o.shift],
        Op::Shr(o) => seq![o.src, o.shift],
        Op::Prmt(o) => seq![o.srcs[0], o.srcs[1], o.sel],
        Op::PSetP(o) => seq![o.srcs[0], o.srcs[1], o.srcs[2]],
        Op::PopC(o) => seq![o.src],
        Op::SuClamp(o) => seq![o.coords, o.params],
        Op::SuBfm(o) => seq![o.srcs[0], o.srcs[1], o.srcs[2]],
        Op::SuEau(o) => seq![o.off, o.bit_field, o.addr],
        Op::Ld(o) => seq![o.addr],
        Op::St(o) => seq![o.addr, o.data],
        Op::Atom(o) => seq![o.addr, o.cmpr, o.data],
        Op::PhiSrcs(o) => o.srcs.seconds(),
        _ => Seq::empty(),
    }
}

/// The declared type of each source slot of an operation.
pub open spec fn op_src_types(op: &Op) -> Seq<SrcType> {
    match op {
        Op::ParCopy(o) => Seq::new(o.dsts_srcs.seconds().len(), |i: int| SrcType::GPR),
        Op::RegOut(o) => Seq::new(o.srcs@.len(), |i: int| SrcType::GPR),
        Op::PLop3(_) => seq![SrcType::Pred, SrcType::Pred, SrcType::Pred],
        Op::Vote(_) => seq![SrcType::Pred],
        Op::ViLd(_) => seq![SrcType::SSA],
        Op::Copy(_) => seq![SrcType::GPR],
        Op::Pin(_) => seq![SrcType::SSA],
        Op::Unpin(_) => seq![SrcType::SSA],
        Op::Swap(_) => seq![SrcType::GPR, SrcType::GPR],
        Op::Out(_) => seq![SrcType::SSA, SrcType::ALU],
        Op::OutFinal(_) => seq![SrcType::SSA],
        Op::HAdd2(_) => seq![SrcType::F16v2, SrcType::F16v2],
        Op::HSet2(_) => seq![SrcType::F16v2, SrcType::F16v2, SrcType::Pred],
        Op::HSetP2(_) => seq![SrcType::F16v2, SrcType::F16v2, SrcType::Pred],
        Op::HMul2(_) => seq![SrcType::F16v2, SrcType::F16v2],
        Op::HFma2(_) => seq![SrcType::F16v2, SrcType::F16v2, SrcType::F16v2],
        Op::HMnMx2(_) => seq![SrcType::F16v2, SrcType::F16v2, SrcType::Pred],
        Op::Imma(_) => seq![SrcType::SSA, SrcType::SSA, SrcType::SSA],
        Op::Hmma(_) => seq![SrcType::SSA, SrcType::SSA, SrcType::SSA],
        Op::BClear(_) => Seq::empty(),
        Op::BMov(_) => seq![SrcType::GPR],
        Op::Break(_) => seq![SrcType::Bar, SrcType::Pred],
        Op::BSSy(_) => seq![SrcType::Pred, SrcType::Pred],
        Op::BSync(_) => seq![SrcType::Bar, SrcType::Pred],
        Op::SSy(_) => Seq::empty(),
        Op::PBk(_) => Seq::empty(),
        Op::PCnt(_) => Seq::empty(),
        Op::WarpSync(_) => Seq::empty(),
        Op::Bar(_) => Seq::empty(),
        Op::TexDepBar(_) => Seq::empty(),
        Op::CS2R(_) => Seq::empty(),
        Op::Isberd(_) => seq![SrcType::SSA],
        Op::Kill(_) => Seq::empty(),
        Op::PixLd(_) => Seq::empty(),
        Op::S2R(_) => Seq::empty(),
        Op::Match(_) => seq![SrcType::GPR],
        Op::Undef(_) => Seq::empty(),
        Op::SrcBar(_) => seq![SrcType::GPR],
        Op::Ldc(_) => seq![SrcType::ALU, SrcType::GPR],
        Op::LdSharedLock(_) => seq![SrcType::GPR],
        Op::StSCheckUnlock(_) => seq![SrcType::GPR, SrcType::SSA],
        Op::AL2P(_) => seq![SrcType::GPR],
        Op::ALd(_) => seq![SrcType::GPR, SrcType::GPR],
        Op::ASt(_) => seq![SrcType::GPR, SrcType::GPR, SrcType::SSA],
        Op::Ipa(_) => seq![SrcType::GPR, SrcType::GPR],
        Op::LdTram(_) => Seq::empty(),
        Op::CCtl(_) => seq![SrcType::GPR],
        Op::MemBar(_) => Seq::empty(),
        Op::SuLd(_) => seq![SrcType::SSA, SrcType::SSA],
        Op::SuSt(_) => seq![SrcType::SSA, SrcType::SSA, SrcType::SSA],
        Op::SuAtom(_) => seq![SrcType::SSA, SrcType::SSA, SrcType::SSA],
        Op::SuLdGa(_) => seq![SrcType::GPR, SrcType::SSA, SrcType::Pred],
        Op::SuStGa(_) => seq![SrcType::GPR, SrcType::SSA, SrcType::SSA, SrcType::Pred],
        Op::Tex(_) => seq![SrcType::SSA, SrcType::SSA],
        Op::Tld(_) => seq![SrcType::SSA, SrcType::SSA],
        Op::Tld4(_) => seq![SrcType::SSA, SrcType::SSA],
        Op::Tmml(_) => seq![SrcType::SSA, SrcType::SSA],
        Op::Txd(_) => seq![SrcType::SSA, SrcType::SSA],
        Op::Txq(_) => seq![SrcType::SSA],
        Op::FSwzAdd(_) => seq![SrcType::GPR, SrcType::GPR],
        Op::FSwz(_) => seq![SrcType::GPR, SrcType::GPR],
        Op::Rro(_) => seq![SrcType::F32],
        Op::MuFu(_) => seq![SrcType::F32],
        Op::IDp4(_) => seq![SrcType::I32, SrcType::I32, SrcType::I32],
        Op::Shfl(_) => seq![SrcType::SSA, SrcType::ALU, SrcType::ALU],
        Op::R2UR(_) => seq![SrcType::GPR],
        Op::Redux(_) => seq![SrcType::GPR],
        Op::F2F(o) => seq![float_src_type(o.src_type)],
        Op::F2FP(_) => seq![SrcType::ALU, SrcType::ALU],
        Op::F2I(o) => seq![float_src_type(o.src_type)],
        Op::I2F(o) => seq![(if o.src_type is U64 || o.src_type is I64 { SrcType::GPR } else { SrcType::ALU })],
        Op::I2I(_) => seq![SrcType::ALU],
        Op::FRnd(o) => seq![float_src_type(o.src_type)],
        Op::FAdd(_) => seq![SrcType::F32, SrcType::F32],
        Op::FFma(_) => seq![SrcType::F32, SrcType::F32, SrcType::F32],
        Op::FMnMx(_) => seq![SrcType::F32, SrcType::F32, SrcType::Pred],
        Op::FMul(_) => seq![SrcType::F32, SrcType::F32],
        Op::FSet(_) => seq![SrcType::F32, SrcType::F32],
        Op::FSetP(_) => seq![SrcType::F32, SrcType::F32, SrcType::Pred],
        Op::DAdd(_) => seq![SrcType::F64, SrcType::F64],
        Op::DMul(_) => seq![SrcType::F64, SrcType::F64],
        Op::DFma(_) => seq![SrcType::F64, SrcType::F64, SrcType::F64],
        Op::DMnMx(_) => seq![SrcType::F64, SrcType::F64, SrcType::Pred],
        Op::DSetP(_) => seq![SrcType::F64, SrcType::F64, SrcType::Pred],
        Op::IMad(_) => seq![SrcType::ALU, SrcType::ALU, SrcType::ALU],
        Op::IMul(_) => seq![SrcType::ALU, SrcType::ALU],
        Op::IMad64(_) => seq![SrcType::ALU, SrcType::ALU, SrcType::ALU],
        Op::Mov(_) => seq![SrcType::ALU],
        Op::Sel(_) => seq![SrcType::Pred, SrcType::ALU, SrcType::ALU],
        Op::BMsk(_) => seq![SrcType::ALU, SrcType::ALU],
        Op::BRev(_) => seq![SrcType::ALU],
        Op::Bfe(_) => seq![SrcType::ALU, SrcType::ALU],
        Op::Flo(_) => seq![SrcType::ALU],
        Op::IAbs(_) => seq![SrcType::ALU],
        Op::IAdd2(_) => seq![SrcType::I32, SrcType::I32],
        Op::IAdd2X(_) => seq![SrcType::B32, SrcType::B32, SrcType::Carry],
        Op::IAdd3(_) => seq![SrcType::I32, SrcType::I32, SrcType::I32],
        Op::IAdd3X(_) => seq![SrcType::B32, SrcType::B32, SrcType::B32, SrcType::Pred, SrcType::Pred],
        Op::IMadSp(_) => seq![SrcType::ALU, SrcType::ALU, SrcType::ALU],
        Op::IMnMx(_) => seq![SrcType::ALU, SrcType::ALU, SrcType::Pred],
        Op::ISetP(_) => seq![SrcType::ALU, SrcType::ALU, SrcType::Pred, SrcType::Pred],
        Op::Lea(_) => seq![SrcType::ALU, SrcType::I32, SrcType::ALU],
        Op::LeaX(_) => seq![SrcType::ALU, SrcType::B32, SrcType::ALU, SrcType::Pred],
        Op::Lop2(_) => seq![SrcType::B32, SrcType::B32],
        Op::Lop3(_) => seq![SrcType::ALU, SrcType::ALU, SrcType::ALU],
        Op::Shf(_) => seq![SrcType::GPR, SrcType::ALU, SrcType::ALU],
        Op::Shl(_) => seq![SrcType::GPR, SrcType::ALU],
        Op::Shr(_) => seq![SrcType::GPR, SrcType::ALU],
        Op::Prmt(_) => seq![SrcType::ALU, SrcType::ALU, SrcType::ALU],
        Op::PSetP(_) => seq![SrcType::Pred, SrcType::Pred, SrcType::Pred],
        Op::PopC(_) => seq![SrcType::B32],
        Op::SuClamp(_) => seq![SrcType::GPR, SrcType::ALU],
        Op::SuBfm(_) => seq![SrcType::ALU, SrcType::ALU, SrcType::ALU],
        Op::SuEau(_) => seq![SrcType::GPR, SrcType::ALU, SrcType::GPR],
        Op::Ld(_) => seq![SrcType::GPR],
        Op::St(_) => seq![SrcType::GPR, SrcType::SSA],
        Op::Atom(_) => seq![SrcType::GPR, SrcType::GPR, SrcType::SSA],
        Op::PhiSrcs(o) => Seq::new(o.srcs.seconds().len(), |i: int| SrcType::GPR),
        _ => Seq::empty(),
    }
}

/// The destinations of an operation, in slot order.
pub open spec fn op_dsts(op: &Op) -> Seq<Dst> {
    match op {
        Op::ParCopy(o) => o.dsts_srcs.firsts(),
        Op::PLop3(o) => seq![o.dsts[0], o.dsts[1]],
        Op::Vote(o) => seq![o.ballot, o.vote],
        Op::ViLd(o) => seq![o.dst],
        Op::Copy(o) => seq![o.dst],
        Op::Pin(o) => seq![o.dst],
        Op::Unpin(o) => seq![o.dst],
        Op::Swap(o) => seq![o.dsts[0], o.dsts[1]],
        Op::Out(o) => seq![o.dst],
        Op::OutFinal(o) => Seq::empty(),
        Op::HAdd2(o) => seq![o.dst],
        Op::HSet2(o) => seq![o.dst],
        Op::HSetP2(o) => seq![o.dsts[0], o.dsts[1]],
        Op::HMul2(o) => seq![o.dst],
        Op::HFma2(o) => seq![o.dst],
        Op::HMnMx2(o) => seq![o.dst],
        Op::Imma(o) => seq![o.dst],
        Op::Hmma(o) => seq![o.dst],
        Op::BClear(o) => seq![o.dst],
        Op::BMov(o) => seq![o.dst],
        Op::Break(o) => seq![o.bar_out],
        Op::BSSy(o) => seq![o.bar_out],
        Op::BSync(o) => Seq::empty(),
        Op::SSy(o) => Seq::empty(),
        Op::PBk(o) => Seq::empty(),
        Op::PCnt(o) => Seq::empty(),
        Op::WarpSync(o) => Seq::empty(),
        Op::Bar(o) => Seq::empty(),
        Op::TexDepBar(o) => Seq::empty(),
        Op::CS2R(o) => seq![o.dst],
        Op::Isberd(o) => seq![o.dst],
        Op::Kill(o) => Seq::empty(),
        Op::PixLd(o) => seq![o.dst],
        Op::S2R(o) => seq![o.dst],
        Op::Match(o) => seq![o.pred, o.mask],
        Op::Undef(o) => seq![o.dst],
        Op::SrcBar(o) => Seq::empty(),
        Op::Ldc(o) => seq![o.dst],
        Op::LdSharedLock(o) => seq![o.dst, o.locked],
        Op::StSCheckUnlock(o) => seq![o.locked],
        Op::AL2P(o) => seq![o.dst],
        Op::ALd(o) => seq![o.dst],
        Op::ASt(o) => Seq::empty(),
        Op::Ipa(o) => seq![o.dst],
        Op::LdTram(o) => seq![o.dst],
        Op::CCtl(o) => Seq::empty(),
        Op::MemBar(o) => Seq::empty(),
        Op::SuLd(o) => seq![o.dst, o.fault],
        Op::SuSt(o) => Seq::empty(),
        Op::SuAtom(o) => seq![o.dst, o.fault],
        Op::SuLdGa(o) => seq![o.dst],
        Op::SuStGa(o) => Seq::empty(),
        Op::Tex(o) => seq![o.dsts[0], o.dsts[1], o.fault],
        Op::Tld(o) => seq![o.dsts[0], o.dsts[1], o.fault],
        Op::Tld4(o) => seq![o.dsts[0], o.dsts[1], o.fault],
        Op::Tmml(o) => seq![o.dsts[0], o.dsts[1]],
        Op::Txd(o) => seq![o.dsts[0], o.dsts[1], o.fault],
        Op::Txq(o) => seq![o.dsts[0], o.dsts[1]],
        Op::FSwzAdd(o) => seq![o.dst],
        Op::FSwz(o) => seq![o.dst],
        Op::Rro(o) => seq![o.dst],
        Op::MuFu(o) => seq![o.dst],
        Op::IDp4(o) => seq![o.dst],
        Op::Shfl(o) => seq![o.dst, o.in_bounds],
        Op::R2UR(o) => seq![o.dst],
        Op::Redux(o) => seq![o.dst],
        Op::F2F(o) => seq![o.dst],
        Op::F2FP(o) => seq![o.dst],
        Op::F2I(o) => seq![o.dst],
        Op::I2F(o) => seq![o.dst],
        Op::I2I(o) => seq![o.dst],
        Op::FRnd(o) => seq![o.dst],
        Op::FAdd(o) => seq![o.dst],
        Op::FFma(o) => seq![o.dst],
        Op::FMnMx(o) => seq![o.dst],
        Op::FMul(o) => seq![o.dst],
        Op::FSet(o) => seq![o.dst],
        Op::FSetP(o) => seq![o.dst],
        Op::DAdd(o) => seq![o.dst],
        Op::DMul(o) => seq![o.dst],
        Op::DFma(o) => seq![o.dst],
        Op::DMnMx(o) => seq![o.dst],
        Op::DSetP(o) => seq![o.dst],
        Op::IMad(o) => seq![o.dst],
        Op::IMul(o) => seq![o.dst],
        Op::IMad64(o) => seq![o.dst],
        Op::Mov(o) => seq![o.dst],
        Op::Sel(o) => seq![o.dst],
        Op::BMsk(o) => seq![o.dst],
        Op::BRev(o) => seq![o.dst],
        Op::Bfe(o) => seq![o.dst],
        Op::Flo(o) => seq![o.dst],
        Op::IAbs(o) => seq![o.dst],
        Op::IAdd2(o) => seq![o.dst, o.carry_out],
        Op::IAdd2X(o) => seq![o.dst, o.carry_out],
        Op::IAdd3(o) => seq![o.dst, o.overflow[0], o.overflow[1]],
        Op::IAdd3X(o) => seq![o.dst, o.overflow[0], o.overflow[1]],
        Op::IMadSp(o) => seq![o.dst],
        Op::IMnMx(o) => seq![o.dst],
        Op::ISetP(o) => seq![o.dst],
        Op::Lea(o) => seq![o.dst, o.overflow],
        Op::LeaX(o) => seq![o.dst, o.overflow],
        Op::Lop2(o) => seq![o.dst],
        Op::Lop3(o) => seq![o.dst],
        Op::Shf(o) => seq![o.dst],
        Op::Shl(o) => seq![o.dst],
        Op::Shr(o) => seq![o.dst],
        Op::Prmt(o) => seq![o.dst],
        Op::PSetP(o) => seq![o.dsts[0], o.dsts[1]],
        Op::PopC(o) => seq![o.dst],
        Op::SuClamp(o) => seq![o.dst, o.out_of_bounds],
        Op::SuBfm(o) => seq![o.dst, o.pdst],
        Op::SuEau(o) => seq![o.dst],
        Op::Ld(o) => seq![o.dst],
        Op::St(o) => Seq::empty(),
        Op::Atom(o) => seq![o.dst],
        Op::PhiDsts(o) => o.dsts.seconds(),
        _ => Seq::empty(),
    }
}

/// The declared type of each destination slot of an operation.
pub open spec fn op_dst_types(op: &Op) -> Seq<DstType> {
    match op {
        Op::ParCopy(o) => Seq::new(o.dsts_srcs.firsts().len(), |i: int| DstType::Vec),
        Op::PLop3(_) => seq![DstType::Pred, DstType::Pred],
        Op::Vote(_) => seq![DstType::GPR, DstType::Pred],
        Op::ViLd(_) => seq![DstType::GPR],
        Op::Copy(_) => seq![DstType::Vec],
        Op::Pin(_) => seq![DstType::Vec],
        Op::Unpin(_) => seq![DstType::Vec],
        Op::Swap(_) => seq![DstType::Vec, DstType::Vec],
        Op::Out(_) => seq![DstType::Vec],
        Op::OutFinal(_) => Seq::empty(),
        Op::HAdd2(_) => seq![DstType::F16v2],
        Op::HSet2(_) => seq![DstType::F16v2],
        Op::HSetP2(_) => seq![DstType::Pred, DstType::Pred],
        Op::HMul2(_) => seq![DstType::F16v2],
        Op::HFma2(_) => seq![DstType::F16v2],
        Op::HMnMx2(_) => seq![DstType::F16v2],
        Op::Imma(_) => seq![DstType::Vec],
        Op::Hmma(_) => seq![DstType::Vec],
        Op::BClear(_) => seq![DstType::Vec],
        Op::BMov(_) => seq![DstType::Vec],
        Op::Break(_) => seq![DstType::Bar],
        Op::BSSy(_) => seq![DstType::Bar],
        Op::BSync(_) => Seq::empty(),
        Op::SSy(_) => Seq::empty(),
        Op::PBk(_) => Seq::empty(),
        Op::PCnt(_) => Seq::empty(),
        Op::WarpSync(_) => Seq::empty(),
        Op::Bar(_) => Seq::empty(),
        Op::TexDepBar(_) => Seq::empty(),
        Op::CS2R(_) => seq![DstType::Vec],
        Op::Isberd(_) => seq![DstType::GPR],
        Op::Kill(_) => Seq::empty(),
        Op::PixLd(_) => seq![DstType::Vec],
        Op::S2R(_) => seq![DstType::Vec],
        Op::Match(_) => seq![DstType::Pred, DstType::GPR],
        Op::Undef(_) => seq![DstType::Vec],
        Op::SrcBar(_) => Seq::empty(),
        Op::Ldc(_) => seq![DstType::Vec],
        Op::LdSharedLock(_) => seq![DstType::Vec, DstType::Pred],
        Op::StSCheckUnlock(_) => seq![DstType::Pred],
        Op::AL2P(_) => seq![DstType::Vec],
        Op::ALd(_) => seq![DstType::Vec],
        Op::ASt(_) => Seq::empty(),
        Op::Ipa(_) => seq![DstType::Vec],
        Op::LdTram(_) => seq![DstType::Vec],
        Op::CCtl(_) => Seq::empty(),
        Op::MemBar(_) => Seq::empty(),
        Op::SuLd(_) => seq![DstType::Vec, DstType::Vec],
        Op::SuSt(_) => Seq::empty(),
        Op::SuAtom(_) => seq![DstType::Vec, DstType::Vec],
        Op::SuLdGa(_) => seq![DstType::Vec],
        Op::SuStGa(_) => Seq::empty(),
        Op::Tex(_) => seq![DstType::Vec, DstType::Vec, DstType::Vec],
        Op::Tld(_) => seq![DstType::Vec, DstType::Vec, DstType::Vec],
        Op::Tld4(_) => seq![DstType::Vec, DstType::Vec, DstType::Vec],
        Op::Tmml(_) => seq![DstType::Vec, DstType::Vec],
        Op::Txd(_) => seq![DstType::Vec, DstType::Vec, DstType::Vec],
        Op::Txq(_) => seq![DstType::Vec, DstType::Vec],
        Op::FSwzAdd(_) => seq![DstType::F32],
        Op::FSwz(_) => seq![DstType::F32],
        Op::Rro(_) => seq![DstType::F32],
        Op::MuFu(_) => seq![DstType::F32],
        Op::IDp4(_) => seq![DstType::GPR],
        Op::Shfl(_) => seq![DstType::GPR, DstType::Pred],
        Op::R2UR(_) => seq![DstType::GPR],
        Op::Redux(_) => seq![DstType::GPR],
        Op::F2F(o) => seq![float_dst_type(o.dst_type)],
        Op::F2FP(_) => seq![DstType::GPR],
        Op::F2I(_) => seq![DstType::GPR],
        Op::I2F(o) => seq![float_dst_type(o.dst_type)],
        Op::I2I(_) => seq![DstType::GPR],
        Op::FRnd(_) => seq![DstType::F32],
        Op::FAdd(_) => seq![DstType::F32],
        Op::FFma(_) => seq![DstType::F32],
        Op::FMnMx(_) => seq![DstType::F32],
        Op::FMul(_) => seq![DstType::F32],
        Op::FSet(_) => seq![DstType::F32],
        Op::FSetP(_) => seq![DstType::Pred],
        Op::DAdd(_) => seq![DstType::F64],
        Op::DMul(_) => seq![DstType::F64],
        Op::DFma(_) => seq![DstType::F64],
        Op::DMnMx(_) => seq![DstType::F64],
        Op::DSetP(_) => seq![DstType::Pred],
        Op::IMad(_) => seq![DstType::GPR],
        Op::IMul(_) => seq![DstType::GPR],
        Op::IMad64(_) => seq![DstType::Vec],
        Op::Mov(_) => seq![DstType::GPR],
        Op::Sel(_) => seq![DstType::GPR],
        Op::BMsk(_) => seq![DstType::GPR],
        Op::BRev(_) => seq![DstType::GPR],
        Op::Bfe(_) => seq![DstType::GPR],
        Op::Flo(_) => seq![DstType::GPR],
        Op::IAbs(_) => seq![DstType::GPR],
        Op::IAdd2(_) => seq![DstType::GPR, DstType::Carry],
        Op::IAdd2X(_) => seq![DstType::GPR, DstType::Carry],
        Op::IAdd3(_) => seq![DstType::GPR, DstType::Pred, DstType::Pred],
        Op::IAdd3X(_) => seq![DstType::GPR, DstType::Pred, DstType::Pred],
        Op::IMadSp(_) => seq![DstType::GPR],
        Op::IMnMx(_) => seq![DstType::GPR],
        Op::ISetP(_) => seq![DstType::Pred],
        Op::Lea(_) => seq![DstType::GPR, DstType::Pred],
        Op::LeaX(_) => seq![DstType::GPR, DstType::Pred],
        Op::Lop2(_) => seq![DstType::GPR],
        Op::Lop3(_) => seq![DstType::GPR],
        Op::Shf(_) => seq![DstType::GPR],
        Op::Shl(_) => seq![DstType::GPR],
        Op::Shr(_) => seq![DstType::GPR],
        Op::Prmt(_) => seq![DstType::GPR],
        Op::PSetP(_) => seq![DstType::Pred, DstType::Pred],
        Op::PopC(_) => seq![DstType::GPR],
        Op::SuClamp(_) => seq![DstType::GPR, DstType::Pred],
        Op::SuBfm(_) => seq![DstType::GPR, DstType::Pred],
        Op::SuEau(_) => seq![DstType::GPR],
        Op::Ld(_) => seq![DstType::Vec],
        Op::St(_) => Seq::empty(),
        Op::Atom(_) => seq![DstType::Vec],
        Op::PhiDsts(o) => Seq::new(o.dsts.seconds().len(), |i: int| DstType::Vec),
        _ => Seq::empty(),
    }
}

/// The phi lists of an operation are well formed.
pub open spec fn slots_wf(op: &Op) -> bool {
    match op {
        Op::ParCopy(o) => o.dsts_srcs.wf(),
        Op::PhiSrcs(o) => o.srcs.wf(),
        Op::PhiDsts(o) => o.dsts.wf(),
        _ => true,
    }
}

impl Op {
    /// The number of source slots.
    pub fn num_srcs(&self) -> (r: usize)
        requires
            slots_wf(self),
        ensures
            r == op_srcs(self).len(),
    {
        match self {
            Op::ParCopy(o) => o.dsts_srcs.len(),
            Op::RegOut(o) => o.srcs.len(),
            Op::PLop3(_) => 3,
            Op::Vote(_) => 1,
            Op::ViLd(_) => 1,
            Op::Copy(_) => 1,
            Op::Pin(_) => 1,
            Op::Unpin(_) => 1,
            Op::Swap(_) => 2,
            Op::Out(_) => 2,
            Op::OutFinal(_) => 1,
            Op::HAdd2(_) => 2,
            Op::HSet2(_) => 3,
            Op::HSetP2(_) => 3,
            Op::HMul2(_) => 2,
            Op::HFma2(_) => 3,
            Op::HMnMx2(_) => 3,
            Op::Imma(_) => 3,
            Op::Hmma(_) => 3,
            Op::BClear(_) => 0,
            Op::BMov(_) => 1,
            Op::Break(_) => 2,
            Op::BSSy(_) => 2,
            Op::BSync(_) => 2,
            Op::SSy(_) => 0,
            Op::PBk(_) => 0,
            Op::PCnt(_) => 0,
            Op::WarpSync(_) => 0,
            Op::Bar(_) => 0,
            Op::TexDepBar(_) => 0,
            Op::CS2R(_) => 0,
            Op::Isberd(_) => 1,
            Op::Kill(_) => 0,
            Op::PixLd(_) => 0,
            Op::S2R(_) => 0,
            Op::Match(_) => 1,
            Op::Undef(_) => 0,
            Op::SrcBar(_) => 1,
            Op::Ldc(_) => 2,
            Op::LdSharedLock(_) => 1,
            Op::StSCheckUnlock(_) => 2,
            Op::AL2P(_) => 1,
            Op::ALd(_) => 2,
            Op::ASt(_) => 3,
            Op::Ipa(_) => 2,
            Op::LdTram(_) => 0,
            Op::CCtl(_) => 1,
            Op::MemBar(_) => 0,
            Op::SuLd(_) => 2,
            Op::SuSt(_) => 3,
            Op::SuAtom(_) => 3,
            Op::SuLdGa(_) => 3,
            Op::SuStGa(_) => 4,
            Op::Tex(_) => 2,
            Op::Tld(_) => 2,
            Op::Tld4(_) => 2,
            Op::Tmml(_) => 2,
            Op::Txd(_) => 2,
            Op::Txq(_) => 1,
            Op::FSwzAdd(_) => 2,
            Op::FSwz(_) => 2,
            Op::Rro(_) => 1,
            Op::MuFu(_) => 1,
            Op::IDp4(_) => 3,
            Op::Shfl(_) => 3,
            Op::R2UR(_) => 1,
            Op::Redux(_) => 1,
            Op::F2F(_) => 1,
            Op::F2FP(_) => 2,
            Op::F2I(_) => 1,
            Op::I2F(_) => 1,
            Op::I2I(_) => 1,
            Op::FRnd(_) => 1,
            Op::FAdd(_) => 2,
            Op::FFma(_) => 3,
            Op::FMnMx(_) => 3,
            Op::FMul(_) => 2,
            Op::FSet(_) => 2,
            Op::FSetP(_) => 3,
            Op::DAdd(_) => 2,
            Op::DMul(_) => 2,
            Op::DFma(_) => 3,
            Op::DMnMx(_) => 3,
            Op::DSetP(_) => 3,
            Op::IMad(_) => 3,
            Op::IMul(_) => 2,
            Op::IMad64(_) => 3,
            Op::Mov(_) => 1,
            Op::Sel(_) => 3,
            Op::BMsk(_) => 2,
            Op::BRev(_) => 1,
            Op::Bfe(_) => 2,
            Op::Flo(_) => 1,
            Op::IAbs(_) => 1,
            Op::IAdd2(_) => 2,
            Op::IAdd2X(_) => 3,
            Op::IAdd3(_) => 3,
            Op::IAdd3X(_) => 5,
            Op::IMadSp(_) => 3,
            Op::IMnMx(_) => 3,
            Op::ISetP(_) => 4,
            Op::Lea(_) => 3,
            Op::LeaX(_) => 4,
            Op::Lop2(_) => 2,
            Op::Lop3(_) => 3,
            Op::Shf(_) => 3,
            Op::Shl(_) => 2,
            Op::Shr(_) => 2,
            Op::Prmt(_) => 3,
            Op::PSetP(_) => 3,
            Op::PopC(_) => 1,
            Op::SuClamp(_) => 2,
            Op::SuBfm(_) => 3,
            Op::SuEau(_) => 3,
            Op::Ld(_) => 1,
            Op::St(_) => 2,
            Op::Atom(_) => 3,
            Op::PhiSrcs(o) => o.srcs.len(),
            _ => 0,
        }
    }

    /// Source `i`, if there is one.
    pub fn src(&self, i: usize) -> (r: Option<&Src>)
        requires
            slots_wf(self),
        ensures
            i < op_srcs(self).len() ==> r == Some(&op_srcs(self)[i as int]),
            i >= op_srcs(self).len() ==> r.is_none(),
    {
        match self {
            Op::ParCopy(o) => if i < o.dsts_srcs.len() { Some(o.dsts_srcs.get(i).1) } else { None },
            Op::RegOut(o) => if i < o.srcs.len() { Some(&o.srcs[i]) } else { None },
            Op::PLop3(o) => if i == 0 { Some(&o.srcs[0]) } else if i == 1 { Some(&o.srcs[1]) } else if i == 2 { Some(&o.srcs[2]) } else { None },
            Op::Vote(o) => if i == 0 { Some(&o.pred) } else { None },
            Op::ViLd(o) => if i == 0 { Some(&o.idx) } else { None },
            Op::Copy(o) => if i == 0 { Some(&o.src) } else { None },
            Op::Pin(o) => if i == 0 { Some(&o.src) } else { None },
            Op::Unpin(o) => if i == 0 { Some(&o.src) } else { None },
            Op::Swap(o) => if i == 0 { Some(&o.srcs[0]) } else if i == 1 { Some(&o.srcs[1]) } else { None },
            Op::Out(o) => if i == 0 { Some(&o.handle) } else if i == 1 { Some(&o.stream) } else { None },
            Op::OutFinal(o) => if i == 0 { Some(&o.handle) } else { None },
            Op::HAdd2(o) => if i == 0 { Some(&o.srcs[0]) } else if i == 1 { Some(&o.srcs[1]) } else { None },
            Op::HSet2(o) => if i == 0 { Some(&o.srcs[0]) } else if i == 1 { Some(&o.srcs[1]) } else if i == 2 { Some(&o.accum) } else { None },
            Op::HSetP2(o) => if i == 0 { Some(&o.srcs[0]) } else if i == 1 { Some(&o.srcs[1]) } else if i == 2 { Some(&o.accum) } else { None },
            Op::HMul2(o) => if i == 0 { Some(&o.srcs[0]) } else if i == 1 { Some(&o.srcs[1]) } else { None },
            Op::HFma2(o) => if i == 0 { Some(&o.srcs[0]) } else if i == 1 { Some(&o.srcs[1]) } else if i == 2 { Some(&o.srcs[2]) } else { None },
            Op::HMnMx2(o) => if i == 0 { Some(&o.srcs[0]) } else if i == 1 { Some(&o.srcs[1]) } else if i == 2 { Some(&o.min) } else { None },
            Op::Imma(o) => if i == 0 { Some(&o.srcs[0]) } else if i == 1 { Some(&o.srcs[1]) } else if i == 2 { Some(&o.srcs[2]) } else { None },
            Op::Hmma(o) => if i == 0 { Some(&o.srcs[0]) } else if i == 1 { Some(&o.srcs[1]) } else if i == 2 { Some(&o.srcs[2]) } else { None },
            Op::BMov(o) => if i == 0 { Some(&o.src) } else { None },
            Op::Break(o) => if i == 0 { Some(&o.bar_in) } else if i == 1 { Some(&o.cond) } else { None },
            Op::BSSy(o) => if i == 0 { Some(&o.bar_in) } else if i == 1 { Some(&o.cond) } else { None },
            Op::BSync(o) => if i == 0 { Some(&o.bar) } else if i == 1 { Some(&o.cond) } else { None },
            Op::Isberd(o) => if i == 0 { Some(&o.idx) } else { None },
            Op::Match(o) => if i == 0 { Some(&o.src) } else { None },
            Op::SrcBar(o) => if i == 0 { Some(&o.src) } else { None },
            Op::Ldc(o) => if i == 0 { Some(&o.cb) } else if i == 1 { Some(&o.offset) } else { None },
            Op::LdSharedLock(o) => if i == 0 { Some(&o.addr) } else { None },
            Op::StSCheckUnlock(o) => if i == 0 { Some(&o.addr) } else if i == 1 { Some(&o.data) } else { None },
            Op::AL2P(o) => if i == 0 { Some(&o.offset) } else { None },
            Op::ALd(o) => if i == 0 { Some(&o.vtx) } else if i == 1 { Some(&o.offset) } else { None },
            Op::ASt(o) => if i == 0 { Some(&o.vtx) } else if i == 1 { Some(&o.offset) } else if i == 2 { Some(&o.data) } else { None },
            Op::Ipa(o) => if i == 0 { Some(&o.inv_w) } else if i == 1 { Some(&o.offset) } else { None },
            Op::CCtl(o) => if i == 0 { Some(&o.addr) } else { None },
            Op::SuLd(o) => if i == 0 { Some(&o.handle) } else if i == 1 { Some(&o.coord) } else { None },
            Op::SuSt(o) => if i == 0 { Some(&o.handle) } else if i == 1 { Some(&o.coord) } else if i == 2 { Some(&o.data) } else { None },
            Op::SuAtom(o) => if i == 0 { Some(&o.handle) } else if i == 1 { Some(&o.coord) } else if i == 2 { Some(&o.data) } else { None },
            Op::SuLdGa(o) => if i == 0 { Some(&o.format) } else if i == 1 { Some(&o.addr) } else if i == 2 { Some(&o.out_of_bounds) } else { None },
            Op::SuStGa(o) => if i == 0 { Some(&o.format) } else if i == 1 { Some(&o.addr) } else if i == 2 { Some(&o.data) } else if i == 3 { Some(&o.out_of_bounds) } else { None },
            Op::Tex(o) => if i == 0 { Some(&o.srcs[0]) } else if i == 1 { Some(&o.srcs[1]) } else { None },
            Op::Tld(o) => if i == 0 { Some(&o.srcs[0]) } else if i == 1 { Some(&o.srcs[1]) } else { None },
            Op::Tld4(o) => if i == 0 { Some(&o.srcs[0]) } else if i == 1 { Some(&o.srcs[1]) } else { None },
            Op::Tmml(o) => if i == 0 { Some(&o.srcs[0]) } else if i == 1 { Some(&o.srcs[1]) } else { None },
            Op::Txd(o) => if i == 0 { Some(&o.srcs[0]) } else if i == 1 { Some(&o.srcs[1]) } else { None },
            Op::Txq(o) => if i == 0 { Some(&o.src) } else { None },
            Op::FSwzAdd(o) => if i == 0 { Some(&o.srcs[0]) } else if i == 1 { Some(&o.srcs[1]) } else { None },
            Op::FSwz(o) => if i == 0 { Some(&o.srcs[0]) } else if i == 1 { Some(&o.srcs[1]) } else { None },
            Op::Rro(o) => if i == 0 { Some(&o.src) } else { None },
            Op::MuFu(o) => if i == 0 { Some(&o.src) } else { None },
            Op::IDp4(o) => if i == 0 { Some(&o.srcs[0]) } else if i == 1 { Some(&o.srcs[1]) } else if i == 2 { Some(&o.srcs[2]) } else { None },
            Op::Shfl(o) => if i == 0 { Some(&o.src) } else if i == 1 { Some(&o.lane) } else if i == 2 { Some(&o.c) } else { None },
            Op::R2UR(o) => if i == 0 { Some(&o.src) } else { None },
            Op::Redux(o) => if i == 0 { Some(&o.src) } else { None },
            Op::F2F(o) => if i == 0 { Some(&o.src) } else { None },
            Op::F2FP(o) => if i == 0 { Some(&o.srcs[0]) } else if i == 1 { Some(&o.srcs[1]) } else { None },
            Op::F2I(o) => if i == 0 { Some(&o.src) } else { None },
            Op::I2F(o) => if i == 0 { Some(&o.src) } else { None },
            Op::I2I(o) => if i == 0 { Some(&o.src) } else { None },
            Op::FRnd(o) => if i == 0 { Some(&o.src) } else { None },
            Op::FAdd(o) => if i == 0 { Some(&o.srcs[0]) } else if i == 1 { Some(&o.srcs[1]) } else { None },
            Op::FFma(o) => if i == 0 { Some(&o.srcs[0]) } else if i == 1 { Some(&o.srcs[1]) } else if i == 2 { Some(&o.srcs[2]) } else { None },
            Op::FMnMx(o) => if i == 0 { Some(&o.srcs[0]) } else if i == 1 { Some(&o.srcs[1]) } else if i == 2 { Some(&o.min) } else { None },
            Op::FMul(o) => if i == 0 { Some(&o.srcs[0]) } else if i == 1 { Some(&o.srcs[1]) } else { None },
            Op::FSet(o) => if i == 0 { Some(&o.srcs[0]) } else if i == 1 { Some(&o.srcs[1]) } else { None },
            Op::FSetP(o) => if i == 0 { Some(&o.srcs[0]) } else if i == 1 { Some(&o.srcs[1]) } else if i == 2 { Some(&o.accum) } else { None },
            Op::DAdd(o) => if i == 0 { Some(&o.srcs[0]) } else if i == 1 { Some(&o.srcs[1]) } else { None },
            Op::DMul(o) => if i == 0 { Some(&o.srcs[0]) } else if i == 1 { Some(&o.srcs[1]) } else { None },
            Op::DFma(o) => if i == 0 { Some(&o.srcs[0]) } else if i == 1 { Some(&o.srcs[1]) } else if i == 2 { Some(&o.srcs[2]) } else { None },
            Op::DMnMx(o) => if i == 0 { Some(&o.srcs[0]) } else if i == 1 { Some(&o.srcs[1]) } else if i == 2 { Some(&o.min) } else { None },
            Op::DSetP(o) => if i == 0 { Some(&o.srcs[0]) } else if i == 1 { Some(&o.srcs[1]) } else if i == 2 { Some(&o.accum) } else { None },
            Op::IMad(o) => if i == 0 { Some(&o.srcs[0]) } else if i == 1 { Some(&o.srcs[1]) } else if i == 2 { Some(&o.srcs[2]) } else { None },
            Op::IMul(o) => if i == 0 { Some(&o.srcs[0]) } else if i == 1 { Some(&o.srcs[1]) } else { None },
            Op::IMad64(o) => if i == 0 { Some(&o.srcs[0]) } else if i == 1 { Some(&o.srcs[1]) } else if i == 2 { Some(&o.srcs[2]) } else { None },
            Op::Mov(o) => if i == 0 { Some(&o.src) } else { None },
            Op::Sel(o) => if i == 0 { Some(&o.cond) } else if i == 1 { Some(&o.srcs[0]) } else if i == 2 { Some(&o.srcs[1]) } else { None },
            Op::BMsk(o) => if i == 0 { Some(&o.pos) } else if i == 1 { Some(&o.width) } else { None },
            Op::BRev(o) => if i == 0 { Some(&o.src) } else { None },
            Op::Bfe(o) => if i == 0 { Some(&o.base) } else if i == 1 { Some(&o.range) } else { None },
            Op::Flo(o) => if i == 0 { Some(&o.src) } else { None },
            Op::IAbs(o) => if i == 0 { Some(&o.src) } else { None },
            Op::IAdd2(o) => if i == 0 { Some(&o.srcs[0]) } else if i == 1 { Some(&o.srcs[1]) } else { None },
            Op::IAdd2X(o) => if i == 0 { Some(&o.srcs[0]) } else if i == 1 { Some(&o.srcs[1]) } else if i == 2 { Some(&o.carry_in) } else { None },
            Op::IAdd3(o) => if i == 0 { Some(&o.srcs[0]) } else if i == 1 { Some(&o.srcs[1]) } else if i == 2 { Some(&o.srcs[2]) } else { None },
            Op::IAdd3X(o) => if i == 0 { Some(&o.srcs[0]) } else if i == 1 { Some(&o.srcs[1]) } else if i == 2 { Some(&o.srcs[2]) } else if i == 3 { Some(&o.carry[0]) } else if i == 4 { Some(&o.carry[1]) } else { None },
            Op::IMadSp(o) => if i == 0 { Some(&o.srcs[0]) } else if i == 1 { Some(&o.srcs[1]) } else if i == 2 { Some(&o.srcs[2]) } else { None },
            Op::IMnMx(o) => if i == 0 { Some(&o.srcs[0]) } else if i == 1 { Some(&o.srcs[1]) } else if i == 2 { Some(&o.min) } else { None },
            Op::ISetP(o) => if i == 0 { Some(&o.srcs[0]) } else if i == 1 { Some(&o.srcs[1]) } else if i == 2 { Some(&o.accum) } else if i == 3 { Some(&o.low_cmp) } else { None },
            Op::Lea(o) => if i == 0 { Some(&o.a) } else if i == 1 { Some(&o.b) } else if i == 2 { Some(&o.a_high) } else { None },
            Op::LeaX(o) => if i == 0 { Some(&o.a) } else if i == 1 { Some(&o.b) } else if i == 2 { Some(&o.a_high) } else if i == 3 { Some(&o.carry) } else { None },
            Op::Lop2(o) => if i == 0 { Some(&o.srcs[0]) } else if i == 1 { Some(&o.srcs[1]) } else { None },
            Op::Lop3(o) => if i == 0 { Some(&o.srcs[0]) } else if i == 1 { Some(&o.srcs[1]) } else if i == 2 { Some(&o.srcs[2]) } else { None },
            Op::Shf(o) => if i == 0 { Some(&o.low) } else if i == 1 { Some(&o.high) } else if i == 2 { Some(&o.shift) } else { None },
            Op::Shl(o) => if i == 0 { Some(&o.src) } else if i == 1 { Some(&o.shift) } else { None },
            Op::Shr(o) => if i == 0 { Some(&o.src) } else if i == 1 { Some(&o.shift) } else { None },
            Op::Prmt(o) => if i == 0 { Some(&o.srcs[0]) } else if i == 1 { Some(&o.srcs[1]) } else if i == 2 { Some(&o.sel) } else { None },
            Op::PSetP(o) => if i == 0 { Some(&o.srcs[0]) } else if i == 1 { Some(&o.srcs[1]) } else if i == 2 { Some(&o.srcs[2]) } else { None },
            Op::PopC(o) => if i == 0 { Some(&o.src) } else { None },
            Op::SuClamp(o) => if i == 0 { Some(&o.coords) } else if i == 1 { Some(&o.params) } else { None },
            Op::SuBfm(o) => if i == 0 { Some(&o.srcs[0]) } else if i == 1 { Some(&o.srcs[1]) } else if i == 2 { Some(&o.srcs[2]) } else { None },
            Op::SuEau(o) => if i == 0 { Some(&o.off) } else if i == 1 { Some(&o.bit_field) } else if i == 2 { Some(&o.addr) } else { None },
            Op::Ld(o) => if i == 0 { Some(&o.addr) } else { None },
            Op::St(o) => if i == 0 { Some(&o.addr) } else if i == 1 { Some(&o.data) } else { None },
            Op::Atom(o) => if i == 0 { Some(&o.addr) } else if i == 1 { Some(&o.cmpr) } else if i == 2 { Some(&o.data) } else { None },
            Op::PhiSrcs(o) => if i < o.srcs.len() { Some(o.srcs.get(i).1) } else { None },
            _ => None,
        }
    }

    /// The declared type of source slot `i`.
    pub fn src_type(&self, i: usize) -> (r: SrcType)
        requires
            i < op_src_types(self).len(),
        ensures
            r == op_src_types(self)[i as int],
    {
        match self {
            Op::PLop3(_) => SrcType::Pred,
            Op::Vote(_) => SrcType::Pred,
            Op::ViLd(_) => SrcType::SSA,
            Op::Copy(_) => SrcType::GPR,
            Op::Pin(_) => SrcType::SSA,
            Op::Unpin(_) => SrcType::SSA,
            Op::Swap(_) => SrcType::GPR,
            Op::Out(_) => if i == 0 { SrcType::SSA } else { SrcType::ALU },
            Op::OutFinal(_) => SrcType::SSA,
            Op::HAdd2(_) => SrcType::F16v2,
            Op::HSet2(_) => if i == 0 { SrcType::F16v2 } else if i == 1 { SrcType::F16v2 } else { SrcType::Pred },
            Op::HSetP2(_) => if i == 0 { SrcType::F16v2 } else if i == 1 { SrcType::F16v2 } else { SrcType::Pred },
            Op::HMul2(_) => SrcType::F16v2,
            Op::HFma2(_) => SrcType::F16v2,
            Op::HMnMx2(_) => if i == 0 { SrcType::F16v2 } else if i == 1 { SrcType::F16v2 } else { SrcType::Pred },
            Op::Imma(_) => SrcType::SSA,
            Op::Hmma(_) => SrcType::SSA,
            Op::BMov(_) => SrcType::GPR,
            Op::Break(_) => if i == 0 { SrcType::Bar } else { SrcType::Pred },
            Op::BSSy(_) => SrcType::Pred,
            Op::BSync(_) => if i == 0 { SrcType::Bar } else { SrcType::Pred },
            Op::Isberd(_) => SrcType::SSA,
            Op::Match(_) => SrcType::GPR,
            Op::SrcBar(_) => SrcType::GPR,
            Op::Ldc(_) => if i == 0 { SrcType::ALU } else { SrcType::GPR },
            Op::LdSharedLock(_) => SrcType::GPR,
            Op::StSCheckUnlock(_) => if i == 0 { SrcType::GPR } else { SrcType::SSA },
            Op::AL2P(_) => SrcType::GPR,
            Op::ALd(_) => SrcType::GPR,
            Op::ASt(_) => if i == 0 { SrcType::GPR } else if i == 1 { SrcType::GPR } else { SrcType::SSA },
            Op::Ipa(_) => SrcType::GPR,
            Op::CCtl(_) => SrcType::GPR,
            Op::SuLd(_) => SrcType::SSA,
            Op::SuSt(_) => SrcType::SSA,
            Op::SuAtom(_) => SrcType::SSA,
            Op::SuLdGa(_) => if i == 0 { SrcType::GPR } else if i == 1 { SrcType::SSA } else { SrcType::Pred },
            Op::SuStGa(_) => if i == 0 { SrcType::GPR } else if i == 1 { SrcType::SSA } else if i == 2 { SrcType::SSA } else { SrcType::Pred },
            Op::Tex(_) => SrcType::SSA,
            Op::Tld(_) => SrcType::SSA,
            Op::Tld4(_) => SrcType::SSA,
            Op::Tmml(_) => SrcType::SSA,
            Op::Txd(_) => SrcType::SSA,
            Op::Txq(_) => SrcType::SSA,
            Op::FSwzAdd(_) => SrcType::GPR,
            Op::FSwz(_) => SrcType::GPR,
            Op::Rro(_) => SrcType::F32,
            Op::MuFu(_) => SrcType::F32,
            Op::IDp4(_) => SrcType::I32,
            Op::Shfl(_) => if i == 0 { SrcType::SSA } else if i == 1 { SrcType::ALU } else { SrcType::ALU },
            Op::R2UR(_) => SrcType::GPR,
            Op::Redux(_) => SrcType::GPR,
            Op::F2F(o) => float_src_type_of(o.src_type),
            Op::F2FP(_) => SrcType::ALU,
            Op::F2I(o) => float_src_type_of(o.src_type),
            Op::I2F(o) => if o.src_type.bits() <= 32 { SrcType::ALU } else { SrcType::GPR },
            Op::I2I(_) => SrcType::ALU,
            Op::FRnd(o) => float_src_type_of(o.src_type),
            Op::FAdd(_) => SrcType::F32,
            Op::FFma(_) => SrcType::F32,
            Op::FMnMx(_) => if i == 0 { SrcType::F32 } else if i == 1 { SrcType::F32 } else { SrcType::Pred },
            Op::FMul(_) => SrcType::F32,
            Op::FSet(_) => SrcType::F32,
            Op::FSetP(_) => if i == 0 { SrcType::F32 } else if i == 1 { SrcType::F32 } else { SrcType::Pred },
            Op::DAdd(_) => SrcType::F64,
            Op::DMul(_) => SrcType::F64,
            Op::DFma(_) => SrcType::F64,
            Op::DMnMx(_) => if i == 0 { SrcType::F64 } else if i == 1 { SrcType::F64 } else { SrcType::Pred },
            Op::DSetP(_) => if i == 0 { SrcType::F64 } else if i == 1 { SrcType::F64 } else { SrcType::Pred },
            Op::IMad(_) => SrcType::ALU,
            Op::IMul(_) => SrcType::ALU,
            Op::IMad64(_) => SrcType::ALU,
            Op::Mov(_) => SrcType::ALU,
            Op::Sel(_) => if i == 0 { SrcType::Pred } else if i == 1 { SrcType::ALU } else { SrcType::ALU },
            Op::BMsk(_) => SrcType::ALU,
            Op::BRev(_) => SrcType::ALU,
            Op::Bfe(_) => SrcType::ALU,
            Op::Flo(_) => SrcType::ALU,
            Op::IAbs(_) => SrcType::ALU,
            Op::IAdd2(_) => SrcType::I32,
            Op::IAdd2X(_) => if i == 0 { SrcType::B32 } else if i == 1 { SrcType::B32 } else { SrcType::Carry },
            Op::IAdd3(_) => SrcType::I32,
            Op::IAdd3X(_) => if i == 0 { SrcType::B32 } else if i == 1 { SrcType::B32 } else if i == 2 { SrcType::B32 } else if i == 3 { SrcType::Pred } else { SrcType::Pred },
            Op::IMadSp(_) => SrcType::ALU,
            Op::IMnMx(_) => if i == 0 { SrcType::ALU } else if i == 1 { SrcType::ALU } else { SrcType::Pred },
            Op::ISetP(_) => if i == 0 { SrcType::ALU } else if i == 1 { SrcType::ALU } else if i == 2 { SrcType::Pred } else { SrcType::Pred },
            Op::Lea(_) => if i == 0 { SrcType::ALU } else if i == 1 { SrcType::I32 } else { SrcType::ALU },
            Op::LeaX(_) => if i == 0 { SrcType::ALU } else if i == 1 { SrcType::B32 } else if i == 2 { SrcType::ALU } else { SrcType::Pred },
            Op::Lop2(_) => SrcType::B32,
            Op::Lop3(_) => SrcType::ALU,
            Op::Shf(_) => if i == 0 { SrcType::GPR } else if i == 1 { SrcType::ALU } else { SrcType::ALU },
            Op::Shl(_) => if i == 0 { SrcType::GPR } else { SrcType::ALU },
            Op::Shr(_) => if i == 0 { SrcType::GPR } else { SrcType::ALU },
            Op::Prmt(_) => SrcType::ALU,
            Op::PSetP(_) => SrcType::Pred,
            Op::PopC(_) => SrcType::B32,
            Op::SuClamp(_) => if i == 0 { SrcType::GPR } else { SrcType::ALU },
            Op::SuBfm(_) => SrcType::ALU,
            Op::SuEau(_) => if i == 0 { SrcType::GPR } else if i == 1 { SrcType::ALU } else { SrcType::GPR },
            Op::Ld(_) => SrcType::GPR,
            Op::St(_) => if i == 0 { SrcType::GPR } else { SrcType::SSA },
            Op::Atom(_) => if i == 0 { SrcType::GPR } else if i == 1 { SrcType::GPR } else { SrcType::SSA },
            _ => SrcType::GPR,
        }
    }

    /// The number of destination slots.
    pub fn num_dsts(&self) -> (r: usize)
        requires
            slots_wf(self),
        ensures
            r == op_dsts(self).len(),
    {
        match self {
            Op::ParCopy(o) => o.dsts_srcs.len(),
            Op::PLop3(_) => 2,
            Op::Vote(_) => 2,
            Op::ViLd(_) => 1,
            Op::Copy(_) => 1,
            Op::Pin(_) => 1,
            Op::Unpin(_) => 1,
            Op::Swap(_) => 2,
            Op::Out(_) => 1,
            Op::OutFinal(_) => 0,
            Op::HAdd2(_) => 1,
            Op::HSet2(_) => 1,
            Op::HSetP2(_) => 2,
            Op::HMul2(_) => 1,
            Op::HFma2(_) => 1,
            Op::HMnMx2(_) => 1,
            Op::Imma(_) => 1,
            Op::Hmma(_) => 1,
            Op::BClear(_) => 1,
            Op::BMov(_) => 1,
            Op::Break(_) => 1,
            Op::BSSy(_) => 1,
            Op::BSync(_) => 0,
            Op::SSy(_) => 0,
            Op::PBk(_) => 0,
            Op::PCnt(_) => 0,
            Op::WarpSync(_) => 0,
            Op::Bar(_) => 0,
            Op::TexDepBar(_) => 0,
            Op::CS2R(_) => 1,
            Op::Isberd(_) => 1,
            Op::Kill(_) => 0,
            Op::PixLd(_) => 1,
            Op::S2R(_) => 1,
            Op::Match(_) => 2,
            Op::Undef(_) => 1,
            Op::SrcBar(_) => 0,
            Op::Ldc(_) => 1,
            Op::LdSharedLock(_) => 2,
            Op::StSCheckUnlock(_) => 1,
            Op::AL2P(_) => 1,
            Op::ALd(_) => 1,
            Op::ASt(_) => 0,
            Op::Ipa(_) => 1,
            Op::LdTram(_) => 1,
            Op::CCtl(_) => 0,
            Op::MemBar(_) => 0,
            Op::SuLd(_) => 2,
            Op::SuSt(_) => 0,
            Op::SuAtom(_) => 2,
            Op::SuLdGa(_) => 1,
            Op::SuStGa(_) => 0,
            Op::Tex(_) => 3,
            Op::Tld(_) => 3,
            Op::Tld4(_) => 3,
            Op::Tmml(_) => 2,
            Op::Txd(_) => 3,
            Op::Txq(_) => 2,
            Op::FSwzAdd(_) => 1,
            Op::FSwz(_) => 1,
            Op::Rro(_) => 1,
            Op::MuFu(_) => 1,
            Op::IDp4(_) => 1,
            Op::Shfl(_) => 2,
            Op::R2UR(_) => 1,
            Op::Redux(_) => 1,
            Op::F2F(_) => 1,
            Op::F2FP(_) => 1,
            Op::F2I(_) => 1,
            Op::I2F(_) => 1,
            Op::I2I(_) => 1,
            Op::FRnd(_) => 1,
            Op::FAdd(_) => 1,
            Op::FFma(_) => 1,
            Op::FMnMx(_) => 1,
            Op::FMul(_) => 1,
            Op::FSet(_) => 1,
            Op::FSetP(_) => 1,
            Op::DAdd(_) => 1,
            Op::DMul(_) => 1,
            Op::DFma(_) => 1,
            Op::DMnMx(_) => 1,
            Op::DSetP(_) => 1,
            Op::IMad(_) => 1,
            Op::IMul(_) => 1,
            Op::IMad64(_) => 1,
            Op::Mov(_) => 1,
            Op::Sel(_) => 1,
            Op::BMsk(_) => 1,
            Op::BRev(_) => 1,
            Op::Bfe(_) => 1,
            Op::Flo(_) => 1,
            Op::IAbs(_) => 1,
            Op::IAdd2(_) => 2,
            Op::IAdd2X(_) => 2,
            Op::IAdd3(_) => 3,
            Op::IAdd3X(_) => 3,
            Op::IMadSp(_) => 1,
            Op::IMnMx(_) => 1,
            Op::ISetP(_) => 1,
            Op::Lea(_) => 2,
            Op::LeaX(_) => 2,
            Op::Lop2(_) => 1,
            Op::Lop3(_) => 1,
            Op::Shf(_) => 1,
            Op::Shl(_) => 1,
            Op::Shr(_) => 1,
            Op::Prmt(_) => 1,
            Op::PSetP(_) => 2,
            Op::PopC(_) => 1,
            Op::SuClamp(_) => 2,
            Op::SuBfm(_) => 2,
            Op::SuEau(_) => 1,
            Op::Ld(_) => 1,
            Op::Atom(_) => 1,
            Op::PhiDsts(o) => o.dsts.len(),
            _ => 0,
        }
    }

    /// Destination `i`, if there is one.
    pub fn dst(&self, i: usize) -> (r: Option<&Dst>)
        requires
            slots_wf(self),
        ensures
            i < op_dsts(self).len() ==> r == Some(&op_dsts(self)[i as int]),
            i >= op_dsts(self).len() ==> r.is_none(),
    {
        match self {
            Op::ParCopy(o) => if i < o.dsts_srcs.len() { Some(o.dsts_srcs.get(i).0) } else { None },
            Op::PLop3(o) => if i == 0 { Some(&o.dsts[0]) } else if i == 1 { Some(&o.dsts[1]) } else { None },
            Op::Vote(o) => if i == 0 { Some(&o.ballot) } else if i == 1 { Some(&o.vote) } else { None },
            Op::ViLd(o) => if i == 0 { Some(&o.dst) } else { None },
            Op::Copy(o) => if i == 0 { Some(&o.dst) } else { None },
            Op::Pin(o) => if i == 0 { Some(&o.dst) } else { None },
            Op::Unpin(o) => if i == 0 { Some(&o.dst) } else { None },
            Op::Swap(o) => if i == 0 { Some(&o.dsts[0]) } else if i == 1 { Some(&o.dsts[1]) } else { None },
            Op::Out(o) => if i == 0 { Some(&o.dst) } else { None },
            Op::HAdd2(o) => if i == 0 { Some(&o.dst) } else { None },
            Op::HSet2(o) => if i == 0 { Some(&o.dst) } else { None },
            Op::HSetP2(o) => if i == 0 { Some(&o.dsts[0]) } else if i == 1 { Some(&o.dsts[1]) } else { None },
            Op::HMul2(o) => if i == 0 { Some(&o.dst) } else { None },
            Op::HFma2(o) => if i == 0 { Some(&o.dst) } else { None },
            Op::HMnMx2(o) => if i == 0 { Some(&o.dst) } else { None },
            Op::Imma(o) => if i == 0 { Some(&o.dst) } else { None },
            Op::Hmma(o) => if i == 0 { Some(&o.dst) } else { None },
            Op::BClear(o) => if i == 0 { Some(&o.dst) } else { None },
            Op::BMov(o) => if i == 0 { Some(&o.dst) } else { None },
            Op::Break(o) => if i == 0 { Some(&o.bar_out) } else { None },
            Op::BSSy(o) => if i == 0 { Some(&o.bar_out) } else { None },
            Op::CS2R(o) => if i == 0 { Some(&o.dst) } else { None },
            Op::Isberd(o) => if i == 0 { Some(&o.dst) } else { None },
            Op::PixLd(o) => if i == 0 { Some(&o.dst) } else { None },
            Op::S2R(o) => if i == 0 { Some(&o.dst) } else { None },
            Op::Match(o) => if i == 0 { Some(&o.pred) } else if i == 1 { Some(&o.mask) } else { None },
            Op::Undef(o) => if i == 0 { Some(&o.dst) } else { None },
            Op::Ldc(o) => if i == 0 { Some(&o.dst) } else { None },
            Op::LdSharedLock(o) => if i == 0 { Some(&o.dst) } else if i == 1 { Some(&o.locked) } else { None },
            Op::StSCheckUnlock(o) => if i == 0 { Some(&o.locked) } else { None },
            Op::AL2P(o) => if i == 0 { Some(&o.dst) } else { None },
            Op::ALd(o) => if i == 0 { Some(&o.dst) } else { None },
            Op::Ipa(o) => if i == 0 { Some(&o.dst) } else { None },
            Op::LdTram(o) => if i == 0 { Some(&o.dst) } else { None },
            Op::SuLd(o) => if i == 0 { Some(&o.dst) } else if i == 1 { Some(&o.fault) } else { None },
            Op::SuAtom(o) => if i == 0 { Some(&o.dst) } else if i == 1 { Some(&o.fault) } else { None },
            Op::SuLdGa(o) => if i == 0 { Some(&o.dst) } else { None },
            Op::Tex(o) => if i == 0 { Some(&o.dsts[0]) } else if i == 1 { Some(&o.dsts[1]) } else if i == 2 { Some(&o.fault) } else { None },
            Op::Tld(o) => if i == 0 { Some(&o.dsts[0]) } else if i == 1 { Some(&o.dsts[1]) } else if i == 2 { Some(&o.fault) } else { None },
            Op::Tld4(o) => if i == 0 { Some(&o.dsts[0]) } else if i == 1 { Some(&o.dsts[1]) } else if i == 2 { Some(&o.fault) } else { None },
            Op::Tmml(o) => if i == 0 { Some(&o.dsts[0]) } else if i == 1 { Some(&o.dsts[1]) } else { None },
            Op::Txd(o) => if i == 0 { Some(&o.dsts[0]) } else if i == 1 { Some(&o.dsts[1]) } else if i == 2 { Some(&o.fault) } else { None },
            Op::Txq(o) => if i == 0 { Some(&o.dsts[0]) } else if i == 1 { Some(&o.dsts[1]) } else { None },
            Op::FSwzAdd(o) => if i == 0 { Some(&o.dst) } else { None },
            Op::FSwz(o) => if i == 0 { Some(&o.dst) } else { None },
            Op::Rro(o) => if i == 0 { Some(&o.dst) } else { None },
            Op::MuFu(o) => if i == 0 { Some(&o.dst) } else { None },
            Op::IDp4(o) => if i == 0 { Some(&o.dst) } else { None },
            Op::Shfl(o) => if i == 0 { Some(&o.dst) } else if i == 1 { Some(&o.in_bounds) } else { None },
            Op::R2UR(o) => if i == 0 { Some(&o.dst) } else { None },
            Op::Redux(o) => if i == 0 { Some(&o.dst) } else { None },
            Op::F2F(o) => if i == 0 { Some(&o.dst) } else { None },
            Op::F2FP(o) => if i == 0 { Some(&o.dst) } else { None },
            Op::F2I(o) => if i == 0 { Some(&o.dst) } else { None },
            Op::I2F(o) => if i == 0 { Some(&o.dst) } else { None },
            Op::I2I(o) => if i == 0 { Some(&o.dst) } else { None },
            Op::FRnd(o) => if i == 0 { Some(&o.dst) } else { None },
            Op::FAdd(o) => if i == 0 { Some(&o.dst) } else { None },
            Op::FFma(o) => if i == 0 { Some(&o.dst) } else { None },
            Op::FMnMx(o) => if i == 0 { Some(&o.dst) } else { None },
            Op::FMul(o) => if i == 0 { Some(&o.dst) } else { None },
            Op::FSet(o) => if i == 0 { Some(&o.dst) } else { None },
            Op::FSetP(o) => if i == 0 { Some(&o.dst) } else { None },
            Op::DAdd(o) => if i == 0 { Some(&o.dst) } else { None },
            Op::DMul(o) => if i == 0 { Some(&o.dst) } else { None },
            Op::DFma(o) => if i == 0 { Some(&o.dst) } else { None },
            Op::DMnMx(o) => if i == 0 { Some(&o.dst) } else { None },
            Op::DSetP(o) => if i == 0 { Some(&o.dst) } else { None },
            Op::IMad(o) => if i == 0 { Some(&o.dst) } else { None },
            Op::IMul(o) => if i == 0 { Some(&o.dst) } else { None },
            Op::IMad64(o) => if i == 0 { Some(&o.dst) } else { None },
            Op::Mov(o) => if i == 0 { Some(&o.dst) } else { None },
            Op::Sel(o) => if i == 0 { Some(&o.dst) } else { None },
            Op::BMsk(o) => if i == 0 { Some(&o.dst) } else { None },
            Op::BRev(o) => if i == 0 { Some(&o.dst) } else { None },
            Op::Bfe(o) => if i == 0 { Some(&o.dst) } else { None },
            Op::Flo(o) => if i == 0 { Some(&o.dst) } else { None },
            Op::IAbs(o) => if i == 0 { Some(&o.dst) } else { None },
            Op::IAdd2(o) => if i == 0 { Some(&o.dst) } else if i == 1 { Some(&o.carry_out) } else { None },
            Op::IAdd2X(o) => if i == 0 { Some(&o.dst) } else if i == 1 { Some(&o.carry_out) } else { None },
            Op::IAdd3(o) => if i == 0 { Some(&o.dst) } else if i == 1 { Some(&o.overflow[0]) } else if i == 2 { Some(&o.overflow[1]) } else { None },
            Op::IAdd3X(o) => if i == 0 { Some(&o.dst) } else if i == 1 { Some(&o.overflow[0]) } else if i == 2 { Some(&o.overflow[1]) } else { None },
            Op::IMadSp(o) => if i == 0 { Some(&o.dst) } else { None },
            Op::IMnMx(o) => if i == 0 { Some(&o.dst) } else { None },
            Op::ISetP(o) => if i == 0 { Some(&o.dst) } else { None },
            Op::Lea(o) => if i == 0 { Some(&o.dst) } else if i == 1 { Some(&o.overflow) } else { None },
            Op::LeaX(o) => if i == 0 { Some(&o.dst) } else if i == 1 { Some(&o.overflow) } else { None },
            Op::Lop2(o) => if i == 0 { Some(&o.dst) } else { None },
            Op::Lop3(o) => if i == 0 { Some(&o.dst) } else { None },
            Op::Shf(o) => if i == 0 { Some(&o.dst) } else { None },
            Op::Shl(o) => if i == 0 { Some(&o.dst) } else { None },
            Op::Shr(o) => if i == 0 { Some(&o.dst) } else { None },
            Op::Prmt(o) => if i == 0 { Some(&o.dst) } else { None },
            Op::PSetP(o) => if i == 0 { Some(&o.dsts[0]) } else if i == 1 { Some(&o.dsts[1]) } else { None },
            Op::PopC(o) => if i == 0 { Some(&o.dst) } else { None },
            Op::SuClamp(o) => if i == 0 { Some(&o.dst) } else if i == 1 { Some(&o.out_of_bounds) } else { None },
            Op::SuBfm(o) => if i == 0 { Some(&o.dst) } else if i == 1 { Some(&o.pdst) } else { None },
            Op::SuEau(o) => if i == 0 { Some(&o.dst) } else { None },
            Op::Ld(o) => if i == 0 { Some(&o.dst) } else { None },
            Op::Atom(o) => if i == 0 { Some(&o.dst) } else { None },
            Op::PhiDsts(o) => if i < o.dsts.len() { Some(o.dsts.get(i).1) } else { None },
            _ => None,
        }
    }

    /// The declared type of destination slot `i`.
    pub fn dst_type(&self, i: usize) -> (r: DstType)
        requires
            i < op_dst_types(self).len(),
        ensures
            r == op_dst_types(self)[i as int],
    {
        match self {
            Op::PLop3(_) => DstType::Pred,
            Op::Vote(_) => if i == 0 { DstType::GPR } else { DstType::Pred },
            Op::ViLd(_) => DstType::GPR,
            Op::Copy(_) => DstType::Vec,
            Op::Pin(_) => DstType::Vec,
            Op::Unpin(_) => DstType::Vec,
            Op::Swap(_) => DstType::Vec,
            Op::Out(_) => DstType::Vec,
            Op::HAdd2(_) => DstType::F16v2,
            Op::HSet2(_) => DstType::F16v2,
            Op::HSetP2(_) => DstType::Pred,
            Op::HMul2(_) => DstType::F16v2,
            Op::HFma2(_) => DstType::F16v2,
            Op::HMnMx2(_) => DstType::F16v2,
            Op::Imma(_) => DstType::Vec,
            Op::Hmma(_) => DstType::Vec,
            Op::BClear(_) => DstType::Vec,
            Op::BMov(_) => DstType::Vec,
            Op::Break(_) => DstType::Bar,
            Op::BSSy(_) => DstType::Bar,
            Op::CS2R(_) => DstType::Vec,
            Op::Isberd(_) => DstType::GPR,
            Op::PixLd(_) => DstType::Vec,
            Op::S2R(_) => DstType::Vec,
            Op::Match(_) => if i == 0 { DstType::Pred } else { DstType::GPR },
            Op::Undef(_) => DstType::Vec,
            Op::Ldc(_) => DstType::Vec,
            Op::LdSharedLock(_) => if i == 0 { DstType::Vec } else { DstType::Pred },
            Op::StSCheckUnlock(_) => DstType::Pred,
            Op::AL2P(_) => DstType::Vec,
            Op::ALd(_) => DstType::Vec,
            Op::Ipa(_) => DstType::Vec,
            Op::LdTram(_) => DstType::Vec,
            Op::SuLd(_) => DstType::Vec,
            Op::SuAtom(_) => DstType::Vec,
            Op::SuLdGa(_) => DstType::Vec,
            Op::Tex(_) => DstType::Vec,
            Op::Tld(_) => DstType::Vec,
            Op::Tld4(_) => DstType::Vec,
            Op::Tmml(_) => DstType::Vec,
            Op::Txd(_) => DstType::Vec,
            Op::Txq(_) => DstType::Vec,
            Op::FSwzAdd(_) => DstType::F32,
            Op::FSwz(_) => DstType::F32,
            Op::Rro(_) => DstType::F32,
            Op::MuFu(_) => DstType::F32,
            Op::IDp4(_) => DstType::GPR,
            Op::Shfl(_) => if i == 0 { DstType::GPR } else { DstType::Pred },
            Op::R2UR(_) => DstType::GPR,
            Op::Redux(_) => DstType::GPR,
            Op::F2F(o) => float_dst_type_of(o.dst_type),
            Op::F2FP(_) => DstType::GPR,
            Op::F2I(_) => DstType::GPR,
            Op::I2F(o) => float_dst_type_of(o.dst_type),
            Op::I2I(_) => DstType::GPR,
            Op::FRnd(_) => DstType::F32,
            Op::FAdd(_) => DstType::F32,
            Op::FFma(_) => DstType::F32,
            Op::FMnMx(_) => DstType::F32,
            Op::FMul(_) => DstType::F32,
            Op::FSet(_) => DstType::F32,
            Op::FSetP(_) => DstType::Pred,
            Op::DAdd(_) => DstType::F64,
            Op::DMul(_) => DstType::F64,
            Op::DFma(_) => DstType::F64,
            Op::DMnMx(_) => DstType::F64,
            Op::DSetP(_) => DstType::Pred,
            Op::IMad(_) => DstType::GPR,
            Op::IMul(_) => DstType::GPR,
            Op::IMad64(_) => DstType::Vec,
            Op::Mov(_) => DstType::GPR,
            Op::Sel(_) => DstType::GPR,
            Op::BMsk(_) => DstType::GPR,
            Op::BRev(_) => DstType::GPR,
            Op::Bfe(_) => DstType::GPR,
            Op::Flo(_) => DstType::GPR,
            Op::IAbs(_) => DstType::GPR,
            Op::IAdd2(_) => if i == 0 { DstType::GPR } else { DstType::Carry },
            Op::IAdd2X(_) => if i == 0 { DstType::GPR } else { DstType::Carry },
            Op::IAdd3(_) => if i == 0 { DstType::GPR } else if i == 1 { DstType::Pred } else { DstType::Pred },
            Op::IAdd3X(_) => if i == 0 { DstType::GPR } else if i == 1 { DstType::Pred } else { DstType::Pred },
            Op::IMadSp(_) => DstType::GPR,
            Op::IMnMx(_) => DstType::GPR,
            Op::ISetP(_) => DstType::Pred,
            Op::Lea(_) => if i == 0 { DstType::GPR } else { DstType::Pred },
            Op::LeaX(_) => if i == 0 { DstType::GPR } else { DstType::Pred },
            Op::Lop2(_) => DstType::GPR,
            Op::Lop3(_) => DstType::GPR,
            Op::Shf(_) => DstType::GPR,
            Op::Shl(_) => DstType::GPR,
            Op::Shr(_) => DstType::GPR,
            Op::Prmt(_) => DstType::GPR,
            Op::PSetP(_) => DstType::Pred,
            Op::PopC(_) => DstType::GPR,
            Op::SuClamp(_) => if i == 0 { DstType::GPR } else { DstType::Pred },
            Op::SuBfm(_) => if i == 0 { DstType::GPR } else { DstType::Pred },
            Op::SuEau(_) => DstType::GPR,
            Op::Ld(_) => DstType::Vec,
            Op::Atom(_) => DstType::Vec,
            _ => DstType::Vec,
        }
    }


    /// Whether the destinations are uniform: some destination is present
    /// and all present ones are uniform.
    pub fn is_uniform(&self) -> (r: bool)
        requires
            slots_wf(self),
            dsts_agree(op_dsts(self)),
            dsts_have_files(op_dsts(self)),
        ensures
            r == exists|i: int| 0 <= i < op_dsts(self).len() && dst_uniformity(#[trigger] op_dsts(self)[i]) == Some(true),
    {
        let n = self.num_dsts();
        let mut uniform: Option<bool> = None;
        let mut k: usize = 0;
        while k < n
            invariant
                k <= n,
                n == op_dsts(self).len(),
                slots_wf(self),
                dsts_agree(op_dsts(self)),
                uniform.is_none() ==> forall|i: int| 0 <= i < k ==> dst_uniformity(#[trigger] op_dsts(self)[i]) is None,
                uniform matches Some(u) ==> exists|i: int| 0 <= i < k && dst_uniformity(#[trigger] op_dsts(self)[i]) == Some(u),
            decreases n - k,
        {
            let d = match self.dst(k) {
                Some(d) => d,
                None => {
                    return false;
                },
            };
            let dst_uniform = match d {
                Dst::Null => None,
                Dst::Reg(r) => Some(r.is_uniform()),
                Dst::SSA(s) => Some(s.is_uniform()),
            };
            if dst_uniform.is_some() {
                uniform = dst_uniform;
            }
            k = k + 1;
        }
        match uniform {
            Some(u) => u,
            None => false,
        }
    }
}

impl Instr {
    /// Whether the instruction's results are uniform; phi destinations
    /// never are.
    pub fn is_uniform(&self) -> (r: bool)
        requires
            slots_wf(&self.op),
            dsts_agree(op_dsts(&self.op)),
            dsts_have_files(op_dsts(&self.op)),
        ensures
            self.op is PhiDsts ==> !r,
            !(self.op is PhiDsts) ==> r == exists|i: int|
                0 <= i < op_dsts(&self.op).len() && dst_uniformity(#[trigger] op_dsts(&self.op)[i]) == Some(true),
    {
        match &self.op {
            Op::PhiDsts(_) => false,
            op => op.is_uniform(),
        }
    }
}

/// Every operation has exactly one declared type per source slot and per
/// destination slot.
pub proof fn lemma_slot_types_parallel(op: &Op)
    ensures
        op_src_types(op).len() == op_srcs(op).len(),
        op_dst_types(op).len() == op_dsts(op).len(),
{
}

/// The SSA values a source reads, directly or as a bindless buffer index.
pub open spec fn src_ssa(s: Src) -> Seq<SSAValue> {
    match s.src_ref {
        SrcRef::SSA(v) => v@,
        SrcRef::CBuf(cb) => match cb.buf {
            CBuf::BindlessSSA(v) => v@,
            _ => Seq::empty(),
        },
        _ => Seq::empty(),
    }
}

/// The SSA values a destination defines.
pub open spec fn dst_ssa(d: Dst) -> Seq<SSAValue> {
    match d {
        Dst::SSA(v) => v@,
        _ => Seq::empty(),
    }
}

/// The SSA values read by `srcs`, source by source.
pub open spec fn srcs_ssa(srcs: Seq<Src>) -> Seq<SSAValue>
    decreases srcs.len(),
{
    if srcs.len() == 0 {
        Seq::empty()
    } else {
        srcs_ssa(srcs.drop_last()) + src_ssa(srcs.last())
    }
}

/// The SSA values defined by `dsts`, destination by destination.
pub open spec fn dsts_ssa(dsts: Seq<Dst>) -> Seq<SSAValue>
    decreases dsts.len(),
{
    if dsts.len() == 0 {
        Seq::empty()
    } else {
        dsts_ssa(dsts.drop_last()) + dst_ssa(dsts.last())
    }
}

/// The SSA value a predicate reads, if any.
pub open spec fn pred_ssa(p: Pred) -> Seq<SSAValue> {
    match p.pred_ref {
        PredRef::SSA(v) => seq![v],
        _ => Seq::empty(),
    }
}

fn push_all(out: &mut Vec<SSAValue>, vals: &[SSAValue])
    ensures
        final(out)@ == old(out)@ + vals@,
{
    let mut i: usize = 0;
    while i < vals.len()
        invariant
            i <= vals@.len(),
            out@ == old(out)@ + vals@.take(i as int),
        decreases vals@.len() - i,
    {
        out.push(vals[i]);
        i = i + 1;
        assert(out@ =~= old(out)@ + vals@.take(i as int));
    }
    assert(vals@.take(vals@.len() as int) =~= vals@);
}

impl Instr {
    /// The SSA values the instruction reads: its predicate's, then those of
    /// each source in slot order.
    pub fn ssa_uses(&self) -> (r: Vec<SSAValue>)
        requires
            slots_wf(&self.op),
        ensures
            r@ == pred_ssa(self.pred) + srcs_ssa(op_srcs(&self.op)),
    {
        let mut out: Vec<SSAValue> = Vec::new();
        match self.pred.pred_ref {
            PredRef::SSA(v) => out.push(v),
            _ => {},
        }
        assert(out@ =~= pred_ssa(self.pred));
        let n = self.op.num_srcs();
        let mut i: usize = 0;
        while i < n
            invariant
                i <= n,
                n == op_srcs(&self.op).len(),
                slots_wf(&self.op),
                out@ == pred_ssa(self.pred) + srcs_ssa(op_srcs(&self.op).take(i as int)),
            decreases n - i,
        {
            match self.op.src(i) {
                Some(src) => {
                    push_all(&mut out, src.iter_ssa());
                },
                None => {},
            }
            proof {
                assert(op_srcs(&self.op).take(i + 1).drop_last() =~= op_srcs(&self.op).take(i as int));
            }
            i = i + 1;
            assert(out@ =~= pred_ssa(self.pred) + srcs_ssa(op_srcs(&self.op).take(i as int)));
        }
        assert(op_srcs(&self.op).take(n as int) =~= op_srcs(&self.op));
        out
    }

    /// The SSA values the instruction defines, destination by destination.
    pub fn ssa_defs(&self) -> (r: Vec<SSAValue>)
        requires
            slots_wf(&self.op),
        ensures
            r@ == dsts_ssa(op_dsts(&self.op)),
    {
        let mut out: Vec<SSAValue> = Vec::new();
        let n = self.op.num_dsts();
        let mut i: usize = 0;
        while i < n
            invariant
                i <= n,
                n == op_dsts(&self.op).len(),
                slots_wf(&self.op),
                out@ == dsts_ssa(op_dsts(&self.op).take(i as int)),
            decreases n - i,
        {
            match self.op.dst(i) {
                Some(dst) => {
                    push_all(&mut out, dst.iter_ssa());
                },
                None => {},
            }
            proof {
                assert(op_dsts(&self.op).take(i + 1).drop_last() =~= op_dsts(&self.op).take(i as int));
            }
            i = i + 1;
            assert(out@ =~= dsts_ssa(op_dsts(&self.op).take(i as int)));
        }
        assert(op_dsts(&self.op).take(n as int) =~= op_dsts(&self.op));
        out
    }
}

} // verus!
