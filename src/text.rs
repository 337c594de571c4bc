use vstd::prelude::*;
use vstd::string::StringExecFns;
use crate::reg::{RegFile, RegRef};
use crate::ssa::{SSARef, SSAValue};
use crate::block::{Instr, InstrDeps, MemAccess, Op, OpAtom, OpLd, OpSt, OpBra, OpBrk, OpCont, OpPhiDsts, OpPhiSrcs, OpSync, Phi, Pred, PredRef};
use crate::alu::{OpBMsk, OpBRev, OpBfe, OpIMad, OpIMad64, OpIMul, OpMov, OpSel};
use crate::float_ops::{FRndMode, OpFAdd, OpFFma, OpFMnMx, OpFMul, OpFSet, OpFSetP, OpDAdd, OpDMul, OpDFma, OpDMnMx, OpDSetP};
use crate::conv_ops::{OpF2F, OpF2FP, OpF2I, OpI2F, OpI2I, OpFRnd};
use crate::misc_ops::{FSwzAddOp, FSwzShuffle, MuFuOp, ReduxOp, RroOp, ShflOp, TexDerivMode, OpFSwzAdd, OpFSwz, OpRro, OpMuFu, OpIDp4, OpShfl, OpR2UR, OpRedux};
use crate::tex::{ChannelMask, TexDim, TexLodMode, TexOffsetMode, TexQuery, TexRef, OpTex, OpTld, OpTld4, OpTmml, OpTxd, OpTxq};
use crate::surface_mem::{ImageAccess, OpSuLd, OpSuSt, OpSuAtom, OpSuLdGa, OpSuStGa};
use crate::attr_ops::{InterpFreq, InterpLoc, LdcMode, OpLdc, OpLdSharedLock, OpStSCheckUnlock, OpAL2P, OpALd, OpASt, OpIpa, OpLdTram, OpCCtl, OpMemBar};
use crate::control::{MatchOp, PixVal, OpBClear, OpBMov, OpBreak, OpBSSy, OpBSync, OpSSy, OpPBk, OpPCnt, OpWarpSync, OpBar, OpTexDepBar, OpCS2R, OpIsberd, OpKill, OpPixLd, OpS2R, OpMatch, OpUndef, OpSrcBar};
use crate::half_ops::{HmmaSize, ImmaSize, OpHAdd2, OpHSet2, OpHSetP2, OpHMul2, OpHFma2, OpHMnMx2, OpImma, OpHmma};
use crate::virtual_ops::{OpParCopy, OpRegOut, OutType, OpCopy, OpPin, OpUnpin, OpSwap, OpOut, OpOutFinal};
use crate::wave_ops::{VoteOp, OpPLop3, OpVote, OpViLd};
use crate::imadsp::{IMadSpMode, IMadSpSrcType, OpIMadSp};
use crate::int_ops::{
    OpFlo, OpIAbs, OpIAdd2, OpIAdd2X, OpIAdd3, OpIAdd3X, OpIMnMx, OpISetP, OpLea, OpLeaX, OpLop2, OpLop3,
    OpPSetP, OpPopC,
};
use crate::shift::{OpShf, OpShl, OpShr};
use crate::slots::{op_dsts, slots_wf};
use crate::surface::{OpSuBfm, OpSuClamp, OpSuEau};
use crate::logic::{PredSetOp, spec_is_trivial};
use crate::operand::{CBuf, CBufRef, Dst, Src, SrcMod, SrcRef, SrcSwizzle, spec_imm};
use crate::types::{FloatType, ImageDim, LdCacheOp, StCacheOp, AtomCmpSrc, AtomOp, AtomType, MemAddrType, MemEvictionPriority, MemOrder, MemScope, MemSpace, MemType};
use crate::prmt::{OpPrmt, PrmtMode};
use crate::surface::{SuClampMode, SuClampRound};

verus! {

/// The digit `d` (below 16) in lower case.
pub open spec fn digit_char(d: nat) -> char {
    if d < 10 { ((d + 48) as u8) as char } else { ((d + 87) as u8) as char }
}

/// `n` in decimal, without leading zeros.
#[verifier::opaque]
pub open spec fn dec_text(n: nat) -> Seq<char>
    decreases n,
{
    if n < 10 { seq![digit_char(n)] } else { dec_text(n / 10) + seq![digit_char(n % 10)] }
}

/// `n` in lower-case hexadecimal, without prefix or leading zeros.
pub open spec fn hex_digits(n: nat) -> Seq<char>
    decreases n,
{
    if n < 16 { seq![digit_char(n)] } else { hex_digits(n / 16) + seq![digit_char(n % 16)] }
}

/// `n` in hexadecimal with a `0x` prefix.
#[verifier::opaque]
pub open spec fn hex_text(n: nat) -> Seq<char> {
    "0x"@ + hex_digits(n)
}

fn digit_str(d: u32) -> (r: &'static str)
    requires
        d < 16,
    ensures
        r@ == seq![digit_char(d as nat)],
{
    proof {
        reveal_strlit("0");
        reveal_strlit("1");
        reveal_strlit("2");
        reveal_strlit("3");
        reveal_strlit("4");
        reveal_strlit("5");
        reveal_strlit("6");
        reveal_strlit("7");
        reveal_strlit("8");
        reveal_strlit("9");
        reveal_strlit("a");
        reveal_strlit("b");
        reveal_strlit("c");
        reveal_strlit("d");
        reveal_strlit("e");
        reveal_strlit("f");
    }
    let r = match d {
        0 => "0",
        1 => "1",
        2 => "2",
        3 => "3",
        4 => "4",
        5 => "5",
        6 => "6",
        7 => "7",
        8 => "8",
        9 => "9",
        10 => "a",
        11 => "b",
        12 => "c",
        13 => "d",
        14 => "e",
        _ => "f",
    };
    assert(r@ =~= seq![digit_char(d as nat)]);
    r
}

/// Appends `n` in decimal.
pub fn push_dec(s: &mut String, n: u32)
    ensures
        final(s)@ == old(s)@ + dec_text(n as nat),
    decreases n,
{
    reveal(dec_text);
    if n >= 10 {
        push_dec(s, n / 10);
    }
    s.append(digit_str(n % 10));
    assert(final(s)@ =~= old(s)@ + dec_text(n as nat));
}

fn push_hex_digits(s: &mut String, n: u32)
    ensures
        final(s)@ == old(s)@ + hex_digits(n as nat),
    decreases n,
{
    if n >= 16 {
        push_hex_digits(s, n / 16);
    }
    s.append(digit_str(n % 16));
    assert(final(s)@ =~= old(s)@ + hex_digits(n as nat));
}

/// Appends `n` in hexadecimal with a `0x` prefix.
pub fn push_hex(s: &mut String, n: u32)
    ensures
        final(s)@ == old(s)@ + hex_text(n as nat),
{
    reveal(hex_text);
    s.append("0x");
    push_hex_digits(s, n);
    assert(final(s)@ =~= old(s)@ + hex_text(n as nat));
}

pub open spec fn file_prefix(file: RegFile) -> Seq<char> {
    match file {
        RegFile::GPR => "r"@,
        RegFile::UGPR => "ur"@,
        RegFile::Pred => "p"@,
        RegFile::UPred => "up"@,
        RegFile::Carry => "c"@,
        RegFile::Bar => "b"@,
        RegFile::Mem => "m"@,
    }
}

/// A register range as text: the file prefix and first index, then `..`
/// and the end index when it holds more than one register.
pub open spec fn reg_text(r: RegRef) -> Seq<char> {
    file_prefix(r.spec_file()) + dec_text(r.spec_base_idx() as nat) + if r.spec_comps() > 1 {
        ".."@ + dec_text((r.spec_base_idx() + r.spec_comps()) as nat)
    } else {
        Seq::empty()
    }
}

/// An SSA value as text: `%`, its file prefix and its index.
pub open spec fn ssa_value_text(v: SSAValue) -> Seq<char> {
    "%"@ + file_prefix(v.file) + dec_text(v.idx as nat)
}

/// The texts of `vals`, each after a space.
pub open spec fn spaced_values(vals: Seq<SSAValue>) -> Seq<char>
    decreases vals.len(),
{
    if vals.len() == 0 {
        Seq::empty()
    } else {
        spaced_values(vals.drop_last()) + " "@ + ssa_value_text(vals.last())
    }
}

/// An SSA vector as text: a single value alone, several in braces.
pub open spec fn ssa_ref_text(vals: Seq<SSAValue>) -> Seq<char> {
    if vals.len() == 1 {
        ssa_value_text(vals[0])
    } else {
        "{"@ + spaced_values(vals) + " }"@
    }
}

pub open spec fn dst_text(d: Dst) -> Seq<char> {
    match d {
        Dst::Null => "null"@,
        Dst::SSA(s) => ssa_ref_text(s@),
        Dst::Reg(r) => reg_text(r),
    }
}

pub open spec fn cbuf_ref_text(c: CBufRef) -> Seq<char> {
    (match c.buf {
        CBuf::Binding(idx) => "c["@ + hex_text(idx as nat) + "]"@,
        CBuf::BindlessSSA(s) => "cx["@ + ssa_ref_text(s@) + "]"@,
        CBuf::BindlessUGPR(r) => "cx["@ + reg_text(r) + "]"@,
    }) + "["@ + hex_text(c.offset as nat) + "]"@
}

pub open spec fn src_ref_text(r: SrcRef) -> Seq<char> {
    match r {
        SrcRef::Zero => "rZ"@,
        SrcRef::True => "pT"@,
        SrcRef::False => "pF"@,
        SrcRef::Imm32(u) => hex_text(u as nat),
        SrcRef::CBuf(c) => cbuf_ref_text(c),
        SrcRef::SSA(s) => ssa_ref_text(s@),
        SrcRef::Reg(g) => reg_text(g),
    }
}

pub open spec fn swizzle_text(sw: SrcSwizzle) -> Seq<char> {
    match sw {
        SrcSwizzle::Xy => Seq::empty(),
        SrcSwizzle::Xx => ".xx"@,
        SrcSwizzle::Yy => ".yy"@,
    }
}

/// A source as text: what it reads and its swizzle, inside the marks of
/// its modifier (`|x|`, `-x`, `-|x|`, `!x`).
#[verifier::opaque]
pub open spec fn src_text(s: Src) -> Seq<char> {
    let inner = src_ref_text(s.src_ref) + swizzle_text(s.src_swizzle);
    match s.src_mod {
        SrcMod::Plain => inner,
        SrcMod::FAbs => "|"@ + inner + "|"@,
        SrcMod::FNeg | SrcMod::INeg => "-"@ + inner,
        SrcMod::FNegAbs => "-|"@ + inner + "|"@,
        SrcMod::BNot => "!"@ + inner,
    }
}

fn push_file_prefix(s: &mut String, file: RegFile)
    ensures
        final(s)@ == old(s)@ + file_prefix(file),
{
    match file {
        RegFile::GPR => s.append("r"),
        RegFile::UGPR => s.append("ur"),
        RegFile::Pred => s.append("p"),
        RegFile::UPred => s.append("up"),
        RegFile::Carry => s.append("c"),
        RegFile::Bar => s.append("b"),
        RegFile::Mem => s.append("m"),
    }
}

/// Appends the text of a register range.
pub fn push_reg(s: &mut String, r: &RegRef)
    ensures
        final(s)@ == old(s)@ + reg_text(*r),
{
    push_file_prefix(s, r.file());
    push_dec(s, r.base_idx());
    if r.comps() > 1 {
        s.append("..");
        push_dec(s, r.idx_range().end);
    }
    assert(final(s)@ =~= old(s)@ + reg_text(*r));
}

/// Appends the text of an SSA value.
pub fn push_ssa_value(s: &mut String, v: &SSAValue)
    ensures
        final(s)@ == old(s)@ + ssa_value_text(*v),
{
    s.append("%");
    push_file_prefix(s, v.file);
    push_dec(s, v.idx);
    assert(final(s)@ =~= old(s)@ + ssa_value_text(*v));
}

/// Appends the text of an SSA vector.
pub fn push_ssa_ref(s: &mut String, r: &SSARef)
    ensures
        final(s)@ == old(s)@ + ssa_ref_text(r@),
{
    let vals = r.values();
    if vals.len() == 1 {
        push_ssa_value(s, &vals[0]);
    } else {
        s.append("{");
        let ghost start = s@;
        let mut i: usize = 0;
        while i < vals.len()
            invariant
                i <= vals@.len(),
                vals@ == r@,
                s@ == start + spaced_values(vals@.take(i as int)),
            decreases vals@.len() - i,
        {
            s.append(" ");
            push_ssa_value(s, &vals[i]);
            proof {
                assert(vals@.take(i + 1).drop_last() =~= vals@.take(i as int));
            }
            i = i + 1;
            assert(s@ =~= start + spaced_values(vals@.take(i as int)));
        }
        assert(vals@.take(vals@.len() as int) =~= vals@);
        s.append(" }");
        assert(final(s)@ =~= old(s)@ + ssa_ref_text(r@));
    }
}

impl Dst {
    /// The destination as text.
    pub fn to_text(&self) -> (r: String)
        ensures
            r@ == dst_text(*self),
    {
        let mut s = String::new();
        self.push_text(&mut s);
        assert(s@ =~= dst_text(*self));
        s
    }

    /// Appends the destination's text.
    pub fn push_text(&self, s: &mut String)
        ensures
            final(s)@ == old(s)@ + dst_text(*self),
    {
        match self {
            Dst::Null => s.append("null"),
            Dst::SSA(v) => push_ssa_ref(s, v),
            Dst::Reg(r) => push_reg(s, r),
        }
    }
}

impl CBufRef {
    /// Appends the constant-buffer location's text.
    pub fn push_text(&self, s: &mut String)
        ensures
            final(s)@ == old(s)@ + cbuf_ref_text(*self),
    {
        match &self.buf {
            CBuf::Binding(idx) => {
                s.append("c[");
                push_hex(s, *idx as u32);
                s.append("]");
            },
            CBuf::BindlessSSA(v) => {
                s.append("cx[");
                push_ssa_ref(s, v);
                s.append("]");
            },
            CBuf::BindlessUGPR(r) => {
                s.append("cx[");
                push_reg(s, r);
                s.append("]");
            },
        }
        s.append("[");
        push_hex(s, self.offset as u32);
        s.append("]");
        assert(final(s)@ =~= old(s)@ + cbuf_ref_text(*self));
    }
}

impl SrcRef {
    /// Appends the text of what the source reads.
    pub fn push_text(&self, s: &mut String)
        ensures
            final(s)@ == old(s)@ + src_ref_text(*self),
    {
        match self {
            SrcRef::Zero => s.append("rZ"),
            SrcRef::True => s.append("pT"),
            SrcRef::False => s.append("pF"),
            SrcRef::Imm32(u) => push_hex(s, *u),
            SrcRef::CBuf(c) => c.push_text(s),
            SrcRef::SSA(v) => push_ssa_ref(s, v),
            SrcRef::Reg(r) => push_reg(s, r),
        }
    }
}

impl Src {
    /// The source as text.
    pub fn to_text(&self) -> (r: String)
        ensures
            r@ == src_text(*self),
    {
        reveal(src_text);
        let mut s = String::new();
        self.push_text(&mut s);
        assert(s@ =~= src_text(*self));
        s
    }

    /// Appends the source's text.
    pub fn push_text(&self, s: &mut String)
        ensures
            final(s)@ == old(s)@ + src_text(*self),
    {
        reveal(src_text);
        match self.src_mod {
            SrcMod::Plain => {},
            SrcMod::FAbs => s.append("|"),
            SrcMod::FNeg | SrcMod::INeg => s.append("-"),
            SrcMod::FNegAbs => s.append("-|"),
            SrcMod::BNot => s.append("!"),
        }
        self.src_ref.push_text(s);
        match self.src_swizzle {
            SrcSwizzle::Xy => {},
            SrcSwizzle::Xx => s.append(".xx"),
            SrcSwizzle::Yy => s.append(".yy"),
        }
        match self.src_mod {
            SrcMod::FAbs | SrcMod::FNegAbs => s.append("|"),
            _ => {},
        }
        assert(final(s)@ =~= old(s)@ + src_text(*self));
    }
}

/// The destinations as text: up to the last one present (at least the
/// first), separated by spaces; nothing for an empty list.
pub open spec fn dst_slice_text(dsts: Seq<Dst>) -> Seq<char> {
    if dsts.len() == 0 {
        Seq::empty()
    } else {
        joined_dsts(dsts.take(last_present(dsts, dsts.len() as int) + 1))
    }
}

/// The index of the last present destination before `n`, or 0.
pub open spec fn last_present(dsts: Seq<Dst>, n: int) -> int
    decreases n,
{
    if n <= 0 {
        0
    } else if !(dsts[n - 1] is Null) {
        n - 1
    } else {
        last_present(dsts, n - 1)
    }
}

/// The texts of `dsts` separated by single spaces.
pub open spec fn joined_dsts(dsts: Seq<Dst>) -> Seq<char>
    decreases dsts.len(),
{
    if dsts.len() == 0 {
        Seq::empty()
    } else if dsts.len() == 1 {
        dst_text(dsts[0])
    } else {
        joined_dsts(dsts.drop_last()) + " "@ + dst_text(dsts.last())
    }
}

proof fn lemma_last_present_bound(dsts: Seq<Dst>, n: int)
    requires
        0 <= n <= dsts.len(),
    ensures
        0 <= last_present(dsts, n),
        n > 0 ==> last_present(dsts, n) < n,
    decreases n,
{
    if n > 0 {
        lemma_last_present_bound(dsts, n - 1);
    }
}

/// Appends the destinations' text.
pub fn fmt_dst_slice(s: &mut String, dsts: &[Dst])
    ensures
        final(s)@ == old(s)@ + dst_slice_text(dsts@),
{
    if dsts.len() == 0 {
        assert(final(s)@ =~= old(s)@ + dst_slice_text(dsts@));
        return;
    }
    let mut last_dst: usize = 0;
    let mut k: usize = 0;
    while k < dsts.len()
        invariant
            k <= dsts@.len(),
            dsts@.len() > 0,
            last_dst as int == last_present(dsts@, k as int),
        decreases dsts@.len() - k,
    {
        if !dsts[k].is_none() {
            last_dst = k;
        }
        k = k + 1;
    }
    proof {
        lemma_last_present_bound(dsts@, dsts@.len() as int);
    }
    let ghost start = s@;
    let end = last_dst + 1;
    let mut i: usize = 0;
    while i < end
        invariant
            last_dst < dsts@.len(),
            end == last_dst + 1,
            i <= end,
            s@ == start + joined_dsts(dsts@.take(i as int)),
        decreases end - i,
    {
        if i != 0 {
            s.append(" ");
        }
        dsts[i].push_text(s);
        proof {
            assert(dsts@.take(i + 1).drop_last() =~= dsts@.take(i as int));
        }
        i = i + 1;
        assert(s@ =~= start + joined_dsts(dsts@.take(i as int)));
    }
}



/// `t` when `c` holds, else nothing.
#[verifier::opaque]
pub open spec fn opt(c: bool, t: Seq<char>) -> Seq<char> {
    if c { t } else { Seq::empty() }
}

fn push_opt(s: &mut String, c: bool, t: &str)
    ensures
        final(s)@ == old(s)@ + opt(c, t@),
{
    reveal(opt);
    if c {
        s.append(t);
    } else {
        assert(s@ =~= s@ + Seq::<char>::empty());
    }
}

fn push_opt_src(s: &mut String, c: bool, src: &Src)
    ensures
        final(s)@ == old(s)@ + opt(c, " "@ + src_text(*src)),
{
    reveal(opt);
    if c {
        s.append(" ");
        src.push_text(s);
        assert(final(s)@ =~= old(s)@ + (" "@ + src_text(*src)));
    } else {
        assert(s@ =~= s@ + Seq::<char>::empty());
    }
}

/// A predicate accumulator that is a literal making the step a no-op.
pub open spec fn trivial_accum(set_op: PredSetOp, accum: Src) -> bool {
    match accum.src_ref {
        SrcRef::True => spec_is_trivial(set_op, Some(!(accum.src_mod is BNot))),
        SrcRef::False => spec_is_trivial(set_op, Some(accum.src_mod is BNot)),
        _ => false,
    }
}

fn accum_is_trivial(set_op: PredSetOp, accum: &Src) -> (r: bool)
    ensures
        r == trivial_accum(set_op, *accum),
{
    let inv = match accum.src_mod {
        SrcMod::BNot => true,
        _ => false,
    };
    let b = match accum.src_ref {
        SrcRef::True => !inv,
        SrcRef::False => inv,
        _ => {
            return false;
        },
    };
    match set_op {
        PredSetOp::And => b,
        PredSetOp::Or | PredSetOp::Xor => !b,
    }
}

impl PrmtMode {
    pub open spec fn spec_suffix(&self) -> Seq<char> {
        match *self {
            PrmtMode::Index => Seq::empty(),
            PrmtMode::Forward4Extract => ".f4e"@,
            PrmtMode::Backward4Extract => ".b4e"@,
            PrmtMode::Replicate8 => ".rc8"@,
            PrmtMode::EdgeClampLeft => ".ecl"@,
            PrmtMode::EdgeClampRight => ".ecl"@,
            PrmtMode::Replicate16 => ".rc16"@,
        }
    }

    pub fn suffix(&self) -> (r: &'static str)
        ensures
            r@ == self.spec_suffix(),
    {
        proof {
            reveal_strlit("");
        }
        match self {
            PrmtMode::Index => "",
            PrmtMode::Forward4Extract => ".f4e",
            PrmtMode::Backward4Extract => ".b4e",
            PrmtMode::Replicate8 => ".rc8",
            PrmtMode::EdgeClampLeft => ".ecl",
            PrmtMode::EdgeClampRight => ".ecl",
            PrmtMode::Replicate16 => ".rc16",
        }
    }
}

impl SuClampMode {
    pub open spec fn spec_suffix(&self) -> Seq<char> {
        match *self {
            SuClampMode::StoredInDescriptor => ".sd"@,
            SuClampMode::PitchLinear => ".pl"@,
            SuClampMode::BlockLinear => ".bl"@,
        }
    }

    pub fn suffix(&self) -> (r: &'static str)
        ensures
            r@ == self.spec_suffix(),
    {
        match self {
            SuClampMode::StoredInDescriptor => ".sd",
            SuClampMode::PitchLinear => ".pl",
            SuClampMode::BlockLinear => ".bl",
        }
    }
}

impl SuClampRound {
    /// Nothing for no rounding, else `.r` and the rounding.
    pub open spec fn spec_suffix(&self) -> Seq<char> {
        match *self {
            SuClampRound::R1 => Seq::empty(),
            SuClampRound::R2 => ".r2"@,
            SuClampRound::R4 => ".r4"@,
            SuClampRound::R8 => ".r8"@,
            SuClampRound::R16 => ".r16"@,
        }
    }

    pub fn suffix(&self) -> (r: &'static str)
        ensures
            r@ == self.spec_suffix(),
    {
        proof {
            reveal_strlit("");
        }
        match self {
            SuClampRound::R1 => "",
            SuClampRound::R2 => ".r2",
            SuClampRound::R4 => ".r4",
            SuClampRound::R8 => ".r8",
            SuClampRound::R16 => ".r16",
        }
    }
}

impl IMadSpSrcType {
    /// The sign (`.s` or `.u`) and the part read.
    pub open spec fn spec_suffix(&self) -> Seq<char> {
        match *self {
            IMadSpSrcType::U32 => ".u32"@,
            IMadSpSrcType::U24 => ".u24"@,
            IMadSpSrcType::U16Lo => ".u16h0"@,
            IMadSpSrcType::U16Hi => ".u16h1"@,
            IMadSpSrcType::S32 => ".s32"@,
            IMadSpSrcType::S24 => ".s24"@,
            IMadSpSrcType::S16Lo => ".s16h0"@,
            IMadSpSrcType::S16Hi => ".s16h1"@,
        }
    }

    pub fn suffix(&self) -> (r: &'static str)
        ensures
            r@ == self.spec_suffix(),
    {
        match self {
            IMadSpSrcType::U32 => ".u32",
            IMadSpSrcType::U24 => ".u24",
            IMadSpSrcType::U16Lo => ".u16h0",
            IMadSpSrcType::U16Hi => ".u16h1",
            IMadSpSrcType::S32 => ".s32",
            IMadSpSrcType::S24 => ".s24",
            IMadSpSrcType::S16Lo => ".s16h0",
            IMadSpSrcType::S16Hi => ".s16h1",
        }
    }
}

impl IMadSpMode {
    /// The three source types, or `.sd` when they come from a source.
    pub open spec fn spec_suffix(&self) -> Seq<char> {
        match *self {
            IMadSpMode::Explicit(t) => t[0].spec_suffix() + t[1].spec_suffix() + t[2].spec_suffix(),
            IMadSpMode::FromSrc1 => ".sd"@,
        }
    }

    pub fn push_suffix(&self, s: &mut String)
        ensures
            final(s)@ == old(s)@ + self.spec_suffix(),
    {
        match self {
            IMadSpMode::Explicit(t) => {
                s.append(t[0].suffix());
                s.append(t[1].suffix());
                s.append(t[2].suffix());
            },
            IMadSpMode::FromSrc1 => s.append(".sd"),
        }
        assert(final(s)@ =~= old(s)@ + self.spec_suffix());
    }
}

/// The phi sign and the phi's index.
pub open spec fn phi_text(p: Phi) -> Seq<char> {
    "\u{3c6}"@ + dec_text(p.idx as nat)
}

/// `phi = src` for each pair, separated by `, `.
pub open spec fn phi_src_list(phis: Seq<Phi>, srcs: Seq<Src>) -> Seq<char>
    decreases phis.len(),
{
    if phis.len() == 0 || srcs.len() < phis.len() {
        Seq::empty()
    } else if phis.len() == 1 {
        phi_text(phis[0]) + " = "@ + src_text(srcs[0])
    } else {
        phi_src_list(phis.drop_last(), srcs.take(phis.len() - 1)) + ", "@ + phi_text(phis.last())
            + " = "@ + src_text(srcs[phis.len() - 1])
    }
}

/// `dst = phi` for each pair, separated by `, `.
pub open spec fn phi_dst_list(phis: Seq<Phi>, dsts: Seq<Dst>) -> Seq<char>
    decreases phis.len(),
{
    if phis.len() == 0 || dsts.len() < phis.len() {
        Seq::empty()
    } else if phis.len() == 1 {
        dst_text(dsts[0]) + " = "@ + phi_text(phis[0])
    } else {
        phi_dst_list(phis.drop_last(), dsts.take(phis.len() - 1)) + ", "@ + dst_text(dsts[phis.len() - 1])
            + " = "@ + phi_text(phis.last())
    }
}

fn push_phi(s: &mut String, p: &Phi)
    ensures
        final(s)@ == old(s)@ + phi_text(*p),
{
    s.append("\u{3c6}");
    push_dec(s, p.idx);
    assert(final(s)@ =~= old(s)@ + phi_text(*p));
}

fn push_phi_srcs(s: &mut String, o: &OpPhiSrcs)
    requires
        o.srcs.wf(),
    ensures
        final(s)@ == old(s)@ + phi_src_list(o.srcs.firsts(), o.srcs.seconds()),
{
    let n = o.srcs.len();
    let ghost start = s@;
    let mut i: usize = 0;
    while i < n
        invariant
            o.srcs.wf(),
            n == o.srcs.firsts().len(),
            n == o.srcs.seconds().len(),
            i <= n,
            s@ == start + phi_src_list(o.srcs.firsts().take(i as int), o.srcs.seconds().take(i as int)),
        decreases n - i,
    {
        let (p, src) = o.srcs.get(i);
        if i > 0 {
            s.append(", ");
        }
        push_phi(s, p);
        s.append(" = ");
        src.push_text(s);
        proof {
            let ps = o.srcs.firsts().take(i + 1);
            let ss = o.srcs.seconds().take(i + 1);
            assert(ps.drop_last() =~= o.srcs.firsts().take(i as int));
            assert(ss.take(i as int) =~= o.srcs.seconds().take(i as int));
        }
        i = i + 1;
        assert(s@ =~= start + phi_src_list(o.srcs.firsts().take(i as int), o.srcs.seconds().take(i as int)));
    }
    assert(o.srcs.firsts().take(n as int) =~= o.srcs.firsts());
    assert(o.srcs.seconds().take(n as int) =~= o.srcs.seconds());
}

fn push_phi_dsts(s: &mut String, o: &OpPhiDsts)
    requires
        o.dsts.wf(),
    ensures
        final(s)@ == old(s)@ + phi_dst_list(o.dsts.firsts(), o.dsts.seconds()),
{
    let n = o.dsts.len();
    let ghost start = s@;
    let mut i: usize = 0;
    while i < n
        invariant
            o.dsts.wf(),
            n == o.dsts.firsts().len(),
            n == o.dsts.seconds().len(),
            i <= n,
            s@ == start + phi_dst_list(o.dsts.firsts().take(i as int), o.dsts.seconds().take(i as int)),
        decreases n - i,
    {
        let (p, dst) = o.dsts.get(i);
        if i > 0 {
            s.append(", ");
        }
        dst.push_text(s);
        s.append(" = ");
        push_phi(s, p);
        proof {
            let ps = o.dsts.firsts().take(i + 1);
            let ds = o.dsts.seconds().take(i + 1);
            assert(ps.drop_last() =~= o.dsts.firsts().take(i as int));
            assert(ds.take(i as int) =~= o.dsts.seconds().take(i as int));
        }
        i = i + 1;
        assert(s@ =~= start + phi_dst_list(o.dsts.firsts().take(i as int), o.dsts.seconds().take(i as int)));
    }
    assert(o.dsts.firsts().take(n as int) =~= o.dsts.firsts());
    assert(o.dsts.seconds().take(n as int) =~= o.dsts.seconds());
}

/// Phi lists are well formed, and a constant buffer load reads a
/// constant buffer.
pub open spec fn op_wf(op: &Op) -> bool {
    match op {
        Op::ParCopy(o) => o.dsts_srcs.wf(),
        Op::PhiSrcs(o) => o.srcs.wf(),
        Op::PhiDsts(o) => o.dsts.wf(),
        Op::Ldc(o) => o.cb.src_ref is CBuf,
        _ => true,
    }
}

pub open spec fn flo_text(o: &OpFlo) -> Seq<char> {
    "flo"@ + opt(o.return_shift_amount, ".samt"@) + " "@ + src_text(o.src)
}

fn fmt_flo(o: &OpFlo, s: &mut String)
    ensures
        final(s)@ == old(s)@ + flo_text(o),
{
    s.append("flo");
    push_opt(s, o.return_shift_amount, ".samt");
    s.append(" ");
    o.src.push_text(s);
    assert(final(s)@ =~= old(s)@ + flo_text(o));
}

pub open spec fn iabs_text(o: &OpIAbs) -> Seq<char> {
    "iabs "@ + src_text(o.src)
}

fn fmt_iabs(o: &OpIAbs, s: &mut String)
    ensures
        final(s)@ == old(s)@ + iabs_text(o),
{
    s.append("iabs ");
    o.src.push_text(s);
    assert(final(s)@ =~= old(s)@ + iabs_text(o));
}

pub open spec fn iadd2_text(o: &OpIAdd2) -> Seq<char> {
    "iadd2 "@ + src_text(o.srcs[0]) + " "@ + src_text(o.srcs[1])
}

fn fmt_iadd2(o: &OpIAdd2, s: &mut String)
    ensures
        final(s)@ == old(s)@ + iadd2_text(o),
{
    s.append("iadd2 ");
    o.srcs[0].push_text(s);
    s.append(" ");
    o.srcs[1].push_text(s);
    assert(final(s)@ =~= old(s)@ + iadd2_text(o));
}

pub open spec fn iadd2x_text(o: &OpIAdd2X) -> Seq<char> {
    "iadd2.x "@ + src_text(o.srcs[0]) + " "@ + src_text(o.srcs[1]) + " "@ + src_text(o.carry_in)
}

fn fmt_iadd2x(o: &OpIAdd2X, s: &mut String)
    ensures
        final(s)@ == old(s)@ + iadd2x_text(o),
{
    s.append("iadd2.x ");
    o.srcs[0].push_text(s);
    s.append(" ");
    o.srcs[1].push_text(s);
    s.append(" ");
    o.carry_in.push_text(s);
    assert(final(s)@ =~= old(s)@ + iadd2x_text(o));
}

pub open spec fn iadd3_text(o: &OpIAdd3) -> Seq<char> {
    "iadd3 "@ + src_text(o.srcs[0]) + " "@ + src_text(o.srcs[1]) + " "@ + src_text(o.srcs[2])
}

fn fmt_iadd3(o: &OpIAdd3, s: &mut String)
    ensures
        final(s)@ == old(s)@ + iadd3_text(o),
{
    s.append("iadd3 ");
    o.srcs[0].push_text(s);
    s.append(" ");
    o.srcs[1].push_text(s);
    s.append(" ");
    o.srcs[2].push_text(s);
    assert(final(s)@ =~= old(s)@ + iadd3_text(o));
}

pub open spec fn iadd3x_text(o: &OpIAdd3X) -> Seq<char> {
    "iadd3.x "@ + src_text(o.srcs[0]) + " "@ + src_text(o.srcs[1]) + " "@ + src_text(o.srcs[2]) + " "@ + src_text(o.carry[0]) + " "@ + src_text(o.carry[1])
}

fn fmt_iadd3x(o: &OpIAdd3X, s: &mut String)
    ensures
        final(s)@ == old(s)@ + iadd3x_text(o),
{
    s.append("iadd3.x ");
    o.srcs[0].push_text(s);
    s.append(" ");
    o.srcs[1].push_text(s);
    s.append(" ");
    o.srcs[2].push_text(s);
    s.append(" ");
    o.carry[0].push_text(s);
    s.append(" ");
    o.carry[1].push_text(s);
    assert(final(s)@ =~= old(s)@ + iadd3x_text(o));
}

pub open spec fn imnmx_text(o: &OpIMnMx) -> Seq<char> {
    "imnmx"@ + o.cmp_type.spec_suffix() + " "@ + src_text(o.srcs[0]) + " "@ + src_text(o.srcs[1]) + " "@ + src_text(o.min)
}

fn fmt_imnmx(o: &OpIMnMx, s: &mut String)
    ensures
        final(s)@ == old(s)@ + imnmx_text(o),
{
    s.append("imnmx");
    s.append(o.cmp_type.suffix());
    s.append(" ");
    o.srcs[0].push_text(s);
    s.append(" ");
    o.srcs[1].push_text(s);
    s.append(" ");
    o.min.push_text(s);
    assert(final(s)@ =~= old(s)@ + imnmx_text(o));
}

pub open spec fn isetp_text(o: &OpISetP) -> Seq<char> {
    "isetp"@ + o.cmp_op.spec_suffix() + o.cmp_type.spec_suffix() + opt(!trivial_accum(o.set_op, o.accum), o.set_op.spec_suffix())
        + opt(o.ex, ".ex"@) + " "@ + src_text(o.srcs[0]) + " "@ + src_text(o.srcs[1])
        + opt(!trivial_accum(o.set_op, o.accum), " "@ + src_text(o.accum)) + opt(o.ex, " "@ + src_text(o.low_cmp))
}

fn fmt_isetp(o: &OpISetP, s: &mut String)
    ensures
        final(s)@ == old(s)@ + isetp_text(o),
{
    let trivial = accum_is_trivial(o.set_op, &o.accum);
    let ghost t0 = s@;
    s.append("isetp");
    s.append(o.cmp_op.suffix());
    s.append(o.cmp_type.suffix());
    push_opt(s, !trivial, o.set_op.suffix());
    push_opt(s, o.ex, ".ex");
    let ghost t1 = s@;
    assert(t1 =~= t0 + ("isetp"@ + o.cmp_op.spec_suffix() + o.cmp_type.spec_suffix() + opt(!trivial, o.set_op.spec_suffix())
        + opt(o.ex, ".ex"@)));
    s.append(" ");
    o.srcs[0].push_text(s);
    s.append(" ");
    o.srcs[1].push_text(s);
    push_opt_src(s, !trivial, &o.accum);
    push_opt_src(s, o.ex, &o.low_cmp);
    assert(final(s)@ =~= old(s)@ + isetp_text(o));
}

pub open spec fn lea_text(o: &OpLea) -> Seq<char> {
    "lea"@ + opt(o.dst_high, ".hi"@) + " "@ + src_text(o.a) + " "@ + dec_text(o.shift as nat) + " "@ + src_text(o.b) + (if o.dst_high { " "@ + src_text(o.a_high) } else { Seq::empty() })
}

fn fmt_lea(o: &OpLea, s: &mut String)
    ensures
        final(s)@ == old(s)@ + lea_text(o),
{
    s.append("lea");
    push_opt(s, o.dst_high, ".hi");
    s.append(" ");
    o.a.push_text(s);
    s.append(" ");
    push_dec(s, o.shift as u32);
    s.append(" ");
    o.b.push_text(s);
    if o.dst_high {
        s.append(" ");
        o.a_high.push_text(s);
    }
    assert(final(s)@ =~= old(s)@ + lea_text(o));
}

pub open spec fn leax_text(o: &OpLeaX) -> Seq<char> {
    "lea.x"@ + opt(o.dst_high, ".hi"@) + " "@ + src_text(o.a) + " "@ + dec_text(o.shift as nat) + " "@ + src_text(o.b) + (if o.dst_high { " "@ + src_text(o.a_high) } else { Seq::empty() }) + " "@ + src_text(o.carry)
}

fn fmt_leax(o: &OpLeaX, s: &mut String)
    ensures
        final(s)@ == old(s)@ + leax_text(o),
{
    s.append("lea.x");
    assert(s@ =~= old(s)@ + "lea.x"@);
    push_opt(s, o.dst_high, ".hi");
    assert(s@ =~= old(s)@ + "lea.x"@ + opt(o.dst_high, ".hi"@));
    s.append(" ");
    assert(s@ =~= old(s)@ + "lea.x"@ + opt(o.dst_high, ".hi"@) + " "@);
    o.a.push_text(s);
    assert(s@ =~= old(s)@ + "lea.x"@ + opt(o.dst_high, ".hi"@) + " "@ + src_text(o.a));
    s.append(" ");
    assert(s@ =~= old(s)@ + "lea.x"@ + opt(o.dst_high, ".hi"@) + " "@ + src_text(o.a) + " "@);
    push_dec(s, o.shift as u32);
    assert(s@ =~= old(s)@ + "lea.x"@ + opt(o.dst_high, ".hi"@) + " "@ + src_text(o.a) + " "@ + dec_text(o.shift as nat));
    s.append(" ");
    assert(s@ =~= old(s)@ + "lea.x"@ + opt(o.dst_high, ".hi"@) + " "@ + src_text(o.a) + " "@ + dec_text(o.shift as nat) + " "@);
    o.b.push_text(s);
    assert(s@ =~= old(s)@ + "lea.x"@ + opt(o.dst_high, ".hi"@) + " "@ + src_text(o.a) + " "@ + dec_text(o.shift as nat) + " "@ + src_text(o.b));
    if o.dst_high {
        s.append(" ");
        o.a_high.push_text(s);
    }
    assert(s@ =~= old(s)@ + "lea.x"@ + opt(o.dst_high, ".hi"@) + " "@ + src_text(o.a) + " "@ + dec_text(o.shift as nat) + " "@ + src_text(o.b) + (if o.dst_high { " "@ + src_text(o.a_high) } else { Seq::empty() }));
    s.append(" ");
    assert(s@ =~= old(s)@ + "lea.x"@ + opt(o.dst_high, ".hi"@) + " "@ + src_text(o.a) + " "@ + dec_text(o.shift as nat) + " "@ + src_text(o.b) + (if o.dst_high { " "@ + src_text(o.a_high) } else { Seq::empty() }) + " "@);
    o.carry.push_text(s);
    assert(s@ =~= old(s)@ + "lea.x"@ + opt(o.dst_high, ".hi"@) + " "@ + src_text(o.a) + " "@ + dec_text(o.shift as nat) + " "@ + src_text(o.b) + (if o.dst_high { " "@ + src_text(o.a_high) } else { Seq::empty() }) + " "@ + src_text(o.carry));
    assert(final(s)@ =~= old(s)@ + leax_text(o));
}

pub open spec fn lop2_text(o: &OpLop2) -> Seq<char> {
    "lop2."@ + o.op.spec_name() + " "@ + src_text(o.srcs[0]) + " "@ + src_text(o.srcs[1])
}

fn fmt_lop2(o: &OpLop2, s: &mut String)
    ensures
        final(s)@ == old(s)@ + lop2_text(o),
{
    s.append("lop2.");
    s.append(o.op.name());
    s.append(" ");
    o.srcs[0].push_text(s);
    s.append(" ");
    o.srcs[1].push_text(s);
    assert(final(s)@ =~= old(s)@ + lop2_text(o));
}

pub open spec fn lop3_text(o: &OpLop3) -> Seq<char> {
    "lop3.LUT["@ + hex_text(o.op.lut as nat) + "] "@ + src_text(o.srcs[0]) + " "@ + src_text(o.srcs[1]) + " "@ + src_text(o.srcs[2])
}

fn fmt_lop3(o: &OpLop3, s: &mut String)
    ensures
        final(s)@ == old(s)@ + lop3_text(o),
{
    s.append("lop3.LUT[");
    push_hex(s, o.op.lut as u32);
    s.append("] ");
    o.srcs[0].push_text(s);
    s.append(" ");
    o.srcs[1].push_text(s);
    s.append(" ");
    o.srcs[2].push_text(s);
    assert(final(s)@ =~= old(s)@ + lop3_text(o));
}

pub open spec fn shf_text(o: &OpShf) -> Seq<char> {
    "shf"@ + (if o.right { ".r"@ } else { ".l"@ }) + opt(o.wrap, ".w"@) + o.data_type.spec_suffix() + opt(o.dst_high, ".hi"@)
        + " "@ + src_text(o.low) + " "@ + src_text(o.high) + " "@ + src_text(o.shift)
}

fn fmt_shf(o: &OpShf, s: &mut String)
    ensures
        final(s)@ == old(s)@ + shf_text(o),
{
    let ghost t0 = s@;
    s.append("shf");
    if o.right {
        s.append(".r");
    } else {
        s.append(".l");
    }
    push_opt(s, o.wrap, ".w");
    s.append(o.data_type.suffix());
    push_opt(s, o.dst_high, ".hi");
    let ghost t1 = s@;
    assert(t1 =~= t0 + ("shf"@ + (if o.right { ".r"@ } else { ".l"@ }) + opt(o.wrap, ".w"@) + o.data_type.spec_suffix()
        + opt(o.dst_high, ".hi"@)));
    s.append(" ");
    o.low.push_text(s);
    s.append(" ");
    o.high.push_text(s);
    s.append(" ");
    o.shift.push_text(s);
    assert(final(s)@ =~= old(s)@ + shf_text(o));
}

pub open spec fn shl_text(o: &OpShl) -> Seq<char> {
    "shl"@ + opt(o.wrap, ".w"@) + " "@ + src_text(o.src) + " "@ + src_text(o.shift)
}

fn fmt_shl(o: &OpShl, s: &mut String)
    ensures
        final(s)@ == old(s)@ + shl_text(o),
{
    s.append("shl");
    push_opt(s, o.wrap, ".w");
    s.append(" ");
    o.src.push_text(s);
    s.append(" ");
    o.shift.push_text(s);
    assert(final(s)@ =~= old(s)@ + shl_text(o));
}

pub open spec fn shr_text(o: &OpShr) -> Seq<char> {
    "shr"@ + opt(o.wrap, ".w"@) + opt(!o.signed, ".u32"@) + " "@ + src_text(o.src) + " "@ + src_text(o.shift)
}

fn fmt_shr(o: &OpShr, s: &mut String)
    ensures
        final(s)@ == old(s)@ + shr_text(o),
{
    s.append("shr");
    push_opt(s, o.wrap, ".w");
    push_opt(s, !o.signed, ".u32");
    s.append(" ");
    o.src.push_text(s);
    s.append(" ");
    o.shift.push_text(s);
    assert(final(s)@ =~= old(s)@ + shr_text(o));
}

pub open spec fn prmt_text(o: &OpPrmt) -> Seq<char> {
    "prmt"@ + o.mode.spec_suffix() + " "@ + src_text(o.srcs[0]) + " ["@ + src_text(o.sel) + "] "@ + src_text(o.srcs[1])
}

fn fmt_prmt(o: &OpPrmt, s: &mut String)
    ensures
        final(s)@ == old(s)@ + prmt_text(o),
{
    s.append("prmt");
    s.append(o.mode.suffix());
    s.append(" ");
    o.srcs[0].push_text(s);
    s.append(" [");
    o.sel.push_text(s);
    s.append("] ");
    o.srcs[1].push_text(s);
    assert(final(s)@ =~= old(s)@ + prmt_text(o));
}

pub open spec fn psetp_text(o: &OpPSetP) -> Seq<char> {
    "psetp"@ + o.ops[0].spec_suffix() + o.ops[1].spec_suffix() + " "@ + src_text(o.srcs[0]) + " "@ + src_text(o.srcs[1]) + " "@ + src_text(o.srcs[2])
}

fn fmt_psetp(o: &OpPSetP, s: &mut String)
    ensures
        final(s)@ == old(s)@ + psetp_text(o),
{
    s.append("psetp");
    s.append(o.ops[0].suffix());
    s.append(o.ops[1].suffix());
    s.append(" ");
    o.srcs[0].push_text(s);
    s.append(" ");
    o.srcs[1].push_text(s);
    s.append(" ");
    o.srcs[2].push_text(s);
    assert(final(s)@ =~= old(s)@ + psetp_text(o));
}

pub open spec fn popc_text(o: &OpPopC) -> Seq<char> {
    "popc "@ + src_text(o.src)
}

fn fmt_popc(o: &OpPopC, s: &mut String)
    ensures
        final(s)@ == old(s)@ + popc_text(o),
{
    s.append("popc ");
    o.src.push_text(s);
    assert(final(s)@ =~= old(s)@ + popc_text(o));
}

pub open spec fn suclamp_text(o: &OpSuClamp) -> Seq<char> {
    "suclamp"@ + o.mode.spec_suffix() + o.round.spec_suffix() + opt(!o.is_s32, ".u32"@) + opt(!o.is_2d, ".1d"@) + " "@ + src_text(o.coords) + " "@ + src_text(o.params) + " "@ + hex_text((o.imm as u8) as nat)
}

fn fmt_suclamp(o: &OpSuClamp, s: &mut String)
    ensures
        final(s)@ == old(s)@ + suclamp_text(o),
{
    s.append("suclamp");
    s.append(o.mode.suffix());
    s.append(o.round.suffix());
    push_opt(s, !o.is_s32, ".u32");
    push_opt(s, !o.is_2d, ".1d");
    s.append(" ");
    o.coords.push_text(s);
    s.append(" ");
    o.params.push_text(s);
    s.append(" ");
    push_hex(s, (o.imm as u8) as u32);
    assert(final(s)@ =~= old(s)@ + suclamp_text(o));
}

pub open spec fn subfm_text(o: &OpSuBfm) -> Seq<char> {
    "subfm"@ + opt(o.is_3d, ".3d"@) + " "@ + src_text(o.srcs[0]) + " "@ + src_text(o.srcs[1]) + " "@ + src_text(o.srcs[2])
}

fn fmt_subfm(o: &OpSuBfm, s: &mut String)
    ensures
        final(s)@ == old(s)@ + subfm_text(o),
{
    s.append("subfm");
    push_opt(s, o.is_3d, ".3d");
    s.append(" ");
    o.srcs[0].push_text(s);
    s.append(" ");
    o.srcs[1].push_text(s);
    s.append(" ");
    o.srcs[2].push_text(s);
    assert(final(s)@ =~= old(s)@ + subfm_text(o));
}

pub open spec fn sueau_text(o: &OpSuEau) -> Seq<char> {
    "sueau "@ + src_text(o.off) + " "@ + src_text(o.bit_field) + " "@ + src_text(o.addr)
}

fn fmt_sueau(o: &OpSuEau, s: &mut String)
    ensures
        final(s)@ == old(s)@ + sueau_text(o),
{
    s.append("sueau ");
    o.off.push_text(s);
    s.append(" ");
    o.bit_field.push_text(s);
    s.append(" ");
    o.addr.push_text(s);
    assert(final(s)@ =~= old(s)@ + sueau_text(o));
}

pub open spec fn imadsp_text(o: &OpIMadSp) -> Seq<char> {
    "imadsp"@ + o.mode.spec_suffix() + " "@ + src_text(o.srcs[0]) + " "@ + src_text(o.srcs[1]) + " "@ + src_text(o.srcs[2])
}

fn fmt_imadsp(o: &OpIMadSp, s: &mut String)
    ensures
        final(s)@ == old(s)@ + imadsp_text(o),
{
    s.append("imadsp");
    o.mode.push_suffix(s);
    s.append(" ");
    o.srcs[0].push_text(s);
    s.append(" ");
    o.srcs[1].push_text(s);
    s.append(" ");
    o.srcs[2].push_text(s);
    assert(final(s)@ =~= old(s)@ + imadsp_text(o));
}

pub open spec fn bra_text(o: &OpBra) -> Seq<char> {
    "bra L"@ + dec_text(o.target.idx as nat)
}

fn fmt_bra(o: &OpBra, s: &mut String)
    ensures
        final(s)@ == old(s)@ + bra_text(o),
{
    s.append("bra L");
    push_dec(s, o.target.idx as u32);
    assert(final(s)@ =~= old(s)@ + bra_text(o));
}

pub open spec fn sync_text(o: &OpSync) -> Seq<char> {
    "sync L"@ + dec_text(o.target.idx as nat)
}

fn fmt_sync(o: &OpSync, s: &mut String)
    ensures
        final(s)@ == old(s)@ + sync_text(o),
{
    s.append("sync L");
    push_dec(s, o.target.idx as u32);
    assert(final(s)@ =~= old(s)@ + sync_text(o));
}

pub open spec fn brk_text(o: &OpBrk) -> Seq<char> {
    "brk L"@ + dec_text(o.target.idx as nat)
}

fn fmt_brk(o: &OpBrk, s: &mut String)
    ensures
        final(s)@ == old(s)@ + brk_text(o),
{
    s.append("brk L");
    push_dec(s, o.target.idx as u32);
    assert(final(s)@ =~= old(s)@ + brk_text(o));
}

pub open spec fn cont_text(o: &OpCont) -> Seq<char> {
    "cont L"@ + dec_text(o.target.idx as nat)
}

fn fmt_cont(o: &OpCont, s: &mut String)
    ensures
        final(s)@ == old(s)@ + cont_text(o),
{
    s.append("cont L");
    push_dec(s, o.target.idx as u32);
    assert(final(s)@ =~= old(s)@ + cont_text(o));
}

impl MemAddrType {
    pub open spec fn spec_suffix(&self) -> Seq<char> {
        match *self {
            MemAddrType::A32 => ".a32"@,
            MemAddrType::A64 => ".a64"@,
        }
    }

    pub fn suffix(&self) -> (r: &'static str)
        ensures
            r@ == self.spec_suffix(),
    {
        match self {
            MemAddrType::A32 => ".a32",
            MemAddrType::A64 => ".a64",
        }
    }
}

impl MemType {
    pub open spec fn spec_suffix(&self) -> Seq<char> {
        match *self {
            MemType::U8 => ".u8"@,
            MemType::I8 => ".i8"@,
            MemType::U16 => ".u16"@,
            MemType::I16 => ".i16"@,
            MemType::B32 => ".b32"@,
            MemType::B64 => ".b64"@,
            MemType::B128 => ".b128"@,
        }
    }

    pub fn suffix(&self) -> (r: &'static str)
        ensures
            r@ == self.spec_suffix(),
    {
        match self {
            MemType::U8 => ".u8",
            MemType::I8 => ".i8",
            MemType::U16 => ".u16",
            MemType::I16 => ".i16",
            MemType::B32 => ".b32",
            MemType::B64 => ".b64",
            MemType::B128 => ".b128",
        }
    }
}

impl MemScope {
    pub open spec fn spec_suffix(&self) -> Seq<char> {
        match *self {
            MemScope::CTA => ".cta"@,
            MemScope::GPU => ".gpu"@,
            MemScope::System => ".sys"@,
        }
    }

    pub fn suffix(&self) -> (r: &'static str)
        ensures
            r@ == self.spec_suffix(),
    {
        match self {
            MemScope::CTA => ".cta",
            MemScope::GPU => ".gpu",
            MemScope::System => ".sys",
        }
    }
}

impl MemOrder {
    pub open spec fn spec_suffix(&self) -> Seq<char> {
        match *self {
            MemOrder::Constant => ".constant"@,
            MemOrder::Weak => ".weak"@,
            MemOrder::Strong(scope) => ".strong"@ + scope.spec_suffix(),
        }
    }

    pub fn push_suffix(&self, s: &mut String)
        ensures
            final(s)@ == old(s)@ + self.spec_suffix(),
    {
        match self {
            MemOrder::Constant => s.append(".constant"),
            MemOrder::Weak => s.append(".weak"),
            MemOrder::Strong(scope) => {
                s.append(".strong");
                s.append(scope.suffix());
            },
        }
        assert(final(s)@ =~= old(s)@ + self.spec_suffix());
    }
}

impl MemSpace {
    pub open spec fn spec_suffix(&self) -> Seq<char> {
        match *self {
            MemSpace::Global(t) => ".global"@ + t.spec_suffix(),
            MemSpace::Local => ".local"@,
            MemSpace::Shared => ".shared"@,
        }
    }

    pub fn push_suffix(&self, s: &mut String)
        ensures
            final(s)@ == old(s)@ + self.spec_suffix(),
    {
        match self {
            MemSpace::Global(t) => {
                s.append(".global");
                s.append(t.suffix());
            },
            MemSpace::Local => s.append(".local"),
            MemSpace::Shared => s.append(".shared"),
        }
        assert(final(s)@ =~= old(s)@ + self.spec_suffix());
    }
}

impl MemEvictionPriority {
    pub open spec fn spec_suffix(&self) -> Seq<char> {
        match *self {
            MemEvictionPriority::First => ".ef"@,
            MemEvictionPriority::Normal => Seq::empty(),
            MemEvictionPriority::Last => ".el"@,
            MemEvictionPriority::LastUse => ".lu"@,
            MemEvictionPriority::Unchanged => ".eu"@,
            MemEvictionPriority::NoAllocate => ".na"@,
        }
    }

    pub fn suffix(&self) -> (r: &'static str)
        ensures
            r@ == self.spec_suffix(),
    {
        proof {
            reveal_strlit("");
        }
        match self {
            MemEvictionPriority::First => ".ef",
            MemEvictionPriority::Normal => "",
            MemEvictionPriority::Last => ".el",
            MemEvictionPriority::LastUse => ".lu",
            MemEvictionPriority::Unchanged => ".eu",
            MemEvictionPriority::NoAllocate => ".na",
        }
    }
}

impl AtomType {
    pub open spec fn spec_suffix(&self) -> Seq<char> {
        match *self {
            AtomType::F16x2 => ".f16x2"@,
            AtomType::U32 => ".u32"@,
            AtomType::I32 => ".i32"@,
            AtomType::F32 => ".f32"@,
            AtomType::U64 => ".u64"@,
            AtomType::I64 => ".i64"@,
            AtomType::F64 => ".f64"@,
        }
    }

    pub fn suffix(&self) -> (r: &'static str)
        ensures
            r@ == self.spec_suffix(),
    {
        match self {
            AtomType::F16x2 => ".f16x2",
            AtomType::U32 => ".u32",
            AtomType::I32 => ".i32",
            AtomType::F32 => ".f32",
            AtomType::U64 => ".u64",
            AtomType::I64 => ".i64",
            AtomType::F64 => ".f64",
        }
    }
}

impl AtomOp {
    pub open spec fn spec_suffix(&self) -> Seq<char> {
        match *self {
            AtomOp::Add => ".add"@,
            AtomOp::Min => ".min"@,
            AtomOp::Max => ".max"@,
            AtomOp::Inc => ".inc"@,
            AtomOp::Dec => ".dec"@,
            AtomOp::And => ".and"@,
            AtomOp::Or => ".or"@,
            AtomOp::Xor => ".xor"@,
            AtomOp::Exch => ".exch"@,
            AtomOp::CmpExch(AtomCmpSrc::Separate) => ".cmpexch"@,
            AtomOp::CmpExch(AtomCmpSrc::Packed) => ".cmpexch.packed"@,
        }
    }

    pub fn suffix(&self) -> (r: &'static str)
        ensures
            r@ == self.spec_suffix(),
    {
        match self {
            AtomOp::Add => ".add",
            AtomOp::Min => ".min",
            AtomOp::Max => ".max",
            AtomOp::Inc => ".inc",
            AtomOp::Dec => ".dec",
            AtomOp::And => ".and",
            AtomOp::Or => ".or",
            AtomOp::Xor => ".xor",
            AtomOp::Exch => ".exch",
            AtomOp::CmpExch(AtomCmpSrc::Separate) => ".cmpexch",
            AtomOp::CmpExch(AtomCmpSrc::Packed) => ".cmpexch.packed",
        }
    }
}

/// The access as text: space, order, eviction hint and type.
pub open spec fn mem_access_text(a: MemAccess) -> Seq<char> {
    a.space.spec_suffix() + a.order.spec_suffix() + a.eviction_priority.spec_suffix() + a.mem_type.spec_suffix()
}

fn push_mem_access(s: &mut String, a: &MemAccess)
    ensures
        final(s)@ == old(s)@ + mem_access_text(*a),
{
    a.space.push_suffix(s);
    a.order.push_suffix(s);
    s.append(a.eviction_priority.suffix());
    s.append(a.mem_type.suffix());
    assert(final(s)@ =~= old(s)@ + mem_access_text(*a));
}

/// A positive address offset as text: `+` and the offset in hexadecimal.
pub open spec fn offset_text(offset: i32) -> Seq<char> {
    opt(offset > 0, "+"@ + hex_text(offset as nat))
}

fn push_offset(s: &mut String, offset: i32)
    ensures
        final(s)@ == old(s)@ + offset_text(offset),
{
    reveal(opt);
    if offset > 0 {
        s.append("+");
        push_hex(s, offset as u32);
        assert(final(s)@ =~= old(s)@ + ("+"@ + hex_text(offset as nat)));
    } else {
        assert(s@ =~= s@ + Seq::<char>::empty());
    }
}

pub open spec fn ld_text(o: &OpLd) -> Seq<char> {
    "ld"@ + mem_access_text(o.access) + " ["@ + src_text(o.addr) + offset_text(o.offset) + "]"@
}

fn fmt_ld(o: &OpLd, s: &mut String)
    ensures
        final(s)@ == old(s)@ + ld_text(o),
{
    s.append("ld");
    push_mem_access(s, &o.access);
    s.append(" [");
    o.addr.push_text(s);
    push_offset(s, o.offset);
    s.append("]");
    assert(final(s)@ =~= old(s)@ + ld_text(o));
}

pub open spec fn st_text(o: &OpSt) -> Seq<char> {
    "st"@ + mem_access_text(o.access) + " ["@ + src_text(o.addr) + offset_text(o.offset) + "] "@ + src_text(o.data)
}

fn fmt_st(o: &OpSt, s: &mut String)
    ensures
        final(s)@ == old(s)@ + st_text(o),
{
    s.append("st");
    push_mem_access(s, &o.access);
    s.append(" [");
    o.addr.push_text(s);
    push_offset(s, o.offset);
    s.append("] ");
    o.data.push_text(s);
    assert(final(s)@ =~= old(s)@ + st_text(o));
}

/// Whether a source is a zero literal, also under absolute value.
pub open spec fn src_is_zero(s: Src) -> bool {
    spec_imm(s.src_ref) == Some(0u32) && (s.src_mod is Plain || s.src_mod is FAbs)
}

/// The address of an atomic: the address source unless it is zero, then
/// the positive offset (after `+` when there is an address source).
pub open spec fn atom_addr_text(o: &OpAtom) -> Seq<char> {
    opt(!src_is_zero(o.addr), src_text(o.addr))
        + opt(o.addr_offset > 0, opt(!src_is_zero(o.addr), "+"@) + hex_text(o.addr_offset as nat))
}

pub open spec fn atom_text(o: &OpAtom) -> Seq<char> {
    "atom"@ + o.atom_op.spec_suffix() + o.atom_type.spec_suffix() + o.mem_space.spec_suffix()
        + o.mem_order.spec_suffix() + o.mem_eviction_priority.spec_suffix() + " ["@ + atom_addr_text(o) + "]"@
        + opt(o.atom_op == AtomOp::CmpExch(AtomCmpSrc::Separate), " "@ + src_text(o.cmpr)) + " "@ + src_text(o.data)
}

fn push_atom_addr(s: &mut String, o: &OpAtom)
    ensures
        final(s)@ == old(s)@ + atom_addr_text(o),
{
    reveal(opt);
    let zero = o.addr.is_zero();
    if !zero {
        o.addr.push_text(s);
    }
    let ghost t = s@;
    assert(t =~= old(s)@ + opt(!src_is_zero(o.addr), src_text(o.addr)));
    if o.addr_offset > 0 {
        if !zero {
            s.append("+");
        }
        push_hex(s, o.addr_offset as u32);
        assert(s@ =~= t + (opt(!src_is_zero(o.addr), "+"@) + hex_text(o.addr_offset as nat)));
    } else {
        assert(s@ =~= t + Seq::<char>::empty());
    }
    assert(final(s)@ =~= old(s)@ + atom_addr_text(o));
}

fn fmt_atom(o: &OpAtom, s: &mut String)
    ensures
        final(s)@ == old(s)@ + atom_text(o),
{
    let ghost t0 = s@;
    s.append("atom");
    s.append(o.atom_op.suffix());
    s.append(o.atom_type.suffix());
    o.mem_space.push_suffix(s);
    o.mem_order.push_suffix(s);
    s.append(o.mem_eviction_priority.suffix());
    let ghost t1 = s@;
    assert(t1 =~= t0 + ("atom"@ + o.atom_op.spec_suffix() + o.atom_type.spec_suffix() + o.mem_space.spec_suffix()
        + o.mem_order.spec_suffix() + o.mem_eviction_priority.spec_suffix()));
    s.append(" [");
    push_atom_addr(s, o);
    s.append("]");
    let is_separate = match o.atom_op {
        AtomOp::CmpExch(AtomCmpSrc::Separate) => true,
        _ => false,
    };
    push_opt_src(s, is_separate, &o.cmpr);
    s.append(" ");
    o.data.push_text(s);
    assert(final(s)@ =~= old(s)@ + atom_text(o));
}

pub open spec fn imad_text(o: &OpIMad) -> Seq<char> {
    "imad "@ + src_text(o.srcs[0]) + " "@ + src_text(o.srcs[1]) + " "@ + src_text(o.srcs[2])
}

fn fmt_imad(o: &OpIMad, s: &mut String)
    ensures
        final(s)@ == old(s)@ + imad_text(o),
{
    s.append("imad ");
    o.srcs[0].push_text(s);
    s.append(" ");
    o.srcs[1].push_text(s);
    s.append(" ");
    o.srcs[2].push_text(s);
    assert(final(s)@ =~= old(s)@ + imad_text(o));
}

pub open spec fn imad64_text(o: &OpIMad64) -> Seq<char> {
    "imad64 "@ + src_text(o.srcs[0]) + " "@ + src_text(o.srcs[1]) + " "@ + src_text(o.srcs[2])
}

fn fmt_imad64(o: &OpIMad64, s: &mut String)
    ensures
        final(s)@ == old(s)@ + imad64_text(o),
{
    s.append("imad64 ");
    o.srcs[0].push_text(s);
    s.append(" ");
    o.srcs[1].push_text(s);
    s.append(" ");
    o.srcs[2].push_text(s);
    assert(final(s)@ =~= old(s)@ + imad64_text(o));
}

/// `.s32` for a signed source, `.u32` for an unsigned one.
pub open spec fn sign_suffix(signed: bool) -> Seq<char> {
    if signed { ".s32"@ } else { ".u32"@ }
}

fn push_sign_suffix(s: &mut String, signed: bool)
    ensures
        final(s)@ == old(s)@ + sign_suffix(signed),
{
    if signed {
        s.append(".s32");
    } else {
        s.append(".u32");
    }
}

pub open spec fn imul_text(o: &OpIMul) -> Seq<char> {
    "imul"@ + opt(o.high, ".hi"@) + sign_suffix(o.signed[0]) + sign_suffix(o.signed[1]) + " "@ + src_text(o.srcs[0])
        + " "@ + src_text(o.srcs[1])
}

fn fmt_imul(o: &OpIMul, s: &mut String)
    ensures
        final(s)@ == old(s)@ + imul_text(o),
{
    s.append("imul");
    push_opt(s, o.high, ".hi");
    push_sign_suffix(s, o.signed[0]);
    push_sign_suffix(s, o.signed[1]);
    s.append(" ");
    o.srcs[0].push_text(s);
    s.append(" ");
    o.srcs[1].push_text(s);
    assert(final(s)@ =~= old(s)@ + imul_text(o));
}

/// A move writing all four lanes of each quad prints no lane mask.
pub open spec fn mov_text(o: &OpMov) -> Seq<char> {
    if o.quad_lanes == 0xf {
        "mov "@ + src_text(o.src)
    } else {
        "mov["@ + hex_text(o.quad_lanes as nat) + "] "@ + src_text(o.src)
    }
}

fn fmt_mov(o: &OpMov, s: &mut String)
    ensures
        final(s)@ == old(s)@ + mov_text(o),
{
    if o.quad_lanes == 0xf {
        s.append("mov ");
    } else {
        s.append("mov[");
        push_hex(s, o.quad_lanes as u32);
        s.append("] ");
    }
    o.src.push_text(s);
    assert(final(s)@ =~= old(s)@ + mov_text(o));
}

pub open spec fn sel_text(o: &OpSel) -> Seq<char> {
    "sel "@ + src_text(o.cond) + " "@ + src_text(o.srcs[0]) + " "@ + src_text(o.srcs[1])
}

fn fmt_sel(o: &OpSel, s: &mut String)
    ensures
        final(s)@ == old(s)@ + sel_text(o),
{
    s.append("sel ");
    o.cond.push_text(s);
    s.append(" ");
    o.srcs[0].push_text(s);
    s.append(" ");
    o.srcs[1].push_text(s);
    assert(final(s)@ =~= old(s)@ + sel_text(o));
}

pub open spec fn bmsk_text(o: &OpBMsk) -> Seq<char> {
    "bmsk"@ + (if o.wrap { ".wrap"@ } else { ".clamp"@ }) + " "@ + src_text(o.pos) + " "@ + src_text(o.width)
}

fn fmt_bmsk(o: &OpBMsk, s: &mut String)
    ensures
        final(s)@ == old(s)@ + bmsk_text(o),
{
    s.append("bmsk");
    if o.wrap {
        s.append(".wrap");
    } else {
        s.append(".clamp");
    }
    s.append(" ");
    o.pos.push_text(s);
    s.append(" ");
    o.width.push_text(s);
    assert(final(s)@ =~= old(s)@ + bmsk_text(o));
}

pub open spec fn brev_text(o: &OpBRev) -> Seq<char> {
    "brev "@ + src_text(o.src)
}

fn fmt_brev(o: &OpBRev, s: &mut String)
    ensures
        final(s)@ == old(s)@ + brev_text(o),
{
    s.append("brev ");
    o.src.push_text(s);
    assert(final(s)@ =~= old(s)@ + brev_text(o));
}

pub open spec fn bfe_text(o: &OpBfe) -> Seq<char> {
    "bfe"@ + opt(o.signed, ".s"@) + opt(o.reverse, ".rev"@) + " "@ + src_text(o.base) + " "@ + src_text(o.range)
}

fn fmt_bfe(o: &OpBfe, s: &mut String)
    ensures
        final(s)@ == old(s)@ + bfe_text(o),
{
    s.append("bfe");
    push_opt(s, o.signed, ".s");
    push_opt(s, o.reverse, ".rev");
    s.append(" ");
    o.base.push_text(s);
    s.append(" ");
    o.range.push_text(s);
    assert(final(s)@ =~= old(s)@ + bfe_text(o));
}

pub open spec fn fadd_text(o: &OpFAdd) -> Seq<char> {
    "fadd"@ + opt(o.saturate, ".sat"@) + rnd_text(o.rnd_mode) + opt(o.ftz, ".ftz"@) + " "@ + src_text(o.srcs[0]) + " "@ + src_text(o.srcs[1])
}

fn fmt_fadd(o: &OpFAdd, s: &mut String)
    ensures
        final(s)@ == old(s)@ + fadd_text(o),
{
    s.append("fadd");
    push_opt(s, o.saturate, ".sat");
    push_rnd(s, o.rnd_mode);
    push_opt(s, o.ftz, ".ftz");
    s.append(" ");
    o.srcs[0].push_text(s);
    s.append(" ");
    o.srcs[1].push_text(s);
    assert(final(s)@ =~= old(s)@ + fadd_text(o));
}

pub open spec fn ffma_text(o: &OpFFma) -> Seq<char> {
    "ffma"@ + opt(o.saturate, ".sat"@) + rnd_text(o.rnd_mode) + dnz_ftz_text(o.dnz, o.ftz) + " "@ + src_text(o.srcs[0]) + " "@ + src_text(o.srcs[1]) + " "@ + src_text(o.srcs[2])
}

fn fmt_ffma(o: &OpFFma, s: &mut String)
    ensures
        final(s)@ == old(s)@ + ffma_text(o),
{
    s.append("ffma");
    push_opt(s, o.saturate, ".sat");
    push_rnd(s, o.rnd_mode);
    push_dnz_ftz(s, o.dnz, o.ftz);
    s.append(" ");
    o.srcs[0].push_text(s);
    s.append(" ");
    o.srcs[1].push_text(s);
    s.append(" ");
    o.srcs[2].push_text(s);
    assert(final(s)@ =~= old(s)@ + ffma_text(o));
}

pub open spec fn fmnmx_text(o: &OpFMnMx) -> Seq<char> {
    "fmnmx"@ + opt(o.ftz, ".ftz"@) + " "@ + src_text(o.srcs[0]) + " "@ + src_text(o.srcs[1]) + " "@ + src_text(o.min)
}

fn fmt_fmnmx(o: &OpFMnMx, s: &mut String)
    ensures
        final(s)@ == old(s)@ + fmnmx_text(o),
{
    s.append("fmnmx");
    push_opt(s, o.ftz, ".ftz");
    s.append(" ");
    o.srcs[0].push_text(s);
    s.append(" ");
    o.srcs[1].push_text(s);
    s.append(" ");
    o.min.push_text(s);
    assert(final(s)@ =~= old(s)@ + fmnmx_text(o));
}

pub open spec fn fmul_text(o: &OpFMul) -> Seq<char> {
    "fmul"@ + opt(o.saturate, ".sat"@) + rnd_text(o.rnd_mode) + dnz_ftz_text(o.dnz, o.ftz) + " "@ + src_text(o.srcs[0]) + " "@ + src_text(o.srcs[1])
}

fn fmt_fmul(o: &OpFMul, s: &mut String)
    ensures
        final(s)@ == old(s)@ + fmul_text(o),
{
    s.append("fmul");
    push_opt(s, o.saturate, ".sat");
    push_rnd(s, o.rnd_mode);
    push_dnz_ftz(s, o.dnz, o.ftz);
    s.append(" ");
    o.srcs[0].push_text(s);
    s.append(" ");
    o.srcs[1].push_text(s);
    assert(final(s)@ =~= old(s)@ + fmul_text(o));
}

pub open spec fn fset_text(o: &OpFSet) -> Seq<char> {
    "fset"@ + o.cmp_op.spec_suffix() + opt(o.ftz, ".ftz"@) + " "@ + src_text(o.srcs[0]) + " "@ + src_text(o.srcs[1])
}

fn fmt_fset(o: &OpFSet, s: &mut String)
    ensures
        final(s)@ == old(s)@ + fset_text(o),
{
    s.append("fset");
    s.append(o.cmp_op.suffix());
    push_opt(s, o.ftz, ".ftz");
    s.append(" ");
    o.srcs[0].push_text(s);
    s.append(" ");
    o.srcs[1].push_text(s);
    assert(final(s)@ =~= old(s)@ + fset_text(o));
}

pub open spec fn fsetp_text(o: &OpFSetP) -> Seq<char> {
    "fsetp"@ + o.cmp_op.spec_suffix() + opt(o.ftz, ".ftz"@) + opt(!trivial_accum(o.set_op, o.accum), o.set_op.spec_suffix()) + " "@ + src_text(o.srcs[0]) + " "@ + src_text(o.srcs[1]) + opt(!trivial_accum(o.set_op, o.accum), " "@ + src_text(o.accum))
}

fn fmt_fsetp(o: &OpFSetP, s: &mut String)
    ensures
        final(s)@ == old(s)@ + fsetp_text(o),
{
    let trivial = accum_is_trivial(o.set_op, &o.accum);
    s.append("fsetp");
    s.append(o.cmp_op.suffix());
    push_opt(s, o.ftz, ".ftz");
    push_opt(s, !trivial, o.set_op.suffix());
    s.append(" ");
    o.srcs[0].push_text(s);
    s.append(" ");
    o.srcs[1].push_text(s);
    push_opt_src(s, !trivial, &o.accum);
    assert(final(s)@ =~= old(s)@ + fsetp_text(o));
}

pub open spec fn dadd_text(o: &OpDAdd) -> Seq<char> {
    "dadd"@ + rnd_text(o.rnd_mode) + " "@ + src_text(o.srcs[0]) + " "@ + src_text(o.srcs[1])
}

fn fmt_dadd(o: &OpDAdd, s: &mut String)
    ensures
        final(s)@ == old(s)@ + dadd_text(o),
{
    s.append("dadd");
    push_rnd(s, o.rnd_mode);
    s.append(" ");
    o.srcs[0].push_text(s);
    s.append(" ");
    o.srcs[1].push_text(s);
    assert(final(s)@ =~= old(s)@ + dadd_text(o));
}

pub open spec fn dmul_text(o: &OpDMul) -> Seq<char> {
    "dmul"@ + rnd_text(o.rnd_mode) + " "@ + src_text(o.srcs[0]) + " "@ + src_text(o.srcs[1])
}

fn fmt_dmul(o: &OpDMul, s: &mut String)
    ensures
        final(s)@ == old(s)@ + dmul_text(o),
{
    s.append("dmul");
    push_rnd(s, o.rnd_mode);
    s.append(" ");
    o.srcs[0].push_text(s);
    s.append(" ");
    o.srcs[1].push_text(s);
    assert(final(s)@ =~= old(s)@ + dmul_text(o));
}

pub open spec fn dfma_text(o: &OpDFma) -> Seq<char> {
    "dfma"@ + rnd_text(o.rnd_mode) + " "@ + src_text(o.srcs[0]) + " "@ + src_text(o.srcs[1]) + " "@ + src_text(o.srcs[2])
}

fn fmt_dfma(o: &OpDFma, s: &mut String)
    ensures
        final(s)@ == old(s)@ + dfma_text(o),
{
    s.append("dfma");
    push_rnd(s, o.rnd_mode);
    s.append(" ");
    o.srcs[0].push_text(s);
    s.append(" ");
    o.srcs[1].push_text(s);
    s.append(" ");
    o.srcs[2].push_text(s);
    assert(final(s)@ =~= old(s)@ + dfma_text(o));
}

pub open spec fn dmnmx_text(o: &OpDMnMx) -> Seq<char> {
    "dmnmx "@ + src_text(o.srcs[0]) + " "@ + src_text(o.srcs[1]) + " "@ + src_text(o.min)
}

fn fmt_dmnmx(o: &OpDMnMx, s: &mut String)
    ensures
        final(s)@ == old(s)@ + dmnmx_text(o),
{
    s.append("dmnmx ");
    o.srcs[0].push_text(s);
    s.append(" ");
    o.srcs[1].push_text(s);
    s.append(" ");
    o.min.push_text(s);
    assert(final(s)@ =~= old(s)@ + dmnmx_text(o));
}

pub open spec fn dsetp_text(o: &OpDSetP) -> Seq<char> {
    "dsetp"@ + o.cmp_op.spec_suffix() + opt(!trivial_accum(o.set_op, o.accum), o.set_op.spec_suffix()) + " "@ + src_text(o.srcs[0]) + " "@ + src_text(o.srcs[1]) + opt(!trivial_accum(o.set_op, o.accum), " "@ + src_text(o.accum))
}

fn fmt_dsetp(o: &OpDSetP, s: &mut String)
    ensures
        final(s)@ == old(s)@ + dsetp_text(o),
{
    let trivial = accum_is_trivial(o.set_op, &o.accum);
    s.append("dsetp");
    s.append(o.cmp_op.suffix());
    push_opt(s, !trivial, o.set_op.suffix());
    s.append(" ");
    o.srcs[0].push_text(s);
    s.append(" ");
    o.srcs[1].push_text(s);
    push_opt_src(s, !trivial, &o.accum);
    assert(final(s)@ =~= old(s)@ + dsetp_text(o));
}

impl FloatType {
    pub open spec fn spec_suffix(&self) -> Seq<char> {
        match *self {
            FloatType::F16 => ".f16"@,
            FloatType::F32 => ".f32"@,
            FloatType::F64 => ".f64"@,
        }
    }

    pub fn suffix(&self) -> (r: &'static str)
        ensures
            r@ == self.spec_suffix(),
    {
        match self {
            FloatType::F16 => ".f16",
            FloatType::F32 => ".f32",
            FloatType::F64 => ".f64",
        }
    }
}

impl FRndMode {
    pub open spec fn spec_suffix(&self) -> Seq<char> {
        match *self {
            FRndMode::NearestEven => ".re"@,
            FRndMode::NegInf => ".rm"@,
            FRndMode::PosInf => ".rp"@,
            FRndMode::Zero => ".rz"@,
        }
    }

    pub fn suffix(&self) -> (r: &'static str)
        ensures
            r@ == self.spec_suffix(),
    {
        match self {
            FRndMode::NearestEven => ".re",
            FRndMode::NegInf => ".rm",
            FRndMode::PosInf => ".rp",
            FRndMode::Zero => ".rz",
        }
    }
}

/// The rounding mode, printed unless it is the default round-to-even.
pub open spec fn rnd_text(r: FRndMode) -> Seq<char> {
    opt(r != FRndMode::NearestEven, r.spec_suffix())
}

fn push_rnd(s: &mut String, r: FRndMode)
    ensures
        final(s)@ == old(s)@ + rnd_text(r),
{
    push_opt(s, r != FRndMode::NearestEven, r.suffix());
}

/// `.dnz` when denormals are flushed to zero on multiplication, else
/// `.ftz` when they are flushed, else nothing.
pub open spec fn dnz_ftz_text(dnz: bool, ftz: bool) -> Seq<char> {
    if dnz { ".dnz"@ } else { opt(ftz, ".ftz"@) }
}

fn push_dnz_ftz(s: &mut String, dnz: bool, ftz: bool)
    ensures
        final(s)@ == old(s)@ + dnz_ftz_text(dnz, ftz),
{
    if dnz {
        s.append(".dnz");
    } else {
        push_opt(s, ftz, ".ftz");
    }
}

pub open spec fn f2f_text(o: &OpF2F) -> Seq<char> {
    "f2f"@ + opt(o.ftz, ".ftz"@) + opt(o.integer_rnd, ".int"@) + o.dst_type.spec_suffix() + o.src_type.spec_suffix() + o.rnd_mode.spec_suffix() + " "@ + src_text(o.src)
}

fn fmt_f2f(o: &OpF2F, s: &mut String)
    ensures
        final(s)@ == old(s)@ + f2f_text(o),
{
    s.append("f2f");
    push_opt(s, o.ftz, ".ftz");
    push_opt(s, o.integer_rnd, ".int");
    s.append(o.dst_type.suffix());
    s.append(o.src_type.suffix());
    s.append(o.rnd_mode.suffix());
    s.append(" ");
    o.src.push_text(s);
    assert(final(s)@ =~= old(s)@ + f2f_text(o));
}

pub open spec fn f2fp_text(o: &OpF2FP) -> Seq<char> {
    "f2fp.pack_ab"@ + rnd_text(o.rnd_mode) + " "@ + src_text(o.srcs[0]) + ", "@ + src_text(o.srcs[1])
}

fn fmt_f2fp(o: &OpF2FP, s: &mut String)
    ensures
        final(s)@ == old(s)@ + f2fp_text(o),
{
    s.append("f2fp.pack_ab");
    push_rnd(s, o.rnd_mode);
    s.append(" ");
    o.srcs[0].push_text(s);
    s.append(", ");
    o.srcs[1].push_text(s);
    assert(final(s)@ =~= old(s)@ + f2fp_text(o));
}

pub open spec fn f2i_text(o: &OpF2I) -> Seq<char> {
    "f2i"@ + o.dst_type.spec_suffix() + o.src_type.spec_suffix() + o.rnd_mode.spec_suffix() + opt(o.ftz, ".ftz"@) + " "@ + src_text(o.src)
}

fn fmt_f2i(o: &OpF2I, s: &mut String)
    ensures
        final(s)@ == old(s)@ + f2i_text(o),
{
    s.append("f2i");
    s.append(o.dst_type.suffix());
    s.append(o.src_type.suffix());
    s.append(o.rnd_mode.suffix());
    push_opt(s, o.ftz, ".ftz");
    s.append(" ");
    o.src.push_text(s);
    assert(final(s)@ =~= old(s)@ + f2i_text(o));
}

pub open spec fn i2f_text(o: &OpI2F) -> Seq<char> {
    "i2f"@ + o.dst_type.spec_suffix() + o.src_type.spec_suffix() + o.rnd_mode.spec_suffix() + " "@ + src_text(o.src)
}

fn fmt_i2f(o: &OpI2F, s: &mut String)
    ensures
        final(s)@ == old(s)@ + i2f_text(o),
{
    s.append("i2f");
    s.append(o.dst_type.suffix());
    s.append(o.src_type.suffix());
    s.append(o.rnd_mode.suffix());
    s.append(" ");
    o.src.push_text(s);
    assert(final(s)@ =~= old(s)@ + i2f_text(o));
}

pub open spec fn i2i_text(o: &OpI2I) -> Seq<char> {
    "i2i"@ + opt(o.saturate, ".sat "@) + o.dst_type.spec_suffix() + o.src_type.spec_suffix() + " "@ + src_text(o.src) + opt(o.abs, ".abs"@) + opt(o.neg, ".neg"@)
}

fn fmt_i2i(o: &OpI2I, s: &mut String)
    ensures
        final(s)@ == old(s)@ + i2i_text(o),
{
    s.append("i2i");
    push_opt(s, o.saturate, ".sat ");
    s.append(o.dst_type.suffix());
    s.append(o.src_type.suffix());
    s.append(" ");
    o.src.push_text(s);
    push_opt(s, o.abs, ".abs");
    push_opt(s, o.neg, ".neg");
    assert(final(s)@ =~= old(s)@ + i2i_text(o));
}

pub open spec fn frnd_text(o: &OpFRnd) -> Seq<char> {
    "frnd"@ + o.dst_type.spec_suffix() + o.src_type.spec_suffix() + o.rnd_mode.spec_suffix() + opt(o.ftz, ".ftz"@) + " "@ + src_text(o.src)
}

fn fmt_frnd(o: &OpFRnd, s: &mut String)
    ensures
        final(s)@ == old(s)@ + frnd_text(o),
{
    s.append("frnd");
    s.append(o.dst_type.suffix());
    s.append(o.src_type.suffix());
    s.append(o.rnd_mode.suffix());
    push_opt(s, o.ftz, ".ftz");
    s.append(" ");
    o.src.push_text(s);
    assert(final(s)@ =~= old(s)@ + frnd_text(o));
}

pub open spec fn fswzadd_text(o: &OpFSwzAdd) -> Seq<char> {
    "fswzadd"@ + rnd_text(o.rnd_mode) + opt(o.ftz, ".ftz"@) + o.deriv_mode.spec_suffix() + " "@ + src_text(o.srcs[0]) + " "@ + src_text(o.srcs[1]) + swz_ops_text(o.ops)
}

fn fmt_fswzadd(o: &OpFSwzAdd, s: &mut String)
    ensures
        final(s)@ == old(s)@ + fswzadd_text(o),
{
    s.append("fswzadd");
    push_rnd(s, o.rnd_mode);
    push_opt(s, o.ftz, ".ftz");
    s.append(o.deriv_mode.suffix());
    s.append(" ");
    o.srcs[0].push_text(s);
    s.append(" ");
    o.srcs[1].push_text(s);
    push_swz_ops(s, &o.ops);
    assert(final(s)@ =~= old(s)@ + fswzadd_text(o));
}

pub open spec fn fswz_text(o: &OpFSwz) -> Seq<char> {
    "fswz"@ + o.shuffle.spec_suffix() + rnd_text(o.rnd_mode) + o.deriv_mode.spec_suffix() + opt(o.ftz, ".ftz"@) + " "@ + src_text(o.srcs[0]) + " "@ + src_text(o.srcs[1]) + swz_ops_text(o.ops)
}

fn fmt_fswz(o: &OpFSwz, s: &mut String)
    ensures
        final(s)@ == old(s)@ + fswz_text(o),
{
    s.append("fswz");
    s.append(o.shuffle.suffix());
    push_rnd(s, o.rnd_mode);
    s.append(o.deriv_mode.suffix());
    push_opt(s, o.ftz, ".ftz");
    s.append(" ");
    o.srcs[0].push_text(s);
    s.append(" ");
    o.srcs[1].push_text(s);
    push_swz_ops(s, &o.ops);
    assert(final(s)@ =~= old(s)@ + fswz_text(o));
}

pub open spec fn rro_text(o: &OpRro) -> Seq<char> {
    "rro"@ + o.op.spec_suffix() + " "@ + src_text(o.src)
}

fn fmt_rro(o: &OpRro, s: &mut String)
    ensures
        final(s)@ == old(s)@ + rro_text(o),
{
    s.append("rro");
    s.append(o.op.suffix());
    s.append(" ");
    o.src.push_text(s);
    assert(final(s)@ =~= old(s)@ + rro_text(o));
}

pub open spec fn mufu_text(o: &OpMuFu) -> Seq<char> {
    "mufu."@ + o.op.spec_name() + " "@ + src_text(o.src)
}

fn fmt_mufu(o: &OpMuFu, s: &mut String)
    ensures
        final(s)@ == old(s)@ + mufu_text(o),
{
    s.append("mufu.");
    s.append(o.op.name());
    s.append(" ");
    o.src.push_text(s);
    assert(final(s)@ =~= old(s)@ + mufu_text(o));
}

pub open spec fn idp4_text(o: &OpIDp4) -> Seq<char> {
    "idp4"@ + o.src_types[0].spec_suffix() + o.src_types[1].spec_suffix() + " "@ + src_text(o.srcs[0]) + " "@ + src_text(o.srcs[1]) + " "@ + src_text(o.srcs[2])
}

fn fmt_idp4(o: &OpIDp4, s: &mut String)
    ensures
        final(s)@ == old(s)@ + idp4_text(o),
{
    s.append("idp4");
    s.append(o.src_types[0].suffix());
    s.append(o.src_types[1].suffix());
    s.append(" ");
    o.srcs[0].push_text(s);
    s.append(" ");
    o.srcs[1].push_text(s);
    s.append(" ");
    o.srcs[2].push_text(s);
    assert(final(s)@ =~= old(s)@ + idp4_text(o));
}

pub open spec fn shfl_text(o: &OpShfl) -> Seq<char> {
    "shfl."@ + o.op.spec_name() + " "@ + src_text(o.src) + " "@ + src_text(o.lane) + " "@ + src_text(o.c)
}

fn fmt_shfl(o: &OpShfl, s: &mut String)
    ensures
        final(s)@ == old(s)@ + shfl_text(o),
{
    s.append("shfl.");
    s.append(o.op.name());
    s.append(" ");
    o.src.push_text(s);
    s.append(" ");
    o.lane.push_text(s);
    s.append(" ");
    o.c.push_text(s);
    assert(final(s)@ =~= old(s)@ + shfl_text(o));
}

pub open spec fn r2ur_text(o: &OpR2UR) -> Seq<char> {
    "r2ur "@ + src_text(o.src)
}

fn fmt_r2ur(o: &OpR2UR, s: &mut String)
    ensures
        final(s)@ == old(s)@ + r2ur_text(o),
{
    s.append("r2ur ");
    o.src.push_text(s);
    assert(final(s)@ =~= old(s)@ + r2ur_text(o));
}

pub open spec fn redux_text(o: &OpRedux) -> Seq<char> {
    "redux"@ + o.op.spec_suffix() + " "@ + src_text(o.src)
}

fn fmt_redux(o: &OpRedux, s: &mut String)
    ensures
        final(s)@ == old(s)@ + redux_text(o),
{
    s.append("redux");
    match o.op {
        ReduxOp::And => s.append(".and"),
        ReduxOp::Or => s.append(".or"),
        ReduxOp::Xor => s.append(".xor"),
        ReduxOp::Sum => s.append(".sum"),
        ReduxOp::Min(c) => {
            s.append(".min");
            s.append(c.suffix());
        },
        ReduxOp::Max(c) => {
            s.append(".max");
            s.append(c.suffix());
        },
    }
    s.append(" ");
    o.src.push_text(s);
    assert(final(s)@ =~= old(s)@ + redux_text(o));
}

impl FSwzAddOp {
    pub open spec fn spec_name(&self) -> Seq<char> {
        match *self {
            FSwzAddOp::Add => "add"@,
            FSwzAddOp::SubRight => "subr"@,
            FSwzAddOp::SubLeft => "sub"@,
            FSwzAddOp::MoveLeft => "mov2"@,
        }
    }

    pub fn name(&self) -> (r: &'static str)
        ensures
            r@ == self.spec_name(),
    {
        match self {
            FSwzAddOp::Add => "add",
            FSwzAddOp::SubRight => "subr",
            FSwzAddOp::SubLeft => "sub",
            FSwzAddOp::MoveLeft => "mov2",
        }
    }
}

/// The four swizzle steps: ` [a, b, c, d]`.
pub open spec fn swz_ops_text(ops: [FSwzAddOp; 4]) -> Seq<char> {
    " ["@ + ops[0].spec_name() + ", "@ + ops[1].spec_name() + ", "@ + ops[2].spec_name() + ", "@ + ops[3].spec_name() + "]"@
}

fn push_swz_ops(s: &mut String, ops: &[FSwzAddOp; 4])
    ensures
        final(s)@ == old(s)@ + swz_ops_text(*ops),
{
    s.append(" [");
    s.append(ops[0].name());
    s.append(", ");
    s.append(ops[1].name());
    s.append(", ");
    s.append(ops[2].name());
    s.append(", ");
    s.append(ops[3].name());
    s.append("]");
    assert(final(s)@ =~= old(s)@ + swz_ops_text(*ops));
}

impl FSwzShuffle {
    pub open spec fn spec_suffix(&self) -> Seq<char> {
        match *self {
            FSwzShuffle::Quad0 => ".0000"@,
            FSwzShuffle::Quad1 => ".1111"@,
            FSwzShuffle::Quad2 => ".2222"@,
            FSwzShuffle::Quad3 => ".3333"@,
            FSwzShuffle::SwapHorizontal => ".1032"@,
            FSwzShuffle::SwapVertical => ".2301"@,
        }
    }

    pub fn suffix(&self) -> (r: &'static str)
        ensures
            r@ == self.spec_suffix(),
    {
        match self {
            FSwzShuffle::Quad0 => ".0000",
            FSwzShuffle::Quad1 => ".1111",
            FSwzShuffle::Quad2 => ".2222",
            FSwzShuffle::Quad3 => ".3333",
            FSwzShuffle::SwapHorizontal => ".1032",
            FSwzShuffle::SwapVertical => ".2301",
        }
    }
}

impl TexDerivMode {
    pub open spec fn spec_suffix(&self) -> Seq<char> {
        match *self {
            TexDerivMode::Auto => Seq::empty(),
            TexDerivMode::NonDivergent => ".ndv"@,
            TexDerivMode::ForceDivergent => ".fdv"@,
            TexDerivMode::DerivXY => ".dxy"@,
        }
    }

    pub fn suffix(&self) -> (r: &'static str)
        ensures
            r@ == self.spec_suffix(),
    {
        proof {
            reveal_strlit("");
        }
        match self {
            TexDerivMode::Auto => "",
            TexDerivMode::NonDivergent => ".ndv",
            TexDerivMode::ForceDivergent => ".fdv",
            TexDerivMode::DerivXY => ".dxy",
        }
    }
}

impl RroOp {
    pub open spec fn spec_suffix(&self) -> Seq<char> {
        match *self {
            RroOp::SinCos => ".sincos"@,
            RroOp::Exp2 => ".exp2"@,
        }
    }

    pub fn suffix(&self) -> (r: &'static str)
        ensures
            r@ == self.spec_suffix(),
    {
        match self {
            RroOp::SinCos => ".sincos",
            RroOp::Exp2 => ".exp2",
        }
    }
}

impl MuFuOp {
    pub open spec fn spec_name(&self) -> Seq<char> {
        match *self {
            MuFuOp::Cos => "cos"@,
            MuFuOp::Sin => "sin"@,
            MuFuOp::Exp2 => "exp2"@,
            MuFuOp::Log2 => "log2"@,
            MuFuOp::Rcp => "rcp"@,
            MuFuOp::Rsq => "rsq"@,
            MuFuOp::Rcp64H => "rcp64h"@,
            MuFuOp::Rsq64H => "rsq64h"@,
            MuFuOp::Sqrt => "sqrt"@,
            MuFuOp::Tanh => "tanh"@,
        }
    }

    pub fn name(&self) -> (r: &'static str)
        ensures
            r@ == self.spec_name(),
    {
        match self {
            MuFuOp::Cos => "cos",
            MuFuOp::Sin => "sin",
            MuFuOp::Exp2 => "exp2",
            MuFuOp::Log2 => "log2",
            MuFuOp::Rcp => "rcp",
            MuFuOp::Rsq => "rsq",
            MuFuOp::Rcp64H => "rcp64h",
            MuFuOp::Rsq64H => "rsq64h",
            MuFuOp::Sqrt => "sqrt",
            MuFuOp::Tanh => "tanh",
        }
    }
}

impl ShflOp {
    pub open spec fn spec_name(&self) -> Seq<char> {
        match *self {
            ShflOp::Idx => "idx"@,
            ShflOp::Up => "up"@,
            ShflOp::Down => "down"@,
            ShflOp::Bfly => "bfly"@,
        }
    }

    pub fn name(&self) -> (r: &'static str)
        ensures
            r@ == self.spec_name(),
    {
        match self {
            ShflOp::Idx => "idx",
            ShflOp::Up => "up",
            ShflOp::Down => "down",
            ShflOp::Bfly => "bfly",
        }
    }
}

impl ReduxOp {
    pub open spec fn spec_suffix(&self) -> Seq<char> {
        match *self {
            ReduxOp::And => ".and"@,
            ReduxOp::Or => ".or"@,
            ReduxOp::Xor => ".xor"@,
            ReduxOp::Sum => ".sum"@,
            ReduxOp::Min(c) => ".min"@ + c.spec_suffix(),
            ReduxOp::Max(c) => ".max"@ + c.spec_suffix(),
        }
    }
}

pub open spec fn tex_text(o: &OpTex) -> Seq<char> {
    "tex"@ + o.dim.spec_suffix() + o.lod_mode.spec_suffix() + o.offset_mode.spec_suffix() + o.deriv_mode.spec_suffix() + opt(o.z_cmpr, ".dc"@) + o.mem_eviction_priority.spec_suffix() + opt(o.nodep, ".nodep"@) + channel_mask_text(o.channel_mask) + " "@ + tex_ref_text(o.tex) + " "@ + src_text(o.srcs[0]) + " "@ + src_text(o.srcs[1])
}

#[verifier::rlimit(50)]
fn fmt_tex(o: &OpTex, s: &mut String)
    ensures
        final(s)@ == old(s)@ + tex_text(o),
{
    let ghost t0 = s@;
    s.append("tex");
    s.append(o.dim.suffix());
    s.append(o.lod_mode.suffix());
    s.append(o.offset_mode.suffix());
    s.append(o.deriv_mode.suffix());
    push_opt(s, o.z_cmpr, ".dc");
    s.append(o.mem_eviction_priority.suffix());
    push_opt(s, o.nodep, ".nodep");
    assert(s@ =~= t0 + ("tex"@ + o.dim.spec_suffix() + o.lod_mode.spec_suffix() + o.offset_mode.spec_suffix()
        + o.deriv_mode.spec_suffix() + opt(o.z_cmpr, ".dc"@) + o.mem_eviction_priority.spec_suffix()
        + opt(o.nodep, ".nodep"@)));
    push_channel_mask(s, o.channel_mask);
    s.append(" ");
    push_tex_ref(s, o.tex);
    s.append(" ");
    o.srcs[0].push_text(s);
    s.append(" ");
    o.srcs[1].push_text(s);
    assert(final(s)@ =~= old(s)@ + tex_text(o));
}

pub open spec fn tld_text(o: &OpTld) -> Seq<char> {
    "tld"@ + o.dim.spec_suffix() + o.lod_mode.spec_suffix() + o.offset_mode.spec_suffix() + opt(o.is_ms, ".ms"@) + o.mem_eviction_priority.spec_suffix() + opt(o.nodep, ".nodep"@) + channel_mask_text(o.channel_mask) + " "@ + tex_ref_text(o.tex) + " "@ + src_text(o.srcs[0]) + " "@ + src_text(o.srcs[1])
}

#[verifier::rlimit(50)]
fn fmt_tld(o: &OpTld, s: &mut String)
    ensures
        final(s)@ == old(s)@ + tld_text(o),
{
    s.append("tld");
    s.append(o.dim.suffix());
    s.append(o.lod_mode.suffix());
    s.append(o.offset_mode.suffix());
    push_opt(s, o.is_ms, ".ms");
    s.append(o.mem_eviction_priority.suffix());
    push_opt(s, o.nodep, ".nodep");
    push_channel_mask(s, o.channel_mask);
    s.append(" ");
    push_tex_ref(s, o.tex);
    s.append(" ");
    o.srcs[0].push_text(s);
    s.append(" ");
    o.srcs[1].push_text(s);
    assert(final(s)@ =~= old(s)@ + tld_text(o));
}

pub open spec fn tld4_text(o: &OpTld4) -> Seq<char> {
    "tld4.g"@ + o.dim.spec_suffix() + o.offset_mode.spec_suffix() + opt(o.z_cmpr, ".dc"@) + o.mem_eviction_priority.spec_suffix() + opt(o.nodep, ".nodep"@) + channel_mask_text(o.channel_mask) + " "@ + tex_ref_text(o.tex) + " "@ + src_text(o.srcs[0]) + " "@ + src_text(o.srcs[1])
}

#[verifier::rlimit(50)]
fn fmt_tld4(o: &OpTld4, s: &mut String)
    ensures
        final(s)@ == old(s)@ + tld4_text(o),
{
    s.append("tld4.g");
    s.append(o.dim.suffix());
    s.append(o.offset_mode.suffix());
    push_opt(s, o.z_cmpr, ".dc");
    s.append(o.mem_eviction_priority.suffix());
    push_opt(s, o.nodep, ".nodep");
    push_channel_mask(s, o.channel_mask);
    s.append(" ");
    push_tex_ref(s, o.tex);
    s.append(" ");
    o.srcs[0].push_text(s);
    s.append(" ");
    o.srcs[1].push_text(s);
    assert(final(s)@ =~= old(s)@ + tld4_text(o));
}

pub open spec fn tmml_text(o: &OpTmml) -> Seq<char> {
    "tmml.lod"@ + o.dim.spec_suffix() + o.deriv_mode.spec_suffix() + opt(o.nodep, ".nodep"@) + channel_mask_text(o.channel_mask) + " "@ + tex_ref_text(o.tex) + " "@ + src_text(o.srcs[0]) + " "@ + src_text(o.srcs[1])
}

fn fmt_tmml(o: &OpTmml, s: &mut String)
    ensures
        final(s)@ == old(s)@ + tmml_text(o),
{
    s.append("tmml.lod");
    s.append(o.dim.suffix());
    s.append(o.deriv_mode.suffix());
    push_opt(s, o.nodep, ".nodep");
    push_channel_mask(s, o.channel_mask);
    s.append(" ");
    push_tex_ref(s, o.tex);
    s.append(" ");
    o.srcs[0].push_text(s);
    s.append(" ");
    o.srcs[1].push_text(s);
    assert(final(s)@ =~= old(s)@ + tmml_text(o));
}

pub open spec fn txd_text(o: &OpTxd) -> Seq<char> {
    "txd"@ + o.dim.spec_suffix() + o.offset_mode.spec_suffix() + o.mem_eviction_priority.spec_suffix() + opt(o.nodep, ".nodep"@) + channel_mask_text(o.channel_mask) + " "@ + tex_ref_text(o.tex) + " "@ + src_text(o.srcs[0]) + " "@ + src_text(o.srcs[1])
}

#[verifier::rlimit(50)]
fn fmt_txd(o: &OpTxd, s: &mut String)
    ensures
        final(s)@ == old(s)@ + txd_text(o),
{
    s.append("txd");
    s.append(o.dim.suffix());
    s.append(o.offset_mode.suffix());
    s.append(o.mem_eviction_priority.suffix());
    push_opt(s, o.nodep, ".nodep");
    push_channel_mask(s, o.channel_mask);
    s.append(" ");
    push_tex_ref(s, o.tex);
    s.append(" ");
    o.srcs[0].push_text(s);
    s.append(" ");
    o.srcs[1].push_text(s);
    assert(final(s)@ =~= old(s)@ + txd_text(o));
}

pub open spec fn txq_text(o: &OpTxq) -> Seq<char> {
    "txq"@ + opt(o.nodep, ".nodep"@) + channel_mask_text(o.channel_mask) + " "@ + tex_ref_text(o.tex) + " "@ + src_text(o.src) + " "@ + o.query.spec_name()
}

fn fmt_txq(o: &OpTxq, s: &mut String)
    ensures
        final(s)@ == old(s)@ + txq_text(o),
{
    s.append("txq");
    push_opt(s, o.nodep, ".nodep");
    push_channel_mask(s, o.channel_mask);
    s.append(" ");
    push_tex_ref(s, o.tex);
    s.append(" ");
    o.src.push_text(s);
    s.append(" ");
    s.append(o.query.name());
    assert(final(s)@ =~= old(s)@ + txq_text(o));
}

impl TexDim {
    pub open spec fn spec_suffix(&self) -> Seq<char> {
        match *self {
            TexDim::_1D => ".1d"@,
            TexDim::Array1D => ".a1d"@,
            TexDim::_2D => ".2d"@,
            TexDim::Array2D => ".a2d"@,
            TexDim::_3D => ".3d"@,
            TexDim::Cube => ".cube"@,
            TexDim::ArrayCube => ".acube"@,
        }
    }

    pub fn suffix(&self) -> (r: &'static str)
        ensures
            r@ == self.spec_suffix(),
    {
        match self {
            TexDim::_1D => ".1d",
            TexDim::Array1D => ".a1d",
            TexDim::_2D => ".2d",
            TexDim::Array2D => ".a2d",
            TexDim::_3D => ".3d",
            TexDim::Cube => ".cube",
            TexDim::ArrayCube => ".acube",
        }
    }
}

impl TexLodMode {
    pub open spec fn spec_suffix(&self) -> Seq<char> {
        match *self {
            TexLodMode::Auto => Seq::empty(),
            TexLodMode::Zero => ".lz"@,
            TexLodMode::Bias => ".lb"@,
            TexLodMode::Lod => ".ll"@,
            TexLodMode::Clamp => ".lc"@,
            TexLodMode::BiasClamp => ".lb.lc"@,
        }
    }

    pub fn suffix(&self) -> (r: &'static str)
        ensures
            r@ == self.spec_suffix(),
    {
        proof {
            reveal_strlit("");
        }
        match self {
            TexLodMode::Auto => "",
            TexLodMode::Zero => ".lz",
            TexLodMode::Bias => ".lb",
            TexLodMode::Lod => ".ll",
            TexLodMode::Clamp => ".lc",
            TexLodMode::BiasClamp => ".lb.lc",
        }
    }
}

impl TexOffsetMode {
    pub open spec fn spec_suffix(&self) -> Seq<char> {
        match *self {
            TexOffsetMode::Unset => Seq::empty(),
            TexOffsetMode::AddOffI => ".aoffi"@,
            TexOffsetMode::PerPx => ".ptp"@,
        }
    }

    pub fn suffix(&self) -> (r: &'static str)
        ensures
            r@ == self.spec_suffix(),
    {
        proof {
            reveal_strlit("");
        }
        match self {
            TexOffsetMode::Unset => "",
            TexOffsetMode::AddOffI => ".aoffi",
            TexOffsetMode::PerPx => ".ptp",
        }
    }
}

impl TexQuery {
    pub open spec fn spec_name(&self) -> Seq<char> {
        match *self {
            TexQuery::Dimension => "dimension"@,
            TexQuery::TextureType => "texture_type"@,
            TexQuery::SamplerPos => "sampler_pos"@,
        }
    }

    pub fn name(&self) -> (r: &'static str)
        ensures
            r@ == self.spec_name(),
    {
        match self {
            TexQuery::Dimension => "dimension",
            TexQuery::TextureType => "texture_type",
            TexQuery::SamplerPos => "sampler_pos",
        }
    }
}

/// A channel mask as text: `.` and the letters of the channels written,
/// in `rgba` order.
pub open spec fn channel_mask_text(m: ChannelMask) -> Seq<char> {
    let b = m.spec_bits();
    "."@ + opt(b & 1 != 0, "r"@) + opt(b & 2 != 0, "g"@) + opt(b & 4 != 0, "b"@) + opt(b & 8 != 0, "a"@)
}

fn push_channel_mask(s: &mut String, m: ChannelMask)
    ensures
        final(s)@ == old(s)@ + channel_mask_text(m),
{
    let b = m.to_bits();
    s.append(".");
    push_opt(s, b & 1 != 0, "r");
    push_opt(s, b & 2 != 0, "g");
    push_opt(s, b & 4 != 0, "b");
    push_opt(s, b & 8 != 0, "a");
    assert(final(s)@ =~= old(s)@ + channel_mask_text(m));
}

/// A texture reference as text.
pub open spec fn tex_ref_text(t: TexRef) -> Seq<char> {
    match t {
        TexRef::Bound(idx) => "tex["@ + dec_text(idx as nat) + "]"@,
        TexRef::CBuf(c) => "c["@ + hex_text(c.idx as nat) + "]["@ + hex_text(c.offset as nat) + "]"@,
        TexRef::Bindless => "bindless"@,
    }
}

fn push_tex_ref(s: &mut String, t: TexRef)
    ensures
        final(s)@ == old(s)@ + tex_ref_text(t),
{
    match t {
        TexRef::Bound(idx) => {
            s.append("tex[");
            push_dec(s, idx as u32);
            s.append("]");
        },
        TexRef::CBuf(c) => {
            s.append("c[");
            push_hex(s, c.idx as u32);
            s.append("][");
            push_hex(s, c.offset as u32);
            s.append("]");
        },
        TexRef::Bindless => s.append("bindless"),
    }
    assert(final(s)@ =~= old(s)@ + tex_ref_text(t));
}

pub open spec fn suld_text(o: &OpSuLd) -> Seq<char> {
    "suld"@ + image_access_text(o.image_access) + o.image_dim.spec_suffix() + o.mem_order.spec_suffix() + o.mem_eviction_priority.spec_suffix() + " ["@ + src_text(o.coord) + "] "@ + src_text(o.handle)
}

fn fmt_suld(o: &OpSuLd, s: &mut String)
    ensures
        final(s)@ == old(s)@ + suld_text(o),
{
    s.append("suld");
    push_image_access(s, o.image_access);
    s.append(o.image_dim.suffix());
    o.mem_order.push_suffix(s);
    s.append(o.mem_eviction_priority.suffix());
    s.append(" [");
    o.coord.push_text(s);
    s.append("] ");
    o.handle.push_text(s);
    assert(final(s)@ =~= old(s)@ + suld_text(o));
}

pub open spec fn sust_text(o: &OpSuSt) -> Seq<char> {
    "sust"@ + image_access_text(o.image_access) + o.image_dim.spec_suffix() + o.mem_order.spec_suffix() + o.mem_eviction_priority.spec_suffix() + " ["@ + src_text(o.coord) + "] "@ + src_text(o.data) + " "@ + src_text(o.handle)
}

fn fmt_sust(o: &OpSuSt, s: &mut String)
    ensures
        final(s)@ == old(s)@ + sust_text(o),
{
    s.append("sust");
    push_image_access(s, o.image_access);
    s.append(o.image_dim.suffix());
    o.mem_order.push_suffix(s);
    s.append(o.mem_eviction_priority.suffix());
    s.append(" [");
    o.coord.push_text(s);
    s.append("] ");
    o.data.push_text(s);
    s.append(" ");
    o.handle.push_text(s);
    assert(final(s)@ =~= old(s)@ + sust_text(o));
}

pub open spec fn suatom_text(o: &OpSuAtom) -> Seq<char> {
    "suatom.p"@ + o.image_dim.spec_suffix() + o.atom_op.spec_suffix() + o.atom_type.spec_suffix() + o.mem_order.spec_suffix() + o.mem_eviction_priority.spec_suffix() + " ["@ + src_text(o.coord) + "] "@ + src_text(o.data) + " "@ + src_text(o.handle)
}

fn fmt_suatom(o: &OpSuAtom, s: &mut String)
    ensures
        final(s)@ == old(s)@ + suatom_text(o),
{
    s.append("suatom.p");
    s.append(o.image_dim.suffix());
    s.append(o.atom_op.suffix());
    s.append(o.atom_type.suffix());
    o.mem_order.push_suffix(s);
    s.append(o.mem_eviction_priority.suffix());
    s.append(" [");
    o.coord.push_text(s);
    s.append("] ");
    o.data.push_text(s);
    s.append(" ");
    o.handle.push_text(s);
    assert(final(s)@ =~= old(s)@ + suatom_text(o));
}

pub open spec fn suldga_text(o: &OpSuLdGa) -> Seq<char> {
    "suldga"@ + o.mem_type.spec_suffix() + o.cache_op.spec_suffix() + " ["@ + src_text(o.addr) + "] "@ + src_text(o.format) + " "@ + src_text(o.out_of_bounds)
}

fn fmt_suldga(o: &OpSuLdGa, s: &mut String)
    ensures
        final(s)@ == old(s)@ + suldga_text(o),
{
    s.append("suldga");
    s.append(o.mem_type.suffix());
    s.append(o.cache_op.suffix());
    s.append(" [");
    o.addr.push_text(s);
    s.append("] ");
    o.format.push_text(s);
    s.append(" ");
    o.out_of_bounds.push_text(s);
    assert(final(s)@ =~= old(s)@ + suldga_text(o));
}

pub open spec fn sustga_text(o: &OpSuStGa) -> Seq<char> {
    "sustga"@ + image_access_text(o.image_access) + o.cache_op.spec_suffix() + " ["@ + src_text(o.addr) + "] "@ + src_text(o.format) + " "@ + src_text(o.data) + " "@ + src_text(o.out_of_bounds)
}

fn fmt_sustga(o: &OpSuStGa, s: &mut String)
    ensures
        final(s)@ == old(s)@ + sustga_text(o),
{
    s.append("sustga");
    push_image_access(s, o.image_access);
    s.append(o.cache_op.suffix());
    s.append(" [");
    o.addr.push_text(s);
    s.append("] ");
    o.format.push_text(s);
    s.append(" ");
    o.data.push_text(s);
    s.append(" ");
    o.out_of_bounds.push_text(s);
    assert(final(s)@ =~= old(s)@ + sustga_text(o));
}

impl ImageDim {
    pub open spec fn spec_suffix(&self) -> Seq<char> {
        match *self {
            ImageDim::_1D => ".1d"@,
            ImageDim::_1DBuffer => ".buf"@,
            ImageDim::_1DArray => ".a1d"@,
            ImageDim::_2D => ".2d"@,
            ImageDim::_2DArray => ".a2d"@,
            ImageDim::_3D => ".3d"@,
        }
    }

    pub fn suffix(&self) -> (r: &'static str)
        ensures
            r@ == self.spec_suffix(),
    {
        match self {
            ImageDim::_1D => ".1d",
            ImageDim::_1DBuffer => ".buf",
            ImageDim::_1DArray => ".a1d",
            ImageDim::_2D => ".2d",
            ImageDim::_2DArray => ".a2d",
            ImageDim::_3D => ".3d",
        }
    }
}

impl LdCacheOp {
    pub open spec fn spec_suffix(&self) -> Seq<char> {
        match *self {
            LdCacheOp::CacheAll => ".ca"@,
            LdCacheOp::CacheGlobal => ".cg"@,
            LdCacheOp::CacheIncoherent => ".ci"@,
            LdCacheOp::CacheStreaming => ".cs"@,
            LdCacheOp::CacheInvalidate => ".cv"@,
        }
    }

    pub fn suffix(&self) -> (r: &'static str)
        ensures
            r@ == self.spec_suffix(),
    {
        match self {
            LdCacheOp::CacheAll => ".ca",
            LdCacheOp::CacheGlobal => ".cg",
            LdCacheOp::CacheIncoherent => ".ci",
            LdCacheOp::CacheStreaming => ".cs",
            LdCacheOp::CacheInvalidate => ".cv",
        }
    }
}

impl StCacheOp {
    pub open spec fn spec_suffix(&self) -> Seq<char> {
        match *self {
            StCacheOp::WriteBack => ".wb"@,
            StCacheOp::CacheGlobal => ".cg"@,
            StCacheOp::CacheStreaming => ".cs"@,
            StCacheOp::WriteThrough => ".wt"@,
        }
    }

    pub fn suffix(&self) -> (r: &'static str)
        ensures
            r@ == self.spec_suffix(),
    {
        match self {
            StCacheOp::WriteBack => ".wb",
            StCacheOp::CacheGlobal => ".cg",
            StCacheOp::CacheStreaming => ".cs",
            StCacheOp::WriteThrough => ".wt",
        }
    }
}

/// An image access as text: `.b` and the memory type, or `.p` and the
/// channel mask.
pub open spec fn image_access_text(a: ImageAccess) -> Seq<char> {
    match a {
        ImageAccess::Binary(t) => ".b"@ + t.spec_suffix(),
        ImageAccess::Formatted(m) => ".p"@ + channel_mask_text(m),
    }
}

fn push_image_access(s: &mut String, a: ImageAccess)
    ensures
        final(s)@ == old(s)@ + image_access_text(a),
{
    match a {
        ImageAccess::Binary(t) => {
            s.append(".b");
            s.append(t.suffix());
        },
        ImageAccess::Formatted(m) => {
            s.append(".p");
            push_channel_mask(s, m);
        },
    }
    assert(final(s)@ =~= old(s)@ + image_access_text(a));
}

pub open spec fn ldc_text(o: &OpLdc) -> Seq<char> {
    "ldc"@ + o.mode.spec_suffix() + o.mem_type.spec_suffix() + " "@ + ldc_addr_text(o)
}

fn fmt_ldc(o: &OpLdc, s: &mut String)
    requires
        o.cb.src_ref is CBuf,
    ensures
        final(s)@ == old(s)@ + ldc_text(o),
{
    s.append("ldc");
    s.append(o.mode.suffix());
    s.append(o.mem_type.suffix());
    s.append(" ");
    push_ldc_addr(s, o);
    assert(final(s)@ =~= old(s)@ + ldc_text(o));
}

pub open spec fn ldsharedlock_text(o: &OpLdSharedLock) -> Seq<char> {
    "ldslk"@ + o.mem_type.spec_suffix() + " ["@ + src_text(o.addr) + offset_text(o.offset) + "]"@
}

fn fmt_ldsharedlock(o: &OpLdSharedLock, s: &mut String)
    ensures
        final(s)@ == old(s)@ + ldsharedlock_text(o),
{
    s.append("ldslk");
    s.append(o.mem_type.suffix());
    s.append(" [");
    o.addr.push_text(s);
    push_offset(s, o.offset);
    s.append("]");
    assert(final(s)@ =~= old(s)@ + ldsharedlock_text(o));
}

pub open spec fn stscheckunlock_text(o: &OpStSCheckUnlock) -> Seq<char> {
    "stscul"@ + o.mem_type.spec_suffix() + " ["@ + src_text(o.addr) + offset_text(o.offset) + "] "@ + src_text(o.data)
}

fn fmt_stscheckunlock(o: &OpStSCheckUnlock, s: &mut String)
    ensures
        final(s)@ == old(s)@ + stscheckunlock_text(o),
{
    s.append("stscul");
    s.append(o.mem_type.suffix());
    s.append(" [");
    o.addr.push_text(s);
    push_offset(s, o.offset);
    s.append("] ");
    o.data.push_text(s);
    assert(final(s)@ =~= old(s)@ + stscheckunlock_text(o));
}

pub open spec fn al2p_text(o: &OpAL2P) -> Seq<char> {
    "al2p"@ + opt(o.output, ".o"@) + " a["@ + hex_text(o.addr as nat) + opt(!src_is_zero(o.offset), "+"@ + src_text(o.offset)) + "]"@
}

fn fmt_al2p(o: &OpAL2P, s: &mut String)
    ensures
        final(s)@ == old(s)@ + al2p_text(o),
{
    s.append("al2p");
    push_opt(s, o.output, ".o");
    s.append(" a[");
    push_hex(s, o.addr as u32);
    push_opt_plus(s, &o.offset);
    s.append("]");
    assert(final(s)@ =~= old(s)@ + al2p_text(o));
}

pub open spec fn ald_text(o: &OpALd) -> Seq<char> {
    "ald"@ + opt(o.output, ".o"@) + opt(o.patch, ".p"@) + opt(o.phys, ".phys"@) + " a"@ + opt(!src_is_zero(o.vtx), "["@ + src_text(o.vtx) + "]"@) + "["@ + hex_text(o.addr as nat) + opt(!src_is_zero(o.offset), "+"@ + src_text(o.offset)) + "]"@
}

fn fmt_ald(o: &OpALd, s: &mut String)
    ensures
        final(s)@ == old(s)@ + ald_text(o),
{
    s.append("ald");
    push_opt(s, o.output, ".o");
    push_opt(s, o.patch, ".p");
    push_opt(s, o.phys, ".phys");
    s.append(" a");
    push_opt_bracketed(s, &o.vtx);
    s.append("[");
    push_hex(s, o.addr as u32);
    push_opt_plus(s, &o.offset);
    s.append("]");
    assert(final(s)@ =~= old(s)@ + ald_text(o));
}

pub open spec fn ast_text(o: &OpASt) -> Seq<char> {
    "ast"@ + opt(o.patch, ".p"@) + opt(o.phys, ".phys"@) + " a"@ + opt(!src_is_zero(o.vtx), "["@ + src_text(o.vtx) + "]"@) + "["@ + hex_text(o.addr as nat) + opt(!src_is_zero(o.offset), "+"@ + src_text(o.offset)) + "] "@ + src_text(o.data)
}

fn fmt_ast(o: &OpASt, s: &mut String)
    ensures
        final(s)@ == old(s)@ + ast_text(o),
{
    s.append("ast");
    push_opt(s, o.patch, ".p");
    push_opt(s, o.phys, ".phys");
    s.append(" a");
    push_opt_bracketed(s, &o.vtx);
    s.append("[");
    push_hex(s, o.addr as u32);
    push_opt_plus(s, &o.offset);
    s.append("] ");
    o.data.push_text(s);
    assert(final(s)@ =~= old(s)@ + ast_text(o));
}

pub open spec fn ipa_text(o: &OpIpa) -> Seq<char> {
    "ipa"@ + o.freq.spec_suffix() + o.loc.spec_suffix() + " a["@ + hex_text(o.addr as nat) + "] "@ + src_text(o.inv_w) + opt(o.loc == InterpLoc::Offset, " "@ + src_text(o.offset))
}

fn fmt_ipa(o: &OpIpa, s: &mut String)
    ensures
        final(s)@ == old(s)@ + ipa_text(o),
{
    s.append("ipa");
    s.append(o.freq.suffix());
    s.append(o.loc.suffix());
    s.append(" a[");
    push_hex(s, o.addr as u32);
    s.append("] ");
    o.inv_w.push_text(s);
    push_opt_src(s, o.loc == InterpLoc::Offset, &o.offset);
    assert(final(s)@ =~= old(s)@ + ipa_text(o));
}

pub open spec fn ldtram_text(o: &OpLdTram) -> Seq<char> {
    "ldtram"@ + (if o.use_c { ".c"@ } else { ".ab"@ }) + " a["@ + hex_text(o.addr as nat) + "]"@
}

fn fmt_ldtram(o: &OpLdTram, s: &mut String)
    ensures
        final(s)@ == old(s)@ + ldtram_text(o),
{
    s.append("ldtram");
    if o.use_c {
        s.append(".c");
    } else {
        s.append(".ab");
    }
    s.append(" a[");
    push_hex(s, o.addr as u32);
    s.append("]");
    assert(final(s)@ =~= old(s)@ + ldtram_text(o));
}

pub open spec fn cctl_text(o: &OpCCtl) -> Seq<char> {
    "cctl"@ + o.mem_space.spec_suffix() + cctl_addr_text(o)
}

fn fmt_cctl(o: &OpCCtl, s: &mut String)
    ensures
        final(s)@ == old(s)@ + cctl_text(o),
{
    s.append("cctl");
    o.mem_space.push_suffix(s);
    push_cctl_addr(s, o);
    assert(final(s)@ =~= old(s)@ + cctl_text(o));
}

pub open spec fn membar_text(o: &OpMemBar) -> Seq<char> {
    "membar.sc."@ + o.scope.spec_suffix()
}

fn fmt_membar(o: &OpMemBar, s: &mut String)
    ensures
        final(s)@ == old(s)@ + membar_text(o),
{
    s.append("membar.sc.");
    s.append(o.scope.suffix());
    assert(final(s)@ =~= old(s)@ + membar_text(o));
}

impl LdcMode {
    pub open spec fn spec_suffix(&self) -> Seq<char> {
        match *self {
            LdcMode::Indexed => Seq::empty(),
            LdcMode::IndexedLinear => ".il"@,
            LdcMode::IndexedSegmented => ".is"@,
            LdcMode::IndexedSegmentedLinear => ".isl"@,
        }
    }

    pub fn suffix(&self) -> (r: &'static str)
        ensures
            r@ == self.spec_suffix(),
    {
        proof {
            reveal_strlit("");
        }
        match self {
            LdcMode::Indexed => "",
            LdcMode::IndexedLinear => ".il",
            LdcMode::IndexedSegmented => ".is",
            LdcMode::IndexedSegmentedLinear => ".isl",
        }
    }
}

impl InterpFreq {
    pub open spec fn spec_suffix(&self) -> Seq<char> {
        match *self {
            InterpFreq::Pass => ".pass"@,
            InterpFreq::PassMulW => ".pass_mul_w"@,
            InterpFreq::Constant => ".constant"@,
            InterpFreq::State => ".state"@,
        }
    }

    pub fn suffix(&self) -> (r: &'static str)
        ensures
            r@ == self.spec_suffix(),
    {
        match self {
            InterpFreq::Pass => ".pass",
            InterpFreq::PassMulW => ".pass_mul_w",
            InterpFreq::Constant => ".constant",
            InterpFreq::State => ".state",
        }
    }
}

impl InterpLoc {
    pub open spec fn spec_suffix(&self) -> Seq<char> {
        match *self {
            InterpLoc::Default => Seq::empty(),
            InterpLoc::Centroid => ".centroid"@,
            InterpLoc::Offset => ".offset"@,
        }
    }

    pub fn suffix(&self) -> (r: &'static str)
        ensures
            r@ == self.spec_suffix(),
    {
        proof {
            reveal_strlit("");
        }
        match self {
            InterpLoc::Default => "",
            InterpLoc::Centroid => ".centroid",
            InterpLoc::Offset => ".offset",
        }
    }
}

/// `[src]` unless the source is zero.
fn push_opt_bracketed(s: &mut String, src: &Src)
    ensures
        final(s)@ == old(s)@ + opt(!src_is_zero(*src), "["@ + src_text(*src) + "]"@),
{
    reveal(opt);
    if !src.is_zero() {
        s.append("[");
        src.push_text(s);
        s.append("]");
        assert(final(s)@ =~= old(s)@ + ("["@ + src_text(*src) + "]"@));
    } else {
        assert(s@ =~= s@ + Seq::<char>::empty());
    }
}

/// `+src` unless the source is zero.
fn push_opt_plus(s: &mut String, src: &Src)
    ensures
        final(s)@ == old(s)@ + opt(!src_is_zero(*src), "+"@ + src_text(*src)),
{
    reveal(opt);
    if !src.is_zero() {
        s.append("+");
        src.push_text(s);
        assert(final(s)@ =~= old(s)@ + ("+"@ + src_text(*src)));
    } else {
        assert(s@ =~= s@ + Seq::<char>::empty());
    }
}

/// A constant buffer as text.
pub open spec fn cbuf_text(b: CBuf) -> Seq<char> {
    match b {
        CBuf::Binding(idx) => "c["@ + hex_text(idx as nat) + "]"@,
        CBuf::BindlessSSA(v) => "cx["@ + ssa_ref_text(v@) + "]"@,
        CBuf::BindlessUGPR(r) => "cx["@ + reg_text(r) + "]"@,
    }
}

fn push_cbuf(s: &mut String, b: &CBuf)
    ensures
        final(s)@ == old(s)@ + cbuf_text(*b),
{
    match b {
        CBuf::Binding(idx) => {
            s.append("c[");
            push_hex(s, *idx as u32);
            s.append("]");
        },
        CBuf::BindlessSSA(v) => {
            s.append("cx[");
            push_ssa_ref(s, v);
            s.append("]");
        },
        CBuf::BindlessUGPR(r) => {
            s.append("cx[");
            push_reg(s, r);
            s.append("]");
        },
    }
    assert(final(s)@ =~= old(s)@ + cbuf_text(*b));
}

/// The address of a constant buffer load: the buffer, then in brackets the
/// offset source and the fixed offset, each left out when zero.
pub open spec fn ldc_addr_text(o: &OpLdc) -> Seq<char> {
    let cb = o.cb.src_ref->CBuf_0;
    cbuf_text(cb.buf) + "["@ + (if src_is_zero(o.offset) {
        "+"@ + hex_text(cb.offset as nat)
    } else if cb.offset == 0 {
        src_text(o.offset)
    } else {
        src_text(o.offset) + "+"@ + hex_text(cb.offset as nat)
    }) + "]"@
}

fn push_ldc_addr(s: &mut String, o: &OpLdc)
    requires
        o.cb.src_ref is CBuf,
    ensures
        final(s)@ == old(s)@ + ldc_addr_text(o),
{
    match &o.cb.src_ref {
        SrcRef::CBuf(cb) => {
            push_cbuf(s, &cb.buf);
            s.append("[");
            if o.offset.is_zero() {
                s.append("+");
                push_hex(s, cb.offset as u32);
            } else if cb.offset == 0 {
                o.offset.push_text(s);
            } else {
                o.offset.push_text(s);
                s.append("+");
                push_hex(s, cb.offset as u32);
            }
            s.append("]");
        },
        _ => {},
    }
    assert(final(s)@ =~= old(s)@ + ldc_addr_text(o));
}

/// The address of a cache control on one line; nothing for the whole cache.
pub open spec fn cctl_addr_text(o: &OpCCtl) -> Seq<char> {
    opt(!(o.op is IVAll || o.op is IVAllP || o.op is WBAll || o.op is WBAllP),
        " ["@ + src_text(o.addr) + offset_text(o.addr_offset) + "]"@)
}

fn push_cctl_addr(s: &mut String, o: &OpCCtl)
    ensures
        final(s)@ == old(s)@ + cctl_addr_text(o),
{
    reveal(opt);
    if !o.op.is_all() {
        s.append(" [");
        o.addr.push_text(s);
        push_offset(s, o.addr_offset);
        s.append("]");
        assert(final(s)@ =~= old(s)@ + (" ["@ + src_text(o.addr) + offset_text(o.addr_offset) + "]"@));
    } else {
        assert(s@ =~= s@ + Seq::<char>::empty());
    }
}

pub open spec fn bclear_text(o: &OpBClear) -> Seq<char> {
    "bclear"@
}

fn fmt_bclear(o: &OpBClear, s: &mut String)
    ensures
        final(s)@ == old(s)@ + bclear_text(o),
{
    s.append("bclear");
    assert(final(s)@ =~= old(s)@ + bclear_text(o));
}

pub open spec fn bmov_text(o: &OpBMov) -> Seq<char> {
    "bmov.32"@ + opt(o.clear, ".clear"@) + " "@ + src_text(o.src)
}

fn fmt_bmov(o: &OpBMov, s: &mut String)
    ensures
        final(s)@ == old(s)@ + bmov_text(o),
{
    s.append("bmov.32");
    push_opt(s, o.clear, ".clear");
    s.append(" ");
    o.src.push_text(s);
    assert(final(s)@ =~= old(s)@ + bmov_text(o));
}

pub open spec fn break_text(o: &OpBreak) -> Seq<char> {
    "break "@ + src_text(o.bar_in) + " "@ + src_text(o.cond)
}

fn fmt_break(o: &OpBreak, s: &mut String)
    ensures
        final(s)@ == old(s)@ + break_text(o),
{
    s.append("break ");
    o.bar_in.push_text(s);
    s.append(" ");
    o.cond.push_text(s);
    assert(final(s)@ =~= old(s)@ + break_text(o));
}

pub open spec fn bssy_text(o: &OpBSSy) -> Seq<char> {
    "bssy "@ + src_text(o.bar_in) + " "@ + src_text(o.cond) + " L"@ + dec_text(o.target.idx as nat)
}

fn fmt_bssy(o: &OpBSSy, s: &mut String)
    ensures
        final(s)@ == old(s)@ + bssy_text(o),
{
    s.append("bssy ");
    o.bar_in.push_text(s);
    s.append(" ");
    o.cond.push_text(s);
    s.append(" L");
    push_dec(s, o.target.idx as u32);
    assert(final(s)@ =~= old(s)@ + bssy_text(o));
}

pub open spec fn bsync_text(o: &OpBSync) -> Seq<char> {
    "bsync "@ + src_text(o.bar) + " "@ + src_text(o.cond)
}

fn fmt_bsync(o: &OpBSync, s: &mut String)
    ensures
        final(s)@ == old(s)@ + bsync_text(o),
{
    s.append("bsync ");
    o.bar.push_text(s);
    s.append(" ");
    o.cond.push_text(s);
    assert(final(s)@ =~= old(s)@ + bsync_text(o));
}

pub open spec fn ssy_text(o: &OpSSy) -> Seq<char> {
    "ssy L"@ + dec_text(o.target.idx as nat)
}

fn fmt_ssy(o: &OpSSy, s: &mut String)
    ensures
        final(s)@ == old(s)@ + ssy_text(o),
{
    s.append("ssy L");
    push_dec(s, o.target.idx as u32);
    assert(final(s)@ =~= old(s)@ + ssy_text(o));
}

pub open spec fn pbk_text(o: &OpPBk) -> Seq<char> {
    "pbk L"@ + dec_text(o.target.idx as nat)
}

fn fmt_pbk(o: &OpPBk, s: &mut String)
    ensures
        final(s)@ == old(s)@ + pbk_text(o),
{
    s.append("pbk L");
    push_dec(s, o.target.idx as u32);
    assert(final(s)@ =~= old(s)@ + pbk_text(o));
}

pub open spec fn pcnt_text(o: &OpPCnt) -> Seq<char> {
    "pcnt L"@ + dec_text(o.target.idx as nat)
}

fn fmt_pcnt(o: &OpPCnt, s: &mut String)
    ensures
        final(s)@ == old(s)@ + pcnt_text(o),
{
    s.append("pcnt L");
    push_dec(s, o.target.idx as u32);
    assert(final(s)@ =~= old(s)@ + pcnt_text(o));
}

pub open spec fn warpsync_text(o: &OpWarpSync) -> Seq<char> {
    "warpsync "@ + hex_text(o.mask as nat)
}

fn fmt_warpsync(o: &OpWarpSync, s: &mut String)
    ensures
        final(s)@ == old(s)@ + warpsync_text(o),
{
    s.append("warpsync ");
    push_hex(s, o.mask as u32);
    assert(final(s)@ =~= old(s)@ + warpsync_text(o));
}

pub open spec fn bar_text(o: &OpBar) -> Seq<char> {
    "bar.sync"@
}

fn fmt_bar(o: &OpBar, s: &mut String)
    ensures
        final(s)@ == old(s)@ + bar_text(o),
{
    s.append("bar.sync");
    assert(final(s)@ =~= old(s)@ + bar_text(o));
}

pub open spec fn texdepbar_text(o: &OpTexDepBar) -> Seq<char> {
    "texdepbar "@ + dec_text(o.textures_left as nat)
}

fn fmt_texdepbar(o: &OpTexDepBar, s: &mut String)
    ensures
        final(s)@ == old(s)@ + texdepbar_text(o),
{
    s.append("texdepbar ");
    push_dec(s, o.textures_left as u32);
    assert(final(s)@ =~= old(s)@ + texdepbar_text(o));
}

pub open spec fn cs2r_text(o: &OpCS2R) -> Seq<char> {
    "cs2r sr["@ + hex_text(o.idx as nat) + "]"@
}

fn fmt_cs2r(o: &OpCS2R, s: &mut String)
    ensures
        final(s)@ == old(s)@ + cs2r_text(o),
{
    s.append("cs2r sr[");
    push_hex(s, o.idx as u32);
    s.append("]");
    assert(final(s)@ =~= old(s)@ + cs2r_text(o));
}

pub open spec fn isberd_text(o: &OpIsberd) -> Seq<char> {
    "isberd ["@ + src_text(o.idx) + "]"@
}

fn fmt_isberd(o: &OpIsberd, s: &mut String)
    ensures
        final(s)@ == old(s)@ + isberd_text(o),
{
    s.append("isberd [");
    o.idx.push_text(s);
    s.append("]");
    assert(final(s)@ =~= old(s)@ + isberd_text(o));
}

pub open spec fn kill_text(o: &OpKill) -> Seq<char> {
    "kill"@
}

fn fmt_kill(o: &OpKill, s: &mut String)
    ensures
        final(s)@ == old(s)@ + kill_text(o),
{
    s.append("kill");
    assert(final(s)@ =~= old(s)@ + kill_text(o));
}

pub open spec fn pixld_text(o: &OpPixLd) -> Seq<char> {
    "pixld"@ + o.val.spec_suffix()
}

fn fmt_pixld(o: &OpPixLd, s: &mut String)
    ensures
        final(s)@ == old(s)@ + pixld_text(o),
{
    s.append("pixld");
    s.append(o.val.suffix());
    assert(final(s)@ =~= old(s)@ + pixld_text(o));
}

pub open spec fn s2r_text(o: &OpS2R) -> Seq<char> {
    "s2r sr["@ + hex_text(o.idx as nat) + "]"@
}

fn fmt_s2r(o: &OpS2R, s: &mut String)
    ensures
        final(s)@ == old(s)@ + s2r_text(o),
{
    s.append("s2r sr[");
    push_hex(s, o.idx as u32);
    s.append("]");
    assert(final(s)@ =~= old(s)@ + s2r_text(o));
}

pub open spec fn match_text(o: &OpMatch) -> Seq<char> {
    "match"@ + o.op.spec_suffix() + opt(o.u64, ".u64"@) + " "@ + src_text(o.src)
}

fn fmt_match(o: &OpMatch, s: &mut String)
    ensures
        final(s)@ == old(s)@ + match_text(o),
{
    s.append("match");
    s.append(o.op.suffix());
    push_opt(s, o.u64, ".u64");
    s.append(" ");
    o.src.push_text(s);
    assert(final(s)@ =~= old(s)@ + match_text(o));
}

pub open spec fn undef_text(o: &OpUndef) -> Seq<char> {
    "undef "@ + dst_text(o.dst)
}

fn fmt_undef(o: &OpUndef, s: &mut String)
    ensures
        final(s)@ == old(s)@ + undef_text(o),
{
    s.append("undef ");
    o.dst.push_text(s);
    assert(final(s)@ =~= old(s)@ + undef_text(o));
}

pub open spec fn srcbar_text(o: &OpSrcBar) -> Seq<char> {
    "src_bar "@ + src_text(o.src)
}

fn fmt_srcbar(o: &OpSrcBar, s: &mut String)
    ensures
        final(s)@ == old(s)@ + srcbar_text(o),
{
    s.append("src_bar ");
    o.src.push_text(s);
    assert(final(s)@ =~= old(s)@ + srcbar_text(o));
}

impl PixVal {
    pub open spec fn spec_suffix(&self) -> Seq<char> {
        match *self {
            PixVal::MsCount => ".mscount"@,
            PixVal::CovMask => ".covmask"@,
            PixVal::Covered => ".covered"@,
            PixVal::Offset => ".offset"@,
            PixVal::CentroidOffset => ".centroid_offset"@,
            PixVal::MyIndex => ".my_index"@,
            PixVal::InnerCoverage => ".inner_coverage"@,
        }
    }

    pub fn suffix(&self) -> (r: &'static str)
        ensures
            r@ == self.spec_suffix(),
    {
        match self {
            PixVal::MsCount => ".mscount",
            PixVal::CovMask => ".covmask",
            PixVal::Covered => ".covered",
            PixVal::Offset => ".offset",
            PixVal::CentroidOffset => ".centroid_offset",
            PixVal::MyIndex => ".my_index",
            PixVal::InnerCoverage => ".inner_coverage",
        }
    }
}

impl MatchOp {
    pub open spec fn spec_suffix(&self) -> Seq<char> {
        match *self {
            MatchOp::All => ".all"@,
            MatchOp::Any => ".any"@,
        }
    }

    pub fn suffix(&self) -> (r: &'static str)
        ensures
            r@ == self.spec_suffix(),
    {
        match self {
            MatchOp::All => ".all",
            MatchOp::Any => ".any",
        }
    }
}

pub open spec fn hadd2_text(o: &OpHAdd2) -> Seq<char> {
    "hadd2"@ + opt(o.saturate, ".sat"@) + opt(o.out_f32, ".f32"@) + opt(o.ftz, ".ftz"@) + " "@ + src_text(o.srcs[0]) + " "@ + src_text(o.srcs[1])
}

fn fmt_hadd2(o: &OpHAdd2, s: &mut String)
    ensures
        final(s)@ == old(s)@ + hadd2_text(o),
{
    s.append("hadd2");
    push_opt(s, o.saturate, ".sat");
    push_opt(s, o.out_f32, ".f32");
    push_opt(s, o.ftz, ".ftz");
    s.append(" ");
    o.srcs[0].push_text(s);
    s.append(" ");
    o.srcs[1].push_text(s);
    assert(final(s)@ =~= old(s)@ + hadd2_text(o));
}

pub open spec fn hset2_text(o: &OpHSet2) -> Seq<char> {
    "hset2"@ + o.cmp_op.spec_suffix() + opt(o.ftz, ".ftz"@) + opt(!trivial_accum(o.set_op, o.accum), o.set_op.spec_suffix()) + " "@ + src_text(o.srcs[0]) + " "@ + src_text(o.srcs[1]) + opt(!trivial_accum(o.set_op, o.accum), " "@ + src_text(o.accum))
}

fn fmt_hset2(o: &OpHSet2, s: &mut String)
    ensures
        final(s)@ == old(s)@ + hset2_text(o),
{
    let trivial = accum_is_trivial(o.set_op, &o.accum);
    s.append("hset2");
    s.append(o.cmp_op.suffix());
    push_opt(s, o.ftz, ".ftz");
    push_opt(s, !trivial, o.set_op.suffix());
    s.append(" ");
    o.srcs[0].push_text(s);
    s.append(" ");
    o.srcs[1].push_text(s);
    push_opt_src(s, !trivial, &o.accum);
    assert(final(s)@ =~= old(s)@ + hset2_text(o));
}

pub open spec fn hsetp2_text(o: &OpHSetP2) -> Seq<char> {
    "hsetp2"@ + o.cmp_op.spec_suffix() + opt(o.ftz, ".ftz"@) + opt(!trivial_accum(o.set_op, o.accum), o.set_op.spec_suffix()) + " "@ + src_text(o.srcs[0]) + " "@ + src_text(o.srcs[1]) + opt(!trivial_accum(o.set_op, o.accum), " "@ + src_text(o.accum))
}

fn fmt_hsetp2(o: &OpHSetP2, s: &mut String)
    ensures
        final(s)@ == old(s)@ + hsetp2_text(o),
{
    let trivial = accum_is_trivial(o.set_op, &o.accum);
    s.append("hsetp2");
    s.append(o.cmp_op.suffix());
    push_opt(s, o.ftz, ".ftz");
    push_opt(s, !trivial, o.set_op.suffix());
    s.append(" ");
    o.srcs[0].push_text(s);
    s.append(" ");
    o.srcs[1].push_text(s);
    push_opt_src(s, !trivial, &o.accum);
    assert(final(s)@ =~= old(s)@ + hsetp2_text(o));
}

pub open spec fn hmul2_text(o: &OpHMul2) -> Seq<char> {
    "hmul2"@ + opt(o.saturate, ".sat"@) + dnz_ftz_text(o.dnz, o.ftz) + " "@ + src_text(o.srcs[0]) + " "@ + src_text(o.srcs[1])
}

fn fmt_hmul2(o: &OpHMul2, s: &mut String)
    ensures
        final(s)@ == old(s)@ + hmul2_text(o),
{
    s.append("hmul2");
    push_opt(s, o.saturate, ".sat");
    push_dnz_ftz(s, o.dnz, o.ftz);
    s.append(" ");
    o.srcs[0].push_text(s);
    s.append(" ");
    o.srcs[1].push_text(s);
    assert(final(s)@ =~= old(s)@ + hmul2_text(o));
}

pub open spec fn hfma2_text(o: &OpHFma2) -> Seq<char> {
    "hfma2"@ + opt(o.saturate, ".sat"@) + opt(o.out_f32, ".f32"@) + dnz_ftz_text(o.dnz, o.ftz) + " "@ + src_text(o.srcs[0]) + " "@ + src_text(o.srcs[1]) + " "@ + src_text(o.srcs[2])
}

fn fmt_hfma2(o: &OpHFma2, s: &mut String)
    ensures
        final(s)@ == old(s)@ + hfma2_text(o),
{
    s.append("hfma2");
    push_opt(s, o.saturate, ".sat");
    push_opt(s, o.out_f32, ".f32");
    push_dnz_ftz(s, o.dnz, o.ftz);
    s.append(" ");
    o.srcs[0].push_text(s);
    s.append(" ");
    o.srcs[1].push_text(s);
    s.append(" ");
    o.srcs[2].push_text(s);
    assert(final(s)@ =~= old(s)@ + hfma2_text(o));
}

pub open spec fn hmnmx2_text(o: &OpHMnMx2) -> Seq<char> {
    "hmnmx2"@ + opt(o.ftz, ".ftz"@) + " "@ + src_text(o.srcs[0]) + " "@ + src_text(o.srcs[1]) + " "@ + src_text(o.min)
}

fn fmt_hmnmx2(o: &OpHMnMx2, s: &mut String)
    ensures
        final(s)@ == old(s)@ + hmnmx2_text(o),
{
    s.append("hmnmx2");
    push_opt(s, o.ftz, ".ftz");
    s.append(" ");
    o.srcs[0].push_text(s);
    s.append(" ");
    o.srcs[1].push_text(s);
    s.append(" ");
    o.min.push_text(s);
    assert(final(s)@ =~= old(s)@ + hmnmx2_text(o));
}

pub open spec fn imma_text(o: &OpImma) -> Seq<char> {
    "imma"@ + o.mat_size.spec_suffix() + o.src_types[0].spec_suffix() + o.src_types[1].spec_suffix() + opt(o.saturate, ".sat"@) + " "@ + src_text(o.srcs[0]) + " "@ + src_text(o.srcs[1]) + " "@ + src_text(o.srcs[2])
}

fn fmt_imma(o: &OpImma, s: &mut String)
    ensures
        final(s)@ == old(s)@ + imma_text(o),
{
    s.append("imma");
    s.append(o.mat_size.suffix());
    s.append(o.src_types[0].suffix());
    s.append(o.src_types[1].suffix());
    push_opt(s, o.saturate, ".sat");
    s.append(" ");
    o.srcs[0].push_text(s);
    s.append(" ");
    o.srcs[1].push_text(s);
    s.append(" ");
    o.srcs[2].push_text(s);
    assert(final(s)@ =~= old(s)@ + imma_text(o));
}

pub open spec fn hmma_text(o: &OpHmma) -> Seq<char> {
    "hmma"@ + o.mat_size.spec_suffix() + o.dst_type.spec_suffix() + " "@ + src_text(o.srcs[0]) + " "@ + src_text(o.srcs[1]) + " "@ + src_text(o.srcs[2])
}

fn fmt_hmma(o: &OpHmma, s: &mut String)
    ensures
        final(s)@ == old(s)@ + hmma_text(o),
{
    s.append("hmma");
    s.append(o.mat_size.suffix());
    s.append(o.dst_type.suffix());
    s.append(" ");
    o.srcs[0].push_text(s);
    s.append(" ");
    o.srcs[1].push_text(s);
    s.append(" ");
    o.srcs[2].push_text(s);
    assert(final(s)@ =~= old(s)@ + hmma_text(o));
}

impl ImmaSize {
    pub open spec fn spec_suffix(&self) -> Seq<char> {
        match *self {
            ImmaSize::M8N8K16 => ".m8n8k16"@,
            ImmaSize::M8N8K32 => ".m8n8k32"@,
            ImmaSize::M16N8K16 => ".m16n8k16"@,
            ImmaSize::M16N8K32 => ".m16n8k32"@,
            ImmaSize::M16N8K64 => ".m16n8k64"@,
        }
    }

    pub fn suffix(&self) -> (r: &'static str)
        ensures
            r@ == self.spec_suffix(),
    {
        match self {
            ImmaSize::M8N8K16 => ".m8n8k16",
            ImmaSize::M8N8K32 => ".m8n8k32",
            ImmaSize::M16N8K16 => ".m16n8k16",
            ImmaSize::M16N8K32 => ".m16n8k32",
            ImmaSize::M16N8K64 => ".m16n8k64",
        }
    }
}

impl HmmaSize {
    pub open spec fn spec_suffix(&self) -> Seq<char> {
        match *self {
            HmmaSize::M16N8K16 => ".m16n8k16"@,
            HmmaSize::M16N8K8 => ".m16n8k8"@,
            HmmaSize::M16N8K4 => ".m16n8k4"@,
        }
    }

    pub fn suffix(&self) -> (r: &'static str)
        ensures
            r@ == self.spec_suffix(),
    {
        match self {
            HmmaSize::M16N8K16 => ".m16n8k16",
            HmmaSize::M16N8K8 => ".m16n8k8",
            HmmaSize::M16N8K4 => ".m16n8k4",
        }
    }
}

pub open spec fn copy_text(o: &OpCopy) -> Seq<char> {
    "copy "@ + src_text(o.src)
}

fn fmt_copy(o: &OpCopy, s: &mut String)
    ensures
        final(s)@ == old(s)@ + copy_text(o),
{
    s.append("copy ");
    o.src.push_text(s);
    assert(final(s)@ =~= old(s)@ + copy_text(o));
}

pub open spec fn pin_text(o: &OpPin) -> Seq<char> {
    "pin "@ + src_text(o.src)
}

fn fmt_pin(o: &OpPin, s: &mut String)
    ensures
        final(s)@ == old(s)@ + pin_text(o),
{
    s.append("pin ");
    o.src.push_text(s);
    assert(final(s)@ =~= old(s)@ + pin_text(o));
}

pub open spec fn unpin_text(o: &OpUnpin) -> Seq<char> {
    "unpin "@ + src_text(o.src)
}

fn fmt_unpin(o: &OpUnpin, s: &mut String)
    ensures
        final(s)@ == old(s)@ + unpin_text(o),
{
    s.append("unpin ");
    o.src.push_text(s);
    assert(final(s)@ =~= old(s)@ + unpin_text(o));
}

pub open spec fn swap_text(o: &OpSwap) -> Seq<char> {
    "swap "@ + src_text(o.srcs[0]) + " "@ + src_text(o.srcs[1])
}

fn fmt_swap(o: &OpSwap, s: &mut String)
    ensures
        final(s)@ == old(s)@ + swap_text(o),
{
    s.append("swap ");
    o.srcs[0].push_text(s);
    s.append(" ");
    o.srcs[1].push_text(s);
    assert(final(s)@ =~= old(s)@ + swap_text(o));
}

pub open spec fn out_text(o: &OpOut) -> Seq<char> {
    "out."@ + o.out_type.spec_name() + " "@ + src_text(o.handle) + " "@ + src_text(o.stream)
}

fn fmt_out(o: &OpOut, s: &mut String)
    ensures
        final(s)@ == old(s)@ + out_text(o),
{
    s.append("out.");
    s.append(o.out_type.name());
    s.append(" ");
    o.handle.push_text(s);
    s.append(" ");
    o.stream.push_text(s);
    assert(final(s)@ =~= old(s)@ + out_text(o));
}

pub open spec fn outfinal_text(o: &OpOutFinal) -> Seq<char> {
    "out.final { "@ + src_text(o.handle) + " }"@
}

fn fmt_outfinal(o: &OpOutFinal, s: &mut String)
    ensures
        final(s)@ == old(s)@ + outfinal_text(o),
{
    s.append("out.final { ");
    o.handle.push_text(s);
    s.append(" }");
    assert(final(s)@ =~= old(s)@ + outfinal_text(o));
}

impl OutType {
    pub open spec fn spec_name(&self) -> Seq<char> {
        match *self {
            OutType::Emit => "emit"@,
            OutType::Cut => "cut"@,
            OutType::EmitThenCut => "emit_then_cut"@,
        }
    }

    pub fn name(&self) -> (r: &'static str)
        ensures
            r@ == self.spec_name(),
    {
        match self {
            OutType::Emit => "emit",
            OutType::Cut => "cut",
            OutType::EmitThenCut => "emit_then_cut",
        }
    }
}

pub open spec fn plop3_text(o: &OpPLop3) -> Seq<char> {
    "plop3 "@ + src_text(o.srcs[0]) + " "@ + src_text(o.srcs[1]) + " "@ + src_text(o.srcs[2]) + " LUT["@ + hex_text(o.ops[0].lut as nat) + "] LUT["@ + hex_text(o.ops[1].lut as nat) + "]"@
}

fn fmt_plop3(o: &OpPLop3, s: &mut String)
    ensures
        final(s)@ == old(s)@ + plop3_text(o),
{
    s.append("plop3 ");
    o.srcs[0].push_text(s);
    s.append(" ");
    o.srcs[1].push_text(s);
    s.append(" ");
    o.srcs[2].push_text(s);
    s.append(" LUT[");
    push_hex(s, o.ops[0].lut as u32);
    s.append("] LUT[");
    push_hex(s, o.ops[1].lut as u32);
    s.append("]");
    assert(final(s)@ =~= old(s)@ + plop3_text(o));
}

pub open spec fn vote_text(o: &OpVote) -> Seq<char> {
    "vote."@ + o.op.spec_name() + " "@ + src_text(o.pred)
}

fn fmt_vote(o: &OpVote, s: &mut String)
    ensures
        final(s)@ == old(s)@ + vote_text(o),
{
    s.append("vote.");
    s.append(o.op.name());
    s.append(" ");
    o.pred.push_text(s);
    assert(final(s)@ =~= old(s)@ + vote_text(o));
}

pub open spec fn vild_text(o: &OpViLd) -> Seq<char> {
    "vild v["@ + vild_addr_text(o) + "]"@
}

fn fmt_vild(o: &OpViLd, s: &mut String)
    ensures
        final(s)@ == old(s)@ + vild_text(o),
{
    s.append("vild v[");
    push_vild_addr(s, o);
    s.append("]");
    assert(final(s)@ =~= old(s)@ + vild_text(o));
}

impl VoteOp {
    pub open spec fn spec_name(&self) -> Seq<char> {
        match *self {
            VoteOp::Any => "any"@,
            VoteOp::All => "all"@,
            VoteOp::Eq => "eq"@,
        }
    }

    pub fn name(&self) -> (r: &'static str)
        ensures
            r@ == self.spec_name(),
    {
        match self {
            VoteOp::Any => "any",
            VoteOp::All => "all",
            VoteOp::Eq => "eq",
        }
    }
}

/// A signed number in decimal, with a `+` before a non-negative one when
/// `plus` is set.
pub open spec fn signed_text(x: i8, plus: bool) -> Seq<char> {
    if x < 0 { "-"@ + dec_text((-(x as int)) as nat) } else { opt(plus, "+"@) + dec_text(x as nat) }
}

fn push_signed(s: &mut String, x: i8, plus: bool)
    ensures
        final(s)@ == old(s)@ + signed_text(x, plus),
{
    if x < 0 {
        s.append("-");
        let m: u32 = (0 - (x as i32)) as u32;
        push_dec(s, m);
    } else {
        push_opt(s, plus, "+");
        push_dec(s, x as u32);
    }
    assert(final(s)@ =~= old(s)@ + signed_text(x, plus));
}

/// The vertex index address: the index source and a signed offset unless
/// it is zero, or only the offset when the index is zero.
pub open spec fn vild_addr_text(o: &OpViLd) -> Seq<char> {
    if !src_is_zero(o.idx) {
        src_text(o.idx) + opt(o.off != 0, signed_text(o.off, true))
    } else {
        signed_text(o.off, false)
    }
}

fn push_vild_addr(s: &mut String, o: &OpViLd)
    ensures
        final(s)@ == old(s)@ + vild_addr_text(o),
{
    reveal(opt);
    if !o.idx.is_zero() {
        o.idx.push_text(s);
        if o.off != 0 {
            push_signed(s, o.off, true);
        }
        assert(final(s)@ =~= old(s)@ + vild_addr_text(o));
    } else {
        push_signed(s, o.off, false);
    }
}

/// The destinations of a vote: `none` when both are discarded, else the
/// present ones with nothing between them.
pub open spec fn vote_dsts_text(o: &OpVote) -> Seq<char> {
    if o.ballot is Null && o.vote is Null {
        "none"@
    } else {
        opt(!(o.ballot is Null), dst_text(o.ballot)) + opt(!(o.vote is Null), dst_text(o.vote))
    }
}

fn push_vote_dsts(s: &mut String, o: &OpVote)
    ensures
        final(s)@ == old(s)@ + vote_dsts_text(o),
{
    reveal(opt);
    if o.ballot.is_none() && o.vote.is_none() {
        s.append("none");
    } else {
        let ghost t0 = s@;
        if !o.ballot.is_none() {
            o.ballot.push_text(s);
        }
        let ghost t1 = s@;
        assert(t1 =~= t0 + opt(!(o.ballot is Null), dst_text(o.ballot)));
        if !o.vote.is_none() {
            o.vote.push_text(s);
        }
        assert(s@ =~= t1 + opt(!(o.vote is Null), dst_text(o.vote)));
    }
    assert(final(s)@ =~= old(s)@ + vote_dsts_text(o));
}

/// ` dst = src` for each pair, separated by `,`.
pub open spec fn par_copy_list(dsts: Seq<Dst>, srcs: Seq<Src>) -> Seq<char>
    decreases dsts.len(),
{
    if dsts.len() == 0 || srcs.len() < dsts.len() {
        Seq::empty()
    } else if dsts.len() == 1 {
        " "@ + dst_text(dsts[0]) + " = "@ + src_text(srcs[0])
    } else {
        par_copy_list(dsts.drop_last(), srcs.take(dsts.len() - 1)) + ", "@ + dst_text(dsts.last()) + " = "@
            + src_text(srcs[dsts.len() - 1])
    }
}

fn push_par_copy(s: &mut String, o: &OpParCopy)
    requires
        o.dsts_srcs.wf(),
    ensures
        final(s)@ == old(s)@ + par_copy_list(o.dsts_srcs.firsts(), o.dsts_srcs.seconds()),
{
    let n = o.dsts_srcs.len();
    let ghost start = s@;
    let mut i: usize = 0;
    while i < n
        invariant
            o.dsts_srcs.wf(),
            n == o.dsts_srcs.firsts().len(),
            n == o.dsts_srcs.seconds().len(),
            i <= n,
            s@ == start + par_copy_list(o.dsts_srcs.firsts().take(i as int), o.dsts_srcs.seconds().take(i as int)),
        decreases n - i,
    {
        let (dst, src) = o.dsts_srcs.get(i);
        if i > 0 {
            s.append(", ");
        } else {
            s.append(" ");
        }
        dst.push_text(s);
        s.append(" = ");
        src.push_text(s);
        proof {
            assert(o.dsts_srcs.firsts().take(i + 1).drop_last() =~= o.dsts_srcs.firsts().take(i as int));
            assert(o.dsts_srcs.seconds().take(i + 1).take(i as int) =~= o.dsts_srcs.seconds().take(i as int));
        }
        i = i + 1;
        assert(s@ =~= start + par_copy_list(o.dsts_srcs.firsts().take(i as int), o.dsts_srcs.seconds().take(i as int)));
    }
    assert(o.dsts_srcs.firsts().take(n as int) =~= o.dsts_srcs.firsts());
    assert(o.dsts_srcs.seconds().take(n as int) =~= o.dsts_srcs.seconds());
}

/// ` src` for each source, separated by `,`.
pub open spec fn reg_out_list(srcs: Seq<Src>) -> Seq<char>
    decreases srcs.len(),
{
    if srcs.len() == 0 {
        Seq::empty()
    } else if srcs.len() == 1 {
        " "@ + src_text(srcs[0])
    } else {
        reg_out_list(srcs.drop_last()) + ", "@ + src_text(srcs.last())
    }
}

fn push_reg_out(s: &mut String, o: &OpRegOut)
    ensures
        final(s)@ == old(s)@ + reg_out_list(o.srcs@),
{
    let n = o.srcs.len();
    let ghost start = s@;
    let mut i: usize = 0;
    while i < n
        invariant
            n == o.srcs@.len(),
            i <= n,
            s@ == start + reg_out_list(o.srcs@.take(i as int)),
        decreases n - i,
    {
        if i > 0 {
            s.append(", ");
        } else {
            s.append(" ");
        }
        o.srcs[i].push_text(s);
        proof {
            assert(o.srcs@.take(i + 1).drop_last() =~= o.srcs@.take(i as int));
        }
        i = i + 1;
        assert(s@ =~= start + reg_out_list(o.srcs@.take(i as int)));
    }
    assert(o.srcs@.take(n as int) =~= o.srcs@);
}

/// The text of an operation, without its destinations.
pub open spec fn op_text(op: &Op) -> Seq<char> {
    match op {
        Op::ParCopy(o) => "par_copy"@ + par_copy_list(o.dsts_srcs.firsts(), o.dsts_srcs.seconds()),
        Op::RegOut(o) => "reg_out {"@ + reg_out_list(o.srcs@) + " }"@,
        Op::PLop3(o) => plop3_text(o),
        Op::Vote(o) => vote_text(o),
        Op::ViLd(o) => vild_text(o),
        Op::Copy(o) => copy_text(o),
        Op::Pin(o) => pin_text(o),
        Op::Unpin(o) => unpin_text(o),
        Op::Swap(o) => swap_text(o),
        Op::Out(o) => out_text(o),
        Op::OutFinal(o) => outfinal_text(o),
        Op::HAdd2(o) => hadd2_text(o),
        Op::HSet2(o) => hset2_text(o),
        Op::HSetP2(o) => hsetp2_text(o),
        Op::HMul2(o) => hmul2_text(o),
        Op::HFma2(o) => hfma2_text(o),
        Op::HMnMx2(o) => hmnmx2_text(o),
        Op::Imma(o) => imma_text(o),
        Op::Hmma(o) => hmma_text(o),
        Op::BClear(o) => bclear_text(o),
        Op::BMov(o) => bmov_text(o),
        Op::Break(o) => break_text(o),
        Op::BSSy(o) => bssy_text(o),
        Op::BSync(o) => bsync_text(o),
        Op::SSy(o) => ssy_text(o),
        Op::PBk(o) => pbk_text(o),
        Op::PCnt(o) => pcnt_text(o),
        Op::WarpSync(o) => warpsync_text(o),
        Op::Bar(o) => bar_text(o),
        Op::TexDepBar(o) => texdepbar_text(o),
        Op::CS2R(o) => cs2r_text(o),
        Op::Isberd(o) => isberd_text(o),
        Op::Kill(o) => kill_text(o),
        Op::PixLd(o) => pixld_text(o),
        Op::S2R(o) => s2r_text(o),
        Op::Match(o) => match_text(o),
        Op::Undef(o) => undef_text(o),
        Op::SrcBar(o) => srcbar_text(o),
        Op::Ldc(o) => ldc_text(o),
        Op::LdSharedLock(o) => ldsharedlock_text(o),
        Op::StSCheckUnlock(o) => stscheckunlock_text(o),
        Op::AL2P(o) => al2p_text(o),
        Op::ALd(o) => ald_text(o),
        Op::ASt(o) => ast_text(o),
        Op::Ipa(o) => ipa_text(o),
        Op::LdTram(o) => ldtram_text(o),
        Op::CCtl(o) => cctl_text(o),
        Op::MemBar(o) => membar_text(o),
        Op::SuLd(o) => suld_text(o),
        Op::SuSt(o) => sust_text(o),
        Op::SuAtom(o) => suatom_text(o),
        Op::SuLdGa(o) => suldga_text(o),
        Op::SuStGa(o) => sustga_text(o),
        Op::Tex(o) => tex_text(o),
        Op::Tld(o) => tld_text(o),
        Op::Tld4(o) => tld4_text(o),
        Op::Tmml(o) => tmml_text(o),
        Op::Txd(o) => txd_text(o),
        Op::Txq(o) => txq_text(o),
        Op::FSwzAdd(o) => fswzadd_text(o),
        Op::FSwz(o) => fswz_text(o),
        Op::Rro(o) => rro_text(o),
        Op::MuFu(o) => mufu_text(o),
        Op::IDp4(o) => idp4_text(o),
        Op::Shfl(o) => shfl_text(o),
        Op::R2UR(o) => r2ur_text(o),
        Op::Redux(o) => redux_text(o),
        Op::F2F(o) => f2f_text(o),
        Op::F2FP(o) => f2fp_text(o),
        Op::F2I(o) => f2i_text(o),
        Op::I2F(o) => i2f_text(o),
        Op::I2I(o) => i2i_text(o),
        Op::FRnd(o) => frnd_text(o),
        Op::FAdd(o) => fadd_text(o),
        Op::FFma(o) => ffma_text(o),
        Op::FMnMx(o) => fmnmx_text(o),
        Op::FMul(o) => fmul_text(o),
        Op::FSet(o) => fset_text(o),
        Op::FSetP(o) => fsetp_text(o),
        Op::DAdd(o) => dadd_text(o),
        Op::DMul(o) => dmul_text(o),
        Op::DFma(o) => dfma_text(o),
        Op::DMnMx(o) => dmnmx_text(o),
        Op::DSetP(o) => dsetp_text(o),
        Op::IMad(o) => imad_text(o),
        Op::IMul(o) => imul_text(o),
        Op::IMad64(o) => imad64_text(o),
        Op::Mov(o) => mov_text(o),
        Op::Sel(o) => sel_text(o),
        Op::BMsk(o) => bmsk_text(o),
        Op::BRev(o) => brev_text(o),
        Op::Bfe(o) => bfe_text(o),
        Op::Ld(o) => ld_text(o),
        Op::St(o) => st_text(o),
        Op::Atom(o) => atom_text(o),
        Op::Annotate(o) => "// "@ + o.annotation@,
        Op::Nop(o) => "nop"@ + (match o.label { Some(l) => " L"@ + dec_text(l.idx as nat), None => Seq::empty() }),
        Op::PhiSrcs(o) => "phi_src "@ + phi_src_list(o.srcs.firsts(), o.srcs.seconds()),
        Op::PhiDsts(o) => "phi_dst "@ + phi_dst_list(o.dsts.firsts(), o.dsts.seconds()),
        Op::Flo(o) => flo_text(o),
        Op::IAbs(o) => iabs_text(o),
        Op::IAdd2(o) => iadd2_text(o),
        Op::IAdd2X(o) => iadd2x_text(o),
        Op::IAdd3(o) => iadd3_text(o),
        Op::IAdd3X(o) => iadd3x_text(o),
        Op::IMnMx(o) => imnmx_text(o),
        Op::ISetP(o) => isetp_text(o),
        Op::Lea(o) => lea_text(o),
        Op::LeaX(o) => leax_text(o),
        Op::Lop2(o) => lop2_text(o),
        Op::Lop3(o) => lop3_text(o),
        Op::Shf(o) => shf_text(o),
        Op::Shl(o) => shl_text(o),
        Op::Shr(o) => shr_text(o),
        Op::Prmt(o) => prmt_text(o),
        Op::PSetP(o) => psetp_text(o),
        Op::PopC(o) => popc_text(o),
        Op::SuClamp(o) => suclamp_text(o),
        Op::SuBfm(o) => subfm_text(o),
        Op::SuEau(o) => sueau_text(o),
        Op::IMadSp(o) => imadsp_text(o),
        Op::Bra(o) => bra_text(o),
        Op::Sync(o) => sync_text(o),
        Op::Brk(o) => brk_text(o),
        Op::Cont(o) => cont_text(o),
        Op::Exit(_) => "exit"@,
    }
}

impl Op {
    /// Appends the operation's text, without its destinations.
    pub fn fmt_op(&self, s: &mut String)
        requires
            op_wf(self),
        ensures
            final(s)@ == old(s)@ + op_text(self),
    {
        match self {
            Op::ParCopy(o) => {
                s.append("par_copy");
                push_par_copy(s, o);
                assert(final(s)@ =~= old(s)@ + op_text(self));
            },
            Op::RegOut(o) => {
                s.append("reg_out {");
                push_reg_out(s, o);
                s.append(" }");
                assert(final(s)@ =~= old(s)@ + op_text(self));
            },
            Op::PLop3(o) => fmt_plop3(o, s),
            Op::Vote(o) => fmt_vote(o, s),
            Op::ViLd(o) => fmt_vild(o, s),
            Op::Copy(o) => fmt_copy(o, s),
            Op::Pin(o) => fmt_pin(o, s),
            Op::Unpin(o) => fmt_unpin(o, s),
            Op::Swap(o) => fmt_swap(o, s),
            Op::Out(o) => fmt_out(o, s),
            Op::OutFinal(o) => fmt_outfinal(o, s),
            Op::HAdd2(o) => fmt_hadd2(o, s),
            Op::HSet2(o) => fmt_hset2(o, s),
            Op::HSetP2(o) => fmt_hsetp2(o, s),
            Op::HMul2(o) => fmt_hmul2(o, s),
            Op::HFma2(o) => fmt_hfma2(o, s),
            Op::HMnMx2(o) => fmt_hmnmx2(o, s),
            Op::Imma(o) => fmt_imma(o, s),
            Op::Hmma(o) => fmt_hmma(o, s),
            Op::BClear(o) => fmt_bclear(o, s),
            Op::BMov(o) => fmt_bmov(o, s),
            Op::Break(o) => fmt_break(o, s),
            Op::BSSy(o) => fmt_bssy(o, s),
            Op::BSync(o) => fmt_bsync(o, s),
            Op::SSy(o) => fmt_ssy(o, s),
            Op::PBk(o) => fmt_pbk(o, s),
            Op::PCnt(o) => fmt_pcnt(o, s),
            Op::WarpSync(o) => fmt_warpsync(o, s),
            Op::Bar(o) => fmt_bar(o, s),
            Op::TexDepBar(o) => fmt_texdepbar(o, s),
            Op::CS2R(o) => fmt_cs2r(o, s),
            Op::Isberd(o) => fmt_isberd(o, s),
            Op::Kill(o) => fmt_kill(o, s),
            Op::PixLd(o) => fmt_pixld(o, s),
            Op::S2R(o) => fmt_s2r(o, s),
            Op::Match(o) => fmt_match(o, s),
            Op::Undef(o) => fmt_undef(o, s),
            Op::SrcBar(o) => fmt_srcbar(o, s),
            Op::Ldc(o) => fmt_ldc(o, s),
            Op::LdSharedLock(o) => fmt_ldsharedlock(o, s),
            Op::StSCheckUnlock(o) => fmt_stscheckunlock(o, s),
            Op::AL2P(o) => fmt_al2p(o, s),
            Op::ALd(o) => fmt_ald(o, s),
            Op::ASt(o) => fmt_ast(o, s),
            Op::Ipa(o) => fmt_ipa(o, s),
            Op::LdTram(o) => fmt_ldtram(o, s),
            Op::CCtl(o) => fmt_cctl(o, s),
            Op::MemBar(o) => fmt_membar(o, s),
            Op::SuLd(o) => fmt_suld(o, s),
            Op::SuSt(o) => fmt_sust(o, s),
            Op::SuAtom(o) => fmt_suatom(o, s),
            Op::SuLdGa(o) => fmt_suldga(o, s),
            Op::SuStGa(o) => fmt_sustga(o, s),
            Op::Tex(o) => fmt_tex(o, s),
            Op::Tld(o) => fmt_tld(o, s),
            Op::Tld4(o) => fmt_tld4(o, s),
            Op::Tmml(o) => fmt_tmml(o, s),
            Op::Txd(o) => fmt_txd(o, s),
            Op::Txq(o) => fmt_txq(o, s),
            Op::FSwzAdd(o) => fmt_fswzadd(o, s),
            Op::FSwz(o) => fmt_fswz(o, s),
            Op::Rro(o) => fmt_rro(o, s),
            Op::MuFu(o) => fmt_mufu(o, s),
            Op::IDp4(o) => fmt_idp4(o, s),
            Op::Shfl(o) => fmt_shfl(o, s),
            Op::R2UR(o) => fmt_r2ur(o, s),
            Op::Redux(o) => fmt_redux(o, s),
            Op::F2F(o) => fmt_f2f(o, s),
            Op::F2FP(o) => fmt_f2fp(o, s),
            Op::F2I(o) => fmt_f2i(o, s),
            Op::I2F(o) => fmt_i2f(o, s),
            Op::I2I(o) => fmt_i2i(o, s),
            Op::FRnd(o) => fmt_frnd(o, s),
            Op::FAdd(o) => fmt_fadd(o, s),
            Op::FFma(o) => fmt_ffma(o, s),
            Op::FMnMx(o) => fmt_fmnmx(o, s),
            Op::FMul(o) => fmt_fmul(o, s),
            Op::FSet(o) => fmt_fset(o, s),
            Op::FSetP(o) => fmt_fsetp(o, s),
            Op::DAdd(o) => fmt_dadd(o, s),
            Op::DMul(o) => fmt_dmul(o, s),
            Op::DFma(o) => fmt_dfma(o, s),
            Op::DMnMx(o) => fmt_dmnmx(o, s),
            Op::DSetP(o) => fmt_dsetp(o, s),
            Op::IMad(o) => fmt_imad(o, s),
            Op::IMul(o) => fmt_imul(o, s),
            Op::IMad64(o) => fmt_imad64(o, s),
            Op::Mov(o) => fmt_mov(o, s),
            Op::Sel(o) => fmt_sel(o, s),
            Op::BMsk(o) => fmt_bmsk(o, s),
            Op::BRev(o) => fmt_brev(o, s),
            Op::Bfe(o) => fmt_bfe(o, s),
            Op::Ld(o) => fmt_ld(o, s),
            Op::St(o) => fmt_st(o, s),
            Op::Atom(o) => fmt_atom(o, s),
            Op::Annotate(o) => {
                s.append("// ");
                s.append(o.annotation.as_str());
                assert(final(s)@ =~= old(s)@ + op_text(self));
            },
            Op::Nop(o) => {
                s.append("nop");
                match o.label {
                    Some(l) => {
                        s.append(" L");
                        push_dec(s, l.idx);
                    },
                    None => {},
                }
                assert(final(s)@ =~= old(s)@ + op_text(self));
            },
            Op::PhiSrcs(o) => {
                s.append("phi_src ");
                push_phi_srcs(s, o);
                assert(final(s)@ =~= old(s)@ + op_text(self));
            },
            Op::PhiDsts(o) => {
                s.append("phi_dst ");
                push_phi_dsts(s, o);
                assert(final(s)@ =~= old(s)@ + op_text(self));
            },
            Op::Flo(o) => fmt_flo(o, s),
            Op::IAbs(o) => fmt_iabs(o, s),
            Op::IAdd2(o) => fmt_iadd2(o, s),
            Op::IAdd2X(o) => fmt_iadd2x(o, s),
            Op::IAdd3(o) => fmt_iadd3(o, s),
            Op::IAdd3X(o) => fmt_iadd3x(o, s),
            Op::IMnMx(o) => fmt_imnmx(o, s),
            Op::ISetP(o) => fmt_isetp(o, s),
            Op::Lea(o) => fmt_lea(o, s),
            Op::LeaX(o) => fmt_leax(o, s),
            Op::Lop2(o) => fmt_lop2(o, s),
            Op::Lop3(o) => fmt_lop3(o, s),
            Op::Shf(o) => fmt_shf(o, s),
            Op::Shl(o) => fmt_shl(o, s),
            Op::Shr(o) => fmt_shr(o, s),
            Op::Prmt(o) => fmt_prmt(o, s),
            Op::PSetP(o) => fmt_psetp(o, s),
            Op::PopC(o) => fmt_popc(o, s),
            Op::SuClamp(o) => fmt_suclamp(o, s),
            Op::SuBfm(o) => fmt_subfm(o, s),
            Op::SuEau(o) => fmt_sueau(o, s),
            Op::IMadSp(o) => fmt_imadsp(o, s),
            Op::Bra(o) => fmt_bra(o, s),
            Op::Sync(o) => fmt_sync(o, s),
            Op::Brk(o) => fmt_brk(o, s),
            Op::Cont(o) => fmt_cont(o, s),
            Op::Exit(_) => s.append("exit"),
        }
    }
}


/// The destinations that an operation prints: its destination slots, but
/// none for phi destinations, which print inside the operation.
pub open spec fn printed_dsts(op: &Op) -> Seq<Dst> {
    if op is PhiDsts || op is ParCopy { Seq::empty() } else { op_dsts(op) }
}

/// An operation as text: its destinations and ` = ` when it has any, then
/// the operation.
pub open spec fn op_display_text(op: &Op) -> Seq<char> {
    dsts_part(op) + op_text(op)
}

/// The destinations and ` = `; a predicate logic operation always shows
/// both destinations and a vote shows its own way.
pub open spec fn dsts_part(op: &Op) -> Seq<char> {
    match op {
        Op::PLop3(o) => dst_text(o.dsts[0]) + " "@ + dst_text(o.dsts[1]) + " = "@,
        Op::Vote(o) => vote_dsts_text(o) + " = "@,
        _ => opt(printed_dsts(op).len() > 0, dst_slice_text(printed_dsts(op)) + " = "@),
    }
}




impl Op {
    /// Appends the text of the operation's destinations.
    pub fn fmt_dsts(&self, s: &mut String)
        requires
            op_wf(self),
        ensures
            final(s)@ == old(s)@ + dst_slice_text(printed_dsts(self)),
    {
        match self {
            Op::PhiDsts(_) | Op::ParCopy(_) => {
                assert(s@ =~= s@ + dst_slice_text(printed_dsts(self)));
                return;
            },
            _ => {},
        }
        let ghost dsts = op_dsts(self);
        assert(printed_dsts(self) == dsts);
        let n = self.num_dsts();
        if n == 0 {
            assert(s@ =~= s@ + dst_slice_text(dsts));
            return;
        }
        let mut last_dst: usize = 0;
        let mut k: usize = 0;
        while k < n
            invariant
                k <= n,
                n == dsts.len(),
                dsts == op_dsts(self),
                slots_wf(self),
                last_dst as int == last_present(dsts, k as int),
            decreases n - k,
        {
            match self.dst(k) {
                Some(d) => {
                    if !d.is_none() {
                        last_dst = k;
                    }
                },
                None => {},
            }
            k = k + 1;
        }
        proof {
            lemma_last_present_bound(dsts, n as int);
        }
        let ghost start = s@;
        let end = last_dst + 1;
        let mut i: usize = 0;
        while i < end
            invariant
                last_dst < n,
                n == dsts.len(),
                dsts == op_dsts(self),
                slots_wf(self),
                end == last_dst + 1,
                i <= end,
                s@ == start + joined_dsts(dsts.take(i as int)),
            decreases end - i,
        {
            if i != 0 {
                s.append(" ");
            }
            match self.dst(i) {
                Some(d) => d.push_text(s),
                None => {},
            }
            proof {
                assert(dsts.take(i + 1).drop_last() =~= dsts.take(i as int));
            }
            i = i + 1;
            assert(s@ =~= start + joined_dsts(dsts.take(i as int)));
        }
    }

    /// Whether the operation prints destinations.
    pub fn has_dsts(&self) -> (r: bool)
        requires
            op_wf(self),
        ensures
            r == (printed_dsts(self).len() > 0),
    {
        match self {
            Op::PhiDsts(_) | Op::ParCopy(_) => false,
            _ => self.num_dsts() > 0,
        }
    }

    /// The operation as text: destinations, ` = `, then the operation.
    pub fn to_text(&self) -> (r: String)
        requires
            op_wf(self),
        ensures
            r@ == op_display_text(self),
    {
        let mut s = String::new();
        match self {
            Op::PLop3(o) => {
                o.dsts[0].push_text(&mut s);
                s.append(" ");
                o.dsts[1].push_text(&mut s);
                s.append(" = ");
            },
            Op::Vote(o) => {
                push_vote_dsts(&mut s, o);
                s.append(" = ");
            },
            _ => {
                reveal(opt);
                if self.has_dsts() {
                    self.fmt_dsts(&mut s);
                    s.append(" = ");
                }
            },
        }
        let ghost t = s@;
        assert(t =~= dsts_part(self));
        self.fmt_op(&mut s);
        s
    }
}

/// `k` binary digits of `n`, the most significant first.
pub open spec fn bin_digits(n: nat, k: nat) -> Seq<char>
    decreases k,
{
    if k == 0 { Seq::empty() } else { bin_digits(n / 2, (k - 1) as nat) + seq![digit_char(n % 2)] }
}

/// `n` in binary, padded with zeros to six digits.
pub open spec fn bin6_text(n: u8) -> Seq<char> {
    bin_digits(n as nat, if n >= 128 { 8 } else if n >= 64 { 7 } else { 6 })
}

fn push_bin_digits(s: &mut String, n: u8, k: u8)
    requires
        k <= 8,
    ensures
        final(s)@ == old(s)@ + bin_digits(n as nat, k as nat),
    decreases k,
{
    if k > 0 {
        push_bin_digits(s, n / 2, k - 1);
        s.append(digit_str((n % 2) as u32));
    }
    assert(final(s)@ =~= old(s)@ + bin_digits(n as nat, k as nat));
}

/// The scheduling annotations as text.
pub open spec fn deps_text(d: InstrDeps) -> Seq<char> {
    opt(d.delay > 0, " delay="@ + dec_text(d.delay as nat)) + opt(d.wt_bar_mask != 0, " wt="@ + bin6_text(d.wt_bar_mask))
        + opt(d.rd_bar >= 0, " rd:"@ + dec_text((d.rd_bar as u32) as nat)) + opt(d.wr_bar >= 0, " wr:"@ + dec_text((d.wr_bar as u32) as nat))
        + opt(d.reuse_mask != 0, " reuse="@ + bin6_text(d.reuse_mask)) + opt(d.yld, " yld"@)
}

fn push_bin6(s: &mut String, n: u8)
    ensures
        final(s)@ == old(s)@ + bin6_text(n),
{
    let k: u8 = if n >= 128 { 8 } else if n >= 64 { 7 } else { 6 };
    push_bin_digits(s, n, k);
}

fn push_opt_dec(s: &mut String, c: bool, label: &str, n: u32)
    ensures
        final(s)@ == old(s)@ + opt(c, label@ + dec_text(n as nat)),
{
    reveal(opt);
    if c {
        s.append(label);
        push_dec(s, n);
        assert(final(s)@ =~= old(s)@ + (label@ + dec_text(n as nat)));
    } else {
        assert(s@ =~= s@ + Seq::<char>::empty());
    }
}

fn push_opt_bin6(s: &mut String, c: bool, label: &str, n: u8)
    ensures
        final(s)@ == old(s)@ + opt(c, label@ + bin6_text(n)),
{
    reveal(opt);
    if c {
        s.append(label);
        push_bin6(s, n);
        assert(final(s)@ =~= old(s)@ + (label@ + bin6_text(n)));
    } else {
        assert(s@ =~= s@ + Seq::<char>::empty());
    }
}

impl InstrDeps {
    /// Appends the scheduling annotations' text.
    pub fn push_text(&self, s: &mut String)
        ensures
            final(s)@ == old(s)@ + deps_text(*self),
    {
        let ghost p1 = opt(self.delay > 0, " delay="@ + dec_text(self.delay as nat));
        let ghost p2 = opt(self.wt_bar_mask != 0, " wt="@ + bin6_text(self.wt_bar_mask));
        let ghost p3 = opt(self.rd_bar >= 0, " rd:"@ + dec_text((self.rd_bar as u32) as nat));
        let ghost p4 = opt(self.wr_bar >= 0, " wr:"@ + dec_text((self.wr_bar as u32) as nat));
        let ghost p5 = opt(self.reuse_mask != 0, " reuse="@ + bin6_text(self.reuse_mask));
        let ghost p6 = opt(self.yld, " yld"@);
        let ghost t0 = s@;
        push_opt_dec(s, self.delay > 0, " delay=", self.delay as u32);
        push_opt_bin6(s, self.wt_bar_mask != 0, " wt=", self.wt_bar_mask);
        assert(s@ =~= t0 + (p1 + p2));
        push_opt_dec(s, self.rd_bar >= 0, " rd:", self.rd_bar as u32);
        assert(s@ =~= t0 + (p1 + p2 + p3));
        push_opt_dec(s, self.wr_bar >= 0, " wr:", self.wr_bar as u32);
        assert(s@ =~= t0 + (p1 + p2 + p3 + p4));
        push_opt_bin6(s, self.reuse_mask != 0, " reuse=", self.reuse_mask);
        assert(s@ =~= t0 + (p1 + p2 + p3 + p4 + p5));
        push_opt(s, self.yld, " yld");
        assert(s@ =~= t0 + (p1 + p2 + p3 + p4 + p5 + p6));
    }
}

pub open spec fn pred_ref_text(p: PredRef) -> Seq<char> {
    match p {
        PredRef::Nil => "pT"@,
        PredRef::SSA(v) => ssa_value_text(v),
        PredRef::Reg(r) => reg_text(r),
    }
}

/// The predicate part of an instruction: nothing when it always runs, else
/// `@`, `!` when inverted, the predicate and a space.
pub open spec fn pred_text(p: Pred) -> Seq<char> {
    opt(!(p.pred_ref is Nil && !p.pred_inv), "@"@ + opt(p.pred_inv, "!"@) + pred_ref_text(p.pred_ref) + " "@)
}

/// An instruction as text: predicate, a space, the operation and the
/// scheduling annotations.
pub open spec fn instr_text(i: &Instr) -> Seq<char> {
    pred_text(i.pred) + " "@ + op_display_text(&i.op) + deps_text(i.deps)
}

fn push_pred(s: &mut String, p: &Pred)
    ensures
        final(s)@ == old(s)@ + pred_text(*p),
{
    reveal(opt);
    if !p.is_true() {
        s.append("@");
        push_opt(s, p.pred_inv, "!");
        match &p.pred_ref {
            PredRef::Nil => s.append("pT"),
            PredRef::SSA(v) => push_ssa_value(s, v),
            PredRef::Reg(r) => push_reg(s, r),
        }
        s.append(" ");
    }
    assert(final(s)@ =~= old(s)@ + pred_text(*p));
}

impl Instr {
    /// The instruction as text; the same instruction always gives the same
    /// text.
    pub fn to_text(&self) -> (r: String)
        requires
            op_wf(&self.op),
        ensures
            r@ == instr_text(self),
    {
        let mut s = String::new();
        push_pred(&mut s, &self.pred);
        s.append(" ");
        let ghost t0 = s@;
        let op_s = self.op.to_text();
        s.append(op_s.as_str());
        let ghost t1 = s@;
        self.deps.push_text(&mut s);
        assert(s@ =~= instr_text(self));
        s
    }
}

} // verus!
