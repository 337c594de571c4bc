use vstd::prelude::*;
use crate::reg::{RegFile, RegRef, spec_file_gpr, spec_file_predicate, spec_file_uniform};
use crate::ssa::{SSARef, SSAValue};

verus! {

/// An instruction destination.
#[derive(Clone)]
pub enum Dst {
    /// The result is discarded.
    Null,
    SSA(SSARef),
    Reg(RegRef),
}

impl Dst {
    pub fn is_none(&self) -> (r: bool)
        ensures
            r == (*self is Null),
    {
        match self {
            Dst::Null => true,
            _ => false,
        }
    }

    pub fn as_reg(&self) -> (r: Option<&RegRef>)
        ensures
            *self is Reg ==> r == Some(&self->Reg_0),
            !(*self is Reg) ==> r.is_none(),
    {
        match self {
            Dst::Reg(r) => Some(r),
            _ => None,
        }
    }

    pub fn as_ssa(&self) -> (r: Option<&SSARef>)
        ensures
            *self is SSA ==> r == Some(&self->SSA_0),
            !(*self is SSA) ==> r.is_none(),
    {
        match self {
            Dst::SSA(r) => Some(r),
            _ => None,
        }
    }

    pub fn to_ssa(self) -> (r: SSARef)
        requires
            self is SSA,
        ensures
            r == self->SSA_0,
    {
        match self {
            Dst::SSA(r) => r,
            _ => SSARef::from_value(SSAValue { idx: 0, file: RegFile::GPR }),
        }
    }

    /// The SSA values written, if this is an SSA destination.
    pub fn iter_ssa(&self) -> (r: &[SSAValue])
        ensures
            *self is SSA ==> r@ == self->SSA_0@,
            !(*self is SSA) ==> r@.len() == 0,
    {
        match self {
            Dst::SSA(ssa) => ssa.values(),
            _ => &[],
        }
    }

    pub fn from_reg(reg: RegRef) -> (r: Dst)
        ensures
            r == Dst::Reg(reg),
    {
        Dst::Reg(reg)
    }

    pub fn from_ssa(ssa: SSARef) -> (r: Dst)
        ensures
            r == Dst::SSA(ssa),
    {
        Dst::SSA(ssa)
    }

    /// An SSA destination for `Some`, a discarded one for `None`.
    pub fn from_opt_ssa(ssa: Option<SSAValue>) -> (r: Dst)
        ensures
            ssa.is_none() ==> r is Null,
            ssa matches Some(v) ==> r is SSA && r->SSA_0@ == seq![v],
    {
        match ssa {
            Some(v) => Dst::SSA(SSARef::from_value(v)),
            None => Dst::Null,
        }
    }
}

/// Whether a destination lives in a uniform register file, or `None` for a
/// discarded one.
pub open spec fn dst_uniformity(d: Dst) -> Option<bool> {
    match d {
        Dst::Null => None,
        Dst::Reg(r) => Some(spec_file_uniform(r.spec_file())),
        Dst::SSA(s) => Some(s.spec_file() matches Some(f) && spec_file_uniform(f)),
    }
}

/// No two present destinations disagree on uniformity.
pub open spec fn dsts_agree(dsts: Seq<Dst>) -> bool {
    forall|i: int, j: int|
        0 <= i < dsts.len() && 0 <= j < dsts.len() && dst_uniformity(dsts[i]) is Some
            && dst_uniformity(dsts[j]) is Some ==> dst_uniformity(dsts[i]) == dst_uniformity(dsts[j])
}

/// Every SSA destination has a single register file.
pub open spec fn dsts_have_files(dsts: Seq<Dst>) -> bool {
    forall|i: int| 0 <= i < dsts.len() && #[trigger] dsts[i] is SSA ==> dsts[i]->SSA_0.spec_file() is Some
}

/// Whether the destinations are uniform: some destination is present and
/// all present ones are uniform.
pub fn all_dsts_uniform(dsts: &[Dst]) -> (r: bool)
    requires
        dsts_agree(dsts@),
        dsts_have_files(dsts@),
    ensures
        r == exists|i: int| 0 <= i < dsts@.len() && dst_uniformity(#[trigger] dsts@[i]) == Some(true),
{
    let mut uniform: Option<bool> = None;
    let mut k: usize = 0;
    while k < dsts.len()
        invariant
            k <= dsts@.len(),
            dsts_agree(dsts@),
            uniform.is_none() ==> forall|i: int| 0 <= i < k ==> dst_uniformity(#[trigger] dsts@[i]) is None,
            uniform matches Some(u) ==> exists|i: int| 0 <= i < k && dst_uniformity(#[trigger] dsts@[i]) == Some(u),
        decreases dsts@.len() - k,
    {
        let dst_uniform = match &dsts[k] {
            Dst::Null => None,
            Dst::Reg(r) => Some(r.is_uniform()),
            Dst::SSA(s) => Some(s.is_uniform()),
        };
        if dst_uniform.is_some() {
            uniform = dst_uniform;
        }
        k = k + 1;
    }
    match uniform {
        Some(u) => u,
        None => false,
    }
}

/// A constant buffer.
#[derive(Clone)]
pub enum CBuf {
    Binding(u8),
    BindlessSSA(SSARef),
    BindlessUGPR(RegRef),
}

/// A location in a constant buffer.
#[derive(Clone)]
pub struct CBufRef {
    pub buf: CBuf,
    pub offset: u16,
}

impl CBufRef {
    /// The same buffer, `offset` bytes further on.
    pub fn offset(self, offset: u16) -> (r: CBufRef)
        requires
            self.offset + offset <= u16::MAX,
        ensures
            r.buf == self.buf,
            r.offset == self.offset + offset,
    {
        CBufRef { buf: self.buf, offset: self.offset + offset }
    }
}

/// What a source reads.
#[derive(Clone)]
pub enum SrcRef {
    Zero,
    True,
    False,
    Imm32(u32),
    CBuf(CBufRef),
    SSA(SSARef),
    Reg(RegRef),
}

pub open spec fn spec_is_alu(r: SrcRef) -> bool {
    match r {
        SrcRef::Zero | SrcRef::Imm32(_) | SrcRef::CBuf(_) => true,
        SrcRef::SSA(s) => s.spec_file() matches Some(f) && spec_file_gpr(f),
        SrcRef::Reg(g) => spec_file_gpr(g.spec_file()),
        SrcRef::True | SrcRef::False => false,
    }
}

pub open spec fn spec_is_predicate(r: SrcRef) -> bool {
    match r {
        SrcRef::Zero | SrcRef::Imm32(_) | SrcRef::CBuf(_) => false,
        SrcRef::True | SrcRef::False => true,
        SrcRef::SSA(s) => s.spec_file() matches Some(f) && spec_file_predicate(f),
        SrcRef::Reg(g) => spec_file_predicate(g.spec_file()),
    }
}

/// Whether the source reads a register (or value) of `file`.
pub open spec fn spec_in_file(r: SrcRef, file: RegFile) -> bool {
    match r {
        SrcRef::SSA(s) => s.spec_file() == Some(file),
        SrcRef::Reg(g) => g.spec_file() == file,
        _ => false,
    }
}

/// The literal value of a zero or 32-bit immediate source.
pub open spec fn spec_imm(r: SrcRef) -> Option<u32> {
    match r {
        SrcRef::Zero => Some(0),
        SrcRef::Imm32(u) => Some(u),
        _ => None,
    }
}

impl SrcRef {
    /// Whether the source may be read by an ALU instruction.
    pub fn is_alu(&self) -> (r: bool)
        ensures
            r == spec_is_alu(*self),
    {
        match self {
            SrcRef::Zero | SrcRef::Imm32(_) | SrcRef::CBuf(_) => true,
            SrcRef::SSA(ssa) => ssa.is_gpr(),
            SrcRef::Reg(reg) => reg.is_gpr(),
            SrcRef::True | SrcRef::False => false,
        }
    }

    pub fn is_bindless_cbuf(&self) -> (r: bool)
        ensures
            r == (*self matches SrcRef::CBuf(cb) && !(cb.buf is Binding)),
    {
        match self {
            SrcRef::CBuf(cb) => match cb.buf {
                CBuf::Binding(_) => false,
                _ => true,
            },
            _ => false,
        }
    }

    pub fn is_predicate(&self) -> (r: bool)
        ensures
            r == spec_is_predicate(*self),
    {
        match self {
            SrcRef::Zero | SrcRef::Imm32(_) | SrcRef::CBuf(_) => false,
            SrcRef::True | SrcRef::False => true,
            SrcRef::SSA(ssa) => ssa.is_predicate(),
            SrcRef::Reg(reg) => reg.is_predicate(),
        }
    }

    pub fn is_carry(&self) -> (r: bool)
        ensures
            r == spec_in_file(*self, RegFile::Carry),
    {
        match self {
            SrcRef::SSA(ssa) => ssa.file() == Some(RegFile::Carry),
            SrcRef::Reg(reg) => reg.file() == RegFile::Carry,
            _ => false,
        }
    }

    pub fn is_barrier(&self) -> (r: bool)
        ensures
            r == spec_in_file(*self, RegFile::Bar),
    {
        match self {
            SrcRef::SSA(ssa) => ssa.file() == Some(RegFile::Bar),
            SrcRef::Reg(reg) => reg.file() == RegFile::Bar,
            _ => false,
        }
    }

    pub fn as_reg(&self) -> (r: Option<&RegRef>)
        ensures
            *self is Reg ==> r == Some(&self->Reg_0),
            !(*self is Reg) ==> r.is_none(),
    {
        match self {
            SrcRef::Reg(r) => Some(r),
            _ => None,
        }
    }

    pub fn as_ssa(&self) -> (r: Option<&SSARef>)
        ensures
            *self is SSA ==> r == Some(&self->SSA_0),
            !(*self is SSA) ==> r.is_none(),
    {
        match self {
            SrcRef::SSA(r) => Some(r),
            _ => None,
        }
    }

    pub fn to_ssa(self) -> (r: SSARef)
        requires
            self is SSA,
        ensures
            r == self->SSA_0,
    {
        match self {
            SrcRef::SSA(r) => r,
            _ => SSARef::from_value(SSAValue { idx: 0, file: RegFile::GPR }),
        }
    }

    /// The value of a zero or immediate source; `None` for a constant
    /// buffer or register. A predicate literal is not an integer source.
    pub fn as_u32(&self) -> (r: Option<u32>)
        requires
            !(*self is True) && !(*self is False),
        ensures
            r == spec_imm(*self),
    {
        match self {
            SrcRef::Zero => Some(0),
            SrcRef::Imm32(u) => Some(*u),
            _ => None,
        }
    }

    /// The register read, directly or as a bindless constant buffer index.
    pub fn get_reg(&self) -> (r: Option<&RegRef>)
        ensures
            *self is Reg ==> r == Some(&self->Reg_0),
            *self matches SrcRef::CBuf(cb) ==> (cb.buf matches CBuf::BindlessUGPR(g) ==> r == Some(&g))
                && (!(cb.buf is BindlessUGPR) ==> r.is_none()),
            !(*self is Reg) && !(*self is CBuf) ==> r.is_none(),
    {
        match self {
            SrcRef::CBuf(cb) => match &cb.buf {
                CBuf::BindlessUGPR(reg) => Some(reg),
                _ => None,
            },
            SrcRef::Reg(reg) => Some(reg),
            _ => None,
        }
    }

    /// The SSA values read, directly or as a bindless constant buffer index.
    pub fn iter_ssa(&self) -> (r: &[SSAValue])
        ensures
            *self is SSA ==> r@ == self->SSA_0@,
            *self matches SrcRef::CBuf(cb) ==> (cb.buf matches CBuf::BindlessSSA(s) ==> r@ == s@)
                && (!(cb.buf is BindlessSSA) ==> r@.len() == 0),
            !(*self is SSA) && !(*self is CBuf) ==> r@.len() == 0,
    {
        match self {
            SrcRef::CBuf(cb) => match &cb.buf {
                CBuf::BindlessSSA(ssa) => ssa.values(),
                _ => &[],
            },
            SrcRef::SSA(ssa) => ssa.values(),
            _ => &[],
        }
    }

    /// `True` or `False`.
    pub fn from_bool(b: bool) -> (r: SrcRef)
        ensures
            b ==> r is True,
            !b ==> r is False,
    {
        if b {
            SrcRef::True
        } else {
            SrcRef::False
        }
    }

    /// A literal; zero is always written as `Zero`.
    pub fn from_u32(u: u32) -> (r: SrcRef)
        ensures
            u == 0 ==> r is Zero,
            u != 0 ==> r == SrcRef::Imm32(u),
    {
        if u == 0 {
            SrcRef::Zero
        } else {
            SrcRef::Imm32(u)
        }
    }
}

/// A source modifier. The float ones are `FAbs`, `FNeg` and `FNegAbs`; the
/// integer one is `INeg` and the bitwise one `BNot`. `None` belongs to all.
#[derive(Clone, Copy, PartialEq, Eq, Structural, Debug)]
pub enum SrcMod {
    Plain,
    FAbs,
    FNeg,
    FNegAbs,
    INeg,
    BNot,
}

pub open spec fn is_float_mod(m: SrcMod) -> bool {
    m is Plain || m is FAbs || m is FNeg || m is FNegAbs
}

pub open spec fn is_int_mod(m: SrcMod) -> bool {
    m is Plain || m is INeg
}

pub open spec fn is_bitwise_mod(m: SrcMod) -> bool {
    m is Plain || m is BNot
}

/// Whether the absolute value is taken (float modifiers).
pub open spec fn spec_has_fabs(m: SrcMod) -> bool {
    m is FAbs || m is FNegAbs
}

/// Whether the value is negated (float modifiers).
pub open spec fn spec_has_fneg(m: SrcMod) -> bool {
    m is FNeg || m is FNegAbs
}

/// The float modifier with the given abs and negate bits.
pub open spec fn float_mod(abs: bool, neg: bool) -> SrcMod {
    if abs {
        if neg { SrcMod::FNegAbs } else { SrcMod::FAbs }
    } else {
        if neg { SrcMod::FNeg } else { SrcMod::Plain }
    }
}

pub open spec fn spec_fabs(m: SrcMod) -> SrcMod {
    float_mod(true, spec_has_fneg(m))
}

pub open spec fn spec_fneg(m: SrcMod) -> SrcMod {
    float_mod(spec_has_fabs(m), !spec_has_fneg(m))
}

pub open spec fn spec_ineg(m: SrcMod) -> SrcMod {
    if m is INeg { SrcMod::Plain } else { SrcMod::INeg }
}

pub open spec fn spec_bnot(m: SrcMod) -> SrcMod {
    if m is BNot { SrcMod::Plain } else { SrcMod::BNot }
}

/// Whether `other` may be applied on top of `m`.
pub open spec fn can_modify(m: SrcMod, other: SrcMod) -> bool {
    match other {
        SrcMod::Plain => true,
        SrcMod::FAbs | SrcMod::FNeg | SrcMod::FNegAbs => is_float_mod(m),
        SrcMod::INeg => is_int_mod(m),
        SrcMod::BNot => is_bitwise_mod(m),
    }
}

/// `m` with `other` applied on top of it.
pub open spec fn spec_modify(m: SrcMod, other: SrcMod) -> SrcMod {
    match other {
        SrcMod::Plain => m,
        SrcMod::FAbs => spec_fabs(m),
        SrcMod::FNeg => spec_fneg(m),
        SrcMod::FNegAbs => spec_fneg(spec_fabs(m)),
        SrcMod::INeg => spec_ineg(m),
        SrcMod::BNot => spec_bnot(m),
    }
}

impl SrcMod {
    pub fn is_none(&self) -> (r: bool)
        ensures
            r == (*self is Plain),
    {
        match self {
            SrcMod::Plain => true,
            _ => false,
        }
    }

    pub fn has_fabs(&self) -> (r: bool)
        requires
            is_float_mod(*self),
        ensures
            r == spec_has_fabs(*self),
    {
        match self {
            SrcMod::FAbs | SrcMod::FNegAbs => true,
            _ => false,
        }
    }

    pub fn has_fneg(&self) -> (r: bool)
        requires
            is_float_mod(*self),
        ensures
            r == spec_has_fneg(*self),
    {
        match self {
            SrcMod::FNeg | SrcMod::FNegAbs => true,
            _ => false,
        }
    }

    pub fn is_ineg(&self) -> (r: bool)
        requires
            is_int_mod(*self),
        ensures
            r == (*self is INeg),
    {
        match self {
            SrcMod::INeg => true,
            _ => false,
        }
    }

    pub fn is_bnot(&self) -> (r: bool)
        requires
            is_bitwise_mod(*self),
        ensures
            r == (*self is BNot),
    {
        match self {
            SrcMod::BNot => true,
            _ => false,
        }
    }

    /// Forces the absolute-value bit on; a negation stays.
    pub fn fabs(self) -> (r: SrcMod)
        requires
            is_float_mod(self),
        ensures
            r == spec_fabs(self),
    {
        match self {
            SrcMod::FNeg | SrcMod::FNegAbs => SrcMod::FNegAbs,
            _ => SrcMod::FAbs,
        }
    }

    /// Toggles the negation, keeping the absolute value.
    pub fn fneg(self) -> (r: SrcMod)
        requires
            is_float_mod(self),
        ensures
            r == spec_fneg(self),
    {
        match self {
            SrcMod::Plain => SrcMod::FNeg,
            SrcMod::FAbs => SrcMod::FNegAbs,
            SrcMod::FNeg => SrcMod::Plain,
            _ => SrcMod::FAbs,
        }
    }

    /// Toggles the integer negation.
    pub fn ineg(self) -> (r: SrcMod)
        requires
            is_int_mod(self),
        ensures
            r == spec_ineg(self),
    {
        match self {
            SrcMod::Plain => SrcMod::INeg,
            _ => SrcMod::Plain,
        }
    }

    /// Toggles the bitwise not.
    pub fn bnot(self) -> (r: SrcMod)
        requires
            is_bitwise_mod(self),
        ensures
            r == spec_bnot(self),
    {
        match self {
            SrcMod::Plain => SrcMod::BNot,
            _ => SrcMod::Plain,
        }
    }

    /// Applies `other` on top of this modifier.
    pub fn modify(self, other: SrcMod) -> (r: SrcMod)
        requires
            can_modify(self, other),
        ensures
            r == spec_modify(self, other),
    {
        match other {
            SrcMod::Plain => self,
            SrcMod::FAbs => self.fabs(),
            SrcMod::FNeg => self.fneg(),
            SrcMod::FNegAbs => self.fabs().fneg(),
            SrcMod::INeg => self.ineg(),
            SrcMod::BNot => self.bnot(),
        }
    }
}

/// Negating a float modifier twice gives it back.
pub proof fn lemma_fneg_involution(m: SrcMod)
    requires
        is_float_mod(m),
    ensures
        is_float_mod(spec_fneg(m)),
        spec_fneg(spec_fneg(m)) == m,
{
}

/// Taking the absolute value twice is the same as taking it once.
pub proof fn lemma_fabs_idempotent(m: SrcMod)
    requires
        is_float_mod(m),
    ensures
        spec_fabs(spec_fabs(m)) == spec_fabs(m),
{
}

/// Absolute value then negation, and negation then absolute value, both
/// give `FNegAbs`: the absolute-value bit always stays on.
pub proof fn lemma_fabs_fneg_compose(m: SrcMod)
    requires
        is_float_mod(m),
    ensures
        spec_modify(spec_modify(SrcMod::Plain, SrcMod::FAbs), SrcMod::FNeg) == SrcMod::FNegAbs,
        spec_modify(spec_modify(SrcMod::Plain, SrcMod::FNeg), SrcMod::FAbs) == SrcMod::FNegAbs,
        spec_has_fabs(spec_fabs(m)),
        spec_has_fabs(spec_fneg(spec_fabs(m))),
{
}

/// Integer negation and bitwise not are each their own inverse.
pub proof fn lemma_ineg_bnot_involution(m: SrcMod)
    ensures
        is_int_mod(m) ==> spec_ineg(spec_ineg(m)) == m,
        is_bitwise_mod(m) ==> spec_bnot(spec_bnot(m)) == m,
{
}

/// Which 16-bit half of a packed pair is replicated.
#[derive(Clone, Copy, PartialEq, Eq, Structural, Debug)]
pub enum SrcSwizzle {
    Xy,
    Xx,
    Yy,
}

impl SrcSwizzle {
    pub fn is_none(&self) -> (r: bool)
        ensures
            r == (*self is Xy),
    {
        match self {
            SrcSwizzle::Xy => true,
            _ => false,
        }
    }
}

/// The declared type of a source slot.
#[derive(Clone, Copy, PartialEq, Eq, Structural, Debug)]
pub enum SrcType {
    SSA,
    GPR,
    ALU,
    F16,
    F16v2,
    F32,
    F64,
    I32,
    B32,
    Pred,
    Carry,
    Bar,
}

/// The declared type of a destination slot.
#[derive(Clone, Copy, PartialEq, Eq, Structural, Debug)]
pub enum DstType {
    Pred,
    GPR,
    F16,
    F16v2,
    F32,
    F64,
    Carry,
    Bar,
    Vec,
}

/// An instruction source: what is read, with a modifier and a swizzle.
#[derive(Clone)]
pub struct Src {
    pub src_ref: SrcRef,
    pub src_mod: SrcMod,
    pub src_swizzle: SrcSwizzle,
}

pub open spec fn spec_unmodified(s: Src) -> bool {
    s.src_mod is Plain && s.src_swizzle is Xy
}

pub open spec fn is_float_type(t: SrcType) -> bool {
    t is F16 || t is F16v2 || t is F32 || t is F64
}

/// Whether `as_u32` is defined on `s` read as `t`: a modified literal must
/// carry a modifier of `t`'s domain, and a swizzle only on packed halves.
pub open spec fn as_u32_defined(s: Src, t: SrcType) -> bool {
    spec_imm(s.src_ref) is Some && !spec_unmodified(s) ==> {
        &&& (t is F16v2 || s.src_swizzle is Xy)
        &&& (is_float_type(t) ==> is_float_mod(s.src_mod))
        &&& (t is B32 ==> is_bitwise_mod(s.src_mod))
        &&& (is_float_type(t) || t is I32 || t is B32)
    }
}

/// The 16-bit float modifier applied to the low half of `u`.
pub open spec fn f16_mod(u: u32, m: SrcMod) -> u32 {
    let low = u & 0xffff;
    match m {
        SrcMod::FAbs => low & !0x8000u32,
        SrcMod::FNeg => low ^ 0x8000u32,
        SrcMod::FNegAbs => low | 0x8000u32,
        _ => low,
    }
}

/// `u` with the given half replicated into both halves.
pub open spec fn swizzled(u: u32, sw: SrcSwizzle) -> u32 {
    match sw {
        SrcSwizzle::Xy => u,
        SrcSwizzle::Xx => ((u << 16u32) | (u & 0xffff)) as u32,
        SrcSwizzle::Yy => (u & 0xffff0000u32) | (u >> 16u32),
    }
}

/// The float modifier applied to both halves of a packed pair.
pub open spec fn f16v2_mod(u: u32, m: SrcMod) -> u32 {
    match m {
        SrcMod::FAbs => u & 0x7fff7fffu32,
        SrcMod::FNeg => u ^ 0x80008000u32,
        SrcMod::FNegAbs => u | 0x80008000u32,
        _ => u,
    }
}

/// The float modifier applied to the sign bit, bit 31.
pub open spec fn f32_mod(u: u32, m: SrcMod) -> u32 {
    match m {
        SrcMod::FAbs => u & !0x8000_0000u32,
        SrcMod::FNeg => u ^ 0x8000_0000u32,
        SrcMod::FNegAbs => u | 0x8000_0000u32,
        _ => u,
    }
}

/// The 32 bits that a literal source stands for when read as `t`, or `None`
/// when it is no literal or when integer negation of it would not fit in 32
/// bits.
pub open spec fn spec_as_u32(s: Src, t: SrcType) -> Option<u32> {
    match spec_imm(s.src_ref) {
        None => None,
        Some(u) => if spec_unmodified(s) {
            Some(u)
        } else if t is I32 {
            None
        } else if t is F16 {
            Some(f16_mod(u, s.src_mod))
        } else if t is F16v2 {
            Some(f16v2_mod(swizzled(u, s.src_swizzle), s.src_mod))
        } else if t is F32 || t is F64 {
            Some(f32_mod(u, s.src_mod))
        } else {
            Some(if s.src_mod is BNot { !u } else { u })
        },
    }
}

/// Whether `s` may stand in a slot of type `t`.
pub open spec fn spec_supports_type(s: Src, t: SrcType) -> bool {
    match t {
        SrcType::SSA => spec_unmodified(s) && (s.src_ref is SSA || s.src_ref is Reg),
        SrcType::GPR => spec_unmodified(s) && (s.src_ref is Zero || s.src_ref is SSA || s.src_ref is Reg),
        SrcType::ALU => spec_unmodified(s) && spec_is_alu(s.src_ref),
        SrcType::F16 | SrcType::F32 | SrcType::F64 | SrcType::F16v2 =>
            is_float_mod(s.src_mod) && spec_is_alu(s.src_ref),
        SrcType::I32 => is_int_mod(s.src_mod) && spec_is_alu(s.src_ref),
        SrcType::B32 => is_bitwise_mod(s.src_mod) && spec_is_alu(s.src_ref),
        SrcType::Pred => is_bitwise_mod(s.src_mod) && spec_is_predicate(s.src_ref),
        SrcType::Carry => spec_unmodified(s) && spec_in_file(s.src_ref, RegFile::Carry),
        SrcType::Bar => spec_unmodified(s) && spec_in_file(s.src_ref, RegFile::Bar),
    }
}

/// The literal truth value of a predicate source, or `None` for a register.
pub open spec fn spec_as_bool(s: Src) -> Option<bool> {
    match s.src_ref {
        SrcRef::True => Some(!(s.src_mod is BNot)),
        SrcRef::False => Some(s.src_mod is BNot),
        _ => None,
    }
}

/// Whether `as_bool` is defined: a literal or a single predicate register.
pub open spec fn as_bool_defined(s: Src) -> bool {
    &&& is_bitwise_mod(s.src_mod)
    &&& match s.src_ref {
        SrcRef::True | SrcRef::False => true,
        SrcRef::SSA(v) => v.spec_file() matches Some(f) && spec_file_predicate(f) && v@.len() == 1,
        SrcRef::Reg(g) => spec_file_predicate(g.spec_file()) && g.spec_comps() == 1,
        _ => false,
    }
}

/// Whether a literal does not fit a sign-extended 20-bit immediate.
pub open spec fn not_i20(i: u32) -> bool {
    let top = i & 0xfff80000u32;
    top != 0 && top != 0xfff80000u32
}

impl Src {
    /// The zero source.
    pub fn zero() -> (r: Src)
        ensures
            r.src_ref is Zero,
            spec_unmodified(r),
    {
        Src { src_ref: SrcRef::Zero, src_mod: SrcMod::Plain, src_swizzle: SrcSwizzle::Xy }
    }

    /// An unmodified source reading `src_ref`.
    pub fn from_ref(src_ref: SrcRef) -> (r: Src)
        ensures
            r.src_ref == src_ref,
            spec_unmodified(r),
    {
        Src { src_ref, src_mod: SrcMod::Plain, src_swizzle: SrcSwizzle::Xy }
    }

    /// An unmodified literal; zero is written as `Zero`.
    pub fn new_imm_u32(u: u32) -> (r: Src)
        ensures
            spec_unmodified(r),
            u == 0 ==> r.src_ref is Zero,
            u != 0 ==> r.src_ref == SrcRef::Imm32(u),
    {
        Src::from_ref(SrcRef::from_u32(u))
    }

    /// An unmodified predicate literal.
    pub fn new_imm_bool(b: bool) -> (r: Src)
        ensures
            spec_unmodified(r),
            b ==> r.src_ref is True,
            !b ==> r.src_ref is False,
    {
        Src::from_ref(SrcRef::from_bool(b))
    }

    pub fn is_unmodified(&self) -> (r: bool)
        ensures
            r == spec_unmodified(*self),
    {
        self.src_mod.is_none() && self.src_swizzle.is_none()
    }

    pub fn fabs(self) -> (r: Src)
        requires
            is_float_mod(self.src_mod),
        ensures
            r == (Src { src_mod: spec_fabs(self.src_mod), ..self }),
    {
        Src { src_ref: self.src_ref, src_mod: self.src_mod.fabs(), src_swizzle: self.src_swizzle }
    }

    pub fn fneg(self) -> (r: Src)
        requires
            is_float_mod(self.src_mod),
        ensures
            r == (Src { src_mod: spec_fneg(self.src_mod), ..self }),
    {
        Src { src_ref: self.src_ref, src_mod: self.src_mod.fneg(), src_swizzle: self.src_swizzle }
    }

    pub fn ineg(self) -> (r: Src)
        requires
            is_int_mod(self.src_mod),
        ensures
            r == (Src { src_mod: spec_ineg(self.src_mod), ..self }),
    {
        Src { src_ref: self.src_ref, src_mod: self.src_mod.ineg(), src_swizzle: self.src_swizzle }
    }

    pub fn bnot(self) -> (r: Src)
        requires
            is_bitwise_mod(self.src_mod),
        ensures
            r == (Src { src_mod: spec_bnot(self.src_mod), ..self }),
    {
        Src { src_ref: self.src_ref, src_mod: self.src_mod.bnot(), src_swizzle: self.src_swizzle }
    }

    pub fn modify(self, src_mod: SrcMod) -> (r: Src)
        requires
            can_modify(self.src_mod, src_mod),
        ensures
            r == (Src { src_mod: spec_modify(self.src_mod, src_mod), ..self }),
    {
        Src { src_ref: self.src_ref, src_mod: self.src_mod.modify(src_mod), src_swizzle: self.src_swizzle }
    }

    /// The 32 bits this source stands for when read as `src_type`, if it is
    /// a literal whose modifier can be folded in.
    pub fn as_u32(&self, src_type: SrcType) -> (r: Option<u32>)
        requires
            as_u32_defined(*self, src_type),
        ensures
            r == spec_as_u32(*self, src_type),
    {
        let u = match &self.src_ref {
            SrcRef::Zero => 0,
            SrcRef::Imm32(u) => *u,
            _ => {
                return None;
            },
        };

        if self.is_unmodified() {
            return Some(u);
        }

        // Integer negation reaches past the 32 bits of data: the negated
        // literal may not fit in 32 bits, so it is not folded.
        match src_type {
            SrcType::I32 => None,
            SrcType::F16 => {
                let low = u & 0xffff;
                Some(match self.src_mod {
                    SrcMod::FAbs => low & !0x8000u32,
                    SrcMod::FNeg => low ^ 0x8000u32,
                    SrcMod::FNegAbs => low | 0x8000u32,
                    _ => low,
                })
            },
            SrcType::F16v2 => {
                let v = match self.src_swizzle {
                    SrcSwizzle::Xy => u,
                    SrcSwizzle::Xx => (u << 16u32) | (u & 0xffff),
                    SrcSwizzle::Yy => (u & 0xffff0000u32) | (u >> 16u32),
                };
                Some(match self.src_mod {
                    SrcMod::FAbs => v & 0x7fff7fffu32,
                    SrcMod::FNeg => v ^ 0x80008000u32,
                    SrcMod::FNegAbs => v | 0x80008000u32,
                    _ => v,
                })
            },
            SrcType::F32 | SrcType::F64 => Some(match self.src_mod {
                SrcMod::FAbs => u & !0x8000_0000u32,
                SrcMod::FNeg => u ^ 0x8000_0000u32,
                SrcMod::FNegAbs => u | 0x8000_0000u32,
                _ => u,
            }),
            _ => Some(match self.src_mod {
                SrcMod::BNot => !u,
                _ => u,
            }),
        }
    }

    pub fn as_ssa(&self) -> (r: Option<&SSARef>)
        ensures
            spec_unmodified(*self) && self.src_ref is SSA ==> r == Some(&self.src_ref->SSA_0),
            !(spec_unmodified(*self) && self.src_ref is SSA) ==> r.is_none(),
    {
        if self.is_unmodified() {
            self.src_ref.as_ssa()
        } else {
            None
        }
    }

    pub fn to_ssa(self) -> (r: SSARef)
        requires
            spec_unmodified(self),
            self.src_ref is SSA,
        ensures
            r == self.src_ref->SSA_0,
    {
        self.src_ref.to_ssa()
    }

    /// The truth value of a predicate literal, or `None` for a register.
    pub fn as_bool(&self) -> (r: Option<bool>)
        requires
            as_bool_defined(*self),
        ensures
            r == spec_as_bool(*self),
    {
        match &self.src_ref {
            SrcRef::True => Some(!self.src_mod.is_bnot()),
            SrcRef::False => Some(self.src_mod.is_bnot()),
            _ => None,
        }
    }

    /// The literal, when it does not fit a sign-extended 20-bit immediate.
    pub fn as_imm_not_i20(&self) -> (r: Option<u32>)
        requires
            self.src_ref is Imm32 ==> spec_unmodified(*self),
        ensures
            self.src_ref matches SrcRef::Imm32(i) ==> r == (if not_i20(i) { Some(i) } else { None::<u32> }),
            !(self.src_ref is Imm32) ==> r.is_none(),
    {
        match self.src_ref {
            SrcRef::Imm32(i) => {
                let top = i & 0xfff80000u32;
                if top == 0 || top == 0xfff80000u32 {
                    None
                } else {
                    Some(i)
                }
            },
            _ => None,
        }
    }

    /// The literal, when its low 12 bits are not all zero (so it does not
    /// fit a 20-bit float immediate).
    pub fn as_imm_not_f20(&self) -> (r: Option<u32>)
        requires
            self.src_ref is Imm32 ==> spec_unmodified(*self),
        ensures
            self.src_ref matches SrcRef::Imm32(i) ==> r == (if i & 0xfff == 0 { None::<u32> } else { Some(i) }),
            !(self.src_ref is Imm32) ==> r.is_none(),
    {
        match self.src_ref {
            SrcRef::Imm32(i) => {
                if (i & 0xfff) == 0 {
                    None
                } else {
                    Some(i)
                }
            },
            _ => None,
        }
    }

    /// The SSA values read, directly or as a bindless buffer index.
    pub fn iter_ssa(&self) -> (r: &[SSAValue])
        ensures
            self.src_ref is SSA ==> r@ == self.src_ref->SSA_0@,
            self.src_ref matches SrcRef::CBuf(cb) ==> (cb.buf matches CBuf::BindlessSSA(s) ==> r@ == s@)
                && (!(cb.buf is BindlessSSA) ==> r@.len() == 0),
            !(self.src_ref is SSA) && !(self.src_ref is CBuf) ==> r@.len() == 0,
    {
        self.src_ref.iter_ssa()
    }

    /// Whether the value read is the same across a wave.
    pub fn is_uniform(&self) -> (r: bool)
        ensures
            r == match self.src_ref {
                SrcRef::SSA(s) => s.spec_file() matches Some(f) && spec_file_uniform(f),
                SrcRef::Reg(g) => spec_file_uniform(g.spec_file()),
                _ => true,
            },
    {
        match &self.src_ref {
            SrcRef::SSA(ssa) => ssa.is_uniform(),
            SrcRef::Reg(reg) => reg.is_uniform(),
            _ => true,
        }
    }

    pub fn is_bindless_cbuf(&self) -> (r: bool)
        ensures
            r == (self.src_ref matches SrcRef::CBuf(cb) && !(cb.buf is Binding)),
    {
        self.src_ref.is_bindless_cbuf()
    }

    pub fn is_predicate(&self) -> (r: bool)
        ensures
            r == spec_is_predicate(self.src_ref),
    {
        self.src_ref.is_predicate()
    }

    /// Whether the source is a zero literal, also under absolute value.
    pub fn is_zero(&self) -> (r: bool)
        ensures
            r == (spec_imm(self.src_ref) == Some(0u32) && (self.src_mod is Plain || self.src_mod is FAbs)),
    {
        match self.src_ref {
            SrcRef::Zero | SrcRef::Imm32(0) => match self.src_mod {
                SrcMod::Plain | SrcMod::FAbs => true,
                // Integer negation reaches past 32 bits: -0 need not be 0.
                _ => false,
            },
            _ => false,
        }
    }

    /// Whether the source is a nonzero literal.
    pub fn is_nonzero(&self) -> (r: bool)
        requires
            spec_unmodified(*self),
        ensures
            r == (self.src_ref matches SrcRef::Imm32(x) && x != 0),
    {
        match self.src_ref {
            SrcRef::Imm32(x) => x != 0,
            _ => false,
        }
    }

    /// Whether the source is a literal negative zero of `src_type`.
    pub fn is_fneg_zero(&self, src_type: SrcType) -> (r: bool)
        requires
            as_u32_defined(*self, src_type),
        ensures
            r == (spec_as_u32(*self, src_type) == Some(0x8000u32) && src_type is F16
                || spec_as_u32(*self, src_type) == Some(0x8000_0000u32) && (src_type is F32 || src_type is F64)
                || spec_as_u32(*self, src_type) == Some(0x8000_8000u32) && src_type is F16v2),
    {
        match self.as_u32(src_type) {
            Some(0x8000u32) => src_type == SrcType::F16,
            Some(0x8000_0000u32) => src_type == SrcType::F32 || src_type == SrcType::F64,
            Some(0x8000_8000u32) => src_type == SrcType::F16v2,
            _ => false,
        }
    }

    /// Whether this source may stand in a slot of type `src_type`.
    pub fn supports_type(&self, src_type: &SrcType) -> (r: bool)
        ensures
            r == spec_supports_type(*self, *src_type),
    {
        match src_type {
            SrcType::SSA => {
                if !self.is_unmodified() {
                    return false;
                }
                match self.src_ref {
                    SrcRef::SSA(_) | SrcRef::Reg(_) => true,
                    _ => false,
                }
            },
            SrcType::GPR => {
                if !self.is_unmodified() {
                    return false;
                }
                match self.src_ref {
                    SrcRef::Zero | SrcRef::SSA(_) | SrcRef::Reg(_) => true,
                    _ => false,
                }
            },
            SrcType::ALU => self.is_unmodified() && self.src_ref.is_alu(),
            SrcType::F16 | SrcType::F32 | SrcType::F64 | SrcType::F16v2 => {
                match self.src_mod {
                    SrcMod::Plain | SrcMod::FAbs | SrcMod::FNeg | SrcMod::FNegAbs => {},
                    _ => {
                        return false;
                    },
                }
                self.src_ref.is_alu()
            },
            SrcType::I32 => {
                match self.src_mod {
                    SrcMod::Plain | SrcMod::INeg => {},
                    _ => {
                        return false;
                    },
                }
                self.src_ref.is_alu()
            },
            SrcType::B32 => {
                match self.src_mod {
                    SrcMod::Plain | SrcMod::BNot => {},
                    _ => {
                        return false;
                    },
                }
                self.src_ref.is_alu()
            },
            SrcType::Pred => {
                match self.src_mod {
                    SrcMod::Plain | SrcMod::BNot => {},
                    _ => {
                        return false;
                    },
                }
                self.src_ref.is_predicate()
            },
            SrcType::Carry => self.is_unmodified() && self.src_ref.is_carry(),
            SrcType::Bar => self.is_unmodified() && self.src_ref.is_barrier(),
        }
    }
}

} // verus!
