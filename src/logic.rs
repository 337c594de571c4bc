use vstd::prelude::*;
use crate::operand::{Src, as_bool_defined, spec_as_bool};

verus! {

/// How a predicate result is combined with an accumulator.
#[derive(Clone, Copy, PartialEq, Eq, Structural, Debug)]
pub enum PredSetOp {
    And,
    Or,
    Xor,
}

pub open spec fn spec_pred_set(op: PredSetOp, a: bool, b: bool) -> bool {
    match op {
        PredSetOp::And => a && b,
        PredSetOp::Or => a || b,
        PredSetOp::Xor => a != b,
    }
}

/// Whether accumulating into a source of literal value `accum` changes
/// nothing: `true` for `And`, `false` for `Or` and `Xor`.
pub open spec fn spec_is_trivial(op: PredSetOp, accum: Option<bool>) -> bool {
    match accum {
        Some(b) => match op {
            PredSetOp::And => b,
            PredSetOp::Or | PredSetOp::Xor => !b,
        },
        None => false,
    }
}

impl PredSetOp {
    pub fn eval(&self, a: bool, b: bool) -> (r: bool)
        ensures
            r == spec_pred_set(*self, a, b),
    {
        match self {
            PredSetOp::And => a && b,
            PredSetOp::Or => a || b,
            PredSetOp::Xor => a != b,
        }
    }

    /// Whether the accumulate step is a no-op for this accumulator.
    pub fn is_trivial(&self, accum: &Src) -> (r: bool)
        requires
            as_bool_defined(*accum),
        ensures
            r == spec_is_trivial(*self, spec_as_bool(*accum)),
    {
        match accum.as_bool() {
            Some(b) => match self {
                PredSetOp::And => b,
                PredSetOp::Or => !b,
                PredSetOp::Xor => !b,
            },
            None => false,
        }
    }

    pub open spec fn spec_suffix(&self) -> Seq<char> {
        match *self {
            PredSetOp::And => ".and"@,
            PredSetOp::Or => ".or"@,
            PredSetOp::Xor => ".xor"@,
        }
    }

    pub fn suffix(&self) -> (r: &'static str)
        ensures
            r@ == self.spec_suffix(),
    {
        match self {
            PredSetOp::And => ".and",
            PredSetOp::Or => ".or",
            PredSetOp::Xor => ".xor",
        }
    }
}

/// A trivial accumulate step leaves the other operand unchanged.
pub proof fn lemma_trivial_accum_is_identity(op: PredSetOp, accum: bool, x: bool)
    requires
        spec_is_trivial(op, Some(accum)),
    ensures
        spec_pred_set(op, x, accum) == x,
{
}

/// A floating-point comparison.
#[derive(Clone, Copy, PartialEq, Eq, Structural, Debug)]
pub enum FloatCmpOp {
    OrdEq,
    OrdNe,
    OrdLt,
    OrdLe,
    OrdGt,
    OrdGe,
    UnordEq,
    UnordNe,
    UnordLt,
    UnordLe,
    UnordGt,
    UnordGe,
    IsNum,
    IsNan,
}

impl FloatCmpOp {
    /// The comparison with its operands swapped.
    pub fn flip(self) -> (r: FloatCmpOp)
        requires
            !(self is IsNum) && !(self is IsNan),
        ensures
            r == match self {
                FloatCmpOp::OrdLt => FloatCmpOp::OrdGt,
                FloatCmpOp::OrdLe => FloatCmpOp::OrdGe,
                FloatCmpOp::OrdGt => FloatCmpOp::OrdLt,
                FloatCmpOp::OrdGe => FloatCmpOp::OrdLe,
                FloatCmpOp::UnordLt => FloatCmpOp::UnordGt,
                FloatCmpOp::UnordLe => FloatCmpOp::UnordGe,
                FloatCmpOp::UnordGt => FloatCmpOp::UnordLt,
                FloatCmpOp::UnordGe => FloatCmpOp::UnordLe,
                _ => self,
            },
    {
        match self {
            FloatCmpOp::OrdLt => FloatCmpOp::OrdGt,
            FloatCmpOp::OrdLe => FloatCmpOp::OrdGe,
            FloatCmpOp::OrdGt => FloatCmpOp::OrdLt,
            FloatCmpOp::OrdGe => FloatCmpOp::OrdLe,
            FloatCmpOp::UnordLt => FloatCmpOp::UnordGt,
            FloatCmpOp::UnordLe => FloatCmpOp::UnordGe,
            FloatCmpOp::UnordGt => FloatCmpOp::UnordLt,
            FloatCmpOp::UnordGe => FloatCmpOp::UnordLe,
            _ => self,
        }
    }

    pub open spec fn spec_suffix(&self) -> Seq<char> {
        match *self {
            FloatCmpOp::OrdEq => ".eq"@,
            FloatCmpOp::OrdNe => ".ne"@,
            FloatCmpOp::OrdLt => ".lt"@,
            FloatCmpOp::OrdLe => ".le"@,
            FloatCmpOp::OrdGt => ".gt"@,
            FloatCmpOp::OrdGe => ".ge"@,
            FloatCmpOp::UnordEq => ".equ"@,
            FloatCmpOp::UnordNe => ".neu"@,
            FloatCmpOp::UnordLt => ".ltu"@,
            FloatCmpOp::UnordLe => ".leu"@,
            FloatCmpOp::UnordGt => ".gtu"@,
            FloatCmpOp::UnordGe => ".geu"@,
            FloatCmpOp::IsNum => ".num"@,
            FloatCmpOp::IsNan => ".nan"@,
        }
    }

    pub fn suffix(&self) -> (r: &'static str)
        ensures
            r@ == self.spec_suffix(),
    {
        match self {
            FloatCmpOp::OrdEq => ".eq",
            FloatCmpOp::OrdNe => ".ne",
            FloatCmpOp::OrdLt => ".lt",
            FloatCmpOp::OrdLe => ".le",
            FloatCmpOp::OrdGt => ".gt",
            FloatCmpOp::OrdGe => ".ge",
            FloatCmpOp::UnordEq => ".equ",
            FloatCmpOp::UnordNe => ".neu",
            FloatCmpOp::UnordLt => ".ltu",
            FloatCmpOp::UnordLe => ".leu",
            FloatCmpOp::UnordGt => ".gtu",
            FloatCmpOp::UnordGe => ".geu",
            FloatCmpOp::IsNum => ".num",
            FloatCmpOp::IsNan => ".nan",
        }
    }
}

/// An integer comparison.
#[derive(Clone, Copy, PartialEq, Eq, Structural, Debug)]
pub enum IntCmpOp {
    False,
    True,
    Eq,
    Ne,
    Lt,
    Le,
    Gt,
    Ge,
}

/// The comparison `op` of `x` and `y`.
pub open spec fn spec_int_cmp(op: IntCmpOp, x: int, y: int) -> bool {
    match op {
        IntCmpOp::False => false,
        IntCmpOp::True => true,
        IntCmpOp::Eq => x == y,
        IntCmpOp::Ne => x != y,
        IntCmpOp::Lt => x < y,
        IntCmpOp::Le => x <= y,
        IntCmpOp::Gt => x > y,
        IntCmpOp::Ge => x >= y,
    }
}

pub open spec fn spec_int_flip(op: IntCmpOp) -> IntCmpOp {
    match op {
        IntCmpOp::Lt => IntCmpOp::Gt,
        IntCmpOp::Le => IntCmpOp::Ge,
        IntCmpOp::Gt => IntCmpOp::Lt,
        IntCmpOp::Ge => IntCmpOp::Le,
        _ => op,
    }
}

impl IntCmpOp {
    /// The comparison with its operands swapped.
    pub fn flip(self) -> (r: IntCmpOp)
        ensures
            r == spec_int_flip(self),
            forall|x: int, y: int| spec_int_cmp(r, x, y) == spec_int_cmp(self, y, x),
    {
        match self {
            IntCmpOp::Lt => IntCmpOp::Gt,
            IntCmpOp::Le => IntCmpOp::Ge,
            IntCmpOp::Gt => IntCmpOp::Lt,
            IntCmpOp::Ge => IntCmpOp::Le,
            _ => self,
        }
    }

    /// Compares `x` and `y`.
    pub fn eval_u32(&self, x: u32, y: u32) -> (r: bool)
        ensures
            r == spec_int_cmp(*self, x as int, y as int),
    {
        match self {
            IntCmpOp::False => false,
            IntCmpOp::True => true,
            IntCmpOp::Eq => x == y,
            IntCmpOp::Ne => x != y,
            IntCmpOp::Lt => x < y,
            IntCmpOp::Le => x <= y,
            IntCmpOp::Gt => x > y,
            IntCmpOp::Ge => x >= y,
        }
    }

    /// Compares `x` and `y`.
    pub fn eval_i32(&self, x: i32, y: i32) -> (r: bool)
        ensures
            r == spec_int_cmp(*self, x as int, y as int),
    {
        match self {
            IntCmpOp::False => false,
            IntCmpOp::True => true,
            IntCmpOp::Eq => x == y,
            IntCmpOp::Ne => x != y,
            IntCmpOp::Lt => x < y,
            IntCmpOp::Le => x <= y,
            IntCmpOp::Gt => x > y,
            IntCmpOp::Ge => x >= y,
        }
    }

    pub open spec fn spec_suffix(&self) -> Seq<char> {
        match *self {
            IntCmpOp::False => ".f"@,
            IntCmpOp::True => ".t"@,
            IntCmpOp::Eq => ".eq"@,
            IntCmpOp::Ne => ".ne"@,
            IntCmpOp::Lt => ".lt"@,
            IntCmpOp::Le => ".le"@,
            IntCmpOp::Gt => ".gt"@,
            IntCmpOp::Ge => ".ge"@,
        }
    }

    pub fn suffix(&self) -> (r: &'static str)
        ensures
            r@ == self.spec_suffix(),
    {
        match self {
            IntCmpOp::False => ".f",
            IntCmpOp::True => ".t",
            IntCmpOp::Eq => ".eq",
            IntCmpOp::Ne => ".ne",
            IntCmpOp::Lt => ".lt",
            IntCmpOp::Le => ".le",
            IntCmpOp::Gt => ".gt",
            IntCmpOp::Ge => ".ge",
        }
    }
}

/// Whether integers are compared as unsigned or signed 32-bit values.
#[derive(Clone, Copy, PartialEq, Eq, Structural, Debug)]
pub enum IntCmpType {
    U32,
    I32,
}

impl IntCmpType {
    pub fn is_signed(&self) -> (r: bool)
        ensures
            r == (*self is I32),
    {
        match self {
            IntCmpType::U32 => false,
            IntCmpType::I32 => true,
        }
    }

    pub open spec fn spec_suffix(&self) -> Seq<char> {
        match *self {
            IntCmpType::U32 => ".u32"@,
            IntCmpType::I32 => ".i32"@,
        }
    }

    pub fn suffix(&self) -> (r: &'static str)
        ensures
            r@ == self.spec_suffix(),
    {
        match self {
            IntCmpType::U32 => ".u32",
            IntCmpType::I32 => ".i32",
        }
    }
}

/// A two-input bitwise operation.
#[derive(Clone, Copy, PartialEq, Eq, Structural, Debug)]
pub enum LogicOp2 {
    And,
    Or,
    Xor,
    PassB,
}

pub const SRC_MASK_0: u8 = 0xf0;
pub const SRC_MASK_1: u8 = 0xcc;
pub const SRC_MASK_2: u8 = 0xaa;

/// The truth-table mask of input `i`: the table entries where it is set.
pub open spec fn src_mask(i: int) -> u8 {
    if i == 0 { 0xf0u8 } else if i == 1 { 0xccu8 } else { 0xaau8 }
}

/// How far entries move when input `i` is flipped: the index of the
/// lowest bit of its mask.
pub open spec fn src_shift(i: int) -> u8 {
    if i == 0 { 4u8 } else if i == 1 { 2u8 } else { 1u8 }
}

/// The two-input operation applied to the truth-table masks of inputs 0
/// and 1: its three-input truth table.
pub open spec fn spec_lop2_lut(op: LogicOp2) -> u8 {
    match op {
        LogicOp2::And => 0xf0u8 & 0xccu8,
        LogicOp2::Or => 0xf0u8 | 0xccu8,
        LogicOp2::Xor => 0xf0u8 ^ 0xccu8,
        LogicOp2::PassB => 0xccu8,
    }
}

/// The two-input operation on 32-bit values.
pub open spec fn spec_lop2(op: LogicOp2, x: u32, y: u32) -> u32 {
    match op {
        LogicOp2::And => x & y,
        LogicOp2::Or => x | y,
        LogicOp2::Xor => x ^ y,
        LogicOp2::PassB => y,
    }
}

impl LogicOp2 {
    /// The equivalent three-input truth table, built from the source masks.
    pub fn to_lut(self) -> (r: LogicOp3)
        ensures
            r.lut == spec_lop2_lut(self),
    {
        match self {
            LogicOp2::And => LogicOp3::new_lut(&|x: u8, y: u8, z: u8| -> (r: u8)
                ensures
                    r == x & y,
                { x & y }),
            LogicOp2::Or => LogicOp3::new_lut(&|x: u8, y: u8, z: u8| -> (r: u8)
                ensures
                    r == x | y,
                { x | y }),
            LogicOp2::Xor => LogicOp3::new_lut(&|x: u8, y: u8, z: u8| -> (r: u8)
                ensures
                    r == x ^ y,
                { x ^ y }),
            LogicOp2::PassB => LogicOp3::new_lut(&|x: u8, y: u8, z: u8| -> (r: u8)
                ensures
                    r == y,
                { y }),
        }
    }

    pub open spec fn spec_name(&self) -> Seq<char> {
        match *self {
            LogicOp2::And => "and"@,
            LogicOp2::Or => "or"@,
            LogicOp2::Xor => "xor"@,
            LogicOp2::PassB => "pass_b"@,
        }
    }

    pub fn name(&self) -> (r: &'static str)
        ensures
            r@ == self.spec_name(),
    {
        match self {
            LogicOp2::And => "and",
            LogicOp2::Or => "or",
            LogicOp2::Xor => "xor",
            LogicOp2::PassB => "pass_b",
        }
    }
}

/// A three-input bitwise operation given by its truth table: bit
/// `4 * a + 2 * b + c` of `lut` is the output for inputs `a`, `b`, `c`.
#[derive(Clone, Copy, PartialEq, Eq, Structural, Debug)]
pub struct LogicOp3 {
    pub lut: u8,
}

/// The table applied bitwise to `x`, `y`, `z`: the union of the minterms
/// of its set entries.
pub open spec fn spec_lop3_eval(lut: u8, x: u32, y: u32, z: u32) -> u32 {
    (if lut & 0x01u8 != 0 { !x & !y & !z } else { 0u32 })
    | (if lut & 0x02u8 != 0 { !x & !y & z } else { 0u32 })
    | (if lut & 0x04u8 != 0 { !x & y & !z } else { 0u32 })
    | (if lut & 0x08u8 != 0 { !x & y & z } else { 0u32 })
    | (if lut & 0x10u8 != 0 { x & !y & !z } else { 0u32 })
    | (if lut & 0x20u8 != 0 { x & !y & z } else { 0u32 })
    | (if lut & 0x40u8 != 0 { x & y & !z } else { 0u32 })
    | (if lut & 0x80u8 != 0 { x & y & z } else { 0u32 })
}

/// The table with input `i` fixed to `val`.
pub open spec fn spec_fix_src(lut: u8, i: int, val: bool) -> u8 {
    let mask = src_mask(i);
    let shift = src_shift(i);
    if val {
        ((lut & mask) | ((lut & mask) >> shift)) as u8
    } else {
        (((lut & !mask) << shift) | (lut & !mask)) as u8
    }
}

/// The table with input `i` inverted.
pub open spec fn spec_invert_src(lut: u8, i: int) -> u8 {
    let mask = src_mask(i);
    let shift = src_shift(i);
    (((lut & !mask) << shift) | ((lut & mask) >> shift)) as u8
}

/// Whether flipping input `i` changes some output of the table.
pub open spec fn spec_src_used(lut: u8, i: int) -> bool {
    lut & !src_mask(i) != (lut >> src_shift(i)) & !src_mask(i)
}

impl LogicOp3 {
    /// The table of `f` on the three source masks.
    pub fn new_lut<F: Fn(u8, u8, u8) -> u8>(f: &F) -> (r: LogicOp3)
        requires
            f.requires((SRC_MASK_0, SRC_MASK_1, SRC_MASK_2)),
        ensures
            f.ensures((SRC_MASK_0, SRC_MASK_1, SRC_MASK_2), r.lut),
    {
        LogicOp3 { lut: f(SRC_MASK_0, SRC_MASK_1, SRC_MASK_2) }
    }

    /// The constant operation.
    pub fn new_const(val: bool) -> (r: LogicOp3)
        ensures
            r.lut == if val { 0xffu8 } else { 0u8 },
    {
        LogicOp3 { lut: if val { 0xff } else { 0 } }
    }

    /// Whether input `src_idx` matters to the result.
    pub fn src_used(&self, src_idx: usize) -> (r: bool)
        requires
            src_idx < 3,
        ensures
            r == spec_src_used(self.lut, src_idx as int),
    {
        let mask = src_mask_of(src_idx);
        let shift = src_shift_of(src_idx);
        self.lut & !mask != (self.lut >> shift) & !mask
    }

    /// Specializes the table to input `src_idx` being `val`.
    pub fn fix_src(&mut self, src_idx: usize, val: bool)
        requires
            src_idx < 3,
        ensures
            final(self).lut == spec_fix_src(old(self).lut, src_idx as int, val),
    {
        let mask = src_mask_of(src_idx);
        let shift = src_shift_of(src_idx);
        if val {
            let t_bits = self.lut & mask;
            self.lut = t_bits | (t_bits >> shift);
        } else {
            let f_bits = self.lut & !mask;
            self.lut = (f_bits << shift) | f_bits;
        }
    }

    /// Rewrites the table to take input `src_idx` inverted.
    pub fn invert_src(&mut self, src_idx: usize)
        requires
            src_idx < 3,
        ensures
            final(self).lut == spec_invert_src(old(self).lut, src_idx as int),
    {
        let mask = src_mask_of(src_idx);
        let shift = src_shift_of(src_idx);
        let t_bits = self.lut & mask;
        let f_bits = self.lut & !mask;
        self.lut = (f_bits << shift) | (t_bits >> shift);
    }

    /// Applies the table bitwise to three 32-bit values.
    pub fn eval(&self, x: u32, y: u32, z: u32) -> (r: u32)
        ensures
            r == spec_lop3_eval(self.lut, x, y, z),
    {
        let l = self.lut;
        (if l & 0x01 != 0 { !x & !y & !z } else { 0 })
        | (if l & 0x02 != 0 { !x & !y & z } else { 0 })
        | (if l & 0x04 != 0 { !x & y & !z } else { 0 })
        | (if l & 0x08 != 0 { !x & y & z } else { 0 })
        | (if l & 0x10 != 0 { x & !y & !z } else { 0 })
        | (if l & 0x20 != 0 { x & !y & z } else { 0 })
        | (if l & 0x40 != 0 { x & y & !z } else { 0 })
        | (if l & 0x80 != 0 { x & y & z } else { 0 })
    }
}

fn src_mask_of(i: usize) -> (r: u8)
    requires
        i < 3,
    ensures
        r == src_mask(i as int),
{
    if i == 0 {
        SRC_MASK_0
    } else if i == 1 {
        SRC_MASK_1
    } else {
        SRC_MASK_2
    }
}

/// The index of the lowest set bit of input `i`'s mask.
fn src_shift_of(i: usize) -> (r: u8)
    requires
        i < 3,
    ensures
        r == src_shift(i as int),
{
    if i == 0 {
        4
    } else if i == 1 {
        2
    } else {
        1
    }
}

/// The truth table of each two-input operation, applied to three values,
/// is that operation on the first two; the third does not matter.
pub proof fn lemma_lop2_lut_eval(op: LogicOp2, x: u32, y: u32, z: u32)
    ensures
        spec_lop3_eval(spec_lop2_lut(op), x, y, z) == spec_lop2(op, x, y),
{
    match op {
        LogicOp2::And => {
            assert(spec_lop3_eval(0xf0u8 & 0xccu8, x, y, z) == x & y) by (bit_vector);
        },
        LogicOp2::Or => {
            assert(spec_lop3_eval(0xf0u8 | 0xccu8, x, y, z) == x | y) by (bit_vector);
        },
        LogicOp2::Xor => {
            assert(spec_lop3_eval(0xf0u8 ^ 0xccu8, x, y, z) == x ^ y) by (bit_vector);
        },
        LogicOp2::PassB => {
            assert(spec_lop3_eval(0xccu8, x, y, z) == y) by (bit_vector);
        },
    }
}

/// The all-ones or all-zeros word for a fixed input value.
pub open spec fn fixed_word(val: bool) -> u32 {
    if val { 0xffff_ffffu32 } else { 0u32 }
}

/// Fixing input `i` of a table to `val` gives the table that computes the
/// same as the original one with that input held at `val` on every bit.
pub proof fn lemma_fix_src(lut: u8, i: int, val: bool, x: u32, y: u32, z: u32)
    requires
        0 <= i < 3,
    ensures
        spec_lop3_eval(spec_fix_src(lut, i, val), x, y, z) == spec_lop3_eval(
            lut,
            if i == 0 { fixed_word(val) } else { x },
            if i == 1 { fixed_word(val) } else { y },
            if i == 2 { fixed_word(val) } else { z },
        ),
{
    if i == 0 {
        assert(spec_lop3_eval(((lut & 0xf0u8) | ((lut & 0xf0u8) >> 4u8)) as u8, x, y, z) == spec_lop3_eval(lut, 0xffff_ffffu32, y, z)
            && spec_lop3_eval((((lut & !0xf0u8) << 4u8) | (lut & !0xf0u8)) as u8, x, y, z) == spec_lop3_eval(lut, 0u32, y, z))
            by (bit_vector);
    } else if i == 1 {
        assert(spec_lop3_eval(((lut & 0xccu8) | ((lut & 0xccu8) >> 2u8)) as u8, x, y, z) == spec_lop3_eval(lut, x, 0xffff_ffffu32, z)
            && spec_lop3_eval((((lut & !0xccu8) << 2u8) | (lut & !0xccu8)) as u8, x, y, z) == spec_lop3_eval(lut, x, 0u32, z))
            by (bit_vector);
    } else {
        assert(spec_lop3_eval(((lut & 0xaau8) | ((lut & 0xaau8) >> 1u8)) as u8, x, y, z) == spec_lop3_eval(lut, x, y, 0xffff_ffffu32)
            && spec_lop3_eval((((lut & !0xaau8) << 1u8) | (lut & !0xaau8)) as u8, x, y, z) == spec_lop3_eval(lut, x, y, 0u32))
            by (bit_vector);
    }
}

/// Inverting input `i` of a table gives the table that computes the same as
/// the original one on that input inverted.
pub proof fn lemma_invert_src(lut: u8, i: int, x: u32, y: u32, z: u32)
    requires
        0 <= i < 3,
    ensures
        spec_lop3_eval(spec_invert_src(lut, i), x, y, z) == spec_lop3_eval(
            lut,
            if i == 0 { !x } else { x },
            if i == 1 { !y } else { y },
            if i == 2 { !z } else { z },
        ),
{
    if i == 0 {
        assert(spec_lop3_eval((((lut & !0xf0u8) << 4u8) | ((lut & 0xf0u8) >> 4u8)) as u8, x, y, z) == spec_lop3_eval(lut, !x, y, z))
            by (bit_vector);
    } else if i == 1 {
        assert(spec_lop3_eval((((lut & !0xccu8) << 2u8) | ((lut & 0xccu8) >> 2u8)) as u8, x, y, z) == spec_lop3_eval(lut, x, !y, z))
            by (bit_vector);
    } else {
        assert(spec_lop3_eval((((lut & !0xaau8) << 1u8) | ((lut & 0xaau8) >> 1u8)) as u8, x, y, z) == spec_lop3_eval(lut, x, y, !z))
            by (bit_vector);
    }
}

} // verus!
