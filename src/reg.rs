use vstd::prelude::*;

verus! {

/// A branch target, allocated by a `LabelAllocator`.
#[derive(Clone, Copy, PartialEq, Eq, Structural, Debug)]
pub struct Label {
    pub idx: u32,
}

/// Hands out labels with strictly increasing indices.
pub struct LabelAllocator {
    pub count: u32,
}

impl LabelAllocator {
    pub fn new() -> (r: LabelAllocator)
        ensures
            r.count == 0,
    {
        LabelAllocator { count: 0 }
    }

    /// Returns a label never handed out before by this allocator.
    pub fn alloc_label(&mut self) -> (r: Label)
        requires
            old(self).count < u32::MAX,
        ensures
            r.idx == old(self).count,
            final(self).count == old(self).count + 1,
    {
        let idx = self.count;
        self.count = self.count + 1;
        Label { idx: idx }
    }
}

/// A register file.
#[derive(Clone, Copy, Debug, PartialEq, Eq, Structural)]
pub enum RegFile {
    /// General-purpose registers, 32 bits per SIMT channel.
    GPR,
    /// General-purpose registers uniform across a wave.
    UGPR,
    /// Predicate registers, 1 bit per SIMT channel.
    Pred,
    /// Predicate registers uniform across a wave.
    UPred,
    /// The carry flag.
    Carry,
    /// Barrier lane masks used for re-convergence.
    Bar,
    /// Virtual registers that live in local memory.
    Mem,
}

pub const NUM_REG_FILES: usize = 7;

/// The stable ordinal of a register file.
pub open spec fn file_index(file: RegFile) -> nat {
    match file {
        RegFile::GPR => 0,
        RegFile::UGPR => 1,
        RegFile::Pred => 2,
        RegFile::UPred => 3,
        RegFile::Carry => 4,
        RegFile::Bar => 5,
        RegFile::Mem => 6,
    }
}

/// The register file with ordinal `i`, if any.
pub open spec fn file_of_index(i: int) -> Option<RegFile> {
    if i == 0 {
        Some(RegFile::GPR)
    } else if i == 1 {
        Some(RegFile::UGPR)
    } else if i == 2 {
        Some(RegFile::Pred)
    } else if i == 3 {
        Some(RegFile::UPred)
    } else if i == 4 {
        Some(RegFile::Carry)
    } else if i == 5 {
        Some(RegFile::Bar)
    } else if i == 6 {
        Some(RegFile::Mem)
    } else {
        None
    }
}

pub open spec fn spec_file_uniform(file: RegFile) -> bool {
    file == RegFile::UGPR || file == RegFile::UPred
}

pub open spec fn spec_file_gpr(file: RegFile) -> bool {
    file == RegFile::GPR || file == RegFile::UGPR
}

pub open spec fn spec_file_predicate(file: RegFile) -> bool {
    file == RegFile::Pred || file == RegFile::UPred
}

/// Error text for an out-of-range register file number.
pub const INVALID_REG_FILE: &'static str = "Invalid register file number";

impl RegFile {
    /// Returns true if the register file is uniform across a wave.
    pub fn is_uniform(&self) -> (r: bool)
        ensures
            r == spec_file_uniform(*self),
    {
        match self {
            RegFile::GPR | RegFile::Pred | RegFile::Carry | RegFile::Bar | RegFile::Mem => false,
            RegFile::UGPR | RegFile::UPred => true,
        }
    }

    /// Returns the uniform form of this register file, if any.
    pub fn to_uniform(self) -> (r: Option<RegFile>)
        ensures
            spec_file_gpr(self) ==> r == Some(RegFile::UGPR),
            spec_file_predicate(self) ==> r == Some(RegFile::UPred),
            !spec_file_gpr(self) && !spec_file_predicate(self) ==> r.is_none(),
    {
        match self {
            RegFile::GPR | RegFile::UGPR => Some(RegFile::UGPR),
            RegFile::Pred | RegFile::UPred => Some(RegFile::UPred),
            RegFile::Carry | RegFile::Bar | RegFile::Mem => None,
        }
    }

    /// Returns the per-lane form of this register file.
    pub fn to_warp(self) -> (r: RegFile)
        ensures
            spec_file_gpr(self) ==> r == RegFile::GPR,
            spec_file_predicate(self) ==> r == RegFile::Pred,
            !spec_file_gpr(self) && !spec_file_predicate(self) ==> r == self,
    {
        match self {
            RegFile::GPR | RegFile::UGPR => RegFile::GPR,
            RegFile::Pred | RegFile::UPred => RegFile::Pred,
            RegFile::Carry | RegFile::Bar | RegFile::Mem => self,
        }
    }

    /// Returns true if the register file is GPR or UGPR.
    pub fn is_gpr(&self) -> (r: bool)
        ensures
            r == spec_file_gpr(*self),
    {
        match self {
            RegFile::GPR | RegFile::UGPR => true,
            RegFile::Pred | RegFile::UPred | RegFile::Carry | RegFile::Bar | RegFile::Mem => false,
        }
    }

    /// Returns true if the register file is a predicate register file.
    pub fn is_predicate(&self) -> (r: bool)
        ensures
            r == spec_file_predicate(*self),
    {
        match self {
            RegFile::GPR | RegFile::UGPR | RegFile::Carry | RegFile::Bar | RegFile::Mem => false,
            RegFile::Pred | RegFile::UPred => true,
        }
    }

    /// The prefix used when printing a register of this file.
    pub fn fmt_prefix(&self) -> (r: &'static str)
        ensures
            *self == RegFile::GPR ==> r@ == "r"@,
            *self == RegFile::UGPR ==> r@ == "ur"@,
            *self == RegFile::Pred ==> r@ == "p"@,
            *self == RegFile::UPred ==> r@ == "up"@,
            *self == RegFile::Carry ==> r@ == "c"@,
            *self == RegFile::Bar ==> r@ == "b"@,
            *self == RegFile::Mem ==> r@ == "m"@,
    {
        proof {
            reveal_strlit("r");
            reveal_strlit("ur");
            reveal_strlit("p");
            reveal_strlit("up");
            reveal_strlit("c");
            reveal_strlit("b");
            reveal_strlit("m");
        }
        match self {
            RegFile::GPR => "r",
            RegFile::UGPR => "ur",
            RegFile::Pred => "p",
            RegFile::UPred => "up",
            RegFile::Carry => "c",
            RegFile::Bar => "b",
            RegFile::Mem => "m",
        }
    }

    /// The name of this register file.
    pub fn name(&self) -> (r: &'static str)
        ensures
            *self == RegFile::GPR ==> r@ == "GPR"@,
            *self == RegFile::UGPR ==> r@ == "UGPR"@,
            *self == RegFile::Pred ==> r@ == "Pred"@,
            *self == RegFile::UPred ==> r@ == "UPred"@,
            *self == RegFile::Carry ==> r@ == "Carry"@,
            *self == RegFile::Bar ==> r@ == "Bar"@,
            *self == RegFile::Mem ==> r@ == "Mem"@,
    {
        proof {
            reveal_strlit("GPR");
            reveal_strlit("UGPR");
            reveal_strlit("Pred");
            reveal_strlit("UPred");
            reveal_strlit("Carry");
            reveal_strlit("Bar");
            reveal_strlit("Mem");
        }
        match self {
            RegFile::GPR => "GPR",
            RegFile::UGPR => "UGPR",
            RegFile::Pred => "Pred",
            RegFile::UPred => "UPred",
            RegFile::Carry => "Carry",
            RegFile::Bar => "Bar",
            RegFile::Mem => "Mem",
        }
    }

    /// The stable ordinal of this register file.
    pub fn to_u8(self) -> (r: u8)
        ensures
            r as nat == file_index(self),
    {
        match self {
            RegFile::GPR => 0,
            RegFile::UGPR => 1,
            RegFile::Pred => 2,
            RegFile::UPred => 3,
            RegFile::Carry => 4,
            RegFile::Bar => 5,
            RegFile::Mem => 6,
        }
    }

    /// The register file with ordinal `value`, or an error if there is none.
    pub fn try_from(value: u32) -> (r: Result<RegFile, &'static str>)
        ensures
            value < 7 ==> r == Ok::<RegFile, &'static str>(file_of_index(value as int).unwrap()),
            value >= 7 ==> r.is_err() && r->Err_0@ == INVALID_REG_FILE@,
            r matches Ok(f) ==> file_index(f) == value,
    {
        match value {
            0 => Ok(RegFile::GPR),
            1 => Ok(RegFile::UGPR),
            2 => Ok(RegFile::Pred),
            3 => Ok(RegFile::UPred),
            4 => Ok(RegFile::Carry),
            5 => Ok(RegFile::Bar),
            6 => Ok(RegFile::Mem),
            _ => Err(INVALID_REG_FILE),
        }
    }

    /// `try_from` on a 16-bit number.
    pub fn try_from_u16(value: u16) -> (r: Result<RegFile, &'static str>)
        ensures
            value < 7 ==> r == Ok::<RegFile, &'static str>(file_of_index(value as int).unwrap()),
            value >= 7 ==> r.is_err() && r->Err_0@ == INVALID_REG_FILE@,
    {
        RegFile::try_from(value as u32)
    }

    /// `try_from` on an 8-bit number.
    pub fn try_from_u8(value: u8) -> (r: Result<RegFile, &'static str>)
        ensures
            value < 7 ==> r == Ok::<RegFile, &'static str>(file_of_index(value as int).unwrap()),
            value >= 7 ==> r.is_err() && r->Err_0@ == INVALID_REG_FILE@,
    {
        RegFile::try_from(value as u32)
    }
}

/// A set of register files, one bit per file ordinal.
#[derive(Clone, Copy)]
pub struct RegFileSet {
    pub bits: u8,
}

/// How many of the files with ordinals below `k` are in `set`.
pub open spec fn count_files(set: Set<RegFile>, k: nat) -> nat
    decreases k,
{
    if k == 0 {
        0
    } else {
        count_files(set, (k - 1) as nat) + if set.contains(file_of_index(k - 1).unwrap()) { 1nat } else { 0 }
    }
}

/// Whether the set with bit pattern `bits` holds the file with ordinal `i`.
pub open spec fn bits_has(bits: u8, i: nat) -> bool {
    (bits >> (i as u8)) & 1 == 1
}

impl RegFileSet {
    /// The register files in the set.
    pub open spec fn view(&self) -> Set<RegFile> {
        Set::new(|f: RegFile| bits_has(self.bits, file_index(f)))
    }

    /// Only the seven file ordinals may be present.
    pub open spec fn wf(&self) -> bool {
        self.bits < 128
    }

    pub fn new() -> (r: RegFileSet)
        ensures
            r@ == Set::<RegFile>::empty(),
            r.wf(),
    {
        let r = RegFileSet { bits: 0 };
        proof {
            assert forall|f: RegFile| !bits_has(0u8, file_index(f)) by {
                let i = file_index(f) as u8;
                assert((0u8 >> i) & 1 == 0) by (bit_vector);
            }
            assert(r@ =~= Set::<RegFile>::empty());
        }
        r
    }

    /// Whether `file` is in the set.
    pub fn contains(&self, file: RegFile) -> (r: bool)
        ensures
            r == self@.contains(file),
    {
        let i = file.to_u8();
        let r = self.bits & (1u8 << i) != 0;
        proof {
            let b = self.bits;
            assert(i < 7);
            assert(i < 7 ==> ((b & (1u8 << i) != 0) == ((b >> i) & 1 == 1))) by (bit_vector);
        }
        r
    }

    /// Adds `file`; returns whether it was absent before.
    pub fn insert(&mut self, file: RegFile) -> (r: bool)
        requires
            old(self).wf(),
        ensures
            final(self).wf(),
            final(self)@ == old(self)@.insert(file),
            r == !old(self)@.contains(file),
    {
        let has_file = self.contains(file);
        let i = file.to_u8();
        let b0 = self.bits;
        self.bits = self.bits | (1u8 << i);
        proof {
            let b1 = self.bits;
            assert(i < 7 && b0 < 128 && b1 == b0 | (1u8 << i) ==> b1 < 128) by (bit_vector);
            assert forall|g: RegFile| #[trigger] bits_has(b1, file_index(g)) == (bits_has(b0, file_index(g)) || g == file) by {
                let j = file_index(g) as u8;
                assert(j < 7);
                assert(i < 7 && j < 7 && b1 == b0 | (1u8 << i) ==> (((b1 >> j) & 1 == 1) == (((b0 >> j) & 1 == 1) || i == j))) by (bit_vector);
            }
            assert(self@ =~= old(self)@.insert(file));
        }
        !has_file
    }

    /// Removes `file`; returns whether it was present before.
    pub fn remove(&mut self, file: RegFile) -> (r: bool)
        requires
            old(self).wf(),
        ensures
            final(self).wf(),
            final(self)@ == old(self)@.remove(file),
            r == old(self)@.contains(file),
    {
        let has_file = self.contains(file);
        let i = file.to_u8();
        let b0 = self.bits;
        self.bits = self.bits & !(1u8 << i);
        proof {
            let b1 = self.bits;
            assert(b0 < 128 && b1 == b0 & !(1u8 << i) ==> b1 < 128) by (bit_vector);
            assert forall|g: RegFile| #[trigger] bits_has(b1, file_index(g)) == (bits_has(b0, file_index(g)) && g != file) by {
                let j = file_index(g) as u8;
                assert(j < 7);
                assert(i < 7 && j < 7 && b1 == b0 & !(1u8 << i) ==> (((b1 >> j) & 1 == 1) == (((b0 >> j) & 1 == 1) && i != j))) by (bit_vector);
            }
            assert(self@ =~= old(self)@.remove(file));
        }
        has_file
    }

    /// The set of the files in `files`.
    pub fn from_files(files: &[RegFile]) -> (r: RegFileSet)
        ensures
            r.wf(),
            r@ == files@.to_set(),
    {
        let mut set = RegFileSet::new();
        let mut i: usize = 0;
        while i < files.len()
            invariant
                i <= files@.len(),
                set.wf(),
                set@ == files@.take(i as int).to_set(),
            decreases files@.len() - i,
        {
            set.insert(files[i]);
            proof {
                assert(files@.take(i + 1) =~= files@.take(i as int).push(files@[i as int]));
                files@.take(i as int).lemma_push_to_set_commute(files@[i as int]);
            }
            i = i + 1;
        }
        proof {
            assert(files@.take(files@.len() as int) =~= files@);
        }
        set
    }

    /// A copy of the set, to draw its files from in order with `next`.
    pub fn iter(&self) -> (r: RegFileSet)
        ensures
            r@ == self@,
            r.bits == self.bits,
    {
        RegFileSet { bits: self.bits }
    }

    /// The number of files in the set.
    pub fn len(&self) -> (r: usize)
        ensures
            r == count_files(self@, 7),
    {
        let mut n: usize = 0;
        let mut i: u32 = 0;
        while i < 7
            invariant
                i <= 7,
                n == count_files(self@, i as nat),
                n <= i,
            decreases 7 - i,
        {
            let f = match RegFile::try_from(i) {
                Ok(f) => f,
                Err(_) => RegFile::GPR,
            };
            if self.contains(f) {
                n = n + 1;
            }
            i = i + 1;
        }
        n
    }

    /// Whether the set holds no file.
    pub fn is_empty(&self) -> (r: bool)
        ensures
            r == (self@ == Set::<RegFile>::empty()),
    {
        match self.first() {
            Some(f) => {
                assert(self@.contains(f));
                false
            },
            None => {
                assert(self@ =~= Set::<RegFile>::empty());
                true
            },
        }
    }

    /// The file of lowest ordinal in the set, if any.
    fn first(&self) -> (r: Option<RegFile>)
        ensures
            r.is_none() ==> forall|g: RegFile| !self@.contains(g),
            r matches Some(f) ==> self@.contains(f) && forall|g: RegFile|
                self@.contains(g) ==> file_index(f) <= file_index(g),
    {
        let mut i: u32 = 0;
        while i < 7
            invariant
                i <= 7,
                forall|g: RegFile| file_index(g) < i ==> !self@.contains(g),
            decreases 7 - i,
        {
            let f = match RegFile::try_from(i) {
                Ok(f) => f,
                Err(_) => RegFile::GPR,
            };
            if self.contains(f) {
                return Some(f);
            }
            i = i + 1;
        }
        None
    }

    /// Removes and returns the file of lowest ordinal, if any.
    pub fn next(&mut self) -> (r: Option<RegFile>)
        requires
            old(self).wf(),
        ensures
            final(self).wf(),
            old(self)@ == Set::<RegFile>::empty() ==> r.is_none() && final(self)@ == old(self)@,
            r matches Some(f) ==> old(self)@.contains(f) && final(self)@ == old(self)@.remove(f)
                && forall|g: RegFile| old(self)@.contains(g) ==> file_index(f) <= file_index(g),
    {
        match self.first() {
            Some(f) => {
                self.remove(f);
                Some(f)
            },
            None => {
                assert(self@ =~= Set::<RegFile>::empty());
                None
            },
        }
    }
}

/// One value per register file, indexed by file.
pub struct PerRegFile<T> {
    per_file: [T; 7],
}

impl<T> PerRegFile<T> {
    /// The value held for `file`.
    pub closed spec fn spec_index(&self, file: RegFile) -> T {
        self.per_file@[file_index(file) as int]
    }

    /// A container holding `f(file)` for each file, made in file order.
    pub fn new_with<F: Fn(RegFile) -> T>(f: F) -> (r: Self)
        requires
            forall|file: RegFile| #[trigger] f.requires((file,)),
        ensures
            forall|file: RegFile| #[trigger] f.ensures((file,), r.spec_index(file)),
    {
        let r = PerRegFile {
            per_file: [
                f(RegFile::GPR),
                f(RegFile::UGPR),
                f(RegFile::Pred),
                f(RegFile::UPred),
                f(RegFile::Carry),
                f(RegFile::Bar),
                f(RegFile::Mem),
            ],
        };
        proof {
            assert forall|file: RegFile| #[trigger] f.ensures((file,), r.spec_index(file)) by {
                match file {
                    RegFile::GPR => {},
                    RegFile::UGPR => {},
                    RegFile::Pred => {},
                    RegFile::UPred => {},
                    RegFile::Carry => {},
                    RegFile::Bar => {},
                    RegFile::Mem => {},
                }
            }
        }
        r
    }

    /// The value held for `file`.
    pub fn get(&self, file: RegFile) -> (r: &T)
        ensures
            *r == self.spec_index(file),
    {
        &self.per_file[file.to_u8() as usize]
    }

    /// Replaces the value held for `file`.
    pub fn set(&mut self, file: RegFile, value: T)
        ensures
            final(self).spec_index(file) == value,
            forall|g: RegFile| g != file ==> #[trigger] final(self).spec_index(g) == old(self).spec_index(g),
    {
        let i = file.to_u8() as usize;
        self.per_file[i] = value;
        proof {
            assert forall|g: RegFile| g != file implies #[trigger] self.spec_index(g) == old(self).spec_index(g) by {
                assert(file_index(g) != file_index(file));
            }
        }
    }

    /// The values, in file order.
    pub fn values(&self) -> (r: &[T])
        ensures
            r@.len() == NUM_REG_FILES,
            forall|file: RegFile| #[trigger] r@[file_index(file) as int] == self.spec_index(file),
    {
        self.per_file.as_slice()
    }
}

/// A reference to `comps` consecutive registers of one register file,
/// packed as: bits 0..26 the first index, 26..29 `comps - 1`, 29..32 the
/// file ordinal.
#[derive(Clone, Copy, PartialEq, Eq, Structural, Debug)]
pub struct RegRef {
    packed: u32,
}

pub const MAX_REG_IDX: u32 = 0x03ff_ffff;

impl RegRef {
    pub const MAX_IDX: u32 = 0x03ff_ffff;

    #[verifier::type_invariant]
    spec fn inv(self) -> bool {
        (self.packed >> 29u32) & 7 < 7
    }

    /// The index of the first register referenced.
    pub closed spec fn spec_base_idx(self) -> u32 {
        self.packed & 0x03ff_ffff
    }

    /// The number of registers referenced.
    pub closed spec fn spec_comps(self) -> u8 {
        (((self.packed >> 26u32) & 7) + 1) as u8
    }

    /// The register file referenced.
    pub closed spec fn spec_file(self) -> RegFile {
        file_of_index(((self.packed >> 29u32) & 7) as int).unwrap()
    }

    /// The packed reference to `comps` registers of `file` from `base_idx`.
    pub closed spec fn spec_new(file: RegFile, base_idx: u32, comps: u8) -> RegRef {
        RegRef {
            packed: base_idx | ((((comps - 1) as u32) << 26u32) as u32) | (((file_index(file) as u32) << 29u32) as u32),
        }
    }

    /// Creates a reference to `comps` registers of `file` from `base_idx`.
    pub fn new(file: RegFile, base_idx: u32, comps: u8) -> (r: RegRef)
        requires
            base_idx <= MAX_REG_IDX,
            1 <= comps <= 8,
        ensures
            r == RegRef::spec_new(file, base_idx, comps),
            r.spec_file() == file,
            r.spec_base_idx() == base_idx,
            r.spec_comps() == comps,
    {
        let o = file.to_u8() as u32;
        let c = (comps - 1) as u32;
        let packed = base_idx | (c << 26u32) | (o << 29u32);
        assert(base_idx <= 0x03ff_ffff && c < 8 && o < 7 && packed == base_idx | (c << 26u32) | (o << 29u32)
            ==> packed & 0x03ff_ffff == base_idx && (packed >> 26u32) & 7 == c && (packed >> 29u32) & 7 == o)
            by (bit_vector);
        RegRef { packed: packed }
    }

    /// Returns the index of the first register referenced.
    pub fn base_idx(&self) -> (r: u32)
        ensures
            r == self.spec_base_idx(),
            r <= MAX_REG_IDX,
    {
        let p = self.packed;
        assert(p & 0x03ff_ffff <= 0x03ff_ffff) by (bit_vector);
        p & 0x03ff_ffff
    }

    /// Returns the number of registers referenced.
    pub fn comps(&self) -> (r: u8)
        ensures
            r == self.spec_comps(),
            1 <= r <= 8,
    {
        let p = self.packed;
        assert((p >> 26u32) & 7 < 8) by (bit_vector);
        (((p >> 26u32) & 7) + 1) as u8
    }

    /// Returns the register file referenced.
    pub fn file(&self) -> (r: RegFile)
        ensures
            r == self.spec_file(),
    {
        proof {
            use_type_invariant(self);
        }
        match RegFile::try_from((self.packed >> 29u32) & 7) {
            Ok(f) => f,
            Err(_) => RegFile::GPR,
        }
    }

    /// Returns the range of register indices referenced.
    pub fn idx_range(&self) -> (r: std::ops::Range<u32>)
        ensures
            r.start == self.spec_base_idx(),
            r.end == self.spec_base_idx() + self.spec_comps(),
    {
        let start = self.base_idx();
        let end = start + self.comps() as u32;
        start..end
    }

    /// Returns a reference to the single register at `base_idx() + c`.
    pub fn comp(&self, c: u8) -> (r: RegRef)
        requires
            c < self.spec_comps(),
            self.spec_base_idx() + c <= MAX_REG_IDX,
        ensures
            r.spec_file() == self.spec_file(),
            r.spec_base_idx() == self.spec_base_idx() + c,
            r.spec_comps() == 1,
    {
        RegRef::new(self.file(), self.base_idx() + c as u32, 1)
    }

    /// Returns true if the register file is uniform across a wave.
    pub fn is_uniform(&self) -> (r: bool)
        ensures
            r == spec_file_uniform(self.spec_file()),
    {
        self.file().is_uniform()
    }

    /// Returns true if the registers are GPRs or UGPRs.
    pub fn is_gpr(&self) -> (r: bool)
        ensures
            r == spec_file_gpr(self.spec_file()),
    {
        self.file().is_gpr()
    }

    /// Returns true if the registers are predicates.
    pub fn is_predicate(&self) -> (r: bool)
        ensures
            r == spec_file_predicate(self.spec_file()),
    {
        self.file().is_predicate()
    }
}

/// A reference built from a file, a first index and a count reads back as
/// that same triple.
pub proof fn lemma_reg_ref_round_trip(file: RegFile, base_idx: u32, comps: u8)
    requires
        base_idx <= MAX_REG_IDX,
        1 <= comps <= 8,
    ensures
        RegRef::spec_new(file, base_idx, comps).spec_file() == file,
        RegRef::spec_new(file, base_idx, comps).spec_base_idx() == base_idx,
        RegRef::spec_new(file, base_idx, comps).spec_comps() == comps,
{
    let o = file_index(file) as u32;
    let c = (comps - 1) as u32;
    let packed = RegRef::spec_new(file, base_idx, comps).packed;
    assert(packed == base_idx | ((c << 26u32) as u32) | ((o << 29u32) as u32));
    assert(base_idx <= 0x03ff_ffff && c < 8 && o < 7 && packed == base_idx | (c << 26u32) | (o << 29u32)
        ==> packed & 0x03ff_ffff == base_idx && (packed >> 26u32) & 7 == c && (packed >> 29u32) & 7 == o)
        by (bit_vector);
}

} // verus!
