use vstd::prelude::*;

verus! {

/// An integer type of an instruction.
#[derive(Clone, Copy, PartialEq, Eq, Structural, Debug)]
pub enum IntType {
    U8,
    I8,
    U16,
    I16,
    U32,
    I32,
    U64,
    I64,
}

pub open spec fn spec_int_type_bits(t: IntType) -> nat {
    match t {
        IntType::U8 | IntType::I8 => 8,
        IntType::U16 | IntType::I16 => 16,
        IntType::U32 | IntType::I32 => 32,
        IntType::U64 | IntType::I64 => 64,
    }
}

pub open spec fn spec_int_type_signed(t: IntType) -> bool {
    t is I8 || t is I16 || t is I32 || t is I64
}

impl IntType {
    /// The integer type of the given width and signedness.
    pub fn from_bits(bits: usize, is_signed: bool) -> (r: IntType)
        requires
            bits == 8 || bits == 16 || bits == 32 || bits == 64,
        ensures
            spec_int_type_bits(r) == bits,
            spec_int_type_signed(r) == is_signed,
    {
        match bits {
            8 => if is_signed { IntType::I8 } else { IntType::U8 },
            16 => if is_signed { IntType::I16 } else { IntType::U16 },
            32 => if is_signed { IntType::I32 } else { IntType::U32 },
            _ => if is_signed { IntType::I64 } else { IntType::U64 },
        }
    }

    pub fn is_signed(&self) -> (r: bool)
        ensures
            r == spec_int_type_signed(*self),
    {
        match self {
            IntType::U8 | IntType::U16 | IntType::U32 | IntType::U64 => false,
            IntType::I8 | IntType::I16 | IntType::I32 | IntType::I64 => true,
        }
    }

    pub fn bits(&self) -> (r: usize)
        ensures
            r == spec_int_type_bits(*self),
    {
        match self {
            IntType::U8 | IntType::I8 => 8,
            IntType::U16 | IntType::I16 => 16,
            IntType::U32 | IntType::I32 => 32,
            IntType::U64 | IntType::I64 => 64,
        }
    }

    pub open spec fn spec_suffix(&self) -> Seq<char> {
        match *self {
            IntType::U8 => ".u8"@,
            IntType::I8 => ".i8"@,
            IntType::U16 => ".u16"@,
            IntType::I16 => ".i16"@,
            IntType::U32 => ".u32"@,
            IntType::I32 => ".i32"@,
            IntType::U64 => ".u64"@,
            IntType::I64 => ".i64"@,
        }
    }

    pub fn suffix(&self) -> (r: &'static str)
        ensures
            r@ == self.spec_suffix(),
    {
        match self {
            IntType::U8 => ".u8",
            IntType::I8 => ".i8",
            IntType::U16 => ".u16",
            IntType::I16 => ".i16",
            IntType::U32 => ".u32",
            IntType::I32 => ".i32",
            IntType::U64 => ".u64",
            IntType::I64 => ".i64",
        }
    }
}

/// A floating-point type of an instruction.
#[derive(Clone, Copy, PartialEq, Eq, Structural, Debug)]
pub enum FloatType {
    F16,
    F32,
    F64,
}

pub open spec fn spec_float_type_bits(t: FloatType) -> nat {
    match t {
        FloatType::F16 => 16,
        FloatType::F32 => 32,
        FloatType::F64 => 64,
    }
}

impl FloatType {
    /// The float type of the given width.
    pub fn from_bits(bytes: usize) -> (r: FloatType)
        requires
            bytes == 16 || bytes == 32 || bytes == 64,
        ensures
            spec_float_type_bits(r) == bytes,
    {
        match bytes {
            16 => FloatType::F16,
            32 => FloatType::F32,
            _ => FloatType::F64,
        }
    }

    pub fn bits(&self) -> (r: usize)
        ensures
            r == spec_float_type_bits(*self),
    {
        match self {
            FloatType::F16 => 16,
            FloatType::F32 => 32,
            FloatType::F64 => 64,
        }
    }
}

/// An image dimensionality.
#[derive(Clone, Copy, PartialEq, Eq, Structural, Debug)]
pub enum ImageDim {
    _1D,
    _1DBuffer,
    _1DArray,
    _2D,
    _2DArray,
    _3D,
}

impl ImageDim {
    /// The number of coordinate components, array index included.
    pub fn coord_comps(&self) -> (r: u8)
        ensures
            r == match *self {
                ImageDim::_1D | ImageDim::_1DBuffer => 1u8,
                ImageDim::_1DArray | ImageDim::_2D => 2u8,
                ImageDim::_2DArray | ImageDim::_3D => 3u8,
            },
    {
        match self {
            ImageDim::_1D => 1,
            ImageDim::_1DBuffer => 1,
            ImageDim::_1DArray => 2,
            ImageDim::_2D => 2,
            ImageDim::_2DArray => 3,
            ImageDim::_3D => 3,
        }
    }
}

/// The width of a memory address.
#[derive(Clone, Copy, PartialEq, Eq, Structural, Debug)]
pub enum MemAddrType {
    A32,
    A64,
}

/// The type of a memory access.
#[derive(Clone, Copy, PartialEq, Eq, Structural, Debug)]
pub enum MemType {
    U8,
    I8,
    U16,
    I16,
    B32,
    B64,
    B128,
}

pub open spec fn spec_mem_type_bits(t: MemType) -> nat {
    match t {
        MemType::U8 | MemType::I8 => 8,
        MemType::U16 | MemType::I16 => 16,
        MemType::B32 => 32,
        MemType::B64 => 64,
        MemType::B128 => 128,
    }
}

impl MemType {
    /// The access type of `size` bytes; only sub-word accesses are signed.
    pub fn from_size(size: u8, is_signed: bool) -> (r: MemType)
        requires
            size == 1 || size == 2 || size == 4 || size == 8 || size == 16,
        ensures
            spec_mem_type_bits(r) == 8 * size,
            size == 1 ==> r == if is_signed { MemType::I8 } else { MemType::U8 },
            size == 2 ==> r == if is_signed { MemType::I16 } else { MemType::U16 },
    {
        match size {
            1 => if is_signed { MemType::I8 } else { MemType::U8 },
            2 => if is_signed { MemType::I16 } else { MemType::U16 },
            4 => MemType::B32,
            8 => MemType::B64,
            _ => MemType::B128,
        }
    }

    pub fn bits(&self) -> (r: usize)
        ensures
            r == spec_mem_type_bits(*self),
    {
        match self {
            MemType::U8 | MemType::I8 => 8,
            MemType::U16 | MemType::I16 => 16,
            MemType::B32 => 32,
            MemType::B64 => 64,
            MemType::B128 => 128,
        }
    }
}

/// The scope of a memory ordering.
#[derive(Clone, Copy, PartialEq, Eq, Structural, Debug)]
pub enum MemScope {
    CTA,
    GPU,
    System,
}

/// The ordering of a memory access.
#[derive(Clone, Copy, PartialEq, Eq, Structural, Debug)]
pub enum MemOrder {
    Constant,
    Weak,
    Strong(MemScope),
}

/// A memory space.
#[derive(Clone, Copy, PartialEq, Eq, Structural, Debug)]
pub enum MemSpace {
    Global(MemAddrType),
    Local,
    Shared,
}

impl MemSpace {
    pub fn addr_type(&self) -> (r: MemAddrType)
        ensures
            r == match *self {
                MemSpace::Global(t) => t,
                _ => MemAddrType::A32,
            },
    {
        match self {
            MemSpace::Global(t) => *t,
            MemSpace::Local => MemAddrType::A32,
            MemSpace::Shared => MemAddrType::A32,
        }
    }
}

/// A cache eviction hint.
#[derive(Clone, Copy, PartialEq, Eq, Structural, Debug)]
pub enum MemEvictionPriority {
    First,
    Normal,
    Last,
    LastUse,
    Unchanged,
    NoAllocate,
}

/// The cache behavior of a load.
#[derive(Clone, Copy, PartialEq, Eq, Structural, Debug)]
pub enum LdCacheOp {
    CacheAll,
    CacheGlobal,
    CacheIncoherent,
    CacheStreaming,
    CacheInvalidate,
}

impl LdCacheOp {
    pub open spec fn spec_select(sm: u8, space: MemSpace, order: MemOrder) -> LdCacheOp {
        match space {
            MemSpace::Global(_) => match order {
                MemOrder::Constant => if sm >= 50 { LdCacheOp::CacheIncoherent } else { LdCacheOp::CacheAll },
                MemOrder::Strong(MemScope::System) => LdCacheOp::CacheInvalidate,
                _ => if sm >= 50 { LdCacheOp::CacheAll } else { LdCacheOp::CacheGlobal },
            },
            _ => LdCacheOp::CacheAll,
        }
    }

    /// The cache behavior for a load on shader model `sm`: constant global
    /// loads are incoherent from SM50 on, system-scope strong loads bypass
    /// the cache, other global loads are cached globally before SM50, and
    /// everything else is cached at all levels.
    pub fn select(sm: u8, space: MemSpace, order: MemOrder, _eviction_priority: MemEvictionPriority) -> (r: Self)
        ensures
            r == LdCacheOp::spec_select(sm, space, order),
    {
        match space {
            MemSpace::Global(_) => match order {
                MemOrder::Constant => {
                    if sm >= 50 {
                        LdCacheOp::CacheIncoherent
                    } else {
                        LdCacheOp::CacheAll
                    }
                },
                MemOrder::Strong(MemScope::System) => LdCacheOp::CacheInvalidate,
                _ => {
                    // Kepler caches global data in L2 only; from Maxwell on
                    // caching at all levels is safe.
                    if sm >= 50 {
                        LdCacheOp::CacheAll
                    } else {
                        LdCacheOp::CacheGlobal
                    }
                },
            },
            MemSpace::Local | MemSpace::Shared => LdCacheOp::CacheAll,
        }
    }
}

/// The cache behavior of a store.
#[derive(Clone, Copy, PartialEq, Eq, Structural, Debug)]
pub enum StCacheOp {
    WriteBack,
    CacheGlobal,
    CacheStreaming,
    WriteThrough,
}

impl StCacheOp {
    pub open spec fn spec_select(sm: u8, space: MemSpace, order: MemOrder) -> StCacheOp {
        match space {
            MemSpace::Global(_) => match order {
                MemOrder::Strong(MemScope::System) => StCacheOp::WriteThrough,
                _ => if sm >= 50 { StCacheOp::WriteBack } else { StCacheOp::CacheGlobal },
            },
            _ => StCacheOp::WriteBack,
        }
    }

    /// The cache behavior for a store on shader model `sm`. There are no
    /// stores to constant memory.
    pub fn select(sm: u8, space: MemSpace, order: MemOrder, _eviction_priority: MemEvictionPriority) -> (r: Self)
        requires
            space is Global ==> !(order is Constant),
        ensures
            r == StCacheOp::spec_select(sm, space, order),
    {
        match space {
            MemSpace::Global(_) => match order {
                MemOrder::Strong(MemScope::System) => StCacheOp::WriteThrough,
                _ => {
                    if sm >= 50 {
                        StCacheOp::WriteBack
                    } else {
                        StCacheOp::CacheGlobal
                    }
                },
            },
            MemSpace::Local | MemSpace::Shared => StCacheOp::WriteBack,
        }
    }
}

/// The type of an atomic operation.
#[derive(Clone, Copy, PartialEq, Eq, Structural, Debug)]
pub enum AtomType {
    F16x2,
    U32,
    I32,
    F32,
    U64,
    I64,
    F64,
}

impl AtomType {
    /// The float atomic type of the given width.
    #[allow(non_snake_case)]
    pub fn F(bits: u8) -> (r: AtomType)
        requires
            bits == 32 || bits == 64,
        ensures
            r == if bits == 32 { AtomType::F32 } else { AtomType::F64 },
    {
        if bits == 32 {
            AtomType::F32
        } else {
            AtomType::F64
        }
    }

    /// The unsigned atomic type of the given width.
    #[allow(non_snake_case)]
    pub fn U(bits: u8) -> (r: AtomType)
        requires
            bits == 32 || bits == 64,
        ensures
            r == if bits == 32 { AtomType::U32 } else { AtomType::U64 },
    {
        if bits == 32 {
            AtomType::U32
        } else {
            AtomType::U64
        }
    }

    /// The signed atomic type of the given width.
    #[allow(non_snake_case)]
    pub fn I(bits: u8) -> (r: AtomType)
        requires
            bits == 32 || bits == 64,
        ensures
            r == if bits == 32 { AtomType::I32 } else { AtomType::I64 },
    {
        if bits == 32 {
            AtomType::I32
        } else {
            AtomType::I64
        }
    }

    pub fn bits(&self) -> (r: usize)
        ensures
            r == if *self is U64 || *self is I64 || *self is F64 { 64usize } else { 32usize },
    {
        match self {
            AtomType::F16x2 | AtomType::F32 | AtomType::U32 | AtomType::I32 => 32,
            AtomType::U64 | AtomType::I64 | AtomType::F64 => 64,
        }
    }

    pub fn is_float(&self) -> (r: bool)
        ensures
            r == (*self is F16x2 || *self is F32 || *self is F64),
    {
        match self {
            AtomType::F16x2 | AtomType::F32 | AtomType::F64 => true,
            AtomType::U32 | AtomType::I32 | AtomType::U64 | AtomType::I64 => false,
        }
    }
}

/// How the comparison value of a compare-exchange is supplied.
#[derive(Clone, Copy, PartialEq, Eq, Structural, Debug)]
pub enum AtomCmpSrc {
    Separate,
    Packed,
}

/// An atomic operation.
#[derive(Clone, Copy, PartialEq, Eq, Structural, Debug)]
pub enum AtomOp {
    Add,
    Min,
    Max,
    Inc,
    Dec,
    And,
    Or,
    Xor,
    Exch,
    CmpExch(AtomCmpSrc),
}

impl AtomOp {
    /// Whether the operation may be done as a reduction, which returns no
    /// value: all but the exchanges.
    pub fn is_reduction(&self) -> (r: bool)
        ensures
            r == !(*self is Exch || *self is CmpExch),
    {
        match self {
            AtomOp::Exch | AtomOp::CmpExch(_) => false,
            _ => true,
        }
    }
}

} // verus!
