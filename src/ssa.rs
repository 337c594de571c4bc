use vstd::prelude::*;
use crate::reg::{RegFile, spec_file_gpr, spec_file_predicate, spec_file_uniform};

verus! {

/// A virtual register value, defined once.
#[derive(Clone, Copy, PartialEq, Eq, Structural, Debug)]
pub struct SSAValue {
    pub idx: u32,
    pub file: RegFile,
}

/// A vector of one to four SSA values used together as one operand.
#[derive(Clone)]
pub struct SSARef {
    vals: Vec<SSAValue>,
}

/// The register file shared by all of `vals`, if they share one.
pub open spec fn common_file(vals: Seq<SSAValue>) -> Option<RegFile> {
    if vals.len() > 0 && forall|i: int| 0 <= i < vals.len() ==> #[trigger] vals[i].file == vals[0].file {
        Some(vals[0].file)
    } else {
        None
    }
}

impl SSARef {
    pub open spec fn view(&self) -> Seq<SSAValue> {
        self.spec_vals()
    }

    pub closed spec fn spec_vals(&self) -> Seq<SSAValue> {
        self.vals@
    }

    /// The register file of all components, if they share one.
    pub open spec fn spec_file(&self) -> Option<RegFile> {
        common_file(self@)
    }

    /// A reference to the given values, in order.
    pub fn new(vals: Vec<SSAValue>) -> (r: SSARef)
        requires
            1 <= vals@.len() <= 4,
        ensures
            r@ == vals@,
    {
        SSARef { vals }
    }

    /// A reference to a single value.
    pub fn from_value(v: SSAValue) -> (r: SSARef)
        ensures
            r@ == seq![v],
    {
        let mut vals: Vec<SSAValue> = Vec::new();
        vals.push(v);
        SSARef { vals }
    }

    /// The values referenced, in order.
    pub fn values(&self) -> (r: &[SSAValue])
        ensures
            r@ == self@,
    {
        self.vals.as_slice()
    }

    /// The number of values referenced.
    pub fn comps(&self) -> (r: usize)
        ensures
            r == self@.len(),
    {
        self.vals.len()
    }

    /// The register file of all components, or `None` if they differ.
    pub fn file(&self) -> (r: Option<RegFile>)
        ensures
            r == self.spec_file(),
    {
        let n = self.vals.len();
        if n == 0 {
            return None;
        }
        let f = self.vals[0].file;
        let mut i: usize = 1;
        while i < n
            invariant
                n == self@.len(),
                1 <= i <= n,
                f == self@[0].file,
                forall|j: int| 0 <= j < i ==> #[trigger] self@[j].file == f,
            decreases n - i,
        {
            if self.vals[i].file != f {
                return None;
            }
            i = i + 1;
        }
        Some(f)
    }

    /// Whether all components live in one uniform register file.
    pub fn is_uniform(&self) -> (r: bool)
        ensures
            r == (self.spec_file() matches Some(f) && spec_file_uniform(f)),
    {
        match self.file() {
            Some(f) => f.is_uniform(),
            None => false,
        }
    }

    /// Whether all components are GPR or UGPR values.
    pub fn is_gpr(&self) -> (r: bool)
        ensures
            r == (self.spec_file() matches Some(f) && spec_file_gpr(f)),
    {
        match self.file() {
            Some(f) => f.is_gpr(),
            None => false,
        }
    }

    /// Whether all components are predicate values.
    pub fn is_predicate(&self) -> (r: bool)
        ensures
            r == (self.spec_file() matches Some(f) && spec_file_predicate(f)),
    {
        match self.file() {
            Some(f) => f.is_predicate(),
            None => false,
        }
    }
}

} // verus!
