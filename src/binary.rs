//! The compiled unit of kernels that a framework hands to its backends.

use vstd::prelude::*;
use crate::framework::FrameworkKind;

verus! {

/// A compiled set of kernels, valid for the framework that built it.
#[derive(Debug)]
pub struct Binary {
    family: FrameworkKind,
    handle: u64,
    kernels: Vec<String>,
}

/// The value a `Binary` stands for.
pub struct BinaryView {
    pub family: FrameworkKind,
    pub handle: u64,
    pub kernels: Seq<Seq<char>>,
}

impl View for Binary {
    type V = BinaryView;

    closed spec fn view(&self) -> BinaryView {
        BinaryView {
            family: self.family,
            handle: self.handle,
            kernels: self.kernels@.map_values(|k: String| k@),
        }
    }
}

impl Binary {
    /// Wraps a compiled unit built by a framework of the given family.
    pub fn new(family: FrameworkKind, handle: u64, kernels: Vec<String>) -> (r: Binary)
        ensures
            r@.family == family,
            r@.handle == handle,
            r@.kernels == kernels@.map_values(|k: String| k@),
    {
        Binary { family, handle, kernels }
    }

    /// The framework that built the binary.
    pub fn framework(&self) -> (r: FrameworkKind)
        ensures
            r == self@.family,
    {
        self.family
    }

    /// The driver's handle of the compiled unit.
    pub fn handle(&self) -> (r: u64)
        ensures
            r == self@.handle,
    {
        self.handle
    }

    /// Whether the unit holds a kernel of this name.
    pub fn has_kernel(&self, name: &String) -> (r: bool)
        ensures
            r == self@.kernels.contains(name@),
    {
        let mut i: usize = 0;
        while i < self.kernels.len()
            invariant
                i <= self.kernels@.len(),
                forall|j: int| 0 <= j < i ==> self.kernels@[j]@ != name@,
            decreases self.kernels@.len() - i,
        {
            if self.kernels[i] == *name {
                assert(self@.kernels[i as int] == name@);
                return true;
            }
            i = i + 1;
        }
        assert(!self@.kernels.contains(name@)) by {
            if self@.kernels.contains(name@) {
                let k = choose|k: int|
                    0 <= k < self@.kernels.len() && self@.kernels[k] == name@;
                assert(self.kernels@[k]@ == name@);
            }
        }
        false
    }
}

impl Clone for Binary {
    fn clone(&self) -> (r: Binary)
        ensures
            r@ == self@,
    {
        let mut kernels: Vec<String> = Vec::new();
        let mut i: usize = 0;
        while i < self.kernels.len()
            invariant
                i <= self.kernels@.len(),
                kernels@ == self.kernels@.subrange(0, i as int),
            decreases self.kernels@.len() - i,
        {
            kernels.push(self.kernels[i].clone());
            i = i + 1;
        }
        assert(kernels@ =~= self.kernels@);
        let r = Binary { family: self.family, handle: self.handle, kernels };
        assert(r@.kernels =~= self@.kernels);
        r
    }
}

} // verus!
