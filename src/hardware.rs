//! Descriptors of the compute units that a framework discovers.

use vstd::prelude::*;

verus! {

/// The kind of a compute unit.
#[derive(Debug, Clone, Copy, PartialEq, Eq, Structural)]
pub enum HardwareType {
    /// A host processor.
    Cpu,
    /// A graphics processor.
    Gpu,
    /// Another accelerator.
    Accelerator,
    /// A unit of no known kind.
    Other,
}

/// One discovered compute unit: its identity and its capacity.
#[derive(Debug)]
pub struct Hardware {
    /// Identity given by the driver that discovered the unit.
    pub id: u64,
    /// Human readable name, such as `cpu0`.
    pub name: String,
    /// Whether the unit is a host processor or an accelerator.
    pub kind: HardwareType,
    /// Number of compute units the hardware offers.
    pub compute_units: u64,
}

/// The value a `Hardware` stands for.
pub struct HardwareView {
    pub id: u64,
    pub name: Seq<char>,
    pub kind: HardwareType,
    pub compute_units: u64,
}

impl View for Hardware {
    type V = HardwareView;

    open spec fn view(&self) -> HardwareView {
        HardwareView {
            id: self.id,
            name: self.name@,
            kind: self.kind,
            compute_units: self.compute_units,
        }
    }
}

/// The values of a list of hardware descriptors.
pub open spec fn views(s: Seq<Hardware>) -> Seq<HardwareView> {
    s.map_values(|h: Hardware| h@)
}

impl Clone for Hardware {
    fn clone(&self) -> (r: Hardware)
        ensures
            r == *self,
    {
        Hardware {
            id: self.id,
            name: self.name.clone(),
            kind: self.kind,
            compute_units: self.compute_units,
        }
    }
}

impl Hardware {
    /// Describes a compute unit.
    pub fn new(id: u64, name: String, kind: HardwareType, compute_units: u64) -> (r: Hardware)
        ensures
            r.id == id,
            r.name == name,
            r.kind == kind,
            r.compute_units == compute_units,
    {
        Hardware { id, name, kind, compute_units }
    }

    /// Whether both descriptors denote the same unit with the same metadata.
    pub fn same_unit(&self, other: &Hardware) -> (r: bool)
        ensures
            r == (self@ == other@),
    {
        self.id == other.id && self.kind == other.kind && self.compute_units == other.compute_units
            && self.name == other.name
    }
}

/// Copies a list of hardware descriptors.
pub fn copy_hardwares(v: &Vec<Hardware>) -> (r: Vec<Hardware>)
    ensures
        r@ == v@,
{
    let mut r: Vec<Hardware> = Vec::new();
    let mut i: usize = 0;
    while i < v.len()
        invariant
            i <= v@.len(),
            r@ == v@.subrange(0, i as int),
        decreases v@.len() - i,
    {
        r.push(v[i].clone());
        i = i + 1;
    }
    assert(r@ =~= v@);
    r
}

/// Whether `h` is one of the units in `list`.
pub fn contains_unit(list: &Vec<Hardware>, h: &Hardware) -> (r: bool)
    ensures
        r == views(list@).contains(h@),
{
    let mut i: usize = 0;
    while i < list.len()
        invariant
            i <= list@.len(),
            forall|j: int| 0 <= j < i ==> list@[j]@ != h@,
        decreases list@.len() - i,
    {
        if list[i].same_unit(h) {
            assert(views(list@)[i as int] == h@);
            return true;
        }
        i = i + 1;
    }
    assert(!views(list@).contains(h@)) by {
        if views(list@).contains(h@) {
            let k = choose|k: int| 0 <= k < views(list@).len() && views(list@)[k] == h@;
            assert(list@[k]@ == h@);
        }
    }
    false
}

} // verus!
