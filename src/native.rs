//! The host framework: computation on the host processor, with no driver to
//! fail.

use vstd::prelude::*;
use crate::binary::{Binary, BinaryView};
use crate::device::Device;
use crate::error::Error;
use crate::framework::{check_selection, FrameworkKind, IFramework};
use crate::hardware::{copy_hardwares, views, Hardware, HardwareType, HardwareView};

verus! {

/// The host processor as the host framework discovers it.
pub open spec fn host_cpu() -> HardwareView {
    HardwareView { id: 0, name: "cpu0"@, kind: HardwareType::Cpu, compute_units: 1 }
}

/// The binary of the host framework: its kernels run in process, no handle, no table.
pub open spec fn host_binary() -> BinaryView {
    BinaryView { family: FrameworkKind::Native, handle: 0, kernels: Seq::empty() }
}

/// The host framework.
#[derive(Debug)]
pub struct Native {
    hardwares: Vec<Hardware>,
    binary: Binary,
}

impl Native {
    #[verifier::type_invariant]
    spec fn inv(&self) -> bool {
        self.binary@.family == FrameworkKind::Native
    }

    /// Discovers the host processor.
    pub fn load_hardwares() -> (r: Result<Vec<Hardware>, Error>)
        ensures
            r is Ok,
            views(r->Ok_0@) == seq![host_cpu()],
    {
        let mut v: Vec<Hardware> = Vec::new();
        v.push(Hardware::new(0, String::from_str("cpu0"), HardwareType::Cpu, 1));
        assert(views(v@) =~= seq![host_cpu()]);
        Ok(v)
    }

    /// Initializes the host framework, with the host processor discovered.
    pub fn new() -> (r: Native)
        ensures
            r.cached() == seq![host_cpu()],
            r.active_binary() == host_binary(),
    {
        let hardwares = match Self::load_hardwares() {
            Ok(h) => h,
            Err(_) => Vec::new(),
        };
        let binary = Binary::new(FrameworkKind::Native, 0, Vec::new());
        assert(binary@.kernels =~= Seq::empty());
        Native { hardwares, binary }
    }
}

impl IFramework for Native {
    open spec fn family() -> FrameworkKind {
        FrameworkKind::Native
    }

    closed spec fn cached(&self) -> Seq<HardwareView> {
        views(self.hardwares@)
    }

    closed spec fn active_binary(&self) -> BinaryView {
        self.binary@
    }

    open spec fn driverless() -> bool {
        true
    }

    fn id() -> (r: FrameworkKind) {
        FrameworkKind::Native
    }

    fn hardwares(&self) -> (r: Vec<Hardware>) {
        copy_hardwares(&self.hardwares)
    }

    fn binary(&self) -> (r: Binary) {
        proof {
            use_type_invariant(self);
        }
        self.binary.clone()
    }

    fn new_device(&self, hardwares: Vec<Hardware>) -> (r: Result<Device, Error>) {
        match check_selection(&self.hardwares, &hardwares) {
            Err(c) => Err(Error::Configuration(c)),
            Ok(()) => Ok(Device::new(FrameworkKind::Native, hardwares, 0)),
        }
    }

    fn clone_framework(&self) -> (r: Native) {
        proof {
            use_type_invariant(self);
        }
        Native { hardwares: copy_hardwares(&self.hardwares), binary: self.binary.clone() }
    }
}

} // verus!
