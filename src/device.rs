//! Execution contexts bound to a chosen set of hardware.

use vstd::prelude::*;
use crate::framework::FrameworkKind;
use crate::hardware::{copy_hardwares, views, Hardware, HardwareView};

verus! {

/// An execution context that one framework built over a set of hardware.
#[derive(Debug)]
pub struct Device {
    family: FrameworkKind,
    hardwares: Vec<Hardware>,
    context: u64,
}

/// The value a `Device` stands for.
pub struct DeviceView {
    pub family: FrameworkKind,
    pub hardwares: Seq<HardwareView>,
    pub context: u64,
}

impl View for Device {
    type V = DeviceView;

    closed spec fn view(&self) -> DeviceView {
        DeviceView { family: self.family, hardwares: views(self.hardwares@), context: self.context }
    }
}

impl Device {
    /// Binds a native context of a framework of the given family to `hardwares`.
    pub(crate) fn new(family: FrameworkKind, hardwares: Vec<Hardware>, context: u64) -> (r: Device)
        ensures
            r@ == (DeviceView { family, hardwares: views(hardwares@), context }),
    {
        Device { family, hardwares, context }
    }

    /// The framework that built the device.
    pub fn framework(&self) -> (r: FrameworkKind)
        ensures
            r == self@.family,
    {
        self.family
    }

    /// The hardware the device is bound to.
    pub fn hardwares(&self) -> (r: Vec<Hardware>)
        ensures
            views(r@) == self@.hardwares,
    {
        copy_hardwares(&self.hardwares)
    }

    /// The native context handle.
    pub fn context(&self) -> (r: u64)
        ensures
            r == self@.context,
    {
        self.context
    }
}

impl Clone for Device {
    fn clone(&self) -> (r: Device)
        ensures
            r@ == self@,
    {
        Device { family: self.family, hardwares: copy_hardwares(&self.hardwares), context: self.context }
    }
}

} // verus!
