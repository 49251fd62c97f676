//! Linear-algebra capability: implemented once per pair of backend and
//! numeric precision that is supported, and absent for every other pair.

use vstd::prelude::*;
use crate::backend::Backend;
use crate::binary::{Binary, BinaryView};
use crate::device::{Device, DeviceView};
use crate::framework::IFramework;
use crate::native::Native;
use crate::opencl::{Driver as OpenCLDriver, OpenCL};

verus! {

/// Single precision, 32-bit floating point numbers.
#[derive(Debug, Clone, Copy)]
pub struct Single;

/// Double precision, 64-bit floating point numbers.
#[derive(Debug, Clone, Copy)]
pub struct Double;

/// What a linear-algebra library needs from a backend to run its kernels in
/// precision `P`.
pub trait IBlas<P> {
    /// The binary the kernels come from.
    spec fn blas_binary(&self) -> BinaryView;

    /// The device the kernels run on.
    spec fn blas_device(&self) -> DeviceView;

    /// Returns the binary.
    fn binary(&self) -> (r: Binary)
        ensures
            r@ == self.blas_binary(),
    ;

    /// Returns the device.
    fn device(&self) -> (r: &Device)
        ensures
            r@ == self.blas_device(),
    ;
}

impl<D: OpenCLDriver + Clone> IBlas<Single> for Backend<OpenCL<D>> {
    open spec fn blas_binary(&self) -> BinaryView {
        self.framework_spec().active_binary()
    }

    open spec fn blas_device(&self) -> DeviceView {
        self.device_spec()
    }

    fn binary(&self) -> (r: Binary) {
        Backend::binary(self)
    }

    fn device(&self) -> (r: &Device) {
        Backend::device(self)
    }
}

impl IBlas<Single> for Backend<Native> {
    open spec fn blas_binary(&self) -> BinaryView {
        self.framework_spec().active_binary()
    }

    open spec fn blas_device(&self) -> DeviceView {
        self.device_spec()
    }

    fn binary(&self) -> (r: Binary) {
        Backend::binary(self)
    }

    fn device(&self) -> (r: &Device) {
        Backend::device(self)
    }
}

impl IBlas<Double> for Backend<Native> {
    open spec fn blas_binary(&self) -> BinaryView {
        self.framework_spec().active_binary()
    }

    open spec fn blas_device(&self) -> DeviceView {
        self.device_spec()
    }

    fn binary(&self) -> (r: Binary) {
        Backend::binary(self)
    }

    fn device(&self) -> (r: &Device) {
        Backend::device(self)
    }
}

} // verus!
