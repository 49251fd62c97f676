//! The composed handle applications use: one framework and one device built
//! by it, with the framework fixed by the handle's type.

use vstd::prelude::*;
use crate::binary::Binary;
use crate::cuda::{Cuda, Driver as CudaDriver};
use crate::device::{Device, DeviceView};
use crate::error::{ConfigurationError, Error};
use crate::framework::{
    device_accepted, device_refused, first_unknown, selects_known, valid_selection, IFramework,
};
use crate::binary::BinaryView;
use crate::hardware::{views, Hardware, HardwareView};
use crate::native::Native;
use crate::opencl::{Driver as OpenCLDriver, OpenCL};

verus! {

/// A framework paired with the hardware chosen for a backend; nothing is
/// checked until the backend is built.
#[derive(Debug)]
pub struct BackendConfig<F: IFramework> {
    framework: F,
    hardwares: Vec<Hardware>,
}

impl<F: IFramework> BackendConfig<F> {
    /// The framework the backend will use.
    pub closed spec fn framework_spec(&self) -> F {
        self.framework
    }

    /// The hardware chosen for the backend's device.
    pub closed spec fn selection(&self) -> Seq<HardwareView> {
        views(self.hardwares@)
    }

    /// Creates a new BackendConfig.
    pub fn new(framework: F, hardwares: Vec<Hardware>) -> (r: BackendConfig<F>)
        ensures
            r.framework_spec() == framework,
            r.selection() == views(hardwares@),
    {
        BackendConfig { framework, hardwares }
    }
}

/// Defines the main and highest struct of the library: a framework and a
/// device that this framework built over hardware it discovered.
#[derive(Debug)]
pub struct Backend<F: IFramework> {
    framework: Box<F>,
    device: Device,
}

/// What `Backend::new` returns for `config`: a backend over the configured
/// framework whose device binds exactly the valid selection, or the
/// framework's refusal.
pub open spec fn backend_built<F: IFramework>(
    config: BackendConfig<F>,
    r: Result<Backend<F>, Error>,
) -> bool {
    let fw = config.framework_spec();
    &&& match r {
        Ok(b) => b.framework_spec() == fw && device_accepted(
            F::family(),
            fw.cached(),
            config.selection(),
            b.device_spec(),
        ),
        Err(e) => device_refused(F::family(), fw.cached(), config.selection(), e),
    }
    &&& F::driverless() && valid_selection(fw.cached(), config.selection())
        ==> r is Ok
}

impl<F: IFramework> Backend<F> {
    /// The framework the backend owns.
    pub closed spec fn framework_spec(&self) -> F {
        *self.framework
    }

    /// The device the backend owns.
    pub closed spec fn device_spec(&self) -> DeviceView {
        self.device@
    }

    /// Builds a backend: the configured framework builds the device from the
    /// configured hardware, and its refusal is returned unchanged.
    pub fn new(config: BackendConfig<F>) -> (r: Result<Backend<F>, Error>)
        ensures
            backend_built(config, r),
    {
        let BackendConfig { framework, hardwares } = config;
        match framework.new_device(hardwares) {
            Ok(device) => Ok(Backend { framework: Box::new(framework), device }),
            Err(e) => Err(e),
        }
    }

    /// Returns the available hardware, as the framework discovered it.
    pub fn hardwares(&self) -> (r: Vec<Hardware>)
        ensures
            views(r@) == self.framework_spec().cached(),
    {
        self.framework.hardwares()
    }

    /// Returns a handle on the backend's framework.
    pub fn framework(&self) -> (r: Box<F>)
        ensures
            r.cached() == self.framework_spec().cached(),
            r.active_binary() == self.framework_spec().active_binary(),
    {
        Box::new(self.framework.clone_framework())
    }

    /// Returns the backend device.
    pub fn device(&self) -> (r: &Device)
        ensures
            r@ == self.device_spec(),
    {
        &self.device
    }

    /// Returns the framework's binary.
    pub fn binary(&self) -> (r: Binary)
        ensures
            r@ == self.framework_spec().active_binary(),
            r@.family == F::family(),
    {
        self.framework.binary()
    }
}

/// An empty selection is always refused as such, before the driver is asked.
pub proof fn lemma_empty_selection_refused<F: IFramework>(
    config: BackendConfig<F>,
    r: Result<Backend<F>, Error>,
)
    requires
        config.selection().len() == 0,
        backend_built(config, r),
    ensures
        r == Err::<Backend<F>, Error>(Error::Configuration(ConfigurationError::EmptySelection)),
{
}

/// A selection naming hardware the framework did not discover is refused,
/// at the first such unit, before the driver is asked.
pub proof fn lemma_unknown_hardware_refused<F: IFramework>(
    config: BackendConfig<F>,
    r: Result<Backend<F>, Error>,
)
    requires
        !selects_known(config.framework_spec().cached(), config.selection()),
        backend_built(config, r),
    ensures
        r matches Err(Error::Configuration(ConfigurationError::UnknownHardware(i))) && first_unknown(
            config.framework_spec().cached(),
            config.selection(),
            i as int,
        ),
{
}

/// A valid selection is refused only by the driver of the backend's own
/// framework; without a driver it always succeeds.
pub proof fn lemma_valid_selection_reaches_driver<F: IFramework>(
    config: BackendConfig<F>,
    r: Result<Backend<F>, Error>,
)
    requires
        valid_selection(config.framework_spec().cached(), config.selection()),
        backend_built(config, r),
    ensures
        r matches Ok(b) ==> b.device_spec().hardwares == config.selection(),
        r matches Err(e) ==> e matches Error::Driver(f) && f.family() == F::family(),
        F::driverless() ==> r is Ok,
{
}

/// The accessors of a backend are stable: two calls of `binary`, or of
/// `device`, give the same value.
pub proof fn lemma_accessors_repeat<F: IFramework>(
    backend: Backend<F>,
    binary1: BinaryView,
    binary2: BinaryView,
    device1: DeviceView,
    device2: DeviceView,
)
    requires
        binary1 == backend.framework_spec().active_binary(),
        binary2 == backend.framework_spec().active_binary(),
        device1 == backend.device_spec(),
        device2 == backend.device_spec(),
    ensures
        binary1 == binary2,
        device1 == device2,
{
}

/// Two backends built from one framework over disjoint valid selections are
/// independent: neither is refused for its selection, each binds its own
/// selection, and the framework's hardware list is the same in both.
pub proof fn lemma_disjoint_backends<F: IFramework>(
    framework: F,
    config1: BackendConfig<F>,
    config2: BackendConfig<F>,
    r1: Result<Backend<F>, Error>,
    r2: Result<Backend<F>, Error>,
)
    requires
        config1.framework_spec().cached() == framework.cached(),
        config2.framework_spec().cached() == framework.cached(),
        valid_selection(framework.cached(), config1.selection()),
        valid_selection(framework.cached(), config2.selection()),
        forall|i: int, j: int|
            0 <= i < config1.selection().len() && 0 <= j < config2.selection().len()
                ==> config1.selection()[i] != config2.selection()[j],
        backend_built(config1, r1),
        backend_built(config2, r2),
    ensures
        !(r1 matches Err(Error::Configuration(_))),
        !(r2 matches Err(Error::Configuration(_))),
        r1 matches Ok(b) ==> b.framework_spec().cached() == framework.cached()
            && b.device_spec().hardwares == config1.selection(),
        r2 matches Ok(b) ==> b.framework_spec().cached() == framework.cached()
            && b.device_spec().hardwares == config2.selection(),
        F::driverless() ==> r1 is Ok && r2 is Ok,
{
}

/// Describes a Backend by the framework it is built on.
pub trait IBackend {
    /// Represents the Framework of a Backend.
    type F: IFramework;
}

impl IBackend for Backend<Native> {
    type F = Native;
}

impl<D: OpenCLDriver + Clone> IBackend for Backend<OpenCL<D>> {
    type F = OpenCL<D>;
}

impl<D: CudaDriver + Clone> IBackend for Backend<Cuda<D>> {
    type F = Cuda<D>;
}

} // verus!
