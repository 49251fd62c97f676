//! The OpenCL framework: its native status codes, the driver it runs on and
//! the framework built over that driver.

use vstd::prelude::*;
use crate::binary::{Binary, BinaryView};
use crate::device::Device;
use crate::error::Error as CrateError;
use crate::framework::{check_selection, device_from_context, Error as FrameworkError, FrameworkKind, IFramework};
use crate::hardware::{copy_hardwares, views, Hardware, HardwareView};

verus! {

/// Status reported by the OpenCL driver when a call fails, with its diagnostic message.
#[derive(Debug)]
pub enum Error {
    /// Failure with provided platform.
    InvalidPlatform(String),
    /// Failure with provided device param.
    InvalidDevice(String),
    /// Failure with provided device type.
    InvalidDeviceType(String),
    /// Failure with provided context.
    InvalidContext(String),
    /// Failure with provided memory object.
    InvalidMemObject(String),
    /// Failure with provided command queue.
    InvalidCommandQueue(String),
    /// Failure with provided event list.
    InvalidEventWaitList(String),
    /// Failure with provided param(s).
    InvalidValue(String),
    /// Failure with provided property param.
    InvalidProperty(String),
    /// Failure with provided operation param.
    InvalidOperation(String),
    /// Failure with provided buffer size.
    InvalidBufferSize(String),
    /// Failure with provided host pointer.
    InvalidHostPtr(String),
    /// Failure with device availability.
    DeviceNotFound(String),
    /// Failure with device availability.
    DeviceNotAvailable(String),
    /// Failure to allocate memory.
    MemObjectAllocationFailure(String),
    /// Failure with sub buffer offset.
    MisalignedSubBufferOffset(String),
    /// Failure with events in wait list.
    ExecStatusErrorForEventsInWaitList(String),
    /// Failure to allocate resources on the device.
    OutOfResources(String),
    /// Failure to allocate resources on the host.
    OutOfHostMemory(String),
    /// Failure not closer defined.
    Other(String),
}

impl Error {
    /// The diagnostic message the driver gave.
    pub open spec fn message(self) -> Seq<char> {
        match self {
            Error::InvalidPlatform(m) => m@,
            Error::InvalidDevice(m) => m@,
            Error::InvalidDeviceType(m) => m@,
            Error::InvalidContext(m) => m@,
            Error::InvalidMemObject(m) => m@,
            Error::InvalidCommandQueue(m) => m@,
            Error::InvalidEventWaitList(m) => m@,
            Error::InvalidValue(m) => m@,
            Error::InvalidProperty(m) => m@,
            Error::InvalidOperation(m) => m@,
            Error::InvalidBufferSize(m) => m@,
            Error::InvalidHostPtr(m) => m@,
            Error::DeviceNotFound(m) => m@,
            Error::DeviceNotAvailable(m) => m@,
            Error::MemObjectAllocationFailure(m) => m@,
            Error::MisalignedSubBufferOffset(m) => m@,
            Error::ExecStatusErrorForEventsInWaitList(m) => m@,
            Error::OutOfResources(m) => m@,
            Error::OutOfHostMemory(m) => m@,
            Error::Other(m) => m@,
        }
    }

    /// The diagnostic message, as the driver gave it.
    pub fn description(&self) -> (r: &str)
        ensures
            r@ == self.message(),
    {
        match self {
            Error::InvalidPlatform(m) => m.as_str(),
            Error::InvalidDevice(m) => m.as_str(),
            Error::InvalidDeviceType(m) => m.as_str(),
            Error::InvalidContext(m) => m.as_str(),
            Error::InvalidMemObject(m) => m.as_str(),
            Error::InvalidCommandQueue(m) => m.as_str(),
            Error::InvalidEventWaitList(m) => m.as_str(),
            Error::InvalidValue(m) => m.as_str(),
            Error::InvalidProperty(m) => m.as_str(),
            Error::InvalidOperation(m) => m.as_str(),
            Error::InvalidBufferSize(m) => m.as_str(),
            Error::InvalidHostPtr(m) => m.as_str(),
            Error::DeviceNotFound(m) => m.as_str(),
            Error::DeviceNotAvailable(m) => m.as_str(),
            Error::MemObjectAllocationFailure(m) => m.as_str(),
            Error::MisalignedSubBufferOffset(m) => m.as_str(),
            Error::ExecStatusErrorForEventsInWaitList(m) => m.as_str(),
            Error::OutOfResources(m) => m.as_str(),
            Error::OutOfHostMemory(m) => m.as_str(),
            Error::Other(m) => m.as_str(),
        }
    }
}

impl Clone for Error {
    fn clone(&self) -> (r: Error)
        ensures
            r == *self,
    {
        match self {
            Error::InvalidPlatform(m) => Error::InvalidPlatform(m.clone()),
            Error::InvalidDevice(m) => Error::InvalidDevice(m.clone()),
            Error::InvalidDeviceType(m) => Error::InvalidDeviceType(m.clone()),
            Error::InvalidContext(m) => Error::InvalidContext(m.clone()),
            Error::InvalidMemObject(m) => Error::InvalidMemObject(m.clone()),
            Error::InvalidCommandQueue(m) => Error::InvalidCommandQueue(m.clone()),
            Error::InvalidEventWaitList(m) => Error::InvalidEventWaitList(m.clone()),
            Error::InvalidValue(m) => Error::InvalidValue(m.clone()),
            Error::InvalidProperty(m) => Error::InvalidProperty(m.clone()),
            Error::InvalidOperation(m) => Error::InvalidOperation(m.clone()),
            Error::InvalidBufferSize(m) => Error::InvalidBufferSize(m.clone()),
            Error::InvalidHostPtr(m) => Error::InvalidHostPtr(m.clone()),
            Error::DeviceNotFound(m) => Error::DeviceNotFound(m.clone()),
            Error::DeviceNotAvailable(m) => Error::DeviceNotAvailable(m.clone()),
            Error::MemObjectAllocationFailure(m) => Error::MemObjectAllocationFailure(m.clone()),
            Error::MisalignedSubBufferOffset(m) => Error::MisalignedSubBufferOffset(m.clone()),
            Error::ExecStatusErrorForEventsInWaitList(m) => Error::ExecStatusErrorForEventsInWaitList(m.clone()),
            Error::OutOfResources(m) => Error::OutOfResources(m.clone()),
            Error::OutOfHostMemory(m) => Error::OutOfHostMemory(m.clone()),
            Error::Other(m) => Error::Other(m.clone()),
        }
    }
}

/// The driver the OpenCL framework runs on: discovery, context creation and
/// compilation, each of which may fail with a native status.
pub trait Driver {
    /// Lists every compute unit the driver can see.
    fn enumerate_hardware(&self) -> Result<Vec<Hardware>, Error>;

    /// Creates an execution context over the given units; returns its handle.
    fn create_context(&self, hardwares: &Vec<Hardware>) -> Result<u64, Error>;

    /// Builds the framework's kernels; returns the unit's handle and the
    /// names of its kernels.
    fn compile_binary(&self, hardwares: &Vec<Hardware>) -> Result<(u64, Vec<String>), Error>;
}

/// The OpenCL framework over a driver.
#[derive(Debug)]
pub struct OpenCL<D: Driver> {
    driver: D,
    hardwares: Vec<Hardware>,
    binary: Binary,
}

impl<D: Driver> OpenCL<D> {
    #[verifier::type_invariant]
    spec fn inv(&self) -> bool {
        self.binary@.family == FrameworkKind::OpenCL
    }
}

impl<D: Driver + Clone> OpenCL<D> {
    /// Asks the driver for every compute unit it can see.
    pub fn load_hardwares(driver: &D) -> (r: Result<Vec<Hardware>, CrateError>)
        ensures
            r matches Err(e) ==> e matches CrateError::Driver(f) && f.family() == FrameworkKind::OpenCL,
    {
        match driver.enumerate_hardware() {
            Ok(h) => Ok(h),
            Err(e) => Err(CrateError::Driver(FrameworkError::OpenCL(e))),
        }
    }

    /// Initializes the framework: discovers the hardware once and builds the
    /// binary once; a failure of either is reported with this framework's tag.
    pub fn new(driver: D) -> (r: Result<OpenCL<D>, CrateError>)
        ensures
            r matches Err(e) ==> match e {
                CrateError::Driver(f) => f.family() == FrameworkKind::OpenCL,
                CrateError::Compilation(f) => f.family() == FrameworkKind::OpenCL,
                CrateError::Configuration(_) => false,
            },
    {
        let hardwares = match Self::load_hardwares(&driver) {
            Ok(h) => h,
            Err(e) => {
                return Err(e);
            },
        };
        let compiled = driver.compile_binary(&hardwares);
        Self::from_discovery(driver, hardwares, compiled)
    }

    /// Assembles the framework from what its driver discovered and compiled:
    /// the hardware becomes the cached list, the compiled unit the binary; a
    /// compilation failure is reported with this framework's tag.
    pub fn from_discovery(
        driver: D,
        hardwares: Vec<Hardware>,
        compiled: Result<(u64, Vec<String>), Error>,
    ) -> (r: Result<OpenCL<D>, CrateError>)
        ensures
            match compiled {
                Ok((handle, kernels)) => r matches Ok(f) && f.cached() == views(hardwares@)
                    && f.active_binary() == (BinaryView {
                    family: FrameworkKind::OpenCL,
                    handle,
                    kernels: kernels@.map_values(|k: String| k@),
                }) && f.driver_spec() == driver,
                Err(e) => r == Err::<OpenCL<D>, CrateError>(
                    CrateError::Compilation(FrameworkError::OpenCL(e)),
                ),
            },
    {
        match compiled {
            Ok((handle, kernels)) => {
                let binary = Binary::new(FrameworkKind::OpenCL, handle, kernels);
                Ok(OpenCL { driver, hardwares, binary })
            },
            Err(e) => Err(CrateError::Compilation(FrameworkError::OpenCL(e))),
        }
    }

    /// The driver the framework runs on.
    pub closed spec fn driver_spec(&self) -> D {
        self.driver
    }

    /// The driver the framework runs on.
    pub fn driver(&self) -> (r: &D)
        ensures
            *r == self.driver_spec(),
    {
        &self.driver
    }
}

impl<D: Driver + Clone> IFramework for OpenCL<D> {
    open spec fn family() -> FrameworkKind {
        FrameworkKind::OpenCL
    }

    closed spec fn cached(&self) -> Seq<HardwareView> {
        views(self.hardwares@)
    }

    closed spec fn active_binary(&self) -> BinaryView {
        self.binary@
    }

    open spec fn driverless() -> bool {
        false
    }

    fn id() -> (r: FrameworkKind) {
        FrameworkKind::OpenCL
    }

    fn hardwares(&self) -> (r: Vec<Hardware>) {
        copy_hardwares(&self.hardwares)
    }

    fn binary(&self) -> (r: Binary) {
        proof {
            use_type_invariant(self);
        }
        self.binary.clone()
    }

    fn new_device(&self, hardwares: Vec<Hardware>) -> (r: Result<Device, CrateError>) {
        match check_selection(&self.hardwares, &hardwares) {
            Err(c) => Err(CrateError::Configuration(c)),
            Ok(()) => {
                let context = match self.driver.create_context(&hardwares) {
                    Ok(c) => Ok(c),
                    Err(e) => Err(FrameworkError::OpenCL(e)),
                };
                device_from_context(FrameworkKind::OpenCL, hardwares, context)
            },
        }
    }

    fn clone_framework(&self) -> (r: OpenCL<D>) {
        proof {
            use_type_invariant(self);
        }
        OpenCL {
            driver: self.driver.clone(),
            hardwares: copy_hardwares(&self.hardwares),
            binary: self.binary.clone(),
        }
    }
}

} // verus!
