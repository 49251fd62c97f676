//! What every framework offers, and the framework-tagged error that wraps a
//! driver's native status.

use vstd::prelude::*;
use crate::binary::{Binary, BinaryView};
use crate::cuda::Error as CudaError;
use crate::device::{Device, DeviceView};
use crate::error::{ConfigurationError, Error as CrateError};
use crate::hardware::{contains_unit, views, Hardware, HardwareView};
use crate::opencl::Error as OpenCLError;

verus! {

/// The family a framework belongs to.
#[derive(Debug, Clone, Copy, PartialEq, Eq, Structural)]
pub enum FrameworkKind {
    /// Computation on the host processor.
    Native,
    /// Computation through OpenCL.
    OpenCL,
    /// Computation through Cuda.
    Cuda,
}

/// The name by which a framework family is reported.
pub open spec fn family_name(k: FrameworkKind) -> Seq<char> {
    match k {
        FrameworkKind::Native => "Native"@,
        FrameworkKind::OpenCL => "OpenCL"@,
        FrameworkKind::Cuda => "Cuda"@,
    }
}

impl FrameworkKind {
    /// The name by which the family is reported.
    pub fn name(&self) -> (r: &'static str)
        ensures
            r@ == family_name(*self),
    {
        match self {
            FrameworkKind::Native => "Native",
            FrameworkKind::OpenCL => "OpenCL",
            FrameworkKind::Cuda => "Cuda",
        }
    }
}

/// Defines a Framework: a family of compute backends that discovers hardware,
/// builds devices over a chosen part of it and holds a compiled binary.
pub trait IFramework: Sized {
    /// The family of the framework.
    spec fn family() -> FrameworkKind;

    /// The hardware discovered when the framework was initialized.
    spec fn cached(&self) -> Seq<HardwareView>;

    /// The framework's current binary.
    spec fn active_binary(&self) -> BinaryView;

    /// The framework runs without a driver, so nothing but the selection can
    /// refuse a device.
    spec fn driverless() -> bool;

    /// The family of the framework.
    fn id() -> (r: FrameworkKind)
        ensures
            r == Self::family(),
    ;

    /// Returns the cached and available hardwares, without asking the driver.
    fn hardwares(&self) -> (r: Vec<Hardware>)
        ensures
            views(r@) == self.cached(),
    ;

    /// Returns the initialized binary.
    fn binary(&self) -> (r: Binary)
        ensures
            r@ == self.active_binary(),
            r@.family == Self::family(),
    ;

    /// Initializes a new Device from the provided hardwares: a selection that
    /// is empty or names undiscovered hardware is refused before the driver is
    /// asked.
    fn new_device(&self, hardwares: Vec<Hardware>) -> (r: Result<Device, CrateError>)
        ensures
            match r {
                Ok(d) => device_accepted(Self::family(), self.cached(), views(hardwares@), d@),
                Err(e) => device_refused(Self::family(), self.cached(), views(hardwares@), e),
            },
            Self::driverless() && valid_selection(self.cached(), views(hardwares@)) ==> r is Ok,
    ;

    /// A second handle on the same framework, sharing its hardware and binary.
    fn clone_framework(&self) -> (r: Self)
        ensures
            r.cached() == self.cached(),
            r.active_binary() == self.active_binary(),
    ;
}

/// Every selected unit was discovered.
pub open spec fn selects_known(cached: Seq<HardwareView>, selected: Seq<HardwareView>) -> bool {
    forall|i: int| 0 <= i < selected.len() ==> cached.contains(#[trigger] selected[i])
}

/// A selection a device can be built from: not empty, and all of it discovered.
pub open spec fn valid_selection(cached: Seq<HardwareView>, selected: Seq<HardwareView>) -> bool {
    selected.len() > 0 && selects_known(cached, selected)
}

/// `i` is the position of the first selected unit that was not discovered.
pub open spec fn first_unknown(cached: Seq<HardwareView>, selected: Seq<HardwareView>, i: int) -> bool {
    &&& 0 <= i < selected.len()
    &&& !cached.contains(selected[i])
    &&& forall|j: int| 0 <= j < i ==> cached.contains(#[trigger] selected[j])
}

/// The verdict on a selection: accepted when valid; else refused as empty,
/// or at the first unit that was not discovered.
pub open spec fn selection_verdict(
    cached: Seq<HardwareView>,
    selected: Seq<HardwareView>,
    r: Result<(), ConfigurationError>,
) -> bool {
    match r {
        Ok(()) => valid_selection(cached, selected),
        Err(ConfigurationError::EmptySelection) => selected.len() == 0,
        Err(ConfigurationError::UnknownHardware(i)) => selected.len() > 0 && first_unknown(
            cached,
            selected,
            i as int,
        ),
    }
}

/// A device built by a framework of family `family` from a valid selection,
/// bound to exactly that selection.
pub open spec fn device_accepted(
    family: FrameworkKind,
    cached: Seq<HardwareView>,
    selected: Seq<HardwareView>,
    d: DeviceView,
) -> bool {
    valid_selection(cached, selected) && d.family == family && d.hardwares == selected
}

/// A refusal to build a device: an invalid selection is refused as such, a
/// valid one only by a driver failure of the framework's own family.
pub open spec fn device_refused(
    family: FrameworkKind,
    cached: Seq<HardwareView>,
    selected: Seq<HardwareView>,
    e: CrateError,
) -> bool {
    match e {
        CrateError::Configuration(c) => selection_verdict(cached, selected, Err(c)),
        CrateError::Driver(f) => valid_selection(cached, selected) && f.family() == family,
        CrateError::Compilation(_) => false,
    }
}

/// Checks a selection against the discovered hardware.
pub fn check_selection(cached: &Vec<Hardware>, selected: &Vec<Hardware>) -> (r: Result<
    (),
    ConfigurationError,
>)
    ensures
        selection_verdict(views(cached@), views(selected@), r),
{
    if selected.len() == 0 {
        return Err(ConfigurationError::EmptySelection);
    }
    let mut i: usize = 0;
    while i < selected.len()
        invariant
            i <= selected@.len(),
            forall|j: int| 0 <= j < i ==> views(cached@).contains(#[trigger] views(selected@)[j]),
        decreases selected@.len() - i,
    {
        if !contains_unit(cached, &selected[i]) {
            return Err(ConfigurationError::UnknownHardware(i));
        }
        i = i + 1;
    }
    Ok(())
}

/// Turns the driver's answer to a context request into a device: a context
/// binds the selection, a native failure is reported as a driver error.
pub fn device_from_context(
    family: FrameworkKind,
    hardwares: Vec<Hardware>,
    context: Result<u64, Error>,
) -> (r: Result<Device, CrateError>)
    ensures
        match context {
            Ok(c) => r is Ok && r->Ok_0@ == (DeviceView {
                family,
                hardwares: views(hardwares@),
                context: c,
            }),
            Err(e) => r == Err::<Device, CrateError>(CrateError::Driver(e)),
        },
{
    match context {
        Ok(c) => Ok(Device::new(family, hardwares, c)),
        Err(e) => Err(CrateError::Driver(e)),
    }
}

/// The hardware list is cached: every call of `hardwares` on one framework
/// returns the same list.
pub proof fn lemma_hardwares_repeat<F: IFramework>(
    framework: F,
    first: Seq<HardwareView>,
    second: Seq<HardwareView>,
)
    requires
        first == framework.cached(),
        second == framework.cached(),
    ensures
        first == second,
{
}

/// A native failure keeps its diagnosis: the library's error text is the
/// framework's name, then the native message unchanged.
pub proof fn lemma_driver_failure_text(e: Error)
    ensures
        CrateError::Driver(e).text() == family_name(e.family()) + " error: "@ + e.native_message(),
        CrateError::Driver(e).text().subrange(0, family_name(e.family()).len() as int)
            == family_name(e.family()),
        ({
            let t = CrateError::Driver(e).text();
            t.subrange(t.len() - e.native_message().len(), t.len() as int) == e.native_message()
        }),
{
    let t = CrateError::Driver(e).text();
    let name = family_name(e.family());
    let m = e.native_message();
    assert(t.subrange(0, name.len() as int) =~= name);
    assert(t.subrange(t.len() - m.len(), t.len() as int) =~= m);
}

/// A native status, tagged with the framework whose driver reported it.
#[derive(Debug)]
pub enum Error {
    /// Failures related to the OpenCL framework implementation.
    OpenCL(OpenCLError),
    /// Failures related to the Cuda framework implementation.
    Cuda(CudaError),
}

impl Error {
    /// The framework whose driver reported the status.
    pub open spec fn family(self) -> FrameworkKind {
        match self {
            Error::OpenCL(_) => FrameworkKind::OpenCL,
            Error::Cuda(_) => FrameworkKind::Cuda,
        }
    }

    /// The message of the wrapped native status.
    pub open spec fn native_message(self) -> Seq<char> {
        match self {
            Error::OpenCL(e) => e.message(),
            Error::Cuda(e) => e.message(),
        }
    }

    /// The text shown for the error: the framework's name, then the native message.
    pub open spec fn text(self) -> Seq<char> {
        family_name(self.family()) + " error: "@ + self.native_message()
    }

    /// The framework whose driver reported the status.
    pub fn framework(&self) -> (r: FrameworkKind)
        ensures
            r == self.family(),
    {
        match self {
            Error::OpenCL(_) => FrameworkKind::OpenCL,
            Error::Cuda(_) => FrameworkKind::Cuda,
        }
    }

    /// The message of the wrapped native status, unchanged.
    pub fn description(&self) -> (r: &str)
        ensures
            r@ == self.native_message(),
    {
        match self {
            Error::OpenCL(e) => e.description(),
            Error::Cuda(e) => e.description(),
        }
    }

    /// The text shown for the error: the framework's name, then the native message.
    pub fn to_string(&self) -> (r: String)
        ensures
            r@ == self.text(),
    {
        let mut s = String::from_str(self.framework().name());
        s.append(" error: ");
        s.append(self.description());
        s
    }
}

impl Clone for Error {
    fn clone(&self) -> (r: Error)
        ensures
            r == *self,
    {
        match self {
            Error::OpenCL(e) => Error::OpenCL(e.clone()),
            Error::Cuda(e) => Error::Cuda(e.clone()),
        }
    }
}

impl From<OpenCLError> for Error {
    fn from(err: OpenCLError) -> (r: Error)
        ensures
            r == Error::OpenCL(err),
    {
        Error::OpenCL(err)
    }
}

impl vstd::std_specs::convert::FromSpecImpl<OpenCLError> for Error {
    open spec fn obeys_from_spec() -> bool {
        true
    }

    open spec fn from_spec(v: OpenCLError) -> Error {
        Error::OpenCL(v)
    }
}

impl From<CudaError> for Error {
    fn from(err: CudaError) -> (r: Error)
        ensures
            r == Error::Cuda(err),
    {
        Error::Cuda(err)
    }
}

impl vstd::std_specs::convert::FromSpecImpl<CudaError> for Error {
    open spec fn obeys_from_spec() -> bool {
        true
    }

    open spec fn from_spec(v: CudaError) -> Error {
        Error::Cuda(v)
    }
}

} // verus!
