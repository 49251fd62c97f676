use std::cell::Cell;
use std::rc::Rc;

use collenchyma::backend::{Backend, BackendConfig};
use collenchyma::blas::{Double, IBlas, Single};
use collenchyma::cuda::{Cuda, Driver as CudaDriver, Error as CudaError};
use collenchyma::error::{ConfigurationError, Error};
use collenchyma::framework::{check_selection, Error as FrameworkError, FrameworkKind, IFramework};
use collenchyma::hardware::{Hardware, HardwareType};
use collenchyma::native::Native;
use collenchyma::opencl::{Driver as OpenCLDriver, Error as OpenCLError, OpenCL};

#[derive(Debug, Clone, Default)]
struct Calls {
    enumerate: Rc<Cell<u32>>,
    context: Rc<Cell<u32>>,
    compile: Rc<Cell<u32>>,
}

fn gpu(id: u64, name: &str) -> Hardware {
    Hardware::new(id, name.to_string(), HardwareType::Gpu, 16)
}

fn names(list: &[Hardware]) -> Vec<String> {
    list.iter().map(|h| h.name.clone()).collect()
}

/// A driver that sees two GPUs and fails context creation with a chosen status.
#[derive(Debug, Clone)]
struct FakeOpenCL {
    calls: Calls,
    fail_context: Option<String>,
    fail_enumerate: bool,
    fail_compile: bool,
}

impl FakeOpenCL {
    fn working(calls: &Calls) -> FakeOpenCL {
        FakeOpenCL { calls: calls.clone(), fail_context: None, fail_enumerate: false, fail_compile: false }
    }
}

impl OpenCLDriver for FakeOpenCL {
    fn enumerate_hardware(&self) -> Result<Vec<Hardware>, OpenCLError> {
        self.calls.enumerate.set(self.calls.enumerate.get() + 1);
        if self.fail_enumerate {
            return Err(OpenCLError::InvalidPlatform("no platform".to_string()));
        }
        Ok(vec![gpu(0, "gpu0"), gpu(1, "gpu1")])
    }

    fn create_context(&self, hardwares: &Vec<Hardware>) -> Result<u64, OpenCLError> {
        self.calls.context.set(self.calls.context.get() + 1);
        match &self.fail_context {
            Some(m) => Err(OpenCLError::DeviceNotFound(m.clone())),
            None => Ok(100 + hardwares[0].id),
        }
    }

    fn compile_binary(&self, _hardwares: &Vec<Hardware>) -> Result<(u64, Vec<String>), OpenCLError> {
        self.calls.compile.set(self.calls.compile.get() + 1);
        if self.fail_compile {
            return Err(OpenCLError::OutOfResources("build failed".to_string()));
        }
        Ok((7, vec!["axpy".to_string(), "dot".to_string()]))
    }
}

#[derive(Debug, Clone)]
struct FakeCuda {
    calls: Calls,
}

impl CudaDriver for FakeCuda {
    fn enumerate_hardware(&self) -> Result<Vec<Hardware>, CudaError> {
        self.calls.enumerate.set(self.calls.enumerate.get() + 1);
        Ok(vec![gpu(5, "gpu0")])
    }

    fn create_context(&self, _hardwares: &Vec<Hardware>) -> Result<u64, CudaError> {
        self.calls.context.set(self.calls.context.get() + 1);
        Err(CudaError::OutOfResources("out of resources".to_string()))
    }

    fn compile_binary(&self, _hardwares: &Vec<Hardware>) -> Result<(u64, Vec<String>), CudaError> {
        self.calls.compile.set(self.calls.compile.get() + 1);
        Ok((9, vec![]))
    }
}

fn opencl(calls: &Calls) -> OpenCL<FakeOpenCL> {
    OpenCL::new(FakeOpenCL::working(calls)).unwrap()
}

#[test]
fn host_backend_binds_cpu0() {
    let framework = Native::new();
    let hardwares = framework.hardwares();
    assert_eq!(names(&hardwares), vec!["cpu0".to_string()]);
    let backend = Backend::new(BackendConfig::new(framework, hardwares)).unwrap();
    assert_eq!(names(&backend.device().hardwares()), vec!["cpu0".to_string()]);
    assert_eq!(backend.device().framework(), FrameworkKind::Native);
    assert_eq!(backend.binary().framework(), FrameworkKind::Native);
}

#[test]
fn native_load_hardwares_is_the_host_cpu() {
    let list = Native::load_hardwares().unwrap();
    assert_eq!(list.len(), 1);
    assert_eq!(list[0].id, 0);
    assert_eq!(list[0].kind, HardwareType::Cpu);
    assert_eq!(list[0].compute_units, 1);
    assert_eq!(<Native as IFramework>::id(), FrameworkKind::Native);
}

#[test]
fn hardwares_are_cached() {
    let calls = Calls::default();
    let framework = opencl(&calls);
    assert_eq!(calls.enumerate.get(), 1);
    let first = framework.hardwares();
    let second = framework.hardwares();
    assert_eq!(names(&first), names(&second));
    assert_eq!(names(&first), vec!["gpu0".to_string(), "gpu1".to_string()]);
    assert_eq!(calls.enumerate.get(), 1);
}

#[test]
fn empty_selection_is_refused_without_native_call() {
    let calls = Calls::default();
    let framework = opencl(&calls);
    let r = Backend::new(BackendConfig::new(framework, Vec::new()));
    assert!(matches!(r, Err(Error::Configuration(ConfigurationError::EmptySelection))));
    assert_eq!(calls.context.get(), 0);
}

#[test]
fn empty_selection_on_host_is_refused() {
    let r = Backend::new(BackendConfig::new(Native::new(), Vec::new()));
    let e = r.err().unwrap();
    assert!(matches!(e, Error::Configuration(ConfigurationError::EmptySelection)));
    assert_eq!(e.to_string(), "Configuration error: no hardware selected");
    assert!(e.native_description().is_none());
}

#[test]
fn unknown_hardware_is_refused_at_first_unknown() {
    let calls = Calls::default();
    let framework = opencl(&calls);
    let selection = vec![gpu(1, "gpu1"), gpu(2, "gpu2"), gpu(3, "gpu3")];
    let r = Backend::new(BackendConfig::new(framework, selection));
    let e = r.err().unwrap();
    assert!(matches!(e, Error::Configuration(ConfigurationError::UnknownHardware(1))));
    assert_eq!(e.to_string(), "Configuration error: hardware not discovered by the framework");
    assert_eq!(calls.context.get(), 0);
}

#[test]
fn hardware_with_other_metadata_is_unknown() {
    let calls = Calls::default();
    let framework = opencl(&calls);
    let selection = vec![Hardware::new(0, "gpu0".to_string(), HardwareType::Gpu, 8)];
    let r = Backend::new(BackendConfig::new(framework, selection));
    assert!(matches!(r, Err(Error::Configuration(ConfigurationError::UnknownHardware(0)))));
    assert_eq!(calls.context.get(), 0);
}

#[test]
fn device_not_found_is_reported_verbatim() {
    let calls = Calls::default();
    let mut driver = FakeOpenCL::working(&calls);
    driver.fail_context = Some("device not found".to_string());
    let framework = OpenCL::new(driver).unwrap();
    let r = Backend::new(BackendConfig::new(framework, vec![gpu(0, "gpu0")]));
    let e = r.err().unwrap();
    assert_eq!(e.to_string(), "OpenCL error: device not found");
    assert_eq!(e.native_description(), Some("device not found"));
    assert!(matches!(e, Error::Driver(FrameworkError::OpenCL(OpenCLError::DeviceNotFound(_)))));
    assert_eq!(calls.context.get(), 1);
}

#[test]
fn valid_selection_succeeds_with_native_context() {
    let calls = Calls::default();
    let framework = opencl(&calls);
    let backend = Backend::new(BackendConfig::new(framework, vec![gpu(1, "gpu1")])).unwrap();
    assert_eq!(calls.context.get(), 1);
    assert_eq!(backend.device().context(), 101);
    assert_eq!(backend.device().framework(), FrameworkKind::OpenCL);
    assert_eq!(names(&backend.device().hardwares()), vec!["gpu1".to_string()]);
}

#[test]
fn accessors_are_stable_and_call_nothing() {
    let calls = Calls::default();
    let framework = opencl(&calls);
    let backend = Backend::new(BackendConfig::new(framework, vec![gpu(0, "gpu0")])).unwrap();
    let before = (calls.enumerate.get(), calls.context.get(), calls.compile.get());
    let b1 = backend.binary();
    let b2 = backend.binary();
    assert_eq!(b1.handle(), b2.handle());
    assert_eq!(b1.handle(), 7);
    assert_eq!(b1.framework(), b2.framework());
    assert!(b1.has_kernel(&"axpy".to_string()));
    assert!(!b1.has_kernel(&"gemm".to_string()));
    let d1 = backend.device().clone();
    let d2 = backend.device().clone();
    assert_eq!(d1.context(), d2.context());
    assert_eq!(names(&d1.hardwares()), names(&d2.hardwares()));
    assert_eq!(names(&backend.hardwares()), vec!["gpu0".to_string(), "gpu1".to_string()]);
    let handle = backend.framework();
    assert_eq!(names(&handle.hardwares()), vec!["gpu0".to_string(), "gpu1".to_string()]);
    assert_eq!((calls.enumerate.get(), calls.context.get(), calls.compile.get()), before);
}

#[test]
fn two_backends_from_one_framework() {
    let calls = Calls::default();
    let framework = opencl(&calls);
    let first = Backend::new(BackendConfig::new(framework.clone_framework(), vec![gpu(0, "gpu0")]));
    let second = Backend::new(BackendConfig::new(framework.clone_framework(), vec![gpu(1, "gpu1")]));
    let first = first.unwrap();
    let second = second.unwrap();
    assert_eq!(names(&first.device().hardwares()), vec!["gpu0".to_string()]);
    assert_eq!(names(&second.device().hardwares()), vec!["gpu1".to_string()]);
    assert_eq!(names(&framework.hardwares()), vec!["gpu0".to_string(), "gpu1".to_string()]);
    assert_eq!(calls.enumerate.get(), 1);
    assert_eq!(calls.compile.get(), 1);
}

#[test]
fn enumeration_failure_is_a_driver_error() {
    let calls = Calls::default();
    let mut driver = FakeOpenCL::working(&calls);
    driver.fail_enumerate = true;
    let e = OpenCL::new(driver).err().unwrap();
    assert!(matches!(e, Error::Driver(_)));
    assert_eq!(e.to_string(), "OpenCL error: no platform");
    assert_eq!(calls.compile.get(), 0);
    let direct = OpenCL::load_hardwares(&FakeOpenCL { fail_enumerate: true, ..FakeOpenCL::working(&calls) });
    assert!(matches!(direct, Err(Error::Driver(FrameworkError::OpenCL(OpenCLError::InvalidPlatform(_))))));
}

#[test]
fn compilation_failure_is_a_compilation_error() {
    let calls = Calls::default();
    let mut driver = FakeOpenCL::working(&calls);
    driver.fail_compile = true;
    let e = OpenCL::new(driver).err().unwrap();
    assert!(matches!(e, Error::Compilation(_)));
    assert_eq!(e.to_string(), "OpenCL error: build failed");
    assert_eq!(e.native_description(), Some("build failed"));
}

#[test]
fn cuda_failure_names_cuda() {
    let calls = Calls::default();
    let framework = Cuda::new(FakeCuda { calls: calls.clone() }).unwrap();
    assert_eq!(<Cuda<FakeCuda> as IFramework>::id(), FrameworkKind::Cuda);
    let r = Backend::new(BackendConfig::new(framework, vec![gpu(5, "gpu0")]));
    let e = r.err().unwrap();
    assert_eq!(e.to_string(), "Cuda error: out of resources");
    assert_eq!(calls.context.get(), 1);
}

#[test]
fn framework_error_forwards_native_message() {
    let e = FrameworkError::from(CudaError::InvalidContext("bad context".to_string()));
    assert_eq!(e.framework(), FrameworkKind::Cuda);
    assert_eq!(e.description(), "bad context");
    assert_eq!(e.to_string(), "Cuda error: bad context");
    let top = Error::from(FrameworkError::from(OpenCLError::Other("odd".to_string())));
    assert!(matches!(top, Error::Driver(FrameworkError::OpenCL(OpenCLError::Other(_)))));
    assert_eq!(top.to_string(), "OpenCL error: odd");
    assert_eq!(FrameworkKind::Native.name(), "Native");
}

#[test]
fn native_status_description_is_its_message() {
    assert_eq!(OpenCLError::MisalignedSubBufferOffset("offset".to_string()).description(), "offset");
    assert_eq!(CudaError::MemObjectAllocationFailure("alloc".to_string()).description(), "alloc");
    let e = CudaError::DeviceNotAvailable("busy".to_string());
    assert_eq!(e.clone().description(), "busy");
}

#[test]
fn blas_capability_exposes_binary_and_device() {
    let host = Backend::new(BackendConfig::new(Native::new(), Native::new().hardwares())).unwrap();
    let single = <Backend<Native> as IBlas<Single>>::binary(&host);
    let double = <Backend<Native> as IBlas<Double>>::binary(&host);
    assert_eq!(single.framework(), FrameworkKind::Native);
    assert_eq!(double.handle(), single.handle());
    assert_eq!(names(&<Backend<Native> as IBlas<Double>>::device(&host).hardwares()), vec!["cpu0".to_string()]);

    let calls = Calls::default();
    let gpu_backend = Backend::new(BackendConfig::new(opencl(&calls), vec![gpu(0, "gpu0")])).unwrap();
    let b = <Backend<OpenCL<FakeOpenCL>> as IBlas<Single>>::binary(&gpu_backend);
    assert_eq!(b.framework(), FrameworkKind::OpenCL);
    assert_eq!(<Backend<OpenCL<FakeOpenCL>> as IBlas<Single>>::device(&gpu_backend).context(), 100);
}

#[test]
fn from_discovery_caches_what_was_found() {
    let calls = Calls::default();
    let found = vec![gpu(3, "gpu3")];
    let framework = OpenCL::from_discovery(FakeOpenCL::working(&calls), found, Ok((42, vec!["scal".to_string()]))).unwrap();
    assert_eq!(names(&framework.hardwares()), vec!["gpu3".to_string()]);
    let binary = framework.binary();
    assert_eq!(binary.handle(), 42);
    assert_eq!(binary.framework(), FrameworkKind::OpenCL);
    assert!(binary.has_kernel(&"scal".to_string()));
    assert_eq!(framework.driver().calls.enumerate.get(), 0);

    let refused = Cuda::from_discovery(
        FakeCuda { calls: calls.clone() },
        vec![gpu(5, "gpu0")],
        Err(CudaError::InvalidValue("bad source".to_string())),
    );
    let e = refused.err().unwrap();
    assert!(matches!(e, Error::Compilation(FrameworkError::Cuda(CudaError::InvalidValue(_)))));
    assert_eq!(e.to_string(), "Cuda error: bad source");
}

#[test]
fn selection_check_accepts_discovered_units_in_any_order() {
    let cached = vec![gpu(0, "gpu0"), gpu(1, "gpu1")];
    assert_eq!(check_selection(&cached, &vec![gpu(1, "gpu1"), gpu(0, "gpu0")]), Ok(()));
    assert_eq!(check_selection(&cached, &vec![]), Err(ConfigurationError::EmptySelection));
    assert_eq!(
        check_selection(&cached, &vec![gpu(0, "gpu0"), gpu(0, "gpuX")]),
        Err(ConfigurationError::UnknownHardware(1))
    );
}

#[test]
fn hardware_identity_covers_every_field() {
    let a = gpu(0, "gpu0");
    assert!(a.same_unit(&a.clone()));
    assert!(!a.same_unit(&gpu(1, "gpu0")));
    assert!(!a.same_unit(&gpu(0, "gpu1")));
    assert!(!a.same_unit(&Hardware::new(0, "gpu0".to_string(), HardwareType::Accelerator, 16)));
}
