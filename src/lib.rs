//! A hardware abstraction layer: frameworks discover hardware, build devices
//! bound to a chosen subset of it, and hand out compiled binaries, all composed
//! in a `Backend` whose framework is fixed by its type.

pub mod backend;
pub mod binary;
pub mod blas;
pub mod cuda;
pub mod device;
pub mod error;
pub mod framework;
pub mod hardware;
pub mod native;
pub mod opencl;
