//! A heterogeneous-compute buffer layer: one `Buffer` abstraction that can be
//! backed by host memory or by a modelled accelerator device, sharing one
//! allocation and caching discipline across all backends.
//!
//! The core of the crate is the ownership model (`AllocFlag`), the uniform
//! device memory arena (`Arena`), the type-erasure bridge (`RawBuf` with
//! `construct` / `destruct`) and the call-site-keyed `Cache` that lets
//! replayed computations reuse previously allocated backing storage.

pub mod flag;
pub mod memory;
pub mod unit;
pub mod buffer;
pub mod cache;
pub mod laws;
pub mod error;
pub mod device;
pub mod cpu;
pub mod cuda;
pub mod opencl;
pub mod transfer;
pub mod matrix;

pub use flag::AllocFlag;
pub use memory::Arena;
pub use unit::Unit;
pub use buffer::Buffer;
pub use cache::{Cache, Node, CpuPtr, RawBuf};
pub use error::{DeviceError, Error, OclErrorKind};
pub use device::Alloc;
pub use cpu::CPU;
pub use cuda::{CudaDevice, InternCudaDevice, cu_cached};
pub use opencl::{CLDevice, CLDevices};
pub use matrix::{Matrix, ew_op, each_op, assign_op};
