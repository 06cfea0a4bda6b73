//! The error types of the crate.
//!
//! Allocation and driver-level failures are surfaced as typed error results;
//! precondition violations (zero-length allocations, layout-incompatible
//! cache hits) are excluded by contract instead and never reach run time.

use vstd::prelude::*;

verus! {

/// Generic device errors that can occur on any device.
#[derive(Clone, Copy, Eq, Hash, Ord, PartialEq, PartialOrd, Structural, Debug)]
pub enum DeviceError {
    /// Only a non-drop buffer can be converted to a CPU+OpenCL buffer.
    ConstructError,
    /// Only a CPU Buffer can be converted to a CUDA Buffer
    CPUtoCUDA,
    /// This graph can't be optimized. This indicates a bug in custos.
    GraphOptimization,
    /// An address was not supplied for a Network device.
    MissingAddress,
    /// Cannot create WGPU device instance.
    WGPUDeviceReturn,
    /// The 'cpu' feature is disabled. Hence this CPU can't be created.
    CPUDeviceNotAvailable,
}

impl DeviceError {
    /// The message of this error.
    pub open spec fn as_str_spec(self) -> Seq<char> {
        match self {
            DeviceError::ConstructError => {
                "Only a non-drop buffer can be converted to a CPU+OpenCL buffer."@
            },
            DeviceError::CPUtoCUDA => "Only a CPU Buffer can be converted to a CUDA Buffer"@,
            DeviceError::GraphOptimization => {
                "This graph can't be optimized. This indicates a bug in custos."@
            },
            DeviceError::MissingAddress => "An address was not supplied for a Network device."@,
            DeviceError::WGPUDeviceReturn => "Cannot create WGPU device instance."@,
            DeviceError::CPUDeviceNotAvailable => {
                "The 'cpu' feature is disabled. Hence this CPU can't be created."@
            },
        }
    }

    /// Returns a string slice containing the error message.
    pub fn as_str(&self) -> (r: &'static str)
        ensures
            r@ == self.as_str_spec(),
    {
        match self {
            DeviceError::ConstructError => {
                "Only a non-drop buffer can be converted to a CPU+OpenCL buffer."
            },
            DeviceError::CPUtoCUDA => "Only a CPU Buffer can be converted to a CUDA Buffer",
            DeviceError::GraphOptimization => {
                "This graph can't be optimized. This indicates a bug in custos."
            },
            DeviceError::MissingAddress => "An address was not supplied for a Network device.",
            DeviceError::WGPUDeviceReturn => "Cannot create WGPU device instance.",
            DeviceError::CPUDeviceNotAvailable => {
                "The 'cpu' feature is disabled. Hence this CPU can't be created."
            },
        }
    }
}

/// The kinds of OpenCL-level failure the crate reports.
#[derive(Clone, Copy, PartialEq, Eq, Structural, Debug)]
pub enum OclErrorKind {
    /// A device index beyond the device list was asked for.
    InvalidDeviceIdx,
}

/// A crate-level error: a device error or an OpenCL error, tagged with its
/// origin so a caller can recover the concrete kind.
#[derive(Clone, Copy, PartialEq, Eq, Structural, Debug)]
pub struct Error {
    /// The device error carried, if the origin is a device failure.
    pub device_error: Option<DeviceError>,
    /// The OpenCL error carried, if the origin is an OpenCL failure.
    pub ocl_error: Option<OclErrorKind>,
}

impl Error {
    /// An error carries exactly one origin.
    pub open spec fn wf(&self) -> bool {
        self.device_error is Some <==> self.ocl_error is None
    }

    /// Wraps a device error.
    pub fn from_device(e: DeviceError) -> (r: Error)
        ensures
            r.device_error == Some(e),
            r.ocl_error is None,
            r.wf(),
    {
        Error { device_error: Some(e), ocl_error: None }
    }

    /// Wraps an OpenCL error.
    pub fn from_ocl(k: OclErrorKind) -> (r: Error)
        ensures
            r.ocl_error == Some(k),
            r.device_error is None,
            r.wf(),
    {
        Error { device_error: None, ocl_error: Some(k) }
    }

    /// The device error carried, if any.
    pub fn device_error(&self) -> (r: Option<DeviceError>)
        ensures
            r == self.device_error,
    {
        self.device_error
    }

    /// The OpenCL error carried, if any.
    pub fn ocl_error(&self) -> (r: Option<OclErrorKind>)
        ensures
            r == self.ocl_error,
    {
        self.ocl_error
    }
}

} // verus!
