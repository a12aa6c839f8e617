//! Choice of the compute device.
use vstd::prelude::*;

use candle_core::Device;

use super::candle::{cpu_device, device_backend};

verus! {

/// The compute backend that inference runs on.
#[derive(Debug, Clone, Copy, PartialEq, Eq, Structural)]
pub enum Backend {
    /// NVIDIA CUDA.
    Cuda,
    /// Apple Silicon (Metal).
    Metal,
    /// CPU fallback.
    Cpu,
}

/// Prioritizes CUDA, then Metal, then the CPU.
pub open spec fn preferred_backend(cuda_available: bool, metal_available: bool) -> Backend {
    if cuda_available {
        Backend::Cuda
    } else if metal_available {
        Backend::Metal
    } else {
        Backend::Cpu
    }
}

/// What the platform reported and the backend chosen from it.
#[derive(Debug, Clone, Copy, PartialEq, Eq, Structural)]
pub struct DeviceSelection {
    /// `candle_core` reports CUDA support.
    pub cuda_available: bool,
    /// `candle_core` reports Metal support; only asked for when CUDA is not
    /// available, and false otherwise.
    pub metal_available: bool,
    /// The backend chosen.
    pub backend: Backend,
}

/// Selects the compute device for the platform.
pub struct HardwareEnv;

impl HardwareEnv {
    /// Picks the backend from what the platform offers: CUDA first, then Metal,
    /// then the CPU.
    pub fn select_backend(cuda_available: bool, metal_available: bool) -> (b: Backend)
        ensures
            b == preferred_backend(cuda_available, metal_available),
    {
        if cuda_available {
            Backend::Cuda
        } else if metal_available {
            Backend::Metal
        } else {
            Backend::Cpu
        }
    }

    /// Asks `candle_core` which accelerators it was built for and picks the
    /// backend; Metal is only asked for when CUDA is not available.
    pub fn detect_backend() -> (s: DeviceSelection)
        ensures
            s.backend == preferred_backend(s.cuda_available, s.metal_available),
            s.cuda_available ==> !s.metal_available,
    {
        let cuda = candle_core::utils::cuda_is_available();
        let metal = if cuda {
            false
        } else {
            candle_core::utils::metal_is_available()
        };
        DeviceSelection {
            cuda_available: cuda,
            metal_available: metal,
            backend: Self::select_backend(cuda, metal),
        }
    }

    /// Opens device 0 of the given backend. A device that opens belongs to that
    /// backend, and the CPU device always opens.
    pub fn open_device(backend: Backend) -> (r: candle_core::Result<Device>)
        ensures
            r matches Ok(d) ==> device_backend(d) == backend,
            backend == Backend::Cpu ==> r is Ok,
    {
        match backend {
            Backend::Cuda => Device::new_cuda(0),
            Backend::Metal => Device::new_metal(0),
            Backend::Cpu => Ok(cpu_device()),
        }
    }

    /// Dynamically selects the best available compute device: CUDA, then Metal,
    /// then the CPU. Returns the selection with the outcome of opening its device.
    pub fn get_best_device() -> (r: (DeviceSelection, candle_core::Result<Device>))
        ensures
            r.0.backend == preferred_backend(r.0.cuda_available, r.0.metal_available),
            r.0.cuda_available ==> !r.0.metal_available,
            r.1 matches Ok(d) ==> device_backend(d) == r.0.backend,
            r.0.backend == Backend::Cpu ==> r.1 is Ok,
    {
        let selection = Self::detect_backend();
        let device = Self::open_device(selection.backend);
        (selection, device)
    }
}

} // verus!
