//! The items of `candle_core` that the inference modules use.
use vstd::prelude::*;

use super::hardware::Backend;

verus! {

/// A compute device of `candle_core` (CPU, CUDA or Metal); opaque here.
#[verifier::external_type_specification]
#[verifier::external_body]
pub struct ExDevice(candle_core::Device);

/// A tensor of `candle_core`; opaque here.
#[verifier::external_type_specification]
#[verifier::external_body]
pub struct ExTensor(candle_core::Tensor);

/// The error type of `candle_core`; opaque here.
#[verifier::external_type_specification]
#[verifier::external_body]
pub struct ExCandleError(candle_core::Error);

/// `candle_core::utils::cuda_is_available`. Its source returns whether `candle_core`
/// was built with its `cuda` feature, a property of the build; nothing is stated of it.
pub assume_specification[ candle_core::utils::cuda_is_available ]() -> bool;

/// `candle_core::utils::metal_is_available`. Its source returns whether `candle_core`
/// was built with its `metal` feature, a property of the build; nothing is stated of it.
pub assume_specification[ candle_core::utils::metal_is_available ]() -> bool;

/// The backend of a device: the variant of `candle_core::Device` (`Cpu`, `Cuda` or
/// `Metal`), which `Device::location` reports together with a GPU id.
pub uninterp spec fn device_backend(d: candle_core::Device) -> Backend;

/// `candle_core::Device::new_cuda`. Whether it succeeds depends on the build and on
/// the GPUs of the machine, so success is not stated; its source wraps the device
/// it opens in the `Cuda` variant, which is stated. Which GPU the device is on is
/// left unsaid.
pub assume_specification[ candle_core::Device::new_cuda ](ordinal: usize) -> (r:
    candle_core::Result<candle_core::Device>)
    ensures
        r matches Ok(d) ==> device_backend(d) == Backend::Cuda,
;

/// `candle_core::Device::new_metal`. Whether it succeeds depends on the build and on
/// the GPUs of the machine, so success is not stated; its source wraps the device
/// it opens in the `Metal` variant, which is stated. Which GPU the device is on is
/// left unsaid.
pub assume_specification[ candle_core::Device::new_metal ](ordinal: usize) -> (r:
    candle_core::Result<candle_core::Device>)
    ensures
        r matches Ok(d) ==> device_backend(d) == Backend::Metal,
;

/// The `candle_core::Device::Cpu` variant.
#[verifier::external_body]
pub(crate) fn cpu_device() -> (d: candle_core::Device)
    ensures
        device_backend(d) == Backend::Cpu,
{
    candle_core::Device::Cpu
}

} // verus!
