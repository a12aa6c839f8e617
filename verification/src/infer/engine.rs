//! The local inference engine.
use vstd::prelude::*;

use candle_core::Device;

use super::candle::{cpu_device, device_backend};
use super::hardware::{Backend, HardwareEnv};
use super::kv_cache::KVCacheController;

verus! {

/// Token budget of the context window (8k tokens).
pub const CONTEXT_WINDOW_TOKENS: usize = 8192;

/// Runs the sentiment models on the host's compute hardware.
pub struct LocalInferenceEngine {
    pub device: Device,
    pub kv_controller: KVCacheController,
}

impl LocalInferenceEngine {
    /// An engine on the device that opened, or on the CPU when opening failed,
    /// with an empty KV cache of 8k tokens.
    pub fn with_device(device: candle_core::Result<Device>) -> (e: Self)
        ensures
            device matches Ok(d) ==> e.device == d,
            device is Err ==> device_backend(e.device) == Backend::Cpu,
            e.kv_controller.max_tokens() == CONTEXT_WINDOW_TOKENS,
            e.kv_controller.current_tokens() == 0,
    {
        let device = match device {
            Ok(d) => d,
            Err(_) => cpu_device(),
        };
        LocalInferenceEngine { device, kv_controller: KVCacheController::new(CONTEXT_WINDOW_TOKENS) }
    }

    /// Binds the best available device (the CPU when opening it fails) and an
    /// empty KV cache with an 8k-token budget.
    pub fn new() -> (r: candle_core::Result<Self>)
        ensures
            r matches Ok(e) && e.kv_controller.max_tokens() == CONTEXT_WINDOW_TOKENS
                && e.kv_controller.current_tokens() == 0,
    {
        let (_selection, device) = HardwareEnv::get_best_device();
        Ok(Self::with_device(device))
    }
}

} // verus!
