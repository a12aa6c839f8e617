//! Local inference: device selection, engine construction and KV-cache budgeting.
pub mod candle;
pub mod engine;
pub mod hardware;
pub mod kv_cache;
