//! Routing, signal and cache-budget logic of the Eat The Rich sentiment engine.
pub mod models;
pub mod router;
pub mod text;
pub mod arbitrage;
pub mod yfinance;
pub mod infer;
