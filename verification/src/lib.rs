//! Per-block indexing of an EVM-compatible chain: raw chain data is reshaped into
//! six record kinds (blocks, transactions, logs, decoded events, receipts, traces).
//!
//! Everything in this crate is verified. The few places where another crate does
//! the work (hashing, ABI decoding, number and hex formatting, JSON text) are
//! small private functions whose contracts are assumed; each says so in its
//! documentation.

pub mod text;
pub mod word;
pub mod integer;
pub mod numeric;
pub mod bignumeric;
pub mod timestamp;
pub mod request;
pub mod err;
pub mod extracted;
pub mod traces;
pub mod records;
pub mod events;
pub mod transformation;
pub mod pipeline;
pub mod retry;
pub mod extractor;
pub mod provider;
pub mod config;
pub mod publish;
pub mod orchestrator;
pub mod testset;
