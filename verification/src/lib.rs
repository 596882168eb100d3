//! Core of a sidecar telemetry forwarder: buffering of pushed telemetry,
//! size-bounded batching, the adaptive flushing strategy and the retry
//! policy of the outbound sender, each with a machine-checked contract.
//!
//! The crate performs no I/O. Callers read clocks, sockets and the
//! environment, hand plain values in, and carry out the actions handed back.

pub mod config;
pub mod extension;
pub mod openobserve;
pub mod text;
pub mod wire;
pub mod telemetry;
