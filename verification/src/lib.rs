//! Fleet state engine for a small constellation of remote devices
//! ("satellites").
//!
//! The crate owns the authoritative in-memory table of device records,
//! the per-device heartbeat timestamps and the global kill-switch flag,
//! together with the guarded state-machine operations (sleep, wake,
//! shutdown, disable, login), the heartbeat-driven liveness
//! reconciliation, and the command/session logic of the operator client.
//! Transport, terminal output and configuration-file reading live outside
//! the crate and hand it plain values.

pub mod client;
pub mod engine;
pub mod fleet;
pub mod responses;
pub mod satellite;
pub mod text;
