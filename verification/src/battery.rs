//! Battery readings and the per-battery alert state machine.
pub mod monitor;
pub mod service;
pub mod types;
