//! Core of a shared-canvas service: the command bus that fans published
//! commands out to every subscriber, the single-writer persistence worker
//! that keeps the latest raster per canvas, and the per-connection session
//! state machine that translates transport frames to and from bus commands.

pub mod bus;
pub mod command;
pub mod hub;
pub mod laws;
pub mod session;
pub mod store;
pub mod worker;
