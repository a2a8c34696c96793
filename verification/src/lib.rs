//! Supervisor library for a locally managed toolchain-backed server:
//! platform-specific installer planning, archive entry selection, environment
//! directory layout, and the service lifecycle state machine.

pub mod platform;
pub mod text;
pub mod paths;
pub mod config;
pub mod archive;
pub mod install;
pub mod setup;
pub mod lifecycle;
pub mod seeds;
