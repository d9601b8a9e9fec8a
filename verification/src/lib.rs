//! Lifecycle supervision for a single managed server process: port
//! allocation, readiness polling, health watching and restart decisions,
//! with the decisions stated as contracts and proved.

pub mod decimal;
pub mod text;
pub mod utils;
pub mod ports;
pub mod health;
pub mod watchdog;
pub mod sidecar;
pub mod commands;
pub mod system;
pub mod procs;
