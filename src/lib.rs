//! Decision logic of a self-updating deployment supervisor: it polls a source
//! revision, rebuilds on change, starts the new backend on a free port and
//! moves a fixed public port over to it before the old backend is retired.

pub mod config;
pub mod forwarder;
pub mod ports;
pub mod revision;
pub mod supervisor;
