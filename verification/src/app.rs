//! Process-level configuration of the service.

pub mod server;
