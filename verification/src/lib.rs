//! Control-plane library for managing guest virtual machines that run inside
//! an external process-based hypervisor.
//!
//! The library models each guest VM as a persistent, named record with a
//! resource budget and a deterministic status, and provides:
//! the finite-state status model and its permitted-transition table, the
//! in-memory state store with its uniqueness and foreign-key invariants,
//! the free-pool port allocator, the argument-vector builder for the external
//! hypervisor, the line-oriented control-socket protocol strings, and the
//! controller that validates, journals and commits every lifecycle operation.
//!
//! Process spawning, signals with waits, sockets and the filesystem live
//! outside the library; the controller hands callers a plan describing the
//! external effect to perform and takes the observed outcome back.

pub mod boot;
pub mod config;
pub mod controller;
pub mod db;
pub mod decimal;
pub mod error;
pub mod instance;
pub mod laws;
pub mod ports;
pub mod qemu_config;
pub mod qmp;
pub mod serialize;
pub mod stats;
pub mod status;
pub mod storage;
pub mod strutil;
pub mod vm;

pub use config::InstanceConfig;
pub use db::StateDatabase;
pub use error::HypervisorError;
pub use instance::InstanceState;
pub use status::InstanceStatus;
