//! Enforcement core of a locked-down exam-proctoring client.
//!
//! The library holds the decision logic of the proctoring subsystem: the
//! detectors that classify host state (USB devices, remote-control signals,
//! extra displays, virtualization), the recurring-task scheduler, the trigger
//! bus and policy reactor, the sidecar supervisor's event classification, and
//! the keyboard-hook suppression policy. Platform queries and process
//! management stay outside; the library states and proves what is decided on
//! every value those queries can hand back.

pub mod bus;
pub mod commands;
pub mod detectors;
pub mod hook;
pub mod host;
pub mod platform;
pub mod reactor;
pub mod scheduler;
pub mod slot;
pub mod supervisor;
pub mod text;
pub mod types;
