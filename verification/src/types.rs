//! Data model of the enforcement core.
//!
//! Findings flow from the detectors to the policy reactor as `Triggers`
//! values; the remote-control probe aggregates its two signals in a
//! `WebRtcReport`; host identification is collected in `HostInfo`.

use vstd::prelude::*;

verus! {

/// A status report for a UDP port: a value of this type records that the
/// port refused a local bind, the heuristic for "port in use".
#[derive(Debug, Clone, PartialEq, Eq)]
pub struct PortStatus {
    pub port: u32,
    pub running: bool,
}

impl PortStatus {
    pub fn new(port: u32, running: bool) -> (r: Self)
        ensures
            r.port == port,
            r.running == running,
    {
        Self { port, running }
    }
}

/// Identifies a running flagged process. The CPU share is kept as a whole
/// percentage so that the report holds plain values only.
#[derive(Debug, Clone, PartialEq, Eq)]
pub struct ProcessIdentifier {
    pub process_id: i32,
    pub status: bool,
    pub parent: Option<i32>,
    pub start_time: u64,
    pub run_time: u64,
    pub cpu_usage: u32,
}

/// One row of a live process enumeration: the process name together with the
/// identifying fields the report keeps. The remote-signal probe classifies
/// these by name.
#[derive(Debug, Clone, PartialEq, Eq)]
pub struct ProcessScan {
    pub name: String,
    pub process_id: i32,
    pub parent: Option<i32>,
    pub start_time: u64,
    pub run_time: u64,
    pub cpu_usage: u32,
}

/// The remote-control probe's combined finding: UDP ports in use within the
/// reserved window, and processes matching the known-remote-tool list.
#[derive(Debug, Clone, PartialEq, Eq)]
pub struct WebRtcReport {
    pub ports: Vec<PortStatus>,
    pub processes: Vec<ProcessIdentifier>,
}

impl WebRtcReport {
    /// A remote-control session counts as running only when both signals are
    /// present: at least one busy port and at least one matched process.
    /// Either alone is not sufficient evidence.
    pub fn is_running(&self) -> (r: bool)
        ensures
            r == (self.ports@.len() > 0 && self.processes@.len() > 0),
    {
        self.ports.len() > 0 && self.processes.len() > 0
    }
}

/// A typed containment-violation event. Each variant is produced by exactly
/// one detector and consumed once by the policy reactor.
#[derive(Debug, Clone, PartialEq, Eq)]
pub enum Triggers {
    /// Disallowed USB devices, in enumeration order.
    DisallowedInput(Vec<USBDevice>),
    /// Both remote-control signals were observed.
    RemoteApplicationDetected(WebRtcReport),
    /// More than one display is connected; all labels, in enumeration order.
    AdditionalDisplayDetected(Vec<String>),
}

/// Identification of the host machine.
#[derive(Debug, Clone, PartialEq, Eq)]
pub struct HostInfo {
    pub os: String,
    pub arch: String,
    pub mac_address: Option<String>,
    pub serial_number: Option<String>,
    pub processor_id: Option<String>,
}

impl Default for HostInfo {
    fn default() -> (r: Self)
        ensures
            r.os@ == Seq::<char>::empty(),
            r.arch@ == Seq::<char>::empty(),
            r.mac_address is None,
            r.serial_number is None,
            r.processor_id is None,
    {
        HostInfo {
            os: String::new(),
            arch: String::new(),
            mac_address: None,
            serial_number: None,
            processor_id: None,
        }
    }
}

/// A USB device as the enumeration reports it.
#[derive(Debug, Clone, PartialEq, Eq)]
pub struct USBDevice {
    /// Platform specific unique ID
    pub id: String,
    /// Vendor ID
    pub vendor_id: u16,
    /// Product ID
    pub product_id: u16,
    /// Optional device description
    pub description: Option<String>,
    /// Optional serial number
    pub serial_number: Option<String>,
}

/// A UDP endpoint row as the platform query hands it over.
#[derive(Debug, Clone, PartialEq, Eq)]
pub struct RawUdpEndpoint {
    pub local_address: String,
    pub local_port: u16,
    pub process_name: Option<String>,
    pub creation_time: String,
    pub status: Option<String>,
}

/// A UDP endpoint in the library's own shape.
#[derive(Debug, Clone, PartialEq, Eq)]
pub struct UdpEndpoint {
    pub local_address: String,
    pub local_port: u16,
    pub process_name: Option<String>,
    pub creation_time: String,
    pub status: Option<String>,
}

/// A valid response from the validator server.
#[derive(Debug, Clone, PartialEq, Eq)]
pub struct ServerValidatorResponse {
    pub status: bool,
    pub message: String,
    pub ip_addr: String,
    pub port: u16,
}

/// The validator server's reply on its identity endpoint.
#[derive(Debug, Clone, PartialEq, Eq)]
pub struct Response {
    pub status: bool,
    pub message: String,
    pub ip_addr: String,
    pub port: u16,
}

/// The validator server's reply on its password endpoint.
#[derive(Debug, Clone, PartialEq, Eq)]
pub struct PasswordResponse {
    pub message: String,
    pub ip_addr: String,
}

/// Errors of the enforcement core. Failures of outside collaborators (the
/// HTTP validator, the platform shell) are carried as their messages.
#[derive(Debug, Clone, PartialEq, Eq)]
pub enum ModuleError {
    Internal(String),
    Request(String),
    Io(String),
}

impl From<String> for ModuleError {
    fn from(value: String) -> (r: Self) {
        ModuleError::Internal(value)
    }
}

impl vstd::std_specs::convert::FromSpecImpl<String> for ModuleError {
    open spec fn obeys_from_spec() -> bool {
        true
    }

    open spec fn from_spec(value: String) -> Self {
        ModuleError::Internal(value)
    }
}

} // verus!
