//! Trusted wrappers around the platform-query crates.
//!
//! Each function here makes one call into an outside crate and converts the
//! answer to plain values. What the calls return depends on the machine the
//! process runs on, so no wrapper pins its result; the detectors take these
//! results as inputs and are verified for every value they can hold.

use vstd::prelude::*;
use crate::types::ProcessScan;

verus! {

/// Relies on raw_cpuid::CpuId::get_vendor_info: the twelve-byte CPU vendor
/// identification string, if the processor reports one.
#[verifier::external_body]
pub(crate) fn cpu_vendor_string() -> (r: Option<String>) {
    raw_cpuid::CpuId::new().get_vendor_info().map(|v| v.as_str().to_string())
}

/// Relies on sysinfo::System::processes after a full refresh: one row per
/// live process. The closure only copies fields out of each process record.
#[verifier::external_body]
pub(crate) fn scan_processes() -> (r: Vec<ProcessScan>) {
    let mut sys = sysinfo::System::new_all();
    sys.refresh_all();
    sys.processes()
        .iter()
        .map(|(_, p)| ProcessScan {
            name: p.name().to_string_lossy().into_owned(),
            process_id: p.pid().as_u32() as i32,
            parent: p.parent().map(|q| q.as_u32() as i32),
            start_time: p.start_time(),
            run_time: p.run_time(),
            cpu_usage: p.cpu_usage() as u32,
        })
        .collect()
}

/// Relies on mac_address::get_mac_address: the hardware address of the first
/// network interface, if one could be read.
#[verifier::external_body]
pub(crate) fn query_mac_address() -> (r: Option<String>) {
    mac_address::get_mac_address().ok().flatten().map(|m| m.to_string())
}

} // verus!
