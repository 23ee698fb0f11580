//! The detector set: stateless probes classifying current host state.
//!
//! Each detector is a function of the current platform observation to an
//! optional finding. The observations themselves (USB enumeration rows,
//! process rows, display labels, bind results of the reserved UDP window)
//! arrive as plain values; the classification is stated exactly and proved.

use vstd::prelude::*;
use crate::platform;
use crate::text::{contains_ci, str_contains_ci};
use crate::types::{PortStatus, ProcessIdentifier, ProcessScan, Triggers, USBDevice, WebRtcReport};

verus! {

// ---------------------------------------------------------------------------
// USB-device classifier
// ---------------------------------------------------------------------------
/// A device description marks the device as disallowed when it contains one
/// of the disallowed-input keywords, regardless of letter case.
pub open spec fn disallowed_description(d: Seq<char>) -> bool {
    contains_ci(d, "mass storage"@) || contains_ci(d, "hard disk"@)
}

/// A device is disallowed exactly when it has a description and that
/// description matches a disallowed-input keyword. A device without a
/// description is never disallowed.
pub open spec fn device_is_disallowed(dev: USBDevice) -> bool {
    match dev.description {
        Some(s) => disallowed_description(s@),
        None => false,
    }
}

/// Decide `device_is_disallowed` for one enumerated device.
pub fn is_input_device_disallowed(dev: &USBDevice) -> (r: bool)
    ensures
        r == device_is_disallowed(*dev),
{
    match &dev.description {
        Some(d) => {
            if str_contains_ci(d.as_str(), "mass storage") {
                true
            } else {
                str_contains_ci(d.as_str(), "hard disk")
            }
        },
        None => false,
    }
}

/// Classify a USB enumeration: keep exactly the disallowed devices, in
/// enumeration order.
pub fn is_disallowed_device_connected(devices: Vec<USBDevice>) -> (r: Vec<USBDevice>)
    ensures
        r@ == devices@.filter(|d: USBDevice| device_is_disallowed(d)),
{
    let ghost orig = devices@;
    let mut rest = devices;
    let mut r: Vec<USBDevice> = Vec::new();
    let ghost mut done: int = 0;
    while rest.len() > 0
        invariant
            0 <= done <= orig.len(),
            done + rest@.len() == orig.len(),
            rest@ == orig.skip(done),
            r@ == orig.take(done).filter(|d: USBDevice| device_is_disallowed(d)),
        decreases rest@.len(),
    {
        let d = rest.remove(0);
        assert(d == orig[done]);
        let keep = is_input_device_disallowed(&d);
        if keep {
            r.push(d);
        }
        proof {
            let pred = |x: USBDevice| device_is_disallowed(x);
            assert(orig.take(done + 1) =~= orig.take(done) + seq![orig[done]]);
            Seq::filter_distributes_over_add(orig.take(done), seq![orig[done]], pred);
            reveal_with_fuel(Seq::filter, 2);
            assert(seq![orig[done]].filter(pred) =~= (if pred(orig[done]) {
                seq![orig[done]]
            } else {
                Seq::<USBDevice>::empty()
            }));
            assert(rest@ =~= orig.skip(done + 1));
            done = done + 1;
        }
    }
    proof {
        assert(orig.take(done) =~= orig);
    }
    r
}

/// Law of the USB classifier: a device stands in the classified list iff it
/// stands in the enumeration and is disallowed; a device without a
/// description is never in the classified list.
pub proof fn lemma_disallowed_input_membership(devices: Seq<USBDevice>, d: USBDevice)
    ensures
        devices.filter(|x: USBDevice| device_is_disallowed(x)).contains(d) <==> (devices.contains(
            d,
        ) && device_is_disallowed(d)),
        d.description is None ==> !devices.filter(
            |x: USBDevice| device_is_disallowed(x),
        ).contains(d),
{
    let pred = |x: USBDevice| device_is_disallowed(x);
    let filtered = devices.filter(pred);
    if filtered.contains(d) {
        devices.lemma_filter_contains_rev(pred, d);
        let i = choose|i: int| 0 <= i < filtered.len() && filtered[i] == d;
        devices.lemma_filter_pred(pred, i);
    }
    if devices.contains(d) && pred(d) {
        let i = choose|i: int| 0 <= i < devices.len() && devices[i] == d;
        devices.lemma_filter_contains(pred, i);
    }
}

// ---------------------------------------------------------------------------
// Remote-control (WebRTC-capable) signal probe
// ---------------------------------------------------------------------------
/// A process name marks a known remote-control tool when it contains one of
/// the known tool names, regardless of letter case.
pub open spec fn remote_tool_name(n: Seq<char>) -> bool {
    ||| contains_ci(n, "zoom"@)
    ||| contains_ci(n, "teams"@)
    ||| contains_ci(n, "skype"@)
    ||| contains_ci(n, "discord"@)
    ||| contains_ci(n, "team viewer"@)
}

/// The report row kept for a matched process: the identifying fields of the
/// scan row, marked as running.
pub open spec fn ident_of(p: ProcessScan) -> ProcessIdentifier {
    ProcessIdentifier {
        process_id: p.process_id,
        status: true,
        parent: p.parent,
        start_time: p.start_time,
        run_time: p.run_time,
        cpu_usage: p.cpu_usage,
    }
}

/// What the probe keeps of one scan row: its identity when its name matches
/// a known remote-control tool, nothing otherwise.
pub open spec fn remote_match_of(p: ProcessScan) -> Option<ProcessIdentifier> {
    if remote_tool_name(p.name@) {
        Some(ident_of(p))
    } else {
        None
    }
}

/// Decide `remote_tool_name` for one process name.
pub fn is_remote_tool_name(name: &str) -> (r: bool)
    ensures
        r == remote_tool_name(name@),
{
    if str_contains_ci(name, "zoom") {
        return true;
    }
    if str_contains_ci(name, "teams") {
        return true;
    }
    if str_contains_ci(name, "skype") {
        return true;
    }
    if str_contains_ci(name, "discord") {
        return true;
    }
    str_contains_ci(name, "team viewer")
}

/// Classify a process enumeration: the identities of exactly those rows
/// whose name matches a known remote-control tool, in enumeration order.
pub fn is_known_webrtc_program_running(scans: &Vec<ProcessScan>) -> (r: Vec<ProcessIdentifier>)
    ensures
        r@ == scans@.filter_map(|p: ProcessScan| remote_match_of(p)),
{
    let mut r: Vec<ProcessIdentifier> = Vec::new();
    let mut i: usize = 0;
    while i < scans.len()
        invariant
            i <= scans@.len(),
            r@ == scans@.take(i as int).filter_map(|p: ProcessScan| remote_match_of(p)),
        decreases scans@.len() - i,
    {
        let s = &scans[i];
        if is_remote_tool_name(s.name.as_str()) {
            r.push(
                ProcessIdentifier {
                    process_id: s.process_id,
                    status: true,
                    parent: s.parent,
                    start_time: s.start_time,
                    run_time: s.run_time,
                    cpu_usage: s.cpu_usage,
                },
            );
        }
        proof {
            scans@.lemma_filter_map_take_succ(|p: ProcessScan| remote_match_of(p), i as int);
        }
        i = i + 1;
    }
    proof {
        assert(scans@.take(scans@.len() as int) =~= scans@);
    }
    r
}

/// The port-status list of a UDP scan: one `in use` row per port of the
/// reserved window whose local bind failed.
pub fn is_udp_running(bind_failed_ports: &Vec<u32>) -> (r: Vec<PortStatus>)
    ensures
        r@ == bind_failed_ports@.map_values(
            |p: u32| PortStatus { port: p, running: true },
        ),
{
    let mut r: Vec<PortStatus> = Vec::new();
    let mut i: usize = 0;
    while i < bind_failed_ports.len()
        invariant
            i <= bind_failed_ports@.len(),
            r@ == bind_failed_ports@.take(i as int).map_values(
                |p: u32| PortStatus { port: p, running: true },
            ),
        decreases bind_failed_ports@.len() - i,
    {
        let port = bind_failed_ports[i];
        r.push(PortStatus::new(port, true));
        proof {
            assert(bind_failed_ports@.take(i + 1).map_values(
                |p: u32| PortStatus { port: p, running: true },
            ) =~= bind_failed_ports@.take(i as int).map_values(
                |p: u32| PortStatus { port: p, running: true },
            ).push(PortStatus { port: bind_failed_ports@[i as int], running: true }));
        }
        i = i + 1;
    }
    proof {
        assert(bind_failed_ports@.take(bind_failed_ports@.len() as int) =~= bind_failed_ports@);
    }
    r
}

/// The remote-control probe's report: the in-use ports of the reserved
/// window, combined with the live-process classification. The process rows
/// come from a live enumeration, so only their shape is promised: every row
/// kept is marked as running.
pub fn is_web_rtc_running(bind_failed_ports: &Vec<u32>) -> (r: WebRtcReport)
    ensures
        r.ports@ == bind_failed_ports@.map_values(
            |p: u32| PortStatus { port: p, running: true },
        ),
        forall|j: int| 0 <= j < r.processes@.len() ==> r.processes@[j].status == true,
{
    let ports = is_udp_running(bind_failed_ports);
    let scans = platform::scan_processes();
    let processes = is_known_webrtc_program_running(&scans);
    proof {
        let f = |p: ProcessScan| remote_match_of(p);
        assert forall|j: int| 0 <= j < processes@.len() implies processes@[j].status == true by {
            assert(processes@.contains(processes@[j]));
            scans@.lemma_filter_map_contains(f, processes@[j]);
        }
    }
    WebRtcReport { ports, processes }
}

// ---------------------------------------------------------------------------
// Extra-display probe
// ---------------------------------------------------------------------------
/// Classify an enumeration of connected display labels: more than one
/// distinct display yields a finding carrying all labels in enumeration
/// order; a single display (or none) yields nothing.
pub fn detect_additional_displays(displays: Vec<String>) -> (r: Option<Triggers>)
    ensures
        displays@.len() > 1 ==> r == Some(Triggers::AdditionalDisplayDetected(displays)),
        displays@.len() <= 1 ==> r is None,
{
    if displays.len() > 1 {
        Some(Triggers::AdditionalDisplayDetected(displays))
    } else {
        None
    }
}

// ---------------------------------------------------------------------------
// Guest-machine (VM) and remote-session probes
// ---------------------------------------------------------------------------
/// A CPU vendor string betrays a hypervisor when it contains one of the
/// known hypervisor signatures, regardless of letter case.
pub open spec fn vendor_indicates_vm(v: Seq<char>) -> bool {
    ||| contains_ci(v, "vmware"@)
    ||| contains_ci(v, "virtualbox"@)
    ||| contains_ci(v, "qemu"@)
    ||| contains_ci(v, "kvm"@)
    ||| contains_ci(v, "microsoft hyper-v"@)
}

/// Decide `vendor_indicates_vm` for one vendor string.
pub fn vendor_string_indicates_vm(v: &str) -> (r: bool)
    ensures
        r == vendor_indicates_vm(v@),
{
    if str_contains_ci(v, "vmware") {
        return true;
    }
    if str_contains_ci(v, "virtualbox") {
        return true;
    }
    if str_contains_ci(v, "qemu") {
        return true;
    }
    if str_contains_ci(v, "kvm") {
        return true;
    }
    str_contains_ci(v, "microsoft hyper-v")
}

/// The startup guest-machine gate: reads the CPU vendor identification and
/// classifies it. The vendor string depends on the machine, so the result
/// cannot be pinned here; `vendor_string_indicates_vm` carries the exact
/// classification contract for every vendor value.
pub fn is_virtual_machine() -> (r: bool) {
    match cpu_vendor() {
        Some(v) => vendor_string_indicates_vm(v.as_str()),
        None => false,
    }
}

/// The CPU vendor identification, when the processor reports one.
fn cpu_vendor() -> (r: Option<String>) {
    platform::cpu_vendor_string()
}

/// The remote-session gate: the platform's remote-session metric is nonzero
/// exactly when the session runs over a remote desktop connection.
pub fn is_running_in_rdp(remote_session_metric: i32) -> (r: bool)
    ensures
        r == (remote_session_metric != 0),
{
    remote_session_metric != 0
}

} // verus!
