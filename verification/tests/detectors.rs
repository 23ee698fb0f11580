use proctor_core::detectors::{
    detect_additional_displays, is_disallowed_device_connected, is_input_device_disallowed,
    is_known_webrtc_program_running, is_remote_tool_name, is_running_in_rdp, is_udp_running,
    is_web_rtc_running, vendor_string_indicates_vm,
};
use proctor_core::types::{ProcessScan, Triggers, USBDevice};

fn device(id: &str, description: Option<&str>) -> USBDevice {
    USBDevice {
        id: id.to_string(),
        vendor_id: 0x1234,
        product_id: 0x5678,
        description: description.map(|d| d.to_string()),
        serial_number: None,
    }
}

#[test]
fn usb_device_with_matching_description_is_included() {
    let devices = vec![
        device("a", Some("USB Mass Storage Device")),
        device("b", Some("Wireless Keyboard")),
        device("c", Some("External HARD DISK")),
    ];
    let flagged = is_disallowed_device_connected(devices);
    assert_eq!(flagged.len(), 2);
    assert_eq!(flagged[0].id, "a");
    assert_eq!(flagged[1].id, "c");
}

#[test]
fn usb_device_without_description_is_never_included() {
    let devices = vec![device("a", None), device("b", None)];
    let flagged = is_disallowed_device_connected(devices);
    assert!(flagged.is_empty());
}

#[test]
fn usb_classification_keeps_enumeration_order() {
    let devices = vec![
        device("first", Some("hard disk")),
        device("second", Some("mass storage")),
        device("third", Some("Mass Storage hub")),
    ];
    let flagged = is_disallowed_device_connected(devices);
    let ids: Vec<&str> = flagged.iter().map(|d| d.id.as_str()).collect();
    assert_eq!(ids, vec!["first", "second", "third"]);
}

#[test]
fn usb_single_device_classification() {
    assert!(is_input_device_disallowed(&device("x", Some("SanDisk mass STORAGE"))));
    assert!(!is_input_device_disallowed(&device("x", Some("Webcam"))));
    assert!(!is_input_device_disallowed(&device("x", None)));
}

fn scan(name: &str, pid: i32) -> ProcessScan {
    ProcessScan {
        name: name.to_string(),
        process_id: pid,
        parent: Some(1),
        start_time: 100,
        run_time: 5,
        cpu_usage: 2,
    }
}

#[test]
fn remote_tool_names_matched_case_insensitively() {
    assert!(is_remote_tool_name("zoom"));
    assert!(is_remote_tool_name("Zoom.exe"));
    assert!(is_remote_tool_name("MICROSOFT TEAMS"));
    assert!(is_remote_tool_name("Team Viewer Daemon"));
    assert!(!is_remote_tool_name("firefox"));
}

#[test]
fn process_classification_keeps_matches_in_order() {
    let scans = vec![scan("zoom", 10), scan("bash", 11), scan("Discord", 12)];
    let matched = is_known_webrtc_program_running(&scans);
    assert_eq!(matched.len(), 2);
    assert_eq!(matched[0].process_id, 10);
    assert_eq!(matched[1].process_id, 12);
    assert!(matched.iter().all(|p| p.status));
}

#[test]
fn udp_port_scan_maps_failed_binds() {
    let report = is_udp_running(&vec![6301, 6302]);
    assert_eq!(report.len(), 2);
    assert_eq!(report[0].port, 6301);
    assert!(report[0].running);
    assert_eq!(report[1].port, 6302);
    assert!(report[1].running);
}

#[test]
fn web_rtc_report_carries_the_port_signals() {
    let report = is_web_rtc_running(&vec![6301]);
    assert_eq!(report.ports.len(), 1);
    assert_eq!(report.ports[0].port, 6301);
    assert!(report.processes.iter().all(|p| p.status));
}

#[test]
fn three_displays_yield_trigger_with_all_labels_in_order() {
    let labels = vec!["DP-1".to_string(), "DP-2".to_string(), "HDMI-1".to_string()];
    let found = detect_additional_displays(labels.clone());
    assert_eq!(found, Some(Triggers::AdditionalDisplayDetected(labels)));
}

#[test]
fn single_display_yields_no_trigger() {
    assert_eq!(detect_additional_displays(vec!["eDP-1".to_string()]), None);
    assert_eq!(detect_additional_displays(Vec::new()), None);
}

#[test]
fn hypervisor_vendor_strings_are_flagged() {
    assert!(vendor_string_indicates_vm("VMwareVMware"));
    assert!(vendor_string_indicates_vm("KVMKVMKVM"));
    assert!(vendor_string_indicates_vm("Microsoft Hyper-V"));
    assert!(!vendor_string_indicates_vm("GenuineIntel"));
    assert!(!vendor_string_indicates_vm("AuthenticAMD"));
}

#[test]
fn remote_session_metric_decides_rdp() {
    assert!(is_running_in_rdp(1));
    assert!(is_running_in_rdp(-7));
    assert!(!is_running_in_rdp(0));
}
