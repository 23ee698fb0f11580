use proctor_core::reactor::{react, Reactor};
use proctor_core::types::{PortStatus, ProcessIdentifier, Triggers, USBDevice, WebRtcReport};

fn device(id: &str, description: Option<&str>) -> USBDevice {
    USBDevice {
        id: id.to_string(),
        vendor_id: 1,
        product_id: 2,
        description: description.map(|d| d.to_string()),
        serial_number: None,
    }
}

fn process(pid: i32) -> ProcessIdentifier {
    ProcessIdentifier {
        process_id: pid,
        status: true,
        parent: None,
        start_time: 0,
        run_time: 0,
        cpu_usage: 0,
    }
}

#[test]
fn report_with_ports_alone_is_not_running() {
    let report = WebRtcReport { ports: vec![PortStatus::new(6301, true)], processes: vec![] };
    assert!(!report.is_running());
}

#[test]
fn report_with_both_signals_is_running() {
    let report = WebRtcReport {
        ports: vec![PortStatus::new(6301, true)],
        processes: vec![process(4)],
    };
    assert!(report.is_running());
}

#[test]
fn report_with_processes_alone_is_not_running() {
    let report = WebRtcReport { ports: vec![], processes: vec![process(4)] };
    assert!(!report.is_running());
}

#[test]
fn disallowed_input_action_logs_last_device_description() {
    let t = Triggers::DisallowedInput(vec![
        device("a", Some("first disk")),
        device("b", Some("USB Mass Storage")),
    ]);
    let a = react(&t);
    assert_eq!(a.logged_label, "USB Mass Storage");
    assert_eq!(a.notify_title, "Device Compromised");
    assert_eq!(a.notify_body, "An external device has been attached to your device");
    assert_eq!(a.grace_seconds, 30);
}

#[test]
fn disallowed_input_action_falls_back_when_description_missing() {
    let t = Triggers::DisallowedInput(vec![device("a", None)]);
    let a = react(&t);
    assert_eq!(a.logged_label, "UnNamed Device");
    assert_eq!(a.grace_seconds, 30);
}

#[test]
fn additional_display_action_logs_last_label() {
    let t = Triggers::AdditionalDisplayDetected(vec!["DP-1".to_string(), "HDMI-1".to_string()]);
    let a = react(&t);
    assert_eq!(a.logged_label, "HDMI-1");
    assert_eq!(a.grace_seconds, 200);
}

#[test]
fn remote_application_action_has_the_longest_short_grace() {
    let t = Triggers::RemoteApplicationDetected(WebRtcReport {
        ports: vec![PortStatus::new(6301, true)],
        processes: vec![process(4)],
    });
    let a = react(&t);
    assert_eq!(a.grace_seconds, 60);
    assert!(a.grace_seconds > 30);
}

#[test]
fn reactor_exit_is_terminal() {
    let mut r = Reactor::new();
    let first = r.handle(&Triggers::DisallowedInput(vec![device("a", Some("hard disk"))]));
    assert!(first.is_some());
    // once the reactor has begun terminating, further triggers are ignored
    let second = r.handle(&Triggers::AdditionalDisplayDetected(vec![
        "DP-1".to_string(),
        "DP-2".to_string(),
    ]));
    assert!(second.is_none());
}
