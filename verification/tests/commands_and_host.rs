use proctor_core::commands::{
    assign_seat_number_to_computer, build_bindings, change_seat_number, exit_exam, get_server_url,
    password_drift_action, server_url, set_server_outcome, validate_otp, BindingAction,
    PasswordDriftAction, ShortcutKind, ShortcutPhase, StoreValue,
};
use proctor_core::host::{
    get_host_info, get_linux_serial, get_macos_serial, get_windows_serial, trim_spaces,
};
use proctor_core::types::ModuleError;

#[test]
fn exit_granted_only_on_matching_password() {
    let stored = Some("hunter2".to_string());
    assert_eq!(exit_exam(stored.clone(), &"hunter2".to_string()), Ok(true));
    assert_eq!(exit_exam(stored, &"wrong".to_string()), Ok(false));
}

#[test]
fn exit_without_stored_password_is_an_error() {
    let r = exit_exam(None, &"anything".to_string());
    assert_eq!(
        r,
        Err(ModuleError::Internal("Couldn't find password in store".to_string()))
    );
}

#[test]
fn stored_url_lookup_reports_each_failure() {
    assert_eq!(get_server_url(StoreValue::Text("https://x".to_string())), Ok("https://x".to_string()));
    assert_eq!(
        get_server_url(StoreValue::Missing),
        Err(ModuleError::Internal("Couldn't find url in store".to_string()))
    );
    assert_eq!(
        get_server_url(StoreValue::NotText),
        Err(ModuleError::Internal("Couldn't get server url".to_string()))
    );
}

#[test]
fn shell_url_view_maps_non_text_to_none() {
    assert_eq!(server_url(StoreValue::Text("u".to_string())), Ok(Some("u".to_string())));
    assert_eq!(server_url(StoreValue::NotText), Ok(None));
    assert_eq!(
        server_url(StoreValue::Missing),
        Err(ModuleError::Internal("Couldn't find url in store".to_string()))
    );
}

#[test]
fn server_validation_outcome_by_status_class() {
    assert_eq!(set_server_outcome(200), Ok(()));
    assert_eq!(set_server_outcome(204), Ok(()));
    assert_eq!(
        set_server_outcome(404),
        Err(ModuleError::Internal("Request was incorrect".to_string()))
    );
    assert_eq!(
        set_server_outcome(500),
        Err(ModuleError::Internal("Something Went Wrong".to_string()))
    );
    assert_eq!(
        set_server_outcome(301),
        Err(ModuleError::Internal("Something Went Wrong".to_string()))
    );
}

#[test]
fn shortcut_dispatch() {
    assert_eq!(
        build_bindings(ShortcutKind::KillBinding, ShortcutPhase::Released),
        BindingAction::PasswordPromptAndExit
    );
    assert_eq!(
        build_bindings(ShortcutKind::KillBinding, ShortcutPhase::Pressed),
        BindingAction::LogOnly
    );
    assert_eq!(
        build_bindings(ShortcutKind::CtrlAltDelete, ShortcutPhase::Released),
        BindingAction::CtrlAltDeletePrompt
    );
    assert_eq!(
        build_bindings(ShortcutKind::MinimizeGuard, ShortcutPhase::Released),
        BindingAction::LogOnly
    );
    assert_eq!(
        build_bindings(ShortcutKind::Other, ShortcutPhase::Released),
        BindingAction::LogOnly
    );
}

#[test]
fn password_drift_rewrites_only_on_change() {
    assert_eq!(
        password_drift_action("new".to_string(), Some("old".to_string())),
        PasswordDriftAction::Store("new".to_string())
    );
    assert_eq!(
        password_drift_action("same".to_string(), Some("same".to_string())),
        PasswordDriftAction::Unchanged
    );
    assert_eq!(
        password_drift_action("first".to_string(), None),
        PasswordDriftAction::Store("first".to_string())
    );
}

#[test]
fn placeholder_session_commands() {
    assign_seat_number_to_computer();
    change_seat_number();
    assert!(validate_otp());
}

#[test]
fn trimming_strips_ascii_whitespace() {
    assert_eq!(trim_spaces("  abc \r\n"), "abc");
    assert_eq!(trim_spaces("abc"), "abc");
    assert_eq!(trim_spaces(" \t \r\n "), "");
    assert_eq!(trim_spaces(""), "");
}

#[test]
fn windows_serial_parses_first_data_line() {
    let out = "SerialNumber  \r\n  ABC123XYZ  \r\n\r\n";
    assert_eq!(get_windows_serial(out), Some("ABC123XYZ".to_string()));
}

#[test]
fn windows_serial_none_when_only_header() {
    assert_eq!(get_windows_serial("SerialNumber\r\n   \r\n"), None);
    assert_eq!(get_windows_serial(""), None);
}

#[test]
fn macos_serial_parses_the_naming_line() {
    let out = "Hardware:\n\n    Hardware Overview:\n\n      Serial Number (system): C02XK1ZZJGH5\n";
    assert_eq!(get_macos_serial(out), Some("C02XK1ZZJGH5".to_string()));
}

#[test]
fn macos_serial_none_without_naming_line() {
    assert_eq!(get_macos_serial("Hardware Overview:\n  Model Name: Laptop\n"), None);
}

#[test]
fn macos_serial_none_when_naming_line_has_no_colon() {
    assert_eq!(get_macos_serial("  Serial Number\n"), None);
}

#[test]
fn linux_serial_takes_first_non_blank_line() {
    assert_eq!(get_linux_serial("\n   \nPF1ABCDE\n"), Some("PF1ABCDE".to_string()));
    assert_eq!(get_linux_serial("  \n \n"), None);
}

#[test]
fn host_info_assembles_the_given_identification() {
    let h = get_host_info(
        "linux".to_string(),
        "x86_64".to_string(),
        "4242".to_string(),
        Some("PF1ABCDE".to_string()),
    );
    assert_eq!(h.os, "linux");
    assert_eq!(h.arch, "x86_64");
    assert_eq!(h.processor_id, Some("4242".to_string()));
    assert_eq!(h.serial_number, Some("PF1ABCDE".to_string()));
}

#[test]
fn module_error_from_string_is_internal() {
    let e = ModuleError::from("boom".to_string());
    assert_eq!(e, ModuleError::Internal("boom".to_string()));
}
