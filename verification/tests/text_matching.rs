use proctor_core::text::{char_eq_ci_exec, str_contains, str_contains_ci, str_matches_at};

#[test]
fn char_case_fold_equality() {
    assert!(char_eq_ci_exec('A', 'a'));
    assert!(char_eq_ci_exec('z', 'Z'));
    assert!(char_eq_ci_exec('7', '7'));
    assert!(!char_eq_ci_exec('a', 'b'));
    // Folding is ASCII only: a non-ASCII letter compares to itself alone.
    assert!(char_eq_ci_exec('é', 'é'));
    assert!(!char_eq_ci_exec('é', 'e'));
}

#[test]
fn contains_ci_finds_keyword_in_any_case() {
    assert!(str_contains_ci("USB Mass Storage Device", "mass storage"));
    assert!(str_contains_ci("HARD DISK drive", "hard disk"));
    assert!(str_contains_ci("vmware", "VMWARE"));
    assert!(!str_contains_ci("keyboard", "mass storage"));
}

#[test]
fn contains_ci_empty_needle_always_found() {
    assert!(str_contains_ci("anything", ""));
    assert!(str_contains_ci("", ""));
}

#[test]
fn contains_ci_needle_longer_than_hay() {
    assert!(!str_contains_ci("usb", "mass storage"));
}

#[test]
fn contains_case_sensitive() {
    assert!(str_contains("SerialNumber", "SerialNumber"));
    assert!(!str_contains("serialnumber", "SerialNumber"));
    assert!(str_contains("xxSerialNumberyy", "SerialNumber"));
}

#[test]
fn matches_at_offset() {
    assert!(str_matches_at("abcdef", "cde", 2));
    assert!(!str_matches_at("abcdef", "cde", 1));
}
