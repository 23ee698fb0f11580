//! Decisions of the session-facing commands.
//!
//! The commands the graphical shell invokes (set the validator server, read
//! the stored server URL, request exit with a password) and the global
//! shortcut handler each end in I/O: an HTTP request, a read or write of the
//! settings store, a notification. The decisions those functions make are
//! here, stated over the plain values the edges hand in.

use vstd::prelude::*;
use vstd::string::StringExecFns;
use crate::types::ModuleError;

verus! {

/// What the settings store holds under a key: nothing, a value that is not
/// text, or the text value.
#[derive(Debug, Clone, PartialEq, Eq)]
pub enum StoreValue {
    Missing,
    NotText,
    Text(String),
}

/// The stored server URL. A missing key and a non-text value are the two
/// distinct failures the lookup can report.
pub fn get_server_url(value: StoreValue) -> (r: Result<String, ModuleError>)
    ensures
        value matches StoreValue::Text(s) ==> r == Ok::<String, ModuleError>(s),
        value is Missing ==> (r matches Err(ModuleError::Internal(m)) && m@
            == "Couldn't find url in store"@),
        value is NotText ==> (r matches Err(ModuleError::Internal(m)) && m@
            == "Couldn't get server url"@),
{
    match value {
        StoreValue::Text(s) => Ok(s),
        StoreValue::Missing => Err(
            ModuleError::Internal(String::from_str("Couldn't find url in store")),
        ),
        StoreValue::NotText => Err(
            ModuleError::Internal(String::from_str("Couldn't get server url")),
        ),
    }
}

/// The stored server URL as the shell sees it: a stored text value is handed
/// back, a non-text value reads as "no URL yet", and a missing key is an
/// error.
pub fn server_url(value: StoreValue) -> (r: Result<Option<String>, ModuleError>)
    ensures
        value matches StoreValue::Text(s) ==> r == Ok::<Option<String>, ModuleError>(Some(s)),
        value is NotText ==> r == Ok::<Option<String>, ModuleError>(None),
        value is Missing ==> (r matches Err(ModuleError::Internal(m)) && m@
            == "Couldn't find url in store"@),
{
    let is_not_text = matches!(value, StoreValue::NotText);
    match get_server_url(value) {
        Ok(url) => Ok(Some(url)),
        Err(e) => {
            if is_not_text {
                Ok(None)
            } else {
                Err(e)
            }
        },
    }
}

/// The exit-request decision: with a stored session password, exit is
/// granted exactly when the supplied password matches; without one, the
/// request fails and a fresh password must be fetched first.
pub fn exit_exam(stored_password: Option<String>, password: &String) -> (r: Result<
    bool,
    ModuleError,
>)
    ensures
        stored_password matches Some(s) ==> r == Ok::<bool, ModuleError>(s@ == password@),
        stored_password is None ==> (r matches Err(ModuleError::Internal(m)) && m@
            == "Couldn't find password in store"@),
{
    match stored_password {
        Some(s) => Ok(s == *password),
        None => Err(ModuleError::Internal(String::from_str("Couldn't find password in store"))),
    }
}

/// The server-validation outcome by HTTP status class: a success status lets
/// the setup proceed, a client error names the request as wrong, anything
/// else is an unspecified failure.
pub fn set_server_outcome(status_code: u16) -> (r: Result<(), ModuleError>)
    ensures
        200 <= status_code < 300 ==> r is Ok,
        400 <= status_code < 500 ==> (r matches Err(ModuleError::Internal(m)) && m@
            == "Request was incorrect"@),
        !(200 <= status_code < 300) && !(400 <= status_code < 500) ==> (r matches Err(
            ModuleError::Internal(m),
        ) && m@ == "Something Went Wrong"@),
{
    if 200 <= status_code && status_code < 300 {
        Ok(())
    } else if 400 <= status_code && status_code < 500 {
        Err(ModuleError::Internal(String::from_str("Request was incorrect")))
    } else {
        Err(ModuleError::Internal(String::from_str("Something Went Wrong")))
    }
}

/// Which registered global shortcut an event belongs to.
#[derive(Debug, Clone, Copy, PartialEq, Eq, Structural)]
pub enum ShortcutKind {
    /// The supervised exit binding (Ctrl+K).
    KillBinding,
    /// The Ctrl+Alt+Delete interception binding.
    CtrlAltDelete,
    /// The minimize-guard binding (Super+D).
    MinimizeGuard,
    /// A shortcut not registered by this core.
    Other,
}

/// The press/release phase of a shortcut event.
#[derive(Debug, Clone, Copy, PartialEq, Eq, Structural)]
pub enum ShortcutPhase {
    Pressed,
    Released,
}

/// What the shell must do with a shortcut event.
#[derive(Debug, Clone, Copy, PartialEq, Eq, Structural)]
pub enum BindingAction {
    /// Log the event; nothing else happens.
    LogOnly,
    /// Show the password prompt and exit the application.
    PasswordPromptAndExit,
    /// Show the Ctrl+Alt+Delete prompt; the application keeps running.
    CtrlAltDeletePrompt,
}

/// The shortcut dispatch: releasing the exit binding prompts for the
/// password and exits, releasing the Ctrl+Alt+Delete binding raises its
/// prompt, and every other event — every press, the minimize guard, and
/// anything unregistered — is only logged.
pub open spec fn spec_build_bindings(kind: ShortcutKind, phase: ShortcutPhase) -> BindingAction {
    match (kind, phase) {
        (ShortcutKind::KillBinding, ShortcutPhase::Released) => BindingAction::PasswordPromptAndExit,
        (ShortcutKind::CtrlAltDelete, ShortcutPhase::Released) => BindingAction::CtrlAltDeletePrompt,
        _ => BindingAction::LogOnly,
    }
}

/// Classify one global-shortcut event.
pub fn build_bindings(kind: ShortcutKind, phase: ShortcutPhase) -> (a: BindingAction)
    ensures
        a == spec_build_bindings(kind, phase),
{
    match (kind, phase) {
        (ShortcutKind::KillBinding, ShortcutPhase::Released) => BindingAction::PasswordPromptAndExit,
        (ShortcutKind::CtrlAltDelete, ShortcutPhase::Released) => BindingAction::CtrlAltDeletePrompt,
        _ => BindingAction::LogOnly,
    }
}

/// The password-drift probe's decision after a successful fetch.
#[derive(Debug, Clone, PartialEq, Eq)]
pub enum PasswordDriftAction {
    /// The fetched password differs from (or has no) persisted value:
    /// rewrite the persisted state with this value.
    Store(String),
    /// The persisted value already equals the fetched one: leave it alone.
    Unchanged,
}

/// Compare a freshly fetched session password against the persisted value:
/// the persisted state is rewritten only when the value changed, and a first
/// run (no persisted value) always writes.
pub fn password_drift_action(fetched: String, stored: Option<String>) -> (a: PasswordDriftAction)
    ensures
        match stored {
            Some(s) => if s@ == fetched@ {
                a == PasswordDriftAction::Unchanged
            } else {
                a == PasswordDriftAction::Store(fetched)
            },
            None => a == PasswordDriftAction::Store(fetched),
        },
{
    match &stored {
        Some(s) => {
            if *s == fetched {
                PasswordDriftAction::Unchanged
            } else {
                PasswordDriftAction::Store(fetched)
            }
        },
        None => PasswordDriftAction::Store(fetched),
    }
}

/// Seat assignment is not performed by this core.
pub fn assign_seat_number_to_computer() {
}

/// Seat reassignment is not performed by this core.
pub fn change_seat_number() {
}

/// One-time-password validation always accepts.
pub fn validate_otp() -> (r: bool)
    ensures
        r == true,
{
    true
}

} // verus!
