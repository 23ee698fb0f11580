//! The keyboard-hook interceptor's suppression policy and lifecycle.
//!
//! The sidecar process installs one global low-level keyboard hook and then
//! runs a blocking message loop; the hook callback classifies every key-down
//! event before the OS sees it. The classification is a pure function of the
//! virtual-key code and the modifier state, stated and proved here; the
//! callback itself and the message loop live in the sidecar binary.
//!
//! A key is suppressed when it is a platform super/meta key, Alt+Tab,
//! Ctrl/Alt+Escape, Alt+F4, any Alt press by itself, or Delete; and, as a
//! deliberate blanket policy, every key while Alt is held down. All other key
//! events are forwarded unmodified to the next hook in the chain.

use vstd::prelude::*;

verus! {

/// Virtual-key code of the left super/meta key.
pub const VK_LWIN: u32 = 0x5B;

/// Virtual-key code of the right super/meta key.
pub const VK_RWIN: u32 = 0x5C;

/// Virtual-key code of the Tab key.
pub const VK_TAB: u32 = 0x09;

/// Virtual-key code of the Escape key.
pub const VK_ESCAPE: u32 = 0x1B;

/// Virtual-key code of the F4 key.
pub const VK_F4: u32 = 0x73;

/// Virtual-key code of the Alt (menu) key.
pub const VK_MENU: u32 = 0x12;

/// Virtual-key code of the Delete key.
pub const VK_DELETE: u32 = 0x2E;

/// What the hook does with one key event.
#[derive(Debug, Clone, Copy, PartialEq, Eq, Structural)]
pub enum KeyDecision {
    /// Consume the event; the OS never sees it.
    Suppress,
    /// Hand the event to the next hook in the chain, unmodified.
    Forward,
}

/// The named escape combinations: super/meta keys, Alt+Tab, Ctrl/Alt+Escape,
/// Alt+F4, the Alt key itself, and Delete.
pub open spec fn is_system_key(vk: u32, alt_down: bool, ctrl_down: bool) -> bool {
    ||| vk == VK_LWIN
    ||| vk == VK_RWIN
    ||| (vk == VK_TAB && alt_down)
    ||| (vk == VK_ESCAPE && (alt_down || ctrl_down))
    ||| (vk == VK_F4 && alt_down)
    ||| vk == VK_MENU
    ||| vk == VK_DELETE
}

/// The suppression policy: only key-down events are classified; while Alt is
/// held, every key is suppressed (the blanket rule); otherwise exactly the
/// named escape combinations are suppressed.
pub open spec fn spec_classify_key(vk: u32, key_down: bool, alt_down: bool, ctrl_down: bool) -> KeyDecision {
    if !key_down {
        KeyDecision::Forward
    } else if alt_down {
        KeyDecision::Suppress
    } else if is_system_key(vk, alt_down, ctrl_down) {
        KeyDecision::Suppress
    } else {
        KeyDecision::Forward
    }
}

/// Classify one key event against the suppression policy.
pub fn classify_key(vk: u32, key_down: bool, alt_down: bool, ctrl_down: bool) -> (d: KeyDecision)
    ensures
        d == spec_classify_key(vk, key_down, alt_down, ctrl_down),
{
    if !key_down {
        return KeyDecision::Forward;
    }
    if alt_down {
        return KeyDecision::Suppress;
    }
    let system_key = vk == VK_LWIN || vk == VK_RWIN || (vk == VK_TAB && alt_down) || (vk
        == VK_ESCAPE && (alt_down || ctrl_down)) || (vk == VK_F4 && alt_down) || vk == VK_MENU
        || vk == VK_DELETE;
    if system_key {
        KeyDecision::Suppress
    } else {
        KeyDecision::Forward
    }
}

/// The whole hook-callback decision. The OS hands the callback a hook code
/// and a message kind besides the key data: a negative hook code must be
/// passed along unprocessed, and only key-down messages (plain or system)
/// are classified. Everything else reaches `spec_classify_key`.
pub open spec fn spec_hook_event_decision(
    hook_code: i32,
    key_down_message: bool,
    vk: u32,
    alt_down: bool,
    ctrl_down: bool,
) -> KeyDecision {
    if hook_code < 0 {
        KeyDecision::Forward
    } else {
        spec_classify_key(vk, key_down_message, alt_down, ctrl_down)
    }
}

/// Decide one hook callback invocation: pass negative hook codes along, and
/// classify key-down messages against the suppression policy.
pub fn hook_event_decision(
    hook_code: i32,
    key_down_message: bool,
    vk: u32,
    alt_down: bool,
    ctrl_down: bool,
) -> (d: KeyDecision)
    ensures
        d == spec_hook_event_decision(hook_code, key_down_message, vk, alt_down, ctrl_down),
{
    if hook_code < 0 {
        KeyDecision::Forward
    } else {
        classify_key(vk, key_down_message, alt_down, ctrl_down)
    }
}

/// Law of the blanket rule: while Alt is held down, every key-down event is
/// suppressed, whatever its key code and whatever the Ctrl state.
pub proof fn lemma_alt_blanket_suppression(vk: u32, ctrl_down: bool)
    ensures
        spec_classify_key(vk, true, true, ctrl_down) is Suppress,
{
}

/// The hook registration's lifecycle inside the sidecar process. The hook is
/// installed at most once per process; failure to install is fatal (the
/// process aborts — there is no degraded mode); the message loop runs until
/// the process is killed from outside, which uninstalls the hook.
#[derive(Debug, Clone, Copy, PartialEq, Eq, Structural)]
pub enum HookState {
    Uninstalled,
    Installed,
    Running,
}

pub struct HookLifecycle {
    pub state: HookState,
    pub ever_installed: bool,
}

impl HookLifecycle {
    /// A fresh sidecar process: no hook is registered yet.
    pub fn new() -> (h: HookLifecycle)
        ensures
            h.state is Uninstalled,
            !h.ever_installed,
    {
        HookLifecycle { state: HookState::Uninstalled, ever_installed: false }
    }

    /// Record the one installation attempt. Success registers the hook —
    /// once per process, never reinstalled; failure is fatal and the process
    /// must abort.
    pub fn on_install(&mut self, success: bool) -> (fatal: bool)
        requires
            old(self).state is Uninstalled,
            !old(self).ever_installed,
        ensures
            fatal == !success,
            success ==> final(self).state is Installed && final(self).ever_installed,
            !success ==> *final(self) == *old(self),
    {
        if success {
            self.state = HookState::Installed;
            self.ever_installed = true;
            false
        } else {
            true
        }
    }

    /// Enter the blocking message loop that keeps the hook alive.
    pub fn enter_message_loop(&mut self)
        requires
            old(self).state is Installed,
        ensures
            final(self).state is Running,
            final(self).ever_installed == old(self).ever_installed,
    {
        self.state = HookState::Running;
    }

    /// The owning process exits: the hook registration is released. This is
    /// the only way the loop ends — there is no internal stop command.
    pub fn on_process_exit(&mut self)
        ensures
            final(self).state is Uninstalled,
            final(self).ever_installed == old(self).ever_installed,
    {
        self.state = HookState::Uninstalled;
    }
}

} // verus!
