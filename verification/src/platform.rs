//! The platform backends' state and their reaction to a method change.
//!
//! On Linux the tray only forwards the method to the engine processes
//! through the method file; on Windows the backend runs the TSF text
//! service, the keyboard hook, or both (the transport claim arbitrates).
//! The keyboard observer keeps the tray's own keyboard in step.

use crate::method_sync::{engine_method, strings_view, write_method};
use crate::text::string_of;
use vstd::prelude::*;

verus! {

// ---------------------------------------------------------------------------
// Linux
// ---------------------------------------------------------------------------

/// The Linux tray backend: the engine runs in separate processes.
#[derive(Debug)]
pub struct LinuxBackend {
    enabled: bool,
}

impl LinuxBackend {
    pub fn new() -> (r: Self)
        ensures
            !r.is_enabled_spec(),
    {
        LinuxBackend { enabled: false }
    }

    pub closed spec fn is_enabled_spec(&self) -> bool {
        self.enabled
    }

    pub fn is_enabled(&self) -> (r: bool)
        ensures
            r == self.is_enabled_spec(),
    {
        self.enabled
    }

    pub fn set_enabled(&mut self, enabled: bool)
        ensures
            final(self).is_enabled_spec() == enabled,
    {
        self.enabled = enabled;
    }

    /// A method change: the new content of the method file (`None`: the id
    /// is not one the engine can build, and nothing is written).
    pub fn on_method_changed(&self, method: &str, installed: &Vec<String>) -> (r: Option<String>)
        ensures
            engine_method(method@, strings_view(installed@)) ==> (r matches Some(t) && t@
                == method@),
            !engine_method(method@, strings_view(installed@)) ==> r is None,
    {
        write_method(method, installed)
    }
}

// ---------------------------------------------------------------------------
// Windows
// ---------------------------------------------------------------------------

/// Which delivery paths the Windows backend runs.
#[derive(Clone, Copy, Debug, PartialEq, Eq)]
pub enum BackendMode {
    Tsf,
    Hook,
    /// TSF with the hook as fallback; the transport claim decides, key by
    /// key, which one acts.
    Both,
}

/// TSF when it initialises (with the hook as well when the fallback is on),
/// the hook alone when TSF fails.
pub fn select_mode(tsf_ok: bool, hook_fallback: bool) -> (r: BackendMode)
    ensures
        r == (if tsf_ok && hook_fallback {
            BackendMode::Both
        } else if tsf_ok {
            BackendMode::Tsf
        } else {
            BackendMode::Hook
        }),
{
    if tsf_ok && hook_fallback {
        BackendMode::Both
    } else if tsf_ok {
        BackendMode::Tsf
    } else {
        BackendMode::Hook
    }
}

/// The mode's name in the log.
pub fn mode_name(mode: BackendMode) -> (r: &'static str)
    ensures
        r@ == (match mode {
            BackendMode::Tsf => "TSF"@,
            BackendMode::Hook => "Hook"@,
            BackendMode::Both => "TSF+Hook"@,
        }),
{
    match mode {
        BackendMode::Tsf => "TSF",
        BackendMode::Hook => "Hook",
        BackendMode::Both => "TSF+Hook",
    }
}

/// The Windows backend: off and without a method until the first method
/// notification fills both.
#[derive(Debug)]
pub struct WindowsBackend {
    enabled: bool,
    current_method: String,
    mode: BackendMode,
}

pub struct WindowsBackendView {
    pub enabled: bool,
    pub current_method: Seq<char>,
    pub mode: BackendMode,
}

impl View for WindowsBackend {
    type V = WindowsBackendView;

    closed spec fn view(&self) -> WindowsBackendView {
        WindowsBackendView {
            enabled: self.enabled,
            current_method: self.current_method@,
            mode: self.mode,
        }
    }
}

impl WindowsBackend {
    pub fn new(mode: BackendMode) -> (r: Self)
        ensures
            r@ == (WindowsBackendView { enabled: false, current_method: Seq::empty(), mode }),
    {
        let m = String::new();
        WindowsBackend { enabled: false, current_method: m, mode }
    }

    pub fn set_enabled(&mut self, enabled: bool)
        ensures
            final(self)@ == (WindowsBackendView { enabled, ..old(self)@ }),
    {
        self.enabled = enabled;
    }

    /// Under TSF the text service sees `Ctrl+Shift+Z` itself, so the tray
    /// must leave that chord unregistered.
    pub fn owns_word_toggle_chord(&self) -> (r: bool)
        ensures
            r == (self@.mode == BackendMode::Tsf || self@.mode == BackendMode::Both),
    {
        match self.mode {
            BackendMode::Tsf | BackendMode::Both => true,
            BackendMode::Hook => false,
        }
    }

    /// A method change: record it; the result says whether the hook must be
    /// switched explicitly (the text service follows the settings file).
    pub fn on_method_changed(&mut self, method: &str, enabled: bool) -> (hook_needs_switch: bool)
        ensures
            final(self)@ == (WindowsBackendView {
                enabled,
                current_method: method@,
                mode: old(self)@.mode,
            }),
            hook_needs_switch == (old(self)@.mode != BackendMode::Tsf),
    {
        self.current_method = string_of(method);
        self.enabled = enabled;
        match self.mode {
            BackendMode::Tsf => false,
            BackendMode::Hook | BackendMode::Both => true,
        }
    }
}

// ---------------------------------------------------------------------------
// The keyboard observer
// ---------------------------------------------------------------------------

/// A command for the tray's keyboard manager.
#[derive(Debug, PartialEq, Eq)]
pub enum ManagerCmd {
    SetEnabled(bool),
    SetMethod(String),
}

/// Keeps the tray's keyboard manager in step with the method and the
/// on/off state.
#[derive(Debug)]
pub struct KeyboardObserver {}

impl KeyboardObserver {
    pub fn new() -> (r: Self) {
        KeyboardObserver {  }
    }

    /// A method notification: the on/off state first (the manager builds a
    /// keyboard only while enabled, so an off-to-on notification must enable
    /// before it sets the method), then the method, only while enabled.
    pub fn on_method_changed(&self, method: &str, enabled: bool) -> (r: Vec<ManagerCmd>)
        ensures
            r@.len() == (if enabled {
                2int
            } else {
                1int
            }),
            r@[0] == ManagerCmd::SetEnabled(enabled),
            enabled ==> (r@[1] matches ManagerCmd::SetMethod(m) && m@ == method@),
    {
        let mut cmds: Vec<ManagerCmd> = Vec::new();
        cmds.push(ManagerCmd::SetEnabled(enabled));
        if enabled {
            cmds.push(ManagerCmd::SetMethod(string_of(method)));
        }
        cmds
    }
}

// ---------------------------------------------------------------------------
// Start-up
// ---------------------------------------------------------------------------

/// The saved method at start-up: kept when it is "english" or one of the
/// available methods, otherwise replaced by "english" (and saved back).
/// Returns the method to use and whether it changed.
pub fn startup_method(saved: &str, available: &Vec<String>) -> (r: (String, bool))
    ensures
        (saved@ == "english"@ || strings_view(available@).contains(saved@)) ==> r.0@ == saved@
            && !r.1,
        !(saved@ == "english"@ || strings_view(available@).contains(saved@)) ==> r.0@
            == "english"@ && r.1,
{
    if crate::text::str_eq(saved, "english") || crate::method_sync::contains_string(available, saved) {
        (string_of(saved), false)
    } else {
        (string_of("english"), true)
    }
}

} // verus!
