//! Launching buttre at login, for the current user, without elevation.
//!
//! The registration is re-applied on every launch while the setting is on,
//! so a moved or updated executable heals its own entry.

use crate::text::{chars_of, string_from_chars, string_of};
use vstd::prelude::*;

verus! {

/// Where autostart is registered.
#[derive(Clone, Copy, Debug, PartialEq, Eq)]
pub enum AutostartPlatform {
    /// The `buttre` value under the user's `Run` key.
    Windows,
    /// The XDG entry `~/.config/autostart/buttre.desktop`.
    Linux,
    /// The system launches the input method itself: nothing to register.
    Macos,
}

/// The change to make.
#[derive(Debug, PartialEq, Eq)]
pub enum AutostartChange {
    /// Set the `Run` value to this command line.
    SetRunValue(String),
    /// Delete the `Run` value (already absent is fine).
    DeleteRunValue,
    /// Write the desktop entry with this content.
    WriteDesktopEntry(String),
    /// Remove the desktop entry if it exists.
    RemoveDesktopEntry,
}

/// The executable, quoted (the install path may contain spaces).
pub open spec fn quoted(exe: Seq<char>) -> Seq<char> {
    "\""@ + exe + "\""@
}

/// The XDG autostart entry for `exe`.
pub open spec fn desktop_entry(exe: Seq<char>) -> Seq<char> {
    "[Desktop Entry]\nType=Application\nName=buttre\nComment=Bộ gõ tiếng Việt\nExec="@ + quoted(exe)
        + "\nX-GNOME-Autostart-enabled=true\n"@
}

/// Why autostart does not apply on macOS.
pub open spec fn macos_reason() -> Seq<char> {
    "autostart không áp dụng trên macOS (IMKit do hệ thống khởi chạy)"@
}

fn join3(a: &str, b: &str, c: &str) -> (r: String)
    ensures
        r@ == a@ + b@ + c@,
{
    let mut v = chars_of(a);
    let bs = chars_of(b);
    let cs = chars_of(c);
    for i in 0..bs.len()
        invariant
            v@ == a@ + bs@.take(i as int),
    {
        v.push(bs[i]);
        assert(v@ =~= a@ + bs@.take(i + 1));
    }
    assert(bs@.take(bs@.len() as int) =~= bs@);
    let ghost mid = v@;
    for i in 0..cs.len()
        invariant
            v@ == mid + cs@.take(i as int),
    {
        v.push(cs[i]);
        assert(v@ =~= mid + cs@.take(i + 1));
    }
    assert(cs@.take(cs@.len() as int) =~= cs@);
    string_from_chars(v.as_slice())
}

/// Register (`enabled`) or unregister launching `exe` at login.
pub fn set_enabled(platform: AutostartPlatform, enabled: bool, exe: &str) -> (r: Result<
    AutostartChange,
    String,
>)
    ensures
        platform == AutostartPlatform::Macos ==> (r matches Err(e) && e@ == macos_reason()),
        platform == AutostartPlatform::Windows && enabled ==> (r matches Ok(
            AutostartChange::SetRunValue(v),
        ) && v@ == quoted(exe@)),
        platform == AutostartPlatform::Windows && !enabled ==> r == Ok::<AutostartChange, String>(
            AutostartChange::DeleteRunValue,
        ),
        platform == AutostartPlatform::Linux && enabled ==> (r matches Ok(
            AutostartChange::WriteDesktopEntry(c),
        ) && c@ == desktop_entry(exe@)),
        platform == AutostartPlatform::Linux && !enabled ==> r == Ok::<AutostartChange, String>(
            AutostartChange::RemoveDesktopEntry,
        ),
{
    match platform {
        AutostartPlatform::Macos => Err(
            string_of("autostart không áp dụng trên macOS (IMKit do hệ thống khởi chạy)"),
        ),
        AutostartPlatform::Windows => {
            if enabled {
                Ok(AutostartChange::SetRunValue(join3("\"", exe, "\"")))
            } else {
                Ok(AutostartChange::DeleteRunValue)
            }
        },
        AutostartPlatform::Linux => {
            if enabled {
                let q = join3("\"", exe, "\"");
                let entry = join3(
                    "[Desktop Entry]\nType=Application\nName=buttre\nComment=Bộ gõ tiếng Việt\nExec=",
                    q.as_str(),
                    "\nX-GNOME-Autostart-enabled=true\n",
                );
                Ok(AutostartChange::WriteDesktopEntry(entry))
            } else {
                Ok(AutostartChange::RemoveDesktopEntry)
            }
        },
    }
}

} // verus!
