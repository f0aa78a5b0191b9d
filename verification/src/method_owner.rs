//! Who owns the choice of input method on this machine.
//!
//! buttre owns it only where the operating system gives it no menu, or
//! where several delivery paths have to be arbitrated; everywhere else the
//! OS does. One function answers that ([`decide`]); the host branches on
//! it (whether to build a tray at all).

use crate::backend_detect::ImeBackend;
use vstd::prelude::*;

verus! {

/// Who owns the input-method choice (and with it: whether there is a tray).
#[derive(Clone, Copy, Debug, PartialEq, Eq)]
pub enum MethodOwner {
    /// The OS already shows the engine's methods (IBus properties, the
    /// fcitx5 panel, the macOS input-source menu): no tray.
    Os,
    /// No OS menu (Wayland-native), or two paths to arbitrate (Windows:
    /// TSF and the hook): buttre builds the tray and owns the choice.
    Buttre,
}

/// The surface serving this machine, in platform-neutral form.
#[derive(Clone, Copy, Debug, PartialEq, Eq)]
pub enum SurfacePath {
    /// Windows: TSF and the hook, which only buttre can arbitrate.
    Windows,
    /// macOS IMKit: the OS input-source menu.
    MacosImkit,
    /// fcitx5 running with the fcitx5-buttre addon, whose panel menu lists
    /// the methods.
    LinuxFcitx5,
    /// fcitx5 running without the addon: no menu draws buttre's methods.
    LinuxFcitx5NoAddon,
    /// ibus-daemon running: the methods are IBus radios in the panel.
    LinuxIbus,
    /// Wayland-native input method: the compositor draws no method menu.
    LinuxWaylandNative,
    /// No input-method path found (X11 without a daemon).
    LinuxUndetected,
}

pub open spec fn owner(path: SurfacePath) -> MethodOwner {
    match path {
        SurfacePath::MacosImkit | SurfacePath::LinuxFcitx5 | SurfacePath::LinuxIbus =>
            MethodOwner::Os,
        _ => MethodOwner::Buttre,
    }
}

/// The ownership table.
pub fn owner_of(path: SurfacePath) -> (r: MethodOwner)
    ensures
        r == owner(path),
{
    match path {
        SurfacePath::MacosImkit | SurfacePath::LinuxFcitx5 | SurfacePath::LinuxIbus =>
            MethodOwner::Os,
        SurfacePath::Windows | SurfacePath::LinuxWaylandNative | SurfacePath::LinuxFcitx5NoAddon
        | SurfacePath::LinuxUndetected => MethodOwner::Buttre,
    }
}

/// The Linux surface in effect. KWin owning the input method process
/// (kwinrc names buttre) means Wayland-native even when ibus-daemon runs
/// alongside, so it is asked first; otherwise the picked backend decides,
/// fcitx5 counting as an OS menu only with the addon installed.
pub open spec fn linux_surface(kwin_manages: bool, picked: Option<ImeBackend>, addon: bool) -> SurfacePath {
    if kwin_manages {
        SurfacePath::LinuxWaylandNative
    } else {
        match picked {
            Some(ImeBackend::Fcitx5) => if addon {
                SurfacePath::LinuxFcitx5
            } else {
                SurfacePath::LinuxFcitx5NoAddon
            },
            Some(ImeBackend::IBus) => SurfacePath::LinuxIbus,
            Some(ImeBackend::WaylandIme) => SurfacePath::LinuxWaylandNative,
            None => SurfacePath::LinuxUndetected,
        }
    }
}

/// The Linux surface for the probed session.
pub fn current_surface(kwin_manages: bool, picked: Option<ImeBackend>, fcitx5_addon: bool) -> (r:
    SurfacePath)
    ensures
        r == linux_surface(kwin_manages, picked, fcitx5_addon),
{
    if kwin_manages {
        return SurfacePath::LinuxWaylandNative;
    }
    match picked {
        Some(ImeBackend::Fcitx5) => if fcitx5_addon {
            SurfacePath::LinuxFcitx5
        } else {
            SurfacePath::LinuxFcitx5NoAddon
        },
        Some(ImeBackend::IBus) => SurfacePath::LinuxIbus,
        Some(ImeBackend::WaylandIme) => SurfacePath::LinuxWaylandNative,
        None => SurfacePath::LinuxUndetected,
    }
}

/// [`current_surface`] and [`owner_of`] together: what the host branches on.
pub fn decide(kwin_manages: bool, picked: Option<ImeBackend>, fcitx5_addon: bool) -> (r: MethodOwner)
    ensures
        r == owner(linux_surface(kwin_manages, picked, fcitx5_addon)),
{
    owner_of(current_surface(kwin_manages, picked, fcitx5_addon))
}

/// There is always a way to switch methods: wherever buttre builds no tray,
/// an OS menu lists the methods (IBus radios, the fcitx5 addon's panel, the
/// macOS menu) — never the fcitx5 case without the addon.
pub proof fn lemma_no_tray_only_with_os_menu(path: SurfacePath)
    ensures
        owner(path) == MethodOwner::Os <==> (path == SurfacePath::LinuxIbus || path
            == SurfacePath::LinuxFcitx5 || path == SurfacePath::MacosImkit),
{
}

} // verus!
