//! Which Linux input-method path serves this machine, by a fixed
//! priority: fcitx5, then IBus, then the Wayland-native `--ime` path.
//!
//! One machine should serve buttre through one path at a time: two live
//! engine registrations would both write the shared method files and fight
//! each other. The host probes the session bus and the environment; the
//! rule is here.

use crate::text::{chars_of, find_char, has_prefix, first_index_of, starts_with_chars, string_from_chars, sub_chars};
use vstd::prelude::*;

verus! {

/// The engine path to use, in priority order.
#[derive(Clone, Copy, Debug, PartialEq, Eq)]
pub enum ImeBackend {
    /// fcitx5 is running.
    Fcitx5,
    /// ibus-daemon is running (or its private-bus address answers).
    IBus,
    /// A Wayland session without either daemon: the compositor-managed
    /// `buttre --ime` path.
    WaylandIme,
}

/// Raw probe results.
#[derive(Clone, Copy, Debug, Default, PartialEq, Eq)]
pub struct Probes {
    pub fcitx5: bool,
    pub ibus: bool,
    pub wayland: bool,
}

pub open spec fn picked(p: Probes) -> Option<ImeBackend> {
    if p.fcitx5 {
        Some(ImeBackend::Fcitx5)
    } else if p.ibus {
        Some(ImeBackend::IBus)
    } else if p.wayland {
        Some(ImeBackend::WaylandIme)
    } else {
        None
    }
}

/// The fixed priority rule: fcitx5, IBus, Wayland. `None`: headless, or
/// X11 with no input-method daemon, nothing to register with.
pub fn pick(p: Probes) -> (r: Option<ImeBackend>)
    ensures
        r == picked(p),
{
    if p.fcitx5 {
        Some(ImeBackend::Fcitx5)
    } else if p.ibus {
        Some(ImeBackend::IBus)
    } else if p.wayland {
        Some(ImeBackend::WaylandIme)
    } else {
        None
    }
}

/// The path for the probed session (what the tray and the doctor use).
pub fn detect(p: Probes) -> (r: Option<ImeBackend>)
    ensures
        r == picked(p),
{
    pick(p)
}

/// The socket path of an `unix:path=...` IBus address (up to the first
/// `,`), which the host checks accepts a connection; `None` for the other
/// address forms, which are trusted as alive.
pub open spec fn ibus_socket(addr: Seq<char>) -> Option<Seq<char>> {
    if has_prefix(addr, "unix:path="@) {
        let rest = addr.skip(10);
        match first_index_of(rest, ',') {
            Some(i) => Some(rest.take(i)),
            None => Some(rest),
        }
    } else {
        None
    }
}

pub fn ibus_socket_path(addr: &str) -> (r: Option<String>)
    ensures
        match ibus_socket(addr@) {
            Some(p) => r matches Some(s) && s@ == p,
            None => r is None,
        },
{
    let cs = chars_of(addr);
    let prefix = chars_of("unix:path=");
    proof {
        reveal_strlit("unix:path=");
    }
    if !starts_with_chars(&cs, &prefix) {
        return None;
    }
    let rest = sub_chars(&cs, 10, cs.len());
    assert(rest@ =~= addr@.skip(10));
    match find_char(&rest, ',') {
        Some(i) => {
            proof {
                crate::text::lemma_first_index_some(rest@, ',', i as int);
            }
            let p = sub_chars(&rest, 0, i);
            assert(p@ =~= rest@.take(i as int));
            Some(string_from_chars(p.as_slice()))
        },
        None => {
            proof {
                crate::text::lemma_first_index_none(rest@, ',');
            }
            Some(string_from_chars(rest.as_slice()))
        },
    }
}

} // verus!
