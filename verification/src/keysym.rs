//! X11 keysym classification. IBus keyvals are X11 keysyms, which is also
//! what xkbcommon produces, so one table serves every Linux backend.

use vstd::prelude::*;

verus! {

/// Modifier-only keysyms: Shift_L/R, Control_L/R, Caps_Lock, Shift_Lock,
/// Meta, Alt, Super, Hyper (`0xFFE1..=0xFFEE`) and the ISO group/level
/// shifts (`0xFE01..=0xFE0F`).
pub open spec fn modifier_keysym(k: u32) -> bool {
    (0xFFE1 <= k <= 0xFFEE) || (0xFE01 <= k <= 0xFE0F)
}

/// Non-printable keys that end the composition and pass through: Tab,
/// Escape, Home, the four arrows, Page_Up, Page_Down, End, Insert, Delete.
pub open spec fn break_keysym(k: u32) -> bool {
    k == 0xFF09 || k == 0xFF1B || (0xFF50 <= k <= 0xFF57) || k == 0xFF63 || k == 0xFFFF
}

/// The character a keysym types: printable ASCII by identity (XKB has
/// already applied Shift and Caps Lock), Return as `'\n'`, BackSpace as
/// `'\x08'`; nothing for anything else.
pub open spec fn keysym_char(k: u32) -> Option<char> {
    if 0x20 <= k <= 0x7E {
        Some(k as char)
    } else if k == 0xFF0D {
        Some('\n')
    } else if k == 0xFF08 {
        Some('\x08')
    } else {
        None
    }
}

/// True for modifier-only keysyms (Shift_L/R, Ctrl_L/R, Caps_Lock, …).
pub fn is_modifier_keysym(keysym: u32) -> (r: bool)
    ensures
        r == modifier_keysym(keysym),
{
    (0xFFE1 <= keysym && keysym <= 0xFFEE) || (0xFE01 <= keysym && keysym <= 0xFE0F)
}

/// True for non-printable keys that end the composition and pass through
/// (navigation, Tab, Escape, Delete, …). Printable separators (space,
/// punctuation) are not classified here: the engine decides those.
pub fn is_break_keysym(keysym: u32) -> (r: bool)
    ensures
        r == break_keysym(keysym),
{
    keysym == 0xFF09 || keysym == 0xFF1B || (0xFF50 <= keysym && keysym <= 0xFF57) || keysym
        == 0xFF63 || keysym == 0xFFFF
}

/// Convert an X11 keysym to the character it types.
pub fn keysym_to_char(keysym: u32) -> (r: Option<char>)
    ensures
        r == keysym_char(keysym),
{
    if 0x20 <= keysym && keysym <= 0x7E {
        let b: u8 = keysym as u8;
        Some(b as char)
    } else if keysym == 0xFF0D {
        Some('\n')
    } else if keysym == 0xFF08 {
        Some('\x08')
    } else {
        None
    }
}

} // verus!
