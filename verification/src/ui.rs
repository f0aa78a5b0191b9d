//! What the tray shows: the menu layout, the check marks, the icon and the
//! tooltip for each state, and the greyscale "off" variant of an icon.
//!
//! The host builds the actual menu and tray widgets from these plans.

use crate::text::{str_eq, string_of, string_from_chars, chars_of};
use vstd::prelude::*;

verus! {

// ---------------------------------------------------------------------------
// Icons
// ---------------------------------------------------------------------------

/// What decoding an image file gives: RGBA bytes, width and height, or
/// nothing when the bytes are not an image the decoder reads.
pub uninterp spec fn decoded_rgba(bytes: Seq<u8>) -> Option<(Seq<u8>, u32, u32)>;

/// `image::load_from_memory` (format guessed from the bytes), converted to
/// 8-bit RGBA with `into_rgba8`, as raw bytes with the dimensions. The
/// result is named; the image crate's `ImageBuffer::from_raw` only builds a
/// buffer whose container holds at least `4 * width * height` bytes.
#[verifier::external_body]
pub(crate) fn decode_rgba(bytes: &[u8]) -> (r: Option<(Vec<u8>, u32, u32)>)
    ensures
        match r {
            Some((rgba, w, h)) => decoded_rgba(bytes@) == Some((rgba@, w, h)) && rgba@.len() >= 4
                * w * h,
            None => decoded_rgba(bytes@) is None,
        },
{
    match image::load_from_memory(bytes) {
        Ok(img) => {
            let img = img.into_rgba8();
            let (w, h) = img.dimensions();
            Some((img.into_raw(), w, h))
        },
        Err(_) => None,
    }
}

/// BT.601 luminance of a pixel: `(299 r + 587 g + 114 b) / 1000`.
pub open spec fn luma(r: u8, g: u8, b: u8) -> u8 {
    ((299 * r + 587 * g + 114 * b) / 1000) as u8
}

/// Byte `i` of the greyscale image: in every complete 4-byte pixel the
/// three colour bytes become the pixel's luminance and alpha is kept;
/// trailing bytes of an incomplete pixel are kept as they are.
pub open spec fn grey_byte(s: Seq<u8>, i: int) -> u8 {
    let p = i / 4;
    if i < 4 * (s.len() / 4) && i % 4 < 3 {
        luma(s[4 * p], s[4 * p + 1], s[4 * p + 2])
    } else {
        s[i]
    }
}

/// Greyscale by luminance, alpha kept. Chosen over fading for the OFF
/// state: at 16 px a faded icon all but disappears, while greyscale keeps
/// full contrast and still reads as "not active".
pub fn greyscale_rgba(rgba: &[u8]) -> (r: Vec<u8>)
    ensures
        r@.len() == rgba@.len(),
        forall|i: int| 0 <= i < rgba@.len() ==> #[trigger] r@[i] == grey_byte(rgba@, i),
{
    let n = rgba.len();
    let full = n / 4 * 4;
    let mut out: Vec<u8> = Vec::new();
    let mut k: usize = 0;
    while k < full
        invariant
            full == 4 * (n / 4),
            n == rgba@.len(),
            k <= full,
            k % 4 == 0,
            out@.len() == k,
            forall|i: int| 0 <= i < k ==> #[trigger] out@[i] == grey_byte(rgba@, i),
        decreases full - k,
    {
        let r = rgba[k] as u32;
        let g = rgba[k + 1] as u32;
        let b = rgba[k + 2] as u32;
        let y = ((299 * r + 587 * g + 114 * b) / 1000) as u8;
        out.push(y);
        out.push(y);
        out.push(y);
        out.push(rgba[k + 3]);
        proof {
            let p = k as int / 4;
            assert(p * 4 == k);
            assert forall|i: int| k <= i < k + 4 implies #[trigger] out@[i] == grey_byte(
                rgba@,
                i,
            ) by {
                assert(i / 4 == p);
                assert(i % 4 == i - k);
            }
        }
        k = k + 4;
    }
    while k < n
        invariant
            full == 4 * (n / 4),
            n == rgba@.len(),
            full <= k <= n,
            out@.len() == k,
            forall|i: int| 0 <= i < k ==> #[trigger] out@[i] == grey_byte(rgba@, i),
        decreases n - k,
    {
        out.push(rgba[k]);
        k = k + 1;
    }
    out
}

/// Greyscale never changes a pixel's alpha, and makes its three colour
/// bytes equal.
pub proof fn lemma_greyscale_pixel(s: Seq<u8>, p: int)
    requires
        0 <= p,
        4 * p + 4 <= s.len(),
    ensures
        grey_byte(s, 4 * p + 3) == s[4 * p + 3],
        grey_byte(s, 4 * p) == grey_byte(s, 4 * p + 1),
        grey_byte(s, 4 * p + 1) == grey_byte(s, 4 * p + 2),
{
    assert((4 * p + 1) / 4 == p);
    assert((4 * p + 2) / 4 == p);
    assert((4 * p + 3) / 4 == p);
    assert((4 * p) / 4 == p);
    assert(4 * p + 4 <= 4 * (s.len() / 4));
}

/// An icon as RGBA pixels.
#[derive(Debug, PartialEq, Eq)]
pub struct IconPixels {
    pub rgba: Vec<u8>,
    pub width: u32,
    pub height: u32,
}

/// One tray icon in both of its states: full colour for ON, greyscale for
/// OFF. Both come from the same source bytes (the OFF variant always from
/// the source pixels, so toggling never compounds the transform).
#[derive(Debug)]
pub struct IconSet {
    pub color: IconPixels,
    pub grey: IconPixels,
}

/// The 1×1 transparent icon: the fallback when the bytes do not decode.
pub open spec fn blank_pixels() -> Seq<u8> {
    seq![0u8, 0u8, 0u8, 0u8]
}

fn blank_icon() -> (r: IconPixels)
    ensures
        r.rgba@ == blank_pixels(),
        r.width == 1,
        r.height == 1,
{
    let v = vec![0u8, 0u8, 0u8, 0u8];
    assert(v@ =~= blank_pixels());
    IconPixels { rgba: v, width: 1, height: 1 }
}

impl IconSet {
    /// Both variants from image bytes, with the blank icon for both when
    /// the bytes do not decode (a blank tray icon beats a startup crash).
    pub fn from_bytes(bytes: &[u8]) -> (r: Self)
        ensures
            match decoded_rgba(bytes@) {
                Some((rgba, w, h)) => r.color.rgba@ == rgba && r.color.width == w && r.color.height
                    == h && r.grey.width == w && r.grey.height == h && r.grey.rgba@.len()
                    == rgba.len() && (forall|i: int|
                    0 <= i < rgba.len() ==> #[trigger] r.grey.rgba@[i] == grey_byte(rgba, i)),
                None => r.color.rgba@ == blank_pixels() && r.grey.rgba@ == blank_pixels()
                    && r.color.width == 1 && r.color.height == 1 && r.grey.width == 1
                    && r.grey.height == 1,
            },
    {
        match decode_rgba(bytes) {
            Some((rgba, w, h)) => {
                let grey = greyscale_rgba(rgba.as_slice());
                IconSet {
                    color: IconPixels { rgba, width: w, height: h },
                    grey: IconPixels { rgba: grey, width: w, height: h },
                }
            },
            None => IconSet { color: blank_icon(), grey: blank_icon() },
        }
    }

    /// The variant for the given enabled state.
    pub fn variant(&self, enabled: bool) -> (r: &IconPixels)
        ensures
            enabled ==> r == &self.color,
            !enabled ==> r == &self.grey,
    {
        if enabled {
            &self.color
        } else {
            &self.grey
        }
    }
}

// ---------------------------------------------------------------------------
// Methods as the tray knows them
// ---------------------------------------------------------------------------

/// A custom method as the tray lists it: its id, display name and the icon
/// file it may ship next to its keyboard file.
#[derive(Debug)]
pub struct CustomMethod {
    pub id: String,
    pub name: String,
    pub icon: Option<String>,
}

/// The first custom method with this id.
pub open spec fn find_custom(customs: Seq<CustomMethod>, id: Seq<char>) -> Option<int> {
    if exists|i: int| 0 <= i < customs.len() && customs[i].id@ == id {
        Some(
            choose|i: int|
                0 <= i < customs.len() && customs[i].id@ == id && forall|j: int|
                    0 <= j < i ==> customs[j].id@ != id,
        )
    } else {
        None
    }
}

fn find_custom_index(customs: &Vec<CustomMethod>, id: &str) -> (r: Option<usize>)
    ensures
        match r {
            Some(i) => i < customs@.len() && customs@[i as int].id@ == id@ && forall|j: int|
                0 <= j < i ==> customs@[j].id@ != id@,
            None => forall|j: int| 0 <= j < customs@.len() ==> customs@[j].id@ != id@,
        },
{
    let n = customs.len();
    for i in 0..n
        invariant
            n == customs@.len(),
            forall|j: int| 0 <= j < i ==> customs@[j].id@ != id@,
    {
        if str_eq(customs[i].id.as_str(), id) {
            return Some(i);
        }
    }
    None
}

proof fn lemma_find_custom(customs: Seq<CustomMethod>, id: Seq<char>, r: Option<usize>)
    requires
        match r {
            Some(i) => i < customs.len() && customs[i as int].id@ == id && forall|j: int|
                0 <= j < i ==> customs[j].id@ != id,
            None => forall|j: int| 0 <= j < customs.len() ==> customs[j].id@ != id,
        },
    ensures
        find_custom(customs, id) == match r {
            Some(i) => Some(i as int),
            None => None::<int>,
        },
{
    if let Some(i) = r {
        assert(customs[i as int].id@ == id);
        let k = choose|k: int|
            0 <= k < customs.len() && customs[k].id@ == id && forall|j: int|
                0 <= j < k ==> customs[j].id@ != id;
        assert(k == i as int) by {
            if k < i {
                assert(customs[k].id@ != id);
            }
            if k > i {
                assert(customs[i as int].id@ != id);
            }
        }
    }
}

// ---------------------------------------------------------------------------
// Tooltip
// ---------------------------------------------------------------------------

/// What `str::to_uppercase` returns for `s` (the full Unicode upper-case
/// mapping).
pub uninterp spec fn unicode_uppercase(s: Seq<char>) -> Seq<char>;

/// `str::to_uppercase`. The result is named; on ASCII text it is the ASCII
/// mapping, as the standard library documents for ASCII characters.
#[verifier::external_body]
pub(crate) fn to_uppercase(s: &str) -> (r: String)
    ensures
        r@ == unicode_uppercase(s@),
        crate::text::all_ascii(s@) ==> r@ == crate::text::ascii_upper(s@),
{
    s.to_uppercase()
}

/// The method part of the tooltip.
pub open spec fn method_label(method: Seq<char>, customs: Seq<CustomMethod>) -> Seq<char> {
    if method == "telex"@ {
        "Chữ Việt\nTELEX"@
    } else if method == "vni"@ {
        "Chữ Việt\nVNI"@
    } else if method == "nom"@ {
        "Chữ Nôm"@
    } else {
        match find_custom(customs, method) {
            Some(i) => "Custom\n"@ + customs[i].name@,
            None => "Chữ Việt\n"@ + unicode_uppercase(method),
        }
    }
}

/// Every newline replaced by a space.
pub open spec fn newlines_to_spaces(s: Seq<char>) -> Seq<char> {
    s.map_values(|c: char| if c == '\n' { ' ' } else { c })
}

/// The tooltip: the method when ON; when OFF it still names the chosen
/// method, on one line, since it answers "what do I get when I turn it back
/// on".
pub open spec fn tooltip(method: Seq<char>, enabled: bool, customs: Seq<CustomMethod>) -> Seq<char> {
    if enabled {
        "buttre\n"@ + method_label(method, customs)
    } else {
        "buttre\nĐã tắt ("@ + newlines_to_spaces(method_label(method, customs)) + ")"@
    }
}

fn concat(a: &str, b: &str) -> (r: String)
    ensures
        r@ == a@ + b@,
{
    let mut v = chars_of(a);
    let w = chars_of(b);
    for i in 0..w.len()
        invariant
            v@ == a@ + w@.take(i as int),
    {
        v.push(w[i]);
        assert(v@ =~= a@ + w@.take(i + 1));
    }
    assert(w@.take(w@.len() as int) =~= w@);
    string_from_chars(v.as_slice())
}

fn spaces_for_newlines(s: &str) -> (r: String)
    ensures
        r@ == newlines_to_spaces(s@),
{
    let cs = chars_of(s);
    let mut out: Vec<char> = Vec::new();
    for i in 0..cs.len()
        invariant
            out@ == newlines_to_spaces(cs@.take(i as int)),
    {
        out.push(if cs[i] == '\n' {
            ' '
        } else {
            cs[i]
        });
        assert(out@ =~= newlines_to_spaces(cs@.take(i + 1)));
    }
    assert(cs@.take(cs@.len() as int) =~= cs@);
    string_from_chars(out.as_slice())
}

fn method_label_of(method: &str, customs: &Vec<CustomMethod>) -> (r: String)
    ensures
        r@ == method_label(method@, customs@),
{
    if str_eq(method, "telex") {
        string_of("Chữ Việt\nTELEX")
    } else if str_eq(method, "vni") {
        string_of("Chữ Việt\nVNI")
    } else if str_eq(method, "nom") {
        string_of("Chữ Nôm")
    } else {
        let found = find_custom_index(customs, method);
        proof {
            lemma_find_custom(customs@, method@, found);
        }
        match found {
            Some(i) => concat("Custom\n", customs[i].name.as_str()),
            None => {
                let up = to_uppercase(method);
                concat("Chữ Việt\n", up.as_str())
            },
        }
    }
}

/// Tooltip for the current state.
pub fn get_tooltip(method: &str, enabled: bool, customs: &Vec<CustomMethod>) -> (r: String)
    ensures
        r@ == tooltip(method@, enabled, customs@),
{
    let label = method_label_of(method, customs);
    if enabled {
        concat("buttre\n", label.as_str())
    } else {
        let one_line = spaces_for_newlines(label.as_str());
        let head = concat("buttre\nĐã tắt (", one_line.as_str());
        concat(head.as_str(), ")")
    }
}

// ---------------------------------------------------------------------------
// Icon choice
// ---------------------------------------------------------------------------

/// Which icon the tray shows for a method.
#[derive(Debug, PartialEq, Eq)]
pub enum IconChoice {
    Telex,
    Vni,
    Nom,
    /// The custom method's own icon file (relative to the custom keyboards
    /// directory); the generic custom icon if it cannot be read.
    CustomFile(String),
    /// The generic custom-method icon.
    Custom,
    /// A method id nothing matches.
    Vietnamese,
}

pub enum IconChoiceView {
    Telex,
    Vni,
    Nom,
    CustomFile(Seq<char>),
    Custom,
    Vietnamese,
}

impl View for IconChoice {
    type V = IconChoiceView;

    open spec fn view(&self) -> IconChoiceView {
        match self {
            IconChoice::Telex => IconChoiceView::Telex,
            IconChoice::Vni => IconChoiceView::Vni,
            IconChoice::Nom => IconChoiceView::Nom,
            IconChoice::CustomFile(f) => IconChoiceView::CustomFile(f@),
            IconChoice::Custom => IconChoiceView::Custom,
            IconChoice::Vietnamese => IconChoiceView::Vietnamese,
        }
    }
}

pub open spec fn icon_of(method: Seq<char>, customs: Seq<CustomMethod>) -> IconChoiceView {
    if method == "telex"@ {
        IconChoiceView::Telex
    } else if method == "vni"@ {
        IconChoiceView::Vni
    } else if method == "nom"@ {
        IconChoiceView::Nom
    } else {
        match find_custom(customs, method) {
            Some(i) => match customs[i].icon {
                Some(f) => IconChoiceView::CustomFile(f@),
                None => IconChoiceView::Custom,
            },
            None => IconChoiceView::Vietnamese,
        }
    }
}

/// The icon for a method. OFF is not a method: the host shows the chosen
/// method's icon in its greyscale variant, so the user still sees what
/// they get when they switch back on.
pub fn icon_for_method(method: &str, customs: &Vec<CustomMethod>) -> (r: IconChoice)
    ensures
        r@ == icon_of(method@, customs@),
{
    if str_eq(method, "telex") {
        IconChoice::Telex
    } else if str_eq(method, "vni") {
        IconChoice::Vni
    } else if str_eq(method, "nom") {
        IconChoice::Nom
    } else {
        let found = find_custom_index(customs, method);
        proof {
            lemma_find_custom(customs@, method@, found);
        }
        match found {
            Some(i) => match &customs[i].icon {
                Some(f) => IconChoice::CustomFile(string_of(f.as_str())),
                None => IconChoice::Custom,
            },
            None => IconChoice::Vietnamese,
        }
    }
}

/// The icon of the state-by-state tray update.
#[derive(Debug, PartialEq, Eq)]
pub enum TrayIconChoice {
    /// The IME is off.
    English,
    Telex,
    Vni,
    Nom,
    /// The custom method's icon file; the generic custom icon when it
    /// cannot be read.
    CustomFile(String),
    Custom,
}

pub enum TrayIconChoiceView {
    English,
    Telex,
    Vni,
    Nom,
    CustomFile(Seq<char>),
    Custom,
}

impl View for TrayIconChoice {
    type V = TrayIconChoiceView;

    open spec fn view(&self) -> TrayIconChoiceView {
        match self {
            TrayIconChoice::English => TrayIconChoiceView::English,
            TrayIconChoice::Telex => TrayIconChoiceView::Telex,
            TrayIconChoice::Vni => TrayIconChoiceView::Vni,
            TrayIconChoice::Nom => TrayIconChoiceView::Nom,
            TrayIconChoice::CustomFile(f) => TrayIconChoiceView::CustomFile(f@),
            TrayIconChoice::Custom => TrayIconChoiceView::Custom,
        }
    }
}

/// The icon and tooltip the tray shows.
#[derive(Debug)]
pub struct TrayUpdate {
    pub icon: TrayIconChoice,
    pub tooltip: String,
}

/// Icon and tooltip by state: off shows the English icon and "OFF"; the
/// built-in methods their own; any other method the custom icon (its own
/// file when it ships one) and its name (the id when it is not listed).
pub open spec fn tray_update_of(method: Seq<char>, enabled: bool, customs: Seq<CustomMethod>) -> (
    TrayIconChoiceView,
    Seq<char>,
) {
    if !enabled {
        (TrayIconChoiceView::English, "buttre\nOFF"@)
    } else if method == "telex"@ {
        (TrayIconChoiceView::Telex, "buttre\nChữ Việt\nTELEX"@)
    } else if method == "vni"@ {
        (TrayIconChoiceView::Vni, "buttre\nChữ Việt\nVNI"@)
    } else if method == "nom"@ {
        (TrayIconChoiceView::Nom, "buttre\nChữ Nôm"@)
    } else {
        match find_custom(customs, method) {
            Some(i) => (
                match customs[i].icon {
                    Some(f) => TrayIconChoiceView::CustomFile(f@),
                    None => TrayIconChoiceView::Custom,
                },
                "buttre\nCustom\n"@ + customs[i].name@,
            ),
            None => (TrayIconChoiceView::Custom, "buttre\nCustom\n"@ + method),
        }
    }
}

/// The tray's icon and tooltip for the method and on/off state.
pub fn update_tray_icon(method: &str, enabled: bool, customs: &Vec<CustomMethod>) -> (r: TrayUpdate)
    ensures
        (r.icon@, r.tooltip@) == tray_update_of(method@, enabled, customs@),
{
    if !enabled {
        return TrayUpdate { icon: TrayIconChoice::English, tooltip: string_of("buttre\nOFF") };
    }
    if str_eq(method, "telex") {
        TrayUpdate { icon: TrayIconChoice::Telex, tooltip: string_of("buttre\nChữ Việt\nTELEX") }
    } else if str_eq(method, "vni") {
        TrayUpdate { icon: TrayIconChoice::Vni, tooltip: string_of("buttre\nChữ Việt\nVNI") }
    } else if str_eq(method, "nom") {
        TrayUpdate { icon: TrayIconChoice::Nom, tooltip: string_of("buttre\nChữ Nôm") }
    } else {
        let found = find_custom_index(customs, method);
        proof {
            lemma_find_custom(customs@, method@, found);
        }
        match found {
            Some(i) => {
                let icon = match &customs[i].icon {
                    Some(f) => TrayIconChoice::CustomFile(string_of(f.as_str())),
                    None => TrayIconChoice::Custom,
                };
                TrayUpdate { icon, tooltip: concat("buttre\nCustom\n", customs[i].name.as_str()) }
            },
            None => TrayUpdate {
                icon: TrayIconChoice::Custom,
                tooltip: concat("buttre\nCustom\n", method),
            },
        }
    }
}

// ---------------------------------------------------------------------------
// Check marks
// ---------------------------------------------------------------------------

/// Which method rows are checked.
#[derive(Debug, PartialEq, Eq)]
pub struct MenuChecks {
    pub english: bool,
    pub telex: bool,
    pub vni: bool,
    pub nom: bool,
    /// One per custom row, in the rows' order.
    pub customs: Vec<bool>,
}

/// OFF is shown as "English" checked and no method checked (a method check
/// must never claim the IME types Vietnamese while it does not); ON checks
/// the row of the active method. Every row is set, so no stale check
/// survives a switch.
pub fn menu_checks(method: &str, enabled: bool, custom_ids: &Vec<String>) -> (r: MenuChecks)
    ensures
        r.english == !enabled,
        r.telex == (enabled && method@ == "telex"@),
        r.vni == (enabled && method@ == "vni"@),
        r.nom == (enabled && method@ == "nom"@),
        r.customs@.len() == custom_ids@.len(),
        forall|i: int|
            0 <= i < custom_ids@.len() ==> #[trigger] r.customs@[i] == (enabled
                && custom_ids@[i]@ == method@),
{
    let mut customs: Vec<bool> = Vec::new();
    for i in 0..custom_ids.len()
        invariant
            customs@.len() == i,
            forall|k: int|
                0 <= k < i ==> #[trigger] customs@[k] == (enabled && custom_ids@[k]@ == method@),
    {
        customs.push(enabled && str_eq(custom_ids[i].as_str(), method));
    }
    MenuChecks {
        english: !enabled,
        telex: enabled && str_eq(method, "telex"),
        vni: enabled && str_eq(method, "vni"),
        nom: enabled && str_eq(method, "nom"),
        customs,
    }
}

// ---------------------------------------------------------------------------
// The menu
// ---------------------------------------------------------------------------

/// A method as the registry lists it.
#[derive(Debug)]
pub struct MethodInfo {
    pub id: String,
    pub name: String,
    pub builtin: bool,
}

/// The trailing key of a `Ctrl+Shift` accelerator.
#[derive(Clone, Copy, Debug, PartialEq, Eq)]
pub enum AccelKey {
    Space,
    /// A digit key, `0` to `9`.
    Digit(u8),
}

/// One method row of the tray menu.
#[derive(Debug, PartialEq, Eq)]
pub struct MenuRow {
    pub label: String,
    pub checked: bool,
    /// `Ctrl+Shift+` this key, if the row has a shortcut.
    pub accelerator: Option<AccelKey>,
}

pub struct MenuRowView {
    pub label: Seq<char>,
    pub checked: bool,
    pub accelerator: Option<AccelKey>,
}

impl View for MenuRow {
    type V = MenuRowView;

    open spec fn view(&self) -> MenuRowView {
        MenuRowView { label: self.label@, checked: self.checked, accelerator: self.accelerator }
    }
}

/// A custom method's row, with the method it selects.
#[derive(Debug, PartialEq, Eq)]
pub struct CustomRow {
    pub id: String,
    pub row: MenuRow,
}

/// The tray menu, top to bottom: "English"; the "Chữ Việt" submenu with
/// Telex and VNI; Chữ Nôm; the custom methods; a separator; "Cấu hình…";
/// "Thoát".
#[derive(Debug)]
pub struct MenuPlan {
    pub english: MenuRow,
    pub submenu_label: String,
    pub telex: MenuRow,
    pub vni: MenuRow,
    pub nom: MenuRow,
    pub customs: Vec<CustomRow>,
    pub config_label: String,
    pub quit_label: String,
}

/// Shortcut digits of the custom rows, in order: 4 to 9, then 0.
pub open spec fn custom_digit(k: nat) -> Option<AccelKey> {
    if k < 6 {
        Some(AccelKey::Digit((k + 4) as u8))
    } else if k == 6 {
        Some(AccelKey::Digit(0))
    } else {
        None
    }
}

pub open spec fn reserved_id(id: Seq<char>) -> bool {
    id == "english"@ || id == "telex"@ || id == "vni"@ || id == "nom"@
}

/// The rows of the custom methods: every method that is neither built-in
/// nor a reserved id, in registry order, the first seven with shortcuts.
pub open spec fn custom_rows(ms: Seq<MethodInfo>, input: Seq<char>) -> Seq<(Seq<char>, MenuRowView)>
    decreases ms.len(),
{
    if ms.len() == 0 {
        Seq::empty()
    } else {
        let rest = custom_rows(ms.drop_last(), input);
        let m = ms.last();
        if m.builtin || reserved_id(m.id@) {
            rest
        } else {
            rest.push(
                (
                    m.id@,
                    MenuRowView {
                        label: m.name@,
                        checked: input == m.id@,
                        accelerator: custom_digit(rest.len()),
                    },
                ),
            )
        }
    }
}

/// The label of a built-in row: the registry's name for `id` (its first
/// entry) or the default.
pub open spec fn builtin_label(ms: Seq<MethodInfo>, id: Seq<char>, default: Seq<char>) -> Seq<char> {
    if exists|i: int| 0 <= i < ms.len() && ms[i].id@ == id {
        ms[choose|i: int|
            0 <= i < ms.len() && ms[i].id@ == id && forall|j: int|
                0 <= j < i ==> ms[j].id@ != id].name@
    } else {
        default
    }
}

fn registry_label(ms: &Vec<MethodInfo>, id: &str, default: &str) -> (r: String)
    ensures
        r@ == builtin_label(ms@, id@, default@),
{
    let n = ms.len();
    for i in 0..n
        invariant
            n == ms@.len(),
            forall|j: int| 0 <= j < i ==> ms@[j].id@ != id@,
    {
        if str_eq(ms[i].id.as_str(), id) {
            proof {
                let k = choose|k: int|
                    0 <= k < ms@.len() && ms@[k].id@ == id@ && forall|j: int|
                        0 <= j < k ==> ms@[j].id@ != id@;
                assert(k == i as int) by {
                    if k < i {
                        assert(ms@[k].id@ != id@);
                    }
                    if k > i {
                        assert(ms@[i as int].id@ != id@);
                    }
                }
            }
            return string_of(ms[i].name.as_str());
        }
    }
    string_of(default)
}

fn is_reserved_id(id: &str) -> (r: bool)
    ensures
        r == reserved_id(id@),
{
    str_eq(id, "english") || str_eq(id, "telex") || str_eq(id, "vni") || str_eq(id, "nom")
}

fn custom_accel(count: usize) -> (r: Option<AccelKey>)
    ensures
        r == custom_digit(count as nat),
{
    if count < 6 {
        Some(AccelKey::Digit((count + 4) as u8))
    } else if count == 6 {
        Some(AccelKey::Digit(0))
    } else {
        None
    }
}

pub open spec fn custom_rows_view(v: Seq<CustomRow>) -> Seq<(Seq<char>, MenuRowView)> {
    v.map_values(|c: CustomRow| (c.id@, c.row@))
}

/// The tray menu for the saved method `input_method` and the registry's
/// methods. A row is checked when it is the saved method ("english" for
/// the English row); shortcuts are `Ctrl+Shift+Space` for English,
/// `Ctrl+Shift+1..3` for Telex, VNI and Nôm, `Ctrl+Shift+4..9, 0` for the
/// first seven custom methods.
pub fn build_menu(input_method: &str, methods: &Vec<MethodInfo>) -> (r: MenuPlan)
    ensures
        r.english@ == (MenuRowView {
            label: "English"@,
            checked: input_method@ == "english"@,
            accelerator: Some(AccelKey::Space),
        }),
        r.submenu_label@ == "Chữ Việt"@,
        r.telex@ == (MenuRowView {
            label: builtin_label(methods@, "telex"@, "Telex"@),
            checked: input_method@ == "telex"@,
            accelerator: Some(AccelKey::Digit(1)),
        }),
        r.vni@ == (MenuRowView {
            label: builtin_label(methods@, "vni"@, "VNI"@),
            checked: input_method@ == "vni"@,
            accelerator: Some(AccelKey::Digit(2)),
        }),
        r.nom@ == (MenuRowView {
            label: builtin_label(methods@, "nom"@, "Chữ Nôm"@),
            checked: input_method@ == "nom"@,
            accelerator: Some(AccelKey::Digit(3)),
        }),
        custom_rows_view(r.customs@) == custom_rows(methods@, input_method@),
        r.config_label@ == "Cấu hình…"@,
        r.quit_label@ == "Thoát"@,
{
    let english = MenuRow {
        label: string_of("English"),
        checked: str_eq(input_method, "english"),
        accelerator: Some(AccelKey::Space),
    };
    let telex = MenuRow {
        label: registry_label(methods, "telex", "Telex"),
        checked: str_eq(input_method, "telex"),
        accelerator: Some(AccelKey::Digit(1)),
    };
    let vni = MenuRow {
        label: registry_label(methods, "vni", "VNI"),
        checked: str_eq(input_method, "vni"),
        accelerator: Some(AccelKey::Digit(2)),
    };
    let nom = MenuRow {
        label: registry_label(methods, "nom", "Chữ Nôm"),
        checked: str_eq(input_method, "nom"),
        accelerator: Some(AccelKey::Digit(3)),
    };
    let mut customs: Vec<CustomRow> = Vec::new();
    let n = methods.len();
    assert(methods@.take(0) =~= Seq::<MethodInfo>::empty());
    assert(custom_rows_view(customs@) =~= Seq::<(Seq<char>, MenuRowView)>::empty());
    for i in 0..n
        invariant
            n == methods@.len(),
            custom_rows_view(customs@) == custom_rows(methods@.take(i as int), input_method@),
    {
        proof {
            let t = methods@.take(i + 1);
            assert(t.drop_last() =~= methods@.take(i as int));
            assert(t.last() == methods@[i as int]);
        }
        let m = &methods[i];
        if !m.builtin && !is_reserved_id(m.id.as_str()) {
            let accelerator = custom_accel(customs.len());
            let row = MenuRow {
                label: string_of(m.name.as_str()),
                checked: str_eq(input_method, m.id.as_str()),
                accelerator,
            };
            let ghost before = customs@;
            customs.push(CustomRow { id: string_of(m.id.as_str()), row });
            proof {
                assert(custom_rows_view(customs@) =~= custom_rows_view(before).push(
                    (m.id@, customs@[before.len() as int].row@),
                ));
            }
        }
    }
    assert(methods@.take(n as int) =~= methods@);
    MenuPlan {
        english,
        submenu_label: string_of("Chữ Việt"),
        telex,
        vni,
        nom,
        customs,
        config_label: string_of("Cấu hình…"),
        quit_label: string_of("Thoát"),
    }
}

} // verus!
