//! The IBus property menu and candidate table, as data.
//!
//! The IBus panel renders an engine's properties as a menu; under GNOME the
//! Shell is that panel, so this is how the method switcher reaches the
//! top-bar input-source menu. The menu is one radio per method (the four
//! built-ins, then every installed custom keyboard), a separator and the
//! settings launcher. The host serialises these values into `IBusProperty`,
//! `IBusPropList` and `IBusLookupTable` variants.

use crate::method_sync::{engine_method, is_engine_method_in, strings_view};
use crate::text::{lowercase, str_eq, string_of, to_lowercase, chars_of, seq_eq};
use vstd::prelude::*;

verus! {

/// `IBusPropType` values used by the menu.
pub const PROP_TYPE_NORMAL: u32 = 0;
pub const PROP_TYPE_RADIO: u32 = 2;
pub const PROP_TYPE_SEPARATOR: u32 = 4;
/// `IBusPropState`: a radio drawn unchecked or checked. The checked value is
/// also what `PropertyActivate` carries for the radio the user picked.
pub const PROP_STATE_UNCHECKED: u32 = 0;
pub const PROP_STATE_CHECKED: u32 = 1;
/// `IBusOrientation::IBUS_ORIENTATION_SYSTEM`: the panel picks.
pub const ORIENTATION_SYSTEM: i32 = 2;
/// Candidates per page of the lookup table; labels "1" to "9" address the
/// slots of the current page.
pub const LOOKUP_PAGE_SIZE: u32 = 9;

/// Key of the settings launcher, echoed back in `PropertyActivate`.
pub open spec fn config_key() -> Seq<char> {
    "config"@
}

/// One menu radio: the method id (also the property key the panel echoes
/// back) and its label.
#[derive(Debug, PartialEq, Eq)]
pub struct MethodItem {
    pub key: String,
    pub label: String,
}

impl View for MethodItem {
    type V = (Seq<char>, Seq<char>);

    open spec fn view(&self) -> (Seq<char>, Seq<char>) {
        (self.key@, self.label@)
    }
}

pub open spec fn items_view(v: Seq<MethodItem>) -> Seq<(Seq<char>, Seq<char>)> {
    v.map_values(|i: MethodItem| i@)
}

/// The built-in methods in display order; "English" (passthrough) first,
/// as in the tray menu.
pub open spec fn builtin_items() -> Seq<(Seq<char>, Seq<char>)> {
    seq![
        ("english"@, "English"@),
        ("telex"@, "Telex"@),
        ("vni"@, "VNI"@),
        ("nom"@, "Chữ Nôm"@),
    ]
}

pub open spec fn builtin_key(k: Seq<char>) -> bool {
    k == "english"@ || k == "telex"@ || k == "vni"@ || k == "nom"@
}

/// A `.toml` file of the custom keyboards directory: its file-name stem,
/// and the keyboard's `metadata.name` when the file loads as a keyboard.
#[derive(Debug)]
pub struct CustomKeyboard {
    pub stem: String,
    pub name: Option<String>,
}

impl View for CustomKeyboard {
    type V = (Seq<char>, Option<Seq<char>>);

    open spec fn view(&self) -> (Seq<char>, Option<Seq<char>>) {
        (
            self.stem@,
            match &self.name {
                Some(n) => Some(n@),
                None => None,
            },
        )
    }
}

pub open spec fn customs_view(v: Seq<CustomKeyboard>) -> Seq<(Seq<char>, Option<Seq<char>>)> {
    v.map_values(|c: CustomKeyboard| c@)
}

/// A stem that becomes a radio: not a built-in (an override file is not a
/// separate method), not a menu key (`"config"`, `"-"`), and lower case (the
/// method file is read lower-cased).
pub open spec fn admitted_stem(stem: Seq<char>) -> bool {
    !builtin_key(stem) && stem != config_key() && stem != "-"@ && lowercase(stem) == stem
}

/// The radios for the custom keyboards, in directory order: admitted stems
/// whose file loads, labelled with the keyboard's name.
pub open spec fn custom_items(cs: Seq<(Seq<char>, Option<Seq<char>>)>) -> Seq<
    (Seq<char>, Seq<char>),
>
    decreases cs.len(),
{
    if cs.len() == 0 {
        Seq::empty()
    } else {
        let rest = custom_items(cs.drop_last());
        let (stem, name) = cs.last();
        if admitted_stem(stem) && name is Some {
            rest.push((stem, name->0))
        } else {
            rest
        }
    }
}

fn item(key: &str, label: &str) -> (r: MethodItem)
    ensures
        r@ == (key@, label@),
{
    MethodItem { key: string_of(key), label: string_of(label) }
}

fn is_builtin_key(k: &str) -> (r: bool)
    ensures
        r == builtin_key(k@),
{
    str_eq(k, "english") || str_eq(k, "telex") || str_eq(k, "vni") || str_eq(k, "nom")
}

/// Whether a custom keyboard's stem becomes a radio.
pub fn is_admitted_stem(stem: &str) -> (r: bool)
    ensures
        r == admitted_stem(stem@),
{
    if is_builtin_key(stem) || str_eq(stem, "config") || str_eq(stem, "-") {
        return false;
    }
    let lower = to_lowercase(stem);
    let a = chars_of(lower.as_str());
    let b = chars_of(stem);
    assert(a@ == lowercase(stem@));
    seq_eq(&a, &b)
}

/// The full radio list: the built-ins, then the installed custom keyboards
/// in directory order. The key of a custom radio is its file-name stem (the
/// engine loads `<stem>.toml`, so only the stem round-trips).
pub fn method_items_from(customs: &Vec<CustomKeyboard>) -> (r: Vec<MethodItem>)
    ensures
        items_view(r@) == builtin_items() + custom_items(customs_view(customs@)),
{
    let mut items: Vec<MethodItem> = Vec::new();
    items.push(item("english", "English"));
    items.push(item("telex", "Telex"));
    items.push(item("vni", "VNI"));
    items.push(item("nom", "Chữ Nôm"));
    let ghost base = items_view(items@);
    assert(base =~= builtin_items());
    let n = customs.len();
    assert(customs_view(customs@).take(0) =~= Seq::<(Seq<char>, Option<Seq<char>>)>::empty());
    for i in 0..n
        invariant
            n == customs@.len(),
            base == builtin_items(),
            items_view(items@) == base + custom_items(customs_view(customs@).take(i as int)),
    {
        proof {
            let t = customs_view(customs@).take(i + 1);
            assert(t.drop_last() =~= customs_view(customs@).take(i as int));
            assert(t.last() == customs@[i as int]@);
        }
        let c = &customs[i];
        let ghost before = items@;
        let ghost t = customs_view(customs@).take(i + 1);
        if is_admitted_stem(c.stem.as_str()) {
            match &c.name {
                Some(name) => {
                    items.push(item(c.stem.as_str(), name.as_str()));
                    proof {
                        assert(items_view(items@) =~= items_view(before).push((c.stem@, name@)));
                        assert(custom_items(t) == custom_items(t.drop_last()).push(
                            (c.stem@, name@),
                        ));
                        assert(items_view(items@) =~= base + custom_items(t));
                    }
                },
                None => {
                    assert(items_view(items@) =~= base + custom_items(t));
                },
            }
        } else {
            assert(items_view(items@) =~= base + custom_items(t));
        }
    }
    assert(customs_view(customs@).take(n as int) =~= customs_view(customs@));
    items
}

// ---------------------------------------------------------------------------
// Properties
// ---------------------------------------------------------------------------

/// One `IBusProperty` of the menu. The other wire fields are fixed: no
/// icon, an empty tooltip and symbol, sensitive, visible, no sub-menu.
#[derive(Debug, PartialEq, Eq)]
pub struct Property {
    pub key: String,
    pub prop_type: u32,
    pub label: String,
    pub state: u32,
}

pub struct PropertyView {
    pub key: Seq<char>,
    pub prop_type: u32,
    pub label: Seq<char>,
    pub state: u32,
}

impl View for Property {
    type V = PropertyView;

    open spec fn view(&self) -> PropertyView {
        PropertyView {
            key: self.key@,
            prop_type: self.prop_type,
            label: self.label@,
            state: self.state,
        }
    }
}

pub open spec fn props_view(v: Seq<Property>) -> Seq<PropertyView> {
    v.map_values(|p: Property| p@)
}

/// The radio for a method item, checked exactly when it is `current`.
pub open spec fn radio(item: (Seq<char>, Seq<char>), current: Seq<char>) -> PropertyView {
    PropertyView {
        key: item.0,
        prop_type: PROP_TYPE_RADIO,
        label: item.1,
        state: if item.0 == current {
            PROP_STATE_CHECKED
        } else {
            PROP_STATE_UNCHECKED
        },
    }
}

/// The two entries after the radios: a separator and the settings launcher
/// (a normal item, routed by key rather than by check state).
pub open spec fn menu_tail() -> Seq<PropertyView> {
    seq![
        PropertyView {
            key: "-"@,
            prop_type: PROP_TYPE_SEPARATOR,
            label: Seq::empty(),
            state: PROP_STATE_UNCHECKED,
        },
        PropertyView {
            key: config_key(),
            prop_type: PROP_TYPE_NORMAL,
            label: "Cấu hình Buttre..."@,
            state: PROP_STATE_UNCHECKED,
        },
    ]
}

/// One `UpdateProperty` payload per method radio, with `current` checked.
/// The whole group is sent (checked and unchecked) so the panel never shows
/// two checked radios, whatever it held before; an unknown `current`
/// leaves every radio unchecked.
pub fn method_prop_updates_with(current: &str, items: &Vec<MethodItem>) -> (r: Vec<Property>)
    ensures
        props_view(r@).len() == items@.len(),
        forall|i: int|
            0 <= i < items@.len() ==> #[trigger] props_view(r@)[i] == radio(items@[i]@, current@),
{
    let mut out: Vec<Property> = Vec::new();
    let n = items.len();
    for i in 0..n
        invariant
            n == items@.len(),
            out@.len() == i,
            forall|k: int| 0 <= k < i ==> #[trigger] out@[k]@ == radio(items@[k]@, current@),
    {
        let it = &items[i];
        let checked = str_eq(it.key.as_str(), current);
        out.push(
            Property {
                key: string_of(it.key.as_str()),
                prop_type: PROP_TYPE_RADIO,
                label: string_of(it.label.as_str()),
                state: if checked {
                    PROP_STATE_CHECKED
                } else {
                    PROP_STATE_UNCHECKED
                },
            },
        );
    }
    out
}

/// The menu property list: the radios with `current` checked, a separator,
/// then the "Cấu hình" launcher.
pub fn method_prop_list(current: &str, items: &Vec<MethodItem>) -> (r: Vec<Property>)
    ensures
        props_view(r@).len() == items@.len() + 2,
        forall|i: int|
            0 <= i < items@.len() ==> #[trigger] props_view(r@)[i] == radio(items@[i]@, current@),
        props_view(r@).subrange(items@.len() as int, items@.len() + 2int) == menu_tail(),
{
    let mut props = method_prop_updates_with(current, items);
    let ghost before = props@;
    let sep = Property {
        key: string_of("-"),
        prop_type: PROP_TYPE_SEPARATOR,
        label: string_of(""),
        state: PROP_STATE_UNCHECKED,
    };
    proof {
        reveal_strlit("");
        assert(sep.label@ =~= Seq::<char>::empty());
        assert(sep@ == menu_tail()[0]);
    }
    props.push(sep);
    props.push(
        Property {
            key: string_of("config"),
            prop_type: PROP_TYPE_NORMAL,
            label: string_of("Cấu hình Buttre..."),
            state: PROP_STATE_UNCHECKED,
        },
    );
    proof {
        reveal_strlit("");
        let n = items@.len() as int;
        assert forall|i: int| 0 <= i < items@.len() implies #[trigger] props_view(props@)[i]
            == radio(items@[i]@, current@) by {
            assert(props@[i] == before[i]);
            assert(props_view(before)[i] == radio(items@[i]@, current@));
        }
        assert(props_view(props@)[n] == menu_tail()[0]);
        assert(props_view(props@)[n + 1] == menu_tail()[1]);
        assert(props_view(props@).subrange(n, n + 2) =~= menu_tail());
    }
    props
}

/// With distinct keys, exactly the radio of `current` is checked: the
/// panel can never show two methods selected.
pub proof fn lemma_one_radio_checked(
    items: Seq<(Seq<char>, Seq<char>)>,
    current: Seq<char>,
    i: int,
    j: int,
)
    requires
        forall|a: int, b: int|
            0 <= a < items.len() && 0 <= b < items.len() && a != b ==> items[a].0 != items[b].0,
        0 <= i < items.len(),
        0 <= j < items.len(),
        radio(items[i], current).state == PROP_STATE_CHECKED,
        radio(items[j], current).state == PROP_STATE_CHECKED,
    ensures
        i == j,
{
}

/// Resolve a `PropertyActivate(name, state)` to the method to switch to,
/// or `None` to ignore it. A radio click arrives as several activations:
/// the picked radio checked, every other one unchecked; only the checked
/// one, naming a method the engine can build, is a real switch.
pub fn method_for_activation_in(name: &str, state: u32, installed: &Vec<String>) -> (r: Option<
    String,
>)
    ensures
        (state == PROP_STATE_CHECKED && engine_method(name@, strings_view(installed@))) ==> (r matches Some(m) && m@ == name@),
        !(state == PROP_STATE_CHECKED && engine_method(name@, strings_view(installed@))) ==> r is None,
{
    if state == PROP_STATE_CHECKED && is_engine_method_in(name, installed) {
        Some(string_of(name))
    } else {
        None
    }
}

// ---------------------------------------------------------------------------
// The candidate table
// ---------------------------------------------------------------------------

/// An `IBusLookupTable`: page size, cursor (a global index), cursor shown,
/// round paging, orientation, the candidates and the slot labels.
#[derive(Debug, PartialEq, Eq)]
pub struct LookupTable {
    pub page_size: u32,
    pub cursor: u32,
    pub cursor_visible: bool,
    pub round: bool,
    pub orientation: i32,
    pub candidates: Vec<String>,
    pub labels: Vec<String>,
}

/// The labels "1" to "9".
pub open spec fn slot_labels() -> Seq<Seq<char>> {
    Seq::new(9, |i: int| seq![((0x31 + i) as u8) as char])
}

/// The table for a candidate list with the highlight at `cursor`: the
/// whole list is sent, the panel pages it.
pub fn build_lookup_table(candidates: &Vec<String>, cursor: u32) -> (r: LookupTable)
    ensures
        r.page_size == LOOKUP_PAGE_SIZE,
        r.cursor == cursor,
        r.cursor_visible,
        r.round,
        r.orientation == ORIENTATION_SYSTEM,
        strings_view(r.candidates@) == strings_view(candidates@),
        strings_view(r.labels@) == slot_labels(),
{
    let mut cands: Vec<String> = Vec::new();
    let n = candidates.len();
    for i in 0..n
        invariant
            n == candidates@.len(),
            cands@.len() == i,
            strings_view(cands@) == strings_view(candidates@).take(i as int),
    {
        let ghost before = cands@;
        cands.push(string_of(candidates[i].as_str()));
        proof {
            assert(cands@[i as int]@ == candidates@[i as int]@);
            assert forall|k: int| 0 <= k < i implies cands@[k]@ == candidates@[k]@ by {
                assert(cands@[k] == before[k]);
                assert(strings_view(before)[k] == strings_view(candidates@).take(i as int)[k]);
            }
            assert(strings_view(cands@) =~= strings_view(candidates@).take(i + 1));
        }
    }
    assert(strings_view(candidates@).take(n as int) =~= strings_view(candidates@));
    let mut labels: Vec<String> = Vec::new();
    let mut d: u8 = 0;
    while d < 9
        invariant
            d <= 9,
            labels@.len() == d,
            strings_view(labels@) == slot_labels().take(d as int),
        decreases 9 - d,
    {
        let c = (0x31u8 + d) as char;
        let v = vec![c];
        let ghost before = labels@;
        labels.push(crate::text::string_from_chars(v.as_slice()));
        proof {
            assert(labels@[d as int]@ == seq![c]);
            assert(slot_labels()[d as int] == seq![c]);
            assert forall|k: int| 0 <= k < d implies labels@[k]@ == slot_labels()[k] by {
                assert(labels@[k] == before[k]);
                assert(strings_view(before)[k] == slot_labels().take(d as int)[k]);
            }
            assert(strings_view(labels@) =~= slot_labels().take(d + 1));
        }
        d = d + 1;
    }
    assert(slot_labels().take(9) =~= slot_labels());
    LookupTable {
        page_size: LOOKUP_PAGE_SIZE,
        cursor,
        cursor_visible: true,
        round: true,
        orientation: ORIENTATION_SYSTEM,
        candidates: cands,
        labels,
    }
}

} // verus!
