//! Synthetic keystrokes for the Windows hook backend.
//!
//! The backend corrects already typed text by injecting key events with
//! `SendInput`: backspaces to delete, `KEYEVENTF_UNICODE` events to type. This
//! module builds those event batches, every event tagged with
//! [`BUTTRE_INJECTED`] as its extra info (so the backend's own hook skips
//! them); the host converts each [`KeyInput`] into an `INPUT` record and
//! sends the whole batch in one call, which Windows never interleaves with
//! other input.

use vstd::prelude::*;

verus! {

/// Extra-info tag carried by every injected event ("VKEY" in hex).
pub const BUTTRE_INJECTED: usize = 0x564B4559;

pub const VK_BACK: u16 = 0x08;
pub const VK_SHIFT: u16 = 0x10;
pub const VK_LEFT: u16 = 0x25;
pub const VK_LWIN: u16 = 0x5B;
pub const VK_RWIN: u16 = 0x5C;
pub const VK_LSHIFT: u16 = 0xA0;
pub const VK_RSHIFT: u16 = 0xA1;
pub const VK_LCONTROL: u16 = 0xA2;
pub const VK_RCONTROL: u16 = 0xA3;
pub const VK_LMENU: u16 = 0xA4;
pub const VK_RMENU: u16 = 0xA5;

pub const KEYEVENTF_EXTENDEDKEY: u32 = 0x1;
pub const KEYEVENTF_KEYUP: u32 = 0x2;
pub const KEYEVENTF_UNICODE: u32 = 0x4;

/// One keyboard event of a batch: the virtual key (0 for a Unicode event),
/// the UTF-16 code unit of a Unicode event (0 otherwise), the
/// `KEYEVENTF_*` flags and the extra info the event carries.
#[derive(Clone, Copy, Debug, PartialEq, Eq)]
pub struct KeyInput {
    pub vk: u16,
    pub scan: u16,
    pub flags: u32,
    pub extra: usize,
}

// ---------------------------------------------------------------------------
// The batches, as sequences
// ---------------------------------------------------------------------------

/// A virtual-key event.
pub open spec fn key(vk: u16, flags: u32) -> KeyInput {
    KeyInput { vk, scan: 0, flags, extra: BUTTRE_INJECTED }
}

/// Key down and key up of one UTF-16 code unit.
pub open spec fn unicode_pair(unit: u16) -> Seq<KeyInput> {
    seq![
        KeyInput { vk: 0, scan: unit, flags: KEYEVENTF_UNICODE, extra: BUTTRE_INJECTED },
        KeyInput {
            vk: 0,
            scan: unit,
            flags: KEYEVENTF_UNICODE | KEYEVENTF_KEYUP,
            extra: BUTTRE_INJECTED,
        },
    ]
}

/// The UTF-16 encoding of a character: one unit inside the Basic
/// Multilingual Plane, a surrogate pair above it.
pub open spec fn utf16_units(c: char) -> Seq<u16> {
    let code = c as u32;
    if code > 0xFFFF {
        let v = code - 0x10000;
        seq![(0xD800 + v / 1024) as u16, (0xDC00 + v % 1024) as u16]
    } else {
        seq![code as u16]
    }
}

/// The events that type one character.
pub open spec fn char_events(c: char) -> Seq<KeyInput> {
    let u = utf16_units(c);
    if u.len() == 2 {
        unicode_pair(u[0]) + unicode_pair(u[1])
    } else {
        unicode_pair(u[0])
    }
}

/// The events that type `s`, character by character.
pub open spec fn text_events(s: Seq<char>) -> Seq<KeyInput>
    decreases s.len(),
{
    if s.len() == 0 {
        Seq::empty()
    } else {
        text_events(s.drop_last()) + char_events(s.last())
    }
}

/// `n` presses of Backspace.
pub open spec fn backspace_events(n: nat) -> Seq<KeyInput>
    decreases n,
{
    if n == 0 {
        Seq::empty()
    } else {
        backspace_events((n - 1) as nat) + seq![key(VK_BACK, 0), key(VK_BACK, KEYEVENTF_KEYUP)]
    }
}

/// `n` backspaces, then `text`.
pub open spec fn plain_replacement(n: nat, text: Seq<char>) -> Seq<KeyInput> {
    backspace_events(n) + text_events(text)
}

/// How many backspaces the selection variant sends: none when exactly one
/// character is replaced by some text (the text types over the selection),
/// all of them otherwise (the first deletes the selection).
pub open spec fn selection_backspaces(n: nat, text: Seq<char>) -> nat {
    if n == 1 && text.len() > 0 {
        0
    } else {
        n
    }
}

/// The selection variant: Shift+Left selects the last character (collapsing
/// any inline autocomplete), then the backspaces and the text. The Shift
/// press and release are left out when Shift is already held.
pub open spec fn selection_replacement(n: nat, text: Seq<char>, shift_held: bool) -> Seq<
    KeyInput,
> {
    (if shift_held {
        Seq::empty()
    } else {
        seq![key(VK_LSHIFT, 0)]
    }) + seq![
        key(VK_LEFT, KEYEVENTF_EXTENDEDKEY),
        key(VK_LEFT, KEYEVENTF_EXTENDEDKEY | KEYEVENTF_KEYUP),
    ] + (if shift_held {
        Seq::empty()
    } else {
        seq![key(VK_LSHIFT, KEYEVENTF_KEYUP)]
    }) + plain_replacement(selection_backspaces(n, text), text)
}

/// Releases of the held modifiers, in order.
pub open spec fn release_events(held: Seq<u16>) -> Seq<KeyInput> {
    held.map_values(|vk: u16| key(vk, KEYEVENTF_KEYUP))
}

/// Re-presses of the held modifiers, in order.
pub open spec fn press_events(held: Seq<u16>) -> Seq<KeyInput> {
    held.map_values(|vk: u16| key(vk, 0))
}

/// `payload` between a release and a re-press of `held`.
pub open spec fn wrapped(held: Seq<u16>, payload: Seq<KeyInput>) -> Seq<KeyInput> {
    release_events(held) + payload + press_events(held)
}

/// The modifiers that turn an injected keystroke into a shortcut, left and
/// right variant of each: Ctrl, Shift, Alt, Win.
pub open spec fn shortcut_modifiers() -> Seq<u16> {
    seq![
        VK_LCONTROL,
        VK_RCONTROL,
        VK_LSHIFT,
        VK_RSHIFT,
        VK_LMENU,
        VK_RMENU,
        VK_LWIN,
        VK_RWIN,
    ]
}

/// The entries of `vks` whose flag in `down` (same position) is set, in
/// order.
pub open spec fn held_of(vks: Seq<u16>, down: Seq<bool>) -> Seq<u16>
    decreases vks.len(),
{
    if vks.len() == 0 {
        Seq::empty()
    } else {
        let rest = held_of(vks.drop_last(), down);
        if down[vks.len() - 1] {
            rest.push(vks.last())
        } else {
            rest
        }
    }
}

/// The batch for a replacement: the selection variant when something is
/// deleted inside a Chromium omnibox, the plain batch otherwise.
pub open spec fn replacement_batch(n: nat, text: Seq<char>, omnibox: bool, shift_held: bool) -> Seq<
    KeyInput,
> {
    if n > 0 && omnibox {
        selection_replacement(n, text, shift_held)
    } else {
        plain_replacement(n, text)
    }
}

/// The batch for a replacement made while the user holds a chord.
pub open spec fn held_batch(
    n: nat,
    text: Seq<char>,
    held: Seq<u16>,
    omnibox: bool,
    shift_held: bool,
) -> Seq<KeyInput> {
    if n == 0 && text.len() == 0 {
        Seq::empty()
    } else if held.len() == 0 {
        replacement_batch(n, text, omnibox, shift_held)
    } else {
        wrapped(held, plain_replacement(n, text))
    }
}

// ---------------------------------------------------------------------------
// Laws
// ---------------------------------------------------------------------------

/// A character above the Basic Multilingual Plane becomes a high surrogate
/// followed by a low surrogate that together decode back to it; any other
/// character is its own single unit.
pub proof fn lemma_utf16_round_trip(c: char)
    ensures
        (c as u32) > 0xFFFF ==> {
            let u = utf16_units(c);
            &&& u.len() == 2
            &&& 0xD800 <= u[0] <= 0xDBFF
            &&& 0xDC00 <= u[1] <= 0xDFFF
            &&& 0x10000 + (u[0] - 0xD800) * 1024 + (u[1] - 0xDC00) == c as u32
        },
        (c as u32) <= 0xFFFF ==> utf16_units(c) == seq![c as u32 as u16] && (c as u32 as u16)
            == c as u32,
{
    let code = c as u32;
    if code > 0xFFFF {
        let v = code - 0x10000;
        assert(v < 0x100000);
        assert(v / 1024 < 1024) by (nonlinear_arith)
            requires
                0 <= v < 0x100000,
        ;
        assert(v == (v / 1024) * 1024 + v % 1024) by (nonlinear_arith);
    }
}

/// Each Backspace is a press and a release: `2 * n` events.
pub proof fn lemma_backspace_count(n: nat)
    ensures
        backspace_events(n).len() == 2 * n,
    decreases n,
{
    if n > 0 {
        lemma_backspace_count((n - 1) as nat);
    }
}

/// Text is typed in order: the events for `a` followed by `b` are those for
/// `a`, then those for `b`; a single character is typed as its own UTF-16
/// units (key down and up each).
pub proof fn lemma_text_typed_in_order(a: Seq<char>, b: Seq<char>, c: char)
    ensures
        text_events(a + b) == text_events(a) + text_events(b),
        text_events(seq![c]) == char_events(c),
    decreases b.len(),
{
    if b.len() == 0 {
        assert(a + b =~= a);
        assert(text_events(a) + text_events(b) =~= text_events(a));
    } else {
        lemma_text_typed_in_order(a, b.drop_last(), c);
        assert((a + b).drop_last() =~= a + b.drop_last());
        assert((a + b).last() == b.last());
        assert(text_events(a) + text_events(b) =~= text_events(a) + text_events(b.drop_last())
            + char_events(b.last()));
    }
    assert(seq![c].drop_last() =~= Seq::<char>::empty());
    assert(text_events(Seq::<char>::empty()) == Seq::<KeyInput>::empty());
    assert(Seq::<KeyInput>::empty() + char_events(c) =~= char_events(c));
}

/// Every event of `s` carries the injection tag.
pub open spec fn all_tagged(s: Seq<KeyInput>) -> bool {
    forall|i: int| 0 <= i < s.len() ==> (#[trigger] s[i]).extra == BUTTRE_INJECTED
}

proof fn lemma_tagged_concat(a: Seq<KeyInput>, b: Seq<KeyInput>)
    requires
        all_tagged(a),
        all_tagged(b),
    ensures
        all_tagged(a + b),
{
    assert forall|i: int| 0 <= i < (a + b).len() implies (#[trigger] (a + b)[i]).extra
        == BUTTRE_INJECTED by {
        if i < a.len() {
            assert((a + b)[i] == a[i]);
        } else {
            assert((a + b)[i] == b[i - a.len()]);
        }
    }
}

proof fn lemma_text_tagged(s: Seq<char>)
    ensures
        all_tagged(text_events(s)),
    decreases s.len(),
{
    if s.len() > 0 {
        lemma_text_tagged(s.drop_last());
        let u = utf16_units(s.last());
        if u.len() == 2 {
            lemma_tagged_concat(unicode_pair(u[0]), unicode_pair(u[1]));
        }
        lemma_tagged_concat(text_events(s.drop_last()), char_events(s.last()));
    }
}

proof fn lemma_backspaces_tagged(n: nat)
    ensures
        all_tagged(backspace_events(n)),
    decreases n,
{
    if n > 0 {
        lemma_backspaces_tagged((n - 1) as nat);
        lemma_tagged_concat(
            backspace_events((n - 1) as nat),
            seq![key(VK_BACK, 0), key(VK_BACK, KEYEVENTF_KEYUP)],
        );
    }
}

proof fn lemma_plain_tagged(n: nat, text: Seq<char>)
    ensures
        all_tagged(plain_replacement(n, text)),
{
    lemma_backspaces_tagged(n);
    lemma_text_tagged(text);
    lemma_tagged_concat(backspace_events(n), text_events(text));
}

/// Every event the backend injects carries [`BUTTRE_INJECTED`], so its own
/// hook recognises and skips all of them: the plain, selection and chord
/// batches alike.
pub proof fn lemma_every_injected_event_is_tagged(
    n: nat,
    text: Seq<char>,
    held: Seq<u16>,
    omnibox: bool,
    shift_held: bool,
)
    ensures
        all_tagged(replacement_batch(n, text, omnibox, shift_held)),
        all_tagged(held_batch(n, text, held, omnibox, shift_held)),
{
    lemma_plain_tagged(n, text);
    lemma_plain_tagged(selection_backspaces(n, text), text);
    let head = (if shift_held {
        Seq::empty()
    } else {
        seq![key(VK_LSHIFT, 0)]
    }) + seq![
        key(VK_LEFT, KEYEVENTF_EXTENDEDKEY),
        key(VK_LEFT, KEYEVENTF_EXTENDEDKEY | KEYEVENTF_KEYUP),
    ] + (if shift_held {
        Seq::empty()
    } else {
        seq![key(VK_LSHIFT, KEYEVENTF_KEYUP)]
    });
    lemma_tagged_concat(
        (if shift_held {
            Seq::empty()
        } else {
            seq![key(VK_LSHIFT, 0)]
        }),
        seq![
            key(VK_LEFT, KEYEVENTF_EXTENDEDKEY),
            key(VK_LEFT, KEYEVENTF_EXTENDEDKEY | KEYEVENTF_KEYUP),
        ],
    );
    lemma_tagged_concat(
        (if shift_held {
            Seq::empty()
        } else {
            seq![key(VK_LSHIFT, 0)]
        }) + seq![
            key(VK_LEFT, KEYEVENTF_EXTENDEDKEY),
            key(VK_LEFT, KEYEVENTF_EXTENDEDKEY | KEYEVENTF_KEYUP),
        ],
        (if shift_held {
            Seq::empty()
        } else {
            seq![key(VK_LSHIFT, KEYEVENTF_KEYUP)]
        }),
    );
    lemma_tagged_concat(head, plain_replacement(selection_backspaces(n, text), text));
    lemma_tagged_concat(release_events(held), plain_replacement(n, text));
    lemma_tagged_concat(release_events(held) + plain_replacement(n, text), press_events(held));
}

// ---------------------------------------------------------------------------
// Building the batches
// ---------------------------------------------------------------------------

/// One keyboard event for `vk`.
pub fn key_input(vk: u16, flags: u32) -> (r: KeyInput)
    ensures
        r == key(vk, flags),
{
    KeyInput { vk, scan: 0, flags, extra: BUTTRE_INJECTED }
}

/// Append key down and key up of one UTF-16 unit.
fn add_unicode_inputs(inputs: &mut Vec<KeyInput>, unit: u16)
    ensures
        final(inputs)@ == old(inputs)@ + unicode_pair(unit),
{
    inputs.push(KeyInput { vk: 0, scan: unit, flags: KEYEVENTF_UNICODE, extra: BUTTRE_INJECTED });
    inputs.push(
        KeyInput {
            vk: 0,
            scan: unit,
            flags: KEYEVENTF_UNICODE | KEYEVENTF_KEYUP,
            extra: BUTTRE_INJECTED,
        },
    );
    assert(inputs@ =~= old(inputs)@ + unicode_pair(unit));
}

/// Append the events that type `ch`, as a surrogate pair above the BMP.
fn add_char_inputs(inputs: &mut Vec<KeyInput>, ch: char)
    ensures
        final(inputs)@ == old(inputs)@ + char_events(ch),
{
    let code = ch as u32;
    if code > 0xFFFF {
        let v = code - 0x10000;
        assert(v >> 10 == v / 1024 && v & 0x3FF == v % 1024) by (bit_vector);
        assert(v / 1024 < 1024);
        let high = ((v >> 10) + 0xD800) as u16;
        let low = ((v & 0x3FF) + 0xDC00) as u16;
        add_unicode_inputs(inputs, high);
        add_unicode_inputs(inputs, low);
        assert(inputs@ =~= old(inputs)@ + char_events(ch));
    } else {
        add_unicode_inputs(inputs, code as u16);
    }
}

/// Append the events that type `text`.
fn add_text_inputs(inputs: &mut Vec<KeyInput>, text: &str)
    ensures
        final(inputs)@ == old(inputs)@ + text_events(text@),
{
    let ghost start = inputs@;
    for ch in it: text.chars()
        invariant
            it.seq() == text@,
            inputs@ == start + text_events(it.seq().take(it.index() as int)),
    {
        proof {
            let t = it.seq().take(it.index() + 1);
            assert(t.drop_last() =~= it.seq().take(it.index() as int));
        }
        add_char_inputs(inputs, ch);
        proof {
            let t = it.seq().take(it.index() + 1);
            assert(t.last() == ch);
            assert(inputs@ =~= start + text_events(t));
        }
    }
    assert(text@.take(text@.len() as int) =~= text@);
}

/// Append `n` backspaces.
fn add_backspaces(inputs: &mut Vec<KeyInput>, n: usize)
    ensures
        final(inputs)@ == old(inputs)@ + backspace_events(n as nat),
{
    let ghost start = inputs@;
    for i in 0..n
        invariant
            inputs@ == start + backspace_events(i as nat),
    {
        inputs.push(key_input(VK_BACK, 0));
        inputs.push(key_input(VK_BACK, KEYEVENTF_KEYUP));
        assert(inputs@ =~= start + backspace_events((i + 1) as nat));
    }
}

/// N backspaces and then the text, as one batch.
pub fn build_plain_replacement(backspace_count: usize, text: &str) -> (r: Vec<KeyInput>)
    ensures
        r@ == plain_replacement(backspace_count as nat, text@),
{
    let mut inputs: Vec<KeyInput> = Vec::new();
    add_backspaces(&mut inputs, backspace_count);
    add_text_inputs(&mut inputs, text);
    assert(inputs@ =~= plain_replacement(backspace_count as nat, text@));
    inputs
}

/// The omnibox variant (OpenKey's mechanism): `Shift+Left` pre-selects the
/// last real character, collapsing any inline autocomplete ghost selection.
/// With exactly one character to delete and text to insert no backspace is
/// sent at all: the text types over the selection. Otherwise every
/// backspace is sent, the first consuming the one-character selection, so
/// the net number of deleted characters is unchanged. When Shift is already
/// physically held the synthetic Shift press and release are left out, so
/// the user's own Shift stays down.
pub fn build_selection_replacement(backspace_count: usize, text: &str, shift_already_held: bool) -> (r:
    Vec<KeyInput>)
    requires
        backspace_count > 0,
    ensures
        r@ == selection_replacement(backspace_count as nat, text@, shift_already_held),
{
    let mut inputs: Vec<KeyInput> = Vec::new();
    if !shift_already_held {
        inputs.push(key_input(VK_LSHIFT, 0));
    }
    inputs.push(key_input(VK_LEFT, KEYEVENTF_EXTENDEDKEY));
    inputs.push(key_input(VK_LEFT, KEYEVENTF_EXTENDEDKEY | KEYEVENTF_KEYUP));
    if !shift_already_held {
        inputs.push(key_input(VK_LSHIFT, KEYEVENTF_KEYUP));
    }
    let ghost prefix = inputs@;
    let backspaces_to_send = if backspace_count == 1 && !text.is_empty() {
        0
    } else {
        backspace_count
    };
    add_backspaces(&mut inputs, backspaces_to_send);
    add_text_inputs(&mut inputs, text);
    proof {
        assert(text@.len() > 0 <==> !(text@ =~= Seq::<char>::empty()));
        assert(backspaces_to_send as nat == selection_backspaces(backspace_count as nat, text@));
        assert(inputs@ =~= selection_replacement(
            backspace_count as nat,
            text@,
            shift_already_held,
        ));
    }
    inputs
}

/// Sandwich `payload` between a release and a re-press of `held`, as one
/// event sequence. The order is the safety property: the releases come
/// first so the payload is read plainly, the re-presses last and in the
/// same batch, so restoring them needs no query of the key state (which
/// `SendInput` itself has changed by then).
pub fn wrap_in_modifier_release(held: &[u16], payload: Vec<KeyInput>) -> (r: Vec<KeyInput>)
    ensures
        r@ == wrapped(held@, payload@),
{
    let mut inputs: Vec<KeyInput> = Vec::new();
    let n = held.len();
    for i in 0..n
        invariant
            n == held@.len(),
            inputs@ == release_events(held@.take(i as int)),
    {
        inputs.push(key_input(held[i], KEYEVENTF_KEYUP));
        assert(held@.take(i + 1) =~= held@.take(i as int).push(held@[i as int]));
        assert(inputs@ =~= release_events(held@.take(i + 1)));
    }
    assert(held@.take(n as int) =~= held@);
    let ghost released = inputs@;
    for i in 0..payload.len()
        invariant
            inputs@ == released + payload@.take(i as int),
    {
        inputs.push(payload[i]);
        assert(inputs@ =~= released + payload@.take(i + 1));
    }
    assert(payload@.take(payload@.len() as int) =~= payload@);
    let ghost middle = inputs@;
    for i in 0..n
        invariant
            n == held@.len(),
            inputs@ == middle + press_events(held@.take(i as int)),
    {
        inputs.push(key_input(held[i], 0));
        assert(held@.take(i + 1) =~= held@.take(i as int).push(held@[i as int]));
        assert(inputs@ =~= middle + press_events(held@.take(i + 1)));
    }
    assert(inputs@ =~= wrapped(held@, payload@));
    inputs
}

/// The modifiers watched while a chord may be held, in the order the
/// host probes them.
pub fn shortcut_modifier_vks() -> (r: Vec<u16>)
    ensures
        r@ == shortcut_modifiers(),
{
    let v = vec![
        VK_LCONTROL,
        VK_RCONTROL,
        VK_LSHIFT,
        VK_RSHIFT,
        VK_LMENU,
        VK_RMENU,
        VK_LWIN,
        VK_RWIN,
    ];
    assert(v@ =~= shortcut_modifiers());
    v
}

/// The watched modifiers that are down, given the host's probe of each
/// (`down[i]` for the `i`-th of [`shortcut_modifier_vks`]), in order.
pub fn held_modifiers(down: &[bool]) -> (r: Vec<u16>)
    requires
        down@.len() == shortcut_modifiers().len(),
    ensures
        r@ == held_of(shortcut_modifiers(), down@),
{
    let all = shortcut_modifier_vks();
    let mut held: Vec<u16> = Vec::new();
    for i in 0..all.len()
        invariant
            all@ == shortcut_modifiers(),
            down@.len() == all@.len(),
            held@ == held_of(all@.take(i as int), down@),
    {
        proof {
            let s = all@.take(i + 1);
            assert(s.drop_last() =~= all@.take(i as int));
        }
        if down[i] {
            held.push(all[i]);
        }
    }
    assert(all@.take(all@.len() as int) =~= all@);
    held
}

// ---------------------------------------------------------------------------
// The public entry points
// ---------------------------------------------------------------------------

/// The batch that sends `count` backspaces: a press and a release each.
pub fn send_backspaces(count: usize) -> (r: Vec<KeyInput>)
    ensures
        r@ == backspace_events(count as nat),
{
    let mut inputs: Vec<KeyInput> = Vec::new();
    add_backspaces(&mut inputs, count);
    assert(inputs@ =~= backspace_events(count as nat));
    inputs
}

/// The batch that types `s`, surrogate pairs included.
pub fn send_string(s: &str) -> (r: Vec<KeyInput>)
    ensures
        r@ == text_events(s@),
{
    let mut inputs: Vec<KeyInput> = Vec::new();
    add_text_inputs(&mut inputs, s);
    assert(inputs@ =~= text_events(s@));
    inputs
}

/// The batch that types one character.
pub fn send_unicode_char(ch: char) -> (r: Vec<KeyInput>)
    ensures
        r@ == char_events(ch),
{
    let mut inputs: Vec<KeyInput> = Vec::new();
    add_char_inputs(&mut inputs, ch);
    assert(inputs@ =~= char_events(ch));
    inputs
}

/// The batch that replaces the last `backspace_count` characters by
/// `text`. Inside a Chromium omnibox (`omnibox`, which the host detects) a
/// raw Backspace only dismisses the inline autocomplete, so any deletion
/// there takes the selection variant; everywhere else the plain batch.
pub fn send_replacement(backspace_count: usize, text: &str, omnibox: bool, shift_already_held: bool) -> (r:
    Vec<KeyInput>)
    ensures
        r@ == replacement_batch(backspace_count as nat, text@, omnibox, shift_already_held),
{
    if backspace_count > 0 && omnibox {
        build_selection_replacement(backspace_count, text, shift_already_held)
    } else {
        build_plain_replacement(backspace_count, text)
    }
}

/// The batch for a replacement made while the user holds a chord (the word
/// toggle, `Ctrl+Shift+Z`). Nothing when there is nothing to do; the
/// ordinary batch when none of the watched modifiers is held; otherwise the
/// plain batch wrapped in a release and re-press of the `held` modifiers,
/// so the application reads plain Backspace and plain text.
pub fn send_replacement_under_held_modifiers(
    backspace_count: usize,
    text: &str,
    held: &[u16],
    omnibox: bool,
    shift_already_held: bool,
) -> (r: Vec<KeyInput>)
    ensures
        r@ == held_batch(backspace_count as nat, text@, held@, omnibox, shift_already_held),
{
    if backspace_count == 0 && text.is_empty() {
        let v: Vec<KeyInput> = Vec::new();
        assert(v@ =~= Seq::<KeyInput>::empty());
        return v;
    }
    if held.len() == 0 {
        return send_replacement(backspace_count, text, omnibox, shift_already_held);
    }
    wrap_in_modifier_release(held, build_plain_replacement(backspace_count, text))
}

/// Insert text while the user holds a chord: the replacement above with
/// nothing to delete.
pub fn send_string_under_held_modifiers(
    text: &str,
    held: &[u16],
    omnibox: bool,
    shift_already_held: bool,
) -> (r: Vec<KeyInput>)
    ensures
        r@ == held_batch(0, text@, held@, omnibox, shift_already_held),
{
    send_replacement_under_held_modifiers(0, text, held, omnibox, shift_already_held)
}

} // verus!
