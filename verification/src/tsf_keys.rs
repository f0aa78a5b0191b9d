//! Key handling of the Windows TSF text service.
//!
//! TSF asks twice about every key: `OnTestKeyDown` ("will you eat it?") and
//! `OnKeyDown` ("handle it"). The answers must agree, since a claimed key
//! never reaches the application whatever `OnKeyDown` decides. This module
//! holds both decisions: the virtual-key tables, the route a key takes, and
//! the plan of edit-session operations (write the composition, end it,
//! insert text, reset the engine, repaint or hide the candidate panel) that
//! the text service carries out against the document.

use crate::candidates::{CandidateMotion, CandidateState};
use crate::engine_bridge::{EngineAction, EngineActionView, actions_view};
use crate::text::{chars_of, str_eq, string_of};
use vstd::prelude::*;

verus! {

/// Trailing key of the word-toggle chord `Ctrl+Shift+Z`.
pub const VK_WORD_TOGGLE: u16 = 0x5A;
pub const VK_TAB: u16 = 0x09;
pub const VK_RETURN: u16 = 0x0D;
pub const VK_ESCAPE: u16 = 0x1B;
pub const VK_SPACE: u16 = 0x20;
/// Page Up.
pub const VK_PRIOR: u16 = 0x21;
/// Page Down.
pub const VK_NEXT: u16 = 0x22;
pub const VK_UP: u16 = 0x26;
pub const VK_DOWN: u16 = 0x28;
pub const VK_DIGIT_1: u16 = 0x31;
pub const VK_DIGIT_9: u16 = 0x39;
/// Candidates per page of the Nôm panel, numbered 1 to 9.
pub const PAGE_SIZE: usize = 9;

/// The modifier state read with the key: Ctrl, Shift and Alt held or not.
/// A host that cannot read the keyboard state passes all three up.
#[derive(Clone, Copy, Debug, PartialEq, Eq)]
pub struct KeyMods {
    pub ctrl: bool,
    pub shift: bool,
    pub alt: bool,
}

// ---------------------------------------------------------------------------
// Key tables
// ---------------------------------------------------------------------------

/// Keys the candidate popup claims while it is up: Enter, Escape, Space,
/// Page Up/Down, Up/Down and the digits 1 to 9.
pub open spec fn candidate_key(vk: u16) -> bool {
    vk == VK_RETURN || vk == VK_ESCAPE || vk == VK_SPACE || vk == VK_PRIOR || vk == VK_NEXT || vk
        == VK_UP || vk == VK_DOWN || (VK_DIGIT_1 <= vk <= VK_DIGIT_9)
}

/// Which way a key moves the candidate highlight.
pub open spec fn motion_of(vk: u16) -> Option<CandidateMotion> {
    if vk == VK_UP {
        Some(CandidateMotion::Prev)
    } else if vk == VK_DOWN {
        Some(CandidateMotion::Next)
    } else if vk == VK_PRIOR {
        Some(CandidateMotion::PageUp)
    } else if vk == VK_NEXT {
        Some(CandidateMotion::PageDown)
    } else {
        None
    }
}

/// Navigation and editing keys that end the word (Unikey's rule): Page
/// Up/Down, End, Home, the arrows, Insert, Delete, Tab, Escape, F1 to F12.
pub open spec fn buffer_reset_key(vk: u16) -> bool {
    (0x21 <= vk <= 0x28) || vk == 0x2D || vk == 0x2E || vk == VK_TAB || vk == VK_ESCAPE || (0x70
        <= vk <= 0x7B)
}

/// Keys the engine transforms: letters, digits, Space and the OEM
/// punctuation keys.
pub open spec fn printable_key(vk: u16) -> bool {
    (0x41 <= vk <= 0x5A) || (0x30 <= vk <= 0x39) || vk == VK_SPACE || (0xBA <= vk <= 0xC0) || (
    0xDB <= vk <= 0xDF)
}

/// The chords the text service handles itself: `Ctrl+Space` and
/// `Ctrl+Shift+Z` with Alt up.
pub open spec fn hotkey(vk: u16, m: KeyMods) -> bool {
    if vk == VK_SPACE {
        m.ctrl
    } else if vk == VK_WORD_TOGGLE {
        m.ctrl && m.shift && !m.alt
    } else {
        false
    }
}

/// Keys under Ctrl or Alt belong to the application, except the hotkeys.
pub open spec fn ignored(vk: u16, m: KeyMods) -> bool {
    (m.ctrl || m.alt) && !hotkey(vk, m)
}

/// Whether the text service eats the key: only with a keyboard loaded;
/// printable keys always, reset keys while a composition is open (the key
/// closes it instead of moving the caret), popup keys while the popup is up.
pub open spec fn claims(vk: u16, engine_active: bool, composing: bool, candidates_open: bool) -> bool {
    engine_active && (printable_key(vk) || (composing && buffer_reset_key(vk)) || (
    candidates_open && candidate_key(vk)))
}

/// Which way this key moves the candidate highlight, if it moves it at all.
pub fn candidate_motion(vkey: u16) -> (r: Option<CandidateMotion>)
    ensures
        r == motion_of(vkey),
{
    if vkey == VK_UP {
        Some(CandidateMotion::Prev)
    } else if vkey == VK_DOWN {
        Some(CandidateMotion::Next)
    } else if vkey == VK_PRIOR {
        Some(CandidateMotion::PageUp)
    } else if vkey == VK_NEXT {
        Some(CandidateMotion::PageDown)
    } else {
        None
    }
}

/// Keys the candidate popup claims while it is up.
pub fn is_candidate_key(vkey: u16) -> (r: bool)
    ensures
        r == candidate_key(vkey),
{
    vkey == VK_RETURN || vkey == VK_ESCAPE || vkey == VK_SPACE || vkey == VK_PRIOR || vkey
        == VK_NEXT || vkey == VK_UP || vkey == VK_DOWN || (VK_DIGIT_1 <= vkey && vkey
        <= VK_DIGIT_9)
}

/// `Ctrl+Space` (toggle) and `Ctrl+Shift+Z` (word toggle, Alt not held so
/// `Ctrl+Alt+Shift+Z` stays the application's).
pub fn is_hotkey(vkey: u16, mods: KeyMods) -> (r: bool)
    ensures
        r == hotkey(vkey, mods),
{
    if vkey == VK_SPACE {
        return mods.ctrl;
    }
    if vkey == VK_WORD_TOGGLE {
        return mods.ctrl && mods.shift && !mods.alt;
    }
    false
}

/// Keys pressed with Ctrl or Alt are left to the application, unless they
/// are one of the hotkeys above.
pub fn should_ignore(vkey: u16, mods: KeyMods) -> (r: bool)
    ensures
        r == ignored(vkey, mods),
{
    (mods.ctrl || mods.alt) && !is_hotkey(vkey, mods)
}

/// Navigation and editing keys break the word boundary.
pub fn is_buffer_reset_key(vkey: u16) -> (r: bool)
    ensures
        r == buffer_reset_key(vkey),
{
    (0x21 <= vkey && vkey <= 0x28) || vkey == 0x2D || vkey == 0x2E || vkey == VK_TAB || vkey
        == VK_ESCAPE || (0x70 <= vkey && vkey <= 0x7B)
}

/// Printable keys the engine transforms.
pub fn is_printable_key(vkey: u16) -> (r: bool)
    ensures
        r == printable_key(vkey),
{
    (0x41 <= vkey && vkey <= 0x5A) || (0x30 <= vkey && vkey <= 0x39) || vkey == VK_SPACE || (0xBA
        <= vkey && vkey <= 0xC0) || (0xDB <= vkey && vkey <= 0xDF)
}

/// Will the text service eat this key?
pub fn claims_key(vkey: u16, engine_active: bool, composing: bool, candidates_open: bool) -> (r:
    bool)
    ensures
        r == claims(vkey, engine_active, composing, candidates_open),
{
    if !engine_active {
        return false;
    }
    is_printable_key(vkey) || (composing && is_buffer_reset_key(vkey)) || (candidates_open
        && is_candidate_key(vkey))
}

/// The `OnTestKeyDown` answer: keys under an application shortcut are
/// never claimed, the rest as [`claims_key`] says.
pub fn test_key_down(
    vkey: u16,
    mods: KeyMods,
    engine_active: bool,
    composing: bool,
    candidates_open: bool,
) -> (r: bool)
    ensures
        r == (!ignored(vkey, mods) && claims(vkey, engine_active, composing, candidates_open)),
{
    if should_ignore(vkey, mods) {
        return false;
    }
    claims_key(vkey, engine_active, composing, candidates_open)
}

// ---------------------------------------------------------------------------
// Edit-session operations
// ---------------------------------------------------------------------------

/// What the text service does when an operation fails.
#[derive(Clone, Copy, Debug, PartialEq, Eq)]
pub enum OnError {
    /// Log and carry on with the next operation.
    Continue,
    /// Stop here and answer the key with `handled`.
    Stop { handled: bool },
}

/// One operation of the text service against the document, in order.
#[derive(Debug, PartialEq, Eq)]
pub enum TsfOp {
    /// Write `text` as the composition with the caret at `cursor`,
    /// starting a composition when none is open.
    WriteText { text: String, cursor: usize, on_error: OnError },
    /// End the composition.
    EndComposition { on_error: OnError },
    /// End the composition if one is open (errors are logged).
    EndCompositionIfStarted,
    /// Insert finished text straight into the document (errors are logged).
    InsertText(String),
    /// Reset the keyboard engine.
    ResetEngine,
    /// Repaint the candidate panel from the current list.
    RefreshCandidates,
    /// Hide the candidate panel.
    HideCandidates,
}

pub enum TsfOpView {
    WriteText { text: Seq<char>, cursor: nat, on_error: OnError },
    EndComposition { on_error: OnError },
    EndCompositionIfStarted,
    InsertText(Seq<char>),
    ResetEngine,
    RefreshCandidates,
    HideCandidates,
}

impl View for TsfOp {
    type V = TsfOpView;

    open spec fn view(&self) -> TsfOpView {
        match self {
            TsfOp::WriteText { text, cursor, on_error } => TsfOpView::WriteText {
                text: text@,
                cursor: *cursor as nat,
                on_error: *on_error,
            },
            TsfOp::EndComposition { on_error } => TsfOpView::EndComposition {
                on_error: *on_error,
            },
            TsfOp::EndCompositionIfStarted => TsfOpView::EndCompositionIfStarted,
            TsfOp::InsertText(t) => TsfOpView::InsertText(t@),
            TsfOp::ResetEngine => TsfOpView::ResetEngine,
            TsfOp::RefreshCandidates => TsfOpView::RefreshCandidates,
            TsfOp::HideCandidates => TsfOpView::HideCandidates,
        }
    }
}

pub open spec fn tsf_ops_view(ops: Seq<TsfOp>) -> Seq<TsfOpView> {
    ops.map_values(|o: TsfOp| o@)
}

/// The answer to one `OnKeyDown`: the operations to run and whether the key
/// is eaten once they all succeed.
#[derive(Debug)]
pub struct KeyDownPlan {
    pub ops: Vec<TsfOp>,
    pub handled: bool,
}

pub struct KeyDownPlanView {
    pub ops: Seq<TsfOpView>,
    pub handled: bool,
}

impl View for KeyDownPlan {
    type V = KeyDownPlanView;

    open spec fn view(&self) -> KeyDownPlanView {
        KeyDownPlanView { ops: tsf_ops_view(self.ops@), handled: self.handled }
    }
}

/// Writing finished `text` as the composition, caret at its end.
pub open spec fn write_all(text: Seq<char>, on_error: OnError) -> TsfOpView {
    TsfOpView::WriteText { text, cursor: text.len(), on_error }
}

// ---------------------------------------------------------------------------
// Routing a key
// ---------------------------------------------------------------------------

/// The branch of `OnKeyDown` a key takes.
#[derive(Clone, Copy, Debug, PartialEq, Eq)]
pub enum KeyDownRoute {
    /// Offer it to the open candidate popup first
    /// ([`handle_candidate_key`]); if the popup declines, route it again
    /// with the popup considered closed.
    Candidates,
    /// A word-ending key: close the composition ([`plan_reset_key`]) and
    /// let the key through.
    ResetKey,
    /// An application shortcut: let it through untouched.
    PassThrough,
    /// `Ctrl+Shift+Z`: flip the open word ([`plan_word_toggle`]).
    WordToggle,
    /// Translate the key to a character and hand it on
    /// ([`char_key`]).
    Translate,
}

pub open spec fn key_down_route(vk: u16, m: KeyMods, candidates_open: bool) -> KeyDownRoute {
    if candidates_open && !ignored(vk, m) {
        KeyDownRoute::Candidates
    } else if buffer_reset_key(vk) {
        KeyDownRoute::ResetKey
    } else if ignored(vk, m) {
        KeyDownRoute::PassThrough
    } else if m.ctrl && m.shift && vk == VK_WORD_TOGGLE {
        KeyDownRoute::WordToggle
    } else {
        KeyDownRoute::Translate
    }
}

/// Route a key. The popup gets first refusal: Escape and Page Up/Down are
/// also reset keys, and while a list is up they dismiss and paginate.
/// Shortcuts still come first even then, so `Ctrl+1` stays the
/// application's.
pub fn route_key_down(vkey: u16, mods: KeyMods, candidates_open: bool) -> (r: KeyDownRoute)
    ensures
        r == key_down_route(vkey, mods, candidates_open),
{
    let ignore = should_ignore(vkey, mods);
    if candidates_open && !ignore {
        KeyDownRoute::Candidates
    } else if is_buffer_reset_key(vkey) {
        KeyDownRoute::ResetKey
    } else if ignore {
        KeyDownRoute::PassThrough
    } else if mods.ctrl && mods.shift && vkey == VK_WORD_TOGGLE {
        KeyDownRoute::WordToggle
    } else {
        KeyDownRoute::Translate
    }
}

/// The character of a key that `ToUnicode` could not translate:
/// Backspace, Enter and Space; nothing for the rest.
pub open spec fn fallback_of(vk: u16) -> Option<char> {
    if vk == 0x08 {
        Some('\x08')
    } else if vk == VK_RETURN {
        Some('\r')
    } else if vk == VK_SPACE {
        Some(' ')
    } else {
        None
    }
}

pub fn fallback_char(vkey: u16) -> (r: Option<char>)
    ensures
        r == fallback_of(vkey),
{
    if vkey == 0x08 {
        Some('\x08')
    } else if vkey == VK_RETURN {
        Some('\r')
    } else if vkey == VK_SPACE {
        Some(' ')
    } else {
        None
    }
}

/// How a translated character is handled.
#[derive(Clone, Copy, Debug, PartialEq, Eq)]
pub enum CharKey {
    /// `'\x08'`: [`plan_backspace`].
    Backspace,
    /// `'\r'`: [`plan_enter`].
    Enter,
    /// Anything else goes to the engine: [`plan_actions`].
    Other,
}

pub fn char_key(ch: char) -> (r: CharKey)
    ensures
        ch == '\x08' ==> r == CharKey::Backspace,
        ch == '\r' ==> r == CharKey::Enter,
        ch != '\x08' && ch != '\r' ==> r == CharKey::Other,
{
    if ch == '\x08' {
        CharKey::Backspace
    } else if ch == '\r' {
        CharKey::Enter
    } else {
        CharKey::Other
    }
}

// ---------------------------------------------------------------------------
// The candidate popup
// ---------------------------------------------------------------------------

/// What a popup key asks for.
#[derive(Clone, Copy, Debug, PartialEq, Eq)]
pub enum CandidateKeyAction {
    Move(CandidateMotion),
    /// Close the list, keep the reading composed.
    Dismiss,
    /// Pick the candidate at this position of the current page.
    SelectAtPage(usize),
    /// Pick the highlighted candidate.
    SelectCurrent,
}

pub open spec fn candidate_action_of(vk: u16) -> Option<CandidateKeyAction> {
    if motion_of(vk) is Some {
        Some(CandidateKeyAction::Move(motion_of(vk)->0))
    } else if vk == VK_ESCAPE {
        Some(CandidateKeyAction::Dismiss)
    } else if VK_DIGIT_1 <= vk <= VK_DIGIT_9 {
        Some(CandidateKeyAction::SelectAtPage((vk - VK_DIGIT_1) as usize))
    } else if vk == VK_SPACE || vk == VK_RETURN {
        Some(CandidateKeyAction::SelectCurrent)
    } else {
        None
    }
}

pub fn candidate_key_action(vkey: u16) -> (r: Option<CandidateKeyAction>)
    ensures
        r == candidate_action_of(vkey),
{
    if let Some(m) = candidate_motion(vkey) {
        return Some(CandidateKeyAction::Move(m));
    }
    if vkey == VK_ESCAPE {
        Some(CandidateKeyAction::Dismiss)
    } else if VK_DIGIT_1 <= vkey && vkey <= VK_DIGIT_9 {
        Some(CandidateKeyAction::SelectAtPage((vkey - VK_DIGIT_1) as usize))
    } else if vkey == VK_SPACE || vkey == VK_RETURN {
        Some(CandidateKeyAction::SelectCurrent)
    } else {
        None
    }
}

/// Committing a chosen candidate: write it as the finished composition, end
/// the composition, hide the panel. A failure stops the rest, but the key
/// stays eaten.
pub open spec fn commit_candidate_ops(text: Seq<char>) -> Seq<TsfOpView> {
    seq![
        write_all(text, OnError::Stop { handled: true }),
        TsfOpView::EndComposition { on_error: OnError::Stop { handled: true } },
        TsfOpView::HideCandidates,
    ]
}

fn char_count(s: &String) -> (r: usize)
    ensures
        r == s@.len(),
{
    chars_of(s.as_str()).len()
}

fn new_tsf_ops() -> (r: Vec<TsfOp>)
    ensures
        tsf_ops_view(r@) == Seq::<TsfOpView>::empty(),
{
    let r: Vec<TsfOp> = Vec::new();
    assert(tsf_ops_view(r@) =~= Seq::<TsfOpView>::empty());
    r
}

fn push_tsf(ops: &mut Vec<TsfOp>, op: TsfOp)
    ensures
        tsf_ops_view(final(ops)@) == tsf_ops_view(old(ops)@).push(op@),
{
    ops.push(op);
    assert(tsf_ops_view(ops@) =~= tsf_ops_view(old(ops)@).push(op@));
}

/// The operations that commit a chosen candidate.
fn commit_candidate(text: String) -> (r: Vec<TsfOp>)
    ensures
        tsf_ops_view(r@) == commit_candidate_ops(text@),
{
    let ghost t = text@;
    let n = char_count(&text);
    let mut ops = new_tsf_ops();
    push_tsf(
        &mut ops,
        TsfOp::WriteText { text, cursor: n, on_error: OnError::Stop { handled: true } },
    );
    push_tsf(&mut ops, TsfOp::EndComposition { on_error: OnError::Stop { handled: true } });
    push_tsf(&mut ops, TsfOp::HideCandidates);
    assert(tsf_ops_view(ops@) =~= commit_candidate_ops(t));
    ops
}

/// Consume a key on behalf of the open candidate popup, `page` candidates
/// to a page. `None`: no list is showing, or the key means nothing to it
/// (an out-of-range digit, say); the caller then routes the key again, so a
/// stray key types itself instead of dismissing the list. Otherwise the key
/// is eaten, the list has changed as the key says, and these are the
/// operations to run.
pub fn handle_candidate_key(cands: &mut CandidateState, vkey: u16, page: usize) -> (r: Option<
    Vec<TsfOp>,
>)
    requires
        page > 0,
    ensures
        ({
            let c = old(cands)@;
            match candidate_action_of(vkey) {
                _ if c.items.len() == 0 => r is None && final(cands)@ == c,
                None => r is None && final(cands)@ == c,
                Some(CandidateKeyAction::Move(m)) => final(cands)@.items == c.items
                    && final(cands)@.cursor == c.moved(m, page as nat) && (r matches Some(ops)
                    && tsf_ops_view(ops@) == seq![TsfOpView::RefreshCandidates]),
                Some(CandidateKeyAction::Dismiss) => final(cands)@
                    == crate::candidates::CandidateModel::empty() && (r matches Some(ops)
                    && tsf_ops_view(ops@) == seq![TsfOpView::HideCandidates]),
                Some(CandidateKeyAction::SelectAtPage(i)) => {
                    let idx = c.page_start(page as nat) + i;
                    &&& idx >= c.items.len() ==> r is None && final(cands)@ == c
                    &&& idx < c.items.len() ==> final(cands)@
                        == crate::candidates::CandidateModel::empty() && (r matches Some(ops)
                        && tsf_ops_view(ops@) == commit_candidate_ops(c.items[idx].value@))
                },
                Some(CandidateKeyAction::SelectCurrent) => final(cands)@
                    == crate::candidates::CandidateModel::empty() && (r matches Some(ops)
                    && tsf_ops_view(ops@) == commit_candidate_ops(
                    c.items[c.cursor as int].value@,
                )),
            }
        }),
{
    if cands.is_empty() {
        return None;
    }
    match candidate_key_action(vkey) {
        None => None,
        Some(CandidateKeyAction::Move(m)) => {
            cands.move_cursor(m, page);
            let mut ops = new_tsf_ops();
            push_tsf(&mut ops, TsfOp::RefreshCandidates);
            assert(tsf_ops_view(ops@) =~= seq![TsfOpView::RefreshCandidates]);
            Some(ops)
        },
        Some(CandidateKeyAction::Dismiss) => {
            cands.clear();
            let mut ops = new_tsf_ops();
            push_tsf(&mut ops, TsfOp::HideCandidates);
            assert(tsf_ops_view(ops@) =~= seq![TsfOpView::HideCandidates]);
            Some(ops)
        },
        Some(CandidateKeyAction::SelectAtPage(i)) => {
            match cands.take_at_page(i, page) {
                Some(text) => Some(commit_candidate(text)),
                None => None,
            }
        },
        Some(CandidateKeyAction::SelectCurrent) => {
            match cands.take_current() {
                Some(text) => Some(commit_candidate(text)),
                None => None,
            }
        },
    }
}

// ---------------------------------------------------------------------------
// Plans for the other branches
// ---------------------------------------------------------------------------

/// A word-ending key: with a composition open, write the engine's
/// word-boundary repair (when it has one) and end the composition; then
/// reset the engine and hide the panel. The key itself goes through.
pub open spec fn reset_key_plan(composing: bool, repair: Option<Seq<char>>) -> KeyDownPlanView {
    let closing = if composing {
        (match repair {
            Some(t) => seq![write_all(t, OnError::Continue)],
            None => Seq::empty(),
        }) + seq![TsfOpView::EndComposition { on_error: OnError::Continue }]
    } else {
        Seq::empty()
    };
    KeyDownPlanView {
        ops: closing + seq![TsfOpView::ResetEngine, TsfOpView::HideCandidates],
        handled: false,
    }
}

pub open spec fn opt_view(o: Option<String>) -> Option<Seq<char>> {
    match o {
        Some(t) => Some(t@),
        None => None,
    }
}

fn push_repair_and_end(ops: &mut Vec<TsfOp>, repair: Option<String>)
    ensures
        tsf_ops_view(final(ops)@) == tsf_ops_view(old(ops)@) + (match opt_view(repair) {
            Some(t) => seq![write_all(t, OnError::Continue)],
            None => Seq::empty(),
        }) + seq![TsfOpView::EndComposition { on_error: OnError::Continue }],
{
    let ghost start = tsf_ops_view(ops@);
    let ghost rv = opt_view(repair);
    match repair {
        Some(t) => {
            let n = char_count(&t);
            push_tsf(ops, TsfOp::WriteText { text: t, cursor: n, on_error: OnError::Continue });
        },
        None => {},
    }
    push_tsf(ops, TsfOp::EndComposition { on_error: OnError::Continue });
    assert(tsf_ops_view(ops@) =~= start + (match rv {
        Some(t) => seq![write_all(t, OnError::Continue)],
        None => Seq::empty(),
    }) + seq![TsfOpView::EndComposition { on_error: OnError::Continue }]);
}

/// The plan for a word-ending key. `composing`: a composition is open and
/// there is a context to end it in; `repair`: the engine's boundary repair,
/// probed before the engine is reset.
pub fn plan_reset_key(composing: bool, repair: Option<String>) -> (r: KeyDownPlan)
    ensures
        r@ == reset_key_plan(composing, opt_view(repair)),
{
    let mut ops = new_tsf_ops();
    if composing {
        push_repair_and_end(&mut ops, repair);
    }
    push_tsf(&mut ops, TsfOp::ResetEngine);
    push_tsf(&mut ops, TsfOp::HideCandidates);
    assert(tsf_ops_view(ops@) =~= reset_key_plan(composing, opt_view(repair)).ops);
    KeyDownPlan { ops, handled: false }
}

/// Enter always ends the composition: write the boundary repair (when the
/// engine has one), end the composition, reset the engine, hide the panel.
/// The key goes through either way.
pub open spec fn enter_plan(composing: bool, repair: Option<Seq<char>>) -> KeyDownPlanView {
    if composing {
        KeyDownPlanView {
            ops: (match repair {
                Some(t) => seq![write_all(t, OnError::Continue)],
                None => Seq::empty(),
            }) + seq![
                TsfOpView::EndComposition { on_error: OnError::Continue },
                TsfOpView::ResetEngine,
                TsfOpView::HideCandidates,
            ],
            handled: false,
        }
    } else {
        KeyDownPlanView { ops: Seq::empty(), handled: false }
    }
}

pub fn plan_enter(composing: bool, repair: Option<String>) -> (r: KeyDownPlan)
    ensures
        r@ == enter_plan(composing, opt_view(repair)),
{
    let mut ops = new_tsf_ops();
    if composing {
        push_repair_and_end(&mut ops, repair);
        push_tsf(&mut ops, TsfOp::ResetEngine);
        push_tsf(&mut ops, TsfOp::HideCandidates);
    }
    assert(tsf_ops_view(ops@) =~= enter_plan(composing, opt_view(repair)).ops);
    KeyDownPlan { ops, handled: false }
}

/// The word toggle: the engine's flipped composition is written in place
/// and the chord is eaten; with nothing to flip the chord goes through, so
/// the application's own `Ctrl+Shift+Z` still works.
pub open spec fn word_toggle_plan(toggled: Option<EngineActionView>) -> KeyDownPlanView {
    match toggled {
        Some(EngineActionView::UpdateComposition(text, cursor)) => KeyDownPlanView {
            ops: seq![
                TsfOpView::WriteText { text, cursor, on_error: OnError::Stop { handled: false } },
            ],
            handled: true,
        },
        _ => KeyDownPlanView { ops: Seq::empty(), handled: false },
    }
}

pub open spec fn action_opt_view(a: Option<EngineAction>) -> Option<EngineActionView> {
    match a {
        Some(x) => Some(x@),
        None => None,
    }
}

pub fn plan_word_toggle(toggled: Option<EngineAction>) -> (r: KeyDownPlan)
    ensures
        r@ == word_toggle_plan(action_opt_view(toggled)),
{
    let mut ops = new_tsf_ops();
    match toggled {
        Some(EngineAction::UpdateComposition { text, cursor }) => {
            push_tsf(
                &mut ops,
                TsfOp::WriteText { text, cursor, on_error: OnError::Stop { handled: false } },
            );
            KeyDownPlan { ops, handled: true }
        },
        _ => KeyDownPlan { ops, handled: false },
    }
}

/// Backspace. The engine's `Replace` is a delta meant for the hook backend;
/// a composition is rewritten whole, from the engine's buffer after the
/// backspace. Anything but `Replace` lets the application delete. An empty
/// buffer ends the composition instead of writing it empty (an empty
/// composition makes applications terminate it and reset the engine
/// mid-word).
pub open spec fn backspace_plan(action: EngineActionView, buffer: Seq<char>, composing: bool) -> KeyDownPlanView {
    if !(action is Replace) {
        KeyDownPlanView { ops: Seq::empty(), handled: false }
    } else if buffer.len() == 0 {
        KeyDownPlanView {
            ops: if composing {
                seq![TsfOpView::EndComposition { on_error: OnError::Continue }]
            } else {
                Seq::empty()
            },
            handled: true,
        }
    } else {
        KeyDownPlanView {
            ops: seq![write_all(buffer, OnError::Stop { handled: false })],
            handled: true,
        }
    }
}

pub fn plan_backspace(action: &EngineAction, buffer: &str, composing: bool) -> (r: KeyDownPlan)
    ensures
        r@ == backspace_plan(action@, buffer@, composing),
{
    let mut ops = new_tsf_ops();
    let is_replace = match action {
        EngineAction::Replace { .. } => true,
        _ => false,
    };
    if !is_replace {
        return KeyDownPlan { ops, handled: false };
    }
    if buffer.is_empty() {
        if composing {
            push_tsf(&mut ops, TsfOp::EndComposition { on_error: OnError::Continue });
        }
        proof {
            assert(tsf_ops_view(ops@) =~= backspace_plan(action@, buffer@, composing).ops);
        }
        return KeyDownPlan { ops, handled: true };
    }
    let text = string_of(buffer);
    let n = char_count(&text);
    push_tsf(
        &mut ops,
        TsfOp::WriteText { text, cursor: n, on_error: OnError::Stop { handled: false } },
    );
    proof {
        assert(tsf_ops_view(ops@) =~= backspace_plan(action@, buffer@, composing).ops);
    }
    KeyDownPlan { ops, handled: true }
}

/// The operations for one engine action of a typed character.
pub open spec fn action_ops(a: EngineActionView) -> Seq<TsfOpView> {
    match a {
        EngineActionView::Replace(_, text) => seq![
            write_all(text, OnError::Stop { handled: false }),
        ],
        EngineActionView::UpdateComposition(text, cursor) => seq![
            TsfOpView::WriteText { text, cursor, on_error: OnError::Stop { handled: false } },
        ],
        EngineActionView::ConfirmComposition(text) => seq![
            write_all(text, OnError::Continue),
            TsfOpView::EndComposition { on_error: OnError::Continue },
            TsfOpView::ResetEngine,
            TsfOpView::HideCandidates,
        ],
        EngineActionView::Commit(text) => seq![
            TsfOpView::EndCompositionIfStarted,
            TsfOpView::InsertText(text),
            TsfOpView::ResetEngine,
            TsfOpView::HideCandidates,
        ],
        EngineActionView::DoNothing => Seq::empty(),
        EngineActionView::ShowCandidates(_) => seq![TsfOpView::RefreshCandidates],
        EngineActionView::HideCandidates => seq![TsfOpView::HideCandidates],
    }
}

/// Every action of the engine, in order.
pub open spec fn actions_plan(acts: Seq<EngineActionView>) -> KeyDownPlanView
    decreases acts.len(),
{
    if acts.len() == 0 {
        KeyDownPlanView { ops: Seq::empty(), handled: false }
    } else {
        let p = actions_plan(acts.drop_last());
        KeyDownPlanView {
            ops: p.ops + action_ops(acts.last()),
            handled: p.handled || !(acts.last() is DoNothing),
        }
    }
}

fn push_action_ops(ops: &mut Vec<TsfOp>, action: &EngineAction)
    ensures
        tsf_ops_view(final(ops)@) == tsf_ops_view(old(ops)@) + action_ops(action@),
{
    let ghost start = tsf_ops_view(ops@);
    match action {
        EngineAction::Replace { text, .. } => {
            let n = char_count(text);
            push_tsf(
                ops,
                TsfOp::WriteText {
                    text: text.clone(),
                    cursor: n,
                    on_error: OnError::Stop { handled: false },
                },
            );
        },
        EngineAction::UpdateComposition { text, cursor } => {
            push_tsf(
                ops,
                TsfOp::WriteText {
                    text: text.clone(),
                    cursor: *cursor,
                    on_error: OnError::Stop { handled: false },
                },
            );
        },
        EngineAction::ConfirmComposition(text) => {
            let n = char_count(text);
            push_tsf(
                ops,
                TsfOp::WriteText { text: text.clone(), cursor: n, on_error: OnError::Continue },
            );
            push_tsf(ops, TsfOp::EndComposition { on_error: OnError::Continue });
            push_tsf(ops, TsfOp::ResetEngine);
            push_tsf(ops, TsfOp::HideCandidates);
        },
        EngineAction::Commit(text) => {
            push_tsf(ops, TsfOp::EndCompositionIfStarted);
            push_tsf(ops, TsfOp::InsertText(text.clone()));
            push_tsf(ops, TsfOp::ResetEngine);
            push_tsf(ops, TsfOp::HideCandidates);
        },
        EngineAction::DoNothing => {},
        EngineAction::ShowCandidates { .. } => {
            push_tsf(ops, TsfOp::RefreshCandidates);
        },
        EngineAction::HideCandidates => {
            push_tsf(ops, TsfOp::HideCandidates);
        },
    }
    assert(tsf_ops_view(ops@) =~= start + action_ops(action@));
}

/// A typed character: apply every action the engine produced, in order
/// (stopping after the first would drop the separator that follows a
/// confirmed word). The key is eaten as soon as any action is not
/// `DoNothing`.
pub fn plan_actions(actions: &Vec<EngineAction>) -> (r: KeyDownPlan)
    ensures
        r@ == actions_plan(actions_view(actions@)),
{
    let mut ops = new_tsf_ops();
    let mut handled = false;
    let n = actions.len();
    assert(actions_view(actions@).take(0) =~= Seq::<EngineActionView>::empty());
    for i in 0..n
        invariant
            n == actions@.len(),
            ({
                let p = actions_plan(actions_view(actions@).take(i as int));
                &&& p.ops == tsf_ops_view(ops@)
                &&& p.handled == handled
            }),
    {
        proof {
            let t = actions_view(actions@).take(i + 1);
            assert(t.drop_last() =~= actions_view(actions@).take(i as int));
            assert(t.last() == actions@[i as int]@);
        }
        push_action_ops(&mut ops, &actions[i]);
        let nothing = match &actions[i] {
            EngineAction::DoNothing => true,
            _ => false,
        };
        if !nothing {
            handled = true;
        }
    }
    assert(actions_view(actions@).take(n as int) =~= actions_view(actions@));
    KeyDownPlan { ops, handled }
}

// ---------------------------------------------------------------------------
// The input method as the settings name it
// ---------------------------------------------------------------------------

/// Vietnamese input mode of the text service.
#[derive(Debug, PartialEq, Eq)]
pub enum VietnameseMode {
    Telex,
    VNI,
    Nom,
    /// A custom keyboard, looked up as `<id>.toml`.
    Custom(String),
    /// Pass every key through untouched: the tray's "english" choice.
    English,
}

/// Parse a settings method id ("telex", "vni", "nom", "english", or a
/// custom id). Unknown ids become [`VietnameseMode::Custom`]: with no such
/// keyboard file the engine loads nothing and keys pass through, so a stale
/// id degrades to plain typing rather than to the wrong language.
pub open spec fn mode_of(id: Seq<char>) -> VietnameseModeView {
    if id == "telex"@ {
        VietnameseModeView::Telex
    } else if id == "vni"@ {
        VietnameseModeView::VNI
    } else if id == "nom"@ {
        VietnameseModeView::Nom
    } else if id == "english"@ {
        VietnameseModeView::English
    } else {
        VietnameseModeView::Custom(id)
    }
}

pub enum VietnameseModeView {
    Telex,
    VNI,
    Nom,
    Custom(Seq<char>),
    English,
}

impl View for VietnameseMode {
    type V = VietnameseModeView;

    open spec fn view(&self) -> VietnameseModeView {
        match self {
            VietnameseMode::Telex => VietnameseModeView::Telex,
            VietnameseMode::VNI => VietnameseModeView::VNI,
            VietnameseMode::Nom => VietnameseModeView::Nom,
            VietnameseMode::Custom(id) => VietnameseModeView::Custom(id@),
            VietnameseMode::English => VietnameseModeView::English,
        }
    }
}

impl VietnameseMode {
    pub fn from_settings_id(id: &str) -> (r: Self)
        ensures
            r@ == mode_of(id@),
    {
        if str_eq(id, "telex") {
            VietnameseMode::Telex
        } else if str_eq(id, "vni") {
            VietnameseMode::VNI
        } else if str_eq(id, "nom") {
            VietnameseMode::Nom
        } else if str_eq(id, "english") {
            VietnameseMode::English
        } else {
            VietnameseMode::Custom(string_of(id))
        }
    }
}

/// A typed character is consumed exactly when the engine did something
/// with it: the plan is handled iff some action is not `DoNothing`. (A lone
/// `UpdateComposition` is handled, so the application never also inserts
/// the raw key.)
pub proof fn lemma_typed_key_handled_iff_engine_acted(acts: Seq<EngineActionView>)
    ensures
        actions_plan(acts).handled <==> exists|i: int|
            0 <= i < acts.len() && !(#[trigger] acts[i] is DoNothing),
    decreases acts.len(),
{
    if acts.len() > 0 {
        let init = acts.drop_last();
        lemma_typed_key_handled_iff_engine_acted(init);
        if exists|i: int| 0 <= i < init.len() && !(#[trigger] init[i] is DoNothing) {
            let i = choose|i: int| 0 <= i < init.len() && !(#[trigger] init[i] is DoNothing);
            assert(acts[i] == init[i]);
        }
        if exists|i: int| 0 <= i < acts.len() && !(#[trigger] acts[i] is DoNothing) {
            let i = choose|i: int| 0 <= i < acts.len() && !(#[trigger] acts[i] is DoNothing);
            if i < acts.len() - 1 {
                assert(init[i] == acts[i]);
            }
        }
        if !(acts.last() is DoNothing) {
            assert(!(acts[acts.len() - 1] is DoNothing));
        }
    }
}

} // verus!
