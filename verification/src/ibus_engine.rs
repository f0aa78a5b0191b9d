//! The IBus engine's decisions, one handler per D-Bus call.
//!
//! The host is a thin D-Bus adapter: for each call it reads the shared
//! settings mirrors, asks its keyboard engine when a handler needs an
//! answer, runs the handler here, then emits the returned signals and
//! applies the returned keyboard commands. Every composition rule lives in
//! [`EngineBridge`]; this layer decides which bridge operation a key or a
//! panel event means and keeps the per-engine bookkeeping: the method
//! generation last applied, the client's capability bits, and the preedit
//! model last applied.

use crate::candidates::CandidateView;
use crate::engine_bridge::{
    BridgeModel, BridgeStep, EngineBridge, ImeOp, ImeOpView, KeyOutcome, KeyboardCmd, OutcomeView,
    ops_view,
};
use crate::ibus_props::{
    LOOKUP_PAGE_SIZE, LookupTable, build_lookup_table, slot_labels, ORIENTATION_SYSTEM,
    PROP_STATE_CHECKED,
};
use crate::keysym::{break_keysym, is_break_keysym, is_modifier_keysym, keysym_char, keysym_to_char, modifier_keysym};
use crate::method_sync::{engine_method, is_engine_method_in, strings_view};
use crate::text::{chars_of, str_eq, string_of};
use vstd::prelude::*;

verus! {

pub const IBUS_CONTROL_MASK: u32 = 0x04;
/// Alt.
pub const IBUS_MOD1_MASK: u32 = 0x08;
pub const IBUS_SUPER_MASK: u32 = 0x40;
/// Set on key releases; the engine acts on presses only.
pub const IBUS_RELEASE_MASK: u32 = 0x4000_0000;
/// `IBUS_CAP_SURROUNDING_TEXT`: the client can delete text around the
/// cursor, which the no-preedit model needs.
pub const IBUS_CAP_SURROUNDING_TEXT: u32 = 0x20;
/// `IBusPreeditFocusMode::COMMIT`: the client commits a visible preedit on
/// focus change, so a click elsewhere never eats the word.
pub const PREEDIT_FOCUS_COMMIT: u32 = 1;

pub const KEY_SPACE: u32 = 0x20;
pub const KEY_1: u32 = 0x31;
pub const KEY_9: u32 = 0x39;
pub const KEY_RETURN: u32 = 0xFF0D;
pub const KEY_ESCAPE: u32 = 0xFF1B;
pub const KEY_LEFT: u32 = 0xFF51;
pub const KEY_UP: u32 = 0xFF52;
pub const KEY_RIGHT: u32 = 0xFF53;
pub const KEY_DOWN: u32 = 0xFF54;
pub const KEY_PAGE_UP: u32 = 0xFF55;
pub const KEY_PAGE_DOWN: u32 = 0xFF56;

/// Mouse button that commits a clicked candidate.
pub const LEFT_BUTTON: u32 = 1;

/// Ctrl, Alt or Super held: a shortcut, passed through untouched.
pub open spec fn control_combo(state: u32) -> bool {
    state & (IBUS_CONTROL_MASK | IBUS_MOD1_MASK | IBUS_SUPER_MASK) != 0
}

pub fn is_control_combo(state: u32) -> (r: bool)
    ensures
        r == control_combo(state),
{
    state & (IBUS_CONTROL_MASK | IBUS_MOD1_MASK | IBUS_SUPER_MASK) != 0
}

/// A key release: never processed (that would double every keystroke).
pub fn is_key_release(state: u32) -> (r: bool)
    ensures
        r == (state & IBUS_RELEASE_MASK != 0),
{
    state & IBUS_RELEASE_MASK != 0
}

// ---------------------------------------------------------------------------
// Routing a key press
// ---------------------------------------------------------------------------

/// What a key means to an open Nôm candidate popup.
#[derive(Clone, Copy, Debug, PartialEq, Eq)]
pub enum CandidateKey {
    /// Escape: drop the list and the reading.
    Discard,
    /// Return or Space: commit the highlighted candidate.
    SelectCurrent,
    /// Down or Right.
    Next,
    /// Up or Left.
    Prev,
    PageDown,
    PageUp,
    /// 1 to 9: the slot of the current page (out of range consumes the key
    /// and changes nothing, so a stray digit never leaks into the reading).
    SelectAtPage(usize),
}

pub open spec fn candidate_key_of(keyval: u32) -> Option<CandidateKey> {
    if keyval == KEY_ESCAPE {
        Some(CandidateKey::Discard)
    } else if keyval == KEY_RETURN || keyval == KEY_SPACE {
        Some(CandidateKey::SelectCurrent)
    } else if keyval == KEY_DOWN || keyval == KEY_RIGHT {
        Some(CandidateKey::Next)
    } else if keyval == KEY_UP || keyval == KEY_LEFT {
        Some(CandidateKey::Prev)
    } else if keyval == KEY_PAGE_DOWN {
        Some(CandidateKey::PageDown)
    } else if keyval == KEY_PAGE_UP {
        Some(CandidateKey::PageUp)
    } else if KEY_1 <= keyval <= KEY_9 {
        Some(CandidateKey::SelectAtPage((keyval - KEY_1) as usize))
    } else {
        None
    }
}

pub fn candidate_key(keyval: u32) -> (r: Option<CandidateKey>)
    ensures
        r == candidate_key_of(keyval),
{
    if keyval == KEY_ESCAPE {
        Some(CandidateKey::Discard)
    } else if keyval == KEY_RETURN || keyval == KEY_SPACE {
        Some(CandidateKey::SelectCurrent)
    } else if keyval == KEY_DOWN || keyval == KEY_RIGHT {
        Some(CandidateKey::Next)
    } else if keyval == KEY_UP || keyval == KEY_LEFT {
        Some(CandidateKey::Prev)
    } else if keyval == KEY_PAGE_DOWN {
        Some(CandidateKey::PageDown)
    } else if keyval == KEY_PAGE_UP {
        Some(CandidateKey::PageUp)
    } else if KEY_1 <= keyval && keyval <= KEY_9 {
        Some(CandidateKey::SelectAtPage((keyval - KEY_1) as usize))
    } else {
        None
    }
}

/// What a key press (not a release) asks of the engine, once the pending
/// setting changes are applied.
#[derive(Clone, Copy, Debug, PartialEq, Eq)]
pub enum IbusKeyRoute {
    /// Not the engine's: the key goes to the application unprocessed.
    Pass,
    /// A shortcut or a navigation key: commit the pending word so it is not
    /// lost, then let the application have the key.
    FlushAndPass,
    /// A key for the open candidate popup: consumed.
    Candidate(CandidateKey),
    /// BackSpace.
    Backspace,
    /// A character for the keyboard engine.
    Char(char),
}

pub open spec fn key_route(keyval: u32, state: u32, candidates_open: bool) -> IbusKeyRoute {
    if control_combo(state) {
        IbusKeyRoute::FlushAndPass
    } else if modifier_keysym(keyval) {
        IbusKeyRoute::Pass
    } else if candidates_open && candidate_key_of(keyval) is Some {
        IbusKeyRoute::Candidate(candidate_key_of(keyval)->0)
    } else if break_keysym(keyval) {
        IbusKeyRoute::FlushAndPass
    } else {
        match keysym_char(keyval) {
            None => IbusKeyRoute::Pass,
            Some(c) => if c == '\x08' {
                IbusKeyRoute::Backspace
            } else {
                IbusKeyRoute::Char(c)
            },
        }
    }
}

// ---------------------------------------------------------------------------
// Signals
// ---------------------------------------------------------------------------

/// One signal the engine emits, in order.
#[derive(Debug, PartialEq, Eq)]
pub enum IbusSignal {
    UpdatePreeditText { text: String, cursor_pos: u32, visible: bool, mode: u32 },
    CommitText(String),
    UpdateLookupTable { table: LookupTable, visible: bool },
    ShowLookupTable,
    HideLookupTable,
    /// Delete the `chars` characters immediately before the cursor (sent as
    /// offset `-chars`, count `chars`).
    DeleteSurroundingText { chars: usize },
}

pub enum IbusSignalView {
    UpdatePreeditText { text: Seq<char>, cursor_pos: u32, visible: bool, mode: u32 },
    CommitText(Seq<char>),
    /// The candidates and cursor of a table built by
    /// [`build_lookup_table`].
    UpdateLookupTable { candidates: Seq<Seq<char>>, cursor: u32, visible: bool },
    ShowLookupTable,
    HideLookupTable,
    DeleteSurroundingText(nat),
}

/// A table exactly as [`build_lookup_table`] makes it.
pub open spec fn standard_table(t: LookupTable) -> bool {
    &&& t.page_size == LOOKUP_PAGE_SIZE
    &&& t.cursor_visible
    &&& t.round
    &&& t.orientation == ORIENTATION_SYSTEM
    &&& strings_view(t.labels@) == slot_labels()
}

impl View for IbusSignal {
    type V = IbusSignalView;

    open spec fn view(&self) -> IbusSignalView {
        match self {
            IbusSignal::UpdatePreeditText { text, cursor_pos, visible, mode } =>
                IbusSignalView::UpdatePreeditText {
                text: text@,
                cursor_pos: *cursor_pos,
                visible: *visible,
                mode: *mode,
            },
            IbusSignal::CommitText(t) => IbusSignalView::CommitText(t@),
            IbusSignal::UpdateLookupTable { table, visible } =>
                IbusSignalView::UpdateLookupTable {
                candidates: strings_view(table.candidates@),
                cursor: table.cursor,
                visible: *visible,
            },
            IbusSignal::ShowLookupTable => IbusSignalView::ShowLookupTable,
            IbusSignal::HideLookupTable => IbusSignalView::HideLookupTable,
            IbusSignal::DeleteSurroundingText { chars } => IbusSignalView::DeleteSurroundingText(
                *chars as nat,
            ),
        }
    }
}

pub open spec fn signals_view(v: Seq<IbusSignal>) -> Seq<IbusSignalView> {
    v.map_values(|s: IbusSignal| s@)
}

/// Every lookup table among the signals is a standard one.
pub open spec fn tables_standard(v: Seq<IbusSignal>) -> bool {
    forall|i: int|
        0 <= i < v.len() ==> (#[trigger] v[i] matches IbusSignal::UpdateLookupTable { table, .. }
            ==> standard_table(table))
}

pub open spec fn displays(items: Seq<CandidateView>) -> Seq<Seq<char>> {
    items.map_values(|c: CandidateView| c.display@)
}

/// The signals for one bridge operation. A preedit goes out with the caret
/// at its end, visible unless empty, in COMMIT focus mode; a candidate list
/// as a lookup table shown at once.
pub open spec fn op_signals(op: ImeOpView) -> Seq<IbusSignalView> {
    match op {
        ImeOpView::Preedit(t) => seq![
            IbusSignalView::UpdatePreeditText {
                text: t,
                cursor_pos: t.len() as u32,
                visible: t.len() > 0,
                mode: PREEDIT_FOCUS_COMMIT,
            },
        ],
        ImeOpView::Commit(t) => seq![IbusSignalView::CommitText(t)],
        ImeOpView::Candidates { items, cursor } => seq![
            IbusSignalView::UpdateLookupTable {
                candidates: displays(items),
                cursor: cursor as u32,
                visible: true,
            },
            IbusSignalView::ShowLookupTable,
        ],
        ImeOpView::HideCandidates => seq![IbusSignalView::HideLookupTable],
        ImeOpView::DeleteSurrounding(n) => seq![IbusSignalView::DeleteSurroundingText(n)],
    }
}

pub open spec fn ops_signals(ops: Seq<ImeOpView>) -> Seq<IbusSignalView>
    decreases ops.len(),
{
    if ops.len() == 0 {
        Seq::empty()
    } else {
        ops_signals(ops.drop_last()) + op_signals(ops.last())
    }
}

fn push_signal(out: &mut Vec<IbusSignal>, s: IbusSignal)
    requires
        tables_standard(old(out)@),
        s matches IbusSignal::UpdateLookupTable { table, .. } ==> standard_table(table),
    ensures
        signals_view(final(out)@) == signals_view(old(out)@).push(s@),
        tables_standard(final(out)@),
{
    out.push(s);
    assert(signals_view(out@) =~= signals_view(old(out)@).push(s@));
    assert forall|i: int| 0 <= i < out@.len() implies (#[trigger] out@[i] matches IbusSignal::UpdateLookupTable { table, .. }
        ==> standard_table(table)) by {
        if i < old(out)@.len() {
            assert(out@[i] == old(out)@[i]);
        }
    }
}

fn display_strings(items: &Vec<CandidateView>) -> (r: Vec<String>)
    ensures
        strings_view(r@) == displays(items@),
{
    let mut out: Vec<String> = Vec::new();
    let n = items.len();
    for i in 0..n
        invariant
            n == items@.len(),
            out@.len() == i,
            strings_view(out@) == displays(items@).take(i as int),
    {
        let ghost before = out@;
        out.push(string_of(items[i].display.as_str()));
        proof {
            assert forall|k: int| 0 <= k < i implies out@[k]@ == items@[k].display@ by {
                assert(out@[k] == before[k]);
                assert(strings_view(before)[k] == displays(items@).take(i as int)[k]);
            }
            assert(strings_view(out@) =~= displays(items@).take(i + 1));
        }
    }
    assert(displays(items@).take(n as int) =~= displays(items@));
    out
}

/// The signals for the bridge's operations, in order. Signals queue before
/// the reply to `ProcessKeyEvent`, so a commit always lands before a key
/// that is handed back to the application.
pub fn emit_ops(ops: &Vec<ImeOp>) -> (r: Vec<IbusSignal>)
    ensures
        signals_view(r@) == ops_signals(ops_view(ops@)),
        tables_standard(r@),
{
    let mut out: Vec<IbusSignal> = Vec::new();
    let n = ops.len();
    assert(ops_view(ops@).take(0) =~= Seq::<ImeOpView>::empty());
    assert(signals_view(out@) =~= Seq::<IbusSignalView>::empty());
    for i in 0..n
        invariant
            n == ops@.len(),
            signals_view(out@) == ops_signals(ops_view(ops@).take(i as int)),
            tables_standard(out@),
    {
        let ghost start = signals_view(out@);
        proof {
            let t = ops_view(ops@).take(i + 1);
            assert(t.drop_last() =~= ops_view(ops@).take(i as int));
            assert(t.last() == ops@[i as int]@);
        }
        match &ops[i] {
            ImeOp::Preedit(text) => {
                let count = chars_of(text.as_str()).len();
                push_signal(
                    &mut out,
                    IbusSignal::UpdatePreeditText {
                        text: string_of(text.as_str()),
                        cursor_pos: count as u32,
                        visible: count > 0,
                        mode: PREEDIT_FOCUS_COMMIT,
                    },
                );
            },
            ImeOp::Commit(text) => {
                push_signal(&mut out, IbusSignal::CommitText(string_of(text.as_str())));
            },
            ImeOp::Candidates { items, cursor } => {
                let shown = display_strings(items);
                let table = build_lookup_table(&shown, *cursor as u32);
                push_signal(&mut out, IbusSignal::UpdateLookupTable { table, visible: true });
                push_signal(&mut out, IbusSignal::ShowLookupTable);
            },
            ImeOp::HideCandidates => {
                push_signal(&mut out, IbusSignal::HideLookupTable);
            },
            ImeOp::DeleteSurrounding(n) => {
                push_signal(&mut out, IbusSignal::DeleteSurroundingText { chars: *n });
            },
        }
        proof {
            let t = ops_view(ops@).take(i + 1);
            assert(signals_view(out@) =~= start + op_signals(t.last()));
        }
    }
    assert(ops_view(ops@).take(n as int) =~= ops_view(ops@));
    out
}

// ---------------------------------------------------------------------------
// Settings commands from the panel
// ---------------------------------------------------------------------------

/// The radio the panel shows checked: the current method, unless the IME
/// is off, which the panel shows as the English radio. `enabled` is the
/// shared on/off mirror (`None`: none wired, always on); `method` the
/// shared method (`None`: none wired, Telex).
pub fn current_radio(enabled: Option<bool>, method: Option<&str>) -> (r: String)
    ensures
        (enabled == Some(false)) ==> r@ == "english"@,
        (enabled != Some(false)) ==> r@ == (match method {
            Some(m) => m@,
            None => "telex"@,
        }),
{
    let on = match enabled {
        Some(e) => e,
        None => true,
    };
    if !on {
        return string_of("english");
    }
    match method {
        Some(m) => string_of(m),
        None => string_of("telex"),
    }
}

/// A panel command written to the settings store: the on/off switch and,
/// when given, the picked method. `None` when the store already says so
/// (nothing to save); otherwise the new `(enabled, input_method)`.
pub fn settings_command(on: bool, method: Option<&str>, saved_enabled: bool, saved_method: &str) -> (r:
    Option<(bool, String)>)
    ensures
        ({
            let changed = match method {
                Some(m) => saved_method@ != m@,
                None => false,
            };
            &&& (saved_enabled == on && !changed) ==> r is None
            &&& !(saved_enabled == on && !changed) ==> (r matches Some((e, m)) && e == on
                && m@ == (match method {
                Some(x) => x@,
                None => saved_method@,
            }))
        }),
{
    let method_changed = match method {
        Some(m) => !str_eq(saved_method, m),
        None => false,
    };
    if saved_enabled == on && !method_changed {
        return None;
    }
    let m = match method {
        Some(x) => string_of(x),
        None => string_of(saved_method),
    };
    Some((on, m))
}

/// What a `PropertyActivate` from the panel means.
#[derive(Debug, PartialEq, Eq)]
pub enum Activation {
    /// The settings launcher: open the configuration window.
    OpenConfig,
    /// A de-select of the radio group, or a name the engine cannot build.
    Ignore,
    /// The English radio: a command to turn the IME off (not a method).
    TurnOff,
    /// Switch to this method (and turn the IME on).
    Switch(String),
}

pub open spec fn activation_of(name: Seq<char>, state: u32, installed: Seq<Seq<char>>) -> ActivationView {
    if name == "config"@ {
        ActivationView::OpenConfig
    } else if !(state == PROP_STATE_CHECKED && engine_method(name, installed)) {
        ActivationView::Ignore
    } else if name == "english"@ {
        ActivationView::TurnOff
    } else {
        ActivationView::Switch(name)
    }
}

pub enum ActivationView {
    OpenConfig,
    Ignore,
    TurnOff,
    Switch(Seq<char>),
}

impl View for Activation {
    type V = ActivationView;

    open spec fn view(&self) -> ActivationView {
        match self {
            Activation::OpenConfig => ActivationView::OpenConfig,
            Activation::Ignore => ActivationView::Ignore,
            Activation::TurnOff => ActivationView::TurnOff,
            Activation::Switch(m) => ActivationView::Switch(m@),
        }
    }
}

/// Classify a `PropertyActivate(name, state)`.
pub fn property_activation(name: &str, state: u32, installed: &Vec<String>) -> (r: Activation)
    ensures
        r@ == activation_of(name@, state, strings_view(installed@)),
{
    if str_eq(name, "config") {
        return Activation::OpenConfig;
    }
    match crate::ibus_props::method_for_activation_in(name, state, installed) {
        None => Activation::Ignore,
        Some(m) => {
            if str_eq(m.as_str(), "english") {
                Activation::TurnOff
            } else {
                Activation::Switch(m)
            }
        },
    }
}

// ---------------------------------------------------------------------------
// The engine object
// ---------------------------------------------------------------------------

/// One IBus engine object (one per input context).
pub struct IbusEngine {
    bridge: EngineBridge,
    /// The method generation last applied.
    seen_generation: u64,
    /// Capability bits of the client, from the last `SetCapabilities`.
    caps: u32,
    /// The preedit model last applied: `true` = no-preedit.
    applied_no_preedit: bool,
}

pub struct IbusEngineView {
    pub bridge: BridgeModel,
    pub seen_generation: u64,
    pub caps: u32,
    pub applied_no_preedit: bool,
}

impl View for IbusEngine {
    type V = IbusEngineView;

    closed spec fn view(&self) -> IbusEngineView {
        IbusEngineView {
            bridge: self.bridge@,
            seen_generation: self.seen_generation,
            caps: self.caps,
            applied_no_preedit: self.applied_no_preedit,
        }
    }
}

/// The preedit model a client gets: no-preedit only when the user turned
/// the preedit off (`use_preedit == Some(false)`) and the client can delete
/// surrounding text; terminals and other clients without that stay on
/// preedit, where no delete is ever needed.
pub open spec fn no_preedit_for(use_preedit: Option<bool>, caps: u32) -> bool {
    use_preedit == Some(false) && caps & IBUS_CAP_SURROUNDING_TEXT != 0
}

/// Turn a key outcome into a step with no keyboard command.
fn step_of(outcome: KeyOutcome) -> (r: BridgeStep)
    ensures
        r.outcome@ == outcome@,
        r.keyboard@.len() == 0,
{
    BridgeStep { outcome, keyboard: Vec::new() }
}

impl IbusEngine {
    /// An engine for `method` whose method file is at `generation`.
    pub fn new_with_state(method: &str, generation: u64) -> (r: Self)
        ensures
            r@.bridge.method == method@,
            r@.bridge.preedit.len() == 0,
            r@.bridge.use_composition,
            r@.bridge.passthrough == (method@ == "english"@),
            r@.seen_generation == generation,
            r@.caps == 0,
            !r@.applied_no_preedit,
    {
        IbusEngine {
            bridge: EngineBridge::new(method),
            seen_generation: generation,
            caps: 0,
            applied_no_preedit: false,
        }
    }

    /// A stand-alone engine on `method` (no method file).
    pub fn new_with_method(method: &str) -> (r: Self)
        ensures
            r@.bridge.method == method@,
            r@.bridge.preedit.len() == 0,
            r@.bridge.passthrough == (method@ == "english"@),
            r@.seen_generation == 0,
    {
        Self::new_with_state(method, 0)
    }

    /// A stand-alone Telex engine.
    pub fn new() -> (r: Self)
        ensures
            r@.bridge.method == "telex"@,
            r@.bridge.preedit.len() == 0,
            !r@.bridge.passthrough,
    {
        proof {
            reveal_strlit("telex");
            reveal_strlit("english");
            assert("telex"@[0] != "english"@[0]);
        }
        Self::new_with_method("telex")
    }

    /// The engine the factory builds: on the shared method, starting on the
    /// persisted on/off state so a saved "off" holds from the first key.
    pub fn new_with_state_and_flags(method: &str, generation: u64, enabled: bool) -> (r: Self)
        ensures
            r@.bridge.method == method@,
            r@.bridge.preedit.len() == 0,
            r@.bridge.passthrough == (method@ == "english"@ || !enabled),
            r@.seen_generation == generation,
            r@.caps == 0,
            !r@.applied_no_preedit,
    {
        let mut e = Self::new_with_state(method, generation);
        if !enabled {
            let _ = e.bridge.set_enabled(false);
        }
        e
    }

    pub fn bridge(&self) -> (r: &EngineBridge)
        ensures
            r@ == self@.bridge,
    {
        &self.bridge
    }

    /// The current preedit text.
    pub fn preedit_text(&self) -> (r: String)
        ensures
            r@ == self@.bridge.preedit,
    {
        string_of(self.bridge.preedit())
    }

    /// Record the client's capability bits; the next key applies any model
    /// change they imply.
    pub fn set_capabilities(&mut self, caps: u32)
        ensures
            final(self)@ == (IbusEngineView { caps, ..old(self)@ }),
    {
        self.caps = caps;
    }

    /// Whether the method file moved on since this engine last looked.
    pub fn method_changed(&self, generation: u64) -> (r: bool)
        ensures
            r == (generation != self@.seen_generation),
    {
        generation != self.seen_generation
    }

    /// Apply a method switch made elsewhere. `built` says whether the host
    /// could build a keyboard for `method` (see
    /// [`EngineBridge::composition_for`]). Nothing happens when the
    /// generation is the one already seen; otherwise the generation is
    /// recorded (so a broken method is not retried every key) and the
    /// bridge rebuilds: `None` when the build failed, else the step to emit
    /// (the host then moves the panel radio to `method`).
    pub fn sync_method(&mut self, generation: u64, method: &str, built: bool) -> (r: Option<BridgeStep>)
        ensures
            generation == old(self)@.seen_generation ==> r is None && final(self)@ == old(self)@,
            generation != old(self)@.seen_generation ==> final(self)@.seen_generation == generation
                && final(self)@.caps == old(self)@.caps && final(self)@.applied_no_preedit
                == old(self)@.applied_no_preedit && ({
                &&& method@ == "english"@ ==> (r matches Some(s) && (final(self)@.bridge, s.outcome@)
                    == crate::engine_bridge::set_enabled_result(old(self)@.bridge, false))
                &&& method@ != "english"@ && !built ==> r is None && final(self)@.bridge == old(self)@.bridge
                &&& method@ != "english"@ && built ==> (r matches Some(s) && (final(self)@.bridge,
                    s.outcome@) == crate::engine_bridge::reset_result(
                    BridgeModel { method: method@, passthrough: false, ..old(self)@.bridge },
                ))
            }),
    {
        if generation == self.seen_generation {
            return None;
        }
        self.seen_generation = generation;
        self.bridge.rebuild(method, built)
    }

    /// Apply the shared on/off mirror (`None`: none wired). Nothing when the
    /// bridge already agrees; otherwise the bridge switches (clearing what is
    /// showing when it turns off) and the host moves the panel radio.
    pub fn sync_enabled(&mut self, want: Option<bool>) -> (r: Option<BridgeStep>)
        ensures
            (want is None || want == Some(!old(self)@.bridge.passthrough)) ==> r is None
                && final(self)@ == old(self)@,
            (want matches Some(w) && w == old(self)@.bridge.passthrough) ==> (r matches Some(s)
                && (final(self)@.bridge, s.outcome@) == crate::engine_bridge::set_enabled_result(
                old(self)@.bridge,
                want->0,
            ) && final(self)@ == (IbusEngineView { bridge: final(self)@.bridge, ..old(self)@ })),
    {
        match want {
            None => None,
            Some(w) => {
                if self.bridge.is_enabled() == w {
                    return None;
                }
                Some(self.bridge.set_enabled(w))
            },
        }
    }

    /// Apply the preedit model the setting and the client's capabilities
    /// call for (`use_preedit`: the shared mirror, `None` when none is
    /// wired; `repair`: the engine's word-boundary repair, used if a pending
    /// word has to be committed first). Nothing when the model already
    /// matches, or while the IME is off (recording the model then would
    /// wedge this check; the first key after switching on applies it).
    pub fn sync_use_preedit(&mut self, use_preedit: Option<bool>, repair: Option<String>) -> (r:
        Option<BridgeStep>)
        ensures
            ({
                let m = old(self)@;
                let effective = no_preedit_for(use_preedit, m.caps);
                &&& (effective == m.applied_no_preedit || m.bridge.passthrough) ==> r is None
                    && final(self)@ == m
                &&& !(effective == m.applied_no_preedit || m.bridge.passthrough) ==> {
                    let noop = m.bridge.method == "nom"@ || !effective == m.bridge.use_composition;
                    let f = crate::engine_bridge::flush_result(
                        m.bridge,
                        match repair {
                            Some(t) => Some(t@),
                            None => None,
                        },
                    );
                    &&& final(self)@.applied_no_preedit == effective
                    &&& final(self)@.seen_generation == m.seen_generation
                    &&& final(self)@.caps == m.caps
                    &&& (r matches Some(s) && (noop ==> final(self)@.bridge == m.bridge
                        && s.outcome@ == crate::engine_bridge::no_outcome()) && (!noop
                        ==> final(self)@.bridge == (BridgeModel {
                        use_composition: !effective,
                        ..f.0
                    }) && s.outcome@ == (OutcomeView { handled: true, ..f.1 })))
                }
            }),
    {
        let want_no_preedit = match use_preedit {
            Some(flag) => !flag,
            None => false,
        };
        let effective = want_no_preedit && (self.caps & IBUS_CAP_SURROUNDING_TEXT != 0);
        if effective == self.applied_no_preedit {
            return None;
        }
        if !self.bridge.is_enabled() {
            return None;
        }
        let step = self.bridge.set_use_composition(!effective, repair);
        self.applied_no_preedit = effective;
        Some(step)
    }

    /// Route a key press (after the syncs above).
    pub fn route_key(&self, keyval: u32, state: u32) -> (r: IbusKeyRoute)
        ensures
            r == key_route(keyval, state, self@.bridge.candidates.items.len() > 0),
    {
        if is_control_combo(state) {
            return IbusKeyRoute::FlushAndPass;
        }
        if is_modifier_keysym(keyval) {
            return IbusKeyRoute::Pass;
        }
        if self.bridge.candidate_count() > 0 {
            if let Some(k) = candidate_key(keyval) {
                return IbusKeyRoute::Candidate(k);
            }
        }
        if is_break_keysym(keyval) {
            return IbusKeyRoute::FlushAndPass;
        }
        match keysym_to_char(keyval) {
            None => IbusKeyRoute::Pass,
            Some(c) => if c == '\x08' {
                IbusKeyRoute::Backspace
            } else {
                IbusKeyRoute::Char(c)
            },
        }
    }

    /// Commit the pending word out of band (a shortcut or a navigation key).
    pub fn flush(&mut self, repair: Option<String>) -> (r: BridgeStep)
        ensures
            (final(self)@.bridge, r.outcome@) == crate::engine_bridge::flush_result(
                old(self)@.bridge,
                match repair {
                    Some(t) => Some(t@),
                    None => None,
                },
            ),
            r.keyboard@ == crate::engine_bridge::flush_cmds(old(self)@.bridge),
            final(self)@ == (IbusEngineView { bridge: final(self)@.bridge, ..old(self)@ }),
    {
        self.bridge.flush_pending(repair)
    }

    /// A key for the open popup, `LOOKUP_PAGE_SIZE` candidates to a page.
    pub fn candidate_key_step(&mut self, key: CandidateKey) -> (r: BridgeStep)
        ensures
            final(self)@ == (IbusEngineView { bridge: final(self)@.bridge, ..old(self)@ }),
            key == CandidateKey::Discard ==> (final(self)@.bridge, r.outcome@)
                == crate::engine_bridge::discard_result(old(self)@.bridge),
            key == CandidateKey::Discard ==> r.keyboard@ == seq![KeyboardCmd::Reset],
            key == CandidateKey::SelectCurrent && old(self)@.bridge.candidates.items.len() == 0
                ==> final(self)@ == old(self)@ && r.outcome@ == crate::engine_bridge::no_outcome()
                && r.keyboard@.len() == 0,
            key == CandidateKey::SelectCurrent && old(self)@.bridge.candidates.items.len() > 0
                ==> r.keyboard@ == seq![KeyboardCmd::Reset],
            key == CandidateKey::SelectCurrent && old(self)@.bridge.candidates.items.len() > 0 ==> (
            final(self)@.bridge, r.outcome@) == crate::engine_bridge::selection_result(
                old(self)@.bridge,
                old(self)@.bridge.candidates.items[old(self)@.bridge.candidates.cursor as int].value@,
            ),
            (key matches CandidateKey::SelectAtPage(i) && old(self)@.bridge.candidates.page_start(
                LOOKUP_PAGE_SIZE as nat,
            ) + i < old(self)@.bridge.candidates.items.len()) ==> (final(self)@.bridge, r.outcome@)
                == crate::engine_bridge::selection_result(
                old(self)@.bridge,
                old(self)@.bridge.candidates.items[old(self)@.bridge.candidates.page_start(
                    LOOKUP_PAGE_SIZE as nat,
                ) + key->SelectAtPage_0].value@,
            ),
            (key matches CandidateKey::SelectAtPage(i) && old(self)@.bridge.candidates.page_start(
                LOOKUP_PAGE_SIZE as nat,
            ) + i >= old(self)@.bridge.candidates.items.len()) ==> final(self)@.bridge == old(self)@.bridge && r.outcome@ == crate::engine_bridge::no_outcome(),
            (key == CandidateKey::Next || key == CandidateKey::Prev || key == CandidateKey::PageDown
                || key == CandidateKey::PageUp) ==> r.outcome@ == crate::engine_bridge::cursor_result(
                final(self)@.bridge.candidates,
            ) && r.keyboard@.len() == 0 && final(self)@.bridge.candidates.items == old(self)@.bridge.candidates.items,
            old(self)@.bridge.candidates.items.len() > 0 ==> (key == CandidateKey::Next ==> final(self)@.bridge.candidates.cursor == old(self)@.bridge.candidates.moved(
                crate::candidates::CandidateMotion::Next,
                0,
            )),
            old(self)@.bridge.candidates.items.len() > 0 ==> (key == CandidateKey::Prev ==> final(self)@.bridge.candidates.cursor == old(self)@.bridge.candidates.moved(
                crate::candidates::CandidateMotion::Prev,
                0,
            )),
            old(self)@.bridge.candidates.items.len() > 0 ==> (key == CandidateKey::PageDown
                ==> final(self)@.bridge.candidates.cursor == old(self)@.bridge.candidates.moved(
                crate::candidates::CandidateMotion::PageDown,
                LOOKUP_PAGE_SIZE as nat,
            )),
            old(self)@.bridge.candidates.items.len() > 0 ==> (key == CandidateKey::PageUp ==> final(self)@.bridge.candidates.cursor == old(self)@.bridge.candidates.moved(
                crate::candidates::CandidateMotion::PageUp,
                LOOKUP_PAGE_SIZE as nat,
            )),
    {
        let page = LOOKUP_PAGE_SIZE as usize;
        match key {
            CandidateKey::Discard => self.bridge.discard(),
            CandidateKey::SelectCurrent => self.bridge.select_current(),
            CandidateKey::Next => step_of(self.bridge.cursor_next()),
            CandidateKey::Prev => step_of(self.bridge.cursor_prev()),
            CandidateKey::PageDown => step_of(self.bridge.cursor_page_down(page)),
            CandidateKey::PageUp => step_of(self.bridge.cursor_page_up(page)),
            CandidateKey::SelectAtPage(i) => self.bridge.select_at_page(i, page),
        }
    }

    /// A typed character, with the keyboard's actions for it.
    pub fn process_char(
        &mut self,
        ch: char,
        actions: Option<Vec<crate::engine_bridge::EngineAction>>,
    ) -> (r: KeyOutcome)
        ensures
            final(self)@ == (IbusEngineView { bridge: final(self)@.bridge, ..old(self)@ }),
            old(self)@.bridge.passthrough ==> final(self)@.bridge == old(self)@.bridge && r@
                == crate::engine_bridge::no_outcome(),
            !old(self)@.bridge.passthrough ==> match actions {
                None => final(self)@.bridge == old(self)@.bridge && r@
                    == crate::engine_bridge::no_outcome(),
                Some(acts) => if old(self)@.bridge.use_composition {
                    (final(self)@.bridge, r@) == crate::engine_bridge::comp_result(
                        old(self)@.bridge,
                        ch,
                        crate::engine_bridge::actions_view(acts@),
                    )
                } else {
                    final(self)@.bridge == old(self)@.bridge && r@
                        == crate::engine_bridge::direct_result(
                        ch,
                        crate::engine_bridge::actions_view(acts@),
                    )
                },
            },
    {
        self.bridge.process_char(ch, actions)
    }

    /// BackSpace, with the keyboard's answer when
    /// [`EngineBridge::backspace_consults_keyboard`] asked for one.
    pub fn backspace(&mut self, action: Option<crate::engine_bridge::EngineAction>, buffer_after: &str) -> (r:
        KeyOutcome)
        ensures
            final(self)@ == (IbusEngineView { bridge: final(self)@.bridge, ..old(self)@ }),
            old(self)@.bridge.passthrough ==> final(self)@.bridge == old(self)@.bridge && r@
                == crate::engine_bridge::no_outcome(),
            !old(self)@.bridge.passthrough && old(self)@.bridge.use_composition ==> (
            final(self)@.bridge, r@) == crate::engine_bridge::comp_backspace_result(
                old(self)@.bridge,
                buffer_after@,
            ),
            !old(self)@.bridge.passthrough && !old(self)@.bridge.use_composition ==> final(self)@.bridge == old(self)@.bridge && r@ == crate::engine_bridge::direct_backspace_result(
                match action {
                    Some(a) => Some(a@),
                    None => None,
                },
            ),
    {
        self.bridge.backspace(action, buffer_after)
    }

    /// The panel clicked slot `index` of the current page with `button`:
    /// a left click commits that candidate, other buttons are ignored.
    pub fn candidate_clicked(&mut self, index: u32, button: u32) -> (r: Option<BridgeStep>)
        ensures
            button != LEFT_BUTTON ==> r is None && final(self)@ == old(self)@,
            button == LEFT_BUTTON ==> ({
                let c = old(self)@.bridge.candidates;
                let idx = c.page_start(LOOKUP_PAGE_SIZE as nat) + index;
                &&& final(self)@ == (IbusEngineView { bridge: final(self)@.bridge, ..old(self)@ })
                &&& idx >= c.items.len() ==> (r matches Some(s) && final(self)@.bridge == old(self)@.bridge && s.outcome@ == crate::engine_bridge::no_outcome())
                &&& idx < c.items.len() ==> (r matches Some(s) && (final(self)@.bridge, s.outcome@)
                    == crate::engine_bridge::selection_result(old(self)@.bridge, c.items[idx].value@))
            }),
    {
        if button != LEFT_BUTTON {
            return None;
        }
        Some(self.bridge.select_at_page(index as usize, LOOKUP_PAGE_SIZE as usize))
    }

    /// Move the highlight from the panel's own controls.
    pub fn cursor_up(&mut self) -> (r: KeyOutcome)
        ensures
            final(self)@ == (IbusEngineView { bridge: final(self)@.bridge, ..old(self)@ }),
            final(self)@.bridge == (BridgeModel {
                candidates: final(self)@.bridge.candidates,
                ..old(self)@.bridge
            }),
            final(self)@.bridge.candidates.items == old(self)@.bridge.candidates.items,
            old(self)@.bridge.candidates.items.len() == 0 ==> final(self)@ == old(self)@,
            old(self)@.bridge.candidates.items.len() > 0 ==> final(self)@.bridge.candidates.cursor
                == old(self)@.bridge.candidates.moved(
                crate::candidates::CandidateMotion::Prev,
                0,
            ),
            r@ == crate::engine_bridge::cursor_result(final(self)@.bridge.candidates),
    {
        self.bridge.cursor_prev()
    }

    pub fn cursor_down(&mut self) -> (r: KeyOutcome)
        ensures
            final(self)@ == (IbusEngineView { bridge: final(self)@.bridge, ..old(self)@ }),
            final(self)@.bridge == (BridgeModel {
                candidates: final(self)@.bridge.candidates,
                ..old(self)@.bridge
            }),
            final(self)@.bridge.candidates.items == old(self)@.bridge.candidates.items,
            old(self)@.bridge.candidates.items.len() == 0 ==> final(self)@ == old(self)@,
            old(self)@.bridge.candidates.items.len() > 0 ==> final(self)@.bridge.candidates.cursor
                == old(self)@.bridge.candidates.moved(
                crate::candidates::CandidateMotion::Next,
                0,
            ),
            r@ == crate::engine_bridge::cursor_result(final(self)@.bridge.candidates),
    {
        self.bridge.cursor_next()
    }

    pub fn page_up(&mut self) -> (r: KeyOutcome)
        ensures
            final(self)@ == (IbusEngineView { bridge: final(self)@.bridge, ..old(self)@ }),
            final(self)@.bridge == (BridgeModel {
                candidates: final(self)@.bridge.candidates,
                ..old(self)@.bridge
            }),
            final(self)@.bridge.candidates.items == old(self)@.bridge.candidates.items,
            old(self)@.bridge.candidates.items.len() == 0 ==> final(self)@ == old(self)@,
            old(self)@.bridge.candidates.items.len() > 0 ==> final(self)@.bridge.candidates.cursor
                == old(self)@.bridge.candidates.moved(
                crate::candidates::CandidateMotion::PageUp,
                LOOKUP_PAGE_SIZE as nat,
            ),
            r@ == crate::engine_bridge::cursor_result(final(self)@.bridge.candidates),
    {
        self.bridge.cursor_page_up(LOOKUP_PAGE_SIZE as usize)
    }

    pub fn page_down(&mut self) -> (r: KeyOutcome)
        ensures
            final(self)@ == (IbusEngineView { bridge: final(self)@.bridge, ..old(self)@ }),
            final(self)@.bridge == (BridgeModel {
                candidates: final(self)@.bridge.candidates,
                ..old(self)@.bridge
            }),
            final(self)@.bridge.candidates.items == old(self)@.bridge.candidates.items,
            old(self)@.bridge.candidates.items.len() == 0 ==> final(self)@ == old(self)@,
            old(self)@.bridge.candidates.items.len() > 0 ==> final(self)@.bridge.candidates.cursor
                == old(self)@.bridge.candidates.moved(
                crate::candidates::CandidateMotion::PageDown,
                LOOKUP_PAGE_SIZE as nat,
            ),
            r@ == crate::engine_bridge::cursor_result(final(self)@.bridge.candidates),
    {
        self.bridge.cursor_page_down(LOOKUP_PAGE_SIZE as usize)
    }

    /// Daemon reset: discard the composition without committing.
    pub fn reset(&mut self) -> (r: BridgeStep)
        ensures
            (final(self)@.bridge, r.outcome@) == crate::engine_bridge::discard_result(
                old(self)@.bridge,
            ),
            r.keyboard@ == seq![KeyboardCmd::Reset],
            final(self)@ == (IbusEngineView { bridge: final(self)@.bridge, ..old(self)@ }),
    {
        self.bridge.discard()
    }

    /// Focus loss (and `Disable`): the client commits the visible preedit
    /// itself, so only this side's state is discarded and nothing is
    /// emitted for it; a candidate popup, though, is hidden explicitly so it
    /// cannot linger over the next field. Returns the keyboard commands and
    /// whether to hide the lookup table.
    pub fn focus_out(&mut self) -> (r: (Vec<KeyboardCmd>, bool))
        ensures
            final(self)@.bridge == crate::engine_bridge::discard_result(old(self)@.bridge).0,
            final(self)@ == (IbusEngineView { bridge: final(self)@.bridge, ..old(self)@ }),
            r.0@ == seq![KeyboardCmd::Reset],
            r.1 == (old(self)@.bridge.candidates.items.len() > 0),
    {
        let had = self.bridge.candidate_count() > 0;
        let step = self.bridge.discard();
        (step.keyboard, had)
    }

    /// Carry out a panel activation on the bridge: the English radio turns
    /// the IME off, a method switch turns it on (the host also writes the
    /// method file and the settings, and moves the panel radio).
    pub fn apply_activation(&mut self, a: &Activation) -> (r: Option<BridgeStep>)
        ensures
            final(self)@ == (IbusEngineView { bridge: final(self)@.bridge, ..old(self)@ }),
            (a@ is OpenConfig || a@ is Ignore) ==> r is None && final(self)@ == old(self)@,
            a@ is TurnOff ==> (r matches Some(s) && (final(self)@.bridge, s.outcome@)
                == crate::engine_bridge::set_enabled_result(old(self)@.bridge, false)),
            a@ is Switch ==> (r matches Some(s) && (final(self)@.bridge, s.outcome@)
                == crate::engine_bridge::set_enabled_result(old(self)@.bridge, true)),
    {
        match a {
            Activation::OpenConfig | Activation::Ignore => None,
            Activation::TurnOff => Some(self.bridge.set_enabled(false)),
            Activation::Switch(_) => Some(self.bridge.set_enabled(true)),
        }
    }
}

/// While the candidate popup is open (and no Ctrl/Alt/Super chord is held)
/// it owns its keys, even those that otherwise end the word: Escape
/// discards, Return and Space pick the highlighted candidate, the arrows
/// move the highlight, Page Up/Down page, and 1 to 9 pick a slot of the
/// page. With the popup closed, Escape and the arrows instead commit the
/// word and pass to the application.
pub proof fn lemma_popup_owns_its_keys(keyval: u32, state: u32)
    ensures
        !control_combo(state) ==> {
            &&& key_route(KEY_ESCAPE, state, true) == IbusKeyRoute::Candidate(CandidateKey::Discard)
            &&& key_route(KEY_RETURN, state, true) == IbusKeyRoute::Candidate(
                CandidateKey::SelectCurrent,
            )
            &&& key_route(KEY_SPACE, state, true) == IbusKeyRoute::Candidate(
                CandidateKey::SelectCurrent,
            )
            &&& key_route(KEY_DOWN, state, true) == IbusKeyRoute::Candidate(CandidateKey::Next)
            &&& key_route(KEY_RIGHT, state, true) == IbusKeyRoute::Candidate(CandidateKey::Next)
            &&& key_route(KEY_UP, state, true) == IbusKeyRoute::Candidate(CandidateKey::Prev)
            &&& key_route(KEY_LEFT, state, true) == IbusKeyRoute::Candidate(CandidateKey::Prev)
            &&& key_route(KEY_PAGE_DOWN, state, true) == IbusKeyRoute::Candidate(
                CandidateKey::PageDown,
            )
            &&& key_route(KEY_PAGE_UP, state, true) == IbusKeyRoute::Candidate(
                CandidateKey::PageUp,
            )
            &&& (KEY_1 <= keyval <= KEY_9 ==> key_route(keyval, state, true)
                == IbusKeyRoute::Candidate(CandidateKey::SelectAtPage((keyval - KEY_1) as usize)))
            &&& key_route(KEY_ESCAPE, state, false) == IbusKeyRoute::FlushAndPass
            &&& key_route(KEY_DOWN, state, false) == IbusKeyRoute::FlushAndPass
        },
        control_combo(state) ==> key_route(keyval, state, true) == IbusKeyRoute::FlushAndPass,
{
}

} // verus!
