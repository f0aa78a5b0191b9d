//! Engine-action → IME-operation mapping shared by every preedit-model host
//! (IBus, Wayland-native, the macOS host).
//!
//! The keyboard engine runs in composition mode: it emits `UpdateComposition`
//! for the growing word and, at separators, `[ConfirmComposition(word),
//! Commit(sep)]`. The bridge folds those into [`ImeOp`]s plus a `handled`
//! verdict — when `handled` is false the backend forwards the key event
//! itself to the application (after any queued commit, so the committed word
//! always lands first).
//!
//! The bridge holds the composition state only. The keyboard engine itself
//! lives with the host: the host asks the engine and hands its answer in
//! ([`EngineBridge::process_char`], [`EngineBridge::backspace`],
//! [`EngineBridge::flush_pending`]), and carries out the [`KeyboardCmd`]s a
//! [`BridgeStep`] returns (reset the engine, let it collect learning, build a
//! keyboard with a different preedit model).

use crate::candidates::{CandidateModel, CandidateState, CandidateView, clone_views};
use crate::text::{str_eq, string_of};
use vstd::prelude::*;

verus! {

// ---------------------------------------------------------------------------
// Operations, outcomes and engine actions
// ---------------------------------------------------------------------------

/// One IME-visible operation, in emission order.
#[derive(Debug, PartialEq, Eq)]
pub enum ImeOp {
    /// Update the preedit to this exact text; empty clears the region.
    Preedit(String),
    /// Commit text to the application.
    Commit(String),
    /// Show/replace the candidate list with `cursor` highlighted (a global
    /// index into `items`; the backend's page size decides the page). Never
    /// emitted empty: [`ImeOp::HideCandidates`] clears the list.
    Candidates { items: Vec<CandidateView>, cursor: usize },
    /// Hide the candidate list.
    HideCandidates,
    /// Delete `n` characters immediately before the cursor from already
    /// committed text (no-preedit mode only).
    DeleteSurrounding(usize),
}

/// The mathematical content of an [`ImeOp`].
pub enum ImeOpView {
    Preedit(Seq<char>),
    Commit(Seq<char>),
    Candidates { items: Seq<CandidateView>, cursor: nat },
    HideCandidates,
    DeleteSurrounding(nat),
}

impl View for ImeOp {
    type V = ImeOpView;

    open spec fn view(&self) -> ImeOpView {
        match self {
            ImeOp::Preedit(t) => ImeOpView::Preedit(t@),
            ImeOp::Commit(t) => ImeOpView::Commit(t@),
            ImeOp::Candidates { items, cursor } => ImeOpView::Candidates {
                items: items@,
                cursor: *cursor as nat,
            },
            ImeOp::HideCandidates => ImeOpView::HideCandidates,
            ImeOp::DeleteSurrounding(n) => ImeOpView::DeleteSurrounding(*n as nat),
        }
    }
}

pub open spec fn ops_view(ops: Seq<ImeOp>) -> Seq<ImeOpView> {
    ops.map_values(|o: ImeOp| o@)
}

/// Result of feeding one event to the bridge.
#[derive(Debug)]
pub struct KeyOutcome {
    pub ops: Vec<ImeOp>,
    /// `false` → the backend must let the key itself reach the app.
    pub handled: bool,
}

impl Default for KeyOutcome {
    fn default() -> (r: Self)
        ensures
            r@ == no_outcome(),
    {
        let r = KeyOutcome { ops: Vec::new(), handled: false };
        assert(ops_view(r.ops@) =~= Seq::<ImeOpView>::empty());
        r
    }
}

/// The mathematical content of a [`KeyOutcome`].
pub struct OutcomeView {
    pub ops: Seq<ImeOpView>,
    pub handled: bool,
}

impl View for KeyOutcome {
    type V = OutcomeView;

    open spec fn view(&self) -> OutcomeView {
        OutcomeView { ops: ops_view(self.ops@), handled: self.handled }
    }
}

/// What the host must do to its keyboard engine, in order.
#[derive(Debug, Clone, Copy, PartialEq, Eq)]
pub enum KeyboardCmd {
    /// Let the engine record the word being committed for personal learning.
    CollectLearning,
    /// Reset the engine's composition.
    Reset,
    /// Replace the engine by one built for the current method with this
    /// preedit model (`true` = preedit/underline, `false` = commit-as-you-go).
    Rebuild { composition: bool },
}

/// An outcome plus the keyboard commands that go with it.
#[derive(Debug)]
pub struct BridgeStep {
    pub outcome: KeyOutcome,
    pub keyboard: Vec<KeyboardCmd>,
}

/// One action of the keyboard engine, as the bridge consumes it.
#[derive(Debug, PartialEq, Eq)]
pub enum EngineAction {
    /// The composition now reads `text`.
    UpdateComposition { text: String, cursor: usize },
    /// The composition is finished as `text`.
    ConfirmComposition(String),
    /// Finished text outside any composition.
    Commit(String),
    /// Delete `backspace_count` characters, then insert `text`.
    Replace { backspace_count: usize, text: String },
    /// Nothing to show.
    DoNothing,
    /// A candidate list for the current composition (an empty one hides
    /// the popup).
    ShowCandidates { candidates: Vec<CandidateView> },
    /// Drop the candidate list.
    HideCandidates,
}

pub enum EngineActionView {
    UpdateComposition(Seq<char>, nat),
    ConfirmComposition(Seq<char>),
    Commit(Seq<char>),
    Replace(nat, Seq<char>),
    DoNothing,
    ShowCandidates(Seq<CandidateView>),
    HideCandidates,
}

impl View for EngineAction {
    type V = EngineActionView;

    open spec fn view(&self) -> EngineActionView {
        match self {
            EngineAction::UpdateComposition { text, cursor } => EngineActionView::UpdateComposition(
                text@,
                *cursor as nat,
            ),
            EngineAction::ConfirmComposition(t) => EngineActionView::ConfirmComposition(t@),
            EngineAction::Commit(t) => EngineActionView::Commit(t@),
            EngineAction::Replace { backspace_count, text } => EngineActionView::Replace(
                *backspace_count as nat,
                text@,
            ),
            EngineAction::DoNothing => EngineActionView::DoNothing,
            EngineAction::ShowCandidates { candidates } => EngineActionView::ShowCandidates(
                candidates@,
            ),
            EngineAction::HideCandidates => EngineActionView::HideCandidates,
        }
    }
}

pub open spec fn actions_view(a: Seq<EngineAction>) -> Seq<EngineActionView> {
    a.map_values(|x: EngineAction| x@)
}

// ---------------------------------------------------------------------------
// The model
// ---------------------------------------------------------------------------

/// The mathematical content of an [`EngineBridge`].
pub struct BridgeModel {
    pub preedit: Seq<char>,
    pub candidates: CandidateModel,
    pub method: Seq<char>,
    pub use_composition: bool,
    pub passthrough: bool,
}

pub open spec fn empty_candidates() -> CandidateModel {
    CandidateModel::empty()
}

/// The `Candidates` operation for a candidate model.
pub open spec fn candidates_op(c: CandidateModel) -> ImeOpView {
    ImeOpView::Candidates { items: c.items, cursor: c.cursor }
}

/// `[HideCandidates]` when a list is showing, else nothing.
pub open spec fn hide_if_showing(c: CandidateModel) -> Seq<ImeOpView> {
    if c.items.len() > 0 {
        seq![ImeOpView::HideCandidates]
    } else {
        Seq::empty()
    }
}

/// Accumulator of the composition-mode fold.
pub struct CompAcc {
    pub preedit: Seq<char>,
    pub candidates: CandidateModel,
    pub ops: Seq<ImeOpView>,
    pub emitted: bool,
    pub pass_char: bool,
    pub committed: bool,
    pub refreshed: bool,
}

/// One engine action folded in composition (preedit) mode.
pub open spec fn comp_step(a: CompAcc, ch: char, act: EngineActionView) -> CompAcc {
    match act {
        EngineActionView::UpdateComposition(text, _) => CompAcc {
            preedit: text,
            ops: a.ops.push(ImeOpView::Preedit(text)),
            emitted: true,
            ..a
        },
        EngineActionView::ConfirmComposition(text) => CompAcc {
            preedit: Seq::empty(),
            ops: a.ops.push(ImeOpView::Preedit(Seq::empty())).push(ImeOpView::Commit(text)),
            emitted: true,
            committed: true,
            ..a
        },
        EngineActionView::Commit(text) => if text == seq![ch] {
            CompAcc { pass_char: true, ..a }
        } else {
            CompAcc {
                ops: a.ops.push(ImeOpView::Commit(text)),
                emitted: true,
                committed: true,
                ..a
            }
        },
        EngineActionView::ShowCandidates(items) => if items.len() == 0 {
            // An empty list is never shown: it hides the popup instead. The
            // key still counts as consumed, as for any candidate result.
            CompAcc {
                candidates: empty_candidates(),
                ops: a.ops + hide_if_showing(a.candidates),
                emitted: true,
                refreshed: true,
                ..a
            }
        } else {
            let c = CandidateModel { items, cursor: 0 };
            CompAcc {
                candidates: c,
                ops: a.ops.push(candidates_op(c)),
                emitted: true,
                refreshed: true,
                ..a
            }
        },
        EngineActionView::HideCandidates => CompAcc {
            candidates: empty_candidates(),
            ops: a.ops + hide_if_showing(a.candidates),
            refreshed: true,
            ..a
        },
        _ => a,
    }
}

pub open spec fn comp_fold(a: CompAcc, ch: char, acts: Seq<EngineActionView>) -> CompAcc
    decreases acts.len(),
{
    if acts.len() == 0 {
        a
    } else {
        comp_step(comp_fold(a, ch, acts.drop_last()), ch, acts.last())
    }
}

/// The bridge after a composition-mode key, and the outcome.
pub open spec fn comp_result(m: BridgeModel, ch: char, acts: Seq<EngineActionView>) -> (
    BridgeModel,
    OutcomeView,
) {
    let init = CompAcc {
        preedit: m.preedit,
        candidates: m.candidates,
        ops: Seq::empty(),
        emitted: false,
        pass_char: false,
        committed: false,
        refreshed: false,
    };
    let f = comp_fold(init, ch, acts);
    let stale = f.committed && !f.refreshed;
    let ops = if stale {
        f.ops + hide_if_showing(f.candidates)
    } else {
        f.ops
    };
    let cands = if stale {
        empty_candidates()
    } else {
        f.candidates
    };
    let handled = if f.pass_char {
        false
    } else if f.emitted {
        true
    } else {
        f.preedit.len() > 0
    };
    (
        BridgeModel { preedit: f.preedit, candidates: cands, ..m },
        OutcomeView { ops, handled },
    )
}

/// Accumulator of the direct-mode fold.
pub struct DirectAcc {
    pub ops: Seq<ImeOpView>,
    pub emitted: bool,
    pub pass_char: bool,
}

/// The operations a `Replace` turns into: delete (when there is anything to
/// delete), then insert (when there is anything to insert).
pub open spec fn replace_ops(n: nat, text: Seq<char>) -> Seq<ImeOpView> {
    (if n > 0 {
        seq![ImeOpView::DeleteSurrounding(n)]
    } else {
        Seq::empty()
    }) + (if text.len() > 0 {
        seq![ImeOpView::Commit(text)]
    } else {
        Seq::empty()
    })
}

pub open spec fn direct_step(a: DirectAcc, ch: char, act: EngineActionView) -> DirectAcc {
    match act {
        EngineActionView::Replace(n, text) => DirectAcc {
            ops: a.ops + replace_ops(n, text),
            emitted: true,
            ..a
        },
        EngineActionView::Commit(text) => if text == seq![ch] {
            DirectAcc { pass_char: true, ..a }
        } else {
            DirectAcc { ops: a.ops.push(ImeOpView::Commit(text)), emitted: true, ..a }
        },
        _ => a,
    }
}

pub open spec fn direct_fold(a: DirectAcc, ch: char, acts: Seq<EngineActionView>) -> DirectAcc
    decreases acts.len(),
{
    if acts.len() == 0 {
        a
    } else {
        direct_step(direct_fold(a, ch, acts.drop_last()), ch, acts.last())
    }
}

/// The outcome of a no-preedit (commit-as-you-go) key.
pub open spec fn direct_result(ch: char, acts: Seq<EngineActionView>) -> OutcomeView {
    let f = direct_fold(DirectAcc { ops: Seq::empty(), emitted: false, pass_char: false }, ch, acts);
    OutcomeView { ops: f.ops, handled: f.emitted && !f.pass_char }
}

/// Clearing what a keyboard swap or an off switch leaves on screen.
pub open spec fn reset_result(m: BridgeModel) -> (BridgeModel, OutcomeView) {
    let ops = (if m.preedit.len() > 0 {
        seq![ImeOpView::Preedit(Seq::empty())]
    } else {
        Seq::empty()
    }) + hide_if_showing(m.candidates);
    (
        BridgeModel { preedit: Seq::empty(), candidates: empty_candidates(), ..m },
        OutcomeView { ops, handled: true },
    )
}

pub open spec fn no_outcome() -> OutcomeView {
    OutcomeView { ops: Seq::empty(), handled: false }
}

pub open spec fn handled_nothing() -> OutcomeView {
    OutcomeView { ops: Seq::empty(), handled: true }
}

/// `set_enabled(enabled)`: the bridge and the outcome.
pub open spec fn set_enabled_result(m: BridgeModel, enabled: bool) -> (BridgeModel, OutcomeView) {
    if m.passthrough == enabled && !enabled {
        reset_result(BridgeModel { passthrough: true, ..m })
    } else {
        (BridgeModel { passthrough: !enabled, ..m }, handled_nothing())
    }
}

/// `flush_pending(repair)`: the bridge and the outcome.
pub open spec fn flush_result(m: BridgeModel, repair: Option<Seq<char>>) -> (
    BridgeModel,
    OutcomeView,
) {
    if m.preedit.len() == 0 {
        if m.candidates.items.len() > 0 {
            (
                BridgeModel { candidates: empty_candidates(), ..m },
                OutcomeView { ops: seq![ImeOpView::HideCandidates], handled: true },
            )
        } else {
            (m, no_outcome())
        }
    } else {
        let text = match repair {
            Some(t) => t,
            None => m.preedit,
        };
        (
            BridgeModel { preedit: Seq::empty(), candidates: empty_candidates(), ..m },
            OutcomeView {
                ops: seq![ImeOpView::Preedit(Seq::empty()), ImeOpView::Commit(text)]
                    + hide_if_showing(m.candidates),
                handled: true,
            },
        )
    }
}

/// The keyboard commands a flush carries.
pub open spec fn flush_cmds(m: BridgeModel) -> Seq<KeyboardCmd> {
    if m.preedit.len() == 0 {
        Seq::empty()
    } else {
        seq![KeyboardCmd::CollectLearning, KeyboardCmd::Reset]
    }
}

/// `discard()`: the bridge and the outcome.
pub open spec fn discard_result(m: BridgeModel) -> (BridgeModel, OutcomeView) {
    reset_result(m)
}

/// Outcome of committing a selected candidate value.
pub open spec fn selection_result(m: BridgeModel, value: Seq<char>) -> (BridgeModel, OutcomeView) {
    (
        BridgeModel { preedit: Seq::empty(), candidates: empty_candidates(), ..m },
        OutcomeView {
            ops: seq![
                ImeOpView::Preedit(Seq::empty()),
                ImeOpView::Commit(value),
                ImeOpView::HideCandidates,
            ],
            handled: true,
        },
    )
}

/// Outcome of a highlight move: the list again, when one is showing.
pub open spec fn cursor_result(c: CandidateModel) -> OutcomeView {
    if c.items.len() == 0 {
        no_outcome()
    } else {
        OutcomeView { ops: seq![candidates_op(c)], handled: true }
    }
}

/// Composition-mode backspace, given the engine's buffer afterwards.
pub open spec fn comp_backspace_result(m: BridgeModel, buffer_after: Seq<char>) -> (
    BridgeModel,
    OutcomeView,
) {
    if m.preedit.len() == 0 {
        (m, no_outcome())
    } else {
        (
            BridgeModel { preedit: buffer_after, candidates: empty_candidates(), ..m },
            OutcomeView {
                ops: seq![ImeOpView::Preedit(buffer_after)] + hide_if_showing(m.candidates),
                handled: true,
            },
        )
    }
}

/// No-preedit backspace, given the engine's answer (`None` on an engine error).
pub open spec fn direct_backspace_result(act: Option<EngineActionView>) -> OutcomeView {
    match act {
        Some(EngineActionView::Replace(n, text)) => OutcomeView {
            ops: replace_ops(n, text),
            handled: replace_ops(n, text).len() > 0,
        },
        Some(EngineActionView::Commit(text)) => OutcomeView {
            ops: seq![ImeOpView::Commit(text)],
            handled: true,
        },
        _ => no_outcome(),
    }
}

// ---------------------------------------------------------------------------
// The bridge
// ---------------------------------------------------------------------------

/// Composition state of one input context.
pub struct EngineBridge {
    preedit: String,
    /// Candidates for the current composition (Nôm) plus the highlight.
    candidates: CandidateState,
    /// The current method id (`"telex"`/`"vni"`/`"nom"`/a custom id).
    method: String,
    /// Whether the active keyboard uses the preedit (underline) model.
    use_composition: bool,
    /// The IME is OFF: every key returns unhandled with no operations.
    passthrough: bool,
}

impl View for EngineBridge {
    type V = BridgeModel;

    closed spec fn view(&self) -> BridgeModel {
        BridgeModel {
            preedit: self.preedit@,
            candidates: self.candidates@,
            method: self.method@,
            use_composition: self.use_composition,
            passthrough: self.passthrough,
        }
    }
}

fn empty_string() -> (r: String)
    ensures
        r@ == Seq::<char>::empty(),
{
    String::new()
}

fn new_ops() -> (r: Vec<ImeOp>)
    ensures
        r@.len() == 0,
        ops_view(r@) == Seq::<ImeOpView>::empty(),
{
    let r: Vec<ImeOp> = Vec::new();
    assert(ops_view(r@) =~= Seq::<ImeOpView>::empty());
    r
}

fn push_op(ops: &mut Vec<ImeOp>, op: ImeOp)
    ensures
        ops_view(final(ops)@) == ops_view(old(ops)@).push(op@),
{
    ops.push(op);
    proof {
        assert(ops_view(ops@) =~= ops_view(old(ops)@).push(op@));
    }
}

impl EngineBridge {
    /// A bridge for `method`, composing with the preedit model, nothing
    /// composed yet. `"english"` starts switched off.
    pub fn new(method: &str) -> (r: Self)
        ensures
            r@.preedit.len() == 0,
            r@.candidates == empty_candidates(),
            r@.method == method@,
            r@.use_composition,
            r@.passthrough == (method@ == "english"@),
    {
        let english = str_eq(method, "english");
        let c = CandidateState::default();
        proof {
            assert(c@ == empty_candidates());
        }
        EngineBridge {
            preedit: empty_string(),
            candidates: c,
            method: string_of(method),
            use_composition: true,
            passthrough: english,
        }
    }

    pub fn preedit(&self) -> (r: &str)
        ensures
            r@ == self@.preedit,
    {
        self.preedit.as_str()
    }

    pub fn method(&self) -> (r: &str)
        ensures
            r@ == self@.method,
    {
        self.method.as_str()
    }

    pub fn use_composition(&self) -> (r: bool)
        ensures
            r == self@.use_composition,
    {
        self.use_composition
    }

    /// Is the IME on?
    pub fn is_enabled(&self) -> (r: bool)
        ensures
            r == !self@.passthrough,
    {
        !self.passthrough
    }

    /// Whether the host should consult its keyboard for a character key
    /// (never while the IME is off).
    pub fn accepts_input(&self) -> (r: bool)
        ensures
            r == !self@.passthrough,
    {
        !self.passthrough
    }

    /// Whether a backspace needs the keyboard's answer: not while off, and
    /// not in preedit mode with nothing composed.
    pub fn backspace_consults_keyboard(&self) -> (r: bool)
        ensures
            r == (!self@.passthrough && !(self@.use_composition && self@.preedit.len() == 0)),
    {
        !self.passthrough && !(self.use_composition && self.preedit.as_str().is_empty())
    }

    /// Whether the keyboard for `method` must compose: Nôm always does (its
    /// candidate popup needs a preedit anchor), the others follow the
    /// bridge's preedit model.
    pub fn composition_for(&self, method: &str) -> (r: bool)
        ensures
            r == (method@ == "nom"@ || self@.use_composition),
    {
        str_eq(method, "nom") || self.use_composition
    }

    /// Drop any showing list, yielding `HideCandidates` only when one was
    /// actually showing.
    fn clear_candidates_into(&mut self, ops: &mut Vec<ImeOp>)
        ensures
            final(self)@ == (BridgeModel { candidates: empty_candidates(), ..old(self)@ }),
            ops_view(final(ops)@) == ops_view(old(ops)@) + hide_if_showing(old(self)@.candidates),
    {
        let had = self.candidates.clear();
        if had {
            push_op(ops, ImeOp::HideCandidates);
        }
        proof {
            assert(ops_view(ops@) =~= ops_view(old(ops)@) + hide_if_showing(
                old(self)@.candidates,
            ));
        }
    }

    /// The `Candidates` op for the current list + cursor.
    fn current_candidates_op(&self) -> (r: ImeOp)
        ensures
            r@ == candidates_op(self@.candidates),
    {
        ImeOp::Candidates {
            items: clone_views(self.candidates.items()),
            cursor: self.candidates.cursor(),
        }
    }

    /// Clear any live preedit and candidate popup (after a keyboard swap or
    /// when turning off).
    fn reset_outcome(&mut self) -> (r: KeyOutcome)
        ensures
            (final(self)@, r@) == reset_result(old(self)@),
    {
        let mut ops = new_ops();
        if !self.preedit.as_str().is_empty() {
            self.preedit = empty_string();
            push_op(&mut ops, ImeOp::Preedit(empty_string()));
        }
        self.clear_candidates_into(&mut ops);
        proof {
            let m = old(self)@;
            let want = (if m.preedit.len() > 0 {
                seq![ImeOpView::Preedit(Seq::empty())]
            } else {
                Seq::empty()
            }) + hide_if_showing(m.candidates);
            assert(ops_view(ops@) =~= want);
            assert(self.preedit@ =~= Seq::<char>::empty());
            assert(self@ == reset_result(m).0);
        }
        KeyOutcome { ops, handled: true }
    }

    /// Turn the IME on or off. Turning off resets the keyboard and clears
    /// what is showing, so the switch never strands half a word on screen.
    pub fn set_enabled(&mut self, enabled: bool) -> (r: BridgeStep)
        ensures
            (final(self)@, r.outcome@) == set_enabled_result(old(self)@, enabled),
            r.keyboard@ == (if old(self)@.passthrough == enabled && !enabled {
                seq![KeyboardCmd::Reset]
            } else {
                Seq::empty()
            }),
    {
        if self.passthrough == enabled {
            self.passthrough = !enabled;
            if !enabled {
                let outcome = self.reset_outcome();
                let mut keyboard = Vec::new();
                keyboard.push(KeyboardCmd::Reset);
                return BridgeStep { outcome, keyboard };
            }
        }
        let r = BridgeStep {
            outcome: KeyOutcome { ops: Vec::new(), handled: true },
            keyboard: Vec::new(),
        };
        proof {
            assert(ops_view(r.outcome.ops@) =~= Seq::<ImeOpView>::empty());
        }
        r
    }

    /// Feed one character, given the keyboard's actions for it (`None` when
    /// the keyboard reported an error). Dispatches to the preedit mapping or
    /// the no-preedit mapping by the active model; while off, nothing
    /// happens and the key passes through.
    pub fn process_char(&mut self, ch: char, actions: Option<Vec<EngineAction>>) -> (r:
        KeyOutcome)
        ensures
            old(self)@.passthrough ==> final(self)@ == old(self)@ && r@ == no_outcome(),
            !old(self)@.passthrough ==> match actions {
                None => final(self)@ == old(self)@ && r@ == no_outcome(),
                Some(acts) => if old(self)@.use_composition {
                    (final(self)@, r@) == comp_result(old(self)@, ch, actions_view(acts@))
                } else {
                    final(self)@ == old(self)@ && r@ == direct_result(ch, actions_view(acts@))
                },
            },
    {
        if self.passthrough {
            return KeyOutcome::default();
        }
        match actions {
            None => KeyOutcome::default(),
            Some(acts) => {
                if self.use_composition {
                    self.map_composition_actions(ch, &acts)
                } else {
                    map_direct_actions(ch, &acts)
                }
            },
        }
    }

    /// Preedit-model mapping: fold the engine's composition actions into
    /// operations (preedit updates, confirmed commits, Nôm candidates).
    fn map_composition_actions(&mut self, ch: char, actions: &Vec<EngineAction>) -> (r:
        KeyOutcome)
        ensures
            (final(self)@, r@) == comp_result(old(self)@, ch, actions_view(actions@)),
    {
        let ghost m0 = self@;
        let ghost init = CompAcc {
            preedit: m0.preedit,
            candidates: m0.candidates,
            ops: Seq::empty(),
            emitted: false,
            pass_char: false,
            committed: false,
            refreshed: false,
        };
        let mut ops = new_ops();
        let mut emitted = false;
        let mut pass_char = false;
        let mut committed = false;
        let mut refreshed = false;
        let n = actions.len();
        assert(actions_view(actions@).take(0) =~= Seq::<EngineActionView>::empty());
        for i in 0..n
            invariant
                n == actions@.len(),
                self@ == (BridgeModel {
                    preedit: self@.preedit,
                    candidates: self@.candidates,
                    ..m0
                }),
                ({
                    let f = comp_fold(init, ch, actions_view(actions@).take(i as int));
                    &&& f.preedit == self@.preedit
                    &&& f.candidates == self@.candidates
                    &&& f.ops == ops_view(ops@)
                    &&& f.emitted == emitted
                    &&& f.pass_char == pass_char
                    &&& f.committed == committed
                    &&& f.refreshed == refreshed
                }),
        {
            let ghost before = comp_fold(init, ch, actions_view(actions@).take(i as int));
            proof {
                let t = actions_view(actions@).take(i + 1);
                assert(t.drop_last() =~= actions_view(actions@).take(i as int));
                assert(t.last() == actions@[i as int]@);
            }
            match &actions[i] {
                EngineAction::UpdateComposition { text, .. } => {
                    self.preedit = text.clone();
                    push_op(&mut ops, ImeOp::Preedit(text.clone()));
                    emitted = true;
                },
                EngineAction::ConfirmComposition(text) => {
                    self.preedit = empty_string();
                    push_op(&mut ops, ImeOp::Preedit(empty_string()));
                    push_op(&mut ops, ImeOp::Commit(text.clone()));
                    emitted = true;
                    committed = true;
                },
                EngineAction::Commit(text) => {
                    if is_single_char(text, ch) {
                        pass_char = true;
                    } else {
                        push_op(&mut ops, ImeOp::Commit(text.clone()));
                        emitted = true;
                        committed = true;
                    }
                },
                EngineAction::ShowCandidates { candidates } => {
                    // An empty list hides the popup instead of showing
                    // nothing; either way the key is consumed.
                    if candidates.is_empty() {
                        self.clear_candidates_into(&mut ops);
                    } else {
                        self.candidates.set(clone_views(candidates.as_slice()));
                        let op = self.current_candidates_op();
                        push_op(&mut ops, op);
                    }
                    emitted = true;
                    refreshed = true;
                },
                EngineAction::HideCandidates => {
                    self.clear_candidates_into(&mut ops);
                    refreshed = true;
                },
                _ => {},
            }
        }
        assert(actions_view(actions@).take(n as int) =~= actions_view(actions@));
        if committed && !refreshed {
            self.clear_candidates_into(&mut ops);
        }
        let handled = if pass_char {
            false
        } else if emitted {
            true
        } else {
            !self.preedit.as_str().is_empty()
        };
        KeyOutcome { ops, handled }
    }

    /// Backspace, given the keyboard's answer when
    /// [`Self::backspace_consults_keyboard`] asked for one: the action the
    /// engine returned (`None` on an engine error) and the engine's buffer
    /// afterwards. In preedit mode the composition shrinks to that buffer; in
    /// no-preedit mode the engine's diff corrects already committed text.
    pub fn backspace(&mut self, action: Option<EngineAction>, buffer_after: &str) -> (r:
        KeyOutcome)
        ensures
            old(self)@.passthrough ==> final(self)@ == old(self)@ && r@ == no_outcome(),
            !old(self)@.passthrough && old(self)@.use_composition ==> (final(self)@, r@)
                == comp_backspace_result(old(self)@, buffer_after@),
            !old(self)@.passthrough && !old(self)@.use_composition ==> final(self)@ == old(
                self,
            )@ && r@ == direct_backspace_result(
                match action {
                    Some(a) => Some(a@),
                    None => None,
                },
            ),
    {
        if self.passthrough {
            return KeyOutcome::default();
        }
        if self.use_composition {
            if self.preedit.as_str().is_empty() {
                return KeyOutcome::default();
            }
            self.preedit = string_of(buffer_after);
            let mut ops = new_ops();
            push_op(&mut ops, ImeOp::Preedit(string_of(buffer_after)));
            self.clear_candidates_into(&mut ops);
            return KeyOutcome { ops, handled: true };
        }
        direct_backspace(action)
    }

    /// Commit the pending word out-of-band (shortcuts, navigation keys),
    /// with the engine's word-boundary repair when it has one. No-op when
    /// nothing composes, except that a stray candidate list is dropped.
    pub fn flush_pending(&mut self, repair: Option<String>) -> (r: BridgeStep)
        ensures
            (final(self)@, r.outcome@) == flush_result(
                old(self)@,
                match repair {
                    Some(t) => Some(t@),
                    None => None,
                },
            ),
            r.keyboard@ == flush_cmds(old(self)@),
    {
        if self.preedit.as_str().is_empty() {
            let mut ops = new_ops();
            let had = self.candidates.len() > 0;
            self.candidates.check_wf();
            self.clear_candidates_into(&mut ops);
            proof {
                let m = old(self)@;
                assert(ops_view(ops@) =~= hide_if_showing(m.candidates));
                if !had {
                    assert(m.candidates.items =~= empty_candidates().items);
                    assert(ops_view(ops@) =~= Seq::<ImeOpView>::empty());
                }
            }
            return BridgeStep { outcome: KeyOutcome { ops, handled: had }, keyboard: Vec::new() };
        }
        let text = match repair {
            Some(t) => t,
            None => self.preedit.clone(),
        };
        let mut keyboard = Vec::new();
        keyboard.push(KeyboardCmd::CollectLearning);
        keyboard.push(KeyboardCmd::Reset);
        self.preedit = empty_string();
        let mut ops = new_ops();
        let ghost t = text@;
        push_op(&mut ops, ImeOp::Preedit(empty_string()));
        push_op(&mut ops, ImeOp::Commit(text));
        self.clear_candidates_into(&mut ops);
        proof {
            assert(keyboard@ =~= seq![KeyboardCmd::CollectLearning, KeyboardCmd::Reset]);
            assert(ops_view(ops@) =~= seq![
                ImeOpView::Preedit(Seq::empty()),
                ImeOpView::Commit(t),
            ] + hide_if_showing(old(self)@.candidates));
        }
        BridgeStep { outcome: KeyOutcome { ops, handled: true }, keyboard }
    }

    /// Discard the composition without committing (daemon Reset semantics).
    pub fn discard(&mut self) -> (r: BridgeStep)
        ensures
            (final(self)@, r.outcome@) == discard_result(old(self)@),
            r.keyboard@ == seq![KeyboardCmd::Reset],
    {
        let outcome = self.reset_outcome();
        let mut keyboard = Vec::new();
        keyboard.push(KeyboardCmd::Reset);
        BridgeStep { outcome, keyboard }
    }

    /// Number of candidates currently offered (0 when none / not Nôm).
    pub fn candidate_count(&self) -> (r: usize)
        ensures
            r == self@.candidates.items.len(),
    {
        self.candidates.len()
    }

    /// The current candidate list and highlight.
    pub fn candidates(&self) -> (r: &CandidateState)
        ensures
            r@ == self@.candidates,
    {
        &self.candidates
    }

    /// Move the highlight (wrapping or clamped, see [`CandidateState`]) and
    /// re-emit the list so the panel repaints. Handled whenever a list is
    /// showing, even when a clamped jump did not move.
    fn cursor_outcome(&self) -> (r: KeyOutcome)
        ensures
            r@ == cursor_result(self@.candidates),
    {
        if self.candidates.is_empty() {
            return KeyOutcome::default();
        }
        let mut ops = new_ops();
        push_op(&mut ops, self.current_candidates_op());
        KeyOutcome { ops, handled: true }
    }

    /// Move the highlight to the next candidate, wrapping at the end.
    pub fn cursor_next(&mut self) -> (r: KeyOutcome)
        ensures
            final(self)@.candidates.items == old(self)@.candidates.items,
            old(self)@.candidates.items.len() > 0 ==> final(self)@.candidates.cursor == old(
                self,
            )@.candidates.moved(crate::candidates::CandidateMotion::Next, 0),
            final(self)@ == (BridgeModel { candidates: final(self)@.candidates, ..old(self)@ }),
            old(self)@.candidates.items.len() == 0 ==> final(self)@ == old(self)@,
            r@ == cursor_result(final(self)@.candidates),
    {
        self.candidates.move_next();
        self.cursor_outcome()
    }

    /// Move the highlight to the previous candidate, wrapping at the start.
    pub fn cursor_prev(&mut self) -> (r: KeyOutcome)
        ensures
            final(self)@.candidates.items == old(self)@.candidates.items,
            old(self)@.candidates.items.len() > 0 ==> final(self)@.candidates.cursor == old(
                self,
            )@.candidates.moved(crate::candidates::CandidateMotion::Prev, 0),
            final(self)@ == (BridgeModel { candidates: final(self)@.candidates, ..old(self)@ }),
            old(self)@.candidates.items.len() == 0 ==> final(self)@ == old(self)@,
            r@ == cursor_result(final(self)@.candidates),
    {
        self.candidates.move_prev();
        self.cursor_outcome()
    }

    /// Advance the highlight by one `page` (clamped to the last candidate).
    pub fn cursor_page_down(&mut self, page: usize) -> (r: KeyOutcome)
        ensures
            final(self)@.candidates.items == old(self)@.candidates.items,
            old(self)@.candidates.items.len() > 0 ==> final(self)@.candidates.cursor == old(
                self,
            )@.candidates.moved(crate::candidates::CandidateMotion::PageDown, page as nat),
            final(self)@ == (BridgeModel { candidates: final(self)@.candidates, ..old(self)@ }),
            old(self)@.candidates.items.len() == 0 ==> final(self)@ == old(self)@,
            r@ == cursor_result(final(self)@.candidates),
    {
        self.candidates.page_down(page);
        self.cursor_outcome()
    }

    /// Retreat the highlight by one `page` (clamped to the first candidate).
    pub fn cursor_page_up(&mut self, page: usize) -> (r: KeyOutcome)
        ensures
            final(self)@.candidates.items == old(self)@.candidates.items,
            old(self)@.candidates.items.len() > 0 ==> final(self)@.candidates.cursor == old(
                self,
            )@.candidates.moved(crate::candidates::CandidateMotion::PageUp, page as nat),
            final(self)@ == (BridgeModel { candidates: final(self)@.candidates, ..old(self)@ }),
            old(self)@.candidates.items.len() == 0 ==> final(self)@ == old(self)@,
            r@ == cursor_result(final(self)@.candidates),
    {
        self.candidates.page_up(page);
        self.cursor_outcome()
    }

    /// Finish a selection: reset the engine, clear the preedit BEFORE
    /// committing so the word is never momentarily doubled, then hide the
    /// now-stale list. `None` leaves everything alone, unhandled.
    fn selection_outcome(&mut self, value: Option<String>) -> (r: BridgeStep)
        requires
            value is Some ==> old(self)@.candidates.items.len() == 0,
        ensures
            match value {
                None => final(self)@ == old(self)@ && r.outcome@ == no_outcome()
                    && r.keyboard@.len() == 0,
                Some(v) => (final(self)@, r.outcome@) == selection_result(old(self)@, v@)
                    && r.keyboard@ == seq![KeyboardCmd::Reset],
            },
    {
        match value {
            None => BridgeStep { outcome: KeyOutcome::default(), keyboard: Vec::new() },
            Some(v) => {
                self.preedit = empty_string();
                self.candidates.check_wf();
                assert(self.candidates@.items =~= Seq::<CandidateView>::empty());
                let ghost t = v@;
                let mut ops = new_ops();
                push_op(&mut ops, ImeOp::Preedit(empty_string()));
                push_op(&mut ops, ImeOp::Commit(v));
                push_op(&mut ops, ImeOp::HideCandidates);
                let mut keyboard = Vec::new();
                keyboard.push(KeyboardCmd::Reset);
                proof {
                    assert(keyboard@ =~= seq![KeyboardCmd::Reset]);
                    assert(ops_view(ops@) =~= seq![
                        ImeOpView::Preedit(Seq::empty()),
                        ImeOpView::Commit(t),
                        ImeOpView::HideCandidates,
                    ]);
                    assert(self@.candidates == empty_candidates());
                }
                BridgeStep { outcome: KeyOutcome { ops, handled: true }, keyboard }
            },
        }
    }

    /// Commit the highlighted candidate (Space/Enter, panel double-click).
    pub fn select_current(&mut self) -> (r: BridgeStep)
        ensures
            old(self)@.candidates.items.len() == 0 ==> final(self)@ == old(self)@
                && r.outcome@ == no_outcome() && r.keyboard@.len() == 0,
            old(self)@.candidates.items.len() > 0 ==> (final(self)@, r.outcome@)
                == selection_result(
                old(self)@,
                old(self)@.candidates.items[old(self)@.candidates.cursor as int].value@,
            ) && r.keyboard@ == seq![KeyboardCmd::Reset],
    {
        let ghost m0 = self@;
        let taken = self.candidates.take_current();
        proof {
            assert(taken is Some ==> self@ == (BridgeModel {
                candidates: empty_candidates(),
                ..m0
            }));
        }
        self.selection_outcome(taken)
    }

    /// Commit the candidate at position `page_index` (0-based) WITHIN the
    /// page currently holding the cursor — number keys 1..=9 and panel
    /// clicks. Out of range is a no-op.
    pub fn select_at_page(&mut self, page_index: usize, page: usize) -> (r: BridgeStep)
        requires
            page > 0,
        ensures
            ({
                let idx = old(self)@.candidates.page_start(page as nat) + page_index;
                &&& idx >= old(self)@.candidates.items.len() ==> final(self)@ == old(self)@
                    && r.outcome@ == no_outcome() && r.keyboard@.len() == 0
                &&& idx < old(self)@.candidates.items.len() ==> (final(self)@, r.outcome@)
                    == selection_result(old(self)@, old(self)@.candidates.items[idx].value@)
                    && r.keyboard@ == seq![KeyboardCmd::Reset]
            }),
    {
        let ghost m0 = self@;
        let taken = self.candidates.take_at_page(page_index, page);
        proof {
            assert(taken is Some ==> self@ == (BridgeModel {
                candidates: empty_candidates(),
                ..m0
            }));
        }
        self.selection_outcome(taken)
    }

    /// Commit the candidate at global `index`. Out of range is a no-op.
    pub fn select_candidate(&mut self, index: usize) -> (r: BridgeStep)
        ensures
            index >= old(self)@.candidates.items.len() ==> final(self)@ == old(self)@
                && r.outcome@ == no_outcome() && r.keyboard@.len() == 0,
            index < old(self)@.candidates.items.len() ==> (final(self)@, r.outcome@)
                == selection_result(old(self)@, old(self)@.candidates.items[index as int].value@)
                && r.keyboard@ == seq![KeyboardCmd::Reset],
    {
        let ghost m0 = self@;
        let taken = self.candidates.take_at(index);
        proof {
            assert(taken is Some ==> self@ == (BridgeModel {
                candidates: empty_candidates(),
                ..m0
            }));
        }
        self.selection_outcome(taken)
    }

    /// Switch input method once the host has built a keyboard for it
    /// (`built`; see [`Self::composition_for`] for the preedit model to build
    /// with). A switch discards any live composition. `None` — nothing
    /// changes — when the build failed. The legacy id `"english"` turns the
    /// IME off instead and keeps the current method.
    pub fn rebuild(&mut self, method: &str, built: bool) -> (r: Option<BridgeStep>)
        ensures
            method@ == "english"@ ==> (r matches Some(s) && (final(self)@, s.outcome@)
                == set_enabled_result(old(self)@, false)),
            method@ != "english"@ && !built ==> r is None && final(self)@ == old(self)@,
            method@ != "english"@ && built ==> (r matches Some(s) && (final(self)@, s.outcome@)
                == reset_result(
                BridgeModel { method: method@, passthrough: false, ..old(self)@ },
            ) && s.keyboard@.len() == 0),
    {
        if str_eq(method, "english") {
            return Some(self.set_enabled(false));
        }
        if !built {
            return None;
        }
        self.method = string_of(method);
        self.passthrough = false;
        let outcome = self.reset_outcome();
        Some(BridgeStep { outcome, keyboard: Vec::new() })
    }

    /// Turn the preedit model on/off for Telex/VNI. No-op while off, for Nôm
    /// (always composes) and when unchanged. A pending word is COMMITTED first
    /// (with the engine's boundary `repair`), never lost; the host then
    /// rebuilds its keyboard with the new model.
    pub fn set_use_composition(&mut self, use_composition: bool, repair: Option<String>) -> (r:
        BridgeStep)
        ensures
            ({
                let m = old(self)@;
                let noop = m.passthrough || m.method == "nom"@ || use_composition
                    == m.use_composition;
                &&& noop ==> final(self)@ == m && r.outcome@ == no_outcome()
                    && r.keyboard@.len() == 0
                &&& !noop ==> {
                    let f = flush_result(
                        m,
                        match repair {
                            Some(t) => Some(t@),
                            None => None,
                        },
                    );
                    &&& final(self)@ == (BridgeModel { use_composition, ..f.0 })
                    &&& r.outcome@ == (OutcomeView { handled: true, ..f.1 })
                    &&& r.keyboard@ == flush_cmds(m).push(
                        KeyboardCmd::Rebuild { composition: use_composition },
                    )
                }
            }),
    {
        if self.passthrough || str_eq(self.method.as_str(), "nom") || use_composition
            == self.use_composition {
            return BridgeStep { outcome: KeyOutcome::default(), keyboard: Vec::new() };
        }
        let step = self.flush_pending(repair);
        self.use_composition = use_composition;
        let mut keyboard = step.keyboard;
        keyboard.push(KeyboardCmd::Rebuild { composition: use_composition });
        BridgeStep { outcome: KeyOutcome { ops: step.outcome.ops, handled: true }, keyboard }
    }
}

/// `text` is exactly the one character `ch` (the engine echoing the input
/// back: a pass-through separator).
fn is_single_char(text: &String, ch: char) -> (r: bool)
    ensures
        r == (text@ == seq![ch]),
{
    let v = crate::text::chars_of(text.as_str());
    if v.len() != 1 {
        return false;
    }
    let r = v[0] == ch;
    proof {
        if r {
            assert(v@ =~= seq![ch]);
        }
    }
    r
}

/// No-preedit (commit-as-you-go) mapping for Telex/VNI: the engine emits a
/// left-aligned diff per keystroke — `Replace`, `Commit`, or `DoNothing`.
fn map_direct_actions(ch: char, actions: &Vec<EngineAction>) -> (r: KeyOutcome)
    ensures
        r@ == direct_result(ch, actions_view(actions@)),
{
    let ghost init = DirectAcc { ops: Seq::empty(), emitted: false, pass_char: false };
    let mut ops = new_ops();
    let mut emitted = false;
    let mut pass_char = false;
    let n = actions.len();
    assert(actions_view(actions@).take(0) =~= Seq::<EngineActionView>::empty());
    for i in 0..n
        invariant
            n == actions@.len(),
            ({
                let f = direct_fold(init, ch, actions_view(actions@).take(i as int));
                &&& f.ops == ops_view(ops@)
                &&& f.emitted == emitted
                &&& f.pass_char == pass_char
            }),
    {
        proof {
            let t = actions_view(actions@).take(i + 1);
            assert(t.drop_last() =~= actions_view(actions@).take(i as int));
            assert(t.last() == actions@[i as int]@);
        }
        match &actions[i] {
            EngineAction::Replace { backspace_count, text } => {
                let ghost before = ops_view(ops@);
                push_replace(&mut ops, *backspace_count, text);
                emitted = true;
            },
            EngineAction::Commit(text) => {
                if is_single_char(text, ch) {
                    pass_char = true;
                } else {
                    push_op(&mut ops, ImeOp::Commit(text.clone()));
                    emitted = true;
                }
            },
            _ => {},
        }
    }
    assert(actions_view(actions@).take(n as int) =~= actions_view(actions@));
    KeyOutcome { ops, handled: emitted && !pass_char }
}

fn push_replace(ops: &mut Vec<ImeOp>, backspace_count: usize, text: &String)
    ensures
        ops_view(final(ops)@) == ops_view(old(ops)@) + replace_ops(backspace_count as nat, text@),
{
    if backspace_count > 0 {
        push_op(ops, ImeOp::DeleteSurrounding(backspace_count));
    }
    if !text.as_str().is_empty() {
        push_op(ops, ImeOp::Commit(text.clone()));
    }
    proof {
        assert(ops_view(ops@) =~= ops_view(old(ops)@) + replace_ops(
            backspace_count as nat,
            text@,
        ));
    }
}

/// No-preedit backspace: a `Replace` corrects the committed text in place, a
/// `Commit` inserts, anything else lets the application delete one
/// character itself (unhandled).
fn direct_backspace(action: Option<EngineAction>) -> (r: KeyOutcome)
    ensures
        r@ == direct_backspace_result(
            match action {
                Some(a) => Some(a@),
                None => None,
            },
        ),
{
    match action {
        Some(EngineAction::Replace { backspace_count, text }) => {
            let mut ops = new_ops();
            push_replace(&mut ops, backspace_count, &text);
            proof {
                assert(ops_view(Seq::<ImeOp>::empty()) =~= Seq::<ImeOpView>::empty());
            }
            let handled = ops.len() > 0;
            KeyOutcome { ops, handled }
        },
        Some(EngineAction::Commit(text)) => {
            let ghost t = text@;
            let mut ops = new_ops();
            proof {
                assert(ops_view(ops@) =~= Seq::<ImeOpView>::empty());
            }
            push_op(&mut ops, ImeOp::Commit(text));
            proof {
                assert(ops_view(ops@) =~= seq![ImeOpView::Commit(t)]);
            }
            KeyOutcome { ops, handled: true }
        },
        _ => KeyOutcome::default(),
    }
}

// ---------------------------------------------------------------------------
// Laws
// ---------------------------------------------------------------------------

/// At a separator the keyboard confirms the word and echoes the separator
/// back. The preedit is cleared before the word is committed, the key itself
/// is left unhandled so the host forwards it after the commit (the word
/// always lands first), and a popup left over from the word is hidden.
pub proof fn lemma_separator_commits_word_first(m: BridgeModel, ch: char, word: Seq<char>)
    ensures
        comp_result(
            m,
            ch,
            seq![
                EngineActionView::ConfirmComposition(word),
                EngineActionView::Commit(seq![ch]),
            ],
        ) == (
            BridgeModel { preedit: Seq::empty(), candidates: empty_candidates(), ..m },
            OutcomeView {
                ops: seq![ImeOpView::Preedit(Seq::empty()), ImeOpView::Commit(word)]
                    + hide_if_showing(m.candidates),
                handled: false,
            },
        ),
{
    let acts = seq![
        EngineActionView::ConfirmComposition(word),
        EngineActionView::Commit(seq![ch]),
    ];
    let init = CompAcc {
        preedit: m.preedit,
        candidates: m.candidates,
        ops: Seq::empty(),
        emitted: false,
        pass_char: false,
        committed: false,
        refreshed: false,
    };
    assert(acts.drop_last().drop_last() =~= Seq::<EngineActionView>::empty());
    assert(acts.drop_last().last() == EngineActionView::ConfirmComposition(word));
    assert(comp_fold(init, ch, acts.drop_last().drop_last()) == init);
    let f1 = comp_fold(init, ch, acts.drop_last());
    assert(f1 == comp_step(init, ch, EngineActionView::ConfirmComposition(word)));
    assert(Seq::<ImeOpView>::empty().push(ImeOpView::Preedit(Seq::empty())).push(
        ImeOpView::Commit(word),
    ) =~= seq![ImeOpView::Preedit(Seq::empty()), ImeOpView::Commit(word)]);
}

/// True when an engine action touches the candidate list.
pub open spec fn is_candidate_action(a: EngineActionView) -> bool {
    a is ShowCandidates || a is HideCandidates
}

proof fn lemma_fold_keeps_candidates(a: CompAcc, ch: char, acts: Seq<EngineActionView>)
    requires
        forall|i: int| 0 <= i < acts.len() ==> !is_candidate_action(#[trigger] acts[i]),
    ensures
        comp_fold(a, ch, acts).candidates == a.candidates,
        comp_fold(a, ch, acts).refreshed == a.refreshed,
        a.committed ==> comp_fold(a, ch, acts).committed,
        (exists|i: int| 0 <= i < acts.len() && #[trigger] acts[i] is ConfirmComposition)
            ==> comp_fold(a, ch, acts).committed,
    decreases acts.len(),
{
    if acts.len() > 0 {
        let init = acts.drop_last();
        assert forall|i: int| 0 <= i < init.len() implies !is_candidate_action(
            #[trigger] init[i],
        ) by {
            assert(init[i] == acts[i]);
        }
        lemma_fold_keeps_candidates(a, ch, init);
        if exists|i: int| 0 <= i < acts.len() && #[trigger] acts[i] is ConfirmComposition {
            let i = choose|i: int| 0 <= i < acts.len() && #[trigger] acts[i] is ConfirmComposition;
            if i < acts.len() - 1 {
                assert(init[i] == acts[i]);
            }
        }
    }
}

/// A word confirmed without any candidate action in the same round leaves
/// no popup behind: the old word's list is hidden (when one was showing) so
/// a later selection key cannot commit a candidate of the previous word.
pub proof fn lemma_commit_drops_stale_popup(m: BridgeModel, ch: char, acts: Seq<EngineActionView>)
    requires
        forall|i: int| 0 <= i < acts.len() ==> !is_candidate_action(#[trigger] acts[i]),
        exists|i: int| 0 <= i < acts.len() && #[trigger] acts[i] is ConfirmComposition,
    ensures
        comp_result(m, ch, acts).0.candidates == empty_candidates(),
        m.candidates.items.len() > 0 ==> comp_result(m, ch, acts).1.ops.last()
            == ImeOpView::HideCandidates,
{
    let init = CompAcc {
        preedit: m.preedit,
        candidates: m.candidates,
        ops: Seq::empty(),
        emitted: false,
        pass_char: false,
        committed: false,
        refreshed: false,
    };
    lemma_fold_keeps_candidates(init, ch, acts);
}

/// After `set_enabled(e)` the bridge is on exactly when `e`; turning an
/// active bridge off leaves no preedit and no popup on screen, and turning
/// it back on finds the method and preedit model as they were.
pub proof fn lemma_enable_switch(m: BridgeModel, enabled: bool)
    ensures
        set_enabled_result(m, enabled).0.passthrough == !enabled,
        set_enabled_result(m, enabled).0.method == m.method,
        set_enabled_result(m, enabled).0.use_composition == m.use_composition,
        !m.passthrough && !enabled ==> {
            &&& set_enabled_result(m, enabled).0.preedit.len() == 0
            &&& set_enabled_result(m, enabled).0.candidates == empty_candidates()
        },
{
}

/// Flushing twice is flushing once: the second flush finds nothing to
/// commit and nothing to hide.
pub proof fn lemma_flush_idempotent(
    m: BridgeModel,
    repair: Option<Seq<char>>,
    again: Option<Seq<char>>,
)
    ensures
        flush_result(flush_result(m, repair).0, again) == (flush_result(m, repair).0, no_outcome()),
        flush_cmds(flush_result(m, repair).0).len() == 0,
{
}

/// Discarding never commits anything: its only operations clear the preedit
/// and hide the popup, and afterwards nothing is composing.
pub proof fn lemma_discard_commits_nothing(m: BridgeModel)
    ensures
        forall|i: int|
            0 <= i < discard_result(m).1.ops.len() ==> !(#[trigger] discard_result(m).1.ops[i] is Commit),
        discard_result(m).0.preedit.len() == 0,
        discard_result(m).0.candidates == empty_candidates(),
{
}

/// Every `Candidates` operation of `ops` shows a non-empty list with the
/// first candidate highlighted.
pub open spec fn fresh_candidate_ops(ops: Seq<ImeOpView>) -> bool {
    forall|i: int|
        0 <= i < ops.len() && #[trigger] ops[i] is Candidates ==> ops[i]->items.len() > 0
            && ops[i]->cursor == 0
}

/// `ops` commits text.
pub open spec fn commits(ops: Seq<ImeOpView>) -> bool {
    exists|i: int| 0 <= i < ops.len() && #[trigger] ops[i] is Commit
}

/// `ops` shows a candidate list.
pub open spec fn shows_candidates(ops: Seq<ImeOpView>) -> bool {
    exists|i: int| 0 <= i < ops.len() && #[trigger] ops[i] is Candidates
}

/// What every prefix of the composition fold keeps.
pub open spec fn fold_sound(a: CompAcc) -> bool {
    &&& fresh_candidate_ops(a.ops)
    &&& commits(a.ops) ==> a.committed
    &&& a.refreshed && a.candidates.items.len() > 0 ==> shows_candidates(a.ops)
}

proof fn lemma_hide_if_showing_plain(c: CandidateModel)
    ensures
        forall|i: int|
            0 <= i < hide_if_showing(c).len() ==> #[trigger] hide_if_showing(c)[i]
                == ImeOpView::HideCandidates,
{
}

proof fn lemma_step_sound(a: CompAcc, ch: char, act: EngineActionView)
    requires
        fold_sound(a),
    ensures
        fold_sound(comp_step(a, ch, act)),
{
    let b = comp_step(a, ch, act);
    lemma_hide_if_showing_plain(a.candidates);
    assert forall|i: int| 0 <= i < a.ops.len() implies b.ops[i] == a.ops[i] by {}
    assert forall|i: int|
        0 <= i < b.ops.len() && #[trigger] b.ops[i] is Candidates implies b.ops[i]->items.len() > 0
        && b.ops[i]->cursor == 0 by {
        if i < a.ops.len() {
            assert(a.ops[i] is Candidates);
        } else {
            let k = i - a.ops.len();
            if act is HideCandidates || (act is ShowCandidates && act->0.len() == 0) {
                assert(hide_if_showing(a.candidates)[k] == ImeOpView::HideCandidates);
            }
        }
    }
    if commits(b.ops) {
        let i = choose|i: int| 0 <= i < b.ops.len() && #[trigger] b.ops[i] is Commit;
        if i < a.ops.len() {
            assert(a.ops[i] is Commit);
        } else {
            let k = i - a.ops.len();
            if act is HideCandidates || (act is ShowCandidates && act->0.len() == 0) {
                assert(hide_if_showing(a.candidates)[k] == ImeOpView::HideCandidates);
            }
        }
    }
    if b.refreshed && b.candidates.items.len() > 0 {
        if act is ShowCandidates && act->0.len() > 0 {
            assert(b.ops[a.ops.len() as int] is Candidates);
        } else {
            let i = choose|i: int| 0 <= i < a.ops.len() && #[trigger] a.ops[i] is Candidates;
            assert(b.ops[i] is Candidates);
        }
    }
}

proof fn lemma_fold_sound(a: CompAcc, ch: char, acts: Seq<EngineActionView>)
    requires
        fold_sound(a),
    ensures
        fold_sound(comp_fold(a, ch, acts)),
    decreases acts.len(),
{
    if acts.len() > 0 {
        lemma_fold_sound(a, ch, acts.drop_last());
        lemma_step_sound(comp_fold(a, ch, acts.drop_last()), ch, acts.last());
    }
}

/// A typed key never shows an empty candidate list: every list it shows is
/// non-empty, with the first candidate highlighted. And no popup outlives a
/// commit unless the same key showed a fresh list.
pub proof fn lemma_candidate_lists_never_empty(
    m: BridgeModel,
    ch: char,
    acts: Seq<EngineActionView>,
)
    ensures
        fresh_candidate_ops(comp_result(m, ch, acts).1.ops),
        commits(comp_result(m, ch, acts).1.ops) ==> shows_candidates(
            comp_result(m, ch, acts).1.ops,
        ) || comp_result(m, ch, acts).0.candidates.items.len() == 0,
{
    let init = CompAcc {
        preedit: m.preedit,
        candidates: m.candidates,
        ops: Seq::empty(),
        emitted: false,
        pass_char: false,
        committed: false,
        refreshed: false,
    };
    lemma_fold_sound(init, ch, acts);
    let f = comp_fold(init, ch, acts);
    let r = comp_result(m, ch, acts);
    if f.committed && !f.refreshed {
        lemma_hide_if_showing_plain(f.candidates);
        assert forall|i: int| 0 <= i < f.ops.len() implies r.1.ops[i] == f.ops[i] by {}
        assert forall|i: int|
            0 <= i < r.1.ops.len() && #[trigger] r.1.ops[i] is Candidates implies r.1.ops[i]->items.len()
            > 0 && r.1.ops[i]->cursor == 0 by {
            if i < f.ops.len() {
                assert(f.ops[i] is Candidates);
            } else {
                assert(hide_if_showing(f.candidates)[i - f.ops.len()] == ImeOpView::HideCandidates);
            }
        }
    } else {
        if commits(r.1.ops) && r.0.candidates.items.len() > 0 {
            assert(f.committed);
        }
    }
}

/// A highlight move re-shows the list only when there is one.
pub proof fn lemma_cursor_moves_show_no_empty_list(c: CandidateModel)
    ensures
        forall|i: int|
            0 <= i < cursor_result(c).ops.len() && #[trigger] cursor_result(c).ops[i] is Candidates
                ==> cursor_result(c).ops[i]->items.len() > 0,
{
}

/// The preedit the host shows after `ops`, when it showed `shown` before:
/// the text of the last `Preedit` operation, if any.
pub open spec fn last_preedit(ops: Seq<ImeOpView>, shown: Seq<char>) -> Seq<char>
    decreases ops.len(),
{
    if ops.len() == 0 {
        shown
    } else if ops.last() is Preedit {
        ops.last()->Preedit_0
    } else {
        last_preedit(ops.drop_last(), shown)
    }
}

proof fn lemma_last_preedit_hide(ops: Seq<ImeOpView>, shown: Seq<char>, c: CandidateModel)
    ensures
        last_preedit(ops + hide_if_showing(c), shown) == last_preedit(ops, shown),
{
    if c.items.len() > 0 {
        assert((ops + hide_if_showing(c)).drop_last() =~= ops);
    } else {
        assert(ops + hide_if_showing(c) =~= ops);
    }
}

proof fn lemma_fold_preedit(a: CompAcc, ch: char, acts: Seq<EngineActionView>, shown: Seq<char>)
    requires
        a.preedit == last_preedit(a.ops, shown),
    ensures
        comp_fold(a, ch, acts).preedit == last_preedit(comp_fold(a, ch, acts).ops, shown),
    decreases acts.len(),
{
    if acts.len() > 0 {
        lemma_fold_preedit(a, ch, acts.drop_last(), shown);
        let f = comp_fold(a, ch, acts.drop_last());
        let act = acts.last();
        assert(comp_fold(a, ch, acts) == comp_step(f, ch, act));
        match act {
            EngineActionView::UpdateComposition(text, _) => {
                assert(f.ops.push(ImeOpView::Preedit(text)).last() == ImeOpView::Preedit(text));
                assert(comp_step(f, ch, act).preedit == last_preedit(comp_step(f, ch, act).ops, shown));
            },
            EngineActionView::ConfirmComposition(text) => {
                let o = f.ops.push(ImeOpView::Preedit(Seq::empty()));
                assert(o.push(ImeOpView::Commit(text)).drop_last() =~= o);
                assert(o.drop_last() =~= f.ops);
                assert(last_preedit(o, shown) == Seq::<char>::empty());
                assert(comp_step(f, ch, act).preedit == last_preedit(comp_step(f, ch, act).ops, shown));
            },
            EngineActionView::Commit(text) => {
                assert(f.ops.push(ImeOpView::Commit(text)).drop_last() =~= f.ops);
                assert(comp_step(f, ch, act).preedit == last_preedit(comp_step(f, ch, act).ops, shown));
            },
            EngineActionView::ShowCandidates(items) => {
                lemma_last_preedit_hide(f.ops, shown, f.candidates);
                let c = CandidateModel { items, cursor: 0 };
                assert(f.ops.push(candidates_op(c)).drop_last() =~= f.ops);
                assert(comp_step(f, ch, act).preedit == last_preedit(comp_step(f, ch, act).ops, shown));
            },
            EngineActionView::HideCandidates => {
                lemma_last_preedit_hide(f.ops, shown, f.candidates);
            },
            _ => {},
        }
    }
}

/// The bridge's preedit is always what the host was last shown: after a
/// typed key, after a backspace and after a flush, the bridge holds the text
/// of the last `Preedit` operation it emitted (or its old preedit when it
/// emitted none).
pub proof fn lemma_preedit_matches_what_was_shown(
    m: BridgeModel,
    ch: char,
    acts: Seq<EngineActionView>,
    buffer_after: Seq<char>,
    repair: Option<Seq<char>>,
)
    ensures
        comp_result(m, ch, acts).0.preedit == last_preedit(
            comp_result(m, ch, acts).1.ops,
            m.preedit,
        ),
        comp_backspace_result(m, buffer_after).0.preedit == last_preedit(
            comp_backspace_result(m, buffer_after).1.ops,
            m.preedit,
        ),
        flush_result(m, repair).0.preedit == last_preedit(flush_result(m, repair).1.ops, m.preedit),
{
    let init = CompAcc {
        preedit: m.preedit,
        candidates: m.candidates,
        ops: Seq::empty(),
        emitted: false,
        pass_char: false,
        committed: false,
        refreshed: false,
    };
    lemma_fold_preedit(init, ch, acts, m.preedit);
    let f = comp_fold(init, ch, acts);
    lemma_last_preedit_hide(f.ops, m.preedit, f.candidates);
    lemma_last_preedit_hide(seq![ImeOpView::Preedit(buffer_after)], m.preedit, m.candidates);
    assert(seq![ImeOpView::Preedit(buffer_after)].drop_last() =~= Seq::<ImeOpView>::empty());
    if m.preedit.len() > 0 {
        let text = match repair {
            Some(t) => t,
            None => m.preedit,
        };
        let two = seq![ImeOpView::Preedit(Seq::empty()), ImeOpView::Commit(text)];
        lemma_last_preedit_hide(two, m.preedit, m.candidates);
        assert(two.drop_last() =~= seq![ImeOpView::Preedit(Seq::<char>::empty())]);
        assert(two.drop_last().drop_last() =~= Seq::<ImeOpView>::empty());
        assert(last_preedit(two.drop_last(), m.preedit) == Seq::<char>::empty());
        assert(last_preedit(two, m.preedit) == Seq::<char>::empty());
    } else if m.candidates.items.len() > 0 {
        assert(seq![ImeOpView::HideCandidates].drop_last() =~= Seq::<ImeOpView>::empty());
        assert(last_preedit(Seq::<ImeOpView>::empty(), m.preedit) == m.preedit);
    }
}

/// A candidate list exists only in the preedit model: the no-preedit model
/// has no composition for a list to belong to.
pub open spec fn list_only_when_composing(m: BridgeModel) -> bool {
    !m.use_composition ==> m.candidates.items.len() == 0
}

/// Every step of the bridge keeps a candidate list out of the no-preedit
/// model: turning the preedit off flushes the list away, a no-preedit key
/// or backspace leaves the bridge as it was, and every other step keeps the
/// model and either clears the list or keeps it. (A new bridge starts with
/// no list.)
pub proof fn lemma_no_list_without_preedit(
    m: BridgeModel,
    ch: char,
    acts: Seq<EngineActionView>,
    enabled: bool,
    repair: Option<Seq<char>>,
    value: Seq<char>,
    buffer_after: Seq<char>,
)
    requires
        list_only_when_composing(m),
    ensures
        m.use_composition ==> list_only_when_composing(comp_result(m, ch, acts).0),
        m.use_composition ==> list_only_when_composing(comp_backspace_result(m, buffer_after).0),
        list_only_when_composing(set_enabled_result(m, enabled).0),
        list_only_when_composing(flush_result(m, repair).0),
        list_only_when_composing(discard_result(m).0),
        list_only_when_composing(selection_result(m, value).0),
        list_only_when_composing(BridgeModel { use_composition: false, ..flush_result(m, repair).0 }),
{
}

/// A backspace in the preedit model is the key's only effect while a word
/// is being composed: it is consumed whatever the engine's buffer is
/// afterwards (empty included), so the application never deletes a
/// committed character as well. With nothing composed it passes through
/// untouched.
pub proof fn lemma_backspace_in_composition_is_consumed(m: BridgeModel, buffer_after: Seq<char>)
    ensures
        m.preedit.len() > 0 ==> comp_backspace_result(m, buffer_after).1.handled,
        m.preedit.len() > 0 ==> comp_backspace_result(m, buffer_after).0.preedit == buffer_after
            && comp_backspace_result(m, buffer_after).1.ops[0] == ImeOpView::Preedit(
            buffer_after,
        ),
        m.preedit.len() == 0 ==> !comp_backspace_result(m, buffer_after).1.handled
            && comp_backspace_result(m, buffer_after).1.ops.len() == 0
            && comp_backspace_result(m, buffer_after).0 == m,
{
}

} // verus!
