//! The `zwp_input_method_v1` engine's decisions (KDE Plasma's KWin).
//!
//! KWin spawns the input method itself and hands it a privileged socket
//! where only the v1 protocol exists: an `activate` event creates a
//! per-text-input context, keys arrive through the context's keyboard grab
//! and keys the engine does not consume are re-injected with
//! `context.key`. Output applies as sent: `commit_string`,
//! `delete_surrounding_text` (counted in bytes, and applied only right
//! after a `commit_string`), `preedit_cursor` and `preedit_string`.
//!
//! The host owns the Wayland objects and the keymap; it hands each event
//! here and sends the returned requests in order. Composition semantics are
//! the shared [`EngineBridge`]'s.

use crate::engine_bridge::{
    BridgeModel, BridgeStep, EngineAction, EngineBridge, ImeOp, ImeOpView, KeyOutcome,
    KeyboardCmd, ops_view,
};
use crate::keysym::{
    break_keysym, is_break_keysym, is_modifier_keysym, keysym_char, keysym_to_char,
    modifier_keysym,
};
use crate::text::{byte_len, char_utf8_len, chars_of, string_from_chars, string_of, utf8_len, utf8_seq_len};
use std::collections::HashSet;
use vstd::prelude::*;

verus! {

broadcast use vstd::std_specs::hash::group_hash_axioms;

/// text-input-v1 `content_purpose` password: keys bypass the engine.
pub const PURPOSE_PASSWORD_V1: u32 = 8;
/// text-input `content_purpose` terminal: terminals report surrounding text
/// yet ignore `delete_surrounding_text`, so they stay on the preedit model.
pub const PURPOSE_TERMINAL_V1: u32 = 12;

/// One request to the current input-method context, in order.
#[derive(Debug, PartialEq, Eq)]
pub enum V1Request {
    CommitString(String),
    /// Delete `bytes` bytes before the cursor (sent as index `-bytes`,
    /// length `bytes`).
    DeleteSurroundingText { bytes: usize },
    /// The preedit caret, as a byte offset.
    PreeditCursor { bytes: usize },
    /// The preedit, and the text the client inserts if the field resets.
    PreeditString { text: String, commit: String },
    /// Re-inject the key of the event being handled (press or release)
    /// with that event's serial and time.
    ForwardKey { pressed: bool },
}

pub enum V1RequestView {
    CommitString(Seq<char>),
    DeleteSurroundingText(nat),
    PreeditCursor(nat),
    PreeditString { text: Seq<char>, commit: Seq<char> },
    ForwardKey(bool),
}

impl View for V1Request {
    type V = V1RequestView;

    open spec fn view(&self) -> V1RequestView {
        match self {
            V1Request::CommitString(t) => V1RequestView::CommitString(t@),
            V1Request::DeleteSurroundingText { bytes } => V1RequestView::DeleteSurroundingText(
                *bytes as nat,
            ),
            V1Request::PreeditCursor { bytes } => V1RequestView::PreeditCursor(*bytes as nat),
            V1Request::PreeditString { text, commit } => V1RequestView::PreeditString {
                text: text@,
                commit: commit@,
            },
            V1Request::ForwardKey { pressed } => V1RequestView::ForwardKey(*pressed),
        }
    }
}

pub open spec fn requests_view(v: Seq<V1Request>) -> Seq<V1RequestView> {
    v.map_values(|r: V1Request| r@)
}

/// Requests and keyboard commands produced by one event.
#[derive(Debug)]
pub struct V1Step {
    pub requests: Vec<V1Request>,
    pub keyboard: Vec<KeyboardCmd>,
}

// ---------------------------------------------------------------------------
// Turning bridge operations into requests
// ---------------------------------------------------------------------------

/// How many characters a delete of `n` takes off `word`: all `n`, or the
/// whole word when it is shorter (a word that started before the engine was
/// watching is corrected only as far as it was tracked).
pub open spec fn popped_count(word: Seq<char>, n: nat) -> nat {
    if n <= word.len() {
        n
    } else {
        word.len()
    }
}

/// The word left after the delete, and the bytes deleted.
pub open spec fn pop_chars(word: Seq<char>, n: nat) -> (Seq<char>, nat) {
    let keep = word.len() - popped_count(word, n);
    (word.take(keep), utf8_seq_len(word.skip(keep)))
}

/// State of the request fold: the shadow word, the requests so far, and
/// whether a delete waits for the `commit_string` that applies it.
pub struct CommitAcc {
    pub word: Seq<char>,
    pub requests: Seq<V1RequestView>,
    pub delete_pending: bool,
}

pub open spec fn commit_step(a: CommitAcc, op: ImeOpView) -> CommitAcc {
    match op {
        ImeOpView::Commit(t) => CommitAcc {
            word: a.word + t,
            requests: a.requests.push(V1RequestView::CommitString(t)),
            delete_pending: false,
        },
        ImeOpView::DeleteSurrounding(n) => {
            let (w, bytes) = pop_chars(a.word, n);
            if bytes > 0 {
                CommitAcc {
                    word: w,
                    requests: a.requests.push(V1RequestView::DeleteSurroundingText(bytes)),
                    delete_pending: true,
                }
            } else {
                CommitAcc { word: w, ..a }
            }
        },
        _ => a,
    }
}

pub open spec fn commit_fold(a: CommitAcc, ops: Seq<ImeOpView>) -> CommitAcc
    decreases ops.len(),
{
    if ops.len() == 0 {
        a
    } else {
        commit_step(commit_fold(a, ops.drop_last()), ops.last())
    }
}

/// The requests for a batch of operations, given the shadow word before it
/// and the preedit after it, and the shadow word after it. Commits extend
/// the shadow; a delete of `n` characters becomes a delete of the bytes
/// those characters take; a delete left pending is flushed with an empty
/// commit; the preedit is then re-declared (commit requests clear it), with
/// itself as the text to insert on a field reset.
pub open spec fn commit_requests(word: Seq<char>, ops: Seq<ImeOpView>, preedit: Seq<char>) -> (
    Seq<V1RequestView>,
    Seq<char>,
) {
    let f = commit_fold(CommitAcc { word, requests: Seq::empty(), delete_pending: false }, ops);
    let flushed = if f.delete_pending {
        f.requests.push(V1RequestView::CommitString(Seq::empty()))
    } else {
        f.requests
    };
    (
        flushed + seq![
            V1RequestView::PreeditCursor(utf8_seq_len(preedit)),
            V1RequestView::PreeditString { text: preedit, commit: preedit },
        ],
        f.word,
    )
}

/// Where a key press goes.
#[derive(Clone, Copy, Debug, PartialEq, Eq)]
pub enum V1Route {
    /// Re-inject it untouched.
    Forward,
    /// Commit the pending word, then re-inject the key.
    FlushAndForward,
    Backspace,
    Char(char),
}

/// No keymap yet (`keysym` unknown) or a password field: the key bypasses
/// the engine. Ctrl, Alt or Super held, or a navigation key: the word is
/// committed first. Bare modifiers and keys without a character go through.
pub open spec fn press_route(keysym: Option<u32>, password: bool, combo: bool) -> V1Route {
    match keysym {
        None => V1Route::Forward,
        Some(k) => if password {
            V1Route::Forward
        } else if combo {
            V1Route::FlushAndForward
        } else if modifier_keysym(k) {
            V1Route::Forward
        } else if break_keysym(k) {
            V1Route::FlushAndForward
        } else {
            match keysym_char(k) {
                None => V1Route::Forward,
                Some(c) => if c == '\x08' {
                    V1Route::Backspace
                } else {
                    V1Route::Char(c)
                },
            }
        },
    }
}

/// The engine state of the v1 input method.
pub struct ImeV1Core {
    /// A context is live (between `activate` and its `deactivate`).
    active: bool,
    /// Latest `commit_state` serial, echoed by every request.
    serial: u32,
    content_purpose: u32,
    /// Keycodes whose press was consumed; their release is swallowed too.
    swallowed: HashSet<u32>,
    /// The current context reported surrounding text with content.
    saw_surrounding: bool,
    /// Composition model last pushed into the bridge (`true` = preedit).
    applied_composition: bool,
    /// The word as the application has it, in no-preedit mode: deletes are
    /// counted in characters by the bridge and in bytes by the protocol.
    committed_word: Vec<char>,
    bridge: EngineBridge,
    seen_generation: u64,
}

pub struct ImeV1View {
    pub active: bool,
    pub serial: u32,
    pub content_purpose: u32,
    pub swallowed: Set<u32>,
    pub saw_surrounding: bool,
    pub applied_composition: bool,
    pub committed_word: Seq<char>,
    pub bridge: BridgeModel,
    pub seen_generation: u64,
}

impl View for ImeV1Core {
    type V = ImeV1View;

    closed spec fn view(&self) -> ImeV1View {
        ImeV1View {
            active: self.active,
            serial: self.serial,
            content_purpose: self.content_purpose,
            swallowed: self.swallowed@,
            saw_surrounding: self.saw_surrounding,
            applied_composition: self.applied_composition,
            committed_word: self.committed_word@,
            bridge: self.bridge@,
            seen_generation: self.seen_generation,
        }
    }
}

fn new_requests() -> (r: Vec<V1Request>)
    ensures
        requests_view(r@) == Seq::<V1RequestView>::empty(),
{
    let r: Vec<V1Request> = Vec::new();
    assert(requests_view(r@) =~= Seq::<V1RequestView>::empty());
    r
}

fn push_request(v: &mut Vec<V1Request>, r: V1Request)
    ensures
        requests_view(final(v)@) == requests_view(old(v)@).push(r@),
{
    v.push(r);
    assert(requests_view(v@) =~= requests_view(old(v)@).push(r@));
}

/// Pop up to `n` characters off `word`, returning the bytes popped.
fn pop_word(word: &mut Vec<char>, n: usize) -> (bytes: usize)
    ensures
        (final(word)@, bytes as nat) == pop_chars(old(word)@, n as nat),
{
    let len = word.len();
    let keep = if n <= len {
        len - n
    } else {
        0
    };
    let removed = crate::text::sub_chars(word, keep, len);
    let bytes = byte_len(string_from_chars(removed.as_slice()).as_str());
    word.truncate(keep);
    assert(word@ =~= old(word)@.take(keep as int));
    assert(removed@ =~= old(word)@.skip(keep as int));
    bytes
}

impl ImeV1Core {
    /// The engine for `method` whose method file is at `generation`, with no
    /// context yet, composing with the preedit model.
    pub fn new(method: &str, generation: u64) -> (r: Self)
        ensures
            !r@.active,
            r@.serial == 0,
            r@.content_purpose == 0,
            r@.swallowed == Set::<u32>::empty(),
            !r@.saw_surrounding,
            r@.applied_composition,
            r@.committed_word.len() == 0,
            r@.bridge.method == method@,
            r@.bridge.preedit.len() == 0,
            r@.bridge.use_composition,
            r@.bridge.passthrough == (method@ == "english"@),
            r@.seen_generation == generation,
    {
        ImeV1Core {
            active: false,
            serial: 0,
            content_purpose: 0,
            swallowed: HashSet::new(),
            saw_surrounding: false,
            applied_composition: true,
            committed_word: Vec::new(),
            bridge: EngineBridge::new(method),
            seen_generation: generation,
        }
    }

    pub fn bridge(&self) -> (r: &EngineBridge)
        ensures
            r@ == self@.bridge,
    {
        &self.bridge
    }

    /// The serial the requests echo.
    pub fn serial(&self) -> (r: u32)
        ensures
            r == self@.serial,
    {
        self.serial
    }

    /// A password field: keys bypass the engine.
    pub fn sensitive_field(&self) -> (r: bool)
        ensures
            r == (self@.content_purpose == PURPOSE_PASSWORD_V1),
    {
        self.content_purpose == PURPOSE_PASSWORD_V1
    }

    /// Requests for a batch of bridge operations (nothing without a live
    /// context, and then the shadow word is left alone).
    fn commit_ops(&mut self, ops: &Vec<ImeOp>) -> (r: Vec<V1Request>)
        ensures
            !old(self)@.active ==> requests_view(r@) == Seq::<V1RequestView>::empty()
                && final(self)@ == old(self)@,
            old(self)@.active ==> ({
                let (reqs, w) = commit_requests(
                    old(self)@.committed_word,
                    ops_view(ops@),
                    old(self)@.bridge.preedit,
                );
                requests_view(r@) == reqs && final(self)@ == (ImeV1View {
                    committed_word: w,
                    ..old(self)@
                })
            }),
    {
        let mut reqs = new_requests();
        if !self.active {
            return reqs;
        }
        let ghost init = CommitAcc {
            word: self.committed_word@,
            requests: Seq::empty(),
            delete_pending: false,
        };
        let mut delete_pending = false;
        let n = ops.len();
        assert(ops_view(ops@).take(0) =~= Seq::<ImeOpView>::empty());
        for i in 0..n
            invariant
                n == ops@.len(),
                self@ == (ImeV1View { committed_word: self@.committed_word, ..old(self)@ }),
                ({
                    let f = commit_fold(init, ops_view(ops@).take(i as int));
                    &&& f.word == self@.committed_word
                    &&& f.requests == requests_view(reqs@)
                    &&& f.delete_pending == delete_pending
                }),
        {
            proof {
                let t = ops_view(ops@).take(i + 1);
                assert(t.drop_last() =~= ops_view(ops@).take(i as int));
                assert(t.last() == ops@[i as int]@);
            }
            match &ops[i] {
                ImeOp::Commit(text) => {
                    let cs = chars_of(text.as_str());
                    let mut j: usize = 0;
                    let ghost w0 = self.committed_word@;
                    while j < cs.len()
                        invariant
                            j <= cs@.len(),
                            cs@ == text@,
                            self.committed_word@ == w0 + cs@.take(j as int),
                            self@ == (ImeV1View {
                                committed_word: self@.committed_word,
                                ..old(self)@
                            }),
                        decreases cs@.len() - j,
                    {
                        self.committed_word.push(cs[j]);
                        assert(self.committed_word@ =~= w0 + cs@.take(j + 1));
                        j = j + 1;
                    }
                    assert(cs@.take(cs@.len() as int) =~= cs@);
                    push_request(&mut reqs, V1Request::CommitString(string_of(text.as_str())));
                    delete_pending = false;
                },
                ImeOp::DeleteSurrounding(chars) => {
                    let bytes = pop_word(&mut self.committed_word, *chars);
                    if bytes > 0 {
                        push_request(&mut reqs, V1Request::DeleteSurroundingText { bytes });
                        delete_pending = true;
                    }
                },
                _ => {},
            }
        }
        assert(ops_view(ops@).take(n as int) =~= ops_view(ops@));
        if delete_pending {
            proof {
                reveal_strlit("");
            }
            let empty = string_of("");
            assert(empty@ =~= Seq::<char>::empty());
            push_request(&mut reqs, V1Request::CommitString(empty));
        }
        let preedit = self.bridge.preedit();
        let len = byte_len(preedit);
        push_request(&mut reqs, V1Request::PreeditCursor { bytes: len });
        push_request(
            &mut reqs,
            V1Request::PreeditString { text: string_of(preedit), commit: string_of(preedit) },
        );
        reqs
    }

    /// A key release: swallowed when its press was consumed (once), else
    /// re-injected. Returns whether to re-inject it.
    pub fn key_released(&mut self, key: u32) -> (forward: bool)
        ensures
            forward == !old(self)@.swallowed.contains(key),
            final(self)@ == (ImeV1View { swallowed: old(self)@.swallowed.remove(key), ..old(self)@ }),
    {
        !self.swallowed.remove(&key)
    }

    /// Whether the method file moved on since this engine last looked.
    pub fn method_changed(&self, generation: u64) -> (r: bool)
        ensures
            r == (generation != self@.seen_generation),
    {
        generation != self.seen_generation
    }

    /// Apply a method switch made elsewhere (`built`: whether the host could
    /// build a keyboard for `method`). The generation is recorded either
    /// way; on a successful rebuild the bridge's operations go out and the
    /// shadow word starts afresh.
    pub fn sync_method(&mut self, generation: u64, method: &str, built: bool) -> (r: V1Step)
        ensures
            generation == old(self)@.seen_generation ==> final(self)@ == old(self)@
                && requests_view(r.requests@).len() == 0 && r.keyboard@.len() == 0,
            generation != old(self)@.seen_generation ==> final(self)@.seen_generation == generation
                && final(self)@.active == old(self)@.active && final(self)@.swallowed == old(
                self,
            )@.swallowed && final(self)@.applied_composition == old(self)@.applied_composition,
            generation != old(self)@.seen_generation && method@ == "english"@ ==> ({
                let b = crate::engine_bridge::set_enabled_result(old(self)@.bridge, false);
                let (reqs, _) = commit_requests(old(self)@.committed_word, b.1.ops, b.0.preedit);
                &&& final(self)@.bridge == b.0
                &&& final(self)@.committed_word.len() == 0
                &&& old(self)@.active ==> requests_view(r.requests@) == reqs
                &&& !old(self)@.active ==> requests_view(r.requests@).len() == 0
            }),
            generation != old(self)@.seen_generation && method@ != "english"@ && !built ==> final(
                self)@ == (ImeV1View { seen_generation: generation, ..old(self)@ })
                && requests_view(r.requests@).len() == 0 && r.keyboard@.len() == 0,
            generation != old(self)@.seen_generation && method@ != "english"@ && built ==> ({
                let b = crate::engine_bridge::reset_result(
                    BridgeModel { method: method@, passthrough: false, ..old(self)@.bridge },
                );
                let (reqs, _) = commit_requests(
                    old(self)@.committed_word,
                    b.1.ops,
                    b.0.preedit,
                );
                &&& final(self)@.bridge == b.0
                &&& final(self)@.committed_word.len() == 0
                &&& old(self)@.active ==> requests_view(r.requests@) == reqs
                &&& !old(self)@.active ==> requests_view(r.requests@).len() == 0
            }),
    {
        if generation == self.seen_generation {
            let r = V1Step { requests: new_requests(), keyboard: Vec::new() };
            return r;
        }
        self.seen_generation = generation;
        match self.bridge.rebuild(method, built) {
            Some(step) => {
                let reqs = self.commit_ops(&step.outcome.ops);
                self.committed_word.clear();
                V1Step { requests: reqs, keyboard: step.keyboard }
            },
            None => V1Step { requests: new_requests(), keyboard: Vec::new() },
        }
    }

    /// Apply the preedit model the setting and the field call for, never
    /// mid-word (a flush would commit a half-composed word): no-preedit only
    /// when the user turned the preedit off (`use_preedit` false), the field
    /// reported surrounding text with content and it is not a terminal.
    pub fn sync_use_preedit(&mut self, use_preedit: bool) -> (r: V1Step)
        ensures
            ({
                let want = use_preedit || !old(self)@.saw_surrounding || old(self)@.content_purpose
                    == PURPOSE_TERMINAL_V1;
                &&& (want == old(self)@.applied_composition || old(self)@.bridge.preedit.len() > 0)
                    ==> final(self)@ == old(self)@ && requests_view(r.requests@).len() == 0
                    && r.keyboard@.len() == 0
                &&& !(want == old(self)@.applied_composition || old(self)@.bridge.preedit.len() > 0)
                    ==> {
                    let m = old(self)@.bridge;
                    let noop = m.passthrough || m.method == "nom"@ || want == m.use_composition;
                    let f = crate::engine_bridge::flush_result(m, None);
                    let b = if noop {
                        (m, crate::engine_bridge::no_outcome())
                    } else {
                        (BridgeModel { use_composition: want, ..f.0 }, crate::engine_bridge::OutcomeView { handled: true, ..f.1 })
                    };
                    let (reqs, _) = commit_requests(old(self)@.committed_word, b.1.ops, b.0.preedit);
                    &&& final(self)@.applied_composition == want
                    &&& final(self)@.committed_word.len() == 0
                    &&& final(self)@.swallowed == old(self)@.swallowed
                    &&& final(self)@.seen_generation == old(self)@.seen_generation
                    &&& final(self)@.active == old(self)@.active
                    &&& final(self)@.bridge == b.0
                    &&& old(self)@.active ==> requests_view(r.requests@) == reqs
                    &&& !old(self)@.active ==> requests_view(r.requests@).len() == 0
                    &&& noop ==> r.keyboard@.len() == 0
                    &&& !noop ==> r.keyboard@ == crate::engine_bridge::flush_cmds(m).push(
                        KeyboardCmd::Rebuild { composition: want },
                    )
                }
            }),
    {
        let want = use_preedit || !self.saw_surrounding || self.content_purpose
            == PURPOSE_TERMINAL_V1;
        if want == self.applied_composition || !self.bridge.preedit().is_empty() {
            return V1Step { requests: new_requests(), keyboard: Vec::new() };
        }
        let step = self.bridge.set_use_composition(want, None);
        let reqs = self.commit_ops(&step.outcome.ops);
        self.applied_composition = want;
        self.committed_word.clear();
        V1Step { requests: reqs, keyboard: step.keyboard }
    }

    /// Route a key press: `keysym` from the keymap (`None` before one
    /// arrives), `combo` whether Ctrl, Alt or Super is in effect.
    pub fn route_press(&self, keysym: Option<u32>, combo: bool) -> (r: V1Route)
        ensures
            r == press_route(keysym, self@.content_purpose == PURPOSE_PASSWORD_V1, combo),
    {
        let k = match keysym {
            None => return V1Route::Forward,
            Some(k) => k,
        };
        if self.sensitive_field() {
            return V1Route::Forward;
        }
        if combo {
            return V1Route::FlushAndForward;
        }
        if is_modifier_keysym(k) {
            return V1Route::Forward;
        }
        if is_break_keysym(k) {
            return V1Route::FlushAndForward;
        }
        match keysym_to_char(k) {
            None => V1Route::Forward,
            Some(c) => if c == '\x08' {
                V1Route::Backspace
            } else {
                V1Route::Char(c)
            },
        }
    }

    /// A shortcut or navigation key: commit the pending word (with the
    /// engine's boundary `repair`), start a new shadow word, re-inject the
    /// key after the commit.
    pub fn flush_and_forward(&mut self, repair: Option<String>) -> (r: V1Step)
        ensures
            ({
                let f = crate::engine_bridge::flush_result(
                    old(self)@.bridge,
                    match repair {
                        Some(t) => Some(t@),
                        None => None,
                    },
                );
                let (reqs, _) = commit_requests(old(self)@.committed_word, f.1.ops, f.0.preedit);
                &&& final(self)@.bridge == f.0
                &&& final(self)@.committed_word.len() == 0
                &&& final(self)@.swallowed == old(self)@.swallowed
                &&& r.keyboard@ == crate::engine_bridge::flush_cmds(old(self)@.bridge)
                &&& old(self)@.active ==> requests_view(r.requests@) == reqs.push(
                    V1RequestView::ForwardKey(true),
                )
                &&& !old(self)@.active ==> requests_view(r.requests@) == seq![
                    V1RequestView::ForwardKey(true),
                ]
            }),
    {
        let step = self.bridge.flush_pending(repair);
        let mut reqs = self.commit_ops(&step.outcome.ops);
        self.committed_word.clear();
        push_request(&mut reqs, V1Request::ForwardKey { pressed: true });
        V1Step { requests: reqs, keyboard: step.keyboard }
    }

    /// After a typed character or backspace: send the operations (commits
    /// land before any re-injected key), then either swallow the key's
    /// release (handled) or re-inject the key, mirroring it in the shadow
    /// word in no-preedit mode.
    fn finish_key(&mut self, key: u32, typed: Option<char>, outcome: KeyOutcome) -> (r: Vec<V1Request>)
        ensures
            ({
                let o = old(self)@;
                let (reqs, w) = commit_requests(o.committed_word, outcome@.ops, o.bridge.preedit);
                let base = if o.active {
                    reqs
                } else {
                    Seq::<V1RequestView>::empty()
                };
                let word = if o.active {
                    w
                } else {
                    o.committed_word
                };
                &&& final(self)@.bridge == o.bridge
                &&& outcome@.handled ==> requests_view(r@) == base && final(self)@ == (ImeV1View {
                    committed_word: word,
                    swallowed: o.swallowed.insert(key),
                    ..o
                })
                &&& !outcome@.handled ==> requests_view(r@) == base.push(
                    V1RequestView::ForwardKey(true),
                ) && final(self)@ == (ImeV1View {
                    committed_word: if o.applied_composition {
                        word
                    } else {
                        match typed {
                            None => if word.len() > 0 {
                                word.drop_last()
                            } else {
                                word
                            },
                            Some(c) => word.push(c),
                        }
                    },
                    ..o
                })
            }),
    {
        let mut reqs = self.commit_ops(&outcome.ops);
        if outcome.handled {
            self.swallowed.insert(key);
        } else {
            if !self.applied_composition {
                match typed {
                    None => {
                        let _ = self.committed_word.pop();
                    },
                    Some(c) => {
                        self.committed_word.push(c);
                    },
                }
            }
            push_request(&mut reqs, V1Request::ForwardKey { pressed: true });
        }
        reqs
    }

    /// A typed character, with the keyboard's actions for it.
    pub fn type_char(&mut self, key: u32, ch: char, actions: Option<Vec<EngineAction>>) -> (r:
        Vec<V1Request>)
        ensures
            ({
                let o = old(self)@;
                let acts = match actions {
                    Some(a) => Some(crate::engine_bridge::actions_view(a@)),
                    None => None,
                };
                let stepped = if o.bridge.passthrough || acts is None {
                    (o.bridge, crate::engine_bridge::no_outcome())
                } else if o.bridge.use_composition {
                    crate::engine_bridge::comp_result(o.bridge, ch, acts->0)
                } else {
                    (o.bridge, crate::engine_bridge::direct_result(ch, acts->0))
                };
                let base = if o.active {
                    commit_requests(o.committed_word, stepped.1.ops, stepped.0.preedit).0
                } else {
                    Seq::<V1RequestView>::empty()
                };
                &&& final(self)@.bridge == stepped.0
                &&& final(self)@.seen_generation == o.seen_generation
                &&& final(self)@.applied_composition == o.applied_composition
                &&& stepped.1.handled ==> final(self)@.swallowed == o.swallowed.insert(key)
                    && requests_view(r@) == base
                &&& !stepped.1.handled ==> final(self)@.swallowed == o.swallowed
                    && requests_view(r@) == base.push(V1RequestView::ForwardKey(true))
            }),
    {
        let outcome = self.bridge.process_char(ch, actions);
        self.finish_key(key, Some(ch), outcome)
    }

    /// BackSpace, with the keyboard's answer when the bridge consults it.
    pub fn type_backspace(&mut self, key: u32, action: Option<EngineAction>, buffer_after: &str) -> (r:
        Vec<V1Request>)
        ensures
            ({
                let o = old(self)@;
                let stepped = if o.bridge.passthrough {
                    (o.bridge, crate::engine_bridge::no_outcome())
                } else if o.bridge.use_composition {
                    crate::engine_bridge::comp_backspace_result(o.bridge, buffer_after@)
                } else {
                    (
                        o.bridge,
                        crate::engine_bridge::direct_backspace_result(
                            match action {
                                Some(a) => Some(a@),
                                None => None,
                            },
                        ),
                    )
                };
                let base = if o.active {
                    commit_requests(o.committed_word, stepped.1.ops, stepped.0.preedit).0
                } else {
                    Seq::<V1RequestView>::empty()
                };
                &&& final(self)@.bridge == stepped.0
                &&& final(self)@.seen_generation == o.seen_generation
                &&& final(self)@.applied_composition == o.applied_composition
                &&& stepped.1.handled ==> final(self)@.swallowed == o.swallowed.insert(key)
                    && requests_view(r@) == base
                &&& !stepped.1.handled ==> final(self)@.swallowed == o.swallowed
                    && requests_view(r@) == base.push(V1RequestView::ForwardKey(true))
            }),
    {
        let outcome = self.bridge.backspace(action, buffer_after);
        self.finish_key(key, None, outcome)
    }

    /// A text input gained a context: everything per-field starts afresh
    /// (surrounding-text support is reassessed per field) and the
    /// composition is discarded without emitting anything.
    pub fn activate(&mut self) -> (r: Vec<KeyboardCmd>)
        ensures
            final(self)@.active,
            final(self)@.swallowed == Set::<u32>::empty(),
            final(self)@.content_purpose == 0,
            !final(self)@.saw_surrounding,
            final(self)@.committed_word.len() == 0,
            final(self)@.bridge == crate::engine_bridge::discard_result(old(self)@.bridge).0,
            final(self)@.serial == old(self)@.serial,
            final(self)@.applied_composition == old(self)@.applied_composition,
            final(self)@.seen_generation == old(self)@.seen_generation,
            r@ == seq![KeyboardCmd::Reset],
    {
        self.active = true;
        self.swallowed.clear();
        self.content_purpose = 0;
        self.saw_surrounding = false;
        self.committed_word.clear();
        self.bridge.discard().keyboard
    }

    /// A context was retired. For the current one, focus left: the client
    /// inserts the preedit itself, so only this side resets.
    pub fn deactivate(&mut self, current: bool) -> (r: Vec<KeyboardCmd>)
        ensures
            !current ==> final(self)@ == old(self)@ && r@.len() == 0,
            current ==> !final(self)@.active && final(self)@.swallowed == Set::<u32>::empty()
                && final(self)@.committed_word.len() == 0 && final(self)@.bridge
                == crate::engine_bridge::discard_result(old(self)@.bridge).0 && r@ == seq![
                KeyboardCmd::Reset,
            ] && final(self)@.content_purpose == old(self)@.content_purpose
                && final(self)@.saw_surrounding == old(self)@.saw_surrounding,
    {
        if !current {
            return Vec::new();
        }
        self.active = false;
        self.swallowed.clear();
        self.committed_word.clear();
        self.bridge.discard().keyboard
    }

    /// `commit_state`: the serial later requests echo.
    pub fn commit_state(&mut self, serial: u32)
        ensures
            final(self)@ == (ImeV1View { serial, ..old(self)@ }),
    {
        self.serial = serial;
    }

    /// `content_type`: the field's purpose.
    pub fn content_type(&mut self, purpose: u32)
        ensures
            final(self)@ == (ImeV1View { content_purpose: purpose, ..old(self)@ }),
    {
        self.content_purpose = purpose;
    }

    /// `reset`: the client reset the field; the composition is dropped
    /// without emitting (the preedit is already gone on the client side).
    pub fn reset(&mut self) -> (r: Vec<KeyboardCmd>)
        ensures
            final(self)@ == (ImeV1View {
                bridge: crate::engine_bridge::discard_result(old(self)@.bridge).0,
                swallowed: Set::<u32>::empty(),
                committed_word: Seq::<char>::empty(),
                ..old(self)@
            }),
            r@ == seq![KeyboardCmd::Reset],
    {
        self.swallowed.clear();
        self.committed_word.clear();
        self.bridge.discard().keyboard
    }

    /// `surrounding_text`: only text with content proves the client reports
    /// (and so applies deletes to) real surrounding text; an always-empty
    /// report proves nothing.
    pub fn surrounding_text(&mut self, text: &str)
        ensures
            final(self)@ == (ImeV1View {
                saw_surrounding: old(self)@.saw_surrounding || text@.len() > 0,
                ..old(self)@
            }),
    {
        if !text.is_empty() {
            self.saw_surrounding = true;
        }
    }
}

// ---------------------------------------------------------------------------
// Laws
// ---------------------------------------------------------------------------

/// A delete of `n` characters takes the last `min(n, |word|)` characters off
/// the shadow word, and the bytes it sends are the length of their UTF-8
/// encoding (the protocol counts bytes, the bridge counts characters).
pub proof fn lemma_delete_counts_bytes(word: Seq<char>, n: nat)
    ensures
        ({
            let k = if n <= word.len() { n } else { word.len() };
            let gone = word.subrange(word.len() - k, word.len() as int);
            let (rest, bytes) = pop_chars(word, n);
            &&& rest + gone == word
            &&& rest.len() == word.len() - k
            &&& bytes == vstd::utf8::encode_utf8(gone).len()
        }),
{
    let k = if n <= word.len() { n } else { word.len() };
    let gone = word.subrange(word.len() - k, word.len() as int);
    assert(word.skip(word.len() - k) =~= gone);
    assert(word.take(word.len() - k) + gone =~= word);
    crate::text::lemma_utf8_len_is_encoding_len(gone);
}

/// A correction in the no-preedit model (delete `n` characters, then commit
/// `text`) becomes, in order: a delete of the UTF-8 bytes of the characters
/// removed, the commit of `text`, then the preedit re-declared. The shadow
/// word loses those characters and gains `text`.
pub proof fn lemma_correction_requests(word: Seq<char>, n: nat, text: Seq<char>, preedit: Seq<char>)
    requires
        n > 0,
        word.len() > 0,
    ensures
        ({
            let k = if n <= word.len() { n } else { word.len() };
            let gone = word.subrange(word.len() - k, word.len() as int);
            let (reqs, w) = commit_requests(
                word,
                seq![ImeOpView::DeleteSurrounding(n), ImeOpView::Commit(text)],
                preedit,
            );
            &&& reqs == seq![
                V1RequestView::DeleteSurroundingText(vstd::utf8::encode_utf8(gone).len()),
                V1RequestView::CommitString(text),
                V1RequestView::PreeditCursor(vstd::utf8::encode_utf8(preedit).len()),
                V1RequestView::PreeditString { text: preedit, commit: preedit },
            ]
            &&& w == word.subrange(0, word.len() - k) + text
        }),
{
    let k = if n <= word.len() { n } else { word.len() };
    let gone = word.subrange(word.len() - k, word.len() as int);
    lemma_delete_counts_bytes(word, n);
    crate::text::lemma_utf8_len_is_encoding_len(preedit);
    crate::text::lemma_utf8_len_is_encoding_len(gone);
    // Each character takes at least one byte, so something is deleted.
    assert(gone.len() > 0);
    assert(vstd::utf8::encode_utf8(gone).len() > 0) by {
        let c = gone[0];
        vstd::utf8::char_is_scalar(c);
        assert(vstd::utf8::encode_utf8(gone) == vstd::utf8::encode_scalar(gone[0] as u32)
            + vstd::utf8::encode_utf8(gone.drop_first()));
    }
    let ops = seq![ImeOpView::DeleteSurrounding(n), ImeOpView::Commit(text)];
    let a0 = CommitAcc { word, requests: Seq::empty(), delete_pending: false };
    assert(ops.drop_last().drop_last() =~= Seq::<ImeOpView>::empty());
    assert(commit_fold(a0, ops.drop_last().drop_last()) == a0);
    let a1 = commit_fold(a0, ops.drop_last());
    assert(a1 == commit_step(a0, ImeOpView::DeleteSurrounding(n)));
    let a2 = commit_fold(a0, ops);
    assert(a2 == commit_step(a1, ImeOpView::Commit(text)));
    assert(word.take(word.len() - k) =~= word.subrange(0, word.len() - k));
}

} // verus!
