//! `buttre-test explain <method> <raw> [--learning]`: a per-layer diagnosis
//! of why a raw keystroke sequence renders the way it does.
//!
//! The diagnosis itself drives the composition engine; this module holds
//! the command line and the screen simulation it prints: what the
//! application would show after each keystroke, given the engine's actions.

use crate::engine_bridge::{EngineAction, EngineActionView, actions_view};
use crate::text::{chars_of, str_eq, string_of};
use vstd::prelude::*;

verus! {

/// The usage line.
pub open spec fn usage() -> Seq<char> {
    "usage: buttre-test explain <telex|vni> <raw> [--learning]"@
}

/// The methods the explainer knows.
#[derive(Clone, Copy, Debug, PartialEq, Eq)]
pub enum ExplainMethod {
    Telex,
    Vni,
}

/// A parsed command line.
#[derive(Debug, PartialEq, Eq)]
pub struct ExplainArgs {
    pub method: ExplainMethod,
    pub raw: String,
    /// Load this machine's learning store too.
    pub with_learning: bool,
}

/// Why the command line was refused.
#[derive(Debug, PartialEq, Eq)]
pub enum ExplainError {
    /// The method or the raw keystrokes are missing.
    Usage,
    /// The method is neither telex nor vni.
    UnknownMethod(String),
}

impl ExplainError {
    /// The message printed for the error.
    pub fn message(&self) -> (r: String)
        ensures
            match self {
                ExplainError::Usage => r@ == usage(),
                ExplainError::UnknownMethod(m) => r@ == "unknown method '"@ + m@
                    + "' — telex|vni. "@ + usage(),
            },
    {
        match self {
            ExplainError::Usage => string_of("usage: buttre-test explain <telex|vni> <raw> [--learning]"),
            ExplainError::UnknownMethod(m) => {
                let mut v = chars_of("unknown method '");
                push_str(&mut v, m.as_str());
                push_str(&mut v, "' — telex|vni. ");
                push_str(&mut v, "usage: buttre-test explain <telex|vni> <raw> [--learning]");
                crate::text::string_from_chars(v.as_slice())
            },
        }
    }
}

fn push_str(v: &mut Vec<char>, s: &str)
    ensures
        final(v)@ == old(v)@ + s@,
{
    let cs = chars_of(s);
    for i in 0..cs.len()
        invariant
            v@ == old(v)@ + cs@.take(i as int),
    {
        v.push(cs[i]);
        assert(v@ =~= old(v)@ + cs@.take(i + 1));
    }
    assert(cs@.take(cs@.len() as int) =~= cs@);
}

pub open spec fn has_flag(args: Seq<String>, flag: Seq<char>) -> bool {
    exists|i: int| 0 <= i < args.len() && #[trigger] args[i]@ == flag
}

/// Parse `<method> <raw> [--learning]`. A missing method or raw sequence is
/// a usage error; the flag may stand anywhere; the method is checked after
/// both are present.
pub fn parse_explain_args(args: &Vec<String>) -> (r: Result<ExplainArgs, ExplainError>)
    ensures
        args@.len() < 2 ==> r == Err::<ExplainArgs, ExplainError>(ExplainError::Usage),
        args@.len() >= 2 && args@[0]@ == "telex"@ ==> (r matches Ok(a) && a.method
            == ExplainMethod::Telex && a.raw@ == args@[1]@ && a.with_learning == has_flag(
            args@,
            "--learning"@,
        )),
        args@.len() >= 2 && args@[0]@ == "vni"@ ==> (r matches Ok(a) && a.method
            == ExplainMethod::Vni && a.raw@ == args@[1]@ && a.with_learning == has_flag(
            args@,
            "--learning"@,
        )),
        args@.len() >= 2 && args@[0]@ != "telex"@ && args@[0]@ != "vni"@ ==> (r matches Err(
            ExplainError::UnknownMethod(m),
        ) && m@ == args@[0]@),
{
    if args.len() < 2 {
        return Err(ExplainError::Usage);
    }
    let method = args[0].as_str();
    let raw = string_of(args[1].as_str());
    let mut with_learning = false;
    for i in 0..args.len()
        invariant
            with_learning == exists|k: int| 0 <= k < i && #[trigger] args@[k]@ == "--learning"@,
    {
        if str_eq(args[i].as_str(), "--learning") {
            with_learning = true;
        }
    }
    proof {
        reveal_strlit("telex");
        reveal_strlit("vni");
        assert("telex"@.len() != "vni"@.len());
    }
    if str_eq(method, "telex") {
        Ok(ExplainArgs { method: ExplainMethod::Telex, raw, with_learning })
    } else if str_eq(method, "vni") {
        Ok(ExplainArgs { method: ExplainMethod::Vni, raw, with_learning })
    } else {
        Err(ExplainError::UnknownMethod(string_of(method)))
    }
}

/// The screen after one action: commits and confirmed words are appended,
/// a replacement pops its count of characters (as many as there are) and
/// appends its text, everything else shows nothing.
pub open spec fn applied(screen: Seq<char>, a: EngineActionView) -> Seq<char> {
    match a {
        EngineActionView::Commit(t) => screen + t,
        EngineActionView::ConfirmComposition(t) => screen + t,
        EngineActionView::Replace(n, t) => (if n <= screen.len() {
            screen.take(screen.len() - n)
        } else {
            Seq::empty()
        }) + t,
        _ => screen,
    }
}

pub open spec fn applied_all(screen: Seq<char>, acts: Seq<EngineActionView>) -> Seq<char>
    decreases acts.len(),
{
    if acts.len() == 0 {
        screen
    } else {
        applied(applied_all(screen, acts.drop_last()), acts.last())
    }
}

/// Apply one action to the simulated screen.
pub fn apply(screen: &mut Vec<char>, a: &EngineAction)
    ensures
        final(screen)@ == applied(old(screen)@, a@),
{
    match a {
        EngineAction::Commit(t) | EngineAction::ConfirmComposition(t) => {
            push_str(screen, t.as_str());
        },
        EngineAction::Replace { backspace_count, text } => {
            let len = screen.len();
            let keep = if *backspace_count <= len {
                len - *backspace_count
            } else {
                0
            };
            screen.truncate(keep);
            assert(screen@ =~= (if *backspace_count as nat <= old(screen)@.len() {
                old(screen)@.take(old(screen)@.len() - *backspace_count as nat)
            } else {
                Seq::<char>::empty()
            }));
            push_str(screen, text.as_str());
        },
        _ => {},
    }
}

/// Apply every action of a keystroke, in order.
pub fn apply_all(screen: &mut Vec<char>, actions: &Vec<EngineAction>)
    ensures
        final(screen)@ == applied_all(old(screen)@, actions_view(actions@)),
{
    let n = actions.len();
    assert(actions_view(actions@).take(0) =~= Seq::<EngineActionView>::empty());
    for i in 0..n
        invariant
            n == actions@.len(),
            screen@ == applied_all(old(screen)@, actions_view(actions@).take(i as int)),
    {
        proof {
            let t = actions_view(actions@).take(i + 1);
            assert(t.drop_last() =~= actions_view(actions@).take(i as int));
            assert(t.last() == actions@[i as int]@);
        }
        apply(screen, &actions[i]);
    }
    assert(actions_view(actions@).take(n as int) =~= actions_view(actions@));
}

} // verus!
