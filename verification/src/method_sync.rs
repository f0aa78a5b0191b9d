//! The input method shared between the tray and the engine processes.
//!
//! The tray and the engine that the input-method daemon spawns are separate
//! processes; one small file holding the method id is the single source of
//! truth between them. The tray writes it, each engine re-reads it when it
//! changes and bumps a generation counter that live engine objects compare
//! per keystroke. A second file records whether the engine is the active
//! one ("1"/"0").
//!
//! Which ids travel on this channel: the four built-in methods (`"english"`
//! means passthrough) and every custom keyboard installed as `<id>.toml`
//! whose id is a safe, lower-case file-name stem. The host lists those
//! installed stems; everything here works on that list.

use crate::text::{
    all_ascii, ascii_lower, chars_of, contains_chars, contains_seq, lowercase, str_eq, string_of,
    string_from_chars, to_lowercase, trim, trim_chars,
};
use vstd::prelude::*;

verus! {

/// The built-in method ids.
pub open spec fn known_method(id: Seq<char>) -> bool {
    id == "telex"@ || id == "vni"@ || id == "nom"@ || id == "english"@
}

/// A custom id that may be looked up as a file name: not empty, without a
/// path separator or `..`, and lower case (the reader lower-cases what it
/// reads, so an upper-case id could be written but never read back).
pub open spec fn safe_custom_id(id: Seq<char>) -> bool {
    &&& id.len() > 0
    &&& !id.contains('/')
    &&& !id.contains('\\')
    &&& !contains_seq(id, ".."@)
    &&& lowercase(id) == id
}

pub open spec fn strings_view(v: Seq<String>) -> Seq<Seq<char>> {
    v.map_values(|s: String| s@)
}

/// A safe custom id whose keyboard file is installed (`installed` lists
/// the stems of the `.toml` files in the custom keyboards directory).
pub open spec fn valid_custom_id(id: Seq<char>, installed: Seq<Seq<char>>) -> bool {
    safe_custom_id(id) && installed.contains(id)
}

/// A method the engine can build: a built-in or an installed custom one.
pub open spec fn engine_method(id: Seq<char>, installed: Seq<Seq<char>>) -> bool {
    known_method(id) || valid_custom_id(id, installed)
}

/// The method file's content read back: trimmed and lower-cased, and
/// `"telex"` when that is not a method the engine can build or the file
/// could not be read.
pub open spec fn method_read(content: Option<Seq<char>>, installed: Seq<Seq<char>>) -> Seq<char> {
    match content {
        None => "telex"@,
        Some(c) => {
            let m = lowercase(trim(c));
            if engine_method(m, installed) {
                m
            } else {
                "telex"@
            }
        },
    }
}

/// The enabled file read back: anything but `"0"` (after trimming), and an
/// absent or unreadable file, means enabled.
pub open spec fn enabled_read(content: Option<Seq<char>>) -> bool {
    match content {
        None => true,
        Some(c) => trim(c) != "0"@,
    }
}

pub fn is_known_method(id: &str) -> (r: bool)
    ensures
        r == known_method(id@),
{
    str_eq(id, "telex") || str_eq(id, "vni") || str_eq(id, "nom") || str_eq(id, "english")
}

/// `s` occurs in `v`.
pub fn contains_string(v: &Vec<String>, s: &str) -> (r: bool)
    ensures
        r == strings_view(v@).contains(s@),
{
    let n = v.len();
    for i in 0..n
        invariant
            n == v@.len(),
            forall|k: int| 0 <= k < i ==> v@[k]@ != s@,
    {
        if str_eq(v[i].as_str(), s) {
            assert(strings_view(v@)[i as int] == s@);
            return true;
        }
    }
    proof {
        if strings_view(v@).contains(s@) {
            let k = choose|k: int| 0 <= k < strings_view(v@).len() && strings_view(v@)[k] == s@;
            assert(v@[k]@ == s@);
        }
    }
    false
}

fn char_in(v: &Vec<char>, c: char) -> (r: bool)
    ensures
        r == v@.contains(c),
{
    let n = v.len();
    for i in 0..n
        invariant
            n == v@.len(),
            forall|k: int| 0 <= k < i ==> v@[k] != c,
    {
        if v[i] == c {
            return true;
        }
    }
    false
}

/// Whether `id` is safe to look up as a custom keyboard's file name.
pub fn is_safe_custom_id(id: &str) -> (r: bool)
    ensures
        r == safe_custom_id(id@),
{
    let cs = chars_of(id);
    if cs.len() == 0 {
        return false;
    }
    if char_in(&cs, '/') || char_in(&cs, '\\') {
        return false;
    }
    let dots = chars_of("..");
    if contains_chars(&cs, &dots) {
        return false;
    }
    let lower = to_lowercase(id);
    let lc = chars_of(lower.as_str());
    assert(lc@ == lowercase(id@));
    crate::text::seq_eq(&lc, &cs)
}

/// True when `{id}.toml` is an installed custom keyboard and `id` is a safe
/// file-name stem. The method file and panel activations are
/// attacker-writable inputs that end up in a path, so an id with a path
/// separator or `..` is rejected whatever is installed.
pub fn is_valid_custom_id_in(id: &str, installed: &Vec<String>) -> (r: bool)
    ensures
        r == valid_custom_id(id@, strings_view(installed@)),
{
    is_safe_custom_id(id) && contains_string(installed, id)
}

/// True when `id` names a method the engine can build.
pub fn is_engine_method_in(id: &str, installed: &Vec<String>) -> (r: bool)
    ensures
        r == engine_method(id@, strings_view(installed@)),
{
    is_known_method(id) || is_valid_custom_id_in(id, installed)
}

/// The new content of the method file for `method`: the id itself. Ids
/// that are neither built-in nor installed are skipped (`None`): a bogus id
/// silently degrading to telex would be more surprising than the switch not
/// applying.
pub fn write_method(method: &str, installed: &Vec<String>) -> (r: Option<String>)
    ensures
        engine_method(method@, strings_view(installed@)) ==> (r matches Some(t) && t@ == method@),
        !engine_method(method@, strings_view(installed@)) ==> r is None,
{
    if is_engine_method_in(method, installed) {
        Some(string_of(method))
    } else {
        None
    }
}

/// The method id held by the method file's `content` (`None`: the file is
/// missing or unreadable), normalized to an admitted id, with `"telex"` as
/// the fallback.
pub fn read_method(content: Option<&str>, installed: &Vec<String>) -> (r: String)
    ensures
        r@ == method_read(
            match content {
                Some(c) => Some(c@),
                None => None,
            },
            strings_view(installed@),
        ),
{
    match content {
        None => string_of("telex"),
        Some(c) => {
            let trimmed = string_from_chars(trim_chars(&chars_of(c)).as_slice());
            let method = to_lowercase(trimmed.as_str());
            assert(method@ == lowercase(trim(c@)));
            if is_engine_method_in(method.as_str(), installed) {
                method
            } else {
                string_of("telex")
            }
        },
    }
}

/// The content the enabled file gets: `"1"` or `"0"`.
pub fn write_enabled(enabled: bool) -> (r: String)
    ensures
        r@ == (if enabled {
            "1"@
        } else {
            "0"@
        }),
{
    if enabled {
        string_of("1")
    } else {
        string_of("0")
    }
}

/// The engine's enabled state from the enabled file's `content`. Absent or
/// unreadable means enabled: the tray acts on this only from a watcher
/// event, so a missing file must not spuriously disable.
pub fn read_enabled(content: Option<&str>) -> (r: bool)
    ensures
        r == enabled_read(
            match content {
                Some(c) => Some(c@),
                None => None,
            },
        ),
{
    match content {
        None => true,
        Some(c) => {
            let t = trim_chars(&chars_of(c));
            let zero = chars_of("0");
            !crate::text::seq_eq(&t, &zero)
        },
    }
}

// ---------------------------------------------------------------------------
// Laws
// ---------------------------------------------------------------------------

proof fn lemma_plain_word(s: Seq<char>)
    requires
        s.len() > 0,
        forall|i: int| 0 <= i < s.len() ==> 'a' <= #[trigger] s[i] <= 'z',
    ensures
        trim(s) == s,
        lowercase(s) == s,
{
    assert(!crate::text::is_space(s[0]));
    assert(crate::text::trim_start(s) == s);
    assert(!crate::text::is_space(s.last()));
    assert(crate::text::trim_end(s) == s);
    assert(all_ascii(s));
    assert(ascii_lower(s) =~= s);
}

/// What the tray writes is what the engine reads: for every method the
/// engine can build that has no surrounding whitespace, the method file
/// written for it reads back as the same id.
pub proof fn lemma_method_round_trip(method: Seq<char>, installed: Seq<Seq<char>>)
    requires
        engine_method(method, installed),
        trim(method) == method,
    ensures
        method_read(Some(method), installed) == method,
{
    if known_method(method) {
        reveal_strlit("telex");
        reveal_strlit("vni");
        reveal_strlit("nom");
        reveal_strlit("english");
        lemma_plain_word(method);
    }
}

/// The enabled file reads back as what was written.
pub proof fn lemma_enabled_round_trip(enabled: bool)
    ensures
        enabled_read(Some(if enabled {
            "1"@
        } else {
            "0"@
        })) == enabled,
{
    reveal_strlit("1");
    reveal_strlit("0");
    let s: Seq<char> = if enabled {
        "1"@
    } else {
        "0"@
    };
    assert(!crate::text::is_space(s[0]));
    assert(crate::text::trim_start(s) == s);
    assert(crate::text::trim_end(s) == s);
    assert("1"@ != "0"@) by {
        assert("1"@[0] != "0"@[0]);
    }
}

// ---------------------------------------------------------------------------
// The shared method state
// ---------------------------------------------------------------------------

/// The current method and its change generation, shared by the file
/// watcher, the engine factory and live engine objects (which compare
/// generations per keystroke and rebuild their keyboard lazily).
pub struct MethodState {
    method: String,
    generation: u64,
}

pub struct MethodStateView {
    pub method: Seq<char>,
    pub generation: u64,
}

impl View for MethodState {
    type V = MethodStateView;

    closed spec fn view(&self) -> MethodStateView {
        MethodStateView { method: self.method@, generation: self.generation }
    }
}

impl MethodState {
    /// The state at start-up: the method file's method (`content`, as read),
    /// generation 0.
    pub fn load(content: Option<&str>, installed: &Vec<String>) -> (r: Self)
        ensures
            r@.method == method_read(
                match content {
                    Some(c) => Some(c@),
                    None => None,
                },
                strings_view(installed@),
            ),
            r@.generation == 0,
    {
        MethodState { method: read_method(content, installed), generation: 0 }
    }

    pub fn method(&self) -> (r: String)
        ensures
            r@ == self@.method,
    {
        string_of(self.method.as_str())
    }

    pub fn generation(&self) -> (r: u64)
        ensures
            r == self@.generation,
    {
        self.generation
    }

    /// Record the method the file now holds. Only a genuine change bumps
    /// the generation (wrapping, as the atomic counter does); the result
    /// says whether it changed, so the host can wake whoever waits for it.
    pub fn set(&mut self, method: &str) -> (changed: bool)
        ensures
            changed == (method@ != old(self)@.method),
            changed ==> final(self)@ == (MethodStateView {
                method: method@,
                generation: old(self)@.generation.wrapping_add(1),
            }),
            !changed ==> final(self)@ == old(self)@,
    {
        if str_eq(self.method.as_str(), method) {
            return false;
        }
        self.method = string_of(method);
        self.generation = self.generation.wrapping_add(1);
        true
    }
}

} // verus!
