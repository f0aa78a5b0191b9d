//! Reacting to changes of the shared configuration files.
//!
//! The tray, the configuration window and the engine processes share a few
//! files (settings, shorthand macros, learned words). Each engine process
//! watches their directories; a directory watch is re-armed when the
//! directory is deleted and re-created. This module decides which
//! directories to watch, what an event means and what to reload; the host
//! runs the watcher threads.

use crate::text::{str_eq, string_of};
use vstd::prelude::*;

verus! {

// ---------------------------------------------------------------------------
// Paths
// ---------------------------------------------------------------------------
//
// The three names below follow `std::path::Path`'s rules for the target the
// crate is built for: `/` separates components on Unix, while Windows also
// accepts `\` and has drive and UNC prefixes. Within one build each is a
// function of its arguments.

/// What `Path::parent` gives for a path: the path without its final
/// component, or nothing for a root or an empty path.
pub uninterp spec fn path_parent(p: Seq<char>) -> Option<Seq<char>>;

/// What `Path::file_name` gives for a path: its final component, unless
/// that is `..` or there is none.
pub uninterp spec fn path_file_name(p: Seq<char>) -> Option<Seq<char>>;

/// Whether two paths are equal as `Path`s compare them (component by
/// component).
pub uninterp spec fn path_eq(a: Seq<char>, b: Seq<char>) -> bool;

/// `Path::parent` of a UTF-8 path (the result is part of the input, so it
/// is UTF-8 too).
#[verifier::external_body]
pub(crate) fn parent_of(path: &str) -> (r: Option<String>)
    ensures
        match r {
            Some(d) => path_parent(path@) == Some(d@),
            None => path_parent(path@) is None,
        },
{
    std::path::Path::new(path).parent().map(|d| d.to_string_lossy().into_owned())
}

/// `Path::file_name` of a UTF-8 path.
#[verifier::external_body]
pub(crate) fn file_name_of(path: &str) -> (r: Option<String>)
    ensures
        match r {
            Some(n) => path_file_name(path@) == Some(n@),
            None => path_file_name(path@) is None,
        },
{
    std::path::Path::new(path).file_name().map(|n| n.to_string_lossy().into_owned())
}

/// `Path == Path` for UTF-8 paths.
#[verifier::external_body]
pub(crate) fn same_path(a: &str, b: &str) -> (r: bool)
    ensures
        r == path_eq(a@, b@),
{
    std::path::Path::new(a) == std::path::Path::new(b)
}

pub open spec fn strings_view(v: Seq<String>) -> Seq<Seq<char>> {
    v.map_values(|s: String| s@)
}

/// Add `path`'s directory to `dirs` unless it is already there: the
/// directories to watch, each once.
pub fn push_parent(dirs: &mut Vec<String>, path: &str)
    ensures
        match path_parent(path@) {
            None => strings_view(final(dirs)@) == strings_view(old(dirs)@),
            Some(d) => if strings_view(old(dirs)@).contains(d) {
                strings_view(final(dirs)@) == strings_view(old(dirs)@)
            } else {
                strings_view(final(dirs)@) == strings_view(old(dirs)@).push(d)
            },
        },
{
    if let Some(dir) = parent_of(path) {
        if !crate::method_sync::contains_string(dirs, dir.as_str()) {
            let ghost before = dirs@;
            dirs.push(dir);
            assert(strings_view(dirs@) =~= strings_view(before).push(dirs@[before.len() as int]@));
        }
    }
}

/// [`push_parent`] never lets a directory in twice.
pub proof fn lemma_push_parent_keeps_distinct(dirs: Seq<Seq<char>>, d: Seq<char>)
    requires
        dirs.no_duplicates(),
    ensures
        (if dirs.contains(d) {
            dirs
        } else {
            dirs.push(d)
        }).no_duplicates(),
{
    if !dirs.contains(d) {
        assert forall|i: int, j: int| 0 <= i < j < dirs.push(d).len() implies dirs.push(d)[i]
            != dirs.push(d)[j] by {
            if j == dirs.len() {
                assert(dirs[i] != d);
            }
        }
    }
}

/// Path `i` resolved, and its directory is `d`.
pub open spec fn gives_dir(paths: Seq<Option<String>>, i: int, d: Seq<char>) -> bool {
    paths[i] matches Some(p) && path_parent(p@) == Some(d)
}

/// The directories holding the watched files (`None`: a path the host
/// could not resolve), each once, in order.
pub fn watch_dirs(paths: &Vec<Option<String>>) -> (r: Vec<String>)
    ensures
        strings_view(r@).no_duplicates(),
        forall|d: Seq<char>|
            strings_view(r@).contains(d) <==> exists|i: int|
                0 <= i < paths@.len() && #[trigger] gives_dir(paths@, i, d),
{
    let mut dirs: Vec<String> = Vec::new();
    let n = paths.len();
    for i in 0..n
        invariant
            n == paths@.len(),
            strings_view(dirs@).no_duplicates(),
            forall|d: Seq<char>|
                strings_view(dirs@).contains(d) <==> exists|k: int|
                    0 <= k < i && #[trigger] gives_dir(paths@, k, d),
    {
        let ghost before = strings_view(dirs@);
        match &paths[i] {
            Some(p) => {
                push_parent(&mut dirs, p.as_str());
                proof {
                    match path_parent(p@) {
                        Some(d) => lemma_push_parent_keeps_distinct(before, d),
                        None => {},
                    }
                    assert forall|d: Seq<char>|
                        strings_view(dirs@).contains(d) <==> exists|k: int|
                            0 <= k < i + 1 && #[trigger] gives_dir(paths@, k, d) by {
                        if strings_view(dirs@).contains(d) && !before.contains(d) {
                            assert(path_parent(p@) == Some(d));
                            assert(gives_dir(paths@, i as int, d));
                        }
                        if exists|k: int| 0 <= k < i + 1 && #[trigger] gives_dir(paths@, k, d) {
                            let k = choose|k: int| 0 <= k < i + 1 && #[trigger] gives_dir(paths@, k, d);
                            if k == i {
                                assert(path_parent(p@) == Some(d));
                                if !before.contains(d) {
                                    assert(strings_view(dirs@).last() == d);
                                }
                            } else {
                                assert(before.contains(d));
                                let j = choose|j: int| 0 <= j < before.len() && before[j] == d;
                                assert(strings_view(dirs@)[j] == d);
                            }
                        }
                    }
                }
            },
            None => {},
        }
    }
    dirs
}

// ---------------------------------------------------------------------------
// Events
// ---------------------------------------------------------------------------

/// Whether one of an event's paths names one of the files: `names` of
/// the files that feed a store (the watched directories also hold other
/// state, which must not trigger a reload).
pub open spec fn touches(paths: Seq<String>, name: Seq<char>) -> bool {
    exists|i: int| 0 <= i < paths.len() && path_file_name(#[trigger] paths[i]@) == Some(name)
}

pub fn event_touches(paths: &Vec<String>, name: &str) -> (r: bool)
    ensures
        r == touches(paths@, name@),
{
    for i in 0..paths.len()
        invariant
            forall|k: int| 0 <= k < i ==> path_file_name(#[trigger] paths@[k]@) != Some(name@),
    {
        match file_name_of(paths[i].as_str()) {
            Some(n) => {
                if str_eq(n.as_str(), name) {
                    return true;
                }
            },
            None => {},
        }
    }
    false
}

/// The shorthand store is reloaded when `macros.toml` or `settings.toml`
/// changed.
pub fn is_store_change(paths: &Vec<String>) -> (r: bool)
    ensures
        r == (touches(paths@, "macros.toml"@) || touches(paths@, "settings.toml"@)),
{
    event_touches(paths, "macros.toml") || event_touches(paths, "settings.toml")
}

/// What a watch cue says changed: a re-armed watch (the directory was
/// replaced) means everything may have; an event, the files it names.
/// Returns whether `learning.toml` and whether `settings.toml` changed.
pub fn learning_cue(rearmed: bool, paths: &Vec<String>) -> (r: (bool, bool))
    ensures
        rearmed ==> r == (true, true),
        !rearmed ==> r == (touches(paths@, "learning.toml"@), touches(paths@, "settings.toml"@)),
{
    if rearmed {
        return (true, true);
    }
    (event_touches(paths, "learning.toml"), event_touches(paths, "settings.toml"))
}

/// The learning switch as the engine process last saw it.
#[derive(Debug)]
pub struct LearningToggle {
    enabled: bool,
}

impl View for LearningToggle {
    type V = bool;

    closed spec fn view(&self) -> bool {
        self.enabled
    }
}

impl LearningToggle {
    pub fn new(enabled: bool) -> (r: Self)
        ensures
            r@ == enabled,
    {
        LearningToggle { enabled }
    }

    pub fn enabled(&self) -> (r: bool)
        ensures
            r == self@,
    {
        self.enabled
    }

    /// A change arrived: `learning_changed` as [`learning_cue`] says, and
    /// `settings_on` the setting read back when the settings changed. The
    /// switch follows the setting; the store is reloaded when the learned
    /// words changed or learning was just switched on, and only while
    /// learning is on.
    pub fn on_change(&mut self, learning_changed: bool, settings_on: Option<bool>) -> (reload: bool)
        ensures
            final(self)@ == (match settings_on {
                Some(on) => on,
                None => old(self)@,
            }),
            reload == ((learning_changed || (settings_on == Some(true) && !old(self)@))
                && final(self)@),
    {
        let mut reload = learning_changed;
        if let Some(on) = settings_on {
            let was = self.enabled;
            self.enabled = on;
            if on && !was {
                reload = true;
            }
        }
        reload && self.enabled
    }
}

/// The kind of a file-system event, as far as the watcher cares.
#[derive(Clone, Copy, Debug, PartialEq, Eq)]
pub enum EventKind {
    Create,
    /// A rename (the directory moved into or out of place).
    Rename,
    Remove,
    Other,
}

/// What the watcher does with an event.
#[derive(Clone, Copy, Debug, PartialEq, Eq)]
pub enum WatchStep {
    /// The watched directory (re)appeared: re-arm the watch on it and tell
    /// the handler to re-read everything.
    Rearm,
    /// The watched directory went away: drop its watch and wait.
    Unwatch,
    /// An event under the watched directory: hand it to the handler.
    Forward,
    /// Nothing of ours.
    Ignore,
}

pub open spec fn names_dir(paths: Seq<String>, dir: Seq<char>) -> bool {
    exists|i: int| 0 <= i < paths.len() && path_eq(#[trigger] paths[i]@, dir)
}

pub open spec fn under_dir(paths: Seq<String>, dir: Seq<char>) -> bool {
    exists|i: int|
        0 <= i < paths.len() && (path_parent(#[trigger] paths[i]@) matches Some(p) && path_eq(
            p,
            dir,
        ))
}

pub open spec fn watch_step(dir: Seq<char>, paths: Seq<String>, kind: EventKind) -> WatchStep {
    if names_dir(paths, dir) {
        match kind {
            EventKind::Create | EventKind::Rename => WatchStep::Rearm,
            EventKind::Remove => WatchStep::Unwatch,
            EventKind::Other => WatchStep::Ignore,
        }
    } else if under_dir(paths, dir) {
        WatchStep::Forward
    } else {
        WatchStep::Ignore
    }
}

/// Route one event of the watcher (which watches the directory and its
/// parent): events about the directory itself re-arm or drop the watch,
/// events about its children go to the handler, events about the parent's
/// other children are ignored.
pub fn route_event(dir: &str, paths: &Vec<String>, kind: EventKind) -> (r: WatchStep)
    ensures
        r == watch_step(dir@, paths@, kind),
{
    let mut is_dir = false;
    let mut under = false;
    for i in 0..paths.len()
        invariant
            is_dir == exists|k: int| 0 <= k < i && path_eq(#[trigger] paths@[k]@, dir@),
            under == exists|k: int|
                0 <= k < i && (path_parent(#[trigger] paths@[k]@) matches Some(p) && path_eq(
                    p,
                    dir@,
                )),
    {
        if same_path(paths[i].as_str(), dir) {
            is_dir = true;
        }
        match parent_of(paths[i].as_str()) {
            Some(p) => {
                if same_path(p.as_str(), dir) {
                    under = true;
                }
            },
            None => {},
        }
        proof {
            assert(is_dir == exists|k: int| 0 <= k < i + 1 && path_eq(#[trigger] paths@[k]@, dir@))
                by {
                if is_dir && !path_eq(paths@[i as int]@, dir@) {
                    let k = choose|k: int| 0 <= k < i && path_eq(#[trigger] paths@[k]@, dir@);
                }
            }
        }
    }
    if is_dir {
        match kind {
            EventKind::Create | EventKind::Rename => WatchStep::Rearm,
            EventKind::Remove => WatchStep::Unwatch,
            EventKind::Other => WatchStep::Ignore,
        }
    } else if under {
        WatchStep::Forward
    } else {
        WatchStep::Ignore
    }
}

// ---------------------------------------------------------------------------
// Save debouncing
// ---------------------------------------------------------------------------

/// A burst of queued learning snapshots collapses to the latest one: each
/// snapshot is the full state, so the intermediate ones are wasted writes.
/// `first` is the snapshot that woke the writer, `queued` what arrived
/// after it, in order.
pub fn drain_latest<T>(first: T, queued: Vec<T>) -> (r: T)
    ensures
        r == (if queued@.len() > 0 {
            queued@.last()
        } else {
            first
        }),
{
    let mut q = queued;
    match q.pop() {
        Some(last) => last,
        None => first,
    }
}

/// The snapshot to write after a poll of the save queue: the latest one
/// queued, or `None` when nothing was queued.
pub fn drain_latest_learning_save<T>(queued: Vec<T>) -> (r: Option<T>)
    ensures
        queued@.len() == 0 ==> r is None,
        queued@.len() > 0 ==> r == Some(queued@.last()),
{
    let mut q = queued;
    q.pop()
}

} // verus!
