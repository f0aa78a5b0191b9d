//! Bookkeeping of the TSF text service across its COM lifetime: the DLL
//! reference count, the event sinks advised on activation (so deactivation
//! undoes exactly those), the focus and open/close decisions, and the log
//! level.

use vstd::prelude::*;

verus! {

/// `TF_INVALID_COOKIE`.
pub const TF_INVALID_COOKIE: u32 = 0xFFFF_FFFF;

// ---------------------------------------------------------------------------
// DLL reference count
// ---------------------------------------------------------------------------

/// The DLL's reference count: one per live text service object, so
/// `DllCanUnloadNow` answers yes once the last one is gone. Counts wrap,
/// as the atomic counter the host keeps does.
#[derive(Debug)]
pub struct DllRefCount {
    count: u32,
}

impl View for DllRefCount {
    type V = u32;

    closed spec fn view(&self) -> u32 {
        self.count
    }
}

impl DllRefCount {
    pub fn new() -> (r: Self)
        ensures
            r@ == 0,
    {
        DllRefCount { count: 0 }
    }
}

/// Increment the DLL reference count.
pub fn dll_add_ref(rc: &mut DllRefCount)
    ensures
        final(rc)@ == old(rc)@.wrapping_add(1),
{
    rc.count = rc.count.wrapping_add(1);
}

/// Decrement the DLL reference count.
pub fn dll_release(rc: &mut DllRefCount)
    ensures
        final(rc)@ == old(rc)@.wrapping_sub(1),
{
    rc.count = rc.count.wrapping_sub(1);
}

/// The current DLL reference count.
pub fn dll_get_ref_count(rc: &DllRefCount) -> (r: u32)
    ensures
        r == rc@,
{
    rc.count
}

/// The DLL can be unloaded when nothing holds it.
pub fn dll_can_unload(rc: &DllRefCount) -> (r: bool)
    ensures
        r == (rc@ == 0),
{
    rc.count == 0
}

/// A reference taken and released leaves the count as it was.
pub proof fn lemma_add_ref_release(count: u32)
    ensures
        count.wrapping_add(1).wrapping_sub(1) == count,
{
}

// ---------------------------------------------------------------------------
// Event sinks
// ---------------------------------------------------------------------------

/// The sinks advised during `Activate`: the key event sink's client id
/// (0: not advised), the thread-manager sink cookies, and the keyboard
/// open/close compartment sink's cookie (`TF_INVALID_COOKIE`: not advised).
#[derive(Debug)]
pub struct SinkCookies {
    key_sink_tid: u32,
    thread_cookies: Vec<u32>,
    openclose_cookie: u32,
}

pub struct SinkCookiesView {
    pub key_sink_tid: u32,
    pub thread_cookies: Seq<u32>,
    pub openclose_cookie: u32,
}

impl View for SinkCookies {
    type V = SinkCookiesView;

    closed spec fn view(&self) -> SinkCookiesView {
        SinkCookiesView {
            key_sink_tid: self.key_sink_tid,
            thread_cookies: self.thread_cookies@,
            openclose_cookie: self.openclose_cookie,
        }
    }
}

pub open spec fn no_sinks() -> SinkCookiesView {
    SinkCookiesView { key_sink_tid: 0, thread_cookies: Seq::empty(), openclose_cookie: TF_INVALID_COOKIE }
}

/// What `Deactivate` has to unadvise.
#[derive(Debug, PartialEq, Eq)]
pub struct Teardown {
    pub key_sink_tid: Option<u32>,
    pub thread_cookies: Vec<u32>,
    pub openclose_cookie: Option<u32>,
}

impl SinkCookies {
    /// Nothing advised.
    pub fn new() -> (r: Self)
        ensures
            r@ == no_sinks(),
    {
        SinkCookies { key_sink_tid: 0, thread_cookies: Vec::new(), openclose_cookie: TF_INVALID_COOKIE }
    }

    /// The key event sink was advised for client `tid`.
    pub fn key_sink_advised(&mut self, tid: u32)
        ensures
            final(self)@ == (SinkCookiesView { key_sink_tid: tid, ..old(self)@ }),
    {
        self.key_sink_tid = tid;
    }

    /// A thread-manager sink was advised with `cookie`.
    pub fn thread_sink_advised(&mut self, cookie: u32)
        ensures
            final(self)@ == (SinkCookiesView {
                thread_cookies: old(self)@.thread_cookies.push(cookie),
                ..old(self)@
            }),
    {
        self.thread_cookies.push(cookie);
    }

    /// The open/close compartment sink was advised with `cookie`.
    pub fn openclose_advised(&mut self, cookie: u32)
        ensures
            final(self)@ == (SinkCookiesView { openclose_cookie: cookie, ..old(self)@ }),
    {
        self.openclose_cookie = cookie;
    }

    /// Everything to unadvise on `Deactivate`, in order, leaving nothing
    /// recorded: the key sink when one was advised, every thread-manager
    /// cookie, the open/close cookie when it is valid.
    pub fn teardown(&mut self) -> (r: Teardown)
        ensures
            final(self)@ == no_sinks(),
            (r.key_sink_tid, r.thread_cookies@, r.openclose_cookie) == teardown_of(old(self)@),
    {
        let key_sink_tid = if self.key_sink_tid != 0 {
            Some(self.key_sink_tid)
        } else {
            None
        };
        let openclose_cookie = if self.openclose_cookie != TF_INVALID_COOKIE {
            Some(self.openclose_cookie)
        } else {
            None
        };
        let mut thread_cookies: Vec<u32> = Vec::new();
        std::mem::swap(&mut thread_cookies, &mut self.thread_cookies);
        self.key_sink_tid = 0;
        self.openclose_cookie = TF_INVALID_COOKIE;
        assert(self.thread_cookies@ =~= Seq::<u32>::empty());
        Teardown { key_sink_tid, thread_cookies, openclose_cookie }
    }
}

/// What a teardown of `s` unadvises: the key sink when one was advised,
/// every thread-manager cookie, the open/close cookie when it is valid.
pub open spec fn teardown_of(s: SinkCookiesView) -> (Option<u32>, Seq<u32>, Option<u32>) {
    (
        if s.key_sink_tid != 0 {
            Some(s.key_sink_tid)
        } else {
            None
        },
        s.thread_cookies,
        if s.openclose_cookie != TF_INVALID_COOKIE {
            Some(s.openclose_cookie)
        } else {
            None
        },
    )
}

/// Deactivating twice unadvises nothing the second time: a teardown leaves
/// no sink recorded, and tearing that down again yields nothing.
pub proof fn lemma_teardown_twice()
    ensures
        teardown_of(no_sinks()) == (None::<u32>, Seq::<u32>::empty(), None::<u32>),
{
}

// ---------------------------------------------------------------------------
// Focus and the open/close compartment
// ---------------------------------------------------------------------------

/// `OnSetFocus`: when focus leaves the document (no new document manager)
/// with a composition open, end it, reset the engine and hide the panel.
/// Never mid-keystroke: a focus event raised by the key being handled is
/// not a document switch.
pub fn ends_composition_on_focus(key_busy: bool, focus_lost: bool, composing: bool) -> (r: bool)
    ensures
        r == (!key_busy && focus_lost && composing),
{
    !key_busy && focus_lost && composing
}

/// `OnChange` of the keyboard open/close compartment: a 32-bit integer 0
/// means the IME was switched off (clear the composition, reset the engine,
/// hide the panel).
pub fn openclose_turned_off(value_is_i4: bool, value: i32) -> (r: bool)
    ensures
        r == (value_is_i4 && value == 0),
{
    value_is_i4 && value == 0
}

// ---------------------------------------------------------------------------
// Logging
// ---------------------------------------------------------------------------

/// The text service's log level.
#[derive(Clone, Copy, Debug, PartialEq, Eq)]
pub enum LogLevel {
    /// Includes the characters being typed.
    Debug,
    /// No keystroke content.
    Warn,
}

/// DEBUG in a debug build or when the user opted in (the `tsf-debug`
/// marker file exists in the log directory), WARN otherwise: keystrokes go
/// to disk only when asked for.
pub fn logging_level(debug_build: bool, verbose_marker: bool) -> (r: LogLevel)
    ensures
        r == (if debug_build || verbose_marker {
            LogLevel::Debug
        } else {
            LogLevel::Warn
        }),
{
    if debug_build || verbose_marker {
        LogLevel::Debug
    } else {
        LogLevel::Warn
    }
}

} // verus!
