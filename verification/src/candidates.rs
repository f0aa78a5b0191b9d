//! Candidate list state (Nôm lookup), shared by every backend that shows one.
//!
//! Which candidates are offered, which one is highlighted, and what a number
//! key at position N on the current page means. The page size belongs to
//! whoever draws the list, so it is passed in per call and the cursor alone
//! determines which page is current.

use vstd::prelude::*;

verus! {

/// One candidate offered for the current composition.
#[derive(Debug, PartialEq, Eq)]
pub struct CandidateView {
    /// Shown in the candidate UI — the character plus its gloss.
    pub display: String,
    /// Committed when this candidate is chosen — the bare character.
    pub value: String,
}

impl Clone for CandidateView {
    fn clone(&self) -> (r: Self)
        ensures
            r == *self,
    {
        CandidateView { display: self.display.clone(), value: self.value.clone() }
    }
}

/// Copy a run of candidates, element by element.
pub fn clone_views(items: &[CandidateView]) -> (r: Vec<CandidateView>)
    ensures
        r@ == items@,
{
    let mut out: Vec<CandidateView> = Vec::new();
    let n = items.len();
    for i in 0..n
        invariant
            n == items@.len(),
            out@ == items@.subrange(0, i as int),
    {
        out.push(items[i].clone());
    }
    assert(out@ =~= items@);
    out
}

/// How a navigation key moves the highlight.
#[derive(Debug, Clone, Copy, PartialEq, Eq)]
pub enum CandidateMotion {
    /// Previous candidate, wrapping at the start.
    Prev,
    /// Next candidate, wrapping at the end.
    Next,
    /// Back one page, clamped to the first candidate.
    PageUp,
    /// Forward one page, clamped to the last candidate.
    PageDown,
}

/// The mathematical content of a [`CandidateState`].
pub struct CandidateModel {
    pub items: Seq<CandidateView>,
    pub cursor: nat,
}

impl CandidateModel {
    /// No list showing.
    pub open spec fn empty() -> CandidateModel {
        CandidateModel { items: Seq::empty(), cursor: 0 }
    }

    /// The cursor is inside the list, or 0 when the list is empty.
    pub open spec fn wf(self) -> bool {
        if self.items.len() == 0 {
            self.cursor == 0
        } else {
            self.cursor < self.items.len()
        }
    }

    /// First global index of the page holding the cursor.
    pub open spec fn page_start(self, page: nat) -> nat
        recommends
            page > 0,
    {
        (self.cursor / page) * page
    }

    /// One past the last global index of the page holding the cursor.
    pub open spec fn page_end(self, page: nat) -> nat {
        let e = self.page_start(page) + page;
        if e < self.items.len() {
            e
        } else {
            self.items.len()
        }
    }

    /// Number of pages at this page size: the ceiling of `len / page`.
    pub open spec fn page_count(self, page: nat) -> nat
        recommends
            page > 0,
    {
        ((self.items.len() + page - 1) / (page as int)) as nat
    }

    /// Where `motion` puts the cursor (the list must be non-empty).
    pub open spec fn moved(self, motion: CandidateMotion, page: nat) -> nat {
        let n = self.items.len();
        match motion {
            CandidateMotion::Next => (self.cursor + 1) % n,
            CandidateMotion::Prev => ((self.cursor + n - 1) % (n as int)) as nat,
            CandidateMotion::PageDown => if self.cursor + page < n {
                self.cursor + page
            } else {
                (n - 1) as nat
            },
            CandidateMotion::PageUp => if self.cursor >= page {
                (self.cursor - page) as nat
            } else {
                0
            },
        }
    }
}

/// The offered candidates plus the highlight position.
///
/// Empty is the resting state: no list showing, cursor 0. Every mutator
/// keeps the cursor inside the list, so callers never have to bounds-check
/// before rendering.
#[derive(Debug, PartialEq, Eq)]
pub struct CandidateState {
    items: Vec<CandidateView>,
    cursor: usize,
}

impl View for CandidateState {
    type V = CandidateModel;

    closed spec fn view(&self) -> CandidateModel {
        CandidateModel { items: self.items@, cursor: self.cursor as nat }
    }
}

impl Default for CandidateState {
    fn default() -> (r: Self)
        ensures
            r@ == CandidateModel::empty(),
    {
        let r = CandidateState { items: Vec::new(), cursor: 0 };
        assert(r.items@ =~= Seq::<CandidateView>::empty());
        r
    }
}

impl Clone for CandidateState {
    fn clone(&self) -> (r: Self)
        ensures
            r@ == self@,
    {
        proof {
            use_type_invariant(self);
        }
        CandidateState { items: clone_views(self.items.as_slice()), cursor: self.cursor }
    }
}

impl CandidateState {
    #[verifier::type_invariant]
    spec fn inv(self) -> bool {
        self@.wf()
    }

    /// Every state this type can hold keeps the cursor inside the list.
    pub fn check_wf(&self)
        ensures
            self@.wf(),
    {
        proof {
            use_type_invariant(self);
        }
    }

    /// Replace the list, highlighting the first entry.
    ///
    /// A fresh lookup always starts at the top: the engine ranks candidates,
    /// so carrying a previous cursor over would highlight an unrelated
    /// character.
    pub fn set(&mut self, items: Vec<CandidateView>)
        ensures
            final(self)@.items == items@,
            final(self)@.cursor == 0,
    {
        *self = CandidateState { items, cursor: 0 };
    }

    /// Drop the list. Returns whether anything was actually showing, so
    /// callers can emit a hide/repaint only when it means something.
    pub fn clear(&mut self) -> (had: bool)
        ensures
            had == (old(self)@.items.len() > 0),
            final(self)@ == CandidateModel::empty(),
    {
        let had = !self.items.is_empty();
        *self = CandidateState { items: Vec::new(), cursor: 0 };
        assert(self.items@ =~= Seq::<CandidateView>::empty());
        had
    }

    pub fn is_empty(&self) -> (r: bool)
        ensures
            r == (self@.items.len() == 0),
    {
        self.items.is_empty()
    }

    pub fn len(&self) -> (r: usize)
        ensures
            r == self@.items.len(),
    {
        self.items.len()
    }

    /// Global index of the highlighted candidate. Always 0 when empty.
    pub fn cursor(&self) -> (r: usize)
        ensures
            r == self@.cursor,
            self@.items.len() == 0 ==> r == 0,
            self@.items.len() > 0 ==> r < self@.items.len(),
    {
        proof {
            use_type_invariant(self);
        }
        self.cursor
    }

    pub fn items(&self) -> (r: &[CandidateView])
        ensures
            r@ == self@.items,
    {
        self.items.as_slice()
    }

    /// Global index where the page holding the cursor starts.
    pub fn page_start(&self, page: usize) -> (r: usize)
        requires
            page > 0,
        ensures
            r == self@.page_start(page as nat),
            r <= self@.cursor,
            self@.cursor < r + page,
    {
        let q = self.cursor / page;
        proof {
            lemma_page_start_bounds(self.cursor as nat, page as nat);
        }
        q * page
    }

    /// The candidates on the page holding the cursor, for rendering.
    pub fn page_items(&self, page: usize) -> (r: &[CandidateView])
        requires
            page > 0,
        ensures
            r@ == self@.items.subrange(
                self@.page_start(page as nat) as int,
                self@.page_end(page as nat) as int,
            ),
    {
        proof {
            use_type_invariant(self);
        }
        let start = self.page_start(page);
        let n = self.items.len();
        let end = if page < n - start {
            start + page
        } else {
            n
        };
        vstd::slice::slice_subrange(self.items.as_slice(), start, end)
    }

    /// Total number of pages at this page size (0 when nothing is showing).
    pub fn page_count(&self, page: usize) -> (r: usize)
        requires
            page > 0,
        ensures
            r == self@.page_count(page as nat),
            self@.items.len() == 0 ==> r == 0,
    {
        let n = self.items.len();
        let q = n / page;
        proof {
            lemma_div_ceil(n as nat, page as nat);
            lemma_quotient_room(n as nat, page as nat);
        }
        let r = if n % page == 0 {
            q
        } else {
            q + 1
        };
        r
    }

    /// Move the highlight to the next candidate, wrapping at the end.
    /// Returns whether the cursor moved (false when empty, or a single item).
    pub fn move_next(&mut self) -> (moved: bool)
        ensures
            final(self)@.items == old(self)@.items,
            old(self)@.items.len() == 0 ==> final(self)@.cursor == old(self)@.cursor,
            old(self)@.items.len() > 0 ==> final(self)@.cursor == old(self)@.moved(
                CandidateMotion::Next,
                0,
            ),
            moved == (final(self)@.cursor != old(self)@.cursor),
    {
        self.move_cursor(CandidateMotion::Next, 1)
    }

    /// Move the highlight to the previous candidate, wrapping at the start.
    pub fn move_prev(&mut self) -> (moved: bool)
        ensures
            final(self)@.items == old(self)@.items,
            old(self)@.items.len() == 0 ==> final(self)@.cursor == old(self)@.cursor,
            old(self)@.items.len() > 0 ==> final(self)@.cursor == old(self)@.moved(
                CandidateMotion::Prev,
                0,
            ),
            moved == (final(self)@.cursor != old(self)@.cursor),
    {
        self.move_cursor(CandidateMotion::Prev, 1)
    }

    /// Advance the highlight by one page, clamped to the last candidate.
    pub fn page_down(&mut self, page: usize) -> (moved: bool)
        ensures
            final(self)@.items == old(self)@.items,
            old(self)@.items.len() == 0 ==> final(self)@.cursor == old(self)@.cursor,
            old(self)@.items.len() > 0 ==> final(self)@.cursor == old(self)@.moved(
                CandidateMotion::PageDown,
                page as nat,
            ),
            moved == (final(self)@.cursor != old(self)@.cursor),
    {
        self.move_cursor(CandidateMotion::PageDown, page)
    }

    /// Retreat the highlight by one page, clamped to the first candidate.
    pub fn page_up(&mut self, page: usize) -> (moved: bool)
        ensures
            final(self)@.items == old(self)@.items,
            old(self)@.items.len() == 0 ==> final(self)@.cursor == old(self)@.cursor,
            old(self)@.items.len() > 0 ==> final(self)@.cursor == old(self)@.moved(
                CandidateMotion::PageUp,
                page as nat,
            ),
            moved == (final(self)@.cursor != old(self)@.cursor),
    {
        self.move_cursor(CandidateMotion::PageUp, page)
    }

    /// Apply `motion` (with `page` for the page motions) to the highlight.
    /// A no-op on an empty list; returns whether the cursor changed.
    pub fn move_cursor(&mut self, motion: CandidateMotion, page: usize) -> (moved: bool)
        ensures
            final(self)@.items == old(self)@.items,
            old(self)@.items.len() == 0 ==> final(self)@.cursor == old(self)@.cursor,
            old(self)@.items.len() > 0 ==> final(self)@.cursor == old(self)@.moved(
                motion,
                page as nat,
            ),
            moved == (final(self)@.cursor != old(self)@.cursor),
    {
        proof {
            use_type_invariant(&*self);
        }
        let n = self.items.len();
        if n == 0 {
            return false;
        }
        let cur = self.cursor;
        let next: usize = match motion {
            CandidateMotion::Next => {
                if cur + 1 == n {
                    0
                } else {
                    cur + 1
                }
            },
            CandidateMotion::Prev => {
                if cur == 0 {
                    n - 1
                } else {
                    cur - 1
                }
            },
            CandidateMotion::PageDown => {
                if page < n - cur {
                    cur + page
                } else {
                    n - 1
                }
            },
            CandidateMotion::PageUp => cur.saturating_sub(page),
        };
        proof {
            let m = self@;
            lemma_moved_value(m.cursor, n as nat, motion, page as nat);
        }
        let moved = next != cur;
        self.cursor = next;
        moved
    }

    /// Take the value at global `index` and clear the list. `None` (and no
    /// state change) when out of range.
    pub fn take_at(&mut self, index: usize) -> (r: Option<String>)
        ensures
            index < old(self)@.items.len() ==> {
                &&& r == Some(old(self)@.items[index as int].value)
                &&& final(self)@ == CandidateModel::empty()
            },
            index >= old(self)@.items.len() ==> r.is_none() && final(self)@ == old(self)@,
    {
        if index >= self.items.len() {
            return None;
        }
        let value = self.items[index].value.clone();
        self.clear();
        Some(value)
    }

    /// Take the candidate at `page_index` (0-based) WITHIN the page currently
    /// holding the cursor — the mapping for number keys 1..=9 and for a click
    /// on the panel, both of which are page-relative, not global.
    pub fn take_at_page(&mut self, page_index: usize, page: usize) -> (r: Option<String>)
        requires
            page > 0,
        ensures
            ({
                let index = old(self)@.page_start(page as nat) + page_index;
                &&& index < old(self)@.items.len() ==> {
                    &&& r == Some(old(self)@.items[index].value)
                    &&& final(self)@ == CandidateModel::empty()
                }
                &&& index >= old(self)@.items.len() ==> r.is_none() && final(self)@ == old(self)@
            }),
    {
        let start = self.page_start(page);
        let n = self.items.len();
        match start.checked_add(page_index) {
            Some(index) => self.take_at(index),
            None => {
                assert(n <= usize::MAX);
                None
            },
        }
    }

    /// Take the highlighted candidate (Space/Enter, panel double-click).
    pub fn take_current(&mut self) -> (r: Option<String>)
        ensures
            old(self)@.items.len() > 0 ==> {
                &&& r == Some(old(self)@.items[old(self)@.cursor as int].value)
                &&& final(self)@ == CandidateModel::empty()
            },
            old(self)@.items.len() == 0 ==> r.is_none() && final(self)@ == old(self)@,
    {
        proof {
            use_type_invariant(&*self);
        }
        let c = self.cursor;
        self.take_at(c)
    }
}

/// Every motion keeps the highlight inside a non-empty list.
pub proof fn lemma_motion_stays_in_list(m: CandidateModel, motion: CandidateMotion, page: nat)
    requires
        m.wf(),
        m.items.len() > 0,
    ensures
        m.moved(motion, page) < m.items.len(),
{
    let n = m.items.len();
    match motion {
        CandidateMotion::Next => {
            vstd::arithmetic::div_mod::lemma_mod_bound((m.cursor + 1) as int, n as int);
        },
        CandidateMotion::Prev => {
            vstd::arithmetic::div_mod::lemma_mod_bound((m.cursor + n - 1) as int, n as int);
        },
        _ => {},
    }
}

/// Moving to the next candidate and then to the previous one (or the other
/// way round) returns the highlight to where it was, wrap-around included.
pub proof fn lemma_prev_undoes_next(m: CandidateModel)
    requires
        m.wf(),
        m.items.len() > 0,
    ensures
        (CandidateModel { items: m.items, cursor: m.moved(CandidateMotion::Next, 0) }).moved(
            CandidateMotion::Prev,
            0,
        ) == m.cursor,
        (CandidateModel { items: m.items, cursor: m.moved(CandidateMotion::Prev, 0) }).moved(
            CandidateMotion::Next,
            0,
        ) == m.cursor,
{
    let n = m.items.len();
    let c = m.cursor;
    lemma_moved_value(c, n, CandidateMotion::Next, 0);
    lemma_moved_value(c, n, CandidateMotion::Prev, 0);
    let nx: nat = if c + 1 == n { 0 } else { (c + 1) as nat };
    let pv: nat = if c == 0 { (n - 1) as nat } else { (c - 1) as nat };
    lemma_moved_value(nx, n, CandidateMotion::Prev, 0);
    lemma_moved_value(pv, n, CandidateMotion::Next, 0);
}

/// The page window computed from the cursor always contains the cursor, and
/// lies inside the list; a non-empty list has at least one page.
pub proof fn lemma_page_window_holds_cursor(m: CandidateModel, page: nat)
    requires
        m.wf(),
        m.items.len() > 0,
        page > 0,
    ensures
        m.page_start(page) <= m.cursor < m.page_end(page) <= m.items.len(),
        m.page_end(page) - m.page_start(page) <= page,
        m.page_count(page) >= 1,
{
    lemma_page_start_bounds(m.cursor, page);
    lemma_div_ceil(m.items.len(), page);
    let n = m.items.len();
    vstd::arithmetic::div_mod::lemma_fundamental_div_mod(n as int, page as int);
    vstd::arithmetic::div_mod::lemma_mod_bound(n as int, page as int);
    if n % page == 0 {
        assert(n / page >= 1) by {
            if n / page == 0 {
                assert(page * (n / page) == 0) by (nonlinear_arith)
                    requires n / page == 0;
            }
        }
    }
}

proof fn lemma_page_start_bounds(cursor: nat, page: nat)
    requires
        page > 0,
    ensures
        (cursor / page) * page <= cursor,
        cursor < (cursor / page) * page + page,
{
    vstd::arithmetic::div_mod::lemma_fundamental_div_mod(cursor as int, page as int);
    assert(0 <= cursor % page < page) by {
        vstd::arithmetic::div_mod::lemma_mod_bound(cursor as int, page as int);
    }
    assert((cursor / page) * page == page * (cursor / page)) by {
        vstd::arithmetic::mul::lemma_mul_is_commutative((cursor / page) as int, page as int);
    }
}

proof fn lemma_quotient_room(n: nat, page: nat)
    requires
        page > 0,
        n <= usize::MAX,
    ensures
        n % page != 0 ==> n / page < usize::MAX,
        n == 0 ==> n / page == 0 && n % page == 0,
{
    vstd::arithmetic::div_mod::lemma_fundamental_div_mod(n as int, page as int);
    vstd::arithmetic::div_mod::lemma_mod_bound(n as int, page as int);
    if n % page != 0 {
        assert(page >= 2) by {
            if page == 1 {
                assert(n % 1 == 0);
            }
        }
        assert(page * (n / page) >= 2 * (n / page)) by (nonlinear_arith)
            requires
                page >= 2,
                n / page >= 0,
        ;
    }
    if n == 0 {
        vstd::arithmetic::div_mod::lemma_div_of0(page as int);
        vstd::arithmetic::div_mod::lemma_small_mod(0, page);
    }
}

proof fn lemma_div_ceil(n: nat, page: nat)
    requires
        page > 0,
    ensures
        (if n % page == 0 {
            n / page
        } else {
            n / page + 1
        }) == (n + page - 1) / (page as int),
{
    let q = n / page;
    let r = n % page;
    vstd::arithmetic::div_mod::lemma_fundamental_div_mod(n as int, page as int);
    vstd::arithmetic::div_mod::lemma_mod_bound(n as int, page as int);
    let m = n + page - 1;
    if r == 0 {
        // m = q * page + (page - 1)
        vstd::arithmetic::div_mod::lemma_fundamental_div_mod_converse(
            m as int,
            page as int,
            q as int,
            (page - 1) as int,
        );
    } else {
        // m = (q + 1) * page + (r - 1)
        assert(page * (q + 1) == page * q + page) by (nonlinear_arith);
        vstd::arithmetic::div_mod::lemma_fundamental_div_mod_converse(
            m as int,
            page as int,
            (q + 1) as int,
            (r - 1) as int,
        );
    }
}

proof fn lemma_moved_value(cur: nat, n: nat, motion: CandidateMotion, page: nat)
    requires
        n > 0,
        cur < n,
    ensures
        ({
            let m = CandidateModel { items: Seq::empty(), cursor: cur };
            match motion {
                CandidateMotion::Next => ((cur + 1) % n) == if cur + 1 == n {
                    0
                } else {
                    cur + 1
                },
                CandidateMotion::Prev => ((cur + n - 1) % (n as int)) == if cur == 0 {
                    n - 1
                } else {
                    cur - 1
                },
                _ => true,
            }
        }),
{
    match motion {
        CandidateMotion::Next => {
            if cur + 1 == n {
                vstd::arithmetic::div_mod::lemma_mod_self_0(n as int);
            } else {
                vstd::arithmetic::div_mod::lemma_small_mod((cur + 1) as nat, n);
            }
        },
        CandidateMotion::Prev => {
            if cur == 0 {
                vstd::arithmetic::div_mod::lemma_small_mod((n - 1) as nat, n);
            } else {
                vstd::arithmetic::div_mod::lemma_mod_add_multiples_vanish(
                    (cur - 1) as int,
                    n as int,
                );
                vstd::arithmetic::div_mod::lemma_small_mod((cur - 1) as nat, n);
            }
        },
        _ => {},
    }
}

} // verus!
