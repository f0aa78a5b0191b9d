//! What the Windows Nôm candidate panel draws: the current page, numbered
//! from 1, the highlighted row, and a "Trang X / Y" footer when the list
//! has more than one page. The host measures and paints it.

use crate::candidates::{CandidateModel, CandidateState, CandidateView};
use crate::text::{chars_of, decimal, decimal_chars, string_from_chars};
use vstd::prelude::*;

verus! {

/// The panel's content.
#[derive(Debug, PartialEq, Eq)]
pub struct PanelContent {
    /// One line per candidate of the current page: `"<n>. <display>"`.
    pub lines: Vec<String>,
    /// Index into `lines` of the highlighted candidate.
    pub highlight: usize,
    /// `"Trang <page> / <pages>"`, or `None` for a single page.
    pub footer: Option<String>,
}

/// `"<n>. <display>"`.
pub open spec fn numbered(n: nat, display: Seq<char>) -> Seq<char> {
    decimal(n) + ". "@ + display
}

/// The lines of the page holding the cursor.
pub open spec fn page_lines(c: CandidateModel, page: nat) -> Seq<Seq<char>> {
    Seq::new(
        (c.page_end(page) - c.page_start(page)) as nat,
        |i: int| numbered((i + 1) as nat, c.items[c.page_start(page) + i].display@),
    )
}

/// `"Trang <current> / <pages>"`.
pub open spec fn footer_text(c: CandidateModel, page: nat) -> Seq<char> {
    "Trang "@ + decimal(c.cursor / page + 1) + " / "@ + decimal(c.page_count(page))
}

fn append(v: &mut Vec<char>, s: &str)
    ensures
        final(v)@ == old(v)@ + s@,
{
    let cs = chars_of(s);
    for i in 0..cs.len()
        invariant
            v@ == old(v)@ + cs@.take(i as int),
    {
        v.push(cs[i]);
        assert(v@ =~= old(v)@ + cs@.take(i + 1));
    }
    assert(cs@.take(cs@.len() as int) =~= cs@);
}

fn append_chars(v: &mut Vec<char>, cs: &Vec<char>)
    ensures
        final(v)@ == old(v)@ + cs@,
{
    for i in 0..cs.len()
        invariant
            v@ == old(v)@ + cs@.take(i as int),
    {
        v.push(cs[i]);
        assert(v@ =~= old(v)@ + cs@.take(i + 1));
    }
    assert(cs@.take(cs@.len() as int) =~= cs@);
}

/// The panel's content for a non-empty list, `page` candidates to a page;
/// `None` (hide the panel) for an empty one.
pub fn panel_content(state: &CandidateState, page: usize) -> (r: Option<PanelContent>)
    requires
        page > 0,
    ensures
        state@.items.len() == 0 ==> r is None,
        state@.items.len() > 0 ==> (r matches Some(p) && crate::method_sync::strings_view(p.lines@)
            == page_lines(state@, page as nat) && p.highlight == state@.cursor - state@.page_start(
            page as nat) && (state@.page_count(page as nat) > 1 ==> (p.footer matches Some(f)
            && f@ == footer_text(state@, page as nat))) && (state@.page_count(page as nat) <= 1
            ==> p.footer is None)),
{
    if state.is_empty() {
        return None;
    }
    state.check_wf();
    let start = state.page_start(page);
    let items = state.page_items(page);
    let total_len = state.len();
    assert(state@.page_start(page as nat) <= state@.page_end(page as nat) <= state@.items.len());
    let mut lines: Vec<String> = Vec::new();
    let n = items.len();
    for i in 0..n
        invariant
            n == items@.len(),
            items@ == state@.items.subrange(
                state@.page_start(page as nat) as int,
                state@.page_end(page as nat) as int,
            ),
            lines@.len() == i,
            state@.page_start(page as nat) <= state@.page_end(page as nat) <= state@.items.len(),
            forall|k: int|
                0 <= k < i ==> #[trigger] lines@[k]@ == page_lines(state@, page as nat)[k],
    {
        let mut v = decimal_chars(i + 1);
        append(&mut v, ". ");
        append(&mut v, items[i].display.as_str());
        let ghost before = lines@;
        lines.push(string_from_chars(v.as_slice()));
        proof {
            let st = state@.page_start(page as nat) as int;
            assert(items@[i as int] == state@.items[st + i]);
            assert(page_lines(state@, page as nat).len() == n);
            assert(lines@[i as int]@ == page_lines(state@, page as nat)[i as int]);
            assert forall|k: int| 0 <= k < i + 1 implies #[trigger] lines@[k]@ == page_lines(
                state@,
                page as nat,
            )[k] by {
                if k < i {
                    assert(lines@[k] == before[k]);
                }
            }
        }
    }
    proof {
        assert(crate::method_sync::strings_view(lines@) =~= page_lines(state@, page as nat));
    }
    let count = state.page_count(page);
    let footer = if count > 1 {
        let mut f = chars_of("Trang ");
        let c = state.cursor();
        assert(c < total_len);
        assert(c / page <= c) by (nonlinear_arith)
            requires
                page > 0,
        ;
        let cur = decimal_chars(c / page + 1);
        append_chars(&mut f, &cur);
        append(&mut f, " / ");
        let total = decimal_chars(count);
        append_chars(&mut f, &total);
        Some(string_from_chars(f.as_slice()))
    } else {
        None
    };
    Some(PanelContent { lines, highlight: state.cursor() - start, footer })
}

} // verus!
