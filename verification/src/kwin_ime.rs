//! KDE Plasma Wayland: does KWin own the input-method process?
//!
//! On Plasma Wayland the compositor spawns the input method named by
//! kwinrc's `[Wayland] InputMethod=` entry and respawns it, so quitting the
//! tray does not stop typing; the tray's off switch goes through KWin
//! instead. This module reads that entry from kwinrc's text.

use crate::text::{
    chars_eq_ignore_ascii_case, chars_of, contains_chars, contains_seq, eq_ignore_ascii_case,
    find_char, first_index_of, has_prefix, lines_of, split_lines, starts_with_chars,
    string_from_chars, sub_chars, trim, trim_chars, vecs_view,
};
use vstd::prelude::*;

verus! {

/// `s` without its trailing `]` characters (`trim_end_matches(']')`).
pub open spec fn trim_end_brackets(s: Seq<char>) -> Seq<char>
    decreases s.len(),
{
    if s.len() > 0 && s.last() == ']' {
        trim_end_brackets(s.drop_last())
    } else {
        s
    }
}

/// Scan kwinrc lines for `InputMethod` in the `[Wayland]` group
/// (`in_wayland`: the current group is `[Wayland]`, any ASCII case). A
/// locale or flag marker before the `=` (`InputMethod[$e]=`) is tolerated;
/// the value is trimmed. The first such entry wins.
pub open spec fn kwin_scan(ls: Seq<Seq<char>>, in_wayland: bool) -> Option<Seq<char>>
    decreases ls.len(),
{
    if ls.len() == 0 {
        None
    } else {
        let line = trim(ls[0]);
        if line.len() > 0 && line[0] == '[' {
            kwin_scan(
                ls.drop_first(),
                eq_ignore_ascii_case(trim_end_brackets(line.drop_first()), "Wayland"@),
            )
        } else if in_wayland && has_prefix(line, "InputMethod"@) && first_index_of(
            line.skip(11),
            '=',
        ) is Some {
            Some(trim(line.skip(11).skip(first_index_of(line.skip(11), '=')->0 + 1)))
        } else {
            kwin_scan(ls.drop_first(), in_wayland)
        }
    }
}

/// The `[Wayland] InputMethod=` value of kwinrc `content`.
pub open spec fn kwin_input_method(content: Seq<char>) -> Option<Seq<char>> {
    kwin_scan(lines_of(content), false)
}

fn without_trailing_brackets(s: &Vec<char>) -> (r: Vec<char>)
    ensures
        r@ == trim_end_brackets(s@),
{
    let mut j = s.len();
    assert(s@.subrange(0, j as int) =~= s@);
    while j > 0 && s[j - 1] == ']'
        invariant
            j <= s@.len(),
            trim_end_brackets(s@) == trim_end_brackets(s@.subrange(0, j as int)),
        decreases j,
    {
        assert(s@.subrange(0, j as int).drop_last() =~= s@.subrange(0, j - 1));
        j = j - 1;
    }
    sub_chars(s, 0, j)
}

/// Extract the `[Wayland] InputMethod=` value from kwinrc content: a manual
/// INI scan, because the group matters (`InputMethod` can legitimately
/// appear under other groups).
pub fn kwinrc_value(content: &str) -> (r: Option<String>)
    ensures
        match r {
            Some(v) => kwin_input_method(content@) == Some(v@),
            None => kwin_input_method(content@) is None,
        },
{
    let lines = split_lines(content);
    let ghost ls = vecs_view(lines@);
    let mut in_wayland = false;
    let n = lines.len();
    let key = chars_of("InputMethod");
    proof {
        reveal_strlit("InputMethod");
        assert(ls.skip(0) =~= ls);
    }
    for i in 0..n
        invariant
            n == lines@.len(),
            ls == vecs_view(lines@),
            ls == lines_of(content@),
            key@ == "InputMethod"@,
            key@.len() == 11,
            kwin_scan(ls, false) == kwin_scan(ls.skip(i as int), in_wayland),
    {
        let ghost rest = ls.skip(i as int);
        assert(rest[0] == lines@[i as int]@);
        assert(rest.drop_first() =~= ls.skip(i + 1));
        let line = trim_chars(&lines[i]);
        if line.len() > 0 && line[0] == '[' {
            let inner = sub_chars(&line, 1, line.len());
            assert(inner@ =~= line@.drop_first());
            let name = without_trailing_brackets(&inner);
            let wayland = chars_of("Wayland");
            in_wayland = chars_eq_ignore_ascii_case(&name, &wayland);
        } else if in_wayland && starts_with_chars(&line, &key) {
            let value = sub_chars(&line, 11, line.len());
            assert(value@ =~= line@.skip(11));
            match find_char(&value, '=') {
                Some(eq) => {
                    proof {
                        crate::text::lemma_first_index_some(value@, '=', eq as int);
                    }
                    let after = sub_chars(&value, eq + 1, value.len());
                    assert(after@ =~= value@.skip(eq + 1));
                    let v = trim_chars(&after);
                    proof {
                        assert(line@ == trim(rest[0]));
                        assert(has_prefix(line@, "InputMethod"@));
                        assert(first_index_of(line@.skip(11), '=') == Some(eq as int));
                        assert(!(line@.len() > 0 && line@[0] == '['));
                        assert(kwin_scan(rest, in_wayland) == Some(v@));
                    }
                    return Some(string_from_chars(v.as_slice()));
                },
                None => {
                    proof {
                        crate::text::lemma_first_index_none(value@, '=');
                    }
                },
            }
        }
    }
    assert(ls.skip(n as int).len() == 0);
    None
}

/// The configured `[Wayland] InputMethod=` value, given kwinrc's content
/// (`None` when the file could not be read).
pub fn kwinrc_input_method(content: Option<&str>) -> (r: Option<String>)
    ensures
        match content {
            None => r is None,
            Some(c) => match r {
                Some(v) => kwin_input_method(c@) == Some(v@),
                None => kwin_input_method(c@) is None,
            },
        },
{
    match content {
        None => None,
        Some(c) => kwinrc_value(c),
    }
}

/// kwinrc's `[Wayland] InputMethod=` names buttre.
pub open spec fn points_at_buttre(content: Seq<char>) -> bool {
    match kwin_input_method(content) {
        Some(v) => contains_seq(v, "buttre"@),
        None => false,
    }
}

pub fn kwinrc_points_at_buttre(content: &str) -> (r: bool)
    ensures
        r == points_at_buttre(content@),
{
    match kwinrc_value(content) {
        Some(v) => {
            let cs = chars_of(v.as_str());
            let b = chars_of("buttre");
            contains_chars(&cs, &b)
        },
        None => false,
    }
}

/// The session can and should drive KWin's input-method switch: a Wayland
/// session whose kwinrc (`None`: unreadable) names buttre.
pub fn manages_buttre_ime(wayland_session: bool, kwinrc: Option<&str>) -> (r: bool)
    ensures
        r == (wayland_session && match kwinrc {
            Some(c) => points_at_buttre(c@),
            None => false,
        }),
{
    if !wayland_session {
        return false;
    }
    match kwinrc {
        Some(c) => kwinrc_points_at_buttre(c),
        None => false,
    }
}

} // verus!
