//! The registry formats of the TSF text service.
//!
//! Windows records a keyboard the user added as a value named
//! `<langid>:{clsid}{profile}` under the user's language profile; the text
//! service registers one language profile key named `0x%08X` per language.
//! This module reads and writes those names and decides which languages a
//! profile belongs under; the host enumerates and edits the registry.

use crate::text::{
    all_ascii, ascii_upper, ascii_upper_chars, chars_eq_ignore_ascii_case, chars_of,
    eq_ignore_ascii_case, find_char, first_index_of, has_prefix, hex8_upper, hex8_upper_chars,
    lemma_hex8_round_trip, parse_hex_u32, parse_hex_u32_chars, starts_with_chars,
    string_from_chars, sub_chars,
};
use vstd::prelude::*;

verus! {

/// The text service's CLSID, in the braced registry form.
pub open spec fn clsid() -> Seq<char> {
    "{E6B8A6C0-1234-5678-9ABC-DEF012345678}"@
}

/// The language profile's GUID, in the braced registry form.
pub open spec fn profile_guid() -> Seq<char> {
    "{B7447743-7652-4AB6-8D82-250D935EBCC0}"@
}

pub const LANGID_VIETNAMESE: u32 = 0x042A;
pub const LANGID_ENGLISH_US: u32 = 0x0409;

pub fn clsid_buttre_text_service() -> (r: &'static str)
    ensures
        r@ == clsid(),
{
    "{E6B8A6C0-1234-5678-9ABC-DEF012345678}"
}

pub fn guid_profile() -> (r: &'static str)
    ensures
        r@ == profile_guid(),
{
    "{B7447743-7652-4AB6-8D82-250D935EBCC0}"
}

/// `"0409:{clsid}{profile}"` names language 0x0409 when the CLSID after the
/// colon is ours, compared without regard to ASCII case (Windows has written
/// both cases over the years).
pub open spec fn tip_entry_langid(name: Seq<char>) -> Option<u32> {
    match first_index_of(name, ':') {
        None => None,
        Some(i) => if has_prefix(ascii_upper(name.skip(i + 1)), ascii_upper(clsid())) {
            parse_hex_u32(name.take(i))
        } else {
            None
        },
    }
}

/// Parse one value name of a language profile (see [`tip_entry_langid`]).
pub fn parse_tip_entry(name: &str) -> (r: Option<u32>)
    ensures
        r == tip_entry_langid(name@),
{
    let cs = chars_of(name);
    let colon = match find_char(&cs, ':') {
        None => {
            proof {
                assert(first_index_of(name@, ':') is None) by {
                    crate::text::lemma_first_index_none(name@, ':');
                }
            }
            return None;
        },
        Some(i) => i,
    };
    proof {
        crate::text::lemma_first_index_some(name@, ':', colon as int);
    }
    let service = sub_chars(&cs, colon + 1, cs.len());
    let langid = sub_chars(&cs, 0, colon);
    assert(service@ =~= name@.skip(colon + 1));
    assert(langid@ =~= name@.take(colon as int));
    let ours = chars_of(clsid_buttre_text_service());
    let up_service = ascii_upper_chars(&service);
    let up_ours = ascii_upper_chars(&ours);
    if !starts_with_chars(&up_service, &up_ours) {
        return None;
    }
    parse_hex_u32_chars(&langid)
}

// ---------------------------------------------------------------------------
// Sorted sets of language ids
// ---------------------------------------------------------------------------

/// Strictly increasing: sorted and without repeats.
pub open spec fn strictly_sorted(s: Seq<u32>) -> bool {
    forall|i: int, j: int| 0 <= i < j < s.len() ==> s[i] < s[j]
}

/// Insert `x` into a strictly sorted vector, keeping it strictly sorted.
fn insert_sorted(v: &mut Vec<u32>, x: u32)
    requires
        strictly_sorted(old(v)@),
    ensures
        strictly_sorted(final(v)@),
        forall|y: u32| final(v)@.contains(y) <==> (old(v)@.contains(y) || y == x),
{
    let n = v.len();
    let mut p: usize = 0;
    while p < n && v[p] < x
        invariant
            p <= n,
            n == v@.len(),
            forall|k: int| 0 <= k < p ==> v@[k] < x,
        decreases n - p,
    {
        p = p + 1;
    }
    if p < n && v[p] == x {
        return;
    }
    let ghost old_v = v@;
    v.insert(p, x);
    proof {
        assert forall|i: int, j: int| 0 <= i < j < v@.len() implies v@[i] < v@[j] by {
            if j < p {
                assert(v@[i] == old_v[i] && v@[j] == old_v[j]);
            } else if j == p {
                assert(v@[i] == old_v[i]);
            } else if i < p {
                assert(v@[i] == old_v[i] && v@[j] == old_v[j - 1]);
                assert(old_v[j - 1] >= x) by {
                    if p < n {
                        assert(old_v[p as int] > x);
                        if j - 1 > p {
                            assert(old_v[p as int] < old_v[j - 1]);
                        }
                    }
                }
            } else if i == p {
                assert(v@[j] == old_v[j - 1]);
                assert(old_v[p as int] > x);
                if j - 1 > p {
                    assert(old_v[p as int] < old_v[j - 1]);
                }
            } else {
                assert(v@[i] == old_v[i - 1] && v@[j] == old_v[j - 1]);
            }
        }
        assert forall|y: u32| v@.contains(y) <==> (old_v.contains(y) || y == x) by {
            if v@.contains(y) {
                let k = choose|k: int| 0 <= k < v@.len() && v@[k] == y;
                if k < p {
                    assert(old_v[k] == y);
                } else if k > p {
                    assert(old_v[k - 1] == y);
                }
            }
            if old_v.contains(y) {
                let k = choose|k: int| 0 <= k < old_v.len() && old_v[k] == y;
                if k < p {
                    assert(v@[k] == y);
                } else {
                    assert(v@[k + 1] == y);
                }
            }
            assert(v@[p as int] == x);
        }
    }
}

fn u32_in(v: &Vec<u32>, x: u32) -> (r: bool)
    ensures
        r == v@.contains(x),
{
    for i in 0..v.len()
        invariant
            forall|k: int| 0 <= k < i ==> v@[k] != x,
    {
        if v[i] == x {
            return true;
        }
    }
    false
}

/// The language ids to register the text service under: the user's and
/// the system's default language (the installer runs as SYSTEM, whose
/// default may differ), and Vietnamese only when it is installed (a profile
/// under a missing language is an entry that silently types with the plain
/// layout). Zero is not a language. Sorted, each once.
pub fn language_ids_for(user_default: u32, system_default: u32, vietnamese: bool) -> (r: Vec<u32>)
    ensures
        strictly_sorted(r@),
        forall|y: u32|
            r@.contains(y) <==> (y != 0 && (y == user_default || y == system_default || (
            vietnamese && y == LANGID_VIETNAMESE))),
{
    let mut v: Vec<u32> = Vec::new();
    if user_default != 0 {
        insert_sorted(&mut v, user_default);
    }
    if system_default != 0 {
        insert_sorted(&mut v, system_default);
    }
    if vietnamese {
        insert_sorted(&mut v, LANGID_VIETNAMESE);
    }
    v
}

/// The language ids buttre is added under: every id found in the user's
/// language profiles, less the ones the user explicitly disabled. Sorted,
/// each once.
pub fn enabled_langids_from(found: &Vec<u32>, disabled: &Vec<u32>) -> (r: Vec<u32>)
    ensures
        strictly_sorted(r@),
        forall|y: u32| r@.contains(y) <==> (found@.contains(y) && !disabled@.contains(y)),
{
    let mut v: Vec<u32> = Vec::new();
    let n = found.len();
    for i in 0..n
        invariant
            n == found@.len(),
            strictly_sorted(v@),
            forall|y: u32|
                v@.contains(y) <==> (found@.take(i as int).contains(y) && !disabled@.contains(y)),
    {
        let x = found[i];
        if !u32_in(disabled, x) {
            insert_sorted(&mut v, x);
        }
        proof {
            assert forall|y: u32|
                v@.contains(y) <==> (found@.take(i + 1).contains(y) && !disabled@.contains(
                    y,
                )) by {
                let t = found@.take(i + 1);
                assert(t =~= found@.take(i as int).push(x));
                if found@.take(i as int).contains(y) {
                    let k = choose|k: int| 0 <= k < i && found@.take(i as int)[k] == y;
                    assert(t[k] == y);
                }
                if t.contains(y) && y != x {
                    let k = choose|k: int| 0 <= k < t.len() && t[k] == y;
                    assert(found@.take(i as int)[k] == y);
                }
                if y == x {
                    assert(t[i as int] == x);
                }
            }
        }
    }
    assert(found@.take(n as int) =~= found@);
    v
}

/// buttre is one of the user's input methods exactly when it is added
/// under at least one language. Registration alone only makes it
/// available; no language means the hook backend must serve.
pub fn is_buttre_text_service_enabled(langids: &Vec<u32>) -> (r: bool)
    ensures
        r == (langids@.len() > 0),
{
    langids.len() > 0
}

// ---------------------------------------------------------------------------
// Language tags
// ---------------------------------------------------------------------------

/// A BCP-47 tag for Vietnamese: `vi` or `vi-<region>`, any ASCII case.
pub open spec fn vietnamese_tag(tag: Seq<char>) -> bool {
    eq_ignore_ascii_case(tag, "vi"@) || has_prefix(crate::text::ascii_lower(tag), "vi-"@)
}

pub fn is_vietnamese_tag(tag: &str) -> (r: bool)
    ensures
        r == vietnamese_tag(tag@),
{
    let t = chars_of(tag);
    let vi = chars_of("vi");
    if chars_eq_ignore_ascii_case(&t, &vi) {
        return true;
    }
    let mut lower: Vec<char> = Vec::new();
    for i in 0..t.len()
        invariant
            lower@ == crate::text::ascii_lower(t@.take(i as int)),
    {
        lower.push(crate::text::to_ascii_lower_char(t[i]));
        assert(lower@ =~= crate::text::ascii_lower(t@.take(i + 1)));
    }
    assert(t@.take(t@.len() as int) =~= t@);
    let prefix = chars_of("vi-");
    starts_with_chars(&lower, &prefix)
}

/// Whether the user's language list holds a Vietnamese language.
pub fn is_vietnamese_installed_in(tags: &Vec<String>) -> (r: bool)
    ensures
        r == exists|i: int| 0 <= i < tags@.len() && vietnamese_tag(#[trigger] tags@[i]@),
{
    for i in 0..tags.len()
        invariant
            forall|k: int| 0 <= k < i ==> !vietnamese_tag(#[trigger] tags@[k]@),
    {
        if is_vietnamese_tag(tags[i].as_str()) {
            return true;
        }
    }
    false
}

// ---------------------------------------------------------------------------
// Language profile key names
// ---------------------------------------------------------------------------

/// The key name of a language profile: `0x` and eight upper-case
/// hexadecimal digits.
pub open spec fn profile_key(langid: u32) -> Seq<char> {
    "0x"@ + hex8_upper(langid)
}

/// A profile key name read back: `0x` or `0X`, then a hexadecimal number.
pub open spec fn profile_langid(key: Seq<char>) -> Option<u32> {
    if has_prefix(key, "0x"@) || has_prefix(key, "0X"@) {
        parse_hex_u32(key.skip(2))
    } else {
        None
    }
}

pub fn profile_key_name(langid: u32) -> (r: String)
    ensures
        r@ == profile_key(langid),
{
    let mut v = chars_of("0x");
    let h = hex8_upper_chars(langid);
    for i in 0..h.len()
        invariant
            v@ == "0x"@ + h@.take(i as int),
    {
        v.push(h[i]);
        assert(v@ =~= "0x"@ + h@.take(i + 1));
    }
    assert(h@.take(h@.len() as int) =~= h@);
    string_from_chars(v.as_slice())
}

pub fn parse_profile_langid(key: &str) -> (r: Option<u32>)
    ensures
        r == profile_langid(key@),
{
    let cs = chars_of(key);
    let lx = chars_of("0x");
    let ux = chars_of("0X");
    if !(starts_with_chars(&cs, &lx) || starts_with_chars(&cs, &ux)) {
        return None;
    }
    proof {
        reveal_strlit("0x");
        reveal_strlit("0X");
        assert(lx@.len() == 2 && ux@.len() == 2);
    }
    let digits = sub_chars(&cs, 2, cs.len());
    assert(digits@ =~= key@.skip(2));
    parse_hex_u32_chars(&digits)
}

/// Every profile key the text service writes reads back as its language,
/// so pruning never skips a profile it should clean up.
pub proof fn lemma_profile_key_round_trip(langid: u32)
    ensures
        profile_langid(profile_key(langid)) == Some(langid),
{
    reveal_strlit("0x");
    let k = profile_key(langid);
    assert(k.subrange(0, 2) =~= "0x"@);
    assert(k.skip(2) =~= hex8_upper(langid));
    lemma_hex8_round_trip(langid);
}

/// The profile keys to delete: those naming a language that is not
/// wanted. A name that does not parse is not ours and is left alone.
pub fn stale_profiles(names: &Vec<String>, wanted: &Vec<u32>) -> (r: Vec<String>)
    ensures
        crate::method_sync::strings_view(r@) == crate::method_sync::strings_view(names@).filter(
            |k: Seq<char>| profile_langid(k) matches Some(l) && !wanted@.contains(l),
        ),
{
    let ghost pred = |k: Seq<char>| profile_langid(k) matches Some(l) && !wanted@.contains(l);
    let mut out: Vec<String> = Vec::new();
    let n = names.len();
    for i in 0..n
        invariant
            n == names@.len(),
            pred == (|k: Seq<char>| profile_langid(k) matches Some(l) && !wanted@.contains(l)),
            crate::method_sync::strings_view(out@) == crate::method_sync::strings_view(
                names@,
            ).take(i as int).filter(pred),
    {
        let ghost before = out@;
        let stale = match parse_profile_langid(names[i].as_str()) {
            Some(l) => !u32_in(wanted, l),
            None => false,
        };
        if stale {
            out.push(crate::text::string_of(names[i].as_str()));
        }
        proof {
            let s = crate::method_sync::strings_view(names@);
            let t = s.take(i + 1);
            assert(t.drop_last() =~= s.take(i as int));
            assert(t.last() == names@[i as int]@);
            reveal(Seq::filter);
            assert(crate::method_sync::strings_view(out@) =~= t.filter(pred));
        }
    }
    proof {
        let s = crate::method_sync::strings_view(names@);
        assert(s.take(n as int) =~= s);
    }
    out
}

} // verus!
