//! Character-level text helpers the parsers in this crate share: whitespace
//! trimming, ASCII case mapping, prefix and substring tests, and hexadecimal
//! numbers in the forms the Windows registry uses.
//!
//! Everything works on `Seq<char>` in the specifications and on `Vec<char>`
//! in the code, so a `&str` is read once into characters and a `String` is
//! built once from them.

use vstd::prelude::*;

verus! {

// ---------------------------------------------------------------------------
// Conversions between strings and characters
// ---------------------------------------------------------------------------

/// The characters of `s`, in order.
pub fn chars_of(s: &str) -> (r: Vec<char>)
    ensures
        r@ == s@,
{
    let mut out: Vec<char> = Vec::new();
    for c in it: s.chars()
        invariant
            it.seq() == s@,
            out@ == it.seq().take(it.index() as int),
    {
        out.push(c);
    }
    out
}

/// Collect characters into a `String` (`FromIterator<&char> for String`).
#[verifier::external_body]
pub(crate) fn string_from_chars(chars: &[char]) -> (r: String)
    ensures
        r@ == chars@,
{
    chars.iter().collect()
}

/// The string holding exactly `s`.
pub fn string_of(s: &str) -> (r: String)
    ensures
        r@ == s@,
{
    let v = chars_of(s);
    string_from_chars(v.as_slice())
}

/// Two strings hold the same characters.
pub fn str_eq(a: &str, b: &str) -> (r: bool)
    ensures
        r == (a@ == b@),
{
    let x = chars_of(a);
    let y = chars_of(b);
    seq_eq(&x, &y)
}

/// Two character vectors are equal.
pub fn seq_eq(x: &Vec<char>, y: &Vec<char>) -> (r: bool)
    ensures
        r == (x@ == y@),
{
    if x.len() != y.len() {
        return false;
    }
    let n = x.len();
    for i in 0..n
        invariant
            n == x@.len(),
            n == y@.len(),
            forall|k: int| 0 <= k < i ==> x@[k] == y@[k],
    {
        if x[i] != y[i] {
            return false;
        }
    }
    assert(x@ =~= y@);
    true
}

// ---------------------------------------------------------------------------
// Whitespace and trimming
// ---------------------------------------------------------------------------

/// `char::is_whitespace`: the Unicode `White_Space` property.
pub open spec fn is_space(c: char) -> bool {
    let u = c as u32;
    ||| 0x09 <= u <= 0x0D
    ||| u == 0x20
    ||| u == 0x85
    ||| u == 0xA0
    ||| u == 0x1680
    ||| 0x2000 <= u <= 0x200A
    ||| u == 0x2028
    ||| u == 0x2029
    ||| u == 0x202F
    ||| u == 0x205F
    ||| u == 0x3000
}

pub fn char_is_space(c: char) -> (r: bool)
    ensures
        r == is_space(c),
{
    let u = c as u32;
    (0x09 <= u && u <= 0x0D) || u == 0x20 || u == 0x85 || u == 0xA0 || u == 0x1680 || (0x2000
        <= u && u <= 0x200A) || u == 0x2028 || u == 0x2029 || u == 0x202F || u == 0x205F || u
        == 0x3000
}

/// Leading whitespace removed (`str::trim_start`).
pub open spec fn trim_start(s: Seq<char>) -> Seq<char>
    decreases s.len(),
{
    if s.len() > 0 && is_space(s[0]) {
        trim_start(s.drop_first())
    } else {
        s
    }
}

/// Trailing whitespace removed (`str::trim_end`).
pub open spec fn trim_end(s: Seq<char>) -> Seq<char>
    decreases s.len(),
{
    if s.len() > 0 && is_space(s.last()) {
        trim_end(s.drop_last())
    } else {
        s
    }
}

/// Both ends trimmed (`str::trim`).
pub open spec fn trim(s: Seq<char>) -> Seq<char> {
    trim_end(trim_start(s))
}

proof fn lemma_trim_start_step(s: Seq<char>, i: int)
    requires
        0 <= i < s.len(),
        is_space(s[i]),
    ensures
        trim_start(s.subrange(i, s.len() as int)) == trim_start(s.subrange(i + 1, s.len() as int)),
{
    let t = s.subrange(i, s.len() as int);
    assert(t.drop_first() =~= s.subrange(i + 1, s.len() as int));
}

proof fn lemma_trim_end_step(s: Seq<char>, j: int)
    requires
        0 < j <= s.len(),
        is_space(s[j - 1]),
    ensures
        trim_end(s.subrange(0, j)) == trim_end(s.subrange(0, j - 1)),
{
    let t = s.subrange(0, j);
    assert(t.drop_last() =~= s.subrange(0, j - 1));
}

/// The characters of `s` without leading and trailing whitespace.
pub fn trim_chars(s: &Vec<char>) -> (r: Vec<char>)
    ensures
        r@ == trim(s@),
{
    let n = s.len();
    let mut i: usize = 0;
    assert(s@.subrange(0, n as int) =~= s@);
    while i < n && char_is_space(s[i])
        invariant
            i <= n,
            n == s@.len(),
            trim_start(s@) == trim_start(s@.subrange(i as int, n as int)),
        decreases n - i,
    {
        proof {
            lemma_trim_start_step(s@, i as int);
        }
        i = i + 1;
    }
    let ghost front = s@.subrange(i as int, n as int);
    assert(trim_start(s@) == front) by {
        if i < n {
            assert(!is_space(front[0]));
        }
    }
    let mut j: usize = n;
    assert(front.subrange(0, (j - i) as int) =~= front);
    while j > i && char_is_space(s[j - 1])
        invariant
            i <= j <= n,
            n == s@.len(),
            front == s@.subrange(i as int, n as int),
            trim_end(front) == trim_end(front.subrange(0, (j - i) as int)),
        decreases j,
    {
        proof {
            lemma_trim_end_step(front, (j - i) as int);
            assert(front.subrange(0, (j - i - 1) as int) =~= front.subrange(
                0,
                (j - 1 - i) as int,
            ));
        }
        j = j - 1;
    }
    let ghost kept = front.subrange(0, (j - i) as int);
    assert(trim_end(front) == kept) by {
        if j > i {
            assert(kept.last() == s@[j - 1]);
        }
    }
    let mut out: Vec<char> = Vec::new();
    let mut k = i;
    while k < j
        invariant
            i <= k <= j <= n,
            n == s@.len(),
            out@ == s@.subrange(i as int, k as int),
        decreases j - k,
    {
        out.push(s[k]);
        assert(out@ =~= s@.subrange(i as int, k + 1));
        k = k + 1;
    }
    assert(kept =~= s@.subrange(i as int, j as int));
    out
}

// ---------------------------------------------------------------------------
// ASCII case
// ---------------------------------------------------------------------------

pub open spec fn is_ascii_upper(c: char) -> bool {
    'A' <= c <= 'Z'
}

pub open spec fn is_ascii_lower(c: char) -> bool {
    'a' <= c <= 'z'
}

/// `char::to_ascii_lowercase`.
pub open spec fn ascii_lower_char(c: char) -> char {
    if is_ascii_upper(c) {
        ((c as u32) + 32) as char
    } else {
        c
    }
}

/// `char::to_ascii_uppercase`.
pub open spec fn ascii_upper_char(c: char) -> char {
    if is_ascii_lower(c) {
        ((c as u32) - 32) as char
    } else {
        c
    }
}

pub open spec fn ascii_lower(s: Seq<char>) -> Seq<char> {
    s.map_values(|c: char| ascii_lower_char(c))
}

pub open spec fn ascii_upper(s: Seq<char>) -> Seq<char> {
    s.map_values(|c: char| ascii_upper_char(c))
}

pub fn to_ascii_lower_char(c: char) -> (r: char)
    ensures
        r == ascii_lower_char(c),
{
    if 'A' <= c && c <= 'Z' {
        let u = (c as u32) + 32;
        let b = u as u8;
        b as char
    } else {
        c
    }
}

pub fn to_ascii_upper_char(c: char) -> (r: char)
    ensures
        r == ascii_upper_char(c),
{
    if 'a' <= c && c <= 'z' {
        let u = (c as u32) - 32;
        let b = u as u8;
        b as char
    } else {
        c
    }
}

/// `str::to_ascii_uppercase` on characters.
pub fn ascii_upper_chars(s: &Vec<char>) -> (r: Vec<char>)
    ensures
        r@ == ascii_upper(s@),
{
    let mut out: Vec<char> = Vec::new();
    let n = s.len();
    for i in 0..n
        invariant
            n == s@.len(),
            out@ == ascii_upper(s@.subrange(0, i as int)),
    {
        out.push(to_ascii_upper_char(s[i]));
        assert(ascii_upper(s@.subrange(0, i + 1)) =~= ascii_upper(s@.subrange(0, i as int)).push(
            ascii_upper_char(s@[i as int]),
        ));
    }
    assert(s@.subrange(0, n as int) =~= s@);
    out
}

/// `str::eq_ignore_ascii_case`.
pub open spec fn eq_ignore_ascii_case(a: Seq<char>, b: Seq<char>) -> bool {
    ascii_lower(a) == ascii_lower(b)
}

pub fn chars_eq_ignore_ascii_case(a: &Vec<char>, b: &Vec<char>) -> (r: bool)
    ensures
        r == eq_ignore_ascii_case(a@, b@),
{
    if a.len() != b.len() {
        assert(ascii_lower(a@).len() != ascii_lower(b@).len());
        return false;
    }
    let n = a.len();
    for i in 0..n
        invariant
            n == a@.len(),
            n == b@.len(),
            forall|k: int| 0 <= k < i ==> ascii_lower_char(a@[k]) == ascii_lower_char(b@[k]),
    {
        if to_ascii_lower_char(a[i]) != to_ascii_lower_char(b[i]) {
            assert(ascii_lower(a@)[i as int] != ascii_lower(b@)[i as int]);
            return false;
        }
    }
    assert(ascii_lower(a@) =~= ascii_lower(b@));
    true
}

pub open spec fn all_ascii(s: Seq<char>) -> bool {
    forall|i: int| 0 <= i < s.len() ==> (s[i] as u32) < 128
}

// ---------------------------------------------------------------------------
// Unicode lower case
// ---------------------------------------------------------------------------

/// What `str::to_lowercase` returns for `s` (the Unicode lower-case mapping,
/// including its context-dependent cases such as a word-final sigma).
pub uninterp spec fn unicode_lowercase(s: Seq<char>) -> Seq<char>;

/// Lower case as `str::to_lowercase` computes it: the ASCII mapping on
/// ASCII text, the full Unicode mapping otherwise.
pub open spec fn lowercase(s: Seq<char>) -> Seq<char> {
    if all_ascii(s) {
        ascii_lower(s)
    } else {
        unicode_lowercase(s)
    }
}

/// `str::to_lowercase` — the full Unicode lower-case mapping. The contract
/// names the result; on ASCII text, which is all the method ids this crate
/// admits, it is the ASCII mapping (as the standard library documents for
/// every ASCII character). Nothing is stated of other characters.
#[verifier::external_body]
pub(crate) fn to_lowercase(s: &str) -> (r: String)
    ensures
        r@ == unicode_lowercase(s@),
        all_ascii(s@) ==> r@ == ascii_lower(s@),
{
    s.to_lowercase()
}

// ---------------------------------------------------------------------------
// Prefixes, substrings, searching
// ---------------------------------------------------------------------------

pub open spec fn has_prefix(s: Seq<char>, p: Seq<char>) -> bool {
    p.len() <= s.len() && s.subrange(0, p.len() as int) == p
}

pub open spec fn contains_at(s: Seq<char>, p: Seq<char>, i: int) -> bool {
    0 <= i && i + p.len() <= s.len() && s.subrange(i, i + p.len()) == p
}

/// `str::contains` with a string pattern.
pub open spec fn contains_seq(s: Seq<char>, p: Seq<char>) -> bool {
    exists|i: int| contains_at(s, p, i)
}

pub fn starts_with_chars(s: &Vec<char>, p: &Vec<char>) -> (r: bool)
    ensures
        r == has_prefix(s@, p@),
{
    if p.len() > s.len() {
        return false;
    }
    let n = p.len();
    for i in 0..n
        invariant
            n == p@.len(),
            n <= s@.len(),
            forall|k: int| 0 <= k < i ==> s@[k] == p@[k],
    {
        if s[i] != p[i] {
            assert(s@.subrange(0, n as int)[i as int] != p@[i as int]);
            return false;
        }
    }
    assert(s@.subrange(0, n as int) =~= p@);
    true
}

fn matches_at(s: &Vec<char>, p: &Vec<char>, i: usize) -> (r: bool)
    requires
        i + p@.len() <= s@.len(),
    ensures
        r == contains_at(s@, p@, i as int),
{
    let n = p.len();
    let sl = s.len();
    for k in 0..n
        invariant
            n == p@.len(),
            sl == s@.len(),
            i + n <= s@.len(),
            forall|m: int| 0 <= m < k ==> s@[i + m] == p@[m],
    {
        if s[i + k] != p[k] {
            assert(s@.subrange(i as int, i + n)[k as int] != p@[k as int]);
            return false;
        }
    }
    assert(s@.subrange(i as int, i + n) =~= p@);
    true
}

pub fn contains_chars(s: &Vec<char>, p: &Vec<char>) -> (r: bool)
    ensures
        r == contains_seq(s@, p@),
{
    if p.len() > s.len() {
        return false;
    }
    let last = s.len() - p.len();
    for i in 0..last
        invariant
            last == s@.len() - p@.len(),
            p@.len() <= s@.len(),
            forall|k: int| 0 <= k < i ==> !contains_at(s@, p@, k),
    {
        if matches_at(s, p, i) {
            return true;
        }
    }
    if matches_at(s, p, last) {
        return true;
    }
    assert forall|k: int| !contains_at(s@, p@, k) by {
        if 0 <= k && k + p@.len() <= s@.len() {
            assert(k <= last);
        }
    }
    false
}

/// Index of the first occurrence of `c`, if any.
pub open spec fn first_index_of(s: Seq<char>, c: char) -> Option<int> {
    if exists|i: int| 0 <= i < s.len() && s[i] == c {
        Some(choose|i: int| 0 <= i < s.len() && s[i] == c && forall|k: int| 0 <= k < i ==> s[k] != c)
    } else {
        None
    }
}

pub proof fn lemma_first_index_some(s: Seq<char>, c: char, i: int)
    requires
        0 <= i < s.len(),
        s[i] == c,
        forall|k: int| 0 <= k < i ==> s[k] != c,
    ensures
        first_index_of(s, c) == Some(i),
{
    let j = choose|j: int| 0 <= j < s.len() && s[j] == c && forall|k: int| 0 <= k < j ==> s[k] != c;
    assert(0 <= i < s.len() && s[i] == c && forall|k: int| 0 <= k < i ==> s[k] != c);
    assert(j == i) by {
        if j < i {
            assert(s[j] != c);
        }
        if j > i {
            assert(s[i] != c);
        }
    }
}

pub proof fn lemma_first_index_none(s: Seq<char>, c: char)
    requires
        forall|k: int| 0 <= k < s.len() ==> s[k] != c,
    ensures
        first_index_of(s, c) is None,
{
}

pub fn find_char(s: &Vec<char>, c: char) -> (r: Option<usize>)
    ensures
        match r {
            Some(i) => i < s@.len() && s@[i as int] == c && forall|k: int|
                0 <= k < i ==> s@[k] != c,
            None => forall|k: int| 0 <= k < s@.len() ==> s@[k] != c,
        },
        r matches Some(i) ==> first_index_of(s@, c) == Some(i as int),
        r is None ==> first_index_of(s@, c) is None,
{
    let n = s.len();
    for i in 0..n
        invariant
            n == s@.len(),
            forall|k: int| 0 <= k < i ==> s@[k] != c,
    {
        if s[i] == c {
            proof {
                let w = choose|j: int|
                    0 <= j < s@.len() && s@[j] == c && forall|k: int| 0 <= k < j ==> s@[k] != c;
                assert(0 <= i < s@.len() && s@[i as int] == c && forall|k: int|
                    0 <= k < i ==> s@[k] != c);
                if w < i {
                    assert(s@[w] != c);
                } else if w > i {
                    assert(s@[i as int] != c);
                }
            }
            return Some(i);
        }
    }
    None
}

/// `s[from..to]` as a new vector.
pub fn sub_chars(s: &Vec<char>, from: usize, to: usize) -> (r: Vec<char>)
    requires
        from <= to <= s@.len(),
    ensures
        r@ == s@.subrange(from as int, to as int),
{
    let mut out: Vec<char> = Vec::new();
    let mut k = from;
    while k < to
        invariant
            from <= k <= to <= s@.len(),
            out@ == s@.subrange(from as int, k as int),
        decreases to - k,
    {
        out.push(s[k]);
        assert(out@ =~= s@.subrange(from as int, k + 1));
        k = k + 1;
    }
    out
}

// ---------------------------------------------------------------------------
// Hexadecimal numbers
// ---------------------------------------------------------------------------

/// Value of one hexadecimal digit, either case.
pub open spec fn hex_digit(c: char) -> Option<nat> {
    if '0' <= c <= '9' {
        Some((c as u32 - '0' as u32) as nat)
    } else if 'a' <= c <= 'f' {
        Some((c as u32 - 'a' as u32 + 10) as nat)
    } else if 'A' <= c <= 'F' {
        Some((c as u32 - 'A' as u32 + 10) as nat)
    } else {
        None
    }
}

/// Value of a run of hexadecimal digits (most significant first), or `None`
/// when one of them is not a digit.
pub open spec fn hex_digits_value(s: Seq<char>) -> Option<nat>
    decreases s.len(),
{
    if s.len() == 0 {
        Some(0)
    } else {
        match (hex_digits_value(s.drop_last()), hex_digit(s.last())) {
            (Some(v), Some(d)) => Some(v * 16 + d),
            _ => None,
        }
    }
}

/// `u32::from_str_radix(s, 16)`: an optional `+` (not on its own), then at
/// least one hexadecimal digit, and a value that fits in `u32`.
pub open spec fn parse_hex_u32(s: Seq<char>) -> Option<u32> {
    let digits = if s.len() > 1 && s[0] == '+' {
        s.drop_first()
    } else {
        s
    };
    if digits.len() == 0 {
        None
    } else {
        match hex_digits_value(digits) {
            Some(v) => if v <= u32::MAX {
                Some(v as u32)
            } else {
                None
            },
            None => None,
        }
    }
}

fn hex_digit_of(c: char) -> (r: Option<u32>)
    ensures
        match hex_digit(c) {
            Some(d) => r == Some(d as u32),
            None => r is None,
        },
{
    if '0' <= c && c <= '9' {
        Some((c as u32) - ('0' as u32))
    } else if 'a' <= c && c <= 'f' {
        Some((c as u32) - ('a' as u32) + 10)
    } else if 'A' <= c && c <= 'F' {
        Some((c as u32) - ('A' as u32) + 10)
    } else {
        None
    }
}

proof fn lemma_hex_prefix_value(s: Seq<char>, i: int)
    requires
        0 <= i < s.len(),
    ensures
        hex_digits_value(s.subrange(0, i + 1)) == match (
            hex_digits_value(s.subrange(0, i)),
            hex_digit(s[i]),
        ) {
            (Some(v), Some(d)) => Some(v * 16 + d),
            _ => None::<nat>,
        },
{
    let t = s.subrange(0, i + 1);
    assert(t.drop_last() =~= s.subrange(0, i));
}

/// Once a prefix is not a number, or exceeds `bound`, no longer prefix is a
/// number within `bound`.
proof fn lemma_hex_monotone(s: Seq<char>, i: int, j: int)
    requires
        0 <= i <= j <= s.len(),
    ensures
        hex_digits_value(s.subrange(0, i)) is None ==> hex_digits_value(s.subrange(0, j)) is None,
        hex_digits_value(s.subrange(0, i)) is Some && hex_digits_value(s.subrange(0, j)) is Some
            ==> hex_digits_value(s.subrange(0, i))->0 <= hex_digits_value(s.subrange(0, j))->0,
    decreases j - i,
{
    if i < j {
        lemma_hex_monotone(s, i, j - 1);
        lemma_hex_prefix_value(s, j - 1);
    }
}

/// Parse a hexadecimal `u32` exactly as `u32::from_str_radix(s, 16)` does.
#[verifier::spinoff_prover]
pub fn parse_hex_u32_chars(s: &Vec<char>) -> (r: Option<u32>)
    ensures
        r == parse_hex_u32(s@),
{
    let n = s.len();
    let start: usize = if n > 1 && s[0] == '+' {
        1
    } else {
        0
    };
    let ghost digits = s@.subrange(start as int, n as int);
    assert(digits =~= (if s@.len() > 1 && s@[0] == '+' {
        s@.drop_first()
    } else {
        s@
    }));
    if start == n {
        return None;
    }
    let mut value: u32 = 0;
    let mut i = start;
    assert(digits.subrange(0, 0) =~= Seq::<char>::empty());
    while i < n
        invariant
            start <= i <= n,
            n == s@.len(),
            digits == s@.subrange(start as int, n as int),
            digits.len() > 0,
            digits == (if s@.len() > 1 && s@[0] == '+' {
                s@.drop_first()
            } else {
                s@
            }),
            hex_digits_value(digits.subrange(0, (i - start) as int)) == Some(value as nat),
        decreases n - i,
    {
        proof {
            lemma_hex_prefix_value(digits, (i - start) as int);
            assert(digits[(i - start) as int] == s@[i as int]);
        }
        let d = match hex_digit_of(s[i]) {
            Some(d) => d,
            None => {
                proof {
                    lemma_hex_monotone(digits, (i - start + 1) as int, digits.len() as int);
                    assert(digits.subrange(0, digits.len() as int) =~= digits);
                }
                return None;
            },
        };
        if value > 0x0FFF_FFFF {
            proof {
                lemma_hex_monotone(digits, (i - start + 1) as int, digits.len() as int);
                assert(digits.subrange(0, digits.len() as int) =~= digits);
            }
            return None;
        }
        value = value * 16 + d;
        i = i + 1;
    }
    assert(digits.subrange(0, (n - start) as int) =~= digits);
    Some(value)
}

/// The upper-case hexadecimal digit for `d < 16`.
pub open spec fn hex_upper_digit(d: nat) -> char {
    if d < 10 {
        (('0' as u32) + d) as char
    } else {
        (('A' as u32) + d - 10) as char
    }
}

/// The eight upper-case hexadecimal digits of `n`, most significant first
/// (`format!("{:08X}", n)`).
pub open spec fn hex8_upper(n: u32) -> Seq<char> {
    Seq::new(8, |i: int| hex_upper_digit(((n as nat) / pow16((7 - i) as nat)) % 16))
}

pub open spec fn pow16(k: nat) -> nat
    decreases k,
{
    if k == 0 {
        1
    } else {
        16 * pow16((k - 1) as nat)
    }
}

fn hex_upper_digit_of(d: u32) -> (r: char)
    requires
        d < 16,
    ensures
        r == hex_upper_digit(d as nat),
{
    if d < 10 {
        let b = ('0' as u32 + d) as u8;
        b as char
    } else {
        let b = ('A' as u32 + d - 10) as u8;
        b as char
    }
}

/// `format!("{:08X}", n)` as characters.
pub fn hex8_upper_chars(n: u32) -> (r: Vec<char>)
    ensures
        r@ == hex8_upper(n),
{
    let mut out: Vec<char> = Vec::new();
    let mut k: u32 = 0;
    while k < 8
        invariant
            k <= 8,
            out@.len() == k,
            forall|i: int| 0 <= i < k ==> out@[i] == hex8_upper(n)[i],
        decreases 8 - k,
    {
        let shift = (7 - k) * 4;
        let d = (n >> shift) & 0xF;
        proof {
            lemma_nibble(n, (7 - k) as nat);
        }
        out.push(hex_upper_digit_of(d));
        k = k + 1;
    }
    assert(out@ =~= hex8_upper(n));
    out
}

proof fn lemma_pow16_values(k: nat)
    requires
        k <= 7,
    ensures
        k == 0 ==> pow16(k) == 1,
        k == 1 ==> pow16(k) == 16,
        k == 2 ==> pow16(k) == 256,
        k == 3 ==> pow16(k) == 4096,
        k == 4 ==> pow16(k) == 65536,
        k == 5 ==> pow16(k) == 1048576,
        k == 6 ==> pow16(k) == 16777216,
        k == 7 ==> pow16(k) == 268435456,
{
    reveal_with_fuel(pow16, 8);
}

proof fn lemma_hex_digit_round(d: nat)
    requires
        d < 16,
    ensures
        hex_digit(hex_upper_digit(d)) == Some(d),
{
}

/// Prefixes of the eight digits read back as the leading part of `n`.
proof fn lemma_hex8_prefix(n: u32, k: nat)
    requires
        k <= 8,
    ensures
        hex_digits_value(hex8_upper(n).take(k as int)) == Some((n as nat) / pow16((8 - k) as nat)),
    decreases k,
{
    let s = hex8_upper(n);
    if k == 0 {
        reveal_with_fuel(pow16, 9);
        assert(s.take(0) =~= Seq::<char>::empty());
        assert(pow16(8) == 4294967296);
        assert((n as nat) / pow16(8) == 0);
    } else {
        lemma_hex8_prefix(n, (k - 1) as nat);
        let t = s.take(k as int);
        assert(t.drop_last() =~= s.take(k - 1));
        let a = pow16((8 - k) as nat);
        assert(pow16((9 - k) as nat) == 16 * a);
        assert(a > 0) by {
            lemma_pow16_positive((8 - k) as nat);
        }
        let y = (n as nat) / a;
        assert(t.last() == hex_upper_digit(y % 16));
        lemma_hex_digit_round(y % 16);
        vstd::arithmetic::div_mod::lemma_div_denominator(n as int, a as int, 16);
        assert((n as nat) / (a * 16) == (n as nat) / pow16((9 - k) as nat)) by {
            assert(a * 16 == 16 * a);
        }
        vstd::arithmetic::div_mod::lemma_fundamental_div_mod(y as int, 16);
        assert(hex_digits_value(t.drop_last()) == Some((n as nat) / pow16((9 - k) as nat)));
        assert((n as nat) / pow16((9 - k) as nat) == y / 16);
        assert((y / 16) * 16 + y % 16 == y);
        assert(hex_digits_value(t) == Some(y));
    }
}

proof fn lemma_pow16_positive(k: nat)
    ensures
        pow16(k) > 0,
    decreases k,
{
    if k > 0 {
        lemma_pow16_positive((k - 1) as nat);
    }
}

/// Eight upper-case hexadecimal digits read back as the number they
/// print: `u32::from_str_radix(&format!("{:08X}", n), 16) == Ok(n)`.
pub proof fn lemma_hex8_round_trip(n: u32)
    ensures
        parse_hex_u32(hex8_upper(n)) == Some(n),
{
    let s = hex8_upper(n);
    lemma_hex8_prefix(n, 8);
    assert(s.take(8) =~= s);
    assert(pow16(0) == 1);
    lemma_hex_digit_round(((n as nat) / pow16(7)) % 16);
    assert(s[0] == hex_upper_digit(((n as nat) / pow16(7)) % 16));
    assert(s[0] != '+');
    assert(s.len() == 8);
    assert((n as nat) / 1 == n as nat);
    assert(hex_digits_value(s) == Some(n as nat));
}

proof fn lemma_nibble(n: u32, k: nat)
    requires
        k <= 7,
    ensures
        ((n >> ((k * 4) as u32)) & 0xF) as nat == ((n as nat) / pow16(k)) % 16,
        ((n >> ((k * 4) as u32)) & 0xF) < 16,
{
    lemma_pow16_values(k);
    let s = (k * 4) as u32;
    assert((n >> s) & 0xF < 16) by (bit_vector);
    assert((n >> s) & 0xF == (n >> s) % 16) by (bit_vector);
    if k == 0 {
        assert(n >> 0u32 == n) by (bit_vector);
    } else if k == 1 {
        assert(n >> 4u32 == n / 16) by (bit_vector);
    } else if k == 2 {
        assert(n >> 8u32 == n / 256) by (bit_vector);
    } else if k == 3 {
        assert(n >> 12u32 == n / 4096) by (bit_vector);
    } else if k == 4 {
        assert(n >> 16u32 == n / 65536) by (bit_vector);
    } else if k == 5 {
        assert(n >> 20u32 == n / 1048576) by (bit_vector);
    } else if k == 6 {
        assert(n >> 24u32 == n / 16777216) by (bit_vector);
    } else {
        assert(n >> 28u32 == n / 268435456) by (bit_vector);
    }
}

// ---------------------------------------------------------------------------
// UTF-8 and UTF-16 lengths
// ---------------------------------------------------------------------------

/// `char::len_utf8`.
pub open spec fn utf8_len(c: char) -> nat {
    let u = c as u32;
    if u < 0x80 {
        1
    } else if u < 0x800 {
        2
    } else if u < 0x10000 {
        3
    } else {
        4
    }
}

pub fn char_utf8_len(c: char) -> (r: usize)
    ensures
        r == utf8_len(c),
{
    let u = c as u32;
    if u < 0x80 {
        1
    } else if u < 0x800 {
        2
    } else if u < 0x10000 {
        3
    } else {
        4
    }
}


/// Length in bytes of the UTF-8 encoding of `s`.
pub open spec fn utf8_seq_len(s: Seq<char>) -> nat
    decreases s.len(),
{
    if s.len() == 0 {
        0
    } else {
        utf8_seq_len(s.drop_last()) + utf8_len(s.last())
    }
}

proof fn lemma_utf8_len_concat(a: Seq<char>, b: Seq<char>)
    ensures
        utf8_seq_len(a + b) == utf8_seq_len(a) + utf8_seq_len(b),
    decreases b.len(),
{
    if b.len() == 0 {
        assert(a + b =~= a);
    } else {
        lemma_utf8_len_concat(a, b.drop_last());
        assert((a + b).drop_last() =~= a + b.drop_last());
        assert((a + b).last() == b.last());
    }
}

proof fn lemma_scalar_len(c: char)
    ensures
        vstd::utf8::encode_scalar(c as u32).len() == utf8_len(c),
{
    vstd::utf8::char_is_scalar(c);
}

/// The byte count used throughout the crate is the length of the standard
/// UTF-8 encoding: `utf8_seq_len(s)` bytes is what `s` takes as UTF-8.
pub proof fn lemma_utf8_len_is_encoding_len(s: Seq<char>)
    ensures
        utf8_seq_len(s) == vstd::utf8::encode_utf8(s).len(),
    decreases s.len(),
{
    if s.len() > 0 {
        lemma_utf8_len_is_encoding_len(s.drop_first());
        lemma_scalar_len(s[0]);
        assert(s =~= seq![s[0]] + s.drop_first());
        lemma_utf8_len_concat(seq![s[0]], s.drop_first());
        assert(seq![s[0]].drop_last() =~= Seq::<char>::empty());
        assert(utf8_seq_len(Seq::<char>::empty()) == 0);
        assert(seq![s[0]].last() == s[0]);
        assert(utf8_seq_len(seq![s[0]]) == utf8_len(s[0]));
        assert(vstd::utf8::encode_utf8(s) == vstd::utf8::encode_scalar(s[0] as u32)
            + vstd::utf8::encode_utf8(s.drop_first()));
    }
}

/// `str::len`: the length of `s` in bytes, which for UTF-8 text is the sum
/// of the encoded lengths of its characters.
#[verifier::external_body]
pub(crate) fn byte_len(s: &str) -> (r: usize)
    ensures
        r == utf8_seq_len(s@),
{
    s.len()
}

// ---------------------------------------------------------------------------
// Lines
// ---------------------------------------------------------------------------

/// A line without the `'\r'` of a `"\r\n"` ending.
pub open spec fn strip_cr(line: Seq<char>) -> Seq<char> {
    if line.len() > 0 && line.last() == '\r' {
        line.drop_last()
    } else {
        line
    }
}

/// The lines ended so far and the line being read.
pub open spec fn lines_acc(s: Seq<char>) -> (Seq<Seq<char>>, Seq<char>)
    decreases s.len(),
{
    if s.len() == 0 {
        (Seq::empty(), Seq::empty())
    } else {
        let (ls, cur) = lines_acc(s.drop_last());
        if s.last() == '\n' {
            (ls.push(strip_cr(cur)), Seq::empty())
        } else {
            (ls, cur.push(s.last()))
        }
    }
}

/// `str::lines`: split at `"\n"` (a preceding `'\r'` is removed too); the
/// final line ending is optional, and no empty line follows it.
pub open spec fn lines_of(s: Seq<char>) -> Seq<Seq<char>> {
    let (ls, cur) = lines_acc(s);
    if cur.len() > 0 {
        ls.push(cur)
    } else {
        ls
    }
}

pub open spec fn vecs_view(v: Seq<Vec<char>>) -> Seq<Seq<char>> {
    v.map_values(|x: Vec<char>| x@)
}

fn without_cr(line: Vec<char>) -> (r: Vec<char>)
    ensures
        r@ == strip_cr(line@),
{
    let mut l = line;
    if l.len() > 0 && l[l.len() - 1] == '\r' {
        l.pop();
    }
    l
}

/// The lines of `s`, as characters.
pub fn split_lines(s: &str) -> (r: Vec<Vec<char>>)
    ensures
        vecs_view(r@) == lines_of(s@),
{
    let mut lines: Vec<Vec<char>> = Vec::new();
    let mut cur: Vec<char> = Vec::new();
    for c in it: s.chars()
        invariant
            it.seq() == s@,
            (vecs_view(lines@), cur@) == lines_acc(it.seq().take(it.index() as int)),
    {
        proof {
            let t = it.seq().take(it.index() + 1);
            assert(t.drop_last() =~= it.seq().take(it.index() as int));
            assert(t.last() == c);
        }
        if c == '\n' {
            let mut done: Vec<char> = Vec::new();
            std::mem::swap(&mut done, &mut cur);
            let ghost before = lines@;
            lines.push(without_cr(done));
            assert(vecs_view(lines@) =~= vecs_view(before).push(lines@[before.len() as int]@));
            assert(cur@ =~= Seq::<char>::empty());
        } else {
            cur.push(c);
        }
    }
    assert(s@.take(s@.len() as int) =~= s@);
    if cur.len() > 0 {
        let ghost before = lines@;
        lines.push(cur);
        assert(vecs_view(lines@) =~= vecs_view(before).push(lines@[before.len() as int]@));
    }
    lines
}

// ---------------------------------------------------------------------------
// Decimal numbers
// ---------------------------------------------------------------------------

/// The decimal digit for `d < 10`.
pub open spec fn digit_char(d: nat) -> char {
    ((('0' as u32) + d) as u8) as char
}

/// `n` in decimal, without leading zeros (`n.to_string()`).
pub open spec fn decimal(n: nat) -> Seq<char>
    decreases n,
{
    if n < 10 {
        seq![digit_char(n)]
    } else {
        decimal(n / 10).push(digit_char(n % 10))
    }
}

/// `n.to_string()` as characters.
pub fn decimal_chars(n: usize) -> (r: Vec<char>)
    ensures
        r@ == decimal(n as nat),
    decreases n,
{
    if n < 10 {
        let c = ((48 + n) as u8) as char;
        let v = vec![c];
        assert(v@ =~= decimal(n as nat));
        v
    } else {
        let mut v = decimal_chars(n / 10);
        let c = ((48 + n % 10) as u8) as char;
        v.push(c);
        v
    }
}

/// `n.to_string()`.
pub fn decimal_string(n: usize) -> (r: String)
    ensures
        r@ == decimal(n as nat),
{
    let v = decimal_chars(n);
    string_from_chars(v.as_slice())
}

} // verus!
