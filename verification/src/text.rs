//! Character-level text helpers shared by both assembler passes: comment
//! stripping, whitespace trimming, tokenization, and binary rendering of
//! bit fields.

use vstd::prelude::*;

verus! {

/// Whitespace as the assembler understands it.
pub open spec fn is_whitespace_char(c: char) -> bool {
    c == ' ' || c == '\t' || c == '\r'
}

/// Token separators: whitespace, with commas treated the same way.
pub open spec fn is_separator_char(c: char) -> bool {
    is_whitespace_char(c) || c == ','
}

/// The views of a vector of owned strings.
pub open spec fn views_of_strings(ts: Seq<String>) -> Seq<Seq<char>> {
    ts.map_values(|t: String| t@)
}

/// Index of the first occurrence of `c` in `s`, or `s.len()` if absent.
pub open spec fn spec_find(s: Seq<char>, c: char) -> int
    decreases s.len(),
{
    if s.len() == 0 {
        0
    } else if s[0] == c {
        0
    } else {
        1 + spec_find(s.drop_first(), c)
    }
}

pub proof fn lemma_find_props(s: Seq<char>, c: char)
    ensures
        0 <= spec_find(s, c) <= s.len(),
        spec_find(s, c) < s.len() ==> s[spec_find(s, c)] == c,
        forall|j: int| 0 <= j < spec_find(s, c) ==> s[j] != c,
    decreases s.len(),
{
    if s.len() > 0 && s[0] != c {
        lemma_find_props(s.drop_first(), c);
        assert forall|j: int| 0 <= j < spec_find(s, c) implies s[j] != c by {
            if j > 0 {
                assert(s.drop_first()[j - 1] != c);
            }
        }
    }
}

pub proof fn lemma_find_from_scan(s: Seq<char>, c: char, i: int)
    requires
        0 <= i <= s.len(),
        forall|j: int| 0 <= j < i ==> s[j] != c,
        i < s.len() ==> s[i] == c,
    ensures
        spec_find(s, c) == i,
    decreases s.len(),
{
    if s.len() == 0 {
    } else if s[0] == c {
        assert(i == 0);
    } else {
        assert(i >= 1);
        lemma_find_from_scan(s.drop_first(), c, i - 1);
    }
}

/// A line with its comment suffix removed: everything before the first `#`.
pub open spec fn spec_strip_comment(s: Seq<char>) -> Seq<char> {
    s.take(spec_find(s, '#'))
}

/// Number of leading whitespace characters.
pub open spec fn spec_ws_prefix(s: Seq<char>) -> int
    decreases s.len(),
{
    if s.len() > 0 && is_whitespace_char(s[0]) {
        1 + spec_ws_prefix(s.drop_first())
    } else {
        0
    }
}

pub proof fn lemma_ws_prefix_from_scan(s: Seq<char>, i: int)
    requires
        0 <= i <= s.len(),
        forall|j: int| 0 <= j < i ==> is_whitespace_char(s[j]),
        i < s.len() ==> !is_whitespace_char(s[i]),
    ensures
        spec_ws_prefix(s) == i,
    decreases s.len(),
{
    if s.len() == 0 {
    } else if !is_whitespace_char(s[0]) {
        assert(i == 0);
    } else {
        assert(i >= 1);
        lemma_ws_prefix_from_scan(s.drop_first(), i - 1);
    }
}

/// End of the trimmed text: index just past the last non-whitespace character.
pub open spec fn spec_ws_suffix_start(s: Seq<char>) -> int
    decreases s.len(),
{
    if s.len() > 0 && is_whitespace_char(s.last()) {
        spec_ws_suffix_start(s.drop_last())
    } else {
        s.len() as int
    }
}

pub proof fn lemma_ws_suffix_from_scan(s: Seq<char>, i: int)
    requires
        0 <= i <= s.len(),
        forall|j: int| i <= j < s.len() ==> is_whitespace_char(s[j]),
        i > 0 ==> !is_whitespace_char(s[i - 1]),
    ensures
        spec_ws_suffix_start(s) == i,
    decreases s.len(),
{
    if s.len() == 0 {
    } else if !is_whitespace_char(s.last()) {
        assert(i == s.len());
    } else {
        assert(i < s.len());
        lemma_ws_suffix_from_scan(s.drop_last(), i);
    }
}

/// `s` with leading and trailing whitespace removed.
pub open spec fn spec_trim(s: Seq<char>) -> Seq<char> {
    if spec_ws_prefix(s) == s.len() {
        Seq::empty()
    } else {
        s.subrange(spec_ws_prefix(s), spec_ws_suffix_start(s))
    }
}

/// The cleaned form of a source line: comment stripped, then trimmed.
pub open spec fn spec_clean_line(s: Seq<char>) -> Seq<char> {
    spec_trim(spec_strip_comment(s))
}

pub open spec fn spec_starts_with(s: Seq<char>, p: Seq<char>) -> bool {
    s.len() >= p.len() && s.take(p.len() as int) == p
}

/// Index just past the token that starts at `i` (the next separator, or the
/// end of the line).
pub open spec fn spec_token_end(s: Seq<char>, i: int) -> int
    decreases s.len() - i,
{
    if i < 0 || i >= s.len() || is_separator_char(s[i]) {
        i
    } else {
        spec_token_end(s, i + 1)
    }
}

pub proof fn lemma_token_end_props(s: Seq<char>, i: int)
    requires
        0 <= i <= s.len(),
    ensures
        i <= spec_token_end(s, i) <= s.len(),
        spec_token_end(s, i) < s.len() ==> is_separator_char(s[spec_token_end(s, i)]),
        forall|j: int| i <= j < spec_token_end(s, i) ==> !is_separator_char(s[j]),
    decreases s.len() - i,
{
    if i < s.len() && !is_separator_char(s[i]) {
        lemma_token_end_props(s, i + 1);
    }
}

/// The whitespace/comma-separated tokens of `s`, scanning from position `i`.
pub open spec fn spec_tokens_from(s: Seq<char>, i: int) -> Seq<Seq<char>>
    decreases s.len() - i, 1int,
    when 0 <= i <= s.len()
    via spec_tokens_from_decreases
{
    if i >= s.len() {
        Seq::empty()
    } else if is_separator_char(s[i]) {
        spec_tokens_from(s, i + 1)
    } else {
        seq![s.subrange(i, spec_token_end(s, i))] + spec_tokens_from(s, spec_token_end(s, i))
    }
}

#[via_fn]
proof fn spec_tokens_from_decreases(s: Seq<char>, i: int) {
    if 0 <= i < s.len() && !is_separator_char(s[i]) {
        lemma_token_end_props(s, i);
    }
}

/// The tokens of a whole line.
pub open spec fn spec_tokens(s: Seq<char>) -> Seq<Seq<char>> {
    spec_tokens_from(s, 0)
}

/// Character-by-character string equality, specified over the views.
pub fn str_eq(a: &str, b: &str) -> (r: bool)
    ensures
        r == (a@ == b@),
{
    let alen = a.unicode_len();
    let blen = b.unicode_len();
    if alen != blen {
        return false;
    }
    let mut i: usize = 0;
    while i < alen
        invariant
            0 <= i <= alen,
            alen == a@.len(),
            alen == b@.len(),
            forall|j: int| 0 <= j < i ==> a@[j] == b@[j],
        decreases alen - i,
    {
        if a.get_char(i) != b.get_char(i) {
            return false;
        }
        i += 1;
    }
    proof {
        assert(a@ =~= b@);
    }
    true
}

/// Whether `s` begins with `p`.
pub fn str_starts_with(s: &str, p: &str) -> (r: bool)
    ensures
        r == spec_starts_with(s@, p@),
{
    let slen = s.unicode_len();
    let plen = p.unicode_len();
    if slen < plen {
        return false;
    }
    let mut i: usize = 0;
    while i < plen
        invariant
            0 <= i <= plen,
            plen == p@.len(),
            slen == s@.len(),
            plen <= slen,
            forall|j: int| 0 <= j < i ==> s@[j] == p@[j],
        decreases plen - i,
    {
        if s.get_char(i) != p.get_char(i) {
            proof {
                assert(s@.take(plen as int)[i as int] != p@[i as int]);
            }
            return false;
        }
        i += 1;
    }
    proof {
        assert(s@.take(plen as int) =~= p@);
    }
    true
}

/// `s` with its comment suffix (from the first `#`) removed.
pub fn strip_comment(s: &str) -> (r: &str)
    ensures
        r@ == spec_strip_comment(s@),
{
    let n = s.unicode_len();
    let mut i: usize = 0;
    while i < n
        invariant
            0 <= i <= n,
            n == s@.len(),
            forall|j: int| 0 <= j < i ==> s@[j] != '#',
        decreases n - i,
    {
        if s.get_char(i) == '#' {
            proof {
                lemma_find_from_scan(s@, '#', i as int);
            }
            return s.substring_char(0, i);
        }
        i += 1;
    }
    proof {
        lemma_find_from_scan(s@, '#', n as int);
        assert(s@.take(n as int) =~= s@);
    }
    s.substring_char(0, n)
}

/// `s` with leading and trailing whitespace removed.
pub fn trim(s: &str) -> (r: &str)
    ensures
        r@ == spec_trim(s@),
{
    let n = s.unicode_len();
    let mut a: usize = 0;
    while a < n && is_whitespace(s.get_char(a))
        invariant
            0 <= a <= n,
            n == s@.len(),
            forall|j: int| 0 <= j < a ==> is_whitespace_char(s@[j]),
        decreases n - a,
    {
        a += 1;
    }
    proof {
        lemma_ws_prefix_from_scan(s@, a as int);
    }
    if a == n {
        proof {
            reveal_strlit("");
        }
        return "";
    }
    let mut b: usize = n;
    while b > a && is_whitespace(s.get_char(b - 1))
        invariant
            a <= b <= n,
            n == s@.len(),
            a < n,
            !is_whitespace_char(s@[a as int]),
            forall|j: int| b <= j < n ==> is_whitespace_char(s@[j]),
        decreases b,
    {
        b -= 1;
    }
    proof {
        assert(b > a);
        lemma_ws_suffix_from_scan(s@, b as int);
    }
    s.substring_char(a, b)
}

/// Runtime counterpart of [`is_whitespace_char`].
pub fn is_whitespace(c: char) -> (r: bool)
    ensures
        r == is_whitespace_char(c),
{
    c == ' ' || c == '\t' || c == '\r'
}

/// Runtime counterpart of [`is_separator_char`].
pub fn is_separator(c: char) -> (r: bool)
    ensures
        r == is_separator_char(c),
{
    is_whitespace(c) || c == ','
}

/// Splits a line into its tokens: maximal runs of characters that are neither
/// whitespace nor commas.
pub fn tokenize(s: &str) -> (toks: Vec<String>)
    ensures
        views_of_strings(toks@) == spec_tokens(s@),
{
    let n = s.unicode_len();
    let mut toks: Vec<String> = Vec::new();
    let mut i: usize = 0;
    proof {
        assert(views_of_strings(toks@) =~= Seq::<Seq<char>>::empty());
    }
    while i < n
        invariant
            0 <= i <= n,
            n == s@.len(),
            views_of_strings(toks@) + spec_tokens_from(s@, i as int) == spec_tokens(s@),
        decreases n - i,
    {
        let c = s.get_char(i);
        if is_separator(c) {
            i += 1;
        } else {
            let start = i;
            let mut j: usize = i;
            while j < n && !is_separator(s.get_char(j))
                invariant
                    start <= j <= n,
                    n == s@.len(),
                    forall|k: int| start <= k < j ==> !is_separator_char(s@[k]),
                decreases n - j,
            {
                j += 1;
            }
            proof {
                lemma_token_end_from_scan(s@, start as int, j as int);
            }
            let piece = s.substring_char(start, j);
            let tok = String::from_str(piece);
            let ghost old_toks = toks@;
            toks.push(tok);
            proof {
                assert(views_of_strings(toks@) =~= views_of_strings(old_toks).push(piece@));
                assert(views_of_strings(toks@) + spec_tokens_from(s@, j as int) =~= views_of_strings(
                    old_toks,
                ) + (seq![s@.subrange(start as int, j as int)] + spec_tokens_from(s@, j as int)));
            }
            i = j;
        }
    }
    proof {
        assert(views_of_strings(toks@) + Seq::<Seq<char>>::empty() =~= views_of_strings(toks@));
    }
    toks
}

proof fn lemma_token_end_from_scan(s: Seq<char>, i: int, j: int)
    requires
        0 <= i <= j <= s.len(),
        forall|k: int| i <= k < j ==> !is_separator_char(s[k]),
        j < s.len() ==> is_separator_char(s[j]),
    ensures
        spec_token_end(s, i) == j,
    decreases j - i,
{
    if i < j {
        lemma_token_end_from_scan(s, i + 1, j);
    }
}

/// Index of the first occurrence of `c` in `s`, or the length of `s`.
pub fn find_char(s: &str, c: char) -> (i: usize)
    ensures
        i == spec_find(s@, c),
{
    let n = s.unicode_len();
    let mut i: usize = 0;
    while i < n
        invariant
            0 <= i <= n,
            n == s@.len(),
            forall|j: int| 0 <= j < i ==> s@[j] != c,
        decreases n - i,
    {
        if s.get_char(i) == c {
            proof {
                lemma_find_from_scan(s@, c, i as int);
            }
            return i;
        }
        i += 1;
    }
    proof {
        lemma_find_from_scan(s@, c, n as int);
    }
    n
}

/// A bit as the character `'0'` or `'1'`.
pub open spec fn spec_bit_char(b: u32) -> char {
    if b == 1 {
        '1'
    } else {
        '0'
    }
}

/// The low `width` bits of `v`, most significant first, as characters.
pub open spec fn spec_binary_chars(v: u32, width: nat) -> Seq<char>
    decreases width,
{
    if width == 0 {
        Seq::empty()
    } else {
        seq![spec_bit_char((v >> ((width - 1) as u32)) & 1)] + spec_binary_chars(
            v,
            (width - 1) as nat,
        )
    }
}

/// Renders the low `width` bits of `v`, most significant first.
pub fn binary_string(v: u32, width: u32) -> (r: String)
    requires
        width <= 32,
    ensures
        r@ == spec_binary_chars(v, width as nat),
{
    let mut r = String::new();
    let mut w = width;
    proof {
        assert(r@ + spec_binary_chars(v, width as nat) =~= spec_binary_chars(v, width as nat));
    }
    while w > 0
        invariant
            w <= width <= 32,
            r@ + spec_binary_chars(v, w as nat) == spec_binary_chars(v, width as nat),
        decreases w,
    {
        let ghost old_r = r@;
        let bit = (v >> (w - 1)) & 1;
        if bit == 1 {
            r.append("1");
            proof {
                reveal_strlit("1");
                assert("1"@ =~= seq!['1']);
            }
        } else {
            r.append("0");
            proof {
                reveal_strlit("0");
                assert("0"@ =~= seq!['0']);
            }
        }
        proof {
            assert(spec_binary_chars(v, w as nat) =~= seq![spec_bit_char((v >> ((w - 1) as u32))
                & 1)] + spec_binary_chars(v, (w - 1) as nat));
            assert(r@ + spec_binary_chars(v, (w - 1) as nat) =~= old_r + spec_binary_chars(
                v,
                w as nat,
            ));
        }
        w -= 1;
    }
    proof {
        assert(r@ + spec_binary_chars(v, 0) =~= r@);
    }
    r
}

} // verus!
