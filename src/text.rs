use vstd::prelude::*;
use vstd::string::StrSliceExecFns;

verus! {

/// The characters with the Unicode `White_Space` property.
pub open spec fn is_white_space(c: char) -> bool {
    ('\t' <= c && c <= '\r') || c == ' ' || c == '\u{85}' || c == '\u{a0}' || c == '\u{1680}'
        || ('\u{2000}' <= c && c <= '\u{200a}') || c == '\u{2028}' || c == '\u{2029}'
        || c == '\u{202f}' || c == '\u{205f}' || c == '\u{3000}'
}

/// Whether `c` has the Unicode `White_Space` property (what `char::is_whitespace` tests).
fn white_space(c: char) -> (r: bool)
    ensures
        r == is_white_space(c),
{
    ('\t' <= c && c <= '\r') || c == ' ' || c == '\u{85}' || c == '\u{a0}' || c == '\u{1680}'
        || ('\u{2000}' <= c && c <= '\u{200a}') || c == '\u{2028}' || c == '\u{2029}'
        || c == '\u{202f}' || c == '\u{205f}' || c == '\u{3000}'
}

/// The first index at or after `i` that holds no white space (or the end).
pub open spec fn skip_blank(s: Seq<char>, i: int) -> int
    decreases s.len() - i,
{
    if i < 0 || i >= s.len() {
        s.len() as int
    } else if is_white_space(s[i]) {
        skip_blank(s, i + 1)
    } else {
        i
    }
}

/// The first index at or after `i` that holds white space (or the end).
pub open spec fn word_end(s: Seq<char>, i: int) -> int
    decreases s.len() - i,
{
    if i < 0 || i >= s.len() {
        s.len() as int
    } else if is_white_space(s[i]) {
        i
    } else {
        word_end(s, i + 1)
    }
}

/// The word that follows position `i`: empty when only white space is left.
pub open spec fn word_after(s: Seq<char>, i: int) -> Seq<char> {
    s.subrange(skip_blank(s, i), word_end(s, skip_blank(s, i)))
}

/// The position just after the word that follows position `i`.
pub open spec fn after_word(s: Seq<char>, i: int) -> int {
    word_end(s, skip_blank(s, i))
}

/// The first whitespace-separated word of a line (empty if there is none).
pub open spec fn first_word(s: Seq<char>) -> Seq<char> {
    word_after(s, 0)
}

/// The second whitespace-separated word of a line (empty if there is none).
pub open spec fn second_word(s: Seq<char>) -> Seq<char> {
    word_after(s, after_word(s, 0))
}

proof fn lemma_skip_blank_bounds(s: Seq<char>, i: int)
    requires
        0 <= i <= s.len(),
    ensures
        i <= skip_blank(s, i) <= s.len(),
        skip_blank(s, i) < s.len() ==> !is_white_space(s[skip_blank(s, i)]),
    decreases s.len() - i,
{
    if i < s.len() && is_white_space(s[i]) {
        lemma_skip_blank_bounds(s, i + 1);
    }
}

/// Finds the bounds of the word that follows position `from` in a line of `n` characters.
fn next_word(s: &str, n: usize, from: usize) -> (r: (usize, usize))
    requires
        n == s@.len(),
        from <= n,
    ensures
        r.0 == skip_blank(s@, from as int),
        r.1 == word_end(s@, r.0 as int),
        from <= r.0 <= r.1 <= n,
        r.0 == r.1 <==> r.0 == n,
{
    let mut i = from;
    while i < n && white_space(s.get_char(i))
        invariant
            n == s@.len(),
            from <= i <= n,
            skip_blank(s@, from as int) == skip_blank(s@, i as int),
        decreases n - i,
    {
        i = i + 1;
    }
    let start = i;
    proof {
        lemma_skip_blank_bounds(s@, i as int);
    }
    while i < n && !white_space(s.get_char(i))
        invariant
            n == s@.len(),
            start <= i <= n,
            word_end(s@, start as int) == word_end(s@, i as int),
            start < n ==> !is_white_space(s@[start as int]),
            start < n ==> start < i || i < n,
        decreases n - i,
    {
        i = i + 1;
    }
    (start, i)
}

/// Splits off the word that follows position `from`; also returns where it ends.
pub fn word_from(s: &str, n: usize, from: usize) -> (r: (String, usize))
    requires
        n == s@.len(),
        from <= n,
    ensures
        r.0@ == word_after(s@, from as int),
        r.1 == after_word(s@, from as int),
        from <= r.1 <= n,
{
    let (a, b) = next_word(s, n, from);
    let w = s.substring_char(a, b);
    (w.to_string(), b)
}

/// Whether `p` occurs in `s` as a run of consecutive characters.
pub open spec fn has_infix(s: Seq<char>, p: Seq<char>) -> bool {
    exists|i: int| 0 <= i && i + p.len() <= s.len() && #[trigger] s.subrange(i, i + p.len()) == p
}

/// Whether `p` occurs in `s`.
pub fn contains_str(s: &str, p: &str) -> (r: bool)
    ensures
        r == has_infix(s@, p@),
{
    let n = s.unicode_len();
    let m = p.unicode_len();
    if m > n {
        assert forall|i: int| 0 <= i && i + p@.len() <= s@.len() implies #[trigger] s@.subrange(i, i + p@.len()) != p@ by {}
        return false;
    }
    let mut i: usize = 0;
    while i <= n - m
        invariant
            n == s@.len(),
            m == p@.len(),
            m <= n,
            i <= n - m + 1,
            forall|k: int| 0 <= k < i ==> #[trigger] s@.subrange(k, k + m) != p@,
        decreases n - m + 1 - i,
    {
        let mut j: usize = 0;
        let mut same = true;
        while j < m
            invariant
                n == s@.len(),
                m == p@.len(),
                i + m <= n,
                j <= m,
                same == (forall|t: int| 0 <= t < j ==> s@[i + t] == p@[t]),
            decreases m - j,
        {
            if s.get_char(i + j) != p.get_char(j) {
                same = false;
            }
            j = j + 1;
        }
        if same {
            assert(s@.subrange(i as int, i + m) =~= p@);
            return true;
        }
        assert(s@.subrange(i as int, i + m) != p@) by {
            let t = choose|t: int| 0 <= t < m && s@[i + t] != p@[t];
            assert(s@.subrange(i as int, i + m)[t] == s@[i + t]);
        }
        i = i + 1;
    }
    false
}

/// Compares two strings character by character.
pub fn str_eq(a: &str, b: &str) -> (r: bool)
    ensures
        r == (a@ == b@),
{
    let n = a.unicode_len();
    let m = b.unicode_len();
    if n != m {
        return false;
    }
    let mut i: usize = 0;
    while i < n
        invariant
            n == a@.len(),
            m == b@.len(),
            n == m,
            i <= n,
            forall|j: int| 0 <= j < i ==> a@[j] == b@[j],
        decreases n - i,
    {
        if a.get_char(i) != b.get_char(i) {
            return false;
        }
        i = i + 1;
    }
    assert(a@ =~= b@);
    true
}

} // verus!
