//! Characters and words of a text: Unicode character classes, trimming,
//! edge stripping and whitespace splitting, over `Seq<char>` models.

use vstd::prelude::*;

verus! {

/// Whether a character has the Unicode `Alphabetic` property.
pub uninterp spec fn alphabetic(c: char) -> bool;

/// Whether a character has the Unicode `White_Space` property.
pub uninterp spec fn whitespace(c: char) -> bool;

/// Whether a character has the Unicode `Lowercase` property.
pub uninterp spec fn lowercase(c: char) -> bool;

/// Whether a character is numeric (general categories `Nd`, `Nl`, `No`).
pub uninterp spec fn numeric(c: char) -> bool;

/// The lowercase mapping of a whole string.
pub uninterp spec fn lowercased(s: Seq<char>) -> Seq<char>;

/// Relies on `char::is_alphabetic`.
#[verifier::external_body]
pub(crate) fn is_alphabetic(c: char) -> (r: bool)
    ensures
        r == alphabetic(c),
{
    c.is_alphabetic()
}

/// Relies on `char::is_whitespace`.
#[verifier::external_body]
pub(crate) fn is_whitespace(c: char) -> (r: bool)
    ensures
        r == whitespace(c),
{
    c.is_whitespace()
}

/// Relies on `char::is_lowercase`.
#[verifier::external_body]
pub(crate) fn is_lowercase(c: char) -> (r: bool)
    ensures
        r == lowercase(c),
{
    c.is_lowercase()
}

/// Relies on `char::is_numeric`.
#[verifier::external_body]
pub(crate) fn is_numeric(c: char) -> (r: bool)
    ensures
        r == numeric(c),
{
    c.is_numeric()
}

/// Relies on `str::to_lowercase`: the lowercase form of the characters, which
/// depends on them alone.
#[verifier::external_body]
pub(crate) fn to_lowercase(w: &Vec<char>) -> (r: Vec<char>)
    ensures
        r@ == lowercased(w@),
{
    let s: String = w.iter().collect();
    s.to_lowercase().chars().collect()
}

/// The characters of a string, in order.
pub fn chars_of(s: &str) -> (r: Vec<char>)
    ensures
        r@ == s@,
{
    let mut r: Vec<char> = Vec::new();
    for c in it: s.chars()
        invariant
            it.seq() == s@,
            r@ == it.seq().take(it.index() as int),
    {
        r.push(c);
    }
    r
}

/// The characters that edge stripping keeps: letters when `letters` holds,
/// otherwise every non-whitespace character.
pub open spec fn kept(c: char, letters: bool) -> bool {
    if letters {
        alphabetic(c)
    } else {
        !whitespace(c)
    }
}

/// The first index at or after `i` whose character is kept, or the length.
pub open spec fn lead(s: Seq<char>, letters: bool, i: int) -> int
    decreases s.len() - i,
{
    if i >= s.len() {
        s.len() as int
    } else if kept(s[i], letters) {
        i
    } else {
        lead(s, letters, i + 1)
    }
}

/// The end of `s[lo..j]` once the characters that are not kept are dropped
/// from its back.
pub open spec fn tail(s: Seq<char>, letters: bool, lo: int, j: int) -> int
    decreases j - lo,
{
    if j <= lo {
        lo
    } else if kept(s[j - 1], letters) {
        j
    } else {
        tail(s, letters, lo, j - 1)
    }
}

/// `s` without the characters that are not kept at either end.
pub open spec fn strip_edges(s: Seq<char>, letters: bool) -> Seq<char> {
    let a = lead(s, letters, 0);
    s.subrange(a, tail(s, letters, a, s.len() as int))
}

/// `s` without leading and trailing whitespace.
pub open spec fn trimmed(s: Seq<char>) -> Seq<char> {
    strip_edges(s, false)
}

/// A word without the non-alphabetic characters at its ends.
pub open spec fn word_core(w: Seq<char>) -> Seq<char> {
    strip_edges(w, true)
}

/// The words of `s[i..]`, where a word in progress began at `start`.
pub open spec fn words_from(s: Seq<char>, start: int, i: int) -> Seq<Seq<char>>
    decreases s.len() - i,
{
    if i >= s.len() {
        if start < i {
            seq![s.subrange(start, i)]
        } else {
            seq![]
        }
    } else if whitespace(s[i]) {
        let rest = words_from(s, i + 1, i + 1);
        if start < i {
            seq![s.subrange(start, i)] + rest
        } else {
            rest
        }
    } else {
        words_from(s, start, i + 1)
    }
}

/// The maximal runs of non-whitespace characters of `s`, in order.
pub open spec fn words(s: Seq<char>) -> Seq<Seq<char>> {
    words_from(s, 0, 0)
}

pub proof fn lemma_lead_bounds(s: Seq<char>, letters: bool, i: int)
    requires
        0 <= i <= s.len(),
    ensures
        i <= lead(s, letters, i) <= s.len(),
    decreases s.len() - i,
{
    if i < s.len() && !kept(s[i], letters) {
        lemma_lead_bounds(s, letters, i + 1);
    }
}

pub proof fn lemma_tail_bounds(s: Seq<char>, letters: bool, lo: int, j: int)
    requires
        lo <= j,
    ensures
        lo <= tail(s, letters, lo, j) <= j,
    decreases j - lo,
{
    if j > lo && !kept(s[j - 1], letters) {
        lemma_tail_bounds(s, letters, lo, j - 1);
    }
}

/// Each word holds at least one character, so there are no more words than
/// characters.
pub proof fn lemma_words_len(s: Seq<char>, start: int, i: int)
    requires
        0 <= start <= i <= s.len(),
    ensures
        words_from(s, start, i).len() <= s.len() - start,
    decreases s.len() - i,
{
    if i < s.len() {
        if whitespace(s[i]) {
            lemma_words_len(s, i + 1, i + 1);
        } else {
            lemma_words_len(s, start, i + 1);
        }
    }
}

/// Whether edge stripping keeps `c`.
fn keeps(c: char, letters: bool) -> (r: bool)
    ensures
        r == kept(c, letters),
{
    if letters {
        is_alphabetic(c)
    } else {
        !is_whitespace(c)
    }
}

/// The characters `s[a..b]` as a new vector.
pub fn slice_of(s: &Vec<char>, a: usize, b: usize) -> (r: Vec<char>)
    requires
        a <= b <= s.len(),
    ensures
        r@ == s@.subrange(a as int, b as int),
{
    let mut r: Vec<char> = Vec::new();
    let mut k: usize = a;
    while k < b
        invariant
            a <= k <= b <= s.len(),
            r@ == s@.subrange(a as int, k as int),
        decreases b - k,
    {
        r.push(s[k]);
        k = k + 1;
        assert(r@ =~= s@.subrange(a as int, k as int));
    }
    r
}

/// `s` without the characters that are not kept at either end.
pub fn strip(s: &Vec<char>, letters: bool) -> (r: Vec<char>)
    ensures
        r@ == strip_edges(s@, letters),
{
    let mut a: usize = 0;
    while a < s.len() && !keeps(s[a], letters)
        invariant
            a <= s.len(),
            lead(s@, letters, a as int) == lead(s@, letters, 0),
        decreases s.len() - a,
    {
        a = a + 1;
    }
    let mut b: usize = s.len();
    while b > a && !keeps(s[b - 1], letters)
        invariant
            a <= b <= s.len(),
            a == lead(s@, letters, 0),
            tail(s@, letters, a as int, b as int) == tail(s@, letters, a as int, s.len() as int),
        decreases b,
    {
        b = b - 1;
    }
    slice_of(s, a, b)
}

/// The whitespace-separated words of `s`.
pub fn split_words(s: &Vec<char>) -> (r: Vec<Vec<char>>)
    ensures
        r@.map_values(|w: Vec<char>| w@) == words(s@),
{
    let mut r: Vec<Vec<char>> = Vec::new();
    let mut start: usize = 0;
    let mut i: usize = 0;
    while i < s.len()
        invariant
            start <= i <= s.len(),
            words(s@) == r@.map_values(|w: Vec<char>| w@) + words_from(s@, start as int, i as int),
        decreases s.len() - i,
    {
        if is_whitespace(s[i]) {
            let ghost before = r@.map_values(|w: Vec<char>| w@);
            if start < i {
                let w = slice_of(s, start, i);
                r.push(w);
                assert(r@.map_values(|w: Vec<char>| w@) =~= before.push(s@.subrange(
                    start as int,
                    i as int,
                )));
                assert(before + words_from(s@, start as int, i as int) =~= r@.map_values(
                    |w: Vec<char>| w@,
                ) + words_from(s@, (i + 1) as int, (i + 1) as int));
            }
            start = i + 1;
        }
        i = i + 1;
    }
    if start < i {
        let ghost before = r@.map_values(|w: Vec<char>| w@);
        let w = slice_of(s, start, i);
        r.push(w);
        assert(r@.map_values(|w: Vec<char>| w@) =~= before.push(s@.subrange(start as int, i as int)));
        assert(r@.map_values(|w: Vec<char>| w@) =~= before + words_from(s@, start as int, i as int));
    } else {
        assert(r@.map_values(|w: Vec<char>| w@) =~= r@.map_values(|w: Vec<char>| w@) + words_from(
            s@,
            start as int,
            i as int,
        ));
    }
    r
}

} // verus!
