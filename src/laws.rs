//! Properties of the evaluator that hold for every rule set and text.

use vstd::prelude::*;
use crate::checker::{accepts, banned, letter_count};
use crate::rules::{RuleSet, unrestricted};
use crate::text::{lemma_lead_bounds, lemma_tail_bounds, lemma_words_len, lead, numeric, trimmed, words};

verus! {

/// The verdict is a function of the rule set and the text alone: equal
/// arguments give equal verdicts.
pub proof fn lemma_check_deterministic(a: RuleSet, b: RuleSet, s: Seq<char>, t: Seq<char>)
    requires
        a == b,
        s == t,
    ensures
        accepts(a, s) == accepts(b, t),
{
}

/// The trimmed text is a contiguous part of the text.
pub proof fn lemma_trimmed_is_part(text: Seq<char>)
    ensures
        exists|a: int| 0 <= a && a + trimmed(text).len() <= text.len() && #[trigger] text.subrange(a, a + trimmed(text).len()) == trimmed(text),
{
    lemma_lead_bounds(text, false, 0);
    let a = lead(text, false, 0);
    lemma_tail_bounds(text, false, a, text.len() as int);
    assert(text.subrange(a, a + trimmed(text).len()) == trimmed(text));
}

/// The default rule set accepts every text that has no line break and no
/// numeric character.
pub proof fn lemma_unrestricted_accepts(r: RuleSet, text: Seq<char>)
    requires
        unrestricted(r),
        text.len() <= usize::MAX,
        forall|i: int| 0 <= i < text.len() ==> #[trigger] text[i] != '\n' && !numeric(text[i]),
    ensures
        accepts(r, text),
{
    let t = trimmed(text);
    lemma_trimmed_is_part(text);
    let a = choose|a: int| 0 <= a && a + t.len() <= text.len() && #[trigger] text.subrange(a, a + t.len()) == t;
    assert forall|i: int| 0 <= i < t.len() implies #[trigger] t[i] != '\n' && !numeric(t[i]) by {
        assert(t[i] == text[a + i]);
    }
    assert(!t.contains('\n'));
    assert(letter_count(t) >= r.min_characters);
    lemma_words_len(t, 0, 0);
    assert(words(t).len() <= r.max_word_count);
    assert forall|w: Seq<char>| !banned(r, w) by {}
}

/// Whether two rule sets agree on everything but their disallowed symbols.
pub open spec fn differ_in_disallowed_symbols_only(a: RuleSet, b: RuleSet) -> bool {
    &&& a.min_trimmed_length == b.min_trimmed_length
    &&& a.quote_start_with_letter == b.quote_start_with_letter
    &&& a.min_characters == b.min_characters
    &&& a.may_end_with_colon == b.may_end_with_colon
    &&& a.needs_punctuation_end == b.needs_punctuation_end
    &&& a.needs_letter_start == b.needs_letter_start
    &&& a.needs_uppercase_start == b.needs_uppercase_start
    &&& a.allowed_symbols_regex@ == b.allowed_symbols_regex@
    &&& a.broken_whitespace@ == b.broken_whitespace@
    &&& a.min_word_count == b.min_word_count
    &&& a.max_word_count == b.max_word_count
    &&& a.disallowed_words@ == b.disallowed_words@
    &&& a.abbreviation_patterns@ == b.abbreviation_patterns@
    &&& a.even_symbols@ == b.even_symbols@
}

/// Once the allowed-symbols pattern is set, the disallowed symbols have no
/// effect on any verdict.
pub proof fn lemma_allowed_symbols_take_precedence(a: RuleSet, b: RuleSet, text: Seq<char>)
    requires
        a.allowed_symbols_regex@.len() > 0,
        differ_in_disallowed_symbols_only(a, b),
    ensures
        accepts(a, text) == accepts(b, text),
{
    assert forall|w: Seq<char>| banned(a, w) == banned(b, w) by {}
}

} // verus!
