//! The rule set: the parameters that decide which sentences are well formed.

use vstd::prelude::*;

verus! {

/// Validation parameters for one language or profile. Every field is
/// independent of the others; an empty collection imposes no constraint.
#[derive(Clone, Debug)]
pub struct RuleSet {
    /// Least number of characters of the trimmed text.
    pub min_trimmed_length: usize,
    /// A text that opens with `"` must have a letter right after it.
    pub quote_start_with_letter: bool,
    /// Least number of alphabetic characters.
    pub min_characters: usize,
    /// When false, a text ending in `:` is rejected.
    pub may_end_with_colon: bool,
    /// When true, the last character must not be alphabetic.
    pub needs_punctuation_end: bool,
    /// When true, the first character must be alphabetic.
    pub needs_letter_start: bool,
    /// When true, the first character must not be lowercase.
    pub needs_uppercase_start: bool,
    /// When non-empty, every character must match this pattern on its own;
    /// `disallowed_symbols` is then not consulted.
    pub allowed_symbols_regex: String,
    /// Characters that may not occur.
    pub disallowed_symbols: Vec<char>,
    /// Substrings that may not occur.
    pub broken_whitespace: Vec<String>,
    /// Least number of words.
    pub min_word_count: usize,
    /// Greatest number of words.
    pub max_word_count: usize,
    /// Lowercase words that may not occur, once a word's non-alphabetic
    /// edges are stripped and it is lowercased.
    pub disallowed_words: Vec<String>,
    /// Patterns that may not match anywhere in the text.
    pub abbreviation_patterns: Vec<String>,
    /// Characters that must occur an even number of times.
    pub even_symbols: Vec<char>,
}

/// The rule set that restricts nothing but the built-in conditions (no line
/// break, no numeric character).
pub open spec fn unrestricted(r: RuleSet) -> bool {
    &&& r.min_trimmed_length == 0
    &&& !r.quote_start_with_letter
    &&& r.min_characters == 0
    &&& r.may_end_with_colon
    &&& !r.needs_punctuation_end
    &&& !r.needs_letter_start
    &&& !r.needs_uppercase_start
    &&& r.allowed_symbols_regex@.len() == 0
    &&& r.disallowed_symbols@.len() == 0
    &&& r.broken_whitespace@.len() == 0
    &&& r.min_word_count == 0
    &&& r.max_word_count == usize::MAX
    &&& r.disallowed_words@.len() == 0
    &&& r.abbreviation_patterns@.len() == 0
    &&& r.even_symbols@.len() == 0
}

impl Default for RuleSet {
    /// The permissive rule set: zero thresholds, no word-count ceiling, a
    /// trailing colon allowed, no other toggle set, every collection empty.
    fn default() -> (r: RuleSet)
        ensures
            unrestricted(r),
    {
        RuleSet {
            min_trimmed_length: 0,
            quote_start_with_letter: false,
            min_characters: 0,
            may_end_with_colon: true,
            needs_punctuation_end: false,
            needs_letter_start: false,
            needs_uppercase_start: false,
            allowed_symbols_regex: String::new(),
            disallowed_symbols: Vec::new(),
            broken_whitespace: Vec::new(),
            min_word_count: 0,
            max_word_count: usize::MAX,
            disallowed_words: Vec::new(),
            abbreviation_patterns: Vec::new(),
            even_symbols: Vec::new(),
        }
    }
}

} // verus!
