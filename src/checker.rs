//! The evaluator: a rule set compiled once, and the predicate that decides
//! whether a text satisfies it.

use vstd::prelude::*;
use crate::pattern::{Pattern, compile, is_match, regex_compiles, regex_matches};
use crate::rules::RuleSet;
use crate::text::{
    alphabetic,
    chars_of,
    is_alphabetic,
    is_lowercase,
    is_numeric,
    lowercase,
    lowercased,
    numeric,
    split_words,
    strip,
    to_lowercase,
    trimmed,
    word_core,
    words,
};

verus! {

/// Number of alphabetic characters of `s`.
pub open spec fn letter_count(s: Seq<char>) -> nat
    decreases s.len(),
{
    if s.len() == 0 {
        0
    } else {
        letter_count(s.drop_last()) + if alphabetic(s.last()) {
            1nat
        } else {
            0nat
        }
    }
}

/// Number of occurrences of `c` in `s`.
pub open spec fn occurrences(s: Seq<char>, c: char) -> nat
    decreases s.len(),
{
    if s.len() == 0 {
        0
    } else {
        occurrences(s.drop_last(), c) + if s.last() == c {
            1nat
        } else {
            0nat
        }
    }
}

/// Whether `p` occurs in `t` as a contiguous run.
pub open spec fn contains_run(t: Seq<char>, p: Seq<char>) -> bool {
    exists|i: int| 0 <= i && i + p.len() <= t.len() && #[trigger] t.subrange(i, i + p.len()) == p
}

/// Length, quotes, letters, first and last character, line breaks and digits.
pub open spec fn shape_ok(r: RuleSet, t: Seq<char>) -> bool {
    &&& t.len() >= r.min_trimmed_length
    &&& !(r.quote_start_with_letter && t.len() >= 2 && t[0] == '"' && !alphabetic(t[1]))
    &&& letter_count(t) >= r.min_characters
    &&& !(!r.may_end_with_colon && t.len() > 0 && t.last() == ':')
    &&& !(r.needs_punctuation_end && t.len() > 0 && alphabetic(t.last()))
    &&& !(r.needs_letter_start && t.len() > 0 && !alphabetic(t[0]))
    &&& !(r.needs_uppercase_start && t.len() > 0 && lowercase(t[0]))
    &&& !t.contains('\n')
    &&& forall|i: int| 0 <= i < t.len() ==> !numeric(#[trigger] t[i])
}

/// Every character matches the allowed-symbols pattern on its own, or, when
/// that pattern is empty, none is a disallowed symbol.
pub open spec fn symbols_ok(r: RuleSet, t: Seq<char>) -> bool {
    if r.allowed_symbols_regex@.len() > 0 {
        forall|i: int| 0 <= i < t.len() ==> regex_matches(r.allowed_symbols_regex@, seq![#[trigger] t[i]])
    } else {
        forall|i: int| 0 <= i < t.len() ==> !r.disallowed_symbols@.contains(#[trigger] t[i])
    }
}

/// No broken-whitespace substring occurs.
pub open spec fn spacing_ok(r: RuleSet, t: Seq<char>) -> bool {
    forall|k: int| 0 <= k < r.broken_whitespace@.len() ==> !contains_run(t, #[trigger] r.broken_whitespace@[k]@)
}

/// Whether `w` is one of the disallowed words.
pub open spec fn banned(r: RuleSet, w: Seq<char>) -> bool {
    exists|j: int| 0 <= j < r.disallowed_words@.len() && #[trigger] r.disallowed_words@[j]@ == w
}

/// The number of words is within bounds and none is disallowed.
pub open spec fn words_ok(r: RuleSet, t: Seq<char>) -> bool {
    let ws = words(t);
    &&& r.min_word_count <= ws.len() <= r.max_word_count
    &&& forall|k: int| 0 <= k < ws.len() ==> !banned(r, lowercased(word_core(#[trigger] ws[k])))
}

/// No abbreviation pattern matches anywhere.
pub open spec fn abbreviations_ok(r: RuleSet, t: Seq<char>) -> bool {
    forall|k: int| 0 <= k < r.abbreviation_patterns@.len() ==> !regex_matches(#[trigger] r.abbreviation_patterns@[k]@, t)
}

/// Each even symbol occurs an even number of times.
pub open spec fn parity_ok(r: RuleSet, t: Seq<char>) -> bool {
    forall|k: int| 0 <= k < r.even_symbols@.len() ==> occurrences(t, #[trigger] r.even_symbols@[k]) % 2 == 0
}

/// Whether `text` satisfies the rule set: every gate holds of the trimmed text.
pub open spec fn accepts(r: RuleSet, text: Seq<char>) -> bool {
    let t = trimmed(text);
    &&& shape_ok(r, t)
    &&& symbols_ok(r, t)
    &&& spacing_ok(r, t)
    &&& words_ok(r, t)
    &&& abbreviations_ok(r, t)
    &&& parity_ok(r, t)
}

/// Whether the allowed-symbols pattern is empty or compiles.
pub open spec fn allowed_compiles(r: RuleSet) -> bool {
    r.allowed_symbols_regex@.len() == 0 || regex_compiles(r.allowed_symbols_regex@)
}

/// Whether every pattern of the rule set compiles.
pub open spec fn patterns_compile(r: RuleSet) -> bool {
    &&& allowed_compiles(r)
    &&& forall|k: int| 0 <= k < r.abbreviation_patterns@.len() ==> regex_compiles(#[trigger] r.abbreviation_patterns@[k]@)
}

/// A defect of a rule set, found when it is compiled.
#[derive(Clone, Copy, Debug, PartialEq, Eq, Structural)]
pub enum ConfigError {
    /// The allowed-symbols pattern does not compile.
    AllowedSymbols,
    /// The abbreviation pattern at this index does not compile.
    Abbreviation(usize),
}

/// A rule set whose patterns have been compiled, ready to check any number of
/// texts.
pub struct CompiledRuleSet {
    rules: RuleSet,
    allowed: Option<Pattern>,
    abbreviations: Vec<Pattern>,
    broken: Vec<Vec<char>>,
    banned_words: Vec<Vec<char>>,
}

impl View for CompiledRuleSet {
    type V = RuleSet;

    closed spec fn view(&self) -> RuleSet {
        self.rules
    }
}

impl CompiledRuleSet {
    #[verifier::type_invariant]
    closed spec fn inv(self) -> bool {
        &&& (self.allowed is Some <==> self.rules.allowed_symbols_regex@.len() > 0)
        &&& (self.allowed matches Some(p) ==> p.source() == self.rules.allowed_symbols_regex@)
        &&& self.abbreviations@.len() == self.rules.abbreviation_patterns@.len()
        &&& forall|k: int| 0 <= k < self.abbreviations@.len() ==> (#[trigger] self.abbreviations@[k]).source() == self.rules.abbreviation_patterns@[k]@
        &&& self.broken@.len() == self.rules.broken_whitespace@.len()
        &&& forall|k: int| 0 <= k < self.broken@.len() ==> (#[trigger] self.broken@[k])@ == self.rules.broken_whitespace@[k]@
        &&& self.banned_words@.len() == self.rules.disallowed_words@.len()
        &&& forall|k: int| 0 <= k < self.banned_words@.len() ==> (#[trigger] self.banned_words@[k])@ == self.rules.disallowed_words@[k]@
    }

    /// Compiles the patterns of `rules`; fails on the first one that does not
    /// compile, the allowed-symbols pattern first.
    pub fn new(rules: RuleSet) -> (r: Result<CompiledRuleSet, ConfigError>)
        ensures
            r is Ok <==> patterns_compile(rules),
            r matches Ok(c) ==> c@ == rules,
            r matches Err(e) ==> if !allowed_compiles(rules) {
                e == ConfigError::AllowedSymbols
            } else {
                e matches ConfigError::Abbreviation(i) && i < rules.abbreviation_patterns@.len()
                    && !regex_compiles(rules.abbreviation_patterns@[i as int]@)
                    && forall|j: int| 0 <= j < i ==> regex_compiles(#[trigger] rules.abbreviation_patterns@[j]@)
            },
    {
        let allowed = if rules.allowed_symbols_regex.as_str().is_empty() {
            None
        } else {
            match compile(rules.allowed_symbols_regex.as_str()) {
                Some(p) => Some(p),
                None => return Err(ConfigError::AllowedSymbols),
            }
        };
        let mut abbreviations: Vec<Pattern> = Vec::new();
        let mut k: usize = 0;
        while k < rules.abbreviation_patterns.len()
            invariant
                k <= rules.abbreviation_patterns@.len(),
                allowed_compiles(rules),
                allowed is Some <==> rules.allowed_symbols_regex@.len() > 0,
                allowed matches Some(p) ==> p.source() == rules.allowed_symbols_regex@,
                abbreviations@.len() == k,
                forall|j: int| 0 <= j < k ==> (#[trigger] abbreviations@[j]).source() == rules.abbreviation_patterns@[j]@,
                forall|j: int| 0 <= j < k ==> regex_compiles(#[trigger] rules.abbreviation_patterns@[j]@),
            decreases rules.abbreviation_patterns@.len() - k,
        {
            match compile(rules.abbreviation_patterns[k].as_str()) {
                Some(p) => abbreviations.push(p),
                None => return Err(ConfigError::Abbreviation(k)),
            }
            k = k + 1;
        }
        let broken = chars_of_all(&rules.broken_whitespace);
        let banned_words = chars_of_all(&rules.disallowed_words);
        Ok(CompiledRuleSet { rules, allowed, abbreviations, broken, banned_words })
    }

    /// The rule set this was compiled from.
    pub fn rules(&self) -> (r: &RuleSet)
        ensures
            *r == self@,
    {
        &self.rules
    }
}

/// The characters of each string.
fn chars_of_all(v: &Vec<String>) -> (r: Vec<Vec<char>>)
    ensures
        r@.len() == v@.len(),
        forall|k: int| 0 <= k < r@.len() ==> (#[trigger] r@[k])@ == v@[k]@,
{
    let mut r: Vec<Vec<char>> = Vec::new();
    let mut k: usize = 0;
    while k < v.len()
        invariant
            k <= v@.len(),
            r@.len() == k,
            forall|j: int| 0 <= j < k ==> (#[trigger] r@[j])@ == v@[j]@,
        decreases v@.len() - k,
    {
        r.push(chars_of(v[k].as_str()));
        k = k + 1;
    }
    r
}

/// Number of alphabetic characters of `t`.
fn count_letters(t: &Vec<char>) -> (n: usize)
    ensures
        n == letter_count(t@),
{
    let mut n: usize = 0;
    let mut i: usize = 0;
    while i < t.len()
        invariant
            i <= t@.len(),
            n <= i,
            n == letter_count(t@.take(i as int)),
        decreases t@.len() - i,
    {
        assert(t@.take(i + 1).drop_last() =~= t@.take(i as int));
        if is_alphabetic(t[i]) {
            n = n + 1;
        }
        i = i + 1;
    }
    assert(t@.take(i as int) =~= t@);
    n
}

/// Number of occurrences of `c` in `t`.
fn count_of(t: &Vec<char>, c: char) -> (n: usize)
    ensures
        n == occurrences(t@, c),
{
    let mut n: usize = 0;
    let mut i: usize = 0;
    while i < t.len()
        invariant
            i <= t@.len(),
            n <= i,
            n == occurrences(t@.take(i as int), c),
        decreases t@.len() - i,
    {
        assert(t@.take(i + 1).drop_last() =~= t@.take(i as int));
        if t[i] == c {
            n = n + 1;
        }
        i = i + 1;
    }
    assert(t@.take(i as int) =~= t@);
    n
}

/// Whether `v` holds `c`.
fn has_char(v: &Vec<char>, c: char) -> (r: bool)
    ensures
        r == v@.contains(c),
{
    let mut i: usize = 0;
    while i < v.len()
        invariant
            i <= v@.len(),
            forall|j: int| 0 <= j < i ==> v@[j] != c,
        decreases v@.len() - i,
    {
        if v[i] == c {
            return true;
        }
        i = i + 1;
    }
    false
}

/// Whether `a` and `b` hold the same characters.
fn same_chars(a: &Vec<char>, b: &Vec<char>) -> (r: bool)
    ensures
        r == (a@ == b@),
{
    if a.len() != b.len() {
        return false;
    }
    let mut i: usize = 0;
    while i < a.len()
        invariant
            i <= a@.len() == b@.len(),
            forall|j: int| 0 <= j < i ==> a@[j] == b@[j],
        decreases a@.len() - i,
    {
        if a[i] != b[i] {
            return false;
        }
        i = i + 1;
    }
    assert(a@ =~= b@);
    true
}

/// Whether `p` occurs in `t` starting at `i`.
fn run_at(t: &Vec<char>, p: &Vec<char>, i: usize) -> (r: bool)
    requires
        i + p@.len() <= t@.len(),
    ensures
        r == (t@.subrange(i as int, i + p@.len()) == p@),
{
    let mut j: usize = 0;
    let n: usize = t.len();
    while j < p.len()
        invariant
            n == t@.len(),
            i + p@.len() <= t@.len(),
            j <= p@.len(),
            forall|m: int| 0 <= m < j ==> t@[i + m] == p@[m],
        decreases p@.len() - j,
    {
        assert(i + j < n);
        if t[i + j] != p[j] {
            assert(t@.subrange(i as int, i + p@.len())[j as int] != p@[j as int]);
            return false;
        }
        j = j + 1;
    }
    assert(t@.subrange(i as int, i + p@.len()) =~= p@);
    true
}

/// Whether `p` occurs in `t` as a contiguous run.
fn contains(t: &Vec<char>, p: &Vec<char>) -> (r: bool)
    ensures
        r == contains_run(t@, p@),
{
    if p.len() > t.len() {
        return false;
    }
    let last: usize = t.len() - p.len();
    let mut i: usize = 0;
    loop
        invariant
            last + p@.len() == t@.len(),
            i <= last,
            forall|m: int| 0 <= m < i ==> #[trigger] t@.subrange(m, m + p@.len()) != p@,
        decreases last - i,
    {
        if run_at(t, p, i) {
            return true;
        }
        if i == last {
            return false;
        }
        i = i + 1;
    }
}

/// The shape gate of the trimmed text `t`.
fn shape_gate(r: &RuleSet, t: &Vec<char>) -> (ok: bool)
    ensures
        ok == shape_ok(*r, t@),
{
    let n: usize = t.len();
    assert(n == t@.len());
    if n < r.min_trimmed_length {
        return false;
    }
    if r.quote_start_with_letter && n >= 2 && t[0] == '"' && !is_alphabetic(t[1]) {
        return false;
    }
    if count_letters(t) < r.min_characters {
        return false;
    }
    if !r.may_end_with_colon && n > 0 && t[n - 1] == ':' {
        return false;
    }
    if r.needs_punctuation_end && n > 0 && is_alphabetic(t[n - 1]) {
        return false;
    }
    if r.needs_letter_start && n > 0 && !is_alphabetic(t[0]) {
        return false;
    }
    if r.needs_uppercase_start && n > 0 && is_lowercase(t[0]) {
        return false;
    }
    let mut i: usize = 0;
    while i < n
        invariant
            n == t@.len(),
            i <= n,
            forall|j: int| 0 <= j < i ==> t@[j] != '\n' && !numeric(t@[j]),
        decreases n - i,
    {
        if t[i] == '\n' || is_numeric(t[i]) {
            return false;
        }
        i = i + 1;
    }
    true
}

/// The parity gate of the trimmed text `t`.
fn parity_gate(r: &RuleSet, t: &Vec<char>) -> (ok: bool)
    ensures
        ok == parity_ok(*r, t@),
{
    let mut k: usize = 0;
    while k < r.even_symbols.len()
        invariant
            k <= r.even_symbols@.len(),
            forall|j: int| 0 <= j < k ==> occurrences(t@, #[trigger] r.even_symbols@[j]) % 2 == 0,
        decreases r.even_symbols@.len() - k,
    {
        if count_of(t, r.even_symbols[k]) % 2 != 0 {
            return false;
        }
        k = k + 1;
    }
    true
}

impl CompiledRuleSet {
    /// The symbol gate of the trimmed text `t`.
    fn symbols_gate(&self, t: &Vec<char>) -> (ok: bool)
        ensures
            ok == symbols_ok(self@, t@),
    {
        proof {
            use_type_invariant(self);
        }
        let mut i: usize = 0;
        match &self.allowed {
            Some(p) => {
                while i < t.len()
                    invariant
                        i <= t@.len(),
                        p.source() == self@.allowed_symbols_regex@,
                        self@.allowed_symbols_regex@.len() > 0,
                        forall|j: int| 0 <= j < i ==> regex_matches(p.source(), seq![#[trigger] t@[j]]),
                    decreases t@.len() - i,
                {
                    let mut one: Vec<char> = Vec::new();
                    one.push(t[i]);
                    assert(one@ =~= seq![t@[i as int]]);
                    if !is_match(p, &one) {
                        assert(!regex_matches(self@.allowed_symbols_regex@, seq![t@[i as int]]));
                        return false;
                    }
                    i = i + 1;
                }
            },
            None => {
                while i < t.len()
                    invariant
                        i <= t@.len(),
                        self@.allowed_symbols_regex@.len() == 0,
                        forall|j: int| 0 <= j < i ==> !self@.disallowed_symbols@.contains(#[trigger] t@[j]),
                    decreases t@.len() - i,
                {
                    if has_char(&self.rules.disallowed_symbols, t[i]) {
                        assert(self@.disallowed_symbols@.contains(t@[i as int]));
                        return false;
                    }
                    i = i + 1;
                }
            },
        }
        true
    }

    /// The whitespace-integrity gate of the trimmed text `t`.
    fn spacing_gate(&self, t: &Vec<char>) -> (ok: bool)
        ensures
            ok == spacing_ok(self@, t@),
    {
        proof {
            use_type_invariant(self);
        }
        let mut k: usize = 0;
        while k < self.broken.len()
            invariant
                k <= self.broken@.len() == self@.broken_whitespace@.len(),
                forall|j: int| 0 <= j < self.broken@.len() ==> (#[trigger] self.broken@[j])@ == self@.broken_whitespace@[j]@,
                forall|j: int| 0 <= j < k ==> !contains_run(t@, #[trigger] self@.broken_whitespace@[j]@),
            decreases self.broken@.len() - k,
        {
            if contains(t, &self.broken[k]) {
                return false;
            }
            k = k + 1;
        }
        true
    }

    /// Whether the lowercased word `w` is disallowed.
    fn is_banned(&self, w: &Vec<char>) -> (r: bool)
        ensures
            r == banned(self@, w@),
    {
        proof {
            use_type_invariant(self);
        }
        let mut k: usize = 0;
        while k < self.banned_words.len()
            invariant
                k <= self.banned_words@.len() == self@.disallowed_words@.len(),
                forall|j: int| 0 <= j < self.banned_words@.len() ==> (#[trigger] self.banned_words@[j])@ == self@.disallowed_words@[j]@,
                forall|j: int| 0 <= j < k ==> #[trigger] self@.disallowed_words@[j]@ != w@,
            decreases self.banned_words@.len() - k,
        {
            if same_chars(&self.banned_words[k], w) {
                return true;
            }
            k = k + 1;
        }
        false
    }

    /// The word-count and word-content gate of the trimmed text `t`.
    fn words_gate(&self, t: &Vec<char>) -> (ok: bool)
        ensures
            ok == words_ok(self@, t@),
    {
        proof {
            use_type_invariant(self);
        }
        let ws = split_words(t);
        let ghost model = words(t@);
        assert(ws@.len() == model.len());
        let count: usize = ws.len();
        if count < self.rules.min_word_count || count > self.rules.max_word_count {
            return false;
        }
        let mut k: usize = 0;
        while k < count
            invariant
                count == ws@.len() == model.len(),
                ws@.map_values(|w: Vec<char>| w@) == model,
                model == words(t@),
                k <= count,
                forall|j: int| 0 <= j < k ==> !banned(self@, lowercased(word_core(#[trigger] model[j]))),
            decreases count - k,
        {
            assert(ws@[k as int]@ == model[k as int]);
            let core = strip(&ws[k], true);
            let low = to_lowercase(&core);
            if self.is_banned(&low) {
                return false;
            }
            k = k + 1;
        }
        true
    }

    /// The abbreviation gate of the trimmed text `t`.
    fn abbreviations_gate(&self, t: &Vec<char>) -> (ok: bool)
        ensures
            ok == abbreviations_ok(self@, t@),
    {
        proof {
            use_type_invariant(self);
        }
        let mut k: usize = 0;
        while k < self.abbreviations.len()
            invariant
                k <= self.abbreviations@.len() == self@.abbreviation_patterns@.len(),
                forall|j: int| 0 <= j < self.abbreviations@.len() ==> (#[trigger] self.abbreviations@[j]).source() == self@.abbreviation_patterns@[j]@,
                forall|j: int| 0 <= j < k ==> !regex_matches(#[trigger] self@.abbreviation_patterns@[j]@, t@),
            decreases self.abbreviations@.len() - k,
        {
            if is_match(&self.abbreviations[k], t) {
                return false;
            }
            k = k + 1;
        }
        true
    }
}

/// Whether `raw` satisfies the rule set. The text is trimmed of surrounding
/// whitespace, then the gates run in order: shape, symbols, whitespace
/// integrity, words, abbreviations, parity.
pub fn check(rules: &CompiledRuleSet, raw: &str) -> (r: bool)
    ensures
        r == accepts(rules@, raw@),
{
    let chars = chars_of(raw);
    let t = strip(&chars, false);
    if !shape_gate(rules.rules(), &t) {
        return false;
    }
    if !rules.symbols_gate(&t) {
        return false;
    }
    if !rules.spacing_gate(&t) {
        return false;
    }
    if !rules.words_gate(&t) {
        return false;
    }
    if !rules.abbreviations_gate(&t) {
        return false;
    }
    parity_gate(rules.rules(), &t)
}

} // verus!
