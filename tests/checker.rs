use sentence_rules::{check, CompiledRuleSet, ConfigError, RuleSet};

fn compiled(rules: RuleSet) -> CompiledRuleSet {
    CompiledRuleSet::new(rules).unwrap()
}

fn strings(items: &[&str]) -> Vec<String> {
    items.iter().map(|s| s.to_string()).collect()
}

fn english() -> CompiledRuleSet {
    compiled(RuleSet {
        min_trimmed_length: 3,
        quote_start_with_letter: true,
        min_characters: 3,
        may_end_with_colon: false,
        disallowed_symbols: vec!['\\', '<', '>', '*', '@'],
        broken_whitespace: strings(&["  ", " !", " ;", " ?"]),
        min_word_count: 1,
        max_word_count: 14,
        abbreviation_patterns: strings(&["[A-Z]{2}", "[A-Z]\\.[A-Z]"]),
        ..RuleSet::default()
    })
}

fn french() -> CompiledRuleSet {
    compiled(RuleSet {
        min_trimmed_length: 3,
        quote_start_with_letter: true,
        min_characters: 3,
        may_end_with_colon: false,
        needs_punctuation_end: true,
        needs_letter_start: true,
        needs_uppercase_start: true,
        disallowed_symbols: vec!['<', '>', '*', '@', '«', '»'],
        broken_whitespace: strings(&["  ", " !", " ;"]),
        min_word_count: 1,
        max_word_count: 14,
        abbreviation_patterns: strings(&["[A-Z]{2}", "\\b[A-Z]\\."]),
        ..RuleSet::default()
    })
}

fn german() -> CompiledRuleSet {
    compiled(RuleSet {
        min_trimmed_length: 3,
        min_characters: 3,
        may_end_with_colon: false,
        needs_punctuation_end: true,
        needs_letter_start: true,
        needs_uppercase_start: true,
        allowed_symbols_regex: String::from("[a-zA-ZäöüÄÖÜß .,?!'\"-]"),
        broken_whitespace: strings(&["  "]),
        min_word_count: 1,
        max_word_count: 14,
        disallowed_words: strings(&["ambiguous", "bundesliga", "liga"]),
        abbreviation_patterns: strings(&["[.?!]\\s", "\\b\\w\\b", "[a-z][A-Z]", "\\b(Art|Co|sog|hl|geb)\\.$"]),
        ..RuleSet::default()
    })
}

#[test]
fn test_min_trimmed_length() {
    let rules = compiled(RuleSet { min_trimmed_length: 3, ..RuleSet::default() });

    assert_eq!(check(&rules, &String::from("  aa     ")), false);
    assert_eq!(check(&rules, &String::from("  aaa     ")), true);
}

#[test]
fn test_min_word_count() {
    let rules = compiled(RuleSet { min_word_count: 2, ..RuleSet::default() });

    assert_eq!(check(&rules, &String::from("one")), false);
    assert_eq!(check(&rules, &String::from("two words")), true);
}

#[test]
fn test_max_word_count() {
    let rules = compiled(RuleSet { max_word_count: 2, ..RuleSet::default() });

    assert_eq!(check(&rules, &String::from("three words now")), false);
    assert_eq!(check(&rules, &String::from("two words")), true);
}

#[test]
fn test_min_characters() {
    let rules = compiled(RuleSet { min_characters: 3, ..RuleSet::default() });

    assert_eq!(check(&rules, &String::from("no!!")), false);
    assert_eq!(check(&rules, &String::from("yes!")), true);
}

#[test]
fn test_may_end_with_colon() {
    let mut rules = compiled(RuleSet { may_end_with_colon: false, ..RuleSet::default() });

    assert_eq!(check(&rules, &String::from("ends with colon:")), false);

    rules = compiled(RuleSet { may_end_with_colon: true, ..RuleSet::default() });

    assert_eq!(check(&rules, &String::from("ends with colon:")), true);
}

#[test]
fn test_quote_start_with_letter() {
    let mut rules = compiled(RuleSet {
        quote_start_with_letter: false,
        needs_letter_start: false,
        ..RuleSet::default()
    });

    assert_eq!(check(&rules, &String::from("\"😊 foo")), true);

    rules = compiled(RuleSet {
        quote_start_with_letter: true,
        needs_letter_start: false,
        ..RuleSet::default()
    });

    assert_eq!(check(&rules, &String::from("\"😊 foo")), false);
}

#[test]
fn test_needs_punctuation_end() {
    let mut rules = compiled(RuleSet { needs_punctuation_end: false, ..RuleSet::default() });

    assert_eq!(check(&rules, &String::from("This has no punctuation")), true);
    assert_eq!(check(&rules, &String::from("This has punctuation.")), true);

    rules = compiled(RuleSet { needs_punctuation_end: true, ..RuleSet::default() });

    assert_eq!(check(&rules, &String::from("This has no punctuation")), false);
    assert_eq!(check(&rules, &String::from("This has punctuation.")), true);
}

#[test]
fn test_needs_letter_start() {
    let mut rules = compiled(RuleSet { needs_letter_start: false, ..RuleSet::default() });

    assert_eq!(check(&rules, &String::from("?Foo")), true);
    assert_eq!(check(&rules, &String::from("This has a normal start")), true);

    rules = compiled(RuleSet { needs_letter_start: true, ..RuleSet::default() });

    assert_eq!(check(&rules, &String::from("?Foo")), false);
    assert_eq!(check(&rules, &String::from("This has a normal start")), true);
}

#[test]
fn test_needs_uppercase_start() {
    let mut rules = compiled(RuleSet { needs_uppercase_start: false, ..RuleSet::default() });

    assert_eq!(check(&rules, &String::from("foo")), true);
    assert_eq!(check(&rules, &String::from("Foo")), true);

    rules = compiled(RuleSet { needs_uppercase_start: true, ..RuleSet::default() });

    assert_eq!(check(&rules, &String::from("foo")), false);
    assert_eq!(check(&rules, &String::from("Foo")), true);
}

#[test]
fn test_disallowed_symbols() {
    let rules = compiled(RuleSet { disallowed_symbols: vec!['%'], ..RuleSet::default() });

    assert_eq!(check(&rules, &String::from("This has no percentage but other & characters")), true);
    assert_eq!(check(&rules, &String::from("This has a %")), false);
}

#[test]
fn test_allowed_symbols_regex() {
    let rules = compiled(RuleSet {
        allowed_symbols_regex: String::from("[\u{0020}-\u{005A}]"),
        ..RuleSet::default()
    });

    assert_eq!(check(&rules, &String::from("ONLY UPPERCASE AND SPACE IS ALLOWED")), true);
    assert_eq!(check(&rules, &String::from("This is not uppercase")), false);
}

#[test]
fn test_allowed_symbols_regex_over_disallowed() {
    let rules = compiled(RuleSet {
        allowed_symbols_regex: String::from("[\u{0020}-\u{005A}]"),
        disallowed_symbols: vec!['O'],
        ..RuleSet::default()
    });

    assert_eq!(
        check(&rules, &String::from("ONLY UPPERCASE AND SPACE IS ALLOWED AND DISALLOWED O IS OKAY")),
        true
    );
}

#[test]
fn test_disallowed_words() {
    let rules = compiled(RuleSet { disallowed_words: strings(&["blerg"]), ..RuleSet::default() });

    assert_eq!(check(&rules, &String::from("This has blerg")), false);
    assert_eq!(check(&rules, &String::from("This has a capital bLeRg")), false);
    assert_eq!(check(&rules, &String::from("This has many blergs blerg blerg blerg")), false);
    assert_eq!(check(&rules, &String::from("Here is a blerg, with comma")), false);
    assert_eq!(check(&rules, &String::from("This hasn't bl e r g")), true);

    let rules = compiled(RuleSet { disallowed_words: strings(&["a's"]), ..RuleSet::default() });
    assert_eq!(check(&rules, &String::from("This has a's")), false);
}

#[test]
fn test_broken_whitespace() {
    let rules = compiled(RuleSet { broken_whitespace: strings(&["  "]), ..RuleSet::default() });

    assert_eq!(check(&rules, &String::from("This has no broken whitespace")), true);
    assert_eq!(check(&rules, &String::from("This has  broken whitespace")), false);
}

#[test]
fn test_abbreviation_patterns() {
    let rules = compiled(RuleSet {
        abbreviation_patterns: strings(&["[A-Z]{2}"]),
        ..RuleSet::default()
    });

    assert_eq!(check(&rules, &String::from("This no two following uppercase letters")), true);
    assert_eq!(check(&rules, &String::from("This has two FOllowing uppercase letters")), false);
}

#[test]
fn test_uneven_quotes_allowed_default() {
    let rules = compiled(RuleSet { ..RuleSet::default() });

    assert_eq!(check(&rules, &String::from("This has \"uneven quotes and it is fine!")), true);
}

#[test]
fn test_uneven_quotes_allowed() {
    let rules = compiled(RuleSet { even_symbols: vec![], ..RuleSet::default() });

    assert_eq!(check(&rules, &String::from("This has \"uneven quotes and it is fine!")), true);
    assert_eq!(check(&rules, &String::from("This has (uneven parenthesis and it is fine!")), true);
}

#[test]
fn test_uneven_quotes_not_allowed() {
    let rules = compiled(RuleSet { even_symbols: vec!['"', '('], ..RuleSet::default() });

    assert_eq!(check(&rules, &String::from("This has \"uneven quotes and it is not fine!")), false);
    assert_eq!(check(&rules, &String::from("This has (uneven parenthesis and it is not fine!")), false);
}

#[test]
fn test_uneven_quotes_not_allowed_even() {
    let rules = compiled(RuleSet { even_symbols: vec!['"'], ..RuleSet::default() });

    assert_eq!(check(&rules, &String::from("This has \"even\" quotes and it is fine!")), true);
}

#[test]
fn test_uneven_quotes_not_allowed_multiple() {
    let rules = compiled(RuleSet { even_symbols: vec!['"', '\''], ..RuleSet::default() });

    assert_eq!(check(&rules, &String::from("This has \"uneven quotes' and it is fine!")), false);
}

#[test]
fn test_uneven_quotes_not_allowed_multiple_one_ok() {
    let rules = compiled(RuleSet { even_symbols: vec!['"', '\''], ..RuleSet::default() });

    assert_eq!(check(&rules, &String::from("This has \"uneven\" quotes' and it is fine!")), false);
}

#[test]
fn test_english() {
    let rules = english();

    assert_eq!(check(&rules, &String::from("")), false);
    assert_eq!(check(&rules, &String::from("\"😊")), false);
    assert_eq!(check(&rules, &String::from("This ends with:")), false);
    assert_eq!(check(&rules, &String::from(" AA ")), false);
    assert_eq!(check(&rules, &String::from("This has broken  space")), false);
    assert_eq!(check(&rules, &String::from("This as well !")), false);
    assert_eq!(check(&rules, &String::from("And this ;")), false);
    assert_eq!(
        check(&rules, &String::from("This is gonna be way way way way way way way way way way too long")),
        false
    );
    assert_eq!(check(&rules, &String::from("This is absolutely valid.")), true);
    assert_eq!(check(&rules, &String::from("This contains 1 number")), false);
    assert_eq!(check(&rules, &String::from("this is lowercase")), true);
    assert_eq!(check(&rules, &String::from("foo\n\nfoo")), false);
    assert_eq!(check(&rules, &String::from("foo\\foo")), false);
    assert_eq!(check(&rules, &String::from("foo<>")), false);
    assert_eq!(check(&rules, &String::from("foo*@")), false);
    assert_eq!(check(&rules, &String::from("A.B")), false);
    assert_eq!(check(&rules, &String::from("S.T.A.L.K.E.R.")), false);
}

#[test]
fn test_french() {
    let rules = french();

    assert_eq!(check(&rules, &String::from("")), false);
    assert_eq!(check(&rules, &String::from("\"😊")), false);
    assert_eq!(check(&rules, &String::from("This ends with:")), false);
    assert_eq!(check(&rules, &String::from("This does not end with a period")), false);
    assert_eq!(check(&rules, &String::from("?This does not start with a letter")), false);
    assert_eq!(check(&rules, &String::from("this starts with lowercase")), false);
    assert_eq!(check(&rules, &String::from(" AA ")), false);
    assert_eq!(check(&rules, &String::from("This has broken  space")), false);
    assert_eq!(check(&rules, &String::from("This as well !")), false);
    assert_eq!(check(&rules, &String::from("And this ;")), false);
    assert_eq!(
        check(&rules, &String::from("This is gonna be way way way way way way way way way way too long")),
        false
    );
    assert_eq!(check(&rules, &String::from("Short")), false);
    assert_eq!(check(&rules, &String::from("This is absolutely validé.")), true);
    assert_eq!(check(&rules, &String::from("No!!!")), false);
    assert_eq!(check(&rules, &String::from("This contains 1 number")), false);
    assert_eq!(check(&rules, &String::from("foo\n\nfoo")), false);
    assert_eq!(check(&rules, &String::from("foo<>")), false);
    assert_eq!(check(&rules, &String::from("foo«")), false);
    assert_eq!(check(&rules, &String::from("foo*@")), false);
    assert_eq!(check(&rules, &String::from("A.B")), false);
    assert_eq!(check(&rules, &String::from("S.T.A.L.K.E.R.")), false);
    assert_eq!(check(&rules, &String::from("Some sentence that ends with A.")), false);
}

#[test]
fn test_german() {
    let rules = german();

    assert_eq!(check(&rules, &String::from("Dies ist ein korrekter Satz.")), true);
    assert_eq!(check(&rules, &String::from("Satzzeichen in der Mitte. Wird nicht akzeptiert.")), false);
    assert_eq!(check(&rules, &String::from("Satzzeichen in der Mitte? Wird nicht akzeptiert.")), false);
    assert_eq!(check(&rules, &String::from("Satzzeichen in der Mitte! Wird nicht akzeptiert.")), false);
    assert_eq!(check(&rules, &String::from("Französische Satzzeichen werden ignorierté.")), false);
    assert_eq!(check(&rules, &String::from("Andere Satzzeichen wie Åblabla werden auch ignoriert.")), false);
    assert_eq!(check(&rules, &String::from("Γεια σας")), false);
    assert_eq!(
        check(&rules, &String::from("Sätze dürfen keine Wörter mit nur einem B Buchstaben haben.")),
        false
    );
    assert_eq!(check(&rules, &String::from("A auch nicht am Anfang.")), false);
    assert_eq!(check(&rules, &String::from("Oder am Ende e.")), false);
    assert_eq!(check(&rules, &String::from("Oder am Ende e.")), false);
    assert_eq!(check(&rules, &String::from("AmSi ist eine schwarze Masse, isomorph mit LaSi")), false);
    assert_eq!(check(&rules, &String::from("Die Aussperrung ist nach Art.")), false);
    assert_eq!(check(&rules, &String::from("Remy & Co.")), false);
    assert_eq!(check(&rules, &String::from("Es ist die sog.")), false);
    assert_eq!(check(&rules, &String::from("Kein deutsches Wort: ambiguous.")), false);
    assert_eq!(check(&rules, &String::from("Bundesliga am Anfang eines Satzes.")), false);
    assert_eq!(check(&rules, &String::from("Liga am Anfang eines Satzes.")), false);
    assert_eq!(check(&rules, &String::from("Abkürzung am Ende hl.")), false);
    assert_eq!(check(&rules, &String::from("Abkürzung am Ende geb.")), false);
}
