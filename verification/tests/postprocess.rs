use voxforge::postprocess::{apply_rule, apply_rules, PostProcessingRule, RuleType};

fn rule(rule_type: RuleType, enabled: bool) -> PostProcessingRule {
    PostProcessingRule {
        id: "r".to_string(),
        name: "rule".to_string(),
        rule_type,
        enabled,
    }
}

#[test]
fn trim_whitespace_removes_both_ends() {
    assert_eq!(apply_rule("  \t hello world \n ", &RuleType::TrimWhitespace), "hello world");
    assert_eq!(apply_rule("   ", &RuleType::TrimWhitespace), "");
    assert_eq!(apply_rule("", &RuleType::TrimWhitespace), "");
    // non-breaking space and ideographic space are white space too
    assert_eq!(apply_rule("\u{a0}x\u{3000}", &RuleType::TrimWhitespace), "x");
}

#[test]
fn trim_whitespace_is_idempotent() {
    let once = apply_rule("  a  b  ", &RuleType::TrimWhitespace);
    let twice = apply_rule(&once, &RuleType::TrimWhitespace);
    assert_eq!(once, "a  b");
    assert_eq!(once, twice);
}

#[test]
fn collapse_spaces_shrinks_runs() {
    assert_eq!(apply_rule("a   b  c d", &RuleType::CollapseSpaces), "a b c d");
    assert_eq!(apply_rule("   lead", &RuleType::CollapseSpaces), " lead");
    // only the space character is collapsed
    assert_eq!(apply_rule("a\t\tb", &RuleType::CollapseSpaces), "a\t\tb");
}

#[test]
fn collapse_spaces_is_idempotent_and_leaves_no_double_space() {
    let once = apply_rule("x    y     z  ", &RuleType::CollapseSpaces);
    assert_eq!(once, "x y z ");
    assert!(!once.contains("  "));
    assert_eq!(apply_rule(&once, &RuleType::CollapseSpaces), once);
}

#[test]
fn capitalize_first_word_uppercases_first_char() {
    assert_eq!(apply_rule("hello world", &RuleType::CapitalizeFirstWord), "Hello world");
    assert_eq!(apply_rule("", &RuleType::CapitalizeFirstWord), "");
    assert_eq!(apply_rule(" hello", &RuleType::CapitalizeFirstWord), " hello");
    // the uppercase mapping of ß is two characters
    assert_eq!(apply_rule("ßa", &RuleType::CapitalizeFirstWord), "SSa");
    assert_eq!(apply_rule("élan", &RuleType::CapitalizeFirstWord), "Élan");
}

#[test]
fn capitalize_sentences_after_terminators() {
    assert_eq!(
        apply_rule("hello. how are you? fine! ok", &RuleType::CapitalizeSentences),
        "Hello. How are you? Fine! Ok"
    );
    // digits do not use up the capitalization
    assert_eq!(apply_rule("1abc", &RuleType::CapitalizeSentences), "1Abc");
    assert_eq!(apply_rule("a.b", &RuleType::CapitalizeSentences), "A.B");
}

#[test]
fn remove_filler_words_removes_each_filler() {
    assert_eq!(
        apply_rule("um, I think, like, this is basically it", &RuleType::RemoveFillerWords),
        "I think, this is it"
    );
    assert_eq!(apply_rule("Uh so UM yes", &RuleType::RemoveFillerWords), "so yes");
    // whole words only
    assert_eq!(apply_rule("umbrella likely", &RuleType::RemoveFillerWords), "umbrella likely");
    assert_eq!(apply_rule("you know it", &RuleType::RemoveFillerWords), "it");
}

#[test]
fn remove_leading_punctuation_drops_ascii_punct_and_spaces() {
    assert_eq!(apply_rule("..., hello!", &RuleType::RemoveLeadingPunctuation), "hello!");
    assert_eq!(apply_rule(" - - x", &RuleType::RemoveLeadingPunctuation), "x");
    assert_eq!(apply_rule("¿qué", &RuleType::RemoveLeadingPunctuation), "¿qué");
    assert_eq!(apply_rule("!!!", &RuleType::RemoveLeadingPunctuation), "");
}

#[test]
fn add_punctuation_appends_period() {
    assert_eq!(apply_rule("hello world  ", &RuleType::AddPunctuation), "hello world.");
    assert_eq!(apply_rule("done!", &RuleType::AddPunctuation), "done!");
    assert_eq!(apply_rule("wait,  ", &RuleType::AddPunctuation), "wait,  ");
    assert_eq!(apply_rule("   ", &RuleType::AddPunctuation), "   ");
    let once = apply_rule("abc ", &RuleType::AddPunctuation);
    assert_eq!(apply_rule(&once, &RuleType::AddPunctuation), once);
}

#[test]
fn code_formatting_keeps_text() {
    assert_eq!(apply_rule("  fn main() {}  ", &RuleType::CodeFormatting), "  fn main() {}  ");
}

#[test]
fn defaults_lists_six_rules() {
    let d = PostProcessingRule::defaults();
    assert_eq!(d.len(), 6);
    let ids: Vec<&str> = d.iter().map(|r| r.id.as_str()).collect();
    assert_eq!(
        ids,
        vec![
            "capitalize_first",
            "trim_whitespace",
            "collapse_spaces",
            "remove_filler",
            "capitalize_sentences",
            "remove_leading_punct"
        ]
    );
    assert_eq!(d[3].rule_type, RuleType::RemoveFillerWords);
    assert!(!d[3].enabled);
    assert!(d.iter().filter(|r| r.enabled).count() == 5);
    assert_eq!(d[0].name, "Capitalize first word");
    assert_eq!(d[3].name, "Remove filler words (um, uh, like)");
}

#[test]
fn apply_rules_with_defaults() {
    let d = PostProcessingRule::defaults();
    assert_eq!(apply_rules("  ...um hello   world. this is it  ", &d), "Um hello world. This is it");
    assert_eq!(apply_rules("", &d), "");
}

#[test]
fn apply_rules_runs_in_order() {
    // capitalize first, then trim: the leading space stops capitalization
    let rules = vec![rule(RuleType::CapitalizeFirstWord, true), rule(RuleType::TrimWhitespace, true)];
    assert_eq!(apply_rules(" abc", &rules), "abc");
    let rules = vec![rule(RuleType::TrimWhitespace, true), rule(RuleType::CapitalizeFirstWord, true)];
    assert_eq!(apply_rules(" abc", &rules), "Abc");
}

#[test]
fn disabled_rules_are_ignored() {
    let rules = vec![
        rule(RuleType::TrimWhitespace, false),
        rule(RuleType::AddPunctuation, true),
        rule(RuleType::CapitalizeFirstWord, false),
    ];
    let enabled: Vec<PostProcessingRule> = rules.iter().filter(|r| r.enabled).cloned().collect();
    assert_eq!(apply_rules(" hi ", &rules), " hi.");
    assert_eq!(apply_rules(" hi ", &rules), apply_rules(" hi ", &enabled));
    let none: Vec<PostProcessingRule> = vec![rule(RuleType::TrimWhitespace, false)];
    assert_eq!(apply_rules(" keep ", &none), " keep ");
}

#[test]
fn rules_run_in_sequence() {
    let all = PostProcessingRule::defaults();
    let text = "  ...so   um. it is done  ";
    let (first, rest) = all.split_at(3);
    assert_eq!(apply_rules(text, &all), apply_rules(&apply_rules(text, first), rest));
    assert_eq!(apply_rules(text, &all), "So um. It is done");
}
