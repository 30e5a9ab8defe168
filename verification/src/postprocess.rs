//! The post-processing pipeline: rules that clean up a transcript before it
//! is injected (trimming, collapsing spaces, capitalization, filler words,
//! punctuation).
use vstd::prelude::*;
use crate::text::{
    alphabetic, char_is_alphabetic, char_to_uppercase, chars_of, is_ascii_punct,
    is_ascii_punctuation, last_non_ws_end, lemma_trim_end_skip, push_char, push_chars, push_range,
    string_of, string_of_range, trim_chars, trim_end_ws, trim_start_ws, trim_ws, uppercase_of, is_ws,
};
use crate::pattern::{build_filler_pattern, filler_pattern, replace_pass, run_replace_pass};

verus! {

/// What a post-processing rule does to the text.
#[derive(Debug, Clone, Copy, PartialEq, Eq, Structural)]
pub enum RuleType {
    CapitalizeFirstWord,
    CapitalizeSentences,
    RemoveFillerWords,
    AddPunctuation,
    TrimWhitespace,
    CollapseSpaces,
    RemoveLeadingPunctuation,
    CodeFormatting,
}

/// A named, switchable post-processing rule.
#[derive(Debug, Clone)]
pub struct PostProcessingRule {
    pub id: String,
    pub name: String,
    pub rule_type: RuleType,
    pub enabled: bool,
}

// ---------------------------------------------------------------------
// What each rule does
// ---------------------------------------------------------------------

/// Runs of spaces shrink to one space; `prev_space` tells whether the
/// character before `s` was a space.
pub open spec fn collapse_from(s: Seq<char>, prev_space: bool) -> Seq<char>
    decreases s.len(),
{
    if s.len() == 0 {
        Seq::empty()
    } else if s[0] == ' ' {
        (if prev_space {
            Seq::empty()
        } else {
            seq![' ']
        }) + collapse_from(s.drop_first(), true)
    } else {
        seq![s[0]] + collapse_from(s.drop_first(), false)
    }
}

/// The first character in its uppercase mapping, the rest unchanged.
pub open spec fn capitalize_first(s: Seq<char>) -> Seq<char> {
    if s.len() == 0 {
        Seq::empty()
    } else {
        uppercase_of(s[0]) + s.drop_first()
    }
}

/// The characters that end a sentence.
pub open spec fn ends_sentence(c: char) -> bool {
    c == '.' || c == '!' || c == '?'
}

/// The first alphabetic character, and the first alphabetic character after
/// each sentence end, in their uppercase mapping; `cap` tells whether the next
/// alphabetic character is to be capitalized.
pub open spec fn capitalize_from(s: Seq<char>, cap: bool) -> Seq<char>
    decreases s.len(),
{
    if s.len() == 0 {
        Seq::empty()
    } else if cap && alphabetic(s[0]) {
        uppercase_of(s[0]) + capitalize_from(s.drop_first(), false)
    } else {
        seq![s[0]] + capitalize_from(
            s.drop_first(),
            if ends_sentence(s[0]) {
                true
            } else {
                cap
            },
        )
    }
}

/// Whether every character of a text is ASCII.
pub open spec fn is_ascii_text(s: Seq<char>) -> bool {
    forall|i: int| 0 <= i < s.len() ==> (#[trigger] s[i] as u32) < 128
}

/// Whether an ASCII character is a letter.
pub open spec fn ascii_letter(c: char) -> bool {
    'a' <= c <= 'z' || 'A' <= c <= 'Z'
}

/// The uppercase of an ASCII character: `a`..`z` become `A`..`Z`; every
/// other character stays as it is.
pub open spec fn ascii_upper(c: char) -> char {
    if 'a' <= c <= 'z' {
        ((c as u32) - 32) as char
    } else {
        c
    }
}

/// `capitalize_first` on ASCII text: the first character in uppercase.
pub open spec fn capitalize_first_ascii(s: Seq<char>) -> Seq<char> {
    if s.len() == 0 {
        Seq::empty()
    } else {
        seq![ascii_upper(s[0])] + s.drop_first()
    }
}

/// `capitalize_from` on ASCII text: the first letter, and the first letter
/// after each `.`, `!` or `?`, in uppercase.
pub open spec fn capitalize_ascii_from(s: Seq<char>, cap: bool) -> Seq<char>
    decreases s.len(),
{
    if s.len() == 0 {
        Seq::empty()
    } else if cap && ascii_letter(s[0]) {
        seq![ascii_upper(s[0])] + capitalize_ascii_from(s.drop_first(), false)
    } else {
        seq![s[0]] + capitalize_ascii_from(
            s.drop_first(),
            if ends_sentence(s[0]) {
                true
            } else {
                cap
            },
        )
    }
}

/// The characters that `RemoveLeadingPunctuation` drops from the start.
pub open spec fn leading_junk(c: char) -> bool {
    is_ascii_punct(c) || c == ' '
}

/// `s` without its leading ASCII punctuation and spaces.
pub open spec fn drop_leading_junk(s: Seq<char>) -> Seq<char>
    decreases s.len(),
{
    if s.len() > 0 && leading_junk(s[0]) {
        drop_leading_junk(s.drop_first())
    } else {
        s
    }
}

/// The characters after which no period is added.
pub open spec fn ends_clause(c: char) -> bool {
    c == '.' || c == '!' || c == '?' || c == ','
}

/// A period after the text, trailing white space removed, when the text is
/// not blank and does not already end in `.`, `!`, `?` or `,`; otherwise the
/// text unchanged.
pub open spec fn add_period(s: Seq<char>) -> Seq<char> {
    let t = trim_end_ws(s);
    if t.len() > 0 && !ends_clause(t.last()) {
        t.push('.')
    } else {
        s
    }
}

/// The filler words, in the order in which they are removed.
pub open spec fn filler_word(i: int) -> Seq<char> {
    if i == 0 {
        "um"@
    } else if i == 1 {
        "uh"@
    } else if i == 2 {
        "like"@
    } else if i == 3 {
        "you know"@
    } else if i == 4 {
        "basically"@
    } else if i == 5 {
        "actually"@
    } else {
        "literally"@
    }
}

/// How many filler words there are.
pub open spec fn filler_count() -> int {
    7
}

/// `s` after the first `k` filler passes.
pub open spec fn remove_fillers_upto(s: Seq<char>, k: int) -> Seq<char>
    decreases k,
{
    if k <= 0 {
        s
    } else {
        replace_pass(filler_pattern(filler_word(k - 1)), remove_fillers_upto(s, k - 1), ""@)
    }
}

/// What one rule makes of a text.
pub open spec fn rule_result(s: Seq<char>, rule: RuleType) -> Seq<char> {
    match rule {
        RuleType::TrimWhitespace => trim_ws(s),
        RuleType::CollapseSpaces => collapse_from(s, false),
        RuleType::CapitalizeFirstWord => capitalize_first(s),
        RuleType::CapitalizeSentences => capitalize_from(s, true),
        RuleType::RemoveFillerWords => remove_fillers_upto(s, filler_count()),
        RuleType::RemoveLeadingPunctuation => drop_leading_junk(s),
        RuleType::AddPunctuation => add_period(s),
        RuleType::CodeFormatting => s,
    }
}

/// The enabled rules applied one after the other, in order; disabled rules
/// are passed over.
pub open spec fn rules_result(s: Seq<char>, rules: Seq<PostProcessingRule>) -> Seq<char>
    decreases rules.len(),
{
    if rules.len() == 0 {
        s
    } else {
        let next = if rules[0].enabled {
            rule_result(s, rules[0].rule_type)
        } else {
            s
        };
        rules_result(next, rules.drop_first())
    }
}

// ---------------------------------------------------------------------
// The rules, one by one
// ---------------------------------------------------------------------

fn collapse_spaces(cs: &[char]) -> (r: String)
    ensures
        r@ == collapse_from(cs@, false),
{
    let n = cs.len();
    let mut out = String::new();
    let mut prev_space = false;
    let mut i: usize = 0;
    assert(cs@.subrange(0, n as int) =~= cs@);
    while i < n
        invariant
            n == cs@.len(),
            i <= n,
            out@ + collapse_from(cs@.subrange(i as int, n as int), prev_space) == collapse_from(
                cs@,
                false,
            ),
        decreases n - i,
    {
        let ghost rest = cs@.subrange(i as int, n as int);
        assert(rest.drop_first() =~= cs@.subrange(i + 1, n as int));
        let ch = cs[i];
        if ch == ' ' {
            if !prev_space {
                push_char(&mut out, ch);
            }
            prev_space = true;
        } else {
            push_char(&mut out, ch);
            prev_space = false;
        }
        assert(out@ + collapse_from(cs@.subrange(i + 1, n as int), prev_space) =~= collapse_from(
            cs@,
            false,
        ));
        i = i + 1;
    }
    out
}

fn capitalize_first_word(cs: &[char]) -> (r: String)
    ensures
        r@ == capitalize_first(cs@),
        is_ascii_text(cs@) ==> r@ == capitalize_first_ascii(cs@),
{
    if cs.len() == 0 {
        String::new()
    } else {
        let up = char_to_uppercase(cs[0]);
        let mut out = string_of(up.as_slice());
        push_range(&mut out, cs, 1, cs.len());
        assert(cs@.subrange(1, cs@.len() as int) =~= cs@.drop_first());
        proof {
            if is_ascii_text(cs@) {
                assert((cs@[0] as u32) < 128);
                assert(up@ =~= seq![ascii_upper(cs@[0])]);
            }
        }
        out
    }
}

fn capitalize_sentences(cs: &[char]) -> (r: String)
    ensures
        r@ == capitalize_from(cs@, true),
        is_ascii_text(cs@) ==> r@ == capitalize_ascii_from(cs@, true),
{
    let n = cs.len();
    let mut out = String::new();
    let mut cap = true;
    let mut i: usize = 0;
    assert(cs@.subrange(0, n as int) =~= cs@);
    while i < n
        invariant
            n == cs@.len(),
            i <= n,
            out@ + capitalize_from(cs@.subrange(i as int, n as int), cap) == capitalize_from(
                cs@,
                true,
            ),
            is_ascii_text(cs@) ==> out@ + capitalize_ascii_from(cs@.subrange(i as int, n as int), cap)
                == capitalize_ascii_from(cs@, true),
        decreases n - i,
    {
        let ghost rest = cs@.subrange(i as int, n as int);
        assert(rest.drop_first() =~= cs@.subrange(i + 1, n as int));
        let ch = cs[i];
        if cap && char_is_alphabetic(ch) {
            let up = char_to_uppercase(ch);
            push_chars(&mut out, up.as_slice());
            cap = false;
        } else {
            push_char(&mut out, ch);
            if ch == '.' || ch == '!' || ch == '?' {
                cap = true;
            }
        }
        assert(out@ + capitalize_from(cs@.subrange(i + 1, n as int), cap) =~= capitalize_from(
            cs@,
            true,
        ));
        proof {
            if is_ascii_text(cs@) {
                assert((cs@[i as int] as u32) < 128);
                assert(out@ + capitalize_ascii_from(cs@.subrange(i + 1, n as int), cap)
                    =~= capitalize_ascii_from(cs@, true));
            }
        }
        i = i + 1;
    }
    out
}

/// Dropping a prefix of junk characters does not change what dropping the
/// leading junk gives.
proof fn lemma_drop_junk_skip(s: Seq<char>, i: int)
    requires
        0 <= i <= s.len(),
        forall|k: int| 0 <= k < i ==> leading_junk(#[trigger] s[k]),
    ensures
        drop_leading_junk(s) == drop_leading_junk(s.subrange(i, s.len() as int)),
    decreases i,
{
    if i > 0 {
        let t = s.drop_first();
        assert forall|k: int| 0 <= k < i - 1 implies leading_junk(#[trigger] t[k]) by {
            assert(t[k] == s[k + 1]);
        }
        lemma_drop_junk_skip(t, i - 1);
        assert(t.subrange(i - 1, t.len() as int) =~= s.subrange(i, s.len() as int));
    } else {
        assert(s.subrange(0, s.len() as int) =~= s);
    }
}

fn remove_leading_punctuation(cs: &[char]) -> (r: String)
    ensures
        r@ == drop_leading_junk(cs@),
{
    let n = cs.len();
    let mut i: usize = 0;
    while i < n && (is_ascii_punctuation(cs[i]) || cs[i] == ' ')
        invariant
            n == cs@.len(),
            i <= n,
            forall|k: int| 0 <= k < i ==> leading_junk(#[trigger] cs@[k]),
        decreases n - i,
    {
        i = i + 1;
    }
    proof {
        lemma_drop_junk_skip(cs@, i as int);
    }
    string_of_range(cs, i, n)
}

fn add_punctuation(cs: &[char]) -> (r: String)
    ensures
        r@ == add_period(cs@),
{
    let j = last_non_ws_end(cs, 0);
    proof {
        lemma_trim_end_skip(cs@, j as int);
        let u = cs@.subrange(0, j as int);
        if j > 0 {
            assert(u.last() == cs@[j - 1]);
        }
        assert(trim_end_ws(u) == u);
    }
    if j > 0 && !(cs[j - 1] == '.' || cs[j - 1] == '!' || cs[j - 1] == '?' || cs[j - 1] == ',') {
        let mut out = string_of_range(cs, 0, j);
        push_char(&mut out, '.');
        out
    } else {
        string_of(cs)
    }
}

/// The `i`-th filler word.
fn filler_word_str(i: usize) -> (r: &'static str)
    requires
        i < 7,
    ensures
        r@ == filler_word(i as int),
{
    if i == 0 {
        "um"
    } else if i == 1 {
        "uh"
    } else if i == 2 {
        "like"
    } else if i == 3 {
        "you know"
    } else if i == 4 {
        "basically"
    } else if i == 5 {
        "actually"
    } else {
        "literally"
    }
}

fn remove_filler_words(text: &str) -> (r: String)
    ensures
        r@ == remove_fillers_upto(text@, filler_count()),
{
    let mut result = String::from_str(text);
    let mut k: usize = 0;
    while k < 7
        invariant
            k <= 7,
            result@ == remove_fillers_upto(text@, k as int),
        decreases 7 - k,
    {
        let pattern = build_filler_pattern(filler_word_str(k));
        result = run_replace_pass(pattern.as_str(), result, "");
        k = k + 1;
    }
    result
}

/// Applies one rule to a text.
pub fn apply_rule(text: &str, rule_type: &RuleType) -> (r: String)
    ensures
        r@ == rule_result(text@, *rule_type),
        *rule_type == RuleType::CapitalizeFirstWord && is_ascii_text(text@) ==> r@
            == capitalize_first_ascii(text@),
        *rule_type == RuleType::CapitalizeSentences && is_ascii_text(text@) ==> r@
            == capitalize_ascii_from(text@, true),
{
    match rule_type {
        RuleType::TrimWhitespace => {
            let cs = chars_of(text);
            trim_chars(cs.as_slice())
        },
        RuleType::CollapseSpaces => {
            let cs = chars_of(text);
            collapse_spaces(cs.as_slice())
        },
        RuleType::CapitalizeFirstWord => {
            let cs = chars_of(text);
            capitalize_first_word(cs.as_slice())
        },
        RuleType::CapitalizeSentences => {
            let cs = chars_of(text);
            capitalize_sentences(cs.as_slice())
        },
        RuleType::RemoveFillerWords => remove_filler_words(text),
        RuleType::RemoveLeadingPunctuation => {
            let cs = chars_of(text);
            remove_leading_punctuation(cs.as_slice())
        },
        RuleType::AddPunctuation => {
            let cs = chars_of(text);
            add_punctuation(cs.as_slice())
        },
        RuleType::CodeFormatting => String::from_str(text),
    }
}

/// Applies the enabled rules to a text, one after the other, in the order
/// of the list.
pub fn apply_rules(text: &str, rules: &[PostProcessingRule]) -> (r: String)
    ensures
        r@ == rules_result(text@, rules@),
{
    let mut result = String::from_str(text);
    let n = rules.len();
    let mut i: usize = 0;
    assert(rules@.subrange(0, n as int) =~= rules@);
    while i < n
        invariant
            n == rules@.len(),
            i <= n,
            rules_result(result@, rules@.subrange(i as int, n as int)) == rules_result(
                text@,
                rules@,
            ),
        decreases n - i,
    {
        let ghost rest = rules@.subrange(i as int, n as int);
        assert(rest.drop_first() =~= rules@.subrange(i + 1, n as int));
        let rule = &rules[i];
        if rule.enabled {
            result = apply_rule(result.as_str(), &rule.rule_type);
        }
        i = i + 1;
    }
    result
}

// ---------------------------------------------------------------------
// The default rule set
// ---------------------------------------------------------------------

/// The `i`-th default rule: its id, name, kind and whether it is enabled.
pub open spec fn default_rule(i: int) -> (Seq<char>, Seq<char>, RuleType, bool) {
    if i == 0 {
        ("capitalize_first"@, "Capitalize first word"@, RuleType::CapitalizeFirstWord, true)
    } else if i == 1 {
        ("trim_whitespace"@, "Trim whitespace"@, RuleType::TrimWhitespace, true)
    } else if i == 2 {
        ("collapse_spaces"@, "Collapse multiple spaces"@, RuleType::CollapseSpaces, true)
    } else if i == 3 {
        ("remove_filler"@, "Remove filler words (um, uh, like)"@, RuleType::RemoveFillerWords, false)
    } else if i == 4 {
        ("capitalize_sentences"@, "Capitalize after periods"@, RuleType::CapitalizeSentences, true)
    } else {
        (
            "remove_leading_punct"@,
            "Remove leading punctuation"@,
            RuleType::RemoveLeadingPunctuation,
            true,
        )
    }
}

/// Whether a rule holds the `i`-th default.
pub open spec fn is_default_rule(r: PostProcessingRule, i: int) -> bool {
    let d = default_rule(i);
    &&& r.id@ == d.0
    &&& r.name@ == d.1
    &&& r.rule_type == d.2
    &&& r.enabled == d.3
}

fn make_rule(id: &str, name: &str, rule_type: RuleType, enabled: bool) -> (r: PostProcessingRule)
    ensures
        r.id@ == id@,
        r.name@ == name@,
        r.rule_type == rule_type,
        r.enabled == enabled,
{
    PostProcessingRule {
        id: String::from_str(id),
        name: String::from_str(name),
        rule_type,
        enabled,
    }
}

impl PostProcessingRule {
    /// The rule set a new installation starts with: six rules, all enabled
    /// but filler-word removal.
    pub fn defaults() -> (r: Vec<PostProcessingRule>)
        ensures
            r@.len() == 6,
            forall|i: int| 0 <= i < 6 ==> is_default_rule(#[trigger] r@[i], i),
    {
        let mut v: Vec<PostProcessingRule> = Vec::new();
        v.push(make_rule("capitalize_first", "Capitalize first word", RuleType::CapitalizeFirstWord, true));
        v.push(make_rule("trim_whitespace", "Trim whitespace", RuleType::TrimWhitespace, true));
        v.push(make_rule("collapse_spaces", "Collapse multiple spaces", RuleType::CollapseSpaces, true));
        v.push(
            make_rule(
                "remove_filler",
                "Remove filler words (um, uh, like)",
                RuleType::RemoveFillerWords,
                false,
            ),
        );
        v.push(
            make_rule(
                "capitalize_sentences",
                "Capitalize after periods",
                RuleType::CapitalizeSentences,
                true,
            ),
        );
        v.push(
            make_rule(
                "remove_leading_punct",
                "Remove leading punctuation",
                RuleType::RemoveLeadingPunctuation,
                true,
            ),
        );
        v
    }
}

// ---------------------------------------------------------------------
// Laws
// ---------------------------------------------------------------------

/// The enabled rules of a list, in order.
pub open spec fn enabled_only(rules: Seq<PostProcessingRule>) -> Seq<PostProcessingRule>
    decreases rules.len(),
{
    if rules.len() == 0 {
        rules
    } else if rules[0].enabled {
        seq![rules[0]] + enabled_only(rules.drop_first())
    } else {
        enabled_only(rules.drop_first())
    }
}

/// Disabled rules have no effect: applying a list of rules gives what
/// applying only its enabled rules gives.
pub proof fn law_disabled_rules_are_ignored(s: Seq<char>, rules: Seq<PostProcessingRule>)
    ensures
        rules_result(s, rules) == rules_result(s, enabled_only(rules)),
    decreases rules.len(),
{
    if rules.len() > 0 {
        let next = if rules[0].enabled {
            rule_result(s, rules[0].rule_type)
        } else {
            s
        };
        law_disabled_rules_are_ignored(next, rules.drop_first());
        if rules[0].enabled {
            let e = seq![rules[0]] + enabled_only(rules.drop_first());
            assert(e[0] == rules[0]);
            assert(e.drop_first() =~= enabled_only(rules.drop_first()));
        }
    }
}

/// Whether a text holds none of the characters that end a sentence
/// (`.`, `!`, `?`).
pub open spec fn no_sentence_end(s: Seq<char>) -> bool {
    forall|i: int| 0 <= i < s.len() ==> #[trigger] s[i] != '.' && s[i] != '!' && s[i] != '?'
}

proof fn lemma_no_stop_rest(s: Seq<char>)
    requires
        s.len() > 0,
        no_sentence_end(s),
    ensures
        no_sentence_end(s.drop_first()),
        s[0] != '.' && s[0] != '!' && s[0] != '?',
{
    assert forall|i: int| 0 <= i < s.drop_first().len() implies #[trigger] s.drop_first()[i]
        != '.' && s.drop_first()[i] != '!' && s.drop_first()[i] != '?' by {
        assert(s.drop_first()[i] == s[i + 1]);
    }
}

proof fn lemma_capitalize_no_stop(s: Seq<char>)
    requires
        no_sentence_end(s),
    ensures
        capitalize_from(s, false) == s,
        capitalize_ascii_from(s, false) == s,
    decreases s.len(),
{
    if s.len() > 0 {
        lemma_no_stop_rest(s);
        lemma_capitalize_no_stop(s.drop_first());
        assert(seq![s[0]] + s.drop_first() =~= s);
    }
}

proof fn lemma_capitalize_first_letter(s: Seq<char>, k: int)
    requires
        no_sentence_end(s),
        0 <= k < s.len(),
        alphabetic(s[k]),
        forall|i: int| 0 <= i < k ==> !alphabetic(#[trigger] s[i]),
    ensures
        capitalize_from(s, true) == s.take(k) + uppercase_of(s[k]) + s.skip(k + 1),
    decreases k,
{
    lemma_no_stop_rest(s);
    if k == 0 {
        lemma_capitalize_no_stop(s.drop_first());
        assert(s.skip(1) =~= s.drop_first());
        assert(s.take(0) + uppercase_of(s[0]) =~= uppercase_of(s[0]));
    } else {
        let t = s.drop_first();
        assert forall|i: int| 0 <= i < k - 1 implies !alphabetic(#[trigger] t[i]) by {
            assert(t[i] == s[i + 1]);
            assert(!alphabetic(s[i + 1]));
        }
        assert(!alphabetic(s[0]));
        assert(t[k - 1] == s[k]);
        lemma_capitalize_first_letter(t, k - 1);
        assert(t.skip(k) =~= s.skip(k + 1));
        assert(seq![s[0]] + (t.take(k - 1) + uppercase_of(s[k]) + s.skip(k + 1)) =~= s.take(k)
            + uppercase_of(s[k]) + s.skip(k + 1));
    }
}

proof fn lemma_capitalize_first_ascii_letter(s: Seq<char>, k: int)
    requires
        no_sentence_end(s),
        0 <= k < s.len(),
        ascii_letter(s[k]),
        forall|i: int| 0 <= i < k ==> !ascii_letter(#[trigger] s[i]),
    ensures
        capitalize_ascii_from(s, true) == s.take(k).push(ascii_upper(s[k])) + s.skip(k + 1),
    decreases k,
{
    lemma_no_stop_rest(s);
    if k == 0 {
        lemma_capitalize_no_stop(s.drop_first());
        assert(s.skip(1) =~= s.drop_first());
        assert(s.take(0).push(ascii_upper(s[0])) =~= seq![ascii_upper(s[0])]);
    } else {
        let t = s.drop_first();
        assert forall|i: int| 0 <= i < k - 1 implies !ascii_letter(#[trigger] t[i]) by {
            assert(t[i] == s[i + 1]);
            assert(!ascii_letter(s[i + 1]));
        }
        assert(!ascii_letter(s[0]));
        assert(t[k - 1] == s[k]);
        lemma_capitalize_first_ascii_letter(t, k - 1);
        assert(t.skip(k) =~= s.skip(k + 1));
        assert(seq![s[0]] + (t.take(k - 1).push(ascii_upper(s[k])) + s.skip(k + 1)) =~= s.take(
            k,
        ).push(ascii_upper(s[k])) + s.skip(k + 1));
    }
}

/// What capitalizing sentences changes: only the first letter of the text
/// and the first letter after each `.`, `!` or `?`.
/// - A stretch without `.`, `!` or `?`, met when no capital is due, is left
///   exactly as it is: a letter after a comma keeps its case.
/// - After `.`, `!` or `?` a capital is due again.
/// - With no sentence end in the text, the first letter is replaced by its
///   uppercase and every other character is kept.
/// The same holds of the ASCII statement, where the uppercase of `a`..`z`
/// is `A`..`Z`.
pub proof fn law_capitalize_sentences(s: Seq<char>, t: Seq<char>, c: char, k: int)
    ensures
        no_sentence_end(s) ==> capitalize_from(s, false) == s,
        no_sentence_end(s) ==> capitalize_ascii_from(s, false) == s,
        (c == '.' || c == '!' || c == '?') ==> capitalize_from(seq![c] + t, false) == seq![c]
            + capitalize_from(t, true),
        (c == '.' || c == '!' || c == '?') ==> capitalize_ascii_from(seq![c] + t, false)
            == seq![c] + capitalize_ascii_from(t, true),
        no_sentence_end(s) && 0 <= k < s.len() && alphabetic(s[k]) && (forall|i: int|
            0 <= i < k ==> !alphabetic(#[trigger] s[i])) ==> capitalize_from(s, true) == s.take(k)
            + uppercase_of(s[k]) + s.skip(k + 1),
        no_sentence_end(s) && 0 <= k < s.len() && ascii_letter(s[k]) && (forall|i: int|
            0 <= i < k ==> !ascii_letter(#[trigger] s[i])) ==> capitalize_ascii_from(s, true)
            == s.take(k).push(ascii_upper(s[k])) + s.skip(k + 1),
{
    if no_sentence_end(s) {
        lemma_capitalize_no_stop(s);
        if 0 <= k < s.len() && alphabetic(s[k]) && (forall|i: int|
            0 <= i < k ==> !alphabetic(#[trigger] s[i])) {
            lemma_capitalize_first_letter(s, k);
        }
        if 0 <= k < s.len() && ascii_letter(s[k]) && (forall|i: int|
            0 <= i < k ==> !ascii_letter(#[trigger] s[i])) {
            lemma_capitalize_first_ascii_letter(s, k);
        }
    }
    let u = seq![c] + t;
    assert(u[0] == c);
    assert(u.drop_first() =~= t);
}

/// The pipeline runs its rules in order: applying a list of rules gives what
/// applying its first part, then the rest to that result, gives.
pub proof fn law_rules_in_sequence(
    s: Seq<char>,
    first: Seq<PostProcessingRule>,
    rest: Seq<PostProcessingRule>,
)
    ensures
        rules_result(s, first + rest) == rules_result(rules_result(s, first), rest),
    decreases first.len(),
{
    if first.len() == 0 {
        assert(first + rest =~= rest);
    } else {
        let next = if first[0].enabled {
            rule_result(s, first[0].rule_type)
        } else {
            s
        };
        law_rules_in_sequence(next, first.drop_first(), rest);
        assert((first + rest)[0] == first[0]);
        assert((first + rest).drop_first() =~= first.drop_first() + rest);
    }
}

/// With every rule switched off, the pipeline leaves the text as it is.
pub proof fn law_all_disabled_is_identity(s: Seq<char>, rules: Seq<PostProcessingRule>)
    requires
        forall|i: int| 0 <= i < rules.len() ==> !(#[trigger] rules[i]).enabled,
    ensures
        rules_result(s, rules) == s,
    decreases rules.len(),
{
    if rules.len() > 0 {
        assert(!rules[0].enabled);
        let t = rules.drop_first();
        assert forall|i: int| 0 <= i < t.len() implies !(#[trigger] t[i]).enabled by {
            assert(t[i] == rules[i + 1]);
        }
        law_all_disabled_is_identity(s, t);
    }
}

proof fn lemma_trim_start_no_leading(s: Seq<char>)
    ensures
        trim_start_ws(s).len() == 0 || !is_ws(trim_start_ws(s)[0]),
    decreases s.len(),
{
    if s.len() > 0 && is_ws(s[0]) {
        lemma_trim_start_no_leading(s.drop_first());
    }
}

proof fn lemma_trim_end_prefix(s: Seq<char>)
    ensures
        trim_end_ws(s).len() <= s.len(),
        forall|k: int| 0 <= k < trim_end_ws(s).len() ==> #[trigger] trim_end_ws(s)[k] == s[k],
        trim_end_ws(s).len() == 0 || !is_ws(trim_end_ws(s).last()),
    decreases s.len(),
{
    if s.len() > 0 && is_ws(s.last()) {
        lemma_trim_end_prefix(s.drop_last());
    }
}

/// Trimming twice gives what trimming once gives, and a trimmed text neither
/// starts nor ends with white space.
pub proof fn law_trim_idempotent(s: Seq<char>)
    ensures
        trim_ws(trim_ws(s)) == trim_ws(s),
        trim_ws(s).len() == 0 || (!is_ws(trim_ws(s)[0]) && !is_ws(trim_ws(s).last())),
{
    let a = trim_start_ws(s);
    let t = trim_end_ws(a);
    lemma_trim_start_no_leading(s);
    lemma_trim_end_prefix(a);
    if t.len() > 0 {
        assert(t[0] == a[0]);
        assert(trim_start_ws(t) == t);
    } else {
        assert(trim_start_ws(t) == t);
    }
    assert(trim_end_ws(t) == t);
}

/// Collapsing spaces twice gives what collapsing once gives.
pub proof fn law_collapse_idempotent(s: Seq<char>, prev_space: bool)
    ensures
        collapse_from(collapse_from(s, prev_space), prev_space) == collapse_from(s, prev_space),
    decreases s.len(),
{
    if s.len() > 0 {
        let rest = s.drop_first();
        if s[0] == ' ' {
            law_collapse_idempotent(rest, true);
            if !prev_space {
                let c = seq![' '] + collapse_from(rest, true);
                assert(c[0] == ' ');
                assert(c.drop_first() =~= collapse_from(rest, true));
            }
        } else {
            law_collapse_idempotent(rest, false);
            let c = seq![s[0]] + collapse_from(rest, false);
            assert(c[0] == s[0]);
            assert(c.drop_first() =~= collapse_from(rest, false));
        }
    }
}

/// No two spaces stand next to each other once spaces are collapsed.
pub proof fn law_collapse_no_double_space(s: Seq<char>, prev_space: bool)
    ensures
        forall|i: int|
            0 <= i < collapse_from(s, prev_space).len() - 1 ==> !(#[trigger] collapse_from(
                s,
                prev_space,
            )[i] == ' ' && collapse_from(s, prev_space)[i + 1] == ' '),
        prev_space ==> collapse_from(s, prev_space).len() == 0 || collapse_from(s, prev_space)[0]
            != ' ',
    decreases s.len(),
{
    if s.len() > 0 {
        let rest = s.drop_first();
        if s[0] == ' ' {
            law_collapse_no_double_space(rest, true);
            let c = collapse_from(rest, true);
            if !prev_space {
                let r = seq![' '] + c;
                assert forall|i: int| 0 <= i < r.len() - 1 implies !(#[trigger] r[i] == ' ' && r[i
                    + 1] == ' ') by {
                    if i > 0 {
                        assert(r[i] == c[i - 1]);
                        assert(r[i + 1] == c[i]);
                    } else {
                        assert(r[1] == c[0]);
                    }
                }
            }
        } else {
            law_collapse_no_double_space(rest, false);
            let c = collapse_from(rest, false);
            let r = seq![s[0]] + c;
            assert forall|i: int| 0 <= i < r.len() - 1 implies !(#[trigger] r[i] == ' ' && r[i + 1]
                == ' ') by {
                if i > 0 {
                    assert(r[i] == c[i - 1]);
                    assert(r[i + 1] == c[i]);
                } else {
                    assert(r[0] == s[0]);
                }
            }
        }
    }
}

/// Dropping leading punctuation twice gives what dropping it once gives, and
/// what remains does not start with ASCII punctuation or a space.
pub proof fn law_leading_punctuation_gone(s: Seq<char>)
    ensures
        drop_leading_junk(drop_leading_junk(s)) == drop_leading_junk(s),
        drop_leading_junk(s).len() == 0 || !leading_junk(drop_leading_junk(s)[0]),
    decreases s.len(),
{
    if s.len() > 0 && leading_junk(s[0]) {
        law_leading_punctuation_gone(s.drop_first());
    }
}

/// Adding punctuation twice gives what adding it once gives.
pub proof fn law_add_period_idempotent(s: Seq<char>)
    ensures
        add_period(add_period(s)) == add_period(s),
{
    let t = trim_end_ws(s);
    if t.len() > 0 && !ends_clause(t.last()) {
        let r = t.push('.');
        assert(r.last() == '.');
        assert(trim_end_ws(r) == r);
    }
}

/// The formatting rule for code leaves the text as it is.
pub proof fn law_code_formatting_is_identity(s: Seq<char>)
    ensures
        rule_result(s, RuleType::CodeFormatting) == s,
{
}

} // verus!
