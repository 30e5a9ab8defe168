//! Whole-word, case-insensitive replacement, done with `regex_lite`.
//!
//! The dictionary and the filler-word rule both build a pattern around an
//! escaped phrase and let `regex_lite` replace every match.
use vstd::prelude::*;

verus! {

/// The characters that `regex_lite::escape` prefixes with a backslash.
pub open spec fn is_regex_meta(c: char) -> bool {
    ||| c == '\\'
    ||| c == '.'
    ||| c == '+'
    ||| c == '*'
    ||| c == '?'
    ||| c == '('
    ||| c == ')'
    ||| c == '|'
    ||| c == '['
    ||| c == ']'
    ||| c == '{'
    ||| c == '}'
    ||| c == '^'
    ||| c == '$'
    ||| c == '#'
    ||| c == '&'
    ||| c == '-'
    ||| c == '~'
}

/// `s` with a backslash before every meta character.
pub open spec fn escaped(s: Seq<char>) -> Seq<char>
    decreases s.len(),
{
    if s.len() == 0 {
        Seq::empty()
    } else {
        (if is_regex_meta(s[0]) {
            seq!['\\', s[0]]
        } else {
            seq![s[0]]
        }) + escaped(s.drop_first())
    }
}

/// `regex_lite::escape`: the source walks the characters and pushes a
/// backslash before each meta character, then the character itself.
/// The contract says exactly that.
#[verifier::external_body]
pub(crate) fn regex_escape(s: &str) -> (r: String)
    ensures
        r@ == escaped(s@),
{
    regex_lite::escape(s)
}

/// Whether `regex_lite::Regex::new` accepts a pattern.
pub uninterp spec fn regex_compiles(pattern: Seq<char>) -> bool;

/// What `Regex::replace_all` gives for a pattern, a haystack and a replacement
/// (with `$` group references expanded in the replacement).
pub uninterp spec fn regex_replaced(
    pattern: Seq<char>,
    haystack: Seq<char>,
    replacement: Seq<char>,
) -> Seq<char>;

/// `regex_lite::Regex::new` followed, when it succeeds, by
/// `Regex::replace_all`. Both results depend on the arguments alone, so they
/// are named: `None` exactly when the pattern does not compile, otherwise the
/// replaced text. The regex language itself is not stated.
#[verifier::external_body]
pub(crate) fn regex_replace_all(pattern: &str, haystack: &str, replacement: &str) -> (r: Option<String>)
    ensures
        r is Some <==> regex_compiles(pattern@),
        r matches Some(out) ==> out@ == regex_replaced(pattern@, haystack@, replacement@),
{
    match regex_lite::Regex::new(pattern) {
        Ok(re) => Some(re.replace_all(haystack, replacement).into_owned()),
        Err(_) => None,
    }
}

/// The pattern that matches `phrase` as a whole word, in any case.
pub open spec fn word_pattern(phrase: Seq<char>) -> Seq<char> {
    "(?i)\\b"@ + escaped(phrase) + "\\b"@
}

/// The pattern that matches `phrase` as a whole word, in any case, with an
/// optional comma and the white space after it.
pub open spec fn filler_pattern(phrase: Seq<char>) -> Seq<char> {
    "(?i)\\b"@ + escaped(phrase) + "\\b,?\\s*"@
}

/// One replacement pass: every match of `pattern` in `text` becomes
/// `replacement`; a pattern that does not compile leaves `text` as it is.
pub open spec fn replace_pass(pattern: Seq<char>, text: Seq<char>, replacement: Seq<char>) -> Seq<
    char,
> {
    if regex_compiles(pattern) {
        regex_replaced(pattern, text, replacement)
    } else {
        text
    }
}

/// Builds `word_pattern(phrase)`.
pub fn build_word_pattern(phrase: &str) -> (r: String)
    ensures
        r@ == word_pattern(phrase@),
{
    let mut p = String::from_str("(?i)\\b");
    let e = regex_escape(phrase);
    p.append(e.as_str());
    p.append("\\b");
    p
}

/// Builds `filler_pattern(phrase)`.
pub fn build_filler_pattern(phrase: &str) -> (r: String)
    ensures
        r@ == filler_pattern(phrase@),
{
    let mut p = String::from_str("(?i)\\b");
    let e = regex_escape(phrase);
    p.append(e.as_str());
    p.append("\\b,?\\s*");
    p
}

/// Runs one replacement pass.
pub fn run_replace_pass(pattern: &str, text: String, replacement: &str) -> (r: String)
    ensures
        r@ == replace_pass(pattern@, text@, replacement@),
{
    match regex_replace_all(pattern, text.as_str(), replacement) {
        Some(out) => out,
        None => text,
    }
}

} // verus!
