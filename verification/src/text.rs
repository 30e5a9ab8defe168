//! Character-level text primitives shared by the post-processing rules,
//! the dictionary and the history: conversions between strings and
//! character sequences, Unicode white space, ASCII punctuation, trimming
//! and word counting.
use vstd::prelude::*;
use vstd::std_specs::iter::IteratorSpec;

verus! {

// ---------------------------------------------------------------------
// Calls into std that vstd does not specify.
// ---------------------------------------------------------------------

/// `String::push`: appends one character at the end of the string.
/// The contract states exactly what the documentation says of it.
#[verifier::external_body]
pub(crate) fn push_char(s: &mut String, c: char)
    ensures
        final(s)@ == old(s)@.push(c),
{
    s.push(c);
}

/// The uppercase mapping of a character, as `char::to_uppercase` yields it.
/// It is given by the Unicode tables, so it is only named here.
pub uninterp spec fn uppercase_of(c: char) -> Seq<char>;

/// `char::to_uppercase`, collected. The result is named `uppercase_of(c)`;
/// the documentation promises one or more characters, and that much is
/// stated as well, with the ASCII part of the mapping: `a`..`z` become
/// `A`..`Z`, and any other ASCII character has no uppercase mapping, so it
/// is yielded unchanged. Beyond ASCII, which characters come out is left to
/// the name.
#[verifier::external_body]
pub(crate) fn char_to_uppercase(c: char) -> (r: Vec<char>)
    ensures
        r@ == uppercase_of(c),
        r@.len() >= 1,
        'a' <= c <= 'z' ==> r@ == seq![((c as u32) - 32) as char],
        (c as u32) < 128 && !('a' <= c <= 'z') ==> r@ == seq![c],
{
    c.to_uppercase().collect()
}

/// Whether a character has the Unicode `Alphabetic` property, as
/// `char::is_alphabetic` decides it from the Unicode tables.
pub uninterp spec fn alphabetic(c: char) -> bool;

/// `char::is_alphabetic`. The result is named `alphabetic(c)`; of the
/// property's table only the ASCII part is stated: the ASCII letters are
/// alphabetic, and no other ASCII character is.
#[verifier::external_body]
pub(crate) fn char_is_alphabetic(c: char) -> (r: bool)
    ensures
        r == alphabetic(c),
        (c as u32) < 128 ==> (r <==> ('a' <= c <= 'z' || 'A' <= c <= 'Z')),
{
    c.is_alphabetic()
}

// ---------------------------------------------------------------------
// Conversions
// ---------------------------------------------------------------------

/// The characters of a string, in order.
pub fn chars_of(s: &str) -> (r: Vec<char>)
    ensures
        r@ == s@,
{
    broadcast use vstd::string::group_string_axioms;

    let mut out: Vec<char> = Vec::new();
    for c in iter: s.chars()
        invariant
            out@ == iter.seq().take(iter.index() as int),
            iter.seq() == s@,
    {
        out.push(c);
    }
    out
}

/// Appends a run of characters to a string.
pub fn push_chars(s: &mut String, cs: &[char])
    ensures
        final(s)@ == old(s)@ + cs@,
{
    let n = cs.len();
    let mut i: usize = 0;
    while i < n
        invariant
            n == cs@.len(),
            i <= n,
            s@ == old(s)@ + cs@.take(i as int),
        decreases n - i,
    {
        push_char(s, cs[i]);
        assert(cs@.take(i as int).push(cs@[i as int]) =~= cs@.take(i + 1));
        i = i + 1;
    }
    assert(cs@.take(n as int) =~= cs@);
}

/// The string made of the given characters.
pub fn string_of(cs: &[char]) -> (r: String)
    ensures
        r@ == cs@,
{
    let mut s = String::new();
    push_chars(&mut s, cs);
    s
}

/// Appends the characters `cs[from..to]` to a string.
pub fn push_range(s: &mut String, cs: &[char], from: usize, to: usize)
    requires
        from <= to <= cs@.len(),
    ensures
        final(s)@ == old(s)@ + cs@.subrange(from as int, to as int),
{
    let mut i: usize = from;
    while i < to
        invariant
            from <= i <= to <= cs@.len(),
            s@ == old(s)@ + cs@.subrange(from as int, i as int),
        decreases to - i,
    {
        push_char(s, cs[i]);
        assert(cs@.subrange(from as int, i as int).push(cs@[i as int]) =~= cs@.subrange(
            from as int,
            i + 1,
        ));
        i = i + 1;
    }
}

/// The string made of the characters `cs[from..to]`.
pub fn string_of_range(cs: &[char], from: usize, to: usize) -> (r: String)
    requires
        from <= to <= cs@.len(),
    ensures
        r@ == cs@.subrange(from as int, to as int),
{
    let mut s = String::new();
    push_range(&mut s, cs, from, to);
    s
}

/// Whether two strings hold the same characters.
pub fn str_equal(a: &str, b: &str) -> (r: bool)
    ensures
        r == (a@ == b@),
{
    let x = String::from_str(a);
    let y = String::from_str(b);
    x == y
}

// ---------------------------------------------------------------------
// Character classes
// ---------------------------------------------------------------------

/// The Unicode `White_Space` property, which `char::is_whitespace`,
/// `str::trim` and `str::split_whitespace` go by.
pub open spec fn is_ws(c: char) -> bool {
    let u = c as u32;
    ||| 0x09 <= u <= 0x0D
    ||| u == 0x20
    ||| u == 0x85
    ||| u == 0xA0
    ||| u == 0x1680
    ||| 0x2000 <= u <= 0x200A
    ||| u == 0x2028
    ||| u == 0x2029
    ||| u == 0x202F
    ||| u == 0x205F
    ||| u == 0x3000
}

/// Decides `is_ws`.
pub fn is_whitespace(c: char) -> (r: bool)
    ensures
        r == is_ws(c),
{
    let u = c as u32;
    (0x09 <= u && u <= 0x0D) || u == 0x20 || u == 0x85 || u == 0xA0 || u == 0x1680 || (0x2000
        <= u && u <= 0x200A) || u == 0x2028 || u == 0x2029 || u == 0x202F || u == 0x205F || u
        == 0x3000
}

/// ASCII punctuation, as `char::is_ascii_punctuation` defines it:
/// `! " # $ % & ' ( ) * + , - . /`, `: ; < = > ? @`, `[ \ ] ^ _ backquote`
/// and `{ | } ~`.
pub open spec fn is_ascii_punct(c: char) -> bool {
    let u = c as u32;
    ||| 0x21 <= u <= 0x2F
    ||| 0x3A <= u <= 0x40
    ||| 0x5B <= u <= 0x60
    ||| 0x7B <= u <= 0x7E
}

/// Decides `is_ascii_punct`.
pub fn is_ascii_punctuation(c: char) -> (r: bool)
    ensures
        r == is_ascii_punct(c),
{
    let u = c as u32;
    (0x21 <= u && u <= 0x2F) || (0x3A <= u && u <= 0x40) || (0x5B <= u && u <= 0x60) || (0x7B
        <= u && u <= 0x7E)
}

// ---------------------------------------------------------------------
// Trimming
// ---------------------------------------------------------------------

/// `s` without its leading white space.
pub open spec fn trim_start_ws(s: Seq<char>) -> Seq<char>
    decreases s.len(),
{
    if s.len() > 0 && is_ws(s[0]) {
        trim_start_ws(s.drop_first())
    } else {
        s
    }
}

/// `s` without its trailing white space.
pub open spec fn trim_end_ws(s: Seq<char>) -> Seq<char>
    decreases s.len(),
{
    if s.len() > 0 && is_ws(s.last()) {
        trim_end_ws(s.drop_last())
    } else {
        s
    }
}

/// `s` without leading and trailing white space (`str::trim`).
pub open spec fn trim_ws(s: Seq<char>) -> Seq<char> {
    trim_end_ws(trim_start_ws(s))
}

/// Dropping a prefix of white space does not change what trimming the start gives.
pub proof fn lemma_trim_start_skip(s: Seq<char>, i: int)
    requires
        0 <= i <= s.len(),
        forall|k: int| 0 <= k < i ==> is_ws(#[trigger] s[k]),
    ensures
        trim_start_ws(s) == trim_start_ws(s.subrange(i, s.len() as int)),
    decreases i,
{
    if i > 0 {
        assert(is_ws(s[0]));
        let t = s.drop_first();
        assert forall|k: int| 0 <= k < i - 1 implies is_ws(#[trigger] t[k]) by {
            assert(t[k] == s[k + 1]);
        }
        lemma_trim_start_skip(t, i - 1);
        assert(t.subrange(i - 1, t.len() as int) =~= s.subrange(i, s.len() as int));
    } else {
        assert(s.subrange(0, s.len() as int) =~= s);
    }
}

/// Dropping a suffix of white space does not change what trimming the end gives.
pub proof fn lemma_trim_end_skip(s: Seq<char>, j: int)
    requires
        0 <= j <= s.len(),
        forall|k: int| j <= k < s.len() ==> is_ws(#[trigger] s[k]),
    ensures
        trim_end_ws(s) == trim_end_ws(s.subrange(0, j)),
    decreases s.len() - j,
{
    if j < s.len() {
        assert(is_ws(s.last()));
        let t = s.drop_last();
        lemma_trim_end_skip(t, j);
        assert(t.subrange(0, j) =~= s.subrange(0, j));
    } else {
        assert(s.subrange(0, j) =~= s);
    }
}

/// The index of the first character of `cs` that is not white space, or the
/// length when there is none.
pub fn first_non_ws(cs: &[char]) -> (i: usize)
    ensures
        i <= cs@.len(),
        forall|k: int| 0 <= k < i ==> is_ws(#[trigger] cs@[k]),
        i < cs@.len() ==> !is_ws(cs@[i as int]),
{
    let mut i: usize = 0;
    while i < cs.len() && is_whitespace(cs[i])
        invariant
            i <= cs@.len(),
            forall|k: int| 0 <= k < i ==> is_ws(#[trigger] cs@[k]),
        decreases cs@.len() - i,
    {
        i = i + 1;
    }
    i
}

/// The end of `cs` once trailing white space is dropped, not going below `from`.
pub fn last_non_ws_end(cs: &[char], from: usize) -> (j: usize)
    requires
        from <= cs@.len(),
    ensures
        from <= j <= cs@.len(),
        forall|k: int| j <= k < cs@.len() ==> is_ws(#[trigger] cs@[k]),
        j > from ==> !is_ws(cs@[j - 1]),
{
    let mut j: usize = cs.len();
    while j > from && is_whitespace(cs[j - 1])
        invariant
            from <= j <= cs@.len(),
            forall|k: int| j <= k < cs@.len() ==> is_ws(#[trigger] cs@[k]),
        decreases j,
    {
        j = j - 1;
    }
    j
}

/// `str::trim`, on a run of characters.
pub fn trim_chars(cs: &[char]) -> (r: String)
    ensures
        r@ == trim_ws(cs@),
{
    let i = first_non_ws(cs);
    let j = last_non_ws_end(cs, i);
    proof {
        lemma_trim_start_skip(cs@, i as int);
        let t = cs@.subrange(i as int, cs@.len() as int);
        if i < cs@.len() {
            assert(trim_start_ws(t) == t);
        } else {
            assert(t.len() == 0);
        }
        assert forall|k: int| j - i <= k < t.len() implies is_ws(#[trigger] t[k]) by {
            assert(t[k] == cs@[i + k]);
        }
        lemma_trim_end_skip(t, j - i);
        let u = t.subrange(0, j - i);
        assert(u =~= cs@.subrange(i as int, j as int));
        if j > i {
            assert(u.last() == cs@[j - 1]);
        }
        assert(trim_end_ws(u) == u);
    }
    string_of_range(cs, i, j)
}

// ---------------------------------------------------------------------
// Words
// ---------------------------------------------------------------------

/// The number of maximal runs of non-white-space characters in `s`, given
/// whether the character before `s` was part of a word.
pub open spec fn words_from(s: Seq<char>, in_word: bool) -> nat
    decreases s.len(),
{
    if s.len() == 0 {
        0
    } else if is_ws(s[0]) {
        words_from(s.drop_first(), false)
    } else {
        (if in_word {
            0nat
        } else {
            1nat
        }) + words_from(s.drop_first(), true)
    }
}

/// The number of words of `s`, as `str::split_whitespace` counts them.
pub open spec fn word_count(s: Seq<char>) -> nat {
    words_from(s, false)
}

/// The number of white-space separated words of a text.
pub fn count_words(text: &str) -> (n: usize)
    ensures
        n == word_count(text@),
{
    let cs = chars_of(text);
    let len = cs.len();
    let mut i: usize = 0;
    let mut n: usize = 0;
    let mut in_word = false;
    assert(cs@.subrange(0, len as int) =~= text@);
    while i < len
        invariant
            len == cs@.len(),
            cs@ == text@,
            i <= len,
            n + words_from(cs@.subrange(i as int, len as int), in_word) == word_count(text@),
            n <= i,
        decreases len - i,
    {
        let rest = Ghost(cs@.subrange(i as int, len as int));
        assert(rest@.drop_first() =~= cs@.subrange(i + 1, len as int));
        if is_whitespace(cs[i]) {
            in_word = false;
        } else {
            if !in_word {
                n = n + 1;
            }
            in_word = true;
        }
        i = i + 1;
    }
    n
}


/// A run of characters without white space, after a word has started, adds
/// no word.
proof fn lemma_no_ws_inside_word(s: Seq<char>)
    requires
        forall|i: int| 0 <= i < s.len() ==> !is_ws(#[trigger] s[i]),
    ensures
        words_from(s, true) == 0,
    decreases s.len(),
{
    if s.len() > 0 {
        assert(!is_ws(s[0]));
        lemma_no_ws_inside_word(s.drop_first());
    }
}

/// Text, a space, then more text: the words of the two parts, counted apart.
proof fn lemma_words_split_at_space(a: Seq<char>, b: Seq<char>, in_word: bool)
    ensures
        words_from(a + seq![' '] + b, in_word) == words_from(a, in_word) + words_from(b, false),
    decreases a.len(),
{
    let all = a + seq![' '] + b;
    if a.len() == 0 {
        assert(all[0] == ' ');
        assert(all.drop_first() =~= b);
    } else {
        assert(all[0] == a[0]);
        assert(all.drop_first() =~= a.drop_first() + seq![' '] + b);
        if is_ws(a[0]) {
            lemma_words_split_at_space(a.drop_first(), b, false);
        } else {
            lemma_words_split_at_space(a.drop_first(), b, true);
        }
    }
}

/// How words are counted, as `str::split_whitespace` counts them: an empty
/// text has none; a text of white space alone has none; a non-empty text
/// without white space is one word; and two texts joined by a space have
/// the words of both, so a trailing space adds nothing.
pub proof fn law_word_count(a: Seq<char>, b: Seq<char>)
    ensures
        word_count(Seq::empty()) == 0,
        (forall|i: int| 0 <= i < a.len() ==> is_ws(#[trigger] a[i])) ==> word_count(a) == 0,
        a.len() > 0 && (forall|i: int| 0 <= i < a.len() ==> !is_ws(#[trigger] a[i]))
            ==> word_count(a) == 1,
        word_count(a + seq![' '] + b) == word_count(a) + word_count(b),
        word_count(a + seq![' ']) == word_count(a),
{
    lemma_words_split_at_space(a, b, false);
    lemma_words_split_at_space(a, Seq::empty(), false);
    assert(a + seq![' '] + Seq::<char>::empty() =~= a + seq![' ']);
    if forall|i: int| 0 <= i < a.len() ==> is_ws(#[trigger] a[i]) {
        lemma_all_ws_no_words(a, false);
    }
    if a.len() > 0 && (forall|i: int| 0 <= i < a.len() ==> !is_ws(#[trigger] a[i])) {
        assert(!is_ws(a[0]));
        let t = a.drop_first();
        assert forall|i: int| 0 <= i < t.len() implies !is_ws(#[trigger] t[i]) by {
            assert(t[i] == a[i + 1]);
        }
        lemma_no_ws_inside_word(t);
    }
}

/// White space alone holds no word.
proof fn lemma_all_ws_no_words(s: Seq<char>, in_word: bool)
    requires
        forall|i: int| 0 <= i < s.len() ==> is_ws(#[trigger] s[i]),
    ensures
        words_from(s, in_word) == 0,
    decreases s.len(),
{
    if s.len() > 0 {
        assert(is_ws(s[0]));
        let t = s.drop_first();
        assert forall|i: int| 0 <= i < t.len() implies is_ws(#[trigger] t[i]) by {
            assert(t[i] == s[i + 1]);
        }
        lemma_all_ws_no_words(t, false);
    }
}

} // verus!
