//! The features of one line of text: counts of character classes, of words
//! and of emoticons, and flags on how the line starts and ends.

use crate::features::chars::{
    as_count, char_is_letter, char_is_space, count_class, count_in_class, count_to_i64,
    is_code_char, is_letter, is_punctuation, is_space, to_chars, CharClass,
};
use crate::features::stopwords::StopwordSet;
use vstd::prelude::*;

verus! {

/// Position `i` of `s` is the first character of a run of white space.
pub open spec fn starts_space_run(s: Seq<char>, i: int) -> bool {
    0 <= i < s.len() && is_space(s[i]) && (i == 0 || !is_space(s[i - 1]))
}

/// The number of runs of white space that start among the first `n`
/// characters of `s`.
pub open spec fn space_runs(s: Seq<char>, n: int) -> nat
    decreases n,
{
    if n <= 0 {
        0
    } else {
        space_runs(s, n - 1) + if starts_space_run(s, n - 1) {
            1nat
        } else {
            0nat
        }
    }
}

/// The word count of a text: its runs of white space, plus one. The empty
/// text therefore counts one word.
pub open spec fn words_count_of(s: Seq<char>) -> nat {
    space_runs(s, s.len() as int) + 1
}

/// The emoticon vocabulary: `:-)`, `;-)`, `:)`, `;)`, `:-(` and `:(`.
pub open spec fn is_emoticon(w: Seq<char>) -> bool {
    ||| w.len() == 2 && (w[0] == ':' || w[0] == ';') && w[1] == ')'
    ||| w.len() == 2 && w[0] == ':' && w[1] == '('
    ||| w.len() == 3 && (w[0] == ':' || w[0] == ';') && w[1] == '-' && w[2] == ')'
    ||| w.len() == 3 && w[0] == ':' && w[1] == '-' && w[2] == '('
}

/// The length of the emoticon that starts at position `i` of `s`, the longer
/// one first; 0 where none starts.
pub open spec fn emoticon_len_at(s: Seq<char>, i: int) -> int {
    if 0 <= i && i + 3 <= s.len() && is_emoticon(s.subrange(i, i + 3)) {
        3
    } else if 0 <= i && i + 2 <= s.len() && is_emoticon(s.subrange(i, i + 2)) {
        2
    } else {
        0
    }
}

/// The number of emoticons found from position `i` of `s` on, reading left to
/// right and going on behind each one found, so that no two overlap.
pub open spec fn emoticons_from(s: Seq<char>, i: int) -> nat
    decreases s.len() - i,
{
    if i < 0 || i >= s.len() {
        0
    } else if emoticon_len_at(s, i) > 0 {
        1 + emoticons_from(s, i + emoticon_len_at(s, i))
    } else {
        emoticons_from(s, i + 1)
    }
}

/// The text ends with an emoticon.
pub open spec fn ends_with_emoticon(s: Seq<char>) -> bool {
    ||| s.len() >= 2 && is_emoticon(s.subrange(s.len() - 2, s.len() as int))
    ||| s.len() >= 3 && is_emoticon(s.subrange(s.len() - 3, s.len() as int))
}

/// The text ends with `)`, `{` or `;`, and that character does not close an
/// emoticon.
pub open spec fn ends_with_code_char_of(s: Seq<char>) -> bool {
    s.len() > 0 && is_code_char(s.last()) && !ends_with_emoticon(s)
}

/// The text ends with `.`, `!`, `?`, `:` or `,`.
pub open spec fn ends_with_punctuation_of(s: Seq<char>) -> bool {
    s.len() > 0 && is_punctuation(s.last())
}

/// The first `k` characters of `s` are all white space.
pub open spec fn all_space(s: Seq<char>, k: int) -> bool {
    forall|i: int| 0 <= i < k ==> is_space(#[trigger] s[i])
}

/// Three ASCII letters stand at positions `k`, `k + 1` and `k + 2` of `s`.
pub open spec fn three_letters_at(s: Seq<char>, k: int) -> bool {
    0 <= k && k + 3 <= s.len() && is_letter(s[k]) && is_letter(s[k + 1]) && is_letter(s[k + 2])
}

/// Behind its leading white space, the text begins with three ASCII letters
/// in a row.
pub open spec fn starts_with_three_letters_of(s: Seq<char>) -> bool {
    exists|k: int| #[trigger] all_space(s, k) && three_letters_at(s, k)
}

/// The first character of the text is `@`.
pub open spec fn starts_with_at_of(s: Seq<char>) -> bool {
    s.len() > 0 && s[0] == '@'
}

/// The number of tokens that are members of `words`.
pub open spec fn count_members(tokens: Seq<Seq<char>>, words: Set<Seq<char>>) -> nat
    decreases tokens.len(),
{
    if tokens.len() == 0 {
        0
    } else {
        count_members(tokens.drop_last(), words) + if words.contains(tokens.last()) {
            1nat
        } else {
            0nat
        }
    }
}

/// The length of the text in characters.
pub fn text_length(s: &str) -> (n: i64)
    ensures
        n == as_count(s@.len()),
{
    let cs = to_chars(s);
    count_to_i64(cs.len())
}

/// The number of tokens that the stopword set holds.
pub fn stopwords_count(tokens: Vec<String>, stopwords: &StopwordSet) -> (n: i64)
    ensures
        n == as_count(count_members(tokens.deep_view(), stopwords@)),
        0 <= n <= tokens.len(),
{
    let mut found: usize = 0;
    let mut i: usize = 0;
    while i < tokens.len()
        invariant
            i <= tokens.len(),
            found <= i,
            found == count_members(tokens.deep_view().take(i as int), stopwords@),
        decreases tokens.len() - i,
    {
        proof {
            assert(tokens.deep_view().take(i + 1).drop_last() =~= tokens.deep_view().take(
                i as int,
            ));
            assert(tokens.deep_view().take(i + 1).last() == tokens[i as int]@);
        }
        if stopwords.contains(tokens[i].as_str()) {
            found = found + 1;
        }
        i = i + 1;
    }
    proof {
        assert(tokens.deep_view().take(i as int) =~= tokens.deep_view());
    }
    count_to_i64(found)
}

/// The number of upper-case ASCII letters.
pub fn caps_count(s: &str) -> (n: i64)
    ensures
        n == as_count(count_in_class(s@, CharClass::Capital)),
        0 <= n <= s@.len(),
{
    let cs = to_chars(s);
    count_to_i64(count_class(&cs, CharClass::Capital))
}

/// The number of characters that are neither ASCII letters, nor ASCII digits,
/// nor white space.
pub fn special_chars_count(s: &str) -> (n: i64)
    ensures
        n == as_count(count_in_class(s@, CharClass::Special)),
        0 <= n <= s@.len(),
{
    let cs = to_chars(s);
    count_to_i64(count_class(&cs, CharClass::Special))
}

/// The number of ASCII digits.
pub fn numbers_count(s: &str) -> (n: i64)
    ensures
        n == as_count(count_in_class(s@, CharClass::Digit)),
        0 <= n <= s@.len(),
{
    let cs = to_chars(s);
    count_to_i64(count_class(&cs, CharClass::Digit))
}

/// The number of words, taken as the number of runs of white space plus one.
pub fn words_count(s: &str) -> (n: i64)
    ensures
        n == as_count(words_count_of(s@)),
        1 <= n <= s@.len() + 1,
{
    let cs = to_chars(s);
    let mut runs: usize = 0;
    let mut in_run = false;
    let mut i: usize = 0;
    while i < cs.len()
        invariant
            i <= cs.len(),
            runs == space_runs(cs@, i as int),
            in_run == (i > 0 && is_space(cs@[i - 1])),
            2 * runs <= i + 1,
            !in_run ==> 2 * runs <= i,
        decreases cs.len() - i,
    {
        let space = char_is_space(cs[i]);
        if space && !in_run {
            runs = runs + 1;
        }
        in_run = space;
        i = i + 1;
    }
    count_to_i64(runs + 1)
}

/// The length of the emoticon that starts at position `i`, or 0.
pub fn emoticon_len(cs: &Vec<char>, i: usize) -> (k: usize)
    ensures
        k == emoticon_len_at(cs@, i as int),
        k == 0 || k == 2 || k == 3,
        k > 0 ==> i + k <= cs.len(),
{
    let n = cs.len();
    if i >= n || n - i < 2 {
        return 0;
    }
    let first = cs[i];
    let second = cs[i + 1];
    proof {
        let two = cs@.subrange(i as int, i + 2);
        assert(two.len() == 2 && two[0] == first && two[1] == second);
        if i + 3 <= n {
            let three = cs@.subrange(i as int, i + 3);
            assert(three.len() == 3 && three[0] == first && three[1] == second && three[2]
                == cs@[i + 2]);
        }
    }
    if first != ':' && first != ';' {
        return 0;
    }
    if second == ')' || (first == ':' && second == '(') {
        return 2;
    }
    if second == '-' && n - i >= 3 {
        let third = cs[i + 2];
        if third == ')' || (first == ':' && third == '(') {
            return 3;
        }
    }
    0
}

/// The number of emoticons, none overlapping another, found from the left.
pub fn emoticons_count(s: &str) -> (n: i64)
    ensures
        n == as_count(emoticons_from(s@, 0)),
        0 <= n <= s@.len(),
{
    let cs = to_chars(s);
    let mut found: usize = 0;
    let mut i: usize = 0;
    while i < cs.len()
        invariant
            i <= cs.len(),
            found <= i,
            found + emoticons_from(cs@, i as int) == emoticons_from(cs@, 0),
        decreases cs.len() - i,
    {
        let k = emoticon_len(&cs, i);
        if k > 0 {
            found = found + 1;
            i = i + k;
        } else {
            i = i + 1;
        }
    }
    count_to_i64(found)
}

/// Tells whether the characters end with an emoticon.
pub fn chars_end_with_emoticon(cs: &Vec<char>) -> (b: bool)
    ensures
        b == ends_with_emoticon(cs@),
{
    let n = cs.len();
    if n < 2 {
        return false;
    }
    if emoticon_len(cs, n - 2) == 2 {
        return true;
    }
    n >= 3 && emoticon_len(cs, n - 3) == 3
}

/// Tells whether the text ends with `)`, `{` or `;` outside an emoticon.
pub fn ends_with_code_char(s: &str) -> (b: bool)
    ensures
        b == ends_with_code_char_of(s@),
{
    let cs = to_chars(s);
    let n = cs.len();
    if n == 0 {
        return false;
    }
    let last = cs[n - 1];
    (last == ')' || last == '{' || last == ';') && !chars_end_with_emoticon(&cs)
}

/// Tells whether the text ends with `.`, `!`, `?`, `:` or `,`.
pub fn ends_with_punctuation(s: &str) -> (b: bool)
    ensures
        b == ends_with_punctuation_of(s@),
{
    let cs = to_chars(s);
    let n = cs.len();
    if n == 0 {
        return false;
    }
    let last = cs[n - 1];
    last == '.' || last == '!' || last == '?' || last == ':' || last == ','
}

/// Tells whether the text, behind its leading white space, begins with three
/// ASCII letters in a row.
pub fn starts_with_three_letters(s: &str) -> (b: bool)
    ensures
        b == starts_with_three_letters_of(s@),
{
    let cs = to_chars(s);
    let n = cs.len();
    let mut k: usize = 0;
    while k < n && char_is_space(cs[k])
        invariant
            n == cs.len(),
            k <= n,
            all_space(cs@, k as int),
        decreases n - k,
    {
        k = k + 1;
    }
    let b = n - k >= 3 && char_is_letter(cs[k]) && char_is_letter(cs[k + 1]) && char_is_letter(
        cs[k + 2],
    );
    proof {
        if b {
            assert(all_space(cs@, k as int) && three_letters_at(cs@, k as int));
        } else {
            assert forall|j: int| !(#[trigger] all_space(cs@, j) && three_letters_at(cs@, j)) by {
                if all_space(cs@, j) && three_letters_at(cs@, j) {
                    if j < k {
                        assert(is_space(cs@[j]));
                    } else if j > k {
                        assert(is_space(cs@[k as int]));
                    }
                }
            }
        }
    }
    b
}

/// Tells whether the first character of the text is `@`.
pub fn starts_with_at(s: &str) -> (b: bool)
    ensures
        b == starts_with_at_of(s@),
{
    let cs = to_chars(s);
    cs.len() > 0 && cs[0] == '@'
}

/// A text that ends with a code character does not end with punctuation, and
/// one that ends with punctuation does not end with a code character.
pub proof fn lemma_code_char_excludes_punctuation(s: Seq<char>)
    ensures
        !(ends_with_code_char_of(s) && ends_with_punctuation_of(s)),
{
}

} // verus!
