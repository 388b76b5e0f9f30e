//! Ratios of two counts, kept exact as a numerator and a denominator.

use crate::features::chars::{as_count, count_in_class, lemma_count_in_class_bounded, CharClass};
use crate::features::lexical::{
    caps_count, count_members, numbers_count, special_chars_count, stopwords_count, text_length,
    words_count, words_count_of,
};
use crate::features::stopwords::StopwordSet;
use crate::features::tokenizers::{tokens_of, Tokenizer};
use vstd::prelude::*;

verus! {

/// The quotient `numerator / denominator` of two counts. The denominator is
/// never zero in a ratio that `Ratio::of` made.
#[derive(Clone, Copy, Debug, PartialEq, Eq, Structural)]
pub struct Ratio {
    pub numerator: i64,
    pub denominator: i64,
}

/// The ratio of `count` to `total`. Where `total` is zero the ratio is
/// defined to be zero, written `0 / 1`.
pub open spec fn ratio_of(count: i64, total: i64) -> Ratio {
    if total == 0 {
        Ratio { numerator: 0, denominator: 1 }
    } else {
        Ratio { numerator: count, denominator: total }
    }
}

/// The share of the characters of `class` among the characters of a text.
pub open spec fn class_ratio_of(s: Seq<char>, class: CharClass) -> Ratio {
    ratio_of(as_count(count_in_class(s, class)), as_count(s.len()))
}

/// The share of upper-case ASCII letters among the characters of a text.
pub open spec fn caps_ratio_of(s: Seq<char>) -> Ratio {
    class_ratio_of(s, CharClass::Capital)
}

/// The share of special characters among the characters of a text.
pub open spec fn special_chars_ratio_of(s: Seq<char>) -> Ratio {
    class_ratio_of(s, CharClass::Special)
}

/// The share of ASCII digits among the characters of a text.
pub open spec fn numbers_ratio_of(s: Seq<char>) -> Ratio {
    class_ratio_of(s, CharClass::Digit)
}

/// The number of tokens that are stopwords, over the word count of the text.
pub open spec fn stopwords_ratio_of(
    s: Seq<char>,
    tokenizer: Tokenizer,
    words: Set<Seq<char>>,
) -> Ratio {
    ratio_of(as_count(count_members(tokens_of(tokenizer, s), words)), as_count(words_count_of(s)))
}

/// The length of a text in characters, over its word count.
pub open spec fn average_word_length_of(s: Seq<char>) -> Ratio {
    ratio_of(as_count(s.len()), as_count(words_count_of(s)))
}

impl Ratio {
    /// The ratio of `count` to `total`, zero where `total` is zero.
    pub fn of(count: i64, total: i64) -> (r: Ratio)
        ensures
            r == ratio_of(count, total),
            r.denominator != 0,
    {
        if total == 0 {
            Ratio { numerator: 0, denominator: 1 }
        } else {
            Ratio { numerator: count, denominator: total }
        }
    }
}

/// The share of upper-case ASCII letters in `s`; zero for the empty text.
pub fn caps_ratio(s: &str) -> (r: Ratio)
    ensures
        r == caps_ratio_of(s@),
        r.denominator != 0,
{
    Ratio::of(caps_count(s), text_length(s))
}

/// The share of special characters in `s`; zero for the empty text.
pub fn special_chars_ratio(s: &str) -> (r: Ratio)
    ensures
        r == special_chars_ratio_of(s@),
        r.denominator != 0,
{
    Ratio::of(special_chars_count(s), text_length(s))
}

/// The share of ASCII digits in `s`; zero for the empty text.
pub fn numbers_ratio(s: &str) -> (r: Ratio)
    ensures
        r == numbers_ratio_of(s@),
        r.denominator != 0,
{
    Ratio::of(numbers_count(s), text_length(s))
}

/// The number of tokens of `s` that are stopwords, over its word count.
pub fn stopwords_ratio(s: &str, tokenizer: Tokenizer, stopwords: &StopwordSet) -> (r: Ratio)
    ensures
        r == stopwords_ratio_of(s@, tokenizer, stopwords@),
        r.denominator != 0,
{
    let tokens = tokenizer.tokenize(s);
    Ratio::of(stopwords_count(tokens, stopwords), words_count(s))
}

/// The length of `s` in characters, over its word count.
pub fn average_word_length(s: &str) -> (r: Ratio)
    ensures
        r == average_word_length_of(s@),
        r.denominator != 0,
{
    Ratio::of(text_length(s), words_count(s))
}

/// The ratio of a class of characters is its count over the length of the
/// text where the text is not empty, and zero where it is. Either way it
/// lies between zero and one.
pub proof fn lemma_class_ratio(s: Seq<char>, class: CharClass)
    ensures
        s.len() > 0 ==> class_ratio_of(s, class) == (Ratio {
            numerator: as_count(count_in_class(s, class)),
            denominator: as_count(s.len()),
        }),
        s.len() == 0 ==> class_ratio_of(s, class) == (Ratio { numerator: 0, denominator: 1 }),
        0 <= class_ratio_of(s, class).numerator <= class_ratio_of(s, class).denominator,
        class_ratio_of(s, class).denominator > 0,
{
    lemma_count_in_class_bounded(s, class);
}

} // verus!
