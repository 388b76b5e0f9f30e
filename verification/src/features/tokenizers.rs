//! The two tokenizers. Both lower-case the text first; they differ in where
//! they cut it.

use crate::features::chars::{char_is_space, char_is_word, is_space, is_word_char, to_chars};
use crate::features::lexical::{space_runs, words_count_of};
use vstd::prelude::*;

verus! {

/// The lower-cased form of a text, as `str::to_lowercase` gives it.
pub uninterp spec fn lowercase_of(text: Seq<char>) -> Seq<char>;

/// `str::to_lowercase` of the standard library. The result is a function of
/// the text alone; it is named here and not spelled out, since it follows the
/// Unicode case tables.
pub assume_specification[ str::to_lowercase ](s: &str) -> (r: String)
    ensures
        r@ == lowercase_of(s@),
;

/// `String::push` of the standard library: the character is appended at the
/// end and nothing else changes.
pub assume_specification[ String::push ](s: &mut String, ch: char)
    ensures
        final(s)@ == old(s)@.push(ch),
;

/// The pieces of `s` between its runs of white space, in order. A run at the
/// start or at the end leaves an empty piece there, and the empty text is one
/// empty piece.
pub open spec fn whitespace_split(s: Seq<char>) -> Seq<Seq<char>>
    decreases s.len(),
{
    if s.len() == 0 {
        seq![Seq::<char>::empty()]
    } else {
        let before = whitespace_split(s.drop_last());
        if !is_space(s.last()) {
            before.drop_last().push(before.last().push(s.last()))
        } else if s.len() >= 2 && is_space(s[s.len() - 2]) {
            before
        } else {
            before.push(Seq::<char>::empty())
        }
    }
}

/// The maximal runs of word characters of `s`, in order. Everything else is
/// dropped, so a text without a word character has no run.
pub open spec fn word_runs(s: Seq<char>) -> Seq<Seq<char>>
    decreases s.len(),
{
    if s.len() == 0 {
        Seq::<Seq<char>>::empty()
    } else {
        let before = word_runs(s.drop_last());
        if !is_word_char(s.last()) {
            before
        } else if s.len() >= 2 && is_word_char(s[s.len() - 2]) {
            before.drop_last().push(before.last().push(s.last()))
        } else {
            before.push(seq![s.last()])
        }
    }
}

/// The way a text is cut into tokens.
#[derive(Clone, Copy, Debug, PartialEq, Eq, Structural)]
pub enum Tokenizer {
    /// Cut at runs of white space; punctuation stays attached.
    WhitespaceSplit,
    /// Keep the runs of word characters; punctuation is dropped.
    WordPattern,
}

/// The tokens of `text` under `tokenizer`.
pub open spec fn tokens_of(tokenizer: Tokenizer, text: Seq<char>) -> Seq<Seq<char>> {
    match tokenizer {
        Tokenizer::WhitespaceSplit => whitespace_split(lowercase_of(text)),
        Tokenizer::WordPattern => word_runs(lowercase_of(text)),
    }
}

/// Cuts `s` at its runs of white space, without changing case.
pub fn split_on_whitespace(s: &str) -> (tokens: Vec<String>)
    ensures
        tokens.deep_view() == whitespace_split(s@),
{
    let cs = to_chars(s);
    let mut tokens: Vec<String> = Vec::new();
    let mut piece = String::new();
    let mut in_run = false;
    let mut i: usize = 0;
    while i < cs.len()
        invariant
            i <= cs.len(),
            in_run == (i > 0 && is_space(cs@[i - 1])),
            tokens.deep_view().push(piece@) =~= whitespace_split(cs@.take(i as int)),
        decreases cs.len() - i,
    {
        let c = cs[i];
        let ghost done = tokens.deep_view();
        let ghost open = piece@;
        proof {
            assert(cs@.take(i + 1).drop_last() =~= cs@.take(i as int));
            assert(done.push(open).drop_last() =~= done);
        }
        if !char_is_space(c) {
            piece.push(c);
            in_run = false;
        } else {
            if !in_run {
                tokens.push(piece);
                piece = String::new();
                proof {
                    assert(tokens.deep_view() =~= done.push(open));
                }
            }
            in_run = true;
        }
        i = i + 1;
    }
    let ghost done = tokens.deep_view();
    tokens.push(piece);
    proof {
        assert(cs@.take(i as int) =~= cs@);
        assert(tokens.deep_view() =~= done.push(piece@));
    }
    tokens
}

/// Extracts the runs of word characters of `s`, without changing case.
pub fn split_into_words(s: &str) -> (tokens: Vec<String>)
    ensures
        tokens.deep_view() == word_runs(s@),
{
    let cs = to_chars(s);
    let mut tokens: Vec<String> = Vec::new();
    let mut run = String::new();
    let mut in_word = false;
    let mut i: usize = 0;
    while i < cs.len()
        invariant
            i <= cs.len(),
            in_word == (i > 0 && is_word_char(cs@[i - 1])),
            in_word ==> tokens.deep_view().push(run@) =~= word_runs(cs@.take(i as int)),
            !in_word ==> tokens.deep_view() =~= word_runs(cs@.take(i as int)),
        decreases cs.len() - i,
    {
        let c = cs[i];
        let ghost done = tokens.deep_view();
        let ghost open = run@;
        proof {
            assert(cs@.take(i + 1).drop_last() =~= cs@.take(i as int));
            assert(done.push(open).drop_last() =~= done);
        }
        if char_is_word(c) {
            if !in_word {
                run = String::new();
                proof {
                    assert(Seq::<char>::empty().push(c) =~= seq![c]);
                }
            }
            run.push(c);
            in_word = true;
        } else {
            if in_word {
                tokens.push(run);
                run = String::new();
                proof {
                    assert(tokens.deep_view() =~= done.push(open));
                }
            }
            in_word = false;
        }
        i = i + 1;
    }
    proof {
        assert(cs@.take(i as int) =~= cs@);
    }
    if in_word {
        let ghost done = tokens.deep_view();
        tokens.push(run);
        proof {
            assert(tokens.deep_view() =~= done.push(run@));
        }
    }
    tokens
}

/// The whitespace-split tokenizer: lower-cases `s` and cuts it at its runs of
/// white space.
pub fn tokenize1(s: &str) -> (tokens: Vec<String>)
    ensures
        tokens.deep_view() == tokens_of(Tokenizer::WhitespaceSplit, s@),
{
    let lower = s.to_lowercase();
    split_on_whitespace(lower.as_str())
}

/// The word-pattern tokenizer: lower-cases `s` and keeps its runs of word
/// characters.
pub fn tokenize2(s: &str) -> (tokens: Vec<String>)
    ensures
        tokens.deep_view() == tokens_of(Tokenizer::WordPattern, s@),
{
    let lower = s.to_lowercase();
    split_into_words(lower.as_str())
}

impl Tokenizer {
    /// Cuts `s` into tokens the way this tokenizer does.
    pub fn tokenize(&self, s: &str) -> (tokens: Vec<String>)
        ensures
            tokens.deep_view() == tokens_of(*self, s@),
    {
        match self {
            Tokenizer::WhitespaceSplit => tokenize1(s),
            Tokenizer::WordPattern => tokenize2(s),
        }
    }
}

/// The whitespace-split pieces of a text are as many as its word count: one
/// more than its runs of white space.
pub proof fn lemma_pieces_are_words_count(s: Seq<char>)
    ensures
        whitespace_split(s).len() == words_count_of(s),
{
    lemma_pieces_of_prefix(s, s.len() as int);
    assert(s.take(s.len() as int) =~= s);
}

/// The first `n` characters of a text split into one piece more than the
/// runs of white space that start among them.
pub proof fn lemma_pieces_of_prefix(s: Seq<char>, n: int)
    requires
        0 <= n <= s.len(),
    ensures
        whitespace_split(s.take(n)).len() == space_runs(s, n) + 1,
    decreases n,
{
    if n > 0 {
        lemma_pieces_of_prefix(s, n - 1);
        assert(s.take(n).drop_last() =~= s.take(n - 1));
    }
}

/// No whitespace-split piece holds white space.
pub proof fn lemma_pieces_hold_no_space(s: Seq<char>, k: int, j: int)
    requires
        0 <= k < whitespace_split(s).len(),
        0 <= j < whitespace_split(s)[k].len(),
    ensures
        !is_space(whitespace_split(s)[k][j]),
    decreases s.len(),
{
    if s.len() > 0 {
        let before = whitespace_split(s.drop_last());
        lemma_pieces_are_words_count(s.drop_last());
        if !is_space(s.last()) {
            if k < before.len() - 1 {
                lemma_pieces_hold_no_space(s.drop_last(), k, j);
            } else if j < before.last().len() {
                lemma_pieces_hold_no_space(s.drop_last(), k, j);
            }
        } else if k < before.len() {
            lemma_pieces_hold_no_space(s.drop_last(), k, j);
        }
    }
}

/// Every word run holds at least one character, and word characters only.
pub proof fn lemma_runs_hold_words(s: Seq<char>, k: int, j: int)
    requires
        0 <= k < word_runs(s).len(),
        0 <= j < word_runs(s)[k].len(),
    ensures
        word_runs(s)[k].len() > 0,
        is_word_char(word_runs(s)[k][j]),
    decreases s.len(),
{
    if s.len() > 0 {
        let before = word_runs(s.drop_last());
        if !is_word_char(s.last()) {
            lemma_runs_hold_words(s.drop_last(), k, j);
        } else if s.len() >= 2 && is_word_char(s[s.len() - 2]) {
            lemma_runs_end_on_last(s.drop_last());
            if k < before.len() - 1 {
                lemma_runs_hold_words(s.drop_last(), k, j);
            } else if j < before.last().len() {
                lemma_runs_hold_words(s.drop_last(), k, j);
            }
        } else if k < before.len() {
            lemma_runs_hold_words(s.drop_last(), k, j);
        }
    }
}

/// A text that ends with a word character has a word run.
pub proof fn lemma_runs_end_on_last(s: Seq<char>)
    requires
        s.len() > 0,
        is_word_char(s.last()),
    ensures
        word_runs(s).len() > 0,
    decreases s.len(),
{
    if s.len() >= 2 && is_word_char(s[s.len() - 2]) {
        assert(s.drop_last().last() == s[s.len() - 2]);
        lemma_runs_end_on_last(s.drop_last());
    }
}

} // verus!
