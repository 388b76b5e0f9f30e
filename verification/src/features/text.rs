//! The feature table: one row of features for each text of a batch.

use crate::features::chars::{as_count, count_in_class, CharClass};
use crate::features::lexical::{
    caps_count, count_members, emoticons_count, emoticons_from, ends_with_code_char,
    ends_with_code_char_of, ends_with_punctuation, ends_with_punctuation_of, numbers_count,
    special_chars_count, starts_with_at, starts_with_at_of, starts_with_three_letters,
    starts_with_three_letters_of, stopwords_count, text_length, words_count, words_count_of,
};
use crate::features::ratios::{
    average_word_length_of, caps_ratio_of, numbers_ratio_of, ratio_of, special_chars_ratio_of,
    stopwords_ratio_of, Ratio,
};
use crate::features::stopwords::StopwordSet;
use crate::features::tokenizers::{tokenize1, tokenize2, tokens_of, Tokenizer};
use vstd::prelude::*;

verus! {

/// The counts and flags of one text.
#[derive(Clone, Copy, Debug, PartialEq, Eq, Structural)]
pub struct Counts {
    pub text_length: i64,
    pub caps_count: i64,
    pub special_chars_count: i64,
    pub numbers_count: i64,
    pub words_count: i64,
    pub stopwords_count1: i64,
    pub stopwords_count2: i64,
    pub ends_with_code_char: bool,
    pub ends_with_punctuation: bool,
    pub starts_with_three_letters: bool,
    pub emoticons_count: i64,
    pub starts_with_at: bool,
}

/// The ratios of one text, each taken from two of its counts.
#[derive(Clone, Copy, Debug, PartialEq, Eq, Structural)]
pub struct Ratios {
    pub caps_ratio: Ratio,
    pub special_chars_ratio: Ratio,
    pub numbers_ratio: Ratio,
    pub stopwords_ratio: Ratio,
    pub stopwords_ratio2: Ratio,
    pub average_word_length: Ratio,
}

/// All the features of one text.
#[derive(Clone, Copy, Debug, PartialEq, Eq, Structural)]
pub struct FeatureRow {
    pub counts: Counts,
    pub ratios: Ratios,
}

impl FeatureRow {
    /// The number of stopwords among the tokens that `tokenizer` cuts.
    pub fn stopwords_count(&self, tokenizer: Tokenizer) -> (n: i64)
        ensures
            tokenizer == Tokenizer::WhitespaceSplit ==> n == self.counts.stopwords_count1,
            tokenizer == Tokenizer::WordPattern ==> n == self.counts.stopwords_count2,
    {
        match tokenizer {
            Tokenizer::WhitespaceSplit => self.counts.stopwords_count1,
            Tokenizer::WordPattern => self.counts.stopwords_count2,
        }
    }

    /// The stopword ratio for the tokens that `tokenizer` cuts.
    pub fn stopwords_ratio(&self, tokenizer: Tokenizer) -> (r: Ratio)
        ensures
            tokenizer == Tokenizer::WhitespaceSplit ==> r == self.ratios.stopwords_ratio,
            tokenizer == Tokenizer::WordPattern ==> r == self.ratios.stopwords_ratio2,
    {
        match tokenizer {
            Tokenizer::WhitespaceSplit => self.ratios.stopwords_ratio,
            Tokenizer::WordPattern => self.ratios.stopwords_ratio2,
        }
    }
}

/// The features of a batch of texts, a row for each text, in the order of
/// the batch.
#[derive(Clone, Debug, PartialEq, Eq)]
pub struct FeatureTable {
    pub rows: Vec<FeatureRow>,
}

/// The ratio columns of the table.
#[derive(Clone, Copy, Debug, PartialEq, Eq, Structural)]
pub enum RatioColumn {
    Caps,
    SpecialChars,
    Numbers,
    Stopwords1,
    Stopwords2,
    AverageWordLength,
}

/// The text that an entry of a batch stands for: a missing entry stands for
/// the empty text.
pub open spec fn text_of(entry: Option<String>) -> Seq<char> {
    match entry {
        Some(s) => s@,
        None => Seq::<char>::empty(),
    }
}

/// The counts and flags of `text`, with `words` as the stopwords.
pub open spec fn counts_of(text: Seq<char>, words: Set<Seq<char>>) -> Counts {
    Counts {
        text_length: as_count(text.len()),
        caps_count: as_count(count_in_class(text, CharClass::Capital)),
        special_chars_count: as_count(count_in_class(text, CharClass::Special)),
        numbers_count: as_count(count_in_class(text, CharClass::Digit)),
        words_count: as_count(words_count_of(text)),
        stopwords_count1: as_count(
            count_members(tokens_of(Tokenizer::WhitespaceSplit, text), words),
        ),
        stopwords_count2: as_count(count_members(tokens_of(Tokenizer::WordPattern, text), words)),
        ends_with_code_char: ends_with_code_char_of(text),
        ends_with_punctuation: ends_with_punctuation_of(text),
        starts_with_three_letters: starts_with_three_letters_of(text),
        emoticons_count: as_count(emoticons_from(text, 0)),
        starts_with_at: starts_with_at_of(text),
    }
}

/// The ratio that stands in `column` for a text with the counts `c`.
pub open spec fn ratio_in(column: RatioColumn, c: Counts) -> Ratio {
    match column {
        RatioColumn::Caps => ratio_of(c.caps_count, c.text_length),
        RatioColumn::SpecialChars => ratio_of(c.special_chars_count, c.text_length),
        RatioColumn::Numbers => ratio_of(c.numbers_count, c.text_length),
        RatioColumn::Stopwords1 => ratio_of(c.stopwords_count1, c.words_count),
        RatioColumn::Stopwords2 => ratio_of(c.stopwords_count2, c.words_count),
        RatioColumn::AverageWordLength => ratio_of(c.text_length, c.words_count),
    }
}

/// The ratios of a text with the counts `c`.
pub open spec fn ratios_of(c: Counts) -> Ratios {
    Ratios {
        caps_ratio: ratio_in(RatioColumn::Caps, c),
        special_chars_ratio: ratio_in(RatioColumn::SpecialChars, c),
        numbers_ratio: ratio_in(RatioColumn::Numbers, c),
        stopwords_ratio: ratio_in(RatioColumn::Stopwords1, c),
        stopwords_ratio2: ratio_in(RatioColumn::Stopwords2, c),
        average_word_length: ratio_in(RatioColumn::AverageWordLength, c),
    }
}

/// The feature row of `text`, with `words` as the stopwords.
pub open spec fn row_of(text: Seq<char>, words: Set<Seq<char>>) -> FeatureRow {
    FeatureRow { counts: counts_of(text, words), ratios: ratios_of(counts_of(text, words)) }
}

/// `counts` holds, entry for entry, the counts of `texts`.
pub open spec fn is_counts_of(
    counts: Seq<Counts>,
    texts: Seq<Option<String>>,
    words: Set<Seq<char>>,
) -> bool {
    &&& counts.len() == texts.len()
    &&& forall|i: int|
        0 <= i < texts.len() ==> #[trigger] counts[i] == counts_of(text_of(texts[i]), words)
}

/// `ratios` holds, entry for entry, the ratio of `column` for `counts`.
pub open spec fn is_ratio_column(
    ratios: Seq<Ratio>,
    column: RatioColumn,
    counts: Seq<Counts>,
) -> bool {
    &&& ratios.len() == counts.len()
    &&& forall|i: int| 0 <= i < counts.len() ==> #[trigger] ratios[i] == ratio_in(column, counts[i])
}

/// `rows` is the feature table of `texts`: it has a row for each text, and
/// row `i` holds the features of text `i`.
pub open spec fn is_table_of(
    rows: Seq<FeatureRow>,
    texts: Seq<Option<String>>,
    words: Set<Seq<char>>,
) -> bool {
    &&& rows.len() == texts.len()
    &&& forall|i: int| 0 <= i < texts.len() ==> #[trigger] rows[i] == row_of(text_of(texts[i]), words)
}

/// Computes the feature table of a batch of texts against a fixed set of
/// stopwords.
pub struct LegacyTextFeatureGenerator {
    stopwords: StopwordSet,
}

impl LegacyTextFeatureGenerator {
    /// The stopwords that the generator was made with.
    pub closed spec fn words(&self) -> Set<Seq<char>> {
        self.stopwords@
    }

    /// A generator with the given stopwords.
    pub fn new(stopwords: StopwordSet) -> (generator: Self)
        ensures
            generator.words() == stopwords@,
    {
        LegacyTextFeatureGenerator { stopwords }
    }

    /// The counts and flags of one text.
    pub fn counts(&self, s: &str) -> (c: Counts)
        ensures
            c == counts_of(s@, self.words()),
    {
        Counts {
            text_length: text_length(s),
            caps_count: caps_count(s),
            special_chars_count: special_chars_count(s),
            numbers_count: numbers_count(s),
            words_count: words_count(s),
            stopwords_count1: stopwords_count(tokenize1(s), &self.stopwords),
            stopwords_count2: stopwords_count(tokenize2(s), &self.stopwords),
            ends_with_code_char: ends_with_code_char(s),
            ends_with_punctuation: ends_with_punctuation(s),
            starts_with_three_letters: starts_with_three_letters(s),
            emoticons_count: emoticons_count(s),
            starts_with_at: starts_with_at(s),
        }
    }

    /// The counts and flags of each text of a batch, a missing entry taken
    /// as the empty text.
    pub fn count_columns(&self, texts: &Vec<Option<String>>) -> (counts: Vec<Counts>)
        ensures
            is_counts_of(counts@, texts@, self.words()),
    {
        let mut counts: Vec<Counts> = Vec::new();
        let mut i: usize = 0;
        while i < texts.len()
            invariant
                i <= texts.len(),
                counts.len() == i,
                forall|j: int|
                    0 <= j < i ==> #[trigger] counts@[j] == counts_of(
                        text_of(texts@[j]),
                        self.words(),
                    ),
            decreases texts.len() - i,
        {
            let c = match &texts[i] {
                Some(s) => self.counts(s.as_str()),
                None => {
                    proof {
                        reveal_strlit("");
                        assert(""@ =~= Seq::<char>::empty());
                    }
                    self.counts("")
                },
            };
            counts.push(c);
            i = i + 1;
        }
        counts
    }

    /// One ratio column, computed row by row from the counts.
    pub fn ratio_column(&self, column: RatioColumn, counts: &Vec<Counts>) -> (ratios: Vec<Ratio>)
        ensures
            is_ratio_column(ratios@, column, counts@),
            forall|i: int| 0 <= i < ratios.len() ==> (#[trigger] ratios@[i]).denominator != 0,
    {
        let mut ratios: Vec<Ratio> = Vec::new();
        let mut i: usize = 0;
        while i < counts.len()
            invariant
                i <= counts.len(),
                ratios.len() == i,
                forall|j: int| 0 <= j < i ==> #[trigger] ratios@[j] == ratio_in(column, counts@[j]),
                forall|j: int| 0 <= j < i ==> (#[trigger] ratios@[j]).denominator != 0,
            decreases counts.len() - i,
        {
            let c = counts[i];
            let r = match column {
                RatioColumn::Caps => Ratio::of(c.caps_count, c.text_length),
                RatioColumn::SpecialChars => Ratio::of(c.special_chars_count, c.text_length),
                RatioColumn::Numbers => Ratio::of(c.numbers_count, c.text_length),
                RatioColumn::Stopwords1 => Ratio::of(c.stopwords_count1, c.words_count),
                RatioColumn::Stopwords2 => Ratio::of(c.stopwords_count2, c.words_count),
                RatioColumn::AverageWordLength => Ratio::of(c.text_length, c.words_count),
            };
            ratios.push(r);
            i = i + 1;
        }
        ratios
    }

    /// The share of upper-case letters in each text.
    pub fn caps_ratio(&self, counts: &Vec<Counts>) -> (ratios: Vec<Ratio>)
        ensures
            is_ratio_column(ratios@, RatioColumn::Caps, counts@),
    {
        self.ratio_column(RatioColumn::Caps, counts)
    }

    /// The share of special characters in each text.
    pub fn special_chars_ratio(&self, counts: &Vec<Counts>) -> (ratios: Vec<Ratio>)
        ensures
            is_ratio_column(ratios@, RatioColumn::SpecialChars, counts@),
    {
        self.ratio_column(RatioColumn::SpecialChars, counts)
    }

    /// The share of digits in each text.
    pub fn numbers_ratio(&self, counts: &Vec<Counts>) -> (ratios: Vec<Ratio>)
        ensures
            is_ratio_column(ratios@, RatioColumn::Numbers, counts@),
    {
        self.ratio_column(RatioColumn::Numbers, counts)
    }

    /// The stopwords among the whitespace-split tokens of each text, over
    /// its word count.
    pub fn stopwords_ratio1(&self, counts: &Vec<Counts>) -> (ratios: Vec<Ratio>)
        ensures
            is_ratio_column(ratios@, RatioColumn::Stopwords1, counts@),
    {
        self.ratio_column(RatioColumn::Stopwords1, counts)
    }

    /// The stopwords among the word-pattern tokens of each text, over its
    /// word count.
    pub fn stopwords_ratio2(&self, counts: &Vec<Counts>) -> (ratios: Vec<Ratio>)
        ensures
            is_ratio_column(ratios@, RatioColumn::Stopwords2, counts@),
    {
        self.ratio_column(RatioColumn::Stopwords2, counts)
    }

    /// The length of each text over its word count.
    pub fn average_word_length(&self, counts: &Vec<Counts>) -> (ratios: Vec<Ratio>)
        ensures
            is_ratio_column(ratios@, RatioColumn::AverageWordLength, counts@),
    {
        self.ratio_column(RatioColumn::AverageWordLength, counts)
    }

    /// The feature table of a batch: every feature of every text, row `i`
    /// for text `i`. A missing entry is taken as the empty text.
    pub fn generate(&self, texts: &Vec<Option<String>>) -> (table: FeatureTable)
        ensures
            is_table_of(table.rows@, texts@, self.words()),
    {
        let counts = self.count_columns(texts);
        let caps = self.caps_ratio(&counts);
        let special = self.special_chars_ratio(&counts);
        let numbers = self.numbers_ratio(&counts);
        let stopwords1 = self.stopwords_ratio1(&counts);
        let stopwords2 = self.stopwords_ratio2(&counts);
        let word_length = self.average_word_length(&counts);
        let mut rows: Vec<FeatureRow> = Vec::new();
        let mut i: usize = 0;
        while i < counts.len()
            invariant
                i <= counts.len(),
                rows.len() == i,
                is_counts_of(counts@, texts@, self.words()),
                is_ratio_column(caps@, RatioColumn::Caps, counts@),
                is_ratio_column(special@, RatioColumn::SpecialChars, counts@),
                is_ratio_column(numbers@, RatioColumn::Numbers, counts@),
                is_ratio_column(stopwords1@, RatioColumn::Stopwords1, counts@),
                is_ratio_column(stopwords2@, RatioColumn::Stopwords2, counts@),
                is_ratio_column(word_length@, RatioColumn::AverageWordLength, counts@),
                forall|j: int|
                    0 <= j < i ==> #[trigger] rows@[j] == row_of(text_of(texts@[j]), self.words()),
            decreases counts.len() - i,
        {
            let row = FeatureRow {
                counts: counts[i],
                ratios: Ratios {
                    caps_ratio: caps[i],
                    special_chars_ratio: special[i],
                    numbers_ratio: numbers[i],
                    stopwords_ratio: stopwords1[i],
                    stopwords_ratio2: stopwords2[i],
                    average_word_length: word_length[i],
                },
            };
            rows.push(row);
            i = i + 1;
        }
        FeatureTable { rows }
    }
}

/// Two feature tables of the same texts with the same stopwords are equal:
/// generating twice gives the same table.
pub proof fn lemma_table_is_determined(
    texts: Seq<Option<String>>,
    words: Set<Seq<char>>,
    first: Seq<FeatureRow>,
    second: Seq<FeatureRow>,
)
    requires
        is_table_of(first, texts, words),
        is_table_of(second, texts, words),
    ensures
        first == second,
{
    assert(first =~= second);
}

/// A row of the table holds, for each ratio, what the feature function of
/// that name gives for the text of the row.
pub proof fn lemma_row_holds_the_ratios(text: Seq<char>, words: Set<Seq<char>>)
    ensures
        row_of(text, words).ratios.caps_ratio == caps_ratio_of(text),
        row_of(text, words).ratios.special_chars_ratio == special_chars_ratio_of(text),
        row_of(text, words).ratios.numbers_ratio == numbers_ratio_of(text),
        row_of(text, words).ratios.stopwords_ratio == stopwords_ratio_of(
            text,
            Tokenizer::WhitespaceSplit,
            words,
        ),
        row_of(text, words).ratios.stopwords_ratio2 == stopwords_ratio_of(
            text,
            Tokenizer::WordPattern,
            words,
        ),
        row_of(text, words).ratios.average_word_length == average_word_length_of(text),
{
}

} // verus!
