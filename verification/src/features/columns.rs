//! The columns of the feature table: their names, their order and what each
//! holds of a row.

use crate::features::ratios::Ratio;
use crate::features::text::{FeatureRow, FeatureTable};
use vstd::prelude::*;

verus! {

/// A column of the feature table.
#[derive(Clone, Copy, Debug, PartialEq, Eq, Structural)]
pub enum Column {
    TextLength,
    CapsCount,
    SpecialCharsCount,
    NumbersCount,
    WordsCount,
    StopwordsCount1,
    StopwordsCount2,
    EndsWithCodeChar,
    EndsWithPunctuation,
    StartsWithThreeLetters,
    EmoticonsCount,
    StartsWithAt,
    CapsRatio,
    SpecialCharsRatio,
    NumbersRatio,
    StopwordsRatio,
    StopwordsRatio2,
    AverageWordLength,
}

/// What the entries of a column are.
#[derive(Clone, Copy, Debug, PartialEq, Eq, Structural)]
pub enum Kind {
    Count,
    Flag,
    Ratio,
}

/// One entry of the table.
#[derive(Clone, Copy, Debug, PartialEq, Eq, Structural)]
pub enum Scalar {
    Count(i64),
    Flag(bool),
    Ratio(Ratio),
}

/// The name of a column.
pub open spec fn name_of(column: Column) -> Seq<char> {
    match column {
        Column::TextLength => "text_length"@,
        Column::CapsCount => "caps_count"@,
        Column::SpecialCharsCount => "special_chars_count"@,
        Column::NumbersCount => "numbers_count"@,
        Column::WordsCount => "words_count"@,
        Column::StopwordsCount1 => "stopwords_count1"@,
        Column::StopwordsCount2 => "stopwords_count2"@,
        Column::EndsWithCodeChar => "ends_with_code_char"@,
        Column::EndsWithPunctuation => "ends_with_punctuation"@,
        Column::StartsWithThreeLetters => "starts_with_three_letters"@,
        Column::EmoticonsCount => "emoticons_count"@,
        Column::StartsWithAt => "starts_with_at"@,
        Column::CapsRatio => "caps_ratio"@,
        Column::SpecialCharsRatio => "special_chars_ratio"@,
        Column::NumbersRatio => "numbers_ratio"@,
        Column::StopwordsRatio => "stopwords_ratio"@,
        Column::StopwordsRatio2 => "stopwords_ratio2"@,
        Column::AverageWordLength => "average_word_length"@,
    }
}

/// The entry of `row` in `column`.
pub open spec fn value_in(column: Column, row: FeatureRow) -> Scalar {
    match column {
        Column::TextLength => Scalar::Count(row.counts.text_length),
        Column::CapsCount => Scalar::Count(row.counts.caps_count),
        Column::SpecialCharsCount => Scalar::Count(row.counts.special_chars_count),
        Column::NumbersCount => Scalar::Count(row.counts.numbers_count),
        Column::WordsCount => Scalar::Count(row.counts.words_count),
        Column::StopwordsCount1 => Scalar::Count(row.counts.stopwords_count1),
        Column::StopwordsCount2 => Scalar::Count(row.counts.stopwords_count2),
        Column::EndsWithCodeChar => Scalar::Flag(row.counts.ends_with_code_char),
        Column::EndsWithPunctuation => Scalar::Flag(row.counts.ends_with_punctuation),
        Column::StartsWithThreeLetters => Scalar::Flag(row.counts.starts_with_three_letters),
        Column::EmoticonsCount => Scalar::Count(row.counts.emoticons_count),
        Column::StartsWithAt => Scalar::Flag(row.counts.starts_with_at),
        Column::CapsRatio => Scalar::Ratio(row.ratios.caps_ratio),
        Column::SpecialCharsRatio => Scalar::Ratio(row.ratios.special_chars_ratio),
        Column::NumbersRatio => Scalar::Ratio(row.ratios.numbers_ratio),
        Column::StopwordsRatio => Scalar::Ratio(row.ratios.stopwords_ratio),
        Column::StopwordsRatio2 => Scalar::Ratio(row.ratios.stopwords_ratio2),
        Column::AverageWordLength => Scalar::Ratio(row.ratios.average_word_length),
    }
}

/// The kind of an entry.
pub open spec fn kind_of(value: Scalar) -> Kind {
    match value {
        Scalar::Count(_) => Kind::Count,
        Scalar::Flag(_) => Kind::Flag,
        Scalar::Ratio(_) => Kind::Ratio,
    }
}

/// The columns in the order in which the table holds them.
pub open spec fn all_columns() -> Seq<Column> {
    seq![
        Column::TextLength,
        Column::CapsCount,
        Column::SpecialCharsCount,
        Column::NumbersCount,
        Column::WordsCount,
        Column::StopwordsCount1,
        Column::StopwordsCount2,
        Column::EndsWithCodeChar,
        Column::EndsWithPunctuation,
        Column::StartsWithThreeLetters,
        Column::EmoticonsCount,
        Column::StartsWithAt,
        Column::CapsRatio,
        Column::SpecialCharsRatio,
        Column::NumbersRatio,
        Column::StopwordsRatio,
        Column::StopwordsRatio2,
        Column::AverageWordLength,
    ]
}

impl Column {
    /// The name of the column.
    pub fn name(&self) -> (name: &'static str)
        ensures
            name@ == name_of(*self),
    {
        match self {
            Column::TextLength => "text_length",
            Column::CapsCount => "caps_count",
            Column::SpecialCharsCount => "special_chars_count",
            Column::NumbersCount => "numbers_count",
            Column::WordsCount => "words_count",
            Column::StopwordsCount1 => "stopwords_count1",
            Column::StopwordsCount2 => "stopwords_count2",
            Column::EndsWithCodeChar => "ends_with_code_char",
            Column::EndsWithPunctuation => "ends_with_punctuation",
            Column::StartsWithThreeLetters => "starts_with_three_letters",
            Column::EmoticonsCount => "emoticons_count",
            Column::StartsWithAt => "starts_with_at",
            Column::CapsRatio => "caps_ratio",
            Column::SpecialCharsRatio => "special_chars_ratio",
            Column::NumbersRatio => "numbers_ratio",
            Column::StopwordsRatio => "stopwords_ratio",
            Column::StopwordsRatio2 => "stopwords_ratio2",
            Column::AverageWordLength => "average_word_length",
        }
    }

    /// The kind of the entries of the column, the same in every row.
    pub fn kind(&self) -> (kind: Kind)
        ensures
            forall|row: FeatureRow| kind == kind_of(#[trigger] value_in(*self, row)),
    {
        match self {
            Column::TextLength
            | Column::CapsCount
            | Column::SpecialCharsCount
            | Column::NumbersCount
            | Column::WordsCount
            | Column::StopwordsCount1
            | Column::StopwordsCount2
            | Column::EmoticonsCount => Kind::Count,
            Column::EndsWithCodeChar
            | Column::EndsWithPunctuation
            | Column::StartsWithThreeLetters
            | Column::StartsWithAt => Kind::Flag,
            Column::CapsRatio
            | Column::SpecialCharsRatio
            | Column::NumbersRatio
            | Column::StopwordsRatio
            | Column::StopwordsRatio2
            | Column::AverageWordLength => Kind::Ratio,
        }
    }

    /// All the columns, in the order of the table.
    pub fn all() -> (columns: Vec<Column>)
        ensures
            columns@ == all_columns(),
    {
        let columns = vec![
            Column::TextLength,
            Column::CapsCount,
            Column::SpecialCharsCount,
            Column::NumbersCount,
            Column::WordsCount,
            Column::StopwordsCount1,
            Column::StopwordsCount2,
            Column::EndsWithCodeChar,
            Column::EndsWithPunctuation,
            Column::StartsWithThreeLetters,
            Column::EmoticonsCount,
            Column::StartsWithAt,
            Column::CapsRatio,
            Column::SpecialCharsRatio,
            Column::NumbersRatio,
            Column::StopwordsRatio,
            Column::StopwordsRatio2,
            Column::AverageWordLength,
        ];
        proof {
            assert(columns@ =~= all_columns());
        }
        columns
    }
}

impl FeatureRow {
    /// The entry of the row in `column`.
    pub fn get(&self, column: Column) -> (value: Scalar)
        ensures
            value == value_in(column, *self),
    {
        match column {
            Column::TextLength => Scalar::Count(self.counts.text_length),
            Column::CapsCount => Scalar::Count(self.counts.caps_count),
            Column::SpecialCharsCount => Scalar::Count(self.counts.special_chars_count),
            Column::NumbersCount => Scalar::Count(self.counts.numbers_count),
            Column::WordsCount => Scalar::Count(self.counts.words_count),
            Column::StopwordsCount1 => Scalar::Count(self.counts.stopwords_count1),
            Column::StopwordsCount2 => Scalar::Count(self.counts.stopwords_count2),
            Column::EndsWithCodeChar => Scalar::Flag(self.counts.ends_with_code_char),
            Column::EndsWithPunctuation => Scalar::Flag(self.counts.ends_with_punctuation),
            Column::StartsWithThreeLetters => Scalar::Flag(self.counts.starts_with_three_letters),
            Column::EmoticonsCount => Scalar::Count(self.counts.emoticons_count),
            Column::StartsWithAt => Scalar::Flag(self.counts.starts_with_at),
            Column::CapsRatio => Scalar::Ratio(self.ratios.caps_ratio),
            Column::SpecialCharsRatio => Scalar::Ratio(self.ratios.special_chars_ratio),
            Column::NumbersRatio => Scalar::Ratio(self.ratios.numbers_ratio),
            Column::StopwordsRatio => Scalar::Ratio(self.ratios.stopwords_ratio),
            Column::StopwordsRatio2 => Scalar::Ratio(self.ratios.stopwords_ratio2),
            Column::AverageWordLength => Scalar::Ratio(self.ratios.average_word_length),
        }
    }
}

impl FeatureTable {
    /// The entries of `column`, one for each row and in the order of the
    /// rows.
    pub fn column(&self, column: Column) -> (values: Vec<Scalar>)
        ensures
            values@.len() == self.rows@.len(),
            forall|i: int|
                0 <= i < self.rows@.len() ==> #[trigger] values@[i] == value_in(
                    column,
                    self.rows@[i],
                ),
    {
        let mut values: Vec<Scalar> = Vec::new();
        let mut i: usize = 0;
        while i < self.rows.len()
            invariant
                i <= self.rows.len(),
                values.len() == i,
                forall|j: int|
                    0 <= j < i ==> #[trigger] values@[j] == value_in(column, self.rows@[j]),
            decreases self.rows.len() - i,
        {
            values.push(self.rows[i].get(column));
            i = i + 1;
        }
        values
    }
}

} // verus!
