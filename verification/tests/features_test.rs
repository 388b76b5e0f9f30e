use nlon_rust::features::columns::{Column, Scalar};
use nlon_rust::features::ratios::{
    average_word_length, caps_ratio, numbers_ratio, special_chars_ratio, stopwords_ratio, Ratio,
};
use nlon_rust::features::stopwords::StopwordSet;
use nlon_rust::features::text::{FeatureTable, LegacyTextFeatureGenerator, RatioColumn};
use nlon_rust::features::tokenizers::Tokenizer;

fn english_stopwords() -> StopwordSet {
    let words = vec![
        "a", "about", "all", "an", "and", "are", "as", "at", "be", "but", "by", "for", "from",
        "has", "have", "in", "is", "isn't", "it", "of", "on", "or", "some", "that", "the", "this",
        "to", "was", "with",
    ];
    let words: Vec<String> = words.into_iter().map(|s| s.to_string()).collect();
    StopwordSet::from_words(&words)
}

fn text_column(texts: Vec<&str>) -> Vec<Option<String>> {
    texts.into_iter().map(|s| Some(s.to_string())).collect()
}

fn value(ratio: Ratio) -> f64 {
    ratio.numerator as f64 / ratio.denominator as f64
}

fn generate(texts: Vec<&str>) -> FeatureTable {
    let generator = LegacyTextFeatureGenerator::new(english_stopwords());
    generator.generate(&text_column(texts))
}

#[test]
fn test_stopwords_count1() {
    let table = generate(vec![
        "",
        "text",
        "123",
        "!@#$",
        "This is some text.",
        "This isn't some text.",
        "This is.",
    ]);
    let expected = vec![0, 0, 0, 0, 3, 3, 1];
    assert_eq!(Column::StopwordsCount1.name(), "stopwords_count1");
    let col = table.column(Column::StopwordsCount1);
    assert_eq!(col, expected.into_iter().map(Scalar::Count).collect::<Vec<Scalar>>());
}

#[test]
fn test_stopwords_count2() {
    let table = generate(vec![
        "",
        "text",
        "123",
        "!@#$",
        "This is some text.",
        "This isn't some text.",
        "This is.",
    ]);
    // The apostrophe is no word character: "isn't" gives "isn" and "t".
    let expected = vec![0, 0, 0, 0, 3, 2, 2];
    assert_eq!(Column::StopwordsCount2.name(), "stopwords_count2");
    let col = table.column(Column::StopwordsCount2);
    assert_eq!(col, expected.into_iter().map(Scalar::Count).collect::<Vec<Scalar>>());
}

#[test]
fn test_average_word_length() {
    let table = generate(vec!["", "123", "123 123", "1", "!2c$", "abc def!", "1 234"]);
    let expected = vec![0., 3., 3.5, 1., 4., 4., 2.5];
    assert_eq!(Column::AverageWordLength.name(), "average_word_length");
    let col: Vec<f64> = table
        .column(Column::AverageWordLength)
        .into_iter()
        .map(|entry| match entry {
            Scalar::Ratio(ratio) => value(ratio),
            other => panic!("Failed to get a ratio: {:?}", other),
        })
        .collect();
    assert_eq!(col, expected);
}

#[test]
fn test_stopwords_ratio_of_hello_world() {
    let stopwords = StopwordSet::from_words(&vec!["world".to_string()]);
    let ratio = stopwords_ratio("Hello World", Tokenizer::WhitespaceSplit, &stopwords);
    assert_eq!(ratio, Ratio { numerator: 1, denominator: 2 });
    assert_eq!(value(ratio), 0.5);
    let ratio = stopwords_ratio("Hello World!", Tokenizer::WhitespaceSplit, &stopwords);
    assert_eq!(value(ratio), 0.0);
    let ratio = stopwords_ratio("Hello World!", Tokenizer::WordPattern, &stopwords);
    assert_eq!(value(ratio), 0.5);
}

#[test]
fn test_ratios_are_count_over_length() {
    assert_eq!(caps_ratio("aaABCaaa"), Ratio { numerator: 3, denominator: 8 });
    assert_eq!(value(caps_ratio("aaABCaaa")), 0.375);
    assert_eq!(special_chars_ratio("x-y!"), Ratio { numerator: 2, denominator: 4 });
    assert_eq!(value(special_chars_ratio("x-y!")), 0.5);
    assert_eq!(numbers_ratio("a1b2c3d4"), Ratio { numerator: 4, denominator: 8 });
    assert_eq!(average_word_length("abc def!"), Ratio { numerator: 8, denominator: 2 });
}

#[test]
fn test_ratios_of_empty_text_are_zero() {
    let zero = Ratio { numerator: 0, denominator: 1 };
    assert_eq!(Ratio::of(5, 0), zero);
    assert_eq!(caps_ratio(""), zero);
    assert_eq!(special_chars_ratio(""), zero);
    assert_eq!(numbers_ratio(""), zero);
    assert_eq!(value(caps_ratio("")), 0.0);
    assert_eq!(value(average_word_length("")), 0.0);
    assert_eq!(value(stopwords_ratio("", Tokenizer::WhitespaceSplit, &english_stopwords())), 0.0);
    let table = generate(vec![""]);
    assert_eq!(table.rows[0].ratios.caps_ratio, zero);
    assert_eq!(table.rows[0].ratios.special_chars_ratio, zero);
    assert_eq!(table.rows[0].ratios.numbers_ratio, zero);
    assert_eq!(table.rows[0].counts.text_length, 0);
    assert_eq!(table.rows[0].counts.words_count, 1);
}

#[test]
fn test_generate_twice_gives_the_same_table() {
    let texts = vec!["This is some text.", "", "func(x, y);", ":-) @you", "  abc 123"];
    let first = generate(texts.clone());
    let second = generate(texts);
    assert_eq!(first.rows, second.rows);
}

#[test]
fn test_generate_keeps_the_order_of_the_texts() {
    let texts = vec!["ABC", "12", "@me :)", "", "if (x) {", "Is it?"];
    let generator = LegacyTextFeatureGenerator::new(english_stopwords());
    let table = generator.generate(&text_column(texts.clone()));
    assert_eq!(table.rows.len(), texts.len());
    for (i, text) in texts.iter().enumerate() {
        let alone = generator.generate(&text_column(vec![text]));
        assert_eq!(table.rows[i], alone.rows[0]);
        assert_eq!(table.rows[i].counts, generator.counts(text));
    }
    let reversed: Vec<&str> = texts.iter().rev().cloned().collect();
    let back = generator.generate(&text_column(reversed));
    for i in 0..texts.len() {
        assert_eq!(back.rows[i], table.rows[texts.len() - 1 - i]);
    }
}

#[test]
fn test_generate_fills_every_column() {
    let table = generate(vec!["@Bob: This is GREAT, see f(1);"]);
    let row = table.rows[0];
    assert_eq!(row.counts.text_length, 30);
    assert_eq!(row.counts.caps_count, 7);
    assert_eq!(row.counts.special_chars_count, 6);
    assert_eq!(row.counts.numbers_count, 1);
    assert_eq!(row.counts.words_count, 6);
    assert_eq!(row.counts.stopwords_count1, 2);
    assert_eq!(row.counts.stopwords_count2, 2);
    assert!(row.counts.ends_with_code_char);
    assert!(!row.counts.ends_with_punctuation);
    assert!(!row.counts.starts_with_three_letters);
    assert_eq!(row.counts.emoticons_count, 0);
    assert!(row.counts.starts_with_at);
    assert_eq!(row.ratios.caps_ratio, Ratio { numerator: 7, denominator: 30 });
    assert_eq!(row.ratios.special_chars_ratio, Ratio { numerator: 6, denominator: 30 });
    assert_eq!(row.ratios.numbers_ratio, Ratio { numerator: 1, denominator: 30 });
    assert_eq!(row.ratios.stopwords_ratio, Ratio { numerator: 2, denominator: 6 });
    assert_eq!(row.ratios.stopwords_ratio2, Ratio { numerator: 2, denominator: 6 });
    assert_eq!(row.ratios.average_word_length, Ratio { numerator: 30, denominator: 6 });
}

#[test]
fn test_missing_text_counts_as_empty() {
    let generator = LegacyTextFeatureGenerator::new(english_stopwords());
    let table = generator.generate(&vec![None, Some("".to_string()), Some("A b".to_string())]);
    assert_eq!(table.rows.len(), 3);
    assert_eq!(table.rows[0], table.rows[1]);
    assert_eq!(table.rows[0].counts.words_count, 1);
    assert_eq!(table.rows[2].counts.caps_count, 1);
}

#[test]
fn test_ratio_columns_follow_the_counts() {
    let generator = LegacyTextFeatureGenerator::new(english_stopwords());
    let counts = generator.count_columns(&text_column(vec!["AB cd", "", "This is 1."]));
    let caps = generator.caps_ratio(&counts);
    assert_eq!(caps[0], Ratio { numerator: 2, denominator: 5 });
    assert_eq!(caps[1], Ratio { numerator: 0, denominator: 1 });
    let special = generator.special_chars_ratio(&counts);
    assert_eq!(special[2], Ratio { numerator: 1, denominator: 10 });
    let numbers = generator.numbers_ratio(&counts);
    assert_eq!(numbers[2], Ratio { numerator: 1, denominator: 10 });
    let first = generator.stopwords_ratio1(&counts);
    assert_eq!(first[2], Ratio { numerator: 2, denominator: 3 });
    let second = generator.stopwords_ratio2(&counts);
    assert_eq!(second[2], Ratio { numerator: 2, denominator: 3 });
    let lengths = generator.average_word_length(&counts);
    assert_eq!(lengths[0], Ratio { numerator: 5, denominator: 2 });
    assert_eq!(generator.ratio_column(RatioColumn::Caps, &counts), caps);
}
