use nlon_rust::features::lexical::{
    caps_count, emoticons_count, ends_with_code_char, ends_with_punctuation, numbers_count,
    special_chars_count, starts_with_at, starts_with_three_letters, stopwords_count, text_length,
    words_count,
};
use nlon_rust::features::stopwords::StopwordSet;
use nlon_rust::features::tokenizers::{tokenize1, tokenize2};

fn to_stopwords(words: Vec<&str>) -> StopwordSet {
    let words: Vec<String> = words.into_iter().map(|s| s.to_string()).collect();
    StopwordSet::from_words(&words)
}

fn run_tests<O>(inputs: &Vec<&str>, expected: &Vec<O>, func: impl Fn(&str) -> O)
where
    O: PartialEq + std::fmt::Debug,
{
    assert_eq!(inputs.len(), expected.len());
    for (input, expected) in inputs.iter().zip(expected.iter()) {
        let value = func(input);
        assert_eq!(
            value, *expected,
            "Failed for input: {} (got {:?}, expected {:?})",
            input, value, expected
        );
    }
}

#[test]
fn test_stopwords_count() {
    let stopwords = to_stopwords(vec!["this", "is", "isn't", "some", "peekaboo"]);
    let inputs = vec![
        "",
        "text",
        "123",
        "!@#$",
        "This is some text.",
        "This isn't some text.",
        "This is.",
    ];

    // Cut at white space, "isn't" stays whole and "is." keeps its full stop.
    let expected = vec![0, 0, 0, 0, 3, 3, 1];
    run_tests(&inputs, &expected, |s| stopwords_count(tokenize1(s), &stopwords));

    // Cut into runs of word characters, the apostrophe parts "isn" from "t".
    let expected = vec![0, 0, 0, 0, 3, 2, 2];
    run_tests(&inputs, &expected, |s| stopwords_count(tokenize2(s), &stopwords));
}

#[test]
fn test_caps_count() {
    let inputs = vec!["", "text", "123", "!@#$", "This is some text.", "A", "ABC", "aaABCaa"];
    let expected = vec![0, 0, 0, 0, 1, 1, 3, 3];
    run_tests(&inputs, &expected, |s| caps_count(s));
}

#[test]
fn test_special_chars_count() {
    let inputs = vec![
        "",
        "text",
        "123",
        "!@#$",
        "This is some text.",
        "x-y",
        "test;",
        "just some text",
    ];
    let expected = vec![0, 0, 0, 4, 1, 1, 1, 0];
    run_tests(&inputs, &expected, |s| special_chars_count(s));
}

#[test]
fn test_numbers_count() {
    let inputs = vec!["", "text", "123", "!@#$", "This is some text.", "There is 1 number."];
    let expected = vec![0, 0, 3, 0, 0, 1];
    run_tests(&inputs, &expected, |s| numbers_count(s));
}

#[test]
fn test_words_count() {
    let inputs = vec!["", "text", "123", "!@#$", "This is some text.", "one-word.", "abc!def"];
    let expected = vec![1, 1, 1, 1, 4, 1, 1];
    run_tests(&inputs, &expected, |s| words_count(s));
}

#[test]
fn test_ends_with_code_char() {
    let inputs = vec![
        "",
        "This is text.",
        "func(x, y);",
        "if (true) {",
        "func()",
        ":-)",
        "Hello ;-)",
        ":)",
        ":-(",
        ":(",
        ":-))",
    ];
    let expected = vec![false, false, true, true, true, false, false, false, false, false, true];
    run_tests(&inputs, &expected, |s| ends_with_code_char(s));
}

#[test]
fn test_ends_with_punctuation() {
    let inputs = vec!["", "abc", "1", ".", "!", "?", "? ", ":", ",", "Hello!!"];
    let expected = vec![false, false, false, true, true, true, false, true, true, true];
    run_tests(&inputs, &expected, |s| ends_with_punctuation(s));
}

#[test]
fn test_ends_either_with_punctuation_or_code_char() {
    let inputs = vec![
        "",
        "This is text.",
        "func(x, y);",
        "if (true) {",
        "func()",
        ":-)",
        "Hello ;-)",
        ":)",
        ":-(",
        ":(",
        ":-))",
        "",
        "abc",
        "1",
        ".",
        "!",
        "?",
        "? ",
        ":",
        ",",
        "Hello!!",
    ];
    for input in inputs {
        let ends_with_punctuation = ends_with_punctuation(input);
        let ends_with_code_char = ends_with_code_char(input);
        assert!(!ends_with_punctuation || !ends_with_code_char, "Failed for input: {}", input);
    }
}

#[test]
fn test_starts_with_three_letters() {
    // In "a  bcde" the white space behind the first letter breaks the run.
    let inputs = vec!["", "a", "a  bcde", " abcde", "      abcde"];
    let expected = vec![false, false, false, true, true];
    run_tests(&inputs, &expected, |s| starts_with_three_letters(s));
}

#[test]
fn test_emoticons_count() {
    let inputs = vec![
        "",
        "123",
        "abc",
        ":--)",
        ":-)",
        "Hello ;-)",
        "\":-)\";",
        ":)",
        ";)",
        ":-(",
        ":(",
        ":(:)",
        ":) :) :)",
        ":):(:",
    ];
    let expected = vec![0, 0, 0, 0, 1, 1, 1, 1, 1, 1, 1, 2, 3, 2];
    run_tests(&inputs, &expected, |s| emoticons_count(s));
}

#[test]
fn test_starts_with_at() {
    let inputs = vec!["", "abc", "123", "!@#", "@abc", "@", " @"];
    let expected = vec![false, false, false, false, true, true, false];
    run_tests(&inputs, &expected, |s| starts_with_at(s));
}

#[test]
fn test_counts_stay_within_length() {
    let inputs = vec!["", "A", "ABC", "a1!", "1234567890", "!@#$%^&*()", "MiXeD 42 ;-)", "é🙂Z"];
    for input in inputs {
        let length = text_length(input);
        assert_eq!(length, input.chars().count() as i64);
        for count in [caps_count(input), special_chars_count(input), numbers_count(input)] {
            assert!(0 <= count && count <= length, "Failed for input: {}", input);
        }
        assert!(emoticons_count(input) <= length);
        assert!(1 <= words_count(input) && words_count(input) <= length + 1);
    }
}

#[test]
fn test_text_length_counts_characters() {
    assert_eq!(text_length(""), 0);
    assert_eq!(text_length("abc def!"), 8);
    assert_eq!(text_length("héllo"), 5);
}

#[test]
fn test_words_count_of_empty_text_is_one() {
    assert_eq!(words_count(""), 1);
    assert_eq!(words_count("a b c"), 3);
}

#[test]
fn test_words_count_counts_runs_of_white_space() {
    assert_eq!(words_count("a  \t b"), 2);
    assert_eq!(words_count(" a"), 2);
    assert_eq!(words_count("a "), 2);
    assert_eq!(words_count(" "), 2);
    assert_eq!(words_count("a\u{a0}b\u{3000}c"), 3);
    assert_eq!(words_count("a\nb\r\nc"), 3);
}

#[test]
fn test_digits_and_letters_are_ascii() {
    // An Arabic-Indic digit and an accented capital are neither digit nor
    // capital; both count as special characters.
    assert_eq!(numbers_count("4\u{664}"), 1);
    assert_eq!(caps_count("É"), 0);
    assert_eq!(special_chars_count("4\u{664}É"), 2);
    assert_eq!(special_chars_count("a\u{2003}b"), 0);
}

#[test]
fn test_emoticons_do_not_overlap() {
    assert_eq!(emoticons_count(":):):)"), 3);
    assert_eq!(emoticons_count(":-))"), 1);
    assert_eq!(emoticons_count(";-("), 0);
    assert_eq!(emoticons_count(";("), 0);
    assert_eq!(emoticons_count(":-"), 0);
    assert_eq!(emoticons_count(":"), 0);
    assert_eq!(emoticons_count("::)"), 1);
    assert_eq!(emoticons_count(":-:-)"), 1);
}

#[test]
fn test_emoticon_takes_precedence_over_code_char() {
    assert!(!ends_with_code_char("done :)"));
    assert!(!ends_with_code_char("done ;)"));
    assert!(!ends_with_code_char("done ;-)"));
    assert!(ends_with_code_char("done ;"));
    assert!(ends_with_code_char("f(-)"));
    assert!(ends_with_code_char("x)"));
    assert!(ends_with_code_char(")"));
    assert!(!ends_with_code_char(";-("));
    assert!(!ends_with_code_char("x;\n"));
}

#[test]
fn test_three_letters_behind_leading_white_space() {
    assert!(starts_with_three_letters("  abcde"));
    assert!(!starts_with_three_letters("ab"));
    assert!(starts_with_three_letters("abc"));
    assert!(starts_with_three_letters("\t\n ABC"));
    assert!(!starts_with_three_letters("ab1"));
    assert!(!starts_with_three_letters("  ab"));
    assert!(!starts_with_three_letters("1abc"));
    assert!(!starts_with_three_letters("ab c"));
    assert!(!starts_with_three_letters("   "));
}

#[test]
fn test_stopwords_are_matched_exactly() {
    let stopwords = to_stopwords(vec!["the", "the", "a"]);
    assert!(stopwords.contains("the"));
    assert!(!stopwords.contains("The"));
    assert!(!stopwords.contains("th"));
    let tokens = vec!["the".to_string(), "The".to_string(), "a".to_string(), "".to_string()];
    assert_eq!(stopwords_count(tokens, &stopwords), 2);
    assert_eq!(stopwords_count(Vec::new(), &stopwords), 0);
}

#[test]
fn test_stopword_set_insert() {
    let mut stopwords = StopwordSet::new();
    assert!(!stopwords.contains("and"));
    assert!(stopwords.insert("and".to_string()));
    assert!(!stopwords.insert("and".to_string()));
    assert!(stopwords.contains("and"));
}
