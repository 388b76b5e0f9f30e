//! The feature functions, the tokenizers and the table generator.

pub mod chars;
pub mod columns;
pub mod lexical;
pub mod ratios;
pub mod stopwords;
pub mod text;
pub mod tokenizers;
