//! Surface-level text features for telling natural language from code and logs.
//!
//! Every feature is a total function of one line of text. The character
//! classes, the emoticon vocabulary and the two tokenizers are stated over
//! sequences of characters, and each executable function is proved to
//! compute exactly what is stated of it.

pub mod features;
