//! Character classes that the features are built from, and the two small
//! conversions every feature starts or ends with.

use vstd::prelude::*;

verus! {

/// An upper-case ASCII letter, `A` to `Z`.
pub open spec fn is_upper(c: char) -> bool {
    'A' <= c && c <= 'Z'
}

/// A lower-case ASCII letter, `a` to `z`.
pub open spec fn is_lower(c: char) -> bool {
    'a' <= c && c <= 'z'
}

/// An ASCII letter of either case.
pub open spec fn is_letter(c: char) -> bool {
    is_upper(c) || is_lower(c)
}

/// An ASCII decimal digit, `0` to `9`.
pub open spec fn is_digit(c: char) -> bool {
    '0' <= c && c <= '9'
}

/// A character with the Unicode property `White_Space`.
pub open spec fn is_space(c: char) -> bool {
    ||| '\u{9}' <= c && c <= '\u{d}'
    ||| c == ' '
    ||| c == '\u{85}'
    ||| c == '\u{a0}'
    ||| c == '\u{1680}'
    ||| '\u{2000}' <= c && c <= '\u{200a}'
    ||| c == '\u{2028}'
    ||| c == '\u{2029}'
    ||| c == '\u{202f}'
    ||| c == '\u{205f}'
    ||| c == '\u{3000}'
}

/// Whether Unicode counts a character as alphabetic or numeric, as
/// `char::is_alphanumeric` tells it.
pub uninterp spec fn is_alphanumeric(c: char) -> bool;

/// `char::is_alphanumeric` of the standard library. What it returns depends
/// on the character alone; it is named here and not spelled out, since it
/// follows the Unicode tables.
pub assume_specification[ char::is_alphanumeric ](c: char) -> (b: bool)
    ensures
        b == is_alphanumeric(c),
;

/// A word character: a letter, a digit or the underscore. Of the ASCII
/// characters these are `a` to `z`, `A` to `Z`, `0` to `9` and `_`; beyond
/// ASCII they are the characters that Unicode counts as alphabetic or
/// numeric.
pub open spec fn is_word_char(c: char) -> bool {
    if c <= '\u{7f}' {
        is_letter(c) || is_digit(c) || c == '_'
    } else {
        is_alphanumeric(c)
    }
}

/// A special character: neither an ASCII letter, nor an ASCII digit, nor
/// white space.
pub open spec fn is_special(c: char) -> bool {
    !is_letter(c) && !is_digit(c) && !is_space(c)
}

/// A character that typically closes a line of code: `)`, `{` or `;`.
pub open spec fn is_code_char(c: char) -> bool {
    c == ')' || c == '{' || c == ';'
}

/// A character that typically closes a sentence or a clause: `.`, `!`, `?`,
/// `:` or `,`.
pub open spec fn is_punctuation(c: char) -> bool {
    c == '.' || c == '!' || c == '?' || c == ':' || c == ','
}

/// The classes of characters that are counted.
#[derive(Clone, Copy, Debug, PartialEq, Eq, Structural)]
pub enum CharClass {
    /// Upper-case ASCII letters.
    Capital,
    /// Everything but ASCII letters, ASCII digits and white space.
    Special,
    /// ASCII digits.
    Digit,
}

/// Membership of `c` in `class`.
pub open spec fn in_class(class: CharClass, c: char) -> bool {
    match class {
        CharClass::Capital => is_upper(c),
        CharClass::Special => is_special(c),
        CharClass::Digit => is_digit(c),
    }
}

/// The number of characters of `s` that belong to `class`.
pub open spec fn count_in_class(s: Seq<char>, class: CharClass) -> nat
    decreases s.len(),
{
    if s.len() == 0 {
        0
    } else {
        count_in_class(s.drop_last(), class) + if in_class(class, s.last()) {
            1nat
        } else {
            0nat
        }
    }
}

/// A count as the 64-bit signed integer that the feature columns hold. A
/// count too large for that type is held at the type's maximum.
pub open spec fn as_count(n: nat) -> i64 {
    if n <= i64::MAX {
        n as i64
    } else {
        i64::MAX
    }
}

pub fn char_is_upper(c: char) -> (b: bool)
    ensures
        b == is_upper(c),
{
    'A' <= c && c <= 'Z'
}

pub fn char_is_letter(c: char) -> (b: bool)
    ensures
        b == is_letter(c),
{
    ('A' <= c && c <= 'Z') || ('a' <= c && c <= 'z')
}

pub fn char_is_digit(c: char) -> (b: bool)
    ensures
        b == is_digit(c),
{
    '0' <= c && c <= '9'
}

pub fn char_is_space(c: char) -> (b: bool)
    ensures
        b == is_space(c),
{
    ('\u{9}' <= c && c <= '\u{d}') || c == ' ' || c == '\u{85}' || c == '\u{a0}' || c
        == '\u{1680}' || ('\u{2000}' <= c && c <= '\u{200a}') || c == '\u{2028}' || c
        == '\u{2029}' || c == '\u{202f}' || c == '\u{205f}' || c == '\u{3000}'
}

pub fn char_is_word(c: char) -> (b: bool)
    ensures
        b == is_word_char(c),
{
    if c <= '\u{7f}' {
        char_is_letter(c) || char_is_digit(c) || c == '_'
    } else {
        c.is_alphanumeric()
    }
}

pub fn char_is_special(c: char) -> (b: bool)
    ensures
        b == is_special(c),
{
    !char_is_letter(c) && !char_is_digit(c) && !char_is_space(c)
}

pub fn char_in_class(class: CharClass, c: char) -> (b: bool)
    ensures
        b == in_class(class, c),
{
    match class {
        CharClass::Capital => char_is_upper(c),
        CharClass::Special => char_is_special(c),
        CharClass::Digit => char_is_digit(c),
    }
}

/// Converts a count to the integer type of the feature columns.
pub fn count_to_i64(n: usize) -> (r: i64)
    ensures
        r == as_count(n as nat),
{
    let wide: u64 = n as u64;
    if wide > 0x7fff_ffff_ffff_ffffu64 {
        i64::MAX
    } else {
        wide as i64
    }
}

/// The characters of `s`, in order.
pub fn to_chars(s: &str) -> (cs: Vec<char>)
    ensures
        cs@ == s@,
{
    broadcast use vstd::string::group_string_axioms;

    let mut cs: Vec<char> = Vec::new();
    for c in it: s.chars()
        invariant
            it.seq() == s@,
            cs@ =~= s@.take(it.index()),
    {
        cs.push(c);
    }
    proof {
        assert(s@.take(s@.len() as int) =~= s@);
    }
    cs
}

/// The number of characters of `cs` that belong to `class`.
pub fn count_class(cs: &Vec<char>, class: CharClass) -> (n: usize)
    ensures
        n == count_in_class(cs@, class),
        n <= cs@.len(),
{
    let mut n: usize = 0;
    let mut i: usize = 0;
    while i < cs.len()
        invariant
            i <= cs.len(),
            n <= i,
            n == count_in_class(cs@.take(i as int), class),
        decreases cs.len() - i,
    {
        proof {
            assert(cs@.take(i + 1).drop_last() =~= cs@.take(i as int));
        }
        if char_in_class(class, cs[i]) {
            n = n + 1;
        }
        i = i + 1;
    }
    proof {
        assert(cs@.take(i as int) =~= cs@);
    }
    n
}

/// No class has more members in a text than the text has characters.
pub proof fn lemma_count_in_class_bounded(s: Seq<char>, class: CharClass)
    ensures
        count_in_class(s, class) <= s.len(),
    decreases s.len(),
{
    if s.len() > 0 {
        lemma_count_in_class_bounded(s.drop_last(), class);
    }
}

} // verus!
