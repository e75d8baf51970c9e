//! Reading a cell reference: a text that is either the key of a cell or its
//! decimal number.
//!
//! Whether a key or a number is of a cell is for the geospatial indexing
//! library to say. This module says which of the two a text is, and what
//! follows from the library's answer.

use vstd::prelude::*;
use crate::error::IndexError;
use crate::text::{parse_u64, unsigned_decimal};

verus! {

/// A character of a key: an ASCII digit or letter.
pub open spec fn is_key_char(c: char) -> bool {
    ('0' <= c <= '9') || ('A' <= c <= 'Z') || ('a' <= c <= 'z')
}

/// `s` has the form of a key: fifteen digits or letters, with or without
/// `0x` in front of them.
pub open spec fn is_key_form(s: Seq<char>) -> bool {
    ||| s.len() == 15 && forall|i: int| 0 <= i < 15 ==> is_key_char(#[trigger] s[i])
    ||| s.len() == 17 && s[0] == '0' && s[1] == 'x' && forall|i: int|
        2 <= i < 17 ==> is_key_char(#[trigger] s[i])
}

/// The pattern of a key.
pub open spec fn key_pattern() -> Seq<char> {
    "^(0x)?[0-9A-Za-z]{15}$"@
}

/// Calls `regex::Regex::new` on `pattern` and `regex::Regex::is_match` on
/// `text`. For the pattern of a key the crate's syntax reads: from the start
/// of the text an optional `0x`, then exactly fifteen characters out of
/// `0` to `9`, `A` to `Z` and `a` to `z`, then the end of the text. That
/// pattern compiles. The contract claims that the match is found on these
/// texts and on no others.
#[verifier::external_body]
fn matches_key_pattern(pattern: &str, text: &str) -> (found: bool)
    requires
        pattern@ == key_pattern(),
    ensures
        found == is_key_form(text@),
{
    match regex::Regex::new(pattern) {
        Ok(key) => key.is_match(text),
        Err(_) => false,
    }
}

/// What kind of cell reference a text is.
#[derive(Clone, Copy, Debug, PartialEq, Eq, Structural)]
pub enum IndexText {
    /// The text has the form of a key.
    Key,
    /// The text is not a key and is the decimal number `value`.
    Number { value: u64 },
    /// The text is neither.
    Unreadable,
}

/// The kind of cell reference that `s` is. A text of fifteen decimal digits
/// is a key.
pub open spec fn index_text_of(s: Seq<char>) -> IndexText {
    if is_key_form(s) {
        IndexText::Key
    } else {
        match unsigned_decimal(s) {
            Some(n) => IndexText::Number { value: n },
            None => IndexText::Unreadable,
        }
    }
}

/// Says what kind of cell reference `h3str` is, and so what to ask the
/// geospatial indexing library: to read a key, or to check a number.
pub fn index_text_form(h3str: &str) -> (form: IndexText)
    ensures
        form == index_text_of(h3str@),
{
    if matches_key_pattern("^(0x)?[0-9A-Za-z]{15}$", h3str) {
        IndexText::Key
    } else {
        match parse_u64(h3str) {
            Some(n) => IndexText::Number { value: n },
            None => IndexText::Unreadable,
        }
    }
}

/// The cell that `s` refers to, where `found` is the answer of the
/// geospatial indexing library: the cell it read from the key or accepted
/// the number as, or nothing where it refused.
pub open spec fn cell_of_text(s: Seq<char>, found: Option<u64>) -> Result<u64, IndexError> {
    match index_text_of(s) {
        IndexText::Key => match found {
            Some(cell) => Ok(cell),
            None => Err(IndexError::InvalidString),
        },
        IndexText::Number { value } => match found {
            Some(_) => Ok(value),
            None => Err(IndexError::InvalidIndex { value }),
        },
        IndexText::Unreadable => Err(IndexError::FailedConversion),
    }
}

/// Turns a cell reference into the cell, given the answer `found` of the
/// geospatial indexing library to what `index_text_form` says to ask.
pub fn str_to_h3(h3str: &String, found: Option<u64>) -> (r: Result<u64, IndexError>)
    ensures
        r == cell_of_text(h3str@, found),
{
    match index_text_form(h3str.as_str()) {
        IndexText::Key => match found {
            Some(cell) => Ok(cell),
            None => Err(IndexError::InvalidString),
        },
        IndexText::Number { value } => match found {
            Some(_) => Ok(value),
            None => Err(IndexError::InvalidIndex { value }),
        },
        IndexText::Unreadable => Err(IndexError::FailedConversion),
    }
}

} // verus!
