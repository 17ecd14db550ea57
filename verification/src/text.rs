//! Strings as sequences of characters: the conversions between a `String` and
//! a vector of its characters, which the rest of the library indexes, and the
//! three functions of the standard library that are taken on trust.

use vstd::prelude::*;
use vstd::std_specs::iter::IteratorSpec;

verus! {

/// `String::push` appends the given character to the end of the string. This
/// is taken from its documentation, not proved.
pub assume_specification[ std::string::String::push ](s: &mut std::string::String, c: char)
    ensures
        final(s)@ == old(s)@.push(c),
;

/// Whether a character is numeric, as `char::is_numeric` decides it from the
/// Unicode tables.
pub uninterp spec fn is_numeric_char(c: char) -> bool;

/// Whether a character is alphanumeric, as `char::is_alphanumeric` decides it
/// from the Unicode tables.
pub uninterp spec fn is_alphanumeric_char(c: char) -> bool;

/// `char::is_numeric` tells whether the character has one of the general
/// categories for numbers. The contract names the answer and claims nothing
/// else of it.
pub assume_specification[ char::is_numeric ](c: char) -> (numeric: bool)
    ensures
        numeric == is_numeric_char(c),
;

/// `char::is_alphanumeric` tells whether the character is alphabetic or
/// numeric. The contract names the answer and claims nothing else of it.
pub assume_specification[ char::is_alphanumeric ](c: char) -> (alphanumeric: bool)
    ensures
        alphanumeric == is_alphanumeric_char(c),
;

/// The characters of a string, in order.
pub fn chars_of(text: &str) -> (chars: Vec<char>)
    ensures
        chars@ == text@,
{
    let mut chars: Vec<char> = Vec::new();
    for character in iter: text.chars()
        invariant
            iter.seq() == text@,
            chars@ == iter.seq().take(iter.index() as int),
    {
        chars.push(character);
    }
    chars
}

/// The string made of the characters from `start` up to `end`.
pub fn string_of(chars: &Vec<char>, start: usize, end: usize) -> (text: String)
    requires
        start <= end <= chars.len(),
    ensures
        text@ == chars@.subrange(start as int, end as int),
{
    let mut text = String::new();
    let mut index: usize = start;
    while index < end
        invariant
            start <= index <= end <= chars.len(),
            text@ == chars@.subrange(start as int, index as int),
        decreases end - index,
    {
        text.push(chars[index]);
        index += 1;
    }
    text
}

} // verus!
