//! Numerals: which runs of characters are integer or floating-point literals,
//! and what an integer literal is worth.

use vstd::prelude::*;

verus! {

/// Whether a character is one of the ten ASCII digits.
pub open spec fn is_digit(c: char) -> bool {
    '0' <= c <= '9'
}

/// The number that a digit stands for.
pub open spec fn digit_value(c: char) -> int {
    c as int - '0' as int
}

/// The number that a sequence of digits denotes in base ten.
pub open spec fn decimal_value(digits: Seq<char>) -> int
    decreases digits.len(),
{
    if digits.len() == 0 {
        0
    } else {
        decimal_value(digits.drop_last()) * 10 + digit_value(digits.last())
    }
}

/// Whether every character of a text is a digit.
pub open spec fn all_digits(text: Seq<char>) -> bool {
    forall|i: int| 0 <= i < text.len() ==> is_digit(#[trigger] text[i])
}

/// The value of an integer literal: the text is one or more digits, and the
/// number they denote fits a signed 64-bit integer.
pub open spec fn int_literal(text: Seq<char>) -> Option<i64> {
    if text.len() > 0 && all_digits(text) && decimal_value(text) <= i64::MAX {
        Some(decimal_value(text) as i64)
    } else {
        None
    }
}

/// Where the digits that start at `from` end.
pub open spec fn digits_end(text: Seq<char>, from: int) -> int
    decreases text.len() - from,
{
    if 0 <= from < text.len() && is_digit(text[from]) {
        digits_end(text, from + 1)
    } else {
        from
    }
}

/// Whether a text has the shape of a floating-point literal: one or more
/// digits, a point, any number of digits, and then either nothing or an
/// exponent, which is the letter `e`, at most one sign, and one or more
/// digits.
pub open spec fn float_shape(text: Seq<char>) -> bool {
    let point = digits_end(text, 0);
    let fraction_end = digits_end(text, point + 1);
    let exponent = if fraction_end + 1 < text.len() && (text[fraction_end + 1] == '+'
        || text[fraction_end + 1] == '-') {
        fraction_end + 2
    } else {
        fraction_end + 1
    };
    &&& 0 < point < text.len()
    &&& text[point] == '.'
    &&& fraction_end == text.len() || {
        &&& text[fraction_end] == 'e'
        &&& exponent < text.len()
        &&& digits_end(text, exponent) == text.len()
    }
}

/// A longer sequence of digits denotes at least as much as the sequence
/// without its last digit.
pub proof fn lemma_decimal_value_grows(digits: Seq<char>)
    requires
        digits.len() > 0,
        all_digits(digits),
    ensures
        0 <= decimal_value(digits.drop_last()) <= decimal_value(digits),
    decreases digits.len(),
{
    let front = digits.drop_last();
    assert(is_digit(digits[digits.len() - 1]));
    if front.len() > 0 {
        assert forall|i: int| 0 <= i < front.len() implies is_digit(#[trigger] front[i]) by {
            assert(front[i] == digits[i]);
        }
        lemma_decimal_value_grows(front);
    }
}

/// Whether a character is an ASCII digit.
pub fn is_ascii_digit(c: char) -> (digit: bool)
    ensures
        digit == is_digit(c),
{
    '0' <= c && c <= '9'
}

/// The value of the integer literal that the characters from `start` up to
/// `end` form, if they form one.
pub fn parse_int(chars: &Vec<char>, start: usize, end: usize) -> (value: Option<i64>)
    requires
        start <= end <= chars.len(),
    ensures
        value == int_literal(chars@.subrange(start as int, end as int)),
{
    let ghost text = chars@.subrange(start as int, end as int);
    if start == end {
        return None;
    }
    let mut value: i64 = 0;
    let mut index: usize = start;
    while index < end
        invariant
            start <= index <= end <= chars.len(),
            text == chars@.subrange(start as int, end as int),
            all_digits(text.take(index - start)),
            value == decimal_value(text.take(index - start)),
            0 <= value,
        decreases end - index,
    {
        let c = chars[index];
        let ghost prefix = text.take(index - start + 1);
        proof {
            assert(prefix.drop_last() =~= text.take(index - start));
            assert(prefix.last() == c);
        }
        if !is_ascii_digit(c) {
            proof {
                assert(text[index - start] == c);
            }
            return None;
        }
        let digit: i64 = (c as u32 - '0' as u32) as i64;
        if value > (i64::MAX - digit) / 10 {
            proof {
                lemma_prefix_value_bounds(text, index - start + 1);
            }
            return None;
        }
        value = value * 10 + digit;
        index += 1;
        proof {
            assert forall|i: int| 0 <= i < prefix.len() implies is_digit(#[trigger] prefix[i]) by {
                if i < prefix.len() - 1 {
                    assert(prefix[i] == text.take(index - start - 1)[i]);
                }
            }
        }
    }
    proof {
        assert(text.take(end - start) =~= text);
    }
    Some(value)
}

/// The digits of a prefix denote no more than the digits of the whole text.
pub proof fn lemma_prefix_value_bounds(text: Seq<char>, length: int)
    requires
        0 <= length <= text.len(),
        all_digits(text.take(length)),
    ensures
        all_digits(text) ==> decimal_value(text.take(length)) <= decimal_value(text),
    decreases text.len() - length,
{
    if all_digits(text) {
        if length == text.len() {
            assert(text.take(length) =~= text);
        } else {
            let longer = text.take(length + 1);
            assert forall|i: int| 0 <= i < longer.len() implies is_digit(#[trigger] longer[i]) by {
                assert(longer[i] == text[i]);
            }
            assert(longer.drop_last() =~= text.take(length));
            lemma_decimal_value_grows(longer);
            lemma_prefix_value_bounds(text, length + 1);
        }
    }
}

/// Where the digits that start at `from` end, among the characters before
/// `end`.
fn scan_digits(chars: &Vec<char>, start: usize, end: usize, from: usize) -> (stop: usize)
    requires
        start <= from <= end <= chars.len(),
    ensures
        from <= stop <= end,
        stop - start == digits_end(chars@.subrange(start as int, end as int), from - start),
{
    let ghost text = chars@.subrange(start as int, end as int);
    let mut stop: usize = from;
    while stop < end && is_ascii_digit(chars[stop])
        invariant
            start <= from <= stop <= end <= chars.len(),
            text == chars@.subrange(start as int, end as int),
            digits_end(text, from - start) == digits_end(text, stop - start),
        decreases end - stop,
    {
        proof {
            assert(text[stop - start] == chars@[stop as int]);
        }
        stop += 1;
    }
    proof {
        if stop < end {
            assert(text[stop - start] == chars@[stop as int]);
        }
    }
    stop
}

/// Whether the characters from `start` up to `end` have the shape of a
/// floating-point literal.
pub fn has_float_shape(chars: &Vec<char>, start: usize, end: usize) -> (shaped: bool)
    requires
        start <= end <= chars.len(),
    ensures
        shaped == float_shape(chars@.subrange(start as int, end as int)),
{
    let ghost text = chars@.subrange(start as int, end as int);
    let point = scan_digits(chars, start, end, start);
    if point == start || point >= end {
        return false;
    }
    proof {
        assert(text[point - start] == chars@[point as int]);
    }
    if chars[point] != '.' {
        return false;
    }
    let fraction_end = scan_digits(chars, start, end, point + 1);
    if fraction_end == end {
        return true;
    }
    proof {
        assert(text[fraction_end - start] == chars@[fraction_end as int]);
    }
    if chars[fraction_end] != 'e' {
        return false;
    }
    let mut exponent = fraction_end + 1;
    if exponent < end {
        proof {
            assert(text[exponent - start] == chars@[exponent as int]);
        }
        if chars[exponent] == '+' || chars[exponent] == '-' {
            exponent = exponent + 1;
        }
    }
    if exponent >= end {
        return false;
    }
    let exponent_end = scan_digits(chars, start, end, exponent);
    exponent_end == end
}

} // verus!
