//! Reading the parts of a path: indices in decimal, and the marks that
//! count from an end of an array.
use vstd::prelude::*;
use vstd::string::*;

verus! {

/// The character is a decimal digit.
pub open spec fn is_digit(c: char) -> bool {
    '0' <= c <= '9'
}

/// The value of a decimal digit.
pub open spec fn digit_value(c: char) -> nat {
    (c as int - '0' as int) as nat
}

/// Every character of the text is a decimal digit.
pub open spec fn all_digits(text: Seq<char>) -> bool {
    forall|i: int| 0 <= i < text.len() ==> is_digit(#[trigger] text[i])
}

/// The number that a text of decimal digits writes.
pub open spec fn decimal_value(digits: Seq<char>) -> nat
    decreases digits.len(),
{
    if digits.len() == 0 {
        0
    } else {
        decimal_value(digits.drop_last()) * 10 + digit_value(digits.last())
    }
}

/// The digits of a text that writes an index: the text without a leading
/// plus sign.
pub open spec fn index_digits(text: Seq<char>) -> Seq<char> {
    if text.len() > 0 && text[0] == '+' {
        text.subrange(1, text.len() as int)
    } else {
        text
    }
}

/// The index that a text writes: decimal digits, at least one, maybe after
/// a plus sign, whose number is not beyond the greatest index.
pub open spec fn index_of_text(text: Seq<char>) -> Option<usize> {
    let digits = index_digits(text);
    if digits.len() > 0 && all_digits(digits) && decimal_value(digits) <= usize::MAX {
        Some(decimal_value(digits) as usize)
    } else {
        None
    }
}

/// A text without every occurrence of one character.
pub open spec fn without(text: Seq<char>, removed: char) -> Seq<char>
    decreases text.len(),
{
    if text.len() == 0 {
        Seq::empty()
    } else if text.last() == removed {
        without(text.drop_last(), removed)
    } else {
        without(text.drop_last(), removed).push(text.last())
    }
}

/// The text starts with this character.
pub open spec fn starts_with(text: Seq<char>, first: char) -> bool {
    text.len() > 0 && text[0] == first
}

/// How far from an end of an array a part with a mark points: the index
/// written after the mark, and 1 where none is written there.
pub open spec fn count_after_mark(part: Seq<char>, mark: char) -> usize {
    match index_of_text(without(part, mark)) {
        Some(count) => count,
        None => 1,
    }
}

/// The number that the first digits of a text write is not above the number
/// that all of them write.
pub proof fn lemma_decimal_value_grows(digits: Seq<char>, upto: int)
    requires
        0 <= upto <= digits.len(),
    ensures
        decimal_value(digits.subrange(0, upto)) <= decimal_value(digits),
    decreases digits.len() - upto,
{
    if upto == digits.len() {
        assert(digits.subrange(0, upto) == digits);
    } else {
        lemma_decimal_value_grows(digits, upto + 1);
        let longer = digits.subrange(0, upto + 1);
        assert(longer.drop_last() == digits.subrange(0, upto));
    }
}

/// Reads an index from a text.
pub fn parse_index(text: &str) -> (index: Option<usize>)
    ensures
        index == index_of_text(text@),
{
    let length = text.unicode_len();
    let start: usize = if length > 0 && text.get_char(0) == '+' {
        1
    } else {
        0
    };
    if start == length {
        return None;
    }
    let ghost digits = index_digits(text@);
    let mut value: usize = 0;
    let mut at: usize = start;
    while at < length
        invariant
            length == text@.len(),
            start <= at <= length,
            digits == index_digits(text@),
            digits.len() == length - start,
            forall|i: int| 0 <= i < digits.len() ==> digits[i] == text@[i + start],
            all_digits(digits.subrange(0, at - start)),
            value == decimal_value(digits.subrange(0, at - start)),
        decreases length - at,
    {
        let c = text.get_char(at);
        let ghost read = digits.subrange(0, at - start);
        let ghost more = digits.subrange(0, at - start + 1);
        proof {
            assert(more.drop_last() == read);
            assert(more.last() == c);
        }
        if c < '0' || c > '9' {
            return None;
        }
        let digit: usize = (c as u32 - '0' as u32) as usize;
        if value > (usize::MAX - digit) / 10 {
            proof {
                lemma_decimal_value_grows(digits, at - start + 1);
            }
            return None;
        }
        value = value * 10 + digit;
        proof {
            assert forall|i: int| 0 <= i < more.len() implies is_digit(#[trigger] more[i]) by {}
        }
        at += 1;
    }
    proof {
        assert(digits.subrange(0, at - start) == digits);
    }
    Some(value)
}

/// Tells whether a text starts with a character.
pub fn begins_with(text: &str, first: char) -> (begins: bool)
    ensures
        begins == starts_with(text@, first),
{
    text.unicode_len() > 0 && text.get_char(0) == first
}

/// Copies a text without every occurrence of one character.
pub fn remove_char(text: &str, removed: char) -> (kept: String)
    ensures
        kept@ == without(text@, removed),
{
    let length = text.unicode_len();
    let mut kept = String::new();
    let mut at: usize = 0;
    while at < length
        invariant
            length == text@.len(),
            at <= length,
            kept@ == without(text@.subrange(0, at as int), removed),
        decreases length - at,
    {
        let ghost more = text@.subrange(0, at + 1);
        proof {
            assert(more.drop_last() == text@.subrange(0, at as int));
        }
        if text.get_char(at) != removed {
            let piece = text.substring_char(at, at + 1);
            kept.append(piece);
        }
        at += 1;
    }
    proof {
        assert(text@.subrange(0, at as int) == text@);
    }
    kept
}

/// Reads how far from an end of an array a part with a mark points.
pub fn parse_count(part: &str, mark: char) -> (count: usize)
    ensures
        count == count_after_mark(part@, mark),
{
    let digits = remove_char(part, mark);
    match parse_index(digits.as_str()) {
        Some(count) => count,
        None => 1,
    }
}

} // verus!
