//! Text as a sequence of characters: splitting, trimming and decimal numbers.

use vstd::prelude::*;
use vstd::string::*;

verus! {

/// The text before and after the last `separator`, or `None` where there is none.
pub open spec fn split_at_last(text: Seq<char>, separator: char) -> Option<(Seq<char>, Seq<char>)>
    decreases text.len(),
{
    if text.len() == 0 {
        None
    } else if text.last() == separator {
        Some((text.drop_last(), Seq::empty()))
    } else {
        match split_at_last(text.drop_last(), separator) {
            Some((before, after)) => Some((before, after.push(text.last()))),
            None => None,
        }
    }
}

/// What stands between `open` and `close` when the text starts with the one and ends with the
/// other.
pub open spec fn enclosed(text: Seq<char>, open: char, close: char) -> Option<Seq<char>> {
    if text.len() >= 2 && text.first() == open && text.last() == close {
        Some(text.subrange(1, text.len() - 1))
    } else {
        None
    }
}

/// Splitting loses nothing: the two halves joined by the separator are the text, and the second
/// half holds no separator.  There is a split exactly when the separator occurs.
pub proof fn split_at_last_rejoins(text: Seq<char>, separator: char)
    ensures
        split_at_last(text, separator) is Some <==> text.contains(separator),
        split_at_last(text, separator) matches Some((before, after)) ==> {
            &&& text == before + seq![separator] + after
            &&& !after.contains(separator)
        },
    decreases text.len(),
{
    if text.len() > 0 {
        let shorter = text.drop_last();
        split_at_last_rejoins(shorter, separator);
        assert(text == shorter.push(text.last()));
        if text.last() == separator {
            assert(text[text.len() - 1] == separator);
            assert(text == shorter + seq![separator] + Seq::<char>::empty());
        } else {
            assert forall|i: int| 0 <= i < text.len() && text[i] == separator implies 0 <= i
                < shorter.len() && shorter[i] == separator by {}
            assert(shorter.contains(separator) ==> text.contains(separator)) by {
                if shorter.contains(separator) {
                    let i = choose|i: int| 0 <= i < shorter.len() && shorter[i] == separator;
                    assert(text[i] == separator);
                }
            }
            assert(text.contains(separator) ==> shorter.contains(separator)) by {
                if text.contains(separator) {
                    let i = choose|i: int| 0 <= i < text.len() && text[i] == separator;
                    assert(shorter[i] == separator);
                }
            }
            if let Some((before, after)) = split_at_last(shorter, separator) {
                let longer = after.push(text.last());
                assert(text =~= before + seq![separator] + longer);
                assert forall|i: int| 0 <= i < longer.len() implies longer[i] != separator by {
                    if i < after.len() {
                        assert(longer[i] == after[i]);
                        assert(!after.contains(after[i]) || after[i] != separator);
                    }
                }
            }
        }
    }
}

/// Any way to write the text as two halves around a separator, with none left in the second
/// half, is the split.
pub proof fn split_at_last_is_unique(before: Seq<char>, separator: char, after: Seq<char>)
    requires
        !after.contains(separator),
    ensures
        split_at_last(before + seq![separator] + after, separator) == Some((before, after)),
    decreases after.len(),
{
    let text = before + seq![separator] + after;
    if after.len() == 0 {
        assert(text.drop_last() =~= before);
        assert(after =~= Seq::<char>::empty());
    } else {
        let shorter = after.drop_last();
        assert(after.contains(after.last()));
        assert forall|i: int| 0 <= i < shorter.len() implies shorter[i] != separator by {
            assert(after.contains(after[i]));
        }
        split_at_last_is_unique(before, separator, shorter);
        assert(text.drop_last() =~= before + seq![separator] + shorter);
        assert(shorter.push(after.last()) =~= after);
    }
}

/// Whether two texts hold the same characters.
pub fn same_text(left: &str, right: &str) -> (same: bool)
    ensures
        same == (left@ == right@),
{
    left.to_owned() == right.to_owned()
}

/// Splits `text` around its last `separator`.
pub fn rsplit_once<'a>(text: &'a str, separator: char) -> (halves: Option<(&'a str, &'a str)>)
    ensures
        match (halves, split_at_last(text@, separator)) {
            (Some((before, after)), Some(split)) => before@ == split.0 && after@ == split.1,
            (None, None) => true,
            _ => false,
        },
{
    let length: usize = text.unicode_len();
    let mut found: Option<usize> = None;
    let mut position: usize = 0;
    for letter in letters: text.chars()
        invariant
            length == text@.len(),
            letters.seq() == text@,
            position == letters.index(),
            match found {
                Some(at) => {
                    &&& at < position
                    &&& text@[at as int] == separator
                    &&& forall|i: int| at < i < position ==> text@[i] != separator
                },
                None => forall|i: int| 0 <= i < position ==> text@[i] != separator,
            },
    {
        if letter == separator {
            found = Some(position);
        }
        position = position + 1;
    }
    proof {
        split_at_last_rejoins(text@, separator);
    }
    match found {
        Some(at) => {
            let before = text.substring_char(0, at);
            let after = text.substring_char(at + 1, length);
            proof {
                assert(text@ =~= before@ + seq![separator] + after@);
                split_at_last_is_unique(before@, separator, after@);
            }
            Some((before, after))
        },
        None => None,
    }
}

/// The text between `open` and `close`, where they enclose it.
pub fn strip_enclosing<'a>(text: &'a str, open: char, close: char) -> (inner: Option<&'a str>)
    ensures
        match (inner, enclosed(text@, open, close)) {
            (Some(inner), Some(expected)) => inner@ == expected,
            (None, None) => true,
            _ => false,
        },
{
    let length: usize = text.unicode_len();
    if length >= 2 && text.get_char(0) == open && text.get_char(length - 1) == close {
        Some(text.substring_char(1, length - 1))
    } else {
        None
    }
}

/// The character that stands for a digit.
pub open spec fn digit(value: nat) -> char
    recommends
        value < 10,
{
    (48 + value) as char
}

pub open spec fn is_digit(letter: char) -> bool {
    '0' <= letter <= '9'
}

/// A number written in decimal, without leading zeros.
pub open spec fn decimal_text(number: nat) -> Seq<char>
    decreases number,
{
    if number < 10 {
        seq![digit(number)]
    } else {
        decimal_text(number / 10).push(digit(number % 10))
    }
}

/// The number that a row of digits stands for.
pub open spec fn decimal_value(digits: Seq<char>) -> nat
    decreases digits.len(),
{
    if digits.len() == 0 {
        0
    } else {
        (decimal_value(digits.drop_last()) * 10 + (digits.last() as nat - 48)) as nat
    }
}

pub open spec fn all_digits(text: Seq<char>) -> bool {
    forall|i: int| 0 <= i < text.len() ==> is_digit(#[trigger] text[i])
}

/// A number written in decimal is a non-empty row of digits that reads back as that number.
pub proof fn decimal_text_reads_back(number: nat)
    ensures
        decimal_text(number).len() > 0,
        all_digits(decimal_text(number)),
        decimal_value(decimal_text(number)) == number,
    decreases number,
{
    let text = decimal_text(number);
    reveal_with_fuel(decimal_value, 2);
    if number < 10 {
        assert(text.drop_last() =~= Seq::empty());
    } else {
        decimal_text_reads_back(number / 10);
        assert(text.drop_last() =~= decimal_text(number / 10));
        assert forall|i: int| 0 <= i < text.len() implies is_digit(#[trigger] text[i]) by {
            if i < text.len() - 1 {
                assert(text[i] == decimal_text(number / 10)[i]);
            }
        }
    }
}

/// The characters that Unicode gives the property White_Space.
pub open spec fn is_white_space(letter: char) -> bool {
    let code = letter as int;
    ||| 0x09 <= code <= 0x0d
    ||| code == 0x20
    ||| code == 0x85
    ||| code == 0xa0
    ||| code == 0x1680
    ||| 0x2000 <= code <= 0x200a
    ||| code == 0x2028
    ||| code == 0x2029
    ||| code == 0x202f
    ||| code == 0x205f
    ||| code == 0x3000
}

/// The text without the white space that it starts with.
pub open spec fn trimmed_start(text: Seq<char>) -> Seq<char>
    decreases text.len(),
{
    if text.len() > 0 && is_white_space(text.first()) {
        trimmed_start(text.drop_first())
    } else {
        text
    }
}

/// The text without the white space that it ends with.
pub open spec fn trimmed_end(text: Seq<char>) -> Seq<char>
    decreases text.len(),
{
    if text.len() > 0 && is_white_space(text.last()) {
        trimmed_end(text.drop_last())
    } else {
        text
    }
}

/// The text without the white space around it.
pub open spec fn trimmed(text: Seq<char>) -> Seq<char> {
    trimmed_end(trimmed_start(text))
}

fn digit_text(value: usize) -> (text: &'static str)
    requires
        value < 10,
    ensures
        text@ == seq![digit(value as nat)],
{
    proof {
        reveal_strlit("0");
        reveal_strlit("1");
        reveal_strlit("2");
        reveal_strlit("3");
        reveal_strlit("4");
        reveal_strlit("5");
        reveal_strlit("6");
        reveal_strlit("7");
        reveal_strlit("8");
        reveal_strlit("9");
    }
    match value {
        0 => "0",
        1 => "1",
        2 => "2",
        3 => "3",
        4 => "4",
        5 => "5",
        6 => "6",
        7 => "7",
        8 => "8",
        _ => "9",
    }
}

/// Writes a number in decimal.
pub fn decimal(number: usize) -> (text: String)
    ensures
        text@ == decimal_text(number as nat),
    decreases number,
{
    if number < 10 {
        digit_text(number).to_owned()
    } else {
        let mut text = decimal(number / 10);
        text.append(digit_text(number % 10));
        assert(text@ =~= decimal_text(number as nat));
        text
    }
}

/// What is enclosed is all that stands between the two characters: put back between them, it is the
/// text again, and nothing else is.
pub proof fn enclosed_text_goes_back_between(
    text: Seq<char>,
    open: char,
    close: char,
    inner: Seq<char>,
)
    ensures
        enclosed(text, open, close) == Some(inner) <==> text == seq![open] + inner + seq![close],
{
    if enclosed(text, open, close) == Some(inner) {
        assert(text =~= seq![open] + inner + seq![close]);
    }
    if text == seq![open] + inner + seq![close] {
        assert(text.subrange(1, text.len() - 1) =~= inner);
    }
}

/// A digit written behind a number makes ten times that number, and the digit.
pub proof fn digit_behind_a_number_counts_once(digits: Seq<char>, last: char)
    requires
        '0' <= last <= '9',
    ensures
        decimal_value(digits.push(last)) == 10 * decimal_value(digits) + (last as int - '0' as int),
        decimal_value(Seq::empty()) == 0,
        all_digits(digits.push(last)) <==> all_digits(digits),
{
    let longer = digits.push(last);
    assert(longer.drop_last() =~= digits);
    assert(is_digit(longer[digits.len() as int]));
    if all_digits(digits) {
        assert forall|i: int| 0 <= i < longer.len() implies is_digit(#[trigger] longer[i]) by {
            if i < digits.len() {
                assert(is_digit(digits[i]));
            }
        }
    }
    if all_digits(longer) {
        assert forall|i: int| 0 <= i < digits.len() implies is_digit(#[trigger] digits[i]) by {
            assert(is_digit(longer[i]));
        }
    }
}

/// The ten digits are those of ASCII, and a text consists of digits where each of its characters is
/// one of them.
pub proof fn digits_are_those_of_ascii(text: Seq<char>)
    ensures
        all_digits(text) <==> forall|i: int|
            0 <= i < text.len() ==> '0' <= #[trigger] text[i] <= '9',
{
    if all_digits(text) {
        assert forall|i: int| 0 <= i < text.len() implies '0' <= #[trigger] text[i] <= '9' by {
            assert(is_digit(text[i]));
        }
    }
}

/// A number is written without leading zeros, in digits of ASCII: a number below ten as its digit,
/// and every other as its tenth followed by one digit more.
pub proof fn decimal_text_has_no_leading_zero(number: nat)
    ensures
        decimal_text(number)[0] == '0' <==> number == 0,
        number < 10 ==> decimal_text(number) == seq![('0' as int + number) as char],
        number >= 10 ==> decimal_text(number) == decimal_text(number / 10).push(
            ('0' as int + number % 10) as char,
        ),
        forall|i: int|
            0 <= i < decimal_text(number).len() ==> '0' <= #[trigger] decimal_text(number)[i]
                <= '9',
    decreases number,
{
    decimal_text_reads_back(number);
    digits_are_those_of_ascii(decimal_text(number));
    if number >= 10 {
        decimal_text_has_no_leading_zero(number / 10);
        decimal_text_reads_back(number / 10);
        assert(decimal_text(number)[0] == decimal_text(number / 10)[0]);
    }
}

/// Among the characters of ASCII, white space is the space and what stands from the tab to the
/// carriage return; every character that is seen is none.
pub proof fn white_space_of_ascii(letter: char)
    requires
        letter as int <= 0x7f,
    ensures
        is_white_space(letter) <==> letter == ' ' || '\t' <= letter <= '\r',
{
}

proof fn leading_white_space_goes(before: Seq<char>, rest: Seq<char>)
    requires
        forall|i: int| 0 <= i < before.len() ==> is_white_space(#[trigger] before[i]),
    ensures
        trimmed_start(before + rest) == trimmed_start(rest),
    decreases before.len(),
{
    if before.len() == 0 {
        assert(before + rest =~= rest);
    } else {
        let shorter = before.drop_first();
        assert(is_white_space(before[0]));
        assert((before + rest).first() == before[0]);
        assert((before + rest).drop_first() =~= shorter + rest);
        assert forall|i: int| 0 <= i < shorter.len() implies is_white_space(
            #[trigger] shorter[i],
        ) by {
            assert(is_white_space(before[i + 1]));
        }
        leading_white_space_goes(shorter, rest);
    }
}

proof fn trailing_white_space_goes(rest: Seq<char>, after: Seq<char>)
    requires
        forall|i: int| 0 <= i < after.len() ==> is_white_space(#[trigger] after[i]),
    ensures
        trimmed_end(rest + after) == trimmed_end(rest),
    decreases after.len(),
{
    if after.len() == 0 {
        assert(rest + after =~= rest);
    } else {
        let shorter = after.drop_last();
        assert(is_white_space(after[after.len() - 1]));
        assert((rest + after).last() == after.last());
        assert((rest + after).drop_last() =~= rest + shorter);
        assert forall|i: int| 0 <= i < shorter.len() implies is_white_space(
            #[trigger] shorter[i],
        ) by {
            assert(is_white_space(after[i]));
        }
        trailing_white_space_goes(rest, shorter);
    }
}

/// Trimming takes off the white space at both ends, and nothing else: whatever white space is put
/// around a text that neither starts nor ends with any, that text is left.
pub proof fn trimming_leaves_what_white_space_surrounds(
    before: Seq<char>,
    inner: Seq<char>,
    after: Seq<char>,
)
    requires
        forall|i: int| 0 <= i < before.len() ==> is_white_space(#[trigger] before[i]),
        forall|i: int| 0 <= i < after.len() ==> is_white_space(#[trigger] after[i]),
        inner.len() > 0 ==> !is_white_space(inner.first()) && !is_white_space(inner.last()),
    ensures
        trimmed(before + inner + after) == inner,
{
    assert(before + inner + after =~= before + (inner + after));
    leading_white_space_goes(before, inner + after);
    if inner.len() > 0 {
        assert((inner + after).first() == inner.first());
        trailing_white_space_goes(inner, after);
    } else {
        assert(inner + after =~= after + inner);
        leading_white_space_goes(after, inner);
        assert(inner =~= Seq::empty());
    }
}

} // verus!
