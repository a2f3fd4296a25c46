//! What a numeral is: which strings of characters are decimal numbers, and
//! which Chinese text each of them is written as.

use crate::accumulator::AccumulatorView;
use crate::units::unit_at;
use vstd::prelude::*;

verus! {

/// The byte of the ASCII digit `0`.
pub const ASCII_ZERO: u8 = 48;

/// The byte of the ASCII digit `9`.
pub const ASCII_NINE: u8 = 57;

/// Whether `c` is one of the ASCII digits `0` to `9`.
pub open spec fn is_digit(c: char) -> bool {
    '0' <= c <= '9'
}

/// The number that the ASCII digit `c` stands for.
pub open spec fn digit_value(c: char) -> nat
    recommends
        is_digit(c),
{
    (c as int - '0' as int) as nat
}

/// Whether every character of `text` is an ASCII digit.
pub open spec fn all_digits(text: Seq<char>) -> bool {
    forall|i: int| 0 <= i < text.len() ==> is_digit(#[trigger] text[i])
}

/// Whether `text` is a decimal number: at least one character, ASCII digits
/// only, and no leading `0` except in the number `0` itself.
pub open spec fn is_numeral(text: Seq<char>) -> bool {
    &&& text.len() > 0
    &&& all_digits(text)
    &&& (text[0] == '0' ==> text.len() == 1)
}

/// Each digit of `digits` with the unit of its position, most significant
/// digit first. Positions count from 0 at the last digit.
pub open spec fn digit_units(digits: Seq<char>) -> Seq<(nat, char)> {
    Seq::new(
        digits.len(),
        |i: int| (digit_value(digits[i]), unit_at((digits.len() - 1 - i) as nat)),
    )
}

/// The state reached from `start` when the digits of `pairs` are appended
/// one after the other.
pub open spec fn write_digits(
    start: AccumulatorView,
    pairs: Seq<(nat, char)>,
) -> AccumulatorView {
    pairs.fold_left(start, |acc: AccumulatorView, pair: (nat, char)| acc.append(pair))
}

/// `text` without the unit 个 of the last position, which is never written
/// out at the end of a numeral.
pub open spec fn trim_ones_unit(text: Seq<char>) -> Seq<char> {
    if text.len() > 0 && text.last() == '个' {
        text.drop_last()
    } else {
        text
    }
}

/// `text` without its first character if it begins with `一十`: the numbers
/// from ten to nineteen are written `十`, `十一`, and so on. Only the very
/// beginning of the text is looked at.
pub open spec fn elide_leading_one(text: Seq<char>) -> Seq<char> {
    if text.len() >= 2 && text[0] == '一' && text[1] == '十' {
        text.subrange(1, text.len() as int)
    } else {
        text
    }
}

/// What the digits of `digits` are written as, one after the other from the
/// most significant, before a leading `一` is elided.
pub open spec fn full_text(digits: Seq<char>) -> Seq<char> {
    trim_ones_unit(write_digits(AccumulatorView::start(), digit_units(digits)).text)
}

/// The Chinese numeral of the decimal number `digits`.
///
/// Zero is `零`. Any other number is written digit by digit from the most
/// significant one, then loses a final 个 and a leading `一` before `十`.
pub open spec fn chinese_numeral(digits: Seq<char>) -> Seq<char>
    recommends
        is_numeral(digits),
{
    if digits =~= seq!['0'] {
        seq!['零']
    } else {
        elide_leading_one(full_text(digits))
    }
}

/// Appending the digits of `pairs` and then `pair` is one more step after
/// appending the digits of `pairs`.
pub proof fn lemma_write_one_more(
    start: AccumulatorView,
    pairs: Seq<(nat, char)>,
    pair: (nat, char),
)
    ensures
        write_digits(start, pairs.push(pair)) == write_digits(start, pairs).append(pair),
{
    assert(pairs.push(pair).drop_last() =~= pairs);
}

} // verus!
