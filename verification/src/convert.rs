//! The conversion itself: from a string of decimal digits to its Chinese
//! numeral.

use crate::accumulator::{append_digit, Accumulator, AccumulatorView};
use crate::decimal::{decimal_string, decimal_text, lemma_decimal_text_is_numeral};
use crate::numeral::{
    all_digits, chinese_numeral, digit_units, elide_leading_one, is_digit, is_numeral,
    lemma_write_one_more, trim_ones_unit, write_digits, ASCII_NINE, ASCII_ZERO,
};
use crate::units::{digit_pos_to_name, lemma_unit_at_is_unit};
use vstd::prelude::*;
use vstd::string::*;

verus! {

/// Whether `n` is a decimal number: not empty, ASCII digits only, and without
/// a leading `0` unless it is `0` itself.
pub fn is_decimal_number(n: &str) -> (ok: bool)
    ensures
        ok == is_numeral(n@),
{
    if !n.is_ascii() {
        return false;
    }
    proof {
        is_ascii_spec_bytes(n);
    }
    let bytes = n.as_bytes();
    let len: usize = bytes.len();
    if len == 0 {
        return false;
    }
    let mut i: usize = 0;
    while i < len
        invariant
            n.is_ascii(),
            bytes@ == n.spec_bytes(),
            len == n@.len(),
            i <= len,
            forall|j: int| 0 <= j < i ==> is_digit(#[trigger] n@[j]),
        decreases len - i,
    {
        let b: u8 = bytes[i];
        if b < ASCII_ZERO || b > ASCII_NINE {
            assert(!is_digit(n@[i as int]));
            return false;
        }
        i += 1;
    }
    len == 1 || bytes[0] != ASCII_ZERO
}

/// The state after all the digits of `n` have been appended, each with the
/// unit of its position.
pub fn write_number(n: &str) -> (acc: Accumulator)
    requires
        all_digits(n@),
    ensures
        acc@ == write_digits(AccumulatorView::start(), digit_units(n@)),
{
    proof {
        is_ascii_spec_bytes(n);
    }
    let bytes = n.as_bytes();
    let len: usize = bytes.len();
    let ghost pairs = digit_units(n@);
    let mut acc = Accumulator::new();
    let mut i: usize = 0;
    while i < len
        invariant
            n.is_ascii(),
            bytes@ == n.spec_bytes(),
            all_digits(n@),
            len == n@.len(),
            i <= len,
            pairs == digit_units(n@),
            acc.wf(),
            acc@ == write_digits(AccumulatorView::start(), pairs.take(i as int)),
        decreases len - i,
    {
        let b: u8 = bytes[i];
        assert(is_digit(n@[i as int]));
        let digit: usize = (b - ASCII_ZERO) as usize;
        let unit = digit_pos_to_name(len - 1 - i);
        proof {
            lemma_unit_at_is_unit((len - 1 - i) as nat);
            lemma_write_one_more(AccumulatorView::start(), pairs.take(i as int), pairs[i as int]);
            assert(pairs.take(i as int).push(pairs[i as int]) =~= pairs.take(i + 1));
            assert(pairs[i as int] == (digit as nat, unit));
        }
        acc = append_digit(acc, (digit, unit));
        i += 1;
    }
    assert(pairs.take(len as int) =~= pairs);
    acc
}

/// Takes from the written text what is not spoken: the unit 个 at its end,
/// and then the `一` of a leading `一十`.
pub fn finish(text: &str) -> (numeral: String)
    ensures
        numeral@ == elide_leading_one(trim_ones_unit(text@)),
{
    let len: usize = text.unicode_len();
    let end: usize = if len > 0 && text.get_char(len - 1) == '个' {
        len - 1
    } else {
        len
    };
    let start: usize = if end >= 2 && text.get_char(0) == '一' && text.get_char(1) == '十' {
        1
    } else {
        0
    };
    let numeral = text.substring_char(start, end).to_owned();
    proof {
        let trimmed = trim_ones_unit(text@);
        assert(trimmed =~= text@.subrange(0, end as int));
        assert(numeral@ =~= elide_leading_one(trimmed));
    }
    numeral
}

/// Writes the decimal number `n` in Chinese numerals.
///
/// The result is `None` exactly when `n` is not a decimal number: when it is
/// empty, holds a character that is not an ASCII digit, or has a leading `0`
/// before other digits.
pub fn to_chinese_num(n: &str) -> (numeral: Option<String>)
    ensures
        numeral is Some <==> is_numeral(n@),
        numeral matches Some(s) ==> s@ == chinese_numeral(n@),
{
    if !is_decimal_number(n) {
        return None;
    }
    proof {
        is_ascii_spec_bytes(n);
    }
    let bytes = n.as_bytes();
    if bytes.len() == 1 && bytes[0] == ASCII_ZERO {
        proof {
            reveal_strlit("零");
            assert(n@ =~= seq!['0']);
            assert("零"@ =~= seq!['零']);
        }
        return Some("零".to_owned());
    }
    let acc = write_number(n);
    assert(n@[0] != '0');
    assert(!(n@ =~= seq!['0']));
    Some(finish(acc.text.as_str()))
}

/// A value that can be written in Chinese numerals.
pub trait ToChineseNum {
    /// The decimal text that the value is converted from.
    spec fn decimal(&self) -> Seq<char>;

    /// Writes the value in Chinese numerals. The result is `None` exactly
    /// when its decimal text is not a decimal number.
    fn to_chinese_num(&self) -> (numeral: Option<String>)
        ensures
            numeral is Some <==> is_numeral(self.decimal()),
            numeral matches Some(s) ==> s@ == chinese_numeral(self.decimal()),
    ;
}

impl ToChineseNum for usize {
    open spec fn decimal(&self) -> Seq<char> {
        decimal_text(*self as nat)
    }

    /// Every `usize` has a numeral: the result is never `None`.
    fn to_chinese_num(&self) -> (numeral: Option<String>)
        ensures
            numeral is Some,
    {
        let text = decimal_string(*self);
        proof {
            lemma_decimal_text_is_numeral(*self as nat);
        }
        to_chinese_num(text.as_str())
    }
}

} // verus!
