//! Laws of the numerals: what holds of them for every input.

use crate::accumulator::AccumulatorView;
use crate::numeral::{
    chinese_numeral, digit_units, digit_value, elide_leading_one, full_text, is_digit,
    is_numeral, trim_ones_unit, write_digits,
};
use crate::units::digit_glyph;
use vstd::prelude::*;

verus! {

/// A lone digit from 1 to 9 is written as its glyph alone, without a unit.
pub proof fn lemma_single_digit(digit: char)
    requires
        '1' <= digit <= '9',
    ensures
        is_numeral(seq![digit]),
        chinese_numeral(seq![digit]) == seq![digit_glyph(digit_value(digit))],
{
    reveal_with_fuel(Seq::fold_left, 2);
    let pairs = digit_units(seq![digit]);
    assert(pairs.drop_last() =~= Seq::<(nat, char)>::empty());
    let written = write_digits(AccumulatorView::start(), pairs);
    assert(written.text =~= seq![digit_glyph(digit_value(digit)), '个']);
    assert(full_text(seq![digit]) =~= seq![digit_glyph(digit_value(digit))]);
}

/// The `零` that a non-zero digit writes before its glyph in `state`.
pub open spec fn zero_mark(state: AccumulatorView) -> Seq<char> {
    if state.pending_zero {
        seq!['零']
    } else {
        Seq::empty()
    }
}

/// Digits that begin with a non-zero digit are written the same after any
/// state: the text they add is the text they give on their own, preceded by
/// one `零` if zeros were pending, and they leave the same flag and last unit.
pub proof fn lemma_write_after_any_state(state: AccumulatorView, pairs: Seq<(nat, char)>)
    requires
        pairs.len() > 0,
        pairs[0].0 != 0,
    ensures
        write_digits(AccumulatorView::start(), pairs).text.len() >= 2,
        write_digits(state, pairs).text == state.text + zero_mark(state) + write_digits(
            AccumulatorView::start(),
            pairs,
        ).text,
        write_digits(state, pairs).pending_zero == write_digits(
            AccumulatorView::start(),
            pairs,
        ).pending_zero,
        write_digits(state, pairs).last_unit == write_digits(
            AccumulatorView::start(),
            pairs,
        ).last_unit,
    decreases pairs.len(),
{
    reveal_with_fuel(Seq::fold_left, 2);
    let fresh = write_digits(AccumulatorView::start(), pairs);
    let after = write_digits(state, pairs);
    if pairs.len() == 1 {
        assert(pairs.drop_last() =~= Seq::<(nat, char)>::empty());
        assert(after.text =~= state.text + zero_mark(state) + fresh.text);
    } else {
        let init = pairs.drop_last();
        lemma_write_after_any_state(state, init);
        let fresh_init = write_digits(AccumulatorView::start(), init);
        let after_init = write_digits(state, init);
        assert(fresh == fresh_init.append(pairs.last()));
        assert(after == after_init.append(pairs.last()));
        assert(after.text =~= state.text + zero_mark(state) + fresh.text);
    }
}

/// The numeral of a decimal number is never empty.
pub proof fn lemma_numeral_is_not_empty(digits: Seq<char>)
    requires
        is_numeral(digits),
    ensures
        chinese_numeral(digits).len() > 0,
{
    if digits.len() > 1 || digits[0] != '0' {
        lemma_write_after_any_state(AccumulatorView::start(), digit_units(digits));
    }
}

/// The pairs of `head + tail` are pairs for the digits of `head`, which
/// depend on the length of `tail`, followed by the pairs of `tail` alone; and
/// writing them all is writing the first and then the second.
pub proof fn lemma_write_in_two_parts(head: Seq<char>, tail: Seq<char>)
    ensures
        digit_units(head + tail).subrange(head.len() as int, (head + tail).len() as int)
            == digit_units(tail),
        write_digits(AccumulatorView::start(), digit_units(head + tail)) == write_digits(
            write_digits(
                AccumulatorView::start(),
                digit_units(head + tail).subrange(0, head.len() as int),
            ),
            digit_units(tail),
        ),
{
    let pairs = digit_units(head + tail);
    let split = head.len() as int;
    assert(pairs.subrange(split, pairs.len() as int) =~= digit_units(tail));
    pairs.lemma_fold_left_split(
        AccumulatorView::start(),
        |acc: AccumulatorView, pair: (nat, char)| acc.append(pair),
        split,
    );
}

/// Text that follows at least two other characters is still at the end once
/// the unit 个 is trimmed from the end and a leading `一` is elided, and so is
/// what is left of that text when it is trimmed and elided on its own.
pub proof fn lemma_end_survives(lead: Seq<char>, text: Seq<char>)
    requires
        lead.len() >= 2,
        text.len() > 0,
    ensures
        trim_ones_unit(text).is_suffix_of(elide_leading_one(trim_ones_unit(lead + text))),
        elide_leading_one(trim_ones_unit(text)).is_suffix_of(
            elide_leading_one(trim_ones_unit(lead + text)),
        ),
{
    let short = trim_ones_unit(text);
    let long = trim_ones_unit(lead + text);
    assert(long =~= lead + short);
    let end = elide_leading_one(long);
    assert(short =~= end.subrange(end.len() - short.len(), end.len() as int));
    let least = elide_leading_one(short);
    assert(least =~= end.subrange(end.len() - least.len(), end.len() as int));
}

/// Digits before a number do not change how the number itself is written:
/// if `tail` is a decimal number other than zero and `head + tail` is a
/// decimal number too, the numeral of `head + tail` ends with the numeral of
/// `tail`, and, where `head` is not empty, with that numeral before its
/// leading `一` was elided.
pub proof fn lemma_tail_is_kept(head: Seq<char>, tail: Seq<char>)
    requires
        is_numeral(tail),
        tail[0] != '0',
        is_numeral(head + tail),
    ensures
        chinese_numeral(tail).is_suffix_of(chinese_numeral(head + tail)),
        head.len() > 0 ==> full_text(tail).is_suffix_of(chinese_numeral(head + tail)),
{
    let whole = head + tail;
    if head.len() == 0 {
        assert(whole =~= tail);
    } else {
        let start = AccumulatorView::start();
        let head_pairs = digit_units(whole).subrange(0, head.len() as int);
        let tail_pairs = digit_units(tail);
        let before = write_digits(start, head_pairs);
        lemma_write_in_two_parts(head, tail);
        assert(head_pairs[0].0 != 0) by {
            assert(whole[0] == head[0]);
        }
        lemma_write_after_any_state(start, head_pairs);
        lemma_write_after_any_state(before, tail_pairs);
        let alone = write_digits(start, tail_pairs).text;
        let lead = before.text + zero_mark(before);
        assert(write_digits(start, digit_units(whole)).text =~= lead + alone);
        lemma_end_survives(lead, alone);
        assert(whole[0] != '0');
    }
}

/// Zeros put into a number above some of its digits leave those digits
/// written as they were: with or without the zeros between `head` and
/// `tail`, the numeral ends with what `tail` is written as on its own.
pub proof fn lemma_zeros_above_keep_tail(head: Seq<char>, zeros: Seq<char>, tail: Seq<char>)
    requires
        head.len() > 0,
        is_numeral(head + tail),
        forall|i: int| 0 <= i < zeros.len() ==> zeros[i] == '0',
        is_numeral(tail),
        tail[0] != '0',
    ensures
        is_numeral(head + zeros + tail),
        full_text(tail).is_suffix_of(chinese_numeral(head + tail)),
        full_text(tail).is_suffix_of(chinese_numeral(head + zeros + tail)),
{
    let wider = head + zeros + tail;
    assert(wider[0] == head[0]);
    assert((head + tail)[0] == head[0]);
    assert forall|i: int| 0 <= i < wider.len() implies is_digit(#[trigger] wider[i]) by {
        if i < head.len() {
            assert(wider[i] == (head + tail)[i]);
        } else if i < head.len() + zeros.len() {
            assert(wider[i] == zeros[i - head.len()]);
        } else {
            assert(wider[i] == tail[i - head.len() - zeros.len()]);
        }
    }
    lemma_tail_is_kept(head, tail);
    lemma_tail_is_kept(head + zeros, tail);
}

} // verus!
