//! The state that is carried from digit to digit while a numeral is written,
//! and the rule by which one digit extends it.

use crate::units::{digit_glyph, glyph_of, is_unit, rank_of, unit_rank};
use vstd::prelude::*;

verus! {

/// The numeral written so far, with what the next digit needs to know.
pub struct Accumulator {
    /// The characters written so far.
    pub text: String,
    /// Whether zeros have been passed over since the last character was
    /// written, so that the next non-zero digit is preceded by one `零`.
    pub pending_zero: bool,
    /// The unit character that was written last.
    pub last_unit: char,
}

/// The mathematical value of an [`Accumulator`].
pub struct AccumulatorView {
    pub text: Seq<char>,
    pub pending_zero: bool,
    pub last_unit: char,
}

impl View for Accumulator {
    type V = AccumulatorView;

    open spec fn view(&self) -> AccumulatorView {
        AccumulatorView {
            text: self.text@,
            pending_zero: self.pending_zero,
            last_unit: self.last_unit,
        }
    }
}

impl AccumulatorView {
    /// The state before the first digit: nothing written, no zero pending,
    /// and the lowest unit as the last one.
    pub open spec fn start() -> AccumulatorView {
        AccumulatorView { text: Seq::empty(), pending_zero: false, last_unit: '个' }
    }

    /// The last unit is one of the six unit characters.
    pub open spec fn wf(self) -> bool {
        is_unit(self.last_unit)
    }

    /// The state after the digit `pair.0`, whose unit is `pair.1`.
    ///
    /// A zero below the last unit written is passed over and remembered. Any
    /// other zero writes its unit alone, which is how 万 and 亿 close a group
    /// whose digits are all zero. A non-zero digit writes one `零` if zeros
    /// were passed over, then its glyph and its unit.
    pub open spec fn append(self, pair: (nat, char)) -> AccumulatorView {
        let (digit, unit) = pair;
        if digit == 0 {
            if unit_rank(self.last_unit) > unit_rank(unit) {
                AccumulatorView { pending_zero: true, ..self }
            } else {
                AccumulatorView { text: self.text.push(unit), pending_zero: false, last_unit: unit }
            }
        } else {
            let text = if self.pending_zero {
                self.text.push('零')
            } else {
                self.text
            };
            AccumulatorView {
                text: text.push(digit_glyph(digit)).push(unit),
                pending_zero: false,
                last_unit: unit,
            }
        }
    }
}

impl Accumulator {
    /// Whether the accumulator is one that the conversion can reach.
    pub open spec fn wf(&self) -> bool {
        self@.wf()
    }

    /// The accumulator before the first digit.
    pub fn new() -> (acc: Accumulator)
        ensures
            acc@ == AccumulatorView::start(),
            acc.wf(),
    {
        Accumulator { text: String::new(), pending_zero: false, last_unit: '个' }
    }
}

/// Extends `result` by one digit and its unit, given as `pair`.
pub fn append_digit(result: Accumulator, pair: (usize, char)) -> (next: Accumulator)
    requires
        result.wf(),
        pair.0 <= 9,
        is_unit(pair.1),
    ensures
        next@ == result@.append((pair.0 as nat, pair.1)),
        next.wf(),
{
    let (digit, this_unit) = pair;
    let Accumulator { text: mut text, pending_zero, last_unit } = result;
    if digit == 0 {
        if rank_of(last_unit) > rank_of(this_unit) {
            Accumulator { text, pending_zero: true, last_unit }
        } else {
            text.push(this_unit);
            Accumulator { text, pending_zero: false, last_unit: this_unit }
        }
    } else {
        if pending_zero {
            text.push('零');
        }
        text.push(glyph_of(digit));
        text.push(this_unit);
        Accumulator { text, pending_zero: false, last_unit: this_unit }
    }
}

} // verus!
