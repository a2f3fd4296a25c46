//! The vocabulary of the numerals: the ten digit glyphs, the six unit
//! characters with their order, and the unit that belongs to each position of
//! a number.

use vstd::prelude::*;

verus! {

/// The glyph of a decimal digit: `零` for 0, `一` for 1, up to `九` for 9.
pub open spec fn digit_glyph(digit: nat) -> char
    recommends
        digit <= 9,
{
    seq!['零', '一', '二', '三', '四', '五', '六', '七', '八', '九'][digit as int]
}

/// Whether `c` is one of the six unit characters.
pub open spec fn is_unit(c: char) -> bool {
    c == '个' || c == '十' || c == '百' || c == '千' || c == '万' || c == '亿'
}

/// The place of a unit character in the order 个 < 十 < 百 < 千 < 万 < 亿.
pub open spec fn unit_rank(c: char) -> nat
    recommends
        is_unit(c),
{
    if c == '个' {
        0
    } else if c == '十' {
        1
    } else if c == '百' {
        2
    } else if c == '千' {
        3
    } else if c == '万' {
        4
    } else {
        5
    }
}

/// The unit inside a group of four positions: 个, 十, 百, 千.
pub open spec fn tens_name(index: nat) -> char
    recommends
        index < 4,
{
    seq!['个', '十', '百', '千'][index as int]
}

/// The unit of the digit at position `pos`, counted from 0 at the least
/// significant digit. Every eighth position carries 亿, every other fourth
/// one 万, and the positions between them repeat 十, 百, 千.
pub open spec fn unit_at(pos: nat) -> char {
    if pos == 0 {
        '个'
    } else if pos % 8 == 0 {
        '亿'
    } else if pos % 4 == 0 {
        '万'
    } else {
        tens_name(pos % 4)
    }
}

/// The unit of every position is one of the six unit characters.
pub proof fn lemma_unit_at_is_unit(pos: nat)
    ensures
        is_unit(unit_at(pos)),
{
}

/// The unit character of the digit at position `pos`.
pub fn digit_pos_to_name(pos: usize) -> (unit: char)
    ensures
        unit == unit_at(pos as nat),
{
    if pos == 0 {
        '个'
    } else if pos % 8 == 0 {
        '亿'
    } else if pos % 4 == 0 {
        '万'
    } else if pos % 4 == 1 {
        '十'
    } else if pos % 4 == 2 {
        '百'
    } else {
        '千'
    }
}

/// The glyph of the decimal digit `digit`.
pub fn glyph_of(digit: usize) -> (glyph: char)
    requires
        digit <= 9,
    ensures
        glyph == digit_glyph(digit as nat),
{
    if digit == 0 {
        '零'
    } else if digit == 1 {
        '一'
    } else if digit == 2 {
        '二'
    } else if digit == 3 {
        '三'
    } else if digit == 4 {
        '四'
    } else if digit == 5 {
        '五'
    } else if digit == 6 {
        '六'
    } else if digit == 7 {
        '七'
    } else if digit == 8 {
        '八'
    } else {
        '九'
    }
}

/// The place of the unit character `unit` in the order of the units.
pub fn rank_of(unit: char) -> (rank: u8)
    requires
        is_unit(unit),
    ensures
        rank == unit_rank(unit),
{
    if unit == '个' {
        0
    } else if unit == '十' {
        1
    } else if unit == '百' {
        2
    } else if unit == '千' {
        3
    } else if unit == '万' {
        4
    } else {
        5
    }
}

} // verus!
