//! Writes a non-negative decimal integer, given as a string of digits, in
//! Chinese numerals, with the units 十, 百, 千, 万 and 亿.
//!
//! `to_chinese_num("121")` is `一百二十一`, and
//! `to_chinese_num("1004000007000500")` is `一千零四万亿零七百万零五百`. A string
//! that is not a decimal number, or that has a leading zero, has no numeral:
//! `to_chinese_num("020")` is `None`.
//!
//! The numbers may be of any length: the units repeat with the position of
//! the digit, 万 every four positions and 亿 every eight.

pub mod accumulator;
pub mod convert;
pub mod decimal;
pub mod laws;
pub mod numeral;
pub mod std_string;
pub mod units;

pub use convert::{to_chinese_num, ToChineseNum};
