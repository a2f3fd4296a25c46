use chinese_num::to_chinese_num;
use chinese_num::ToChineseNum;

#[test]
fn empty_number() {
    let s = to_chinese_num("");
    assert!(s.is_none());
}

#[test]
fn num_0() {
    let s = to_chinese_num("0").unwrap();
    assert_eq!(s, "零");
}

#[test]
fn num_1() {
    let s = to_chinese_num("1").unwrap();
    assert_eq!(s, "一");
}

#[test]
fn num_10() {
    let s = to_chinese_num("10").unwrap();
    assert_eq!(s, "十");
}

#[test]
fn num_12() {
    let s = to_chinese_num("12").unwrap();
    assert_eq!(s, "十二");
}

#[test]
fn num_20() {
    let s = to_chinese_num("20").unwrap();
    assert_eq!(s, "二十");
}

#[test]
fn num_121() {
    let s = to_chinese_num("121").unwrap();
    assert_eq!(s, "一百二十一");
}

#[test]
fn num_123000520() {
    let s = to_chinese_num("123000520").unwrap();
    assert_eq!(s, "一亿二千三百万零五百二十");
}

#[test]
fn num_1004000007000500() {
    let s = to_chinese_num("1004000007000500").unwrap();
    assert_eq!(s, "一千零四万亿零七百万零五百");
}

#[test]
fn num_of_forty_digits() {
    let s = to_chinese_num("1234070000123780000087006786520988800000").unwrap();
    assert_eq!(
        s,
        "一千二百三十四万零七百亿零一十二万三千七百八十亿零八千七百亿六千七百八十六万五千二百零九亿八千八百八十万"
    );
}

#[test]
fn letters_are_no_number() {
    assert!(to_chinese_num("abc").is_none());
    assert!(to_chinese_num("12a").is_none());
    assert!(to_chinese_num("a12").is_none());
    assert!(to_chinese_num("1 2").is_none());
    assert!(to_chinese_num("-5").is_none());
    assert!(to_chinese_num("+5").is_none());
    assert!(to_chinese_num("1.5").is_none());
    assert!(to_chinese_num(" ").is_none());
}

#[test]
fn characters_next_to_the_digits_are_no_digits() {
    assert!(to_chinese_num("/").is_none());
    assert!(to_chinese_num(":").is_none());
    assert!(to_chinese_num("1/").is_none());
    assert!(to_chinese_num("1:").is_none());
}

#[test]
fn chinese_text_is_no_number() {
    assert!(to_chinese_num("不是数字").is_none());
    assert!(to_chinese_num("一").is_none());
    assert!(to_chinese_num("1二").is_none());
}

#[test]
fn digits_of_other_scripts_are_no_number() {
    assert!(to_chinese_num("١٢").is_none());
    assert!(to_chinese_num("１２").is_none());
}

#[test]
fn leading_zero_is_no_number() {
    assert!(to_chinese_num("020").is_none());
    assert!(to_chinese_num("00").is_none());
    assert!(to_chinese_num("01").is_none());
    assert!(to_chinese_num("0000").is_none());
}

#[test]
fn every_string_is_a_number_or_has_no_numeral() {
    let samples = vec![
        "", "0", "7", "07", "70", "7x", "x", "1000", "九", "12345678901234567890", "0x10", "١",
    ];
    for s in samples {
        let all_digits = !s.is_empty() && s.chars().all(|c| ('0'..='9').contains(&c));
        let well_formed = all_digits && (s == "0" || !s.starts_with('0'));
        assert_eq!(to_chinese_num(s).is_some(), well_formed, "{}", s);
    }
}

#[test]
fn single_digits_are_bare_glyphs() {
    let glyphs = vec!["一", "二", "三", "四", "五", "六", "七", "八", "九"];
    let digits = vec!["1", "2", "3", "4", "5", "6", "7", "8", "9"];
    for i in 0..9 {
        assert_eq!(to_chinese_num(digits[i]).unwrap(), glyphs[i]);
    }
}

#[test]
fn ten_to_nineteen_drop_the_leading_one() {
    assert_eq!(to_chinese_num("11").unwrap(), "十一");
    assert_eq!(to_chinese_num("15").unwrap(), "十五");
    assert_eq!(to_chinese_num("19").unwrap(), "十九");
}

#[test]
fn leading_one_is_dropped_at_any_magnitude() {
    assert_eq!(to_chinese_num("100000").unwrap(), "十万");
    assert_eq!(to_chinese_num("120000").unwrap(), "十二万");
    assert_eq!(to_chinese_num("1000000000").unwrap(), "十亿");
}

#[test]
fn one_ten_inside_a_number_is_kept() {
    assert_eq!(to_chinese_num("110").unwrap(), "一百一十");
    assert_eq!(to_chinese_num("115").unwrap(), "一百一十五");
    assert_eq!(to_chinese_num("210010").unwrap(), "二十一万零一十");
}

#[test]
fn round_numbers() {
    assert_eq!(to_chinese_num("100").unwrap(), "一百");
    assert_eq!(to_chinese_num("1000").unwrap(), "一千");
    assert_eq!(to_chinese_num("10000").unwrap(), "一万");
    assert_eq!(to_chinese_num("1000000").unwrap(), "一百万");
    assert_eq!(to_chinese_num("100000000").unwrap(), "一亿");
    assert_eq!(to_chinese_num("10000000000000000").unwrap(), "一亿亿");
}

#[test]
fn zeros_between_digits_give_one_zero_glyph() {
    assert_eq!(to_chinese_num("101").unwrap(), "一百零一");
    assert_eq!(to_chinese_num("1001").unwrap(), "一千零一");
    assert_eq!(to_chinese_num("10001").unwrap(), "一万零一");
    assert_eq!(to_chinese_num("100000001").unwrap(), "一亿零一");
    assert_eq!(to_chinese_num("1010").unwrap(), "一千零一十");
}

#[test]
fn group_markers_are_written_for_empty_groups() {
    assert_eq!(to_chinese_num("1000000000000").unwrap(), "一万亿");
    assert_eq!(to_chinese_num("200000000").unwrap(), "二亿");
    assert_eq!(to_chinese_num("2000000000005").unwrap(), "二万亿零五");
}

#[test]
fn digits_above_keep_the_tail() {
    let tail = to_chinese_num("520").unwrap();
    assert_eq!(tail, "五百二十");
    for head in ["1", "30", "7000", "123000", "90000000", "4000000000000"] {
        let whole = to_chinese_num(&format!("{}520", head)).unwrap();
        assert!(whole.ends_with(&tail), "{} does not end with {}", whole, tail);
    }
}

#[test]
fn zeros_put_in_keep_the_tail() {
    assert_eq!(to_chinese_num("75").unwrap(), "七十五");
    assert_eq!(to_chinese_num("700005").unwrap(), "七十万零五");
    assert_eq!(to_chinese_num("7000000005").unwrap(), "七十亿零五");
    assert_eq!(to_chinese_num("315").unwrap(), "三百一十五");
    assert_eq!(to_chinese_num("3000015").unwrap(), "三百万零一十五");
    assert_eq!(to_chinese_num("30000000015").unwrap(), "三百亿零一十五");
}

#[test]
fn a_tail_of_zeros_is_not_kept() {
    assert_eq!(to_chinese_num("100000").unwrap(), "十万");
    assert_eq!(to_chinese_num("1000000000").unwrap(), "十亿");
}

#[test]
fn usize_20() {
    assert_eq!(20.to_chinese_num(), Some(String::from("二十")));
}

#[test]
fn usize_values() {
    assert_eq!(0usize.to_chinese_num(), Some(String::from("零")));
    assert_eq!(7usize.to_chinese_num(), Some(String::from("七")));
    assert_eq!(10usize.to_chinese_num(), Some(String::from("十")));
    assert_eq!(121usize.to_chinese_num(), Some(String::from("一百二十一")));
    assert_eq!(
        123000520usize.to_chinese_num(),
        Some(String::from("一亿二千三百万零五百二十"))
    );
    assert_eq!(65535usize.to_chinese_num(), Some(String::from("六万五千五百三十五")));
}

#[test]
fn usize_agrees_with_its_decimal_text() {
    let values = vec![0usize, 1, 9, 10, 99, 100, 1000, 10001, 4294967295, usize::MAX];
    for v in values {
        assert_eq!(v.to_chinese_num(), to_chinese_num(&v.to_string()));
    }
}
