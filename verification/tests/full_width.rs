use azookey::engine::full_width::{to_fullwidth, to_halfwidth};
use azookey::engine::text::{char_text, decimal_text};

#[test]
fn fullwidth_exclamation_mark() {
    assert_eq!(to_fullwidth("!"), "！");
}

#[test]
fn fullwidth_comma_is_ideographic() {
    assert_eq!(to_fullwidth(","), "、");
}

#[test]
fn fullwidth_letters_pass_through() {
    assert_eq!(to_fullwidth("a"), "a");
    assert_eq!(to_fullwidth("azAZ"), "azAZ");
}

#[test]
fn fullwidth_digits_pass_through() {
    assert_eq!(to_fullwidth("0123456789"), "0123456789");
}

#[test]
fn fullwidth_period_and_minus() {
    assert_eq!(to_fullwidth("."), "。");
    assert_eq!(to_fullwidth("-"), "ー");
}

#[test]
fn fullwidth_whole_table() {
    let half = "!\"#$%&'()*+,-./:;<=>?@[\\]^_`{|}~";
    let full = "！＂＃＄％＆＇（）＊＋、ー。／：；＜＝＞？＠［＼］＾＿｀｛｜｝～";
    assert_eq!(to_fullwidth(half), full);
    assert_eq!(half.chars().count(), 32);
}

#[test]
fn fullwidth_mixed_text_keeps_order() {
    assert_eq!(to_fullwidth("ka!n,a."), "ka！n、a。");
}

#[test]
fn fullwidth_empty_text() {
    assert_eq!(to_fullwidth(""), "");
}

#[test]
fn fullwidth_leaves_space_and_kana() {
    assert_eq!(to_fullwidth(" か\u{ff41}"), " か\u{ff41}");
}

#[test]
fn fullwidth_is_idempotent_on_its_output() {
    let once = to_fullwidth("(a+b)*c");
    assert_eq!(to_fullwidth(&once), once);
}

#[test]
fn halfwidth_small_letters() {
    assert_eq!(to_halfwidth("ａｂｃ"), "abc");
    assert_eq!(to_halfwidth("ｚ"), "z");
    assert_eq!(
        to_halfwidth("ａｂｃｄｅｆｇｈｉｊｋｌｍｎｏｐｑｒｓｔｕｖｗｘｙｚ"),
        "abcdefghijklmnopqrstuvwxyz"
    );
}

#[test]
fn halfwidth_leaves_capitals_and_digits() {
    assert_eq!(to_halfwidth("ＡＺ０９"), "ＡＺ０９");
}

#[test]
fn halfwidth_does_not_undo_punctuation() {
    assert_eq!(to_halfwidth("！、。ー"), "！、。ー");
    assert_eq!(to_halfwidth(&to_fullwidth("!")), "！");
}

#[test]
fn halfwidth_range_edges() {
    assert_eq!(to_halfwidth("\u{ff40}"), "\u{ff40}");
    assert_eq!(to_halfwidth("\u{ff41}"), "a");
    assert_eq!(to_halfwidth("\u{ff5a}"), "z");
    assert_eq!(to_halfwidth("\u{ff5b}"), "\u{ff5b}");
}

#[test]
fn halfwidth_plain_and_empty() {
    assert_eq!(to_halfwidth("abc"), "abc");
    assert_eq!(to_halfwidth(""), "");
}

#[test]
fn text_of_one_character() {
    assert_eq!(char_text('k'), "k");
    assert_eq!(char_text('あ'), "あ");
}

#[test]
fn text_of_a_number() {
    assert_eq!(decimal_text(0), "0");
    assert_eq!(decimal_text(7), "7");
    assert_eq!(decimal_text(9), "9");
    assert_eq!(decimal_text(10), "10");
    assert_eq!(decimal_text(42), "42");
    assert_eq!(decimal_text(100), "100");
    assert_eq!(decimal_text(105), "105");
    assert_eq!(decimal_text(255), "255");
}
