use listener_bot::text::decimal;
use listener_bot::text::digit_to_char;
use listener_bot::text::escape_markdown_v2;
use listener_bot::text::push_decimal;
use listener_bot::text::push_escaped;
use listener_bot::text::push_signed_decimal;
use listener_bot::text::push_text;
use listener_bot::text::special;

#[test]
fn digits_have_their_characters() {
    let digits: Vec<char> = (0u8..10).map(digit_to_char).collect();
    assert_eq!(digits, vec!['0', '1', '2', '3', '4', '5', '6', '7', '8', '9']);
}

#[test]
fn numbers_are_written_without_leading_zeros() {
    assert_eq!(decimal(0), "0");
    assert_eq!(decimal(7), "7");
    assert_eq!(decimal(10), "10");
    assert_eq!(decimal(5120), "5120");
    assert_eq!(decimal(1_000_000), "1000000");
    assert_eq!(decimal(u64::MAX), "18446744073709551615");
}

#[test]
fn numbers_are_appended_to_what_is_there() {
    let mut text = String::from("n=");
    push_decimal(&mut text, 42);
    assert_eq!(text, "n=42");
    push_text(&mut text, " мин");
    assert_eq!(text, "n=42 мин");
}

#[test]
fn negative_numbers_are_written_with_a_sign() {
    let mut text = String::new();
    push_signed_decimal(&mut text, -30);
    assert_eq!(text, "-30");
    let mut least = String::new();
    push_signed_decimal(&mut least, i64::MIN);
    assert_eq!(least, "-9223372036854775808");
    let mut most = String::new();
    push_signed_decimal(&mut most, i64::MAX);
    assert_eq!(most, "9223372036854775807");
    let mut zero = String::new();
    push_signed_decimal(&mut zero, 0);
    assert_eq!(zero, "0");
}

#[test]
fn the_special_characters_are_the_eighteen_of_the_markup() {
    let specials = "_*[]()~`>#+-=|{}.!";
    assert_eq!(specials.chars().count(), 18);
    for c in specials.chars() {
        assert!(special(c));
    }
    for c in "abc АБВ 019 \\ / , : ; ? @ \n \" ' < & % $ ^".chars() {
        assert!(!special(c));
    }
}

#[test]
fn every_special_character_gets_a_backslash() {
    assert_eq!(escape_markdown_v2(""), "");
    assert_eq!(escape_markdown_v2("Анна"), "Анна");
    assert_eq!(escape_markdown_v2("a.b"), "a\\.b");
    assert_eq!(escape_markdown_v2("1+1=2!"), "1\\+1\\=2\\!");
    assert_eq!(escape_markdown_v2("_*[]()~`>#+-=|{}.!"), "\\_\\*\\[\\]\\(\\)\\~\\`\\>\\#\\+\\-\\=\\|\\{\\}\\.\\!");
    assert_eq!(escape_markdown_v2("a\\b"), "a\\b");
    assert_eq!(escape_markdown_v2("⏳ Ожидает оплаты"), "⏳ Ожидает оплаты");
}

#[test]
fn escaping_appends_to_what_is_there() {
    let mut text = String::from("*");
    push_escaped(&mut text, "Dr. Who");
    push_text(&mut text, "*");
    assert_eq!(text, "*Dr\\. Who*");
}
