use sol_exec::amount::{format_amount, parse_amount, FRACTION_DIGITS, LAMPORTS_PER_SOL};
use sol_exec::numeral::is_digit_char;
use sol_exec::text::{chars_of, same_text};
use sol_exec::Error;

#[test]
fn parse_whole_sol() {
    assert_eq!(parse_amount("1"), Ok(1_000_000_000));
    assert_eq!(parse_amount("3"), Ok(3_000_000_000));
    assert_eq!(parse_amount("0"), Ok(0));
    assert_eq!(parse_amount("007"), Ok(7_000_000_000));
}

#[test]
fn parse_half_sol() {
    assert_eq!(parse_amount("0.5"), Ok(500_000_000));
    assert_eq!(parse_amount("1.5"), Ok(1_500_000_000));
    assert_eq!(parse_amount(".5"), Ok(500_000_000));
}

#[test]
fn parse_one_lamport() {
    assert_eq!(parse_amount("0.000000001"), Ok(1));
}

#[test]
fn parse_two_places() {
    assert_eq!(parse_amount("3.14"), Ok(3_140_000_000));
    assert_eq!(parse_amount("0.125"), Ok(125_000_000));
}

#[test]
fn parse_trailing_point() {
    assert_eq!(parse_amount("2."), Ok(2_000_000_000));
    assert_eq!(parse_amount("."), Ok(0));
}

#[test]
fn parse_more_than_one_point_fails() {
    assert_eq!(parse_amount("1.2.3"), Err(Error::InvalidAmount));
    assert_eq!(parse_amount("1..2"), Err(Error::InvalidAmount));
    assert_eq!(parse_amount(".."), Err(Error::InvalidAmount));
    assert_eq!(parse_amount("0.0.0.0"), Err(Error::InvalidAmount));
}

#[test]
fn parse_twenty_digit_whole_part_fails() {
    assert_eq!(parse_amount("10000000000000000000"), Err(Error::InvalidAmount));
    assert_eq!(parse_amount("99999999999999999999"), Err(Error::InvalidAmount));
    assert_eq!(parse_amount("99999999999999999999.5"), Err(Error::InvalidAmount));
    assert_eq!(parse_amount("12345678901234567890.000000001"), Err(Error::InvalidAmount));
}

#[test]
fn parse_at_the_edge_of_64_bits() {
    assert_eq!(parse_amount("18446744073.709551615"), Ok(u64::MAX));
    assert_eq!(parse_amount("18446744073.709551616"), Err(Error::InvalidAmount));
    assert_eq!(parse_amount("18446744073"), Ok(18_446_744_073_000_000_000));
    assert_eq!(parse_amount("18446744074"), Err(Error::InvalidAmount));
    assert_eq!(parse_amount("18446744074.0"), Err(Error::InvalidAmount));
}

#[test]
fn parse_counts_what_is_no_numeral_as_zero() {
    assert_eq!(parse_amount(""), Ok(0));
    assert_eq!(parse_amount("abc"), Ok(0));
    assert_eq!(parse_amount("-1"), Ok(0));
    assert_eq!(parse_amount(" 1"), Ok(0));
    assert_eq!(parse_amount("1 "), Ok(0));
    assert_eq!(parse_amount("+"), Ok(0));
    assert_eq!(parse_amount("1e3"), Ok(0));
    assert_eq!(parse_amount("x.5"), Ok(500_000_000));
    assert_eq!(parse_amount("1.x"), Ok(1_000_000_000));
    assert_eq!(parse_amount("1.5x"), Ok(1_000_000_000));
    assert_eq!(parse_amount("1,5"), Ok(0));
}

#[test]
fn parse_takes_a_plus_sign() {
    assert_eq!(parse_amount("+1"), Ok(1_000_000_000));
    assert_eq!(parse_amount("+2.25"), Ok(2_250_000_000));
    assert_eq!(parse_amount("1.+5"), Ok(1_050_000_000));
    assert_eq!(parse_amount("++1"), Ok(0));
}

#[test]
fn parse_drops_places_after_the_ninth() {
    assert_eq!(parse_amount("0.0000000019"), Ok(1));
    assert_eq!(parse_amount("1.1234567891"), Ok(1_123_456_789));
    assert_eq!(parse_amount("1.123456789x"), Ok(1_123_456_789));
    assert_eq!(parse_amount("0.9999999999999999999999"), Ok(999_999_999));
}

#[test]
fn parse_reads_characters_not_bytes() {
    assert_eq!(parse_amount("1.\u{e9}"), Ok(1_000_000_000));
    assert_eq!(parse_amount("0.12345678\u{e9}"), Ok(0));
    assert_eq!(parse_amount("0.123456789\u{e9}"), Ok(123_456_789));
    assert_eq!(parse_amount("\u{661}"), Ok(0));
}

#[test]
fn format_writes_all_nine_places() {
    assert_eq!(format_amount(0), "0.000000000");
    assert_eq!(format_amount(1), "0.000000001");
    assert_eq!(format_amount(500_000_000), "0.500000000");
    assert_eq!(format_amount(1_500_000_000), "1.500000000");
    assert_eq!(format_amount(3_140_000_000), "3.140000000");
    assert_eq!(format_amount(u64::MAX), "18446744073.709551615");
}

#[test]
fn format_then_parse_gives_the_amount() {
    let samples = [
        0u64,
        1,
        9,
        10,
        999_999_999,
        1_000_000_000,
        1_000_000_001,
        123_456_789_012,
        u64::MAX - 1,
        u64::MAX,
    ];
    for lamports in samples {
        assert_eq!(parse_amount(&format_amount(lamports)), Ok(lamports));
    }
}

#[test]
fn parse_is_stable_under_format() {
    let texts = ["1", "0.5", "3.14", "0.000000001", "+7.25", "12.", ".75", "junk", "1.0000000009"];
    for text in texts {
        let lamports = parse_amount(text).unwrap();
        assert_eq!(parse_amount(&format_amount(lamports)), Ok(lamports));
    }
}

#[test]
fn scale_is_the_ledgers() {
    assert_eq!(LAMPORTS_PER_SOL, solana_sdk::native_token::LAMPORTS_PER_SOL);
    assert_eq!(LAMPORTS_PER_SOL, 10u64.pow(FRACTION_DIGITS as u32));
}

#[test]
fn digits_are_the_ten_ascii_digits() {
    for c in ['0', '1', '5', '9'] {
        assert!(is_digit_char(c));
    }
    for c in ['/', ':', 'a', '.', '+', '-', ' ', '\u{661}'] {
        assert!(!is_digit_char(c));
    }
}

#[test]
fn chars_of_gives_every_character() {
    assert_eq!(chars_of(""), Vec::<char>::new());
    assert_eq!(chars_of("1.5"), vec!['1', '.', '5']);
    assert_eq!(chars_of("a\u{e9}b"), vec!['a', '\u{e9}', 'b']);
}

#[test]
fn same_text_compares_character_by_character() {
    assert!(same_text("json", "json"));
    assert!(same_text("", ""));
    assert!(!same_text("json", "JSON"));
    assert!(!same_text("json", "jso"));
    assert!(!same_text("jso", "json"));
    assert!(!same_text("json", "jsom"));
}
