use video_streaming::numeral::{format_decimal, format_hex, parse_unsigned, push_decimal, push_radix};
use video_streaming::text::{chars_of, lower_char, lower_chars_of, spells, starts_with};

#[test]
fn decimal_of_zero_is_a_single_digit() {
    assert_eq!(format_decimal(0), "0");
}

#[test]
fn decimal_of_small_and_large_numbers() {
    assert_eq!(format_decimal(7), "7");
    assert_eq!(format_decimal(10), "10");
    assert_eq!(format_decimal(1422), "1422");
    assert_eq!(format_decimal(u64::MAX), "18446744073709551615");
}

#[test]
fn decimal_agrees_with_the_standard_formatter() {
    for n in [0u64, 1, 9, 10, 99, 100, 999, 1000, 65535, 4294967296, u64::MAX - 1] {
        assert_eq!(format_decimal(n), format!("{}", n));
    }
}

#[test]
fn hex_is_lower_case_without_padding() {
    assert_eq!(format_hex(0), "0");
    assert_eq!(format_hex(15), "f");
    assert_eq!(format_hex(16), "10");
    assert_eq!(format_hex(255), "ff");
    assert_eq!(format_hex(0xdead_beef), "deadbeef");
    assert_eq!(format_hex(u64::MAX), "ffffffffffffffff");
}

#[test]
fn hex_agrees_with_the_standard_formatter() {
    for n in [0u64, 1, 9, 10, 15, 16, 0xabc, 0x1234_5678_9abc_def0, u64::MAX] {
        assert_eq!(format_hex(n), format!("{:x}", n));
    }
}

#[test]
fn numerals_are_appended_to_what_is_there() {
    let mut text = String::from("n=");
    push_decimal(&mut text, 305);
    text.push(';');
    push_radix(&mut text, 5, 2);
    assert_eq!(text, "n=305;101");
}

#[test]
fn unsigned_numerals_are_read_back() {
    let text = chars_of("x+0042y");
    assert_eq!(parse_unsigned(&text, 1, 6), Some(42));
    assert_eq!(parse_unsigned(&text, 2, 6), Some(42));
    assert_eq!(parse_unsigned(&text, 5, 6), Some(2));
}

#[test]
fn a_numeral_needs_a_digit() {
    let text = chars_of("x+0042y");
    assert_eq!(parse_unsigned(&text, 1, 2), None);
    assert_eq!(parse_unsigned(&text, 3, 3), None);
}

#[test]
fn a_numeral_holds_digits_only() {
    let text = chars_of("x+0042y");
    assert_eq!(parse_unsigned(&text, 0, 6), None);
    assert_eq!(parse_unsigned(&text, 2, 7), None);
    let signed = chars_of("-5");
    assert_eq!(parse_unsigned(&signed, 0, 2), None);
    let twice = chars_of("++5");
    assert_eq!(parse_unsigned(&twice, 0, 3), None);
    let spaced = chars_of(" 5");
    assert_eq!(parse_unsigned(&spaced, 0, 2), None);
}

#[test]
fn a_numeral_must_fit_sixty_four_bits() {
    let largest = chars_of("18446744073709551615");
    assert_eq!(parse_unsigned(&largest, 0, largest.len()), Some(u64::MAX));
    let too_large = chars_of("18446744073709551616");
    assert_eq!(parse_unsigned(&too_large, 0, too_large.len()), None);
    let far_too_large = chars_of("99999999999999999999999999");
    assert_eq!(parse_unsigned(&far_too_large, 0, far_too_large.len()), None);
}

#[test]
fn leading_zeros_do_not_count() {
    let padded = chars_of("000000000000000000000000000000000017");
    assert_eq!(parse_unsigned(&padded, 0, padded.len()), Some(17));
}

#[test]
fn reading_agrees_with_the_standard_parser() {
    for text in ["0", "+7", "12", "0012", "", "+", "-", "1a", "a1", "18446744073709551615", "18446744073709551616", "٣"] {
        let chars = chars_of(text);
        assert_eq!(parse_unsigned(&chars, 0, chars.len()), text.parse::<u64>().ok());
    }
}

#[test]
fn writing_then_reading_gives_the_number() {
    for n in [0u64, 1, 10, 999, 1000, 1 << 32, u64::MAX] {
        let chars = chars_of(&format_decimal(n));
        assert_eq!(parse_unsigned(&chars, 0, chars.len()), Some(n));
    }
}

#[test]
fn characters_are_taken_one_by_one() {
    assert_eq!(chars_of("aé😀"), vec!['a', 'é', '😀']);
    assert_eq!(chars_of(""), Vec::<char>::new());
}

#[test]
fn only_ascii_capitals_are_lowered() {
    assert_eq!(lower_char('A'), 'a');
    assert_eq!(lower_char('Z'), 'z');
    assert_eq!(lower_char('a'), 'a');
    assert_eq!(lower_char('@'), '@');
    assert_eq!(lower_char('['), '[');
    assert_eq!(lower_char('É'), 'É');
    assert_eq!(lower_chars_of("MkV4-É"), vec!['m', 'k', 'v', '4', '-', 'É']);
}

#[test]
fn spelling_is_exact() {
    let chars = chars_of("mpeg");
    assert!(spells(&chars, "mpeg"));
    assert!(!spells(&chars, "mpg"));
    assert!(!spells(&chars, "mpeg4"));
    assert!(!spells(&chars, "MPEG"));
    assert!(spells(&Vec::new(), ""));
}

#[test]
fn a_prefix_may_be_the_whole_text() {
    let chars = chars_of("bytes=");
    assert!(starts_with(&chars, "bytes="));
    assert!(starts_with(&chars, "bytes"));
    assert!(starts_with(&chars, ""));
    assert!(!starts_with(&chars, "bytes=0"));
    assert!(!starts_with(&chars, "Bytes"));
}
