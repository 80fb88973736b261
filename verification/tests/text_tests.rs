use ast_toolkit::text::{
    concat2, concat3, decimal_string, first_line_trimmed, join, parse_decimal_i32, signed_decimal_string,
    str_equal,
};

#[test]
fn strings_compare_by_their_characters() {
    assert!(str_equal("unwrap", "unwrap"));
    assert!(!str_equal("unwrap", "unwrap_or"));
    assert!(str_equal("", ""));
}

#[test]
fn concatenation_keeps_the_order() {
    assert_eq!(concat2("ab", "cd"), "abcd");
    assert_eq!(concat3("a", "b", "c"), "abc");
}

#[test]
fn decimal_notation_of_unsigned_numbers() {
    assert_eq!(decimal_string(0), "0");
    assert_eq!(decimal_string(7), "7");
    assert_eq!(decimal_string(21), "21");
    assert_eq!(decimal_string(1000), "1000");
    assert_eq!(decimal_string(u64::MAX), "18446744073709551615");
}

#[test]
fn decimal_notation_of_signed_numbers() {
    assert_eq!(signed_decimal_string(0), "0");
    assert_eq!(signed_decimal_string(200), "200");
    assert_eq!(signed_decimal_string(-5), "-5");
    assert_eq!(signed_decimal_string(i32::MAX), "2147483647");
    assert_eq!(signed_decimal_string(i32::MIN), "-2147483648");
}

#[test]
fn parse_reads_digits_with_an_optional_sign() {
    assert_eq!(parse_decimal_i32("5"), Some(5));
    assert_eq!(parse_decimal_i32("200"), Some(200));
    assert_eq!(parse_decimal_i32("+17"), Some(17));
    assert_eq!(parse_decimal_i32("-17"), Some(-17));
    assert_eq!(parse_decimal_i32("007"), Some(7));
    assert_eq!(parse_decimal_i32("-0"), Some(0));
}

#[test]
fn parse_keeps_to_the_range_of_the_type() {
    assert_eq!(parse_decimal_i32("2147483647"), Some(i32::MAX));
    assert_eq!(parse_decimal_i32("2147483648"), None);
    assert_eq!(parse_decimal_i32("-2147483648"), Some(i32::MIN));
    assert_eq!(parse_decimal_i32("-2147483649"), None);
    assert_eq!(parse_decimal_i32("99999999999999999999999999"), None);
}

#[test]
fn parse_refuses_what_is_no_number() {
    assert_eq!(parse_decimal_i32(""), None);
    assert_eq!(parse_decimal_i32("-"), None);
    assert_eq!(parse_decimal_i32("+"), None);
    assert_eq!(parse_decimal_i32("12a"), None);
    assert_eq!(parse_decimal_i32("1 2"), None);
    assert_eq!(parse_decimal_i32("--1"), None);
    assert_eq!(parse_decimal_i32("\u{664}\u{662}"), None);
    assert_eq!(parse_decimal_i32("4\u{e9}"), None);
}

#[test]
fn parse_agrees_with_the_standard_library() {
    for text in ["0", "-1", "+0", "2147483647", "-2147483648", "2147483648", "x", "", "1_0"] {
        assert_eq!(parse_decimal_i32(text), text.parse::<i32>().ok(), "{}", text);
    }
}

#[test]
fn join_puts_the_separator_between_neighbours() {
    let none: Vec<String> = vec![];
    assert_eq!(join(&none, ", "), "");
    assert_eq!(join(&vec!["a".to_string()], ", "), "a");
    assert_eq!(join(&vec!["a".to_string(), "b".to_string(), "c".to_string()], ", "), "a, b, c");
    assert_eq!(join(&vec!["".to_string(), "b".to_string()], "-"), "-b");
}

#[test]
fn first_line_is_cut_and_trimmed() {
    assert_eq!(first_line_trimmed("GNU gdb (GDB) 14.2\nCopyright (C) 2023\n"), "GNU gdb (GDB) 14.2");
    assert_eq!(first_line_trimmed("  lldb version 17.0.6 \t\r\nsecond"), "lldb version 17.0.6");
    assert_eq!(first_line_trimmed("single line"), "single line");
    assert_eq!(first_line_trimmed(" a b "), "a b");
}

#[test]
fn first_line_of_nothing_is_empty() {
    assert_eq!(first_line_trimmed(""), "");
    assert_eq!(first_line_trimmed("\nsecond"), "");
    assert_eq!(first_line_trimmed("   \t \nsecond"), "");
    assert_eq!(first_line_trimmed("\r\n"), "");
}

#[test]
fn first_line_agrees_with_the_standard_library() {
    let texts = [
        "",
        "x",
        " x ",
        "\u{a0}\u{2003}word\u{3000}\u{85}\nnext",
        "\u{1680}a\u{205f}b\u{202f}\u{2028}",
        "tab\there\u{b}\u{c}\nrest",
        "\u{200b}kept\u{200b}\n",
        "caf\u{e9} \r\n",
        "a\rb\nc",
    ];
    for text in texts {
        let expected = text.lines().next().unwrap_or("").trim().to_string();
        assert_eq!(first_line_trimmed(text), expected, "{:?}", text);
    }
}
