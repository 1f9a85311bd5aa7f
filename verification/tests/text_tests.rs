use rradio::text::{
    byte_length, i64_to_string, parse_i32, split_on_char, split_on_str, str_contains, trim_exec,
    u64_to_string,
};

#[test]
fn decimal_text_of_numbers() {
    assert_eq!(u64_to_string(0), "0");
    assert_eq!(u64_to_string(1234), "1234");
    assert_eq!(u64_to_string(u64::MAX), "18446744073709551615");
    assert_eq!(i64_to_string(-45), "-45");
    assert_eq!(i64_to_string(i64::MIN), "-9223372036854775808");
}

#[test]
fn trimming_removes_white_space_at_both_ends() {
    assert_eq!(trim_exec("  throttled=0x0\n"), "throttled=0x0");
    assert_eq!(trim_exec("\t\r\n "), "");
    assert_eq!(trim_exec("a b"), "a b");
}

#[test]
fn splitting_on_a_character_keeps_empty_pieces() {
    assert_eq!(split_on_char("a\nb\n", '\n'), vec!["a", "b", ""]);
    assert_eq!(split_on_char("", '\n'), vec![""]);
    assert_eq!(split_on_char("abc", '\n'), vec!["abc"]);
}

#[test]
fn splitting_on_a_pattern_matches_std() {
    let text = "head<item>one<item>two";
    let expected: Vec<String> = text.split("<item>").map(|s| s.to_string()).collect();
    assert_eq!(split_on_str(text, "<item>"), expected);
    assert_eq!(split_on_str("aaa", "aa"), vec!["", "a"]);
}

#[test]
fn parsing_i32_matches_std() {
    for text in ["42", "-17", "+5", "", "-", "12a", "2147483647", "2147483648", "-2147483648", "-2147483649", "007"] {
        assert_eq!(parse_i32(text), text.parse::<i32>().ok(), "text {text:?}");
    }
}

#[test]
fn byte_length_counts_utf8_bytes() {
    assert_eq!(byte_length("abc"), 3);
    assert_eq!(byte_length("é"), 2);
    assert!(str_contains("successfully activated with x", "activated"));
}
