use shishabot::text::{
    parse_i32, parse_i64, parse_u32, parse_u64, push_signed_decimal, replace, rsplit_once,
    split_char, split_last, split_nth, split_whitespace, str_eq, to_ascii_lowercase,
    trim_end_matches, trim_start_matches, u64_to_string,
};

#[test]
fn decimal_text_of_numbers() {
    assert_eq!(u64_to_string(0), "0");
    assert_eq!(u64_to_string(1234567890), "1234567890");
    assert_eq!(u64_to_string(u64::MAX), "18446744073709551615");
    let mut s = String::from("x=");
    push_signed_decimal(&mut s, -12);
    assert_eq!(s, "x=-12");
    let mut t = String::new();
    push_signed_decimal(&mut t, i64::MIN);
    assert_eq!(t, "-9223372036854775808");
}

#[test]
fn unsigned_parsing_follows_from_str() {
    assert_eq!(parse_u64("42"), Some(42));
    assert_eq!(parse_u64("+7"), Some(7));
    assert_eq!(parse_u64("007"), Some(7));
    assert_eq!(parse_u64(""), None);
    assert_eq!(parse_u64("+"), None);
    assert_eq!(parse_u64("-1"), None);
    assert_eq!(parse_u64("4a"), None);
    assert_eq!(parse_u64(" 4"), None);
    assert_eq!(parse_u64("18446744073709551615"), Some(u64::MAX));
    assert_eq!(parse_u64("18446744073709551616"), None);
    assert_eq!(parse_u32("4294967295"), Some(u32::MAX));
    assert_eq!(parse_u32("4294967296"), None);
}

#[test]
fn signed_parsing_follows_from_str() {
    assert_eq!(parse_i32("-2147483648"), Some(i32::MIN));
    assert_eq!(parse_i32("2147483647"), Some(i32::MAX));
    assert_eq!(parse_i32("2147483648"), None);
    assert_eq!(parse_i32("+5"), Some(5));
    assert_eq!(parse_i32("-"), None);
    assert_eq!(parse_i64("-0"), Some(0));
    assert_eq!(parse_i64("-9223372036854775808"), Some(i64::MIN));
    assert_eq!(parse_i64("9223372036854775808"), None);
}

#[test]
fn splitting_on_a_character() {
    assert_eq!(split_char("a  b", ' '), vec!["a", "", "b"]);
    assert_eq!(split_char("", ','), vec![""]);
    assert_eq!(split_char("a,", ','), vec!["a", ""]);
    assert_eq!(
        split_nth("https://osu.ppy.sh/users/123/osu", '/', 4),
        Some("123".to_string())
    );
    assert_eq!(split_nth("a/b", '/', 2), None);
    assert_eq!(split_last("a\tb\tc", '\t'), "c");
    assert_eq!(split_last("abc", '\t'), "abc");
    assert_eq!(
        rsplit_once("a.b.c", '.'),
        Some(("a.b".to_string(), "c".to_string()))
    );
    assert_eq!(rsplit_once("abc", '.'), None);
}

#[test]
fn trimming_and_replacing() {
    assert_eq!(trim_start_matches("<t:<t:5", "<t:"), "5");
    assert_eq!(trim_end_matches("50%%", "%"), "50");
    assert_eq!(trim_end_matches("50", "%"), "50");
    assert_eq!(replace("a_b_c", "_", " "), "a b c");
    assert_eq!(replace("../Downloads/x.osr", "../Downloads/", ""), "x.osr");
    assert_eq!(replace("aaa", "aa", "b"), "ba");
}

#[test]
fn case_and_words() {
    assert_eq!(to_ascii_lowercase("AbC-ß"), "abc-ß");
    assert_eq!(split_whitespace("  a \t b\n"), vec!["a", "b"]);
    assert!(split_whitespace("   ").is_empty());
    assert!(str_eq("abc", "abc"));
    assert!(!str_eq("abc", "abd"));
}

#[test]
fn decimal_text_reads_back() {
    for n in [0u64, 7, 10, 99, 100, 4_294_967_295, u64::MAX] {
        assert_eq!(parse_u64(&u64_to_string(n)), Some(n));
        assert_eq!(parse_i64(&u64_to_string(n)), i64::try_from(n).ok());
    }
}

#[test]
fn empty_patterns_behave_as_std() {
    assert_eq!(trim_start_matches("abc", ""), "abc".trim_start_matches(""));
    assert_eq!(trim_end_matches("abc", ""), "abc".trim_end_matches(""));
    assert_eq!(replace("abc", "", "-"), "abc".replace("", "-"));
    assert_eq!(replace("abc", "", "-"), "-a-b-c-");
    assert_eq!(replace("", "", "xy"), "xy");
    assert_eq!(replace("ab", "", ""), "ab");
}
