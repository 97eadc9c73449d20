use mudae_sniper::text::{
    chars_of, contains_chars, decimal_string, eq_ignore_ascii_case, parse_separated_u64s, parse_u16,
    parse_u32, parse_u64, remove_separators, split_chars, split_lines,
};

#[test]
fn parse_u64_follows_std() {
    for s in ["0", "42", "+7", "", "+", "-1", " 1", "1 ", "007", "18446744073709551615", "18446744073709551616", "99999999999999999999999", "1a"] {
        assert_eq!(parse_u64(s), s.parse::<u64>().ok(), "{s:?}");
        assert_eq!(parse_u32(s), s.parse::<u32>().ok(), "{s:?}");
        assert_eq!(parse_u16(s), s.parse::<u16>().ok(), "{s:?}");
    }
    assert_eq!(parse_u32("4294967295"), Some(u32::MAX));
    assert_eq!(parse_u32("4294967296"), None);
    assert_eq!(parse_u16("65536"), None);
}

#[test]
fn decimal_string_round_trips() {
    for n in [0u64, 7, 10, 99, 100, 432610292342587392, u64::MAX] {
        let s = decimal_string(n);
        assert_eq!(s, n.to_string());
        assert_eq!(parse_u64(&s), Some(n));
    }
}

#[test]
fn split_lines_follows_std() {
    for s in ["", "a", "a\n", "a\nb", "a\r\nb\r\n", "a\rb\n", "\n\n", "x\r", "é\nü"] {
        let ours: Vec<&str> = split_lines(s);
        let theirs: Vec<&str> = s.lines().collect();
        assert_eq!(ours, theirs, "{s:?}");
    }
}

#[test]
fn split_chars_follows_std() {
    for s in ["", "a", "a,", ",a", "a,,b", "1,2,3"] {
        let ours: Vec<String> = split_chars(s, ',').into_iter().map(|v| v.into_iter().collect()).collect();
        let theirs: Vec<String> = s.split(',').map(|p| p.to_string()).collect();
        assert_eq!(ours, theirs, "{s:?}");
    }
}

#[test]
fn separated_ids_keep_numbers_only() {
    assert_eq!(parse_separated_u64s("1,2,,x,3,", ','), vec![1, 2, 3]);
    assert_eq!(parse_separated_u64s("", ','), Vec::<u64>::new());
    assert_eq!(parse_separated_u64s("10, 20", ','), vec![10]);
}

#[test]
fn ascii_case_and_search() {
    assert!(eq_ignore_ascii_case(&chars_of("BrOnZe"), "bronze"));
    assert!(!eq_ignore_ascii_case(&chars_of("bronz"), "bronze"));
    assert!(!eq_ignore_ascii_case(&chars_of("bronze "), "bronze"));
    assert!(contains_chars("you __can__ claim", "__"));
    assert!(!contains_chars("you can't claim", "__"));
    assert!(contains_chars("abc", ""));
    assert!(!contains_chars("a", "ab"));
    assert_eq!(remove_separators("1,234.5").into_iter().collect::<String>(), "12345");
}
