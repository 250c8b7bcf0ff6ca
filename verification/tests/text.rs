use runner::text::{
    contains, decimal_string, is_space_char, join, matches_at, parse_usize, push_decimal,
    same_text, split_fields, split_lines, to_chars, trim,
};

fn chars(s: &str) -> Vec<char> {
    s.chars().collect()
}

fn strings(v: Vec<Vec<char>>) -> Vec<String> {
    v.into_iter().map(|l| l.into_iter().collect()).collect()
}

#[test]
fn to_chars_keeps_every_character() {
    assert_eq!(to_chars("a\u{e9}\u{4e2d}z"), vec!['a', '\u{e9}', '\u{4e2d}', 'z']);
    assert_eq!(to_chars(""), Vec::<char>::new());
}

#[test]
fn decimal_of_zero_and_of_the_largest_number() {
    assert_eq!(decimal_string(0), "0");
    assert_eq!(decimal_string(7), "7");
    assert_eq!(decimal_string(10), "10");
    assert_eq!(decimal_string(4096), "4096");
    assert_eq!(decimal_string(u64::MAX), "18446744073709551615");
}

#[test]
fn parse_usize_agrees_with_std() {
    for s in ["0", "7", "+7", "007", "", "+", "-1", "1a", " 1", "1 ", "++1", "18446744073709551615",
        "18446744073709551616", "99999999999999999999999", "+0"] {
        assert_eq!(parse_usize(&chars(s)), s.parse::<usize>().ok(), "for {:?}", s);
    }
}

#[test]
fn trim_agrees_with_std() {
    for s in ["", " ", "  a b  ", "\t\nx\r\n", "\u{a0}x\u{3000}", "x", "\u{85}\u{2003}ab\u{2028}"] {
        let t: String = trim(&chars(s)).into_iter().collect();
        assert_eq!(t, s.trim(), "for {:?}", s);
    }
}

#[test]
fn split_lines_agrees_with_std() {
    for s in ["", "a", "a\n", "a\nb", "a\r\nb\r\n", "foo\nbar\n\r\nbaz\r", "\n", "\n\n", "a\r", "\r\n",
        "a\n\nb"] {
        let expected: Vec<String> = s.lines().map(|l| l.to_string()).collect();
        assert_eq!(strings(split_lines(&chars(s))), expected, "for {:?}", s);
    }
}

#[test]
fn split_fields_agrees_with_std() {
    for s in ["", "a", "a:b", "a:", ":a", "::", "1:2:3", "start_pfn:  42"] {
        let expected: Vec<String> = s.split(':').map(|l| l.to_string()).collect();
        assert_eq!(strings(split_fields(&chars(s), ':')), expected, "for {:?}", s);
    }
}

#[test]
fn contains_agrees_with_std() {
    for (s, p) in [("", ""), ("abc", ""), ("abc", "bc"), ("abc", "abcd"), ("  start_pfn: 5", "start_pfn:"),
        ("start_pfn", "start_pfn:"), ("aab", "ab")] {
        assert_eq!(contains(&chars(s), &chars(p)), s.contains(p), "for {:?} in {:?}", p, s);
    }
}

#[test]
fn join_puts_the_separator_between() {
    let parts = vec!["a".to_string(), "".to_string(), "c".to_string()];
    assert_eq!(join(&parts, ","), "a,,c");
    assert_eq!(join(&Vec::new(), ","), "");
    assert_eq!(join(&vec!["x".to_string()], ", "), "x");
}

#[test]
fn white_space_is_what_std_calls_white_space() {
    for code in 0..=0x10FFFFu32 {
        if let Some(c) = char::from_u32(code) {
            assert_eq!(is_space_char(c), c.is_whitespace(), "for U+{:04X}", code);
        }
    }
}

#[test]
fn decimal_is_what_std_prints_and_parses_back() {
    for n in [0u64, 1, 9, 10, 11, 99, 100, 101, 4095, 4096, 65535, 1 << 32, u64::MAX - 1, u64::MAX] {
        assert_eq!(decimal_string(n), n.to_string());
        if n <= usize::MAX as u64 {
            assert_eq!(parse_usize(&chars(&decimal_string(n))), Some(n as usize));
        }
    }
    let mut s = "n=".to_string();
    push_decimal(&mut s, 42);
    push_decimal(&mut s, 0);
    assert_eq!(s, "n=420");
}

#[test]
fn matching_at_an_index() {
    let v = chars("abcabc");
    assert!(matches_at(&v, &chars("abc"), 0));
    assert!(matches_at(&v, &chars("abc"), 3));
    assert!(!matches_at(&v, &chars("abc"), 1));
    assert!(!matches_at(&v, &chars("abc"), 4));
    assert!(matches_at(&v, &chars(""), 6));
    assert!(!matches_at(&v, &chars(""), 7));
    assert!(!matches_at(&v, &chars("abcabca"), 0));
    assert!(!matches_at(&v, &chars("c"), usize::MAX));
}

#[test]
fn same_text_compares_every_character() {
    assert!(same_text(&chars(""), &chars("")));
    assert!(same_text(&chars("Node 1, zone   Normal"), &chars("Node 1, zone   Normal")));
    assert!(!same_text(&chars("Node 1, zone   Normal"), &chars("Node 1, zone  Normal")));
    assert!(!same_text(&chars("ab"), &chars("abc")));
    assert!(!same_text(&chars("abc"), &chars("ab")));
}
