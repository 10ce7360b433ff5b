use you_should_not_pass_client::number::{i32_to_string, parse_i32_str};
use you_should_not_pass_client::text::{
    chars_of, contains_text, join_tabs, split_str, trim_end_str,
};

#[test]
fn parse_follows_the_decimal_grammar() {
    assert_eq!(parse_i32_str("0"), Some(0));
    assert_eq!(parse_i32_str("7"), Some(7));
    assert_eq!(parse_i32_str("+7"), Some(7));
    assert_eq!(parse_i32_str("-7"), Some(-7));
    assert_eq!(parse_i32_str("-0"), Some(0));
    assert_eq!(parse_i32_str("007"), Some(7));
    assert_eq!(parse_i32_str("2147483647"), Some(i32::MAX));
    assert_eq!(parse_i32_str("-2147483648"), Some(i32::MIN));
    assert_eq!(parse_i32_str("0000000000002147483647"), Some(i32::MAX));
    assert_eq!(parse_i32_str("2147483648"), None);
    assert_eq!(parse_i32_str("-2147483649"), None);
    assert_eq!(parse_i32_str("99999999999999999999999999"), None);
    assert_eq!(parse_i32_str(""), None);
    assert_eq!(parse_i32_str("+"), None);
    assert_eq!(parse_i32_str("-"), None);
    assert_eq!(parse_i32_str("+-1"), None);
    assert_eq!(parse_i32_str(" 1"), None);
    assert_eq!(parse_i32_str("1 "), None);
    assert_eq!(parse_i32_str("1_000"), None);
    assert_eq!(parse_i32_str("1.0"), None);
    assert_eq!(parse_i32_str("0x10"), None);
    assert_eq!(parse_i32_str("١"), None);
}

#[test]
fn parse_agrees_with_std() {
    for s in [
        "0", "-0", "+0", "12", "-12", "+12", "0012", "2147483647", "2147483648", "-2147483648",
        "-2147483649", "", "+", "-", "a", "1a", "a1", "--1", "++1", " 1", "1\n", "١٢", "１",
    ] {
        assert_eq!(parse_i32_str(s), s.parse::<i32>().ok(), "{:?}", s);
    }
}

#[test]
fn decimal_text_of_numbers() {
    assert_eq!(i32_to_string(0), "0");
    assert_eq!(i32_to_string(5), "5");
    assert_eq!(i32_to_string(10), "10");
    assert_eq!(i32_to_string(-1), "-1");
    assert_eq!(i32_to_string(1203), "1203");
    assert_eq!(i32_to_string(i32::MAX), "2147483647");
    assert_eq!(i32_to_string(i32::MIN), "-2147483648");
    for n in [0, 1, -1, 9, 10, 11, 99, 100, 101, -100, 65535, i32::MAX, i32::MIN, i32::MIN + 1] {
        assert_eq!(i32_to_string(n), n.to_string());
        assert_eq!(parse_i32_str(&i32_to_string(n)), Some(n));
    }
}

#[test]
fn split_cuts_at_every_separator() {
    assert_eq!(split_str("", '\t'), vec![""]);
    assert_eq!(split_str("a", '\t'), vec!["a"]);
    assert_eq!(split_str("a\tb", '\t'), vec!["a", "b"]);
    assert_eq!(split_str("a\t", '\t'), vec!["a", ""]);
    assert_eq!(split_str("\ta", '\t'), vec!["", "a"]);
    assert_eq!(split_str("\t", '\t'), vec!["", ""]);
    assert_eq!(split_str("\t\t", '\t'), vec!["", "", ""]);
    assert_eq!(split_str("ä\tö\tü", '\t'), vec!["ä", "ö", "ü"]);
    assert_eq!(split_str("a\tb\nc\td", '\n'), vec!["a\tb", "c\td"]);
    for s in ["", "x", "\n", "a\nb\n", "\n\nab\n\ncd", "鍵\n•"] {
        let expected: Vec<&str> = s.split('\n').collect();
        assert_eq!(split_str(s, '\n'), expected);
    }
}

#[test]
fn trim_drops_the_run_at_the_end_only() {
    assert_eq!(trim_end_str("", '\0'), "");
    assert_eq!(trim_end_str("\0", '\0'), "");
    assert_eq!(trim_end_str("\0\0\0", '\0'), "");
    assert_eq!(trim_end_str("a\0\0", '\0'), "a");
    assert_eq!(trim_end_str("\0a\0", '\0'), "\0a");
    assert_eq!(trim_end_str("a\0b", '\0'), "a\0b");
    assert_eq!(trim_end_str("ü\0", '\0'), "ü");
    assert_eq!(trim_end_str("abc", '\0'), "abc");
}

#[test]
fn join_puts_tabs_between() {
    assert_eq!(join_tabs(&Vec::new()), "");
    assert_eq!(join_tabs(&vec!["a".to_string()]), "a");
    assert_eq!(join_tabs(&vec![String::new()]), "");
    assert_eq!(join_tabs(&vec!["a".to_string(), "b".to_string()]), "a\tb");
    assert_eq!(join_tabs(&vec![String::new(), String::new(), String::new()]), "\t\t");
    let parts = vec!["x".to_string(), String::new(), "ÿz".to_string()];
    assert_eq!(split_str(&join_tabs(&parts), '\t'), vec!["x", "", "ÿz"]);
}

#[test]
fn chars_and_substrings() {
    assert_eq!(chars_of(""), Vec::<char>::new());
    assert_eq!(chars_of("aü鍵"), vec!['a', 'ü', '鍵']);
    let hay = chars_of("hello world");
    assert!(contains_text(&hay, &chars_of("")));
    assert!(contains_text(&hay, &chars_of("hello")));
    assert!(contains_text(&hay, &chars_of("world")));
    assert!(contains_text(&hay, &chars_of("o w")));
    assert!(contains_text(&hay, &chars_of("hello world")));
    assert!(!contains_text(&hay, &chars_of("hello world!")));
    assert!(!contains_text(&hay, &chars_of("worlds")));
    assert!(!contains_text(&hay, &chars_of("ow")));
    assert!(contains_text(&chars_of(""), &chars_of("")));
    assert!(!contains_text(&chars_of(""), &chars_of("a")));
    assert!(contains_text(&chars_of("aab"), &chars_of("ab")));
}
