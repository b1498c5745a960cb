use archive_scraper::text::{
    chars_of, contains, decimal_of, digit_of, find, is_space, last_segment_of, lines, matches_at,
    parse_usize, push_all, rfind_char, slice_chars, split_once, trim,
};

fn chars(s: &str) -> Vec<char> {
    s.chars().collect()
}

fn text(v: &[char]) -> String {
    v.iter().collect()
}

#[test]
fn chars_are_listed_in_order() {
    assert_eq!(chars_of("héllo"), vec!['h', 'é', 'l', 'l', 'o']);
    assert_eq!(chars_of(""), Vec::<char>::new());
}

#[test]
fn substring_search_finds_the_leftmost_place() {
    assert_eq!(find(&chars("abcabc"), &chars("bc")), Some(1));
    assert_eq!(find(&chars("abcabc"), &chars("cb")), None);
    assert_eq!(find(&chars("abc"), &chars("")), Some(0));
    assert_eq!(find(&chars(""), &chars("")), Some(0));
    assert_eq!(find(&chars(""), &chars("a")), None);
    assert_eq!(find(&chars("ab"), &chars("abc")), None);
    assert_eq!(find(&chars("aab"), &chars("ab")), Some(1));
    assert!(contains(&chars("https://youtube.com"), &chars("youtube.")));
    assert!(!contains(&chars("https://youtube"), &chars("youtube.")));
    assert!(matches_at(&chars("abc"), &chars("bc"), 1));
    assert!(!matches_at(&chars("abc"), &chars("bc"), 2));
    assert!(!matches_at(&chars("abc"), &chars("bc"), 7));
    assert!(matches_at(&chars("abc"), &chars(""), 3));
}

#[test]
fn last_segment_follows_the_last_separator() {
    assert_eq!(text(&last_segment_of(&chars("foo.bar.png"), '.')), "png");
    assert_eq!(text(&last_segment_of(&chars("nodot"), '.')), "nodot");
    assert_eq!(text(&last_segment_of(&chars("dot."), '.')), "");
    assert_eq!(text(&last_segment_of(&chars(""), '.')), "");
    assert_eq!(text(&last_segment_of(&chars(".hidden"), '.')), "hidden");
    assert_eq!(rfind_char(&chars("a.b.c"), '.'), Some(3));
    assert_eq!(rfind_char(&chars("abc"), '.'), None);
}

#[test]
fn numbers_are_written_in_decimal() {
    assert_eq!(text(&decimal_of(0)), "0");
    assert_eq!(text(&decimal_of(7)), "7");
    assert_eq!(text(&decimal_of(10)), "10");
    assert_eq!(text(&decimal_of(52)), "52");
    assert_eq!(text(&decimal_of(1_000_007)), "1000007");
    assert_eq!(text(&decimal_of(usize::MAX)), usize::MAX.to_string());
    assert_eq!(digit_of(0), '0');
    assert_eq!(digit_of(9), '9');
}

#[test]
fn numbers_are_read_from_decimal() {
    assert_eq!(parse_usize(&chars("0")), Some(0));
    assert_eq!(parse_usize(&chars("12")), Some(12));
    assert_eq!(parse_usize(&chars("+12")), Some(12));
    assert_eq!(parse_usize(&chars("0012")), Some(12));
    assert_eq!(parse_usize(&chars("")), None);
    assert_eq!(parse_usize(&chars("+")), None);
    assert_eq!(parse_usize(&chars("-1")), None);
    assert_eq!(parse_usize(&chars("1 ")), None);
    assert_eq!(parse_usize(&chars("++1")), None);
    assert_eq!(parse_usize(&chars("1a")), None);
    assert_eq!(parse_usize(&chars("١٢")), None);
    assert_eq!(parse_usize(&chars(&usize::MAX.to_string())), Some(usize::MAX));
    assert_eq!(parse_usize(&chars(&format!("{}0", usize::MAX))), None);
    assert_eq!(parse_usize(&chars("18446744073709551616")), "18446744073709551616".parse().ok());
    assert_eq!(parse_usize(&chars("99999999999999999999999999")), None);
}

#[test]
fn text_is_cut_into_lines() {
    let cut = |s: &str| lines(&chars(s)).iter().map(|line| text(line)).collect::<Vec<String>>();
    assert_eq!(cut("a\nb"), vec!["a", "b"]);
    assert_eq!(cut("a\nb\n"), vec!["a", "b"]);
    assert_eq!(cut("a\r\nb\r\n"), vec!["a", "b"]);
    assert_eq!(cut("a\n\nb"), vec!["a", "", "b"]);
    assert_eq!(cut("\n"), vec![""]);
    assert_eq!(cut(""), Vec::<String>::new());
    assert_eq!(cut("a\r"), vec!["a\r"]);
    assert_eq!(cut("a\r\r\nb"), vec!["a\r", "b"]);
    assert_eq!(cut("\r\n"), vec![""]);
    for sample in ["x", "x\n", "\n\n", "a\rb\nc", "one\r\ntwo\nthree\r", "\r", "a\n\r\n"] {
        assert_eq!(cut(sample), sample.lines().map(String::from).collect::<Vec<String>>());
    }
}

#[test]
fn text_is_split_at_the_first_separator() {
    let split = |s: &str, sep: &str| {
        split_once(&chars(s), &chars(sep)).map(|(before, after)| (text(&before), text(&after)))
    };
    assert_eq!(split("t-p: http://a: b", ": "), Some(("t-p".to_string(), "http://a: b".to_string())));
    assert_eq!(split("no separator", ": "), None);
    assert_eq!(split(": x", ": "), Some((String::new(), "x".to_string())));
    assert_eq!(split("x: ", ": "), Some(("x".to_string(), String::new())));
    assert_eq!(split("a-b-c", "-"), Some(("a".to_string(), "b-c".to_string())));
    assert_eq!(split("a:b", ": "), None);
}

#[test]
fn characters_are_copied_and_appended() {
    assert_eq!(slice_chars(&chars("abcdef"), 2, 4), chars("cd"));
    assert_eq!(slice_chars(&chars("abc"), 3, 3), chars(""));
    let mut joined = chars("ab");
    push_all(&mut joined, &chars("cd"));
    assert_eq!(joined, chars("abcd"));
    push_all(&mut joined, &chars(""));
    assert_eq!(joined, chars("abcd"));
}

#[test]
fn white_space_is_trimmed_from_both_ends() {
    let trimmed = |s: &str| text(&trim(&chars(s)));
    assert_eq!(trimmed("  a b  "), "a b");
    assert_eq!(trimmed("\t\n 12 \r\n"), "12");
    assert_eq!(trimmed(""), "");
    assert_eq!(trimmed(" \t "), "");
    assert_eq!(trimmed("x"), "x");
    assert_eq!(trimmed("\u{feff}x"), "\u{feff}x");
    for sample in [" a", "a ", "\u{a0}a\u{3000}", "\u{2000}\u{200a}a\u{2028}\u{2029}", "\u{200b}a\u{200b}", "\u{1680}\u{202f}\u{205f}\u{85}"] {
        assert_eq!(trimmed(sample), sample.trim());
    }
}

#[test]
fn white_space_is_what_std_takes_for_it() {
    let mut count = 0;
    for code in 0..=0x10FFFFu32 {
        if let Some(c) = char::from_u32(code) {
            assert_eq!(is_space(c), c.is_whitespace(), "U+{:04X}", code);
            if is_space(c) {
                count += 1;
            }
        }
    }
    assert_eq!(count, 25);
}
