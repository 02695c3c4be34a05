use cica::text::{
    chars_of, contains_str, find_char, find_char_from, find_str, is_space_char, matches_at,
    parse_decimal, push_decimal, split_lines, split_n, starts_with_str, string_of, trimmed,
    without_prefixes,
};
use cica::textmap::TextMap;

fn chars(s: &str) -> Vec<char> {
    s.chars().collect()
}

fn text(v: &[char]) -> String {
    v.iter().collect()
}

#[test]
fn strings_and_characters_convert_both_ways() {
    assert_eq!(chars_of("héllo"), chars("héllo"));
    assert_eq!(string_of(&chars("héllo")), "héllo");
    assert_eq!(string_of(&[]), "");
}

#[test]
fn whitespace_is_what_the_standard_library_says() {
    for code in 0u32..0x3100 {
        if let Some(c) = char::from_u32(code) {
            assert_eq!(is_space_char(c), c.is_whitespace(), "U+{:04X}", code);
        }
    }
    assert!(!is_space_char('\u{FEFF}'));
}

#[test]
fn trimming_agrees_with_the_standard_library() {
    for s in ["", " ", "a", "  a b  ", "\t\nx\r\n", "\u{a0}x\u{2003}", " \u{3000} ", "x  y"] {
        assert_eq!(text(&trimmed(&chars(s))), s.trim(), "{:?}", s);
    }
}

#[test]
fn splitting_agrees_with_the_standard_library() {
    for s in ["", "a", "a b", "a b c", "a  b", " a", "a ", "a b c d e f g", "  "] {
        for limit in 0usize..8 {
            let got: Vec<String> =
                split_n(&chars(s), ' ', limit).iter().map(|p| text(p)).collect();
            let want: Vec<String> = s.splitn(limit, ' ').map(|p| p.to_string()).collect();
            assert_eq!(got, want, "{:?} {}", s, limit);
        }
    }
    assert_eq!(find_char(&chars("abc"), 'c'), 2);
    assert_eq!(find_char(&chars("abc"), 'x'), 3);
}

#[test]
fn lines_agree_with_the_standard_library() {
    for s in ["", "a", "a\n", "a\nb", "a\r\nb\r\n", "\n", "\n\n", "a\r", "a\r\n", "\r\n", "a\n\nb", "a\rb\n", "\r"] {
        let got: Vec<String> = split_lines(&chars(s)).iter().map(|p| text(p)).collect();
        let want: Vec<String> = s.lines().map(|p| p.to_string()).collect();
        assert_eq!(got, want, "{:?}", s);
    }
}

#[test]
fn repeated_prefixes_are_removed() {
    for (s, p) in [("aaab", "a"), ("abab-x", "ab"), ("x", "ab"), ("", "a"), ("aaa", "aa"), ("abc", "")] {
        assert_eq!(
            text(&without_prefixes(&chars(s), &chars(p))),
            s.trim_start_matches(p),
            "{:?} {:?}",
            s,
            p
        );
    }
}

#[test]
fn searching_agrees_with_the_standard_library() {
    for (h, n) in [("hello", "ll"), ("hello", "lo"), ("hello", "hello"), ("hello", "helloo"), ("hello", ""), ("", ""), ("", "a"), ("aab", "ab"), ("abc", "ac")] {
        assert_eq!(contains_str(&chars(h), n), h.contains(n), "{:?} {:?}", h, n);
        assert_eq!(starts_with_str(&chars(h), n), h.starts_with(n), "{:?} {:?}", h, n);
    }
}

#[test]
fn numerals() {
    for n in [0u64, 1, 9, 10, 99, 100, 12345, u64::MAX] {
        let mut out = Vec::new();
        push_decimal(&mut out, n);
        assert_eq!(text(&out), n.to_string());
        assert_eq!(parse_decimal(&out), Some(n));
    }
    assert_eq!(parse_decimal(&chars("")), Some(0));
    assert_eq!(parse_decimal(&chars("0007")), Some(7));
    assert_eq!(parse_decimal(&chars("18446744073709551615")), Some(u64::MAX));
    assert_eq!(parse_decimal(&chars("18446744073709551616")), None);
    assert_eq!(parse_decimal(&chars("99999999999999999999999")), None);
    assert_eq!(parse_decimal(&chars("12a")), None);
    assert_eq!(parse_decimal(&chars("+5")), None);
    assert_eq!(parse_decimal(&chars("٣")), None);
}

#[test]
fn text_map() {
    let mut map: TextMap<u32> = TextMap::new();
    assert_eq!(map.len(), 0);
    assert_eq!(map.insert("a".to_string(), 1), None);
    assert_eq!(map.insert("b".to_string(), 2), None);
    assert_eq!(map.insert("a".to_string(), 3), Some(1));
    assert_eq!(map.len(), 2);
    assert_eq!(map.key_count(), 2);
    assert_eq!(map.get("a"), Some(&3));
    assert_eq!(map.get("c"), None);
    assert!(map.contains_key("b"));
    assert_eq!(map.position("b"), Some(1));
    assert_eq!(map.key_at(0), "a");
    assert_eq!(*map.value_at(1), 2);
    *map.get_mut("b").unwrap() += 10;
    *map.value_at_mut(0) += 1;
    assert_eq!(map.get("b"), Some(&12));
    assert_eq!(map.get("a"), Some(&4));
    assert_eq!(map.remove("a"), Some(4));
    assert_eq!(map.remove("a"), None);
    assert_eq!(map.len(), 1);
    assert_eq!(map.position("b"), Some(0));
}

#[test]
fn positions() {
    assert_eq!(find_char_from(&chars("a,b,c"), ',', 0), 1);
    assert_eq!(find_char_from(&chars("a,b,c"), ',', 2), 3);
    assert_eq!(find_char_from(&chars("a,b,c"), ',', 4), 5);
    assert_eq!(find_char_from(&chars("a,b,c"), ',', 9), 5);
    assert_eq!(find_str(&chars("a---b---"), "---"), Some(1));
    assert_eq!(find_str(&chars("---"), "---"), Some(0));
    assert_eq!(find_str(&chars("--"), "---"), None);
    assert_eq!(find_str(&chars("a-b-c"), "--"), None);
    assert_eq!(find_str(&chars("abc"), ""), Some(0));
    assert!(matches_at(&chars("hello"), &chars("llo"), 2));
    assert!(!matches_at(&chars("hello"), &chars("llo"), 3));
    assert!(!matches_at(&chars("hello"), &chars("llo"), 30));
    assert!(matches_at(&chars("hello"), &chars(""), 5));
    assert!(!matches_at(&chars("hello"), &chars(""), 6));
}
