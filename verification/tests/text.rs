use margo::listing::{has_toml_extension, str_le};
use margo::text::{
    chars_of, decimal_string, is_space, replace_all, split_at_char, split_lines,
    split_words, str_eq, substring, trimmed,
};
use std::path::Path;

/// Every string made of at most `max` pieces of the alphabet.
fn strings(alphabet: &[&str], max: usize) -> Vec<String> {
    let mut all = vec![String::new()];
    let mut last = vec![String::new()];
    for _ in 0..max {
        let mut next = Vec::new();
        for s in &last {
            for piece in alphabet {
                next.push(format!("{}{}", s, piece));
            }
        }
        all.extend(next.iter().cloned());
        last = next;
    }
    all
}

#[test]
fn whitespace_is_what_the_standard_library_says() {
    let mut code: u32 = 0;
    while code <= 0x10FFFF {
        if let Some(c) = char::from_u32(code) {
            assert_eq!(is_space(c), c.is_whitespace(), "U+{:04X}", code);
        }
        code += 1;
    }
}

#[test]
fn lines_are_what_the_standard_library_gives() {
    for s in strings(&["a", "\n", "\r", " "], 7) {
        let expected: Vec<&str> = s.lines().collect();
        assert_eq!(split_lines(&s), expected, "{:?}", s);
    }
    assert_eq!(split_lines("a\r\n\r\nb\r"), vec!["a", "", "b\r"]);
    assert_eq!(split_lines("é\n中"), vec!["é", "中"]);
}

#[test]
fn trimming_is_what_the_standard_library_gives() {
    for s in strings(&["a", "\n", "\t", " ", "\u{a0}", "\u{3000}"], 5) {
        assert_eq!(trimmed(&s), s.trim(), "{:?}", s);
    }
}

#[test]
fn words_are_what_the_standard_library_gives() {
    for s in strings(&["a", "b-", "\n", " ", "\u{2003}"], 6) {
        let expected: Vec<&str> = s.split_whitespace().collect();
        assert_eq!(split_words(&s), expected, "{:?}", s);
    }
}

#[test]
fn pieces_are_what_the_standard_library_gives() {
    for s in strings(&["a", ",", " ", ":"], 6) {
        let expected: Vec<&str> = s.split(',').collect();
        assert_eq!(split_at_char(&s, ','), expected, "{:?}", s);
    }
    assert_eq!(split_at_char("", ','), vec![""]);
    assert_eq!(split_at_char(",", ','), vec!["", ""]);
}

#[test]
fn replacing_is_what_the_standard_library_gives() {
    let patterns = strings(&["a", "b"], 3);
    for s in strings(&["a", "b"], 6) {
        for pat in &patterns {
            for with in ["", "x", "ab"] {
                assert_eq!(replace_all(&s, pat, with), s.replace(pat.as_str(), with), "{:?} {:?}", s, pat);
            }
        }
    }
    assert_eq!(replace_all("née_é", "é", "e"), "nee_e");
}

#[test]
fn order_is_what_the_standard_library_gives() {
    let all = strings(&["a", "b", "B", "é", "中", "😀", "\u{7f}"], 3);
    for a in &all {
        for b in &all {
            assert_eq!(str_le(a, b), a <= b, "{:?} {:?}", a, b);
        }
    }
}

#[test]
fn equality_is_what_the_standard_library_gives() {
    let all = strings(&["a", "é", " "], 3);
    for a in &all {
        for b in &all {
            assert_eq!(str_eq(a, b), a == b);
        }
    }
}

#[test]
fn toml_extension_is_what_paths_give() {
    for name in strings(&[".", "t", "o", "m", "l", "a"], 7) {
        let expected = Path::new(&name).extension().map(|e| e == "toml").unwrap_or(false);
        assert_eq!(has_toml_extension(&name), expected, "{:?}", name);
    }
}

#[test]
fn characters_and_substrings() {
    assert_eq!(chars_of("aé中😀"), vec!['a', 'é', '中', '😀']);
    assert!(chars_of("").is_empty());
    assert_eq!(substring("aé中😀", 1, 3), "é中");
    assert_eq!(substring("abc", 0, 0), "");
    assert_eq!(substring("abc", 0, 3), "abc");
    assert_eq!(margo::text::concat("ab", "cd"), "abcd");
    assert_eq!(margo::text::concat("", ""), "");
}

#[test]
fn numbers_are_written_in_decimal() {
    for n in [0usize, 1, 9, 10, 11, 99, 100, 101, 2026, 65535, 1_000_000, usize::MAX] {
        assert_eq!(decimal_string(n), n.to_string());
    }
}
