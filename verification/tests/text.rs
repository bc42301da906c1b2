use prompalette_update::backup::has_database_extension;
use prompalette_update::text::{
    blank, chars_of, join, join3, contains, decimal, ends_with, is_white_space_char, same_text,
    starts_with,
};
use std::path::Path;

const SAMPLES: [&str; 14] = [
    "",
    "a",
    "dev",
    "staging",
    "pre-staging.1",
    "stagingstaging",
    "stagin",
    "network connection signature",
    "日本語のテキスト",
    "a\u{1F600}b",
    " \t\r\n",
    "\u{85}\u{a0}\u{1680}\u{2000}\u{200a}\u{2028}\u{2029}\u{202f}\u{205f}\u{3000}",
    "\u{200b}",
    "x y",
];

#[test]
fn characters_of_a_text() {
    for s in SAMPLES {
        let expected: Vec<char> = s.chars().collect();
        assert_eq!(chars_of(s), expected);
    }
}

#[test]
fn white_space_is_what_the_standard_library_trims() {
    let mut code: u32 = 0;
    while code <= 0x10FFFF {
        if let Some(c) = char::from_u32(code) {
            assert_eq!(is_white_space_char(c), c.is_whitespace(), "U+{:04X}", code);
        }
        code += 1;
    }
}

#[test]
fn blank_is_empty_after_trimming() {
    for s in SAMPLES {
        assert_eq!(blank(s), s.trim().is_empty(), "{:?}", s);
    }
    assert!(blank(""));
    assert!(blank("  "));
    assert!(!blank(" a "));
    assert!(!blank("\u{200b}"));
}

#[test]
fn substring_search_agrees_with_the_standard_library() {
    for hay in SAMPLES {
        for needle in SAMPLES {
            assert_eq!(contains(hay, needle), hay.contains(needle), "{:?} in {:?}", needle, hay);
            assert_eq!(starts_with(hay, needle), hay.starts_with(needle), "{:?} at {:?}", needle, hay);
            assert_eq!(ends_with(hay, needle), hay.ends_with(needle), "{:?} ends {:?}", needle, hay);
            assert_eq!(same_text(hay, needle), hay == needle);
        }
    }
    assert!(contains("abcabd", "abd"));
    assert!(contains("aab", "ab"));
    assert!(!contains("ab", "abc"));
    assert!(contains("", ""));
}

#[test]
fn decimal_digits() {
    assert_eq!(decimal(0), "0");
    assert_eq!(decimal(7), "7");
    assert_eq!(decimal(10), "10");
    assert_eq!(decimal(32), "32");
    assert_eq!(decimal(64), "64");
    assert_eq!(decimal(1_000_000), "1000000");
    assert_eq!(decimal(usize::MAX), usize::MAX.to_string());
    let mut n: usize = 1;
    while n < usize::MAX / 7 {
        assert_eq!(decimal(n), n.to_string());
        assert_eq!(decimal(n - 1), (n - 1).to_string());
        n *= 7;
    }
}

#[test]
fn texts_in_a_row() {
    assert_eq!(join("ab", "cd"), "abcd");
    assert_eq!(join("", ""), "");
    assert_eq!(join3("a", "", "b"), "ab");
    assert_eq!(join3("日本", "語", "!"), "日本語!");
}

#[test]
fn database_extension_is_the_path_extension() {
    let names = [
        "a.db", ".db", "..db", "db", "a.DB", "a.db.bak", "a.db.", "", "x.y.db", "日本語.db", "a b.db", "...db",
        "a.d", "adb", ".a.db",
    ];
    for name in names {
        let expected = Path::new(name).extension().map_or(false, |ext| ext == "db");
        assert_eq!(has_database_extension(name), expected, "{:?}", name);
    }
}
