use sparkle_mcp::text::{
    chars_of, contains, decimal, is_white_space, join, lines, replace, same_text, string_of, trim,
};

#[test]
fn chars_round_trip() {
    let chars = chars_of("h\u{e9}llo \u{1f504}");
    assert_eq!(chars, vec!['h', '\u{e9}', 'l', 'l', 'o', ' ', '\u{1f504}']);
    assert_eq!(string_of(&chars), "h\u{e9}llo \u{1f504}");
    assert_eq!(string_of(&Vec::new()), "");
}

#[test]
fn same_text_compares_characters() {
    assert!(same_text("current", "current"));
    assert!(!same_text("current", "Current"));
    assert!(!same_text("", "a"));
    assert!(same_text("", ""));
}

#[test]
fn contains_finds_a_part() {
    assert!(contains("## My Name\n*Brief: What", "*Brief:"));
    assert!(contains("*Brief:", "*Brief:"));
    assert!(!contains("*Brief", "*Brief:"));
    assert!(!contains("", "x"));
    assert!(contains("abc", ""));
    assert!(contains("", ""));
    assert!(contains("aab", "ab"));
}

#[test]
fn replace_takes_every_occurrence_from_the_left() {
    assert_eq!(replace("Hi [human.name], I am [ai.name].", "[human.name]", "Ada"), "Hi Ada, I am [ai.name].");
    assert_eq!(replace("aaa", "aa", "b"), "ba");
    assert_eq!(replace("aaaa", "aa", "b"), "bb");
    assert_eq!(replace("abcabc", "bc", ""), "aa");
    assert_eq!(replace("abc", "x", "y"), "abc");
    assert_eq!(replace("", "x", "y"), "");
    assert_eq!(replace("x", "x", "xx"), "xx");
}

#[test]
fn replace_agrees_with_std_on_plain_patterns() {
    let cases = [
        ("[ai.name] and [ai.name]", "[ai.name]", "Sparkle"),
        ("no placeholder", "[ai.name]", "Sparkle"),
        ("[[ai.name]]", "[ai.name]", "[ai.name]"),
        ("ababab", "aba", "-"),
    ];
    for (text, from, to) in cases {
        assert_eq!(replace(text, from, to), text.replace(from, to));
    }
}

#[test]
fn replace_with_an_empty_pattern_keeps_the_text() {
    assert_eq!(replace("abc", "", "-"), "abc");
}

#[test]
fn join_puts_the_separator_between_items() {
    let items = vec!["Rust".to_string(), "Go".to_string(), "C".to_string()];
    assert_eq!(join(&items, ", "), "Rust, Go, C");
    assert_eq!(join(&vec!["one".to_string()], ", "), "one");
    assert_eq!(join(&Vec::new(), ", "), "");
    assert_eq!(join(&vec!["".to_string(), "".to_string()], "/"), "/");
}

#[test]
fn trim_drops_white_space_at_both_ends() {
    assert_eq!(trim("  Nova \n"), "Nova");
    assert_eq!(trim("\t\u{a0}a b\u{3000}"), "a b");
    assert_eq!(trim("   "), "");
    assert_eq!(trim(""), "");
    assert_eq!(trim("x"), "x");
    for text in ["  a  b  ", "\n\r\n", "\u{2003}z\u{85}", "plain"] {
        assert_eq!(trim(text), text.trim());
    }
}

#[test]
fn lines_splits_at_line_feeds() {
    assert_eq!(lines("a\nb\r\nc"), vec!["a".to_string(), "b".to_string(), "c".to_string()]);
    assert_eq!(lines("a\n"), vec!["a".to_string()]);
    assert_eq!(lines("\n"), vec!["".to_string()]);
    assert_eq!(lines(""), Vec::<String>::new());
    assert_eq!(lines("a\n\nb"), vec!["a".to_string(), "".to_string(), "b".to_string()]);
    assert_eq!(lines("a\rb"), vec!["a\rb".to_string()]);
}

#[test]
fn lines_agrees_with_std() {
    for text in ["# Title\nbody\nmore\n", "one", "\r\n\r\n", "x\r", "a\r\r\nb", "\n\n\n", "tail\r\n"] {
        let expected: Vec<String> = text.lines().map(|l| l.to_string()).collect();
        assert_eq!(lines(text), expected);
    }
}

#[test]
fn decimal_writes_numbers() {
    assert_eq!(decimal(0), "0");
    assert_eq!(decimal(7), "7");
    assert_eq!(decimal(10), "10");
    assert_eq!(decimal(1234567890), "1234567890");
    assert_eq!(decimal(usize::MAX), usize::MAX.to_string());
}

#[test]
fn white_space_characters() {
    for c in [' ', '\n', '\u{a0}', '\t', '\r', '\u{3000}'] {
        assert!(is_white_space(c));
    }
    for c in ['a', '0', '_', '\u{8d8a}', '\u{200b}'] {
        assert!(!is_white_space(c));
    }
}
