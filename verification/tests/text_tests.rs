use dev_cli::text::{
    char_is_whitespace, concat2, concat3, has_prefix, has_suffix, is_word, parse_count,
    push_decimal, same_text, split, split_lines, to_chars, to_lower, to_text, trim, trim_text,
};

fn chars(s: &str) -> Vec<char> {
    s.chars().collect()
}

fn strings(rows: &[Vec<char>]) -> Vec<String> {
    rows.iter().map(|r| r.iter().collect()).collect()
}

#[test]
fn to_chars_and_back() {
    let v = to_chars("héllo ✓");
    assert_eq!(v, chars("héllo ✓"));
    assert_eq!(to_text(&v), "héllo ✓");
    assert_eq!(to_text(&[]), "");
}

#[test]
fn to_text_appends_every_character() {
    assert_eq!(to_text(&['a', 'b', 'c']), "abc");
    assert_eq!(to_text(&['a', 'b', 'c']).len(), 3);
}

#[test]
fn same_text_compares_contents() {
    assert!(same_text("abc", "abc"));
    assert!(!same_text("abc", "abd"));
    assert!(!same_text("abc", "ab"));
    assert!(same_text("", ""));
}

#[test]
fn prefix_and_suffix() {
    assert!(has_prefix(&chars("worktree /a"), &chars("worktree ")));
    assert!(!has_prefix(&chars("worktree"), &chars("worktree ")));
    assert!(has_prefix(&chars("abc"), &chars("")));
    assert!(has_suffix(&chars("a.json"), &chars(".json")));
    assert!(!has_suffix(&chars("json"), &chars(".json")));
}

#[test]
fn whitespace_set() {
    for c in [' ', '\t', '\n', '\r', '\u{b}', '\u{c}', '\u{85}', '\u{a0}', '\u{1680}', '\u{2000}', '\u{200a}', '\u{2028}', '\u{2029}', '\u{202f}', '\u{205f}', '\u{3000}'] {
        assert!(char_is_whitespace(c), "{:?}", c);
    }
    for c in ['a', '0', '\u{200b}', '\u{8}', '\u{e}', '\u{1f}', '-'] {
        assert!(!char_is_whitespace(c), "{:?}", c);
    }
}

#[test]
fn whitespace_agrees_with_std_on_every_char() {
    let mut c = 0u32;
    while c <= 0x10FFFF {
        if let Some(ch) = char::from_u32(c) {
            assert_eq!(char_is_whitespace(ch), ch.is_whitespace(), "U+{:04X}", c);
        }
        c += 1;
    }
}

#[test]
fn trim_removes_both_ends() {
    assert_eq!(to_text(trim(&chars("  a b \n"))), "a b");
    assert_eq!(to_text(trim(&chars("\t\n "))), "");
    assert_eq!(to_text(trim(&chars(""))), "");
    assert_eq!(to_text(trim(&chars("x"))), "x");
    assert_eq!(trim_text(" \u{a0}main\r\n"), "main");
}

#[test]
fn split_keeps_empty_pieces() {
    assert_eq!(strings(&split(&chars("a\tb"), '\t')), vec!["a", "b"]);
    assert_eq!(strings(&split(&chars("a"), '\t')), vec!["a"]);
    assert_eq!(strings(&split(&chars(""), '\t')), vec![""]);
    assert_eq!(strings(&split(&chars("\ta\t\t"), '\t')), vec!["", "a", "", ""]);
}

#[test]
fn lines_follow_line_feeds() {
    assert_eq!(strings(&split_lines(&chars("a\nb\n"))), vec!["a", "b"]);
    assert_eq!(strings(&split_lines(&chars("a\nb"))), vec!["a", "b"]);
    assert_eq!(strings(&split_lines(&chars("a\r\nb\r\n"))), vec!["a", "b"]);
    assert_eq!(strings(&split_lines(&chars("a\n\nb"))), vec!["a", "", "b"]);
    assert_eq!(strings(&split_lines(&chars(""))), Vec::<String>::new());
    assert_eq!(strings(&split_lines(&chars("\n"))), vec![""]);
    assert_eq!(strings(&split_lines(&chars("a\r"))), vec!["a\r"]);
    assert_eq!(strings(&split_lines(&chars("a\r\r\n"))), vec!["a\r"]);
}

#[test]
fn lines_agree_with_std() {
    for text in ["", "\n", "a", "a\n", "a\nb", "a\r\nb\r\n", "\r\n\r\n", "x\n\n\ny", "tail\r", "\ra\n"] {
        let expected: Vec<String> = text.lines().map(|l| l.to_string()).collect();
        assert_eq!(strings(&split_lines(&chars(text))), expected, "{:?}", text);
    }
}

#[test]
fn parse_count_reads_unsigned_decimals() {
    assert_eq!(parse_count(&chars("0")), Some(0));
    assert_eq!(parse_count(&chars("42")), Some(42));
    assert_eq!(parse_count(&chars("+7")), Some(7));
    assert_eq!(parse_count(&chars("007")), Some(7));
    assert_eq!(parse_count(&chars("")), None);
    assert_eq!(parse_count(&chars("+")), None);
    assert_eq!(parse_count(&chars("-1")), None);
    assert_eq!(parse_count(&chars("1a")), None);
    assert_eq!(parse_count(&chars(" 1")), None);
    assert_eq!(parse_count(&chars("++1")), None);
}

#[test]
fn parse_count_at_the_limit() {
    let max = usize::MAX.to_string();
    assert_eq!(parse_count(&chars(&max)), Some(usize::MAX));
    let over = format!("{}0", max);
    assert_eq!(parse_count(&chars(&over)), None);
    let digits: Vec<char> = max.chars().collect();
    let mut plus_one = digits.clone();
    let last = plus_one.len() - 1;
    plus_one[last] = char::from_digit(digits[last].to_digit(10).unwrap() + 1, 10).unwrap();
    assert_eq!(parse_count(&plus_one), None);
}

#[test]
fn parse_count_agrees_with_std() {
    for text in ["0", "1", "10", "+3", "-3", "", "+", "12x", "99999999999999999999999", "0000", "١٢"] {
        assert_eq!(parse_count(&chars(text)), text.parse::<usize>().ok(), "{:?}", text);
    }
}

#[test]
fn push_decimal_writes_numbers() {
    for n in [0usize, 1, 9, 10, 11, 99, 100, 12345, usize::MAX] {
        let mut out = vec!['#'];
        push_decimal(&mut out, n);
        assert_eq!(to_text(&out), format!("#{}", n));
    }
}

#[test]
fn concat_joins_in_order() {
    assert_eq!(concat2("ab", "cd"), "abcd");
    assert_eq!(concat3("a", "", "c"), "ac");
}

#[test]
fn is_word_ignores_ascii_case() {
    assert!(is_word(&chars("ZSH"), "zsh"));
    assert!(is_word(&chars("zSh"), "zsh"));
    assert!(!is_word(&chars("zsh "), "zsh"));
    assert!(!is_word(&chars("zs"), "zsh"));
    assert!(!is_word(&chars("ZÉD"), "zéd"));
}

#[test]
fn lower_casing_agrees_with_std_on_the_letters_in_use() {
    let letters: Vec<char> = "zshbafiedcov".chars().collect();
    let mut c = 0u32;
    while c <= 0x10FFFF {
        if let Some(ch) = char::from_u32(c) {
            let lowered: String = ch.to_lowercase().collect();
            for letter in &letters {
                assert_eq!(
                    to_lower(ch) == *letter,
                    lowered == letter.to_string(),
                    "U+{:04X} against {:?}",
                    c,
                    letter
                );
            }
        }
        c += 1;
    }
}

#[test]
fn is_word_agrees_with_lower_casing_for_the_names_in_use() {
    for word in ["zsh", "bash", "fish", "zed", "code", "vscode"] {
        for text in [
            word.to_string(),
            word.to_uppercase(),
            format!(" {}", word),
            format!("{}x", word),
            word.replace('s', "\u{17f}"),
            word.replace('i', "\u{130}"),
            word.replace('c', "\u{421}"),
            word[1..].to_string(),
            String::new(),
        ] {
            let chars: Vec<char> = text.chars().collect();
            assert_eq!(is_word(&chars, word), text.to_lowercase() == word, "{:?}", text);
        }
    }
}
