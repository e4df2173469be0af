use vibetree::text::{
    chars_of, contains_exec, find_exec, is_whitespace, split_lines, split_words, starts_with,
    str_equals, trim_chars, trim_end_chars, Trim,
};

fn strings(v: Vec<Vec<char>>) -> Vec<String> {
    v.into_iter().map(|l| l.into_iter().collect()).collect()
}

#[test]
fn lines_like_str_lines() {
    for s in ["", "a", "a\n", "a\nb", "a\r\nb\r\n", "\n\n", "x\ry\n", "a\n\r\n"] {
        let expected: Vec<String> = s.lines().map(|l| l.to_string()).collect();
        assert_eq!(strings(split_lines(&chars_of(s))), expected, "input {:?}", s);
    }
}

#[test]
fn lines_of_joined_text() {
    let a = "one\ntwo\n";
    let b = "three\nfour";
    let mut parts = strings(split_lines(&chars_of(a)));
    parts.extend(strings(split_lines(&chars_of(b))));
    assert_eq!(strings(split_lines(&chars_of(&format!("{}{}", a, b)))), parts);
}

#[test]
fn words_like_split_whitespace() {
    for s in ["", "  ", "a b", " a\t b \n c ", "x\u{3000}y"] {
        let expected: Vec<String> = s.split_whitespace().map(|w| w.to_string()).collect();
        assert_eq!(strings(split_words(&chars_of(s))), expected, "input {:?}", s);
    }
}

#[test]
fn whitespace_like_char_is_whitespace() {
    for c in ['\t', '\n', '\u{0B}', '\u{0C}', '\r', ' ', '\u{85}', '\u{A0}', '\u{2028}', '\u{3000}', 'a', '\0', '-'] {
        assert_eq!(is_whitespace(c), c.is_whitespace(), "char {:?}", c);
    }
}

#[test]
fn trimming() {
    let s = chars_of("  hi there \t");
    assert_eq!(trim_chars(&s, Trim::Whitespace).into_iter().collect::<String>(), "hi there");
    assert_eq!(trim_end_chars(&s, Trim::Whitespace).into_iter().collect::<String>(), "  hi there");
    let w = chars_of("(https://x.y/z),");
    assert_eq!(trim_chars(&w, Trim::UrlEdge).into_iter().collect::<String>(), "https://x.y/z");
    let p = chars_of("localhost:80/.");
    assert_eq!(trim_end_chars(&p, Trim::PortEdge).into_iter().collect::<String>(), "localhost:80");
}

#[test]
fn searching() {
    let s = chars_of("abcabc");
    assert_eq!(find_exec(&s, &chars_of("ca")), Some(2));
    assert_eq!(find_exec(&s, &chars_of("cb")), None);
    assert_eq!(find_exec(&s, &chars_of("")), Some(0));
    assert!(contains_exec(&s, &chars_of("bca")));
    assert!(starts_with(&s, &chars_of("ab")));
    assert!(!starts_with(&s, &chars_of("b")));
    assert!(str_equals("x", "x"));
    assert!(!str_equals("x", "y"));
}
