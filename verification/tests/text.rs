use vx::text::{is_whitespace, lines, prefix_before_last, split_whitespace};

fn strs(v: &[&str]) -> Vec<String> {
    v.iter().map(|s| s.to_string()).collect()
}

#[test]
fn whitespace_matches_std() {
    for c in ['\t', '\n', '\u{b}', '\u{c}', '\r', ' ', '\u{85}', '\u{a0}', '\u{1680}', '\u{2000}',
        '\u{200a}', '\u{2028}', '\u{2029}', '\u{202f}', '\u{205f}', '\u{3000}', 'a', '-', '\u{200b}',
        '\u{1}', '\u{feff}', '\u{180e}']
    {
        assert_eq!(is_whitespace(c), c.is_whitespace(), "{:?}", c);
    }
}

#[test]
fn split_whitespace_drops_empty_pieces() {
    assert_eq!(split_whitespace("  [*]  foo-1.0_1\tdesc  "), strs(&["[*]", "foo-1.0_1", "desc"]));
    assert_eq!(split_whitespace(""), strs(&[]));
    assert_eq!(split_whitespace(" \t\n "), strs(&[]));
    assert_eq!(split_whitespace("one"), strs(&["one"]));
    assert_eq!(split_whitespace("a\u{3000}b"), strs(&["a", "b"]));
}

#[test]
fn split_whitespace_agrees_with_std() {
    for s in ["x  y z", " lead", "trail ", "\u{a0}nbsp\u{a0}", "a\r\nb", "ü ö"] {
        let expected: Vec<String> = s.split_whitespace().map(|w| w.to_string()).collect();
        assert_eq!(split_whitespace(s), expected);
    }
}

#[test]
fn lines_split_at_line_endings() {
    assert_eq!(lines("a\nb\n"), strs(&["a", "b"]));
    assert_eq!(lines("a\r\nb"), strs(&["a", "b"]));
    assert_eq!(lines(""), strs(&[]));
    assert_eq!(lines("\n"), strs(&[""]));
    assert_eq!(lines("a\n\nb"), strs(&["a", "", "b"]));
    assert_eq!(lines("\r\n"), strs(&[""]));
}

#[test]
fn lines_agree_with_std() {
    for s in ["x\ny", "x\r\ny\r\n", "\n\n", "single", "a\rb\nc"] {
        let expected: Vec<String> = s.lines().map(|l| l.to_string()).collect();
        assert_eq!(lines(s), expected);
    }
}

#[test]
fn prefix_before_last_dash() {
    assert_eq!(prefix_before_last("foo-bar-1.2.3_1", '-'), Some("foo-bar".to_string()));
    assert_eq!(prefix_before_last("nodash", '-'), None);
    assert_eq!(prefix_before_last("-x", '-'), Some(String::new()));
    assert_eq!(prefix_before_last("a-", '-'), Some("a".to_string()));
    assert_eq!(prefix_before_last("", '-'), None);
}
