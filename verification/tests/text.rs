use container_runtime::text::{
    chars_of, debug_list_string, decimal_string, is_whitespace_char, join_path, join_strings,
    signed_decimal_string, split_lines, split_whitespace, string_of, text_eq,
    trim_matches_char, unescape_newlines_string,
};

fn strings(ws: &[&str]) -> Vec<String> {
    ws.iter().map(|w| w.to_string()).collect()
}

#[test]
fn split_whitespace_matches_std() {
    for s in ["", "  ", "a", " a  b\tc\n", "x\u{3000}y\u{85}z", "tab\tsep\r\nend", "\u{2003}em"] {
        let expected: Vec<String> = s.split_whitespace().map(|w| w.to_string()).collect();
        assert_eq!(split_whitespace(s), expected, "input {:?}", s);
    }
}

#[test]
fn split_lines_keeps_empty_middle_lines() {
    assert_eq!(split_lines(""), strings(&[]));
    assert_eq!(split_lines("a"), strings(&["a"]));
    assert_eq!(split_lines("a\n"), strings(&["a"]));
    assert_eq!(split_lines("\n"), strings(&[""]));
    assert_eq!(split_lines("a\n\nb"), strings(&["a", "", "b"]));
    assert_eq!(split_lines("a\n\n"), strings(&["a", ""]));
}

#[test]
fn split_lines_matches_std_lines() {
    for s in ["", "a\r\nb", "a\r\n", "a\r", "\r\n\r\n", "x\ry\nz", "a\r\r\n", "\n\r", "one"] {
        let expected: Vec<String> = s.lines().map(|l| l.to_string()).collect();
        assert_eq!(split_lines(s), expected, "input {:?}", s);
    }
}

#[test]
fn whitespace_is_unicode_white_space() {
    for c in ['\t', '\n', '\u{0B}', '\u{0C}', '\r', ' ', '\u{85}', '\u{A0}', '\u{1680}', '\u{2000}', '\u{200A}', '\u{2028}', '\u{2029}', '\u{202F}', '\u{205F}', '\u{3000}'] {
        assert!(is_whitespace_char(c));
        assert!(c.is_whitespace());
    }
    for c in ['a', '#', '\u{200B}', '\u{180E}', '_', '0'] {
        assert_eq!(is_whitespace_char(c), c.is_whitespace());
    }
}

#[test]
fn join_strings_puts_separator_between() {
    assert_eq!(join_strings(&strings(&[]), ", "), "");
    assert_eq!(join_strings(&strings(&["a"]), ", "), "a");
    assert_eq!(join_strings(&strings(&["a", "b", "c"]), ", "), "a, b, c");
    assert_eq!(join_strings(&strings(&["a", "b"]), ""), "ab");
}

#[test]
fn join_path_matches_std_path_join() {
    let cases = [
        ("/var/lib", "images"),
        ("/var/lib/", "images"),
        ("", "images"),
        ("/var/lib", "/etc"),
        ("/var/lib", ""),
        ("rel", "x/y"),
    ];
    for (base, part) in cases {
        let expected = std::path::Path::new(base).join(part).to_str().unwrap().to_string();
        assert_eq!(join_path(base, part), expected, "{:?} + {:?}", base, part);
    }
}

#[test]
fn decimal_strings_match_to_string() {
    for n in [0u64, 7, 10, 42, 1000, 123456789, u64::MAX] {
        assert_eq!(decimal_string(n), n.to_string());
    }
    for n in [0i32, -1, 5, -42, i32::MAX, i32::MIN] {
        assert_eq!(signed_decimal_string(n), n.to_string());
    }
}

#[test]
fn newline_escapes_are_unescaped() {
    assert_eq!(unescape_newlines_string("a\\nb"), "a\nb");
    assert_eq!(unescape_newlines_string("\\n\\n"), "\n\n");
    assert_eq!(unescape_newlines_string("\\\\n"), "\\\n");
    assert_eq!(unescape_newlines_string("no escape\\"), "no escape\\");
    assert_eq!(unescape_newlines_string("x\\ty"), "x\\ty");
    for s in ["a\\nb", "\\\\n", "\\", "\\n\\", ""] {
        assert_eq!(unescape_newlines_string(s), s.replace("\\n", "\n"));
    }
}

#[test]
fn trim_char_matches_trim_matches() {
    for s in ["\0\0abc\0", "abc", "\0\0", "", "a\0b", "\0a\0b\0"] {
        assert_eq!(trim_matches_char(s, '\0'), s.trim_matches('\0'));
    }
}

#[test]
fn debug_list_matches_vec_debug() {
    for items in [strings(&[]), strings(&["a"]), strings(&["a b", "quote\"", "tab\t"])] {
        assert_eq!(debug_list_string(&items), format!("{:?}", items));
    }
}

#[test]
fn chars_and_strings_round_trip() {
    let s = "héllo wörld";
    let cs = chars_of(s);
    assert_eq!(cs.len(), 11);
    assert_eq!(string_of(&cs), s);
    assert!(text_eq("abc", "abc"));
    assert!(!text_eq("abc", "abd"));
    assert!(!text_eq("abc", "ab"));
}
