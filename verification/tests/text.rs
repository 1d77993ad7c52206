use lib::text::{
    chars_of, clean_comment_body, i64_to_string, is_whitespace, remove_comment_tags,
    string_of, trim_str, u64_to_string,
};

#[test]
fn whitespace_is_the_separator_set() {
    // The separators and the ASCII white-space controls; U+0085 is a
    // control and U+180E a space separator.
    for u in 0u32..=0x10FFFF {
        if let Some(c) = char::from_u32(u) {
            let expected = match u {
                0x85 => false,
                0x180E => true,
                _ => c.is_whitespace(),
            };
            assert_eq!(is_whitespace(c), expected, "char {:#x}", u);
        }
    }
    assert!(!is_whitespace('\u{85}'));
    assert!(is_whitespace('\u{180e}'));
    assert!(is_whitespace('\u{2029}'));
    assert!(!is_whitespace('\u{200b}'));
}

#[test]
fn trim_removes_unicode_whitespace_at_both_ends() {
    assert_eq!(trim_str("  a b \t\n"), "a b");
    assert_eq!(trim_str("\u{3000}x\u{a0}"), "x");
    assert_eq!(trim_str("   "), "");
    assert_eq!(trim_str(""), "");
    assert_eq!(trim_str("x"), "x");
}

#[test]
fn trim_matches_std_on_ordinary_white_space() {
    for s in ["", " ", "a", " a ", "\tc d\r\n", "\u{2028}b\u{3000}"] {
        assert_eq!(trim_str(s), s.trim());
    }
}

#[test]
fn trim_keeps_next_line_and_drops_mongolian_vowel_separator() {
    assert_eq!(trim_str("\u{2028}b\u{85}"), "b\u{85}");
    assert_eq!(trim_str("\u{180e}e"), "e");
    assert_eq!(trim_str("\u{85}f\u{180e}"), "\u{85}f");
}

#[test]
fn trimming_twice_is_trimming_once() {
    let once = trim_str("  \u{2003}doc text\n ");
    assert_eq!(trim_str(&once), once);
}

#[test]
fn chars_round_trip() {
    let v = chars_of("héllo");
    assert_eq!(v, vec!['h', 'é', 'l', 'l', 'o']);
    assert_eq!(string_of(&v), "héllo");
}

#[test]
fn remove_comment_tags_line_comment() {
    assert_eq!(remove_comment_tags("/// Hello world  "), "Hello world");
    assert_eq!(remove_comment_tags("///"), "");
}

#[test]
fn remove_comment_tags_block_comments() {
    assert_eq!(remove_comment_tags("/** Block doc */"), "Block doc");
    assert_eq!(remove_comment_tags("/*! Inner doc */"), "Inner doc");
    assert_eq!(remove_comment_tags("/**x*/"), "x");
    assert_eq!(remove_comment_tags("/***/"), "");
}

#[test]
fn remove_comment_tags_block_ending_in_two_byte_char() {
    // The closing two bytes are one character here.
    assert_eq!(remove_comment_tags("/** ab é"), "ab");
}

#[test]
fn remove_comment_tags_other_slash_text_is_trimmed() {
    assert_eq!(remove_comment_tags("// plain comment "), "// plain comment");
    assert_eq!(remove_comment_tags("/é "), "/é");
}

#[test]
fn remove_comment_tags_keeps_other_text() {
    assert_eq!(remove_comment_tags("  not a comment "), "  not a comment ");
    assert_eq!(remove_comment_tags(""), "");
    assert_eq!(remove_comment_tags("doc"), "doc");
}

#[test]
fn clean_comment_body_strips_markers_per_line() {
    assert_eq!(clean_comment_body("// Foo\n//Bar\n // Baz\n".to_string()), "Foo\nBar\nBaz\n");
    assert_eq!(clean_comment_body("* Foo\n *  Bar".to_string()), "Foo\n Bar\n");
    assert_eq!(clean_comment_body("".to_string()), "\n");
    assert_eq!(clean_comment_body("\t*\tx".to_string()), "x\n");
}

#[test]
fn clean_comment_body_keeps_inner_markers() {
    // Blanks are dropped until a marker opens the line.
    assert_eq!(clean_comment_body("a * b / c".to_string()), "ab / c\n");
    assert_eq!(clean_comment_body("* a * b / c".to_string()), "a * b / c\n");
    assert_eq!(clean_comment_body("**x".to_string()), "*x\n");
}

#[test]
fn decimal_numerals() {
    assert_eq!(u64_to_string(0), "0");
    assert_eq!(u64_to_string(7), "7");
    assert_eq!(u64_to_string(1234567890), "1234567890");
    assert_eq!(u64_to_string(u64::MAX), u64::MAX.to_string());
    assert_eq!(i64_to_string(0), "0");
    assert_eq!(i64_to_string(-42), "-42");
    assert_eq!(i64_to_string(i64::MIN), i64::MIN.to_string());
    assert_eq!(i64_to_string(i64::MAX), i64::MAX.to_string());
}

#[test]
fn clean_comment_body_keeps_each_line() {
    let body = clean_comment_body("* a\n * b\n *\n * c".to_string());
    assert_eq!(body, "a\nb\n\nc\n");
    assert_eq!(body.matches('\n').count(), 4);
}
