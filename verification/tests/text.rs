use architect_linter::text::{
    chars_of, is_whitespace, remove_pattern, str_contains, trim, trim_end_matches,
    trim_start_matches,
};

const SAMPLES: [&str; 14] = [
    "",
    " ",
    "a",
    "  a b \n",
    "\t\r\n x \u{b}\u{c}",
    "\u{3000}x\u{85}",
    "\u{a0}\u{1680}\u{2000}\u{200a}\u{2028}\u{2029}\u{202f}\u{205f}y",
    "\u{200b} z \u{180e}",
    "```json\n{\"a\": 1}\n```",
    "aaa",
    "abab",
    "ñandú ÁRBOL",
    "``` ``` ```json```",
    "node_modules/x",
];

const PATTERNS: [&str; 9] = ["", "a", "aa", "ab", "```", "```json", " ", "ñ", "node_modules"];

#[test]
fn white_space_is_the_unicode_property() {
    for code in 0u32..=0x3100 {
        if let Some(c) = char::from_u32(code) {
            assert_eq!(is_whitespace(c), c.is_whitespace(), "U+{:04X}", code);
        }
    }
    assert!(!is_whitespace('\u{feff}'));
    assert!(!is_whitespace(char::MAX));
}

#[test]
fn trim_takes_white_space_off_both_ends() {
    assert_eq!(trim("  a b \n"), "a b");
    assert_eq!(trim("   "), "");
    assert_eq!(trim(""), "");
    assert_eq!(trim("x"), "x");
    for sample in SAMPLES {
        assert_eq!(trim(sample), sample.trim(), "{:?}", sample);
    }
}

#[test]
fn patterns_are_taken_out_from_the_left() {
    assert_eq!(remove_pattern("a```b```json c", "```"), "abjson c");
    assert_eq!(remove_pattern("aaa", "aa"), "a");
    assert_eq!(remove_pattern("abab", "ab"), "");
    assert_eq!(remove_pattern("abc", ""), "abc");
    assert_eq!(remove_pattern("", "ab"), "");
    for sample in SAMPLES {
        for pattern in PATTERNS {
            assert_eq!(
                remove_pattern(sample, pattern),
                sample.replace(pattern, ""),
                "{:?} {:?}",
                sample,
                pattern
            );
        }
    }
}

#[test]
fn substrings_are_found() {
    assert!(str_contains("src/users/user.controller.ts", "controller"));
    assert!(!str_contains("src/users/user.service.ts", "controller"));
    assert!(str_contains("abc", ""));
    assert!(str_contains("", ""));
    assert!(!str_contains("", "a"));
    assert!(!str_contains("ab", "abc"));
    assert!(str_contains("xxab", "ab"));
    assert!(str_contains("aab", "ab"));
    for sample in SAMPLES {
        for pattern in PATTERNS {
            assert_eq!(
                str_contains(sample, pattern),
                sample.contains(pattern),
                "{:?} {:?}",
                sample,
                pattern
            );
        }
    }
}

#[test]
fn ends_are_trimmed_as_the_standard_library_does() {
    for sample in SAMPLES {
        assert_eq!(trim_end_matches(sample, '`'), sample.trim_end_matches('`'));
        assert_eq!(trim_end_matches(sample, 'a'), sample.trim_end_matches('a'));
        for pattern in PATTERNS {
            if !pattern.is_empty() {
                assert_eq!(
                    trim_start_matches(sample, pattern),
                    sample.trim_start_matches(pattern),
                    "{:?} {:?}",
                    sample,
                    pattern
                );
            }
        }
    }
}

#[test]
fn characters_of_a_text() {
    assert_eq!(chars_of("añ→"), vec!['a', 'ñ', '→']);
    assert!(chars_of("").is_empty());
}
