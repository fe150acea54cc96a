use cableforge::text::{
    char_is_whitespace, chars_of, contains, digit_value, eq_ignore_ascii_case, fold_ascii,
    is_blank_text, parses_as_i32, remove_char, same_text, trim,
};

const SAMPLES: [&str; 24] = [
    "", " ", "a", "A", "abc", "ABC", " abc ", "\tabc\n", "a b", "C-001", "c-001", "C\u{2013}001",
    "\u{2003}x\u{3000}", "\u{a0}", "\u{85}\u{1680}\u{2028}\u{2029}\u{202f}\u{205f}", "\u{200b}",
    "IS Signal", "Non-IS Signal", "12 AWG", "#10", "stra\u{df}e", "\u{1f600}", "\u{1c}\u{1f}",
    "  \u{b}\u{c}\r ",
];

#[test]
fn white_space_is_the_unicode_property() {
    for code in 0..=0x10FFFFu32 {
        if let Some(c) = char::from_u32(code) {
            assert_eq!(char_is_whitespace(c), c.is_whitespace(), "U+{:04X}", code);
        }
    }
}

#[test]
fn folding_is_ascii_lower_case() {
    for code in 0..=0x10FFFFu32 {
        if let Some(c) = char::from_u32(code) {
            assert_eq!(fold_ascii(c), c.to_ascii_lowercase() as u32);
        }
    }
    assert_eq!(fold_ascii('A'), 'a' as u32);
    assert_eq!(fold_ascii('Z'), 'z' as u32);
    assert_eq!(fold_ascii('@'), '@' as u32);
    assert_eq!(fold_ascii('['), '[' as u32);
    assert_eq!(fold_ascii('\u{c4}'), 0xc4);
}

#[test]
fn digits_have_values() {
    for (value, c) in "0123456789".chars().enumerate() {
        assert_eq!(digit_value(c), Some(value as u64));
    }
    for c in ['/', ':', 'a', ' ', '\u{661}', '\u{ff11}'] {
        assert_eq!(digit_value(c), None);
    }
}

#[test]
fn chars_are_decoded_in_order() {
    for s in SAMPLES {
        assert_eq!(chars_of(s), s.chars().collect::<Vec<char>>());
    }
}

#[test]
fn trim_strips_white_space_at_both_ends() {
    for s in SAMPLES {
        assert_eq!(trim(s), s.trim());
    }
    assert_eq!(trim("  a  b  "), "a  b");
    assert_eq!(trim("\u{3000}\u{2003}"), "");
    assert_eq!(trim("\u{200b} "), "\u{200b}");
}

#[test]
fn blank_means_nothing_but_white_space() {
    for s in SAMPLES {
        assert_eq!(is_blank_text(s), s.trim().is_empty());
    }
    assert!(is_blank_text(""));
    assert!(is_blank_text(" \t\r\n"));
    assert!(!is_blank_text(" . "));
}

#[test]
fn same_text_compares_letter_for_letter() {
    for a in SAMPLES {
        for b in SAMPLES {
            assert_eq!(same_text(a, b), a == b);
        }
    }
}

#[test]
fn case_of_ascii_letters_is_ignored() {
    for a in SAMPLES {
        for b in SAMPLES {
            assert_eq!(eq_ignore_ascii_case(a, b), a.eq_ignore_ascii_case(b));
        }
    }
    assert!(eq_ignore_ascii_case("C-001", "c-001"));
    assert!(eq_ignore_ascii_case("", ""));
    assert!(!eq_ignore_ascii_case("C-001", "C-0010"));
    assert!(!eq_ignore_ascii_case("\u{c4}", "\u{e4}"));
    assert!(!eq_ignore_ascii_case("@", "`"));
    assert!(!eq_ignore_ascii_case("[", "{"));
}

#[test]
fn contains_finds_a_run_of_characters() {
    for a in SAMPLES {
        for b in SAMPLES {
            assert_eq!(contains(a, b), a.contains(b), "{:?} in {:?}", b, a);
        }
    }
    assert!(contains("Non-IS Signal", "IS"));
    assert!(contains("IS", "IS"));
    assert!(!contains("I S", "IS"));
    assert!(!contains("is", "IS"));
    assert!(contains("abc", ""));
    assert!(contains("", ""));
    assert!(!contains("", "a"));
    assert!(contains("aab", "ab"));
}

#[test]
fn remove_char_takes_out_every_occurrence() {
    for s in SAMPLES {
        assert_eq!(remove_char(s, '#'), s.replace('#', ""));
        assert_eq!(remove_char(s, ' '), s.replace(' ', ""));
    }
    assert_eq!(remove_char("#1#0#", '#'), "10");
    assert_eq!(remove_char("###", '#'), "");
    assert_eq!(remove_char("\u{1f600}#\u{df}", '#'), "\u{1f600}\u{df}");
}

#[test]
fn i32_texts_are_what_i32_parses() {
    let samples = [
        "", "0", "7", "10", "-10", "+10", "+", "-", "--1", "+-1", "1+", " 1", "1 ", "1_000",
        "0000000000000000000012", "-0", "+0", "2147483647", "2147483648", "-2147483648",
        "-2147483649", "+2147483647", "+2147483648", "99999999999999999999999999", "1e3", "0x10",
        "12a", "a12", "1.0", "\u{661}", "\u{ff11}", "4294967296", "18446744073709551616",
        "-00000000002147483648", "21474836470",
    ];
    for s in samples {
        assert_eq!(parses_as_i32(s), s.parse::<i32>().is_ok(), "{:?}", s);
    }
}
