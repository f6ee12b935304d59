use vrm_tui::names::NameSet;
use vrm_tui::suffix::normalize_suffix;
use vrm_tui::text::{char_is_whitespace, chars_end_with, chars_of, decimal_string, join, rank, same_text, text_ends_with, Rank};

const SAMPLES: [&str; 24] = [
    "", "a", "A", "ab", "abc", "abd", "b", "_", "__", " ", "a ", " a", "본", "본 이름", "의상", "é",
    "e\u{301}", "𝄞", "\u{ffff}", "\u{10000}", "\u{d7ff}", "\u{e000}", "~", "z",
];

#[test]
fn suffix_with_underscores_at_both_ends() {
    assert_eq!(normalize_suffix("  __cloth__  "), "__cloth");
}

#[test]
fn suffix_gets_its_underscore() {
    assert_eq!(normalize_suffix("cloth"), "_cloth");
    assert_eq!(normalize_suffix("cloth_"), "_cloth");
    assert_eq!(normalize_suffix("\tcloth___\n"), "_cloth");
    assert_eq!(normalize_suffix("a_b"), "_a_b");
    assert_eq!(normalize_suffix("옷"), "_옷");
}

#[test]
fn suffix_that_starts_with_an_underscore_is_kept() {
    assert_eq!(normalize_suffix("_cloth"), "_cloth");
    assert_eq!(normalize_suffix("___cloth"), "___cloth");
    assert_eq!(normalize_suffix("_a_"), "_a");
}

#[test]
fn blank_suffixes_are_empty() {
    for raw in ["", " ", "   \t\r\n", "_", "______", "  __  ", "\u{a0}\u{2003}\u{3000}", "\u{85}_\u{1680}"] {
        assert_eq!(normalize_suffix(raw), "");
    }
}

#[test]
fn inner_white_space_and_underscores_stay() {
    assert_eq!(normalize_suffix(" a b "), "_a b");
    assert_eq!(normalize_suffix("_ _"), "_ ");
    assert_eq!(normalize_suffix("a _"), "_a ");
    assert_eq!(normalize_suffix("\u{200b}x"), "_\u{200b}x");
}

#[test]
fn normalizing_twice_changes_nothing_more() {
    for raw in ["cloth", "  __cloth__  ", "_a_b_", " x y ", "옷__", "_", "", "a__ __b"] {
        let once = normalize_suffix(raw);
        assert_eq!(normalize_suffix(&once), once);
    }
}

#[test]
fn normalize_agrees_with_trimming_by_hand() {
    for raw in ["  x_ ", "_", " _y", "\u{2028}z__\u{2029}", "q\u{202f}", "\u{205f}\u{feff}w"] {
        let core = raw.trim().trim_end_matches('_');
        let expected = if core.is_empty() {
            String::new()
        } else if core.starts_with('_') {
            core.to_string()
        } else {
            format!("_{}", core)
        };
        assert_eq!(normalize_suffix(raw), expected);
    }
}

#[test]
fn white_space_is_what_the_standard_library_says() {
    let mut code: u32 = 0;
    while code <= 0x10ffff {
        if let Some(c) = char::from_u32(code) {
            assert_eq!(char_is_whitespace(c), c.is_whitespace());
        }
        code += 1;
    }
}

#[test]
fn rank_is_the_order_of_strings() {
    for a in SAMPLES {
        for b in SAMPLES {
            let expected = if a < b {
                Rank::Before
            } else if a == b {
                Rank::Same
            } else {
                Rank::After
            };
            assert_eq!(rank(a, b), expected);
            assert_eq!(same_text(a, b), a == b);
        }
    }
}

#[test]
fn rank_puts_a_prefix_first() {
    assert_eq!(rank("ab", "abc"), Rank::Before);
    assert_eq!(rank("abc", "ab"), Rank::After);
    assert_eq!(rank("", ""), Rank::Same);
    assert_eq!(rank("", "a"), Rank::Before);
}

#[test]
fn chars_of_lists_the_characters() {
    assert_eq!(chars_of(""), Vec::<char>::new());
    assert_eq!(chars_of("a본𝄞"), vec!['a', '본', '𝄞']);
}

#[test]
fn ends_with_is_the_order_of_strings() {
    for a in SAMPLES {
        for b in SAMPLES {
            assert_eq!(text_ends_with(a, b), a.ends_with(b));
            assert_eq!(chars_end_with(&chars_of(a), &chars_of(b)), a.ends_with(b));
        }
    }
    assert!(text_ends_with("Spine_cloth", "_cloth"));
    assert!(!text_ends_with("Spine_cloth_", "_cloth"));
    assert!(!text_ends_with("cloth", "_cloth"));
    assert!(text_ends_with("anything", ""));
}

#[test]
fn decimal_string_writes_numbers() {
    assert_eq!(decimal_string(0), "0");
    assert_eq!(decimal_string(7), "7");
    assert_eq!(decimal_string(9), "9");
    assert_eq!(decimal_string(10), "10");
    assert_eq!(decimal_string(120), "120");
    assert_eq!(decimal_string(9876543210), "9876543210");
    assert_eq!(decimal_string(usize::MAX), usize::MAX.to_string());
}

#[test]
fn join_puts_the_separator_between() {
    let none: Vec<String> = vec![];
    assert_eq!(join(&none, " | "), "");
    assert_eq!(join(&vec!["a".to_string()], " | "), "a");
    assert_eq!(join(&vec!["a".to_string(), "".to_string(), "c".to_string()], " | "), "a |  | c");
    assert_eq!(join(&vec!["x".to_string(), "y".to_string()], ""), "xy");
}

#[test]
fn name_set_keeps_each_name_once_in_order() {
    let mut set = NameSet::new();
    assert_eq!(set.len(), 0);
    assert!(!set.contains("a"));
    assert!(set.insert("m"));
    assert!(set.insert("a"));
    assert!(set.insert("z"));
    assert!(!set.insert("m"));
    assert!(set.insert(""));
    assert!(set.insert("본"));
    assert!(!set.insert("a"));
    assert_eq!(set.len(), 5);
    assert!(set.contains("a"));
    assert!(set.contains(""));
    assert!(!set.contains("b"));
    assert!(!set.contains("A"));
    let expected: Vec<String> = ["", "a", "m", "z", "본"].iter().map(|s| s.to_string()).collect();
    assert_eq!(set.names(), &expected);
    assert_eq!(set.into_names(), expected);
}

#[test]
fn a_normal_form_that_ends_in_white_space_loses_it_the_next_time() {
    assert_eq!(normalize_suffix("a _"), "_a ");
    assert_eq!(normalize_suffix("_a "), "_a");
    assert_eq!(normalize_suffix("_ _"), "_ ");
    assert_eq!(normalize_suffix("_ "), "");
}
