use gpt_macro::text::{chars_of, find_in, is_white_space, same_text, trim_bounds};

#[test]
fn is_white_space_agrees_with_std_on_every_character() {
    let mut count = 0;
    for n in 0..=0x10FFFFu32 {
        if let Some(c) = char::from_u32(n) {
            assert_eq!(is_white_space(c), c.is_whitespace(), "U+{:04X}", n);
            if is_white_space(c) {
                count += 1;
            }
        }
    }
    assert_eq!(count, 25);
}

#[test]
fn is_white_space_on_chosen_characters() {
    for c in [' ', '\t', '\n', '\r', '\u{b}', '\u{c}', '\u{85}', '\u{a0}', '\u{3000}'] {
        assert!(is_white_space(c));
    }
    for c in ['a', '`', '\u{8}', '\u{e}', '\u{200b}', '\u{feff}', '\u{180e}', '\0'] {
        assert!(!is_white_space(c));
    }
}

#[test]
fn chars_of_lists_the_characters() {
    assert_eq!(chars_of(""), Vec::<char>::new());
    assert_eq!(chars_of("a\u{e9}\u{1F600}z"), vec!['a', '\u{e9}', '\u{1F600}', 'z']);
}

#[test]
fn find_in_returns_the_leftmost_index() {
    let text = chars_of("abcabcabd");
    assert_eq!(find_in(&text, &chars_of("abc")), Some(0));
    assert_eq!(find_in(&text, &chars_of("bca")), Some(1));
    assert_eq!(find_in(&text, &chars_of("abd")), Some(6));
    assert_eq!(find_in(&text, &chars_of("abcabcabd")), Some(0));
    assert_eq!(find_in(&text, &chars_of("d")), Some(8));
}

#[test]
fn find_in_returns_nothing_where_the_pattern_is_absent() {
    let text = chars_of("abcabcabd");
    assert_eq!(find_in(&text, &chars_of("abe")), None);
    assert_eq!(find_in(&text, &chars_of("abcabcabda")), None);
    assert_eq!(find_in(&chars_of(""), &chars_of("a")), None);
}

#[test]
fn find_in_finds_the_empty_pattern_at_the_start() {
    assert_eq!(find_in(&chars_of("abc"), &chars_of("")), Some(0));
    assert_eq!(find_in(&chars_of(""), &chars_of("")), Some(0));
}

#[test]
fn find_in_counts_characters_not_bytes() {
    let text = chars_of("\u{e9}\u{e9}```");
    assert_eq!(find_in(&text, &chars_of("```")), Some(2));
}

#[test]
fn trim_bounds_cut_off_white_space() {
    assert_eq!(trim_bounds(&chars_of("  ab c \n")), (2, 6));
    assert_eq!(trim_bounds(&chars_of("abc")), (0, 3));
    assert_eq!(trim_bounds(&chars_of("\u{a0}x\u{2003}")), (1, 2));
    assert_eq!(trim_bounds(&chars_of("")), (0, 0));
}

#[test]
fn trim_bounds_of_white_space_alone_are_empty() {
    let (a, b) = trim_bounds(&chars_of(" \n\t "));
    assert_eq!(a, b);
}

#[test]
fn trim_bounds_agree_with_std() {
    for text in ["", " ", "a", " a", "a ", "\n a b \t", "\u{3000}\u{e9} \u{e9}\u{85}"] {
        let chars = chars_of(text);
        let (a, b) = trim_bounds(&chars);
        let cut: String = chars[a..b].iter().collect();
        assert_eq!(cut, text.trim());
    }
}

#[test]
fn same_text_compares_texts() {
    assert!(same_text("", ""));
    assert!(same_text("test_a", "test_a"));
    assert!(!same_text("test_a", "test_b"));
    assert!(!same_text("test_a", "test_"));
    assert!(!same_text("", "a"));
}
